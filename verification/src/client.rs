//! The request builder.
//!
//! A [`Zotero`] value names a user or group library together with an
//! optional API key.  Every operation of the API is a pure function from
//! that value (plus the operation's own arguments) to an [`ApiRequest`]: a
//! plain description of method, URL, headers and body that a transport can
//! execute.  Building a request never performs I/O and never panics;
//! operations that need a concurrency token report a
//! `RequestCreationError` when the token is unusable.

use vstd::prelude::*;
use vstd::string::StrSliceExecFns;
use vstd::string::StringExecFns;

use crate::error::ZoteroApiError;
use crate::json::JsonValue;
use crate::urlencode::form_urlencode;
use crate::urlencode::form_urlencoded;

verus! {

/// A fully built HTTP request, ready for a transport to execute.
#[derive(Debug, PartialEq)]
pub struct ApiRequest {
    pub method: String,
    pub url: String,
    pub headers: Vec<(String, String)>,
    pub body: Option<JsonValue>,
}

/// The first header named `name`, if any.
pub open spec fn header_value(headers: Seq<(String, String)>, name: Seq<char>) -> Option<
    Seq<char>,
>
    decreases headers.len(),
{
    if headers.len() == 0 {
        None
    } else if headers[0].0@ == name {
        Some(headers[0].1@)
    } else {
        header_value(headers.skip(1), name)
    }
}

impl ApiRequest {
    /// The value of the first header named `name`.
    pub open spec fn header_spec(self, name: Seq<char>) -> Option<Seq<char>> {
        header_value(self.headers@, name)
    }

    /// Whether a header of that name was attached.
    #[verifier::loop_isolation(false)]
    pub fn has_header(&self, name: &str) -> (r: bool)
        ensures
            r == (self.header_spec(name@) is Some),
    {
        let n = self.headers.len();
        let mut i: usize = 0;
        while i < n
            invariant
                i <= n,
                n == self.headers.len(),
                forall|j: int| 0 <= j < i ==> self.headers@[j].0@ != name@,
        decreases n - i,
        {
            let pair = &self.headers[i];
            if crate::json::str_eq(pair.0.as_str(), name) {
                proof {
                    lemma_header_skip(self.headers@, name@, i as int);
                    assert(self.headers@.skip(i as int)[0] == self.headers@[i as int]);
                }
                return true;
            }
            i += 1;
        }
        proof {
            lemma_header_skip(self.headers@, name@, n as int);
        }
        false
    }

    /// The value of the first header named `name`.
    #[verifier::loop_isolation(false)]
    pub fn header<'a>(&'a self, name: &str) -> (r: Option<&'a String>)
        ensures
            match r {
                Some(v) => self.header_spec(name@) == Some(v@),
                None => self.header_spec(name@) is None,
            },
    {
        let n = self.headers.len();
        let mut i: usize = 0;
        while i < n
            invariant
                i <= n,
                n == self.headers.len(),
                forall|j: int| 0 <= j < i ==> self.headers@[j].0@ != name@,
        decreases n - i,
        {
            let pair = &self.headers[i];
            if crate::json::str_eq(pair.0.as_str(), name) {
                proof {
                    lemma_header_skip(self.headers@, name@, i as int);
                    assert(self.headers@.skip(i as int)[0] == self.headers@[i as int]);
                }
                return Some(&pair.1);
            }
            i += 1;
        }
        proof {
            lemma_header_skip(self.headers@, name@, n as int);
        }
        None
    }
}

/// A lookup in an empty header list finds nothing.
proof fn lemma_header_empty(name: Seq<char>)
    ensures
        header_value(Seq::<(String, String)>::empty(), name) is None,
{
}

/// Skipping headers of other names leaves the lookup unchanged.
proof fn lemma_header_skip(headers: Seq<(String, String)>, name: Seq<char>, i: int)
    requires
        0 <= i <= headers.len(),
        forall|j: int| 0 <= j < i ==> headers[j].0@ != name,
    ensures
        header_value(headers, name) == header_value(headers.skip(i), name),
    decreases i,
{
    if i > 0 {
        lemma_header_skip(headers.skip(1), name, i - 1);
        assert(headers.skip(1).skip(i - 1) =~= headers.skip(i));
    } else {
        assert(headers.skip(0) =~= headers);
    }
}

/// The two header names the builder uses are distinct.
proof fn lemma_distinct_header_names()
    ensures
        "Authorization"@ != "If-Unmodified-Since-Version"@,
{
    reveal_strlit("Authorization");
    reveal_strlit("If-Unmodified-Since-Version");
    assert("Authorization"@.len() != "If-Unmodified-Since-Version"@.len());
}

/// Either a user library or a group library, together with the credentials
/// the caller supplied for it.  A group library may be keyless: public
/// groups allow unauthenticated reads.
#[derive(Debug, PartialEq)]
pub enum LibraryType {
    UserLibrary { user_id: String, api_key: String },
    GroupLibrary { group_id: String, api_key: Option<String> },
}

impl LibraryType {
    /// The numeric identifier of the library, as the caller wrote it.
    pub open spec fn id_spec(self) -> Seq<char> {
        match self {
            LibraryType::UserLibrary { user_id, .. } => user_id@,
            LibraryType::GroupLibrary { group_id, .. } => group_id@,
        }
    }

    /// The API key, if one was supplied.
    pub open spec fn api_key_spec(self) -> Option<Seq<char>> {
        match self {
            LibraryType::UserLibrary { api_key, .. } => Some(api_key@),
            LibraryType::GroupLibrary { api_key, .. } => match api_key {
                Some(k) => Some(k@),
                None => None,
            },
        }
    }

    /// The base URL every path of this library is appended to.
    pub open spec fn base_url_spec(self) -> Seq<char> {
        match self {
            LibraryType::UserLibrary { user_id, .. } => "https://api.zotero.org/"@ + "users/"@
                + user_id@ + "/"@,
            LibraryType::GroupLibrary { group_id, .. } => "https://api.zotero.org/"@ + "groups/"@
                + group_id@ + "/"@,
        }
    }

    /// A group library.
    pub fn group(group_id: &str, api_key: Option<&str>) -> (r: LibraryType)
        ensures
            r is GroupLibrary,
            r.id_spec() == group_id@,
            r.api_key_spec() == match api_key {
                Some(k) => Some(k@),
                None => None::<Seq<char>>,
            },
    {
        LibraryType::GroupLibrary {
            group_id: group_id.to_owned(),
            api_key: match api_key {
                Some(k) => Some(k.to_owned()),
                None => None,
            },
        }
    }

    /// A user library.
    pub fn user(user_id: &str, api_key: &str) -> (r: LibraryType)
        ensures
            r is UserLibrary,
            r.id_spec() == user_id@,
            r.api_key_spec() == Some(api_key@),
    {
        LibraryType::UserLibrary { user_id: user_id.to_owned(), api_key: api_key.to_owned() }
    }

    /// The identifier of the library.
    pub fn get_id(&self) -> (r: &str)
        ensures
            r@ == self.id_spec(),
    {
        match self {
            LibraryType::UserLibrary { user_id, .. } => user_id.as_str(),
            LibraryType::GroupLibrary { group_id, .. } => group_id.as_str(),
        }
    }

    /// The API key, if one was supplied.
    pub fn get_api_key(&self) -> (r: Option<&str>)
        ensures
            match r {
                Some(k) => self.api_key_spec() == Some(k@),
                None => self.api_key_spec() is None,
            },
    {
        match self {
            LibraryType::UserLibrary { api_key, .. } => Some(api_key.as_str()),
            LibraryType::GroupLibrary { api_key, .. } => match api_key {
                Some(k) => Some(k.as_str()),
                None => None,
            },
        }
    }

    /// The base URL of the library: host, library kind and identifier,
    /// ending in a slash.
    pub fn get_base_url(&self) -> (r: String)
        ensures
            r@ == self.base_url_spec(),
    {
        let mut s = "https://api.zotero.org/".to_owned();
        match self {
            LibraryType::UserLibrary { user_id, .. } => {
                s.append("users/");
                s.append(user_id.as_str());
            },
            LibraryType::GroupLibrary { group_id, .. } => {
                s.append("groups/");
                s.append(group_id.as_str());
            },
        }
        s.append("/");
        s
    }
}

/// A Zotero client: a library plus credentials.
#[derive(Debug, PartialEq)]
pub struct Zotero {
    pub library_type: LibraryType,
}

/// The historical front door for building a [`Zotero`] client.
#[derive(Debug, PartialEq)]
pub struct ZoteroInit {
    pub library_type: Option<LibraryType>,
}

impl ZoteroInit {
    /// A client for a group library; the API key is optional.
    pub fn set_group(group_id: &str, api_key: Option<&str>) -> (r: Zotero)
        ensures
            r.library_type is GroupLibrary,
            r.library_type.id_spec() == group_id@,
            r.library_type.api_key_spec() == match api_key {
                Some(k) => Some(k@),
                None => None::<Seq<char>>,
            },
    {
        Zotero { library_type: LibraryType::group(group_id, api_key) }
    }

    /// A client for a user library.
    pub fn set_user(user_id: &str, api_key: &str) -> (r: Zotero)
        ensures
            r.library_type is UserLibrary,
            r.library_type.id_spec() == user_id@,
            r.library_type.api_key_spec() == Some(api_key@),
    {
        Zotero { library_type: LibraryType::user(user_id, api_key) }
    }
}

/// A sequence of characters usable as the value of the optimistic
/// concurrency header: non-empty, visible ASCII.
pub open spec fn valid_version(v: Seq<char>) -> bool {
    v.len() > 0 && forall|i: int| 0 <= i < v.len() ==> ' ' < #[trigger] v[i] && v[i] <= '~'
}

/// Checks a version string against [`valid_version`].
#[verifier::loop_isolation(false)]
fn check_version(version: &str) -> (r: bool)
    ensures
        r == valid_version(version@),
{
    let n = version.unicode_len();
    if n == 0 {
        return false;
    }
    let mut i: usize = 0;
    while i < n
        invariant
            i <= n,
            n == version@.len(),
            forall|j: int| 0 <= j < i ==> ' ' < #[trigger] version@[j] && version@[j] <= '~',
        decreases n - i,
    {
        let c = version.get_char(i);
        if !(' ' < c && c <= '~') {
            return false;
        }
        i += 1;
    }
    true
}

/// The view of an optional string argument.
pub open spec fn opt_view(o: Option<&str>) -> Option<Seq<char>> {
    match o {
        Some(s) => Some(s@),
        None => None,
    }
}

/// The views of a list of string slices.
pub open spec fn str_views(ss: Seq<&str>) -> Seq<Seq<char>> {
    ss.map(|i: int, s: &str| s@)
}

/// The views of a list of strings.
pub open spec fn string_views(ss: Seq<String>) -> Seq<Seq<char>> {
    ss.map(|i: int, s: String| s@)
}

/// `parts` joined by `sep`.
pub open spec fn join_with(parts: Seq<Seq<char>>, sep: Seq<char>) -> Seq<char>
    decreases parts.len(),
{
    if parts.len() == 0 {
        Seq::<char>::empty()
    } else if parts.len() == 1 {
        parts[0]
    } else {
        parts[0] + sep + join_with(parts.skip(1), sep)
    }
}

/// Joining one more part appends a separator and the part.
proof fn lemma_join_snoc(parts: Seq<Seq<char>>, sep: Seq<char>, i: int)
    requires
        1 <= i < parts.len(),
    ensures
        join_with(parts.take(i + 1), sep) == join_with(parts.take(i), sep) + sep + parts[i],
    decreases i,
{
    let a = parts.take(i + 1);
    let b = parts.take(i);
    if i == 1 {
        assert(a =~= seq![parts[0], parts[1]]);
        assert(b =~= seq![parts[0]]);
        assert(a.skip(1) =~= seq![parts[1]]);
        assert(join_with(a, sep) == parts[0] + sep + join_with(seq![parts[1]], sep));
    } else {
        lemma_join_snoc(parts.skip(1), sep, i - 1);
        assert(a.skip(1) =~= parts.skip(1).take(i));
        assert(b.skip(1) =~= parts.skip(1).take(i - 1));
        assert(parts.skip(1)[i - 1] == parts[i]);
        assert(a[0] == parts[0]);
        assert(join_with(a, sep) == parts[0] + sep + join_with(parts.skip(1).take(i), sep));
        assert(join_with(b, sep) == parts[0] + sep + join_with(parts.skip(1).take(i - 1), sep));
        assert(join_with(a, sep) =~= join_with(b, sep) + sep + parts[i]);
    }
}

/// Joins strings with a separator.
#[verifier::loop_isolation(false)]
pub(crate) fn join_strings(parts: &Vec<String>, sep: &str) -> (r: String)
    ensures
        r@ == join_with(string_views(parts@), sep@),
{
    let mut out = String::new();
    let n = parts.len();
    let mut i: usize = 0;
    while i < n
        invariant
            i <= n,
            n == parts.len(),
            out@ == join_with(string_views(parts@).take(i as int), sep@),
        decreases n - i,
    {
        if i > 0 {
            out.append(sep);
        }
        out.append(parts[i].as_str());
        proof {
            let views = string_views(parts@);
            assert(views[i as int] == parts@[i as int]@);
            if i == 0 {
                assert(views.take(1) =~= seq![views[0]]);
                assert(out@ =~= join_with(views.take(1), sep@));
            } else {
                lemma_join_snoc(views, sep@, i as int);
            }
        }
        i += 1;
    }
    proof {
        assert(string_views(parts@).take(n as int) =~= string_views(parts@));
    }
    out
}

impl Zotero {
    /// A client for a group library; the API key is optional.
    pub fn set_group(group_id: &str, api_key: Option<&str>) -> (r: Zotero)
        ensures
            r.library_type is GroupLibrary,
            r.library_type.id_spec() == group_id@,
            r.library_type.api_key_spec() == match api_key {
                Some(k) => Some(k@),
                None => None::<Seq<char>>,
            },
    {
        Zotero { library_type: LibraryType::group(group_id, api_key) }
    }

    /// A client for a user library.
    pub fn set_user(user_id: &str, api_key: &str) -> (r: Zotero)
        ensures
            r.library_type is UserLibrary,
            r.library_type.id_spec() == user_id@,
            r.library_type.api_key_spec() == Some(api_key@),
    {
        Zotero { library_type: LibraryType::user(user_id, api_key) }
    }

    /// The identifier of the library the client addresses.
    pub fn get_id(&self) -> (r: &str)
        ensures
            r@ == self.library_type.id_spec(),
    {
        self.library_type.get_id()
    }

    /// The API key the client carries, if any.
    pub fn get_api_key(&self) -> (r: Option<&str>)
        ensures
            match r {
                Some(k) => self.library_type.api_key_spec() == Some(k@),
                None => self.library_type.api_key_spec() is None,
            },
    {
        self.library_type.get_api_key()
    }

    /// The base URL of the library the client addresses.
    pub fn get_base_url(&self) -> (r: String)
        ensures
            r@ == self.library_type.base_url_spec(),
    {
        self.library_type.get_base_url()
    }

    /// What every request built by this client guarantees: the URL is the
    /// library's base URL followed by the path (and the optional extra query
    /// string), and the Authorization header is attached exactly when the
    /// client carries a key.
    pub open spec fn is_request(
        self,
        r: ApiRequest,
        method: Seq<char>,
        path: Seq<char>,
        extra: Option<Seq<char>>,
    ) -> bool {
        &&& r.method@ == method
        &&& r.url@ == self.library_type.base_url_spec() + path + (match extra {
            None => Seq::<char>::empty(),
            Some(e) => "?"@ + e,
        })
        &&& (match self.library_type.api_key_spec() {
            Some(k) => r.header_spec("Authorization"@) == Some("Bearer "@ + k),
            None => r.header_spec("Authorization"@) is None,
        })
    }

    /// A request without a body and without a concurrency token.
    pub open spec fn is_simple_request(
        self,
        r: ApiRequest,
        method: Seq<char>,
        path: Seq<char>,
        extra: Option<Seq<char>>,
    ) -> bool {
        &&& self.is_request(r, method, path, extra)
        &&& r.headers@.len() == (if self.library_type.api_key_spec() is Some {
            1int
        } else {
            0int
        })
        &&& r.header_spec("If-Unmodified-Since-Version"@) is None
        &&& r.body is None
    }

    /// A delete request: carries the concurrency token, no body.
    pub open spec fn is_delete_request(self, r: ApiRequest, path: Seq<char>, version: Seq<char>) -> bool {
        &&& self.is_request(r, "DELETE"@, path, None)
        &&& r.headers@.len() == (if self.library_type.api_key_spec() is Some {
            2int
        } else {
            1int
        })
        &&& r.header_spec("If-Unmodified-Since-Version"@) == Some(version)
        &&& r.body is None
    }

    /// Builds a request against the library: base URL plus path, the
    /// Authorization header exactly when the client carries a key.
    pub fn request(&self, method: &str, path: &str, extra_params: Option<&str>, body: Option<
        JsonValue,
    >) -> (r: ApiRequest)
        ensures
            self.is_request(r, method@, path@, opt_view(extra_params)),
            r.headers@.len() == (if self.library_type.api_key_spec() is Some {
                1int
            } else {
                0int
            }),
            r.header_spec("If-Unmodified-Since-Version"@) is None,
            r.body == body,
    {
        let mut url = self.library_type.get_base_url();
        url.append(path);
        match extra_params {
            None => {},
            Some(e) => {
                url.append("?");
                url.append(e);
            },
        }
        proof {
            assert(url@ =~= self.library_type.base_url_spec() + path@ + (match opt_view(
                extra_params,
            ) {
                None => Seq::<char>::empty(),
                Some(e) => "?"@ + e,
            }));
        }
        let mut headers: Vec<(String, String)> = Vec::new();
        match self.library_type.get_api_key() {
            Some(k) => {
                let mut v = "Bearer ".to_owned();
                v.append(k);
                headers.push(("Authorization".to_owned(), v));
                proof {
                    lemma_distinct_header_names();
                    lemma_header_empty("If-Unmodified-Since-Version"@);
                    assert(headers@.len() == 1);
                    assert(headers@[0].0@ == "Authorization"@);
                    assert(headers@[0].1@ == "Bearer "@ + k@);
                    assert(headers@.skip(1) =~= Seq::<(String, String)>::empty());
                }
            },
            None => {},
        }
        ApiRequest { method: method.to_owned(), url, headers, body }
    }

    /// Builds a request against an absolute URL — the way a continuation
    /// link of a paginated answer is followed, with the same
    /// authorization as every other request of this client.
    pub fn request_uri(&self, method: &str, uri: &str) -> (r: ApiRequest)
        ensures
            r.method@ == method@,
            r.url@ == uri@,
            (match self.library_type.api_key_spec() {
                Some(k) => r.header_spec("Authorization"@) == Some("Bearer "@ + k),
                None => r.header_spec("Authorization"@) is None,
            }),
            r.header_spec("If-Unmodified-Since-Version"@) is None,
            r.body is None,
    {
        let mut headers: Vec<(String, String)> = Vec::new();
        match self.library_type.get_api_key() {
            Some(k) => {
                let mut v = "Bearer ".to_owned();
                v.append(k);
                headers.push(("Authorization".to_owned(), v));
                proof {
                    lemma_distinct_header_names();
                    lemma_header_empty("If-Unmodified-Since-Version"@);
                    assert(headers@.len() == 1);
                    assert(headers@[0].0@ == "Authorization"@);
                    assert(headers@[0].1@ == "Bearer "@ + k@);
                    assert(headers@.skip(1) =~= Seq::<(String, String)>::empty());
                }
            },
            None => {},
        }
        ApiRequest { method: method.to_owned(), url: uri.to_owned(), headers, body: None }
    }

    /// Builds a request that carries the optimistic concurrency token: as
    /// [`Self::request`], plus the `If-Unmodified-Since-Version` header with
    /// the version the caller last observed.  An unusable version value is a
    /// construction error.
    fn versioned_request(&self, method: &str, path: &str, body: Option<JsonValue>, last_version: &str) -> (r: Result<
        ApiRequest,
        ZoteroApiError,
    >)
        ensures
            r is Ok <==> valid_version(last_version@),
            r matches Ok(req) ==> {
                &&& self.is_request(req, method@, path@, None)
                &&& req.headers@.len() == (if self.library_type.api_key_spec() is Some {
                    2int
                } else {
                    1int
                })
                &&& req.header_spec("If-Unmodified-Since-Version"@) == Some(last_version@)
                &&& req.body == body
            },
            r matches Err(e) ==> e is RequestCreationError,
    {
        if !check_version(last_version) {
            return Err(
                ZoteroApiError::RequestCreationError(
                    "the If-Unmodified-Since-Version value must be non-empty visible ASCII".to_owned(),
                ),
            );
        }
        let mut req = self.request(method, path, None, body);
        proof {
            lemma_distinct_header_names();
        }
        let ghost headers0 = req.headers@;
        let pair = ("If-Unmodified-Since-Version".to_owned(), last_version.to_owned());
        let ghost gpair = pair;
        req.headers.push(pair);
        proof {
            assert(req.headers@ == headers0.push(gpair));
            lemma_header_push_other(headers0, gpair, "Authorization"@);
            lemma_header_push_new(headers0, gpair, "If-Unmodified-Since-Version"@);
        }
        Ok(req)
    }
}

/// Pushing a header of a different name leaves earlier lookups unchanged.
proof fn lemma_header_push_other(headers: Seq<(String, String)>, h: (String, String), name: Seq<char>)
    requires
        h.0@ != name,
    ensures
        header_value(headers.push(h), name) == header_value(headers, name),
    decreases headers.len(),
{
    if headers.len() == 0 {
        lemma_header_empty(name);
        assert(headers.push(h).skip(1) =~= Seq::<(String, String)>::empty());
        assert(headers.push(h)[0] == h);
        assert(headers =~= Seq::<(String, String)>::empty());
    } else {
        assert(headers.push(h)[0] == headers[0]);
        if headers[0].0@ != name {
            lemma_header_push_other(headers.skip(1), h, name);
            assert(headers.push(h).skip(1) =~= headers.skip(1).push(h));
        }
    }
}

/// Pushing a header makes it visible when no earlier one shadows it.
proof fn lemma_header_push_new(headers: Seq<(String, String)>, h: (String, String), name: Seq<char>)
    requires
        h.0@ == name,
        header_value(headers, name) is None,
    ensures
        header_value(headers.push(h), name) == Some(h.1@),
    decreases headers.len(),
{
    if headers.len() == 0 {
        assert(headers.push(h)[0] == h);
        assert(headers.push(h).skip(1) =~= Seq::<(String, String)>::empty());
    } else {
        assert(headers.push(h)[0] == headers[0]);
        assert(headers[0].0@ != name);
        lemma_header_push_new(headers.skip(1), h, name);
        assert(headers.push(h).skip(1) =~= headers.skip(1).push(h));
    }
}

/// The form-urlencoded views of a list of string slices.
pub open spec fn encoded_views(ss: Seq<&str>) -> Seq<Seq<char>> {
    ss.map(|i: int, s: &str| form_urlencoded(s@))
}

/// Copies string slices into owned strings.
#[verifier::loop_isolation(false)]
fn to_string_vec(ss: &Vec<&str>) -> (r: Vec<String>)
    ensures
        string_views(r@) == str_views(ss@),
{
    let n = ss.len();
    let mut out: Vec<String> = Vec::new();
    let mut i: usize = 0;
    while i < n
        invariant
            i <= n,
            n == ss.len(),
            out@.len() == i,
            string_views(out@) =~= str_views(ss@).take(i as int),
        decreases n - i,
    {
        out.push(ss[i].to_owned());
        proof {
            assert(string_views(out@) =~= str_views(ss@).take(i + 1 as int));
        }
        i += 1;
    }
    proof {
        assert(str_views(ss@).take(n as int) =~= str_views(ss@));
    }
    out
}

/// Form-urlencodes every string of a list.
#[verifier::loop_isolation(false)]
fn encode_all(ss: &Vec<&str>) -> (r: Vec<String>)
    ensures
        string_views(r@) == encoded_views(ss@),
{
    let n = ss.len();
    let mut out: Vec<String> = Vec::new();
    let mut i: usize = 0;
    while i < n
        invariant
            i <= n,
            n == ss.len(),
            out@.len() == i,
            string_views(out@) =~= encoded_views(ss@).take(i as int),
        decreases n - i,
    {
        out.push(form_urlencode(ss[i]));
        proof {
            assert(string_views(out@) =~= encoded_views(ss@).take(i + 1 as int));
        }
        i += 1;
    }
    proof {
        assert(encoded_views(ss@).take(n as int) =~= encoded_views(ss@));
    }
    out
}

impl Zotero {
    /// The request that asks about an API key and its privileges.  A
    /// keyless client has nothing to ask about: that is a construction
    /// error.
    pub fn get_api_key_info(&self, extra_params: Option<&str>) -> (r: Result<
        ApiRequest,
        ZoteroApiError,
    >)
        ensures
            r is Ok <==> self.library_type.api_key_spec() is Some,
            r matches Ok(req) ==> (match self.library_type.api_key_spec() {
                Some(k) => self.is_simple_request(req, "GET"@, "keys/"@ + k, opt_view(extra_params)),
                None => false,
            }),
            r matches Err(e) ==> e is RequestCreationError,
    {
        match self.library_type.get_api_key() {
            None => Err(
                ZoteroApiError::RequestCreationError(
                    "a keyless client carries no API key to ask about".to_owned(),
                ),
            ),
            Some(k) => {
                let mut path = "keys/".to_owned();
                path.append(k);
                Ok(self.request("GET", path.as_str(), extra_params, None))
            },
        }
    }

    /// The request that fetches one item by its key.
    pub fn get_item(&self, item_id: &str, extra_params: Option<&str>) -> (r: ApiRequest)
        ensures
            self.is_simple_request(r, "GET"@, "items/"@ + item_id@, opt_view(extra_params)),
    {
        let mut path = "items/".to_owned();
        path.append(item_id);
        self.request("GET", path.as_str(), extra_params, None)
    }

    /// The request that fetches every item of the library, trash excluded.
    pub fn get_items(&self, extra_params: Option<&str>) -> (r: ApiRequest)
        ensures
            self.is_simple_request(r, "GET"@, "items"@, opt_view(extra_params)),
    {
        self.request("GET", "items", extra_params, None)
    }

    /// The request that fetches the child items of an item.
    pub fn get_child_items(&self, item_id: &str, extra_params: Option<&str>) -> (r: ApiRequest)
        ensures
            self.is_simple_request(
                r,
                "GET"@,
                "items/"@ + item_id@ + "/children"@,
                opt_view(extra_params),
            ),
    {
        let mut path = "items/".to_owned();
        path.append(item_id);
        path.append("/children");
        self.request("GET", path.as_str(), extra_params, None)
    }

    /// The request that fetches the top-level items, trash excluded.
    pub fn get_top_items(&self, extra_params: Option<&str>) -> (r: ApiRequest)
        ensures
            self.is_simple_request(r, "GET"@, "items/top"@, opt_view(extra_params)),
    {
        self.request("GET", "items/top", extra_params, None)
    }

    /// The request that fetches the items in the trash.
    pub fn get_trashed_items(&self, extra_params: Option<&str>) -> (r: ApiRequest)
        ensures
            self.is_simple_request(r, "GET"@, "items/trash"@, opt_view(extra_params)),
    {
        self.request("GET", "items/trash", extra_params, None)
    }

    /// The request that fetches the items of "My publications".
    pub fn get_publications(&self, extra_params: Option<&str>) -> (r: ApiRequest)
        ensures
            self.is_simple_request(r, "GET"@, "publications/items"@, opt_view(extra_params)),
    {
        self.request("GET", "publications/items", extra_params, None)
    }

    /// The request that fetches one collection by its key.
    pub fn get_collection(&self, collection_id: &str, extra_params: Option<&str>) -> (r: ApiRequest)
        ensures
            self.is_simple_request(
                r,
                "GET"@,
                "collections/"@ + collection_id@,
                opt_view(extra_params),
            ),
    {
        let mut path = "collections/".to_owned();
        path.append(collection_id);
        self.request("GET", path.as_str(), extra_params, None)
    }

    /// The request that fetches every collection.
    pub fn get_collections(&self, extra_params: Option<&str>) -> (r: ApiRequest)
        ensures
            self.is_simple_request(r, "GET"@, "collections"@, opt_view(extra_params)),
    {
        self.request("GET", "collections", extra_params, None)
    }

    /// The request that fetches the top-level collections.
    pub fn get_top_collections(&self, extra_params: Option<&str>) -> (r: ApiRequest)
        ensures
            self.is_simple_request(r, "GET"@, "collections/top"@, opt_view(extra_params)),
    {
        self.request("GET", "collections/top", extra_params, None)
    }

    /// The request that fetches every item of a collection.
    pub fn get_collection_items(&self, collection_id: &str, extra_params: Option<&str>) -> (r:
        ApiRequest)
        ensures
            self.is_simple_request(
                r,
                "GET"@,
                "collections/"@ + collection_id@ + "/items"@,
                opt_view(extra_params),
            ),
    {
        let mut path = "collections/".to_owned();
        path.append(collection_id);
        path.append("/items");
        self.request("GET", path.as_str(), extra_params, None)
    }

    /// The request that fetches a top-level item of a collection.  The
    /// path follows the plural `collections/...` convention every other
    /// collection operation uses.
    pub fn get_collection_top_items(
        &self,
        collection_id: &str,
        item_id: &str,
        extra_params: Option<&str>,
    ) -> (r: ApiRequest)
        ensures
            self.is_simple_request(
                r,
                "GET"@,
                "collections/"@ + collection_id@ + "/items/"@ + item_id@,
                opt_view(extra_params),
            ),
    {
        let mut path = "collections/".to_owned();
        path.append(collection_id);
        path.append("/items/");
        path.append(item_id);
        self.request("GET", path.as_str(), extra_params, None)
    }

    /// The request that fetches a subset of items by their keys, joined
    /// with commas into one query value.  The path already opens the
    /// query string, so extra parameters are appended with `&`.
    pub fn get_subset(&self, item_ids: &Vec<&str>, extra_params: Option<&str>) -> (r: ApiRequest)
        ensures
            self.is_simple_request(
                r,
                "GET"@,
                "items?itemKey="@ + join_with(str_views(item_ids@), ","@) + (match opt_view(
                    extra_params,
                ) {
                    None => Seq::<char>::empty(),
                    Some(e) => "&"@ + e,
                }),
                None::<Seq<char>>,
            ),
    {
        let owned = to_string_vec(item_ids);
        let joined = join_strings(&owned, ",");
        let mut path = "items?itemKey=".to_owned();
        path.append(joined.as_str());
        match extra_params {
            None => {},
            Some(e) => {
                path.append("&");
                path.append(e);
            },
        }
        proof {
            assert(path@ =~= "items?itemKey="@ + join_with(str_views(item_ids@), ","@) + (
            match opt_view(extra_params) {
                None => Seq::<char>::empty(),
                Some(e) => "&"@ + e,
            }));
        }
        self.request("GET", path.as_str(), None, None)
    }

    /// The request that deletes one item.
    pub fn delete_item(&self, item_key: &str, last_version: &str) -> (r: Result<
        ApiRequest,
        ZoteroApiError,
    >)
        ensures
            r is Ok <==> valid_version(last_version@),
            r matches Ok(req) ==> self.is_delete_request(req, "items/"@ + item_key@, last_version@),
            r matches Err(e) ==> e is RequestCreationError,
    {
        let mut path = "items/".to_owned();
        path.append(item_key);
        self.versioned_request("DELETE", path.as_str(), None, last_version)
    }

    /// The request that deletes several items at once: their keys joined
    /// with `" || "` (the server's OR syntax) into one path segment.
    pub fn delete_items(&self, items_keys: &Vec<&str>, last_version: &str) -> (r: Result<
        ApiRequest,
        ZoteroApiError,
    >)
        ensures
            r is Ok <==> valid_version(last_version@),
            r matches Ok(req) ==> self.is_delete_request(
                req,
                "items/"@ + join_with(str_views(items_keys@), " || "@),
                last_version@,
            ),
            r matches Err(e) ==> e is RequestCreationError,
    {
        let owned = to_string_vec(items_keys);
        let joined = join_strings(&owned, " || ");
        let mut path = "items/".to_owned();
        path.append(joined.as_str());
        self.versioned_request("DELETE", path.as_str(), None, last_version)
    }

    /// The request that deletes one collection.
    pub fn delete_collection(&self, item_key: &str, last_version: &str) -> (r: Result<
        ApiRequest,
        ZoteroApiError,
    >)
        ensures
            r is Ok <==> valid_version(last_version@),
            r matches Ok(req) ==> self.is_delete_request(
                req,
                "collections/"@ + item_key@,
                last_version@,
            ),
            r matches Err(e) ==> e is RequestCreationError,
    {
        let mut path = "collections/".to_owned();
        path.append(item_key);
        self.versioned_request("DELETE", path.as_str(), None, last_version)
    }

    /// The request that deletes one saved search.
    pub fn delete_search(&self, search_key: &str, last_version: &str) -> (r: Result<
        ApiRequest,
        ZoteroApiError,
    >)
        ensures
            r is Ok <==> valid_version(last_version@),
            r matches Ok(req) ==> self.is_delete_request(
                req,
                "searches?searchKey="@ + search_key@,
                last_version@,
            ),
            r matches Err(e) ==> e is RequestCreationError,
    {
        let mut path = "searches?searchKey=".to_owned();
        path.append(search_key);
        self.versioned_request("DELETE", path.as_str(), None, last_version)
    }

    /// The request that deletes one tag.
    pub fn delete_tag(&self, tag_key: &str, last_version: &str) -> (r: Result<
        ApiRequest,
        ZoteroApiError,
    >)
        ensures
            r is Ok <==> valid_version(last_version@),
            r matches Ok(req) ==> self.is_delete_request(
                req,
                "tags?tag="@ + tag_key@,
                last_version@,
            ),
            r matches Err(e) ==> e is RequestCreationError,
    {
        let mut path = "tags?tag=".to_owned();
        path.append(tag_key);
        self.versioned_request("DELETE", path.as_str(), None, last_version)
    }

    /// The request that deletes several tags at once: each tag
    /// form-urlencoded, the results joined with `" || "`.
    pub fn delete_tags(&self, tags_keys: &Vec<&str>, last_version: &str) -> (r: Result<
        ApiRequest,
        ZoteroApiError,
    >)
        ensures
            r is Ok <==> valid_version(last_version@),
            r matches Ok(req) ==> self.is_delete_request(
                req,
                "tags?tag="@ + join_with(encoded_views(tags_keys@), " || "@),
                last_version@,
            ),
            r matches Err(e) ==> e is RequestCreationError,
    {
        let encoded = encode_all(tags_keys);
        let joined = join_strings(&encoded, " || ");
        let mut path = "tags?tag=".to_owned();
        path.append(joined.as_str());
        self.versioned_request("DELETE", path.as_str(), None, last_version)
    }

    /// The request that creates one item.  The server convention wraps a
    /// single record in a one-element array.
    pub fn create_new_item(&self, item: JsonValue) -> (r: ApiRequest)
        ensures
            self.is_request(r, "POST"@, "items"@, None),
            r.header_spec("If-Unmodified-Since-Version"@) is None,
            r.body matches Some(b) && b is Arr && b->Arr_0@ == seq![item],
    {
        let mut elems: Vec<JsonValue> = Vec::new();
        elems.push(item);
        proof {
            assert(elems@ =~= seq![elems@[0]]);
        }
        self.request("POST", "items", None, Some(JsonValue::Arr(elems)))
    }

    /// The request that creates several items: the array travels as it is.
    pub fn create_new_items(&self, items: Vec<JsonValue>) -> (r: ApiRequest)
        ensures
            self.is_request(r, "POST"@, "items"@, None),
            r.header_spec("If-Unmodified-Since-Version"@) is None,
            r.body matches Some(b) && b is Arr && b->Arr_0@ == items@,
    {
        self.request("POST", "items", None, Some(JsonValue::Arr(items)))
    }

    /// The request that creates one collection, wrapped in a one-element
    /// array as the server expects.
    pub fn create_new_collection(&self, collection: JsonValue) -> (r: ApiRequest)
        ensures
            self.is_request(r, "POST"@, "collections"@, None),
            r.header_spec("If-Unmodified-Since-Version"@) is None,
            r.body matches Some(b) && b is Arr && b->Arr_0@ == seq![collection],
    {
        let mut elems: Vec<JsonValue> = Vec::new();
        elems.push(collection);
        proof {
            assert(elems@ =~= seq![elems@[0]]);
        }
        self.request("POST", "collections", None, Some(JsonValue::Arr(elems)))
    }

    /// The request that creates several collections.
    pub fn create_new_collections(&self, collections: Vec<JsonValue>) -> (r: ApiRequest)
        ensures
            self.is_request(r, "POST"@, "collections"@, None),
            r.header_spec("If-Unmodified-Since-Version"@) is None,
            r.body matches Some(b) && b is Arr && b->Arr_0@ == collections@,
    {
        self.request("POST", "collections", None, Some(JsonValue::Arr(collections)))
    }

    /// The request that updates one item.  The update must carry the
    /// version the caller last observed for the key; an unusable version
    /// value is a construction error.
    pub fn update_item(&self, item_key: &str, item_data: JsonValue, last_version: &str) -> (r:
        Result<ApiRequest, ZoteroApiError>)
        ensures
            r is Ok <==> valid_version(last_version@),
            r matches Ok(req) ==> {
                &&& self.is_request(req, "PATCH"@, "items/"@ + item_key@, None)
                &&& req.headers@.len() == (if self.library_type.api_key_spec() is Some {
                    2int
                } else {
                    1int
                })
                &&& req.header_spec("If-Unmodified-Since-Version"@) == Some(last_version@)
                &&& req.body == Some(item_data)
            },
            r matches Err(e) ==> e is RequestCreationError,
    {
        let mut path = "items/".to_owned();
        path.append(item_key);
        self.versioned_request("PATCH", path.as_str(), Some(item_data), last_version)
    }
}


} // verus!
