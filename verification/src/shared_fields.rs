//! The field set shared by every record: link descriptors, the library
//! descriptor, tags and creators, together with their wire codecs.
//!
//! Every type decodes from a [`JsonValue`] and encodes back into one.  The
//! decode contracts say exactly which object shapes succeed; the encode
//! contracts say what a decoder finds in the produced object, so that
//! decoding an encoded value provably gives the fields back.

use vstd::prelude::*;
use vstd::string::StrSliceExecFns;
use vstd::string::StringExecFns;

use crate::error::ZoteroApiError;
use crate::json::has_str_field;
use crate::json::has_u64_field;
use crate::json::lemma_entries_push_new;
use crate::json::lemma_entries_push_other;
use crate::json::lemma_lookup_absent;
use crate::json::lemma_lookup_empty;
use crate::json::lemma_lookup_in;
use crate::json::spec_get;
use crate::json::spec_str_field;
use crate::json::spec_u64_field;
use crate::json::str_eq;
use crate::json::JsonValue;

verus! {

/// A URL together with the media type served there.
#[derive(Debug, Clone, PartialEq)]
pub struct Link {
    pub href: String,
    pub link_type: String,
}

/// The named links attached to every library, item and collection: the
/// canonical "alternate" link, and optionally the API "self" link and the
/// parent-collection "up" link.
#[derive(Debug, Clone, PartialEq)]
pub struct Links {
    pub self_link: Option<Link>,
    pub alternate: Link,
    pub up: Option<Link>,
}

/// Which library a record belongs to, embedded by value in every item and
/// collection.
#[derive(Debug, Clone, PartialEq)]
pub struct Library {
    pub library_type: String,
    pub id: u64,
    pub name: String,
    pub links: Links,
}

/// A tag owned by an item.
#[derive(Debug, Clone, PartialEq)]
pub struct Tag {
    pub tag: String,
}

/// One creator of a record, in citation order.
#[derive(Debug, Clone, PartialEq, Default)]
pub struct Creator {
    pub creator_type: String,
    pub first_name: String,
    pub last_name: String,
}

/// The texts of a list of tags.
pub open spec fn tag_texts(ts: Seq<Tag>) -> Seq<Seq<char>> {
    ts.map(|i: int, t: Tag| t.tag@)
}

/// Everything that carries a server-assigned key.
pub trait Identifier {
    /// The key in specifications.
    spec fn key_spec(&self) -> Seq<char>;

    /// The server-assigned key.
    fn key(&self) -> (r: &String)
        ensures
            r@ == self.key_spec(),
    ;
}

/// The capability every record shape offers: a title, a key and tags.
pub trait ItemCommon {
    /// The title in specifications.
    spec fn title_spec(&self) -> Seq<char>;

    /// The key in specifications.
    spec fn common_key_spec(&self) -> Seq<char>;

    /// The tag texts in specifications.
    spec fn tags_spec(&self) -> Seq<Seq<char>>;

    /// The title of the record; a fixed sentinel for shapes without one.
    fn title(&self) -> (r: &str)
        ensures
            r@ == self.title_spec(),
    ;

    /// The key of the record.
    fn key(&self) -> (r: &str)
        ensures
            r@ == self.common_key_spec(),
    ;

    /// The tags of the record.
    fn tags(&self) -> (r: &Vec<Tag>)
        ensures
            tag_texts(r@) == self.tags_spec(),
    ;

    /// Whether the record carries a tag with exactly that text.
    fn has_tag(&self, tag: &str) -> (r: bool)
        ensures
            r == self.tags_spec().contains(tag@),
    {
        let ts = self.tags();
        let n = ts.len();
        let mut i: usize = 0;
        while i < n
            invariant
                i <= n,
                n == ts.len(),
                tag_texts(ts@) == self.tags_spec(),
                forall|j: int| 0 <= j < i ==> tag_texts(ts@)[j] != tag@,
            decreases n - i,
        {
            if str_eq(ts[i].tag.as_str(), tag) {
                proof {
                    assert(tag_texts(ts@)[i as int] == tag@);
                }
                return true;
            }
            proof {
                assert(tag_texts(ts@)[i as int] == ts@[i as int].tag@);
            }
            i += 1;
        }
        proof {
            if self.tags_spec().contains(tag@) {
                let j = choose|j: int|
                    0 <= j < self.tags_spec().len() && self.tags_spec()[j] == tag@;
                assert(tag_texts(ts@)[j] == tag@);
            }
        }
        false
    }
}

/// Whether an object has the shape of a link.
pub open spec fn link_shape_ok(v: JsonValue) -> bool {
    has_str_field(v, "href"@) && has_str_field(v, "type"@)
}

/// Whether `l` carries the fields of the link object `v`.
pub open spec fn is_link_of(l: Link, v: JsonValue) -> bool {
    l.href@ == spec_str_field(v, "href"@) && l.link_type@ == spec_str_field(v, "type"@)
}

/// Whether an optional member can decode as an optional link.
pub open spec fn opt_link_ok(o: Option<JsonValue>) -> bool {
    match o {
        None => true,
        Some(x) => x is Null || link_shape_ok(x),
    }
}

/// Whether `ol` is the decoding of the optional member `o`.
pub open spec fn is_opt_link_of(ol: Option<Link>, o: Option<JsonValue>) -> bool {
    match o {
        None => ol is None,
        Some(x) => if x is Null {
            ol is None
        } else {
            ol matches Some(l) && is_link_of(l, x)
        },
    }
}

/// Whether an object has the shape of a link set.
pub open spec fn links_shape_ok(v: JsonValue) -> bool {
    &&& opt_link_ok(spec_get(v, "self"@))
    &&& (match spec_get(v, "alternate"@) {
        Some(x) => link_shape_ok(x),
        None => false,
    })
    &&& opt_link_ok(spec_get(v, "up"@))
}

/// Whether `ls` carries the fields of the link-set object `v`.
pub open spec fn is_links_of(ls: Links, v: JsonValue) -> bool {
    &&& is_opt_link_of(ls.self_link, spec_get(v, "self"@))
    &&& (match spec_get(v, "alternate"@) {
        Some(x) => is_link_of(ls.alternate, x),
        None => false,
    })
    &&& is_opt_link_of(ls.up, spec_get(v, "up"@))
}

/// Whether an object has the shape of a library descriptor.
pub open spec fn library_shape_ok(v: JsonValue) -> bool {
    &&& has_str_field(v, "type"@)
    &&& has_u64_field(v, "id"@)
    &&& has_str_field(v, "name"@)
    &&& (match spec_get(v, "links"@) {
        Some(x) => links_shape_ok(x),
        None => false,
    })
}

/// Whether `lib` carries the fields of the library object `v`.
pub open spec fn is_library_of(lib: Library, v: JsonValue) -> bool {
    &&& lib.library_type@ == spec_str_field(v, "type"@)
    &&& lib.id == spec_u64_field(v, "id"@)
    &&& lib.name@ == spec_str_field(v, "name"@)
    &&& (match spec_get(v, "links"@) {
        Some(x) => is_links_of(lib.links, x),
        None => false,
    })
}

/// Whether an object has the shape of a tag.
pub open spec fn tag_shape_ok(v: JsonValue) -> bool {
    has_str_field(v, "tag"@)
}

/// Whether `t` carries the field of the tag object `v`.
pub open spec fn is_tag_of(t: Tag, v: JsonValue) -> bool {
    t.tag@ == spec_str_field(v, "tag"@)
}

/// Whether an object has the shape of a creator.
pub open spec fn creator_shape_ok(v: JsonValue) -> bool {
    has_str_field(v, "creatorType"@) && has_str_field(v, "firstName"@) && has_str_field(
        v,
        "lastName"@,
    )
}

/// Whether `c` carries the fields of the creator object `v`.
pub open spec fn is_creator_of(c: Creator, v: JsonValue) -> bool {
    &&& c.creator_type@ == spec_str_field(v, "creatorType"@)
    &&& c.first_name@ == spec_str_field(v, "firstName"@)
    &&& c.last_name@ == spec_str_field(v, "lastName"@)
}

/// The standard decode error for a malformed object.
pub(crate) fn shape_error() -> (r: ZoteroApiError)
    ensures
        r is ParseResponseError,
{
    ZoteroApiError::ParseResponseError("the object does not match the expected schema".to_owned())
}

impl Link {
    /// Decodes a link object: `href` and `type`, both strings.
    pub fn decode(v: &JsonValue) -> (r: Result<Link, ZoteroApiError>)
        ensures
            r is Ok <==> link_shape_ok(*v),
            r matches Ok(l) ==> is_link_of(l, *v),
            r matches Err(e) ==> e is ParseResponseError,
    {
        match (v.req_str_field("href"), v.req_str_field("type")) {
            (Some(href), Some(link_type)) => Ok(Link { href, link_type }),
            _ => Err(shape_error()),
        }
    }

    /// Encodes the link as an object that decodes back to it.
    pub fn to_json(&self) -> (r: JsonValue)
        ensures
            link_shape_ok(r),
            is_link_of(*self, r),
    {
        let mut entries: Vec<(String, JsonValue)> = Vec::new();
        entries.push(("href".to_owned(), JsonValue::Str(self.href.clone())));
        entries.push(("type".to_owned(), JsonValue::Str(self.link_type.clone())));
        proof {
            reveal_strlit("href");
            reveal_strlit("type");
            assert("href"@[0] != "type"@[0]);
            assert(entries@[0].0@ == "href"@);
            assert(entries@[1].0@ == "type"@);
            lemma_lookup_in(entries@, "href"@, 0);
            lemma_lookup_in(entries@, "type"@, 1);
        }
        JsonValue::Obj(entries)
    }
}

impl Links {
    /// Decodes a link set: a required `alternate` link, and optional
    /// `self` and `up` links (absent and null both mean "none").
    pub fn decode(v: &JsonValue) -> (r: Result<Links, ZoteroApiError>)
        ensures
            r is Ok <==> links_shape_ok(*v),
            r matches Ok(ls) ==> is_links_of(ls, *v),
            r matches Err(e) ==> e is ParseResponseError,
    {
        let self_link = match v.get("self") {
            None => None,
            Some(x) => match x {
                JsonValue::Null => None,
                _ => match Link::decode(x) {
                    Ok(l) => Some(l),
                    Err(e) => {
                        return Err(e);
                    },
                },
            },
        };
        let alternate = match v.get("alternate") {
            None => {
                return Err(shape_error());
            },
            Some(x) => match Link::decode(x) {
                Ok(l) => l,
                Err(e) => {
                    return Err(e);
                },
            },
        };
        let up = match v.get("up") {
            None => None,
            Some(x) => match x {
                JsonValue::Null => None,
                _ => match Link::decode(x) {
                    Ok(l) => Some(l),
                    Err(e) => {
                        return Err(e);
                    },
                },
            },
        };
        Ok(Links { self_link, alternate, up })
    }

    /// Encodes the link set as an object that decodes back to it.
    pub fn to_json(&self) -> (r: JsonValue)
        ensures
            links_shape_ok(r),
            is_links_of(*self, r),
    {
        proof {
            reveal_strlit("self");
            reveal_strlit("alternate");
            reveal_strlit("up");
            assert("self"@.len() != "alternate"@.len());
            assert("self"@.len() != "up"@.len());
            assert("alternate"@.len() != "up"@.len());
        }
        let mut entries: Vec<(String, JsonValue)> = Vec::new();
        match &self.self_link {
            Some(l) => {
                let e = ("self".to_owned(), l.to_json());
                let ghost ge = e;
                entries.push(e);
                proof {
                    lemma_entries_push_new(Seq::<(String, JsonValue)>::empty(), ge, "self"@);
                    assert(entries@ == Seq::<(String, JsonValue)>::empty().push(ge));
                }
            },
            None => {},
        }
        let ghost entries1 = entries@;
        let ea = ("alternate".to_owned(), self.alternate.to_json());
        let ghost gea = ea;
        entries.push(ea);
        proof {
            assert(entries@ == entries1.push(gea));
            if self.self_link is Some {
                lemma_entries_push_other(entries1, gea, "self"@);
            } else {
                lemma_lookup_absent(entries1, "self"@);
                lemma_entries_push_other(entries1, gea, "self"@);
            }
            lemma_lookup_absent(entries1, "alternate"@);
            lemma_entries_push_new(entries1, gea, "alternate"@);
        }
        let ghost entries2 = entries@;
        match &self.up {
            Some(l) => {
                let e = ("up".to_owned(), l.to_json());
                let ghost ge = e;
                entries.push(e);
                proof {
                    assert(entries@ == entries2.push(ge));
                    lemma_entries_push_other(entries2, ge, "self"@);
                    lemma_entries_push_other(entries2, ge, "alternate"@);
                    lemma_lookup_absent(entries2, "up"@);
                    lemma_entries_push_new(entries2, ge, "up"@);
                }
            },
            None => {
                proof {
                    lemma_lookup_absent(entries2, "up"@);
                }
            },
        }
        JsonValue::Obj(entries)
    }
}

impl Library {
    /// Decodes a library descriptor: kind, numeric identifier, display
    /// name, and its link set.
    pub fn decode(v: &JsonValue) -> (r: Result<Library, ZoteroApiError>)
        ensures
            r is Ok <==> library_shape_ok(*v),
            r matches Ok(lib) ==> is_library_of(lib, *v),
            r matches Err(e) ==> e is ParseResponseError,
    {
        let library_type = match v.req_str_field("type") {
            Some(s) => s,
            None => {
                return Err(shape_error());
            },
        };
        let id = match v.req_u64_field("id") {
            Some(n) => n,
            None => {
                return Err(shape_error());
            },
        };
        let name = match v.req_str_field("name") {
            Some(s) => s,
            None => {
                return Err(shape_error());
            },
        };
        let links = match v.get("links") {
            None => {
                return Err(shape_error());
            },
            Some(x) => match Links::decode(x) {
                Ok(ls) => ls,
                Err(e) => {
                    return Err(e);
                },
            },
        };
        Ok(Library { library_type, id, name, links })
    }

    /// Encodes the library descriptor as an object that decodes back to
    /// it.  The identifier must fit the wire's signed integers.
    pub fn to_json(&self) -> (r: JsonValue)
        requires
            self.id <= i64::MAX as u64,
        ensures
            library_shape_ok(r),
            is_library_of(*self, r),
    {
        proof {
            reveal_strlit("type");
            reveal_strlit("id");
            reveal_strlit("name");
            reveal_strlit("links");
            assert("type"@.len() != "id"@.len());
            assert("type"@[0] != "name"@[0]);
            assert("type"@.len() != "links"@.len());
            assert("id"@.len() != "name"@.len());
            assert("id"@.len() != "links"@.len());
            assert("name"@.len() != "links"@.len());
        }
        let mut entries: Vec<(String, JsonValue)> = Vec::new();
        entries.push(("type".to_owned(), JsonValue::Str(self.library_type.clone())));
        entries.push(("id".to_owned(), JsonValue::Int(self.id as i64)));
        entries.push(("name".to_owned(), JsonValue::Str(self.name.clone())));
        entries.push(("links".to_owned(), self.links.to_json()));
        proof {
            assert(entries@[0].0@ == "type"@);
            assert(entries@[1].0@ == "id"@);
            assert(entries@[2].0@ == "name"@);
            assert(entries@[3].0@ == "links"@);
            lemma_lookup_in(entries@, "type"@, 0);
            lemma_lookup_in(entries@, "id"@, 1);
            lemma_lookup_in(entries@, "name"@, 2);
            lemma_lookup_in(entries@, "links"@, 3);
        }
        JsonValue::Obj(entries)
    }
}

impl Tag {
    /// Decodes a tag object: its `tag` text.
    pub fn decode(v: &JsonValue) -> (r: Result<Tag, ZoteroApiError>)
        ensures
            r is Ok <==> tag_shape_ok(*v),
            r matches Ok(t) ==> is_tag_of(t, *v),
            r matches Err(e) ==> e is ParseResponseError,
    {
        match v.req_str_field("tag") {
            Some(tag) => Ok(Tag { tag }),
            None => Err(shape_error()),
        }
    }

    /// Encodes the tag as an object that decodes back to it.
    pub fn to_json(&self) -> (r: JsonValue)
        ensures
            tag_shape_ok(r),
            is_tag_of(*self, r),
    {
        let mut entries: Vec<(String, JsonValue)> = Vec::new();
        entries.push(("tag".to_owned(), JsonValue::Str(self.tag.clone())));
        proof {
            assert(entries@[0].0@ == "tag"@);
            lemma_lookup_in(entries@, "tag"@, 0);
        }
        JsonValue::Obj(entries)
    }
}

impl Creator {
    /// Decodes a creator object: role, given name and family name.
    pub fn decode(v: &JsonValue) -> (r: Result<Creator, ZoteroApiError>)
        ensures
            r is Ok <==> creator_shape_ok(*v),
            r matches Ok(c) ==> is_creator_of(c, *v),
            r matches Err(e) ==> e is ParseResponseError,
    {
        let creator_type = match v.req_str_field("creatorType") {
            Some(s) => s,
            None => {
                return Err(shape_error());
            },
        };
        let first_name = match v.req_str_field("firstName") {
            Some(s) => s,
            None => {
                return Err(shape_error());
            },
        };
        let last_name = match v.req_str_field("lastName") {
            Some(s) => s,
            None => {
                return Err(shape_error());
            },
        };
        Ok(Creator { creator_type, first_name, last_name })
    }

    /// Encodes the creator as an object that decodes back to it.
    pub fn to_json(&self) -> (r: JsonValue)
        ensures
            creator_shape_ok(r),
            is_creator_of(*self, r),
    {
        proof {
            reveal_strlit("creatorType");
            reveal_strlit("firstName");
            reveal_strlit("lastName");
            assert("creatorType"@.len() != "firstName"@.len());
            assert("creatorType"@.len() != "lastName"@.len());
            assert("firstName"@.len() != "lastName"@.len());
        }
        let mut entries: Vec<(String, JsonValue)> = Vec::new();
        entries.push(("creatorType".to_owned(), JsonValue::Str(self.creator_type.clone())));
        entries.push(("firstName".to_owned(), JsonValue::Str(self.first_name.clone())));
        entries.push(("lastName".to_owned(), JsonValue::Str(self.last_name.clone())));
        proof {
            assert(entries@[0].0@ == "creatorType"@);
            assert(entries@[1].0@ == "firstName"@);
            assert(entries@[2].0@ == "lastName"@);
            lemma_lookup_in(entries@, "creatorType"@, 0);
            lemma_lookup_in(entries@, "firstName"@, 1);
            lemma_lookup_in(entries@, "lastName"@, 2);
        }
        JsonValue::Obj(entries)
    }

    /// The creator's full name: given name, a space, family name.
    pub fn full_name(&self) -> (r: String)
        ensures
            r@ == self.first_name@ + " "@ + self.last_name@,
    {
        let mut s = self.first_name.clone();
        s.append(" ");
        s.append(self.last_name.as_str());
        s
    }

    /// The creator's short name: the initial of the given name, a dot, a
    /// space, and the family name; just the family name when no given name
    /// is there.
    pub fn short_name(&self) -> (r: String)
        ensures
            self.first_name@.len() == 0 ==> r@ == self.last_name@,
            self.first_name@.len() > 0 ==> r@ == seq![self.first_name@[0]] + ". "@
                + self.last_name@,
    {
        if self.first_name.as_str().unicode_len() == 0 {
            self.last_name.clone()
        } else {
            let initial = self.first_name.as_str().substring_char(0, 1);
            proof {
                assert(initial@ =~= seq![self.first_name@[0]]);
            }
            let mut s = initial.to_owned();
            s.append(". ");
            s.append(self.last_name.as_str());
            proof {
                assert(s@ =~= seq![self.first_name@[0]] + ". "@ + self.last_name@);
            }
            s
        }
    }
}

/// The full name of a creator in specifications.
pub open spec fn full_name_spec(c: Creator) -> Seq<char> {
    c.first_name@ + " "@ + c.last_name@
}

/// An array whose elements all have the shape of tags.
pub open spec fn tags_arr_ok(v: JsonValue) -> bool {
    v is Arr && forall|j: int|
        0 <= j < v->Arr_0@.len() ==> tag_shape_ok(#[trigger] v->Arr_0@[j])
}

/// Whether `ts` lists exactly the tags of the array `v`, in order.
pub open spec fn is_tags_of(ts: Seq<Tag>, v: JsonValue) -> bool {
    &&& v is Arr
    &&& ts.len() == v->Arr_0@.len()
    &&& forall|j: int| 0 <= j < ts.len() ==> is_tag_of(#[trigger] ts[j], v->Arr_0@[j])
}

/// An array whose elements all have the shape of creators.
pub open spec fn creators_arr_ok(v: JsonValue) -> bool {
    v is Arr && forall|j: int|
        0 <= j < v->Arr_0@.len() ==> creator_shape_ok(#[trigger] v->Arr_0@[j])
}

/// Whether `cs` lists exactly the creators of the array `v`, in order.
pub open spec fn is_creators_of(cs: Seq<Creator>, v: JsonValue) -> bool {
    &&& v is Arr
    &&& cs.len() == v->Arr_0@.len()
    &&& forall|j: int| 0 <= j < cs.len() ==> is_creator_of(#[trigger] cs[j], v->Arr_0@[j])
}

/// Decodes an array of tags.
pub fn decode_tags(v: &JsonValue) -> (r: Result<Vec<Tag>, ZoteroApiError>)
    ensures
        r is Ok <==> tags_arr_ok(*v),
        r matches Ok(ts) ==> is_tags_of(ts@, *v),
        r matches Err(e) ==> e is ParseResponseError,
{
    match v {
        JsonValue::Arr(elems) => {
            let n = elems.len();
            let mut out: Vec<Tag> = Vec::new();
            let mut i: usize = 0;
            #[verifier::loop_isolation(false)]
            while i < n
                invariant
                    i <= n,
                    n == elems.len(),
                    out@.len() == i,
                    forall|j: int| 0 <= j < i ==> tag_shape_ok(#[trigger] elems@[j]),
                    forall|j: int| 0 <= j < i ==> is_tag_of(out@[j], #[trigger] elems@[j]),
                decreases n - i,
            {
                match Tag::decode(&elems[i]) {
                    Ok(t) => {
                        out.push(t);
                    },
                    Err(e) => {
                        return Err(e);
                    },
                }
                i += 1;
            }
            proof {
                assert(v->Arr_0@ == elems@);
                assert forall|j: int| 0 <= j < v->Arr_0@.len() implies tag_shape_ok(
                    #[trigger] v->Arr_0@[j],
                ) by {
                    assert(tag_shape_ok(elems@[j]));
                }
            }
            Ok(out)
        },
        _ => Err(shape_error()),
    }
}

/// Encodes an array of tags.
pub fn encode_tags(ts: &Vec<Tag>) -> (r: JsonValue)
    ensures
        tags_arr_ok(r),
        is_tags_of(ts@, r),
{
    let n = ts.len();
    let mut elems: Vec<JsonValue> = Vec::new();
    let mut i: usize = 0;
    #[verifier::loop_isolation(false)]
    while i < n
        invariant
            i <= n,
            n == ts.len(),
            elems@.len() == i,
            forall|j: int|
                0 <= j < i ==> tag_shape_ok(#[trigger] elems@[j]) && is_tag_of(ts@[j], elems@[j]),
        decreases n - i,
    {
        elems.push(ts[i].to_json());
        i += 1;
    }
    JsonValue::Arr(elems)
}

/// Decodes an array of creators.
pub fn decode_creators(v: &JsonValue) -> (r: Result<Vec<Creator>, ZoteroApiError>)
    ensures
        r is Ok <==> creators_arr_ok(*v),
        r matches Ok(cs) ==> is_creators_of(cs@, *v),
        r matches Err(e) ==> e is ParseResponseError,
{
    match v {
        JsonValue::Arr(elems) => {
            let n = elems.len();
            let mut out: Vec<Creator> = Vec::new();
            let mut i: usize = 0;
            #[verifier::loop_isolation(false)]
            while i < n
                invariant
                    i <= n,
                    n == elems.len(),
                    out@.len() == i,
                    forall|j: int| 0 <= j < i ==> creator_shape_ok(#[trigger] elems@[j]),
                    forall|j: int| 0 <= j < i ==> is_creator_of(out@[j], #[trigger] elems@[j]),
                decreases n - i,
            {
                match Creator::decode(&elems[i]) {
                    Ok(c) => {
                        out.push(c);
                    },
                    Err(e) => {
                        return Err(e);
                    },
                }
                i += 1;
            }
            proof {
                assert(v->Arr_0@ == elems@);
                assert forall|j: int| 0 <= j < v->Arr_0@.len() implies creator_shape_ok(
                    #[trigger] v->Arr_0@[j],
                ) by {
                    assert(creator_shape_ok(elems@[j]));
                }
            }
            Ok(out)
        },
        _ => Err(shape_error()),
    }
}

/// Encodes an array of creators.
pub fn encode_creators(cs: &Vec<Creator>) -> (r: JsonValue)
    ensures
        creators_arr_ok(r),
        is_creators_of(cs@, r),
{
    let n = cs.len();
    let mut elems: Vec<JsonValue> = Vec::new();
    let mut i: usize = 0;
    #[verifier::loop_isolation(false)]
    while i < n
        invariant
            i <= n,
            n == cs.len(),
            elems@.len() == i,
            forall|j: int|
                0 <= j < i ==> creator_shape_ok(#[trigger] elems@[j]) && is_creator_of(
                    cs@[j],
                    elems@[j],
                ),
        decreases n - i,
    {
        elems.push(cs[i].to_json());
        i += 1;
    }
    JsonValue::Arr(elems)
}

} // verus!
