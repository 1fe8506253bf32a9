//! A plain model of JSON documents.
//!
//! The transport layer hands response bodies to the library as values of
//! [`JsonValue`], and request bodies travel back the same way.  Object
//! members keep their wire order; a lookup takes the first binding of a key.

use vstd::prelude::*;

verus! {

/// A JSON document.
///
/// Numbers are modelled as signed 64-bit integers: the Zotero wire format
/// uses integers only (versions, identifiers and counts).
#[derive(Debug, PartialEq)]
pub enum JsonValue {
    Null,
    Bool(bool),
    Int(i64),
    Str(String),
    Arr(Vec<JsonValue>),
    Obj(Vec<(String, JsonValue)>),
}

/// The first binding of `key` among `entries`, if any.
pub open spec fn spec_lookup(entries: Seq<(String, JsonValue)>, key: Seq<char>) -> Option<
    JsonValue,
>
    decreases entries.len(),
{
    if entries.len() == 0 {
        None
    } else if entries[0].0@ == key {
        Some(entries[0].1)
    } else {
        spec_lookup(entries.skip(1), key)
    }
}

/// The member named `key` of the object `v`; `None` when `v` is not an
/// object or carries no such member.
pub open spec fn spec_get(v: JsonValue, key: Seq<char>) -> Option<JsonValue> {
    if v is Obj {
        spec_lookup(v->Obj_0@, key)
    } else {
        None
    }
}

/// A member that is either absent or a string: the shape every defaulted
/// string field of the wire format must have.
pub open spec fn str_field_ok(v: JsonValue, key: Seq<char>) -> bool {
    match spec_get(v, key) {
        None => true,
        Some(JsonValue::Str(_)) => true,
        Some(_) => false,
    }
}

/// The string member named `key`, defaulted to the empty string when the
/// member is absent.
pub open spec fn spec_str_field(v: JsonValue, key: Seq<char>) -> Seq<char> {
    match spec_get(v, key) {
        Some(JsonValue::Str(s)) => s@,
        _ => Seq::<char>::empty(),
    }
}

/// A member that is either absent or a non-negative integer.
pub open spec fn u64_field_ok(v: JsonValue, key: Seq<char>) -> bool {
    match spec_get(v, key) {
        None => true,
        Some(JsonValue::Int(n)) => n >= 0,
        Some(_) => false,
    }
}

/// The non-negative integer member named `key`, defaulted to zero when the
/// member is absent.
pub open spec fn spec_u64_field(v: JsonValue, key: Seq<char>) -> u64 {
    match spec_get(v, key) {
        Some(JsonValue::Int(n)) => if n >= 0 {
            n as u64
        } else {
            0
        },
        _ => 0,
    }
}

/// A member that is absent, null, or a non-negative integer: the shape of
/// the optional counters of the wire format.
pub open spec fn count_field_ok(v: JsonValue, key: Seq<char>) -> bool {
    match spec_get(v, key) {
        None => true,
        Some(JsonValue::Null) => true,
        Some(JsonValue::Int(n)) => n >= 0,
        Some(_) => false,
    }
}

/// The optional counter named `key`: absent and null both mean `None`.
pub open spec fn spec_count_field(v: JsonValue, key: Seq<char>) -> Option<u64> {
    match spec_get(v, key) {
        Some(JsonValue::Int(n)) => if n >= 0 {
            Some(n as u64)
        } else {
            None
        },
        _ => None,
    }
}


/// A member that is present and a string.
pub open spec fn has_str_field(v: JsonValue, key: Seq<char>) -> bool {
    match spec_get(v, key) {
        Some(JsonValue::Str(_)) => true,
        _ => false,
    }
}

/// A member that is present and a non-negative integer.
pub open spec fn has_u64_field(v: JsonValue, key: Seq<char>) -> bool {
    match spec_get(v, key) {
        Some(JsonValue::Int(n)) => n >= 0,
        _ => false,
    }
}

/// Skipping entries that do not bind `key` leaves the lookup unchanged.
pub(crate) proof fn lemma_lookup_skip(entries: Seq<(String, JsonValue)>, key: Seq<char>, i: int)
    requires
        0 <= i <= entries.len(),
        forall|j: int| 0 <= j < i ==> entries[j].0@ != key,
    ensures
        spec_lookup(entries, key) == spec_lookup(entries.skip(i), key),
    decreases i,
{
    if i > 0 {
        lemma_lookup_skip(entries.skip(1), key, i - 1);
        assert(entries.skip(1).skip(i - 1) =~= entries.skip(i));
    } else {
        assert(entries.skip(0) =~= entries);
    }
}


/// A lookup in an empty member list finds nothing.
pub(crate) proof fn lemma_lookup_empty(key: Seq<char>)
    ensures
        spec_lookup(Seq::<(String, JsonValue)>::empty(), key) is None,
{
}

/// The first entry binding `key` is what the lookup finds.
pub(crate) proof fn lemma_lookup_in(entries: Seq<(String, JsonValue)>, key: Seq<char>, i: int)
    requires
        0 <= i < entries.len(),
        entries[i].0@ == key,
        forall|j: int| 0 <= j < i ==> entries[j].0@ != key,
    ensures
        spec_lookup(entries, key) == Some(entries[i].1),
{
    lemma_lookup_skip(entries, key, i);
    assert(entries.skip(i)[0] == entries[i]);
}

/// When no entry binds `key`, the lookup finds nothing.
pub(crate) proof fn lemma_lookup_absent(entries: Seq<(String, JsonValue)>, key: Seq<char>)
    requires
        forall|j: int| 0 <= j < entries.len() ==> #[trigger] entries[j].0@ != key,
    ensures
        spec_lookup(entries, key) is None,
{
    lemma_lookup_skip(entries, key, entries.len() as int);
    assert(entries.skip(entries.len() as int) =~= Seq::<(String, JsonValue)>::empty());
    lemma_lookup_empty(key);
}

/// Pushing an entry of a different key leaves earlier lookups unchanged.
pub(crate) proof fn lemma_entries_push_other(
    entries: Seq<(String, JsonValue)>,
    e: (String, JsonValue),
    key: Seq<char>,
)
    requires
        e.0@ != key,
    ensures
        spec_lookup(entries.push(e), key) == spec_lookup(entries, key),
    decreases entries.len(),
{
    if entries.len() == 0 {
        lemma_lookup_empty(key);
        assert(entries.push(e).skip(1) =~= Seq::<(String, JsonValue)>::empty());
        assert(entries.push(e)[0] == e);
        assert(entries =~= Seq::<(String, JsonValue)>::empty());
    } else {
        assert(entries.push(e)[0] == entries[0]);
        if entries[0].0@ != key {
            lemma_entries_push_other(entries.skip(1), e, key);
            assert(entries.push(e).skip(1) =~= entries.skip(1).push(e));
        }
    }
}

/// Pushing an entry makes it visible when no earlier one shadows it.
pub(crate) proof fn lemma_entries_push_new(
    entries: Seq<(String, JsonValue)>,
    e: (String, JsonValue),
    key: Seq<char>,
)
    requires
        e.0@ == key,
        spec_lookup(entries, key) is None,
    ensures
        spec_lookup(entries.push(e), key) == Some(e.1),
    decreases entries.len(),
{
    if entries.len() == 0 {
        assert(entries.push(e)[0] == e);
        assert(entries.push(e).skip(1) =~= Seq::<(String, JsonValue)>::empty());
    } else {
        assert(entries.push(e)[0] == entries[0]);
        assert(entries[0].0@ != key);
        lemma_entries_push_new(entries.skip(1), e, key);
        assert(entries.push(e).skip(1) =~= entries.skip(1).push(e));
    }
}


/// How a push changes a lookup: an existing binding stays, otherwise the
/// new entry is found exactly when its key matches.
pub(crate) proof fn lemma_lookup_push(
    entries: Seq<(String, JsonValue)>,
    e: (String, JsonValue),
    key: Seq<char>,
)
    ensures
        spec_lookup(entries.push(e), key) == (match spec_lookup(entries, key) {
            Some(x) => Some(x),
            None => if e.0@ == key {
                Some(e.1)
            } else {
                None
            },
        }),
    decreases entries.len(),
{
    if entries.len() == 0 {
        lemma_lookup_empty(key);
        assert(entries.push(e)[0] == e);
        assert(entries.push(e).skip(1) =~= Seq::<(String, JsonValue)>::empty());
        assert(entries =~= Seq::<(String, JsonValue)>::empty());
    } else {
        assert(entries.push(e)[0] == entries[0]);
        if entries[0].0@ != key {
            lemma_lookup_push(entries.skip(1), e, key);
            assert(entries.push(e).skip(1) =~= entries.skip(1).push(e));
        }
    }
}

/// Compares two string slices by their character sequences.
pub fn str_eq(a: &str, b: &str) -> (r: bool)
    ensures
        r == (a@ == b@),
{
    let x = a.to_owned();
    let y = b.to_owned();
    x == y
}

impl JsonValue {
    /// The member named `key` of this object, if this is an object and the
    /// member is present.
    #[verifier::loop_isolation(false)]
    pub fn get<'a>(&'a self, key: &str) -> (r: Option<&'a JsonValue>)
        ensures
            match r {
                Some(x) => spec_get(*self, key@) == Some(*x),
                None => spec_get(*self, key@) is None,
            },
    {
        match self {
            JsonValue::Obj(entries) => {
                let n = entries.len();
                let mut i: usize = 0;
                while i < n
                    invariant
                        n == entries.len(),
                        i <= n,
                        forall|j: int| 0 <= j < i ==> entries@[j].0@ != key@,
                    decreases n - i,
                {
                    let pair = &entries[i];
                    if str_eq(pair.0.as_str(), key) {
                        proof {
                            lemma_lookup_skip(entries@, key@, i as int);
                            assert(entries@.skip(i as int)[0] == entries@[i as int]);
                        }
                        return Some(&pair.1);
                    }
                    i += 1;
                }
                proof {
                    lemma_lookup_skip(entries@, key@, n as int);
                }
                None
            },
            _ => None,
        }
    }

    /// The string member named `key`, defaulted to the empty string when
    /// absent; `None` when the member is present with another type.
    pub fn str_field(&self, key: &str) -> (r: Option<String>)
        ensures
            r is Some <==> str_field_ok(*self, key@),
            r matches Some(s) ==> s@ == spec_str_field(*self, key@),
    {
        match self.get(key) {
            None => Some(String::new()),
            Some(JsonValue::Str(s)) => Some(s.clone()),
            Some(_) => None,
        }
    }

    /// The non-negative integer member named `key`, defaulted to zero when
    /// absent; `None` when the member is present with another shape.
    pub fn u64_field(&self, key: &str) -> (r: Option<u64>)
        ensures
            r is Some <==> u64_field_ok(*self, key@),
            r matches Some(n) ==> n == spec_u64_field(*self, key@),
    {
        match self.get(key) {
            None => Some(0),
            Some(JsonValue::Int(n)) => {
                if *n >= 0 {
                    Some(*n as u64)
                } else {
                    None
                }
            },
            Some(_) => None,
        }
    }


    /// The string member named `key`; `None` when it is absent or has
    /// another type.
    pub fn req_str_field(&self, key: &str) -> (r: Option<String>)
        ensures
            r is Some <==> has_str_field(*self, key@),
            r matches Some(s) ==> s@ == spec_str_field(*self, key@),
    {
        match self.get(key) {
            Some(JsonValue::Str(s)) => Some(s.clone()),
            _ => None,
        }
    }

    /// The non-negative integer member named `key`; `None` when it is
    /// absent or has another shape.
    pub fn req_u64_field(&self, key: &str) -> (r: Option<u64>)
        ensures
            r is Some <==> has_u64_field(*self, key@),
            r matches Some(n) ==> n == spec_u64_field(*self, key@),
    {
        match self.get(key) {
            Some(JsonValue::Int(n)) => {
                if *n >= 0 {
                    Some(*n as u64)
                } else {
                    None
                }
            },
            _ => None,
        }
    }


    /// The optional text member named `key`: absent and null both come
    /// back as `Some(None)`, any non-string shape as `None`.
    pub fn opt_str_field(&self, key: &str) -> (r: Option<Option<String>>)
        ensures
            r is Some <==> opt_str_ok(*self, key@),
            r matches Some(o) ==> match o {
                Some(s) => spec_opt_str(*self, key@) == Some(s@),
                None => spec_opt_str(*self, key@) is None,
            },
    {
        match self.get(key) {
            None => Some(None),
            Some(JsonValue::Null) => Some(None),
            Some(JsonValue::Str(s)) => Some(Some(s.clone())),
            Some(_) => None,
        }
    }

    /// The optional counter named `key`; absent and null both come back as
    /// `Some(None)`, and any non-integer shape as `None`.
    pub fn count_field(&self, key: &str) -> (r: Option<Option<u64>>)
        ensures
            r is Some <==> count_field_ok(*self, key@),
            r matches Some(c) ==> c == spec_count_field(*self, key@),
    {
        match self.get(key) {
            None => Some(None),
            Some(JsonValue::Null) => Some(None),
            Some(JsonValue::Int(n)) => {
                if *n >= 0 {
                    Some(Some(*n as u64))
                } else {
                    None
                }
            },
            Some(_) => None,
        }
    }
}

/// A member that is absent, null, or a string: an optional text field.
pub open spec fn opt_str_ok(v: JsonValue, key: Seq<char>) -> bool {
    match spec_get(v, key) {
        None => true,
        Some(JsonValue::Null) => true,
        Some(JsonValue::Str(_)) => true,
        Some(_) => false,
    }
}

/// The optional text member named `key`: absent and null both mean `None`.
pub open spec fn spec_opt_str(v: JsonValue, key: Seq<char>) -> Option<Seq<char>> {
    match spec_get(v, key) {
        Some(JsonValue::Str(s)) => Some(s@),
        _ => None,
    }
}

/// An array whose elements are all strings.
pub open spec fn str_arr_ok(v: JsonValue) -> bool {
    v is Arr && forall|j: int|
        0 <= j < v->Arr_0@.len() ==> (#[trigger] v->Arr_0@[j]) is Str
}

/// Whether `ss` lists exactly the strings of the array `v`, in order.
pub open spec fn is_str_arr_of(ss: Seq<String>, v: JsonValue) -> bool {
    &&& v is Arr
    &&& ss.len() == v->Arr_0@.len()
    &&& forall|j: int|
        0 <= j < ss.len() ==> (#[trigger] v->Arr_0@[j]) is Str && ss[j]@ == v->Arr_0@[j]->Str_0@
}

/// Decodes an array of strings.
pub fn decode_string_array(v: &JsonValue) -> (r: Option<Vec<String>>)
    ensures
        r is Some <==> str_arr_ok(*v),
        r matches Some(ss) ==> is_str_arr_of(ss@, *v),
{
    match v {
        JsonValue::Arr(elems) => {
            let n = elems.len();
            let mut out: Vec<String> = Vec::new();
            let mut i: usize = 0;
            #[verifier::loop_isolation(false)]
            while i < n
                invariant
                    i <= n,
                    n == elems.len(),
                    out@.len() == i,
                    forall|j: int| 0 <= j < i ==> (#[trigger] elems@[j]) is Str,
                    forall|j: int| 0 <= j < i ==> out@[j]@ == (#[trigger] elems@[j])->Str_0@,
                decreases n - i,
            {
                match &elems[i] {
                    JsonValue::Str(s) => {
                        out.push(s.clone());
                    },
                    _ => {
                        return None;
                    },
                }
                i += 1;
            }
            proof {
                assert(v->Arr_0@ == elems@);
                assert forall|j: int| 0 <= j < v->Arr_0@.len() implies (#[trigger] v->Arr_0@[j])
                    is Str by {
                    assert(elems@[j] is Str);
                }
            }
            Some(out)
        },
        _ => None,
    }
}

/// Encodes an array of strings.
pub fn encode_string_array(ss: &Vec<String>) -> (r: JsonValue)
    ensures
        str_arr_ok(r),
        is_str_arr_of(ss@, r),
{
    let n = ss.len();
    let mut elems: Vec<JsonValue> = Vec::new();
    let mut i: usize = 0;
    #[verifier::loop_isolation(false)]
    while i < n
        invariant
            i <= n,
            n == ss.len(),
            elems@.len() == i,
            forall|j: int|
                0 <= j < i ==> (#[trigger] elems@[j]) is Str && elems@[j]->Str_0@ == ss@[j]@,
        decreases n - i,
    {
        elems.push(JsonValue::Str(ss[i].clone()));
        i += 1;
    }
    JsonValue::Arr(elems)
}

} // verus!

