//! Collections: the envelope, its data, and the ambiguous
//! `parentCollection` field.
//!
//! A collection's parent is transmitted either as the boolean `false` (no
//! parent) or as the parent's key string: the decoder inspects the JSON
//! value's native type to choose, and any other type is a decode failure.

use vstd::prelude::*;

use crate::error::ZoteroApiError;
use crate::json::count_field_ok;
use crate::json::has_str_field;
use crate::json::lemma_lookup_in;
use crate::json::spec_count_field;
use crate::json::spec_get;
use crate::json::spec_str_field;
use crate::json::spec_u64_field;
use crate::json::str_eq;
use crate::json::str_field_ok;
use crate::json::u64_field_ok;
use crate::json::JsonValue;
use crate::shared_fields::is_library_of;
use crate::shared_fields::is_links_of;
use crate::shared_fields::library_shape_ok;
use crate::shared_fields::links_shape_ok;
use crate::shared_fields::shape_error;
use crate::shared_fields::Identifier;
use crate::shared_fields::Library;
use crate::shared_fields::Links;

verus! {

/// A collection's parent: the boolean `false` on the wire means "no
/// parent", a string is the parent collection's key.
#[derive(Debug, Clone, PartialEq)]
pub enum StringOrBool {
    Bool(bool),
    Key(String),
}

impl Default for StringOrBool {
    /// The wire default: no parent.
    fn default() -> (r: StringOrBool)
        ensures
            r == StringOrBool::Bool(false),
    {
        StringOrBool::Bool(false)
    }
}

/// A wire value that is either a boolean or an integer.
#[derive(Debug, Clone, PartialEq)]
pub enum IntOrBool {
    Bool(bool),
    Int(i64),
}

impl Default for IntOrBool {
    /// The wire default: the boolean `false`.
    fn default() -> (r: IntOrBool)
        ensures
            r == IntOrBool::Bool(false),
    {
        IntOrBool::Bool(false)
    }
}

impl StringOrBool {
    /// Whether a wire value can decode as a parent reference.
    pub open spec fn shape_ok(v: JsonValue) -> bool {
        v is Bool || v is Str
    }

    /// What a wire value decodes to.
    pub open spec fn spec_decode(v: JsonValue) -> StringOrBool
        recommends
            Self::shape_ok(v),
    {
        match v {
            JsonValue::Bool(b) => StringOrBool::Bool(b),
            JsonValue::Str(s) => StringOrBool::Key(s),
            _ => StringOrBool::Bool(false),
        }
    }

    /// Decodes a parent reference by the wire value's native type:
    /// a boolean stays a boolean, a string is a parent key, anything
    /// else fails.
    pub fn decode(v: &JsonValue) -> (r: Result<StringOrBool, ZoteroApiError>)
        ensures
            r is Ok <==> Self::shape_ok(*v),
            r matches Ok(p) ==> p == Self::spec_decode(*v),
            r matches Err(e) ==> e is ParseResponseError,
    {
        match v {
            JsonValue::Bool(b) => Ok(StringOrBool::Bool(*b)),
            JsonValue::Str(s) => Ok(StringOrBool::Key(s.clone())),
            _ => Err(shape_error()),
        }
    }

    /// Encodes the parent reference back into its wire value.
    pub fn to_json(&self) -> (r: JsonValue)
        ensures
            Self::shape_ok(r),
            Self::spec_decode(r) == *self,
    {
        match self {
            StringOrBool::Bool(b) => JsonValue::Bool(*b),
            StringOrBool::Key(s) => JsonValue::Str(s.clone()),
        }
    }
}

impl IntOrBool {
    /// Whether a wire value can decode as a boolean-or-integer.
    pub open spec fn shape_ok(v: JsonValue) -> bool {
        v is Bool || v is Int
    }

    /// What a wire value decodes to.
    pub open spec fn spec_decode(v: JsonValue) -> IntOrBool
        recommends
            Self::shape_ok(v),
    {
        match v {
            JsonValue::Bool(b) => IntOrBool::Bool(b),
            JsonValue::Int(n) => IntOrBool::Int(n),
            _ => IntOrBool::Bool(false),
        }
    }

    /// Decodes by the wire value's native type: a boolean stays a
    /// boolean, a number is a count, anything else fails.
    pub fn decode(v: &JsonValue) -> (r: Result<IntOrBool, ZoteroApiError>)
        ensures
            r is Ok <==> Self::shape_ok(*v),
            r matches Ok(p) ==> p == Self::spec_decode(*v),
            r matches Err(e) ==> e is ParseResponseError,
    {
        match v {
            JsonValue::Bool(b) => Ok(IntOrBool::Bool(*b)),
            JsonValue::Int(n) => Ok(IntOrBool::Int(*n)),
            _ => Err(shape_error()),
        }
    }
}

/// Whether a wire object's members all carry string values: the shape of
/// a relations graph.
pub open spec fn relations_ok(v: JsonValue) -> bool {
    v is Obj && forall|j: int|
        0 <= j < v->Obj_0@.len() ==> (#[trigger] v->Obj_0@[j].1) is Str
}

/// Whether `rel` lists exactly the members of the relations object `v`,
/// in order.
pub open spec fn is_relations_of(rel: Seq<(String, String)>, v: JsonValue) -> bool {
    &&& v is Obj
    &&& rel.len() == v->Obj_0@.len()
    &&& forall|j: int|
        0 <= j < rel.len() ==> (#[trigger] rel[j]).0@ == v->Obj_0@[j].0@ && v->Obj_0@[j].1 is Str
            && rel[j].1@ == v->Obj_0@[j].1->Str_0@
}

/// Decodes a relations object: every member must carry a string.
pub(crate) fn decode_relations(v: &JsonValue) -> (r: Result<Vec<(String, String)>, ZoteroApiError>)
    ensures
        r is Ok <==> relations_ok(*v),
        r matches Ok(rel) ==> is_relations_of(rel@, *v),
        r matches Err(e) ==> e is ParseResponseError,
{
    match v {
        JsonValue::Obj(entries) => {
            let n = entries.len();
            let mut out: Vec<(String, String)> = Vec::new();
            let mut i: usize = 0;
            #[verifier::loop_isolation(false)]
            while i < n
                invariant
                    i <= n,
                    n == entries.len(),
                    out@.len() == i,
                    forall|j: int|
                        0 <= j < i ==> (#[trigger] out@[j]).0@ == entries@[j].0@ && entries@[j].1
                            is Str && out@[j].1@ == entries@[j].1->Str_0@,
                decreases n - i,
            {
                let pair = &entries[i];
                match &pair.1 {
                    JsonValue::Str(s) => {
                        out.push((pair.0.clone(), s.clone()));
                    },
                    _ => {
                        return Err(shape_error());
                    },
                }
                i += 1;
            }
            proof {
                assert(v->Obj_0@ == entries@);
                assert forall|j: int| 0 <= j < v->Obj_0@.len() implies (#[trigger] v->Obj_0@[j].1)
                    is Str by {
                    assert(out@[j].0@ == entries@[j].0@);
                }
            }
            Ok(out)
        },
        _ => Err(shape_error()),
    }
}

/// Encodes a relations list back into a wire object.
pub(crate) fn encode_relations(rel: &Vec<(String, String)>) -> (r: JsonValue)
    ensures
        relations_ok(r),
        is_relations_of(rel@, r),
{
    let n = rel.len();
    let mut entries: Vec<(String, JsonValue)> = Vec::new();
    let mut i: usize = 0;
    #[verifier::loop_isolation(false)]
    while i < n
        invariant
            i <= n,
            n == rel.len(),
            entries@.len() == i,
            forall|j: int|
                0 <= j < i ==> (#[trigger] entries@[j]).0@ == rel@[j].0@ && entries@[j].1 is Str
                    && entries@[j].1->Str_0@ == rel@[j].1@,
        decreases n - i,
    {
        let pair = &rel[i];
        entries.push((pair.0.clone(), JsonValue::Str(pair.1.clone())));
        i += 1;
    }
    JsonValue::Obj(entries)
}

/// The data of a collection: its name, its parent, and its relations.
#[derive(Debug, Clone, PartialEq)]
pub struct CollectionData {
    pub key: String,
    pub version: u64,
    pub name: String,
    pub parent_collection: StringOrBool,
    pub relations: Vec<(String, String)>,
}

/// Whether an object has the shape of collection data.
pub open spec fn collection_data_shape_ok(v: JsonValue) -> bool {
    &&& v is Obj
    &&& str_field_ok(v, "key"@)
    &&& u64_field_ok(v, "version"@)
    &&& str_field_ok(v, "name"@)
    &&& (match spec_get(v, "parentCollection"@) {
        None => true,
        Some(x) => StringOrBool::shape_ok(x),
    })
    &&& (match spec_get(v, "relations"@) {
        None => true,
        Some(x) => relations_ok(x),
    })
}

/// Whether `d` carries the fields of the collection-data object `v`.
pub open spec fn is_collection_data_of(d: CollectionData, v: JsonValue) -> bool {
    &&& d.key@ == spec_str_field(v, "key"@)
    &&& d.version == spec_u64_field(v, "version"@)
    &&& d.name@ == spec_str_field(v, "name"@)
    &&& (match spec_get(v, "parentCollection"@) {
        None => d.parent_collection == StringOrBool::Bool(false),
        Some(x) => d.parent_collection == StringOrBool::spec_decode(x),
    })
    &&& (match spec_get(v, "relations"@) {
        None => d.relations@.len() == 0,
        Some(x) => is_relations_of(d.relations@, x),
    })
}

impl CollectionData {
    /// Decodes collection data.  The key and version default to empty and
    /// zero, the name to the empty string, the parent to "no parent", the
    /// relations to none.
    pub fn decode(v: &JsonValue) -> (r: Result<CollectionData, ZoteroApiError>)
        ensures
            r is Ok <==> collection_data_shape_ok(*v),
            r matches Ok(d) ==> is_collection_data_of(d, *v),
            r matches Err(e) ==> e is ParseResponseError,
    {
        match v {
            JsonValue::Obj(_) => {},
            _ => {
                return Err(shape_error());
            },
        }
        let key = match v.str_field("key") {
            Some(s) => s,
            None => {
                return Err(shape_error());
            },
        };
        let version = match v.u64_field("version") {
            Some(n) => n,
            None => {
                return Err(shape_error());
            },
        };
        let name = match v.str_field("name") {
            Some(s) => s,
            None => {
                return Err(shape_error());
            },
        };
        let parent_collection = match v.get("parentCollection") {
            None => StringOrBool::Bool(false),
            Some(x) => match StringOrBool::decode(x) {
                Ok(p) => p,
                Err(e) => {
                    return Err(e);
                },
            },
        };
        let relations = match v.get("relations") {
            None => Vec::new(),
            Some(x) => match decode_relations(x) {
                Ok(rel) => rel,
                Err(e) => {
                    return Err(e);
                },
            },
        };
        Ok(CollectionData { key, version, name, parent_collection, relations })
    }

    /// Encodes the data for a create or update call.  The key and the
    /// version are server-owned and never travel; the name, the parent and
    /// the relations always do.
    pub fn to_json(&self) -> (r: JsonValue)
        ensures
            collection_data_shape_ok(r),
            spec_str_field(r, "name"@) == self.name@,
            (match spec_get(r, "parentCollection"@) {
                None => false,
                Some(x) => StringOrBool::spec_decode(x) == self.parent_collection,
            }),
            (match spec_get(r, "relations"@) {
                None => false,
                Some(x) => is_relations_of(self.relations@, x),
            }),
            spec_get(r, "key"@) is None,
            spec_get(r, "version"@) is None,
    {
        proof {
            reveal_strlit("name");
            reveal_strlit("parentCollection");
            reveal_strlit("relations");
            reveal_strlit("key");
            reveal_strlit("version");
            assert("name"@.len() != "parentCollection"@.len());
            assert("name"@.len() != "relations"@.len());
            assert("parentCollection"@.len() != "relations"@.len());
            assert("key"@.len() != "name"@.len());
            assert("key"@.len() != "parentCollection"@.len());
            assert("key"@.len() != "relations"@.len());
            assert("version"@.len() != "name"@.len());
            assert("version"@.len() != "parentCollection"@.len());
            assert("version"@.len() != "relations"@.len());
        }
        let mut entries: Vec<(String, JsonValue)> = Vec::new();
        entries.push(("name".to_owned(), JsonValue::Str(self.name.clone())));
        entries.push(("parentCollection".to_owned(), self.parent_collection.to_json()));
        entries.push(("relations".to_owned(), encode_relations(&self.relations)));
        proof {
            assert(entries@[0].0@ == "name"@);
            assert(entries@[1].0@ == "parentCollection"@);
            assert(entries@[2].0@ == "relations"@);
            lemma_lookup_in(entries@, "name"@, 0);
            lemma_lookup_in(entries@, "parentCollection"@, 1);
            lemma_lookup_in(entries@, "relations"@, 2);
            crate::json::lemma_lookup_absent(entries@, "key"@);
            crate::json::lemma_lookup_absent(entries@, "version"@);
        }
        JsonValue::Obj(entries)
    }
}

/// The counters attached to a collection.
#[derive(Debug, Clone, PartialEq, Default)]
pub struct CollectionMeta {
    pub num_collections: Option<u64>,
    pub num_items: Option<u64>,
}

/// Whether an object has the shape of collection meta data.
pub open spec fn collection_meta_shape_ok(v: JsonValue) -> bool {
    count_field_ok(v, "numCollections"@) && count_field_ok(v, "numItems"@)
}

/// Whether `m` carries the counters of the meta object `v`.
pub open spec fn is_collection_meta_of(m: CollectionMeta, v: JsonValue) -> bool {
    m.num_collections == spec_count_field(v, "numCollections"@) && m.num_items
        == spec_count_field(v, "numItems"@)
}

impl CollectionMeta {
    /// Decodes the counters; both are optional.
    pub fn decode(v: &JsonValue) -> (r: Result<CollectionMeta, ZoteroApiError>)
        ensures
            r is Ok <==> collection_meta_shape_ok(*v),
            r matches Ok(m) ==> is_collection_meta_of(m, *v),
            r matches Err(e) ==> e is ParseResponseError,
    {
        let num_collections = match v.count_field("numCollections") {
            Some(c) => c,
            None => {
                return Err(shape_error());
            },
        };
        let num_items = match v.count_field("numItems") {
            Some(c) => c,
            None => {
                return Err(shape_error());
            },
        };
        Ok(CollectionMeta { num_collections, num_items })
    }
}

/// A collection as the server returns it: identity, version, library,
/// links, counters and data.
#[derive(Debug, Clone, PartialEq)]
pub struct Collection {
    pub key: String,
    pub version: u64,
    pub library: Library,
    pub links: Links,
    pub meta: CollectionMeta,
    pub data: CollectionData,
}

/// Whether an object has the shape of a collection envelope.
pub open spec fn collection_shape_ok(v: JsonValue) -> bool {
    &&& has_str_field(v, "key"@)
    &&& u64_field_ok(v, "version"@)
    &&& (match spec_get(v, "library"@) {
        Some(x) => library_shape_ok(x),
        None => false,
    })
    &&& (match spec_get(v, "links"@) {
        Some(x) => links_shape_ok(x),
        None => false,
    })
    &&& (match spec_get(v, "meta"@) {
        Some(x) => collection_meta_shape_ok(x),
        None => false,
    })
    &&& (match spec_get(v, "data"@) {
        Some(x) => collection_data_shape_ok(x),
        None => false,
    })
}

/// Whether `c` carries the fields of the collection envelope `v`.
pub open spec fn is_collection_of(c: Collection, v: JsonValue) -> bool {
    &&& c.key@ == spec_str_field(v, "key"@)
    &&& c.version == spec_u64_field(v, "version"@)
    &&& (match spec_get(v, "library"@) {
        Some(x) => is_library_of(c.library, x),
        None => false,
    })
    &&& (match spec_get(v, "links"@) {
        Some(x) => is_links_of(c.links, x),
        None => false,
    })
    &&& (match spec_get(v, "meta"@) {
        Some(x) => is_collection_meta_of(c.meta, x),
        None => false,
    })
    &&& (match spec_get(v, "data"@) {
        Some(x) => is_collection_data_of(c.data, x),
        None => false,
    })
}

impl Collection {
    /// Decodes a collection envelope.
    pub fn decode(v: &JsonValue) -> (r: Result<Collection, ZoteroApiError>)
        ensures
            r is Ok <==> collection_shape_ok(*v),
            r matches Ok(c) ==> is_collection_of(c, *v),
            r matches Err(e) ==> e is ParseResponseError,
    {
        let key = match v.req_str_field("key") {
            Some(s) => s,
            None => {
                return Err(shape_error());
            },
        };
        let version = match v.u64_field("version") {
            Some(n) => n,
            None => {
                return Err(shape_error());
            },
        };
        let library = match v.get("library") {
            None => {
                return Err(shape_error());
            },
            Some(x) => match Library::decode(x) {
                Ok(l) => l,
                Err(e) => {
                    return Err(e);
                },
            },
        };
        let links = match v.get("links") {
            None => {
                return Err(shape_error());
            },
            Some(x) => match Links::decode(x) {
                Ok(l) => l,
                Err(e) => {
                    return Err(e);
                },
            },
        };
        let meta = match v.get("meta") {
            None => {
                return Err(shape_error());
            },
            Some(x) => match CollectionMeta::decode(x) {
                Ok(m) => m,
                Err(e) => {
                    return Err(e);
                },
            },
        };
        let data = match v.get("data") {
            None => {
                return Err(shape_error());
            },
            Some(x) => match CollectionData::decode(x) {
                Ok(d) => d,
                Err(e) => {
                    return Err(e);
                },
            },
        };
        Ok(Collection { key, version, library, links, meta, data })
    }
}

impl Identifier for Collection {
    open spec fn key_spec(&self) -> Seq<char> {
        self.key@
    }

    fn key(&self) -> (r: &String) {
        &self.key
    }
}

/// The first collection of `s` named `name`, if any.
pub open spec fn first_with_name(s: Seq<Collection>, name: Seq<char>) -> Option<int>
    decreases s.len(),
{
    if s.len() == 0 {
        None
    } else if s[0].data.name@ == name {
        Some(0)
    } else {
        match first_with_name(s.skip(1), name) {
            Some(i) => Some(i + 1),
            None => None,
        }
    }
}

/// Skipping collections of other names shifts the search result.
proof fn lemma_first_with_name_skip(s: Seq<Collection>, name: Seq<char>, i: int)
    requires
        0 <= i <= s.len(),
        forall|j: int| 0 <= j < i ==> s[j].data.name@ != name,
    ensures
        first_with_name(s, name) == match first_with_name(s.skip(i), name) {
            Some(k) => Some(k + i),
            None => None::<int>,
        },
    decreases i,
{
    if i > 0 {
        lemma_first_with_name_skip(s.skip(1), name, i - 1);
        assert(s.skip(1).skip(i - 1) =~= s.skip(i));
    } else {
        assert(s.skip(0) =~= s);
    }
}

/// The first collection with the given name, as the fetched list orders
/// them.
#[verifier::loop_isolation(false)]
pub fn find_collection_by_name<'a>(collections: &'a Vec<Collection>, name: &str) -> (r: Option<
    &'a Collection,
>)
    ensures
        match first_with_name(collections@, name@) {
            Some(i) => r matches Some(c) && *c == collections@[i],
            None => r is None,
        },
{
    let n = collections.len();
    let mut i: usize = 0;
    while i < n
        invariant
            i <= n,
            n == collections.len(),
            forall|j: int| 0 <= j < i ==> collections@[j].data.name@ != name@,
        decreases n - i,
    {
        let c = &collections[i];
        if str_eq(c.data.name.as_str(), name) {
            proof {
                lemma_first_with_name_skip(collections@, name@, i as int);
                assert(collections@.skip(i as int)[0] == collections@[i as int]);
            }
            return Some(c);
        }
        i += 1;
    }
    proof {
        lemma_first_with_name_skip(collections@, name@, n as int);
        assert(collections@.skip(n as int) =~= Seq::<Collection>::empty());
    }
    None
}

/// The collections whose name is among `names`, in their fetched order.
pub open spec fn with_names(s: Seq<Collection>, names: Seq<Seq<char>>) -> Seq<Collection>
    decreases s.len(),
{
    if s.len() == 0 {
        Seq::<Collection>::empty()
    } else {
        (if names.contains(s[0].data.name@) {
            seq![s[0]]
        } else {
            Seq::<Collection>::empty()
        }) + with_names(s.skip(1), names)
    }
}

/// Filtering one more collection appends it when its name is among the
/// wanted ones.
proof fn lemma_with_names_snoc(s: Seq<Collection>, names: Seq<Seq<char>>, i: int)
    requires
        0 <= i < s.len(),
    ensures
        with_names(s.take(i + 1), names) == with_names(s.take(i), names) + (if names.contains(
            s[i].data.name@,
        ) {
            seq![s[i]]
        } else {
            Seq::<Collection>::empty()
        }),
    decreases i,
{
    let a = s.take(i + 1);
    let b = s.take(i);
    if i == 0 {
        assert(a =~= seq![s[0]]);
        assert(b =~= Seq::<Collection>::empty());
        assert(a.skip(1) =~= Seq::<Collection>::empty());
        assert(with_names(a, names) =~= with_names(b, names) + (if names.contains(s[0].data.name@) {
            seq![s[0]]
        } else {
            Seq::<Collection>::empty()
        }));
    } else {
        lemma_with_names_snoc(s.skip(1), names, i - 1);
        assert(a[0] == s[0]);
        assert(a.skip(1) =~= s.skip(1).take(i));
        assert(b.skip(1) =~= s.skip(1).take(i - 1));
        assert(s.skip(1)[i - 1] == s[i]);
        assert(with_names(a, names) =~= with_names(b, names) + (if names.contains(s[i].data.name@) {
            seq![s[i]]
        } else {
            Seq::<Collection>::empty()
        }));
    }
}

/// Whether `name` occurs among `names`.
#[verifier::loop_isolation(false)]
fn contains_name(names: &Vec<&str>, name: &str) -> (r: bool)
    ensures
        r == crate::client::str_views(names@).contains(name@),
{
    let n = names.len();
    let mut i: usize = 0;
    while i < n
        invariant
            i <= n,
            n == names.len(),
            forall|j: int| 0 <= j < i ==> crate::client::str_views(names@)[j] != name@,
        decreases n - i,
    {
        if str_eq(names[i], name) {
            proof {
                assert(crate::client::str_views(names@)[i as int] == name@);
            }
            return true;
        }
        proof {
            assert(crate::client::str_views(names@)[i as int] == names@[i as int]@);
        }
        i += 1;
    }
    proof {
        if crate::client::str_views(names@).contains(name@) {
            let j = choose|j: int|
                0 <= j < crate::client::str_views(names@).len() && crate::client::str_views(
                    names@,
                )[j] == name@;
        }
    }
    false
}

/// The collections whose name is among `names`; `None` when there are
/// none, like the API's own empty answer.
#[verifier::loop_isolation(false)]
pub fn find_collections_by_names<'a>(collections: &'a Vec<Collection>, names: &Vec<&str>) -> (r:
    Option<Vec<&'a Collection>>)
    ensures
        with_names(collections@, crate::client::str_views(names@)).len() == 0 <==> r is None,
        r matches Some(found) ==> found@.map_values(|c: &Collection| *c) == with_names(
            collections@,
            crate::client::str_views(names@),
        ),
{
    let n = collections.len();
    let mut out: Vec<&'a Collection> = Vec::new();
    let mut i: usize = 0;
    while i < n
        invariant
            i <= n,
            n == collections.len(),
            out@.map_values(|c: &Collection| *c) =~= with_names(
                collections@.take(i as int),
                crate::client::str_views(names@),
            ),
        decreases n - i,
    {
        let c = &collections[i];
        if contains_name(names, c.data.name.as_str()) {
            out.push(c);
        }
        proof {
            lemma_with_names_snoc(collections@, crate::client::str_views(names@), i as int);
            assert(out@.map_values(|c: &Collection| *c) =~= with_names(
                collections@.take(i + 1 as int),
                crate::client::str_views(names@),
            ));
        }
        i += 1;
    }
    proof {
        assert(collections@.take(n as int) =~= collections@);
    }
    if out.len() == 0 {
        None
    } else {
        Some(out)
    }
}

} // verus!
