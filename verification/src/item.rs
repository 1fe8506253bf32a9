//! The item envelope: identity, version, library, links, meta data and
//! the polymorphic record payload.
//!
//! The meta data carries the ambiguous `numChildren` member, which the
//! server sends either as a boolean (children unknown) or as a count; the
//! decoder inspects the wire value's native type to choose.

use vstd::prelude::*;

use crate::date::spec_parse_date;
use crate::date::parse_zotero_date;
use crate::date::NormalizedDate;
use crate::error::ZoteroApiError;
use crate::json::count_field_ok;
use crate::json::has_str_field;
use crate::json::opt_str_ok;
use crate::json::spec_count_field;
use crate::json::spec_get;
use crate::json::spec_opt_str;
use crate::json::spec_str_field;
use crate::json::spec_u64_field;
use crate::json::u64_field_ok;
use crate::json::JsonValue;
use crate::shared_fields::is_library_of;
use crate::shared_fields::is_links_of;
use crate::shared_fields::library_shape_ok;
use crate::shared_fields::links_shape_ok;
use crate::shared_fields::shape_error;
use crate::shared_fields::tag_texts;
use crate::shared_fields::Identifier;
use crate::shared_fields::ItemCommon;
use crate::shared_fields::Library;
use crate::shared_fields::Links;
use crate::shared_fields::Tag;
use crate::variants::is_item_type_of;
use crate::variants::item_type_shape_ok;
use crate::variants::unknown_tag;
use crate::variants::ItemType;

verus! {

/// The ambiguous child indicator: the server sends a boolean when the
/// count is unknown, and a count otherwise.
#[derive(Debug, Clone, PartialEq)]
pub enum SizeOrBool {
    Bool(bool),
    Size(u64),
}

impl Default for SizeOrBool {
    /// The wire default: the boolean `false`.
    fn default() -> (r: SizeOrBool)
        ensures
            r == SizeOrBool::Bool(false),
    {
        SizeOrBool::Bool(false)
    }
}

/// Whether the `numChildren` member has a decodable shape: absent, null,
/// a boolean, or a non-negative count.  A negative number, like a string
/// or a nested value, is a malformed ambiguous field and a decode
/// failure.
pub open spec fn num_children_ok(v: JsonValue) -> bool {
    match spec_get(v, "numChildren"@) {
        None => true,
        Some(JsonValue::Null) => true,
        Some(JsonValue::Bool(_)) => true,
        Some(JsonValue::Int(n)) => n >= 0,
        Some(_) => false,
    }
}

/// What a well-shaped `numChildren` member decodes to: absent and null
/// mean "unknown"; a boolean stays a boolean; a count is a count.
pub open spec fn spec_num_children(v: JsonValue) -> Option<SizeOrBool>
    recommends
        num_children_ok(v),
{
    match spec_get(v, "numChildren"@) {
        Some(JsonValue::Bool(b)) => Some(SizeOrBool::Bool(b)),
        Some(JsonValue::Int(n)) => if n >= 0 {
            Some(SizeOrBool::Size(n as u64))
        } else {
            None
        },
        _ => None,
    }
}

/// The meta data attached to an item or collection answer.
#[derive(Debug, Clone, PartialEq, Default)]
pub struct ItemMeta {
    pub creator_summary: Option<String>,
    pub parsed_date: Option<String>,
    pub num_children: Option<SizeOrBool>,
    pub num_collections: Option<u64>,
    pub num_items: Option<u64>,
}

/// Whether an object has the shape of item meta data.
pub open spec fn item_meta_shape_ok(v: JsonValue) -> bool {
    &&& opt_str_ok(v, "creatorSummary"@)
    &&& opt_str_ok(v, "parsedDate"@)
    &&& num_children_ok(v)
    &&& count_field_ok(v, "numCollections"@)
    &&& count_field_ok(v, "numItems"@)
}

/// Whether `m` carries the fields of the meta object `v`.
pub open spec fn is_item_meta_of(m: ItemMeta, v: JsonValue) -> bool {
    &&& (match m.creator_summary {
        Some(s) => spec_opt_str(v, "creatorSummary"@) == Some(s@),
        None => spec_opt_str(v, "creatorSummary"@) is None,
    })
    &&& (match m.parsed_date {
        Some(s) => spec_opt_str(v, "parsedDate"@) == Some(s@),
        None => spec_opt_str(v, "parsedDate"@) is None,
    })
    &&& m.num_children == spec_num_children(v)
    &&& m.num_collections == spec_count_field(v, "numCollections"@)
    &&& m.num_items == spec_count_field(v, "numItems"@)
}

impl ItemMeta {
    /// Decodes the meta data; every member is optional.
    pub fn decode(v: &JsonValue) -> (r: Result<ItemMeta, ZoteroApiError>)
        ensures
            r is Ok <==> item_meta_shape_ok(*v),
            r matches Ok(m) ==> is_item_meta_of(m, *v),
            r matches Err(e) ==> e is ParseResponseError,
    {
        let creator_summary = match v.opt_str_field("creatorSummary") {
            Some(o) => o,
            None => {
                return Err(shape_error());
            },
        };
        let parsed_date = match v.opt_str_field("parsedDate") {
            Some(o) => o,
            None => {
                return Err(shape_error());
            },
        };
        let num_children = match v.get("numChildren") {
            None => None,
            Some(JsonValue::Null) => None,
            Some(JsonValue::Bool(b)) => Some(SizeOrBool::Bool(*b)),
            Some(JsonValue::Int(n)) => {
                if *n >= 0 {
                    Some(SizeOrBool::Size(*n as u64))
                } else {
                    return Err(shape_error());
                }
            },
            Some(_) => {
                return Err(shape_error());
            },
        };
        let num_collections = match v.count_field("numCollections") {
            Some(c) => c,
            None => {
                return Err(shape_error());
            },
        };
        let num_items = match v.count_field("numItems") {
            Some(c) => c,
            None => {
                return Err(shape_error());
            },
        };
        Ok(ItemMeta { creator_summary, parsed_date, num_children, num_collections, num_items })
    }

    /// Whether the item is known to have children: a decoded count above
    /// zero, and nothing else, says yes.
    pub fn has_children(&self) -> (r: bool)
        ensures
            r == (match self.num_children {
                Some(SizeOrBool::Size(n)) => n > 0,
                _ => false,
            }),
    {
        match &self.num_children {
            Some(SizeOrBool::Size(n)) => *n > 0,
            _ => false,
        }
    }
}

/// An item as the server returns it.
#[derive(Debug, Clone, PartialEq)]
pub struct Item {
    pub key: String,
    pub version: u64,
    pub library: Library,
    pub links: Links,
    pub meta: ItemMeta,
    pub data: ItemType,
}

/// Whether an object has the shape of an item envelope.
pub open spec fn item_shape_ok(v: JsonValue) -> bool {
    &&& has_str_field(v, "key"@)
    &&& u64_field_ok(v, "version"@)
    &&& (match spec_get(v, "library"@) {
        Some(x) => library_shape_ok(x),
        None => false,
    })
    &&& (match spec_get(v, "links"@) {
        Some(x) => links_shape_ok(x),
        None => false,
    })
    &&& (match spec_get(v, "meta"@) {
        Some(x) => item_meta_shape_ok(x),
        None => false,
    })
    &&& (match spec_get(v, "data"@) {
        Some(x) => item_type_shape_ok(x) && spec_str_field(x, "key"@) == spec_str_field(v, "key"@)
            && spec_u64_field(x, "version"@) == spec_u64_field(v, "version"@),
        None => false,
    })
}

/// Whether an otherwise well-shaped envelope fails only because its data
/// carries an unrecognized discriminator.
pub open spec fn item_unknown_variant(v: JsonValue) -> bool {
    &&& has_str_field(v, "key"@)
    &&& u64_field_ok(v, "version"@)
    &&& (match spec_get(v, "library"@) {
        Some(x) => library_shape_ok(x),
        None => false,
    })
    &&& (match spec_get(v, "links"@) {
        Some(x) => links_shape_ok(x),
        None => false,
    })
    &&& (match spec_get(v, "meta"@) {
        Some(x) => item_meta_shape_ok(x),
        None => false,
    })
    &&& (match spec_get(v, "data"@) {
        Some(x) => unknown_tag(x),
        None => false,
    })
}

/// Whether `it` carries the fields of the item envelope `v`.
pub open spec fn is_item_of(it: Item, v: JsonValue) -> bool {
    &&& it.key@ == spec_str_field(v, "key"@)
    &&& it.version == spec_u64_field(v, "version"@)
    &&& it.key@ == it.data.record_spec().key@
    &&& it.version == it.data.record_spec().version
    &&& (match spec_get(v, "library"@) {
        Some(x) => is_library_of(it.library, x),
        None => false,
    })
    &&& (match spec_get(v, "links"@) {
        Some(x) => is_links_of(it.links, x),
        None => false,
    })
    &&& (match spec_get(v, "meta"@) {
        Some(x) => is_item_meta_of(it.meta, x),
        None => false,
    })
    &&& (match spec_get(v, "data"@) {
        Some(x) => is_item_type_of(it.data, x),
        None => false,
    })
}

impl Item {
    /// Decodes an item envelope.  A data object with an unrecognized
    /// discriminator is an `UnknownVariant` failure; any other mismatch
    /// is a decode failure.  The key and the version are duplicated at
    /// the envelope and inside the data on the wire: the two copies must
    /// agree, so that they stay consistent after decode.
    pub fn decode(v: &JsonValue) -> (r: Result<Item, ZoteroApiError>)
        ensures
            r is Ok <==> item_shape_ok(*v),
            r matches Ok(it) ==> is_item_of(it, *v),
            r matches Err(e) ==> if item_unknown_variant(*v) {
                e is UnknownVariant
            } else {
                e is ParseResponseError
            },
    {
        let key = match v.req_str_field("key") {
            Some(s) => s,
            None => {
                return Err(shape_error());
            },
        };
        let version = match v.u64_field("version") {
            Some(n) => n,
            None => {
                return Err(shape_error());
            },
        };
        let library = match v.get("library") {
            None => {
                return Err(shape_error());
            },
            Some(x) => match Library::decode(x) {
                Ok(l) => l,
                Err(e) => {
                    return Err(e);
                },
            },
        };
        let links = match v.get("links") {
            None => {
                return Err(shape_error());
            },
            Some(x) => match Links::decode(x) {
                Ok(l) => l,
                Err(e) => {
                    return Err(e);
                },
            },
        };
        let meta = match v.get("meta") {
            None => {
                return Err(shape_error());
            },
            Some(x) => match ItemMeta::decode(x) {
                Ok(m) => m,
                Err(e) => {
                    return Err(e);
                },
            },
        };
        let data = match v.get("data") {
            None => {
                return Err(shape_error());
            },
            Some(x) => match ItemType::decode(x) {
                Ok(d) => d,
                Err(e) => {
                    return Err(e);
                },
            },
        };
        if !crate::json::str_eq(key.as_str(), data.record().key.as_str()) {
            return Err(shape_error());
        }
        if version != data.record().version {
            return Err(shape_error());
        }
        Ok(Item { key, version, library, links, meta, data })
    }

    /// The server-assigned key of the item.
    pub fn key(&self) -> (r: &String)
        ensures
            r@ == self.key@,
    {
        &self.key
    }

    /// The title of the record the item carries.
    pub fn title(&self) -> (r: &str)
        ensures
            r@ == self.data.record_spec().title@,
    {
        ItemCommon::title(&self.data)
    }

    /// The tags of the record the item carries.
    pub fn tags(&self) -> (r: &Vec<Tag>)
        ensures
            tag_texts(r@) == tag_texts(self.data.record_spec().tags@),
    {
        ItemCommon::tags(&self.data)
    }

    /// Whether the record carries a tag with exactly that text.
    pub fn has_tag(&self, tag: &str) -> (r: bool)
        ensures
            r == tag_texts(self.data.record_spec().tags@).contains(tag@),
    {
        self.data.has_tag(tag)
    }

    /// The display form of the record's creators.
    pub fn author(&self) -> (r: String)
        ensures
            r@ == self.data.author_spec(),
    {
        self.data.author()
    }

    /// The record's date, normalized to a calendar day.  Only the two
    /// recognized wire patterns parse; anything else is a decode failure,
    /// never a silent fallback.
    pub fn normalized_date(&self) -> (r: Result<NormalizedDate, ZoteroApiError>)
        ensures
            match spec_parse_date(self.data.date_value_spec()) {
                Some(d) => r == Ok::<NormalizedDate, ZoteroApiError>(d),
                None => r matches Err(e) && e is ParseResponseError,
            },
    {
        parse_zotero_date(self.data.date_value().as_str())
    }
}

impl Identifier for Item {
    open spec fn key_spec(&self) -> Seq<char> {
        self.key@
    }

    fn key(&self) -> (r: &String) {
        &self.key
    }
}

} // verus!
