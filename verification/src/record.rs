//! The record variant catalog.
//!
//! Roughly thirty bibliographic shapes share one wire layout: a handful of
//! structural members (identity, version, discriminator, title, creators,
//! a per-variant date member, tags, collections, relations and the two
//! server-owned timestamps), plus free-form bibliographic fields whose
//! values are strings or integers.  [`RecordData`] carries that layout
//! once; the catalog below gives each variant its schema tag, its date
//! member and its sentinels, and a table lookup turns a discriminator
//! string back into a variant.

use vstd::prelude::*;
use vstd::string::StringExecFns;

use crate::error::ZoteroApiError;
use crate::json::spec_lookup;
use crate::json::spec_get;
use crate::json::spec_str_field;
use crate::json::spec_u64_field;
use crate::json::str_arr_ok;
use crate::json::is_str_arr_of;
use crate::json::str_field_ok;
use crate::json::u64_field_ok;
use crate::json::str_eq;
use crate::json::JsonValue;
use crate::collection::is_relations_of;
use crate::collection::relations_ok;
use crate::shared_fields::creators_arr_ok;
use crate::shared_fields::is_creators_of;
use crate::shared_fields::is_tags_of;
use crate::shared_fields::shape_error;
use crate::shared_fields::tags_arr_ok;
use crate::shared_fields::Creator;
use crate::shared_fields::Tag;

verus! {

/// The record variants of the catalog, named by their schema tags.
#[derive(Debug, Clone, Copy, PartialEq, Eq, Structural)]
pub enum RecordKind {
    Artwork,
    AudioRecording,
    Bill,
    BlogPost,
    Book,
    BookSection,
    Case,
    ComputerProgram,
    ConferencePaper,
    DictionaryEntry,
    Document,
    Email,
    EncyclopediaArticle,
    Film,
    ForumPost,
    Hearing,
    InstantMessage,
    Interview,
    JournalArticle,
    Letter,
    MagazineArticle,
    Manuscript,
    MapItem,
    NewspaperArticle,
    Patent,
    Podcast,
    Presentation,
    RadioBroadcast,
    Report,
    Statute,
    Thesis,
    TvBroadcast,
    VideoRecording,
    Webpage,
    Attachment,
    Note,
}

/// The schema tag of a variant: the `itemType` discriminator value.
pub open spec fn spec_tag_of(k: RecordKind) -> Seq<char> {
    match k {
        RecordKind::Artwork => "artwork"@,
        RecordKind::AudioRecording => "audioRecording"@,
        RecordKind::Bill => "bill"@,
        RecordKind::BlogPost => "blogPost"@,
        RecordKind::Book => "book"@,
        RecordKind::BookSection => "bookSection"@,
        RecordKind::Case => "case"@,
        RecordKind::ComputerProgram => "computerProgram"@,
        RecordKind::ConferencePaper => "conferencePaper"@,
        RecordKind::DictionaryEntry => "dictionaryEntry"@,
        RecordKind::Document => "document"@,
        RecordKind::Email => "email"@,
        RecordKind::EncyclopediaArticle => "encyclopediaArticle"@,
        RecordKind::Film => "film"@,
        RecordKind::ForumPost => "forumPost"@,
        RecordKind::Hearing => "hearing"@,
        RecordKind::InstantMessage => "instantMessage"@,
        RecordKind::Interview => "interview"@,
        RecordKind::JournalArticle => "journalArticle"@,
        RecordKind::Letter => "letter"@,
        RecordKind::MagazineArticle => "magazineArticle"@,
        RecordKind::Manuscript => "manuscript"@,
        RecordKind::MapItem => "map"@,
        RecordKind::NewspaperArticle => "newspaperArticle"@,
        RecordKind::Patent => "patent"@,
        RecordKind::Podcast => "podcast"@,
        RecordKind::Presentation => "presentation"@,
        RecordKind::RadioBroadcast => "radioBroadcast"@,
        RecordKind::Report => "report"@,
        RecordKind::Statute => "statute"@,
        RecordKind::Thesis => "thesis"@,
        RecordKind::TvBroadcast => "tvBroadcast"@,
        RecordKind::VideoRecording => "videoRecording"@,
        RecordKind::Webpage => "webpage"@,
        RecordKind::Attachment => "attachment"@,
        RecordKind::Note => "note"@,
    }
}

/// The schema tag of a variant.
pub fn tag_of(k: RecordKind) -> (r: &'static str)
    ensures
        r@ == spec_tag_of(k),
{
    match k {
        RecordKind::Artwork => "artwork",
        RecordKind::AudioRecording => "audioRecording",
        RecordKind::Bill => "bill",
        RecordKind::BlogPost => "blogPost",
        RecordKind::Book => "book",
        RecordKind::BookSection => "bookSection",
        RecordKind::Case => "case",
        RecordKind::ComputerProgram => "computerProgram",
        RecordKind::ConferencePaper => "conferencePaper",
        RecordKind::DictionaryEntry => "dictionaryEntry",
        RecordKind::Document => "document",
        RecordKind::Email => "email",
        RecordKind::EncyclopediaArticle => "encyclopediaArticle",
        RecordKind::Film => "film",
        RecordKind::ForumPost => "forumPost",
        RecordKind::Hearing => "hearing",
        RecordKind::InstantMessage => "instantMessage",
        RecordKind::Interview => "interview",
        RecordKind::JournalArticle => "journalArticle",
        RecordKind::Letter => "letter",
        RecordKind::MagazineArticle => "magazineArticle",
        RecordKind::Manuscript => "manuscript",
        RecordKind::MapItem => "map",
        RecordKind::NewspaperArticle => "newspaperArticle",
        RecordKind::Patent => "patent",
        RecordKind::Podcast => "podcast",
        RecordKind::Presentation => "presentation",
        RecordKind::RadioBroadcast => "radioBroadcast",
        RecordKind::Report => "report",
        RecordKind::Statute => "statute",
        RecordKind::Thesis => "thesis",
        RecordKind::TvBroadcast => "tvBroadcast",
        RecordKind::VideoRecording => "videoRecording",
        RecordKind::Webpage => "webpage",
        RecordKind::Attachment => "attachment",
        RecordKind::Note => "note",
    }
}

/// The variant a discriminator string names, if any.
pub open spec fn kind_of_tag(t: Seq<char>) -> Option<RecordKind> {
    if t == "artwork"@ {
        Some(RecordKind::Artwork)
    } else if t == "audioRecording"@ {
        Some(RecordKind::AudioRecording)
    } else if t == "bill"@ {
        Some(RecordKind::Bill)
    } else if t == "blogPost"@ {
        Some(RecordKind::BlogPost)
    } else if t == "book"@ {
        Some(RecordKind::Book)
    } else if t == "bookSection"@ {
        Some(RecordKind::BookSection)
    } else if t == "case"@ {
        Some(RecordKind::Case)
    } else if t == "computerProgram"@ {
        Some(RecordKind::ComputerProgram)
    } else if t == "conferencePaper"@ {
        Some(RecordKind::ConferencePaper)
    } else if t == "dictionaryEntry"@ {
        Some(RecordKind::DictionaryEntry)
    } else if t == "document"@ {
        Some(RecordKind::Document)
    } else if t == "email"@ {
        Some(RecordKind::Email)
    } else if t == "encyclopediaArticle"@ {
        Some(RecordKind::EncyclopediaArticle)
    } else if t == "film"@ {
        Some(RecordKind::Film)
    } else if t == "forumPost"@ {
        Some(RecordKind::ForumPost)
    } else if t == "hearing"@ {
        Some(RecordKind::Hearing)
    } else if t == "instantMessage"@ {
        Some(RecordKind::InstantMessage)
    } else if t == "interview"@ {
        Some(RecordKind::Interview)
    } else if t == "journalArticle"@ {
        Some(RecordKind::JournalArticle)
    } else if t == "letter"@ {
        Some(RecordKind::Letter)
    } else if t == "magazineArticle"@ {
        Some(RecordKind::MagazineArticle)
    } else if t == "manuscript"@ {
        Some(RecordKind::Manuscript)
    } else if t == "map"@ {
        Some(RecordKind::MapItem)
    } else if t == "newspaperArticle"@ {
        Some(RecordKind::NewspaperArticle)
    } else if t == "patent"@ {
        Some(RecordKind::Patent)
    } else if t == "podcast"@ {
        Some(RecordKind::Podcast)
    } else if t == "presentation"@ {
        Some(RecordKind::Presentation)
    } else if t == "radioBroadcast"@ {
        Some(RecordKind::RadioBroadcast)
    } else if t == "report"@ {
        Some(RecordKind::Report)
    } else if t == "statute"@ {
        Some(RecordKind::Statute)
    } else if t == "thesis"@ {
        Some(RecordKind::Thesis)
    } else if t == "tvBroadcast"@ {
        Some(RecordKind::TvBroadcast)
    } else if t == "videoRecording"@ {
        Some(RecordKind::VideoRecording)
    } else if t == "webpage"@ {
        Some(RecordKind::Webpage)
    } else if t == "attachment"@ {
        Some(RecordKind::Attachment)
    } else if t == "note"@ {
        Some(RecordKind::Note)
    } else {
        None
    }
}

/// The variant a discriminator string names, if any.
pub fn kind_for_tag(tag: &str) -> (r: Option<RecordKind>)
    ensures
        r == kind_of_tag(tag@),
{
    if str_eq(tag, "artwork") {
        Some(RecordKind::Artwork)
    } else if str_eq(tag, "audioRecording") {
        Some(RecordKind::AudioRecording)
    } else if str_eq(tag, "bill") {
        Some(RecordKind::Bill)
    } else if str_eq(tag, "blogPost") {
        Some(RecordKind::BlogPost)
    } else if str_eq(tag, "book") {
        Some(RecordKind::Book)
    } else if str_eq(tag, "bookSection") {
        Some(RecordKind::BookSection)
    } else if str_eq(tag, "case") {
        Some(RecordKind::Case)
    } else if str_eq(tag, "computerProgram") {
        Some(RecordKind::ComputerProgram)
    } else if str_eq(tag, "conferencePaper") {
        Some(RecordKind::ConferencePaper)
    } else if str_eq(tag, "dictionaryEntry") {
        Some(RecordKind::DictionaryEntry)
    } else if str_eq(tag, "document") {
        Some(RecordKind::Document)
    } else if str_eq(tag, "email") {
        Some(RecordKind::Email)
    } else if str_eq(tag, "encyclopediaArticle") {
        Some(RecordKind::EncyclopediaArticle)
    } else if str_eq(tag, "film") {
        Some(RecordKind::Film)
    } else if str_eq(tag, "forumPost") {
        Some(RecordKind::ForumPost)
    } else if str_eq(tag, "hearing") {
        Some(RecordKind::Hearing)
    } else if str_eq(tag, "instantMessage") {
        Some(RecordKind::InstantMessage)
    } else if str_eq(tag, "interview") {
        Some(RecordKind::Interview)
    } else if str_eq(tag, "journalArticle") {
        Some(RecordKind::JournalArticle)
    } else if str_eq(tag, "letter") {
        Some(RecordKind::Letter)
    } else if str_eq(tag, "magazineArticle") {
        Some(RecordKind::MagazineArticle)
    } else if str_eq(tag, "manuscript") {
        Some(RecordKind::Manuscript)
    } else if str_eq(tag, "map") {
        Some(RecordKind::MapItem)
    } else if str_eq(tag, "newspaperArticle") {
        Some(RecordKind::NewspaperArticle)
    } else if str_eq(tag, "patent") {
        Some(RecordKind::Patent)
    } else if str_eq(tag, "podcast") {
        Some(RecordKind::Podcast)
    } else if str_eq(tag, "presentation") {
        Some(RecordKind::Presentation)
    } else if str_eq(tag, "radioBroadcast") {
        Some(RecordKind::RadioBroadcast)
    } else if str_eq(tag, "report") {
        Some(RecordKind::Report)
    } else if str_eq(tag, "statute") {
        Some(RecordKind::Statute)
    } else if str_eq(tag, "thesis") {
        Some(RecordKind::Thesis)
    } else if str_eq(tag, "tvBroadcast") {
        Some(RecordKind::TvBroadcast)
    } else if str_eq(tag, "videoRecording") {
        Some(RecordKind::VideoRecording)
    } else if str_eq(tag, "webpage") {
        Some(RecordKind::Webpage)
    } else if str_eq(tag, "attachment") {
        Some(RecordKind::Attachment)
    } else if str_eq(tag, "note") {
        Some(RecordKind::Note)
    } else {
        None
    }
}

/// The wire member that carries a variant's primary date, where the
/// variant has one.  Notes and attachments have none: their date is the
/// server-owned `dateAdded` timestamp.
pub open spec fn date_key_of(k: RecordKind) -> Option<Seq<char>> {
    match k {
        RecordKind::Statute => Some("dateEnacted"@),
        RecordKind::Case => Some("dateDecided"@),
        RecordKind::Patent => Some("issueDate"@),
        RecordKind::Podcast => Some("accessDate"@),
        RecordKind::BookSection => Some("accessDate"@),
        RecordKind::Attachment => None,
        RecordKind::Note => None,
        _ => Some("date"@),
    }
}

/// The wire member that carries a variant's primary date.
pub fn date_key_of_kind(k: RecordKind) -> (r: Option<&'static str>)
    ensures
        match r {
            Some(s) => date_key_of(k) == Some(s@),
            None => date_key_of(k) is None,
        },
{
    match k {
        RecordKind::Statute => Some("dateEnacted"),
        RecordKind::Case => Some("dateDecided"),
        RecordKind::Patent => Some("issueDate"),
        RecordKind::Podcast => Some("accessDate"),
        RecordKind::BookSection => Some("accessDate"),
        RecordKind::Attachment => None,
        RecordKind::Note => None,
        _ => Some("date"),
    }
}

/// The default title of a variant when the wire omits one: notes are
/// titled "Note", everything else starts empty.
pub open spec fn title_default_of(k: RecordKind) -> Seq<char> {
    if k == RecordKind::Note {
        "Note"@
    } else {
        Seq::<char>::empty()
    }
}

/// The structural wire members every variant shares.
pub open spec fn base_structural(k: Seq<char>) -> bool {
    ||| k == "key"@
    ||| k == "version"@
    ||| k == "itemType"@
    ||| k == "title"@
    ||| k == "creators"@
    ||| k == "tags"@
    ||| k == "collections"@
    ||| k == "relations"@
    ||| k == "dateAdded"@
    ||| k == "dateModified"@
}

/// The wire members the free-form field scan must leave alone for this
/// variant: the shared structural members plus the variant's date member.
pub open spec fn skipped_key(kind: RecordKind, k: Seq<char>) -> bool {
    base_structural(k) || date_key_of(kind) == Some(k)
}

/// Whether `key` is a skipped member for this variant.
fn is_skipped(kind: RecordKind, key: &str) -> (r: bool)
    ensures
        r == skipped_key(kind, key@),
{
    if str_eq(key, "key") || str_eq(key, "version") || str_eq(key, "itemType") || str_eq(
        key,
        "title",
    ) || str_eq(key, "creators") || str_eq(key, "tags") || str_eq(key, "collections") || str_eq(
        key,
        "relations",
    ) || str_eq(key, "dateAdded") || str_eq(key, "dateModified") {
        true
    } else {
        match date_key_of_kind(kind) {
            Some(dk) => str_eq(key, dk),
            None => false,
        }
    }
}

/// The free-form string fields of a record object, in wire order: every
/// member that is not structural for the variant and carries a string.
pub open spec fn collect_str_fields(kind: RecordKind, entries: Seq<(String, JsonValue)>) -> Seq<
    (String, String),
>
    decreases entries.len(),
{
    if entries.len() == 0 {
        Seq::<(String, String)>::empty()
    } else {
        (if !skipped_key(kind, entries[0].0@) && entries[0].1 is Str {
            seq![(entries[0].0, entries[0].1->Str_0)]
        } else {
            Seq::<(String, String)>::empty()
        }) + collect_str_fields(kind, entries.skip(1))
    }
}

/// The free-form integer fields of a record object, in wire order.
pub open spec fn collect_int_fields(kind: RecordKind, entries: Seq<(String, JsonValue)>) -> Seq<
    (String, i64),
>
    decreases entries.len(),
{
    if entries.len() == 0 {
        Seq::<(String, i64)>::empty()
    } else {
        (if !skipped_key(kind, entries[0].0@) && entries[0].1 is Int {
            seq![(entries[0].0, entries[0].1->Int_0)]
        } else {
            Seq::<(String, i64)>::empty()
        }) + collect_int_fields(kind, entries.skip(1))
    }
}

/// What one more entry adds to the string-field scan.
pub open spec fn str_contribution(kind: RecordKind, e: (String, JsonValue)) -> Seq<
    (String, String),
> {
    if !skipped_key(kind, e.0@) && e.1 is Str {
        seq![(e.0, e.1->Str_0)]
    } else {
        Seq::<(String, String)>::empty()
    }
}

/// What one more entry adds to the integer-field scan.
pub open spec fn int_contribution(kind: RecordKind, e: (String, JsonValue)) -> Seq<(String, i64)> {
    if !skipped_key(kind, e.0@) && e.1 is Int {
        seq![(e.0, e.1->Int_0)]
    } else {
        Seq::<(String, i64)>::empty()
    }
}

/// Scanning one more entry of a prefix.
pub(crate) proof fn lemma_collect_str_take(
    kind: RecordKind,
    entries: Seq<(String, JsonValue)>,
    i: int,
)
    requires
        0 <= i < entries.len(),
    ensures
        collect_str_fields(kind, entries.take(i + 1)) == collect_str_fields(kind, entries.take(i))
            + str_contribution(kind, entries[i]),
    decreases i,
{
    let a = entries.take(i + 1);
    let b = entries.take(i);
    if i == 0 {
        assert(a =~= seq![entries[0]]);
        assert(b =~= Seq::<(String, JsonValue)>::empty());
        assert(a.skip(1) =~= Seq::<(String, JsonValue)>::empty());
        assert(collect_str_fields(kind, a) =~= collect_str_fields(kind, b) + str_contribution(
            kind,
            entries[0],
        ));
    } else {
        lemma_collect_str_take(kind, entries.skip(1), i - 1);
        assert(a[0] == entries[0]);
        assert(a.skip(1) =~= entries.skip(1).take(i));
        assert(b.skip(1) =~= entries.skip(1).take(i - 1));
        assert(entries.skip(1)[i - 1] == entries[i]);
        assert(collect_str_fields(kind, a) =~= collect_str_fields(kind, b) + str_contribution(
            kind,
            entries[i],
        ));
    }
}

/// Scanning one more entry of a prefix.
pub(crate) proof fn lemma_collect_int_take(
    kind: RecordKind,
    entries: Seq<(String, JsonValue)>,
    i: int,
)
    requires
        0 <= i < entries.len(),
    ensures
        collect_int_fields(kind, entries.take(i + 1)) == collect_int_fields(kind, entries.take(i))
            + int_contribution(kind, entries[i]),
    decreases i,
{
    let a = entries.take(i + 1);
    let b = entries.take(i);
    if i == 0 {
        assert(a =~= seq![entries[0]]);
        assert(b =~= Seq::<(String, JsonValue)>::empty());
        assert(a.skip(1) =~= Seq::<(String, JsonValue)>::empty());
        assert(collect_int_fields(kind, a) =~= collect_int_fields(kind, b) + int_contribution(
            kind,
            entries[0],
        ));
    } else {
        lemma_collect_int_take(kind, entries.skip(1), i - 1);
        assert(a[0] == entries[0]);
        assert(a.skip(1) =~= entries.skip(1).take(i));
        assert(b.skip(1) =~= entries.skip(1).take(i - 1));
        assert(entries.skip(1)[i - 1] == entries[i]);
        assert(collect_int_fields(kind, a) =~= collect_int_fields(kind, b) + int_contribution(
            kind,
            entries[i],
        ));
    }
}

/// Appending one entry extends the string-field scan by its contribution.
pub(crate) proof fn lemma_collect_str_push(
    kind: RecordKind,
    entries: Seq<(String, JsonValue)>,
    e: (String, JsonValue),
)
    ensures
        collect_str_fields(kind, entries.push(e)) == collect_str_fields(kind, entries)
            + str_contribution(kind, e),
    decreases entries.len(),
{
    if entries.len() == 0 {
        assert(entries.push(e)[0] == e);
        assert(entries.push(e).skip(1) =~= Seq::<(String, JsonValue)>::empty());
        assert(entries =~= Seq::<(String, JsonValue)>::empty());
        assert(collect_str_fields(kind, entries.push(e)) =~= collect_str_fields(kind, entries)
            + str_contribution(kind, e));
    } else {
        lemma_collect_str_push(kind, entries.skip(1), e);
        assert(entries.push(e)[0] == entries[0]);
        assert(entries.push(e).skip(1) =~= entries.skip(1).push(e));
        assert(collect_str_fields(kind, entries.push(e)) =~= collect_str_fields(kind, entries)
            + str_contribution(kind, e));
    }
}

/// Appending one entry extends the integer-field scan by its contribution.
pub(crate) proof fn lemma_collect_int_push(
    kind: RecordKind,
    entries: Seq<(String, JsonValue)>,
    e: (String, JsonValue),
)
    ensures
        collect_int_fields(kind, entries.push(e)) == collect_int_fields(kind, entries)
            + int_contribution(kind, e),
    decreases entries.len(),
{
    if entries.len() == 0 {
        assert(entries.push(e)[0] == e);
        assert(entries.push(e).skip(1) =~= Seq::<(String, JsonValue)>::empty());
        assert(entries =~= Seq::<(String, JsonValue)>::empty());
        assert(collect_int_fields(kind, entries.push(e)) =~= collect_int_fields(kind, entries)
            + int_contribution(kind, e));
    } else {
        lemma_collect_int_push(kind, entries.skip(1), e);
        assert(entries.push(e)[0] == entries[0]);
        assert(entries.push(e).skip(1) =~= entries.skip(1).push(e));
        assert(collect_int_fields(kind, entries.push(e)) =~= collect_int_fields(kind, entries)
            + int_contribution(kind, e));
    }
}

/// What the encoder guarantees of its output: the object is well-shaped
/// for the variant, and a decoder recovers every client-owned field of
/// `d` from it.
pub open spec fn encodes_record(kind: RecordKind, d: RecordData, r: JsonValue) -> bool {
    &&& record_shape_ok(kind, r)
    &&& spec_str_field(r, "key"@) == d.key@
    &&& (if d.key@.len() == 0 {
        spec_get(r, "version"@) is None
    } else {
        spec_u64_field(r, "version"@) == d.version
    })
    &&& spec_str_field(r, "itemType"@) == spec_tag_of(kind)
    &&& (spec_get(r, "itemType"@) matches Some(x) && x is Str)
    &&& (if kind == RecordKind::Note {
        spec_get(r, "title"@) is None
    } else {
        spec_str_field(r, "title"@) == d.title@
    })
    &&& (if d.creators@.len() == 0 {
        spec_get(r, "creators"@) is None
    } else {
        match spec_get(r, "creators"@) {
            Some(x) => is_creators_of(d.creators@, x),
            None => false,
        }
    })
    &&& (match date_key_of(kind) {
        Some(dk) => spec_str_field(r, dk) == d.date@,
        None => true,
    })
    &&& collect_str_fields(kind, r->Obj_0@) == d.fields@
    &&& collect_int_fields(kind, r->Obj_0@) == d.num_fields@
    &&& (match spec_get(r, "tags"@) {
        Some(x) => is_tags_of(d.tags@, x),
        None => false,
    })
    &&& (match d.collections {
        None => spec_get(r, "collections"@) is None,
        Some(cs) => match spec_get(r, "collections"@) {
            Some(x) => is_str_arr_of(cs@, x),
            None => false,
        },
    })
    &&& (match spec_get(r, "relations"@) {
        Some(x) => is_relations_of(d.relations@, x),
        None => false,
    })
    &&& spec_get(r, "dateAdded"@) is None
    &&& spec_get(r, "dateModified"@) is None
}

/// One record's content: the layout every variant of the catalog shares.
#[derive(Debug, Clone, PartialEq)]
pub struct RecordData {
    pub key: String,
    pub version: u64,
    pub item_type: String,
    pub title: String,
    pub creators: Vec<Creator>,
    pub date: String,
    pub fields: Vec<(String, String)>,
    pub num_fields: Vec<(String, i64)>,
    pub tags: Vec<Tag>,
    pub collections: Option<Vec<String>>,
    pub relations: Vec<(String, String)>,
    pub date_added: String,
    pub date_modified: String,
}

/// A well-formed record of the given variant: the stored tag is the
/// variant's schema tag, the version fits the wire's signed integers, the
/// free-form fields use non-structural keys and non-empty values (an empty
/// value means the same as an absent member on the wire), a variant
/// without a date member carries no date, and a note is titled "Note".
pub open spec fn wf_record(kind: RecordKind, d: RecordData) -> bool {
    &&& d.item_type@ == spec_tag_of(kind)
    &&& d.version <= i64::MAX as u64
    &&& (forall|j: int|
        0 <= j < d.fields@.len() ==> !skipped_key(kind, (#[trigger] d.fields@[j]).0@)
            && d.fields@[j].1@.len() > 0)
    &&& (forall|j: int|
        0 <= j < d.num_fields@.len() ==> !skipped_key(kind, (#[trigger] d.num_fields@[j]).0@))
    &&& (date_key_of(kind) is None ==> d.date@.len() == 0)
    &&& (kind == RecordKind::Note ==> d.title@ == "Note"@)
}

/// Whether an object can decode as a record of the given variant.
pub open spec fn record_shape_ok(kind: RecordKind, v: JsonValue) -> bool {
    &&& v is Obj
    &&& str_field_ok(v, "key"@)
    &&& u64_field_ok(v, "version"@)
    &&& (match spec_get(v, "itemType"@) {
        None => true,
        Some(JsonValue::Str(_)) => true,
        Some(_) => false,
    })
    &&& (match spec_get(v, "title"@) {
        None => true,
        Some(JsonValue::Str(_)) => true,
        Some(_) => false,
    })
    &&& (match spec_get(v, "creators"@) {
        None => true,
        Some(x) => creators_arr_ok(x),
    })
    &&& (match date_key_of(kind) {
        Some(dk) => str_field_ok(v, dk),
        None => true,
    })
    &&& (match spec_get(v, "tags"@) {
        None => true,
        Some(x) => tags_arr_ok(x),
    })
    &&& (match spec_get(v, "collections"@) {
        None => true,
        Some(x) => x is Null || str_arr_ok(x),
    })
    &&& (match spec_get(v, "relations"@) {
        None => true,
        Some(x) => relations_ok(x),
    })
    &&& str_field_ok(v, "dateAdded"@)
    &&& str_field_ok(v, "dateModified"@)
}

/// Whether `d` carries the fields of the record object `v`, decoded as
/// the given variant.
pub open spec fn is_record_of(kind: RecordKind, d: RecordData, v: JsonValue) -> bool {
    &&& d.key@ == spec_str_field(v, "key"@)
    &&& d.version == spec_u64_field(v, "version"@)
    &&& d.item_type@ == (match spec_get(v, "itemType"@) {
        Some(JsonValue::Str(s)) => s@,
        _ => spec_tag_of(kind),
    })
    &&& d.title@ == (match spec_get(v, "title"@) {
        Some(JsonValue::Str(s)) => s@,
        _ => title_default_of(kind),
    })
    &&& (match spec_get(v, "creators"@) {
        None => d.creators@.len() == 0,
        Some(x) => is_creators_of(d.creators@, x),
    })
    &&& d.date@ == (match date_key_of(kind) {
        Some(dk) => spec_str_field(v, dk),
        None => Seq::<char>::empty(),
    })
    &&& d.fields@ == collect_str_fields(kind, v->Obj_0@)
    &&& d.num_fields@ == collect_int_fields(kind, v->Obj_0@)
    &&& (match spec_get(v, "tags"@) {
        None => d.tags@.len() == 0,
        Some(x) => is_tags_of(d.tags@, x),
    })
    &&& (match spec_get(v, "collections"@) {
        None => d.collections is None,
        Some(x) => if x is Null {
            d.collections is None
        } else {
            d.collections matches Some(cs) && is_str_arr_of(cs@, x)
        },
    })
    &&& (match spec_get(v, "relations"@) {
        None => d.relations@.len() == 0,
        Some(x) => is_relations_of(d.relations@, x),
    })
    &&& d.date_added@ == spec_str_field(v, "dateAdded"@)
    &&& d.date_modified@ == spec_str_field(v, "dateModified"@)
}

/// The default title of a variant.
fn title_default(kind: RecordKind) -> (r: String)
    ensures
        r@ == title_default_of(kind),
{
    match kind {
        RecordKind::Note => "Note".to_owned(),
        _ => String::new(),
    }
}

/// How one push moves every structural lookup and both field scans.
proof fn lemma_rec_push(kind: RecordKind, entries: Seq<(String, JsonValue)>, e: (String, JsonValue))
    ensures
        spec_lookup(entries.push(e), "key"@) == (match spec_lookup(entries, "key"@) {
            Some(x) => Some(x),
            None => if e.0@ == "key"@ {
                Some(e.1)
            } else {
                None
            },
        }),
        spec_lookup(entries.push(e), "version"@) == (match spec_lookup(entries, "version"@) {
            Some(x) => Some(x),
            None => if e.0@ == "version"@ {
                Some(e.1)
            } else {
                None
            },
        }),
        spec_lookup(entries.push(e), "itemType"@) == (match spec_lookup(entries, "itemType"@) {
            Some(x) => Some(x),
            None => if e.0@ == "itemType"@ {
                Some(e.1)
            } else {
                None
            },
        }),
        spec_lookup(entries.push(e), "title"@) == (match spec_lookup(entries, "title"@) {
            Some(x) => Some(x),
            None => if e.0@ == "title"@ {
                Some(e.1)
            } else {
                None
            },
        }),
        spec_lookup(entries.push(e), "creators"@) == (match spec_lookup(entries, "creators"@) {
            Some(x) => Some(x),
            None => if e.0@ == "creators"@ {
                Some(e.1)
            } else {
                None
            },
        }),
        spec_lookup(entries.push(e), "tags"@) == (match spec_lookup(entries, "tags"@) {
            Some(x) => Some(x),
            None => if e.0@ == "tags"@ {
                Some(e.1)
            } else {
                None
            },
        }),
        spec_lookup(entries.push(e), "collections"@) == (match spec_lookup(
            entries,
            "collections"@,
        ) {
            Some(x) => Some(x),
            None => if e.0@ == "collections"@ {
                Some(e.1)
            } else {
                None
            },
        }),
        spec_lookup(entries.push(e), "relations"@) == (match spec_lookup(entries, "relations"@) {
            Some(x) => Some(x),
            None => if e.0@ == "relations"@ {
                Some(e.1)
            } else {
                None
            },
        }),
        spec_lookup(entries.push(e), "dateAdded"@) == (match spec_lookup(entries, "dateAdded"@) {
            Some(x) => Some(x),
            None => if e.0@ == "dateAdded"@ {
                Some(e.1)
            } else {
                None
            },
        }),
        spec_lookup(entries.push(e), "dateModified"@) == (match spec_lookup(
            entries,
            "dateModified"@,
        ) {
            Some(x) => Some(x),
            None => if e.0@ == "dateModified"@ {
                Some(e.1)
            } else {
                None
            },
        }),
        (match date_key_of(kind) {
            Some(dk) => spec_lookup(entries.push(e), dk) == (match spec_lookup(entries, dk) {
                Some(x) => Some(x),
                None => if e.0@ == dk {
                    Some(e.1)
                } else {
                    None
                },
            }),
            None => true,
        }),
        collect_str_fields(kind, entries.push(e)) == collect_str_fields(kind, entries)
            + str_contribution(kind, e),
        collect_int_fields(kind, entries.push(e)) == collect_int_fields(kind, entries)
            + int_contribution(kind, e),
{
    crate::json::lemma_lookup_push(entries, e, "key"@);
    crate::json::lemma_lookup_push(entries, e, "version"@);
    crate::json::lemma_lookup_push(entries, e, "itemType"@);
    crate::json::lemma_lookup_push(entries, e, "title"@);
    crate::json::lemma_lookup_push(entries, e, "creators"@);
    crate::json::lemma_lookup_push(entries, e, "tags"@);
    crate::json::lemma_lookup_push(entries, e, "collections"@);
    crate::json::lemma_lookup_push(entries, e, "relations"@);
    crate::json::lemma_lookup_push(entries, e, "dateAdded"@);
    crate::json::lemma_lookup_push(entries, e, "dateModified"@);
    if let Some(dk) = date_key_of(kind) {
        crate::json::lemma_lookup_push(entries, e, dk);
    }
    lemma_collect_str_push(kind, entries, e);
    lemma_collect_int_push(kind, entries, e);
}

/// The wire member names the codecs use are pairwise distinct.
proof fn lemma_wire_keys_distinct()
    ensures
        "key"@ != "version"@,
        "key"@ != "itemType"@,
        "key"@ != "title"@,
        "key"@ != "creators"@,
        "key"@ != "tags"@,
        "key"@ != "collections"@,
        "key"@ != "relations"@,
        "key"@ != "dateAdded"@,
        "key"@ != "dateModified"@,
        "key"@ != "date"@,
        "key"@ != "dateEnacted"@,
        "key"@ != "dateDecided"@,
        "key"@ != "issueDate"@,
        "key"@ != "accessDate"@,
        "version"@ != "itemType"@,
        "version"@ != "title"@,
        "version"@ != "creators"@,
        "version"@ != "tags"@,
        "version"@ != "collections"@,
        "version"@ != "relations"@,
        "version"@ != "dateAdded"@,
        "version"@ != "dateModified"@,
        "version"@ != "date"@,
        "version"@ != "dateEnacted"@,
        "version"@ != "dateDecided"@,
        "version"@ != "issueDate"@,
        "version"@ != "accessDate"@,
        "itemType"@ != "title"@,
        "itemType"@ != "creators"@,
        "itemType"@ != "tags"@,
        "itemType"@ != "collections"@,
        "itemType"@ != "relations"@,
        "itemType"@ != "dateAdded"@,
        "itemType"@ != "dateModified"@,
        "itemType"@ != "date"@,
        "itemType"@ != "dateEnacted"@,
        "itemType"@ != "dateDecided"@,
        "itemType"@ != "issueDate"@,
        "itemType"@ != "accessDate"@,
        "title"@ != "creators"@,
        "title"@ != "tags"@,
        "title"@ != "collections"@,
        "title"@ != "relations"@,
        "title"@ != "dateAdded"@,
        "title"@ != "dateModified"@,
        "title"@ != "date"@,
        "title"@ != "dateEnacted"@,
        "title"@ != "dateDecided"@,
        "title"@ != "issueDate"@,
        "title"@ != "accessDate"@,
        "creators"@ != "tags"@,
        "creators"@ != "collections"@,
        "creators"@ != "relations"@,
        "creators"@ != "dateAdded"@,
        "creators"@ != "dateModified"@,
        "creators"@ != "date"@,
        "creators"@ != "dateEnacted"@,
        "creators"@ != "dateDecided"@,
        "creators"@ != "issueDate"@,
        "creators"@ != "accessDate"@,
        "tags"@ != "collections"@,
        "tags"@ != "relations"@,
        "tags"@ != "dateAdded"@,
        "tags"@ != "dateModified"@,
        "tags"@ != "date"@,
        "tags"@ != "dateEnacted"@,
        "tags"@ != "dateDecided"@,
        "tags"@ != "issueDate"@,
        "tags"@ != "accessDate"@,
        "collections"@ != "relations"@,
        "collections"@ != "dateAdded"@,
        "collections"@ != "dateModified"@,
        "collections"@ != "date"@,
        "collections"@ != "dateEnacted"@,
        "collections"@ != "dateDecided"@,
        "collections"@ != "issueDate"@,
        "collections"@ != "accessDate"@,
        "relations"@ != "dateAdded"@,
        "relations"@ != "dateModified"@,
        "relations"@ != "date"@,
        "relations"@ != "dateEnacted"@,
        "relations"@ != "dateDecided"@,
        "relations"@ != "issueDate"@,
        "relations"@ != "accessDate"@,
        "dateAdded"@ != "dateModified"@,
        "dateAdded"@ != "date"@,
        "dateAdded"@ != "dateEnacted"@,
        "dateAdded"@ != "dateDecided"@,
        "dateAdded"@ != "issueDate"@,
        "dateAdded"@ != "accessDate"@,
        "dateModified"@ != "date"@,
        "dateModified"@ != "dateEnacted"@,
        "dateModified"@ != "dateDecided"@,
        "dateModified"@ != "issueDate"@,
        "dateModified"@ != "accessDate"@,
        "date"@ != "dateEnacted"@,
        "date"@ != "dateDecided"@,
        "date"@ != "issueDate"@,
        "date"@ != "accessDate"@,
        "dateEnacted"@ != "dateDecided"@,
        "dateEnacted"@ != "issueDate"@,
        "dateEnacted"@ != "accessDate"@,
        "dateDecided"@ != "issueDate"@,
        "dateDecided"@ != "accessDate"@,
        "issueDate"@ != "accessDate"@,
{
    reveal_strlit("key");
    reveal_strlit("version");
    reveal_strlit("itemType");
    reveal_strlit("title");
    reveal_strlit("creators");
    reveal_strlit("tags");
    reveal_strlit("collections");
    reveal_strlit("relations");
    reveal_strlit("dateAdded");
    reveal_strlit("dateModified");
    reveal_strlit("date");
    reveal_strlit("dateEnacted");
    reveal_strlit("dateDecided");
    reveal_strlit("issueDate");
    reveal_strlit("accessDate");
    assert("key"@.len() != "version"@.len());
    assert("key"@.len() != "itemType"@.len());
    assert("key"@.len() != "title"@.len());
    assert("key"@.len() != "creators"@.len());
    assert("key"@.len() != "tags"@.len());
    assert("key"@.len() != "collections"@.len());
    assert("key"@.len() != "relations"@.len());
    assert("key"@.len() != "dateAdded"@.len());
    assert("key"@.len() != "dateModified"@.len());
    assert("key"@.len() != "date"@.len());
    assert("key"@.len() != "dateEnacted"@.len());
    assert("key"@.len() != "dateDecided"@.len());
    assert("key"@.len() != "issueDate"@.len());
    assert("key"@.len() != "accessDate"@.len());
    assert("version"@.len() != "itemType"@.len());
    assert("version"@.len() != "title"@.len());
    assert("version"@.len() != "creators"@.len());
    assert("version"@.len() != "tags"@.len());
    assert("version"@.len() != "collections"@.len());
    assert("version"@.len() != "relations"@.len());
    assert("version"@.len() != "dateAdded"@.len());
    assert("version"@.len() != "dateModified"@.len());
    assert("version"@.len() != "date"@.len());
    assert("version"@.len() != "dateEnacted"@.len());
    assert("version"@.len() != "dateDecided"@.len());
    assert("version"@.len() != "issueDate"@.len());
    assert("version"@.len() != "accessDate"@.len());
    assert("itemType"@.len() != "title"@.len());
    assert("itemType"@[0] != "creators"@[0]);
    assert("itemType"@.len() != "tags"@.len());
    assert("itemType"@.len() != "collections"@.len());
    assert("itemType"@.len() != "relations"@.len());
    assert("itemType"@.len() != "dateAdded"@.len());
    assert("itemType"@.len() != "dateModified"@.len());
    assert("itemType"@.len() != "date"@.len());
    assert("itemType"@.len() != "dateEnacted"@.len());
    assert("itemType"@.len() != "dateDecided"@.len());
    assert("itemType"@.len() != "issueDate"@.len());
    assert("itemType"@.len() != "accessDate"@.len());
    assert("title"@.len() != "creators"@.len());
    assert("title"@.len() != "tags"@.len());
    assert("title"@.len() != "collections"@.len());
    assert("title"@.len() != "relations"@.len());
    assert("title"@.len() != "dateAdded"@.len());
    assert("title"@.len() != "dateModified"@.len());
    assert("title"@.len() != "date"@.len());
    assert("title"@.len() != "dateEnacted"@.len());
    assert("title"@.len() != "dateDecided"@.len());
    assert("title"@.len() != "issueDate"@.len());
    assert("title"@.len() != "accessDate"@.len());
    assert("creators"@.len() != "tags"@.len());
    assert("creators"@.len() != "collections"@.len());
    assert("creators"@.len() != "relations"@.len());
    assert("creators"@.len() != "dateAdded"@.len());
    assert("creators"@.len() != "dateModified"@.len());
    assert("creators"@.len() != "date"@.len());
    assert("creators"@.len() != "dateEnacted"@.len());
    assert("creators"@.len() != "dateDecided"@.len());
    assert("creators"@.len() != "issueDate"@.len());
    assert("creators"@.len() != "accessDate"@.len());
    assert("tags"@.len() != "collections"@.len());
    assert("tags"@.len() != "relations"@.len());
    assert("tags"@.len() != "dateAdded"@.len());
    assert("tags"@.len() != "dateModified"@.len());
    assert("tags"@[0] != "date"@[0]);
    assert("tags"@.len() != "dateEnacted"@.len());
    assert("tags"@.len() != "dateDecided"@.len());
    assert("tags"@.len() != "issueDate"@.len());
    assert("tags"@.len() != "accessDate"@.len());
    assert("collections"@.len() != "relations"@.len());
    assert("collections"@.len() != "dateAdded"@.len());
    assert("collections"@.len() != "dateModified"@.len());
    assert("collections"@.len() != "date"@.len());
    assert("collections"@[0] != "dateEnacted"@[0]);
    assert("collections"@[0] != "dateDecided"@[0]);
    assert("collections"@.len() != "issueDate"@.len());
    assert("collections"@.len() != "accessDate"@.len());
    assert("relations"@[0] != "dateAdded"@[0]);
    assert("relations"@.len() != "dateModified"@.len());
    assert("relations"@.len() != "date"@.len());
    assert("relations"@.len() != "dateEnacted"@.len());
    assert("relations"@.len() != "dateDecided"@.len());
    assert("relations"@[0] != "issueDate"@[0]);
    assert("relations"@.len() != "accessDate"@.len());
    assert("dateAdded"@.len() != "dateModified"@.len());
    assert("dateAdded"@.len() != "date"@.len());
    assert("dateAdded"@.len() != "dateEnacted"@.len());
    assert("dateAdded"@.len() != "dateDecided"@.len());
    assert("dateAdded"@[0] != "issueDate"@[0]);
    assert("dateAdded"@.len() != "accessDate"@.len());
    assert("dateModified"@.len() != "date"@.len());
    assert("dateModified"@.len() != "dateEnacted"@.len());
    assert("dateModified"@.len() != "dateDecided"@.len());
    assert("dateModified"@.len() != "issueDate"@.len());
    assert("dateModified"@.len() != "accessDate"@.len());
    assert("date"@.len() != "dateEnacted"@.len());
    assert("date"@.len() != "dateDecided"@.len());
    assert("date"@.len() != "issueDate"@.len());
    assert("date"@.len() != "accessDate"@.len());
    assert("dateEnacted"@[4] != "dateDecided"@[4]);
    assert("dateEnacted"@.len() != "issueDate"@.len());
    assert("dateEnacted"@.len() != "accessDate"@.len());
    assert("dateDecided"@.len() != "issueDate"@.len());
    assert("dateDecided"@.len() != "accessDate"@.len());
    assert("issueDate"@.len() != "accessDate"@.len());
}

impl RecordData {
    /// Decodes a record object as the given variant.  Strings default to
    /// empty when absent, the version to zero, the discriminator and the
    /// title to the variant's defaults; every member that is neither
    /// structural nor the variant's date member is kept as a free-form
    /// string or integer field, in wire order.
    pub fn decode_for(kind: RecordKind, v: &JsonValue) -> (r: Result<RecordData, ZoteroApiError>)
        ensures
            r is Ok <==> record_shape_ok(kind, *v),
            r matches Ok(d) ==> is_record_of(kind, d, *v),
            r matches Err(e) ==> e is ParseResponseError,
    {
        let entries = match v {
            JsonValue::Obj(es) => es,
            _ => {
                return Err(shape_error());
            },
        };
        let key = match v.str_field("key") {
            Some(s) => s,
            None => {
                return Err(shape_error());
            },
        };
        let version = match v.u64_field("version") {
            Some(n) => n,
            None => {
                return Err(shape_error());
            },
        };
        let item_type = match v.get("itemType") {
            None => tag_of(kind).to_owned(),
            Some(JsonValue::Str(s)) => s.clone(),
            Some(_) => {
                return Err(shape_error());
            },
        };
        let title = match v.get("title") {
            None => title_default(kind),
            Some(JsonValue::Str(s)) => s.clone(),
            Some(_) => {
                return Err(shape_error());
            },
        };
        let creators = match v.get("creators") {
            None => Vec::new(),
            Some(x) => match crate::shared_fields::decode_creators(x) {
                Ok(cs) => cs,
                Err(e) => {
                    return Err(e);
                },
            },
        };
        let date = match date_key_of_kind(kind) {
            Some(dk) => match v.str_field(dk) {
                Some(s) => s,
                None => {
                    return Err(shape_error());
                },
            },
            None => String::new(),
        };
        let tags = match v.get("tags") {
            None => Vec::new(),
            Some(x) => match crate::shared_fields::decode_tags(x) {
                Ok(ts) => ts,
                Err(e) => {
                    return Err(e);
                },
            },
        };
        let collections = match v.get("collections") {
            None => None,
            Some(JsonValue::Null) => None,
            Some(x) => match crate::json::decode_string_array(x) {
                Some(ss) => Some(ss),
                None => {
                    return Err(shape_error());
                },
            },
        };
        let relations = match v.get("relations") {
            None => Vec::new(),
            Some(x) => match crate::collection::decode_relations(x) {
                Ok(rel) => rel,
                Err(e) => {
                    return Err(e);
                },
            },
        };
        let date_added = match v.str_field("dateAdded") {
            Some(s) => s,
            None => {
                return Err(shape_error());
            },
        };
        let date_modified = match v.str_field("dateModified") {
            Some(s) => s,
            None => {
                return Err(shape_error());
            },
        };
        let n = entries.len();
        let mut fields: Vec<(String, String)> = Vec::new();
        let mut num_fields: Vec<(String, i64)> = Vec::new();
        let mut i: usize = 0;
        #[verifier::loop_isolation(false)]
        while i < n
            invariant
                i <= n,
                n == entries.len(),
                fields@ =~= collect_str_fields(kind, entries@.take(i as int)),
                num_fields@ =~= collect_int_fields(kind, entries@.take(i as int)),
            decreases n - i,
        {
            let pair = &entries[i];
            if !is_skipped(kind, pair.0.as_str()) {
                match &pair.1 {
                    JsonValue::Str(s) => {
                        fields.push((pair.0.clone(), s.clone()));
                    },
                    JsonValue::Int(x) => {
                        num_fields.push((pair.0.clone(), *x));
                    },
                    _ => {},
                }
            }
            proof {
                lemma_collect_str_take(kind, entries@, i as int);
                lemma_collect_int_take(kind, entries@, i as int);
                assert(fields@ =~= collect_str_fields(kind, entries@.take(i + 1)));
                assert(num_fields@ =~= collect_int_fields(kind, entries@.take(i + 1)));
            }
            i += 1;
        }
        proof {
            assert(entries@.take(n as int) =~= entries@);
        }
        Ok(
            RecordData {
                key,
                version,
                item_type,
                title,
                creators,
                date,
                fields,
                num_fields,
                tags,
                collections,
                relations,
                date_added,
                date_modified,
            },
        )
    }

    /// Encodes the record for a create or update call.  The discriminator
    /// always travels; the title, the creators, the date and the
    /// collections are omitted when empty; the key and the version are
    /// omitted on create (an empty key) and sent on update; the
    /// server-owned timestamps never travel; a note never sends its
    /// fixed title.
    pub fn encode_for(kind: RecordKind, d: &RecordData) -> (r: JsonValue)
        requires
            wf_record(kind, *d),
        ensures
            encodes_record(kind, *d, r),
    {
        proof {
            lemma_wire_keys_distinct();
        }
        let mut entries: Vec<(String, JsonValue)> = Vec::new();
        let ghost p0 = entries@;
        let e = ("itemType".to_owned(), JsonValue::Str(tag_of(kind).to_owned()));
        let ghost g = e;
        entries.push(e);
        proof {
            lemma_rec_push(kind, p0, g);
        }
        if !d.key.as_str().is_empty() {
            let ghost p = entries@;
            let e = ("key".to_owned(), JsonValue::Str(d.key.clone()));
            let ghost g = e;
            entries.push(e);
            proof {
                lemma_rec_push(kind, p, g);
            }
            let ghost p1 = entries@;
            let e = ("version".to_owned(), JsonValue::Int(d.version as i64));
            let ghost g = e;
            entries.push(e);
            proof {
                lemma_rec_push(kind, p1, g);
            }
        }
        let is_note = match kind {
            RecordKind::Note => true,
            _ => false,
        };
        if !is_note && !d.title.as_str().is_empty() {
            let ghost p = entries@;
            let e = ("title".to_owned(), JsonValue::Str(d.title.clone()));
            let ghost g = e;
            entries.push(e);
            proof {
                lemma_rec_push(kind, p, g);
            }
        }
        if d.creators.len() > 0 {
            let ghost p = entries@;
            let e = ("creators".to_owned(), crate::shared_fields::encode_creators(&d.creators));
            let ghost g = e;
            entries.push(e);
            proof {
                lemma_rec_push(kind, p, g);
            }
        }
        match date_key_of_kind(kind) {
            Some(dk) => {
                if !d.date.as_str().is_empty() {
                    let ghost p = entries@;
                    let e = (dk.to_owned(), JsonValue::Str(d.date.clone()));
                    let ghost g = e;
                    entries.push(e);
                    proof {
                        lemma_rec_push(kind, p, g);
                    }
                }
            },
            None => {},
        }
        let ghost pre_fields = entries@;
        let nf = d.fields.len();
        let mut i: usize = 0;
        #[verifier::loop_isolation(false)]
        while i < nf
            invariant
                i <= nf,
                nf == d.fields.len(),
                spec_lookup(entries@, "key"@) == spec_lookup(pre_fields, "key"@),
                spec_lookup(entries@, "version"@) == spec_lookup(pre_fields, "version"@),
                spec_lookup(entries@, "itemType"@) == spec_lookup(pre_fields, "itemType"@),
                spec_lookup(entries@, "title"@) == spec_lookup(pre_fields, "title"@),
                spec_lookup(entries@, "creators"@) == spec_lookup(pre_fields, "creators"@),
                spec_lookup(entries@, "tags"@) == spec_lookup(pre_fields, "tags"@),
                spec_lookup(entries@, "collections"@) == spec_lookup(pre_fields, "collections"@),
                spec_lookup(entries@, "relations"@) == spec_lookup(pre_fields, "relations"@),
                spec_lookup(entries@, "dateAdded"@) == spec_lookup(pre_fields, "dateAdded"@),
                spec_lookup(entries@, "dateModified"@) == spec_lookup(pre_fields, "dateModified"@),
                (match date_key_of(kind) {
                    Some(dk) => spec_lookup(entries@, dk) == spec_lookup(pre_fields, dk),
                    None => true,
                }),
                collect_str_fields(kind, entries@) =~= collect_str_fields(kind, pre_fields)
                    + d.fields@.take(i as int),
                collect_int_fields(kind, entries@) == collect_int_fields(kind, pre_fields),
            decreases nf - i,
        {
            let pair = &d.fields[i];
            let ghost p = entries@;
            let e = (pair.0.clone(), JsonValue::Str(pair.1.clone()));
            let ghost g = e;
            entries.push(e);
            proof {
                assert(!skipped_key(kind, d.fields@[i as int].0@));
                lemma_rec_push(kind, p, g);
                assert(str_contribution(kind, g) =~= seq![d.fields@[i as int]]);
                assert(collect_str_fields(kind, entries@) =~= collect_str_fields(kind, pre_fields)
                    + d.fields@.take(i + 1));
            }
            i += 1;
        }
        proof {
            assert(d.fields@.take(nf as int) =~= d.fields@);
        }
        let ghost pre_nums = entries@;
        let nn = d.num_fields.len();
        let mut i2: usize = 0;
        #[verifier::loop_isolation(false)]
        while i2 < nn
            invariant
                i2 <= nn,
                nn == d.num_fields.len(),
                spec_lookup(entries@, "key"@) == spec_lookup(pre_nums, "key"@),
                spec_lookup(entries@, "version"@) == spec_lookup(pre_nums, "version"@),
                spec_lookup(entries@, "itemType"@) == spec_lookup(pre_nums, "itemType"@),
                spec_lookup(entries@, "title"@) == spec_lookup(pre_nums, "title"@),
                spec_lookup(entries@, "creators"@) == spec_lookup(pre_nums, "creators"@),
                spec_lookup(entries@, "tags"@) == spec_lookup(pre_nums, "tags"@),
                spec_lookup(entries@, "collections"@) == spec_lookup(pre_nums, "collections"@),
                spec_lookup(entries@, "relations"@) == spec_lookup(pre_nums, "relations"@),
                spec_lookup(entries@, "dateAdded"@) == spec_lookup(pre_nums, "dateAdded"@),
                spec_lookup(entries@, "dateModified"@) == spec_lookup(pre_nums, "dateModified"@),
                (match date_key_of(kind) {
                    Some(dk) => spec_lookup(entries@, dk) == spec_lookup(pre_nums, dk),
                    None => true,
                }),
                collect_str_fields(kind, entries@) == collect_str_fields(kind, pre_nums),
                collect_int_fields(kind, entries@) =~= collect_int_fields(kind, pre_nums)
                    + d.num_fields@.take(i2 as int),
            decreases nn - i2,
        {
            let pair = &d.num_fields[i2];
            let ghost p = entries@;
            let e = (pair.0.clone(), JsonValue::Int(pair.1));
            let ghost g = e;
            entries.push(e);
            proof {
                assert(!skipped_key(kind, d.num_fields@[i2 as int].0@));
                lemma_rec_push(kind, p, g);
                assert(int_contribution(kind, g) =~= seq![d.num_fields@[i2 as int]]);
                assert(collect_int_fields(kind, entries@) =~= collect_int_fields(kind, pre_nums)
                    + d.num_fields@.take(i2 + 1));
            }
            i2 += 1;
        }
        proof {
            assert(d.num_fields@.take(nn as int) =~= d.num_fields@);
        }
        let ghost p2 = entries@;
        let e = ("tags".to_owned(), crate::shared_fields::encode_tags(&d.tags));
        let ghost g = e;
        entries.push(e);
        proof {
            lemma_rec_push(kind, p2, g);
        }
        match &d.collections {
            Some(cs) => {
                let ghost p = entries@;
                let e = ("collections".to_owned(), crate::json::encode_string_array(cs));
                let ghost g = e;
                entries.push(e);
                proof {
                    lemma_rec_push(kind, p, g);
                }
            },
            None => {},
        }
        let ghost p3 = entries@;
        let e = ("relations".to_owned(), crate::collection::encode_relations(&d.relations));
        let ghost g = e;
        entries.push(e);
        proof {
            lemma_rec_push(kind, p3, g);
        }
        proof {
            if d.key@.len() == 0 {
                assert(d.key@ =~= Seq::<char>::empty());
            }
            if d.title@.len() == 0 {
                assert(d.title@ =~= Seq::<char>::empty());
            }
            if d.date@.len() == 0 {
                assert(d.date@ =~= Seq::<char>::empty());
            }
        }
        JsonValue::Obj(entries)
    }

    /// A fresh record of the given variant, every field at its default.
    pub fn fresh(kind: RecordKind) -> (r: RecordData)
        ensures
            wf_record(kind, r),
            r.key@ == Seq::<char>::empty(),
            r.version == 0,
            r.item_type@ == spec_tag_of(kind),
            r.title@ == title_default_of(kind),
            r.creators@.len() == 0,
            r.date@ == Seq::<char>::empty(),
            r.fields@.len() == 0,
            r.num_fields@.len() == 0,
            r.tags@.len() == 0,
            r.collections is None,
            r.relations@.len() == 0,
            r.date_added@ == Seq::<char>::empty(),
            r.date_modified@ == Seq::<char>::empty(),
    {
        RecordData {
            key: String::new(),
            version: 0,
            item_type: tag_of(kind).to_owned(),
            title: title_default(kind),
            creators: Vec::new(),
            date: String::new(),
            fields: Vec::new(),
            num_fields: Vec::new(),
            tags: Vec::new(),
            collections: None,
            relations: Vec::new(),
            date_added: String::new(),
            date_modified: String::new(),
        }
    }

    /// The record with its title replaced.
    pub fn with_title(self, title: &str) -> (r: RecordData)
        ensures
            r == (RecordData { title: r.title, ..self }),
            r.title@ == title@,
    {
        RecordData { title: title.to_owned(), ..self }
    }

    /// The record with its creators replaced.
    pub fn with_creators(self, creators: Vec<Creator>) -> (r: RecordData)
        ensures
            r == (RecordData { creators: r.creators, ..self }),
            r.creators == creators,
    {
        RecordData { creators, ..self }
    }

    /// The record with one more free-form field.
    pub fn with_field(self, name: &str, value: &str) -> (r: RecordData)
        ensures
            r == (RecordData { fields: r.fields, ..self }),
            r.fields@.len() == self.fields@.len() + 1,
            r.fields@.take(self.fields@.len() as int) == self.fields@,
            r.fields@.last().0@ == name@,
            r.fields@.last().1@ == value@,
    {
        let mut fields = self.fields;
        fields.push((name.to_owned(), value.to_owned()));
        proof {
            assert(fields@.take(self.fields@.len() as int) =~= self.fields@);
        }
        RecordData { fields, ..self }
    }

    /// The record with its key replaced — the way an update names the
    /// record it targets.
    pub fn with_key(self, key: &str) -> (r: RecordData)
        ensures
            r == (RecordData { key: r.key, ..self }),
            r.key@ == key@,
    {
        RecordData { key: key.to_owned(), ..self }
    }

    /// The record with its version replaced — the concurrency token an
    /// update must echo.
    pub fn with_version(self, version: u64) -> (r: RecordData)
        ensures
            r == (RecordData { version, ..self }),
    {
        RecordData { version, ..self }
    }

    /// The record with its date replaced.
    pub fn with_date(self, date: &str) -> (r: RecordData)
        ensures
            r == (RecordData { date: r.date, ..self }),
            r.date@ == date@,
    {
        RecordData { date: date.to_owned(), ..self }
    }

    /// The record with its tags replaced.
    pub fn with_tags(self, tags: Vec<Tag>) -> (r: RecordData)
        ensures
            r == (RecordData { tags: r.tags, ..self }),
            r.tags == tags,
    {
        RecordData { tags, ..self }
    }

    /// The record with its collection memberships replaced.
    pub fn with_collections(self, collections: Option<Vec<String>>) -> (r: RecordData)
        ensures
            r == (RecordData { collections: r.collections, ..self }),
            r.collections == collections,
    {
        RecordData { collections, ..self }
    }

    /// The record with its relations replaced.
    pub fn with_relations(self, relations: Vec<(String, String)>) -> (r: RecordData)
        ensures
            r == (RecordData { relations: r.relations, ..self }),
            r.relations == relations,
    {
        RecordData { relations, ..self }
    }
}

/// Discriminator completeness: every variant's schema tag selects that
/// variant and no other.
pub proof fn lemma_discriminator_complete(k: RecordKind)
    ensures
        kind_of_tag(spec_tag_of(k)) == Some(k),
{
    reveal_strlit("artwork");
    reveal_strlit("audioRecording");
    reveal_strlit("bill");
    reveal_strlit("blogPost");
    reveal_strlit("book");
    reveal_strlit("bookSection");
    reveal_strlit("case");
    reveal_strlit("computerProgram");
    reveal_strlit("conferencePaper");
    reveal_strlit("dictionaryEntry");
    reveal_strlit("document");
    reveal_strlit("email");
    reveal_strlit("encyclopediaArticle");
    reveal_strlit("film");
    reveal_strlit("forumPost");
    reveal_strlit("hearing");
    reveal_strlit("instantMessage");
    reveal_strlit("interview");
    reveal_strlit("journalArticle");
    reveal_strlit("letter");
    reveal_strlit("magazineArticle");
    reveal_strlit("manuscript");
    reveal_strlit("map");
    reveal_strlit("newspaperArticle");
    reveal_strlit("patent");
    reveal_strlit("podcast");
    reveal_strlit("presentation");
    reveal_strlit("radioBroadcast");
    reveal_strlit("report");
    reveal_strlit("statute");
    reveal_strlit("thesis");
    reveal_strlit("tvBroadcast");
    reveal_strlit("videoRecording");
    reveal_strlit("webpage");
    reveal_strlit("attachment");
    reveal_strlit("note");
    assert("artwork"@.len() == 7);
    assert("audioRecording"@.len() == 14);
    assert("bill"@.len() == 4);
    assert("blogPost"@.len() == 8);
    assert("book"@.len() == 4);
    assert("bookSection"@.len() == 11);
    assert("case"@.len() == 4);
    assert("computerProgram"@.len() == 15);
    assert("conferencePaper"@.len() == 15);
    assert("dictionaryEntry"@.len() == 15);
    assert("document"@.len() == 8);
    assert("email"@.len() == 5);
    assert("encyclopediaArticle"@.len() == 19);
    assert("film"@.len() == 4);
    assert("forumPost"@.len() == 9);
    assert("hearing"@.len() == 7);
    assert("instantMessage"@.len() == 14);
    assert("interview"@.len() == 9);
    assert("journalArticle"@.len() == 14);
    assert("letter"@.len() == 6);
    assert("magazineArticle"@.len() == 15);
    assert("manuscript"@.len() == 10);
    assert("map"@.len() == 3);
    assert("newspaperArticle"@.len() == 16);
    assert("patent"@.len() == 6);
    assert("podcast"@.len() == 7);
    assert("presentation"@.len() == 12);
    assert("radioBroadcast"@.len() == 14);
    assert("report"@.len() == 6);
    assert("statute"@.len() == 7);
    assert("thesis"@.len() == 6);
    assert("tvBroadcast"@.len() == 11);
    assert("videoRecording"@.len() == 14);
    assert("webpage"@.len() == 7);
    assert("attachment"@.len() == 10);
    assert("note"@.len() == 4);
    assert("artwork"@[0] != "hearing"@[0]);
    assert("artwork"@[0] != "podcast"@[0]);
    assert("artwork"@[0] != "statute"@[0]);
    assert("artwork"@[0] != "webpage"@[0]);
    assert("audioRecording"@[0] != "instantMessage"@[0]);
    assert("audioRecording"@[0] != "journalArticle"@[0]);
    assert("audioRecording"@[0] != "radioBroadcast"@[0]);
    assert("audioRecording"@[0] != "videoRecording"@[0]);
    assert("bill"@[1] != "book"@[1]);
    assert("bill"@[0] != "case"@[0]);
    assert("bill"@[0] != "film"@[0]);
    assert("bill"@[0] != "note"@[0]);
    assert("blogPost"@[0] != "document"@[0]);
    assert("book"@[0] != "case"@[0]);
    assert("book"@[0] != "film"@[0]);
    assert("book"@[0] != "note"@[0]);
    assert("bookSection"@[0] != "tvBroadcast"@[0]);
    assert("case"@[0] != "film"@[0]);
    assert("case"@[0] != "note"@[0]);
    assert("computerProgram"@[2] != "conferencePaper"@[2]);
    assert("computerProgram"@[0] != "dictionaryEntry"@[0]);
    assert("computerProgram"@[0] != "magazineArticle"@[0]);
    assert("conferencePaper"@[0] != "dictionaryEntry"@[0]);
    assert("conferencePaper"@[0] != "magazineArticle"@[0]);
    assert("dictionaryEntry"@[0] != "magazineArticle"@[0]);
    assert("film"@[0] != "note"@[0]);
    assert("forumPost"@[0] != "interview"@[0]);
    assert("hearing"@[0] != "podcast"@[0]);
    assert("hearing"@[0] != "statute"@[0]);
    assert("hearing"@[0] != "webpage"@[0]);
    assert("instantMessage"@[0] != "journalArticle"@[0]);
    assert("instantMessage"@[0] != "radioBroadcast"@[0]);
    assert("instantMessage"@[0] != "videoRecording"@[0]);
    assert("journalArticle"@[0] != "radioBroadcast"@[0]);
    assert("journalArticle"@[0] != "videoRecording"@[0]);
    assert("letter"@[0] != "patent"@[0]);
    assert("letter"@[0] != "report"@[0]);
    assert("letter"@[0] != "thesis"@[0]);
    assert("manuscript"@[0] != "attachment"@[0]);
    assert("patent"@[0] != "report"@[0]);
    assert("patent"@[0] != "thesis"@[0]);
    assert("podcast"@[0] != "statute"@[0]);
    assert("podcast"@[0] != "webpage"@[0]);
    assert("radioBroadcast"@[0] != "videoRecording"@[0]);
    assert("report"@[0] != "thesis"@[0]);
    assert("statute"@[0] != "webpage"@[0]);
    match k {
        RecordKind::Artwork => {
            assert(kind_of_tag("artwork"@) == Some(RecordKind::Artwork));
        },
        RecordKind::AudioRecording => {
            assert(kind_of_tag("audioRecording"@) == Some(RecordKind::AudioRecording));
        },
        RecordKind::Bill => {
            assert(kind_of_tag("bill"@) == Some(RecordKind::Bill));
        },
        RecordKind::BlogPost => {
            assert(kind_of_tag("blogPost"@) == Some(RecordKind::BlogPost));
        },
        RecordKind::Book => {
            assert(kind_of_tag("book"@) == Some(RecordKind::Book));
        },
        RecordKind::BookSection => {
            assert(kind_of_tag("bookSection"@) == Some(RecordKind::BookSection));
        },
        RecordKind::Case => {
            assert(kind_of_tag("case"@) == Some(RecordKind::Case));
        },
        RecordKind::ComputerProgram => {
            assert(kind_of_tag("computerProgram"@) == Some(RecordKind::ComputerProgram));
        },
        RecordKind::ConferencePaper => {
            assert(kind_of_tag("conferencePaper"@) == Some(RecordKind::ConferencePaper));
        },
        RecordKind::DictionaryEntry => {
            assert(kind_of_tag("dictionaryEntry"@) == Some(RecordKind::DictionaryEntry));
        },
        RecordKind::Document => {
            assert(kind_of_tag("document"@) == Some(RecordKind::Document));
        },
        RecordKind::Email => {
            assert(kind_of_tag("email"@) == Some(RecordKind::Email));
        },
        RecordKind::EncyclopediaArticle => {
            assert(kind_of_tag("encyclopediaArticle"@) == Some(RecordKind::EncyclopediaArticle));
        },
        RecordKind::Film => {
            assert(kind_of_tag("film"@) == Some(RecordKind::Film));
        },
        RecordKind::ForumPost => {
            assert(kind_of_tag("forumPost"@) == Some(RecordKind::ForumPost));
        },
        RecordKind::Hearing => {
            assert(kind_of_tag("hearing"@) == Some(RecordKind::Hearing));
        },
        RecordKind::InstantMessage => {
            assert(kind_of_tag("instantMessage"@) == Some(RecordKind::InstantMessage));
        },
        RecordKind::Interview => {
            assert(kind_of_tag("interview"@) == Some(RecordKind::Interview));
        },
        RecordKind::JournalArticle => {
            assert(kind_of_tag("journalArticle"@) == Some(RecordKind::JournalArticle));
        },
        RecordKind::Letter => {
            assert(kind_of_tag("letter"@) == Some(RecordKind::Letter));
        },
        RecordKind::MagazineArticle => {
            assert(kind_of_tag("magazineArticle"@) == Some(RecordKind::MagazineArticle));
        },
        RecordKind::Manuscript => {
            assert(kind_of_tag("manuscript"@) == Some(RecordKind::Manuscript));
        },
        RecordKind::MapItem => {
            assert(kind_of_tag("map"@) == Some(RecordKind::MapItem));
        },
        RecordKind::NewspaperArticle => {
            assert(kind_of_tag("newspaperArticle"@) == Some(RecordKind::NewspaperArticle));
        },
        RecordKind::Patent => {
            assert(kind_of_tag("patent"@) == Some(RecordKind::Patent));
        },
        RecordKind::Podcast => {
            assert(kind_of_tag("podcast"@) == Some(RecordKind::Podcast));
        },
        RecordKind::Presentation => {
            assert(kind_of_tag("presentation"@) == Some(RecordKind::Presentation));
        },
        RecordKind::RadioBroadcast => {
            assert(kind_of_tag("radioBroadcast"@) == Some(RecordKind::RadioBroadcast));
        },
        RecordKind::Report => {
            assert(kind_of_tag("report"@) == Some(RecordKind::Report));
        },
        RecordKind::Statute => {
            assert(kind_of_tag("statute"@) == Some(RecordKind::Statute));
        },
        RecordKind::Thesis => {
            assert(kind_of_tag("thesis"@) == Some(RecordKind::Thesis));
        },
        RecordKind::TvBroadcast => {
            assert(kind_of_tag("tvBroadcast"@) == Some(RecordKind::TvBroadcast));
        },
        RecordKind::VideoRecording => {
            assert(kind_of_tag("videoRecording"@) == Some(RecordKind::VideoRecording));
        },
        RecordKind::Webpage => {
            assert(kind_of_tag("webpage"@) == Some(RecordKind::Webpage));
        },
        RecordKind::Attachment => {
            assert(kind_of_tag("attachment"@) == Some(RecordKind::Attachment));
        },
        RecordKind::Note => {
            assert(kind_of_tag("note"@) == Some(RecordKind::Note));
        },
    }
}

/// The views of a list of creators.
pub open spec fn creator_views(cs: Seq<Creator>) -> Seq<(Seq<char>, Seq<char>, Seq<char>)> {
    cs.map(|i: int, c: Creator| (c.creator_type@, c.first_name@, c.last_name@))
}

/// The views of a relations list.
pub open spec fn relation_views(rel: Seq<(String, String)>) -> Seq<(Seq<char>, Seq<char>)> {
    rel.map(|i: int, p: (String, String)| (p.0@, p.1@))
}

/// Round trip: decoding an encoded well-formed record gives every
/// client-owned field back.  Only the server-owned timestamps, which
/// never travel, come back empty, and the version of a record created
/// without a key, which is omitted on create, comes back as zero.
pub proof fn lemma_record_round_trip(kind: RecordKind, d: RecordData, v: JsonValue, d2: RecordData)
    requires
        wf_record(kind, d),
        encodes_record(kind, d, v),
        is_record_of(kind, d2, v),
    ensures
        d2.key@ == d.key@,
        d.key@.len() > 0 ==> d2.version == d.version,
        d.key@.len() == 0 ==> d2.version == 0,
        d2.item_type@ == d.item_type@,
        d2.title@ == d.title@,
        creator_views(d2.creators@) == creator_views(d.creators@),
        d2.date@ == d.date@,
        d2.fields@ == d.fields@,
        d2.num_fields@ == d.num_fields@,
        crate::shared_fields::tag_texts(d2.tags@) == crate::shared_fields::tag_texts(d.tags@),
        (match d.collections {
            None => d2.collections is None,
            Some(cs) => d2.collections matches Some(cs2) && crate::client::string_views(cs2@)
                == crate::client::string_views(cs@),
        }),
        relation_views(d2.relations@) == relation_views(d.relations@),
        d2.date_added@.len() == 0,
        d2.date_modified@.len() == 0,
        wf_record(kind, d2),
{
    if kind != RecordKind::Note {
        if spec_get(v, "title"@) is None {
            assert(d.title@ =~= Seq::<char>::empty());
        }
    }
    if date_key_of(kind) is None {
        assert(d.date@ =~= Seq::<char>::empty());
    }
    if d.creators@.len() == 0 {
        assert(creator_views(d2.creators@) =~= creator_views(d.creators@));
    } else {
        let x = spec_get(v, "creators"@)->Some_0;
        assert(is_creators_of(d.creators@, x));
        assert(is_creators_of(d2.creators@, x));
        assert forall|j: int| 0 <= j < d.creators@.len() implies #[trigger] creator_views(
            d2.creators@,
        )[j] == creator_views(d.creators@)[j] by {
            assert(crate::shared_fields::is_creator_of(d.creators@[j], x->Arr_0@[j]));
            assert(crate::shared_fields::is_creator_of(d2.creators@[j], x->Arr_0@[j]));
        }
        assert(creator_views(d2.creators@) =~= creator_views(d.creators@));
    }
    let tx = spec_get(v, "tags"@)->Some_0;
    assert(is_tags_of(d.tags@, tx));
    assert(is_tags_of(d2.tags@, tx));
    assert forall|j: int| 0 <= j < d.tags@.len() implies #[trigger] crate::shared_fields::tag_texts(
        d2.tags@,
    )[j] == crate::shared_fields::tag_texts(d.tags@)[j] by {
        assert(crate::shared_fields::is_tag_of(d.tags@[j], tx->Arr_0@[j]));
        assert(crate::shared_fields::is_tag_of(d2.tags@[j], tx->Arr_0@[j]));
    }
    assert(crate::shared_fields::tag_texts(d2.tags@) =~= crate::shared_fields::tag_texts(d.tags@));
    match d.collections {
        None => {},
        Some(cs) => {
            let x = spec_get(v, "collections"@)->Some_0;
            assert(is_str_arr_of(cs@, x));
            assert(!(x is Null));
            let cs2 = d2.collections->Some_0;
            assert(is_str_arr_of(cs2@, x));
            assert forall|j: int| 0 <= j < cs@.len() implies #[trigger] crate::client::string_views(
                cs2@,
            )[j] == crate::client::string_views(cs@)[j] by {
                assert(cs@[j]@ == x->Arr_0@[j]->Str_0@);
                assert(cs2@[j]@ == x->Arr_0@[j]->Str_0@);
            }
            assert(crate::client::string_views(cs2@) =~= crate::client::string_views(cs@));
        },
    }
    let rx = spec_get(v, "relations"@)->Some_0;
    assert(is_relations_of(d.relations@, rx));
    assert(is_relations_of(d2.relations@, rx));
    assert forall|j: int| 0 <= j < d.relations@.len() implies #[trigger] relation_views(
        d2.relations@,
    )[j] == relation_views(d.relations@)[j] by {
        assert(d.relations@[j].0@ == rx->Obj_0@[j].0@);
        assert(d2.relations@[j].0@ == rx->Obj_0@[j].0@);
        assert(d.relations@[j].1@ == rx->Obj_0@[j].1->Str_0@);
        assert(d2.relations@[j].1@ == rx->Obj_0@[j].1->Str_0@);
    }
    assert(relation_views(d2.relations@) =~= relation_views(d.relations@));
}


} // verus!
