//! The polymorphic record envelope's payload: the tagged union over the
//! variant catalog.
//!
//! Every variant wraps the shared [`RecordData`] layout; the enum variant
//! itself is the authoritative discriminator.  Decoding dispatches on the
//! `itemType` member: a recognized tag selects exactly one variant, an
//! unrecognized tag is an `UnknownVariant` failure, never a silent
//! default.

use vstd::prelude::*;
use vstd::string::StringExecFns;

use crate::client::join_with;
use crate::client::string_views;
use crate::error::ZoteroApiError;
use crate::json::spec_get;
use crate::json::JsonValue;
use crate::record::date_key_of;
use crate::record::date_key_of_kind;
use crate::record::encodes_record;
use crate::record::is_record_of;
use crate::record::kind_for_tag;
use crate::record::kind_of_tag;
use crate::record::lemma_discriminator_complete;
use crate::record::lemma_record_round_trip;
use crate::record::record_shape_ok;
use crate::record::spec_tag_of;
use crate::record::RecordData;
use crate::record::RecordKind;
use crate::shared_fields::full_name_spec;
use crate::shared_fields::shape_error;
use crate::shared_fields::tag_texts;
use crate::shared_fields::ItemCommon;
use crate::shared_fields::Tag;

verus! {

/// The payload of a Artwork record.
#[derive(Debug, Clone, PartialEq)]
pub struct ArtworkData {
    pub record: RecordData,
}

/// The payload of a AudioRecording record.
#[derive(Debug, Clone, PartialEq)]
pub struct AudioRecordingData {
    pub record: RecordData,
}

/// The payload of a Bill record.
#[derive(Debug, Clone, PartialEq)]
pub struct BillData {
    pub record: RecordData,
}

/// The payload of a BlogPost record.
#[derive(Debug, Clone, PartialEq)]
pub struct BlogPostData {
    pub record: RecordData,
}

/// The payload of a Book record.
#[derive(Debug, Clone, PartialEq)]
pub struct BookData {
    pub record: RecordData,
}

/// The payload of a BookSection record.
#[derive(Debug, Clone, PartialEq)]
pub struct BookSectionData {
    pub record: RecordData,
}

/// The payload of a Case record.
#[derive(Debug, Clone, PartialEq)]
pub struct CaseData {
    pub record: RecordData,
}

/// The payload of a ComputerProgram record.
#[derive(Debug, Clone, PartialEq)]
pub struct ComputerProgramData {
    pub record: RecordData,
}

/// The payload of a ConferencePaper record.
#[derive(Debug, Clone, PartialEq)]
pub struct ConferencePaperData {
    pub record: RecordData,
}

/// The payload of a DictionaryEntry record.
#[derive(Debug, Clone, PartialEq)]
pub struct DictionaryEntryData {
    pub record: RecordData,
}

/// The payload of a Document record.
#[derive(Debug, Clone, PartialEq)]
pub struct DocumentData {
    pub record: RecordData,
}

/// The payload of a Email record.
#[derive(Debug, Clone, PartialEq)]
pub struct EmailData {
    pub record: RecordData,
}

/// The payload of a EncyclopediaArticle record.
#[derive(Debug, Clone, PartialEq)]
pub struct EncyclopediaArticleData {
    pub record: RecordData,
}

/// The payload of a Film record.
#[derive(Debug, Clone, PartialEq)]
pub struct FilmData {
    pub record: RecordData,
}

/// The payload of a ForumPost record.
#[derive(Debug, Clone, PartialEq)]
pub struct ForumPostData {
    pub record: RecordData,
}

/// The payload of a Hearing record.
#[derive(Debug, Clone, PartialEq)]
pub struct HearingData {
    pub record: RecordData,
}

/// The payload of a InstantMessage record.
#[derive(Debug, Clone, PartialEq)]
pub struct InstantMessageData {
    pub record: RecordData,
}

/// The payload of a Interview record.
#[derive(Debug, Clone, PartialEq)]
pub struct InterviewData {
    pub record: RecordData,
}

/// The payload of a JournalArticle record.
#[derive(Debug, Clone, PartialEq)]
pub struct JournalArticleData {
    pub record: RecordData,
}

/// The payload of a Letter record.
#[derive(Debug, Clone, PartialEq)]
pub struct LetterData {
    pub record: RecordData,
}

/// The payload of a MagazineArticle record.
#[derive(Debug, Clone, PartialEq)]
pub struct MagazineArticleData {
    pub record: RecordData,
}

/// The payload of a Manuscript record.
#[derive(Debug, Clone, PartialEq)]
pub struct ManuscriptData {
    pub record: RecordData,
}

/// The payload of a MapItem record.
#[derive(Debug, Clone, PartialEq)]
pub struct MapData {
    pub record: RecordData,
}

/// The payload of a NewspaperArticle record.
#[derive(Debug, Clone, PartialEq)]
pub struct NewspaperArticleData {
    pub record: RecordData,
}

/// The payload of a Patent record.
#[derive(Debug, Clone, PartialEq)]
pub struct PatentData {
    pub record: RecordData,
}

/// The payload of a Podcast record.
#[derive(Debug, Clone, PartialEq)]
pub struct PodcastData {
    pub record: RecordData,
}

/// The payload of a Presentation record.
#[derive(Debug, Clone, PartialEq)]
pub struct PresentationData {
    pub record: RecordData,
}

/// The payload of a RadioBroadcast record.
#[derive(Debug, Clone, PartialEq)]
pub struct RadioBroadcastData {
    pub record: RecordData,
}

/// The payload of a Report record.
#[derive(Debug, Clone, PartialEq)]
pub struct ReportData {
    pub record: RecordData,
}

/// The payload of a Statute record.
#[derive(Debug, Clone, PartialEq)]
pub struct StatuteData {
    pub record: RecordData,
}

/// The payload of a Thesis record.
#[derive(Debug, Clone, PartialEq)]
pub struct ThesisData {
    pub record: RecordData,
}

/// The payload of a TvBroadcast record.
#[derive(Debug, Clone, PartialEq)]
pub struct TvBroadcastData {
    pub record: RecordData,
}

/// The payload of a VideoRecording record.
#[derive(Debug, Clone, PartialEq)]
pub struct VideoRecordingData {
    pub record: RecordData,
}

/// The payload of a Webpage record.
#[derive(Debug, Clone, PartialEq)]
pub struct WebpageData {
    pub record: RecordData,
}

/// The payload of a Attachment record.
#[derive(Debug, Clone, PartialEq)]
pub struct AttachmentData {
    pub record: RecordData,
}

/// The payload of a Note record.
#[derive(Debug, Clone, PartialEq)]
pub struct NoteData {
    pub record: RecordData,
}

/// One record of the catalog, discriminated by its schema tag.
#[derive(Debug, Clone, PartialEq)]
pub enum ItemType {
    Artwork(ArtworkData),
    AudioRecording(AudioRecordingData),
    Bill(BillData),
    BlogPost(BlogPostData),
    Book(BookData),
    BookSection(BookSectionData),
    Case(CaseData),
    ComputerProgram(ComputerProgramData),
    ConferencePaper(ConferencePaperData),
    DictionaryEntry(DictionaryEntryData),
    Document(DocumentData),
    Email(EmailData),
    EncyclopediaArticle(EncyclopediaArticleData),
    Film(FilmData),
    ForumPost(ForumPostData),
    Hearing(HearingData),
    InstantMessage(InstantMessageData),
    Interview(InterviewData),
    JournalArticle(JournalArticleData),
    Letter(LetterData),
    MagazineArticle(MagazineArticleData),
    Manuscript(ManuscriptData),
    MapItem(MapData),
    NewspaperArticle(NewspaperArticleData),
    Patent(PatentData),
    Podcast(PodcastData),
    Presentation(PresentationData),
    RadioBroadcast(RadioBroadcastData),
    Report(ReportData),
    Statute(StatuteData),
    Thesis(ThesisData),
    TvBroadcast(TvBroadcastData),
    VideoRecording(VideoRecordingData),
    Webpage(WebpageData),
    Attachment(AttachmentData),
    Note(NoteData),
}

/// Whether an object carries a recognized discriminator and decodes as
/// that variant.
pub open spec fn item_type_shape_ok(v: JsonValue) -> bool {
    match spec_get(v, "itemType"@) {
        Some(JsonValue::Str(t)) => match kind_of_tag(t@) {
            Some(k) => record_shape_ok(k, v),
            None => false,
        },
        _ => false,
    }
}

/// Whether an object carries a discriminator that names no variant.
pub open spec fn unknown_tag(v: JsonValue) -> bool {
    match spec_get(v, "itemType"@) {
        Some(JsonValue::Str(t)) => kind_of_tag(t@) is None,
        _ => false,
    }
}

/// Whether `it` is the decoding of the record object `v`.
pub open spec fn is_item_type_of(it: ItemType, v: JsonValue) -> bool {
    match spec_get(v, "itemType"@) {
        Some(JsonValue::Str(t)) => match kind_of_tag(t@) {
            Some(k) => it.kind_spec() == k && is_record_of(k, it.record_spec(), v),
            None => false,
        },
        _ => false,
    }
}

/// The full names of a list of creators.
pub open spec fn full_name_views(cs: Seq<crate::shared_fields::Creator>) -> Seq<Seq<char>> {
    cs.map(|i: int, c: crate::shared_fields::Creator| full_name_spec(c))
}

impl ItemType {
    /// The variant this record belongs to.
    pub open spec fn kind_spec(self) -> RecordKind {
        match self {
            ItemType::Artwork(_) => RecordKind::Artwork,
            ItemType::AudioRecording(_) => RecordKind::AudioRecording,
            ItemType::Bill(_) => RecordKind::Bill,
            ItemType::BlogPost(_) => RecordKind::BlogPost,
            ItemType::Book(_) => RecordKind::Book,
            ItemType::BookSection(_) => RecordKind::BookSection,
            ItemType::Case(_) => RecordKind::Case,
            ItemType::ComputerProgram(_) => RecordKind::ComputerProgram,
            ItemType::ConferencePaper(_) => RecordKind::ConferencePaper,
            ItemType::DictionaryEntry(_) => RecordKind::DictionaryEntry,
            ItemType::Document(_) => RecordKind::Document,
            ItemType::Email(_) => RecordKind::Email,
            ItemType::EncyclopediaArticle(_) => RecordKind::EncyclopediaArticle,
            ItemType::Film(_) => RecordKind::Film,
            ItemType::ForumPost(_) => RecordKind::ForumPost,
            ItemType::Hearing(_) => RecordKind::Hearing,
            ItemType::InstantMessage(_) => RecordKind::InstantMessage,
            ItemType::Interview(_) => RecordKind::Interview,
            ItemType::JournalArticle(_) => RecordKind::JournalArticle,
            ItemType::Letter(_) => RecordKind::Letter,
            ItemType::MagazineArticle(_) => RecordKind::MagazineArticle,
            ItemType::Manuscript(_) => RecordKind::Manuscript,
            ItemType::MapItem(_) => RecordKind::MapItem,
            ItemType::NewspaperArticle(_) => RecordKind::NewspaperArticle,
            ItemType::Patent(_) => RecordKind::Patent,
            ItemType::Podcast(_) => RecordKind::Podcast,
            ItemType::Presentation(_) => RecordKind::Presentation,
            ItemType::RadioBroadcast(_) => RecordKind::RadioBroadcast,
            ItemType::Report(_) => RecordKind::Report,
            ItemType::Statute(_) => RecordKind::Statute,
            ItemType::Thesis(_) => RecordKind::Thesis,
            ItemType::TvBroadcast(_) => RecordKind::TvBroadcast,
            ItemType::VideoRecording(_) => RecordKind::VideoRecording,
            ItemType::Webpage(_) => RecordKind::Webpage,
            ItemType::Attachment(_) => RecordKind::Attachment,
            ItemType::Note(_) => RecordKind::Note,
        }
    }

    /// The payload of the record.
    pub open spec fn record_spec(self) -> RecordData {
        match self {
            ItemType::Artwork(d) => d.record,
            ItemType::AudioRecording(d) => d.record,
            ItemType::Bill(d) => d.record,
            ItemType::BlogPost(d) => d.record,
            ItemType::Book(d) => d.record,
            ItemType::BookSection(d) => d.record,
            ItemType::Case(d) => d.record,
            ItemType::ComputerProgram(d) => d.record,
            ItemType::ConferencePaper(d) => d.record,
            ItemType::DictionaryEntry(d) => d.record,
            ItemType::Document(d) => d.record,
            ItemType::Email(d) => d.record,
            ItemType::EncyclopediaArticle(d) => d.record,
            ItemType::Film(d) => d.record,
            ItemType::ForumPost(d) => d.record,
            ItemType::Hearing(d) => d.record,
            ItemType::InstantMessage(d) => d.record,
            ItemType::Interview(d) => d.record,
            ItemType::JournalArticle(d) => d.record,
            ItemType::Letter(d) => d.record,
            ItemType::MagazineArticle(d) => d.record,
            ItemType::Manuscript(d) => d.record,
            ItemType::MapItem(d) => d.record,
            ItemType::NewspaperArticle(d) => d.record,
            ItemType::Patent(d) => d.record,
            ItemType::Podcast(d) => d.record,
            ItemType::Presentation(d) => d.record,
            ItemType::RadioBroadcast(d) => d.record,
            ItemType::Report(d) => d.record,
            ItemType::Statute(d) => d.record,
            ItemType::Thesis(d) => d.record,
            ItemType::TvBroadcast(d) => d.record,
            ItemType::VideoRecording(d) => d.record,
            ItemType::Webpage(d) => d.record,
            ItemType::Attachment(d) => d.record,
            ItemType::Note(d) => d.record,
        }
    }

    /// A well-formed record: its payload is well-formed for its variant.
    pub open spec fn wf(self) -> bool {
        crate::record::wf_record(self.kind_spec(), self.record_spec())
    }

    /// The variant this record belongs to.
    pub fn kind(&self) -> (r: RecordKind)
        ensures
            r == self.kind_spec(),
    {
        match self {
            ItemType::Artwork(_) => RecordKind::Artwork,
            ItemType::AudioRecording(_) => RecordKind::AudioRecording,
            ItemType::Bill(_) => RecordKind::Bill,
            ItemType::BlogPost(_) => RecordKind::BlogPost,
            ItemType::Book(_) => RecordKind::Book,
            ItemType::BookSection(_) => RecordKind::BookSection,
            ItemType::Case(_) => RecordKind::Case,
            ItemType::ComputerProgram(_) => RecordKind::ComputerProgram,
            ItemType::ConferencePaper(_) => RecordKind::ConferencePaper,
            ItemType::DictionaryEntry(_) => RecordKind::DictionaryEntry,
            ItemType::Document(_) => RecordKind::Document,
            ItemType::Email(_) => RecordKind::Email,
            ItemType::EncyclopediaArticle(_) => RecordKind::EncyclopediaArticle,
            ItemType::Film(_) => RecordKind::Film,
            ItemType::ForumPost(_) => RecordKind::ForumPost,
            ItemType::Hearing(_) => RecordKind::Hearing,
            ItemType::InstantMessage(_) => RecordKind::InstantMessage,
            ItemType::Interview(_) => RecordKind::Interview,
            ItemType::JournalArticle(_) => RecordKind::JournalArticle,
            ItemType::Letter(_) => RecordKind::Letter,
            ItemType::MagazineArticle(_) => RecordKind::MagazineArticle,
            ItemType::Manuscript(_) => RecordKind::Manuscript,
            ItemType::MapItem(_) => RecordKind::MapItem,
            ItemType::NewspaperArticle(_) => RecordKind::NewspaperArticle,
            ItemType::Patent(_) => RecordKind::Patent,
            ItemType::Podcast(_) => RecordKind::Podcast,
            ItemType::Presentation(_) => RecordKind::Presentation,
            ItemType::RadioBroadcast(_) => RecordKind::RadioBroadcast,
            ItemType::Report(_) => RecordKind::Report,
            ItemType::Statute(_) => RecordKind::Statute,
            ItemType::Thesis(_) => RecordKind::Thesis,
            ItemType::TvBroadcast(_) => RecordKind::TvBroadcast,
            ItemType::VideoRecording(_) => RecordKind::VideoRecording,
            ItemType::Webpage(_) => RecordKind::Webpage,
            ItemType::Attachment(_) => RecordKind::Attachment,
            ItemType::Note(_) => RecordKind::Note,
        }
    }

    /// The payload of the record.
    pub fn record(&self) -> (r: &RecordData)
        ensures
            *r == self.record_spec(),
    {
        match self {
            ItemType::Artwork(d) => &d.record,
            ItemType::AudioRecording(d) => &d.record,
            ItemType::Bill(d) => &d.record,
            ItemType::BlogPost(d) => &d.record,
            ItemType::Book(d) => &d.record,
            ItemType::BookSection(d) => &d.record,
            ItemType::Case(d) => &d.record,
            ItemType::ComputerProgram(d) => &d.record,
            ItemType::ConferencePaper(d) => &d.record,
            ItemType::DictionaryEntry(d) => &d.record,
            ItemType::Document(d) => &d.record,
            ItemType::Email(d) => &d.record,
            ItemType::EncyclopediaArticle(d) => &d.record,
            ItemType::Film(d) => &d.record,
            ItemType::ForumPost(d) => &d.record,
            ItemType::Hearing(d) => &d.record,
            ItemType::InstantMessage(d) => &d.record,
            ItemType::Interview(d) => &d.record,
            ItemType::JournalArticle(d) => &d.record,
            ItemType::Letter(d) => &d.record,
            ItemType::MagazineArticle(d) => &d.record,
            ItemType::Manuscript(d) => &d.record,
            ItemType::MapItem(d) => &d.record,
            ItemType::NewspaperArticle(d) => &d.record,
            ItemType::Patent(d) => &d.record,
            ItemType::Podcast(d) => &d.record,
            ItemType::Presentation(d) => &d.record,
            ItemType::RadioBroadcast(d) => &d.record,
            ItemType::Report(d) => &d.record,
            ItemType::Statute(d) => &d.record,
            ItemType::Thesis(d) => &d.record,
            ItemType::TvBroadcast(d) => &d.record,
            ItemType::VideoRecording(d) => &d.record,
            ItemType::Webpage(d) => &d.record,
            ItemType::Attachment(d) => &d.record,
            ItemType::Note(d) => &d.record,
        }
    }

    /// Wraps a payload in the given variant.
    pub fn from_record(kind: RecordKind, record: RecordData) -> (r: ItemType)
        ensures
            r.kind_spec() == kind,
            r.record_spec() == record,
    {
        match kind {
            RecordKind::Artwork => ItemType::Artwork(ArtworkData { record }),
            RecordKind::AudioRecording => ItemType::AudioRecording(AudioRecordingData { record }),
            RecordKind::Bill => ItemType::Bill(BillData { record }),
            RecordKind::BlogPost => ItemType::BlogPost(BlogPostData { record }),
            RecordKind::Book => ItemType::Book(BookData { record }),
            RecordKind::BookSection => ItemType::BookSection(BookSectionData { record }),
            RecordKind::Case => ItemType::Case(CaseData { record }),
            RecordKind::ComputerProgram => ItemType::ComputerProgram(ComputerProgramData { record }),
            RecordKind::ConferencePaper => ItemType::ConferencePaper(ConferencePaperData { record }),
            RecordKind::DictionaryEntry => ItemType::DictionaryEntry(DictionaryEntryData { record }),
            RecordKind::Document => ItemType::Document(DocumentData { record }),
            RecordKind::Email => ItemType::Email(EmailData { record }),
            RecordKind::EncyclopediaArticle => ItemType::EncyclopediaArticle(EncyclopediaArticleData { record }),
            RecordKind::Film => ItemType::Film(FilmData { record }),
            RecordKind::ForumPost => ItemType::ForumPost(ForumPostData { record }),
            RecordKind::Hearing => ItemType::Hearing(HearingData { record }),
            RecordKind::InstantMessage => ItemType::InstantMessage(InstantMessageData { record }),
            RecordKind::Interview => ItemType::Interview(InterviewData { record }),
            RecordKind::JournalArticle => ItemType::JournalArticle(JournalArticleData { record }),
            RecordKind::Letter => ItemType::Letter(LetterData { record }),
            RecordKind::MagazineArticle => ItemType::MagazineArticle(MagazineArticleData { record }),
            RecordKind::Manuscript => ItemType::Manuscript(ManuscriptData { record }),
            RecordKind::MapItem => ItemType::MapItem(MapData { record }),
            RecordKind::NewspaperArticle => ItemType::NewspaperArticle(NewspaperArticleData { record }),
            RecordKind::Patent => ItemType::Patent(PatentData { record }),
            RecordKind::Podcast => ItemType::Podcast(PodcastData { record }),
            RecordKind::Presentation => ItemType::Presentation(PresentationData { record }),
            RecordKind::RadioBroadcast => ItemType::RadioBroadcast(RadioBroadcastData { record }),
            RecordKind::Report => ItemType::Report(ReportData { record }),
            RecordKind::Statute => ItemType::Statute(StatuteData { record }),
            RecordKind::Thesis => ItemType::Thesis(ThesisData { record }),
            RecordKind::TvBroadcast => ItemType::TvBroadcast(TvBroadcastData { record }),
            RecordKind::VideoRecording => ItemType::VideoRecording(VideoRecordingData { record }),
            RecordKind::Webpage => ItemType::Webpage(WebpageData { record }),
            RecordKind::Attachment => ItemType::Attachment(AttachmentData { record }),
            RecordKind::Note => ItemType::Note(NoteData { record }),
        }
    }

    /// Decodes a record object: the `itemType` member selects the
    /// variant; an unrecognized tag is an `UnknownVariant` failure.
    pub fn decode(v: &JsonValue) -> (r: Result<ItemType, ZoteroApiError>)
        ensures
            r is Ok <==> item_type_shape_ok(*v),
            r matches Ok(it) ==> is_item_type_of(it, *v),
            r matches Err(e) ==> if unknown_tag(*v) {
                e is UnknownVariant
            } else {
                e is ParseResponseError
            },
    {
        let tag = match v.get("itemType") {
            Some(JsonValue::Str(s)) => s,
            _ => {
                return Err(shape_error());
            },
        };
        let kind = match kind_for_tag(tag.as_str()) {
            Some(k) => k,
            None => {
                return Err(ZoteroApiError::UnknownVariant(tag.clone()));
            },
        };
        let record = match RecordData::decode_for(kind, v) {
            Ok(d) => d,
            Err(e) => {
                return Err(e);
            },
        };
        Ok(Self::from_record(kind, record))
    }

    /// Encodes the record for a create or update call.
    pub fn to_json(&self) -> (r: JsonValue)
        requires
            self.wf(),
        ensures
            encodes_record(self.kind_spec(), self.record_spec(), r),
            item_type_shape_ok(r),
    {
        let kind = self.kind();
        let r = RecordData::encode_for(kind, self.record());
        proof {
            lemma_discriminator_complete(kind);
        }
        r
    }

    /// The display form of the record's creators: full names joined with
    /// a comma.  An attachment has no creators of its own; a note's
    /// author is its owner.
    pub open spec fn author_spec(self) -> Seq<char> {
        if self.kind_spec() == RecordKind::Attachment {
            Seq::<char>::empty()
        } else if self.kind_spec() == RecordKind::Note {
            "You"@
        } else {
            join_with(full_name_views(self.record_spec().creators@), ", "@)
        }
    }

    /// The display form of the record's creators.
    pub fn author(&self) -> (r: String)
        ensures
            r@ == self.author_spec(),
    {
        let kind = self.kind();
        match kind {
            RecordKind::Attachment => String::new(),
            RecordKind::Note => "You".to_owned(),
            _ => {
                let record = self.record();
                let n = record.creators.len();
                let mut names: Vec<String> = Vec::new();
                let mut i: usize = 0;
                #[verifier::loop_isolation(false)]
                while i < n
                    invariant
                        i <= n,
                        n == record.creators.len(),
                        names@.len() == i,
                        string_views(names@) =~= full_name_views(record.creators@).take(i as int),
                    decreases n - i,
                {
                    names.push(record.creators[i].full_name());
                    proof {
                        assert(string_views(names@) =~= full_name_views(record.creators@).take(
                            i + 1,
                        ));
                    }
                    i += 1;
                }
                proof {
                    assert(full_name_views(record.creators@).take(n as int) =~= full_name_views(
                        record.creators@,
                    ));
                }
                crate::client::join_strings(&names, ", ")
            },
        }
    }

    /// The raw text of the record's date: the variant's own date member,
    /// or the server's `dateAdded` timestamp for variants without one.
    pub open spec fn date_value_spec(self) -> Seq<char> {
        if date_key_of(self.kind_spec()) is Some {
            self.record_spec().date@
        } else {
            self.record_spec().date_added@
        }
    }

    /// The raw text of the record's date.
    pub fn date_value(&self) -> (r: &String)
        ensures
            r@ == self.date_value_spec(),
    {
        match date_key_of_kind(self.kind()) {
            Some(_) => &self.record().date,
            None => &self.record().date_added,
        }
    }
}

impl ItemCommon for RecordData {
    open spec fn title_spec(&self) -> Seq<char> {
        self.title@
    }

    open spec fn common_key_spec(&self) -> Seq<char> {
        self.key@
    }

    open spec fn tags_spec(&self) -> Seq<Seq<char>> {
        tag_texts(self.tags@)
    }

    fn title(&self) -> (r: &str) {
        self.title.as_str()
    }

    fn key(&self) -> (r: &str) {
        self.key.as_str()
    }

    fn tags(&self) -> (r: &Vec<Tag>) {
        &self.tags
    }
}

impl ItemCommon for ItemType {
    open spec fn title_spec(&self) -> Seq<char> {
        self.record_spec().title@
    }

    open spec fn common_key_spec(&self) -> Seq<char> {
        self.record_spec().key@
    }

    open spec fn tags_spec(&self) -> Seq<Seq<char>> {
        tag_texts(self.record_spec().tags@)
    }

    fn title(&self) -> (r: &str) {
        self.record().title.as_str()
    }

    fn key(&self) -> (r: &str) {
        self.record().key.as_str()
    }

    fn tags(&self) -> (r: &Vec<Tag>) {
        &self.record().tags
    }
}

/// Round trip at the union level: decoding an encoded well-formed record
/// selects the same variant and gives every client-owned field back.
pub proof fn lemma_item_round_trip(it: ItemType, v: JsonValue, it2: ItemType)
    requires
        it.wf(),
        encodes_record(it.kind_spec(), it.record_spec(), v),
        is_item_type_of(it2, v),
    ensures
        it2.kind_spec() == it.kind_spec(),
        it2.record_spec().key@ == it.record_spec().key@,
        it.record_spec().key@.len() > 0 ==> it2.record_spec().version == it.record_spec().version,
        it.record_spec().key@.len() == 0 ==> it2.record_spec().version == 0,
        it2.record_spec().item_type@ == it.record_spec().item_type@,
        it2.record_spec().title@ == it.record_spec().title@,
        crate::record::creator_views(it2.record_spec().creators@) == crate::record::creator_views(
            it.record_spec().creators@,
        ),
        it2.record_spec().date@ == it.record_spec().date@,
        it2.record_spec().fields@ == it.record_spec().fields@,
        it2.record_spec().num_fields@ == it.record_spec().num_fields@,
        tag_texts(it2.record_spec().tags@) == tag_texts(it.record_spec().tags@),
        crate::record::relation_views(it2.record_spec().relations@)
            == crate::record::relation_views(it.record_spec().relations@),
        it2.record_spec().date_added@.len() == 0,
        it2.record_spec().date_modified@.len() == 0,
{
    lemma_discriminator_complete(it.kind_spec());
    lemma_record_round_trip(it.kind_spec(), it.record_spec(), v, it2.record_spec());
}

} // verus!
