//! Records: the shared layout, round trips, titles, authors and tags.

use zotero::item::Item;
use zotero::json::JsonValue;
use zotero::record::RecordData;
use zotero::record::RecordKind;
use zotero::shared_fields::Creator;
use zotero::shared_fields::ItemCommon;
use zotero::shared_fields::Tag;
use zotero::variants::ItemType;
use zotero::variants::NoteData;
use zotero::variants::PatentData;

fn sample_record(kind: RecordKind) -> RecordData {
    let creators = vec![
        Creator {
            creator_type: "author".to_string(),
            first_name: "John".to_string(),
            last_name: "Doe".to_string(),
        },
        Creator {
            creator_type: "editor".to_string(),
            first_name: "Jane".to_string(),
            last_name: "Roe".to_string(),
        },
    ];
    RecordData::fresh(kind)
        .with_title("A sample")
        .with_creators(creators)
        .with_field("abstractNote", "Lorem ipsum")
        .with_field("language", "en")
        .with_key("4X5CQGQA")
        .with_version(2444)
        .with_date("2020-05-01")
        .with_tags(vec![Tag { tag: "history".to_string() }, Tag { tag: "art".to_string() }])
        .with_collections(Some(vec!["TYPDZEZF".to_string()]))
        .with_relations(vec![(
            "owl:sameAs".to_string(),
            "http://zotero.org/groups/1/items/Q8GNE36F".to_string(),
        )])
}

#[test]
fn record_round_trip_restores_client_fields() {
    let d = sample_record(RecordKind::Book);
    let wire = RecordData::encode_for(RecordKind::Book, &d);
    let d2 = RecordData::decode_for(RecordKind::Book, &wire).unwrap();
    assert_eq!(d2.key, d.key);
    assert_eq!(d2.version, d.version);
    assert_eq!(d2.item_type, d.item_type);
    assert_eq!(d2.title, d.title);
    assert_eq!(d2.creators, d.creators);
    assert_eq!(d2.date, d.date);
    assert_eq!(d2.fields, d.fields);
    assert_eq!(d2.tags, d.tags);
    assert_eq!(d2.collections, d.collections);
    assert_eq!(d2.relations, d.relations);
    assert_eq!(d2.date_added, "");
    assert_eq!(d2.date_modified, "");
}

#[test]
fn item_type_round_trip_keeps_the_variant() {
    let mut d = sample_record(RecordKind::Patent);
    d.date = "05/2020".to_string();
    let it = ItemType::Patent(PatentData { record: d });
    let wire = it.to_json();
    let it2 = ItemType::decode(&wire).unwrap();
    assert_eq!(it2.kind(), RecordKind::Patent);
    assert_eq!(it2.record().title, "A sample");
    assert_eq!(it2.record().date, "05/2020");
}

#[test]
fn encode_omits_server_owned_and_empty_members() {
    let mut d = RecordData::fresh(RecordKind::Book);
    d.date_added = "2019-10-01T21:17:23Z".to_string();
    d.date_modified = "2019-10-01T21:17:23Z".to_string();
    let wire = RecordData::encode_for(RecordKind::Book, &d);
    assert!(wire.get("dateAdded").is_none());
    assert!(wire.get("dateModified").is_none());
    assert!(wire.get("key").is_none());
    assert!(wire.get("version").is_none());
    assert!(wire.get("title").is_none());
    assert!(wire.get("creators").is_none());
    assert!(wire.get("collections").is_none());
    assert_eq!(wire.get("itemType"), Some(&JsonValue::Str("book".to_string())));
}

#[test]
fn a_fresh_note_is_titled_note() {
    let d = RecordData::fresh(RecordKind::Note);
    let it = ItemType::Note(NoteData { record: d });
    assert_eq!(ItemCommon::title(&it), "Note");
    let wire = it.to_json();
    assert!(wire.get("title").is_none());
    let it2 = ItemType::decode(&wire).unwrap();
    assert_eq!(ItemCommon::title(&it2), "Note");
}

#[test]
fn author_joins_full_names() {
    let d = sample_record(RecordKind::Book);
    let it = ItemType::Book(zotero::variants::BookData { record: d });
    assert_eq!(it.author(), "John Doe, Jane Roe");
}

#[test]
fn author_of_attachments_and_notes_is_fixed() {
    let att = ItemType::Attachment(zotero::variants::AttachmentData {
        record: RecordData::fresh(RecordKind::Attachment),
    });
    assert_eq!(att.author(), "");
    let note = ItemType::Note(NoteData {
        record: RecordData::fresh(RecordKind::Note),
    });
    assert_eq!(note.author(), "You");
}

#[test]
fn has_tag_finds_exact_texts_only() {
    let d = sample_record(RecordKind::Book);
    let it = ItemType::Book(zotero::variants::BookData { record: d });
    assert!(it.has_tag("history"));
    assert!(it.has_tag("art"));
    assert!(!it.has_tag("His"));
    assert!(!it.has_tag(""));
}

#[test]
fn creator_full_and_short_names() {
    let c = Creator {
        creator_type: "author".to_string(),
        first_name: "John".to_string(),
        last_name: "Doe".to_string(),
    };
    assert_eq!(c.full_name(), "John Doe");
    assert_eq!(c.short_name(), "J. Doe");
    let anon = Creator {
        creator_type: "author".to_string(),
        first_name: "".to_string(),
        last_name: "Doe".to_string(),
    };
    assert_eq!(anon.full_name(), " Doe");
    assert_eq!(anon.short_name(), "Doe");
}

#[test]
fn attachment_numeric_fields_survive_the_round_trip() {
    let mut d = RecordData::fresh(RecordKind::Attachment);
    d.num_fields = vec![("mtime".to_string(), 1571234567890)];
    d.fields = vec![("md5".to_string(), "9e107d9d372bb6826bd81d3542a419d6".to_string())];
    let wire = RecordData::encode_for(RecordKind::Attachment, &d);
    let d2 = RecordData::decode_for(RecordKind::Attachment, &wire).unwrap();
    assert_eq!(d2.num_fields, d.num_fields);
    assert_eq!(d2.fields, d.fields);
}

#[test]
fn item_envelope_accessors() {
    let input = r#"
        {
            "key": "4X5CQGQA",
            "version": 2444,
            "library": {
                "type": "user",
                "id": 1000000,
                "name": "john.doe",
                "links": {
                    "alternate": {
                        "href": "https://www.zotero.org/john.doe",
                        "type": "text/html"
                    }
                }
            },
            "links": {
                "alternate": {
                    "href": "https://www.zotero.org/john.doe/items/4X5CQGQA",
                    "type": "text/html"
                }
            },
            "meta": {
                "numChildren": 2
            },
            "data": {
                "key": "4X5CQGQA",
                "version": 2444,
                "itemType": "book",
                "title": "A book",
                "creators": [
                    {
                        "creatorType": "author",
                        "firstName": "John",
                        "lastName": "Doe"
                    }
                ],
                "date": "2020-05-01",
                "tags": [{"tag": "history"}],
                "relations": {},
                "dateAdded": "2019-10-01T21:17:23Z",
                "dateModified": "2019-10-01T21:17:23Z"
            }
        }
    "#;
    let tree: serde_json::Value = serde_json::from_str(input).unwrap();
    let v = jv(&tree);
    let item = Item::decode(&v).unwrap();
    assert_eq!(item.key(), "4X5CQGQA");
    assert_eq!(item.title(), "A book");
    assert_eq!(item.author(), "John Doe");
    assert!(item.has_tag("history"));
    assert!(item.meta.has_children());
    let day = item.normalized_date().unwrap();
    assert_eq!(day.year, 2020);
    assert_eq!(day.month, 5);
    assert_eq!(day.day, 1);
}

/// Builds the library's JSON model from a parsed serde_json tree.
fn jv(v: &serde_json::Value) -> JsonValue {
    match v {
        serde_json::Value::Null => JsonValue::Null,
        serde_json::Value::Bool(b) => JsonValue::Bool(*b),
        serde_json::Value::Number(n) => JsonValue::Int(n.as_i64().unwrap()),
        serde_json::Value::String(s) => JsonValue::Str(s.clone()),
        serde_json::Value::Array(a) => JsonValue::Arr(a.iter().map(jv).collect()),
        serde_json::Value::Object(o) => {
            JsonValue::Obj(o.iter().map(|(k, x)| (k.clone(), jv(x))).collect())
        }
    }
}

#[test]
fn an_update_sends_key_and_version_together() {
    let d = sample_record(RecordKind::Book);
    let wire = RecordData::encode_for(RecordKind::Book, &d);
    assert_eq!(wire.get("key"), Some(&JsonValue::Str("4X5CQGQA".to_string())));
    assert_eq!(wire.get("version"), Some(&JsonValue::Int(2444)));
}
