//! The paginated response assembler, the continuation-link parser, date
//! normalization and the collection helpers.

use zotero::collection::find_collection_by_name;
use zotero::collection::find_collections_by_names;
use zotero::collection::Collection;
use zotero::collection::CollectionData;
use zotero::collection::CollectionMeta;
use zotero::collection::StringOrBool;
use zotero::date::parse_zotero_date;
use zotero::error::ZoteroApiError;
use zotero::json::JsonValue;
use zotero::pagination::assemble_pages;
use zotero::pagination::next_link;
use zotero::pagination::PageAssembler;
use zotero::pagination::PageStep;
use zotero::shared_fields::Library;
use zotero::shared_fields::Link;
use zotero::shared_fields::Links;

fn ints(ns: &[i64]) -> JsonValue {
    JsonValue::Arr(ns.iter().map(|n| JsonValue::Int(*n)).collect())
}

#[test]
fn three_pages_concatenate_in_order() {
    let a = PageAssembler::new();
    let (a, step) = a
        .feed(200, ints(&[1, 2]), Some("https://api.zotero.org/x?start=2".to_string()))
        .unwrap();
    assert_eq!(step, PageStep::Continue("https://api.zotero.org/x?start=2".to_string()));
    let (a, step) = a
        .feed(200, ints(&[3, 4]), Some("https://api.zotero.org/x?start=4".to_string()))
        .unwrap();
    assert_eq!(step, PageStep::Continue("https://api.zotero.org/x?start=4".to_string()));
    let (_, step) = a.feed(200, ints(&[5]), None).unwrap();
    assert_eq!(step, PageStep::Done(ints(&[1, 2, 3, 4, 5])));
}

#[test]
fn a_403_aborts_the_assembly_without_partial_results() {
    let a = PageAssembler::new();
    let (a, _) = a
        .feed(200, ints(&[1, 2]), Some("https://api.zotero.org/x?start=2".to_string()))
        .unwrap();
    match a.feed(403, ints(&[3, 4]), None) {
        Err(ZoteroApiError::AuthenticationError(_)) => {}
        _ => panic!("a 403 must abort the assembly as an authentication failure"),
    }
}

#[test]
fn a_single_page_passes_through_untouched() {
    let a = PageAssembler::new();
    let body = JsonValue::Obj(vec![("ok".to_string(), JsonValue::Bool(true))]);
    let expected = JsonValue::Obj(vec![("ok".to_string(), JsonValue::Bool(true))]);
    let (_, step) = a.feed(200, body, None).unwrap();
    assert_eq!(step, PageStep::Done(expected));
}

#[test]
fn a_non_array_page_fails_the_whole_assembly() {
    let a = PageAssembler::new();
    let (a, _) = a
        .feed(200, ints(&[1]), Some("https://api.zotero.org/x?start=1".to_string()))
        .unwrap();
    match a.feed(200, JsonValue::Bool(true), None) {
        Err(ZoteroApiError::ParseResponseError(_)) => {}
        _ => panic!("every page of a multi-page answer must be an array"),
    }
}

#[test]
fn a_whole_page_run_assembles_into_one_array() {
    let pages = vec![
        (200u16, ints(&[1, 2]), Some("https://api.zotero.org/x?start=2".to_string())),
        (200u16, ints(&[3]), Some("https://api.zotero.org/x?start=3".to_string())),
        (200u16, ints(&[4, 5]), None),
    ];
    assert_eq!(assemble_pages(pages), Ok(ints(&[1, 2, 3, 4, 5])));
    let pages = vec![
        (200u16, ints(&[1, 2]), Some("https://api.zotero.org/x?start=2".to_string())),
        (403u16, ints(&[3]), None),
    ];
    match assemble_pages(pages) {
        Err(ZoteroApiError::AuthenticationError(_)) => {}
        _ => panic!("a 403 anywhere must fail the whole run"),
    }
}

#[test]
fn the_next_relation_is_found_in_a_link_header() {
    let header = "<https://api.zotero.org/users/1/items?start=25>; rel=\"next\", \
                  <https://api.zotero.org/users/1/items?start=75>; rel=\"last\"";
    assert_eq!(
        next_link(header),
        Some("https://api.zotero.org/users/1/items?start=25".to_string())
    );
    let header2 = "<https://api.zotero.org/users/1/items?start=0>; rel=\"first\", \
                   <https://api.zotero.org/users/1/items?start=50>; rel=\"next\"";
    assert_eq!(
        next_link(header2),
        Some("https://api.zotero.org/users/1/items?start=50".to_string())
    );
    assert_eq!(next_link("<https://api.zotero.org/x>; rel=\"last\""), None);
    assert_eq!(next_link(""), None);
}

#[test]
fn the_next_relation_is_found_inside_a_relation_list() {
    let header = "<https://api.zotero.org/x?start=25>; rel=\"prev next\"";
    assert_eq!(next_link(header), Some("https://api.zotero.org/x?start=25".to_string()));
    let header = "<https://api.zotero.org/x?start=25>; rel=\"next last\"";
    assert_eq!(next_link(header), Some("https://api.zotero.org/x?start=25".to_string()));
    assert_eq!(next_link("<https://api.zotero.org/x>; rel=\"nextgen\""), None);
    assert_eq!(next_link("<https://api.zotero.org/x>; rel=\"prev-next\""), None);
}

#[test]
fn iso_dates_normalize() {
    let d = parse_zotero_date("2020-05-01").unwrap();
    assert_eq!((d.year, d.month, d.day), (2020, 5, 1));
    let d = parse_zotero_date("2019-10-01T21:17:23Z").unwrap();
    assert_eq!((d.year, d.month, d.day), (2019, 10, 1));
}

#[test]
fn month_year_dates_default_the_day() {
    let d = parse_zotero_date("05/2020").unwrap();
    assert_eq!((d.year, d.month, d.day), (2020, 5, 1));
}

#[test]
fn unrecognized_dates_are_a_decode_failure() {
    match parse_zotero_date("last spring") {
        Err(ZoteroApiError::ParseResponseError(_)) => {}
        _ => panic!("an unrecognized date must fail, never fall back"),
    }
    match parse_zotero_date("2020-99-99") {
        Err(ZoteroApiError::ParseResponseError(_)) => {}
        _ => panic!("digits that name no real day must fail"),
    }
    match parse_zotero_date("2019-02-29") {
        Err(ZoteroApiError::ParseResponseError(_)) => {}
        _ => panic!("February 29th of a common year must fail"),
    }
    let leap = parse_zotero_date("2020-02-29").unwrap();
    assert_eq!((leap.year, leap.month, leap.day), (2020, 2, 29));
}

fn named_collection(key: &str, name: &str) -> Collection {
    Collection {
        key: key.to_string(),
        version: 1,
        library: Library {
            library_type: "user".to_string(),
            id: 1,
            name: "john.doe".to_string(),
            links: Links {
                self_link: None,
                alternate: Link {
                    href: "https://www.zotero.org/john.doe".to_string(),
                    link_type: "text/html".to_string(),
                },
                up: None,
            },
        },
        links: Links {
            self_link: None,
            alternate: Link {
                href: "https://www.zotero.org/john.doe".to_string(),
                link_type: "text/html".to_string(),
            },
            up: None,
        },
        meta: CollectionMeta { num_collections: None, num_items: None },
        data: CollectionData {
            key: key.to_string(),
            version: 1,
            name: name.to_string(),
            parent_collection: StringOrBool::Bool(false),
            relations: vec![],
        },
    }
}

#[test]
fn collections_are_found_by_name() {
    let cols = vec![
        named_collection("A", "History"),
        named_collection("B", "Art"),
        named_collection("C", "History"),
    ];
    let first = find_collection_by_name(&cols, "History").unwrap();
    assert_eq!(first.key, "A");
    assert!(find_collection_by_name(&cols, "Maths").is_none());

    let found = find_collections_by_names(&cols, &vec!["History", "Art"]).unwrap();
    assert_eq!(found.len(), 3);
    assert!(find_collections_by_names(&cols, &vec!["Maths"]).is_none());
}

#[test]
fn error_variants_carry_their_messages() {
    let e = ZoteroApiError::RequestError("connection reset".to_string());
    assert_eq!(e.message(), "connection reset");
    let e = ZoteroApiError::AuthenticationError("forbidden".to_string());
    assert_eq!(e.message(), "forbidden");
}

#[test]
fn collection_data_round_trips() {
    let d = CollectionData {
        key: "".to_string(),
        version: 0,
        name: "My collection".to_string(),
        parent_collection: StringOrBool::Key("ABCD1234".to_string()),
        relations: vec![("owl:sameAs".to_string(), "http://example.org/c".to_string())],
    };
    let wire = d.to_json();
    let d2 = CollectionData::decode(&wire).unwrap();
    assert_eq!(d2.name, d.name);
    assert_eq!(d2.parent_collection, d.parent_collection);
    assert_eq!(d2.relations, d.relations);
    assert!(wire.get("key").is_none());
    assert!(wire.get("version").is_none());
}
