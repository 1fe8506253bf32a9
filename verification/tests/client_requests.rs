//! The client and its request builders.

use zotero::client::LibraryType;
use zotero::client::Zotero;
use zotero::client::ZoteroInit;
use zotero::error::ZoteroApiError;
use zotero::json::JsonValue;
use zotero::record::RecordData;
use zotero::record::RecordKind;
use zotero::variants::BookData;

#[test]
fn mod_test_prepare_zotero() {
    let expected_struct0 = Zotero {
        library_type: LibraryType::GroupLibrary {
            group_id: "123456".to_string(),
            api_key: None,
        },
    };

    let result_0 = ZoteroInit::set_group("123456", None);
    assert_eq!(result_0, expected_struct0);

    let expected_struct1 = Zotero {
        library_type: LibraryType::UserLibrary {
            user_id: "123456".to_string(),
            api_key: "abc".to_string(),
        },
    };

    let result_1 = ZoteroInit::set_user("123456", "abc");
    assert_eq!(result_1, expected_struct1);
}

#[test]
fn lib_test_prepare_zotero() {
    let expected_struct0 = Zotero {
        library_type: LibraryType::GroupLibrary {
            group_id: "123456".to_string(),
            api_key: None,
        },
    };

    let result_0 = Zotero::set_group("123456", None);
    assert_eq!(result_0, expected_struct0);

    let expected_struct1 = Zotero {
        library_type: LibraryType::UserLibrary {
            user_id: "123456".to_string(),
            api_key: "abc".to_string(),
        },
    };

    let result_1 = Zotero::set_user("123456", "abc");
    assert_eq!(result_1, expected_struct1);
}

#[test]
fn mod_test_group_new() {
    let expected_struct0 = Zotero {
        library_type: LibraryType::GroupLibrary {
            group_id: "456".to_string(),
            api_key: Some("123".to_string()),
        },
    };

    let result_0 = ZoteroInit::set_group("456", Some("123"));

    assert_eq!(result_0, expected_struct0);

    let expected_struct1 = Zotero {
        library_type: LibraryType::GroupLibrary {
            group_id: "456".to_string(),
            api_key: Some("123".to_string()),
        },
    };

    let result_1 = ZoteroInit::set_group("456", Some("123"));

    assert_eq!(result_1, expected_struct1);

    let expected_struct2 = Zotero {
        library_type: LibraryType::GroupLibrary {
            group_id: "456".to_string(),
            api_key: None,
        },
    };

    let result_2 = ZoteroInit::set_group("456", None);

    assert_eq!(result_2, expected_struct2);
}

#[test]
fn lib_test_group_new() {
    let expected_struct0 = Zotero {
        library_type: LibraryType::GroupLibrary {
            group_id: "456".to_string(),
            api_key: Some("123".to_string()),
        },
    };

    let result_0 = Zotero::set_group("456", Some("123"));

    assert_eq!(result_0, expected_struct0);

    let expected_struct1 = Zotero {
        library_type: LibraryType::GroupLibrary {
            group_id: "456".to_string(),
            api_key: Some("123".to_string()),
        },
    };

    let result_1 = Zotero::set_group("456", Some("123"));

    assert_eq!(result_1, expected_struct1);

    let expected_struct2 = Zotero {
        library_type: LibraryType::GroupLibrary {
            group_id: "456".to_string(),
            api_key: None,
        },
    };

    let result_2 = Zotero::set_group("456", None);

    assert_eq!(result_2, expected_struct2);
}

#[test]
fn mod_test_library_type() {
    let user_library = LibraryType::UserLibrary {
        user_id: "123456789".to_string(),
        api_key: "abcdef".to_string(),
    };

    assert_eq!(user_library.get_id(), "123456789");
    assert_eq!(user_library.get_api_key(), Some("abcdef"));
    assert_eq!(
        user_library.get_base_url(),
        "https://api.zotero.org/users/123456789/"
    );

    let group_id = LibraryType::GroupLibrary {
        group_id: "123456789".to_string(),
        api_key: Some("abcdef".to_string()),
    };

    assert_eq!(group_id.get_id(), "123456789");
    assert_eq!(group_id.get_api_key(), Some("abcdef"));
    assert_eq!(
        group_id.get_base_url(),
        "https://api.zotero.org/groups/123456789/"
    );
}

#[test]
fn lib_test_library_type() {
    let user_library = LibraryType::UserLibrary {
        user_id: "123456789".to_string(),
        api_key: "abcdef".to_string(),
    };

    assert_eq!(user_library.get_id(), "123456789");
    assert_eq!(user_library.get_api_key(), Some("abcdef"));
    assert_eq!(
        user_library.get_base_url(),
        "https://api.zotero.org/users/123456789/"
    );

    let group_id = LibraryType::GroupLibrary {
        group_id: "123456789".to_string(),
        api_key: Some("abcdef".to_string()),
    };

    assert_eq!(group_id.get_id(), "123456789");
    assert_eq!(group_id.get_api_key(), Some("abcdef"));
    assert_eq!(
        group_id.get_base_url(),
        "https://api.zotero.org/groups/123456789/"
    );
}

#[test]
fn creating_item() {
    let book: BookData = BookData {
        record: RecordData::fresh(RecordKind::Book).with_title("e"),
    };

    assert!(book.record.title == "e")
}

#[test]
fn creating_zotero_user_client() {
    let _z = Zotero::set_user("123456789", "abcdefghij");
    assert!(true)
}

#[test]
fn creating_zotero_group_client() {
    let _z = Zotero::set_group("123456789", None);
    assert!(true)
}

#[test]
fn get_operation_for_user() {
    let z = Zotero::set_user("123456789", "abcdefgh");
    let req = z.get_collection("ABREZSE", None);
    assert_eq!(req.url, "https://api.zotero.org/users/123456789/collections/ABREZSE")
}

#[test]
fn get_operation_for_group() {
    let z = Zotero::set_group("123456789", None);
    let req = z.get_collection("ABREZSE", None);
    assert_eq!(req.url, "https://api.zotero.org/groups/123456789/collections/ABREZSE")
}

#[test]
fn delete_operation_for_user() {
    let z = Zotero::set_user("123456789", "abcdefgh");
    let req = z.delete_item("ABREZSE", "2050").unwrap();
    assert_eq!(req.method, "DELETE");
    assert_eq!(req.has_header("Authorization"), true);
}

#[test]
fn delete_operation_for_group_no_api_key() {
    let z = Zotero::set_group("123456789", None);
    let req = z.delete_item("ABREZSE", "2050").unwrap();
    assert_eq!(req.method, "DELETE");
    assert_eq!(req.has_header("Authorization"), false);
}

#[test]
fn delete_operation_for_group() {
    let z = Zotero::set_group("123456789", Some("abcdefgh"));
    let req = z.delete_item("ABREZSE", "2050").unwrap();
    assert_eq!(req.method, "DELETE");
    assert_eq!(req.has_header("Authorization"), true);
}

#[test]
fn delete_collection_for_group() {
    let z = Zotero::set_group("123456789", Some("abcdefgh"));
    let req = z.delete_collection("ABREZSE", "2050").unwrap();
    assert_eq!(req.method, "DELETE");
    assert_eq!(req.has_header("Authorization"), true);
}

#[test]
fn delete_collection_for_user() {
    let z = Zotero::set_user("123456789", "abcdefgh");
    let req = z.delete_collection("ABREZSE", "2050").unwrap();
    assert_eq!(req.method, "DELETE");
    assert_eq!(req.has_header("Authorization"), true);
}

#[test]
fn delete_items_for_user() {
    let z = Zotero::set_user("123456789", "abcdefgh");
    let req = z.delete_items(&vec!["ABREZSE"], "2050").unwrap();
    assert_eq!(req.method, "DELETE");
    assert_eq!(req.has_header("Authorization"), true);
}

#[test]
fn delete_items_for_group() {
    let z = Zotero::set_group("123456789", Some("abcdefgh"));
    let req = z.delete_items(&vec!["ABREZSE"], "2050").unwrap();
    assert_eq!(req.method, "DELETE");
    assert_eq!(req.has_header("Authorization"), true);
}

#[test]
fn delete_tag_for_group() {
    let z = Zotero::set_group("123456789", Some("abcdefgh"));
    let req = z.delete_tag("ABREZSE", "2050").unwrap();
    assert_eq!(req.method, "DELETE");
    assert_eq!(req.has_header("Authorization"), true);
}

#[test]
fn delete_tag_for_user() {
    let z = Zotero::set_user("123456789", "abcdefgh");
    let req = z.delete_tag("ABREZSE", "2050").unwrap();
    assert_eq!(req.method, "DELETE");
    assert_eq!(req.has_header("Authorization"), true);
}

#[test]
fn delete_tags_for_group() {
    let z = Zotero::set_group("123456789", Some("abcdefgh"));
    let req = z.delete_tags(&vec!["ABREZSE"], "2050").unwrap();
    assert_eq!(req.method, "DELETE");
    assert_eq!(req.has_header("Authorization"), true);
}

#[test]
fn delete_tags_for_user() {
    let z = Zotero::set_user("123456789", "abcdefgh");
    let req = z.delete_tags(&vec!["ABREZSE"], "2050").unwrap();
    assert_eq!(req.method, "DELETE");
    assert_eq!(req.has_header("Authorization"), true);
}

#[test]
fn delete_search_for_user() {
    let z = Zotero::set_user("123456789", "abcdefgh");
    let req = z.delete_search("ABREZSE", "2050").unwrap();
    assert_eq!(req.method, "DELETE");
    assert_eq!(req.has_header("Authorization"), true);
}

#[test]
fn delete_search_for_group() {
    let z = Zotero::set_group("123456789", Some("abcdefgh"));
    let req = z.delete_search("ABREZSE", "2050").unwrap();
    assert_eq!(req.method, "DELETE");
    assert_eq!(req.has_header("Authorization"), true);
}

#[test]
fn bulk_delete_joins_keys_and_carries_the_version() {
    let z = Zotero::set_user("123456789", "abcdefgh");
    let req = z.delete_items(&vec!["A1", "B2"], "2050").unwrap();
    assert_eq!(req.url, "https://api.zotero.org/users/123456789/items/A1 || B2");
    assert_eq!(
        req.header("If-Unmodified-Since-Version"),
        Some(&"2050".to_string())
    );
}

#[test]
fn keyless_group_request_has_no_authorization_header() {
    let z = Zotero::set_group("123456789", None);
    let req = z.get_items(None);
    assert!(!req.has_header("Authorization"));
}

#[test]
fn user_request_always_carries_authorization() {
    let z = Zotero::set_user("123456789", "abcd");
    let req = z.get_items(None);
    assert_eq!(req.header("Authorization"), Some(&"Bearer abcd".to_string()));
}

#[test]
fn delete_without_version_is_a_construction_error() {
    let z = Zotero::set_user("123456789", "abcd");
    match z.delete_item("ABREZSE", "") {
        Err(ZoteroApiError::RequestCreationError(_)) => {}
        _ => panic!("an empty version value must fail at construction time"),
    }
    match z.update_item("ABREZSE", JsonValue::Obj(vec![]), "") {
        Err(ZoteroApiError::RequestCreationError(_)) => {}
        _ => panic!("an empty version value must fail at construction time"),
    }
}

#[test]
fn update_item_carries_body_and_version() {
    let z = Zotero::set_user("123456789", "abcd");
    let body = JsonValue::Obj(vec![("note".to_string(), JsonValue::Str("x".to_string()))]);
    let expected = JsonValue::Obj(vec![("note".to_string(), JsonValue::Str("x".to_string()))]);
    let req = z.update_item("K36LXQI5", body, "2437").unwrap();
    assert_eq!(req.method, "PATCH");
    assert_eq!(req.url, "https://api.zotero.org/users/123456789/items/K36LXQI5");
    assert_eq!(
        req.header("If-Unmodified-Since-Version"),
        Some(&"2437".to_string())
    );
    assert_eq!(req.body, Some(expected));
}

#[test]
fn tags_are_urlencoded_in_bulk_deletes() {
    let z = Zotero::set_user("123456789", "abcd");
    let req = z.delete_tags(&vec!["hard science", "l'art"], "7").unwrap();
    assert_eq!(
        req.url,
        "https://api.zotero.org/users/123456789/tags?tag=hard+science || l%27art"
    );
}

#[test]
fn get_subset_joins_keys_with_commas() {
    let z = Zotero::set_user("123456789", "abcd");
    let req = z.get_subset(&vec!["AYVWED", "B8ZNE3GH"], None);
    assert_eq!(
        req.url,
        "https://api.zotero.org/users/123456789/items?itemKey=AYVWED,B8ZNE3GH"
    );
}

#[test]
fn create_new_item_wraps_one_record_in_an_array() {
    let z = Zotero::set_user("123456789", "abcd");
    let record = zotero::record::RecordData::encode_for(
        RecordKind::Book,
        &RecordData::fresh(RecordKind::Book).with_title("A title"),
    );
    let req = z.create_new_item(record);
    assert_eq!(req.method, "POST");
    assert_eq!(req.url, "https://api.zotero.org/users/123456789/items");
    match req.body {
        Some(JsonValue::Arr(elems)) => assert_eq!(elems.len(), 1),
        _ => panic!("a single created record must travel inside an array"),
    }
}

#[test]
fn key_info_requires_a_key() {
    let z = Zotero::set_user("123456789", "abcd");
    let req = z.get_api_key_info(None).unwrap();
    assert_eq!(req.url, "https://api.zotero.org/users/123456789/keys/abcd");
    let keyless = Zotero::set_group("123456789", None);
    match keyless.get_api_key_info(None) {
        Err(ZoteroApiError::RequestCreationError(_)) => {}
        _ => panic!("a keyless client has no key to ask about"),
    }
}

#[test]
fn extra_params_become_the_query_string() {
    let z = Zotero::set_user("123456789", "abcd");
    let req = z.get_items(Some("itemType=note"));
    assert_eq!(
        req.url,
        "https://api.zotero.org/users/123456789/items?itemType=note"
    );
}

#[test]
fn get_subset_extras_extend_the_query_string() {
    let z = Zotero::set_user("123456789", "abcd");
    let req = z.get_subset(&vec!["AYVWED", "B8ZNE3GH"], Some("limit=5"));
    assert_eq!(
        req.url,
        "https://api.zotero.org/users/123456789/items?itemKey=AYVWED,B8ZNE3GH&limit=5"
    );
}

#[test]
fn collection_top_items_uses_the_collections_path() {
    let z = Zotero::set_user("123456789", "abcd");
    let req = z.get_collection_top_items("AYVWED", "B8ZNE3GH", None);
    assert_eq!(
        req.url,
        "https://api.zotero.org/users/123456789/collections/AYVWED/items/B8ZNE3GH"
    );
}
