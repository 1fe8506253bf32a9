//! Decoding the wire format: envelopes, records and the ambiguous fields.

use zotero::collection::IntOrBool;
use zotero::collection::StringOrBool;
use zotero::item::Item;
use zotero::item::ItemMeta;
use zotero::item::SizeOrBool;
use zotero::json::JsonValue;
use zotero::record::RecordKind;
use zotero::shared_fields::Creator;
use zotero::variants::ItemType;
use zotero::error::ZoteroApiError;

/// Builds the library's JSON model from a parsed serde_json tree.
fn jv(v: &serde_json::Value) -> JsonValue {
    match v {
        serde_json::Value::Null => JsonValue::Null,
        serde_json::Value::Bool(b) => JsonValue::Bool(*b),
        serde_json::Value::Number(n) => JsonValue::Int(n.as_i64().unwrap()),
        serde_json::Value::String(s) => JsonValue::Str(s.clone()),
        serde_json::Value::Array(a) => JsonValue::Arr(a.iter().map(jv).collect()),
        serde_json::Value::Object(o) => {
            JsonValue::Obj(o.iter().map(|(k, x)| (k.clone(), jv(x))).collect())
        }
    }
}

fn parse(input: &str) -> JsonValue {
    jv(&serde_json::from_str::<serde_json::Value>(input).unwrap())
}

#[test]
fn item_deserialization() {
    let input = r#"
            {
                "key": "4X5CQGQA",
                "version": 2444,
                "library": {
                    "type": "user",
                    "id": 1000000,
                    "name": "john.doe",
                    "links": {
                        "alternate": {
                            "href": "https://www.zotero.org/john.doe",
                            "type": "text/html"
                        }
                    }
                },
                "links": {
                    "self": {
                        "href": "https://api.zotero.org/users/0000000/items/4X5CQGQA",
                        "type": "application/json"
                    },
                    "alternate": {
                        "href": "https://www.zotero.org/john.doe/items/4X5CQGQA",
                        "type": "text/html"
                    }
                },
                "meta": {
                    "numChildren": 0
                },
                "data": {
                    "key": "4X5CQGQA",
                    "version": 2444,
                    "itemType": "bookSection",
                    "title": "",
                    "creators": [],
                    "abstractNote": "",
                    "bookTitle": "",
                    "series": "",
                    "seriesNumber": "",
                    "volume": "",
                    "numberOfVolumes": "",
                    "edition": "",
                    "place": "",
                    "publisher": "",
                    "date": "",
                    "pages": "",
                    "language": "",
                    "ISBN": "",
                    "shortTitle": "",
                    "url": "",
                    "accessDate": "",
                    "archive": "",
                    "archiveLocation": "",
                    "libraryCatalog": "",
                    "callNumber": "",
                    "rights": "",
                    "extra": "",
                    "tags": [],
                    "collections": [
                        "TYPDZEZF"
                    ],
                    "relations": {},
                    "dateAdded": "2019-10-01T21:17:23Z",
                    "dateModified": "2019-10-01T21:17:23Z"
                }
            }
        "#;

    Item::decode(&parse(input)).expect("Failed to parse zotero data");
    assert!(true)
}

#[test]
fn items_deserialization() {
    let input = r#"
        [
            {
                "key": "4X5CQGQA",
                "version": 2444,
                "library": {
                    "type": "user",
                    "id": 1000000,
                    "name": "john.doe",
                    "links": {
                        "alternate": {
                            "href": "https://www.zotero.org/john.doe",
                            "type": "text/html"
                        }
                    }
                },
                "links": {
                    "self": {
                        "href": "https://api.zotero.org/users/0000000/items/4X5CQGQA",
                        "type": "application/json"
                    },
                    "alternate": {
                        "href": "https://www.zotero.org/john.doe/items/4X5CQGQA",
                        "type": "text/html"
                    }
                },
                "meta": {
                    "numChildren": 0
                },
                "data": {
                    "key": "4X5CQGQA",
                    "version": 2444,
                    "itemType": "bookSection",
                    "title": "",
                    "creators": [
                        {
                            "creatorType": "author",
                            "firstName": "John",
                            "lastName": "Doe"
                        }
                    ],
                    "abstractNote": "",
                    "bookTitle": "",
                    "series": "",
                    "seriesNumber": "",
                    "volume": "",
                    "numberOfVolumes": "",
                    "edition": "",
                    "place": "",
                    "publisher": "",
                    "date": "",
                    "pages": "",
                    "language": "",
                    "ISBN": "",
                    "shortTitle": "",
                    "url": "",
                    "accessDate": "",
                    "archive": "",
                    "archiveLocation": "",
                    "libraryCatalog": "",
                    "callNumber": "",
                    "rights": "",
                    "extra": "",
                    "tags": [],
                    "collections": [
                        "TYPDZEZF"
                    ],
                    "relations": {},
                    "dateAdded": "2019-10-01T21:17:23Z",
                    "dateModified": "2019-10-01T21:17:23Z"
                }
            },
            {
                "key": "4H5SBMDE",
                "version": 2444,
                "library": {
                    "type": "user",
                    "id": 1000000,
                    "name": "john.doe",
                    "links": {
                        "alternate": {
                            "href": "https://www.zotero.org/john.doe",
                            "type": "text/html"
                        }
                    }
                },
                "links": {
                    "self": {
                        "href": "https://api.zotero.org/users/0000000/items/4H5SBMDE",
                        "type": "application/json"
                    },
                    "alternate": {
                        "href": "https://www.zotero.org/john.doe/items/4H5SBMDE",
                        "type": "text/html"
                    }
                },
                "meta": {
                    "numChildren": 0
                },
                "data": {
                    "key": "4H5SBMDE",
                    "version": 2444,
                    "itemType": "map",
                    "title": "",
                    "creators": [],
                    "abstractNote": "",
                    "mapType": "",
                    "scale": "",
                    "seriesTitle": "",
                    "edition": "",
                    "place": "",
                    "publisher": "",
                    "date": "",
                    "language": "",
                    "ISBN": "",
                    "shortTitle": "",
                    "url": "",
                    "accessDate": "",
                    "archive": "",
                    "archiveLocation": "",
                    "libraryCatalog": "",
                    "callNumber": "",
                    "rights": "",
                    "extra": "",
                    "tags": [],
                    "collections": [
                        "TYPDZEZF"
                    ],
                    "relations": {},
                    "dateAdded": "2019-10-01T21:17:19Z",
                    "dateModified": "2019-10-01T21:17:19Z"
                }
            },
            {
                "key": "SAU7PP79",
                "version": 2444,
                "library": {
                    "type": "user",
                    "id": 1000000,
                    "name": "john.doe",
                    "links": {
                        "alternate": {
                            "href": "https://www.zotero.org/john.doe",
                            "type": "text/html"
                        }
                    }
                },
                "links": {
                    "self": {
                        "href": "https://api.zotero.org/users/0000000/items/SAU7PP79",
                        "type": "application/json"
                    },
                    "alternate": {
                        "href": "https://www.zotero.org/john.doe/items/SAU7PP79",
                        "type": "text/html"
                    }
                },
                "meta": {
                    "numChildren": 0
                },
                "data": {
                    "key": "SAU7PP79",
                    "version": 2444,
                    "itemType": "patent",
                    "title": "",
                    "creators": [],
                    "abstractNote": "",
                    "place": "",
                    "country": "",
                    "assignee": "",
                    "issuingAuthority": "",
                    "patentNumber": "",
                    "filingDate": "",
                    "pages": "",
                    "applicationNumber": "",
                    "priorityNumbers": "",
                    "issueDate": "",
                    "references": "",
                    "legalStatus": "",
                    "language": "",
                    "shortTitle": "",
                    "url": "",
                    "accessDate": "",
                    "rights": "",
                    "extra": "",
                    "tags": [],
                    "collections": [
                        "TYPDZEZF"
                    ],
                    "relations": {},
                    "dateAdded": "2019-10-01T21:17:16Z",
                    "dateModified": "2019-10-01T21:17:16Z"
                }
            },
            {
                "key": "25DYFG56",
                "version": 2444,
                "library": {
                    "type": "user",
                    "id": 1000000,
                    "name": "john.doe",
                    "links": {
                        "alternate": {
                            "href": "https://www.zotero.org/john.doe",
                            "type": "text/html"
                        }
                    }
                },
                "links": {
                    "self": {
                        "href": "https://api.zotero.org/users/0000000/items/25DYFG56",
                        "type": "application/json"
                    },
                    "alternate": {
                        "href": "https://www.zotero.org/john.doe/items/25DYFG56",
                        "type": "text/html"
                    }
                },
                "meta": {
                    "numChildren": 0
                },
                "data": {
                    "key": "25DYFG56",
                    "version": 2444,
                    "itemType": "blogPost",
                    "title": "",
                    "creators": [],
                    "abstractNote": "",
                    "blogTitle": "",
                    "websiteType": "",
                    "date": "",
                    "url": "",
                    "accessDate": "",
                    "language": "",
                    "shortTitle": "",
                    "rights": "",
                    "extra": "",
                    "tags": [],
                    "collections": [
                        "TYPDZEZF"
                    ],
                    "relations": {},
                    "dateAdded": "2019-10-01T21:17:13Z",
                    "dateModified": "2019-10-01T21:17:13Z"
                }
            },
            {
                "key": "U4AP5MUH",
                "version": 2444,
                "library": {
                    "type": "user",
                    "id": 1000000,
                    "name": "john.doe",
                    "links": {
                        "alternate": {
                            "href": "https://www.zotero.org/john.doe",
                            "type": "text/html"
                        }
                    }
                },
                "links": {
                    "self": {
                        "href": "https://api.zotero.org/users/0000000/items/U4AP5MUH",
                        "type": "application/json"
                    },
                    "alternate": {
                        "href": "https://www.zotero.org/john.doe/items/U4AP5MUH",
                        "type": "text/html"
                    }
                },
                "meta": {
                    "numChildren": 0
                },
                "data": {
                    "key": "U4AP5MUH",
                    "version": 2444,
                    "itemType": "podcast",
                    "title": "",
                    "creators": [],
                    "abstractNote": "",
                    "seriesTitle": "",
                    "episodeNumber": "",
                    "audioFileType": "",
                    "runningTime": "",
                    "url": "",
                    "accessDate": "",
                    "language": "",
                    "shortTitle": "",
                    "rights": "",
                    "extra": "",
                    "tags": [],
                    "collections": [
                        "TYPDZEZF"
                    ],
                    "relations": {},
                    "dateAdded": "2019-10-01T21:17:10Z",
                    "dateModified": "2019-10-01T21:17:10Z"
                }
            },
            {
                "key": "SD5EWBBC",
                "version": 2444,
                "library": {
                    "type": "user",
                    "id": 1000000,
                    "name": "john.doe",
                    "links": {
                        "alternate": {
                            "href": "https://www.zotero.org/john.doe",
                            "type": "text/html"
                        }
                    }
                },
                "links": {
                    "self": {
                        "href": "https://api.zotero.org/users/0000000/items/SD5EWBBC",
                        "type": "application/json"
                    },
                    "alternate": {
                        "href": "https://www.zotero.org/john.doe/items/SD5EWBBC",
                        "type": "text/html"
                    }
                },
                "meta": {
                    "numChildren": 0
                },
                "data": {
                    "key": "SD5EWBBC",
                    "version": 2444,
                    "itemType": "journalArticle",
                    "title": "",
                    "creators": [],
                    "abstractNote": "",
                    "publicationTitle": "",
                    "volume": "",
                    "issue": "",
                    "pages": "",
                    "date": "",
                    "series": "",
                    "seriesTitle": "",
                    "seriesText": "",
                    "journalAbbreviation": "",
                    "language": "",
                    "DOI": "",
                    "ISSN": "",
                    "shortTitle": "",
                    "url": "",
                    "accessDate": "",
                    "archive": "",
                    "archiveLocation": "",
                    "libraryCatalog": "",
                    "callNumber": "",
                    "rights": "",
                    "extra": "",
                    "tags": [],
                    "collections": [
                        "TYPDZEZF"
                    ],
                    "relations": {},
                    "dateAdded": "2019-10-01T21:16:58Z",
                    "dateModified": "2019-10-01T21:16:58Z"
                }
            },
            {
                "key": "9XZ2W4RU",
                "version": 2444,
                "library": {
                    "type": "user",
                    "id": 1000000,
                    "name": "john.doe",
                    "links": {
                        "alternate": {
                            "href": "https://www.zotero.org/john.doe",
                            "type": "text/html"
                        }
                    }
                },
                "links": {
                    "self": {
                        "href": "https://api.zotero.org/users/0000000/items/9XZ2W4RU",
                        "type": "application/json"
                    },
                    "alternate": {
                        "href": "https://www.zotero.org/john.doe/items/9XZ2W4RU",
                        "type": "text/html"
                    }
                },
                "meta": {
                    "numChildren": 0
                },
                "data": {
                    "key": "9XZ2W4RU",
                    "version": 2444,
                    "itemType": "magazineArticle",
                    "title": "",
                    "creators": [],
                    "abstractNote": "",
                    "publicationTitle": "",
                    "volume": "",
                    "issue": "",
                    "date": "",
                    "pages": "",
                    "language": "",
                    "ISSN": "",
                    "shortTitle": "",
                    "url": "",
                    "accessDate": "",
                    "archive": "",
                    "archiveLocation": "",
                    "libraryCatalog": "",
                    "callNumber": "",
                    "rights": "",
                    "extra": "",
                    "tags": [],
                    "collections": [
                        "TYPDZEZF"
                    ],
                    "relations": {},
                    "dateAdded": "2019-10-01T21:16:56Z",
                    "dateModified": "2019-10-01T21:16:56Z"
                }
            },
            {
                "key": "EFZTBRBT",
                "version": 2444,
                "library": {
                    "type": "user",
                    "id": 1000000,
                    "name": "john.doe",
                    "links": {
                        "alternate": {
                            "href": "https://www.zotero.org/john.doe",
                            "type": "text/html"
                        }
                    }
                },
                "links": {
                    "self": {
                        "href": "https://api.zotero.org/users/0000000/items/EFZTBRBT",
                        "type": "application/json"
                    },
                    "alternate": {
                        "href": "https://www.zotero.org/john.doe/items/EFZTBRBT",
                        "type": "text/html"
                    }
                },
                "meta": {
                    "numChildren": 0
                },
                "data": {
                    "key": "EFZTBRBT",
                    "version": 2444,
                    "itemType": "newspaperArticle",
                    "title": "",
                    "creators": [],
                    "abstractNote": "",
                    "publicationTitle": "",
                    "place": "",
                    "edition": "",
                    "date": "",
                    "section": "",
                    "pages": "",
                    "language": "",
                    "shortTitle": "",
                    "ISSN": "",
                    "url": "",
                    "accessDate": "",
                    "archive": "",
                    "archiveLocation": "",
                    "libraryCatalog": "",
                    "callNumber": "",
                    "rights": "",
                    "extra": "",
                    "tags": [],
                    "collections": [
                        "TYPDZEZF"
                    ],
                    "relations": {},
                    "dateAdded": "2019-10-01T21:16:53Z",
                    "dateModified": "2019-10-01T21:16:53Z"
                }
            },
            {
                "key": "5G7FQMJH",
                "version": 2444,
                "library": {
                    "type": "user",
                    "id": 1000000,
                    "name": "john.doe",
                    "links": {
                        "alternate": {
                            "href": "https://www.zotero.org/john.doe",
                            "type": "text/html"
                        }
                    }
                },
                "links": {
                    "self": {
                        "href": "https://api.zotero.org/users/0000000/items/5G7FQMJH",
                        "type": "application/json"
                    },
                    "alternate": {
                        "href": "https://www.zotero.org/john.doe/items/5G7FQMJH",
                        "type": "text/html"
                    }
                },
                "meta": {
                    "numChildren": 0
                },
                "data": {
                    "key": "5G7FQMJH",
                    "version": 2444,
                    "itemType": "conferencePaper",
                    "title": "",
                    "creators": [],
                    "abstractNote": "",
                    "date": "",
                    "proceedingsTitle": "",
                    "conferenceName": "",
                    "place": "",
                    "publisher": "",
                    "volume": "",
                    "pages": "",
                    "series": "",
                    "language": "",
                    "DOI": "",
                    "ISBN": "",
                    "shortTitle": "",
                    "url": "",
                    "accessDate": "",
                    "archive": "",
                    "archiveLocation": "",
                    "libraryCatalog": "",
                    "callNumber": "",
                    "rights": "",
                    "extra": "",
                    "tags": [],
                    "collections": [
                        "TYPDZEZF"
                    ],
                    "relations": {},
                    "dateAdded": "2019-10-01T21:16:50Z",
                    "dateModified": "2019-10-01T21:16:50Z"
                }
            },
            {
                "key": "48UAQNNN",
                "version": 2444,
                "library": {
                    "type": "user",
                    "id": 1000000,
                    "name": "john.doe",
                    "links": {
                        "alternate": {
                            "href": "https://www.zotero.org/john.doe",
                            "type": "text/html"
                        }
                    }
                },
                "links": {
                    "self": {
                        "href": "https://api.zotero.org/users/0000000/items/48UAQNNN",
                        "type": "application/json"
                    },
                    "alternate": {
                        "href": "https://www.zotero.org/john.doe/items/48UAQNNN",
                        "type": "text/html"
                    }
                },
                "meta": {
                    "numChildren": 0
                },
                "data": {
                    "key": "48UAQNNN",
                    "version": 2444,
                    "itemType": "encyclopediaArticle",
                    "title": "",
                    "creators": [],
                    "abstractNote": "",
                    "encyclopediaTitle": "",
                    "series": "",
                    "seriesNumber": "",
                    "volume": "",
                    "numberOfVolumes": "",
                    "edition": "",
                    "place": "",
                    "publisher": "",
                    "date": "",
                    "pages": "",
                    "ISBN": "",
                    "shortTitle": "",
                    "url": "",
                    "accessDate": "",
                    "language": "",
                    "archive": "",
                    "archiveLocation": "",
                    "libraryCatalog": "",
                    "callNumber": "",
                    "rights": "",
                    "extra": "",
                    "tags": [],
                    "collections": [
                        "TYPDZEZF"
                    ],
                    "relations": {},
                    "dateAdded": "2019-10-01T21:16:45Z",
                    "dateModified": "2019-10-01T21:16:45Z"
                }
            },
            {
                "key": "5I47RLH3",
                "version": 2438,
                "library": {
                    "type": "user",
                    "id": 1000000,
                    "name": "john.doe",
                    "links": {
                        "alternate": {
                            "href": "https://www.zotero.org/john.doe",
                            "type": "text/html"
                        }
                    }
                },
                "links": {
                    "self": {
                        "href": "https://api.zotero.org/users/0000000/items/5I47RLH3",
                        "type": "application/json"
                    },
                    "alternate": {
                        "href": "https://www.zotero.org/john.doe/items/5I47RLH3",
                        "type": "text/html"
                    }
                },
                "meta": {
                    "numChildren": 0
                },
                "data": {
                    "key": "5I47RLH3",
                    "version": 2438,
                    "itemType": "videoRecording",
                    "title": "",
                    "creators": [],
                    "abstractNote": "",
                    "videoRecordingFormat": "",
                    "seriesTitle": "",
                    "volume": "",
                    "numberOfVolumes": "",
                    "place": "",
                    "studio": "",
                    "date": "",
                    "runningTime": "",
                    "language": "",
                    "ISBN": "",
                    "shortTitle": "",
                    "url": "",
                    "accessDate": "",
                    "archive": "",
                    "archiveLocation": "",
                    "libraryCatalog": "",
                    "callNumber": "",
                    "rights": "",
                    "extra": "",
                    "tags": [],
                    "collections": [
                        "TYPDZEZF"
                    ],
                    "relations": {},
                    "dateAdded": "2019-10-01T13:36:01Z",
                    "dateModified": "2019-10-01T13:36:01Z"
                }
            },
            {
                "key": "T9GKB3IR",
                "version": 2438,
                "library": {
                    "type": "user",
                    "id": 1000000,
                    "name": "john.doe",
                    "links": {
                        "alternate": {
                            "href": "https://www.zotero.org/john.doe",
                            "type": "text/html"
                        }
                    }
                },
                "links": {
                    "self": {
                        "href": "https://api.zotero.org/users/0000000/items/T9GKB3IR",
                        "type": "application/json"
                    },
                    "alternate": {
                        "href": "https://www.zotero.org/john.doe/items/T9GKB3IR",
                        "type": "text/html"
                    }
                },
                "meta": {
                    "numChildren": 0
                },
                "data": {
                    "key": "T9GKB3IR",
                    "version": 2438,
                    "itemType": "radioBroadcast",
                    "title": "",
                    "creators": [],
                    "abstractNote": "",
                    "programTitle": "",
                    "episodeNumber": "",
                    "audioRecordingFormat": "",
                    "place": "",
                    "network": "",
                    "date": "",
                    "runningTime": "",
                    "language": "",
                    "shortTitle": "",
                    "url": "",
                    "accessDate": "",
                    "archive": "",
                    "archiveLocation": "",
                    "libraryCatalog": "",
                    "callNumber": "",
                    "rights": "",
                    "extra": "",
                    "tags": [],
                    "collections": [
                        "TYPDZEZF"
                    ],
                    "relations": {},
                    "dateAdded": "2019-10-01T13:35:16Z",
                    "dateModified": "2019-10-01T13:35:16Z"
                }
            },
            {
                "key": "QPDKPRGL",
                "version": 2437,
                "library": {
                    "type": "user",
                    "id": 1000000,
                    "name": "john.doe",
                    "links": {
                        "alternate": {
                            "href": "https://www.zotero.org/john.doe",
                            "type": "text/html"
                        }
                    }
                },
                "links": {
                    "self": {
                        "href": "https://api.zotero.org/users/0000000/items/QPDKPRGL",
                        "type": "application/json"
                    },
                    "alternate": {
                        "href": "https://www.zotero.org/john.doe/items/QPDKPRGL",
                        "type": "text/html"
                    }
                },
                "meta": {
                    "numChildren": 0
                },
                "data": {
                    "key": "QPDKPRGL",
                    "version": 2437,
                    "itemType": "patent",
                    "title": "",
                    "creators": [],
                    "abstractNote": "",
                    "place": "",
                    "country": "",
                    "assignee": "",
                    "issuingAuthority": "",
                    "patentNumber": "",
                    "filingDate": "",
                    "pages": "",
                    "applicationNumber": "",
                    "priorityNumbers": "",
                    "issueDate": "",
                    "references": "",
                    "legalStatus": "",
                    "language": "",
                    "shortTitle": "",
                    "url": "",
                    "accessDate": "",
                    "rights": "",
                    "extra": "",
                    "tags": [],
                    "collections": [
                        "TYPDZEZF"
                    ],
                    "relations": {},
                    "dateAdded": "2019-10-01T13:35:07Z",
                    "dateModified": "2019-10-01T13:35:07Z"
                }
            },
            {
                "key": "MD62TVCE",
                "version": 2437,
                "library": {
                    "type": "user",
                    "id": 1000000,
                    "name": "john.doe",
                    "links": {
                        "alternate": {
                            "href": "https://www.zotero.org/john.doe",
                            "type": "text/html"
                        }
                    }
                },
                "links": {
                    "self": {
                        "href": "https://api.zotero.org/users/0000000/items/MD62TVCE",
                        "type": "application/json"
                    },
                    "alternate": {
                        "href": "https://www.zotero.org/john.doe/items/MD62TVCE",
                        "type": "text/html"
                    }
                },
                "meta": {
                    "numChildren": 0
                },
                "data": {
                    "key": "MD62TVCE",
                    "version": 2437,
                    "itemType": "map",
                    "title": "",
                    "creators": [],
                    "abstractNote": "",
                    "mapType": "",
                    "scale": "",
                    "seriesTitle": "",
                    "edition": "",
                    "place": "",
                    "publisher": "",
                    "date": "",
                    "language": "",
                    "ISBN": "",
                    "shortTitle": "",
                    "url": "",
                    "accessDate": "",
                    "archive": "",
                    "archiveLocation": "",
                    "libraryCatalog": "",
                    "callNumber": "",
                    "rights": "",
                    "extra": "",
                    "tags": [],
                    "collections": [
                        "TYPDZEZF"
                    ],
                    "relations": {},
                    "dateAdded": "2019-10-01T13:35:01Z",
                    "dateModified": "2019-10-01T13:35:01Z"
                }
            },
            {
                "key": "L77RMQ8J",
                "version": 2437,
                "library": {
                    "type": "user",
                    "id": 1000000,
                    "name": "john.doe",
                    "links": {
                        "alternate": {
                            "href": "https://www.zotero.org/john.doe",
                            "type": "text/html"
                        }
                    }
                },
                "links": {
                    "self": {
                        "href": "https://api.zotero.org/users/0000000/items/L77RMQ8J",
                        "type": "application/json"
                    },
                    "alternate": {
                        "href": "https://www.zotero.org/john.doe/items/L77RMQ8J",
                        "type": "text/html"
                    }
                },
                "meta": {
                    "numChildren": 0
                },
                "data": {
                    "key": "L77RMQ8J",
                    "version": 2437,
                    "itemType": "instantMessage",
                    "title": "",
                    "creators": [],
                    "abstractNote": "",
                    "date": "",
                    "language": "",
                    "shortTitle": "",
                    "url": "",
                    "accessDate": "",
                    "rights": "",
                    "extra": "",
                    "tags": [],
                    "collections": [
                        "TYPDZEZF"
                    ],
                    "relations": {},
                    "dateAdded": "2019-10-01T13:34:56Z",
                    "dateModified": "2019-10-01T13:34:56Z"
                }
            },
            {
                "key": "77NPSQY5",
                "version": 2437,
                "library": {
                    "type": "user",
                    "id": 1000000,
                    "name": "john.doe",
                    "links": {
                        "alternate": {
                            "href": "https://www.zotero.org/john.doe",
                            "type": "text/html"
                        }
                    }
                },
                "links": {
                    "self": {
                        "href": "https://api.zotero.org/users/0000000/items/77NPSQY5",
                        "type": "application/json"
                    },
                    "alternate": {
                        "href": "https://www.zotero.org/john.doe/items/77NPSQY5",
                        "type": "text/html"
                    }
                },
                "meta": {
                    "numChildren": 0
                },
                "data": {
                    "key": "77NPSQY5",
                    "version": 2437,
                    "itemType": "hearing",
                    "title": "",
                    "creators": [],
                    "abstractNote": "",
                    "committee": "",
                    "place": "",
                    "publisher": "",
                    "numberOfVolumes": "",
                    "documentNumber": "",
                    "pages": "",
                    "legislativeBody": "",
                    "session": "",
                    "history": "",
                    "date": "",
                    "language": "",
                    "shortTitle": "",
                    "url": "",
                    "accessDate": "",
                    "rights": "",
                    "extra": "",
                    "tags": [],
                    "collections": [
                        "TYPDZEZF"
                    ],
                    "relations": {},
                    "dateAdded": "2019-10-01T13:34:50Z",
                    "dateModified": "2019-10-01T13:34:50Z"
                }
            },
            {
                "key": "3L59IWHK",
                "version": 2437,
                "library": {
                    "type": "user",
                    "id": 1000000,
                    "name": "john.doe",
                    "links": {
                        "alternate": {
                            "href": "https://www.zotero.org/john.doe",
                            "type": "text/html"
                        }
                    }
                },
                "links": {
                    "self": {
                        "href": "https://api.zotero.org/users/0000000/items/3L59IWHK",
                        "type": "application/json"
                    },
                    "alternate": {
                        "href": "https://www.zotero.org/john.doe/items/3L59IWHK",
                        "type": "text/html"
                    }
                },
                "meta": {
                    "numChildren": 0
                },
                "data": {
                    "key": "3L59IWHK",
                    "version": 2437,
                    "itemType": "statute",
                    "nameOfAct": "",
                    "creators": [],
                    "abstractNote": "",
                    "code": "",
                    "codeNumber": "",
                    "publicLawNumber": "",
                    "dateEnacted": "",
                    "pages": "",
                    "section": "",
                    "session": "",
                    "history": "",
                    "language": "",
                    "shortTitle": "",
                    "url": "",
                    "accessDate": "",
                    "rights": "",
                    "extra": "",
                    "tags": [],
                    "collections": [
                        "TYPDZEZF"
                    ],
                    "relations": {},
                    "dateAdded": "2019-10-01T13:34:43Z",
                    "dateModified": "2019-10-01T13:34:43Z"
                }
            },
            {
                "key": "QFRII6XJ",
                "version": 2437,
                "library": {
                    "type": "user",
                    "id": 1000000,
                    "name": "john.doe",
                    "links": {
                        "alternate": {
                            "href": "https://www.zotero.org/john.doe",
                            "type": "text/html"
                        }
                    }
                },
                "links": {
                    "self": {
                        "href": "https://api.zotero.org/users/0000000/items/QFRII6XJ",
                        "type": "application/json"
                    },
                    "alternate": {
                        "href": "https://www.zotero.org/john.doe/items/QFRII6XJ",
                        "type": "text/html"
                    }
                },
                "meta": {
                    "numChildren": 0
                },
                "data": {
                    "key": "QFRII6XJ",
                    "version": 2437,
                    "itemType": "case",
                    "caseName": "",
                    "creators": [],
                    "abstractNote": "",
                    "reporter": "",
                    "reporterVolume": "",
                    "court": "",
                    "docketNumber": "",
                    "firstPage": "",
                    "history": "",
                    "dateDecided": "",
                    "language": "",
                    "shortTitle": "",
                    "url": "",
                    "accessDate": "",
                    "rights": "",
                    "extra": "",
                    "tags": [],
                    "collections": [
                        "TYPDZEZF"
                    ],
                    "relations": {},
                    "dateAdded": "2019-10-01T13:34:40Z",
                    "dateModified": "2019-10-01T13:34:40Z"
                }
            },
            {
                "key": "K36LXQI5",
                "version": 2437,
                "library": {
                    "type": "user",
                    "id": 1000000,
                    "name": "john.doe",
                    "links": {
                        "alternate": {
                            "href": "https://www.zotero.org/john.doe",
                            "type": "text/html"
                        }
                    }
                },
                "links": {
                    "self": {
                        "href": "https://api.zotero.org/users/1000000/items/K36LXQI5",
                        "type": "application/json"
                    },
                    "alternate": {
                        "href": "https://www.zotero.org/john.doe/items/K36LXQI5",
                        "type": "text/html"
                    }
                },
                "meta": {
                    "numChildren": 0
                },
                "data": {
                    "key": "K36LXQI5",
                    "version": 2437,
                    "itemType": "bill",
                    "title": "",
                    "creators": [],
                    "abstractNote": "",
                    "billNumber": "",
                    "code": "",
                    "codeVolume": "",
                    "section": "",
                    "codePages": "",
                    "legislativeBody": "",
                    "session": "",
                    "history": "",
                    "date": "",
                    "language": "",
                    "url": "",
                    "accessDate": "",
                    "shortTitle": "",
                    "rights": "",
                    "extra": "",
                    "tags": [],
                    "collections": [
                        "TYPDZEZF"
                    ],
                    "relations": {},
                    "dateAdded": "2019-10-01T13:34:30Z",
                    "dateModified": "2019-10-01T13:34:30Z"
                }
            }
        ]
        "#;
    let arr = parse(input);
    match &arr {
        JsonValue::Arr(elems) => {
            for e in elems {
                Item::decode(e).expect("Failed to parse zotero data");
            }
        }
        _ => panic!("Failed to parse zotero data"),
    }
    assert!(true);
}

#[test]
fn test_item_deserialization() {
    let input = r#"
            {
                "key": "K36LXQI5",
                "version": 2437,
                "library": {
                    "type": "user",
                    "id": 1000000,
                    "name": "john.doe",
                    "links": {
                        "alternate": {
                            "href": "https://www.zotero.org/john.doe",
                            "type": "text/html"
                        }
                    }
                },
                "links": {
                    "self": {
                        "href": "https://api.zotero.org/users/1000000/items/K36LXQI5",
                        "type": "application/json"
                    },
                    "alternate": {
                        "href": "https://www.zotero.org/john.doe/items/K36LXQI5",
                        "type": "text/html"
                    }
                },
                "meta": {
                    "numChildren": 0
                },
                "data": {
                    "key": "K36LXQI5",
                    "version": 2437,
                    "itemType": "bill",
                    "title": "",
                    "creators": [],
                    "abstractNote": "",
                    "billNumber": "",
                    "code": "",
                    "codeVolume": "",
                    "section": "",
                    "codePages": "",
                    "legislativeBody": "",
                    "session": "",
                    "history": "",
                    "date": "",
                    "language": "",
                    "url": "",
                    "accessDate": "",
                    "shortTitle": "",
                    "rights": "",
                    "extra": "",
                    "tags": [],
                    "collections": [
                        "TYPDZEZF"
                    ],
                    "relations": {},
                    "dateAdded": "2019-10-01T13:34:30Z",
                    "dateModified": "2019-10-01T13:34:30Z"
                }
            }
        "#;

    Item::decode(&parse(input)).expect("Failed to deserialize item");
    assert!(true);
}

#[test]
fn test_deserialize_creators() {
    let expected_output = Creator {
        creator_type: "author".into(),
        first_name: "John".into(),
        last_name: "Doe".into(),
    };

    let input = r#"
        {
            "creatorType": "author",
            "firstName": "John",
            "lastName": "Doe"
        }
        "#;

    let result = Creator::decode(&parse(input)).unwrap();
    assert_eq!(result, expected_output);
}

#[test]
fn test_item_meta_deserialization() {
    let expected_output = ItemMeta {
        creator_summary: Some("Lorem".into()),
        parsed_date: Some("25-2-2019".into()),
        num_children: Some(SizeOrBool::Size(1)),
        num_collections: Some(1),
        num_items: Some(0),
    };

    let input = r#"
        {
            "creatorSummary" : "Lorem",
            "parsedDate": "25-2-2019",
            "numChildren": 1,
            "numCollections": 1,
            "numItems": 0
        }
    "#;

    let result = ItemMeta::decode(&parse(input)).unwrap();
    assert_eq!(result, expected_output);
}

#[test]
fn discriminator_selects_each_variant() {
    let cases: Vec<(&str, RecordKind)> = vec![
        ("artwork", RecordKind::Artwork),
        ("audioRecording", RecordKind::AudioRecording),
        ("bill", RecordKind::Bill),
        ("blogPost", RecordKind::BlogPost),
        ("book", RecordKind::Book),
        ("bookSection", RecordKind::BookSection),
        ("case", RecordKind::Case),
        ("computerProgram", RecordKind::ComputerProgram),
        ("conferencePaper", RecordKind::ConferencePaper),
        ("dictionaryEntry", RecordKind::DictionaryEntry),
        ("document", RecordKind::Document),
        ("email", RecordKind::Email),
        ("encyclopediaArticle", RecordKind::EncyclopediaArticle),
        ("film", RecordKind::Film),
        ("forumPost", RecordKind::ForumPost),
        ("hearing", RecordKind::Hearing),
        ("instantMessage", RecordKind::InstantMessage),
        ("interview", RecordKind::Interview),
        ("journalArticle", RecordKind::JournalArticle),
        ("letter", RecordKind::Letter),
        ("magazineArticle", RecordKind::MagazineArticle),
        ("manuscript", RecordKind::Manuscript),
        ("map", RecordKind::MapItem),
        ("newspaperArticle", RecordKind::NewspaperArticle),
        ("patent", RecordKind::Patent),
        ("podcast", RecordKind::Podcast),
        ("presentation", RecordKind::Presentation),
        ("radioBroadcast", RecordKind::RadioBroadcast),
        ("report", RecordKind::Report),
        ("statute", RecordKind::Statute),
        ("thesis", RecordKind::Thesis),
        ("tvBroadcast", RecordKind::TvBroadcast),
        ("videoRecording", RecordKind::VideoRecording),
        ("webpage", RecordKind::Webpage),
        ("attachment", RecordKind::Attachment),
        ("note", RecordKind::Note),
    ];
    for (tag, kind) in cases {
        let v = JsonValue::Obj(vec![("itemType".to_string(), JsonValue::Str(tag.to_string()))]);
        let decoded = ItemType::decode(&v).expect(tag);
        assert_eq!(decoded.kind(), kind);
        assert!(decoded.record().item_type == tag);
    }
}

#[test]
fn unknown_discriminator_is_rejected() {
    let v = JsonValue::Obj(vec![(
        "itemType".to_string(),
        JsonValue::Str("paperweight".to_string()),
    )]);
    match ItemType::decode(&v) {
        Err(ZoteroApiError::UnknownVariant(tag)) => assert_eq!(tag, "paperweight"),
        _ => panic!("an unknown discriminator must be rejected as such"),
    }
}

#[test]
fn parent_collection_false_means_no_parent() {
    let p = StringOrBool::decode(&JsonValue::Bool(false)).unwrap();
    assert_eq!(p, StringOrBool::Bool(false));
}

#[test]
fn parent_collection_string_is_a_parent_key() {
    let p = StringOrBool::decode(&JsonValue::Str("ABCD1234".to_string())).unwrap();
    assert_eq!(p, StringOrBool::Key("ABCD1234".to_string()));
    let bad = StringOrBool::decode(&JsonValue::Obj(vec![]));
    assert!(bad.is_err());
}

#[test]
fn num_children_zero_is_a_count_without_children() {
    let v = JsonValue::Obj(vec![("numChildren".to_string(), JsonValue::Int(0))]);
    let m = ItemMeta::decode(&v).unwrap();
    assert_eq!(m.num_children, Some(SizeOrBool::Size(0)));
    assert!(!m.has_children());
}

#[test]
fn num_children_five_means_children() {
    let v = JsonValue::Obj(vec![("numChildren".to_string(), JsonValue::Int(5))]);
    let m = ItemMeta::decode(&v).unwrap();
    assert_eq!(m.num_children, Some(SizeOrBool::Size(5)));
    assert!(m.has_children());
}

#[test]
fn num_children_false_means_unknown() {
    let v = JsonValue::Obj(vec![("numChildren".to_string(), JsonValue::Bool(false))]);
    let m = ItemMeta::decode(&v).unwrap();
    assert_eq!(m.num_children, Some(SizeOrBool::Bool(false)));
    assert!(!m.has_children());
}

#[test]
fn int_or_bool_decodes_by_native_type() {
    assert_eq!(IntOrBool::decode(&JsonValue::Bool(false)).unwrap(), IntOrBool::Bool(false));
    assert_eq!(IntOrBool::decode(&JsonValue::Int(7)).unwrap(), IntOrBool::Int(7));
    assert!(IntOrBool::decode(&JsonValue::Str("7".to_string())).is_err());
    assert_eq!(IntOrBool::default(), IntOrBool::Bool(false));
    assert_eq!(StringOrBool::default(), StringOrBool::Bool(false));
}

#[test]
fn negative_num_children_is_malformed() {
    let v = JsonValue::Obj(vec![("numChildren".to_string(), JsonValue::Int(-5))]);
    match ItemMeta::decode(&v) {
        Err(ZoteroApiError::ParseResponseError(_)) => {}
        _ => panic!("a negative numChildren is a malformed ambiguous field"),
    }
}

#[test]
fn envelope_and_payload_identity_must_agree() {
    let base = r#"
        {
            "key": "AAAA1111",
            "version": 10,
            "library": {
                "type": "user",
                "id": 1,
                "name": "john.doe",
                "links": {
                    "alternate": {
                        "href": "https://www.zotero.org/john.doe",
                        "type": "text/html"
                    }
                }
            },
            "links": {
                "alternate": {
                    "href": "https://www.zotero.org/john.doe/items/AAAA1111",
                    "type": "text/html"
                }
            },
            "meta": {},
            "data": {
                "key": "BBBB2222",
                "version": 10,
                "itemType": "book",
                "tags": [],
                "relations": {}
            }
        }
    "#;
    match Item::decode(&parse(base)) {
        Err(ZoteroApiError::ParseResponseError(_)) => {}
        _ => panic!("an envelope whose data carries another key must be rejected"),
    }
    let matching = base.replace("BBBB2222", "AAAA1111");
    let item = Item::decode(&parse(&matching)).unwrap();
    assert_eq!(item.key(), "AAAA1111");
    let wrong_version = matching.replace("\"version\": 10,\n                \"itemType\"", "\"version\": 11,\n                \"itemType\"");
    match Item::decode(&parse(&wrong_version)) {
        Err(ZoteroApiError::ParseResponseError(_)) => {}
        _ => panic!("an envelope whose data carries another version must be rejected"),
    }
}
