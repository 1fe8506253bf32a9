//! Decoding the shared field set: links, link sets and the library
//! descriptor.

use zotero::json::JsonValue;
use zotero::shared_fields::Library;
use zotero::shared_fields::Link;
use zotero::shared_fields::Links;

/// Builds the library's JSON model from a parsed serde_json tree.
fn jv(v: &serde_json::Value) -> JsonValue {
    match v {
        serde_json::Value::Null => JsonValue::Null,
        serde_json::Value::Bool(b) => JsonValue::Bool(*b),
        serde_json::Value::Number(n) => JsonValue::Int(n.as_i64().unwrap()),
        serde_json::Value::String(s) => JsonValue::Str(s.clone()),
        serde_json::Value::Array(a) => JsonValue::Arr(a.iter().map(jv).collect()),
        serde_json::Value::Object(o) => {
            JsonValue::Obj(o.iter().map(|(k, x)| (k.clone(), jv(x))).collect())
        }
    }
}

fn parse(input: &str) -> JsonValue {
    jv(&serde_json::from_str::<serde_json::Value>(input).unwrap())
}

#[test]
fn link_deserialization() {
    let expected_output = Link {
        href: "https://www.zotero.org/john.doe".into(),
        link_type: "text/html".into(),
    };

    let input = r#"
        {
            "href": "https://www.zotero.org/john.doe",
            "type": "text/html"
        }
    "#;

    let result = Link::decode(&parse(input)).unwrap();
    assert_eq!(result, expected_output);
}

#[test]
fn library_deserialization() {
    let link_0 = Link {
        href: "https://api.zotero.org/users/123456789/items/Q8GNE36F".into(),
        link_type: "application/json".into(),
    };

    let link_1 = Link {
        href: "https://www.zotero.org/john.doe/items/Q8GNE36F".into(),
        link_type: "text/html".into(),
    };

    let expected_output = Links {
        self_link: Some(link_0),
        alternate: link_1,
        up: None,
    };

    let input = r#"
        {
            "self": {
                "href": "https://api.zotero.org/users/123456789/items/Q8GNE36F",
                "type": "application/json"
            },
            "alternate": {
                "href": "https://www.zotero.org/john.doe/items/Q8GNE36F",
                "type": "text/html"
            }
        }
    "#;

    let result = Links::decode(&parse(input)).unwrap();
    assert_eq!(result, expected_output);
}

#[test]
fn links_deserialization() {
    let link_0 = Link {
        href: "https://www.zotero.org/john.doe".into(),
        link_type: "text/html".into(),
    };

    let expected_output = Library {
        library_type: "user".into(),
        id: 123456789,
        name: "john.doe".into(),
        links: Links {
            alternate: link_0,
            self_link: None,
            up: None,
        },
    };

    let input = r#"
        {
            "type": "user",
            "id": 123456789,
            "name": "john.doe",
            "links": {
                "alternate": {
                    "href": "https://www.zotero.org/john.doe",
                    "type": "text/html"
                }
            }
    }
    "#;

    let result = Library::decode(&parse(input)).unwrap();
    assert_eq!(result, expected_output);
}
