use tonic2axum::config::GeneratorConfig;
use tonic2axum::errors::GenError;
use tonic2axum::http::{HttpOption, HttpVerb, MessageHandling};
use tonic2axum::message::{DocComments, ExistingMessages, Field, Message, NewMessages};

fn field(name: &str, ty: &str) -> Field {
    Field::new(name.to_string(), ty.to_string(), DocComments::new())
}

fn message(name: &str, fields: Vec<Field>) -> Message {
    let mut m = Message::new(name.to_string(), DocComments::new());
    m.add_fields(fields);
    m
}

fn option(verb: HttpVerb, pattern: &str, body: Option<&str>) -> HttpOption {
    HttpOption { verb, pattern: pattern.to_string(), body: body.map(|b| b.to_string()) }
}

#[test]
fn scenario_path_and_query() {
    // Input `{id: u32, name: String}` under `GET /items/{id}` with no
    // body: the path binds `id`, there is no body, and the remainder
    // is not intact, so the query is a synthesized struct.
    let config = GeneratorConfig::default();
    let existing = ExistingMessages::new();
    let mut reg = NewMessages::new();
    let m = message("Items", vec![field("id", "u32"), field("name", "String")]);
    let o = option(HttpVerb::Get, "/items/{id}", None);
    let d = o.parse(&m, &existing, &mut reg, &config).unwrap();
    assert_eq!(d.path, "/items/{id}".to_string());
    assert!(matches!(d.verb, HttpVerb::Get));
    assert_eq!(d.path_fields.len(), 1);
    assert_eq!(d.path_fields[0].name, "id".to_string());
    assert!(d.body.is_none());
    let q = d.query_str.unwrap();
    assert_eq!(q.type_text, "ItemsQuery__".to_string());
    match q.handling {
        MessageHandling::ExtractFields(names) => {
            assert_eq!(names, vec!["name".to_string()]);
        },
        _ => panic!("expected a synthesized query struct"),
    }
    // Partition completeness for this binding: path and query names
    // together are exactly the input's field set.
    assert_eq!(reg.query_messages().len(), 1);
}

#[test]
fn scenario_single_field_body_verbatim() {
    // Input `{name: String}` under `POST /items` with body `name`:
    // the message was intact with exactly this one field, so the body
    // is the original type verbatim and nothing is synthesized.
    let config = GeneratorConfig::default();
    let existing = ExistingMessages::new();
    let mut reg = NewMessages::new();
    let m = message("Items", vec![field("name", "String")]);
    let o = option(HttpVerb::Post, "/items", Some("name"));
    let d = o.parse(&m, &existing, &mut reg, &config).unwrap();
    assert!(d.path_fields.is_empty());
    let b = d.body.unwrap();
    assert_eq!(b.type_text, "Items".to_string());
    assert!(matches!(b.handling, MessageHandling::VerbatimRequest));
    assert!(d.query_str.is_none());
    assert_eq!(reg.body_messages().len(), 0);
    assert_eq!(reg.query_messages().len(), 0);
}

#[test]
fn scenario_nested_message_body() {
    // Input `{filter: FilterMsg}` where `FilterMsg` is itself a known
    // message: the body binds the nested type directly, with no fresh
    // wrapper struct.
    let config = GeneratorConfig::default();
    let mut existing = ExistingMessages::new();
    existing.add_message(message("FilterMsg", vec![field("term", "String")]));
    let mut reg = NewMessages::new();
    let m = message("Search", vec![field("filter", "FilterMsg")]);
    let o = option(HttpVerb::Get, "/search", Some("filter"));
    let d = o.parse(&m, &existing, &mut reg, &config).unwrap();
    let b = d.body.unwrap();
    assert_eq!(b.type_text, "FilterMsg".to_string());
    match b.handling {
        MessageHandling::ExtractSingleField(name) => assert_eq!(name, "filter".to_string()),
        _ => panic!("expected the nested message to be bound directly"),
    }
    assert_eq!(reg.body_messages().len(), 0);
}

#[test]
fn wildcard_body_of_intact_message_is_verbatim() {
    // No path fields and a wildcard body over a never-partially-bound
    // message: the body is the original type verbatim; no synthesized
    // struct is created.
    let config = GeneratorConfig::default();
    let existing = ExistingMessages::new();
    let mut reg = NewMessages::new();
    let m = message("Items", vec![field("id", "u32"), field("name", "String")]);
    let o = option(HttpVerb::Post, "/items", Some("*"));
    let d = o.parse(&m, &existing, &mut reg, &config).unwrap();
    let b = d.body.unwrap();
    assert_eq!(b.type_text, "Items".to_string());
    assert!(matches!(b.handling, MessageHandling::VerbatimRequest));
    assert!(d.query_str.is_none());
    assert_eq!(reg.body_messages().len(), 0);
}

#[test]
fn wildcard_body_after_path_extraction_synthesizes() {
    // A path placeholder removed a field first, so the wildcard body
    // covers only the remainder through a synthesized struct.
    let config = GeneratorConfig::default();
    let existing = ExistingMessages::new();
    let mut reg = NewMessages::new();
    let m = message("Items", vec![field("id", "u32"), field("name", "String")]);
    let o = option(HttpVerb::Put, "/items/{id}", Some("*"));
    let d = o.parse(&m, &existing, &mut reg, &config).unwrap();
    assert_eq!(d.path_fields.len(), 1);
    let b = d.body.unwrap();
    assert_eq!(b.type_text, "ItemsBody__".to_string());
    match b.handling {
        MessageHandling::ExtractFields(names) => assert_eq!(names, vec!["name".to_string()]),
        _ => panic!("expected a synthesized body struct"),
    }
    assert!(d.query_str.is_none());
}

#[test]
fn single_field_body_with_siblings_synthesizes() {
    // A named body field of a multi-field message, not itself a known
    // message type: a single-field struct is synthesized and the rest
    // goes to the query.
    let config = GeneratorConfig::default();
    let existing = ExistingMessages::new();
    let mut reg = NewMessages::new();
    let m = message("Items", vec![field("id", "u32"), field("name", "String")]);
    let o = option(HttpVerb::Post, "/items", Some("name"));
    let d = o.parse(&m, &existing, &mut reg, &config).unwrap();
    let b = d.body.unwrap();
    assert_eq!(b.type_text, "ItemsBody__".to_string());
    match b.handling {
        MessageHandling::ExtractFields(names) => assert_eq!(names, vec!["name".to_string()]),
        _ => panic!("expected a synthesized body struct"),
    }
    let q = d.query_str.unwrap();
    assert_eq!(q.type_text, "ItemsQuery__".to_string());
    match q.handling {
        MessageHandling::ExtractFields(names) => assert_eq!(names, vec!["id".to_string()]),
        _ => panic!("expected a synthesized query struct"),
    }
}

#[test]
fn intact_remainder_is_query_verbatim() {
    // No path fields and no body: the whole intact message is the
    // query verbatim.
    let config = GeneratorConfig::default();
    let existing = ExistingMessages::new();
    let mut reg = NewMessages::new();
    let m = message("Items", vec![field("id", "u32")]);
    let o = option(HttpVerb::Get, "/items", None);
    let d = o.parse(&m, &existing, &mut reg, &config).unwrap();
    assert!(d.body.is_none());
    let q = d.query_str.unwrap();
    assert_eq!(q.type_text, "Items".to_string());
    assert!(matches!(q.handling, MessageHandling::VerbatimRequest));
    assert_eq!(reg.query_messages().len(), 0);
}

#[test]
fn missing_path_field_is_an_error_naming_it() {
    let config = GeneratorConfig::default();
    let existing = ExistingMessages::new();
    let mut reg = NewMessages::new();
    let m = message("Items", vec![field("id", "u32")]);
    let o = option(HttpVerb::Get, "/items/{absent}", None);
    let e = o.parse(&m, &existing, &mut reg, &config).unwrap_err();
    match e {
        GenError::PathFieldNotFound(name) => {
            assert_eq!(name, "absent".to_string());
        },
        _ => panic!("expected a path binding-reference error"),
    }
    let text = o.parse(&m, &existing, &mut reg, &config).unwrap_err().to_text();
    assert_eq!(text, "Path field not found: absent".to_string());
}

#[test]
fn missing_body_field_is_an_error_naming_it() {
    let config = GeneratorConfig::default();
    let existing = ExistingMessages::new();
    let mut reg = NewMessages::new();
    let m = message("Items", vec![field("id", "u32")]);
    let o = option(HttpVerb::Post, "/items", Some("absent"));
    let e = o.parse(&m, &existing, &mut reg, &config).unwrap_err();
    match e {
        GenError::BodyFieldNotFound(name) => {
            assert_eq!(name, "absent".to_string());
            let text = GenError::BodyFieldNotFound(name).to_text();
            assert_eq!(text, "Field not found: absent".to_string());
        },
        _ => panic!("expected a body binding-reference error"),
    }
}

#[test]
fn zero_field_message_counts_as_intact() {
    // A message with zero fields to begin with is vacuously intact:
    // the wildcard body reuses it verbatim.
    let config = GeneratorConfig::default();
    let existing = ExistingMessages::new();
    let mut reg = NewMessages::new();
    let m = message("Empty", vec![]);
    let o = option(HttpVerb::Post, "/empty", Some("*"));
    let d = o.parse(&m, &existing, &mut reg, &config).unwrap();
    let b = d.body.unwrap();
    assert_eq!(b.type_text, "Empty".to_string());
    assert!(matches!(b.handling, MessageHandling::VerbatimRequest));
    assert!(d.query_str.is_none());
    assert_eq!(reg.body_messages().len(), 0);
}

#[test]
fn resolution_does_not_disturb_the_shared_message() {
    // The resolver works on a private clone: the caller's message
    // keeps all its fields.
    let config = GeneratorConfig::default();
    let existing = ExistingMessages::new();
    let mut reg = NewMessages::new();
    let m = message("Items", vec![field("id", "u32"), field("name", "String")]);
    let o = option(HttpVerb::Get, "/items/{id}", None);
    let _ = o.parse(&m, &existing, &mut reg, &config).unwrap();
    assert_eq!(m.fields().len(), 2);
    assert!(m.is_intact());
}

#[test]
fn build_path_returns_the_template_verbatim() {
    let o = option(HttpVerb::Get, "/items/{id}", None);
    assert_eq!(o.build_path(), "/items/{id}".to_string());
}

#[test]
fn build_request_reflects_piecemeal_extraction() {
    let config = GeneratorConfig::default();
    let existing = ExistingMessages::new();
    let mut reg = NewMessages::new();
    // Verbatim body, nothing extracted: no request rebuilding.
    let m = message("Items", vec![field("id", "u32")]);
    let o = option(HttpVerb::Post, "/items", Some("*"));
    let d = o.parse(&m, &existing, &mut reg, &config).unwrap();
    assert!(!d.build_request());
    assert!(!d.body.as_ref().unwrap().build_request());
    // A path-bound field forces the request to be rebuilt.
    let m = message("Items", vec![field("id", "u32"), field("name", "String")]);
    let o = option(HttpVerb::Get, "/items/{id}", None);
    let d = o.parse(&m, &existing, &mut reg, &config).unwrap();
    assert!(d.build_request());
    assert!(d.query_str.as_ref().unwrap().build_request());
}
