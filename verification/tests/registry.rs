use tonic2axum::config::GeneratorConfig;
use tonic2axum::message::{DocComments, Field, Message, NewMessages};

fn field(name: &str, ty: &str) -> Field {
    Field::new(name.to_string(), ty.to_string(), DocComments::new())
}

#[test]
fn dedup_is_idempotent() {
    // The same origin with an order-independently equal field set
    // returns the identical identifier both times, and only one
    // struct is ever recorded.
    let config = GeneratorConfig::default();
    let mut reg = NewMessages::new();
    let origin = "Items".to_string();
    let doc = DocComments::new();
    let first = reg.get_or_create_body_message(
        &origin,
        &doc,
        vec![field("id", "u32"), field("name", "String")],
        &config,
    );
    let second = reg.get_or_create_body_message(
        &origin,
        &doc,
        vec![field("name", "String"), field("id", "u32")],
        &config,
    );
    assert_eq!(first, "ItemsBody__".to_string());
    assert_eq!(first, second);
    assert_eq!(reg.body_messages().len(), 1);
}

#[test]
fn distinct_shapes_get_distinct_names() {
    // A different field set under the same origin allocates a second
    // variant carrying the numeric disambiguator.
    let config = GeneratorConfig::default();
    let mut reg = NewMessages::new();
    let origin = "Items".to_string();
    let doc = DocComments::new();
    let first = reg.get_or_create_body_message(&origin, &doc, vec![field("id", "u32")], &config);
    let second =
        reg.get_or_create_body_message(&origin, &doc, vec![field("name", "String")], &config);
    let third =
        reg.get_or_create_body_message(&origin, &doc, vec![field("when", "u64")], &config);
    assert_eq!(first, "ItemsBody__".to_string());
    assert_eq!(second, "ItemsBody2__".to_string());
    assert_eq!(third, "ItemsBody3__".to_string());
    assert!(first != second);
    assert_eq!(reg.body_messages().len(), 3);
}

#[test]
fn same_name_different_type_is_a_different_shape() {
    let config = GeneratorConfig::default();
    let mut reg = NewMessages::new();
    let origin = "Items".to_string();
    let doc = DocComments::new();
    let first = reg.get_or_create_body_message(&origin, &doc, vec![field("id", "u32")], &config);
    let second = reg.get_or_create_body_message(&origin, &doc, vec![field("id", "u64")], &config);
    assert!(first != second);
    assert_eq!(reg.body_messages().len(), 2);
}

#[test]
fn body_and_query_registries_are_independent() {
    // A body struct and a query struct for the same origin never
    // collide in name and never deduplicate against each other.
    let config = GeneratorConfig::default();
    let mut reg = NewMessages::new();
    let origin = "Items".to_string();
    let doc = DocComments::new();
    let body = reg.get_or_create_body_message(&origin, &doc, vec![field("id", "u32")], &config);
    let query = reg.get_or_create_query_message(&origin, &doc, vec![field("id", "u32")], &config);
    assert_eq!(body, "ItemsBody__".to_string());
    assert_eq!(query, "ItemsQuery__".to_string());
    assert_eq!(reg.body_messages().len(), 1);
    assert_eq!(reg.query_messages().len(), 1);
}

#[test]
fn separate_origins_use_separate_buckets() {
    let config = GeneratorConfig::default();
    let mut reg = NewMessages::new();
    let doc = DocComments::new();
    let a = reg.get_or_create_body_message(
        &"Alpha".to_string(),
        &doc,
        vec![field("x", "u32")],
        &config,
    );
    let b = reg.get_or_create_body_message(
        &"Beta".to_string(),
        &doc,
        vec![field("x", "u32")],
        &config,
    );
    // The first variant of each origin carries no number.
    assert_eq!(a, "AlphaBody__".to_string());
    assert_eq!(b, "BetaBody__".to_string());
}

#[test]
fn message_intactness_tracks_removals() {
    let mut m = Message::new("Items".to_string(), DocComments::new());
    m.add_fields(vec![field("id", "u32"), field("name", "String")]);
    assert!(m.is_intact());
    assert!(!m.intact_single_field());
    let removed = m.remove_field("id");
    assert!(removed.is_some());
    assert_eq!(removed.unwrap().name, "id".to_string());
    assert!(!m.is_intact());
    assert!(!m.is_empty());
    let rest = m.remove_all_fields();
    assert_eq!(rest.len(), 1);
    assert!(m.is_empty());
    // The original count survives removals.
    assert!(!m.is_intact());
}

#[test]
fn remove_field_missing_leaves_message_unchanged() {
    let mut m = Message::new("Items".to_string(), DocComments::new());
    m.add_field(field("id", "u32"));
    assert!(m.remove_field("absent").is_none());
    assert!(m.is_intact());
    assert_eq!(m.fields().len(), 1);
}

#[test]
fn same_fields_ignores_order_and_documentation() {
    let mut m = Message::new("Items".to_string(), DocComments::new());
    m.add_fields(vec![field("id", "u32"), field("name", "String")]);
    let documented = Field::new(
        "name".to_string(),
        "String".to_string(),
        DocComments::from_text("the display name"),
    );
    assert!(m.same_fields(&vec![documented, field("id", "u32")]));
    assert!(!m.same_fields(&vec![field("id", "u32")]));
    assert!(!m.same_fields(&vec![field("id", "u64"), field("name", "String")]));
}
