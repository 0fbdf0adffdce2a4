use tonic2axum::config::GeneratorConfig;
use tonic2axum::emit::{FunctionParts, ServiceType, ValueNames};
use tonic2axum::errors::GenError;
use tonic2axum::http::{HttpOption, HttpVerb, MessageHandling};
use tonic2axum::message::{DocComments, ExistingMessages, Field, Message, NewMessages};

fn field(name: &str, ty: &str) -> Field {
    Field::new(name.to_string(), ty.to_string(), DocComments::new())
}

fn details_for(
    pattern: &str,
    body: Option<&str>,
    fields: Vec<Field>,
) -> tonic2axum::http::MethodDetails {
    let config = GeneratorConfig::default();
    let existing = ExistingMessages::new();
    let mut reg = NewMessages::new();
    let mut m = Message::new("Items".to_string(), DocComments::new());
    m.add_fields(fields);
    let o = HttpOption {
        verb: HttpVerb::Get,
        pattern: pattern.to_string(),
        body: body.map(|b| b.to_string()),
    };
    o.parse(&m, &existing, &mut reg, &config).unwrap()
}

#[test]
fn value_names_carry_the_suffix() {
    let names = ValueNames::new("__");
    let (req, headers, extensions, state) = names.names();
    assert_eq!(req, &"req__".to_string());
    assert_eq!(headers, &"headers__".to_string());
    assert_eq!(extensions, &"extensions__".to_string());
    assert_eq!(state, &"state__".to_string());
}

#[test]
fn custom_state_type_imports_the_trait() {
    let state = tonic2axum::config::StateType::Custom("MyState".to_string());
    let st = ServiceType::new("ItemService", Some(&state));
    assert_eq!(st.state_type_name(), &"MyState".to_string());
    assert!(st.handler_generics().is_none());
    assert!(st.handler_route_turbofish().is_none());
    assert_eq!(
        st.use_trait().unwrap(),
        &"use super::item_service_server::ItemService as _;".to_string()
    );
}

#[test]
fn generic_state_type_is_bounded_by_the_service_trait() {
    let state = tonic2axum::config::StateType::Generic;
    let st = ServiceType::new("ItemService", Some(&state));
    assert_eq!(st.state_type_name(), &"S".to_string());
    assert_eq!(st.handler_route_turbofish().unwrap(), &"::<S>".to_string());
    assert_eq!(
        st.handler_generics().unwrap(),
        &"<S: super::item_service_server::ItemService>".to_string()
    );
    assert_eq!(
        st.router_generics().unwrap(),
        &"<S: item_service_server::ItemService + Clone>".to_string()
    );
    assert!(st.use_trait().is_none());
}

#[test]
fn default_state_type_is_a_shared_trait_object() {
    let st = ServiceType::new("ItemService", None);
    assert_eq!(
        st.state_type_name(),
        &"Arc<dyn super::item_service_server::ItemService>".to_string()
    );
    assert!(st.handler_generics().is_none());
    assert!(st.use_trait().is_none());
}

#[test]
fn extractors_follow_the_partition() {
    let d = details_for("/items/{id}", None, vec![field("id", "u32"), field("name", "String")]);
    let req = "req__".to_string();
    let parts = FunctionParts::new("get_item", &d, "Items", false, &req).unwrap();
    assert_eq!(parts.path_extractor.unwrap(), "    Path(id): Path<u32>,\n".to_string());
    assert_eq!(
        parts.query_extractor.unwrap(),
        "    Query(super::ItemsQuery__ { name }): Query<super::ItemsQuery__>,\n".to_string()
    );
    assert!(parts.body_extractor.is_none());
    assert_eq!(
        parts.request_builder.unwrap(),
        "    let req__ = super::Items { id, name };\n".to_string()
    );
}

#[test]
fn verbatim_body_needs_no_request_builder() {
    let d = details_for("/items", Some("*"), vec![field("id", "u32")]);
    let req = "req__".to_string();
    let parts = FunctionParts::new("get_item", &d, "Items", false, &req).unwrap();
    assert!(parts.path_extractor.is_none());
    assert!(parts.query_extractor.is_none());
    assert_eq!(parts.body_extractor.unwrap(), "    req__: Json<super::Items>,\n".to_string());
    assert!(parts.request_builder.is_none());
}

#[test]
fn client_streaming_verbatim_body_uses_json_lines() {
    let d = details_for("/items", Some("*"), vec![field("id", "u32")]);
    let req = "req__".to_string();
    let parts = FunctionParts::new("put_items", &d, "Items", true, &req).unwrap();
    assert!(parts.verbatim_request());
    assert_eq!(
        parts.body_extractor.unwrap(),
        "    req__: JsonLines<super::Items>,\n".to_string()
    );
}

#[test]
fn client_streaming_with_path_extractors_is_rejected() {
    // A client-streaming method whose template carries a placeholder
    // must fail, never silently drop it.
    let d = details_for("/items/{id}", Some("*"), vec![field("id", "u32"), field("n", "u32")]);
    let req = "req__".to_string();
    let e = FunctionParts::new("put_items", &d, "Items", true, &req).unwrap_err();
    match e {
        GenError::ClientStreamingExtractors(m) => {
            assert_eq!(m, "put_items".to_string());
            assert_eq!(
                GenError::ClientStreamingExtractors(m).to_text(),
                "Client streaming methods are not supported with query or path parameters: (Method: put_items)".to_string()
            );
        },
        _ => panic!("expected the client-streaming rejection"),
    }
}

#[test]
fn client_streaming_with_query_extractors_is_rejected() {
    // Any query binding counts, destructured or verbatim: a
    // client-streaming method with either is rejected.
    let destructured = {
        let config = GeneratorConfig::default();
        let existing = ExistingMessages::new();
        let mut reg = NewMessages::new();
        let mut m = Message::new("Items".to_string(), DocComments::new());
        m.add_fields(vec![field("id", "u32"), field("n", "u32")]);
        let o = HttpOption {
            verb: HttpVerb::Get,
            pattern: "/items/{id}".to_string(),
            body: None,
        };
        o.parse(&m, &existing, &mut reg, &config).unwrap()
    };
    let req = "req__".to_string();
    assert!(FunctionParts::new("put_items", &destructured, "Items", true, &req).is_err());
    // A verbatim query (intact message, no body spec) is rejected for
    // a client-streaming method too, never silently dropped.
    let verbatim = details_for("/items", None, vec![field("id", "u32"), field("n", "u32")]);
    match verbatim.query_str.as_ref().unwrap().handling {
        MessageHandling::VerbatimRequest => {},
        _ => panic!("expected the intact message as query verbatim"),
    }
    match FunctionParts::new("put_items", &verbatim, "Items", true, &req).unwrap_err() {
        GenError::ClientStreamingExtractors(m) => assert_eq!(m, "put_items".to_string()),
        _ => panic!("expected the client-streaming rejection"),
    }
    // Without client streaming the verbatim query binds the request
    // name directly.
    let parts = FunctionParts::new("list", &verbatim, "Items", false, &req).unwrap();
    assert_eq!(parts.query_extractor.unwrap(), "    req__: Query<super::Items>,\n".to_string());
}

#[test]
fn single_field_body_extractor_destructures_the_wrapper() {
    let config = GeneratorConfig::default();
    let mut existing = ExistingMessages::new();
    let mut fm = Message::new("FilterMsg".to_string(), DocComments::new());
    fm.add_field(field("term", "String"));
    existing.add_message(fm);
    let mut reg = NewMessages::new();
    let mut m = Message::new("Search".to_string(), DocComments::new());
    m.add_field(field("filter", "FilterMsg"));
    let o = HttpOption { verb: HttpVerb::Get, pattern: "/search".to_string(), body: Some("filter".to_string()) };
    let d = o.parse(&m, &existing, &mut reg, &config).unwrap();
    let req = "req__".to_string();
    let parts = FunctionParts::new("search", &d, "Search", false, &req).unwrap();
    assert_eq!(
        parts.body_extractor.unwrap(),
        "    Json(super::FilterMsg { filter }): Json<super::FilterMsg>,\n".to_string()
    );
    assert_eq!(
        parts.request_builder.unwrap(),
        "    let req__ = super::Search { filter };\n".to_string()
    );
}
