use tonic2axum::config::GeneratorConfig;
use tonic2axum::errors::GenError;
use tonic2axum::generator::{Generator, MethodModel, ServiceModel};
use tonic2axum::options::{ExtensionField, MethodDecl, OptionExtension, ServiceDecl};

fn http_extension(verb: &str, pattern: &str, body: Option<&str>) -> OptionExtension {
    let mut fields = vec![ExtensionField { name: verb.to_string(), value: pattern.to_string() }];
    if let Some(b) = body {
        fields.push(ExtensionField { name: "body".to_string(), value: b.to_string() });
    }
    OptionExtension { number: 72295728, fields }
}

fn decl(service: &str, methods: Vec<(&str, Vec<OptionExtension>)>) -> ServiceDecl {
    ServiceDecl {
        name: service.to_string(),
        methods: methods
            .into_iter()
            .map(|(name, extensions)| MethodDecl { name: name.to_string(), extensions })
            .collect(),
    }
}

fn method(name: &str, proto_name: &str, input: &str) -> MethodModel {
    MethodModel {
        name: name.to_string(),
        proto_name: proto_name.to_string(),
        input_type: input.to_string(),
        output_type: "Items".to_string(),
        client_streaming: false,
        server_streaming: false,
        comment: String::new(),
    }
}

const ITEMS_SOURCE: &str = "/// An item lookup.\n#[derive(Clone, PartialEq, ::prost::Message)]\npub struct Items {\n    /// The identifier.\n    #[prost(uint32, tag = \"1\")]\n    pub id: u32,\n    #[prost(string, tag = \"2\")]\n    pub name: String,\n}\n";

#[test]
fn end_to_end_path_and_query_service() {
    let config = GeneratorConfig::default()
        .custom_state_type("Items", "MyState")
        .unwrap();
    let decls = vec![decl("Items", vec![("GetItem", vec![http_extension("get", "/items/{id}", None)])])];
    let mut g = Generator::new(&decls, config);
    let service = ServiceModel {
        name: "Items".to_string(),
        methods: vec![method("get_item", "GetItem", "Items")],
    };
    g.generate_service(&service, ITEMS_SOURCE).unwrap();
    assert_eq!(g.modules.len(), 1);
    let module = &g.modules[0];
    // The module is named after the snake-cased service.
    assert!(module.contains("pub mod items_axum {"));
    // The handler: a path extractor, a destructuring query extractor
    // of the synthesized struct, and the rebuilt request.
    let expected_handler = "pub async fn get_item(\n    State(state__): State<MyState>,\n    Path(id): Path<u32>,\n    Query(super::ItemsQuery__ { name }): Query<super::ItemsQuery__>,\n    headers__: http::HeaderMap,\n    extensions__: http::Extensions,\n) -> http::Response<Body> {\n    let req__ = super::Items { id, name };\n    let req__ = tonic2axum::make_request(headers__, extensions__, req__);\n    tonic2axum::make_response(state__.get_item(req__).await)\n}\n";
    assert!(module.contains(expected_handler));
    // The route registration.
    assert!(module.contains(".route(\"/items/{id}\", get(get_item))"));
    // The router function.
    assert!(module.contains("pub fn make_router(state: MyState) -> Router {"));
    // The trait import of the custom state type.
    assert!(module.contains("use super::items_server::Items as _;"));

    // Flushing writes the synthesized query struct once.
    let mut out = String::new();
    g.write_code_to_buffer(&mut out);
    assert!(out.contains(
        "#[derive(serde::Deserialize)]\npub struct ItemsQuery__ {\n    pub name: String,\n}\n"
    ));
    assert!(out.contains("pub mod items_axum {"));
}

#[test]
fn snake_case_is_applied_to_module_names() {
    // The module name derives from the snake-cased service name; an
    // unconverted name would keep its capitals.
    let config = GeneratorConfig::default()
        .custom_state_type("MyItemService", "MyState")
        .unwrap();
    let decls = vec![decl(
        "MyItemService",
        vec![("GetItem", vec![http_extension("get", "/items", None)])],
    )];
    let mut g = Generator::new(&decls, config);
    let service = ServiceModel {
        name: "MyItemService".to_string(),
        methods: vec![method("get_item", "GetItem", "Items")],
    };
    g.generate_service(&service, ITEMS_SOURCE).unwrap();
    assert!(g.modules[0].contains("pub mod my_item_service_axum {"));
    assert!(!g.modules[0].contains("pub mod MyItemService"));
}

#[test]
fn method_without_binding_is_skipped_and_siblings_proceed() {
    // A method with no recognized HTTP extension produces no handler
    // and no route; its siblings still do.
    let config = GeneratorConfig::default()
        .custom_state_type("Items", "MyState")
        .unwrap();
    let decls = vec![decl(
        "Items",
        vec![
            ("GetItem", vec![http_extension("get", "/items/{id}", None)]),
            ("Internal", vec![]),
        ],
    )];
    let mut g = Generator::new(&decls, config);
    assert!(g.get_http_options("Items", "GetItem").is_some());
    assert!(g.get_http_options("Items", "Internal").is_none());
    let service = ServiceModel {
        name: "Items".to_string(),
        methods: vec![
            method("get_item", "GetItem", "Items"),
            method("internal", "Internal", "Items"),
        ],
    };
    g.generate_service(&service, ITEMS_SOURCE).unwrap();
    let module = &g.modules[0];
    assert!(module.contains("pub async fn get_item"));
    assert!(!module.contains("pub async fn internal"));
    assert!(!module.contains(".route(\"/internal"));
}

#[test]
fn unknown_input_message_aborts_generation() {
    let config = GeneratorConfig::default();
    let decls = vec![decl("Items", vec![("GetItem", vec![http_extension("get", "/items", None)])])];
    let mut g = Generator::new(&decls, config);
    let service = ServiceModel {
        name: "Items".to_string(),
        methods: vec![method("get_item", "GetItem", "Missing")],
    };
    let e = g.generate_service(&service, ITEMS_SOURCE).unwrap_err();
    match e {
        GenError::MessageNotFound(input, svc, meth) => {
            assert_eq!(input, "Missing".to_string());
            assert_eq!(svc, "Items".to_string());
            assert_eq!(meth, "get_item".to_string());
        },
        _ => panic!("expected the unknown-message error"),
    }
}

#[test]
fn generic_state_with_openapi_is_rejected() {
    let config = GeneratorConfig::default()
        .generic_state_type("Items")
        .unwrap()
        .generate_openapi(true);
    let decls = vec![decl("Items", vec![("GetItem", vec![http_extension("get", "/items", None)])])];
    let mut g = Generator::new(&decls, config);
    let service = ServiceModel {
        name: "Items".to_string(),
        methods: vec![method("get_item", "GetItem", "Items")],
    };
    let e = g.generate_service(&service, ITEMS_SOURCE).unwrap_err();
    match e {
        GenError::GenericStateOpenApi(svc) => {
            assert_eq!(svc, "Items".to_string());
            assert_eq!(
                GenError::GenericStateOpenApi(svc).to_text(),
                "A generic service state type is not supported when generating OpenAPI documentation: (Service: Items)".to_string()
            );
        },
        _ => panic!("expected the configuration-conflict error"),
    }
}

#[test]
fn client_streaming_with_trait_object_state_is_rejected() {
    let config = GeneratorConfig::default();
    let decls = vec![decl(
        "Items",
        vec![("PutItems", vec![http_extension("post", "/items", Some("*"))])],
    )];
    let mut g = Generator::new(&decls, config);
    let mut m = method("put_items", "PutItems", "Items");
    m.client_streaming = true;
    let service = ServiceModel { name: "Items".to_string(), methods: vec![m] };
    let e = g.generate_service(&service, ITEMS_SOURCE).unwrap_err();
    match e {
        GenError::ClientStreamingTraitObject(svc) => assert_eq!(svc, "Items".to_string()),
        _ => panic!("expected the trait-object conflict error"),
    }
}

#[test]
fn web_sockets_add_frame_routes_for_streaming_methods() {
    let config = GeneratorConfig::default()
        .custom_state_type("Items", "MyState")
        .unwrap()
        .generate_web_sockets(true);
    let decls = vec![decl(
        "Items",
        vec![("WatchItems", vec![http_extension("get", "/items/watch", None)])],
    )];
    let mut g = Generator::new(&decls, config);
    let mut m = method("watch_items", "WatchItems", "Items");
    m.server_streaming = true;
    let service = ServiceModel { name: "Items".to_string(), methods: vec![m] };
    g.generate_service(&service, ITEMS_SOURCE).unwrap();
    let module = &g.modules[0];
    assert!(module.contains("pub async fn watch_items_ws("));
    assert!(module.contains(".route(\"/items/watch/ws/proto\", any(watch_items_ws))"));
    assert!(module.contains(".route(\"/items/watch/ws/json\", any(watch_items_ws))"));
    assert!(module.contains("use axum::extract::WebSocketUpgrade;"));
    assert!(module.contains(".merge(ws_proto)"));
    assert!(module.contains(".with_state((state.clone(), true));"));
}

#[test]
fn openapi_mode_documents_routes() {
    let config = GeneratorConfig::default()
        .custom_state_type("Items", "MyState")
        .unwrap()
        .generate_openapi(true);
    let decls = vec![decl("Items", vec![("GetItem", vec![http_extension("get", "/items/{id}", None)])])];
    let mut g = Generator::new(&decls, config);
    let service = ServiceModel {
        name: "Items".to_string(),
        methods: vec![method("get_item", "GetItem", "Items")],
    };
    g.generate_service(&service, ITEMS_SOURCE).unwrap();
    let module = &g.modules[0];
    assert!(module.contains("#[utoipa::path(get, path = \"/items/{id}\", tag = \"Items\""));
    assert!(module.contains("params((\"id\" = u32, Path, description = \"The identifier.\")"));
    assert!(module.contains(", responses((status = 200, description = \"Success\", body = super::Items))"));
    assert!(module.contains(".routes(routes!(get_item))"));
    assert!(module.contains("pub fn make_router(state: MyState) -> OpenApiRouter {"));
    // Query structs carry the parameter derives under OpenAPI mode.
    let mut out = String::new();
    g.write_code_to_buffer(&mut out);
    assert!(out.contains(
        "#[derive(serde::Deserialize, utoipa::IntoParams)]\n#[into_params(parameter_in = Query)]\npub struct ItemsQuery__ {"
    ));
}

#[test]
fn all_query_verbatim_handler_passes_the_query_payload() {
    // The whole input maps onto the query: the handler binds the
    // original type as the query extractor and hands its inner value
    // to the request adapter.
    let config = GeneratorConfig::default()
        .custom_state_type("Items", "MyState")
        .unwrap();
    let decls = vec![decl("Items", vec![("ListItems", vec![http_extension("get", "/items", None)])])];
    let mut g = Generator::new(&decls, config);
    let service = ServiceModel {
        name: "Items".to_string(),
        methods: vec![method("list_items", "ListItems", "Items")],
    };
    g.generate_service(&service, ITEMS_SOURCE).unwrap();
    let module = &g.modules[0];
    let expected_handler = "pub async fn list_items(\n    State(state__): State<MyState>,\n    req__: Query<super::Items>,\n    headers__: http::HeaderMap,\n    extensions__: http::Extensions,\n) -> http::Response<Body> {\n    let req__ = tonic2axum::make_request(headers__, extensions__, req__.0);\n    tonic2axum::make_response(state__.list_items(req__).await)\n}\n";
    assert!(module.contains(expected_handler));
}

#[test]
fn method_comments_become_doc_attributes() {
    let config = GeneratorConfig::default()
        .custom_state_type("Items", "MyState")
        .unwrap();
    let decls = vec![decl("Items", vec![("GetItem", vec![http_extension("get", "/items", None)])])];
    let mut g = Generator::new(&decls, config);
    let mut m = method("get_item", "GetItem", "Items");
    m.comment = "Fetches one \"item\".".to_string();
    let service = ServiceModel { name: "Items".to_string(), methods: vec![m] };
    g.generate_service(&service, ITEMS_SOURCE).unwrap();
    assert!(g.modules[0].contains("#[doc = \"Fetches one \\\"item\\\".\"]\npub async fn get_item("));
}

#[test]
fn struct_doc_overrides_replace_emitted_documentation() {
    let config = GeneratorConfig::default()
        .custom_state_type("Items", "MyState")
        .unwrap()
        .struct_doc_comments("ItemsQuery__", "Query parameters of the item lookup.")
        .unwrap();
    let decls = vec![decl("Items", vec![("GetItem", vec![http_extension("get", "/items/{id}", None)])])];
    let mut g = Generator::new(&decls, config);
    let service = ServiceModel {
        name: "Items".to_string(),
        methods: vec![method("get_item", "GetItem", "Items")],
    };
    g.generate_service(&service, ITEMS_SOURCE).unwrap();
    let mut out = String::new();
    g.write_code_to_buffer(&mut out);
    assert!(out.contains("/// Query parameters of the item lookup.\n#[derive(serde::Deserialize)]\npub struct ItemsQuery__ {"));
}

#[test]
fn empty_input_message_passes_a_literal_unit() {
    // The sentinel empty type leads to a handler that passes a unit
    // value with no extractors at all.
    let config = GeneratorConfig::default()
        .custom_state_type("Items", "MyState")
        .unwrap();
    let decls = vec![decl("Items", vec![("Ping", vec![http_extension("get", "/ping", None)])])];
    let mut g = Generator::new(&decls, config);
    let service = ServiceModel {
        name: "Items".to_string(),
        methods: vec![method("ping", "Ping", "()")],
    };
    g.generate_service(&service, ITEMS_SOURCE).unwrap();
    let module = &g.modules[0];
    assert!(module.contains("tonic2axum::make_request(headers__, extensions__, ())"));
}

#[test]
fn field_less_message_constructs_an_empty_instance() {
    // A genuine message with zero fields is constructed directly, not
    // treated as the protocol-level unit.
    let config = GeneratorConfig::default()
        .custom_state_type("Items", "MyState")
        .unwrap();
    let decls = vec![decl("Items", vec![("Ping", vec![http_extension("get", "/ping", None)])])];
    let mut g = Generator::new(&decls, config);
    let service = ServiceModel {
        name: "Items".to_string(),
        methods: vec![method("ping", "Ping", "Nothing")],
    };
    let src = format!("{}pub struct Nothing {{}}\n", ITEMS_SOURCE);
    g.generate_service(&service, &src).unwrap();
    let module = &g.modules[0];
    assert!(module.contains("tonic2axum::make_request(headers__, extensions__, super::Nothing {})"));
}
