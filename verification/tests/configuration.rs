use tonic2axum::config::{GeneratorConfig, OpenApiSecurity, StateType};
use tonic2axum::generator::{Generator, MethodModel, ServiceModel};
use tonic2axum::message::{DocComments, Field, NewMessages};
use tonic2axum::options::{ExtensionField, MethodDecl, OptionExtension, ServiceDecl};

#[test]
fn defaults_match_the_documented_values() {
    let c = GeneratorConfig::default();
    assert!(!c.generate_openapi);
    assert!(!c.generate_web_sockets);
    assert_eq!(c.streaming_content_type, "application/x-ndjson".to_string());
    assert_eq!(c.value_suffix, "__".to_string());
    assert_eq!(c.type_suffix, "__".to_string());
    assert_eq!(c.body_message_suffix, "Body".to_string());
    assert_eq!(c.query_message_suffix, "Query".to_string());
    assert_eq!(c.router_func_name, "make_router".to_string());
    assert_eq!(c.service_mod_name_suffix, "_axum".to_string());
    assert!(c.openapi_security.is_none());
    assert!(c.get_state_type("Anything").is_none());
}

#[test]
fn state_type_setters_validate_and_replace() {
    let c = GeneratorConfig::default()
        .custom_state_type("Items", "MyState")
        .unwrap();
    match c.get_state_type("Items").unwrap() {
        StateType::Custom(t) => assert_eq!(t, &"MyState".to_string()),
        _ => panic!("expected the custom state type"),
    }
    // A later assignment for the same service replaces the earlier
    // one.
    let c = c.generic_state_type("Items").unwrap();
    assert!(matches!(c.get_state_type("Items").unwrap(), StateType::Generic));
    // Empty names are rejected.
    assert!(GeneratorConfig::default().custom_state_type("", "T").is_err());
    assert!(GeneratorConfig::default().custom_state_type("S", "").is_err());
    assert!(GeneratorConfig::default().generic_state_type("").is_err());
}

#[test]
fn suffix_setters_validate_emptiness() {
    let c = GeneratorConfig::default()
        .body_message_suffix("Payload".to_string())
        .unwrap()
        .query_message_suffix("Params".to_string())
        .unwrap()
        .type_suffix(String::new())
        .value_suffix(String::new());
    assert_eq!(c.body_message_suffix, "Payload".to_string());
    assert_eq!(c.query_message_suffix, "Params".to_string());
    assert_eq!(c.type_suffix, String::new());
    assert_eq!(c.value_suffix, String::new());
    assert!(GeneratorConfig::default().body_message_suffix(String::new()).is_err());
    assert!(GeneratorConfig::default().query_message_suffix(String::new()).is_err());
    assert!(GeneratorConfig::default().streaming_content_type(String::new()).is_err());
    let err = GeneratorConfig::default()
        .body_message_suffix(String::new())
        .unwrap_err();
    assert_eq!(err.to_text(), "Body message suffix must not be empty".to_string());
}

#[test]
fn custom_suffixes_shape_synthesized_names() {
    let c = GeneratorConfig::default()
        .body_message_suffix("Payload".to_string())
        .unwrap()
        .type_suffix(String::new());
    let mut reg = NewMessages::new();
    let doc = DocComments::new();
    let name = reg.get_or_create_body_message(
        &"Items".to_string(),
        &doc,
        vec![Field::new("id".to_string(), "u32".to_string(), DocComments::new())],
        &c,
    );
    assert_eq!(name, "ItemsPayload".to_string());
}

#[test]
fn doc_overrides_are_stored_and_found() {
    let c = GeneratorConfig::default()
        .struct_doc_comments("ItemsBody__", "Overridden docs.")
        .unwrap();
    let d = c.get_doc_override("ItemsBody__").unwrap();
    assert_eq!(d.lines()[0], "Overridden docs.".to_string());
    assert!(c.get_doc_override("Other").is_none());
    assert!(GeneratorConfig::default().struct_doc_comments("", "x").is_err());
    assert!(GeneratorConfig::default().struct_doc_comments("X", "").is_err());
}

#[test]
fn other_switches_are_kept() {
    let c = GeneratorConfig::default()
        .generate_openapi(true)
        .generate_web_sockets(true)
        .streaming_content_type("application/jsonl".to_string())
        .unwrap()
        .router_func_name("build_router".to_string())
        .service_mod_name_suffix("_http".to_string())
        .openapi_security(OpenApiSecurity::AllServices("Bearer".to_string()));
    assert!(c.generate_openapi);
    assert!(c.generate_web_sockets);
    assert_eq!(c.streaming_content_type, "application/jsonl".to_string());
    assert_eq!(c.router_func_name, "build_router".to_string());
    assert_eq!(c.service_mod_name_suffix, "_http".to_string());
    assert!(matches!(c.openapi_security, Some(OpenApiSecurity::AllServices(_))));
}

#[test]
fn security_schemes_select_services() {
    // Exercised through the emitted path attribute.
    let config = GeneratorConfig::default()
        .custom_state_type("Items", "MyState")
        .unwrap()
        .generate_openapi(true)
        .openapi_security(OpenApiSecurity::SpecificServices(
            "Bearer".to_string(),
            vec!["Items".to_string()],
        ));
    let decls = vec![ServiceDecl {
        name: "Items".to_string(),
        methods: vec![MethodDecl {
            name: "GetItem".to_string(),
            extensions: vec![OptionExtension {
                number: 72295728,
                fields: vec![ExtensionField {
                    name: "get".to_string(),
                    value: "/items".to_string(),
                }],
            }],
        }],
    }];
    let mut g = Generator::new(&decls, config);
    let service = ServiceModel {
        name: "Items".to_string(),
        methods: vec![MethodModel {
            name: "get_item".to_string(),
            proto_name: "GetItem".to_string(),
            input_type: "Items".to_string(),
            output_type: "()".to_string(),
            client_streaming: false,
            server_streaming: false,
            comment: String::new(),
        }],
    };
    g.generate_service(&service, "pub struct Items {\n    pub id: u32,\n}\n").unwrap();
    assert!(g.modules[0].contains(", security((Bearer = []))"));
}
