use tonic2axum::config::GeneratorConfig;
use tonic2axum::http::HttpVerb;
use tonic2axum::message::{DocComments, ExistingMessages, Field, Message, NewMessages};
use tonic2axum::options::{
    extract_options, ExtensionField, HttpOptions, MethodDecl, OptionExtension, ServiceDecl,
};
use tonic2axum::text::{escape_str, split_on, usize_succ_to_string, usize_to_string};

fn ext_field(name: &str, value: &str) -> ExtensionField {
    ExtensionField { name: name.to_string(), value: value.to_string() }
}

#[test]
fn extension_with_verb_and_body_is_recognized() {
    let method = MethodDecl {
        name: "UpdateItem".to_string(),
        extensions: vec![OptionExtension {
            number: 72295728,
            fields: vec![ext_field("put", "/items/{id}"), ext_field("body", "*")],
        }],
    };
    let o = extract_options(&method).unwrap();
    assert!(matches!(o.verb, HttpVerb::Put));
    assert_eq!(o.pattern, "/items/{id}".to_string());
    assert_eq!(o.body, Some("*".to_string()));
}

#[test]
fn extension_under_another_tag_is_ignored() {
    let method = MethodDecl {
        name: "GetItem".to_string(),
        extensions: vec![OptionExtension {
            number: 99,
            fields: vec![ext_field("get", "/items")],
        }],
    };
    assert!(extract_options(&method).is_none());
}

#[test]
fn extension_without_a_verb_field_yields_no_binding() {
    let method = MethodDecl {
        name: "GetItem".to_string(),
        extensions: vec![OptionExtension {
            number: 72295728,
            fields: vec![ext_field("body", "*"), ext_field("custom", "x")],
        }],
    };
    assert!(extract_options(&method).is_none());
}

#[test]
fn all_five_verbs_are_recognized() {
    for (name, verb) in [
        ("get", HttpVerb::Get),
        ("post", HttpVerb::Post),
        ("put", HttpVerb::Put),
        ("delete", HttpVerb::Delete),
        ("patch", HttpVerb::Patch),
    ] {
        let method = MethodDecl {
            name: "M".to_string(),
            extensions: vec![OptionExtension {
                number: 72295728,
                fields: vec![ext_field(name, "/x")],
            }],
        };
        let o = extract_options(&method).unwrap();
        assert_eq!(o.verb, verb);
        assert_eq!(o.verb.upper_text(), verb.upper_text());
    }
    assert_eq!(HttpVerb::Get.upper_text(), "GET");
    assert_eq!(HttpVerb::Patch.lower_text(), "patch");
}

#[test]
fn options_are_indexed_by_service_and_method() {
    let decls = vec![
        ServiceDecl {
            name: "Items".to_string(),
            methods: vec![
                MethodDecl {
                    name: "GetItem".to_string(),
                    extensions: vec![OptionExtension {
                        number: 72295728,
                        fields: vec![ext_field("get", "/items/{id}")],
                    }],
                },
                MethodDecl { name: "Internal".to_string(), extensions: vec![] },
            ],
        },
        ServiceDecl { name: "Other".to_string(), methods: vec![] },
    ];
    let mut options = HttpOptions::new();
    options.parse_http_options(&decls);
    let o = options.get_http_options("Items", "GetItem").unwrap();
    assert_eq!(o.pattern, "/items/{id}".to_string());
    assert!(options.get_http_options("Items", "Internal").is_none());
    assert!(options.get_http_options("Other", "GetItem").is_none());
    assert!(options.get_http_options("Absent", "GetItem").is_none());
    assert_eq!(options.get_path("Items", "GetItem"), Some("/items/{id}".to_string()));
    assert!(options.get_path("Items", "Internal").is_none());
}

#[test]
fn calculate_messages_returns_none_without_a_binding() {
    let decls = vec![ServiceDecl {
        name: "Items".to_string(),
        methods: vec![MethodDecl { name: "Internal".to_string(), extensions: vec![] }],
    }];
    let mut options = HttpOptions::new();
    options.parse_http_options(&decls);
    let config = GeneratorConfig::default();
    let existing = ExistingMessages::new();
    let mut reg = NewMessages::new();
    let m = Message::new("Items".to_string(), DocComments::new());
    let r = options
        .calculate_messages("Items", "Internal", &m, &existing, &mut reg, &config)
        .unwrap();
    assert!(r.is_none());
}

#[test]
fn parse_source_indexes_structs_fields_and_documentation() {
    let src = "/// An item.\n/// Two lines of docs.\n#[derive(Clone, PartialEq, ::prost::Message)]\npub struct Items {\n    /// The identifier.\n    #[prost(uint32, tag = \"1\")]\n    pub id: u32,\n    #[prost(message, optional, tag = \"2\")]\n    pub filter: ::core::option::Option<FilterMsg>,\n}\nimpl Items {\n    pub fn helper() {}\n}\npub mod nested {\n    pub struct Hidden {\n        pub x: u32,\n    }\n}\npub struct Empty {}\n";
    let mut index = ExistingMessages::new();
    index.parse_source(src);
    let items = index.get_message("Items").unwrap();
    assert_eq!(items.fields().len(), 2);
    assert_eq!(items.fields()[0].name, "id".to_string());
    assert_eq!(items.fields()[0].type_text, "u32".to_string());
    assert_eq!(
        items.fields()[1].type_text,
        "::core::option::Option<FilterMsg>".to_string()
    );
    assert_eq!(items.doc_comments().lines().len(), 2);
    assert_eq!(items.doc_comments().lines()[0], "An item.".to_string());
    assert_eq!(items.fields()[0].doc_comments.lines()[0], "The identifier.".to_string());
    // An empty struct declared and closed on one line.
    let empty = index.get_message("Empty").unwrap();
    assert_eq!(empty.fields().len(), 0);
    // A struct nested inside a module is not a top-level message.
    assert!(index.get_message("Hidden").is_none());
    // The sentinel for the empty request type is always present.
    assert!(index.get_message("()").is_some());
}

#[test]
fn parse_source_tolerates_indentation_variation() {
    // Field, documentation and closing-brace lines are recognized
    // under any indentation; only the opener must stand at column
    // zero.
    let src = "/// An item.\npub struct Items {\n        /// Deeply indented docs.\n        pub id: u32,\n  pub name: String,  \n  }\npub struct Next {\n    pub x: u32,\n}\n";
    let mut index = ExistingMessages::new();
    index.parse_source(src);
    let items = index.get_message("Items").unwrap();
    assert_eq!(items.fields().len(), 2);
    assert_eq!(items.fields()[0].name, "id".to_string());
    assert_eq!(items.fields()[0].doc_comments.lines()[0], "Deeply indented docs.".to_string());
    assert_eq!(items.fields()[1].name, "name".to_string());
    assert_eq!(items.fields()[1].type_text, "String".to_string());
    // The indented closing brace ended the first struct.
    let next = index.get_message("Next").unwrap();
    assert_eq!(next.fields().len(), 1);
}

#[test]
fn parse_source_replaces_messages_by_name() {
    let mut index = ExistingMessages::new();
    index.parse_source("pub struct Items {\n    pub id: u32,\n}\n");
    index.parse_source("pub struct Items {\n    pub id: u64,\n}\n");
    let items = index.get_message("Items").unwrap();
    assert_eq!(items.fields().len(), 1);
    assert_eq!(items.fields()[0].type_text, "u64".to_string());
}

#[test]
fn field_types_keep_generics_and_paths() {
    let src = "pub struct Items {\n    pub tags: ::prost::alloc::vec::Vec<::prost::alloc::string::String>,\n}\n";
    let mut index = ExistingMessages::new();
    index.parse_source(src);
    let items = index.get_message("Items").unwrap();
    assert_eq!(
        items.fields()[0].type_text,
        "::prost::alloc::vec::Vec<::prost::alloc::string::String>".to_string()
    );
}

#[test]
fn split_keeps_empty_segments() {
    let parts = split_on("/items/{id}", '/');
    assert_eq!(
        parts,
        vec!["".to_string(), "items".to_string(), "{id}".to_string()]
    );
    assert_eq!(split_on("plain", '/'), vec!["plain".to_string()]);
}

#[test]
fn decimal_rendering_is_exact() {
    assert_eq!(usize_to_string(0), "0".to_string());
    assert_eq!(usize_to_string(7), "7".to_string());
    assert_eq!(usize_to_string(42), "42".to_string());
    assert_eq!(usize_to_string(100), "100".to_string());
    assert_eq!(usize_to_string(90210), "90210".to_string());
    assert_eq!(usize_succ_to_string(0), "1".to_string());
    assert_eq!(usize_succ_to_string(8), "9".to_string());
    assert_eq!(usize_succ_to_string(9), "10".to_string());
    assert_eq!(usize_succ_to_string(19), "20".to_string());
    assert_eq!(usize_succ_to_string(99), "100".to_string());
    assert_eq!(usize_succ_to_string(109), "110".to_string());
}

#[test]
fn escaping_guards_quotes_and_backslashes() {
    assert_eq!(escape_str("plain"), "plain".to_string());
    assert_eq!(escape_str("say \"hi\""), "say \\\"hi\\\"".to_string());
    assert_eq!(escape_str("back\\slash"), "back\\\\slash".to_string());
}

#[test]
fn doc_comments_split_on_newlines() {
    let d = DocComments::from_text("first\nsecond");
    assert_eq!(d.lines().len(), 2);
    assert_eq!(d.lines()[1], "second".to_string());
    assert!(DocComments::from_text("").is_empty());
    let single = DocComments::from_text("only");
    assert_eq!(single.lines().len(), 1);
}

#[test]
fn field_builder_keeps_its_parts() {
    let f = Field::new("id".to_string(), "u32".to_string(), DocComments::from_text("doc"));
    assert_eq!(f.name, "id".to_string());
    assert_eq!(f.type_text, "u32".to_string());
    assert_eq!(f.doc_comments.lines().len(), 1);
}
