//! Generator configuration: the state-type assignment per service, the
//! OpenAPI and WebSocket switches, and the naming knobs for generated
//! values, types and routers.

use vstd::prelude::*;
use vstd::pervasive::VecAdditionalExecFns;

use crate::errors::GenError;
use crate::message::{first_index, lemma_first_index, lemma_first_index_at, DocComments};
use crate::text::string_eq_str;

verus! {

/// How the generated handlers receive the service implementation.
#[derive(Debug)]
pub enum StateType {
    /// A concrete type named by the caller of the generator.
    Custom(String),
    /// A generic type parameter bounded by the service trait.
    Generic,
}

impl StateType {
    /// Returns true for the custom-type assignment.
    pub open spec fn is_custom(&self) -> bool {
        self is Custom
    }
}

/// The model of a state-type assignment.
pub ghost enum StateV {
    Custom(Seq<char>),
    Generic,
}

impl View for StateType {
    type V = StateV;

    open spec fn view(&self) -> StateV {
        match self {
            StateType::Custom(t) => StateV::Custom(t@),
            StateType::Generic => StateV::Generic,
        }
    }
}

/// The view of an optional state-type assignment.
pub open spec fn state_opt_view(o: Option<&StateType>) -> Option<StateV> {
    match o {
        Some(s) => Some(s@),
        None => None,
    }
}

/// The security configuration for the OpenAPI documentation.
#[derive(Debug)]
pub enum OpenApiSecurity {
    /// All services use the same security scheme.
    AllServices(String),
    /// Specific services use the same security scheme.
    SpecificServices(String, Vec<String>),
    /// All services except the specified services use the same
    /// security scheme.
    AllServicesExcept(String, Vec<String>),
}

/// The model of the OpenAPI security configuration.
pub ghost enum SecV {
    All(Seq<char>),
    Specific(Seq<char>, Seq<Seq<char>>),
    Except(Seq<char>, Seq<Seq<char>>),
}

impl View for OpenApiSecurity {
    type V = SecV;

    open spec fn view(&self) -> SecV {
        match self {
            OpenApiSecurity::AllServices(s) => SecV::All(s@),
            OpenApiSecurity::SpecificServices(s, svcs) => SecV::Specific(
                s@,
                crate::text::views_of(svcs@),
            ),
            OpenApiSecurity::AllServicesExcept(s, svcs) => SecV::Except(
                s@,
                crate::text::views_of(svcs@),
            ),
        }
    }
}

/// The view of the optional security configuration.
pub open spec fn security_opt_view(o: &Option<OpenApiSecurity>) -> Option<SecV> {
    match o {
        Some(s) => Some(s@),
        None => None,
    }
}

/// One service's state-type assignment.
#[derive(Debug)]
pub struct StateTypeEntry {
    pub service: String,
    pub state: StateType,
}

/// One struct-name to documentation override.
#[derive(Debug)]
pub struct DocOverride {
    pub name: String,
    pub doc: DocComments,
}

/// The recognized configuration of one generation run.
#[derive(Debug)]
pub struct GeneratorConfig {
    pub state_types: Vec<StateTypeEntry>,
    pub generate_openapi: bool,
    pub generate_web_sockets: bool,
    pub streaming_content_type: String,
    pub openapi_security: Option<OpenApiSecurity>,
    pub value_suffix: String,
    pub type_suffix: String,
    pub body_message_suffix: String,
    pub query_message_suffix: String,
    pub router_func_name: String,
    pub service_mod_name_suffix: String,
    pub struct_doc_comments: Vec<DocOverride>,
}

/// Index of the first state-type entry for `service`, or `-1`.
pub open spec fn state_type_index(s: Seq<StateTypeEntry>, service: Seq<char>) -> int {
    first_index(s, |e: StateTypeEntry| e.service@ == service)
}

/// Index of the first documentation override for `name`, or `-1`.
pub open spec fn doc_override_index(s: Seq<DocOverride>, name: Seq<char>) -> int {
    first_index(s, |e: DocOverride| e.name@ == name)
}

impl Default for GeneratorConfig {
    /// The defaults: no per-service state types, no OpenAPI, no
    /// WebSockets, newline-delimited JSON streaming, double-underscore
    /// value and type suffixes, `Body` and `Query` message suffixes,
    /// `make_router` router functions, and `_axum` module suffix.
    fn default() -> (r: Self)
        ensures
            r.state_types@.len() == 0,
            !r.generate_openapi,
            !r.generate_web_sockets,
            r.streaming_content_type@ == "application/x-ndjson"@,
            r.openapi_security is None,
            r.value_suffix@ == "__"@,
            r.type_suffix@ == "__"@,
            r.body_message_suffix@ == "Body"@,
            r.query_message_suffix@ == "Query"@,
            r.router_func_name@ == "make_router"@,
            r.service_mod_name_suffix@ == "_axum"@,
            r.struct_doc_comments@.len() == 0,
    {
        GeneratorConfig {
            state_types: Vec::new(),
            generate_openapi: false,
            generate_web_sockets: false,
            streaming_content_type: String::from_str("application/x-ndjson"),
            openapi_security: None,
            value_suffix: String::from_str("__"),
            type_suffix: String::from_str("__"),
            body_message_suffix: String::from_str("Body"),
            query_message_suffix: String::from_str("Query"),
            router_func_name: String::from_str("make_router"),
            service_mod_name_suffix: String::from_str("_axum"),
            struct_doc_comments: Vec::new(),
        }
    }
}

fn set_state_type(entries: &mut Vec<StateTypeEntry>, service_name: &str, state: StateType)
    ensures
        ({
            let k = state_type_index(old(entries)@, service_name@);
            let i = if k < 0 {
                old(entries)@.len() as int
            } else {
                k
            };
            &&& (k < 0 ==> final(entries)@.len() == old(entries)@.len() + 1)
            &&& (k >= 0 ==> final(entries)@.len() == old(entries)@.len())
            &&& final(entries)@[i].service@ == service_name@
            &&& final(entries)@[i].state == state
        }),
{
    proof {
        lemma_first_index(entries@, |e: StateTypeEntry| e.service@ == service_name@);
    }
    let n = entries.len();
    let mut i: usize = 0;
    while i < n
        invariant
            n == entries.len(),
            *entries == *old(entries),
            i <= n,
            forall|j: int| 0 <= j < i ==> entries@[j].service@ != service_name@,
        decreases n - i,
    {
        if string_eq_str(&entries[i].service, service_name) {
            proof {
                lemma_first_index_at(
                    entries@,
                    |e: StateTypeEntry| e.service@ == service_name@,
                    i as int,
                );
            }
            let mut e = StateTypeEntry { service: String::from_str(service_name), state };
            entries.set_and_swap(i, &mut e);
            return ;
        }
        i = i + 1;
    }
    entries.push(StateTypeEntry { service: String::from_str(service_name), state });
}

impl GeneratorConfig {
    /// Sets a custom state type for a given service; both names must
    /// be non-empty.
    pub fn custom_state_type(self, service_name: &str, state_type: &str) -> (r: Result<
        Self,
        GenError,
    >)
        ensures
            (service_name@.len() == 0 || state_type@.len() == 0) <==> r is Err,
            r matches Ok(c) ==> {
                let k = state_type_index(self.state_types@, service_name@);
                &&& (k < 0 ==> c.state_types@.len() == self.state_types@.len() + 1)
                &&& (k >= 0 ==> c.state_types@.len() == self.state_types@.len())
                &&& ({
                    let i = if k < 0 {
                        self.state_types@.len() as int
                    } else {
                        k
                    };
                    &&& c.state_types@[i].service@ == service_name@
                    &&& c.state_types@[i].state matches StateType::Custom(t) && t@ == state_type@
                })
            },
    {
        if service_name.unicode_len() == 0 || state_type.unicode_len() == 0 {
            return Err(GenError::EmptyConfigValue(String::from_str(
                "Both service name and state type",
            )));
        }
        let mut c = self;
        set_state_type(
            &mut c.state_types,
            service_name,
            StateType::Custom(String::from_str(state_type)),
        );
        Ok(c)
    }

    /// Sets the state type of a service to a generic parameter bounded
    /// by the service trait; the name must be non-empty.
    pub fn generic_state_type(self, service_name: &str) -> (r: Result<Self, GenError>)
        ensures
            (service_name@.len() == 0) <==> r is Err,
            r matches Ok(c) ==> {
                let k = state_type_index(self.state_types@, service_name@);
                let i = if k < 0 {
                    self.state_types@.len() as int
                } else {
                    k
                };
                &&& (k < 0 ==> c.state_types@.len() == self.state_types@.len() + 1)
                &&& (k >= 0 ==> c.state_types@.len() == self.state_types@.len())
                &&& c.state_types@[i].service@ == service_name@
                &&& c.state_types@[i].state is Generic
            },
    {
        if service_name.unicode_len() == 0 {
            return Err(GenError::EmptyConfigValue(String::from_str("Service name")));
        }
        let mut c = self;
        set_state_type(&mut c.state_types, service_name, StateType::Generic);
        Ok(c)
    }

    /// Sets whether to generate OpenAPI route annotations.
    pub fn generate_openapi(self, enable: bool) -> (r: Self)
        ensures
            r == (Self { generate_openapi: enable, ..self }),
    {
        let mut c = self;
        c.generate_openapi = enable;
        c
    }

    /// Sets whether to generate WebSocket handlers for streaming
    /// methods.
    pub fn generate_web_sockets(self, enable: bool) -> (r: Self)
        ensures
            r == (Self { generate_web_sockets: enable, ..self }),
    {
        let mut c = self;
        c.generate_web_sockets = enable;
        c
    }

    /// Sets the content type documented for streaming responses; it
    /// must be non-empty.
    pub fn streaming_content_type(self, content_type: String) -> (r: Result<Self, GenError>)
        ensures
            (content_type@.len() == 0) <==> r is Err,
            r matches Ok(c) ==> c == (Self { streaming_content_type: content_type, ..self }),
    {
        if content_type.as_str().unicode_len() == 0 {
            return Err(GenError::EmptyConfigValue(String::from_str("Streaming content type")));
        }
        let mut c = self;
        c.streaming_content_type = content_type;
        Ok(c)
    }

    /// Sets the security configuration for the OpenAPI documentation.
    pub fn openapi_security(self, security: OpenApiSecurity) -> (r: Self)
        ensures
            r.openapi_security matches Some(s) && s == security,
            r == (Self { openapi_security: r.openapi_security, ..self }),
    {
        let mut c = self;
        c.openapi_security = Some(security);
        c
    }

    /// Sets the suffix of the generated value bindings.
    pub fn value_suffix(self, suffix: String) -> (r: Self)
        ensures
            r == (Self { value_suffix: suffix, ..self }),
    {
        let mut c = self;
        c.value_suffix = suffix;
        c
    }

    /// Sets the suffix of the generated struct type names.
    pub fn type_suffix(self, suffix: String) -> (r: Self)
        ensures
            r == (Self { type_suffix: suffix, ..self }),
    {
        let mut c = self;
        c.type_suffix = suffix;
        c
    }

    /// Sets the suffix of synthesized body struct names; it must be
    /// non-empty.
    pub fn body_message_suffix(self, suffix: String) -> (r: Result<Self, GenError>)
        ensures
            (suffix@.len() == 0) <==> r is Err,
            r matches Ok(c) ==> c == (Self { body_message_suffix: suffix, ..self }),
    {
        if suffix.as_str().unicode_len() == 0 {
            return Err(GenError::EmptyConfigValue(String::from_str("Body message suffix")));
        }
        let mut c = self;
        c.body_message_suffix = suffix;
        Ok(c)
    }

    /// Sets the suffix of synthesized query struct names; it must be
    /// non-empty.
    pub fn query_message_suffix(self, suffix: String) -> (r: Result<Self, GenError>)
        ensures
            (suffix@.len() == 0) <==> r is Err,
            r matches Ok(c) ==> c == (Self { query_message_suffix: suffix, ..self }),
    {
        if suffix.as_str().unicode_len() == 0 {
            return Err(GenError::EmptyConfigValue(String::from_str("Query message suffix")));
        }
        let mut c = self;
        c.query_message_suffix = suffix;
        Ok(c)
    }

    /// Sets the name of the generated router functions.
    pub fn router_func_name(self, name: String) -> (r: Self)
        ensures
            r == (Self { router_func_name: name, ..self }),
    {
        let mut c = self;
        c.router_func_name = name;
        c
    }

    /// Sets the suffix of the generated service module names.
    pub fn service_mod_name_suffix(self, suffix: String) -> (r: Self)
        ensures
            r == (Self { service_mod_name_suffix: suffix, ..self }),
    {
        let mut c = self;
        c.service_mod_name_suffix = suffix;
        c
    }

    /// Overrides the documentation of one synthesized struct; both the
    /// name and the text must be non-empty.
    pub fn struct_doc_comments(self, struct_name: &str, doc_comments: &str) -> (r: Result<
        Self,
        GenError,
    >)
        ensures
            r is Err <==> (struct_name@.len() == 0 || DocComments::spec_from_text(
                doc_comments@,
            ).len() == 0),
            r matches Ok(c) ==> {
                &&& c.struct_doc_comments@.len() == self.struct_doc_comments@.len() + 1
                &&& c.struct_doc_comments@.last().name@ == struct_name@
                &&& c.struct_doc_comments@.last().doc@ == DocComments::spec_from_text(
                    doc_comments@,
                )
                &&& c.struct_doc_comments@.take(self.struct_doc_comments@.len() as int)
                    == self.struct_doc_comments@
            },
    {
        let doc = DocComments::from_text(doc_comments);
        if struct_name.unicode_len() == 0 || doc.is_empty() {
            return Err(GenError::EmptyConfigValue(String::from_str(
                "Both struct name and doc comments",
            )));
        }
        let mut c = self;
        let ghost before = c.struct_doc_comments@;
        c.struct_doc_comments.push(DocOverride { name: String::from_str(struct_name), doc });
        proof {
            assert(c.struct_doc_comments@.take(before.len() as int) =~= before);
        }
        Ok(c)
    }

    /// Looks up the state-type assignment of a service.
    pub fn get_state_type(&self, service: &str) -> (r: Option<&StateType>)
        ensures
            ({
                let k = state_type_index(self.state_types@, service@);
                if k < 0 {
                    r is None
                } else {
                    r matches Some(s) && s == self.state_types@[k].state
                }
            }),
    {
        proof {
            lemma_first_index(self.state_types@, |e: StateTypeEntry| e.service@ == service@);
        }
        let n = self.state_types.len();
        let mut i: usize = 0;
        while i < n
            invariant
                n == self.state_types.len(),
                i <= n,
                forall|j: int| 0 <= j < i ==> self.state_types@[j].service@ != service@,
            decreases n - i,
        {
            if string_eq_str(&self.state_types[i].service, service) {
                proof {
                    lemma_first_index_at(
                        self.state_types@,
                        |e: StateTypeEntry| e.service@ == service@,
                        i as int,
                    );
                }
                return Some(&self.state_types[i].state);
            }
            i = i + 1;
        }
        None
    }

    /// Looks up the documentation override of a struct name.
    pub fn get_doc_override(&self, name: &str) -> (r: Option<&DocComments>)
        ensures
            ({
                let k = doc_override_index(self.struct_doc_comments@, name@);
                if k < 0 {
                    r is None
                } else {
                    r matches Some(d) && d == self.struct_doc_comments@[k].doc
                }
            }),
    {
        proof {
            lemma_first_index(self.struct_doc_comments@, |e: DocOverride| e.name@ == name@);
        }
        let n = self.struct_doc_comments.len();
        let mut i: usize = 0;
        while i < n
            invariant
                n == self.struct_doc_comments.len(),
                i <= n,
                forall|j: int| 0 <= j < i ==> self.struct_doc_comments@[j].name@ != name@,
            decreases n - i,
        {
            if string_eq_str(&self.struct_doc_comments[i].name, name) {
                proof {
                    lemma_first_index_at(
                        self.struct_doc_comments@,
                        |e: DocOverride| e.name@ == name@,
                        i as int,
                    );
                }
                return Some(&self.struct_doc_comments[i].doc);
            }
            i = i + 1;
        }
        None
    }
}

} // verus!
