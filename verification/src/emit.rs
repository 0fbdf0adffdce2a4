//! Emission building blocks: the generated value names, the state-type
//! shapes, and the extractor parameter lists and request-rebuilding
//! statement of one handler.

use vstd::prelude::*;

use crate::config::StateType;
use crate::errors::GenError;
use crate::http::{
    DetailsV, HandlingV, MethodDetails, MethodDetailsV, spec_field_names,
};
use crate::message::FieldV;
use crate::text::{snake_of, to_snake_case, views_of};

verus! {

// *** ValueNames ***

/// The names of the value bindings every generated handler uses,
/// derived from the configured suffix.
#[derive(Debug)]
pub struct ValueNames {
    pub req: String,
    pub headers: String,
    pub extensions: String,
    pub state: String,
}

impl ValueNames {
    /// Builds the four binding names from the configured suffix.
    pub fn new(value_suffix: &str) -> (r: Self)
        ensures
            r.req@ == "req"@ + value_suffix@,
            r.headers@ == "headers"@ + value_suffix@,
            r.extensions@ == "extensions"@ + value_suffix@,
            r.state@ == "state"@ + value_suffix@,
    {
        let mut req = String::from_str("req");
        req.append(value_suffix);
        let mut headers = String::from_str("headers");
        headers.append(value_suffix);
        let mut extensions = String::from_str("extensions");
        extensions.append(value_suffix);
        let mut state = String::from_str("state");
        state.append(value_suffix);
        ValueNames { req, headers, extensions, state }
    }

    /// The four names, in the order the handler signature uses them.
    pub fn names(&self) -> (r: (&String, &String, &String, &String))
        ensures
            r.0 == self.req,
            r.1 == self.headers,
            r.2 == self.extensions,
            r.3 == self.state,
    {
        (&self.req, &self.headers, &self.extensions, &self.state)
    }
}

// *** ServiceType ***

/// The fully qualified service trait path: the service's server
/// module and the trait named after the service.
pub open spec fn spec_fq_trait(service: Seq<char>) -> Seq<char> {
    snake_of(service) + "_server::"@ + service
}

/// Builds the fully qualified service trait path.
pub fn make_fq_trait_name(service_name: &str) -> (r: String)
    ensures
        r@ == spec_fq_trait(service_name@),
{
    let mut s = to_snake_case(service_name);
    s.append("_server::");
    s.append(service_name);
    s
}

/// The model of the generic-state texts.
pub ghost struct ServiceTypeGenericsV {
    pub handler_route_turbofish: Seq<char>,
    pub handler_generics: Seq<char>,
    pub router_generics: Seq<char>,
}

/// The model of a service's state-type texts.
pub ghost struct ServiceTypeV {
    pub state_type_name: Seq<char>,
    pub generics: Option<ServiceTypeGenericsV>,
    pub use_trait: Option<Seq<char>>,
}

/// The turbofish, handler bound and router bound used when the state
/// type is a generic parameter.
#[derive(Debug)]
pub struct ServiceTypeGenerics {
    handler_route_turbofish: String,
    handler_generics: String,
    router_generics: String,
}

/// How the generated handlers and router of one service spell their
/// state type: a caller-supplied concrete type, a generic parameter
/// bounded by the service trait, or the default shared trait object.
#[derive(Debug)]
pub struct ServiceType {
    pub state_type_name: String,
    generics: Option<ServiceTypeGenerics>,
    use_trait: Option<String>,
}

impl View for ServiceType {
    type V = ServiceTypeV;

    closed spec fn view(&self) -> ServiceTypeV {
        ServiceTypeV {
            state_type_name: self.state_type_name@,
            generics: match self.generics {
                Some(ref g) => Some(
                    ServiceTypeGenericsV {
                        handler_route_turbofish: g.handler_route_turbofish@,
                        handler_generics: g.handler_generics@,
                        router_generics: g.router_generics@,
                    },
                ),
                None => None,
            },
            use_trait: match self.use_trait {
                Some(ref u) => Some(u@),
                None => None,
            },
        }
    }
}

/// The state-type texts chosen for one service: a custom type is used
/// as written and imports the service trait; the generic shape names
/// the parameter `S` with the trait as its bound; the default is a
/// shared trait object.
pub open spec fn spec_service_type(
    service: Seq<char>,
    state: Option<crate::config::StateV>,
) -> ServiceTypeV {
    let fq = spec_fq_trait(service);
    match state {
        Some(crate::config::StateV::Custom(t)) => ServiceTypeV {
            state_type_name: t,
            generics: None,
            use_trait: Some("use super::"@ + fq + " as _;"@),
        },
        Some(crate::config::StateV::Generic) => ServiceTypeV {
            state_type_name: "S"@,
            generics: Some(
                ServiceTypeGenericsV {
                    handler_route_turbofish: "::<S>"@,
                    handler_generics: "<S: super::"@ + fq + ">"@,
                    router_generics: "<S: "@ + fq + " + Clone>"@,
                },
            ),
            use_trait: None,
        },
        None => ServiceTypeV {
            state_type_name: "Arc<dyn super::"@ + fq + ">"@,
            generics: None,
            use_trait: None,
        },
    }
}

impl ServiceType {
    /// The text of the state type.
    pub fn state_type_name(&self) -> (r: &String)
        ensures
            r@ == self@.state_type_name,
    {
        &self.state_type_name
    }

    /// Chooses the state-type texts of one service.
    pub fn new(service_name: &str, state_type: Option<&StateType>) -> (r: Self)
        ensures
            r@ == spec_service_type(service_name@, crate::config::state_opt_view(state_type)),
    {
        match state_type {
            // Custom type.
            Some(StateType::Custom(type_text)) => {
                let fq = make_fq_trait_name(service_name);
                let mut use_trait = String::from_str("use super::");
                use_trait.append(fq.as_str());
                use_trait.append(" as _;");
                ServiceType {
                    state_type_name: type_text.clone(),
                    generics: None,
                    use_trait: Some(use_trait),
                }
            },
            // Generics.
            Some(StateType::Generic) => {
                let fq = make_fq_trait_name(service_name);
                let mut handler_generics = String::from_str("<S: super::");
                handler_generics.append(fq.as_str());
                handler_generics.append(">");
                let mut router_generics = String::from_str("<S: ");
                router_generics.append(fq.as_str());
                router_generics.append(" + Clone>");
                ServiceType {
                    state_type_name: String::from_str("S"),
                    generics: Some(
                        ServiceTypeGenerics {
                            handler_route_turbofish: String::from_str("::<S>"),
                            handler_generics,
                            router_generics,
                        },
                    ),
                    use_trait: None,
                }
            },
            // Trait object by default.
            None => {
                let fq = make_fq_trait_name(service_name);
                let mut name = String::from_str("Arc<dyn super::");
                name.append(fq.as_str());
                name.append(">");
                ServiceType { state_type_name: name, generics: None, use_trait: None }
            },
        }
    }

    /// Whether the state type is a generic parameter.
    pub fn is_generic(&self) -> (r: bool)
        ensures
            r == (self@.generics is Some),
    {
        self.generics.is_some()
    }

    /// The trait import of a custom state type, if one is needed.
    pub fn use_trait(&self) -> (r: Option<&String>)
        ensures
            match r {
                Some(u) => self@.use_trait matches Some(uv) && u@ == uv,
                None => self@.use_trait is None,
            },
    {
        match &self.use_trait {
            Some(u) => Some(u),
            None => None,
        }
    }

    /// The turbofish a route registration needs when the state type is
    /// generic.
    pub fn handler_route_turbofish(&self) -> (r: Option<&String>)
        ensures
            match r {
                Some(t) => self@.generics matches Some(g) && t@ == g.handler_route_turbofish,
                None => self@.generics is None,
            },
    {
        match &self.generics {
            Some(g) => Some(&g.handler_route_turbofish),
            None => None,
        }
    }

    /// The generic parameter list of a handler, when the state type is
    /// generic.
    pub fn handler_generics(&self) -> (r: Option<&String>)
        ensures
            match r {
                Some(t) => self@.generics matches Some(g) && t@ == g.handler_generics,
                None => self@.generics is None,
            },
    {
        match &self.generics {
            Some(g) => Some(&g.handler_generics),
            None => None,
        }
    }

    /// The generic parameter list of the router, when the state type
    /// is generic.
    pub fn router_generics(&self) -> (r: Option<&String>)
        ensures
            match r {
                Some(t) => self@.generics matches Some(g) && t@ == g.router_generics,
                None => self@.generics is None,
            },
    {
        match &self.generics {
            Some(g) => Some(&g.router_generics),
            None => None,
        }
    }
}

// *** Joining names ***

/// The names joined by `sep`.
pub open spec fn spec_join(ns: Seq<Seq<char>>, sep: Seq<char>) -> Seq<char>
    decreases ns.len(),
{
    if ns.len() == 0 {
        Seq::empty()
    } else if ns.len() == 1 {
        ns[0]
    } else {
        spec_join(ns.drop_last(), sep) + sep + ns.last()
    }
}

/// Joins names with a separator.
pub fn join_names(ns: &Vec<String>, sep: &str) -> (r: String)
    ensures
        r@ == spec_join(views_of(ns@), sep@),
{
    let ghost nv = views_of(ns@);
    let n = ns.len();
    let mut out = String::new();
    let mut i: usize = 0;
    proof {
        assert(nv.take(0) =~= Seq::<Seq<char>>::empty());
    }
    while i < n
        invariant
            n == ns.len(),
            nv == views_of(ns@),
            i <= n,
            out@ == spec_join(nv.take(i as int), sep@),
        decreases n - i,
    {
        if i > 0 {
            out.append(sep);
        }
        out.append(ns[i].as_str());
        proof {
            assert(nv.take(i + 1).drop_last() =~= nv.take(i as int));
            assert(nv.take(i + 1).last() == nv[i as int]);
            assert(nv[i as int] == ns@[i as int]@);
        }
        i = i + 1;
    }
    proof {
        assert(nv.take(n as int) =~= nv);
    }
    out
}

// *** FunctionParts ***

/// One path extractor parameter line.
pub open spec fn spec_path_line(f: FieldV) -> Seq<char> {
    "    Path("@ + f.name + "): Path<"@ + f.ty + ">,\n"@
}

/// The path extractor parameter lines, one per path-bound field.
pub open spec fn spec_path_lines(fields: Seq<FieldV>) -> Seq<char>
    decreases fields.len(),
{
    if fields.len() == 0 {
        Seq::empty()
    } else {
        spec_path_lines(fields.drop_last()) + spec_path_line(fields.last())
    }
}

/// The path extractor parameters, absent when no field is path-bound.
pub open spec fn spec_path_extractor(fields: Seq<FieldV>) -> Option<Seq<char>> {
    if fields.len() == 0 {
        None
    } else {
        Some(spec_path_lines(fields))
    }
}

/// The query extractor parameter: a destructuring extractor for a
/// synthesized struct, or a plain extractor of the original type.
pub open spec fn spec_query_extractor(q: Option<DetailsV>, req: Seq<char>) -> Option<Seq<char>> {
    match q {
        None => None,
        Some(d) => match d.handling {
            HandlingV::Extract(ns) => Some(
                "    Query(super::"@ + d.ty + " { "@ + spec_join(ns, ", "@) + " }): Query<super::"@
                    + d.ty + ">,\n"@,
            ),
            HandlingV::Single(n) => Some(
                "    Query(super::"@ + d.ty + " { "@ + n + " }): Query<super::"@ + d.ty + ">,\n"@,
            ),
            HandlingV::Verbatim => Some("    "@ + req + ": Query<super::"@ + d.ty + ">,\n"@),
        },
    }
}

/// The body extractor parameter: a destructuring JSON extractor for a
/// synthesized or nested type, or a plain JSON (or, for a
/// client-streaming method, JSON-lines) extractor of the original
/// type.
pub open spec fn spec_body_extractor(
    b: Option<DetailsV>,
    client_streaming: bool,
    req: Seq<char>,
) -> Option<Seq<char>> {
    match b {
        None => None,
        Some(d) => match d.handling {
            HandlingV::Extract(ns) => Some(
                "    Json(super::"@ + d.ty + " { "@ + spec_join(ns, ", "@) + " }): Json<super::"@
                    + d.ty + ">,\n"@,
            ),
            HandlingV::Single(n) => Some(
                "    Json(super::"@ + d.ty + " { "@ + n + " }): Json<super::"@ + d.ty + ">,\n"@,
            ),
            HandlingV::Verbatim => {
                if client_streaming {
                    Some("    "@ + req + ": JsonLines<super::"@ + d.ty + ">,\n"@)
                } else {
                    Some("    "@ + req + ": Json<super::"@ + d.ty + ">,\n"@)
                }
            },
        },
    }
}

/// The names a sub-message contributes to the request-rebuilding
/// statement: only destructured ones.
pub open spec fn spec_extracted_of(d: Option<DetailsV>) -> Seq<Seq<char>> {
    match d {
        None => Seq::empty(),
        Some(dd) => match dd.handling {
            HandlingV::Extract(ns) => ns,
            HandlingV::Single(n) => seq![n],
            HandlingV::Verbatim => Seq::empty(),
        },
    }
}

/// The names extracted by path and query parameters.
pub open spec fn spec_extracted_path_query(d: MethodDetailsV) -> Seq<Seq<char>> {
    spec_field_names(d.path_fields) + spec_extracted_of(d.query)
}

/// All extracted names, in parameter order.
pub open spec fn spec_extracted(d: MethodDetailsV) -> Seq<Seq<char>> {
    spec_extracted_path_query(d) + spec_extracted_of(d.body)
}

/// The request-rebuilding statement, present when any field was
/// extracted piecemeal.
pub open spec fn spec_request_builder(
    extracted: Seq<Seq<char>>,
    input_type: Seq<char>,
    req: Seq<char>,
) -> Option<Seq<char>> {
    if extracted.len() == 0 {
        None
    } else {
        Some(
            "    let "@ + req + " = super::"@ + input_type + " { "@ + spec_join(extracted, ", "@)
                + " };\n"@,
        )
    }
}

/// A client-streaming method cannot carry path or query extractors: no
/// URL shape could feed them. Any query binding counts, whether it
/// destructures a synthesized struct or binds the original message
/// verbatim.
pub open spec fn spec_parts_rejected(d: MethodDetailsV, client_streaming: bool) -> bool {
    client_streaming && (d.path_fields.len() > 0 || d.query is Some)
}

/// The extractor parameters and request-rebuilding statement of one
/// handler.
#[derive(Debug)]
pub struct FunctionParts {
    pub path_extractor: Option<String>,
    pub query_extractor: Option<String>,
    pub body_extractor: Option<String>,
    pub request_builder: Option<String>,
}

/// The view of one optional text.
pub open spec fn text_opt_view(o: Option<String>) -> Option<Seq<char>> {
    match o {
        Some(s) => Some(s@),
        None => None,
    }
}

fn path_lines(fields: &Vec<crate::message::Field>) -> (r: String)
    ensures
        r@ == spec_path_lines(crate::message::fields_view(fields@)),
{
    let ghost fv = crate::message::fields_view(fields@);
    let n = fields.len();
    let mut out = String::new();
    let mut i: usize = 0;
    proof {
        assert(fv.take(0) =~= Seq::<FieldV>::empty());
    }
    while i < n
        invariant
            n == fields.len(),
            fv == crate::message::fields_view(fields@),
            i <= n,
            out@ == spec_path_lines(fv.take(i as int)),
        decreases n - i,
    {
        out.append("    Path(");
        out.append(fields[i].name.as_str());
        out.append("): Path<");
        out.append(fields[i].type_text.as_str());
        out.append(">,\n");
        proof {
            assert(fv.take(i + 1).drop_last() =~= fv.take(i as int));
            assert(fv.take(i + 1).last() == fv[i as int]);
            assert(fv[i as int] == fields@[i as int]@);
        }
        i = i + 1;
    }
    proof {
        assert(fv.take(n as int) =~= fv);
    }
    out
}

impl FunctionParts {
    /// Builds the extractor parameters and request-rebuilding
    /// statement of one handler, rejecting a client-streaming method
    /// that would need path or query extractors.
    pub fn new(
        method_name: &str,
        method_details: &MethodDetails,
        input_type: &str,
        client_streaming: bool,
        req_name: &String,
    ) -> (r: Result<Self, GenError>)
        requires
            !(method_details@.query matches Some(q) && q.handling is Single),
        ensures
            spec_parts_rejected(method_details@, client_streaming) ==> (r matches Err(
                GenError::ClientStreamingExtractors(m),
            ) && m@ == method_name@),
            !spec_parts_rejected(method_details@, client_streaming) ==> (r matches Ok(fp) && {
                &&& text_opt_view(fp.path_extractor) == spec_path_extractor(
                    method_details@.path_fields,
                )
                &&& text_opt_view(fp.query_extractor) == spec_query_extractor(
                    method_details@.query,
                    req_name@,
                )
                &&& text_opt_view(fp.body_extractor) == spec_body_extractor(
                    method_details@.body,
                    client_streaming,
                    req_name@,
                )
                &&& text_opt_view(fp.request_builder) == spec_request_builder(
                    spec_extracted(method_details@),
                    input_type@,
                    req_name@,
                )
            }),
    {
        if client_streaming && (method_details.path_fields.len() > 0
            || method_details.query_str.is_some()) {
            return Err(GenError::ClientStreamingExtractors(String::from_str(method_name)));
        }
        let mut extracted_fields: Vec<String> = Vec::new();

        let path_extractor = if method_details.path_fields.len() == 0 {
            None
        } else {
            let ghost before = views_of(extracted_fields@);
            let mut names = crate::http::field_names_of(&method_details.path_fields);
            extracted_fields.append(&mut names);
            proof {
                assert(views_of(extracted_fields@) =~= before + spec_field_names(
                    method_details@.path_fields,
                ));
            }
            Some(path_lines(&method_details.path_fields))
        };
        proof {
            if method_details@.path_fields.len() == 0 {
                assert(spec_field_names(method_details@.path_fields) =~= Seq::<Seq<char>>::empty());
            }
            assert(views_of(extracted_fields@) =~= spec_field_names(method_details@.path_fields));
        }

        let query_extractor = match &method_details.query_str {
            None => None,
            Some(d) => match &d.handling {
                crate::http::MessageHandling::ExtractFields(fields) => {
                    let ghost before = views_of(extracted_fields@);
                    let mut fs = Vec::new();
                    let n = fields.len();
                    let mut i: usize = 0;
                    proof {
                        assert(views_of(fs@) =~= views_of(fields@).take(0));
                    }
                    while i < n
                        invariant
                            n == fields.len(),
                            i <= n,
                            views_of(fs@) == views_of(fields@).take(i as int),
                        decreases n - i,
                    {
                        let ghost prev = fs@;
                        fs.push(fields[i].clone());
                        proof {
                            assert(views_of(fs@) =~= views_of(prev).push(fields@[i as int]@));
                            assert(views_of(fields@).take(i + 1).drop_last() =~= views_of(
                                fields@,
                            ).take(i as int));
                            assert(views_of(fields@).take(i + 1).last() == views_of(
                                fields@,
                            )[i as int]);
                            assert(views_of(fields@).take(i + 1) =~= views_of(fields@).take(
                                i as int,
                            ).push(views_of(fields@)[i as int]));
                        }
                        i = i + 1;
                    }
                    proof {
                        assert(views_of(fields@).take(n as int) =~= views_of(fields@));
                    }
                    extracted_fields.append(&mut fs);
                    proof {
                        assert(views_of(extracted_fields@) =~= before + views_of(fields@));
                    }
                    let mut s = String::from_str("    Query(super::");
                    s.append(d.type_text.as_str());
                    s.append(" { ");
                    let joined = join_names(fields, ", ");
                    s.append(joined.as_str());
                    s.append(" }): Query<super::");
                    s.append(d.type_text.as_str());
                    s.append(">,\n");
                    Some(s)
                },
                crate::http::MessageHandling::ExtractSingleField(_) => {
                    // The resolver never produces a single-field query
                    // binding; ruled out by this function's contract.
                    proof {
                        assert(false);
                    }
                    None
                },
                crate::http::MessageHandling::VerbatimRequest => {
                    let mut s = String::from_str("    ");
                    s.append(req_name.as_str());
                    s.append(": Query<super::");
                    s.append(d.type_text.as_str());
                    s.append(">,\n");
                    Some(s)
                },
            },
        };
        proof {
            assert(views_of(extracted_fields@) =~= spec_extracted_path_query(method_details@));
        }
        let body_extractor = match &method_details.body {
            None => None,
            Some(d) => match &d.handling {
                crate::http::MessageHandling::ExtractFields(fields) => {
                    let ghost before = views_of(extracted_fields@);
                    let mut fs = Vec::new();
                    let n = fields.len();
                    let mut i: usize = 0;
                    proof {
                        assert(views_of(fs@) =~= views_of(fields@).take(0));
                    }
                    while i < n
                        invariant
                            n == fields.len(),
                            i <= n,
                            views_of(fs@) == views_of(fields@).take(i as int),
                        decreases n - i,
                    {
                        let ghost prev = fs@;
                        fs.push(fields[i].clone());
                        proof {
                            assert(views_of(fs@) =~= views_of(prev).push(fields@[i as int]@));
                            assert(views_of(fields@).take(i + 1) =~= views_of(fields@).take(
                                i as int,
                            ).push(views_of(fields@)[i as int]));
                        }
                        i = i + 1;
                    }
                    proof {
                        assert(views_of(fields@).take(n as int) =~= views_of(fields@));
                    }
                    extracted_fields.append(&mut fs);
                    proof {
                        assert(views_of(extracted_fields@) =~= before + views_of(fields@));
                    }
                    let mut s = String::from_str("    Json(super::");
                    s.append(d.type_text.as_str());
                    s.append(" { ");
                    let joined = join_names(fields, ", ");
                    s.append(joined.as_str());
                    s.append(" }): Json<super::");
                    s.append(d.type_text.as_str());
                    s.append(">,\n");
                    Some(s)
                },
                crate::http::MessageHandling::ExtractSingleField(field) => {
                    let ghost before = views_of(extracted_fields@);
                    extracted_fields.push(field.clone());
                    proof {
                        assert(views_of(extracted_fields@) =~= before + seq![field@]);
                    }
                    let mut s = String::from_str("    Json(super::");
                    s.append(d.type_text.as_str());
                    s.append(" { ");
                    s.append(field.as_str());
                    s.append(" }): Json<super::");
                    s.append(d.type_text.as_str());
                    s.append(">,\n");
                    proof {
                        assert(s@ =~= "    Json(super::"@ + d.type_text@ + " { "@ + field@
                            + " }): Json<super::"@ + d.type_text@ + ">,\n"@);
                    }
                    Some(s)
                },
                crate::http::MessageHandling::VerbatimRequest => {
                    let mut s = String::from_str("    ");
                    s.append(req_name.as_str());
                    if client_streaming {
                        s.append(": JsonLines<super::");
                    } else {
                        s.append(": Json<super::");
                    }
                    s.append(d.type_text.as_str());
                    s.append(">,\n");
                    Some(s)
                },
            },
        };
        proof {
            assert(views_of(extracted_fields@) =~= spec_extracted(method_details@));
        }

        let request_builder = if extracted_fields.len() == 0 {
            None
        } else {
            let mut s = String::from_str("    let ");
            s.append(req_name.as_str());
            s.append(" = super::");
            s.append(input_type);
            s.append(" { ");
            let joined = join_names(&extracted_fields, ", ");
            s.append(joined.as_str());
            s.append(" };\n");
            Some(s)
        };

        Ok(FunctionParts { path_extractor, query_extractor, body_extractor, request_builder })
    }

    /// The body is bound verbatim and nothing is rebuilt: the body
    /// extractor's payload is the request itself.
    pub fn verbatim_request(&self) -> (r: bool)
        ensures
            r == (self.body_extractor is Some && self.request_builder is None),
    {
        self.body_extractor.is_some() && self.request_builder.is_none()
    }

    /// No body extractor and nothing rebuilt: the request is empty.
    pub fn empty_request(&self) -> (r: bool)
        ensures
            r == (self.body_extractor is None && self.request_builder is None),
    {
        self.body_extractor.is_none() && self.request_builder.is_none()
    }
}

/// Client-streaming rejection: a binding resolved for a
/// client-streaming method whose template carries any placeholder is
/// rejected when the handler parts are built, never silently dropped.
pub proof fn lemma_client_streaming_rejection(
    rule: crate::http::HttpOptionV,
    msg: crate::message::MsgV,
    existing: Seq<crate::message::MsgV>,
    body_buckets: Seq<crate::message::BucketV>,
    query_buckets: Seq<crate::message::BucketV>,
    bsuffix: Seq<char>,
    qsuffix: Seq<char>,
    tsuffix: Seq<char>,
)
    requires
        crate::http::pattern_placeholders(rule.pattern).len() > 0,
    ensures
        crate::http::spec_resolve(
            rule,
            msg,
            existing,
            body_buckets,
            query_buckets,
            bsuffix,
            qsuffix,
            tsuffix,
        ) matches Ok(out) ==> spec_parts_rejected(out.0, true),
{
    crate::http::lemma_extract_path_names(msg.fields, crate::http::pattern_placeholders(rule.pattern));
    match crate::http::spec_resolve(
        rule,
        msg,
        existing,
        body_buckets,
        query_buckets,
        bsuffix,
        qsuffix,
        tsuffix,
    ) {
        Ok(out) => {
            assert(out.0.path_fields.len() > 0);
            assert(spec_field_names(out.0.path_fields).len() > 0);
        },
        Err(_) => {},
    }
}

} // verus!
