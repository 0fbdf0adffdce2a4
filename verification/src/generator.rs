//! The per-service generation pass: resolving each method's binding,
//! emitting its handler and route, the WebSocket handlers of streaming
//! methods, the service router, and the synthesized struct
//! declarations collected over the whole run.

use vstd::prelude::*;

use crate::config::{security_opt_view, GeneratorConfig, SecV};
use crate::emit::{
    spec_body_extractor, spec_extracted, spec_join, spec_parts_rejected, spec_path_extractor,
    spec_query_extractor, spec_request_builder, spec_service_type, FunctionParts, ServiceType,
    ValueNames,
};
use crate::errors::GenError;
use crate::http::{spec_resolve, MethodDetails, MethodDetailsV, ResolveErr};
use crate::message::{
    flatten_buckets, msg_index, BucketV, ExistingMessages, Message, MsgV, NewMessages,
};
use crate::options::{spec_get_http_options, HttpOptions, ServiceDecl, SvcOptV};
use crate::text::{escape_seq, escape_str, snake_of, views_of};

verus! {

// *** The service model ***

/// The model of one method to generate for.
pub ghost struct MethodModelV {
    pub name: Seq<char>,
    pub proto_name: Seq<char>,
    pub input_type: Seq<char>,
    pub output_type: Seq<char>,
    pub client_streaming: bool,
    pub server_streaming: bool,
    pub comment: Seq<char>,
}

/// One method of a service, as the host pipeline describes it: its
/// generated function name, its declared name, its input and output
/// type names, its streaming flags, and its joined leading comment.
#[derive(Debug)]
pub struct MethodModel {
    pub name: String,
    pub proto_name: String,
    pub input_type: String,
    pub output_type: String,
    pub client_streaming: bool,
    pub server_streaming: bool,
    pub comment: String,
}

impl View for MethodModel {
    type V = MethodModelV;

    open spec fn view(&self) -> MethodModelV {
        MethodModelV {
            name: self.name@,
            proto_name: self.proto_name@,
            input_type: self.input_type@,
            output_type: self.output_type@,
            client_streaming: self.client_streaming,
            server_streaming: self.server_streaming,
            comment: self.comment@,
        }
    }
}

/// The model of one service to generate for.
pub ghost struct ServiceModelV {
    pub name: Seq<char>,
    pub methods: Seq<MethodModelV>,
}

/// One service, as the host pipeline describes it.
#[derive(Debug)]
pub struct ServiceModel {
    pub name: String,
    pub methods: Vec<MethodModel>,
}

impl View for ServiceModel {
    type V = ServiceModelV;

    open spec fn view(&self) -> ServiceModelV {
        ServiceModelV { name: self.name@, methods: self.methods@.map_values(|m: MethodModel| m@) }
    }
}

// *** The model of a generation error ***

/// The model of a generation error.
pub ghost enum GenErrV {
    PathFieldNotFound(Seq<char>),
    BodyFieldNotFound(Seq<char>),
    MessageNotFound(Seq<char>, Seq<char>, Seq<char>),
    ClientStreamingExtractors(Seq<char>),
    ClientStreamingTraitObject(Seq<char>),
    GenericStateOpenApi(Seq<char>),
    EmptyConfigValue(Seq<char>),
}

impl View for GenError {
    type V = GenErrV;

    open spec fn view(&self) -> GenErrV {
        match self {
            GenError::PathFieldNotFound(n) => GenErrV::PathFieldNotFound(n@),
            GenError::BodyFieldNotFound(n) => GenErrV::BodyFieldNotFound(n@),
            GenError::MessageNotFound(i, s, m) => GenErrV::MessageNotFound(i@, s@, m@),
            GenError::ClientStreamingExtractors(m) => GenErrV::ClientStreamingExtractors(m@),
            GenError::ClientStreamingTraitObject(s) => GenErrV::ClientStreamingTraitObject(s@),
            GenError::GenericStateOpenApi(s) => GenErrV::GenericStateOpenApi(s@),
            GenError::EmptyConfigValue(s) => GenErrV::EmptyConfigValue(s@),
        }
    }
}

// *** Text building blocks ***

/// The concatenation of a list of texts.
pub open spec fn spec_concat(ts: Seq<Seq<char>>) -> Seq<char>
    decreases ts.len(),
{
    if ts.len() == 0 {
        Seq::empty()
    } else {
        spec_concat(ts.drop_last()) + ts.last()
    }
}

/// Concatenates a list of texts.
pub fn concat_texts(ts: &Vec<String>) -> (r: String)
    ensures
        r@ == spec_concat(views_of(ts@)),
{
    let ghost tv = views_of(ts@);
    let n = ts.len();
    let mut out = String::new();
    let mut i: usize = 0;
    proof {
        assert(tv.take(0) =~= Seq::<Seq<char>>::empty());
    }
    while i < n
        invariant
            n == ts.len(),
            tv == views_of(ts@),
            i <= n,
            out@ == spec_concat(tv.take(i as int)),
        decreases n - i,
    {
        out.append(ts[i].as_str());
        proof {
            assert(tv.take(i + 1).drop_last() =~= tv.take(i as int));
            assert(tv.take(i + 1).last() == tv[i as int]);
            assert(tv[i as int] == ts@[i as int]@);
        }
        i = i + 1;
    }
    proof {
        assert(tv.take(n as int) =~= tv);
    }
    out
}

/// An optional text, or nothing.
pub open spec fn opt_text(o: Option<Seq<char>>) -> Seq<char> {
    match o {
        Some(t) => t,
        None => Seq::empty(),
    }
}

/// Documentation lines written with `///` markers under the given
/// indent.
pub open spec fn spec_doc_lines(doc: Seq<Seq<char>>, indent: Seq<char>) -> Seq<char>
    decreases doc.len(),
{
    if doc.len() == 0 {
        Seq::empty()
    } else {
        spec_doc_lines(doc.drop_last(), indent) + indent + "/// "@ + doc.last() + "\n"@
    }
}

/// Writes documentation lines with `///` markers under an indent.
pub fn doc_lines(doc: &crate::message::DocComments, indent: &str) -> (r: String)
    ensures
        r@ == spec_doc_lines(doc@, indent@),
{
    let lines = doc.lines();
    let ghost dv = doc@;
    let n = lines.len();
    let mut out = String::new();
    let mut i: usize = 0;
    proof {
        assert(dv.take(0) =~= Seq::<Seq<char>>::empty());
    }
    while i < n
        invariant
            n == lines.len(),
            dv == views_of(lines@),
            i <= n,
            out@ == spec_doc_lines(dv.take(i as int), indent@),
        decreases n - i,
    {
        out.append(indent);
        out.append("/// ");
        out.append(lines[i].as_str());
        out.append("\n");
        proof {
            assert(dv.take(i + 1).drop_last() =~= dv.take(i as int));
            assert(dv.take(i + 1).last() == dv[i as int]);
            assert(dv[i as int] == lines@[i as int]@);
        }
        i = i + 1;
    }
    proof {
        assert(dv.take(n as int) =~= dv);
    }
    out
}

/// The derive attributes of one synthesized struct: always
/// deserializable; under OpenAPI generation, body structs are schemas
/// and query structs are parameter sets.
pub open spec fn spec_derive_attr(body: bool, openapi: bool) -> Seq<char> {
    if openapi {
        if body {
            "#[derive(serde::Deserialize, utoipa::ToSchema)]\n"@
        } else {
            "#[derive(serde::Deserialize, utoipa::IntoParams)]\n#[into_params(parameter_in = Query)]\n"@
        }
    } else {
        "#[derive(serde::Deserialize)]\n"@
    }
}

/// One field declaration of a synthesized struct.
pub open spec fn spec_struct_field(f: crate::message::FieldV) -> Seq<char> {
    spec_doc_lines(f.doc, "    "@) + "    pub "@ + f.name + ": "@ + f.ty + ",\n"@
}

/// The field declarations of a synthesized struct.
pub open spec fn spec_struct_fields(fields: Seq<crate::message::FieldV>) -> Seq<char>
    decreases fields.len(),
{
    if fields.len() == 0 {
        Seq::empty()
    } else {
        spec_struct_fields(fields.drop_last()) + spec_struct_field(fields.last())
    }
}

/// One synthesized struct declaration, with overriding documentation
/// when configured.
pub open spec fn spec_struct_text(
    m: MsgV,
    body: bool,
    openapi: bool,
    doc_override: Option<Seq<Seq<char>>>,
) -> Seq<char> {
    let doc = match doc_override {
        Some(d) => d,
        None => m.doc,
    };
    spec_doc_lines(doc, Seq::empty()) + spec_derive_attr(body, openapi) + "pub struct "@ + m.name
        + " {\n"@ + spec_struct_fields(m.fields) + "}\n"@
}

/// The documentation attribute of a handler, when the method has
/// leading comments.
pub open spec fn spec_doc_attr(comment: Seq<char>) -> Seq<char> {
    if comment.len() == 0 {
        Seq::empty()
    } else {
        "#[doc = \""@ + escape_seq(comment) + "\"]\n"@
    }
}

// *** The OpenAPI path attribute ***

/// The security scheme applied to one service, per the configuration.
pub open spec fn spec_security_scheme(sec: Option<SecV>, service: Seq<char>) -> Option<Seq<char>> {
    match sec {
        None => None,
        Some(SecV::All(s)) => Some(s),
        Some(SecV::Specific(s, svcs)) => {
            if svcs.contains(service) {
                Some(s)
            } else {
                None
            }
        },
        Some(SecV::Except(s, svcs)) => {
            if svcs.contains(service) {
                None
            } else {
                Some(s)
            }
        },
    }
}

/// One documented path parameter.
pub open spec fn spec_path_param(f: crate::message::FieldV) -> Seq<char> {
    "(\""@ + f.name + "\" = "@ + f.ty + ", Path, description = \""@ + escape_seq(
        spec_join(f.doc, "\n"@),
    ) + "\")"@
}

/// The documented path parameters, in order.
pub open spec fn spec_path_params(fields: Seq<crate::message::FieldV>) -> Seq<Seq<char>>
    decreases fields.len(),
{
    if fields.len() == 0 {
        Seq::empty()
    } else {
        spec_path_params(fields.drop_last()).push(spec_path_param(fields.last()))
    }
}

/// The `params` clause of the path attribute: the path parameters and
/// the query struct, absent when there is neither.
pub open spec fn spec_params_clause(d: MethodDetailsV) -> Seq<char> {
    if d.path_fields.len() == 0 && d.query is None {
        Seq::empty()
    } else {
        let entries = spec_path_params(d.path_fields) + (match d.query {
            Some(q) => seq!["super::"@ + q.ty],
            None => Seq::empty(),
        });
        ", params("@ + spec_join(entries, ", "@) + ")"@
    }
}

/// The `request_body` clause: the body type, with the streaming
/// content type for a client-streaming method.
pub open spec fn spec_request_body_clause(
    d: MethodDetailsV,
    client_streaming: bool,
    sct: Seq<char>,
) -> Seq<char> {
    match d.body {
        None => Seq::empty(),
        Some(b) => {
            if client_streaming {
                ", request_body(content = super::"@ + b.ty + ", content_type = \""@ + sct
                    + "\")"@
            } else {
                ", request_body = super::"@ + b.ty
            }
        },
    }
}

/// The `responses` clause: absent for a unit output, else a success
/// response of the output type, with the streaming content type for a
/// server-streaming method.
pub open spec fn spec_responses_clause(
    output_type: Seq<char>,
    server_streaming: bool,
    sct: Seq<char>,
) -> Seq<char> {
    if output_type == "()"@ {
        Seq::empty()
    } else {
        ", responses((status = 200, description = \"Success\", body = super::"@ + output_type + (
        if server_streaming {
            ", content_type = \""@ + sct + "\""@
        } else {
            Seq::empty()
        }) + "))"@
    }
}

/// The `security` clause, when a scheme applies to the service.
pub open spec fn spec_security_clause(sec: Option<SecV>, service: Seq<char>) -> Seq<char> {
    match spec_security_scheme(sec, service) {
        Some(s) => ", security(("@ + s + " = []))"@,
        None => Seq::empty(),
    }
}

/// The whole OpenAPI path attribute of one handler.
pub open spec fn spec_openapi_attr(
    service: Seq<char>,
    d: MethodDetailsV,
    m: MethodModelV,
    sct: Seq<char>,
    sec: Option<SecV>,
) -> Seq<char> {
    "#[utoipa::path("@ + d.verb.spec_lower() + ", path = \""@ + escape_seq(d.path) + "\", tag = \""@
        + escape_seq(service) + "\""@ + spec_params_clause(d) + spec_request_body_clause(
        d,
        m.client_streaming,
        sct,
    ) + spec_responses_clause(m.output_type, m.server_streaming, sct) + spec_security_clause(
        sec,
        service,
    ) + ")]\n"@
}

// *** The handler function ***

/// The payload handed to the request adapter: the verbatim body
/// extractor's inner value; the verbatim query extractor's inner
/// value when the query is the only binding; a literal unit for the
/// sentinel empty type; a field-less struct for an empty message; or
/// the rebuilt request binding.
pub open spec fn spec_req_payload(
    body_verbatim: bool,
    query_verbatim: bool,
    empty: bool,
    client_streaming: bool,
    input_type: Seq<char>,
    req: Seq<char>,
) -> Seq<char> {
    if body_verbatim && !client_streaming {
        req + ".0"@
    } else if query_verbatim {
        req + ".0"@
    } else if empty && input_type == "()"@ {
        "()"@
    } else if empty && input_type != "()"@ {
        "super::"@ + input_type + " {}"@
    } else {
        req
    }
}

/// The adapter that wraps the request: the streaming one for a
/// client-streaming method.
pub open spec fn spec_request_func(client_streaming: bool) -> Seq<char> {
    if client_streaming {
        "make_stream_request"@
    } else {
        "make_request"@
    }
}

/// The adapter that wraps the response: the streaming one for a
/// server-streaming method.
pub open spec fn spec_response_func(server_streaming: bool) -> Seq<char> {
    if server_streaming {
        "make_stream_response"@
    } else {
        "make_response"@
    }
}

/// The generation environment of one service: its name, state-type
/// texts, message index, binding index, and the configuration and
/// value names the emitted text depends on.
pub ghost struct EmitEnvV {
    pub service: Seq<char>,
    pub st: crate::emit::ServiceTypeV,
    pub existing: Seq<MsgV>,
    pub options: Seq<SvcOptV>,
    pub openapi: bool,
    pub web_sockets: bool,
    pub sct: Seq<char>,
    pub security: Option<SecV>,
    pub bsuffix: Seq<char>,
    pub qsuffix: Seq<char>,
    pub tsuffix: Seq<char>,
    pub req: Seq<char>,
    pub headers: Seq<char>,
    pub extensions: Seq<char>,
    pub state: Seq<char>,
    pub protobuf: Seq<char>,
    pub ws_upgrade: Seq<char>,
}

/// The generic parameter list of a handler under this environment.
pub open spec fn spec_handler_generics(st: crate::emit::ServiceTypeV) -> Seq<char> {
    match st.generics {
        Some(g) => g.handler_generics,
        None => Seq::empty(),
    }
}

/// The route turbofish under this environment.
pub open spec fn spec_turbofish(st: crate::emit::ServiceTypeV) -> Seq<char> {
    match st.generics {
        Some(g) => g.handler_route_turbofish,
        None => Seq::empty(),
    }
}

/// The whole handler function of one bound method.
pub open spec fn spec_handler_text(env: EmitEnvV, m: MethodModelV, d: MethodDetailsV) -> Seq<
    char,
> {
    let path_extractor = spec_path_extractor(d.path_fields);
    let query_extractor = spec_query_extractor(d.query, env.req);
    let body_extractor = spec_body_extractor(d.body, m.client_streaming, env.req);
    let request_builder = spec_request_builder(spec_extracted(d), m.input_type, env.req);
    let body_verbatim = body_extractor is Some && request_builder is None;
    let query_verbatim = body_extractor is None && request_builder is None
        && query_extractor is Some;
    let empty = body_extractor is None && request_builder is None && query_extractor is None;
    let payload = spec_req_payload(
        body_verbatim,
        query_verbatim,
        empty,
        m.client_streaming,
        m.input_type,
        env.req,
    );
    let path_attr = if env.openapi {
        spec_openapi_attr(env.service, d, m, env.sct, env.security)
    } else {
        Seq::empty()
    };
    spec_doc_attr(m.comment) + path_attr + "pub async fn "@ + m.name + spec_handler_generics(
        env.st,
    ) + "(\n"@ + "    State("@ + env.state + "): State<"@ + env.st.state_type_name + ">,\n"@
        + opt_text(path_extractor) + opt_text(query_extractor) + "    "@ + env.headers
        + ": http::HeaderMap,\n"@ + "    "@ + env.extensions + ": http::Extensions,\n"@ + opt_text(
        body_extractor,
    ) + ") -> http::Response<Body> {\n"@ + opt_text(request_builder) + "    let "@ + env.req
        + " = tonic2axum::"@ + spec_request_func(m.client_streaming) + "("@ + env.headers + ", "@
        + env.extensions + ", "@ + payload + ");\n"@ + "    tonic2axum::"@ + spec_response_func(
        m.server_streaming,
    ) + "("@ + env.state + "."@ + m.name + "("@ + env.req + ").await)\n"@ + "}\n"@
}

/// The route registration of one bound method.
pub open spec fn spec_route_text(env: EmitEnvV, m: MethodModelV, d: MethodDetailsV) -> Seq<char> {
    if env.openapi {
        ".routes(routes!("@ + m.name + "))"@
    } else {
        ".route(\""@ + escape_seq(d.path) + "\", "@ + d.verb.spec_lower() + "("@ + m.name
            + spec_turbofish(env.st) + "))"@
    }
}

// *** The WebSocket handler ***

/// The callback body of the WebSocket handler, by streaming shape.
pub open spec fn spec_ws_callback(env: EmitEnvV, m: MethodModelV) -> Seq<char> {
    if m.client_streaming && m.server_streaming {
        "            let request = tonic2axum::make_ws_stream_request("@ + env.headers + ", "@
            + env.extensions + ", stream);\n"@ + "            let response = "@ + env.state + "."@
            + m.name + "(request).await;\n"@
            + "            tonic2axum::process_ws_stream_response(response, sink, "@ + env.protobuf
            + ").await;\n"@
    } else if m.client_streaming {
        "            let request = tonic2axum::make_ws_stream_request("@ + env.headers + ", "@
            + env.extensions + ", stream);\n"@ + "            let response = "@ + env.state + "."@
            + m.name + "(request).await;\n"@
            + "            tonic2axum::process_ws_response(response, sink, "@ + env.protobuf
            + ").await;\n"@
    } else {
        "            match tonic2axum::make_ws_request("@ + env.headers + ", "@ + env.extensions
            + ", stream).await {\n"@ + "                Some(request) => {\n"@
            + "                    let response = "@ + env.state + "."@ + m.name
            + "(request).await;\n"@
            + "                    tonic2axum::process_ws_stream_response(response, sink, "@
            + env.protobuf + ").await;\n"@ + "                }\n"@ + "                None => {\n"@
            + "                    tonic2axum::close_ws(sink, tonic::Status::aborted(\"No request received\")).await;\n"@
            + "                }\n"@ + "            }\n"@
    }
}

/// The signature and upgrade call of the WebSocket handler, up to the
/// callback.
pub open spec fn spec_ws_sig(env: EmitEnvV, m: MethodModelV) -> Seq<char> {
    spec_doc_attr(m.comment) + "pub async fn "@ + m.name + "_ws"@ + spec_handler_generics(env.st)
        + "(\n"@ + "    State(("@ + env.state + ", "@ + env.protobuf + ")): State<("@
        + env.st.state_type_name + ", bool)>,\n"@ + "    "@ + env.ws_upgrade
        + ": WebSocketUpgrade,\n"@ + "    "@ + env.headers + ": http::HeaderMap,\n"@ + "    "@
        + env.extensions + ": http::Extensions,\n"@ + ") -> Response {\n"@
        + "    tonic2axum::upgrade_to_ws(\n"@ + "        "@ + env.ws_upgrade + ",\n"@ + "        "@
        + env.headers + ",\n"@ + "        "@ + env.extensions + ",\n"@ + "        "@ + env.protobuf
        + ",\n"@ + "        |"@ + env.headers + ", "@ + env.extensions + ", stream, sink, "@
        + env.protobuf
}

/// The WebSocket upgrade handler of one streaming method.
pub open spec fn spec_ws_handler_text(env: EmitEnvV, m: MethodModelV) -> Seq<char> {
    spec_ws_sig(env, m) + "| async move {\n"@ + spec_ws_callback(env, m) + "        },\n"@
        + "    )\n"@ + "    .await\n"@ + "}\n"@
}

/// A WebSocket route of one streaming method, under the given frame
/// suffix.
pub open spec fn spec_ws_route_text(
    env: EmitEnvV,
    m: MethodModelV,
    path: Seq<char>,
    frame: Seq<char>,
) -> Seq<char> {
    ".route(\""@ + escape_seq(path) + frame + "\", any("@ + m.name + "_ws"@ + spec_turbofish(
        env.st,
    ) + "))"@
}


// *** The router and module ***

/// Route registrations indented into the router body.
pub open spec fn spec_route_lines(routes: Seq<Seq<char>>) -> Seq<char>
    decreases routes.len(),
{
    if routes.len() == 0 {
        Seq::empty()
    } else {
        spec_route_lines(routes.drop_last()) + "        "@ + routes.last() + "\n"@
    }
}

/// The router generics under this environment.
pub open spec fn spec_router_generics(st: crate::emit::ServiceTypeV) -> Seq<char> {
    match st.generics {
        Some(g) => g.router_generics,
        None => Seq::empty(),
    }
}

/// The router type used: the documented router under OpenAPI
/// generation, the conventional one otherwise.
pub open spec fn spec_router_type(openapi: bool) -> Seq<char> {
    if openapi {
        "OpenApiRouter"@
    } else {
        "Router"@
    }
}

/// The service's router-construction function: the plain shape, or,
/// when WebSocket routes exist, two sub-routers carrying the wire
/// encoding in their state, merged in.
pub open spec fn spec_router_text(
    env: EmitEnvV,
    router_func_name: Seq<char>,
    routes: Seq<Seq<char>>,
    ws_proto: Seq<Seq<char>>,
    ws_json: Seq<Seq<char>>,
) -> Seq<char> {
    let rt = spec_router_type(env.openapi);
    let head = "/// Axum router for the "@ + env.service + " service\n"@ + "pub fn "@
        + router_func_name + spec_router_generics(env.st) + "(state: "@ + env.st.state_type_name
        + ") -> "@ + rt + " {\n"@;
    if ws_proto.len() == 0 {
        head + "    "@ + rt + "::new()\n"@ + spec_route_lines(routes)
            + "        .with_state(state)\n"@ + "}\n"@
    } else {
        let merge = if env.openapi {
            "        .merge(OpenApiRouter::from(ws_proto))\n        .merge(OpenApiRouter::from(ws_json))\n"@
        } else {
            "        .merge(ws_proto)\n        .merge(ws_json)\n"@
        };
        head + "    let ws_proto = Router::new()\n"@ + spec_route_lines(ws_proto)
            + "        .with_state((state.clone(), true));\n"@
            + "    let ws_json = Router::new()\n"@ + spec_route_lines(ws_json)
            + "        .with_state((state.clone(), false));\n"@ + "    "@ + rt + "::new()\n"@
            + spec_route_lines(routes) + "        .with_state(state)\n"@ + merge + "}\n"@
    }
}

/// The per-service module: imports chosen by what the handlers need,
/// the handler functions, the WebSocket handlers, and the router.
pub open spec fn spec_module_text(
    env: EmitEnvV,
    mod_name: Seq<char>,
    has_cs: bool,
    funcs: Seq<Seq<char>>,
    ws_funcs: Seq<Seq<char>>,
    router: Seq<char>,
) -> Seq<char> {
    "/// Generated axum handlers and router.\n"@ + "pub mod "@ + mod_name + " {\n"@
        + "    #![allow(unused_imports)]\n\n"@ + "    use std::sync::Arc;\n\n"@
        + "    use axum::Json;\n    use axum::body::Body;\n    use axum::extract::{Path, Query, State};\n    use axum::routing::{any, get, post, put, delete, patch};\n    use axum::Router;\n"@
        + (if has_cs {
        "    use axum_extra::json_lines::JsonLines;\n"@
    } else {
        Seq::empty()
    }) + (if ws_funcs.len() > 0 {
        "    use axum::extract::WebSocketUpgrade;\n    use axum::response::Response;\n"@
    } else {
        Seq::empty()
    }) + (if env.openapi {
        "    use utoipa_axum::routes;\n    use utoipa_axum::router::OpenApiRouter;\n"@
    } else {
        Seq::empty()
    }) + (match env.st.use_trait {
        Some(u) => "    "@ + u + "\n"@,
        None => Seq::empty(),
    }) + "\n"@ + spec_concat(funcs) + spec_concat(ws_funcs) + router + "}\n"@
}

// *** The per-method fold ***

/// What generating one method yields: nothing for a method without a
/// binding, else its handler and route texts and the registries after
/// any synthesis, or the first error.
pub open spec fn spec_generate_func(
    env: EmitEnvV,
    m: MethodModelV,
    body_buckets: Seq<BucketV>,
    query_buckets: Seq<BucketV>,
) -> Result<Option<(Seq<char>, Seq<char>, Seq<BucketV>, Seq<BucketV>)>, GenErrV> {
    let mk = msg_index(env.existing, m.input_type);
    if mk < 0 {
        Err(GenErrV::MessageNotFound(m.input_type, env.service, m.name))
    } else {
        match spec_get_http_options(env.options, env.service, m.proto_name) {
            None => Ok(None),
            Some(hv) => match spec_resolve(
                hv,
                env.existing[mk],
                env.existing,
                body_buckets,
                query_buckets,
                env.bsuffix,
                env.qsuffix,
                env.tsuffix,
            ) {
                Err(ResolveErr::Path(n)) => Err(GenErrV::PathFieldNotFound(n)),
                Err(ResolveErr::Body(n)) => Err(GenErrV::BodyFieldNotFound(n)),
                Ok(out) => {
                    if spec_parts_rejected(out.0, m.client_streaming) {
                        Err(GenErrV::ClientStreamingExtractors(m.name))
                    } else {
                        Ok(
                            Some(
                                (
                                    spec_handler_text(env, m, out.0),
                                    spec_route_text(env, m, out.0),
                                    out.1,
                                    out.2,
                                ),
                            ),
                        )
                    }
                },
            },
        }
    }
}

/// The accumulated outputs of the per-method loop.
pub ghost struct GenAccV {
    pub funcs: Seq<Seq<char>>,
    pub routes: Seq<Seq<char>>,
    pub ws_funcs: Seq<Seq<char>>,
    pub ws_proto: Seq<Seq<char>>,
    pub ws_json: Seq<Seq<char>>,
    pub body_buckets: Seq<BucketV>,
    pub query_buckets: Seq<BucketV>,
    pub has_cs: bool,
}

/// One step of the per-method loop: generate the method, and for a
/// streaming method under WebSocket generation also its upgrade
/// handler and frame routes.
pub open spec fn spec_gen_step(env: EmitEnvV, acc: GenAccV, m: MethodModelV) -> Result<
    GenAccV,
    GenErrV,
> {
    match spec_generate_func(env, m, acc.body_buckets, acc.query_buckets) {
        Err(e) => Err(e),
        Ok(None) => Ok(acc),
        Ok(Some(out)) => {
            let with_ws = env.web_sockets && (m.client_streaming || m.server_streaming);
            let acc1 = GenAccV {
                funcs: acc.funcs.push(out.0),
                routes: acc.routes.push(out.1),
                body_buckets: out.2,
                query_buckets: out.3,
                has_cs: acc.has_cs || m.client_streaming,
                ..acc
            };
            if with_ws {
                match spec_get_http_options(env.options, env.service, m.proto_name) {
                    Some(hv) => Ok(
                        GenAccV {
                            ws_funcs: acc1.ws_funcs.push(spec_ws_handler_text(env, m)),
                            ws_proto: acc1.ws_proto.push(
                                spec_ws_route_text(env, m, hv.pattern, "/ws/proto"@),
                            ),
                            ws_json: acc1.ws_json.push(
                                spec_ws_route_text(env, m, hv.pattern, "/ws/json"@),
                            ),
                            ..acc1
                        },
                    ),
                    None => Ok(acc1),
                }
            } else {
                Ok(acc1)
            }
        },
    }
}

/// The per-method loop folded over a method list.
pub open spec fn spec_gen_methods(env: EmitEnvV, acc: GenAccV, methods: Seq<MethodModelV>) -> Result<
    GenAccV,
    GenErrV,
>
    decreases methods.len(),
{
    if methods.len() == 0 {
        Ok(acc)
    } else {
        match spec_gen_methods(env, acc, methods.drop_last()) {
            Err(e) => Err(e),
            Ok(a) => spec_gen_step(env, a, methods.last()),
        }
    }
}

/// An error reached on a prefix of the method list is the error of the
/// whole list.
pub proof fn lemma_gen_methods_err_persists(
    env: EmitEnvV,
    acc: GenAccV,
    methods: Seq<MethodModelV>,
    j: int,
)
    requires
        0 <= j <= methods.len(),
        spec_gen_methods(env, acc, methods.take(j)) is Err,
    ensures
        spec_gen_methods(env, acc, methods) == spec_gen_methods(env, acc, methods.take(j)),
    decreases methods.len() - j,
{
    if j < methods.len() {
        assert(methods.take(j + 1).drop_last() =~= methods.take(j));
        assert(spec_gen_methods(env, acc, methods.take(j + 1)) == spec_gen_methods(
            env,
            acc,
            methods.take(j),
        ));
        lemma_gen_methods_err_persists(env, acc, methods, j + 1);
    } else {
        assert(methods.take(j) =~= methods);
    }
}

// *** Struct flushing ***

/// The documentation override configured for a struct name, if any.
pub open spec fn spec_override(
    overrides: Seq<crate::config::DocOverride>,
    name: Seq<char>,
) -> Option<Seq<Seq<char>>> {
    let k = crate::config::doc_override_index(overrides, name);
    if k < 0 {
        None
    } else {
        Some(overrides[k].doc@)
    }
}

/// The struct declarations of a message list, in order.
pub open spec fn spec_structs_text(
    ms: Seq<MsgV>,
    body: bool,
    openapi: bool,
    overrides: Seq<crate::config::DocOverride>,
) -> Seq<char>
    decreases ms.len(),
{
    if ms.len() == 0 {
        Seq::empty()
    } else {
        spec_structs_text(ms.drop_last(), body, openapi, overrides) + spec_struct_text(
            ms.last(),
            body,
            openapi,
            spec_override(overrides, ms.last().name),
        )
    }
}


// *** The generator ***

/// The engine of one generation run: the binding index, the message
/// index, the synthesized-message registry, the emitted per-service
/// modules, and the configuration.
#[derive(Debug)]
pub struct Generator {
    pub options: HttpOptions,
    pub new_messages: NewMessages,
    pub existing_messages: ExistingMessages,
    pub modules: Vec<String>,
    pub value_names: ValueNames,
    pub config: GeneratorConfig,
}

/// The generation environment a generator presents to one service.
pub open spec fn spec_env(
    g: Generator,
    service: Seq<char>,
    st: crate::emit::ServiceTypeV,
) -> EmitEnvV {
    EmitEnvV {
        service,
        st,
        existing: g.existing_messages@,
        options: g.options@,
        openapi: g.config.generate_openapi,
        web_sockets: g.config.generate_web_sockets,
        sct: g.config.streaming_content_type@,
        security: security_opt_view(&g.config.openapi_security),
        bsuffix: g.config.body_message_suffix@,
        qsuffix: g.config.query_message_suffix@,
        tsuffix: g.config.type_suffix@,
        req: g.value_names.req@,
        headers: g.value_names.headers@,
        extensions: g.value_names.extensions@,
        state: g.value_names.state@,
        protobuf: "protobuf"@ + g.config.value_suffix@,
        ws_upgrade: "ws_upgrade"@ + g.config.value_suffix@,
    }
}

/// Returns true when some element of `v` equals `s`.
fn vec_contains_str(v: &Vec<String>, s: &str) -> (r: bool)
    ensures
        r == views_of(v@).contains(s@),
{
    let n = v.len();
    let mut i: usize = 0;
    while i < n
        invariant
            n == v.len(),
            i <= n,
            forall|j: int| 0 <= j < i ==> views_of(v@)[j] != s@,
        decreases n - i,
    {
        if crate::text::string_eq_str(&v[i], s) {
            proof {
                assert(views_of(v@)[i as int] == s@);
            }
            return true;
        }
        proof {
            assert(views_of(v@)[i as int] == v@[i as int]@);
        }
        i = i + 1;
    }
    proof {
        if views_of(v@).contains(s@) {
            let j = choose|j: int| 0 <= j < views_of(v@).len() && views_of(v@)[j] == s@;
            assert(false);
        }
    }
    false
}

impl Generator {
    /// Builds the engine: parses the HTTP binding annotations of every
    /// declared service once, and starts with empty registries.
    pub fn new(services: &Vec<ServiceDecl>, config: GeneratorConfig) -> (r: Self)
        ensures
            r.options@ == crate::options::spec_parse_http_options(
                Seq::empty(),
                services@.map_values(|s: ServiceDecl| s@),
            ),
            r.new_messages@.body == Seq::<BucketV>::empty(),
            r.new_messages@.query == Seq::<BucketV>::empty(),
            r.existing_messages@ == Seq::<MsgV>::empty(),
            r.modules@.len() == 0,
            r.value_names.req@ == "req"@ + config.value_suffix@,
            r.value_names.headers@ == "headers"@ + config.value_suffix@,
            r.value_names.extensions@ == "extensions"@ + config.value_suffix@,
            r.value_names.state@ == "state"@ + config.value_suffix@,
            r.config == config,
    {
        let mut options = HttpOptions::new();
        options.parse_http_options(services);
        let value_names = ValueNames::new(config.value_suffix.as_str());
        Generator {
            options,
            new_messages: NewMessages::new(),
            existing_messages: ExistingMessages::new(),
            modules: Vec::new(),
            value_names,
            config,
        }
    }

    /// Looks up the parsed binding of one method.
    pub fn get_http_options(&self, service_name: &str, method_name: &str) -> (r: Option<
        &crate::http::HttpOption,
    >)
        ensures
            ({
                let o = spec_get_http_options(self.options@, service_name@, method_name@);
                match r {
                    Some(h) => o matches Some(hv) && h@ == hv,
                    None => o is None,
                }
            }),
    {
        self.options.get_http_options(service_name, method_name)
    }

    /// Emits one synthesized struct declaration, applying any
    /// configured documentation override.
    pub fn generate_struct(&self, message: &Message, body: bool) -> (r: String)
        ensures
            r@ == spec_struct_text(
                message@,
                body,
                self.config.generate_openapi,
                spec_override(self.config.struct_doc_comments@, message@.name),
            ),
    {
        proof {
            reveal_strlit("");
            assert(""@ =~= Seq::<char>::empty());
        }
        let mut s = match self.config.get_doc_override(message.name().as_str()) {
            Some(d) => doc_lines(d, ""),
            None => doc_lines(message.doc_comments(), ""),
        };
        if self.config.generate_openapi {
            if body {
                s.append("#[derive(serde::Deserialize, utoipa::ToSchema)]\n");
            } else {
                s.append(
                    "#[derive(serde::Deserialize, utoipa::IntoParams)]\n#[into_params(parameter_in = Query)]\n",
                );
            }
        } else {
            s.append("#[derive(serde::Deserialize)]\n");
        }
        s.append("pub struct ");
        s.append(message.name().as_str());
        s.append(" {\n");
        let fields = message.fields();
        let ghost fv = message@.fields;
        let n = fields.len();
        let ghost head = s@;
        let mut i: usize = 0;
        proof {
            assert(fv.take(0) =~= Seq::<crate::message::FieldV>::empty());
            assert(s@ =~= head + spec_struct_fields(fv.take(0)));
        }
        while i < n
            invariant
                n == fields.len(),
                fv == crate::message::fields_view(fields@),
                i <= n,
                s@ == head + spec_struct_fields(fv.take(i as int)),
            decreases n - i,
        {
            let fd = doc_lines(&fields[i].doc_comments, "    ");
            s.append(fd.as_str());
            s.append("    pub ");
            s.append(fields[i].name.as_str());
            s.append(": ");
            s.append(fields[i].type_text.as_str());
            s.append(",\n");
            proof {
                assert(fv.take(i + 1).drop_last() =~= fv.take(i as int));
                assert(fv.take(i + 1).last() == fv[i as int]);
                assert(fv[i as int] == fields@[i as int]@);
                assert(s@ =~= head + spec_struct_fields(fv.take(i + 1)));
            }
            i = i + 1;
        }
        proof {
            assert(fv.take(n as int) =~= fv);
        }
        s.append("}\n");
        proof {
            assert(s@ =~= spec_struct_text(
                message@,
                body,
                self.config.generate_openapi,
                spec_override(self.config.struct_doc_comments@, message@.name),
            ));
        }
        s
    }

    /// Emits the `params` clause of the path attribute.
    fn params_clause(&self, method_details: &MethodDetails) -> (r: String)
        ensures
            r@ == spec_params_clause(method_details@),
    {
        let ghost dv = method_details@;
        let mut s = String::new();
        if method_details.path_fields.len() == 0 && method_details.query_str.is_none() {
            proof {
                assert(s@ =~= spec_params_clause(dv));
            }
            return s;
        }
        let mut entries: Vec<String> = Vec::new();
        let ghost fv = dv.path_fields;
        let n = method_details.path_fields.len();
        let mut i: usize = 0;
        proof {
            assert(fv.take(0) =~= Seq::<crate::message::FieldV>::empty());
            assert(views_of(entries@) =~= spec_path_params(fv.take(0)));
        }
        while i < n
            invariant
                n == method_details.path_fields.len(),
                fv == crate::message::fields_view(method_details.path_fields@),
                i <= n,
                views_of(entries@) == spec_path_params(fv.take(i as int)),
            decreases n - i,
        {
            let f = &method_details.path_fields[i];
            let mut e = String::from_str("(\"");
            e.append(f.name.as_str());
            e.append("\" = ");
            e.append(f.type_text.as_str());
            e.append(", Path, description = \"");
            let joined = crate::emit::join_names(f.doc_comments.lines(), "\n");
            let ej = escape_str(joined.as_str());
            e.append(ej.as_str());
            e.append("\")");
            let ghost prev = entries@;
            entries.push(e);
            proof {
                assert(fv.take(i + 1).drop_last() =~= fv.take(i as int));
                assert(fv.take(i + 1).last() == fv[i as int]);
                assert(fv[i as int] == method_details.path_fields@[i as int]@);
                assert(views_of(entries@) =~= views_of(prev).push(spec_path_param(fv[i as int])));
            }
            i = i + 1;
        }
        proof {
            assert(fv.take(n as int) =~= fv);
        }
        match &method_details.query_str {
            Some(q) => {
                let mut e = String::from_str("super::");
                e.append(q.type_text.as_str());
                let ghost prev = entries@;
                entries.push(e);
                proof {
                    assert(views_of(entries@) =~= views_of(prev).push("super::"@ + dv.query->0.ty));
                    assert(views_of(entries@) =~= spec_path_params(dv.path_fields) + seq![
                        "super::"@ + dv.query->0.ty,
                    ]);
                }
            },
            None => {
                proof {
                    assert(views_of(entries@) =~= spec_path_params(dv.path_fields)
                        + Seq::<Seq<char>>::empty());
                }
            },
        }
        s.append(", params(");
        let joined = crate::emit::join_names(&entries, ", ");
        s.append(joined.as_str());
        s.append(")");
        proof {
            assert(s@ =~= spec_params_clause(dv));
        }
        s
    }

    /// Emits the `request_body` clause of the path attribute.
    fn request_body_clause(&self, method_details: &MethodDetails, client_streaming: bool) -> (r:
        String)
        ensures
            r@ == spec_request_body_clause(
                method_details@,
                client_streaming,
                self.config.streaming_content_type@,
            ),
    {
        let mut s = String::new();
        match &method_details.body {
            None => {},
            Some(b) => {
                if client_streaming {
                    s.append(", request_body(content = super::");
                    s.append(b.type_text.as_str());
                    s.append(", content_type = \"");
                    s.append(self.config.streaming_content_type.as_str());
                    s.append("\")");
                } else {
                    s.append(", request_body = super::");
                    s.append(b.type_text.as_str());
                }
            },
        }
        proof {
            assert(s@ =~= spec_request_body_clause(
                method_details@,
                client_streaming,
                self.config.streaming_content_type@,
            ));
        }
        s
    }

    /// Emits the `responses` clause of the path attribute.
    fn responses_clause(&self, method: &MethodModel) -> (r: String)
        ensures
            r@ == spec_responses_clause(
                method@.output_type,
                method.server_streaming,
                self.config.streaming_content_type@,
            ),
    {
        let mut s = String::new();
        if crate::text::string_eq_str(&method.output_type, "()") {
        } else {
            s.append(", responses((status = 200, description = \"Success\", body = super::");
            s.append(method.output_type.as_str());
            if method.server_streaming {
                s.append(", content_type = \"");
                s.append(self.config.streaming_content_type.as_str());
                s.append("\"");
            }
            s.append("))");
        }
        proof {
            assert(s@ =~= spec_responses_clause(
                method@.output_type,
                method.server_streaming,
                self.config.streaming_content_type@,
            ));
        }
        s
    }

    /// Emits the `security` clause of the path attribute.
    fn security_clause(&self, service_name: &str) -> (r: String)
        ensures
            r@ == spec_security_clause(
                security_opt_view(&self.config.openapi_security),
                service_name@,
            ),
    {
        let scheme: Option<&String> = match &self.config.openapi_security {
            None => None,
            Some(crate::config::OpenApiSecurity::AllServices(sc)) => Some(sc),
            Some(crate::config::OpenApiSecurity::SpecificServices(sc, svcs)) => {
                if vec_contains_str(svcs, service_name) {
                    Some(sc)
                } else {
                    None
                }
            },
            Some(crate::config::OpenApiSecurity::AllServicesExcept(sc, svcs)) => {
                if vec_contains_str(svcs, service_name) {
                    None
                } else {
                    Some(sc)
                }
            },
        };
        let mut s = String::new();
        match scheme {
            Some(sc) => {
                s.append(", security((");
                s.append(sc.as_str());
                s.append(" = []))");
            },
            None => {},
        }
        proof {
            assert(s@ =~= spec_security_clause(
                security_opt_view(&self.config.openapi_security),
                service_name@,
            ));
        }
        s
    }

    /// Emits the OpenAPI path attribute of one bound method.
    pub fn generate_openapi_path_attr(
        &self,
        service_name: &str,
        method_details: &MethodDetails,
        method: &MethodModel,
    ) -> (r: String)
        ensures
            r@ == spec_openapi_attr(
                service_name@,
                method_details@,
                method@,
                self.config.streaming_content_type@,
                security_opt_view(&self.config.openapi_security),
            ),
    {
        let mut s = String::from_str("#[utoipa::path(");
        s.append(method_details.verb.lower_text());
        s.append(", path = \"");
        let ep = escape_str(method_details.path.as_str());
        s.append(ep.as_str());
        s.append("\", tag = \"");
        let et = escape_str(service_name);
        s.append(et.as_str());
        s.append("\"");
        let params = self.params_clause(method_details);
        s.append(params.as_str());
        let request_body = self.request_body_clause(method_details, method.client_streaming);
        s.append(request_body.as_str());
        let responses = self.responses_clause(method);
        s.append(responses.as_str());
        let security = self.security_clause(service_name);
        s.append(security.as_str());
        s.append(")]\n");
        proof {
            assert(s@ =~= spec_openapi_attr(
                service_name@,
                method_details@,
                method@,
                self.config.streaming_content_type@,
                security_opt_view(&self.config.openapi_security),
            ));
        }
        s
    }

    /// Generates the handler function and route registration of one
    /// method, or nothing when the method has no binding; fails when
    /// the method's input message is unknown, when the binding
    /// references a missing field, or when a client-streaming method
    /// would need path or query extractors.
    #[verifier::rlimit(100)]
    pub fn generate_func(
        &mut self,
        service_name: &str,
        method: &MethodModel,
        service_type: &ServiceType,
    ) -> (r: Result<Option<(String, String)>, GenError>)
        ensures
            final(self).options == old(self).options,
            final(self).existing_messages == old(self).existing_messages,
            final(self).modules == old(self).modules,
            final(self).value_names == old(self).value_names,
            final(self).config == old(self).config,
            ({
                let env = spec_env(*old(self), service_name@, service_type@);
                match spec_generate_func(
                    env,
                    method@,
                    old(self).new_messages@.body,
                    old(self).new_messages@.query,
                ) {
                    Err(ev) => r matches Err(e) && e@ == ev,
                    Ok(None) => {
                        &&& r matches Ok(o) && o is None
                        &&& final(self).new_messages@ == old(self).new_messages@
                    },
                    Ok(Some(out)) => {
                        &&& r matches Ok(o) && o matches Some(p) && p.0@ == out.0 && p.1@ == out.1
                        &&& final(self).new_messages@.body == out.2
                        &&& final(self).new_messages@.query == out.3
                    },
                }
            }),
            ({
                // The registries after the call, on every outcome: a
                // failure before resolution leaves them unchanged;
                // after resolution they hold what resolution
                // synthesized.
                let env = spec_env(*old(self), service_name@, service_type@);
                let mk = msg_index(env.existing, method@.input_type);
                let o = spec_get_http_options(env.options, env.service, method@.proto_name);
                if mk < 0 || o is None {
                    final(self).new_messages@ == old(self).new_messages@
                } else {
                    match spec_resolve(
                        o->0,
                        env.existing[mk],
                        env.existing,
                        old(self).new_messages@.body,
                        old(self).new_messages@.query,
                        env.bsuffix,
                        env.qsuffix,
                        env.tsuffix,
                    ) {
                        Ok(out) => {
                            &&& final(self).new_messages@.body == out.1
                            &&& final(self).new_messages@.query == out.2
                        },
                        Err(_) => final(self).new_messages@ == old(self).new_messages@,
                    }
                }
            }),
    {
        let ghost env = spec_env(*self, service_name@, service_type@);
        let message = match self.existing_messages.get_message(method.input_type.as_str()) {
            Some(m) => m.clone(),
            None => {
                return Err(GenError::MessageNotFound(
                    method.input_type.clone(),
                    String::from_str(service_name),
                    method.name.clone(),
                ));
            },
        };
        let option = match self.options.get_http_options(
            service_name,
            method.proto_name.as_str(),
        ) {
            Some(o) => o,
            None => {
                return Ok(None);
            },
        };
        let details = match option.parse(
            &message,
            &self.existing_messages,
            &mut self.new_messages,
            &self.config,
        ) {
            Ok(d) => d,
            Err(e) => {
                return Err(e);
            },
        };
        proof {
            assert(!(details@.query matches Some(q) && q.handling is Single));
        }
        let parts = match FunctionParts::new(
            method.name.as_str(),
            &details,
            method.input_type.as_str(),
            method.client_streaming,
            &self.value_names.req,
        ) {
            Ok(p) => p,
            Err(e) => {
                return Err(e);
            },
        };

        // The payload handed to the request adapter.
        let body_verbatim = parts.verbatim_request();
        let has_query = parts.query_extractor.is_some();
        let query_verbatim = parts.empty_request() && has_query;
        let empty = parts.empty_request() && !has_query;
        let input_is_unit = crate::text::string_eq_str(&method.input_type, "()");
        let mut req_payload = String::new();
        if body_verbatim && !method.client_streaming {
            req_payload.append(self.value_names.req.as_str());
            req_payload.append(".0");
        } else if query_verbatim {
            // The whole input maps onto the query: the extractor bound
            // the original type, and its inner value is the request.
            req_payload.append(self.value_names.req.as_str());
            req_payload.append(".0");
        } else if empty && input_is_unit {
            req_payload.append("()");
        } else if empty {
            req_payload.append("super::");
            req_payload.append(method.input_type.as_str());
            req_payload.append(" {}");
        } else {
            req_payload.append(self.value_names.req.as_str());
        }
        proof {
            assert(req_payload@ =~= spec_req_payload(
                body_verbatim,
                query_verbatim,
                empty,
                method.client_streaming,
                method@.input_type,
                env.req,
            ));
        }

        // The handler function.
        let mut s = String::new();
        if method.comment.as_str().unicode_len() > 0 {
            s.append("#[doc = \"");
            let ec = escape_str(method.comment.as_str());
            s.append(ec.as_str());
            s.append("\"]\n");
        }
        proof {
            assert(s@ =~= spec_doc_attr(method@.comment));
        }
        if self.config.generate_openapi {
            let attr = self.generate_openapi_path_attr(service_name, &details, method);
            s.append(attr.as_str());
        }
        s.append("pub async fn ");
        s.append(method.name.as_str());
        match service_type.handler_generics() {
            Some(g) => s.append(g.as_str()),
            None => {},
        }
        s.append("(\n");
        s.append("    State(");
        s.append(self.value_names.state.as_str());
        s.append("): State<");
        s.append(service_type.state_type_name().as_str());
        s.append(">,\n");
        match &parts.path_extractor {
            Some(p) => s.append(p.as_str()),
            None => {},
        }
        match &parts.query_extractor {
            Some(q) => s.append(q.as_str()),
            None => {},
        }
        s.append("    ");
        s.append(self.value_names.headers.as_str());
        s.append(": http::HeaderMap,\n");
        s.append("    ");
        s.append(self.value_names.extensions.as_str());
        s.append(": http::Extensions,\n");
        match &parts.body_extractor {
            Some(b) => s.append(b.as_str()),
            None => {},
        }
        proof {
            assert(s@ =~= spec_doc_attr(method@.comment) + (if env.openapi {
                spec_openapi_attr(env.service, details@, method@, env.sct, env.security)
            } else {
                Seq::empty()
            }) + "pub async fn "@ + method@.name + spec_handler_generics(env.st) + "(\n"@
                + "    State("@ + env.state + "): State<"@ + env.st.state_type_name + ">,\n"@
                + opt_text(crate::emit::spec_path_extractor(details@.path_fields)) + opt_text(
                crate::emit::spec_query_extractor(details@.query, env.req),
            ) + "    "@ + env.headers + ": http::HeaderMap,\n"@ + "    "@ + env.extensions
                + ": http::Extensions,\n"@ + opt_text(
                crate::emit::spec_body_extractor(details@.body, method@.client_streaming, env.req),
            ));
        }
        s.append(") -> http::Response<Body> {\n");
        match &parts.request_builder {
            Some(b) => s.append(b.as_str()),
            None => {},
        }
        s.append("    let ");
        s.append(self.value_names.req.as_str());
        s.append(" = tonic2axum::");
        if method.client_streaming {
            s.append("make_stream_request");
        } else {
            s.append("make_request");
        }
        s.append("(");
        s.append(self.value_names.headers.as_str());
        s.append(", ");
        s.append(self.value_names.extensions.as_str());
        s.append(", ");
        s.append(req_payload.as_str());
        s.append(");\n");
        s.append("    tonic2axum::");
        if method.server_streaming {
            s.append("make_stream_response");
        } else {
            s.append("make_response");
        }
        s.append("(");
        s.append(self.value_names.state.as_str());
        s.append(".");
        s.append(method.name.as_str());
        s.append("(");
        s.append(self.value_names.req.as_str());
        s.append(").await)\n");
        s.append("}\n");
        proof {
            assert(s@ =~= spec_handler_text(env, method@, details@));
        }

        // The route registration.
        let mut route = String::new();
        if self.config.generate_openapi {
            route.append(".routes(routes!(");
            route.append(method.name.as_str());
            route.append("))");
        } else {
            route.append(".route(\"");
            let ep = escape_str(details.path.as_str());
            route.append(ep.as_str());
            route.append("\", ");
            route.append(details.verb.lower_text());
            route.append("(");
            route.append(method.name.as_str());
            match service_type.handler_route_turbofish() {
                Some(t) => route.append(t.as_str()),
                None => {},
            }
            route.append("))");
        }
        proof {
            assert(route@ =~= spec_route_text(env, method@, details@));
        }
        Ok(Some((s, route)))
    }

    /// Emits the signature and upgrade call of one WebSocket handler,
    /// up to the callback.
    #[verifier::rlimit(100)]
    fn ws_sig(&self, service_name: &str, method: &MethodModel, service_type: &ServiceType) -> (s:
        String)
        ensures
            s@ == spec_ws_sig(spec_env(*self, service_name@, service_type@), method@),
    {
        let ghost env = spec_env(*self, service_name@, service_type@);
        let mut protobuf = String::from_str("protobuf");
        protobuf.append(self.config.value_suffix.as_str());
        let mut ws_upgrade = String::from_str("ws_upgrade");
        ws_upgrade.append(self.config.value_suffix.as_str());

        let mut s = String::new();
        if method.comment.as_str().unicode_len() > 0 {
            s.append("#[doc = \"");
            let ec = escape_str(method.comment.as_str());
            s.append(ec.as_str());
            s.append("\"]\n");
        }
        proof {
            assert(s@ =~= spec_doc_attr(method@.comment));
        }
        s.append("pub async fn ");
        s.append(method.name.as_str());
        s.append("_ws");
        match service_type.handler_generics() {
            Some(g) => s.append(g.as_str()),
            None => {},
        }
        s.append("(\n");
        s.append("    State((");
        s.append(self.value_names.state.as_str());
        s.append(", ");
        s.append(protobuf.as_str());
        s.append(")): State<(");
        s.append(service_type.state_type_name().as_str());
        s.append(", bool)>,\n");
        s.append("    ");
        s.append(ws_upgrade.as_str());
        s.append(": WebSocketUpgrade,\n");
        s.append("    ");
        s.append(self.value_names.headers.as_str());
        s.append(": http::HeaderMap,\n");
        s.append("    ");
        s.append(self.value_names.extensions.as_str());
        s.append(": http::Extensions,\n");
        s.append(") -> Response {\n");
        s.append("    tonic2axum::upgrade_to_ws(\n");
        s.append("        ");
        s.append(ws_upgrade.as_str());
        s.append(",\n");
        s.append("        ");
        s.append(self.value_names.headers.as_str());
        s.append(",\n");
        s.append("        ");
        s.append(self.value_names.extensions.as_str());
        s.append(",\n");
        s.append("        ");
        s.append(protobuf.as_str());
        s.append(",\n");
        s.append("        |");
        s.append(self.value_names.headers.as_str());
        s.append(", ");
        s.append(self.value_names.extensions.as_str());
        s.append(", stream, sink, ");
        s.append(protobuf.as_str());
        proof {
            assert(s@ =~= spec_ws_sig(env, method@));
        }
        s
    }

    /// Emits the callback body of one WebSocket handler, by streaming
    /// shape.
    #[verifier::rlimit(100)]
    fn ws_callback(
        &self,
        service_name: &str,
        method: &MethodModel,
        service_type: &ServiceType,
    ) -> (s: String)
        ensures
            s@ == spec_ws_callback(spec_env(*self, service_name@, service_type@), method@),
    {
        let ghost env = spec_env(*self, service_name@, service_type@);
        let mut protobuf = String::from_str("protobuf");
        protobuf.append(self.config.value_suffix.as_str());
        let mut s = String::new();
        if method.client_streaming && method.server_streaming {
            s.append("            let request = tonic2axum::make_ws_stream_request(");
            s.append(self.value_names.headers.as_str());
            s.append(", ");
            s.append(self.value_names.extensions.as_str());
            s.append(", stream);\n");
            s.append("            let response = ");
            s.append(self.value_names.state.as_str());
            s.append(".");
            s.append(method.name.as_str());
            s.append("(request).await;\n");
            s.append("            tonic2axum::process_ws_stream_response(response, sink, ");
            s.append(protobuf.as_str());
            s.append(").await;\n");
        } else if method.client_streaming {
            s.append("            let request = tonic2axum::make_ws_stream_request(");
            s.append(self.value_names.headers.as_str());
            s.append(", ");
            s.append(self.value_names.extensions.as_str());
            s.append(", stream);\n");
            s.append("            let response = ");
            s.append(self.value_names.state.as_str());
            s.append(".");
            s.append(method.name.as_str());
            s.append("(request).await;\n");
            s.append("            tonic2axum::process_ws_response(response, sink, ");
            s.append(protobuf.as_str());
            s.append(").await;\n");
        } else {
            s.append("            match tonic2axum::make_ws_request(");
            s.append(self.value_names.headers.as_str());
            s.append(", ");
            s.append(self.value_names.extensions.as_str());
            s.append(", stream).await {\n");
            s.append("                Some(request) => {\n");
            s.append("                    let response = ");
            s.append(self.value_names.state.as_str());
            s.append(".");
            s.append(method.name.as_str());
            s.append("(request).await;\n");
            s.append("                    tonic2axum::process_ws_stream_response(response, sink, ");
            s.append(protobuf.as_str());
            s.append(").await;\n");
            s.append("                }\n");
            s.append("                None => {\n");
            s.append("                    tonic2axum::close_ws(sink, tonic::Status::aborted(\"No request received\")).await;\n");
            s.append("                }\n");
            s.append("            }\n");
        }
        proof {
            assert(s@ =~= spec_ws_callback(env, method@));
        }
        s
    }

    /// Generates the WebSocket upgrade handler of one streaming method
    /// and its two frame routes.
    #[verifier::rlimit(100)]
    pub fn generate_ws_func(
        &self,
        service_name: &str,
        method: &MethodModel,
        service_type: &ServiceType,
        path: &str,
    ) -> (r: (String, String, String))
        ensures
            ({
                let env = spec_env(*self, service_name@, service_type@);
                &&& r.0@ == spec_ws_handler_text(env, method@)
                &&& r.1@ == spec_ws_route_text(env, method@, path@, "/ws/proto"@)
                &&& r.2@ == spec_ws_route_text(env, method@, path@, "/ws/json"@)
            }),
    {
        let ghost env = spec_env(*self, service_name@, service_type@);
        let mut protobuf = String::from_str("protobuf");
        protobuf.append(self.config.value_suffix.as_str());
        let mut ws_upgrade = String::from_str("ws_upgrade");
        ws_upgrade.append(self.config.value_suffix.as_str());

        let mut s = self.ws_sig(service_name, method, service_type);
        let ghost sig = s@;
        s.append("| async move {\n");
        let callback = self.ws_callback(service_name, method, service_type);
        s.append(callback.as_str());
        proof {
            assert(s@ == sig + "| async move {\n"@ + spec_ws_callback(env, method@));
        }
        s.append("        },\n");
        s.append("    )\n");
        s.append("    .await\n");
        s.append("}\n");
        proof {
            assert(s@ == spec_ws_handler_text(env, method@));
        }

        let mut proto_route = String::from_str(".route(\"");
        let ep = escape_str(path);
        proto_route.append(ep.as_str());
        proto_route.append("/ws/proto");
        proto_route.append("\", any(");
        proto_route.append(method.name.as_str());
        proto_route.append("_ws");
        match service_type.handler_route_turbofish() {
            Some(t) => proto_route.append(t.as_str()),
            None => {},
        }
        proto_route.append("))");
        proof {
            assert(proto_route@ =~= spec_ws_route_text(env, method@, path@, "/ws/proto"@));
        }

        let mut json_route = String::from_str(".route(\"");
        json_route.append(ep.as_str());
        json_route.append("/ws/json");
        json_route.append("\", any(");
        json_route.append(method.name.as_str());
        json_route.append("_ws");
        match service_type.handler_route_turbofish() {
            Some(t) => json_route.append(t.as_str()),
            None => {},
        }
        json_route.append("))");
        proof {
            assert(json_route@ =~= spec_ws_route_text(env, method@, path@, "/ws/json"@));
        }

        (s, proto_route, json_route)
    }

    /// Generates the router-construction function of one service.
    #[verifier::rlimit(100)]
    pub fn generate_router(
        &self,
        service_name: &str,
        service_type: &ServiceType,
        routes: &Vec<String>,
        ws_proto_routes: &Vec<String>,
        ws_json_routes: &Vec<String>,
    ) -> (r: String)
        ensures
            r@ == spec_router_text(
                spec_env(*self, service_name@, service_type@),
                self.config.router_func_name@,
                views_of(routes@),
                views_of(ws_proto_routes@),
                views_of(ws_json_routes@),
            ),
    {
        let ghost env = spec_env(*self, service_name@, service_type@);
        let mut s = String::from_str("/// Axum router for the ");
        s.append(service_name);
        s.append(" service\n");
        s.append("pub fn ");
        s.append(self.config.router_func_name.as_str());
        match service_type.router_generics() {
            Some(g) => s.append(g.as_str()),
            None => {},
        }
        s.append("(state: ");
        s.append(service_type.state_type_name().as_str());
        s.append(") -> ");
        if self.config.generate_openapi {
            s.append("OpenApiRouter");
        } else {
            s.append("Router");
        }
        s.append(" {\n");
        let ghost head = s@;
        proof {
            assert(head =~= "/// Axum router for the "@ + env.service + " service\n"@ + "pub fn "@
                + self.config.router_func_name@ + spec_router_generics(env.st) + "(state: "@
                + env.st.state_type_name + ") -> "@ + spec_router_type(env.openapi) + " {\n"@);
        }
        if ws_proto_routes.len() == 0 {
            s.append("    ");
            if self.config.generate_openapi {
                s.append("OpenApiRouter");
            } else {
                s.append("Router");
            }
            s.append("::new()\n");
            let rl = route_lines(routes);
            s.append(rl.as_str());
            s.append("        .with_state(state)\n");
            s.append("}\n");
            proof {
                assert(s@ =~= spec_router_text(
                    env,
                    self.config.router_func_name@,
                    views_of(routes@),
                    views_of(ws_proto_routes@),
                    views_of(ws_json_routes@),
                ));
            }
        } else {
            s.append("    let ws_proto = Router::new()\n");
            let wp = route_lines(ws_proto_routes);
            s.append(wp.as_str());
            s.append("        .with_state((state.clone(), true));\n");
            s.append("    let ws_json = Router::new()\n");
            let wj = route_lines(ws_json_routes);
            s.append(wj.as_str());
            s.append("        .with_state((state.clone(), false));\n");
            proof {
                assert(s@ =~= head + "    let ws_proto = Router::new()\n"@ + spec_route_lines(
                    views_of(ws_proto_routes@),
                ) + "        .with_state((state.clone(), true));\n"@
                    + "    let ws_json = Router::new()\n"@ + spec_route_lines(
                    views_of(ws_json_routes@),
                ) + "        .with_state((state.clone(), false));\n"@);
            }
            s.append("    ");
            if self.config.generate_openapi {
                s.append("OpenApiRouter");
            } else {
                s.append("Router");
            }
            s.append("::new()\n");
            let rl = route_lines(routes);
            s.append(rl.as_str());
            s.append("        .with_state(state)\n");
            let ghost mid2 = s@;
            proof {
                assert(mid2 =~= head + "    let ws_proto = Router::new()\n"@ + spec_route_lines(
                    views_of(ws_proto_routes@),
                ) + "        .with_state((state.clone(), true));\n"@
                    + "    let ws_json = Router::new()\n"@ + spec_route_lines(
                    views_of(ws_json_routes@),
                ) + "        .with_state((state.clone(), false));\n"@ + "    "@
                    + spec_router_type(self.config.generate_openapi) + "::new()\n"@
                    + spec_route_lines(views_of(routes@)) + "        .with_state(state)\n"@);
            }
            if self.config.generate_openapi {
                s.append(
                    "        .merge(OpenApiRouter::from(ws_proto))\n        .merge(OpenApiRouter::from(ws_json))\n",
                );
            } else {
                s.append("        .merge(ws_proto)\n        .merge(ws_json)\n");
            }
            s.append("}\n");
            proof {
                assert(views_of(ws_proto_routes@).len() == ws_proto_routes@.len());
                let merge = if self.config.generate_openapi {
                    "        .merge(OpenApiRouter::from(ws_proto))\n        .merge(OpenApiRouter::from(ws_json))\n"@
                } else {
                    "        .merge(ws_proto)\n        .merge(ws_json)\n"@
                };
                assert(s@ =~= mid2 + merge + "}\n"@);
            }
            proof {
                let rv = views_of(routes@);
                let wpv = views_of(ws_proto_routes@);
                let wjv = views_of(ws_json_routes@);
                let merge = if self.config.generate_openapi {
                    "        .merge(OpenApiRouter::from(ws_proto))\n        .merge(OpenApiRouter::from(ws_json))\n"@
                } else {
                    "        .merge(ws_proto)\n        .merge(ws_json)\n"@
                };
                let target = spec_router_text(env, self.config.router_func_name@, rv, wpv, wjv);
                assert(wpv.len() == ws_proto_routes@.len());
                assert(target == head + "    let ws_proto = Router::new()\n"@ + spec_route_lines(
                    wpv,
                ) + "        .with_state((state.clone(), true));\n"@
                    + "    let ws_json = Router::new()\n"@ + spec_route_lines(wjv)
                    + "        .with_state((state.clone(), false));\n"@ + "    "@
                    + spec_router_type(env.openapi) + "::new()\n"@ + spec_route_lines(rv)
                    + "        .with_state(state)\n"@ + merge + "}\n"@);
                assert(s@ == target);
            }
        }
        s
    }
}

/// Writes route registrations indented into a router body.
fn route_lines(routes: &Vec<String>) -> (r: String)
    ensures
        r@ == spec_route_lines(views_of(routes@)),
{
    let ghost rv = views_of(routes@);
    let n = routes.len();
    let mut out = String::new();
    let mut i: usize = 0;
    proof {
        assert(rv.take(0) =~= Seq::<Seq<char>>::empty());
    }
    while i < n
        invariant
            n == routes.len(),
            rv == views_of(routes@),
            i <= n,
            out@ == spec_route_lines(rv.take(i as int)),
        decreases n - i,
    {
        out.append("        ");
        out.append(routes[i].as_str());
        out.append("\n");
        proof {
            assert(rv.take(i + 1).drop_last() =~= rv.take(i as int));
            assert(rv.take(i + 1).last() == rv[i as int]);
            assert(rv[i as int] == routes@[i as int]@);
        }
        i = i + 1;
    }
    proof {
        assert(rv.take(n as int) =~= rv);
    }
    out
}


impl Generator {
    /// Runs the per-service pipeline: indexes the messages already in
    /// the buffer, chooses the state-type texts, generates every bound
    /// method's handler and route (and WebSocket handlers for
    /// streaming methods when enabled), and collects the service
    /// module. Fails on a generic state type under OpenAPI
    /// generation, on any method error, and on client streaming under
    /// the default trait-object state type.
    #[verifier::rlimit(100)]
    pub fn generate_service(&mut self, service: &ServiceModel, buf: &str) -> (r: Result<
        (),
        GenError,
    >)
        ensures
            final(self).options == old(self).options,
            final(self).value_names == old(self).value_names,
            final(self).config == old(self).config,
            final(self).existing_messages@ == crate::message::spec_add_message(
                crate::parse::spec_add_all(
                    old(self).existing_messages@,
                    crate::parse::spec_parse_source(buf@),
                ),
                crate::parse::spec_unit_message(),
            ),
            ({
                let k = crate::config::state_type_index(
                    old(self).config.state_types@,
                    service@.name,
                );
                let stv = spec_service_type(
                    service@.name,
                    if k < 0 {
                        None
                    } else {
                        Some(old(self).config.state_types@[k].state@)
                    },
                );
                let env = EmitEnvV {
                    service: service@.name,
                    st: stv,
                    existing: final(self).existing_messages@,
                    options: old(self).options@,
                    openapi: old(self).config.generate_openapi,
                    web_sockets: old(self).config.generate_web_sockets,
                    sct: old(self).config.streaming_content_type@,
                    security: security_opt_view(&old(self).config.openapi_security),
                    bsuffix: old(self).config.body_message_suffix@,
                    qsuffix: old(self).config.query_message_suffix@,
                    tsuffix: old(self).config.type_suffix@,
                    req: old(self).value_names.req@,
                    headers: old(self).value_names.headers@,
                    extensions: old(self).value_names.extensions@,
                    state: old(self).value_names.state@,
                    protobuf: "protobuf"@ + old(self).config.value_suffix@,
                    ws_upgrade: "ws_upgrade"@ + old(self).config.value_suffix@,
                };
                let acc0 = GenAccV {
                    funcs: Seq::empty(),
                    routes: Seq::empty(),
                    ws_funcs: Seq::empty(),
                    ws_proto: Seq::empty(),
                    ws_json: Seq::empty(),
                    body_buckets: old(self).new_messages@.body,
                    query_buckets: old(self).new_messages@.query,
                    has_cs: false,
                };
                if stv.generics is Some && old(self).config.generate_openapi {
                    &&& r matches Err(e) && e@ == GenErrV::GenericStateOpenApi(service@.name)
                    &&& final(self).modules == old(self).modules
                    &&& final(self).new_messages@ == old(self).new_messages@
                } else {
                    match spec_gen_methods(env, acc0, service@.methods) {
                        Err(ev) => (r matches Err(e) && e@ == ev && final(self).modules == old(
                            self,
                        ).modules),
                        Ok(a) => {
                            if a.has_cs && k < 0 {
                                &&& r matches Err(e) && e@ == GenErrV::ClientStreamingTraitObject(
                                    service@.name,
                                )
                                &&& final(self).modules == old(self).modules
                                &&& final(self).new_messages@.body == a.body_buckets
                                &&& final(self).new_messages@.query == a.query_buckets
                            } else {
                                &&& r is Ok
                                &&& final(self).new_messages@.body == a.body_buckets
                                &&& final(self).new_messages@.query == a.query_buckets
                                &&& views_of(final(self).modules@) == views_of(
                                    old(self).modules@,
                                ).push(
                                    spec_module_text(
                                        env,
                                        crate::text::snake_of(service@.name) + old(
                                            self,
                                        ).config.service_mod_name_suffix@,
                                        a.has_cs,
                                        a.funcs,
                                        a.ws_funcs,
                                        spec_router_text(
                                            env,
                                            old(self).config.router_func_name@,
                                            a.routes,
                                            a.ws_proto,
                                            a.ws_json,
                                        ),
                                    ),
                                )
                            }
                        },
                    }
                }
            }),
    {
        self.existing_messages.parse_source(buf);
        let state_type_is_none = match self.config.get_state_type(service.name.as_str()) {
            Some(_) => false,
            None => true,
        };
        let service_type = {
            let st = self.config.get_state_type(service.name.as_str());
            ServiceType::new(service.name.as_str(), st)
        };
        if service_type.is_generic() && self.config.generate_openapi {
            return Err(GenError::GenericStateOpenApi(service.name.clone()));
        }
        let ghost env = spec_env(*self, service@.name, service_type@);
        let ghost acc0 = GenAccV {
            funcs: Seq::empty(),
            routes: Seq::empty(),
            ws_funcs: Seq::empty(),
            ws_proto: Seq::empty(),
            ws_json: Seq::empty(),
            body_buckets: self.new_messages@.body,
            query_buckets: self.new_messages@.query,
            has_cs: false,
        };
        let ghost methods_v = service@.methods;

        let mut handler_funcs: Vec<String> = Vec::new();
        let mut routes: Vec<String> = Vec::new();
        let mut ws_handler_funcs: Vec<String> = Vec::new();
        let mut ws_proto_routes: Vec<String> = Vec::new();
        let mut ws_json_routes: Vec<String> = Vec::new();
        let mut has_client_streaming = false;

        let n = service.methods.len();
        let mut i: usize = 0;
        proof {
            assert(methods_v.take(0) =~= Seq::<MethodModelV>::empty());
            assert(views_of(handler_funcs@) =~= Seq::<Seq<char>>::empty());
            assert(views_of(routes@) =~= Seq::<Seq<char>>::empty());
            assert(views_of(ws_handler_funcs@) =~= Seq::<Seq<char>>::empty());
            assert(views_of(ws_proto_routes@) =~= Seq::<Seq<char>>::empty());
            assert(views_of(ws_json_routes@) =~= Seq::<Seq<char>>::empty());
        }
        while i < n
            invariant
                n == service.methods.len(),
                methods_v == service@.methods,
                i <= n,
                self.options == old(self).options,
                self.value_names == old(self).value_names,
                self.config == old(self).config,
                self.modules == old(self).modules,
                self.existing_messages@ == crate::message::spec_add_message(
                    crate::parse::spec_add_all(
                        old(self).existing_messages@,
                        crate::parse::spec_parse_source(buf@),
                    ),
                    crate::parse::spec_unit_message(),
                ),
                env == spec_env(*self, service@.name, service_type@),
                ({
                    let k = crate::config::state_type_index(
                        old(self).config.state_types@,
                        service@.name,
                    );
                    &&& service_type@ == spec_service_type(
                        service@.name,
                        if k < 0 {
                            None
                        } else {
                            Some(old(self).config.state_types@[k].state@)
                        },
                    )
                    &&& state_type_is_none == (k < 0)
                }),
                !(service_type@.generics is Some && self.config.generate_openapi),
                acc0 == (GenAccV {
                    funcs: Seq::<Seq<char>>::empty(),
                    routes: Seq::<Seq<char>>::empty(),
                    ws_funcs: Seq::<Seq<char>>::empty(),
                    ws_proto: Seq::<Seq<char>>::empty(),
                    ws_json: Seq::<Seq<char>>::empty(),
                    body_buckets: old(self).new_messages@.body,
                    query_buckets: old(self).new_messages@.query,
                    has_cs: false,
                }),
                ({
                    let g = spec_gen_methods(env, acc0, methods_v.take(i as int));
                    &&& g matches Ok(a)
                    &&& a.funcs == views_of(handler_funcs@)
                    &&& a.routes == views_of(routes@)
                    &&& a.ws_funcs == views_of(ws_handler_funcs@)
                    &&& a.ws_proto == views_of(ws_proto_routes@)
                    &&& a.ws_json == views_of(ws_json_routes@)
                    &&& a.body_buckets == self.new_messages@.body
                    &&& a.query_buckets == self.new_messages@.query
                    &&& a.has_cs == has_client_streaming
                }),
            decreases n - i,
        {
            proof {
                assert(methods_v[i as int] == service.methods@[i as int]@);
            }
            let method = &service.methods[i];
            match self.generate_func(service.name.as_str(), method, &service_type) {
                Err(e) => {
                    proof {
                        assert(methods_v.take(i + 1).drop_last() =~= methods_v.take(i as int));
                        assert(methods_v.take(i + 1).last() == methods_v[i as int]);
                        assert(spec_gen_methods(env, acc0, methods_v.take(i + 1)) == Err::<
                            GenAccV,
                            GenErrV,
                        >(e@));
                        lemma_gen_methods_err_persists(env, acc0, methods_v, i + 1);
                        assert(methods_v.take(methods_v.len() as int) =~= methods_v);
                    }
                    return Err(e);
                },
                Ok(None) => {
                    proof {
                        assert(methods_v.take(i + 1).drop_last() =~= methods_v.take(i as int));
                        assert(methods_v.take(i + 1).last() == methods_v[i as int]);
                    }
                },
                Ok(Some((func, route))) => {
                    if method.client_streaming {
                        has_client_streaming = true;
                    }
                    let ghost prev_f = handler_funcs@;
                    let ghost prev_r = routes@;
                    handler_funcs.push(func);
                    routes.push(route);
                    proof {
                        assert(views_of(handler_funcs@) =~= views_of(prev_f).push(
                            handler_funcs@.last()@,
                        ));
                        assert(views_of(routes@) =~= views_of(prev_r).push(routes@.last()@));
                    }
                    if self.config.generate_web_sockets && (method.client_streaming
                        || method.server_streaming) {
                        match self.options.get_path(
                            service.name.as_str(),
                            method.proto_name.as_str(),
                        ) {
                            Some(path) => {
                                let (wf, wp, wj) = self.generate_ws_func(
                                    service.name.as_str(),
                                    method,
                                    &service_type,
                                    path.as_str(),
                                );
                                let ghost prev_wf = ws_handler_funcs@;
                                let ghost prev_wp = ws_proto_routes@;
                                let ghost prev_wj = ws_json_routes@;
                                ws_handler_funcs.push(wf);
                                ws_proto_routes.push(wp);
                                ws_json_routes.push(wj);
                                proof {
                                    assert(views_of(ws_handler_funcs@) =~= views_of(
                                        prev_wf,
                                    ).push(ws_handler_funcs@.last()@));
                                    assert(views_of(ws_proto_routes@) =~= views_of(prev_wp).push(
                                        ws_proto_routes@.last()@,
                                    ));
                                    assert(views_of(ws_json_routes@) =~= views_of(prev_wj).push(
                                        ws_json_routes@.last()@,
                                    ));
                                }
                            },
                            None => {},
                        }
                    }
                    proof {
                        assert(methods_v.take(i + 1).drop_last() =~= methods_v.take(i as int));
                        assert(methods_v.take(i + 1).last() == methods_v[i as int]);
                    }
                },
            }
            i = i + 1;
        }
        proof {
            assert(methods_v.take(n as int) =~= methods_v);
        }
        if has_client_streaming && state_type_is_none {
            return Err(GenError::ClientStreamingTraitObject(service.name.clone()));
        }

        // Assemble the service module.
        let m = self.assemble_module(
            service.name.as_str(),
            &service_type,
            has_client_streaming,
            &handler_funcs,
            &ws_handler_funcs,
            &routes,
            &ws_proto_routes,
            &ws_json_routes,
        );
        let ghost prev_m = self.modules@;
        self.modules.push(m);
        proof {
            assert(views_of(self.modules@) =~= views_of(prev_m).push(self.modules@.last()@));
        }
        Ok(())
    }

    /// Assembles one service module: the imports its handlers need,
    /// the handler and WebSocket handler functions, and the router.
    #[verifier::rlimit(100)]
    fn assemble_module(
        &self,
        service_name: &str,
        service_type: &ServiceType,
        has_client_streaming: bool,
        handler_funcs: &Vec<String>,
        ws_handler_funcs: &Vec<String>,
        routes: &Vec<String>,
        ws_proto_routes: &Vec<String>,
        ws_json_routes: &Vec<String>,
    ) -> (m: String)
        ensures
            m@ == spec_module_text(
                spec_env(*self, service_name@, service_type@),
                crate::text::snake_of(service_name@) + self.config.service_mod_name_suffix@,
                has_client_streaming,
                views_of(handler_funcs@),
                views_of(ws_handler_funcs@),
                spec_router_text(
                    spec_env(*self, service_name@, service_type@),
                    self.config.router_func_name@,
                    views_of(routes@),
                    views_of(ws_proto_routes@),
                    views_of(ws_json_routes@),
                ),
            ),
    {
        let ghost env = spec_env(*self, service_name@, service_type@);
        let mut mod_name = crate::text::to_snake_case(service_name);
        mod_name.append(self.config.service_mod_name_suffix.as_str());
        let router = self.generate_router(
            service_name,
            service_type,
            routes,
            ws_proto_routes,
            ws_json_routes,
        );
        let mut m = String::from_str("/// Generated axum handlers and router.\n");
        m.append("pub mod ");
        m.append(mod_name.as_str());
        m.append(" {\n");
        m.append("    #![allow(unused_imports)]\n\n");
        m.append("    use std::sync::Arc;\n\n");
        m.append(
            "    use axum::Json;\n    use axum::body::Body;\n    use axum::extract::{Path, Query, State};\n    use axum::routing::{any, get, post, put, delete, patch};\n    use axum::Router;\n",
        );
        if has_client_streaming {
            m.append("    use axum_extra::json_lines::JsonLines;\n");
        }
        if ws_handler_funcs.len() > 0 {
            m.append("    use axum::extract::WebSocketUpgrade;\n    use axum::response::Response;\n");
        }
        if self.config.generate_openapi {
            m.append("    use utoipa_axum::routes;\n    use utoipa_axum::router::OpenApiRouter;\n");
        }
        match service_type.use_trait() {
            Some(u) => {
                m.append("    ");
                m.append(u.as_str());
                m.append("\n");
            },
            None => {},
        }
        m.append("\n");
        let funcs_text = concat_texts(handler_funcs);
        m.append(funcs_text.as_str());
        let ws_text = concat_texts(ws_handler_funcs);
        m.append(ws_text.as_str());
        m.append(router.as_str());
        m.append("}\n");
        proof {
            assert(m@ =~= spec_module_text(
                env,
                crate::text::snake_of(service_name@) + self.config.service_mod_name_suffix@,
                has_client_streaming,
                views_of(handler_funcs@),
                views_of(ws_handler_funcs@),
                spec_router_text(
                    env,
                    self.config.router_func_name@,
                    views_of(routes@),
                    views_of(ws_proto_routes@),
                    views_of(ws_json_routes@),
                ),
            ));
        }
        m
    }

    /// Flushes all synthesized body and query struct declarations and
    /// every collected service module into the buffer.
    pub fn write_code_to_buffer(&self, buf: &mut String)
        ensures
            final(buf)@ == old(buf)@ + spec_structs_text(
                crate::message::flatten_buckets(self.new_messages@.body),
                true,
                self.config.generate_openapi,
                self.config.struct_doc_comments@,
            ) + spec_structs_text(
                crate::message::flatten_buckets(self.new_messages@.query),
                false,
                self.config.generate_openapi,
                self.config.struct_doc_comments@,
            ) + spec_concat(views_of(self.modules@)),
    {
        let body_msgs = self.new_messages.body_messages();
        self.write_structs(&body_msgs, true, buf);
        let query_msgs = self.new_messages.query_messages();
        self.write_structs(&query_msgs, false, buf);
        let modules_text = concat_texts(&self.modules);
        buf.append(modules_text.as_str());
    }

    fn write_structs(&self, msgs: &Vec<Message>, body: bool, buf: &mut String)
        ensures
            final(buf)@ == old(buf)@ + spec_structs_text(
                crate::message::msgs_view(msgs@),
                body,
                self.config.generate_openapi,
                self.config.struct_doc_comments@,
            ),
    {
        let ghost mv = crate::message::msgs_view(msgs@);
        let n = msgs.len();
        let mut i: usize = 0;
        proof {
            assert(mv.take(0) =~= Seq::<MsgV>::empty());
            assert(buf@ =~= old(buf)@ + spec_structs_text(
                mv.take(0),
                body,
                self.config.generate_openapi,
                self.config.struct_doc_comments@,
            ));
        }
        while i < n
            invariant
                n == msgs.len(),
                mv == crate::message::msgs_view(msgs@),
                i <= n,
                buf@ == old(buf)@ + spec_structs_text(
                    mv.take(i as int),
                    body,
                    self.config.generate_openapi,
                    self.config.struct_doc_comments@,
                ),
            decreases n - i,
        {
            let st = self.generate_struct(&msgs[i], body);
            buf.append(st.as_str());
            proof {
                assert(mv.take(i + 1).drop_last() =~= mv.take(i as int));
                assert(mv.take(i + 1).last() == mv[i as int]);
                assert(mv[i as int] == msgs@[i as int]@);
                assert(buf@ =~= old(buf)@ + spec_structs_text(
                    mv.take(i + 1),
                    body,
                    self.config.generate_openapi,
                    self.config.struct_doc_comments@,
                ));
            }
            i = i + 1;
        }
        proof {
            assert(mv.take(n as int) =~= mv);
        }
    }
}

} // verus!
