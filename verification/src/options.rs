//! Extraction of HTTP binding annotations from decoded descriptor
//! data, and the per-(service, method) index of parsed bindings.
//!
//! The descriptor schema arrives as plain values: per method, the
//! extension fields of its options sub-message, each extension being a
//! numeric tag with named string-valued fields. The annotation is the
//! extension with the well-known tag; a field named after an HTTP verb
//! carries the path template, a field named `body` carries the body
//! specification.

use vstd::prelude::*;

use crate::config::GeneratorConfig;
use crate::errors::GenError;
use crate::http::{HttpOption, HttpOptionV, HttpVerb, MethodDetails, spec_resolve, ResolveErr};
use crate::message::{
    first_index, lemma_first_index, lemma_first_index_at, ExistingMessages, Message, NewMessages,
};
use crate::text::{string_eq_str, views_of};

verus! {

/// The extension field number under which the HTTP binding annotation
/// is attached to a method's options.
pub const HTTP_EXTENSION_TAG: u64 = 72295728;

// *** The plain descriptor model ***

/// The model of one named extension field.
pub ghost struct ExtFieldV {
    pub name: Seq<char>,
    pub value: Seq<char>,
}

/// One named, string-valued field of an extension message.
#[derive(Debug)]
pub struct ExtensionField {
    pub name: String,
    pub value: String,
}

impl View for ExtensionField {
    type V = ExtFieldV;

    open spec fn view(&self) -> ExtFieldV {
        ExtFieldV { name: self.name@, value: self.value@ }
    }
}

/// The model of one options extension.
pub ghost struct ExtV {
    pub number: u64,
    pub fields: Seq<ExtFieldV>,
}

/// One extension of a method's options: its field number and its
/// named fields.
#[derive(Debug)]
pub struct OptionExtension {
    pub number: u64,
    pub fields: Vec<ExtensionField>,
}

impl View for OptionExtension {
    type V = ExtV;

    open spec fn view(&self) -> ExtV {
        ExtV { number: self.number, fields: self.fields@.map_values(|f: ExtensionField| f@) }
    }
}

/// The model of one declared method.
pub ghost struct MethodDeclV {
    pub name: Seq<char>,
    pub extensions: Seq<ExtV>,
}

/// One declared RPC method: its name and its options extensions.
#[derive(Debug)]
pub struct MethodDecl {
    pub name: String,
    pub extensions: Vec<OptionExtension>,
}

impl View for MethodDecl {
    type V = MethodDeclV;

    open spec fn view(&self) -> MethodDeclV {
        MethodDeclV {
            name: self.name@,
            extensions: self.extensions@.map_values(|e: OptionExtension| e@),
        }
    }
}

/// The model of one declared service.
pub ghost struct ServiceDeclV {
    pub name: Seq<char>,
    pub methods: Seq<MethodDeclV>,
}

/// One declared service: its name and its methods.
#[derive(Debug)]
pub struct ServiceDecl {
    pub name: String,
    pub methods: Vec<MethodDecl>,
}

impl View for ServiceDecl {
    type V = ServiceDeclV;

    open spec fn view(&self) -> ServiceDeclV {
        ServiceDeclV { name: self.name@, methods: self.methods@.map_values(|m: MethodDecl| m@) }
    }
}

// *** Annotation recognition ***

/// The verb denoted by an extension field name, if any.
pub open spec fn spec_verb_of(name: Seq<char>) -> Option<HttpVerb> {
    if name == "get"@ {
        Some(HttpVerb::Get)
    } else if name == "post"@ {
        Some(HttpVerb::Post)
    } else if name == "put"@ {
        Some(HttpVerb::Put)
    } else if name == "delete"@ {
        Some(HttpVerb::Delete)
    } else if name == "patch"@ {
        Some(HttpVerb::Patch)
    } else {
        None
    }
}

/// The verb and pattern, and the body specification, found by
/// scanning the annotation's fields from `st` on: a verb-named field
/// sets the verb and takes its value as the path template, a field
/// named `body` sets the body specification, later fields win.
pub open spec fn spec_scan_rule(
    fields: Seq<ExtFieldV>,
    vp: Option<(HttpVerb, Seq<char>)>,
    body: Option<Seq<char>>,
) -> (Option<(HttpVerb, Seq<char>)>, Option<Seq<char>>)
    decreases fields.len(),
{
    if fields.len() == 0 {
        (vp, body)
    } else {
        let f = fields[0];
        match spec_verb_of(f.name) {
            Some(v) => spec_scan_rule(fields.drop_first(), Some((v, f.value)), body),
            None => {
                if f.name == "body"@ {
                    spec_scan_rule(fields.drop_first(), vp, Some(f.value))
                } else {
                    spec_scan_rule(fields.drop_first(), vp, body)
                }
            },
        }
    }
}

/// The binding parsed from a method's extensions: the first extension
/// with the well-known tag whose scan found a verb; an extension with
/// the tag but no recognized verb field yields no binding from it.
pub open spec fn spec_extract_options(exts: Seq<ExtV>) -> Option<HttpOptionV>
    decreases exts.len(),
{
    if exts.len() == 0 {
        None
    } else if exts[0].number == HTTP_EXTENSION_TAG {
        match spec_scan_rule(exts[0].fields, None, None) {
            (Some(vp), body) => Some(HttpOptionV { verb: vp.0, pattern: vp.1, body }),
            (None, _) => spec_extract_options(exts.drop_first()),
        }
    } else {
        spec_extract_options(exts.drop_first())
    }
}

/// The view of an optional parsed binding.
pub open spec fn option_opt_view(o: Option<HttpOption>) -> Option<HttpOptionV> {
    match o {
        Some(h) => Some(h@),
        None => None,
    }
}

fn verb_of(name: &String) -> (r: Option<HttpVerb>)
    ensures
        r == spec_verb_of(name@),
{
    if string_eq_str(name, "get") {
        Some(HttpVerb::Get)
    } else if string_eq_str(name, "post") {
        Some(HttpVerb::Post)
    } else if string_eq_str(name, "put") {
        Some(HttpVerb::Put)
    } else if string_eq_str(name, "delete") {
        Some(HttpVerb::Delete)
    } else if string_eq_str(name, "patch") {
        Some(HttpVerb::Patch)
    } else {
        None
    }
}

/// The view of the scan state.
pub open spec fn vp_view(o: Option<(HttpVerb, String)>) -> Option<(HttpVerb, Seq<char>)> {
    match o {
        Some(p) => Some((p.0, p.1@)),
        None => None,
    }
}

/// The view of an optional string.
pub open spec fn str_opt_view(o: Option<String>) -> Option<Seq<char>> {
    match o {
        Some(s) => Some(s@),
        None => None,
    }
}

fn scan_rule(
    fields: &Vec<ExtensionField>,
    i: usize,
    vp: Option<(HttpVerb, String)>,
    body: Option<String>,
) -> (r: (Option<(HttpVerb, String)>, Option<String>))
    requires
        i <= fields@.len(),
    ensures
        (vp_view(r.0), str_opt_view(r.1)) == spec_scan_rule(
            fields@.map_values(|f: ExtensionField| f@).skip(i as int),
            vp_view(vp),
            str_opt_view(body),
        ),
    decreases fields@.len() - i,
{
    let ghost fv = fields@.map_values(|f: ExtensionField| f@);
    if i == fields.len() {
        proof {
            assert(fv.skip(i as int) =~= Seq::<ExtFieldV>::empty());
        }
        return (vp, body);
    }
    proof {
        assert(fv.skip(i as int)[0] == fields@[i as int]@);
        assert(fv.skip(i as int).drop_first() =~= fv.skip(i + 1));
    }
    let f = &fields[i];
    match verb_of(&f.name) {
        Some(v) => scan_rule(fields, i + 1, Some((v, f.value.clone())), body),
        None => {
            if string_eq_str(&f.name, "body") {
                scan_rule(fields, i + 1, vp, Some(f.value.clone()))
            } else {
                scan_rule(fields, i + 1, vp, body)
            }
        },
    }
}

fn extract_from(exts: &Vec<OptionExtension>, i: usize) -> (r: Option<HttpOption>)
    requires
        i <= exts@.len(),
    ensures
        option_opt_view(r) == spec_extract_options(
            exts@.map_values(|e: OptionExtension| e@).skip(i as int),
        ),
    decreases exts@.len() - i,
{
    let ghost ev = exts@.map_values(|e: OptionExtension| e@);
    if i == exts.len() {
        proof {
            assert(ev.skip(i as int) =~= Seq::<ExtV>::empty());
        }
        return None;
    }
    proof {
        assert(ev.skip(i as int)[0] == exts@[i as int]@);
        assert(ev.skip(i as int).drop_first() =~= ev.skip(i + 1));
    }
    if exts[i].number == HTTP_EXTENSION_TAG {
        proof {
            assert(views_of(Seq::<String>::empty()) == Seq::<Seq<char>>::empty());
        }
        let (vp, body) = scan_rule(&exts[i].fields, 0, None, None);
        proof {
            assert(exts@[i as int].fields@.map_values(|f: ExtensionField| f@).skip(0)
                =~= exts@[i as int]@.fields);
        }
        match vp {
            Some(p) => Some(HttpOption { verb: p.0, pattern: p.1, body }),
            None => extract_from(exts, i + 1),
        }
    } else {
        extract_from(exts, i + 1)
    }
}

/// Parses the HTTP binding annotation of one method, if it has one.
pub fn extract_options(method: &MethodDecl) -> (r: Option<HttpOption>)
    ensures
        option_opt_view(r) == spec_extract_options(method@.extensions),
{
    let r = extract_from(&method.extensions, 0);
    proof {
        assert(method.extensions@.map_values(|e: OptionExtension| e@).skip(0) =~= method@.extensions);
    }
    r
}

// *** The (service, method) index ***

/// The model of one method's entry.
pub ghost struct MethOptV {
    pub method: Seq<char>,
    pub option: HttpOptionV,
}

/// One method's parsed binding.
#[derive(Debug)]
pub struct MethodOptionEntry {
    pub method: String,
    pub option: HttpOption,
}

impl View for MethodOptionEntry {
    type V = MethOptV;

    open spec fn view(&self) -> MethOptV {
        MethOptV { method: self.method@, option: self.option@ }
    }
}

/// The model of one service's entries.
pub ghost struct SvcOptV {
    pub service: Seq<char>,
    pub methods: Seq<MethOptV>,
}

/// One service's parsed bindings.
#[derive(Debug)]
pub struct ServiceOptionsEntry {
    pub service: String,
    pub methods: Vec<MethodOptionEntry>,
}

impl View for ServiceOptionsEntry {
    type V = SvcOptV;

    open spec fn view(&self) -> SvcOptV {
        SvcOptV {
            service: self.service@,
            methods: self.methods@.map_values(|m: MethodOptionEntry| m@),
        }
    }
}

/// The parsed bindings of every method that has one, indexed by
/// service and method name.
#[derive(Debug)]
pub struct HttpOptions {
    services: Vec<ServiceOptionsEntry>,
}

impl View for HttpOptions {
    type V = Seq<SvcOptV>;

    closed spec fn view(&self) -> Seq<SvcOptV> {
        self.services@.map_values(|s: ServiceOptionsEntry| s@)
    }
}

/// Index of the first entry for `service`, or `-1`.
pub open spec fn svc_index(s: Seq<SvcOptV>, service: Seq<char>) -> int {
    first_index(s, |e: SvcOptV| e.service == service)
}

/// Index of the first entry for `method`, or `-1`.
pub open spec fn meth_index(s: Seq<MethOptV>, method: Seq<char>) -> int {
    first_index(s, |e: MethOptV| e.method == method)
}

/// The entries built from one service declaration: one per method
/// whose extensions carry a recognized binding.
pub open spec fn spec_service_entries(methods: Seq<MethodDeclV>) -> Seq<MethOptV>
    decreases methods.len(),
{
    if methods.len() == 0 {
        Seq::empty()
    } else {
        spec_service_entries(methods.drop_last()) + (match spec_extract_options(
            methods.last().extensions,
        ) {
            Some(o) => seq![MethOptV { method: methods.last().name, option: o }],
            None => Seq::empty(),
        })
    }
}

/// One pass over the declared services: each service's entry is added,
/// replacing any entry of the same service name.
pub open spec fn spec_parse_http_options(cur: Seq<SvcOptV>, decls: Seq<ServiceDeclV>) -> Seq<
    SvcOptV,
>
    decreases decls.len(),
{
    if decls.len() == 0 {
        cur
    } else {
        let d = decls[0];
        let entry = SvcOptV { service: d.name, methods: spec_service_entries(d.methods) };
        let k = svc_index(cur, d.name);
        let cur2 = if k < 0 {
            cur.push(entry)
        } else {
            cur.update(k, entry)
        };
        spec_parse_http_options(cur2, decls.drop_first())
    }
}

/// The binding looked up for a service and method, if any.
pub open spec fn spec_get_http_options(s: Seq<SvcOptV>, service: Seq<char>, method: Seq<char>) -> Option<
    HttpOptionV,
> {
    let k = svc_index(s, service);
    if k < 0 {
        None
    } else {
        let m = meth_index(s[k].methods, method);
        if m < 0 {
            None
        } else {
            Some(s[k].methods[m].option)
        }
    }
}

fn build_service_entries(methods: &Vec<MethodDecl>) -> (r: Vec<MethodOptionEntry>)
    ensures
        r@.map_values(|m: MethodOptionEntry| m@) == spec_service_entries(
            methods@.map_values(|m: MethodDecl| m@),
        ),
{
    let ghost mv = methods@.map_values(|m: MethodDecl| m@);
    let n = methods.len();
    let mut out: Vec<MethodOptionEntry> = Vec::new();
    let mut i: usize = 0;
    proof {
        assert(out@.map_values(|m: MethodOptionEntry| m@) =~= spec_service_entries(mv.take(0)));
    }
    while i < n
        invariant
            n == methods.len(),
            mv == methods@.map_values(|m: MethodDecl| m@),
            i <= n,
            out@.map_values(|m: MethodOptionEntry| m@) == spec_service_entries(mv.take(i as int)),
        decreases n - i,
    {
        let ghost prev = out@;
        match extract_options(&methods[i]) {
            Some(o) => {
                out.push(MethodOptionEntry { method: methods[i].name.clone(), option: o });
                proof {
                    assert(out@.map_values(|m: MethodOptionEntry| m@) =~= prev.map_values(
                        |m: MethodOptionEntry| m@,
                    ).push(out@.last()@));
                }
            },
            None => {},
        }
        proof {
            assert(mv.take(i + 1).drop_last() =~= mv.take(i as int));
            assert(mv.take(i + 1).last() == mv[i as int]);
            assert(mv[i as int] == methods@[i as int]@);
            assert(out@.map_values(|m: MethodOptionEntry| m@) =~= spec_service_entries(
                mv.take(i + 1),
            ));
        }
        i = i + 1;
    }
    proof {
        assert(mv.take(n as int) =~= mv);
    }
    out
}

impl HttpOptions {
    /// An empty index.
    pub fn new() -> (r: Self)
        ensures
            r@ == Seq::<SvcOptV>::empty(),
    {
        let r = HttpOptions { services: Vec::new() };
        proof {
            assert(r@ =~= Seq::<SvcOptV>::empty());
        }
        r
    }

    /// Scans the declared services once and indexes every recognized
    /// binding by service and method name.
    pub fn parse_http_options(&mut self, services: &Vec<ServiceDecl>)
        ensures
            final(self)@ == spec_parse_http_options(
                old(self)@,
                services@.map_values(|s: ServiceDecl| s@),
            ),
    {
        let ghost sv = services@.map_values(|s: ServiceDecl| s@);
        let n = services.len();
        let mut i: usize = 0;
        proof {
            assert(sv.skip(0) =~= sv);
        }
        while i < n
            invariant
                n == services.len(),
                sv == services@.map_values(|s: ServiceDecl| s@),
                i <= n,
                spec_parse_http_options(self@, sv.skip(i as int)) == spec_parse_http_options(
                    old(self)@,
                    sv,
                ),
            decreases n - i,
        {
            proof {
                assert(sv.skip(i as int)[0] == services@[i as int]@);
                assert(sv.skip(i as int).drop_first() =~= sv.skip(i + 1));
            }
            let entries = build_service_entries(&services[i].methods);
            let entry = ServiceOptionsEntry {
                service: services[i].name.clone(),
                methods: entries,
            };
            self.insert_service(entry);
            i = i + 1;
        }
        proof {
            assert(sv.skip(n as int) =~= Seq::<ServiceDeclV>::empty());
        }
    }

    fn insert_service(&mut self, entry: ServiceOptionsEntry)
        ensures
            ({
                let k = svc_index(old(self)@, entry@.service);
                if k < 0 {
                    final(self)@ == old(self)@.push(entry@)
                } else {
                    final(self)@ == old(self)@.update(k, entry@)
                }
            }),
    {
        proof {
            lemma_first_index(self@, |e: SvcOptV| e.service == entry@.service);
        }
        let n = self.services.len();
        let mut i: usize = 0;
        while i < n
            invariant
                n == self.services.len(),
                *self == *old(self),
                i <= n,
                forall|j: int| 0 <= j < i ==> self@[j].service != entry@.service,
            decreases n - i,
        {
            if string_eq_str(&self.services[i].service, entry.service.as_str()) {
                proof {
                    lemma_first_index_at(self@, |e: SvcOptV| e.service == entry@.service, i as int);
                }
                let ghost ev = entry@;
                let mut moved = entry;
                self.services.set_and_swap(i, &mut moved);
                proof {
                    assert(final(self)@ =~= old(self)@.update(i as int, ev));
                }
                return ;
            }
            i = i + 1;
        }
        self.services.push(entry);
        proof {
            assert(final(self)@ =~= old(self)@.push(entry@));
        }
    }

    /// Looks up the parsed binding of one method.
    pub fn get_http_options(&self, service_name: &str, method_name: &str) -> (r: Option<
        &HttpOption,
    >)
        ensures
            ({
                let o = spec_get_http_options(self@, service_name@, method_name@);
                match r {
                    Some(h) => o matches Some(hv) && h@ == hv,
                    None => o is None,
                }
            }),
    {
        proof {
            lemma_first_index(self@, |e: SvcOptV| e.service == service_name@);
        }
        let n = self.services.len();
        let mut i: usize = 0;
        while i < n
            invariant
                n == self.services.len(),
                i <= n,
                forall|j: int| 0 <= j < i ==> self@[j].service != service_name@,
            decreases n - i,
        {
            if string_eq_str(&self.services[i].service, service_name) {
                proof {
                    lemma_first_index_at(self@, |e: SvcOptV| e.service == service_name@, i as int);
                }
                let methods = &self.services[i].methods;
                let ghost mvs = self@[i as int].methods;
                proof {
                    lemma_first_index(mvs, |e: MethOptV| e.method == method_name@);
                }
                let m = methods.len();
                let mut j: usize = 0;
                while j < m
                    invariant
                        m == methods.len(),
                        i < self@.len(),
                        svc_index(self@, service_name@) == i as int,
                        mvs == self@[i as int].methods,
                        mvs == methods@.map_values(|e: MethodOptionEntry| e@),
                        j <= m,
                        forall|k: int| 0 <= k < j ==> mvs[k].method != method_name@,
                    decreases m - j,
                {
                    if string_eq_str(&methods[j].method, method_name) {
                        proof {
                            lemma_first_index_at(
                                mvs,
                                |e: MethOptV| e.method == method_name@,
                                j as int,
                            );
                            assert(mvs[j as int] == methods@[j as int]@);
                        }
                        return Some(&methods[j].option);
                    }
                    j = j + 1;
                }
                proof {
                    lemma_first_index(mvs, |e: MethOptV| e.method == method_name@);
                }
                return None;
            }
            i = i + 1;
        }
        None
    }

    /// The literal route path of one method's binding, if it has one.
    pub fn get_path(&self, service_name: &str, method_name: &str) -> (r: Option<String>)
        ensures
            ({
                let o = spec_get_http_options(self@, service_name@, method_name@);
                match r {
                    Some(p) => o matches Some(hv) && p@ == hv.pattern,
                    None => o is None,
                }
            }),
    {
        match self.get_http_options(service_name, method_name) {
            Some(option) => Some(option.build_path()),
            None => None,
        }
    }

    /// Resolves the binding of one method against its input message:
    /// `Ok(None)` when the method has no binding, an error only when
    /// the binding references a missing field.
    pub fn calculate_messages(
        &self,
        service_name: &str,
        method_name: &str,
        message: &Message,
        existing_messages: &ExistingMessages,
        new_messages: &mut NewMessages,
        config: &GeneratorConfig,
    ) -> (r: Result<Option<MethodDetails>, GenError>)
        ensures
            ({
                let o = spec_get_http_options(self@, service_name@, method_name@);
                match o {
                    None => {
                        &&& r matches Ok(d) && d is None
                        &&& final(new_messages)@ == old(new_messages)@
                    },
                    Some(hv) => {
                        let sr = spec_resolve(
                            hv,
                            message@,
                            existing_messages@,
                            old(new_messages)@.body,
                            old(new_messages)@.query,
                            config.body_message_suffix@,
                            config.query_message_suffix@,
                            config.type_suffix@,
                        );
                        match sr {
                            Ok(out) => {
                                &&& r matches Ok(d) && d matches Some(md) && md@ == out.0
                                &&& final(new_messages)@.body == out.1
                                &&& final(new_messages)@.query == out.2
                            },
                            Err(ResolveErr::Path(nm)) => {
                                &&& r matches Err(GenError::PathFieldNotFound(s)) && s@ == nm
                                &&& final(new_messages)@ == old(new_messages)@
                            },
                            Err(ResolveErr::Body(nm)) => {
                                &&& r matches Err(GenError::BodyFieldNotFound(s)) && s@ == nm
                                &&& final(new_messages)@ == old(new_messages)@
                            },
                        }
                    },
                }
            }),
    {
        match self.get_http_options(service_name, method_name) {
            Some(option) => match option.parse(message, existing_messages, new_messages, config) {
                Ok(details) => Ok(Some(details)),
                Err(e) => Err(e),
            },
            None => Ok(None),
        }
    }
}

} // verus!
