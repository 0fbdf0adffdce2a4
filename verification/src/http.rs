//! HTTP bindings and the binding resolver: the per-method annotation
//! (verb, path template, body mapping) and the partition of a method's
//! input message into path-bound fields, a body specification and a
//! query specification.

use vstd::prelude::*;
use vstd::multiset::Multiset;

use crate::config::GeneratorConfig;
use crate::errors::GenError;
use crate::message::{
    field_index, fields_view, msg_index, spec_get_or_create, BucketV, ExistingMessages, Field,
    FieldV, Message, MsgV, NewMessages,
};
use crate::text::{split_seq, views_of};

verus! {

// *** HttpVerb ***

/// The HTTP verbs a binding annotation can carry.
#[derive(Clone, Copy, PartialEq, Eq, Structural, Debug)]
pub enum HttpVerb {
    Get,
    Post,
    Put,
    Delete,
    Patch,
}

impl HttpVerb {
    /// The verb in upper case, as the annotation reports it.
    pub open spec fn spec_upper(self) -> Seq<char> {
        match self {
            HttpVerb::Get => "GET"@,
            HttpVerb::Post => "POST"@,
            HttpVerb::Put => "PUT"@,
            HttpVerb::Delete => "DELETE"@,
            HttpVerb::Patch => "PATCH"@,
        }
    }

    /// The verb in lower case, as routes and path attributes write it.
    pub open spec fn spec_lower(self) -> Seq<char> {
        match self {
            HttpVerb::Get => "get"@,
            HttpVerb::Post => "post"@,
            HttpVerb::Put => "put"@,
            HttpVerb::Delete => "delete"@,
            HttpVerb::Patch => "patch"@,
        }
    }

    /// The verb in upper case.
    pub fn upper_text(&self) -> (r: &'static str)
        ensures
            r@ == self.spec_upper(),
    {
        match self {
            HttpVerb::Get => "GET",
            HttpVerb::Post => "POST",
            HttpVerb::Put => "PUT",
            HttpVerb::Delete => "DELETE",
            HttpVerb::Patch => "PATCH",
        }
    }

    /// The verb in lower case.
    pub fn lower_text(&self) -> (r: &'static str)
        ensures
            r@ == self.spec_lower(),
    {
        match self {
            HttpVerb::Get => "get",
            HttpVerb::Post => "post",
            HttpVerb::Put => "put",
            HttpVerb::Delete => "delete",
            HttpVerb::Patch => "patch",
        }
    }
}

// *** HttpOption ***

/// The model of one parsed binding annotation.
pub ghost struct HttpOptionV {
    pub verb: HttpVerb,
    pub pattern: Seq<char>,
    pub body: Option<Seq<char>>,
}

/// One parsed HTTP binding annotation: verb, path template, and an
/// optional body specification (the wildcard or a field name).
#[derive(Debug)]
pub struct HttpOption {
    pub verb: HttpVerb,
    pub pattern: String,
    pub body: Option<String>,
}

impl View for HttpOption {
    type V = HttpOptionV;

    open spec fn view(&self) -> HttpOptionV {
        HttpOptionV {
            verb: self.verb,
            pattern: self.pattern@,
            body: match self.body {
                Some(ref b) => Some(b@),
                None => None,
            },
        }
    }
}

impl Clone for HttpOption {
    fn clone(&self) -> (r: Self)
        ensures
            r@ == self@,
    {
        HttpOption {
            verb: self.verb,
            pattern: self.pattern.clone(),
            body: match &self.body {
                Some(b) => Some(b.clone()),
                None => None,
            },
        }
    }
}

// *** Path templates ***

/// A path segment of the shape `{identifier}`.
pub open spec fn is_placeholder(seg: Seq<char>) -> bool {
    seg.len() >= 2 && seg[0] == '{' && seg[seg.len() - 1] == '}'
}

/// The field name inside a placeholder segment.
pub open spec fn placeholder_name(seg: Seq<char>) -> Seq<char> {
    seg.subrange(1, seg.len() - 1)
}

/// The placeholder names of a segment list, in order.
pub open spec fn placeholders_of(segs: Seq<Seq<char>>) -> Seq<Seq<char>>
    decreases segs.len(),
{
    if segs.len() == 0 {
        Seq::empty()
    } else {
        placeholders_of(segs.drop_last()) + (if is_placeholder(segs.last()) {
            seq![placeholder_name(segs.last())]
        } else {
            Seq::empty()
        })
    }
}

/// The path-bound field names of a template, in declaration order.
pub open spec fn pattern_placeholders(pattern: Seq<char>) -> Seq<Seq<char>> {
    placeholders_of(split_seq(pattern, '/'))
}

/// What removing the named fields in order does: the ordered list of
/// removed fields and the remaining field list, or the first name
/// found missing.
pub open spec fn spec_extract_path(fields: Seq<FieldV>, names: Seq<Seq<char>>) -> Result<
    (Seq<FieldV>, Seq<FieldV>),
    Seq<char>,
>
    decreases names.len(),
{
    if names.len() == 0 {
        Ok((Seq::empty(), fields))
    } else {
        let k = field_index(fields, names[0]);
        if k < 0 {
            Err(names[0])
        } else {
            match spec_extract_path(fields.remove(k), names.drop_first()) {
                Ok(pr) => Ok((seq![fields[k]] + pr.0, pr.1)),
                Err(e) => Err(e),
            }
        }
    }
}

/// Collects the placeholder names of the split template segments.
fn collect_placeholders(segs: &Vec<String>) -> (r: Vec<String>)
    ensures
        views_of(r@) == placeholders_of(views_of(segs@)),
{
    let n = segs.len();
    let mut out: Vec<String> = Vec::new();
    let mut i: usize = 0;
    proof {
        assert(views_of(out@) =~= placeholders_of(views_of(segs@).take(0)));
    }
    while i < n
        invariant
            n == segs.len(),
            i <= n,
            views_of(out@) == placeholders_of(views_of(segs@).take(i as int)),
        decreases n - i,
    {
        let seg = &segs[i];
        let len = seg.as_str().unicode_len();
        let ghost prev = out@;
        if len >= 2 && seg.as_str().get_char(0) == '{' && seg.as_str().get_char(len - 1) == '}' {
            let name = seg.as_str().substring_char(1, len - 1);
            out.push(String::from_str(name));
            proof {
                assert(name@ =~= placeholder_name(seg@));
                assert(views_of(out@) =~= views_of(prev).push(placeholder_name(seg@)));
            }
        }
        proof {
            let sv = views_of(segs@);
            assert(sv.take(i + 1).drop_last() =~= sv.take(i as int));
            assert(sv.take(i + 1).last() == sv[i as int]);
            assert(sv[i as int] == segs@[i as int]@);
            if !(seg@.len() >= 2 && seg@[0] == '{' && seg@[seg@.len() - 1] == '}') {
                assert(views_of(out@) =~= placeholders_of(sv.take(i + 1)));
            } else {
                assert(views_of(out@) =~= placeholders_of(sv.take(i as int)) + seq![
                    placeholder_name(sv[i as int]),
                ]);
            }
        }
        i = i + 1;
    }
    proof {
        assert(views_of(segs@).take(n as int) =~= views_of(segs@));
    }
    out
}

/// Removes the fields named from `i` on from the message, mirroring
/// `spec_extract_path` on the remaining names.
fn remove_path_fields(message: &mut Message, names: &Vec<String>, i: usize) -> (r: Result<
    Vec<Field>,
    GenError,
>)
    requires
        i <= names@.len(),
    ensures
        final(message)@.name == old(message)@.name,
        final(message)@.doc == old(message)@.doc,
        final(message)@.count == old(message)@.count,
        ({
            let sr = spec_extract_path(old(message)@.fields, views_of(names@).skip(i as int));
            match sr {
                Ok(pr) => {
                    &&& r matches Ok(v) && fields_view(v@) == pr.0
                    &&& final(message)@.fields == pr.1
                },
                Err(e) => r matches Err(GenError::PathFieldNotFound(s)) && s@ == e,
            }
        }),
    decreases names@.len() - i,
{
    let ghost names_v = views_of(names@);
    if i == names.len() {
        proof {
            assert(names_v.skip(i as int) =~= Seq::<Seq<char>>::empty());
            assert(fields_view(Seq::<Field>::empty()) =~= Seq::<FieldV>::empty());
        }
        let out: Vec<Field> = Vec::new();
        proof {
            assert(fields_view(out@) =~= Seq::<FieldV>::empty());
        }
        return Ok(out);
    }
    proof {
        assert(names_v.skip(i as int)[0] == names@[i as int]@);
        assert(names_v.skip(i as int).drop_first() =~= names_v.skip(i + 1));
    }
    match message.remove_field(names[i].as_str()) {
        None => Err(GenError::PathFieldNotFound(names[i].clone())),
        Some(f) => {
            let ghost mid = message@.fields;
            match remove_path_fields(message, names, i + 1) {
                Err(e) => Err(e),
                Ok(mut rest) => {
                    let ghost rv = fields_view(rest@);
                    rest.insert(0, f);
                    proof {
                        assert(fields_view(rest@) =~= seq![
                            old(message)@.fields[field_index(
                                old(message)@.fields,
                                names@[i as int]@,
                            )],
                        ] + rv);
                    }
                    Ok(rest)
                },
            }
        },
    }
}


// *** MessageHandling and MessageDetails ***

/// The model of a handling mode.
pub ghost enum HandlingV {
    /// Use the original message type unchanged.
    Verbatim,
    /// Bind exactly one named field, wrapped in an existing message
    /// type.
    Single(Seq<char>),
    /// Bind the named fields through a synthesized struct.
    Extract(Seq<Seq<char>>),
}

/// How one logical sub-message (body or query) is materialized.
#[derive(Debug)]
pub enum MessageHandling {
    /// Use the original message type unchanged.
    VerbatimRequest,
    /// Bind exactly one named field, wrapped in an existing message
    /// type.
    ExtractSingleField(String),
    /// Bind the named fields through a synthesized struct.
    ExtractFields(Vec<String>),
}

impl View for MessageHandling {
    type V = HandlingV;

    open spec fn view(&self) -> HandlingV {
        match self {
            MessageHandling::VerbatimRequest => HandlingV::Verbatim,
            MessageHandling::ExtractSingleField(f) => HandlingV::Single(f@),
            MessageHandling::ExtractFields(fs) => HandlingV::Extract(views_of(fs@)),
        }
    }
}

impl MessageHandling {
    /// Whether this handling requires the request to be rebuilt from
    /// extracted values.
    pub fn build_request(&self) -> (r: bool)
        ensures
            r == !(self@ is Verbatim),
    {
        match self {
            MessageHandling::ExtractSingleField(_) => true,
            MessageHandling::ExtractFields(_) => true,
            MessageHandling::VerbatimRequest => false,
        }
    }
}

/// The model of a materialized sub-message.
pub ghost struct DetailsV {
    pub ty: Seq<char>,
    pub handling: HandlingV,
}

/// The target type and handling mode of one body or query
/// sub-message.
#[derive(Debug)]
pub struct MessageDetails {
    pub type_text: String,
    pub handling: MessageHandling,
}

impl View for MessageDetails {
    type V = DetailsV;

    open spec fn view(&self) -> DetailsV {
        DetailsV { ty: self.type_text@, handling: self.handling@ }
    }
}

impl MessageDetails {
    /// Whether this sub-message requires the request to be rebuilt.
    pub fn build_request(&self) -> (r: bool)
        ensures
            r == !(self@.handling is Verbatim),
    {
        self.handling.build_request()
    }
}

/// The view of an optional sub-message.
pub open spec fn details_opt_view(o: Option<MessageDetails>) -> Option<DetailsV> {
    match o {
        Some(d) => Some(d@),
        None => None,
    }
}

// *** MethodDetails ***

/// The model of a resolved binding.
pub ghost struct MethodDetailsV {
    pub verb: HttpVerb,
    pub path: Seq<char>,
    pub path_fields: Seq<FieldV>,
    pub query: Option<DetailsV>,
    pub body: Option<DetailsV>,
}

/// The resolved partition of one method: path-bound fields in template
/// order, an optional query sub-message and an optional body
/// sub-message, with the verb and path carried through.
#[derive(Debug)]
pub struct MethodDetails {
    pub verb: HttpVerb,
    pub path: String,
    pub path_fields: Vec<Field>,
    pub query_str: Option<MessageDetails>,
    pub body: Option<MessageDetails>,
}

impl View for MethodDetails {
    type V = MethodDetailsV;

    open spec fn view(&self) -> MethodDetailsV {
        MethodDetailsV {
            verb: self.verb,
            path: self.path@,
            path_fields: fields_view(self.path_fields@),
            query: details_opt_view(self.query_str),
            body: details_opt_view(self.body),
        }
    }
}

/// Whether a resolved binding requires the request to be rebuilt from
/// extracted values.
pub open spec fn spec_build_request(d: MethodDetailsV) -> bool {
    ||| d.path_fields.len() > 0
    ||| (d.query matches Some(q) && !(q.handling is Verbatim))
    ||| (d.body matches Some(b) && !(b.handling is Verbatim))
}

impl MethodDetails {
    /// Whether the handler must rebuild the request value from
    /// extracted parts.
    pub fn build_request(&self) -> (r: bool)
        ensures
            r == spec_build_request(self@),
    {
        if self.path_fields.len() > 0 {
            return true;
        }
        let q = match &self.query_str {
            Some(d) => d.build_request(),
            None => false,
        };
        if q {
            return true;
        }
        match &self.body {
            Some(d) => d.build_request(),
            None => false,
        }
    }
}

// *** Binding resolution ***

/// The names of a field list, in order.
pub open spec fn spec_field_names(s: Seq<FieldV>) -> Seq<Seq<char>> {
    s.map_values(|f: FieldV| f.name)
}

/// Which resolution step failed, with the missing field name.
pub ghost enum ResolveErr {
    /// A path placeholder named a missing field.
    Path(Seq<char>),
    /// The body specification named a missing field.
    Body(Seq<char>),
}

/// What body resolution does, by binding-spec case: nothing without a
/// body spec; for the wildcard, verbatim reuse when the message is
/// still intact, else a synthesized body struct over the remaining
/// fields; for a named field, the nested message type when the field's
/// type is an indexed message, verbatim reuse when the message was
/// intact with exactly this one field, else a synthesized single-field
/// struct.
pub open spec fn spec_resolve_body(
    body: Option<Seq<char>>,
    msg: MsgV,
    existing: Seq<MsgV>,
    buckets: Seq<BucketV>,
    bsuffix: Seq<char>,
    tsuffix: Seq<char>,
) -> Result<(Option<DetailsV>, MsgV, Seq<BucketV>), Seq<char>> {
    match body {
        None => Ok((None, msg, buckets)),
        Some(b) => {
            if b == "*"@ {
                let intact = msg.count == msg.fields.len();
                let cleared = MsgV { fields: Seq::empty(), ..msg };
                if intact {
                    Ok(
                        (
                            Some(DetailsV { ty: msg.name, handling: HandlingV::Verbatim }),
                            cleared,
                            buckets,
                        ),
                    )
                } else {
                    let (bs2, name) = spec_get_or_create(
                        buckets,
                        msg.name,
                        msg.doc,
                        msg.fields,
                        bsuffix,
                        tsuffix,
                    );
                    Ok(
                        (
                            Some(
                                DetailsV {
                                    ty: name,
                                    handling: HandlingV::Extract(spec_field_names(msg.fields)),
                                },
                            ),
                            cleared,
                            bs2,
                        ),
                    )
                }
            } else {
                let single = msg.count == msg.fields.len() && msg.count == 1;
                let k = field_index(msg.fields, b);
                if k < 0 {
                    Err(b)
                } else {
                    let f = msg.fields[k];
                    let msg2 = MsgV { fields: msg.fields.remove(k), ..msg };
                    let mk = msg_index(existing, f.ty);
                    if mk >= 0 {
                        Ok(
                            (
                                Some(
                                    DetailsV {
                                        ty: existing[mk].name,
                                        handling: HandlingV::Single(f.name),
                                    },
                                ),
                                msg2,
                                buckets,
                            ),
                        )
                    } else if single {
                        Ok(
                            (
                                Some(DetailsV { ty: msg.name, handling: HandlingV::Verbatim }),
                                msg2,
                                buckets,
                            ),
                        )
                    } else {
                        let (bs2, name) = spec_get_or_create(
                            buckets,
                            msg.name,
                            msg.doc,
                            seq![f],
                            bsuffix,
                            tsuffix,
                        );
                        Ok(
                            (
                                Some(
                                    DetailsV {
                                        ty: name,
                                        handling: HandlingV::Extract(seq![f.name]),
                                    },
                                ),
                                msg2,
                                bs2,
                            ),
                        )
                    }
                }
            }
        },
    }
}

/// What query resolution does over whatever fields remain: nothing
/// when none remain; verbatim reuse when the message is fully intact;
/// else a synthesized query struct over the remaining fields.
pub open spec fn spec_resolve_query(
    msg: MsgV,
    buckets: Seq<BucketV>,
    qsuffix: Seq<char>,
    tsuffix: Seq<char>,
) -> (Option<DetailsV>, MsgV, Seq<BucketV>) {
    if msg.fields.len() == 0 {
        (None, msg, buckets)
    } else if msg.count == msg.fields.len() {
        (Some(DetailsV { ty: msg.name, handling: HandlingV::Verbatim }), msg, buckets)
    } else {
        let cleared = MsgV { fields: Seq::empty(), ..msg };
        let (bs2, name) = spec_get_or_create(
            buckets,
            msg.name,
            msg.doc,
            msg.fields,
            qsuffix,
            tsuffix,
        );
        (
            Some(
                DetailsV {
                    ty: name,
                    handling: HandlingV::Extract(spec_field_names(msg.fields)),
                },
            ),
            cleared,
            bs2,
        )
    }
}

/// The whole resolution of one binding: path extraction in placeholder
/// order, then body resolution, then query resolution over the
/// remainder.
pub open spec fn spec_resolve(
    rule: HttpOptionV,
    msg: MsgV,
    existing: Seq<MsgV>,
    body_buckets: Seq<BucketV>,
    query_buckets: Seq<BucketV>,
    bsuffix: Seq<char>,
    qsuffix: Seq<char>,
    tsuffix: Seq<char>,
) -> Result<(MethodDetailsV, Seq<BucketV>, Seq<BucketV>), ResolveErr> {
    match spec_extract_path(msg.fields, pattern_placeholders(rule.pattern)) {
        Err(n) => Err(ResolveErr::Path(n)),
        Ok(pr) => {
            let msg1 = MsgV { fields: pr.1, ..msg };
            match spec_resolve_body(rule.body, msg1, existing, body_buckets, bsuffix, tsuffix) {
                Err(n) => Err(ResolveErr::Body(n)),
                Ok(br) => {
                    let qr = spec_resolve_query(br.1, query_buckets, qsuffix, tsuffix);
                    Ok(
                        (
                            MethodDetailsV {
                                verb: rule.verb,
                                path: rule.pattern,
                                path_fields: pr.0,
                                query: qr.0,
                                body: br.0,
                            },
                            br.2,
                            qr.2,
                        ),
                    )
                },
            }
        },
    }
}


// *** Laws of the resolver ***

/// The field names a resolved sub-message covers, against the field
/// names of the message it was resolved from: a verbatim binding
/// covers them all, a single-field binding covers that field, a
/// synthesized struct covers exactly its own fields.
pub open spec fn details_names(d: Option<DetailsV>, all: Seq<Seq<char>>) -> Seq<Seq<char>> {
    match d {
        None => Seq::empty(),
        Some(dd) => match dd.handling {
            HandlingV::Verbatim => all,
            HandlingV::Single(n) => seq![n],
            HandlingV::Extract(ns) => ns,
        },
    }
}

/// Path extraction removes exactly one field per placeholder: the
/// extracted and remaining field names together are the original
/// names, as a multiset.
pub proof fn lemma_extract_path_names(fields: Seq<FieldV>, names: Seq<Seq<char>>)
    ensures
        spec_extract_path(fields, names) matches Ok(pr) ==> {
            &&& pr.0.len() == names.len()
            &&& pr.0.len() + pr.1.len() == fields.len()
            &&& spec_field_names(pr.0).to_multiset().add(spec_field_names(pr.1).to_multiset())
                == spec_field_names(fields).to_multiset()
        },
    decreases names.len(),
{
    broadcast use vstd::seq_lib::group_to_multiset_ensures;
    broadcast use vstd::multiset::group_multiset_axioms;

    let nf = spec_field_names(fields);
    if names.len() == 0 {
        match spec_extract_path(fields, names) {
            Ok(pr) => {
                assert(spec_field_names(pr.0) =~= Seq::<Seq<char>>::empty());
                assert(Seq::<Seq<char>>::empty().to_multiset() =~= Multiset::<Seq<char>>::empty());
                assert(Multiset::<Seq<char>>::empty().add(nf.to_multiset()) =~= nf.to_multiset());
            },
            Err(_) => {},
        }
    } else {
        let k = field_index(fields, names[0]);
        crate::message::lemma_first_index(fields, |f: FieldV| f.name == names[0]);
        if k >= 0 {
            let f = fields[k];
            let rest = fields.remove(k);
            lemma_extract_path_names(rest, names.drop_first());
            match spec_extract_path(rest, names.drop_first()) {
                Ok(pr2) => {
                    let path = seq![f] + pr2.0;
                    assert(spec_field_names(path) =~= seq![f.name] + spec_field_names(pr2.0));
                    assert(spec_field_names(rest) =~= nf.remove(k));
                    assert(nf[k] == f.name);
                    // The remaining names are the original names less
                    // the extracted one.
                    assert(nf.remove(k).to_multiset() == nf.to_multiset().remove(f.name));
                    // Reassemble the multiset.
                    vstd::seq_lib::lemma_multiset_commutative(seq![f.name], spec_field_names(pr2.0));
                    assert(seq![f.name].to_multiset() =~= Multiset::<Seq<char>>::empty().insert(
                        f.name,
                    )) by {
                        assert(seq![f.name] =~= Seq::<Seq<char>>::empty().push(f.name));
                        assert(Seq::<Seq<char>>::empty().to_multiset()
                            =~= Multiset::<Seq<char>>::empty());
                    };
                    assert(nf.to_multiset().contains(f.name)) by {
                        assert(nf[k] == f.name);
                        assert(nf.contains(f.name));
                    };
                    assert(spec_field_names(pr2.0).to_multiset().add(
                        spec_field_names(pr2.1).to_multiset(),
                    ) == nf.to_multiset().remove(f.name));
                    assert(spec_field_names(path).to_multiset() =~= spec_field_names(
                        pr2.0,
                    ).to_multiset().insert(f.name));
                    let p0 = spec_field_names(pr2.0).to_multiset();
                    let p1 = spec_field_names(pr2.1).to_multiset();
                    assert(p0.insert(f.name).add(p1) =~= p0.add(p1).insert(f.name));
                    assert(nf.to_multiset().remove(f.name).insert(f.name) =~= nf.to_multiset());
                    assert(spec_field_names(path).to_multiset().add(
                        spec_field_names(pr2.1).to_multiset(),
                    ) =~= nf.to_multiset());
                },
                Err(_) => {},
            }
        }
    }
}

/// Partition completeness: for any resolved binding over a message
/// with no fields yet removed, the path-bound field names, the body's
/// covered names and the query's covered names together are exactly
/// the message's field names, with no duplicates and no omissions.
pub proof fn lemma_partition_completeness(
    rule: HttpOptionV,
    msg: MsgV,
    existing: Seq<MsgV>,
    body_buckets: Seq<BucketV>,
    query_buckets: Seq<BucketV>,
    bsuffix: Seq<char>,
    qsuffix: Seq<char>,
    tsuffix: Seq<char>,
)
    requires
        msg.count == msg.fields.len(),
    ensures
        spec_resolve(
            rule,
            msg,
            existing,
            body_buckets,
            query_buckets,
            bsuffix,
            qsuffix,
            tsuffix,
        ) matches Ok(out) ==> {
            let all = spec_field_names(msg.fields);
            spec_field_names(out.0.path_fields).to_multiset().add(
                details_names(out.0.body, all).to_multiset(),
            ).add(details_names(out.0.query, all).to_multiset()) == all.to_multiset()
        },
{
    broadcast use vstd::seq_lib::group_to_multiset_ensures;

    let all = spec_field_names(msg.fields);
    let names = pattern_placeholders(rule.pattern);
    lemma_extract_path_names(msg.fields, names);
    match spec_extract_path(msg.fields, names) {
        Err(_) => {},
        Ok(pr) => {
            let path = pr.0;
            let rest = pr.1;
            let pn = spec_field_names(path);
            let rn = spec_field_names(rest);
            let msg1 = MsgV { fields: rest, ..msg };
            assert(pn.to_multiset().add(rn.to_multiset()) == all.to_multiset());
            match spec_resolve_body(rule.body, msg1, existing, body_buckets, bsuffix, tsuffix) {
                Err(_) => {},
                Ok(br) => {
                    let msg2 = br.1;
                    let qr = spec_resolve_query(msg2, query_buckets, qsuffix, tsuffix);
                    let bn = details_names(br.0, all);
                    let qn = details_names(qr.0, all);
                    // Case analysis on the body specification.
                    match rule.body {
                        None => {
                            assert(msg2 == msg1);
                            assert(bn =~= Seq::<Seq<char>>::empty());
                            lemma_query_names(msg, path, rest, query_buckets, qsuffix, tsuffix);
                            assert(pn.to_multiset().add(bn.to_multiset()).add(qn.to_multiset())
                                =~= all.to_multiset());
                        },
                        Some(b) => {
                            if b == "*"@ {
                                assert(msg2.fields =~= Seq::<FieldV>::empty());
                                assert(qr.0 is None);
                                assert(qn =~= Seq::<Seq<char>>::empty());
                                if msg1.count == msg1.fields.len() {
                                    // Intact: nothing was path-bound,
                                    // the body covers everything.
                                    assert(path.len() == 0);
                                    assert(rest =~= msg.fields) by {
                                        assert(names.len() == 0);
                                    };
                                    assert(bn == all);
                                    assert(pn =~= Seq::<Seq<char>>::empty());
                                    assert(pn.to_multiset().add(bn.to_multiset()).add(
                                        qn.to_multiset(),
                                    ) =~= all.to_multiset());
                                } else {
                                    assert(bn == rn);
                                    assert(pn.to_multiset().add(bn.to_multiset()).add(
                                        qn.to_multiset(),
                                    ) =~= all.to_multiset());
                                }
                            } else {
                                let k = field_index(msg1.fields, b);
                                crate::message::lemma_first_index(
                                    msg1.fields,
                                    |f: FieldV| f.name == b,
                                );
                                if k >= 0 {
                                    let f = msg1.fields[k];
                                    assert(msg2.fields == rest.remove(k));
                                    assert(spec_field_names(msg2.fields) =~= rn.remove(k));
                                    assert(rn[k] == f.name);
                                    assert(rn.to_multiset().contains(f.name)) by {
                                        assert(rn.contains(f.name));
                                    };
                                    assert(rn.remove(k).to_multiset() == rn.to_multiset().remove(
                                        f.name,
                                    ));
                                    let single = msg1.count == msg1.fields.len() && msg1.count
                                        == 1;
                                    let mk = msg_index(existing, f.ty);
                                    if mk < 0 && single {
                                        // The message only ever had
                                        // this one field.
                                        assert(path.len() == 0);
                                        assert(rest =~= msg.fields) by {
                                            assert(names.len() == 0);
                                        };
                                        assert(bn == all);
                                        assert(msg2.fields.len() == 0);
                                        assert(qr.0 is None);
                                        assert(pn =~= Seq::<Seq<char>>::empty());
                                        assert(pn.to_multiset().add(bn.to_multiset()).add(
                                            Seq::<Seq<char>>::empty().to_multiset(),
                                        ) =~= all.to_multiset());
                                    } else {
                                        // Single-field binding, nested
                                        // or synthesized: covers
                                        // exactly that field.
                                        assert(bn =~= seq![f.name]);
                                        assert(seq![f.name].to_multiset()
                                            =~= Multiset::<Seq<char>>::empty().insert(f.name)) by {
                                            assert(seq![f.name] =~= Seq::<
                                                Seq<char>,
                                            >::empty().push(f.name));
                                        };
                                        lemma_query_names_removed(
                                            msg,
                                            path,
                                            rest,
                                            k,
                                            query_buckets,
                                            qsuffix,
                                            tsuffix,
                                        );
                                        let qr2 = spec_resolve_query(
                                            MsgV { fields: rest.remove(k), ..msg },
                                            query_buckets,
                                            qsuffix,
                                            tsuffix,
                                        );
                                        assert(qr == qr2);
                                        assert(details_names(qr.0, all).to_multiset()
                                            =~= rn.to_multiset().remove(f.name));
                                        assert(pn.to_multiset().add(bn.to_multiset()).add(
                                            qn.to_multiset(),
                                        ) =~= all.to_multiset());
                                    }
                                }
                            }
                        },
                    }
                },
            }
        },
    }
}

/// Query resolution over an untouched remainder covers exactly the
/// remaining field names.
proof fn lemma_query_names(
    msg: MsgV,
    path: Seq<FieldV>,
    rest: Seq<FieldV>,
    query_buckets: Seq<BucketV>,
    qsuffix: Seq<char>,
    tsuffix: Seq<char>,
)
    requires
        msg.count == msg.fields.len(),
        path.len() + rest.len() == msg.fields.len(),
        spec_field_names(path).to_multiset().add(spec_field_names(rest).to_multiset())
            == spec_field_names(msg.fields).to_multiset(),
    ensures
        ({
            let msg1 = MsgV { fields: rest, ..msg };
            let qr = spec_resolve_query(msg1, query_buckets, qsuffix, tsuffix);
            details_names(qr.0, spec_field_names(msg.fields)).to_multiset()
                == spec_field_names(rest).to_multiset()
        }),
{
    broadcast use vstd::seq_lib::group_to_multiset_ensures;

    let all = spec_field_names(msg.fields);
    let rn = spec_field_names(rest);
    let msg1 = MsgV { fields: rest, ..msg };
    let qr = spec_resolve_query(msg1, query_buckets, qsuffix, tsuffix);
    if rest.len() == 0 {
        assert(rn =~= Seq::<Seq<char>>::empty());
        assert(details_names(qr.0, all) =~= Seq::<Seq<char>>::empty());
    } else if msg1.count == msg1.fields.len() {
        // Fully intact: nothing was path-bound, so the remainder is
        // the whole message.
        assert(path.len() == 0);
        assert(details_names(qr.0, all) == all);
        assert(spec_field_names(path) =~= Seq::<Seq<char>>::empty());
        assert(Seq::<Seq<char>>::empty().to_multiset() =~= Multiset::<Seq<char>>::empty());
        assert(all.to_multiset() =~= rn.to_multiset());
    } else {
        assert(details_names(qr.0, all) == rn);
    }
}

/// Query resolution after one more field was removed for the body
/// covers the remaining names less that field.
proof fn lemma_query_names_removed(
    msg: MsgV,
    path: Seq<FieldV>,
    rest: Seq<FieldV>,
    k: int,
    query_buckets: Seq<BucketV>,
    qsuffix: Seq<char>,
    tsuffix: Seq<char>,
)
    requires
        msg.count == msg.fields.len(),
        path.len() + rest.len() == msg.fields.len(),
        0 <= k < rest.len(),
    ensures
        ({
            let msg2 = MsgV { fields: rest.remove(k), ..msg };
            let qr = spec_resolve_query(msg2, query_buckets, qsuffix, tsuffix);
            details_names(qr.0, spec_field_names(msg.fields)).to_multiset()
                == spec_field_names(rest).to_multiset().remove(rest[k].name)
        }),
{
    broadcast use vstd::seq_lib::group_to_multiset_ensures;

    let all = spec_field_names(msg.fields);
    let rn = spec_field_names(rest);
    let msg2 = MsgV { fields: rest.remove(k), ..msg };
    let qr = spec_resolve_query(msg2, query_buckets, qsuffix, tsuffix);
    assert(spec_field_names(rest.remove(k)) =~= rn.remove(k));
    assert(rn[k] == rest[k].name);
    assert(rn.to_multiset().contains(rest[k].name)) by {
        assert(rn.contains(rest[k].name));
    };
    assert(rn.remove(k).to_multiset() == rn.to_multiset().remove(rest[k].name));
    if rest.remove(k).len() == 0 {
        assert(details_names(qr.0, all) =~= Seq::<Seq<char>>::empty());
        assert(rn.len() == 1);
        assert(rn.to_multiset().remove(rest[k].name) =~= Seq::<Seq<char>>::empty().to_multiset())
            by {
            assert(rn =~= Seq::<Seq<char>>::empty().push(rn[0]));
            assert(rn.to_multiset() =~= Multiset::<Seq<char>>::empty().insert(rn[0]));
        };
    } else if msg2.count == msg2.fields.len() {
        // Impossible: one field was just removed.
        assert(msg2.fields.len() < msg.fields.len());
        assert(false);
    } else {
        assert(details_names(qr.0, all) == spec_field_names(msg2.fields));
    }
}

/// A placeholder naming a field that the input message does not have
/// at all makes resolution fail with a binding-reference error.
pub proof fn lemma_path_field_missing(
    rule: HttpOptionV,
    msg: MsgV,
    existing: Seq<MsgV>,
    body_buckets: Seq<BucketV>,
    query_buckets: Seq<BucketV>,
    bsuffix: Seq<char>,
    qsuffix: Seq<char>,
    tsuffix: Seq<char>,
    i: int,
)
    requires
        0 <= i < pattern_placeholders(rule.pattern).len(),
        field_index(msg.fields, pattern_placeholders(rule.pattern)[i]) < 0,
    ensures
        spec_resolve(
            rule,
            msg,
            existing,
            body_buckets,
            query_buckets,
            bsuffix,
            qsuffix,
            tsuffix,
        ) matches Err(e) && e is Path,
{
    lemma_extract_path_missing(msg.fields, pattern_placeholders(rule.pattern), i);
}

/// Removing fields never makes an absent name present: extraction must
/// fail when some placeholder names a field the list does not hold.
proof fn lemma_extract_path_missing(fields: Seq<FieldV>, names: Seq<Seq<char>>, i: int)
    requires
        0 <= i < names.len(),
        field_index(fields, names[i]) < 0,
    ensures
        spec_extract_path(fields, names) is Err,
    decreases names.len(),
{
    crate::message::lemma_first_index(fields, |f: FieldV| f.name == names[i]);
    if i == 0 {
    } else {
        let k = field_index(fields, names[0]);
        crate::message::lemma_first_index(fields, |f: FieldV| f.name == names[0]);
        if k >= 0 {
            let rest = fields.remove(k);
            assert(field_index(rest, names[i]) < 0) by {
                crate::message::lemma_first_index(rest, |f: FieldV| f.name == names[i]);
                assert(forall|j: int|
                    0 <= j < rest.len() ==> #[trigger] rest[j].name != names[i]) by {
                    assert(forall|j: int|
                        0 <= j < fields.len() ==> #[trigger] fields[j].name != names[i]);
                    assert(forall|j: int|
                        0 <= j < rest.len() ==> rest[j] == (if j < k {
                            fields[j]
                        } else {
                            fields[j + 1]
                        }));
                };
            };
            assert(names.drop_first()[i - 1] == names[i]);
            lemma_extract_path_missing(rest, names.drop_first(), i - 1);
        }
    }
}

/// Verbatim reuse: a binding with no path placeholders and a wildcard
/// body over a message with no fields yet removed resolves the body to
/// the original message type verbatim, no query, and synthesizes
/// nothing.
pub proof fn lemma_wildcard_verbatim(
    rule: HttpOptionV,
    msg: MsgV,
    existing: Seq<MsgV>,
    body_buckets: Seq<BucketV>,
    query_buckets: Seq<BucketV>,
    bsuffix: Seq<char>,
    qsuffix: Seq<char>,
    tsuffix: Seq<char>,
)
    requires
        pattern_placeholders(rule.pattern).len() == 0,
        rule.body == Some("*"@),
        msg.count == msg.fields.len(),
    ensures
        spec_resolve(
            rule,
            msg,
            existing,
            body_buckets,
            query_buckets,
            bsuffix,
            qsuffix,
            tsuffix,
        ) matches Ok(out) ==> {
            &&& out.0.body == Some(DetailsV { ty: msg.name, handling: HandlingV::Verbatim })
            &&& out.0.query is None
            &&& out.0.path_fields.len() == 0
            &&& out.1 == body_buckets
            &&& out.2 == query_buckets
        },
{
    let names = pattern_placeholders(rule.pattern);
    assert(spec_extract_path(msg.fields, names) == Ok::<_, Seq<char>>(
        (Seq::<FieldV>::empty(), msg.fields),
    ));
}


/// A query sub-message is never a single wrapped field: query
/// resolution yields nothing, verbatim reuse, or a synthesized
/// struct. The handler-parts builder relies on this.
pub proof fn lemma_query_never_single(
    rule: HttpOptionV,
    msg: MsgV,
    existing: Seq<MsgV>,
    body_buckets: Seq<BucketV>,
    query_buckets: Seq<BucketV>,
    bsuffix: Seq<char>,
    qsuffix: Seq<char>,
    tsuffix: Seq<char>,
)
    ensures
        spec_resolve(
            rule,
            msg,
            existing,
            body_buckets,
            query_buckets,
            bsuffix,
            qsuffix,
            tsuffix,
        ) matches Ok(out) ==> !(out.0.query matches Some(q) && q.handling is Single),
{
}

/// Collects the names of a field list.
pub fn field_names_of(fields: &Vec<Field>) -> (r: Vec<String>)
    ensures
        views_of(r@) == spec_field_names(fields_view(fields@)),
{
    let n = fields.len();
    let mut out: Vec<String> = Vec::new();
    let mut i: usize = 0;
    proof {
        assert(views_of(out@) =~= spec_field_names(fields_view(fields@)).take(0));
    }
    while i < n
        invariant
            n == fields.len(),
            i <= n,
            views_of(out@) == spec_field_names(fields_view(fields@)).take(i as int),
        decreases n - i,
    {
        let ghost prev = out@;
        out.push(fields[i].name.clone());
        proof {
            let fv = spec_field_names(fields_view(fields@));
            assert(fv[i as int] == fields@[i as int]@.name);
            assert(views_of(out@) =~= views_of(prev).push(fv[i as int]));
            assert(fv.take(i + 1) =~= fv.take(i as int).push(fv[i as int]));
        }
        i = i + 1;
    }
    proof {
        assert(spec_field_names(fields_view(fields@)).take(n as int) =~= spec_field_names(
            fields_view(fields@),
        ));
    }
    out
}

impl HttpOption {
    /// The literal route path of this binding: the template as
    /// written, since only flat single-segment captures are supported.
    pub fn build_path(&self) -> (r: String)
        ensures
            r@ == self@.pattern,
    {
        self.pattern.clone()
    }

    /// Removes each `{name}` placeholder's field from the message, in
    /// declaration order, and collects them.
    fn parse_pattern(&self, message: &mut Message) -> (r: Result<Vec<Field>, GenError>)
        ensures
            final(message)@.name == old(message)@.name,
            final(message)@.doc == old(message)@.doc,
            final(message)@.count == old(message)@.count,
            ({
                let sr = spec_extract_path(
                    old(message)@.fields,
                    pattern_placeholders(self@.pattern),
                );
                match sr {
                    Ok(pr) => {
                        &&& r matches Ok(v) && fields_view(v@) == pr.0
                        &&& final(message)@.fields == pr.1
                    },
                    Err(e) => r matches Err(GenError::PathFieldNotFound(s)) && s@ == e,
                }
            }),
    {
        let segs = crate::text::split_on(self.pattern.as_str(), '/');
        let names = collect_placeholders(&segs);
        proof {
            assert(views_of(names@).skip(0) =~= views_of(names@));
        }
        remove_path_fields(message, &names, 0)
    }

    /// Resolves the body specification against the fields left after
    /// path extraction.
    fn parse_body(
        &self,
        message: &mut Message,
        existing_messages: &ExistingMessages,
        new_messages: &mut NewMessages,
        config: &GeneratorConfig,
    ) -> (r: Result<Option<MessageDetails>, GenError>)
        ensures
            final(new_messages)@.query == old(new_messages)@.query,
            final(message)@.name == old(message)@.name,
            final(message)@.doc == old(message)@.doc,
            final(message)@.count == old(message)@.count,
            ({
                let sr = spec_resolve_body(
                    self@.body,
                    old(message)@,
                    existing_messages@,
                    old(new_messages)@.body,
                    config.body_message_suffix@,
                    config.type_suffix@,
                );
                match sr {
                    Ok(br) => {
                        &&& r matches Ok(d) && details_opt_view(d) == br.0
                        &&& final(message)@.fields == br.1.fields
                        &&& final(new_messages)@.body == br.2
                    },
                    Err(e) => {
                        &&& r matches Err(GenError::BodyFieldNotFound(s)) && s@ == e
                        &&& final(new_messages)@.body == old(new_messages)@.body
                    },
                }
            }),
    {
        let body = match &self.body {
            None => {
                return Ok(None);
            },
            Some(b) => b,
        };
        if crate::text::string_eq_str(body, "*") {
            // Record intactness before removing the remaining fields.
            let intact = message.is_intact();
            let fields = message.remove_all_fields();
            if intact {
                Ok(Some(MessageDetails {
                    type_text: message.name().clone(),
                    handling: MessageHandling::VerbatimRequest,
                }))
            } else {
                let names = field_names_of(&fields);
                let ty = new_messages.get_or_create_body_message(
                    message.name(),
                    message.doc_comments(),
                    fields,
                    config,
                );
                Ok(Some(MessageDetails {
                    type_text: ty,
                    handling: MessageHandling::ExtractFields(names),
                }))
            }
        } else {
            // Record this before removing the field.
            let intact_single_field = message.intact_single_field();
            let field = match message.remove_field(body.as_str()) {
                None => {
                    return Err(GenError::BodyFieldNotFound(body.clone()));
                },
                Some(f) => f,
            };
            match existing_messages.get_message(field.type_text.as_str()) {
                // The field is itself a known message type: bind that
                // type directly.
                Some(nested) => Ok(Some(MessageDetails {
                    type_text: nested.name().clone(),
                    handling: MessageHandling::ExtractSingleField(field.name.clone()),
                })),
                // This was the message's only field: the original
                // message is the body verbatim.
                None if intact_single_field => Ok(Some(MessageDetails {
                    type_text: message.name().clone(),
                    handling: MessageHandling::VerbatimRequest,
                })),
                // Otherwise a single-field struct is synthesized.
                None => {
                    let name = field.name.clone();
                    let mut single: Vec<Field> = Vec::new();
                    let ghost fv = field@;
                    single.push(field);
                    proof {
                        assert(fields_view(single@) =~= seq![fv]);
                    }
                    let mut names: Vec<String> = Vec::new();
                    names.push(name);
                    let ty = new_messages.get_or_create_body_message(
                        message.name(),
                        message.doc_comments(),
                        single,
                        config,
                    );
                    proof {
                        assert(views_of(names@) =~= seq![fv.name]);
                    }
                    Ok(Some(MessageDetails {
                        type_text: ty,
                        handling: MessageHandling::ExtractFields(names),
                    }))
                },
            }
        }
    }

    /// Resolves the query specification over whatever fields remain.
    fn parse_query_str(
        &self,
        message: &mut Message,
        new_messages: &mut NewMessages,
        config: &GeneratorConfig,
    ) -> (r: Option<MessageDetails>)
        ensures
            final(new_messages)@.body == old(new_messages)@.body,
            ({
                let qr = spec_resolve_query(
                    old(message)@,
                    old(new_messages)@.query,
                    config.query_message_suffix@,
                    config.type_suffix@,
                );
                &&& details_opt_view(r) == qr.0
                &&& final(new_messages)@.query == qr.2
            }),
    {
        if message.is_empty() {
            // No fields left, so no query struct is needed.
            None
        } else if message.is_intact() {
            // Use the message itself.
            Some(MessageDetails {
                type_text: message.name().clone(),
                handling: MessageHandling::VerbatimRequest,
            })
        } else {
            // Build a new struct with the remaining fields.
            let fields = message.remove_all_fields();
            let names = field_names_of(&fields);
            let ty = new_messages.get_or_create_query_message(
                message.name(),
                message.doc_comments(),
                fields,
                config,
            );
            Some(MessageDetails { type_text: ty, handling: MessageHandling::ExtractFields(names) })
        }
    }

    /// Resolves this binding against a method's input message: path
    /// extraction, body resolution, then query resolution, each over a
    /// private clone so other methods sharing the message type are
    /// unaffected.
    pub fn parse(
        &self,
        message: &Message,
        existing_messages: &ExistingMessages,
        new_messages: &mut NewMessages,
        config: &GeneratorConfig,
    ) -> (r: Result<MethodDetails, GenError>)
        ensures
            ({
                let sr = spec_resolve(
                    self@,
                    message@,
                    existing_messages@,
                    old(new_messages)@.body,
                    old(new_messages)@.query,
                    config.body_message_suffix@,
                    config.query_message_suffix@,
                    config.type_suffix@,
                );
                match sr {
                    Ok(out) => {
                        &&& r matches Ok(d) && d@ == out.0
                        &&& final(new_messages)@.body == out.1
                        &&& final(new_messages)@.query == out.2
                    },
                    Err(ResolveErr::Path(n)) => {
                        &&& r matches Err(GenError::PathFieldNotFound(s)) && s@ == n
                        &&& final(new_messages)@ == old(new_messages)@
                    },
                    Err(ResolveErr::Body(n)) => {
                        &&& r matches Err(GenError::BodyFieldNotFound(s)) && s@ == n
                        &&& final(new_messages)@ == old(new_messages)@
                    },
                }
            }),
    {
        let mut working = message.clone();
        let path_fields = match self.parse_pattern(&mut working) {
            Ok(v) => v,
            Err(e) => {
                return Err(e);
            },
        };
        let body = match self.parse_body(&mut working, existing_messages, new_messages, config) {
            Ok(d) => d,
            Err(e) => {
                return Err(e);
            },
        };
        let query_str = self.parse_query_str(&mut working, new_messages, config);
        Ok(MethodDetails {
            verb: self.verb,
            path: self.build_path(),
            path_fields,
            query_str,
            body,
        })
    }
}

} // verus!
