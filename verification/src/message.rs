//! The message model: fields, messages, the index of messages already
//! emitted by the upstream generator, and the registry of synthesized
//! partial message types.
//!
//! A message tracks both its current field list and the number of
//! fields it was created with, so that "is this message still intact"
//! (no field removed yet) is a constant-time test.

use vstd::prelude::*;
use vstd::pervasive::VecAdditionalExecFns;

use crate::config::GeneratorConfig;
use crate::text::{dec_rep, string_eq_str, usize_succ_to_string, views_of};

verus! {

// *** Generic first-match search ***

/// Index of the first element of `s` satisfying `p`, or `-1`.
pub open spec fn first_index<T>(s: Seq<T>, p: spec_fn(T) -> bool) -> int
    decreases s.len(),
{
    if s.len() == 0 {
        -1
    } else if p(s[0]) {
        0
    } else {
        let r = first_index(s.drop_first(), p);
        if r < 0 {
            -1
        } else {
            r + 1
        }
    }
}

/// `first_index` returns `-1` exactly when no element satisfies `p`,
/// and otherwise the least index of an element that does.
pub proof fn lemma_first_index<T>(s: Seq<T>, p: spec_fn(T) -> bool)
    ensures
        first_index(s, p) == -1 ==> forall|i: int| 0 <= i < s.len() ==> !p(s[i]),
        first_index(s, p) != -1 ==> {
            let k = first_index(s, p);
            &&& 0 <= k < s.len()
            &&& p(s[k])
            &&& forall|i: int| 0 <= i < k ==> !p(s[i])
        },
    decreases s.len(),
{
    if s.len() > 0 && !p(s[0]) {
        lemma_first_index(s.drop_first(), p);
        let t = s.drop_first();
        assert(forall|i: int| 0 < i < s.len() ==> s[i] == t[i - 1]);
    }
}

/// An element satisfying `p` at `k`, with none before it, pins
/// `first_index` to `k`.
pub proof fn lemma_first_index_at<T>(s: Seq<T>, p: spec_fn(T) -> bool, k: int)
    requires
        0 <= k < s.len(),
        p(s[k]),
        forall|i: int| 0 <= i < k ==> !p(s[i]),
    ensures
        first_index(s, p) == k,
{
    lemma_first_index(s, p);
}

// *** DocComments ***

/// The documentation lines attached to a message or field.
#[derive(Debug)]
pub struct DocComments {
    lines: Vec<String>,
}

impl View for DocComments {
    type V = Seq<Seq<char>>;

    closed spec fn view(&self) -> Seq<Seq<char>> {
        views_of(self.lines@)
    }
}

impl Clone for DocComments {
    fn clone(&self) -> (r: Self)
        ensures
            r@ == self@,
    {
        let lines = self.lines.clone();
        proof {
            assert(views_of(lines@) =~= views_of(self.lines@));
        }
        DocComments { lines }
    }
}

impl DocComments {
    /// An empty set of documentation lines.
    pub fn new() -> (r: Self)
        ensures
            r@ == Seq::<Seq<char>>::empty(),
    {
        let r = DocComments { lines: Vec::new() };
        proof {
            assert(r@ =~= Seq::<Seq<char>>::empty());
        }
        r
    }

    /// The lines split out of a free-form text: empty text gives no
    /// lines, otherwise one line per newline-separated part.
    pub open spec fn spec_from_text(text: Seq<char>) -> Seq<Seq<char>> {
        if text.len() == 0 {
            Seq::empty()
        } else {
            crate::text::split_seq(text, '\n')
        }
    }

    /// Builds documentation lines from a free-form text.
    pub fn from_text(text: &str) -> (r: Self)
        ensures
            r@ == Self::spec_from_text(text@),
    {
        if text.unicode_len() == 0 {
            Self::new()
        } else {
            DocComments { lines: crate::text::split_on(text, '\n') }
        }
    }

    /// Appends one line.
    pub fn push_line(&mut self, line: String)
        ensures
            final(self)@ == old(self)@.push(line@),
    {
        self.lines.push(line);
        proof {
            assert(final(self)@ =~= old(self)@.push(line@));
        }
    }

    /// The lines themselves.
    pub fn lines(&self) -> (r: &Vec<String>)
        ensures
            views_of(r@) == self@,
    {
        &self.lines
    }

    /// Returns true when there are no documentation lines.
    pub fn is_empty(&self) -> (r: bool)
        ensures
            r == (self@.len() == 0),
    {
        self.lines.len() == 0
    }
}

// *** Field ***

/// The mathematical model of a field: its name, its declared type
/// written as text, and its documentation lines.
pub ghost struct FieldV {
    pub name: Seq<char>,
    pub ty: Seq<char>,
    pub doc: Seq<Seq<char>>,
}

/// A single message member.
#[derive(Debug)]
pub struct Field {
    pub name: String,
    pub type_text: String,
    pub doc_comments: DocComments,
}

impl View for Field {
    type V = FieldV;

    open spec fn view(&self) -> FieldV {
        FieldV { name: self.name@, ty: self.type_text@, doc: self.doc_comments@ }
    }
}

impl Clone for Field {
    fn clone(&self) -> (r: Self)
        ensures
            r@ == self@,
    {
        Field {
            name: self.name.clone(),
            type_text: self.type_text.clone(),
            doc_comments: self.doc_comments.clone(),
        }
    }
}

impl Field {
    /// Builds a field from its name, type text and documentation.
    pub fn new(name: String, type_text: String, doc_comments: DocComments) -> (r: Self)
        ensures
            r@.name == name@,
            r@.ty == type_text@,
            r@.doc == doc_comments@,
    {
        Field { name, type_text, doc_comments }
    }
}

/// Field equality for deduplication: name and declared type;
/// documentation is not significant.
pub open spec fn field_key_eq(a: FieldV, b: FieldV) -> bool {
    a.name == b.name && a.ty == b.ty
}

/// Views of a vector of fields.
pub open spec fn fields_view(v: Seq<Field>) -> Seq<FieldV> {
    v.map_values(|f: Field| f@)
}

/// Some element of `s` has the same name and type as `f`.
pub open spec fn seq_contains_field(s: Seq<FieldV>, f: FieldV) -> bool {
    exists|i: int| 0 <= i < s.len() && field_key_eq(s[i], f)
}

/// Structural field-set comparison, as the deduplication scan applies
/// it: same length, and every field of `a` occurs (by name and type)
/// in `b`.
pub open spec fn spec_same_fields(a: Seq<FieldV>, b: Seq<FieldV>) -> bool {
    a.len() == b.len() && forall|i: int| 0 <= i < a.len() ==> seq_contains_field(b, a[i])
}

/// Order-independent equality of two field sets: same length and
/// mutual containment by name and type.
pub open spec fn equivalent_field_sets(a: Seq<FieldV>, b: Seq<FieldV>) -> bool {
    &&& a.len() == b.len()
    &&& forall|i: int| 0 <= i < a.len() ==> seq_contains_field(b, a[i])
    &&& forall|i: int| 0 <= i < b.len() ==> seq_contains_field(a, b[i])
}

/// Index of the first field of `s` named `name`, or `-1`.
pub open spec fn field_index(s: Seq<FieldV>, name: Seq<char>) -> int {
    first_index(s, |f: FieldV| f.name == name)
}

/// Returns true when some element of `fields` has the same name and
/// type as `f`.
pub fn contains_field(fields: &Vec<Field>, f: &Field) -> (r: bool)
    ensures
        r == seq_contains_field(fields_view(fields@), f@),
{
    let n = fields.len();
    let mut i: usize = 0;
    while i < n
        invariant
            n == fields.len(),
            i <= n,
            forall|j: int| 0 <= j < i ==> !field_key_eq(fields_view(fields@)[j], f@),
        decreases n - i,
    {
        if string_eq_str(&fields[i].name, f.name.as_str()) && string_eq_str(
            &fields[i].type_text,
            f.type_text.as_str(),
        ) {
            proof {
                assert(fields_view(fields@)[i as int] == fields@[i as int]@);
                assert(field_key_eq(fields_view(fields@)[i as int], f@));
            }
            return true;
        }
        i = i + 1;
    }
    false
}

// *** Message ***

/// The mathematical model of a message: name, documentation, current
/// field list, and the number of fields it was created with.
pub ghost struct MsgV {
    pub name: Seq<char>,
    pub doc: Seq<Seq<char>>,
    pub fields: Seq<FieldV>,
    pub count: nat,
}

/// An ordered, named collection of fields, remembering its original
/// field count.
#[derive(Debug)]
pub struct Message {
    pub name: String,
    pub doc_comments: DocComments,
    fields: Vec<Field>,
    field_count: usize,
}

impl View for Message {
    type V = MsgV;

    closed spec fn view(&self) -> MsgV {
        MsgV {
            name: self.name@,
            doc: self.doc_comments@,
            fields: fields_view(self.fields@),
            count: self.field_count as nat,
        }
    }
}

impl Clone for Message {
    fn clone(&self) -> (r: Self)
        ensures
            r@ == self@,
    {
        let fields = self.fields.clone();
        proof {
            assert(fields_view(fields@) =~= fields_view(self.fields@));
        }
        Message {
            name: self.name.clone(),
            doc_comments: self.doc_comments.clone(),
            fields,
            field_count: self.field_count,
        }
    }
}

impl Message {
    /// The message name.
    pub fn name(&self) -> (r: &String)
        ensures
            r@ == self@.name,
    {
        &self.name
    }

    /// The documentation lines of the message.
    pub fn doc_comments(&self) -> (r: &DocComments)
        ensures
            r@ == self@.doc,
    {
        &self.doc_comments
    }

    /// A new message with no fields yet.
    pub fn new(name: String, doc_comments: DocComments) -> (r: Self)
        ensures
            r@.name == name@,
            r@.doc == doc_comments@,
            r@.fields == Seq::<FieldV>::empty(),
            r@.count == 0,
    {
        let r = Message { name, doc_comments, fields: Vec::new(), field_count: 0 };
        proof {
            assert(r@.fields =~= Seq::<FieldV>::empty());
        }
        r
    }

    /// The current field list.
    pub fn fields(&self) -> (r: &Vec<Field>)
        ensures
            fields_view(r@) == self@.fields,
    {
        &self.fields
    }

    /// Appends several fields, counting them as original members.
    pub fn add_fields(&mut self, fields: Vec<Field>)
        requires
            old(self)@.count + fields@.len() <= usize::MAX,
        ensures
            final(self)@.name == old(self)@.name,
            final(self)@.doc == old(self)@.doc,
            final(self)@.fields == old(self)@.fields + fields_view(fields@),
            final(self)@.count == old(self)@.count + fields@.len(),
    {
        let ghost fv = fields_view(fields@);
        let n = fields.len();
        let mut moved = fields;
        self.fields.append(&mut moved);
        self.field_count = self.field_count + n;
        proof {
            assert(final(self)@.fields =~= old(self)@.fields + fv);
        }
    }

    /// Appends one field, counting it as an original member.
    pub fn add_field(&mut self, field: Field)
        requires
            old(self)@.count < usize::MAX,
        ensures
            final(self)@.name == old(self)@.name,
            final(self)@.doc == old(self)@.doc,
            final(self)@.fields == old(self)@.fields.push(field@),
            final(self)@.count == old(self)@.count + 1,
    {
        let ghost fv = field@;
        self.fields.push(field);
        self.field_count = self.field_count + 1;
        proof {
            assert(final(self)@.fields =~= old(self)@.fields.push(fv));
        }
    }

    /// Removes the first field with the given name and returns it, or
    /// returns `None` leaving the message unchanged.
    pub fn remove_field(&mut self, name: &str) -> (r: Option<Field>)
        ensures
            final(self)@.name == old(self)@.name,
            final(self)@.doc == old(self)@.doc,
            final(self)@.count == old(self)@.count,
            ({
                let k = field_index(old(self)@.fields, name@);
                if k < 0 {
                    &&& r is None
                    &&& final(self)@.fields == old(self)@.fields
                } else {
                    &&& r matches Some(f) && f@ == old(self)@.fields[k]
                    &&& final(self)@.fields == old(self)@.fields.remove(k)
                }
            }),
    {
        proof {
            lemma_first_index(old(self)@.fields, |f: FieldV| f.name == name@);
        }
        let n = self.fields.len();
        let mut i: usize = 0;
        while i < n
            invariant
                n == self.fields.len(),
                i <= n,
                *self == *old(self),
                forall|j: int| 0 <= j < i ==> self@.fields[j].name != name@,
            decreases n - i,
        {
            if string_eq_str(&self.fields[i].name, name) {
                proof {
                    lemma_first_index_at(
                        self@.fields,
                        |f: FieldV| f.name == name@,
                        i as int,
                    );
                }
                let f = self.fields.remove(i);
                proof {
                    assert(final(self)@.fields =~= old(self)@.fields.remove(i as int));
                }
                return Some(f);
            }
            i = i + 1;
        }
        proof {
            lemma_first_index(self@.fields, |f: FieldV| f.name == name@);
        }
        None
    }

    /// Removes and returns all remaining fields; the original count is
    /// kept.
    pub fn remove_all_fields(&mut self) -> (r: Vec<Field>)
        ensures
            final(self)@.name == old(self)@.name,
            final(self)@.doc == old(self)@.doc,
            final(self)@.count == old(self)@.count,
            final(self)@.fields == Seq::<FieldV>::empty(),
            fields_view(r@) == old(self)@.fields,
    {
        let r = self.fields.split_off(0);
        proof {
            assert(final(self)@.fields =~= Seq::<FieldV>::empty());
            assert(fields_view(r@) =~= old(self)@.fields);
        }
        r
    }

    /// Returns true when no fields remain.
    pub fn is_empty(&self) -> (r: bool)
        ensures
            r == (self@.fields.len() == 0),
    {
        self.fields.len() == 0
    }

    /// Returns true when no field has been removed yet.
    pub fn is_intact(&self) -> (r: bool)
        ensures
            r == (self@.count == self@.fields.len()),
    {
        self.field_count == self.fields.len()
    }

    /// Returns true when the message is intact and was created with
    /// exactly one field.
    pub fn intact_single_field(&self) -> (r: bool)
        ensures
            r == (self@.count == self@.fields.len() && self@.count == 1),
    {
        self.field_count == self.fields.len() && self.field_count == 1
    }

    /// Structural comparison of the current field list against an
    /// externally supplied one.
    pub fn same_fields(&self, fields: &Vec<Field>) -> (r: bool)
        ensures
            r == spec_same_fields(self@.fields, fields_view(fields@)),
    {
        let n = self.fields.len();
        if n != fields.len() {
            return false;
        }
        let mut i: usize = 0;
        while i < n
            invariant
                n == self.fields.len(),
                i <= n,
                forall|j: int|
                    0 <= j < i ==> seq_contains_field(fields_view(fields@), self@.fields[j]),
        decreases n - i,
        {
            if !contains_field(fields, &self.fields[i]) {
                proof {
                    assert(self@.fields[i as int] == self.fields@[i as int]@);
                    assert(!seq_contains_field(fields_view(fields@), self@.fields[i as int]));
                }
                return false;
            }
            i = i + 1;
        }
        true
    }
}

/// Views of a vector of messages.
pub open spec fn msgs_view(v: Seq<Message>) -> Seq<MsgV> {
    v.map_values(|m: Message| m@)
}

/// Index of the first message of `s` named `name`, or `-1`.
pub open spec fn msg_index(s: Seq<MsgV>, name: Seq<char>) -> int {
    first_index(s, |m: MsgV| m.name == name)
}

/// Adding a message to a name-indexed table: replace the entry of the
/// same name, or append.
pub open spec fn spec_add_message(s: Seq<MsgV>, m: MsgV) -> Seq<MsgV> {
    let k = msg_index(s, m.name);
    if k < 0 {
        s.push(m)
    } else {
        s.update(k, m)
    }
}

// *** ExistingMessages ***

/// The name-indexed table of messages already present in the emitted
/// source at this point of the generation pass.
#[derive(Debug)]
pub struct ExistingMessages {
    messages: Vec<Message>,
}

impl View for ExistingMessages {
    type V = Seq<MsgV>;

    closed spec fn view(&self) -> Seq<MsgV> {
        msgs_view(self.messages@)
    }
}

impl ExistingMessages {
    /// An empty index.
    pub fn new() -> (r: Self)
        ensures
            r@ == Seq::<MsgV>::empty(),
    {
        let r = ExistingMessages { messages: Vec::new() };
        proof {
            assert(r@ =~= Seq::<MsgV>::empty());
        }
        r
    }

    /// Adds a message, replacing any message of the same name.
    pub fn add_message(&mut self, message: Message)
        ensures
            final(self)@ == spec_add_message(old(self)@, message@),
    {
        proof {
            lemma_first_index(old(self)@, |m: MsgV| m.name == message@.name);
        }
        let n = self.messages.len();
        let mut i: usize = 0;
        while i < n
            invariant
                n == self.messages.len(),
                *self == *old(self),
                i <= n,
                forall|j: int| 0 <= j < i ==> self@[j].name != message@.name,
        decreases n - i,
        {
            if string_eq_str(&self.messages[i].name, message.name.as_str()) {
                proof {
                    lemma_first_index_at(self@, |m: MsgV| m.name == message@.name, i as int);
                }
                let ghost mv = message@;
                let mut moved = message;
                self.messages.set_and_swap(i, &mut moved);
                proof {
                    assert(final(self)@ =~= old(self)@.update(i as int, mv));
                }
                return ;
            }
            i = i + 1;
        }
        self.messages.push(message);
        proof {
            assert(final(self)@ =~= old(self)@.push(message@));
        }
    }

    /// Looks a message up by name.
    pub fn get_message(&self, name: &str) -> (r: Option<&Message>)
        ensures
            ({
                let k = msg_index(self@, name@);
                if k < 0 {
                    r is None
                } else {
                    r matches Some(m) && m@ == self@[k]
                }
            }),
    {
        proof {
            lemma_first_index(self@, |m: MsgV| m.name == name@);
        }
        let n = self.messages.len();
        let mut i: usize = 0;
        while i < n
            invariant
                n == self.messages.len(),
                i <= n,
                forall|j: int| 0 <= j < i ==> self@[j].name != name@,
        decreases n - i,
        {
            if string_eq_str(&self.messages[i].name, name) {
                proof {
                    lemma_first_index_at(self@, |m: MsgV| m.name == name@, i as int);
                }
                return Some(&self.messages[i]);
            }
            i = i + 1;
        }
        None
    }
}

// *** NewMessages ***

/// The model of one bucket: the origin message name and the variants
/// synthesized for it so far.
pub ghost struct BucketV {
    pub origin: Seq<char>,
    pub msgs: Seq<MsgV>,
}

/// The synthesized variants sharing one origin message name.
#[derive(Debug)]
pub struct MessageBucket {
    pub origin: String,
    pub messages: Vec<Message>,
}

impl View for MessageBucket {
    type V = BucketV;

    open spec fn view(&self) -> BucketV {
        BucketV { origin: self.origin@, msgs: msgs_view(self.messages@) }
    }
}

/// Views of a vector of buckets.
pub open spec fn buckets_view(v: Seq<MessageBucket>) -> Seq<BucketV> {
    v.map_values(|b: MessageBucket| b@)
}

/// Index of the first bucket of `s` for `origin`, or `-1`.
pub open spec fn bucket_index(s: Seq<BucketV>, origin: Seq<char>) -> int {
    first_index(s, |b: BucketV| b.origin == origin)
}

/// Index of the first message of `s` whose field set structurally
/// matches `fields`, or `-1`.
pub open spec fn match_index(s: Seq<MsgV>, fields: Seq<FieldV>) -> int {
    first_index(s, |m: MsgV| spec_same_fields(m.fields, fields))
}

/// The name given to the variant allocated when `prior` variants
/// already exist for the origin: the first variant carries no number,
/// later ones append `prior + 1`.
pub open spec fn synth_name(
    origin: Seq<char>,
    suffix: Seq<char>,
    type_suffix: Seq<char>,
    prior: nat,
) -> Seq<char> {
    if prior == 0 {
        origin + suffix + type_suffix
    } else {
        origin + suffix + dec_rep(prior + 1) + type_suffix
    }
}

/// What one get-or-create call does to a bucket list: reuse the first
/// structurally equal variant of the origin's bucket, or append a new
/// variant named by `synth_name`; returns the new bucket list and the
/// identifier.
pub open spec fn spec_get_or_create(
    bs: Seq<BucketV>,
    origin: Seq<char>,
    doc: Seq<Seq<char>>,
    fields: Seq<FieldV>,
    suffix: Seq<char>,
    type_suffix: Seq<char>,
) -> (Seq<BucketV>, Seq<char>) {
    let bi = bucket_index(bs, origin);
    let cur = if bi < 0 {
        Seq::<MsgV>::empty()
    } else {
        bs[bi].msgs
    };
    let mi = match_index(cur, fields);
    if mi >= 0 {
        (bs, cur[mi].name)
    } else {
        let name = synth_name(origin, suffix, type_suffix, cur.len());
        let msg = MsgV { name, doc, fields, count: fields.len() };
        let bs2 = if bi < 0 {
            bs.push(BucketV { origin, msgs: seq![msg] })
        } else {
            bs.update(bi, BucketV { origin, msgs: cur.push(msg) })
        };
        (bs2, name)
    }
}

/// The model of the registry: body-shaped and query-shaped buckets,
/// kept apart so a body struct and a query struct for the same origin
/// never collide or deduplicate against each other.
pub ghost struct NewMessagesV {
    pub body: Seq<BucketV>,
    pub query: Seq<BucketV>,
}

/// The registry of synthesized partial message types.
#[derive(Debug)]
pub struct NewMessages {
    body_buckets: Vec<MessageBucket>,
    query_buckets: Vec<MessageBucket>,
}

impl View for NewMessages {
    type V = NewMessagesV;

    closed spec fn view(&self) -> NewMessagesV {
        NewMessagesV {
            body: buckets_view(self.body_buckets@),
            query: buckets_view(self.query_buckets@),
        }
    }
}

/// Concatenation of the variants of all buckets, in bucket order.
pub open spec fn flatten_buckets(bs: Seq<BucketV>) -> Seq<MsgV>
    decreases bs.len(),
{
    if bs.len() == 0 {
        Seq::empty()
    } else {
        flatten_buckets(bs.drop_last()) + bs.last().msgs
    }
}


// *** Laws of the registry ***

/// `first_index` is the same for predicates that agree on every
/// element of the sequence.
pub proof fn lemma_first_index_congruence<T>(s: Seq<T>, p: spec_fn(T) -> bool, q: spec_fn(
    T,
) -> bool)
    requires
        forall|i: int| 0 <= i < s.len() ==> p(s[i]) == q(s[i]),
    ensures
        first_index(s, p) == first_index(s, q),
    decreases s.len(),
{
    if s.len() > 0 && !p(s[0]) {
        let t = s.drop_first();
        assert(forall|i: int| 0 <= i < t.len() ==> t[i] == s[i + 1]);
        lemma_first_index_congruence(t, p, q);
    }
}

/// A field contained by name and type in one of two
/// order-independently equal field sets is contained in the other.
pub proof fn lemma_contains_transfer(f1: Seq<FieldV>, f2: Seq<FieldV>, x: FieldV)
    requires
        f1.len() == f2.len(),
        forall|i: int| 0 <= i < f1.len() ==> seq_contains_field(f2, f1[i]),
        seq_contains_field(f1, x),
    ensures
        seq_contains_field(f2, x),
{
    let i = choose|i: int| 0 <= i < f1.len() && field_key_eq(f1[i], x);
    assert(seq_contains_field(f2, f1[i]));
    let j = choose|j: int| 0 <= j < f2.len() && field_key_eq(f2[j], f1[i]);
    assert(field_key_eq(f2[j], x));
}

/// Structural matching cannot tell two order-independently equal field
/// sets apart.
pub proof fn lemma_same_fields_respects_equiv(m: Seq<FieldV>, f1: Seq<FieldV>, f2: Seq<FieldV>)
    requires
        equivalent_field_sets(f1, f2),
    ensures
        spec_same_fields(m, f1) == spec_same_fields(m, f2),
{
    if spec_same_fields(m, f1) {
        assert forall|i: int| 0 <= i < m.len() implies seq_contains_field(f2, m[i]) by {
            assert(seq_contains_field(f1, m[i]));
            lemma_contains_transfer(f1, f2, m[i]);
        };
        assert(spec_same_fields(m, f2));
    }
    if spec_same_fields(m, f2) {
        assert forall|i: int| 0 <= i < m.len() implies seq_contains_field(f1, m[i]) by {
            assert(seq_contains_field(f2, m[i]));
            lemma_contains_transfer(f2, f1, m[i]);
        };
        assert(spec_same_fields(m, f1));
    }
}

/// The deduplication scan lands on the same variant for
/// order-independently equal field sets.
pub proof fn lemma_match_index_respects_equiv(s: Seq<MsgV>, f1: Seq<FieldV>, f2: Seq<FieldV>)
    requires
        equivalent_field_sets(f1, f2),
    ensures
        match_index(s, f1) == match_index(s, f2),
{
    assert forall|i: int| 0 <= i < s.len() implies (spec_same_fields(s[i].fields, f1)
        == spec_same_fields(s[i].fields, f2)) by {
        lemma_same_fields_respects_equiv(s[i].fields, f1, f2);
    };
    lemma_first_index_congruence(
        s,
        |m: MsgV| spec_same_fields(m.fields, f1),
        |m: MsgV| spec_same_fields(m.fields, f2),
    );
}

/// Idempotent deduplication: asking the registry twice for the same
/// origin with order-independently equal field sets returns the
/// identical identifier both times, and the second call allocates
/// nothing.
pub proof fn lemma_get_or_create_idempotent(
    bs: Seq<BucketV>,
    origin: Seq<char>,
    doc1: Seq<Seq<char>>,
    f1: Seq<FieldV>,
    doc2: Seq<Seq<char>>,
    f2: Seq<FieldV>,
    suffix: Seq<char>,
    type_suffix: Seq<char>,
)
    requires
        equivalent_field_sets(f1, f2),
    ensures
        ({
            let (bs1, n1) = spec_get_or_create(bs, origin, doc1, f1, suffix, type_suffix);
            let (bs2, n2) = spec_get_or_create(bs1, origin, doc2, f2, suffix, type_suffix);
            &&& n2 == n1
            &&& bs2 == bs1
        }),
{
    let pb = |b: BucketV| b.origin == origin;
    let bi = bucket_index(bs, origin);
    lemma_first_index(bs, pb);
    let cur = if bi < 0 { Seq::<MsgV>::empty() } else { bs[bi].msgs };
    let mi = match_index(cur, f1);
    lemma_first_index(cur, |m: MsgV| spec_same_fields(m.fields, f1));
    lemma_match_index_respects_equiv(cur, f1, f2);
    let (bs1, n1) = spec_get_or_create(bs, origin, doc1, f1, suffix, type_suffix);
    if mi >= 0 {
        // First call reused a variant; the second lookup walks the
        // same unchanged bucket.
        assert(bs1 == bs);
        assert(spec_get_or_create(bs1, origin, doc2, f2, suffix, type_suffix) == (bs1, n1));
    } else {
        let msg = MsgV { name: synth_name(origin, suffix, type_suffix, cur.len()), doc: doc1, fields: f1, count: f1.len() };
        if bi < 0 {
            // A fresh bucket holding only the new variant.
            assert(bs1 == bs.push(BucketV { origin, msgs: seq![msg] }));
            lemma_first_index_at(bs1, pb, bs.len() as int);
            let cur2 = bs1[bs.len() as int].msgs;
            assert(cur2 =~= seq![msg]);
            assert(spec_same_fields(f1, f2));
            lemma_first_index_at(cur2, |m: MsgV| spec_same_fields(m.fields, f2), 0);
        } else {
            // The bucket grew by the new variant; nothing before it
            // matches, and the new variant does.
            let cur2 = cur.push(msg);
            assert(bs1 == bs.update(bi, BucketV { origin, msgs: cur2 }));
            lemma_first_index_at(bs1, pb, bi);
            assert(bs1[bi].msgs == cur2);
            assert forall|k: int| 0 <= k < cur.len() implies !spec_same_fields(
                cur2[k].fields,
                f2,
            ) by {
                assert(cur2[k] == cur[k]);
                lemma_same_fields_respects_equiv(cur[k].fields, f1, f2);
            };
            assert(spec_same_fields(f1, f2));
            assert(cur2[cur.len() as int] == msg);
            lemma_first_index_at(
                cur2,
                |m: MsgV| spec_same_fields(m.fields, f2),
                cur.len() as int,
            );
        }
    }
}

/// Distinct-shape allocation: starting from a registry with no bucket
/// for the origin, two calls with structurally different field sets
/// allocate two variants; the first name carries no number, the second
/// carries the numeric disambiguator, and the two names differ.
pub proof fn lemma_get_or_create_distinct(
    bs: Seq<BucketV>,
    origin: Seq<char>,
    doc1: Seq<Seq<char>>,
    f1: Seq<FieldV>,
    doc2: Seq<Seq<char>>,
    f2: Seq<FieldV>,
    suffix: Seq<char>,
    type_suffix: Seq<char>,
)
    requires
        bucket_index(bs, origin) < 0,
        !spec_same_fields(f1, f2),
    ensures
        ({
            let (bs1, n1) = spec_get_or_create(bs, origin, doc1, f1, suffix, type_suffix);
            let (bs2, n2) = spec_get_or_create(bs1, origin, doc2, f2, suffix, type_suffix);
            &&& n1 == origin + suffix + type_suffix
            &&& n2 == origin + suffix + dec_rep(2) + type_suffix
            &&& n1 != n2
            &&& ({
                let b2 = bucket_index(bs2, origin);
                &&& 0 <= b2 < bs2.len()
                &&& bs2[b2].msgs.len() == 2
            })
        }),
{
    let pb = |b: BucketV| b.origin == origin;
    lemma_first_index(bs, pb);
    let (bs1, n1) = spec_get_or_create(bs, origin, doc1, f1, suffix, type_suffix);
    let msg1 = MsgV { name: n1, doc: doc1, fields: f1, count: f1.len() };
    assert(bs1 == bs.push(BucketV { origin, msgs: seq![msg1] }));
    lemma_first_index_at(bs1, pb, bs.len() as int);
    let cur2 = bs1[bs.len() as int].msgs;
    assert(cur2 =~= seq![msg1]);
    lemma_first_index(cur2, |m: MsgV| spec_same_fields(m.fields, f2));
    assert(match_index(cur2, f2) < 0);
    let (bs2, n2) = spec_get_or_create(bs1, origin, doc2, f2, suffix, type_suffix);
    assert(n2 == synth_name(origin, suffix, type_suffix, 1));
    assert(n2 == origin + suffix + dec_rep(2) + type_suffix);
    assert(n1 != n2) by {
        reveal_strlit("2");
        assert(dec_rep(2).len() == 1);
        assert(n1.len() < n2.len());
    };
    lemma_first_index_at(bs2, pb, bs.len() as int);
}

fn find_bucket_index(buckets: &Vec<MessageBucket>, origin: &String) -> (r: usize)
    ensures
        ({
            let k = bucket_index(buckets_view(buckets@), origin@);
            if k < 0 {
                r == buckets@.len()
            } else {
                r == k
            }
        }),
{
    proof {
        lemma_first_index(buckets_view(buckets@), |b: BucketV| b.origin == origin@);
    }
    let n = buckets.len();
    let mut i: usize = 0;
    while i < n
        invariant
            n == buckets.len(),
            i <= n,
            forall|j: int| 0 <= j < i ==> buckets_view(buckets@)[j].origin != origin@,
        decreases n - i,
    {
        if string_eq_str(&buckets[i].origin, origin.as_str()) {
            proof {
                lemma_first_index_at(
                    buckets_view(buckets@),
                    |b: BucketV| b.origin == origin@,
                    i as int,
                );
            }
            return i;
        }
        i = i + 1;
    }
    n
}

fn get_or_create(
    buckets: &mut Vec<MessageBucket>,
    origin: &String,
    doc: &DocComments,
    fields: Vec<Field>,
    suffix: &str,
    type_suffix: &str,
) -> (r: String)
    ensures
        ({
            let (bs2, name) = spec_get_or_create(
                buckets_view(old(buckets)@),
                origin@,
                doc@,
                fields_view(fields@),
                suffix@,
                type_suffix@,
            );
            &&& buckets_view(final(buckets)@) == bs2
            &&& r@ == name
        }),
{
    let ghost bs0 = buckets_view(old(buckets)@);
    let ghost fv = fields_view(fields@);
    proof {
        lemma_first_index(bs0, |b: BucketV| b.origin == origin@);
    }
    let n = buckets.len();
    let bi = find_bucket_index(buckets, origin);
    let ghost cur = if bucket_index(bs0, origin@) < 0 {
        Seq::<MsgV>::empty()
    } else {
        bs0[bucket_index(bs0, origin@)].msgs
    };
    if bi < n {
        // Scan the existing bucket for a structurally equal variant.
        proof {
            assert(buckets_view(buckets@)[bi as int] == buckets@[bi as int]@);
            assert(cur =~= msgs_view(buckets@[bi as int].messages@));
            lemma_first_index(cur, |m: MsgV| spec_same_fields(m.fields, fv));
        }
        let m = buckets[bi].messages.len();
        let mut j: usize = 0;
        while j < m
            invariant
                *buckets == *old(buckets),
                bs0 == buckets_view(old(buckets)@),
                bucket_index(bs0, origin@) == bi as int,
                bi < buckets@.len(),
                m == buckets@[bi as int].messages.len(),
                j <= m,
                cur == msgs_view(buckets@[bi as int].messages@),
                fv == fields_view(fields@),
                forall|k: int| 0 <= k < j ==> !spec_same_fields(cur[k].fields, fv),
            decreases m - j,
        {
            if buckets[bi].messages[j].same_fields(&fields) {
                proof {
                    assert(cur[j as int] == buckets@[bi as int].messages@[j as int]@);
                    lemma_first_index_at(
                        cur,
                        |mm: MsgV| spec_same_fields(mm.fields, fv),
                        j as int,
                    );
                    assert(buckets_view(buckets@) =~= bs0);
                }
                return buckets[bi].messages[j].name.clone();
            }
            j = j + 1;
        }
    }
    proof {
        lemma_first_index(cur, |mm: MsgV| spec_same_fields(mm.fields, fv));
        assert(match_index(cur, fv) < 0);
    }
    // No structural match anywhere: allocate a new variant.
    if bi == n {
        // The origin has no bucket yet; start an empty one so both
        // the scan and the insertion work on one bucket.
        buckets.push(MessageBucket { origin: origin.clone(), messages: Vec::new() });
    }
    let mut bucket = buckets.remove(bi);
    proof {
        assert(cur =~= msgs_view(bucket.messages@));
    }
    let m = bucket.messages.len();
    let mut name = origin.clone();
    name.append(suffix);
    if m > 0 {
        let num = usize_succ_to_string(m);
        name.append(num.as_str());
    }
    name.append(type_suffix);
    let mut msg = Message::new(name.clone(), doc.clone());
    let nf = fields.len();
    msg.add_fields(fields);
    proof {
        assert(msg@.fields =~= fv);
        assert(msg@ == (MsgV { name: name@, doc: doc@, fields: fv, count: fv.len() }));
    }
    bucket.messages.push(msg);
    buckets.insert(bi, bucket);
    proof {
        let ghost_msg = MsgV { name: name@, doc: doc@, fields: fv, count: fv.len() };
        let bnew = BucketV { origin: origin@, msgs: cur.push(ghost_msg) };
        assert(buckets_view(final(buckets)@)[bi as int] == bnew) by {
            assert(msgs_view(final(buckets)@[bi as int].messages@) =~= cur.push(ghost_msg));
        }
        let (bs2, sname) = spec_get_or_create(bs0, origin@, doc@, fv, suffix@, type_suffix@);
        assert(name@ == sname);
        assert(buckets_view(final(buckets)@) =~= bs2);
    }
    name
}

impl NewMessages {
    /// An empty registry.
    pub fn new() -> (r: Self)
        ensures
            r@.body == Seq::<BucketV>::empty(),
            r@.query == Seq::<BucketV>::empty(),
    {
        let r = NewMessages { body_buckets: Vec::new(), query_buckets: Vec::new() };
        proof {
            assert(r@.body =~= Seq::<BucketV>::empty());
            assert(r@.query =~= Seq::<BucketV>::empty());
        }
        r
    }

    /// Gets or creates a body-shaped variant for the origin message.
    pub fn get_or_create_body_message(
        &mut self,
        input_message_name: &String,
        msg_doc_comments: &DocComments,
        fields: Vec<Field>,
        config: &GeneratorConfig,
    ) -> (r: String)
        ensures
            final(self)@.query == old(self)@.query,
            ({
                let (bs2, name) = spec_get_or_create(
                    old(self)@.body,
                    input_message_name@,
                    msg_doc_comments@,
                    fields_view(fields@),
                    config.body_message_suffix@,
                    config.type_suffix@,
                );
                &&& final(self)@.body == bs2
                &&& r@ == name
            }),
    {
        get_or_create(
            &mut self.body_buckets,
            input_message_name,
            msg_doc_comments,
            fields,
            config.body_message_suffix.as_str(),
            config.type_suffix.as_str(),
        )
    }

    /// Gets or creates a query-shaped variant for the origin message.
    pub fn get_or_create_query_message(
        &mut self,
        input_message_name: &String,
        msg_doc_comments: &DocComments,
        fields: Vec<Field>,
        config: &GeneratorConfig,
    ) -> (r: String)
        ensures
            final(self)@.body == old(self)@.body,
            ({
                let (bs2, name) = spec_get_or_create(
                    old(self)@.query,
                    input_message_name@,
                    msg_doc_comments@,
                    fields_view(fields@),
                    config.query_message_suffix@,
                    config.type_suffix@,
                );
                &&& final(self)@.query == bs2
                &&& r@ == name
            }),
    {
        get_or_create(
            &mut self.query_buckets,
            input_message_name,
            msg_doc_comments,
            fields,
            config.query_message_suffix.as_str(),
            config.type_suffix.as_str(),
        )
    }

    /// All body-shaped variants synthesized so far, in bucket order.
    pub fn body_messages(&self) -> (r: Vec<Message>)
        ensures
            msgs_view(r@) == flatten_buckets(self@.body),
    {
        collect_buckets(&self.body_buckets)
    }

    /// All query-shaped variants synthesized so far, in bucket order.
    pub fn query_messages(&self) -> (r: Vec<Message>)
        ensures
            msgs_view(r@) == flatten_buckets(self@.query),
    {
        collect_buckets(&self.query_buckets)
    }
}

fn collect_buckets(buckets: &Vec<MessageBucket>) -> (r: Vec<Message>)
    ensures
        msgs_view(r@) == flatten_buckets(buckets_view(buckets@)),
{
    let n = buckets.len();
    let mut out: Vec<Message> = Vec::new();
    let mut i: usize = 0;
    proof {
        assert(msgs_view(out@) =~= flatten_buckets(buckets_view(buckets@).take(0)));
    }
    while i < n
        invariant
            n == buckets.len(),
            i <= n,
            msgs_view(out@) == flatten_buckets(buckets_view(buckets@).take(i as int)),
        decreases n - i,
    {
        let m = buckets[i].messages.len();
        let mut j: usize = 0;
        while j < m
            invariant
                n == buckets.len(),
                i < n,
                m == buckets[i as int].messages.len(),
                j <= m,
                msgs_view(out@) == flatten_buckets(buckets_view(buckets@).take(i as int))
                    + msgs_view(buckets[i as int].messages@).take(j as int),
            decreases m - j,
        {
            let ghost prev = out@;
            out.push(buckets[i].messages[j].clone());
            proof {
                let bmsgs = msgs_view(buckets@[i as int].messages@);
                assert(bmsgs[j as int] == buckets@[i as int].messages@[j as int]@);
                assert(msgs_view(out@) =~= msgs_view(prev).push(bmsgs[j as int]));
                assert(bmsgs.take(j + 1) =~= bmsgs.take(j as int).push(bmsgs[j as int]));
                assert(msgs_view(out@) =~= flatten_buckets(buckets_view(buckets@).take(i as int))
                    + bmsgs.take(j + 1));
            }
            j = j + 1;
        }
        proof {
            assert(buckets_view(buckets@).take(i + 1).drop_last() =~= buckets_view(
                buckets@,
            ).take(i as int));
            assert(buckets_view(buckets@).take(i + 1).last() == buckets_view(buckets@)[i as int]);
            assert(msgs_view(buckets[i as int].messages@).take(m as int) =~= msgs_view(
                buckets[i as int].messages@,
            ));
        }
        i = i + 1;
    }
    proof {
        assert(buckets_view(buckets@).take(n as int) =~= buckets_view(buckets@));
    }
    out
}

} // verus!
