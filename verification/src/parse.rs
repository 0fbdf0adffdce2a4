//! A line scanner over the source text the upstream generator has
//! already emitted, building the index of existing messages.
//!
//! The scanner reads line-formatted struct declarations: documentation
//! and attribute lines under any indentation, a `pub struct Name {`
//! opener at column zero (or `pub struct Name {}` for an empty
//! message), `pub name: Type,` field lines under any indentation, and
//! a closing brace on a line of its own. The column-zero opener is
//! what keeps structs nested inside modules out of the index, as only
//! top-level declarations are messages. Anything else is passed over.

use vstd::prelude::*;

use crate::message::{
    fields_view, msg_index, spec_add_message, DocComments, ExistingMessages, Field, FieldV,
    Message, MsgV,
};
use crate::text::{split_seq, split_on, views_of};

verus! {

/// `p` is a prefix of `s`.
pub open spec fn spec_starts_with(s: Seq<char>, p: Seq<char>) -> bool {
    p.len() <= s.len() && s.take(p.len() as int) == p
}

/// `p` is a suffix of `s`.
pub open spec fn spec_ends_with(s: Seq<char>, p: Seq<char>) -> bool {
    p.len() <= s.len() && s.skip(s.len() - p.len()) == p
}

/// `s` without its trailing spaces.
pub open spec fn spec_trim_right(s: Seq<char>) -> Seq<char>
    decreases s.len(),
{
    if s.len() > 0 && s.last() == ' ' {
        spec_trim_right(s.drop_last())
    } else {
        s
    }
}

/// `s` without its leading spaces.
pub open spec fn spec_trim_left(s: Seq<char>) -> Seq<char>
    decreases s.len(),
{
    if s.len() > 0 && s[0] == ' ' {
        spec_trim_left(s.drop_first())
    } else {
        s
    }
}

/// The text of a documentation line: what follows the marker, less
/// one leading space if present.
pub open spec fn spec_doc_text(line: Seq<char>, marker: Seq<char>) -> Seq<char> {
    if spec_starts_with(line, marker + " "@) {
        line.skip(marker.len() as int + 1)
    } else {
        line.skip(marker.len() as int)
    }
}

/// The scanner state: pending struct and field documentation, the
/// struct being read, and the messages completed so far.
pub ghost struct ScanV {
    pub struct_doc: Seq<Seq<char>>,
    pub field_doc: Seq<Seq<char>>,
    pub current: Option<MsgV>,
    pub done: Seq<MsgV>,
}

/// The initial scanner state.
pub open spec fn scan_init() -> ScanV {
    ScanV { struct_doc: Seq::empty(), field_doc: Seq::empty(), current: None, done: Seq::empty() }
}

/// The struct name of an opener line, given how many trailing
/// characters close it.
pub open spec fn spec_struct_name(line: Seq<char>, close: int) -> Seq<char> {
    spec_trim_right(line.subrange("pub struct "@.len() as int, line.len() - close))
}

/// One scanner step over one line. Documentation, attribute, field
/// and closing-brace lines are recognized under any indentation; only
/// the struct opener must stand at column zero.
pub open spec fn spec_scan_line(st: ScanV, line: Seq<char>) -> ScanV {
    let t = spec_trim_left(line);
    if st.current is Some && spec_starts_with(t, "///"@) {
        // Field documentation.
        ScanV { field_doc: st.field_doc.push(spec_doc_text(t, "///"@)), ..st }
    } else if spec_starts_with(t, "///"@) {
        // Struct documentation.
        ScanV { struct_doc: st.struct_doc.push(spec_doc_text(t, "///"@)), ..st }
    } else if spec_starts_with(t, "#"@) {
        // An attribute: documentation stays pending.
        st
    } else if spec_starts_with(line, "pub struct "@) && spec_ends_with(line, "{}"@) {
        // An empty message, declared and closed on one line.
        let m = MsgV {
            name: spec_struct_name(line, 2),
            doc: st.struct_doc,
            fields: Seq::empty(),
            count: 0,
        };
        ScanV {
            struct_doc: Seq::empty(),
            field_doc: Seq::empty(),
            current: st.current,
            done: st.done.push(m),
        }
    } else if spec_starts_with(line, "pub struct "@) && spec_ends_with(line, "{"@) {
        // A message opens; its fields follow.
        let m = MsgV {
            name: spec_struct_name(line, 1),
            doc: st.struct_doc,
            fields: Seq::empty(),
            count: 0,
        };
        ScanV { struct_doc: Seq::empty(), field_doc: Seq::empty(), current: Some(m), done: st.done }
    } else if spec_trim_right(t) == "}"@ {
        // The message closes, if one is open.
        match st.current {
            Some(m) => ScanV {
                struct_doc: Seq::empty(),
                field_doc: Seq::empty(),
                current: None,
                done: st.done.push(m),
            },
            None => ScanV {
                struct_doc: Seq::empty(),
                field_doc: Seq::empty(),
                current: None,
                done: st.done,
            },
        }
    } else if st.current is Some && spec_starts_with(spec_trim_right(t), "pub "@)
        && spec_ends_with(spec_trim_right(t), ","@) && crate::text::find_char(
        spec_trim_right(t).skip("pub "@.len() as int),
        ':',
    ) >= 0 {
        // One field: name up to the colon, type after it.
        let tt = spec_trim_right(t);
        let body = tt.subrange("pub "@.len() as int, tt.len() - 1);
        let k = crate::text::find_char(body, ':');
        let f = FieldV {
            name: body.take(k),
            ty: spec_trim_right(spec_skip_one_space(body.skip(k + 1))),
            doc: st.field_doc,
        };
        match st.current {
            Some(m) => ScanV {
                struct_doc: st.struct_doc,
                field_doc: Seq::empty(),
                current: Some(
                    MsgV {
                        name: m.name,
                        doc: m.doc,
                        fields: m.fields.push(f),
                        count: m.count + 1,
                    },
                ),
                done: st.done,
            },
            None => st,
        }
    } else {
        // Anything else interrupts pending documentation.
        ScanV { struct_doc: Seq::empty(), field_doc: Seq::empty(), current: st.current, done: st.done }
    }
}

/// `s` without one leading space, if it has one.
pub open spec fn spec_skip_one_space(s: Seq<char>) -> Seq<char> {
    if s.len() > 0 && s[0] == ' ' {
        s.skip(1)
    } else {
        s
    }
}

/// The scanner folded over all lines.
pub open spec fn spec_scan_lines(st: ScanV, lines: Seq<Seq<char>>) -> ScanV
    decreases lines.len(),
{
    if lines.len() == 0 {
        st
    } else {
        spec_scan_line(spec_scan_lines(st, lines.drop_last()), lines.last())
    }
}

/// The messages a source text declares, in order.
pub open spec fn spec_parse_source(src: Seq<char>) -> Seq<MsgV> {
    spec_scan_lines(scan_init(), split_seq(src, '\n')).done
}

/// The sentinel zero-field message standing for the empty request
/// type.
pub open spec fn spec_unit_message() -> MsgV {
    MsgV { name: "()"@, doc: Seq::empty(), fields: Seq::empty(), count: 0 }
}

/// The index after adding each message in order, replacing by name.
pub open spec fn spec_add_all(s: Seq<MsgV>, ms: Seq<MsgV>) -> Seq<MsgV>
    decreases ms.len(),
{
    if ms.len() == 0 {
        s
    } else {
        spec_add_message(spec_add_all(s, ms.drop_last()), ms.last())
    }
}

/// Returns true when `p` is a prefix of `s`.
pub fn starts_with(s: &str, p: &str) -> (r: bool)
    ensures
        r == spec_starts_with(s@, p@),
{
    let n = s.unicode_len();
    let m = p.unicode_len();
    if m > n {
        return false;
    }
    let head = s.substring_char(0, m);
    proof {
        assert(head@ =~= s@.take(p@.len() as int));
    }
    crate::text::str_eq(head, p)
}

/// Returns true when `p` is a suffix of `s`.
pub fn ends_with(s: &str, p: &str) -> (r: bool)
    ensures
        r == spec_ends_with(s@, p@),
{
    let n = s.unicode_len();
    let m = p.unicode_len();
    if m > n {
        return false;
    }
    let tail = s.substring_char(n - m, n);
    proof {
        assert(tail@ =~= s@.skip(s@.len() - p@.len()));
    }
    crate::text::str_eq(tail, p)
}

/// Removes trailing spaces.
fn trim_right(s: &str) -> (r: String)
    ensures
        r@ == spec_trim_right(s@),
    decreases s@.len(),
{
    let n = s.unicode_len();
    if n > 0 && s.get_char(n - 1) == ' ' {
        let head = s.substring_char(0, n - 1);
        proof {
            assert(head@ =~= s@.drop_last());
        }
        trim_right(head)
    } else {
        String::from_str(s)
    }
}

/// Removes leading spaces.
fn trim_left(s: &str) -> (r: String)
    ensures
        r@ == spec_trim_left(s@),
    decreases s@.len(),
{
    let n = s.unicode_len();
    if n > 0 && s.get_char(0) == ' ' {
        let tail = s.substring_char(1, n);
        proof {
            assert(tail@ =~= s@.drop_first());
        }
        trim_left(tail)
    } else {
        String::from_str(s)
    }
}

/// The text of a documentation line after its marker.
fn doc_text(line: &str, marker: &str) -> (r: String)
    requires
        spec_starts_with(line@, marker@),
    ensures
        r@ == spec_doc_text(line@, marker@),
{
    let n = line.unicode_len();
    let m = marker.unicode_len();
    if n > m && line.get_char(m) == ' ' {
        proof {
            reveal_strlit(" ");
            assert(spec_starts_with(line@, marker@ + " "@)) by {
                assert(forall|j: int| 0 <= j < marker@.len() ==> line@[j] == marker@[j]) by {
                    assert(line@.take(marker@.len() as int) == marker@);
                    assert(forall|j: int|
                        0 <= j < marker@.len() ==> line@.take(marker@.len() as int)[j]
                            == line@[j]);
                };
                assert(line@.take(marker@.len() as int + 1) =~= marker@ + " "@);
            };
        }
        let rest = line.substring_char(m + 1, n);
        proof {
            assert(rest@ =~= line@.skip(marker@.len() as int + 1));
        }
        String::from_str(rest)
    } else {
        proof {
            reveal_strlit(" ");
            if spec_starts_with(line@, marker@ + " "@) {
                assert(line@.take(marker@.len() as int + 1)[marker@.len() as int] == (marker@
                    + " "@)[marker@.len() as int]);
                assert(false);
            }
        }
        let rest = line.substring_char(m, n);
        proof {
            assert(rest@ =~= line@.skip(marker@.len() as int));
        }
        String::from_str(rest)
    }
}


/// The struct being read is built one field per line: its field count
/// and field-list length agree and are bounded by the number of lines
/// read.
proof fn lemma_scan_wf(lines: Seq<Seq<char>>)
    ensures
        spec_scan_lines(scan_init(), lines).current matches Some(m) ==> m.count
            == m.fields.len() && m.count <= lines.len(),
    decreases lines.len(),
{
    if lines.len() > 0 {
        lemma_scan_wf(lines.drop_last());
    }
}

/// The exec scanner state.
struct Scanner {
    struct_doc: DocComments,
    field_doc: DocComments,
    current: Option<Message>,
    done: Vec<Message>,
}

impl Scanner {
    spec fn view(&self) -> ScanV {
        ScanV {
            struct_doc: self.struct_doc@,
            field_doc: self.field_doc@,
            current: match self.current {
                Some(ref m) => Some(m@),
                None => None,
            },
            done: crate::message::msgs_view(self.done@),
        }
    }
}

fn scan_line(st: &mut Scanner, line: &String)
    requires
        old(st)@.current matches Some(m) ==> m.count == m.fields.len() && m.count < usize::MAX,
    ensures
        final(st)@ == spec_scan_line(old(st)@, line@),
{
    let l = line.as_str();
    let n = l.unicode_len();
    let trimmed = trim_left(l);
    let t = trimmed.as_str();
    if st.current.is_some() && starts_with(t, "///") {
        st.field_doc.push_line(doc_text(t, "///"));
        return ;
    }
    if starts_with(t, "///") {
        st.struct_doc.push_line(doc_text(t, "///"));
        return ;
    }
    if starts_with(t, "#") {
        return ;
    }
    if starts_with(l, "pub struct ") && ends_with(l, "{}") {
        proof {
            reveal_strlit("pub struct ");
            reveal_strlit("{}");
            if n < 13 {
                assert(l@.skip(l@.len() - 2)[0] == '{');
                assert(l@.take(11)[l@.len() - 2] == l@[l@.len() - 2]);
                assert(false);
            }
        }
        let middle = l.substring_char(11, n - 2);
        proof {
            assert(middle@ =~= l@.subrange("pub struct "@.len() as int, l@.len() - 2));
        }
        let name = trim_right(middle);
        let doc = st.struct_doc.clone();
        st.struct_doc = DocComments::new();
        st.field_doc = DocComments::new();
        let m = Message::new(name, doc);
        st.done.push(m);
        proof {
            assert(st@.done =~= spec_scan_line(old(st)@, line@).done);
        }
        return ;
    }
    if starts_with(l, "pub struct ") && ends_with(l, "{") {
        proof {
            reveal_strlit("pub struct ");
            reveal_strlit("{");
            if n < 12 {
                assert(l@.skip(l@.len() - 1)[0] == '{');
                assert(l@.take(11)[l@.len() - 1] == l@[l@.len() - 1]);
                assert(false);
            }
        }
        let middle = l.substring_char(11, n - 1);
        proof {
            assert(middle@ =~= l@.subrange("pub struct "@.len() as int, l@.len() - 1));
        }
        let name = trim_right(middle);
        let doc = st.struct_doc.clone();
        st.struct_doc = DocComments::new();
        st.field_doc = DocComments::new();
        let m = Message::new(name, doc);
        st.current = Some(m);
        return ;
    }
    let ttrimmed = trim_right(t);
    let tt = ttrimmed.as_str();
    let tn = tt.unicode_len();
    if crate::text::str_eq(tt, "}") {
        st.struct_doc = DocComments::new();
        st.field_doc = DocComments::new();
        match st.current.take() {
            Some(m) => {
                st.done.push(m);
                proof {
                    assert(st@.done =~= spec_scan_line(old(st)@, line@).done);
                }
            },
            None => {},
        }
        return ;
    }
    if st.current.is_some() && starts_with(tt, "pub ") && ends_with(tt, ",") {
        proof {
            reveal_strlit("pub ");
            reveal_strlit(",");
            if tn < 5 {
                assert(tt@.skip(tt@.len() - 1)[0] == ',');
                assert(tt@.take(4)[tt@.len() - 1] == tt@[tt@.len() - 1]);
                assert(false);
            }
        }
        let body_str = tt.substring_char(4, tn - 1);
        proof {
            assert(body_str@ =~= tt@.subrange("pub "@.len() as int, tt@.len() - 1));
            assert(tt@.skip("pub "@.len() as int) =~= body_str@ + ","@);
        }
        match crate::text::find_char_in(body_str, ':') {
            Some(k) => {
                proof {
                    crate::text::lemma_find_char(body_str@, ':');
                    assert(crate::text::find_char(tt@.skip("pub "@.len() as int), ':')
                        == k as int) by {
                        let full = tt@.skip("pub "@.len() as int);
                        assert(full[k as int] == ':');
                        assert(forall|j: int| 0 <= j < k ==> full[j] != ':');
                        crate::text::lemma_find_char(full, ':');
                    };
                }
                let bn = body_str.unicode_len();
                let name_part = body_str.substring_char(0, k);
                proof {
                    assert(name_part@ =~= body_str@.take(k as int));
                }
                let after = body_str.substring_char(k + 1, bn);
                proof {
                    assert(after@ =~= body_str@.skip(k + 1));
                }
                let after_len = after.unicode_len();
                let ty_raw = if after_len > 0 && after.get_char(0) == ' ' {
                    let w = after.substring_char(1, after_len);
                    proof {
                        assert(w@ =~= spec_skip_one_space(body_str@.skip(k + 1)));
                    }
                    w
                } else {
                    proof {
                        assert(after@ == spec_skip_one_space(body_str@.skip(k + 1)));
                    }
                    after
                };
                let ty = trim_right(ty_raw);
                let fdoc = st.field_doc.clone();
                st.field_doc = DocComments::new();
                let f = Field::new(String::from_str(name_part), ty, fdoc);
                match st.current.take() {
                    Some(mut m) => {
                        m.add_field(f);
                        st.current = Some(m);
                    },
                    None => {},
                }
                proof {
                    let sp_tt = spec_trim_right(spec_trim_left(line@));
                    assert(sp_tt.subrange("pub "@.len() as int, sp_tt.len() - 1) =~= body_str@);
                    assert(st@.field_doc =~= Seq::<Seq<char>>::empty());
                    assert(st@ == spec_scan_line(old(st)@, line@));
                }
                return ;
            },
            None => {
                proof {
                    crate::text::lemma_find_char(body_str@, ':');
                    reveal_strlit(",");
                    let full = tt@.skip("pub "@.len() as int);
                    crate::text::lemma_find_char(full, ':');
                    if crate::text::find_char(full, ':') >= 0 {
                        let kk = crate::text::find_char(full, ':');
                        assert(full[kk] == ':');
                        if kk < body_str@.len() {
                            assert(body_str@[kk] == ':');
                        }
                        assert(false);
                    }
                }
                st.struct_doc = DocComments::new();
                st.field_doc = DocComments::new();
                return ;
            },
        }
    }
    st.struct_doc = DocComments::new();
    st.field_doc = DocComments::new();
}

impl ExistingMessages {
    /// Scans emitted source text and adds every declared struct as a
    /// message, then the sentinel zero-field message standing for the
    /// empty request type.
    ///
    /// The accepted shape is the line-formatted output of the
    /// upstream generator: a top-level declaration opens with
    /// `pub struct Name {` at column zero and closes with a brace on
    /// its own line, fields are `pub name: Type,` lines, and
    /// documentation and attributes may precede either, all under any
    /// indentation. Declarations in another layout are passed over,
    /// not reported: the buffer is build output, not arbitrary
    /// source.
    pub fn parse_source(&mut self, src: &str)
        ensures
            final(self)@ == spec_add_message(
                spec_add_all(old(self)@, spec_parse_source(src@)),
                spec_unit_message(),
            ),
    {
        let lines = split_on(src, '\n');
        let ghost lv = views_of(lines@);
        let mut scanner = Scanner {
            struct_doc: DocComments::new(),
            field_doc: DocComments::new(),
            current: None,
            done: Vec::new(),
        };
        proof {
            assert(lv.take(0) =~= Seq::<Seq<char>>::empty());
            assert(scanner@.struct_doc =~= Seq::<Seq<char>>::empty());
            assert(scanner@.field_doc =~= Seq::<Seq<char>>::empty());
            assert(scanner@.done =~= Seq::<MsgV>::empty());
            assert(scanner@ == scan_init());
        }
        let n = lines.len();
        let mut i: usize = 0;
        while i < n
            invariant
                n == lines.len(),
                lv == views_of(lines@),
                i <= n,
                scanner@ == spec_scan_lines(scan_init(), lv.take(i as int)),
            decreases n - i,
        {
            proof {
                lemma_scan_wf(lv.take(i as int));
            }
            scan_line(&mut scanner, &lines[i]);
            proof {
                assert(lv.take(i + 1).drop_last() =~= lv.take(i as int));
                assert(lv.take(i + 1).last() == lv[i as int]);
                assert(lv[i as int] == lines@[i as int]@);
            }
            i = i + 1;
        }
        proof {
            assert(lv.take(n as int) =~= lv);
        }
        let ghost msgs = spec_parse_source(src@);
        let m = scanner.done.len();
        let mut j: usize = 0;
        let mut done = scanner.done;
        proof {
            assert(crate::message::msgs_view(done@).take(0) =~= Seq::<MsgV>::empty());
            assert(self@ == spec_add_all(old(self)@, msgs.take(0)));
        }
        while j < m
            invariant
                m == done.len(),
                msgs == crate::message::msgs_view(done@),
                j <= m,
                self@ == spec_add_all(old(self)@, msgs.take(j as int)),
            decreases m - j,
        {
            let msg = done[j].clone();
            proof {
                assert(msg@ == msgs[j as int]);
            }
            self.add_message(msg);
            proof {
                assert(msgs.take(j + 1).drop_last() =~= msgs.take(j as int));
                assert(msgs.take(j + 1).last() == msgs[j as int]);
            }
            j = j + 1;
        }
        proof {
            assert(msgs.take(m as int) =~= msgs);
        }
        // The sentinel for the empty request type.
        let unit = Message::new(String::from_str("()"), DocComments::new());
        self.add_message(unit);
        proof {
            assert(unit@ == spec_unit_message());
        }
    }
}

} // verus!
