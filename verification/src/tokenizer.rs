//! The delimited record reader.
//!
//! Decoded statement text is split into records of trimmed string fields: one
//! record per line, fields separated by commas, a field optionally enclosed
//! in double quotes (in which case it may contain commas, line breaks and
//! doubled quotes standing for a literal quote). Lines may carry different
//! field counts (ragged summary lines at the start or end of an export are
//! common) and completely empty lines are skipped; there is no header
//! handling. Structural corruption — an unterminated quoted field, or stray
//! text after a closing quote — fails the whole file, in contrast to rows
//! that merely fail to map into a transaction, which the mappers drop.
//!
//! The scanner is specified as a character-at-a-time state machine
//! (`tok_step`) folded over the text (`tok_run`), and the executable
//! tokenizer is proved to land exactly on that fold.
use vstd::prelude::*;

use crate::error::{Error, ErrorV};

verus! {

/// The scanner position between two characters.
pub enum Mode {
    /// At the start of a line, nothing of it seen yet.
    LineStart,
    /// Right after a field separator.
    FieldStart,
    /// Inside an unquoted field.
    Unquoted,
    /// Inside a quoted field.
    Quoted,
    /// Right after a quote while inside a quoted field: either the closing
    /// quote or the first half of a doubled literal quote.
    QuoteSeen,
    /// Right after a carriage return that ended a line.
    AfterCr,
    /// After stray text following a closing quote: structurally corrupt.
    Failed,
}

/// The mathematical state of the scanner: finished records, the fields of
/// the current record, the characters of the current field, and the mode.
#[verifier::ext_equal]
pub ghost struct TokV {
    pub records: Seq<Seq<Seq<char>>>,
    pub cur: Seq<Seq<char>>,
    pub field: Seq<char>,
    pub mode: Mode,
}

/// Field-internal whitespace that trimming removes.
pub open spec fn ws(c: char) -> bool {
    c == ' ' || c == '\t'
}

pub open spec fn trim_front(s: Seq<char>) -> Seq<char>
    decreases s.len(),
{
    if s.len() > 0 && ws(s.first()) {
        trim_front(s.drop_first())
    } else {
        s
    }
}

pub open spec fn trim_back(s: Seq<char>) -> Seq<char>
    decreases s.len(),
{
    if s.len() > 0 && ws(s.last()) {
        trim_back(s.drop_last())
    } else {
        s
    }
}

/// A field with its leading and trailing whitespace removed.
pub open spec fn trimmed(s: Seq<char>) -> Seq<char> {
    trim_back(trim_front(s))
}

pub open spec fn tok_init() -> TokV {
    TokV { records: Seq::empty(), cur: Seq::empty(), field: Seq::empty(), mode: Mode::LineStart }
}

/// Completes the current field: its trimmed text joins the current record.
pub open spec fn spec_push_field(st: TokV) -> TokV {
    TokV { cur: st.cur.push(trimmed(st.field)), field: Seq::empty(), ..st }
}

/// Completes the current record (the current field first).
pub open spec fn spec_end_record(st: TokV, mode: Mode) -> TokV {
    let st1 = spec_push_field(st);
    TokV { records: st1.records.push(st1.cur), cur: Seq::empty(), field: Seq::empty(), mode }
}

/// One character read at the start of a line (also how a character right
/// after a lone carriage return is read). The current field is empty here.
pub open spec fn line_start_step(st: TokV, c: char) -> TokV {
    if c == '\n' {
        // An empty line yields no record.
        TokV { mode: Mode::LineStart, ..st }
    } else if c == '\r' {
        TokV { mode: Mode::AfterCr, ..st }
    } else if c == ',' {
        TokV { mode: Mode::FieldStart, ..spec_push_field(st) }
    } else if c == '"' {
        TokV { mode: Mode::Quoted, ..st }
    } else {
        TokV { field: seq![c], mode: Mode::Unquoted, ..st }
    }
}

/// The scanner's transition on one character.
pub open spec fn tok_step(st: TokV, c: char) -> TokV {
    match st.mode {
        Mode::Failed => st,
        Mode::LineStart => line_start_step(st, c),
        Mode::AfterCr => if c == '\n' {
            TokV { mode: Mode::LineStart, ..st }
        } else {
            line_start_step(TokV { mode: Mode::LineStart, ..st }, c)
        },
        Mode::FieldStart | Mode::Unquoted => if c == '\n' {
            spec_end_record(st, Mode::LineStart)
        } else if c == '\r' {
            spec_end_record(st, Mode::AfterCr)
        } else if c == ',' {
            TokV { mode: Mode::FieldStart, ..spec_push_field(st) }
        } else if c == '"' && st.mode is FieldStart {
            TokV { mode: Mode::Quoted, ..st }
        } else {
            TokV { field: st.field.push(c), mode: Mode::Unquoted, ..st }
        },
        Mode::Quoted => if c == '"' {
            TokV { mode: Mode::QuoteSeen, ..st }
        } else {
            TokV { field: st.field.push(c), ..st }
        },
        Mode::QuoteSeen => if c == '"' {
            TokV { field: st.field.push('"'), mode: Mode::Quoted, ..st }
        } else if c == ',' {
            TokV { mode: Mode::FieldStart, ..spec_push_field(st) }
        } else if c == '\n' {
            spec_end_record(st, Mode::LineStart)
        } else if c == '\r' {
            spec_end_record(st, Mode::AfterCr)
        } else {
            TokV { mode: Mode::Failed, ..st }
        },
    }
}

/// The scanner folded over the text from position `i` on.
pub open spec fn tok_run(s: Seq<char>, i: int, st: TokV) -> TokV
    decreases s.len() - i,
{
    if i < 0 || i >= s.len() {
        st
    } else {
        tok_run(s, i + 1, tok_step(st, s[i]))
    }
}

/// What the scanner's final state yields at the end of the text: the records,
/// or the message of the structural error.
pub open spec fn tok_finalize(st: TokV) -> Result<Seq<Seq<Seq<char>>>, Seq<char>> {
    match st.mode {
        Mode::Failed => Err(MSG_AFTER_QUOTE@),
        Mode::Quoted => Err(MSG_UNTERMINATED@),
        Mode::LineStart | Mode::AfterCr => Ok(st.records),
        Mode::FieldStart | Mode::Unquoted | Mode::QuoteSeen => Ok(
            spec_end_record(st, Mode::LineStart).records,
        ),
    }
}

/// The records of a text, or the message of its structural error.
pub open spec fn tokenize_spec(s: Seq<char>) -> Result<Seq<Seq<Seq<char>>>, Seq<char>> {
    tok_finalize(tok_run(s, 0, tok_init()))
}

pub const MSG_UNTERMINATED: &'static str = "unterminated quoted field";

pub const MSG_AFTER_QUOTE: &'static str = "unexpected text after a closing quote";

/// The executable scanner state. Its view is the mathematical state.
struct Tok {
    records: Vec<Vec<Vec<char>>>,
    cur: Vec<Vec<char>>,
    field: Vec<char>,
    mode: Mode,
}

impl View for Tok {
    type V = TokV;

    closed spec fn view(&self) -> TokV {
        TokV {
            records: self.records.deep_view(),
            cur: self.cur.deep_view(),
            field: self.field@,
            mode: self.mode,
        }
    }
}

impl Tok {
    fn new() -> (r: Tok)
        ensures
            r@ == tok_init(),
    {
        let r = Tok {
            records: Vec::new(),
            cur: Vec::new(),
            field: Vec::new(),
            mode: Mode::LineStart,
        };
        proof {
            assert(r@ =~~= tok_init());
        }
        r
    }

    fn push_field(&mut self)
        ensures
            final(self)@ == spec_push_field(old(self)@),
    {
        let ghost pre = self@;
        let f = trim_vec(&self.field);
        self.field = Vec::new();
        self.cur.push(f);
        proof {
            assert(self@ =~~= spec_push_field(pre));
        }
    }

    fn end_record(&mut self, mode: Mode)
        ensures
            final(self)@ == spec_end_record(old(self)@, mode),
    {
        let ghost pre = self@;
        self.push_field();
        let mut done: Vec<Vec<char>> = Vec::new();
        core::mem::swap(&mut done, &mut self.cur);
        self.records.push(done);
        self.mode = mode;
        proof {
            assert(self@ =~~= spec_end_record(pre, mode));
        }
    }

    fn start_field(&mut self, c: char)
        ensures
            final(self)@ == (TokV { field: seq![c], mode: Mode::Unquoted, ..old(self)@ }),
    {
        let ghost pre = self@;
        self.field = Vec::new();
        self.field.push(c);
        self.mode = Mode::Unquoted;
        proof {
            assert(self@ =~~= (TokV { field: seq![c], mode: Mode::Unquoted, ..pre }));
        }
    }

    /// One character read at the start of a line.
    fn line_start(&mut self, c: char)
        requires
            old(self)@.mode is LineStart,
        ensures
            final(self)@ == line_start_step(old(self)@, c),
    {
        if c == '\n' {
            // An empty line yields no record.
        } else if c == '\r' {
            self.mode = Mode::AfterCr;
        } else if c == ',' {
            self.push_field();
            self.mode = Mode::FieldStart;
        } else if c == '"' {
            self.mode = Mode::Quoted;
        } else {
            self.start_field(c);
        }
    }

    /// The scanner's transition on one character.
    fn step(&mut self, c: char)
        ensures
            final(self)@ == tok_step(old(self)@, c),
    {
        let ghost pre = self@;
        match self.mode {
            Mode::Failed => {},
            Mode::LineStart => {
                self.line_start(c);
            },
            Mode::AfterCr => {
                self.mode = Mode::LineStart;
                proof {
                    assert(self@ =~~= (TokV { mode: Mode::LineStart, ..pre }));
                }
                if c == '\n' {
                } else {
                    self.line_start(c);
                }
            },
            Mode::FieldStart | Mode::Unquoted => {
                if c == '\n' {
                    self.end_record(Mode::LineStart);
                } else if c == '\r' {
                    self.end_record(Mode::AfterCr);
                } else if c == ',' {
                    self.push_field();
                    self.mode = Mode::FieldStart;
                } else if c == '"' && matches!(self.mode, Mode::FieldStart) {
                    self.mode = Mode::Quoted;
                    proof {
                        assert(self@ =~~= (TokV { mode: Mode::Quoted, ..pre }));
                    }
                } else {
                    self.field.push(c);
                    self.mode = Mode::Unquoted;
                    proof {
                        assert(self@ =~~= (TokV {
                            field: pre.field.push(c),
                            mode: Mode::Unquoted,
                            ..pre
                        }));
                    }
                }
            },
            Mode::Quoted => {
                if c == '"' {
                    self.mode = Mode::QuoteSeen;
                    proof {
                        assert(self@ =~~= (TokV { mode: Mode::QuoteSeen, ..pre }));
                    }
                } else {
                    self.field.push(c);
                    proof {
                        assert(self@ =~~= (TokV { field: pre.field.push(c), ..pre }));
                    }
                }
            },
            Mode::QuoteSeen => {
                if c == '"' {
                    self.field.push('"');
                    self.mode = Mode::Quoted;
                    proof {
                        assert(self@ =~~= (TokV {
                            field: pre.field.push('"'),
                            mode: Mode::Quoted,
                            ..pre
                        }));
                    }
                } else if c == ',' {
                    self.push_field();
                    self.mode = Mode::FieldStart;
                } else if c == '\n' {
                    self.end_record(Mode::LineStart);
                } else if c == '\r' {
                    self.end_record(Mode::AfterCr);
                } else {
                    self.mode = Mode::Failed;
                    proof {
                        assert(self@ =~~= (TokV { mode: Mode::Failed, ..pre }));
                    }
                }
            },
        }
    }
}

/// A copy of a field with its leading and trailing whitespace removed.
#[verifier::loop_isolation(false)]
fn trim_vec(v: &Vec<char>) -> (r: Vec<char>)
    ensures
        r@ == trimmed(v@),
{
    let n = v.len();
    let mut a: usize = 0;
    while a < n && (v[a] == ' ' || v[a] == '\t')
        invariant
            a <= n,
            forall|j: int| 0 <= j < a ==> ws(v@[j]),
        decreases n - a,
    {
        a += 1;
    }
    proof {
        lemma_trim_front_is_skip(v@, a as int);
    }
    if a == n {
        let r: Vec<char> = Vec::new();
        proof {
            assert(v@.skip(a as int) =~= Seq::<char>::empty());
            assert(r@ =~= trimmed(v@));
        }
        return r;
    }
    let mut b: usize = n;
    while b > a && (v[b - 1] == ' ' || v[b - 1] == '\t')
        invariant
            a <= b <= n,
            forall|j: int| b <= j < n ==> ws(v@[j]),
        decreases b,
    {
        b -= 1;
    }
    proof {
        let t = v@.skip(a as int);
        assert(forall|j: int| b - a <= j < t.len() ==> ws(#[trigger] t[j]));
        if b > a {
            assert(!ws(t[b - a - 1]));
        }
        lemma_trim_back_is_take(t, b - a);
    }
    let mut r: Vec<char> = Vec::new();
    let mut i: usize = a;
    while i < b
        invariant
            a <= i <= b,
            r@ =~= v@.subrange(a as int, i as int),
        decreases b - i,
    {
        r.push(v[i]);
        i += 1;
    }
    proof {
        assert(r@ =~= v@.skip(a as int).take(b - a));
    }
    r
}

proof fn lemma_trim_front_is_skip(s: Seq<char>, a: int)
    requires
        0 <= a <= s.len(),
        forall|j: int| 0 <= j < a ==> ws(s[j]),
        a < s.len() ==> !ws(s[a]),
    ensures
        trim_front(s) =~= s.skip(a),
    decreases a,
{
    if a == 0 {
        assert(s.skip(0) =~= s);
    } else {
        assert(ws(s.first()));
        lemma_trim_front_is_skip(s.drop_first(), a - 1);
        assert(s.drop_first().skip(a - 1) =~= s.skip(a));
    }
}

proof fn lemma_trim_back_is_take(s: Seq<char>, b: int)
    requires
        0 <= b <= s.len(),
        forall|j: int| b <= j < s.len() ==> ws(s[j]),
        b > 0 ==> !ws(s[b - 1]),
    ensures
        trim_back(s) =~= s.take(b),
    decreases s.len(),
{
    if b == s.len() {
        if s.len() > 0 {
            assert(!ws(s.last()));
        }
        assert(s.take(b) =~= s);
    } else {
        assert(ws(s.last()));
        lemma_trim_back_is_take(s.drop_last(), b);
        assert(s.drop_last().take(b) =~= s.take(b));
    }
}

/// Splits decoded text into records of trimmed fields, or reports the text's
/// structural corruption; exactly `tokenize_spec`.
#[verifier::loop_isolation(false)]
pub fn tokenize(text: &Vec<char>) -> (r: Result<Vec<Vec<Vec<char>>>, Error>)
    ensures
        match tokenize_spec(text@) {
            Ok(recs) => r matches Ok(v) && v.deep_view() == recs,
            Err(m) => r matches Err(e) && e@ == ErrorV::CsvError(m),
        },
{
    let n = text.len();
    let mut tok = Tok::new();
    let mut i: usize = 0;
    while i < n
        invariant
            i <= n,
            tok_run(text@, 0, tok_init()) == tok_run(text@, i as int, tok@),
        decreases n - i,
    {
        let c = text[i];
        tok.step(c);
        i += 1;
    }
    match tok.mode {
        Mode::Failed => Err(Error::CsvError(str_to_string(MSG_AFTER_QUOTE))),
        Mode::Quoted => Err(Error::CsvError(str_to_string(MSG_UNTERMINATED))),
        Mode::LineStart | Mode::AfterCr => Ok(tok.records),
        Mode::FieldStart | Mode::Unquoted | Mode::QuoteSeen => {
            tok.end_record(Mode::LineStart);
            Ok(tok.records)
        },
    }
}

/// An owned copy of a string slice (`str::to_owned`).
fn str_to_string(s: &str) -> (r: String)
    ensures
        r@ == s@,
{
    s.to_owned()
}

} // verus!
