use crate::decimal::{
    decimal, is_digit, lemma_decimal_is_digits, lemma_decimal_is_injective,
    lemma_digits_then_text_split_once, lemma_signed_decimal_is_injective, push_decimal,
    push_signed_decimal, signed_decimal,
};
use vstd::prelude::*;
use vstd::string::*;

verus! {

/// Why a process exited.
#[derive(Debug, Clone, Copy, PartialEq, Eq, Structural)]
pub enum ExitReason {
    /// The process ended on its own.
    NaturalExit,
    /// The configured timeout fired and the process tree was killed.
    TimedOut,
    /// The caller cancelled the run and the process tree was killed.
    CancelRequested,
}

/// Events emitted during a single task execution.
/// `Started` always precedes `Exited`; no other ordering is valid.
/// `StdoutChunk`/`StderrChunk` are emitted only when output capture is enabled
/// and always appear strictly between `Started` and `Exited`.
#[derive(Debug, Clone, PartialEq, Eq)]
pub enum Event {
    /// Emitted immediately after the OS confirms process spawn.
    Started { pid: u32 },
    /// Emitted after the process exits. `code` is -1 if the OS provides no exit
    /// code (e.g. signal-killed on Unix) and whenever the library killed it.
    Exited { code: i32, reason: ExitReason },
    /// A chunk of bytes from the process's stdout pipe. `seq` is increasing
    /// within the stdout stream only.
    StdoutChunk { seq: u64, bytes: Vec<u8> },
    /// A chunk of bytes from the process's stderr pipe. `seq` is increasing
    /// within the stderr stream only.
    StderrChunk { seq: u64, bytes: Vec<u8> },
}

/// Whether an event carries captured output.
pub open spec fn is_chunk(e: Event) -> bool {
    e is StdoutChunk || e is StderrChunk
}

/// The one-line description of an event, e.g. `Started(pid=42)` or
/// `StdoutChunk(seq=3, len=17)`.
pub open spec fn event_text(e: Event) -> Seq<char> {
    match e {
        Event::Started { pid } => "Started(pid="@ + decimal(pid as nat) + ")"@,
        Event::Exited { code, reason: _ } => "Exited(code="@ + signed_decimal(code as int) + ")"@,
        Event::StdoutChunk { seq, bytes } => "StdoutChunk(seq="@ + decimal(seq as nat) + ", len="@
            + decimal(bytes@.len()) + ")"@,
        Event::StderrChunk { seq, bytes } => "StderrChunk(seq="@ + decimal(seq as nat) + ", len="@
            + decimal(bytes@.len()) + ")"@,
    }
}

impl Event {
    /// The one-line description of the event (what a `Display` impl would print).
    pub fn describe(&self) -> (s: String)
        ensures
            s@ == event_text(*self),
    {
        let mut s = String::new();
        proof {
            reveal_strlit("Started(pid=");
            reveal_strlit("Exited(code=");
            reveal_strlit("StdoutChunk(seq=");
            reveal_strlit("StderrChunk(seq=");
            reveal_strlit(", len=");
            reveal_strlit(")");
        }
        match self {
            Event::Started { pid } => {
                s.append("Started(pid=");
                push_decimal(&mut s, *pid as u64);
            },
            Event::Exited { code, reason: _ } => {
                s.append("Exited(code=");
                push_signed_decimal(&mut s, *code as i64);
            },
            Event::StdoutChunk { seq, bytes } => {
                s.append("StdoutChunk(seq=");
                push_decimal(&mut s, *seq);
                s.append(", len=");
                push_decimal(&mut s, bytes.len() as u64);
            },
            Event::StderrChunk { seq, bytes } => {
                s.append("StderrChunk(seq=");
                push_decimal(&mut s, *seq);
                s.append(", len=");
                push_decimal(&mut s, bytes.len() as u64);
            },
        }
        s.append(")");
        proof {
            assert(s@ =~= event_text(*self));
        }
        s
    }
}

proof fn lemma_cancel_prefix(p: Seq<char>, a: Seq<char>, b: Seq<char>)
    requires
        p + a == p + b,
    ensures
        a == b,
{
    assert(a =~= (p + a).subrange(p.len() as int, (p + a).len() as int));
    assert(b =~= (p + b).subrange(p.len() as int, (p + b).len() as int));
}

proof fn lemma_cancel_suffix(a: Seq<char>, b: Seq<char>, q: Seq<char>)
    requires
        a + q == b + q,
    ensures
        a == b,
{
    assert(a =~= (a + q).subrange(0, a.len() as int));
    assert(b =~= (b + q).subrange(0, b.len() as int));
}

/// The numbers in `prefix + decimal(x) + ", len=" + decimal(y) + ")"` can be
/// read back: equal texts come from equal numbers.
proof fn lemma_two_numbers_read_back(prefix: Seq<char>, x1: nat, y1: nat, x2: nat, y2: nat)
    requires
        prefix + decimal(x1) + ", len="@ + decimal(y1) + ")"@ == prefix + decimal(x2) + ", len="@
            + decimal(y2) + ")"@,
    ensures
        x1 == x2,
        y1 == y2,
{
    reveal_strlit(", len=");
    reveal_strlit(")");
    let m = ", len="@;
    let c = ")"@;
    let r1 = m + decimal(y1) + c;
    let r2 = m + decimal(y2) + c;
    assert(prefix + decimal(x1) + m + decimal(y1) + c =~= prefix + (decimal(x1) + r1));
    assert(prefix + decimal(x2) + m + decimal(y2) + c =~= prefix + (decimal(x2) + r2));
    lemma_cancel_prefix(prefix, decimal(x1) + r1, decimal(x2) + r2);
    lemma_decimal_is_digits(x1);
    lemma_decimal_is_digits(x2);
    assert(r1[0] == ',');
    assert(r2[0] == ',');
    lemma_digits_then_text_split_once(decimal(x1), r1, decimal(x2), r2);
    lemma_decimal_is_injective(x1, x2);
    assert(r1 =~= m + (decimal(y1) + c));
    assert(r2 =~= m + (decimal(y2) + c));
    lemma_cancel_prefix(m, decimal(y1) + c, decimal(y2) + c);
    lemma_cancel_suffix(decimal(y1), decimal(y2), c);
    lemma_decimal_is_injective(y1, y2);
}

/// The description of an event tells the event's data: two events of the
/// same kind with the same description have the same pid, the same exit
/// code, or (for chunks) the same sequence number and the same number of
/// bytes; and a chunk's description shows its sequence number and then,
/// after `len=`, the number of bytes it carries.
pub proof fn lemma_description_tells_the_data(a: Event, b: Event)
    ensures
        a matches Event::Started { pid: p } ==> (b matches Event::Started { pid: q } ==> (event_text(a)
            == event_text(b) ==> p == q)),
        a matches Event::Exited { code: p, .. } ==> (b matches Event::Exited { code: q, .. } ==> (
        event_text(a) == event_text(b) ==> p == q)),
        a matches Event::StdoutChunk { seq: s, bytes: x } ==> (b matches Event::StdoutChunk {
            seq: t,
            bytes: y,
        } ==> (event_text(a) == event_text(b) ==> s == t && x@.len() == y@.len())),
        a matches Event::StderrChunk { seq: s, bytes: x } ==> (b matches Event::StderrChunk {
            seq: t,
            bytes: y,
        } ==> (event_text(a) == event_text(b) ==> s == t && x@.len() == y@.len())),
        a matches Event::StdoutChunk { seq, bytes } ==> event_text(a) == "StdoutChunk(seq="@
            + decimal(seq as nat) + ", len="@ + decimal(bytes@.len()) + ")"@,
        a matches Event::StderrChunk { seq, bytes } ==> event_text(a) == "StderrChunk(seq="@
            + decimal(seq as nat) + ", len="@ + decimal(bytes@.len()) + ")"@,
{
    if event_text(a) == event_text(b) {
        match (a, b) {
            (Event::Started { pid: p }, Event::Started { pid: q }) => {
                reveal_strlit(")");
                assert(event_text(a) =~= "Started(pid="@ + (decimal(p as nat) + ")"@));
                assert(event_text(b) =~= "Started(pid="@ + (decimal(q as nat) + ")"@));
                lemma_cancel_prefix("Started(pid="@, decimal(p as nat) + ")"@, decimal(q as nat) + ")"@);
                lemma_cancel_suffix(decimal(p as nat), decimal(q as nat), ")"@);
                lemma_decimal_is_injective(p as nat, q as nat);
            },
            (Event::Exited { code: p, .. }, Event::Exited { code: q, .. }) => {
                reveal_strlit(")");
                assert(event_text(a) =~= "Exited(code="@ + (signed_decimal(p as int) + ")"@));
                assert(event_text(b) =~= "Exited(code="@ + (signed_decimal(q as int) + ")"@));
                lemma_cancel_prefix(
                    "Exited(code="@,
                    signed_decimal(p as int) + ")"@,
                    signed_decimal(q as int) + ")"@,
                );
                lemma_cancel_suffix(signed_decimal(p as int), signed_decimal(q as int), ")"@);
                lemma_signed_decimal_is_injective(p as int, q as int);
            },
            (Event::StdoutChunk { seq: s, bytes: x }, Event::StdoutChunk { seq: t, bytes: y }) => {
                lemma_two_numbers_read_back("StdoutChunk(seq="@, s as nat, x@.len(), t as nat, y@.len());
            },
            (Event::StderrChunk { seq: s, bytes: x }, Event::StderrChunk { seq: t, bytes: y }) => {
                lemma_two_numbers_read_back("StderrChunk(seq="@, s as nat, x@.len(), t as nat, y@.len());
            },
            _ => {},
        }
    }
}

} // verus!
