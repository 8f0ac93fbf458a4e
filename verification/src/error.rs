use crate::machine::{state_name, State};
use vstd::prelude::*;
use vstd::string::*;

verus! {

#[verifier::external_type_specification]
#[verifier::external_body]
pub struct ExIoError(std::io::Error);

/// All errors the library produces. Every variant maps to a defined failure
/// mode; no error is swallowed or turned into a string inside the library.
#[derive(Debug)]
pub enum AerError {
    /// The OS refused to spawn the process.
    SpawnFailed(std::io::Error),
    /// The OS returned an error while waiting for the process to exit.
    WaitFailed(std::io::Error),
    /// A state transition was attempted that the machine does not permit.
    InvalidStateTransition { from: State, to: State },
    /// The configured timeout fired and the process tree was killed.
    TimedOut,
    /// Killing the process tree failed.
    KillFailed(std::io::Error),
    /// The caller requested cancellation and the process tree was killed.
    Cancelled,
}

/// Whether `text` is what the `Display` of the OS error `e` produces.
pub open spec fn io_error_displays_as(e: &std::io::Error, text: Seq<char>) -> bool {
    exists|t: String| to_string_from_display_ensures::<std::io::Error>(e, t) && t@ == text
}

/// The message of an error, given the text of the OS error it carries (the
/// second argument is not read for variants without one).
pub open spec fn error_text(e: AerError, io_text: Seq<char>) -> Seq<char> {
    match e {
        AerError::SpawnFailed(_) => "process spawn failed: "@ + io_text,
        AerError::WaitFailed(_) => "process wait failed: "@ + io_text,
        AerError::InvalidStateTransition { from, to } => "invalid state transition: "@ + state_name(
            from,
        ) + " \u{2192} "@ + state_name(to),
        AerError::TimedOut => "process timed out"@,
        AerError::KillFailed(_) => "process tree kill failed: "@ + io_text,
        AerError::Cancelled => "process cancelled"@,
    }
}

/// The OS error an error carries, if any.
pub open spec fn carried_io_error(e: AerError) -> Option<std::io::Error> {
    match e {
        AerError::SpawnFailed(io) => Some(io),
        AerError::WaitFailed(io) => Some(io),
        AerError::KillFailed(io) => Some(io),
        _ => None,
    }
}

/// Formats the text of the OS error that `e` carries.
fn io_text(e: &std::io::Error) -> (s: String)
    ensures
        io_error_displays_as(e, s@),
{
    let s = e.to_string();
    s
}

impl AerError {
    /// The OS error this error carries, if any (spawn, wait and kill failures).
    pub fn source(&self) -> (r: Option<&std::io::Error>)
        ensures
            match r {
                Some(io) => carried_io_error(*self) == Some(*io),
                None => carried_io_error(*self) is None,
            },
    {
        match self {
            AerError::SpawnFailed(e) => Some(e),
            AerError::WaitFailed(e) => Some(e),
            AerError::KillFailed(e) => Some(e),
            _ => None,
        }
    }

    /// The human-readable message of the error (what a `Display` impl would
    /// print), e.g. `process spawn failed: <OS text>`.
    pub fn message(&self) -> (s: String)
        ensures
            carried_io_error(*self) is None ==> s@ == error_text(*self, Seq::empty()),
            carried_io_error(*self) matches Some(io) ==> exists|t: Seq<char>|
                io_error_displays_as(&io, t) && s@ == error_text(*self, t),
    {
        proof {
            reveal_strlit("process spawn failed: ");
            reveal_strlit("process wait failed: ");
            reveal_strlit("invalid state transition: ");
            reveal_strlit(" \u{2192} ");
            reveal_strlit("process timed out");
            reveal_strlit("process tree kill failed: ");
            reveal_strlit("process cancelled");
        }
        match self {
            AerError::SpawnFailed(e) => {
                let t = io_text(e);
                let s = String::from_str("process spawn failed: ").concat(t.as_str());
                assert(io_error_displays_as(e, t@) && s@ == error_text(*self, t@));
                s
            },
            AerError::WaitFailed(e) => {
                let t = io_text(e);
                let s = String::from_str("process wait failed: ").concat(t.as_str());
                assert(io_error_displays_as(e, t@) && s@ == error_text(*self, t@));
                s
            },
            AerError::InvalidStateTransition { from, to } => {
                let mut s = String::from_str("invalid state transition: ");
                s.append(from.name());
                s.append(" \u{2192} ");
                s.append(to.name());
                proof {
                    assert(s@ =~= error_text(*self, Seq::empty()));
                }
                s
            },
            AerError::TimedOut => String::from_str("process timed out"),
            AerError::KillFailed(e) => {
                let t = io_text(e);
                let s = String::from_str("process tree kill failed: ").concat(t.as_str());
                assert(io_error_displays_as(e, t@) && s@ == error_text(*self, t@));
                s
            },
            AerError::Cancelled => String::from_str("process cancelled"),
        }
    }
}

/// The message of an error that carries an OS error ends with that error's
/// text, unchanged; the messages of a spawn, a wait and a kill failure differ
/// even for the same OS text; and the message of a refused transition names
/// both states, so refusals of different moves read differently.
pub proof fn lemma_message_keeps_the_details(e: AerError, t: Seq<char>, f: AerError)
    ensures
        carried_io_error(e) is Some ==> error_text(e, t).subrange(
            error_text(e, t).len() - t.len(),
            error_text(e, t).len() as int,
        ) == t,
        carried_io_error(e) is Some && carried_io_error(f) is Some && error_text(e, t) == error_text(
            f,
            t,
        ) ==> (e is SpawnFailed <==> f is SpawnFailed) && (e is WaitFailed <==> f is WaitFailed) && (
        e is KillFailed <==> f is KillFailed),
        e matches AerError::InvalidStateTransition { from: a, to: b } ==> (f matches AerError::InvalidStateTransition {
            from: c,
            to: d,
        } ==> (error_text(e, t) == error_text(f, t) ==> a == c && b == d)),
{
    reveal_strlit("process spawn failed: ");
    reveal_strlit("process wait failed: ");
    reveal_strlit("process tree kill failed: ");
    reveal_strlit("invalid state transition: ");
    reveal_strlit(" \u{2192} ");
    reveal_strlit("Created");
    reveal_strlit("Running");
    reveal_strlit("Exited");
    let m = error_text(e, t);
    if carried_io_error(e) is Some {
        assert(m.subrange(m.len() - t.len(), m.len() as int) =~= t);
    }
    if carried_io_error(e) is Some && carried_io_error(f) is Some && m == error_text(f, t) {
        let n = error_text(f, t);
        assert(m[8] == n[8]);
        assert(m[9] == n[9]);
    }
    match (e, f) {
        (
            AerError::InvalidStateTransition { from: a, to: b },
            AerError::InvalidStateTransition { from: c, to: d },
        ) => {
            let n = error_text(f, t);
            if m == n {
                assert(m[26] == n[26]);
                assert(m[27] == n[27]);
                if a == c {
                    assert(m.len() == n.len());
                    let k: int = 26 + state_name(a).len() as int + 3;
                    assert(m[k] == n[k]);
                    assert(m[k + 1] == n[k + 1]);
                }
            }
        },
        _ => {},
    }
}

} // verus!
