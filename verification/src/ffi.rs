use crate::error::AerError;
use crate::event::{Event, ExitReason};
use crate::task::{texts, Task, TaskView};
use core::time::Duration;
use vstd::prelude::*;
use vstd::string::*;

verus! {

/// Error codes of the C interface. Their numeric values (`value`) are the
/// stable ABI.
#[derive(Debug, Clone, Copy, PartialEq, Eq, Structural)]
pub enum AerErrorCode {
    /// The call succeeded.
    Success,
    NullPointer,
    SpawnFailed,
    WaitFailed,
    InvalidStateTransition,
    TimedOut,
    KillFailed,
    /// The handle was already run (or a builder was called after the run).
    AlreadyRun,
    /// An unexpected panic was caught at the interface boundary.
    Panic,
    /// The run was cancelled through a cancel handle.
    Cancelled,
}

/// The stable numeric value of an error code.
pub open spec fn error_code_value(c: AerErrorCode) -> u32 {
    match c {
        AerErrorCode::Success => 0,
        AerErrorCode::NullPointer => 1,
        AerErrorCode::SpawnFailed => 2,
        AerErrorCode::WaitFailed => 3,
        AerErrorCode::InvalidStateTransition => 4,
        AerErrorCode::TimedOut => 5,
        AerErrorCode::KillFailed => 6,
        AerErrorCode::AlreadyRun => 7,
        AerErrorCode::Panic => 8,
        AerErrorCode::Cancelled => 9,
    }
}

impl AerErrorCode {
    /// The stable numeric value of the code.
    pub fn value(&self) -> (v: u32)
        ensures
            v == error_code_value(*self),
    {
        match self {
            AerErrorCode::Success => 0,
            AerErrorCode::NullPointer => 1,
            AerErrorCode::SpawnFailed => 2,
            AerErrorCode::WaitFailed => 3,
            AerErrorCode::InvalidStateTransition => 4,
            AerErrorCode::TimedOut => 5,
            AerErrorCode::KillFailed => 6,
            AerErrorCode::AlreadyRun => 7,
            AerErrorCode::Panic => 8,
            AerErrorCode::Cancelled => 9,
        }
    }
}

/// The code of the C interface for each error of the library.
pub open spec fn error_code_of(e: AerError) -> AerErrorCode {
    match e {
        AerError::SpawnFailed(_) => AerErrorCode::SpawnFailed,
        AerError::WaitFailed(_) => AerErrorCode::WaitFailed,
        AerError::InvalidStateTransition { .. } => AerErrorCode::InvalidStateTransition,
        AerError::TimedOut => AerErrorCode::TimedOut,
        AerError::KillFailed(_) => AerErrorCode::KillFailed,
        AerError::Cancelled => AerErrorCode::Cancelled,
    }
}

/// Maps an error of the library to its code of the C interface.
pub fn map_aer_error(e: AerError) -> (c: AerErrorCode)
    ensures
        c == error_code_of(e),
{
    match e {
        AerError::SpawnFailed(_) => AerErrorCode::SpawnFailed,
        AerError::WaitFailed(_) => AerErrorCode::WaitFailed,
        AerError::InvalidStateTransition { .. } => AerErrorCode::InvalidStateTransition,
        AerError::TimedOut => AerErrorCode::TimedOut,
        AerError::KillFailed(_) => AerErrorCode::KillFailed,
        AerError::Cancelled => AerErrorCode::Cancelled,
    }
}

/// The code a run reports: `Success` when the run succeeded, the error's code otherwise.
pub open spec fn run_code_of(r: Result<(), AerError>) -> AerErrorCode {
    match r {
        Ok(()) => AerErrorCode::Success,
        Err(e) => error_code_of(e),
    }
}

/// Maps the result of a run to the code the C interface returns.
pub fn run_result_code(r: Result<(), AerError>) -> (c: AerErrorCode)
    ensures
        c == run_code_of(r),
        r is Ok ==> c == AerErrorCode::Success,
        r matches Err(e) ==> c == error_code_of(e),
        r matches Err(AerError::Cancelled) ==> c == AerErrorCode::Cancelled,
        r matches Err(AerError::TimedOut) ==> c == AerErrorCode::TimedOut,
{
    match r {
        Ok(()) => AerErrorCode::Success,
        Err(e) => map_aer_error(e),
    }
}

/// The stable numeric value of an exit reason.
pub open spec fn exit_reason_value(r: ExitReason) -> u32 {
    match r {
        ExitReason::NaturalExit => 0,
        ExitReason::TimedOut => 1,
        ExitReason::CancelRequested => 2,
    }
}

/// The numeric value of an exit reason in the C interface.
pub fn exit_reason_code(r: ExitReason) -> (v: u32)
    ensures
        v == exit_reason_value(r),
{
    match r {
        ExitReason::NaturalExit => 0,
        ExitReason::TimedOut => 1,
        ExitReason::CancelRequested => 2,
    }
}

/// The plain fields of an event as the C interface delivers it. `kind`
/// selects which fields are valid: 0 = Started (`pid`), 1 = Exited (`code`,
/// `reason`), 2 = StdoutChunk and 3 = StderrChunk (`seq`, `data_len`). The
/// bytes of a chunk are handed over beside these fields, only for the
/// duration of the callback.
#[derive(Debug, Clone, Copy, PartialEq, Eq, Structural)]
pub struct AerEvent {
    pub kind: u32,
    pub pid: u32,
    pub code: i32,
    pub reason: u32,
    pub seq: u64,
    pub data_len: usize,
}

/// The fields the C interface delivers for an event.
pub open spec fn aer_event_of(e: Event) -> AerEvent {
    match e {
        Event::Started { pid } => AerEvent { kind: 0, pid, code: 0, reason: 0, seq: 0, data_len: 0 },
        Event::Exited { code, reason } => AerEvent {
            kind: 1,
            pid: 0,
            code,
            reason: exit_reason_value(reason),
            seq: 0,
            data_len: 0,
        },
        Event::StdoutChunk { seq, bytes } => AerEvent {
            kind: 2,
            pid: 0,
            code: 0,
            reason: 0,
            seq,
            data_len: bytes.len(),
        },
        Event::StderrChunk { seq, bytes } => AerEvent {
            kind: 3,
            pid: 0,
            code: 0,
            reason: 0,
            seq,
            data_len: bytes.len(),
        },
    }
}

impl AerEvent {
    /// The fields the C interface delivers for `e`.
    pub fn from_event(e: &Event) -> (c: AerEvent)
        ensures
            c == aer_event_of(*e),
            e matches Event::Exited { code, reason } ==> c.kind == 1 && c.code == code && c.pid == 0,
            e matches Event::Started { pid } ==> c.kind == 0 && c.pid == pid && c.code == 0,
            e matches Event::StdoutChunk { seq, bytes } ==> c.kind == 2 && c.seq == seq && c.data_len
                == bytes.len(),
            e matches Event::StderrChunk { seq, bytes } ==> c.kind == 3 && c.seq == seq && c.data_len
                == bytes.len(),
    {
        proof {
            lemma_aer_event_carries_the_event(*e);
        }
        match e {
            Event::Started { pid } => AerEvent {
                kind: 0,
                pid: *pid,
                code: 0,
                reason: 0,
                seq: 0,
                data_len: 0,
            },
            Event::Exited { code, reason } => AerEvent {
                kind: 1,
                pid: 0,
                code: *code,
                reason: exit_reason_code(*reason),
                seq: 0,
                data_len: 0,
            },
            Event::StdoutChunk { seq, bytes } => AerEvent {
                kind: 2,
                pid: 0,
                code: 0,
                reason: 0,
                seq: *seq,
                data_len: bytes.len(),
            },
            Event::StderrChunk { seq, bytes } => AerEvent {
                kind: 3,
                pid: 0,
                code: 0,
                reason: 0,
                seq: *seq,
                data_len: bytes.len(),
            },
        }
    }
}

/// The message recorded for a caught panic whose payload text is `payload`
/// (`None` when the payload is not text).
pub open spec fn panic_text(payload: Option<Seq<char>>) -> Seq<char> {
    match payload {
        Some(s) => "panic: "@ + s,
        None => "panic: unknown panic payload"@,
    }
}

/// The message recorded for a caught panic: `panic: ` and the payload's text,
/// or `panic: unknown panic payload` when the payload is not text.
pub fn format_panic(payload: Option<String>) -> (s: String)
    ensures
        s@ == panic_text(
            match payload {
                Some(p) => Some(p@),
                None => None,
            },
        ),
{
    proof {
        reveal_strlit("panic: ");
        reveal_strlit("panic: unknown panic payload");
    }
    match payload {
        Some(p) => String::from_str("panic: ").concat(p.as_str()),
        None => String::from_str("panic: unknown panic payload"),
    }
}

/// The message kept as the last error, which the C interface hands out as a
/// NUL-terminated string: the message itself, or nothing when it holds a NUL
/// character and so cannot be one.
pub fn c_message(msg: String) -> (r: Option<String>)
    ensures
        msg@.contains('\0') ==> r is None,
        !msg@.contains('\0') ==> r == Some(msg),
{
    let mut has_nul = false;
    let ghost text = msg@;
    for ch in it: msg.as_str().chars()
        invariant
            it.seq() == text,
            has_nul <==> exists|j: int| 0 <= j < it.index() && it.seq()[j] == '\0',
    {
        if ch == '\0' {
            has_nul = true;
        }
    }
    if has_nul {
        None
    } else {
        Some(msg)
    }
}

/// What a handle of the C interface is: the task it holds, if any, and
/// whether it was run.
pub struct AerTaskView {
    pub task: Option<TaskView>,
    pub has_run: bool,
}

/// The handle the C interface hands out for a task. A handle runs at most
/// once; every call after the run is refused with `AlreadyRun`.
pub struct AerTask {
    inner: Option<Task>,
    has_run: bool,
}

impl View for AerTask {
    type V = AerTaskView;

    closed spec fn view(&self) -> AerTaskView {
        AerTaskView {
            task: match self.inner {
                Some(t) => Some(t@),
                None => None,
            },
            has_run: self.has_run,
        }
    }
}

/// Whether every argument could be read.
pub open spec fn all_present(args: Seq<Option<String>>) -> bool {
    forall|i: int| 0 <= i < args.len() ==> #[trigger] args[i] is Some
}

/// The texts of arguments that could all be read.
pub open spec fn present_texts(args: Seq<Option<String>>) -> Seq<Seq<char>> {
    args.map_values(|a: Option<String>| a->0@)
}

/// What a builder call does to a handle: refused with `AlreadyRun` once the
/// handle was run or holds no task, otherwise `f` is applied to its task.
pub open spec fn configure_step(v: AerTaskView, f: spec_fn(TaskView) -> TaskView) -> (
    AerTaskView,
    AerErrorCode,
) {
    if v.has_run {
        (v, AerErrorCode::AlreadyRun)
    } else {
        match v.task {
            Some(t) => (AerTaskView { task: Some(f(t)), ..v }, AerErrorCode::Success),
            None => (v, AerErrorCode::AlreadyRun),
        }
    }
}

/// What starting a run does to a handle: refused with `AlreadyRun` once the
/// handle was run; otherwise the handle is marked as run (keeping its task),
/// and the run goes ahead with that task, or is refused with `AlreadyRun`
/// when the handle holds none.
pub open spec fn run_step(v: AerTaskView) -> (AerTaskView, Result<TaskView, AerErrorCode>) {
    if v.has_run {
        (v, Err(AerErrorCode::AlreadyRun))
    } else {
        (
            AerTaskView { has_run: true, ..v },
            match v.task {
                Some(t) => Ok(t),
                None => Err(AerErrorCode::AlreadyRun),
            },
        )
    }
}

impl AerTask {
    /// A handle for the task `program` with `args`, where `None` stands for a
    /// string that could not be read (a null pointer or text that is not
    /// UTF-8). The handle exists only when the program and every argument could
    /// be read.
    pub fn new(program: Option<String>, args: Vec<Option<String>>) -> (r: Option<AerTask>)
        ensures
            r is Some <==> (program is Some && all_present(args@)),
            r matches Some(h) ==> h@.task matches Some(t) && t.args.len() == args@.len() && (forall|
                i: int,
            |
                0 <= i < args@.len() ==> t.args[i] == (#[trigger] args@[i])->0@) && t.program
                == program->0@,
            r matches Some(h) ==> h@ == (AerTaskView {
                task: Some(
                    TaskView {
                        program: program->0@,
                        args: present_texts(args@),
                        timeout: None,
                        capture_output: false,
                    },
                ),
                has_run: false,
            }),
    {
        let program = match program {
            Some(p) => p,
            None => return None,
        };
        let mut arg_strings: Vec<String> = Vec::new();
        let ghost given = args@;
        for a in it: args.into_iter()
            invariant
                it.seq() == given,
                forall|j: int| 0 <= j < it.index() ==> #[trigger] given[j] is Some,
                texts(arg_strings@) == present_texts(given.take(it.index() as int)),
        {
            let ghost before = arg_strings@;
            let ghost i = it.index() as int;
            match a {
                Some(s) => {
                    arg_strings.push(s);
                    proof {
                        let next = given.take(i + 1);
                        assert(next =~= given.take(i).push(a));
                        assert(arg_strings@ =~= before.push(s));
                        assert(texts(arg_strings@) =~= texts(before).push(s@));
                        assert(present_texts(next) =~= present_texts(given.take(i)).push(s@));
                    }
                },
                None => {
                    proof {
                        assert(!all_present(given));
                    }
                    return None;
                },
            }
        }
        proof {
            assert(given.take(given.len() as int) =~= given);
            lemma_every_argument_is_kept(given);
        }
        let task = Task::new(program, arg_strings);
        Some(AerTask { inner: Some(task), has_run: false })
    }

    /// Sets the task's timeout; refused once the handle was run.
    pub fn with_timeout(&mut self, timeout: Duration) -> (c: AerErrorCode)
        ensures
            (final(self)@, c) == configure_step(
                old(self)@,
                |t: TaskView| TaskView { timeout: Some(timeout), ..t },
            ),
    {
        if self.has_run {
            return AerErrorCode::AlreadyRun;
        }
        match self.inner.take() {
            Some(inner) => {
                self.inner = Some(inner.with_timeout(timeout));
                AerErrorCode::Success
            },
            None => AerErrorCode::AlreadyRun,
        }
    }

    /// Enables or disables output capture; refused once the handle was run.
    pub fn with_capture_output(&mut self, capture: bool) -> (c: AerErrorCode)
        ensures
            (final(self)@, c) == configure_step(
                old(self)@,
                |t: TaskView| TaskView { capture_output: capture, ..t },
            ),
    {
        if self.has_run {
            return AerErrorCode::AlreadyRun;
        }
        match self.inner.take() {
            Some(inner) => {
                self.inner = Some(inner.with_capture_output(capture));
                AerErrorCode::Success
            },
            None => AerErrorCode::AlreadyRun,
        }
    }

    /// Starts the one run of the handle: marks it as run, keeping its task,
    /// and answers `Ok` when the run goes ahead with the task that `task`
    /// hands out, or `AlreadyRun` when the handle was run before.
    pub fn begin_run(&mut self) -> (r: Result<(), AerErrorCode>)
        ensures
            final(self)@ == run_step(old(self)@).0,
            final(self)@.task == old(self)@.task,
            final(self)@.has_run,
            run_step(old(self)@).1 == match r {
                Ok(()) => Ok::<TaskView, AerErrorCode>(old(self)@.task->0),
                Err(c) => Err(c),
            },
    {
        if self.has_run {
            return Err(AerErrorCode::AlreadyRun);
        }
        self.has_run = true;
        match &self.inner {
            Some(_) => Ok(()),
            None => Err(AerErrorCode::AlreadyRun),
        }
    }

    /// The task the handle holds.
    pub fn task(&self) -> (t: Option<&Task>)
        ensures
            match t {
                Some(task) => self@.task == Some(task@),
                None => self@.task is None,
            },
    {
        match &self.inner {
            Some(task) => Some(task),
            None => None,
        }
    }
}

/// A handle runs at most once: once a run was started, starting another is
/// refused with `AlreadyRun`, and so is every builder call, and none of them
/// changes the handle; starting the run keeps the task in the handle.
pub proof fn lemma_handle_runs_at_most_once(
    v: AerTaskView,
    f: spec_fn(TaskView) -> TaskView,
)
    ensures
        ({
            let after = run_step(v).0;
            &&& after.has_run
            &&& after.task == v.task
            &&& run_step(after) == (after, Err::<TaskView, AerErrorCode>(AerErrorCode::AlreadyRun))
            &&& configure_step(after, f) == (after, AerErrorCode::AlreadyRun)
        }),
{
}

/// The first run of a handle made with a task hands out exactly the task as
/// the builders left it.
pub proof fn lemma_first_run_hands_out_configured_task(
    t: TaskView,
    f: spec_fn(TaskView) -> TaskView,
)
    ensures
        ({
            let fresh = AerTaskView { task: Some(t), has_run: false };
            let configured = configure_step(fresh, f);
            &&& configured.1 == AerErrorCode::Success
            &&& run_step(configured.0).1 == Ok::<TaskView, AerErrorCode>(f(t))
        }),
{
}

/// The stable values of the error codes are distinct, and an error of the
/// library never maps to a code that only the interface itself produces
/// (`Success`, `NullPointer`, `AlreadyRun`, `Panic`); a run reports `Success`
/// exactly when it succeeded.
pub proof fn lemma_error_codes_are_distinct(a: AerErrorCode, b: AerErrorCode, e: AerError, r: Result<(), AerError>)
    ensures
        error_code_value(a) == error_code_value(b) ==> a == b,
        error_code_of(e) != AerErrorCode::Success,
        error_code_of(e) != AerErrorCode::NullPointer,
        error_code_of(e) != AerErrorCode::AlreadyRun,
        error_code_of(e) != AerErrorCode::Panic,
        run_code_of(r) == AerErrorCode::Success <==> r is Ok,
{
}

/// The `kind` of an event in the C interface tells its variant.
pub proof fn lemma_aer_event_kind_tells_variant(e: Event)
    ensures
        aer_event_of(e).kind == 0 <==> e is Started,
        aer_event_of(e).kind == 1 <==> e is Exited,
        aer_event_of(e).kind == 2 <==> e is StdoutChunk,
        aer_event_of(e).kind == 3 <==> e is StderrChunk,
        aer_event_of(e).kind <= 3,
{
}

/// The C event of an event carries that event's own data: a `Started` its
/// pid, an `Exited` its exit code and the number of its reason (0 natural,
/// 1 timed out, 2 cancelled), a chunk its sequence number and the number of
/// its bytes; every other field is zero, and the kind is 0, 1, 2 or 3 for
/// `Started`, `Exited`, `StdoutChunk`, `StderrChunk`.
pub proof fn lemma_aer_event_carries_the_event(e: Event)
    ensures
        e matches Event::Started { pid } ==> aer_event_of(e) == (AerEvent {
            kind: 0,
            pid,
            code: 0,
            reason: 0,
            seq: 0,
            data_len: 0,
        }),
        e matches Event::Exited { code, reason } ==> {
            let c = aer_event_of(e);
            &&& c.kind == 1 && c.pid == 0 && c.code == code && c.seq == 0 && c.data_len == 0
            &&& reason == ExitReason::NaturalExit ==> c.reason == 0
            &&& reason == ExitReason::TimedOut ==> c.reason == 1
            &&& reason == ExitReason::CancelRequested ==> c.reason == 2
        },
        e matches Event::StdoutChunk { seq, bytes } ==> {
            let c = aer_event_of(e);
            &&& c.kind == 2 && c.pid == 0 && c.code == 0 && c.reason == 0
            &&& c.seq == seq && c.data_len == bytes.len()
        },
        e matches Event::StderrChunk { seq, bytes } ==> {
            let c = aer_event_of(e);
            &&& c.kind == 3 && c.pid == 0 && c.code == 0 && c.reason == 0
            &&& c.seq == seq && c.data_len == bytes.len()
        },
{
}

/// A run reports through the C interface exactly what happened: `Success`
/// when it succeeded, and otherwise the code named after its error (spawn,
/// wait and kill failures, refused transitions, timeouts and cancellations
/// each get their own code), with the stable values 0 to 9 in declaration
/// order.
pub proof fn lemma_run_reports_its_own_error(e: AerError)
    ensures
        run_code_of(Ok(())) == AerErrorCode::Success,
        run_code_of(Err(e)) == error_code_of(e),
        e is SpawnFailed ==> error_code_of(e) == AerErrorCode::SpawnFailed,
        e is WaitFailed ==> error_code_of(e) == AerErrorCode::WaitFailed,
        e is InvalidStateTransition ==> error_code_of(e) == AerErrorCode::InvalidStateTransition,
        e is TimedOut ==> error_code_of(e) == AerErrorCode::TimedOut,
        e is KillFailed ==> error_code_of(e) == AerErrorCode::KillFailed,
        e is Cancelled ==> error_code_of(e) == AerErrorCode::Cancelled,
        error_code_value(AerErrorCode::Success) == 0,
        error_code_value(AerErrorCode::NullPointer) == 1,
        error_code_value(AerErrorCode::SpawnFailed) == 2,
        error_code_value(AerErrorCode::WaitFailed) == 3,
        error_code_value(AerErrorCode::InvalidStateTransition) == 4,
        error_code_value(AerErrorCode::TimedOut) == 5,
        error_code_value(AerErrorCode::KillFailed) == 6,
        error_code_value(AerErrorCode::AlreadyRun) == 7,
        error_code_value(AerErrorCode::Panic) == 8,
        error_code_value(AerErrorCode::Cancelled) == 9,
{
}

/// A handle's task holds every argument it was given, in order and
/// unchanged: nothing is dropped, added or reordered.
pub proof fn lemma_every_argument_is_kept(args: Seq<Option<String>>)
    ensures
        present_texts(args).len() == args.len(),
        forall|i: int| 0 <= i < args.len() ==> present_texts(args)[i] == (#[trigger] args[i])->0@,
{
}

/// A caught panic's message is `panic: ` followed by the payload's text,
/// unchanged, so distinct payloads give distinct messages; a payload that is
/// not text gives `panic: unknown panic payload`.
pub proof fn lemma_panic_message_keeps_the_payload(p: Seq<char>, q: Seq<char>)
    ensures
        panic_text(Some(p)).len() == p.len() + 7,
        panic_text(Some(p)).subrange(0, 7) == "panic: "@,
        panic_text(Some(p)).subrange(7, panic_text(Some(p)).len() as int) == p,
        panic_text(Some(p)) == panic_text(Some(q)) ==> p == q,
        panic_text(None) == "panic: unknown panic payload"@,
{
    reveal_strlit("panic: ");
    let t = panic_text(Some(p));
    assert(t.subrange(0, 7) =~= "panic: "@);
    assert(t.subrange(7, t.len() as int) =~= p);
    let u = panic_text(Some(q));
    assert(u.subrange(7, u.len() as int) =~= q);
}

} // verus!
