use crate::error::AerError;
use crate::event::{is_chunk, Event, ExitReason};
use crate::machine::{State, StateMachine};
use crate::task::Task;
use vstd::prelude::*;

verus! {

/// A chunk of captured output as the OS layer reports it: its sequence number
/// within its stream and its bytes.
pub type Chunk = (u64, Vec<u8>);

/// Whether the chunks of a stream carry the numbers 0, 1, 2, ... in order.
pub open spec fn consecutively_numbered(s: Seq<Chunk>) -> bool {
    forall|i: int| 0 <= i < s.len() ==> #[trigger] s[i].0 == i
}

/// Numbers the chunks read from one output stream: each chunk gets the next
/// sequence number, starting from 0.
pub struct ChunkCounter {
    next: u64,
}

impl View for ChunkCounter {
    type V = u64;

    /// The number the next chunk gets, which is also how many were numbered.
    closed spec fn view(&self) -> u64 {
        self.next
    }
}

impl ChunkCounter {
    /// A counter for a fresh stream.
    pub fn new() -> (c: ChunkCounter)
        ensures
            c@ == 0,
    {
        ChunkCounter { next: 0 }
    }

    /// The number the next chunk gets.
    pub fn next_seq(&self) -> (n: u64)
        ensures
            n == self@,
    {
        self.next
    }

    /// Numbers the chunk `bytes` with the next sequence number.
    pub fn number(&mut self, bytes: Vec<u8>) -> (c: Chunk)
        requires
            old(self)@ < u64::MAX,
        ensures
            c == (old(self)@, bytes),
            final(self)@ == old(self)@ + 1,
    {
        let seq = self.next;
        self.next = self.next + 1;
        (seq, bytes)
    }
}

/// Appending the chunk a counter numbers next to the chunks it numbered before
/// keeps a stream consecutively numbered: a stream numbered by one counter
/// from its start is numbered 0, 1, 2, ... .
pub proof fn lemma_counter_numbers_consecutively(before: Seq<Chunk>, counter: u64, bytes: Vec<u8>)
    requires
        consecutively_numbered(before),
        before.len() == counter,
    ensures
        consecutively_numbered(before.push((counter, bytes))),
{
    let after = before.push((counter, bytes));
    assert forall|i: int| 0 <= i < after.len() implies #[trigger] after[i].0 == i by {
        if i < before.len() {
            assert(after[i] == before[i]);
        }
    }
}

/// The events that carry the captured chunks: the stdout stream first, then
/// the stderr stream, each in the order it was received.
pub open spec fn chunk_events(stdout: Seq<Chunk>, stderr: Seq<Chunk>) -> Seq<Event> {
    stdout.map_values(|c: Chunk| Event::StdoutChunk { seq: c.0, bytes: c.1 }) + stderr.map_values(
        |c: Chunk| Event::StderrChunk { seq: c.0, bytes: c.1 },
    )
}

/// The exit code reported for a process: the OS code when it ended on its own
/// (-1 when the OS gives none, e.g. when a signal ended it), and -1 when the
/// library killed it.
pub open spec fn reported_exit_code(os_code: Option<i32>, reason: ExitReason) -> i32 {
    match reason {
        ExitReason::NaturalExit => match os_code {
            Some(c) => c,
            None => -1i32,
        },
        _ => -1i32,
    }
}

/// Why the library kills (or killed) a running process tree, from what was
/// observed: a cancellation request, or a deadline that passed while a
/// timeout is configured. `NaturalExit` means there is no reason to kill.
pub open spec fn kill_reason(timeout_set: bool, deadline_passed: bool, cancel_requested: bool) -> ExitReason {
    if cancel_requested {
        ExitReason::CancelRequested
    } else if timeout_set && deadline_passed {
        ExitReason::TimedOut
    } else {
        ExitReason::NaturalExit
    }
}

/// The kill decision of one execution, handed to the thread that watches the
/// deadline and the cancel requests.
#[derive(Clone, Copy)]
pub struct KillPolicy {
    timeout_set: bool,
}

impl KillPolicy {
    /// Whether a timeout is configured.
    pub closed spec fn timeout_set(self) -> bool {
        self.timeout_set
    }

    /// Whether to kill the process tree now, and for which reason
    /// (`NaturalExit`: do not kill).
    pub fn decide(&self, deadline_passed: bool, cancel_requested: bool) -> (r: ExitReason)
        ensures
            r == kill_reason(self.timeout_set(), deadline_passed, cancel_requested),
    {
        if cancel_requested {
            ExitReason::CancelRequested
        } else if self.timeout_set && deadline_passed {
            ExitReason::TimedOut
        } else {
            ExitReason::NaturalExit
        }
    }
}

/// Whether `r` is the result a run ends with when the process exited for `reason`.
pub open spec fn is_run_result(reason: ExitReason, r: Result<(), AerError>) -> bool {
    match reason {
        ExitReason::NaturalExit => r is Ok,
        ExitReason::TimedOut => r matches Err(AerError::TimedOut),
        ExitReason::CancelRequested => r matches Err(AerError::Cancelled),
    }
}

/// The events emitted once the process has exited: the captured chunks (none
/// when capture is off), then `Exited`.
pub open spec fn completion_events(
    capture: bool,
    os_code: Option<i32>,
    reason: ExitReason,
    stdout: Seq<Chunk>,
    stderr: Seq<Chunk>,
) -> Seq<Event> {
    let chunks = if capture {
        chunk_events(stdout, stderr)
    } else {
        Seq::empty()
    };
    chunks.push(Event::Exited { code: reported_exit_code(os_code, reason), reason })
}

/// The ordering invariants of a completed run's events: `Started` first,
/// `Exited` last, and only captured chunks between them, all of stdout before
/// any of stderr.
pub open spec fn well_ordered(t: Seq<Event>) -> bool {
    &&& t.len() >= 2
    &&& t[0] is Started
    &&& t.last() is Exited
    &&& forall|i: int| 0 < i < t.len() - 1 ==> is_chunk(#[trigger] t[i])
    &&& forall|i: int, j: int|
        0 < i < j < t.len() - 1 && #[trigger] t[j] is StdoutChunk ==> #[trigger] t[i] is StdoutChunk
}

/// What an execution is: where it stands in its lifecycle, whether it
/// captures output, and the events it has emitted so far.
pub struct ExecutionView {
    pub state: State,
    pub capture_output: bool,
    pub timeout_set: bool,
    pub events: Seq<Event>,
}

/// The decisions of one run of a task. The caller performs the OS work
/// (spawn, wait, kill, draining pipes) and reports each outcome here; the
/// execution answers with the events to deliver and the run's result, keeping
/// the state machine and the event order.
pub struct Execution {
    machine: StateMachine,
    capture_output: bool,
    timeout_set: bool,
    trace: Ghost<Seq<Event>>,
}

impl View for Execution {
    type V = ExecutionView;

    closed spec fn view(&self) -> ExecutionView {
        ExecutionView {
            state: self.machine@,
            capture_output: self.capture_output,
            timeout_set: self.timeout_set,
            events: self.trace@,
        }
    }
}

impl ExecutionView {
    /// The events emitted so far fit the state the execution is in.
    pub open spec fn wf(self) -> bool {
        match self.state {
            State::Created => self.events.len() == 0,
            State::Running => self.events.len() == 1 && self.events[0] is Started,
            State::Exited => well_ordered(self.events) && (!self.capture_output
                ==> self.events.len() == 2),
        }
    }
}

impl Execution {
    /// A fresh execution in state `Created` that has emitted nothing.
    pub fn new(capture_output: bool, timeout_set: bool) -> (e: Execution)
        ensures
            e@ == (ExecutionView {
                state: State::Created,
                capture_output,
                timeout_set,
                events: Seq::empty(),
            }),
            e@.wf(),
    {
        Execution {
            machine: StateMachine::new(),
            capture_output,
            timeout_set,
            trace: Ghost(Seq::empty()),
        }
    }

    /// A fresh execution of `task`: it captures output when the task does and
    /// can time out only when the task has a timeout.
    pub fn for_task(task: &Task) -> (e: Execution)
        ensures
            e@ == (ExecutionView {
                state: State::Created,
                capture_output: task@.capture_output,
                timeout_set: task@.timeout is Some,
                events: Seq::empty(),
            }),
            e@.wf(),
    {
        Execution::new(task.capture_output(), task.timeout().is_some())
    }

    /// The kill decision of this execution.
    pub fn kill_policy(&self) -> (p: KillPolicy)
        ensures
            p.timeout_set() == self@.timeout_set,
    {
        KillPolicy { timeout_set: self.timeout_set }
    }

    /// The current lifecycle state.
    pub fn state(&self) -> (s: State)
        ensures
            s == self@.state,
    {
        self.machine.state()
    }

    /// The OS refused to spawn the process, with error `e`. From `Created`
    /// the execution stays where it is, emits nothing, and the run ends in
    /// `Err(SpawnFailed(e))`; from any other state a spawn is out of place and
    /// is refused as a move to `Running`.
    pub fn spawn_failed(&mut self, e: std::io::Error) -> (r: (Vec<Event>, Result<(), AerError>))
        ensures
            r.0@ == Seq::<Event>::empty(),
            final(self)@ == old(self)@,
            old(self)@.state == State::Created ==> r.1 == Err::<(), AerError>(AerError::SpawnFailed(e)),
            old(self)@.state != State::Created ==> (r.1 matches Err(
                AerError::InvalidStateTransition { from, to },
            ) && from == old(self)@.state && to == State::Running),
    {
        let events: Vec<Event> = Vec::new();
        if self.machine.state() == State::Created {
            (events, Err(AerError::SpawnFailed(e)))
        } else {
            let from = self.machine.state();
            (events, Err(AerError::InvalidStateTransition { from, to: State::Running }))
        }
    }

    /// The OS confirmed the spawn of process `pid`. From `Created` the
    /// execution moves to `Running` and answers with the `Started` event to
    /// deliver; from any other state the move is refused and nothing is emitted.
    pub fn spawned(&mut self, pid: u32) -> (r: Result<Event, AerError>)
        ensures
            old(self)@.state == State::Created ==> r == Ok::<Event, AerError>(
                Event::Started { pid },
            ) && final(self)@ == (ExecutionView {
                state: State::Running,
                events: old(self)@.events.push(Event::Started { pid }),
                ..old(self)@
            }),
            old(self)@.state != State::Created ==> final(self)@ == old(self)@ && (r matches Err(
                AerError::InvalidStateTransition { from, to },
            ) && from == old(self)@.state && to == State::Running),
            old(self)@.wf() ==> final(self)@.wf(),
    {
        match self.machine.transition(State::Running) {
            Ok(()) => {
                let ev = Event::Started { pid };
                proof {
                    self.trace@ = self.trace@.push(ev);
                }
                Ok(ev)
            },
            Err(e) => Err(e),
        }
    }

    /// The process has exited: `os_code` is the exit code the OS reported
    /// (`None` when it gives none), `deadline_passed` and `cancel_requested`
    /// say which kill (if any) the watching thread performed, and
    /// `stdout`/`stderr` hold the chunks drained from its pipes. From
    /// `Running` the execution moves to `Exited` and answers with the events to
    /// deliver, in order (the chunks when capture is on, then `Exited`), and
    /// the run's result. From any other state the move is refused and nothing
    /// is emitted.
    pub fn exited(
        &mut self,
        os_code: Option<i32>,
        deadline_passed: bool,
        cancel_requested: bool,
        stdout: Vec<Chunk>,
        stderr: Vec<Chunk>,
    ) -> (r: (Vec<Event>, Result<(), AerError>))
        ensures
            old(self)@.state == State::Running ==> {
                let reason = kill_reason(old(self)@.timeout_set, deadline_passed, cancel_requested);
                &&& r.0@ == completion_events(
                    old(self)@.capture_output,
                    os_code,
                    reason,
                    stdout@,
                    stderr@,
                )
                &&& is_run_result(reason, r.1)
                &&& final(self)@ == (ExecutionView {
                    state: State::Exited,
                    events: old(self)@.events + r.0@,
                    ..old(self)@
                })
            },
            old(self)@.state != State::Running ==> {
                &&& r.0@ == Seq::<Event>::empty()
                &&& final(self)@ == old(self)@
                &&& r.1 matches Err(AerError::InvalidStateTransition { from, to })
                &&& from == old(self)@.state
                &&& to == State::Exited
            },
            old(self)@.wf() ==> final(self)@.wf(),
            old(self)@.state == State::Running && old(self)@.capture_output ==> {
                &&& r.0@.len() == stdout@.len() + stderr@.len() + 1
                &&& forall|i: int|
                    0 <= i < stdout@.len() ==> r.0@[i] == (Event::StdoutChunk {
                        seq: #[trigger] stdout@[i].0,
                        bytes: stdout@[i].1,
                    })
                &&& forall|i: int|
                    0 <= i < stderr@.len() ==> r.0@[stdout@.len() + i] == (Event::StderrChunk {
                        seq: #[trigger] stderr@[i].0,
                        bytes: stderr@[i].1,
                    })
            },
            old(self)@.state == State::Running && !old(self)@.capture_output ==> r.0@.len() == 1,
            old(self)@.state == State::Running ==> (r.0@.last() matches Event::Exited { code, reason }
                && reason == kill_reason(old(self)@.timeout_set, deadline_passed, cancel_requested)
                && code == (if reason == ExitReason::NaturalExit && os_code is Some {
                os_code->0
            } else {
                -1i32
            })),
    {
        if self.machine.state() != State::Running {
            let from = self.machine.state();
            return (Vec::new(), Err(AerError::InvalidStateTransition { from, to: State::Exited }));
        }
        let ghost given_out = stdout@;
        let ghost given_err = stderr@;
        let mut events: Vec<Event> = Vec::new();
        if self.capture_output {
            let ghost out = stdout@;
            let ghost err = stderr@;
            for c in it: stdout.into_iter()
                invariant
                    it.seq() == out,
                    events@ == out.take(it.index() as int).map_values(
                        |c: Chunk| Event::StdoutChunk { seq: c.0, bytes: c.1 },
                    ),
            {
                let (seq, bytes) = c;
                events.push(Event::StdoutChunk { seq, bytes });
                proof {
                    assert(out.take(it.index() as int + 1) =~= out.take(it.index() as int).push(c));
                }
            }
            let ghost n = events@.len();
            for c in it: stderr.into_iter()
                invariant
                    it.seq() == err,
                    n == out.len(),
                    events@ == out.map_values(|c: Chunk| Event::StdoutChunk { seq: c.0, bytes: c.1 })
                        + err.take(it.index() as int).map_values(
                        |c: Chunk| Event::StderrChunk { seq: c.0, bytes: c.1 },
                    ),
            {
                let (seq, bytes) = c;
                events.push(Event::StderrChunk { seq, bytes });
                proof {
                    assert(err.take(it.index() as int + 1) =~= err.take(it.index() as int).push(c));
                }
            }
        }
        let reason = self.kill_policy().decide(deadline_passed, cancel_requested);
        let code = match reason {
            ExitReason::NaturalExit => match os_code {
                Some(c) => c,
                None => -1,
            },
            _ => -1,
        };
        let _ = self.machine.transition(State::Exited);
        events.push(Event::Exited { code, reason });
        let result = match reason {
            ExitReason::NaturalExit => Ok(()),
            ExitReason::TimedOut => Err(AerError::TimedOut),
            ExitReason::CancelRequested => Err(AerError::Cancelled),
        };
        proof {
            self.trace@ = self.trace@ + events@;
            lemma_completion_delivers_each_chunk_as_received(
                self.capture_output,
                os_code,
                reason,
                given_out,
                given_err,
            );
        }
        (events, result)
    }

    /// Waiting for the process failed with the OS error `e`;
    /// `deadline_passed` and `cancel_requested` say which kill (if any) the
    /// watching thread performed. From `Running` the execution moves to
    /// `Exited` and answers with the `Exited` event (code -1, since the OS
    /// reported none) and `Err(WaitFailed(e))`. From any other state the move
    /// is refused and nothing is emitted.
    pub fn wait_failed(
        &mut self,
        e: std::io::Error,
        deadline_passed: bool,
        cancel_requested: bool,
    ) -> (r: (Vec<Event>, Result<(), AerError>))
        ensures
            old(self)@.state == State::Running ==> {
                let exited = Event::Exited {
                    code: -1i32,
                    reason: kill_reason(old(self)@.timeout_set, deadline_passed, cancel_requested),
                };
                &&& r.0@ == seq![exited]
                &&& r.1 == Err::<(), AerError>(AerError::WaitFailed(e))
                &&& final(self)@ == (ExecutionView {
                    state: State::Exited,
                    events: old(self)@.events.push(exited),
                    ..old(self)@
                })
            },
            old(self)@.state != State::Running ==> {
                &&& r.0@ == Seq::<Event>::empty()
                &&& final(self)@ == old(self)@
                &&& r.1 matches Err(AerError::InvalidStateTransition { from, to })
                &&& from == old(self)@.state
                &&& to == State::Exited
            },
            old(self)@.wf() ==> final(self)@.wf(),
    {
        if self.machine.state() != State::Running {
            let from = self.machine.state();
            return (Vec::new(), Err(AerError::InvalidStateTransition { from, to: State::Exited }));
        }
        let reason = self.kill_policy().decide(deadline_passed, cancel_requested);
        let _ = self.machine.transition(State::Exited);
        let exited = Event::Exited { code: -1, reason };
        let mut events: Vec<Event> = Vec::new();
        events.push(exited);
        proof {
            self.trace@ = self.trace@.push(exited);
            assert(events@ =~= seq![exited]);
        }
        (events, Err(AerError::WaitFailed(e)))
    }
}

/// The events of every run that reaches `Exited` keep the ordering
/// invariants: `Started` is the first event and the only one of its kind,
/// `Exited` is the last and the only one of its kind, captured chunks stand
/// strictly between them, and a run without capture emits exactly
/// `Started` then `Exited`.
pub proof fn lemma_completed_run_is_ordered(v: ExecutionView)
    requires
        v.wf(),
        v.state == State::Exited,
    ensures
        v.events.len() >= 2,
        v.events[0] is Started,
        v.events.last() is Exited,
        forall|i: int| 0 <= i < v.events.len() && #[trigger] v.events[i] is Started ==> i == 0,
        forall|i: int|
            0 <= i < v.events.len() && #[trigger] v.events[i] is Exited ==> i == v.events.len() - 1,
        forall|i: int| 0 <= i < v.events.len() && is_chunk(#[trigger] v.events[i]) ==> 0 < i < v.events.len() - 1,
        !v.capture_output ==> forall|i: int| 0 <= i < v.events.len() ==> !is_chunk(#[trigger] v.events[i]),
{
    assert forall|i: int| 0 <= i < v.events.len() && #[trigger] v.events[i] is Started implies i == 0 by {
        if 0 < i < v.events.len() - 1 {
            assert(is_chunk(v.events[i]));
        }
    }
    assert forall|i: int|
        0 <= i < v.events.len() && #[trigger] v.events[i] is Exited implies i == v.events.len() - 1 by {
        if 0 < i < v.events.len() - 1 {
            assert(is_chunk(v.events[i]));
        }
    }
}

/// Before the OS confirms a spawn nothing has been emitted: a run whose spawn
/// fails emits no event at all.
pub proof fn lemma_no_events_before_spawn(v: ExecutionView)
    requires
        v.wf(),
        v.state == State::Created,
    ensures
        v.events == Seq::<Event>::empty(),
{
}

/// A whole run, `Started` followed by what the exit produces, is well ordered
/// and ends in the `Exited` event that carries the reported code and reason;
/// without capture it is exactly `Started` then `Exited`.
pub proof fn lemma_run_events_are_well_ordered(
    pid: u32,
    capture: bool,
    os_code: Option<i32>,
    reason: ExitReason,
    stdout: Seq<Chunk>,
    stderr: Seq<Chunk>,
)
    ensures
        ({
            let t = seq![Event::Started { pid }] + completion_events(capture, os_code, reason, stdout, stderr);
            &&& well_ordered(t)
            &&& t[0] == Event::Started { pid }
            &&& t.last() == Event::Exited { code: reported_exit_code(os_code, reason), reason }
            &&& !capture ==> t.len() == 2
            &&& capture ==> t.len() == stdout.len() + stderr.len() + 2
        }),
{
    let t = seq![Event::Started { pid }] + completion_events(capture, os_code, reason, stdout, stderr);
    let c = chunk_events(stdout, stderr);
    if capture {
        assert forall|i: int| 0 < i < t.len() - 1 implies is_chunk(#[trigger] t[i]) by {
            assert(t[i] == c[i - 1]);
        }
        assert forall|i: int, j: int|
            0 < i < j < t.len() - 1 && #[trigger] t[j] is StdoutChunk implies #[trigger] t[i] is StdoutChunk by {
            assert(t[i] == c[i - 1]);
            assert(t[j] == c[j - 1]);
        }
    }
}

/// Captured chunks are delivered as received: the stdout chunks first, each
/// keeping its sequence number and bytes and their order, then the stderr
/// chunks likewise. So a stream whose sequence numbers increase is delivered
/// with increasing sequence numbers.
pub proof fn lemma_chunk_order_is_kept(stdout: Seq<Chunk>, stderr: Seq<Chunk>)
    ensures
        chunk_events(stdout, stderr).len() == stdout.len() + stderr.len(),
        forall|i: int|
            0 <= i < stdout.len() ==> #[trigger] chunk_events(stdout, stderr)[i] == (Event::StdoutChunk {
                seq: stdout[i].0,
                bytes: stdout[i].1,
            }),
        forall|i: int|
            0 <= i < stderr.len() ==> #[trigger] chunk_events(stdout, stderr)[stdout.len() + i] == (
            Event::StderrChunk { seq: stderr[i].0, bytes: stderr[i].1 }),
        (forall|i: int, j: int| 0 <= i < j < stdout.len() ==> stdout[i].0 < stdout[j].0) ==> forall|
            i: int,
            j: int,
        |
            0 <= i < j < stdout.len() ==> #[trigger] chunk_events(stdout, stderr)[i]->StdoutChunk_seq
                < #[trigger] chunk_events(stdout, stderr)[j]->StdoutChunk_seq,
        consecutively_numbered(stdout) ==> forall|i: int|
            0 <= i < stdout.len() ==> #[trigger] chunk_events(stdout, stderr)[i]->StdoutChunk_seq == i,
        consecutively_numbered(stderr) ==> forall|i: int|
            #![trigger stderr[i]]
            0 <= i < stderr.len() ==> chunk_events(stdout, stderr)[stdout.len() + i]->StderrChunk_seq
                == i,
{
    let c = chunk_events(stdout, stderr);
    assert forall|i: int| 0 <= i < stderr.len() implies #[trigger] c[stdout.len() + i] == (
    Event::StderrChunk { seq: stderr[i].0, bytes: stderr[i].1 }) by {
        assert(c[stdout.len() + i] == stderr.map_values(
            |c: Chunk| Event::StderrChunk { seq: c.0, bytes: c.1 },
        )[i]);
    }
}

/// A process the library killed, for a timeout or a cancellation, is reported
/// with exit code -1 and the run fails with the matching error; a process
/// that ended on its own is reported with its OS code and the run succeeds.
pub proof fn lemma_exit_code_and_result_follow_reason(
    os_code: Option<i32>,
    reason: ExitReason,
    r: Result<(), AerError>,
)
    requires
        is_run_result(reason, r),
    ensures
        reason == ExitReason::NaturalExit <==> r is Ok,
        reason != ExitReason::NaturalExit ==> reported_exit_code(os_code, reason) == -1,
        reason == ExitReason::NaturalExit ==> reported_exit_code(os_code, reason) == match os_code {
            Some(c) => c,
            None => -1i32,
        },
        reason == ExitReason::TimedOut <==> r matches Err(AerError::TimedOut),
        reason == ExitReason::CancelRequested <==> r matches Err(AerError::Cancelled),
{
}

/// A run can end in `TimedOut` only when a timeout is configured and its
/// deadline passed, and a cancellation request always wins; without a kill
/// observation the process is reported as having ended on its own.
pub proof fn lemma_timed_out_needs_a_timeout(timeout_set: bool, deadline_passed: bool, cancel_requested: bool)
    ensures
        kill_reason(timeout_set, deadline_passed, cancel_requested) == ExitReason::TimedOut ==> timeout_set
            && deadline_passed && !cancel_requested,
        !timeout_set ==> kill_reason(timeout_set, deadline_passed, cancel_requested) != ExitReason::TimedOut,
        kill_reason(timeout_set, deadline_passed, cancel_requested) == ExitReason::CancelRequested <==> cancel_requested,
        !deadline_passed && !cancel_requested ==> kill_reason(timeout_set, deadline_passed, cancel_requested)
            == ExitReason::NaturalExit,
        timeout_set && deadline_passed && !cancel_requested ==> kill_reason(
            timeout_set,
            deadline_passed,
            cancel_requested,
        ) == ExitReason::TimedOut,
        !timeout_set && !cancel_requested ==> kill_reason(timeout_set, deadline_passed, cancel_requested)
            == ExitReason::NaturalExit,
{
}

/// What a run delivers once its process exited. With capture on: every
/// stdout chunk as a `StdoutChunk` with its own number and bytes, in the order
/// received, then every stderr chunk as a `StderrChunk` likewise (whatever the
/// lengths of the two streams, either of which may be empty), then one
/// `Exited`. With capture off: `Exited` alone. `Exited` carries the reason and
/// the OS code when the process ended on its own (-1 when the OS gave none),
/// and -1 after a kill.
pub proof fn lemma_completion_delivers_each_chunk_as_received(
    capture: bool,
    os_code: Option<i32>,
    reason: ExitReason,
    stdout: Seq<Chunk>,
    stderr: Seq<Chunk>,
)
    ensures
        ({
            let c = completion_events(capture, os_code, reason, stdout, stderr);
            &&& capture ==> c.len() == stdout.len() + stderr.len() + 1
            &&& capture ==> forall|i: int|
                0 <= i < stdout.len() ==> c[i] == (Event::StdoutChunk {
                    seq: #[trigger] stdout[i].0,
                    bytes: stdout[i].1,
                })
            &&& capture ==> forall|i: int|
                0 <= i < stderr.len() ==> c[stdout.len() + i] == (Event::StderrChunk {
                    seq: #[trigger] stderr[i].0,
                    bytes: stderr[i].1,
                })
            &&& !capture ==> c.len() == 1
            &&& (c.last() matches Event::Exited { code, reason: r } && r == reason && code == (
            if reason == ExitReason::NaturalExit && os_code is Some {
                os_code->0
            } else {
                -1i32
            }))
        }),
{
    let c = completion_events(capture, os_code, reason, stdout, stderr);
    if capture {
        let k = chunk_events(stdout, stderr);
        assert forall|i: int| 0 <= i < stderr.len() implies c[stdout.len() + i] == (
        Event::StderrChunk { seq: #[trigger] stderr[i].0, bytes: stderr[i].1 }) by {
            assert(c[stdout.len() + i] == k[stdout.len() + i]);
            assert(k[stdout.len() + i] == stderr.map_values(
                |c: Chunk| Event::StderrChunk { seq: c.0, bytes: c.1 },
            )[i]);
        }
        assert forall|i: int| 0 <= i < stdout.len() implies c[i] == (Event::StdoutChunk {
            seq: #[trigger] stdout[i].0,
            bytes: stdout[i].1,
        }) by {
            assert(c[i] == k[i]);
        }
    }
}

} // verus!
