use core::time::Duration;
use vstd::prelude::*;

verus! {

/// What a task is: the command it runs and how it runs it.
pub struct TaskView {
    pub program: Seq<char>,
    pub args: Seq<Seq<char>>,
    pub timeout: Option<Duration>,
    pub capture_output: bool,
}

/// A single-shot task: one command, one execution, deterministic lifecycle.
pub struct Task {
    program: String,
    args: Vec<String>,
    timeout: Option<Duration>,
    capture_output: bool,
}

/// The texts of a list of strings.
pub open spec fn texts(v: Seq<String>) -> Seq<Seq<char>> {
    v.map_values(|s: String| s@)
}

impl View for Task {
    type V = TaskView;

    closed spec fn view(&self) -> TaskView {
        TaskView {
            program: self.program@,
            args: texts(self.args@),
            timeout: self.timeout,
            capture_output: self.capture_output,
        }
    }
}

impl Task {
    /// A task that runs `program` with `args`, with no timeout and with output
    /// capture off.
    pub fn new(program: String, args: Vec<String>) -> (t: Task)
        ensures
            t@ == (TaskView {
                program: program@,
                args: texts(args@),
                timeout: None,
                capture_output: false,
            }),
    {
        Task { program, args, timeout: None, capture_output: false }
    }

    /// Sets a maximum wall-clock duration for the process. If the process has
    /// not exited by the deadline, it is killed and the run ends in
    /// `Err(AerError::TimedOut)`.
    pub fn with_timeout(self, timeout: Duration) -> (t: Task)
        ensures
            t@ == (TaskView { timeout: Some(timeout), ..self@ }),
    {
        Task { timeout: Some(timeout), ..self }
    }

    /// Enables or disables stdout and stderr capture. When enabled,
    /// `StdoutChunk` and `StderrChunk` events are emitted between `Started`
    /// and `Exited`.
    pub fn with_capture_output(self, capture: bool) -> (t: Task)
        ensures
            t@ == (TaskView { capture_output: capture, ..self@ }),
    {
        Task { capture_output: capture, ..self }
    }

    /// The program the task runs.
    pub fn program(&self) -> (p: &str)
        ensures
            p@ == self@.program,
    {
        self.program.as_str()
    }

    /// The arguments the task passes to the program.
    pub fn args(&self) -> (a: &[String])
        ensures
            texts(a@) == self@.args,
    {
        self.args.as_slice()
    }

    /// The timeout, if one was set.
    pub fn timeout(&self) -> (t: Option<Duration>)
        ensures
            t == self@.timeout,
    {
        self.timeout
    }

    /// Whether output capture is enabled.
    pub fn capture_output(&self) -> (c: bool)
        ensures
            c == self@.capture_output,
    {
        self.capture_output
    }
}

} // verus!
