use crate::error::AerError;
use vstd::prelude::*;

verus! {

/// The lifecycle state of one task execution.
///
/// `Created` is the initial state, `Exited` the only terminal one; the only
/// permitted moves are `Created -> Running -> Exited`.
#[derive(Debug, Clone, Copy, PartialEq, Eq, Structural)]
pub enum State {
    Created,
    Running,
    Exited,
}

/// Whether the state machine permits a move from `from` to `to`.
pub open spec fn valid_transition(from: State, to: State) -> bool {
    ||| (from == State::Created && to == State::Running)
    ||| (from == State::Running && to == State::Exited)
}

/// The position of a state along the lifecycle.
pub open spec fn stage(s: State) -> nat {
    match s {
        State::Created => 0,
        State::Running => 1,
        State::Exited => 2,
    }
}

/// The display name of a state.
pub open spec fn state_name(s: State) -> Seq<char> {
    match s {
        State::Created => "Created"@,
        State::Running => "Running"@,
        State::Exited => "Exited"@,
    }
}

impl State {
    /// The state's display name: `Created`, `Running` or `Exited`.
    pub fn name(&self) -> (s: &'static str)
        ensures
            s@ == state_name(*self),
    {
        match self {
            State::Created => {
                proof {
                    reveal_strlit("Created");
                }
                "Created"
            },
            State::Running => {
                proof {
                    reveal_strlit("Running");
                }
                "Running"
            },
            State::Exited => {
                proof {
                    reveal_strlit("Exited");
                }
                "Exited"
            },
        }
    }

    /// Whether a move from `self` to `to` is permitted.
    pub fn can_transition_to(&self, to: State) -> (b: bool)
        ensures
            b == valid_transition(*self, to),
    {
        match (self, to) {
            (State::Created, State::Running) => true,
            (State::Running, State::Exited) => true,
            _ => false,
        }
    }
}

/// The state machine of one execution. It starts in `Created` and moves only
/// along permitted transitions; a refused move is reported, not ignored.
pub struct StateMachine {
    state: State,
}

impl View for StateMachine {
    type V = State;

    closed spec fn view(&self) -> State {
        self.state
    }
}

impl StateMachine {
    /// A machine in the initial state `Created`.
    pub fn new() -> (m: StateMachine)
        ensures
            m@ == State::Created,
    {
        StateMachine { state: State::Created }
    }

    /// The current state.
    pub fn state(&self) -> (s: State)
        ensures
            s == self@,
    {
        self.state
    }

    /// Moves to `to` when the move is permitted. Otherwise the state is kept
    /// and `InvalidStateTransition` names the current state and `to`.
    pub fn transition(&mut self, to: State) -> (r: Result<(), AerError>)
        ensures
            valid_transition(old(self)@, to) ==> r is Ok && final(self)@ == to,
            !valid_transition(old(self)@, to) ==> final(self)@ == old(self)@ && (r matches Err(
                AerError::InvalidStateTransition { from, to: t },
            ) && from == old(self)@ && t == to),
    {
        if self.state.can_transition_to(to) {
            self.state = to;
            Ok(())
        } else {
            Err(AerError::InvalidStateTransition { from: self.state, to })
        }
    }
}

/// Transitions only ever move one stage forward: there is no backward move and
/// no move from a state to itself.
pub proof fn lemma_transitions_move_one_stage_forward(from: State, to: State)
    ensures
        valid_transition(from, to) ==> stage(to) == stage(from) + 1,
        !valid_transition(from, from),
        valid_transition(from, to) ==> !valid_transition(to, from),
{
}

/// `Exited` is terminal: no transition leaves it.
pub proof fn lemma_exited_is_terminal(to: State)
    ensures
        !valid_transition(State::Exited, to),
{
}

/// `Created` is entered by no transition: it is only ever the initial state.
pub proof fn lemma_created_is_only_initial(from: State)
    ensures
        !valid_transition(from, State::Created),
{
}

} // verus!
