use vstd::prelude::*;

verus! {

/// Processing states.
#[derive(Debug, Clone, Copy, PartialEq, Eq, Structural)]
pub enum State {
    /// No input buffered
    Initial,
    /// Buffering input characters
    Buffering,
    /// Processing and transforming
    Processing,
    /// Committed output
    Committed,
}

/// A transition that the machine refuses.
#[derive(Debug, Clone, Copy, PartialEq, Eq, Structural)]
pub struct InvalidStateTransition {
    pub from: State,
    pub to: State,
}

/// Whether the machine may go from one state to another: to `Initial` from
/// anywhere; to `Buffering` from anywhere but itself only when already
/// buffering; to `Processing` from `Buffering`; to `Committed` from
/// `Buffering` or `Processing`.
pub open spec fn allowed(from: State, to: State) -> bool {
    match (from, to) {
        (State::Initial, State::Buffering) => true,
        (State::Initial, State::Initial) => true,
        (State::Buffering, State::Processing) => true,
        (State::Buffering, State::Committed) => true,
        (State::Buffering, State::Initial) => true,
        (State::Buffering, State::Buffering) => true,
        (State::Processing, State::Committed) => true,
        (State::Processing, State::Initial) => true,
        (State::Processing, State::Buffering) => true,
        (State::Committed, State::Initial) => true,
        (State::Committed, State::Buffering) => true,
        _ => false,
    }
}

/// Most states the history keeps.
pub const MAX_HISTORY: usize = 10;

/// State machine that keeps the states it left, the newest last.
pub struct StateMachine {
    current: State,
    history: Vec<State>,
    max_history: usize,
}

impl StateMachine {
    /// The current state.
    pub closed spec fn state(&self) -> State {
        self.current
    }

    /// The states left, oldest first.
    pub closed spec fn past(&self) -> Seq<State> {
        self.history@
    }

    /// The history stays within its bound.
    pub closed spec fn wf(&self) -> bool {
        self.max_history == MAX_HISTORY && self.history@.len() <= MAX_HISTORY
    }

    pub fn new() -> (r: Self)
        ensures
            r.wf(),
            r.state() == State::Initial,
            r.past().len() == 0,
    {
        StateMachine { current: State::Initial, history: Vec::new(), max_history: MAX_HISTORY }
    }

    /// The current state.
    pub fn current(&self) -> (r: State)
        ensures
            r == self.state(),
    {
        self.current
    }

    /// Go to another state when allowed; the state left joins the history,
    /// whose oldest entry is dropped when it is full.
    pub fn transition(&mut self, to: State) -> (r: Result<State, InvalidStateTransition>)
        requires
            old(self).wf(),
        ensures
            final(self).wf(),
            allowed(old(self).state(), to) ==> r == Ok::<State, InvalidStateTransition>(to)
                && final(self).state() == to
                && final(self).past() == (if old(self).past().len() >= MAX_HISTORY {
                    old(self).past().drop_first()
                } else {
                    old(self).past()
                }).push(old(self).state()),
            !allowed(old(self).state(), to) ==> r == Err::<State, InvalidStateTransition>(
                InvalidStateTransition { from: old(self).state(), to },
            ) && final(self).state() == old(self).state() && final(self).past() == old(self).past(),
    {
        if !self.can_transition(to) {
            return Err(InvalidStateTransition { from: self.current, to });
        }
        if self.history.len() >= self.max_history {
            self.history.remove(0);
            assert(self.history@ =~= old(self).history@.drop_first());
        }
        self.history.push(self.current);
        self.current = to;
        Ok(to)
    }

    /// Whether the transition is allowed.
    pub fn can_transition(&self, to: State) -> (r: bool)
        ensures
            r == allowed(self.state(), to),
    {
        match (self.current, to) {
            (State::Initial, State::Buffering) => true,
            (State::Initial, State::Initial) => true,
            (State::Buffering, State::Processing) => true,
            (State::Buffering, State::Committed) => true,
            (State::Buffering, State::Initial) => true,
            (State::Buffering, State::Buffering) => true,
            (State::Processing, State::Committed) => true,
            (State::Processing, State::Initial) => true,
            (State::Processing, State::Buffering) => true,
            (State::Committed, State::Initial) => true,
            (State::Committed, State::Buffering) => true,
            _ => false,
        }
    }

    /// Back to the initial state with no history.
    pub fn reset(&mut self)
        requires
            old(self).wf(),
        ensures
            final(self).wf(),
            final(self).state() == State::Initial,
            final(self).past().len() == 0,
    {
        self.current = State::Initial;
        self.history = Vec::new();
    }
}

impl Default for StateMachine {
    fn default() -> (r: Self)
        ensures
            r.wf(),
            r.state() == State::Initial,
    {
        StateMachine::new()
    }
}

} // verus!
