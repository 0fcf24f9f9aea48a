//! Traits for implementing finite state machines

use vstd::prelude::*;

verus! {

/// A value that advances through discrete states one step at a time until
/// it reaches one of its terminal states.
pub trait FiniteStateMachine where Self: Sized {
    type State;

    /// The designated terminal states.
    spec fn halted(&self) -> bool;

    /// Consume the current state and produce the next one. A halted
    /// machine is returned as it is. Unless overridden, every state is
    /// returned as it is.
    fn transition(self) -> (next: Self)
        ensures
            self.halted() ==> next == self,
        default_ensures
            next == self,
    {
        self
    }

    /// Return true if the FSM has halted and cannot transition further
    fn is_halt(&self) -> (halt: bool)
        ensures
            halt == self.halted(),
    ;
}

} // verus!
