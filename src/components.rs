//! An actor as the run loop holds it: its address, its machine and its receivers.
use vstd::prelude::*;
use crate::messaging::Handle;
use crate::state_machine::{Components, State, StateMachine};

verus! {

/// One actor. Actors differ only in their components.
pub struct Blox<C: Components> {
    pub handle: Handle,
    pub state_machine: StateMachine<C>,
    pub receivers: C::Receivers,
}

impl<C: Components> Blox<C> where C::States: State<C> {
    /// An actor whose machine sits in the root node with `extended_state`.
    pub fn new(
        standard_handle: Handle,
        receivers: C::Receivers,
        extended_state: C::ExtendedState,
        self_handles: C::Handles,
    ) -> (r: Self)
        ensures
            r.handle == standard_handle,
            r.receivers == receivers,
            r.state_machine.current_state == C::initial_spec(),
            r.state_machine.extended_state == extended_state,
            r.state_machine.self_handles == self_handles,
    {
        Blox {
            handle: standard_handle,
            state_machine: StateMachine::new(extended_state, self_handles),
            receivers,
        }
    }
}

} // verus!
