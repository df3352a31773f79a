//! A sample root actor: it waits in `Idle` once initialized.
use vstd::prelude::*;
use crate::counter::CounterPayload;
use crate::messaging::{Handle, Message, Receiver};
use crate::state_machine::{Components, State, Transition};
use crate::supervisor::StandardPayload;

verus! {

/// Everything the root actor receives.
pub enum RootMessageSet {
    StandardMessage(Message<StandardPayload>),
    CounterMessage(Message<CounterPayload>),
}

/// The node the root actor rests in; it absorbs every message.
#[derive(Clone, Copy, Debug, PartialEq, Eq, Structural)]
pub struct Idle;

/// The root actor's state tree: `Idle` under the root `Uninit`.
#[derive(Clone, Copy, Debug, PartialEq, Eq, Structural)]
pub enum RootStates {
    Uninit,
    Idle(Idle),
}

/// The root actor's private data.
#[derive(Clone, Copy, Debug, PartialEq, Eq, Structural)]
pub struct RootExtendedState {
    pub supervisor_handle: Handle,
}

/// The handles the root actor keeps to itself.
pub struct RootHandles {
    pub standard_handle: Handle,
    pub counter_handle: Handle,
}

/// The root actor's receiving ends.
pub struct RootReceivers {
    pub std_rx: Receiver,
    pub counter_rx: Receiver,
}

/// The kind of actor the root is.
pub struct RootComponents;

impl Components for RootComponents {
    type States = RootStates;
    type MessageSet = RootMessageSet;
    type ExtendedState = RootExtendedState;
    type Handles = RootHandles;
    type Receivers = RootReceivers;

    open spec fn initial_spec() -> RootStates {
        RootStates::Uninit
    }

    fn initial_state() -> (r: RootStates) {
        RootStates::Uninit
    }
}

impl State<RootComponents> for Idle {
    open spec fn parent_spec(&self) -> RootStates {
        RootStates::Uninit
    }

    open spec fn handles(
        &self,
        before: RootExtendedState,
        msg: RootMessageSet,
        after: RootExtendedState,
        t: Option<Transition<RootStates>>,
    ) -> bool {
        after == before && t is None
    }

    open spec fn enters(&self, before: RootExtendedState, after: RootExtendedState) -> bool {
        after == before
    }

    open spec fn exits(&self, before: RootExtendedState, after: RootExtendedState) -> bool {
        after == before
    }

    fn parent(&self) -> (r: RootStates) {
        RootStates::Uninit
    }

    fn handle_message(&self, data: &mut RootExtendedState, msg: RootMessageSet) -> (t: Option<
        Transition<RootStates>,
    >) {
        None
    }

    fn on_entry(&self, data: &mut RootExtendedState) {
    }

    fn on_exit(&self, data: &mut RootExtendedState) {
    }
}

/// Whether `m` is the standard `Initialize` message.
pub open spec fn is_initialize(m: RootMessageSet) -> bool {
    m matches RootMessageSet::StandardMessage(sm) && sm.payload is Initialize
}

impl State<RootComponents> for RootStates {
    open spec fn parent_spec(&self) -> RootStates {
        match self {
            RootStates::Uninit => RootStates::Uninit,
            RootStates::Idle(s) => s.parent_spec(),
        }
    }

    open spec fn handles(
        &self,
        before: RootExtendedState,
        msg: RootMessageSet,
        after: RootExtendedState,
        t: Option<Transition<RootStates>>,
    ) -> bool {
        match self {
            RootStates::Uninit => after == before && if is_initialize(msg) {
                t == Some(Transition::To(RootStates::Idle(Idle)))
            } else {
                t is None
            },
            RootStates::Idle(s) => s.handles(before, msg, after, t),
        }
    }

    open spec fn enters(&self, before: RootExtendedState, after: RootExtendedState) -> bool {
        after == before
    }

    open spec fn exits(&self, before: RootExtendedState, after: RootExtendedState) -> bool {
        after == before
    }

    fn parent(&self) -> (r: RootStates) {
        match self {
            RootStates::Uninit => RootStates::Uninit,
            RootStates::Idle(s) => s.parent(),
        }
    }

    fn handle_message(&self, data: &mut RootExtendedState, msg: RootMessageSet) -> (t: Option<
        Transition<RootStates>,
    >) {
        match self {
            RootStates::Uninit => match msg {
                RootMessageSet::StandardMessage(sm) => match sm.payload {
                    StandardPayload::Initialize => Some(Transition::To(RootStates::Idle(Idle))),
                    _ => None,
                },
                _ => None,
            },
            RootStates::Idle(s) => s.handle_message(data, msg),
        }
    }

    fn on_entry(&self, data: &mut RootExtendedState) {
    }

    fn on_exit(&self, data: &mut RootExtendedState) {
    }
}

} // verus!
