//! A sample actor built on the engine: a counter that counts between a
//! minimum and a maximum.
use vstd::prelude::*;
use crate::messaging::{Handle, Message, Receiver};
use crate::state_machine::{Components, State, Transition};
use crate::supervisor::StandardPayload;

verus! {

/// Events a counter reacts to.
#[derive(Clone, Copy, Debug, PartialEq, Eq, Structural)]
pub enum CountEvent {
    GetCount,
    MaxReached,
    MinReached,
    Reset,
    StartCounting,
}

/// Messages on a counter's own channel.
#[derive(Clone, Copy, Debug, PartialEq, Eq, Structural)]
pub enum CounterPayload {
    SetCount(usize),
    Increment(usize),
    Decrement(usize),
    SetMax(usize),
    SetMin(usize),
    CountEvent(CountEvent),
}

/// Everything a counter receives.
pub enum CounterMessageSet {
    StandardMessage(Message<StandardPayload>),
    CounterMessage(Message<CounterPayload>),
}

/// The counter's state tree. `Uninit` is the root; `Idle` groups the states
/// in which no counting happens.
#[derive(Clone, Copy, Debug, PartialEq, Eq, Structural)]
pub enum CounterStateEnum {
    Uninit,
    Idle,
    NotStarted,
    Counting,
    Finished,
    Error,
}

/// The counter's private data.
#[derive(Clone, Copy, Debug, PartialEq, Eq, Structural)]
pub struct CounterExtendedState {
    pub count: usize,
    pub max: usize,
    pub min: usize,
    pub supervisor_handle: Handle,
}

/// What a counter is built from.
#[derive(Clone, Copy, Debug, PartialEq, Eq, Structural)]
pub struct CounterInitArgs {
    pub supervisor_handle: Handle,
}

/// The handles a counter keeps to itself.
pub struct CounterHandles {
    pub standard_handle: Handle,
    pub counter_handle: Handle,
}

/// A counter's receiving ends.
pub struct CounterReceivers {
    pub standard_receiver: Receiver,
    pub counter_receiver: Receiver,
}

/// The kind of actor a counter is.
pub struct CounterComponents;

impl CounterExtendedState {
    /// A counter at zero, counting up to ten.
    pub fn new(args: CounterInitArgs) -> (r: Self)
        ensures
            r.count == 0,
            r.max == 10,
            r.min == 0,
            r.supervisor_handle == args.supervisor_handle,
    {
        CounterExtendedState { count: 0, max: 10, min: 0, supervisor_handle: args.supervisor_handle }
    }
}

/// `a + b`, held at `usize::MAX`.
pub open spec fn sat_add(a: usize, b: usize) -> usize {
    if a + b > usize::MAX {
        usize::MAX
    } else {
        (a + b) as usize
    }
}

/// `a - b`, held at zero.
pub open spec fn sat_sub(a: usize, b: usize) -> usize {
    if a < b {
        0
    } else {
        (a - b) as usize
    }
}

/// What node `s` does with payload `p` on the counter's own channel.
pub open spec fn counter_step(s: CounterStateEnum, d: CounterExtendedState, p: CounterPayload) -> (
    CounterExtendedState,
    Option<Transition<CounterStateEnum>>,
) {
    match s {
        CounterStateEnum::NotStarted => match p {
            CounterPayload::SetCount(v) => (CounterExtendedState { count: v, ..d }, None),
            CounterPayload::SetMax(v) => (CounterExtendedState { max: v, ..d }, None),
            CounterPayload::SetMin(v) => (CounterExtendedState { min: v, ..d }, None),
            CounterPayload::CountEvent(CountEvent::StartCounting) => (
                d,
                Some(Transition::To(CounterStateEnum::Counting)),
            ),
            _ => (d, None),
        },
        CounterStateEnum::Counting => match p {
            CounterPayload::Increment(a) => {
                let n = CounterExtendedState { count: sat_add(d.count, a), ..d };
                if n.count >= n.max {
                    (n, Some(Transition::To(CounterStateEnum::Finished)))
                } else {
                    (n, None)
                }
            },
            CounterPayload::Decrement(a) => {
                let n = CounterExtendedState { count: sat_sub(d.count, a), ..d };
                if n.count <= n.min {
                    (n, Some(Transition::To(CounterStateEnum::Finished)))
                } else {
                    (n, None)
                }
            },
            CounterPayload::CountEvent(CountEvent::Reset) => (
                d,
                Some(Transition::To(CounterStateEnum::NotStarted)),
            ),
            _ => (d, None),
        },
        CounterStateEnum::Finished | CounterStateEnum::Error => match p {
            CounterPayload::CountEvent(CountEvent::Reset) => (
                CounterExtendedState { count: 0, ..d },
                Some(Transition::To(CounterStateEnum::NotStarted)),
            ),
            _ => (d, None),
        },
        _ => (d, None),
    }
}

/// What node `s` does with message `m`.
pub open spec fn counter_handles(s: CounterStateEnum, d: CounterExtendedState, m: CounterMessageSet) -> (
    CounterExtendedState,
    Option<Transition<CounterStateEnum>>,
) {
    match m {
        CounterMessageSet::StandardMessage(sm) => match (s, sm.payload) {
            (CounterStateEnum::Uninit, StandardPayload::Initialize) => (
                d,
                Some(Transition::To(CounterStateEnum::NotStarted)),
            ),
            _ => (d, None),
        },
        CounterMessageSet::CounterMessage(cm) => counter_step(s, d, cm.payload),
    }
}

impl CounterStateEnum {
    fn handle_counter_msg(&self, data: &mut CounterExtendedState, p: CounterPayload) -> (t: Option<
        Transition<CounterStateEnum>,
    >)
        ensures
            (*final(data), t) == counter_step(*self, *old(data), p),
    {
        match self {
            CounterStateEnum::NotStarted => match p {
                CounterPayload::SetCount(v) => {
                    data.count = v;
                    None
                },
                CounterPayload::SetMax(v) => {
                    data.max = v;
                    None
                },
                CounterPayload::SetMin(v) => {
                    data.min = v;
                    None
                },
                CounterPayload::CountEvent(CountEvent::StartCounting) => Some(
                    Transition::To(CounterStateEnum::Counting),
                ),
                _ => None,
            },
            CounterStateEnum::Counting => match p {
                CounterPayload::Increment(a) => {
                    data.count = if a > usize::MAX - data.count {
                        usize::MAX
                    } else {
                        data.count + a
                    };
                    if data.count >= data.max {
                        Some(Transition::To(CounterStateEnum::Finished))
                    } else {
                        None
                    }
                },
                CounterPayload::Decrement(a) => {
                    data.count = if data.count < a {
                        0
                    } else {
                        data.count - a
                    };
                    if data.count <= data.min {
                        Some(Transition::To(CounterStateEnum::Finished))
                    } else {
                        None
                    }
                },
                CounterPayload::CountEvent(CountEvent::Reset) => Some(
                    Transition::To(CounterStateEnum::NotStarted),
                ),
                _ => None,
            },
            CounterStateEnum::Finished | CounterStateEnum::Error => match p {
                CounterPayload::CountEvent(CountEvent::Reset) => {
                    data.count = 0;
                    Some(Transition::To(CounterStateEnum::NotStarted))
                },
                _ => None,
            },
            _ => None,
        }
    }
}

impl Components for CounterComponents {
    type States = CounterStateEnum;
    type MessageSet = CounterMessageSet;
    type ExtendedState = CounterExtendedState;
    type Handles = CounterHandles;
    type Receivers = CounterReceivers;

    open spec fn initial_spec() -> CounterStateEnum {
        CounterStateEnum::Uninit
    }

    fn initial_state() -> (r: CounterStateEnum) {
        CounterStateEnum::Uninit
    }
}

impl State<CounterComponents> for CounterStateEnum {
    open spec fn parent_spec(&self) -> CounterStateEnum {
        match self {
            CounterStateEnum::Uninit | CounterStateEnum::Idle | CounterStateEnum::Counting => CounterStateEnum::Uninit,
            _ => CounterStateEnum::Idle,
        }
    }

    open spec fn handles(
        &self,
        before: CounterExtendedState,
        msg: CounterMessageSet,
        after: CounterExtendedState,
        t: Option<Transition<CounterStateEnum>>,
    ) -> bool {
        (after, t) == counter_handles(*self, before, msg)
    }

    open spec fn enters(&self, before: CounterExtendedState, after: CounterExtendedState) -> bool {
        after == before
    }

    open spec fn exits(&self, before: CounterExtendedState, after: CounterExtendedState) -> bool {
        after == before
    }

    fn parent(&self) -> (r: CounterStateEnum) {
        match self {
            CounterStateEnum::Uninit | CounterStateEnum::Idle | CounterStateEnum::Counting => CounterStateEnum::Uninit,
            _ => CounterStateEnum::Idle,
        }
    }

    fn handle_message(&self, data: &mut CounterExtendedState, msg: CounterMessageSet) -> (t: Option<
        Transition<CounterStateEnum>,
    >) {
        match msg {
            CounterMessageSet::StandardMessage(sm) => match (self, sm.payload) {
                (CounterStateEnum::Uninit, StandardPayload::Initialize) => Some(
                    Transition::To(CounterStateEnum::NotStarted),
                ),
                _ => None,
            },
            CounterMessageSet::CounterMessage(cm) => self.handle_counter_msg(data, cm.payload),
        }
    }

    fn on_entry(&self, data: &mut CounterExtendedState) {
    }

    fn on_exit(&self, data: &mut CounterExtendedState) {
    }
}

} // verus!
