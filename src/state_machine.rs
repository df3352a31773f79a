//! The hierarchical state machine engine: one actor's current state node, its
//! private data, and the dispatch of one message at a time.
//!
//! A handler that returns `None` ends the dispatch: unhandled messages are
//! absorbed, not passed to the parent node. A node that wants its parent's
//! behaviour forwards to it explicitly; `parent` exists for that walk.
use vstd::prelude::*;

verus! {

/// A state's request to move its machine to another node. The machine, not the
/// state, commits it.
pub enum Transition<S> {
    To(S),
}

/// What one kind of actor is made of.
pub trait Components: Sized {
    /// The closed set of state nodes.
    type States;
    /// The closed set of messages the actor accepts.
    type MessageSet;
    /// The actor's private durable data.
    type ExtendedState;
    /// The handles the actor keeps to itself.
    type Handles;
    /// The receiving ends the actor's run loop waits on.
    type Receivers;

    /// The node a new machine starts in, the root of the tree.
    spec fn initial_spec() -> Self::States;

    fn initial_state() -> (r: Self::States)
        ensures
            r == Self::initial_spec(),
    ;
}

/// One node of an actor's state tree.
pub trait State<C: Components>: Sized {
    /// The node above this one; the root is its own parent.
    spec fn parent_spec(&self) -> C::States;

    /// Handling `msg` in this node may take the data from `before` to `after`
    /// and request `t`.
    spec fn handles(
        &self,
        before: C::ExtendedState,
        msg: C::MessageSet,
        after: C::ExtendedState,
        t: Option<Transition<C::States>>,
    ) -> bool;

    /// Entering this node may take the data from `before` to `after`.
    spec fn enters(&self, before: C::ExtendedState, after: C::ExtendedState) -> bool;

    /// Leaving this node may take the data from `before` to `after`.
    spec fn exits(&self, before: C::ExtendedState, after: C::ExtendedState) -> bool;

    fn parent(&self) -> (r: C::States)
        ensures
            r == self.parent_spec(),
    ;

    fn handle_message(&self, data: &mut C::ExtendedState, msg: C::MessageSet) -> (t: Option<
        Transition<C::States>,
    >)
        ensures
            self.handles(*old(data), msg, *final(data), t),
    ;

    fn on_entry(&self, data: &mut C::ExtendedState)
        ensures
            self.enters(*old(data), *final(data)),
    ;

    fn on_exit(&self, data: &mut C::ExtendedState)
        ensures
            self.exits(*old(data), *final(data)),
    ;
}

/// The unit of hierarchical dispatch for one actor.
pub struct StateMachine<C: Components> {
    pub current_state: C::States,
    pub extended_state: C::ExtendedState,
    pub self_handles: C::Handles,
}

/// Leaving `from` and entering `to` may take the data from `before` to
/// `after`: `from`'s exit runs first, `to`'s entry runs on what it left.
pub open spec fn moves<C: Components>(
    from: C::States,
    to: C::States,
    before: C::ExtendedState,
    after: C::ExtendedState,
) -> bool where C::States: State<C> {
    exists|mid: C::ExtendedState| #[trigger] from.exits(before, mid) && to.enters(mid, after)
}

impl<C: Components> StateMachine<C> where C::States: State<C> {
    /// A machine in the root node, with no callback run yet.
    pub fn new(extended_state: C::ExtendedState, self_handles: C::Handles) -> (r: Self)
        ensures
            r.current_state == C::initial_spec(),
            r.extended_state == extended_state,
            r.self_handles == self_handles,
    {
        StateMachine { current_state: C::initial_state(), extended_state, self_handles }
    }

    /// Commits a move to `target`: the current node's exit, then the switch,
    /// then `target`'s entry.
    pub fn transition(&mut self, target: C::States)
        ensures
            final(self).current_state == target,
            final(self).self_handles == old(self).self_handles,
            moves::<C>(
                old(self).current_state,
                target,
                old(self).extended_state,
                final(self).extended_state,
            ),
    {
        self.current_state.on_exit(&mut self.extended_state);
        let ghost mid = self.extended_state;
        self.current_state = target;
        self.current_state.on_entry(&mut self.extended_state);
        assert(old(self).current_state.exits(old(self).extended_state, mid));
    }

    /// Seeds the machine in `initial`, then moves it to `target`, so that
    /// `initial`'s exit and `target`'s entry run before any message.
    pub fn init(&mut self, initial: C::States, target: C::States)
        ensures
            final(self).current_state == target,
            final(self).self_handles == old(self).self_handles,
            moves::<C>(initial, target, old(self).extended_state, final(self).extended_state),
    {
        self.current_state = initial;
        self.transition(target);
    }

    /// Handles one message in the current node and commits the move it asks
    /// for, if any. Returns whether the machine moved.
    pub fn dispatch(&mut self, msg: C::MessageSet) -> (moved: bool)
        ensures
            final(self).self_handles == old(self).self_handles,
            exists|mid: C::ExtendedState, t: Option<Transition<C::States>>|
                {
                    &&& #[trigger] old(self).current_state.handles(
                        old(self).extended_state,
                        msg,
                        mid,
                        t,
                    )
                    &&& moved == t is Some
                    &&& t is None ==> final(self).current_state == old(self).current_state
                        && final(self).extended_state == mid
                    &&& t matches Some(Transition::To(x)) ==> final(self).current_state == x
                        && moves::<C>(old(self).current_state, x, mid, final(self).extended_state)
                },
    {
        let ghost m = msg;
        let t = self.current_state.handle_message(&mut self.extended_state, msg);
        let ghost mid = self.extended_state;
        let ghost tg = t;
        match t {
            None => {
                assert(old(self).current_state.handles(old(self).extended_state, m, mid, tg));
                false
            },
            Some(Transition::To(x)) => {
                self.transition(x);
                assert(old(self).current_state.handles(old(self).extended_state, m, mid, tg));
                true
            },
        }
    }
}

} // verus!
