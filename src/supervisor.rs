//! The supervisor: the actor with id 0 that allocates actor ids, provisions
//! channels and asks the scheduler to spawn actors.
//!
//! Its dispatch does no I/O. What the scheduler must do is queued in
//! `SupervisorExtendedState::actions` for the run loop to carry out.
use vstd::prelude::*;
use crate::messaging::{ChannelModel, Channels, Handle, Message, Receiver, SendError, send_spec, ROOT_ID, SUPERVISOR_ID};
use crate::pool::{ChannelPool, acquired_at, count_free};
use crate::registry::{Registry, registry_entries};
use crate::state_machine::{Components, State, Transition};

verus! {

/// Control messages every actor understands.
pub enum StandardPayload {
    Initialize,
    Shutdown,
    /// A freshly provisioned channel: its sender and its receiver.
    StandardChannel(Handle, Receiver),
}

/// Requests that actors send to the supervisor.
pub enum SupervisorPayload {
    /// Spawn the unit of work that the run loop keeps under this key.
    Spawn(usize),
    /// Spawn, on the run loop's own thread, the unit of work kept under this key.
    SpawnLocal(usize),
    /// Provision a channel of this capacity for a new actor.
    RequestNewStandardHandle(usize),
}

/// Everything the supervisor receives.
pub enum SupervisorMessageSet {
    StandardMessage(Message<StandardPayload>),
    SupervisorMessage(Message<SupervisorPayload>),
}

/// Work the supervisor leaves for its run loop.
#[derive(Clone, Copy, Debug, PartialEq, Eq, Structural)]
pub enum SupervisorAction {
    /// Spawn the root actor's task, kept aside at start-up.
    SpawnRoot,
    /// Spawn the unit of work kept under this key.
    Spawn(usize),
    /// Spawn on the run loop's own thread the unit of work kept under this key.
    SpawnLocal(usize),
    /// No channel could be provisioned for this requester.
    ProvisionFailed(u16),
    /// The reply to this requester could not be enqueued.
    ReplyFailed(u16, SendError),
    /// Start-up was left with no root task to spawn: the run loop must abort.
    RootTaskMissing,
}

/// The supervisor's private data.
pub struct SupervisorExtendedState {
    /// Live actors by id.
    pub blox: Registry,
    /// The id the next provisioned actor gets.
    pub next_id: u16,
    /// The channels of standard messages, one per actor.
    pub channels: Channels<StandardPayload>,
    /// On targets without run-time allocation, the fixed set new actors draw from.
    pub pool: Option<ChannelPool>,
    /// Whether the root actor's task still waits to be spawned.
    pub root_spawn_pending: bool,
    /// Work queued for the run loop, oldest first.
    pub actions: Vec<SupervisorAction>,
}

/// What the supervisor is built from.
pub struct SupervisorInitArgs {
    pub root_standard_handle: Handle,
    pub supervisor_standard_handle: Handle,
    pub channels: Channels<StandardPayload>,
    pub pool: Option<ChannelPool>,
    /// Whether a root task was handed over to be spawned at start-up.
    pub has_root_task: bool,
}

/// The handles the supervisor keeps to itself.
pub struct SupervisorHandles {
    pub standard_handle: Handle,
    pub supervisor_handle: Handle,
}

/// The supervisor's receiving ends.
pub struct SupervisorReceivers {
    pub standard_receiver: Receiver,
    pub supervisor_receiver: Receiver,
}

/// The reply that carries a provisioned channel to `requester`.
pub open spec fn reply_message(requester: u16, h: Handle, rx: Receiver) -> Message<StandardPayload> {
    Message { source_id: SUPERVISOR_ID, dest_id: requester, payload: StandardPayload::StandardChannel(h, rx) }
}

impl SupervisorExtendedState {
    pub open spec fn entries(&self) -> Map<u16, usize> {
        registry_entries(self.blox)
    }

    /// Registered ids are below `next_id`, and the first two are reserved.
    pub open spec fn wf(&self) -> bool {
        &&& self.entries().dom().finite()
        &&& self.next_id >= 2
        &&& forall|k: u16| #[trigger] self.entries().dom().contains(k) ==> k < self.next_id
    }

    /// `after` is `before` with `action` queued and nothing else changed.
    pub open spec fn queued(before: Self, after: Self, action: SupervisorAction) -> bool {
        &&& after.blox == before.blox
        &&& after.next_id == before.next_id
        &&& after.channels@ == before.channels@
        &&& after.pool == before.pool
        &&& after.root_spawn_pending == before.root_spawn_pending
        &&& after.actions@ == before.actions@.push(action)
    }

    /// A request for a channel of `size` took `before` to `after` and returned `r`:
    /// on success the next id was handed out, registered, and given a channel
    /// (a fresh one, or the lowest free one of the pool).
    pub open spec fn provisioned(before: Self, after: Self, size: usize, r: Option<(Handle, Receiver)>) -> bool {
        match r {
            None => after == before,
            Some((h, rx)) => {
                &&& h.id == before.next_id
                &&& rx.slot == h.slot
                &&& after.next_id == before.next_id + 1
                &&& after.entries() == before.entries().insert(h.id, h.slot)
                &&& after.actions@ == before.actions@
                &&& after.root_spawn_pending == before.root_spawn_pending
                &&& match before.pool {
                    None => {
                        &&& after.pool is None
                        &&& h.slot == before.channels@.len()
                        &&& after.channels@ == before.channels@.push(
                            ChannelModel { items: Seq::empty(), capacity: size as nat, open: true },
                        )
                    },
                    Some(p) => {
                        &&& after.channels@ == before.channels@
                        &&& after.pool matches Some(q) && q.slot_list() == p.slot_list()
                            && exists|i: int| #[trigger] acquired_at(p@, q@, i) && h.slot == p.slot_of(i)
                    },
                }
            },
        }
    }

    /// Whether a request can be served from `s`.
    pub open spec fn can_provision(s: Self) -> bool {
        &&& s.next_id < u16::MAX
        &&& match s.pool {
            None => s.channels@.len() < usize::MAX,
            Some(p) => count_free(p@) > 0,
        }
    }

    /// The request of `requester` for a channel of `size` took `before` to
    /// `after`: whenever ids and channels are left, a channel was provisioned
    /// and registered, and its ends sent to the requester when the registry
    /// knows it (silently skipped otherwise); when none are left, the failure
    /// was queued for the run loop.
    pub open spec fn served(before: Self, after: Self, requester: u16, size: usize) -> bool {
        exists|mid: Self, r: Option<(Handle, Receiver)>|
            #[trigger] Self::provisioned(before, mid, size, r) && (r is Some <==> Self::can_provision(before))
                && match r {
                None => Self::queued(mid, after, SupervisorAction::ProvisionFailed(requester)),
                Some((h, rx)) => if mid.entries().dom().contains(requester) {
                    let (chans, res) = send_spec(
                        mid.channels@,
                        mid.entries()[requester] as int,
                        reply_message(requester, h, rx),
                    );
                    &&& after.blox == mid.blox
                    &&& after.next_id == mid.next_id
                    &&& after.pool == mid.pool
                    &&& after.root_spawn_pending == mid.root_spawn_pending
                    &&& after.channels@ == chans
                    &&& res matches Err(e) ==> after.actions@ == mid.actions@.push(
                        SupervisorAction::ReplyFailed(requester, e),
                    )
                    &&& res is Ok ==> after.actions@ == mid.actions@
                } else {
                    after == mid
                },
            }
    }

    /// Builds the supervisor's data with the supervisor (id 0) and the root (id 1) registered.
    pub fn new(args: SupervisorInitArgs) -> (r: Self)
        requires
            args.supervisor_standard_handle.id == SUPERVISOR_ID,
            args.root_standard_handle.id == ROOT_ID,
        ensures
            r.wf(),
            r.next_id == 2,
            r.entries() == Map::<u16, usize>::empty().insert(
                SUPERVISOR_ID,
                args.supervisor_standard_handle.slot,
            ).insert(ROOT_ID, args.root_standard_handle.slot),
            r.entries().len() == 2,
            r.channels@ == args.channels@,
            r.pool == args.pool,
            r.root_spawn_pending == args.has_root_task,
            r.actions@ == Seq::<SupervisorAction>::empty(),
    {
        let mut blox = Registry::empty();
        blox.insert(args.supervisor_standard_handle.id, args.supervisor_standard_handle.slot);
        blox.insert(args.root_standard_handle.id, args.root_standard_handle.slot);
        let r = SupervisorExtendedState {
            blox,
            next_id: 2,
            channels: args.channels,
            pool: args.pool,
            root_spawn_pending: args.has_root_task,
            actions: Vec::new(),
        };
        assert(r.entries().dom() =~= set![SUPERVISOR_ID, ROOT_ID]);
        r
    }

    /// Allocates the next actor id, gives it a channel of `queue_size`
    /// messages (from the pool when there is one; a pooled channel keeps the
    /// pool's size) and registers it. Returns nothing, and changes nothing,
    /// when ids, the arena or the pool are exhausted.
    pub fn request_new_standard_handle(&mut self, queue_size: usize) -> (r: Option<(Handle, Receiver)>)
        ensures
            old(self).wf() ==> final(self).wf(),
            r is Some <==> Self::can_provision(*old(self)),
            Self::provisioned(*old(self), *final(self), queue_size, r),
    {
        if self.next_id == u16::MAX {
            return None;
        }
        let id = self.next_id;
        let (h, rx) = match &mut self.pool {
            None => {
                if self.channels.len() == usize::MAX {
                    return None;
                }
                self.channels.create_channel_with_size(id, queue_size)
            },
            Some(p) => {
                match p.acquire() {
                    None => {
                        return None;
                    },
                    Some(ph) => (Handle { id, slot: ph.slot }, Receiver { slot: ph.slot }),
                }
            },
        };
        self.blox.insert(id, h.slot);
        self.next_id = id + 1;
        Some((h, rx))
    }

    /// Number of registered actors.
    pub fn registry_len(&self) -> (r: usize)
        requires
            self.wf(),
        ensures
            r == self.entries().len(),
    {
        self.blox.len()
    }

    /// The standard handle of actor `id`, if it is registered.
    pub fn lookup(&self, id: u16) -> (r: Option<Handle>)
        ensures
            self.entries().dom().contains(id) ==> r == Some(Handle { id, slot: self.entries()[id] }),
            !self.entries().dom().contains(id) ==> r is None,
    {
        match self.blox.get(id) {
            Some(slot) => Some(Handle { id, slot }),
            None => None,
        }
    }

    /// Serves a request of `requester` for a channel of `size` messages.
    pub fn serve_request(&mut self, requester: u16, size: usize)
        ensures
            old(self).wf() ==> final(self).wf(),
            Self::served(*old(self), *final(self), requester, size),
    {
        let r = self.request_new_standard_handle(size);
        let ghost mid = *self;
        let ghost rg = r;
        match r {
            None => {
                self.actions.push(SupervisorAction::ProvisionFailed(requester));
                assert(Self::provisioned(*old(self), mid, size, rg));
            },
            Some((h, rx)) => {
                match self.blox.get(requester) {
                    None => {
                        assert(Self::provisioned(*old(self), mid, size, rg));
                    },
                    Some(slot) => {
                        let to = Handle { id: requester, slot };
                        let reply = Message::new(SUPERVISOR_ID, requester, StandardPayload::StandardChannel(h, rx));
                        let res = self.channels.try_send(&to, reply);
                        match res {
                            Ok(()) => {},
                            Err(e) => {
                                self.actions.push(SupervisorAction::ReplyFailed(requester, e));
                            },
                        }
                        assert(Self::provisioned(*old(self), mid, size, rg));
                    },
                }
            },
        }
    }
}

/// A request served while ids and channels are left hands out exactly the
/// next id: it is registered and `next_id` moves on by one, whether or not
/// the requester could be answered.
pub proof fn lemma_served_allocates(
    before: SupervisorExtendedState,
    after: SupervisorExtendedState,
    requester: u16,
    size: usize,
)
    requires
        SupervisorExtendedState::served(before, after, requester, size),
        SupervisorExtendedState::can_provision(before),
    ensures
        after.next_id == before.next_id + 1,
        after.entries().dom() == before.entries().dom().insert(before.next_id),
{
    let (mid, r) = choose|mid: SupervisorExtendedState, r: Option<(Handle, Receiver)>|
        #[trigger] SupervisorExtendedState::provisioned(before, mid, size, r)
            && (r is Some <==> SupervisorExtendedState::can_provision(before))
            && match r {
            None => SupervisorExtendedState::queued(mid, after, SupervisorAction::ProvisionFailed(requester)),
            Some((h, rx)) => if mid.entries().dom().contains(requester) {
                let (chans, res) = send_spec(
                    mid.channels@,
                    mid.entries()[requester] as int,
                    reply_message(requester, h, rx),
                );
                &&& after.blox == mid.blox
                &&& after.next_id == mid.next_id
                &&& after.pool == mid.pool
                &&& after.root_spawn_pending == mid.root_spawn_pending
                &&& after.channels@ == chans
                &&& res matches Err(e) ==> after.actions@ == mid.actions@.push(
                    SupervisorAction::ReplyFailed(requester, e),
                )
                &&& res is Ok ==> after.actions@ == mid.actions@
            } else {
                after == mid
            },
        };
    assert(after.entries() == mid.entries());
}

/// Over any run of successful requests from a freshly built supervisor, the
/// ids handed out are 2, 3, 4, ... in order, and the registry holds the
/// supervisor, the root and one entry per request.
pub proof fn lemma_identity_monotonic(
    states: Seq<SupervisorExtendedState>,
    handles: Seq<(Handle, Receiver)>,
    sizes: Seq<usize>,
)
    requires
        states.len() == handles.len() + 1,
        sizes.len() == handles.len(),
        states[0].wf(),
        states[0].next_id == 2,
        states[0].entries().len() == 2,
        forall|j: int|
            0 <= j < handles.len() ==> #[trigger] SupervisorExtendedState::provisioned(
                states[j],
                states[j + 1],
                sizes[j],
                Some(handles[j]),
            ) && states[j + 1].wf(),
    ensures
        forall|k: int| 0 <= k < handles.len() ==> #[trigger] handles[k].0.id == 2 + k,
        forall|j: int, k: int| 0 <= j < k < handles.len() ==> handles[j].0.id < handles[k].0.id,
        states[handles.len() as int].entries().len() == handles.len() + 2,
{
    assert forall|k: int| 0 <= k <= handles.len() implies #[trigger] states[k].next_id == 2 + k
        && states[k].entries().len() == k + 2 by {
        lemma_identity_step(states, handles, sizes, k);
    }
    assert forall|k: int| 0 <= k < handles.len() implies #[trigger] handles[k].0.id == 2 + k by {
        assert(SupervisorExtendedState::provisioned(states[k], states[k + 1], sizes[k], Some(handles[k])));
        assert(states[k].next_id == 2 + k);
    }
    assert forall|j: int, k: int| 0 <= j < k < handles.len() implies handles[j].0.id < handles[k].0.id by {
        assert(handles[j].0.id == 2 + j);
        assert(handles[k].0.id == 2 + k);
    }
    lemma_identity_step(states, handles, sizes, handles.len() as int);
}

proof fn lemma_identity_step(
    states: Seq<SupervisorExtendedState>,
    handles: Seq<(Handle, Receiver)>,
    sizes: Seq<usize>,
    k: int,
)
    requires
        states.len() == handles.len() + 1,
        sizes.len() == handles.len(),
        states[0].wf(),
        states[0].next_id == 2,
        states[0].entries().len() == 2,
        forall|j: int|
            0 <= j < handles.len() ==> #[trigger] SupervisorExtendedState::provisioned(
                states[j],
                states[j + 1],
                sizes[j],
                Some(handles[j]),
            ) && states[j + 1].wf(),
        0 <= k <= handles.len(),
    ensures
        states[k].next_id == 2 + k,
        states[k].entries().len() == k + 2,
        states[k].wf(),
    decreases k,
{
    if k > 0 {
        lemma_identity_step(states, handles, sizes, k - 1);
        let j = k - 1;
        let prev = states[j];
        assert(SupervisorExtendedState::provisioned(states[j], states[j + 1], sizes[j], Some(handles[j])));
        let id = handles[j].0.id;
        assert(!prev.entries().dom().contains(id));
        assert(states[k].entries().dom() == prev.entries().dom().insert(id));
    }
}

// ---------------------------------------------------------------------------
// States

/// The inert start-up node; leaving it spawns the root actor.
#[derive(Clone, Copy, Debug, PartialEq, Eq, Structural)]
pub struct Uninit;

/// The node that serves spawn and channel requests for the rest of the process.
#[derive(Clone, Copy, Debug, PartialEq, Eq, Structural)]
pub struct Running;

/// The supervisor's state tree: `Running` under the root `Uninit`.
#[derive(Clone, Copy, Debug, PartialEq, Eq, Structural)]
pub enum SupervisorStateEnum {
    Uninit(Uninit),
    Running(Running),
}

/// The kind of actor the supervisor is.
pub struct SupervisorComponents;

impl Components for SupervisorComponents {
    type States = SupervisorStateEnum;
    type MessageSet = SupervisorMessageSet;
    type ExtendedState = SupervisorExtendedState;
    type Handles = SupervisorHandles;
    type Receivers = SupervisorReceivers;

    open spec fn initial_spec() -> SupervisorStateEnum {
        SupervisorStateEnum::Uninit(Uninit)
    }

    fn initial_state() -> (r: SupervisorStateEnum) {
        SupervisorStateEnum::Uninit(Uninit)
    }
}

/// Leaving start-up: the root task is queued once. Leaving it with no root
/// task left (none handed over, or already spawned) is a start-up ordering
/// bug, queued for the run loop to abort on.
pub open spec fn root_spawned(before: SupervisorExtendedState, after: SupervisorExtendedState) -> bool {
    if before.root_spawn_pending {
        &&& after.blox == before.blox
        &&& after.next_id == before.next_id
        &&& after.channels@ == before.channels@
        &&& after.pool == before.pool
        &&& !after.root_spawn_pending
        &&& after.actions@ == before.actions@.push(SupervisorAction::SpawnRoot)
    } else {
        SupervisorExtendedState::queued(before, after, SupervisorAction::RootTaskMissing)
    }
}

impl Uninit {
    /// Queues the root actor's task for spawning, once; a later call queues
    /// `RootTaskMissing` instead.
    pub fn spawn_root(&self, data: &mut SupervisorExtendedState)
        ensures
            root_spawned(*old(data), *final(data)),
            final(data).wf() == old(data).wf(),
    {
        if data.root_spawn_pending {
            data.root_spawn_pending = false;
            data.actions.push(SupervisorAction::SpawnRoot);
        } else {
            data.actions.push(SupervisorAction::RootTaskMissing);
        }
    }
}

impl State<SupervisorComponents> for Uninit {
    open spec fn parent_spec(&self) -> SupervisorStateEnum {
        SupervisorStateEnum::Uninit(Uninit)
    }

    open spec fn handles(
        &self,
        before: SupervisorExtendedState,
        msg: SupervisorMessageSet,
        after: SupervisorExtendedState,
        t: Option<Transition<SupervisorStateEnum>>,
    ) -> bool {
        after == before && t is None
    }

    open spec fn enters(&self, before: SupervisorExtendedState, after: SupervisorExtendedState) -> bool {
        after == before
    }

    open spec fn exits(&self, before: SupervisorExtendedState, after: SupervisorExtendedState) -> bool {
        root_spawned(before, after)
    }

    fn parent(&self) -> (r: SupervisorStateEnum) {
        SupervisorStateEnum::Uninit(Uninit)
    }

    fn handle_message(&self, data: &mut SupervisorExtendedState, msg: SupervisorMessageSet) -> (t: Option<
        Transition<SupervisorStateEnum>,
    >) {
        None
    }

    fn on_entry(&self, data: &mut SupervisorExtendedState) {
    }

    fn on_exit(&self, data: &mut SupervisorExtendedState) {
        self.spawn_root(data);
    }
}

impl Running {
    /// Queues the unit of work kept under `task` for spawning.
    pub fn spawn_blox(&self, data: &mut SupervisorExtendedState, task: usize)
        ensures
            SupervisorExtendedState::queued(*old(data), *final(data), SupervisorAction::Spawn(task)),
    {
        data.actions.push(SupervisorAction::Spawn(task));
    }

    /// Queues the thread-bound unit of work kept under `task` for spawning.
    pub fn spawn_blox_local(&self, data: &mut SupervisorExtendedState, task: usize)
        ensures
            SupervisorExtendedState::queued(*old(data), *final(data), SupervisorAction::SpawnLocal(task)),
    {
        data.actions.push(SupervisorAction::SpawnLocal(task));
    }
}

/// What the running supervisor does with one message: spawn requests are
/// queued, channel requests served, everything else absorbed. It never moves.
pub open spec fn running_handles(
    before: SupervisorExtendedState,
    msg: SupervisorMessageSet,
    after: SupervisorExtendedState,
) -> bool {
    match msg {
        SupervisorMessageSet::SupervisorMessage(m) => match m.payload {
            SupervisorPayload::Spawn(task) => SupervisorExtendedState::queued(
                before,
                after,
                SupervisorAction::Spawn(task),
            ),
            SupervisorPayload::SpawnLocal(task) => SupervisorExtendedState::queued(
                before,
                after,
                SupervisorAction::SpawnLocal(task),
            ),
            SupervisorPayload::RequestNewStandardHandle(size) => SupervisorExtendedState::served(
                before,
                after,
                m.source_id,
                size,
            ),
        },
        SupervisorMessageSet::StandardMessage(_) => after == before,
    }
}

impl State<SupervisorComponents> for Running {
    open spec fn parent_spec(&self) -> SupervisorStateEnum {
        SupervisorStateEnum::Uninit(Uninit)
    }

    open spec fn handles(
        &self,
        before: SupervisorExtendedState,
        msg: SupervisorMessageSet,
        after: SupervisorExtendedState,
        t: Option<Transition<SupervisorStateEnum>>,
    ) -> bool {
        running_handles(before, msg, after) && t is None
    }

    open spec fn enters(&self, before: SupervisorExtendedState, after: SupervisorExtendedState) -> bool {
        after == before
    }

    open spec fn exits(&self, before: SupervisorExtendedState, after: SupervisorExtendedState) -> bool {
        after == before
    }

    fn parent(&self) -> (r: SupervisorStateEnum) {
        SupervisorStateEnum::Uninit(Uninit)
    }

    fn handle_message(&self, data: &mut SupervisorExtendedState, msg: SupervisorMessageSet) -> (t: Option<
        Transition<SupervisorStateEnum>,
    >) {
        match msg {
            SupervisorMessageSet::SupervisorMessage(m) => match m.payload {
                SupervisorPayload::Spawn(task) => {
                    self.spawn_blox(data, task);
                },
                SupervisorPayload::SpawnLocal(task) => {
                    self.spawn_blox_local(data, task);
                },
                SupervisorPayload::RequestNewStandardHandle(size) => {
                    data.serve_request(m.source_id, size);
                },
            },
            SupervisorMessageSet::StandardMessage(_) => {},
        }
        None
    }

    fn on_entry(&self, data: &mut SupervisorExtendedState) {
    }

    fn on_exit(&self, data: &mut SupervisorExtendedState) {
    }
}

impl State<SupervisorComponents> for SupervisorStateEnum {
    open spec fn parent_spec(&self) -> SupervisorStateEnum {
        match self {
            SupervisorStateEnum::Uninit(s) => s.parent_spec(),
            SupervisorStateEnum::Running(s) => s.parent_spec(),
        }
    }

    open spec fn handles(
        &self,
        before: SupervisorExtendedState,
        msg: SupervisorMessageSet,
        after: SupervisorExtendedState,
        t: Option<Transition<SupervisorStateEnum>>,
    ) -> bool {
        match self {
            SupervisorStateEnum::Uninit(s) => s.handles(before, msg, after, t),
            SupervisorStateEnum::Running(s) => s.handles(before, msg, after, t),
        }
    }

    open spec fn enters(&self, before: SupervisorExtendedState, after: SupervisorExtendedState) -> bool {
        match self {
            SupervisorStateEnum::Uninit(s) => s.enters(before, after),
            SupervisorStateEnum::Running(s) => s.enters(before, after),
        }
    }

    open spec fn exits(&self, before: SupervisorExtendedState, after: SupervisorExtendedState) -> bool {
        match self {
            SupervisorStateEnum::Uninit(s) => s.exits(before, after),
            SupervisorStateEnum::Running(s) => s.exits(before, after),
        }
    }

    fn parent(&self) -> (r: SupervisorStateEnum) {
        match self {
            SupervisorStateEnum::Uninit(s) => s.parent(),
            SupervisorStateEnum::Running(s) => s.parent(),
        }
    }

    fn handle_message(&self, data: &mut SupervisorExtendedState, msg: SupervisorMessageSet) -> (t: Option<
        Transition<SupervisorStateEnum>,
    >) {
        match self {
            SupervisorStateEnum::Uninit(s) => s.handle_message(data, msg),
            SupervisorStateEnum::Running(s) => s.handle_message(data, msg),
        }
    }

    fn on_entry(&self, data: &mut SupervisorExtendedState) {
        match self {
            SupervisorStateEnum::Uninit(s) => s.on_entry(data),
            SupervisorStateEnum::Running(s) => s.on_entry(data),
        }
    }

    fn on_exit(&self, data: &mut SupervisorExtendedState) {
        match self {
            SupervisorStateEnum::Uninit(s) => s.on_exit(data),
            SupervisorStateEnum::Running(s) => s.on_exit(data),
        }
    }
}

} // verus!
