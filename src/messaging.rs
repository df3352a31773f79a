//! Messages, handles and the arena of bounded channels they address.
use vstd::prelude::*;

verus! {

/// Address of an actor within one supervisor's registry.
pub type ActorId = u16;

/// Id reserved for the supervisor.
pub const SUPERVISOR_ID: u16 = 0;

/// Id reserved for the root actor.
pub const ROOT_ID: u16 = 1;

/// Capacity given to channels when the caller has no better figure.
pub const DEFAULT_CHANNEL_SIZE: usize = 8;

/// A typed message travelling from one actor to another.
pub struct Message<P> {
    pub source_id: u16,
    pub dest_id: u16,
    pub payload: P,
}

impl<P> Message<P> {
    pub fn new(source_id: u16, dest_id: u16, payload: P) -> (r: Self)
        ensures
            r.source_id == source_id,
            r.dest_id == dest_id,
            r.payload == payload,
    {
        Message { source_id, dest_id, payload }
    }

    pub fn source_id(&self) -> (r: u16)
        ensures
            r == self.source_id,
    {
        self.source_id
    }

    pub fn dest_id(&self) -> (r: u16)
        ensures
            r == self.dest_id,
    {
        self.dest_id
    }
}

/// The right to enqueue into one channel of an arena, tagged with the id of
/// the actor it addresses. Copying a handle copies the right, never capacity.
#[derive(Clone, Copy, Debug, PartialEq, Eq, Structural)]
pub struct Handle {
    pub id: u16,
    pub slot: usize,
}

/// The receiving end of one channel of an arena.
#[derive(Debug, PartialEq, Eq, Structural)]
pub struct Receiver {
    pub slot: usize,
}

/// Why a non-blocking send did not enqueue.
#[derive(Clone, Copy, Debug, PartialEq, Eq, Structural)]
pub enum SendError {
    /// The destination queue holds as many messages as its capacity.
    Full,
    /// The destination does not exist or its receiver was dropped.
    Closed,
}

/// What one channel holds, as seen by contracts.
pub ghost struct ChannelModel<P> {
    pub items: Seq<Message<P>>,
    pub capacity: nat,
    pub open: bool,
}

/// Outcome of a non-blocking send into slot `slot` of `chans`.
pub open spec fn send_spec<P>(chans: Seq<ChannelModel<P>>, slot: int, m: Message<P>) -> (
    Seq<ChannelModel<P>>,
    Result<(), SendError>,
) {
    if slot < 0 || slot >= chans.len() || !chans[slot].open {
        (chans, Err(SendError::Closed))
    } else if chans[slot].items.len() >= chans[slot].capacity {
        (chans, Err(SendError::Full))
    } else {
        (chans.update(slot, ChannelModel { items: chans[slot].items.push(m), ..chans[slot] }), Ok(()))
    }
}

/// Outcome of a non-blocking receive from slot `slot` of `chans`: the oldest message leaves first.
pub open spec fn receive_spec<P>(chans: Seq<ChannelModel<P>>, slot: int) -> (
    Seq<ChannelModel<P>>,
    Option<Message<P>>,
) {
    if slot < 0 || slot >= chans.len() || chans[slot].items.len() == 0 {
        (chans, None)
    } else {
        (
            chans.update(slot, ChannelModel { items: chans[slot].items.remove(0), ..chans[slot] }),
            Some(chans[slot].items[0]),
        )
    }
}

/// Two messages sent one after the other on one channel stand one after the
/// other at its back, the first ahead of the second.
pub proof fn lemma_send_order<P>(chans: Seq<ChannelModel<P>>, slot: int, m1: Message<P>, m2: Message<P>)
    requires
        send_spec(chans, slot, m1).1 is Ok,
        send_spec(send_spec(chans, slot, m1).0, slot, m2).1 is Ok,
    ensures
        ({
            let after = send_spec(send_spec(chans, slot, m1).0, slot, m2).0;
            let k = chans[slot].items.len() as int;
            &&& after[slot].items[k] == m1
            &&& after[slot].items[k + 1] == m2
        }),
{
}

/// While two messages wait on one channel, the older ahead of the newer,
/// neither a send to any channel nor a receive reorders them; a receive hands
/// out the older one before the newer one can leave.
pub proof fn lemma_order_kept<P>(chans: Seq<ChannelModel<P>>, slot: int, i: int, j: int, other: int, m: Message<P>)
    requires
        0 <= slot < chans.len(),
        0 <= i < j < chans[slot].items.len(),
    ensures
        ({
            let after = send_spec(chans, other, m).0;
            &&& after[slot].items[i] == chans[slot].items[i]
            &&& after[slot].items[j] == chans[slot].items[j]
            &&& after[slot].items.len() >= chans[slot].items.len()
        }),
        ({
            let (after, got) = receive_spec(chans, slot);
            if i == 0 {
                &&& got == Some(chans[slot].items[i])
                &&& after[slot].items[j - 1] == chans[slot].items[j]
            } else {
                &&& after[slot].items[i - 1] == chans[slot].items[i]
                &&& after[slot].items[j - 1] == chans[slot].items[j]
            }
        }),
{
}

struct Slot<P> {
    items: Vec<Message<P>>,
    capacity: usize,
    open: bool,
}

impl<P> Slot<P> {
    closed spec fn model(&self) -> ChannelModel<P> {
        ChannelModel { items: self.items@, capacity: self.capacity as nat, open: self.open }
    }
}

/// An arena of bounded FIFO channels, addressed by slot index.
/// Slots are only ever added, so a handle stays meaningful for the arena's lifetime.
pub struct Channels<P> {
    slots: Vec<Slot<P>>,
}

impl<P> View for Channels<P> {
    type V = Seq<ChannelModel<P>>;

    closed spec fn view(&self) -> Seq<ChannelModel<P>> {
        self.slots@.map_values(|s: Slot<P>| s.model())
    }
}

impl<P> Channels<P> {
    pub fn new() -> (r: Self)
        ensures
            r@ == Seq::<ChannelModel<P>>::empty(),
    {
        let r = Channels { slots: Vec::new() };
        assert(r@ =~= Seq::<ChannelModel<P>>::empty());
        r
    }

    /// Number of channels ever created in this arena.
    pub fn len(&self) -> (r: usize)
        ensures
            r == self@.len(),
    {
        self.slots.len()
    }

    /// Creates an open, empty channel of capacity `size` for actor `id`.
    pub fn create_channel_with_size(&mut self, id: u16, size: usize) -> (r: (Handle, Receiver))
        requires
            old(self)@.len() < usize::MAX,
        ensures
            r.0.id == id,
            r.0.slot == old(self)@.len(),
            r.1.slot == old(self)@.len(),
            final(self)@ == old(self)@.push(
                ChannelModel { items: Seq::empty(), capacity: size as nat, open: true },
            ),
    {
        let slot = self.slots.len();
        self.slots.push(Slot { items: Vec::new(), capacity: size, open: true });
        assert(self@ =~= old(self)@.push(
            ChannelModel { items: Seq::empty(), capacity: size as nat, open: true },
        ));
        (Handle { id, slot }, Receiver { slot })
    }

    /// Enqueues `message` on the channel that `handle` addresses, without waiting.
    pub fn try_send(&mut self, handle: &Handle, message: Message<P>) -> (r: Result<(), SendError>)
        ensures
            (final(self)@, r) == send_spec(old(self)@, handle.slot as int, message),
    {
        let i = handle.slot;
        if i >= self.slots.len() || !self.slots[i].open {
            return Err(SendError::Closed);
        }
        if self.slots[i].items.len() >= self.slots[i].capacity {
            return Err(SendError::Full);
        }
        let ghost m = message;
        self.slots[i].items.push(message);
        assert(self@ =~= old(self)@.update(
            i as int,
            ChannelModel { items: old(self)@[i as int].items.push(m), ..old(self)@[i as int] },
        ));
        Ok(())
    }

    /// Takes the oldest message of the channel that `rx` receives from, if any.
    pub fn try_receive(&mut self, rx: &Receiver) -> (r: Option<Message<P>>)
        ensures
            (final(self)@, r) == receive_spec(old(self)@, rx.slot as int),
    {
        let i = rx.slot;
        if i >= self.slots.len() || self.slots[i].items.len() == 0 {
            return None;
        }
        let m = self.slots[i].items.remove(0);
        assert(self@ =~= old(self)@.update(
            i as int,
            ChannelModel { items: old(self)@[i as int].items.remove(0), ..old(self)@[i as int] },
        ));
        Some(m)
    }

    /// Drops the receiving end: later sends to the channel fail as `Closed`.
    pub fn close(&mut self, rx: Receiver)
        ensures
            rx.slot < old(self)@.len() ==> final(self)@ == old(self)@.update(
                rx.slot as int,
                ChannelModel { open: false, ..old(self)@[rx.slot as int] },
            ),
            rx.slot >= old(self)@.len() ==> final(self)@ == old(self)@,
    {
        self.close_slot(rx.slot);
    }

    /// Closes the channel of `slot`, as when its last sender or its receiver
    /// is gone: later sends fail as `Closed`, waiting messages stay receivable.
    pub fn close_slot(&mut self, slot: usize)
        ensures
            slot < old(self)@.len() ==> final(self)@ == old(self)@.update(
                slot as int,
                ChannelModel { open: false, ..old(self)@[slot as int] },
            ),
            slot >= old(self)@.len() ==> final(self)@ == old(self)@,
    {
        if slot < self.slots.len() {
            self.slots[slot].open = false;
            assert(self@ =~= old(self)@.update(
                slot as int,
                ChannelModel { open: false, ..old(self)@[slot as int] },
            ));
        }
    }

    /// Whether the channel of `slot` exists and still accepts sends.
    pub fn is_open(&self, slot: usize) -> (r: bool)
        ensures
            r == (slot < self@.len() && self@[slot as int].open),
    {
        slot < self.slots.len() && self.slots[slot].open
    }

    /// Number of messages waiting in the channel of `slot` (zero for an unknown slot).
    pub fn queued(&self, slot: usize) -> (r: usize)
        ensures
            slot < self@.len() ==> r == self@[slot as int].items.len(),
            slot >= self@.len() ==> r == 0,
    {
        if slot < self.slots.len() {
            self.slots[slot].items.len()
        } else {
            0
        }
    }
}

impl Handle {
    /// The id of the actor this handle addresses.
    pub fn id(&self) -> (r: u16)
        ensures
            r == self.id,
    {
        self.id
    }

    /// Enqueues `message` without waiting; a full or missing destination is reported, never retried.
    pub fn try_send<P>(&self, channels: &mut Channels<P>, message: Message<P>) -> (r: Result<(), SendError>)
        ensures
            (final(channels)@, r) == send_spec(old(channels)@, self.slot as int, message),
    {
        channels.try_send(self, message)
    }

    /// Makes a matched sender and receiver for actor `id`, holding at most `size` messages.
    pub fn create_channel_with_size<P>(channels: &mut Channels<P>, id: u16, size: usize) -> (r: (Handle, Receiver))
        requires
            old(channels)@.len() < usize::MAX,
        ensures
            r.0.id == id,
            r.0.slot == old(channels)@.len(),
            r.1.slot == old(channels)@.len(),
            final(channels)@ == old(channels)@.push(
                ChannelModel { items: Seq::empty(), capacity: size as nat, open: true },
            ),
    {
        channels.create_channel_with_size(id, size)
    }
}

} // verus!
