//! A fixed set of reusable channels, for targets where channels cannot be made at run time.
use vstd::prelude::*;
use crate::messaging::{ChannelModel, Channels, Handle};

verus! {

/// Number of slots marked in use.
pub open spec fn count_in_use(s: Seq<bool>) -> nat
    decreases s.len(),
{
    if s.len() == 0 {
        0
    } else {
        count_in_use(s.drop_last()) + if s.last() { 1nat } else { 0nat }
    }
}

/// Number of slots free to be acquired.
pub open spec fn count_free(s: Seq<bool>) -> nat
    decreases s.len(),
{
    if s.len() == 0 {
        0
    } else {
        count_free(s.drop_last()) + if s.last() { 0nat } else { 1nat }
    }
}

/// `i` is the lowest free slot of `before`, and `after` is `before` with it taken.
pub open spec fn acquired_at(before: Seq<bool>, after: Seq<bool>, i: int) -> bool {
    &&& 0 <= i < before.len()
    &&& !before[i]
    &&& forall|j: int| 0 <= j < i ==> before[j]
    &&& after == before.update(i, true)
}

proof fn lemma_counts_sum(s: Seq<bool>)
    ensures
        count_in_use(s) + count_free(s) == s.len(),
    decreases s.len(),
{
    if s.len() > 0 {
        lemma_counts_sum(s.drop_last());
    }
}

proof fn lemma_take_free(s: Seq<bool>, i: int)
    requires
        0 <= i < s.len(),
        !s[i],
    ensures
        count_in_use(s.update(i, true)) == count_in_use(s) + 1,
        count_free(s.update(i, true)) + 1 == count_free(s),
    decreases s.len(),
{
    let t = s.update(i, true);
    if i == s.len() - 1 {
        assert(t.drop_last() =~= s.drop_last());
    } else {
        assert(t.drop_last() =~= s.drop_last().update(i, true));
        lemma_take_free(s.drop_last(), i);
    }
}

proof fn lemma_give_back(s: Seq<bool>, i: int)
    requires
        0 <= i < s.len(),
        s[i],
    ensures
        count_in_use(s.update(i, false)) + 1 == count_in_use(s),
        count_free(s.update(i, false)) == count_free(s) + 1,
    decreases s.len(),
{
    let t = s.update(i, false);
    if i == s.len() - 1 {
        assert(t.drop_last() =~= s.drop_last());
    } else {
        assert(t.drop_last() =~= s.drop_last().update(i, false));
        lemma_give_back(s.drop_last(), i);
    }
}

proof fn lemma_all_used_none_free(s: Seq<bool>)
    requires
        forall|j: int| 0 <= j < s.len() ==> s[j],
    ensures
        count_free(s) == 0,
    decreases s.len(),
{
    if s.len() > 0 {
        lemma_all_used_none_free(s.drop_last());
    }
}

proof fn lemma_none_used(s: Seq<bool>)
    requires
        forall|j: int| 0 <= j < s.len() ==> !s[j],
    ensures
        count_free(s) == s.len(),
        count_in_use(s) == 0,
    decreases s.len(),
{
    if s.len() > 0 {
        lemma_none_used(s.drop_last());
    }
}

/// No arena channel stands for two pool slots.
pub open spec fn slots_distinct(s: Seq<usize>) -> bool {
    forall|i: int, j: int| 0 <= i < s.len() && 0 <= j < s.len() && i != j ==> #[trigger] s[i] != #[trigger] s[j]
}

/// A pool of `capacity` channels of one arena. Each pool slot `i` owns arena
/// channel `slots[i]`; `in_use[i]` says whether it is handed out.
pub struct ChannelPool {
    slots: Vec<usize>,
    in_use: Vec<bool>,
}

impl View for ChannelPool {
    type V = Seq<bool>;

    /// Which pool slots are handed out.
    closed spec fn view(&self) -> Seq<bool> {
        self.in_use@
    }
}

impl ChannelPool {
    /// Arena channel that pool slot `i` stands for.
    pub open spec fn slot_of(&self, i: int) -> usize {
        self.slot_list()[i]
    }

    /// Arena channels of the pool, by pool slot.
    pub closed spec fn slot_list(&self) -> Seq<usize> {
        self.slots@
    }

    #[verifier::type_invariant]
    spec fn wf(&self) -> bool {
        &&& self.slots@.len() == self.in_use@.len()
        &&& self.in_use@.len() <= u16::MAX
        &&& forall|i: int, j: int|
            0 <= i < self.slots@.len() && 0 <= j < self.slots@.len() && i != j
                ==> #[trigger] self.slots@[i] != #[trigger] self.slots@[j]
    }

    /// Every channel of the pool exists in `channels`.
    pub closed spec fn fits<P>(&self, channels: Seq<ChannelModel<P>>) -> bool {
        forall|i: int| 0 <= i < self.slots@.len() ==> #[trigger] self.slots@[i] < channels.len()
    }

    pub open spec fn capacity(&self) -> nat {
        self@.len()
    }

    /// Creates `capacity` fresh channels of `size` messages each in `channels`, all free.
    pub fn new<P>(channels: &mut Channels<P>, capacity: u16, size: usize) -> (r: Self)
        requires
            old(channels)@.len() + capacity < usize::MAX,
        ensures
            r.fits(final(channels)@),
            slots_distinct(r.slot_list()),
            r.slot_list().len() == capacity,
            r.capacity() == capacity,
            forall|i: int| 0 <= i < capacity ==> !#[trigger] r@[i],
            forall|i: int| 0 <= i < capacity ==> #[trigger] r.slot_of(i) == old(channels)@.len() + i,
            count_free(r@) == capacity,
            count_in_use(r@) == 0,
            final(channels)@.len() == old(channels)@.len() + capacity,
            final(channels)@.subrange(0, old(channels)@.len() as int) == old(channels)@,
            forall|i: int|
                old(channels)@.len() <= i < final(channels)@.len() ==> #[trigger] final(channels)@[i]
                    == (ChannelModel::<P> { items: Seq::empty(), capacity: size as nat, open: true }),
    {
        let mut slots: Vec<usize> = Vec::new();
        let mut in_use: Vec<bool> = Vec::new();
        let base = channels.len();
        let mut k: u16 = 0;
        while k < capacity
            invariant
                k <= capacity,
                base == old(channels)@.len(),
                base + capacity < usize::MAX,
                slots@.len() == k,
                in_use@.len() == k,
                channels@.len() == base + k,
                forall|i: int| 0 <= i < k ==> #[trigger] slots@[i] == base + i,
                forall|i: int| 0 <= i < k ==> !#[trigger] in_use@[i],
                channels@.subrange(0, base as int) == old(channels)@,
                forall|i: int|
                    base <= i < channels@.len() ==> #[trigger] channels@[i]
                        == (ChannelModel::<P> { items: Seq::empty(), capacity: size as nat, open: true }),
            decreases capacity - k,
        {
            let ghost before = channels@;
            let (h, _rx) = channels.create_channel_with_size(k, size);
            assert(channels@.subrange(0, base as int) =~= before.subrange(0, base as int));
            slots.push(h.slot);
            in_use.push(false);
            k = k + 1;
        }
        let r = ChannelPool { slots, in_use };
        proof {
            lemma_none_used(r@);
        }
        r
    }

    /// Hands out the lowest free slot's channel, tagged with its pool index, or
    /// nothing when every slot is out. Never grows the pool.
    pub fn acquire(&mut self) -> (r: Option<Handle>)
        ensures
            final(self).slot_list() == old(self).slot_list(),
            slots_distinct(old(self).slot_list()),
            old(self).slot_list().len() == old(self)@.len(),
            r is None <==> count_free(old(self)@) == 0,
            r is None ==> *final(self) == *old(self),
            r matches Some(h) ==> {
                &&& acquired_at(old(self)@, final(self)@, h.id as int)
                &&& h.slot == old(self).slot_of(h.id as int)
                &&& h.slot == final(self).slot_of(h.id as int)
                &&& count_free(final(self)@) + 1 == count_free(old(self)@)
                &&& count_in_use(final(self)@) == count_in_use(old(self)@) + 1
            },
    {
        proof {
            use_type_invariant(&*self);
        }
        let n = self.in_use.len();
        let mut i: usize = 0;
        while i < n
            invariant
                n == self.in_use@.len(),
                *self == *old(self),
                self.wf(),
                i <= n,
                forall|j: int| 0 <= j < i ==> self@[j],
            decreases n - i,
        {
            if !self.in_use[i] {
                let slot = self.slots[i];
                self.in_use[i] = true;
                proof {
                    lemma_take_free(old(self)@, i as int);
                }
                return Some(Handle { id: i as u16, slot });
            }
            i = i + 1;
        }
        proof {
            lemma_all_used_none_free(self@);
        }
        None
    }

    /// Returns the channel of `handle` to the free set. A handle whose channel is
    /// not an outstanding slot of this pool leaves the pool as it was.
    pub fn release(&mut self, handle: Handle)
        ensures
            final(self).slot_list() == old(self).slot_list(),
            slots_distinct(old(self).slot_list()),
            old(self).slot_list().len() == old(self)@.len(),
            forall|i: int|
                0 <= i < old(self)@.len() && #[trigger] old(self).slot_of(i) == handle.slot && old(self)@[i]
                    ==> final(self)@ == old(self)@.update(i, false),
            (exists|i: int|
                0 <= i < old(self)@.len() && old(self).slot_of(i) == handle.slot && old(self)@[i])
                ==> exists|i: int|
                0 <= i < old(self)@.len() && #[trigger] old(self).slot_of(i) == handle.slot
                    && final(self)@ == old(self)@.update(i, false)
                    && count_free(final(self)@) == count_free(old(self)@) + 1,
            !(exists|i: int|
                0 <= i < old(self)@.len() && old(self).slot_of(i) == handle.slot && old(self)@[i])
                ==> final(self)@ == old(self)@,
    {
        proof {
            use_type_invariant(&*self);
        }
        let n = self.slots.len();
        let mut i: usize = 0;
        while i < n
            invariant
                n == self.slots@.len(),
                *self == *old(self),
                self.wf(),
                i <= n,
                forall|j: int| 0 <= j < i ==> self.slots@[j] != handle.slot,
            decreases n - i,
        {
            if self.slots[i] == handle.slot {
                if self.in_use[i] {
                    self.in_use[i] = false;
                    proof {
                        lemma_give_back(old(self)@, i as int);
                        assert(old(self).slot_of(i as int) == handle.slot && old(self)@[i as int]);
                    }
                } else {
                    assert(forall|j: int|
                        0 <= j < old(self)@.len() && old(self).slot_of(j) == handle.slot ==> j == i);
                }
                return;
            }
            i = i + 1;
        }
    }

    /// Number of slots handed out and not yet released.
    pub fn outstanding(&self) -> (r: usize)
        ensures
            r == count_in_use(self@),
    {
        proof {
            use_type_invariant(self);
        }
        let mut c: usize = 0;
        let mut i: usize = 0;
        while i < self.in_use.len()
            invariant
                i <= self@.len(),
                self@.len() <= u16::MAX,
                c == count_in_use(self@.subrange(0, i as int)),
                c <= i,
            decreases self@.len() - i,
        {
            let ghost s = self@.subrange(0, i as int + 1);
            assert(s.drop_last() =~= self@.subrange(0, i as int));
            if self.in_use[i] {
                c = c + 1;
            }
            i = i + 1;
        }
        assert(self@.subrange(0, i as int) =~= self@);
        c
    }

    /// Number of slots that `acquire` may still hand out.
    pub fn available(&self) -> (r: usize)
        ensures
            r == count_free(self@),
            r + count_in_use(self@) == self.capacity(),
    {
        let used = self.outstanding();
        proof {
            lemma_counts_sum(self@);
        }
        self.in_use.len() - used
    }
}

/// At every moment the slots handed out and the slots free add up to the pool's capacity.
pub proof fn lemma_pool_conservation(pool: ChannelPool)
    ensures
        count_in_use(pool@) + count_free(pool@) == pool.capacity(),
{
    lemma_counts_sum(pool@);
}

/// Starting from a pool of `c` free slots, `c` acquisitions in a row with no
/// release leave no free slot, so the next `acquire` hands out nothing.
pub proof fn lemma_pool_exhaustion(states: Seq<Seq<bool>>, picked: Seq<int>, c: nat)
    requires
        states.len() == c + 1,
        picked.len() == c,
        states[0].len() == c,
        forall|j: int| 0 <= j < c ==> !#[trigger] states[0][j],
        forall|k: int| 0 <= k < c ==> acquired_at(#[trigger] states[k], states[k + 1], picked[k]),
    ensures
        count_free(states[c as int]) == 0,
{
    assert forall|k: int| 0 <= k <= c implies #[trigger] count_free(states[k]) + k == c
        && states[k].len() == c by {
        lemma_exhaustion_step(states, picked, c, k);
    }
}

proof fn lemma_exhaustion_step(states: Seq<Seq<bool>>, picked: Seq<int>, c: nat, k: int)
    requires
        states.len() == c + 1,
        picked.len() == c,
        states[0].len() == c,
        forall|j: int| 0 <= j < c ==> !#[trigger] states[0][j],
        forall|k: int| 0 <= k < c ==> acquired_at(#[trigger] states[k], states[k + 1], picked[k]),
        0 <= k <= c,
    ensures
        count_free(states[k]) + k == c,
        states[k].len() == c,
    decreases k,
{
    if k == 0 {
        lemma_none_used(states[0]);
    } else {
        lemma_exhaustion_step(states, picked, c, k - 1);
        assert(acquired_at(states[k - 1], states[k], picked[k - 1]));
        lemma_take_free(states[k - 1], picked[k - 1]);
    }
}

} // verus!
