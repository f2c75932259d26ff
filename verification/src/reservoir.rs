//! The buffers that a task keeps alive for a while.
//!
//! A reservoir holds at most `capacity` buffers. A buffer that arrives at a
//! full reservoir pushes one out: the victim is drawn at random among all
//! buffers held at that moment, the newcomer included, and the last buffer
//! takes the victim's slot. The order of the buffers means nothing.

use vstd::prelude::*;
use vstd::seq_lib::{to_multiset_remove, to_multiset_update};

use crate::buffer::Buffer;
use crate::params::RESERVE_MAX;
use crate::rng::TaskRng;

verus! {

/// `s` after the element at `index` left it and the last element took its
/// place.
pub open spec fn swap_removed<T>(s: Seq<T>, index: int) -> Seq<T>
    recommends
        0 <= index < s.len(),
{
    s.update(index, s.last()).drop_last()
}

/// `std::hint::black_box`: the value itself, which the optimizer must take
/// as used.
#[verifier::external_body]
fn opaque(held: Vec<Buffer>) -> (same: Vec<Buffer>)
    ensures
        same == held,
{
    std::hint::black_box(held)
}

/// The buffers that one task holds on to, and how many it may hold.
pub struct Reservoir {
    held: Vec<Buffer>,
    capacity: usize,
}

impl View for Reservoir {
    type V = Seq<Seq<u8>>;

    /// The bytes of each buffer held, by slot.
    closed spec fn view(&self) -> Seq<Seq<u8>> {
        self.held@.map_values(|b: Buffer| b@)
    }
}

impl Reservoir {
    /// The most buffers the reservoir may hold.
    pub closed spec fn cap(self) -> usize {
        self.capacity
    }

    /// No more buffers are held than the capacity allows.
    pub open spec fn wf(self) -> bool {
        self@.len() <= self.cap()
    }

    /// An empty reservoir for at most `capacity` buffers. Room is set aside
    /// for `capacity` buffers, but for one at least and for `RESERVE_MAX` at
    /// most; a larger reservoir grows as it fills.
    pub fn new(capacity: usize) -> (r: Reservoir)
        ensures
            r.wf(),
            r.cap() == capacity,
            r@ == Seq::<Seq<u8>>::empty(),
    {
        let slots = if capacity == 0 {
            1
        } else if capacity > RESERVE_MAX {
            RESERVE_MAX
        } else {
            capacity
        };
        Reservoir { held: Vec::with_capacity(slots), capacity }
    }

    pub fn capacity(&self) -> (capacity: usize)
        ensures
            capacity == self.cap(),
    {
        self.capacity
    }

    /// The number of buffers held, which never exceeds the capacity.
    pub fn len(&self) -> (len: usize)
        requires
            self.wf(),
        ensures
            len == self@.len(),
            len <= self.cap(),
    {
        self.held.len()
    }

    /// The buffer in slot `index`.
    pub fn slot(&self, index: usize) -> (buf: &Buffer)
        requires
            index < self@.len(),
        ensures
            buf@ == self@[index as int],
    {
        &self.held[index]
    }

    /// Releases the buffer in slot `victim`; the buffer in the last slot
    /// takes its place.
    pub fn evict(&mut self, victim: usize)
        requires
            victim < old(self)@.len(),
        ensures
            final(self)@ == swap_removed(old(self)@, victim as int),
            final(self)@.len() == old(self)@.len() - 1,
            final(self).cap() == old(self).cap(),
    {
        let _ = self.held.swap_remove(victim);
    }

    /// Takes `buf` in. Where the reservoir was full, one of the buffers now
    /// held, `buf` among them, is drawn from `rng` and evicted, and the
    /// result says so.
    pub fn retain(&mut self, buf: Buffer, rng: &mut TaskRng) -> (evicted: bool)
        requires
            old(self).wf(),
        ensures
            final(self).wf(),
            final(self).cap() == old(self).cap(),
            evicted == (old(self)@.len() == old(self).cap()),
            !evicted ==> final(self)@ == old(self)@.push(buf@),
            evicted ==> exists|victim: int|
                0 <= victim <= old(self)@.len() && final(self)@ == swap_removed(
                    old(self)@.push(buf@),
                    victim,
                ),
            final(self).cap() == 0 ==> final(self)@.len() == 0,
            final(rng).seed() == old(rng).seed(),
    {
        self.held.push(buf);
        assert(self@ =~= old(self)@.push(buf@));
        if self.held.len() > self.capacity {
            let victim = rng.victim(self.held.len());
            self.evict(victim);
            true
        } else {
            false
        }
    }

    /// Releases every buffer still held and says how many there were.
    pub fn release_all(self) -> (released: usize)
        ensures
            released == self@.len(),
    {
        let released = self.held.len();
        let _ = opaque(self.held);
        released
    }
}

/// Eviction takes exactly the victim away: every other buffer stays, as
/// often as it was held.
pub proof fn lemma_evict_removes_victim<T>(s: Seq<T>, index: int)
    requires
        0 <= index < s.len(),
    ensures
        swap_removed(s, index).len() == s.len() - 1,
        swap_removed(s, index).to_multiset() == s.to_multiset().remove(s[index]),
{
    broadcast use vstd::multiset::group_multiset_axioms;

    let moved = s.update(index, s.last());
    to_multiset_update(s, index, s.last());
    assert(moved.drop_last() =~= moved.remove(s.len() - 1));
    to_multiset_remove(moved, s.len() - 1);
    assert(swap_removed(s, index).to_multiset() =~= s.to_multiset().remove(s[index]));
}

} // verus!
