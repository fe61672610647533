//! Hazard pairs: the writer and reader ends over one shared slot.
//!
//! A hazard is only useful when it is shared: the writer end is held by the
//! thread doing the protecting, the reader end by the reclamation sweep. The
//! two ends of one pair name the same slot, and their capabilities differ on
//! purpose: only the writer may change the state, and only the reader may
//! reclaim the slot's storage, after it has observed the dead state.
//!
//! The heap that hazards live on is modelled by [`Arena`]: a pool of slots.
//! The pair constructor draws a slot from the pool, preferring one that an
//! earlier reader gave back, and each handle carries the index of its slot.
//! A destroyed slot returns to the pool's spare list and is reused by the
//! next pair, so repeated create and destroy cycles do not grow the pool.

use vstd::prelude::*;
use vstd::seq_lib::*;
use vstd::set_lib::*;

use crate::hazard::Hazard;
use crate::state::State;
use crate::state::wf_state;

verus! {

/// The pool of hazard slots: the storage that pairs share.
///
/// Slots are never removed; a reclaimed slot's index moves to the spare
/// list and the next pair reuses it. A slot is *live* while some pair's
/// handles name it, that is, while its index is not spare.
pub struct Arena {
    /// Every slot ever drawn, reclaimed ones included.
    slots: Vec<Hazard>,
    /// Indices of reclaimed slots, available for reuse.
    spare: Vec<usize>,
}

impl Arena {
    /// How many slots the pool holds, live and spare together.
    pub closed spec fn slot_count(&self) -> int {
        self.slots@.len() as int
    }

    /// How many reclaimed slots wait for reuse.
    pub closed spec fn spare_count(&self) -> int {
        self.spare@.len() as int
    }

    /// How many slots are currently live, that is, named by a pair.
    pub open spec fn live_count(&self) -> int {
        self.slot_count() - self.spare_count()
    }

    /// Does some pair currently name slot `i`?
    pub closed spec fn is_live(&self, i: int) -> bool {
        0 <= i < self.slots@.len() && !self.spare@.contains(i as usize)
    }

    /// The state slot `i` currently spells; `None` stands for blocked.
    pub closed spec fn slot_state(&self, i: int) -> Option<State> {
        self.slots@[i]@
    }

    /// The pool's invariant: every spare index names a slot, and no slot is
    /// spare twice.
    pub closed spec fn wf(&self) -> bool {
        &&& forall|k: int|
            0 <= k < self.spare@.len() ==> (#[trigger] self.spare@[k]) < self.slots@.len()
        &&& self.spare@.no_duplicates()
    }

    /// Create an empty pool.
    pub fn new() -> (a: Arena)
        ensures
            a.wf(),
            a.slot_count() == 0,
            a.spare_count() == 0,
    {
        Arena { slots: Vec::new(), spare: Vec::new() }
    }

    /// How many slots the pool has drawn in all, reclaimed ones included.
    pub fn capacity(&self) -> (n: usize)
        ensures
            n == self.slot_count(),
    {
        self.slots.len()
    }

    /// How many reclaimed slots wait for reuse.
    pub fn spare_len(&self) -> (n: usize)
        ensures
            n == self.spare_count(),
    {
        self.spare.len()
    }
}

/// Nothing outside `i` changed between `pre` and `post`: the pool kept its
/// size, and every other slot kept its state and its liveness.
pub open spec fn unchanged_except(pre: Arena, post: Arena, i: int) -> bool {
    &&& post.slot_count() == pre.slot_count()
    &&& post.spare_count() == pre.spare_count()
    &&& forall|j: int| j != i ==> post.is_live(j) == pre.is_live(j)
    &&& forall|j: int|
        0 <= j < pre.slot_count() && j != i ==> post.slot_state(j) == pre.slot_state(j)
}

/// An hazard writer.
///
/// This names a hazard slot and provides the ability to mutate it. It is
/// created through the [`create`] function, which pairs it with the
/// [`Reader`] naming the same slot. At most one live writer names a slot:
/// the constructor hands out a slot no earlier handle still names.
#[derive(Debug)]
pub struct Writer {
    /// The index of the shared slot.
    idx: usize,
}

/// An hazard reader.
///
/// This names the same slot as its paired [`Writer`] and provides only the
/// ability to read it and to reclaim its storage. Reclaiming goes through
/// [`Reader::destroy`] alone, and only once the slot has been observed
/// dead; a reader discarded along any other path leaves its slot live
/// forever, which the pool's live count makes visible.
pub struct Reader {
    /// The index of the shared slot.
    idx: usize,
}

impl Writer {
    /// The index of the slot this end names.
    pub closed spec fn id(&self) -> int {
        self.idx as int
    }

    /// Set the state of the shared hazard.
    ///
    /// Whether or not it is blocked has no effect on this; this is the only
    /// way to move the hazard out of the blocked state.
    pub fn set(&self, arena: &mut Arena, new: State)
        requires
            old(arena).wf(),
            old(arena).is_live(self.id()),
            wf_state(new),
        ensures
            final(arena).wf(),
            final(arena).is_live(self.id()),
            final(arena).slot_state(self.id()) == Some(new),
            unchanged_except(*old(arena), *final(arena), self.id()),
    {
        arena.slots[self.idx].set(new);
    }

    /// Block the shared hazard.
    pub fn block(&self, arena: &mut Arena)
        requires
            old(arena).wf(),
            old(arena).is_live(self.id()),
        ensures
            final(arena).wf(),
            final(arena).is_live(self.id()),
            final(arena).slot_state(self.id()) is None,
            unchanged_except(*old(arena), *final(arena), self.id()),
    {
        arena.slots[self.idx].block();
    }

    /// Is the shared hazard blocked?
    pub fn is_blocked(&self, arena: &Arena) -> (r: bool)
        requires
            arena.wf(),
            arena.is_live(self.id()),
        ensures
            r == (arena.slot_state(self.id()) is None),
    {
        arena.slots[self.idx].is_blocked()
    }

    /// Get the state of the shared hazard.
    ///
    /// As with [`Hazard::get`], a blocked slot has no state to return, so
    /// callers first establish that the slot is not blocked.
    pub fn get(&self, arena: &Arena) -> (s: State)
        requires
            arena.wf(),
            arena.is_live(self.id()),
            arena.slot_state(self.id()) is Some,
        ensures
            arena.slot_state(self.id()) == Some(s),
            wf_state(s),
    {
        arena.slots[self.idx].get()
    }

    /// Set the state of the shared hazard to dead.
    ///
    /// This consumes the writer: the slot will never be reused through this
    /// end, and it is now eligible for the paired reader's
    /// [`Reader::destroy`] once the reader has observed the dead state.
    pub fn kill(self, arena: &mut Arena)
        requires
            old(arena).wf(),
            old(arena).is_live(self.id()),
        ensures
            final(arena).wf(),
            final(arena).is_live(self.id()),
            final(arena).slot_state(self.id()) == Some(State::Dead),
            unchanged_except(*old(arena), *final(arena), self.id()),
    {
        arena.slots[self.idx].set(State::Dead);
    }

    /// Release the writer at the end of its scope.
    ///
    /// Cleanup behaves differently when the releasing thread is already
    /// failing than when it exits normally, so the distinction is an
    /// explicit flag. On an unwinding release the writer dies in place:
    /// recycling a handle mid-teardown is unsafe, because a sweep running
    /// during the unwind could meet an inconsistent blocked hazard. On a
    /// normal release the slot is left untouched and the writer is handed
    /// back, for the caller's cache to reuse for a future protection.
    pub fn release(self, arena: &mut Arena, unwinding: bool) -> (r: Option<Writer>)
        requires
            old(arena).wf(),
            old(arena).is_live(self.id()),
        ensures
            final(arena).wf(),
            final(arena).is_live(self.id()),
            unwinding ==> r is None && final(arena).slot_state(self.id()) == Some(State::Dead)
                && unchanged_except(*old(arena), *final(arena), self.id()),
            !unwinding ==> r == Some(self) && *final(arena) == *old(arena),
    {
        if unwinding {
            self.kill(arena);
            None
        } else {
            Some(self)
        }
    }
}

impl Reader {
    /// The index of the slot this end names.
    pub closed spec fn id(&self) -> int {
        self.idx as int
    }

    /// Is the shared hazard blocked?
    ///
    /// The read side polls this to wait out a blocked slot rather than
    /// observe it.
    pub fn is_blocked(&self, arena: &Arena) -> (r: bool)
        requires
            arena.wf(),
            arena.is_live(self.id()),
        ensures
            r == (arena.slot_state(self.id()) is None),
    {
        arena.slots[self.idx].is_blocked()
    }

    /// Get the state of the hazard.
    ///
    /// This is the read the reclamation sweep performs to decide whether an
    /// object is currently protected. As with [`Hazard::get`], a blocked
    /// slot has no state to return, so callers first establish that the
    /// slot is not blocked.
    pub fn get(&self, arena: &Arena) -> (s: State)
        requires
            arena.wf(),
            arena.is_live(self.id()),
            arena.slot_state(self.id()) is Some,
        ensures
            arena.slot_state(self.id()) == Some(s),
            wf_state(s),
    {
        arena.slots[self.idx].get()
    }

    /// Destroy the hazard, reclaiming its slot.
    ///
    /// This is the only way a slot's storage is reclaimed, and it demands
    /// that the slot has already been observed dead: reclaiming an active
    /// hazard would free storage a live writer still names. The slot's
    /// index joins the spare list, so the same reader can never be
    /// destroyed twice, and the next pair reuses the storage.
    pub fn destroy(self, arena: &mut Arena)
        requires
            old(arena).wf(),
            old(arena).is_live(self.id()),
            old(arena).slot_state(self.id()) == Some(State::Dead),
        ensures
            final(arena).wf(),
            !final(arena).is_live(self.id()),
            final(arena).slot_count() == old(arena).slot_count(),
            final(arena).spare_count() == old(arena).spare_count() + 1,
            forall|j: int| j != self.id() ==> final(arena).is_live(j) == old(arena).is_live(j),
            forall|j: int|
                0 <= j < old(arena).slot_count() ==> final(arena).slot_state(j) == old(
                    arena,
                ).slot_state(j),
    {
        let ghost pre = arena.spare@;
        arena.spare.push(self.idx);
        proof {
            assert(!pre.contains(self.idx));
            assert(arena.spare@ == pre.push(self.idx));
            assert(arena.spare@[arena.spare@.len() - 1] == self.idx);
            assert(arena.spare@.contains(self.idx));
            assert forall|k1: int, k2: int|
                0 <= k1 < arena.spare@.len() && 0 <= k2 < arena.spare@.len() && k1
                    != k2 implies arena.spare@[k1] != arena.spare@[k2] by {
                if k1 < pre.len() && k2 < pre.len() {
                    assert(pre.no_duplicates());
                } else if k2 == pre.len() {
                    if arena.spare@[k1] == self.idx {
                        assert(pre[k1] == self.idx);
                        assert(pre.contains(self.idx));
                    }
                } else {
                    if arena.spare@[k2] == self.idx {
                        assert(pre[k2] == self.idx);
                        assert(pre.contains(self.idx));
                    }
                }
            }
            assert(arena.spare@.no_duplicates());
            assert forall|j: int| j != self.id() implies arena.is_live(j) == old(
                arena,
            ).is_live(j) by {
                vstd::std_specs::vec::axiom_spec_len(&arena.slots);
                if 0 <= j < arena.slots@.len() {
                    assert(j == (j as usize) as int);
                    if pre.contains(j as usize) {
                        let k = choose|k: int| 0 <= k < pre.len() && pre[k] == j as usize;
                        assert(arena.spare@[k] == j as usize);
                        assert(arena.spare@.contains(j as usize));
                    }
                    if arena.spare@.contains(j as usize) {
                        let k = choose|k: int|
                            0 <= k < arena.spare@.len() && arena.spare@[k] == j as usize;
                        if k < pre.len() {
                            assert(pre[k] == j as usize);
                            assert(pre.contains(j as usize));
                        } else {
                            assert(arena.spare@[k] == self.idx);
                            assert(false);
                        }
                    }
                }
            }
        }
    }
}

/// Create a new hazard reader-writer pair.
///
/// This allocates one slot from the pool, in blocked state, and produces
/// the two handles that both name it. It is the single allocation point
/// for the primitive. The slot is fresh: no handle issued earlier and
/// still live names it. A spare slot is reused before the pool grows, so
/// repeated create and destroy cycles keep the pool at its high-water
/// size.
pub fn create(arena: &mut Arena) -> (pair: (Writer, Reader))
    requires
        old(arena).wf(),
    ensures
        final(arena).wf(),
        pair.0.id() == pair.1.id(),
        !old(arena).is_live(pair.0.id()),
        final(arena).is_live(pair.0.id()),
        final(arena).slot_state(pair.0.id()) is None,
        forall|j: int| j != pair.0.id() ==> final(arena).is_live(j) == old(arena).is_live(j),
        forall|j: int|
            0 <= j < old(arena).slot_count() && j != pair.0.id() ==> final(arena).slot_state(j)
                == old(arena).slot_state(j),
        old(arena).spare_count() > 0 ==> final(arena).slot_count() == old(arena).slot_count()
            && final(arena).spare_count() == old(arena).spare_count() - 1,
        old(arena).spare_count() == 0 ==> final(arena).slot_count() == old(arena).slot_count()
            + 1 && final(arena).spare_count() == 0,
{
    let ghost pre = *arena;
    let idx: usize;
    match arena.spare.pop() {
        Some(i) => {
            idx = i;
            proof {
                assert(pre.spare@ == arena.spare@.push(i));
                assert(arena.spare@ == pre.spare@.drop_last());
                assert(pre.spare@[pre.spare@.len() - 1] == i);
                assert(pre.spare@.contains(i));
                assert(!pre.is_live(i as int));
                assert(!arena.spare@.contains(i)) by {
                    if arena.spare@.contains(i) {
                        let k = choose|k: int|
                            0 <= k < arena.spare@.len() && arena.spare@[k] == i;
                        assert(pre.spare@[k] == i);
                    }
                }
            }
            arena.slots[idx].block();
            proof {
                assert(arena.is_live(idx as int));
                assert forall|j: int| j != idx as int implies arena.is_live(j) == pre.is_live(
                    j,
                ) by {
                    vstd::std_specs::vec::axiom_spec_len(&arena.slots);
                    if 0 <= j < pre.slots@.len() {
                        assert(j == (j as usize) as int);
                        if pre.spare@.contains(j as usize) {
                            let k = choose|k: int|
                                0 <= k < pre.spare@.len() && pre.spare@[k] == j as usize;
                            if k == pre.spare@.len() - 1 {
                                assert(pre.spare@[k] == i);
                                assert(false);
                            } else {
                                assert(arena.spare@[k] == j as usize);
                                assert(arena.spare@.contains(j as usize));
                            }
                        }
                        if arena.spare@.contains(j as usize) {
                            let k = choose|k: int|
                                0 <= k < arena.spare@.len() && arena.spare@[k] == j as usize;
                            assert(pre.spare@[k] == j as usize);
                            assert(pre.spare@.contains(j as usize));
                        }
                    }
                }
            }
        },
        None => {
            idx = arena.slots.len();
            arena.slots.push(Hazard::blocked());
            proof {
                assert(pre.spare@.len() == 0);
                assert(!arena.spare@.contains(idx));
                assert(arena.is_live(idx as int));
                assert forall|j: int| j != idx as int implies arena.is_live(j) == pre.is_live(
                    j,
                ) by {
                    vstd::std_specs::vec::axiom_spec_len(&arena.slots);
                    if 0 <= j < arena.slots@.len() {
                        assert(!arena.spare@.contains(j as usize));
                        assert(!pre.spare@.contains(j as usize));
                        assert(j < pre.slots@.len());
                    }
                }
            }
        },
    }
    (Writer { idx }, Reader { idx })
}

/// A pair's reader observes whatever the paired writer most recently set:
/// both ends name the same slot, so once the writer has stored a state
/// there, a read through the reader finds exactly that state.
pub proof fn lemma_pair_observation(arena: Arena, writer: Writer, reader: Reader, s: State)
    requires
        writer.id() == reader.id(),
        arena.slot_state(writer.id()) == Some(s),
    ensures
        arena.slot_state(reader.id()) == Some(s),
{
}

/// After a writer's `kill`, the paired reader meets every demand of
/// `destroy`: the slot both ends name is still live and spells dead, so
/// destruction succeeds.
pub proof fn lemma_kill_enables_destroy(arena: Arena, writer: Writer, reader: Reader)
    requires
        arena.wf(),
        writer.id() == reader.id(),
        arena.is_live(writer.id()),
        arena.slot_state(writer.id()) == Some(State::Dead),
    ensures
        arena.is_live(reader.id()),
        arena.slot_state(reader.id()) == Some(State::Dead),
{
}

/// Reclaimed slots never outnumber the pool: the spare list holds distinct
/// indices into it, so the live count stays between zero and the pool's
/// size. Together with the pool-size clauses of [`create`] and
/// [`Reader::destroy`], this is why create and destroy cycles reuse
/// storage instead of leaking it.
pub proof fn lemma_live_count_bounds(arena: Arena)
    requires
        arena.wf(),
    ensures
        0 <= arena.live_count() <= arena.slot_count(),
{
    let f = |u: usize| u as int;
    let ints = arena.spare@.map_values(f);
    let n = arena.slot_count();
    assert(vstd::relations::injective(f));
    arena.spare@.lemma_no_duplicates_injective(f);
    ints.unique_seq_to_set();
    assert(ints.to_set().subset_of(set_int_range(0, n))) by {
        assert forall|x: int| ints.to_set().contains(x) implies 0 <= x < n by {
            let k = choose|k: int| 0 <= k < ints.len() && ints[k] == x;
            assert(arena.spare@[k] < arena.slots@.len());
        }
    };
    lemma_int_range(0, n);
    lemma_len_subset(ints.to_set(), set_int_range(0, n));
}

} // verus!
