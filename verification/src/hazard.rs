//! The hazard slot and its read/write operations.

use vstd::prelude::*;

use crate::state::BLOCKED;
use crate::state::DEAD;
use crate::state::FREE;
use crate::state::State;
use crate::state::spec_decode;
use crate::state::wf_state;

verus! {

/// A hazard.
///
/// This type holds a single pointer-sized slot with the encoded state of
/// the hazard. It represents the same as [`State`], encoded into one word
/// so that it fits a single store or load.
///
/// Furthermore, there is an additional state: blocked. A blocked hazard has
/// no state to observe; readers of the concurrent protocol wait until the
/// writer moves the hazard on, which is why [`Hazard::get`] asks for a
/// non-blocked slot and [`Hazard::is_blocked`] exists to test for it first.
#[derive(Debug)]
pub struct Hazard {
    /// The encoded state: a sentinel word or a protected address.
    word: usize,
}

impl View for Hazard {
    type V = Option<State>;

    /// The state the slot currently spells; `None` stands for blocked.
    closed spec fn view(&self) -> Option<State> {
        spec_decode(self.word)
    }
}

impl Hazard {
    /// Create a new hazard in blocked state.
    pub fn blocked() -> (h: Hazard)
        ensures
            h@ is None,
    {
        Hazard { word: BLOCKED }
    }

    /// Block the hazard.
    pub fn block(&mut self)
        ensures
            final(self)@ is None,
    {
        self.word = BLOCKED;
    }

    /// Is the hazard blocked?
    pub fn is_blocked(&self) -> (r: bool)
        ensures
            r == (self@ is None),
    {
        self.word == BLOCKED
    }

    /// Set the hazard to a new state.
    ///
    /// Whether or not it is blocked has no effect on this. To get it back to
    /// the blocked state, use [`Hazard::block`].
    pub fn set(&mut self, new: State)
        requires
            wf_state(new),
        ensures
            final(self)@ == Some(new),
    {
        self.word = match new {
            State::Free => FREE,
            State::Dead => DEAD,
            State::Protect(addr) => addr,
        };
    }

    /// Get the state of the hazard.
    ///
    /// A blocked hazard has no state to return: in the concurrent protocol a
    /// reader spins until the writer moves the slot on, and a slot that never
    /// leaves the blocked state is a stuck writer, a fatal protocol error
    /// rather than legitimate contention. Callers therefore first establish
    /// that the slot is not blocked, and this returns the decoded state
    /// outright.
    pub fn get(&self) -> (s: State)
        requires
            self@ is Some,
        ensures
            self@ == Some(s),
            wf_state(s),
    {
        let w = self.word;
        if w == FREE {
            State::Free
        } else if w == DEAD {
            State::Dead
        } else {
            State::Protect(w)
        }
    }
}

} // verus!
