//! The state encoding: four logical states in one machine word.
//!
//! Three reserved sentinel words stand for the blocked, free and dead
//! states; every other word is read as protecting the address it spells.
//! Encoding is therefore lossless as long as a protected address never
//! collides with a sentinel, which [`wf_state`] captures.

use vstd::prelude::*;

verus! {

/// The word that stands for the blocked state.
pub const BLOCKED: usize = usize::MAX;

/// The word that stands for the free state.
pub const FREE: usize = usize::MAX - 1;

/// The word that stands for the dead state.
pub const DEAD: usize = usize::MAX - 2;

/// The state of a hazard.
///
/// This `enum` excludes the blocked state, because it is semantically
/// different from the other states: readers wait it out rather than
/// observe it, so no read ever returns it.
#[derive(PartialEq, Eq, Structural, Debug)]
#[must_use]
pub enum State {
    /// The hazard does not currently protect any object.
    Free,
    /// The hazard is dead and its slot may be reclaimed when necessary.
    Dead,
    /// The hazard is protecting the object at the given address.
    ///
    /// The address is an opaque word: nothing here dereferences it. It is
    /// restricted to words not overlapping with the sentinels that encode
    /// the other states.
    Protect(usize),
}

/// Is `w` one of the three reserved sentinel words?
pub open spec fn is_sentinel(w: usize) -> bool {
    w == BLOCKED || w == FREE || w == DEAD
}

/// A state the encoding admits: a protected address never equals a sentinel.
pub open spec fn wf_state(s: State) -> bool {
    match s {
        State::Free => true,
        State::Dead => true,
        State::Protect(addr) => !is_sentinel(addr),
    }
}

/// The word that a hazard slot stores for `s`.
pub open spec fn spec_encode(s: State) -> usize {
    match s {
        State::Free => FREE,
        State::Dead => DEAD,
        State::Protect(addr) => addr,
    }
}

/// The state that a stored word spells; `None` stands for blocked.
pub open spec fn spec_decode(w: usize) -> Option<State> {
    if w == BLOCKED {
        None
    } else if w == FREE {
        Some(State::Free)
    } else if w == DEAD {
        Some(State::Dead)
    } else {
        Some(State::Protect(w))
    }
}

/// Round trip of the encoding: the word written for a well-formed state
/// decodes to exactly that state, so a read immediately after a write
/// returns what was written.
pub proof fn lemma_encode_decode(s: State)
    requires
        wf_state(s),
    ensures
        spec_decode(spec_encode(s)) == Some(s),
{
}

} // verus!
