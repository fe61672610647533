//! Hazard pointer primitive.
//!
//! A hazard is a pointer-sized slot through which one thread marks an object
//! as "in use", so that a concurrent reclamation sweep will not free it. The
//! slot encodes one of four logical states (free, dead, blocked, or
//! protecting a specific address) in a single word, using three reserved
//! sentinel words.
//!
//! Hazards are shared between two ends: a [`pair::Writer`], which alone may
//! change the state, and a [`pair::Reader`], which alone may reclaim the
//! slot's storage, and only after observing the dead state. The storage that
//! hazards live in is modelled by [`pair::Arena`]: a pool of slots that the
//! pair constructor draws from and that a reader's `destroy` returns slots
//! to, so that storage is reused rather than leaked.

pub mod hazard;
pub mod pair;
pub mod state;

pub use crate::hazard::Hazard;
pub use crate::pair::Arena;
pub use crate::pair::Reader;
pub use crate::pair::Writer;
pub use crate::pair::create;
pub use crate::state::State;
