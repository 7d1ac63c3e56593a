//! A chunked arena whose storage can be checked out for a bounded scope.
//!
//! An [`Arena`] places values into a growable buffer and hands back a
//! [`Slot`] for each of them. A [`SubArena`] borrows an arena exclusively,
//! takes over its active buffer, and gives it back cut down to its former
//! length when the scope is finished: what was placed during the scope is
//! destroyed, what was there before is untouched.
//!
//! Every executable function carries a contract over the mathematical
//! models in [`model`]; the module [`laws`] proves what the scope mechanism
//! guarantees as a whole.

pub mod arena;
pub mod chunks;
pub mod error;
pub mod laws;
pub mod model;
pub mod scoped;

pub use arena::{Arena, ExclusiveHandle, INITIAL_CAPACITY};
pub use chunks::ChunkList;
pub use error::BorrowConflict;
pub use model::{ArenaView, ChunkListView, ScopeView, Slot};
pub use scoped::{SubArena, SubArenaBuilder};
