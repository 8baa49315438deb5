//! A component storage engine for component-graph systems.
//!
//! Components of a user-chosen type live in a densely packed, insertion-ordered
//! vector inside a [`Storage`]. Each component is reference-counted and is
//! addressed through an opaque packed handle, the [`Pointer`]. Handle clones
//! and drops never touch the storage itself: they enqueue intents into a small
//! shared journal behind a spin mutex, and an explicit
//! [`Storage::sync_pending`] drains the journal, updates the per-slot
//! refcounts, bumps the epoch of slots whose count reached zero and recycles
//! them through a free list. [`WeakPointer`]s detect post-mortem use by
//! comparing their stored epoch against the live epoch of the slot.

pub mod bitfield;
pub mod cursor;
pub mod iter;
pub mod journal;
pub mod laws;
pub mod pending;
pub mod pointer;
pub mod storage;
pub mod sync;
pub mod weak;

pub use crate::bitfield::PointerData;
pub use crate::cursor::{Cursor, CursorItem, Slice};
pub use crate::iter::{Item, Iter, IterMut};
pub use crate::pointer::{DeadComponentError, Pointer};
pub use crate::storage::Storage;
pub use crate::weak::WeakPointer;

