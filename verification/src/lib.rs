//! Event-sink slots for sessions, the per-kind tables that hold them, and the
//! registry that keeps one table per session kind.
//!
//! Nothing here takes a lock or waits. A caller that shares a registry or a
//! table between tasks guards it with a lock of its own, and a reader that
//! waits for a slot sleeps between the steps that [`slot::SlotState::wait_step`]
//! decides.

pub mod entry;
pub mod lazy_map;
pub mod registry;
pub mod slot;
pub mod table;
