//! A verified model of a reference-counted object heap that is reached only
//! through opaque handles.
//!
//! The heap is an arena: every object sits in a slot of its own, handles are
//! issued in increasing order and never handed out twice, and each operation
//! states exactly which records it touches and that every other record stays
//! as it was.

pub mod handle;
pub mod object;
pub mod model;
pub mod state;
pub mod interface;
pub mod laws;
pub mod types;
