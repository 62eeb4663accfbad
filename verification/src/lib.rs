//! Save, run, restore: a guard around code that changes state shared by the whole process.
//!
//! A session runs under the session lock, which its caller holds. It reads a slot of the
//! shared state, runs the caller's body, and writes back what it read, whatever the body
//! did to the slot.

pub mod exit_scope;
pub mod no_store;
pub mod registry;
pub mod session;
pub mod session_lock;
