//! Verified core of a deterministic record-and-replay engine for x86_64 guests.
//!
//! The library holds the decisions that the engine makes around a hardware
//! virtual CPU: how VM exits are classified, which registers are written on
//! recording and on replay, how traces and snapshots are kept, how the guest
//! page tables are laid out and how a PE image is placed in guest memory.
//! Driving the hypervisor itself is left to the caller.
pub mod registers;
pub mod trace;
pub mod vcpu;
pub mod exits;
pub mod loader;
pub mod memory;
pub mod paging;
pub mod record;
pub mod replay;
pub mod snapshot;
pub mod laws;
pub mod layout;
