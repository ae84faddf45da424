//! Trap, exception and syscall layer of a minimal single-tasking RISC-V
//! kernel, modelled over plain machine words.
//!
//! The crate covers the trap-entry data contract (the Trap Context), the
//! trap dispatcher that classifies a hardware cause and routes it, the
//! syscall dispatcher with its two registered calls (`write` and `exit`),
//! the loader boundary ("run the next program"), and the user-side
//! wrappers that marshal arguments into the syscall ABI.

pub mod batch;
pub mod cause;
pub mod console;
pub mod context;
pub mod decimal;
pub mod machine;
pub mod syscall;
pub mod trap;
pub mod user;

use vstd::prelude::*;

verus! {

/// Syscall identifier of `write` in the user/kernel ABI.
pub const SYSCALL_WRITE: usize = 64;

/// Syscall identifier of `exit` in the user/kernel ABI.
pub const SYSCALL_EXIT: usize = 93;

} // verus!
