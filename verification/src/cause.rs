//! Classification of the hardware trap cause: the `scause` CSR value
//! that the dispatcher consults to learn why control was transferred.

use vstd::prelude::*;

verus! {

/// Interrupt bit of `scause`: the most significant bit of the RV64 value.
pub const SCAUSE_INTERRUPT: u64 = 0x8000_0000_0000_0000;

/// Exception code of an illegal-instruction exception.
pub const EXC_ILLEGAL_INSTRUCTION: u64 = 2;

/// Exception code of a store/AMO access fault.
pub const EXC_STORE_FAULT: u64 = 7;

/// Exception code of an environment call from User mode (a syscall).
pub const EXC_USER_ENV_CALL: u64 = 8;

/// Exception code of a store/AMO page fault.
pub const EXC_STORE_PAGE_FAULT: u64 = 15;

/// Why control was transferred, as far as this trap layer tells causes
/// apart. Every cause it has no policy for is `Other`.
#[derive(Clone, Copy, Debug, PartialEq, Eq, Structural)]
pub enum TrapCause {
    /// The program executed a deliberate syscall instruction.
    UserEnvCall,
    /// The program performed an invalid store (access fault).
    StoreFault,
    /// The program performed a store that page-faulted.
    StorePageFault,
    /// The program executed an illegal instruction.
    IllegalInstruction,
    /// Any interrupt, or any exception this layer does not support.
    Other,
}

/// True when a raw `scause` value reports an interrupt: its top bit is
/// set, that is, the value is at least `SCAUSE_INTERRUPT`.
pub open spec fn is_interrupt(scause: u64) -> bool {
    scause >= SCAUSE_INTERRUPT
}

/// The cause encoded by a raw `scause` value: an interrupt when the top
/// bit is set, otherwise the exception named by the code below it.
pub open spec fn classify_spec(scause: u64) -> TrapCause {
    if is_interrupt(scause) {
        TrapCause::Other
    } else if scause == EXC_USER_ENV_CALL {
        TrapCause::UserEnvCall
    } else if scause == EXC_STORE_FAULT {
        TrapCause::StoreFault
    } else if scause == EXC_STORE_PAGE_FAULT {
        TrapCause::StorePageFault
    } else if scause == EXC_ILLEGAL_INSTRUCTION {
        TrapCause::IllegalInstruction
    } else {
        TrapCause::Other
    }
}

/// Decode a raw `scause` value into the cause it encodes.
pub fn classify(scause: u64) -> (c: TrapCause)
    ensures
        c == classify_spec(scause),
{
    if scause >= SCAUSE_INTERRUPT {
        TrapCause::Other
    } else if scause == EXC_USER_ENV_CALL {
        TrapCause::UserEnvCall
    } else if scause == EXC_STORE_FAULT {
        TrapCause::StoreFault
    } else if scause == EXC_STORE_PAGE_FAULT {
        TrapCause::StorePageFault
    } else if scause == EXC_ILLEGAL_INSTRUCTION {
        TrapCause::IllegalInstruction
    } else {
        TrapCause::Other
    }
}

} // verus!
