//! The trap dispatcher: classifies why control was transferred and
//! routes it. A syscall advances the saved program counter and goes to
//! the syscall dispatcher; a program fault terminates the program; any
//! other cause is an unsupported trap the kernel must halt on.

use vstd::prelude::*;
use vstd::string::StringExecFns;

use crate::cause::{classify, classify_spec, TrapCause};
use crate::console::Console;
use crate::context::{TrapContext, REG_A0, REG_A1, REG_A2, REG_A7};
use crate::decimal::{dec_i64, dec_int, dec_nat, dec_u64};
use crate::syscall::{syscall, SyscallOutcome};
use crate::{SYSCALL_EXIT, SYSCALL_WRITE};

verus! {

/// Width of one instruction: this profile assumes the fixed 4-byte
/// encoding, so resuming past a trapping syscall instruction means
/// advancing the saved program counter by exactly this much.
pub const INSTRUCTION_WIDTH: usize = 4;

/// Why the current program's execution ends for good.
#[derive(Clone, Copy, Debug, PartialEq, Eq, Structural)]
pub enum Termination {
    /// The program exited voluntarily with this code.
    Exited { exit_code: i32 },
    /// The program store-faulted or store-page-faulted.
    PageFault,
    /// The program executed an illegal instruction.
    IllegalInstruction,
}

/// An unrecoverable kernel error: a user/kernel ABI mismatch, not a
/// per-program fault. The raw values are kept so the condition stays
/// debuggable.
#[derive(Clone, Copy, Debug, PartialEq, Eq, Structural)]
pub enum HaltCause {
    /// A syscall identifier outside the registry reached the dispatcher.
    UnknownSyscall { syscall_id: usize },
    /// A trap cause this layer has no recovery policy for.
    UnsupportedTrap { scause: u64, stval: u64 },
}

/// What one trap decided: resume the same program, terminate it and run
/// the next one, or halt the kernel.
#[derive(Clone, Copy, Debug, PartialEq, Eq, Structural)]
pub enum TrapOutcome {
    /// Restore the (updated) context and return to the same program.
    Resume,
    /// The current program is done for this reason; ask the loader for
    /// the next one. Control never returns to this program.
    Terminate(Termination),
    /// Halt the whole system with a diagnostic.
    Halt(HaltCause),
}

/// The diagnostic line reported when a program's execution ends.
pub open spec fn termination_message_spec(t: Termination) -> Seq<char> {
    match t {
        Termination::Exited { exit_code } => "[kernel] Application exited with code "@ + dec_int(
            exit_code as int,
        ),
        Termination::PageFault => "[kernel] PageFault in application, kernel killed it."@,
        Termination::IllegalInstruction => "[kernel] IllegalInstruction in application, kernel killed it."@,
    }
}

/// The diagnostic line reported when the kernel halts; it names the raw
/// identifier or cause so the condition is debuggable.
pub open spec fn halt_message_spec(h: HaltCause) -> Seq<char> {
    match h {
        HaltCause::UnknownSyscall { syscall_id } => "Unsupported syscall_id: "@ + dec_nat(
            syscall_id as nat,
        ),
        HaltCause::UnsupportedTrap { scause, stval } => "Unsupported trap: scause = "@ + dec_nat(
            scause as nat,
        ) + ", stval = "@ + dec_nat(stval as nat),
    }
}

/// Render the diagnostic for a program termination.
pub fn termination_message(t: &Termination) -> (s: String)
    ensures
        s@ == termination_message_spec(*t),
{
    match t {
        Termination::Exited { exit_code } => {
            let mut s = String::from_str("[kernel] Application exited with code ");
            s.append(dec_i64(*exit_code as i64).as_str());
            s
        },
        Termination::PageFault => String::from_str(
            "[kernel] PageFault in application, kernel killed it.",
        ),
        Termination::IllegalInstruction => String::from_str(
            "[kernel] IllegalInstruction in application, kernel killed it.",
        ),
    }
}

/// Render the diagnostic for a kernel halt.
pub fn halt_message(h: &HaltCause) -> (s: String)
    ensures
        s@ == halt_message_spec(*h),
{
    match h {
        HaltCause::UnknownSyscall { syscall_id } => {
            let mut s = String::from_str("Unsupported syscall_id: ");
            s.append(dec_u64(*syscall_id as u64).as_str());
            s
        },
        HaltCause::UnsupportedTrap { scause, stval } => {
            let mut s = String::from_str("Unsupported trap: scause = ");
            s.append(dec_u64(*scause).as_str());
            s.append(", stval = ");
            s.append(dec_u64(*stval).as_str());
            s
        },
    }
}

/// Handle one trap out of user mode. `cx` is the context the trap entry
/// code saved; `scause` and `stval` are the two hardware-reported
/// values; `mem` is the interrupted program's address space and
/// `console` the byte-sink.
///
/// On an environment call from User mode the saved program counter is
/// advanced past the syscall instruction before anything else, so the
/// advance happens for supported and unsupported identifiers alike;
/// the syscall's signed result, if any, lands in the `a0` slot. On a
/// store fault or illegal instruction the context is left untouched
/// and the program is terminated. Any other cause halts the kernel.
pub fn trap_handler(
    cx: &mut TrapContext,
    scause: u64,
    stval: u64,
    mem: &Vec<u8>,
    console: &mut Console,
) -> (o: TrapOutcome)
    requires
        classify_spec(scause) == TrapCause::UserEnvCall ==> old(cx).sepc + INSTRUCTION_WIDTH
            <= usize::MAX,
        classify_spec(scause) == TrapCause::UserEnvCall && old(cx).x@[REG_A7 as int]
            == SYSCALL_WRITE ==> old(cx).x@[REG_A1 as int] + old(cx).x@[REG_A2 as int]
            <= mem@.len() && old(cx).x@[REG_A2 as int] <= isize::MAX as usize,
    ensures
        final(cx).sstatus == old(cx).sstatus,
        classify_spec(scause) == TrapCause::UserEnvCall ==> final(cx).sepc == old(cx).sepc
            + INSTRUCTION_WIDTH,
        classify_spec(scause) != TrapCause::UserEnvCall ==> *final(cx) == *old(cx)
            && final(console).output@ == old(console).output@,
        classify_spec(scause) == TrapCause::UserEnvCall && old(cx).x@[REG_A7 as int]
            == SYSCALL_WRITE ==> {
            &&& o == TrapOutcome::Resume
            &&& final(cx).x@ == old(cx).x@.update(REG_A0 as int, old(cx).x@[REG_A2 as int])
            &&& final(console).output@ == old(console).output@ + mem@.subrange(
                old(cx).x@[REG_A1 as int] as int,
                old(cx).x@[REG_A1 as int] + old(cx).x@[REG_A2 as int],
            )
        },
        classify_spec(scause) == TrapCause::UserEnvCall && old(cx).x@[REG_A7 as int]
            == SYSCALL_EXIT ==> {
            &&& o == TrapOutcome::Terminate(
                Termination::Exited { exit_code: old(cx).x@[REG_A0 as int] as i32 },
            )
            &&& final(cx).x@ == old(cx).x@
            &&& final(console).output@ == old(console).output@
        },
        classify_spec(scause) == TrapCause::UserEnvCall && old(cx).x@[REG_A7 as int]
            != SYSCALL_WRITE && old(cx).x@[REG_A7 as int] != SYSCALL_EXIT ==> {
            &&& o == TrapOutcome::Halt(
                HaltCause::UnknownSyscall { syscall_id: old(cx).x@[REG_A7 as int] },
            )
            &&& final(cx).x@ == old(cx).x@
            &&& final(console).output@ == old(console).output@
        },
        classify_spec(scause) == TrapCause::StoreFault || classify_spec(scause)
            == TrapCause::StorePageFault ==> o == TrapOutcome::Terminate(Termination::PageFault),
        classify_spec(scause) == TrapCause::IllegalInstruction ==> o == TrapOutcome::Terminate(
            Termination::IllegalInstruction,
        ),
        classify_spec(scause) == TrapCause::Other ==> o == TrapOutcome::Halt(
            HaltCause::UnsupportedTrap { scause, stval },
        ),
{
    match classify(scause) {
        TrapCause::UserEnvCall => {
            cx.sepc = cx.sepc + INSTRUCTION_WIDTH;
            let id = cx.x[REG_A7];
            let args: [usize; 3] = [cx.x[REG_A0], cx.x[REG_A1], cx.x[REG_A2]];
            match syscall(id, args, mem, console) {
                SyscallOutcome::Value(v) => {
                    cx.x[REG_A0] = v as usize;
                    proof {
                        assert(cx.x@ =~= old(cx).x@.update(
                            REG_A0 as int,
                            old(cx).x@[REG_A2 as int],
                        ));
                    }
                    TrapOutcome::Resume
                },
                SyscallOutcome::Exit(exit_code) => TrapOutcome::Terminate(
                    Termination::Exited { exit_code },
                ),
                SyscallOutcome::Unknown(syscall_id) => TrapOutcome::Halt(
                    HaltCause::UnknownSyscall { syscall_id },
                ),
            }
        },
        TrapCause::StoreFault | TrapCause::StorePageFault => TrapOutcome::Terminate(
            Termination::PageFault,
        ),
        TrapCause::IllegalInstruction => TrapOutcome::Terminate(Termination::IllegalInstruction),
        TrapCause::Other => TrapOutcome::Halt(HaltCause::UnsupportedTrap { scause, stval }),
    }
}

} // verus!
