//! The per-trap state machine: one live program context, the run queue,
//! the program's address space and the console, driven one trap at a
//! time. Consumes the trap dispatcher's outcome: a resumed program, a
//! hand-off to the next program's fresh context, the designed end state
//! when no program remains, or a kernel halt.

use vstd::prelude::*;

use crate::batch::Batch;
use crate::cause::{classify_spec, TrapCause};
use crate::console::Console;
use crate::context::{is_initial_context, TrapContext, REG_A0, REG_A1, REG_A2, REG_A7};
use crate::trap::{
    halt_message, halt_message_spec, termination_message, termination_message_spec, trap_handler,
    HaltCause, Termination, TrapOutcome, INSTRUCTION_WIDTH,
};
use crate::{SYSCALL_EXIT, SYSCALL_WRITE};

verus! {

/// Where control stands after one trap was handled to completion.
#[derive(Clone, Copy, Debug, PartialEq, Eq, Structural)]
pub enum Control {
    /// A program is running in user mode: the same one, resumed, or the
    /// next one at its own initial context.
    Running,
    /// Every program has completed; the system halts by design.
    AllDone,
    /// The kernel halted on an unrecoverable error.
    Halted(HaltCause),
}

/// The whole single-tasking machine as the trap layer sees it: exactly
/// one live context, the run queue behind it, the running program's
/// address space, the console byte-sink, and the kernel's diagnostic
/// log.
pub struct Machine {
    /// The one live Trap Context.
    pub cx: TrapContext,
    /// The loader/run-queue collaborator.
    pub batch: Batch,
    /// The running program's address space.
    pub mem: Vec<u8>,
    /// The console byte-sink that `write` forwards to.
    pub console: Console,
    /// Diagnostic lines the kernel has reported, oldest first.
    pub log: Vec<String>,
}

/// The termination, if any, that handling a trap with this saved
/// context and cause decides: a voluntary exit, or a fatal fault.
pub open spec fn termination_of(cx: TrapContext, scause: u64) -> Option<Termination> {
    if classify_spec(scause) == TrapCause::UserEnvCall && cx.x@[REG_A7 as int] == SYSCALL_EXIT {
        Some(Termination::Exited { exit_code: cx.x@[REG_A0 as int] as i32 })
    } else if classify_spec(scause) == TrapCause::StoreFault || classify_spec(scause)
        == TrapCause::StorePageFault {
        Some(Termination::PageFault)
    } else if classify_spec(scause) == TrapCause::IllegalInstruction {
        Some(Termination::IllegalInstruction)
    } else {
        None
    }
}

/// The kernel halt, if any, that handling a trap with this saved
/// context, cause and auxiliary value decides.
pub open spec fn halt_of(cx: TrapContext, scause: u64, stval: u64) -> Option<HaltCause> {
    if classify_spec(scause) == TrapCause::UserEnvCall && cx.x@[REG_A7 as int] != SYSCALL_WRITE
        && cx.x@[REG_A7 as int] != SYSCALL_EXIT {
        Some(HaltCause::UnknownSyscall { syscall_id: cx.x@[REG_A7 as int] })
    } else if classify_spec(scause) == TrapCause::Other {
        Some(HaltCause::UnsupportedTrap { scause, stval })
    } else {
        None
    }
}

/// Drive one trap to completion. Dispatches on the cause, and then:
/// a resumed syscall leaves the same program in place with its context
/// updated; a termination reports its diagnostic and installs the next
/// program's own initial context, or ends the system when none remains;
/// an unrecoverable error reports its diagnostic and halts.
pub fn handle_trap(m: &mut Machine, scause: u64, stval: u64) -> (c: Control)
    requires
        classify_spec(scause) == TrapCause::UserEnvCall ==> old(m).cx.sepc + INSTRUCTION_WIDTH
            <= usize::MAX,
        classify_spec(scause) == TrapCause::UserEnvCall && old(m).cx.x@[REG_A7 as int]
            == SYSCALL_WRITE ==> old(m).cx.x@[REG_A1 as int] + old(m).cx.x@[REG_A2 as int]
            <= old(m).mem@.len() && old(m).cx.x@[REG_A2 as int] <= isize::MAX as usize,
    ensures
        final(m).mem@ == old(m).mem@,
        final(m).batch.apps@ == old(m).batch.apps@,
        final(m).batch.boot_sstatus == old(m).batch.boot_sstatus,
        // The syscall path that resumes the same program.
        classify_spec(scause) == TrapCause::UserEnvCall && old(m).cx.x@[REG_A7 as int]
            == SYSCALL_WRITE ==> {
            &&& c == Control::Running
            &&& final(m).cx.sepc == old(m).cx.sepc + INSTRUCTION_WIDTH
            &&& final(m).cx.sstatus == old(m).cx.sstatus
            &&& final(m).cx.x@ == old(m).cx.x@.update(
                REG_A0 as int,
                old(m).cx.x@[REG_A2 as int],
            )
            &&& final(m).console.output@ == old(m).console.output@ + old(m).mem@.subrange(
                old(m).cx.x@[REG_A1 as int] as int,
                old(m).cx.x@[REG_A1 as int] + old(m).cx.x@[REG_A2 as int],
            )
            &&& final(m).batch.next == old(m).batch.next
            &&& final(m).log@ == old(m).log@
        },
        // A termination: its diagnostic is logged, and control passes
        // to the next program's own initial context, or the system is
        // done when none remains. It never returns to this program.
        termination_of(old(m).cx, scause) matches Some(t) ==> {
            &&& final(m).log@.len() == old(m).log@.len() + 1
            &&& final(m).log@.drop_last() == old(m).log@
            &&& final(m).log@.last()@ == termination_message_spec(t)
            &&& final(m).console.output@ == old(m).console.output@
            &&& old(m).batch.next < old(m).batch.apps@.len() ==> {
                &&& c == Control::Running
                &&& is_initial_context(
                    final(m).cx,
                    old(m).batch.apps@[old(m).batch.next as int].entry,
                    old(m).batch.apps@[old(m).batch.next as int].sp,
                    old(m).batch.boot_sstatus,
                )
                &&& final(m).batch.next == old(m).batch.next + 1
            }
            &&& old(m).batch.next >= old(m).batch.apps@.len() ==> {
                &&& c == Control::AllDone
                &&& final(m).batch.next == old(m).batch.next
            }
        },
        // An unrecoverable kernel error: its diagnostic is logged, the
        // system halts, and no return value is written into the
        // program's context.
        halt_of(old(m).cx, scause, stval) matches Some(h) ==> {
            &&& c == Control::Halted(h)
            &&& final(m).log@.len() == old(m).log@.len() + 1
            &&& final(m).log@.drop_last() == old(m).log@
            &&& final(m).log@.last()@ == halt_message_spec(h)
            &&& final(m).console.output@ == old(m).console.output@
            &&& final(m).cx.x@ == old(m).cx.x@
            &&& final(m).cx.sstatus == old(m).cx.sstatus
            &&& final(m).batch.next == old(m).batch.next
        },
        // Even an unknown identifier reached the advance step first; an
        // unsupported cause touched nothing at all.
        classify_spec(scause) == TrapCause::UserEnvCall && halt_of(old(m).cx, scause, stval)
            is Some ==> final(m).cx.sepc == old(m).cx.sepc + INSTRUCTION_WIDTH,
        classify_spec(scause) == TrapCause::Other ==> final(m).cx == old(m).cx,
{
    let o = trap_handler(&mut m.cx, scause, stval, &m.mem, &mut m.console);
    match o {
        TrapOutcome::Resume => Control::Running,
        TrapOutcome::Terminate(t) => {
            let msg = termination_message(&t);
            m.log.push(msg);
            match m.batch.run_next_app() {
                Some(next_cx) => {
                    m.cx = next_cx;
                    Control::Running
                },
                None => Control::AllDone,
            }
        },
        TrapOutcome::Halt(h) => {
            let msg = halt_message(&h);
            m.log.push(msg);
            Control::Halted(h)
        },
    }
}

} // verus!
