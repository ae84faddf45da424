//! The user-side library: ergonomic wrappers that marshal a call into
//! the raw syscall ABI — identifier in the `a7` slot, up to three
//! machine-word arguments in `a0` to `a2`, signed result back in `a0`
//! after resumption — and issue the environment call, which the trap
//! layer of this same kernel handles.

use vstd::prelude::*;

use crate::cause::EXC_USER_ENV_CALL;
use crate::context::{is_initial_context, REG_A0, REG_A1, REG_A2, REG_A7};
use crate::machine::{handle_trap, Control, Machine};
use crate::trap::{termination_message_spec, Termination, INSTRUCTION_WIDTH};
use crate::{SYSCALL_EXIT, SYSCALL_WRITE};

verus! {

/// An exit code survives the trip through its untyped argument slot: it
/// is cast to a machine word at the call site and read back as a signed
/// 32-bit value by the handler.
proof fn lemma_exit_code_round_trip(code: i32)
    ensures
        ((code as usize) as i32) == code,
{
    assert(((code as usize) as i32) == code) by (bit_vector);
}

/// Issue one environment call: place the identifier and arguments in
/// their fixed register slots and trap into the kernel.
fn syscall(m: &mut Machine, id: usize, args: [usize; 3]) -> (c: Control)
    requires
        old(m).cx.sepc + INSTRUCTION_WIDTH <= usize::MAX,
        id == SYSCALL_WRITE ==> args[1] + args[2] <= old(m).mem@.len() && args[2] <= isize::MAX
            as usize,
    ensures
        final(m).mem@ == old(m).mem@,
        final(m).batch.apps@ == old(m).batch.apps@,
        final(m).batch.boot_sstatus == old(m).batch.boot_sstatus,
        id == SYSCALL_WRITE ==> {
            &&& c == Control::Running
            &&& final(m).cx.sepc == old(m).cx.sepc + INSTRUCTION_WIDTH
            &&& final(m).cx.sstatus == old(m).cx.sstatus
            &&& final(m).cx.x@ == old(m).cx.x@.update(REG_A7 as int, id).update(
                REG_A1 as int,
                args[1],
            ).update(REG_A2 as int, args[2]).update(REG_A0 as int, args[2])
            &&& final(m).console.output@ == old(m).console.output@ + old(m).mem@.subrange(
                args[1] as int,
                args[1] + args[2],
            )
            &&& final(m).batch.next == old(m).batch.next
            &&& final(m).log@ == old(m).log@
        },
        id == SYSCALL_EXIT ==> {
            &&& final(m).log@.len() == old(m).log@.len() + 1
            &&& final(m).log@.drop_last() == old(m).log@
            &&& final(m).log@.last()@ == termination_message_spec(
                Termination::Exited { exit_code: args[0] as i32 },
            )
            &&& final(m).console.output@ == old(m).console.output@
            &&& old(m).batch.next < old(m).batch.apps@.len() ==> {
                &&& c == Control::Running
                &&& is_initial_context(
                    final(m).cx,
                    old(m).batch.apps@[old(m).batch.next as int].entry,
                    old(m).batch.apps@[old(m).batch.next as int].sp,
                    old(m).batch.boot_sstatus,
                )
                &&& final(m).batch.next == old(m).batch.next + 1
            }
            &&& old(m).batch.next >= old(m).batch.apps@.len() ==> {
                &&& c == Control::AllDone
                &&& final(m).batch.next == old(m).batch.next
            }
        },
{
    m.cx.x[REG_A7] = id;
    m.cx.x[REG_A0] = args[0];
    m.cx.x[REG_A1] = args[1];
    m.cx.x[REG_A2] = args[2];
    let c = handle_trap(m, EXC_USER_ENV_CALL, 0);
    proof {
        if id == SYSCALL_WRITE {
            assert(m.cx.x@ =~= old(m).cx.x@.update(REG_A7 as int, id).update(
                REG_A1 as int,
                args[1],
            ).update(REG_A2 as int, args[2]).update(REG_A0 as int, args[2]));
        }
    }
    c
}

/// `write(fd, buffer)` over the raw ABI: the buffer is the `len` bytes
/// at address `buf` of the program's address space. Returns the number
/// of bytes the console accepted, which is exactly `len`; the same
/// program resumes past its syscall instruction.
pub fn sys_write(m: &mut Machine, fd: usize, buf: usize, len: usize) -> (r: isize)
    requires
        old(m).cx.sepc + INSTRUCTION_WIDTH <= usize::MAX,
        buf + len <= old(m).mem@.len(),
        len <= isize::MAX as usize,
    ensures
        r == len as isize,
        final(m).console.output@ == old(m).console.output@ + old(m).mem@.subrange(
            buf as int,
            buf + len,
        ),
        final(m).cx.sepc == old(m).cx.sepc + INSTRUCTION_WIDTH,
        final(m).cx.sstatus == old(m).cx.sstatus,
        final(m).mem@ == old(m).mem@,
        final(m).batch.apps@ == old(m).batch.apps@,
        final(m).batch.next == old(m).batch.next,
        final(m).batch.boot_sstatus == old(m).batch.boot_sstatus,
        final(m).log@ == old(m).log@,
{
    let args: [usize; 3] = [fd, buf, len];
    syscall(m, SYSCALL_WRITE, args);
    m.cx.x[REG_A0] as isize
}

/// `exit(code)`: the calling program terminates and never regains
/// control. If a program remains, execution continues at that next
/// program's own initial context; otherwise the whole system is done.
pub fn sys_exit(m: &mut Machine, exit_code: i32) -> (c: Control)
    requires
        old(m).cx.sepc + INSTRUCTION_WIDTH <= usize::MAX,
    ensures
        final(m).log@.len() == old(m).log@.len() + 1,
        final(m).log@.drop_last() == old(m).log@,
        final(m).log@.last()@ == termination_message_spec(Termination::Exited { exit_code }),
        final(m).console.output@ == old(m).console.output@,
        final(m).mem@ == old(m).mem@,
        final(m).batch.apps@ == old(m).batch.apps@,
        final(m).batch.boot_sstatus == old(m).batch.boot_sstatus,
        old(m).batch.next < old(m).batch.apps@.len() ==> {
            &&& c == Control::Running
            &&& is_initial_context(
                final(m).cx,
                old(m).batch.apps@[old(m).batch.next as int].entry,
                old(m).batch.apps@[old(m).batch.next as int].sp,
                old(m).batch.boot_sstatus,
            )
            &&& final(m).batch.next == old(m).batch.next + 1
        },
        old(m).batch.next >= old(m).batch.apps@.len() ==> {
            &&& c == Control::AllDone
            &&& final(m).batch.next == old(m).batch.next
        },
{
    proof {
        lemma_exit_code_round_trip(exit_code);
    }
    let args: [usize; 3] = [exit_code as usize, 0, 0];
    syscall(m, SYSCALL_EXIT, args)
}

/// The ergonomic `write` wrapper over [`sys_write`].
pub fn write(m: &mut Machine, fd: usize, buf: usize, len: usize) -> (r: isize)
    requires
        old(m).cx.sepc + INSTRUCTION_WIDTH <= usize::MAX,
        buf + len <= old(m).mem@.len(),
        len <= isize::MAX as usize,
    ensures
        r == len as isize,
        final(m).console.output@ == old(m).console.output@ + old(m).mem@.subrange(
            buf as int,
            buf + len,
        ),
        final(m).cx.sepc == old(m).cx.sepc + INSTRUCTION_WIDTH,
        final(m).cx.sstatus == old(m).cx.sstatus,
        final(m).mem@ == old(m).mem@,
        final(m).batch.apps@ == old(m).batch.apps@,
        final(m).batch.next == old(m).batch.next,
        final(m).batch.boot_sstatus == old(m).batch.boot_sstatus,
        final(m).log@ == old(m).log@,
{
    sys_write(m, fd, buf, len)
}

/// The ergonomic `exit` wrapper over [`sys_exit`].
pub fn exit(m: &mut Machine, exit_code: i32) -> (c: Control)
    requires
        old(m).cx.sepc + INSTRUCTION_WIDTH <= usize::MAX,
    ensures
        final(m).log@.len() == old(m).log@.len() + 1,
        final(m).log@.drop_last() == old(m).log@,
        final(m).log@.last()@ == termination_message_spec(Termination::Exited { exit_code }),
        final(m).console.output@ == old(m).console.output@,
        final(m).mem@ == old(m).mem@,
        final(m).batch.apps@ == old(m).batch.apps@,
        final(m).batch.boot_sstatus == old(m).batch.boot_sstatus,
        old(m).batch.next < old(m).batch.apps@.len() ==> {
            &&& c == Control::Running
            &&& is_initial_context(
                final(m).cx,
                old(m).batch.apps@[old(m).batch.next as int].entry,
                old(m).batch.apps@[old(m).batch.next as int].sp,
                old(m).batch.boot_sstatus,
            )
            &&& final(m).batch.next == old(m).batch.next + 1
        },
        old(m).batch.next >= old(m).batch.apps@.len() ==> {
            &&& c == Control::AllDone
            &&& final(m).batch.next == old(m).batch.next
        },
{
    sys_exit(m, exit_code)
}

} // verus!
