//! The syscall dispatcher: a total function from a syscall identifier
//! and three machine-word arguments to a signed result, a program
//! termination, or an unrecoverable kernel error. Its registry has two
//! entries, `write` and `exit`; new entries are added here without
//! touching the trap dispatcher.

use vstd::prelude::*;
use vstd::slice::slice_subrange;

use crate::console::Console;
use crate::{SYSCALL_EXIT, SYSCALL_WRITE};

verus! {

/// What one syscall decided: a value to hand back to the program, a
/// termination of the program, or an identifier the kernel has no
/// handler for, which no ABI guess may paper over.
#[derive(Clone, Copy, Debug, PartialEq, Eq, Structural)]
pub enum SyscallOutcome {
    /// The signed result to write into the return-value register.
    Value(isize),
    /// The program asked to exit with this code; it gets no further
    /// execution and no return value.
    Exit(i32),
    /// No handler is registered for this identifier.
    Unknown(usize),
}

/// `write`: forward the `len` bytes that start at address `buf` of the
/// program's address space `mem` to the console byte-sink, and return
/// the count accepted, which is always all of them.
pub fn sys_write(fd: usize, buf: usize, len: usize, mem: &Vec<u8>, console: &mut Console) -> (r:
    isize)
    requires
        buf + len <= mem@.len(),
        len <= isize::MAX as usize,
    ensures
        r == len as isize,
        final(console).output@ == old(console).output@ + mem@.subrange(
            buf as int,
            buf as int + len as int,
        ),
{
    let _ = fd;
    // Learning the concrete length shows `buf + len` fits a machine word.
    let total = mem.len();
    assert(buf + len <= total);
    let bytes = slice_subrange(mem.as_slice(), buf, buf + len);
    let n = console.put_bytes(bytes);
    n as isize
}

/// `exit`: the program terminates itself with `exit_code`. The call
/// returns no value to the program; the caller hands control to the
/// loader, which replaces the whole control flow.
pub fn sys_exit(exit_code: i32) -> (r: SyscallOutcome)
    ensures
        r == SyscallOutcome::Exit(exit_code),
{
    SyscallOutcome::Exit(exit_code)
}

/// Dispatch one syscall: `args` are the three machine words taken from
/// the fixed argument register slots, untyped by convention; each
/// handler reinterprets them. An identifier outside the registry is
/// answered with `Unknown`, never with a fabricated value.
pub fn syscall(syscall_id: usize, args: [usize; 3], mem: &Vec<u8>, console: &mut Console) -> (r:
    SyscallOutcome)
    requires
        syscall_id == SYSCALL_WRITE ==> args[1] + args[2] <= mem@.len() && args[2] <= isize::MAX
            as usize,
    ensures
        syscall_id == SYSCALL_WRITE ==> {
            &&& r == SyscallOutcome::Value(args[2] as isize)
            &&& final(console).output@ == old(console).output@ + mem@.subrange(
                args[1] as int,
                args[1] as int + args[2] as int,
            )
        },
        syscall_id == SYSCALL_EXIT ==> r == SyscallOutcome::Exit(args[0] as i32)
            && final(console).output@ == old(console).output@,
        syscall_id != SYSCALL_WRITE && syscall_id != SYSCALL_EXIT ==> r == SyscallOutcome::Unknown(
            syscall_id,
        ) && final(console).output@ == old(console).output@,
{
    if syscall_id == SYSCALL_WRITE {
        let v = sys_write(args[0], args[1], args[2], mem, console);
        SyscallOutcome::Value(v)
    } else if syscall_id == SYSCALL_EXIT {
        sys_exit(args[0] as i32)
    } else {
        SyscallOutcome::Unknown(syscall_id)
    }
}

} // verus!
