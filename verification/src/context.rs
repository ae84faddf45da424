//! The Trap Context: the fixed-layout snapshot of a program's register
//! file and privilege-control state that the trap entry code saves on
//! every trap and restores on every trap exit.

use vstd::prelude::*;

verus! {

/// All legal (writable or readable) bits of the RV64 `sstatus` CSR.
pub const SSTATUS_MASK: u64 = 0x8000_0003_000d_e762;

/// The SPP field of `sstatus`: bit 8, the privilege level the processor
/// was in before the trap and will return to on `sret`. Zero is User.
pub const SSTATUS_SPP: u64 = 0x100;

/// Register index conventionally holding the stack pointer (`sp` is `x2`).
pub const REG_SP: usize = 2;

/// Register index of the first syscall argument and of the syscall
/// return value (`a0` is `x10`).
pub const REG_A0: usize = 10;

/// Register index of the second syscall argument (`a1` is `x11`).
pub const REG_A1: usize = 11;

/// Register index of the third syscall argument (`a2` is `x12`).
pub const REG_A2: usize = 12;

/// Register index holding the syscall identifier (`a7` is `x17`).
pub const REG_A7: usize = 17;

/// True when an `sstatus` value will make `sret` resume in User mode:
/// its SPP field is zero.
pub open spec fn resumes_in_user(sstatus: u64) -> bool {
    sstatus & SSTATUS_SPP == 0
}

/// True when a value holds only legal `sstatus` bits, as every value
/// read from the hardware `sstatus` CSR does.
pub open spec fn legal_sstatus(sstatus: u64) -> bool {
    sstatus & !SSTATUS_MASK == 0
}

/// Relies on riscv's `Sstatus::from_bits`, `Sstatus::set_spp` and
/// `Sstatus::bits`: `from_bits` keeps only the bits of `SSTATUS_MASK`,
/// `set_spp(SPP::User)` writes a zero into bit 8, and `bits` reads the
/// result back. Stated for the RV64 layout, on which the target's
/// `usize` is 64 bits wide and `SSTATUS_MASK` is that crate's mask.
#[verifier::external_body]
fn sstatus_for_user(bits: u64) -> (r: u64)
    ensures
        r == (bits & SSTATUS_MASK) & !SSTATUS_SPP,
        r & SSTATUS_SPP == 0,
{
    let mut s = riscv::register::sstatus::Sstatus::from_bits(bits as usize);
    s.set_spp(riscv::register::sstatus::SPP::User);
    s.bits() as u64
}

/// Relies on riscv's `Sstatus::spp`: it reads bit 8 of the value, and
/// returns `SPP::User` exactly when that bit is zero. The argument must
/// hold only legal `sstatus` bits, so that `from_bits` drops nothing.
/// Stated for the RV64 layout, as `sstatus_for_user` is.
#[verifier::external_body]
fn sstatus_spp_is_user(bits: u64) -> (r: bool)
    requires
        legal_sstatus(bits),
    ensures
        r == resumes_in_user(bits),
{
    riscv::register::sstatus::Sstatus::from_bits(bits as usize).spp()
        == riscv::register::sstatus::SPP::User
}

/// The exact initial context a program loaded with entry `entry` and
/// stack top `sp` first runs under, when `prior_sstatus` was the
/// `sstatus` value read at construction time: every register zero but
/// the stack pointer, the program counter at the entry, and the SPP
/// field of `sstatus` forced to User.
pub open spec fn is_initial_context(
    cx: TrapContext,
    entry: usize,
    sp: usize,
    prior_sstatus: u64,
) -> bool {
    &&& cx.sepc == entry
    &&& cx.x@[REG_SP as int] == sp
    &&& forall|i: int| 0 <= i < 32 && i != REG_SP ==> cx.x@[i] == 0
    &&& cx.sstatus == (prior_sstatus & SSTATUS_MASK) & !SSTATUS_SPP
}

/// Snapshot of an interrupted program: the 32 general-purpose registers,
/// the `sstatus` control-and-status value, and the program counter to
/// resume at. The trap entry code and the dispatcher agree on this
/// fixed field order; nothing else is stored.
#[derive(Clone, Copy, Debug, PartialEq, Eq)]
pub struct TrapContext {
    /// General-purpose registers `x0` to `x31`; `x0` is architecturally
    /// always zero and never used as storage.
    pub x: [usize; 32],
    /// Saved `sstatus` bits; its SPP field decides the privilege level
    /// that `sret` resumes at.
    pub sstatus: u64,
    /// Saved `sepc`: the program counter to resume at.
    pub sepc: usize,
}

impl TrapContext {
    /// A context only ever resumes an untrusted program: its `sstatus`
    /// holds legal bits and its SPP field is User.
    pub open spec fn wf(self) -> bool {
        legal_sstatus(self.sstatus) && resumes_in_user(self.sstatus)
    }

    /// Overwrite the stack-pointer slot (`x2`) of the register file.
    pub fn set_sp(&mut self, sp: usize)
        ensures
            final(self).x@ == old(self).x@.update(REG_SP as int, sp),
            final(self).sstatus == old(self).sstatus,
            final(self).sepc == old(self).sepc,
    {
        self.x[REG_SP] = sp;
    }

    /// The initial context a freshly loaded program first runs under:
    /// every register zero but the stack pointer, the program counter at
    /// the program's entry, and the SPP field of `sstatus` forced to
    /// User whatever the prior `sstatus` value held.
    pub fn app_init_context(entry: usize, sp: usize, prior_sstatus: u64) -> (cx: TrapContext)
        ensures
            is_initial_context(cx, entry, sp, prior_sstatus),
            resumes_in_user(cx.sstatus),
            cx.wf(),
    {
        let sstatus = sstatus_for_user(prior_sstatus);
        proof {
            assert(legal_sstatus((prior_sstatus & SSTATUS_MASK) & !SSTATUS_SPP)) by (bit_vector);
        }
        let mut cx = TrapContext { x: [0; 32], sstatus, sepc: entry };
        cx.set_sp(sp);
        cx
    }

    /// Whether resuming this context returns the processor to User mode;
    /// the decision is made by the hardware's reading of the SPP field.
    pub fn resume_privilege_is_user(&self) -> (r: bool)
        requires
            legal_sstatus(self.sstatus),
        ensures
            r == resumes_in_user(self.sstatus),
    {
        sstatus_spp_is_user(self.sstatus)
    }
}

/// The context that saving a machine state (register file, `sstatus`,
/// `sepc`) at trap entry produces.
pub open spec fn saved_of(regs: [usize; 32], sstatus: u64, sepc: usize) -> TrapContext {
    TrapContext { x: regs, sstatus, sepc }
}

/// The machine state that restoring a context at trap exit produces.
pub open spec fn restored_of(cx: TrapContext) -> ([usize; 32], u64, usize) {
    (cx.x, cx.sstatus, cx.sepc)
}

/// What the trap entry code does on entry: preserve the interrupted
/// program's register file, `sstatus` and `sepc`, wholesale and in
/// order, into a Trap Context.
pub fn save_context(regs: &[usize; 32], sstatus: u64, sepc: usize) -> (cx: TrapContext)
    ensures
        cx == saved_of(*regs, sstatus, sepc),
{
    TrapContext { x: *regs, sstatus, sepc }
}

/// What the trap exit code does: read the register file, `sstatus` and
/// `sepc` back out of a Trap Context, verbatim.
pub fn restore_context(cx: &TrapContext) -> (r: ([usize; 32], u64, usize))
    ensures
        r == restored_of(*cx),
{
    (cx.x, cx.sstatus, cx.sepc)
}

/// Round trip of the trap entry/exit data contract: restoring a context
/// saved at trap entry and left untouched reproduces the exact pre-trap
/// machine state; and restoring it after the dispatcher advanced only
/// the program counter still reproduces every register and `sstatus`.
pub proof fn lemma_save_restore_round_trip(
    regs: [usize; 32],
    sstatus: u64,
    sepc: usize,
    advanced_sepc: usize,
)
    ensures
        restored_of(saved_of(regs, sstatus, sepc)) == (regs, sstatus, sepc),
        restored_of(TrapContext { sepc: advanced_sepc, ..saved_of(regs, sstatus, sepc) })
            == (regs, sstatus, advanced_sepc),
{
}

} // verus!
