use rvtrap::batch::{AppInfo, Batch};
use rvtrap::cause::{classify, TrapCause};
use rvtrap::console::Console;
use rvtrap::context::{restore_context, save_context, TrapContext};
use rvtrap::machine::{handle_trap, Control, Machine};
use rvtrap::trap::{
    halt_message, termination_message, trap_handler, HaltCause, Termination, TrapOutcome,
};

const SCAUSE_ECALL: u64 = 8;
const SCAUSE_ILLEGAL: u64 = 2;
const SCAUSE_STORE_FAULT: u64 = 7;
const SCAUSE_STORE_PAGE_FAULT: u64 = 15;

fn machine_with(apps: Vec<AppInfo>, mem: Vec<u8>, boot_sstatus: u64) -> Machine {
    let mut batch = Batch::new(apps, boot_sstatus);
    let cx = match batch.run_next_app() {
        Some(cx) => cx,
        None => panic!("no program to run"),
    };
    Machine {
        cx,
        batch,
        mem,
        console: Console::new(),
        log: Vec::new(),
    }
}

fn two_apps() -> Vec<AppInfo> {
    vec![
        AppInfo { entry: 0x8040_0000, sp: 0x8100_0000 },
        AppInfo { entry: 0x8042_0000, sp: 0x8102_0000 },
    ]
}

#[test]
fn initial_context_forces_user_and_places_entry_and_sp() {
    // Prior sstatus has SPP set to Supervisor (bit 8) and SIE set (bit 1):
    // construction must clear SPP and keep the other legal bit.
    let cx = TrapContext::app_init_context(0x8040_0000, 0x8100_0000, 0x102);
    assert_eq!(cx.sepc, 0x8040_0000);
    assert_eq!(cx.x[2], 0x8100_0000);
    assert!(cx.resume_privilege_is_user());
    assert_eq!(cx.sstatus, 0x2);
    for i in 0..32 {
        if i != 2 {
            assert_eq!(cx.x[i], 0);
        }
    }
}

#[test]
fn initial_context_is_user_for_any_prior_contents() {
    for prior in [0u64, 0x100, 0x122, u64::MAX, 0x8000_0003_000d_e762] {
        let cx = TrapContext::app_init_context(0x1000, 0x2000, prior);
        assert!(cx.resume_privilege_is_user());
        assert_eq!(cx.sepc, 0x1000);
        assert_eq!(cx.x[2], 0x2000);
    }
}

#[test]
fn set_sp_overwrites_only_the_stack_slot() {
    let mut cx = TrapContext::app_init_context(0x1000, 0x2000, 0);
    cx.set_sp(0x3000);
    assert_eq!(cx.x[2], 0x3000);
    assert_eq!(cx.sepc, 0x1000);
}

#[test]
fn save_restore_round_trip_is_exact() {
    let mut regs = [0usize; 32];
    for (i, r) in regs.iter_mut().enumerate() {
        *r = i * 7 + 1;
    }
    let cx = save_context(&regs, 0x22, 0x4000);
    let (r, sstatus, sepc) = restore_context(&cx);
    assert_eq!(r, regs);
    assert_eq!(sstatus, 0x22);
    assert_eq!(sepc, 0x4000);

    // The dispatcher may advance only the program counter in between.
    let mut advanced = cx;
    advanced.sepc += 4;
    let (r2, sstatus2, sepc2) = restore_context(&advanced);
    assert_eq!(r2, regs);
    assert_eq!(sstatus2, 0x22);
    assert_eq!(sepc2, 0x4004);
}

#[test]
fn classify_tells_the_supported_causes_apart() {
    assert_eq!(classify(SCAUSE_ECALL), TrapCause::UserEnvCall);
    assert_eq!(classify(SCAUSE_STORE_FAULT), TrapCause::StoreFault);
    assert_eq!(classify(SCAUSE_STORE_PAGE_FAULT), TrapCause::StorePageFault);
    assert_eq!(classify(SCAUSE_ILLEGAL), TrapCause::IllegalInstruction);
    assert_eq!(classify(5), TrapCause::Other);
    // The same code with the interrupt bit set is not an exception.
    assert_eq!(classify(0x8000_0000_0000_0008), TrapCause::Other);
}

#[test]
fn syscall_path_advances_pc_by_one_instruction() {
    // Supported identifier: write.
    let mem = b"hi".to_vec();
    let mut cx = TrapContext::app_init_context(0x1000, 0x2000, 0);
    cx.x[17] = 64;
    cx.x[10] = 1;
    cx.x[11] = 0;
    cx.x[12] = 2;
    let mut console = Console::new();
    let o = trap_handler(&mut cx, SCAUSE_ECALL, 0, &mem, &mut console);
    assert_eq!(o, TrapOutcome::Resume);
    assert_eq!(cx.sepc, 0x1004);

    // Supported identifier: exit.
    let mut cx = TrapContext::app_init_context(0x1000, 0x2000, 0);
    cx.x[17] = 93;
    let o = trap_handler(&mut cx, SCAUSE_ECALL, 0, &mem, &mut console);
    assert_eq!(o, TrapOutcome::Terminate(Termination::Exited { exit_code: 0 }));
    assert_eq!(cx.sepc, 0x1004);

    // Unsupported identifier: the advance still happened first.
    let mut cx = TrapContext::app_init_context(0x1000, 0x2000, 0);
    cx.x[17] = 9999;
    let o = trap_handler(&mut cx, SCAUSE_ECALL, 0, &mem, &mut console);
    assert_eq!(o, TrapOutcome::Halt(HaltCause::UnknownSyscall { syscall_id: 9999 }));
    assert_eq!(cx.sepc, 0x1004);
}

#[test]
fn write_syscall_forwards_bytes_and_returns_count() {
    let mem = b"hello, trap".to_vec();
    let mut m = machine_with(two_apps(), mem, 0);
    m.cx.x[17] = 64;
    m.cx.x[10] = 1;
    m.cx.x[11] = 7;
    m.cx.x[12] = 4;
    let c = handle_trap(&mut m, SCAUSE_ECALL, 0);
    assert_eq!(c, Control::Running);
    assert_eq!(m.console.output, b"trap".to_vec());
    assert_eq!(m.cx.x[10], 4);
    assert_eq!(m.cx.sepc, 0x8040_0004);
    assert!(m.log.is_empty());
}

#[test]
fn unknown_syscall_halts_with_its_identifier_and_writes_no_result() {
    let mut m = machine_with(two_apps(), Vec::new(), 0);
    m.cx.x[17] = 9999;
    m.cx.x[10] = 123;
    let c = handle_trap(&mut m, SCAUSE_ECALL, 0);
    let cause = HaltCause::UnknownSyscall { syscall_id: 9999 };
    assert_eq!(c, Control::Halted(cause));
    // No return value was written into the program's context.
    assert_eq!(m.cx.x[10], 123);
    // The diagnostic names the raw identifier.
    assert_eq!(m.log.len(), 1);
    assert!(m.log[0].contains("9999"));
    assert_eq!(m.log[0], "Unsupported syscall_id: 9999");
    assert_eq!(halt_message(&cause), "Unsupported syscall_id: 9999");
    // The console got nothing.
    assert!(m.console.output.is_empty());
}

#[test]
fn store_page_fault_kills_the_program_and_loads_the_next_untouched() {
    let mut m = machine_with(two_apps(), Vec::new(), 0x102);
    // The first program has run for a while: its registers hold junk.
    m.cx.x[10] = 77;
    m.cx.sepc = 0x8040_0123;
    let c = handle_trap(&mut m, SCAUSE_STORE_PAGE_FAULT, 0xdead_beef);
    assert_eq!(c, Control::Running);
    // The next program starts at its own initial context, exactly as
    // if it had just been loaded.
    let expected = TrapContext::app_init_context(0x8042_0000, 0x8102_0000, 0x102);
    assert_eq!(m.cx, expected);
    assert_eq!(m.batch.next, 2);
    assert_eq!(m.log.len(), 1);
    assert_eq!(m.log[0], "[kernel] PageFault in application, kernel killed it.");
}

#[test]
fn store_fault_and_illegal_instruction_terminate_too() {
    let mem = Vec::new();
    let mut console = Console::new();
    let mut cx = TrapContext::app_init_context(0x1000, 0x2000, 0);
    let before = cx;
    let o = trap_handler(&mut cx, SCAUSE_STORE_FAULT, 0x44, &mem, &mut console);
    assert_eq!(o, TrapOutcome::Terminate(Termination::PageFault));
    assert_eq!(cx, before);

    let o = trap_handler(&mut cx, SCAUSE_ILLEGAL, 0, &mem, &mut console);
    assert_eq!(o, TrapOutcome::Terminate(Termination::IllegalInstruction));
    assert_eq!(cx, before);
    assert_eq!(
        termination_message(&Termination::IllegalInstruction),
        "[kernel] IllegalInstruction in application, kernel killed it."
    );
}

#[test]
fn unsupported_trap_halts_with_cause_and_auxiliary_value() {
    let mut m = machine_with(two_apps(), Vec::new(), 0);
    let c = handle_trap(&mut m, 5, 16);
    let cause = HaltCause::UnsupportedTrap { scause: 5, stval: 16 };
    assert_eq!(c, Control::Halted(cause));
    assert_eq!(m.log.len(), 1);
    assert_eq!(m.log[0], "Unsupported trap: scause = 5, stval = 16");
}

#[test]
fn exit_reports_code_and_runs_next_program() {
    let mut m = machine_with(two_apps(), Vec::new(), 0);
    m.cx.x[17] = 93;
    m.cx.x[10] = 42;
    let c = handle_trap(&mut m, SCAUSE_ECALL, 0);
    assert_eq!(c, Control::Running);
    let expected = TrapContext::app_init_context(0x8042_0000, 0x8102_0000, 0);
    assert_eq!(m.cx, expected);
    assert_eq!(m.log.len(), 1);
    assert_eq!(m.log[0], "[kernel] Application exited with code 42");
}

#[test]
fn exit_of_the_last_program_ends_the_system() {
    let mut m = machine_with(
        vec![AppInfo { entry: 0x1000, sp: 0x2000 }],
        Vec::new(),
        0,
    );
    m.cx.x[17] = 93;
    m.cx.x[10] = 0;
    let c = handle_trap(&mut m, SCAUSE_ECALL, 0);
    assert_eq!(c, Control::AllDone);
    assert_eq!(m.log[0], "[kernel] Application exited with code 0");
}

#[test]
fn console_accepts_everything_in_order() {
    let mut console = Console::new();
    assert_eq!(console.put_bytes(b"ab"), 2);
    assert_eq!(console.put_bytes(b""), 0);
    assert_eq!(console.put_bytes(b"c"), 1);
    assert_eq!(console.output, b"abc".to_vec());
}

#[test]
fn batch_hands_out_each_program_once_then_nothing() {
    let mut batch = Batch::new(two_apps(), 0);
    let first = batch.run_next_app().unwrap();
    assert_eq!(first.sepc, 0x8040_0000);
    let second = batch.run_next_app().unwrap();
    assert_eq!(second.sepc, 0x8042_0000);
    assert!(batch.run_next_app().is_none());
    assert_eq!(batch.next, 2);
}
