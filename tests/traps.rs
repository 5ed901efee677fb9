use kernel::exceptions::{
    exception_name, fault_message, handle_exception, pushes_error_code, ExceptionAction,
};
use kernel::handler::{InterruptStackFrame, IretRegisters, PreservedRegisters, ScratchRegisters};
use kernel::trampoline::{GeneralRegisters, TrapCpu};

fn pattern() -> GeneralRegisters {
    GeneralRegisters {
        rax: 0x1111_1111_1111_1111,
        rbx: 0x2222_2222_2222_2222,
        rcx: 0x3333_3333_3333_3333,
        rdx: 0x4444_4444_4444_4444,
        rsi: 0x5555_5555_5555_5555,
        rdi: 0x6666_6666_6666_6666,
        rbp: 0x7777_7777_7777_7777,
        r8: 0x8888_8888_8888_8888,
        r9: 0x9999_9999_9999_9999,
        r10: 0xaaaa_aaaa_aaaa_aaaa,
        r11: 0xbbbb_bbbb_bbbb_bbbb,
        r12: 0xcccc_cccc_cccc_cccc,
        r13: 0xdddd_dddd_dddd_dddd,
        r14: 0xeeee_eeee_eeee_eeee,
        r15: 0xffff_ffff_ffff_0001,
    }
}

fn trap_frame() -> IretRegisters {
    IretRegisters {
        rip: 0xffff_ffff_8000_1234,
        cs: 0x08,
        rflags: 0x202,
        rsp: 0xffff_ffff_8020_0ff0,
        ss: 0x10,
    }
}

fn cpu() -> TrapCpu {
    TrapCpu { regs: pattern(), stack: vec![0x0101, 0x0202, 0x0303] }
}

fn expected_frame(regs: &GeneralRegisters, iret: IretRegisters) -> InterruptStackFrame {
    InterruptStackFrame {
        preserved: PreservedRegisters {
            r15: regs.r15,
            r14: regs.r14,
            r13: regs.r13,
            r12: regs.r12,
            rbp: regs.rbp,
            rbx: regs.rbx,
        },
        scratch: ScratchRegisters {
            r11: regs.r11,
            r10: regs.r10,
            r9: regs.r9,
            r8: regs.r8,
            rsi: regs.rsi,
            rdi: regs.rdi,
            rdx: regs.rdx,
            rcx: regs.rcx,
            rax: regs.rax,
        },
        iret,
    }
}

#[test]
fn error_trampoline_hands_over_code_and_registers() {
    let mut cpu = cpu();
    cpu.hardware_entry(&trap_frame(), Some(0xDEAD_BEEF));
    let code = cpu.error_prologue();
    assert_eq!(code, 0xDEAD_BEEF);
    assert_eq!(cpu.regs.rsi, 0xDEAD_BEEF);
    assert_eq!(cpu.frame(), expected_frame(&pattern(), trap_frame()));
}

#[test]
fn stack_trampoline_restores_everything() {
    let mut cpu = cpu();
    cpu.hardware_entry(&trap_frame(), None);
    cpu.stack_prologue();
    assert_eq!(cpu.stack.len(), 3 + 20);
    let frame = cpu.frame();
    assert_eq!(frame, expected_frame(&pattern(), trap_frame()));
    let clobbered = ScratchRegisters {
        r11: 1,
        r10: 2,
        r9: 3,
        r8: 4,
        rsi: 5,
        rdi: 6,
        rdx: 7,
        rcx: 8,
        rax: 9,
    };
    cpu.call_handler(&frame, &clobbered);
    assert_eq!(cpu.regs.rax, 9);
    let resumed = cpu.epilogue();
    assert_eq!(cpu.regs, pattern());
    assert_eq!(cpu.stack, vec![0x0101, 0x0202, 0x0303]);
    assert_eq!(resumed, trap_frame());
}

#[test]
fn error_trampoline_restores_everything() {
    let mut cpu = cpu();
    cpu.hardware_entry(&trap_frame(), Some(0x18));
    cpu.error_prologue();
    let frame = cpu.frame();
    cpu.call_handler(&frame, &frame.scratch);
    let resumed = cpu.epilogue();
    assert_eq!(cpu.regs, pattern());
    assert_eq!(cpu.stack, vec![0x0101, 0x0202, 0x0303]);
    assert_eq!(resumed, trap_frame());
}

#[test]
fn handler_changes_to_the_frame_reach_the_registers() {
    let mut cpu = cpu();
    cpu.hardware_entry(&trap_frame(), None);
    cpu.stack_prologue();
    let mut frame = cpu.frame();
    frame.scratch.rax = 42;
    frame.iret.rip += 2;
    cpu.call_handler(&frame, &frame.scratch);
    let resumed = cpu.epilogue();
    assert_eq!(cpu.regs.rax, 42);
    assert_eq!(resumed.rip, trap_frame().rip + 2);
}

#[test]
fn push_and_pop() {
    let mut cpu = cpu();
    cpu.push(7);
    assert_eq!(cpu.pop(), 7);
    assert_eq!(cpu.pop(), 0x0303);
    assert_eq!(cpu.stack, vec![0x0101, 0x0202]);
}

fn sample_frame() -> InterruptStackFrame {
    expected_frame(&pattern(), trap_frame())
}

#[test]
fn breakpoint_resumes_after_dump() {
    let frame = sample_frame();
    let outcome = handle_exception(3, &frame, 0);
    assert!(matches!(outcome.action, ExceptionAction::Resume));
    assert_eq!(outcome.lines[0], "Breakpoint hit!");
    assert_eq!(outcome.lines.len(), 1 + 20);
    assert_eq!(outcome.lines[1], "rax: 0x1111111111111111");
    assert_eq!(outcome.lines[15], "r15: 0xffffffffffff0001");
    assert_eq!(outcome.lines[16], "rip: 0xffffffff80001234");
}

#[test]
fn fatal_exceptions_halt_with_name_and_code() {
    let frame = sample_frame();
    let outcome = handle_exception(14, &frame, 0xDEAD_BEEF);
    match outcome.action {
        ExceptionAction::Halt { message } => {
            assert_eq!(message, "Page fault exception with error code: 3735928559")
        }
        ExceptionAction::Resume => panic!("a page fault must not resume"),
    }
    assert_eq!(outcome.lines.len(), 20);
    let outcome = handle_exception(0, &frame, 0xDEAD_BEEF);
    match outcome.action {
        ExceptionAction::Halt { message } => assert_eq!(message, "Divide by zero exception"),
        ExceptionAction::Resume => panic!("a division by zero must not resume"),
    }
}

#[test]
fn every_other_registered_vector_halts() {
    let frame = sample_frame();
    for v in 0..32u8 {
        if v == 3 || exception_name(v).is_none() {
            continue;
        }
        let outcome = handle_exception(v, &frame, 7);
        match outcome.action {
            ExceptionAction::Halt { message } => {
                assert!(message.starts_with(exception_name(v).unwrap()));
                assert_eq!(message.ends_with("with error code: 7"), pushes_error_code(v));
            }
            ExceptionAction::Resume => panic!("vector {} must not resume", v),
        }
    }
}

#[test]
fn error_code_vectors() {
    let with_code: Vec<u8> = (0..32u8).filter(|v| pushes_error_code(*v)).collect();
    assert_eq!(with_code, vec![8, 10, 11, 12, 13, 14, 17, 21, 29, 30]);
}

#[test]
fn exception_names_and_messages() {
    assert_eq!(exception_name(13), Some("General protection fault"));
    assert_eq!(exception_name(9), None);
    assert_eq!(exception_name(31), None);
    assert_eq!(fault_message(30, 0), "Security exception with error code: 0");
    assert_eq!(fault_message(18, 5), "Machine check exception");
}

#[test]
fn frame_dump_lines() {
    let frame = sample_frame();
    let lines = frame.dump();
    let names: Vec<&str> = lines.iter().map(|l| l.split(':').next().unwrap()).collect();
    assert_eq!(
        names,
        vec![
            "rax", "rcx", "rdx", "rdi", "rsi", "r8", "r9", "r10", "r11", "rbx", "rbp", "r12",
            "r13", "r14", "r15", "rip", "cs", "rflags", "rsp", "ss"
        ]
    );
    assert_eq!(lines[16], "cs: 0x8");
    assert_eq!(frame.preserved.dump()[5], "r15: 0xffffffffffff0001");
    assert_eq!(frame.iret.dump().len(), 5);
    assert_eq!(frame.scratch.dump()[8], "r11: 0xbbbbbbbbbbbbbbbb");
}
