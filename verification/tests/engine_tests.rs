use vdebugger::debugger::{help_text, CommandResult, DebugError, Debugger};
use vdebugger::register::RegisterBank;
use vdebugger::sim::SimTracer;
use vdebugger::trace::{PtraceOps, TraceError, WaitStatus};

fn engine_with(bank: RegisterBank) -> Debugger<SimTracer> {
    Debugger::new(String::from("target"), SimTracer::new(bank))
}

#[test]
fn continue_past_trap_rewinds_steps_and_rearms() {
    let mut bank = RegisterBank::zeroed();
    bank.rip = 0x401000;
    let mut sim = SimTracer::new(bank);
    sim.map_word(0x401000, 0x00000000000000B8);
    // First resume: the debuggee runs into the trap and stops past it.
    sim.push_event(0x401001, WaitStatus::Stopped);
    // The step over the restored instruction.
    sim.push_event(0x401005, WaitStatus::Stopped);
    // The final resume: the debuggee runs to completion.
    sim.push_event(0, WaitStatus::Exited);

    let mut dbg = Debugger::new(String::from("target"), sim);
    dbg.set_breakpoint_at_address("0x401000").unwrap();
    assert_eq!(dbg.tracer().read(0x401000).unwrap(), 0x00000000000000CC);

    // Stop at rip == 0x401001: the trap fired.
    assert_eq!(dbg.continue_execution().unwrap(), WaitStatus::Stopped);

    // Resuming from the trap: rewind, restore, step, re-arm, continue.
    assert_eq!(dbg.continue_execution().unwrap(), WaitStatus::Exited);

    let bp = dbg.breakpoint_at(0x401000).unwrap();
    assert!(bp.enabled);
    assert_eq!(bp.saved_data, 0xB8);
    assert_eq!(dbg.tracer().read(0x401000).unwrap(), 0x00000000000000CC);
}

#[test]
fn register_dump_prints_27_lines_in_table_order() {
    let mut bank = RegisterBank::zeroed();
    bank.rax = 0x2a;
    bank.rip = 0x401000;
    let dbg = engine_with(bank);

    let lines = dbg.dump_registers().unwrap();
    assert_eq!(lines.len(), 27);
    let expected_names = [
        "rax", "rdx", "rcx", "rbx", "rsi", "rdi", "rbp", "rsp", "r8", "r9", "r10", "r11", "r12",
        "r13", "r14", "r15", "eflags", "es", "cs", "ss", "ds", "fs", "gs", "fs_base", "gs_base",
        "rip", "orig_rax",
    ];
    for (i, name) in expected_names.iter().enumerate() {
        let value: u64 = match *name {
            "rax" => 0x2a,
            "rip" => 0x401000,
            _ => 0,
        };
        assert_eq!(lines[i], format!("{} 0x{:016x}", name, value));
    }
    assert_eq!(lines[0], "rax 0x000000000000002a");
    assert_eq!(lines[25], "rip 0x0000000000401000");
}

#[test]
fn register_write_then_read_prints_decimal() {
    let mut dbg = engine_with(RegisterBank::zeroed());
    match dbg.handle_command(&String::from("register write rax 0x2a")) {
        CommandResult::Output(lines) => assert!(lines.is_empty()),
        other => panic!("unexpected outcome: {:?}", other),
    }
    match dbg.handle_command(&String::from("register read rax")) {
        CommandResult::Output(lines) => {
            assert_eq!(lines.len(), 1);
            assert_eq!(lines[0], "rax -> 42");
        },
        other => panic!("unexpected outcome: {:?}", other),
    }
}

#[test]
fn memory_write_then_read_round_trips_in_decimal() {
    let mut sim = SimTracer::new(RegisterBank::zeroed());
    sim.map_word(0x600000, 0);
    let mut dbg = Debugger::new(String::from("target"), sim);

    match dbg.handle_command(&String::from("memory write 0x600000 0xdeadbeefcafebabe")) {
        CommandResult::Output(lines) => assert!(lines.is_empty()),
        other => panic!("unexpected outcome: {:?}", other),
    }
    match dbg.handle_command(&String::from("memory read 0x600000")) {
        CommandResult::Output(lines) => {
            assert_eq!(lines.len(), 1);
            assert_eq!(lines[0], "0x600000 --> 16045690984503098046");
        },
        other => panic!("unexpected outcome: {:?}", other),
    }
}

#[test]
fn continue_reports_debuggee_termination() {
    let mut sim = SimTracer::new(RegisterBank::zeroed());
    sim.push_event(0, WaitStatus::Exited);
    let mut dbg = Debugger::new(String::from("target"), sim);
    match dbg.handle_command(&String::from("continue")) {
        CommandResult::Output(lines) => assert_eq!(lines, vec!["The debuggee has exited"]),
        other => panic!("unexpected outcome: {:?}", other),
    }
}

#[test]
fn unknown_command_prints_help_and_changes_nothing() {
    let mut bank = RegisterBank::zeroed();
    bank.rbx = 7;
    let mut sim = SimTracer::new(bank);
    sim.map_word(0x1000, 0x55);
    let mut dbg = Debugger::new(String::from("target"), sim);
    dbg.set_breakpoint_at_address("0x1000").unwrap();
    let count_before = dbg.breakpoint_count();

    match dbg.handle_command(&String::from("foo")) {
        CommandResult::UserError(msg) => assert_eq!(msg, help_text()),
        other => panic!("unexpected outcome: {:?}", other),
    }
    assert_eq!(dbg.breakpoint_count(), count_before);
    assert_eq!(dbg.read_register(&String::from("rbx")), Ok(7));
    assert_eq!(dbg.tracer().read(0x1000).unwrap() & 0xff, 0xCC);
}

#[test]
fn empty_command_prints_help() {
    let mut dbg = engine_with(RegisterBank::zeroed());
    match dbg.handle_command(&String::from("   ")) {
        CommandResult::UserError(msg) => assert_eq!(msg, help_text()),
        other => panic!("unexpected outcome: {:?}", other),
    }
}

#[test]
fn breakpoint_map_replaces_at_same_address() {
    let mut sim = SimTracer::new(RegisterBank::zeroed());
    sim.map_word(0x1000, 0x1122334455667788);
    sim.map_word(0x2000, 0x99);
    let mut dbg = Debugger::new(String::from("target"), sim);

    assert_eq!(dbg.breakpoint_count(), 0);
    dbg.set_breakpoint_at_address("0x1000").unwrap();
    assert_eq!(dbg.breakpoint_count(), 1);

    // Same address again: the entry is replaced, not duplicated, and the
    // saved byte still holds the true original, not the trap byte.
    dbg.set_breakpoint_at_address("0x1000").unwrap();
    assert_eq!(dbg.breakpoint_count(), 1);
    assert_eq!(dbg.breakpoint_at(0x1000).unwrap().saved_data, 0x88);

    dbg.set_breakpoint_at_address("0x2000").unwrap();
    assert_eq!(dbg.breakpoint_count(), 2);
}

#[test]
fn command_words_are_case_insensitive() {
    let mut dbg = engine_with(RegisterBank::zeroed());
    match dbg.handle_command(&String::from("REGISTER Read RAX")) {
        CommandResult::Output(lines) => assert_eq!(lines[0], "RAX -> 0"),
        other => panic!("unexpected outcome: {:?}", other),
    }
    match dbg.handle_command(&String::from("eXiT")) {
        CommandResult::Exit => {},
        other => panic!("unexpected outcome: {:?}", other),
    }
}

#[test]
fn user_errors_for_missing_arguments() {
    let mut dbg = engine_with(RegisterBank::zeroed());
    let cases = [
        ("break", "No address provided for the breakpoint"),
        ("break 0xzz", "Failed to parse address"),
        ("register", "You cannot call the register command without any arguments"),
        ("register read", "This command requires a register name"),
        ("register read nosuch", "This register doesn't exist in the table"),
        ("register write", "This command requires a register name"),
        ("register write rax", "This command requires a value that will be set to the register"),
        ("register write nosuch 0x1", "This register doesn't exist in the table"),
        ("register write rax zz", "Failed to parse the string to an u64 value"),
        ("memory", "Command memory cannot be called without any arguments"),
        ("memory read", "You should precise the address you want to manipulate"),
        ("memory read 0xzz", "Failed to parse address"),
        ("memory write 0x10", "You should precise the value that will be set to the register"),
        ("memory write 0x10 0xzz", "Failed to parse address"),
    ];
    for (input, expected) in cases.iter() {
        match dbg.handle_command(&String::from(*input)) {
            CommandResult::UserError(msg) => assert_eq!(msg, *expected, "input: {}", input),
            other => panic!("unexpected outcome for {}: {:?}", input, other),
        }
    }
}

#[test]
fn trace_errors_are_fatal() {
    // Reading unmapped memory is a memory trace error.
    let mut dbg = engine_with(RegisterBank::zeroed());
    match dbg.handle_command(&String::from("memory read 0x1234")) {
        CommandResult::Fatal(e) => assert_eq!(e, TraceError::Memory),
        other => panic!("unexpected outcome: {:?}", other),
    }

    // A breakpoint at an unmapped address is fatal too.
    match dbg.handle_command(&String::from("break 0x1234")) {
        CommandResult::Fatal(e) => assert_eq!(e, TraceError::Memory),
        other => panic!("unexpected outcome: {:?}", other),
    }

    // Once the debuggee has exited, register access reports it gone.
    let mut sim = SimTracer::new(RegisterBank::zeroed());
    sim.push_event(0, WaitStatus::Exited);
    let mut dbg = Debugger::new(String::from("target"), sim);
    assert_eq!(dbg.continue_execution().unwrap(), WaitStatus::Exited);
    assert_eq!(
        dbg.read_register(&String::from("rax")),
        Err(DebugError::Trace(TraceError::NoSuchProcess))
    );
    match dbg.handle_command(&String::from("register dump")) {
        CommandResult::Fatal(e) => assert_eq!(e, TraceError::NoSuchProcess),
        other => panic!("unexpected outcome: {:?}", other),
    }
}

#[test]
fn unknown_register_name_is_recoverable() {
    let dbg = engine_with(RegisterBank::zeroed());
    assert_eq!(dbg.read_register(&String::from("nosuch")), Err(DebugError::Input));
}

#[test]
fn prog_name_is_kept_for_display() {
    let dbg = engine_with(RegisterBank::zeroed());
    assert_eq!(dbg.prog_name().as_str(), "target");
}
