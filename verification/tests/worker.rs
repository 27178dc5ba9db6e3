use lmvc8_core::compiler::Compiler;
use lmvc8_core::console::cartridge::Cartridge;
use lmvc8_core::console::components::cpu::registers::R8;
use lmvc8_core::console::input::ConsoleInput;
use lmvc8_core::console::types::address::Address;
use lmvc8_core::console::Console;
use lmvc8_core::debugger::Debugger;
use lmvc8_core::emulator::command::EmulatorCommand;
use lmvc8_core::emulator::event::EmulatorEvent;
use lmvc8_core::emulator::thread::EmulatorThreadContext;

fn context() -> EmulatorThreadContext {
    EmulatorThreadContext::new(Console::new(), Debugger::new())
}

fn add_program() -> Cartridge {
    let binary = Compiler::new()
        .load_r8i(R8::A, 12)
        .load_r8i(R8::B, 13)
        .add_r8(R8::B)
        .compile();
    Cartridge::new(binary)
}

#[test]
fn set_clock_speed_is_published() {
    let mut ctx = context();
    let outcome = ctx.handle_command(EmulatorCommand::SetClockSpeed(120));
    assert!(!outcome.shutdown);
    assert_eq!(ctx.cycles_per_second, 120);
    assert_eq!(ctx.snapshot().cycles_per_second, 120);
}

#[test]
fn shutdown_command_stops_the_loop() {
    let mut ctx = context();
    let outcome = ctx.handle_command(EmulatorCommand::Shutdown);
    assert!(outcome.shutdown);
    assert!(outcome.event.is_none());
}

#[test]
fn load_reports_success_and_failure() {
    let mut ctx = context();
    let outcome = ctx.handle_command(EmulatorCommand::Load(Box::new(add_program())));
    assert!(matches!(outcome.event, Some(EmulatorEvent::CartridgeLoadSuccess)));
    let oversized = Cartridge::new(vec![0u8; 0x8001]);
    let outcome = ctx.handle_command(EmulatorCommand::Load(Box::new(oversized)));
    assert!(matches!(outcome.event, Some(EmulatorEvent::CartridgeLoadFailed)));
    assert!(!ctx.running);
    assert!(!ctx.halt);
}

#[test]
fn step_command_steps_only_when_paused() {
    let mut ctx = context();
    ctx.handle_command(EmulatorCommand::Load(Box::new(add_program())));
    ctx.handle_command(EmulatorCommand::Step);
    assert_eq!(ctx.console.cpu.get_pc().value(), 2);
    ctx.handle_command(EmulatorCommand::Run);
    ctx.handle_command(EmulatorCommand::Step);
    assert_eq!(ctx.console.cpu.get_pc().value(), 2);
}

#[test]
fn run_frame_runs_to_halt() {
    let mut ctx = context();
    ctx.handle_command(EmulatorCommand::Load(Box::new(add_program())));
    ctx.handle_command(EmulatorCommand::Run);
    let cycles = ctx.run_frame();
    assert!(cycles > 0);
    assert!(ctx.halt);
    assert!(!ctx.running);
    assert_eq!(ctx.console.cpu.get_registers().get_a().value(), 25);
    let snapshot = ctx.snapshot();
    assert!(snapshot.is_halting);
    assert!(!snapshot.is_running);
    assert_eq!(snapshot.cpu_snapshot.get_registers().get_a().value(), 25);
}

#[test]
fn run_frame_does_nothing_while_paused() {
    let mut ctx = context();
    ctx.handle_command(EmulatorCommand::Load(Box::new(add_program())));
    let cycles = ctx.run_frame();
    assert_eq!(cycles, 0);
    assert_eq!(ctx.console.cpu.get_pc().value(), 0);
}

#[test]
fn breakpoint_pauses_the_run() {
    let mut ctx = context();
    ctx.handle_command(EmulatorCommand::Load(Box::new(add_program())));
    // After the first instruction retires the PC sits at 2.
    ctx.handle_command(EmulatorCommand::SetBreakpoint(Address::from_u16(2)));
    ctx.handle_command(EmulatorCommand::Run);
    ctx.run_frame();
    assert!(!ctx.running);
    assert!(!ctx.halt);
    assert_eq!(ctx.console.cpu.get_pc().value(), 2);
    let snapshot = ctx.snapshot();
    assert_eq!(snapshot.breakpoints.len(), 1);
}

#[test]
fn remove_breakpoint_lets_the_run_finish() {
    let mut ctx = context();
    ctx.handle_command(EmulatorCommand::Load(Box::new(add_program())));
    ctx.handle_command(EmulatorCommand::SetBreakpoint(Address::from_u16(2)));
    ctx.handle_command(EmulatorCommand::RemoveBreakpoint(Address::from_u16(2)));
    ctx.handle_command(EmulatorCommand::Run);
    ctx.run_frame();
    assert!(ctx.halt);
}

#[test]
fn reset_clears_cpu_and_pauses() {
    let mut ctx = context();
    ctx.handle_command(EmulatorCommand::Load(Box::new(add_program())));
    ctx.handle_command(EmulatorCommand::Run);
    ctx.run_frame();
    ctx.handle_command(EmulatorCommand::Reset);
    assert!(!ctx.running);
    assert!(!ctx.halt);
    assert_eq!(ctx.console.cpu.get_pc().value(), 0);
    assert_eq!(ctx.console.cpu.get_registers().get_a().value(), 0);
    assert_eq!(ctx.console.cpu.get_registers().get_sp().value(), 0xFFFA);
}

#[test]
fn input_command_raises_input_interrupt_line() {
    let mut ctx = context();
    ctx.handle_command(EmulatorCommand::Input(ConsoleInput::Start));
    assert!(ctx.console.bus.ia.input);
    assert_eq!(ctx.console.bus.ic.flags.bits(), 0x40);
}

#[test]
fn debugger_set_and_remove() {
    let mut debugger = Debugger::new();
    debugger.set_breakpoint(Address::from_u16(5));
    debugger.set_breakpoint(Address::from_u16(5));
    debugger.set_breakpoint(Address::from_u16(9));
    assert_eq!(debugger.get_breakpoints().len(), 2);
    assert!(debugger.contains(Address::from_u16(5)));
    debugger.remove_breakpoint(Address::from_u16(5));
    assert!(!debugger.contains(Address::from_u16(5)));
    assert!(debugger.contains(Address::from_u16(9)));
}

#[test]
fn inspect_reports_breakpoint_at_pc() {
    let mut debugger = Debugger::new();
    let console = Console::new();
    assert!(debugger.inspect(&console).is_empty());
    debugger.set_breakpoint(Address::from_u16(0));
    let events = debugger.inspect(&console);
    assert_eq!(events.len(), 1);
}
