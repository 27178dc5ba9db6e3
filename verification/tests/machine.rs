use lmvc8_core::compiler::Compiler;
use lmvc8_core::console::cartridge::Cartridge;
use lmvc8_core::console::components::cpu::registers::R16;
use lmvc8_core::console::components::cpu::registers::R8;
use lmvc8_core::console::components::rom::ROM;
use lmvc8_core::console::input::ConsoleInput;
use lmvc8_core::console::types::address::Address;
use lmvc8_core::console::Console;
use lmvc8_core::error::LMVC8Error;

#[test]
fn simple_add_program() {
    let binary = Compiler::new()
        .load_r8i(R8::A, 12)
        .load_r8i(R8::B, 13)
        .add_r8(R8::B)
        .compile();
    let mut console = Console::new();
    console.load_cartridge(Cartridge::new(binary)).unwrap();
    console.step_till_halt();
    let regs = console.cpu.get_registers();
    assert_eq!(regs.get_a().value(), 25);
    assert_eq!(regs.get_b().value(), 13);
    // The PC points at the byte after the Halt opcode (4 instruction bytes
    // of the program, then Halt at offset 5).
    assert_eq!(console.cpu.get_pc().value(), 6);
}

#[test]
fn subtract_with_carry_sets_flags() {
    let binary = Compiler::new()
        .load_r8i(R8::A, 0)
        .load_r8i(R8::B, 1)
        .sub_r8(R8::B)
        .compile();
    let mut console = Console::new();
    console.load_cartridge(Cartridge::new(binary)).unwrap();
    console.step_till_halt();
    let regs = console.cpu.get_registers();
    assert_eq!(regs.get_a().value(), 0xFF);
    let flags = console.cpu.get_alu().get_flags();
    assert!(flags.is_carry());
    assert!(flags.is_negative());
    assert!(!flags.is_zero());
    assert!(!flags.is_overflow());
}

#[test]
fn indirect_store_via_hl() {
    // LoadR8(H, HL): target H (index 5), source HL (index 7) → 0x49.
    let mut console = Console::builder()
        .r16(R16::HL, 0x8000)
        .r8(R8::HL, 0x71)
        .rom(0x49)
        .rom(0x10)
        .build();
    console.step_till_halt();
    let regs = console.cpu.get_registers();
    assert_eq!(regs.get_h().value(), 0x71);
    assert_eq!(console.bus.ram.data[0], 0x71);
}

#[test]
fn push_pop_bc_round_trip() {
    let mut console = Console::builder()
        .r16(R16::SP, 0xFFFA)
        .r16(R16::BC, 0x1234)
        .rom(0x81) // Push BC
        .rom(0x85) // Pop BC
        .rom(0x10) // Halt
        .build();
    let step = console.step();
    assert!(!step.cpu_step_flags.is_halt());
    // The pushed word sits with the high byte at the old SP and the low
    // byte one below.
    assert_eq!(console.bus.ram.data[0x7FFA], 0x12);
    assert_eq!(console.bus.ram.data[0x7FF9], 0x34);
    console.step_till_halt();
    let regs = console.cpu.get_registers();
    assert_eq!(regs.get_sp().value(), 0xFFFA);
    assert_eq!(regs.get_r16(R16::BC).value(), 0x1234);
}

#[test]
fn pop_af_sets_flag_byte() {
    // The word to pop sits at [0xFFF9 (low), 0xFFFA (high)]; SP points one
    // below the low byte, as it does after a push of that word.
    let mut console = Console::builder()
        .r16(R16::SP, 0xFFF8)
        .write(0xFFFA, 0x75)
        .write(0xFFF9, 0x01)
        .rom(0x84) // Pop AF
        .rom(0x10) // Halt
        .build();
    console.step_till_halt();
    let regs = console.cpu.get_registers();
    assert_eq!(regs.get_a().value(), 0x75);
    assert_eq!(console.cpu.get_alu().get_flags().bits(), 0x01);
    assert_eq!(regs.get_sp().value(), 0xFFFA);
}

#[test]
fn input_interrupt_dispatch() {
    let mut console = Console::builder()
        .ime(true)
        .write(0xFFFF, 0b10) // IE: input line enabled
        .write(0xFFFE, 0b10) // IA: input line active
        .pc(0x0200)
        .r16(R16::SP, 0xFFFA)
        .build();
    console.step();
    assert!(!console.cpu.ime);
    assert_eq!(console.bus.ram.data[0x7FFA], 0x02);
    assert_eq!(console.bus.ram.data[0x7FF9], 0x00);
    // The vector held NoOp (zeroed ROM), so the fetch advanced the PC past
    // the input interrupt vector at 0x0048.
    assert_eq!(console.cpu.get_pc().value(), 0x0049);
}

#[test]
fn step_costs_fetch_and_decode() {
    let mut console = Console::new();
    let step = console.step();
    // NoOp in zeroed ROM: one fetch access plus the decode tick.
    assert_eq!(step.cycles, 2);
}

#[test]
fn immediate_load_costs_extra_cycles() {
    let mut console = Console::builder()
        .rom(0x64) // LoadR8i A
        .rom(0x2A)
        .build();
    let step = console.step();
    // Fetch, decode, and one operand read.
    assert_eq!(step.cycles, 3);
    assert_eq!(console.cpu.get_registers().get_a().value(), 0x2A);
}

#[test]
fn rom_rejects_oversized_image() {
    let image = vec![0u8; 0x8001];
    assert!(matches!(ROM::new(image), Err(LMVC8Error::ROMSizeExceeded)));
    let exact = vec![7u8; 0x8000];
    assert!(ROM::new(exact).is_ok());
}

#[test]
fn rom_zero_pads_short_image() {
    let rom = ROM::new(vec![1, 2, 3]).unwrap();
    assert_eq!(rom.read(Address::from_u16(0)).value(), 1);
    assert_eq!(rom.read(Address::from_u16(2)).value(), 3);
    assert_eq!(rom.read(Address::from_u16(3)).value(), 0);
    assert_eq!(rom.read(Address::from_u16(0x7FFF)).value(), 0);
}

#[test]
fn load_cartridge_keeps_state_on_failure() {
    let mut console = Console::builder().r16(R16::BC, 0x5678).build();
    let err = console.load_cartridge(Cartridge::new(vec![0u8; 0x8001]));
    assert!(matches!(err, Err(LMVC8Error::ROMSizeExceeded)));
    assert_eq!(console.cpu.get_registers().get_r16(R16::BC).value(), 0x5678);
}

#[test]
fn load_r8_copies_source() {
    let mut console = Console::builder()
        .r8(R8::B, 7)
        .rom(0x20) // LoadR8(A, B)
        .rom(0x10)
        .build();
    console.step_till_halt();
    let regs = console.cpu.get_registers();
    assert_eq!(regs.get_a().value(), 7);
    assert_eq!(regs.get_b().value(), 7);
}

#[test]
fn rom_writes_are_dropped() {
    // LoadR8(HL, A): target HL (7), source A (0): 0x20 + 7*7 + 0 = 0x51,
    // with HL pointing into ROM.
    let mut console = Console::builder()
        .r16(R16::HL, 0x0010)
        .r8(R8::A, 0x5A)
        .rom(0x51)
        .rom(0x10)
        .build();
    console.step_till_halt();
    assert_eq!(console.bus.rom.read(Address::from_u16(0x0010)).value(), 0);
}

#[test]
fn input_controller_latches_keys_and_touch() {
    let mut console = Console::new();
    console.bus.input(ConsoleInput::A);
    console.bus.input(ConsoleInput::Touch(3, 9));
    assert!(console.bus.ia.input);
    assert_eq!(console.bus.read(Address::from_u16(0xFFFB)).value(), 3);
    assert_eq!(console.bus.read(Address::from_u16(0xFFFC)).value(), 9);
    assert_eq!(console.bus.read(Address::from_u16(0xFFFD)).value(), 0x90);
}

#[test]
fn reset_installs_default_sp() {
    let console = Console::new();
    assert_eq!(console.cpu.get_registers().get_sp().value(), 0xFFFA);
    let mut console = Console::builder().r16(R16::SP, 0x9000).build();
    console.reset();
    assert_eq!(console.cpu.get_registers().get_sp().value(), 0xFFFA);
}

#[test]
fn push_works_without_loading_sp() {
    // With the default SP a fresh guest can push immediately: the word
    // lands at the top of RAM.
    let mut console = Console::builder()
        .r16(R16::BC, 0xAB12)
        .rom(0x81) // Push BC
        .rom(0x10) // Halt
        .build();
    console.step_till_halt();
    assert_eq!(console.bus.ram.data[0x7FFA], 0xAB);
    assert_eq!(console.bus.ram.data[0x7FF9], 0x12);
    assert_eq!(console.cpu.get_registers().get_sp().value(), 0xFFF8);
}

#[test]
fn sfr_access_is_free() {
    let mut console = Console::new();
    console.bus.write(Address::from_u16(0xFFFF), lmvc8_core::console::types::byte::Byte::new(3));
    let ie = console.bus.read(Address::from_u16(0xFFFF));
    assert_eq!(ie.value(), 3);
    assert_eq!(console.bus.take_step_cycles(), 0);
}
