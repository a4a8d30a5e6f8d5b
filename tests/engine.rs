use rip8::cpu::Cpu;
use rip8::instruction::Instruction;
use rip8::rom::Rom;
use rip8::semantics::{FaultKind, TimerWrite};

fn rom_of(bytes: Vec<u8>) -> Rom {
    Rom { rom_path: String::from("test.ch8"), rom: bytes }
}

fn program(words: &[u16]) -> Vec<u8> {
    let mut bytes = Vec::new();
    for w in words {
        bytes.push((w >> 8) as u8);
        bytes.push((w & 0xFF) as u8);
    }
    bytes
}

fn machine(bytes: Vec<u8>) -> Cpu {
    let mut cpu = Cpu::new(rom_of(bytes), false, false);
    cpu.load_font();
    cpu.load_rom().unwrap();
    cpu
}

fn run(cpu: &mut Cpu, steps: usize) {
    for _ in 0..steps {
        cpu.tick().unwrap();
    }
}

#[test]
fn load_immediate_sets_register_and_advances_two() {
    let mut cpu = machine(program(&[0x6A05]));
    let r = cpu.execute(0x6A05, 0, 0);
    assert!(matches!(r, Ok(TimerWrite::Nothing)));
    assert_eq!(cpu.registers().v[0xA], 5);
    assert_eq!(cpu.registers().pc, 0x202);
    let r = cpu.execute(0x63FF, 0, 0);
    assert!(r.is_ok());
    assert_eq!(cpu.registers().v[3], 0xFF);
    assert_eq!(cpu.registers().pc, 0x204);
}

#[test]
fn skip_if_registers_equal_double_steps() {
    let mut cpu = machine(program(&[0x6007, 0x6107, 0x5010]));
    run(&mut cpu, 3);
    assert_eq!(cpu.registers().pc, 0x204 + 4);

    let mut cpu = machine(program(&[0x6007, 0x6108, 0x5010]));
    run(&mut cpu, 3);
    assert_eq!(cpu.registers().pc, 0x204 + 2);
}

#[test]
fn skip_not_equal_and_immediate_forms() {
    let mut cpu = machine(program(&[0x6007, 0x3007]));
    run(&mut cpu, 2);
    assert_eq!(cpu.registers().pc, 0x206);
    let mut cpu = machine(program(&[0x6007, 0x4007]));
    run(&mut cpu, 2);
    assert_eq!(cpu.registers().pc, 0x204);
    let mut cpu = machine(program(&[0x6007, 0x6108, 0x9010]));
    run(&mut cpu, 3);
    assert_eq!(cpu.registers().pc, 0x208);
}

#[test]
fn add_registers_with_carry() {
    let mut cpu = machine(program(&[0x60C8, 0x6164, 0x8014]));
    run(&mut cpu, 3);
    assert_eq!(cpu.registers().v[0], 44);
    assert_eq!(cpu.registers().v[0xF], 1);

    let mut cpu = machine(program(&[0x600A, 0x6114, 0x8014]));
    run(&mut cpu, 3);
    assert_eq!(cpu.registers().v[0], 30);
    assert_eq!(cpu.registers().v[0xF], 0);
}

#[test]
fn add_immediate_wraps_without_flag() {
    let mut cpu = machine(program(&[0x60FF, 0x6F09, 0x7002]));
    run(&mut cpu, 3);
    assert_eq!(cpu.registers().v[0], 1);
    assert_eq!(cpu.registers().v[0xF], 9);
}

#[test]
fn subtraction_sets_no_borrow_flag() {
    let mut cpu = machine(program(&[0x600A, 0x6103, 0x8015]));
    run(&mut cpu, 3);
    assert_eq!(cpu.registers().v[0], 7);
    assert_eq!(cpu.registers().v[0xF], 1);

    let mut cpu = machine(program(&[0x6003, 0x610A, 0x8015]));
    run(&mut cpu, 3);
    assert_eq!(cpu.registers().v[0], 249);
    assert_eq!(cpu.registers().v[0xF], 0);

    let mut cpu = machine(program(&[0x6003, 0x610A, 0x8017]));
    run(&mut cpu, 3);
    assert_eq!(cpu.registers().v[0], 7);
    assert_eq!(cpu.registers().v[0xF], 1);
}

#[test]
fn bitwise_and_move_operations() {
    let mut cpu = machine(program(&[0x60F0, 0x613C, 0x8011]));
    run(&mut cpu, 3);
    assert_eq!(cpu.registers().v[0], 0xFC);
    let mut cpu = machine(program(&[0x60F0, 0x613C, 0x8012]));
    run(&mut cpu, 3);
    assert_eq!(cpu.registers().v[0], 0x30);
    let mut cpu = machine(program(&[0x60F0, 0x613C, 0x8013]));
    run(&mut cpu, 3);
    assert_eq!(cpu.registers().v[0], 0xCC);
    let mut cpu = machine(program(&[0x613C, 0x8010]));
    run(&mut cpu, 2);
    assert_eq!(cpu.registers().v[0], 0x3C);
}

#[test]
fn shift_right_moves_low_bit_into_flag() {
    let mut cpu = machine(program(&[0x6005, 0x8006]));
    run(&mut cpu, 2);
    assert_eq!(cpu.registers().v[0], 2);
    assert_eq!(cpu.registers().v[0xF], 1);

    let mut cpu = machine(program(&[0x6004, 0x8006]));
    run(&mut cpu, 2);
    assert_eq!(cpu.registers().v[0], 2);
    assert_eq!(cpu.registers().v[0xF], 0);
}

#[test]
fn bcd_stores_hundreds_tens_ones() {
    let mut cpu = machine(program(&[0x609D, 0xA300, 0xF033]));
    run(&mut cpu, 3);
    let ram = cpu.ram();
    assert_eq!(ram.read_byte(0x300), Ok(1));
    assert_eq!(ram.read_byte(0x301), Ok(5));
    assert_eq!(ram.read_byte(0x302), Ok(7));
}

#[test]
fn index_add_carry_quirk_and_font_pointer() {
    let mut cpu = machine(program(&[0xAFFF, 0x6001, 0xF01E]));
    run(&mut cpu, 3);
    assert_eq!(cpu.registers().i, 0x1000);
    assert_eq!(cpu.registers().v[0xF], 1);

    let mut cpu = machine(program(&[0xA100, 0x6001, 0xF01E]));
    run(&mut cpu, 3);
    assert_eq!(cpu.registers().i, 0x101);
    assert_eq!(cpu.registers().v[0xF], 0);

    let mut cpu = machine(program(&[0x600F, 0xF029]));
    run(&mut cpu, 2);
    assert_eq!(cpu.registers().i, 75);
    let mut cpu = machine(program(&[0x60FF, 0xF029]));
    run(&mut cpu, 2);
    assert_eq!(cpu.registers().i, 1275);
}

#[test]
fn drawing_twice_restores_display_and_reports_collision() {
    let mut cpu = machine(program(&[0xA000, 0x600A, 0x6105, 0xD015, 0xD015]));
    run(&mut cpu, 4);
    assert_eq!(cpu.registers().v[0xF], 0);
    assert!(cpu.screen.get(10, 5));
    assert!(cpu.screen.get(13, 5));
    assert!(!cpu.screen.get(14, 5));
    assert!(cpu.screen.get(10, 6));
    assert!(!cpu.screen.get(11, 6));
    run(&mut cpu, 1);
    assert_eq!(cpu.registers().v[0xF], 1);
    for y in 0..32 {
        for x in 0..64 {
            assert!(!cpu.screen.get(x, y));
        }
    }
}

#[test]
fn drawing_wraps_around_both_edges() {
    let mut bytes = program(&[0xA300, 0x603F, 0x611F, 0xD011]);
    bytes.resize(0x100, 0);
    bytes.push(0xFF);
    let mut cpu = machine(bytes);
    run(&mut cpu, 4);
    assert!(cpu.screen.get(63, 31));
    for x in 0..7 {
        assert!(cpu.screen.get(x, 31));
    }
    assert!(!cpu.screen.get(7, 31));
    assert!(!cpu.screen.get(62, 31));
    assert!(!cpu.screen.get(63, 0));
    assert_eq!(cpu.registers().v[0xF], 0);

    let mut bytes = program(&[0xA300, 0x6000, 0x611F, 0xD012]);
    bytes.resize(0x100, 0);
    bytes.push(0x80);
    bytes.push(0x80);
    let mut cpu = machine(bytes);
    run(&mut cpu, 4);
    assert!(cpu.screen.get(0, 31));
    assert!(cpu.screen.get(0, 0));
}

#[test]
fn clear_screen_turns_every_pixel_off() {
    let mut cpu = machine(program(&[0xA000, 0xD005, 0x00E0]));
    run(&mut cpu, 2);
    assert!(cpu.screen.get(0, 0));
    run(&mut cpu, 1);
    assert!(!cpu.screen.get(0, 0));
    assert_eq!(cpu.registers().pc, 0x206);
}

#[test]
fn store_then_load_registers_round_trip() {
    let mut cpu = machine(program(&[
        0x6011, 0x6122, 0x6233, 0x6344, 0xA400, 0xF355, 0x6000, 0x6100, 0x6200, 0x6300, 0xF365,
    ]));
    run(&mut cpu, 6);
    assert_eq!(cpu.ram().read_byte(0x403), Ok(0x44));
    assert_eq!(cpu.ram().read_byte(0x404), Ok(0));
    run(&mut cpu, 5);
    assert_eq!(cpu.registers().v[0], 0x11);
    assert_eq!(cpu.registers().v[1], 0x22);
    assert_eq!(cpu.registers().v[2], 0x33);
    assert_eq!(cpu.registers().v[3], 0x44);
    assert_eq!(cpu.registers().i, 0x400);
}

#[test]
fn jump_to_self_spins_forever() {
    let mut cpu = machine(vec![0x12, 0x00]);
    for _ in 0..1000 {
        assert!(cpu.tick().is_ok());
        assert_eq!(cpu.registers().pc, 0x200);
    }
}

#[test]
fn nested_calls_return_in_reverse_order() {
    // 0x200: CALL 0x210; 0x202: JP 0x202
    // 0x210: CALL 0x220; 0x212: RET
    // 0x220: RET
    let mut bytes = program(&[0x2210, 0x1202]);
    bytes.resize(0x10, 0);
    bytes.extend(program(&[0x2220, 0x00EE]));
    bytes.resize(0x20, 0);
    bytes.extend(program(&[0x00EE]));
    let mut cpu = machine(bytes);
    run(&mut cpu, 1);
    assert_eq!(cpu.registers().pc, 0x210);
    assert_eq!(cpu.registers().sp, 1);
    run(&mut cpu, 1);
    assert_eq!(cpu.registers().pc, 0x220);
    assert_eq!(cpu.registers().sp, 2);
    run(&mut cpu, 1);
    assert_eq!(cpu.registers().pc, 0x212);
    assert_eq!(cpu.registers().sp, 1);
    run(&mut cpu, 1);
    assert_eq!(cpu.registers().pc, 0x202);
    assert_eq!(cpu.registers().sp, 0);
    assert!(cpu.registers().stack.is_empty());
}

#[test]
fn return_with_empty_stack_faults() {
    let mut cpu = machine(program(&[0x00EE]));
    let f = cpu.tick().unwrap_err();
    assert_eq!(f.kind, FaultKind::StackUnderflow);
    assert_eq!(f.pc, 0x200);
    assert_eq!(f.word, 0x00EE);
    assert_eq!(f.instruction, Instruction::RET);
    assert_eq!(cpu.registers().pc, 0x200);
}

#[test]
fn seventeenth_nested_call_overflows() {
    let mut cpu = machine(program(&[0x2200]));
    run(&mut cpu, 16);
    assert_eq!(cpu.registers().sp, 16);
    let f = cpu.tick().unwrap_err();
    assert_eq!(f.kind, FaultKind::StackOverflow);
    assert_eq!(f.registers.stack.len(), 16);
}

#[test]
fn unknown_opcode_faults_with_diagnostics() {
    let mut cpu = machine(program(&[0x6A07, 0x0123]));
    run(&mut cpu, 1);
    let f = cpu.tick().unwrap_err();
    assert_eq!(f.kind, FaultKind::UnknownOpcode);
    assert_eq!(f.pc, 0x202);
    assert_eq!(f.word, 0x0123);
    assert_eq!(f.instruction, Instruction::Unknown);
    assert_eq!(f.registers.v[0xA], 7);
    assert_eq!(f.registers.pc, 0x202);
}

#[test]
fn memory_access_past_the_end_faults() {
    let mut cpu = machine(program(&[0xAFFE, 0xF033]));
    run(&mut cpu, 1);
    let f = cpu.tick().unwrap_err();
    assert_eq!(f.kind, FaultKind::OutOfBounds);
    assert_eq!(cpu.registers().pc, 0x202);

    let mut cpu = machine(program(&[0xAFFE, 0xD003]));
    run(&mut cpu, 1);
    assert_eq!(cpu.tick().unwrap_err().kind, FaultKind::OutOfBounds);

    let mut cpu = machine(program(&[0xAFFE, 0xF255]));
    run(&mut cpu, 1);
    assert_eq!(cpu.tick().unwrap_err().kind, FaultKind::OutOfBounds);

    let mut cpu = machine(program(&[0xAFFE, 0xF165]));
    run(&mut cpu, 1);
    assert!(cpu.tick().is_ok());
}

#[test]
fn fetch_past_the_end_faults() {
    let mut cpu = machine(program(&[0x1FFF]));
    run(&mut cpu, 1);
    assert_eq!(cpu.registers().pc, 0xFFF);
    let f = cpu.tick().unwrap_err();
    assert_eq!(f.kind, FaultKind::OutOfBounds);
    assert_eq!(f.pc, 0xFFF);
    assert!(cpu.current_word().is_err());
}

#[test]
fn key_skips_follow_the_keypad() {
    let mut cpu = machine(program(&[0x6003, 0xE09E]));
    cpu.keyboard.set(3);
    run(&mut cpu, 2);
    assert_eq!(cpu.registers().pc, 0x206);

    let mut cpu = machine(program(&[0x6003, 0xE09E]));
    run(&mut cpu, 2);
    assert_eq!(cpu.registers().pc, 0x204);

    let mut cpu = machine(program(&[0x6003, 0xE0A1]));
    run(&mut cpu, 2);
    assert_eq!(cpu.registers().pc, 0x206);

    let mut cpu = machine(program(&[0x6010, 0xE09E]));
    run(&mut cpu, 1);
    assert_eq!(cpu.tick().unwrap_err().kind, FaultKind::KeyOutOfRange);
}

#[test]
fn wait_for_key_polls_without_advancing() {
    let mut cpu = machine(program(&[0xF50A]));
    run(&mut cpu, 3);
    assert_eq!(cpu.registers().pc, 0x200);
    cpu.keyboard.set(9);
    cpu.keyboard.set(4);
    run(&mut cpu, 1);
    assert_eq!(cpu.registers().pc, 0x202);
    assert_eq!(cpu.registers().v[5], 4);
}

#[test]
fn timer_instructions_go_through_the_shared_timers() {
    let mut cpu = machine(program(&[0x6005, 0xF015, 0xF107, 0x6009, 0xF018]));
    run(&mut cpu, 3);
    assert_eq!(cpu.registers().v[1], 5);
    assert_eq!(cpu.timers().delay.get(), 5);
    run(&mut cpu, 2);
    assert_eq!(cpu.timers().sound.get(), 9);
    let r = cpu.execute(0xF015, 0, 0);
    assert!(matches!(r, Ok(TimerWrite::Delay(9))));
}

#[test]
fn random_byte_is_masked() {
    let mut cpu = machine(program(&[0x60FF, 0xC000]));
    run(&mut cpu, 2);
    assert_eq!(cpu.registers().v[0], 0);
    let mut cpu = machine(program(&[0xC00F]));
    run(&mut cpu, 1);
    assert!(cpu.registers().v[0] <= 0x0F);
    let mut cpu = machine(program(&[0xC3F0]));
    assert!(cpu.execute(0xC3F0, 0xAB, 0).is_ok());
    assert_eq!(cpu.registers().v[3], 0xA0);
}

#[test]
fn jump_and_load_index() {
    let mut cpu = machine(program(&[0xA123, 0x1456]));
    run(&mut cpu, 2);
    assert_eq!(cpu.registers().i, 0x123);
    assert_eq!(cpu.registers().pc, 0x456);
}

#[test]
fn rom_loads_at_start_address_and_font_at_zero() {
    let cpu = machine(vec![0xAB, 0xCD, 0xEF]);
    assert_eq!(cpu.ram().read_byte(0x200), Ok(0xAB));
    assert_eq!(cpu.ram().read_byte(0x202), Ok(0xEF));
    assert_eq!(cpu.ram().read_byte(0x203), Ok(0));
    assert_eq!(cpu.ram().read_byte(0), Ok(0xF0));
    assert_eq!(cpu.ram().read_byte(79), Ok(0x80));
    assert_eq!(cpu.current_word().unwrap(), 0xABCD);
}

#[test]
fn oversized_rom_is_refused() {
    let mut cpu = Cpu::new(rom_of(vec![1; 4096 - 0x200 + 1]), false, false);
    assert!(cpu.load_rom().is_err());
    assert_eq!(cpu.ram().read_byte(0x200), Ok(0));
    let mut cpu = Cpu::new(rom_of(vec![1; 4096 - 0x200]), false, false);
    assert!(cpu.load_rom().is_ok());
    assert_eq!(cpu.ram().read_byte(4095), Ok(1));
}

#[test]
fn disassembly_of_the_current_instruction() {
    let cpu = machine(program(&[0x6A05]));
    assert_eq!(cpu.disassemble(0x6A05), "0x200: ld Va, #5");
    assert_eq!(cpu.disassemble(0xD125), "0x200: drw V1, V2, #5");
    assert_eq!(cpu.disassemble(0x22A0), "0x200: call #2a0");
    assert_eq!(cpu.disassemble(0x0000), "0x200: Unknown");
}
