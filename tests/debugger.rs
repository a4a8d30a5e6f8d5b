use rip8::cpu::Cpu;
use rip8::debugger::{parse_command, parse_hex_address, Command, Debugger};
use rip8::rom::Rom;

fn cpu(interactive: bool) -> Cpu {
    let mut cpu = Cpu::new(Rom { rom_path: String::new(), rom: vec![0x12, 0x00] }, false, interactive);
    cpu.load_rom().unwrap();
    cpu
}

#[test]
fn commands_are_exact_and_case_sensitive() {
    assert_eq!(parse_command("regdump"), Command::RegDump);
    assert_eq!(parse_command("memdump"), Command::MemDump);
    assert_eq!(parse_command("break"), Command::ClearBreak);
    assert_eq!(parse_command("run"), Command::Run);
    assert_eq!(parse_command("+input"), Command::KeyDown);
    assert_eq!(parse_command("-input"), Command::KeyUp);
    assert_eq!(parse_command("help"), Command::Help);
    assert_eq!(parse_command(""), Command::Step);
    assert_eq!(parse_command("step"), Command::Step);
    assert_eq!(parse_command("Regdump"), Command::Step);
    assert_eq!(parse_command("regdump "), Command::Step);
}

#[test]
fn break_takes_a_hexadecimal_address() {
    assert_eq!(parse_command("break 2A0"), Command::SetBreak(0x2A0));
    assert_eq!(parse_command("break 2a0"), Command::SetBreak(0x2A0));
    assert_eq!(parse_command("break FFFF"), Command::SetBreak(0xFFFF));
    assert_eq!(parse_command("break 0"), Command::SetBreak(0));
    assert_eq!(parse_command("break "), Command::Malformed);
    assert_eq!(parse_command("break xyz"), Command::Malformed);
    assert_eq!(parse_command("break 2g"), Command::Malformed);
    assert_eq!(parse_command("break 10000"), Command::Malformed);
    assert_eq!(parse_command("break 0x200"), Command::Malformed);
    assert_eq!(parse_hex_address("at 1f", 3), Some(0x1F));
}

#[test]
fn breakpoint_state_machine() {
    let mut d = Debugger { debug: false, interactive: true, debug_break: false, break_point: 0, debug_run: false };
    assert!(d.prompts(0x200));
    assert!(!d.apply(Command::SetBreak(0x204)));
    assert!(d.debug_break);
    assert_eq!(d.break_point, 0x204);
    assert!(!d.apply(Command::Help));
    assert!(!d.apply(Command::Malformed));
    assert!(d.apply(Command::Step));
    assert!(d.apply(Command::Run));
    assert!(d.debug_run);
    assert!(!d.prompts(0x200));
    assert!(d.prompts(0x204));
    assert!(!d.apply(Command::ClearBreak));
    assert!(!d.prompts(0x204));
}

#[test]
fn free_running_engine_never_prompts() {
    let c = cpu(false);
    assert!(!c.awaiting_command());
    let c = cpu(true);
    assert!(c.awaiting_command());
}

#[test]
fn input_commands_drive_key_zero() {
    let mut c = cpu(true);
    assert!(!c.apply_command(Command::KeyDown));
    assert!(c.keyboard.pressed(0));
    assert!(!c.apply_command(Command::KeyUp));
    assert!(!c.keyboard.pressed(0));
    assert!(c.apply_command(Command::Run));
    assert!(!c.awaiting_command());
    assert!(!c.apply_command(Command::SetBreak(0x200)));
    assert!(c.awaiting_command());
    assert!(c.debugger().debug_run);
}
