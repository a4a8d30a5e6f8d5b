use rip8::instruction::Instruction;
use rip8::instructions::{hex_string, Instructions};

#[test]
fn decode_uses_the_family_masks() {
    let d = Instructions::new();
    assert_eq!(d.decode(0x00E0), Instruction::CLS);
    assert_eq!(d.decode(0x00EE), Instruction::RET);
    assert_eq!(d.decode(0x0123), Instruction::Unknown);
    assert_eq!(d.decode(0x00E1), Instruction::Unknown);
    assert_eq!(d.decode(0x1ABC), Instruction::JP);
    assert_eq!(d.decode(0x2ABC), Instruction::CALL);
    assert_eq!(d.decode(0x3A12), Instruction::SeX);
    assert_eq!(d.decode(0x4A12), Instruction::SneX);
    assert_eq!(d.decode(0x5AB0), Instruction::SeXY);
    assert_eq!(d.decode(0x6A12), Instruction::LdV);
    assert_eq!(d.decode(0x7A12), Instruction::AddX);
    assert_eq!(d.decode(0x8AB0), Instruction::LdXY);
    assert_eq!(d.decode(0x8AB1), Instruction::OR);
    assert_eq!(d.decode(0x8AB2), Instruction::AND);
    assert_eq!(d.decode(0x8AB3), Instruction::XOR);
    assert_eq!(d.decode(0x8AB4), Instruction::AddXY);
    assert_eq!(d.decode(0x8AB5), Instruction::SUB);
    assert_eq!(d.decode(0x8AB6), Instruction::SHR);
    assert_eq!(d.decode(0x8AB7), Instruction::SUBN);
    assert_eq!(d.decode(0x8AB8), Instruction::Unknown);
    assert_eq!(d.decode(0x9AB0), Instruction::SneXY);
    assert_eq!(d.decode(0xA123), Instruction::LdI);
    assert_eq!(d.decode(0xB123), Instruction::Unknown);
    assert_eq!(d.decode(0xC1FF), Instruction::RND);
    assert_eq!(d.decode(0xD125), Instruction::DRW);
    assert_eq!(d.decode(0xE59E), Instruction::SKP);
    assert_eq!(d.decode(0xE5A1), Instruction::SKNP);
    assert_eq!(d.decode(0xE5A2), Instruction::Unknown);
    assert_eq!(d.decode(0xF507), Instruction::LdXDT);
    assert_eq!(d.decode(0xF50A), Instruction::LdXK);
    assert_eq!(d.decode(0xF515), Instruction::LdDT);
    assert_eq!(d.decode(0xF518), Instruction::LdST);
    assert_eq!(d.decode(0xF51E), Instruction::AddI);
    assert_eq!(d.decode(0xF529), Instruction::LdF);
    assert_eq!(d.decode(0xF533), Instruction::LdB);
    assert_eq!(d.decode(0xF555), Instruction::LdIX);
    assert_eq!(d.decode(0xF565), Instruction::LdXI);
    assert_eq!(d.decode(0xF5FF), Instruction::Unknown);
}

#[test]
fn parse_looks_up_masked_patterns() {
    let d = Instructions::new();
    assert_eq!(d.parse(0x1000), Instruction::JP);
    assert_eq!(d.parse(0x1234), Instruction::Unknown);
    assert_eq!(d.parse(0x8004), Instruction::AddXY);
    assert_eq!(d.parse(0xF065), Instruction::LdXI);
    assert_eq!(d.pattern(0x8AB4), 0x8004);
    assert_eq!(d.pattern(0xE59E), 0xE09E);
    assert_eq!(d.pattern(0x6A12), 0x6000);
    assert_eq!(d.pattern(0x00EE), 0x00EE);
}

#[test]
fn field_extractors() {
    let d = Instructions::new();
    assert_eq!(d.parse_nibble(0, 0xABCD), 0xA);
    assert_eq!(d.parse_nibble(1, 0xABCD), 0xB);
    assert_eq!(d.parse_nibble(2, 0xABCD), 0xC);
    assert_eq!(d.parse_nibble(3, 0xABCD), 0xD);
    assert_eq!(d.parse_address(0xABCD), 0xBCD);
    assert_eq!(d.parse_last(0xABCD), 0xCD);
}

#[test]
fn hexadecimal_rendering() {
    assert_eq!(hex_string(0), "0");
    assert_eq!(hex_string(9), "9");
    assert_eq!(hex_string(0xA), "a");
    assert_eq!(hex_string(0x10), "10");
    assert_eq!(hex_string(0x2A0), "2a0");
    assert_eq!(hex_string(0xFFFF), "ffff");
}

#[test]
fn debug_info_lines() {
    let d = Instructions::new();
    assert_eq!(d.get_debug_info(Instruction::JP, 0x200, 0x2A0, 0, 0), "0x200: jp #2a0");
    assert_eq!(d.get_debug_info(Instruction::LdV, 0x20a, 3, 0xff, 0), "0x20a: ld V3, #ff");
    assert_eq!(d.get_debug_info(Instruction::DRW, 0x200, 1, 2, 5), "0x200: drw V1, V2, #5");
    assert_eq!(d.get_debug_info(Instruction::CLS, 0x200, 0, 0, 0), "0x200: cls");
    assert_eq!(d.get_debug_info(Instruction::LdXK, 0x200, 4, 0, 0), "0x200: ld V4, K");
    assert_eq!(d.get_debug_info(Instruction::LdXI, 0x200, 4, 0, 0), "0x200: ld V4, [I]");
    assert_eq!(d.get_debug_info(Instruction::LdXDT, 0x200, 4, 0, 0), "0x200: ld V4, DT");
    assert_eq!(d.get_debug_info(Instruction::SUBN, 0x200, 4, 5, 0), "0x200: subn V4, V5");
    assert_eq!(d.get_debug_info(Instruction::Unknown, 0xfff, 0, 0, 0), "0xfff: Unknown");
}
