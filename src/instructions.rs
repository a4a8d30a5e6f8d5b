use vstd::prelude::*;

use crate::instruction::Instruction;

verus! {

/// The `k`-th nibble of `word`, counted from the most significant (`k == 0`).
pub open spec fn nibble_of(word: u16, k: int) -> u8 {
    if k == 0 {
        (word / 4096) as u8
    } else if k == 1 {
        ((word / 256) % 16) as u8
    } else if k == 2 {
        ((word / 16) % 16) as u8
    } else {
        (word % 16) as u8
    }
}

/// The 12-bit address field `nnn` of `word`.
pub open spec fn address_of(word: u16) -> u16 {
    (word % 4096) as u16
}

/// The low byte `kk` of `word`.
pub open spec fn immediate_of(word: u16) -> u8 {
    (word % 256) as u8
}

/// The pattern under which `word` is looked up: the two zero-family words by
/// exact value, the `8` family by first and last nibble, the `E` and `F`
/// families by first nibble and low byte, every other word by first nibble.
pub open spec fn pattern_of(word: u16) -> u16 {
    let family = word / 4096;
    if word == 0x00E0 || word == 0x00EE {
        word
    } else if family == 0x8 {
        (family * 4096 + word % 16) as u16
    } else if family == 0xE || family == 0xF {
        (family * 4096 + word % 256) as u16
    } else {
        (family * 4096) as u16
    }
}

/// The operation that a lookup pattern stands for.
pub open spec fn operation_of(pattern: u16) -> Instruction {
    match pattern {
        0x1000 => Instruction::JP,
        0xA000 => Instruction::LdI,
        0x6000 => Instruction::LdV,
        0xD000 => Instruction::DRW,
        0xF01E => Instruction::AddI,
        0x7000 => Instruction::AddX,
        0x3000 => Instruction::SeX,
        0x5000 => Instruction::SeXY,
        0xF00A => Instruction::LdXK,
        0x00E0 => Instruction::CLS,
        0x00EE => Instruction::RET,
        0x2000 => Instruction::CALL,
        0x8000 => Instruction::LdXY,
        0x8006 => Instruction::SHR,
        0xF033 => Instruction::LdB,
        0xF065 => Instruction::LdXI,
        0xF029 => Instruction::LdF,
        0xC000 => Instruction::RND,
        0x8004 => Instruction::AddXY,
        0xE09E => Instruction::SKP,
        0xE0A1 => Instruction::SKNP,
        0xF015 => Instruction::LdDT,
        0xF018 => Instruction::LdST,
        0xF007 => Instruction::LdXDT,
        0x4000 => Instruction::SneX,
        0x9000 => Instruction::SneXY,
        0xF055 => Instruction::LdIX,
        0x8001 => Instruction::OR,
        0x8002 => Instruction::AND,
        0x8003 => Instruction::XOR,
        0x8005 => Instruction::SUB,
        0x8007 => Instruction::SUBN,
        _ => Instruction::Unknown,
    }
}

/// The operation encoded by a raw instruction word.
pub open spec fn decode_spec(word: u16) -> Instruction {
    operation_of(pattern_of(word))
}

/// The masks of the decoder and the field extractors, as arithmetic.
proof fn lemma_masks(word: u16)
    by (bit_vector)
    ensures
        word & 0xF000 == (word / 4096) * 4096,
        word & 0xF00F == (word / 4096) * 4096 + word % 16,
        word & 0xF0FF == (word / 4096) * 4096 + word % 256,
        word & 0x0FFF == word % 4096,
        word & 0x00FF == word % 256,
        (word & 0xF000) >> 12 == word / 4096,
        (word & 0x0F00) >> 8 == (word / 256) % 16,
        (word & 0x00F0) >> 4 == (word / 16) % 16,
        word & 0x000F == word % 16,
{
}

/// The lowercase hexadecimal digit `d` (`0 <= d < 16`).
pub open spec fn hex_digit(d: int) -> Seq<char> {
    if d == 0 {
        "0"@
    } else if d == 1 {
        "1"@
    } else if d == 2 {
        "2"@
    } else if d == 3 {
        "3"@
    } else if d == 4 {
        "4"@
    } else if d == 5 {
        "5"@
    } else if d == 6 {
        "6"@
    } else if d == 7 {
        "7"@
    } else if d == 8 {
        "8"@
    } else if d == 9 {
        "9"@
    } else if d == 10 {
        "a"@
    } else if d == 11 {
        "b"@
    } else if d == 12 {
        "c"@
    } else if d == 13 {
        "d"@
    } else if d == 14 {
        "e"@
    } else {
        "f"@
    }
}

/// `n` in lowercase hexadecimal, without leading zeros.
pub open spec fn hex_spec(n: nat) -> Seq<char>
    decreases n,
{
    if n < 16 {
        hex_digit(n as int)
    } else {
        hex_spec(n / 16) + hex_digit((n % 16) as int)
    }
}

fn hex_digit_str(d: u16) -> (r: &'static str)
    requires
        d < 16,
    ensures
        r@ == hex_digit(d as int),
{
    if d == 0 {
        "0"
    } else if d == 1 {
        "1"
    } else if d == 2 {
        "2"
    } else if d == 3 {
        "3"
    } else if d == 4 {
        "4"
    } else if d == 5 {
        "5"
    } else if d == 6 {
        "6"
    } else if d == 7 {
        "7"
    } else if d == 8 {
        "8"
    } else if d == 9 {
        "9"
    } else if d == 10 {
        "a"
    } else if d == 11 {
        "b"
    } else if d == 12 {
        "c"
    } else if d == 13 {
        "d"
    } else if d == 14 {
        "e"
    } else {
        "f"
    }
}

/// `n` in lowercase hexadecimal, without leading zeros.
pub fn hex_string(n: u16) -> (r: String)
    ensures
        r@ == hex_spec(n as nat),
    decreases n,
{
    if n < 16 {
        String::from_str(hex_digit_str(n))
    } else {
        let mut s = hex_string(n / 16);
        s.append(hex_digit_str(n % 16));
        s
    }
}

fn text1(l1: &str, a: u16) -> (r: String)
    ensures
        r@ == l1@ + hex_spec(a as nat),
{
    let mut s = String::from_str(l1);
    let h = hex_string(a);
    s.append(h.as_str());
    s
}

fn text2(l1: &str, a: u16, l2: &str, b: u16) -> (r: String)
    ensures
        r@ == l1@ + hex_spec(a as nat) + l2@ + hex_spec(b as nat),
{
    let mut s = text1(l1, a);
    s.append(l2);
    let h = hex_string(b);
    s.append(h.as_str());
    s
}

fn text3(l1: &str, a: u16, l2: &str, b: u16, l3: &str, c: u16) -> (r: String)
    ensures
        r@ == l1@ + hex_spec(a as nat) + l2@ + hex_spec(b as nat) + l3@ + hex_spec(c as nat),
{
    let mut s = text2(l1, a, l2, b);
    s.append(l3);
    let h = hex_string(c);
    s.append(h.as_str());
    s
}

/// The disassembly of `instruction` with operands `v1`, `v2`, `v3`, after
/// the address prefix.
pub open spec fn listing_body(instruction: Instruction, v1: u16, v2: u16, v3: u16) -> Seq<char> {
    let h1 = hex_spec(v1 as nat);
    let h2 = hex_spec(v2 as nat);
    let h3 = hex_spec(v3 as nat);
    match instruction {
        Instruction::JP => ": jp #"@ + h1,
        Instruction::LdI => ": ld I, #"@ + h1,
        Instruction::LdV => ": ld V"@ + h1 + ", #"@ + h2,
        Instruction::DRW => ": drw V"@ + h1 + ", V"@ + h2 + ", #"@ + h3,
        Instruction::AddI => ": add I, V"@ + h1,
        Instruction::AddX => ": add V"@ + h1 + ", #"@ + h2,
        Instruction::SeX => ": se V"@ + h1 + ", #"@ + h2,
        Instruction::SeXY => ": se V"@ + h1 + ", V"@ + h2,
        Instruction::LdXK => ": ld V"@ + h1 + ", K"@,
        Instruction::CLS => ": cls"@,
        Instruction::RET => ": ret"@,
        Instruction::CALL => ": call #"@ + h1,
        Instruction::LdXY => ": ld V"@ + h1 + ", V"@ + h2,
        Instruction::SHR => ": shr V"@ + h1,
        Instruction::LdB => ": ld B, V"@ + h1,
        Instruction::LdXI => ": ld V"@ + h1 + ", [I]"@,
        Instruction::LdF => ": ld F, V"@ + h1,
        Instruction::RND => ": rnd V"@ + h1 + ", #"@ + h2,
        Instruction::AddXY => ": add V"@ + h1 + ", V"@ + h2,
        Instruction::SKP => ": skp V"@ + h1,
        Instruction::SKNP => ": sknp V"@ + h1,
        Instruction::LdDT => ": ld DT, V"@ + h1,
        Instruction::LdST => ": ld ST, V"@ + h1,
        Instruction::LdXDT => ": ld V"@ + h1 + ", DT"@,
        Instruction::SneX => ": sne V"@ + h1 + ", #"@ + h2,
        Instruction::SneXY => ": sne V"@ + h1 + ", V"@ + h2,
        Instruction::LdIX => ": ld [I], V"@ + h1,
        Instruction::OR => ": or V"@ + h1 + ", V"@ + h2,
        Instruction::XOR => ": xor V"@ + h1 + ", V"@ + h2,
        Instruction::AND => ": and V"@ + h1 + ", V"@ + h2,
        Instruction::SUB => ": sub V"@ + h1 + ", V"@ + h2,
        Instruction::SUBN => ": subn V"@ + h1 + ", V"@ + h2,
        Instruction::Unknown => ": Unknown"@,
    }
}

/// The full disassembly line: `0x<pc>` followed by the listing body.
pub open spec fn listing(instruction: Instruction, pc: u16, v1: u16, v2: u16, v3: u16) -> Seq<char> {
    "0x"@ + hex_spec(pc as nat) + listing_body(instruction, v1, v2, v3)
}

/// The instruction decoder.
pub struct Instructions {}

impl Instructions {
    pub fn new() -> (r: Instructions) {
        Instructions {  }
    }

    /// The operation that a lookup pattern stands for.
    pub fn parse(&self, opcode: u16) -> (r: Instruction)
        ensures
            r == operation_of(opcode),
    {
        match opcode {
            0x1000 => Instruction::JP,
            0xA000 => Instruction::LdI,
            0x6000 => Instruction::LdV,
            0xD000 => Instruction::DRW,
            0xF01E => Instruction::AddI,
            0x7000 => Instruction::AddX,
            0x3000 => Instruction::SeX,
            0x5000 => Instruction::SeXY,
            0xF00A => Instruction::LdXK,
            0x00E0 => Instruction::CLS,
            0x00EE => Instruction::RET,
            0x2000 => Instruction::CALL,
            0x8000 => Instruction::LdXY,
            0x8006 => Instruction::SHR,
            0xF033 => Instruction::LdB,
            0xF065 => Instruction::LdXI,
            0xF029 => Instruction::LdF,
            0xC000 => Instruction::RND,
            0x8004 => Instruction::AddXY,
            0xE09E => Instruction::SKP,
            0xE0A1 => Instruction::SKNP,
            0xF015 => Instruction::LdDT,
            0xF018 => Instruction::LdST,
            0xF007 => Instruction::LdXDT,
            0x4000 => Instruction::SneX,
            0x9000 => Instruction::SneXY,
            0xF055 => Instruction::LdIX,
            0x8001 => Instruction::OR,
            0x8002 => Instruction::AND,
            0x8003 => Instruction::XOR,
            0x8005 => Instruction::SUB,
            0x8007 => Instruction::SUBN,
            _ => Instruction::Unknown,
        }
    }

    /// The lookup pattern of a raw word.
    pub fn pattern(&self, word: u16) -> (r: u16)
        ensures
            r == pattern_of(word),
    {
        proof {
            lemma_masks(word);
        }
        let family = word & 0xF000;
        if word == 0x00E0 || word == 0x00EE {
            word
        } else if family == 0x8000 {
            word & 0xF00F
        } else if family == 0xE000 || family == 0xF000 {
            word & 0xF0FF
        } else {
            family
        }
    }

    /// The operation encoded by a raw word.
    pub fn decode(&self, word: u16) -> (r: Instruction)
        ensures
            r == decode_spec(word),
    {
        let pattern = self.pattern(word);
        self.parse(pattern)
    }

    /// The address field `nnn`.
    pub fn parse_address(&self, opcode: u16) -> (r: u16)
        ensures
            r == address_of(opcode),
    {
        proof {
            lemma_masks(opcode);
        }
        opcode & 0x0FFF
    }

    /// The low byte `kk`.
    pub fn parse_last(&self, opcode: u16) -> (r: u8)
        ensures
            r == immediate_of(opcode),
    {
        proof {
            lemma_masks(opcode);
        }
        (opcode & 0x00FF) as u8
    }

    /// The `nibble`-th nibble of `opcode`, counted from the most significant.
    pub fn parse_nibble(&self, nibble: u8, opcode: u16) -> (r: u8)
        requires
            nibble < 4,
        ensures
            r == nibble_of(opcode, nibble as int),
            r < 16,
    {
        proof {
            lemma_masks(opcode);
        }
        if nibble == 0 {
            ((opcode & 0xF000) >> 12) as u8
        } else if nibble == 1 {
            ((opcode & 0x0F00) >> 8) as u8
        } else if nibble == 2 {
            ((opcode & 0x00F0) >> 4) as u8
        } else {
            (opcode & 0x000F) as u8
        }
    }

    /// The disassembly line of `instruction` at `pc` with operands `v1`,
    /// `v2`, `v3` (those the operation does not use are ignored).
    pub fn get_debug_info(&self, instruction: Instruction, pc: u16, v1: u16, v2: u16, v3: u16) -> (r: String)
        ensures
            r@ == listing(instruction, pc, v1, v2, v3),
    {
        let mut s = text1("0x", pc);
        let body = match instruction {
            Instruction::JP => text1(": jp #", v1),
            Instruction::LdI => text1(": ld I, #", v1),
            Instruction::LdV => text2(": ld V", v1, ", #", v2),
            Instruction::DRW => text3(": drw V", v1, ", V", v2, ", #", v3),
            Instruction::AddI => text1(": add I, V", v1),
            Instruction::AddX => text2(": add V", v1, ", #", v2),
            Instruction::SeX => text2(": se V", v1, ", #", v2),
            Instruction::SeXY => text2(": se V", v1, ", V", v2),
            Instruction::LdXK => {
                let mut t = text1(": ld V", v1);
                t.append(", K");
                t
            },
            Instruction::CLS => String::from_str(": cls"),
            Instruction::RET => String::from_str(": ret"),
            Instruction::CALL => text1(": call #", v1),
            Instruction::LdXY => text2(": ld V", v1, ", V", v2),
            Instruction::SHR => text1(": shr V", v1),
            Instruction::LdB => text1(": ld B, V", v1),
            Instruction::LdXI => {
                let mut t = text1(": ld V", v1);
                t.append(", [I]");
                t
            },
            Instruction::LdF => text1(": ld F, V", v1),
            Instruction::RND => text2(": rnd V", v1, ", #", v2),
            Instruction::AddXY => text2(": add V", v1, ", V", v2),
            Instruction::SKP => text1(": skp V", v1),
            Instruction::SKNP => text1(": sknp V", v1),
            Instruction::LdDT => text1(": ld DT, V", v1),
            Instruction::LdST => text1(": ld ST, V", v1),
            Instruction::LdXDT => {
                let mut t = text1(": ld V", v1);
                t.append(", DT");
                t
            },
            Instruction::SneX => text2(": sne V", v1, ", #", v2),
            Instruction::SneXY => text2(": sne V", v1, ", V", v2),
            Instruction::LdIX => text1(": ld [I], V", v1),
            Instruction::OR => text2(": or V", v1, ", V", v2),
            Instruction::XOR => text2(": xor V", v1, ", V", v2),
            Instruction::AND => text2(": and V", v1, ", V", v2),
            Instruction::SUB => text2(": sub V", v1, ", V", v2),
            Instruction::SUBN => text2(": subn V", v1, ", V", v2),
            Instruction::Unknown => String::from_str(": Unknown"),
        };
        s.append(body.as_str());
        proof {
            assert(s@ =~= listing(instruction, pc, v1, v2, v3));
        }
        s
    }
}

} // verus!
