use vstd::prelude::*;

use rand::Rng;
use std::sync::Arc;

use crate::debugger::{apply_spec, prompts_spec, Command, Debugger};
use crate::instruction::Instruction;
use crate::instructions::{address_of, decode_spec, immediate_of, nibble_of, Instructions};
use crate::keyboard::Keyboard;
use crate::ram::{word_of, OutOfBounds, Ram, MEMORY_SIZE};
use crate::registers::{pc_plus, Registers, STACK_CAPACITY, START_ADDRESS};
use crate::rom::Rom;
use crate::screen::{blank_screen, Screen};
use crate::semantics::{execute_spec, FaultKind, Machine, TimerWrite};
use crate::timer::Timers;

verus! {

/// Number of bytes in the built-in font: five rows for each of the sixteen
/// hexadecimal digits.
pub const FONT_SIZE: usize = 80;

/// The glyphs of the digits `0..=F`, five bytes each, loaded at address 0.
pub const FONT_SET: [u8; FONT_SIZE] = [
    0xF0, 0x90, 0x90, 0x90, 0xF0,
    0x20, 0x60, 0x20, 0x20, 0x70,
    0xF0, 0x10, 0xF0, 0x80, 0xF0,
    0xF0, 0x10, 0xF0, 0x10, 0xF0,
    0x90, 0x90, 0xF0, 0x10, 0x10,
    0xF0, 0x80, 0xF0, 0x10, 0xF0,
    0xF0, 0x80, 0xF0, 0x90, 0xF0,
    0xF0, 0x10, 0x20, 0x40, 0x40,
    0xF0, 0x90, 0xF0, 0x90, 0xF0,
    0xF0, 0x90, 0xF0, 0x10, 0xF0,
    0xF0, 0x90, 0xF0, 0x90, 0x90,
    0xE0, 0x90, 0xE0, 0x90, 0xE0,
    0xF0, 0x80, 0x80, 0x80, 0xF0,
    0xE0, 0x90, 0x90, 0x90, 0xE0,
    0xF0, 0x80, 0xF0, 0x80, 0xF0,
    0xF0, 0x80, 0xF0, 0x80, 0x80,
];

/// A fatal stop of the engine, with what is needed to diagnose it.
#[derive(Debug, Clone)]
pub struct Fault {
    pub kind: FaultKind,
    /// Address of the instruction that failed.
    pub pc: u16,
    /// The raw instruction word (zero when it could not be fetched).
    pub word: u16,
    pub instruction: Instruction,
    /// The registers as they were before the instruction.
    pub registers: Registers,
}

impl Fault {
    /// This fault reports `kind` for the instruction `word` executed in `m`.
    pub open spec fn reports(&self, kind: FaultKind, m: Machine, word: u16) -> bool {
        &&& self.kind == kind
        &&& self.pc == m.pc
        &&& self.word == word
        &&& self.instruction == decode_spec(word)
        &&& self.registers.pc == m.pc
        &&& self.registers.i == m.i
        &&& self.registers.v@ == m.v
        &&& self.registers.stack@ == m.stack
    }
}

/// The word at `m.pc`, if both of its bytes lie in memory.
pub open spec fn fetch_spec(m: Machine) -> Option<u16> {
    if m.pc + 1 < MEMORY_SIZE {
        Some(word_of(m.mem[m.pc as int], m.mem[m.pc + 1]))
    } else {
        None
    }
}

/// Executing `word` on `before` with the given random byte and delay-timer
/// value leads to `after` and the result `r`.
pub open spec fn step_matches(
    before: Machine,
    after: Machine,
    word: u16,
    random: u8,
    delay: u8,
    r: Result<(), Fault>,
) -> bool {
    match execute_spec(before, word, random, delay) {
        Ok((m, _)) => after == m && r is Ok,
        Err(kind) => after == before && (r matches Err(f) && f.reports(kind, before, word)),
    }
}

/// Memory after `bytes` are written from address `at` on.
pub open spec fn loaded(mem: Seq<u8>, at: int, bytes: Seq<u8>) -> Seq<u8> {
    Seq::new(
        mem.len(),
        |a: int|
            if at <= a < at + bytes.len() {
                bytes[a - at]
            } else {
                mem[a]
            },
    )
}

/// Relies on rand's thread-local generator (`rand::thread_rng` with
/// `Rng::gen::<u8>`) for a random byte; any byte may come back.
#[verifier::external_body]
fn random_byte() -> (r: u8) {
    rand::thread_rng().gen::<u8>()
}

/// The execution engine: memory, registers, keypad, display, decoder, the
/// shared countdown timers and the debugging configuration.
pub struct Cpu {
    ram: Ram,
    rom: Rom,
    pub keyboard: Keyboard,
    pub screen: Screen,
    registers: Registers,
    instructions: Instructions,
    debugger: Debugger,
    timers: Arc<Timers>,
}

impl View for Cpu {
    type V = Machine;

    closed spec fn view(&self) -> Machine {
        Machine {
            pc: self.registers.pc,
            i: self.registers.i,
            v: self.registers.v@,
            stack: self.registers.stack@,
            mem: self.ram@,
            screen: self.screen@,
            keys: self.keyboard@,
        }
    }
}

impl Cpu {
    /// The register file is consistent: the stack pointer counts the stack.
    pub closed spec fn wf(&self) -> bool {
        self.registers.wf()
    }

    /// The debugging configuration and breakpoint state.
    pub closed spec fn debugger_spec(&self) -> Debugger {
        self.debugger
    }

    /// The bytes of the program image this machine was made with.
    pub closed spec fn rom_spec(&self) -> Seq<u8> {
        self.rom.rom@
    }

    /// A machine at power-on holding `rom`, not yet loaded into memory.
    pub fn new(rom: Rom, debug: bool, interactive: bool) -> (r: Cpu)
        ensures
            r.wf(),
            r@.pc == START_ADDRESS,
            r@.i == 0,
            r@.v == Seq::new(16, |k: int| 0u8),
            r@.stack == Seq::<u16>::empty(),
            r@.mem == Seq::new(MEMORY_SIZE as nat, |a: int| 0u8),
            r@.screen == blank_screen(),
            r@.keys == Seq::new(16, |k: int| false),
            r.rom_spec() == rom.rom@,
            r.debugger_spec() == (Debugger {
                debug,
                interactive,
                debug_break: false,
                break_point: 0,
                debug_run: false,
            }),
    {
        Cpu {
            ram: Ram::new(),
            rom,
            keyboard: Keyboard::new(),
            screen: Screen::new(),
            registers: Registers::new(),
            instructions: Instructions::new(),
            debugger: Debugger { debug, interactive, debug_break: false, break_point: 0, debug_run: false },
            timers: Arc::new(Timers::new()),
        }
    }

    /// The timers that this machine's instructions read and write; a
    /// background task counts them down.
    pub fn timers(&self) -> (r: &Arc<Timers>) {
        &self.timers
    }

    /// Writes the font glyphs to memory from address 0.
    pub fn load_font(&mut self)
        requires
            old(self).wf(),
        ensures
            final(self).wf(),
            final(self)@ == (Machine { mem: loaded(old(self)@.mem, 0, FONT_SET@), ..old(self)@ }),
            final(self).debugger_spec() == old(self).debugger_spec(),
            final(self).rom_spec() == old(self).rom_spec(),
    {
        let ghost m0 = self@;
        let mut k: usize = 0;
        assert(loaded(m0.mem, 0, FONT_SET@.take(0)) =~= m0.mem);
        while k < FONT_SIZE
            invariant
                k <= FONT_SIZE,
                self.wf(),
                self@ == (Machine { mem: loaded(m0.mem, 0, FONT_SET@.take(k as int)), ..m0 }),
                self.debugger == old(self).debugger,
                self.rom.rom@ == old(self).rom.rom@,
            decreases FONT_SIZE - k,
        {
            self.ram.ram[k] = FONT_SET[k];
            k += 1;
            proof {
                assert(self.ram@ =~= loaded(m0.mem, 0, FONT_SET@.take(k as int)));
            }
        }
        proof {
            assert(FONT_SET@.take(FONT_SIZE as int) =~= FONT_SET@);
        }
    }

    /// Writes the program image to memory from `START_ADDRESS` on; fails,
    /// changing nothing, when it does not fit.
    pub fn load_rom(&mut self) -> (r: Result<(), OutOfBounds>)
        requires
            old(self).wf(),
        ensures
            final(self).wf(),
            final(self).debugger_spec() == old(self).debugger_spec(),
            final(self).rom_spec() == old(self).rom_spec(),
            START_ADDRESS + old(self).rom_spec().len() <= MEMORY_SIZE ==> r is Ok && final(self)@ == (
            Machine {
                mem: loaded(old(self)@.mem, START_ADDRESS as int, old(self).rom_spec()),
                ..old(self)@
            }),
            START_ADDRESS + old(self).rom_spec().len() > MEMORY_SIZE ==> r is Err && final(self)@
                == old(self)@,
    {
        let len = self.rom.rom.len();
        if len > MEMORY_SIZE - START_ADDRESS as usize {
            return Err(OutOfBounds { address: MEMORY_SIZE });
        }
        let ghost m0 = self@;
        let start = START_ADDRESS as usize;
        let mut k: usize = 0;
        assert(loaded(m0.mem, start as int, self.rom.rom@.take(0)) =~= m0.mem);
        while k < len
            invariant
                k <= len,
                len == self.rom.rom@.len(),
                start == START_ADDRESS,
                start + len <= MEMORY_SIZE,
                self.wf(),
                self@ == (Machine { mem: loaded(m0.mem, start as int, self.rom.rom@.take(k as int)), ..m0 }),
                self.debugger == old(self).debugger,
                self.rom.rom@ == old(self).rom.rom@,
            decreases len - k,
        {
            self.ram.ram[start + k] = self.rom.rom[k];
            k += 1;
            proof {
                assert(self.ram@ =~= loaded(m0.mem, start as int, self.rom.rom@.take(k as int)));
            }
        }
        proof {
            assert(self.rom.rom@.take(len as int) =~= self.rom.rom@);
        }
        Ok(())
    }
}

impl Cpu {
    fn fault(&self, kind: FaultKind, word: u16) -> (f: Fault)
        ensures
            f.reports(kind, self@, word),
    {
        Fault {
            kind,
            pc: self.registers.pc,
            word,
            instruction: self.instructions.decode(word),
            registers: self.registers.snapshot(),
        }
    }

    proof fn lemma_two_steps(pc: u16)
        ensures
            pc_plus(pc_plus(pc, 2), 2) == pc_plus(pc, 4),
    {
    }

    /// Advances past this instruction, and past the next one too when `skip`.
    fn skip_if(&mut self, skip: bool)
        ensures
            *final(self) == (Cpu {
                registers: Registers {
                    pc: pc_plus(old(self).registers.pc, if skip { 4 } else { 2 }),
                    ..old(self).registers
                },
                ..*old(self)
            }),
    {
        proof {
            Self::lemma_two_steps(self.registers.pc);
        }
        if skip {
            self.registers.step();
        }
        self.registers.step();
    }

    /// `LD B, Vx` once `I + 2` is known to lie in memory.
    fn store_bcd(&mut self, vx: u8)
        requires
            old(self).registers.i + 2 < MEMORY_SIZE,
        ensures
            final(self).ram@ == old(self).ram@.update(old(self).registers.i as int, vx / 100).update(
                old(self).registers.i + 1,
                (vx / 10) % 10,
            ).update(old(self).registers.i + 2, vx % 10),
            final(self).registers == old(self).registers,
            final(self).screen == old(self).screen,
            final(self).keyboard == old(self).keyboard,
            final(self).debugger == old(self).debugger,
            final(self).rom == old(self).rom,
    {
        let i = self.registers.i as usize;
        self.ram.ram[i] = vx / 100;
        self.ram.ram[i + 1] = (vx / 10) % 10;
        self.ram.ram[i + 2] = vx % 10;
    }

    /// `LD [I], Vx` once `I + x` is known to lie in memory.
    fn store_registers(&mut self, x: usize)
        requires
            x < 16,
            old(self).registers.i + x < MEMORY_SIZE,
        ensures
            final(self).ram@ == Seq::new(
                MEMORY_SIZE as nat,
                |a: int|
                    if old(self).registers.i <= a <= old(self).registers.i + x {
                        old(self).registers.v@[a - old(self).registers.i]
                    } else {
                        old(self).ram@[a]
                    },
            ),
            final(self).registers == old(self).registers,
            final(self).screen == old(self).screen,
            final(self).keyboard == old(self).keyboard,
            final(self).debugger == old(self).debugger,
            final(self).rom == old(self).rom,
    {
        let i = self.registers.i as usize;
        let mut k: usize = 0;
        while k <= x
            invariant
                x < 16,
                i == old(self).registers.i,
                i + x < MEMORY_SIZE,
                k <= x + 1,
                self.ram@ == Seq::new(
                    MEMORY_SIZE as nat,
                    |a: int|
                        if i <= a < i + k {
                            old(self).registers.v@[a - i]
                        } else {
                            old(self).ram@[a]
                        },
                ),
                self.registers == old(self).registers,
                self.screen == old(self).screen,
                self.keyboard == old(self).keyboard,
                self.debugger == old(self).debugger,
                self.rom == old(self).rom,
            decreases x + 1 - k,
        {
            self.ram.ram[i + k] = self.registers.v[k];
            k += 1;
            proof {
                assert(self.ram@ =~= Seq::new(
                    MEMORY_SIZE as nat,
                    |a: int|
                        if i <= a < i + k {
                            old(self).registers.v@[a - i]
                        } else {
                            old(self).ram@[a]
                        },
                ));
            }
        }
        proof {
            assert(self.ram@ =~= Seq::new(
                MEMORY_SIZE as nat,
                |a: int|
                    if i <= a <= i + x {
                        old(self).registers.v@[a - i]
                    } else {
                        old(self).ram@[a]
                    },
            ));
        }
    }

    /// `LD Vx, [I]` once `I + x` is known to lie in memory.
    fn load_registers(&mut self, x: usize)
        requires
            x < 16,
            old(self).registers.i + x < MEMORY_SIZE,
        ensures
            final(self).registers.v@ == Seq::new(
                16,
                |k: int|
                    if k <= x {
                        old(self).ram@[old(self).registers.i + k]
                    } else {
                        old(self).registers.v@[k]
                    },
            ),
            final(self).registers == (Registers { v: final(self).registers.v, ..old(self).registers }),
            final(self).ram == old(self).ram,
            final(self).screen == old(self).screen,
            final(self).keyboard == old(self).keyboard,
            final(self).debugger == old(self).debugger,
            final(self).rom == old(self).rom,
    {
        let i = self.registers.i as usize;
        let mut k: usize = 0;
        while k <= x
            invariant
                x < 16,
                i == old(self).registers.i,
                i + x < MEMORY_SIZE,
                k <= x + 1,
                self.registers.v@ == Seq::new(
                    16,
                    |j: int|
                        if j < k {
                            old(self).ram@[i + j]
                        } else {
                            old(self).registers.v@[j]
                        },
                ),
                self.registers == (Registers { v: self.registers.v, ..old(self).registers }),
                self.ram == old(self).ram,
                self.screen == old(self).screen,
                self.keyboard == old(self).keyboard,
                self.debugger == old(self).debugger,
                self.rom == old(self).rom,
            decreases x + 1 - k,
        {
            self.registers.v[k] = self.ram.ram[i + k];
            k += 1;
            proof {
                assert(self.registers.v@ =~= Seq::new(
                    16,
                    |j: int|
                        if j < k {
                            old(self).ram@[i + j]
                        } else {
                            old(self).registers.v@[j]
                        },
                ));
            }
        }
        proof {
            assert(self.registers.v@ =~= Seq::new(
                16,
                |j: int|
                    if j <= x {
                        old(self).ram@[i + j]
                    } else {
                        old(self).registers.v@[j]
                    },
            ));
        }
    }
}

impl Cpu {
    /// Executes the instruction `word`. `random` is the byte that `RND` uses
    /// and `delay` the delay-timer value that `LD Vx, DT` stores; a timer write
    /// that the instruction asks for is returned, not performed. On a fault
    /// nothing changes.
    #[verifier::rlimit(60)]
    pub fn execute(&mut self, word: u16, random: u8, delay: u8) -> (r: Result<TimerWrite, Fault>)
        requires
            old(self).wf(),
        ensures
            final(self).wf(),
            final(self).debugger_spec() == old(self).debugger_spec(),
            final(self).rom_spec() == old(self).rom_spec(),
            match execute_spec(old(self)@, word, random, delay) {
                Ok((m, t)) => final(self)@ == m && r == Ok::<TimerWrite, Fault>(t),
                Err(kind) => final(self)@ == old(self)@ && (r matches Err(f) && f.reports(
                    kind,
                    old(self)@,
                    word,
                )),
            },
    {
        let instruction = self.instructions.decode(word);
        let x = self.instructions.parse_nibble(1, word) as usize;
        let y = self.instructions.parse_nibble(2, word) as usize;
        let n = self.instructions.parse_nibble(3, word) as usize;
        let kk = self.instructions.parse_last(word);
        let nnn = self.instructions.parse_address(word);
        let vx = self.registers.v[x];
        let vy = self.registers.v[y];
        match instruction {
            Instruction::JP => {
                self.registers.jump(nnn);
            },
            Instruction::LdI => {
                self.registers.i = nnn;
                self.registers.step();
            },
            Instruction::LdV => {
                self.registers.v[x] = kk;
                self.registers.step();
            },
            Instruction::DRW => {
                if self.registers.i as usize + n > MEMORY_SIZE {
                    return Err(self.fault(FaultKind::OutOfBounds, word));
                }
                let collision = self.screen.draw_sprite(&self.ram, self.registers.i, n, vx, vy);
                self.registers.v[15] = if collision { 1 } else { 0 };
                self.registers.step();
            },
            Instruction::AddI => {
                let sum = self.registers.i as u32 + vx as u32;
                self.registers.i = (sum % 0x10000) as u16;
                self.registers.v[15] = if sum > 0xFFF { 1 } else { 0 };
                self.registers.step();
            },
            Instruction::AddX => {
                self.registers.v[x] = ((vx as u16 + kk as u16) % 256) as u8;
                self.registers.step();
            },
            Instruction::SeX => {
                self.skip_if(vx == kk);
            },
            Instruction::SeXY => {
                self.skip_if(vx == vy);
            },
            Instruction::LdXK => {
                match self.keyboard.first_pressed() {
                    Some(k) => {
                        self.registers.v[x] = k;
                        self.registers.step();
                    },
                    None => {},
                }
            },
            Instruction::CLS => {
                self.screen.clear();
                self.registers.step();
            },
            Instruction::RET => {
                if self.registers.sp == 0 {
                    return Err(self.fault(FaultKind::StackUnderflow, word));
                }
                let addr = self.registers.stack.pop().unwrap();
                self.registers.sp = self.registers.sp - 1;
                self.registers.jump(addr);
                self.registers.step();
            },
            Instruction::CALL => {
                if self.registers.sp as usize >= STACK_CAPACITY {
                    return Err(self.fault(FaultKind::StackOverflow, word));
                }
                let pc = self.registers.pc;
                self.registers.stack.push(pc);
                self.registers.sp = self.registers.sp + 1;
                self.registers.jump(nnn);
            },
            Instruction::LdXY => {
                self.registers.v[x] = vy;
                self.registers.step();
            },
            Instruction::SHR => {
                self.registers.v[15] = vx % 2;
                self.registers.v[x] = self.registers.v[x] / 2;
                self.registers.step();
            },
            Instruction::LdB => {
                if self.registers.i as usize + 2 >= MEMORY_SIZE {
                    return Err(self.fault(FaultKind::OutOfBounds, word));
                }
                self.store_bcd(vx);
                self.registers.step();
            },
            Instruction::LdXI => {
                if self.registers.i as usize + x >= MEMORY_SIZE {
                    return Err(self.fault(FaultKind::OutOfBounds, word));
                }
                self.load_registers(x);
                self.registers.step();
            },
            Instruction::LdF => {
                self.registers.i = vx as u16 * 5;
                self.registers.step();
            },
            Instruction::RND => {
                self.registers.v[x] = random & kk;
                self.registers.step();
            },
            Instruction::AddXY => {
                let sum = vx as u16 + vy as u16;
                self.registers.v[15] = if sum > 255 { 1 } else { 0 };
                self.registers.v[x] = (sum % 256) as u8;
                self.registers.step();
            },
            Instruction::SKP => {
                if vx >= 16 {
                    return Err(self.fault(FaultKind::KeyOutOfRange, word));
                }
                let down = self.keyboard.pressed(vx);
                self.skip_if(down);
            },
            Instruction::SKNP => {
                if vx >= 16 {
                    return Err(self.fault(FaultKind::KeyOutOfRange, word));
                }
                let down = self.keyboard.pressed(vx);
                self.skip_if(!down);
            },
            Instruction::LdDT => {
                self.registers.step();
                return Ok(TimerWrite::Delay(vx));
            },
            Instruction::LdST => {
                self.registers.step();
                return Ok(TimerWrite::Sound(vx));
            },
            Instruction::LdXDT => {
                self.registers.v[x] = delay;
                self.registers.step();
            },
            Instruction::SneX => {
                self.skip_if(vx != kk);
            },
            Instruction::SneXY => {
                self.skip_if(vx != vy);
            },
            Instruction::LdIX => {
                if self.registers.i as usize + x >= MEMORY_SIZE {
                    return Err(self.fault(FaultKind::OutOfBounds, word));
                }
                self.store_registers(x);
                self.registers.step();
            },
            Instruction::AND => {
                self.registers.v[x] = vx & vy;
                self.registers.step();
            },
            Instruction::OR => {
                self.registers.v[x] = vx | vy;
                self.registers.step();
            },
            Instruction::XOR => {
                self.registers.v[x] = vx ^ vy;
                self.registers.step();
            },
            Instruction::SUB => {
                self.registers.v[15] = if vx >= vy { 1 } else { 0 };
                self.registers.v[x] = if vx >= vy { vx - vy } else { (256 - vy as u16 + vx as u16) as u8 };
                self.registers.step();
            },
            Instruction::SUBN => {
                self.registers.v[15] = if vy >= vx { 1 } else { 0 };
                self.registers.v[x] = if vy >= vx { vy - vx } else { (256 - vx as u16 + vy as u16) as u8 };
                self.registers.step();
            },
            Instruction::Unknown => {
                return Err(self.fault(FaultKind::UnknownOpcode, word));
            },
        }
        Ok(TimerWrite::Nothing)
    }
}

/// The operands that the disassembly of `instruction` in `word` shows: the
/// address for jumps, calls and `LD I`, otherwise the register `x`; the
/// byte `kk` for the immediate forms, otherwise the register `y`; the count `n`.
pub open spec fn listing_operands(instruction: Instruction, word: u16) -> (u16, u16, u16) {
    let first = match instruction {
        Instruction::JP | Instruction::CALL | Instruction::LdI => address_of(word),
        _ => nibble_of(word, 1) as u16,
    };
    let second = match instruction {
        Instruction::LdV | Instruction::AddX | Instruction::SeX | Instruction::SneX
        | Instruction::RND => immediate_of(word) as u16,
        _ => nibble_of(word, 2) as u16,
    };
    (first, second, nibble_of(word, 3) as u16)
}

impl Cpu {
    /// The registers, for inspection.
    pub fn registers(&self) -> (r: &Registers)
        ensures
            r.pc == self@.pc,
            r.i == self@.i,
            r.v@ == self@.v,
            r.stack@ == self@.stack,
    {
        &self.registers
    }

    /// The memory, for inspection.
    pub fn ram(&self) -> (r: &Ram)
        ensures
            r@ == self@.mem,
    {
        &self.ram
    }

    /// The debugging configuration.
    pub fn debugger(&self) -> (r: Debugger)
        ensures
            r == self.debugger_spec(),
    {
        self.debugger
    }

    /// The word at `pc`; fails with an out-of-bounds fault when it does not
    /// lie wholly in memory.
    pub fn current_word(&self) -> (r: Result<u16, Fault>)
        ensures
            match fetch_spec(self@) {
                Some(word) => r == Ok::<u16, Fault>(word),
                None => r matches Err(f) && f.reports(FaultKind::OutOfBounds, self@, 0),
            },
    {
        match self.ram.read(self.registers.pc as usize) {
            Ok(word) => Ok(word),
            Err(_) => Err(self.fault(FaultKind::OutOfBounds, 0)),
        }
    }

    /// The disassembly line of `word` as if it stood at `pc`.
    pub fn disassemble(&self, word: u16) -> (r: String)
        ensures
            ({
                let (v1, v2, v3) = listing_operands(decode_spec(word), word);
                r@ == crate::instructions::listing(decode_spec(word), self@.pc, v1, v2, v3)
            }),
    {
        let instruction = self.instructions.decode(word);
        let v1 = match instruction {
            Instruction::JP | Instruction::CALL | Instruction::LdI => self.instructions.parse_address(word),
            _ => self.instructions.parse_nibble(1, word) as u16,
        };
        let v2 = match instruction {
            Instruction::LdV | Instruction::AddX | Instruction::SeX | Instruction::SneX
            | Instruction::RND => self.instructions.parse_last(word) as u16,
            _ => self.instructions.parse_nibble(2, word) as u16,
        };
        let v3 = self.instructions.parse_nibble(3, word) as u16;
        self.instructions.get_debug_info(instruction, self.registers.pc, v1, v2, v3)
    }

    /// Whether the debugger asks for a command before the next instruction.
    pub fn awaiting_command(&self) -> (r: bool)
        ensures
            r == prompts_spec(self.debugger_spec(), self@.pc),
    {
        self.debugger.prompts(self.registers.pc)
    }

    /// Applies a debugger command; returns whether the next instruction is
    /// then executed. `+input` and `-input` hold and release key 0.
    pub fn apply_command(&mut self, command: Command) -> (proceed: bool)
        requires
            old(self).wf(),
        ensures
            final(self).wf(),
            final(self).rom_spec() == old(self).rom_spec(),
            (final(self).debugger_spec(), proceed) == apply_spec(old(self).debugger_spec(), command),
            final(self)@ == (Machine {
                keys: match command {
                    Command::KeyDown => old(self)@.keys.update(0, true),
                    Command::KeyUp => old(self)@.keys.update(0, false),
                    _ => old(self)@.keys,
                },
                ..old(self)@
            }),
    {
        match command {
            Command::KeyDown => self.keyboard.set(0),
            Command::KeyUp => self.keyboard.unset(0),
            _ => {},
        }
        self.debugger.apply(command)
    }

    /// Fetches the instruction at `pc` and executes it, drawing a random byte
    /// for `RND`, reading the delay timer for `LD Vx, DT` and performing the
    /// timer writes that `LD DT, Vx` and `LD ST, Vx` ask for. Whatever byte and
    /// timer value came in, the step is the one that `execute_spec` gives.
    pub fn tick(&mut self) -> (r: Result<(), Fault>)
        requires
            old(self).wf(),
        ensures
            final(self).wf(),
            final(self).debugger_spec() == old(self).debugger_spec(),
            final(self).rom_spec() == old(self).rom_spec(),
            match fetch_spec(old(self)@) {
                Some(word) => exists|random: u8, delay: u8|
                    #[trigger] step_matches(old(self)@, final(self)@, word, random, delay, r),
                None => final(self)@ == old(self)@ && (r matches Err(f) && f.reports(
                    FaultKind::OutOfBounds,
                    old(self)@,
                    0,
                )),
            },
    {
        let word = match self.current_word() {
            Ok(word) => word,
            Err(f) => return Err(f),
        };
        let instruction = self.instructions.decode(word);
        let random = if instruction == Instruction::RND { random_byte() } else { 0 };
        let delay = if instruction == Instruction::LdXDT { self.timers.delay.get() } else { 0 };
        let ghost before = self@;
        let outcome = self.execute(word, random, delay);
        let r = match outcome {
            Ok(write) => {
                match write {
                    TimerWrite::Delay(value) => self.timers.delay.set(value),
                    TimerWrite::Sound(value) => self.timers.sound.set(value),
                    TimerWrite::Nothing => {},
                }
                Ok(())
            },
            Err(f) => Err(f),
        };
        assert(step_matches(before, self@, word, random, delay, r));
        r
    }
}

} // verus!
