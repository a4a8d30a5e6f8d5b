use vstd::prelude::*;

verus! {

/// Address at which programs are loaded and execution starts.
pub const START_ADDRESS: u16 = 0x200;

/// Deepest nesting of subroutine calls.
pub const STACK_CAPACITY: usize = 16;

/// `pc` advanced by `k` bytes in the 16-bit address register.
pub open spec fn pc_plus(pc: u16, k: int) -> u16 {
    ((pc + k) % 0x10000) as u16
}

/// The register file: program counter, stack pointer, index register,
/// general registers `V0..=VF` and the stack of return addresses.
#[derive(Debug, Clone)]
pub struct Registers {
    pub pc: u16,
    pub sp: u8,
    pub i: u16,
    pub v: [u8; 16],
    pub stack: Vec<u16>,
}

impl Registers {
    /// The stack pointer counts the return addresses on the stack, and the
    /// stack holds at most `STACK_CAPACITY` of them.
    pub open spec fn wf(&self) -> bool {
        &&& self.sp as int == self.stack@.len()
        &&& self.stack@.len() <= STACK_CAPACITY
    }

    /// Registers at power-on: `pc` at the load address, all else zero or empty.
    pub fn new() -> (r: Registers)
        ensures
            r.wf(),
            r.pc == START_ADDRESS,
            r.sp == 0,
            r.i == 0,
            r.v@ == Seq::new(16, |k: int| 0u8),
            r.stack@ == Seq::<u16>::empty(),
    {
        let r = Registers { pc: START_ADDRESS, sp: 0, i: 0, v: [0u8; 16], stack: Vec::new() };
        assert(r.v@ =~= Seq::new(16, |k: int| 0u8));
        r
    }

    /// Moves to the next instruction: every instruction is two bytes long.
    pub fn step(&mut self)
        ensures
            *final(self) == (Registers { pc: pc_plus(old(self).pc, 2), ..*old(self) }),
    {
        self.pc = self.pc.wrapping_add(2);
    }

    /// Continues execution at `address`.
    pub fn jump(&mut self, address: u16)
        ensures
            *final(self) == (Registers { pc: address, ..*old(self) }),
    {
        self.pc = address;
    }

    /// A copy of every register and of the stack.
    pub fn snapshot(&self) -> (r: Registers)
        ensures
            r.pc == self.pc,
            r.sp == self.sp,
            r.i == self.i,
            r.v@ == self.v@,
            r.stack@ == self.stack@,
    {
        let stack = self.stack.clone();
        assert(stack@ =~= self.stack@);
        Registers { pc: self.pc, sp: self.sp, i: self.i, v: self.v, stack }
    }
}

} // verus!
