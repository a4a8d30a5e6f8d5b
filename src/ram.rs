use vstd::prelude::*;

verus! {

/// Number of addressable bytes.
pub const MEMORY_SIZE: usize = 4096;

/// A memory access fell outside `[0, MEMORY_SIZE)`.
#[derive(Debug, Clone, Copy, PartialEq, Eq, Structural)]
pub struct OutOfBounds {
    pub address: usize,
}

/// Flat, byte-addressable memory of `MEMORY_SIZE` bytes.
pub struct Ram {
    pub ram: [u8; MEMORY_SIZE],
}

/// The big-endian word formed by two bytes.
pub open spec fn word_of(hi: u8, lo: u8) -> u16 {
    (hi as int * 256 + lo as int) as u16
}

impl View for Ram {
    type V = Seq<u8>;

    open spec fn view(&self) -> Seq<u8> {
        self.ram@
    }
}

impl Ram {
    /// Zero-filled memory.
    pub fn new() -> (r: Ram)
        ensures
            r@ == Seq::new(MEMORY_SIZE as nat, |i: int| 0u8),
    {
        let r = Ram { ram: [0u8; MEMORY_SIZE] };
        assert(r@ =~= Seq::new(MEMORY_SIZE as nat, |i: int| 0u8));
        r
    }

    /// Stores `byte` at `position`.
    pub fn write(&mut self, position: usize, byte: u8) -> (r: Result<(), OutOfBounds>)
        ensures
            position < MEMORY_SIZE ==> r is Ok && final(self)@ == old(self)@.update(
                position as int,
                byte,
            ),
            position >= MEMORY_SIZE ==> r == Err::<(), OutOfBounds>(OutOfBounds { address: position })
                && final(self)@ == old(self)@,
    {
        if position < MEMORY_SIZE {
            self.ram[position] = byte;
            Ok(())
        } else {
            Err(OutOfBounds { address: position })
        }
    }

    /// Reads the big-endian instruction word at `position` and `position + 1`.
    pub fn read(&self, position: usize) -> (r: Result<u16, OutOfBounds>)
        ensures
            position + 1 < MEMORY_SIZE ==> r == Ok::<u16, OutOfBounds>(
                word_of(self@[position as int], self@[position + 1]),
            ),
            position + 1 >= MEMORY_SIZE ==> r == Err::<u16, OutOfBounds>(
                OutOfBounds { address: position },
            ),
    {
        if position < MEMORY_SIZE - 1 {
            let hi = self.ram[position] as u16;
            let lo = self.ram[position + 1] as u16;
            Ok(hi * 256 + lo)
        } else {
            Err(OutOfBounds { address: position })
        }
    }

    /// Reads the byte at `position`.
    pub fn read_byte(&self, position: usize) -> (r: Result<u8, OutOfBounds>)
        ensures
            position < MEMORY_SIZE ==> r == Ok::<u8, OutOfBounds>(self@[position as int]),
            position >= MEMORY_SIZE ==> r == Err::<u8, OutOfBounds>(OutOfBounds { address: position }),
    {
        if position < MEMORY_SIZE {
            Ok(self.ram[position])
        } else {
            Err(OutOfBounds { address: position })
        }
    }
}

} // verus!
