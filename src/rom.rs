use vstd::prelude::*;

verus! {

/// A program image and the path it was read from.
pub struct Rom {
    pub rom_path: String,
    pub rom: Vec<u8>,
}

} // verus!
