use vstd::prelude::*;

use crate::semantics::first_pressed_from;

verus! {

/// Number of keys on the keypad.
pub const KEY_COUNT: usize = 16;

/// Sixteen independent key states, indexed `0x0..=0xF`.
pub struct Keyboard {
    pub keyboard: [bool; KEY_COUNT],
}

impl View for Keyboard {
    type V = Seq<bool>;

    open spec fn view(&self) -> Seq<bool> {
        self.keyboard@
    }
}

impl Keyboard {
    /// All keys released.
    pub fn new() -> (r: Keyboard)
        ensures
            r@ == Seq::new(KEY_COUNT as nat, |i: int| false),
    {
        let r = Keyboard { keyboard: [false; KEY_COUNT] };
        assert(r@ =~= Seq::new(KEY_COUNT as nat, |i: int| false));
        r
    }

    /// Marks `key` as held down.
    pub fn set(&mut self, key: u8)
        requires
            key < KEY_COUNT,
        ensures
            final(self)@ == old(self)@.update(key as int, true),
    {
        self.keyboard[key as usize] = true;
    }

    /// Marks `key` as released.
    pub fn unset(&mut self, key: u8)
        requires
            key < KEY_COUNT,
        ensures
            final(self)@ == old(self)@.update(key as int, false),
    {
        self.keyboard[key as usize] = false;
    }

    /// Whether `key` is held down.
    pub fn pressed(&self, key: u8) -> (r: bool)
        requires
            key < KEY_COUNT,
        ensures
            r == self@[key as int],
    {
        self.keyboard[key as usize]
    }

    /// The lowest index of a key that is down, if any.
    pub fn first_pressed(&self) -> (r: Option<u8>)
        ensures
            r matches Some(k) ==> first_pressed_from(self@, 0) == Some(k as int),
            r is None ==> first_pressed_from(self@, 0) is None,
    {
        let mut k: u8 = 0;
        while k < 16
            invariant
                k <= 16,
                first_pressed_from(self@, 0) == first_pressed_from(self@, k as int),
            decreases 16 - k,
        {
            if self.keyboard[k as usize] {
                return Some(k);
            }
            k += 1;
        }
        None
    }
}

} // verus!
