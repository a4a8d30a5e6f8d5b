use vstd::prelude::*;

verus! {

/// The operations of the instruction set, one per encoding pattern.
#[derive(Debug, Clone, Copy, PartialEq, Eq, Structural)]
pub enum Instruction {
    /// `1nnn`: jump to `nnn`.
    JP,
    /// `Annn`: `I <- nnn`.
    LdI,
    /// `6xkk`: `Vx <- kk`.
    LdV,
    /// `Fx0A`: wait for a key, store its index in `Vx`.
    LdXK,
    /// `Dxyn`: draw an `n`-row sprite from `I` at `(Vx, Vy)`.
    DRW,
    /// `Fx1E`: `I <- I + Vx`, carry past `0xFFF` into `VF`.
    AddI,
    /// `7xkk`: `Vx <- Vx + kk` (wrapping).
    AddX,
    /// `3xkk`: skip the next instruction if `Vx == kk`.
    SeX,
    /// `5xy0`: skip the next instruction if `Vx == Vy`.
    SeXY,
    /// `00E0`: clear the display.
    CLS,
    /// `00EE`: return from a subroutine.
    RET,
    /// `2nnn`: call the subroutine at `nnn`.
    CALL,
    /// `8xy0`: `Vx <- Vy`.
    LdXY,
    /// `8xy6`: shift `Vx` right, the lost bit into `VF`.
    SHR,
    /// `Fx33`: store the decimal digits of `Vx` at `I`, `I+1`, `I+2`.
    LdB,
    /// `Fx65`: load `V0..=Vx` from memory at `I`.
    LdXI,
    /// `Fx29`: point `I` at the font glyph of `Vx`.
    LdF,
    /// `Cxkk`: `Vx <- random byte & kk`.
    RND,
    /// `8xy4`: `Vx <- Vx + Vy`, carry into `VF`.
    AddXY,
    /// `Ex9E`: skip the next instruction if key `Vx` is down.
    SKP,
    /// `ExA1`: skip the next instruction if key `Vx` is up.
    SKNP,
    /// `Fx15`: delay timer `<- Vx`.
    LdDT,
    /// `Fx18`: sound timer `<- Vx`.
    LdST,
    /// `Fx07`: `Vx <- delay timer`.
    LdXDT,
    /// `4xkk`: skip the next instruction if `Vx != kk`.
    SneX,
    /// `9xy0`: skip the next instruction if `Vx != Vy`.
    SneXY,
    /// `Fx55`: store `V0..=Vx` into memory at `I`.
    LdIX,
    /// `8xy2`: `Vx <- Vx & Vy`.
    AND,
    /// `8xy1`: `Vx <- Vx | Vy`.
    OR,
    /// `8xy3`: `Vx <- Vx ^ Vy`.
    XOR,
    /// `8xy5`: `Vx <- Vx - Vy`, `VF <- 1` when no borrow.
    SUB,
    /// `8xy7`: `Vx <- Vy - Vx`, `VF <- 1` when no borrow.
    SUBN,
    /// Any word that matches no pattern.
    Unknown,
}

} // verus!
