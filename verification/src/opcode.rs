//! Instruction words and their decoding.
//!
//! An instruction is one big-endian 16-bit word. Its highest nibble is the
//! class; the others are read as register indices `x` and `y`, a 4-bit
//! immediate `n`, an 8-bit immediate `kk` or a 12-bit address `nnn`, as the
//! instruction's shape asks.

use vstd::prelude::*;

verus! {

/// One of the 35 instructions, with its operands.
#[derive(Debug, Clone, Copy, PartialEq, Eq)]
pub enum Instruction {
    /// `0nnn`: call a machine-code routine. Ignored.
    Sys,
    /// `00E0`: clear the display.
    Cls,
    /// `00EE`: return from a subroutine.
    Ret,
    /// `1nnn`: jump to `nnn`.
    Jp { nnn: u16 },
    /// `2nnn`: call the subroutine at `nnn`.
    Call { nnn: u16 },
    /// `3xkk`: skip the next instruction if `Vx == kk`.
    SeByte { x: u8, kk: u8 },
    /// `4xkk`: skip the next instruction if `Vx != kk`.
    SneByte { x: u8, kk: u8 },
    /// `5xy0`: skip the next instruction if `Vx == Vy`.
    SeReg { x: u8, y: u8 },
    /// `6xkk`: `Vx = kk`.
    LdByte { x: u8, kk: u8 },
    /// `7xkk`: `Vx = Vx + kk`, without a flag.
    AddByte { x: u8, kk: u8 },
    /// `8xy0`: `Vx = Vy`.
    LdReg { x: u8, y: u8 },
    /// `8xy1`: `Vx = Vx | Vy`.
    Or { x: u8, y: u8 },
    /// `8xy2`: `Vx = Vx & Vy`.
    And { x: u8, y: u8 },
    /// `8xy3`: `Vx = Vx ^ Vy`.
    Xor { x: u8, y: u8 },
    /// `8xy4`: `Vx = Vx + Vy`, `VF` = carry.
    AddReg { x: u8, y: u8 },
    /// `8xy5`: `Vx = Vx - Vy`, `VF` = no borrow.
    SubReg { x: u8, y: u8 },
    /// `8xy6`: `Vx = Vx >> 1`, `VF` = the bit shifted out.
    Shr { x: u8 },
    /// `8xy7`: `Vx = Vy - Vx`, `VF` = `Vy > Vx`.
    Subn { x: u8, y: u8 },
    /// `8xyE`: `Vx = Vx << 1`, `VF` = the bit shifted out.
    Shl { x: u8 },
    /// `9xy0`: skip the next instruction if `Vx != Vy`.
    SneReg { x: u8, y: u8 },
    /// `Annn`: `I = nnn`.
    LdI { nnn: u16 },
    /// `Bnnn`: jump to `nnn + V0`.
    JpV0 { nnn: u16 },
    /// `Cxkk`: `Vx` = a random byte masked by `kk`.
    Rnd { x: u8, kk: u8 },
    /// `Dxyn`: draw the `n`-row sprite at `I` at `(Vx, Vy)`, `VF` = erasure.
    Drw { x: u8, y: u8, n: u8 },
    /// `Ex9E`: skip the next instruction if key `Vx` is down.
    Skp { x: u8 },
    /// `ExA1`: skip the next instruction if key `Vx` is up.
    Sknp { x: u8 },
    /// `Fx07`: `Vx = DT`.
    LdVxDt { x: u8 },
    /// `Fx0A`: wait for a key, then `Vx` = its index.
    LdVxK { x: u8 },
    /// `Fx15`: `DT = Vx`.
    LdDtVx { x: u8 },
    /// `Fx18`: `ST = Vx`.
    LdStVx { x: u8 },
    /// `Fx1E`: `I = I + Vx`.
    AddI { x: u8 },
    /// `Fx29`: `I` = the address of the glyph for `Vx`.
    LdF { x: u8 },
    /// `Fx33`: store the three decimal digits of `Vx` at `I`.
    LdB { x: u8 },
    /// `Fx55`: store `V0..=Vx` at `I`.
    LdIVx { x: u8 },
    /// `Fx65`: load `V0..=Vx` from `I`.
    LdVxI { x: u8 },
}

impl Instruction {
    /// Every register operand names one of the sixteen registers.
    pub open spec fn wf(self) -> bool {
        match self {
            Instruction::SeByte { x, .. }
            | Instruction::SneByte { x, .. }
            | Instruction::LdByte { x, .. }
            | Instruction::AddByte { x, .. }
            | Instruction::Rnd { x, .. }
            | Instruction::Shr { x }
            | Instruction::Shl { x }
            | Instruction::Skp { x }
            | Instruction::Sknp { x }
            | Instruction::LdVxDt { x }
            | Instruction::LdVxK { x }
            | Instruction::LdDtVx { x }
            | Instruction::LdStVx { x }
            | Instruction::AddI { x }
            | Instruction::LdF { x }
            | Instruction::LdB { x }
            | Instruction::LdIVx { x }
            | Instruction::LdVxI { x } => x < 16,
            Instruction::SeReg { x, y }
            | Instruction::LdReg { x, y }
            | Instruction::Or { x, y }
            | Instruction::And { x, y }
            | Instruction::Xor { x, y }
            | Instruction::AddReg { x, y }
            | Instruction::SubReg { x, y }
            | Instruction::Subn { x, y }
            | Instruction::SneReg { x, y }
            | Instruction::Drw { x, y, .. } => x < 16 && y < 16,
            _ => true,
        }
    }
}

/// The nibble of `word` that starts at bit `4 * k`, for `k` in `0..4`.
pub open spec fn nibble(word: u16, k: nat) -> u8 {
    if k == 0 {
        (word % 16) as u8
    } else if k == 1 {
        ((word / 16) % 16) as u8
    } else if k == 2 {
        ((word / 256) % 16) as u8
    } else {
        ((word / 4096) % 16) as u8
    }
}

/// The instruction that `word` encodes, if it encodes one.
pub open spec fn decode_spec(word: u16) -> Option<Instruction> {
    let class = nibble(word, 3);
    let x = nibble(word, 2);
    let y = nibble(word, 1);
    let n = nibble(word, 0);
    let kk = (word % 256) as u8;
    let nnn = (word % 4096) as u16;
    if class == 0x0 {
        if word == 0x00E0 {
            Some(Instruction::Cls)
        } else if word == 0x00EE {
            Some(Instruction::Ret)
        } else {
            Some(Instruction::Sys)
        }
    } else if class == 0x1 {
        Some(Instruction::Jp { nnn })
    } else if class == 0x2 {
        Some(Instruction::Call { nnn })
    } else if class == 0x3 {
        Some(Instruction::SeByte { x, kk })
    } else if class == 0x4 {
        Some(Instruction::SneByte { x, kk })
    } else if class == 0x5 {
        if n == 0x0 {
            Some(Instruction::SeReg { x, y })
        } else {
            None
        }
    } else if class == 0x6 {
        Some(Instruction::LdByte { x, kk })
    } else if class == 0x7 {
        Some(Instruction::AddByte { x, kk })
    } else if class == 0x8 {
        if n == 0x0 {
            Some(Instruction::LdReg { x, y })
        } else if n == 0x1 {
            Some(Instruction::Or { x, y })
        } else if n == 0x2 {
            Some(Instruction::And { x, y })
        } else if n == 0x3 {
            Some(Instruction::Xor { x, y })
        } else if n == 0x4 {
            Some(Instruction::AddReg { x, y })
        } else if n == 0x5 {
            Some(Instruction::SubReg { x, y })
        } else if n == 0x6 {
            Some(Instruction::Shr { x })
        } else if n == 0x7 {
            Some(Instruction::Subn { x, y })
        } else if n == 0xE {
            Some(Instruction::Shl { x })
        } else {
            None
        }
    } else if class == 0x9 {
        if n == 0x0 {
            Some(Instruction::SneReg { x, y })
        } else {
            None
        }
    } else if class == 0xA {
        Some(Instruction::LdI { nnn })
    } else if class == 0xB {
        Some(Instruction::JpV0 { nnn })
    } else if class == 0xC {
        Some(Instruction::Rnd { x, kk })
    } else if class == 0xD {
        Some(Instruction::Drw { x, y, n })
    } else if class == 0xE {
        if kk == 0x9E {
            Some(Instruction::Skp { x })
        } else if kk == 0xA1 {
            Some(Instruction::Sknp { x })
        } else {
            None
        }
    } else {
        if kk == 0x07 {
            Some(Instruction::LdVxDt { x })
        } else if kk == 0x0A {
            Some(Instruction::LdVxK { x })
        } else if kk == 0x15 {
            Some(Instruction::LdDtVx { x })
        } else if kk == 0x18 {
            Some(Instruction::LdStVx { x })
        } else if kk == 0x1E {
            Some(Instruction::AddI { x })
        } else if kk == 0x29 {
            Some(Instruction::LdF { x })
        } else if kk == 0x33 {
            Some(Instruction::LdB { x })
        } else if kk == 0x55 {
            Some(Instruction::LdIVx { x })
        } else if kk == 0x65 {
            Some(Instruction::LdVxI { x })
        } else {
            None
        }
    }
}

/// Whatever a word decodes to names registers that exist, a sprite of at
/// most 15 rows and an address below 4096.
pub proof fn lemma_decode_wf(word: u16)
    ensures
        match decode_spec(word) {
            Some(ins) => {
                &&& ins.wf()
                &&& ins matches Instruction::Drw { n, .. } ==> n < 16
                &&& ins matches Instruction::Jp { nnn } ==> nnn < 4096
                &&& ins matches Instruction::Call { nnn } ==> nnn < 4096
                &&& ins matches Instruction::LdI { nnn } ==> nnn < 4096
                &&& ins matches Instruction::JpV0 { nnn } ==> nnn < 4096
            },
            None => true,
        },
{
}

/// Decodes one instruction word.
pub fn decode(word: u16) -> (ins: Option<Instruction>)
    ensures
        ins == decode_spec(word),
{
    let nnn: u16 = word & 0x0FFF;
    let n: u8 = (word & 0x000F) as u8;
    let x: u8 = ((word & 0x0F00) >> 8) as u8;
    let y: u8 = ((word & 0x00F0) >> 4) as u8;
    let kk: u8 = (word & 0x00FF) as u8;
    let class: u8 = ((word & 0xF000) >> 12) as u8;
    assert(word & 0x0FFF == word % 4096) by (bit_vector);
    assert(word & 0x000F == word % 16) by (bit_vector);
    assert((word & 0x0F00) >> 8 == (word / 256) % 16) by (bit_vector);
    assert((word & 0x00F0) >> 4 == (word / 16) % 16) by (bit_vector);
    assert(word & 0x00FF == word % 256) by (bit_vector);
    assert((word & 0xF000) >> 12 == (word / 4096) % 16) by (bit_vector);
    assert(word == 0x00E0 <==> (word / 4096) % 16 == 0 && (word / 256) % 16 == 0 && (word / 16)
        % 16 == 0xE && word % 16 == 0) by (bit_vector);
    assert(word == 0x00EE <==> (word / 4096) % 16 == 0 && (word / 256) % 16 == 0 && (word / 16)
        % 16 == 0xE && word % 16 == 0xE) by (bit_vector);
    assert(word % 256 == ((word / 16) % 16) * 16 + word % 16) by (bit_vector);
    match (class, x, y, n) {
        (0x0, 0x0, 0xE, 0x0) => Some(Instruction::Cls),
        (0x0, 0x0, 0xE, 0xE) => Some(Instruction::Ret),
        (0x0, _, _, _) => Some(Instruction::Sys),
        (0x1, _, _, _) => Some(Instruction::Jp { nnn }),
        (0x2, _, _, _) => Some(Instruction::Call { nnn }),
        (0x3, _, _, _) => Some(Instruction::SeByte { x, kk }),
        (0x4, _, _, _) => Some(Instruction::SneByte { x, kk }),
        (0x5, _, _, 0x0) => Some(Instruction::SeReg { x, y }),
        (0x6, _, _, _) => Some(Instruction::LdByte { x, kk }),
        (0x7, _, _, _) => Some(Instruction::AddByte { x, kk }),
        (0x8, _, _, 0x0) => Some(Instruction::LdReg { x, y }),
        (0x8, _, _, 0x1) => Some(Instruction::Or { x, y }),
        (0x8, _, _, 0x2) => Some(Instruction::And { x, y }),
        (0x8, _, _, 0x3) => Some(Instruction::Xor { x, y }),
        (0x8, _, _, 0x4) => Some(Instruction::AddReg { x, y }),
        (0x8, _, _, 0x5) => Some(Instruction::SubReg { x, y }),
        (0x8, _, _, 0x6) => Some(Instruction::Shr { x }),
        (0x8, _, _, 0x7) => Some(Instruction::Subn { x, y }),
        (0x8, _, _, 0xE) => Some(Instruction::Shl { x }),
        (0x9, _, _, 0x0) => Some(Instruction::SneReg { x, y }),
        (0xA, _, _, _) => Some(Instruction::LdI { nnn }),
        (0xB, _, _, _) => Some(Instruction::JpV0 { nnn }),
        (0xC, _, _, _) => Some(Instruction::Rnd { x, kk }),
        (0xD, _, _, _) => Some(Instruction::Drw { x, y, n }),
        (0xE, _, 0x9, 0xE) => Some(Instruction::Skp { x }),
        (0xE, _, 0xA, 0x1) => Some(Instruction::Sknp { x }),
        (0xF, _, 0x0, 0x7) => Some(Instruction::LdVxDt { x }),
        (0xF, _, 0x0, 0xA) => Some(Instruction::LdVxK { x }),
        (0xF, _, 0x1, 0x5) => Some(Instruction::LdDtVx { x }),
        (0xF, _, 0x1, 0x8) => Some(Instruction::LdStVx { x }),
        (0xF, _, 0x1, 0xE) => Some(Instruction::AddI { x }),
        (0xF, _, 0x2, 0x9) => Some(Instruction::LdF { x }),
        (0xF, _, 0x3, 0x3) => Some(Instruction::LdB { x }),
        (0xF, _, 0x5, 0x5) => Some(Instruction::LdIVx { x }),
        (0xF, _, 0x6, 0x5) => Some(Instruction::LdVxI { x }),
        _ => None,
    }
}

} // verus!
