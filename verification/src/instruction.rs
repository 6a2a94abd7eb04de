//! Instructions and their 16-bit encodings.

use vstd::prelude::*;

verus! {

/// One decoded instruction. `x` and `y` name registers, `kk` is an immediate
/// byte, `n` an immediate nibble and `addr` a 12-bit address.
#[derive(Clone, Copy, Debug, PartialEq, Eq, Structural)]
pub enum Instruction {
    /// `00E0`: turn every pixel off.
    ClearScreen,
    /// `00EE`: return from a subroutine.
    Return,
    /// `1nnn`: jump to `addr`.
    Jump { addr: u16 },
    /// `2nnn`: call the subroutine at `addr`.
    Call { addr: u16 },
    /// `3xkk`: skip the next instruction if `Vx == kk`.
    SkipEqByte { x: u8, kk: u8 },
    /// `4xkk`: skip the next instruction if `Vx != kk`.
    SkipNeByte { x: u8, kk: u8 },
    /// `5xy0`: skip the next instruction if `Vx == Vy`.
    SkipEqReg { x: u8, y: u8 },
    /// `6xkk`: `Vx = kk`.
    LoadByte { x: u8, kk: u8 },
    /// `7xkk`: `Vx = Vx + kk`, wrapping, flag untouched.
    AddByte { x: u8, kk: u8 },
    /// `8xy0`: `Vx = Vy`.
    Move { x: u8, y: u8 },
    /// `8xy1`: `Vx = Vx | Vy`.
    Or { x: u8, y: u8 },
    /// `8xy2`: `Vx = Vx & Vy`.
    And { x: u8, y: u8 },
    /// `8xy3`: `Vx = Vx ^ Vy`.
    Xor { x: u8, y: u8 },
    /// `8xy4`: `Vx = Vx + Vy`, wrapping, with carry in `VF`.
    AddReg { x: u8, y: u8 },
    /// `8xy5`: `Vx = Vx - Vy`, wrapping, with "no borrow" in `VF`.
    Sub { x: u8, y: u8 },
    /// `8xy6`: `Vx = Vx >> 1`, with the bit shifted out in `VF`.
    ShiftRight { x: u8 },
    /// `8xy7`: `Vx = Vy - Vx`, wrapping, with "no borrow" in `VF`.
    SubFrom { x: u8, y: u8 },
    /// `8xyE`: `Vx = Vx << 1`, with the bit shifted out in `VF`.
    ShiftLeft { x: u8 },
    /// `9xy0`: skip the next instruction if `Vx != Vy`.
    SkipNeReg { x: u8, y: u8 },
    /// `Annn`: `I = addr`.
    LoadIndex { addr: u16 },
    /// `Bnnn`: jump to `addr + V0`.
    JumpOffset { addr: u16 },
    /// `Cxkk`: `Vx = random byte & kk`.
    Random { x: u8, kk: u8 },
    /// `Dxyn`: draw the `n`-row sprite at `I` at position `(Vx, Vy)`.
    Draw { x: u8, y: u8, n: u8 },
    /// `Ex9E`: skip the next instruction if key `Vx` is down.
    SkipKeyDown { x: u8 },
    /// `ExA1`: skip the next instruction if key `Vx` is not down.
    SkipKeyUp { x: u8 },
    /// `Fx07`: `Vx = delay timer`.
    ReadDelay { x: u8 },
    /// `Fx0A`: suspend until a key is pressed, then store it in `Vx`.
    WaitKey { x: u8 },
    /// `Fx15`: `delay timer = Vx`.
    SetDelay { x: u8 },
    /// `Fx18`: `sound timer = Vx`.
    SetSound { x: u8 },
    /// `Fx1E`: `I = I + Vx`, wrapping inside the address space.
    AddIndex { x: u8 },
    /// `Fx29`: `I = address of the glyph for digit Vx`.
    FontAddress { x: u8 },
    /// `Fx33`: store the three decimal digits of `Vx` at `I`, `I+1`, `I+2`.
    StoreBcd { x: u8 },
    /// `Fx55`: store `V0..=Vx` in memory starting at `I`.
    StoreRegs { x: u8 },
    /// `Fx65`: load `V0..=Vx` from memory starting at `I`.
    LoadRegs { x: u8 },
}

impl Instruction {
    /// Register operands are below 16, the nibble is below 16 and addresses
    /// are below 4096. Every decoded instruction satisfies this.
    pub open spec fn wf(self) -> bool {
        match self {
            Instruction::ClearScreen | Instruction::Return => true,
            Instruction::Jump { addr }
            | Instruction::Call { addr }
            | Instruction::LoadIndex { addr }
            | Instruction::JumpOffset { addr } => addr < 0x1000,
            Instruction::SkipEqByte { x, kk }
            | Instruction::SkipNeByte { x, kk }
            | Instruction::LoadByte { x, kk }
            | Instruction::AddByte { x, kk }
            | Instruction::Random { x, kk } => x < 16,
            Instruction::SkipEqReg { x, y }
            | Instruction::Move { x, y }
            | Instruction::Or { x, y }
            | Instruction::And { x, y }
            | Instruction::Xor { x, y }
            | Instruction::AddReg { x, y }
            | Instruction::Sub { x, y }
            | Instruction::SubFrom { x, y }
            | Instruction::SkipNeReg { x, y } => x < 16 && y < 16,
            Instruction::Draw { x, y, n } => x < 16 && y < 16 && n < 16,
            Instruction::ShiftRight { x }
            | Instruction::ShiftLeft { x }
            | Instruction::SkipKeyDown { x }
            | Instruction::SkipKeyUp { x }
            | Instruction::ReadDelay { x }
            | Instruction::WaitKey { x }
            | Instruction::SetDelay { x }
            | Instruction::SetSound { x }
            | Instruction::AddIndex { x }
            | Instruction::FontAddress { x }
            | Instruction::StoreBcd { x }
            | Instruction::StoreRegs { x }
            | Instruction::LoadRegs { x } => x < 16,
        }
    }
}

/// The instruction that the word `op` encodes, if any. With the word
/// written as four nibbles `t x y n`, `kk` is its low byte and `addr` its low
/// twelve bits.
pub open spec fn decode_spec(op: u16) -> Option<Instruction> {
    let t = op / 0x1000;
    let x = ((op / 0x100) % 0x10) as u8;
    let y = ((op / 0x10) % 0x10) as u8;
    let n = (op % 0x10) as u8;
    let kk = (op % 0x100) as u8;
    let addr = op % 0x1000;
    if t == 0x0 {
        if op == 0x00E0 {
            Some(Instruction::ClearScreen)
        } else if op == 0x00EE {
            Some(Instruction::Return)
        } else {
            None
        }
    } else if t == 0x1 {
        Some(Instruction::Jump { addr })
    } else if t == 0x2 {
        Some(Instruction::Call { addr })
    } else if t == 0x3 {
        Some(Instruction::SkipEqByte { x, kk })
    } else if t == 0x4 {
        Some(Instruction::SkipNeByte { x, kk })
    } else if t == 0x5 {
        if n == 0 {
            Some(Instruction::SkipEqReg { x, y })
        } else {
            None
        }
    } else if t == 0x6 {
        Some(Instruction::LoadByte { x, kk })
    } else if t == 0x7 {
        Some(Instruction::AddByte { x, kk })
    } else if t == 0x8 {
        if n == 0x0 {
            Some(Instruction::Move { x, y })
        } else if n == 0x1 {
            Some(Instruction::Or { x, y })
        } else if n == 0x2 {
            Some(Instruction::And { x, y })
        } else if n == 0x3 {
            Some(Instruction::Xor { x, y })
        } else if n == 0x4 {
            Some(Instruction::AddReg { x, y })
        } else if n == 0x5 {
            Some(Instruction::Sub { x, y })
        } else if n == 0x6 {
            Some(Instruction::ShiftRight { x })
        } else if n == 0x7 {
            Some(Instruction::SubFrom { x, y })
        } else if n == 0xE {
            Some(Instruction::ShiftLeft { x })
        } else {
            None
        }
    } else if t == 0x9 {
        if n == 0 {
            Some(Instruction::SkipNeReg { x, y })
        } else {
            None
        }
    } else if t == 0xA {
        Some(Instruction::LoadIndex { addr })
    } else if t == 0xB {
        Some(Instruction::JumpOffset { addr })
    } else if t == 0xC {
        Some(Instruction::Random { x, kk })
    } else if t == 0xD {
        Some(Instruction::Draw { x, y, n })
    } else if t == 0xE {
        if kk == 0x9E {
            Some(Instruction::SkipKeyDown { x })
        } else if kk == 0xA1 {
            Some(Instruction::SkipKeyUp { x })
        } else {
            None
        }
    } else {
        if kk == 0x07 {
            Some(Instruction::ReadDelay { x })
        } else if kk == 0x0A {
            Some(Instruction::WaitKey { x })
        } else if kk == 0x15 {
            Some(Instruction::SetDelay { x })
        } else if kk == 0x18 {
            Some(Instruction::SetSound { x })
        } else if kk == 0x1E {
            Some(Instruction::AddIndex { x })
        } else if kk == 0x29 {
            Some(Instruction::FontAddress { x })
        } else if kk == 0x33 {
            Some(Instruction::StoreBcd { x })
        } else if kk == 0x55 {
            Some(Instruction::StoreRegs { x })
        } else if kk == 0x65 {
            Some(Instruction::LoadRegs { x })
        } else {
            None
        }
    }
}

/// The fields of a word as shifts and masks are its fields as quotients and
/// remainders.
proof fn lemma_fields(op: u16)
    by (bit_vector)
    ensures
        op >> 12 == op / 0x1000,
        (op >> 8) & 0xF == (op / 0x100) % 0x10,
        (op >> 4) & 0xF == (op / 0x10) % 0x10,
        op & 0xF == op % 0x10,
        op & 0xFF == op % 0x100,
        op & 0xFFF == op % 0x1000,
{
}

/// Decodes the word `op`, or returns `None` if it encodes no instruction.
pub fn decode(op: u16) -> (r: Option<Instruction>)
    ensures
        r == decode_spec(op),
        r matches Some(instr) ==> instr.wf(),
{
    proof {
        lemma_fields(op);
    }
    let x = ((op >> 8) & 0xF) as u8;
    let y = ((op >> 4) & 0xF) as u8;
    let n = (op & 0xF) as u8;
    let kk = (op & 0xFF) as u8;
    let addr = op & 0xFFF;
    match op >> 12 {
        0x0 => match op {
            0x00E0 => Some(Instruction::ClearScreen),
            0x00EE => Some(Instruction::Return),
            _ => None,
        },
        0x1 => Some(Instruction::Jump { addr }),
        0x2 => Some(Instruction::Call { addr }),
        0x3 => Some(Instruction::SkipEqByte { x, kk }),
        0x4 => Some(Instruction::SkipNeByte { x, kk }),
        0x5 => match n {
            0x0 => Some(Instruction::SkipEqReg { x, y }),
            _ => None,
        },
        0x6 => Some(Instruction::LoadByte { x, kk }),
        0x7 => Some(Instruction::AddByte { x, kk }),
        0x8 => match n {
            0x0 => Some(Instruction::Move { x, y }),
            0x1 => Some(Instruction::Or { x, y }),
            0x2 => Some(Instruction::And { x, y }),
            0x3 => Some(Instruction::Xor { x, y }),
            0x4 => Some(Instruction::AddReg { x, y }),
            0x5 => Some(Instruction::Sub { x, y }),
            0x6 => Some(Instruction::ShiftRight { x }),
            0x7 => Some(Instruction::SubFrom { x, y }),
            0xE => Some(Instruction::ShiftLeft { x }),
            _ => None,
        },
        0x9 => match n {
            0x0 => Some(Instruction::SkipNeReg { x, y }),
            _ => None,
        },
        0xA => Some(Instruction::LoadIndex { addr }),
        0xB => Some(Instruction::JumpOffset { addr }),
        0xC => Some(Instruction::Random { x, kk }),
        0xD => Some(Instruction::Draw { x, y, n }),
        0xE => match kk {
            0x9E => Some(Instruction::SkipKeyDown { x }),
            0xA1 => Some(Instruction::SkipKeyUp { x }),
            _ => None,
        },
        _ => match kk {
            0x07 => Some(Instruction::ReadDelay { x }),
            0x0A => Some(Instruction::WaitKey { x }),
            0x15 => Some(Instruction::SetDelay { x }),
            0x18 => Some(Instruction::SetSound { x }),
            0x1E => Some(Instruction::AddIndex { x }),
            0x29 => Some(Instruction::FontAddress { x }),
            0x33 => Some(Instruction::StoreBcd { x }),
            0x55 => Some(Instruction::StoreRegs { x }),
            0x65 => Some(Instruction::LoadRegs { x }),
            _ => None,
        },
    }
}

} // verus!
