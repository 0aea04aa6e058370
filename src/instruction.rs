use vstd::prelude::*;

verus! {

/// One decoded instruction word.
///
/// Register operands (`x`, `y`) are register indices below 16, `n` is a
/// sprite height below 16, `addr` is a 12-bit address and `kk` an 8-bit
/// immediate.
#[derive(Clone, Copy, Debug, PartialEq, Eq, Structural)]
pub enum Instruction {
    /// `00E0`: clear the frame buffer.
    Clear,
    /// `00EE`: return from a subroutine.
    Return,
    /// `1nnn`: jump to `addr`.
    Jump { addr: u16 },
    /// `2nnn`: call the subroutine at `addr`.
    Call { addr: u16 },
    /// `3xkk`: skip the next instruction if `Vx == kk`.
    SkipEqImm { x: usize, kk: u8 },
    /// `4xkk`: skip the next instruction if `Vx != kk`.
    SkipNeImm { x: usize, kk: u8 },
    /// `5xy0`: skip the next instruction if `Vx == Vy`.
    SkipEqReg { x: usize, y: usize },
    /// `6xkk`: `Vx = kk`.
    LoadImm { x: usize, kk: u8 },
    /// `7xkk`: `Vx = Vx + kk`, wrapping, flag untouched.
    AddImm { x: usize, kk: u8 },
    /// `8xy0`: `Vx = Vy`.
    Move { x: usize, y: usize },
    /// `8xy1`: `Vx = Vx | Vy`.
    Or { x: usize, y: usize },
    /// `8xy2`: `Vx = Vx & Vy`.
    And { x: usize, y: usize },
    /// `8xy3`: `Vx = Vx ^ Vy`.
    Xor { x: usize, y: usize },
    /// `8xy4`: `Vx = Vx + Vy` with carry into the flag register.
    AddReg { x: usize, y: usize },
    /// `8xy5`: `Vx = Vx - Vy` with the no-borrow flag.
    Sub { x: usize, y: usize },
    /// `8xy6`: `Vx = Vx >> 1`, the bit shifted out goes to the flag.
    ShiftRight { x: usize },
    /// `8xy7`: `Vx = Vy - Vx` with the no-borrow flag.
    SubReversed { x: usize, y: usize },
    /// `8xyE`: `Vx = Vx << 1`, the bit shifted out goes to the flag.
    ShiftLeft { x: usize },
    /// `9xy0`: skip the next instruction if `Vx != Vy`.
    SkipNeReg { x: usize, y: usize },
    /// `Annn`: `I = addr`.
    LoadIndex { addr: u16 },
    /// `Bnnn`: jump to `addr + V0`.
    JumpOffset { addr: u16 },
    /// `Cxkk`: `Vx = random byte & kk`.
    Random { x: usize, kk: u8 },
    /// `Dxyn`: draw an `n`-byte sprite from `I` at `(Vx, Vy)`.
    Draw { x: usize, y: usize, n: usize },
    /// `Ex9E`: skip the next instruction if key `Vx` is down.
    SkipKey { x: usize },
    /// `ExA1`: skip the next instruction if key `Vx` is up.
    SkipNotKey { x: usize },
    /// `Fx07`: `Vx = delay timer`.
    LoadFromDelay { x: usize },
    /// `Fx0A`: wait until a key is down and store its index in `Vx`.
    WaitKey { x: usize },
    /// `Fx15`: `delay timer = Vx`.
    SetDelay { x: usize },
    /// `Fx18`: `sound timer = Vx`.
    SetSound { x: usize },
    /// `Fx1E`: `I = I + Vx`, wrapping at 16 bits.
    AddIndex { x: usize },
    /// `Fx29`: `I` = address of the font glyph for digit `Vx`.
    FontGlyph { x: usize },
    /// `Fx33`: store the decimal digits of `Vx` at `I`, `I + 1`, `I + 2`.
    StoreBcd { x: usize },
    /// `Fx55`: store `V0..=Vx` at `I..=I + x`.
    StoreRegisters { x: usize },
    /// `Fx65`: load `V0..=Vx` from `I..=I + x`.
    LoadRegisters { x: usize },
    /// Any word that is none of the above; executed as a no-op.
    Unknown,
}

/// The leading nibble of an instruction word.
pub open spec fn nibble_a(op: u16) -> int {
    op as int / 4096
}

/// The second nibble (the `x` operand).
pub open spec fn nibble_x(op: u16) -> int {
    (op as int / 256) % 16
}

/// The third nibble (the `y` operand).
pub open spec fn nibble_y(op: u16) -> int {
    (op as int / 16) % 16
}

/// The last nibble (the `n` operand).
pub open spec fn nibble_n(op: u16) -> int {
    op as int % 16
}

/// The low 12 bits (the `nnn` address operand).
pub open spec fn operand_nnn(op: u16) -> u16 {
    (op as int % 4096) as u16
}

/// The low 8 bits (the `kk` immediate operand).
pub open spec fn operand_kk(op: u16) -> u8 {
    (op as int % 256) as u8
}

/// The instruction that an instruction word denotes.
pub open spec fn decode_spec(op: u16) -> Instruction {
    let a = nibble_a(op);
    let x = nibble_x(op) as usize;
    let y = nibble_y(op) as usize;
    let n = nibble_n(op);
    let nnn = operand_nnn(op);
    let kk = operand_kk(op);
    if a == 0 {
        if op == 0x00E0 {
            Instruction::Clear
        } else if op == 0x00EE {
            Instruction::Return
        } else {
            Instruction::Unknown
        }
    } else if a == 1 {
        Instruction::Jump { addr: nnn }
    } else if a == 2 {
        Instruction::Call { addr: nnn }
    } else if a == 3 {
        Instruction::SkipEqImm { x, kk }
    } else if a == 4 {
        Instruction::SkipNeImm { x, kk }
    } else if a == 5 {
        if n == 0 {
            Instruction::SkipEqReg { x, y }
        } else {
            Instruction::Unknown
        }
    } else if a == 6 {
        Instruction::LoadImm { x, kk }
    } else if a == 7 {
        Instruction::AddImm { x, kk }
    } else if a == 8 {
        if n == 0 {
            Instruction::Move { x, y }
        } else if n == 1 {
            Instruction::Or { x, y }
        } else if n == 2 {
            Instruction::And { x, y }
        } else if n == 3 {
            Instruction::Xor { x, y }
        } else if n == 4 {
            Instruction::AddReg { x, y }
        } else if n == 5 {
            Instruction::Sub { x, y }
        } else if n == 6 {
            Instruction::ShiftRight { x }
        } else if n == 7 {
            Instruction::SubReversed { x, y }
        } else if n == 0xE {
            Instruction::ShiftLeft { x }
        } else {
            Instruction::Unknown
        }
    } else if a == 9 {
        if n == 0 {
            Instruction::SkipNeReg { x, y }
        } else {
            Instruction::Unknown
        }
    } else if a == 0xA {
        Instruction::LoadIndex { addr: nnn }
    } else if a == 0xB {
        Instruction::JumpOffset { addr: nnn }
    } else if a == 0xC {
        Instruction::Random { x, kk }
    } else if a == 0xD {
        Instruction::Draw { x, y, n: n as usize }
    } else if a == 0xE {
        if kk == 0x9E {
            Instruction::SkipKey { x }
        } else if kk == 0xA1 {
            Instruction::SkipNotKey { x }
        } else {
            Instruction::Unknown
        }
    } else {
        if kk == 0x07 {
            Instruction::LoadFromDelay { x }
        } else if kk == 0x0A {
            Instruction::WaitKey { x }
        } else if kk == 0x15 {
            Instruction::SetDelay { x }
        } else if kk == 0x18 {
            Instruction::SetSound { x }
        } else if kk == 0x1E {
            Instruction::AddIndex { x }
        } else if kk == 0x29 {
            Instruction::FontGlyph { x }
        } else if kk == 0x33 {
            Instruction::StoreBcd { x }
        } else if kk == 0x55 {
            Instruction::StoreRegisters { x }
        } else if kk == 0x65 {
            Instruction::LoadRegisters { x }
        } else {
            Instruction::Unknown
        }
    }
}

impl Instruction {
    /// Every register index is below 16, every sprite height below 16 and
    /// every address below `0x1000`.
    pub open spec fn operands_in_range(self) -> bool {
        match self {
            Instruction::Jump { addr } => addr < 0x1000,
            Instruction::Call { addr } => addr < 0x1000,
            Instruction::LoadIndex { addr } => addr < 0x1000,
            Instruction::JumpOffset { addr } => addr < 0x1000,
            Instruction::SkipEqImm { x, .. } => x < 16,
            Instruction::SkipNeImm { x, .. } => x < 16,
            Instruction::SkipEqReg { x, y } => x < 16 && y < 16,
            Instruction::LoadImm { x, .. } => x < 16,
            Instruction::AddImm { x, .. } => x < 16,
            Instruction::Move { x, y } => x < 16 && y < 16,
            Instruction::Or { x, y } => x < 16 && y < 16,
            Instruction::And { x, y } => x < 16 && y < 16,
            Instruction::Xor { x, y } => x < 16 && y < 16,
            Instruction::AddReg { x, y } => x < 16 && y < 16,
            Instruction::Sub { x, y } => x < 16 && y < 16,
            Instruction::ShiftRight { x } => x < 16,
            Instruction::SubReversed { x, y } => x < 16 && y < 16,
            Instruction::ShiftLeft { x } => x < 16,
            Instruction::SkipNeReg { x, y } => x < 16 && y < 16,
            Instruction::Random { x, .. } => x < 16,
            Instruction::Draw { x, y, n } => x < 16 && y < 16 && n < 16,
            Instruction::SkipKey { x } => x < 16,
            Instruction::SkipNotKey { x } => x < 16,
            Instruction::LoadFromDelay { x } => x < 16,
            Instruction::WaitKey { x } => x < 16,
            Instruction::SetDelay { x } => x < 16,
            Instruction::SetSound { x } => x < 16,
            Instruction::AddIndex { x } => x < 16,
            Instruction::FontGlyph { x } => x < 16,
            Instruction::StoreBcd { x } => x < 16,
            Instruction::StoreRegisters { x } => x < 16,
            Instruction::LoadRegisters { x } => x < 16,
            _ => true,
        }
    }
}

/// Every decoded instruction has its operands in range.
pub proof fn lemma_decode_operands_in_range(op: u16)
    ensures
        decode_spec(op).operands_in_range(),
{
}

/// Decodes an instruction word into the instruction it denotes.
pub fn decode(op: u16) -> (ins: Instruction)
    ensures
        ins == decode_spec(op),
        ins.operands_in_range(),
{
    let a: u16 = op / 4096;
    let x: usize = ((op / 256) % 16) as usize;
    let y: usize = ((op / 16) % 16) as usize;
    let n: u16 = op % 16;
    let nnn: u16 = op % 4096;
    let kk: u8 = (op % 256) as u8;
    if a == 0 {
        if op == 0x00E0 {
            Instruction::Clear
        } else if op == 0x00EE {
            Instruction::Return
        } else {
            Instruction::Unknown
        }
    } else if a == 1 {
        Instruction::Jump { addr: nnn }
    } else if a == 2 {
        Instruction::Call { addr: nnn }
    } else if a == 3 {
        Instruction::SkipEqImm { x, kk }
    } else if a == 4 {
        Instruction::SkipNeImm { x, kk }
    } else if a == 5 {
        if n == 0 {
            Instruction::SkipEqReg { x, y }
        } else {
            Instruction::Unknown
        }
    } else if a == 6 {
        Instruction::LoadImm { x, kk }
    } else if a == 7 {
        Instruction::AddImm { x, kk }
    } else if a == 8 {
        if n == 0 {
            Instruction::Move { x, y }
        } else if n == 1 {
            Instruction::Or { x, y }
        } else if n == 2 {
            Instruction::And { x, y }
        } else if n == 3 {
            Instruction::Xor { x, y }
        } else if n == 4 {
            Instruction::AddReg { x, y }
        } else if n == 5 {
            Instruction::Sub { x, y }
        } else if n == 6 {
            Instruction::ShiftRight { x }
        } else if n == 7 {
            Instruction::SubReversed { x, y }
        } else if n == 0xE {
            Instruction::ShiftLeft { x }
        } else {
            Instruction::Unknown
        }
    } else if a == 9 {
        if n == 0 {
            Instruction::SkipNeReg { x, y }
        } else {
            Instruction::Unknown
        }
    } else if a == 0xA {
        Instruction::LoadIndex { addr: nnn }
    } else if a == 0xB {
        Instruction::JumpOffset { addr: nnn }
    } else if a == 0xC {
        Instruction::Random { x, kk }
    } else if a == 0xD {
        Instruction::Draw { x, y, n: n as usize }
    } else if a == 0xE {
        if kk == 0x9E {
            Instruction::SkipKey { x }
        } else if kk == 0xA1 {
            Instruction::SkipNotKey { x }
        } else {
            Instruction::Unknown
        }
    } else {
        if kk == 0x07 {
            Instruction::LoadFromDelay { x }
        } else if kk == 0x0A {
            Instruction::WaitKey { x }
        } else if kk == 0x15 {
            Instruction::SetDelay { x }
        } else if kk == 0x18 {
            Instruction::SetSound { x }
        } else if kk == 0x1E {
            Instruction::AddIndex { x }
        } else if kk == 0x29 {
            Instruction::FontGlyph { x }
        } else if kk == 0x33 {
            Instruction::StoreBcd { x }
        } else if kk == 0x55 {
            Instruction::StoreRegisters { x }
        } else if kk == 0x65 {
            Instruction::LoadRegisters { x }
        } else {
            Instruction::Unknown
        }
    }
}

} // verus!
