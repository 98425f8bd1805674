//! Decoding of 16-bit opcodes into instructions.

use vstd::prelude::*;
use crate::state::Fault;

verus! {

/// One instruction of the base CHIP-8 set. `x` and `y` name registers,
/// `addr` is a 12-bit address, `kk` a byte and `n` a sprite height.
#[derive(Clone, Copy, Debug, PartialEq, Eq, Structural)]
pub enum Instruction {
    /// `00E0`: clear the display.
    ClearScreen,
    /// `00EE`: return from a subroutine.
    Return,
    /// `1NNN`: jump to `addr`.
    Jump { addr: u16 },
    /// `2NNN`: call the subroutine at `addr`.
    Call { addr: u16 },
    /// `3XKK`: skip the next instruction if VX equals `kk`.
    SkipEqByte { x: u8, kk: u8 },
    /// `4XKK`: skip the next instruction if VX differs from `kk`.
    SkipNeByte { x: u8, kk: u8 },
    /// `5XY0`: skip the next instruction if VX equals VY.
    SkipEqReg { x: u8, y: u8 },
    /// `6XKK`: VX = `kk`.
    LoadByte { x: u8, kk: u8 },
    /// `7XKK`: VX = VX + `kk`, wrapping, flag untouched.
    AddByte { x: u8, kk: u8 },
    /// `8XY0`: VX = VY.
    Move { x: u8, y: u8 },
    /// `8XY1`: VX = VX | VY.
    Or { x: u8, y: u8 },
    /// `8XY2`: VX = VX & VY.
    And { x: u8, y: u8 },
    /// `8XY3`: VX = VX ^ VY.
    Xor { x: u8, y: u8 },
    /// `8XY4`: VX = VX + VY with carry into VF.
    AddReg { x: u8, y: u8 },
    /// `8XY5`: VX = VX - VY, VF set when VX > VY.
    SubReg { x: u8, y: u8 },
    /// `8XY6`: VX = VX >> 1, VF = the bit shifted out.
    ShiftRight { x: u8, y: u8 },
    /// `8XY7`: VX = VY - VX, VF set when VY > VX.
    SubNeg { x: u8, y: u8 },
    /// `8XYE`: VX = VX << 1, VF = the bit shifted out.
    ShiftLeft { x: u8, y: u8 },
    /// `9XY0`: skip the next instruction if VX differs from VY.
    SkipNeReg { x: u8, y: u8 },
    /// `ANNN`: index register = `addr`.
    LoadIndex { addr: u16 },
    /// `BNNN`: jump to `addr` + V0.
    JumpOffset { addr: u16 },
    /// `CXKK`: VX = a random byte & `kk`.
    Random { x: u8, kk: u8 },
    /// `DXYN`: draw an `n`-row sprite at (VX, VY).
    Draw { x: u8, y: u8, n: u8 },
    /// `EX9E`: skip the next instruction if the key VX is down.
    SkipKeyPressed { x: u8 },
    /// `EXA1`: skip the next instruction if the key VX is up.
    SkipKeyReleased { x: u8 },
    /// `FX07`: VX = delay timer.
    LoadDelay { x: u8 },
    /// `FX0A`: wait for a key press and store the key in VX.
    WaitKey { x: u8 },
    /// `FX15`: delay timer = VX.
    SetDelay { x: u8 },
    /// `FX18`: sound timer = VX.
    SetSound { x: u8 },
    /// `FX1E`: index register = index register + VX.
    AddIndex { x: u8 },
    /// `FX29`: index register = address of the glyph of digit VX.
    LoadFont { x: u8 },
    /// `FX33`: store the decimal digits of VX at the index register.
    StoreBcd { x: u8 },
    /// `FX55`: store V0 to VX in memory from the index register on.
    StoreRegs { x: u8 },
    /// `FX65`: load V0 to VX from memory from the index register on.
    LoadRegs { x: u8 },
}

/// Bits 15 to 12: the instruction family.
pub open spec fn family(op: u16) -> u16 {
    op / 0x1000
}

/// Bits 11 to 8: the first register.
pub open spec fn x_of(op: u16) -> u8 {
    (op / 0x100 % 0x10) as u8
}

/// Bits 7 to 4: the second register.
pub open spec fn y_of(op: u16) -> u8 {
    (op / 0x10 % 0x10) as u8
}

/// Bits 3 to 0.
pub open spec fn n_of(op: u16) -> u8 {
    (op % 0x10) as u8
}

/// Bits 7 to 0.
pub open spec fn kk_of(op: u16) -> u8 {
    (op % 0x100) as u8
}

/// Bits 11 to 0.
pub open spec fn addr_of(op: u16) -> u16 {
    op % 0x1000
}

/// The instruction that an opcode encodes, by the instruction table, or
/// `IllegalOpcode` where the table has no row for it.
pub open spec fn decoded(op: u16) -> Result<Instruction, Fault> {
    let (x, y, n, kk, addr) = (x_of(op), y_of(op), n_of(op), kk_of(op), addr_of(op));
    if op == 0x00E0 {
        Ok(Instruction::ClearScreen)
    } else if op == 0x00EE {
        Ok(Instruction::Return)
    } else if family(op) == 0x1 {
        Ok(Instruction::Jump { addr })
    } else if family(op) == 0x2 {
        Ok(Instruction::Call { addr })
    } else if family(op) == 0x3 {
        Ok(Instruction::SkipEqByte { x, kk })
    } else if family(op) == 0x4 {
        Ok(Instruction::SkipNeByte { x, kk })
    } else if family(op) == 0x5 && n == 0 {
        Ok(Instruction::SkipEqReg { x, y })
    } else if family(op) == 0x6 {
        Ok(Instruction::LoadByte { x, kk })
    } else if family(op) == 0x7 {
        Ok(Instruction::AddByte { x, kk })
    } else if family(op) == 0x8 && n == 0x0 {
        Ok(Instruction::Move { x, y })
    } else if family(op) == 0x8 && n == 0x1 {
        Ok(Instruction::Or { x, y })
    } else if family(op) == 0x8 && n == 0x2 {
        Ok(Instruction::And { x, y })
    } else if family(op) == 0x8 && n == 0x3 {
        Ok(Instruction::Xor { x, y })
    } else if family(op) == 0x8 && n == 0x4 {
        Ok(Instruction::AddReg { x, y })
    } else if family(op) == 0x8 && n == 0x5 {
        Ok(Instruction::SubReg { x, y })
    } else if family(op) == 0x8 && n == 0x6 {
        Ok(Instruction::ShiftRight { x, y })
    } else if family(op) == 0x8 && n == 0x7 {
        Ok(Instruction::SubNeg { x, y })
    } else if family(op) == 0x8 && n == 0xE {
        Ok(Instruction::ShiftLeft { x, y })
    } else if family(op) == 0x9 && n == 0 {
        Ok(Instruction::SkipNeReg { x, y })
    } else if family(op) == 0xA {
        Ok(Instruction::LoadIndex { addr })
    } else if family(op) == 0xB {
        Ok(Instruction::JumpOffset { addr })
    } else if family(op) == 0xC {
        Ok(Instruction::Random { x, kk })
    } else if family(op) == 0xD {
        Ok(Instruction::Draw { x, y, n })
    } else if family(op) == 0xE && kk == 0x9E {
        Ok(Instruction::SkipKeyPressed { x })
    } else if family(op) == 0xE && kk == 0xA1 {
        Ok(Instruction::SkipKeyReleased { x })
    } else if family(op) == 0xF && kk == 0x07 {
        Ok(Instruction::LoadDelay { x })
    } else if family(op) == 0xF && kk == 0x0A {
        Ok(Instruction::WaitKey { x })
    } else if family(op) == 0xF && kk == 0x15 {
        Ok(Instruction::SetDelay { x })
    } else if family(op) == 0xF && kk == 0x18 {
        Ok(Instruction::SetSound { x })
    } else if family(op) == 0xF && kk == 0x1E {
        Ok(Instruction::AddIndex { x })
    } else if family(op) == 0xF && kk == 0x29 {
        Ok(Instruction::LoadFont { x })
    } else if family(op) == 0xF && kk == 0x33 {
        Ok(Instruction::StoreBcd { x })
    } else if family(op) == 0xF && kk == 0x55 {
        Ok(Instruction::StoreRegs { x })
    } else if family(op) == 0xF && kk == 0x65 {
        Ok(Instruction::LoadRegs { x })
    } else {
        Err(Fault::IllegalOpcode)
    }
}

/// The opcode of an instruction, by the instruction table.
pub open spec fn encode(ins: Instruction) -> u16 {
    let word: int = match ins {
        Instruction::ClearScreen => 0x00E0,
        Instruction::Return => 0x00EE,
        Instruction::Jump { addr } => 0x1000 + addr,
        Instruction::Call { addr } => 0x2000 + addr,
        Instruction::SkipEqByte { x, kk } => 0x3000 + x * 0x100 + kk,
        Instruction::SkipNeByte { x, kk } => 0x4000 + x * 0x100 + kk,
        Instruction::SkipEqReg { x, y } => 0x5000 + x * 0x100 + y * 0x10,
        Instruction::LoadByte { x, kk } => 0x6000 + x * 0x100 + kk,
        Instruction::AddByte { x, kk } => 0x7000 + x * 0x100 + kk,
        Instruction::Move { x, y } => 0x8000 + x * 0x100 + y * 0x10,
        Instruction::Or { x, y } => 0x8000 + x * 0x100 + y * 0x10 + 0x1,
        Instruction::And { x, y } => 0x8000 + x * 0x100 + y * 0x10 + 0x2,
        Instruction::Xor { x, y } => 0x8000 + x * 0x100 + y * 0x10 + 0x3,
        Instruction::AddReg { x, y } => 0x8000 + x * 0x100 + y * 0x10 + 0x4,
        Instruction::SubReg { x, y } => 0x8000 + x * 0x100 + y * 0x10 + 0x5,
        Instruction::ShiftRight { x, y } => 0x8000 + x * 0x100 + y * 0x10 + 0x6,
        Instruction::SubNeg { x, y } => 0x8000 + x * 0x100 + y * 0x10 + 0x7,
        Instruction::ShiftLeft { x, y } => 0x8000 + x * 0x100 + y * 0x10 + 0xE,
        Instruction::SkipNeReg { x, y } => 0x9000 + x * 0x100 + y * 0x10,
        Instruction::LoadIndex { addr } => 0xA000 + addr,
        Instruction::JumpOffset { addr } => 0xB000 + addr,
        Instruction::Random { x, kk } => 0xC000 + x * 0x100 + kk,
        Instruction::Draw { x, y, n } => 0xD000 + x * 0x100 + y * 0x10 + n,
        Instruction::SkipKeyPressed { x } => 0xE000 + x * 0x100 + 0x9E,
        Instruction::SkipKeyReleased { x } => 0xE000 + x * 0x100 + 0xA1,
        Instruction::LoadDelay { x } => 0xF000 + x * 0x100 + 0x07,
        Instruction::WaitKey { x } => 0xF000 + x * 0x100 + 0x0A,
        Instruction::SetDelay { x } => 0xF000 + x * 0x100 + 0x15,
        Instruction::SetSound { x } => 0xF000 + x * 0x100 + 0x18,
        Instruction::AddIndex { x } => 0xF000 + x * 0x100 + 0x1E,
        Instruction::LoadFont { x } => 0xF000 + x * 0x100 + 0x29,
        Instruction::StoreBcd { x } => 0xF000 + x * 0x100 + 0x33,
        Instruction::StoreRegs { x } => 0xF000 + x * 0x100 + 0x55,
        Instruction::LoadRegs { x } => 0xF000 + x * 0x100 + 0x65,
    };
    word as u16
}

impl Instruction {
    /// Register operands name one of the sixteen registers, addresses fit in
    /// twelve bits and sprite heights in four.
    pub open spec fn wf(&self) -> bool {
        match *self {
            Instruction::Jump { addr } | Instruction::Call { addr }
            | Instruction::LoadIndex { addr } | Instruction::JumpOffset { addr } => addr < 0x1000,
            Instruction::SkipEqByte { x, .. } | Instruction::SkipNeByte { x, .. }
            | Instruction::LoadByte { x, .. } | Instruction::AddByte { x, .. }
            | Instruction::Random { x, .. } | Instruction::SkipKeyPressed { x }
            | Instruction::SkipKeyReleased { x } | Instruction::LoadDelay { x }
            | Instruction::WaitKey { x } | Instruction::SetDelay { x }
            | Instruction::SetSound { x } | Instruction::AddIndex { x }
            | Instruction::LoadFont { x } | Instruction::StoreBcd { x }
            | Instruction::StoreRegs { x } | Instruction::LoadRegs { x } => x < 16,
            Instruction::SkipEqReg { x, y } | Instruction::Move { x, y }
            | Instruction::Or { x, y } | Instruction::And { x, y }
            | Instruction::Xor { x, y } | Instruction::AddReg { x, y }
            | Instruction::SubReg { x, y } | Instruction::ShiftRight { x, y }
            | Instruction::SubNeg { x, y } | Instruction::ShiftLeft { x, y }
            | Instruction::SkipNeReg { x, y } => x < 16 && y < 16,
            Instruction::Draw { x, y, n } => x < 16 && y < 16 && n < 16,
            Instruction::ClearScreen | Instruction::Return => true,
        }
    }

    /// Decodes an opcode. Every opcode that the instruction table lists
    /// decodes to its row; every other one is `IllegalOpcode`.
    pub fn decode(op: u16) -> (r: Result<Instruction, Fault>)
        ensures
            r == decoded(op),
            r matches Ok(i) ==> i.wf(),
    {
        let family = op / 0x1000;
        let x = (op / 0x100 % 0x10) as u8;
        let y = (op / 0x10 % 0x10) as u8;
        let n = (op % 0x10) as u8;
        let kk = (op % 0x100) as u8;
        let addr = op % 0x1000;
        if op == 0x00E0 {
            Ok(Instruction::ClearScreen)
        } else if op == 0x00EE {
            Ok(Instruction::Return)
        } else {
            match family {
                0x1 => Ok(Instruction::Jump { addr }),
                0x2 => Ok(Instruction::Call { addr }),
                0x3 => Ok(Instruction::SkipEqByte { x, kk }),
                0x4 => Ok(Instruction::SkipNeByte { x, kk }),
                0x5 if n == 0 => Ok(Instruction::SkipEqReg { x, y }),
                0x6 => Ok(Instruction::LoadByte { x, kk }),
                0x7 => Ok(Instruction::AddByte { x, kk }),
                0x8 => match n {
                    0x0 => Ok(Instruction::Move { x, y }),
                    0x1 => Ok(Instruction::Or { x, y }),
                    0x2 => Ok(Instruction::And { x, y }),
                    0x3 => Ok(Instruction::Xor { x, y }),
                    0x4 => Ok(Instruction::AddReg { x, y }),
                    0x5 => Ok(Instruction::SubReg { x, y }),
                    0x6 => Ok(Instruction::ShiftRight { x, y }),
                    0x7 => Ok(Instruction::SubNeg { x, y }),
                    0xE => Ok(Instruction::ShiftLeft { x, y }),
                    _ => Err(Fault::IllegalOpcode),
                },
                0x9 if n == 0 => Ok(Instruction::SkipNeReg { x, y }),
                0xA => Ok(Instruction::LoadIndex { addr }),
                0xB => Ok(Instruction::JumpOffset { addr }),
                0xC => Ok(Instruction::Random { x, kk }),
                0xD => Ok(Instruction::Draw { x, y, n }),
                0xE => match kk {
                    0x9E => Ok(Instruction::SkipKeyPressed { x }),
                    0xA1 => Ok(Instruction::SkipKeyReleased { x }),
                    _ => Err(Fault::IllegalOpcode),
                },
                0xF => match kk {
                    0x07 => Ok(Instruction::LoadDelay { x }),
                    0x0A => Ok(Instruction::WaitKey { x }),
                    0x15 => Ok(Instruction::SetDelay { x }),
                    0x18 => Ok(Instruction::SetSound { x }),
                    0x1E => Ok(Instruction::AddIndex { x }),
                    0x29 => Ok(Instruction::LoadFont { x }),
                    0x33 => Ok(Instruction::StoreBcd { x }),
                    0x55 => Ok(Instruction::StoreRegs { x }),
                    0x65 => Ok(Instruction::LoadRegs { x }),
                    _ => Err(Fault::IllegalOpcode),
                },
                _ => Err(Fault::IllegalOpcode),
            }
        }
    }
}

} // verus!
