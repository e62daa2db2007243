use vstd::prelude::*;
use crate::hex_util::{get_nth_nibble, nibble};

verus! {

/// The instruction kinds, one per row of the instruction table.
#[derive(Debug, Clone, Copy, PartialEq, Eq)]
pub enum Op {
    /// 00E0
    Cls,
    /// 00EE
    Ret,
    /// 0nnn, any other
    Sys,
    /// 1nnn
    Jp,
    /// 2nnn
    Call,
    /// 3xkk
    SkipEqByte,
    /// 4xkk
    SkipNeByte,
    /// 5xy0
    SkipEqReg,
    /// 6xkk
    LoadByte,
    /// 7xkk
    AddByte,
    /// 8xy0
    LoadReg,
    /// 8xy1
    Or,
    /// 8xy2
    And,
    /// 8xy3
    Xor,
    /// 8xy4
    AddReg,
    /// 8xy5
    Sub,
    /// 8xy6
    ShiftRight,
    /// 8xy7
    SubReverse,
    /// 8xyE
    ShiftLeft,
    /// 9xy0
    SkipNeReg,
    /// Annn
    LoadIndex,
    /// Bnnn
    JumpOffset,
    /// Cxkk
    Random,
    /// Dxyn
    Draw,
    /// Ex9E
    SkipKey,
    /// ExA1
    SkipNoKey,
    /// Fx07
    LoadDelay,
    /// Fx0A
    WaitKey,
    /// Fx15
    SetDelay,
    /// Fx18
    SetSound,
    /// Fx1E
    AddIndex,
    /// Fx29
    LoadDigit,
    /// Fx33
    StoreBcd,
    /// Fx55
    StoreRegs,
    /// Fx65
    LoadRegs,
}

/// Register operand `x` (bits 11-8).
pub open spec fn x_of(instruction: u16) -> int {
    nibble(instruction, 3)
}

/// Register operand `y` (bits 7-4).
pub open spec fn y_of(instruction: u16) -> int {
    nibble(instruction, 2)
}

/// Four-bit operand `n` (bits 3-0).
pub open spec fn n_of(instruction: u16) -> int {
    nibble(instruction, 1)
}

/// Byte operand `kk` (bits 7-0).
pub open spec fn kk_of(instruction: u16) -> u8 {
    (instruction % 0x100) as u8
}

/// Address operand `nnn` (bits 11-0).
pub open spec fn nnn_of(instruction: u16) -> u16 {
    instruction % 0x1000
}

/// The instruction kind that `instruction` encodes, if any: the family in
/// the top nibble, refined by the low nibble (families 5, 8, 9) or the low
/// byte (families 0, E, F).
pub open spec fn opcode_of(instruction: u16) -> Option<Op> {
    let family = instruction / 0x1000;
    let low = instruction % 0x10;
    let low_byte = instruction % 0x100;
    if instruction == 0x00E0 {
        Some(Op::Cls)
    } else if instruction == 0x00EE {
        Some(Op::Ret)
    } else if family == 0x0 {
        Some(Op::Sys)
    } else if family == 0x1 {
        Some(Op::Jp)
    } else if family == 0x2 {
        Some(Op::Call)
    } else if family == 0x3 {
        Some(Op::SkipEqByte)
    } else if family == 0x4 {
        Some(Op::SkipNeByte)
    } else if family == 0x5 && low == 0x0 {
        Some(Op::SkipEqReg)
    } else if family == 0x6 {
        Some(Op::LoadByte)
    } else if family == 0x7 {
        Some(Op::AddByte)
    } else if family == 0x8 && low == 0x0 {
        Some(Op::LoadReg)
    } else if family == 0x8 && low == 0x1 {
        Some(Op::Or)
    } else if family == 0x8 && low == 0x2 {
        Some(Op::And)
    } else if family == 0x8 && low == 0x3 {
        Some(Op::Xor)
    } else if family == 0x8 && low == 0x4 {
        Some(Op::AddReg)
    } else if family == 0x8 && low == 0x5 {
        Some(Op::Sub)
    } else if family == 0x8 && low == 0x6 {
        Some(Op::ShiftRight)
    } else if family == 0x8 && low == 0x7 {
        Some(Op::SubReverse)
    } else if family == 0x8 && low == 0xE {
        Some(Op::ShiftLeft)
    } else if family == 0x9 && low == 0x0 {
        Some(Op::SkipNeReg)
    } else if family == 0xA {
        Some(Op::LoadIndex)
    } else if family == 0xB {
        Some(Op::JumpOffset)
    } else if family == 0xC {
        Some(Op::Random)
    } else if family == 0xD {
        Some(Op::Draw)
    } else if family == 0xE && low_byte == 0x9E {
        Some(Op::SkipKey)
    } else if family == 0xE && low_byte == 0xA1 {
        Some(Op::SkipNoKey)
    } else if family == 0xF && low_byte == 0x07 {
        Some(Op::LoadDelay)
    } else if family == 0xF && low_byte == 0x0A {
        Some(Op::WaitKey)
    } else if family == 0xF && low_byte == 0x15 {
        Some(Op::SetDelay)
    } else if family == 0xF && low_byte == 0x18 {
        Some(Op::SetSound)
    } else if family == 0xF && low_byte == 0x1E {
        Some(Op::AddIndex)
    } else if family == 0xF && low_byte == 0x29 {
        Some(Op::LoadDigit)
    } else if family == 0xF && low_byte == 0x33 {
        Some(Op::StoreBcd)
    } else if family == 0xF && low_byte == 0x55 {
        Some(Op::StoreRegs)
    } else if family == 0xF && low_byte == 0x65 {
        Some(Op::LoadRegs)
    } else {
        None
    }
}

/// Decodes an instruction: first on its top nibble, then, where the family
/// holds several instructions, on its low nibble or low byte. `None` for an
/// encoding that no instruction has.
pub fn decode(instruction: u16) -> (r: Option<Op>)
    ensures
        r == opcode_of(instruction),
{
    let family = get_nth_nibble(instruction, 4);
    let low = get_nth_nibble(instruction, 1);
    let low_byte = byte_operand(instruction);
    match family {
        0x0 => match instruction {
            0x00E0 => Some(Op::Cls),
            0x00EE => Some(Op::Ret),
            _ => Some(Op::Sys),
        },
        0x1 => Some(Op::Jp),
        0x2 => Some(Op::Call),
        0x3 => Some(Op::SkipEqByte),
        0x4 => Some(Op::SkipNeByte),
        0x5 => if low == 0x0 {
            Some(Op::SkipEqReg)
        } else {
            None
        },
        0x6 => Some(Op::LoadByte),
        0x7 => Some(Op::AddByte),
        0x8 => match low {
            0x0 => Some(Op::LoadReg),
            0x1 => Some(Op::Or),
            0x2 => Some(Op::And),
            0x3 => Some(Op::Xor),
            0x4 => Some(Op::AddReg),
            0x5 => Some(Op::Sub),
            0x6 => Some(Op::ShiftRight),
            0x7 => Some(Op::SubReverse),
            0xE => Some(Op::ShiftLeft),
            _ => None,
        },
        0x9 => if low == 0x0 {
            Some(Op::SkipNeReg)
        } else {
            None
        },
        0xA => Some(Op::LoadIndex),
        0xB => Some(Op::JumpOffset),
        0xC => Some(Op::Random),
        0xD => Some(Op::Draw),
        0xE => match low_byte {
            0x9E => Some(Op::SkipKey),
            0xA1 => Some(Op::SkipNoKey),
            _ => None,
        },
        _ => match low_byte {
            0x07 => Some(Op::LoadDelay),
            0x0A => Some(Op::WaitKey),
            0x15 => Some(Op::SetDelay),
            0x18 => Some(Op::SetSound),
            0x1E => Some(Op::AddIndex),
            0x29 => Some(Op::LoadDigit),
            0x33 => Some(Op::StoreBcd),
            0x55 => Some(Op::StoreRegs),
            0x65 => Some(Op::LoadRegs),
            _ => None,
        },
    }
}

/// The byte operand `kk`.
pub fn byte_operand(instruction: u16) -> (r: u8)
    ensures
        r == kk_of(instruction),
{
    assert(instruction & 0xFF == instruction % 0x100) by (bit_vector);
    (instruction & 0xFF) as u8
}

/// The address operand `nnn`.
pub fn address_operand(instruction: u16) -> (r: u16)
    ensures
        r == nnn_of(instruction),
{
    assert(instruction & 0x0FFF == instruction % 0x1000) by (bit_vector);
    instruction & 0x0FFF
}

} // verus!
