//! The instruction set: what each 16-bit word asks the machine to do.

use vstd::prelude::*;

verus! {

/// One instruction with its operands. `x` and `y` are register numbers below
/// 16, `byte` is the word's low byte and `address` its low twelve bits.
#[derive(Clone, Copy, Debug, PartialEq, Eq, Structural)]
pub enum Instruction {
    /// `00E0`: make the display dark.
    Clear,
    /// `00EE`: go back to where the last call came from.
    Return,
    /// `1nnn`: go on at `address`.
    Jump { address: u16 },
    /// `2nnn`: remember the next instruction and go on at `address`.
    Call { address: u16 },
    /// `3xnn`: skip one instruction if `Vx` is `byte`.
    SkipIfEqualsByte { x: u8, byte: u8 },
    /// `4xnn`: skip one instruction if `Vx` is not `byte`.
    SkipIfNotEqualsByte { x: u8, byte: u8 },
    /// `5xy0`: skip one instruction if `Vx` is `Vy`.
    SkipIfEquals { x: u8, y: u8 },
    /// `6xnn`: `Vx` becomes `byte`.
    LoadByte { x: u8, byte: u8 },
    /// `7xnn`: `Vx` grows by `byte` and wraps; no flag.
    AddByte { x: u8, byte: u8 },
    /// `8xy0`: `Vx` becomes `Vy`.
    Move { x: u8, y: u8 },
    /// `8xy1`: `Vx` becomes `Vx | Vy`.
    Or { x: u8, y: u8 },
    /// `8xy2`: `Vx` becomes `Vx & Vy`.
    And { x: u8, y: u8 },
    /// `8xy3`: `Vx` becomes `Vx ^ Vy`.
    Xor { x: u8, y: u8 },
    /// `8xy4`: `Vx` grows by `Vy` and wraps; `VF` is the carry.
    Add { x: u8, y: u8 },
    /// `8xy5`: `VF` says whether `Vx` is above `Vy`; `Vx` shrinks by `Vy`
    /// and wraps.
    Sub { x: u8, y: u8 },
    /// `8xy6`: `VF` is the lowest bit of `Vx`; `Vx` is halved.
    ShiftRight { x: u8, y: u8 },
    /// `8xy7`: `VF` says whether `Vy` is above `Vx`; `Vy` shrinks by `Vx`
    /// and wraps.
    ReverseSub { x: u8, y: u8 },
    /// `8xyE`: `VF` is the highest bit of `Vx`; `Vx` is doubled and wraps.
    ShiftLeft { x: u8, y: u8 },
    /// `9xy0`: skip one instruction if `Vx` is not `Vy`.
    SkipIfNotEqual { x: u8, y: u8 },
    /// `Annn`: `I` becomes `address`.
    LoadIndex { address: u16 },
    /// `Bnnn`: go on at `address + V0`.
    JumpPlusZero { address: u16 },
    /// `Cxnn`: `Vx` becomes a random byte masked by `byte`.
    Random { x: u8, byte: u8 },
    /// `Dxyn`: draw the sprite of `rows` bytes at `I` at column `Vx`, row
    /// `Vy`.
    Draw { x: u8, y: u8, rows: u8 },
    /// `Ex9E`: skip one instruction if the key `Vx` is held.
    SkipIfPressed { x: u8 },
    /// `ExA1`: skip one instruction if the key `Vx` is not held.
    SkipIfNotPressed { x: u8 },
    /// `Fx07`: `Vx` becomes the delay timer.
    LoadDelayTimer { x: u8 },
    /// `Fx0A`: wait until a key is pressed; `Vx` becomes that key.
    WaitForKey { x: u8 },
    /// `Fx15`: the delay timer becomes `Vx`.
    SetDelayTimer { x: u8 },
    /// `Fx18`: nothing; there is no sound timer.
    SetSoundTimer { x: u8 },
    /// `Fx1E`: `I` grows by `Vx`.
    AddToIndex { x: u8 },
    /// `Fx29`: `I` becomes the address of the glyph for the digit `Vx`.
    LoadSprite { x: u8 },
    /// `Fx33`: the three decimal digits of `Vx` go to memory at `I`.
    Bcd { x: u8 },
    /// `Fx55`: `V0` to `Vx` go to memory at `I`.
    StoreRegisters { x: u8 },
    /// `Fx65`: `V0` to `Vx` come from memory at `I`.
    LoadRegisters { x: u8 },
}

/// The highest four bits of a word: its family.
pub open spec fn family(opcode: u16) -> u8 {
    (opcode as int / 0x1000) as u8
}

/// The second group of four bits, counted from the top.
pub open spec fn field_x(opcode: u16) -> u8 {
    ((opcode as int / 0x100) % 0x10) as u8
}

/// The third group of four bits, counted from the top.
pub open spec fn field_y(opcode: u16) -> u8 {
    ((opcode as int / 0x10) % 0x10) as u8
}

/// The lowest four bits.
pub open spec fn field_n(opcode: u16) -> u8 {
    (opcode as int % 0x10) as u8
}

/// The low byte.
pub open spec fn field_byte(opcode: u16) -> u8 {
    (opcode as int % 0x100) as u8
}

/// The low twelve bits.
pub open spec fn field_address(opcode: u16) -> u16 {
    (opcode as int % 0x1000) as u16
}

/// The instruction that a word stands for, if it stands for one. The family
/// decides; in the families 0, E and F the low byte decides further, in the
/// family 8 the lowest four bits do.
pub open spec fn decoded(opcode: u16) -> Option<Instruction> {
    let x = field_x(opcode);
    let y = field_y(opcode);
    let byte = field_byte(opcode);
    let address = field_address(opcode);
    let n = field_n(opcode);
    match family(opcode) {
        0x0 => if byte == 0xE0 {
            Some(Instruction::Clear)
        } else if byte == 0xEE {
            Some(Instruction::Return)
        } else {
            None
        },
        0x1 => Some(Instruction::Jump { address }),
        0x2 => Some(Instruction::Call { address }),
        0x3 => Some(Instruction::SkipIfEqualsByte { x, byte }),
        0x4 => Some(Instruction::SkipIfNotEqualsByte { x, byte }),
        0x5 => Some(Instruction::SkipIfEquals { x, y }),
        0x6 => Some(Instruction::LoadByte { x, byte }),
        0x7 => Some(Instruction::AddByte { x, byte }),
        0x8 => if n == 0x0 {
            Some(Instruction::Move { x, y })
        } else if n == 0x1 {
            Some(Instruction::Or { x, y })
        } else if n == 0x2 {
            Some(Instruction::And { x, y })
        } else if n == 0x3 {
            Some(Instruction::Xor { x, y })
        } else if n == 0x4 {
            Some(Instruction::Add { x, y })
        } else if n == 0x5 {
            Some(Instruction::Sub { x, y })
        } else if n == 0x6 {
            Some(Instruction::ShiftRight { x, y })
        } else if n == 0x7 {
            Some(Instruction::ReverseSub { x, y })
        } else if n == 0xE {
            Some(Instruction::ShiftLeft { x, y })
        } else {
            None
        },
        0x9 => Some(Instruction::SkipIfNotEqual { x, y }),
        0xA => Some(Instruction::LoadIndex { address }),
        0xB => Some(Instruction::JumpPlusZero { address }),
        0xC => Some(Instruction::Random { x, byte }),
        0xD => Some(Instruction::Draw { x, y, rows: n }),
        0xE => if byte == 0x9E {
            Some(Instruction::SkipIfPressed { x })
        } else if byte == 0xA1 {
            Some(Instruction::SkipIfNotPressed { x })
        } else {
            None
        },
        _ => if byte == 0x07 {
            Some(Instruction::LoadDelayTimer { x })
        } else if byte == 0x0A {
            Some(Instruction::WaitForKey { x })
        } else if byte == 0x15 {
            Some(Instruction::SetDelayTimer { x })
        } else if byte == 0x18 {
            Some(Instruction::SetSoundTimer { x })
        } else if byte == 0x1E {
            Some(Instruction::AddToIndex { x })
        } else if byte == 0x29 {
            Some(Instruction::LoadSprite { x })
        } else if byte == 0x33 {
            Some(Instruction::Bcd { x })
        } else if byte == 0x55 {
            Some(Instruction::StoreRegisters { x })
        } else if byte == 0x65 {
            Some(Instruction::LoadRegisters { x })
        } else {
            None
        },
    }
}

/// Whether the operands of an instruction are in range: register numbers
/// below 16, addresses below 4096, at most 15 sprite rows.
pub open spec fn in_range(instruction: Instruction) -> bool {
    match instruction {
        Instruction::Clear | Instruction::Return => true,
        Instruction::Jump { address }
        | Instruction::Call { address }
        | Instruction::LoadIndex { address }
        | Instruction::JumpPlusZero { address } => address < 0x1000,
        Instruction::SkipIfEqualsByte { x, .. }
        | Instruction::SkipIfNotEqualsByte { x, .. }
        | Instruction::LoadByte { x, .. }
        | Instruction::AddByte { x, .. }
        | Instruction::Random { x, .. }
        | Instruction::SkipIfPressed { x }
        | Instruction::SkipIfNotPressed { x }
        | Instruction::LoadDelayTimer { x }
        | Instruction::WaitForKey { x }
        | Instruction::SetDelayTimer { x }
        | Instruction::SetSoundTimer { x }
        | Instruction::AddToIndex { x }
        | Instruction::LoadSprite { x }
        | Instruction::Bcd { x }
        | Instruction::StoreRegisters { x }
        | Instruction::LoadRegisters { x } => x < 16,
        Instruction::SkipIfEquals { x, y }
        | Instruction::Move { x, y }
        | Instruction::Or { x, y }
        | Instruction::And { x, y }
        | Instruction::Xor { x, y }
        | Instruction::Add { x, y }
        | Instruction::Sub { x, y }
        | Instruction::ShiftRight { x, y }
        | Instruction::ReverseSub { x, y }
        | Instruction::ShiftLeft { x, y }
        | Instruction::SkipIfNotEqual { x, y } => x < 16 && y < 16,
        Instruction::Draw { x, y, rows } => x < 16 && y < 16 && rows < 16,
    }
}

/// Whether the operands of an instruction are in range.
pub fn operands_in_range(instruction: Instruction) -> (ok: bool)
    ensures
        ok == in_range(instruction),
{
    match instruction {
        Instruction::Clear | Instruction::Return => true,
        Instruction::Jump { address }
        | Instruction::Call { address }
        | Instruction::LoadIndex { address }
        | Instruction::JumpPlusZero { address } => address < 0x1000,
        Instruction::SkipIfEqualsByte { x, .. }
        | Instruction::SkipIfNotEqualsByte { x, .. }
        | Instruction::LoadByte { x, .. }
        | Instruction::AddByte { x, .. }
        | Instruction::Random { x, .. }
        | Instruction::SkipIfPressed { x }
        | Instruction::SkipIfNotPressed { x }
        | Instruction::LoadDelayTimer { x }
        | Instruction::WaitForKey { x }
        | Instruction::SetDelayTimer { x }
        | Instruction::SetSoundTimer { x }
        | Instruction::AddToIndex { x }
        | Instruction::LoadSprite { x }
        | Instruction::Bcd { x }
        | Instruction::StoreRegisters { x }
        | Instruction::LoadRegisters { x } => x < 16,
        Instruction::SkipIfEquals { x, y }
        | Instruction::Move { x, y }
        | Instruction::Or { x, y }
        | Instruction::And { x, y }
        | Instruction::Xor { x, y }
        | Instruction::Add { x, y }
        | Instruction::Sub { x, y }
        | Instruction::ShiftRight { x, y }
        | Instruction::ReverseSub { x, y }
        | Instruction::ShiftLeft { x, y }
        | Instruction::SkipIfNotEqual { x, y } => x < 16 && y < 16,
        Instruction::Draw { x, y, rows } => x < 16 && y < 16 && rows < 16,
    }
}

/// The name of an instruction's kind.
pub open spec fn kind_name(instruction: Instruction) -> Seq<char> {
    match instruction {
        Instruction::Clear => "Clear"@,
        Instruction::Return => "Return"@,
        Instruction::Jump { .. } => "Jump"@,
        Instruction::Call { .. } => "Call"@,
        Instruction::SkipIfEqualsByte { .. } => "Skip if Equals Byte"@,
        Instruction::SkipIfNotEqualsByte { .. } => "Skip if not equals"@,
        Instruction::SkipIfEquals { .. } => "Skip if Equals"@,
        Instruction::LoadByte { .. } => "Load byte"@,
        Instruction::AddByte { .. } => "Add byte"@,
        Instruction::Move { .. } => "Move"@,
        Instruction::Or { .. } => "Or"@,
        Instruction::And { .. } => "And"@,
        Instruction::Xor { .. } => "Xor"@,
        Instruction::Add { .. } => "Add"@,
        Instruction::Sub { .. } => "Sub"@,
        Instruction::ShiftRight { .. } => "Shift Right"@,
        Instruction::ReverseSub { .. } => "Reverse sub"@,
        Instruction::ShiftLeft { .. } => "Shift left"@,
        Instruction::SkipIfNotEqual { .. } => "Skip if not equal"@,
        Instruction::LoadIndex { .. } => "Load i"@,
        Instruction::JumpPlusZero { .. } => "Jump Plus Zero"@,
        Instruction::Random { .. } => "Random"@,
        Instruction::Draw { .. } => "Draw"@,
        Instruction::SkipIfPressed { .. } => "Skip if pressed"@,
        Instruction::SkipIfNotPressed { .. } => "Skip if not pressed"@,
        Instruction::LoadDelayTimer { .. } => "Load Delay Timer"@,
        Instruction::WaitForKey { .. } => "Wait for key press"@,
        Instruction::SetDelayTimer { .. } => "Set delay timer"@,
        Instruction::SetSoundTimer { .. } => "Set sound timer"@,
        Instruction::AddToIndex { .. } => "Add to i"@,
        Instruction::LoadSprite { .. } => "Load Sprite"@,
        Instruction::Bcd { .. } => "BCD Representation"@,
        Instruction::StoreRegisters { .. } => "Store register"@,
        Instruction::LoadRegisters { .. } => "Load Register"@,
    }
}

/// The name of an instruction's kind.
pub fn name_of(instruction: Instruction) -> (name: &'static str)
    ensures
        name@ == kind_name(instruction),
{
    match instruction {
        Instruction::Clear => "Clear",
        Instruction::Return => "Return",
        Instruction::Jump { .. } => "Jump",
        Instruction::Call { .. } => "Call",
        Instruction::SkipIfEqualsByte { .. } => "Skip if Equals Byte",
        Instruction::SkipIfNotEqualsByte { .. } => "Skip if not equals",
        Instruction::SkipIfEquals { .. } => "Skip if Equals",
        Instruction::LoadByte { .. } => "Load byte",
        Instruction::AddByte { .. } => "Add byte",
        Instruction::Move { .. } => "Move",
        Instruction::Or { .. } => "Or",
        Instruction::And { .. } => "And",
        Instruction::Xor { .. } => "Xor",
        Instruction::Add { .. } => "Add",
        Instruction::Sub { .. } => "Sub",
        Instruction::ShiftRight { .. } => "Shift Right",
        Instruction::ReverseSub { .. } => "Reverse sub",
        Instruction::ShiftLeft { .. } => "Shift left",
        Instruction::SkipIfNotEqual { .. } => "Skip if not equal",
        Instruction::LoadIndex { .. } => "Load i",
        Instruction::JumpPlusZero { .. } => "Jump Plus Zero",
        Instruction::Random { .. } => "Random",
        Instruction::Draw { .. } => "Draw",
        Instruction::SkipIfPressed { .. } => "Skip if pressed",
        Instruction::SkipIfNotPressed { .. } => "Skip if not pressed",
        Instruction::LoadDelayTimer { .. } => "Load Delay Timer",
        Instruction::WaitForKey { .. } => "Wait for key press",
        Instruction::SetDelayTimer { .. } => "Set delay timer",
        Instruction::SetSoundTimer { .. } => "Set sound timer",
        Instruction::AddToIndex { .. } => "Add to i",
        Instruction::LoadSprite { .. } => "Load Sprite",
        Instruction::Bcd { .. } => "BCD Representation",
        Instruction::StoreRegisters { .. } => "Store register",
        Instruction::LoadRegisters { .. } => "Load Register",
    }
}

/// Every word that stands for an instruction gives it operands in range.
pub proof fn decoded_in_range(opcode: u16)
    ensures
        decoded(opcode) matches Some(instruction) ==> in_range(instruction),
{
}

/// Takes a word apart into the instruction that it stands for; `None` for a
/// word that stands for none.
pub fn decode(opcode: u16) -> (instruction: Option<Instruction>)
    ensures
        instruction == decoded(opcode),
{
    let x = ((opcode >> 8) & 0xF) as u8;
    let y = ((opcode >> 4) & 0xF) as u8;
    let n = (opcode & 0xF) as u8;
    let byte = (opcode & 0xFF) as u8;
    let address = opcode & 0xFFF;
    let top = opcode >> 12;
    proof {
        assert((opcode >> 8) & 0xF == (opcode / 0x100) % 0x10) by (bit_vector);
        assert((opcode >> 4) & 0xF == (opcode / 0x10) % 0x10) by (bit_vector);
        assert(opcode & 0xF == opcode % 0x10) by (bit_vector);
        assert(opcode & 0xFF == opcode % 0x100) by (bit_vector);
        assert(opcode & 0xFFF == opcode % 0x1000) by (bit_vector);
        assert(opcode >> 12 == opcode / 0x1000) by (bit_vector);
    }
    match top {
        0x0 => match byte {
            0xE0 => Some(Instruction::Clear),
            0xEE => Some(Instruction::Return),
            _ => None,
        },
        0x1 => Some(Instruction::Jump { address }),
        0x2 => Some(Instruction::Call { address }),
        0x3 => Some(Instruction::SkipIfEqualsByte { x, byte }),
        0x4 => Some(Instruction::SkipIfNotEqualsByte { x, byte }),
        0x5 => Some(Instruction::SkipIfEquals { x, y }),
        0x6 => Some(Instruction::LoadByte { x, byte }),
        0x7 => Some(Instruction::AddByte { x, byte }),
        0x8 => match n {
            0x0 => Some(Instruction::Move { x, y }),
            0x1 => Some(Instruction::Or { x, y }),
            0x2 => Some(Instruction::And { x, y }),
            0x3 => Some(Instruction::Xor { x, y }),
            0x4 => Some(Instruction::Add { x, y }),
            0x5 => Some(Instruction::Sub { x, y }),
            0x6 => Some(Instruction::ShiftRight { x, y }),
            0x7 => Some(Instruction::ReverseSub { x, y }),
            0xE => Some(Instruction::ShiftLeft { x, y }),
            _ => None,
        },
        0x9 => Some(Instruction::SkipIfNotEqual { x, y }),
        0xA => Some(Instruction::LoadIndex { address }),
        0xB => Some(Instruction::JumpPlusZero { address }),
        0xC => Some(Instruction::Random { x, byte }),
        0xD => Some(Instruction::Draw { x, y, rows: n }),
        0xE => match byte {
            0x9E => Some(Instruction::SkipIfPressed { x }),
            0xA1 => Some(Instruction::SkipIfNotPressed { x }),
            _ => None,
        },
        _ => match byte {
            0x07 => Some(Instruction::LoadDelayTimer { x }),
            0x0A => Some(Instruction::WaitForKey { x }),
            0x15 => Some(Instruction::SetDelayTimer { x }),
            0x18 => Some(Instruction::SetSoundTimer { x }),
            0x1E => Some(Instruction::AddToIndex { x }),
            0x29 => Some(Instruction::LoadSprite { x }),
            0x33 => Some(Instruction::Bcd { x }),
            0x55 => Some(Instruction::StoreRegisters { x }),
            0x65 => Some(Instruction::LoadRegisters { x }),
            _ => None,
        },
    }
}

} // verus!
