//! Decoding a 16-bit instruction word into its operation and fields.

use vstd::prelude::*;

verus! {

/// A decoded instruction. Field `x` and `y` name registers (one nibble each),
/// `n` is a nibble literal, `nn` a byte literal, `nnn` a 12-bit address.
#[derive(Clone, Copy, PartialEq, Eq, Structural, Debug)]
pub enum Instruction {
    /// `00E0`: clear the framebuffer.
    ClearScreen,
    /// `00EE`: pop the stack into `pc`.
    Return,
    /// `1nnn`: jump.
    Jump { nnn: u16 },
    /// `2nnn`: push the current `pc`, then jump.
    Call { nnn: u16 },
    /// `3xnn`: skip the next instruction if `Vx == nn`.
    SkipEqImm { x: u8, nn: u8 },
    /// `4xnn`: skip the next instruction if `Vx != nn`.
    SkipNeImm { x: u8, nn: u8 },
    /// `5xy0`: skip the next instruction if `Vx == Vy`.
    SkipEqReg { x: u8, y: u8 },
    /// `6xnn`: `Vx = nn`.
    SetReg { x: u8, nn: u8 },
    /// `7xnn`: `Vx += nn`, wrapping, flags untouched.
    AddReg { x: u8, nn: u8 },
    /// `8xy0`: `Vx = Vy`.
    AluAssign { x: u8, y: u8 },
    /// `8xy1`: `Vx |= Vy`.
    AluOr { x: u8, y: u8 },
    /// `8xy2`: `Vx &= Vy`.
    AluAnd { x: u8, y: u8 },
    /// `8xy3`: `Vx ^= Vy`.
    AluXor { x: u8, y: u8 },
    /// `8xy4`: `Vx += Vy` wrapping, `VF` = carry.
    AluAdd { x: u8, y: u8 },
    /// `8xy5`: `Vx -= Vy` wrapping, `VF` = no-borrow.
    AluSub { x: u8, y: u8 },
    /// `8xy6`: `VF` = low bit of `Vx`, then `Vx >>= 1`.
    AluShr { x: u8 },
    /// `8xy7`: `Vx = Vy - Vx` wrapping, `VF` = no-borrow.
    AluSubRev { x: u8, y: u8 },
    /// `8xyE`: `VF` = high bit of `Vx`, then `Vx <<= 1`.
    AluShl { x: u8 },
    /// `9xy0`: skip the next instruction if `Vx != Vy`.
    SkipNeReg { x: u8, y: u8 },
    /// `Annn`: `index = nnn`.
    SetIndex { nnn: u16 },
    /// `Bxnn`: `pc = nn + Vx`.
    JumpOffset { x: u8, nn: u8 },
    /// `Cxnn`: `Vx = random byte & nn`.
    RandomMask { x: u8, nn: u8 },
    /// `Dxyn`: draw an `n`-byte sprite at `(Vx, Vy)`.
    Draw { x: u8, y: u8, n: u8 },
    /// `Ex9E`: skip the next instruction if key `Vx` is held.
    SkipKeyPressed { x: u8 },
    /// `ExA1`: skip the next instruction if key `Vx` is not held.
    SkipKeyNotPressed { x: u8 },
    /// `Fx07`: `Vx = delay_timer`.
    ReadDelay { x: u8 },
    /// `Fx15`: `delay_timer = Vx`.
    SetDelay { x: u8 },
    /// `Fx18`: `sound_timer = Vx`.
    SetSound { x: u8 },
    /// `Fx1E`: `index += Vx`, wrapping.
    AddIndex { x: u8 },
    /// `Fx0A`: block until a key is reported, then `Vx` = its value.
    WaitKey { x: u8 },
    /// `Fx29`: `index` = address of the font glyph for `Vx`.
    FontChar { x: u8 },
    /// `Fx33`: store the decimal digits of `Vx` at `index .. index+3`.
    StoreBcd { x: u8 },
    /// `Fx55`: store `V0..Vx` inclusive at `index ..`.
    DumpRegisters { x: u8 },
    /// `Fx65`: load `V0..Vx` inclusive from `index ..`.
    LoadRegisters { x: u8 },
    /// Any unrecognized word: advance without effect.
    Nop,
}

/// What a 16-bit word decodes to.
pub open spec fn spec_decode(word: u16) -> Instruction {
    let op = word / 4096;
    let x = ((word / 256) % 16) as u8;
    let y = ((word / 16) % 16) as u8;
    let n = (word % 16) as u8;
    let nn = (word % 256) as u8;
    let nnn = word % 4096;
    if word == 0x00E0 {
        Instruction::ClearScreen
    } else if word == 0x00EE {
        Instruction::Return
    } else if op == 0x1 {
        Instruction::Jump { nnn }
    } else if op == 0x2 {
        Instruction::Call { nnn }
    } else if op == 0x3 {
        Instruction::SkipEqImm { x, nn }
    } else if op == 0x4 {
        Instruction::SkipNeImm { x, nn }
    } else if op == 0x5 && n == 0 {
        Instruction::SkipEqReg { x, y }
    } else if op == 0x6 {
        Instruction::SetReg { x, nn }
    } else if op == 0x7 {
        Instruction::AddReg { x, nn }
    } else if op == 0x8 && n == 0x0 {
        Instruction::AluAssign { x, y }
    } else if op == 0x8 && n == 0x1 {
        Instruction::AluOr { x, y }
    } else if op == 0x8 && n == 0x2 {
        Instruction::AluAnd { x, y }
    } else if op == 0x8 && n == 0x3 {
        Instruction::AluXor { x, y }
    } else if op == 0x8 && n == 0x4 {
        Instruction::AluAdd { x, y }
    } else if op == 0x8 && n == 0x5 {
        Instruction::AluSub { x, y }
    } else if op == 0x8 && n == 0x6 {
        Instruction::AluShr { x }
    } else if op == 0x8 && n == 0x7 {
        Instruction::AluSubRev { x, y }
    } else if op == 0x8 && n == 0xE {
        Instruction::AluShl { x }
    } else if op == 0x9 && n == 0 {
        Instruction::SkipNeReg { x, y }
    } else if op == 0xA {
        Instruction::SetIndex { nnn }
    } else if op == 0xB {
        Instruction::JumpOffset { x, nn }
    } else if op == 0xC {
        Instruction::RandomMask { x, nn }
    } else if op == 0xD {
        Instruction::Draw { x, y, n }
    } else if op == 0xE && nn == 0x9E {
        Instruction::SkipKeyPressed { x }
    } else if op == 0xE && nn == 0xA1 {
        Instruction::SkipKeyNotPressed { x }
    } else if op == 0xF && nn == 0x07 {
        Instruction::ReadDelay { x }
    } else if op == 0xF && nn == 0x15 {
        Instruction::SetDelay { x }
    } else if op == 0xF && nn == 0x18 {
        Instruction::SetSound { x }
    } else if op == 0xF && nn == 0x1E {
        Instruction::AddIndex { x }
    } else if op == 0xF && nn == 0x0A {
        Instruction::WaitKey { x }
    } else if op == 0xF && nn == 0x29 {
        Instruction::FontChar { x }
    } else if op == 0xF && nn == 0x33 {
        Instruction::StoreBcd { x }
    } else if op == 0xF && nn == 0x55 {
        Instruction::DumpRegisters { x }
    } else if op == 0xF && nn == 0x65 {
        Instruction::LoadRegisters { x }
    } else {
        Instruction::Nop
    }
}

/// Decode a 16-bit word into its instruction.
pub fn decode(word: u16) -> (r: Instruction)
    ensures
        r == spec_decode(word),
{
    let op: u16 = word / 4096;
    let x: u8 = ((word / 256) % 16) as u8;
    let y: u8 = ((word / 16) % 16) as u8;
    let n: u8 = (word % 16) as u8;
    let nn: u8 = (word % 256) as u8;
    let nnn: u16 = word % 4096;
    if word == 0x00E0 {
        Instruction::ClearScreen
    } else if word == 0x00EE {
        Instruction::Return
    } else if op == 0x1 {
        Instruction::Jump { nnn }
    } else if op == 0x2 {
        Instruction::Call { nnn }
    } else if op == 0x3 {
        Instruction::SkipEqImm { x, nn }
    } else if op == 0x4 {
        Instruction::SkipNeImm { x, nn }
    } else if op == 0x5 && n == 0 {
        Instruction::SkipEqReg { x, y }
    } else if op == 0x6 {
        Instruction::SetReg { x, nn }
    } else if op == 0x7 {
        Instruction::AddReg { x, nn }
    } else if op == 0x8 && n == 0x0 {
        Instruction::AluAssign { x, y }
    } else if op == 0x8 && n == 0x1 {
        Instruction::AluOr { x, y }
    } else if op == 0x8 && n == 0x2 {
        Instruction::AluAnd { x, y }
    } else if op == 0x8 && n == 0x3 {
        Instruction::AluXor { x, y }
    } else if op == 0x8 && n == 0x4 {
        Instruction::AluAdd { x, y }
    } else if op == 0x8 && n == 0x5 {
        Instruction::AluSub { x, y }
    } else if op == 0x8 && n == 0x6 {
        Instruction::AluShr { x }
    } else if op == 0x8 && n == 0x7 {
        Instruction::AluSubRev { x, y }
    } else if op == 0x8 && n == 0xE {
        Instruction::AluShl { x }
    } else if op == 0x9 && n == 0 {
        Instruction::SkipNeReg { x, y }
    } else if op == 0xA {
        Instruction::SetIndex { nnn }
    } else if op == 0xB {
        Instruction::JumpOffset { x, nn }
    } else if op == 0xC {
        Instruction::RandomMask { x, nn }
    } else if op == 0xD {
        Instruction::Draw { x, y, n }
    } else if op == 0xE && nn == 0x9E {
        Instruction::SkipKeyPressed { x }
    } else if op == 0xE && nn == 0xA1 {
        Instruction::SkipKeyNotPressed { x }
    } else if op == 0xF && nn == 0x07 {
        Instruction::ReadDelay { x }
    } else if op == 0xF && nn == 0x15 {
        Instruction::SetDelay { x }
    } else if op == 0xF && nn == 0x18 {
        Instruction::SetSound { x }
    } else if op == 0xF && nn == 0x1E {
        Instruction::AddIndex { x }
    } else if op == 0xF && nn == 0x0A {
        Instruction::WaitKey { x }
    } else if op == 0xF && nn == 0x29 {
        Instruction::FontChar { x }
    } else if op == 0xF && nn == 0x33 {
        Instruction::StoreBcd { x }
    } else if op == 0xF && nn == 0x55 {
        Instruction::DumpRegisters { x }
    } else if op == 0xF && nn == 0x65 {
        Instruction::LoadRegisters { x }
    } else {
        Instruction::Nop
    }
}

/// Register fields and nibble counts are bounded by their widths.
pub proof fn lemma_decode_fields_bounded(word: u16)
    ensures
        match spec_decode(word) {
            Instruction::Jump { nnn } => nnn < 4096,
            Instruction::Call { nnn } => nnn < 4096,
            Instruction::SetIndex { nnn } => nnn < 4096,
            Instruction::SkipEqImm { x, .. } => x < 16,
            Instruction::SkipNeImm { x, .. } => x < 16,
            Instruction::SkipEqReg { x, y } => x < 16 && y < 16,
            Instruction::SetReg { x, .. } => x < 16,
            Instruction::AddReg { x, .. } => x < 16,
            Instruction::AluAssign { x, y } => x < 16 && y < 16,
            Instruction::AluOr { x, y } => x < 16 && y < 16,
            Instruction::AluAnd { x, y } => x < 16 && y < 16,
            Instruction::AluXor { x, y } => x < 16 && y < 16,
            Instruction::AluAdd { x, y } => x < 16 && y < 16,
            Instruction::AluSub { x, y } => x < 16 && y < 16,
            Instruction::AluShr { x } => x < 16,
            Instruction::AluSubRev { x, y } => x < 16 && y < 16,
            Instruction::AluShl { x } => x < 16,
            Instruction::SkipNeReg { x, y } => x < 16 && y < 16,
            Instruction::JumpOffset { x, .. } => x < 16,
            Instruction::RandomMask { x, .. } => x < 16,
            Instruction::Draw { x, y, n } => x < 16 && y < 16 && n < 16,
            Instruction::SkipKeyPressed { x } => x < 16,
            Instruction::SkipKeyNotPressed { x } => x < 16,
            Instruction::ReadDelay { x } => x < 16,
            Instruction::SetDelay { x } => x < 16,
            Instruction::SetSound { x } => x < 16,
            Instruction::AddIndex { x } => x < 16,
            Instruction::WaitKey { x } => x < 16,
            Instruction::FontChar { x } => x < 16,
            Instruction::StoreBcd { x } => x < 16,
            Instruction::DumpRegisters { x } => x < 16,
            Instruction::LoadRegisters { x } => x < 16,
            _ => true,
        },
{
}

} // verus!
