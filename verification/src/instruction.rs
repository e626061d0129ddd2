//! The instruction set: the decoded form of a two-byte opcode and the
//! decoder that produces it from four nibbles.

use vstd::prelude::*;

verus! {

/// One decoded instruction. `x` and `y` name registers, `addr` is a
/// twelve-bit address, `byte` an eight-bit immediate.
#[derive(Clone, Copy, Debug, PartialEq, Eq, Structural)]
pub enum Instruction {
    /// `00E0`: turn every pixel off.
    Clear,
    /// `00EE`: return from a subroutine.
    Return,
    /// `0NNN`: call a machine-code routine; has no effect here.
    Sys { addr: u16 },
    /// `1NNN`: jump to `addr`.
    Jump { addr: u16 },
    /// `2NNN`: call the subroutine at `addr`.
    Call { addr: u16 },
    /// `3XNN`: skip the next instruction if `Vx == byte`.
    SkipEqImm { x: u8, byte: u8 },
    /// `4XNN`: skip the next instruction if `Vx != byte`.
    SkipNeImm { x: u8, byte: u8 },
    /// `5XY0`: skip the next instruction if `Vx == Vy`.
    SkipEqReg { x: u8, y: u8 },
    /// `6XNN`: set `Vx` to `byte`.
    LoadImm { x: u8, byte: u8 },
    /// `7XNN`: add `byte` to `Vx`, wrapping, without touching the flag.
    AddImm { x: u8, byte: u8 },
    /// `8XY0`: copy `Vy` into `Vx`.
    Move { x: u8, y: u8 },
    /// `8XY1`: `Vx |= Vy`.
    Or { x: u8, y: u8 },
    /// `8XY2`: `Vx &= Vy`.
    And { x: u8, y: u8 },
    /// `8XY3`: `Vx ^= Vy`.
    Xor { x: u8, y: u8 },
    /// `8XY4`: `Vx += Vy`, the flag set on carry.
    AddReg { x: u8, y: u8 },
    /// `8XY5`: `Vx -= Vy`, the flag set when there is no borrow.
    SubReg { x: u8, y: u8 },
    /// `8XY6`: shift `Vx` right by one, the flag taking the bit shifted out.
    ShiftRight { x: u8 },
    /// `8XY7`: `Vx = Vy - Vx`, the flag set when there is no borrow.
    SubFrom { x: u8, y: u8 },
    /// `8XYE`: shift `Vx` left by one, the flag taking the bit shifted out.
    ShiftLeft { x: u8 },
    /// `9XY0`: skip the next instruction if `Vx != Vy`.
    SkipNeReg { x: u8, y: u8 },
    /// `ANNN`: set the index register to `addr`.
    LoadIndex { addr: u16 },
    /// `BNNN`: jump to `addr + V0`.
    JumpOffset { addr: u16 },
    /// `CXNN`: set `Vx` to a random byte masked with `byte`.
    Random { x: u8, byte: u8 },
    /// `DXYN`: draw the `rows`-byte sprite at the index register at
    /// (`Vx`, `Vy`).
    Draw { x: u8, y: u8, rows: u8 },
    /// `EX9E`: skip the next instruction if the key named by `Vx` is down.
    SkipKey { x: u8 },
    /// `EXA1`: skip the next instruction if the key named by `Vx` is up.
    SkipNoKey { x: u8 },
    /// `FX07`: copy the delay timer into `Vx`.
    GetDelay { x: u8 },
    /// `FX0A`: suspend execution until a key is pressed, then store it in
    /// `Vx`.
    WaitKey { x: u8 },
    /// `FX15`: set the delay timer to `Vx`.
    SetDelay { x: u8 },
    /// `FX18`: set the sound timer to `Vx`.
    SetSound { x: u8 },
    /// `FX1E`: add `Vx` to the index register.
    AddIndex { x: u8 },
    /// `FX29`: point the index register at the glyph of the digit in `Vx`.
    Glyph { x: u8 },
    /// `FX33`: store the decimal digits of `Vx` at the index register.
    Bcd { x: u8 },
    /// `FX55`: store `V0..=Vx` at the index register.
    Dump { x: u8 },
    /// `FX65`: load `V0..=Vx` from the index register.
    Restore { x: u8 },
    /// Anything else.
    Unknown,
}

impl Instruction {
    /// Register operands are below sixteen, addresses below 4096 and a
    /// sprite has at most fifteen rows.
    pub open spec fn wf(self) -> bool {
        match self {
            Instruction::Clear | Instruction::Return | Instruction::Unknown => true,
            Instruction::Sys { addr }
            | Instruction::Jump { addr }
            | Instruction::Call { addr }
            | Instruction::LoadIndex { addr }
            | Instruction::JumpOffset { addr } => addr < 0x1000,
            Instruction::SkipEqImm { x, .. }
            | Instruction::SkipNeImm { x, .. }
            | Instruction::LoadImm { x, .. }
            | Instruction::AddImm { x, .. }
            | Instruction::Random { x, .. }
            | Instruction::ShiftRight { x }
            | Instruction::ShiftLeft { x }
            | Instruction::SkipKey { x }
            | Instruction::SkipNoKey { x }
            | Instruction::GetDelay { x }
            | Instruction::WaitKey { x }
            | Instruction::SetDelay { x }
            | Instruction::SetSound { x }
            | Instruction::AddIndex { x }
            | Instruction::Glyph { x }
            | Instruction::Bcd { x }
            | Instruction::Dump { x }
            | Instruction::Restore { x } => x < 16,
            Instruction::SkipEqReg { x, y }
            | Instruction::Move { x, y }
            | Instruction::Or { x, y }
            | Instruction::And { x, y }
            | Instruction::Xor { x, y }
            | Instruction::AddReg { x, y }
            | Instruction::SubReg { x, y }
            | Instruction::SubFrom { x, y }
            | Instruction::SkipNeReg { x, y } => x < 16 && y < 16,
            Instruction::Draw { x, y, rows } => x < 16 && y < 16 && rows < 16,
        }
    }
}

/// The twelve-bit address spelled by three nibbles, most significant first.
pub open spec fn addr_of(x: u8, y: u8, z: u8) -> int {
    x * 256 + y * 16 + z
}

/// The byte spelled by two nibbles, most significant first.
pub open spec fn byte_of(y: u8, z: u8) -> int {
    y * 16 + z
}

/// Joins three nibbles into an address.
pub fn get_addr(x: u8, y: u8, z: u8) -> (addr: u16)
    ensures
        addr == ((x as u16) << 8) | ((y as u16) << 4) | (z as u16),
        x < 16 && y < 16 && z < 16 ==> addr == addr_of(x, y, z),
{
    let addr: u16 = ((x as u16) << 8) | ((y as u16) << 4) | (z as u16);
    assert(x < 16 && y < 16 && z < 16 ==> (((x as u16) << 8) | ((y as u16) << 4) | (z as u16)) == x
        * 256 + y * 16 + z) by (bit_vector);
    addr
}

/// Joins two nibbles into a byte.
pub fn get_byte(y: u8, z: u8) -> (byte: u8)
    ensures
        byte == (y << 4) | z,
        y < 16 && z < 16 ==> byte == byte_of(y, z),
{
    let byte: u8 = (y << 4) | z;
    assert(y < 16 && z < 16 ==> ((y << 4) | z) == y * 16 + z) by (bit_vector);
    byte
}

/// The instruction that four nibbles spell, the most significant first.
/// A descriptor with an entry above fifteen, or one that matches no
/// instruction, is `Unknown`.
pub open spec fn decode_spec(opcode: (u8, u8, u8, u8)) -> Instruction {
    let (kind, x, y, n) = opcode;
    let addr = addr_of(x, y, n) as u16;
    let byte = byte_of(y, n) as u8;
    if kind > 0xF || x > 0xF || y > 0xF || n > 0xF {
        Instruction::Unknown
    } else if kind == 0x0 {
        if x == 0x0 && y == 0xE && n == 0x0 {
            Instruction::Clear
        } else if x == 0x0 && y == 0xE && n == 0xE {
            Instruction::Return
        } else {
            Instruction::Sys { addr }
        }
    } else if kind == 0x1 {
        Instruction::Jump { addr }
    } else if kind == 0x2 {
        Instruction::Call { addr }
    } else if kind == 0x3 {
        Instruction::SkipEqImm { x, byte }
    } else if kind == 0x4 {
        Instruction::SkipNeImm { x, byte }
    } else if kind == 0x5 {
        if n == 0x0 {
            Instruction::SkipEqReg { x, y }
        } else {
            Instruction::Unknown
        }
    } else if kind == 0x6 {
        Instruction::LoadImm { x, byte }
    } else if kind == 0x7 {
        Instruction::AddImm { x, byte }
    } else if kind == 0x8 {
        if n == 0x0 {
            Instruction::Move { x, y }
        } else if n == 0x1 {
            Instruction::Or { x, y }
        } else if n == 0x2 {
            Instruction::And { x, y }
        } else if n == 0x3 {
            Instruction::Xor { x, y }
        } else if n == 0x4 {
            Instruction::AddReg { x, y }
        } else if n == 0x5 {
            Instruction::SubReg { x, y }
        } else if n == 0x6 {
            Instruction::ShiftRight { x }
        } else if n == 0x7 {
            Instruction::SubFrom { x, y }
        } else if n == 0xE {
            Instruction::ShiftLeft { x }
        } else {
            Instruction::Unknown
        }
    } else if kind == 0x9 {
        if n == 0x0 {
            Instruction::SkipNeReg { x, y }
        } else {
            Instruction::Unknown
        }
    } else if kind == 0xA {
        Instruction::LoadIndex { addr }
    } else if kind == 0xB {
        Instruction::JumpOffset { addr }
    } else if kind == 0xC {
        Instruction::Random { x, byte }
    } else if kind == 0xD {
        Instruction::Draw { x, y, rows: n }
    } else if kind == 0xE {
        if y == 0x9 && n == 0xE {
            Instruction::SkipKey { x }
        } else if y == 0xA && n == 0x1 {
            Instruction::SkipNoKey { x }
        } else {
            Instruction::Unknown
        }
    } else {
        if y == 0x0 && n == 0x7 {
            Instruction::GetDelay { x }
        } else if y == 0x0 && n == 0xA {
            Instruction::WaitKey { x }
        } else if y == 0x1 && n == 0x5 {
            Instruction::SetDelay { x }
        } else if y == 0x1 && n == 0x8 {
            Instruction::SetSound { x }
        } else if y == 0x1 && n == 0xE {
            Instruction::AddIndex { x }
        } else if y == 0x2 && n == 0x9 {
            Instruction::Glyph { x }
        } else if y == 0x3 && n == 0x3 {
            Instruction::Bcd { x }
        } else if y == 0x5 && n == 0x5 {
            Instruction::Dump { x }
        } else if y == 0x6 && n == 0x5 {
            Instruction::Restore { x }
        } else {
            Instruction::Unknown
        }
    }
}

/// Every decoded instruction is well formed.
pub proof fn decode_is_well_formed(opcode: (u8, u8, u8, u8))
    ensures
        decode_spec(opcode).wf(),
{
}

/// Decodes a four-nibble descriptor.
pub fn decode(opcode: (u8, u8, u8, u8)) -> (instr: Instruction)
    ensures
        instr == decode_spec(opcode),
        instr.wf(),
{
    let (kind, x, y, n) = opcode;
    if kind > 0xF || x > 0xF || y > 0xF || n > 0xF {
        return Instruction::Unknown;
    }
    let addr: u16 = get_addr(x, y, n);
    let byte: u8 = get_byte(y, n);
    match (kind, x, y, n) {
        (0x0, 0x0, 0xE, 0x0) => Instruction::Clear,
        (0x0, 0x0, 0xE, 0xE) => Instruction::Return,
        (0x0, _, _, _) => Instruction::Sys { addr },
        (0x1, _, _, _) => Instruction::Jump { addr },
        (0x2, _, _, _) => Instruction::Call { addr },
        (0x3, _, _, _) => Instruction::SkipEqImm { x, byte },
        (0x4, _, _, _) => Instruction::SkipNeImm { x, byte },
        (0x5, _, _, 0x0) => Instruction::SkipEqReg { x, y },
        (0x6, _, _, _) => Instruction::LoadImm { x, byte },
        (0x7, _, _, _) => Instruction::AddImm { x, byte },
        (0x8, _, _, 0x0) => Instruction::Move { x, y },
        (0x8, _, _, 0x1) => Instruction::Or { x, y },
        (0x8, _, _, 0x2) => Instruction::And { x, y },
        (0x8, _, _, 0x3) => Instruction::Xor { x, y },
        (0x8, _, _, 0x4) => Instruction::AddReg { x, y },
        (0x8, _, _, 0x5) => Instruction::SubReg { x, y },
        (0x8, _, _, 0x6) => Instruction::ShiftRight { x },
        (0x8, _, _, 0x7) => Instruction::SubFrom { x, y },
        (0x8, _, _, 0xE) => Instruction::ShiftLeft { x },
        (0x9, _, _, 0x0) => Instruction::SkipNeReg { x, y },
        (0xA, _, _, _) => Instruction::LoadIndex { addr },
        (0xB, _, _, _) => Instruction::JumpOffset { addr },
        (0xC, _, _, _) => Instruction::Random { x, byte },
        (0xD, _, _, _) => Instruction::Draw { x, y, rows: n },
        (0xE, _, 0x9, 0xE) => Instruction::SkipKey { x },
        (0xE, _, 0xA, 0x1) => Instruction::SkipNoKey { x },
        (0xF, _, 0x0, 0x7) => Instruction::GetDelay { x },
        (0xF, _, 0x0, 0xA) => Instruction::WaitKey { x },
        (0xF, _, 0x1, 0x5) => Instruction::SetDelay { x },
        (0xF, _, 0x1, 0x8) => Instruction::SetSound { x },
        (0xF, _, 0x1, 0xE) => Instruction::AddIndex { x },
        (0xF, _, 0x2, 0x9) => Instruction::Glyph { x },
        (0xF, _, 0x3, 0x3) => Instruction::Bcd { x },
        (0xF, _, 0x5, 0x5) => Instruction::Dump { x },
        (0xF, _, 0x6, 0x5) => Instruction::Restore { x },
        _ => Instruction::Unknown,
    }
}

} // verus!
