//! The instruction sets and the decoder that maps a 16-bit opcode to an
//! instruction.

use vstd::prelude::*;
use vstd::string::*;

use crate::model::Quirks;

verus! {

/// The three instruction sets, each a superset of the one before.
#[derive(Debug, Clone, Copy, PartialEq, Eq, PartialOrd, Ord, Structural)]
pub enum InstructionSet {
    CosmacVip,
    SuperChip,
    XoChip,
}

impl InstructionSet {
    pub open spec fn level(&self) -> int {
        match self {
            InstructionSet::CosmacVip => 0,
            InstructionSet::SuperChip => 1,
            InstructionSet::XoChip => 2,
        }
    }

    /// Whether this set includes every instruction of `other`.
    pub fn is_at_least(&self, other: InstructionSet) -> (r: bool)
        ensures
            r == (self.level() >= other.level()),
    {
        let a: u8 = match self {
            InstructionSet::CosmacVip => 0,
            InstructionSet::SuperChip => 1,
            InstructionSet::XoChip => 2,
        };
        let b: u8 = match other {
            InstructionSet::CosmacVip => 0,
            InstructionSet::SuperChip => 1,
            InstructionSet::XoChip => 2,
        };
        a >= b
    }
}

/// A decoded instruction; register operands are nibbles (`< 16`).
#[derive(Debug, Clone, Copy, PartialEq, Eq, Structural)]
pub enum Instruction {
    /// `0000`: exit when the quirk allows it, else invalid.
    ExitIfAllowed,
    /// `00Cn`
    ScrollDown(u8),
    /// `00Dn`
    ScrollUp(u8),
    /// `00E0`
    Clear,
    /// `00EE`
    Return,
    /// `00FB`
    ScrollRight,
    /// `00FC`
    ScrollLeft,
    /// `00FD`
    Exit,
    /// `00FE`
    Lores,
    /// `00FF`
    Hires,
    /// `1nnn`
    Jump(u16),
    /// `2nnn`
    Call(u16),
    /// `3xnn`
    SkipIfEqualImm(u8, u8),
    /// `4xnn`
    SkipIfNotEqualImm(u8, u8),
    /// `5xy0`
    SkipIfEqual(u8, u8),
    /// `5xy2`
    SaveRange(u8, u8),
    /// `5xy3`
    LoadRange(u8, u8),
    /// `6xnn`
    LoadImm(u8, u8),
    /// `7xnn`
    AddImm(u8, u8),
    /// `8xy0`
    Move(u8, u8),
    /// `8xy1`
    Or(u8, u8),
    /// `8xy2`
    And(u8, u8),
    /// `8xy3`
    Xor(u8, u8),
    /// `8xy4`
    Add(u8, u8),
    /// `8xy5`
    Sub(u8, u8),
    /// `8xy6`
    ShiftRight(u8, u8),
    /// `8xy7`
    SubFrom(u8, u8),
    /// `8xyE`
    ShiftLeft(u8, u8),
    /// `9xy0`
    SkipIfNotEqual(u8, u8),
    /// `Annn`
    SetIndex(u16),
    /// `Bnnn`
    JumpOffset(u8, u16),
    /// `Cxnn`
    Random(u8, u8),
    /// `Dxy0`
    DrawLarge(u8, u8),
    /// `Dxyn`
    Draw(u8, u8, u8),
    /// `Ex9E`
    SkipIfKey(u8),
    /// `ExA1`
    SkipIfNotKey(u8),
    /// `F000 nnnn`
    LongIndex,
    /// `Fx01`
    SetPlanes(u8),
    /// `F002`
    LoadAudio,
    /// `Fx07`
    GetDelay(u8),
    /// `Fx0A`
    WaitKey(u8),
    /// `Fx15`
    SetDelay(u8),
    /// `Fx18`
    SetSound(u8),
    /// `Fx1E`
    AddIndex(u8),
    /// `Fx29`
    FontChar(u8),
    /// `Fx30`
    BigFontChar(u8),
    /// `Fx33`
    Bcd(u8),
    /// `Fx3A`
    SetPitch(u8),
    /// `Fx55`
    Store(u8),
    /// `Fx65`
    Load(u8),
    /// `Fx75`
    SaveFlags(u8),
    /// `Fx85`
    LoadFlags(u8),
}

/// The instruction that `opcode` encodes on the given instruction set,
/// or `None` where the opcode is unknown or belongs to a later set.
pub open spec fn spec_decode(opcode: u16, instruction_set: InstructionSet) -> Option<Instruction> {
    let d1 = (opcode / 4096) as u8;
    let x = (opcode / 256 % 16) as u8;
    let y = (opcode / 16 % 16) as u8;
    let n = (opcode % 16) as u8;
    let nn = (opcode % 256) as u8;
    let nnn = opcode % 4096;
    let sc = instruction_set != InstructionSet::CosmacVip;
    let xo = instruction_set == InstructionSet::XoChip;
    if d1 == 0 && x == 0 && y == 0 && n == 0 {
        Some(Instruction::ExitIfAllowed)
    } else if d1 == 0 && x == 0 && y == 0xC && sc {
        Some(Instruction::ScrollDown(n))
    } else if d1 == 0 && x == 0 && y == 0xD && xo {
        Some(Instruction::ScrollUp(n))
    } else if d1 == 0 && x == 0 && y == 0xE && n == 0 {
        Some(Instruction::Clear)
    } else if d1 == 0 && x == 0 && y == 0xE && n == 0xE {
        Some(Instruction::Return)
    } else if d1 == 0 && x == 0 && y == 0xF && n == 0xB && sc {
        Some(Instruction::ScrollRight)
    } else if d1 == 0 && x == 0 && y == 0xF && n == 0xC && sc {
        Some(Instruction::ScrollLeft)
    } else if d1 == 0 && x == 0 && y == 0xF && n == 0xD && sc {
        Some(Instruction::Exit)
    } else if d1 == 0 && x == 0 && y == 0xF && n == 0xE && sc {
        Some(Instruction::Lores)
    } else if d1 == 0 && x == 0 && y == 0xF && n == 0xF && sc {
        Some(Instruction::Hires)
    } else if d1 == 1 {
        Some(Instruction::Jump(nnn))
    } else if d1 == 2 {
        Some(Instruction::Call(nnn))
    } else if d1 == 3 {
        Some(Instruction::SkipIfEqualImm(x, nn))
    } else if d1 == 4 {
        Some(Instruction::SkipIfNotEqualImm(x, nn))
    } else if d1 == 5 && n == 0 {
        Some(Instruction::SkipIfEqual(x, y))
    } else if d1 == 5 && n == 2 && xo {
        Some(Instruction::SaveRange(x, y))
    } else if d1 == 5 && n == 3 && xo {
        Some(Instruction::LoadRange(x, y))
    } else if d1 == 6 {
        Some(Instruction::LoadImm(x, nn))
    } else if d1 == 7 {
        Some(Instruction::AddImm(x, nn))
    } else if d1 == 8 && n == 0 {
        Some(Instruction::Move(x, y))
    } else if d1 == 8 && n == 1 {
        Some(Instruction::Or(x, y))
    } else if d1 == 8 && n == 2 {
        Some(Instruction::And(x, y))
    } else if d1 == 8 && n == 3 {
        Some(Instruction::Xor(x, y))
    } else if d1 == 8 && n == 4 {
        Some(Instruction::Add(x, y))
    } else if d1 == 8 && n == 5 {
        Some(Instruction::Sub(x, y))
    } else if d1 == 8 && n == 6 {
        Some(Instruction::ShiftRight(x, y))
    } else if d1 == 8 && n == 7 {
        Some(Instruction::SubFrom(x, y))
    } else if d1 == 8 && n == 0xE {
        Some(Instruction::ShiftLeft(x, y))
    } else if d1 == 9 && n == 0 {
        Some(Instruction::SkipIfNotEqual(x, y))
    } else if d1 == 0xA {
        Some(Instruction::SetIndex(nnn))
    } else if d1 == 0xB {
        Some(Instruction::JumpOffset(x, nnn))
    } else if d1 == 0xC {
        Some(Instruction::Random(x, nn))
    } else if d1 == 0xD && n == 0 && sc {
        Some(Instruction::DrawLarge(x, y))
    } else if d1 == 0xD {
        Some(Instruction::Draw(x, y, n))
    } else if d1 == 0xE && y == 9 && n == 0xE {
        Some(Instruction::SkipIfKey(x))
    } else if d1 == 0xE && y == 0xA && n == 1 {
        Some(Instruction::SkipIfNotKey(x))
    } else if d1 == 0xF && x == 0 && y == 0 && n == 0 && xo {
        Some(Instruction::LongIndex)
    } else if d1 == 0xF && y == 0 && n == 1 && xo {
        Some(Instruction::SetPlanes(x))
    } else if d1 == 0xF && x == 0 && y == 0 && n == 2 && xo {
        Some(Instruction::LoadAudio)
    } else if d1 == 0xF && y == 0 && n == 7 {
        Some(Instruction::GetDelay(x))
    } else if d1 == 0xF && y == 0 && n == 0xA {
        Some(Instruction::WaitKey(x))
    } else if d1 == 0xF && y == 1 && n == 5 {
        Some(Instruction::SetDelay(x))
    } else if d1 == 0xF && y == 1 && n == 8 {
        Some(Instruction::SetSound(x))
    } else if d1 == 0xF && y == 1 && n == 0xE {
        Some(Instruction::AddIndex(x))
    } else if d1 == 0xF && y == 2 && n == 9 {
        Some(Instruction::FontChar(x))
    } else if d1 == 0xF && y == 3 && n == 0 && sc {
        Some(Instruction::BigFontChar(x))
    } else if d1 == 0xF && y == 3 && n == 3 {
        Some(Instruction::Bcd(x))
    } else if d1 == 0xF && y == 3 && n == 0xA && xo {
        Some(Instruction::SetPitch(x))
    } else if d1 == 0xF && y == 5 && n == 5 {
        Some(Instruction::Store(x))
    } else if d1 == 0xF && y == 6 && n == 5 {
        Some(Instruction::Load(x))
    } else if d1 == 0xF && y == 7 && n == 5 && sc {
        Some(Instruction::SaveFlags(x))
    } else if d1 == 0xF && y == 8 && n == 5 && sc {
        Some(Instruction::LoadFlags(x))
    } else {
        None
    }
}

/// Decodes `opcode` for the given instruction set.
pub fn decode(opcode: u16, instruction_set: InstructionSet) -> (r: Option<Instruction>)
    ensures
        r == spec_decode(opcode, instruction_set),
        r matches Some(i) ==> i.operands_in_range(),
{
    let d1 = (opcode / 4096) as u8;
    let x = (opcode / 256 % 16) as u8;
    let y = (opcode / 16 % 16) as u8;
    let n = (opcode % 16) as u8;
    let nn = (opcode % 256) as u8;
    let nnn = opcode % 4096;
    let sc = instruction_set.is_at_least(InstructionSet::SuperChip);
    let xo = instruction_set.is_at_least(InstructionSet::XoChip);
    if d1 == 0 && x == 0 && y == 0 && n == 0 {
        Some(Instruction::ExitIfAllowed)
    } else if d1 == 0 && x == 0 && y == 0xC && sc {
        Some(Instruction::ScrollDown(n))
    } else if d1 == 0 && x == 0 && y == 0xD && xo {
        Some(Instruction::ScrollUp(n))
    } else if d1 == 0 && x == 0 && y == 0xE && n == 0 {
        Some(Instruction::Clear)
    } else if d1 == 0 && x == 0 && y == 0xE && n == 0xE {
        Some(Instruction::Return)
    } else if d1 == 0 && x == 0 && y == 0xF && n == 0xB && sc {
        Some(Instruction::ScrollRight)
    } else if d1 == 0 && x == 0 && y == 0xF && n == 0xC && sc {
        Some(Instruction::ScrollLeft)
    } else if d1 == 0 && x == 0 && y == 0xF && n == 0xD && sc {
        Some(Instruction::Exit)
    } else if d1 == 0 && x == 0 && y == 0xF && n == 0xE && sc {
        Some(Instruction::Lores)
    } else if d1 == 0 && x == 0 && y == 0xF && n == 0xF && sc {
        Some(Instruction::Hires)
    } else if d1 == 1 {
        Some(Instruction::Jump(nnn))
    } else if d1 == 2 {
        Some(Instruction::Call(nnn))
    } else if d1 == 3 {
        Some(Instruction::SkipIfEqualImm(x, nn))
    } else if d1 == 4 {
        Some(Instruction::SkipIfNotEqualImm(x, nn))
    } else if d1 == 5 && n == 0 {
        Some(Instruction::SkipIfEqual(x, y))
    } else if d1 == 5 && n == 2 && xo {
        Some(Instruction::SaveRange(x, y))
    } else if d1 == 5 && n == 3 && xo {
        Some(Instruction::LoadRange(x, y))
    } else if d1 == 6 {
        Some(Instruction::LoadImm(x, nn))
    } else if d1 == 7 {
        Some(Instruction::AddImm(x, nn))
    } else if d1 == 8 && n == 0 {
        Some(Instruction::Move(x, y))
    } else if d1 == 8 && n == 1 {
        Some(Instruction::Or(x, y))
    } else if d1 == 8 && n == 2 {
        Some(Instruction::And(x, y))
    } else if d1 == 8 && n == 3 {
        Some(Instruction::Xor(x, y))
    } else if d1 == 8 && n == 4 {
        Some(Instruction::Add(x, y))
    } else if d1 == 8 && n == 5 {
        Some(Instruction::Sub(x, y))
    } else if d1 == 8 && n == 6 {
        Some(Instruction::ShiftRight(x, y))
    } else if d1 == 8 && n == 7 {
        Some(Instruction::SubFrom(x, y))
    } else if d1 == 8 && n == 0xE {
        Some(Instruction::ShiftLeft(x, y))
    } else if d1 == 9 && n == 0 {
        Some(Instruction::SkipIfNotEqual(x, y))
    } else if d1 == 0xA {
        Some(Instruction::SetIndex(nnn))
    } else if d1 == 0xB {
        Some(Instruction::JumpOffset(x, nnn))
    } else if d1 == 0xC {
        Some(Instruction::Random(x, nn))
    } else if d1 == 0xD && n == 0 && sc {
        Some(Instruction::DrawLarge(x, y))
    } else if d1 == 0xD {
        Some(Instruction::Draw(x, y, n))
    } else if d1 == 0xE && y == 9 && n == 0xE {
        Some(Instruction::SkipIfKey(x))
    } else if d1 == 0xE && y == 0xA && n == 1 {
        Some(Instruction::SkipIfNotKey(x))
    } else if d1 == 0xF && x == 0 && y == 0 && n == 0 && xo {
        Some(Instruction::LongIndex)
    } else if d1 == 0xF && y == 0 && n == 1 && xo {
        Some(Instruction::SetPlanes(x))
    } else if d1 == 0xF && x == 0 && y == 0 && n == 2 && xo {
        Some(Instruction::LoadAudio)
    } else if d1 == 0xF && y == 0 && n == 7 {
        Some(Instruction::GetDelay(x))
    } else if d1 == 0xF && y == 0 && n == 0xA {
        Some(Instruction::WaitKey(x))
    } else if d1 == 0xF && y == 1 && n == 5 {
        Some(Instruction::SetDelay(x))
    } else if d1 == 0xF && y == 1 && n == 8 {
        Some(Instruction::SetSound(x))
    } else if d1 == 0xF && y == 1 && n == 0xE {
        Some(Instruction::AddIndex(x))
    } else if d1 == 0xF && y == 2 && n == 9 {
        Some(Instruction::FontChar(x))
    } else if d1 == 0xF && y == 3 && n == 0 && sc {
        Some(Instruction::BigFontChar(x))
    } else if d1 == 0xF && y == 3 && n == 3 {
        Some(Instruction::Bcd(x))
    } else if d1 == 0xF && y == 3 && n == 0xA && xo {
        Some(Instruction::SetPitch(x))
    } else if d1 == 0xF && y == 5 && n == 5 {
        Some(Instruction::Store(x))
    } else if d1 == 0xF && y == 6 && n == 5 {
        Some(Instruction::Load(x))
    } else if d1 == 0xF && y == 7 && n == 5 && sc {
        Some(Instruction::SaveFlags(x))
    } else if d1 == 0xF && y == 8 && n == 5 && sc {
        Some(Instruction::LoadFlags(x))
    } else {
        None
    }
}

impl Instruction {
    /// Register and nibble operands are below 16, addresses below 4096.
    pub open spec fn operands_in_range(&self) -> bool {
        match *self {
            Instruction::ScrollDown(n) => n < 16,
            Instruction::ScrollUp(n) => n < 16,
            Instruction::Jump(nnn) => nnn < 4096,
            Instruction::Call(nnn) => nnn < 4096,
            Instruction::SkipIfEqualImm(x, _) => x < 16,
            Instruction::SkipIfNotEqualImm(x, _) => x < 16,
            Instruction::SkipIfEqual(x, y) => x < 16 && y < 16,
            Instruction::SaveRange(x, y) => x < 16 && y < 16,
            Instruction::LoadRange(x, y) => x < 16 && y < 16,
            Instruction::LoadImm(x, _) => x < 16,
            Instruction::AddImm(x, _) => x < 16,
            Instruction::Move(x, y) => x < 16 && y < 16,
            Instruction::Or(x, y) => x < 16 && y < 16,
            Instruction::And(x, y) => x < 16 && y < 16,
            Instruction::Xor(x, y) => x < 16 && y < 16,
            Instruction::Add(x, y) => x < 16 && y < 16,
            Instruction::Sub(x, y) => x < 16 && y < 16,
            Instruction::ShiftRight(x, y) => x < 16 && y < 16,
            Instruction::SubFrom(x, y) => x < 16 && y < 16,
            Instruction::ShiftLeft(x, y) => x < 16 && y < 16,
            Instruction::SkipIfNotEqual(x, y) => x < 16 && y < 16,
            Instruction::SetIndex(nnn) => nnn < 4096,
            Instruction::JumpOffset(x, nnn) => x < 16 && nnn < 4096,
            Instruction::Random(x, _) => x < 16,
            Instruction::DrawLarge(x, y) => x < 16 && y < 16,
            Instruction::Draw(x, y, n) => x < 16 && y < 16 && n < 16,
            Instruction::SkipIfKey(x) => x < 16,
            Instruction::SkipIfNotKey(x) => x < 16,
            Instruction::SetPlanes(x) => x < 16,
            Instruction::GetDelay(x) => x < 16,
            Instruction::WaitKey(x) => x < 16,
            Instruction::SetDelay(x) => x < 16,
            Instruction::SetSound(x) => x < 16,
            Instruction::AddIndex(x) => x < 16,
            Instruction::FontChar(x) => x < 16,
            Instruction::BigFontChar(x) => x < 16,
            Instruction::Bcd(x) => x < 16,
            Instruction::SetPitch(x) => x < 16,
            Instruction::Store(x) => x < 16,
            Instruction::Load(x) => x < 16,
            Instruction::SaveFlags(x) => x < 16,
            Instruction::LoadFlags(x) => x < 16,
            _ => true,
        }
    }
}

/// The upper-case hexadecimal digits.
pub open spec fn hex_digits() -> Seq<char> {
    seq!['0', '1', '2', '3', '4', '5', '6', '7', '8', '9', 'A', 'B', 'C', 'D', 'E', 'F']
}

/// The lowest `n` hexadecimal digits of `v`, most significant first.
pub open spec fn hex_text(v: int, n: nat) -> Seq<char>
    decreases n,
{
    if n == 0 {
        Seq::empty()
    } else {
        hex_text(v / 16, (n - 1) as nat).push(hex_digits()[v % 16])
    }
}

/// A register name, `v` and its hexadecimal number.
pub open spec fn reg_text(x: u8) -> Seq<char> {
    "v"@ + hex_text(x as int, 1)
}

/// An immediate in Octo's `0x` notation with `n` digits.
pub open spec fn imm_text(v: int, n: nat) -> Seq<char> {
    "0x"@ + hex_text(v, n)
}

/// The digit `d` as a one-character string.
fn hex_digit_str(d: u8) -> (r: &'static str)
    requires
        d < 16,
    ensures
        r@ == seq![hex_digits()[d as int]],
{
    match d {
        0 => {
            proof {
                reveal_strlit("0");
            }
            "0"
        },
        1 => {
            proof {
                reveal_strlit("1");
            }
            "1"
        },
        2 => {
            proof {
                reveal_strlit("2");
            }
            "2"
        },
        3 => {
            proof {
                reveal_strlit("3");
            }
            "3"
        },
        4 => {
            proof {
                reveal_strlit("4");
            }
            "4"
        },
        5 => {
            proof {
                reveal_strlit("5");
            }
            "5"
        },
        6 => {
            proof {
                reveal_strlit("6");
            }
            "6"
        },
        7 => {
            proof {
                reveal_strlit("7");
            }
            "7"
        },
        8 => {
            proof {
                reveal_strlit("8");
            }
            "8"
        },
        9 => {
            proof {
                reveal_strlit("9");
            }
            "9"
        },
        10 => {
            proof {
                reveal_strlit("A");
            }
            "A"
        },
        11 => {
            proof {
                reveal_strlit("B");
            }
            "B"
        },
        12 => {
            proof {
                reveal_strlit("C");
            }
            "C"
        },
        13 => {
            proof {
                reveal_strlit("D");
            }
            "D"
        },
        14 => {
            proof {
                reveal_strlit("E");
            }
            "E"
        },
        _ => {
            proof {
                reveal_strlit("F");
            }
            "F"
        },
    }
}

/// Appends the lowest `n` hexadecimal digits of `v`.
fn push_hex(text: &mut String, v: u16, n: u8)
    ensures
        final(text)@ == old(text)@ + hex_text(v as int, n as nat),
    decreases n,
{
    if n > 0 {
        push_hex(text, v / 16, n - 1);
        let ghost mid = text@;
        text.append(hex_digit_str((v % 16) as u8));
        assert(text@ =~= old(text)@ + hex_text(v as int, n as nat));
    } else {
        assert(text@ =~= old(text)@ + hex_text(v as int, n as nat));
    }
}

/// Appends a register name.
fn push_reg(text: &mut String, x: u8)
    ensures
        final(text)@ == old(text)@ + reg_text(x),
{
    text.append("v");
    push_hex(text, x as u16, 1);
    assert(text@ =~= old(text)@ + reg_text(x));
}

/// A register name as a string.
fn reg_string(x: u8) -> (r: String)
    ensures
        r@ == reg_text(x),
{
    let mut text = String::from_str("v");
    push_hex(&mut text, x as u16, 1);
    text
}

/// Appends an immediate with `n` digits.
fn push_imm(text: &mut String, v: u16, n: u8)
    ensures
        final(text)@ == old(text)@ + imm_text(v as int, n as nat),
{
    text.append("0x");
    push_hex(text, v, n);
    assert(text@ =~= old(text)@ + imm_text(v as int, n as nat));
}

/// The Octo text of an instruction, given the quirks and the word that
/// follows it; `None` for `0000` unless it is a clean exit.
pub open spec fn octo_text(instr: Instruction, q: Quirks, next: Option<u16>) -> Option<Seq<char>> {
    match instr {
        Instruction::ExitIfAllowed => if q.graceful_exit_on_0000 { Some("exit-0000"@) } else { None },
        Instruction::ScrollDown(n) => Some("scroll-down "@ + imm_text(n as int, 1)),
        Instruction::ScrollUp(n) => Some("scroll-up "@ + imm_text(n as int, 1)),
        Instruction::Clear => Some("clear"@),
        Instruction::Return => Some("return"@),
        Instruction::ScrollRight => Some("scroll-right"@),
        Instruction::ScrollLeft => Some("scroll-left"@),
        Instruction::Exit => Some("exit"@),
        Instruction::Lores => Some("lores"@),
        Instruction::Hires => Some("hires"@),
        Instruction::Jump(nnn) => Some("jump "@ + imm_text(nnn as int, 3)),
        Instruction::Call(nnn) => Some(":call "@ + imm_text(nnn as int, 3)),
        Instruction::SkipIfEqualImm(x, nn) => Some("if "@ + reg_text(x) + " != "@ + imm_text(nn as int, 2) + " then"@),
        Instruction::SkipIfNotEqualImm(x, nn) => Some("if "@ + reg_text(x) + " == "@ + imm_text(nn as int, 2) + " then"@),
        Instruction::SkipIfEqual(x, y) => Some("if "@ + reg_text(x) + " != "@ + reg_text(y) + " then"@),
        Instruction::SaveRange(x, y) => Some("save "@ + reg_text(x) + " - "@ + reg_text(y)),
        Instruction::LoadRange(x, y) => Some("load "@ + reg_text(x) + " - "@ + reg_text(y)),
        Instruction::LoadImm(x, nn) => Some(reg_text(x) + " := "@ + imm_text(nn as int, 2)),
        Instruction::AddImm(x, nn) => Some(reg_text(x) + " += "@ + imm_text(nn as int, 2)),
        Instruction::Move(x, y) => Some(reg_text(x) + " := "@ + reg_text(y)),
        Instruction::Or(x, y) => Some(reg_text(x) + " |= "@ + reg_text(y)),
        Instruction::And(x, y) => Some(reg_text(x) + " &= "@ + reg_text(y)),
        Instruction::Xor(x, y) => Some(reg_text(x) + " ^= "@ + reg_text(y)),
        Instruction::Add(x, y) => Some(reg_text(x) + " += "@ + reg_text(y)),
        Instruction::Sub(x, y) => Some(reg_text(x) + " -= "@ + reg_text(y)),
        Instruction::ShiftRight(x, y) => Some(reg_text(x) + " >>= "@ + hex_text((if q.bitshift_use_y { y } else { x }) as int, 1)),
        Instruction::SubFrom(x, y) => Some(reg_text(x) + " =- "@ + reg_text(y)),
        Instruction::ShiftLeft(x, y) => Some(reg_text(x) + " <<= "@ + hex_text((if q.bitshift_use_y { y } else { x }) as int, 1)),
        Instruction::SkipIfNotEqual(x, y) => Some("if "@ + reg_text(x) + " == "@ + reg_text(y) + " then"@),
        Instruction::SetIndex(nnn) => Some("i := "@ + imm_text(nnn as int, 3)),
        Instruction::JumpOffset(x, nnn) => Some(if q.jump_v0_use_vx { "jump0 "@ + imm_text(nnn as int, 3) } else { "jump0 "@ + imm_text(nnn as int, 3) + " + "@ + reg_text(x) }),
        Instruction::Random(x, nn) => Some("vX := random "@ + imm_text(nn as int, 2)),
        Instruction::DrawLarge(x, y) => Some("sprite "@ + reg_text(x) + " "@ + reg_text(y) + " 0"@),
        Instruction::Draw(x, y, n) => Some("sprite "@ + reg_text(x) + " "@ + reg_text(y) + " "@ + hex_text(n as int, 1)),
        Instruction::SkipIfKey(x) => Some("if "@ + reg_text(x) + " -key then"@),
        Instruction::SkipIfNotKey(x) => Some("if "@ + reg_text(x) + " key then"@),
        Instruction::LongIndex => Some("i := long "@ + match next { Some(w) => imm_text(w as int, 4), None => "0x????"@ }),
        Instruction::SetPlanes(x) => Some("plane "@ + imm_text(x as int, 1)),
        Instruction::LoadAudio => Some("audio"@),
        Instruction::GetDelay(x) => Some(reg_text(x) + " := delay"@),
        Instruction::WaitKey(x) => Some(reg_text(x) + " := key"@),
        Instruction::SetDelay(x) => Some("delay := "@ + reg_text(x)),
        Instruction::SetSound(x) => Some("buzzer := "@ + reg_text(x)),
        Instruction::AddIndex(x) => Some("i += "@ + reg_text(x)),
        Instruction::FontChar(x) => Some("i := hex "@ + reg_text(x)),
        Instruction::BigFontChar(x) => Some("i := bighex "@ + reg_text(x)),
        Instruction::Bcd(x) => Some("bcd "@ + reg_text(x)),
        Instruction::SetPitch(x) => Some("pitch := "@ + reg_text(x)),
        Instruction::Store(x) => Some("save "@ + reg_text(x)),
        Instruction::Load(x) => Some("load "@ + reg_text(x)),
        Instruction::SaveFlags(x) => Some("saveflags "@ + reg_text(x)),
        Instruction::LoadFlags(x) => Some("loadflags "@ + reg_text(x)),
    }
}

/// The Octo disassembler: the quirks to read instructions by, and the word
/// that follows the instruction (the operand of `F000`).
#[derive(Debug, Clone, Copy)]
pub struct OctoSyntax(pub Quirks, pub Option<u16>);

impl OctoSyntax {
    /// The Octo text of `opcode` on `instruction_set`, or `None` where it
    /// decodes to nothing (or is `0000` without the clean-exit quirk). An
    /// `F000` takes the following word, leaving `None` in its place.
    pub fn execute(&mut self, opcode: u16, instruction_set: InstructionSet) -> (r: Option<String>)
        ensures
            r matches Some(t) ==> spec_decode(opcode, instruction_set) is Some,
            match spec_decode(opcode, instruction_set) {
                None => r is None,
                Some(i) => match octo_text(i, old(self).0, old(self).1) {
                    None => r is None,
                    Some(t) => r matches Some(s) && s@ == t,
                },
            },
            final(self).0 == old(self).0,
            final(self).1 == if spec_decode(opcode, instruction_set) == Some(Instruction::LongIndex) {
                None
            } else {
                old(self).1
            },
    {
        let instr = match decode(opcode, instruction_set) {
            Some(instr) => instr,
            None => return None,
        };
        match instr {
            Instruction::ExitIfAllowed => {
                if self.0.graceful_exit_on_0000 {
                    Some(String::from_str("exit-0000"))
                } else {
                    None
                }
            },
            Instruction::ScrollDown(n) => {
                let mut text = String::from_str("scroll-down ");
                push_imm(&mut text, n as u16, 1);
                Some(text)
            },
            Instruction::ScrollUp(n) => {
                let mut text = String::from_str("scroll-up ");
                push_imm(&mut text, n as u16, 1);
                Some(text)
            },
            Instruction::Clear => {
                let mut text = String::from_str("clear");
                Some(text)
            },
            Instruction::Return => {
                let mut text = String::from_str("return");
                Some(text)
            },
            Instruction::ScrollRight => {
                let mut text = String::from_str("scroll-right");
                Some(text)
            },
            Instruction::ScrollLeft => {
                let mut text = String::from_str("scroll-left");
                Some(text)
            },
            Instruction::Exit => {
                let mut text = String::from_str("exit");
                Some(text)
            },
            Instruction::Lores => {
                let mut text = String::from_str("lores");
                Some(text)
            },
            Instruction::Hires => {
                let mut text = String::from_str("hires");
                Some(text)
            },
            Instruction::Jump(nnn) => {
                let mut text = String::from_str("jump ");
                push_imm(&mut text, nnn as u16, 3);
                Some(text)
            },
            Instruction::Call(nnn) => {
                let mut text = String::from_str(":call ");
                push_imm(&mut text, nnn as u16, 3);
                Some(text)
            },
            Instruction::SkipIfEqualImm(x, nn) => {
                let mut text = String::from_str("if ");
                push_reg(&mut text, x);
                text.append(" != ");
                push_imm(&mut text, nn as u16, 2);
                text.append(" then");
                Some(text)
            },
            Instruction::SkipIfNotEqualImm(x, nn) => {
                let mut text = String::from_str("if ");
                push_reg(&mut text, x);
                text.append(" == ");
                push_imm(&mut text, nn as u16, 2);
                text.append(" then");
                Some(text)
            },
            Instruction::SkipIfEqual(x, y) => {
                let mut text = String::from_str("if ");
                push_reg(&mut text, x);
                text.append(" != ");
                push_reg(&mut text, y);
                text.append(" then");
                Some(text)
            },
            Instruction::SaveRange(x, y) => {
                let mut text = String::from_str("save ");
                push_reg(&mut text, x);
                text.append(" - ");
                push_reg(&mut text, y);
                Some(text)
            },
            Instruction::LoadRange(x, y) => {
                let mut text = String::from_str("load ");
                push_reg(&mut text, x);
                text.append(" - ");
                push_reg(&mut text, y);
                Some(text)
            },
            Instruction::LoadImm(x, nn) => {
                let mut text = reg_string(x);
                text.append(" := ");
                push_imm(&mut text, nn as u16, 2);
                Some(text)
            },
            Instruction::AddImm(x, nn) => {
                let mut text = reg_string(x);
                text.append(" += ");
                push_imm(&mut text, nn as u16, 2);
                Some(text)
            },
            Instruction::Move(x, y) => {
                let mut text = reg_string(x);
                text.append(" := ");
                push_reg(&mut text, y);
                Some(text)
            },
            Instruction::Or(x, y) => {
                let mut text = reg_string(x);
                text.append(" |= ");
                push_reg(&mut text, y);
                Some(text)
            },
            Instruction::And(x, y) => {
                let mut text = reg_string(x);
                text.append(" &= ");
                push_reg(&mut text, y);
                Some(text)
            },
            Instruction::Xor(x, y) => {
                let mut text = reg_string(x);
                text.append(" ^= ");
                push_reg(&mut text, y);
                Some(text)
            },
            Instruction::Add(x, y) => {
                let mut text = reg_string(x);
                text.append(" += ");
                push_reg(&mut text, y);
                Some(text)
            },
            Instruction::Sub(x, y) => {
                let mut text = reg_string(x);
                text.append(" -= ");
                push_reg(&mut text, y);
                Some(text)
            },
            Instruction::ShiftRight(x, y) => {
                let mut text = reg_string(x);
                text.append(" >>= ");
                push_hex(&mut text, (if self.0.bitshift_use_y { y } else { x }) as u16, 1);
                Some(text)
            },
            Instruction::SubFrom(x, y) => {
                let mut text = reg_string(x);
                text.append(" =- ");
                push_reg(&mut text, y);
                Some(text)
            },
            Instruction::ShiftLeft(x, y) => {
                let mut text = reg_string(x);
                text.append(" <<= ");
                push_hex(&mut text, (if self.0.bitshift_use_y { y } else { x }) as u16, 1);
                Some(text)
            },
            Instruction::SkipIfNotEqual(x, y) => {
                let mut text = String::from_str("if ");
                push_reg(&mut text, x);
                text.append(" == ");
                push_reg(&mut text, y);
                text.append(" then");
                Some(text)
            },
            Instruction::SetIndex(nnn) => {
                let mut text = String::from_str("i := ");
                push_imm(&mut text, nnn as u16, 3);
                Some(text)
            },
            Instruction::JumpOffset(x, nnn) => {
                let mut text = String::from_str("jump0 ");
                push_imm(&mut text, nnn, 3);
                if !self.0.jump_v0_use_vx {
                    text.append(" + ");
                    push_reg(&mut text, x);
                }
                Some(text)
            },
            Instruction::Random(x, nn) => {
                let mut text = String::from_str("vX := random ");
                push_imm(&mut text, nn as u16, 2);
                Some(text)
            },
            Instruction::DrawLarge(x, y) => {
                let mut text = String::from_str("sprite ");
                push_reg(&mut text, x);
                text.append(" ");
                push_reg(&mut text, y);
                text.append(" 0");
                Some(text)
            },
            Instruction::Draw(x, y, n) => {
                let mut text = String::from_str("sprite ");
                push_reg(&mut text, x);
                text.append(" ");
                push_reg(&mut text, y);
                text.append(" ");
                push_hex(&mut text, n as u16, 1);
                Some(text)
            },
            Instruction::SkipIfKey(x) => {
                let mut text = String::from_str("if ");
                push_reg(&mut text, x);
                text.append(" -key then");
                Some(text)
            },
            Instruction::SkipIfNotKey(x) => {
                let mut text = String::from_str("if ");
                push_reg(&mut text, x);
                text.append(" key then");
                Some(text)
            },
            Instruction::LongIndex => {
                let mut text = String::from_str("i := long ");
                match self.1.take() {
                    Some(w) => push_imm(&mut text, w, 4),
                    None => text.append("0x????"),
                }
                Some(text)
            },
            Instruction::SetPlanes(x) => {
                let mut text = String::from_str("plane ");
                push_imm(&mut text, x as u16, 1);
                Some(text)
            },
            Instruction::LoadAudio => {
                let mut text = String::from_str("audio");
                Some(text)
            },
            Instruction::GetDelay(x) => {
                let mut text = reg_string(x);
                text.append(" := delay");
                Some(text)
            },
            Instruction::WaitKey(x) => {
                let mut text = reg_string(x);
                text.append(" := key");
                Some(text)
            },
            Instruction::SetDelay(x) => {
                let mut text = String::from_str("delay := ");
                push_reg(&mut text, x);
                Some(text)
            },
            Instruction::SetSound(x) => {
                let mut text = String::from_str("buzzer := ");
                push_reg(&mut text, x);
                Some(text)
            },
            Instruction::AddIndex(x) => {
                let mut text = String::from_str("i += ");
                push_reg(&mut text, x);
                Some(text)
            },
            Instruction::FontChar(x) => {
                let mut text = String::from_str("i := hex ");
                push_reg(&mut text, x);
                Some(text)
            },
            Instruction::BigFontChar(x) => {
                let mut text = String::from_str("i := bighex ");
                push_reg(&mut text, x);
                Some(text)
            },
            Instruction::Bcd(x) => {
                let mut text = String::from_str("bcd ");
                push_reg(&mut text, x);
                Some(text)
            },
            Instruction::SetPitch(x) => {
                let mut text = String::from_str("pitch := ");
                push_reg(&mut text, x);
                Some(text)
            },
            Instruction::Store(x) => {
                let mut text = String::from_str("save ");
                push_reg(&mut text, x);
                Some(text)
            },
            Instruction::Load(x) => {
                let mut text = String::from_str("load ");
                push_reg(&mut text, x);
                Some(text)
            },
            Instruction::SaveFlags(x) => {
                let mut text = String::from_str("saveflags ");
                push_reg(&mut text, x);
                Some(text)
            },
            Instruction::LoadFlags(x) => {
                let mut text = String::from_str("loadflags ");
                push_reg(&mut text, x);
                Some(text)
            },
        }
    }
}

/// Whether an instruction is a conditional skip, whose Octo text ends in
/// `then`.
pub open spec fn is_skip(i: Instruction) -> bool {
    i is SkipIfEqualImm || i is SkipIfNotEqualImm || i is SkipIfEqual || i is SkipIfNotEqual || i is SkipIfKey
        || i is SkipIfNotKey
}

/// The big-endian word at `address`, when both bytes are in `memory`.
pub open spec fn word_in(memory: Seq<u8>, address: int) -> Option<u16> {
    if 0 <= address && address + 1 < memory.len() {
        Some((memory[address] as int * 256 + memory[address + 1] as int) as u16)
    } else {
        None
    }
}

/// One line of a disassembly listing.
#[derive(Debug, Clone)]
pub struct OpcodeInfo {
    pub opcode: u16,
    /// The word is the operand of a preceding `F000`.
    pub is_long_operand: bool,
    /// The operand this `F000` takes, if the word is one.
    pub long_operand: Option<u16>,
    /// The Octo text, indented when the preceding instruction may skip it,
    /// or `????` where the word does not decode.
    pub instruction: String,
}

/// Reads the word at `address`, if it lies inside memory.
fn read_word_at(memory: &[u8], address: usize) -> (r: Option<u16>)
    ensures
        r == word_in(memory@, address as int),
{
    if address < memory.len() && memory.len() - address > 1 {
        Some((memory[address] as u16) * 256 + memory[address + 1] as u16)
    } else {
        None
    }
}

/// The disassembly of the word at `address`: nothing past the end of
/// memory; otherwise its Octo text, indented when the word before it is a
/// skip, and whether it is the operand of an `F000` just before it.
pub fn get_opcode(memory: &[u8], address: usize, quirks: &Quirks, instruction_set: InstructionSet) -> (r: Option<OpcodeInfo>)
    ensures
        word_in(memory@, address as int) is None ==> r is None,
        word_in(memory@, address as int) matches Some(w) ==> r matches Some(info) && info.opcode == w && {
            let last = if address >= 2 { word_in(memory@, address - 2) } else { None };
            let next = word_in(memory@, address + 2);
            let last_instr = match last {
                Some(l) => spec_decode(l, instruction_set),
                None => None,
            };
            let indent = last_instr matches Some(li) && is_skip(li);
            &&& info.is_long_operand == (last_instr == Some(Instruction::LongIndex))
            &&& match spec_decode(w, instruction_set) {
                None => info.instruction@ == "????"@ && info.long_operand is None,
                Some(i) => match octo_text(i, *quirks, next) {
                    None => info.instruction@ == "????"@ && info.long_operand is None,
                    Some(t) => {
                        &&& info.instruction@ == if indent { "    "@ + t } else { t }
                        &&& info.long_operand == if i == Instruction::LongIndex { next } else { None }
                    },
                },
            }
        },
{
    let word = match read_word_at(memory, address) {
        Some(w) => w,
        None => return None,
    };
    let last_word = if address >= 2 { read_word_at(memory, address - 2) } else { None };
    let len = memory.len();
    assert(address + 2 <= len);
    let next_word = read_word_at(memory, address + 2);
    let (is_long_operand, last_can_skip) = match last_word {
        Some(last) => match decode(last, instruction_set) {
            Some(Instruction::LongIndex) => (true, false),
            Some(Instruction::SkipIfEqualImm(_, _)) | Some(Instruction::SkipIfNotEqualImm(_, _))
            | Some(Instruction::SkipIfEqual(_, _)) | Some(Instruction::SkipIfNotEqual(_, _))
            | Some(Instruction::SkipIfKey(_)) | Some(Instruction::SkipIfNotKey(_)) => (false, true),
            _ => (false, false),
        },
        None => (false, false),
    };
    let mut parser = OctoSyntax(*quirks, next_word);
    let text = match parser.execute(word, instruction_set) {
        Some(text) => text,
        None => {
            return Some(
                OpcodeInfo { opcode: word, is_long_operand, long_operand: None, instruction: String::from_str("????") },
            );
        },
    };
    let instruction = if last_can_skip {
        let mut indented = String::from_str("    ");
        indented.append(text.as_str());
        indented
    } else {
        text
    };
    let long_operand = match (parser.1, next_word) {
        (None, Some(w)) => Some(w),
        _ => None,
    };
    Some(OpcodeInfo { opcode: word, is_long_operand, long_operand, instruction })
}

} // verus!
