//! Chip-8 instructions, decoded from their 16-bit encoding.
//!
//! Decoding turns a raw word into an [`Opcode`] whose variants carry the
//! register indices, addresses and literals of the instruction, so that the
//! CPU matches on structured instructions rather than bit fields.

use vstd::prelude::*;
use vstd::string::StringExecFns;

use super::text::{digits, push_digits};

verus! {

/// An error of instruction decoding.
#[derive(Debug, Clone, Copy, PartialEq, Eq, Structural)]
#[non_exhaustive]
pub enum OpcodeError {
    /// The word encodes no Chip-8 instruction.
    Unknown(u16),
}

/// A decoded Chip-8 instruction. `x` and `y` name registers, `nnn` is a
/// 12-bit address, `kk` a byte literal and `n` a nibble.
#[derive(Debug, Clone, Copy, PartialEq, Eq, Structural)]
pub enum Opcode {
    /// 0nnn - SYS addr: a machine-code routine of the COSMAC VIP; ignored.
    Sys(u16),
    /// 00E0 - CLS: clear the display.
    Cls,
    /// 00EE - RET: return from a subroutine.
    Ret,
    /// 1nnn - JP addr: jump to `nnn`.
    Jp(u16),
    /// 2nnn - CALL addr: call the subroutine at `nnn`.
    Call(u16),
    /// 3xkk - SE Vx, byte: skip the next instruction if Vx == kk.
    SeVxByte(u8, u8),
    /// 4xkk - SNE Vx, byte: skip the next instruction if Vx != kk.
    SneVxByte(u8, u8),
    /// 5xy0 - SE Vx, Vy: skip the next instruction if Vx == Vy.
    SeVxVy(u8, u8),
    /// 6xkk - LD Vx, byte: Vx = kk.
    LdVxByte(u8, u8),
    /// 7xkk - ADD Vx, byte: Vx = Vx + kk, wrapping; VF is untouched.
    AddVxByte(u8, u8),
    /// 8xy0 - LD Vx, Vy: Vx = Vy.
    LdVxVy(u8, u8),
    /// 8xy1 - OR Vx, Vy: Vx = Vx | Vy.
    OrVxVy(u8, u8),
    /// 8xy2 - AND Vx, Vy: Vx = Vx & Vy.
    AndVxVy(u8, u8),
    /// 8xy3 - XOR Vx, Vy: Vx = Vx ^ Vy.
    XorVxVy(u8, u8),
    /// 8xy4 - ADD Vx, Vy: Vx = Vx + Vy, VF = carry.
    AddVxVy(u8, u8),
    /// 8xy5 - SUB Vx, Vy: Vx = Vx - Vy, VF = no borrow.
    SubVxVy(u8, u8),
    /// 8xy6 - SHR Vx {, Vy}: shift right by one, VF = the bit shifted out.
    ShrVxVy(u8, u8),
    /// 8xy7 - SUBN Vx, Vy: Vx = Vy - Vx, VF = no borrow.
    SubnVxVy(u8, u8),
    /// 8xyE - SHL Vx {, Vy}: shift left by one, VF = the bit shifted out.
    ShlVxVy(u8, u8),
    /// 9xy0 - SNE Vx, Vy: skip the next instruction if Vx != Vy.
    SneVxVy(u8, u8),
    /// Annn - LD I, addr: I = nnn.
    LdI(u16),
    /// Bnnn - JP V0, addr: jump to nnn + V0 (or + Vx under the jump quirk).
    JpV0(u16),
    /// Cxkk - RND Vx, byte: Vx = random byte & kk.
    Rnd(u8, u8),
    /// Dxyn - DRW Vx, Vy, nibble: draw an n-row sprite from I at (Vx, Vy).
    Drw(u8, u8, u8),
    /// Ex9E - SKP Vx: skip the next instruction if key Vx is pressed.
    Skp(u8),
    /// ExA1 - SKNP Vx: skip the next instruction if key Vx is not pressed.
    Sknp(u8),
    /// Fx07 - LD Vx, DT: Vx = delay timer.
    LdVxDt(u8),
    /// Fx0A - LD Vx, K: wait for a key press and store the key in Vx.
    LdVxK(u8),
    /// Fx15 - LD DT, Vx: delay timer = Vx.
    LdDtVx(u8),
    /// Fx18 - LD ST, Vx: sound timer = Vx.
    LdStVx(u8),
    /// Fx1E - ADD I, Vx: I = I + Vx.
    AddIVx(u8),
    /// Fx29 - LD F, Vx: I = address of the font sprite of digit Vx.
    LdF(u8),
    /// Fx33 - LD B, Vx: store the decimal digits of Vx at I, I+1, I+2.
    LdB(u8),
    /// Fx55 - LD [I], Vx: store V0..=Vx in memory from I on.
    LdIVx(u8),
    /// Fx65 - LD Vx, [I]: load V0..=Vx from memory from I on.
    LdVxI(u8),
}

/// Nibble `k` of `w`, counted from the most significant (k = 0) to the least (k = 3).
pub open spec fn nibble(w: u16, k: int) -> u16 {
    if k == 0 {
        w / 4096
    } else if k == 1 {
        (w / 256) % 16
    } else if k == 2 {
        (w / 16) % 16
    } else {
        w % 16
    }
}

/// The instruction that `w` encodes, per the Chip-8 instruction table.
pub open spec fn decode_word(w: u16) -> Result<Opcode, OpcodeError> {
    let nnn = w % 4096;
    let kk = (w % 256) as u8;
    let x = nibble(w, 1) as u8;
    let y = nibble(w, 2) as u8;
    let n = nibble(w, 3) as u8;
    match (nibble(w, 0), nibble(w, 1), nibble(w, 2), nibble(w, 3)) {
        (0, 0, 0xE, 0) => Ok(Opcode::Cls),
        (0, 0, 0xE, 0xE) => Ok(Opcode::Ret),
        (0, _, _, _) => Ok(Opcode::Sys(nnn)),
        (1, _, _, _) => Ok(Opcode::Jp(nnn)),
        (2, _, _, _) => Ok(Opcode::Call(nnn)),
        (3, _, _, _) => Ok(Opcode::SeVxByte(x, kk)),
        (4, _, _, _) => Ok(Opcode::SneVxByte(x, kk)),
        (5, _, _, 0) => Ok(Opcode::SeVxVy(x, y)),
        (6, _, _, _) => Ok(Opcode::LdVxByte(x, kk)),
        (7, _, _, _) => Ok(Opcode::AddVxByte(x, kk)),
        (8, _, _, 0) => Ok(Opcode::LdVxVy(x, y)),
        (8, _, _, 1) => Ok(Opcode::OrVxVy(x, y)),
        (8, _, _, 2) => Ok(Opcode::AndVxVy(x, y)),
        (8, _, _, 3) => Ok(Opcode::XorVxVy(x, y)),
        (8, _, _, 4) => Ok(Opcode::AddVxVy(x, y)),
        (8, _, _, 5) => Ok(Opcode::SubVxVy(x, y)),
        (8, _, _, 6) => Ok(Opcode::ShrVxVy(x, y)),
        (8, _, _, 7) => Ok(Opcode::SubnVxVy(x, y)),
        (8, _, _, 0xE) => Ok(Opcode::ShlVxVy(x, y)),
        (9, _, _, 0) => Ok(Opcode::SneVxVy(x, y)),
        (0xA, _, _, _) => Ok(Opcode::LdI(nnn)),
        (0xB, _, _, _) => Ok(Opcode::JpV0(nnn)),
        (0xC, _, _, _) => Ok(Opcode::Rnd(x, kk)),
        (0xD, _, _, _) => Ok(Opcode::Drw(x, y, n)),
        (0xE, _, 9, 0xE) => Ok(Opcode::Skp(x)),
        (0xE, _, 0xA, 1) => Ok(Opcode::Sknp(x)),
        (0xF, _, 0, 7) => Ok(Opcode::LdVxDt(x)),
        (0xF, _, 0, 0xA) => Ok(Opcode::LdVxK(x)),
        (0xF, _, 1, 5) => Ok(Opcode::LdDtVx(x)),
        (0xF, _, 1, 8) => Ok(Opcode::LdStVx(x)),
        (0xF, _, 1, 0xE) => Ok(Opcode::AddIVx(x)),
        (0xF, _, 2, 9) => Ok(Opcode::LdF(x)),
        (0xF, _, 3, 3) => Ok(Opcode::LdB(x)),
        (0xF, _, 5, 5) => Ok(Opcode::LdIVx(x)),
        (0xF, _, 6, 5) => Ok(Opcode::LdVxI(x)),
        _ => Err(OpcodeError::Unknown(w)),
    }
}

impl Opcode {
    /// Register fields name one of the 16 registers and a sprite is at most
    /// 16 rows high.
    pub open spec fn wf(self) -> bool {
        match self {
            Opcode::Sys(_) | Opcode::Jp(_) | Opcode::Call(_) | Opcode::LdI(_) | Opcode::JpV0(_)
            | Opcode::Cls | Opcode::Ret => true,
            Opcode::SeVxByte(x, _) | Opcode::SneVxByte(x, _) | Opcode::LdVxByte(x, _)
            | Opcode::AddVxByte(x, _) | Opcode::Rnd(x, _) => x < 16,
            Opcode::SeVxVy(x, y) | Opcode::LdVxVy(x, y) | Opcode::OrVxVy(x, y) | Opcode::AndVxVy(x, y)
            | Opcode::XorVxVy(x, y) | Opcode::AddVxVy(x, y) | Opcode::SubVxVy(x, y)
            | Opcode::ShrVxVy(x, y) | Opcode::SubnVxVy(x, y) | Opcode::ShlVxVy(x, y)
            | Opcode::SneVxVy(x, y) => x < 16 && y < 16,
            Opcode::Drw(x, y, n) => x < 16 && y < 16 && n <= 16,
            Opcode::Skp(x) | Opcode::Sknp(x) | Opcode::LdVxDt(x) | Opcode::LdVxK(x) | Opcode::LdDtVx(x)
            | Opcode::LdStVx(x) | Opcode::AddIVx(x) | Opcode::LdF(x) | Opcode::LdB(x)
            | Opcode::LdIVx(x) | Opcode::LdVxI(x) => x < 16,
        }
    }

    /// Decodes the instruction that `opcode` encodes; fails with
    /// `Unknown(opcode)` when it encodes none.
    pub fn decode(opcode: u16) -> (r: Result<Opcode, OpcodeError>)
        ensures
            r == decode_word(opcode),
            r matches Ok(op) ==> op.wf(),
    {
        let op_1 = opcode / 4096;
        let op_2 = (opcode / 256) % 16;
        let op_3 = (opcode / 16) % 16;
        let op_4 = opcode % 16;

        let nnn = opcode % 4096;
        let kk = (opcode % 256) as u8;
        let x = op_2 as u8;
        let y = op_3 as u8;
        let n = op_4 as u8;

        match (op_1, op_2, op_3, op_4) {
            (0, 0, 0xE, 0) => Ok(Opcode::Cls),
            (0, 0, 0xE, 0xE) => Ok(Opcode::Ret),
            (0, _, _, _) => Ok(Opcode::Sys(nnn)),
            (1, _, _, _) => Ok(Opcode::Jp(nnn)),
            (2, _, _, _) => Ok(Opcode::Call(nnn)),
            (3, _, _, _) => Ok(Opcode::SeVxByte(x, kk)),
            (4, _, _, _) => Ok(Opcode::SneVxByte(x, kk)),
            (5, _, _, 0) => Ok(Opcode::SeVxVy(x, y)),
            (6, _, _, _) => Ok(Opcode::LdVxByte(x, kk)),
            (7, _, _, _) => Ok(Opcode::AddVxByte(x, kk)),
            (8, _, _, 0) => Ok(Opcode::LdVxVy(x, y)),
            (8, _, _, 1) => Ok(Opcode::OrVxVy(x, y)),
            (8, _, _, 2) => Ok(Opcode::AndVxVy(x, y)),
            (8, _, _, 3) => Ok(Opcode::XorVxVy(x, y)),
            (8, _, _, 4) => Ok(Opcode::AddVxVy(x, y)),
            (8, _, _, 5) => Ok(Opcode::SubVxVy(x, y)),
            (8, _, _, 6) => Ok(Opcode::ShrVxVy(x, y)),
            (8, _, _, 7) => Ok(Opcode::SubnVxVy(x, y)),
            (8, _, _, 0xE) => Ok(Opcode::ShlVxVy(x, y)),
            (9, _, _, 0) => Ok(Opcode::SneVxVy(x, y)),
            (0xA, _, _, _) => Ok(Opcode::LdI(nnn)),
            (0xB, _, _, _) => Ok(Opcode::JpV0(nnn)),
            (0xC, _, _, _) => Ok(Opcode::Rnd(x, kk)),
            (0xD, _, _, _) => Ok(Opcode::Drw(x, y, n)),
            (0xE, _, 9, 0xE) => Ok(Opcode::Skp(x)),
            (0xE, _, 0xA, 1) => Ok(Opcode::Sknp(x)),
            (0xF, _, 0, 7) => Ok(Opcode::LdVxDt(x)),
            (0xF, _, 0, 0xA) => Ok(Opcode::LdVxK(x)),
            (0xF, _, 1, 5) => Ok(Opcode::LdDtVx(x)),
            (0xF, _, 1, 8) => Ok(Opcode::LdStVx(x)),
            (0xF, _, 1, 0xE) => Ok(Opcode::AddIVx(x)),
            (0xF, _, 2, 9) => Ok(Opcode::LdF(x)),
            (0xF, _, 3, 3) => Ok(Opcode::LdB(x)),
            (0xF, _, 5, 5) => Ok(Opcode::LdIVx(x)),
            (0xF, _, 6, 5) => Ok(Opcode::LdVxI(x)),
            _ => Err(OpcodeError::Unknown(opcode)),
        }
    }

    /// Decodes a word that encodes an instruction.
    pub fn from(opcode: u16) -> (r: Opcode)
        requires
            decode_word(opcode) is Ok,
        ensures
            decode_word(opcode) == Ok::<Opcode, OpcodeError>(r),
            r.wf(),
    {
        Opcode::decode(opcode).unwrap()
    }
}

/// `V` and the register number in hexadecimal.
pub open spec fn reg_text(x: u8) -> Seq<char> {
    "V"@ + digits(x as int, 16, 1)
}

/// `0x` and `n` in uppercase hexadecimal, zero-padded to `width` digits.
pub open spec fn hex_text(n: int, width: int) -> Seq<char> {
    "0x"@ + digits(n, 16, width)
}

/// The assembly-language form of an instruction, as in `SE V3, 0x42` or `JP 0x200`.
pub open spec fn mnemonic_text(op: Opcode) -> Seq<char> {
    match op {
        Opcode::Sys(a) => "SYS "@ + hex_text(a as int, 3),
        Opcode::Cls => "CLS"@,
        Opcode::Ret => "RET"@,
        Opcode::Jp(a) => "JP "@ + hex_text(a as int, 3),
        Opcode::Call(a) => "CALL "@ + hex_text(a as int, 3),
        Opcode::SeVxByte(x, kk) => "SE "@ + reg_text(x) + ", "@ + hex_text(kk as int, 2),
        Opcode::SneVxByte(x, kk) => "SNE "@ + reg_text(x) + ", "@ + hex_text(kk as int, 2),
        Opcode::SeVxVy(x, y) => "SE "@ + reg_text(x) + ", "@ + reg_text(y),
        Opcode::LdVxByte(x, kk) => "LD "@ + reg_text(x) + ", "@ + hex_text(kk as int, 2),
        Opcode::AddVxByte(x, kk) => "ADD "@ + reg_text(x) + ", "@ + hex_text(kk as int, 2),
        Opcode::LdVxVy(x, y) => "LD "@ + reg_text(x) + ", "@ + reg_text(y),
        Opcode::OrVxVy(x, y) => "OR "@ + reg_text(x) + ", "@ + reg_text(y),
        Opcode::AndVxVy(x, y) => "AND "@ + reg_text(x) + ", "@ + reg_text(y),
        Opcode::XorVxVy(x, y) => "XOR "@ + reg_text(x) + ", "@ + reg_text(y),
        Opcode::AddVxVy(x, y) => "ADD "@ + reg_text(x) + ", "@ + reg_text(y),
        Opcode::SubVxVy(x, y) => "SUB "@ + reg_text(x) + ", "@ + reg_text(y),
        Opcode::ShrVxVy(x, _) => "SHR "@ + reg_text(x),
        Opcode::SubnVxVy(x, y) => "SUBN "@ + reg_text(x) + ", "@ + reg_text(y),
        Opcode::ShlVxVy(x, _) => "SHL "@ + reg_text(x),
        Opcode::SneVxVy(x, y) => "SNE "@ + reg_text(x) + ", "@ + reg_text(y),
        Opcode::LdI(a) => "LD I, "@ + hex_text(a as int, 3),
        Opcode::JpV0(a) => "JP V0, "@ + hex_text(a as int, 3),
        Opcode::Rnd(x, kk) => "RND "@ + reg_text(x) + ", "@ + hex_text(kk as int, 2),
        Opcode::Drw(x, y, n) => "DRW "@ + reg_text(x) + ", "@ + reg_text(y) + ", "@ + digits(n as int, 10, 1),
        Opcode::Skp(x) => "SKP "@ + reg_text(x),
        Opcode::Sknp(x) => "SKNP "@ + reg_text(x),
        Opcode::LdVxDt(x) => "LD "@ + reg_text(x) + ", DT"@,
        Opcode::LdVxK(x) => "LD "@ + reg_text(x) + ", K"@,
        Opcode::LdDtVx(x) => "LD DT, "@ + reg_text(x),
        Opcode::LdStVx(x) => "LD ST, "@ + reg_text(x),
        Opcode::AddIVx(x) => "ADD I, "@ + reg_text(x),
        Opcode::LdF(x) => "LD F, "@ + reg_text(x),
        Opcode::LdB(x) => "LD B, "@ + reg_text(x),
        Opcode::LdIVx(x) => "LD [I], "@ + reg_text(x),
        Opcode::LdVxI(x) => "LD "@ + reg_text(x) + ", [I]"@,
    }
}

/// The operation of an instruction, numbered in the order of the variants
/// of [`Opcode`]; operands play no part.
pub open spec fn operation(op: Opcode) -> int {
    match op {
        Opcode::Sys(_) => 0,
        Opcode::Cls => 1,
        Opcode::Ret => 2,
        Opcode::Jp(_) => 3,
        Opcode::Call(_) => 4,
        Opcode::SeVxByte(_, _) => 5,
        Opcode::SneVxByte(_, _) => 6,
        Opcode::SeVxVy(_, _) => 7,
        Opcode::LdVxByte(_, _) => 8,
        Opcode::AddVxByte(_, _) => 9,
        Opcode::LdVxVy(_, _) => 10,
        Opcode::OrVxVy(_, _) => 11,
        Opcode::AndVxVy(_, _) => 12,
        Opcode::XorVxVy(_, _) => 13,
        Opcode::AddVxVy(_, _) => 14,
        Opcode::SubVxVy(_, _) => 15,
        Opcode::ShrVxVy(_, _) => 16,
        Opcode::SubnVxVy(_, _) => 17,
        Opcode::ShlVxVy(_, _) => 18,
        Opcode::SneVxVy(_, _) => 19,
        Opcode::LdI(_) => 20,
        Opcode::JpV0(_) => 21,
        Opcode::Rnd(_, _) => 22,
        Opcode::Drw(_, _, _) => 23,
        Opcode::Skp(_) => 24,
        Opcode::Sknp(_) => 25,
        Opcode::LdVxDt(_) => 26,
        Opcode::LdVxK(_) => 27,
        Opcode::LdDtVx(_) => 28,
        Opcode::LdStVx(_) => 29,
        Opcode::AddIVx(_) => 30,
        Opcode::LdF(_) => 31,
        Opcode::LdB(_) => 32,
        Opcode::LdIVx(_) => 33,
        Opcode::LdVxI(_) => 34,
    }
}

/// Whether `t` has the character `c` at position `k`.
pub open spec fn char_at(t: Seq<char>, k: int, c: char) -> bool {
    0 <= k < t.len() && t[k] == c
}

/// Reads the operation back from an assembly text by the standard Chip-8
/// mnemonics: `SYS`, `CLS`, `RET`, `JP`, `CALL`, `SE`, `SNE`, `LD`, `ADD`,
/// `OR`, `AND`, `XOR`, `SUB`, `SHR`, `SUBN`, `SHL`, `RND`, `DRW`, `SKP` and
/// `SKNP`, and for `LD`, `ADD`, `SE`, `SNE` and `JP` the form of the operands
/// (`0x..` for a byte, `Vy` for a register, `DT`, `ST`, `K`, `F`, `B`, `I`,
/// `[I]`). A text that names none of them reads as -1.
pub open spec fn operation_of_text(t: Seq<char>) -> int {
    let c = |k: int, ch: char| char_at(t, k, ch);
    if c(0, 'S') && c(1, 'Y') && c(2, 'S') && c(3, ' ') {
        0
    } else if c(0, 'C') && c(1, 'L') && c(2, 'S') && t.len() == 3 {
        1
    } else if c(0, 'R') && c(1, 'E') && c(2, 'T') && t.len() == 3 {
        2
    } else if c(0, 'J') && c(1, 'P') && c(2, ' ') && c(3, '0') && c(4, 'x') {
        3
    } else if c(0, 'J') && c(1, 'P') && c(2, ' ') && c(3, 'V') && c(4, '0') && c(5, ',') {
        21
    } else if c(0, 'C') && c(1, 'A') && c(2, 'L') && c(3, 'L') && c(4, ' ') {
        4
    } else if c(0, 'S') && c(1, 'E') && c(2, ' ') && c(3, 'V') && c(5, ',') {
        if c(7, '0') && c(8, 'x') {
            5
        } else if c(7, 'V') {
            7
        } else {
            -1
        }
    } else if c(0, 'S') && c(1, 'N') && c(2, 'E') && c(3, ' ') && c(4, 'V') && c(6, ',') {
        if c(8, '0') && c(9, 'x') {
            6
        } else if c(8, 'V') {
            19
        } else {
            -1
        }
    } else if c(0, 'L') && c(1, 'D') && c(2, ' ') {
        if c(3, 'V') && c(5, ',') && c(6, ' ') {
            if c(7, '0') && c(8, 'x') {
                8
            } else if c(7, 'V') {
                10
            } else if c(7, 'D') && c(8, 'T') {
                26
            } else if c(7, 'K') {
                27
            } else if c(7, '[') && c(8, 'I') && c(9, ']') {
                34
            } else {
                -1
            }
        } else if c(3, 'I') && c(4, ',') {
            20
        } else if c(3, 'D') && c(4, 'T') && c(5, ',') {
            28
        } else if c(3, 'S') && c(4, 'T') && c(5, ',') {
            29
        } else if c(3, 'F') && c(4, ',') {
            31
        } else if c(3, 'B') && c(4, ',') {
            32
        } else if c(3, '[') && c(4, 'I') && c(5, ']') && c(6, ',') {
            33
        } else {
            -1
        }
    } else if c(0, 'A') && c(1, 'D') && c(2, 'D') && c(3, ' ') {
        if c(4, 'I') && c(5, ',') {
            30
        } else if c(4, 'V') && c(6, ',') && c(8, '0') && c(9, 'x') {
            9
        } else if c(4, 'V') && c(6, ',') && c(8, 'V') {
            14
        } else {
            -1
        }
    } else if c(0, 'O') && c(1, 'R') && c(2, ' ') {
        11
    } else if c(0, 'A') && c(1, 'N') && c(2, 'D') && c(3, ' ') {
        12
    } else if c(0, 'X') && c(1, 'O') && c(2, 'R') && c(3, ' ') {
        13
    } else if c(0, 'S') && c(1, 'U') && c(2, 'B') && c(3, ' ') {
        15
    } else if c(0, 'S') && c(1, 'H') && c(2, 'R') && c(3, ' ') {
        16
    } else if c(0, 'S') && c(1, 'U') && c(2, 'B') && c(3, 'N') && c(4, ' ') {
        17
    } else if c(0, 'S') && c(1, 'H') && c(2, 'L') && c(3, ' ') {
        18
    } else if c(0, 'R') && c(1, 'N') && c(2, 'D') && c(3, ' ') {
        22
    } else if c(0, 'D') && c(1, 'R') && c(2, 'W') && c(3, ' ') {
        23
    } else if c(0, 'S') && c(1, 'K') && c(2, 'P') && c(3, ' ') {
        24
    } else if c(0, 'S') && c(1, 'K') && c(2, 'N') && c(3, 'P') && c(4, ' ') {
        25
    } else {
        -1
    }
}

/// The mnemonic names the instruction's own operation by its standard name
/// (and operand form): reading the text back gives the operation.
#[verifier::rlimit(60)]
pub proof fn lemma_operation_readable(op: Opcode)
    requires
        op.wf(),
    ensures
        operation_of_text(mnemonic_text(op)) == operation(op),
{
    reveal_strlit("SYS ");
    reveal_strlit("CLS");
    reveal_strlit("RET");
    reveal_strlit("JP ");
    reveal_strlit("CALL ");
    reveal_strlit("SE ");
    reveal_strlit("SNE ");
    reveal_strlit("LD ");
    reveal_strlit("ADD ");
    reveal_strlit("OR ");
    reveal_strlit("AND ");
    reveal_strlit("XOR ");
    reveal_strlit("SUB ");
    reveal_strlit("SHR ");
    reveal_strlit("SUBN ");
    reveal_strlit("SHL ");
    reveal_strlit("LD I, ");
    reveal_strlit("JP V0, ");
    reveal_strlit("RND ");
    reveal_strlit("DRW ");
    reveal_strlit("SKP ");
    reveal_strlit("SKNP ");
    reveal_strlit("LD DT, ");
    reveal_strlit("LD ST, ");
    reveal_strlit("ADD I, ");
    reveal_strlit("LD F, ");
    reveal_strlit("LD B, ");
    reveal_strlit("LD [I], ");
    reveal_strlit(", ");
    reveal_strlit(", DT");
    reveal_strlit(", K");
    reveal_strlit(", [I]");
    reveal_strlit("V");
    reveal_strlit("0x");
}

/// Instructions of different operations never render alike: equal mnemonics
/// mean the same operation (`AND V1, V2` is never `OR V1, V2`).
pub proof fn lemma_mnemonic_names_operation(a: Opcode, b: Opcode)
    requires
        a.wf(),
        b.wf(),
        mnemonic_text(a) == mnemonic_text(b),
    ensures
        operation(a) == operation(b),
{
    lemma_operation_readable(a);
    lemma_operation_readable(b);
}

fn push_reg(s: &mut String, x: u8)
    ensures
        final(s)@ == old(s)@ + reg_text(x),
{
    let ghost before = s@;
    s.append("V");
    push_digits(s, x as u16, 16, 1);
    assert(s@ =~= before + reg_text(x));
}

fn push_hex(s: &mut String, n: u16, width: u32)
    requires
        width <= 5,
    ensures
        final(s)@ == old(s)@ + hex_text(n as int, width as int),
{
    let ghost before = s@;
    s.append("0x");
    push_digits(s, n, 16, width);
    assert(s@ =~= before + hex_text(n as int, width as int));
}

impl Opcode {
    /// The assembly-language form of the instruction; see [`mnemonic_text`].
    pub fn mnemonic(&self) -> (r: String)
        ensures
            r@ == mnemonic_text(*self),
    {
        match *self {
            Opcode::Sys(a) => {
                let mut s = String::from_str("SYS ");
                push_hex(&mut s, a as u16, 3);
                s
            },
            Opcode::Cls => {
                let mut s = String::from_str("CLS");
                s
            },
            Opcode::Ret => {
                let mut s = String::from_str("RET");
                s
            },
            Opcode::Jp(a) => {
                let mut s = String::from_str("JP ");
                push_hex(&mut s, a as u16, 3);
                s
            },
            Opcode::Call(a) => {
                let mut s = String::from_str("CALL ");
                push_hex(&mut s, a as u16, 3);
                s
            },
            Opcode::SeVxByte(x, kk) => {
                let mut s = String::from_str("SE ");
                push_reg(&mut s, x);
                s.append(", ");
                push_hex(&mut s, kk as u16, 2);
                s
            },
            Opcode::SneVxByte(x, kk) => {
                let mut s = String::from_str("SNE ");
                push_reg(&mut s, x);
                s.append(", ");
                push_hex(&mut s, kk as u16, 2);
                s
            },
            Opcode::SeVxVy(x, y) => {
                let mut s = String::from_str("SE ");
                push_reg(&mut s, x);
                s.append(", ");
                push_reg(&mut s, y);
                s
            },
            Opcode::LdVxByte(x, kk) => {
                let mut s = String::from_str("LD ");
                push_reg(&mut s, x);
                s.append(", ");
                push_hex(&mut s, kk as u16, 2);
                s
            },
            Opcode::AddVxByte(x, kk) => {
                let mut s = String::from_str("ADD ");
                push_reg(&mut s, x);
                s.append(", ");
                push_hex(&mut s, kk as u16, 2);
                s
            },
            Opcode::LdVxVy(x, y) => {
                let mut s = String::from_str("LD ");
                push_reg(&mut s, x);
                s.append(", ");
                push_reg(&mut s, y);
                s
            },
            Opcode::OrVxVy(x, y) => {
                let mut s = String::from_str("OR ");
                push_reg(&mut s, x);
                s.append(", ");
                push_reg(&mut s, y);
                s
            },
            Opcode::AndVxVy(x, y) => {
                let mut s = String::from_str("AND ");
                push_reg(&mut s, x);
                s.append(", ");
                push_reg(&mut s, y);
                s
            },
            Opcode::XorVxVy(x, y) => {
                let mut s = String::from_str("XOR ");
                push_reg(&mut s, x);
                s.append(", ");
                push_reg(&mut s, y);
                s
            },
            Opcode::AddVxVy(x, y) => {
                let mut s = String::from_str("ADD ");
                push_reg(&mut s, x);
                s.append(", ");
                push_reg(&mut s, y);
                s
            },
            Opcode::SubVxVy(x, y) => {
                let mut s = String::from_str("SUB ");
                push_reg(&mut s, x);
                s.append(", ");
                push_reg(&mut s, y);
                s
            },
            Opcode::ShrVxVy(x, _y) => {
                let mut s = String::from_str("SHR ");
                push_reg(&mut s, x);
                s
            },
            Opcode::SubnVxVy(x, y) => {
                let mut s = String::from_str("SUBN ");
                push_reg(&mut s, x);
                s.append(", ");
                push_reg(&mut s, y);
                s
            },
            Opcode::ShlVxVy(x, _y) => {
                let mut s = String::from_str("SHL ");
                push_reg(&mut s, x);
                s
            },
            Opcode::SneVxVy(x, y) => {
                let mut s = String::from_str("SNE ");
                push_reg(&mut s, x);
                s.append(", ");
                push_reg(&mut s, y);
                s
            },
            Opcode::LdI(a) => {
                let mut s = String::from_str("LD I, ");
                push_hex(&mut s, a as u16, 3);
                s
            },
            Opcode::JpV0(a) => {
                let mut s = String::from_str("JP V0, ");
                push_hex(&mut s, a as u16, 3);
                s
            },
            Opcode::Rnd(x, kk) => {
                let mut s = String::from_str("RND ");
                push_reg(&mut s, x);
                s.append(", ");
                push_hex(&mut s, kk as u16, 2);
                s
            },
            Opcode::Drw(x, y, n) => {
                let mut s = String::from_str("DRW ");
                push_reg(&mut s, x);
                s.append(", ");
                push_reg(&mut s, y);
                s.append(", ");
                push_digits(&mut s, n as u16, 10, 1);
                s
            },
            Opcode::Skp(x) => {
                let mut s = String::from_str("SKP ");
                push_reg(&mut s, x);
                s
            },
            Opcode::Sknp(x) => {
                let mut s = String::from_str("SKNP ");
                push_reg(&mut s, x);
                s
            },
            Opcode::LdVxDt(x) => {
                let mut s = String::from_str("LD ");
                push_reg(&mut s, x);
                s.append(", DT");
                s
            },
            Opcode::LdVxK(x) => {
                let mut s = String::from_str("LD ");
                push_reg(&mut s, x);
                s.append(", K");
                s
            },
            Opcode::LdDtVx(x) => {
                let mut s = String::from_str("LD DT, ");
                push_reg(&mut s, x);
                s
            },
            Opcode::LdStVx(x) => {
                let mut s = String::from_str("LD ST, ");
                push_reg(&mut s, x);
                s
            },
            Opcode::AddIVx(x) => {
                let mut s = String::from_str("ADD I, ");
                push_reg(&mut s, x);
                s
            },
            Opcode::LdF(x) => {
                let mut s = String::from_str("LD F, ");
                push_reg(&mut s, x);
                s
            },
            Opcode::LdB(x) => {
                let mut s = String::from_str("LD B, ");
                push_reg(&mut s, x);
                s
            },
            Opcode::LdIVx(x) => {
                let mut s = String::from_str("LD [I], ");
                push_reg(&mut s, x);
                s
            },
            Opcode::LdVxI(x) => {
                let mut s = String::from_str("LD ");
                push_reg(&mut s, x);
                s.append(", [I]");
                s
            },
        }
    }
}

} // verus!
