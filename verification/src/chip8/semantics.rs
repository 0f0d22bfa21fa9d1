//! What each instruction does, stated over the abstract machine state.
//!
//! [`execute_result`] gives, for a decoded instruction, the outcome and the
//! machine state after it; [`tick_result`] gives the same for one CPU cycle
//! (fetch, decode, execute, or one step of a key wait). The CPU's `execute`
//! and `tick` are proved to behave exactly so.

use vstd::prelude::*;

use super::config::{Quirks, I_INCREMENT, I_OVERFLOW_VF, JUMP_VX, KEY_RELEASE, SHIFT_VY,
    SPRITE_WRAP, VF_RESET};
use super::cpu::{CpuError, CpuState, FONT_ADDR, MAX_PC};
use super::display::{blank, draw_result};
use super::keypad::{first_pressed, key_down};
use super::memory::{MemoryError, MEMORY_SIZE};
use super::opcode::{decode_word, Opcode};
use super::stack::{StackError, STACK_SIZE};

verus! {

/// Index of the flag register VF.
pub const VF: usize = 15;

/// The whole machine as the instructions see it.
#[verifier::ext_equal]
pub struct MachineState {
    /// Registers V0..=VF.
    pub v: Seq<u8>,
    /// The index register I.
    pub i: u16,
    /// The program counter.
    pub pc: u16,
    /// Running, waiting for a key, or halted.
    pub state: CpuState,
    /// The state of the random number generator.
    pub rng: u32,
    /// The bytes of memory.
    pub ram: Seq<u8>,
    /// The return addresses on the call stack, bottom first.
    pub stack: Seq<u16>,
    /// The delay timer.
    pub delay: u8,
    /// The sound timer.
    pub sound: u8,
    /// The display, row after row.
    pub pixels: Seq<bool>,
}

/// `n` reduced to a byte, as wrapping arithmetic does.
pub open spec fn wrap8(n: int) -> u8 {
    (n % 256) as u8
}

/// `n` reduced to 16 bits, as wrapping arithmetic does.
pub open spec fn wrap16(n: int) -> u16 {
    (n % 65536) as u16
}

/// One step of the xorshift32 generator.
pub open spec fn xorshift32(s: u32) -> u32 {
    let a = s ^ (s << 13u32);
    let b = a ^ (a >> 17u32);
    b ^ (b << 5u32)
}

/// `count` bytes from address `i` on lie inside memory.
pub open spec fn block_fits(i: u16, count: int) -> bool {
    i + count <= MEMORY_SIZE
}

/// The first address out of memory of a block starting at `i` that does not fit.
pub open spec fn first_bad_addr(i: u16) -> u16 {
    if (i as int) >= MEMORY_SIZE {
        i
    } else {
        MEMORY_SIZE as u16
    }
}

/// Digit `k` (0: hundreds, 1: tens, 2: ones) of the decimal form of `val`.
pub open spec fn bcd_digit(val: u8, k: int) -> u8 {
    if k == 0 {
        val / 100
    } else if k == 1 {
        (val / 10) % 10
    } else {
        val % 10
    }
}

/// Memory after storing the decimal digits of `val` from `i` on, as far as memory reaches.
pub open spec fn bcd_ram(ram: Seq<u8>, i: u16, val: u8) -> Seq<u8> {
    Seq::new(ram.len(), |a: int| if i <= a < i + 3 { bcd_digit(val, a - i) } else { ram[a] })
}

/// Memory after storing the first `count` registers from `i` on, as far as memory reaches.
pub open spec fn stored_ram(ram: Seq<u8>, v: Seq<u8>, i: u16, count: int) -> Seq<u8> {
    Seq::new(ram.len(), |a: int| if i <= a < i + count { v[a - i] } else { ram[a] })
}

/// Registers after loading the first `count` of them from `i` on, as far as memory reaches.
pub open spec fn loaded_regs(v: Seq<u8>, ram: Seq<u8>, i: u16, count: int) -> Seq<u8> {
    Seq::new(
        v.len(),
        |k: int| if k < count && i + k < MEMORY_SIZE { ram[i + k] } else { v[k] },
    )
}

/// The outcome of a block access of `count` bytes from `i`.
pub open spec fn block_outcome(i: u16, count: int) -> Result<(), CpuError> {
    if block_fits(i, count) {
        Ok(())
    } else {
        Err(CpuError::Memory(MemoryError::OutOfBounds(first_bad_addr(i))))
    }
}

/// The register a shift reads: VY under the shift quirk, VX otherwise.
pub open spec fn shift_source(v: Seq<u8>, x: u8, y: u8, quirks: Quirks) -> u8 {
    if quirks.flag(SHIFT_VY) {
        v[y as int]
    } else {
        v[x as int]
    }
}

/// Registers after 8XY6: the source shifted right into VX, the bit shifted out into VF.
pub open spec fn shr_regs(v: Seq<u8>, x: u8, y: u8, quirks: Quirks) -> Seq<u8> {
    let src = shift_source(v, x, y, quirks);
    v.update(x as int, src / 2).update(VF as int, src % 2)
}

/// Registers after 8XYE: the source shifted left into VX, the bit shifted out into VF.
pub open spec fn shl_regs(v: Seq<u8>, x: u8, y: u8, quirks: Quirks) -> Seq<u8> {
    let src = shift_source(v, x, y, quirks);
    v.update(x as int, wrap8(src * 2)).update(VF as int, src / 128)
}

/// Registers after a logic instruction put `result` in VX; VF is cleared under the reset quirk.
pub open spec fn logic_regs(v: Seq<u8>, x: u8, result: u8, quirks: Quirks) -> Seq<u8> {
    if quirks.flag(VF_RESET) {
        v.update(x as int, result).update(VF as int, 0)
    } else {
        v.update(x as int, result)
    }
}

/// 1 for true, 0 for false.
pub open spec fn flag_value(b: bool) -> u8 {
    if b {
        1
    } else {
        0
    }
}

/// The jump target of BNNN: NNN plus V0, or plus VX (X the top nibble of NNN) under the jump quirk.
pub open spec fn jump_target(v: Seq<u8>, addr: u16, quirks: Quirks) -> u16 {
    let reg = if quirks.flag(JUMP_VX) {
        (addr / 256) % 16
    } else {
        0
    };
    wrap16(addr + v[reg as int])
}

/// The number of sprite rows of DXYN: N, or 16 when N is zero.
pub open spec fn sprite_rows(n: u8) -> int {
    if n == 0 {
        16
    } else {
        n as int
    }
}

/// `s` with the program counter moved past the next instruction when `cond` holds.
pub open spec fn skip_if(s: MachineState, cond: bool) -> MachineState {
    if cond {
        MachineState { pc: wrap16(s.pc + 2), ..s }
    } else {
        s
    }
}

/// `s` with register `x` set to `val`.
pub open spec fn set_reg(s: MachineState, x: u8, val: u8) -> MachineState {
    MachineState { v: s.v.update(x as int, val), ..s }
}

/// The outcome of DXYN and the state after it.
pub open spec fn sprite_result(s: MachineState, x: u8, y: u8, n: u8, quirks: Quirks) -> (
    Result<(), CpuError>,
    MachineState,
) {
    let rows = sprite_rows(n);
    if !block_fits(s.i, rows) {
        (block_outcome(s.i, rows), s)
    } else {
        let sprite = s.ram.subrange(s.i as int, s.i + rows);
        let (pixels, hit) = draw_result(
            s.pixels,
            s.v[x as int],
            s.v[y as int],
            sprite,
            quirks.flag(SPRITE_WRAP),
        );
        (Ok(()), MachineState { pixels, v: s.v.update(VF as int, flag_value(hit)), ..s })
    }
}

/// The outcome of a completed FX0A: key `key` goes to register `reg` and execution
/// resumes at the instruction after FX0A, where the program counter already stands.
pub open spec fn key_wait_done(s: MachineState, reg: u8, key: u8) -> MachineState {
    MachineState { v: s.v.update(reg as int, key), state: CpuState::Running, ..s }
}

/// The outcome of `op` on `s` with the keys `keys` and the given quirks, and
/// the state after it. On an error the state holds what was done before it.
#[verifier::opaque]
pub open spec fn execute_result(s: MachineState, op: Opcode, keys: Seq<bool>, quirks: Quirks) -> (
    Result<(), CpuError>,
    MachineState,
) {
    let v = s.v;
    match op {
        Opcode::Sys(_) => (Ok(()), s),
        Opcode::Cls => (Ok(()), MachineState { pixels: blank(), ..s }),
        Opcode::Ret => if s.stack.len() == 0 {
            (Err(CpuError::Stack(StackError::Underflow)), s)
        } else {
            (Ok(()), MachineState { pc: s.stack.last(), stack: s.stack.drop_last(), ..s })
        },
        Opcode::Jp(addr) => (Ok(()), MachineState { pc: addr, ..s }),
        Opcode::Call(addr) => if s.stack.len() >= STACK_SIZE {
            (Err(CpuError::Stack(StackError::Overflow)), s)
        } else {
            (Ok(()), MachineState { pc: addr, stack: s.stack.push(s.pc), ..s })
        },
        Opcode::SeVxByte(x, kk) => (Ok(()), skip_if(s, v[x as int] == kk)),
        Opcode::SneVxByte(x, kk) => (Ok(()), skip_if(s, v[x as int] != kk)),
        Opcode::SeVxVy(x, y) => (Ok(()), skip_if(s, v[x as int] == v[y as int])),
        Opcode::LdVxByte(x, kk) => (Ok(()), set_reg(s, x, kk)),
        Opcode::AddVxByte(x, kk) => (Ok(()), set_reg(s, x, wrap8(v[x as int] + kk))),
        Opcode::LdVxVy(x, y) => (Ok(()), set_reg(s, x, v[y as int])),
        Opcode::OrVxVy(x, y) => (
            Ok(()),
            MachineState { v: logic_regs(v, x, v[x as int] | v[y as int], quirks), ..s },
        ),
        Opcode::AndVxVy(x, y) => (
            Ok(()),
            MachineState { v: logic_regs(v, x, v[x as int] & v[y as int], quirks), ..s },
        ),
        Opcode::XorVxVy(x, y) => (
            Ok(()),
            MachineState { v: logic_regs(v, x, v[x as int] ^ v[y as int], quirks), ..s },
        ),
        Opcode::AddVxVy(x, y) => {
            let sum = v[x as int] + v[y as int];
            (
                Ok(()),
                MachineState {
                    v: v.update(x as int, wrap8(sum)).update(VF as int, flag_value(sum > 255)),
                    ..s
                },
            )
        },
        Opcode::SubVxVy(x, y) => (
            Ok(()),
            MachineState {
                v: v.update(x as int, wrap8(v[x as int] - v[y as int])).update(
                    VF as int,
                    flag_value(v[x as int] >= v[y as int]),
                ),
                ..s
            },
        ),
        Opcode::ShrVxVy(x, y) => (Ok(()), MachineState { v: shr_regs(v, x, y, quirks), ..s }),
        Opcode::SubnVxVy(x, y) => (
            Ok(()),
            MachineState {
                v: v.update(x as int, wrap8(v[y as int] - v[x as int])).update(
                    VF as int,
                    flag_value(v[y as int] >= v[x as int]),
                ),
                ..s
            },
        ),
        Opcode::ShlVxVy(x, y) => (Ok(()), MachineState { v: shl_regs(v, x, y, quirks), ..s }),
        Opcode::SneVxVy(x, y) => (Ok(()), skip_if(s, v[x as int] != v[y as int])),
        Opcode::LdI(addr) => (Ok(()), MachineState { i: addr, ..s }),
        Opcode::JpV0(addr) => (Ok(()), MachineState { pc: jump_target(v, addr, quirks), ..s }),
        Opcode::Rnd(x, kk) => {
            let rng = xorshift32(s.rng);
            (Ok(()), MachineState { rng, v: v.update(x as int, (rng % 256) as u8 & kk), ..s })
        },
        Opcode::Drw(x, y, n) => sprite_result(s, x, y, n, quirks),
        Opcode::Skp(x) => (Ok(()), skip_if(s, key_down(keys, v[x as int]))),
        Opcode::Sknp(x) => (Ok(()), skip_if(s, !key_down(keys, v[x as int]))),
        Opcode::LdVxDt(x) => (Ok(()), set_reg(s, x, s.delay)),
        Opcode::LdVxK(x) => {
            let state = if quirks.flag(KEY_RELEASE) && first_pressed(keys) is Some {
                CpuState::WaitingForKeyRelease(x, first_pressed(keys).unwrap())
            } else {
                CpuState::WaitingForKey(x)
            };
            (Ok(()), MachineState { state, ..s })
        },
        Opcode::LdDtVx(x) => (Ok(()), MachineState { delay: v[x as int], ..s }),
        Opcode::LdStVx(x) => (Ok(()), MachineState { sound: v[x as int], ..s }),
        Opcode::AddIVx(x) => {
            let i = wrap16(s.i + v[x as int]);
            let v2 = if quirks.flag(I_OVERFLOW_VF) && i > 0xFFF {
                v.update(VF as int, 1)
            } else {
                v
            };
            (Ok(()), MachineState { i, v: v2, ..s })
        },
        Opcode::LdF(x) => (Ok(()), MachineState { i: (FONT_ADDR + v[x as int] * 5) as u16, ..s }),
        Opcode::LdB(x) => (
            block_outcome(s.i, 3),
            MachineState { ram: bcd_ram(s.ram, s.i, v[x as int]), ..s },
        ),
        Opcode::LdIVx(x) => {
            let count = x + 1;
            let i = if block_fits(s.i, count) && quirks.flag(I_INCREMENT) {
                wrap16(s.i + count)
            } else {
                s.i
            };
            (block_outcome(s.i, count), MachineState { ram: stored_ram(s.ram, v, s.i, count), i, ..s })
        },
        Opcode::LdVxI(x) => {
            let count = x + 1;
            let i = if block_fits(s.i, count) && quirks.flag(I_INCREMENT) {
                wrap16(s.i + count)
            } else {
                s.i
            };
            (block_outcome(s.i, count), MachineState { v: loaded_regs(v, s.ram, s.i, count), i, ..s })
        },
    }
}

/// The instruction word at the program counter.
pub open spec fn fetched_word(s: MachineState) -> u16 {
    (s.ram[s.pc as int] * 256 + s.ram[s.pc + 1]) as u16
}

/// The outcome of one CPU cycle on `s` with the keys `keys`, and the state after it.
pub open spec fn tick_result(s: MachineState, keys: Seq<bool>, quirks: Quirks) -> (
    Result<(), CpuError>,
    MachineState,
) {
    match s.state {
        CpuState::Halted => (Ok(()), s),
        CpuState::WaitingForKey(reg) => match first_pressed(keys) {
            None => (Ok(()), s),
            Some(key) => if quirks.flag(KEY_RELEASE) {
                (Ok(()), MachineState { state: CpuState::WaitingForKeyRelease(reg, key), ..s })
            } else {
                (Ok(()), key_wait_done(s, reg, key))
            },
        },
        CpuState::WaitingForKeyRelease(reg, key) => if !key_down(keys, key) {
            (Ok(()), key_wait_done(s, reg, key))
        } else {
            (Ok(()), s)
        },
        CpuState::Running => if s.pc > MAX_PC {
            (Err(CpuError::InvalidProgramCounter(s.pc)), s)
        } else {
            match decode_word(fetched_word(s)) {
                Err(e) => (Err(CpuError::Opcode(e)), s),
                Ok(op) => execute_result(
                    MachineState { pc: wrap16(s.pc + 2), ..s },
                    op,
                    keys,
                    quirks,
                ),
            }
        },
    }
}

/// Whether the cycle from `s` executes a DXYN: the CPU runs and the word at
/// the program counter decodes to a draw.
pub open spec fn draws_next(s: MachineState) -> bool {
    &&& s.state == CpuState::Running
    &&& s.pc <= MAX_PC
    &&& decode_word(fetched_word(s)) matches Ok(Opcode::Drw(_, _, _))
}

/// The shape every reachable state has: 16 registers, full memory and
/// display, at most 16 return addresses, and waits naming a real register.
pub open spec fn machine_wf(s: MachineState) -> bool {
    &&& s.v.len() == 16
    &&& s.ram.len() == MEMORY_SIZE
    &&& s.pixels.len() == super::display::PIXEL_COUNT
    &&& s.stack.len() <= STACK_SIZE
    &&& s.state.wf()
}

} // verus!
