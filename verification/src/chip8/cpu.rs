//! The CPU: registers, index register, program counter and execution state.
//!
//! Each call of [`Cpu::tick`] performs one instruction cycle: while halted it
//! does nothing; while waiting for a key it checks the keypad; otherwise it
//! validates the program counter, fetches the 2-byte instruction, decodes
//! it, advances the program counter by 2 and executes the instruction.
//! Quirk flags select the platform-dependent behavior of a few opcodes.

use vstd::prelude::*;

use super::clock::clock_nanos;
use super::config::Quirks;
use super::display::Display;
use super::keypad::Keypad;
use super::memory::{Memory, MemoryError};
use super::opcode::{Opcode, OpcodeError};
use super::semantics::{
    bcd_ram, block_fits, flag_value, wrap8, block_outcome, execute_result, jump_target, loaded_regs, logic_regs,
    shl_regs, shr_regs, sprite_result, sprite_rows, stored_ram, tick_result, wrap16, xorshift32,
    MachineState, VF,
};
use super::stack::{Stack, StackError};
use super::timers::Timers;

verus! {

broadcast use {
    super::memory::Memory::lemma_view_len,
    super::display::Display::lemma_view_len,
    super::keypad::Keypad::lemma_view_len,
};

/// The font sprites are stored from this address on.
pub const FONT_ADDR: u16 = 0x050;

/// The program counter starts at this address, where programs are loaded.
pub const PROGRAM_START: u16 = 0x200;

/// The largest program counter from which a 2-byte instruction can be fetched.
pub const MAX_PC: u16 = 0xFFE;

/// An error of CPU execution.
#[derive(Debug, Clone, Copy, PartialEq, Eq, Structural)]
#[non_exhaustive]
pub enum CpuError {
    /// A stack operation failed (overflow or underflow).
    Stack(StackError),
    /// The program counter points where no instruction can be fetched.
    InvalidProgramCounter(u16),
    /// A memory access failed.
    Memory(MemoryError),
    /// The fetched word is no instruction.
    Opcode(OpcodeError),
}

/// The execution state of the CPU.
#[derive(Debug, Clone, Copy, PartialEq, Eq, Structural)]
pub enum CpuState {
    /// Executing instructions.
    Running,
    /// Waiting for a key press (FX0A); the register receives the key.
    WaitingForKey(u8),
    /// Waiting for the release of the key already seen (FX0A under the key
    /// release quirk): the register and the key.
    WaitingForKeyRelease(u8, u8),
    /// Stopped.
    Halted,
}

impl CpuState {
    /// A wait names one of the 16 registers.
    pub open spec fn wf(self) -> bool {
        match self {
            CpuState::WaitingForKey(reg) => reg < 16,
            CpuState::WaitingForKeyRelease(reg, _) => reg < 16,
            _ => true,
        }
    }
}

/// The registers and execution state of the CPU.
#[derive(Debug, PartialEq, Eq)]
pub struct Cpu {
    /// Registers V0..=VF; VF doubles as the carry, borrow and collision flag.
    pub v: [u8; 16],
    /// The index register I.
    pub i: u16,
    /// The program counter.
    pub pc: u16,
    /// The execution state.
    pub state: CpuState,
    /// The xorshift32 state of the random number generator.
    pub rng_state: u32,
}

/// The machine made of `cpu` and the views of the other components.
pub open spec fn machine_of(
    cpu: Cpu,
    ram: Seq<u8>,
    stack: Seq<u16>,
    timers: Timers,
    pixels: Seq<bool>,
) -> MachineState {
    MachineState {
        v: cpu.v@,
        i: cpu.i,
        pc: cpu.pc,
        state: cpu.state,
        rng: cpu.rng_state,
        ram,
        stack,
        delay: timers.delay,
        sound: timers.sound,
        pixels,
    }
}

/// The generator's seed for a clock reading of `nanos` nanoseconds: its low
/// 32 bits plus one, wrapping, so that the usual readings give a non-zero state.
pub open spec fn clock_seed(nanos: u128) -> u32 {
    ((nanos % 0x1_0000_0000 + 1) % 0x1_0000_0000) as u32
}

/// Computes [`clock_seed`] of a clock reading.
pub fn seed_from_nanos(nanos: u128) -> (r: u32)
    ensures
        r == clock_seed(nanos),
{
    let low = nanos as u32;
    assert(low == nanos % 0x1_0000_0000) by (bit_vector)
        requires
            low == nanos as u32,
    ;
    low.wrapping_add(1)
}

impl Cpu {
    /// The execution state names a real register.
    pub open spec fn wf(self) -> bool {
        self.state.wf()
    }

    /// The power-on state, whatever the generator's seed.
    pub open spec fn is_initial(self) -> bool {
        &&& self.v@ == Seq::new(16, |k: int| 0u8)
        &&& self.i == 0
        &&& self.pc == PROGRAM_START
        &&& self.state == CpuState::Running
    }

    /// Creates a CPU in its power-on state, the generator seeded from the
    /// clock; see [`Cpu::with_clock_reading`].
    pub fn new() -> (r: Cpu)
        ensures
            r.is_initial(),
            r.wf(),
    {
        Cpu::with_clock_reading(clock_nanos())
    }

    /// Creates a CPU in its power-on state with the generator seeded from a
    /// clock reading of `nanos` nanoseconds since the Unix epoch.
    pub fn with_clock_reading(nanos: u128) -> (r: Cpu)
        ensures
            r.is_initial(),
            r.wf(),
            r.rng_state == clock_seed(nanos),
    {
        let r = Cpu {
            v: [0; 16],
            i: 0,
            pc: PROGRAM_START,
            state: CpuState::Running,
            rng_state: seed_from_nanos(nanos),
        };
        assert(r.v@ =~= Seq::new(16, |k: int| 0u8));
        r
    }

    /// Puts the CPU back in its power-on state, reseeding the generator.
    pub fn reset(&mut self)
        ensures
            final(self).is_initial(),
            final(self).wf(),
    {
        *self = Cpu::new();
    }

    /// The execution state.
    pub fn state(&self) -> (r: CpuState)
        ensures
            r == self.state,
    {
        self.state
    }

    /// The registers V0..=VF.
    pub fn registers(&self) -> (r: &[u8; 16])
        ensures
            r@ == self.v@,
    {
        &self.v
    }

    /// The program counter.
    pub fn program_counter(&self) -> (r: u16)
        ensures
            r == self.pc,
    {
        self.pc
    }

    /// The index register.
    pub fn index(&self) -> (r: u16)
        ensures
            r == self.i,
    {
        self.i
    }
}

impl Cpu {
    /// Executes one instruction cycle: a key-wait step, or fetch, decode and
    /// execute at the program counter. The outcome and the new state of every
    /// component are those of [`tick_result`].
    pub fn tick(
        &mut self,
        memory: &mut Memory,
        keypad: &Keypad,
        stack: &mut Stack,
        timers: &mut Timers,
        display: &mut Display,
        quirks: Quirks,
    ) -> (r: Result<(), CpuError>)
        requires
            old(self).wf(),
        ensures
            final(self).wf(),
            ({
                let (res, post) = tick_result(
                    machine_of(*old(self), old(memory)@, old(stack)@, *old(timers), old(display)@),
                    keypad@,
                    quirks,
                );
                &&& r == res
                &&& machine_of(
                    *final(self),
                    final(memory)@,
                    final(stack)@,
                    *final(timers),
                    final(display)@,
                ) == post
            }),
    {
        match self.state {
            CpuState::Halted => return Ok(()),
            CpuState::WaitingForKey(reg) => {
                // FX0A: the fetch already moved the program counter past the
                // instruction, so execution resumes right after it once a key comes.
                if let Some(key) = keypad.get_key_pressed() {
                    if quirks.contains(Quirks::key_release()) {
                        self.state = CpuState::WaitingForKeyRelease(reg, key);
                    } else {
                        self.v[reg as usize] = key;
                        self.state = CpuState::Running;
                    }
                }
                return Ok(());
            },
            CpuState::WaitingForKeyRelease(reg, key) => {
                // FX0A under the key release quirk: complete once the key is released.
                if !keypad.is_key_pressed(key) {
                    self.v[reg as usize] = key;
                    self.state = CpuState::Running;
                }
                return Ok(());
            },
            CpuState::Running => {},
        }

        // Past MAX_PC the second byte of the instruction lies outside memory.
        if self.pc > MAX_PC {
            return Err(CpuError::InvalidProgramCounter(self.pc));
        }
        let opcode_word = match memory.read_word(self.pc) {
            Ok(w) => w,
            Err(e) => return Err(CpuError::Memory(e)),
        };
        let opcode = match Opcode::decode(opcode_word) {
            Ok(op) => op,
            Err(e) => return Err(CpuError::Opcode(e)),
        };
        // Advance past the instruction; control flow instructions override this.
        self.pc = self.pc.wrapping_add(2);
        self.execute(opcode, memory, keypad, stack, timers, display, quirks)
    }

    /// Executes a decoded instruction. The outcome and the new state of every
    /// component are those of [`execute_result`]; control flow instructions
    /// set the program counter, skips add 2 to it.
    pub fn execute(
        &mut self,
        opcode: Opcode,
        memory: &mut Memory,
        keypad: &Keypad,
        stack: &mut Stack,
        timers: &mut Timers,
        display: &mut Display,
        quirks: Quirks,
    ) -> (r: Result<(), CpuError>)
        requires
            old(self).wf(),
            opcode.wf(),
        ensures
            final(self).wf(),
            ({
                let (res, post) = execute_result(
                    machine_of(*old(self), old(memory)@, old(stack)@, *old(timers), old(display)@),
                    opcode,
                    keypad@,
                    quirks,
                );
                &&& r == res
                &&& machine_of(
                    *final(self),
                    final(memory)@,
                    final(stack)@,
                    *final(timers),
                    final(display)@,
                ) == post
            }),
    {
        match opcode {
            Opcode::Sys(_) | Opcode::Cls | Opcode::Ret | Opcode::Jp(_) | Opcode::Call(_)
            | Opcode::SeVxByte(_, _) | Opcode::SneVxByte(_, _) | Opcode::SeVxVy(_, _)
            | Opcode::SneVxVy(_, _) | Opcode::JpV0(_) | Opcode::Skp(_) | Opcode::Sknp(_) => {
                self.execute_flow(opcode, memory, keypad, stack, timers, display, quirks)
            },
            Opcode::LdVxByte(_, _) | Opcode::AddVxByte(_, _) | Opcode::LdVxVy(_, _)
            | Opcode::OrVxVy(_, _) | Opcode::AndVxVy(_, _) | Opcode::XorVxVy(_, _)
            | Opcode::AddVxVy(_, _) | Opcode::SubVxVy(_, _) | Opcode::ShrVxVy(_, _)
            | Opcode::SubnVxVy(_, _) | Opcode::ShlVxVy(_, _) | Opcode::Rnd(_, _) => {
                self.execute_alu(opcode, memory, keypad, stack, timers, display, quirks)
            },
            Opcode::Drw(_, _, _) | Opcode::LdB(_) | Opcode::LdIVx(_) | Opcode::LdVxI(_) => {
                self.execute_memory(opcode, memory, keypad, stack, timers, display, quirks)
            },
            _ => self.execute_misc(opcode, memory, keypad, stack, timers, display, quirks),
        }
    }

    /// Executes a control flow instruction: jumps, calls, returns and skips.
    #[verifier::spinoff_prover]
    fn execute_flow(
        &mut self,
        opcode: Opcode,
        memory: &mut Memory,
        keypad: &Keypad,
        stack: &mut Stack,
        timers: &mut Timers,
        display: &mut Display,
        quirks: Quirks,
    ) -> (r: Result<(), CpuError>)
        requires
            old(self).wf(),
            opcode.wf(),
            opcode is Sys || opcode is Cls || opcode is Ret || opcode is Jp || opcode is Call || opcode is SeVxByte || opcode is SneVxByte || opcode is SeVxVy || opcode is SneVxVy || opcode is JpV0 || opcode is Skp || opcode is Sknp,
        ensures
            final(self).wf(),
            ({
                let (res, post) = execute_result(
                    machine_of(*old(self), old(memory)@, old(stack)@, *old(timers), old(display)@),
                    opcode,
                    keypad@,
                    quirks,
                );
                &&& r == res
                &&& machine_of(
                    *final(self),
                    final(memory)@,
                    final(stack)@,
                    *final(timers),
                    final(display)@,
                ) == post
            }),
    {
        proof {
            reveal(execute_result);
        }
        match opcode {
            Opcode::Sys(_addr) => {},
            Opcode::Cls => {
                display.clear();
            },
            Opcode::Ret => {
                match stack.pop() {
                    Ok(addr) => self.pc = addr,
                    Err(e) => return Err(CpuError::Stack(e)),
                }
            },
            Opcode::Jp(addr) => {
                self.pc = addr;
            },
            Opcode::Call(addr) => {
                match stack.push(self.pc) {
                    Ok(()) => self.pc = addr,
                    Err(e) => return Err(CpuError::Stack(e)),
                }
            },
            Opcode::SeVxByte(x, kk) => {
                if self.v[x as usize] == kk {
                    self.pc = self.pc.wrapping_add(2);
                }
            },
            Opcode::SneVxByte(x, kk) => {
                if self.v[x as usize] != kk {
                    self.pc = self.pc.wrapping_add(2);
                }
            },
            Opcode::SeVxVy(x, y) => {
                if self.v[x as usize] == self.v[y as usize] {
                    self.pc = self.pc.wrapping_add(2);
                }
            },
            Opcode::SneVxVy(x, y) => {
                if self.v[x as usize] != self.v[y as usize] {
                    self.pc = self.pc.wrapping_add(2);
                }
            },
            Opcode::JpV0(addr) => self.execute_jump_v0(addr, quirks),
            Opcode::Skp(x) => {
                if keypad.is_key_pressed(self.v[x as usize]) {
                    self.pc = self.pc.wrapping_add(2);
                }
            },
            Opcode::Sknp(x) => {
                if !keypad.is_key_pressed(self.v[x as usize]) {
                    self.pc = self.pc.wrapping_add(2);
                }
            },
            _ => {},
        }
        Ok(())
    }

    /// Executes a register instruction: loads, arithmetic, logic, shifts and RND.
    #[verifier::spinoff_prover]
    fn execute_alu(
        &mut self,
        opcode: Opcode,
        memory: &mut Memory,
        keypad: &Keypad,
        stack: &mut Stack,
        timers: &mut Timers,
        display: &mut Display,
        quirks: Quirks,
    ) -> (r: Result<(), CpuError>)
        requires
            old(self).wf(),
            opcode.wf(),
            opcode is LdVxByte || opcode is AddVxByte || opcode is LdVxVy || opcode is OrVxVy || opcode is AndVxVy || opcode is XorVxVy || opcode is AddVxVy || opcode is SubVxVy || opcode is ShrVxVy || opcode is SubnVxVy || opcode is ShlVxVy || opcode is Rnd,
        ensures
            final(self).wf(),
            ({
                let (res, post) = execute_result(
                    machine_of(*old(self), old(memory)@, old(stack)@, *old(timers), old(display)@),
                    opcode,
                    keypad@,
                    quirks,
                );
                &&& r == res
                &&& machine_of(
                    *final(self),
                    final(memory)@,
                    final(stack)@,
                    *final(timers),
                    final(display)@,
                ) == post
            }),
    {
        proof {
            reveal(execute_result);
        }
        match opcode {
            Opcode::LdVxByte(x, kk) => {
                self.v[x as usize] = kk;
            },
            Opcode::AddVxByte(x, kk) => {
                self.v[x as usize] = self.v[x as usize].wrapping_add(kk);
            },
            Opcode::LdVxVy(x, y) => {
                self.v[x as usize] = self.v[y as usize];
            },
            Opcode::OrVxVy(x, y) => {
                let result = self.v[x as usize] | self.v[y as usize];
                self.execute_logic(x, result, quirks);
            },
            Opcode::AndVxVy(x, y) => {
                let result = self.v[x as usize] & self.v[y as usize];
                self.execute_logic(x, result, quirks);
            },
            Opcode::XorVxVy(x, y) => {
                let result = self.v[x as usize] ^ self.v[y as usize];
                self.execute_logic(x, result, quirks);
            },
            Opcode::AddVxVy(x, y) => self.execute_add(x, y),
            Opcode::SubVxVy(x, y) => self.execute_sub(x, y),
            Opcode::ShrVxVy(x, y) => self.execute_shr(x, y, quirks),
            Opcode::SubnVxVy(x, y) => self.execute_subn(x, y),
            Opcode::ShlVxVy(x, y) => self.execute_shl(x, y, quirks),
            Opcode::Rnd(x, kk) => self.execute_rnd(x, kk),
            _ => {},
        }
        Ok(())
    }

    /// Executes an instruction on I, the timers or the keypad.
    #[verifier::spinoff_prover]
    fn execute_misc(
        &mut self,
        opcode: Opcode,
        memory: &mut Memory,
        keypad: &Keypad,
        stack: &mut Stack,
        timers: &mut Timers,
        display: &mut Display,
        quirks: Quirks,
    ) -> (r: Result<(), CpuError>)
        requires
            old(self).wf(),
            opcode.wf(),
            !(opcode is Sys || opcode is Cls || opcode is Ret || opcode is Jp || opcode is Call || opcode is SeVxByte || opcode is SneVxByte || opcode is SeVxVy || opcode is SneVxVy || opcode is JpV0 || opcode is Skp || opcode is Sknp),
            !(opcode is LdVxByte || opcode is AddVxByte || opcode is LdVxVy || opcode is OrVxVy || opcode is AndVxVy || opcode is XorVxVy || opcode is AddVxVy || opcode is SubVxVy || opcode is ShrVxVy || opcode is SubnVxVy || opcode is ShlVxVy || opcode is Rnd),
            !(opcode is Drw || opcode is LdB || opcode is LdIVx || opcode is LdVxI),
        ensures
            final(self).wf(),
            ({
                let (res, post) = execute_result(
                    machine_of(*old(self), old(memory)@, old(stack)@, *old(timers), old(display)@),
                    opcode,
                    keypad@,
                    quirks,
                );
                &&& r == res
                &&& machine_of(
                    *final(self),
                    final(memory)@,
                    final(stack)@,
                    *final(timers),
                    final(display)@,
                ) == post
            }),
    {
        proof {
            reveal(execute_result);
        }
        match opcode {
            Opcode::LdI(addr) => {
                self.i = addr;
            },
            Opcode::LdVxDt(x) => {
                self.v[x as usize] = timers.delay;
            },
            Opcode::LdVxK(x) => {
                // The wait itself happens in `tick`.
                if quirks.contains(Quirks::key_release()) {
                    match keypad.get_key_pressed() {
                        Some(key) => self.state = CpuState::WaitingForKeyRelease(x, key),
                        None => self.state = CpuState::WaitingForKey(x),
                    }
                } else {
                    self.state = CpuState::WaitingForKey(x);
                }
            },
            Opcode::LdDtVx(x) => {
                timers.delay = self.v[x as usize];
            },
            Opcode::LdStVx(x) => {
                timers.sound = self.v[x as usize];
            },
            Opcode::AddIVx(x) => {
                let vx = self.v[x as usize] as u16;
                let result = self.i.wrapping_add(vx);
                if quirks.contains(Quirks::i_overflow_vf()) && result > 0xFFF {
                    self.v[VF] = 1;
                }
                self.i = result;
            },
            Opcode::LdF(x) => {
                // Font sprites are 5 bytes each.
                self.i = FONT_ADDR + (self.v[x as usize] as u16) * 5;
            },

            _ => {},
        }
        Ok(())
    }

    /// Executes an instruction that reads or writes memory: DXYN, FX33, FX55, FX65.
    #[verifier::spinoff_prover]
    fn execute_memory(
        &mut self,
        opcode: Opcode,
        memory: &mut Memory,
        keypad: &Keypad,
        stack: &mut Stack,
        timers: &mut Timers,
        display: &mut Display,
        quirks: Quirks,
    ) -> (r: Result<(), CpuError>)
        requires
            old(self).wf(),
            opcode.wf(),
            opcode is Drw || opcode is LdB || opcode is LdIVx || opcode is LdVxI,
        ensures
            final(self).wf(),
            ({
                let (res, post) = execute_result(
                    machine_of(*old(self), old(memory)@, old(stack)@, *old(timers), old(display)@),
                    opcode,
                    keypad@,
                    quirks,
                );
                &&& r == res
                &&& machine_of(
                    *final(self),
                    final(memory)@,
                    final(stack)@,
                    *final(timers),
                    final(display)@,
                ) == post
            }),
    {
        proof {
            reveal(execute_result);
        }
        match opcode {
            Opcode::Drw(x, y, n) => self.execute_sprite(x, y, n, memory, display, quirks),
            Opcode::LdB(x) => self.execute_bcd(x, memory),
            Opcode::LdIVx(x) => self.execute_store_regs(x, memory, quirks),
            Opcode::LdVxI(x) => self.execute_load_regs(x, memory, quirks),
            _ => Ok(()),
        }
    }

    /// VX = VX + VY, VF = the carry (8XY4). The carry comes from the inputs,
    /// so it lands in VF even when X is F.
    fn execute_add(&mut self, x: u8, y: u8)
        requires
            x < 16,
            y < 16,
        ensures
            final(self).v@ == ({
                let v = old(self).v@;
                let sum = v[x as int] + v[y as int];
                v.update(x as int, wrap8(sum)).update(VF as int, flag_value(sum > 255))
            }),
            final(self).i == old(self).i,
            final(self).pc == old(self).pc,
            final(self).state == old(self).state,
            final(self).rng_state == old(self).rng_state,
    {
        let sum: u16 = self.v[x as usize] as u16 + self.v[y as usize] as u16;
        self.v[x as usize] = (sum % 256) as u8;
        self.v[VF] = if sum > 255 {
            1
        } else {
            0
        };
    }

    /// VX = VX - VY, VF = 1 when no borrow occurs (8XY5).
    fn execute_sub(&mut self, x: u8, y: u8)
        requires
            x < 16,
            y < 16,
        ensures
            final(self).v@ == ({
                let v = old(self).v@;
                v.update(x as int, wrap8(v[x as int] - v[y as int])).update(
                    VF as int,
                    flag_value(v[x as int] >= v[y as int]),
                )
            }),
            final(self).i == old(self).i,
            final(self).pc == old(self).pc,
            final(self).state == old(self).state,
            final(self).rng_state == old(self).rng_state,
    {
        let vx = self.v[x as usize];
        let vy = self.v[y as usize];
        self.v[x as usize] = vx.wrapping_sub(vy);
        self.v[VF] = if vx >= vy {
            1
        } else {
            0
        };
    }

    /// VX = VY - VX, VF = 1 when no borrow occurs (8XY7).
    fn execute_subn(&mut self, x: u8, y: u8)
        requires
            x < 16,
            y < 16,
        ensures
            final(self).v@ == ({
                let v = old(self).v@;
                v.update(x as int, wrap8(v[y as int] - v[x as int])).update(
                    VF as int,
                    flag_value(v[y as int] >= v[x as int]),
                )
            }),
            final(self).i == old(self).i,
            final(self).pc == old(self).pc,
            final(self).state == old(self).state,
            final(self).rng_state == old(self).rng_state,
    {
        let vx = self.v[x as usize];
        let vy = self.v[y as usize];
        self.v[x as usize] = vy.wrapping_sub(vx);
        self.v[VF] = if vy >= vx {
            1
        } else {
            0
        };
    }

    /// Puts the result of OR, AND or XOR in VX and clears VF under the reset quirk.
    fn execute_logic(&mut self, x: u8, result: u8, quirks: Quirks)
        requires
            x < 16,
        ensures
            final(self).v@ == logic_regs(old(self).v@, x, result, quirks),
            final(self).i == old(self).i,
            final(self).pc == old(self).pc,
            final(self).state == old(self).state,
            final(self).rng_state == old(self).rng_state,
    {
        self.v[x as usize] = result;
        if quirks.contains(Quirks::vf_reset()) {
            self.v[VF] = 0;
        }
    }

    /// Jumps to NNN plus V0, or plus VX under the jump quirk (BNNN).
    fn execute_jump_v0(&mut self, addr: u16, quirks: Quirks)
        ensures
            final(self).pc == jump_target(old(self).v@, addr, quirks),
            final(self).v == old(self).v,
            final(self).i == old(self).i,
            final(self).state == old(self).state,
            final(self).rng_state == old(self).rng_state,
    {
        let reg = if quirks.contains(Quirks::jump_vx()) {
            (addr / 256) % 16
        } else {
            0
        };
        self.pc = addr.wrapping_add(self.v[reg as usize] as u16);
    }

    /// Steps the xorshift32 generator and puts its low byte, masked by `kk`, in VX (CXKK).
    fn execute_rnd(&mut self, x: u8, kk: u8)
        requires
            x < 16,
        ensures
            final(self).rng_state == xorshift32(old(self).rng_state),
            final(self).v@ == old(self).v@.update(
                x as int,
                (final(self).rng_state % 256) as u8 & kk,
            ),
            final(self).i == old(self).i,
            final(self).pc == old(self).pc,
            final(self).state == old(self).state,
    {
        let mut s = self.rng_state;
        s = s ^ (s << 13u32);
        s = s ^ (s >> 17u32);
        s = s ^ (s << 5u32);
        self.rng_state = s;
        let random = (s & 0xFF) as u8;
        assert((s & 0xFF) as u8 == (s % 256) as u8) by (bit_vector);
        self.v[x as usize] = random & kk;
    }

    /// Shift right (8XY6): the source is VY under the shift quirk, VX otherwise.
    fn execute_shr(&mut self, x: u8, y: u8, quirks: Quirks)
        requires
            x < 16,
            y < 16,
        ensures
            final(self).v@ == shr_regs(old(self).v@, x, y, quirks),
            final(self).i == old(self).i,
            final(self).pc == old(self).pc,
            final(self).state == old(self).state,
            final(self).rng_state == old(self).rng_state,
    {
        let src = if quirks.contains(Quirks::shift_vy()) {
            self.v[y as usize]
        } else {
            self.v[x as usize]
        };
        let lsb = src & 1;
        assert(src & 1 == src % 2) by (bit_vector);
        assert(src >> 1u8 == src / 2) by (bit_vector);
        self.v[x as usize] = src >> 1u8;
        self.v[VF] = lsb;
    }

    /// Shift left (8XYE): the source is VY under the shift quirk, VX otherwise.
    fn execute_shl(&mut self, x: u8, y: u8, quirks: Quirks)
        requires
            x < 16,
            y < 16,
        ensures
            final(self).v@ == shl_regs(old(self).v@, x, y, quirks),
            final(self).i == old(self).i,
            final(self).pc == old(self).pc,
            final(self).state == old(self).state,
            final(self).rng_state == old(self).rng_state,
    {
        let src = if quirks.contains(Quirks::shift_vy()) {
            self.v[y as usize]
        } else {
            self.v[x as usize]
        };
        let msb = (src >> 7u8) & 1;
        assert((src >> 7u8) & 1 == src / 128) by (bit_vector);
        assert(src << 1u8 == (src * 2) % 256) by (bit_vector);
        self.v[x as usize] = src << 1u8;
        self.v[VF] = msb;
    }

    /// Draws the sprite of N rows (16 when N is 0) read from I at (VX, VY);
    /// VF tells whether a lit pixel was switched off (DXYN).
    fn execute_sprite(
        &mut self,
        x: u8,
        y: u8,
        n: u8,
        memory: &Memory,
        display: &mut Display,
        quirks: Quirks,
    ) -> (r: Result<(), CpuError>)
        requires
            x < 16,
            y < 16,
            n <= 16,
        ensures
            ({
                let s = machine_of(*old(self), memory@, Seq::empty(), Timers { delay: 0, sound: 0 }, old(display)@);
                let (res, post) = sprite_result(s, x, y, n, quirks);
                &&& r == res
                &&& final(self).v@ == post.v
                &&& final(display)@ == post.pixels
            }),
            final(self).i == old(self).i,
            final(self).pc == old(self).pc,
            final(self).state == old(self).state,
            final(self).rng_state == old(self).rng_state,
    {
        let sprite_x = self.v[x as usize];
        let sprite_y = self.v[y as usize];
        let rows: u16 = if n == 0 {
            16
        } else {
            n as u16
        };
        let ghost ram = memory@;
        let mut sprite_data: Vec<u8> = Vec::new();
        let mut row: u16 = 0;
        while row < rows
            invariant
                row <= rows <= 16,
                rows == sprite_rows(n),
                ram == memory@,
                ram.len() == super::memory::MEMORY_SIZE,
                row == 0 || self.i + row <= super::memory::MEMORY_SIZE,
                sprite_data@.len() == row,
                forall|k: int| 0 <= k < row ==> #[trigger] sprite_data@[k] == ram[self.i + k],
            decreases rows - row,
        {
            let addr = self.i.wrapping_add(row);
            match memory.read_byte(addr) {
                Ok(b) => sprite_data.push(b),
                Err(e) => {
                    return Err(CpuError::Memory(e));
                },
            }
            row += 1;
        }
        assert(sprite_data@ =~= ram.subrange(self.i as int, self.i + rows));
        let collision = display.draw_sprite(
            sprite_x,
            sprite_y,
            sprite_data.as_slice(),
            quirks.contains(Quirks::sprite_wrap()),
        );
        self.v[VF] = if collision {
            1
        } else {
            0
        };
        Ok(())
    }

    /// Stores the decimal digits of VX at I, I+1 and I+2 (FX33).
    fn execute_bcd(&mut self, x: u8, memory: &mut Memory) -> (r: Result<(), CpuError>)
        requires
            x < 16,
        ensures
            r == block_outcome(old(self).i, 3),
            final(memory)@ == bcd_ram(old(memory)@, old(self).i, old(self).v@[x as int]),
            *final(self) == *old(self),
    {
        let val = self.v[x as usize];
        let ghost ram = memory@;
        match memory.write_byte(self.i, val / 100) {
            Ok(()) => {},
            Err(e) => {
                assert(memory@ =~= bcd_ram(ram, self.i, val));
                return Err(CpuError::Memory(e));
            },
        }
        match memory.write_byte(self.i + 1, (val / 10) % 10) {
            Ok(()) => {},
            Err(e) => {
                assert(memory@ =~= bcd_ram(ram, self.i, val));
                return Err(CpuError::Memory(e));
            },
        }
        match memory.write_byte(self.i + 2, val % 10) {
            Ok(()) => {},
            Err(e) => {
                assert(memory@ =~= bcd_ram(ram, self.i, val));
                return Err(CpuError::Memory(e));
            },
        }
        assert(memory@ =~= bcd_ram(ram, self.i, val));
        Ok(())
    }

    /// Stores V0..=VX in memory from I on; I advances past them under the
    /// I increment quirk (FX55).
    fn execute_store_regs(&mut self, x: u8, memory: &mut Memory, quirks: Quirks) -> (r: Result<
        (),
        CpuError,
    >)
        requires
            x < 16,
        ensures
            r == block_outcome(old(self).i, x + 1),
            final(memory)@ == stored_ram(old(memory)@, old(self).v@, old(self).i, x + 1),
            final(self).i == (if block_fits(old(self).i, x + 1) && quirks.flag(
                super::config::I_INCREMENT,
            ) {
                wrap16(old(self).i + x + 1)
            } else {
                old(self).i
            }),
            final(self).v == old(self).v,
            final(self).pc == old(self).pc,
            final(self).state == old(self).state,
            final(self).rng_state == old(self).rng_state,
    {
        let ghost ram = memory@;
        let mut offset: u16 = 0;
        while offset <= x as u16
            invariant
                x < 16,
                offset <= x + 1,
                ram == old(memory)@,
                ram.len() == super::memory::MEMORY_SIZE,
                memory@.len() == super::memory::MEMORY_SIZE,
                offset == 0 || self.i + offset <= super::memory::MEMORY_SIZE,
                memory@ == stored_ram(ram, self.v@, self.i, offset as int),
            decreases x + 1 - offset,
        {
            match memory.write_byte(self.i + offset, self.v[offset as usize]) {
                Ok(()) => {},
                Err(e) => {
                    assert(memory@ =~= stored_ram(ram, self.v@, self.i, x + 1));
                    return Err(CpuError::Memory(e));
                },
            }
            offset += 1;
            assert(memory@ =~= stored_ram(ram, self.v@, self.i, offset as int));
        }
        if quirks.contains(Quirks::i_increment()) {
            self.i = self.i.wrapping_add(x as u16 + 1);
        }
        Ok(())
    }

    /// Loads V0..=VX from memory from I on; I advances past them under the
    /// I increment quirk (FX65).
    fn execute_load_regs(&mut self, x: u8, memory: &Memory, quirks: Quirks) -> (r: Result<
        (),
        CpuError,
    >)
        requires
            x < 16,
        ensures
            r == block_outcome(old(self).i, x + 1),
            final(self).v@ == loaded_regs(old(self).v@, memory@, old(self).i, x + 1),
            final(self).i == (if block_fits(old(self).i, x + 1) && quirks.flag(
                super::config::I_INCREMENT,
            ) {
                wrap16(old(self).i + x + 1)
            } else {
                old(self).i
            }),
            final(self).pc == old(self).pc,
            final(self).state == old(self).state,
            final(self).rng_state == old(self).rng_state,
    {
        let ghost regs = self.v@;
        let mut offset: u16 = 0;
        while offset <= x as u16
            invariant
                x < 16,
                regs == old(self).v@,
                self.i == old(self).i,
                self.pc == old(self).pc,
                self.state == old(self).state,
                self.rng_state == old(self).rng_state,
                offset <= x + 1,
                memory@.len() == super::memory::MEMORY_SIZE,
                self.v@.len() == 16,
                regs.len() == 16,
                offset == 0 || self.i + offset <= super::memory::MEMORY_SIZE,
                self.v@ == loaded_regs(regs, memory@, self.i, offset as int),
            decreases x + 1 - offset,
        {
            match memory.read_byte(self.i + offset) {
                Ok(b) => self.v[offset as usize] = b,
                Err(e) => {
                    assert(self.v@ =~= loaded_regs(regs, memory@, self.i, x + 1));
                    return Err(CpuError::Memory(e));
                },
            }
            offset += 1;
            assert(self.v@ =~= loaded_regs(regs, memory@, self.i, offset as int));
        }
        if quirks.contains(Quirks::i_increment()) {
            self.i = self.i.wrapping_add(x as u16 + 1);
        }
        Ok(())
    }
}

impl Default for Cpu {
    fn default() -> (r: Cpu)
        ensures
            r.is_initial(),
            r.wf(),
    {
        Cpu::new()
    }
}

} // verus!
