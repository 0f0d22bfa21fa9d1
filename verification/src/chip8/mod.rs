//! The core components of the Chip-8 virtual machine.

pub mod clock;
pub mod config;
pub mod cpu;
pub mod display;
pub mod keypad;
pub mod memory;
pub mod opcode;
pub mod semantics;
pub mod stack;
pub mod text;
pub mod timers;

use vstd::prelude::*;

use config::Config;
use cpu::{machine_of, Cpu, CpuError};
use display::{blank, Display};
use keypad::Keypad;
use memory::{initial_memory, with_rom, Memory, MemoryError, MAX_ROM_SIZE};
use semantics::{draws_next, tick_result, MachineState};
use stack::Stack;
use timers::Timers;

verus! {

broadcast use {memory::Memory::lemma_view_len, display::Display::lemma_view_len};

/// The whole Chip-8 system: CPU, memory, stack, timers, keypad, display and
/// the configuration the CPU runs with.
#[derive(Debug)]
pub struct Chip8 {
    /// The CPU registers and execution state.
    pub cpu: Cpu,
    /// The system's memory.
    pub memory: Memory,
    /// The call stack.
    pub stack: Stack,
    /// The delay and sound timers.
    pub timers: Timers,
    /// The keypad.
    pub keypad: Keypad,
    /// The display.
    pub display: Display,
    /// The quirks and clock speed.
    pub config: Config,
}

impl Chip8 {
    /// The machine state the instructions act on.
    pub open spec fn machine(self) -> MachineState {
        machine_of(self.cpu, self.memory@, self.stack@, self.timers, self.display@)
    }

    /// The state that a freshly loaded program `rom` starts from: everything
    /// at power-on, the program in memory from 0x200 on.
    pub open spec fn is_fresh_with(self, rom: Seq<u8>) -> bool {
        &&& self.cpu.is_initial()
        &&& self.memory@ == with_rom(initial_memory(), rom)
        &&& self.stack@ == Seq::<u16>::empty()
        &&& self.timers.delay == 0
        &&& self.timers.sound == 0
        &&& self.display@ == blank()
    }

    /// Creates a system at power-on with the default configuration.
    pub fn new() -> (r: Chip8)
        ensures
            r.is_fresh_with(Seq::empty()),
            r.keypad@ == Seq::new(keypad::KEY_COUNT as nat, |k: int| false),
            r.config.is_default(),
            r.cpu.wf(),
    {
        let r = Chip8 {
            cpu: Cpu::new(),
            memory: Memory::new(),
            stack: Stack::new(),
            timers: Timers::new(),
            keypad: Keypad::new(),
            display: Display::new(),
            config: Config::new(),
        };
        assert(with_rom(initial_memory(), Seq::empty()) =~= initial_memory());
        r
    }

    /// The display, for rendering.
    pub fn display(&self) -> (r: &Display)
        ensures
            *r == self.display,
    {
        &self.display
    }

    /// The keypad, for input handling.
    pub fn keypad(&mut self) -> (r: &mut Keypad)
        ensures
            *r == old(self).keypad,
            *final(self) == (Chip8 { keypad: *final(r), ..*old(self) }),
    {
        &mut self.keypad
    }

    /// The configuration.
    pub fn config(&self) -> (r: &Config)
        ensures
            *r == self.config,
    {
        &self.config
    }

    /// The configuration, for changing it.
    pub fn config_mut(&mut self) -> (r: &mut Config)
        ensures
            *r == old(self).config,
            *final(self) == (Chip8 { config: *final(r), ..*old(self) }),
    {
        &mut self.config
    }

    /// The current value of the sound timer.
    pub fn sound_timer(&self) -> (r: u8)
        ensures
            r == self.timers.sound,
    {
        self.timers.sound
    }

    /// Loads a program into memory from 0x200 on; fails with `RomTooLarge`,
    /// changing nothing, when it does not fit.
    pub fn load_rom(&mut self, rom: &[u8]) -> (r: Result<(), MemoryError>)
        ensures
            rom@.len() <= MAX_ROM_SIZE ==> r == Ok::<(), MemoryError>(())
                && final(self).memory@ == with_rom(old(self).memory@, rom@),
            rom@.len() > MAX_ROM_SIZE ==> r == Err::<(), MemoryError>(
                MemoryError::RomTooLarge(rom@.len() as usize),
            ) && final(self).memory@ == old(self).memory@,
            final(self).cpu == old(self).cpu,
            final(self).stack@ == old(self).stack@,
            final(self).timers == old(self).timers,
            final(self).keypad == old(self).keypad,
            final(self).display == old(self).display,
            final(self).config == old(self).config,
    {
        self.memory.write_rom(rom)
    }

    /// Puts every component back at power-on and loads `rom` again; the
    /// keypad, which follows the physical keys, and the configuration stay.
    pub fn reset(&mut self, rom: &[u8]) -> (r: Result<(), MemoryError>)
        ensures
            rom@.len() <= MAX_ROM_SIZE ==> r == Ok::<(), MemoryError>(())
                && final(self).is_fresh_with(rom@),
            rom@.len() > MAX_ROM_SIZE ==> r == Err::<(), MemoryError>(
                MemoryError::RomTooLarge(rom@.len() as usize),
            ) && final(self).is_fresh_with(Seq::empty()),
            final(self).keypad == old(self).keypad,
            final(self).config == old(self).config,
            final(self).cpu.wf(),
    {
        self.cpu.reset();
        self.memory = Memory::new();
        self.stack = Stack::new();
        self.timers = Timers::new();
        self.display = Display::new();
        assert(with_rom(initial_memory(), Seq::empty()) =~= initial_memory());
        self.memory.write_rom(rom)
    }

    /// Executes one CPU cycle with the configured quirks; see [`tick_result`].
    pub fn tick(&mut self) -> (r: Result<(), CpuError>)
        requires
            old(self).cpu.wf(),
        ensures
            (r, final(self).machine()) == tick_result(
                old(self).machine(),
                old(self).keypad@,
                old(self).config.quirks,
            ),
            final(self).keypad == old(self).keypad,
            final(self).config == old(self).config,
            final(self).cpu.wf(),
    {
        self.cpu.tick(
            &mut self.memory,
            &self.keypad,
            &mut self.stack,
            &mut self.timers,
            &mut self.display,
            self.config.quirks,
        )
    }

    /// Whether the next cycle executes a DXYN; see [`draws_next`].
    pub fn next_is_draw(&self) -> (r: bool)
        ensures
            r == draws_next(self.machine()),
    {
        if self.cpu.state != cpu::CpuState::Running || self.cpu.pc > cpu::MAX_PC {
            return false;
        }
        match self.memory.read_word(self.cpu.pc) {
            Ok(word) => match opcode::Opcode::decode(word) {
                Ok(opcode::Opcode::Drw(_, _, _)) => true,
                _ => false,
            },
            Err(_) => false,
        }
    }

    /// Advances both timers by one 60 Hz step.
    pub fn update_timers(&mut self)
        ensures
            final(self).timers.delay == timers::countdown(old(self).timers.delay),
            final(self).timers.sound == timers::countdown(old(self).timers.sound),
            final(self).cpu == old(self).cpu,
            final(self).memory == old(self).memory,
            final(self).stack == old(self).stack,
            final(self).keypad == old(self).keypad,
            final(self).display == old(self).display,
            final(self).config == old(self).config,
    {
        self.timers.update();
    }
}

impl Default for Chip8 {
    fn default() -> (r: Chip8)
        ensures
            r.is_fresh_with(Seq::empty()),
            r.config.is_default(),
            r.cpu.wf(),
    {
        Chip8::new()
    }
}

} // verus!
