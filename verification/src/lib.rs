//! Bytecore: the core of a Chip-8 emulator.
//!
//! The [`chip8`] module holds the virtual machine: CPU, memory, stack,
//! timers, keypad and display, with the meaning of every instruction stated
//! in [`chip8::semantics`] and the CPU proved to follow it. [`Emulator`]
//! pairs a machine with the program it runs and makes one display frame at a
//! time; a frontend (see [`frontend`]) handles input, rendering and pacing.

pub mod chip8;
pub mod frontend;
pub mod laws;

use vstd::prelude::*;

use chip8::config::{Config, Quirks, WAIT_VBLANK};
use chip8::cpu::CpuError;
use chip8::display::Display;
use chip8::keypad::Keypad;
use chip8::memory::{MemoryError, MAX_ROM_SIZE};
use chip8::semantics::{draws_next, tick_result, MachineState};
use chip8::timers::countdown;
use chip8::Chip8;
use frontend::UserAction;

verus! {

/// `std::io::Error`, carried through opaquely in [`EmulatorError::Io`].
#[verifier::external_type_specification]
#[verifier::external_body]
pub struct ExIoError(std::io::Error);

/// The emulator's error.
#[derive(Debug)]
pub enum EmulatorError {
    /// Reading a ROM or configuration file failed.
    Io(std::io::Error),
    /// Execution failed (unknown opcode, stack error, bad program counter...).
    Cpu(CpuError),
    /// A memory operation failed.
    Memory(MemoryError),
    /// A ROM of this many bytes exceeds the 3584 bytes of 0x200..=0xFFF.
    RomTooLarge(usize),
}

/// The result of [`Emulator::run_frame`]: whether to stop, whether execution
/// is now paused, and whether the tone should sound.
#[derive(Debug, Clone, Copy, PartialEq, Eq, Structural)]
pub struct FrameOutcome {
    /// The user asked to exit; the run loop stops without rendering.
    pub exit: bool,
    /// Execution is paused after this frame.
    pub paused: bool,
    /// The sound timer is non-zero and execution is not paused.
    pub sound: bool,
}

/// The number of CPU cycles in one 60 Hz frame at `cpu_hz`.
pub open spec fn ticks_per_frame(cpu_hz: u32) -> nat {
    (cpu_hz / 60) as nat
}

/// Up to `n` CPU cycles from `s`. They stop early at the first error and,
/// under the [`WAIT_VBLANK`](chip8::config::WAIT_VBLANK) quirk, right after a
/// DXYN: the draw waits for the vertical blank that ends the frame.
pub open spec fn run_ticks(s: MachineState, keys: Seq<bool>, quirks: Quirks, n: nat) -> (
    Result<(), CpuError>,
    MachineState,
)
    decreases n,
{
    if n == 0 {
        (Ok(()), s)
    } else {
        let (r, s1) = tick_result(s, keys, quirks);
        if r is Err {
            (r, s1)
        } else if quirks.flag(WAIT_VBLANK) && draws_next(s) {
            (Ok(()), s1)
        } else {
            run_ticks(s1, keys, quirks, (n - 1) as nat)
        }
    }
}

/// `s` after one 60 Hz step of both timers.
pub open spec fn timers_step(s: MachineState) -> MachineState {
    MachineState { delay: countdown(s.delay), sound: countdown(s.sound), ..s }
}

/// Whether execution is paused after handling `action` while `paused`.
pub open spec fn next_paused(action: UserAction, paused: bool) -> bool {
    match action {
        UserAction::PauseToggle => !paused,
        UserAction::Reset => false,
        _ => paused,
    }
}

/// `s` after the CPU part of one frame: nothing while paused, otherwise a
/// frame's worth of cycles at `cpu_hz` (see [`run_ticks`]) and, when they
/// succeed, one step of the timers.
pub open spec fn frame_result(
    s: MachineState,
    keys: Seq<bool>,
    quirks: Quirks,
    cpu_hz: u32,
    paused: bool,
) -> (Result<(), CpuError>, MachineState) {
    if paused {
        (Ok(()), s)
    } else {
        let (r, s1) = run_ticks(s, keys, quirks, ticks_per_frame(cpu_hz));
        if r is Err {
            (r, s1)
        } else {
            (Ok(()), timers_step(s1))
        }
    }
}

/// The machine right after power-on with the program `rom` loaded and the
/// generator at `rng`.
pub open spec fn fresh_machine(rom: Seq<u8>, rng: u32) -> MachineState {
    MachineState {
        v: Seq::new(16, |k: int| 0u8),
        i: 0,
        pc: chip8::cpu::PROGRAM_START,
        state: chip8::cpu::CpuState::Running,
        rng,
        ram: chip8::memory::with_rom(chip8::memory::initial_memory(), rom),
        stack: Seq::empty(),
        delay: 0,
        sound: 0,
        pixels: chip8::display::blank(),
    }
}

/// A reset is as good as a restart: every machine that is fresh with a
/// program (after [`Emulator::reset`], or [`Emulator::new`] followed by
/// [`Emulator::load_rom_data`]) is the same machine, up to the generator's seed.
pub proof fn lemma_fresh_is_determined(c: Chip8, rom: Seq<u8>)
    requires
        c.is_fresh_with(rom),
    ensures
        c.machine() == fresh_machine(rom, c.cpu.rng_state),
{
    assert(c.machine() =~= fresh_machine(rom, c.cpu.rng_state));
}

/// While paused, a frame changes nothing.
pub proof fn lemma_paused_frame_idle(
    s: MachineState,
    keys: Seq<bool>,
    quirks: Quirks,
    cpu_hz: u32,
)
    ensures
        frame_result(s, keys, quirks, cpu_hz, true) == (Ok::<(), CpuError>(()), s),
{
}

/// A frame that starts from `start` ends in `post` with the outcome `r`.
pub open spec fn frame_done(
    start: MachineState,
    post: MachineState,
    r: Result<FrameOutcome, EmulatorError>,
    keys: Seq<bool>,
    quirks: Quirks,
    cpu_hz: u32,
    paused: bool,
) -> bool {
    let (res, expected) = frame_result(start, keys, quirks, cpu_hz, paused);
    &&& post == expected
    &&& match res {
        Ok(()) => r == Ok::<FrameOutcome, EmulatorError>(
            FrameOutcome { exit: false, paused, sound: expected.sound > 0 && !paused },
        ),
        Err(e) => r == Err::<FrameOutcome, EmulatorError>(EmulatorError::Cpu(e)),
    }
}

/// What one call of [`Emulator::run_frame`] with `action` while `paused`
/// does, taking `before` to `after` with the result `r`:
/// - the program, the keypad and the configuration stay;
/// - `Exit` changes nothing and asks to stop;
/// - `Continue` and `PauseToggle` run a frame (see [`frame_done`]) under the
///   new pause state;
/// - `Reset` runs an unpaused frame from a fresh machine with the kept
///   program, or fails, leaving a fresh machine with no program, when that
///   program is too large.
pub open spec fn frame_spec(
    before: Emulator,
    action: UserAction,
    paused: bool,
    after: Emulator,
    r: Result<FrameOutcome, EmulatorError>,
) -> bool {
    let keys = before.chip().keypad@;
    let quirks = before.chip().config.quirks;
    let cpu_hz = before.chip().config.cpu_hz;
    &&& after.rom() == before.rom()
    &&& after.chip().keypad == before.chip().keypad
    &&& after.chip().config == before.chip().config
    &&& action == UserAction::Exit ==> r == Ok::<FrameOutcome, EmulatorError>(
        FrameOutcome { exit: true, paused, sound: false },
    ) && after.chip() == before.chip()
    &&& action == UserAction::Continue || action == UserAction::PauseToggle ==> frame_done(
        before.chip().machine(),
        after.chip().machine(),
        r,
        keys,
        quirks,
        cpu_hz,
        next_paused(action, paused),
    )
    &&& action == UserAction::Reset && before.rom().len() <= MAX_ROM_SIZE ==> exists|rng: u32|
        frame_done(
            #[trigger] fresh_machine(before.rom(), rng),
            after.chip().machine(),
            r,
            keys,
            quirks,
            cpu_hz,
            false,
        )
    &&& action == UserAction::Reset && before.rom().len() > MAX_ROM_SIZE ==> r == Err::<
        FrameOutcome,
        EmulatorError,
    >(EmulatorError::Memory(MemoryError::RomTooLarge(#[verifier::truncate] (before.rom().len() as usize))))
        && after.chip().is_fresh_with(Seq::empty())
}

/// The whole emulator: a Chip-8 machine and the program it was given, kept
/// for resets.
#[derive(Debug)]
pub struct Emulator {
    /// The Chip-8 machine.
    pub chip8: Chip8,
    /// The program kept for resets.
    pub rom_data: Vec<u8>,
}

impl Emulator {
    /// The program last given to [`Emulator::load_rom_data`].
    pub open spec fn rom(&self) -> Seq<u8> {
        self.rom_data@
    }

    /// The Chip-8 machine.
    pub open spec fn chip(&self) -> Chip8 {
        self.chip8
    }

    /// Creates an emulator with the default configuration (modern quirks, 700 Hz) and no program.
    pub fn new() -> (r: Emulator)
        ensures
            r.chip().is_fresh_with(Seq::empty()),
            r.chip().config.is_default(),
            r.chip().cpu.wf(),
            r.rom() == Seq::<u8>::empty(),
    {
        Emulator { chip8: Chip8::new(), rom_data: Vec::new() }
    }

    /// Creates an emulator with the given configuration and no program.
    pub fn with_config(config: Config) -> (r: Emulator)
        ensures
            r.chip().is_fresh_with(Seq::empty()),
            r.chip().config == config,
            r.chip().cpu.wf(),
            r.rom() == Seq::<u8>::empty(),
    {
        let mut chip8 = Chip8::new();
        *chip8.config_mut() = config;
        Emulator { chip8, rom_data: Vec::new() }
    }

    /// The display, for rendering.
    pub fn display(&self) -> (r: &Display)
        ensures
            *r == self.chip().display,
    {
        self.chip8.display()
    }

    /// The keypad, for input handling.
    pub fn keypad(&mut self) -> (r: &mut Keypad)
        ensures
            *r == old(self).chip().keypad,
            final(self).chip() == (Chip8 { keypad: *final(r), ..old(self).chip() }),
            final(self).rom() == old(self).rom(),
    {
        self.chip8.keypad()
    }

    /// The configuration.
    pub fn config(&self) -> (r: &Config)
        ensures
            *r == self.chip().config,
    {
        self.chip8.config()
    }

    /// The current value of the sound timer.
    pub fn sound_timer(&self) -> (r: u8)
        ensures
            r == self.chip().timers.sound,
    {
        self.chip8.sound_timer()
    }

    /// Checks that a program fits the Chip-8 program area (0x200..=0xFFF).
    pub fn validate_rom(rom: &[u8]) -> (r: Result<(), EmulatorError>)
        ensures
            rom@.len() <= MAX_ROM_SIZE <==> r is Ok,
            rom@.len() > MAX_ROM_SIZE ==> r == Err::<(), EmulatorError>(
                EmulatorError::RomTooLarge(rom@.len() as usize),
            ),
    {
        if rom.len() > MAX_ROM_SIZE {
            Err(EmulatorError::RomTooLarge(rom.len()))
        } else {
            Ok(())
        }
    }

    /// Keeps `rom` for resets and loads it into memory from 0x200 on. Fails
    /// with `Memory(RomTooLarge(_))`, memory unchanged, when it does not fit.
    pub fn load_rom_data(&mut self, rom: &[u8]) -> (r: Result<(), EmulatorError>)
        ensures
            final(self).rom() == rom@,
            rom@.len() <= MAX_ROM_SIZE ==> r is Ok && final(self).chip().memory@
                == chip8::memory::with_rom(old(self).chip().memory@, rom@),
            rom@.len() > MAX_ROM_SIZE ==> r == Err::<(), EmulatorError>(
                EmulatorError::Memory(MemoryError::RomTooLarge(rom@.len() as usize)),
            ) && final(self).chip().memory@ == old(self).chip().memory@,
            final(self).chip().cpu == old(self).chip().cpu,
            final(self).chip().stack@ == old(self).chip().stack@,
            final(self).chip().timers == old(self).chip().timers,
            final(self).chip().keypad == old(self).chip().keypad,
            final(self).chip().display == old(self).chip().display,
            final(self).chip().config == old(self).chip().config,
    {
        self.rom_data = vstd::slice::slice_to_vec(rom);
        match self.chip8.load_rom(rom) {
            Ok(()) => Ok(()),
            Err(e) => Err(EmulatorError::Memory(e)),
        }
    }

    /// Puts the machine back at power-on and reloads the kept program.
    pub fn reset(&mut self) -> (r: Result<(), EmulatorError>)
        ensures
            final(self).rom() == old(self).rom(),
            old(self).rom().len() <= MAX_ROM_SIZE ==> r is Ok && final(self).chip().is_fresh_with(
                old(self).rom(),
            ),
            old(self).rom().len() > MAX_ROM_SIZE ==> r == Err::<(), EmulatorError>(
                EmulatorError::Memory(MemoryError::RomTooLarge(old(self).rom().len() as usize)),
            ) && final(self).chip().is_fresh_with(Seq::empty()),
            final(self).chip().keypad == old(self).chip().keypad,
            final(self).chip().config == old(self).chip().config,
            final(self).chip().cpu.wf(),
    {
        match self.chip8.reset(self.rom_data.as_slice()) {
            Ok(()) => Ok(()),
            Err(e) => Err(EmulatorError::Memory(e)),
        }
    }

    /// Runs one display frame for the run loop: handles `action` (exit, pause
    /// toggle, reset or nothing), then, unless paused, executes `cpu_hz / 60`
    /// CPU cycles (fewer when one fails, or when a draw under the VBlank quirk
    /// ends the frame) and steps the timers. Tells whether to exit, whether
    /// execution is paused, and whether the tone should sound.
    pub fn run_frame(&mut self, action: UserAction, paused: bool) -> (r: Result<
        FrameOutcome,
        EmulatorError,
    >)
        requires
            old(self).chip().cpu.wf(),
        ensures
            final(self).chip().cpu.wf(),
            frame_spec(*old(self), action, paused, *final(self), r),
    {
        let mut paused = paused;
        match action {
            UserAction::Exit => {
                return Ok(FrameOutcome { exit: true, paused, sound: false });
            },
            UserAction::PauseToggle => {
                paused = !paused;
            },
            UserAction::Reset => {
                match self.reset() {
                    Ok(()) => {},
                    Err(e) => return Err(e),
                }
                paused = false;
                proof {
                    lemma_fresh_is_determined(self.chip8, self.rom());
                }
            },
            UserAction::Continue => {},
        }
        let ghost start = self.chip8.machine();
        let ghost keys = self.chip8.keypad@;
        let ghost quirks = self.chip8.config.quirks;
        if !paused {
            // The CPU runs at cpu_hz while the timers count at 60 Hz.
            let ticks: u32 = self.chip8.config.cpu_hz / 60;
            let wait_vblank = self.chip8.config.quirks.contains(Quirks::wait_vblank());
            let mut t: u32 = 0;
            #[verifier::loop_isolation(false)]
            while t < ticks
                invariant
                    t <= ticks,
                    ticks == ticks_per_frame(self.chip8.config.cpu_hz),
                    self.chip8.cpu.wf(),
                    self.chip8.keypad@ == keys,
                    self.chip8.config.quirks == quirks,
                    self.chip8.keypad == old(self).chip8.keypad,
                    self.chip8.config == old(self).chip8.config,
                    self.rom_data@ == old(self).rom_data@,
                    run_ticks(start, keys, quirks, ticks as nat) == run_ticks(
                        self.chip8.machine(),
                        keys,
                        quirks,
                        (ticks - t) as nat,
                    ),
                decreases ticks - t,
            {
                let draw = self.chip8.next_is_draw();
                let result = self.chip8.tick();
                match result {
                    Ok(()) => {},
                    Err(e) => {
                        return Err(EmulatorError::Cpu(e));
                    },
                }
                // Under the VBlank quirk a draw waits for the vertical blank,
                // which ends the frame.
                if wait_vblank && draw {
                    break;
                }
                t += 1;
            }
            assert(run_ticks(start, keys, quirks, ticks as nat) == (
                Ok::<(), CpuError>(()),
                self.chip8.machine(),
            ));
            self.chip8.update_timers();
            assert(self.chip8.machine() =~= timers_step(run_ticks(start, keys, quirks, ticks as nat).1));
        }
        let sound = self.sound_timer() > 0 && !paused;
        Ok(FrameOutcome { exit: false, paused, sound })
    }
}

impl Default for Emulator {
    fn default() -> (r: Emulator)
        ensures
            r.chip().is_fresh_with(Seq::empty()),
            r.chip().config.is_default(),
            r.chip().cpu.wf(),
            r.rom() == Seq::<u8>::empty(),
    {
        Emulator::new()
    }
}

} // verus!
