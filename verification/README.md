# Bytecore

The core of a Chip-8 emulator, written in Verus: the machine's behaviour is
stated in contracts and proved.

- `src/chip8/` — the virtual machine. `semantics.rs` states what every
  instruction and every CPU cycle does to the abstract machine state;
  `cpu.rs` is proved to follow it. `display.rs` (XOR sprite drawing with
  clipping or wrapping), `memory.rs`, `stack.rs`, `keypad.rs`, `timers.rs`,
  `opcode.rs` (decoding and mnemonics) and `config.rs` (quirk flags) each
  carry their own contracts.
- `src/lib.rs` — the `Emulator`: a machine, its program, and one display
  frame at a time (`run_frame`): `cpu_hz / 60` cycles, cut short after a
  draw under the VBlank quirk, then one step of the 60 Hz timers.
- `src/frontend/` — the frontend interface and the input and layout rules
  of the terminal frontend.
- `src/laws.rs` — properties across instructions: the machine invariant is
  kept by every cycle, a call and its return cancel out, XOR drawing undoes
  itself and detects collisions, saved registers load back, a key wait
  never moves the program counter, and over any run of frames the pause
  state follows the user's actions while program and configuration stay.
- `app/` — the executable: command line, TOML configuration, the terminal
  frontend (ratatui and crossterm) and the run loop.
