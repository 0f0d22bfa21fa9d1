//! Properties of the machine that span instructions and components.

use vstd::prelude::*;

use crate::chip8::config::{Quirks, I_INCREMENT, WAIT_VBLANK};
use crate::chip8::cpu::CpuState;
use crate::chip8::display::{draw_result, draw_row, draw_rows, PIXEL_COUNT};
use crate::chip8::keypad::first_pressed;
use crate::chip8::memory::{MAX_ROM_SIZE, MEMORY_SIZE};
use crate::chip8::Chip8;
use crate::frontend::UserAction;
use crate::{
    frame_done, frame_result, frame_spec, run_ticks, fresh_machine, next_paused, Emulator, EmulatorError,
    FrameOutcome,
};
use crate::chip8::opcode::{decode_word, Opcode};
use crate::chip8::semantics::{
    draws_next, execute_result, fetched_word, machine_wf, sprite_rows, tick_result, wrap16,
    MachineState, VF,
};

verus! {

/// Drawing keeps the size of the display.
pub proof fn lemma_draw_rows_len(
    pixels: Seq<bool>,
    sx: int,
    sy: int,
    sprite: Seq<u8>,
    wrap: bool,
    n: nat,
)
    ensures
        draw_rows(pixels, sx, sy, sprite, wrap, n).0.len() == pixels.len(),
    decreases n,
{
    if n > 0 {
        lemma_draw_rows_len(pixels, sx, sy, sprite, wrap, (n - 1) as nat);
    }
}

/// Every instruction keeps the machine well formed: 16 registers, full
/// memory and display, at most 16 return addresses, waits naming a real register.
#[verifier::spinoff_prover]
#[verifier::rlimit(50)]
#[verifier::spinoff_prover]
pub proof fn lemma_execute_keeps_wf(s: MachineState, op: Opcode, keys: Seq<bool>, quirks: Quirks)
    requires
        machine_wf(s),
        op.wf(),
    ensures
        machine_wf(execute_result(s, op, keys, quirks).1),
{
    reveal(execute_result);
    match op {
        Opcode::Drw(x, y, n) => {
            let rows = sprite_rows(n);
            if s.i + rows <= MEMORY_SIZE {
                let sprite = s.ram.subrange(s.i as int, s.i + rows);
                lemma_draw_rows_len(
                    s.pixels,
                    (s.v[x as int] as int) % 64,
                    (s.v[y as int] as int) % 32,
                    sprite,
                    quirks.flag(crate::chip8::config::SPRITE_WRAP),
                    sprite.len(),
                );
            }
        },
        Opcode::LdB(_) | Opcode::LdIVx(_) | Opcode::LdVxI(_) => {},
        Opcode::LdVxK(_) => {},
        Opcode::Ret | Opcode::Call(_) => {},
        _ => {},
    }
}

/// Every CPU cycle keeps the machine well formed; this is the invariant
/// that lets the CPU run forever on the state it leaves behind.
pub proof fn lemma_tick_keeps_wf(s: MachineState, keys: Seq<bool>, quirks: Quirks)
    requires
        machine_wf(s),
    ensures
        machine_wf(tick_result(s, keys, quirks).1),
{
    if s.state == CpuState::Running && s.pc <= crate::chip8::cpu::MAX_PC {
        if let Ok(op) = decode_word(fetched_word(s)) {
            lemma_decode_wf(fetched_word(s));
            lemma_execute_keeps_wf(MachineState { pc: wrap16(s.pc + 2), ..s }, op, keys, quirks);
        }
    }
}

/// Every decoded instruction names real registers and fits its fields.
pub proof fn lemma_decode_wf(w: u16)
    ensures
        decode_word(w) matches Ok(op) ==> op.wf(),
{
}

/// Whether an odd number of the first `n` rows of `sprite` cover pixel `i`:
/// the pixels that drawing those rows flips.
pub open spec fn flipped(sx: int, sy: int, sprite: Seq<u8>, wrap: bool, n: nat, i: int) -> bool
    decreases n,
{
    if n == 0 {
        false
    } else {
        flipped(sx, sy, sprite, wrap, (n - 1) as nat, i) != crate::chip8::display::row_covers(
            sx,
            sy,
            n - 1,
            sprite[n - 1],
            wrap,
            i,
        )
    }
}

/// Drawing rows flips exactly the pixels they cover an odd number of times.
pub proof fn lemma_draw_rows_flips(
    pixels: Seq<bool>,
    sx: int,
    sy: int,
    sprite: Seq<u8>,
    wrap: bool,
    n: nat,
)
    ensures
        draw_rows(pixels, sx, sy, sprite, wrap, n).0 == Seq::new(
            pixels.len(),
            |i: int| pixels[i] != flipped(sx, sy, sprite, wrap, n, i),
        ),
    decreases n,
{
    if n > 0 {
        lemma_draw_rows_flips(pixels, sx, sy, sprite, wrap, (n - 1) as nat);
    }
    assert(draw_rows(pixels, sx, sy, sprite, wrap, n).0 =~= Seq::new(
        pixels.len(),
        |i: int| pixels[i] != flipped(sx, sy, sprite, wrap, n, i),
    ));
}

/// XOR drawing undoes itself: drawing the same sprite twice at the same
/// place leaves the display as it was.
pub proof fn lemma_draw_twice_restores(pixels: Seq<bool>, x: u8, y: u8, sprite: Seq<u8>, wrap: bool)
    ensures
        draw_result(draw_result(pixels, x, y, sprite, wrap).0, x, y, sprite, wrap).0 == pixels,
{
    let sx = (x as int) % 64;
    let sy = (y as int) % 32;
    let once = draw_result(pixels, x, y, sprite, wrap).0;
    lemma_draw_rows_flips(pixels, sx, sy, sprite, wrap, sprite.len());
    lemma_draw_rows_flips(once, sx, sy, sprite, wrap, sprite.len());
    assert(draw_result(once, x, y, sprite, wrap).0 =~= pixels);
}

/// Rows of a sprite never cover the same pixel: clipped rows lie on distinct
/// screen lines, and so do wrapped rows of a sprite at most 32 rows high.
pub open spec fn rows_apart(sprite: Seq<u8>, wrap: bool) -> bool {
    !wrap || sprite.len() <= crate::chip8::display::VIDEO_H
}

/// Some row `r < n` of the sprite covers pixel `i`.
pub open spec fn covered(sx: int, sy: int, sprite: Seq<u8>, wrap: bool, n: nat, i: int) -> bool {
    exists|r: int|
        0 <= r < n && #[trigger] crate::chip8::display::row_covers(sx, sy, r, sprite[r], wrap, i)
}

proof fn lemma_rows_disjoint(sx: int, sy: int, sprite: Seq<u8>, wrap: bool, r1: int, r2: int, i: int)
    requires
        0 <= sx < 64,
        0 <= sy < 32,
        rows_apart(sprite, wrap),
        0 <= r1 < r2 < sprite.len(),
    ensures
        !(crate::chip8::display::row_covers(sx, sy, r1, sprite[r1], wrap, i)
            && crate::chip8::display::row_covers(sx, sy, r2, sprite[r2], wrap, i)),
{
}

proof fn lemma_flipped_is_covered(sx: int, sy: int, sprite: Seq<u8>, wrap: bool, n: nat, i: int)
    requires
        0 <= sx < 64,
        0 <= sy < 32,
        rows_apart(sprite, wrap),
        n <= sprite.len(),
    ensures
        flipped(sx, sy, sprite, wrap, n, i) == covered(sx, sy, sprite, wrap, n, i),
    decreases n,
{
    if n > 0 {
        let last = n - 1;
        lemma_flipped_is_covered(sx, sy, sprite, wrap, (n - 1) as nat, i);
        if crate::chip8::display::row_covers(sx, sy, last, sprite[last], wrap, i) {
            assert forall|r: int| 0 <= r < n - 1 implies !#[trigger] crate::chip8::display::row_covers(
                sx,
                sy,
                r,
                sprite[r],
                wrap,
                i,
            ) by {
                lemma_rows_disjoint(sx, sy, sprite, wrap, r, last, i);
            }
        }
    }
}

proof fn lemma_draw_rows_collision(
    pixels: Seq<bool>,
    sx: int,
    sy: int,
    sprite: Seq<u8>,
    wrap: bool,
    n: nat,
)
    requires
        0 <= sx < 64,
        0 <= sy < 32,
        rows_apart(sprite, wrap),
        n <= sprite.len(),
    ensures
        draw_rows(pixels, sx, sy, sprite, wrap, n).1 == exists|i: int|
            0 <= i < pixels.len() && covered(sx, sy, sprite, wrap, n, i) && #[trigger] pixels[i],
    decreases n,
{
    if n > 0 {
        let last = n - 1;
        lemma_draw_rows_collision(pixels, sx, sy, sprite, wrap, (n - 1) as nat);
        lemma_draw_rows_flips(pixels, sx, sy, sprite, wrap, (n - 1) as nat);
        let before = draw_rows(pixels, sx, sy, sprite, wrap, (n - 1) as nat).0;
        assert forall|i: int|
            0 <= i < pixels.len() && crate::chip8::display::row_covers(
                sx,
                sy,
                last,
                sprite[last],
                wrap,
                i,
            ) implies before[i] == pixels[i] by {
            lemma_flipped_is_covered(sx, sy, sprite, wrap, (n - 1) as nat, i);
            assert forall|r: int| 0 <= r < n - 1 implies !#[trigger] crate::chip8::display::row_covers(
                sx,
                sy,
                r,
                sprite[r],
                wrap,
                i,
            ) by {
                lemma_rows_disjoint(sx, sy, sprite, wrap, r, last, i);
            }
        }
        let lhs = draw_rows(pixels, sx, sy, sprite, wrap, n).1;
        let rhs = exists|i: int|
            0 <= i < pixels.len() && covered(sx, sy, sprite, wrap, n, i) && #[trigger] pixels[i];
        if lhs {
            if draw_rows(pixels, sx, sy, sprite, wrap, (n - 1) as nat).1 {
                let i = choose|i: int|
                    0 <= i < pixels.len() && covered(sx, sy, sprite, wrap, (n - 1) as nat, i)
                        && #[trigger] pixels[i];
                let r = choose|r: int|
                    0 <= r < n - 1 && #[trigger] crate::chip8::display::row_covers(
                        sx,
                        sy,
                        r,
                        sprite[r],
                        wrap,
                        i,
                    );
                assert(covered(sx, sy, sprite, wrap, n, i));
            } else {
                let i = choose|i: int|
                    0 <= i < before.len() && crate::chip8::display::row_covers(
                        sx,
                        sy,
                        last,
                        sprite[last],
                        wrap,
                        i,
                    ) && before[i];
                assert(covered(sx, sy, sprite, wrap, n, i));
                assert(pixels[i]);
            }
        }
        if rhs {
            let i = choose|i: int|
                0 <= i < pixels.len() && covered(sx, sy, sprite, wrap, n, i) && #[trigger] pixels[i];
            let r = choose|r: int|
                0 <= r < n && #[trigger] crate::chip8::display::row_covers(
                    sx,
                    sy,
                    r,
                    sprite[r],
                    wrap,
                    i,
                );
            if r < n - 1 {
                assert(covered(sx, sy, sprite, wrap, (n - 1) as nat, i));
            } else {
                assert(before[i]);
            }
        }
    }
}

/// Collision detection: drawing reports a collision exactly when a pixel
/// under the sprite was lit; drawing the same sprite again reports one
/// exactly when the first draw lit a pixel that had been off. (This holds
/// whenever no two sprite rows cover the same pixel: always when clipping,
/// and for the at most 16 rows of a DXYN sprite when wrapping.)
pub proof fn lemma_draw_collision(pixels: Seq<bool>, x: u8, y: u8, sprite: Seq<u8>, wrap: bool)
    requires
        rows_apart(sprite, wrap),
    ensures
        ({
            let sx = (x as int) % 64;
            let sy = (y as int) % 32;
            let (once, hit) = draw_result(pixels, x, y, sprite, wrap);
            &&& hit == exists|i: int|
                0 <= i < pixels.len() && covered(sx, sy, sprite, wrap, sprite.len(), i)
                    && #[trigger] pixels[i]
            &&& draw_result(once, x, y, sprite, wrap).1 == exists|i: int|
                0 <= i < pixels.len() && covered(sx, sy, sprite, wrap, sprite.len(), i)
                    && !#[trigger] pixels[i]
        }),
{
    let sx = (x as int) % 64;
    let sy = (y as int) % 32;
    let n = sprite.len();
    let once = draw_result(pixels, x, y, sprite, wrap).0;
    lemma_draw_rows_collision(pixels, sx, sy, sprite, wrap, n);
    lemma_draw_rows_collision(once, sx, sy, sprite, wrap, n);
    lemma_draw_rows_flips(pixels, sx, sy, sprite, wrap, n);
    assert forall|i: int| 0 <= i < pixels.len() && covered(sx, sy, sprite, wrap, n, i) implies #[trigger] once[i]
        == !pixels[i] by {
        lemma_flipped_is_covered(sx, sy, sprite, wrap, n, i);
    }
    let a = exists|i: int|
        0 <= i < once.len() && covered(sx, sy, sprite, wrap, n, i) && #[trigger] once[i];
    let b = exists|i: int|
        0 <= i < pixels.len() && covered(sx, sy, sprite, wrap, n, i) && !#[trigger] pixels[i];
    if a {
        let i = choose|i: int|
            0 <= i < once.len() && covered(sx, sy, sprite, wrap, n, i) && #[trigger] once[i];
        assert(!pixels[i]);
    }
    if b {
        let i = choose|i: int|
            0 <= i < pixels.len() && covered(sx, sy, sprite, wrap, n, i) && !#[trigger] pixels[i];
        assert(once[i]);
    }
}

/// A CALL followed by the RET of the called subroutine gives back the state
/// the call started from: the return address and the stack are as before.
#[verifier::spinoff_prover]
#[verifier::spinoff_prover]
pub proof fn lemma_call_then_return(s: MachineState, addr: u16, keys: Seq<bool>, quirks: Quirks)
    requires
        s.stack.len() < crate::chip8::stack::STACK_SIZE,
    ensures
        ({
            let (called, inside) = execute_result(s, Opcode::Call(addr), keys, quirks);
            let (returned, after) = execute_result(inside, Opcode::Ret, keys, quirks);
            &&& called is Ok
            &&& inside.pc == addr
            &&& returned is Ok
            &&& after == s
        }),
{
    reveal(execute_result);
    let inside = execute_result(s, Opcode::Call(addr), keys, quirks).1;
    assert(inside.stack.drop_last() =~= s.stack);
    assert(execute_result(inside, Opcode::Ret, keys, quirks).1 =~= s);
}

/// Registers saved with FX55 come back with FX65 from the same place, whatever
/// the registers held in between (when the block fits in memory and I stays put).
#[verifier::spinoff_prover]
pub proof fn lemma_store_then_load(
    s: MachineState,
    between: MachineState,
    x: u8,
    keys: Seq<bool>,
    quirks: Quirks,
)
    requires
        machine_wf(s),
        machine_wf(between),
        x < 16,
        s.i + x + 1 <= MEMORY_SIZE,
        !quirks.flag(I_INCREMENT),
        between.ram == execute_result(s, Opcode::LdIVx(x), keys, quirks).1.ram,
        between.i == s.i,
    ensures
        execute_result(s, Opcode::LdIVx(x), keys, quirks).0 is Ok,
        execute_result(between, Opcode::LdVxI(x), keys, quirks).0 is Ok,
        forall|k: int|
            0 <= k <= x ==> #[trigger] execute_result(between, Opcode::LdVxI(x), keys, quirks).1.v[k]
                == s.v[k],
{
    let count = x + 1;
    assert(execute_result(s, Opcode::LdIVx(x), keys, quirks) == (
        crate::chip8::semantics::block_outcome(s.i, count),
        MachineState { ram: crate::chip8::semantics::stored_ram(s.ram, s.v, s.i, count), ..s },
    )) by {
        reveal(execute_result);
    }
    assert(execute_result(between, Opcode::LdVxI(x), keys, quirks) == (
        crate::chip8::semantics::block_outcome(between.i, count),
        MachineState {
            v: crate::chip8::semantics::loaded_regs(between.v, between.ram, between.i, count),
            ..between
        },
    )) by {
        reveal(execute_result);
    }
}

/// The three digits FX33 stores are the decimal digits of the value.
pub proof fn lemma_bcd_digits(val: u8)
    ensures
        crate::chip8::semantics::bcd_digit(val, 0) * 100 + crate::chip8::semantics::bcd_digit(val, 1)
            * 10 + crate::chip8::semantics::bcd_digit(val, 2) == val,
        crate::chip8::semantics::bcd_digit(val, 0) <= 2,
        crate::chip8::semantics::bcd_digit(val, 1) < 10,
        crate::chip8::semantics::bcd_digit(val, 2) < 10,
{
    let v = val as int;
    assert((v / 100) * 100 + ((v / 10) % 10) * 10 + v % 10 == v) by (nonlinear_arith)
        requires
            0 <= v < 256,
    ;
}

/// 8XY4 loses nothing: the byte in VX and the carry in VF make up the full
/// sum, and VF holds the carry even when X is F.
#[verifier::spinoff_prover]
pub proof fn lemma_add_carry(s: MachineState, x: u8, y: u8, keys: Seq<bool>, quirks: Quirks)
    requires
        machine_wf(s),
        x < 16,
        y < 16,
    ensures
        ({
            let after = execute_result(s, Opcode::AddVxVy(x, y), keys, quirks).1;
            &&& after.v[VF as int] == (if s.v[x as int] + s.v[y as int] > 255 {
                1u8
            } else {
                0u8
            })
            &&& x != VF ==> after.v[VF as int] * 256 + after.v[x as int] == s.v[x as int] + s.v[
                y as int]
        }),
{
    let sum = s.v[x as int] + s.v[y as int];
    assert(execute_result(s, Opcode::AddVxVy(x, y), keys, quirks).1 == MachineState {
        v: s.v.update(x as int, crate::chip8::semantics::wrap8(sum)).update(
            VF as int,
            crate::chip8::semantics::flag_value(sum > 255),
        ),
        ..s
    }) by {
        reveal(execute_result);
    }
}

/// A halted CPU does nothing, and a CPU waiting for a key does nothing
/// until one is pressed.
pub proof fn lemma_idle_cycles(s: MachineState, keys: Seq<bool>, quirks: Quirks)
    requires
        s.state == CpuState::Halted || (s.state is WaitingForKey && first_pressed(keys) is None),
    ensures
        tick_result(s, keys, quirks) == (Ok::<(), crate::chip8::cpu::CpuError>(()), s),
{
}

/// A key wait never moves the program counter, also when it completes: the
/// fetch of FX0A already put it on the next instruction, which runs once the
/// wait is over.
pub proof fn lemma_key_wait_keeps_pc(s: MachineState, keys: Seq<bool>, quirks: Quirks)
    requires
        s.state is WaitingForKey || s.state is WaitingForKeyRelease,
    ensures
        tick_result(s, keys, quirks).0 is Ok,
        tick_result(s, keys, quirks).1.pc == s.pc,
{
}

/// Instructions are two bytes: one that neither jumps, calls, returns, skips
/// nor waits leaves the program counter right after itself.
#[verifier::spinoff_prover]
#[verifier::rlimit(50)]
#[verifier::spinoff_prover]
pub proof fn lemma_straight_line_pc(s: MachineState, op: Opcode, keys: Seq<bool>, quirks: Quirks)
    requires
        !(op is Jp || op is Call || op is Ret || op is JpV0 || op is SeVxByte || op is SneVxByte
            || op is SeVxVy || op is SneVxVy || op is Skp || op is Sknp),
    ensures
        execute_result(s, op, keys, quirks).1.pc == s.pc,
        execute_result(s, op, keys, quirks).1.stack == s.stack,
{
    reveal(execute_result);
    match op {
        Opcode::Drw(..) => {},
        Opcode::LdB(_) | Opcode::LdIVx(_) | Opcode::LdVxI(_) => {},
        Opcode::Rnd(..) | Opcode::AddIVx(_) | Opcode::LdVxK(_) => {},
        _ => {},
    }
}

/// Starting coordinates wrap: drawing at (x, y) is drawing at (x mod 64, y mod 32).
pub proof fn lemma_draw_start_wraps(pixels: Seq<bool>, x: u8, y: u8, sprite: Seq<u8>, wrap: bool)
    ensures
        draw_result(pixels, x, y, sprite, wrap) == draw_result(
            pixels,
            x % 64,
            y % 32,
            sprite,
            wrap,
        ),
{
}

/// A byte written to memory reads back, and no other address changes.
pub proof fn lemma_write_then_read(ram: Seq<u8>, addr: u16, value: u8, other: u16)
    requires
        ram.len() == MEMORY_SIZE,
        (addr as int) < MEMORY_SIZE,
    ensures
        crate::chip8::memory::read_byte_result(ram.update(addr as int, value), addr) == Ok::<
            u8,
            crate::chip8::memory::MemoryError,
        >(value),
        other != addr ==> crate::chip8::memory::read_byte_result(
            ram.update(addr as int, value),
            other,
        ) == crate::chip8::memory::read_byte_result(ram, other),
{
}

/// Loading a program puts it at 0x200 byte for byte and leaves the font
/// sprites and everything below the program area as they were.
pub proof fn lemma_rom_load(rom: Seq<u8>)
    requires
        rom.len() <= crate::chip8::memory::MAX_ROM_SIZE,
    ensures
        ({
            let ram = crate::chip8::memory::with_rom(crate::chip8::memory::initial_memory(), rom);
            &&& ram.len() == MEMORY_SIZE
            &&& forall|k: int| 0 <= k < rom.len() ==> #[trigger] ram[0x200 + k] == rom[k]
            &&& forall|a: int| 0 <= a < 0x200 ==> #[trigger] ram[a]
                == crate::chip8::memory::initial_memory()[a]
            &&& forall|k: int|
                0 <= k < crate::chip8::memory::FONT_SET_LEN ==> #[trigger] ram[0x50 + k]
                    == crate::chip8::memory::font_sprites()[k]
        }),
{
}

/// A key set pressed or released reads back so; the other keys are untouched.
pub proof fn lemma_key_set_then_read(keys: Seq<bool>, key: u8, pressed: bool, other: u8)
    requires
        keys.len() == crate::chip8::keypad::KEY_COUNT,
        key < 16,
    ensures
        crate::chip8::keypad::key_down(keys.update(key as int, pressed), key) == pressed,
        other != key ==> crate::chip8::keypad::key_down(keys.update(key as int, pressed), other)
            == crate::chip8::keypad::key_down(keys, other),
{
}

/// On the blank display a sprite never collides, and drawing it again
/// collides exactly when it lit some pixel.
pub proof fn lemma_draw_on_blank(x: u8, y: u8, sprite: Seq<u8>, wrap: bool)
    requires
        rows_apart(sprite, wrap),
    ensures
        ({
            let (once, hit) = draw_result(crate::chip8::display::blank(), x, y, sprite, wrap);
            &&& !hit
            &&& draw_result(once, x, y, sprite, wrap).1 == exists|i: int|
                0 <= i < PIXEL_COUNT && #[trigger] once[i]
        }),
{
    let blank = crate::chip8::display::blank();
    let sx = (x as int) % 64;
    let sy = (y as int) % 32;
    let n = sprite.len();
    let once = draw_result(blank, x, y, sprite, wrap).0;
    lemma_draw_collision(blank, x, y, sprite, wrap);
    lemma_draw_rows_flips(blank, sx, sy, sprite, wrap, n);
    assert forall|i: int| 0 <= i < PIXEL_COUNT implies #[trigger] once[i] == covered(
        sx,
        sy,
        sprite,
        wrap,
        n,
        i,
    ) by {
        lemma_flipped_is_covered(sx, sy, sprite, wrap, n, i);
    }
    let lit = exists|i: int| 0 <= i < PIXEL_COUNT && #[trigger] once[i];
    let fresh = exists|i: int|
        0 <= i < blank.len() && covered(sx, sy, sprite, wrap, n, i) && !#[trigger] blank[i];
    if lit {
        let i = choose|i: int| 0 <= i < PIXEL_COUNT && #[trigger] once[i];
        assert(!blank[i]);
        assert(fresh);
    }
    if fresh {
        let i = choose|i: int|
            0 <= i < blank.len() && covered(sx, sy, sprite, wrap, n, i) && !#[trigger] blank[i];
        assert(once[i]);
    }
    assert(!draw_result(blank, x, y, sprite, wrap).1) by {
        if draw_result(blank, x, y, sprite, wrap).1 {
            let i = choose|i: int|
                0 <= i < blank.len() && covered(sx, sy, sprite, wrap, n, i) && #[trigger] blank[i];
            assert(!blank[i]);
        }
    }
}

/// SE and SNE on the same operands are complementary: exactly one of them
/// skips the next instruction.
#[verifier::spinoff_prover]
#[verifier::rlimit(40)]
pub proof fn lemma_skips_complement(s: MachineState, x: u8, kk: u8, keys: Seq<bool>, quirks: Quirks)
    ensures
        ({
            let se = execute_result(s, Opcode::SeVxByte(x, kk), keys, quirks).1.pc;
            let sne = execute_result(s, Opcode::SneVxByte(x, kk), keys, quirks).1.pc;
            &&& se == s.pc || se == wrap16(s.pc + 2)
            &&& sne == s.pc || sne == wrap16(s.pc + 2)
            &&& (se == wrap16(s.pc + 2)) != (sne == wrap16(s.pc + 2))
        }),
{
    reveal(execute_result);
}

/// CXKK only sets bits of KK: the random byte is masked, so KK = 0 gives 0.
#[verifier::spinoff_prover]
pub proof fn lemma_rnd_masked(s: MachineState, x: u8, kk: u8, keys: Seq<bool>, quirks: Quirks)
    requires
        machine_wf(s),
        x < 16,
    ensures
        ({
            let r = execute_result(s, Opcode::Rnd(x, kk), keys, quirks).1.v[x as int];
            &&& r & kk == r
            &&& kk == 0 ==> r == 0
        }),
{
    let rng = crate::chip8::semantics::xorshift32(s.rng);
    let b = (rng % 256) as u8;
    assert(execute_result(s, Opcode::Rnd(x, kk), keys, quirks).1.v[x as int] == b & kk) by {
        reveal(execute_result);
    }
    assert((b & kk) & kk == b & kk) by (bit_vector);
    assert(b & 0u8 == 0u8) by (bit_vector);
}

/// Whether execution is paused after the user's `actions`, one per frame,
/// starting unpaused: each pause toggle flips it and each reset clears it.
pub open spec fn paused_after(actions: Seq<UserAction>) -> bool
    decreases actions.len(),
{
    if actions.len() == 0 {
        false
    } else {
        next_paused(actions.last(), paused_after(actions.drop_last()))
    }
}

/// A frame that succeeds answers what the run loop needs: it asks to stop
/// exactly on `Exit`, reports the new pause state, and, unless stopping,
/// sounds the tone exactly while the sound timer is non-zero and execution
/// runs.
pub proof fn lemma_frame_outcome(
    before: Emulator,
    action: UserAction,
    paused: bool,
    after: Emulator,
    o: FrameOutcome,
)
    requires
        frame_spec(before, action, paused, after, Ok(o)),
    ensures
        o.exit == (action == UserAction::Exit),
        o.paused == next_paused(action, paused),
        !o.exit ==> o.sound == (after.chip().timers.sound > 0 && !o.paused),
{
    if action == UserAction::Reset && before.rom().len() <= MAX_ROM_SIZE {
        let rng = choose|rng: u32|
            frame_done(
                #[trigger] fresh_machine(before.rom(), rng),
                after.chip().machine(),
                Ok::<FrameOutcome, EmulatorError>(o),
                before.chip().keypad@,
                before.chip().config.quirks,
                before.chip().config.cpu_hz,
                false,
            );
        assert(frame_done(
            fresh_machine(before.rom(), rng),
            after.chip().machine(),
            Ok::<FrameOutcome, EmulatorError>(o),
            before.chip().keypad@,
            before.chip().config.quirks,
            before.chip().config.cpu_hz,
            false,
        ));
    }
}

/// The frames of a run as the run loop strings them together: frame `j`
/// takes `before[j]` to `after[j]` with the outcome `outcomes[j]`, the pause
/// state it starts with is `paused[j]`, the next one starts from what the
/// last one ended with, and between frames only the keypad changes.
pub open spec fn frames_chained(
    before: Seq<Emulator>,
    after: Seq<Emulator>,
    actions: Seq<UserAction>,
    paused: Seq<bool>,
    outcomes: Seq<FrameOutcome>,
) -> bool {
    &&& before.len() == actions.len()
    &&& after.len() == actions.len()
    &&& outcomes.len() == actions.len()
    &&& paused.len() == actions.len() + 1
    &&& paused[0] == false
    &&& forall|j: int|
        0 <= j < actions.len() ==> #[trigger] frame_spec(
            before[j],
            actions[j],
            paused[j],
            after[j],
            Ok(outcomes[j]),
        )
    &&& forall|j: int| 0 <= j < actions.len() ==> paused[j + 1] == #[trigger] outcomes[j].paused
    &&& forall|j: int|
        0 < j < actions.len() ==> #[trigger] before[j].rom() == after[j - 1].rom()
            && before[j].chip() == (Chip8 { keypad: before[j].chip().keypad, ..after[j - 1].chip() })
}

/// The pause state and the configuration along the first `k` chained frames.
proof fn lemma_frames_prefix(
    before: Seq<Emulator>,
    after: Seq<Emulator>,
    actions: Seq<UserAction>,
    paused: Seq<bool>,
    outcomes: Seq<FrameOutcome>,
    k: nat,
)
    requires
        frames_chained(before, after, actions, paused, outcomes),
        k <= actions.len(),
    ensures
        forall|j: int| 0 <= j <= k ==> paused[j] == paused_after(#[trigger] actions.take(j)),
        forall|j: int|
            0 <= j < k ==> (#[trigger] after[j]).rom() == before[0].rom()
                && after[j].chip().config == before[0].chip().config,
    decreases k,
{
    assert(actions.take(0) =~= Seq::<UserAction>::empty());
    if k > 0 {
        let j = k - 1;
        lemma_frames_prefix(before, after, actions, paused, outcomes, j as nat);
        assert(frame_spec(before[j], actions[j], paused[j], after[j], Ok(outcomes[j])));
        lemma_frame_outcome(before[j], actions[j], paused[j], after[j], outcomes[j]);
        assert(paused[j + 1] == outcomes[j].paused);
        assert(actions.take(k as int).drop_last() =~= actions.take(j as int));
        assert(actions.take(k as int).last() == actions[j]);
        if j > 0 {
            assert(before[j].rom() == after[j - 1].rom());
            assert(after[j - 1].rom() == before[0].rom());
        }
    }
}

/// The run loop over any number of frames. Along frames that all succeed,
/// with the pause state handed from each frame to the next and only the
/// keypad changing in between:
/// - execution is paused after frame `j` exactly when the actions up to it
///   say so: each pause toggle flips it and each reset clears it;
/// - the program and the configuration never change, so every frame runs
///   at the same clock speed with the same quirks;
/// - a frame asks to stop exactly on `Exit`, and otherwise sounds the tone
///   exactly while the sound timer is non-zero and execution runs;
/// - on `Continue` or `PauseToggle` a running frame executes the frame's
///   cycles at that clock speed and steps the timers once, and a paused
///   frame changes nothing.
pub proof fn lemma_frame_sequence(
    before: Seq<Emulator>,
    after: Seq<Emulator>,
    actions: Seq<UserAction>,
    paused: Seq<bool>,
    outcomes: Seq<FrameOutcome>,
)
    requires
        frames_chained(before, after, actions, paused, outcomes),
    ensures
        forall|j: int| 0 <= j <= actions.len() ==> paused[j] == paused_after(#[trigger] actions.take(j)),
        forall|j: int|
            0 <= j < actions.len() ==> (#[trigger] after[j]).rom() == before[0].rom()
                && after[j].chip().config == before[0].chip().config,
        forall|j: int|
            0 <= j < actions.len() ==> (#[trigger] outcomes[j]).exit == (actions[j] == UserAction::Exit)
                && (!outcomes[j].exit ==> outcomes[j].sound == (after[j].chip().timers.sound > 0
                && !paused_after(actions.take(j + 1)))),
        forall|j: int|
            0 <= j < actions.len() && (actions[j] == UserAction::Continue || actions[j]
                == UserAction::PauseToggle) ==> (#[trigger] after[j]).chip().machine() == frame_result(
                before[j].chip().machine(),
                before[j].chip().keypad@,
                before[0].chip().config.quirks,
                before[0].chip().config.cpu_hz,
                paused_after(actions.take(j + 1)),
            ).1,
        forall|j: int|
            0 <= j < actions.len() && (actions[j] == UserAction::Continue || actions[j]
                == UserAction::PauseToggle) && paused_after(actions.take(j + 1)) ==> (#[trigger] after[j]).chip().machine()
                == before[j].chip().machine(),
{
    lemma_frames_prefix(before, after, actions, paused, outcomes, actions.len());
    assert forall|j: int| 0 <= j < actions.len() implies (#[trigger] outcomes[j]).exit == (actions[j]
        == UserAction::Exit) && (!outcomes[j].exit ==> outcomes[j].sound == (after[j].chip().timers.sound
        > 0 && !paused_after(actions.take(j + 1)))) by {
        assert(frame_spec(before[j], actions[j], paused[j], after[j], Ok(outcomes[j])));
        lemma_frame_outcome(before[j], actions[j], paused[j], after[j], outcomes[j]);
        assert(paused[j + 1] == outcomes[j].paused);
        assert(paused[j + 1] == paused_after(actions.take(j + 1)));
    }
    assert forall|j: int|
        0 <= j < actions.len() && (actions[j] == UserAction::Continue || actions[j]
            == UserAction::PauseToggle) implies (#[trigger] after[j]).chip().machine() == frame_result(
            before[j].chip().machine(),
            before[j].chip().keypad@,
            before[0].chip().config.quirks,
            before[0].chip().config.cpu_hz,
            paused_after(actions.take(j + 1)),
        ).1 by {
        assert(frame_spec(before[j], actions[j], paused[j], after[j], Ok(outcomes[j])));
        lemma_frame_outcome(before[j], actions[j], paused[j], after[j], outcomes[j]);
        assert(paused[j + 1] == outcomes[j].paused);
        assert(paused[j + 1] == paused_after(actions.take(j + 1)));
        assert(after[j].chip().config == before[0].chip().config);
    }
}

/// How many of the cycles that [`run_ticks`] performs from `s` execute a DXYN.
pub open spec fn draws_run(s: MachineState, keys: Seq<bool>, quirks: Quirks, n: nat) -> nat
    decreases n,
{
    if n == 0 {
        0
    } else {
        let (r, s1) = tick_result(s, keys, quirks);
        let here: nat = if draws_next(s) {
            1
        } else {
            0
        };
        if r is Err || (quirks.flag(WAIT_VBLANK) && draws_next(s)) {
            here
        } else {
            here + draws_run(s1, keys, quirks, (n - 1) as nat)
        }
    }
}

/// Under the VBlank quirk the cycles of a frame execute at most one DXYN,
/// and one that does ends in the state right after that draw.
pub proof fn lemma_wait_vblank_one_draw(s: MachineState, keys: Seq<bool>, quirks: Quirks, n: nat)
    requires
        quirks.flag(WAIT_VBLANK),
    ensures
        draws_run(s, keys, quirks, n) <= 1,
        n > 0 && draws_next(s) ==> run_ticks(s, keys, quirks, n) == tick_result(s, keys, quirks),
    decreases n,
{
    if n > 0 {
        let (r, s1) = tick_result(s, keys, quirks);
        match r {
            Ok(u) => {
                assert(u == ());
            },
            Err(_) => {},
        }
        lemma_wait_vblank_one_draw(s1, keys, quirks, (n - 1) as nat);
    }
}

/// 7XKK adds KK to VX modulo 256 and changes nothing else: it sets no carry
/// flag, so VF (for X other than F) and every other register keep their values.
#[verifier::spinoff_prover]
pub proof fn lemma_add_byte_sets_no_flag(
    s: MachineState,
    x: u8,
    kk: u8,
    keys: Seq<bool>,
    quirks: Quirks,
)
    requires
        machine_wf(s),
        x < 16,
    ensures
        ({
            let (r, post) = execute_result(s, Opcode::AddVxByte(x, kk), keys, quirks);
            &&& r is Ok
            &&& post.v[x as int] as int == (s.v[x as int] + kk) % 256
            &&& forall|k: int| 0 <= k < 16 && k != x ==> #[trigger] post.v[k] == s.v[k]
            &&& post.v.len() == 16
            &&& post == MachineState { v: post.v, ..s }
        }),
{
    reveal(execute_result);
}

/// After a DXYN that succeeds, VF is 1 exactly when the draw switched some lit
/// pixel off and 0 otherwise, whatever VF held before; every other register
/// keeps its value.
#[verifier::spinoff_prover]
pub proof fn lemma_draw_flag_reports_collision(
    s: MachineState,
    x: u8,
    y: u8,
    n: u8,
    keys: Seq<bool>,
    quirks: Quirks,
)
    requires
        machine_wf(s),
        x < 16,
        y < 16,
        n <= 16,
        execute_result(s, Opcode::Drw(x, y, n), keys, quirks).0 is Ok,
    ensures
        ({
            let post = execute_result(s, Opcode::Drw(x, y, n), keys, quirks).1;
            let switched_off = exists|i: int|
                0 <= i < PIXEL_COUNT && s.pixels[i] && !#[trigger] post.pixels[i];
            &&& post.v[VF as int] == (if switched_off {
                1u8
            } else {
                0u8
            })
            &&& forall|k: int| 0 <= k < 16 && k != VF ==> #[trigger] post.v[k] == s.v[k]
        }),
{
    reveal(execute_result);
    let rows = sprite_rows(n);
    let sprite = s.ram.subrange(s.i as int, s.i + rows);
    let wrap = quirks.flag(crate::chip8::config::SPRITE_WRAP);
    let sx = (s.v[x as int] as int) % 64;
    let sy = (s.v[y as int] as int) % 32;
    let once = draw_result(s.pixels, s.v[x as int], s.v[y as int], sprite, wrap).0;
    let post = execute_result(s, Opcode::Drw(x, y, n), keys, quirks).1;
    assert(post.pixels == once);
    lemma_draw_collision(s.pixels, s.v[x as int], s.v[y as int], sprite, wrap);
    lemma_draw_rows_flips(s.pixels, sx, sy, sprite, wrap, sprite.len());
    assert forall|i: int| 0 <= i < PIXEL_COUNT implies #[trigger] once[i] == (s.pixels[i]
        != covered(sx, sy, sprite, wrap, sprite.len(), i)) by {
        lemma_flipped_is_covered(sx, sy, sprite, wrap, sprite.len(), i);
    }
    let hit = draw_result(s.pixels, s.v[x as int], s.v[y as int], sprite, wrap).1;
    if hit {
        let i = choose|i: int|
            0 <= i < s.pixels.len() && covered(sx, sy, sprite, wrap, sprite.len(), i)
                && #[trigger] s.pixels[i];
        assert(!post.pixels[i]);
    }
    if exists|i: int| 0 <= i < PIXEL_COUNT && s.pixels[i] && !#[trigger] post.pixels[i] {
        let i = choose|i: int| 0 <= i < PIXEL_COUNT && s.pixels[i] && !#[trigger] post.pixels[i];
        assert(covered(sx, sy, sprite, wrap, sprite.len(), i));
    }
}

} // verus!
