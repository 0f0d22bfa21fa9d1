//! What a display frontend does, and the input rules the frontends share.
//!
//! A frontend handles input, renders the display and paces the frames; the
//! emulator's run loop drives it once per frame.

pub mod terminal;

use vstd::prelude::*;

use crate::chip8::display::Display;
use crate::chip8::keypad::Keypad;

verus! {

/// An action the user asks for through the frontend.
#[derive(Debug, Clone, Copy, PartialEq, Eq, Structural)]
pub enum UserAction {
    /// Continue execution normally.
    Continue,
    /// Exit the emulator.
    Exit,
    /// Pause or resume execution.
    PauseToggle,
    /// Reset the emulator to its initial state.
    Reset,
}

/// A display backend, driven once per frame by the run loop.
pub trait Frontend {
    /// Processes pending input events, updates the keypad, and tells what
    /// the user asked for.
    fn handle_events(&mut self, keypad: &mut Keypad) -> UserAction;

    /// Presents the display.
    fn render(&mut self, display: &Display);

    /// Waits until the next frame is due.
    fn wait_for_next_frame(&mut self);

    /// Tells whether a tone should sound (the sound timer is non-zero);
    /// frontends without sound ignore it.
    fn update_sound(&mut self, _active: bool) {
    }
}

/// The Chip-8 key that a PC keyboard key stands for.
///
/// The layout follows Cowgod's; I and K also stand for C and D, and Space
/// for 5:
///
/// ```text
/// Chip-8  ->  PC keyboard
/// 1 2 3 C     1 2 3 4
/// 4 5 6 D     Q W E R
/// 7 8 9 E     A S D F
/// A 0 B F     Z X C V
/// ```
pub open spec fn chip8_key(key: char) -> Option<u8> {
    match key {
        '1' => Some(0x1u8),
        '2' => Some(0x2u8),
        '3' => Some(0x3u8),
        '4' => Some(0xCu8),
        'q' | 'Q' => Some(0x4u8),
        'w' | 'W' => Some(0x5u8),
        's' | 'S' => Some(0x8u8),
        'e' | 'E' => Some(0x6u8),
        'r' | 'R' => Some(0xDu8),
        'i' | 'I' => Some(0xCu8),
        'k' | 'K' => Some(0xDu8),
        'a' | 'A' => Some(0x7u8),
        'd' | 'D' => Some(0x9u8),
        'f' | 'F' => Some(0xEu8),
        'z' | 'Z' => Some(0xAu8),
        'x' | 'X' => Some(0x0u8),
        'c' | 'C' => Some(0xBu8),
        'v' | 'V' => Some(0xFu8),
        ' ' => Some(0x5u8),
        _ => None,
    }
}

/// Maps a PC keyboard key to a Chip-8 key code (0x0-0xF), or `None` when the
/// key has no Chip-8 equivalent; see [`chip8_key`] for the layout.
pub fn map_key_to_chip8(key: char) -> (r: Option<u8>)
    ensures
        r == chip8_key(key),
        r matches Some(k) ==> k < 16,
{
    match key {
        '1' => Some(0x1),
        '2' => Some(0x2),
        '3' => Some(0x3),
        '4' => Some(0xC),
        'q' | 'Q' => Some(0x4),
        'w' | 'W' => Some(0x5),
        's' | 'S' => Some(0x8),
        'e' | 'E' => Some(0x6),
        'r' | 'R' => Some(0xD),
        'i' | 'I' => Some(0xC),
        'k' | 'K' => Some(0xD),
        'a' | 'A' => Some(0x7),
        'd' | 'D' => Some(0x9),
        'f' | 'F' => Some(0xE),
        'z' | 'Z' => Some(0xA),
        'x' | 'X' => Some(0x0),
        'c' | 'C' => Some(0xB),
        'v' | 'V' => Some(0xF),
        ' ' => Some(0x5),
        _ => None,
    }
}

} // verus!
