//! The decisions of the terminal frontend: what a key event means, and where
//! the framed display goes on the screen.

use vstd::prelude::*;

use super::{chip8_key, map_key_to_chip8, UserAction};

verus! {

/// A key as the terminal reports it.
#[derive(Debug, Clone, Copy, PartialEq, Eq, Structural)]
pub enum TermKey {
    /// The Escape key.
    Esc,
    /// A character key.
    Char(char),
    /// The up arrow.
    Up,
    /// The down arrow.
    Down,
    /// The left arrow.
    Left,
    /// The right arrow.
    Right,
    /// Any other key.
    Other,
}

/// A Chip-8 key to press or release.
#[derive(Debug, Clone, Copy, PartialEq, Eq, Structural)]
pub struct KeyChange {
    /// The Chip-8 key code.
    pub key: u8,
    /// Press (`true`) or release (`false`).
    pub pressed: bool,
}

/// What one key event does: an action for the run loop, and a Chip-8 key to
/// press or release.
#[derive(Debug, Clone, Copy, PartialEq, Eq, Structural)]
pub struct KeyEffect {
    /// The action the event asks for, if any.
    pub action: Option<UserAction>,
    /// The Chip-8 key the event presses or releases, if any.
    pub key: Option<KeyChange>,
}

/// The effect of `key` being pressed (or repeated), or released when `released`.
///
/// Escape exits; P pauses and R resets on a press; the arrows stand for the
/// Chip-8 keys 1, 4, 7 and 9; other characters go through [`chip8_key`].
pub open spec fn key_effect_spec(key: TermKey, released: bool) -> KeyEffect {
    let none = KeyEffect { action: None, key: None };
    match key {
        TermKey::Esc => KeyEffect { action: Some(UserAction::Exit), key: None },
        TermKey::Char(c) => if c == 'p' || c == 'P' {
            if released {
                none
            } else {
                KeyEffect { action: Some(UserAction::PauseToggle), key: None }
            }
        } else if c == 'r' || c == 'R' {
            if released {
                none
            } else {
                KeyEffect { action: Some(UserAction::Reset), key: None }
            }
        } else {
            match chip8_key(c) {
                Some(k) => KeyEffect { action: None, key: Some(KeyChange { key: k, pressed: !released }) },
                None => none,
            }
        },
        TermKey::Up => KeyEffect { action: None, key: Some(KeyChange { key: 0x1u8, pressed: !released }) },
        TermKey::Down => KeyEffect { action: None, key: Some(KeyChange { key: 0x4u8, pressed: !released }) },
        TermKey::Left => KeyEffect { action: None, key: Some(KeyChange { key: 0x7u8, pressed: !released }) },
        TermKey::Right => KeyEffect { action: None, key: Some(KeyChange { key: 0x9u8, pressed: !released }) },
        TermKey::Other => none,
    }
}

/// What a terminal key event does; see [`key_effect_spec`].
pub fn key_effect(key: TermKey, released: bool) -> (r: KeyEffect)
    ensures
        r == key_effect_spec(key, released),
        r.key matches Some(change) ==> change.key < 16,
{
    let none = KeyEffect { action: None, key: None };
    match key {
        TermKey::Esc => KeyEffect { action: Some(UserAction::Exit), key: None },
        TermKey::Char(c) => {
            if c == 'p' || c == 'P' {
                if released {
                    none
                } else {
                    KeyEffect { action: Some(UserAction::PauseToggle), key: None }
                }
            } else if c == 'r' || c == 'R' {
                if released {
                    none
                } else {
                    KeyEffect { action: Some(UserAction::Reset), key: None }
                }
            } else {
                match map_key_to_chip8(c) {
                    Some(k) => KeyEffect { action: None, key: Some(KeyChange { key: k, pressed: !released }) },
                    None => none,
                }
            }
        },
        TermKey::Up => KeyEffect { action: None, key: Some(KeyChange { key: 0x1, pressed: !released }) },
        TermKey::Down => KeyEffect { action: None, key: Some(KeyChange { key: 0x4, pressed: !released }) },
        TermKey::Left => KeyEffect { action: None, key: Some(KeyChange { key: 0x7, pressed: !released }) },
        TermKey::Right => KeyEffect { action: None, key: Some(KeyChange { key: 0x9, pressed: !released }) },
        TermKey::Other => none,
    }
}

/// A rectangle of terminal cells.
#[derive(Debug, Clone, Copy, PartialEq, Eq, Structural)]
pub struct Rect {
    /// Column of the left edge.
    pub x: u16,
    /// Row of the top edge.
    pub y: u16,
    /// Width in cells.
    pub width: u16,
    /// Height in cells.
    pub height: u16,
}

/// `a - b`, or 0 when `b` is larger.
pub open spec fn sat_sub(a: u16, b: u16) -> int {
    if a > b {
        a - b
    } else {
        0
    }
}

/// `a + b`, or `u16::MAX` when the sum does not fit.
pub open spec fn sat_add(a: u16, b: int) -> int {
    if a + b > u16::MAX {
        u16::MAX as int
    } else {
        a + b
    }
}

/// The smaller of `a` and `b`.
pub open spec fn min16(a: u16, b: u16) -> u16 {
    if a < b {
        a
    } else {
        b
    }
}

/// A rectangle of `width` x `height` centered in `outer`, shrunk to fit it.
pub fn centered_rect(outer: Rect, width: u16, height: u16) -> (r: Rect)
    ensures
        r.x == sat_add(outer.x, sat_sub(outer.width, width) / 2),
        r.y == sat_add(outer.y, sat_sub(outer.height, height) / 2),
        r.width == min16(width, outer.width),
        r.height == min16(height, outer.height),
{
    let x = outer.x.saturating_add(outer.width.saturating_sub(width) / 2);
    let y = outer.y.saturating_add(outer.height.saturating_sub(height) / 2);
    let w = if width < outer.width {
        width
    } else {
        outer.width
    };
    let h = if height < outer.height {
        height
    } else {
        outer.height
    };
    Rect { x, y, width: w, height: h }
}

/// How long a key stays down without a new press, on terminals that report
/// no key releases: 150 ms.
pub const KEY_DECAY_NANOS: u128 = 150_000_000;

/// Whether a key last pressed `elapsed_nanos` nanoseconds ago counts as
/// released: more than [`KEY_DECAY_NANOS`] have passed.
pub fn key_expired(elapsed_nanos: u128) -> (r: bool)
    ensures
        r == (elapsed_nanos > KEY_DECAY_NANOS),
{
    elapsed_nanos > KEY_DECAY_NANOS
}

/// The arrow keys stand for fixed Chip-8 keys, the same as their character
/// keys in the layout: Up is 1 (the `1` key), Down is 4 (`Q`), Left is 7
/// (`A`) and Right is 9 (`D`).
pub proof fn lemma_arrow_keys(released: bool)
    ensures
        key_effect_spec(TermKey::Up, released) == key_effect_spec(TermKey::Char('1'), released),
        key_effect_spec(TermKey::Down, released) == key_effect_spec(TermKey::Char('q'), released),
        key_effect_spec(TermKey::Left, released) == key_effect_spec(TermKey::Char('a'), released),
        key_effect_spec(TermKey::Right, released) == key_effect_spec(TermKey::Char('d'), released),
        key_effect_spec(TermKey::Up, released).key == Some(KeyChange { key: 0x1, pressed: !released }),
        key_effect_spec(TermKey::Down, released).key == Some(KeyChange { key: 0x4, pressed: !released }),
        key_effect_spec(TermKey::Left, released).key == Some(KeyChange { key: 0x7, pressed: !released }),
        key_effect_spec(TermKey::Right, released).key == Some(KeyChange { key: 0x9, pressed: !released }),
{
}

/// Releasing a key releases the Chip-8 key that pressing it pressed.
pub proof fn lemma_release_matches_press(key: TermKey)
    ensures
        key_effect_spec(key, false).key matches Some(c) ==> c.pressed && key_effect_spec(
            key,
            true,
        ).key == Some(KeyChange { key: c.key, pressed: false }),
        key_effect_spec(key, true).key matches Some(c) ==> key_effect_spec(key, false).key == Some(
            KeyChange { key: c.key, pressed: true },
        ),
{
}

} // verus!
