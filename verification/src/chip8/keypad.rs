//! The 16-key hexadecimal keypad.

use vstd::prelude::*;

verus! {

/// The Chip-8 keypad has 16 keys.
pub const KEY_COUNT: usize = 16;

/// The state of the 16 keys, pressed or released.
#[derive(Debug, Clone, Copy)]
pub struct Keypad {
    keys: [bool; KEY_COUNT],
}

impl View for Keypad {
    type V = Seq<bool>;

    /// Entry `k` tells whether key `k` is pressed.
    closed spec fn view(&self) -> Seq<bool> {
        self.keys@
    }
}

impl Keypad {
    /// The view holds exactly one entry per key.
    pub broadcast proof fn lemma_view_len(&self)
        ensures
            #[trigger] self@.len() == KEY_COUNT,
    {
    }
}

/// Whether `key` names a pressed key in `keys`; codes past the keypad are never pressed.
pub open spec fn key_down(keys: Seq<bool>, key: u8) -> bool {
    (key as int) < keys.len() && keys[key as int]
}

/// The lowest pressed key, if any.
pub open spec fn first_pressed(keys: Seq<bool>) -> Option<u8> {
    if exists|k: int| 0 <= k < keys.len() && #[trigger] keys[k] {
        let k = choose|k: int|
            0 <= k < keys.len() && #[trigger] keys[k] && forall|j: int| 0 <= j < k ==> !keys[j];
        Some(k as u8)
    } else {
        None
    }
}

impl Keypad {
    /// Creates a keypad with every key released.
    pub fn new() -> (r: Keypad)
        ensures
            r@ == Seq::new(KEY_COUNT as nat, |k: int| false),
    {
        let r = Keypad { keys: [false; KEY_COUNT] };
        assert(r@ =~= Seq::new(KEY_COUNT as nat, |k: int| false));
        r
    }

    /// Whether the key with code `key_code` is pressed; codes past 0xF never are.
    pub fn is_key_pressed(&self, key_code: u8) -> (r: bool)
        ensures
            r == key_down(self@, key_code),
    {
        if (key_code as usize) < KEY_COUNT {
            self.keys[key_code as usize]
        } else {
            false
        }
    }

    /// Presses or releases the key with code `key_code`; codes past 0xF are ignored.
    pub fn set_key_pressed(&mut self, key_code: u8, pressed: bool)
        ensures
            (key_code as int) < KEY_COUNT ==> final(self)@ == old(self)@.update(key_code as int, pressed),
            (key_code as int) >= KEY_COUNT ==> final(self)@ == old(self)@,
    {
        if (key_code as usize) < KEY_COUNT {
            self.keys[key_code as usize] = pressed;
        }
    }

    /// The code of the lowest-numbered pressed key, if any key is pressed.
    pub fn get_key_pressed(&self) -> (r: Option<u8>)
        ensures
            r == first_pressed(self@),
    {
        let mut i: usize = 0;
        while i < KEY_COUNT
            invariant
                i <= KEY_COUNT,
                self@.len() == KEY_COUNT,
                forall|j: int| 0 <= j < i ==> !self@[j],
            decreases KEY_COUNT - i,
        {
            if self.keys[i] {
                proof {
                    let k = choose|k: int|
                        0 <= k < self@.len() && #[trigger] self@[k] && forall|j: int|
                            0 <= j < k ==> !self@[j];
                    assert(0 <= k < self@.len() && self@[k]);
                    if k < i {
                    } else if k > i as int {
                        assert(!self@[i as int]);
                    }
                }
                return Some(i as u8);
            }
            i += 1;
        }
        None
    }
}

impl Default for Keypad {
    fn default() -> (r: Keypad)
        ensures
            r@ == Seq::new(KEY_COUNT as nat, |k: int| false),
    {
        Keypad::new()
    }
}

} // verus!
