//! Quirk configuration.
//!
//! Chip-8 interpreters differ in how a handful of opcodes behave. Each
//! behavioural difference is a flag bit of [`Quirks`]; [`Config`] pairs the
//! active flags with the CPU clock speed.

use vstd::prelude::*;
use vstd::string::StringExecFns;

verus! {

/// Whether flag bit `k` is set in `bits`.
pub open spec fn bit_set(bits: u8, k: u8) -> bool {
    bits & (1u8 << k) != 0
}

/// The names of the flags among bits `0..k` set in `bits`, lowest first,
/// separated by ` | `, and whether there is any.
pub open spec fn names_below(bits: u8, k: nat) -> (Seq<char>, bool)
    decreases k,
{
    if k == 0 {
        (Seq::empty(), false)
    } else {
        let (text, any) = names_below(bits, (k - 1) as nat);
        if bit_set(bits, (k - 1) as u8) {
            if any {
                (text + " | "@ + flag_name(k - 1), true)
            } else {
                (text + flag_name(k - 1), true)
            }
        } else {
            (text, any)
        }
    }
}

/// The names of the set flags, lowest bit first, separated by ` | `, or
/// `empty` when none is set.
pub open spec fn names_text(q: Quirks) -> Seq<char> {
    let (text, any) = names_below(q.spec_bits(), 8);
    if any {
        text
    } else {
        "empty"@
    }
}

/// The name of flag bit `k` (0 is the lowest).
pub open spec fn flag_name(k: int) -> Seq<char> {
    if k == 0 {
        "SHIFT_VY"@
    } else if k == 1 {
        "I_INCREMENT"@
    } else if k == 2 {
        "VF_RESET"@
    } else if k == 3 {
        "JUMP_VX"@
    } else if k == 4 {
        "WAIT_VBLANK"@
    } else if k == 5 {
        "KEY_RELEASE"@
    } else if k == 6 {
        "SPRITE_WRAP"@
    } else {
        "I_OVERFLOW_VF"@
    }
}

fn flag_name_str(k: u8) -> (r: &'static str)
    requires
        k < 8,
    ensures
        r@ == flag_name(k as int),
{
    match k {
        0 => "SHIFT_VY",
        1 => "I_INCREMENT",
        2 => "VF_RESET",
        3 => "JUMP_VX",
        4 => "WAIT_VBLANK",
        5 => "KEY_RELEASE",
        6 => "SPRITE_WRAP",
        _ => "I_OVERFLOW_VF",
    }
}

/// A set of quirk flags, one bit per behavioural difference.
#[derive(Debug, Clone, Copy, PartialEq, Eq, Hash, Structural)]
pub struct Quirks {
    bits: u8,
}

/// Shift quirk (8XY6/8XYE): the shift source is VY instead of VX.
pub const SHIFT_VY: u8 = 0b0000_0001;

/// I increment quirk (FX55/FX65): I advances past the registers moved.
pub const I_INCREMENT: u8 = 0b0000_0010;

/// VF reset quirk (8XY1/8XY2/8XY3): VF is cleared after OR/AND/XOR.
pub const VF_RESET: u8 = 0b0000_0100;

/// Jump quirk (BNNN): the offset register is VX (high nibble of NNN), not V0.
pub const JUMP_VX: u8 = 0b0000_1000;

/// VBlank wait quirk (DXYN): a draw waits for the vertical blank, so it ends
/// the frame's remaining cycles (see `run_ticks` at the crate root).
pub const WAIT_VBLANK: u8 = 0b0001_0000;

/// Key release quirk (FX0A): the instruction completes when the key is released.
pub const KEY_RELEASE: u8 = 0b0010_0000;

/// Sprite wrap quirk (DXYN): sprite pixels past an edge wrap around instead of being clipped.
pub const SPRITE_WRAP: u8 = 0b0100_0000;

/// Index overflow quirk (FX1E): VF is set when I passes 0xFFF.
pub const I_OVERFLOW_VF: u8 = 0b1000_0000;

impl Quirks {
    /// The set holding only the flag [`SHIFT_VY`].
    pub fn shift_vy() -> (r: Quirks)
        ensures
            r.spec_bits() == SHIFT_VY,
    {
        Quirks { bits: SHIFT_VY }
    }

    /// The set holding only the flag [`I_INCREMENT`].
    pub fn i_increment() -> (r: Quirks)
        ensures
            r.spec_bits() == I_INCREMENT,
    {
        Quirks { bits: I_INCREMENT }
    }

    /// The set holding only the flag [`VF_RESET`].
    pub fn vf_reset() -> (r: Quirks)
        ensures
            r.spec_bits() == VF_RESET,
    {
        Quirks { bits: VF_RESET }
    }

    /// The set holding only the flag [`JUMP_VX`].
    pub fn jump_vx() -> (r: Quirks)
        ensures
            r.spec_bits() == JUMP_VX,
    {
        Quirks { bits: JUMP_VX }
    }

    /// The set holding only the flag [`WAIT_VBLANK`].
    pub fn wait_vblank() -> (r: Quirks)
        ensures
            r.spec_bits() == WAIT_VBLANK,
    {
        Quirks { bits: WAIT_VBLANK }
    }

    /// The set holding only the flag [`KEY_RELEASE`].
    pub fn key_release() -> (r: Quirks)
        ensures
            r.spec_bits() == KEY_RELEASE,
    {
        Quirks { bits: KEY_RELEASE }
    }

    /// The set holding only the flag [`SPRITE_WRAP`].
    pub fn sprite_wrap() -> (r: Quirks)
        ensures
            r.spec_bits() == SPRITE_WRAP,
    {
        Quirks { bits: SPRITE_WRAP }
    }

    /// The set holding only the flag [`I_OVERFLOW_VF`].
    pub fn i_overflow_vf() -> (r: Quirks)
        ensures
            r.spec_bits() == I_OVERFLOW_VF,
    {
        Quirks { bits: I_OVERFLOW_VF }
    }

    /// The raw flag bits.
    pub closed spec fn spec_bits(self) -> u8 {
        self.bits
    }

    /// Every flag of `other` is set in `self`.
    pub open spec fn has(self, other: Quirks) -> bool {
        self.spec_bits() & other.spec_bits() == other.spec_bits()
    }

    /// Every bit of `flag` is set in `self`.
    pub open spec fn flag(self, flag: u8) -> bool {
        self.spec_bits() & flag == flag
    }

    /// Returns the raw flag bits.
    pub fn bits(&self) -> (r: u8)
        ensures
            r == self.spec_bits(),
    {
        self.bits
    }

    /// Builds a flag set from raw bits; every bit names a known quirk.
    pub fn from_bits_truncate(bits: u8) -> (r: Quirks)
        ensures
            r.spec_bits() == bits,
    {
        Quirks { bits }
    }

    /// The set with no flag.
    pub fn empty() -> (r: Quirks)
        ensures
            r.spec_bits() == 0,
    {
        Quirks { bits: 0 }
    }

    /// Whether every flag of `other` is set in `self`.
    pub fn contains(&self, other: Quirks) -> (r: bool)
        ensures
            r == self.has(other),
    {
        self.bits & other.bits == other.bits
    }

    /// The flags set in `self` or in `other`.
    pub fn union(self, other: Quirks) -> (r: Quirks)
        ensures
            r.spec_bits() == self.spec_bits() | other.spec_bits(),
    {
        Quirks { bits: self.bits | other.bits }
    }

    /// The names of the set flags, lowest bit first, separated by ` | `, or
    /// `empty`; see [`names_text`].
    pub fn names(&self) -> (r: String)
        ensures
            r@ == names_text(*self),
    {
        let mut s = String::new();
        let mut first = true;
        let mut k: u8 = 0;
        while k < 8
            invariant
                k <= 8,
                s@ == names_below(self.bits, k as nat).0,
                first == !names_below(self.bits, k as nat).1,
                first ==> s@ == Seq::<char>::empty(),
            decreases 8 - k,
        {
            if self.bits & (1u8 << k) != 0 {
                if !first {
                    s.append(" | ");
                }
                s.append(flag_name_str(k));
                first = false;
            }
            k += 1;
        }
        if first {
            s.append("empty");
        }
        proof {
            if first {
                assert(s@ =~= "empty"@);
            }
        }
        s
    }

    /// COSMAC VIP configuration: the behavior of the 1977 hardware.
    pub fn cosmac_vip() -> (r: Quirks)
        ensures
            r.spec_bits() == (SHIFT_VY | I_INCREMENT | VF_RESET | WAIT_VBLANK),
    {
        Quirks::shift_vy().union(Quirks::i_increment()).union(Quirks::vf_reset()).union(
            Quirks::wait_vblank(),
        )
    }

    /// Modern configuration: common interpreter behavior (the default), no quirk set.
    pub fn modern() -> (r: Quirks)
        ensures
            r.spec_bits() == 0,
    {
        Quirks::empty()
    }

    /// HP48 configuration: BNNN jumps use VX.
    pub fn hp48() -> (r: Quirks)
        ensures
            r.spec_bits() == JUMP_VX,
    {
        Quirks::jump_vx()
    }
}

impl Default for Quirks {
    fn default() -> (r: Quirks)
        ensures
            r.spec_bits() == 0,
    {
        Quirks::modern()
    }
}

/// The emulator configuration: active quirks and CPU clock speed.
#[derive(Debug, Clone, Copy, PartialEq, Eq, Structural)]
pub struct Config {
    /// The active quirk flags.
    pub quirks: Quirks,
    /// CPU clock speed in Hz.
    pub cpu_hz: u32,
}

/// The clock speed used when none is configured.
pub const DEFAULT_CPU_HZ: u32 = 700;

impl Config {
    /// This is the default configuration: modern quirks at 700 Hz.
    pub open spec fn is_default(self) -> bool {
        self.quirks.spec_bits() == 0 && self.cpu_hz == DEFAULT_CPU_HZ
    }

    /// Creates a new configuration with default settings.
    pub fn new() -> (r: Config)
        ensures
            r.is_default(),
    {
        Config { quirks: Quirks::modern(), cpu_hz: DEFAULT_CPU_HZ }
    }
}

impl Default for Config {
    fn default() -> (r: Config)
        ensures
            r.is_default(),
    {
        Config::new()
    }
}

} // verus!
