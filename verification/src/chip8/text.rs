//! Rendering numbers as text, for instruction mnemonics and messages.

use vstd::prelude::*;

verus! {

/// Calls `String::push`: `c` is appended to `s`.
#[verifier::external_body]
pub fn push_char(s: &mut String, c: char)
    ensures
        final(s)@ == old(s)@.push(c),
{
    s.push(c);
}

/// The uppercase hexadecimal digit of `d` (0..16).
pub open spec fn hex_char(d: int) -> char {
    if d == 0 {
        '0'
    } else if d == 1 {
        '1'
    } else if d == 2 {
        '2'
    } else if d == 3 {
        '3'
    } else if d == 4 {
        '4'
    } else if d == 5 {
        '5'
    } else if d == 6 {
        '6'
    } else if d == 7 {
        '7'
    } else if d == 8 {
        '8'
    } else if d == 9 {
        '9'
    } else if d == 10 {
        'A'
    } else if d == 11 {
        'B'
    } else if d == 12 {
        'C'
    } else if d == 13 {
        'D'
    } else if d == 14 {
        'E'
    } else {
        'F'
    }
}

/// `base` raised to `p`.
pub open spec fn power(base: int, p: int) -> int
    decreases p,
{
    if p <= 0 {
        1
    } else {
        base * power(base, p - 1)
    }
}

/// The number of digits of `n` in `base`, at least one (for `n` below `base`^5).
pub open spec fn digit_count(n: int, base: int) -> int {
    if n < base {
        1
    } else if n < base * base {
        2
    } else if n < base * base * base {
        3
    } else if n < base * base * base * base {
        4
    } else {
        5
    }
}

/// `n` written in `base` with at least `min_width` digits, most significant
/// first, zero-padded; digit values are rendered by [`hex_char`].
pub open spec fn digits(n: int, base: int, min_width: int) -> Seq<char> {
    let width = if digit_count(n, base) >= min_width {
        digit_count(n, base)
    } else {
        min_width
    };
    Seq::new(width as nat, |k: int| hex_char((n / power(base, width - 1 - k)) % base))
}

/// The digit of `d` (0..16) as [`hex_char`] gives it.
pub fn digit_char(d: u32) -> (c: char)
    requires
        d < 16,
    ensures
        c == hex_char(d as int),
{
    match d {
        0 => '0',
        1 => '1',
        2 => '2',
        3 => '3',
        4 => '4',
        5 => '5',
        6 => '6',
        7 => '7',
        8 => '8',
        9 => '9',
        10 => 'A',
        11 => 'B',
        12 => 'C',
        13 => 'D',
        14 => 'E',
        _ => 'F',
    }
}

/// Appends `n` in `base` (10 or 16), zero-padded to `min_width` digits.
pub fn push_digits(s: &mut String, n: u16, base: u32, min_width: u32)
    requires
        base == 10 || base == 16,
        min_width <= 5,
    ensures
        final(s)@ == old(s)@ + digits(n as int, base as int, min_width as int),
{
    proof {
        reveal_with_fuel(power, 6);
    }
    let (b2, b3, b4): (u32, u32, u32) = if base == 10 {
        (100, 1000, 10000)
    } else {
        (256, 4096, 65536)
    };
    assert(b2 == base * base && b3 == base * base * base && b4 == base * base * base * base);
    assert(power(base as int, 4) == b4);
    let count: u32 = if (n as u32) < base {
        1
    } else if (n as u32) < b2 {
        2
    } else if (n as u32) < b3 {
        3
    } else if (n as u32) < b4 {
        4
    } else {
        5
    };
    let width: u32 = if count >= min_width {
        count
    } else {
        min_width
    };
    let ghost start = s@;
    let ghost all = digits(n as int, base as int, min_width as int);
    assert(all.len() == width);
    let mut k: u32 = 0;
    while k < width
        invariant
            base == 10 || base == 16,
            k <= width <= 5,
            power(base as int, 4) <= 65536,
            all == digits(n as int, base as int, min_width as int),
            all.len() == width,
            s@ == start + all.take(k as int),
        decreases width - k,
    {
        let p: u32 = width - 1 - k;
        let mut divisor: u32 = 1;
        let mut j: u32 = 0;
        while j < p
            invariant
                base == 10 || base == 16,
                j <= p <= 4,
                divisor == power(base as int, j as int),
                power(base as int, 4) <= 65536,
                1 <= divisor <= power(base as int, j as int),
            decreases p - j,
        {
            proof {
                reveal_with_fuel(power, 6);
            }
            divisor = divisor * base;
            j += 1;
        }
        let d: u32 = (n as u32 / divisor) % base;
        push_char(s, digit_char(d));
        assert(all.take(k + 1) =~= all.take(k as int).push(all[k as int]));
        k += 1;
    }
    assert(all.take(width as int) =~= all);
}

} // verus!
