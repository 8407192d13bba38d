//! Decimal and padding helpers shared by every formatter of the library.
//!
//! The spec functions give the exact character sequence a number renders to;
//! the exec functions produce `String`s proved equal to those sequences.

use vstd::prelude::*;

verus! {

/// The decimal digit character for `d` (meaningful for `0 <= d <= 9`).
pub open spec fn spec_digit(d: int) -> char {
    if d == 0 {
        '0'
    } else if d == 1 {
        '1'
    } else if d == 2 {
        '2'
    } else if d == 3 {
        '3'
    } else if d == 4 {
        '4'
    } else if d == 5 {
        '5'
    } else if d == 6 {
        '6'
    } else if d == 7 {
        '7'
    } else if d == 8 {
        '8'
    } else {
        '9'
    }
}

/// Decimal rendering of a non-negative integer, without padding.
pub open spec fn spec_dec(n: int) -> Seq<char>
    recommends
        n >= 0,
    decreases n,
{
    if n < 10 {
        seq![spec_digit(n)]
    } else {
        spec_dec(n / 10).push(spec_digit(n % 10))
    }
}

/// Decimal rendering of the last `width` digits of `n`, zero padded.
/// For `n < 10^width` this is `n` itself, zero padded to `width` digits.
pub open spec fn spec_dec_pad(n: int, width: nat) -> Seq<char>
    recommends
        n >= 0,
    decreases width,
{
    if width == 0 {
        Seq::<char>::empty()
    } else {
        spec_dec_pad(n / 10, (width - 1) as nat).push(spec_digit(n % 10))
    }
}

/// The lowercase hexadecimal digit character for `d` (meaningful for
/// `0 <= d <= 15`).
pub open spec fn spec_hex_digit(d: int) -> char {
    if d < 10 {
        spec_digit(d)
    } else if d == 10 {
        'a'
    } else if d == 11 {
        'b'
    } else if d == 12 {
        'c'
    } else if d == 13 {
        'd'
    } else if d == 14 {
        'e'
    } else {
        'f'
    }
}

/// Lowercase hexadecimal rendering of a non-negative integer, without
/// padding.
pub open spec fn spec_hex(n: int) -> Seq<char>
    recommends
        n >= 0,
    decreases n,
{
    if n < 16 {
        seq![spec_hex_digit(n)]
    } else {
        spec_hex(n / 16).push(spec_hex_digit(n % 16))
    }
}

/// A duration of `us` microseconds rendered in milliseconds with two decimal
/// places, rounded to the nearest hundredth of a millisecond (ties upward).
pub open spec fn spec_ms_two_decimals(us: int) -> Seq<char>
    recommends
        us >= 0,
{
    let hundredths = (us + 5) / 10;
    spec_dec(hundredths / 100) + seq!['.'] + spec_dec_pad(hundredths % 100, 2)
}

/// `true` / `false`, as the plain display of a boolean.
pub open spec fn spec_bool(b: bool) -> Seq<char> {
    if b {
        seq!['t', 'r', 'u', 'e']
    } else {
        seq!['f', 'a', 'l', 's', 'e']
    }
}

/// `n` space characters.
pub open spec fn spec_spaces(n: nat) -> Seq<char>
    decreases n,
{
    if n == 0 {
        Seq::<char>::empty()
    } else {
        spec_spaces((n - 1) as nat).push(' ')
    }
}

/// `s` right-aligned in a field of `width` characters, padded with spaces on
/// the left; a longer `s` is kept whole.
pub open spec fn spec_pad_left(s: Seq<char>, width: nat) -> Seq<char> {
    if s.len() >= width {
        s
    } else {
        spec_spaces((width - s.len()) as nat) + s
    }
}

fn digit_str(d: u8) -> (r: &'static str)
    requires
        d < 10,
    ensures
        r@ =~= seq![spec_digit(d as int)],
{
    proof {
        reveal_strlit("0");
        reveal_strlit("1");
        reveal_strlit("2");
        reveal_strlit("3");
        reveal_strlit("4");
        reveal_strlit("5");
        reveal_strlit("6");
        reveal_strlit("7");
        reveal_strlit("8");
        reveal_strlit("9");
    }
    if d == 0 {
        "0"
    } else if d == 1 {
        "1"
    } else if d == 2 {
        "2"
    } else if d == 3 {
        "3"
    } else if d == 4 {
        "4"
    } else if d == 5 {
        "5"
    } else if d == 6 {
        "6"
    } else if d == 7 {
        "7"
    } else if d == 8 {
        "8"
    } else {
        "9"
    }
}

fn hex_digit_str(d: u8) -> (r: &'static str)
    requires
        d < 16,
    ensures
        r@ =~= seq![spec_hex_digit(d as int)],
{
    proof {
        reveal_strlit("a");
        reveal_strlit("b");
        reveal_strlit("c");
        reveal_strlit("d");
        reveal_strlit("e");
        reveal_strlit("f");
    }
    if d < 10 {
        digit_str(d)
    } else if d == 10 {
        "a"
    } else if d == 11 {
        "b"
    } else if d == 12 {
        "c"
    } else if d == 13 {
        "d"
    } else if d == 14 {
        "e"
    } else {
        "f"
    }
}

/// Renders `n` in lowercase hexadecimal, without padding.
pub fn hex_u16(n: u16) -> (s: String)
    ensures
        s@ == spec_hex(n as int),
    decreases n,
{
    if n < 16 {
        let s = String::from_str(hex_digit_str(n as u8));
        proof {
            assert(s@ =~= spec_hex(n as int));
        }
        s
    } else {
        let mut s = hex_u16(n / 16);
        s.append(hex_digit_str((n % 16) as u8));
        proof {
            assert(s@ =~= spec_hex(n as int));
        }
        s
    }
}

/// Renders `n` in decimal, without padding.
pub fn dec_u128(n: u128) -> (s: String)
    ensures
        s@ == spec_dec(n as int),
    decreases n,
{
    if n < 10 {
        let s = String::from_str(digit_str(n as u8));
        proof {
            assert(s@ =~= spec_dec(n as int));
        }
        s
    } else {
        let mut s = dec_u128(n / 10);
        s.append(digit_str((n % 10) as u8));
        proof {
            assert(s@ =~= spec_dec(n as int));
        }
        s
    }
}

/// Renders the last `width` decimal digits of `n`, zero padded.
pub fn dec_pad(n: u128, width: usize) -> (s: String)
    ensures
        s@ == spec_dec_pad(n as int, width as nat),
    decreases width,
{
    if width == 0 {
        String::new()
    } else {
        let mut s = dec_pad(n / 10, width - 1);
        s.append(digit_str((n % 10) as u8));
        proof {
            assert(s@ =~= spec_dec_pad(n as int, width as nat));
        }
        s
    }
}

/// Renders `us` microseconds as milliseconds with two decimal places.
pub fn ms_two_decimals(us: u64) -> (s: String)
    ensures
        s@ == spec_ms_two_decimals(us as int),
{
    let hundredths: u128 = (us as u128 + 5) / 10;
    let mut s = dec_u128(hundredths / 100);
    proof {
        reveal_strlit(".");
    }
    s.append(".");
    let frac = dec_pad(hundredths % 100, 2);
    s.append(frac.as_str());
    proof {
        assert(s@ =~= spec_ms_two_decimals(us as int));
    }
    s
}

fn spaces(n: usize) -> (s: String)
    ensures
        s@ == spec_spaces(n as nat),
    decreases n,
{
    proof {
        reveal_strlit(" ");
    }
    if n == 0 {
        String::new()
    } else {
        let mut s = spaces(n - 1);
        s.append(" ");
        proof {
            assert(s@ =~= spec_spaces(n as nat));
        }
        s
    }
}

/// Right-aligns `s` in a field of `width` characters.
pub fn pad_left(s: &str, width: usize) -> (r: String)
    ensures
        r@ == spec_pad_left(s@, width as nat),
{
    let n = s.unicode_len();
    if n >= width {
        s.to_owned()
    } else {
        let mut r = spaces(width - n);
        r.append(s);
        r
    }
}

/// Renders a boolean as `true` or `false`.
pub fn bool_str(b: bool) -> (r: &'static str)
    ensures
        r@ == spec_bool(b),
{
    proof {
        reveal_strlit("true");
        reveal_strlit("false");
    }
    if b {
        let r = "true";
        proof {
            assert(r@ =~= spec_bool(b));
        }
        r
    } else {
        let r = "false";
        proof {
            assert(r@ =~= spec_bool(b));
        }
        r
    }
}

} // verus!
