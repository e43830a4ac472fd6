//! Decimal rendering of unsigned values, with the paddings the output
//! grammar uses.

use vstd::prelude::*;

verus! {

/// The character for decimal digit `d`.
pub open spec fn digit_char(d: int) -> char {
    if d == 0 {
        '0'
    } else if d == 1 {
        '1'
    } else if d == 2 {
        '2'
    } else if d == 3 {
        '3'
    } else if d == 4 {
        '4'
    } else if d == 5 {
        '5'
    } else if d == 6 {
        '6'
    } else if d == 7 {
        '7'
    } else if d == 8 {
        '8'
    } else {
        '9'
    }
}

/// Decimal digits of `v`, most significant first, without padding.
pub open spec fn spec_dec(v: int) -> Seq<char>
    decreases v,
{
    if v < 10 {
        seq![digit_char(v)]
    } else {
        spec_dec(v / 10) + seq![digit_char(v % 10)]
    }
}

/// Decimal digits of `v`, zero-padded to at least two places.
pub open spec fn spec_pad2(v: int) -> Seq<char> {
    if v < 10 {
        seq!['0'] + spec_dec(v)
    } else {
        spec_dec(v)
    }
}

/// Decimal digits of `v`, zero-padded to at least three places.
pub open spec fn spec_pad3(v: int) -> Seq<char> {
    if v < 10 {
        seq!['0', '0'] + spec_dec(v)
    } else if v < 100 {
        seq!['0'] + spec_dec(v)
    } else {
        spec_dec(v)
    }
}

/// Decimal digits of `v`, space-padded to at least two places.
pub open spec fn spec_pad2_space(v: int) -> Seq<char> {
    if v < 10 {
        seq![' '] + spec_dec(v)
    } else {
        spec_dec(v)
    }
}

/// The one-character string for decimal digit `d`.
pub fn digit_string(d: u64) -> (r: String)
    requires
        d < 10,
    ensures
        r@ == seq![digit_char(d as int)],
{
    proof {
        reveal_strlit("0");
        reveal_strlit("1");
        reveal_strlit("2");
        reveal_strlit("3");
        reveal_strlit("4");
        reveal_strlit("5");
        reveal_strlit("6");
        reveal_strlit("7");
        reveal_strlit("8");
        reveal_strlit("9");
    }
    if d == 0 {
        String::from_str("0")
    } else if d == 1 {
        String::from_str("1")
    } else if d == 2 {
        String::from_str("2")
    } else if d == 3 {
        String::from_str("3")
    } else if d == 4 {
        String::from_str("4")
    } else if d == 5 {
        String::from_str("5")
    } else if d == 6 {
        String::from_str("6")
    } else if d == 7 {
        String::from_str("7")
    } else if d == 8 {
        String::from_str("8")
    } else {
        String::from_str("9")
    }
}

/// Renders `v` in decimal, without padding.
pub fn dec_string(v: u64) -> (r: String)
    ensures
        r@ == spec_dec(v as int),
    decreases v,
{
    if v < 10 {
        digit_string(v)
    } else {
        let mut s = dec_string(v / 10);
        let d = digit_string(v % 10);
        s.append(d.as_str());
        s
    }
}

/// Renders `v` in decimal, zero-padded to at least two places.
pub fn pad2_string(v: u64) -> (r: String)
    ensures
        r@ == spec_pad2(v as int),
{
    if v < 10 {
        let mut s = String::from_str("0");
        let d = digit_string(v);
        s.append(d.as_str());
        proof {
            reveal_strlit("0");
        }
        s
    } else {
        dec_string(v)
    }
}

/// Renders `v` in decimal, zero-padded to at least three places.
pub fn pad3_string(v: u64) -> (r: String)
    ensures
        r@ == spec_pad3(v as int),
{
    if v < 10 {
        let mut s = String::from_str("00");
        let d = digit_string(v);
        s.append(d.as_str());
        proof {
            reveal_strlit("00");
        }
        s
    } else if v < 100 {
        let mut s = String::from_str("0");
        let d = dec_string(v);
        s.append(d.as_str());
        proof {
            reveal_strlit("0");
        }
        s
    } else {
        dec_string(v)
    }
}

/// Renders `v` in decimal, space-padded to at least two places.
pub fn pad2_space_string(v: u64) -> (r: String)
    ensures
        r@ == spec_pad2_space(v as int),
{
    if v < 10 {
        let mut s = String::from_str(" ");
        let d = digit_string(v);
        s.append(d.as_str());
        proof {
            reveal_strlit(" ");
        }
        s
    } else {
        dec_string(v)
    }
}

} // verus!
