//! Small verified helpers on strings.
use vstd::prelude::*;

verus! {

/// Character-for-character equality of two string slices.
pub fn str_eq(a: &str, b: &str) -> (r: bool)
    ensures
        r == (a@ == b@),
{
    let alen = a.unicode_len();
    let blen = b.unicode_len();
    if alen != blen {
        return false;
    }
    let mut i: usize = 0;
    while i < alen
        invariant
            alen == a@.len(),
            blen == b@.len(),
            alen == blen,
            i <= alen,
            forall|j: int| 0 <= j < i ==> a@[j] == b@[j],
        decreases alen - i,
    {
        if a.get_char(i) != b.get_char(i) {
            return false;
        }
        i += 1;
    }
    proof {
        assert(a@ =~= b@);
    }
    true
}

/// The decimal digit characters.
pub open spec fn dec_digit_spec(d: int) -> char
    recommends
        0 <= d < 10,
{
    if d == 0 {
        '0'
    } else if d == 1 {
        '1'
    } else if d == 2 {
        '2'
    } else if d == 3 {
        '3'
    } else if d == 4 {
        '4'
    } else if d == 5 {
        '5'
    } else if d == 6 {
        '6'
    } else if d == 7 {
        '7'
    } else if d == 8 {
        '8'
    } else {
        '9'
    }
}

/// The decimal rendering of a byte, without leading zeros.
pub open spec fn u8_dec_spec(v: u8) -> Seq<char> {
    if v < 10 {
        seq![dec_digit_spec(v as int)]
    } else if v < 100 {
        seq![dec_digit_spec(v as int / 10), dec_digit_spec(v as int % 10)]
    } else {
        seq![
            dec_digit_spec(v as int / 100),
            dec_digit_spec((v as int / 10) % 10),
            dec_digit_spec(v as int % 10),
        ]
    }
}

fn dec_digit_str(d: u8) -> (r: &'static str)
    requires
        d < 10,
    ensures
        r@ == seq![dec_digit_spec(d as int)],
{
    proof {
        reveal_strlit("0");
        reveal_strlit("1");
        reveal_strlit("2");
        reveal_strlit("3");
        reveal_strlit("4");
        reveal_strlit("5");
        reveal_strlit("6");
        reveal_strlit("7");
        reveal_strlit("8");
        reveal_strlit("9");
    }
    match d {
        0 => "0",
        1 => "1",
        2 => "2",
        3 => "3",
        4 => "4",
        5 => "5",
        6 => "6",
        7 => "7",
        8 => "8",
        _ => "9",
    }
}

/// Renders a byte in decimal.
pub fn u8_dec(v: u8) -> (r: String)
    ensures
        r@ == u8_dec_spec(v),
{
    if v < 10 {
        let r = String::from_str(dec_digit_str(v));
        proof {
            assert(r@ =~= u8_dec_spec(v));
        }
        r
    } else if v < 100 {
        let mut r = String::from_str(dec_digit_str(v / 10));
        r.append(dec_digit_str(v % 10));
        proof {
            assert(r@ =~= u8_dec_spec(v));
        }
        r
    } else {
        let mut r = String::from_str(dec_digit_str(v / 100));
        r.append(dec_digit_str((v / 10) % 10));
        r.append(dec_digit_str(v % 10));
        proof {
            assert(r@ =~= u8_dec_spec(v));
        }
        r
    }
}

} // verus!
