//! Verified decimal formatting: plain and zero-padded decimal strings of
//! unsigned numbers, proved against a recursive digit model.

use vstd::prelude::*;

verus! {

/// The decimal digit character for a value below 10.
pub open spec fn dec_digit(n: int) -> char {
    if n == 0 {
        '0'
    } else if n == 1 {
        '1'
    } else if n == 2 {
        '2'
    } else if n == 3 {
        '3'
    } else if n == 4 {
        '4'
    } else if n == 5 {
        '5'
    } else if n == 6 {
        '6'
    } else if n == 7 {
        '7'
    } else if n == 8 {
        '8'
    } else {
        '9'
    }
}

/// The decimal string of `n`, most significant digit first, no padding.
pub open spec fn dec_str(n: nat) -> Seq<char>
    decreases n,
{
    if n < 10 {
        seq![dec_digit(n as int)]
    } else {
        dec_str(n / 10) + seq![dec_digit((n % 10) as int)]
    }
}

/// The decimal string of `n`, zero-padded to two places.
pub open spec fn dec_str_pad2(n: nat) -> Seq<char> {
    if n < 10 {
        seq!['0'] + dec_str(n)
    } else {
        dec_str(n)
    }
}

/// The decimal string of `n`, zero-padded to four places.
pub open spec fn dec_str_pad4(n: nat) -> Seq<char> {
    if n < 10 {
        seq!['0', '0', '0'] + dec_str(n)
    } else if n < 100 {
        seq!['0', '0'] + dec_str(n)
    } else if n < 1000 {
        seq!['0'] + dec_str(n)
    } else {
        dec_str(n)
    }
}

/// The one-character string of a single decimal digit.
fn digit_str(d: u32) -> (r: &'static str)
    requires
        d < 10,
    ensures
        r@ == seq![dec_digit(d as int)],
{
    proof {
        reveal_strlit("0");
        reveal_strlit("1");
        reveal_strlit("2");
        reveal_strlit("3");
        reveal_strlit("4");
        reveal_strlit("5");
        reveal_strlit("6");
        reveal_strlit("7");
        reveal_strlit("8");
        reveal_strlit("9");
    }
    let r = match d {
        0 => "0",
        1 => "1",
        2 => "2",
        3 => "3",
        4 => "4",
        5 => "5",
        6 => "6",
        7 => "7",
        8 => "8",
        _ => "9",
    };
    proof {
        assert(r@ =~= seq![dec_digit(d as int)]);
    }
    r
}

/// The decimal string of `n`, no padding.
pub fn u32_to_string(n: u32) -> (r: String)
    ensures
        r@ == dec_str(n as nat),
    decreases n,
{
    if n < 10 {
        String::from_str(digit_str(n))
    } else {
        let mut r = u32_to_string(n / 10);
        r.append(digit_str(n % 10));
        r
    }
}

/// The decimal string of `n`, no padding.
pub fn u64_to_string(n: u64) -> (r: String)
    ensures
        r@ == dec_str(n as nat),
    decreases n,
{
    if n < 10 {
        String::from_str(digit_str(n as u32))
    } else {
        let mut r = u64_to_string(n / 10);
        r.append(digit_str((n % 10) as u32));
        r
    }
}

/// The decimal string of `n`, zero-padded to two places.
pub fn u32_to_string_pad2(n: u32) -> (r: String)
    ensures
        r@ == dec_str_pad2(n as nat),
{
    if n < 10 {
        let mut r = String::from_str("0");
        r.append(digit_str(n));
        proof {
            reveal_strlit("0");
            assert(r@ =~= dec_str_pad2(n as nat));
        }
        r
    } else {
        u32_to_string(n)
    }
}

/// The decimal string of `n`, zero-padded to four places.
pub fn u32_to_string_pad4(n: u32) -> (r: String)
    ensures
        r@ == dec_str_pad4(n as nat),
{
    proof {
        reveal_strlit("000");
        reveal_strlit("00");
        reveal_strlit("0");
    }
    if n < 10 {
        let mut r = String::from_str("000");
        r.append(digit_str(n));
        proof {
            assert(r@ =~= dec_str_pad4(n as nat));
        }
        r
    } else if n < 100 {
        let mut r = String::from_str("00");
        let d = u32_to_string(n);
        r.append(d.as_str());
        proof {
            assert(r@ =~= dec_str_pad4(n as nat));
        }
        r
    } else if n < 1000 {
        let mut r = String::from_str("0");
        let d = u32_to_string(n);
        r.append(d.as_str());
        proof {
            assert(r@ =~= dec_str_pad4(n as nat));
        }
        r
    } else {
        u32_to_string(n)
    }
}

} // verus!
