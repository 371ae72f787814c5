//! Rendering integers as decimal and hexadecimal text.
//!
//! The autoindex page prints last-modified times as decimal epoch seconds,
//! and synthesized ETags embed sizes and timestamps in lowercase hex.

use vstd::prelude::*;
use vstd::string::StringExecFns;

verus! {

/// The character for one digit value below sixteen.
pub open spec fn digit_char(d: nat) -> char {
    if d == 0 {
        '0'
    } else if d == 1 {
        '1'
    } else if d == 2 {
        '2'
    } else if d == 3 {
        '3'
    } else if d == 4 {
        '4'
    } else if d == 5 {
        '5'
    } else if d == 6 {
        '6'
    } else if d == 7 {
        '7'
    } else if d == 8 {
        '8'
    } else if d == 9 {
        '9'
    } else if d == 10 {
        'a'
    } else if d == 11 {
        'b'
    } else if d == 12 {
        'c'
    } else if d == 13 {
        'd'
    } else if d == 14 {
        'e'
    } else {
        'f'
    }
}

/// The digits of `n` in the given base, most significant first.
pub open spec fn digits_in_base(n: nat, base: nat) -> Seq<char>
    recommends
        2 <= base <= 16,
    decreases n,
    when base >= 2
    via digits_in_base_decreases
{
    if n < base {
        seq![digit_char(n)]
    } else {
        digits_in_base(n / base, base) + seq![digit_char(n % base)]
    }
}

#[via_fn]
proof fn digits_in_base_decreases(n: nat, base: nat) {
    if n >= base {
        assert(n / base < n) by (nonlinear_arith)
            requires
                n >= base >= 2,
        ;
    }
}

/// Decimal rendering of a natural number.
pub open spec fn dec_of(n: nat) -> Seq<char> {
    digits_in_base(n, 10)
}

/// Lowercase hexadecimal rendering of a natural number, as `{:x}` prints it.
pub open spec fn hex_of(n: nat) -> Seq<char> {
    digits_in_base(n, 16)
}

/// Decimal rendering of an integer, with a leading minus sign when negative.
pub open spec fn dec_int_of(n: int) -> Seq<char> {
    if n < 0 {
        seq!['-'] + dec_of((-n) as nat)
    } else {
        dec_of(n as nat)
    }
}

fn digit_str(d: u64) -> (r: &'static str)
    requires
        d < 16,
    ensures
        r@ == seq![digit_char(d as nat)],
{
    let s: &'static str = if d == 0 {
        "0"
    } else if d == 1 {
        "1"
    } else if d == 2 {
        "2"
    } else if d == 3 {
        "3"
    } else if d == 4 {
        "4"
    } else if d == 5 {
        "5"
    } else if d == 6 {
        "6"
    } else if d == 7 {
        "7"
    } else if d == 8 {
        "8"
    } else if d == 9 {
        "9"
    } else if d == 10 {
        "a"
    } else if d == 11 {
        "b"
    } else if d == 12 {
        "c"
    } else if d == 13 {
        "d"
    } else if d == 14 {
        "e"
    } else {
        "f"
    };
    proof {
        reveal_strlit("0");
        reveal_strlit("1");
        reveal_strlit("2");
        reveal_strlit("3");
        reveal_strlit("4");
        reveal_strlit("5");
        reveal_strlit("6");
        reveal_strlit("7");
        reveal_strlit("8");
        reveal_strlit("9");
        reveal_strlit("a");
        reveal_strlit("b");
        reveal_strlit("c");
        reveal_strlit("d");
        reveal_strlit("e");
        reveal_strlit("f");
        assert(s@ =~= seq![digit_char(d as nat)]);
    }
    s
}

fn to_base(n: u64, base: u64) -> (r: String)
    requires
        2 <= base <= 16,
    ensures
        r@ == digits_in_base(n as nat, base as nat),
    decreases n,
{
    if n < base {
        digit_str(n).to_owned()
    } else {
        assert(n / base < n) by (nonlinear_arith)
            requires
                n >= base >= 2,
        ;
        let mut s = to_base(n / base, base);
        s.append(digit_str(n % base));
        proof {
            assert(s@ =~= digits_in_base(n as nat, base as nat));
        }
        s
    }
}

/// Decimal text of an unsigned count.
pub fn u64_to_dec(n: u64) -> (r: String)
    ensures
        r@ == dec_of(n as nat),
{
    to_base(n, 10)
}

/// Lowercase hex text of an unsigned count.
pub fn u64_to_hex(n: u64) -> (r: String)
    ensures
        r@ == hex_of(n as nat),
{
    to_base(n, 16)
}

/// Decimal text of a signed value, such as an epoch-seconds timestamp.
pub fn i64_to_dec(n: i64) -> (r: String)
    ensures
        r@ == dec_int_of(n as int),
{
    if n >= 0 {
        u64_to_dec(n as u64)
    } else {
        let magnitude: u64 = (-(n as i128)) as u64;
        assert(magnitude == -(n as int));
        let mut s = "-".to_owned();
        let rest = u64_to_dec(magnitude);
        s.append(rest.as_str());
        proof {
            reveal_strlit("-");
            assert(s@ =~= dec_int_of(n as int));
        }
        s
    }
}

} // verus!
