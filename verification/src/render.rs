//! Text renderings of a number: its digits in a radix, either as many as the
//! number needs or a fixed count with leading zeros.

use vstd::prelude::*;
use vstd::string::*;

verus! {

/// The sixteen digit characters, in order of their worth.
pub open spec fn digit_chars() -> Seq<char> {
    seq!['0', '1', '2', '3', '4', '5', '6', '7', '8', '9', 'a', 'b', 'c', 'd', 'e', 'f']
}

/// The character that stands for the digit `d`.
pub open spec fn digit_char(d: nat) -> char
    recommends
        d < 16,
{
    digit_chars()[d as int]
}

/// The digits of `v` in `radix`, most significant first, without leading
/// zeros; zero is the single digit `0`.
pub open spec fn digits(v: nat, radix: nat) -> Seq<char>
    recommends
        2 <= radix <= 16,
    decreases v,
{
    if radix < 2 || v < radix {
        seq![digit_char(v)]
    } else {
        proof {
            assert(v / radix < v) by (nonlinear_arith)
                requires
                    2 <= radix <= v,
            ;
        }
        digits(v / radix, radix).push(digit_char(v % radix))
    }
}

/// The lowest `count` digits of `v` in `radix`, most significant first,
/// with leading zeros where `v` needs fewer.
pub open spec fn fixed_digits(v: nat, radix: nat, count: nat) -> Seq<char>
    recommends
        2 <= radix <= 16,
    decreases count,
{
    if count == 0 {
        Seq::empty()
    } else {
        fixed_digits(v / radix, radix, (count - 1) as nat).push(digit_char(v % radix))
    }
}

/// The text of a number in `radix` behind a prefix of two characters, as
/// `0b101` and `0x0ff` are written.
pub open spec fn prefixed(mark: char, v: nat, radix: nat, count: nat) -> Seq<char> {
    seq!['0', mark] + fixed_digits(v, radix, count)
}

/// The one-character text of a digit.
fn digit_str(d: u32) -> (s: &'static str)
    requires
        d < 16,
    ensures
        s@ == seq![digit_char(d as nat)],
{
    proof {
        reveal_strlit("0");
        reveal_strlit("1");
        reveal_strlit("2");
        reveal_strlit("3");
        reveal_strlit("4");
        reveal_strlit("5");
        reveal_strlit("6");
        reveal_strlit("7");
        reveal_strlit("8");
        reveal_strlit("9");
        reveal_strlit("a");
        reveal_strlit("b");
        reveal_strlit("c");
        reveal_strlit("d");
        reveal_strlit("e");
        reveal_strlit("f");
    }
    match d {
        0 => "0",
        1 => "1",
        2 => "2",
        3 => "3",
        4 => "4",
        5 => "5",
        6 => "6",
        7 => "7",
        8 => "8",
        9 => "9",
        10 => "a",
        11 => "b",
        12 => "c",
        13 => "d",
        14 => "e",
        _ => "f",
    }
}

/// Appends the digits of `v` in `radix` to `out`.
pub fn push_digits(out: &mut String, v: u32, radix: u32)
    requires
        2 <= radix <= 16,
    ensures
        final(out)@ == old(out)@ + digits(v as nat, radix as nat),
    decreases v,
{
    if v < radix {
        out.append(digit_str(v));
    } else {
        assert(v / radix < v) by (nonlinear_arith)
            requires
                2 <= radix <= v,
        ;
        push_digits(out, v / radix, radix);
        out.append(digit_str(v % radix));
    }
}

/// Appends the lowest `count` digits of `v` in `radix` to `out`.
pub fn push_fixed_digits(out: &mut String, v: u32, radix: u32, count: u32)
    requires
        2 <= radix <= 16,
    ensures
        final(out)@ == old(out)@ + fixed_digits(v as nat, radix as nat, count as nat),
    decreases count,
{
    if count > 0 {
        push_fixed_digits(out, v / radix, radix, count - 1);
        out.append(digit_str(v % radix));
    }
}

/// The digits of `v` in `radix`, as a string.
pub fn digit_string(v: u32, radix: u32) -> (s: String)
    requires
        2 <= radix <= 16,
    ensures
        s@ == digits(v as nat, radix as nat),
{
    let mut out = String::new();
    push_digits(&mut out, v, radix);
    out
}

/// `0b` and the lowest `count` binary digits of `v`.
pub fn binary_literal(v: u32, count: u32) -> (s: String)
    ensures
        s@ == prefixed('b', v as nat, 2, count as nat),
{
    proof {
        reveal_strlit("0b");
    }
    let mut out = String::from_str("0b");
    push_fixed_digits(&mut out, v, 2, count);
    out
}

/// `0x` and the lowest `count` hexadecimal digits of `v`.
pub fn hex_literal(v: u32, count: u32) -> (s: String)
    ensures
        s@ == prefixed('x', v as nat, 16, count as nat),
{
    proof {
        reveal_strlit("0x");
    }
    let mut out = String::from_str("0x");
    push_fixed_digits(&mut out, v, 16, count);
    out
}

} // verus!
