//! Text for the diagnostic sink: numbers in hexadecimal and decimal.
use vstd::arithmetic::div_mod::{lemma_div_decreases, lemma_small_mod};
use vstd::prelude::*;

verus! {

/// The lower-case digit for `d`, for `d` below 16.
pub open spec fn digit_char(d: nat) -> char {
    seq!['0', '1', '2', '3', '4', '5', '6', '7', '8', '9', 'a', 'b', 'c', 'd', 'e', 'f'][d as int]
}

/// Digits of `n` in base `base`, most significant first, without leading zeros ("0" for zero).
pub open spec fn digits(n: nat, base: nat) -> Seq<char>
    decreases n,
    via digits_decreases
{
    if base < 2 || base > 16 {
        Seq::empty()
    } else if n < base {
        seq![digit_char(n)]
    } else {
        digits(n / base, base) + seq![digit_char(n % base)]
    }
}

#[via_fn]
proof fn digits_decreases(n: nat, base: nat) {
    if 2 <= base && n >= base {
        lemma_div_decreases(n as int, base as int);
    }
}

/// `n` as Rust's `{:#x}` writes it: `0x` and the lower-case hexadecimal digits.
pub open spec fn hex_text(n: u64) -> Seq<char> {
    "0x"@ + digits(n as nat, 16)
}

/// `n` as Rust's `{}` writes it: its decimal digits.
pub open spec fn decimal_text(n: u64) -> Seq<char> {
    digits(n as nat, 10)
}

fn digit_str(d: u64) -> (r: &'static str)
    requires
        d < 16,
    ensures
        r@ == seq![digit_char(d as nat)],
{
    proof {
        reveal_strlit("0");
        reveal_strlit("1");
        reveal_strlit("2");
        reveal_strlit("3");
        reveal_strlit("4");
        reveal_strlit("5");
        reveal_strlit("6");
        reveal_strlit("7");
        reveal_strlit("8");
        reveal_strlit("9");
        reveal_strlit("a");
        reveal_strlit("b");
        reveal_strlit("c");
        reveal_strlit("d");
        reveal_strlit("e");
        reveal_strlit("f");
    }
    let r = if d == 0 {
        "0"
    } else if d == 1 {
        "1"
    } else if d == 2 {
        "2"
    } else if d == 3 {
        "3"
    } else if d == 4 {
        "4"
    } else if d == 5 {
        "5"
    } else if d == 6 {
        "6"
    } else if d == 7 {
        "7"
    } else if d == 8 {
        "8"
    } else if d == 9 {
        "9"
    } else if d == 10 {
        "a"
    } else if d == 11 {
        "b"
    } else if d == 12 {
        "c"
    } else if d == 13 {
        "d"
    } else if d == 14 {
        "e"
    } else {
        "f"
    };
    assert(r@ =~= seq![digit_char(d as nat)]);
    r
}

/// Appends the digits of `n` in base `base` to `out`.
pub fn push_digits(out: &mut String, n: u64, base: u64)
    requires
        2 <= base <= 16,
    ensures
        final(out)@ == old(out)@ + digits(n as nat, base as nat),
    decreases n,
{
    if n >= base {
        proof {
            lemma_div_decreases(n as int, base as int);
        }
        push_digits(out, n / base, base);
    } else {
        proof {
            lemma_small_mod(n as nat, base as nat);
        }
    }
    out.append(digit_str(n % base));
    assert(out@ =~= old(out)@ + digits(n as nat, base as nat));
}

/// Appends `n` in the form `{:#x}` writes it.
pub fn push_hex(out: &mut String, n: u64)
    ensures
        final(out)@ == old(out)@ + hex_text(n),
{
    out.append("0x");
    push_digits(out, n, 16);
    assert(out@ =~= old(out)@ + hex_text(n));
}

/// Appends `n` in decimal.
pub fn push_decimal(out: &mut String, n: u64)
    ensures
        final(out)@ == old(out)@ + decimal_text(n),
{
    push_digits(out, n, 10);
}

/// `n` in the form `{:#x}` writes it.
pub fn hex_string(n: u64) -> (r: String)
    ensures
        r@ == hex_text(n),
{
    let mut s = String::new();
    push_hex(&mut s, n);
    assert(s@ =~= hex_text(n));
    s
}

/// `n` in decimal.
pub fn decimal_string(n: u64) -> (r: String)
    ensures
        r@ == decimal_text(n),
{
    let mut s = String::new();
    push_decimal(&mut s, n);
    assert(s@ =~= decimal_text(n));
    s
}

} // verus!
