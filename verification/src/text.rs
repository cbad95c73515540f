use vstd::prelude::*;

verus! {

/// The character of a digit value below 16, lower case.
pub open spec fn digit_char(d: nat) -> char {
    if d < 10 {
        (('0' as nat) + d) as char
    } else {
        (('a' as nat) + d - 10) as char
    }
}

/// The value of a lower-case hexadecimal (or decimal) digit character.
pub open spec fn digit_value(c: char) -> int {
    if '0' <= c <= '9' {
        (c as int) - ('0' as int)
    } else {
        (c as int) - ('a' as int) + 10
    }
}

/// Lower-case hexadecimal digits of `v`, exactly `n` of them, most
/// significant first; digits above the `n`-th are dropped and missing ones
/// are `0`.
pub open spec fn hex_digits(v: nat, n: nat) -> Seq<char>
    decreases n,
{
    if n == 0 {
        Seq::empty()
    } else {
        hex_digits(v / 16, (n - 1) as nat).push(digit_char(v % 16))
    }
}

/// Decimal digits of `v`, most significant first, without leading zeros
/// (`"0"` for zero).
pub open spec fn dec_digits(v: nat) -> Seq<char>
    decreases v,
{
    if v < 10 {
        seq![digit_char(v)]
    } else {
        dec_digits(v / 10).push(digit_char(v % 10))
    }
}

/// The number that a sequence of digits in base `b` denotes.
pub open spec fn digits_value(s: Seq<char>, b: nat) -> int
    decreases s.len(),
{
    if s.len() == 0 {
        0
    } else {
        digits_value(s.drop_last(), b) * b + digit_value(s.last())
    }
}

pub open spec fn pow(b: nat, n: nat) -> nat
    decreases n,
{
    if n == 0 {
        1
    } else {
        b * pow(b, (n - 1) as nat)
    }
}

/// `"0x"` followed by exactly eight lower-case hexadecimal digits, the form
/// in which a Windows error code is shown.
pub open spec fn hex8_text(v: u32) -> Seq<char> {
    seq!['0', 'x'] + hex_digits(v as nat, 8)
}

/// Appends the digit of value `d` (below 16) to `out`.
fn push_digit(out: &mut String, d: u32)
    requires
        d < 16,
    ensures
        final(out)@ == old(out)@.push(digit_char(d as nat)),
{
    let table = "0123456789abcdef";
    proof {
        reveal_strlit("0123456789abcdef");
    }
    let one = table.substring_char(d as usize, d as usize + 1);
    assert(one@ =~= seq![digit_char(d as nat)]);
    out.append(one);
}

/// Appends the last `n` hexadecimal digits of `v` to `out`.
fn push_hex(out: &mut String, v: u32, n: u32)
    ensures
        final(out)@ == old(out)@ + hex_digits(v as nat, n as nat),
    decreases n,
{
    if n > 0 {
        push_hex(out, v / 16, n - 1);
        push_digit(out, v % 16);
    }
}

/// Appends the decimal digits of `v` to `out`.
fn push_dec(out: &mut String, v: u64)
    ensures
        final(out)@ == old(out)@ + dec_digits(v as nat),
    decreases v,
{
    if v >= 10 {
        push_dec(out, v / 10);
    }
    push_digit(out, (v % 10) as u32);
}

/// Formats `v` as `0x` and eight zero-padded lower-case hexadecimal digits.
pub fn hex8(v: u32) -> (s: String)
    ensures
        s@ == hex8_text(v),
{
    let mut s = String::from_str("0x");
    proof {
        reveal_strlit("0x");
    }
    push_hex(&mut s, v, 8);
    s
}

/// Formats `v` in decimal.
pub fn decimal(v: u64) -> (s: String)
    ensures
        s@ == dec_digits(v as nat),
{
    let mut s = String::new();
    push_dec(&mut s, v);
    s
}

/// Reading back the digits: `hex_digits(v, n)` denotes `v` modulo `16^n`,
/// and each of its characters is a digit.
pub proof fn hex_digits_denote(v: nat, n: nat)
    ensures
        hex_digits(v, n).len() == n,
        digits_value(hex_digits(v, n), 16) == v % pow(16, n),
    decreases n,
{
    if n > 0 {
        hex_digits_denote(v / 16, (n - 1) as nat);
        let s = hex_digits(v, n);
        assert(s.drop_last() =~= hex_digits(v / 16, (n - 1) as nat));
        let d = v % 16;
        assert(digit_value(digit_char(d)) == d);
        let p = pow(16, (n - 1) as nat);
        assert(p > 0) by { pow_positive(16, (n - 1) as nat); }
        assert(((v / 16) % p) * 16 + v % 16 == v % (16 * p)) by (nonlinear_arith)
            requires p > 0,
        {
            vstd::arithmetic::div_mod::lemma_breakdown(v as int, 16, p as int);
        }
    }
}

pub proof fn pow_positive(b: nat, n: nat)
    requires
        b > 0,
    ensures
        pow(b, n) > 0,
    decreases n,
{
    if n > 0 {
        pow_positive(b, (n - 1) as nat);
        assert(b * pow(b, (n - 1) as nat) > 0) by (nonlinear_arith)
            requires b > 0, pow(b, (n - 1) as nat) > 0;
    }
}

/// The text of an error code always has ten characters, and its eight
/// digits denote the code itself.
pub proof fn hex8_round_trip(v: u32)
    ensures
        hex8_text(v).len() == 10,
        hex8_text(v).subrange(0, 2) == seq!['0', 'x'],
        digits_value(hex8_text(v).subrange(2, 10), 16) == v,
{
    hex_digits_denote(v as nat, 8);
    assert(pow(16, 8) == 0x1_0000_0000) by {
        reveal_with_fuel(pow, 9);
    }
    assert(hex8_text(v).subrange(2, 10) =~= hex_digits(v as nat, 8));
    assert(hex8_text(v).subrange(0, 2) =~= seq!['0', 'x']);
}

/// The decimal text of a number denotes that number.
pub proof fn dec_digits_denote(v: nat)
    ensures
        digits_value(dec_digits(v), 10) == v,
        dec_digits(v).len() >= 1,
        v > 0 ==> dec_digits(v)[0] != '0',
    decreases v,
{
    if v >= 10 {
        dec_digits_denote(v / 10);
        let s = dec_digits(v);
        assert(s.drop_last() =~= dec_digits(v / 10));
        assert(digit_value(digit_char(v % 10)) == v % 10);
        assert(s.last() == digit_char(v % 10));
        assert(digits_value(s, 10) == digits_value(dec_digits(v / 10), 10) * 10 + v % 10);
    } else {
        let s = dec_digits(v);
        assert(s.drop_last() =~= Seq::<char>::empty());
        assert(digit_value(digit_char(v)) == v);
        assert(digits_value(s.drop_last(), 10) == 0);
        assert(s.last() == digit_char(v));
    }
}

} // verus!
