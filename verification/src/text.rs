//! Decimal and hexadecimal rendering of integers into strings.

use vstd::prelude::*;

verus! {

/// The character of a decimal digit.
pub open spec fn decimal_digit(d: nat) -> char {
    if d == 0 { '0' } else if d == 1 { '1' } else if d == 2 { '2' } else if d == 3 { '3' }
    else if d == 4 { '4' } else if d == 5 { '5' } else if d == 6 { '6' } else if d == 7 { '7' }
    else if d == 8 { '8' } else { '9' }
}

/// The character of a lower-case hexadecimal digit.
pub open spec fn hex_digit(d: nat) -> char {
    if d < 10 { decimal_digit(d) } else if d == 10 { 'a' } else if d == 11 { 'b' }
    else if d == 12 { 'c' } else if d == 13 { 'd' } else if d == 14 { 'e' } else { 'f' }
}

/// The decimal rendering of `n`, without sign or leading zeros (as `{}` prints it).
pub open spec fn decimal(n: nat) -> Seq<char>
    decreases n,
{
    if n < 10 {
        seq![decimal_digit(n)]
    } else {
        decimal(n / 10).push(decimal_digit(n % 10))
    }
}

/// The `width` least significant hexadecimal digits of `n`, most significant first.
pub open spec fn hex_fixed(n: nat, width: nat) -> Seq<char>
    decreases width,
{
    if width == 0 {
        seq![]
    } else {
        hex_fixed(n / 16, (width - 1) as nat).push(hex_digit(n % 16))
    }
}

/// A `u64` as sixteen lower-case hexadecimal digits (as `{:016x}` prints it).
pub open spec fn hex16(v: u64) -> Seq<char> {
    hex_fixed(v as nat, 16)
}

/// A fixed-width hexadecimal rendering has exactly `width` digits.
pub proof fn lemma_hex_fixed_len(n: nat, width: nat)
    ensures
        hex_fixed(n, width).len() == width,
    decreases width,
{
    if width > 0 {
        lemma_hex_fixed_len(n / 16, (width - 1) as nat);
    }
}

/// Ten to the power `k`.
pub open spec fn pow10(k: nat) -> nat
    decreases k,
{
    if k == 0 {
        1
    } else {
        10 * pow10((k - 1) as nat)
    }
}

/// A number below `10^k` has at most `k` decimal digits.
pub proof fn lemma_decimal_len_bound(n: nat, k: nat)
    requires
        k >= 1,
        n < pow10(k),
    ensures
        decimal(n).len() <= k,
    decreases k,
{
    if n >= 10 {
        if k == 1 {
            assert(pow10(1) == 10) by {
                reveal_with_fuel(pow10, 2);
            }
        } else {
            let p = pow10((k - 1) as nat);
            assert(n / 10 < p) by (nonlinear_arith)
                requires
                    n < 10 * p,
            ;
            lemma_decimal_len_bound(n / 10, (k - 1) as nat);
        }
    }
}

/// A `u64` has at most twenty decimal digits.
pub proof fn lemma_decimal_len_u64(n: u64)
    ensures
        decimal(n as nat).len() <= 20,
{
    assert(pow10(20) == 100_000_000_000_000_000_000nat) by {
        reveal_with_fuel(pow10, 21);
    }
    lemma_decimal_len_bound(n as nat, 20);
}

fn decimal_digit_str(d: u64) -> (s: &'static str)
    requires
        d < 10,
    ensures
        s@ == seq![decimal_digit(d as nat)],
{
    proof {
        reveal_strlit("0");
        reveal_strlit("1");
        reveal_strlit("2");
        reveal_strlit("3");
        reveal_strlit("4");
        reveal_strlit("5");
        reveal_strlit("6");
        reveal_strlit("7");
        reveal_strlit("8");
        reveal_strlit("9");
    }
    match d {
        0 => "0",
        1 => "1",
        2 => "2",
        3 => "3",
        4 => "4",
        5 => "5",
        6 => "6",
        7 => "7",
        8 => "8",
        _ => "9",
    }
}

fn hex_digit_str(d: u64) -> (s: &'static str)
    requires
        d < 16,
    ensures
        s@ == seq![hex_digit(d as nat)],
{
    if d < 10 {
        decimal_digit_str(d)
    } else {
        proof {
            reveal_strlit("a");
            reveal_strlit("b");
            reveal_strlit("c");
            reveal_strlit("d");
            reveal_strlit("e");
            reveal_strlit("f");
        }
        match d {
            10 => "a",
            11 => "b",
            12 => "c",
            13 => "d",
            14 => "e",
            _ => "f",
        }
    }
}

/// Appends the decimal rendering of `n` to `s`.
pub fn push_decimal(s: &mut String, n: u64)
    ensures
        final(s)@ == old(s)@ + decimal(n as nat),
    decreases n,
{
    if n >= 10 {
        push_decimal(s, n / 10);
    }
    s.append(decimal_digit_str(n % 10));
    assert(final(s)@ == old(s)@ + decimal(n as nat)) by {
        if n >= 10 {
            assert(decimal(n as nat) == decimal((n / 10) as nat).push(decimal_digit((n % 10) as nat)));
        }
    }
}

fn push_hex_fixed(s: &mut String, n: u64, width: u64)
    ensures
        final(s)@ == old(s)@ + hex_fixed(n as nat, width as nat),
    decreases width,
{
    if width > 0 {
        push_hex_fixed(s, n / 16, width - 1);
        s.append(hex_digit_str(n % 16));
    }
}

/// Renders `v` as sixteen lower-case hexadecimal digits, zero padded.
pub fn to_hex16(v: u64) -> (s: String)
    ensures
        s@ == hex16(v),
{
    let mut s = String::new();
    push_hex_fixed(&mut s, v, 16);
    s
}

/// Renders `n` in decimal.
pub fn to_decimal(n: u64) -> (s: String)
    ensures
        s@ == decimal(n as nat),
{
    let mut s = String::new();
    push_decimal(&mut s, n);
    s
}

/// Sixteen to the power `w`.
pub open spec fn pow16(w: nat) -> nat
    decreases w,
{
    if w == 0 {
        1
    } else {
        16 * pow16((w - 1) as nat)
    }
}

proof fn lemma_hex_digit_injective(a: nat, b: nat)
    requires
        a < 16,
        b < 16,
        hex_digit(a) == hex_digit(b),
    ensures
        a == b,
{
}

proof fn lemma_hex_fixed_injective(a: nat, b: nat, w: nat)
    requires
        a < pow16(w),
        b < pow16(w),
        hex_fixed(a, w) == hex_fixed(b, w),
    ensures
        a == b,
    decreases w,
{
    if w > 0 {
        let ha = hex_fixed(a / 16, (w - 1) as nat);
        let hb = hex_fixed(b / 16, (w - 1) as nat);
        assert(hex_fixed(a, w) == ha.push(hex_digit(a % 16)));
        assert(hex_fixed(b, w) == hb.push(hex_digit(b % 16)));
        assert(ha =~= hex_fixed(a, w).drop_last());
        assert(hb =~= hex_fixed(b, w).drop_last());
        assert(hex_digit(a % 16) == hex_fixed(a, w).last());
        assert(hex_digit(b % 16) == hex_fixed(b, w).last());
        lemma_hex_digit_injective(a % 16, b % 16);
        lemma_hex_fixed_injective(a / 16, b / 16, (w - 1) as nat);
    }
}

/// The sixteen-digit rendering loses nothing: distinct numbers render as
/// distinct texts.
pub proof fn lemma_hex16_injective(a: u64, b: u64)
    requires
        hex16(a) == hex16(b),
    ensures
        a == b,
{
    reveal_with_fuel(pow16, 17);
    assert(pow16(16) == 0x1_0000_0000_0000_0000);
    lemma_hex_fixed_injective(a as nat, b as nat, 16);
}

/// Every character of the sixteen-digit rendering is a lower-case
/// hexadecimal digit.
pub proof fn lemma_hex_fixed_digits(n: nat, width: nat)
    ensures
        forall|i: int| 0 <= i < hex_fixed(n, width).len() ==> ('0' <= #[trigger] hex_fixed(n, width)[i] <= '9')
            || ('a' <= hex_fixed(n, width)[i] <= 'f'),
    decreases width,
{
    if width > 0 {
        lemma_hex_fixed_digits(n / 16, (width - 1) as nat);
        let prev = hex_fixed(n / 16, (width - 1) as nat);
        let full = hex_fixed(n, width);
        assert(full == prev.push(hex_digit(n % 16)));
        assert forall|i: int| 0 <= i < full.len() implies ('0' <= #[trigger] full[i] <= '9') || ('a' <= full[i] <= 'f') by {
            if i < prev.len() {
                assert(full[i] == prev[i]);
            }
        }
    }
}

} // verus!
