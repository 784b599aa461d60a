//! Decimal text of fixed-point numbers, for the explanations that go with a
//! decision. Every rendering is exact: no digit is rounded away.

use vstd::prelude::*;

verus! {

/// The character of a decimal digit.
pub open spec fn digit(d: int) -> char {
    if d == 0 {
        '0'
    } else if d == 1 {
        '1'
    } else if d == 2 {
        '2'
    } else if d == 3 {
        '3'
    } else if d == 4 {
        '4'
    } else if d == 5 {
        '5'
    } else if d == 6 {
        '6'
    } else if d == 7 {
        '7'
    } else if d == 8 {
        '8'
    } else {
        '9'
    }
}

/// The decimal digits of `n`, without leading zeros.
pub open spec fn decimal(n: nat) -> Seq<char>
    decreases n,
{
    if n < 10 {
        seq![digit(n as int)]
    } else {
        decimal(n / 10).push(digit((n % 10) as int))
    }
}

/// The last `width` decimal digits of `n`, with leading zeros.
pub open spec fn padded(n: nat, width: nat) -> Seq<char>
    decreases width,
{
    if width == 0 {
        Seq::<char>::empty()
    } else {
        padded(n / 10, (width - 1) as nat).push(digit((n % 10) as int))
    }
}

/// Ten to the power `k`.
pub open spec fn pow10(k: nat) -> nat
    decreases k,
{
    if k == 0 {
        1
    } else {
        10 * pow10((k - 1) as nat)
    }
}

/// The magnitude of an integer.
pub open spec fn magnitude(v: int) -> nat {
    if v < 0 {
        (-v) as nat
    } else {
        v as nat
    }
}

/// A minus sign for a negative number, nothing otherwise.
pub open spec fn sign(v: int) -> Seq<char> {
    if v < 0 {
        seq!['-']
    } else {
        Seq::<char>::empty()
    }
}

/// The decimal text of an integer.
pub open spec fn signed_decimal(v: int) -> Seq<char> {
    sign(v) + decimal(magnitude(v))
}

/// The decimal text of `v / 10^places`, with exactly `places` digits behind
/// the point.
pub open spec fn fixed_point(v: int, places: nat) -> Seq<char> {
    sign(v) + decimal(magnitude(v) / pow10(places)) + seq!['.'] + padded(
        magnitude(v) % pow10(places),
        places,
    )
}

/// Appends one decimal digit.
pub fn append_digit(s: &mut String, d: u8)
    requires
        d < 10,
    ensures
        final(s)@ == old(s)@.push(digit(d as int)),
{
    proof {
        reveal_strlit("0");
        reveal_strlit("1");
        reveal_strlit("2");
        reveal_strlit("3");
        reveal_strlit("4");
        reveal_strlit("5");
        reveal_strlit("6");
        reveal_strlit("7");
        reveal_strlit("8");
        reveal_strlit("9");
    }
    let text: &str = if d == 0 {
        "0"
    } else if d == 1 {
        "1"
    } else if d == 2 {
        "2"
    } else if d == 3 {
        "3"
    } else if d == 4 {
        "4"
    } else if d == 5 {
        "5"
    } else if d == 6 {
        "6"
    } else if d == 7 {
        "7"
    } else if d == 8 {
        "8"
    } else {
        "9"
    };
    assert(text@ =~= seq![digit(d as int)]);
    s.append(text);
    assert(s@ =~= old(s)@.push(digit(d as int)));
}

/// Appends the decimal digits of `n`.
pub fn append_decimal(s: &mut String, n: u128)
    ensures
        final(s)@ == old(s)@ + decimal(n as nat),
    decreases n,
{
    if n >= 10 {
        append_decimal(s, n / 10);
    }
    append_digit(s, (n % 10) as u8);
    assert(s@ =~= old(s)@ + decimal(n as nat));
}

/// Appends the last `width` decimal digits of `n`, with leading zeros.
pub fn append_padded(s: &mut String, n: u128, width: u32)
    ensures
        final(s)@ == old(s)@ + padded(n as nat, width as nat),
    decreases width,
{
    if width > 0 {
        append_padded(s, n / 10, width - 1);
        append_digit(s, (n % 10) as u8);
    }
    assert(s@ =~= old(s)@ + padded(n as nat, width as nat));
}

/// Appends a minus sign if `v` is negative.
pub fn append_sign(s: &mut String, v: i128)
    ensures
        final(s)@ == old(s)@ + sign(v as int),
{
    if v < 0 {
        proof {
            reveal_strlit("-");
        }
        s.append("-");
        assert("-"@ =~= seq!['-']);
    }
    assert(s@ =~= old(s)@ + sign(v as int));
}

/// The magnitude of `v` as an unsigned number.
pub fn magnitude_of(v: i128) -> (m: u128)
    ensures
        m == magnitude(v as int),
{
    if v >= 0 {
        v as u128
    } else if v == i128::MIN {
        0x8000_0000_0000_0000_0000_0000_0000_0000u128
    } else {
        (-v) as u128
    }
}

/// Appends the decimal text of an integer.
pub fn append_signed(s: &mut String, v: i128)
    ensures
        final(s)@ == old(s)@ + signed_decimal(v as int),
{
    append_sign(s, v);
    append_decimal(s, magnitude_of(v));
    assert(s@ =~= old(s)@ + signed_decimal(v as int));
}

/// Ten to the power `places`, for at most nine places.
pub fn power_of_ten(places: u32) -> (scale: u128)
    requires
        places <= 9,
    ensures
        scale == pow10(places as nat),
        scale > 0,
{
    let mut scale: u128 = 1;
    let mut i: u32 = 0;
    proof {
        lemma_pow10_nine();
    }
    while i < places
        invariant
            i <= places <= 9,
            scale == pow10(i as nat),
            0 < scale,
            pow10(9) == 1_000_000_000,
        decreases places - i,
    {
        proof {
            lemma_pow10_rises((i + 1) as nat, 9);
        }
        scale = scale * 10;
        i = i + 1;
    }
    scale
}

/// Ten to the ninth is a thousand million.
pub proof fn lemma_pow10_nine()
    ensures
        pow10(9) == 1_000_000_000,
{
    assert(pow10(0) == 1);
    assert(pow10(1) == 10);
    assert(pow10(2) == 100);
    assert(pow10(3) == 1_000);
    assert(pow10(4) == 10_000);
    assert(pow10(5) == 100_000);
    assert(pow10(6) == 1_000_000);
    assert(pow10(7) == 10_000_000);
    assert(pow10(8) == 100_000_000);
}

/// Powers of ten are positive and rise with the exponent.
pub proof fn lemma_pow10_rises(a: nat, b: nat)
    requires
        a <= b,
    ensures
        0 < pow10(a) <= pow10(b),
    decreases b,
{
    if a < b {
        lemma_pow10_rises(a, (b - 1) as nat);
    } else if a > 0 {
        lemma_pow10_rises((a - 1) as nat, (a - 1) as nat);
    }
}

/// Appends the decimal text of `v / 10^places`.
pub fn append_fixed(s: &mut String, v: i128, places: u32)
    requires
        places <= 9,
    ensures
        final(s)@ == old(s)@ + fixed_point(v as int, places as nat),
{
    let scale: u128 = power_of_ten(places);
    let m: u128 = magnitude_of(v);
    append_sign(s, v);
    append_decimal(s, m / scale);
    proof {
        reveal_strlit(".");
    }
    s.append(".");
    assert("."@ =~= seq!['.']);
    append_padded(s, m % scale, places);
    assert(s@ =~= old(s)@ + fixed_point(v as int, places as nat));
}

} // verus!
