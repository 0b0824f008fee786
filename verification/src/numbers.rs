//! Exact decimal arithmetic and its text.
//!
//! A [`Quantity`] is a percentage or an amount in millionths; a [`Ratio`] is a
//! quotient of such values that has not been rounded yet. Rounding happens only
//! where a number becomes text or a whole count.

use vstd::prelude::*;

verus! {

/// Millionths in one unit.
pub const MICROS: i64 = 1_000_000;

/// One hundred percent, in millionths of a percentage point.
pub const FULL_PERCENT: i64 = 100_000_000;

/// A reading from a provider: a finite value in millionths, or one of the values
/// that a faulty response can carry instead of a number.
#[derive(Clone, Copy, Debug, PartialEq, Eq, Structural)]
pub enum Quantity {
    Finite(i64),
    PosInfinity,
    NegInfinity,
    NotANumber,
}

/// The exact quotient `num / den` in millionths. A zero `den` stands for a value
/// that is not a number.
#[derive(Clone, Copy, Debug, PartialEq, Eq, Structural)]
pub struct Ratio {
    pub num: i128,
    pub den: u64,
}

impl Quantity {
    /// `value` whole units.
    pub open spec fn spec_whole(value: i32) -> Quantity {
        Quantity::Finite((value as i64 * MICROS) as i64)
    }

    /// `value` whole units.
    pub fn whole(value: i32) -> (r: Quantity)
        ensures
            r == Self::spec_whole(value),
            r == Quantity::Finite((value * 1_000_000) as i64),
    {
        Quantity::Finite(value as i64 * MICROS)
    }

    /// Whether the value is an ordinary number.
    pub open spec fn spec_is_finite(self) -> bool {
        self is Finite
    }

    #[verifier::when_used_as_spec(spec_is_finite)]
    pub fn is_finite(self) -> (r: bool)
        ensures
            r == self.spec_is_finite(),
    {
        match self {
            Quantity::Finite(_) => true,
            _ => false,
        }
    }

    /// The nearest value within zero and one hundred percent.
    pub open spec fn spec_clamp_percent(self) -> Quantity {
        match self {
            Quantity::Finite(m) => Quantity::Finite(
                if m < 0 {
                    0
                } else if m > FULL_PERCENT {
                    FULL_PERCENT
                } else {
                    m
                },
            ),
            Quantity::PosInfinity => Quantity::Finite(FULL_PERCENT),
            Quantity::NegInfinity => Quantity::Finite(0),
            Quantity::NotANumber => Quantity::NotANumber,
        }
    }

    #[verifier::when_used_as_spec(spec_clamp_percent)]
    pub fn clamp_percent(self) -> (r: Quantity)
        ensures
            r == self.spec_clamp_percent(),
    {
        match self {
            Quantity::Finite(m) => Quantity::Finite(
                if m < 0 {
                    0
                } else if m > FULL_PERCENT {
                    FULL_PERCENT
                } else {
                    m
                },
            ),
            Quantity::PosInfinity => Quantity::Finite(FULL_PERCENT),
            Quantity::NegInfinity => Quantity::Finite(0),
            Quantity::NotANumber => Quantity::NotANumber,
        }
    }
}

// ---- rounding -------------------------------------------------------------

/// `num / den` rounded to the nearest integer, a tie going to the even one.
pub open spec fn round_half_even(num: nat, den: nat) -> nat
    recommends
        den > 0,
{
    let q = num / den;
    let r = num % den;
    if 2 * r > den || (2 * r == den && q % 2 == 1) {
        q + 1
    } else {
        q
    }
}

/// `num / den` rounded to the nearest integer, a tie going away from zero.
pub open spec fn round_half_away(num: int, den: int) -> int
    recommends
        den > 0,
{
    if num >= 0 {
        (2 * num + den) / (2 * den)
    } else {
        -((2 * -num + den) / (2 * den))
    }
}

/// The rounded quotient is the integer closest to the exact one: twice the
/// distance never exceeds the divisor.
pub proof fn round_half_away_is_nearest(num: int, den: int)
    requires
        den > 0,
    ensures
        -den <= 2 * (num - round_half_away(num, den) * den) <= den,
{
    let m = if num >= 0 { num } else { -num };
    let q = (2 * m + den) / (2 * den);
    vstd::arithmetic::div_mod::lemma_fundamental_div_mod(2 * m + den, 2 * den);
    let r = (2 * m + den) % (2 * den);
    assert(0 <= r < 2 * den) by {
        vstd::arithmetic::div_mod::lemma_mod_bound(2 * m + den, 2 * den);
    }
    assert((2 * den) * q == 2 * (q * den)) by (nonlinear_arith);
    assert(-den <= 2 * (m - q * den) <= den);
    assert((-q) * den == -(q * den)) by (nonlinear_arith);
}

/// The quotient rounded half away from zero, from quotient and remainder.
proof fn lemma_round_from_parts(num: int, den: int)
    requires
        num >= 0,
        den > 0,
    ensures
        round_half_away(num, den) == if 2 * (num % den) >= den {
            num / den + 1
        } else {
            num / den
        },
{
    let q = num / den;
    let r = num % den;
    vstd::arithmetic::div_mod::lemma_fundamental_div_mod(num, den);
    vstd::arithmetic::div_mod::lemma_mod_bound(num, den);
    let up: int = if 2 * r >= den { 1 } else { 0 };
    let rest = 2 * r + den - 2 * den * up;
    assert(2 * num + den == (q + up) * (2 * den) + rest) by (nonlinear_arith)
        requires
            num == den * q + r,
            rest == 2 * r + den - 2 * den * up,
    ;
    assert(0 <= rest < 2 * den) by (nonlinear_arith)
        requires
            0 <= r < den,
            rest == 2 * r + den - 2 * den * up,
            up == if 2 * r >= den {
                1int
            } else {
                0int
            },
    ;
    vstd::arithmetic::div_mod::lemma_fundamental_div_mod_converse(
        2 * num + den,
        2 * den,
        q + up,
        rest,
    );
}

/// `num / den` rounded to the nearest integer, ties away from zero.
pub fn round_away(num: i128, den: i128) -> (r: i128)
    requires
        den > 0,
    ensures
        r == round_half_away(num as int, den as int),
        den >= 2 ==> -i128::MAX <= r,
{
    if den == 1 {
        return num;
    }
    let m: u128 = if num < 0 {
        (-(num + 1)) as u128 + 1
    } else {
        num as u128
    };
    let q: u128 = m / den as u128;
    let rest: u128 = m % den as u128;
    proof {
        lemma_round_from_parts(m as int, den as int);
        vstd::arithmetic::div_mod::lemma_mod_bound(m as int, den as int);
        vstd::arithmetic::div_mod::lemma_div_is_ordered_by_denominator(m as int, 2, den as int);
    }
    let rounded: i128 = if 2 * rest >= den as u128 {
        q as i128 + 1
    } else {
        q as i128
    };
    if num < 0 {
        -rounded
    } else {
        rounded
    }
}

// ---- decimal text ----------------------------------------------------------

/// The character of one decimal digit.
pub open spec fn digit_char(d: nat) -> char {
    (('0' as u32) + d) as char
}

/// The decimal numeral of `n`, without leading zeros.
pub open spec fn decimal(n: nat) -> Seq<char>
    decreases n,
{
    if n < 10 {
        seq![digit_char(n)]
    } else {
        decimal(n / 10).push(digit_char(n % 10))
    }
}

/// Exactly `width` digits of `n`, with leading zeros.
pub open spec fn padded(n: nat, width: nat) -> Seq<char>
    decreases width,
{
    if width == 0 {
        Seq::empty()
    } else {
        padded(n / 10, (width - 1) as nat).push(digit_char(n % 10))
    }
}

/// Ten to the power of `d`.
pub open spec fn ten_pow(d: nat) -> nat
    decreases d,
{
    if d == 0 {
        1
    } else {
        10 * ten_pow((d - 1) as nat)
    }
}

/// `num / den` millionths with `places` decimals, ties to the even digit; a value
/// below zero keeps its sign even where it rounds to zero.
pub open spec fn fixed_text(num: int, den: nat, places: nat) -> Seq<char> {
    let magnitude: nat = if num < 0 {
        (-num) as nat
    } else {
        num as nat
    };
    let scaled = round_half_even(magnitude * ten_pow(places), den * 1_000_000);
    let sign = if num < 0 {
        seq!['-']
    } else {
        Seq::empty()
    };
    let whole = sign + decimal(scaled / ten_pow(places));
    if places == 0 {
        whole
    } else {
        whole + seq!['.'] + padded(scaled % ten_pow(places), places)
    }
}

fn digit_text(d: u32) -> (r: &'static str)
    requires
        d < 10,
    ensures
        r@ == seq![digit_char(d as nat)],
{
    proof {
        reveal_strlit("0");
        reveal_strlit("1");
        reveal_strlit("2");
        reveal_strlit("3");
        reveal_strlit("4");
        reveal_strlit("5");
        reveal_strlit("6");
        reveal_strlit("7");
        reveal_strlit("8");
        reveal_strlit("9");
    }
    match d {
        0 => "0",
        1 => "1",
        2 => "2",
        3 => "3",
        4 => "4",
        5 => "5",
        6 => "6",
        7 => "7",
        8 => "8",
        _ => "9",
    }
}

/// Appends the decimal numeral of `n`.
pub fn push_decimal(text: &mut String, n: u128)
    ensures
        final(text)@ == old(text)@ + decimal(n as nat),
    decreases n,
{
    if n >= 10 {
        push_decimal(text, n / 10);
    }
    text.append(digit_text((n % 10) as u32));
    proof {
        if n >= 10 {
            assert(
                text@ =~= old(text)@ + decimal((n / 10) as nat).push(digit_char((n % 10) as nat))
            );
        }
    }
}

/// The decimal numeral of `n`.
pub fn decimal_text(n: u64) -> (r: String)
    ensures
        r@ == decimal(n as nat),
{
    let mut text: String = String::new();
    push_decimal(&mut text, n as u128);
    assert(text@ =~= decimal(n as nat));
    text
}

fn push_padded(text: &mut String, n: u128, width: u32)
    ensures
        final(text)@ == old(text)@ + padded(n as nat, width as nat),
    decreases width,
{
    if width > 0 {
        push_padded(text, n / 10, width - 1);
        text.append(digit_text((n % 10) as u32));
        assert(text@ =~= old(text)@ + padded((n / 10) as nat, (width - 1) as nat).push(
            digit_char((n % 10) as nat),
        ));
    } else {
        assert(text@ =~= old(text)@ + padded(n as nat, 0));
    }
}

proof fn lemma_scaled_parts(m: nat, d: nat, t: nat)
    requires
        d > 0,
    ensures
        (m * t) / d == (m / d) * t + ((m % d) * t) / d,
        (m * t) % d == ((m % d) * t) % d,
{
    let q = (m / d) as int;
    let r = (m % d) as int;
    vstd::arithmetic::div_mod::lemma_fundamental_div_mod(m as int, d as int);
    let q2 = (r * t) / d as int;
    let r2 = (r * t) % d as int;
    assert(0 <= r * t) by (nonlinear_arith)
        requires
            0 <= r,
            t >= 0,
    ;
    vstd::arithmetic::div_mod::lemma_fundamental_div_mod(r * t, d as int);
    vstd::arithmetic::div_mod::lemma_mod_bound(r * t, d as int);
    assert(m * t == (q * t + q2) * d + r2) by (nonlinear_arith)
        requires
            m == d * q + r,
            r * t == d * q2 + r2,
    ;
    vstd::arithmetic::div_mod::lemma_fundamental_div_mod_converse(
        (m * t) as int,
        d as int,
        q * t + q2,
        r2,
    );
}

/// `value` with `places` decimals.
pub fn fixed(value: Ratio, places: u32) -> (r: String)
    requires
        value.den > 0,
        places <= 2,
    ensures
        r@ == fixed_text(value.num as int, value.den as nat, places as nat),
{
    let negative = value.num < 0;
    let magnitude: u128 = if negative {
        (-(value.num + 1)) as u128 + 1
    } else {
        value.num as u128
    };
    let ten: u128 = if places == 0 {
        1
    } else if places == 1 {
        10
    } else {
        100
    };
    assert(ten == ten_pow(places as nat)) by {
        reveal_with_fuel(ten_pow, 3);
    }
    let unit: u128 = value.den as u128 * 1_000_000;
    let whole: u128 = magnitude / unit;
    let rest: u128 = magnitude % unit;
    proof {
        lemma_scaled_parts(magnitude as nat, unit as nat, ten as nat);
        vstd::arithmetic::div_mod::lemma_mod_bound(magnitude as int, unit as int);
        vstd::arithmetic::div_mod::lemma_div_is_ordered_by_denominator(
            magnitude as int,
            1_000_000,
            unit as int,
        );
        assert(whole <= 0x8000_0000_0000_0000_0000_0000_0000_0000u128 / 1_000_000);
        assert(rest * ten <= unit * 100) by (nonlinear_arith)
            requires
                rest < unit,
                ten <= 100,
        ;
        assert(whole * ten <= whole * 100) by (nonlinear_arith)
            requires
                ten <= 100,
        ;
        assert((rest * ten) / unit as int <= 100) by {
            vstd::arithmetic::div_mod::lemma_div_is_ordered(rest * ten, unit * 100, unit as int);
            vstd::arithmetic::div_mod::lemma_div_multiples_vanish(100, unit as int);
        }
        vstd::arithmetic::div_mod::lemma_mod_bound(rest * ten, unit as int);
    }
    let spread: u128 = rest * ten;
    let quotient: u128 = whole * ten + spread / unit;
    let left: u128 = spread % unit;
    let scaled: u128 = if 2 * left > unit || (2 * left == unit && quotient % 2 == 1) {
        quotient + 1
    } else {
        quotient
    };
    assert(scaled == round_half_even(magnitude as nat * ten_pow(places as nat), unit as nat));
    let mut text: String = String::new();
    proof {
        reveal_strlit("-");
        reveal_strlit(".");
    }
    if negative {
        text.append("-");
    }
    let ghost sign = text@;
    assert(sign =~= if negative {
        seq!['-']
    } else {
        Seq::empty()
    });
    push_decimal(&mut text, scaled / ten);
    if places > 0 {
        text.append(".");
        assert("."@ =~= seq!['.']);
        push_padded(&mut text, scaled % ten, places);
    }
    text
}

// ---- what a number and its text have in common ----------------------------------

/// A percentage within its range stays as it is, and one outside it goes to the nearer
/// end.
pub proof fn clamping_only_moves_what_is_out_of_range(value: Quantity)
    ensures
        (match (value, value.clamp_percent()) {
            (Quantity::Finite(m), Quantity::Finite(c)) => {
                &&& 0 <= c <= 100_000_000
                &&& 0 <= m <= 100_000_000 ==> c == m
                &&& m < 0 ==> c == 0
                &&& m > 100_000_000 ==> c == 100_000_000
            },
            (Quantity::PosInfinity, c) => c == Quantity::Finite(100_000_000),
            (Quantity::NegInfinity, c) => c == Quantity::Finite(0),
            (Quantity::NotANumber, c) => c is NotANumber,
            _ => false,
        }),
{
}

/// The evenly rounded quotient is an integer closest to the exact one.
pub proof fn round_half_even_is_nearest(num: nat, den: nat)
    requires
        den > 0,
    ensures
        -den <= 2 * (num - round_half_even(num, den) * den) <= den,
        2 * (num - round_half_even(num, den) * den) == den || 2 * (num - round_half_even(num, den)
            * den) == -den ==> round_half_even(num, den) % 2 == 0,
{
    let q = num / den;
    let r = num % den;
    vstd::arithmetic::div_mod::lemma_fundamental_div_mod(num as int, den as int);
    vstd::arithmetic::div_mod::lemma_mod_bound(num as int, den as int);
    assert((q + 1) * den == q * den + den) by (nonlinear_arith);
    assert(q * den == den * q) by (nonlinear_arith);
}

/// The number that a run of digits stands for.
pub open spec fn numeral_value(digits: Seq<char>) -> int
    decreases digits.len(),
{
    if digits.len() == 0 {
        0
    } else {
        10 * numeral_value(digits.drop_last()) + (digits.last() as int - '0' as int)
    }
}

/// Whether every character is a digit.
pub open spec fn is_numeral(digits: Seq<char>) -> bool {
    digits.len() > 0 && forall|i: int| 0 <= i < digits.len() ==> '0' <= #[trigger] digits[i] <= '9'
}

/// A numeral reads as the number that it was written for, and has no needless zero.
pub proof fn numeral_reads_back(n: nat)
    ensures
        is_numeral(decimal(n)),
        numeral_value(decimal(n)) == n,
        n > 0 ==> decimal(n)[0] != '0',
    decreases n,
{
    if n < 10 {
        let digits = seq![digit_char(n)];
        assert(digits.drop_last() =~= Seq::empty());
        assert(numeral_value(Seq::<char>::empty()) == 0);
    } else {
        numeral_reads_back(n / 10);
        let digits = decimal(n);
        assert(digits.drop_last() =~= decimal(n / 10));
        assert(digits[0] == decimal(n / 10)[0]);
        assert forall|i: int| 0 <= i < digits.len() implies '0' <= #[trigger] digits[i] <= '9' by {
            if i < digits.len() - 1 {
                assert(digits[i] == decimal(n / 10)[i]);
            }
        }
    }
}

/// A whole number in a text is the nearest to the exact quotient in millionths.
pub proof fn printed_whole_number_is_nearest(num: nat, den: nat)
    requires
        den > 0,
    ensures
        ({
            let unit = den * 1_000_000;
            let printed = numeral_value(fixed_text(num as int, den, 0));
            -unit <= 2 * (num - printed * unit) <= unit
        }),
{
    let unit = den * 1_000_000;
    reveal_with_fuel(ten_pow, 2);
    let rounded = round_half_even(num, unit);
    round_half_even_is_nearest(num, unit);
    numeral_reads_back(rounded);
    let one = ten_pow(0);
    assert(one == 1);
    assert(num * one == num) by (nonlinear_arith)
        requires
            one == 1,
    ;
    assert(fixed_text(num as int, den, 0) =~= decimal(rounded));
}

/// A run of digits of a fixed length reads as the number that it was written for, where
/// that has no more digits.
pub proof fn padded_numeral_reads_back(n: nat, width: nat)
    requires
        n < ten_pow(width),
    ensures
        padded(n, width).len() == width,
        width > 0 ==> is_numeral(padded(n, width)),
        numeral_value(padded(n, width)) == n,
    decreases width,
{
    if width > 0 {
        let tens = ten_pow((width - 1) as nat);
        assert(n / 10 < tens) by (nonlinear_arith)
            requires
                n < 10 * tens,
        ;
        padded_numeral_reads_back(n / 10, (width - 1) as nat);
        let digits = padded(n, width);
        assert(digits.drop_last() =~= padded(n / 10, (width - 1) as nat));
        assert forall|i: int| 0 <= i < digits.len() implies '0' <= #[trigger] digits[i] <= '9' by {
            if i < digits.len() - 1 {
                assert(digits[i] == padded(n / 10, (width - 1) as nat)[i]);
            }
        }
    }
}

proof fn lemma_ten_pow_positive(places: nat)
    ensures
        ten_pow(places) > 0,
    decreases places,
{
    if places > 0 {
        lemma_ten_pow_positive((places - 1) as nat);
    }
}

/// A number with decimals has that many digits behind its point, and is the nearest such
/// number to the exact quotient in millionths.
pub proof fn printed_decimals_are_nearest(num: nat, den: nat, places: nat)
    requires
        den > 0,
        places > 0,
    ensures
        ({
            let text = fixed_text(num as int, den, places);
            let point = text.len() - places - 1;
            let unit = den * 1_000_000;
            let printed = numeral_value(text.take(point)) * ten_pow(places) + numeral_value(
                text.skip(point + 1),
            );
            &&& 0 < point
            &&& text[point] == '.'
            &&& is_numeral(text.take(point)) && is_numeral(text.skip(point + 1))
            &&& -unit <= 2 * (num * ten_pow(places) - printed * unit) <= unit
        }),
{
    let tens = ten_pow(places);
    let unit = den * 1_000_000;
    lemma_ten_pow_positive(places);
    let scaled = round_half_even(num * tens, unit);
    round_half_even_is_nearest(num * tens, unit);
    let whole = decimal(scaled / tens);
    let rest = padded(scaled % tens, places);
    numeral_reads_back(scaled / tens);
    padded_numeral_reads_back(scaled % tens, places);
    let text = fixed_text(num as int, den, places);
    assert(text =~= whole + seq!['.'] + rest);
    let point = text.len() - places - 1;
    assert(text.take(point) =~= whole);
    assert(text.skip(point + 1) =~= rest);
    assert((scaled / tens) * tens + scaled % tens == scaled) by (nonlinear_arith)
        requires
            tens > 0,
    ;
}

/// A number below zero is that above zero with a sign in front.
pub proof fn negative_number_has_a_sign(num: nat, den: nat, places: nat)
    requires
        num > 0,
    ensures
        fixed_text(-(num as int), den, places) == seq!['-'] + fixed_text(num as int, den, places),
{
    assert(fixed_text(-(num as int), den, places) =~= seq!['-'] + fixed_text(
        num as int,
        den,
        places,
    ));
}

} // verus!
