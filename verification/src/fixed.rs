//! Fixed-point scalars: an `i64` that counts billionths of a unit.

use vstd::prelude::*;
use vstd::arithmetic::div_mod::{lemma_fundamental_div_mod, lemma_fundamental_div_mod_converse};
use vstd::string::StringExecFns;

verus! {

/// The fixed-point representation of 1.0.
pub const ONE: i64 = 1_000_000_000;

/// The fixed-point representation of 0.5.
pub const HALF: i64 = 500_000_000;

/// The fixed-point representation of 0.01.
pub const CENT: i64 = 10_000_000;

/// The fixed-point representation of 0.001.
pub const MILLI: i64 = 1_000_000;

/// Whether `x` lies in the closed unit interval.
pub open spec fn in_unit_interval(x: int) -> bool {
    0 <= x <= ONE
}

/// `x` limited to the closed unit interval.
pub open spec fn clamped_to_unit(x: int) -> int {
    if x < 0 {
        0
    } else if x > ONE {
        ONE as int
    } else {
        x
    }
}

/// The share `part / whole` in billionths, rounded down.
pub open spec fn share(part: int, whole: int) -> int {
    part * ONE / whole
}

/// The product of two fixed-point numbers, rounded down.
pub open spec fn scaled_product(a: int, b: int) -> int {
    a * b / (ONE as int)
}

/// A share of a positive whole is never negative, and a part that does not
/// exceed the whole gives at most 1.0.
pub proof fn lemma_share_bounds(part: int, whole: int)
    requires
        0 <= part <= whole,
        0 < whole,
    ensures
        0 <= share(part, whole) <= ONE,
        part == whole ==> share(part, whole) == ONE,
        part == 0 ==> share(part, whole) == 0,
{
    let n = part * ONE;
    assert(0 <= n / whole <= ONE) by (nonlinear_arith)
        requires
            0 <= n,
            n <= whole * ONE,
            0 < whole,
    ;
    if part == whole {
        assert(n / whole == ONE) by (nonlinear_arith)
            requires
                n == whole * ONE,
                0 < whole,
        ;
    }
}

/// The share grows with the part.
pub proof fn lemma_share_monotonic(a: int, b: int, whole: int)
    requires
        a <= b,
        0 < whole,
    ensures
        share(a, whole) <= share(b, whole),
{
    let x = a * ONE;
    let y = b * ONE;
    assert(x / whole <= y / whole) by (nonlinear_arith)
        requires
            x <= y,
            0 < whole,
    ;
}

/// `n / d` rounded down, for a positive divisor and a numerator of either
/// sign.
pub fn floor_div(n: i128, d: i128) -> (q: i128)
    requires
        0 < d,
        i128::MIN < n,
    ensures
        q == n as int / d as int,
{
    if n >= 0 {
        n / d
    } else {
        let m: i128 = -n - 1;
        let p: i128 = m / d;
        proof {
            let r = m as int % d as int;
            lemma_fundamental_div_mod(m as int, d as int);
            assert(0 <= r < d) by (nonlinear_arith)
                requires
                    r == m as int % d as int,
                    0 < d,
            ;
            assert(0 <= p) by (nonlinear_arith)
                requires
                    p == m as int / d as int,
                    0 <= m,
                    0 < d,
            ;
            assert(n as int == (-p - 1) * d + (d - r - 1)) by (nonlinear_arith)
                requires
                    m == d * p + r,
                    n == -m - 1,
            ;
            lemma_fundamental_div_mod_converse(n as int, d as int, -p - 1, d - r - 1);
        }
        -p - 1
    }
}

/// The product of two fixed-point numbers, rounded down and limited to the
/// closed unit interval.
pub fn unit_product(a: i64, b: i64) -> (r: i64)
    ensures
        r == clamped_to_unit(scaled_product(a as int, b as int)),
        in_unit_interval(r as int),
{
    assert(-0x4000_0000_0000_0000_0000_0000_0000_0000 <= a * b
        <= 0x4000_0000_0000_0000_0000_0000_0000_0000) by (nonlinear_arith)
        requires
            -0x8000_0000_0000_0000 <= a <= 0x8000_0000_0000_0000,
            -0x8000_0000_0000_0000 <= b <= 0x8000_0000_0000_0000,
    ;
    let wide: i128 = (a as i128) * (b as i128);
    let q: i128 = floor_div(wide, ONE as i128);
    if q < 0 {
        0
    } else if q > ONE as i128 {
        ONE
    } else {
        q as i64
    }
}

/// Limits `x` to the closed unit interval.
pub fn clamp01(x: i64) -> (r: i64)
    ensures
        r == clamped_to_unit(x as int),
        in_unit_interval(r as int),
{
    if x < 0 {
        0
    } else if x > ONE {
        ONE
    } else {
        x
    }
}

/// The share `part / whole` in billionths, rounded down, for a part between
/// zero and the whole.
pub fn share_of(part: i128, whole: i128) -> (r: i64)
    requires
        0 <= part <= whole,
        0 < whole,
        whole <= 0x1_0000_0000_0000_0000,
    ensures
        r == share(part as int, whole as int),
        in_unit_interval(r as int),
{
    proof {
        lemma_share_bounds(part as int, whole as int);
    }
    let scaled: i128 = part * (ONE as i128);
    let q: i128 = scaled / whole;
    q as i64
}

/// The character of one decimal digit.
pub open spec fn digit_char(d: int) -> char {
    if d == 0 {
        '0'
    } else if d == 1 {
        '1'
    } else if d == 2 {
        '2'
    } else if d == 3 {
        '3'
    } else if d == 4 {
        '4'
    } else if d == 5 {
        '5'
    } else if d == 6 {
        '6'
    } else if d == 7 {
        '7'
    } else if d == 8 {
        '8'
    } else {
        '9'
    }
}

/// The decimal digits of a natural number, most significant first and
/// without leading zeros.
pub open spec fn natural_digits(n: nat) -> Seq<char>
    decreases n,
{
    if n < 10 {
        seq![digit_char(n as int)]
    } else {
        natural_digits(n / 10).push(digit_char((n % 10) as int))
    }
}

/// The decimal text of an integer: a minus sign where it is negative, then
/// the digits of its magnitude.
pub open spec fn integer_digits(n: int) -> Seq<char> {
    if n < 0 {
        seq!['-'] + natural_digits((-n) as nat)
    } else {
        natural_digits(n as nat)
    }
}

fn digit_text(d: u64) -> (s: &'static str)
    requires
        d < 10,
    ensures
        s@ == seq![digit_char(d as int)],
{
    proof {
        reveal_strlit("0");
        reveal_strlit("1");
        reveal_strlit("2");
        reveal_strlit("3");
        reveal_strlit("4");
        reveal_strlit("5");
        reveal_strlit("6");
        reveal_strlit("7");
        reveal_strlit("8");
        reveal_strlit("9");
    }
    let s = if d == 0 {
        "0"
    } else if d == 1 {
        "1"
    } else if d == 2 {
        "2"
    } else if d == 3 {
        "3"
    } else if d == 4 {
        "4"
    } else if d == 5 {
        "5"
    } else if d == 6 {
        "6"
    } else if d == 7 {
        "7"
    } else if d == 8 {
        "8"
    } else {
        "9"
    };
    assert(s@ =~= seq![digit_char(d as int)]);
    s
}

/// The decimal text of a natural number.
pub fn natural_text(n: u64) -> (s: String)
    ensures
        s@ == natural_digits(n as nat),
    decreases n,
{
    if n < 10 {
        digit_text(n).to_owned()
    } else {
        let front = natural_text(n / 10);
        let last = digit_text(n % 10);
        let s = front.concat(last);
        assert(s@ =~= natural_digits((n / 10) as nat).push(digit_char((n % 10) as int)));
        s
    }
}

/// The decimal text of an integer.
pub fn integer_text(n: i64) -> (s: String)
    ensures
        s@ == integer_digits(n as int),
{
    if n < 0 {
        let magnitude: u64 = (-(n as i128)) as u64;
        let digits = natural_text(magnitude);
        proof {
            reveal_strlit("-");
        }
        let s = "-".to_owned().concat(digits.as_str());
        assert(s@ =~= seq!['-'] + natural_digits((-n) as nat));
        s
    } else {
        natural_text(n as u64)
    }
}

} // verus!
