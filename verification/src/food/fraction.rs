//! Exact fractions of 32-bit integers, kept in lowest terms.
//!
//! Reducing, multiplying and truncating are num_rational's; this module
//! states what they yield as spec functions on [`Quotient`] and calls
//! num_rational for the result. The calls are made on 64-bit ratios, so that
//! no step of the arithmetic on 32-bit parts overflows.
use num_rational::Ratio;
use vstd::arithmetic::div_mod::*;
use vstd::prelude::*;

verus! {

/// Greatest common divisor of two naturals; `gcd(0, 0)` is 0.
pub open spec fn gcd(a: nat, b: nat) -> nat
    decreases b,
{
    if b == 0 {
        a
    } else {
        gcd(b, a % b)
    }
}

/// Absolute value.
pub open spec fn magnitude(x: int) -> nat {
    if x < 0 {
        (-x) as nat
    } else {
        x as nat
    }
}

/// The mathematical value of a [`Fraction`]: a numerator over a denominator.
pub struct Quotient {
    pub numer: int,
    pub denom: int,
}

impl Quotient {
    /// Whether both parts fit in an `i32`.
    pub open spec fn fits_i32(self) -> bool {
        i32::MIN <= self.numer <= i32::MAX && i32::MIN <= self.denom <= i32::MAX
    }

    /// Whether two quotients stand for the same rational number. Meaningful
    /// for non-zero denominators.
    pub open spec fn same_value(self, other: Quotient) -> bool {
        self.numer * other.denom == other.numer * self.denom
    }

    /// The same number with a positive denominator and no common factor left
    /// in the two parts. Meaningful for a non-zero denominator.
    pub open spec fn lowest_terms(self) -> Quotient {
        let g = gcd(magnitude(self.numer), magnitude(self.denom)) as int;
        if self.denom > 0 {
            Quotient { numer: self.numer / g, denom: self.denom / g }
        } else {
            Quotient { numer: (-self.numer) / g, denom: (-self.denom) / g }
        }
    }

    /// Whether the denominator is positive and the two parts have no common
    /// factor but one.
    pub open spec fn in_lowest_terms(self) -> bool {
        self.denom > 0 && gcd(magnitude(self.numer), magnitude(self.denom)) == 1
    }

    /// The product of two quotients, part by part.
    pub open spec fn times(self, other: Quotient) -> Quotient {
        Quotient { numer: self.numer * other.numer, denom: self.denom * other.denom }
    }

    /// The integer part of the number, rounded toward zero. Meaningful for a
    /// positive denominator.
    pub open spec fn truncated(self) -> int {
        if self.numer >= 0 {
            self.numer / self.denom
        } else {
            -((-self.numer) / self.denom)
        }
    }
}

/// The ratio `numer / denom` in lowest terms, computed by num_rational's
/// `Ratio::new` on 64-bit parts.
///
/// The contract is taken from num_rational and not proved here: the result
/// has a positive denominator and no common factor left in its parts, which
/// is what [`Quotient::lowest_terms`] states. With parts that fit in 32 bits
/// no step overflows.
#[verifier::external_body]
pub(crate) fn ratio_new(numer: i64, denom: i64) -> (r: (i64, i64))
    requires
        denom != 0,
        i32::MIN <= numer <= i32::MAX,
        i32::MIN <= denom <= i32::MAX,
    ensures
        (Quotient { numer: r.0 as int, denom: r.1 as int }) == (Quotient {
            numer: numer as int,
            denom: denom as int,
        }).lowest_terms(),
{
    let ratio = Ratio::new(numer, denom);
    (*ratio.numer(), *ratio.denom())
}

/// The product of the ratios `a_numer / a_denom` and `b_numer / b_denom`,
/// computed by num_rational's `Ratio * Ratio` on 64-bit parts.
///
/// The contract is taken from num_rational and not proved here: the result
/// is the product in lowest terms with a positive denominator. With parts
/// that fit in 32 bits no step overflows.
#[verifier::external_body]
pub(crate) fn ratio_mul(a_numer: i64, a_denom: i64, b_numer: i64, b_denom: i64) -> (r: (i64, i64))
    requires
        a_denom != 0,
        b_denom != 0,
        i32::MIN <= a_numer <= i32::MAX,
        i32::MIN <= a_denom <= i32::MAX,
        i32::MIN <= b_numer <= i32::MAX,
        i32::MIN <= b_denom <= i32::MAX,
    ensures
        (Quotient { numer: r.0 as int, denom: r.1 as int }) == (Quotient {
            numer: a_numer as int,
            denom: a_denom as int,
        }).times(Quotient { numer: b_numer as int, denom: b_denom as int }).lowest_terms(),
{
    let product = Ratio::new_raw(a_numer, a_denom) * Ratio::new_raw(b_numer, b_denom);
    (*product.numer(), *product.denom())
}

/// The integer part of the ratio `numer / denom`, computed by num_rational's
/// `Ratio::to_integer`.
///
/// The contract is taken from num_rational and not proved here: the ratio is
/// rounded toward zero.
#[verifier::external_body]
pub(crate) fn ratio_to_integer(numer: i64, denom: i64) -> (r: i64)
    requires
        denom > 0,
    ensures
        r == (Quotient { numer: numer as int, denom: denom as int }).truncated(),
{
    Ratio::new_raw(numer, denom).to_integer()
}

/// A fraction of two `i32`, in lowest terms and with a positive denominator.
#[derive(Clone, Copy, Debug, PartialEq, Eq, Structural)]
pub struct Fraction {
    numerator: i32,
    denominator: i32,
}

impl View for Fraction {
    type V = Quotient;

    closed spec fn view(&self) -> Quotient {
        Quotient { numer: self.numerator as int, denom: self.denominator as int }
    }
}

impl Fraction {
    /// Every fraction is in lowest terms.
    #[verifier::type_invariant]
    pub open spec fn reduced(self) -> bool {
        self@.in_lowest_terms()
    }

    /// The fraction `numerator / denominator`, reduced to lowest terms.
    /// `None` when the denominator is zero or a reduced part does not fit in
    /// an `i32`.
    pub fn new(numerator: i32, denominator: i32) -> (r: Option<Fraction>)
        ensures
            r.is_some() <==> denominator != 0 && (Quotient {
                numer: numerator as int,
                denom: denominator as int,
            }).lowest_terms().fits_i32(),
            r matches Some(f) ==> f@ == (Quotient {
                numer: numerator as int,
                denom: denominator as int,
            }).lowest_terms(),
    {
        if denominator == 0 {
            return None;
        }
        let (numer, denom) = ratio_new(numerator as i64, denominator as i64);
        proof {
            lemma_lowest_terms_reduced(Quotient { numer: numerator as int, denom: denominator as int });
        }
        if i32::MIN as i64 <= numer && numer <= i32::MAX as i64 && denom <= i32::MAX as i64 {
            Some(Fraction { numerator: numer as i32, denominator: denom as i32 })
        } else {
            None
        }
    }

    /// The fraction `value / 1`.
    pub fn from_integer(value: i32) -> (r: Fraction)
        ensures
            r@ == (Quotient { numer: value as int, denom: 1 }),
    {
        proof {
            lemma_gcd_with_one(magnitude(value as int));
        }
        Fraction { numerator: value, denominator: 1 }
    }

    /// The numerator.
    pub fn numer(&self) -> (r: i32)
        ensures
            r == self@.numer,
    {
        self.numerator
    }

    /// The denominator, which is positive.
    pub fn denom(&self) -> (r: i32)
        ensures
            r == self@.denom,
            r > 0,
    {
        proof {
            use_type_invariant(self);
        }
        self.denominator
    }
}

/// One is the only common factor of a number and one.
pub proof fn lemma_gcd_with_one(a: nat)
    ensures
        gcd(a, 1) == 1,
{
    assert(a % 1 == 0) by (nonlinear_arith);
    assert(gcd(1, 0) == 1);
}

/// The greatest common divisor of two numbers, not both zero, is positive and
/// divides each of them.
pub proof fn lemma_gcd_divides(a: nat, b: nat)
    requires
        a > 0 || b > 0,
    ensures
        gcd(a, b) > 0,
        a % gcd(a, b) == 0,
        b % gcd(a, b) == 0,
    decreases b,
{
    if b == 0 {
        lemma_mod_self_0(a as int);
        lemma_small_mod(0, a);
    } else {
        let r = a % b;
        lemma_mod_bound(a as int, b as int);
        lemma_gcd_divides(b, r);
        let g = gcd(b, r) as int;
        let q = (a as int) / (b as int);
        let m = (b as int) / g;
        let k = (r as int) / g;
        let whole = m * q + k;
        lemma_fundamental_div_mod(a as int, b as int);
        lemma_fundamental_div_mod(b as int, g);
        lemma_fundamental_div_mod(r as int, g);
        assert(a as int == whole * g) by (nonlinear_arith)
            requires
                a as int == (b as int) * q + (r as int),
                b as int == g * m,
                r as int == g * k,
                whole == m * q + k,
        ;
        lemma_mod_multiples_basic(whole, g);
    }
}

/// A number that divides the magnitude of another divides the number itself:
/// the quotient times the divisor gives the number back.
proof fn lemma_exact_division(x: int, g: int)
    requires
        g > 0,
        magnitude(x) % (g as nat) == 0,
    ensures
        x == g * (x / g),
        x > 0 ==> x / g > 0,
        x < 0 ==> x / g < 0,
        x == 0 ==> x / g == 0,
{
    if x < 0 {
        let k = (-x) / g;
        lemma_fundamental_div_mod(-x, g);
        assert(x == (-k) * g) by (nonlinear_arith)
            requires
                -x == g * k,
        ;
        lemma_mod_multiples_basic(-k, g);
    }
    lemma_fundamental_div_mod(x, g);
    assert(x > 0 ==> x / g > 0) by (nonlinear_arith)
        requires
            x == g * (x / g),
            g > 0,
    ;
    assert(x < 0 ==> x / g < 0) by (nonlinear_arith)
        requires
            x == g * (x / g),
            g > 0,
    ;
    assert(x == 0 ==> x / g == 0) by (nonlinear_arith)
        requires
            x == g * (x / g),
            g > 0,
    ;
}

/// Reducing a quotient to lowest terms keeps its value and makes its
/// denominator positive.
pub proof fn lemma_lowest_terms_same_value(q: Quotient)
    requires
        q.denom != 0,
    ensures
        q.lowest_terms().denom > 0,
        q.lowest_terms().same_value(q),
{
    let g = gcd(magnitude(q.numer), magnitude(q.denom)) as int;
    lemma_gcd_divides(magnitude(q.numer), magnitude(q.denom));
    let low = q.lowest_terms();
    if q.denom > 0 {
        lemma_exact_division(q.numer, g);
        lemma_exact_division(q.denom, g);
        assert(low.numer * q.denom == q.numer * low.denom) by (nonlinear_arith)
            requires
                q.numer == g * low.numer,
                q.denom == g * low.denom,
        ;
    } else {
        lemma_exact_division(-q.numer, g);
        lemma_exact_division(-q.denom, g);
        assert(low.numer * q.denom == q.numer * low.denom) by (nonlinear_arith)
            requires
                -q.numer == g * low.numer,
                -q.denom == g * low.denom,
        ;
    }
}

/// Reducing a quotient with a positive denominator to lowest terms keeps its
/// integer part.
pub proof fn lemma_lowest_terms_same_truncation(q: Quotient)
    requires
        q.denom > 0,
    ensures
        q.lowest_terms().truncated() == q.truncated(),
{
    let g = gcd(magnitude(q.numer), magnitude(q.denom)) as int;
    lemma_gcd_divides(magnitude(q.numer), magnitude(q.denom));
    let low = q.lowest_terms();
    lemma_exact_division(q.numer, g);
    lemma_exact_division(q.denom, g);
    if q.numer >= 0 {
        lemma_div_multiples_vanish_quotient(g, low.numer, low.denom);
    } else {
        lemma_div_multiples_vanish_quotient(g, -low.numer, low.denom);
        assert(-q.numer == g * (-low.numer)) by (nonlinear_arith)
            requires
                q.numer == g * low.numer,
        ;
    }
}

/// Scaling two numbers by a positive factor scales their greatest common
/// divisor by that factor.
pub proof fn lemma_gcd_scales(k: nat, a: nat, b: nat)
    requires
        k > 0,
    ensures
        gcd(k * a, k * b) == k * gcd(a, b),
    decreases b,
{
    if b == 0 {
        assert(k * b == 0) by (nonlinear_arith)
            requires
                b == 0,
        ;
    } else {
        lemma_truncate_middle(a as int, k as int, b as int);
        lemma_mod_bound(a as int, b as int);
        lemma_gcd_scales(k, b, a % b);
        assert(k * b > 0) by (nonlinear_arith)
            requires
                k > 0,
                b > 0,
        ;
        assert((k * a) % (k * b) == k * (a % b));
    }
}

/// Dividing two numbers, not both zero, by their greatest common divisor
/// leaves no common factor but one.
pub proof fn lemma_gcd_of_quotients(a: nat, b: nat)
    requires
        a > 0 || b > 0,
    ensures
        gcd(a / gcd(a, b), b / gcd(a, b)) == 1,
{
    let g = gcd(a, b);
    lemma_gcd_divides(a, b);
    let x = a / g;
    let y = b / g;
    lemma_fundamental_div_mod(a as int, g as int);
    lemma_fundamental_div_mod(b as int, g as int);
    lemma_gcd_scales(g, x, y);
    let rest = gcd(x, y);
    assert(rest == 1) by (nonlinear_arith)
        requires
            g == g * rest,
            g > 0,
    ;
}

/// A quotient reduced to lowest terms is in lowest terms.
pub proof fn lemma_lowest_terms_reduced(q: Quotient)
    requires
        q.denom != 0,
    ensures
        q.lowest_terms().in_lowest_terms(),
{
    let a = magnitude(q.numer);
    let b = magnitude(q.denom);
    let g = gcd(a, b) as int;
    lemma_gcd_divides(a, b);
    lemma_gcd_of_quotients(a, b);
    lemma_lowest_terms_same_value(q);
    lemma_exact_division(q.numer, g);
    lemma_exact_division(q.denom, g);
    lemma_exact_division(-q.numer, g);
    lemma_exact_division(-q.denom, g);
    lemma_exact_division(a as int, g);
    lemma_exact_division(b as int, g);
    let low = q.lowest_terms();
    assert(magnitude(low.numer) == a / (g as nat)) by (nonlinear_arith)
        requires
            g > 0,
            q.numer == g * (q.numer / g),
            -q.numer == g * ((-q.numer) / g),
            a as int == g * ((a as int) / g),
            a == magnitude(q.numer),
            low.numer == q.numer / g || low.numer == (-q.numer) / g,
    ;
    assert(magnitude(low.denom) == b / (g as nat)) by (nonlinear_arith)
        requires
            g > 0,
            q.denom == g * (q.denom / g),
            -q.denom == g * ((-q.denom) / g),
            b as int == g * ((b as int) / g),
            b == magnitude(q.denom),
            low.denom > 0,
            low.denom == q.denom / g || low.denom == (-q.denom) / g,
    ;
}

/// A number that divides two numbers divides their greatest common divisor.
pub proof fn lemma_common_divisor_divides_gcd(d: nat, a: nat, b: nat)
    requires
        d > 0,
        a % d == 0,
        b % d == 0,
    ensures
        gcd(a, b) % d == 0,
    decreases b,
{
    if b != 0 {
        let q = (a as int) / (b as int);
        let r = a % b;
        lemma_mod_bound(a as int, b as int);
        lemma_fundamental_div_mod(a as int, b as int);
        lemma_fundamental_div_mod(a as int, d as int);
        lemma_fundamental_div_mod(b as int, d as int);
        let whole = (a as int) / (d as int) - ((b as int) / (d as int)) * q;
        assert(r as int == whole * d) by (nonlinear_arith)
            requires
                a as int == (b as int) * q + (r as int),
                a as int == d * ((a as int) / (d as int)),
                b as int == d * ((b as int) / (d as int)),
                whole == (a as int) / (d as int) - ((b as int) / (d as int)) * q,
        ;
        lemma_mod_multiples_basic(whole, d as int);
        lemma_common_divisor_divides_gcd(d, b, r);
    }
}

/// A number that divides a product and has no factor but one in common with
/// one part of it divides the other part.
pub proof fn lemma_divides_other_factor(x: nat, y: nat, m: nat)
    requires
        m > 0,
        gcd(x, m) == 1,
        (x * y) % m == 0,
    ensures
        y % m == 0,
{
    if y == 0 {
        lemma_small_mod(0, m);
    } else {
        lemma_gcd_scales(y, x, m);
        lemma_mod_multiples_basic(y as int, m as int);
        assert(y * x == x * y) by (nonlinear_arith);
        assert(y * gcd(x, m) == y) by (nonlinear_arith)
            requires
                gcd(x, m) == 1,
        ;
        lemma_common_divisor_divides_gcd(m, y * x, y * m);
    }
}

/// A positive number that is a multiple of another positive number is no
/// smaller than it.
proof fn lemma_multiple_is_no_smaller(a: nat, b: nat)
    requires
        a > 0,
        b > 0,
        a % b == 0,
    ensures
        a >= b,
{
    lemma_fundamental_div_mod(a as int, b as int);
    assert(a >= b) by (nonlinear_arith)
        requires
            a as int == (b as int) * ((a as int) / (b as int)),
            a > 0,
            b > 0,
    ;
}

/// A rational number has one form in lowest terms: two quotients in lowest
/// terms that stand for the same number are the same.
pub proof fn lemma_lowest_terms_unique(a: Quotient, b: Quotient)
    requires
        a.in_lowest_terms(),
        b.in_lowest_terms(),
        a.same_value(b),
    ensures
        a == b,
{
    let an = magnitude(a.numer);
    let bn = magnitude(b.numer);
    let ad = a.denom as nat;
    let bd = b.denom as nat;
    assert(an * bd == bn * ad && (a.numer >= 0 <==> b.numer >= 0 || bn == 0) && (b.numer >= 0
        <==> a.numer >= 0 || an == 0)) by (nonlinear_arith)
        requires
            a.numer * b.denom == b.numer * a.denom,
            a.denom > 0,
            b.denom > 0,
            an == magnitude(a.numer),
            bn == magnitude(b.numer),
            ad == a.denom,
            bd == b.denom,
    ;
    lemma_mod_multiples_basic(bn as int, ad as int);
    lemma_divides_other_factor(an, bd, ad);
    lemma_mod_multiples_basic(an as int, bd as int);
    lemma_divides_other_factor(bn, ad, bd);
    lemma_multiple_is_no_smaller(bd, ad);
    lemma_multiple_is_no_smaller(ad, bd);
    assert(a.numer == b.numer) by (nonlinear_arith)
        requires
            a.numer * b.denom == b.numer * a.denom,
            a.denom == b.denom,
            a.denom > 0,
    ;
}

/// Two quotients stand for the same number exactly when they have the same
/// form in lowest terms.
pub proof fn lemma_lowest_terms_by_value(a: Quotient, b: Quotient)
    requires
        a.denom != 0,
        b.denom != 0,
    ensures
        a.same_value(b) <==> a.lowest_terms() == b.lowest_terms(),
{
    let low_a = a.lowest_terms();
    let low_b = b.lowest_terms();
    lemma_lowest_terms_same_value(a);
    lemma_lowest_terms_same_value(b);
    lemma_lowest_terms_reduced(a);
    lemma_lowest_terms_reduced(b);
    if a.same_value(b) {
        assert(low_a.same_value(low_b)) by (nonlinear_arith)
            requires
                low_a.numer * a.denom == a.numer * low_a.denom,
                low_b.numer * b.denom == b.numer * low_b.denom,
                a.numer * b.denom == b.numer * a.denom,
                a.denom != 0,
                b.denom != 0,
        {
            assert((low_a.numer * low_b.denom - low_b.numer * low_a.denom) * (a.denom * b.denom)
                == 0);
        }
        lemma_lowest_terms_unique(low_a, low_b);
    }
    if low_a == low_b {
        assert(a.same_value(b)) by (nonlinear_arith)
            requires
                low_a.numer * a.denom == a.numer * low_a.denom,
                low_a.numer * b.denom == b.numer * low_a.denom,
                low_a.denom > 0,
        {
            assert((a.numer * b.denom - b.numer * a.denom) * low_a.denom == 0);
        }
    }
}

/// The integer part of a quotient with a positive denominator is no larger
/// in magnitude than its numerator and has the numerator's sign or is zero.
pub proof fn lemma_truncated_bounds(q: Quotient)
    requires
        q.denom > 0,
    ensures
        q.numer >= 0 ==> 0 <= q.truncated() <= q.numer,
        q.numer <= 0 ==> q.numer <= q.truncated() <= 0,
{
    if q.numer >= 0 {
        lemma_div_pos_is_pos(q.numer, q.denom);
        lemma_div_nonincreasing(q.numer, q.denom);
    } else {
        lemma_div_pos_is_pos(-q.numer, q.denom);
        lemma_div_nonincreasing(-q.numer, q.denom);
    }
}

} // verus!
