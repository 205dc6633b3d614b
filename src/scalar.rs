use vstd::prelude::*;
use vstd::string::StringExecFns;

verus! {

/// The numbers the simulator computes with.
///
/// Each executable operation is tied to a spec function, so that the
/// simulator's contracts can say exactly which value each coordinate takes.
/// The proof functions are the few algebraic facts the simulator's laws need.
pub trait Scalar: Sized + Copy {
    spec fn zero() -> Self;

    spec fn one() -> Self;

    spec fn sum(a: Self, b: Self) -> Self;

    spec fn diff(a: Self, b: Self) -> Self;

    spec fn prod(a: Self, b: Self) -> Self;

    /// Quotient; only meaningful for a divisor other than `zero()`.
    spec fn quot(a: Self, b: Self) -> Self;

    spec fn root(a: Self) -> Self;

    /// The scalar that stands for the natural number `n`.
    spec fn count(n: nat) -> Self;

    spec fn finite(a: Self) -> bool;

    /// How a value is written in exported text.
    spec fn text(a: Self) -> Seq<char>;

    /// Vertical component of the default uniform field: the standard
    /// `-9.81`, as near as the type can hold it.
    spec fn standard_field() -> Self;

    fn standard_field_value() -> (r: Self)
        ensures
            r == Self::standard_field(),
    ;

    fn zero_value() -> (r: Self)
        ensures
            r == Self::zero(),
    ;

    fn one_value() -> (r: Self)
        ensures
            r == Self::one(),
    ;

    fn plus(self, b: Self) -> (r: Self)
        ensures
            r == Self::sum(self, b),
    ;

    fn minus(self, b: Self) -> (r: Self)
        ensures
            r == Self::diff(self, b),
    ;

    fn times(self, b: Self) -> (r: Self)
        ensures
            r == Self::prod(self, b),
    ;

    fn over(self, b: Self) -> (r: Self)
        requires
            b != Self::zero(),
        ensures
            r == Self::quot(self, b),
    ;

    fn sqrt(self) -> (r: Self)
        ensures
            r == Self::root(self),
    ;

    fn from_count(n: usize) -> (r: Self)
        ensures
            r == Self::count(n as nat),
    ;

    fn is_zero(&self) -> (r: bool)
        ensures
            r == (*self == Self::zero()),
    ;

    fn is_finite(&self) -> (r: bool)
        ensures
            r == Self::finite(*self),
    ;

    fn append_text(&self, out: &mut String)
        ensures
            final(out)@ == old(out)@ + Self::text(*self),
    ;

    proof fn lemma_sum_zero(a: Self)
        ensures
            Self::sum(a, Self::zero()) == a,
    ;

    proof fn lemma_prod_zero(a: Self)
        ensures
            Self::prod(a, Self::zero()) == Self::zero(),
            Self::prod(Self::zero(), a) == Self::zero(),
    ;

    proof fn lemma_quot_zero(b: Self)
        requires
            b != Self::zero(),
        ensures
            Self::quot(Self::zero(), b) == Self::zero(),
    ;

    proof fn lemma_diff_self(a: Self)
        ensures
            Self::diff(a, a) == Self::zero(),
    ;

    proof fn lemma_two_nonzero()
        ensures
            Self::sum(Self::one(), Self::one()) != Self::zero(),
    ;

    proof fn lemma_zero_finite()
        ensures
            Self::finite(Self::zero()),
    ;

    proof fn lemma_negation_cancels(a: Self)
        ensures
            Self::sum(Self::diff(Self::zero(), a), a) == Self::zero(),
    ;
}

/// Integer division rounded toward zero, as machine division does it.
pub open spec fn div_toward_zero(a: int, b: int) -> int {
    let q = abs(a) / abs(b);
    if (a < 0) == (b < 0) {
        q
    } else {
        -q
    }
}

pub open spec fn abs(a: int) -> int {
    if a < 0 {
        -a
    } else {
        a
    }
}

/// `r` is the whole part of the square root of `a`.
pub open spec fn is_floor_root(a: int, r: int) -> bool {
    0 <= r && r * r <= a && a < (r + 1) * (r + 1)
}

/// The whole part of the square root; zero for a value that is not positive.
pub open spec fn floor_root(a: int) -> int {
    if a <= 0 {
        0
    } else {
        choose|r: int| is_floor_root(a, r)
    }
}

proof fn lemma_floor_root_unique(a: int, r: int, s: int)
    requires
        is_floor_root(a, r),
        is_floor_root(a, s),
    ensures
        r == s,
{
    if r < s {
        assert((r + 1) * (r + 1) <= s * s) by (nonlinear_arith)
            requires
                0 <= r + 1 <= s,
        ;
    } else if s < r {
        assert((s + 1) * (s + 1) <= r * r) by (nonlinear_arith)
            requires
                0 <= s + 1 <= r,
        ;
    }
}

/// The decimal text of an integer, as Rust's `Display` writes it.
pub uninterp spec fn decimal_text(v: int) -> Seq<char>;

/// Relies on `i64::to_string` (the `Display` impl of `i64`): the text
/// depends on the value alone.
#[verifier::external_body]
fn decimal(v: i64) -> (r: String)
    ensures
        r@ == decimal_text(v as int),
{
    v.to_string()
}

/// Whole part of the square root of a positive `i64`, by bisection.
fn floor_sqrt(a: i64) -> (r: i64)
    requires
        a > 0,
    ensures
        is_floor_root(a as int, r as int),
{
    let mut lo: i128 = 0;
    let mut hi: i128 = 3037000500;
    assert(3037000500 * 3037000500 > i64::MAX);
    while hi - lo > 1
        invariant
            0 <= lo < hi <= 3037000500,
            lo * lo <= a,
            a < hi * hi,
        decreases hi - lo,
    {
        let mid: i128 = lo + (hi - lo) / 2;
        assert(mid * mid <= 3037000500 * 3037000500) by (nonlinear_arith)
            requires
                0 <= mid <= 3037000500,
        ;
        if mid * mid <= a as i128 {
            lo = mid;
        } else {
            hi = mid;
        }
    }
    assert(hi == lo + 1);
    lo as i64
}

impl Scalar for i64 {
    open spec fn zero() -> i64 {
        0
    }

    open spec fn one() -> i64 {
        1
    }

    open spec fn sum(a: i64, b: i64) -> i64 {
        (a + b) as i64
    }

    open spec fn diff(a: i64, b: i64) -> i64 {
        (a - b) as i64
    }

    open spec fn prod(a: i64, b: i64) -> i64 {
        (a * b) as i64
    }

    open spec fn quot(a: i64, b: i64) -> i64 {
        div_toward_zero(a as int, b as int) as i64
    }

    open spec fn root(a: i64) -> i64 {
        floor_root(a as int) as i64
    }

    open spec fn count(n: nat) -> i64 {
        n as i64
    }

    open spec fn finite(a: i64) -> bool {
        true
    }

    open spec fn text(a: i64) -> Seq<char> {
        decimal_text(a as int)
    }

    open spec fn standard_field() -> i64 {
        -10i64
    }

    fn standard_field_value() -> (r: i64) {
        -10
    }

    fn zero_value() -> (r: i64) {
        0
    }

    fn one_value() -> (r: i64) {
        1
    }

    fn plus(self, b: i64) -> (r: i64) {
        #[verifier::truncate]
        (((self as i128) + (b as i128)) as i64)
    }

    fn minus(self, b: i64) -> (r: i64) {
        #[verifier::truncate]
        (((self as i128) - (b as i128)) as i64)
    }

    fn times(self, b: i64) -> (r: i64) {
        let x: i128 = self as i128;
        let y: i128 = b as i128;
        assert(-0x4000_0000_0000_0000_0000_0000_0000_0000 <= x * y <= 0x4000_0000_0000_0000_0000_0000_0000_0000)
            by (nonlinear_arith)
            requires
                -0x8000_0000_0000_0000 <= x < 0x8000_0000_0000_0000,
                -0x8000_0000_0000_0000 <= y < 0x8000_0000_0000_0000,
        ;
        #[verifier::truncate]
        ((x * y) as i64)
    }

    fn over(self, b: i64) -> (r: i64) {
        let ua: u64 = if self < 0 {
            (-(self as i128)) as u64
        } else {
            self as u64
        };
        let ub: u64 = if b < 0 {
            (-(b as i128)) as u64
        } else {
            b as u64
        };
        let q: u64 = ua / ub;
        let signed: i128 = if (self < 0) == (b < 0) {
            q as i128
        } else {
            -(q as i128)
        };
        #[verifier::truncate]
        (signed as i64)
    }

    fn sqrt(self) -> (r: i64) {
        if self <= 0 {
            0
        } else {
            let r = floor_sqrt(self);
            proof {
                let c = choose|s: int| is_floor_root(self as int, s);
                assert(is_floor_root(self as int, r as int));
                lemma_floor_root_unique(self as int, r as int, c);
            }
            r
        }
    }

    fn from_count(n: usize) -> (r: i64) {
        #[verifier::truncate]
        (n as i64)
    }

    fn is_zero(&self) -> (r: bool) {
        *self == 0
    }

    fn is_finite(&self) -> (r: bool) {
        true
    }

    fn append_text(&self, out: &mut String) {
        let t = decimal(*self);
        out.append(t.as_str());
    }

    proof fn lemma_sum_zero(a: i64) {
    }

    proof fn lemma_prod_zero(a: i64) {
    }

    proof fn lemma_quot_zero(b: i64) {
    }

    proof fn lemma_diff_self(a: i64) {
    }

    proof fn lemma_two_nonzero() {
    }

    proof fn lemma_zero_finite() {
    }

    proof fn lemma_negation_cancels(a: i64) {
        assert((((0 - a) as i64 + a) as i64) == 0i64) by (bit_vector);
    }
}

} // verus!
