//! The numeric capability that vectors and scroll views are generic over.
//!
//! A scalar type names the value of each of its operations with a `spec`
//! function. Types with exact arithmetic also prove the algebraic laws that
//! the theorems about overshoot lean on. The curves that shape pan gain and
//! momentum decay live in a trait of their own, [`Curved`], because nothing is
//! promised about their values.

use vstd::prelude::*;
use vstd::arithmetic::div_mod::lemma_add_mod_noop;
use vstd::arithmetic::div_mod::lemma_mod_bound;
use vstd::arithmetic::div_mod::lemma_mod_sub_multiples_vanish;
use vstd::arithmetic::div_mod::lemma_mul_mod_noop_right;
use vstd::arithmetic::div_mod::lemma_small_mod;
use vstd::arithmetic::mul::lemma_mul_is_distributive_add;

verus! {

/// Arithmetic and ordering on a copyable number type.
///
/// Every operation is total and deterministic: its result is the value of the
/// `spec` function of the same name. The one law asked of every scalar type is
/// that nothing is strictly below itself; the algebraic laws of exact
/// arithmetic are asked by [`ExactScalar`].
///
/// An implementation that is not verified is taken at its word on both counts:
/// what is proved about vectors and scroll views over it holds as far as its
/// operations are functions of their arguments and its order is irreflexive.
pub trait Scalar: Copy + Sized {
    /// The additive identity.
    spec fn spec_zero() -> Self;

    /// The scalar that stands for `n` whole input units.
    spec fn spec_from_i32(n: i32) -> Self;

    /// The sum `self + rhs`.
    spec fn spec_plus(self, rhs: Self) -> Self;

    /// The difference `self - rhs`.
    spec fn spec_minus(self, rhs: Self) -> Self;

    /// The product `self * rhs`.
    spec fn spec_times(self, rhs: Self) -> Self;

    /// Half of `self`.
    spec fn spec_halved(self) -> Self;

    /// Strict order: `self < rhs`.
    spec fn spec_below(self, rhs: Self) -> bool;

    fn zero() -> (r: Self)
        ensures
            r == Self::spec_zero(),
    ;

    fn from_i32(n: i32) -> (r: Self)
        ensures
            r == Self::spec_from_i32(n),
    ;

    fn plus(self, rhs: Self) -> (r: Self)
        ensures
            r == self.spec_plus(rhs),
    ;

    fn minus(self, rhs: Self) -> (r: Self)
        ensures
            r == self.spec_minus(rhs),
    ;

    fn times(self, rhs: Self) -> (r: Self)
        ensures
            r == self.spec_times(rhs),
    ;

    fn halved(self) -> (r: Self)
        ensures
            r == self.spec_halved(),
    ;

    fn below(self, rhs: Self) -> (r: bool)
        ensures
            r == self.spec_below(rhs),
    ;

    /// Nothing is strictly below itself.
    proof fn lemma_below_irreflexive(a: Self)
        ensures
            !a.spec_below(a),
    ;
}

/// A scalar type whose arithmetic is exact, so that the laws below hold of
/// every value. Rounding arithmetic does not qualify: what is proved for exact
/// scalars holds of it only as far as it happens to compute exactly.
pub trait ExactScalar: Scalar {
    /// Adding zero on the right changes nothing.
    proof fn lemma_plus_zero(a: Self)
        ensures
            a.spec_plus(Self::spec_zero()) == a,
    ;

    /// Zero times anything is zero.
    proof fn lemma_zero_times(a: Self)
        ensures
            Self::spec_zero().spec_times(a) == Self::spec_zero(),
    ;

    /// Anything times zero is zero.
    proof fn lemma_times_zero(a: Self)
        ensures
            a.spec_times(Self::spec_zero()) == Self::spec_zero(),
    ;

    /// Half of zero is zero.
    proof fn lemma_halved_zero()
        ensures
            Self::spec_zero().spec_halved() == Self::spec_zero(),
    ;

    /// Multiplication distributes over addition from the left.
    proof fn lemma_times_distributes(a: Self, b: Self, c: Self)
        ensures
            a.spec_times(b.spec_plus(c)) == a.spec_times(b).spec_plus(a.spec_times(c)),
    ;
}

/// The gain and decay curves of a scalar type.
///
/// The library fixes which value each curve is applied to and what is done with
/// the outcome; it assumes nothing about the outcome itself.
pub trait Curved: Scalar {
    /// The super-linear gain applied to a velocity reading when a pan is
    /// accumulated into the position.
    fn accelerate(self) -> Self;

    /// One frame of momentum decay applied to a velocity magnitude.
    fn fling_decay(self) -> Self;
}

/// The representative of `v` modulo 2^64 in the range of `i64`.
pub open spec fn wrap_i64(v: int) -> i64 {
    let m = v % 0x1_0000_0000_0000_0000;
    if m > i64::MAX {
        (m - 0x1_0000_0000_0000_0000) as i64
    } else {
        m as i64
    }
}

/// Truncating division by two, as the machine computes it.
pub open spec fn half_i64(v: i64) -> i64 {
    if v >= 0 {
        (v / 2) as i64
    } else {
        (-((-v) / 2)) as i64
    }
}

/// `wrap_i64` depends only on the residue modulo 2^64, and is congruent to its
/// argument.
proof fn lemma_wrap_i64_residue(v: int)
    ensures
        (wrap_i64(v) as int) % 0x1_0000_0000_0000_0000 == v % 0x1_0000_0000_0000_0000,
{
    lemma_mod_bound(v, 0x1_0000_0000_0000_0000);
    let m = v % 0x1_0000_0000_0000_0000;
    if m > i64::MAX {
        assert((m - 0x1_0000_0000_0000_0000) % 0x1_0000_0000_0000_0000 == m) by {
            lemma_mod_sub_multiples_vanish(m, 0x1_0000_0000_0000_0000);
            lemma_small_mod(m as nat, 0x1_0000_0000_0000_0000);
        }
    } else {
        lemma_small_mod(m as nat, 0x1_0000_0000_0000_0000);
    }
}

/// Two integers with the same residue modulo 2^64 wrap to the same `i64`.
proof fn lemma_wrap_i64_congruent(v: int, w: int)
    requires
        v % 0x1_0000_0000_0000_0000 == w % 0x1_0000_0000_0000_0000,
    ensures
        wrap_i64(v) == wrap_i64(w),
{
}

/// Integers modulo 2^64, ordered as signed numbers.
impl Scalar for i64 {
    open spec fn spec_zero() -> i64 {
        0
    }

    open spec fn spec_from_i32(n: i32) -> i64 {
        n as i64
    }

    open spec fn spec_plus(self, rhs: i64) -> i64 {
        wrap_i64(self + rhs)
    }

    open spec fn spec_minus(self, rhs: i64) -> i64 {
        wrap_i64(self - rhs)
    }

    open spec fn spec_times(self, rhs: i64) -> i64 {
        wrap_i64(self * rhs)
    }

    open spec fn spec_halved(self) -> i64 {
        half_i64(self)
    }

    open spec fn spec_below(self, rhs: i64) -> bool {
        self < rhs
    }

    fn zero() -> (r: i64) {
        0
    }

    fn from_i32(n: i32) -> (r: i64) {
        n as i64
    }

    fn plus(self, rhs: i64) -> (r: i64) {
        self.wrapping_add(rhs)
    }

    fn minus(self, rhs: i64) -> (r: i64) {
        self.wrapping_sub(rhs)
    }

    fn times(self, rhs: i64) -> (r: i64) {
        self.wrapping_mul(rhs)
    }

    fn halved(self) -> (r: i64) {
        self / 2
    }

    fn below(self, rhs: i64) -> (r: bool) {
        self < rhs
    }

    proof fn lemma_below_irreflexive(a: i64) {
    }
}

impl ExactScalar for i64 {
    proof fn lemma_plus_zero(a: i64) {
    }

    proof fn lemma_zero_times(a: i64) {
    }

    proof fn lemma_times_zero(a: i64) {
    }

    proof fn lemma_halved_zero() {
    }

    proof fn lemma_times_distributes(a: i64, b: i64, c: i64) {
        let m: int = 0x1_0000_0000_0000_0000;
        let lhs_inner = wrap_i64(b + c) as int;
        let ab = wrap_i64(a * b) as int;
        let ac = wrap_i64(a * c) as int;
        lemma_wrap_i64_residue(b + c);
        lemma_wrap_i64_residue(a * b);
        lemma_wrap_i64_residue(a * c);
        assert((a * lhs_inner) % m == (a * (b + c)) % m) by {
            lemma_mul_mod_noop_right(a as int, lhs_inner, m);
            lemma_mul_mod_noop_right(a as int, b + c, m);
        }
        assert((ab + ac) % m == (a * b + a * c) % m) by {
            lemma_add_mod_noop(ab, ac, m);
            lemma_add_mod_noop(a * b, a * c, m);
        }
        assert(a * (b + c) == a * b + a * c) by {
            lemma_mul_is_distributive_add(a as int, b as int, c as int);
        }
        lemma_wrap_i64_congruent(a * lhs_inner, ab + ac);
    }
}

} // verus!
