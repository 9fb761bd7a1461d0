//! Fixed-length integer embeddings with a cached Euclidean norm.
//!
//! Components are plain integers (a caller-chosen fixed-point grid); the
//! cached norm is the integer square root of the sum of squared
//! components. Distance and similarity queries are exact integer
//! arithmetic: the cosine similarity is a signed ratio in `SCALE` units.
//!
//! Mutating `values` in place leaves the cached norm stale until
//! `update_norm` is called; stale results are stale, not erroneous, but
//! the norm-derived operations require a fresh norm.

use crate::error::MemorySubstrateError;
use crate::fixed::{is_sqrt_spec, isqrt, SCALE};
use vstd::prelude::*;

verus! {

/// Most components a vector may hold, so that sums of squares fit in
/// machine words.
pub const MAX_DIMENSIONS: usize = 1_000_000;

/// Largest component magnitude a vector may hold, so that sums of
/// squares fit in machine words.
pub const MAX_COMPONENT: i64 = 1_000_000;

/// The sum of the squared entries of a sequence.
pub open spec fn sum_sq(s: Seq<i64>) -> int
    decreases s.len(),
{
    if s.len() == 0 {
        0
    } else {
        sum_sq(s.drop_last()) + s.last() * s.last()
    }
}

/// The dot product of two sequences of equal length.
pub open spec fn dot_spec(a: Seq<i64>, b: Seq<i64>) -> int
    decreases a.len(),
{
    if a.len() == 0 || b.len() == 0 {
        0
    } else {
        dot_spec(a.drop_last(), b.drop_last()) + a.last() * b.last()
    }
}

/// The sum of squared componentwise differences of two sequences of
/// equal length.
pub open spec fn dist_sq_spec(a: Seq<i64>, b: Seq<i64>) -> int
    decreases a.len(),
{
    if a.len() == 0 || b.len() == 0 {
        0
    } else {
        dist_sq_spec(a.drop_last(), b.drop_last()) + (a.last() - b.last()) * (a.last() - b.last())
    }
}

/// `v` scaled by `num / den`, rounded toward zero.
pub open spec fn scale_toward_zero(v: int, num: int, den: int) -> int {
    if v >= 0 {
        v * num / den
    } else {
        -((-v) * num / den)
    }
}

/// A vector embedding with a cached Euclidean norm.
pub struct Vector {
    /// Number of dimensions in the vector.
    pub dimensions: usize,
    /// The components (length must equal `dimensions`).
    pub values: Vec<i64>,
    /// Cached norm: the integer square root of the sum of squared
    /// components. Stale after a direct mutation of `values` until
    /// `update_norm` runs.
    pub norm: u64,
}

impl Vector {
    /// The dimension count matches the components, and both are small
    /// enough that sums of squares cannot overflow.
    pub open spec fn bounded(self) -> bool {
        &&& self.dimensions == self.values@.len()
        &&& self.values@.len() <= MAX_DIMENSIONS
        &&& forall|i: int|
            0 <= i < self.values@.len() ==> -(MAX_COMPONENT as int) <= #[trigger] self.values@[i]
                <= MAX_COMPONENT as int
    }

    /// The cached norm is the integer square root of the sum of squared
    /// components.
    pub open spec fn norm_fresh(self) -> bool {
        is_sqrt_spec(sum_sq(self.values@), self.norm as int)
    }

    /// A well-formed vector: bounded, with a fresh cached norm.
    pub open spec fn wf(self) -> bool {
        self.bounded() && self.norm_fresh()
    }
}

/// The cosine similarity of two vectors through their cached norms: the
/// dot product over the product of the norms, as a signed fixed-point
/// ratio in `SCALE` units, rounded toward zero.
pub open spec fn cosine_spec(a: Seq<i64>, b: Seq<i64>, na: int, nb: int) -> int {
    scale_toward_zero(dot_spec(a, b), SCALE as int, na * nb)
}

/// A sum of squares is never negative.
pub proof fn lemma_sum_sq_nonneg(s: Seq<i64>)
    ensures
        sum_sq(s) >= 0,
    decreases s.len(),
{
    if s.len() > 0 {
        lemma_sum_sq_nonneg(s.drop_last());
        assert(s.last() * s.last() >= 0) by (nonlinear_arith);
    }
}

/// The sum of squares of an all-zero sequence is zero.
pub proof fn lemma_sum_sq_zero(s: Seq<i64>)
    requires
        forall|i: int| 0 <= i < s.len() ==> #[trigger] s[i] == 0,
    ensures
        sum_sq(s) == 0,
    decreases s.len(),
{
    if s.len() > 0 {
        lemma_sum_sq_zero(s.drop_last());
    }
}

/// A sequence's dot product with itself is its sum of squares.
pub proof fn lemma_dot_self_is_sum_sq(s: Seq<i64>)
    ensures
        dot_spec(s, s) == sum_sq(s),
    decreases s.len(),
{
    if s.len() > 0 {
        lemma_dot_self_is_sum_sq(s.drop_last());
    }
}

/// The Cauchy-Schwarz inequality: the square of a dot product never
/// exceeds the product of the sums of squares.
pub proof fn lemma_cauchy_schwarz(a: Seq<i64>, b: Seq<i64>)
    requires
        a.len() == b.len(),
    ensures
        dot_spec(a, b) * dot_spec(a, b) <= sum_sq(a) * sum_sq(b),
    decreases a.len(),
{
    if a.len() == 0 {
        assert(dot_spec(a, b) == 0);
    } else {
        let a0 = a.drop_last();
        let b0 = b.drop_last();
        lemma_cauchy_schwarz(a0, b0);
        lemma_sum_sq_nonneg(a0);
        lemma_sum_sq_nonneg(b0);
        let d = dot_spec(a0, b0);
        let sa = sum_sq(a0);
        let sb = sum_sq(b0);
        let x = a.last() as int;
        let y = b.last() as int;
        let u = sa * (y * y) + sb * (x * x);
        assert(u * u >= 4 * (sa * sb) * ((x * y) * (x * y))) by (nonlinear_arith)
            requires
                u == sa * (y * y) + sb * (x * x),
                sa >= 0,
                sb >= 0,
        ;
        assert(4 * (sa * sb) * ((x * y) * (x * y)) >= 4 * (d * d) * ((x * y) * (x * y)))
            by (nonlinear_arith)
            requires
                d * d <= sa * sb,
        ;
        assert(u >= 0) by (nonlinear_arith)
            requires
                u == sa * (y * y) + sb * (x * x),
                sa >= 0,
                sb >= 0,
        ;
        assert(2 * (d * (x * y)) <= u) by (nonlinear_arith)
            requires
                u >= 0,
                u * u >= 4 * (d * d) * ((x * y) * (x * y)),
        ;
        assert((d + x * y) * (d + x * y) == d * d + 2 * (d * (x * y)) + (x * x) * (y * y))
            by (nonlinear_arith);
        assert((sa + x * x) * (sb + y * y) == sa * sb + (sa * (y * y) + sb * (x * x)) + (x * x) * (
        y * y)) by (nonlinear_arith);
        assert((d + x * y) * (d + x * y) <= (sa + x * x) * (sb + y * y));
        assert(dot_spec(a, b) == d + x * y);
        assert(sum_sq(a) == sa + x * x);
        assert(sum_sq(b) == sb + y * y);
    }
}

/// With fresh integer-square-root norms, the dot product's magnitude
/// stays under the product of the norms, each rounded up by one.
pub proof fn lemma_dot_bounded_by_norms(a: Seq<i64>, b: Seq<i64>, na: int, nb: int)
    requires
        a.len() == b.len(),
        is_sqrt_spec(sum_sq(a), na),
        is_sqrt_spec(sum_sq(b), nb),
    ensures
        -((na + 1) * (nb + 1)) < dot_spec(a, b) < (na + 1) * (nb + 1),
{
    lemma_cauchy_schwarz(a, b);
    lemma_sum_sq_nonneg(a);
    lemma_sum_sq_nonneg(b);
    let d = dot_spec(a, b);
    let sa = sum_sq(a);
    let sb = sum_sq(b);
    let m = (na + 1) * (nb + 1);
    vstd::arithmetic::mul::lemma_mul_strictly_positive(na + 1, nb + 1);
    assert(sa * sb < m * m) by (nonlinear_arith)
        requires
            0 <= sa < (na + 1) * (na + 1),
            0 <= sb < (nb + 1) * (nb + 1),
            na >= 0,
            nb >= 0,
            m == (na + 1) * (nb + 1),
    ;
    assert(-m < d < m) by (nonlinear_arith)
        requires
            d * d < m * m,
            m > 0,
    ;
}

/// The sum of squares of a bounded sequence is at most its length times
/// the largest square.
pub proof fn lemma_sum_sq_bound(s: Seq<i64>)
    requires
        forall|i: int|
            0 <= i < s.len() ==> -(MAX_COMPONENT as int) <= #[trigger] s[i] <= MAX_COMPONENT as int,
    ensures
        sum_sq(s) <= s.len() * 1_000_000_000_000,
    decreases s.len(),
{
    if s.len() == 0 {
    } else {
        lemma_sum_sq_bound(s.drop_last());
        assert(s.last() * s.last() <= 1_000_000_000_000) by (nonlinear_arith)
            requires
                -1_000_000 <= s.last() <= 1_000_000,
        ;
        assert(s.len() * 1_000_000_000_000 == (s.len() - 1) * 1_000_000_000_000
            + 1_000_000_000_000) by (nonlinear_arith);
    }
}

/// Each entry's square is at most the whole sum of squares.
pub proof fn lemma_component_sq_le_sum_sq(s: Seq<i64>, j: int)
    requires
        0 <= j < s.len(),
    ensures
        s[j] * s[j] <= sum_sq(s),
    decreases s.len(),
{
    lemma_sum_sq_nonneg(s.drop_last());
    if j == s.len() - 1 {
    } else {
        lemma_component_sq_le_sum_sq(s.drop_last(), j);
        assert(s.last() * s.last() >= 0) by (nonlinear_arith);
    }
}

/// A non-degenerate vector's cosine similarity with itself is 1.0 up to
/// the granularity of the integer square root: never below `SCALE`, and
/// above it only by the slack between the true sum of squares and the
/// rounded norm.
pub proof fn lemma_cosine_self(a: Seq<i64>, n: int)
    requires
        is_sqrt_spec(sum_sq(a), n),
        n > 0,
    ensures
        SCALE as int <= cosine_spec(a, a, n, n),
        cosine_spec(a, a, n, n) * (n * n) <= SCALE as int * sum_sq(a),
        sum_sq(a) < (n + 1) * (n + 1),
{
    lemma_dot_self_is_sum_sq(a);
    lemma_sum_sq_nonneg(a);
    let sq = sum_sq(a);
    let den = n * n;
    vstd::arithmetic::mul::lemma_mul_strictly_positive(n, n);
    vstd::arithmetic::mul::lemma_mul_nonnegative(sq, SCALE as int);
    assert(cosine_spec(a, a, n, n) == sq * SCALE / den);
    vstd::arithmetic::mul::lemma_mul_inequality(den, sq, SCALE as int);
    vstd::arithmetic::mul::lemma_mul_is_commutative(den, SCALE as int);
    vstd::arithmetic::mul::lemma_mul_is_commutative(sq, SCALE as int);
    vstd::arithmetic::div_mod::lemma_div_is_ordered(den * SCALE as int, sq * SCALE as int, den);
    vstd::arithmetic::div_mod::lemma_div_multiples_vanish(SCALE as int, den);
    vstd::arithmetic::div_mod::lemma_fundamental_div_mod(sq * SCALE as int, den);
    vstd::arithmetic::div_mod::lemma_mod_bound(sq * SCALE as int, den);
    vstd::arithmetic::mul::lemma_mul_is_commutative(den, sq * SCALE as int / den);
}

impl Vector {
    /// The sum of squared components, accumulated left to right.
    fn sum_of_squares(values: &Vec<i64>) -> (r: u64)
        requires
            values@.len() <= MAX_DIMENSIONS,
            forall|i: int|
                0 <= i < values@.len() ==> -(MAX_COMPONENT as int) <= #[trigger] values@[i]
                    <= MAX_COMPONENT as int,
        ensures
            r == sum_sq(values@),
    {
        let mut acc: u64 = 0;
        let mut i: usize = 0;
        while i < values.len()
            invariant
                i <= values@.len(),
                values@.len() <= MAX_DIMENSIONS,
                forall|j: int|
                    0 <= j < values@.len() ==> -(MAX_COMPONENT as int) <= #[trigger] values@[j]
                        <= MAX_COMPONENT as int,
                acc == sum_sq(values@.take(i as int)),
                acc <= (i as int) * 1_000_000_000_000,
            decreases values@.len() - i,
        {
            let v = values[i];
            proof {
                assert(0 <= v * v <= 1_000_000_000_000) by (nonlinear_arith)
                    requires
                        -1_000_000 <= v <= 1_000_000,
                ;
                assert(values@.take(i + 1).drop_last() =~= values@.take(i as int));
                assert(values@.take(i + 1).last() == values@[i as int]);
            }
            acc = acc + (v * v) as u64;
            i = i + 1;
        }
        proof {
            assert(values@.take(values@.len() as int) =~= values@);
        }
        acc
    }

    /// The norm of a component list: the integer square root of its sum
    /// of squares.
    fn compute_norm(values: &Vec<i64>) -> (r: u64)
        requires
            values@.len() <= MAX_DIMENSIONS,
            forall|i: int|
                0 <= i < values@.len() ==> -(MAX_COMPONENT as int) <= #[trigger] values@[i]
                    <= MAX_COMPONENT as int,
        ensures
            is_sqrt_spec(sum_sq(values@), r as int),
    {
        let total = Self::sum_of_squares(values);
        isqrt(total)
    }

    /// Construct a vector from its components, computing the norm
    /// eagerly. An empty component list violates the vector invariant
    /// and is rejected.
    pub fn new(values: Vec<i64>) -> (r: Result<Vector, MemorySubstrateError>)
        requires
            values@.len() <= MAX_DIMENSIONS,
            forall|i: int|
                0 <= i < values@.len() ==> -(MAX_COMPONENT as int) <= #[trigger] values@[i]
                    <= MAX_COMPONENT as int,
        ensures
            match r {
                Ok(v) => {
                    &&& values@.len() > 0
                    &&& v.wf()
                    &&& v.values@ == values@
                    &&& v.dimensions == values@.len()
                },
                Err(e) => values@.len() == 0 && e is InvariantViolation,
            },
    {
        if values.len() == 0 {
            return Err(
                MemorySubstrateError::InvariantViolation(
                    "vector values cannot be empty".to_owned(),
                ),
            );
        }
        let dimensions = values.len();
        let norm = Self::compute_norm(&values);
        Ok(Vector { dimensions, values, norm })
    }

    /// The all-zero vector of the given dimension; its norm is zero.
    pub fn zeros(dimensions: usize) -> (r: Vector)
        requires
            dimensions <= MAX_DIMENSIONS,
        ensures
            r.wf(),
            r.dimensions == dimensions,
            r.values@.len() == dimensions,
            forall|i: int| 0 <= i < dimensions ==> #[trigger] r.values@[i] == 0,
            r.norm == 0,
    {
        let mut values: Vec<i64> = Vec::new();
        let mut i: usize = 0;
        while i < dimensions
            invariant
                i <= dimensions,
                values@.len() == i,
                forall|j: int| 0 <= j < i ==> #[trigger] values@[j] == 0,
            decreases dimensions - i,
        {
            values.push(0);
            i = i + 1;
        }
        proof {
            lemma_sum_sq_zero(values@);
        }
        Vector { dimensions, values, norm: 0 }
    }

    /// The dot product with another vector; a dimension mismatch
    /// violates the vector invariant and is rejected.
    pub fn dot(&self, other: &Vector) -> (r: Result<i64, MemorySubstrateError>)
        requires
            self.bounded(),
            other.bounded(),
        ensures
            match r {
                Ok(d) => self.dimensions == other.dimensions && d == dot_spec(
                    self.values@,
                    other.values@,
                ),
                Err(e) => self.dimensions != other.dimensions && e is InvariantViolation,
            },
    {
        if self.dimensions != other.dimensions {
            return Err(
                MemorySubstrateError::InvariantViolation(
                    "vector dimensions must match for dot product".to_owned(),
                ),
            );
        }
        let mut acc: i64 = 0;
        let mut i: usize = 0;
        while i < self.values.len()
            invariant
                i <= self.values@.len(),
                self.bounded(),
                other.bounded(),
                self.values@.len() == other.values@.len(),
                acc == dot_spec(self.values@.take(i as int), other.values@.take(i as int)),
                -((i as int) * 1_000_000_000_000) <= acc <= (i as int) * 1_000_000_000_000,
            decreases self.values@.len() - i,
        {
            let a = self.values[i];
            let b = other.values[i];
            proof {
                assert(-1_000_000_000_000 <= a * b <= 1_000_000_000_000) by (nonlinear_arith)
                    requires
                        -1_000_000 <= a <= 1_000_000,
                        -1_000_000 <= b <= 1_000_000,
                ;
                assert(self.values@.take(i + 1).drop_last() =~= self.values@.take(i as int));
                assert(other.values@.take(i + 1).drop_last() =~= other.values@.take(i as int));
            }
            acc = acc + a * b;
            i = i + 1;
        }
        proof {
            assert(self.values@.take(self.values@.len() as int) =~= self.values@);
            assert(other.values@.take(other.values@.len() as int) =~= other.values@);
        }
        Ok(acc)
    }

    /// The Euclidean distance to another vector: the integer square root
    /// of the sum of squared componentwise differences. A dimension
    /// mismatch violates the vector invariant and is rejected.
    pub fn euclidean_distance(&self, other: &Vector) -> (r: Result<
        u64,
        MemorySubstrateError,
    >)
        requires
            self.bounded(),
            other.bounded(),
        ensures
            match r {
                Ok(d) => self.dimensions == other.dimensions && is_sqrt_spec(
                    dist_sq_spec(self.values@, other.values@),
                    d as int,
                ),
                Err(e) => self.dimensions != other.dimensions && e is InvariantViolation,
            },
    {
        if self.dimensions != other.dimensions {
            return Err(
                MemorySubstrateError::InvariantViolation(
                    "vector dimensions must match for distance calculation".to_owned(),
                ),
            );
        }
        let mut acc: u64 = 0;
        let mut i: usize = 0;
        while i < self.values.len()
            invariant
                i <= self.values@.len(),
                self.bounded(),
                other.bounded(),
                self.values@.len() == other.values@.len(),
                acc == dist_sq_spec(self.values@.take(i as int), other.values@.take(i as int)),
                acc <= (i as int) * 4_000_000_000_000,
            decreases self.values@.len() - i,
        {
            let a = self.values[i];
            let b = other.values[i];
            proof {
                assert(0 <= (a - b) * (a - b) <= 4_000_000_000_000) by (nonlinear_arith)
                    requires
                        -1_000_000 <= a <= 1_000_000,
                        -1_000_000 <= b <= 1_000_000,
                ;
                assert(self.values@.take(i + 1).drop_last() =~= self.values@.take(i as int));
                assert(other.values@.take(i + 1).drop_last() =~= other.values@.take(i as int));
            }
            let diff = a - b;
            acc = acc + (diff * diff) as u64;
            i = i + 1;
        }
        proof {
            assert(self.values@.take(self.values@.len() as int) =~= self.values@);
            assert(other.values@.take(other.values@.len() as int) =~= other.values@);
        }
        Ok(isqrt(acc))
    }

    /// The cosine similarity with another vector, as a signed ratio in
    /// `SCALE` units: the dot product over the product of the cached
    /// norms. A zero norm on either side is degenerate and yields
    /// exactly zero; otherwise a dimension mismatch is rejected.
    pub fn cosine_similarity(&self, other: &Vector) -> (r: Result<i64, MemorySubstrateError>)
        requires
            self.wf(),
            other.wf(),
        ensures
            match r {
                Ok(c) => {
                    &&& (self.norm == 0 || other.norm == 0) ==> c == 0
                    &&& (self.norm != 0 && other.norm != 0) ==> {
                        &&& self.dimensions == other.dimensions
                        &&& c == cosine_spec(
                            self.values@,
                            other.values@,
                            self.norm as int,
                            other.norm as int,
                        )
                        &&& -4 * (SCALE as int) < c < 4 * (SCALE as int)
                    }
                },
                Err(e) => {
                    &&& self.norm != 0 && other.norm != 0
                    &&& self.dimensions != other.dimensions
                    &&& e is InvariantViolation
                },
            },
    {
        if self.norm == 0 || other.norm == 0 {
            return Ok(0);
        }
        let d = match self.dot(other) {
            Ok(d) => d,
            Err(e) => { return Err(e) },
        };
        let na = self.norm;
        let nb = other.norm;
        proof {
            lemma_dot_bounded_by_norms(
                self.values@,
                other.values@,
                na as int,
                nb as int,
            );
            lemma_sum_sq_bound(self.values@);
            lemma_sum_sq_bound(other.values@);
            assert(na <= 1_000_000_000) by (nonlinear_arith)
                requires
                    (na as int) * (na as int) <= sum_sq(self.values@),
                    sum_sq(self.values@) <= 1_000_000_000_000_000_000,
                    na >= 0,
            ;
            assert(nb <= 1_000_000_000) by (nonlinear_arith)
                requires
                    (nb as int) * (nb as int) <= sum_sq(other.values@),
                    sum_sq(other.values@) <= 1_000_000_000_000_000_000,
                    nb >= 0,
            ;
            assert(self.values@.len() * 1_000_000_000_000 <= 1_000_000_000_000_000_000)
                by (nonlinear_arith)
                requires
                    self.values@.len() <= 1_000_000,
            ;
            assert(other.values@.len() * 1_000_000_000_000 <= 1_000_000_000_000_000_000)
                by (nonlinear_arith)
                requires
                    other.values@.len() <= 1_000_000,
            ;
            assert((na + 1) * (nb + 1) <= 4 * ((na as int) * (nb as int))) by (nonlinear_arith)
                requires
                    na >= 1,
                    nb >= 1,
            ;
            assert((na + 1) * (nb + 1) <= 2_000_000_000_000_000_000) by (nonlinear_arith)
                requires
                    0 <= na <= 1_000_000_000,
                    0 <= nb <= 1_000_000_000,
            ;
            vstd::arithmetic::mul::lemma_mul_upper_bound(
                na as int,
                1_000_000_000,
                nb as int,
                1_000_000_000,
            );
            vstd::arithmetic::mul::lemma_mul_strictly_positive(na as int, nb as int);
        }
        let neg = d < 0;
        let mag: u64 = if neg {
            (-d) as u64
        } else {
            d as u64
        };
        proof {
            vstd::arithmetic::mul::lemma_mul_upper_bound(
                mag as int,
                2_000_000_000_000_000_000,
                SCALE as int,
                1_000_000,
            );
            assert((mag as int) * (SCALE as int) < ((na as int) * (nb as int)) * (4 * (
            SCALE as int))) by (nonlinear_arith)
                requires
                    0 <= mag,
                    (mag as int) < (na + 1) * (nb + 1),
                    (na + 1) * (nb + 1) <= 4 * ((na as int) * (nb as int)),
                    (na as int) * (nb as int) >= 1,
                    SCALE == 1_000_000,
            ;
            vstd::arithmetic::div_mod::lemma_multiply_divide_lt(
                (mag as int) * (SCALE as int),
                (na as int) * (nb as int),
                4 * (SCALE as int),
            );
            vstd::arithmetic::mul::lemma_mul_nonnegative(mag as int, SCALE as int);
            vstd::arithmetic::div_mod::lemma_div_pos_is_pos(
                (mag as int) * (SCALE as int),
                (na as int) * (nb as int),
            );
        }
        let num: u128 = (mag as u128) * (SCALE as u128);
        let den: u128 = (na as u128) * (nb as u128);
        let q: u128 = num / den;
        let c: i64 = if neg {
            -(q as i64)
        } else {
            q as i64
        };
        Ok(c)
    }

    /// Recompute the cached norm from the current components; required
    /// after any direct mutation of `values` before relying on
    /// norm-derived operations.
    pub fn update_norm(&mut self)
        requires
            old(self).bounded(),
        ensures
            final(self).values@ == old(self).values@,
            final(self).dimensions == old(self).dimensions,
            final(self).wf(),
    {
        self.norm = Self::compute_norm(&self.values);
    }

    /// Scale the components by `SCALE / norm`, so that the vector's
    /// magnitude becomes 1.0 on the fixed-point grid, and refresh the
    /// cached norm; the zero vector is left unchanged.
    pub fn normalize(&mut self)
        requires
            old(self).wf(),
        ensures
            final(self).wf(),
            final(self).dimensions == old(self).dimensions,
            final(self).values@.len() == old(self).values@.len(),
            old(self).norm == 0 ==> *final(self) == *old(self),
            old(self).norm != 0 ==> forall|i: int|
                0 <= i < old(self).values@.len() ==> #[trigger] final(self).values@[i]
                    == scale_toward_zero(
                    old(self).values@[i] as int,
                    SCALE as int,
                    old(self).norm as int,
                ),
    {
        if self.norm == 0 {
            return ;
        }
        let ghost orig = *self;
        let norm = self.norm;
        let n = self.values.len();
        let mut i: usize = 0;
        while i < n
            invariant
                i <= n,
                n == self.values@.len(),
                self.values@.len() == orig.values@.len(),
                self.dimensions == orig.dimensions,
                self.norm == orig.norm,
                norm == orig.norm,
                norm > 0,
                orig.wf(),
                forall|j: int|
                    i <= j < n ==> #[trigger] self.values@[j] == orig.values@[j],
                forall|j: int|
                    0 <= j < i ==> #[trigger] self.values@[j] == scale_toward_zero(
                        orig.values@[j] as int,
                        SCALE as int,
                        norm as int,
                    ),
                forall|j: int|
                    0 <= j < i ==> -(SCALE as int) <= #[trigger] self.values@[j] <= SCALE as int,
            decreases n - i,
        {
            let v = self.values[i];
            proof {
                lemma_component_sq_le_sum_sq(orig.values@, i as int);
                assert(-(norm as int) <= v <= norm as int) by (nonlinear_arith)
                    requires
                        v * v < (norm + 1) * (norm + 1),
                        norm >= 0,
                ;
                if v >= 0 {
                    crate::fixed::lemma_mul_div_le(SCALE as int, v as int, norm as int);
                    vstd::arithmetic::mul::lemma_mul_is_commutative(SCALE as int, v as int);
                } else {
                    crate::fixed::lemma_mul_div_le(SCALE as int, -(v as int), norm as int);
                    vstd::arithmetic::mul::lemma_mul_is_commutative(SCALE as int, -(v as int));
                }
            }
            let scaled: i64 = if v >= 0 {
                ((v as u64) * SCALE / norm) as i64
            } else {
                -((((-v) as u64) * SCALE / norm) as i64)
            };
            self.values.set(i, scaled);
            i = i + 1;
        }
        self.norm = Self::compute_norm(&self.values);
    }

    /// A fresh, independently owned copy of the vector.
    pub fn snapshot(&self) -> (r: Vector)
        ensures
            r.dimensions == self.dimensions,
            r.values@ == self.values@,
            r.norm == self.norm,
    {
        Vector {
            dimensions: self.dimensions,
            values: clone_components(&self.values),
            norm: self.norm,
        }
    }

    /// A normalized copy of the vector; the vector itself is unchanged.
    pub fn normalized(&self) -> (r: Vector)
        requires
            self.wf(),
        ensures
            r.wf(),
            r.dimensions == self.dimensions,
            r.values@.len() == self.values@.len(),
            self.norm == 0 ==> r.values@ == self.values@ && r.norm == self.norm,
            self.norm != 0 ==> forall|i: int|
                0 <= i < self.values@.len() ==> #[trigger] r.values@[i] == scale_toward_zero(
                    self.values@[i] as int,
                    SCALE as int,
                    self.norm as int,
                ),
    {
        let mut copy = Vector {
            dimensions: self.dimensions,
            values: clone_components(&self.values),
            norm: self.norm,
        };
        copy.normalize();
        copy
    }
}

/// A fresh copy of a component list.
fn clone_components(v: &Vec<i64>) -> (r: Vec<i64>)
    ensures
        r@ == v@,
{
    let mut out: Vec<i64> = Vec::new();
    let mut i: usize = 0;
    while i < v.len()
        invariant
            i <= v@.len(),
            out@ == v@.take(i as int),
        decreases v@.len() - i,
    {
        proof {
            assert(v@.take(i + 1) =~= v@.take(i as int).push(v@[i as int]));
        }
        out.push(v[i]);
        i = i + 1;
    }
    proof {
        assert(v@.take(v@.len() as int) =~= v@);
    }
    out
}

impl PartialEq for Vector {
    /// Two vectors are equal when their dimension counts and all their
    /// components agree; the cached norm is derived data and not
    /// compared.
    fn eq(&self, other: &Self) -> (r: bool) {
        if self.dimensions != other.dimensions {
            return false;
        }
        if self.values.len() != other.values.len() {
            return false;
        }
        let mut i: usize = 0;
        while i < self.values.len()
            invariant
                i <= self.values@.len(),
                self.values@.len() == other.values@.len(),
                self.dimensions == other.dimensions,
                forall|j: int| 0 <= j < i ==> #[trigger] self.values@[j] == other.values@[j],
            decreases self.values@.len() - i,
        {
            if self.values[i] != other.values[i] {
                return false;
            }
            i = i + 1;
        }
        proof {
            assert(self.values@ =~= other.values@);
        }
        true
    }
}

impl vstd::std_specs::cmp::PartialEqSpecImpl for Vector {
    open spec fn obeys_eq_spec() -> bool {
        true
    }

    open spec fn eq_spec(&self, other: &Vector) -> bool {
        self.dimensions == other.dimensions && self.values@ == other.values@
    }
}

} // verus!
