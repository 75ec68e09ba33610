use vstd::arithmetic::div_mod::{lemma_div_by_multiple, lemma_div_is_ordered};
use vstd::prelude::*;

verus! {

/// Whether an integer fits in an `i64`.
pub open spec fn fits_i64(a: int) -> bool {
    i64::MIN <= a <= i64::MAX
}

pub open spec fn abs(a: int) -> int {
    if a < 0 {
        -a
    } else {
        a
    }
}

/// Division rounding toward zero, the rule of Rust's `/` on integers.
pub open spec fn trunc_div(a: int, d: int) -> int {
    if (a < 0) == (d < 0) {
        abs(a) / abs(d)
    } else {
        -(abs(a) / abs(d))
    }
}

/// A triple of accelerations along x, y and z.
///
/// Each component counts units of g / 16384 (one standard gravity, taken as
/// 9.81 m/s², split in 2^14 parts). Every scale factor of the supported chips
/// is a whole number of these units per count, so decoding a reading is exact.
#[derive(Clone, Copy, Debug, PartialEq, Eq, Structural)]
pub struct Value {
    pub x: i64,
    pub y: i64,
    pub z: i64,
}

impl Default for Value {
    fn default() -> (r: Value)
        ensures
            r == Value::zero(),
    {
        Value { x: 0, y: 0, z: 0 }
    }
}

/// Quotient of `a / d`, rounding toward zero.
fn div_toward_zero(a: i128, d: i128) -> (q: i128)
    requires
        d != 0,
        a > i128::MIN,
        d > i128::MIN,
    ensures
        q == trunc_div(a as int, d as int),
{
    let na: i128 = if a < 0 { -a } else { a };
    let nd: i128 = if d < 0 { -d } else { d };
    let m: i128 = na / nd;
    if (a < 0) == (d < 0) {
        m
    } else {
        -m
    }
}

impl Value {
    pub open spec fn zero() -> Value {
        Value { x: 0, y: 0, z: 0 }
    }

    /// Component `axis` (0, 1, 2 for x, y, z).
    pub open spec fn component(self, axis: int) -> int {
        if axis == 0 {
            self.x as int
        } else if axis == 1 {
            self.y as int
        } else {
            self.z as int
        }
    }

    pub open spec fn can_add(self, rhs: Value) -> bool {
        fits_i64(self.x + rhs.x) && fits_i64(self.y + rhs.y) && fits_i64(self.z + rhs.z)
    }

    pub open spec fn can_sub(self, rhs: Value) -> bool {
        fits_i64(self.x - rhs.x) && fits_i64(self.y - rhs.y) && fits_i64(self.z - rhs.z)
    }

    pub open spec fn can_mul(self, k: int) -> bool {
        fits_i64(self.x * k) && fits_i64(self.y * k) && fits_i64(self.z * k)
    }

    pub open spec fn can_div(self, d: int) -> bool {
        d != 0 && fits_i64(trunc_div(self.x as int, d)) && fits_i64(trunc_div(self.y as int, d))
            && fits_i64(trunc_div(self.z as int, d))
    }

    pub open spec fn spec_add(self, rhs: Value) -> Value {
        Value {
            x: (self.x + rhs.x) as i64,
            y: (self.y + rhs.y) as i64,
            z: (self.z + rhs.z) as i64,
        }
    }

    pub open spec fn spec_sub(self, rhs: Value) -> Value {
        Value {
            x: (self.x - rhs.x) as i64,
            y: (self.y - rhs.y) as i64,
            z: (self.z - rhs.z) as i64,
        }
    }

    pub open spec fn spec_mul(self, k: int) -> Value {
        Value { x: (self.x * k) as i64, y: (self.y * k) as i64, z: (self.z * k) as i64 }
    }

    pub open spec fn spec_div(self, d: int) -> Value {
        Value {
            x: trunc_div(self.x as int, d) as i64,
            y: trunc_div(self.y as int, d) as i64,
            z: trunc_div(self.z as int, d) as i64,
        }
    }

    /// Component-wise sum.
    pub fn add(&self, rhs: &Value) -> (r: Value)
        requires
            self.can_add(*rhs),
        ensures
            r == self.spec_add(*rhs),
    {
        let mut other = *self;
        other.mut_add(rhs);
        other
    }

    /// Component-wise difference.
    pub fn sub(&self, rhs: &Value) -> (r: Value)
        requires
            self.can_sub(*rhs),
        ensures
            r == self.spec_sub(*rhs),
    {
        let mut other = *self;
        other.mut_sub(rhs);
        other
    }

    /// Each component multiplied by `factor`.
    pub fn mul(&self, factor: i64) -> (r: Value)
        requires
            self.can_mul(factor as int),
        ensures
            r == self.spec_mul(factor as int),
    {
        let mut other = *self;
        other.mut_mul(factor);
        other
    }

    /// Each component divided by `denom`, rounding toward zero.
    pub fn div(&self, denom: i64) -> (r: Value)
        requires
            self.can_div(denom as int),
        ensures
            r == self.spec_div(denom as int),
    {
        let mut other = *self;
        other.mut_div(denom);
        other
    }

    pub fn mut_add(&mut self, rhs: &Value) -> (r: &Self)
        requires
            old(self).can_add(*rhs),
        ensures
            *final(self) == old(self).spec_add(*rhs),
            *r == *final(self),
    {
        self.x = self.x + rhs.x;
        self.y = self.y + rhs.y;
        self.z = self.z + rhs.z;
        self
    }

    pub fn mut_sub(&mut self, rhs: &Value) -> (r: &Self)
        requires
            old(self).can_sub(*rhs),
        ensures
            *final(self) == old(self).spec_sub(*rhs),
            *r == *final(self),
    {
        self.x = self.x - rhs.x;
        self.y = self.y - rhs.y;
        self.z = self.z - rhs.z;
        self
    }

    pub fn mut_mul(&mut self, factor: i64) -> (r: &Self)
        requires
            old(self).can_mul(factor as int),
        ensures
            *final(self) == old(self).spec_mul(factor as int),
            *r == *final(self),
    {
        self.x = self.x * factor;
        self.y = self.y * factor;
        self.z = self.z * factor;
        self
    }

    pub fn mut_div(&mut self, denom: i64) -> (r: &Self)
        requires
            old(self).can_div(denom as int),
        ensures
            *final(self) == old(self).spec_div(denom as int),
            *r == *final(self),
    {
        self.x = div_toward_zero(self.x as i128, denom as i128) as i64;
        self.y = div_toward_zero(self.y as i128, denom as i128) as i64;
        self.z = div_toward_zero(self.z as i128, denom as i128) as i64;
        self
    }
}

/// Sum of component `axis` over `s`.
pub open spec fn total(s: Seq<Value>, axis: int) -> int
    decreases s.len(),
{
    if s.len() == 0 {
        0
    } else {
        total(s.drop_last(), axis) + s.last().component(axis)
    }
}

/// Mean of component `axis` over a non-empty `s`, rounding toward zero.
pub open spec fn mean(s: Seq<Value>, axis: int) -> int {
    trunc_div(total(s, axis), s.len() as int)
}

/// The average of `s`: the component-wise mean, or zero for an empty sequence.
pub open spec fn spec_average(s: Seq<Value>) -> Value {
    if s.len() == 0 {
        Value::zero()
    } else {
        Value { x: mean(s, 0) as i64, y: mean(s, 1) as i64, z: mean(s, 2) as i64 }
    }
}

/// Every component of every element of `s` lies in `[lo, hi]`.
pub open spec fn all_within(s: Seq<Value>, lo: int, hi: int) -> bool {
    forall|i: int, axis: int|
        0 <= i < s.len() && 0 <= axis < 3 ==> lo <= #[trigger] s[i].component(axis) <= hi
}

pub proof fn lemma_total_bounds(s: Seq<Value>, axis: int, lo: int, hi: int)
    requires
        all_within(s, lo, hi),
        0 <= axis < 3,
    ensures
        s.len() * lo <= total(s, axis) <= s.len() * hi,
    decreases s.len(),
{
    if s.len() == 0 {
        assert(s.len() * lo == 0 && s.len() * hi == 0) by (nonlinear_arith)
            requires
                s.len() == 0,
        ;
    } else {
        let t = s.drop_last();
        assert forall|i: int, a: int| 0 <= i < t.len() && 0 <= a < 3 implies lo
            <= #[trigger] t[i].component(a) <= hi by {
            assert(t[i] == s[i]);
        }
        lemma_total_bounds(t, axis, lo, hi);
        assert(s.last() == s[s.len() - 1]);
        assert(lo <= s[s.len() - 1].component(axis) <= hi);
        assert(total(s, axis) == total(t, axis) + s.last().component(axis));
        assert(s.len() * lo == t.len() * lo + lo) by (nonlinear_arith)
            requires
                s.len() == t.len() + 1,
        ;
        assert(s.len() * hi == t.len() * hi + hi) by (nonlinear_arith)
            requires
                s.len() == t.len() + 1,
        ;
    }
}

/// A total of `n` values in `[lo, hi]`, divided by `n`, stays in `[lo, hi]`.
pub proof fn lemma_mean_bounds(t: int, n: int, lo: int, hi: int)
    requires
        n > 0,
        lo <= 0 <= hi,
        n * lo <= t <= n * hi,
    ensures
        lo <= trunc_div(t, n) <= hi,
{
    if t >= 0 {
        lemma_div_is_ordered(t, n * hi, n);
        lemma_div_by_multiple(hi, n);
        assert(n * hi == hi * n) by (nonlinear_arith);
        assert(0 <= t / n) by (nonlinear_arith)
            requires
                t >= 0,
                n > 0,
        ;
    } else {
        assert(n * (-lo) == -(n * lo)) by (nonlinear_arith);
        assert(n * (-lo) == (-lo) * n) by (nonlinear_arith);
        lemma_div_is_ordered(-t, n * (-lo), n);
        lemma_div_by_multiple(-lo, n);
        assert(0 <= (-t) / n) by (nonlinear_arith)
            requires
                -t >= 0,
                n > 0,
        ;
    }
}

proof fn lemma_trunc_div_of_multiple(a: int, k: int)
    requires
        k != 0,
    ensures
        trunc_div(a * k, k) == a,
{
    assert(abs(a * k) == abs(a) * abs(k)) by (nonlinear_arith);
    lemma_div_by_multiple(abs(a), abs(k));
    if a > 0 {
        assert((a * k < 0) == (k < 0)) by (nonlinear_arith)
            requires
                a > 0,
                k != 0,
        ;
    } else if a < 0 {
        assert((a * k < 0) != (k < 0)) by (nonlinear_arith)
            requires
                a < 0,
                k != 0,
        ;
    } else {
        assert(a * k == 0) by (nonlinear_arith)
            requires
                a == 0,
        ;
    }
}

/// Adding `w` and then subtracting it gives back `v`.
pub proof fn lemma_add_then_sub(v: Value, w: Value)
    requires
        v.can_add(w),
    ensures
        v.spec_add(w).can_sub(w),
        v.spec_add(w).spec_sub(w) == v,
{
}

/// Multiplying by a nonzero `k` and then dividing by `k` gives back `v`.
pub proof fn lemma_mul_then_div(v: Value, k: int)
    requires
        k != 0,
        v.can_mul(k),
    ensures
        v.spec_mul(k).can_div(k),
        v.spec_mul(k).spec_div(k) == v,
{
    lemma_trunc_div_of_multiple(v.x as int, k);
    lemma_trunc_div_of_multiple(v.y as int, k);
    lemma_trunc_div_of_multiple(v.z as int, k);
}

/// The average of a single value is that value.
pub proof fn lemma_average_of_one(v: Value)
    ensures
        spec_average(seq![v]) == v,
{
    let s = seq![v];
    assert(s.drop_last() =~= Seq::<Value>::empty());
    assert(s.last() == v);
    assert(total(s.drop_last(), 0) == 0 && total(s.drop_last(), 1) == 0 && total(s.drop_last(), 2)
        == 0);
    assert(total(s, 0) == v.x);
    assert(total(s, 1) == v.y);
    assert(total(s, 2) == v.z);
    assert(abs(v.x as int) / 1 == abs(v.x as int));
    assert(abs(v.y as int) / 1 == abs(v.y as int));
    assert(abs(v.z as int) / 1 == abs(v.z as int));
}

impl Value {
    /// Component-wise mean of `vals`, each sum divided by the count and rounded
    /// toward zero. An empty input averages to the zero vector.
    pub fn average(vals: &Vec<Value>) -> (r: Value)
        ensures
            r == spec_average(vals@),
            vals@.len() > 0 ==> r.x == mean(vals@, 0) && r.y == mean(vals@, 1) && r.z == mean(
                vals@,
                2,
            ),
    {
        let n = vals.len();
        let mut sx: i128 = 0;
        let mut sy: i128 = 0;
        let mut sz: i128 = 0;
        let mut i: usize = 0;
        while i < n
            invariant
                n == vals@.len(),
                0 <= i <= n,
                sx == total(vals@.subrange(0, i as int), 0),
                sy == total(vals@.subrange(0, i as int), 1),
                sz == total(vals@.subrange(0, i as int), 2),
                i * (i64::MIN as int) <= sx <= i * (i64::MAX as int),
                i * (i64::MIN as int) <= sy <= i * (i64::MAX as int),
                i * (i64::MIN as int) <= sz <= i * (i64::MAX as int),
            decreases n - i,
        {
            let v = vals[i];
            proof {
                let s = vals@.subrange(0, i + 1);
                assert(s.drop_last() =~= vals@.subrange(0, i as int));
                assert(s.last() == v);
                assert((i + 1) * (i64::MIN as int) == i * (i64::MIN as int) + i64::MIN) by (
                nonlinear_arith);
                assert((i + 1) * (i64::MAX as int) == i * (i64::MAX as int) + i64::MAX) by (
                nonlinear_arith);
                assert((i + 1) * (i64::MIN as int) > i128::MIN) by (nonlinear_arith)
                    requires
                        i + 1 <= usize::MAX,
                ;
                assert((i + 1) * (i64::MAX as int) < i128::MAX) by (nonlinear_arith)
                    requires
                        i + 1 <= usize::MAX,
                ;
            }
            sx = sx + v.x as i128;
            sy = sy + v.y as i128;
            sz = sz + v.z as i128;
            i = i + 1;
        }
        if n == 0 {
            return Value { x: 0, y: 0, z: 0 };
        }
        proof {
            assert(vals@.subrange(0, n as int) =~= vals@);
            lemma_mean_bounds(sx as int, n as int, i64::MIN as int, i64::MAX as int);
            lemma_mean_bounds(sy as int, n as int, i64::MIN as int, i64::MAX as int);
            lemma_mean_bounds(sz as int, n as int, i64::MIN as int, i64::MAX as int);
            assert(n * (i64::MIN as int) > i128::MIN) by (nonlinear_arith)
                requires
                    n <= usize::MAX,
                    n > 0,
            ;
        }
        let d = n as i128;
        Value {
            x: div_toward_zero(sx, d) as i64,
            y: div_toward_zero(sy, d) as i64,
            z: div_toward_zero(sz, d) as i64,
        }
    }
}

} // verus!
