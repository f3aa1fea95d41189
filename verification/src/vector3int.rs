//! A 3-component integer vector with component-wise arithmetic and
//! geometric helpers, plus conversion from the 2-component vector.

use vstd::prelude::*;
use crate::arith::{abs_i32, abs_of, div_trunc, sign_of, signum_i32, DivideByZero};
use crate::arith::{lemma_div_trunc_cancel, lemma_div_trunc_in_i32};
use crate::vector2int::Vector2Int;

verus! {

/// A vector of three 32-bit signed integer components. Equality is
/// component-wise; values are plain data and freely copied.
#[derive(Clone, Copy, Debug, PartialEq, Eq, Structural)]
pub struct Vector3Int {
    pub x: i32,
    pub y: i32,
    pub z: i32,
}

impl Vector3Int {
    /// The origin, `(0, 0, 0)`.
    pub open spec fn spec_zero() -> Vector3Int {
        Vector3Int { x: 0, y: 0, z: 0 }
    }

    /// The origin, `(0, 0, 0)`.
    #[verifier::when_used_as_spec(spec_zero)]
    pub fn zero() -> (v: Vector3Int)
        ensures
            v == Vector3Int::spec_zero(),
    {
        Vector3Int { x: 0, y: 0, z: 0 }
    }

    /// The vector `(1, 1, 1)`.
    pub open spec fn spec_one() -> Vector3Int {
        Vector3Int { x: 1, y: 1, z: 1 }
    }

    /// The vector `(1, 1, 1)`.
    #[verifier::when_used_as_spec(spec_one)]
    pub fn one() -> (v: Vector3Int)
        ensures
            v == Vector3Int::spec_one(),
    {
        Vector3Int { x: 1, y: 1, z: 1 }
    }

    /// The unit vector pointing up, `(0, 1, 0)` (y-up convention).
    pub fn up() -> (v: Vector3Int)
        ensures
            v.x == 0 && v.y == 1 && v.z == 0,
    {
        Vector3Int { x: 0, y: 1, z: 0 }
    }

    /// The unit vector pointing down, `(0, -1, 0)` (y-up convention).
    pub fn down() -> (v: Vector3Int)
        ensures
            v.x == 0 && v.y == -1 && v.z == 0,
    {
        Vector3Int { x: 0, y: -1, z: 0 }
    }

    /// The unit vector pointing left, `(-1, 0, 0)`.
    pub fn left() -> (v: Vector3Int)
        ensures
            v.x == -1 && v.y == 0 && v.z == 0,
    {
        Vector3Int { x: -1, y: 0, z: 0 }
    }

    /// The unit vector pointing right, `(1, 0, 0)`.
    pub fn right() -> (v: Vector3Int)
        ensures
            v.x == 1 && v.y == 0 && v.z == 0,
    {
        Vector3Int { x: 1, y: 0, z: 0 }
    }

    /// The unit vector pointing forward, `(0, 0, 1)`.
    pub fn forward() -> (v: Vector3Int)
        ensures
            v.x == 0 && v.y == 0 && v.z == 1,
    {
        Vector3Int { x: 0, y: 0, z: 1 }
    }

    /// The unit vector pointing back, `(0, 0, -1)`.
    pub fn back() -> (v: Vector3Int)
        ensures
            v.x == 0 && v.y == 0 && v.z == -1,
    {
        Vector3Int { x: 0, y: 0, z: -1 }
    }

    /// Constructs the vector `(x, y, z)`.
    pub fn new(x: i32, y: i32, z: i32) -> (v: Vector3Int)
        ensures
            v.x == x,
            v.y == y,
            v.z == z,
    {
        Vector3Int { x, y, z }
    }

    /// Lifts a 2-component vector into three dimensions with `z == 0`.
    pub fn from(from: Vector2Int) -> (v: Vector3Int)
        ensures
            v.x == from.x,
            v.y == from.y,
            v.z == 0,
    {
        Vector3Int { x: from.x, y: from.y, z: 0 }
    }

    /// The squared Euclidean length, as a mathematical integer.
    pub open spec fn spec_squared_length(self) -> int {
        self.x * self.x + self.y * self.y + self.z * self.z
    }

    /// The squared Euclidean distance from `self` to `to`, as a
    /// mathematical integer.
    pub open spec fn spec_squared_distance_to(self, to: Vector3Int) -> int {
        (to.x - self.x) * (to.x - self.x) + (to.y - self.y) * (to.y - self.y) + (to.z - self.z) * (
        to.z - self.z)
    }

    /// The component-wise sum of `self` and `rhs`, as a value: the
    /// casts are exact whenever all component sums fit in 32 bits.
    pub open spec fn spec_add(self, rhs: Vector3Int) -> Vector3Int {
        Vector3Int {
            x: (self.x + rhs.x) as i32,
            y: (self.y + rhs.y) as i32,
            z: (self.z + rhs.z) as i32,
        }
    }

    /// The component-wise difference of `self` and `rhs`, as a value.
    pub open spec fn spec_sub(self, rhs: Vector3Int) -> Vector3Int {
        Vector3Int {
            x: (self.x - rhs.x) as i32,
            y: (self.y - rhs.y) as i32,
            z: (self.z - rhs.z) as i32,
        }
    }

    /// The component-wise product of `self` and `rhs`, as a value.
    pub open spec fn spec_mul(self, rhs: Vector3Int) -> Vector3Int {
        Vector3Int {
            x: (self.x * rhs.x) as i32,
            y: (self.y * rhs.y) as i32,
            z: (self.z * rhs.z) as i32,
        }
    }

    /// `self` scaled by `s`, as a value.
    pub open spec fn spec_mul_scalar(self, s: int) -> Vector3Int {
        Vector3Int { x: (self.x * s) as i32, y: (self.y * s) as i32, z: (self.z * s) as i32 }
    }

    /// The component-wise truncating quotient of `self` by `rhs`.
    pub open spec fn spec_div(self, rhs: Vector3Int) -> Vector3Int
        recommends
            rhs.x != 0,
            rhs.y != 0,
            rhs.z != 0,
    {
        Vector3Int {
            x: div_trunc(self.x as int, rhs.x as int) as i32,
            y: div_trunc(self.y as int, rhs.y as int) as i32,
            z: div_trunc(self.z as int, rhs.z as int) as i32,
        }
    }

    /// The truncating quotient of each component of `self` by `s`.
    pub open spec fn spec_div_scalar(self, s: int) -> Vector3Int
        recommends
            s != 0,
    {
        Vector3Int {
            x: div_trunc(self.x as int, s) as i32,
            y: div_trunc(self.y as int, s) as i32,
            z: div_trunc(self.z as int, s) as i32,
        }
    }

    /// The squared Euclidean distance to `to`.
    pub fn squared_distance_to(&self, to: Vector3Int) -> (r: i32)
        requires
            i32::MIN <= to.x - self.x <= i32::MAX,
            i32::MIN <= to.y - self.y <= i32::MAX,
            i32::MIN <= to.z - self.z <= i32::MAX,
            self.spec_squared_distance_to(to) <= i32::MAX,
        ensures
            r == self.spec_squared_distance_to(to),
    {
        let dx: i32 = to.x - self.x;
        let dy: i32 = to.y - self.y;
        let dz: i32 = to.z - self.z;
        proof {
            assert(dx * dx >= 0) by (nonlinear_arith);
            assert(dy * dy >= 0) by (nonlinear_arith);
            assert(dz * dz >= 0) by (nonlinear_arith);
        }
        dx * dx + dy * dy + dz * dz
    }

    /// The squared Euclidean length.
    pub fn squared_length(&self) -> (r: i32)
        requires
            self.spec_squared_length() <= i32::MAX,
        ensures
            r == self.spec_squared_length(),
    {
        proof {
            assert(self.x * self.x >= 0) by (nonlinear_arith);
            assert(self.y * self.y >= 0) by (nonlinear_arith);
            assert(self.z * self.z >= 0) by (nonlinear_arith);
        }
        self.x * self.x + self.y * self.y + self.z * self.z
    }

    /// The component-wise sign: each component of the result is `-1`,
    /// `0` or `1` according to the sign of the matching component.
    pub fn sign(&self) -> (r: Vector3Int)
        ensures
            r.x == sign_of(self.x as int),
            r.y == sign_of(self.y as int),
            r.z == sign_of(self.z as int),
            -1 <= r.x <= 1,
            -1 <= r.y <= 1,
            -1 <= r.z <= 1,
    {
        Vector3Int { x: signum_i32(self.x), y: signum_i32(self.y), z: signum_i32(self.z) }
    }

    /// The component-wise absolute value; all result components are
    /// nonnegative.
    pub fn abs(&self) -> (r: Vector3Int)
        requires
            self.x != i32::MIN,
            self.y != i32::MIN,
            self.z != i32::MIN,
        ensures
            r.x == abs_of(self.x as int),
            r.y == abs_of(self.y as int),
            r.z == abs_of(self.z as int),
            r.x >= 0,
            r.y >= 0,
            r.z >= 0,
    {
        Vector3Int { x: abs_i32(self.x), y: abs_i32(self.y), z: abs_i32(self.z) }
    }

    /// The component-wise negation.
    pub fn oposite(&self) -> (r: Vector3Int)
        requires
            self.x != i32::MIN,
            self.y != i32::MIN,
            self.z != i32::MIN,
        ensures
            r.x == -self.x,
            r.y == -self.y,
            r.z == -self.z,
    {
        Vector3Int { x: -self.x, y: -self.y, z: -self.z }
    }

    /// The component-wise sum of `self` and `rhs`.
    pub fn add(self, rhs: Vector3Int) -> (r: Vector3Int)
        requires
            i32::MIN <= self.x + rhs.x <= i32::MAX,
            i32::MIN <= self.y + rhs.y <= i32::MAX,
            i32::MIN <= self.z + rhs.z <= i32::MAX,
        ensures
            r == self.spec_add(rhs),
    {
        Vector3Int { x: self.x + rhs.x, y: self.y + rhs.y, z: self.z + rhs.z }
    }

    /// Adds `rhs` to `self` in place.
    pub fn add_assign(&mut self, rhs: Vector3Int)
        requires
            i32::MIN <= old(self).x + rhs.x <= i32::MAX,
            i32::MIN <= old(self).y + rhs.y <= i32::MAX,
            i32::MIN <= old(self).z + rhs.z <= i32::MAX,
        ensures
            *final(self) == old(self).spec_add(rhs),
    {
        self.x = self.x + rhs.x;
        self.y = self.y + rhs.y;
        self.z = self.z + rhs.z;
    }

    /// The component-wise sum with a 2-component vector; the result
    /// keeps the `z` of `self`.
    pub fn add_vector2(self, rhs: Vector2Int) -> (r: Vector3Int)
        requires
            i32::MIN <= self.x + rhs.x <= i32::MAX,
            i32::MIN <= self.y + rhs.y <= i32::MAX,
        ensures
            r.x == self.x + rhs.x,
            r.y == self.y + rhs.y,
            r.z == self.z,
    {
        Vector3Int { x: self.x + rhs.x, y: self.y + rhs.y, z: self.z }
    }

    /// Adds a 2-component vector to `self` in place; `z` is kept.
    pub fn add_assign_vector2(&mut self, rhs: Vector2Int)
        requires
            i32::MIN <= old(self).x + rhs.x <= i32::MAX,
            i32::MIN <= old(self).y + rhs.y <= i32::MAX,
        ensures
            final(self).x == old(self).x + rhs.x,
            final(self).y == old(self).y + rhs.y,
            final(self).z == old(self).z,
    {
        self.x = self.x + rhs.x;
        self.y = self.y + rhs.y;
    }

    /// The component-wise difference of `self` and `rhs`.
    pub fn sub(self, rhs: Vector3Int) -> (r: Vector3Int)
        requires
            i32::MIN <= self.x - rhs.x <= i32::MAX,
            i32::MIN <= self.y - rhs.y <= i32::MAX,
            i32::MIN <= self.z - rhs.z <= i32::MAX,
        ensures
            r == self.spec_sub(rhs),
    {
        Vector3Int { x: self.x - rhs.x, y: self.y - rhs.y, z: self.z - rhs.z }
    }

    /// Subtracts `rhs` from `self` in place.
    pub fn sub_assign(&mut self, rhs: Vector3Int)
        requires
            i32::MIN <= old(self).x - rhs.x <= i32::MAX,
            i32::MIN <= old(self).y - rhs.y <= i32::MAX,
            i32::MIN <= old(self).z - rhs.z <= i32::MAX,
        ensures
            *final(self) == old(self).spec_sub(rhs),
    {
        self.x = self.x - rhs.x;
        self.y = self.y - rhs.y;
        self.z = self.z - rhs.z;
    }

    /// The component-wise difference with a 2-component vector; the
    /// result keeps the `z` of `self`.
    pub fn sub_vector2(self, rhs: Vector2Int) -> (r: Vector3Int)
        requires
            i32::MIN <= self.x - rhs.x <= i32::MAX,
            i32::MIN <= self.y - rhs.y <= i32::MAX,
        ensures
            r.x == self.x - rhs.x,
            r.y == self.y - rhs.y,
            r.z == self.z,
    {
        Vector3Int { x: self.x - rhs.x, y: self.y - rhs.y, z: self.z }
    }

    /// Subtracts a 2-component vector from `self` in place; `z` is
    /// kept.
    pub fn sub_assign_vector2(&mut self, rhs: Vector2Int)
        requires
            i32::MIN <= old(self).x - rhs.x <= i32::MAX,
            i32::MIN <= old(self).y - rhs.y <= i32::MAX,
        ensures
            final(self).x == old(self).x - rhs.x,
            final(self).y == old(self).y - rhs.y,
            final(self).z == old(self).z,
    {
        self.x = self.x - rhs.x;
        self.y = self.y - rhs.y;
    }

    /// The component-wise product of `self` and `rhs`.
    pub fn mul(self, rhs: Vector3Int) -> (r: Vector3Int)
        requires
            i32::MIN <= self.x * rhs.x <= i32::MAX,
            i32::MIN <= self.y * rhs.y <= i32::MAX,
            i32::MIN <= self.z * rhs.z <= i32::MAX,
        ensures
            r == self.spec_mul(rhs),
    {
        Vector3Int { x: self.x * rhs.x, y: self.y * rhs.y, z: self.z * rhs.z }
    }

    /// Multiplies `self` by `rhs` component-wise, in place.
    pub fn mul_assign(&mut self, rhs: Vector3Int)
        requires
            i32::MIN <= old(self).x * rhs.x <= i32::MAX,
            i32::MIN <= old(self).y * rhs.y <= i32::MAX,
            i32::MIN <= old(self).z * rhs.z <= i32::MAX,
        ensures
            *final(self) == old(self).spec_mul(rhs),
    {
        self.x = self.x * rhs.x;
        self.y = self.y * rhs.y;
        self.z = self.z * rhs.z;
    }

    /// `self` scaled by `rhs`.
    pub fn mul_scalar(self, rhs: i32) -> (r: Vector3Int)
        requires
            i32::MIN <= self.x * rhs <= i32::MAX,
            i32::MIN <= self.y * rhs <= i32::MAX,
            i32::MIN <= self.z * rhs <= i32::MAX,
        ensures
            r == self.spec_mul_scalar(rhs as int),
    {
        Vector3Int { x: self.x * rhs, y: self.y * rhs, z: self.z * rhs }
    }

    /// Scales `self` by `rhs` in place.
    pub fn mul_assign_scalar(&mut self, rhs: i32)
        requires
            i32::MIN <= old(self).x * rhs <= i32::MAX,
            i32::MIN <= old(self).y * rhs <= i32::MAX,
            i32::MIN <= old(self).z * rhs <= i32::MAX,
        ensures
            *final(self) == old(self).spec_mul_scalar(rhs as int),
    {
        self.x = self.x * rhs;
        self.y = self.y * rhs;
        self.z = self.z * rhs;
    }

    /// The component-wise product with a 2-component vector; the `z`
    /// of the result is zero, as if `rhs` were lifted with `z == 0`.
    pub fn mul_vector2(self, rhs: Vector2Int) -> (r: Vector3Int)
        requires
            i32::MIN <= self.x * rhs.x <= i32::MAX,
            i32::MIN <= self.y * rhs.y <= i32::MAX,
        ensures
            r.x == self.x * rhs.x,
            r.y == self.y * rhs.y,
            r.z == 0,
    {
        Vector3Int { x: self.x * rhs.x, y: self.y * rhs.y, z: 0 }
    }

    /// Multiplies `self` by a 2-component vector in place; `z` is set
    /// to zero, as if `rhs` were lifted with `z == 0`.
    pub fn mul_assign_vector2(&mut self, rhs: Vector2Int)
        requires
            i32::MIN <= old(self).x * rhs.x <= i32::MAX,
            i32::MIN <= old(self).y * rhs.y <= i32::MAX,
        ensures
            final(self).x == old(self).x * rhs.x,
            final(self).y == old(self).y * rhs.y,
            final(self).z == 0,
    {
        self.x = self.x * rhs.x;
        self.y = self.y * rhs.y;
        self.z = 0;
    }

    /// The component-wise truncating quotient of `self` by `rhs`, or
    /// `DivideByZero` when a component of `rhs` is zero.
    pub fn div(self, rhs: Vector3Int) -> (r: Result<Vector3Int, DivideByZero>)
        requires
            !(self.x == i32::MIN && rhs.x == -1),
            !(self.y == i32::MIN && rhs.y == -1),
            !(self.z == i32::MIN && rhs.z == -1),
        ensures
            rhs.x != 0 && rhs.y != 0 && rhs.z != 0 ==> r == Ok::<Vector3Int, DivideByZero>(
                self.spec_div(rhs),
            ),
            rhs.x == 0 || rhs.y == 0 || rhs.z == 0 ==> r == Err::<Vector3Int, DivideByZero>(
                DivideByZero,
            ),
    {
        if rhs.x == 0 || rhs.y == 0 || rhs.z == 0 {
            return Err(DivideByZero);
        }
        proof {
            lemma_div_trunc_in_i32(self.x as int, rhs.x as int);
            lemma_div_trunc_in_i32(self.y as int, rhs.y as int);
            lemma_div_trunc_in_i32(self.z as int, rhs.z as int);
        }
        let qx: Option<i32> = self.x.checked_div(rhs.x);
        let qy: Option<i32> = self.y.checked_div(rhs.y);
        let qz: Option<i32> = self.z.checked_div(rhs.z);
        Ok(Vector3Int { x: qx.unwrap(), y: qy.unwrap(), z: qz.unwrap() })
    }

    /// Divides `self` by `rhs` component-wise, in place, rounding each
    /// quotient toward zero. When a component of `rhs` is zero, `self`
    /// is left unchanged and `DivideByZero` is returned.
    pub fn div_assign(&mut self, rhs: Vector3Int) -> (r: Result<(), DivideByZero>)
        requires
            !(old(self).x == i32::MIN && rhs.x == -1),
            !(old(self).y == i32::MIN && rhs.y == -1),
            !(old(self).z == i32::MIN && rhs.z == -1),
        ensures
            rhs.x != 0 && rhs.y != 0 && rhs.z != 0 ==> r == Ok::<(), DivideByZero>(())
                && *final(self) == old(self).spec_div(rhs),
            rhs.x == 0 || rhs.y == 0 || rhs.z == 0 ==> r == Err::<(), DivideByZero>(DivideByZero)
                && *final(self) == *old(self),
    {
        if rhs.x == 0 || rhs.y == 0 || rhs.z == 0 {
            return Err(DivideByZero);
        }
        proof {
            lemma_div_trunc_in_i32(self.x as int, rhs.x as int);
            lemma_div_trunc_in_i32(self.y as int, rhs.y as int);
            lemma_div_trunc_in_i32(self.z as int, rhs.z as int);
        }
        let qx: Option<i32> = self.x.checked_div(rhs.x);
        let qy: Option<i32> = self.y.checked_div(rhs.y);
        let qz: Option<i32> = self.z.checked_div(rhs.z);
        self.x = qx.unwrap();
        self.y = qy.unwrap();
        self.z = qz.unwrap();
        Ok(())
    }

    /// The truncating quotient of each component of `self` by `rhs`,
    /// or `DivideByZero` when `rhs` is zero.
    pub fn div_scalar(self, rhs: i32) -> (r: Result<Vector3Int, DivideByZero>)
        requires
            !(self.x == i32::MIN && rhs == -1),
            !(self.y == i32::MIN && rhs == -1),
            !(self.z == i32::MIN && rhs == -1),
        ensures
            rhs != 0 ==> r == Ok::<Vector3Int, DivideByZero>(self.spec_div_scalar(rhs as int)),
            rhs == 0 ==> r == Err::<Vector3Int, DivideByZero>(DivideByZero),
    {
        if rhs == 0 {
            return Err(DivideByZero);
        }
        proof {
            lemma_div_trunc_in_i32(self.x as int, rhs as int);
            lemma_div_trunc_in_i32(self.y as int, rhs as int);
            lemma_div_trunc_in_i32(self.z as int, rhs as int);
        }
        let qx: Option<i32> = self.x.checked_div(rhs);
        let qy: Option<i32> = self.y.checked_div(rhs);
        let qz: Option<i32> = self.z.checked_div(rhs);
        Ok(Vector3Int { x: qx.unwrap(), y: qy.unwrap(), z: qz.unwrap() })
    }

    /// Divides each component of `self` by `rhs` in place, rounding
    /// toward zero. When `rhs` is zero, `self` is left unchanged and
    /// `DivideByZero` is returned.
    pub fn div_assign_scalar(&mut self, rhs: i32) -> (r: Result<(), DivideByZero>)
        requires
            !(old(self).x == i32::MIN && rhs == -1),
            !(old(self).y == i32::MIN && rhs == -1),
            !(old(self).z == i32::MIN && rhs == -1),
        ensures
            rhs != 0 ==> r == Ok::<(), DivideByZero>(())
                && *final(self) == old(self).spec_div_scalar(rhs as int),
            rhs == 0 ==> r == Err::<(), DivideByZero>(DivideByZero) && *final(self) == *old(self),
    {
        if rhs == 0 {
            return Err(DivideByZero);
        }
        proof {
            lemma_div_trunc_in_i32(self.x as int, rhs as int);
            lemma_div_trunc_in_i32(self.y as int, rhs as int);
            lemma_div_trunc_in_i32(self.z as int, rhs as int);
        }
        let qx: Option<i32> = self.x.checked_div(rhs);
        let qy: Option<i32> = self.y.checked_div(rhs);
        let qz: Option<i32> = self.z.checked_div(rhs);
        self.x = qx.unwrap();
        self.y = qy.unwrap();
        self.z = qz.unwrap();
        Ok(())
    }
}

/// Adding the zero vector to any vector `v` returns `v`, and
/// subtracting any vector `v` from itself returns the zero vector.
pub proof fn lemma_add_zero_sub_self(v: Vector3Int)
    ensures
        v.spec_add(Vector3Int::zero()) == v,
        v.spec_sub(v) == Vector3Int::zero(),
{
}

/// Scaling any vector `v` by a nonzero scalar `s` and then dividing by
/// `s` returns `v` exactly, provided the scaling itself fits in 32-bit
/// components: the truncating division loses nothing on exact
/// multiples.
pub proof fn lemma_mul_div_cancel(v: Vector3Int, s: i32)
    requires
        s != 0,
        i32::MIN <= v.x * s <= i32::MAX,
        i32::MIN <= v.y * s <= i32::MAX,
        i32::MIN <= v.z * s <= i32::MAX,
    ensures
        v.spec_mul_scalar(s as int).spec_div_scalar(s as int) == v,
{
    lemma_div_trunc_cancel(v.x as int, s as int);
    lemma_div_trunc_cancel(v.y as int, s as int);
    lemma_div_trunc_cancel(v.z as int, s as int);
}

/// The squared length of any vector `v` equals the squared distance
/// from the zero vector to `v`.
pub proof fn lemma_squared_length_is_distance_from_zero(v: Vector3Int)
    ensures
        v.spec_squared_length() == Vector3Int::zero().spec_squared_distance_to(v),
{
}

} // verus!
