//! Two-, three- and four-component vectors of fixed-point scalars.
use crate::fx::{add_fx, fx_add, fx_mul, fx_neg, fx_sub, mul_fx, neg_fx, sub_fx, FX_HALF};
use vstd::prelude::*;

verus! {

/// A pair of fixed-point scalars; also used as a one-dimensional interval.
#[derive(Clone, Copy, Debug, PartialEq, Eq, Structural)]
pub struct Vector2 {
    pub x: i64,
    pub y: i64,
}

impl Vector2 {
    /// The pair `(x, y)`.
    pub fn from_xy(x: i64, y: i64) -> (r: Vector2)
        ensures
            r == (Vector2 { x, y }),
    {
        Vector2 { x, y }
    }

    /// The first component.
    pub fn x(&self) -> (r: i64)
        ensures
            r == self.x,
    {
        self.x
    }

    /// The second component.
    pub fn y(&self) -> (r: i64)
        ensures
            r == self.y,
    {
        self.y
    }
}

/// A three-component vector of fixed-point scalars.
#[derive(Clone, Copy, Debug, PartialEq, Eq, Structural)]
pub struct Vector3 {
    pub x: i64,
    pub y: i64,
    pub z: i64,
}

/// The component of `v` on a world axis: 0 is x, 1 is y, 2 is z.
pub open spec fn vec3_axis(v: Vector3, i: int) -> i64 {
    if i == 0 {
        v.x
    } else if i == 1 {
        v.y
    } else {
        v.z
    }
}

/// `v` with the component on axis `i` replaced by `s`.
pub open spec fn vec3_with_axis(v: Vector3, i: int, s: i64) -> Vector3 {
    if i == 0 {
        Vector3 { x: s, ..v }
    } else if i == 1 {
        Vector3 { y: s, ..v }
    } else {
        Vector3 { z: s, ..v }
    }
}

/// The componentwise fixed-point sum of `a` and `b`.
pub open spec fn vec3_add(a: Vector3, b: Vector3) -> Vector3 {
    Vector3 {
        x: fx_add(a.x as int, b.x as int) as i64,
        y: fx_add(a.y as int, b.y as int) as i64,
        z: fx_add(a.z as int, b.z as int) as i64,
    }
}

/// The componentwise fixed-point difference of `a` and `b`.
pub open spec fn vec3_sub(a: Vector3, b: Vector3) -> Vector3 {
    Vector3 {
        x: fx_sub(a.x as int, b.x as int) as i64,
        y: fx_sub(a.y as int, b.y as int) as i64,
        z: fx_sub(a.z as int, b.z as int) as i64,
    }
}

/// `a` scaled by the fixed-point factor `k`.
pub open spec fn vec3_scale(a: Vector3, k: i64) -> Vector3 {
    Vector3 {
        x: fx_mul(a.x as int, k as int) as i64,
        y: fx_mul(a.y as int, k as int) as i64,
        z: fx_mul(a.z as int, k as int) as i64,
    }
}

/// The componentwise fixed-point negation of `a`.
pub open spec fn vec3_neg(a: Vector3) -> Vector3 {
    Vector3 {
        x: fx_neg(a.x as int) as i64,
        y: fx_neg(a.y as int) as i64,
        z: fx_neg(a.z as int) as i64,
    }
}

/// The fixed-point cross product of `a` and `b`.
pub open spec fn vec3_cross(a: Vector3, b: Vector3) -> Vector3 {
    Vector3 {
        x: fx_sub(fx_mul(a.y as int, b.z as int), fx_mul(a.z as int, b.y as int)) as i64,
        y: fx_sub(fx_mul(a.z as int, b.x as int), fx_mul(a.x as int, b.z as int)) as i64,
        z: fx_sub(fx_mul(a.x as int, b.y as int), fx_mul(a.y as int, b.x as int)) as i64,
    }
}

impl Vector3 {
    /// The origin.
    pub fn zero() -> (r: Vector3)
        ensures
            r == (Vector3 { x: 0, y: 0, z: 0 }),
    {
        Vector3 { x: 0, y: 0, z: 0 }
    }

    /// The vector with `v` in every component.
    pub fn repeat(v: i64) -> (r: Vector3)
        ensures
            r == (Vector3 { x: v, y: v, z: v }),
    {
        Vector3 { x: v, y: v, z: v }
    }

    /// The vector `(x, y, z)`.
    pub fn from_xyz(x: i64, y: i64, z: i64) -> (r: Vector3)
        ensures
            r == (Vector3 { x, y, z }),
    {
        Vector3 { x, y, z }
    }

    /// The first component.
    pub fn x(&self) -> (r: i64)
        ensures
            r == self.x,
    {
        self.x
    }

    /// The second component.
    pub fn y(&self) -> (r: i64)
        ensures
            r == self.y,
    {
        self.y
    }

    /// The third component.
    pub fn z(&self) -> (r: i64)
        ensures
            r == self.z,
    {
        self.z
    }

    /// The component on world axis `i`.
    pub fn get(&self, i: usize) -> (r: i64)
        requires
            i < 3,
        ensures
            r == vec3_axis(*self, i as int),
    {
        if i == 0 {
            self.x
        } else if i == 1 {
            self.y
        } else {
            self.z
        }
    }

    /// Replace the component on world axis `i` by `value`.
    pub fn set(&mut self, i: usize, value: i64)
        requires
            i < 3,
        ensures
            *final(self) == vec3_with_axis(*old(self), i as int, value),
    {
        if i == 0 {
            self.x = value;
        } else if i == 1 {
            self.y = value;
        } else {
            self.z = value;
        }
    }

    /// The fixed-point sum of `self` and `rhs`.
    pub fn plus(&self, rhs: &Vector3) -> (r: Vector3)
        ensures
            r == vec3_add(*self, *rhs),
    {
        Vector3 {
            x: add_fx(self.x, rhs.x),
            y: add_fx(self.y, rhs.y),
            z: add_fx(self.z, rhs.z),
        }
    }

    /// The fixed-point difference of `self` and `rhs`.
    pub fn minus(&self, rhs: &Vector3) -> (r: Vector3)
        ensures
            r == vec3_sub(*self, *rhs),
    {
        Vector3 {
            x: sub_fx(self.x, rhs.x),
            y: sub_fx(self.y, rhs.y),
            z: sub_fx(self.z, rhs.z),
        }
    }

    /// `self` scaled by the fixed-point factor `k`.
    pub fn scaled(&self, k: i64) -> (r: Vector3)
        ensures
            r == vec3_scale(*self, k),
    {
        Vector3 { x: mul_fx(self.x, k), y: mul_fx(self.y, k), z: mul_fx(self.z, k) }
    }

    /// `self` scaled by one half.
    pub fn halved(&self) -> (r: Vector3)
        ensures
            r == vec3_scale(*self, FX_HALF),
    {
        self.scaled(FX_HALF)
    }

    /// The fixed-point negation of `self`.
    pub fn negated(&self) -> (r: Vector3)
        ensures
            r == vec3_neg(*self),
    {
        Vector3 { x: neg_fx(self.x), y: neg_fx(self.y), z: neg_fx(self.z) }
    }

    /// The fixed-point cross product of `self` and `b`.
    pub fn cross(&self, b: &Vector3) -> (r: Vector3)
        ensures
            r == vec3_cross(*self, *b),
    {
        Vector3 {
            x: sub_fx(mul_fx(self.y, b.z), mul_fx(self.z, b.y)),
            y: sub_fx(mul_fx(self.z, b.x), mul_fx(self.x, b.z)),
            z: sub_fx(mul_fx(self.x, b.y), mul_fx(self.y, b.x)),
        }
    }
}

/// A four-component vector of fixed-point scalars.
#[derive(Clone, Copy, Debug, PartialEq, Eq, Structural)]
pub struct Vector4 {
    pub x: i64,
    pub y: i64,
    pub z: i64,
    pub w: i64,
}

/// The component of `v` at position `i`, counting x, y, z, w.
pub open spec fn vec4_axis(v: Vector4, i: int) -> i64 {
    if i == 0 {
        v.x
    } else if i == 1 {
        v.y
    } else if i == 2 {
        v.z
    } else {
        v.w
    }
}

/// `v` with the component at position `i` replaced by `s`.
pub open spec fn vec4_with_axis(v: Vector4, i: int, s: i64) -> Vector4 {
    if i == 0 {
        Vector4 { x: s, ..v }
    } else if i == 1 {
        Vector4 { y: s, ..v }
    } else if i == 2 {
        Vector4 { z: s, ..v }
    } else {
        Vector4 { w: s, ..v }
    }
}

impl Vector4 {
    /// The zero vector.
    pub fn zero() -> (r: Vector4)
        ensures
            r == (Vector4 { x: 0, y: 0, z: 0, w: 0 }),
    {
        Vector4 { x: 0, y: 0, z: 0, w: 0 }
    }

    /// The vector `(x, y, z, w)`.
    pub fn from_xyzw(x: i64, y: i64, z: i64, w: i64) -> (r: Vector4)
        ensures
            r == (Vector4 { x, y, z, w }),
    {
        Vector4 { x, y, z, w }
    }

    /// The point `(x, y, z)` with a unit weight.
    pub fn from_xyz(x: i64, y: i64, z: i64) -> (r: Vector4)
        ensures
            r == (Vector4 { x, y, z, w: crate::fx::FX_ONE }),
    {
        Vector4 { x, y, z, w: crate::fx::FX_ONE }
    }

    /// The component at position `i`.
    pub fn get(&self, i: usize) -> (r: i64)
        requires
            i < 4,
        ensures
            r == vec4_axis(*self, i as int),
    {
        if i == 0 {
            self.x
        } else if i == 1 {
            self.y
        } else if i == 2 {
            self.z
        } else {
            self.w
        }
    }

    /// Replace the component at position `i` by `value`.
    pub fn set(&mut self, i: usize, value: i64)
        requires
            i < 4,
        ensures
            *final(self) == vec4_with_axis(*old(self), i as int, value),
    {
        if i == 0 {
            self.x = value;
        } else if i == 1 {
            self.y = value;
        } else if i == 2 {
            self.z = value;
        } else {
            self.w = value;
        }
    }
}

} // verus!
