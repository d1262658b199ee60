//! Four-by-four matrices of fixed-point scalars, row-major, with the
//! translation column at index 3.
//!
//! Every operation is total and described exactly by a spec function over the
//! fixed-point model, clamping included, so matrix identities can be proved
//! to the last unit where the arithmetic incurs no rounding.
use crate::fx::{add_fx, fxa, fxm, mul_fx, neg_fx, FX_ONE};
use crate::trig::{cos_fx, sin_fx, spec_cos, spec_sin};
use crate::vector::{Vector3, Vector4};
use vstd::prelude::*;

verus! {

/// A row-major four-by-four matrix; `eIJ` is row `I`, column `J`.
#[derive(Clone, Copy, Debug, PartialEq, Eq, Structural)]
pub struct Matrix {
    pub e00: i64,
    pub e01: i64,
    pub e02: i64,
    pub e03: i64,
    pub e10: i64,
    pub e11: i64,
    pub e12: i64,
    pub e13: i64,
    pub e20: i64,
    pub e21: i64,
    pub e22: i64,
    pub e23: i64,
    pub e30: i64,
    pub e31: i64,
    pub e32: i64,
    pub e33: i64,
}

/// The fixed-point dot product of a row and a column, summed left to right.
pub open spec fn dot4(a0: i64, a1: i64, a2: i64, a3: i64, b0: i64, b1: i64, b2: i64, b3: i64) -> i64 {
    fxa(fxa(fxa(fxm(a0, b0), fxm(a1, b1)), fxm(a2, b2)), fxm(a3, b3))
}

/// The matrix with every entry zero.
pub open spec fn mat_zero() -> Matrix {
    Matrix { e00: 0, e01: 0, e02: 0, e03: 0, e10: 0, e11: 0, e12: 0, e13: 0, e20: 0, e21: 0, e22: 0, e23: 0, e30: 0, e31: 0, e32: 0, e33: 0 }
}

/// The identity: one on the diagonal, zero elsewhere.
pub open spec fn mat_ident() -> Matrix {
    Matrix { e00: FX_ONE, e11: FX_ONE, e22: FX_ONE, e33: FX_ONE, ..mat_zero() }
}

/// The translation by `v`: the identity with `v` in the last column.
pub open spec fn mat_translate(v: Vector3) -> Matrix {
    Matrix { e03: v.x, e13: v.y, e23: v.z, ..mat_ident() }
}

/// The uniform scale by `factor` on the three spatial axes.
pub open spec fn mat_scale(factor: i64) -> Matrix {
    Matrix { e00: factor, e11: factor, e22: factor, ..mat_ident() }
}

/// The rotation about the x axis by the fixed-point angle `a`.
pub open spec fn mat_rot_x(a: int) -> Matrix {
    let c = spec_cos(a) as i64;
    let s = spec_sin(a) as i64;
    Matrix { e11: c, e12: s, e21: crate::fx::fxn(s), e22: c, ..mat_ident() }
}

/// The rotation about the y axis by the fixed-point angle `a`.
pub open spec fn mat_rot_y(a: int) -> Matrix {
    let c = spec_cos(a) as i64;
    let s = spec_sin(a) as i64;
    Matrix { e00: c, e02: s, e20: crate::fx::fxn(s), e22: c, ..mat_ident() }
}

/// The rotation about the z axis by the fixed-point angle `a`.
pub open spec fn mat_rot_z(a: int) -> Matrix {
    let c = spec_cos(a) as i64;
    let s = spec_sin(a) as i64;
    Matrix { e00: c, e01: s, e10: crate::fx::fxn(s), e11: c, ..mat_ident() }
}

/// The fixed-point matrix product of `a` and `b`.
pub open spec fn mat_mul(a: Matrix, b: Matrix) -> Matrix {
    Matrix {
        e00: dot4(a.e00, a.e01, a.e02, a.e03, b.e00, b.e10, b.e20, b.e30),
        e01: dot4(a.e00, a.e01, a.e02, a.e03, b.e01, b.e11, b.e21, b.e31),
        e02: dot4(a.e00, a.e01, a.e02, a.e03, b.e02, b.e12, b.e22, b.e32),
        e03: dot4(a.e00, a.e01, a.e02, a.e03, b.e03, b.e13, b.e23, b.e33),
        e10: dot4(a.e10, a.e11, a.e12, a.e13, b.e00, b.e10, b.e20, b.e30),
        e11: dot4(a.e10, a.e11, a.e12, a.e13, b.e01, b.e11, b.e21, b.e31),
        e12: dot4(a.e10, a.e11, a.e12, a.e13, b.e02, b.e12, b.e22, b.e32),
        e13: dot4(a.e10, a.e11, a.e12, a.e13, b.e03, b.e13, b.e23, b.e33),
        e20: dot4(a.e20, a.e21, a.e22, a.e23, b.e00, b.e10, b.e20, b.e30),
        e21: dot4(a.e20, a.e21, a.e22, a.e23, b.e01, b.e11, b.e21, b.e31),
        e22: dot4(a.e20, a.e21, a.e22, a.e23, b.e02, b.e12, b.e22, b.e32),
        e23: dot4(a.e20, a.e21, a.e22, a.e23, b.e03, b.e13, b.e23, b.e33),
        e30: dot4(a.e30, a.e31, a.e32, a.e33, b.e00, b.e10, b.e20, b.e30),
        e31: dot4(a.e30, a.e31, a.e32, a.e33, b.e01, b.e11, b.e21, b.e31),
        e32: dot4(a.e30, a.e31, a.e32, a.e33, b.e02, b.e12, b.e22, b.e32),
        e33: dot4(a.e30, a.e31, a.e32, a.e33, b.e03, b.e13, b.e23, b.e33),
    }
}

/// The transpose of `m`.
pub open spec fn mat_transpose(m: Matrix) -> Matrix {
    Matrix {
        e00: m.e00,
        e01: m.e10,
        e02: m.e20,
        e03: m.e30,
        e10: m.e01,
        e11: m.e11,
        e12: m.e21,
        e13: m.e31,
        e20: m.e02,
        e21: m.e12,
        e22: m.e22,
        e23: m.e32,
        e30: m.e03,
        e31: m.e13,
        e32: m.e23,
        e33: m.e33,
    }
}

/// The entry of `m` at row `i`, column `j`.
pub open spec fn mat_entry(m: Matrix, i: int, j: int) -> i64 {
    if i == 0 {
        if j == 0 {
        m.e00
    } else if j == 1 {
        m.e01
    } else if j == 2 {
        m.e02
    } else {
        m.e03
    }
    } else if i == 1 {
        if j == 0 {
        m.e10
    } else if j == 1 {
        m.e11
    } else if j == 2 {
        m.e12
    } else {
        m.e13
    }
    } else if i == 2 {
        if j == 0 {
        m.e20
    } else if j == 1 {
        m.e21
    } else if j == 2 {
        m.e22
    } else {
        m.e23
    }
    } else {
        if j == 0 {
        m.e30
    } else if j == 1 {
        m.e31
    } else if j == 2 {
        m.e32
    } else {
        m.e33
    }
    }
}

/// `m` with the entry at row `i`, column `j` replaced by `value`.
pub open spec fn mat_with_entry(m: Matrix, i: int, j: int, value: i64) -> Matrix {
    if i == 0 {
        if j == 0 {
        Matrix { e00: value, ..m }
    } else if j == 1 {
        Matrix { e01: value, ..m }
    } else if j == 2 {
        Matrix { e02: value, ..m }
    } else {
        Matrix { e03: value, ..m }
    }
    } else if i == 1 {
        if j == 0 {
        Matrix { e10: value, ..m }
    } else if j == 1 {
        Matrix { e11: value, ..m }
    } else if j == 2 {
        Matrix { e12: value, ..m }
    } else {
        Matrix { e13: value, ..m }
    }
    } else if i == 2 {
        if j == 0 {
        Matrix { e20: value, ..m }
    } else if j == 1 {
        Matrix { e21: value, ..m }
    } else if j == 2 {
        Matrix { e22: value, ..m }
    } else {
        Matrix { e23: value, ..m }
    }
    } else {
        if j == 0 {
        Matrix { e30: value, ..m }
    } else if j == 1 {
        Matrix { e31: value, ..m }
    } else if j == 2 {
        Matrix { e32: value, ..m }
    } else {
        Matrix { e33: value, ..m }
    }
    }
}

/// The image of the point `v`: a three-row product, then the translation
/// column added on, as a point with implicit unit weight.
pub open spec fn mat_apply_vec3(m: Matrix, v: Vector3) -> Vector3 {
    Vector3 {
        x: fxa(fxa(fxa(fxm(m.e00, v.x), fxm(m.e01, v.y)), fxm(m.e02, v.z)), m.e03),
        y: fxa(fxa(fxa(fxm(m.e10, v.x), fxm(m.e11, v.y)), fxm(m.e12, v.z)), m.e13),
        z: fxa(fxa(fxa(fxm(m.e20, v.x), fxm(m.e21, v.y)), fxm(m.e22, v.z)), m.e23),
    }
}

/// The image of the homogeneous vector `v`.
pub open spec fn mat_apply_vec4(m: Matrix, v: Vector4) -> Vector4 {
    Vector4 {
        x: dot4(m.e00, m.e01, m.e02, m.e03, v.x, v.y, v.z, v.w),
        y: dot4(m.e10, m.e11, m.e12, m.e13, v.x, v.y, v.z, v.w),
        z: dot4(m.e20, m.e21, m.e22, m.e23, v.x, v.y, v.z, v.w),
        w: dot4(m.e30, m.e31, m.e32, m.e33, v.x, v.y, v.z, v.w),
    }
}

/// Evaluate a row-column dot product.
fn dot4_exec(a0: i64, a1: i64, a2: i64, a3: i64, b0: i64, b1: i64, b2: i64, b3: i64) -> (r: i64)
    ensures
        r == dot4(a0, a1, a2, a3, b0, b1, b2, b3),
{
    add_fx(add_fx(add_fx(mul_fx(a0, b0), mul_fx(a1, b1)), mul_fx(a2, b2)), mul_fx(a3, b3))
}

impl Matrix {
    /// The matrix with every entry zero.
    pub fn zero() -> (r: Matrix)
        ensures
            r == mat_zero(),
    {
        Matrix { e00: 0, e01: 0, e02: 0, e03: 0, e10: 0, e11: 0, e12: 0, e13: 0, e20: 0, e21: 0, e22: 0, e23: 0, e30: 0, e31: 0, e32: 0, e33: 0 }
    }

    /// The identity matrix.
    pub fn ident() -> (r: Matrix)
        ensures
            r == mat_ident(),
    {
        Matrix { e00: FX_ONE, e11: FX_ONE, e22: FX_ONE, e33: FX_ONE, ..Matrix::zero() }
    }

    /// The translation by `vector`.
    pub fn translate(vector: Vector3) -> (r: Matrix)
        ensures
            r == mat_translate(vector),
    {
        Matrix { e03: vector.x, e13: vector.y, e23: vector.z, ..Matrix::ident() }
    }

    /// The uniform scale by `factor`.
    pub fn scale(factor: i64) -> (r: Matrix)
        ensures
            r == mat_scale(factor),
    {
        Matrix { e00: factor, e11: factor, e22: factor, ..Matrix::ident() }
    }

    /// The rotation about the x axis by the fixed-point angle `a`.
    pub fn rotation_x(a: i64) -> (r: Matrix)
        ensures
            r == mat_rot_x(a as int),
    {
        let c = cos_fx(a);
        let s = sin_fx(a);
        Matrix { e11: c, e12: s, e21: neg_fx(s), e22: c, ..Matrix::ident() }
    }

    /// The rotation about the y axis by the fixed-point angle `a`.
    pub fn rotation_y(a: i64) -> (r: Matrix)
        ensures
            r == mat_rot_y(a as int),
    {
        let c = cos_fx(a);
        let s = sin_fx(a);
        Matrix { e00: c, e02: s, e20: neg_fx(s), e22: c, ..Matrix::ident() }
    }

    /// The rotation about the z axis by the fixed-point angle `a`.
    pub fn rotation_z(a: i64) -> (r: Matrix)
        ensures
            r == mat_rot_z(a as int),
    {
        let c = cos_fx(a);
        let s = sin_fx(a);
        Matrix { e00: c, e01: s, e10: neg_fx(s), e11: c, ..Matrix::ident() }
    }

    /// The fixed-point product `self` times `rhs`.
    pub fn mul(&self, rhs: &Matrix) -> (r: Matrix)
        ensures
            r == mat_mul(*self, *rhs),
    {
        Matrix {
            e00: dot4_exec(self.e00, self.e01, self.e02, self.e03, rhs.e00, rhs.e10, rhs.e20, rhs.e30),
            e01: dot4_exec(self.e00, self.e01, self.e02, self.e03, rhs.e01, rhs.e11, rhs.e21, rhs.e31),
            e02: dot4_exec(self.e00, self.e01, self.e02, self.e03, rhs.e02, rhs.e12, rhs.e22, rhs.e32),
            e03: dot4_exec(self.e00, self.e01, self.e02, self.e03, rhs.e03, rhs.e13, rhs.e23, rhs.e33),
            e10: dot4_exec(self.e10, self.e11, self.e12, self.e13, rhs.e00, rhs.e10, rhs.e20, rhs.e30),
            e11: dot4_exec(self.e10, self.e11, self.e12, self.e13, rhs.e01, rhs.e11, rhs.e21, rhs.e31),
            e12: dot4_exec(self.e10, self.e11, self.e12, self.e13, rhs.e02, rhs.e12, rhs.e22, rhs.e32),
            e13: dot4_exec(self.e10, self.e11, self.e12, self.e13, rhs.e03, rhs.e13, rhs.e23, rhs.e33),
            e20: dot4_exec(self.e20, self.e21, self.e22, self.e23, rhs.e00, rhs.e10, rhs.e20, rhs.e30),
            e21: dot4_exec(self.e20, self.e21, self.e22, self.e23, rhs.e01, rhs.e11, rhs.e21, rhs.e31),
            e22: dot4_exec(self.e20, self.e21, self.e22, self.e23, rhs.e02, rhs.e12, rhs.e22, rhs.e32),
            e23: dot4_exec(self.e20, self.e21, self.e22, self.e23, rhs.e03, rhs.e13, rhs.e23, rhs.e33),
            e30: dot4_exec(self.e30, self.e31, self.e32, self.e33, rhs.e00, rhs.e10, rhs.e20, rhs.e30),
            e31: dot4_exec(self.e30, self.e31, self.e32, self.e33, rhs.e01, rhs.e11, rhs.e21, rhs.e31),
            e32: dot4_exec(self.e30, self.e31, self.e32, self.e33, rhs.e02, rhs.e12, rhs.e22, rhs.e32),
            e33: dot4_exec(self.e30, self.e31, self.e32, self.e33, rhs.e03, rhs.e13, rhs.e23, rhs.e33),
        }
    }

    /// The transpose of `self`.
    pub fn transpose(&self) -> (r: Matrix)
        ensures
            r == mat_transpose(*self),
    {
        Matrix {
            e00: self.e00,
            e01: self.e10,
            e02: self.e20,
            e03: self.e30,
            e10: self.e01,
            e11: self.e11,
            e12: self.e21,
            e13: self.e31,
            e20: self.e02,
            e21: self.e12,
            e22: self.e22,
            e23: self.e32,
            e30: self.e03,
            e31: self.e13,
            e32: self.e23,
            e33: self.e33,
        }
    }

    /// The entry at row `i`, column `j`.
    pub fn get(&self, i: usize, j: usize) -> (r: i64)
        requires
            i < 4,
            j < 4,
        ensures
            r == mat_entry(*self, i as int, j as int),
    {
        if i == 0 {
            if j == 0 {
            self.e00
        } else if j == 1 {
            self.e01
        } else if j == 2 {
            self.e02
        } else {
            self.e03
        }
        } else if i == 1 {
            if j == 0 {
            self.e10
        } else if j == 1 {
            self.e11
        } else if j == 2 {
            self.e12
        } else {
            self.e13
        }
        } else if i == 2 {
            if j == 0 {
            self.e20
        } else if j == 1 {
            self.e21
        } else if j == 2 {
            self.e22
        } else {
            self.e23
        }
        } else {
            if j == 0 {
            self.e30
        } else if j == 1 {
            self.e31
        } else if j == 2 {
            self.e32
        } else {
            self.e33
        }
        }
    }

    /// Replace the entry at row `i`, column `j` by `value`.
    pub fn set(&mut self, i: usize, j: usize, value: i64)
        requires
            i < 4,
            j < 4,
        ensures
            *final(self) == mat_with_entry(*old(self), i as int, j as int, value),
    {
        if i == 0 {
            if j == 0 {
            self.e00 = value;
        } else if j == 1 {
            self.e01 = value;
        } else if j == 2 {
            self.e02 = value;
        } else {
            self.e03 = value;
        }
        } else if i == 1 {
            if j == 0 {
            self.e10 = value;
        } else if j == 1 {
            self.e11 = value;
        } else if j == 2 {
            self.e12 = value;
        } else {
            self.e13 = value;
        }
        } else if i == 2 {
            if j == 0 {
            self.e20 = value;
        } else if j == 1 {
            self.e21 = value;
        } else if j == 2 {
            self.e22 = value;
        } else {
            self.e23 = value;
        }
        } else {
            if j == 0 {
            self.e30 = value;
        } else if j == 1 {
            self.e31 = value;
        } else if j == 2 {
            self.e32 = value;
        } else {
            self.e33 = value;
        }
        }
    }

    /// Apply `self` to a point with implicit unit weight.
    pub fn mul_vec3(&self, v: &Vector3) -> (r: Vector3)
        ensures
            r == mat_apply_vec3(*self, *v),
    {
        Vector3 {
            x: add_fx(
                add_fx(add_fx(mul_fx(self.e00, v.x), mul_fx(self.e01, v.y)), mul_fx(self.e02, v.z)),
                self.e03,
            ),
            y: add_fx(
                add_fx(add_fx(mul_fx(self.e10, v.x), mul_fx(self.e11, v.y)), mul_fx(self.e12, v.z)),
                self.e13,
            ),
            z: add_fx(
                add_fx(add_fx(mul_fx(self.e20, v.x), mul_fx(self.e21, v.y)), mul_fx(self.e22, v.z)),
                self.e23,
            ),
        }
    }

    /// Apply `self` to a homogeneous vector.
    pub fn mul_vec4(&self, v: &Vector4) -> (r: Vector4)
        ensures
            r == mat_apply_vec4(*self, *v),
    {
        Vector4 {
            x: dot4_exec(self.e00, self.e01, self.e02, self.e03, v.x, v.y, v.z, v.w),
            y: dot4_exec(self.e10, self.e11, self.e12, self.e13, v.x, v.y, v.z, v.w),
            z: dot4_exec(self.e20, self.e21, self.e22, self.e23, v.x, v.y, v.z, v.w),
            w: dot4_exec(self.e30, self.e31, self.e32, self.e33, v.x, v.y, v.z, v.w),
        }
    }
}

/// Multiplying by the identity, on either side, changes nothing: the
/// fixed-point products against one and zero are exact for every entry.
pub proof fn lemma_mat_mul_ident(m: Matrix)
    ensures
        mat_mul(mat_ident(), m) == m,
        mat_mul(m, mat_ident()) == m,
{
    crate::fx::lemma_fx_unit();
}

} // verus!
