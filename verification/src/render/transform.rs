//! Position, rotation and scale of one renderable object.
//!
//! A number here is an IEEE-754 single-precision value held by its bit pattern.
//! This module places such numbers in vectors and matrices; it never computes
//! with them, so every result is exact.

use vstd::prelude::*;

verus! {

/// The bit pattern of the number zero.
pub const ZERO: u32 = 0;

/// The bit pattern of the number one.
pub const ONE: u32 = 0x3F80_0000;

/// The bit pattern of the number minus one.
pub const MINUS_ONE: u32 = 0xBF80_0000;

/// Three numbers.
#[derive(Clone, Copy, Debug, PartialEq, Eq, Structural)]
pub struct Vector3 {
    pub x: u32,
    pub y: u32,
    pub z: u32,
}

/// Four numbers: one column of a matrix.
#[derive(Clone, Copy, Debug, PartialEq, Eq, Structural)]
pub struct Vector4 {
    pub x: u32,
    pub y: u32,
    pub z: u32,
    pub w: u32,
}

/// A 4×4 matrix, held column by column.
#[derive(Clone, Copy, Debug, PartialEq, Eq, Structural)]
pub struct Matrix4 {
    pub x: Vector4,
    pub y: Vector4,
    pub z: Vector4,
    pub w: Vector4,
}

impl Vector3 {
    /// The component at `row`: 0 for `x`, 1 for `y`, anything else for `z`.
    pub open spec fn at(self, row: int) -> u32 {
        if row == 0 {
            self.x
        } else if row == 1 {
            self.y
        } else {
            self.z
        }
    }
}

impl Vector4 {
    /// The component at `row`: 0 for `x`, 1 for `y`, 2 for `z`, anything else for `w`.
    pub open spec fn at(self, row: int) -> u32 {
        if row == 0 {
            self.x
        } else if row == 1 {
            self.y
        } else if row == 2 {
            self.z
        } else {
            self.w
        }
    }
}

impl Matrix4 {
    /// The column at `col`: 0 for `x`, 1 for `y`, 2 for `z`, anything else for `w`.
    pub open spec fn column(self, col: int) -> Vector4 {
        if col == 0 {
            self.x
        } else if col == 1 {
            self.y
        } else if col == 2 {
            self.z
        } else {
            self.w
        }
    }

    /// The entry in column `col` and row `row`.
    pub open spec fn at(self, col: int, row: int) -> u32 {
        self.column(col).at(row)
    }

    /// The matrix with `value` on the first three places of the diagonal, one on
    /// the fourth, and zero elsewhere.
    pub open spec fn scaling(value: u32) -> Matrix4 {
        Matrix4 {
            x: Vector4 { x: value, y: ZERO, z: ZERO, w: ZERO },
            y: Vector4 { x: ZERO, y: value, z: ZERO, w: ZERO },
            z: Vector4 { x: ZERO, y: ZERO, z: value, w: ZERO },
            w: Vector4 { x: ZERO, y: ZERO, z: ZERO, w: ONE },
        }
    }

    /// The identity matrix: one on the diagonal, zero elsewhere.
    pub open spec fn unit() -> Matrix4 {
        Matrix4::scaling(ONE)
    }

    /// The matrix that moves a point by `offset`: the identity, with `offset` in
    /// the first three rows of the last column.
    pub open spec fn translation(offset: Vector3) -> Matrix4 {
        Matrix4 {
            x: Vector4 { x: ONE, y: ZERO, z: ZERO, w: ZERO },
            y: Vector4 { x: ZERO, y: ONE, z: ZERO, w: ZERO },
            z: Vector4 { x: ZERO, y: ZERO, z: ONE, w: ZERO },
            w: Vector4 { x: offset.x, y: offset.y, z: offset.z, w: ONE },
        }
    }

    /// The identity matrix.
    pub fn identity() -> (m: Matrix4)
        ensures
            m == Matrix4::unit(),
    {
        Matrix4::from_scale(ONE)
    }

    /// The matrix that scales all three axes by `value`.
    pub fn from_scale(value: u32) -> (m: Matrix4)
        ensures
            m == Matrix4::scaling(value),
    {
        let zero = Vector4 { x: ZERO, y: ZERO, z: ZERO, w: ZERO };
        let mut m = Matrix4 { x: zero, y: zero, z: zero, w: zero };
        m.x.x = value;
        m.y.y = value;
        m.z.z = value;
        m.w.w = ONE;
        m
    }

    /// The matrix that moves a point by `offset`.
    pub fn from_translation(offset: Vector3) -> (m: Matrix4)
        ensures
            m == Matrix4::translation(offset),
    {
        let mut m = Matrix4::from_scale(ONE);
        m.w.x = offset.x;
        m.w.y = offset.y;
        m.w.z = offset.z;
        m
    }
}

/// Where an object stands, how it is turned and how large it is.
#[derive(Clone, Copy, Debug, PartialEq, Eq, Structural)]
pub struct Transform {
    /// The offset from the origin.
    pub position: Vector3,
    /// The accumulated rotation.
    pub rotation: Matrix4,
    /// The current scale.
    pub scale: Matrix4,
}

impl Transform {
    /// The transform of an object at the origin, unturned and at its own size.
    pub open spec fn initial() -> Transform {
        Transform {
            position: Vector3 { x: ZERO, y: ZERO, z: ZERO },
            rotation: Matrix4::unit(),
            scale: Matrix4::unit(),
        }
    }

    /// This transform with its scale replaced by that of `value`.
    pub open spec fn scaled(self, value: u32) -> Transform {
        Transform { scale: Matrix4::scaling(value), ..self }
    }

    /// A transform at the origin, with identity rotation and scale.
    pub fn new() -> (t: Transform)
        ensures
            t == Transform::initial(),
    {
        Transform {
            position: Vector3 { x: ZERO, y: ZERO, z: ZERO },
            rotation: Matrix4::identity(),
            scale: Matrix4::identity(),
        }
    }

    /// Sets the scale to `value` on all three axes. An earlier scale is replaced,
    /// not added to; position and rotation stay.
    pub fn scale(&mut self, value: u32)
        ensures
            *final(self) == old(self).scaled(value),
    {
        self.scale = Matrix4::from_scale(value);
    }

    /// The translation matrix of the current position, made anew at each call.
    pub fn translation_matrix(&self) -> (m: Matrix4)
        ensures
            m == Matrix4::translation(self.position),
    {
        Matrix4::from_translation(self.position)
    }
}

/// Scaling replaces: of two scalings in a row only the second shows, whatever
/// the transform was before.
pub proof fn lemma_scale_replaces(t: Transform, first: u32, second: u32)
    ensures
        t.scaled(first).scaled(second) == t.scaled(second),
        t.scaled(first).scaled(second).scale == Matrix4::scaling(second),
        t.scaled(first).scaled(second).position == t.position,
        t.scaled(first).scaled(second).rotation == t.rotation,
{
}

/// The translation matrix of a position holds that position in its last column
/// and the identity elsewhere.
pub proof fn lemma_translation_entries(p: Vector3)
    ensures
        forall|col: int, row: int|
            0 <= col < 4 && 0 <= row < 4 ==> #[trigger] Matrix4::translation(p).at(col, row) == (if col
                == 3 && row < 3 {
                p.at(row)
            } else if col == row {
                ONE
            } else {
                ZERO
            }),
{
}

} // verus!
