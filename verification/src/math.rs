//! Vectors and quaternions as they are sent to the device.
//!
//! A component is a single-precision value held as its bit pattern, which is
//! what a uniform or a vertex buffer stores. The library moves components
//! around and flips their signs, both of which are exact on bit patterns;
//! arithmetic on components is left to the caller.

use vstd::prelude::*;

verus! {

/// The bit that holds the sign of a single-precision value.
pub const SIGN_BIT: u32 = 0x8000_0000;

/// The bit pattern of the single-precision value 1.
pub const ONE: u32 = 0x3f80_0000;

/// The component with the sign of `bits` flipped.
pub open spec fn negated(bits: u32) -> u32 {
    bits ^ SIGN_BIT
}

/// Flips the sign of a component.
pub fn negate(bits: u32) -> (result: u32)
    ensures
        result == negated(bits),
{
    bits ^ SIGN_BIT
}

/// Flipping the sign twice gives the component back.
pub proof fn lemma_negated_twice(bits: u32)
    ensures
        negated(negated(bits)) == bits,
{
    assert((bits ^ 0x8000_0000u32) ^ 0x8000_0000u32 == bits) by (bit_vector);
}

#[derive(Clone, Copy, Debug, PartialEq, Eq, Structural)]
pub struct Vec2 {
    pub x: u32,
    pub y: u32,
}

#[derive(Clone, Copy, Debug, PartialEq, Eq, Structural)]
pub struct Vec3 {
    pub x: u32,
    pub y: u32,
    pub z: u32,
}

#[derive(Clone, Copy, Debug, PartialEq, Eq, Structural)]
pub struct Vec4 {
    pub x: u32,
    pub y: u32,
    pub z: u32,
    pub w: u32,
}

impl Vec2 {
    pub fn new(x: u32, y: u32) -> (v: Vec2)
        ensures
            v == (Vec2 { x, y }),
    {
        Vec2 { x, y }
    }

    pub open spec fn negated(self) -> Vec2 {
        Vec2 { x: negated(self.x), y: negated(self.y) }
    }

    /// The vector that points the other way.
    pub fn neg(self) -> (v: Vec2)
        ensures
            v == self.negated(),
    {
        Vec2 { x: negate(self.x), y: negate(self.y) }
    }

    pub fn to_array(self) -> (arr: [u32; 2])
        ensures
            arr@ == seq![self.x, self.y],
    {
        let arr = [self.x, self.y];
        arr
    }

    pub fn from_array(arr: [u32; 2]) -> (v: Vec2)
        ensures
            v == (Vec2 { x: arr[0], y: arr[1] }),
    {
        Vec2 { x: arr[0], y: arr[1] }
    }
}

impl Vec3 {
    pub fn new(x: u32, y: u32, z: u32) -> (v: Vec3)
        ensures
            v == (Vec3 { x, y, z }),
    {
        Vec3 { x, y, z }
    }

    pub open spec fn negated(self) -> Vec3 {
        Vec3 { x: negated(self.x), y: negated(self.y), z: negated(self.z) }
    }

    /// The vector that points the other way.
    pub fn neg(self) -> (v: Vec3)
        ensures
            v == self.negated(),
    {
        Vec3 { x: negate(self.x), y: negate(self.y), z: negate(self.z) }
    }

    pub fn to_array(self) -> (arr: [u32; 3])
        ensures
            arr@ == seq![self.x, self.y, self.z],
    {
        let arr = [self.x, self.y, self.z];
        arr
    }

    pub fn from_array(arr: [u32; 3]) -> (v: Vec3)
        ensures
            v == (Vec3 { x: arr[0], y: arr[1], z: arr[2] }),
    {
        Vec3 { x: arr[0], y: arr[1], z: arr[2] }
    }

    pub fn from_xy(xy: Vec2, z: u32) -> (v: Vec3)
        ensures
            v == (Vec3 { x: xy.x, y: xy.y, z }),
    {
        Vec3 { x: xy.x, y: xy.y, z }
    }

    pub fn from_yz(x: u32, yz: Vec2) -> (v: Vec3)
        ensures
            v == (Vec3 { x, y: yz.x, z: yz.y }),
    {
        Vec3 { x, y: yz.x, z: yz.y }
    }
}

impl Vec4 {
    pub fn new(x: u32, y: u32, z: u32, w: u32) -> (v: Vec4)
        ensures
            v == (Vec4 { x, y, z, w }),
    {
        Vec4 { x, y, z, w }
    }

    pub open spec fn negated(self) -> Vec4 {
        Vec4 { x: negated(self.x), y: negated(self.y), z: negated(self.z), w: negated(self.w) }
    }

    /// The vector that points the other way.
    pub fn neg(self) -> (v: Vec4)
        ensures
            v == self.negated(),
    {
        Vec4 { x: negate(self.x), y: negate(self.y), z: negate(self.z), w: negate(self.w) }
    }

    /// The first three components.
    pub fn xyz(self) -> (v: Vec3)
        ensures
            v == (Vec3 { x: self.x, y: self.y, z: self.z }),
    {
        Vec3 { x: self.x, y: self.y, z: self.z }
    }

    pub fn to_array(self) -> (arr: [u32; 4])
        ensures
            arr@ == seq![self.x, self.y, self.z, self.w],
    {
        let arr = [self.x, self.y, self.z, self.w];
        arr
    }

    pub fn from_array(arr: [u32; 4]) -> (v: Vec4)
        ensures
            v == (Vec4 { x: arr[0], y: arr[1], z: arr[2], w: arr[3] }),
    {
        Vec4 { x: arr[0], y: arr[1], z: arr[2], w: arr[3] }
    }

    pub fn from_xyz(xyz: Vec3, w: u32) -> (v: Vec4)
        ensures
            v == (Vec4 { x: xyz.x, y: xyz.y, z: xyz.z, w }),
    {
        Vec4 { x: xyz.x, y: xyz.y, z: xyz.z, w }
    }

    pub fn from_yzw(x: u32, yzw: Vec3) -> (v: Vec4)
        ensures
            v == (Vec4 { x, y: yzw.x, z: yzw.y, w: yzw.z }),
    {
        Vec4 { x, y: yzw.x, z: yzw.y, w: yzw.z }
    }

    pub fn from_xy_zw(xy: Vec2, zw: Vec2) -> (v: Vec4)
        ensures
            v == (Vec4 { x: xy.x, y: xy.y, z: zw.x, w: zw.y }),
    {
        Vec4 { x: xy.x, y: xy.y, z: zw.x, w: zw.y }
    }

    pub fn from_xy(xy: Vec2, z: u32, w: u32) -> (v: Vec4)
        ensures
            v == (Vec4 { x: xy.x, y: xy.y, z, w }),
    {
        Vec4 { x: xy.x, y: xy.y, z, w }
    }

    pub fn from_yz(x: u32, yz: Vec2, w: u32) -> (v: Vec4)
        ensures
            v == (Vec4 { x, y: yz.x, z: yz.y, w }),
    {
        Vec4 { x, y: yz.x, z: yz.y, w }
    }

    pub fn from_zw(x: u32, y: u32, zw: Vec2) -> (v: Vec4)
        ensures
            v == (Vec4 { x, y, z: zw.x, w: zw.y }),
    {
        Vec4 { x, y, z: zw.x, w: zw.y }
    }
}

/// A quaternion: the imaginary part in `x`, `y` and `z`, the real part in `w`.
#[derive(Clone, Copy, Debug, PartialEq, Eq, Structural)]
pub struct Quat(pub Vec4);

impl Quat {
    pub fn new(x: u32, y: u32, z: u32, w: u32) -> (q: Quat)
        ensures
            q == Quat(Vec4 { x, y, z, w }),
    {
        Quat(Vec4 { x, y, z, w })
    }

    /// The rotation that turns nothing: imaginary part zero, real part one.
    pub fn identity() -> (q: Quat)
        ensures
            q == Quat(Vec4 { x: 0, y: 0, z: 0, w: ONE }),
    {
        Quat(Vec4 { x: 0, y: 0, z: 0, w: ONE })
    }

    pub fn from_vec4(xyzw: Vec4) -> (q: Quat)
        ensures
            q == Quat(xyzw),
    {
        Quat(xyzw)
    }

    pub fn from_parts(imaginary: Vec3, scalar: u32) -> (q: Quat)
        ensures
            q == Quat(Vec4 { x: imaginary.x, y: imaginary.y, z: imaginary.z, w: scalar }),
    {
        Quat(Vec4::from_xyz(imaginary, scalar))
    }

    /// The quaternion with the imaginary part pointing the other way and the
    /// same real part.
    pub open spec fn conjugated(self) -> Quat {
        Quat(Vec4 { x: negated(self.0.x), y: negated(self.0.y), z: negated(self.0.z), w: self.0.w })
    }

    pub fn conjugate(&self) -> (q: Quat)
        ensures
            q == self.conjugated(),
    {
        Quat(Vec4::from_xyz(self.0.xyz().neg(), self.0.w))
    }

    /// The conjugate of the conjugate is the quaternion itself.
    pub proof fn lemma_conjugated_twice(self)
        ensures
            self.conjugated().conjugated() == self,
    {
        lemma_negated_twice(self.0.x);
        lemma_negated_twice(self.0.y);
        lemma_negated_twice(self.0.z);
    }
}

} // verus!
