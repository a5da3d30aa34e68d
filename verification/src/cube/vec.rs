//! Vectors and quaternions of traced numbers.
use crate::cube::Mat3;
use crate::expr::{share, whole, Scalar, Test};
use std::rc::Rc;
use vstd::prelude::*;

verus! {

/// The lane that pads a vector to four: zero at first, and carried along by every
/// operation on the vector.
pub enum Pad {
    Zero,
    Sum(Rc<Pad>, Rc<Pad>),
    Difference(Rc<Pad>, Rc<Pad>),
    Scaled(Rc<Pad>, Scalar),
}

impl Pad {
    pub open spec fn spec_scalar(&self) -> Scalar
        decreases self,
    {
        match self {
            Pad::Zero => whole(0),
            Pad::Sum(a, b) => a.spec_scalar() + b.spec_scalar(),
            Pad::Difference(a, b) => a.spec_scalar() - b.spec_scalar(),
            Pad::Scaled(a, s) => a.spec_scalar() * *s,
        }
    }

    pub open spec fn spec_times(&self, other: &Pad) -> Scalar {
        self.scalar() * other.scalar()
    }

    /// The number in the lane.
    #[verifier::when_used_as_spec(spec_scalar)]
    pub fn scalar(&self) -> (r: Scalar)
        ensures
            r == self.scalar(),
        decreases self,
    {
        match self {
            Pad::Zero => Scalar::num(0),
            Pad::Sum(a, b) => a.scalar() + b.scalar(),
            Pad::Difference(a, b) => a.scalar() - b.scalar(),
            Pad::Scaled(a, s) => a.scalar() * s,
        }
    }

    /// The product of two lanes.
    #[verifier::when_used_as_spec(spec_times)]
    pub fn times(&self, other: &Pad) -> (r: Scalar)
        ensures
            r == self.times(other),
    {
        self.scalar() * other.scalar()
    }
}

impl Clone for Pad {
    fn clone(&self) -> (r: Self)
        ensures
            r == *self,
    {
        match self {
            Pad::Zero => Pad::Zero,
            Pad::Sum(a, b) => Pad::Sum(share(a), share(b)),
            Pad::Difference(a, b) => Pad::Difference(share(a), share(b)),
            Pad::Scaled(a, s) => Pad::Scaled(share(a), s.clone()),
        }
    }
}

/// A vector of three components, padded to four lanes.
pub struct Vec3A {
    pub x: Scalar,
    pub y: Scalar,
    pub z: Scalar,
    pub pad: Pad,
}

impl Vec3A {
    pub open spec fn spec_add(&self, other: &Vec3A) -> Vec3A {
        Vec3A {
            x: self.x + other.x,
            y: self.y + other.y,
            z: self.z + other.z,
            pad: Pad::Sum(Rc::new(self.pad), Rc::new(other.pad)),
        }
    }

    pub open spec fn spec_sub(&self, other: &Vec3A) -> Vec3A {
        Vec3A {
            x: self.x - other.x,
            y: self.y - other.y,
            z: self.z - other.z,
            pad: Pad::Difference(Rc::new(self.pad), Rc::new(other.pad)),
        }
    }

    pub open spec fn spec_scale(&self, s: &Scalar) -> Vec3A {
        Vec3A {
            x: self.x * *s,
            y: self.y * *s,
            z: self.z * *s,
            pad: Pad::Scaled(Rc::new(self.pad), *s),
        }
    }

    pub open spec fn spec_dot(&self, other: &Vec3A) -> Scalar {
        self.x * other.x + self.y * other.y + self.z * other.z + self.pad.times(&other.pad)
    }

    pub open spec fn spec_length(&self) -> Scalar {
        self.dot(self).sqrt()
    }

    pub open spec fn spec_normalize(&self) -> Vec3A {
        self.scale(&(whole(1) / self.length()))
    }

    pub open spec fn spec_is_finite(&self) -> Test {
        self.x.finite().and(&self.y.finite()).and(&self.z.finite())
    }

    /// The vector with the given components.
    pub fn new(x: Scalar, y: Scalar, z: Scalar) -> (r: Vec3A)
        ensures
            r == (Vec3A { x, y, z, pad: Pad::Zero }),
    {
        Vec3A { x, y, z, pad: Pad::Zero }
    }

    /// The first component.
    pub fn x(&self) -> (r: Scalar)
        ensures
            r == self.x,
    {
        self.x.clone()
    }

    /// The second component.
    pub fn y(&self) -> (r: Scalar)
        ensures
            r == self.y,
    {
        self.y.clone()
    }

    /// The third component.
    pub fn z(&self) -> (r: Scalar)
        ensures
            r == self.z,
    {
        self.z.clone()
    }

    /// The componentwise sum.
    #[verifier::when_used_as_spec(spec_add)]
    pub fn add(&self, other: &Vec3A) -> (r: Vec3A)
        ensures
            r == self.add(other),
    {
        Vec3A {
            x: &self.x + &other.x,
            y: &self.y + &other.y,
            z: &self.z + &other.z,
            pad: Pad::Sum(Rc::new(self.pad.clone()), Rc::new(other.pad.clone())),
        }
    }

    /// The componentwise difference.
    #[verifier::when_used_as_spec(spec_sub)]
    pub fn sub(&self, other: &Vec3A) -> (r: Vec3A)
        ensures
            r == self.sub(other),
    {
        Vec3A {
            x: &self.x - &other.x,
            y: &self.y - &other.y,
            z: &self.z - &other.z,
            pad: Pad::Difference(Rc::new(self.pad.clone()), Rc::new(other.pad.clone())),
        }
    }

    /// Every component times `s`.
    #[verifier::when_used_as_spec(spec_scale)]
    pub fn scale(&self, s: &Scalar) -> (r: Vec3A)
        ensures
            r == self.scale(s),
    {
        Vec3A {
            x: &self.x * s,
            y: &self.y * s,
            z: &self.z * s,
            pad: Pad::Scaled(Rc::new(self.pad.clone()), s.clone()),
        }
    }

    /// The inner product. The lanes that pad the vectors are zero, but they are
    /// multiplied and added like the others.
    #[verifier::when_used_as_spec(spec_dot)]
    pub fn dot(&self, other: &Vec3A) -> (r: Scalar)
        ensures
            r == self.dot(other),
    {
        &self.x * &other.x + &self.y * &other.y + &self.z * &other.z + self.pad.times(&other.pad)
    }

    /// The Euclidean length.
    #[verifier::when_used_as_spec(spec_length)]
    pub fn length(&self) -> (r: Scalar)
        ensures
            r == self.length(),
    {
        self.dot(self).sqrt()
    }

    /// The vector over its length, which must not be zero for the result to mean anything.
    #[verifier::when_used_as_spec(spec_normalize)]
    pub fn normalize(&self) -> (r: Vec3A)
        ensures
            r == self.normalize(),
    {
        self.scale(&(Scalar::num(1) / self.length()))
    }

    /// Every component is finite.
    #[verifier::when_used_as_spec(spec_is_finite)]
    pub fn is_finite(&self) -> (r: Test)
        ensures
            r == self.is_finite(),
    {
        self.x.finite().and(&self.y.finite()).and(&self.z.finite())
    }
}

impl Clone for Vec3A {
    fn clone(&self) -> (r: Self)
        ensures
            r == *self,
    {
        Vec3A { x: self.x.clone(), y: self.y.clone(), z: self.z.clone(), pad: self.pad.clone() }
    }
}

/// A vector of two components.
pub struct Vec2 {
    pub x: Scalar,
    pub y: Scalar,
}

impl Vec2 {
    pub open spec fn spec_add(&self, other: &Vec2) -> Vec2 {
        Vec2 { x: self.x + other.x, y: self.y + other.y }
    }

    pub open spec fn spec_scale(&self, s: &Scalar) -> Vec2 {
        Vec2 { x: self.x * *s, y: self.y * *s }
    }

    pub open spec fn spec_dot(&self, other: &Vec2) -> Scalar {
        self.x * other.x + self.y * other.y
    }

    /// The vector with the given components.
    pub fn new(x: Scalar, y: Scalar) -> (r: Vec2)
        ensures
            r == (Vec2 { x, y }),
    {
        Vec2 { x, y }
    }

    /// The first component.
    pub fn x(&self) -> (r: Scalar)
        ensures
            r == self.x,
    {
        self.x.clone()
    }

    /// The second component.
    pub fn y(&self) -> (r: Scalar)
        ensures
            r == self.y,
    {
        self.y.clone()
    }

    /// The componentwise sum.
    #[verifier::when_used_as_spec(spec_add)]
    pub fn add(&self, other: &Vec2) -> (r: Vec2)
        ensures
            r == self.add(other),
    {
        Vec2 { x: &self.x + &other.x, y: &self.y + &other.y }
    }

    /// Both components times `s`.
    #[verifier::when_used_as_spec(spec_scale)]
    pub fn scale(&self, s: &Scalar) -> (r: Vec2)
        ensures
            r == self.scale(s),
    {
        Vec2 { x: &self.x * s, y: &self.y * s }
    }

    /// The inner product.
    #[verifier::when_used_as_spec(spec_dot)]
    pub fn dot(&self, other: &Vec2) -> (r: Scalar)
        ensures
            r == self.dot(other),
    {
        &self.x * &other.x + &self.y * &other.y
    }
}

impl Clone for Vec2 {
    fn clone(&self) -> (r: Self)
        ensures
            r == *self,
    {
        Vec2 { x: self.x.clone(), y: self.y.clone() }
    }
}

/// A quaternion with the real part `w`; a rotation where its norm is one.
pub struct Quat {
    pub w: Scalar,
    pub x: Scalar,
    pub y: Scalar,
    pub z: Scalar,
}

impl Quat {
    pub open spec fn spec_dot(&self, other: &Quat) -> Scalar {
        self.w * other.w + self.x * other.x + self.y * other.y + self.z * other.z
    }

    pub open spec fn spec_scale(&self, s: &Scalar) -> Quat {
        Quat { w: self.w * *s, x: self.x * *s, y: self.y * *s, z: self.z * *s }
    }

    pub open spec fn spec_normalize(&self) -> Quat {
        self.scale(&(whole(1) / self.dot(self).sqrt()))
    }

    pub open spec fn spec_to_mat3(&self) -> Mat3 {
        let x2 = self.x * self.x;
        let y2 = self.y * self.y;
        let z2 = self.z * self.z;
        let xy = self.x * self.y;
        let xz = self.x * self.z;
        let yz = self.y * self.z;
        let wx = self.w * self.x;
        let wy = self.w * self.y;
        let wz = self.w * self.z;
        Mat3 {
            c0_x: whole(1) - whole(2) * (y2 + z2),
            c0_y: whole(2) * (xy + wz),
            c0_z: whole(2) * (xz - wy),
            c1_x: whole(2) * (xy - wz),
            c1_y: whole(1) - whole(2) * (x2 + z2),
            c1_z: whole(2) * (yz + wx),
            c2_x: whole(2) * (xz + wy),
            c2_y: whole(2) * (yz - wx),
            c2_z: whole(1) - whole(2) * (x2 + y2),
        }
    }

    /// The quaternion with the given parts.
    pub fn new(w: Scalar, x: Scalar, y: Scalar, z: Scalar) -> (r: Quat)
        ensures
            r == (Quat { w, x, y, z }),
    {
        Quat { w, x, y, z }
    }

    /// The real part.
    pub fn w(&self) -> (r: Scalar)
        ensures
            r == self.w,
    {
        self.w.clone()
    }

    /// The first imaginary part.
    pub fn x(&self) -> (r: Scalar)
        ensures
            r == self.x,
    {
        self.x.clone()
    }

    /// The second imaginary part.
    pub fn y(&self) -> (r: Scalar)
        ensures
            r == self.y,
    {
        self.y.clone()
    }

    /// The third imaginary part.
    pub fn z(&self) -> (r: Scalar)
        ensures
            r == self.z,
    {
        self.z.clone()
    }

    /// The inner product.
    #[verifier::when_used_as_spec(spec_dot)]
    pub fn dot(&self, other: &Quat) -> (r: Scalar)
        ensures
            r == self.dot(other),
    {
        &self.w * &other.w + &self.x * &other.x + &self.y * &other.y + &self.z * &other.z
    }

    /// Every part times `s`.
    #[verifier::when_used_as_spec(spec_scale)]
    pub fn scale(&self, s: &Scalar) -> (r: Quat)
        ensures
            r == self.scale(s),
    {
        Quat { w: &self.w * s, x: &self.x * s, y: &self.y * s, z: &self.z * s }
    }

    /// The quaternion over its norm, which must not be zero for the result to mean anything.
    #[verifier::when_used_as_spec(spec_normalize)]
    pub fn normalize(&self) -> (r: Quat)
        ensures
            r == self.normalize(),
    {
        self.scale(&(Scalar::num(1) / self.dot(self).sqrt()))
    }

    /// The matrix of the rotation that this quaternion, taken to have norm one, stands for.
    #[verifier::when_used_as_spec(spec_to_mat3)]
    pub fn to_mat3(&self) -> (r: Mat3)
        ensures
            r == self.to_mat3(),
    {
        let one = Scalar::num(1);
        let two = Scalar::num(2);
        let x2 = &self.x * &self.x;
        let y2 = &self.y * &self.y;
        let z2 = &self.z * &self.z;
        let xy = &self.x * &self.y;
        let xz = &self.x * &self.z;
        let yz = &self.y * &self.z;
        let wx = &self.w * &self.x;
        let wy = &self.w * &self.y;
        let wz = &self.w * &self.z;
        Mat3 {
            c0_x: &one - &two * (&y2 + &z2),
            c0_y: &two * (&xy + &wz),
            c0_z: &two * (&xz - &wy),
            c1_x: &two * (&xy - &wz),
            c1_y: &one - &two * (&x2 + &z2),
            c1_z: &two * (&yz + &wx),
            c2_x: &two * (&xz + &wy),
            c2_y: &two * (&yz - &wx),
            c2_z: &one - &two * (&x2 + &y2),
        }
    }
}

impl Clone for Quat {
    fn clone(&self) -> (r: Self)
        ensures
            r == *self,
    {
        Quat { w: self.w.clone(), x: self.x.clone(), y: self.y.clone(), z: self.z.clone() }
    }
}

} // verus!
