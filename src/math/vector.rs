//! Integer vectors of two, three and four components. Arithmetic wraps
//! around at the bounds of `isize`.
use vstd::prelude::*;

verus! {

/// Element types of the vectors and matrices.
pub trait VectorType: Copy {}

impl VectorType for i8 {}
impl VectorType for i16 {}
impl VectorType for i32 {}
impl VectorType for i64 {}
impl VectorType for i128 {}
impl VectorType for isize {}

/// Dot product.
pub trait Dot<Rhs = Self> {
    type Output;

    fn dot(self, rhs: Rhs) -> Self::Output;
}

/// Cross product.
pub trait Cross<Rhs = Self> {
    type Output;

    fn cross(self, rhs: Rhs) -> Self::Output;
}

/// Cross product in place.
pub trait CrossAssign<Rhs = Self> {
    fn cross_assign(&mut self, rhs: Rhs);
}

#[derive(Clone, Copy, PartialEq, Eq, Structural, Debug)]
pub struct Vector2 {
    pub x: isize,
    pub y: isize,
}

impl Vector2 {
    pub fn new(x: isize, y: isize) -> (r: Self)
        ensures
            r == (Vector2 { x, y }),
    {
        Vector2 { x, y }
    }
}

impl core::ops::Add for Vector2 {
    type Output = Vector2;

    fn add(self, rhs: Vector2) -> Vector2 {
        Vector2 { x: self.x.wrapping_add(rhs.x), y: self.y.wrapping_add(rhs.y) }
    }
}

impl vstd::std_specs::ops::AddSpecImpl for Vector2 {
    open spec fn obeys_add_spec() -> bool {
        true
    }

    open spec fn add_req(self, rhs: Vector2) -> bool {
        true
    }

    open spec fn add_spec(self, rhs: Vector2) -> Vector2 {
        Vector2 { x: self.x.wrapping_add(rhs.x), y: self.y.wrapping_add(rhs.y) }
    }
}

impl core::ops::Sub for Vector2 {
    type Output = Vector2;

    fn sub(self, rhs: Vector2) -> Vector2 {
        Vector2 { x: self.x.wrapping_sub(rhs.x), y: self.y.wrapping_sub(rhs.y) }
    }
}

impl vstd::std_specs::ops::SubSpecImpl for Vector2 {
    open spec fn obeys_sub_spec() -> bool {
        true
    }

    open spec fn sub_req(self, rhs: Vector2) -> bool {
        true
    }

    open spec fn sub_spec(self, rhs: Vector2) -> Vector2 {
        Vector2 { x: self.x.wrapping_sub(rhs.x), y: self.y.wrapping_sub(rhs.y) }
    }
}

impl core::ops::Mul for Vector2 {
    type Output = Vector2;

    fn mul(self, rhs: Vector2) -> Vector2 {
        Vector2 { x: self.x.wrapping_mul(rhs.x), y: self.y.wrapping_mul(rhs.y) }
    }
}

impl vstd::std_specs::ops::MulSpecImpl for Vector2 {
    open spec fn obeys_mul_spec() -> bool {
        true
    }

    open spec fn mul_req(self, rhs: Vector2) -> bool {
        true
    }

    open spec fn mul_spec(self, rhs: Vector2) -> Vector2 {
        Vector2 { x: self.x.wrapping_mul(rhs.x), y: self.y.wrapping_mul(rhs.y) }
    }
}

impl core::ops::Neg for Vector2 {
    type Output = Vector2;

    fn neg(self) -> Vector2 {
        Vector2 { x: 0isize.wrapping_sub(self.x), y: 0isize.wrapping_sub(self.y) }
    }
}

impl vstd::std_specs::ops::NegSpecImpl for Vector2 {
    open spec fn obeys_neg_spec() -> bool {
        true
    }

    open spec fn neg_req(self) -> bool {
        true
    }

    open spec fn neg_spec(self) -> Vector2 {
        Vector2 { x: 0isize.wrapping_sub(self.x), y: 0isize.wrapping_sub(self.y) }
    }
}

impl Dot for Vector2 {
    type Output = isize;

    fn dot(self, rhs: Vector2) -> (r: isize)
        ensures
            r == self.x.wrapping_mul(rhs.x).wrapping_add(self.y.wrapping_mul(rhs.y)),
    {
        self.x.wrapping_mul(rhs.x).wrapping_add(self.y.wrapping_mul(rhs.y))
    }
}

#[derive(Clone, Copy, PartialEq, Eq, Structural, Debug)]
pub struct Vector3 {
    pub x: isize,
    pub y: isize,
    pub z: isize,
}

impl Vector3 {
    pub fn new(x: isize, y: isize, z: isize) -> (r: Self)
        ensures
            r == (Vector3 { x, y, z }),
    {
        Vector3 { x, y, z }
    }
}

impl core::ops::Add for Vector3 {
    type Output = Vector3;

    fn add(self, rhs: Vector3) -> Vector3 {
        Vector3 { x: self.x.wrapping_add(rhs.x), y: self.y.wrapping_add(rhs.y), z: self.z.wrapping_add(rhs.z) }
    }
}

impl vstd::std_specs::ops::AddSpecImpl for Vector3 {
    open spec fn obeys_add_spec() -> bool {
        true
    }

    open spec fn add_req(self, rhs: Vector3) -> bool {
        true
    }

    open spec fn add_spec(self, rhs: Vector3) -> Vector3 {
        Vector3 { x: self.x.wrapping_add(rhs.x), y: self.y.wrapping_add(rhs.y), z: self.z.wrapping_add(rhs.z) }
    }
}

impl core::ops::Sub for Vector3 {
    type Output = Vector3;

    fn sub(self, rhs: Vector3) -> Vector3 {
        Vector3 { x: self.x.wrapping_sub(rhs.x), y: self.y.wrapping_sub(rhs.y), z: self.z.wrapping_sub(rhs.z) }
    }
}

impl vstd::std_specs::ops::SubSpecImpl for Vector3 {
    open spec fn obeys_sub_spec() -> bool {
        true
    }

    open spec fn sub_req(self, rhs: Vector3) -> bool {
        true
    }

    open spec fn sub_spec(self, rhs: Vector3) -> Vector3 {
        Vector3 { x: self.x.wrapping_sub(rhs.x), y: self.y.wrapping_sub(rhs.y), z: self.z.wrapping_sub(rhs.z) }
    }
}

impl core::ops::Mul for Vector3 {
    type Output = Vector3;

    fn mul(self, rhs: Vector3) -> Vector3 {
        Vector3 { x: self.x.wrapping_mul(rhs.x), y: self.y.wrapping_mul(rhs.y), z: self.z.wrapping_mul(rhs.z) }
    }
}

impl vstd::std_specs::ops::MulSpecImpl for Vector3 {
    open spec fn obeys_mul_spec() -> bool {
        true
    }

    open spec fn mul_req(self, rhs: Vector3) -> bool {
        true
    }

    open spec fn mul_spec(self, rhs: Vector3) -> Vector3 {
        Vector3 { x: self.x.wrapping_mul(rhs.x), y: self.y.wrapping_mul(rhs.y), z: self.z.wrapping_mul(rhs.z) }
    }
}

impl core::ops::Neg for Vector3 {
    type Output = Vector3;

    fn neg(self) -> Vector3 {
        Vector3 { x: 0isize.wrapping_sub(self.x), y: 0isize.wrapping_sub(self.y), z: 0isize.wrapping_sub(self.z) }
    }
}

impl vstd::std_specs::ops::NegSpecImpl for Vector3 {
    open spec fn obeys_neg_spec() -> bool {
        true
    }

    open spec fn neg_req(self) -> bool {
        true
    }

    open spec fn neg_spec(self) -> Vector3 {
        Vector3 { x: 0isize.wrapping_sub(self.x), y: 0isize.wrapping_sub(self.y), z: 0isize.wrapping_sub(self.z) }
    }
}

impl Dot for Vector3 {
    type Output = isize;

    fn dot(self, rhs: Vector3) -> (r: isize)
        ensures
            r == self.x.wrapping_mul(rhs.x).wrapping_add(self.y.wrapping_mul(rhs.y)).wrapping_add(self.z.wrapping_mul(rhs.z)),
    {
        self.x.wrapping_mul(rhs.x).wrapping_add(self.y.wrapping_mul(rhs.y)).wrapping_add(self.z.wrapping_mul(rhs.z))
    }
}

#[derive(Clone, Copy, PartialEq, Eq, Structural, Debug)]
pub struct Vector4 {
    pub x: isize,
    pub y: isize,
    pub z: isize,
    pub w: isize,
}

impl Vector4 {
    pub fn new(x: isize, y: isize, z: isize, w: isize) -> (r: Self)
        ensures
            r == (Vector4 { x, y, z, w }),
    {
        Vector4 { x, y, z, w }
    }
}

impl core::ops::Add for Vector4 {
    type Output = Vector4;

    fn add(self, rhs: Vector4) -> Vector4 {
        Vector4 { x: self.x.wrapping_add(rhs.x), y: self.y.wrapping_add(rhs.y), z: self.z.wrapping_add(rhs.z), w: self.w.wrapping_add(rhs.w) }
    }
}

impl vstd::std_specs::ops::AddSpecImpl for Vector4 {
    open spec fn obeys_add_spec() -> bool {
        true
    }

    open spec fn add_req(self, rhs: Vector4) -> bool {
        true
    }

    open spec fn add_spec(self, rhs: Vector4) -> Vector4 {
        Vector4 { x: self.x.wrapping_add(rhs.x), y: self.y.wrapping_add(rhs.y), z: self.z.wrapping_add(rhs.z), w: self.w.wrapping_add(rhs.w) }
    }
}

impl core::ops::Sub for Vector4 {
    type Output = Vector4;

    fn sub(self, rhs: Vector4) -> Vector4 {
        Vector4 { x: self.x.wrapping_sub(rhs.x), y: self.y.wrapping_sub(rhs.y), z: self.z.wrapping_sub(rhs.z), w: self.w.wrapping_sub(rhs.w) }
    }
}

impl vstd::std_specs::ops::SubSpecImpl for Vector4 {
    open spec fn obeys_sub_spec() -> bool {
        true
    }

    open spec fn sub_req(self, rhs: Vector4) -> bool {
        true
    }

    open spec fn sub_spec(self, rhs: Vector4) -> Vector4 {
        Vector4 { x: self.x.wrapping_sub(rhs.x), y: self.y.wrapping_sub(rhs.y), z: self.z.wrapping_sub(rhs.z), w: self.w.wrapping_sub(rhs.w) }
    }
}

impl core::ops::Mul for Vector4 {
    type Output = Vector4;

    fn mul(self, rhs: Vector4) -> Vector4 {
        Vector4 { x: self.x.wrapping_mul(rhs.x), y: self.y.wrapping_mul(rhs.y), z: self.z.wrapping_mul(rhs.z), w: self.w.wrapping_mul(rhs.w) }
    }
}

impl vstd::std_specs::ops::MulSpecImpl for Vector4 {
    open spec fn obeys_mul_spec() -> bool {
        true
    }

    open spec fn mul_req(self, rhs: Vector4) -> bool {
        true
    }

    open spec fn mul_spec(self, rhs: Vector4) -> Vector4 {
        Vector4 { x: self.x.wrapping_mul(rhs.x), y: self.y.wrapping_mul(rhs.y), z: self.z.wrapping_mul(rhs.z), w: self.w.wrapping_mul(rhs.w) }
    }
}

impl core::ops::Neg for Vector4 {
    type Output = Vector4;

    fn neg(self) -> Vector4 {
        Vector4 { x: 0isize.wrapping_sub(self.x), y: 0isize.wrapping_sub(self.y), z: 0isize.wrapping_sub(self.z), w: 0isize.wrapping_sub(self.w) }
    }
}

impl vstd::std_specs::ops::NegSpecImpl for Vector4 {
    open spec fn obeys_neg_spec() -> bool {
        true
    }

    open spec fn neg_req(self) -> bool {
        true
    }

    open spec fn neg_spec(self) -> Vector4 {
        Vector4 { x: 0isize.wrapping_sub(self.x), y: 0isize.wrapping_sub(self.y), z: 0isize.wrapping_sub(self.z), w: 0isize.wrapping_sub(self.w) }
    }
}

impl Dot for Vector4 {
    type Output = isize;

    fn dot(self, rhs: Vector4) -> (r: isize)
        ensures
            r == self.x.wrapping_mul(rhs.x).wrapping_add(self.y.wrapping_mul(rhs.y)).wrapping_add(self.z.wrapping_mul(rhs.z)).wrapping_add(self.w.wrapping_mul(rhs.w)),
    {
        self.x.wrapping_mul(rhs.x).wrapping_add(self.y.wrapping_mul(rhs.y)).wrapping_add(self.z.wrapping_mul(rhs.z)).wrapping_add(self.w.wrapping_mul(rhs.w))
    }
}

/// The cross product of `a` and `b`, wrapping around.
pub open spec fn cross_spec(a: Vector3, b: Vector3) -> Vector3 {
    Vector3 {
        x: a.y.wrapping_mul(b.z).wrapping_sub(a.z.wrapping_mul(b.y)),
        y: a.z.wrapping_mul(b.x).wrapping_sub(a.x.wrapping_mul(b.z)),
        z: a.x.wrapping_mul(b.y).wrapping_sub(a.y.wrapping_mul(b.x)),
    }
}

impl Cross for Vector3 {
    type Output = Vector3;

    fn cross(self, rhs: Vector3) -> (r: Vector3)
        ensures
            r == cross_spec(self, rhs),
    {
        Vector3::new(
            self.y.wrapping_mul(rhs.z).wrapping_sub(self.z.wrapping_mul(rhs.y)),
            self.z.wrapping_mul(rhs.x).wrapping_sub(self.x.wrapping_mul(rhs.z)),
            self.x.wrapping_mul(rhs.y).wrapping_sub(self.y.wrapping_mul(rhs.x)),
        )
    }
}

impl CrossAssign for Vector3 {
    fn cross_assign(&mut self, rhs: Vector3)
        ensures
            *final(self) == cross_spec(*old(self), rhs),
    {
        let lhs = *self;
        *self = lhs.cross(rhs);
    }
}

} // verus!
