use vstd::prelude::*;
use vstd::std_specs::ops::{
    AddSpec, AddSpecImpl, DivSpec, DivSpecImpl, MulSpec, MulSpecImpl, NegSpec, NegSpecImpl, SubSpec,
    SubSpecImpl,
};
use core::ops::{Add, AddAssign, Div, DivAssign, Mul, MulAssign, Neg, Sub, SubAssign};

verus! {

/// A point or a direction in three dimensions, over any scalar type.
///
/// Every operator acts on each component on its own, with the scalar's own
/// operator; a scalar right-hand side applies to all components alike.
#[derive(Clone, Copy, Debug, Default, PartialEq, Eq)]
pub struct Vec3D<T> {
    pub x: T,
    pub y: T,
    pub z: T,
}

impl<T: Copy> Vec3D<T> {
    pub fn new(x: T, y: T, z: T) -> (r: Self)
        ensures
            r.x == x && r.y == y && r.z == z,
    {
        Vec3D { x, y, z }
    }
}

// Sums

impl<T, O> AddSpecImpl<Vec3D<T>> for Vec3D<T> where T: Add<T, Output = O> + Copy {
    open spec fn obeys_add_spec() -> bool {
        T::obeys_add_spec()
    }

    open spec fn add_req(self, rhs: Vec3D<T>) -> bool {
        self.x.add_req(rhs.x) && self.y.add_req(rhs.y) && self.z.add_req(rhs.z)
    }

    open spec fn add_spec(self, rhs: Vec3D<T>) -> Vec3D<O> {
        Vec3D { x: self.x.add_spec(rhs.x), y: self.y.add_spec(rhs.y), z: self.z.add_spec(rhs.z) }
    }
}

impl<T, O> Add<Vec3D<T>> for Vec3D<T> where T: Add<T, Output = O> + Copy {
    type Output = Vec3D<O>;

    fn add(self, rhs: Vec3D<T>) -> Vec3D<O> {
        Vec3D { x: self.x + rhs.x, y: self.y + rhs.y, z: self.z + rhs.z }
    }
}

impl<T, O> AddSpecImpl<T> for Vec3D<T> where T: Add<T, Output = O> + Copy {
    open spec fn obeys_add_spec() -> bool {
        T::obeys_add_spec()
    }

    open spec fn add_req(self, rhs: T) -> bool {
        self.x.add_req(rhs) && self.y.add_req(rhs) && self.z.add_req(rhs)
    }

    open spec fn add_spec(self, rhs: T) -> Vec3D<O> {
        Vec3D { x: self.x.add_spec(rhs), y: self.y.add_spec(rhs), z: self.z.add_spec(rhs) }
    }
}

impl<T, O> Add<T> for Vec3D<T> where T: Add<T, Output = O> + Copy {
    type Output = Vec3D<O>;

    fn add(self, rhs: T) -> Vec3D<O> {
        Vec3D { x: self.x + rhs, y: self.y + rhs, z: self.z + rhs }
    }
}

impl<T> AddAssign<Vec3D<T>> for Vec3D<T> where T: Add<T, Output = T> + Copy {
    fn add_assign(&mut self, rhs: Vec3D<T>)
        requires
            old(self).x.add_req(rhs.x),
            old(self).y.add_req(rhs.y),
            old(self).z.add_req(rhs.z),
        ensures
            T::obeys_add_spec() ==> final(self).x == old(self).x.add_spec(rhs.x),
            T::obeys_add_spec() ==> final(self).y == old(self).y.add_spec(rhs.y),
            T::obeys_add_spec() ==> final(self).z == old(self).z.add_spec(rhs.z),
    {
        self.x = self.x + rhs.x;
        self.y = self.y + rhs.y;
        self.z = self.z + rhs.z;
    }
}

impl<T> AddAssign<T> for Vec3D<T> where T: Add<T, Output = T> + Copy {
    fn add_assign(&mut self, rhs: T)
        requires
            old(self).x.add_req(rhs),
            old(self).y.add_req(rhs),
            old(self).z.add_req(rhs),
        ensures
            T::obeys_add_spec() ==> final(self).x == old(self).x.add_spec(rhs),
            T::obeys_add_spec() ==> final(self).y == old(self).y.add_spec(rhs),
            T::obeys_add_spec() ==> final(self).z == old(self).z.add_spec(rhs),
    {
        self.x = self.x + rhs;
        self.y = self.y + rhs;
        self.z = self.z + rhs;
    }
}

// Differences

impl<T, O> SubSpecImpl<Vec3D<T>> for Vec3D<T> where T: Sub<T, Output = O> + Copy {
    open spec fn obeys_sub_spec() -> bool {
        T::obeys_sub_spec()
    }

    open spec fn sub_req(self, rhs: Vec3D<T>) -> bool {
        self.x.sub_req(rhs.x) && self.y.sub_req(rhs.y) && self.z.sub_req(rhs.z)
    }

    open spec fn sub_spec(self, rhs: Vec3D<T>) -> Vec3D<O> {
        Vec3D { x: self.x.sub_spec(rhs.x), y: self.y.sub_spec(rhs.y), z: self.z.sub_spec(rhs.z) }
    }
}

impl<T, O> Sub<Vec3D<T>> for Vec3D<T> where T: Sub<T, Output = O> + Copy {
    type Output = Vec3D<O>;

    fn sub(self, rhs: Vec3D<T>) -> Vec3D<O> {
        Vec3D { x: self.x - rhs.x, y: self.y - rhs.y, z: self.z - rhs.z }
    }
}

impl<T, O> SubSpecImpl<T> for Vec3D<T> where T: Sub<T, Output = O> + Copy {
    open spec fn obeys_sub_spec() -> bool {
        T::obeys_sub_spec()
    }

    open spec fn sub_req(self, rhs: T) -> bool {
        self.x.sub_req(rhs) && self.y.sub_req(rhs) && self.z.sub_req(rhs)
    }

    open spec fn sub_spec(self, rhs: T) -> Vec3D<O> {
        Vec3D { x: self.x.sub_spec(rhs), y: self.y.sub_spec(rhs), z: self.z.sub_spec(rhs) }
    }
}

impl<T, O> Sub<T> for Vec3D<T> where T: Sub<T, Output = O> + Copy {
    type Output = Vec3D<O>;

    fn sub(self, rhs: T) -> Vec3D<O> {
        Vec3D { x: self.x - rhs, y: self.y - rhs, z: self.z - rhs }
    }
}

impl<T> SubAssign<Vec3D<T>> for Vec3D<T> where T: Sub<T, Output = T> + Copy {
    fn sub_assign(&mut self, rhs: Vec3D<T>)
        requires
            old(self).x.sub_req(rhs.x),
            old(self).y.sub_req(rhs.y),
            old(self).z.sub_req(rhs.z),
        ensures
            T::obeys_sub_spec() ==> final(self).x == old(self).x.sub_spec(rhs.x),
            T::obeys_sub_spec() ==> final(self).y == old(self).y.sub_spec(rhs.y),
            T::obeys_sub_spec() ==> final(self).z == old(self).z.sub_spec(rhs.z),
    {
        self.x = self.x - rhs.x;
        self.y = self.y - rhs.y;
        self.z = self.z - rhs.z;
    }
}

impl<T> SubAssign<T> for Vec3D<T> where T: Sub<T, Output = T> + Copy {
    fn sub_assign(&mut self, rhs: T)
        requires
            old(self).x.sub_req(rhs),
            old(self).y.sub_req(rhs),
            old(self).z.sub_req(rhs),
        ensures
            T::obeys_sub_spec() ==> final(self).x == old(self).x.sub_spec(rhs),
            T::obeys_sub_spec() ==> final(self).y == old(self).y.sub_spec(rhs),
            T::obeys_sub_spec() ==> final(self).z == old(self).z.sub_spec(rhs),
    {
        self.x = self.x - rhs;
        self.y = self.y - rhs;
        self.z = self.z - rhs;
    }
}

// Scaling

impl<T, O> MulSpecImpl<T> for Vec3D<T> where T: Mul<T, Output = O> + Copy {
    open spec fn obeys_mul_spec() -> bool {
        T::obeys_mul_spec()
    }

    open spec fn mul_req(self, rhs: T) -> bool {
        self.x.mul_req(rhs) && self.y.mul_req(rhs) && self.z.mul_req(rhs)
    }

    open spec fn mul_spec(self, rhs: T) -> Vec3D<O> {
        Vec3D { x: self.x.mul_spec(rhs), y: self.y.mul_spec(rhs), z: self.z.mul_spec(rhs) }
    }
}

impl<T, O> Mul<T> for Vec3D<T> where T: Mul<T, Output = O> + Copy {
    type Output = Vec3D<O>;

    fn mul(self, rhs: T) -> Vec3D<O> {
        Vec3D { x: self.x * rhs, y: self.y * rhs, z: self.z * rhs }
    }
}

impl<T> MulAssign<T> for Vec3D<T> where T: Mul<T, Output = T> + Copy {
    fn mul_assign(&mut self, rhs: T)
        requires
            old(self).x.mul_req(rhs),
            old(self).y.mul_req(rhs),
            old(self).z.mul_req(rhs),
        ensures
            T::obeys_mul_spec() ==> final(self).x == old(self).x.mul_spec(rhs),
            T::obeys_mul_spec() ==> final(self).y == old(self).y.mul_spec(rhs),
            T::obeys_mul_spec() ==> final(self).z == old(self).z.mul_spec(rhs),
    {
        self.x = self.x * rhs;
        self.y = self.y * rhs;
        self.z = self.z * rhs;
    }
}

impl<T, O> DivSpecImpl<T> for Vec3D<T> where T: Div<T, Output = O> + Copy {
    open spec fn obeys_div_spec() -> bool {
        T::obeys_div_spec()
    }

    open spec fn div_req(self, rhs: T) -> bool {
        self.x.div_req(rhs) && self.y.div_req(rhs) && self.z.div_req(rhs)
    }

    open spec fn div_spec(self, rhs: T) -> Vec3D<O> {
        Vec3D { x: self.x.div_spec(rhs), y: self.y.div_spec(rhs), z: self.z.div_spec(rhs) }
    }
}

impl<T, O> Div<T> for Vec3D<T> where T: Div<T, Output = O> + Copy {
    type Output = Vec3D<O>;

    fn div(self, rhs: T) -> Vec3D<O> {
        Vec3D { x: self.x / rhs, y: self.y / rhs, z: self.z / rhs }
    }
}

impl<T> DivAssign<T> for Vec3D<T> where T: Div<T, Output = T> + Copy {
    fn div_assign(&mut self, rhs: T)
        requires
            old(self).x.div_req(rhs),
            old(self).y.div_req(rhs),
            old(self).z.div_req(rhs),
        ensures
            T::obeys_div_spec() ==> final(self).x == old(self).x.div_spec(rhs),
            T::obeys_div_spec() ==> final(self).y == old(self).y.div_spec(rhs),
            T::obeys_div_spec() ==> final(self).z == old(self).z.div_spec(rhs),
    {
        self.x = self.x / rhs;
        self.y = self.y / rhs;
        self.z = self.z / rhs;
    }
}

// Negation

impl<T, O> NegSpecImpl for Vec3D<T> where T: Neg<Output = O> + Copy {
    open spec fn obeys_neg_spec() -> bool {
        T::obeys_neg_spec()
    }

    open spec fn neg_req(self) -> bool {
        self.x.neg_req() && self.y.neg_req() && self.z.neg_req()
    }

    open spec fn neg_spec(self) -> Vec3D<O> {
        Vec3D { x: self.x.neg_spec(), y: self.y.neg_spec(), z: self.z.neg_spec() }
    }
}

impl<T, O> Neg for Vec3D<T> where T: Neg<Output = O> + Copy {
    type Output = Vec3D<O>;

    fn neg(self) -> Vec3D<O> {
        Vec3D { x: self.x.neg(), y: self.y.neg(), z: self.z.neg() }
    }
}

} // verus!
