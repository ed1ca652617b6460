use vstd::prelude::*;
use vstd::std_specs::ops::{
    AddSpec, AddSpecImpl, DivSpec, DivSpecImpl, MulSpec, MulSpecImpl, NegSpec, NegSpecImpl, SubSpec,
    SubSpecImpl,
};
use core::ops::{Add, AddAssign, Div, DivAssign, Mul, MulAssign, Neg, Sub, SubAssign};

verus! {

/// A point or a size in two dimensions, over any scalar type.
///
/// Every operator acts on each component on its own, with the scalar's own
/// operator; a scalar right-hand side applies to all components alike.
#[derive(Clone, Copy, Debug, Default, PartialEq, Eq)]
pub struct Vec2D<T> {
    pub x: T,
    pub y: T,
}

impl<T: Copy> Vec2D<T> {
    pub fn new(x: T, y: T) -> (r: Self)
        ensures
            r.x == x && r.y == y,
    {
        Vec2D { x, y }
    }
}

// Sums

impl<T, O> AddSpecImpl<Vec2D<T>> for Vec2D<T> where T: Add<T, Output = O> + Copy {
    open spec fn obeys_add_spec() -> bool {
        T::obeys_add_spec()
    }

    open spec fn add_req(self, rhs: Vec2D<T>) -> bool {
        self.x.add_req(rhs.x) && self.y.add_req(rhs.y)
    }

    open spec fn add_spec(self, rhs: Vec2D<T>) -> Vec2D<O> {
        Vec2D { x: self.x.add_spec(rhs.x), y: self.y.add_spec(rhs.y) }
    }
}

impl<T, O> Add<Vec2D<T>> for Vec2D<T> where T: Add<T, Output = O> + Copy {
    type Output = Vec2D<O>;

    fn add(self, rhs: Vec2D<T>) -> Vec2D<O> {
        Vec2D { x: self.x + rhs.x, y: self.y + rhs.y }
    }
}

impl<T, O> AddSpecImpl<T> for Vec2D<T> where T: Add<T, Output = O> + Copy {
    open spec fn obeys_add_spec() -> bool {
        T::obeys_add_spec()
    }

    open spec fn add_req(self, rhs: T) -> bool {
        self.x.add_req(rhs) && self.y.add_req(rhs)
    }

    open spec fn add_spec(self, rhs: T) -> Vec2D<O> {
        Vec2D { x: self.x.add_spec(rhs), y: self.y.add_spec(rhs) }
    }
}

impl<T, O> Add<T> for Vec2D<T> where T: Add<T, Output = O> + Copy {
    type Output = Vec2D<O>;

    fn add(self, rhs: T) -> Vec2D<O> {
        Vec2D { x: self.x + rhs, y: self.y + rhs }
    }
}

impl<T> AddAssign<Vec2D<T>> for Vec2D<T> where T: Add<T, Output = T> + Copy {
    fn add_assign(&mut self, rhs: Vec2D<T>)
        requires
            old(self).x.add_req(rhs.x),
            old(self).y.add_req(rhs.y),
        ensures
            T::obeys_add_spec() ==> final(self).x == old(self).x.add_spec(rhs.x),
            T::obeys_add_spec() ==> final(self).y == old(self).y.add_spec(rhs.y),
    {
        self.x = self.x + rhs.x;
        self.y = self.y + rhs.y;
    }
}

impl<T> AddAssign<T> for Vec2D<T> where T: Add<T, Output = T> + Copy {
    fn add_assign(&mut self, rhs: T)
        requires
            old(self).x.add_req(rhs),
            old(self).y.add_req(rhs),
        ensures
            T::obeys_add_spec() ==> final(self).x == old(self).x.add_spec(rhs),
            T::obeys_add_spec() ==> final(self).y == old(self).y.add_spec(rhs),
    {
        self.x = self.x + rhs;
        self.y = self.y + rhs;
    }
}

// Differences

impl<T, O> SubSpecImpl<Vec2D<T>> for Vec2D<T> where T: Sub<T, Output = O> + Copy {
    open spec fn obeys_sub_spec() -> bool {
        T::obeys_sub_spec()
    }

    open spec fn sub_req(self, rhs: Vec2D<T>) -> bool {
        self.x.sub_req(rhs.x) && self.y.sub_req(rhs.y)
    }

    open spec fn sub_spec(self, rhs: Vec2D<T>) -> Vec2D<O> {
        Vec2D { x: self.x.sub_spec(rhs.x), y: self.y.sub_spec(rhs.y) }
    }
}

impl<T, O> Sub<Vec2D<T>> for Vec2D<T> where T: Sub<T, Output = O> + Copy {
    type Output = Vec2D<O>;

    fn sub(self, rhs: Vec2D<T>) -> Vec2D<O> {
        Vec2D { x: self.x - rhs.x, y: self.y - rhs.y }
    }
}

impl<T, O> SubSpecImpl<T> for Vec2D<T> where T: Sub<T, Output = O> + Copy {
    open spec fn obeys_sub_spec() -> bool {
        T::obeys_sub_spec()
    }

    open spec fn sub_req(self, rhs: T) -> bool {
        self.x.sub_req(rhs) && self.y.sub_req(rhs)
    }

    open spec fn sub_spec(self, rhs: T) -> Vec2D<O> {
        Vec2D { x: self.x.sub_spec(rhs), y: self.y.sub_spec(rhs) }
    }
}

impl<T, O> Sub<T> for Vec2D<T> where T: Sub<T, Output = O> + Copy {
    type Output = Vec2D<O>;

    fn sub(self, rhs: T) -> Vec2D<O> {
        Vec2D { x: self.x - rhs, y: self.y - rhs }
    }
}

impl<T> SubAssign<Vec2D<T>> for Vec2D<T> where T: Sub<T, Output = T> + Copy {
    fn sub_assign(&mut self, rhs: Vec2D<T>)
        requires
            old(self).x.sub_req(rhs.x),
            old(self).y.sub_req(rhs.y),
        ensures
            T::obeys_sub_spec() ==> final(self).x == old(self).x.sub_spec(rhs.x),
            T::obeys_sub_spec() ==> final(self).y == old(self).y.sub_spec(rhs.y),
    {
        self.x = self.x - rhs.x;
        self.y = self.y - rhs.y;
    }
}

impl<T> SubAssign<T> for Vec2D<T> where T: Sub<T, Output = T> + Copy {
    fn sub_assign(&mut self, rhs: T)
        requires
            old(self).x.sub_req(rhs),
            old(self).y.sub_req(rhs),
        ensures
            T::obeys_sub_spec() ==> final(self).x == old(self).x.sub_spec(rhs),
            T::obeys_sub_spec() ==> final(self).y == old(self).y.sub_spec(rhs),
    {
        self.x = self.x - rhs;
        self.y = self.y - rhs;
    }
}

// Scaling

impl<T, O> MulSpecImpl<T> for Vec2D<T> where T: Mul<T, Output = O> + Copy {
    open spec fn obeys_mul_spec() -> bool {
        T::obeys_mul_spec()
    }

    open spec fn mul_req(self, rhs: T) -> bool {
        self.x.mul_req(rhs) && self.y.mul_req(rhs)
    }

    open spec fn mul_spec(self, rhs: T) -> Vec2D<O> {
        Vec2D { x: self.x.mul_spec(rhs), y: self.y.mul_spec(rhs) }
    }
}

impl<T, O> Mul<T> for Vec2D<T> where T: Mul<T, Output = O> + Copy {
    type Output = Vec2D<O>;

    fn mul(self, rhs: T) -> Vec2D<O> {
        Vec2D { x: self.x * rhs, y: self.y * rhs }
    }
}

impl<T> MulAssign<T> for Vec2D<T> where T: Mul<T, Output = T> + Copy {
    fn mul_assign(&mut self, rhs: T)
        requires
            old(self).x.mul_req(rhs),
            old(self).y.mul_req(rhs),
        ensures
            T::obeys_mul_spec() ==> final(self).x == old(self).x.mul_spec(rhs),
            T::obeys_mul_spec() ==> final(self).y == old(self).y.mul_spec(rhs),
    {
        self.x = self.x * rhs;
        self.y = self.y * rhs;
    }
}

impl<T, O> DivSpecImpl<T> for Vec2D<T> where T: Div<T, Output = O> + Copy {
    open spec fn obeys_div_spec() -> bool {
        T::obeys_div_spec()
    }

    open spec fn div_req(self, rhs: T) -> bool {
        self.x.div_req(rhs) && self.y.div_req(rhs)
    }

    open spec fn div_spec(self, rhs: T) -> Vec2D<O> {
        Vec2D { x: self.x.div_spec(rhs), y: self.y.div_spec(rhs) }
    }
}

impl<T, O> Div<T> for Vec2D<T> where T: Div<T, Output = O> + Copy {
    type Output = Vec2D<O>;

    fn div(self, rhs: T) -> Vec2D<O> {
        Vec2D { x: self.x / rhs, y: self.y / rhs }
    }
}

impl<T> DivAssign<T> for Vec2D<T> where T: Div<T, Output = T> + Copy {
    fn div_assign(&mut self, rhs: T)
        requires
            old(self).x.div_req(rhs),
            old(self).y.div_req(rhs),
        ensures
            T::obeys_div_spec() ==> final(self).x == old(self).x.div_spec(rhs),
            T::obeys_div_spec() ==> final(self).y == old(self).y.div_spec(rhs),
    {
        self.x = self.x / rhs;
        self.y = self.y / rhs;
    }
}

// Negation

impl<T, O> NegSpecImpl for Vec2D<T> where T: Neg<Output = O> + Copy {
    open spec fn obeys_neg_spec() -> bool {
        T::obeys_neg_spec()
    }

    open spec fn neg_req(self) -> bool {
        self.x.neg_req() && self.y.neg_req()
    }

    open spec fn neg_spec(self) -> Vec2D<O> {
        Vec2D { x: self.x.neg_spec(), y: self.y.neg_spec() }
    }
}

impl<T, O> Neg for Vec2D<T> where T: Neg<Output = O> + Copy {
    type Output = Vec2D<O>;

    fn neg(self) -> Vec2D<O> {
        Vec2D { x: self.x.neg(), y: self.y.neg() }
    }
}

} // verus!
