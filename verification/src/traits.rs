use vstd::prelude::*;

verus! {

/// Types with a lesser of two values.
pub trait Min: Sized {
    /// The lesser of the two, as a contract names it.
    spec fn lesser(&self, rhs: &Self) -> Self;

    fn min(&self, rhs: &Self) -> (lesser: Self)
        ensures
            lesser == self.lesser(rhs),
    ;
}

/// Types with a greater of two values.
pub trait Max: Sized {
    /// The greater of the two, as a contract names it.
    spec fn greater(&self, rhs: &Self) -> Self;

    fn max(&self, rhs: &Self) -> (greater: Self)
        ensures
            greater == self.greater(rhs),
    ;
}

/// Types whose values can be held between two bounds: raised to the lower
/// bound first, then lowered to the upper one.
pub trait Clamp: Min + Max + Sized {
    fn clamp(&self, min: &Self, max: &Self) -> (clamped: Self)
        ensures
            clamped == self.greater(min).lesser(max),
    {
        self.max(min).min(max)
    }
}

impl<T: Min + Max> Clamp for T {

}

/// `slf` held between `min` and `max`.
pub fn clamp<T: Clamp>(slf: &T, min: &T, max: &T) -> (clamped: T)
    ensures
        clamped == slf.greater(min).lesser(max),
{
    slf.clamp(min, max)
}

/// Types with a linear interpolation towards a value of `T`, by a weight of
/// type `A`.
pub trait Lerp<T, A>: Sized {
    type Output;

    /// Whether the interpolation stays within what the type can hold.
    spec fn lerp_fits(self, rhs: T, lerp: A) -> bool;

    /// The interpolated value, as a contract names it.
    spec fn lerped(self, rhs: T, lerp: A) -> Self::Output;

    fn lerp(self, rhs: T, lerp: A) -> (lerped: Self::Output)
        requires
            self.lerp_fits(rhs, lerp),
        ensures
            lerped == self.lerped(rhs, lerp),
    ;
}

impl Lerp<u8, u8> for u8 {
    type Output = u8;

    open spec fn lerp_fits(self, rhs: u8, lerp: u8) -> bool {
        self <= rhs && self + lerp * (rhs - self) <= u8::MAX
    }

    open spec fn lerped(self, rhs: u8, lerp: u8) -> u8 {
        (self + lerp * (rhs - self)) as u8
    }

    fn lerp(self, rhs: u8, lerp: u8) -> (lerped: u8) {
        assert(0 <= lerp * (rhs - self)) by (nonlinear_arith)
            requires
                0 <= lerp,
                0 <= rhs - self,
        ;
        self + lerp * (rhs - self)
    }
}

impl Lerp<u64, u64> for u64 {
    type Output = u64;

    open spec fn lerp_fits(self, rhs: u64, lerp: u64) -> bool {
        self <= rhs && self + lerp * (rhs - self) <= u64::MAX
    }

    open spec fn lerped(self, rhs: u64, lerp: u64) -> u64 {
        (self + lerp * (rhs - self)) as u64
    }

    fn lerp(self, rhs: u64, lerp: u64) -> (lerped: u64) {
        assert(0 <= lerp * (rhs - self)) by (nonlinear_arith)
            requires
                0 <= lerp,
                0 <= rhs - self,
        ;
        self + lerp * (rhs - self)
    }
}

impl Lerp<i64, i64> for i64 {
    type Output = i64;

    open spec fn lerp_fits(self, rhs: i64, lerp: i64) -> bool {
        &&& i64::MIN <= rhs - self <= i64::MAX
        &&& i64::MIN <= lerp * (rhs - self) <= i64::MAX
        &&& i64::MIN <= self + lerp * (rhs - self) <= i64::MAX
    }

    open spec fn lerped(self, rhs: i64, lerp: i64) -> i64 {
        (self + lerp * (rhs - self)) as i64
    }

    fn lerp(self, rhs: i64, lerp: i64) -> (lerped: i64) {
        self + lerp * (rhs - self)
    }
}

/// The interpolation from `slf` towards `rhs` by `weight`.
pub fn lerp<T: Lerp<T, A>, A>(slf: T, rhs: T, weight: A) -> (lerped: T::Output)
    requires
        slf.lerp_fits(rhs, weight),
    ensures
        lerped == slf.lerped(rhs, weight),
{
    slf.lerp(rhs, weight)
}

} // verus!
