//! The numeric capability that an array's elements provide.

use vstd::prelude::*;

verus! {

/// A number that can be exponentiated, raised to a power and multiplied.
///
/// The methods carry no contract: an implementation may round, saturate or
/// return a not-a-number value as its arithmetic sees fit. What the library
/// proves is stated over [`is_exp`], [`is_powf`], [`is_product`] and
/// [`is_constant`], which hold of a value exactly when the implementation may
/// return it.
pub trait Scalar: Copy {
    /// The exponential `e^self`.
    fn exp(self) -> Self;

    /// `self` raised to the power `p`.
    fn powf(self, p: Self) -> Self;

    /// The product `self * rhs`.
    fn times(self, rhs: Self) -> Self;

    /// The scalar that stands for the small integer `n`.
    fn from_u8(n: u8) -> Self;
}

/// `r` is a result of `x.exp()`.
pub open spec fn is_exp<T: Scalar>(x: T, r: T) -> bool {
    call_ensures(T::exp, (x,), r)
}

/// `r` is a result of `x.powf(p)`.
pub open spec fn is_powf<T: Scalar>(x: T, p: T, r: T) -> bool {
    call_ensures(T::powf, (x, p), r)
}

/// `r` is a result of `x.times(y)`.
pub open spec fn is_product<T: Scalar>(x: T, y: T, r: T) -> bool {
    call_ensures(T::times, (x, y), r)
}

/// `r` is a result of `T::from_u8(n)`.
pub open spec fn is_constant<T: Scalar>(n: u8, r: T) -> bool {
    call_ensures(T::from_u8, (n,), r)
}

/// Raising a number to the power two gives what multiplying it by itself
/// gives. Rounding arithmetic need not have this property.
pub open spec fn squares_by_product<T: Scalar>() -> bool {
    forall|x: T, two: T, r: T|
        is_constant(2u8, two) && #[trigger] is_powf(x, two, r) ==> is_product(x, x, r)
}

/// Every operation of `T` returns one result for given operands.
pub open spec fn is_pure<T: Scalar>() -> bool {
    &&& forall|x: T, r1: T, r2: T| #[trigger] is_exp(x, r1) && #[trigger] is_exp(x, r2) ==> r1 == r2
    &&& forall|x: T, p: T, r1: T, r2: T|
        #[trigger] is_powf(x, p, r1) && #[trigger] is_powf(x, p, r2) ==> r1 == r2
    &&& forall|x: T, y: T, r1: T, r2: T|
        #[trigger] is_product(x, y, r1) && #[trigger] is_product(x, y, r2) ==> r1 == r2
    &&& forall|n: u8, r1: T, r2: T|
        #[trigger] is_constant::<T>(n, r1) && #[trigger] is_constant::<T>(n, r2) ==> r1 == r2
}

} // verus!
