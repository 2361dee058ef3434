//! Elementwise numeric operations on arrays.

use crate::array::{Array1, ShapeMismatch};
use crate::scalar::{is_exp, is_powf, is_product, Scalar};
use vstd::prelude::*;

verus! {

/// `y` holds, place by place, an exponential of the element of `x`.
pub open spec fn each_exp<T: Scalar>(x: Seq<T>, y: Seq<T>) -> bool {
    &&& y.len() == x.len()
    &&& forall|i: int| 0 <= i < x.len() ==> #[trigger] is_exp(x[i], y[i])
}

/// `y` holds, place by place, the element of `x` raised to the power `p`.
pub open spec fn each_powf<T: Scalar>(x: Seq<T>, p: T, y: Seq<T>) -> bool {
    &&& y.len() == x.len()
    &&& forall|i: int| 0 <= i < x.len() ==> #[trigger] is_powf(x[i], p, y[i])
}

/// `y` holds, place by place, the product of the element of `x` and `k`.
pub open spec fn each_scaled<T: Scalar>(x: Seq<T>, k: T, y: Seq<T>) -> bool {
    &&& y.len() == x.len()
    &&& forall|i: int| 0 <= i < x.len() ==> #[trigger] is_product(x[i], k, y[i])
}

/// `z` holds, place by place, the product of the elements of `x` and `y`.
pub open spec fn each_product<T: Scalar>(x: Seq<T>, y: Seq<T>, z: Seq<T>) -> bool {
    &&& y.len() == x.len()
    &&& z.len() == x.len()
    &&& forall|i: int| 0 <= i < x.len() ==> #[trigger] is_product(x[i], y[i], z[i])
}

/// Exponential and power, lifted to a whole value.
pub trait MathFunc<T>: Sized {
    /// A new value in which each element is replaced by its exponential.
    fn exp(&self) -> Self;

    /// A new value in which each element is raised to the power `p`.
    fn pow(&self, p: T) -> Self;
}

impl<T: Scalar> MathFunc<T> for Array1<T> {
    fn exp(&self) -> (r: Self)
        ensures
            each_exp(self@, r@),
    {
        let f = |v: T| -> (e: T)
            ensures
                is_exp(v, e),
            {
                v.exp()
            };
        self.map(f)
    }

    fn pow(&self, p: T) -> (r: Self)
        ensures
            each_powf(self@, p, r@),
    {
        let f = |v: T| -> (e: T)
            ensures
                is_powf(v, p, e),
            {
                v.powf(p)
            };
        self.map(f)
    }
}

impl<T: Scalar> Array1<T> {
    /// A new array in which each element is multiplied by `k`.
    pub fn scale(&self, k: T) -> (r: Self)
        ensures
            each_scaled(self@, k, r@),
    {
        let f = |v: T| -> (e: T)
            ensures
                is_product(v, k, e),
            {
                v.times(k)
            };
        self.map(f)
    }

    /// The elementwise product of two arrays of one length.
    pub fn multiply(&self, rhs: &Self) -> (r: Result<Self, ShapeMismatch>)
        ensures
            r is Ok <==> rhs@.len() == self@.len(),
            r matches Ok(z) ==> each_product(self@, rhs@, z@),
            r matches Err(e) ==> e.expected == self@.len() && e.found == rhs@.len(),
    {
        let f = |a: T, b: T| -> (e: T)
            ensures
                is_product(a, b, e),
            {
                a.times(b)
            };
        self.zip_with(rhs, f)
    }
}

} // verus!
