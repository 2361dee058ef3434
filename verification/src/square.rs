//! The squaring operation.

use crate::array::{Array1, ShapeMismatch};
use crate::function::Function;
use crate::math::{each_powf, each_product, each_scaled, MathFunc};
use crate::scalar::{is_constant, is_powf, is_product, is_pure, squares_by_product, Scalar};
use crate::variable::Variable;
use vstd::prelude::*;

verus! {

/// Squares each element of its input. Its derivative is twice the input.
#[derive(Debug)]
pub struct Square<T> {
    /// The variable that the operation is bound to.
    pub input: T,
}

/// `y` holds each element of `x` raised to the power two.
pub open spec fn is_square<E: Scalar>(x: Seq<E>, y: Seq<E>) -> bool {
    exists|two: E| is_constant(2u8, two) && #[trigger] each_powf(x, two, y)
}

/// `gx` holds, place by place, twice the element of `x`, multiplied by the
/// element of `gy`: the product `x[i] * 2` is formed first, then multiplied
/// by `gy[i]`.
pub open spec fn is_square_grad<E: Scalar>(x: Seq<E>, gy: Seq<E>, gx: Seq<E>) -> bool {
    exists|two: E, twice: Seq<E>|
        is_constant(2u8, two) && #[trigger] each_scaled(x, two, twice) && each_product(
            twice,
            gy,
            gx,
        )
}

impl<E: Scalar> Function<Array1<E>> for Square<Variable<Array1<E>>> {
    open spec fn bound(&self) -> Variable<Array1<E>> {
        self.input
    }

    open spec fn is_forward(&self, x: Array1<E>, y: Array1<E>) -> bool {
        is_square(x@, y@)
    }

    open spec fn accepts(&self, gy: Array1<E>) -> bool {
        gy@.len() == self.input.data@.len()
    }

    open spec fn is_backward(&self, gy: Array1<E>, gx: Array1<E>) -> bool {
        is_square_grad(self.input.data@, gy@, gx@)
    }

    fn new(input: Variable<Array1<E>>) -> (f: Self) {
        Square { input }
    }

    fn input(&self) -> (v: &Variable<Array1<E>>) {
        &self.input
    }

    fn forward(&self, x: &Array1<E>) -> (y: Array1<E>)
        ensures
            is_square(x@, y@),
    {
        let two = E::from_u8(2);
        x.pow(two)
    }

    fn backward(&self, gy: &Array1<E>) -> (r: Result<Array1<E>, ShapeMismatch>)
        ensures
            r is Ok <==> gy@.len() == self.input.data@.len(),
            r matches Ok(gx) ==> is_square_grad(self.input.data@, gy@, gx@),
            r matches Err(e) ==> e.expected == self.input.data@.len() && e.found == gy@.len(),
    {
        let x = &self.input().data;
        if gy.len() != x.len() {
            return Err(ShapeMismatch { expected: x.len(), found: gy.len() });
        }
        let two = E::from_u8(2);
        let twice = x.scale(two);
        twice.multiply(gy)
    }
}

/// Squaring keeps the shape: the output is as long as the input, and an
/// upstream gradient is accepted exactly when it is as long as the bound
/// input. An empty input therefore gives an empty output and an empty
/// gradient.
pub proof fn lemma_square_keeps_shape<E: Scalar>(
    f: Square<Variable<Array1<E>>>,
    x: Array1<E>,
    y: Array1<E>,
    gy: Array1<E>,
    gx: Array1<E>,
)
    ensures
        f.is_forward(x, y) ==> y@.len() == x@.len(),
        f.accepts(gy) <==> gy@.len() == f.bound().data@.len(),
        f.is_backward(gy, gx) ==> gx@.len() == f.bound().data@.len() && gx@.len() == gy@.len(),
{
}

/// Where the element type squares by multiplying, the output of squaring is
/// the input multiplied elementwise by itself.
pub proof fn lemma_square_is_self_product<E: Scalar>(
    f: Square<Variable<Array1<E>>>,
    x: Array1<E>,
    y: Array1<E>,
)
    requires
        squares_by_product::<E>(),
        f.is_forward(x, y),
    ensures
        each_product(x@, x@, y@),
{
    let two = choose|two: E| is_constant(2u8, two) && #[trigger] each_powf(x@, two, y@);
    assert forall|i: int| 0 <= i < x@.len() implies #[trigger] is_product(x@[i], x@[i], y@[i]) by {
        assert(is_powf(x@[i], two, y@[i]));
    }
}

/// With a pure element type, applying the operation twice to the same bound
/// input gives the same output both times: the same elements and no
/// gradient.
pub proof fn lemma_square_repeatable<E: Scalar>(
    f: Square<Variable<Array1<E>>>,
    first: Variable<Array1<E>>,
    second: Variable<Array1<E>>,
)
    requires
        is_pure::<E>(),
        f.is_forward(f.bound().data, first.data),
        first.grad is None,
        f.is_forward(f.bound().data, second.data),
        second.grad is None,
    ensures
        first.data@ == second.data@,
        first.grad == second.grad,
{
    let x = f.input.data@;
    let y1 = first.data@;
    let y2 = second.data@;
    let two1 = choose|two: E| is_constant(2u8, two) && #[trigger] each_powf(x, two, y1);
    let two2 = choose|two: E| is_constant(2u8, two) && #[trigger] each_powf(x, two, y2);
    assert(two1 == two2);
    assert forall|i: int| 0 <= i < x.len() implies y1[i] == y2[i] by {
        assert(is_powf(x[i], two1, y1[i]) && is_powf(x[i], two1, y2[i]));
    }
    assert(y1 =~= y2);
}

/// With a pure element type, the local gradient for a given bound input and
/// upstream gradient is one array.
pub proof fn lemma_square_grad_repeatable<E: Scalar>(
    f: Square<Variable<Array1<E>>>,
    gy: Array1<E>,
    first: Array1<E>,
    second: Array1<E>,
)
    requires
        is_pure::<E>(),
        f.is_backward(gy, first),
        f.is_backward(gy, second),
    ensures
        first@ == second@,
{
    let x = f.input.data@;
    let (two1, t1) = choose|two: E, twice: Seq<E>|
        is_constant(2u8, two) && #[trigger] each_scaled(x, two, twice) && each_product(
            twice,
            gy@,
            first@,
        );
    let (two2, t2) = choose|two: E, twice: Seq<E>|
        is_constant(2u8, two) && #[trigger] each_scaled(x, two, twice) && each_product(
            twice,
            gy@,
            second@,
        );
    assert(two1 == two2);
    assert forall|i: int| 0 <= i < x.len() implies t1[i] == t2[i] by {
        assert(is_product(x[i], two1, t1[i]) && is_product(x[i], two1, t2[i]));
    }
    assert(t1 =~= t2);
    assert forall|i: int| 0 <= i < x.len() implies first@[i] == second@[i] by {
        assert(is_product(t1[i], gy@[i], first@[i]) && is_product(t1[i], gy@[i], second@[i]));
    }
    assert(first@ =~= second@);
}

} // verus!
