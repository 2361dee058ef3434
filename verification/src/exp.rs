//! The exponential operation.

use crate::array::{Array1, ShapeMismatch};
use crate::function::Function;
use crate::math::{each_exp, each_product, MathFunc};
use crate::scalar::{is_exp, is_product, is_pure, Scalar};
use crate::variable::Variable;
use vstd::prelude::*;

verus! {

/// Replaces each element of its input by its exponential. Its derivative is
/// the exponential itself.
#[derive(Debug)]
pub struct Exp<T> {
    /// The variable that the operation is bound to.
    pub input: T,
}

/// `gx` holds, place by place, the exponential of the element of `x`,
/// multiplied by the element of `gy`.
pub open spec fn is_exp_grad<E: Scalar>(x: Seq<E>, gy: Seq<E>, gx: Seq<E>) -> bool {
    exists|ex: Seq<E>| #[trigger] each_exp(x, ex) && each_product(ex, gy, gx)
}

impl<E: Scalar> Function<Array1<E>> for Exp<Variable<Array1<E>>> {
    open spec fn bound(&self) -> Variable<Array1<E>> {
        self.input
    }

    open spec fn is_forward(&self, x: Array1<E>, y: Array1<E>) -> bool {
        each_exp(x@, y@)
    }

    open spec fn accepts(&self, gy: Array1<E>) -> bool {
        gy@.len() == self.input.data@.len()
    }

    open spec fn is_backward(&self, gy: Array1<E>, gx: Array1<E>) -> bool {
        is_exp_grad(self.input.data@, gy@, gx@)
    }

    fn new(input: Variable<Array1<E>>) -> (f: Self) {
        Exp { input }
    }

    fn input(&self) -> (v: &Variable<Array1<E>>) {
        &self.input
    }

    fn forward(&self, x: &Array1<E>) -> (y: Array1<E>)
        ensures
            each_exp(x@, y@),
    {
        x.exp()
    }

    fn backward(&self, gy: &Array1<E>) -> (r: Result<Array1<E>, ShapeMismatch>)
        ensures
            r is Ok <==> gy@.len() == self.input.data@.len(),
            r matches Ok(gx) ==> is_exp_grad(self.input.data@, gy@, gx@),
            r matches Err(e) ==> e.expected == self.input.data@.len() && e.found == gy@.len(),
    {
        let x = &self.input().data;
        if gy.len() != x.len() {
            return Err(ShapeMismatch { expected: x.len(), found: gy.len() });
        }
        let ex = x.exp();
        ex.multiply(gy)
    }
}

/// The exponential keeps the shape: the output is as long as the input, and
/// an upstream gradient is accepted exactly when it is as long as the bound
/// input. An empty input therefore gives an empty output and an empty
/// gradient.
pub proof fn lemma_exp_keeps_shape<E: Scalar>(
    f: Exp<Variable<Array1<E>>>,
    x: Array1<E>,
    y: Array1<E>,
    gy: Array1<E>,
    gx: Array1<E>,
)
    ensures
        f.is_forward(x, y) ==> y@.len() == x@.len(),
        f.accepts(gy) <==> gy@.len() == f.bound().data@.len(),
        f.is_backward(gy, gx) ==> gx@.len() == f.bound().data@.len() && gx@.len() == gy@.len(),
{
}

/// With a pure element type, applying the operation twice to the same bound
/// input gives the same output both times: the same elements and no
/// gradient.
pub proof fn lemma_exp_repeatable<E: Scalar>(
    f: Exp<Variable<Array1<E>>>,
    first: Variable<Array1<E>>,
    second: Variable<Array1<E>>,
)
    requires
        is_pure::<E>(),
        f.is_forward(f.bound().data, first.data),
        first.grad is None,
        f.is_forward(f.bound().data, second.data),
        second.grad is None,
    ensures
        first.data@ == second.data@,
        first.grad == second.grad,
{
    let x = f.input.data@;
    assert forall|i: int| 0 <= i < x.len() implies first.data@[i] == second.data@[i] by {
        assert(is_exp(x[i], first.data@[i]) && is_exp(x[i], second.data@[i]));
    }
    assert(first.data@ =~= second.data@);
}

/// With a pure element type, the local gradient for a given bound input and
/// upstream gradient is one array.
pub proof fn lemma_exp_grad_repeatable<E: Scalar>(
    f: Exp<Variable<Array1<E>>>,
    gy: Array1<E>,
    first: Array1<E>,
    second: Array1<E>,
)
    requires
        is_pure::<E>(),
        f.is_backward(gy, first),
        f.is_backward(gy, second),
    ensures
        first@ == second@,
{
    let x = f.input.data@;
    let e1 = choose|ex: Seq<E>| #[trigger] each_exp(x, ex) && each_product(ex, gy@, first@);
    let e2 = choose|ex: Seq<E>| #[trigger] each_exp(x, ex) && each_product(ex, gy@, second@);
    assert forall|i: int| 0 <= i < x.len() implies e1[i] == e2[i] by {
        assert(is_exp(x[i], e1[i]) && is_exp(x[i], e2[i]));
    }
    assert(e1 =~= e2);
    assert forall|i: int| 0 <= i < x.len() implies first@[i] == second@[i] by {
        assert(is_product(e1[i], gy@[i], first@[i]) && is_product(e1[i], gy@[i], second@[i]));
    }
    assert(first@ =~= second@);
}

} // verus!
