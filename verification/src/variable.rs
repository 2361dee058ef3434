//! The value container.

use crate::array::{Array1, ShapeMismatch};
use vstd::prelude::*;

verus! {

/// A value that flows through a computation, with the gradient that a
/// backward pass has stored for it, if any.
#[derive(Debug, Copy, PartialEq)]
pub struct Variable<T> {
    /// The value.
    pub data: T,
    /// The gradient with respect to the value; absent until one is stored.
    pub grad: Option<T>,
}

impl<T> Variable<T> {
    /// Wraps `data`. The new variable has no gradient.
    pub fn new(data: T) -> (v: Self)
        ensures
            v.data == data,
            v.grad is None,
    {
        let grad: Option<T> = None;
        Variable { data, grad }
    }
}

impl<T: Clone> Clone for Variable<T> {
    /// A variable whose value and gradient are clones of this one's.
    fn clone(&self) -> (v: Self)
        ensures
            cloned(self.data, v.data),
            self.grad is None <==> v.grad is None,
            self.grad is Some ==> cloned(self.grad->Some_0, v.grad->Some_0),
    {
        let grad = match &self.grad {
            Some(g) => Some(g.clone()),
            None => None,
        };
        Variable { data: self.data.clone(), grad }
    }
}

impl<E: Copy> Variable<Array1<E>> {
    /// A gradient, when present, has the shape of the value.
    pub open spec fn well_formed(&self) -> bool {
        self.grad matches Some(g) ==> g@.len() == self.data@.len()
    }

    /// Stores `grad` as the gradient, replacing an earlier one. A gradient
    /// whose length differs from that of the value is refused, and the
    /// variable stays as it was.
    pub fn set_grad(&mut self, grad: Array1<E>) -> (r: Result<(), ShapeMismatch>)
        ensures
            final(self).data == old(self).data,
            r is Ok <==> grad@.len() == old(self).data@.len(),
            r is Ok ==> final(self).grad == Some(grad) && final(self).well_formed(),
            r is Err ==> final(self).grad == old(self).grad,
            r matches Err(e) ==> e.expected == old(self).data@.len() && e.found == grad@.len(),
    {
        let expected = self.data.len();
        let found = grad.len();
        if found != expected {
            return Err(ShapeMismatch { expected, found });
        }
        self.grad = Some(grad);
        Ok(())
    }
}

/// A variable without a gradient is well formed; so is every variable that
/// `new` or an operation's `call` returns.
pub proof fn lemma_without_gradient_well_formed<E: Copy>(v: Variable<Array1<E>>)
    requires
        v.grad is None,
    ensures
        v.well_formed(),
{
}

} // verus!
