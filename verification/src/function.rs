//! The contract that every differentiable operation meets.

use crate::array::ShapeMismatch;
use crate::variable::Variable;
use vstd::prelude::*;

verus! {

/// A differentiable unary operation, bound to the variable it is applied to.
///
/// An implementation supplies `forward` and `backward`, and says in
/// `is_forward` and `is_backward` which results they may return. `call` is
/// the same for every operation and is not meant to be overridden.
pub trait Function<T>: Sized {
    /// The variable that the operation is bound to.
    spec fn bound(&self) -> Variable<T>;

    /// `y` is a result of the operation on `x`.
    spec fn is_forward(&self, x: T, y: T) -> bool;

    /// `gy` has the shape of the operation's output.
    spec fn accepts(&self, gy: T) -> bool;

    /// `gx` is a local gradient at the bound input for the upstream gradient
    /// `gy`.
    spec fn is_backward(&self, gy: T, gx: T) -> bool;

    /// Binds the operation to `input`.
    fn new(input: Variable<T>) -> (f: Self)
        ensures
            f.bound() == input,
    ;

    /// The bound variable.
    fn input(&self) -> (v: &Variable<T>)
        ensures
            *v == self.bound(),
    ;

    /// The operation's output for the value `x`.
    fn forward(&self, x: &T) -> (y: T)
        ensures
            self.is_forward(*x, y),
    ;

    /// The local gradient with respect to the bound input, given the upstream
    /// gradient `gy`. Only the operation's own derivative rule is applied. A
    /// `gy` of another shape than the output is refused.
    fn backward(&self, gy: &T) -> (r: Result<T, ShapeMismatch>)
        ensures
            r is Ok <==> self.accepts(*gy),
            r matches Ok(gx) ==> self.is_backward(*gy, gx),
    ;

    /// Applies the operation to the bound input and wraps the result in a
    /// fresh variable, which has no gradient. The bound variable is read
    /// only.
    fn call(&self) -> (output: Variable<T>)
        ensures
            self.is_forward(self.bound().data, output.data),
            output.grad is None,
    {
        let x = &self.input().data;
        let data = self.forward(x);
        let output = Variable::new(data);
        output
    }
}

} // verus!
