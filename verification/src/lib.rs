//! A minimal differentiable-function primitive.
//!
//! A [`Variable`] pairs a value with an optional gradient. A [`Function`] is a
//! unary operation bound to one variable: it can be applied (forward pass) and,
//! given an upstream gradient, returns its local gradient (backward pass). No
//! computation graph is built or walked.
//!
//! The element type of an array is any [`Scalar`]. The contracts do not reason
//! about the numbers themselves: each says which scalar operation produced
//! which element, and from which operands.

pub mod array;
pub mod exp;
pub mod function;
pub mod math;
pub mod scalar;
pub mod square;
pub mod variable;

pub use array::{Array1, ShapeMismatch};
pub use exp::Exp;
pub use function::Function;
pub use math::MathFunc;
pub use scalar::Scalar;
pub use square::Square;
pub use variable::Variable;
