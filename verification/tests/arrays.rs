use num_traits::Float;
use unigrad::{Array1, MathFunc, Scalar, ShapeMismatch, Variable};

#[derive(Debug, Clone, Copy, PartialEq)]
struct Real(f32);

impl Scalar for Real {
    fn exp(self) -> Self {
        Real(Float::exp(self.0))
    }

    fn powf(self, p: Self) -> Self {
        Real(Float::powf(self.0, p.0))
    }

    fn times(self, rhs: Self) -> Self {
        Real(self.0 * rhs.0)
    }

    fn from_u8(n: u8) -> Self {
        Real(f32::from(n))
    }
}

fn array(values: &[f32]) -> Array1<Real> {
    Array1::from_vec(values.iter().map(|v| Real(*v)).collect())
}

fn values(a: &Array1<Real>) -> Vec<f32> {
    a.to_vec().iter().map(|r| r.0).collect()
}

#[test]
fn from_vec_and_to_vec_keep_the_elements_in_order() {
    let a = Array1::from_vec(vec![3u8, 1, 2]);
    assert_eq!(a.to_vec(), vec![3u8, 1, 2]);
    let empty: Array1<u8> = Array1::from_vec(Vec::new());
    assert_eq!(empty.to_vec(), Vec::<u8>::new());
}

#[test]
fn len_counts_the_elements() {
    assert_eq!(Array1::from_vec(vec![7u8, 8, 9]).len(), 3);
    assert_eq!(Array1::<u8>::from_vec(Vec::new()).len(), 0);
}

#[test]
fn get_returns_the_element_or_nothing() {
    let a = Array1::from_vec(vec![7u8, 8, 9]);
    assert_eq!(a.get(0), Some(7));
    assert_eq!(a.get(2), Some(9));
    assert_eq!(a.get(3), None);
    assert_eq!(Array1::<u8>::from_vec(Vec::new()).get(0), None);
}

#[test]
fn map_applies_the_function_to_each_element() {
    let a = Array1::from_vec(vec![1u32, 2, 3]);
    let doubled = a.map(|v| u64::from(v) * 2);
    assert_eq!(doubled.to_vec(), vec![2u64, 4, 6]);
    assert_eq!(a.to_vec(), vec![1u32, 2, 3]);
}

#[test]
fn zip_with_pairs_elements_at_the_same_place() {
    let a = Array1::from_vec(vec![10u32, 20, 30]);
    let b = Array1::from_vec(vec![1u32, 2, 3]);
    let diff = a.zip_with(&b, |x, y| x - y).unwrap();
    assert_eq!(diff.to_vec(), vec![9u32, 18, 27]);
}

#[test]
fn zip_with_refuses_arrays_of_different_lengths() {
    let a = Array1::from_vec(vec![10u32, 20, 30]);
    let b = Array1::from_vec(vec![1u32]);
    let r = a.zip_with(&b, |x, y| x + y);
    assert_eq!(r, Err(ShapeMismatch { expected: 3, found: 1 }));
    let r = b.zip_with(&a, |x, y| x + y);
    assert_eq!(r, Err(ShapeMismatch { expected: 1, found: 3 }));
}

#[test]
fn clone_gives_an_equal_array() {
    let a = array(&[1.5, -2.0]);
    let b = a.clone();
    assert_eq!(a, b);
    assert_eq!(values(&b), vec![1.5, -2.0]);
}

#[test]
fn exp_replaces_each_element_by_its_exponential() {
    let x = array(&[0.0, 1.0, -2.5]);
    let y = x.exp();
    assert_eq!(values(&y), vec![1.0, 1.0_f32.exp(), (-2.5_f32).exp()]);
    assert_eq!(values(&x), vec![0.0, 1.0, -2.5]);
}

#[test]
fn pow_raises_each_element_to_the_exponent() {
    let x = array(&[1.0, 2.0, 3.0]);
    assert_eq!(values(&x.pow(Real(2.0))), vec![1.0, 4.0, 9.0]);
    assert_eq!(values(&x.pow(Real(3.0))), vec![1.0, 8.0, 27.0]);
    assert_eq!(values(&x.pow(Real(0.0))), vec![1.0, 1.0, 1.0]);
    assert_eq!(values(&x), vec![1.0, 2.0, 3.0]);
}

#[test]
fn scale_multiplies_each_element_by_the_factor() {
    let x = array(&[1.0, -2.0, 0.5]);
    assert_eq!(values(&x.scale(Real(4.0))), vec![4.0, -8.0, 2.0]);
}

#[test]
fn multiply_is_the_elementwise_product() {
    let x = array(&[1.0, -2.0, 0.5]);
    let y = array(&[3.0, 3.0, 8.0]);
    assert_eq!(values(&x.multiply(&y).unwrap()), vec![3.0, -6.0, 4.0]);
}

#[test]
fn multiply_refuses_arrays_of_different_lengths() {
    let x = array(&[1.0, -2.0]);
    let y = array(&[3.0]);
    assert_eq!(x.multiply(&y), Err(ShapeMismatch { expected: 2, found: 1 }));
    let empty: [f32; 0] = [];
    assert_eq!(x.multiply(&array(&empty)), Err(ShapeMismatch { expected: 2, found: 0 }));
}

#[test]
fn new_variable_has_no_gradient() {
    let x = Variable::new(array(&[1.0]));
    assert_eq!(values(&x.data), vec![1.0]);
    assert_eq!(x.grad, None);
    let n = Variable::new(5u8);
    assert_eq!(n.data, 5);
    assert_eq!(n.grad, None);
}

#[test]
fn set_grad_stores_a_gradient_of_the_same_length() {
    let mut x = Variable::new(array(&[1.0, 2.0]));
    assert_eq!(x.set_grad(array(&[0.5, 0.25])), Ok(()));
    assert_eq!(x.grad, Some(array(&[0.5, 0.25])));
    assert_eq!(values(&x.data), vec![1.0, 2.0]);
    assert_eq!(x.set_grad(array(&[7.0, 8.0])), Ok(()));
    assert_eq!(x.grad, Some(array(&[7.0, 8.0])));
}

#[test]
fn set_grad_refuses_a_gradient_of_another_length() {
    let mut x = Variable::new(array(&[1.0, 2.0]));
    assert_eq!(x.set_grad(array(&[0.5])), Err(ShapeMismatch { expected: 2, found: 1 }));
    assert_eq!(x.grad, None);
    assert_eq!(x.set_grad(array(&[0.5, 0.25])), Ok(()));
    assert_eq!(
        x.set_grad(array(&[1.0, 2.0, 3.0])),
        Err(ShapeMismatch { expected: 2, found: 3 })
    );
    assert_eq!(x.grad, Some(array(&[0.5, 0.25])));
    assert_eq!(values(&x.data), vec![1.0, 2.0]);
}

#[test]
fn cloned_variable_equals_its_source() {
    let mut x = Variable::new(array(&[1.0, 2.0]));
    assert_eq!(x.clone(), x);
    x.set_grad(array(&[3.0, 4.0])).unwrap();
    let y = x.clone();
    assert_eq!(y, x);
    assert_eq!(y.grad, Some(array(&[3.0, 4.0])));
}
