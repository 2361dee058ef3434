use num_traits::Float;
use unigrad::{Array1, Exp, Function, MathFunc, Scalar, Square, Variable};

#[derive(Debug, Clone, Copy, PartialEq)]
struct Real(f32);

impl Scalar for Real {
    fn exp(self) -> Self {
        Real(Float::exp(self.0))
    }

    fn powf(self, p: Self) -> Self {
        Real(Float::powf(self.0, p.0))
    }

    fn times(self, rhs: Self) -> Self {
        Real(self.0 * rhs.0)
    }

    fn from_u8(n: u8) -> Self {
        Real(f32::from(n))
    }
}

fn array(values: &[f32]) -> Array1<Real> {
    Array1::from_vec(values.iter().map(|v| Real(*v)).collect())
}

fn values(a: &Array1<Real>) -> Vec<f32> {
    a.to_vec().iter().map(|r| r.0).collect()
}

#[test]
fn square_of_ten_and_its_gradient() {
    let x = Variable::new(array(&[10.0]));
    let mut f = Square::new(x);
    let y = f.call();
    assert_eq!(values(&y.data), vec![100.0]);
    assert!(y.grad.is_none());

    let gx = f.backward(&array(&[1.0])).unwrap();
    assert_eq!(values(&gx), vec![20.0]);

    assert_eq!(f.input.set_grad(gx), Ok(()));
    assert_eq!(f.input.grad, Some(array(&[20.0])));
    assert_eq!(values(&f.input.data), vec![10.0]);
}

#[test]
fn exp_of_ten_and_its_gradient() {
    let x = Variable::new(array(&[10.0]));
    let f = Exp::new(x);
    let y = f.call();
    let e10 = 10.0_f32.exp();
    assert_eq!(values(&y.data), vec![e10]);
    assert!((y.data.get(0).unwrap().0 - 22026.4658).abs() < 0.01);

    let gx = f.backward(&array(&[1.0])).unwrap();
    assert_eq!(values(&gx), vec![e10]);
}

#[test]
fn pow_and_exp_on_arrays() {
    let p = array(&[1.0, 2.0]).pow(Real(2.0));
    assert_eq!(values(&p), vec![1.0, 4.0]);
    let e = array(&[0.0]).exp();
    assert_eq!(values(&e), vec![1.0]);
}

#[test]
fn empty_input_gives_empty_output() {
    let empty: [f32; 0] = [];
    let square = Square::new(Variable::new(array(&empty)));
    assert_eq!(square.call().data.len(), 0);
    assert_eq!(square.forward(&array(&empty)).len(), 0);
    assert_eq!(square.backward(&array(&empty)).unwrap().len(), 0);

    let exp = Exp::new(Variable::new(array(&empty)));
    assert_eq!(exp.call().data.len(), 0);
    assert_eq!(exp.forward(&array(&empty)).len(), 0);
    assert_eq!(exp.backward(&array(&empty)).unwrap().len(), 0);
}
