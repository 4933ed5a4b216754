use lazy_tensor::definitions::NumberLike;
use lazy_tensor::ops::impl_compute_op::{
    compute_run, compute_scalar_op, cpu_compute_op, BinaryKind, ComputeWrapperSpec, OpKind,
    OpScalarKind, RunKernels,
};
use lazy_tensor::storage::DenseData;
use lazy_tensor::tensor::Tensor;
use lazy_tensor::traits::Dimension;

#[derive(Clone, Copy, Debug, PartialEq)]
struct Real(f64);

impl NumberLike for Real {
    fn plus_spec(self, rhs: Self) -> Self {
        Real(self.0 + rhs.0)
    }

    fn minus_spec(self, rhs: Self) -> Self {
        Real(self.0 - rhs.0)
    }

    fn times_spec(self, rhs: Self) -> Self {
        Real(self.0 * rhs.0)
    }

    fn over_spec(self, rhs: Self) -> Self {
        Real(self.0 / rhs.0)
    }

    fn negated_spec(self) -> Self {
        Real(-self.0)
    }

    fn plus(self, rhs: Self) -> Self {
        Real(self.0 + rhs.0)
    }

    fn minus(self, rhs: Self) -> Self {
        Real(self.0 - rhs.0)
    }

    fn times(self, rhs: Self) -> Self {
        Real(self.0 * rhs.0)
    }

    fn over(self, rhs: Self) -> Self {
        Real(self.0 / rhs.0)
    }

    fn negated(self) -> Self {
        Real(-self.0)
    }
}

impl RunKernels for Real {
    fn scalar_run(op: &OpScalarKind<Real>, input: Vec<Real>) -> Vec<Real> {
        compute_scalar_op(op, input)
    }

    fn combine_run(kind: BinaryKind, output: &mut Vec<Real>, at: usize, chunk: &Vec<Real>) {
        compute_run(kind, output, at, chunk)
    }
}

impl ComputeWrapperSpec for Real {
    fn compute_for_type(op: &OpKind<Real>, inputs: Vec<DenseData<Real>>) -> Option<DenseData<Real>> {
        cpu_compute_op(op, inputs)
    }
}

fn tensor(values: &[f64], shape: &[i32]) -> Tensor<Real> {
    Tensor::from_vec(values.iter().map(|x| Real(*x)).collect(), shape)
}

fn values(t: &Tensor<Real>) -> Vec<f64> {
    t.to_vec().unwrap().into_iter().map(|x| x.0).collect()
}

#[test]
fn twenty_float_additions_and_a_doubling() {
    let t = tensor(&(0..12).map(|k| k as f64).collect::<Vec<f64>>(), &[12]);
    let mut p = t.as_promise();
    for i in 0..20 {
        p = p + Real(i as f64);
    }
    let out = (p * Real(2.0)).materialize().unwrap();
    let expected: Vec<f64> = (0..12).map(|k| (k as f64 + 190.0) * 2.0).collect();
    assert_eq!(values(&out), expected);
    assert_eq!(expected[0], 380.0);
    assert_eq!(expected[1], 382.0);
    assert_eq!(expected[11], 402.0);
}

#[test]
fn ten_added_to_a_float_tensor() {
    let t = tensor(&[1.0, 2.0, 3.0, 4.0], &[2, 2]);
    assert_eq!(t.stride(), &[2, 1]);
    assert_eq!(t.adj_stride(), &[1, 1]);
    let out = (&t + Real(10.0)).materialize().unwrap();
    assert_eq!(values(&out), vec![11.0, 12.0, 13.0, 14.0]);
    assert_eq!(out.shape(), &[2, 2]);
}

#[test]
fn float_ones_scaled_and_added() {
    let a = Tensor::from_scalar(Real(1.0), &[4, 4]);
    let b = Tensor::from_scalar(Real(1.0), &[4, 4]);
    let out = (&a * Real(2.0) + &b).materialize().unwrap();
    assert_eq!(values(&out), vec![3.0; 16]);
}

#[test]
fn fused_float_chain_is_within_tolerance_of_the_unfused() {
    let x: Vec<f64> = vec![-3.5, 0.0, 0.125, 7.75, 1.0e3, 1.0 / 3.0];
    let ops = [
        OpScalarKind::Sum(Real(1.5)),
        OpScalarKind::Sub(Real(0.1)),
        OpScalarKind::Mul(Real(3.0)),
        OpScalarKind::Div(Real(7.0)),
        OpScalarKind::Div(Real(0.3)),
        OpScalarKind::Mul(Real(1.1)),
        OpScalarKind::Sub(Real(2.25)),
        OpScalarKind::Sub(Real(0.7)),
        OpScalarKind::Sum(Real(1.0e-3)),
    ];
    let mut unfused = x.clone();
    for op in ops.iter() {
        for el in unfused.iter_mut() {
            *el = match op {
                OpScalarKind::Sum(s) => *el + s.0,
                OpScalarKind::Sub(s) => *el - s.0,
                OpScalarKind::Mul(s) => *el * s.0,
                OpScalarKind::Div(s) => *el / s.0,
            };
        }
    }
    let t = tensor(&x, &[6]);
    let mut p = t.as_promise();
    for op in ops.iter() {
        p = match op {
            OpScalarKind::Sum(s) => p + *s,
            OpScalarKind::Sub(s) => p - *s,
            OpScalarKind::Mul(s) => p * *s,
            OpScalarKind::Div(s) => p / *s,
        };
    }
    match &p.graph.op {
        OpKind::FusedScalar(chain) => assert_eq!(chain.len(), 3),
        other => panic!("unexpected root {:?}", other),
    }
    let fused = values(&p.materialize().unwrap());
    assert_eq!(fused.len(), unfused.len());
    for (a, b) in fused.iter().zip(unfused.iter()) {
        assert!((a - b).abs() <= 1e-12 * b.abs().max(1.0), "{} and {} differ", a, b);
    }
}

#[test]
fn float_operators_by_value_and_by_reference_agree() {
    let a = tensor(&[1.5, 2.5], &[2]);
    let b = tensor(&[0.25, 4.0], &[2]);
    let sums = [
        values(&(&a + &b).materialize().unwrap()),
        values(&(a.clone_reference() + &b).materialize().unwrap()),
        values(&(&a + b.clone_reference()).materialize().unwrap()),
        values(&(a.clone_reference() + b.clone_reference()).materialize().unwrap()),
    ];
    for sum in sums.iter() {
        assert_eq!(sum, &vec![1.75, 6.5]);
    }
    let differences = [
        values(&(&a - &b).materialize().unwrap()),
        values(&(a.clone_reference() - &b).materialize().unwrap()),
        values(&(&a - b.clone_reference()).materialize().unwrap()),
        values(&(a - b).materialize().unwrap()),
    ];
    for difference in differences.iter() {
        assert_eq!(difference, &vec![1.25, -1.5]);
    }
}
