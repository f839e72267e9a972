use burn_core::backend::{Activation, Backend};
use burn_core::graph::Graph;
use burn_core::tensor::DualTensor;

/// A dense matrix of 32-bit floats, row-major.
struct FloatMatrix {
    rows: usize,
    cols: usize,
    data: Vec<f32>,
}

impl FloatMatrix {
    fn from(values: [[f32; 2]; 2]) -> Self {
        let mut data = Vec::new();
        for row in values.iter() {
            for v in row.iter() {
                data.push(*v);
            }
        }
        FloatMatrix { rows: 2, cols: 2, data }
    }

    fn at(&self, i: usize, j: usize) -> f32 {
        let i = if self.rows == 1 { 0 } else { i };
        let j = if self.cols == 1 { 0 } else { j };
        self.data[i * self.cols + j]
    }

    fn build(rows: usize, cols: usize, f: impl Fn(usize, usize) -> f32) -> Self {
        let mut data = Vec::with_capacity(rows * cols);
        for i in 0..rows {
            for j in 0..cols {
                data.push(f(i, j));
            }
        }
        FloatMatrix { rows, cols, data }
    }

    fn zip(&self, rhs: &Self, f: impl Fn(f32, f32) -> f32) -> Option<Self> {
        let rows = extent(self.rows, rhs.rows)?;
        let cols = extent(self.cols, rhs.cols)?;
        Some(Self::build(rows, cols, |i, j| f(self.at(i, j), rhs.at(i, j))))
    }

    fn assert_approx_eq(&self, expected: [[f32; 2]; 2], precision: i32) {
        let tolerance = 0.1f32.powi(precision);
        assert_eq!((self.rows, self.cols), (2, 2));
        for i in 0..2 {
            for j in 0..2 {
                let got = self.data[i * 2 + j];
                assert!(
                    (got - expected[i][j]).abs() <= tolerance,
                    "element ({}, {}): {} is not close to {}",
                    i,
                    j,
                    got,
                    expected[i][j]
                );
            }
        }
    }
}

fn extent(a: usize, b: usize) -> Option<usize> {
    if a == b || b == 1 {
        Some(a)
    } else if a == 1 {
        Some(b)
    } else {
        None
    }
}

impl Backend for FloatMatrix {
    type Model = ();

    fn duplicate(&self) -> Self {
        FloatMatrix { rows: self.rows, cols: self.cols, data: self.data.clone() }
    }

    fn shape(&self) -> Vec<usize> {
        vec![self.rows, self.cols]
    }

    fn ones_like(&self) -> Self {
        Self::build(self.rows, self.cols, |_, _| 1.0)
    }

    fn add(&self, rhs: &Self) -> Option<Self> {
        self.zip(rhs, |x, y| x + y)
    }

    fn sub(&self, rhs: &Self) -> Option<Self> {
        self.zip(rhs, |x, y| x - y)
    }

    fn mul(&self, rhs: &Self) -> Option<Self> {
        self.zip(rhs, |x, y| x * y)
    }

    fn matmul(&self, rhs: &Self) -> Option<Self> {
        if self.cols != rhs.rows {
            return None;
        }
        Some(Self::build(self.rows, rhs.cols, |i, j| {
            let mut acc = 0.0;
            for k in 0..self.cols {
                acc += self.data[i * self.cols + k] * rhs.data[k * rhs.cols + j];
            }
            acc
        }))
    }

    fn transpose(&self) -> Option<Self> {
        Some(Self::build(self.cols, self.rows, |i, j| self.data[j * self.cols + i]))
    }

    fn sum_to_shape(&self, dims: &Vec<usize>) -> Option<Self> {
        if dims.len() != 2 {
            return None;
        }
        let (rows, cols) = (dims[0], dims[1]);
        if (rows != self.rows && rows != 1) || (cols != self.cols && cols != 1) {
            return None;
        }
        Some(Self::build(rows, cols, |i, j| {
            let mut acc = 0.0;
            for r in 0..self.rows {
                for c in 0..self.cols {
                    if (rows == self.rows && r != i) || (cols == self.cols && c != j) {
                        continue;
                    }
                    acc += self.data[r * self.cols + c];
                }
            }
            acc
        }))
    }
}

impl Activation for FloatMatrix {
    fn tanh(&self) -> Self {
        Self::build(self.rows, self.cols, |i, j| self.data[i * self.cols + j].tanh())
    }
}

#[test]
fn should_diff_tanh() {
    let data_1 = FloatMatrix::from([[0.0, 1.0], [3.0, 4.0]]);
    let data_2 = FloatMatrix::from([[6.0, 7.0], [9.0, 10.0]]);

    let mut graph = Graph::new();
    let tensor_1 = graph.require_grad(DualTensor::new(data_1));
    let tensor_2 = graph.require_grad(DualTensor::new(data_2));

    let tanh_2 = graph.tanh(&tensor_2.clone()).unwrap();
    let tensor_3 = graph.matmul(&tensor_1.clone(), &tanh_2).unwrap();
    let tensor_4 = graph.matmul(&tensor_3, &tensor_2.clone()).unwrap();
    let grads = graph.backward(&tensor_4).unwrap();

    let grad_1 = tensor_1.grad(&grads).unwrap();
    let grad_2 = tensor_2.grad(&grads).unwrap();

    grad_1.assert_approx_eq([[32.0, 32.0], [32.0, 32.0]], 3);
    grad_2.assert_approx_eq([[8.00092, 8.000153], [8.000003, 7.999995]], 3);
}

#[test]
fn tanh_of_a_constant_records_nothing() {
    let mut graph = Graph::new();
    let constant = DualTensor::new(FloatMatrix::from([[0.0, 1.0], [3.0, 4.0]]));
    let out = graph.tanh(&constant).unwrap();
    assert!(out.node.is_none());
    assert_eq!(graph.len(), 0);
    assert!((out.primitive.data[1] - 0.7615942).abs() < 1e-6);
    let grads = graph.backward(&out).unwrap();
    assert!(constant.grad(&grads).is_none());
    assert!(out.grad(&grads).is_none());
}

#[test]
fn tanh_backward_is_one_minus_square() {
    let mut graph = Graph::new();
    let x = graph.require_grad(DualTensor::new(FloatMatrix::from([[0.0, 0.5], [-1.0, 2.0]])));
    let y = graph.tanh(&x).unwrap();
    let values: Vec<f32> = y.primitive.data.clone();
    let grads = graph.backward(&y).unwrap();
    let grad = x.grad(&grads).unwrap();
    for k in 0..4 {
        let expected = 1.0 - values[k] * values[k];
        assert!((grad.data[k] - expected).abs() < 1e-6);
    }
    assert!((grad.data[0] - 1.0).abs() < 1e-6);
}

/// The sum of the elements of what `op` makes of `a` and `b`.
fn objective(
    op: &dyn Fn(&mut Graph<FloatMatrix>, &DualTensor<FloatMatrix>, &DualTensor<FloatMatrix>) -> DualTensor<FloatMatrix>,
    a: &FloatMatrix,
    b: &FloatMatrix,
) -> f64 {
    let mut graph = Graph::new();
    let a = DualTensor::new(a.duplicate());
    let b = DualTensor::new(b.duplicate());
    let out = op(&mut graph, &a, &b);
    out.primitive.data.iter().map(|v| *v as f64).sum()
}

/// Holds the gradients that the engine gives for both operands of `op`
/// against central differences of the summed result.
fn assert_matches_finite_differences(
    op: &dyn Fn(&mut Graph<FloatMatrix>, &DualTensor<FloatMatrix>, &DualTensor<FloatMatrix>) -> DualTensor<FloatMatrix>,
    a: FloatMatrix,
    b: FloatMatrix,
) {
    let mut graph = Graph::new();
    let ta = graph.require_grad(DualTensor::new(a.duplicate()));
    let tb = graph.require_grad(DualTensor::new(b.duplicate()));
    let out = op(&mut graph, &ta, &tb);
    let grads = graph.backward(&out).unwrap();
    let h = 1e-2f32;
    for (which, tensor) in [&ta, &tb].iter().enumerate() {
        let grad = match tensor.grad(&grads) {
            Some(g) => g.duplicate(),
            None => continue,
        };
        let base = if which == 0 { &a } else { &b };
        assert_eq!((grad.rows, grad.cols), (base.rows, base.cols));
        for k in 0..base.data.len() {
            let mut up = base.duplicate();
            up.data[k] += h;
            let mut down = base.duplicate();
            down.data[k] -= h;
            let (fu, fd) = if which == 0 {
                (objective(op, &up, &b), objective(op, &down, &b))
            } else {
                (objective(op, &a, &up), objective(op, &a, &down))
            };
            let numeric = (fu - fd) / (2.0 * h as f64);
            let analytic = grad.data[k] as f64;
            let tolerance = 1e-3 * (1.0 + numeric.abs());
            assert!(
                (numeric - analytic).abs() <= tolerance,
                "operand {} element {}: engine {} against differences {}",
                which,
                k,
                analytic,
                numeric
            );
        }
    }
}

fn sample_a() -> FloatMatrix {
    FloatMatrix::from([[0.5, -1.25], [2.0, 0.75]])
}

fn sample_b() -> FloatMatrix {
    FloatMatrix::from([[-0.5, 1.5], [0.25, -2.0]])
}

fn sample_row() -> FloatMatrix {
    FloatMatrix { rows: 1, cols: 2, data: vec![0.75, -1.5] }
}

#[test]
fn sum_matches_finite_differences() {
    assert_matches_finite_differences(&|g, a, b| g.add(a, b).unwrap(), sample_a(), sample_b());
    assert_matches_finite_differences(&|g, a, b| g.add(a, b).unwrap(), sample_a(), sample_row());
}

#[test]
fn product_matches_finite_differences() {
    assert_matches_finite_differences(&|g, a, b| g.mul(a, b).unwrap(), sample_a(), sample_b());
    assert_matches_finite_differences(&|g, a, b| g.mul(a, b).unwrap(), sample_row(), sample_a());
}

#[test]
fn matrix_product_matches_finite_differences() {
    assert_matches_finite_differences(&|g, a, b| g.matmul(a, b).unwrap(), sample_a(), sample_b());
    assert_matches_finite_differences(&|g, a, b| g.matmul(a, b).unwrap(), sample_row(), sample_a());
}

#[test]
fn tanh_matches_finite_differences() {
    assert_matches_finite_differences(&|g, a, _| g.tanh(a).unwrap(), sample_a(), sample_b());
}

#[test]
fn a_composition_matches_finite_differences() {
    assert_matches_finite_differences(
        &|g, a, b| {
            let t = g.tanh(b).unwrap();
            let m = g.matmul(a, &t).unwrap();
            let s = g.add(&m, a).unwrap();
            g.mul(&s, b).unwrap()
        },
        sample_a(),
        sample_b(),
    );
}

#[test]
fn float_broadcast_sum_gives_twos_to_the_smaller_operand() {
    let mut graph = Graph::new();
    let large = graph.require_grad(DualTensor::new(sample_a()));
    let small = graph.require_grad(DualTensor::new(sample_row()));
    let sum = graph.add(&large, &small).unwrap();
    let grads = graph.backward(&sum).unwrap();
    let grad = small.grad(&grads).unwrap();
    assert_eq!((grad.rows, grad.cols), (1, 2));
    assert_eq!(grad.data, vec![2.0, 2.0]);
}
