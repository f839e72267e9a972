use vstd::prelude::*;

verus! {

/// The tensor operations that the engine asks of a numeric backend.
///
/// Every tensor has a mathematical value, its model. Each operation has a spec
/// function over models that says what it returns, and `None` where the
/// operation is not defined on its operands (shapes that do not fit, or a
/// result that the backend cannot represent). The engine is proved against
/// these spec functions alone.
///
/// The spec functions have bodies only so that an implementation written
/// without the verifier need not name them; a verified backend overrides
/// every one of them.
pub trait Backend: Sized {
    /// The mathematical value of a tensor.
    type Model;

    /// The value of this tensor.
    open spec fn model(&self) -> Self::Model {
        arbitrary()
    }

    /// The extent of each dimension.
    open spec fn dims(m: Self::Model) -> Seq<usize> {
        arbitrary()
    }

    /// The tensor of the same shape whose elements are all one.
    open spec fn ones(m: Self::Model) -> Self::Model {
        arbitrary()
    }

    /// The elementwise sum, with broadcasting.
    open spec fn sum(a: Self::Model, b: Self::Model) -> Option<Self::Model> {
        arbitrary()
    }

    /// The elementwise difference, with broadcasting.
    open spec fn difference(a: Self::Model, b: Self::Model) -> Option<Self::Model> {
        arbitrary()
    }

    /// The elementwise product, with broadcasting.
    open spec fn product(a: Self::Model, b: Self::Model) -> Option<Self::Model> {
        arbitrary()
    }

    /// The matrix product.
    open spec fn matrix_product(a: Self::Model, b: Self::Model) -> Option<Self::Model> {
        arbitrary()
    }

    /// The tensor with its last two dimensions exchanged.
    open spec fn transposed(a: Self::Model) -> Option<Self::Model> {
        arbitrary()
    }

    /// The tensor summed over the dimensions in which `dims` has extent one,
    /// so that the result has the shape `dims`.
    open spec fn reduced(a: Self::Model, dims: Seq<usize>) -> Option<Self::Model> {
        arbitrary()
    }

    /// A copy of the tensor.
    fn duplicate(&self) -> (r: Self)
        ensures
            r.model() == self.model(),
    ;

    /// The shape of the tensor.
    fn shape(&self) -> (r: Vec<usize>)
        ensures
            r@ == Self::dims(self.model()),
    ;

    /// A tensor of ones with the shape of this one.
    fn ones_like(&self) -> (r: Self)
        ensures
            r.model() == Self::ones(self.model()),
    ;

    /// Elementwise addition.
    fn add(&self, rhs: &Self) -> (r: Option<Self>)
        ensures
            (match r {
                Some(t) => Self::sum(self.model(), rhs.model()) == Some(t.model()),
                None => Self::sum(self.model(), rhs.model()) is None,
            }),
    ;

    /// Elementwise subtraction.
    fn sub(&self, rhs: &Self) -> (r: Option<Self>)
        ensures
            (match r {
                Some(t) => Self::difference(self.model(), rhs.model()) == Some(t.model()),
                None => Self::difference(self.model(), rhs.model()) is None,
            }),
    ;

    /// Elementwise multiplication.
    fn mul(&self, rhs: &Self) -> (r: Option<Self>)
        ensures
            (match r {
                Some(t) => Self::product(self.model(), rhs.model()) == Some(t.model()),
                None => Self::product(self.model(), rhs.model()) is None,
            }),
    ;

    /// Matrix multiplication.
    fn matmul(&self, rhs: &Self) -> (r: Option<Self>)
        ensures
            (match r {
                Some(t) => Self::matrix_product(self.model(), rhs.model()) == Some(t.model()),
                None => Self::matrix_product(self.model(), rhs.model()) is None,
            }),
    ;

    /// Transposition.
    fn transpose(&self) -> (r: Option<Self>)
        ensures
            (match r {
                Some(t) => Self::transposed(self.model()) == Some(t.model()),
                None => Self::transposed(self.model()) is None,
            }),
    ;

    /// Summation down to the shape `dims`.
    fn sum_to_shape(&self, dims: &Vec<usize>) -> (r: Option<Self>)
        ensures
            (match r {
                Some(t) => Self::reduced(self.model(), dims@) == Some(t.model()),
                None => Self::reduced(self.model(), dims@) is None,
            }),
    ;
}

/// A backend that offers the hyperbolic tangent.
pub trait Activation: Backend {
    /// The elementwise hyperbolic tangent.
    open spec fn tanh_of(m: Self::Model) -> Self::Model {
        arbitrary()
    }

    /// The elementwise hyperbolic tangent.
    fn tanh(&self) -> (r: Self)
        ensures
            r.model() == Self::tanh_of(self.model()),
    ;
}

/// Whether what an operation returned is what its spec function says: the
/// same value where it is defined, and `None` where it is not.
pub open spec fn agrees<B: Backend>(r: Option<B>, m: Option<B::Model>) -> bool {
    match r {
        Some(t) => m == Some(t.model()),
        None => m is None,
    }
}

} // verus!
