use vstd::prelude::*;
use crate::backend::Backend;

verus! {

/// The greatest number of rows, and of columns, of a matrix.
pub const LIMIT: usize = 4294967295;

/// The mathematical value of a matrix: its rows, each a sequence of `cols`
/// integers.
pub struct MatrixModel {
    pub cols: nat,
    pub rows: Seq<Seq<int>>,
}

/// A matrix of 32-bit integers: an exact backend. An operation whose result
/// has an element outside the 32-bit range is not defined.
pub struct Matrix {
    cols: usize,
    rows: Vec<Vec<i32>>,
}

/// An elementwise operation.
#[derive(Clone, Copy, Debug, PartialEq, Eq, Structural)]
pub enum Pointwise {
    Sum,
    Difference,
    Product,
}

/// A rule that gives each element of a result.
pub enum FormulaModel {
    /// The same number everywhere.
    Constant(int),
    /// The element of the matrix at the same place.
    Copy(MatrixModel),
    /// The elements of two matrices at the same place, combined; a matrix
    /// with one row or one column is spread over the other's.
    Pointwise(Pointwise, MatrixModel, MatrixModel),
    /// The row of the first matrix times the column of the second.
    Product(MatrixModel, MatrixModel),
    /// The element at the mirrored place.
    Transposed(MatrixModel),
    /// The sum of a row, of a column or of the whole matrix: the flags say
    /// whether the rows and the columns are kept.
    Reduced(MatrixModel, bool, bool),
}

enum Formula<'a> {
    Constant(i32),
    Copy(&'a Matrix),
    Pointwise(Pointwise, &'a Matrix, &'a Matrix),
    Product(&'a Matrix, &'a Matrix),
    Transposed(&'a Matrix),
    Reduced(&'a Matrix, bool, bool),
}

/// Whether a value fits an element.
pub open spec fn in_range(x: int) -> bool {
    -2147483648 <= x <= 2147483647
}

/// The rows of a matrix given as vectors.
pub open spec fn rows_model(rows: Seq<Vec<i32>>) -> Seq<Seq<int>> {
    Seq::new(rows.len(), |i: int| Seq::new(rows[i]@.len(), |j: int| rows[i][j] as int))
}

/// The number of columns of a matrix given by its rows: the length of the
/// first row, and zero where there is none.
pub open spec fn width(rows: Seq<Vec<i32>>) -> nat {
    if rows.len() == 0 {
        0
    } else {
        rows[0]@.len()
    }
}

/// Whether the rows make a matrix: all of one length, and no more rows or
/// columns than the limit.
pub open spec fn well_shaped(rows: Seq<Vec<i32>>) -> bool {
    &&& rows.len() <= LIMIT
    &&& width(rows) <= LIMIT
    &&& forall|i: int| 0 <= i < rows.len() ==> (#[trigger] rows[i]).len() == width(rows)
}

/// What an elementwise operation makes of two elements.
pub open spec fn combine(kind: Pointwise, x: int, y: int) -> int {
    match kind {
        Pointwise::Sum => x + y,
        Pointwise::Difference => x - y,
        Pointwise::Product => x * y,
    }
}

/// The extent of the result of an elementwise operation in one dimension:
/// the operands' extent where they agree, the other's where one is 1.
pub open spec fn extent(a: nat, b: nat) -> Option<nat> {
    if a == b || b == 1 {
        Some(a)
    } else if a == 1 {
        Some(b)
    } else {
        None
    }
}

/// The element of `m` that stands at row `i` and column `j` once `m` is
/// spread: a single row stands for every row, a single column for every
/// column.
pub open spec fn spread(m: MatrixModel, i: int, j: int) -> int {
    m.rows[if m.rows.len() == 1 {
        0
    } else {
        i
    }][if m.cols == 1 {
        0
    } else {
        j
    }]
}

/// The sum of the first `upto` products of row `i` of `a` with column `j`
/// of `b`.
pub open spec fn dot(a: MatrixModel, b: MatrixModel, i: int, j: int, upto: int) -> int
    decreases upto,
{
    if upto <= 0 {
        0
    } else {
        dot(a, b, i, j, upto - 1) + a.rows[i][upto - 1] * b.rows[upto - 1][j]
    }
}

/// The sum of the elements of `row` from `lo` up to `hi`.
pub open spec fn run(row: Seq<int>, lo: int, hi: int) -> int
    decreases hi - lo,
{
    if hi <= lo {
        0
    } else {
        run(row, lo, hi - 1) + row[hi - 1]
    }
}

/// The sum of the elements of `a` in the rows from `r_lo` up to `r_hi` and
/// the columns from `c_lo` up to `c_hi`.
pub open spec fn area(a: MatrixModel, r_lo: int, r_hi: int, c_lo: int, c_hi: int) -> int
    decreases r_hi - r_lo,
{
    if r_hi <= r_lo {
        0
    } else {
        area(a, r_lo, r_hi - 1, c_lo, c_hi) + run(a.rows[r_hi - 1], c_lo, c_hi)
    }
}

/// The element that the rule gives at row `i` and column `j`.
pub open spec fn value_at(f: FormulaModel, i: int, j: int) -> int {
    match f {
        FormulaModel::Constant(c) => c,
        FormulaModel::Copy(a) => a.rows[i][j],
        FormulaModel::Pointwise(kind, a, b) => combine(kind, spread(a, i, j), spread(b, i, j)),
        FormulaModel::Product(a, b) => dot(a, b, i, j, a.cols as int),
        FormulaModel::Transposed(a) => a.rows[j][i],
        FormulaModel::Reduced(a, keep_rows, keep_cols) => area(
            a,
            if keep_rows {
                i
            } else {
                0
            },
            if keep_rows {
                i + 1
            } else {
                a.rows.len() as int
            },
            if keep_cols {
                j
            } else {
                0
            },
            if keep_cols {
                j + 1
            } else {
                a.cols as int
            },
        ),
    }
}

/// Whether the rule gives a result of `rows` rows and `cols` columns.
pub open spec fn covers(f: FormulaModel, rows: nat, cols: nat) -> bool {
    match f {
        FormulaModel::Constant(_) => true,
        FormulaModel::Copy(a) => rows == a.rows.len() && cols == a.cols,
        FormulaModel::Pointwise(_, a, b) => extent(a.rows.len(), b.rows.len()) == Some(rows)
            && extent(a.cols, b.cols) == Some(cols),
        FormulaModel::Product(a, b) => a.cols == b.rows.len() && rows == a.rows.len() && cols
            == b.cols,
        FormulaModel::Transposed(a) => rows == a.cols && cols == a.rows.len(),
        FormulaModel::Reduced(a, keep_rows, keep_cols) => rows == (if keep_rows {
            a.rows.len()
        } else {
            1
        }) && cols == (if keep_cols {
            a.cols
        } else {
            1
        }),
    }
}

/// The matrix of `rows` rows and `cols` columns whose elements the rule
/// gives.
pub open spec fn grid(f: FormulaModel, rows: nat, cols: nat) -> MatrixModel {
    MatrixModel {
        cols,
        rows: Seq::new(rows, |i: int| Seq::new(cols, |j: int| value_at(f, i, j))),
    }
}

/// The matrix whose elements the rule gives, where every one of them fits
/// an element.
pub open spec fn tabulated(f: FormulaModel, rows: nat, cols: nat) -> Option<MatrixModel> {
    if forall|i: int, j: int| 0 <= i < rows && 0 <= j < cols ==> in_range(#[trigger] value_at(f, i, j)) {
        Some(grid(f, rows, cols))
    } else {
        None
    }
}

/// The elementwise operation on two matrices, where their shapes agree or
/// can be spread, and every element of the result fits.
pub open spec fn pointwise(kind: Pointwise, a: MatrixModel, b: MatrixModel) -> Option<MatrixModel> {
    match (extent(a.rows.len(), b.rows.len()), extent(a.cols, b.cols)) {
        (Some(rows), Some(cols)) => tabulated(FormulaModel::Pointwise(kind, a, b), rows, cols),
        _ => None,
    }
}

impl<'a> Formula<'a> {
    closed spec fn view(&self) -> FormulaModel {
        match *self {
            Formula::Constant(c) => FormulaModel::Constant(c as int),
            Formula::Copy(a) => FormulaModel::Copy(a.model()),
            Formula::Pointwise(kind, a, b) => FormulaModel::Pointwise(kind, a.model(), b.model()),
            Formula::Product(a, b) => FormulaModel::Product(a.model(), b.model()),
            Formula::Transposed(a) => FormulaModel::Transposed(a.model()),
            Formula::Reduced(a, keep_rows, keep_cols) => FormulaModel::Reduced(
                a.model(),
                keep_rows,
                keep_cols,
            ),
        }
    }
}

/// The product of two elements.
fn times(x: i32, y: i32) -> (p: i64)
    ensures
        p == x * y,
        -4611686018427387904 <= p <= 4611686018427387904,
{
    assert(-4611686018427387904 <= x * y <= 4611686018427387904) by (nonlinear_arith)
        requires
            -2147483648 <= x <= 2147483647,
            -2147483648 <= y <= 2147483647,
    ;
    (x as i64) * (y as i64)
}

/// The value narrowed to an element, where it fits.
fn narrow(x: i128) -> (r: Option<i32>)
    ensures
        match r {
            Some(v) => v == x,
            None => !in_range(x as int),
        },
{
    if x < -2147483648 || x > 2147483647 {
        None
    } else {
        Some(x as i32)
    }
}

impl Matrix {
    #[verifier::type_invariant]
    spec fn inv(self) -> bool {
        &&& self.rows.len() <= LIMIT
        &&& self.cols <= LIMIT
        &&& forall|i: int| 0 <= i < self.rows.len() ==> (#[trigger] self.rows[i]).len() == self.cols
    }

    /// The matrix with the given rows, or `None` where they are not all of
    /// one length or exceed the limit.
    pub fn from_rows(rows: Vec<Vec<i32>>) -> (r: Option<Matrix>)
        ensures
            match r {
                Some(m) => well_shaped(rows@) && m.model() == (MatrixModel {
                    cols: width(rows@),
                    rows: rows_model(rows@),
                }),
                None => !well_shaped(rows@),
            },
    {
        let cols = if rows.len() == 0 {
            0
        } else {
            rows[0].len()
        };
        if rows.len() > LIMIT || cols > LIMIT {
            return None;
        }
        let mut i: usize = 0;
        while i < rows.len()
            invariant
                i <= rows.len(),
                cols == width(rows@),
                forall|k: int| 0 <= k < i ==> (#[trigger] rows@[k]).len() == cols,
            decreases rows.len() - i,
        {
            if rows[i].len() != cols {
                return None;
            }
            i = i + 1;
        }
        Some(Matrix { cols, rows })
    }

    /// The number of rows.
    pub fn row_count(&self) -> (n: usize)
        ensures
            n == self.model().rows.len(),
    {
        self.rows.len()
    }

    /// The number of columns.
    pub fn column_count(&self) -> (n: usize)
        ensures
            n == self.model().cols,
    {
        self.cols
    }

    /// The element at row `i` and column `j`, if the matrix has one there.
    pub fn at(&self, i: usize, j: usize) -> (r: Option<i32>)
        ensures
            match r {
                Some(v) => i < self.model().rows.len() && j < self.model().cols && v
                    == self.model().rows[i as int][j as int],
                None => i >= self.model().rows.len() || j >= self.model().cols,
            },
    {
        proof {
            use_type_invariant(self);
        }
        if i < self.rows.len() && j < self.cols {
            Some(self.rows[i][j])
        } else {
            None
        }
    }

    /// The rows of the matrix.
    pub fn to_rows(&self) -> (r: Vec<Vec<i32>>)
        ensures
            rows_model(r@) == self.model().rows,
    {
        proof {
            use_type_invariant(self);
        }
        let mut out: Vec<Vec<i32>> = Vec::new();
        let mut i: usize = 0;
        while i < self.rows.len()
            invariant
                i <= self.rows.len(),
                out.len() == i,
                forall|k: int| 0 <= k < i ==> (#[trigger] out[k])@ == self.rows[k]@,
            decreases self.rows.len() - i,
        {
            let mut row: Vec<i32> = Vec::new();
            let mut j: usize = 0;
            while j < self.rows[i].len()
                invariant
                    i < self.rows.len(),
                    j <= self.rows[i as int].len(),
                    row.len() == j,
                    forall|k: int| 0 <= k < j ==> row[k] == self.rows[i as int][k],
                decreases self.rows[i as int].len() - j,
            {
                row.push(self.rows[i][j]);
                j = j + 1;
            }
            assert(row@ =~= self.rows[i as int]@);
            out.push(row);
            i = i + 1;
        }
        assert(rows_model(out@) =~~= self.model().rows);
        out
    }

    /// The element that the rule gives at row `i` and column `j`, or `None`
    /// where it does not fit.
    fn eval(f: &Formula, rows: usize, cols: usize, i: usize, j: usize) -> (r: Option<i32>)
        requires
            covers(f@, rows as nat, cols as nat),
            i < rows,
            j < cols,
        ensures
            match r {
                Some(v) => v == value_at(f@, i as int, j as int),
                None => !in_range(value_at(f@, i as int, j as int)),
            },
    {
        match f {
            Formula::Constant(c) => Some(*c),
            Formula::Copy(a) => {
                proof {
                    use_type_invariant(*a);
                }
                Some(a.rows[i][j])
            },
            Formula::Pointwise(kind, a, b) => {
                proof {
                    use_type_invariant(*a);
                    use_type_invariant(*b);
                }
                let ai = if a.rows.len() == 1 {
                    0
                } else {
                    i
                };
                let aj = if a.cols == 1 {
                    0
                } else {
                    j
                };
                let bi = if b.rows.len() == 1 {
                    0
                } else {
                    i
                };
                let bj = if b.cols == 1 {
                    0
                } else {
                    j
                };
                let x = a.rows[ai][aj];
                let y = b.rows[bi][bj];
                let v: i64 = match kind {
                    Pointwise::Sum => x as i64 + y as i64,
                    Pointwise::Difference => x as i64 - y as i64,
                    Pointwise::Product => times(x, y),
                };
                narrow(v as i128)
            },
            Formula::Product(a, b) => {
                proof {
                    use_type_invariant(*a);
                    use_type_invariant(*b);
                }
                let mut acc: i128 = 0;
                let mut k: usize = 0;
                while k < a.cols
                    invariant
                        k <= a.cols <= LIMIT,
                        a.cols == b.rows.len(),
                        i < a.rows.len(),
                        j < b.cols,
                        a.rows[i as int].len() == a.cols,
                        forall|t: int| 0 <= t < b.rows.len() ==> (#[trigger] b.rows[t]).len() == b.cols,
                        acc == dot(a.model(), b.model(), i as int, j as int, k as int),
                        -(k * 4611686018427387904) <= acc <= k * 4611686018427387904,
                    decreases a.cols - k,
                {
                    let p = times(a.rows[i][k], b.rows[k][j]);
                    acc = acc + p as i128;
                    k = k + 1;
                }
                narrow(acc)
            },
            Formula::Transposed(a) => {
                proof {
                    use_type_invariant(*a);
                }
                Some(a.rows[j][i])
            },
            Formula::Reduced(a, keep_rows, keep_cols) => {
                proof {
                    use_type_invariant(*a);
                }
                let r_lo = if *keep_rows {
                    i
                } else {
                    0
                };
                let r_hi = if *keep_rows {
                    i + 1
                } else {
                    a.rows.len()
                };
                let c_lo = if *keep_cols {
                    j
                } else {
                    0
                };
                let c_hi = if *keep_cols {
                    j + 1
                } else {
                    a.cols
                };
                let mut acc: i128 = 0;
                let mut r: usize = r_lo;
                while r < r_hi
                    invariant
                        r_lo <= r <= r_hi <= a.rows.len() <= LIMIT,
                        c_lo <= c_hi <= a.cols <= LIMIT,
                        forall|t: int| 0 <= t < a.rows.len() ==> (#[trigger] a.rows[t]).len() == a.cols,
                        acc == area(a.model(), r_lo as int, r as int, c_lo as int, c_hi as int),
                        -((r - r_lo) * 9223372036854775808) <= acc <= (r - r_lo) * 9223372036854775808,
                    decreases r_hi - r,
                {
                    let mut sum: i128 = 0;
                    let mut c: usize = c_lo;
                    while c < c_hi
                        invariant
                            r < a.rows.len(),
                            c_lo <= c <= c_hi <= a.cols <= LIMIT,
                            a.rows[r as int].len() == a.cols,
                            sum == run(a.model().rows[r as int], c_lo as int, c as int),
                            -((c - c_lo) * 2147483648) <= sum <= (c - c_lo) * 2147483648,
                        decreases c_hi - c,
                    {
                        sum = sum + a.rows[r][c] as i128;
                        c = c + 1;
                    }
                    acc = acc + sum;
                    r = r + 1;
                }
                narrow(acc)
            },
        }
    }

    /// The matrix of `rows` rows and `cols` columns whose elements the rule
    /// gives, or `None` where one of them does not fit.
    fn tabulate(f: &Formula, rows: usize, cols: usize) -> (r: Option<Matrix>)
        requires
            covers(f@, rows as nat, cols as nat),
            rows <= LIMIT,
            cols <= LIMIT,
        ensures
            match r {
                Some(m) => tabulated(f@, rows as nat, cols as nat) == Some(m.model()),
                None => tabulated(f@, rows as nat, cols as nat) is None,
            },
    {
        let mut out: Vec<Vec<i32>> = Vec::new();
        let mut i: usize = 0;
        while i < rows
            invariant
                covers(f@, rows as nat, cols as nat),
                i <= rows,
                out.len() == i,
                forall|k: int| 0 <= k < i ==> (#[trigger] out[k]).len() == cols,
                forall|k: int, l: int|
                    0 <= k < i && 0 <= l < cols ==> out[k][l] == #[trigger] value_at(f@, k, l),
            decreases rows - i,
        {
            let mut row: Vec<i32> = Vec::new();
            let mut j: usize = 0;
            while j < cols
                invariant
                    covers(f@, rows as nat, cols as nat),
                    i < rows,
                    j <= cols,
                    row.len() == j,
                    forall|l: int| 0 <= l < j ==> row[l] == #[trigger] value_at(f@, i as int, l),
                decreases cols - j,
            {
                match Matrix::eval(f, rows, cols, i, j) {
                    Some(v) => {
                        row.push(v);
                    },
                    None => {
                        assert(!in_range(value_at(f@, i as int, j as int)));
                        return None;
                    },
                }
                j = j + 1;
            }
            out.push(row);
            i = i + 1;
        }
        let m = Matrix { cols, rows: out };
        proof {
            assert forall|k: int, l: int| 0 <= k < rows && 0 <= l < cols implies in_range(
                #[trigger] value_at(f@, k, l),
            ) by {
                assert(out[k][l] == value_at(f@, k, l));
            }
            assert(m.model().rows =~~= grid(f@, rows as nat, cols as nat).rows);
        }
        Some(m)
    }

    /// The elementwise operation on two matrices.
    pub fn zip(&self, kind: Pointwise, rhs: &Matrix) -> (r: Option<Matrix>)
        ensures
            match r {
                Some(m) => pointwise(kind, self.model(), rhs.model()) == Some(m.model()),
                None => pointwise(kind, self.model(), rhs.model()) is None,
            },
    {
        proof {
            use_type_invariant(self);
            use_type_invariant(rhs);
        }
        let rows = if self.rows.len() == rhs.rows.len() || rhs.rows.len() == 1 {
            self.rows.len()
        } else if self.rows.len() == 1 {
            rhs.rows.len()
        } else {
            return None;
        };
        let cols = if self.cols == rhs.cols || rhs.cols == 1 {
            self.cols
        } else if self.cols == 1 {
            rhs.cols
        } else {
            return None;
        };
        Matrix::tabulate(&Formula::Pointwise(kind, self, rhs), rows, cols)
    }
}

impl Backend for Matrix {
    type Model = MatrixModel;

    closed spec fn model(&self) -> MatrixModel {
        MatrixModel { cols: self.cols as nat, rows: rows_model(self.rows@) }
    }

    open spec fn dims(m: MatrixModel) -> Seq<usize> {
        seq![m.rows.len() as usize, m.cols as usize]
    }

    open spec fn ones(m: MatrixModel) -> MatrixModel {
        grid(FormulaModel::Constant(1), m.rows.len(), m.cols)
    }

    open spec fn sum(a: MatrixModel, b: MatrixModel) -> Option<MatrixModel> {
        pointwise(Pointwise::Sum, a, b)
    }

    open spec fn difference(a: MatrixModel, b: MatrixModel) -> Option<MatrixModel> {
        pointwise(Pointwise::Difference, a, b)
    }

    open spec fn product(a: MatrixModel, b: MatrixModel) -> Option<MatrixModel> {
        pointwise(Pointwise::Product, a, b)
    }

    open spec fn matrix_product(a: MatrixModel, b: MatrixModel) -> Option<MatrixModel> {
        if a.cols == b.rows.len() {
            tabulated(FormulaModel::Product(a, b), a.rows.len(), b.cols)
        } else {
            None
        }
    }

    open spec fn transposed(a: MatrixModel) -> Option<MatrixModel> {
        Some(grid(FormulaModel::Transposed(a), a.cols, a.rows.len()))
    }

    open spec fn reduced(a: MatrixModel, dims: Seq<usize>) -> Option<MatrixModel> {
        if dims.len() == 2 && (dims[0] == a.rows.len() || dims[0] == 1) && (dims[1] == a.cols
            || dims[1] == 1) {
            tabulated(
                FormulaModel::Reduced(a, dims[0] == a.rows.len(), dims[1] == a.cols),
                dims[0] as nat,
                dims[1] as nat,
            )
        } else {
            None
        }
    }

    fn duplicate(&self) -> (r: Self) {
        proof {
            use_type_invariant(self);
        }
        match Matrix::tabulate(&Formula::Copy(self), self.rows.len(), self.cols) {
            Some(m) => {
                assert(m.model().rows =~~= self.model().rows);
                m
            },
            None => {
                assert(forall|i: int, j: int|
                    0 <= i < self.rows.len() && 0 <= j < self.cols ==> in_range(
                        #[trigger] value_at(FormulaModel::Copy(self.model()), i, j),
                    ));
                Matrix { cols: 0, rows: Vec::new() }
            },
        }
    }

    fn shape(&self) -> (r: Vec<usize>) {
        let mut r: Vec<usize> = Vec::new();
        r.push(self.rows.len());
        r.push(self.cols);
        assert(r@ =~= seq![self.rows.len(), self.cols]);
        r
    }

    fn ones_like(&self) -> (r: Self) {
        proof {
            use_type_invariant(self);
        }
        match Matrix::tabulate(&Formula::Constant(1), self.rows.len(), self.cols) {
            Some(m) => m,
            None => Matrix { cols: 0, rows: Vec::new() },
        }
    }

    fn add(&self, rhs: &Self) -> (r: Option<Self>) {
        self.zip(Pointwise::Sum, rhs)
    }

    fn sub(&self, rhs: &Self) -> (r: Option<Self>) {
        self.zip(Pointwise::Difference, rhs)
    }

    fn mul(&self, rhs: &Self) -> (r: Option<Self>) {
        self.zip(Pointwise::Product, rhs)
    }

    fn matmul(&self, rhs: &Self) -> (r: Option<Self>) {
        proof {
            use_type_invariant(self);
            use_type_invariant(rhs);
        }
        if self.cols != rhs.rows.len() {
            return None;
        }
        Matrix::tabulate(&Formula::Product(self, rhs), self.rows.len(), rhs.cols)
    }

    fn transpose(&self) -> (r: Option<Self>) {
        proof {
            use_type_invariant(self);
        }
        let r = Matrix::tabulate(&Formula::Transposed(self), self.cols, self.rows.len());
        assert(forall|i: int, j: int|
            0 <= i < self.cols && 0 <= j < self.rows.len() ==> in_range(
                #[trigger] value_at(FormulaModel::Transposed(self.model()), i, j),
            ));
        r
    }

    fn sum_to_shape(&self, dims: &Vec<usize>) -> (r: Option<Self>) {
        proof {
            use_type_invariant(self);
        }
        if dims.len() != 2 {
            return None;
        }
        let rows = dims[0];
        let cols = dims[1];
        if (rows != self.rows.len() && rows != 1) || (cols != self.cols && cols != 1) {
            return None;
        }
        Matrix::tabulate(
            &Formula::Reduced(self, rows == self.rows.len(), cols == self.cols),
            rows,
            cols,
        )
    }
}

} // verus!
