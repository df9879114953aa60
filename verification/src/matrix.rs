use vstd::prelude::*;

use crate::scalar::add_bits;
use crate::scalar::mul_bits;
use crate::scalar::sub_bits;

verus! {

/// Why a matrix operation was refused.
#[derive(Clone, Copy, Debug, PartialEq, Eq, Structural)]
pub enum MatrixError {
    /// The element buffer's length is not `rows * cols`.
    InvalidShape,
    /// The operands' shapes do not fit the requested operation.
    DimensionMismatch,
    /// An element position lies outside the matrix.
    IndexOutOfBounds,
}

/// The mathematical content of a matrix: its shape, and the bit patterns of
/// its elements in row-major order.
#[verifier::ext_equal]
pub struct MatrixModel {
    pub rows: int,
    pub cols: int,
    pub data: Seq<u64>,
}

impl MatrixModel {
    /// The buffer holds exactly one element per position.
    pub open spec fn wf(self) -> bool {
        0 <= self.rows && 0 <= self.cols && self.data.len() == self.rows * self.cols
    }

    /// The element bits at row `i`, column `j`.
    pub open spec fn at(self, i: int, j: int) -> u64 {
        self.data[i * self.cols + j]
    }

    /// Both matrices have the same number of rows and of columns.
    pub open spec fn same_shape(self, other: MatrixModel) -> bool {
        self.rows == other.rows && self.cols == other.cols
    }
}

/// The element-wise sum: the shape of `a`, and at every linear position the
/// IEEE 754 binary64 sum of the operands' elements there.
pub open spec fn add_model(a: MatrixModel, b: MatrixModel) -> MatrixModel {
    MatrixModel {
        rows: a.rows,
        cols: a.cols,
        data: Seq::new(a.data.len(), |i: int| add_bits(a.data[i], b.data[i])),
    }
}

/// The element-wise difference: the shape of `a`, and at every linear
/// position the IEEE 754 binary64 difference of the operands' elements there.
pub open spec fn sub_model(a: MatrixModel, b: MatrixModel) -> MatrixModel {
    MatrixModel {
        rows: a.rows,
        cols: a.cols,
        data: Seq::new(a.data.len(), |i: int| sub_bits(a.data[i], b.data[i])),
    }
}

/// The sum of the first `k` products `a[i, t] * b[t, j]`, accumulated in
/// increasing `t` starting from the bits of positive zero: exactly the
/// order in which the multiplication loop runs.
pub open spec fn dot_prefix(a: MatrixModel, b: MatrixModel, i: int, j: int, k: int) -> u64
    decreases k,
{
    if k <= 0 {
        0u64
    } else {
        add_bits(dot_prefix(a, b, i, j, k - 1), mul_bits(a.at(i, k - 1), b.at(k - 1, j)))
    }
}

/// The matrix product: shape `(a.rows, b.cols)`, and at position (i, j) the
/// dot product of `a`'s row i with `b`'s column j over the inner dimension
/// `a.cols`.
pub open spec fn mul_model(a: MatrixModel, b: MatrixModel) -> MatrixModel {
    MatrixModel {
        rows: a.rows,
        cols: b.cols,
        data: Seq::new(
            (a.rows * b.cols) as nat,
            |t: int| dot_prefix(a, b, t / b.cols, t % b.cols, a.cols),
        ),
    }
}

/// Shape associativity of the product: when the inner dimensions of a triple
/// product agree, both groupings are defined, both results are well formed,
/// and both have shape `(a.rows, c.cols)`.
pub proof fn lemma_multiply_shape_associative(a: MatrixModel, b: MatrixModel, c: MatrixModel)
    requires
        a.wf(),
        b.wf(),
        c.wf(),
        a.cols == b.rows,
        b.cols == c.rows,
    ensures
        mul_model(a, b).wf(),
        mul_model(b, c).wf(),
        mul_model(a, b).cols == c.rows,
        a.cols == mul_model(b, c).rows,
        mul_model(mul_model(a, b), c).wf(),
        mul_model(a, mul_model(b, c)).wf(),
        mul_model(mul_model(a, b), c).rows == a.rows,
        mul_model(mul_model(a, b), c).cols == c.cols,
        mul_model(mul_model(a, b), c).same_shape(mul_model(a, mul_model(b, c))),
{
    assert(0 <= a.rows * b.cols && 0 <= b.rows * c.cols && 0 <= a.rows * c.cols)
        by (nonlinear_arith)
        requires
            0 <= a.rows,
            0 <= b.rows,
            0 <= b.cols,
            0 <= c.cols,
    ;
}

/// A dense, row-major matrix of IEEE 754 binary64 elements, each held as its
/// 64-bit pattern. The element at position (r, c) lives at linear index
/// `r * cols + c`.
pub struct Matrix {
    rows: usize,
    cols: usize,
    data: Vec<u64>,
}

impl View for Matrix {
    type V = MatrixModel;

    closed spec fn view(&self) -> MatrixModel {
        MatrixModel { rows: self.rows as int, cols: self.cols as int, data: self.data@ }
    }
}

impl Matrix {
    /// Builds a matrix from a flat row-major buffer. Succeeds exactly when
    /// the buffer's length is `rows * cols`; otherwise nothing is built and
    /// the buffer is rejected as `InvalidShape`.
    pub fn new(rows: usize, cols: usize, data: Vec<u64>) -> (result: Result<Matrix, MatrixError>)
        ensures
            data@.len() == rows * cols ==> (result matches Ok(m)
                && m@ == (MatrixModel { rows: rows as int, cols: cols as int, data: data@ })
                && m@.wf()),
            data@.len() != rows * cols ==> result == Err::<Matrix, MatrixError>(
                MatrixError::InvalidShape,
            ),
    {
        let len = data.len();
        match rows.checked_mul(cols) {
            Some(expected_size) => {
                if len == expected_size {
                    Ok(Matrix { rows, cols, data })
                } else {
                    Err(MatrixError::InvalidShape)
                }
            },
            None => Err(MatrixError::InvalidShape),
        }
    }

    /// The number of rows.
    pub fn rows(&self) -> (result: usize)
        ensures
            result as int == self@.rows,
    {
        self.rows
    }

    /// The number of columns.
    pub fn cols(&self) -> (result: usize)
        ensures
            result as int == self@.cols,
    {
        self.cols
    }

    /// True exactly when the matrix holds no element, that is, when one of
    /// its dimensions is zero.
    pub fn is_empty(&self) -> (result: bool)
        requires
            self@.wf(),
        ensures
            result == (self@.data.len() == 0),
            result == (self@.rows == 0 || self@.cols == 0),
    {
        proof {
            assert((self@.rows * self@.cols == 0) == (self@.rows == 0 || self@.cols == 0))
                by (nonlinear_arith);
        }
        self.data.len() == 0
    }

    /// An independent copy of the element buffer, in row-major order.
    pub fn to_array(&self) -> (result: Vec<u64>)
        ensures
            result@ == self@.data,
    {
        let n = self.data.len();
        let mut out: Vec<u64> = Vec::new();
        let mut i: usize = 0;
        while i < n
            invariant
                i <= n,
                n == self@.data.len(),
                out@.len() == i,
                forall|k: int| 0 <= k < i ==> out@[k] == self@.data[k],
            decreases n - i,
        {
            out.push(self.data[i]);
            i = i + 1;
        }
        proof {
            assert(out@ =~= self@.data);
        }
        out
    }

    /// Accepts two operands of one shape; anything else is a mismatch.
    fn check_dimensions(&self, other: &Matrix) -> (result: Result<(), MatrixError>)
        ensures
            self@.same_shape(other@) ==> result == Ok::<(), MatrixError>(()),
            !self@.same_shape(other@) ==> result == Err::<(), MatrixError>(
                MatrixError::DimensionMismatch,
            ),
    {
        if self.rows != other.rows || self.cols != other.cols {
            Err(MatrixError::DimensionMismatch)
        } else {
            Ok(())
        }
    }

    /// Accepts operands whose inner dimensions agree; anything else is a
    /// mismatch.
    fn check_multiply_dimensions(&self, other: &Matrix) -> (result: Result<(), MatrixError>)
        ensures
            self@.cols == other@.rows ==> result == Ok::<(), MatrixError>(()),
            self@.cols != other@.rows ==> result == Err::<(), MatrixError>(
                MatrixError::DimensionMismatch,
            ),
    {
        if self.cols != other.rows {
            Err(MatrixError::DimensionMismatch)
        } else {
            Ok(())
        }
    }

    /// The element-wise sum of two matrices of one shape, a new matrix of
    /// that shape; operands of different shapes are rejected as
    /// `DimensionMismatch`, and neither operand is changed either way.
    pub fn add(&self, other: &Matrix) -> (result: Result<Matrix, MatrixError>)
        requires
            self@.wf(),
            other@.wf(),
        ensures
            self@.same_shape(other@) ==> (result matches Ok(m)
                && m@ == add_model(self@, other@)
                && m@.wf()),
            !self@.same_shape(other@) ==> result == Err::<Matrix, MatrixError>(
                MatrixError::DimensionMismatch,
            ),
    {
        if let Err(e) = self.check_dimensions(other) {
            return Err(e);
        }
        let n = self.data.len();
        let mut out: Vec<u64> = Vec::new();
        let mut i: usize = 0;
        while i < n
            invariant
                i <= n,
                n == self@.data.len(),
                other@.data.len() == n,
                out@.len() == i,
                forall|k: int| 0 <= k < i ==> out@[k] == add_bits(self@.data[k], other@.data[k]),
            decreases n - i,
        {
            let v = crate::scalar::add_f64_bits(self.data[i], other.data[i]);
            out.push(v);
            i = i + 1;
        }
        let m = Matrix { rows: self.rows, cols: self.cols, data: out };
        proof {
            assert(m@.data =~= add_model(self@, other@).data);
            assert(m@ =~= add_model(self@, other@));
        }
        Ok(m)
    }

    /// The element-wise difference of two matrices of one shape, a new matrix
    /// of that shape; operands of different shapes are rejected as
    /// `DimensionMismatch`, and neither operand is changed either way.
    pub fn subtract(&self, other: &Matrix) -> (result: Result<Matrix, MatrixError>)
        requires
            self@.wf(),
            other@.wf(),
        ensures
            self@.same_shape(other@) ==> (result matches Ok(m)
                && m@ == sub_model(self@, other@)
                && m@.wf()),
            !self@.same_shape(other@) ==> result == Err::<Matrix, MatrixError>(
                MatrixError::DimensionMismatch,
            ),
    {
        if let Err(e) = self.check_dimensions(other) {
            return Err(e);
        }
        let n = self.data.len();
        let mut out: Vec<u64> = Vec::new();
        let mut i: usize = 0;
        while i < n
            invariant
                i <= n,
                n == self@.data.len(),
                other@.data.len() == n,
                out@.len() == i,
                forall|k: int| 0 <= k < i ==> out@[k] == sub_bits(self@.data[k], other@.data[k]),
            decreases n - i,
        {
            let v = crate::scalar::sub_f64_bits(self.data[i], other.data[i]);
            out.push(v);
            i = i + 1;
        }
        let m = Matrix { rows: self.rows, cols: self.cols, data: out };
        proof {
            assert(m@.data =~= sub_model(self@, other@).data);
            assert(m@ =~= sub_model(self@, other@));
        }
        Ok(m)
    }

    /// The matrix product of a `(rows, inner)` matrix with an
    /// `(inner, cols)` one: a new `(rows, cols)` matrix whose element at
    /// (i, j) accumulates the products of row i and column j in increasing
    /// order of the inner index, starting from positive zero. Operands whose
    /// inner dimensions differ are rejected as `DimensionMismatch`, and
    /// neither operand is changed either way.
    pub fn multiply(&self, other: &Matrix) -> (result: Result<Matrix, MatrixError>)
        requires
            self@.wf(),
            other@.wf(),
            self@.rows * other@.cols <= usize::MAX,
        ensures
            self@.cols == other@.rows ==> (result matches Ok(m)
                && m@ == mul_model(self@, other@)
                && m@.wf()),
            self@.cols != other@.rows ==> result == Err::<Matrix, MatrixError>(
                MatrixError::DimensionMismatch,
            ),
    {
        if let Err(e) = self.check_multiply_dimensions(other) {
            return Err(e);
        }
        let m_rows = self.rows;
        let p_cols = other.cols;
        let inner = self.cols;
        let n_self = self.data.len();
        let n_other = other.data.len();
        let mut out: Vec<u64> = Vec::new();
        let mut i: usize = 0;
        while i < m_rows
            invariant
                self@.wf(),
                other@.wf(),
                m_rows as int == self@.rows,
                p_cols as int == other@.cols,
                inner as int == self@.cols,
                self@.cols == other@.rows,
                n_self == self@.data.len(),
                n_other == other@.data.len(),
                i <= m_rows,
                out@.len() == i * p_cols,
                forall|t: int|
                    0 <= t < i * p_cols ==> out@[t] == dot_prefix(
                        self@,
                        other@,
                        t / p_cols as int,
                        t % p_cols as int,
                        inner as int,
                    ),
            decreases m_rows - i,
        {
            let mut j: usize = 0;
            while j < p_cols
                invariant
                    self@.wf(),
                    other@.wf(),
                    m_rows as int == self@.rows,
                    p_cols as int == other@.cols,
                    inner as int == self@.cols,
                    self@.cols == other@.rows,
                    n_self == self@.data.len(),
                    n_other == other@.data.len(),
                    i < m_rows,
                    j <= p_cols,
                    out@.len() == i * p_cols + j,
                    forall|t: int|
                        0 <= t < i * p_cols + j ==> out@[t] == dot_prefix(
                            self@,
                            other@,
                            t / p_cols as int,
                            t % p_cols as int,
                            inner as int,
                        ),
                decreases p_cols - j,
            {
                let mut acc: u64 = 0;
                let mut k: usize = 0;
                while k < inner
                    invariant
                        self@.wf(),
                        other@.wf(),
                        m_rows as int == self@.rows,
                        p_cols as int == other@.cols,
                        inner as int == self@.cols,
                        self@.cols == other@.rows,
                        n_self == self@.data.len(),
                        n_other == other@.data.len(),
                        i < m_rows,
                        j < p_cols,
                        k <= inner,
                        acc == dot_prefix(self@, other@, i as int, j as int, k as int),
                    decreases inner - k,
                {
                    proof {
                        assert(i * inner + k < m_rows * inner && k * p_cols + j < inner * p_cols)
                            by (nonlinear_arith)
                            requires
                                0 <= i < m_rows,
                                0 <= j < p_cols,
                                0 <= k < inner,
                        ;
                        assert(self@.data.len() == m_rows * inner);
                        assert(other@.data.len() == inner * p_cols);
                    }
                    let x = self.data[i * inner + k];
                    let y = other.data[k * p_cols + j];
                    acc = crate::scalar::add_f64_bits(acc, crate::scalar::mul_f64_bits(x, y));
                    k = k + 1;
                }
                proof {
                    vstd::arithmetic::div_mod::lemma_fundamental_div_mod_converse(
                        i * p_cols + j,
                        p_cols as int,
                        i as int,
                        j as int,
                    );
                }
                out.push(acc);
                j = j + 1;
            }
            proof {
                assert((i + 1) * p_cols == i * p_cols + p_cols) by (nonlinear_arith);
            }
            i = i + 1;
        }
        let m = Matrix { rows: m_rows, cols: p_cols, data: out };
        proof {
            assert(m@.data =~= mul_model(self@, other@).data);
            assert(m@ =~= mul_model(self@, other@));
        }
        Ok(m)
    }

    /// The element bits at row `row`, column `col`; positions outside
    /// `[0, rows) x [0, cols)` are rejected as `IndexOutOfBounds`.
    pub fn get_element(&self, row: usize, col: usize) -> (result: Result<u64, MatrixError>)
        requires
            self@.wf(),
        ensures
            row < self@.rows && col < self@.cols ==> result == Ok::<u64, MatrixError>(
                self@.at(row as int, col as int),
            ),
            !(row < self@.rows && col < self@.cols) ==> result == Err::<u64, MatrixError>(
                MatrixError::IndexOutOfBounds,
            ),
    {
        if row < self.rows && col < self.cols {
            let n = self.data.len();
            proof {
                assert(row * self@.cols + col < self@.rows * self@.cols) by (nonlinear_arith)
                    requires
                        0 <= row < self@.rows,
                        0 <= col < self@.cols,
                ;
                assert(row * self@.cols + col < n as int);
            }
            Ok(self.data[row * self.cols + col])
        } else {
            Err(MatrixError::IndexOutOfBounds)
        }
    }
}

} // verus!
