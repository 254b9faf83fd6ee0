//! Integer matrices of `M` rows and `N` columns. Arithmetic wraps around at
//! the bounds of `isize`.
use vstd::prelude::*;

verus! {

broadcast use vstd::array::group_array_axioms;

#[derive(Clone, Copy, PartialEq, Eq, Debug)]
pub struct Matrix<const N: usize, const M: usize> {
    /// The rows, each of `N` entries.
    pub elements: [[isize; N]; M],
}

pub type Matrix2x2i = Matrix<2, 2>;

pub type Matrix3x3i = Matrix<3, 3>;

pub type Matrix4x4i = Matrix<4, 4>;

/// Whether every entry of `m` is given by `f` at its row and column.
pub open spec fn entries_are<const N: usize, const M: usize>(
    m: Matrix<N, M>,
    f: spec_fn(int, int) -> isize,
) -> bool {
    forall|i: int, j: int| 0 <= i < M && 0 <= j < N ==> #[trigger] m.elements[i][j] == f(i, j)
}

/// `row` with its first `k` entries replaced by those that `f` gives.
pub open spec fn row_with<const N: usize>(row: [isize; N], f: spec_fn(int) -> isize, k: int) -> [isize;
    N]
    decreases k,
{
    if k <= 0 {
        row
    } else {
        vstd::array::spec_array_update(row_with(row, f, k - 1), k - 1, f(k - 1))
    }
}

/// `rows` with its first `k` rows replaced by those whose entries `f` gives.
pub open spec fn rows_with<const N: usize, const M: usize>(
    rows: [[isize; N]; M],
    f: spec_fn(int, int) -> isize,
    k: int,
) -> [[isize; N]; M]
    decreases k,
{
    if k <= 0 {
        rows
    } else {
        vstd::array::spec_array_update(
            rows_with(rows, f, k - 1),
            k - 1,
            row_with(rows[k - 1], |j: int| f(k - 1, j), N as int),
        )
    }
}

/// The matrix whose entries `f` gives.
pub open spec fn matrix_of<const N: usize, const M: usize>(f: spec_fn(int, int) -> isize) -> Matrix<
    N,
    M,
> {
    Matrix { elements: rows_with(arbitrary(), f, M as int) }
}

proof fn lemma_row_with<const N: usize>(row: [isize; N], f: spec_fn(int) -> isize, k: int)
    requires
        0 <= k <= N,
    ensures
        forall|j: int| 0 <= j < k ==> #[trigger] row_with(row, f, k)[j] == f(j),
        forall|j: int| k <= j < N ==> #[trigger] row_with(row, f, k)[j] == row[j],
    decreases k,
{
    if k > 0 {
        lemma_row_with(row, f, k - 1);
        let prev = row_with(row, f, k - 1);
        assert(row_with(row, f, k)@ == prev@.update(k - 1, f(k - 1)));
        assert forall|j: int| 0 <= j < N implies #[trigger] row_with(row, f, k)[j] == if j == k - 1 {
            f(j)
        } else {
            prev[j]
        } by {
            assert(row_with(row, f, k)[j] == row_with(row, f, k)@[j]);
            assert(prev[j] == prev@[j]);
        }
    }
}

proof fn lemma_rows_with<const N: usize, const M: usize>(
    rows: [[isize; N]; M],
    f: spec_fn(int, int) -> isize,
    k: int,
)
    requires
        0 <= k <= M,
    ensures
        forall|i: int, j: int|
            0 <= i < k && 0 <= j < N ==> #[trigger] rows_with(rows, f, k)[i][j] == f(i, j),
    decreases k,
{
    if k > 0 {
        lemma_rows_with(rows, f, k - 1);
        let g = |j: int| f(k - 1, j);
        lemma_row_with(rows[k - 1], g, N as int);
        let prev = rows_with(rows, f, k - 1);
        let last = row_with(rows[k - 1], g, N as int);
        assert(rows_with(rows, f, k)@ == prev@.update(k - 1, last));
        assert forall|i: int, j: int| 0 <= i < k && 0 <= j < N implies #[trigger] rows_with(
            rows,
            f,
            k,
        )[i][j] == f(i, j) by {
            assert(rows_with(rows, f, k)[i] == rows_with(rows, f, k)@[i]);
            if i == k - 1 {
                assert(last[j] == g(j));
            } else {
                assert(prev[i] == prev@[i]);
                assert(prev[i][j] == f(i, j));
            }
        }
    }
}

/// Each entry of `matrix_of(f)` is the one that `f` gives.
pub proof fn lemma_matrix_of_entries<const N: usize, const M: usize>(f: spec_fn(int, int) -> isize)
    ensures
        entries_are(matrix_of::<N, M>(f), f),
{
    lemma_rows_with(arbitrary::<[[isize; N]; M]>(), f, M as int);
}

/// Two matrices with the same entries are the same matrix.
pub proof fn lemma_entries_determine<const N: usize, const M: usize>(a: Matrix<N, M>, b: Matrix<N, M>)
    requires
        forall|i: int, j: int| 0 <= i < M && 0 <= j < N ==> #[trigger] a.elements[i][j] == b.elements[i][j],
    ensures
        a == b,
{
    assert forall|i: int| 0 <= i < M implies a.elements[i] == b.elements[i] by {
        assert(a.elements[i] =~= b.elements[i]);
    }
    assert(a.elements =~= b.elements);
}

/// A matrix that has the entries that `f` gives is `matrix_of(f)`.
pub proof fn lemma_matrix_of<const N: usize, const M: usize>(m: Matrix<N, M>, f: spec_fn(int, int) -> isize)
    requires
        entries_are(m, f),
    ensures
        m == matrix_of::<N, M>(f),
{
    let c = matrix_of::<N, M>(f);
    lemma_matrix_of_entries::<N, M>(f);
    assert forall|i: int, j: int| 0 <= i < M && 0 <= j < N implies #[trigger] m.elements[i][j]
        == c.elements[i][j] by {
        assert(m.elements[i][j] == f(i, j));
        assert(c.elements[i][j] == f(i, j));
    }
    lemma_entries_determine(m, c);
}

impl<const N: usize, const M: usize> Matrix<N, M> {
    pub fn new(elements: [[isize; N]; M]) -> (r: Self)
        ensures
            r.elements == elements,
    {
        Matrix { elements }
    }

    /// Applies `op` entry by entry to `self` and `rhs`.
    fn zip_entries(self, rhs: Self, op: MatrixOp) -> (r: Self)
        ensures
            entries_are(r, |i: int, j: int| op.apply(self.elements[i][j], rhs.elements[i][j])),
    {
        let mut res = self;
        let mut r: usize = 0;
        while r < M
            invariant
                0 <= r <= M,
                forall|i: int, j: int|
                    0 <= i < r && 0 <= j < N ==> #[trigger] res.elements[i][j] == op.apply(
                        self.elements[i][j],
                        rhs.elements[i][j],
                    ),
                forall|i: int, j: int|
                    r <= i < M && 0 <= j < N ==> #[trigger] res.elements[i][j] == self.elements[i][j],
            decreases M - r,
        {
            let mut row = res.elements[r];
            let other = rhs.elements[r];
            let mut c: usize = 0;
            while c < N
                invariant
                    0 <= c <= N,
                    0 <= r < M,
                    other == rhs.elements[r as int],
                    forall|j: int|
                        0 <= j < c ==> #[trigger] row[j] == op.apply(
                            self.elements[r as int][j],
                            other[j],
                        ),
                    forall|j: int| c <= j < N ==> #[trigger] row[j] == self.elements[r as int][j],
                decreases N - c,
            {
                let v = op.run(row[c], other[c]);
                row[c] = v;
                c = c + 1;
            }
            res.elements[r] = row;
            r = r + 1;
        }
        res
    }
}

/// The entry at row `i` and column `j` of the product of `a` and `b`,
/// summed over the first `k` terms.
pub open spec fn product_entry<const N: usize>(a: Matrix<N, N>, b: Matrix<N, N>, i: int, j: int, k: int) -> isize
    decreases k,
{
    if k <= 0 {
        0
    } else {
        product_entry(a, b, i, j, k - 1).wrapping_add(a.elements[i][k - 1].wrapping_mul(b.elements[k - 1][j]))
    }
}

impl<const N: usize, const M: usize> core::default::Default for Matrix<N, M> {
    /// The zero matrix.
    fn default() -> (r: Self)
        ensures
            entries_are(r, |i: int, j: int| 0isize),
    {
        Matrix { elements: [[0isize; N]; M] }
    }
}

impl<const N: usize> Matrix<N, N> {
    /// The identity matrix: ones on the diagonal, zeros elsewhere.
    pub fn identity() -> (r: Self)
        ensures
            entries_are(r, |i: int, j: int| if i == j { 1isize } else { 0isize }),
    {
        let mut res = Matrix { elements: [[0isize; N]; N] };
        let mut d: usize = 0;
        while d < N
            invariant
                0 <= d <= N,
                forall|i: int, j: int|
                    0 <= i < N && 0 <= j < N ==> #[trigger] res.elements[i][j] == if i == j && i < d {
                        1isize
                    } else {
                        0isize
                    },
            decreases N - d,
        {
            let mut row = res.elements[d];
            row[d] = 1;
            res.elements[d] = row;
            d = d + 1;
        }
        res
    }
}

impl<const N: usize, const M: usize> core::ops::Add for Matrix<N, M> {
    type Output = Matrix<N, M>;

    fn add(self, rhs: Matrix<N, M>) -> Matrix<N, M> {
        let r = self.zip_entries(rhs, MatrixOp::Add);
        proof {
            let f = |i: int, j: int| self.elements[i][j].wrapping_add(rhs.elements[i][j]);
            assert(entries_are(r, f));
            lemma_matrix_of(r, f);
        }
        r
    }
}

impl<const N: usize, const M: usize> vstd::std_specs::ops::AddSpecImpl for Matrix<N, M> {
    open spec fn obeys_add_spec() -> bool {
        true
    }

    open spec fn add_req(self, rhs: Matrix<N, M>) -> bool {
        true
    }

    open spec fn add_spec(self, rhs: Matrix<N, M>) -> Matrix<N, M> {
        matrix_of(|i: int, j: int| self.elements[i][j].wrapping_add(rhs.elements[i][j]))
    }
}

impl<const N: usize, const M: usize> core::ops::Sub for Matrix<N, M> {
    type Output = Matrix<N, M>;

    fn sub(self, rhs: Matrix<N, M>) -> Matrix<N, M> {
        let r = self.zip_entries(rhs, MatrixOp::Sub);
        proof {
            let f = |i: int, j: int| self.elements[i][j].wrapping_sub(rhs.elements[i][j]);
            assert(entries_are(r, f));
            lemma_matrix_of(r, f);
        }
        r
    }
}

impl<const N: usize, const M: usize> vstd::std_specs::ops::SubSpecImpl for Matrix<N, M> {
    open spec fn obeys_sub_spec() -> bool {
        true
    }

    open spec fn sub_req(self, rhs: Matrix<N, M>) -> bool {
        true
    }

    open spec fn sub_spec(self, rhs: Matrix<N, M>) -> Matrix<N, M> {
        matrix_of(|i: int, j: int| self.elements[i][j].wrapping_sub(rhs.elements[i][j]))
    }
}

impl<const N: usize, const M: usize> core::ops::Neg for Matrix<N, M> {
    type Output = Matrix<N, M>;

    fn neg(self) -> Matrix<N, M> {
        let zero = Matrix { elements: [[0isize; N]; M] };
        let r = zero.zip_entries(self, MatrixOp::Sub);
        proof {
            let f = |i: int, j: int| 0isize.wrapping_sub(self.elements[i][j]);
            assert(entries_are(r, f));
            lemma_matrix_of(r, f);
        }
        r
    }
}

impl<const N: usize, const M: usize> vstd::std_specs::ops::NegSpecImpl for Matrix<N, M> {
    open spec fn obeys_neg_spec() -> bool {
        true
    }

    open spec fn neg_req(self) -> bool {
        true
    }

    open spec fn neg_spec(self) -> Matrix<N, M> {
        matrix_of(|i: int, j: int| 0isize.wrapping_sub(self.elements[i][j]))
    }
}

impl<const N: usize> core::ops::Mul for Matrix<N, N> {
    type Output = Matrix<N, N>;

    fn mul(self, rhs: Matrix<N, N>) -> Matrix<N, N> {
        let mut res = Matrix { elements: [[0isize; N]; N] };
        let mut r: usize = 0;
        while r < N
            invariant
                0 <= r <= N,
                forall|i: int, j: int|
                    0 <= i < r && 0 <= j < N ==> #[trigger] res.elements[i][j] == product_entry(
                        self,
                        rhs,
                        i,
                        j,
                        N as int,
                    ),
            decreases N - r,
        {
            let mut row = res.elements[r];
            let mut c: usize = 0;
            while c < N
                invariant
                    0 <= c <= N,
                    0 <= r < N,
                    forall|j: int|
                        0 <= j < c ==> #[trigger] row[j] == product_entry(
                            self,
                            rhs,
                            r as int,
                            j,
                            N as int,
                        ),
                decreases N - c,
            {
                let mut acc: isize = 0;
                let mut k: usize = 0;
                while k < N
                    invariant
                        0 <= k <= N,
                        0 <= r < N,
                        0 <= c < N,
                        acc == product_entry(self, rhs, r as int, c as int, k as int),
                    decreases N - k,
                {
                    acc = acc.wrapping_add(self.elements[r][k].wrapping_mul(rhs.elements[k][c]));
                    k = k + 1;
                }
                row[c] = acc;
                c = c + 1;
            }
            res.elements[r] = row;
            r = r + 1;
        }
        proof {
            let f = |i: int, j: int| product_entry(self, rhs, i, j, N as int);
            assert(entries_are(res, f));
            lemma_matrix_of(res, f);
        }
        res
    }
}

impl<const N: usize> vstd::std_specs::ops::MulSpecImpl for Matrix<N, N> {
    open spec fn obeys_mul_spec() -> bool {
        true
    }

    open spec fn mul_req(self, rhs: Matrix<N, N>) -> bool {
        true
    }

    open spec fn mul_spec(self, rhs: Matrix<N, N>) -> Matrix<N, N> {
        matrix_of(|i: int, j: int| product_entry(self, rhs, i, j, N as int))
    }
}

/// An entry-by-entry operation.
#[derive(Clone, Copy, PartialEq, Eq, Structural, Debug)]
enum MatrixOp {
    Add,
    Sub,
}

impl MatrixOp {
    spec fn apply(self, a: isize, b: isize) -> isize {
        match self {
            MatrixOp::Add => a.wrapping_add(b),
            MatrixOp::Sub => a.wrapping_sub(b),
        }
    }

    fn run(self, a: isize, b: isize) -> (r: isize)
        ensures
            r == self.apply(a, b),
    {
        match self {
            MatrixOp::Add => a.wrapping_add(b),
            MatrixOp::Sub => a.wrapping_sub(b),
        }
    }
}

} // verus!
