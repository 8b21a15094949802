//! Two-dimensional tables of samples, as a dataset holds them.
use vstd::prelude::*;
use vstd::arithmetic::div_mod::lemma_fundamental_div_mod_converse;

verus! {

/// A table of `rows × cols` samples, stored row by row.
///
/// Row `i` holds the samples at the `i`-th value of the first coordinate,
/// column `j` those at the `j`-th value of the second.
#[derive(Debug)]
pub struct Table<T> {
    rows: usize,
    cols: usize,
    data: Vec<T>,
}

/// The cell `(i, j)` of a `rows × cols` table lies in its row-by-row storage.
proof fn lemma_row_major_cell(i: int, j: int, rows: int, cols: int)
    requires
        0 <= i < rows,
        0 <= j < cols,
    ensures
        0 <= i * cols + j < rows * cols,
        (i + 1) * cols + j == i * cols + j + cols,
{
    assert(0 <= i * cols + j < rows * cols) by (nonlinear_arith)
        requires
            0 <= i < rows,
            0 <= j < cols,
    ;
    assert((i + 1) * cols + j == i * cols + j + cols) by (nonlinear_arith);
}

/// The cell `(i, j)` of a `rows × cols` table lies in its column-by-column order.
proof fn lemma_column_major_cell(i: int, j: int, rows: int, cols: int)
    requires
        0 <= i < rows,
        0 <= j < cols,
    ensures
        0 <= j * rows + i < rows * cols,
        (j * rows + i) % rows == i,
        (j * rows + i) / rows == j,
{
    assert(0 <= j * rows + i < rows * cols) by (nonlinear_arith)
        requires
            0 <= i < rows,
            0 <= j < cols,
    ;
    lemma_fundamental_div_mod_converse(j * rows + i, rows, j, i);
}

impl<T> Table<T> {
    #[verifier::type_invariant]
    closed spec fn inv(self) -> bool {
        &&& self.data@.len() == self.rows * self.cols
        &&& self.rows * self.cols <= usize::MAX
    }

    /// The number of rows.
    pub closed spec fn n_rows(&self) -> nat {
        self.rows as nat
    }

    /// The number of columns.
    pub closed spec fn n_cols(&self) -> nat {
        self.cols as nat
    }

    /// The sample in row `i` and column `j`.
    pub closed spec fn entry(&self, i: int, j: int) -> T {
        self.data@[i * self.cols + j]
    }

    /// The samples read column by column: the first coordinate runs fastest.
    pub open spec fn grid_order(&self) -> Seq<T> {
        Seq::new(
            self.n_rows() * self.n_cols(),
            |k: int| self.entry(k % (self.n_rows() as int), k / (self.n_rows() as int)),
        )
    }

    /// `self` is `raw` with one row of `fill` put before its first row.
    pub open spec fn is_axis_padded(&self, raw: &Table<T>, fill: T) -> bool {
        &&& self.n_rows() == raw.n_rows() + 1
        &&& self.n_cols() == raw.n_cols()
        &&& forall|j: int| 0 <= j < self.n_cols() ==> self.entry(0, j) == fill
        &&& forall|i: int, j: int|
            #![trigger self.entry(i + 1, j)]
            #![trigger raw.entry(i, j)]
            0 <= i < raw.n_rows() && 0 <= j < raw.n_cols() ==> self.entry(i + 1, j) == raw.entry(
                i,
                j,
            )
    }

}

impl<T: Copy> Table<T> {
    /// `z` is `self` with one row of `fill` put before its first row, read
    /// column by column: the first coordinate runs fastest.
    pub open spec fn is_axis_padded_grid(&self, z: Seq<T>, fill: T) -> bool {
        let rows = self.n_rows() + 1;
        &&& z.len() == rows * self.n_cols()
        &&& forall|j: int| 0 <= j < self.n_cols() ==> #[trigger] z[j * rows] == fill
        &&& forall|i: int, j: int|
            0 <= i < self.n_rows() && 0 <= j < self.n_cols() ==> z[j * rows + i + 1]
                == #[trigger] self.entry(i, j)
    }

    /// Builds a table from samples stored row by row; `None` when their
    /// number is not `rows * cols`.
    pub fn from_row_major(rows: usize, cols: usize, data: Vec<T>) -> (r: Option<Table<T>>)
        ensures
            r is Some <==> data@.len() == rows * cols,
            r matches Some(t) ==> {
                &&& t.n_rows() == rows
                &&& t.n_cols() == cols
                &&& forall|i: int, j: int|
                    0 <= i < rows && 0 <= j < cols ==> #[trigger] t.entry(i, j) == data@[i * cols
                        + j]
            },
    {
        let len = data.len();
        match rows.checked_mul(cols) {
            Some(n) if n == len => Some(Table { rows, cols, data }),
            _ => None,
        }
    }

    /// The shape `(rows, cols)`.
    pub fn shape(&self) -> (r: (usize, usize))
        ensures
            r.0 == self.n_rows(),
            r.1 == self.n_cols(),
    {
        (self.rows, self.cols)
    }

    /// The sample in row `i` and column `j`.
    pub fn get(&self, i: usize, j: usize) -> (r: T)
        requires
            i < self.n_rows(),
            j < self.n_cols(),
        ensures
            r == self.entry(i as int, j as int),
    {
        proof {
            use_type_invariant(self);
            lemma_row_major_cell(i as int, j as int, self.rows as int, self.cols as int);
        }
        self.data[i * self.cols + j]
    }

    /// The samples of row `i`.
    pub fn row(&self, i: usize) -> (r: Vec<T>)
        requires
            i < self.n_rows(),
        ensures
            r@.len() == self.n_cols(),
            forall|j: int| 0 <= j < self.n_cols() ==> r@[j] == self.entry(i as int, j),
    {
        let mut r: Vec<T> = Vec::new();
        let mut j: usize = 0;
        while j < self.cols
            invariant
                i < self.n_rows(),
                j <= self.n_cols(),
                r@.len() == j,
                forall|k: int| 0 <= k < j ==> r@[k] == self.entry(i as int, k),
            decreases self.n_cols() - j,
        {
            r.push(self.get(i, j));
            j += 1;
        }
        r
    }

    /// The table with one row of `fill` put before its first row: the samples
    /// at the magnetic axis, which the dataset does not hold.
    pub fn with_axis_row(&self, fill: T) -> (r: Table<T>)
        requires
            self.n_rows() + 1 <= usize::MAX,
            (self.n_rows() + 1) * self.n_cols() <= usize::MAX,
        ensures
            r.is_axis_padded(self, fill),
    {
        proof {
            use_type_invariant(self);
            assert((self.rows + 1) * self.cols == self.rows * self.cols + self.cols)
                by (nonlinear_arith);
        }
        let mut data: Vec<T> = Vec::new();
        let mut j: usize = 0;
        while j < self.cols
            invariant
                j <= self.cols,
                data@.len() == j,
                forall|k: int| 0 <= k < j ==> data@[k] == fill,
            decreases self.cols - j,
        {
            data.push(fill);
            j += 1;
        }
        let mut k: usize = 0;
        while k < self.data.len()
            invariant
                self.data@.len() == self.rows * self.cols,
                k <= self.data@.len(),
                data@.len() == self.cols + k,
                forall|m: int| 0 <= m < self.cols ==> data@[m] == fill,
                forall|m: int| 0 <= m < k ==> data@[self.cols + m] == self.data@[m],
            decreases self.data@.len() - k,
        {
            data.push(self.data[k]);
            k += 1;
        }
        let r = Table { rows: self.rows + 1, cols: self.cols, data };
        assert forall|i: int, j: int|
            0 <= i < self.n_rows() && 0 <= j < self.n_cols() implies #[trigger] r.entry(i + 1, j)
            == self.entry(i, j) by {
            lemma_row_major_cell(i, j, self.rows as int, self.cols as int);
        }
        r
    }

    /// The samples column by column, the first coordinate running fastest:
    /// the order in which the two-dimensional interpolation backend reads the
    /// values over its grid.
    pub fn to_grid_order(&self) -> (r: Vec<T>)
        ensures
            r@ == self.grid_order(),
            forall|i: int, j: int|
                0 <= i < self.n_rows() && 0 <= j < self.n_cols() ==> r@[j * self.n_rows() + i]
                    == self.entry(i, j),
    {
        proof {
            use_type_invariant(self);
        }
        let ghost rows = self.rows as int;
        let mut r: Vec<T> = Vec::new();
        let mut j: usize = 0;
        while j < self.cols
            invariant
                self.data@.len() == self.rows * self.cols,
                self.rows * self.cols <= usize::MAX,
                rows == self.rows,
                j <= self.cols,
                r@.len() == j * rows,
                forall|k: int| 0 <= k < r@.len() ==> r@[k] == self.entry(k % rows, k / rows),
            decreases self.cols - j,
        {
            let mut i: usize = 0;
            while i < self.rows
                invariant
                    self.data@.len() == self.rows * self.cols,
                    self.rows * self.cols <= usize::MAX,
                    rows == self.rows,
                    j < self.cols,
                    i <= self.rows,
                    r@.len() == j * rows + i,
                    forall|k: int| 0 <= k < r@.len() ==> r@[k] == self.entry(k % rows, k / rows),
                decreases self.rows - i,
            {
                proof {
                    lemma_row_major_cell(i as int, j as int, rows, self.cols as int);
                    lemma_column_major_cell(i as int, j as int, rows, self.cols as int);
                }
                r.push(self.data[i * self.cols + j]);
                i += 1;
            }
            assert((j + 1) * rows == j * rows + rows) by (nonlinear_arith);
            j += 1;
        }
        assert(self.cols * rows == rows * self.cols) by (nonlinear_arith);
        assert(r@ =~= self.grid_order());
        assert forall|i: int, j: int|
            0 <= i < self.n_rows() && 0 <= j < self.n_cols() implies r@[j * self.n_rows() + i]
            == self.entry(i, j) by {
            lemma_column_major_cell(i, j, rows, self.cols as int);
        }
        r
    }
}

} // verus!
