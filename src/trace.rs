//! The chip's execution trace, held in a dense row-major matrix of Plonky3.
use crate::chip::{expected_cell, num_rows, SQUARE_NUM_COLS};
use crate::event::{PrecompileEvent, SyscallEvent};
use p3_matrix::dense::{DenseMatrix, RowMajorMatrix};
use p3_matrix::Matrix;
use vstd::prelude::*;

verus! {

#[verifier::external_type_specification]
#[verifier::external_body]
#[verifier::reject_recursive_types(T)]
#[verifier::reject_recursive_types(V)]
pub struct ExDenseMatrix<T, V>(DenseMatrix<T, V>);

/// The cells of a matrix, row after row.
pub uninterp spec fn matrix_values(m: RowMajorMatrix<u32>) -> Seq<u32>;

/// The number of columns of a matrix.
pub uninterp spec fn matrix_width(m: RowMajorMatrix<u32>) -> nat;

/// Relies on `DenseMatrix::new`: it keeps the buffer and the width it is
/// given. It asserts (in debug builds) that the width divides the length.
#[verifier::external_body]
fn dense_new(values: Vec<u32>, width: usize) -> (m: RowMajorMatrix<u32>)
    requires
        width > 0,
        values@.len() % (width as nat) == 0,
    ensures
        matrix_values(m) == values@,
        matrix_width(m) == width,
{
    RowMajorMatrix::new(values, width)
}

/// Relies on the public field `DenseMatrix::values`: the buffer of cells.
#[verifier::external_body]
fn dense_values(m: &RowMajorMatrix<u32>) -> (r: &Vec<u32>)
    ensures
        r@ == matrix_values(*m),
{
    &m.values
}

/// Relies on `Matrix::width` of `DenseMatrix`: the field `width`.
#[verifier::external_body]
fn dense_width(m: &RowMajorMatrix<u32>) -> (r: usize)
    ensures
        r == matrix_width(*m),
{
    m.width()
}

/// Relies on `Matrix::height` of `DenseMatrix`: the buffer's length divided
/// by the width, and zero for width zero.
#[verifier::external_body]
fn dense_height(m: &RowMajorMatrix<u32>) -> (r: usize)
    ensures
        r == (if matrix_width(*m) == 0 {
            0
        } else {
            matrix_values(*m).len() / matrix_width(*m)
        }),
{
    m.height()
}

/// A dense row-major matrix of cells.
pub struct Trace {
    matrix: RowMajorMatrix<u32>,
}

impl Trace {
    /// The cells, row after row.
    pub closed spec fn flat(self) -> Seq<u32> {
        matrix_values(self.matrix)
    }

    /// The number of columns.
    pub closed spec fn cols(self) -> nat {
        matrix_width(self.matrix)
    }

    /// Cell `(i, j)`.
    pub open spec fn cell(self, i: int, j: int) -> u32 {
        self.flat()[i * self.cols() + j]
    }

    /// The number of rows.
    pub open spec fn rows(self) -> nat {
        if self.cols() == 0 {
            0
        } else {
            self.flat().len() / self.cols()
        }
    }

    /// A trace of `width` columns over the cells `values`, row after row.
    pub fn new(values: Vec<u32>, width: usize) -> (t: Trace)
        requires
            width > 0,
            values@.len() % (width as nat) == 0,
        ensures
            t.flat() == values@,
            t.cols() == width,
    {
        Trace { matrix: dense_new(values, width) }
    }

    /// The cells, row after row.
    pub fn values(&self) -> (r: &Vec<u32>)
        ensures
            r@ == self.flat(),
    {
        dense_values(&self.matrix)
    }

    /// The number of columns.
    pub fn width(&self) -> (r: usize)
        ensures
            r == self.cols(),
    {
        dense_width(&self.matrix)
    }

    /// The number of rows.
    pub fn height(&self) -> (r: usize)
        ensures
            r == self.rows(),
    {
        dense_height(&self.matrix)
    }

    /// The matrix the trace is held in.
    pub fn into_matrix(self) -> (m: RowMajorMatrix<u32>)
        ensures
            matrix_values(m) == self.flat(),
            matrix_width(m) == self.cols(),
    {
        self.matrix
    }

    /// The trace of `events`: `num_rows` rows of `SQUARE_NUM_COLS` cells,
    /// each cell as `expected_cell` gives it.
    pub open spec fn is_trace_of(self, events: Seq<(SyscallEvent, PrecompileEvent)>) -> bool {
        &&& self.cols() == SQUARE_NUM_COLS
        &&& self.flat().len() == num_rows(events.len()) * SQUARE_NUM_COLS
        &&& forall|i: int, j: int|
            0 <= i < num_rows(events.len()) && 0 <= j < SQUARE_NUM_COLS ==> #[trigger] self.cell(
                i,
                j,
            ) == expected_cell(events, i, j)
    }
}

} // verus!
