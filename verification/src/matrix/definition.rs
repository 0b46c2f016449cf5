//! Definition and implementation of the matrix struct.

use vstd::prelude::*;
use vstd::std_specs::ops::AddSpec;
use vstd::std_specs::ops::MulSpec;

use crate::dimension::Dimension;
use crate::error::Error;
use crate::error::Result;

verus! {

/// A matrix is a 2-dimensional structure with specific dimensions that can
/// hold data of any type.
///
/// Rows and columns of a matrix are zero-indexed, meaning that the top left
/// element of the matrix is in row `0` and column `0`, and the bottom right
/// element is in row `rows - 1` and column `columns - 1`, where `rows` and
/// `columns` are the number of rows and columns the matrix has, respectively.
///
/// The element in row `r` and column `c` lives at offset `columns * r + c` of
/// a flat, row-major buffer whose length is exactly `rows * columns`. This
/// indexing invariant, together with the strict positivity of both
/// dimensions, holds for every matrix that can be constructed.
#[derive(Debug)]
pub struct Matrix<T> {
    /// The number of rows the matrix has.
    rows: usize,
    /// The number of columns the matrix has.
    columns: usize,
    /// The actual data of the matrix as a 1-dimensional, row-major buffer.
    data: Vec<T>,
}

impl<T> View for Matrix<T> {
    type V = Seq<T>;

    /// The mathematical model of a matrix: its flat, row-major sequence of
    /// elements.
    closed spec fn view(&self) -> Seq<T> {
        self.data@
    }
}

impl<T> Matrix<T> {
    /// The number of rows, as seen by specifications.
    pub closed spec fn spec_rows(&self) -> int {
        self.rows as int
    }

    /// The number of columns, as seen by specifications.
    pub closed spec fn spec_columns(&self) -> int {
        self.columns as int
    }

    /// The element in the given row and column, as seen by specifications.
    pub open spec fn spec_element(&self, row: int, column: int) -> T {
        self@[row * self.spec_columns() + column]
    }

    /// The invariant every matrix maintains: both dimensions are strictly
    /// positive, their product fits into a `usize`, and the flat buffer holds
    /// exactly one element per cell.
    #[verifier::type_invariant]
    pub open spec fn well_formed(self) -> bool {
        &&& 1 <= self.spec_rows()
        &&& 1 <= self.spec_columns()
        &&& self.spec_rows() * self.spec_columns() <= usize::MAX
        &&& self@.len() == self.spec_rows() * self.spec_columns()
    }

    /// Assemble a matrix from its raw parts; the parts must already satisfy
    /// the matrix invariant.
    pub(crate) fn from_raw_parts(rows: usize, columns: usize, data: Vec<T>) -> (matrix: Matrix<T>)
        requires
            1 <= rows,
            1 <= columns,
            rows * columns <= usize::MAX,
            data@.len() == rows * columns,
        ensures
            matrix.spec_rows() == rows,
            matrix.spec_columns() == columns,
            matrix@ == data@,
    {
        Matrix { rows, columns, data }
    }

    /// Get the data of the matrix as a 1-dimensional slice.
    ///
    /// For a matrix with `m` rows and `n` columns, the first row of the
    /// matrix will become the first `n` elements in the slice, the second row
    /// will become the second `n` elements and so on.
    pub fn as_slice(&self) -> (data: &[T])
        ensures
            data@ == self@,
    {
        self.data.as_slice()
    }

    /// Get the number of columns in the matrix.
    pub fn get_columns(&self) -> (columns: usize)
        ensures
            columns == self.spec_columns(),
    {
        self.columns
    }

    /// Get the number of rows in the matrix.
    pub fn get_rows(&self) -> (rows: usize)
        ensures
            rows == self.spec_rows(),
    {
        self.rows
    }

    /// Get the index in the 1-dimensional data vector for the element in the
    /// given `row` and `column`.
    ///
    /// Callers must guarantee that the row and column are within the
    /// dimensions of the matrix; the resulting index is then within the
    /// bounds of the data buffer.
    ///
    /// When iterating over all elements in a matrix in row-major order, the
    /// index increases by exactly 1 from one element to the next.
    pub fn get_index_unchecked(&self, row: usize, column: usize) -> (index: usize)
        requires
            row < self.spec_rows(),
            column < self.spec_columns(),
        ensures
            index == row * self.spec_columns() + column,
            index < self@.len(),
    {
        proof {
            use_type_invariant(self);
            lemma_row_major_index_in_bounds(
                row as int,
                column as int,
                self.spec_rows(),
                self.spec_columns(),
            );
        }
        self.columns * row + column
    }

    /// Get the length of the data vector based on the number of rows and
    /// columns.
    ///
    /// The product of `rows` and `columns` must not exceed the maximum
    /// `usize` value. If this invariant is upheld, the length will be
    /// returned. Otherwise, an [`Error::DimensionsTooLarge`] will be
    /// returned.
    pub fn get_length_from_rows_and_columns(rows: Dimension, columns: Dimension) -> (length: Result<
        usize,
    >)
        ensures
            length is Ok <==> rows.spec_value() * columns.spec_value() <= usize::MAX,
            length is Ok ==> length.unwrap() == rows.spec_value() * columns.spec_value(),
            length is Err ==> length == Result::<usize>::Err(Error::DimensionsTooLarge),
    {
        match rows.get().checked_mul(columns.get()) {
            Some(length) => Ok(length),
            None => Err(Error::DimensionsTooLarge),
        }
    }

    /// Get the length of the data vector based on the number of rows and
    /// columns, without checking against the maximum size of a matrix.
    ///
    /// Callers must guarantee that the product of `rows` and `columns` does
    /// not exceed the maximum `usize` value; use
    /// [`Matrix::get_length_from_rows_and_columns`] when that cannot be
    /// guaranteed.
    pub fn get_length_from_rows_and_columns_unchecked(rows: Dimension, columns: Dimension) -> (length:
        usize)
        requires
            rows.spec_value() * columns.spec_value() <= usize::MAX,
        ensures
            length == rows.spec_value() * columns.spec_value(),
    {
        rows.get() * columns.get()
    }
}

impl<T> Matrix<T> where T: Copy {
    /// Create a new matrix with the given dimensions and the given default
    /// value in all elements.
    ///
    /// The product of the number of `rows` and the number of `columns` must
    /// not exceed the maximum `usize` value. Otherwise, an
    /// [`Error::DimensionsTooLarge`] will be returned.
    pub fn new(rows: Dimension, columns: Dimension, default: T) -> (result: Result<Matrix<T>>)
        ensures
            result is Ok <==> rows.spec_value() * columns.spec_value() <= usize::MAX,
            result is Err ==> result == Result::<Matrix<T>>::Err(Error::DimensionsTooLarge),
            result is Ok ==> {
                let matrix = result.unwrap();
                &&& matrix.spec_rows() == rows.spec_value()
                &&& matrix.spec_columns() == columns.spec_value()
                &&& matrix@.len() == rows.spec_value() * columns.spec_value()
                &&& forall|i: int| 0 <= i < matrix@.len() ==> matrix@[i] == default
            },
    {
        let length: usize = match Matrix::<T>::get_length_from_rows_and_columns(rows, columns) {
            Ok(length) => length,
            Err(error) => {
                return Err(error);
            },
        };

        // Create the data structure and initialize it with the default value.
        let mut data: Vec<T> = Vec::with_capacity(length);
        let mut index: usize = 0;
        while index < length
            invariant
                index <= length,
                data@.len() == index,
                forall|i: int| 0 <= i < index ==> data@[i] == default,
            decreases length - index,
        {
            data.push(default);
            index += 1;
        }

        Ok(Matrix { rows: rows.get(), columns: columns.get(), data })
    }

    /// Convert a slice into a matrix of the given dimensions.
    ///
    /// For a matrix with `m` rows and `n` columns, the first `n` elements in
    /// the slice will become the first row in the matrix, the second `n`
    /// elements will become the second row and so on.
    ///
    /// The product of the number of `rows` and the number of `columns` must
    /// not exceed the maximum `usize` value. If it does, an
    /// [`Error::DimensionsTooLarge`] will be returned. Furthermore, the
    /// product must be equal to the length of the given data slice.
    /// Otherwise, an [`Error::DimensionMismatch`] will be returned.
    pub fn from_slice(rows: Dimension, columns: Dimension, data: &[T]) -> (result: Result<
        Matrix<T>,
    >)
        ensures
            result is Ok <==> rows.spec_value() * columns.spec_value() <= usize::MAX
                && data@.len() == rows.spec_value() * columns.spec_value(),
            rows.spec_value() * columns.spec_value() > usize::MAX ==> result == Result::<
                Matrix<T>,
            >::Err(Error::DimensionsTooLarge),
            rows.spec_value() * columns.spec_value() <= usize::MAX && data@.len()
                != rows.spec_value() * columns.spec_value() ==> result == Result::<
                Matrix<T>,
            >::Err(Error::DimensionMismatch),
            result is Ok ==> {
                let matrix = result.unwrap();
                &&& matrix.spec_rows() == rows.spec_value()
                &&& matrix.spec_columns() == columns.spec_value()
                &&& matrix@ == data@
            },
    {
        // Check that the length of the data slice matches the dimensions of
        // the matrix.
        let length: usize = match Matrix::<T>::get_length_from_rows_and_columns(rows, columns) {
            Ok(length) => length,
            Err(error) => {
                return Err(error);
            },
        };
        if length != data.len() {
            return Err(Error::DimensionMismatch);
        }

        Ok(Matrix { rows: rows.get(), columns: columns.get(), data: vstd::slice::slice_to_vec(data) })
    }

    /// Get the value in the given `row` and `column`.
    ///
    /// If the `row` or `column` value is larger than the number of rows or
    /// columns in the matrix, respectively, an [`Error::CellOutOfBounds`]
    /// will be returned.
    pub fn get(&self, row: usize, column: usize) -> (value: Result<T>)
        ensures
            value is Ok <==> row < self.spec_rows() && column < self.spec_columns(),
            value is Ok ==> value.unwrap() == self.spec_element(row as int, column as int),
            value is Err ==> value == Result::<T>::Err(Error::CellOutOfBounds),
    {
        if row >= self.get_rows() || column >= self.get_columns() {
            return Err(Error::CellOutOfBounds);
        }

        Ok(self.get_unchecked(row, column))
    }

    /// Get the value in the given `row` and `column`, without checking the
    /// coordinates against the dimensions of the matrix.
    ///
    /// Callers must guarantee that the row and column are within the
    /// dimensions of the matrix; use [`Matrix::get`] when that cannot be
    /// guaranteed.
    pub fn get_unchecked(&self, row: usize, column: usize) -> (value: T)
        requires
            row < self.spec_rows(),
            column < self.spec_columns(),
        ensures
            value == self.spec_element(row as int, column as int),
    {
        let index: usize = self.get_index_unchecked(row, column);
        self.data[index]
    }
}

impl<T> Matrix<T> {
    /// Replace each element in the matrix by a new element as given by the
    /// closure `mapping`, which receives a reference to the value of the
    /// current element, the row of the current element, and the column of the
    /// current element, in this order.
    ///
    /// The elements are visited in row-major order, and the coordinates
    /// passed to the closure are always within the dimensions of the matrix.
    /// Unlike [`Matrix::map`], this method does not require the element type
    /// to be copyable.
    pub fn map_ref_mut<F: Fn(&T, usize, usize) -> T>(&mut self, mapping: F)
        requires
            forall|r: usize, c: usize|
                r < old(self).spec_rows() && c < old(self).spec_columns() ==> call_requires(
                    mapping,
                    (&old(self).spec_element(r as int, c as int), r, c),
                ),
        ensures
            final(self).spec_rows() == old(self).spec_rows(),
            final(self).spec_columns() == old(self).spec_columns(),
            final(self)@.len() == old(self)@.len(),
            forall|r: usize, c: usize|
                r < old(self).spec_rows() && c < old(self).spec_columns() ==> call_ensures(
                    mapping,
                    (&old(self).spec_element(r as int, c as int), r, c),
                    final(self).spec_element(r as int, c as int),
                ),
    {
        proof {
            use_type_invariant(&*self);
        }
        let rows: usize = self.get_rows();
        let columns: usize = self.get_columns();
        let mut data: Vec<T> = Vec::with_capacity(rows * columns);
        let mut row: usize = 0;
        while row < rows
            invariant
                *self == *old(self),
                self.well_formed(),
                rows == self.spec_rows(),
                columns == self.spec_columns(),
                row <= rows,
                data@.len() == row * columns,
                forall|r: usize, c: usize|
                    r < old(self).spec_rows() && c < old(self).spec_columns() ==> call_requires(
                        mapping,
                        (&old(self).spec_element(r as int, c as int), r, c),
                    ),
                forall|r: usize, c: usize|
                    r < row && c < columns ==> call_ensures(
                        mapping,
                        (&self.spec_element(r as int, c as int), r, c),
                        data@[r * columns + c],
                    ),
            decreases rows - row,
        {
            let mut column: usize = 0;
            while column < columns
                invariant
                    *self == *old(self),
                    self.well_formed(),
                    rows == self.spec_rows(),
                    columns == self.spec_columns(),
                    row < rows,
                    column <= columns,
                    data@.len() == row * columns + column,
                    forall|r: usize, c: usize|
                        r < old(self).spec_rows() && c < old(self).spec_columns()
                            ==> call_requires(
                            mapping,
                            (&old(self).spec_element(r as int, c as int), r, c),
                        ),
                    forall|r: usize, c: usize|
                        r < row && c < columns ==> call_ensures(
                            mapping,
                            (&self.spec_element(r as int, c as int), r, c),
                            data@[r * columns + c],
                        ),
                    forall|c: usize|
                        c < column ==> call_ensures(
                            mapping,
                            (&self.spec_element(row as int, c as int), row, c),
                            data@[row * columns + c],
                        ),
                decreases columns - column,
            {
                let index: usize = self.get_index_unchecked(row, column);
                let current: &T = vstd::slice::slice_index_get(self.data.as_slice(), index);
                proof {
                    assert(call_requires(
                        mapping,
                        (&old(self).spec_element(row as int, column as int), row, column),
                    ));
                }
                let value: T = mapping(current, row, column);
                data.push(value);
                proof {
                    assert forall|r: usize, c: usize| r < row && c < columns implies #[trigger] (
                    r * columns + c) < row * columns by {
                        lemma_row_major_index_in_bounds(
                            r as int,
                            c as int,
                            row as int,
                            columns as int,
                        );
                    };
                }
                column += 1;
            }
            proof {
                assert((row + 1) * columns == row * columns + columns) by (nonlinear_arith);
            }
            row += 1;
        }
        self.data = data;
    }
}

impl<T> Matrix<T> where T: Copy {
    /// Map each element in the matrix to a new element as given by the
    /// closure `mapping`, which receives the value of the current element,
    /// the row of the current element, and the column of the current element,
    /// in this order, and returns the new value of the current element.
    ///
    /// The elements are visited in row-major order, and the coordinates
    /// passed to the closure are always within the dimensions of the matrix.
    pub fn map<F: Fn(T, usize, usize) -> T>(&mut self, mapping: F)
        requires
            forall|r: usize, c: usize|
                r < old(self).spec_rows() && c < old(self).spec_columns() ==> call_requires(
                    mapping,
                    (old(self).spec_element(r as int, c as int), r, c),
                ),
        ensures
            final(self).spec_rows() == old(self).spec_rows(),
            final(self).spec_columns() == old(self).spec_columns(),
            final(self)@.len() == old(self)@.len(),
            forall|r: usize, c: usize|
                r < old(self).spec_rows() && c < old(self).spec_columns() ==> call_ensures(
                    mapping,
                    (old(self).spec_element(r as int, c as int), r, c),
                    final(self).spec_element(r as int, c as int),
                ),
    {
        proof {
            use_type_invariant(&*self);
        }
        let rows: usize = self.get_rows();
        let columns: usize = self.get_columns();
        let mut data: Vec<T> = Vec::with_capacity(rows * columns);
        let mut row: usize = 0;
        while row < rows
            invariant
                *self == *old(self),
                self.well_formed(),
                rows == self.spec_rows(),
                columns == self.spec_columns(),
                row <= rows,
                data@.len() == row * columns,
                forall|r: usize, c: usize|
                    r < old(self).spec_rows() && c < old(self).spec_columns() ==> call_requires(
                        mapping,
                        (old(self).spec_element(r as int, c as int), r, c),
                    ),
                forall|r: usize, c: usize|
                    r < row && c < columns ==> call_ensures(
                        mapping,
                        (self.spec_element(r as int, c as int), r, c),
                        data@[r * columns + c],
                    ),
            decreases rows - row,
        {
            let mut column: usize = 0;
            while column < columns
                invariant
                    *self == *old(self),
                    self.well_formed(),
                    rows == self.spec_rows(),
                    columns == self.spec_columns(),
                    row < rows,
                    column <= columns,
                    data@.len() == row * columns + column,
                    forall|r: usize, c: usize|
                        r < old(self).spec_rows() && c < old(self).spec_columns()
                            ==> call_requires(
                            mapping,
                            (old(self).spec_element(r as int, c as int), r, c),
                        ),
                    forall|r: usize, c: usize|
                        r < row && c < columns ==> call_ensures(
                            mapping,
                            (self.spec_element(r as int, c as int), r, c),
                            data@[r * columns + c],
                        ),
                    forall|c: usize|
                        c < column ==> call_ensures(
                            mapping,
                            (self.spec_element(row as int, c as int), row, c),
                            data@[row * columns + c],
                        ),
                decreases columns - column,
            {
                let current: T = self.get_unchecked(row, column);
                proof {
                    assert(call_requires(
                        mapping,
                        (old(self).spec_element(row as int, column as int), row, column),
                    ));
                }
                let value: T = mapping(current, row, column);
                data.push(value);
                proof {
                    assert forall|r: usize, c: usize| r < row && c < columns implies #[trigger] (
                    r * columns + c) < row * columns by {
                        lemma_row_major_index_in_bounds(
                            r as int,
                            c as int,
                            row as int,
                            columns as int,
                        );
                    };
                }
                column += 1;
            }
            proof {
                assert((row + 1) * columns == row * columns + columns) by (nonlinear_arith);
            }
            row += 1;
        }
        self.data = data;
    }

    /// Transpose this matrix: the result has the rows and columns swapped,
    /// and the element in row `r` and column `c` of the result is the element
    /// in row `c` and column `r` of this matrix.
    pub fn transpose(&self) -> (result: Matrix<T>)
        ensures
            result.spec_rows() == self.spec_columns(),
            result.spec_columns() == self.spec_rows(),
            result@.len() == self@.len(),
            forall|r: int, c: int|
                0 <= r < self.spec_columns() && 0 <= c < self.spec_rows()
                    ==> result.spec_element(r, c) == self.spec_element(c, r),
            result@ == transpose_data(self.spec_rows(), self.spec_columns(), self@),
    {
        proof {
            use_type_invariant(self);
        }
        // The rows and columns are switched in the transposed matrix.
        let rows: usize = self.columns;
        let columns: usize = self.rows;
        let mut data: Vec<T> = Vec::with_capacity(self.data.len());
        let mut row: usize = 0;
        while row < rows
            invariant
                self.well_formed(),
                rows == self.spec_columns(),
                columns == self.spec_rows(),
                row <= rows,
                data@.len() == row * columns,
                forall|r: int, c: int|
                    0 <= r < row && 0 <= c < columns ==> data@[r * columns + c]
                        == self.spec_element(c, r),
            decreases rows - row,
        {
            let mut column: usize = 0;
            while column < columns
                invariant
                    self.well_formed(),
                    rows == self.spec_columns(),
                    columns == self.spec_rows(),
                    row < rows,
                    column <= columns,
                    data@.len() == row * columns + column,
                    forall|r: int, c: int|
                        0 <= r < row && 0 <= c < columns ==> data@[r * columns + c]
                            == self.spec_element(c, r),
                    forall|c: int|
                        0 <= c < column ==> data@[row * columns + c] == self.spec_element(
                            c,
                            row as int,
                        ),
                decreases columns - column,
            {
                // Rows and columns are switched in the transposed matrix, so
                // consider this when reading from the original data. Since we
                // iterate over the dimensions of the transposed matrix, the
                // coordinates are always valid.
                let value: T = self.get_unchecked(column, row);
                data.push(value);
                proof {
                    assert forall|r: usize, c: usize| r < row && c < columns implies #[trigger] (
                    r * columns + c) < row * columns by {
                        lemma_row_major_index_in_bounds(
                            r as int,
                            c as int,
                            row as int,
                            columns as int,
                        );
                    };
                }
                column += 1;
            }
            proof {
                assert((row + 1) * columns == row * columns + columns) by (nonlinear_arith);
            }
            row += 1;
        }
        proof {
            assert(self.spec_columns() * self.spec_rows() == self.spec_rows()
                * self.spec_columns()) by (nonlinear_arith);
        }
        let result = Matrix { rows, columns, data };
        proof {
            assert forall|r: int, c: int|
                0 <= r < self.spec_columns() && 0 <= c < self.spec_rows() implies #[trigger] result@[r
                * self.spec_rows() + c] == self@[c * self.spec_columns() + r] by {
                assert(data@[r * (columns as int) + c] == self.spec_element(c, r));
            };
            lemma_transposed_data_matches(self.spec_rows(), self.spec_columns(), self@, result@);
        }
        result
    }
}

/// Law: transposing a matrix twice restores the original contents.
///
/// For a `rows x columns` matrix with flat, row-major contents `data`,
/// transposing it (which yields a `columns x rows` matrix) and transposing
/// the result again yields a matrix with exactly the contents `data`.
pub proof fn lemma_transpose_involution<T>(rows: int, columns: int, data: Seq<T>)
    requires
        1 <= rows,
        1 <= columns,
        data.len() == rows * columns,
    ensures
        transpose_data(columns, rows, transpose_data(rows, columns, data)) == data,
{
    let once = transpose_data(rows, columns, data);
    let twice = transpose_data(columns, rows, once);
    assert(columns * rows == rows * columns) by (nonlinear_arith);
    assert forall|i: int| 0 <= i < data.len() implies twice[i] == data[i] by {
        vstd::arithmetic::div_mod::lemma_fundamental_div_mod(i, columns);
        vstd::arithmetic::div_mod::lemma_mod_bound(i, columns);
        let q = i / columns;
        let r = i % columns;
        assert(q < rows) by (nonlinear_arith)
            requires
                i < rows * columns,
                i == columns * q + r,
                0 <= r < columns,
                0 <= q,
        ;
        let j = r * rows + q;
        vstd::arithmetic::div_mod::lemma_fundamental_div_mod_converse(j, rows, r, q);
        assert(0 <= j < columns * rows) by (nonlinear_arith)
            requires
                0 <= r < columns,
                0 <= q < rows,
                j == r * rows + q,
        ;
        assert(twice[i] == once[j]);
        assert(once[j] == data[q * columns + r]);
        assert(q * columns + r == i) by (nonlinear_arith)
            requires
                i == columns * q + r,
        ;
    };
    assert(twice =~= data);
}

/// The flat, row-major contents of the transposition of a matrix with the
/// given dimensions and flat contents.
pub open spec fn transpose_data<T>(rows: int, columns: int, data: Seq<T>) -> Seq<T> {
    Seq::new((rows * columns) as nat, |i: int| data[(i % rows) * columns + i / rows])
}

/// A buffer whose element at offset `r * rows + c` holds the source element
/// at offset `c * columns + r` is exactly the transposed buffer.
proof fn lemma_transposed_data_matches<T>(
    rows: int,
    columns: int,
    data: Seq<T>,
    transposed: Seq<T>,
)
    requires
        1 <= rows,
        1 <= columns,
        data.len() == rows * columns,
        transposed.len() == rows * columns,
        forall|r: int, c: int|
            0 <= r < columns && 0 <= c < rows ==> #[trigger] transposed[r * rows + c] == data[c
                * columns + r],
    ensures
        transposed == transpose_data(rows, columns, data),
{
    assert forall|i: int| 0 <= i < transposed.len() implies transposed[i] == transpose_data(
        rows,
        columns,
        data,
    )[i] by {
        let r = i / rows;
        let c = i % rows;
        vstd::arithmetic::div_mod::lemma_fundamental_div_mod(i, rows);
        vstd::arithmetic::div_mod::lemma_mod_bound(i, rows);
        assert(i == rows * (i / rows) + i % rows);
        assert(i == r * rows + c) by (nonlinear_arith)
            requires
                i == rows * r + c,
        ;
        assert(r < columns) by (nonlinear_arith)
            requires
                i < rows * columns,
                i == rows * r + c,
                0 <= c < rows,
                0 <= r,
        ;
        assert(transposed[r * rows + c] == data[c * columns + r]);
    }
    assert(transposed =~= transpose_data(rows, columns, data));
}

/// For a row and column within a matrix of the given dimensions, the
/// row-major offset lies within the flat buffer.
pub(crate) proof fn lemma_row_major_index_in_bounds(row: int, column: int, rows: int, columns: int)
    requires
        0 <= row < rows,
        0 <= column < columns,
    ensures
        row * columns + column < rows * columns,
{
    assert(row * columns + column < rows * columns) by (nonlinear_arith)
        requires
            0 <= row < rows,
            0 <= column < columns,
    ;
}

/// The sum of products of the first `count` paired elements of `a` and `b`,
/// seeded with the product of the first pair, so that no additive identity
/// for `T` is needed: for `count == 1` it is `a[0] * b[0]`, and each further
/// step adds `a[i] * b[i]` to the running sum.
pub open spec fn dot_product<T>(a: Seq<T>, b: Seq<T>, count: int) -> T where
    T: core::ops::Add<Output = T> + core::ops::Mul<Output = T>,

    decreases count,
{
    if count <= 1 {
        a[0].mul_spec(b[0])
    } else {
        dot_product(a, b, count - 1).add_spec(a[count - 1].mul_spec(b[count - 1]))
    }
}

/// Whether every multiplication and addition within
/// `dot_product(a, b, count)` stays within the limits of the element type.
pub open spec fn dot_product_in_range<T>(a: Seq<T>, b: Seq<T>, count: int) -> bool where
    T: core::ops::Add<Output = T> + core::ops::Mul<Output = T>,

    decreases count,
{
    if count <= 1 {
        a[0].mul_req(b[0])
    } else {
        &&& dot_product_in_range(a, b, count - 1)
        &&& a[count - 1].mul_req(b[count - 1])
        &&& dot_product(a, b, count - 1).add_req(a[count - 1].mul_spec(b[count - 1]))
    }
}

/// A dot product that stays in range over `count` elements also stays in
/// range over any shorter prefix.
proof fn lemma_dot_product_in_range_prefix<T>(a: Seq<T>, b: Seq<T>, count: int, prefix: int) where
    T: core::ops::Add<Output = T> + core::ops::Mul<Output = T>,

    requires
        dot_product_in_range(a, b, count),
        1 <= prefix <= count,
    ensures
        dot_product_in_range(a, b, prefix),
    decreases count,
{
    if prefix < count {
        lemma_dot_product_in_range_prefix(a, b, count - 1, prefix);
    }
}

impl<T> Matrix<T> {
    /// The elements of the given row, in column order.
    pub open spec fn spec_row(&self, row: int) -> Seq<T> {
        Seq::new(self.spec_columns() as nat, |i: int| self.spec_element(row, i))
    }

    /// The elements of the given column, in row order.
    pub open spec fn spec_column(&self, column: int) -> Seq<T> {
        Seq::new(self.spec_rows() as nat, |i: int| self.spec_element(i, column))
    }
}

impl<T> Matrix<T> where T: core::ops::Add<Output = T> + core::ops::Mul<Output = T> + Copy {
    /// Compute the matrix product of `self` and `other` and return the
    /// result.
    ///
    /// The number of columns in `self` must be equal to the number of rows
    /// in `other`. Otherwise, [`Error::DimensionMismatch`] will be returned.
    ///
    /// The resulting matrix has the dimensions `self.rows x other.columns`;
    /// if that product would exceed the maximum size of a matrix,
    /// [`Error::DimensionsTooLarge`] will be returned. Each element of the
    /// result is the dot product of the corresponding row of `self` and
    /// column of `other`.
    pub fn matrix_mul(&self, other: &Matrix<T>) -> (result: Result<Matrix<T>>)
        requires
            T::obeys_add_spec(),
            T::obeys_mul_spec(),
            self.spec_columns() == other.spec_rows() ==> forall|r: int, c: int|
                0 <= r < self.spec_rows() && 0 <= c < other.spec_columns()
                    ==> dot_product_in_range(
                    #[trigger] self.spec_row(r),
                    #[trigger] other.spec_column(c),
                    self.spec_columns(),
                ),
        ensures
            result is Ok <==> self.spec_columns() == other.spec_rows() && self.spec_rows()
                * other.spec_columns() <= usize::MAX,
            self.spec_columns() != other.spec_rows() ==> result == Result::<Matrix<T>>::Err(
                Error::DimensionMismatch,
            ),
            self.spec_columns() == other.spec_rows() && self.spec_rows() * other.spec_columns()
                > usize::MAX ==> result == Result::<Matrix<T>>::Err(Error::DimensionsTooLarge),
            result is Ok ==> {
                let product = result.unwrap();
                &&& product.spec_rows() == self.spec_rows()
                &&& product.spec_columns() == other.spec_columns()
                &&& product@.len() == self.spec_rows() * other.spec_columns()
                &&& forall|r: int, c: int|
                    0 <= r < self.spec_rows() && 0 <= c < other.spec_columns()
                        ==> product.spec_element(r, c) == dot_product(
                        #[trigger] self.spec_row(r),
                        #[trigger] other.spec_column(c),
                        self.spec_columns(),
                    )
            },
    {
        if self.get_columns() != other.get_rows() {
            return Err(Error::DimensionMismatch);
        }
        proof {
            use_type_invariant(self);
            use_type_invariant(other);
        }

        // Ensure that the dimensions of the result matrix do not exceed the
        // maximum size.
        let rows: usize = self.get_rows();
        let columns: usize = other.get_columns();
        let inner: usize = self.get_columns();
        let size: usize = match rows.checked_mul(columns) {
            Some(size) => size,
            None => {
                return Err(Error::DimensionsTooLarge);
            },
        };

        let mut data: Vec<T> = Vec::with_capacity(size);
        let mut row: usize = 0;
        while row < rows
            invariant
                T::obeys_add_spec(),
                T::obeys_mul_spec(),
                self.well_formed(),
                other.well_formed(),
                rows == self.spec_rows(),
                columns == other.spec_columns(),
                inner == self.spec_columns(),
                inner == other.spec_rows(),
                forall|r: int, c: int|
                    0 <= r < self.spec_rows() && 0 <= c < other.spec_columns()
                        ==> dot_product_in_range(
                        #[trigger] self.spec_row(r),
                        #[trigger] other.spec_column(c),
                        self.spec_columns(),
                    ),
                row <= rows,
                data@.len() == row * columns,
                forall|r: int, c: int|
                    0 <= r < row && 0 <= c < columns ==> #[trigger] data@[r * columns + c]
                        == dot_product(self.spec_row(r), other.spec_column(c), inner as int),
            decreases rows - row,
        {
            let mut column: usize = 0;
            while column < columns
                invariant
                    T::obeys_add_spec(),
                    T::obeys_mul_spec(),
                    self.well_formed(),
                    other.well_formed(),
                    rows == self.spec_rows(),
                    columns == other.spec_columns(),
                    inner == self.spec_columns(),
                    inner == other.spec_rows(),
                    forall|r: int, c: int|
                        0 <= r < self.spec_rows() && 0 <= c < other.spec_columns()
                            ==> dot_product_in_range(
                            #[trigger] self.spec_row(r),
                            #[trigger] other.spec_column(c),
                            self.spec_columns(),
                        ),
                    row < rows,
                    column <= columns,
                    data@.len() == row * columns + column,
                    forall|r: int, c: int|
                        0 <= r < row && 0 <= c < columns ==> #[trigger] data@[r * columns + c]
                            == dot_product(self.spec_row(r), other.spec_column(c), inner as int),
                    forall|c: int|
                        0 <= c < column ==> #[trigger] data@[row * columns + c] == dot_product(
                            self.spec_row(row as int),
                            other.spec_column(c),
                            inner as int,
                        ),
                decreases columns - column,
            {
                let ghost a = self.spec_row(row as int);
                let ghost b = other.spec_column(column as int);
                proof {
                    assert(dot_product_in_range(a, b, inner as int));
                    if 1 < inner {
                        lemma_dot_product_in_range_prefix(a, b, inner as int, 1);
                    }
                }

                // Calculate the sum of products. Since there is no general
                // neutral element of addition for `T`, calculate the first
                // product outside the loop to initialize the accumulator;
                // there is at least this first element since a matrix cannot
                // be empty.
                let mut element: T = self.get_unchecked(row, 0) * other.get_unchecked(0, column);
                let mut i: usize = 1;
                while i < inner
                    invariant
                        T::obeys_add_spec(),
                        T::obeys_mul_spec(),
                        self.well_formed(),
                        other.well_formed(),
                        inner == self.spec_columns(),
                        inner == other.spec_rows(),
                        row < self.spec_rows(),
                        column < other.spec_columns(),
                        a == self.spec_row(row as int),
                        b == other.spec_column(column as int),
                        dot_product_in_range(a, b, inner as int),
                        1 <= i <= inner,
                        element == dot_product(a, b, i as int),
                    decreases inner - i,
                {
                    proof {
                        lemma_dot_product_in_range_prefix(a, b, inner as int, i + 1);
                    }
                    let product: T = self.get_unchecked(row, i) * other.get_unchecked(i, column);
                    element = element + product;
                    i += 1;
                }
                data.push(element);
                proof {
                    assert forall|r: int, c: int| 0 <= r < row && 0 <= c < columns implies #[trigger] (
                    r * columns + c) < row * columns by {
                        lemma_row_major_index_in_bounds(r, c, row as int, columns as int);
                    };
                }
                column += 1;
            }
            proof {
                assert((row + 1) * columns == row * columns + columns) by (nonlinear_arith);
            }
            row += 1;
        }

        let product = Matrix { rows, columns, data };
        Ok(product)
    }
}

} // verus!
