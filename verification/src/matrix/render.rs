//! Human readable rendering of matrices.
//!
//! A matrix is rendered as a rectangular grid: one line per row, each line
//! surrounded by square brackets, and within a line one entry per column,
//! separated by three spaces. All entries of a column are left-aligned to
//! the width of the widest entry in that column; the column widths are
//! computed independently per column, not globally.
//!
//! The rendering works on the already formatted text of each cell, handed
//! over as one string per cell in row-major order, so that it applies to a
//! matrix of any element type.

use vstd::prelude::*;

verus! {

/// A sequence of `count` space characters.
pub open spec fn spaces(count: int) -> Seq<char>
    decreases count,
{
    if count <= 0 {
        Seq::empty()
    } else {
        spaces(count - 1).push(' ')
    }
}

/// The text of a cell, left-aligned to `width` characters by appending
/// spaces.
pub open spec fn padded_cell(cell: Seq<char>, width: int) -> Seq<char> {
    cell + spaces(width - cell.len())
}

/// The length of the longest cell among the first `rows` entries of the
/// given column, for cells laid out in row-major order with `columns`
/// columns.
pub open spec fn column_width(cells: Seq<Seq<char>>, columns: int, column: int, rows: int) -> int
    decreases rows,
{
    if rows <= 0 {
        0
    } else {
        let above = column_width(cells, columns, column, rows - 1);
        let current = cells[(rows - 1) * columns + column].len() as int;
        if current > above {
            current
        } else {
            above
        }
    }
}

/// The text of the first `upto` cells of the given row, each left-aligned
/// to its column's width, joined by three spaces.
pub open spec fn row_cells_text(
    cells: Seq<Seq<char>>,
    rows: int,
    columns: int,
    row: int,
    upto: int,
) -> Seq<char>
    decreases upto,
{
    if upto <= 0 {
        Seq::empty()
    } else if upto == 1 {
        padded_cell(cells[row * columns], column_width(cells, columns, 0, rows))
    } else {
        row_cells_text(cells, rows, columns, row, upto - 1) + "   "@ + padded_cell(
            cells[row * columns + (upto - 1)],
            column_width(cells, columns, upto - 1, rows),
        )
    }
}

/// The text of one row of the grid: its aligned cells, surrounded by square
/// brackets.
pub open spec fn row_text(cells: Seq<Seq<char>>, rows: int, columns: int, row: int) -> Seq<char> {
    "["@ + row_cells_text(cells, rows, columns, row, columns) + "]"@
}

/// The text of the first `upto` rows of the grid, joined by line breaks.
pub open spec fn grid_text_upto(cells: Seq<Seq<char>>, rows: int, columns: int, upto: int) -> Seq<
    char,
>
    decreases upto,
{
    if upto <= 0 {
        Seq::empty()
    } else if upto == 1 {
        row_text(cells, rows, columns, 0)
    } else {
        grid_text_upto(cells, rows, columns, upto - 1) + "\n"@ + row_text(
            cells,
            rows,
            columns,
            upto - 1,
        )
    }
}

/// The complete text of the grid: every row on a line of its own.
pub open spec fn grid_text(cells: Seq<Seq<char>>, rows: int, columns: int) -> Seq<char> {
    grid_text_upto(cells, rows, columns, rows)
}

/// The texts of the given cells.
pub open spec fn cell_views(cells: Seq<String>) -> Seq<Seq<char>> {
    cells.map_values(|cell: String| cell@)
}

/// No cell of a column is longer than the column's width.
proof fn lemma_column_width_bounds(
    cells: Seq<Seq<char>>,
    columns: int,
    column: int,
    rows: int,
    row: int,
)
    requires
        0 <= row < rows,
    ensures
        cells[row * columns + column].len() <= column_width(cells, columns, column, rows),
        0 <= column_width(cells, columns, column, rows),
    decreases rows,
{
    if row < rows - 1 {
        lemma_column_width_bounds(cells, columns, column, rows - 1, row);
    }
}

/// The text of a cell, left-aligned to the given width by appending spaces.
fn padded_cell_string(cell: &String, width: usize) -> (padded: String)
    requires
        cell@.len() <= width,
    ensures
        padded@ == padded_cell(cell@, width as int),
{
    let mut padded: String = String::from_str(cell.as_str());
    let length: usize = cell.as_str().unicode_len();
    let mut position: usize = length;
    proof {
        assert(padded@ =~= cell@ + spaces(0));
    }
    while position < width
        invariant
            length == cell@.len(),
            length <= position <= width,
            padded@ == cell@ + spaces(position - length),
        decreases width - position,
    {
        padded.append(" ");
        position += 1;
        proof {
            reveal_strlit(" ");
            assert(spaces(position - length) =~= spaces(position - 1 - length) + " "@);
            assert(cell@ + spaces(position - length) =~= (cell@ + spaces(position - 1 - length))
                + " "@);
        }
    }
    padded
}

/// Turn the formatted cells of a matrix into a human readable grid.
///
/// `cells` holds the text of each cell of a `rows x columns` matrix in
/// row-major order. The result has one line per row; each line shows the
/// row's cells surrounded by square brackets and separated by three spaces,
/// with every cell left-aligned to the width of the widest cell of its
/// column.
pub fn grid_string(rows: usize, columns: usize, cells: &Vec<String>) -> (text: String)
    requires
        1 <= rows,
        1 <= columns,
        rows * columns <= usize::MAX,
        cells@.len() == rows * columns,
    ensures
        text@ == grid_text(cell_views(cells@), rows as int, columns as int),
{
    let ghost views = cell_views(cells@);

    // Align all columns, but each column may have a different alignment.
    // Thus, first iterate over the columns, then the rows, to get the width
    // of each column from all values in the column.
    let cell_slice: &[String] = cells.as_slice();
    let mut widths: Vec<usize> = Vec::with_capacity(columns);
    let mut column: usize = 0;
    while column < columns
        invariant
            1 <= rows,
            1 <= columns,
            rows * columns <= usize::MAX,
            cells@.len() == rows * columns,
            cell_slice@ == cells@,
            views == cell_views(cells@),
            column <= columns,
            widths@.len() == column,
            forall|c: int|
                0 <= c < column ==> #[trigger] widths@[c] == column_width(
                    views,
                    columns as int,
                    c,
                    rows as int,
                ),
        decreases columns - column,
    {
        let mut width: usize = 0;
        let mut row: usize = 0;
        while row < rows
            invariant
                1 <= rows,
                1 <= columns,
                rows * columns <= usize::MAX,
                cells@.len() == rows * columns,
                cell_slice@ == cells@,
                views == cell_views(cells@),
                column < columns,
                row <= rows,
                width == column_width(views, columns as int, column as int, row as int),
            decreases rows - row,
        {
            proof {
                crate::matrix::definition::lemma_row_major_index_in_bounds(
                    row as int,
                    column as int,
                    rows as int,
                    columns as int,
                );
            }
            let index: usize = row * columns + column;
            let cell: &String = vstd::slice::slice_index_get(cell_slice, index);
            let length: usize = cell.as_str().unicode_len();
            if length > width {
                width = length;
            }
            row += 1;
        }
        widths.push(width);
        column += 1;
    }

    // Now, go through each row and format each value with the width of its
    // column, concatenating all aligned values of the row with three spaces,
    // surrounded by square brackets, and all rows with a line break.
    let mut text: String = String::new();
    let mut row: usize = 0;
    proof {
        assert(text@ =~= grid_text_upto(views, rows as int, columns as int, 0));
    }
    while row < rows
        invariant
            1 <= rows,
            1 <= columns,
            rows * columns <= usize::MAX,
            cells@.len() == rows * columns,
            cell_slice@ == cells@,
            views == cell_views(cells@),
            widths@.len() == columns,
            forall|c: int|
                0 <= c < columns ==> #[trigger] widths@[c] == column_width(
                    views,
                    columns as int,
                    c,
                    rows as int,
                ),
            row <= rows,
            text@ == grid_text_upto(views, rows as int, columns as int, row as int),
        decreases rows - row,
    {
        let ghost text_before_row = text@;
        if row > 0 {
            text.append("\n");
        }
        text.append("[");
        let ghost line_start = text@;
        proof {
            assert(line_start =~= text_before_row + (if row == 0 {
                Seq::<char>::empty()
            } else {
                "\n"@
            }) + "["@);
            assert(text@ =~= line_start + row_cells_text(
                views,
                rows as int,
                columns as int,
                row as int,
                0,
            ));
        }
        let mut column: usize = 0;
        while column < columns
            invariant
                1 <= rows,
                1 <= columns,
                rows * columns <= usize::MAX,
                cells@.len() == rows * columns,
                cell_slice@ == cells@,
                views == cell_views(cells@),
                widths@.len() == columns,
                forall|c: int|
                    0 <= c < columns ==> #[trigger] widths@[c] == column_width(
                        views,
                        columns as int,
                        c,
                        rows as int,
                    ),
                row < rows,
                column <= columns,
                text@ == line_start + row_cells_text(
                    views,
                    rows as int,
                    columns as int,
                    row as int,
                    column as int,
                ),
            decreases columns - column,
        {
            proof {
                crate::matrix::definition::lemma_row_major_index_in_bounds(
                    row as int,
                    column as int,
                    rows as int,
                    columns as int,
                );
                lemma_column_width_bounds(
                    views,
                    columns as int,
                    column as int,
                    rows as int,
                    row as int,
                );
            }
            let ghost text_before_cell = text@;
            if column > 0 {
                text.append("   ");
            }
            let index: usize = row * columns + column;
            let cell: &String = vstd::slice::slice_index_get(cell_slice, index);
            let width: usize = widths[column];
            let aligned: String = padded_cell_string(cell, width);
            text.append(aligned.as_str());
            proof {
                let r = row as int;
                let c = column as int;
                let cs = columns as int;
                let rs = rows as int;
                assert(views[r * cs + c] == cells@[r * cs + c]@);
                if column == 0 {
                    assert(row_cells_text(views, rs, cs, r, 1) == padded_cell(
                        views[r * cs],
                        column_width(views, cs, 0, rs),
                    ));
                    assert(text@ =~= line_start + row_cells_text(views, rs, cs, r, 1));
                } else {
                    assert(row_cells_text(views, rs, cs, r, c + 1) == row_cells_text(
                        views,
                        rs,
                        cs,
                        r,
                        c,
                    ) + "   "@ + padded_cell(views[r * cs + c], column_width(views, cs, c, rs)));
                    assert(text@ =~= line_start + row_cells_text(views, rs, cs, r, c + 1));
                }
            }
            column += 1;
        }
        text.append("]");
        proof {
            let r = row as int;
            let cs = columns as int;
            let rs = rows as int;
            assert(row_text(views, rs, cs, r) == "["@ + row_cells_text(views, rs, cs, r, cs)
                + "]"@);
            if row == 0 {
                assert(grid_text_upto(views, rs, cs, 1) == row_text(views, rs, cs, 0));
                assert(text@ =~= grid_text_upto(views, rs, cs, 1));
            } else {
                assert(grid_text_upto(views, rs, cs, r + 1) == grid_text_upto(views, rs, cs, r)
                    + "\n"@ + row_text(views, rs, cs, r));
                assert(text@ =~= grid_text_upto(views, rs, cs, r + 1));
            }
        }
        row += 1;
    }
    text
}

} // verus!
