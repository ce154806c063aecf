//! The device's pad numbering.
//!
//! The surface is addressed as a grid of nine columns and nine rows. Row 0 is the
//! control row at the top, column 8 the column at the right edge. The device numbers
//! its pads by tens from the bottom row up and by ones from the left column on.

use vstd::prelude::*;

verus! {

/// The pad number of each cell, as `LED_LAYOUT[row][column]`.
pub const LED_LAYOUT: [[u8; 9]; 9] = [
    [91, 92, 93, 94, 95, 96, 97, 98, 99],
    [81, 82, 83, 84, 85, 86, 87, 88, 89],
    [71, 72, 73, 74, 75, 76, 77, 78, 79],
    [61, 62, 63, 64, 65, 66, 67, 68, 69],
    [51, 52, 53, 54, 55, 56, 57, 58, 59],
    [41, 42, 43, 44, 45, 46, 47, 48, 49],
    [31, 32, 33, 34, 35, 36, 37, 38, 39],
    [21, 22, 23, 24, 25, 26, 27, 28, 29],
    [11, 12, 13, 14, 15, 16, 17, 18, 19],
];

/// Column `x` and row `y` name a cell of the grid.
pub open spec fn in_grid(x: int, y: int) -> bool {
    0 <= x < 9 && 0 <= y < 9
}

/// The pad number of the cell in column `x` and row `y`.
pub open spec fn native_index(x: int, y: int) -> int {
    10 * (9 - y) + x + 1
}

/// The pad number `pad` belongs to a cell of the grid.
pub open spec fn is_pad(pad: int) -> bool {
    11 <= pad <= 99 && pad % 10 != 0
}

/// The cell, as column and row, that has pad number `pad`; `None` where no cell has it.
pub open spec fn coordinate_of(pad: int) -> Option<(int, int)> {
    if is_pad(pad) {
        Some((pad % 10 - 1, 9 - pad / 10))
    } else {
        None
    }
}

/// The cell with pad number `pad`, as column and row; `None` where no cell has it.
pub open spec fn pad_cell(pad: u8) -> Option<(usize, usize)> {
    match coordinate_of(pad as int) {
        Some(cell) => Some((cell.0 as usize, cell.1 as usize)),
        None => None,
    }
}

/// The table holds, for every cell, the pad number that `native_index` gives.
pub proof fn lemma_table_matches_formula(x: int, y: int)
    requires
        in_grid(x, y),
    ensures
        LED_LAYOUT[y][x] as int == native_index(x, y),
{
}

/// Every pad number of the grid fits in seven bits, as a data byte of a MIDI message must.
pub proof fn lemma_native_index_is_data_byte(x: int, y: int)
    requires
        in_grid(x, y),
    ensures
        is_pad(native_index(x, y)),
        11 <= native_index(x, y) <= 99,
{
}

/// Looking up the pad number of a cell gives that cell back.
pub proof fn lemma_coordinate_of_native_index(x: int, y: int)
    requires
        in_grid(x, y),
    ensures
        coordinate_of(native_index(x, y)) == Some((x, y)),
{
}

/// A pad number that the lookup finds belongs to the cell found, which lies in the grid.
pub proof fn lemma_native_index_of_coordinate(pad: int, x: int, y: int)
    requires
        coordinate_of(pad) == Some((x, y)),
    ensures
        in_grid(x, y),
        native_index(x, y) == pad,
{
}

/// The lookup finds nothing exactly for the numbers that no cell of the grid has.
pub proof fn lemma_coordinate_of_none(pad: int)
    ensures
        coordinate_of(pad) is None <==> forall|x: int, y: int|
            in_grid(x, y) ==> #[trigger] native_index(x, y) != pad,
{
    if coordinate_of(pad) is Some {
        let cell = coordinate_of(pad)->0;
        lemma_native_index_of_coordinate(pad, cell.0, cell.1);
    }
}

/// No two cells of the grid share a pad number.
pub proof fn lemma_native_index_injective(x1: int, y1: int, x2: int, y2: int)
    requires
        in_grid(x1, y1),
        in_grid(x2, y2),
        native_index(x1, y1) == native_index(x2, y2),
    ensures
        x1 == x2,
        y1 == y2,
{
}

/// The two directions of the layout agree on every cell of the grid: the cell with
/// the pad number of a cell is that cell.
pub proof fn lemma_pad_cell_of_native_index(x: usize, y: usize)
    requires
        in_grid(x as int, y as int),
    ensures
        pad_cell(native_index(x as int, y as int) as u8) == Some((x, y)),
{
}

/// A byte has a cell exactly where it is the pad number of a cell of the grid, and
/// then that cell is the one it has.
pub proof fn lemma_pad_cell_is_the_inverse(pad: u8)
    ensures
        match pad_cell(pad) {
            Some(cell) => in_grid(cell.0 as int, cell.1 as int) && native_index(
                cell.0 as int,
                cell.1 as int,
            ) == pad,
            None => forall|x: int, y: int| in_grid(x, y) ==> #[trigger] native_index(x, y) != pad,
        },
{
    lemma_coordinate_of_none(pad as int);
}

} // verus!
