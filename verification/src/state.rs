//! The colours that the lights of the grid are meant to show.

use vstd::prelude::*;
use crate::color::LaunchpadColor;
use crate::layout::in_grid;
use crate::LaunchpadOutput;

verus! {

/// `grid` has nine rows of nine cells; `grid[y][x]` is the cell in column `x` of row `y`.
pub open spec fn is_grid(grid: Seq<Seq<LaunchpadColor>>) -> bool {
    grid.len() == 9 && forall|y: int| 0 <= y < 9 ==> (#[trigger] grid[y]).len() == 9
}

/// Column `i` and row `j` lie in the rectangle whose first cell is in column `x` and
/// row `y` and that is `width` columns wide and `height` rows high.
pub open spec fn in_region(i: int, j: int, x: int, y: int, width: int, height: int) -> bool {
    x <= i < x + width && y <= j < y + height
}

/// The grid of which every cell shows `color`.
pub open spec fn grid_filled(color: LaunchpadColor) -> Seq<Seq<LaunchpadColor>> {
    Seq::new(9, |j: int| Seq::new(9, |i: int| color))
}

/// `grid` with every cell replaced by `color`.
pub open spec fn grid_fill(grid: Seq<Seq<LaunchpadColor>>, color: LaunchpadColor) -> Seq<
    Seq<LaunchpadColor>,
> {
    grid_fill_region(grid, 0, 0, 9, 9, color)
}

/// `grid` with the cell in column `x` of row `y` replaced by `color`.
pub open spec fn grid_set(grid: Seq<Seq<LaunchpadColor>>, x: int, y: int, color: LaunchpadColor) -> Seq<
    Seq<LaunchpadColor>,
> {
    grid.update(y, grid[y].update(x, color))
}

/// `grid` with the cells of a rectangle replaced by `color`, the others kept.
pub open spec fn grid_fill_region(
    grid: Seq<Seq<LaunchpadColor>>,
    x: int,
    y: int,
    width: int,
    height: int,
    color: LaunchpadColor,
) -> Seq<Seq<LaunchpadColor>> {
    Seq::new(
        9,
        |j: int|
            Seq::new(
                9,
                |i: int|
                    if in_region(i, j, x, y, width, height) {
                        color
                    } else {
                        grid[j][i]
                    },
            ),
    )
}

/// The colours of all the lights of the grid. A new buffer is dark, and every cell
/// always holds a colour: nothing is left out and nothing is shared.
pub struct LaunchpadState {
    lights: [[LaunchpadColor; 9]; 9],
}

impl View for LaunchpadState {
    type V = Seq<Seq<LaunchpadColor>>;

    /// The buffer as nine rows of nine colours.
    closed spec fn view(&self) -> Seq<Seq<LaunchpadColor>> {
        Seq::new(9, |j: int| Seq::new(9, |i: int| self.lights[j][i]))
    }
}

impl LaunchpadState {
    /// A buffer in which every light is off.
    pub fn new() -> (state: LaunchpadState)
        ensures
            state@ == grid_filled(LaunchpadColor::black()),
    {
        let state = LaunchpadState { lights: [[LaunchpadColor::black(); 9]; 9] };
        assert(state@ =~~= grid_filled(LaunchpadColor::black()));
        state
    }

    /// The whole buffer, as `lights[row][column]`.
    pub fn get_lights(&self) -> (lights: &[[LaunchpadColor; 9]; 9])
        ensures
            forall|x: int, y: int| in_grid(x, y) ==> (#[trigger] lights[y][x]) == self@[y][x],
    {
        &self.lights
    }

    /// The colour of the cell in column `x` of row `y`.
    pub fn get_light(&self, x: usize, y: usize) -> (color: LaunchpadColor)
        requires
            in_grid(x as int, y as int),
        ensures
            color == self@[y as int][x as int],
    {
        self.lights[y][x]
    }

    /// A buffer always views as a grid of nine by nine.
    pub proof fn lemma_view_is_grid(&self)
        ensures
            is_grid(self@),
    {
    }
}

impl LaunchpadOutput for LaunchpadState {
    /// Replaces every cell by `color`.
    fn set_all_lights(&mut self, color: LaunchpadColor)
        ensures
            final(self)@ == grid_fill(old(self)@, color),
            final(self)@ == grid_filled(color),
    {
        self.set_box(0, 0, 9, 9, color);
        assert(self@ =~~= grid_filled(color));
    }

    /// Replaces the cell in column `x` of row `y` by `color` and keeps the others.
    fn set_light(&mut self, x: usize, y: usize, color: LaunchpadColor)
        ensures
            final(self)@ == grid_set(old(self)@, x as int, y as int, color),
    {
        self.lights[y][x] = color;
        assert(self@ =~~= grid_set(old(self)@, x as int, y as int, color));
    }

    /// Replaces every cell by the cell of `state` at the same place.
    fn set_state(&mut self, state: LaunchpadState)
        ensures
            final(self)@ == state@,
    {
        let source = state.get_lights();
        let mut y: usize = 0;
        while y < 9
            invariant
                y <= 9,
                forall|i: int, j: int| in_grid(i, j) ==> (#[trigger] source[j][i]) == state@[j][i],
                forall|i: int, j: int|
                    0 <= i < 9 && 0 <= j < y ==> (#[trigger] self.lights[j][i]) == state@[j][i],
            decreases 9 - y,
        {
            let mut x: usize = 0;
            while x < 9
                invariant
                    x <= 9,
                    y < 9,
                    forall|i: int, j: int|
                        in_grid(i, j) ==> (#[trigger] source[j][i]) == state@[j][i],
                    forall|i: int, j: int|
                        0 <= i < 9 && 0 <= j < y ==> (#[trigger] self.lights[j][i]) == state@[j][i],
                    forall|i: int| 0 <= i < x ==> (#[trigger] self.lights[y as int][i]) == state@[y as int][i],
                decreases 9 - x,
            {
                self.lights[y][x] = source[y][x];
                x += 1;
            }
            y += 1;
        }
        assert(self@ =~~= state@);
    }

    /// Turns every light off.
    fn clear_grid(&mut self)
        ensures
            final(self)@ == grid_fill(old(self)@, LaunchpadColor::black()),
            final(self)@ == grid_filled(LaunchpadColor::black()),
    {
        self.set_all_lights(LaunchpadColor::black());
    }

    /// Replaces by `color` the cells of the rectangle that starts in column `x` and
    /// row `y` and is `width` columns wide and `height` rows high, and keeps the others.
    /// A rectangle without a cell changes nothing.
    fn set_box(&mut self, x: usize, y: usize, width: usize, height: usize, color: LaunchpadColor)
        ensures
            final(self)@ == grid_fill_region(
                old(self)@,
                x as int,
                y as int,
                width as int,
                height as int,
                color,
            ),
    {
        if width == 0 || height == 0 {
            assert(self@ =~~= grid_fill_region(
                old(self)@,
                x as int,
                y as int,
                width as int,
                height as int,
                color,
            ));
            return;
        }
        let ghost before = self@;
        let mut row: usize = y;
        while row < y + height
            invariant
                y <= row <= y + height <= 9,
                x + width <= 9,
                before == old(self)@,
                forall|i: int, j: int|
                    in_grid(i, j) ==> (#[trigger] self.lights[j][i]) == (if in_region(
                        i,
                        j,
                        x as int,
                        y as int,
                        width as int,
                        row - y,
                    ) {
                        color
                    } else {
                        before[j][i]
                    }),
            decreases y + height - row,
        {
            let mut column: usize = x;
            while column < x + width
                invariant
                    x <= column <= x + width <= 9,
                    y <= row < y + height <= 9,
                    before == old(self)@,
                    forall|i: int, j: int|
                        in_grid(i, j) ==> (#[trigger] self.lights[j][i]) == (if in_region(
                            i,
                            j,
                            x as int,
                            y as int,
                            width as int,
                            row - y,
                        ) || (j == row && x <= i < column) {
                            color
                        } else {
                            before[j][i]
                        }),
                decreases x + width - column,
            {
                self.lights[row][column] = color;
                column += 1;
            }
            row += 1;
        }
        assert(self@ =~~= grid_fill_region(
            before,
            x as int,
            y as int,
            width as int,
            height as int,
            color,
        ));
    }
}

/// A rectangle is filled exactly: the cells in it take the colour, and every other
/// cell of the grid keeps its own.
pub proof fn lemma_fill_region_covers_its_rectangle(
    grid: Seq<Seq<LaunchpadColor>>,
    x: int,
    y: int,
    width: int,
    height: int,
    color: LaunchpadColor,
)
    ensures
        is_grid(grid_fill_region(grid, x, y, width, height, color)),
        forall|i: int, j: int|
            in_grid(i, j) ==> (#[trigger] grid_fill_region(grid, x, y, width, height, color)[j][i])
                == (if in_region(i, j, x, y, width, height) {
                color
            } else {
                grid[j][i]
            }),
{
}

/// Setting one cell changes that cell and no other.
pub proof fn lemma_set_changes_one_cell(
    grid: Seq<Seq<LaunchpadColor>>,
    x: int,
    y: int,
    color: LaunchpadColor,
)
    requires
        is_grid(grid),
        in_grid(x, y),
    ensures
        is_grid(grid_set(grid, x, y, color)),
        forall|i: int, j: int|
            in_grid(i, j) ==> (#[trigger] grid_set(grid, x, y, color)[j][i]) == (if i == x && j == y {
                color
            } else {
                grid[j][i]
            }),
{
}

/// Setting one cell is filling the rectangle of one column and one row at that cell.
pub proof fn lemma_set_is_unit_region(
    grid: Seq<Seq<LaunchpadColor>>,
    x: int,
    y: int,
    color: LaunchpadColor,
)
    requires
        is_grid(grid),
        in_grid(x, y),
    ensures
        grid_set(grid, x, y, color) == grid_fill_region(grid, x, y, 1, 1, color),
{
    assert(grid_set(grid, x, y, color) =~~= grid_fill_region(grid, x, y, 1, 1, color));
}

/// Filling the whole grid gives the grid of one colour, whatever it held before.
pub proof fn lemma_fill_forgets(grid: Seq<Seq<LaunchpadColor>>, color: LaunchpadColor)
    ensures
        grid_fill(grid, color) == grid_filled(color),
{
    assert(grid_fill(grid, color) =~~= grid_filled(color));
}

/// Filling a rectangle a second time with the same colour changes nothing.
pub proof fn lemma_fill_region_idempotent(
    grid: Seq<Seq<LaunchpadColor>>,
    x: int,
    y: int,
    width: int,
    height: int,
    color: LaunchpadColor,
)
    ensures
        grid_fill_region(
            grid_fill_region(grid, x, y, width, height, color),
            x,
            y,
            width,
            height,
            color,
        ) == grid_fill_region(grid, x, y, width, height, color),
{
    assert(grid_fill_region(
        grid_fill_region(grid, x, y, width, height, color),
        x,
        y,
        width,
        height,
        color,
    ) =~~= grid_fill_region(grid, x, y, width, height, color));
}

/// Filling the whole grid a second time with the same colour changes nothing.
pub proof fn lemma_fill_idempotent(grid: Seq<Seq<LaunchpadColor>>, color: LaunchpadColor)
    ensures
        grid_fill(grid_fill(grid, color), color) == grid_fill(grid, color),
{
    lemma_fill_region_idempotent(grid, 0, 0, 9, 9, color);
}

/// The grid of one colour has nine rows of nine cells, each of that colour.
pub proof fn lemma_filled_is_grid(color: LaunchpadColor)
    ensures
        is_grid(grid_filled(color)),
        forall|i: int, j: int| in_grid(i, j) ==> (#[trigger] grid_filled(color)[j][i]) == color,
{
}

/// Filling a rectangle that is no column wide or no row high changes nothing,
/// wherever the rectangle starts.
pub proof fn lemma_fill_empty_region(
    grid: Seq<Seq<LaunchpadColor>>,
    x: int,
    y: int,
    width: int,
    height: int,
    color: LaunchpadColor,
)
    requires
        is_grid(grid),
        width <= 0 || height <= 0,
    ensures
        grid_fill_region(grid, x, y, width, height, color) == grid,
{
    assert(grid_fill_region(grid, x, y, width, height, color) =~~= grid);
}

} // verus!
