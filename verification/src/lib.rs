//! Driver core for a grid control surface of nine by nine lights that speaks MIDI.

pub mod color;
pub mod event;
pub mod launchpad_x;
pub mod layout;
pub mod ports;
pub mod shortcuts;
pub mod state;
pub mod sysex;

use vstd::prelude::*;
use crate::color::LaunchpadColor;
use crate::state::LaunchpadState;

verus! {

/// What can be told to light the grid. Columns and rows count from 0 to 8. A cell
/// that does not lie in the grid is not accepted, nor a rectangle of which a cell
/// does not; a rectangle without a cell is accepted wherever it starts.
pub trait LaunchpadOutput {
    /// Gives every light the colour `color`.
    fn set_all_lights(&mut self, color: LaunchpadColor);

    /// Gives the light in column `x` of row `y` the colour `color`.
    fn set_light(&mut self, x: usize, y: usize, color: LaunchpadColor)
        requires
            x < 9,
            y < 9,
    ;

    /// Gives every light the colour that `lights` holds for it.
    fn set_state(&mut self, lights: LaunchpadState);

    /// Turns every light off.
    fn clear_grid(&mut self);

    /// Gives the colour `color` to the lights of the rectangle that starts in column
    /// `x` and row `y` and is `width` columns wide and `height` rows high. A rectangle
    /// that is no column wide or no row high has no light, and nothing is done for it.
    fn set_box(&mut self, x: usize, y: usize, width: usize, height: usize, color: LaunchpadColor)
        requires
            width == 0 || height == 0 || (x + width <= 9 && y + height <= 9),
    ;
}

} // verus!
