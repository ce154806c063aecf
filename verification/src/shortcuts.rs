//! A board of shortcuts on the grid.
//!
//! The top row chooses one of eight pages. The right column is a bar of eight
//! shortcuts that is there on every page. The eight by eight pads below the top row
//! and left of the bar hold the shortcuts of the page that is shown.

use vstd::prelude::*;
use crate::color::LaunchpadColor;
use crate::event::LaunchpadEventArgs;
use crate::layout::in_grid;
use crate::state::{LaunchpadState, grid_fill_region, grid_set, is_grid};
use crate::LaunchpadOutput;

verus! {

/// What a shortcut does when its pad is pressed.
pub trait ShortcutAction: Sync + Send {
    fn run(&self);
}

/// A shortcut: the colour of its pad and what the pad does.
pub struct Shortcut {
    pub color: LaunchpadColor,
    pub callback: Box<dyn ShortcutAction>,
}

impl Shortcut {
    /// Does what the shortcut stands for.
    pub fn invoke(&self) {
        self.callback.run();
    }
}

/// The shortcuts of one page, as `shortcuts[row][column]`, rows and columns counted
/// from the pad below the top row at the left edge.
#[derive(Default)]
pub struct ShortcutPage {
    pub shortcuts: [[Option<Shortcut>; 8]; 8],
}

/// The shortcuts of the bar at the right edge, from the pad below the top row down.
#[derive(Default)]
pub struct ShortcutHotbar {
    pub shortcuts: [Option<Shortcut>; 8],
}

/// The eight pages.
#[derive(Default)]
pub struct ShortcutPages {
    pub pages: [ShortcutPage; 8],
}

/// What a pad event asks of the board.
#[derive(Copy, Clone, Debug, PartialEq, Eq, Structural)]
pub enum BoardAction {
    /// Show the page with this number.
    ShowPage(usize),
    /// Run the shortcut at this place of the bar.
    RunHotbar(usize),
    /// Run the shortcut `shortcuts[first][second]` of the page that is shown.
    RunShortcut { first: usize, second: usize },
    /// Nothing.
    Nothing,
}

/// What the event `event` asks of the board. Only a press asks for anything: on the
/// top row for the page of the pad's column, on the right column for the shortcut of
/// the bar beside the pad, and anywhere else for a shortcut of the page, found by the
/// pad's column first and the row below the top row second.
pub open spec fn spec_action_for(event: LaunchpadEventArgs) -> BoardAction {
    match event {
        LaunchpadEventArgs::Pressed { x, y } => if y == 0 {
            BoardAction::ShowPage(x)
        } else if x == 8 {
            BoardAction::RunHotbar((y - 1) as usize)
        } else {
            BoardAction::RunShortcut { first: x, second: (y - 1) as usize }
        },
        LaunchpadEventArgs::Released { x, y } => BoardAction::Nothing,
    }
}

/// What the event `event` asks of the board.
#[verifier::when_used_as_spec(spec_action_for)]
pub fn action_for(event: LaunchpadEventArgs) -> (action: BoardAction)
    ensures
        action == spec_action_for(event),
{
    match event {
        LaunchpadEventArgs::Pressed { x, y } => {
            if y == 0 {
                BoardAction::ShowPage(x)
            } else if x == 8 {
                BoardAction::RunHotbar(y - 1)
            } else {
                BoardAction::RunShortcut { first: x, second: y - 1 }
            }
        },
        LaunchpadEventArgs::Released { x, y } => BoardAction::Nothing,
    }
}

/// The colour of the pad of a place that may hold a shortcut: the shortcut's, and off
/// where there is none.
pub open spec fn slot_color(slot: Option<Shortcut>) -> LaunchpadColor {
    match slot {
        Some(shortcut) => shortcut.color,
        None => LaunchpadColor::black(),
    }
}

/// The colour that the board gives the light in column `x` of row `y` while page
/// `current_page` is shown. In the top row the pad of the page shown is red and the
/// pads of the other pages are blue; the corner pad is off. Below it, each pad has the
/// colour of its shortcut.
pub open spec fn board_color(
    current_page: int,
    hotbar: &ShortcutHotbar,
    page: &ShortcutPage,
    x: int,
    y: int,
) -> LaunchpadColor {
    if y == 0 {
        if x == current_page {
            LaunchpadColor::red()
        } else if x < 8 {
            LaunchpadColor::blue()
        } else {
            LaunchpadColor::black()
        }
    } else if x == 8 {
        slot_color(hotbar.shortcuts[y - 1])
    } else {
        slot_color(page.shortcuts[y - 1][x])
    }
}

/// The lights of the whole board while page `current_page` is shown.
pub open spec fn board_picture(current_page: int, hotbar: &ShortcutHotbar, page: &ShortcutPage) -> Seq<
    Seq<LaunchpadColor>,
> {
    Seq::new(9, |y: int| Seq::new(9, |x: int| board_color(current_page, hotbar, page, x, y)))
}

/// Lights the tabs of the pages in `state`: the top row blue up to the corner, and
/// the pad of page `page` red.
fn render_tab_bar(state: &mut LaunchpadState, page: usize)
    requires
        page < 9,
    ensures
        final(state)@ == grid_set(
            grid_fill_region(old(state)@, 0, 0, 8, 1, LaunchpadColor::blue()),
            page as int,
            0,
            LaunchpadColor::red(),
        ),
{
    state.set_box(0, 0, 8, 1, LaunchpadColor::blue());
    state.set_light(page, 0, LaunchpadColor::red());
}

/// Lights the bar in `state`: each pad of the right column that has a shortcut gets
/// the shortcut's colour.
fn render_hot_bar(state: &mut LaunchpadState, hotbar: &ShortcutHotbar)
    ensures
        is_grid(final(state)@),
        forall|i: int, j: int|
            in_grid(i, j) ==> (#[trigger] final(state)@[j][i]) == (if i == 8 && j >= 1
                && hotbar.shortcuts[j - 1] is Some {
                slot_color(hotbar.shortcuts[j - 1])
            } else {
                old(state)@[j][i]
            }),
{
    proof {
        state.lemma_view_is_grid();
    }
    let mut y: usize = 0;
    while y < 8
        invariant
            y <= 8,
            is_grid(state@),
            forall|i: int, j: int|
                in_grid(i, j) ==> (#[trigger] state@[j][i]) == (if i == 8 && 1 <= j <= y
                    && hotbar.shortcuts[j - 1] is Some {
                    slot_color(hotbar.shortcuts[j - 1])
                } else {
                    old(state)@[j][i]
                }),
        decreases 8 - y,
    {
        match &hotbar.shortcuts[y] {
            Some(shortcut) => {
                state.set_light(8, y + 1, shortcut.color);
            },
            _ => (),
        }
        y += 1;
    }
}

/// Lights the page in `state`: each pad below the top row and left of the bar that
/// has a shortcut gets the shortcut's colour.
fn render_page(state: &mut LaunchpadState, page: &ShortcutPage)
    ensures
        is_grid(final(state)@),
        forall|i: int, j: int|
            in_grid(i, j) ==> (#[trigger] final(state)@[j][i]) == (if i < 8 && j >= 1
                && page.shortcuts[j - 1][i] is Some {
                slot_color(page.shortcuts[j - 1][i])
            } else {
                old(state)@[j][i]
            }),
{
    proof {
        state.lemma_view_is_grid();
    }
    let mut y: usize = 0;
    while y < 8
        invariant
            y <= 8,
            is_grid(state@),
            forall|i: int, j: int|
                in_grid(i, j) ==> (#[trigger] state@[j][i]) == (if i < 8 && 1 <= j <= y
                    && page.shortcuts[j - 1][i] is Some {
                    slot_color(page.shortcuts[j - 1][i])
                } else {
                    old(state)@[j][i]
                }),
        decreases 8 - y,
    {
        let mut x: usize = 0;
        while x < 8
            invariant
                x <= 8,
                y < 8,
                is_grid(state@),
                forall|i: int, j: int|
                    in_grid(i, j) ==> (#[trigger] state@[j][i]) == (if i < 8 && (1 <= j <= y || (j
                        == y + 1 && i < x)) && page.shortcuts[j - 1][i] is Some {
                        slot_color(page.shortcuts[j - 1][i])
                    } else {
                        old(state)@[j][i]
                    }),
            decreases 8 - x,
        {
            match &page.shortcuts[y][x] {
                Some(shortcut) => {
                    state.set_light(x, y + 1, shortcut.color);
                },
                _ => (),
            }
            x += 1;
        }
        y += 1;
    }
}

/// The lights of the board while page `current_page` is shown, with the bar
/// `hotbar` and the page's shortcuts `page`.
pub fn render(current_page: usize, hotbar: &ShortcutHotbar, page: &ShortcutPage) -> (state:
    LaunchpadState)
    requires
        current_page < 8,
    ensures
        state@ == board_picture(current_page as int, hotbar, page),
{
    let mut state = LaunchpadState::new();
    state.clear_grid();
    render_tab_bar(&mut state, current_page);
    render_hot_bar(&mut state, hotbar);
    render_page(&mut state, page);
    assert(state@ =~~= board_picture(current_page as int, hotbar, page));
    state
}

} // verus!
