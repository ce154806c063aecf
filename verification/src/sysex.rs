//! The messages that the device is sent, as byte sequences.
//!
//! Every message is a System-Exclusive message: the start byte `F0`, the maker's
//! number `00 20 29`, the device's class `02 0C`, a command byte, the command's
//! data, and the end byte `F7`. A lighting command sets one light or more, and carries
//! five bytes for each: the colour mode, the pad number, and the red, green and blue
//! levels.

use vstd::prelude::*;
use crate::color::{LaunchpadColor, clamp_intensity};
use crate::layout::{in_grid, lemma_native_index_is_data_byte, native_index};
use crate::state::grid_filled;

verus! {

/// First byte of every message.
pub const SYSEX_START: u8 = 0xF0;

/// Last byte of every message.
pub const SYSEX_END: u8 = 0xF7;

/// The command that switches the device to the mode in which it takes colours.
pub const COMMAND_MODE: u8 = 0x0E;

/// The command that sets lights.
pub const COMMAND_LIGHTS: u8 = 0x03;

/// The colour mode in which a light is given its red, green and blue levels.
pub const COLOR_MODE_RGB: u8 = 0x03;

/// The message with command byte `command` and data `payload`.
pub open spec fn envelope(command: u8, payload: Seq<u8>) -> Seq<u8> {
    seq![0xF0u8, 0x00u8, 0x20u8, 0x29u8, 0x02u8, 0x0Cu8, command] + payload + seq![0xF7u8]
}

/// The message that switches the device to the mode in which it takes colours.
pub open spec fn handshake_frame() -> Seq<u8> {
    envelope(COMMAND_MODE, seq![0x01u8])
}

/// The five bytes that give the light in column `x` of row `y` the colour `color`.
/// A level above the device's range is sent as the highest level.
pub open spec fn light_entry(x: int, y: int, color: LaunchpadColor) -> Seq<u8> {
    seq![
        COLOR_MODE_RGB,
        native_index(x, y) as u8,
        clamp_intensity(color.red),
        clamp_intensity(color.green),
        clamp_intensity(color.blue),
    ]
}

/// The entries for `width` lights of row `y`, from column `x` on, each with the colour
/// that `grid` holds for it.
pub open spec fn row_entries(grid: Seq<Seq<LaunchpadColor>>, x: int, y: int, width: int) -> Seq<
    Seq<u8>,
> {
    Seq::new(width as nat, |i: int| light_entry(x + i, y, grid[y][x + i]))
}

/// The entries for the lights of a rectangle, row by row from the top and within a
/// row from the left, each row's entries joined into one sequence of bytes.
pub open spec fn region_rows(
    grid: Seq<Seq<LaunchpadColor>>,
    x: int,
    y: int,
    width: int,
    height: int,
) -> Seq<Seq<u8>> {
    Seq::new(height as nat, |j: int| row_entries(grid, x, y + j, width).flatten())
}

/// The message that gives each light of a rectangle the colour that `grid` holds for
/// it. It is a lighting command only for a rectangle that has a cell: the device is
/// sent none without a light.
pub open spec fn region_frame(
    grid: Seq<Seq<LaunchpadColor>>,
    x: int,
    y: int,
    width: int,
    height: int,
) -> Seq<u8> {
    envelope(COMMAND_LIGHTS, region_rows(grid, x, y, width, height).flatten())
}

/// The `place`-th entry of the lighting command `message`, counted from 0: the five
/// bytes that follow the command's first seven and the entries before it.
pub open spec fn entry_at(message: Seq<u8>, place: int) -> Seq<u8> {
    message.subrange(7 + 5 * place, 7 + 5 * place + 5)
}

/// The message that gives the light in column `x` of row `y` the colour `color`.
pub open spec fn light_frame(x: int, y: int, color: LaunchpadColor) -> Seq<u8> {
    envelope(COMMAND_LIGHTS, light_entry(x, y, color))
}

/// The message that gives the lights of a rectangle that has a cell the colour `color`.
pub open spec fn box_frame(x: int, y: int, width: int, height: int, color: LaunchpadColor) -> Seq<
    u8,
> {
    region_frame(grid_filled(color), x, y, width, height)
}

/// The message that gives every light the colour that `grid` holds for it: all
/// eighty-one lights, whatever was sent before.
pub open spec fn state_frame(grid: Seq<Seq<LaunchpadColor>>) -> Seq<u8> {
    region_frame(grid, 0, 0, 9, 9)
}

/// The message that gives every light the colour `color`.
pub open spec fn fill_frame(color: LaunchpadColor) -> Seq<u8> {
    state_frame(grid_filled(color))
}

/// A byte sequence is a well-formed System-Exclusive message: it starts with the start
/// byte, ends with the end byte, and holds only data bytes, below `0x80`, between.
pub open spec fn is_sysex(message: Seq<u8>) -> bool {
    &&& message.len() >= 2
    &&& message[0] == SYSEX_START
    &&& message.last() == SYSEX_END
    &&& forall|k: int| 0 < k < message.len() - 1 ==> #[trigger] message[k] < 0x80
}

/// Joining parts of one length: the joined sequence is as long as all of them, and
/// the bytes of each part stand together, parts in their order.
pub proof fn lemma_flatten_uniform(parts: Seq<Seq<u8>>, len: int)
    requires
        0 <= len,
        forall|k: int| 0 <= k < parts.len() ==> (#[trigger] parts[k]).len() == len,
    ensures
        parts.flatten().len() == parts.len() * len,
        forall|k: int, m: int|
            0 <= k < parts.len() && 0 <= m < len ==> parts.flatten()[#[trigger] (k * len + m)]
                == parts[k][m],
    decreases parts.len(),
{
    if parts.len() == 0 {
        assert(parts.len() * len == 0) by (nonlinear_arith)
            requires
                parts.len() == 0,
        ;
    } else {
        let front = parts.drop_last();
        let count = front.len() as int;
        lemma_flatten_uniform(front, len);
        assert(parts =~= front.push(parts.last()));
        front.lemma_flatten_push(parts.last());
        assert((count + 1) * len == count * len + len) by (nonlinear_arith);
        assert forall|k: int, m: int| 0 <= k < parts.len() && 0 <= m < len implies parts.flatten()[#[trigger] (k
            * len + m)] == parts[k][m] by {
            if k < count {
                assert(k * len + m < count * len) by (nonlinear_arith)
                    requires
                        0 <= k < count,
                        0 <= m < len,
                ;
                assert(0 <= k * len + m) by (nonlinear_arith)
                    requires
                        0 <= k,
                        0 <= m,
                        0 <= len,
                ;
            }
        }
    }
}

/// The entries of one row, joined: five bytes for each light, lights from the left.
pub proof fn lemma_row_layout(grid: Seq<Seq<LaunchpadColor>>, x: int, y: int, width: int)
    requires
        0 <= width,
    ensures
        row_entries(grid, x, y, width).flatten().len() == 5 * width,
        forall|i: int, m: int|
            0 <= i < width && 0 <= m < 5 ==> row_entries(grid, x, y, width).flatten()[#[trigger] (i
                * 5 + m)] == light_entry(x + i, y, grid[y][x + i])[m],
{
    lemma_flatten_uniform(row_entries(grid, x, y, width), 5);
}

/// Where a lighting command holds what. The message is eight bytes longer than five
/// for each light of the rectangle. It starts with the seven bytes that every lighting
/// command starts with and ends with the end byte. Between them stand the entries of
/// the lights, rows from the top and within a row from the left: the entry of the
/// light `i` columns and `j` rows into the rectangle is the `j * width + i`-th.
pub proof fn lemma_region_frame_layout(
    grid: Seq<Seq<LaunchpadColor>>,
    x: int,
    y: int,
    width: int,
    height: int,
)
    requires
        0 <= width,
        0 <= height,
    ensures
        region_frame(grid, x, y, width, height).len() == 8 + 5 * (width * height),
        region_frame(grid, x, y, width, height).take(7) == seq![
            0xF0u8,
            0x00u8,
            0x20u8,
            0x29u8,
            0x02u8,
            0x0Cu8,
            0x03u8,
        ],
        region_frame(grid, x, y, width, height).last() == SYSEX_END,
        forall|i: int, j: int|
            0 <= i < width && 0 <= j < height ==> #[trigger] entry_at(
                region_frame(grid, x, y, width, height),
                j * width + i,
            ) == light_entry(x + i, y + j, grid[y + j][x + i]),
{
    let rows = region_rows(grid, x, y, width, height);
    let frame = region_frame(grid, x, y, width, height);
    assert forall|j: int| 0 <= j < rows.len() implies (#[trigger] rows[j]).len() == 5 * width by {
        lemma_row_layout(grid, x, y + j, width);
    }
    lemma_flatten_uniform(rows, 5 * width);
    assert(height * (5 * width) == 5 * (width * height)) by (nonlinear_arith);
    assert forall|i: int, j: int| 0 <= i < width && 0 <= j < height implies #[trigger] entry_at(
        frame,
        j * width + i,
    ) == light_entry(x + i, y + j, grid[y + j][x + i]) by {
        let place = j * width + i;
        lemma_row_layout(grid, x, y + j, width);
        assert(j * (5 * width) + i * 5 == 5 * place) by (nonlinear_arith)
            requires
                place == j * width + i,
        ;
        assert(0 <= place < width * height) by (nonlinear_arith)
            requires
                place == j * width + i,
                0 <= i < width,
                0 <= j < height,
        ;
        assert forall|m: int| 0 <= m < 5 implies entry_at(frame, place)[m] == light_entry(
            x + i,
            y + j,
            grid[y + j][x + i],
        )[m] by {
            let within = i * 5 + m;
            assert(rows.flatten()[j * (5 * width) + within] == rows[j][within]);
        }
    }
}

/// A lighting command for a rectangle that has a cell names at least one light: it
/// is at least thirteen bytes long, and its first entry is that of the rectangle's
/// first cell.
pub proof fn lemma_region_frame_names_a_light(
    grid: Seq<Seq<LaunchpadColor>>,
    x: int,
    y: int,
    width: int,
    height: int,
)
    requires
        1 <= width,
        1 <= height,
    ensures
        region_frame(grid, x, y, width, height).len() >= 13,
        entry_at(region_frame(grid, x, y, width, height), 0) == light_entry(x, y, grid[y][x]),
{
    lemma_region_frame_layout(grid, x, y, width, height);
    assert(width * height >= 1) by (nonlinear_arith)
        requires
            1 <= width,
            1 <= height,
    ;
    assert(entry_at(region_frame(grid, x, y, width, height), 0 * width + 0) == light_entry(
        x + 0,
        y + 0,
        grid[y + 0][x + 0],
    ));
}

/// The command for the whole grid names every light, whatever the grid holds: it is
/// 413 bytes long, and the entry of the light in column `i` of row `j` is the
/// `9 * j + i`-th, with that light's pad number and the colour the grid holds for it.
pub proof fn lemma_state_frame_names_every_light(grid: Seq<Seq<LaunchpadColor>>)
    ensures
        state_frame(grid).len() == 413,
        forall|i: int, j: int|
            0 <= i < 9 && 0 <= j < 9 ==> #[trigger] entry_at(state_frame(grid), 9 * j + i)
                == light_entry(i, j, grid[j][i]),
{
    lemma_region_frame_layout(grid, 0, 0, 9, 9);
    assert forall|i: int, j: int| 0 <= i < 9 && 0 <= j < 9 implies #[trigger] entry_at(
        state_frame(grid),
        9 * j + i,
    ) == light_entry(i, j, grid[j][i]) by {
        assert(entry_at(region_frame(grid, 0, 0, 9, 9), j * 9 + i) == light_entry(
            0 + i,
            0 + j,
            grid[0 + j][0 + i],
        ));
    }
}

/// The command for one light, byte by byte.
pub proof fn lemma_light_frame_bytes(x: int, y: int, color: LaunchpadColor)
    ensures
        light_frame(x, y, color) == seq![
            0xF0u8,
            0x00u8,
            0x20u8,
            0x29u8,
            0x02u8,
            0x0Cu8,
            0x03u8,
            0x03u8,
            native_index(x, y) as u8,
            clamp_intensity(color.red),
            clamp_intensity(color.green),
            clamp_intensity(color.blue),
            0xF7u8,
        ],
{
}

/// The command that switches the device's mode, byte by byte.
pub proof fn lemma_handshake_frame_bytes()
    ensures
        handshake_frame() == seq![
            0xF0u8,
            0x00u8,
            0x20u8,
            0x29u8,
            0x02u8,
            0x0Cu8,
            0x0Eu8,
            0x01u8,
            0xF7u8,
        ],
        is_sysex(handshake_frame()),
{
}

/// The command for one light is the command for the rectangle of one column and one
/// row at that light.
pub proof fn lemma_light_frame_is_unit_box(x: int, y: int, color: LaunchpadColor)
    requires
        in_grid(x, y),
    ensures
        light_frame(x, y, color) == box_frame(x, y, 1, 1, color),
{
    let grid = grid_filled(color);
    let entries = row_entries(grid, x, y, 1);
    let rows = region_rows(grid, x, y, 1, 1);
    entries.lemma_flatten_one_element();
    rows.lemma_flatten_one_element();
}

/// The command for one light of the grid is a well-formed System-Exclusive message.
pub proof fn lemma_light_frame_is_sysex(x: int, y: int, color: LaunchpadColor)
    requires
        in_grid(x, y),
    ensures
        is_sysex(light_frame(x, y, color)),
{
    lemma_light_frame_is_unit_box(x, y, color);
    lemma_region_frame_is_sysex(grid_filled(color), x, y, 1, 1);
}

/// The command that gives every light one colour is the command for the rectangle
/// that is the whole grid.
pub proof fn lemma_fill_frame_is_full_box(color: LaunchpadColor)
    ensures
        fill_frame(color) == box_frame(0, 0, 9, 9, color),
{
}

/// Every lighting command for a rectangle within the grid is a well-formed
/// System-Exclusive message, whatever the colours: the levels are sent within the
/// device's range, and every pad number of the grid is a data byte.
pub proof fn lemma_region_frame_is_sysex(
    grid: Seq<Seq<LaunchpadColor>>,
    x: int,
    y: int,
    width: int,
    height: int,
)
    requires
        0 <= x,
        0 <= y,
        0 <= width,
        0 <= height,
        x + width <= 9,
        y + height <= 9,
    ensures
        is_sysex(region_frame(grid, x, y, width, height)),
{
    let frame = region_frame(grid, x, y, width, height);
    lemma_region_frame_layout(grid, x, y, width, height);
    assert forall|k: int| 0 < k < frame.len() - 1 implies #[trigger] frame[k] < 0x80 by {
        if k >= 7 {
            let place = (k - 7) / 5;
            let m = (k - 7) % 5;
            let j = place / width;
            let i = place % width;
            assert(width > 0) by (nonlinear_arith)
                requires
                    0 <= width,
                    0 <= height,
                    7 <= k < 8 + 5 * (width * height) - 1,
            ;
            assert(0 <= i < width && 0 <= j < height && place == j * width + i)
                by (nonlinear_arith)
                requires
                    0 <= place < width * height,
                    j == place / width,
                    i == place % width,
                    width > 0,
            ;
            assert(entry_at(frame, place)[m] == frame[k]);
            lemma_native_index_is_data_byte(x + i, y + j);
        }
    }
}

} // verus!
