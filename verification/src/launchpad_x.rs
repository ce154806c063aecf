//! The driver for the Launchpad X: which pad has which number, what the device's
//! messages mean, and the messages that light its pads.
//!
//! The driver does no input or output of its own. What it has to tell the device it
//! queues, whole message by whole message, for its owner to write to the port.

use vstd::prelude::*;
use vstd::slice::slice_to_vec;
use crate::color::{LaunchpadColor, clamp_intensity};
use crate::event::{LaunchpadEvent, LaunchpadEventArgs};
use crate::layout::{
    LED_LAYOUT, in_grid, lemma_coordinate_of_native_index, lemma_coordinate_of_none, native_index,
    pad_cell,
};
use crate::state::{LaunchpadState, grid_filled};
use crate::sysex::{
    COLOR_MODE_RGB, COMMAND_LIGHTS, COMMAND_MODE, SYSEX_END, SYSEX_START, box_frame, fill_frame,
    handshake_frame, light_entry, light_frame, region_frame, region_rows, row_entries, state_frame,
};
use crate::LaunchpadOutput;

verus! {

/// Status byte of a message that says a pad was released.
pub const NOTE_OFF: u8 = 0x80;

/// Status byte of a message that says how hard a pad is held down.
pub const NOTE_ON: u8 = 0x90;

/// Status byte of a message that gives the value of a button of the top row or of
/// the right column.
pub const CONTROL_CHANGE: u8 = 0xB0;

/// The event that a pad's value stands for: released at 0, pressed otherwise.
pub open spec fn switch_event(x: usize, y: usize, value: u8) -> LaunchpadEventArgs {
    if value == 0 {
        LaunchpadEventArgs::Released { x, y }
    } else {
        LaunchpadEventArgs::Pressed { x, y }
    }
}

/// What a message from the device says of a pad.
///
/// The first byte is the status, the second the pad number, the third the value. A
/// note-off message means a release whatever its value, and needs none. A note-on or
/// a control-change message means a release at value 0 and a press at any other. A
/// message with another status, with a number that no pad has, or too short to hold
/// what its status calls for says nothing.
pub open spec fn decode(message: Seq<u8>) -> Option<LaunchpadEventArgs> {
    if message.len() < 2 {
        None
    } else {
        match pad_cell(message[1]) {
            None => None,
            Some(cell) => if message[0] == NOTE_OFF {
                Some(LaunchpadEventArgs::Released { x: cell.0, y: cell.1 })
            } else if (message[0] == NOTE_ON || message[0] == CONTROL_CHANGE) && message.len() >= 3 {
                Some(switch_event(cell.0, cell.1, message[2]))
            } else {
                None
            },
        }
    }
}

/// A note-off message for a pad of the grid means that the pad was released,
/// whatever its third byte; for a number that no pad has it says nothing.
pub proof fn lemma_decode_note_off(pad: u8, value: u8)
    ensures
        decode(seq![NOTE_OFF, pad, value]) == match pad_cell(pad) {
            Some(cell) => Some(LaunchpadEventArgs::Released { x: cell.0, y: cell.1 }),
            None => None,
        },
        decode(seq![NOTE_OFF, pad]) == decode(seq![NOTE_OFF, pad, value]),
{
}

/// A note-on message for a pad of the grid means a release at velocity 0 and a
/// press at any other velocity; for a number that no pad has it says nothing.
pub proof fn lemma_decode_note_on(pad: u8, velocity: u8)
    ensures
        decode(seq![NOTE_ON, pad, velocity]) == match pad_cell(pad) {
            Some(cell) => Some(
                if velocity == 0 {
                    LaunchpadEventArgs::Released { x: cell.0, y: cell.1 }
                } else {
                    LaunchpadEventArgs::Pressed { x: cell.0, y: cell.1 }
                },
            ),
            None => None,
        },
{
}

/// A control-change message for a pad of the grid means a release at value 0 and a
/// press at any other value; for a number that no pad has it says nothing.
pub proof fn lemma_decode_control_change(pad: u8, value: u8)
    ensures
        decode(seq![CONTROL_CHANGE, pad, value]) == match pad_cell(pad) {
            Some(cell) => Some(
                if value == 0 {
                    LaunchpadEventArgs::Released { x: cell.0, y: cell.1 }
                } else {
                    LaunchpadEventArgs::Pressed { x: cell.0, y: cell.1 }
                },
            ),
            None => None,
        },
{
}

/// A message with any other status says nothing, and so does an empty one.
pub proof fn lemma_decode_other_status(message: Seq<u8>)
    requires
        message.len() == 0 || (message[0] != NOTE_OFF && message[0] != NOTE_ON && message[0]
            != CONTROL_CHANGE),
    ensures
        decode(message) is None,
{
}

/// For the pad in column `x` of row `y`, a note-on message with velocity 0 means a
/// release, and one with any other velocity a press, of that very pad.
pub proof fn lemma_velocity_zero_is_release(x: usize, y: usize, velocity: u8)
    requires
        in_grid(x as int, y as int),
    ensures
        decode(seq![NOTE_ON, native_index(x as int, y as int) as u8, 0u8]) == Some(
            LaunchpadEventArgs::Released { x, y },
        ),
        velocity != 0 ==> decode(seq![NOTE_ON, native_index(x as int, y as int) as u8, velocity])
            == Some(LaunchpadEventArgs::Pressed { x, y }),
{
    lemma_coordinate_of_native_index(x as int, y as int);
}

/// An event that a message decodes to names a cell of the grid, the one whose pad
/// number is the message's second byte.
pub proof fn lemma_decoded_event_is_in_grid(message: Seq<u8>)
    requires
        decode(message) is Some,
    ensures
        in_grid(decode(message)->0.column() as int, decode(message)->0.row() as int),
        native_index(decode(message)->0.column() as int, decode(message)->0.row() as int)
            == message[1],
{
}

/// The messages held by a queue, as byte sequences, oldest first.
pub open spec fn messages_of(queue: Seq<Vec<u8>>) -> Seq<Seq<u8>> {
    queue.map_values(|message: Vec<u8>| message@)
}

/// Where the colours of a lighting command come from.
enum Paint<'a> {
    /// Every light gets this colour.
    Uniform(LaunchpadColor),
    /// Every light gets the colour that the buffer holds for it.
    Buffer(&'a LaunchpadState),
}

impl<'a> Paint<'a> {
    spec fn grid(&self) -> Seq<Seq<LaunchpadColor>> {
        match self {
            Paint::Uniform(color) => grid_filled(*color),
            Paint::Buffer(state) => state@,
        }
    }

    fn color_at(&self, x: usize, y: usize) -> (color: LaunchpadColor)
        requires
            in_grid(x as int, y as int),
        ensures
            color == self.grid()[y as int][x as int],
    {
        match self {
            Paint::Uniform(color) => *color,
            Paint::Buffer(state) => state.get_light(x, y),
        }
    }
}

/// The driver's side of the conversation with one device.
pub struct LaunchpadX {
    outbox: Vec<Vec<u8>>,
}

impl LaunchpadX {
    /// The messages queued for the device and not yet taken, oldest first.
    pub closed spec fn pending(&self) -> Seq<Seq<u8>> {
        messages_of(self.outbox@)
    }

    /// The pad number of the cell in column `x` of row `y`.
    pub fn to_native(x: usize, y: usize) -> (pad: u8)
        requires
            in_grid(x as int, y as int),
        ensures
            pad == native_index(x as int, y as int),
            pad_cell(pad) == Some((x, y)),
    {
        proof {
            lemma_coordinate_of_native_index(x as int, y as int);
        }
        LED_LAYOUT[y][x]
    }

    /// The cell with pad number `pad`, as column and row; `None` where no cell has it.
    pub fn lookup_layout(pad: u8) -> (cell: Option<(usize, usize)>)
        ensures
            cell == pad_cell(pad),
    {
        let mut y: usize = 0;
        while y < 9
            invariant
                y <= 9,
                forall|i: int, j: int|
                    0 <= i < 9 && 0 <= j < y ==> #[trigger] native_index(i, j) != pad,
            decreases 9 - y,
        {
            let mut x: usize = 0;
            while x < 9
                invariant
                    x <= 9,
                    y < 9,
                    forall|i: int, j: int|
                        0 <= i < 9 && 0 <= j < y ==> #[trigger] native_index(i, j) != pad,
                    forall|i: int| 0 <= i < x ==> #[trigger] native_index(i, y as int) != pad,
                decreases 9 - x,
            {
                if LED_LAYOUT[y][x] == pad {
                    proof {
                        lemma_coordinate_of_native_index(x as int, y as int);
                    }
                    return Some((x, y));
                }
                x += 1;
            }
            y += 1;
        }
        proof {
            lemma_coordinate_of_none(pad as int);
        }
        None
    }

    /// What the message `message` from the device says of a pad, if anything.
    pub fn parse_midi_message(message: &[u8]) -> (event: Option<LaunchpadEventArgs>)
        ensures
            event == decode(message@),
    {
        if message.len() < 2 {
            return None;
        }
        let status = message[0];
        if status != NOTE_OFF && status != NOTE_ON && status != CONTROL_CHANGE {
            return None;
        }
        match LaunchpadX::lookup_layout(message[1]) {
            Some((x, y)) => {
                if status == NOTE_OFF {
                    Some(LaunchpadEventArgs::Released { x, y })
                } else if message.len() < 3 {
                    None
                } else if message[2] == 0 {
                    Some(LaunchpadEventArgs::Released { x, y })
                } else {
                    Some(LaunchpadEventArgs::Pressed { x, y })
                }
            },
            None => None,
        }
    }

    /// Reads one message from the device and, where it says something of a pad,
    /// publishes that to the handlers of `event`. Says whether it did.
    pub fn receive(message: &[u8], event: &LaunchpadEvent) -> (published: bool)
        ensures
            published == decode(message@).is_some(),
    {
        match LaunchpadX::parse_midi_message(message) {
            Some(args) => {
                event.trigger(args);
                true
            },
            None => false,
        }
    }
}

/// Adds to `message` the five bytes that give the light in column `x` of row `y` the
/// colour `color`.
fn push_entry(message: &mut Vec<u8>, x: usize, y: usize, color: LaunchpadColor)
    requires
        in_grid(x as int, y as int),
    ensures
        final(message)@ == old(message)@ + light_entry(x as int, y as int, color),
{
    message.push(COLOR_MODE_RGB);
    message.push(LaunchpadX::to_native(x, y));
    message.push(clamp_intensity(color.red));
    message.push(clamp_intensity(color.green));
    message.push(clamp_intensity(color.blue));
}

/// The first bytes of a message with command byte `command`.
fn begin_message(command: u8) -> (message: Vec<u8>)
    ensures
        message@ == seq![0xF0u8, 0x00u8, 0x20u8, 0x29u8, 0x02u8, 0x0Cu8, command],
{
    let mut message: Vec<u8> = Vec::new();
    message.push(SYSEX_START);
    message.push(0x00);
    message.push(0x20);
    message.push(0x29);
    message.push(0x02);
    message.push(0x0C);
    message.push(command);
    message
}

/// The message that gives each light of a rectangle the colour that `paint` has for it.
fn encode_region(paint: &Paint, x: usize, y: usize, width: usize, height: usize) -> (message: Vec<u8>)
    requires
        x + width <= 9,
        y + height <= 9,
    ensures
        message@ == region_frame(paint.grid(), x as int, y as int, width as int, height as int),
{
    let mut message = begin_message(COMMAND_LIGHTS);
    let ghost head = message@;
    let ghost rows = region_rows(paint.grid(), x as int, y as int, width as int, height as int);
    let mut row: usize = y;
    while row < y + height
        invariant
            y <= row <= y + height <= 9,
            x + width <= 9,
            rows == region_rows(paint.grid(), x as int, y as int, width as int, height as int),
            message@ == head + rows.take(row - y).flatten(),
        decreases y + height - row,
    {
        let ghost entries = row_entries(paint.grid(), x as int, row as int, width as int);
        let ghost row_start = message@;
        let mut column: usize = x;
        while column < x + width
            invariant
                x <= column <= x + width <= 9,
                row < 9,
                entries == row_entries(paint.grid(), x as int, row as int, width as int),
                message@ == row_start + entries.take(column - x).flatten(),
            decreases x + width - column,
        {
            let color = paint.color_at(column, row);
            push_entry(&mut message, column, row, color);
            proof {
                let done = column - x;
                assert(entries.take(done + 1) =~= entries.take(done).push(entries[done]));
                entries.take(done).lemma_flatten_push(entries[done]);
            }
            column += 1;
        }
        proof {
            let done = row - y;
            assert(entries.take(width as int) =~= entries);
            assert(rows.take(done + 1) =~= rows.take(done).push(rows[done]));
            rows.take(done).lemma_flatten_push(rows[done]);
        }
        row += 1;
    }
    message.push(SYSEX_END);
    proof {
        assert(rows.take(height as int) =~= rows);
    }
    message
}

impl LaunchpadX {
    /// A driver for a device that was just opened. The message that switches the
    /// device to the mode in which it takes colours is queued, and nothing else.
    pub fn init() -> (pad: LaunchpadX)
        ensures
            pad.pending() == seq![handshake_frame()],
    {
        let mut message = begin_message(COMMAND_MODE);
        message.push(0x01);
        message.push(SYSEX_END);
        assert(message@ =~= handshake_frame());
        let mut outbox: Vec<Vec<u8>> = Vec::new();
        outbox.push(message);
        LaunchpadX { outbox }
    }

    /// Queues `message` for the device, behind the messages already queued.
    pub fn send(&mut self, message: &[u8])
        ensures
            final(self).pending() == old(self).pending().push(message@),
    {
        self.enqueue(slice_to_vec(message));
    }

    /// Hands out the queued messages, oldest first, and leaves the queue empty.
    pub fn take_pending(&mut self) -> (messages: Vec<Vec<u8>>)
        ensures
            messages_of(messages@) == old(self).pending(),
            messages@.len() == old(self).pending().len(),
            forall|k: int|
                0 <= k < messages@.len() ==> (#[trigger] messages@[k])@ == old(self).pending()[k],
            final(self).pending() == Seq::<Seq<u8>>::empty(),
    {
        let mut messages: Vec<Vec<u8>> = Vec::new();
        core::mem::swap(&mut self.outbox, &mut messages);
        messages
    }

    fn enqueue(&mut self, message: Vec<u8>)
        ensures
            final(self).pending() == old(self).pending().push(message@),
    {
        self.outbox.push(message);
    }
}

impl LaunchpadOutput for LaunchpadX {
    /// Queues the message that gives every light the colour `color`.
    fn set_all_lights(&mut self, color: LaunchpadColor)
        ensures
            final(self).pending() == old(self).pending().push(fill_frame(color)),
    {
        self.enqueue(encode_region(&Paint::Uniform(color), 0, 0, 9, 9));
    }

    /// Queues the message that gives the light in column `x` of row `y` the colour
    /// `color`.
    fn set_light(&mut self, x: usize, y: usize, color: LaunchpadColor)
        ensures
            final(self).pending() == old(self).pending().push(light_frame(x as int, y as int, color)),
    {
        let mut message = begin_message(COMMAND_LIGHTS);
        push_entry(&mut message, x, y, color);
        message.push(SYSEX_END);
        assert(message@ =~= light_frame(x as int, y as int, color));
        self.enqueue(message);
    }

    /// Queues the message that gives every light the colour that `lights` holds for
    /// it. The message names all the lights, changed or not.
    fn set_state(&mut self, lights: LaunchpadState)
        ensures
            final(self).pending() == old(self).pending().push(state_frame(lights@)),
    {
        self.enqueue(encode_region(&Paint::Buffer(&lights), 0, 0, 9, 9));
    }

    /// Queues the message that turns every light off.
    fn clear_grid(&mut self)
        ensures
            final(self).pending() == old(self).pending().push(fill_frame(LaunchpadColor::black())),
    {
        self.set_all_lights(LaunchpadColor::black());
    }

    /// Queues the message that gives the colour `color` to the lights of the rectangle
    /// that starts in column `x` and row `y` and is `width` columns wide and `height`
    /// rows high. A rectangle that is no column wide or no row high has no light:
    /// nothing is queued for it, since a lighting command names at least one.
    fn set_box(&mut self, x: usize, y: usize, width: usize, height: usize, color: LaunchpadColor)
        ensures
            final(self).pending() == (if width == 0 || height == 0 {
                old(self).pending()
            } else {
                old(self).pending().push(
                    box_frame(x as int, y as int, width as int, height as int, color),
                )
            }),
    {
        if width != 0 && height != 0 {
            self.enqueue(encode_region(&Paint::Uniform(color), x, y, width, height));
        }
    }
}

} // verus!
