use launchpad::color::LaunchpadColor;
use launchpad::launchpad_x::LaunchpadX;
use launchpad::state::LaunchpadState;
use launchpad::sysex::{COLOR_MODE_RGB, COMMAND_LIGHTS, COMMAND_MODE, SYSEX_END, SYSEX_START};
use launchpad::LaunchpadOutput;

const HEADER: [u8; 7] = [0xF0, 0x00, 0x20, 0x29, 0x02, 0x0C, 0x03];

/// A driver whose queue is empty.
fn fresh() -> LaunchpadX {
    let mut pad = LaunchpadX::init();
    pad.take_pending();
    pad
}

/// The one message that `pad` has queued.
fn only_message(pad: &mut LaunchpadX) -> Vec<u8> {
    let mut messages = pad.take_pending();
    assert_eq!(messages.len(), 1);
    messages.remove(0)
}

fn entry(message: &[u8], place: usize) -> &[u8] {
    &message[7 + 5 * place..7 + 5 * place + 5]
}

fn assert_well_formed(message: &[u8]) {
    assert_eq!(message[0], 0xF0);
    assert_eq!(message[message.len() - 1], 0xF7);
    assert!(message[1..message.len() - 1].iter().all(|b| *b < 0x80));
}

#[test]
fn protocol_constants() {
    assert_eq!(SYSEX_START, 0xF0);
    assert_eq!(SYSEX_END, 0xF7);
    assert_eq!(COMMAND_MODE, 0x0E);
    assert_eq!(COMMAND_LIGHTS, 0x03);
    assert_eq!(COLOR_MODE_RGB, 0x03);
}

#[test]
fn init_queues_the_handshake() {
    let mut pad = LaunchpadX::init();
    let messages = pad.take_pending();
    assert_eq!(messages, vec![vec![0xF0, 0x00, 0x20, 0x29, 0x02, 0x0C, 0x0E, 0x01, 0xF7]]);
}

#[test]
fn take_pending_empties_the_queue() {
    let mut pad = LaunchpadX::init();
    assert_eq!(pad.take_pending().len(), 1);
    assert_eq!(pad.take_pending().len(), 0);
}

#[test]
fn set_light_green_at_4_0() {
    let mut pad = fresh();
    pad.set_light(4, 0, LaunchpadColor::green());
    let message = only_message(&mut pad);
    assert_eq!(&message[..7], &[0xF0, 0x00, 0x20, 0x29, 0x02, 0x0C, 0x03]);
    assert_eq!(&message[7..12], &[0x03, LaunchpadX::to_native(4, 0), 0x00, 0x7F, 0x00]);
    assert_eq!(&message[12..], &[0xF7]);
    assert_eq!(
        message,
        vec![0xF0, 0x00, 0x20, 0x29, 0x02, 0x0C, 0x03, 0x03, 95, 0x00, 0x7F, 0x00, 0xF7]
    );
}

#[test]
fn set_light_sends_levels_within_the_device_range() {
    let mut pad = fresh();
    pad.set_light(0, 8, LaunchpadColor { red: 255, green: 128, blue: 127 });
    let message = only_message(&mut pad);
    assert_eq!(entry(&message, 0), &[0x03, 11, 127, 127, 127]);
    assert_well_formed(&message);
    pad.set_light(0, 8, LaunchpadColor { red: 0, green: 87, blue: 107 });
    let message = only_message(&mut pad);
    assert_eq!(entry(&message, 0), &[0x03, 11, 0, 87, 107]);
}

#[test]
fn set_all_lights_names_every_light_row_by_row() {
    let mut pad = fresh();
    pad.set_all_lights(LaunchpadColor::blue());
    let message = only_message(&mut pad);
    assert_eq!(message.len(), 7 + 81 * 5 + 1);
    assert_eq!(&message[..7], &HEADER);
    for y in 0..9 {
        for x in 0..9 {
            assert_eq!(
                entry(&message, 9 * y + x),
                &[0x03, LaunchpadX::to_native(x, y), 0, 0, 127]
            );
        }
    }
    assert_eq!(message[message.len() - 1], 0xF7);
    assert_well_formed(&message);
}

#[test]
fn clear_grid_is_set_all_lights_off() {
    let mut pad = fresh();
    pad.clear_grid();
    let cleared = only_message(&mut pad);
    pad.set_all_lights(LaunchpadColor::black());
    let filled = only_message(&mut pad);
    assert_eq!(cleared, filled);
    assert_eq!(entry(&cleared, 0), &[0x03, 91, 0, 0, 0]);
    assert_eq!(entry(&cleared, 80), &[0x03, 19, 0, 0, 0]);
}

#[test]
fn set_box_names_the_lights_of_the_rectangle() {
    let mut pad = fresh();
    pad.set_box(2, 3, 2, 2, LaunchpadColor::red());
    let message = only_message(&mut pad);
    let mut expected = HEADER.to_vec();
    for (x, y) in [(2, 3), (3, 3), (2, 4), (3, 4)] {
        expected.extend_from_slice(&[0x03, LaunchpadX::to_native(x, y), 127, 0, 0]);
    }
    expected.push(0xF7);
    assert_eq!(message, expected);
    assert_eq!(&message[7..12], &[0x03, 63, 127, 0, 0]);
    assert_eq!(&message[12..17], &[0x03, 64, 127, 0, 0]);
    assert_eq!(&message[17..22], &[0x03, 53, 127, 0, 0]);
    assert_eq!(&message[22..27], &[0x03, 54, 127, 0, 0]);
}

#[test]
fn set_box_of_one_cell_is_set_light() {
    let mut pad = fresh();
    pad.set_box(5, 6, 1, 1, LaunchpadColor::green());
    let boxed = only_message(&mut pad);
    pad.set_light(5, 6, LaunchpadColor::green());
    let single = only_message(&mut pad);
    assert_eq!(boxed, single);
}

#[test]
fn set_box_of_the_whole_grid_is_set_all_lights() {
    let mut pad = fresh();
    pad.set_box(0, 0, 9, 9, LaunchpadColor::red());
    let boxed = only_message(&mut pad);
    pad.set_all_lights(LaunchpadColor::red());
    let filled = only_message(&mut pad);
    assert_eq!(boxed, filled);
}

#[test]
fn an_empty_box_sends_nothing() {
    let mut pad = fresh();
    pad.set_box(3, 3, 0, 4, LaunchpadColor::red());
    assert!(pad.take_pending().is_empty());
    pad.set_box(3, 3, 4, 0, LaunchpadColor::red());
    assert!(pad.take_pending().is_empty());
    pad.set_box(0, 0, 0, 0, LaunchpadColor::red());
    assert!(pad.take_pending().is_empty());
    pad.set_box(9, 9, 0, 0, LaunchpadColor::red());
    assert!(pad.take_pending().is_empty());
}

#[test]
fn an_empty_box_sends_nothing_wherever_it_starts() {
    let mut pad = fresh();
    pad.set_box(40, 2, 0, 3, LaunchpadColor::red());
    pad.set_box(2, 40, 3, 0, LaunchpadColor::red());
    pad.set_box(2, 2, 0, 20, LaunchpadColor::red());
    pad.set_box(2, 2, 20, 0, LaunchpadColor::red());
    pad.set_box(usize::MAX, usize::MAX, 0, usize::MAX, LaunchpadColor::red());
    assert!(pad.take_pending().is_empty());
}

#[test]
fn an_empty_box_leaves_the_queue_as_it_is() {
    let mut pad = LaunchpadX::init();
    pad.set_light(1, 1, LaunchpadColor::blue());
    pad.set_box(1, 1, 0, 1, LaunchpadColor::red());
    let messages = pad.take_pending();
    assert_eq!(messages.len(), 2);
    assert_eq!(messages[0], vec![0xF0, 0x00, 0x20, 0x29, 0x02, 0x0C, 0x0E, 0x01, 0xF7]);
    assert_eq!(messages[1][7..12], [0x03, 82, 0, 0, 127]);
}

#[test]
fn every_lighting_command_names_a_light() {
    let mut pad = fresh();
    pad.set_box(8, 8, 1, 1, LaunchpadColor::red());
    pad.set_box(0, 0, 9, 1, LaunchpadColor::red());
    pad.set_box(4, 4, 0, 0, LaunchpadColor::red());
    pad.set_light(0, 0, LaunchpadColor::red());
    pad.clear_grid();
    let messages = pad.take_pending();
    assert_eq!(messages.len(), 4);
    for message in messages.iter() {
        assert!(message.len() >= 13);
        assert_eq!((message.len() - 8) % 5, 0);
        assert_eq!(message[7], 0x03);
        assert_well_formed(message);
    }
}

#[test]
fn set_state_names_all_81_lights() {
    let mut state = LaunchpadState::new();
    state.set_box(0, 0, 8, 1, LaunchpadColor::blue());
    state.set_light(4, 0, LaunchpadColor::green());
    state.set_light(2, 2, LaunchpadColor::red());
    let lights = *state.get_lights();
    let mut pad = fresh();
    pad.set_state(state);
    let message = only_message(&mut pad);
    assert_eq!(message.len(), 413);
    assert_eq!(&message[..7], &HEADER);
    for y in 0..9 {
        for x in 0..9 {
            let color = lights[y][x];
            assert_eq!(
                entry(&message, 9 * y + x),
                &[0x03, LaunchpadX::to_native(x, y), color.red, color.green, color.blue]
            );
        }
    }
    assert_eq!(entry(&message, 4), &[0x03, 95, 0, 127, 0]);
    assert_eq!(entry(&message, 20), &[0x03, 73, 127, 0, 0]);
    assert_eq!(entry(&message, 8), &[0x03, 99, 0, 0, 0]);
    assert_eq!(message[412], 0xF7);
    assert_well_formed(&message);
}

#[test]
fn set_state_sends_everything_again_when_little_changed() {
    let mut state = LaunchpadState::new();
    state.set_light(1, 1, LaunchpadColor::red());
    let mut pad = fresh();
    let mut first = LaunchpadState::new();
    first.set_state(LaunchpadState::new());
    first.set_light(1, 1, LaunchpadColor::red());
    pad.set_state(first);
    let before = only_message(&mut pad);
    state.set_light(1, 2, LaunchpadColor::red());
    pad.set_state(state);
    let after = only_message(&mut pad);
    assert_eq!(before.len(), 413);
    assert_eq!(after.len(), 413);
    let differing = (0..81).filter(|k| entry(&before, *k) != entry(&after, *k)).count();
    assert_eq!(differing, 1);
    let mut unchanged = LaunchpadState::new();
    unchanged.set_light(1, 1, LaunchpadColor::red());
    unchanged.set_light(1, 2, LaunchpadColor::red());
    pad.set_state(unchanged);
    assert_eq!(only_message(&mut pad), after);
}

#[test]
fn set_state_sends_levels_within_the_device_range() {
    let mut state = LaunchpadState::new();
    state.set_all_lights(LaunchpadColor { red: 200, green: 200, blue: 200 });
    let mut pad = fresh();
    pad.set_state(state);
    let message = only_message(&mut pad);
    assert_eq!(entry(&message, 40), &[0x03, 55, 127, 127, 127]);
    assert_well_formed(&message);
}

#[test]
fn messages_are_queued_whole_and_in_order() {
    let mut pad = LaunchpadX::init();
    pad.set_light(0, 0, LaunchpadColor::red());
    pad.send(&[0xF0, 0x7E, 0x7F, 0x06, 0x01, 0xF7]);
    pad.clear_grid();
    let messages = pad.take_pending();
    assert_eq!(messages.len(), 4);
    assert_eq!(messages[0], vec![0xF0, 0x00, 0x20, 0x29, 0x02, 0x0C, 0x0E, 0x01, 0xF7]);
    assert_eq!(messages[1].len(), 13);
    assert_eq!(messages[2], vec![0xF0, 0x7E, 0x7F, 0x06, 0x01, 0xF7]);
    assert_eq!(messages[3].len(), 413);
    for message in messages.iter() {
        assert_well_formed(message);
    }
}
