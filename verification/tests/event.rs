use launchpad::event::{LaunchpadEvent, LaunchpadEventArgs, LaunchpadEventHandler};
use launchpad::launchpad_x::LaunchpadX;
use std::sync::{Arc, Mutex};

type Log = Arc<Mutex<Vec<(&'static str, LaunchpadEventArgs)>>>;

struct Recorder {
    name: &'static str,
    log: Log,
}

impl LaunchpadEventHandler for Recorder {
    fn notify(&self, event: &LaunchpadEventArgs) {
        self.log.lock().unwrap().push((self.name, *event));
    }
}

fn recorder(name: &'static str, log: &Log) -> Box<dyn LaunchpadEventHandler> {
    Box::new(Recorder { name, log: log.clone() })
}

fn entries(log: &Log) -> Vec<(&'static str, LaunchpadEventArgs)> {
    log.lock().unwrap().clone()
}

#[test]
fn a_new_registry_is_empty() {
    assert_eq!(LaunchpadEvent::new().handler_count(), 0);
    assert_eq!(LaunchpadEvent::default().handler_count(), 0);
}

#[test]
fn subscribe_adds_one_handler() {
    let log = Log::default();
    let mut event = LaunchpadEvent::new();
    event.subscribe(recorder("A", &log));
    assert_eq!(event.handler_count(), 1);
    event.subscribe(recorder("B", &log));
    assert_eq!(event.handler_count(), 2);
    assert!(entries(&log).is_empty());
}

#[test]
fn trigger_calls_handlers_in_the_order_of_subscription() {
    let log = Log::default();
    let mut event = LaunchpadEvent::new();
    event.subscribe(recorder("A", &log));
    event.subscribe(recorder("B", &log));
    event.subscribe(recorder("C", &log));
    let pressed = LaunchpadEventArgs::Pressed { x: 1, y: 2 };
    event.trigger(pressed);
    assert_eq!(entries(&log), vec![("A", pressed), ("B", pressed), ("C", pressed)]);
    assert_eq!(event.handler_count(), 3);
}

#[test]
fn trigger_without_handlers_does_nothing() {
    let event = LaunchpadEvent::new();
    event.trigger(LaunchpadEventArgs::Released { x: 0, y: 0 });
    assert_eq!(event.handler_count(), 0);
}

#[test]
fn events_reach_handlers_in_the_order_published() {
    let log = Log::default();
    let mut event = LaunchpadEvent::new();
    event.subscribe(recorder("A", &log));
    event.subscribe(recorder("B", &log));
    let pressed = LaunchpadEventArgs::Pressed { x: 3, y: 4 };
    let released = LaunchpadEventArgs::Released { x: 3, y: 4 };
    event.trigger(pressed);
    event.trigger(released);
    assert_eq!(
        entries(&log),
        vec![("A", pressed), ("B", pressed), ("A", released), ("B", released)]
    );
}

#[test]
fn a_handler_subscribed_twice_is_called_twice() {
    let log = Log::default();
    let mut event = LaunchpadEvent::new();
    event.subscribe(recorder("A", &log));
    event.subscribe(recorder("A", &log));
    let pressed = LaunchpadEventArgs::Pressed { x: 0, y: 0 };
    event.trigger(pressed);
    assert_eq!(entries(&log), vec![("A", pressed), ("A", pressed)]);
}

#[test]
fn a_handler_sees_only_events_after_it_subscribed() {
    let log = Log::default();
    let mut event = LaunchpadEvent::new();
    event.subscribe(recorder("A", &log));
    let first = LaunchpadEventArgs::Pressed { x: 0, y: 0 };
    event.trigger(first);
    event.subscribe(recorder("B", &log));
    let second = LaunchpadEventArgs::Released { x: 0, y: 0 };
    event.trigger(second);
    assert_eq!(entries(&log), vec![("A", first), ("A", second), ("B", second)]);
}

#[test]
fn receive_publishes_what_a_message_says() {
    let log = Log::default();
    let mut event = LaunchpadEvent::new();
    event.subscribe(recorder("A", &log));
    event.subscribe(recorder("B", &log));
    assert!(LaunchpadX::receive(&[0x90, 95, 64], &event));
    assert!(LaunchpadX::receive(&[0x80, 95, 64], &event));
    let pressed = LaunchpadEventArgs::Pressed { x: 4, y: 0 };
    let released = LaunchpadEventArgs::Released { x: 4, y: 0 };
    assert_eq!(
        entries(&log),
        vec![("A", pressed), ("B", pressed), ("A", released), ("B", released)]
    );
}

#[test]
fn receive_drops_what_says_nothing() {
    let log = Log::default();
    let mut event = LaunchpadEvent::new();
    event.subscribe(recorder("A", &log));
    assert!(!LaunchpadX::receive(&[0xF8], &event));
    assert!(!LaunchpadX::receive(&[0x90, 100, 64], &event));
    assert!(!LaunchpadX::receive(&[0xA0, 95, 64], &event));
    assert!(!LaunchpadX::receive(&[], &event));
    assert!(entries(&log).is_empty());
}
