//! Pad events and the registry of handlers that receive them.

use vstd::prelude::*;

verus! {

/// What happened to one pad: it was pressed or released, at column `x` and row `y`.
#[derive(Copy, Clone, Debug, PartialEq, Eq, Structural)]
pub enum LaunchpadEventArgs {
    Released { x: usize, y: usize },
    Pressed { x: usize, y: usize },
}

impl LaunchpadEventArgs {
    /// The column of the pad.
    pub open spec fn column(self) -> usize {
        match self {
            LaunchpadEventArgs::Released { x, y } => x,
            LaunchpadEventArgs::Pressed { x, y } => x,
        }
    }

    /// The row of the pad.
    pub open spec fn row(self) -> usize {
        match self {
            LaunchpadEventArgs::Released { x, y } => y,
            LaunchpadEventArgs::Pressed { x, y } => y,
        }
    }
}

/// A receiver of pad events.
///
/// `notify` is called once for each event published after the handler was subscribed.
/// Nothing is promised of what a handler does, and a handler that panics is not
/// contained: the panic leaves `LaunchpadEvent::trigger`, and the handlers subscribed
/// after it do not see the event.
pub trait LaunchpadEventHandler: Send + Sync {
    fn notify(&self, event: &LaunchpadEventArgs);
}

/// The handlers subscribed to pad events, in the order in which they subscribed.
///
/// Handlers are only ever added. While an event is published the registry is borrowed
/// shared, so no handler can subscribe another to the registry it is called from.
pub struct LaunchpadEvent {
    callbacks: Vec<Box<dyn LaunchpadEventHandler>>,
}

impl LaunchpadEvent {
    /// The subscribed handlers, first subscribed first.
    pub closed spec fn handlers(&self) -> Seq<Box<dyn LaunchpadEventHandler>> {
        self.callbacks@
    }

    /// A registry without handlers.
    pub fn new() -> (event: LaunchpadEvent)
        ensures
            event.handlers() == Seq::<Box<dyn LaunchpadEventHandler>>::empty(),
            event.handlers().len() == 0,
    {
        LaunchpadEvent { callbacks: Vec::new() }
    }

    /// How many handlers are subscribed.
    pub fn handler_count(&self) -> (count: usize)
        ensures
            count == self.handlers().len(),
    {
        self.callbacks.len()
    }

    /// Adds `handler` behind the handlers already subscribed. A handler subscribed
    /// twice is held, and later called, twice.
    pub fn subscribe(&mut self, handler: Box<dyn LaunchpadEventHandler>)
        ensures
            final(self).handlers() == old(self).handlers().push(handler),
    {
        self.callbacks.push(handler);
    }

    /// Hands `args` to every subscribed handler, first subscribed first, each once,
    /// before it returns.
    pub fn trigger(&self, args: LaunchpadEventArgs) {
        let count = self.callbacks.len();
        let mut next: usize = 0;
        while next < count
            invariant
                count == self.callbacks.len(),
                next <= count,
            decreases count - next,
        {
            self.callbacks[next].notify(&args);
            next += 1;
        }
    }
}

impl Default for LaunchpadEvent {
    fn default() -> (event: LaunchpadEvent)
        ensures
            event.handlers() == Seq::<Box<dyn LaunchpadEventHandler>>::empty(),
            event.handlers().len() == 0,
    {
        LaunchpadEvent::new()
    }
}

} // verus!
