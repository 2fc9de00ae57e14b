//! The events that drive the dashboard, what the dashboard asks of its
//! surroundings in return, the timing of the tick producer, and the ordered
//! channel through which the producers reach the one consumer.

use vstd::prelude::*;
use std::collections::VecDeque;

verus! {

/// A key as the dashboard distinguishes it.
#[derive(Clone, Copy, Debug, PartialEq, Eq, Structural)]
pub enum Key {
    Up,
    Down,
    Left,
    Right,
    Tab,
    BackTab,
    Enter,
    Char(char),
    Other,
}

/// One item of the ordered stream that the dashboard consumes.
#[derive(Clone, Copy, Debug, PartialEq, Eq, Structural)]
pub enum AppEvent {
    Key(Key),
    Tick,
}

/// What the surroundings owe the dashboard after an event was handled.
#[derive(Clone, Copy, Debug, PartialEq, Eq, Structural)]
pub enum Action {
    /// Nothing but the next frame.
    Continue,
    /// Attempt to write the server list to the store; a failure is dropped.
    Persist,
    /// Leave the consume-render loop.
    Quit,
}

/// What a key press asks of the dashboard.
#[derive(Clone, Copy, Debug, PartialEq, Eq, Structural)]
pub enum Command {
    Next,
    Previous,
    NextTab,
    PreviousTab,
    Select,
    Quit,
    Ignore,
}

impl Key {
    /// The keyboard surface: arrows or `j`/`k` walk the list, tab keys or the
    /// horizontal arrows walk the tabs, enter acts, `q` quits.
    pub open spec fn command_of(self) -> Command {
        if self == Key::Down || self == Key::Char('j') {
            Command::Next
        } else if self == Key::Up || self == Key::Char('k') {
            Command::Previous
        } else if self == Key::Tab || self == Key::Right {
            Command::NextTab
        } else if self == Key::BackTab || self == Key::Left {
            Command::PreviousTab
        } else if self == Key::Enter {
            Command::Select
        } else if self == Key::Char('q') {
            Command::Quit
        } else {
            Command::Ignore
        }
    }

    pub fn command(&self) -> (command: Command)
        ensures
            command == self.command_of(),
    {
        match self {
            Key::Down => Command::Next,
            Key::Up => Command::Previous,
            Key::Tab => Command::NextTab,
            Key::Right => Command::NextTab,
            Key::BackTab => Command::PreviousTab,
            Key::Left => Command::PreviousTab,
            Key::Enter => Command::Select,
            Key::Char(c) => {
                if *c == 'j' {
                    Command::Next
                } else if *c == 'k' {
                    Command::Previous
                } else if *c == 'q' {
                    Command::Quit
                } else {
                    Command::Ignore
                }
            },
            Key::Other => Command::Ignore,
        }
    }
}

/// The default interval between two ticks: 250 ms.
pub const DEFAULT_TICK_RATE_NANOS: u128 = 250_000_000;

/// Settings of the event producers.
#[derive(Clone, Copy, Debug)]
pub struct EventConfig {
    /// The interval between two ticks, and the longest wait for one key, in
    /// nanoseconds.
    pub tick_rate_nanos: u128,
}

impl Default for EventConfig {
    fn default() -> (config: EventConfig)
        ensures
            config.tick_rate_nanos == DEFAULT_TICK_RATE_NANOS,
    {
        EventConfig { tick_rate_nanos: DEFAULT_TICK_RATE_NANOS }
    }
}

impl EventConfig {
    /// The time left until the next tick is due: the interval less what has
    /// passed since the last tick, and zero when the tick is overdue.
    pub open spec fn until_tick(self, elapsed_nanos: u128) -> nat {
        if elapsed_nanos >= self.tick_rate_nanos {
            0
        } else {
            (self.tick_rate_nanos - elapsed_nanos) as nat
        }
    }

    /// How long the timer producer sleeps before it enqueues the next tick.
    pub fn time_until_tick(&self, elapsed_nanos: u128) -> (nanos: u128)
        ensures
            nanos == self.until_tick(elapsed_nanos),
            nanos <= self.tick_rate_nanos,
    {
        if elapsed_nanos >= self.tick_rate_nanos {
            0
        } else {
            self.tick_rate_nanos - elapsed_nanos
        }
    }
}

/// The other end of the channel is gone: nothing is taken, nothing comes.
#[derive(Clone, Copy, Debug, PartialEq, Eq, Structural)]
pub struct Closed;

/// What the consumer finds when it asks for the next event.
#[derive(Clone, Copy, Debug, PartialEq, Eq, Structural)]
pub enum Polled {
    /// The oldest event that was waiting; it waits no longer.
    Event(AppEvent),
    /// No event is waiting: the consumer blocks until a producer sends one.
    Empty,
}

/// The channel as a value: the events that wait, oldest first, and whether
/// the consumer still listens.
pub struct Channel {
    pub pending: Seq<AppEvent>,
    pub open: bool,
    pub tick_rate_nanos: u128,
}

impl Channel {
    /// A fresh channel: nothing waits, the consumer listens.
    pub open spec fn fresh(config: EventConfig) -> Channel {
        Channel { pending: Seq::empty(), open: true, tick_rate_nanos: config.tick_rate_nanos }
    }

    /// A producer enqueues an event. The channel has no bound, so an open
    /// channel always takes it, behind all that wait; a closed one drops it.
    pub open spec fn send(self, event: AppEvent) -> Channel {
        if self.open {
            Channel { pending: self.pending.push(event), ..self }
        } else {
            self
        }
    }

    /// A producer enqueues several events, first to last.
    pub open spec fn send_all(self, events: Seq<AppEvent>) -> Channel
        decreases events.len(),
    {
        if events.len() == 0 {
            self
        } else {
            self.send_all(events.drop_last()).send(events.last())
        }
    }

    /// What the consumer is handed next.
    pub open spec fn front(self) -> Result<Polled, Closed> {
        if !self.open {
            Err(Closed)
        } else if self.pending.len() == 0 {
            Ok(Polled::Empty)
        } else {
            Ok(Polled::Event(self.pending[0]))
        }
    }

    /// The channel after the consumer asked once.
    pub open spec fn advance(self) -> Channel {
        if self.open && self.pending.len() > 0 {
            Channel { pending: self.pending.drop_first(), ..self }
        } else {
            self
        }
    }

    /// The channel after the consumer asked `n` times.
    pub open spec fn advance_by(self, n: nat) -> Channel
        decreases n,
    {
        if n == 0 {
            self
        } else {
            self.advance().advance_by((n - 1) as nat)
        }
    }

    /// The consumer leaves: what waited is dropped, and every later send
    /// fails.
    pub open spec fn close(self) -> Channel {
        Channel { pending: Seq::empty(), open: false, ..self }
    }
}

/// The ordered, unbounded channel between the event producers and the one
/// consumer. The producers' threads and the consumer's wait are the
/// caller's; the order of delivery is decided here.
pub struct Events {
    config: EventConfig,
    pending: VecDeque<AppEvent>,
    open: bool,
}

impl View for Events {
    type V = Channel;

    closed spec fn view(&self) -> Channel {
        Channel {
            pending: self.pending@,
            open: self.open,
            tick_rate_nanos: self.config.tick_rate_nanos,
        }
    }
}

impl Events {
    /// A channel for producers that tick every 250 ms.
    pub fn new() -> (events: Events)
        ensures
            events@ == Channel::fresh(EventConfig { tick_rate_nanos: DEFAULT_TICK_RATE_NANOS }),
    {
        Events::with_config(EventConfig::default())
    }

    pub fn with_config(config: EventConfig) -> (events: Events)
        ensures
            events@ == Channel::fresh(config),
    {
        Events { config, pending: VecDeque::new(), open: true }
    }

    /// The settings that the producers run with.
    pub fn config(&self) -> (config: EventConfig)
        ensures
            config.tick_rate_nanos == self@.tick_rate_nanos,
    {
        self.config
    }

    /// A producer's side: enqueue `event` behind all that wait. Fails, and
    /// tells the producer to end, exactly when the consumer is gone.
    pub fn send(&mut self, event: AppEvent) -> (sent: Result<(), Closed>)
        ensures
            final(self)@ == old(self)@.send(event),
            sent.is_ok() == old(self)@.open,
    {
        if self.open {
            self.pending.push_back(event);
            Ok(())
        } else {
            Err(Closed)
        }
    }

    /// The consumer's side: the oldest waiting event, which is taken out of
    /// the channel; `Empty` when none waits; `Closed` after `close`.
    pub fn next(&mut self) -> (polled: Result<Polled, Closed>)
        ensures
            polled == old(self)@.front(),
            final(self)@ == old(self)@.advance(),
    {
        if !self.open {
            return Err(Closed);
        }
        match self.pending.pop_front() {
            Some(event) => {
                assert(self.pending@ =~= old(self).pending@.drop_first());
                Ok(Polled::Event(event))
            },
            None => Ok(Polled::Empty),
        }
    }

    /// The consumer leaves the loop.
    pub fn close(&mut self)
        ensures
            final(self)@ == old(self)@.close(),
    {
        self.pending.clear();
        self.open = false;
    }
}

} // verus!
