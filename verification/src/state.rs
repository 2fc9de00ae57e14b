//! The mathematical model of the dashboard: its state as plain sequences and
//! numbers, and its transitions as functions on that state.

use vstd::prelude::*;
use crate::status::ServerStatus;
use crate::events::{Action, AppEvent, Command};

verus! {

/// One monitored service, as the store and the renderer see it.
pub struct ServerRecord {
    pub name: Seq<char>,
    pub host: Seq<char>,
    pub port: u16,
    pub status: ServerStatus,
}

impl ServerRecord {
    /// The same service after one user action on it.
    pub open spec fn toggled(self) -> ServerRecord {
        ServerRecord { status: self.status.toggled(), ..self }
    }
}

/// The labels of the tabs, in the order in which they are drawn.
pub open spec fn tab_labels() -> Seq<Seq<char>> {
    seq!["Servers"@, "Preference"@]
}

/// Everything the dashboard remembers between two events.
pub struct AppState {
    /// The services, in table order.
    pub servers: Seq<ServerRecord>,
    /// The highlighted row.
    pub selected: nat,
    /// The tab that is shown.
    pub tab: nat,
    /// The tab labels; fixed once the state is made.
    pub tabs: Seq<Seq<char>>,
    /// The ticks seen so far, wrapping at the machine's word.
    pub ticks: nat,
}

impl AppState {
    /// The invariant of the dashboard: the shown tab exists, and the
    /// highlighted row exists unless the list is empty, in which case it is
    /// row zero.
    pub open spec fn wf(self) -> bool {
        &&& self.tabs.len() > 0
        &&& self.tab < self.tabs.len()
        &&& self.ticks <= usize::MAX
        &&& if self.servers.len() == 0 {
            self.selected == 0
        } else {
            self.selected < self.servers.len()
        }
    }

    /// The state at start-up, from whatever the store held.
    pub open spec fn initial(servers: Seq<ServerRecord>) -> AppState {
        AppState { servers, selected: 0, tab: 0, tabs: tab_labels(), ticks: 0 }
    }

    /// Highlight the row below, the first one after the last.
    pub open spec fn next(self) -> AppState {
        if self.servers.len() == 0 {
            self
        } else {
            AppState { selected: (self.selected + 1) % self.servers.len(), ..self }
        }
    }

    /// Highlight the row above, the last one before the first.
    pub open spec fn previous(self) -> AppState {
        if self.servers.len() == 0 {
            self
        } else if self.selected == 0 {
            AppState { selected: (self.servers.len() - 1) as nat, ..self }
        } else {
            AppState { selected: (self.selected - 1) as nat, ..self }
        }
    }

    /// Show the tab to the right, the first one after the last.
    pub open spec fn next_tab(self) -> AppState {
        AppState { tab: (self.tab + 1) % self.tabs.len(), ..self }
    }

    /// Show the tab to the left, the last one before the first.
    pub open spec fn previous_tab(self) -> AppState {
        if self.tab == 0 {
            AppState { tab: (self.tabs.len() - 1) as nat, ..self }
        } else {
            AppState { tab: (self.tab - 1) as nat, ..self }
        }
    }

    /// Whether enter acts on a service: only on the servers tab, and only
    /// when there is a service to act on.
    pub open spec fn can_select(self) -> bool {
        self.tab == 0 && self.servers.len() > 0
    }

    /// Act on the highlighted service.
    pub open spec fn select_item(self) -> AppState {
        if self.can_select() {
            AppState {
                servers: self.servers.update(
                    self.selected as int,
                    self.servers[self.selected as int].toggled(),
                ),
                ..self
            }
        } else {
            self
        }
    }

    /// Count one tick.
    pub open spec fn tick(self) -> AppState {
        AppState { ticks: if self.ticks >= usize::MAX { 0 } else { self.ticks + 1 }, ..self }
    }

    /// Append a service.
    pub open spec fn add_server(self, record: ServerRecord) -> AppState {
        AppState { servers: self.servers.push(record), ..self }
    }

    /// Take out the service at `index`, if there is one, and keep the
    /// highlight inside the list.
    pub open spec fn remove_server(self, index: nat) -> AppState {
        if index < self.servers.len() {
            let servers = self.servers.remove(index as int);
            AppState {
                servers,
                selected: if self.selected >= servers.len() && servers.len() > 0 {
                    (servers.len() - 1) as nat
                } else {
                    self.selected
                },
                ..self
            }
        } else {
            self
        }
    }

    /// Replace the service at `index`, if there is one.
    pub open spec fn update_server(self, index: nat, record: ServerRecord) -> AppState {
        if index < self.servers.len() {
            AppState { servers: self.servers.update(index as int, record), ..self }
        } else {
            self
        }
    }

    /// The state after a command from the keyboard.
    pub open spec fn apply(self, command: Command) -> AppState {
        match command {
            Command::Next => self.next(),
            Command::Previous => self.previous(),
            Command::NextTab => self.next_tab(),
            Command::PreviousTab => self.previous_tab(),
            Command::Select => self.select_item(),
            Command::Quit => self,
            Command::Ignore => self,
        }
    }

    /// What a command from the keyboard asks of the surroundings: enter on a
    /// service asks for a write to the store, the quit key ends the loop,
    /// and navigation asks for nothing.
    pub open spec fn action_of(self, command: Command) -> Action {
        match command {
            Command::Select => if self.can_select() {
                Action::Persist
            } else {
                Action::Continue
            },
            Command::Quit => Action::Quit,
            _ => Action::Continue,
        }
    }

    /// The transition function of the dashboard.
    pub open spec fn step(self, event: AppEvent) -> AppState {
        match event {
            AppEvent::Tick => self.tick(),
            AppEvent::Key(key) => self.apply(key.command_of()),
        }
    }

    /// What the surroundings owe after an event.
    pub open spec fn action(self, event: AppEvent) -> Action {
        match event {
            AppEvent::Tick => Action::Continue,
            AppEvent::Key(key) => self.action_of(key.command_of()),
        }
    }

    /// The state after the same command was given `n` times in a row.
    pub open spec fn repeat(self, command: Command, n: nat) -> AppState
        decreases n,
    {
        if n == 0 {
            self
        } else {
            self.repeat(command, (n - 1) as nat).apply(command)
        }
    }

    /// The state after a sequence of events, handled first to last.
    pub open spec fn run(self, events: Seq<AppEvent>) -> AppState
        decreases events.len(),
    {
        if events.len() == 0 {
            self
        } else {
            self.run(events.drop_last()).step(events.last())
        }
    }
}

} // verus!
