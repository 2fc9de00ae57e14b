//! The dashboard's state as it lives in memory, and the operations of the
//! controller on it. Every operation is the executable twin of a transition
//! of the model in `state`.

use vstd::prelude::*;
use crate::events::{Action, AppEvent, Command};
use crate::state::{AppState, ServerRecord};
use crate::status::ServerStatus;

verus! {

/// One monitored service.
#[derive(Clone, Debug)]
pub struct ServerConfig {
    /// Display name; also what the service is called in titles.
    pub name: String,
    /// Address; the dashboard never looks inside.
    pub host: String,
    pub port: u16,
    pub status: ServerStatus,
}

impl View for ServerConfig {
    type V = ServerRecord;

    open spec fn view(&self) -> ServerRecord {
        ServerRecord {
            name: self.name@,
            host: self.host@,
            port: self.port,
            status: self.status,
        }
    }
}

/// The records that a list of services stands for, in the same order.
pub open spec fn records_of(servers: Seq<ServerConfig>) -> Seq<ServerRecord> {
    servers.map_values(|server: ServerConfig| server@)
}

/// The texts that a list of labels stands for, in the same order.
pub open spec fn labels_of(tabs: Seq<&'static str>) -> Seq<Seq<char>> {
    tabs.map_values(|tab: &'static str| tab@)
}

/// Why the store gave or took no server list.
#[derive(Clone, Copy, Debug, PartialEq, Eq, Structural)]
pub enum StoreError {
    /// The store was never written.
    NotFound,
    /// The store could not be read or written.
    Io,
    /// The store holds something that is no server list.
    Decode,
    /// The server list could not be put into words.
    Encode,
}

/// What the dashboard starts with: the stored list, or no service at all
/// when the store gave none, whatever the reason.
pub open spec fn startup_servers(
    loaded: Result<Vec<ServerConfig>, StoreError>,
) -> Seq<ServerConfig> {
    match loaded {
        Ok(servers) => servers@,
        Err(_) => Seq::empty(),
    }
}

/// The dashboard's state. Only the controller changes it; the renderer
/// reads it once per frame.
pub struct App {
    pub servers: Vec<ServerConfig>,
    pub selected_server: usize,
    pub current_tab: usize,
    pub tabs: Vec<&'static str>,
    pub tick_count: usize,
}

impl View for App {
    type V = AppState;

    open spec fn view(&self) -> AppState {
        AppState {
            servers: records_of(self.servers@),
            selected: self.selected_server as nat,
            tab: self.current_tab as nat,
            tabs: labels_of(self.tabs@),
            ticks: self.tick_count as nat,
        }
    }
}

impl App {
    /// The invariant that every operation keeps: that of the model.
    pub open spec fn wf(&self) -> bool {
        self@.wf()
    }

    /// Starts on the first tab with the first row highlighted. A store that
    /// gave no list is no failure: the dashboard then starts empty.
    pub fn new(loaded: Result<Vec<ServerConfig>, StoreError>) -> (app: App)
        ensures
            app.wf(),
            app.servers@ == startup_servers(loaded),
            app@ == AppState::initial(records_of(startup_servers(loaded))),
    {
        let servers = match loaded {
            Ok(servers) => servers,
            Err(_) => Vec::new(),
        };
        let mut tabs: Vec<&'static str> = Vec::new();
        tabs.push("Servers");
        tabs.push("Preference");
        assert(labels_of(tabs@) =~= crate::state::tab_labels());
        App { servers, selected_server: 0, current_tab: 0, tabs, tick_count: 0 }
    }

    /// Whether the invariant holds, for callers that filled the fields
    /// themselves.
    pub fn is_valid(&self) -> (valid: bool)
        ensures
            valid == self.wf(),
    {
        let rows: usize = self.servers.len();
        let tabs: usize = self.tabs.len();
        assert(self@.servers.len() == rows);
        assert(self@.tabs.len() == tabs);
        tabs > 0 && self.current_tab < tabs && if rows == 0 {
            self.selected_server == 0
        } else {
            self.selected_server < rows
        }
    }

    pub fn next(&mut self)
        requires
            old(self).wf(),
        ensures
            final(self).wf(),
            final(self)@ == old(self)@.next(),
            final(self).servers@ == old(self).servers@,
            final(self).tabs@ == old(self).tabs@,
            old(self).servers@.len() == 0 ==> *final(self) == *old(self),
    {
        if !self.servers.is_empty() {
            let len: usize = self.servers.len();
            assert(self@.servers.len() == len);
            self.selected_server = (self.selected_server + 1) % len;
        }
    }

    pub fn previous(&mut self)
        requires
            old(self).wf(),
        ensures
            final(self).wf(),
            final(self)@ == old(self)@.previous(),
            final(self).servers@ == old(self).servers@,
            final(self).tabs@ == old(self).tabs@,
            old(self).servers@.len() == 0 ==> *final(self) == *old(self),
    {
        if !self.servers.is_empty() {
            if self.selected_server == 0 {
                self.selected_server = self.servers.len() - 1;
            } else {
                self.selected_server -= 1;
            }
        }
    }

    pub fn next_tab(&mut self)
        requires
            old(self).wf(),
        ensures
            final(self).wf(),
            final(self)@ == old(self)@.next_tab(),
            final(self).servers@ == old(self).servers@,
            final(self).tabs@ == old(self).tabs@,
    {
        let len: usize = self.tabs.len();
        assert(self@.tabs.len() == len);
        self.current_tab = (self.current_tab + 1) % len;
    }

    pub fn previous_tab(&mut self)
        requires
            old(self).wf(),
        ensures
            final(self).wf(),
            final(self)@ == old(self)@.previous_tab(),
            final(self).servers@ == old(self).servers@,
            final(self).tabs@ == old(self).tabs@,
    {
        if self.current_tab == 0 {
            self.current_tab = self.tabs.len() - 1;
        } else {
            self.current_tab -= 1;
        }
    }

    /// Enter: on the servers tab, with a service highlighted, the service's
    /// status takes its transition and the list is due to be written.
    pub fn select_item(&mut self) -> (action: Action)
        requires
            old(self).wf(),
        ensures
            final(self).wf(),
            final(self)@ == old(self)@.select_item(),
            action == old(self)@.action_of(Command::Select),
            final(self).tabs@ == old(self).tabs@,
            !old(self)@.can_select() ==> *final(self) == *old(self),
            old(self)@.can_select() ==> final(self).servers@ == old(self).servers@.update(
                old(self).selected_server as int,
                (ServerConfig {
                    status: old(self).servers@[old(self).selected_server as int].status.toggled(),
                    ..old(self).servers@[old(self).selected_server as int]
                }),
            ),
    {
        if self.current_tab == 0 && !self.servers.is_empty() {
            let index: usize = self.selected_server;
            let status = self.servers[index].status.toggle();
            self.servers[index].status = status;
            assert(records_of(self.servers@) =~= records_of(old(self).servers@).update(
                index as int,
                records_of(old(self).servers@)[index as int].toggled(),
            ));
            Action::Persist
        } else {
            Action::Continue
        }
    }

    pub fn tick(&mut self)
        ensures
            final(self)@ == old(self)@.tick(),
            final(self).tick_count == (if old(self).tick_count == usize::MAX {
                0
            } else {
                old(self).tick_count + 1
            }),
            final(self).servers@ == old(self).servers@,
            final(self).tabs@ == old(self).tabs@,
            final(self).selected_server == old(self).selected_server,
            final(self).current_tab == old(self).current_tab,
            old(self).wf() ==> final(self).wf(),
    {
        self.tick_count = self.tick_count.wrapping_add(1);
    }

    /// Appends a service; the list is then due to be written.
    pub fn add_server(&mut self, config: ServerConfig) -> (action: Action)
        requires
            old(self).wf(),
        ensures
            final(self).wf(),
            final(self)@ == old(self)@.add_server(config@),
            final(self).servers@ == old(self).servers@.push(config),
            final(self).tabs@ == old(self).tabs@,
            action == Action::Persist,
    {
        self.servers.push(config);
        assert(records_of(self.servers@) =~= records_of(old(self).servers@).push(config@));
        Action::Persist
    }

    /// Takes out the service at `index` and keeps the highlight inside the
    /// list; the list is then due to be written. An index past the end
    /// changes nothing and asks for nothing.
    pub fn remove_server(&mut self, index: usize) -> (action: Action)
        requires
            old(self).wf(),
        ensures
            final(self).wf(),
            final(self)@ == old(self)@.remove_server(index as nat),
            final(self).tabs@ == old(self).tabs@,
            index < old(self).servers@.len() ==> action == Action::Persist
                && final(self).servers@ == old(self).servers@.remove(index as int),
            index >= old(self).servers@.len() ==> action == Action::Continue
                && *final(self) == *old(self),
    {
        if index < self.servers.len() {
            self.servers.remove(index);
            if self.selected_server >= self.servers.len() && !self.servers.is_empty() {
                self.selected_server = self.servers.len() - 1;
            }
            assert(records_of(self.servers@) =~= records_of(old(self).servers@).remove(
                index as int,
            ));
            Action::Persist
        } else {
            Action::Continue
        }
    }

    /// Replaces the service at `index`; the list is then due to be written.
    /// An index past the end changes nothing and asks for nothing.
    pub fn update_server(&mut self, index: usize, config: ServerConfig) -> (action: Action)
        requires
            old(self).wf(),
        ensures
            final(self).wf(),
            final(self)@ == old(self)@.update_server(index as nat, config@),
            final(self).tabs@ == old(self).tabs@,
            index < old(self).servers@.len() ==> action == Action::Persist
                && final(self).servers@ == old(self).servers@.update(index as int, config),
            index >= old(self).servers@.len() ==> action == Action::Continue
                && *final(self) == *old(self),
    {
        if index < self.servers.len() {
            self.servers[index] = config;
            assert(records_of(self.servers@) =~= records_of(old(self).servers@).update(
                index as int,
                config@,
            ));
            Action::Persist
        } else {
            Action::Continue
        }
    }

    /// The controller: one event in, the state moved by the model's
    /// transition, and what is owed for it out.
    pub fn handle_event(&mut self, event: AppEvent) -> (action: Action)
        requires
            old(self).wf(),
        ensures
            final(self).wf(),
            final(self)@ == old(self)@.step(event),
            action == old(self)@.action(event),
            final(self).tabs@ == old(self).tabs@,
    {
        match event {
            AppEvent::Tick => {
                self.tick();
                Action::Continue
            },
            AppEvent::Key(key) => {
                match key.command() {
                    Command::Next => {
                        self.next();
                        Action::Continue
                    },
                    Command::Previous => {
                        self.previous();
                        Action::Continue
                    },
                    Command::NextTab => {
                        self.next_tab();
                        Action::Continue
                    },
                    Command::PreviousTab => {
                        self.previous_tab();
                        Action::Continue
                    },
                    Command::Select => self.select_item(),
                    Command::Quit => Action::Quit,
                    Command::Ignore => Action::Continue,
                }
            },
        }
    }
}

} // verus!
