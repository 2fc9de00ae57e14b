//! The status of a monitored service, its textual forms and its transitions.

use vstd::prelude::*;

verus! {

/// What the dashboard knows about a service's process.
#[derive(Clone, Copy, Debug, PartialEq, Eq, Structural)]
pub enum ServerStatus {
    Running,
    Stopped,
    Starting,
    Error,
}

/// `n` full stops in a row.
pub open spec fn dots(n: nat) -> Seq<char> {
    Seq::new(n, |i: int| '.')
}

impl ServerStatus {
    /// The name of the status, without any ellipsis.
    pub open spec fn base_label(self) -> Seq<char> {
        match self {
            ServerStatus::Running => "Running"@,
            ServerStatus::Stopped => "Stopped"@,
            ServerStatus::Starting => "Starting"@,
            ServerStatus::Error => "Error"@,
        }
    }

    /// The fixed label: the name, followed by three dots while starting.
    pub open spec fn label(self) -> Seq<char> {
        match self {
            ServerStatus::Starting => self.base_label() + dots(3),
            _ => self.base_label(),
        }
    }

    /// The label at a given tick: while starting, the name followed by
    /// `tick mod 4` dots; otherwise the bare name.
    pub open spec fn animated_label(self, tick: nat) -> Seq<char> {
        match self {
            ServerStatus::Starting => self.base_label() + dots(tick % 4),
            _ => self.base_label(),
        }
    }

    /// The status that follows when the user acts on a service: a running
    /// service is stopped, a stopped one is started, and a service that is
    /// starting or has failed stays as it is.
    pub open spec fn toggled(self) -> ServerStatus {
        match self {
            ServerStatus::Running => ServerStatus::Stopped,
            ServerStatus::Stopped => ServerStatus::Starting,
            ServerStatus::Starting => ServerStatus::Starting,
            ServerStatus::Error => ServerStatus::Error,
        }
    }

    pub fn as_str(&self) -> (label: &'static str)
        ensures
            label@ == self.label(),
    {
        match self {
            ServerStatus::Running => "Running",
            ServerStatus::Stopped => "Stopped",
            ServerStatus::Starting => {
                proof {
                    reveal_strlit("Starting");
                    reveal_strlit("Starting...");
                    assert("Starting..."@ =~= "Starting"@ + dots(3));
                }
                "Starting..."
            },
            ServerStatus::Error => "Error",
        }
    }

    pub fn as_str_animated(&self, tick_count: usize) -> (label: String)
        ensures
            label@ == self.animated_label(tick_count as nat),
    {
        let text: &'static str = match self {
            ServerStatus::Running => "Running",
            ServerStatus::Stopped => "Stopped",
            ServerStatus::Starting => {
                proof {
                    reveal_strlit("Starting");
                    reveal_strlit("Starting.");
                    reveal_strlit("Starting..");
                    reveal_strlit("Starting...");
                }
                let phase: usize = tick_count % 4;
                if phase == 0 {
                    assert("Starting"@ =~= "Starting"@ + dots(0));
                    "Starting"
                } else if phase == 1 {
                    assert("Starting."@ =~= "Starting"@ + dots(1));
                    "Starting."
                } else if phase == 2 {
                    assert("Starting.."@ =~= "Starting"@ + dots(2));
                    "Starting.."
                } else {
                    assert("Starting..."@ =~= "Starting"@ + dots(3));
                    "Starting..."
                }
            },
            ServerStatus::Error => "Error",
        };
        text.to_owned()
    }

    /// One user action on a service with this status.
    pub fn toggle(&self) -> (next: ServerStatus)
        ensures
            next == self.toggled(),
    {
        match self {
            ServerStatus::Running => ServerStatus::Stopped,
            ServerStatus::Stopped => ServerStatus::Starting,
            ServerStatus::Starting => ServerStatus::Starting,
            ServerStatus::Error => ServerStatus::Error,
        }
    }
}

/// The animation repeats every four ticks.
pub proof fn lemma_animation_period(status: ServerStatus, tick: nat)
    ensures
        status.animated_label(tick + 4) == status.animated_label(tick),
{
    assert((tick + 4) % 4 == tick % 4) by (nonlinear_arith);
}

/// Only a status that is starting is drawn with dots, and its fixed label is
/// the fullest frame of its animation.
pub proof fn lemma_label_is_frame(status: ServerStatus)
    ensures
        status.label() == status.animated_label(3),
        status != ServerStatus::Starting ==> forall|tick: nat|
            status.animated_label(tick) == status.label(),
{
}

/// After two user actions a status no longer changes: no transition leads
/// out of `Starting` or `Error`.
pub proof fn lemma_toggle_settles(status: ServerStatus)
    ensures
        status.toggled().toggled().toggled() == status.toggled().toggled(),
        status == ServerStatus::Starting || status == ServerStatus::Error
            ==> status.toggled() == status,
{
}

} // verus!
