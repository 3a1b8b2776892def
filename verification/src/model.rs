//! The data the page works on: the known servers, their lifecycle states,
//! the actions an operator can request, and the events that drive the page.

use vstd::prelude::*;

verus! {

/// One of the statically known game-server instances under control.
#[derive(PartialEq, Eq, Structural, Clone, Copy, Hash, Debug)]
pub enum Server {
    Default,
    Rotis,
}

impl Server {
    /// The server's name, used both for display and on the wire.
    pub open spec fn spec_name(self) -> Seq<char> {
        match self {
            Server::Default => "Default"@,
            Server::Rotis => "Rotis"@,
        }
    }

    pub fn name(&self) -> (r: String)
        ensures
            r@ == self.spec_name(),
    {
        match self {
            Server::Default => String::from_str("Default"),
            Server::Rotis => String::from_str("Rotis"),
        }
    }

    /// The unique server other than this one.
    pub open spec fn spec_other(self) -> Server {
        match self {
            Server::Default => Server::Rotis,
            Server::Rotis => Server::Default,
        }
    }

    pub fn other(&self) -> (r: Server)
        ensures
            r == self.spec_other(),
    {
        match self {
            Server::Default => Server::Rotis,
            Server::Rotis => Server::Default,
        }
    }
}

/// A server distinct from `s` is exactly `s.spec_other()`.
pub proof fn lemma_other_is_the_rest(s: Server, t: Server)
    requires
        t != s,
    ensures
        t == s.spec_other(),
{
}

/// Lifecycle state of a server as reported by the backend.
#[derive(PartialEq, Eq, Structural, Clone, Copy, Debug)]
pub enum Status {
    Stopped,
    Starting,
    Running,
    ShuttingDown,
    Updating,
    Unknown,
}

impl Status {
    /// The human-readable label shown on the page.
    pub open spec fn spec_label(self) -> Seq<char> {
        match self {
            Status::Stopped => "not running"@,
            Status::Starting => "starting"@,
            Status::Running => "running"@,
            Status::ShuttingDown => "shutting down"@,
            Status::Updating => "updating"@,
            Status::Unknown => "unknown"@,
        }
    }

    pub fn label(&self) -> (r: String)
        ensures
            r@ == self.spec_label(),
    {
        match self {
            Status::Stopped => String::from_str("not running"),
            Status::Starting => String::from_str("starting"),
            Status::Running => String::from_str("running"),
            Status::ShuttingDown => String::from_str("shutting down"),
            Status::Updating => String::from_str("updating"),
            Status::Unknown => String::from_str("unknown"),
        }
    }

    /// The literal tag the backend uses for this status on the wire.
    pub open spec fn spec_tag(self) -> Seq<char> {
        match self {
            Status::Stopped => "Stopped"@,
            Status::Starting => "Starting"@,
            Status::Running => "Running"@,
            Status::ShuttingDown => "ShuttingDown"@,
            Status::Updating => "Updating"@,
            Status::Unknown => "Unknown"@,
        }
    }

    pub fn tag(&self) -> (r: String)
        ensures
            r@ == self.spec_tag(),
    {
        match self {
            Status::Stopped => String::from_str("Stopped"),
            Status::Starting => String::from_str("Starting"),
            Status::Running => String::from_str("Running"),
            Status::ShuttingDown => String::from_str("ShuttingDown"),
            Status::Updating => String::from_str("Updating"),
            Status::Unknown => String::from_str("Unknown"),
        }
    }
}

/// An operator-requested transition sent to the backend.
#[derive(PartialEq, Eq, Structural, Clone, Copy, Debug)]
pub enum ServerAction {
    Start,
    Stop,
    Update,
}

impl ServerAction {
    /// The literal tag this action carries on the wire.
    pub open spec fn spec_tag(self) -> Seq<char> {
        match self {
            ServerAction::Start => "Start"@,
            ServerAction::Stop => "Stop"@,
            ServerAction::Update => "Update"@,
        }
    }

    pub fn tag(&self) -> (r: String)
        ensures
            r@ == self.spec_tag(),
    {
        match self {
            ServerAction::Start => String::from_str("Start"),
            ServerAction::Stop => String::from_str("Stop"),
            ServerAction::Update => String::from_str("Update"),
        }
    }
}

/// One request to the backend: apply `action` to `server`.
#[derive(PartialEq, Eq, Structural, Clone, Copy, Debug)]
pub struct ActionRequest {
    pub server: Server,
    pub action: ServerAction,
}

/// The reported status of every known server, one entry per server.
/// It is the page's source of truth for rendering and is only ever
/// replaced in full, never patched, when the backend answers.
#[derive(PartialEq, Eq, Structural, Clone, Copy, Debug)]
pub struct ServerStatuses {
    pub default_status: Status,
    pub rotis_status: Status,
}

impl ServerStatuses {
    pub open spec fn spec_get(self, s: Server) -> Status {
        match s {
            Server::Default => self.default_status,
            Server::Rotis => self.rotis_status,
        }
    }

    pub fn get(&self, s: &Server) -> (r: Status)
        ensures
            r == self.spec_get(*s),
    {
        match s {
            Server::Default => self.default_status,
            Server::Rotis => self.rotis_status,
        }
    }
}

/// An event the page reacts to: an operator clicked a button, or a
/// network request finished.
#[derive(PartialEq, Eq, Structural, Clone, Copy, Debug)]
pub enum StatusMsg {
    StartServer(Server),
    StopServer(Server),
    UpdateServer(Server),
    StatusUpdate(ServerStatuses),
    Error,
}

} // verus!
