//! The page's state and its transitions. The state is flat: the statuses
//! map, a human-readable status line, and a flag that is true exactly while
//! a network request is in flight. Every transition is one of the five
//! event kinds of [`StatusMsg`]; [`next`] is the transition relation and
//! [`StatusPage::update`] the executable step, proved to follow it.

use vstd::prelude::*;

use crate::model::{ActionRequest, Server, ServerAction, ServerStatuses, Status, StatusMsg};

verus! {

// ---------------------------------------------------------------------------
// The status lines the page can show.
// ---------------------------------------------------------------------------

/// Shown from load until the first response arrives.
pub open spec fn msg_getting_status() -> Seq<char> {
    "Getting server status..."@
}

/// Shown after every successful response.
pub open spec fn msg_accepting() -> Seq<char> {
    "Accepting commands"@
}

/// The fixed generic message shown after any failed request.
pub open spec fn msg_error() -> Seq<char> {
    "An error occurred. Refresh the page and try again or ask Zach for help"@
}

/// Start was clicked while `s` is already starting.
pub open spec fn msg_already_starting(s: Server) -> Seq<char> {
    "server "@ + s.spec_name() + " is already starting"@
}

/// Start was clicked while `s` is shutting down.
pub open spec fn msg_start_while_stopping(s: Server) -> Seq<char> {
    "server "@ + s.spec_name() + " is stopping. Please try again later"@
}

/// Start was clicked while `s` is updating.
pub open spec fn msg_start_while_updating(s: Server) -> Seq<char> {
    "server "@ + s.spec_name() + " is updating. Please try again later"@
}

/// Start was rejected because another server `k` is not stopped.
pub open spec fn msg_blocked_by(k: Server) -> Seq<char> {
    "server "@ + k.spec_name() + " is not stopped. Please stop before trying to start another server"@
}

/// A start request for `s` was dispatched.
pub open spec fn msg_starting(s: Server) -> Seq<char> {
    "starting server "@ + s.spec_name()
}

/// Stop was clicked while `s` is still starting.
pub open spec fn msg_stop_while_starting(s: Server) -> Seq<char> {
    "server "@ + s.spec_name() + " is currently starting. Please try again later."@
}

/// Stop was clicked while `s` is already shutting down.
pub open spec fn msg_already_stopping(s: Server) -> Seq<char> {
    "server "@ + s.spec_name() + " is already shutting down."@
}

/// A stop request for `s` was dispatched.
pub open spec fn msg_stopping(s: Server) -> Seq<char> {
    "stopping server "@ + s.spec_name()
}

/// An update request for `s` was dispatched.
pub open spec fn msg_updating(s: Server) -> Seq<char> {
    "updating server "@ + s.spec_name()
}

// ---------------------------------------------------------------------------
// The page state.
// ---------------------------------------------------------------------------

/// The whole state of the status page.
pub struct StatusPage {
    /// The status line shown at the foot of the page.
    pub body: String,
    /// Source of truth for rendering; replaced wholesale on every response.
    pub server_statuses: ServerStatuses,
    /// True exactly while a request is outstanding; disables every button.
    pub in_flight: bool,
}

/// The single-active-server policy: every server other than `s` is stopped.
/// Start requests for `s` are dispatched only under this condition.
pub open spec fn others_stopped(statuses: ServerStatuses, s: Server) -> bool {
    forall|t: Server| t != s ==> statuses.spec_get(t) == Status::Stopped
}

/// The two states from which a server may be started: its last report was
/// Stopped, or nothing trustworthy has been reported yet.
pub open spec fn startable(st: Status) -> bool {
    st == Status::Stopped || st == Status::Unknown
}

// ---------------------------------------------------------------------------
// The transition relation.
// ---------------------------------------------------------------------------

/// The statuses map and the in-flight flag carry over; only the status
/// line may differ between `pre` and `post`.
pub open spec fn only_body_changed(pre: StatusPage, post: StatusPage) -> bool {
    &&& post.server_statuses == pre.server_statuses
    &&& post.in_flight == pre.in_flight
}

/// Effect of a Start click for `s`.
pub open spec fn start_step(
    pre: StatusPage,
    s: Server,
    post: StatusPage,
    rendered: bool,
    req: Option<ActionRequest>,
) -> bool {
    match pre.server_statuses.spec_get(s) {
        Status::Running => post == pre && !rendered && req is None,
        Status::Starting => {
            &&& only_body_changed(pre, post)
            &&& post.body@ == msg_already_starting(s)
            &&& rendered
            &&& req is None
        },
        Status::ShuttingDown => {
            &&& only_body_changed(pre, post)
            &&& post.body@ == msg_start_while_stopping(s)
            &&& rendered
            &&& req is None
        },
        Status::Updating => {
            &&& only_body_changed(pre, post)
            &&& post.body@ == msg_start_while_updating(s)
            &&& rendered
            &&& req is None
        },
        _ => {
            if others_stopped(pre.server_statuses, s) {
                &&& post.server_statuses == pre.server_statuses
                &&& post.in_flight
                &&& post.body@ == msg_starting(s)
                &&& rendered
                &&& req == Some(ActionRequest { server: s, action: ServerAction::Start })
            } else {
                &&& only_body_changed(pre, post)
                &&& post.body@ == msg_blocked_by(s.spec_other())
                &&& rendered
                &&& req is None
            }
        },
    }
}

/// Effect of a Stop click for `s`.
pub open spec fn stop_step(
    pre: StatusPage,
    s: Server,
    post: StatusPage,
    rendered: bool,
    req: Option<ActionRequest>,
) -> bool {
    match pre.server_statuses.spec_get(s) {
        Status::Stopped => post == pre && !rendered && req is None,
        Status::Starting => {
            &&& only_body_changed(pre, post)
            &&& post.body@ == msg_stop_while_starting(s)
            &&& rendered
            &&& req is None
        },
        Status::ShuttingDown => {
            &&& only_body_changed(pre, post)
            &&& post.body@ == msg_already_stopping(s)
            &&& rendered
            &&& req is None
        },
        _ => {
            &&& post.server_statuses == pre.server_statuses
            &&& post.in_flight
            &&& post.body@ == msg_stopping(s)
            &&& rendered
            &&& req == Some(ActionRequest { server: s, action: ServerAction::Stop })
        },
    }
}

/// Effect of an Update click for `s`.
pub open spec fn update_step(
    pre: StatusPage,
    s: Server,
    post: StatusPage,
    rendered: bool,
    req: Option<ActionRequest>,
) -> bool {
    match pre.server_statuses.spec_get(s) {
        Status::Updating => post == pre && !rendered && req is None,
        _ => {
            &&& post.server_statuses == pre.server_statuses
            &&& post.in_flight
            &&& post.body@ == msg_updating(s)
            &&& rendered
            &&& req == Some(ActionRequest { server: s, action: ServerAction::Update })
        },
    }
}

/// The transition relation of the page: from state `pre`, event `msg`
/// leads to state `post`, asks for a re-render iff `rendered`, and
/// dispatches the backend request `req` (at most one).
pub open spec fn next(
    pre: StatusPage,
    msg: StatusMsg,
    post: StatusPage,
    rendered: bool,
    req: Option<ActionRequest>,
) -> bool {
    match msg {
        StatusMsg::StartServer(s) => start_step(pre, s, post, rendered, req),
        StatusMsg::StopServer(s) => stop_step(pre, s, post, rendered, req),
        StatusMsg::UpdateServer(s) => update_step(pre, s, post, rendered, req),
        StatusMsg::StatusUpdate(m) => {
            &&& post.server_statuses == m
            &&& !post.in_flight
            &&& post.body@ == msg_accepting()
            &&& rendered
            &&& req is None
        },
        StatusMsg::Error => {
            &&& post.server_statuses == pre.server_statuses
            &&& !post.in_flight
            &&& post.body@ == msg_error()
            &&& rendered
            &&& req is None
        },
    }
}

// ---------------------------------------------------------------------------
// Executable steps.
// ---------------------------------------------------------------------------

/// `pre` followed by `name`, in one string.
fn prefixed(pre: &str, name: &str) -> (r: String)
    ensures
        r@ == pre@ + name@,
{
    let mut s = String::from_str(pre);
    s.append(name);
    s
}

/// `pre`, `name` and `post`, in one string.
fn composed(pre: &str, name: &str, post: &str) -> (r: String)
    ensures
        r@ == pre@ + name@ + post@,
{
    let mut s = String::from_str(pre);
    s.append(name);
    s.append(post);
    s
}

impl StatusPage {
    /// The state at load: a placeholder guess for the statuses, not yet
    /// trusted, and a request for the true statuses already in flight.
    pub fn new() -> (r: StatusPage)
        ensures
            r.body@ == msg_getting_status(),
            r.server_statuses == (ServerStatuses {
                default_status: Status::Unknown,
                rotis_status: Status::Running,
            }),
            r.in_flight,
    {
        StatusPage {
            body: String::from_str("Getting server status..."),
            server_statuses: ServerStatuses {
                default_status: Status::Unknown,
                rotis_status: Status::Running,
            },
            in_flight: true,
        }
    }

    /// One step of the state machine. Returns whether the page must be
    /// re-rendered and the backend request to dispatch, if any; the caller
    /// performs the request and feeds the outcome back as a later event.
    pub fn update(&mut self, msg: StatusMsg) -> (r: (bool, Option<ActionRequest>))
        ensures
            next(*old(self), msg, *final(self), r.0, r.1),
    {
        match msg {
            StatusMsg::StartServer(server) => match self.server_statuses.get(&server) {
                Status::Running => (false, None),
                Status::Starting => {
                    self.body = composed("server ", server.name().as_str(), " is already starting");
                    (true, None)
                },
                Status::ShuttingDown => {
                    self.body = composed(
                        "server ",
                        server.name().as_str(),
                        " is stopping. Please try again later",
                    );
                    (true, None)
                },
                Status::Updating => {
                    self.body = composed(
                        "server ",
                        server.name().as_str(),
                        " is updating. Please try again later",
                    );
                    (true, None)
                },
                _ => {
                    let blocker = server.other();
                    if self.server_statuses.get(&blocker) != Status::Stopped {
                        self.body = composed(
                            "server ",
                            blocker.name().as_str(),
                            " is not stopped. Please stop before trying to start another server",
                        );
                        proof {
                            assert(!others_stopped(self.server_statuses, server)) by {
                                assert(self.server_statuses.spec_get(blocker) != Status::Stopped);
                            };
                        }
                        (true, None)
                    } else {
                        proof {
                            assert forall|t: Server| t != server implies self.server_statuses.spec_get(
                                t,
                            ) == Status::Stopped by {
                                crate::model::lemma_other_is_the_rest(server, t);
                            };
                        }
                        self.in_flight = true;
                        self.body = prefixed("starting server ", server.name().as_str());
                        (true, Some(ActionRequest { server, action: ServerAction::Start }))
                    }
                },
            },
            StatusMsg::StopServer(server) => match self.server_statuses.get(&server) {
                Status::Stopped => (false, None),
                Status::Starting => {
                    self.body = composed(
                        "server ",
                        server.name().as_str(),
                        " is currently starting. Please try again later.",
                    );
                    (true, None)
                },
                Status::ShuttingDown => {
                    self.body = composed(
                        "server ",
                        server.name().as_str(),
                        " is already shutting down.",
                    );
                    (true, None)
                },
                _ => {
                    self.in_flight = true;
                    self.body = prefixed("stopping server ", server.name().as_str());
                    (true, Some(ActionRequest { server, action: ServerAction::Stop }))
                },
            },
            StatusMsg::UpdateServer(server) => match self.server_statuses.get(&server) {
                Status::Updating => (false, None),
                _ => {
                    self.in_flight = true;
                    self.body = prefixed("updating server ", server.name().as_str());
                    (true, Some(ActionRequest { server, action: ServerAction::Update }))
                },
            },
            StatusMsg::StatusUpdate(statuses) => {
                self.in_flight = false;
                self.server_statuses = statuses;
                self.body = String::from_str("Accepting commands");
                (true, None)
            },
            StatusMsg::Error => {
                self.in_flight = false;
                self.body = String::from_str(
                    "An error occurred. Refresh the page and try again or ask Zach for help",
                );
                (true, None)
            },
        }
    }
}

} // verus!
