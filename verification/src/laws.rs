//! The guarantees the page gives, each proved from the transition
//! relation [`crate::page::next`] that [`crate::page::StatusPage::update`]
//! is proved to follow.

use vstd::prelude::*;

use crate::model::{ActionRequest, Server, ServerAction, ServerStatuses, Status, StatusMsg};
use crate::page::{
    msg_accepting, msg_blocked_by, msg_error, msg_starting, next, others_stopped, startable,
    StatusPage,
};

verus! {

/// While any server `s` is not stopped, a Start click for a different
/// server `y` dispatches no request; and whenever `y` itself could have
/// been started, the status line names `s` as the blocker.
pub proof fn start_blocked_by_active_server(
    pre: StatusPage,
    s: Server,
    y: Server,
    post: StatusPage,
    rendered: bool,
    req: Option<ActionRequest>,
)
    requires
        s != y,
        pre.server_statuses.spec_get(s) != Status::Stopped,
        next(pre, StatusMsg::StartServer(y), post, rendered, req),
    ensures
        req is None,
        startable(pre.server_statuses.spec_get(y)) ==> post.body@ == msg_blocked_by(s),
{
    crate::model::lemma_other_is_the_rest(y, s);
    if startable(pre.server_statuses.spec_get(y)) {
        assert(!others_stopped(pre.server_statuses, y));
    }
}

/// A Start click for `s` while `s` may be started and every other server
/// is stopped dispatches exactly one request, a Start for `s`, and sets
/// the status line to "starting <s>".
pub proof fn start_dispatches_when_alone(
    pre: StatusPage,
    s: Server,
    post: StatusPage,
    rendered: bool,
    req: Option<ActionRequest>,
)
    requires
        startable(pre.server_statuses.spec_get(s)),
        others_stopped(pre.server_statuses, s),
        next(pre, StatusMsg::StartServer(s), post, rendered, req),
    ensures
        req == Some(ActionRequest { server: s, action: ServerAction::Start }),
        post.body@ == msg_starting(s),
        post.in_flight,
        post.server_statuses == pre.server_statuses,
{
}

/// A Start click for a server already running changes nothing and
/// dispatches no request.
pub proof fn start_on_running_is_noop(
    pre: StatusPage,
    s: Server,
    post: StatusPage,
    rendered: bool,
    req: Option<ActionRequest>,
)
    requires
        pre.server_statuses.spec_get(s) == Status::Running,
        next(pre, StatusMsg::StartServer(s), post, rendered, req),
    ensures
        post == pre,
        !rendered,
        req is None,
{
}

/// A Stop click for a server already stopped changes nothing and
/// dispatches no request.
pub proof fn stop_on_stopped_is_noop(
    pre: StatusPage,
    s: Server,
    post: StatusPage,
    rendered: bool,
    req: Option<ActionRequest>,
)
    requires
        pre.server_statuses.spec_get(s) == Status::Stopped,
        next(pre, StatusMsg::StopServer(s), post, rendered, req),
    ensures
        post == pre,
        !rendered,
        req is None,
{
}

/// An Update click for a server already updating changes nothing and
/// dispatches no request.
pub proof fn update_on_updating_is_noop(
    pre: StatusPage,
    s: Server,
    post: StatusPage,
    rendered: bool,
    req: Option<ActionRequest>,
)
    requires
        pre.server_statuses.spec_get(s) == Status::Updating,
        next(pre, StatusMsg::UpdateServer(s), post, rendered, req),
    ensures
        post == pre,
        !rendered,
        req is None,
{
}

/// Whenever a step dispatches a request, it also raises the in-flight
/// flag: the flag both reflects and enforces the single outstanding
/// request.
pub proof fn dispatch_raises_in_flight(
    pre: StatusPage,
    msg: StatusMsg,
    post: StatusPage,
    rendered: bool,
    req: Option<ActionRequest>,
)
    requires
        next(pre, msg, post, rendered, req),
        req is Some,
    ensures
        post.in_flight,
{
}

/// The statuses map is only ever replaced in full by a successful
/// response; no other event touches it.
pub proof fn statuses_replaced_only_by_response(
    pre: StatusPage,
    msg: StatusMsg,
    post: StatusPage,
    rendered: bool,
    req: Option<ActionRequest>,
)
    requires
        next(pre, msg, post, rendered, req),
        !(msg is StatusUpdate),
    ensures
        post.server_statuses == pre.server_statuses,
{
}

/// After any successful response the in-flight flag is clear and the
/// statuses map is exactly the one the backend reported, whatever was
/// held before.
pub proof fn response_replaces_statuses(
    pre: StatusPage,
    reported: ServerStatuses,
    post: StatusPage,
    rendered: bool,
    req: Option<ActionRequest>,
)
    requires
        next(pre, StatusMsg::StatusUpdate(reported), post, rendered, req),
    ensures
        !post.in_flight,
        post.server_statuses == reported,
        post.body@ == msg_accepting(),
        req is None,
{
}

/// After any failed response the in-flight flag is clear, the status line
/// is the fixed generic error message, and the statuses map is untouched.
pub proof fn failure_clears_in_flight(
    pre: StatusPage,
    post: StatusPage,
    rendered: bool,
    req: Option<ActionRequest>,
)
    requires
        next(pre, StatusMsg::Error, post, rendered, req),
    ensures
        !post.in_flight,
        post.body@ == msg_error(),
        post.server_statuses == pre.server_statuses,
        req is None,
{
}

} // verus!
