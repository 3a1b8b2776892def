use vhadmin::model::{ActionRequest, Server, ServerAction, ServerStatuses, Status, StatusMsg};
use vhadmin::page::StatusPage;

fn page_with(default_status: Status, rotis_status: Status) -> StatusPage {
    let mut page = StatusPage::new();
    let (rendered, req) = page.update(StatusMsg::StatusUpdate(ServerStatuses {
        default_status,
        rotis_status,
    }));
    assert!(rendered);
    assert!(req.is_none());
    page
}

#[test]
fn initial_state() {
    let page = StatusPage::new();
    assert_eq!(page.body, "Getting server status...");
    assert!(page.in_flight);
    assert_eq!(page.server_statuses.default_status, Status::Unknown);
    assert_eq!(page.server_statuses.rotis_status, Status::Running);
}

#[test]
fn start_blocked_while_other_running() {
    let mut page = page_with(Status::Stopped, Status::Running);
    let (rendered, req) = page.update(StatusMsg::StartServer(Server::Default));
    assert!(rendered);
    assert!(req.is_none());
    assert_eq!(
        page.body,
        "server Rotis is not stopped. Please stop before trying to start another server"
    );
    assert!(!page.in_flight);
}

#[test]
fn start_blocked_while_other_starting() {
    let mut page = page_with(Status::Starting, Status::Unknown);
    let (rendered, req) = page.update(StatusMsg::StartServer(Server::Rotis));
    assert!(rendered);
    assert!(req.is_none());
    assert_eq!(
        page.body,
        "server Default is not stopped. Please stop before trying to start another server"
    );
}

#[test]
fn start_dispatches_when_other_stopped() {
    let mut page = page_with(Status::Stopped, Status::Stopped);
    let (rendered, req) = page.update(StatusMsg::StartServer(Server::Default));
    assert!(rendered);
    assert_eq!(
        req,
        Some(ActionRequest { server: Server::Default, action: ServerAction::Start })
    );
    assert_eq!(page.body, "starting server Default");
    assert!(page.in_flight);
}

#[test]
fn start_dispatches_from_unknown() {
    let mut page = page_with(Status::Unknown, Status::Stopped);
    let (rendered, req) = page.update(StatusMsg::StartServer(Server::Default));
    assert!(rendered);
    assert_eq!(
        req,
        Some(ActionRequest { server: Server::Default, action: ServerAction::Start })
    );
    assert_eq!(page.body, "starting server Default");
}

#[test]
fn start_on_running_is_noop() {
    let mut page = page_with(Status::Running, Status::Stopped);
    let body_before = page.body.clone();
    let (rendered, req) = page.update(StatusMsg::StartServer(Server::Default));
    assert!(!rendered);
    assert!(req.is_none());
    assert_eq!(page.body, body_before);
    assert!(!page.in_flight);
}

#[test]
fn start_while_already_starting() {
    let mut page = page_with(Status::Starting, Status::Stopped);
    let (rendered, req) = page.update(StatusMsg::StartServer(Server::Default));
    assert!(rendered);
    assert!(req.is_none());
    assert_eq!(page.body, "server Default is already starting");
}

#[test]
fn start_while_shutting_down() {
    let mut page = page_with(Status::ShuttingDown, Status::Stopped);
    let (rendered, req) = page.update(StatusMsg::StartServer(Server::Default));
    assert!(rendered);
    assert!(req.is_none());
    assert_eq!(page.body, "server Default is stopping. Please try again later");
}

#[test]
fn start_while_updating() {
    let mut page = page_with(Status::Updating, Status::Stopped);
    let (rendered, req) = page.update(StatusMsg::StartServer(Server::Default));
    assert!(rendered);
    assert!(req.is_none());
    assert_eq!(page.body, "server Default is updating. Please try again later");
}

#[test]
fn stop_on_stopped_is_noop() {
    let mut page = page_with(Status::Stopped, Status::Running);
    let body_before = page.body.clone();
    let (rendered, req) = page.update(StatusMsg::StopServer(Server::Default));
    assert!(!rendered);
    assert!(req.is_none());
    assert_eq!(page.body, body_before);
}

#[test]
fn stop_while_starting() {
    let mut page = page_with(Status::Stopped, Status::Starting);
    let (rendered, req) = page.update(StatusMsg::StopServer(Server::Rotis));
    assert!(rendered);
    assert!(req.is_none());
    assert_eq!(
        page.body,
        "server Rotis is currently starting. Please try again later."
    );
}

#[test]
fn stop_while_shutting_down() {
    let mut page = page_with(Status::Stopped, Status::ShuttingDown);
    let (rendered, req) = page.update(StatusMsg::StopServer(Server::Rotis));
    assert!(rendered);
    assert!(req.is_none());
    assert_eq!(page.body, "server Rotis is already shutting down.");
}

#[test]
fn stop_dispatches_while_running() {
    let mut page = page_with(Status::Stopped, Status::Running);
    let (rendered, req) = page.update(StatusMsg::StopServer(Server::Rotis));
    assert!(rendered);
    assert_eq!(
        req,
        Some(ActionRequest { server: Server::Rotis, action: ServerAction::Stop })
    );
    assert_eq!(page.body, "stopping server Rotis");
    assert!(page.in_flight);
}

#[test]
fn update_on_updating_is_noop() {
    let mut page = page_with(Status::Updating, Status::Stopped);
    let body_before = page.body.clone();
    let (rendered, req) = page.update(StatusMsg::UpdateServer(Server::Default));
    assert!(!rendered);
    assert!(req.is_none());
    assert_eq!(page.body, body_before);
}

#[test]
fn update_dispatches_otherwise() {
    let mut page = page_with(Status::Stopped, Status::Stopped);
    let (rendered, req) = page.update(StatusMsg::UpdateServer(Server::Default));
    assert!(rendered);
    assert_eq!(
        req,
        Some(ActionRequest { server: Server::Default, action: ServerAction::Update })
    );
    assert_eq!(page.body, "updating server Default");
    assert!(page.in_flight);
}

#[test]
fn response_replaces_whole_map() {
    let mut page = StatusPage::new();
    let reported = ServerStatuses {
        default_status: Status::ShuttingDown,
        rotis_status: Status::Updating,
    };
    let (rendered, req) = page.update(StatusMsg::StatusUpdate(reported));
    assert!(rendered);
    assert!(req.is_none());
    assert!(!page.in_flight);
    assert_eq!(page.server_statuses, reported);
    assert_eq!(page.body, "Accepting commands");
}

#[test]
fn failure_clears_in_flight_and_keeps_map() {
    let mut page = StatusPage::new();
    let before = page.server_statuses;
    let (rendered, req) = page.update(StatusMsg::Error);
    assert!(rendered);
    assert!(req.is_none());
    assert!(!page.in_flight);
    assert_eq!(page.server_statuses, before);
    assert_eq!(
        page.body,
        "An error occurred. Refresh the page and try again or ask Zach for help"
    );
}

#[test]
fn names_and_labels() {
    assert_eq!(Server::Default.name(), "Default");
    assert_eq!(Server::Rotis.name(), "Rotis");
    assert_eq!(Status::Stopped.label(), "not running");
    assert_eq!(Status::Starting.label(), "starting");
    assert_eq!(Status::Running.label(), "running");
    assert_eq!(Status::ShuttingDown.label(), "shutting down");
    assert_eq!(Status::Updating.label(), "updating");
    assert_eq!(Status::Unknown.label(), "unknown");
}
