use vhadmin::model::{ActionRequest, Server, ServerAction, ServerStatuses, Status, StatusMsg};
use vhadmin::wire::{
    action_path, action_request_json, parse_status_response, response_to_msg, status_path,
};

#[test]
fn paths() {
    assert_eq!(status_path(), "/vhadminapi/status");
    assert_eq!(action_path(), "/vhadminapi/action");
}

#[test]
fn encodes_start_request() {
    let req = ActionRequest { server: Server::Default, action: ServerAction::Start };
    assert_eq!(
        action_request_json(&req),
        "{\"server\":\"Default\",\"action\":\"Start\"}"
    );
}

#[test]
fn encodes_stop_request() {
    let req = ActionRequest { server: Server::Rotis, action: ServerAction::Stop };
    assert_eq!(
        action_request_json(&req),
        "{\"server\":\"Rotis\",\"action\":\"Stop\"}"
    );
}

#[test]
fn encodes_update_request() {
    let req = ActionRequest { server: Server::Rotis, action: ServerAction::Update };
    assert_eq!(
        action_request_json(&req),
        "{\"server\":\"Rotis\",\"action\":\"Update\"}"
    );
}

#[test]
fn parses_compact_response() {
    let parsed = parse_status_response("{\"servers\":{\"Default\":\"Stopped\",\"Rotis\":\"Running\"}}");
    assert_eq!(
        parsed,
        Some(ServerStatuses { default_status: Status::Stopped, rotis_status: Status::Running })
    );
}

#[test]
fn parses_entries_in_either_order() {
    let parsed = parse_status_response("{\"servers\":{\"Rotis\":\"Updating\",\"Default\":\"ShuttingDown\"}}");
    assert_eq!(
        parsed,
        Some(ServerStatuses {
            default_status: Status::ShuttingDown,
            rotis_status: Status::Updating,
        })
    );
}

#[test]
fn parses_response_with_whitespace() {
    let text = "{\n  \"servers\": {\n    \"Default\": \"Starting\",\r\n    \"Rotis\": \"Unknown\"\n  }\n}\n";
    let parsed = parse_status_response(text);
    assert_eq!(
        parsed,
        Some(ServerStatuses { default_status: Status::Starting, rotis_status: Status::Unknown })
    );
}

#[test]
fn rejects_garbage() {
    assert_eq!(parse_status_response("not json at all"), None);
    assert_eq!(parse_status_response(""), None);
}

#[test]
fn rejects_missing_server_entry() {
    assert_eq!(
        parse_status_response("{\"servers\":{\"Default\":\"Stopped\"}}"),
        None
    );
}

#[test]
fn rejects_duplicate_server_entry() {
    assert_eq!(
        parse_status_response("{\"servers\":{\"Default\":\"Stopped\",\"Default\":\"Running\"}}"),
        None
    );
}

#[test]
fn rejects_unknown_status_tag() {
    assert_eq!(
        parse_status_response("{\"servers\":{\"Default\":\"Paused\",\"Rotis\":\"Running\"}}"),
        None
    );
}

#[test]
fn rejects_unknown_server_name() {
    assert_eq!(
        parse_status_response("{\"servers\":{\"Midgard\":\"Stopped\",\"Rotis\":\"Running\"}}"),
        None
    );
}

#[test]
fn good_response_becomes_status_update() {
    let msg = response_to_msg("{\"servers\":{\"Default\":\"Running\",\"Rotis\":\"Stopped\"}}");
    assert_eq!(
        msg,
        StatusMsg::StatusUpdate(ServerStatuses {
            default_status: Status::Running,
            rotis_status: Status::Stopped,
        })
    );
}

#[test]
fn bad_response_becomes_error() {
    assert_eq!(response_to_msg("<html>502 Bad Gateway</html>"), StatusMsg::Error);
}
