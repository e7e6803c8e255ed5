use izone::api::{
    make_command_request, make_query_request, read_command_reply, read_query_reply, ApiError,
    CONTENT_TYPE_JSON,
};
use izone::commands::system::{get_system_status, turn_on_ac};
use izone::json::Json;
use izone::payload::Dialect;

#[test]
fn query_request_goes_to_the_query_path() {
    let request = make_query_request(
        "http://192.168.1.130",
        get_system_status(&Dialect::current()).to_json(),
    );
    assert_eq!(request.url, "http://192.168.1.130/iZoneRequestV2");
    assert_eq!(request.content_type, "application/json");
    assert_eq!(CONTENT_TYPE_JSON, "application/json");
    assert!(matches!(request.body, Json::Object(_)));
}

#[test]
fn command_request_goes_to_the_command_path() {
    let request = make_command_request("http://10.1.2.3:8080", turn_on_ac().to_json());
    assert_eq!(request.url, "http://10.1.2.3:8080/iZoneCommandV2");
    assert_eq!(request.content_type, "application/json");
    match request.body {
        Json::Object(members) => {
            assert_eq!(members.len(), 1);
            assert_eq!(members[0].key, "SysOn");
            assert!(matches!(members[0].value, Json::Int(1)));
        }
        _ => panic!("the body is no object"),
    }
}

#[test]
fn empty_base_address() {
    let request = make_query_request("", Json::Null);
    assert_eq!(request.url, "/iZoneRequestV2");
}

#[test]
fn successful_command_replies() {
    assert_eq!(read_command_reply(true, ""), Ok(()));
    assert_eq!(read_command_reply(true, "OK"), Ok(()));
    assert_eq!(read_command_reply(true, "{\"SysOn\":1}"), Ok(()));
    assert_eq!(read_command_reply(true, "erro r"), Ok(()));
}

#[test]
fn device_error_in_a_reply() {
    assert_eq!(read_command_reply(true, "error"), Err(ApiError::Device));
    assert_eq!(read_command_reply(true, "Error: bad value"), Err(ApiError::Device));
    assert_eq!(read_command_reply(true, "{\"ERROR\":1}"), Err(ApiError::Device));
    assert_eq!(read_command_reply(true, "some eRrOr here"), Err(ApiError::Device));
}

#[test]
fn device_error_is_found_inside_a_longer_word() {
    assert_eq!(
        read_command_reply(true, "Setting applied, no errors found"),
        Err(ApiError::Device)
    );
    assert_eq!(read_command_reply(true, "terrorised"), Err(ApiError::Device));
}

#[test]
fn device_error_counts_before_the_status() {
    assert_eq!(read_command_reply(false, "Internal Error"), Err(ApiError::Device));
    assert_eq!(read_command_reply(false, "not found"), Err(ApiError::Status));
    assert_eq!(read_command_reply(false, ""), Err(ApiError::Status));
}

#[test]
fn query_replies() {
    assert!(matches!(read_query_reply(true, Some(Json::Int(3))), Ok(Json::Int(3))));
    assert!(matches!(read_query_reply(false, Some(Json::Int(3))), Err(ApiError::Status)));
    assert!(matches!(read_query_reply(true, None), Err(ApiError::Response)));
    assert!(matches!(read_query_reply(false, None), Err(ApiError::Response)));
}

#[test]
fn failure_messages() {
    assert_eq!(
        ApiError::Transport.message("http://192.168.1.130"),
        "Failed to connect to iZone controller at http://192.168.1.130.\nEnsure the IP address is correct and the controller is reachable in your network."
    );
    assert_eq!(
        ApiError::Response.message("http://192.168.1.130"),
        "Unexpected response from iZone controller at http://192.168.1.130.\nEnsure your configuration has the correct iZone IP and the controller is reachable in your network."
    );
    assert_eq!(
        ApiError::Status.message("x"),
        "The iZone controller at x answered with a status that reports a failure."
    );
    assert_eq!(ApiError::Device.message("x"), "The iZone controller at x reported an error.");
}
