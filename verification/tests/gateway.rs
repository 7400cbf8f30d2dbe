use gateway::bridge::bridge;
use gateway::bridge::interpret_response;
use gateway::bridge::BackendOutcome;
use gateway::bridge::Reply;
use gateway::digits::u16_decimal;
use gateway::events::get_user_event;
use gateway::events::handles_event;
use gateway::status::is_success_status;
use gateway::status::status_message;
use gateway::url::build_user_url;
use gateway::user::User;

#[test]
fn scenario_successful_lookup() {
    let user = User {
        id: 42,
        name: String::from("Ada"),
    };
    let reply = bridge(BackendOutcome::Success(user));
    assert_eq!(reply.event_name(), "user_data");
    match reply {
        Reply::UserData(user) => {
            assert_eq!(user.id, 42);
            assert_eq!(user.name, "Ada");
        }
        Reply::RequestError(message) => panic!("unexpected request_error: {}", message),
    }
}

#[test]
fn scenario_user_not_found() {
    let reply = bridge(BackendOutcome::BadStatus(404));
    assert_eq!(reply.event_name(), "request_error");
    match reply {
        Reply::UserData(_) => panic!("unexpected user_data"),
        Reply::RequestError(message) => {
            assert!(message.contains("404"));
            assert_eq!(message, "Backend error: 404 Not Found");
        }
    }
}

#[test]
fn scenario_backend_unreachable() {
    let reply = bridge(BackendOutcome::TransportFailure);
    assert_eq!(reply.event_name(), "request_error");
    match reply {
        Reply::UserData(_) => panic!("unexpected user_data"),
        Reply::RequestError(message) => {
            assert_eq!(message, "Could not reach the backend service.");
        }
    }
}

#[test]
fn malformed_body_fixed_message() {
    let reply = bridge(BackendOutcome::MalformedResponse);
    assert_eq!(reply.event_name(), "request_error");
    match reply {
        Reply::UserData(_) => panic!("unexpected user_data"),
        Reply::RequestError(message) => {
            assert_eq!(message, "Failed to parse the backend JSON response.");
        }
    }
}

#[test]
fn bad_status_messages_carry_the_code() {
    let cases: Vec<u16> = vec![300, 301, 400, 500, 503, 599];
    for code in cases {
        let reply = bridge(BackendOutcome::BadStatus(code));
        match reply {
            Reply::UserData(_) => panic!("unexpected user_data"),
            Reply::RequestError(message) => {
                assert!(message.contains(&code.to_string()));
                assert!(message.starts_with("Backend error: "));
            }
        }
    }
}

#[test]
fn status_message_with_known_reason() {
    assert_eq!(status_message(404), "Backend error: 404 Not Found");
    assert_eq!(status_message(500), "Backend error: 500 Internal Server Error");
    assert_eq!(status_message(301), "Backend error: 301 Moved Permanently");
}

#[test]
fn status_message_with_unregistered_code() {
    assert_eq!(status_message(599), "Backend error: 599 <unknown status code>");
}

#[test]
fn identical_requests_get_identical_replies() {
    let first = bridge(BackendOutcome::BadStatus(404));
    let second = bridge(BackendOutcome::BadStatus(404));
    match (first, second) {
        (Reply::RequestError(a), Reply::RequestError(b)) => assert_eq!(a, b),
        _ => panic!("expected two request_error replies"),
    }
    let first = bridge(BackendOutcome::Success(User {
        id: 7,
        name: String::from("Grace"),
    }));
    let second = bridge(BackendOutcome::Success(User {
        id: 7,
        name: String::from("Grace"),
    }));
    match (first, second) {
        (Reply::UserData(a), Reply::UserData(b)) => {
            assert_eq!(a.id, b.id);
            assert_eq!(a.name, b.name);
        }
        _ => panic!("expected two user_data replies"),
    }
}

#[test]
fn only_get_user_is_recognized() {
    assert_eq!(get_user_event(), "get_user");
    assert!(handles_event("get_user"));
    assert!(!handles_event("get_users"));
    assert!(!handles_event("user_data"));
    assert!(!handles_event(""));
}

#[test]
fn url_concatenates_base_and_path() {
    assert_eq!(
        build_user_url("http://localhost:8080", "42"),
        "http://localhost:8080/users/42"
    );
    assert_eq!(build_user_url("", "1"), "/users/1");
    assert_eq!(build_user_url("http://backend:9000", ""), "http://backend:9000/users/");
}

#[test]
fn decimal_rendering() {
    assert_eq!(u16_decimal(0), "0");
    assert_eq!(u16_decimal(7), "7");
    assert_eq!(u16_decimal(10), "10");
    assert_eq!(u16_decimal(404), "404");
    assert_eq!(u16_decimal(65535), "65535");
}

#[test]
fn success_status_range() {
    assert!(!is_success_status(199));
    assert!(is_success_status(200));
    assert!(is_success_status(204));
    assert!(is_success_status(299));
    assert!(!is_success_status(300));
    assert!(!is_success_status(0));
}

#[test]
fn response_classification() {
    let out = interpret_response(
        200,
        Some(User {
            id: 42,
            name: String::from("Ada"),
        }),
    );
    match out {
        BackendOutcome::Success(user) => {
            assert_eq!(user.id, 42);
            assert_eq!(user.name, "Ada");
        }
        _ => panic!("expected success"),
    }
    assert!(matches!(interpret_response(200, None), BackendOutcome::MalformedResponse));
    assert!(matches!(interpret_response(404, None), BackendOutcome::BadStatus(404)));
    assert!(matches!(interpret_response(100, None), BackendOutcome::BadStatus(100)));
}
