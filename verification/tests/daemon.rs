use omarec::daemon::{route_request, AppError, RequestAction};
use omarec::ids::SessionId;
use omarec::protocol::{Request, RequestEnvelope, Response, PROTOCOL_VERSION};
use omarec::server::{connection_step, peer_check, ConnectionStep};

#[test]
fn greeting_is_answered_at_once_and_watch_is_refused() {
    match route_request(Request::Hello, "1.2.3".to_owned()) {
        RequestAction::Answer(Response::Hello { daemon_version, protocol, features }) => {
            assert_eq!(daemon_version, "1.2.3");
            assert_eq!(protocol, PROTOCOL_VERSION);
            assert_eq!(features.len(), 10);
            assert_eq!(features[0], "plan");
        }
        other => panic!("unexpected {other:?}"),
    }
    match route_request(Request::Watch, String::new()) {
        RequestAction::Refuse(error) => {
            assert!(matches!(error, AppError::WatchHandledByTransport));
            assert_eq!(error.code(), "transport_error");
        }
        other => panic!("unexpected {other:?}"),
    }
    let id = SessionId::from_u128(9);
    assert!(matches!(
        route_request(Request::Stop { expected_session_id: id, force: true }, String::new()),
        RequestAction::Stop { expected_session_id, force: true } if expected_session_id == id
    ));
}

#[test]
fn other_protocol_versions_are_answered_unsupported() {
    let envelope = RequestEnvelope { protocol: 2, request_id: 77, request: Request::Status };
    match connection_step(envelope) {
        ConnectionStep::Reply(reply) => {
            assert_eq!(reply.request_id, 77);
            match reply.response {
                Response::Error { code, message, retryable, .. } => {
                    assert_eq!(code, "unsupported_protocol");
                    assert_eq!(message, "client protocol 2 is unsupported; daemon protocol is 1");
                    assert!(!retryable);
                }
                other => panic!("unexpected {other:?}"),
            }
        }
        other => panic!("unexpected {other:?}"),
    }
    let watch = RequestEnvelope { protocol: PROTOCOL_VERSION, request_id: 5, request: Request::Watch };
    assert!(matches!(connection_step(watch), ConnectionStep::Watch { request_id: 5 }));
    let status = RequestEnvelope { protocol: PROTOCOL_VERSION, request_id: 6, request: Request::Status };
    assert!(matches!(
        connection_step(status),
        ConnectionStep::Handle { request_id: 6, request: Request::Status }
    ));
}

#[test]
fn other_users_are_refused() {
    assert!(peer_check(1, 1000, 1000).is_none());
    let refusal = peer_check(1, 1001, 1000).unwrap();
    assert_eq!(refusal.protocol, PROTOCOL_VERSION);
    assert_eq!(refusal.request_id, 1);
    match refusal.response {
        Response::Error { code, message, .. } => {
            assert_eq!(code, "unauthorized");
            assert_eq!(message, "client UID 1001 does not match daemon UID 1000");
        }
        other => panic!("unexpected {other:?}"),
    }
}
