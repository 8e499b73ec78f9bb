use open_twin::connection::{PeerIdentity, RequestContext};
use open_twin::download::get_download_html_body;
use open_twin::handler::{self, Rejection};
use open_twin::router::{Dispatch, Router};

/// A self-signed Ed25519 certificate in DER form.
fn sample_certificate() -> Vec<u8> {
    vec![
        0x30, 0x82, 0x01, 0x08, 0x30, 0x81, 0xbb, 0x02, 0x14, 0x77, 0xe5, 0xf4,
        0xc0, 0x34, 0x88, 0xa1, 0x22, 0x6c, 0xf5, 0xcd, 0x45, 0xf3, 0xcd, 0xf0,
        0x49, 0x91, 0xf8, 0x15, 0x43, 0x30, 0x05, 0x06, 0x03, 0x2b, 0x65, 0x70,
        0x30, 0x27, 0x31, 0x0b, 0x30, 0x09, 0x06, 0x03, 0x55, 0x04, 0x06, 0x13,
        0x02, 0x44, 0x45, 0x31, 0x18, 0x30, 0x16, 0x06, 0x03, 0x55, 0x04, 0x03,
        0x0c, 0x0f, 0x77, 0x77, 0x77, 0x2e, 0x65, 0x78, 0x61, 0x6d, 0x70, 0x6c,
        0x65, 0x2e, 0x63, 0x6f, 0x6d, 0x30, 0x1e, 0x17, 0x0d, 0x32, 0x31, 0x30,
        0x37, 0x32, 0x37, 0x31, 0x32, 0x33, 0x37, 0x31, 0x34, 0x5a, 0x17, 0x0d,
        0x32, 0x33, 0x30, 0x36, 0x32, 0x37, 0x31, 0x32, 0x33, 0x37, 0x31, 0x34,
        0x5a, 0x30, 0x27, 0x31, 0x0b, 0x30, 0x09, 0x06, 0x03, 0x55, 0x04, 0x06,
        0x13, 0x02, 0x44, 0x45, 0x31, 0x18, 0x30, 0x16, 0x06, 0x03, 0x55, 0x04,
        0x03, 0x0c, 0x0f, 0x77, 0x77, 0x77, 0x2e, 0x65, 0x78, 0x61, 0x6d, 0x70,
        0x6c, 0x65, 0x2e, 0x63, 0x6f, 0x6d, 0x30, 0x2a, 0x30, 0x05, 0x06, 0x03,
        0x2b, 0x65, 0x70, 0x03, 0x21, 0x00, 0x3e, 0xa4, 0x05, 0xd2, 0xef, 0x19,
        0xf5, 0xe0, 0xab, 0xf3, 0x3e, 0x4d, 0xf5, 0x4e, 0xe5, 0x1d, 0x05, 0x44,
        0x79, 0x3d, 0x98, 0xe2, 0x67, 0x25, 0x37, 0xf4, 0xff, 0xca, 0xf8, 0x60,
        0x98, 0x4c, 0x30, 0x05, 0x06, 0x03, 0x2b, 0x65, 0x70, 0x03, 0x41, 0x00,
        0x20, 0xdb, 0x7a, 0xe6, 0xfa, 0xc2, 0x88, 0xe9, 0x59, 0xf4, 0x6a, 0xca,
        0xb2, 0xd7, 0x2c, 0x48, 0x0d, 0x55, 0xbc, 0x0f, 0x27, 0x57, 0x32, 0x52,
        0x68, 0x3f, 0xe8, 0x01, 0xaa, 0x9e, 0x83, 0xd2, 0x23, 0xc3, 0xb4, 0x8c,
        0x17, 0x93, 0x70, 0x6b, 0xde, 0x0d, 0xc4, 0xaa, 0x36, 0x71, 0xc8, 0x83,
        0x83, 0xb1, 0xe4, 0x1a, 0x6e, 0x52, 0x8b, 0xd6, 0xbc, 0x02, 0xa6, 0x26,
        0xea, 0x8d, 0xd5, 0x02,
    ]
}

fn with_identity(remote: &str) -> RequestContext {
    RequestContext { peer: Some(PeerIdentity { der: sample_certificate() }), remote: remote.to_string() }
}

fn anonymous(remote: &str) -> RequestContext {
    RequestContext { peer: None, remote: remote.to_string() }
}

fn rejection(d: Dispatch) -> Rejection {
    match d {
        Dispatch::Reject(r) => r,
        _ => panic!("expected a rejection"),
    }
}

#[test]
fn info_route_names_the_service() {
    let r = Router::new("/opt/services/libModelingService.so");
    assert_eq!(r.service_name().as_deref(), Some("libModelingService"));
    match r.dispatch("GET", "/", &anonymous("1.1.1.1:1"), b"") {
        Dispatch::Respond(reply) => {
            assert_eq!(reply.status, 201);
            assert_eq!(reply.body, "OpenTwin Microservice (libModelingService)");
        }
        _ => panic!("expected the info text"),
    }
}

#[test]
fn info_text_without_service_name() {
    let r = Router::new("");
    assert_eq!(r.info_text(), "OpenTwin Microservice (UNKNOWN)");
}

#[test]
fn installer_page_only_for_session_service() {
    assert!(Router::new("C:/OpenTwin/GlobalSessionService.dll").offers_installer_download());
    assert!(!Router::new("/x/AuthorisationService.so").offers_installer_download());
    assert!(get_download_html_body().starts_with("   <!DOCTYPE html>"));
    assert!(get_download_html_body().ends_with("</body>"));
}

#[test]
fn unknown_path_and_wrong_method() {
    let r = Router::new("svc.so");
    assert_eq!(rejection(r.dispatch("GET", "/nothing", &anonymous("a"), b"{}")), Rejection::NotFound);
    assert_eq!(rejection(r.dispatch("POST", "/", &anonymous("a"), b"{}")), Rejection::MethodNotAllowed);
    assert_eq!(rejection(r.dispatch("GET", "/execute", &with_identity("a"), b"{}")), Rejection::MethodNotAllowed);
    assert_eq!(Rejection::NotFound.status(), 404);
    assert_eq!(Rejection::MethodNotAllowed.status(), 405);
}

#[test]
fn identity_routes_refuse_anonymous_clients() {
    let r = Router::new("svc.so");
    for path in ["/execute", "/queue", "/shutdown"] {
        assert_eq!(rejection(r.dispatch("POST", path, &anonymous("9.9.9.9:9"), b"{}")), Rejection::Unauthorized);
    }
    assert_eq!(Rejection::Unauthorized.status(), 401);
}

#[test]
fn unreadable_certificate_is_refused() {
    let r = Router::new("svc.so");
    let ctx = RequestContext { peer: Some(PeerIdentity { der: vec![1, 2, 3] }), remote: "a".to_string() };
    assert_eq!(rejection(r.dispatch("POST", "/execute", &ctx, b"{}")), Rejection::InvalidCertificate);
}

#[test]
fn execute_forwards_compact_json_and_address() {
    let r = Router::new("svc.so");
    match r.dispatch("POST", "/execute", &with_identity("10.2.3.4:5555"), b"{ \"action\" : \"run\",\n \"model_id\": 3 }") {
        Dispatch::Invoke(call) => {
            assert_eq!(call.operation.entry_point(), "performAction");
            assert_eq!(call.payload, "{\"action\":\"run\",\"model_id\":3}");
            assert_eq!(call.remote, "10.2.3.4:5555");
        }
        _ => panic!("expected a plugin call"),
    }
}

#[test]
fn one_way_tls_route_needs_no_identity() {
    let r = Router::new("svc.so");
    match r.dispatch("POST", "/execute-one-way-tls", &anonymous("8.8.4.4:443"), b"[1, 2]") {
        Dispatch::Invoke(call) => {
            assert_eq!(call.operation.entry_point(), "performActionOneWayTLS");
            assert_eq!(call.payload, "[1,2]");
            assert_eq!(call.remote, "8.8.4.4:443");
        }
        _ => panic!("expected a plugin call"),
    }
}

#[test]
fn queue_route_forwards_to_queue_action() {
    let r = Router::new("svc.so");
    match r.dispatch("POST", "/queue", &with_identity("h:1"), b"{\"action\":\"q\"}") {
        Dispatch::Invoke(call) => assert_eq!(call.operation.entry_point(), "queueAction"),
        _ => panic!("expected a plugin call"),
    }
}

#[test]
fn malformed_body_is_a_client_error() {
    let r = Router::new("svc.so");
    assert_eq!(rejection(r.dispatch("POST", "/execute", &with_identity("h:1"), b"{not json")), Rejection::InvalidBody);
    assert_eq!(rejection(r.dispatch("POST", "/execute-one-way-tls", &anonymous("h:1"), b"")), Rejection::InvalidBody);
    assert_eq!(Rejection::InvalidBody.status(), 400);
}

#[test]
fn shutdown_with_identity_ends_the_process() {
    let r = Router::new("svc.so");
    assert!(matches!(r.dispatch("POST", "/shutdown", &with_identity("h:1"), b"{}"), Dispatch::Shutdown));
    assert_eq!(handler::shutdown(&None, b"{}"), Err(Rejection::Unauthorized));
}

#[test]
fn two_clients_get_calls_with_their_own_context() {
    let r = Router::new("svc.so");
    let first = r.dispatch("POST", "/execute", &with_identity("10.0.0.1:1000"), b"{\"n\":1}");
    let second = r.dispatch("POST", "/execute-one-way-tls", &anonymous("10.0.0.2:2000"), b"{\"n\":2}");
    match (first, second) {
        (Dispatch::Invoke(a), Dispatch::Invoke(b)) => {
            assert_eq!((a.remote.as_str(), a.payload.as_str()), ("10.0.0.1:1000", "{\"n\":1}"));
            assert_eq!((b.remote.as_str(), b.payload.as_str()), ("10.0.0.2:2000", "{\"n\":2}"));
        }
        _ => panic!("expected two plugin calls"),
    }
}

#[test]
fn handler_execute_checks_identity_before_body() {
    let addr = "1.2.3.4:5".to_string();
    assert_eq!(handler::execute(&None, &addr, b"oops").unwrap_err(), Rejection::Unauthorized);
    let call = handler::queue(&Some(PeerIdentity { der: sample_certificate() }), &addr, b" true ").unwrap();
    assert_eq!(call.payload, "true");
    assert_eq!(handler::execute_one_way_tls(&addr, b"null").unwrap().payload, "null");
}
