use open_twin::connection::{Connection, ConnectionPhase, PeerIdentity};

fn established(remote: &str, presented: Option<Vec<Vec<u8>>>) -> Connection {
    let mut c = Connection::accepted(remote.to_string());
    assert!(c.begin_handshake());
    assert!(c.handshake_completed(presented));
    c
}

#[test]
fn context_carries_first_presented_certificate() {
    let c = established("10.1.1.1:5000", Some(vec![vec![1, 2, 3], vec![9, 9]]));
    let ctx = c.request_context().unwrap();
    assert_eq!(ctx.peer.unwrap().der, vec![1, 2, 3]);
    assert_eq!(ctx.remote, "10.1.1.1:5000");
}

#[test]
fn anonymous_connection_has_no_identity() {
    let c = established("10.1.1.2:5001", None);
    let ctx = c.request_context().unwrap();
    assert!(ctx.peer.is_none());
    let e = established("10.1.1.3:5002", Some(vec![]));
    assert!(e.request_context().unwrap().peer.is_none());
}

#[test]
fn two_connections_keep_their_own_identities() {
    let a = established("192.168.0.10:40000", Some(vec![vec![0xaa, 0x01]]));
    let b = established("192.168.0.11:40001", Some(vec![vec![0xbb, 0x02]]));
    let ca = a.request_context().unwrap();
    let cb = b.request_context().unwrap();
    assert_eq!(ca.peer.unwrap().der, vec![0xaa, 0x01]);
    assert_eq!(ca.remote, "192.168.0.10:40000");
    assert_eq!(cb.peer.unwrap().der, vec![0xbb, 0x02]);
    assert_eq!(cb.remote, "192.168.0.11:40001");
}

#[test]
fn requests_on_one_connection_share_its_context() {
    let c = established("10.0.0.9:7000", Some(vec![vec![5, 6]]));
    let first = c.request_context().unwrap();
    let second = c.request_context().unwrap();
    assert_eq!(first.peer.map(|p: PeerIdentity| p.der), second.peer.map(|p: PeerIdentity| p.der));
    assert_eq!(first.remote, second.remote);
}

#[test]
fn no_context_before_or_after_failed_handshake() {
    let mut c = Connection::accepted("10.0.0.1:1".to_string());
    assert_eq!(c.phase(), ConnectionPhase::Accepted);
    assert!(c.request_context().is_none());
    assert!(!c.handshake_completed(Some(vec![vec![1]])));
    assert!(c.begin_handshake());
    assert!(!c.begin_handshake());
    assert!(c.handshake_failed());
    assert_eq!(c.phase(), ConnectionPhase::Failed);
    assert!(c.request_context().is_none());
    assert!(!c.handshake_completed(Some(vec![vec![1]])));
    assert_eq!(c.remote_address(), "10.0.0.1:1");
}
