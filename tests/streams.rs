use http_lifecycle::handshake::{HandshakeError, ServerStep};
use http_lifecycle::negotiate::UpgradeRequest;
use http_lifecycle::stream::{Phase, UpgradeStream};

#[test]
fn rejected_requests_keep_the_stream_active() {
    let mut s = UpgradeStream::new();
    let r = s.on_request(&UpgradeRequest { upgrade: None }).unwrap();
    assert_eq!(r.status, 400);
    assert_eq!(s.phase(), Phase::Active);
    assert!(!s.on_flushed());
    assert_eq!(s.on_raw_read(b"foo=bar"), None);
    let r = s.on_request(&UpgradeRequest { upgrade: Some(b"h2c".to_vec()) }).unwrap();
    assert_eq!(r.status, 400);
    assert_eq!(s.phase(), Phase::Active);
}

#[test]
fn upgrade_path_in_order() {
    let mut s = UpgradeStream::new();
    let r = s.on_request(&UpgradeRequest { upgrade: Some(b"foobar".to_vec()) }).unwrap();
    assert_eq!(r.status, 101);
    assert_eq!(s.phase(), Phase::Upgrading);
    // no raw bytes before the 101 is flushed, and no more HTTP after it
    assert_eq!(s.on_raw_read(b"foo=bar"), None);
    assert!(s.on_request(&UpgradeRequest { upgrade: None }).is_none());
    assert!(s.on_flushed());
    assert_eq!(s.phase(), Phase::Upgraded);
    assert!(!s.on_flushed());
    assert!(s.on_request(&UpgradeRequest { upgrade: Some(b"foobar".to_vec()) }).is_none());
    assert_eq!(s.on_raw_read(b"foo=b"), Some(ServerStep::ReadMore(2)));
    assert_eq!(s.on_raw_read(b"ar"), Some(ServerStep::Reply(b"bar=foo".to_vec())));
    // the acknowledgment is given once; nothing more is read
    assert_eq!(s.on_raw_read(b"foo=bar"), None);
    assert_eq!(s.remaining_preamble(), 0);
    assert_eq!(s.phase(), Phase::Upgraded);
    s.close();
    assert_eq!(s.phase(), Phase::Closed);
    assert!(s.on_request(&UpgradeRequest { upgrade: None }).is_none());
}

#[test]
fn truncated_preamble_closes_the_stream() {
    let mut s = UpgradeStream::new();
    s.on_request(&UpgradeRequest { upgrade: Some(b"foobar".to_vec()) }).unwrap();
    assert!(s.on_flushed());
    assert_eq!(s.on_raw_read(b"foo"), Some(ServerStep::ReadMore(4)));
    assert_eq!(s.on_raw_read(b""), Some(ServerStep::Fail(HandshakeError::TruncatedRead)));
    assert_eq!(s.phase(), Phase::Closed);
}
