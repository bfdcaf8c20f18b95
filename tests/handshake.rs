use http_lifecycle::handshake::{
    ack, check_upgrade_status, preamble, ClientHandshake, HandshakeError, ServerHandshake,
    ServerStep, PREAMBLE_LEN,
};
use http_lifecycle::negotiate::{negotiate, UpgradeRequest};

#[test]
fn preamble_and_ack_bytes() {
    assert_eq!(preamble(), b"foo=bar".to_vec());
    assert_eq!(ack(), b"bar=foo".to_vec());
    assert_eq!(PREAMBLE_LEN, 7);
}

#[test]
fn server_reads_whole_preamble_at_once() {
    let mut s = ServerHandshake::new();
    assert_eq!(s.remaining(), 7);
    assert_eq!(s.on_read(b"foo=bar"), ServerStep::Reply(b"bar=foo".to_vec()));
    assert_eq!(s.received(), b"foo=bar");
}

#[test]
fn server_reads_preamble_in_pieces() {
    let mut s = ServerHandshake::new();
    assert_eq!(s.on_read(b"foo"), ServerStep::ReadMore(4));
    assert_eq!(s.on_read(b"=b"), ServerStep::ReadMore(2));
    assert_eq!(s.on_read(b"ar"), ServerStep::Reply(b"bar=foo".to_vec()));
}

#[test]
fn server_acknowledges_only_once() {
    let mut s = ServerHandshake::new();
    assert_eq!(s.on_read(b"foo=bar"), ServerStep::Reply(b"bar=foo".to_vec()));
    assert_eq!(s.on_read(b"foo=bar"), ServerStep::Finished);
    assert_eq!(s.on_read(b""), ServerStep::Finished);
    assert_eq!(s.received(), b"foo=bar");
}

#[test]
fn server_keeps_only_the_preamble() {
    let mut s = ServerHandshake::new();
    assert_eq!(s.on_read(b"foo=barEXTRA"), ServerStep::Reply(b"bar=foo".to_vec()));
    assert_eq!(s.received(), b"foo=bar");
}

#[test]
fn server_truncated_read() {
    let mut s = ServerHandshake::new();
    assert_eq!(s.on_read(b"foo="), ServerStep::ReadMore(3));
    assert_eq!(s.on_read(b""), ServerStep::Fail(HandshakeError::TruncatedRead));
}

#[test]
fn client_reads_until_close() {
    let mut c = ClientHandshake::new();
    assert_eq!(c.opening(), b"foo=bar".to_vec());
    assert_eq!(c.on_read(b"bar"), None);
    assert_eq!(c.on_read(b"=foo"), None);
    assert_eq!(c.on_read(b""), Some(b"bar=foo".to_vec()));
    assert_eq!(c.on_read(b"late"), Some(b"bar=foo".to_vec()));
}

#[test]
fn client_status_check() {
    assert_eq!(check_upgrade_status(101), Ok(()));
    assert_eq!(check_upgrade_status(400), Err(HandshakeError::UpgradeRejected(400)));
    assert_eq!(check_upgrade_status(200), Err(HandshakeError::UpgradeRejected(200)));
}

#[test]
fn upgrade_scenario_foobar() {
    // the client asks for foobar and is switched
    let n = negotiate(&UpgradeRequest { upgrade: Some(b"foobar".to_vec()) });
    assert_eq!(n.response.status, 101);
    assert_eq!(n.response.upgrade, Some(b"foobar".to_vec()));
    assert_eq!(check_upgrade_status(n.response.status), Ok(()));
    // the client writes its 7 bytes, the server answers with its 7 bytes
    let mut client = ClientHandshake::new();
    let sent = client.opening();
    assert_eq!(sent.len(), 7);
    let mut server = ServerHandshake::new();
    let reply = match server.on_read(&sent) {
        ServerStep::Reply(bytes) => bytes,
        other => panic!("unexpected step {:?}", other),
    };
    assert_eq!(client.on_read(&reply), None);
    let got = client.on_read(b"").unwrap();
    assert_eq!(got, b"bar=foo".to_vec());
    assert_eq!(got.len(), 7);
}
