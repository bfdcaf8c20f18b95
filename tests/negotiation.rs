use http_lifecycle::negotiate::{
    bytes_eq, negotiate, supported_token, UpgradeRequest, STATUS_BAD_REQUEST,
    STATUS_SWITCHING_PROTOCOLS,
};

#[test]
fn missing_upgrade_header_gets_400() {
    let n = negotiate(&UpgradeRequest { upgrade: None });
    assert_eq!(n.response.status, 400);
    assert_eq!(n.response.status, STATUS_BAD_REQUEST);
    assert!(n.response.upgrade.is_none());
    assert!(!n.detach);
}

#[test]
fn supported_token_gets_101_echoed() {
    let n = negotiate(&UpgradeRequest { upgrade: Some(b"foobar".to_vec()) });
    assert_eq!(n.response.status, 101);
    assert_eq!(n.response.status, STATUS_SWITCHING_PROTOCOLS);
    assert_eq!(n.response.upgrade, Some(b"foobar".to_vec()));
    assert!(n.detach);
}

#[test]
fn other_tokens_get_400() {
    for token in [&b"websocket"[..], b"foobar2", b"fooba", b"FOOBAR", b""] {
        let n = negotiate(&UpgradeRequest { upgrade: Some(token.to_vec()) });
        assert_eq!(n.response.status, 400);
        assert!(n.response.upgrade.is_none());
        assert!(!n.detach);
    }
}

#[test]
fn token_is_foobar() {
    assert_eq!(supported_token(), b"foobar".to_vec());
}

#[test]
fn byte_equality() {
    assert!(bytes_eq(b"abc", b"abc"));
    assert!(bytes_eq(b"", b""));
    assert!(!bytes_eq(b"abc", b"abd"));
    assert!(!bytes_eq(b"abc", b"ab"));
}
