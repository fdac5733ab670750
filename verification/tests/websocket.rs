use tokio_tungstenite::tungstenite::handshake::derive_accept_key;
use warpgate::websocket::{
    check_upstream_handshake, recording_action, requested_websocket_protocols, resize_record,
    HandshakeFault, HandshakeHeader, RecordingAction, ResizeRecord, TerminalSize, UpstreamUpgrade,
};

#[test]
fn upstream_handshake_validates_the_switching_protocols_response() {
    let key = "dGhlIHNhbXBsZSBub25jZQ==";
    let base_headers = || {
        let mut headers = http::HeaderMap::new();
        headers.insert(
            http::header::CONNECTION,
            http::HeaderValue::from_static("Upgrade"),
        );
        headers.insert(
            http::header::UPGRADE,
            http::HeaderValue::from_static("websocket"),
        );
        headers.insert(
            http::header::SEC_WEBSOCKET_ACCEPT,
            derive_accept_key(key.as_bytes()).parse().unwrap(),
        );
        headers
    };
    let v4 = ["v4.channel.k8s.io".to_owned()];

    assert_eq!(
        check_upstream_handshake(&base_headers(), key, &[]).unwrap(),
        None
    );
    assert_eq!(
        check_upstream_handshake(&base_headers(), key, &v4).unwrap(),
        None,
        "the server may decline every offered subprotocol and still switch protocols",
    );

    let mut empty_protocol = base_headers();
    empty_protocol.insert(
        http::header::SEC_WEBSOCKET_PROTOCOL,
        http::HeaderValue::from_static(""),
    );
    assert_eq!(
        check_upstream_handshake(&empty_protocol, key, &[]).unwrap(),
        None
    );

    let mut selected_v4 = base_headers();
    selected_v4.insert(
        http::header::SEC_WEBSOCKET_PROTOCOL,
        http::HeaderValue::from_static("v4.channel.k8s.io"),
    );
    assert_eq!(
        check_upstream_handshake(&selected_v4, key, &v4).unwrap(),
        Some("v4.channel.k8s.io".to_owned())
    );

    let mut unoffered = base_headers();
    unoffered.insert(
        http::header::SEC_WEBSOCKET_PROTOCOL,
        http::HeaderValue::from_static("channel.k8s.io"),
    );
    assert!(check_upstream_handshake(&unoffered, key, &[]).is_err());
    assert!(check_upstream_handshake(&unoffered, key, &v4).is_err());

    let mut duplicated = base_headers();
    duplicated.append(
        http::header::SEC_WEBSOCKET_PROTOCOL,
        http::HeaderValue::from_static("v4.channel.k8s.io"),
    );
    duplicated.append(
        http::header::SEC_WEBSOCKET_PROTOCOL,
        http::HeaderValue::from_static("v4.channel.k8s.io"),
    );
    assert!(check_upstream_handshake(&duplicated, key, &v4).is_err());

    let mut listed = base_headers();
    listed.insert(
        http::header::SEC_WEBSOCKET_PROTOCOL,
        http::HeaderValue::from_static("v4.channel.k8s.io, v5.channel.k8s.io"),
    );
    assert!(check_upstream_handshake(
        &listed,
        key,
        &[
            "v4.channel.k8s.io".to_owned(),
            "v5.channel.k8s.io".to_owned()
        ]
    )
    .is_err());

    let mut extension = base_headers();
    extension.insert(
        http::header::SEC_WEBSOCKET_EXTENSIONS,
        http::HeaderValue::from_static("permessage-deflate"),
    );
    assert!(check_upstream_handshake(&extension, key, &[]).is_err());

    let mut duplicated_accept = base_headers();
    duplicated_accept.append(
        http::header::SEC_WEBSOCKET_ACCEPT,
        derive_accept_key(key.as_bytes()).parse().unwrap(),
    );
    assert!(check_upstream_handshake(&duplicated_accept, key, &[]).is_err());

    assert!(check_upstream_handshake(&base_headers(), "wrong", &[]).is_err());
}

#[test]
fn websocket_protocols_are_optional_and_read_from_the_first_header_only() {
    let mut headers: http::HeaderMap<http::HeaderValue> = http::HeaderMap::new();
    assert!(requested_websocket_protocols(&headers).is_empty());

    headers.append(
        http::header::SEC_WEBSOCKET_PROTOCOL,
        http::HeaderValue::from_static("v5.channel.k8s.io, v4.channel.k8s.io"),
    );
    assert_eq!(
        requested_websocket_protocols(&headers),
        ["v5.channel.k8s.io", "v4.channel.k8s.io"]
    );

    // A second, repeated header is not merged in.
    headers.append(
        http::header::SEC_WEBSOCKET_PROTOCOL,
        http::HeaderValue::from_static("channel.k8s.io"),
    );
    assert_eq!(
        requested_websocket_protocols(&headers),
        ["v5.channel.k8s.io", "v4.channel.k8s.io"]
    );
}

#[test]
fn only_input_output_and_size_changes_are_recorded() {
    assert!(matches!(recording_action(&vec![]), RecordingAction::Skip));
    for channel in 0u8..=255 {
        let action = recording_action(&vec![channel, 7, 8]);
        match action {
            RecordingAction::Write { stream, data } => {
                assert!(channel < 2);
                assert_eq!((stream, data), (channel, vec![7, 8]));
            }
            RecordingAction::Resize { data } => {
                assert_eq!(channel, 4);
                assert_eq!(data, vec![7, 8]);
            }
            RecordingAction::Skip => assert!(channel >= 2 && channel != 4),
        }
    }
}

#[test]
fn every_upgrade_request_has_a_key_of_its_own() {
    let a = UpstreamUpgrade::new(vec![]);
    let b = UpstreamUpgrade::new(vec!["p".to_owned(), "q".to_owned()]);
    assert_ne!(a.key, b.key);
    assert_eq!(a.headers().len(), 4);
    assert_eq!(
        b.headers()[4],
        ("sec-websocket-protocol".to_owned(), "p, q".to_owned())
    );
}

#[test]
fn each_flaw_of_a_handshake_has_a_name() {
    let key = "dGhlIHNhbXBsZSBub25jZQ==";
    let accept = derive_accept_key(key.as_bytes());
    assert_eq!(accept, "s3pPLMBiTxaQ9kYGzzhZRbK+xOo=");
    let fault = |list: &[(&'static str, &str)]| {
        let mut headers: http::HeaderMap<http::HeaderValue> = http::HeaderMap::new();
        for (name, value) in list {
            headers.append(*name, http::HeaderValue::from_str(value).unwrap());
        }
        check_upstream_handshake(&headers, key, &["p".to_owned()]).unwrap_err()
    };
    let c = ("connection", "keep-alive, Upgrade");
    let u = ("upgrade", "WebSocket");
    let a = ("sec-websocket-accept", accept.as_str());
    let p = "sec-websocket-protocol";

    assert!(matches!(fault(&[u, a]), HandshakeFault::Missing(HandshakeHeader::Connection)));
    assert!(matches!(
        fault(&[("connection", "close"), u, a]),
        HandshakeFault::UnexpectedConnection(text) if text == "close"
    ));
    assert!(matches!(fault(&[c, a]), HandshakeFault::Missing(HandshakeHeader::Upgrade)));
    assert!(matches!(
        fault(&[c, ("upgrade", "h2c"), a]),
        HandshakeFault::UnexpectedUpgrade(text) if text == "h2c"
    ));
    assert!(matches!(fault(&[c, u]), HandshakeFault::Missing(HandshakeHeader::Accept)));
    assert!(matches!(fault(&[c, u, a, a]), HandshakeFault::RepeatedAccept));
    assert!(matches!(
        fault(&[c, u, ("sec-websocket-accept", "x")]),
        HandshakeFault::UnexpectedAccept(text) if text == "x"
    ));
    assert!(matches!(
        fault(&[c, u, a, ("sec-websocket-extensions", "e")]),
        HandshakeFault::UnexpectedExtensions(Some(text)) if text == "e"
    ));
    assert!(matches!(fault(&[c, u, a, (p, "p"), (p, "p")]), HandshakeFault::RepeatedProtocol));
    assert!(matches!(
        fault(&[c, u, a, (p, "p,q")]),
        HandshakeFault::SeveralProtocols(text) if text == "p,q"
    ));
    assert!(matches!(
        fault(&[c, u, a, (p, " q ")]),
        HandshakeFault::UnofferedProtocol(text) if text == "q"
    ));

    let mut headers: http::HeaderMap<http::HeaderValue> = http::HeaderMap::new();
    for (name, value) in [c, u, a] {
        headers.append(name, http::HeaderValue::from_str(value).unwrap());
    }
    headers.append(p, http::HeaderValue::from_bytes(b"\xff").unwrap());
    assert!(matches!(
        check_upstream_handshake(&headers, key, &[]),
        Err(HandshakeFault::InvalidProtocol)
    ));
}

#[test]
fn only_a_described_size_is_recorded() {
    assert!(matches!(
        resize_record(Some(TerminalSize { width: 80, height: 24 })),
        ResizeRecord::Resize { width: 80, height: 24 }
    ));
    assert!(matches!(resize_record(None), ResizeRecord::Nothing));
}
