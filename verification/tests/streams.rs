use tokio_util::sync::CancellationToken;
use warpgate::session_handle::{KubernetesSessionHandle, SessionHandle};
use warpgate::stream_errors::{any_cause_means_peer_gone, is_peer_gone, Cause, IoKind};

#[test]
fn normal_stream_teardown_is_not_an_error() {
    // One direction closes, the other fails writing into it.
    let closed =
        anyhow::Error::msg("Trying to work with closed connection").context("tungstenite error");
    assert!(is_peer_gone(&closed));

    for kind in [
        std::io::ErrorKind::BrokenPipe,
        // A killed client: the TLS session ends without a close_notify.
        std::io::ErrorKind::UnexpectedEof,
    ] {
        let error = anyhow::Error::new(std::io::Error::new(kind, "peer gone"));
        assert!(is_peer_gone(&error), "{kind:?}");
    }
}

#[test]
fn real_stream_failures_are_still_errors() {
    let refused = anyhow::Error::new(std::io::Error::new(
        std::io::ErrorKind::ConnectionRefused,
        "no route",
    ));
    assert!(!is_peer_gone(&refused));
    assert!(!is_peer_gone(&anyhow::Error::msg(
        "stream error: protocol violation"
    )));
}

#[test]
fn every_kind_of_vanished_peer_is_told_apart() {
    for kind in [
        std::io::ErrorKind::ConnectionReset,
        std::io::ErrorKind::ConnectionAborted,
    ] {
        let error = anyhow::Error::new(std::io::Error::new(kind, "x")).context("outer");
        assert!(is_peer_gone(&error));
    }
    assert!(is_peer_gone(&anyhow::Error::msg("Connection closed normally")));
}

#[test]
fn a_closed_websocket_is_told_by_its_text() {
    // A closed websocket can come as an I/O error that keeps only its text.
    for text in ["Trying to work with closed connection", "Connection closed normally"] {
        assert!(is_peer_gone(&anyhow::Error::new(std::io::Error::other(text))));
        assert!(is_peer_gone(&anyhow::Error::new(std::io::Error::other(text)).context("pump")));
        assert!(is_peer_gone(&anyhow::Error::msg(text)));
    }
    assert!(!is_peer_gone(&anyhow::Error::new(std::io::Error::other("no route"))));
    // The text says nothing beside a kind of another failure.
    for kind in [std::io::ErrorKind::ConnectionRefused, std::io::ErrorKind::PermissionDenied] {
        let error = std::io::Error::new(kind, "Connection closed normally");
        assert!(!is_peer_gone(&anyhow::Error::new(error)));
    }
}

#[test]
fn one_cause_is_enough() {
    let causes = vec![
        Cause { io: None, text: "outer".to_owned() },
        Cause { io: Some(IoKind::BrokenPipe), text: "pipe".to_owned() },
    ];
    assert!(any_cause_means_peer_gone(&causes));
    let closed = |io: IoKind| {
        vec![Cause { io: Some(io), text: "Connection closed normally".to_owned() }]
    };
    assert!(any_cause_means_peer_gone(&closed(IoKind::Other)));
    assert!(!any_cause_means_peer_gone(&closed(IoKind::Unlisted)));
    assert!(!any_cause_means_peer_gone(&vec![]));
}

#[test]
fn close_cancels_token() {
    let (mut handle, token): (KubernetesSessionHandle, CancellationToken) =
        KubernetesSessionHandle::new();
    assert!(!token.is_cancelled());
    handle.close();
    assert!(token.is_cancelled());
}
