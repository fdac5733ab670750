use http::{HeaderMap, HeaderName, HeaderValue};
use warpgate::api_request::{
    handle_api_request, route_request, AdmittedSession, ApiAction, ApiEvent, ApiFailure,
    KubernetesIdentity,
};
use warpgate::config_providers::AuthorizedIdentity;
use warpgate::model::{
    AuthStateUserInfo, KubernetesTargetAuth, Protocol, Target, TargetKubernetesOptions,
    TargetOptions, Ticket, Timestamp, UserSessionId,
};
use warpgate::normal_request::{
    handle_normal_request, NormalAction, NormalCall, NormalEvent, NormalRequest, ReplyBody,
    RequestFailure,
};
use warpgate::routes::{
    api_path, construct_target_url, named_target_path, ticket_path, write_target_url, RouteError,
};
use warpgate::tickets::{validate_ticket, TicketAction, TicketEvent, ValidatedTicket};
use warpgate::websocket_request::{
    handle_websocket_request, StreamOperation, WebsocketAction, WebsocketAnswer, WebsocketCall,
    WebsocketEvent, WebsocketRequest,
};

fn map(list: &[(&str, &str)]) -> HeaderMap<HeaderValue> {
    let mut headers: HeaderMap<HeaderValue> = HeaderMap::new();
    for (name, value) in list {
        headers.append(
            HeaderName::from_bytes(name.as_bytes()).unwrap(),
            HeaderValue::from_str(value).unwrap(),
        );
    }
    headers
}

fn options(cluster_url: &str) -> TargetKubernetesOptions {
    TargetKubernetesOptions {
        cluster_url: cluster_url.to_owned(),
        auth: KubernetesTargetAuth::Token,
    }
}

fn alice() -> AuthStateUserInfo {
    AuthStateUserInfo { id: 1, username: "alice".to_owned() }
}

fn cluster() -> Target {
    Target {
        id: 7,
        name: "prod".to_owned(),
        options: TargetOptions::Kubernetes(options("https://cluster:6443")),
        require_approval: false,
    }
}

fn ticket() -> ValidatedTicket {
    let now = Timestamp { nanos: 0 };
    let stored = Ticket {
        id: 5,
        user_id: 1,
        target_id: 7,
        uses_left: None,
        self_service: false,
        expiry: None,
    };
    let (check, _) = validate_ticket("s".to_owned(), None, Protocol::Kubernetes);
    let (check, _) = check.step(TicketEvent::Ticket(Ok(Some(stored)), now));
    let (check, _) = check.step(TicketEvent::User(Ok(Some(alice()))));
    let (check, _) = check.step(TicketEvent::Vetted(Ok(true)));
    let (_, action) = check.step(TicketEvent::Target(Ok(Some(cluster()))));
    match action {
        TicketAction::Done(Ok(Some(ticket))) => ticket,
        _ => panic!("the ticket is valid"),
    }
}

fn user() -> KubernetesIdentity {
    KubernetesIdentity::User(AuthorizedIdentity::for_authenticated_session(
        alice(),
        Protocol::Kubernetes,
    ))
}

#[test]
fn named_routes_decode_only_the_target_selector() {
    assert_eq!(
        named_target_path("/my%20cluster/api/v1/namespaces/default/pods/a%2Fb").unwrap(),
        (
            "my cluster".to_owned(),
            "api/v1/namespaces/default/pods/a%2Fb".to_owned()
        ),
    );
    assert!(named_target_path("/api").is_err());
    assert!(named_target_path("/").is_err());
    assert!(named_target_path("//api").is_err());
}

#[test]
fn a_path_without_a_route_says_why() {
    let not_found = named_target_path("api/v1").unwrap_err();
    assert!(matches!(not_found, RouteError::NotFound));
    assert_eq!(not_found.status(), 404);
    let invalid = named_target_path("/%ff/api").unwrap_err();
    assert!(matches!(invalid, RouteError::InvalidTargetName));
    assert_eq!(invalid.status(), 400);
    // A `%` that no two digits follow stands for itself.
    assert_eq!(named_target_path("/a%2/x").unwrap().0, "a%2");
    assert_eq!(named_target_path("/%C3%A9/").unwrap(), ("é".to_owned(), String::new()));
}

#[test]
fn dot_segments_are_resolved_before_anything_looks_at_the_path() {
    assert_eq!(api_path("api/v1/pods/a/../b/exec").unwrap(), "/api/v1/pods/b/exec");
    assert_eq!(api_path("api/v1/pods/a/%2e%2E/b/exec").unwrap(), "/api/v1/pods/b/exec");
    assert_eq!(api_path("api/./v1/%2e/pods/../..").unwrap(), "/api/");
    assert_eq!(api_path("../../api").unwrap(), "/api");
    assert_eq!(api_path("api/v1/pods/a%2Fb").unwrap(), "/api/v1/pods/a%2Fb");
    assert_eq!(api_path("").unwrap(), "/");
    assert_eq!(ticket_path("//api"), "api");
}

#[test]
fn the_cluster_url_carries_a_query_only_if_there_is_one() {
    assert_eq!(
        write_target_url("https://c:6443", "/api", Some("watch=true")),
        "https://c:6443/api?watch=true"
    );
    assert_eq!(write_target_url("https://c:6443", "/api", Some("")), "https://c:6443/api");
    assert_eq!(
        construct_target_url("https://C:443", "/api", None).unwrap(),
        "https://c/api"
    );
    assert!(construct_target_url("no url", "/api", None).is_err());
}

#[test]
fn a_ticket_selects_the_target_whatever_the_path() {
    let identity = KubernetesIdentity::Ticket(ticket());
    let route = route_request(&identity, "/api").unwrap();
    assert_eq!((route.target_name.as_str(), route.api_path.as_str()), ("prod", "/api"));
    let route = route_request(&identity, "/other/api/v1").unwrap();
    assert_eq!((route.target_name.as_str(), route.api_path.as_str()), ("prod", "/other/api/v1"));

    let route = route_request(&user(), "/other/api/v1").unwrap();
    assert_eq!((route.target_name.as_str(), route.api_path.as_str()), ("other", "/api/v1"));
    assert!(matches!(route_request(&user(), "/api"), Err(RouteError::NotFound)));
}

fn admitted() -> AdmittedSession {
    AdmittedSession {
        id: 99,
        user_info: alice(),
        target: cluster(),
        options: options("https://cluster:6443"),
    }
}

#[test]
fn an_api_request_is_authenticated_routed_authorized_and_served() {
    for websocket in [false, true] {
        let (request, action): (_, ApiAction<String>) =
            handle_api_request("/prod/api/./v1".to_owned(), websocket);
        assert!(matches!(action, ApiAction::Authenticate));
        let (request, action) = request.step::<String>(ApiEvent::Authenticated(Ok(user())));
        match action {
            ApiAction::Authorize(KubernetesIdentity::User(who), name) => {
                assert_eq!(who.user_info().username, "alice");
                assert_eq!(name, "prod");
            }
            _ => panic!("the user is authorized next"),
        }
        let (request, action) =
            request.step::<String>(ApiEvent::Authorized(Ok((UserSessionId(3), admitted()))));
        assert!(matches!(action, ApiAction::OpenSpan(UserSessionId(3))));
        let (request, action) = request.step::<String>(ApiEvent::SpanOpened(Ok(())));
        let served = match action {
            ApiAction::ServeWebsocket(served) if websocket => served,
            ApiAction::ServeNormal(served) if !websocket => served,
            _ => panic!("the request is served in its own way"),
        };
        assert_eq!(served.api_path, "/api/v1");
        assert_eq!(served.subject.session_id, 3);
        assert_eq!(served.subject.user_id, 1);
        assert_eq!(served.subject.username, "alice");
        assert_eq!(served.subject.target_id, 7);
        assert_eq!(served.subject.target_name, "prod");
        assert_eq!(served.admitted.id, 99);
        let (_, action) = request.step::<String>(ApiEvent::Served(Ok(200)));
        assert!(matches!(action, ApiAction::Answer(Ok(200))));
    }
}

#[test]
fn an_api_request_can_be_refused_on_the_way() {
    let begin = || handle_api_request::<String>("/api".to_owned(), false).0;
    let (_, action) = begin().step(ApiEvent::Authenticated(Err("no".to_owned())));
    assert!(matches!(action, ApiAction::Refuse(ApiFailure::Outside(e)) if e == "no"));
    let (request, action) = begin().step::<String>(ApiEvent::Authenticated(Ok(user())));
    assert!(matches!(
        action,
        ApiAction::Refuse(ApiFailure::Route(RouteError::NotFound))
    ));
    let (_, action) = request.step::<String>(ApiEvent::Served(Ok(200)));
    assert!(matches!(action, ApiAction::Unexpected));
}

fn call(query: Option<&str>) -> NormalCall {
    NormalCall {
        method: "POST".to_owned(),
        api_path: "/api/v1/pods".to_owned(),
        query: query.map(|q| q.to_owned()),
        options: options("https://cluster:6443"),
        username: "alice".to_owned(),
        session_id: 99,
    }
}

/// A request that was sent to the cluster.
fn sent(query: Option<&str>, recorded: bool, body: &[u8]) -> NormalRequest {
    let headers = map(&[
        ("authorization", "Bearer secret"),
        ("impersonate-user", "root"),
        ("accept", "application/json"),
    ]);
    let forwardable = vec!["authorization".to_owned(), "accept".to_owned()];
    let (request, action): (_, NormalAction<String>) =
        handle_normal_request(call(query), &headers, &forwardable);
    assert!(matches!(action, NormalAction::CreateClient));
    let (request, action) = request.step::<String>(NormalEvent::ClientCreated(Ok(())));
    assert!(matches!(action, NormalAction::ReadBody));
    let (request, action) = request.step::<String>(NormalEvent::Body(Ok(body.to_vec())));
    assert!(matches!(action, NormalAction::AskRecordingEnabled));
    let (request, action) = request.step::<String>(NormalEvent::RecordingEnabled(Ok(recorded)));
    let (request, action) = if recorded {
        assert!(matches!(action, NormalAction::StartRecording(99)));
        request.step::<String>(NormalEvent::RecordingStarted(Ok(())))
    } else {
        (request, action)
    };
    match action {
        NormalAction::Send(upstream) => {
            assert_eq!(upstream.method, "POST");
            let url = match query {
                Some(query) => format!("https://cluster:6443/api/v1/pods?{query}"),
                None => "https://cluster:6443/api/v1/pods".to_owned(),
            };
            assert_eq!(upstream.url, url);
            assert_eq!(
                upstream.headers.entries(),
                &vec![("accept".to_owned(), "application/json".to_owned())]
            );
            let expected = if body.is_empty() { None } else { Some(body.to_vec()) };
            assert_eq!(upstream.body, expected);
        }
        _ => panic!("the request is sent"),
    }
    request
}

#[test]
fn a_request_is_audited_answered_and_recorded_without_secrets() {
    let request = sent(None, true, b"{}");
    let (request, action) = request.step::<String>(NormalEvent::Response(Ok((
        201,
        map(&[("content-type", "application/json")]),
    ))));
    match action {
        NormalAction::Audit(audited) => {
            assert_eq!(audited.method, "POST");
            assert_eq!(audited.api_path, "/api/v1/pods");
            assert_eq!(audited.query, None);
            assert_eq!(audited.body, b"{}");
            assert_eq!(audited.status, 201);
        }
        _ => panic!("the response is audited first"),
    }
    let (request, action) = request.step::<String>(NormalEvent::Audited);
    assert!(matches!(action, NormalAction::ReadReply));
    let (request, action) = request.step::<String>(NormalEvent::ReplyBody(Ok(b"done".to_vec())));
    match action {
        NormalAction::RecordResponse(exchange) => {
            assert_eq!(
                exchange.headers.entries(),
                &vec![("accept".to_owned(), "application/json".to_owned())]
            );
            assert_eq!(exchange.url, "https://cluster:6443/api/v1/pods");
            assert_eq!(exchange.request_body, b"{}");
            assert_eq!(exchange.status, 201);
            assert_eq!(exchange.response_body, b"done");
        }
        _ => panic!("the exchange is recorded"),
    }
    let (_, action) = request.step::<String>(NormalEvent::Recorded);
    match action {
        NormalAction::Done(Ok((reply, ReplyBody::Whole(body)))) => {
            assert_eq!(reply.status, 201);
            assert_eq!(reply.headers[0].0, "content-type");
            assert_eq!(body, b"done");
        }
        _ => panic!("the request is answered"),
    }
}

#[test]
fn a_watched_response_is_streamed_and_recorded_without_its_body() {
    let request = sent(Some("watch=true"), true, b"");
    let (request, _) = request.step::<String>(NormalEvent::Response(Ok((200, map(&[])))));
    let (request, action) = request.step::<String>(NormalEvent::Audited);
    assert!(matches!(
        action,
        NormalAction::RecordResponse(exchange) if exchange.response_body.is_empty()
    ));
    let (_, action) = request.step::<String>(NormalEvent::Recorded);
    assert!(matches!(action, NormalAction::Done(Ok((_, ReplyBody::Streamed)))));

    for (query, headers, streamed) in [
        (Some("follow=true"), map(&[]), true),
        (Some("a=1&watch=tru%65"), map(&[]), true),
        (Some("watch=false"), map(&[]), false),
        (None, map(&[("transfer-encoding", "Chunked")]), true),
        (None, map(&[("transfer-encoding", "gzip, chunked")]), false),
    ] {
        let request = sent(query, false, b"");
        let (request, _) = request.step::<String>(NormalEvent::Response(Ok((200, headers))));
        let (_, action) = request.step::<String>(NormalEvent::Audited);
        match action {
            NormalAction::Done(Ok((_, ReplyBody::Streamed))) => assert!(streamed),
            NormalAction::ReadReply => assert!(!streamed),
            _ => panic!("the response is streamed or read"),
        }
    }
}

#[test]
fn a_request_can_fail_at_every_outside_step() {
    let mut broken = call(None);
    broken.options = options("no url");
    let (request, _): (_, NormalAction<String>) =
        handle_normal_request(broken, &map(&[]), &vec![]);
    let (_, action) = request.step::<String>(NormalEvent::ClientCreated(Ok(())));
    assert!(matches!(action, NormalAction::Done(Err(RequestFailure::Url(_)))));

    let (request, _): (_, NormalAction<String>) =
        handle_normal_request(call(None), &map(&[]), &vec![]);
    let (_, action) = request.step(NormalEvent::ClientCreated(Err("tls".to_owned())));
    assert!(matches!(action, NormalAction::Done(Err(RequestFailure::Outside(e))) if e == "tls"));

    let (_, action) = sent(None, false, b"").step(NormalEvent::Response(Err("tcp".to_owned())));
    assert!(matches!(action, NormalAction::Done(Err(RequestFailure::Outside(e))) if e == "tcp"));
    let (_, action) = sent(None, false, b"").step::<String>(NormalEvent::Audited);
    assert!(matches!(action, NormalAction::Unexpected));

    for (method, sent) in [("GET", true), ("x-TEND", true), ("", false), ("GE T", false)] {
        let mut odd = call(None);
        odd.method = method.to_owned();
        let (request, _): (_, NormalAction<String>) =
            handle_normal_request(odd, &map(&[]), &vec![]);
        let (request, _) = request.step::<String>(NormalEvent::ClientCreated(Ok(())));
        let (request, _) = request.step::<String>(NormalEvent::Body(Ok(vec![])));
        let (_, action) = request.step(NormalEvent::RecordingEnabled(Err("db".to_owned())));
        match action {
            NormalAction::Send(_) => assert!(sent),
            NormalAction::Done(Err(RequestFailure::Method)) => assert!(!sent),
            _ => panic!("the request is sent, or has no method"),
        }
    }
}

fn upgrade_call() -> WebsocketCall {
    WebsocketCall {
        api_path: "/exec".to_owned(),
        query: None,
        options: options("http://127.0.0.1:8001"),
        username: "alice".to_owned(),
        session_id: 99,
    }
}

/// An upgrade that was sent to the API server, with the key that was sent.
fn connecting(
    offered: &[(&str, &str)],
    operation: Option<StreamOperation>,
    enabled: bool,
) -> (WebsocketRequest, String) {
    let (request, action): (_, WebsocketAction<String>) =
        handle_websocket_request(upgrade_call(), &map(offered));
    assert!(matches!(action, WebsocketAction::CreateClient));
    let (request, action) = request.step::<String>(WebsocketEvent::ClientCreated(Ok(())));
    assert!(matches!(action, WebsocketAction::Classify(path, None) if path == "/exec"));
    let (request, action) = request.step::<String>(WebsocketEvent::Classified(operation));
    assert!(matches!(action, WebsocketAction::AskRecordingEnabled));
    let (mut request, mut action) =
        request.step::<String>(WebsocketEvent::RecordingEnabled(Ok(enabled)));
    let records = enabled && operation.is_some_and(|o| o.has_recording);
    if let WebsocketAction::StartRecording(id) = action {
        assert!(records);
        assert_eq!(id, 99);
        (request, action) = request.step::<String>(WebsocketEvent::RecordingStarted);
    } else {
        assert!(!records);
    }
    match action {
        WebsocketAction::Connect(url, headers) => {
            assert_eq!(url, "http://127.0.0.1:8001/exec");
            let get = |name: &str| headers.iter().find(|h| h.0 == name).map(|h| h.1.clone());
            assert_eq!(get("connection").unwrap(), "Upgrade");
            assert_eq!(get("upgrade").unwrap(), "websocket");
            assert_eq!(get("sec-websocket-version").unwrap(), "13");
            assert_eq!(
                get("sec-websocket-protocol"),
                offered.first().map(|h| h.1.to_owned())
            );
            (request, get("sec-websocket-key").unwrap())
        }
        _ => panic!("the server is asked"),
    }
}

fn switching(key: &str, protocol: Option<&str>) -> HeaderMap<HeaderValue> {
    let accept =
        tokio_tungstenite::tungstenite::handshake::derive_accept_key(key.as_bytes());
    let mut list = vec![
        ("connection", "Upgrade"),
        ("upgrade", "websocket"),
        ("sec-websocket-accept", accept.as_str()),
    ];
    if let Some(protocol) = protocol {
        list.push(("sec-websocket-protocol", protocol));
    }
    map(&list)
}

const EXEC: StreamOperation = StreamOperation { has_recording: true };

#[test]
fn an_upgrade_settles_on_the_protocol_that_the_server_chose() {
    let offered = [("sec-websocket-protocol", "v5.channel.k8s.io, v4.channel.k8s.io")];
    let (request, key) = connecting(&offered, Some(EXEC), true);
    assert_eq!(key.len(), 24);
    let (request, action) = request.step::<String>(WebsocketEvent::Response(Ok((
        101,
        switching(&key, Some("v4.channel.k8s.io")),
    ))));
    assert!(matches!(action, WebsocketAction::AuditStarted));
    let (request, action) = request.step::<String>(WebsocketEvent::Audited);
    assert!(matches!(action, WebsocketAction::Upgrade));
    let (_, action) = request.step::<String>(WebsocketEvent::Upgraded(Ok(())));
    match action {
        WebsocketAction::Done(Ok(WebsocketAnswer::Accept { protocol })) => {
            assert_eq!(protocol.as_deref(), Some("v4.channel.k8s.io"))
        }
        _ => panic!("the client is accepted"),
    }
}

#[test]
fn an_upgrade_without_protocols_is_accepted_without_one() {
    let (request, key) = connecting(&[], None, false);
    let (request, action) =
        request.step::<String>(WebsocketEvent::Response(Ok((101, switching(&key, Some(""))))));
    assert!(matches!(action, WebsocketAction::Upgrade));
    let (_, action) = request.step::<String>(WebsocketEvent::Upgraded(Ok(())));
    assert!(matches!(
        action,
        WebsocketAction::Done(Ok(WebsocketAnswer::Accept { protocol: None }))
    ));
}

#[test]
fn started_callback_runs_on_101_even_when_validation_then_fails() {
    let (request, _) = connecting(&[], Some(EXEC), false);
    let bogus = map(&[
        ("connection", "Upgrade"),
        ("upgrade", "websocket"),
        ("sec-websocket-accept", "not-the-right-accept-key"),
    ]);
    let (request, action) = request.step::<String>(WebsocketEvent::Response(Ok((101, bogus))));
    assert!(
        matches!(action, WebsocketAction::AuditStarted),
        "the started callback must run as soon as the status is 101, \
         before validation - not only once validation also succeeds"
    );
    let (_, action) = request.step::<String>(WebsocketEvent::Audited);
    assert!(
        matches!(
            action,
            WebsocketAction::Done(Ok(WebsocketAnswer::BadGateway { status: 502, fault: Some(_), .. }))
        ),
        "a bogus Sec-WebSocket-Accept must fail handshake validation"
    );
}

#[test]
fn upstream_rejection_is_forwarded_with_its_status_and_body() {
    let body = br#"{"kind":"Status","status":"Failure","reason":"Forbidden"}"#;
    let (request, _) = connecting(&[], Some(EXEC), false);
    let (request, action) = request.step::<String>(WebsocketEvent::Response(Ok((
        403,
        map(&[("content-type", "application/json")]),
    ))));
    assert!(matches!(action, WebsocketAction::AuditRejected(403)));
    let (request, action) = request.step::<String>(WebsocketEvent::Audited);
    assert!(matches!(action, WebsocketAction::ReadReply));
    let (_, action) = request.step::<String>(WebsocketEvent::ReplyBody(Ok(body.to_vec())));
    match action {
        WebsocketAction::Done(Ok(WebsocketAnswer::Forward(reply, forwarded))) => {
            assert_eq!(reply.status, 403);
            assert_eq!(reply.headers.len(), 1);
            assert_eq!(reply.headers[0].0, "content-type");
            assert_eq!(reply.headers[0].1, b"application/json");
            assert_eq!(forwarded, body);
        }
        _ => panic!("expected the upgrade to be rejected, not established"),
    }

    // Nothing is audited that has no name.
    let (request, _) = connecting(&[], None, true);
    let (_, action) = request.step::<String>(WebsocketEvent::Response(Ok((403, map(&[])))));
    assert!(matches!(action, WebsocketAction::ReadReply));
}

#[test]
fn a_server_out_of_reach_is_a_bad_gateway() {
    let (request, _) = connecting(&[], Some(EXEC), false);
    let (_, action) = request.step(WebsocketEvent::Response(Err("tcp".to_owned())));
    match action {
        WebsocketAction::Done(Ok(WebsocketAnswer::BadGateway { status, message, fault })) => {
            assert_eq!(status, 502);
            assert_eq!(message, "Kubernetes API websocket connection failed");
            assert!(fault.is_none());
        }
        _ => panic!("the gateway failed"),
    }

    let mut broken = upgrade_call();
    broken.options = options("no url");
    let (_, action): (_, WebsocketAction<String>) = handle_websocket_request(broken, &map(&[]));
    assert!(matches!(action, WebsocketAction::Done(Err(RequestFailure::Url(_)))));
}
