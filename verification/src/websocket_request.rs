//! A Kubernetes API request that upgrades to a websocket: the API server is
//! asked first, and the client is answered with what the server chose.
use vstd::prelude::*;

use crate::access_watch::opt_text;
use crate::headers::{copied, copy_response_headers, entries_view, fields_view};
use crate::http_fields::{fields, opt_view};
use crate::model::TargetKubernetesOptions;
use crate::normal_request::{Reply, RequestFailure};
use crate::routes::{construct_target_url, parsed_url, target_url_text, TargetUrlError};
use crate::text::texts;
use crate::websocket::{
    accept_key, fault_view, handshake_verdict, is_websocket_key, requested_protocols,
    requested_websocket_protocols, upgrade_request, HandshakeError, HandshakeFault, UpgradeAnswer,
    UpgradeOutcome, UpstreamUpgrade,
};

verus! {

/// The status of an answer for which there is no response of the cluster to
/// pass on.
pub const BAD_GATEWAY: u16 = 502;

/// The text of such an answer.
pub const CONNECTION_FAILED: &'static str = "Kubernetes API websocket connection failed";

/// A request that was admitted to its target.
#[derive(Debug)]
pub struct WebsocketCall {
    /// The path exactly as the API server sees it.
    pub api_path: String,
    pub query: Option<String>,
    pub options: TargetKubernetesOptions,
    pub username: String,
    /// The target session that a recording belongs to.
    pub session_id: u128,
}

/// What a stream does on the cluster, as far as it decides anything here.
#[derive(Clone, Copy, Debug, PartialEq, Eq, Structural)]
pub struct StreamOperation {
    /// Whether it is one that is recorded.
    pub has_recording: bool,
}

/// How a client's upgrade is answered.
#[derive(Debug)]
pub enum WebsocketAnswer {
    /// The upgrade is accepted with this subprotocol, or with none.
    Accept { protocol: Option<String> },
    /// The server's refusal is passed on, body and all.
    Forward(Reply, Vec<u8>),
    /// The server was not reached, or its handshake was not in order, in which
    /// case the fault is to be logged.
    BadGateway { status: u16, message: &'static str, fault: Option<HandshakeError> },
}

/// What an upgrade does next.
#[derive(Debug)]
pub enum WebsocketAction<F> {
    /// Make a client that authenticates to the cluster for the user.
    CreateClient,
    /// Say what the request does on the cluster, by this path and query.
    Classify(String, Option<String>),
    AskRecordingEnabled,
    /// Start a recording for this target session.
    StartRecording(u128),
    /// Send an upgrade request with these headers to this URL.
    Connect(String, Vec<(String, String)>),
    /// Report that the stream has started.
    AuditStarted,
    /// Report that the server refused the stream with this status.
    AuditRejected(u16),
    /// Take over the connection that the server switched.
    Upgrade,
    /// Read the whole body of the server's refusal.
    ReadReply,
    /// The request is answered.
    Done(Result<WebsocketAnswer, RequestFailure<F>>),
    /// The event answers no question that was asked; nothing has changed.
    Unexpected,
}

/// The answer to a [`WebsocketAction`].
#[derive(Debug)]
pub enum WebsocketEvent<F> {
    ClientCreated(Result<(), F>),
    Classified(Option<StreamOperation>),
    RecordingEnabled(Result<bool, F>),
    /// The recording was started, or that failed, which is only reported.
    RecordingStarted,
    Response(Result<(u16, http::HeaderMap<http::HeaderValue>), F>),
    Audited,
    Upgraded(Result<(), F>),
    ReplyBody(Result<Vec<u8>, F>),
}

/// How far an upgrade has come.
#[derive(Debug)]
pub enum WebsocketStage {
    CreatingClient(String),
    Classifying(String),
    AskingRecording(String, Option<StreamOperation>),
    StartingRecording(String, Option<StreamOperation>),
    Connecting(UpstreamUpgrade, Option<StreamOperation>),
    /// The start is being reported; the server's handshake came to this.
    Started(Result<Option<String>, HandshakeError>),
    Rejecting(Reply),
    Upgrading(Option<String>),
    ReadingReply(Reply),
    Over,
}

/// An upgrade that is being asked for.
#[derive(Debug)]
pub struct WebsocketRequest {
    pub call: WebsocketCall,
    /// The subprotocols that the client offered.
    pub protocols: Vec<String>,
    pub stage: WebsocketStage,
}

/// The upgrade fails with this.
pub open spec fn fails<F>(next: WebsocketStage, action: WebsocketAction<F>, failure: F) -> bool {
    next is Over && action == WebsocketAction::Done(Err(RequestFailure::Outside(failure)))
}

/// The client is told that the gateway failed, for this fault of the server's
/// handshake if there is one.
pub open spec fn bad_gateway<F>(
    fault: Option<HandshakeError>,
    next: WebsocketStage,
    action: WebsocketAction<F>,
) -> bool {
    next is Over && action == WebsocketAction::<F>::Done(
        Ok(WebsocketAnswer::BadGateway { status: BAD_GATEWAY, message: CONNECTION_FAILED, fault }),
    )
}

/// The API server is asked to switch protocols, with the very subprotocols that
/// the client offered.
pub open spec fn connects<F>(
    url: String,
    protocols: Vec<String>,
    operation: Option<StreamOperation>,
    next: WebsocketStage,
    action: WebsocketAction<F>,
) -> bool {
    &&& next matches WebsocketStage::Connecting(upgrade, kept)
    &&& kept == operation
    &&& texts(upgrade.protocols@) == texts(protocols@)
    &&& is_websocket_key(upgrade.key@)
    &&& action matches WebsocketAction::Connect(to, headers)
    &&& to == url
    &&& entries_view(headers@) == upgrade_request(upgrade.key@, texts(protocols@))
}

/// What follows once the start of a stream was reported, if it is.
pub open spec fn settles<F>(
    verdict: Result<Option<String>, HandshakeError>,
    next: WebsocketStage,
    action: WebsocketAction<F>,
) -> bool {
    match verdict {
        Ok(protocol) => next == WebsocketStage::Upgrading(protocol) && action is Upgrade,
        Err(fault) => bad_gateway(Some(fault), next, action),
    }
}

/// `verdict` is what the server's handshake comes to.
pub open spec fn is_verdict(
    verdict: Result<Option<String>, HandshakeError>,
    upgrade: UpstreamUpgrade,
    headers: http::HeaderMap<http::HeaderValue>,
) -> bool {
    let due = handshake_verdict(
        fields(headers),
        accept_key(vstd::utf8::encode_utf8(upgrade.key@)),
        texts(upgrade.protocols@),
    );
    match verdict {
        Ok(protocol) => due == Ok::<Option<Seq<char>>, HandshakeFault<Seq<char>>>(
            opt_view(protocol),
        ),
        Err(error) => due == Err::<Option<Seq<char>>, HandshakeFault<Seq<char>>>(fault_view(error)),
    }
}

/// What follows the server's answer to an upgrade: its refusal is reported and
/// passed on, or the start of the stream is reported before its handshake is
/// looked at. Nothing is reported of a request without an operation.
pub open spec fn answered<F>(
    upgrade: UpstreamUpgrade,
    operation: Option<StreamOperation>,
    status: u16,
    headers: http::HeaderMap<http::HeaderValue>,
    next: WebsocketStage,
    action: WebsocketAction<F>,
) -> bool {
    if status != 101 {
        let reply = match next {
            WebsocketStage::Rejecting(reply) => reply,
            WebsocketStage::ReadingReply(reply) => reply,
            _ => arbitrary(),
        };
        &&& reply.status == status
        &&& fields_view(reply.headers@) == copied(fields(headers))
        &&& if operation is Some {
            next is Rejecting && action == WebsocketAction::<F>::AuditRejected(status)
        } else {
            next is ReadingReply && action is ReadReply
        }
    } else if operation is Some {
        &&& next matches WebsocketStage::Started(verdict)
        &&& is_verdict(verdict, upgrade, headers)
        &&& action is AuditStarted
    } else {
        exists|verdict: Result<Option<String>, HandshakeError>| #[trigger]
            is_verdict(verdict, upgrade, headers) && settles(verdict, next, action)
    }
}

/// An upgrade at `stage` stands at `next`, and does `action`, once `event`
/// answered its last question.
pub open spec fn stepped<F>(
    call: WebsocketCall,
    protocols: Vec<String>,
    stage: WebsocketStage,
    event: WebsocketEvent<F>,
    next: WebsocketStage,
    action: WebsocketAction<F>,
) -> bool {
    match (stage, event) {
        (WebsocketStage::CreatingClient(url), WebsocketEvent::ClientCreated(r)) => match r {
            Ok(_) => {
                &&& next == WebsocketStage::Classifying(url)
                &&& action matches WebsocketAction::Classify(path, query)
                &&& path == call.api_path
                &&& opt_view(query) == opt_view(call.query)
            },
            Err(failure) => fails(next, action, failure),
        },
        (WebsocketStage::Classifying(url), WebsocketEvent::Classified(operation)) => next
            == WebsocketStage::AskingRecording(url, operation) && action is AskRecordingEnabled,
        (
            WebsocketStage::AskingRecording(url, operation),
            WebsocketEvent::RecordingEnabled(r),
        ) => if r == Ok::<bool, F>(true) && operation is Some && operation->0.has_recording {
            next == WebsocketStage::StartingRecording(url, operation) && action
                == WebsocketAction::<F>::StartRecording(call.session_id)
        } else {
            connects(url, protocols, operation, next, action)
        },
        (WebsocketStage::StartingRecording(url, operation), WebsocketEvent::RecordingStarted) =>
            connects(url, protocols, operation, next, action),
        (WebsocketStage::Connecting(upgrade, operation), WebsocketEvent::Response(r)) => match r {
            Err(_) => bad_gateway(None, next, action),
            Ok((status, headers)) => answered(upgrade, operation, status, headers, next, action),
        },
        (WebsocketStage::Started(verdict), WebsocketEvent::Audited) => settles(
            verdict,
            next,
            action,
        ),
        (WebsocketStage::Rejecting(reply), WebsocketEvent::Audited) => next
            == WebsocketStage::ReadingReply(reply) && action is ReadReply,
        (WebsocketStage::Upgrading(protocol), WebsocketEvent::Upgraded(r)) => match r {
            Ok(_) => next is Over && action == WebsocketAction::<F>::Done(
                Ok(WebsocketAnswer::Accept { protocol }),
            ),
            Err(_) => bad_gateway(None, next, action),
        },
        (WebsocketStage::ReadingReply(reply), WebsocketEvent::ReplyBody(r)) => match r {
            Ok(body) => next is Over && action == WebsocketAction::<F>::Done(
                Ok(WebsocketAnswer::Forward(reply, body)),
            ),
            Err(failure) => fails(next, action, failure),
        },
        (stage, _) => next == stage && action is Unexpected,
    }
}

/// A subprotocol that an upgrade has settled on is one that the client offered.
pub open spec fn settled_on_offered(protocols: Vec<String>, stage: WebsocketStage) -> bool {
    match stage {
        WebsocketStage::Connecting(upgrade, _) => texts(upgrade.protocols@) == texts(protocols@),
        WebsocketStage::Started(Ok(Some(protocol))) => texts(protocols@).contains(protocol@),
        WebsocketStage::Upgrading(Some(protocol)) => texts(protocols@).contains(protocol@),
        _ => true,
    }
}

fn copy_query(query: &Option<String>) -> (copy: Option<String>)
    ensures
        opt_view(copy) == opt_view(*query),
{
    match query {
        Some(query) => Some(query.clone()),
        None => None,
    }
}

fn copy_texts(list: &Vec<String>) -> (copy: Vec<String>)
    ensures
        texts(copy@) == texts(list@),
{
    let mut copy: Vec<String> = Vec::new();
    let mut i: usize = 0;
    while i < list.len()
        invariant
            i <= list.len(),
            copy@.len() == i,
            forall|j: int| 0 <= j < i ==> (#[trigger] copy@[j])@ == list@[j]@,
        decreases list.len() - i,
    {
        copy.push(list[i].clone());
        i += 1;
    }
    assert(texts(copy@) =~= texts(list@));
    copy
}

fn connect_upstream_websocket<F>(
    url: String,
    protocols: &Vec<String>,
    operation: Option<StreamOperation>,
) -> (r: (WebsocketStage, WebsocketAction<F>))
    ensures
        connects(url, *protocols, operation, r.0, r.1),
{
    let upgrade: UpstreamUpgrade = UpstreamUpgrade::new(copy_texts(protocols));
    let headers: Vec<(String, String)> = upgrade.headers();
    (WebsocketStage::Connecting(upgrade, operation), WebsocketAction::Connect(url, headers))
}

fn fail_as_gateway<F>(fault: Option<HandshakeError>) -> (r: (WebsocketStage, WebsocketAction<F>))
    ensures
        bad_gateway(fault, r.0, r.1),
{
    (
        WebsocketStage::Over,
        WebsocketAction::Done(
            Ok(
                WebsocketAnswer::BadGateway {
                    status: BAD_GATEWAY,
                    message: CONNECTION_FAILED,
                    fault,
                },
            ),
        ),
    )
}

fn settle<F>(verdict: Result<Option<String>, HandshakeError>) -> (r: (
    WebsocketStage,
    WebsocketAction<F>,
))
    ensures
        settles(verdict, r.0, r.1),
{
    match verdict {
        Ok(protocol) => (WebsocketStage::Upgrading(protocol), WebsocketAction::Upgrade),
        Err(fault) => fail_as_gateway(Some(fault)),
    }
}

fn take_response<F>(
    upgrade: UpstreamUpgrade,
    operation: Option<StreamOperation>,
    status: u16,
    headers: http::HeaderMap<http::HeaderValue>,
) -> (r: (WebsocketStage, WebsocketAction<F>))
    ensures
        answered(upgrade, operation, status, headers, r.0, r.1),
{
    let answer: UpgradeAnswer = upgrade.on_response(status, &headers);
    let verdict: Result<Option<String>, HandshakeError> = match answer.outcome {
        UpgradeOutcome::Rejected => {
            let reply: Reply = Reply { status, headers: copy_response_headers(&headers) };
            return match operation {
                Some(_) => (
                    WebsocketStage::Rejecting(reply),
                    WebsocketAction::AuditRejected(status),
                ),
                None => (WebsocketStage::ReadingReply(reply), WebsocketAction::ReadReply),
            };
        },
        UpgradeOutcome::Negotiated { protocol } => Ok(protocol),
        UpgradeOutcome::Invalid(error) => Err(error),
    };
    assert(is_verdict(verdict, upgrade, headers));
    match operation {
        Some(_) => (WebsocketStage::Started(verdict), WebsocketAction::AuditStarted),
        None => settle(verdict),
    }
}

fn next_stage<F>(
    call: &WebsocketCall,
    protocols: &Vec<String>,
    stage: WebsocketStage,
    event: WebsocketEvent<F>,
) -> (r: (WebsocketStage, WebsocketAction<F>))
    ensures
        stepped(*call, *protocols, stage, event, r.0, r.1),
{
    match (stage, event) {
        (WebsocketStage::CreatingClient(url), WebsocketEvent::ClientCreated(r)) => match r {
            Ok(_) => (
                WebsocketStage::Classifying(url),
                WebsocketAction::Classify(call.api_path.clone(), copy_query(&call.query)),
            ),
            Err(failure) => (
                WebsocketStage::Over,
                WebsocketAction::Done(Err(RequestFailure::Outside(failure))),
            ),
        },
        (WebsocketStage::Classifying(url), WebsocketEvent::Classified(operation)) => (
            WebsocketStage::AskingRecording(url, operation),
            WebsocketAction::AskRecordingEnabled,
        ),
        (
            WebsocketStage::AskingRecording(url, operation),
            WebsocketEvent::RecordingEnabled(r),
        ) => {
            let enabled: bool = match r {
                Ok(enabled) => enabled,
                Err(_) => false,
            };
            let records: bool = match operation {
                Some(operation) => operation.has_recording,
                None => false,
            };
            if enabled && records {
                (
                    WebsocketStage::StartingRecording(url, operation),
                    WebsocketAction::StartRecording(call.session_id),
                )
            } else {
                connect_upstream_websocket(url, protocols, operation)
            }
        },
        (WebsocketStage::StartingRecording(url, operation), WebsocketEvent::RecordingStarted) =>
            connect_upstream_websocket(url, protocols, operation),
        (WebsocketStage::Connecting(upgrade, operation), WebsocketEvent::Response(r)) => match r {
            Err(_) => fail_as_gateway(None),
            Ok((status, headers)) => take_response(upgrade, operation, status, headers),
        },
        (WebsocketStage::Started(verdict), WebsocketEvent::Audited) => settle(verdict),
        (WebsocketStage::Rejecting(reply), WebsocketEvent::Audited) => (
            WebsocketStage::ReadingReply(reply),
            WebsocketAction::ReadReply,
        ),
        (WebsocketStage::Upgrading(protocol), WebsocketEvent::Upgraded(r)) => match r {
            Ok(_) => (
                WebsocketStage::Over,
                WebsocketAction::Done(Ok(WebsocketAnswer::Accept { protocol })),
            ),
            Err(_) => fail_as_gateway(None),
        },
        (WebsocketStage::ReadingReply(reply), WebsocketEvent::ReplyBody(r)) => match r {
            Ok(body) => (
                WebsocketStage::Over,
                WebsocketAction::Done(Ok(WebsocketAnswer::Forward(reply, body))),
            ),
            Err(failure) => (
                WebsocketStage::Over,
                WebsocketAction::Done(Err(RequestFailure::Outside(failure))),
            ),
        },
        (stage, _) => (stage, WebsocketAction::Unexpected),
    }
}

impl WebsocketRequest {
    /// Goes on with the answer to the last action.
    pub fn step<F>(self, event: WebsocketEvent<F>) -> (r: (WebsocketRequest, WebsocketAction<F>))
        ensures
            r.0.call == self.call,
            r.0.protocols == self.protocols,
            stepped(self.call, self.protocols, self.stage, event, r.0.stage, r.1),
    {
        let WebsocketRequest { call, protocols, stage } = self;
        let (stage, action): (WebsocketStage, WebsocketAction<F>) = next_stage(
            &call,
            &protocols,
            stage,
            event,
        );
        (WebsocketRequest { call, protocols, stage }, action)
    }
}

/// Begins to ask for an upgrade, given the headers of the client's request.
pub fn handle_websocket_request<F>(
    call: WebsocketCall,
    headers: &http::HeaderMap<http::HeaderValue>,
) -> (r: (WebsocketRequest, WebsocketAction<F>))
    ensures
        r.0.call == call,
        texts(r.0.protocols@) == requested_protocols(fields(*headers)),
        ({
            let parsed = parsed_url(
                target_url_text(
                    call.options.cluster_url@,
                    call.api_path@,
                    opt_view(call.query),
                ),
            );
            match parsed {
                Some(url) => {
                    &&& r.0.stage matches WebsocketStage::CreatingClient(text)
                    &&& text@ == url
                    &&& r.1 is CreateClient
                },
                None => {
                    &&& r.0.stage is Over
                    &&& r.1 matches WebsocketAction::Done(Err(RequestFailure::Url(_)))
                },
            }
        }),
{
    let query: Option<&str> = match &call.query {
        Some(query) => Some(query.as_str()),
        None => None,
    };
    assert(opt_text(query) == opt_view(call.query));
    let url: Result<String, TargetUrlError> = construct_target_url(
        call.options.cluster_url.as_str(),
        call.api_path.as_str(),
        query,
    );
    let protocols: Vec<String> = requested_websocket_protocols(headers);
    match url {
        Ok(url) => (
            WebsocketRequest { call, protocols, stage: WebsocketStage::CreatingClient(url) },
            WebsocketAction::CreateClient,
        ),
        Err(error) => (
            WebsocketRequest { call, protocols, stage: WebsocketStage::Over },
            WebsocketAction::Done(Err(RequestFailure::Url(error))),
        ),
    }
}

/// The course of an upgrade: the stages it stood at, the events that moved it
/// from one to the next, and what was done on the way.
pub struct Course<F> {
    pub call: WebsocketCall,
    pub protocols: Vec<String>,
    pub stages: Seq<WebsocketStage>,
    pub events: Seq<WebsocketEvent<F>>,
    pub actions: Seq<WebsocketAction<F>>,
}

impl<F> Course<F> {
    /// Step `i` is one that an upgrade takes.
    pub open spec fn step_ok(self, i: int) -> bool {
        stepped(
            self.call,
            self.protocols,
            self.stages[i],
            self.events[i],
            self.stages[i + 1],
            self.actions[i],
        )
    }

    /// The course begins as an upgrade does, and every step is one that an
    /// upgrade takes.
    pub open spec fn is_upgrade(self) -> bool {
        &&& self.stages.len() == self.events.len() + 1
        &&& self.actions.len() == self.events.len()
        &&& self.stages[0] is CreatingClient
        &&& forall|i: int| 0 <= i < self.events.len() ==> #[trigger] self.step_ok(i)
    }

    /// Step `j` found out that the stream does something that is audited.
    pub open spec fn names_operation(self, j: int) -> bool {
        &&& self.stages[j] is Classifying
        &&& self.events[j] matches WebsocketEvent::Classified(Some(_))
    }

    /// That was found out before step `n`.
    pub open spec fn operation_named(self, n: int) -> bool {
        exists|j: int| 0 <= j < n && #[trigger] self.names_operation(j)
    }

    /// The start of the stream was reported before step `n`.
    pub open spec fn start_audited(self, n: int) -> bool {
        exists|j: int| 0 <= j < n && #[trigger] self.actions[j] is AuditStarted
    }

    /// The server's refusal with this status was reported before step `n`.
    pub open spec fn refusal_audited(self, n: int, status: u16) -> bool {
        exists|j: int|
            0 <= j < n && #[trigger] self.actions[j] == WebsocketAction::<F>::AuditRejected(status)
    }
}

/// What was reported by the time that an upgrade stands at this stage.
pub open spec fn reported<F>(course: Course<F>, n: int, stage: WebsocketStage) -> bool {
    match stage {
        WebsocketStage::CreatingClient(_) => !course.operation_named(n),
        WebsocketStage::Classifying(_) => !course.operation_named(n),
        WebsocketStage::AskingRecording(_, operation) => course.operation_named(n)
            == (operation is Some),
        WebsocketStage::StartingRecording(_, operation) => course.operation_named(n)
            == (operation is Some),
        WebsocketStage::Connecting(_, operation) => course.operation_named(n)
            == (operation is Some),
        WebsocketStage::Started(_) => course.start_audited(n),
        WebsocketStage::Upgrading(_) => course.operation_named(n) ==> course.start_audited(n),
        WebsocketStage::Rejecting(reply) => course.refusal_audited(n, reply.status),
        WebsocketStage::ReadingReply(reply) => course.operation_named(n) ==> course.refusal_audited(
            n,
            reply.status,
        ),
        WebsocketStage::Over => true,
    }
}

proof fn lemma_reported<F>(course: Course<F>, n: int)
    requires
        course.is_upgrade(),
        0 <= n <= course.events.len(),
    ensures
        reported(course, n, course.stages[n]),
        settled_on_offered(course.protocols, course.stages[n]),
    decreases n,
{
    if n > 0 {
        let i = n - 1;
        lemma_reported(course, i);
        assert(course.step_ok(i));
        assert(course.operation_named(n) == (course.operation_named(i) || course.names_operation(
            i,
        )));
        assert(course.start_audited(i) ==> course.start_audited(n));
        assert(forall|status: u16|
            course.refusal_audited(i, status) ==> #[trigger] course.refusal_audited(n, status));
        if course.actions[i] is AuditStarted {
            assert(course.start_audited(n));
        }
        match course.actions[i] {
            WebsocketAction::AuditRejected(status) => {
                assert(course.refusal_audited(n, status));
            },
            _ => {},
        }
    }
}

/// The client is acknowledged with a subprotocol only if it is one of those
/// that it offered.
pub proof fn law_the_client_gets_a_protocol_it_offered<F>(course: Course<F>, i: int)
    requires
        course.is_upgrade(),
        0 <= i < course.events.len(),
    ensures
        course.actions[i] matches WebsocketAction::Done(
            Ok(WebsocketAnswer::Accept { protocol: Some(protocol) }),
        ) ==> texts(course.protocols@).contains(protocol@),
{
    lemma_reported(course, i);
    assert(course.step_ok(i));
}

/// A stream that is accepted, and that does something that is audited, was
/// reported as started before.
pub proof fn law_an_accepted_stream_was_audited<F>(course: Course<F>, i: int)
    requires
        course.is_upgrade(),
        0 <= i < course.events.len(),
        course.operation_named(i),
        course.actions[i] matches WebsocketAction::Done(Ok(WebsocketAnswer::Accept { .. })),
    ensures
        course.start_audited(i),
{
    lemma_reported(course, i);
    assert(course.step_ok(i));
}

/// A refusal of a stream that does something that is audited is reported with
/// its status before its body is read and passed on, so that a failure to read
/// it cannot lose the report.
pub proof fn law_a_refusal_was_audited<F>(course: Course<F>, i: int)
    requires
        course.is_upgrade(),
        0 <= i < course.events.len(),
        course.operation_named(i),
    ensures
        course.actions[i] matches WebsocketAction::Done(Ok(WebsocketAnswer::Forward(reply, _)))
            ==> course.refusal_audited(i, reply.status),
        course.actions[i] is ReadReply ==> exists|status: u16| #[trigger]
            course.refusal_audited(i, status),
{
    lemma_reported(course, i);
    assert(course.step_ok(i));
    match course.stages[i] {
        WebsocketStage::Rejecting(reply) => {
            assert(course.refusal_audited(i, reply.status));
        },
        _ => {},
    }
}

/// Once the server answers `101` the stream's start is reported, whether or not
/// the server's handshake is in order: the stream is running on the cluster by
/// then.
pub proof fn law_a_started_stream_is_audited<F>(course: Course<F>, i: int, status: u16)
    requires
        course.is_upgrade(),
        0 <= i < course.events.len(),
        course.operation_named(i),
        course.stages[i] is Connecting,
        course.events[i] matches WebsocketEvent::Response(Ok((answered, _))) && answered == status,
    ensures
        course.actions[i] is AuditStarted <==> status == 101,
        course.actions[i] == WebsocketAction::<F>::AuditRejected(status) <==> status != 101,
{
    lemma_reported(course, i);
    assert(course.step_ok(i));
}

} // verus!
