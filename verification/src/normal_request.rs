//! A Kubernetes API request that is passed on to the cluster and answered with
//! the cluster's response.
use vstd::prelude::*;

use crate::access_watch::opt_text;
use crate::headers::{
    asks_to_stream, copied, copy_response_headers, fields_view, is_chunked, is_streaming_response,
    query_pairs, redact_headers, redacted, take_request_headers, taken_headers, upstream,
    upstream_headers, HeaderFields,
};
use crate::http_fields::{fields, is_method, is_request_method, opt_view};
use crate::model::TargetKubernetesOptions;
use crate::routes::{construct_target_url, parsed_url, target_url_text, TargetUrlError};
use crate::text::texts;

verus! {

/// A request that was admitted to its target.
#[derive(Debug)]
pub struct NormalCall {
    pub method: String,
    /// The path exactly as the API server sees it.
    pub api_path: String,
    pub query: Option<String>,
    pub options: TargetKubernetesOptions,
    pub username: String,
    /// The target session that a recording belongs to.
    pub session_id: u128,
}

/// What is sent to the API server.
pub struct UpstreamRequest {
    pub method: String,
    pub url: String,
    pub headers: HeaderFields,
    /// The body, if it is not empty.
    pub body: Option<Vec<u8>>,
}

/// What the auditing of a request goes by.
#[derive(Debug)]
pub struct AuditedRequest {
    pub method: String,
    pub api_path: String,
    pub query: Option<String>,
    pub body: Vec<u8>,
    pub status: u16,
}

/// A request and its response, as they are recorded.
#[derive(Debug)]
pub struct RecordedExchange {
    pub method: String,
    pub url: String,
    pub headers: HeaderFields,
    pub request_body: Vec<u8>,
    pub status: u16,
    pub response_body: Vec<u8>,
}

/// The response's status and headers.
#[derive(Debug)]
pub struct Reply {
    pub status: u16,
    pub headers: Vec<(String, Vec<u8>)>,
}

/// The response's body.
#[derive(Debug)]
pub enum ReplyBody {
    /// The body is passed on as it comes in.
    Streamed,
    Whole(Vec<u8>),
}

/// Why a request was not answered with the cluster's response.
#[derive(Debug)]
pub enum RequestFailure<F> {
    Url(TargetUrlError),
    /// The request's method is none.
    Method,
    /// A service or a connection failed.
    Outside(F),
}

/// What passing a request on does next.
pub enum NormalAction<F> {
    /// Make a client that authenticates to the cluster for the user.
    CreateClient,
    ReadBody,
    AskRecordingEnabled,
    /// Start a recording for this target session.
    StartRecording(u128),
    Send(UpstreamRequest),
    /// Report what the request changes on the cluster, if anything.
    Audit(AuditedRequest),
    /// Read the whole body of the response.
    ReadReply,
    RecordResponse(RecordedExchange),
    /// The request is answered.
    Done(Result<(Reply, ReplyBody), RequestFailure<F>>),
    /// The event answers no question that was asked; nothing has changed.
    Unexpected,
}

/// The answer to a [`NormalAction`].
#[derive(Debug)]
pub enum NormalEvent<F> {
    ClientCreated(Result<(), F>),
    Body(Result<Vec<u8>, F>),
    RecordingEnabled(Result<bool, F>),
    RecordingStarted(Result<(), F>),
    Response(Result<(u16, http::HeaderMap<http::HeaderValue>), F>),
    Audited,
    ReplyBody(Result<Vec<u8>, F>),
    /// The response was recorded, or that failed, which is only reported.
    Recorded,
}

/// A request whose body was read.
#[derive(Debug)]
pub struct Ready {
    pub url: String,
    pub body: Vec<u8>,
}

/// How far passing a request on has come.
#[derive(Debug)]
pub enum NormalStage {
    CreatingClient(Result<String, TargetUrlError>),
    ReadingBody(String),
    AskingRecording(Ready),
    StartingRecording(Ready),
    /// The flag says that the exchange is recorded.
    Sending(Ready, bool),
    /// The second flag says that the response is streamed.
    Auditing(Ready, bool, Reply, bool),
    ReadingReply(Ready, bool, Reply),
    Recording(Reply, ReplyBody),
    Over,
}

/// A request that is being passed on.
pub struct NormalRequest {
    pub call: NormalCall,
    /// The headers that were taken up from the request.
    pub taken: HeaderFields,
    pub stage: NormalStage,
}

/// Passing the request on fails with this.
pub open spec fn fails<F>(next: NormalStage, action: NormalAction<F>, failure: F) -> bool {
    next is Over && action == NormalAction::Done(Err(RequestFailure::Outside(failure)))
}

/// The bytes of an optional body.
pub open spec fn opt_bytes(body: Option<Vec<u8>>) -> Option<Seq<u8>> {
    match body {
        Some(bytes) => Some(bytes@),
        None => None,
    }
}

/// What is sent: the request's method and body, to the cluster's URL, with the
/// headers that go on to the cluster. An empty body is no body.
pub open spec fn sends(
    call: NormalCall,
    taken: HeaderFields,
    ready: Ready,
    sent: UpstreamRequest,
) -> bool {
    &&& sent.method == call.method
    &&& sent.url == ready.url
    &&& sent.headers@ == upstream(taken@)
    &&& opt_bytes(sent.body) == if ready.body@.len() == 0 {
        None
    } else {
        Some(ready.body@)
    }
}

/// The request goes on to the cluster, if its method is one.
pub open spec fn forwards<F>(
    call: NormalCall,
    taken: HeaderFields,
    ready: Ready,
    recorded: bool,
    next: NormalStage,
    action: NormalAction<F>,
) -> bool {
    if is_method(vstd::utf8::encode_utf8(call.method@)) {
        &&& next == NormalStage::Sending(ready, recorded)
        &&& action matches NormalAction::Send(sent)
        &&& sends(call, taken, ready, sent)
    } else {
        next is Over && action == NormalAction::<F>::Done(Err(RequestFailure::Method))
    }
}

/// A response is streamed: it is chunked, or the request asked to watch or to
/// follow.
pub open spec fn streams(
    headers: http::HeaderMap<http::HeaderValue>,
    query: Option<Seq<char>>,
) -> bool {
    is_chunked(fields(headers)) || query is Some && asks_to_stream(
        query_pairs(vstd::utf8::encode_utf8(query->0)),
    )
}

/// The response is recorded, if the exchange is, and the request is answered. A
/// streamed body is recorded as an empty one.
pub open spec fn answers<F>(
    call: NormalCall,
    taken: HeaderFields,
    ready: Ready,
    recorded: bool,
    reply: Reply,
    body: ReplyBody,
    next: NormalStage,
    action: NormalAction<F>,
) -> bool {
    if recorded {
        &&& next matches NormalStage::Recording(kept, kept_body)
        &&& kept == reply
        &&& kept_body == body
        &&& action matches NormalAction::RecordResponse(exchange)
        &&& exchange.method == call.method
        &&& exchange.url == ready.url
        &&& exchange.headers@ == redacted(taken@)
        &&& exchange.request_body@ == ready.body@
        &&& exchange.status == reply.status
        &&& exchange.response_body@ == match body {
            ReplyBody::Whole(bytes) => bytes@,
            ReplyBody::Streamed => Seq::<u8>::empty(),
        }
    } else {
        next is Over && action == NormalAction::<F>::Done(Ok((reply, body)))
    }
}

/// A request at `stage` stands at `next`, and does `action`, once `event`
/// answered its last question.
pub open spec fn stepped<F>(
    call: NormalCall,
    taken: HeaderFields,
    stage: NormalStage,
    event: NormalEvent<F>,
    next: NormalStage,
    action: NormalAction<F>,
) -> bool {
    match (stage, event) {
        (NormalStage::CreatingClient(url), NormalEvent::ClientCreated(r)) => match (r, url) {
            (Err(failure), _) => fails(next, action, failure),
            (Ok(_), Err(error)) => next is Over && action == NormalAction::<F>::Done(
                Err(RequestFailure::Url(error)),
            ),
            (Ok(_), Ok(url)) => next == NormalStage::ReadingBody(url) && action is ReadBody,
        },
        (NormalStage::ReadingBody(url), NormalEvent::Body(r)) => match r {
            Ok(body) => next == NormalStage::AskingRecording(Ready { url, body })
                && action is AskRecordingEnabled,
            Err(failure) => fails(next, action, failure),
        },
        (NormalStage::AskingRecording(ready), NormalEvent::RecordingEnabled(r)) => match r {
            Ok(true) => next == NormalStage::StartingRecording(ready) && action
                == NormalAction::<F>::StartRecording(call.session_id),
            _ => forwards(call, taken, ready, false, next, action),
        },
        (NormalStage::StartingRecording(ready), NormalEvent::RecordingStarted(r)) => forwards(
            call,
            taken,
            ready,
            r is Ok,
            next,
            action,
        ),
        (NormalStage::Sending(ready, recorded), NormalEvent::Response(r)) => match r {
            Ok((status, headers)) => {
                &&& next matches NormalStage::Auditing(kept, flag, reply, streamed)
                &&& kept == ready
                &&& flag == recorded
                &&& reply.status == status
                &&& fields_view(reply.headers@) == copied(fields(headers))
                &&& streamed == streams(headers, opt_view(call.query))
                &&& action matches NormalAction::Audit(audited)
                &&& audited.method == call.method
                &&& audited.api_path == call.api_path
                &&& opt_view(audited.query) == opt_view(call.query)
                &&& audited.body@ == ready.body@
                &&& audited.status == status
            },
            Err(failure) => fails(next, action, failure),
        },
        (NormalStage::Auditing(ready, recorded, reply, streamed), NormalEvent::Audited) =>
            if streamed {
                answers(call, taken, ready, recorded, reply, ReplyBody::Streamed, next, action)
            } else {
                next == NormalStage::ReadingReply(ready, recorded, reply) && action is ReadReply
            },
        (NormalStage::ReadingReply(ready, recorded, reply), NormalEvent::ReplyBody(r)) => match r {
            Ok(bytes) => answers(
                call,
                taken,
                ready,
                recorded,
                reply,
                ReplyBody::Whole(bytes),
                next,
                action,
            ),
            Err(failure) => fails(next, action, failure),
        },
        (NormalStage::Recording(reply, body), NormalEvent::Recorded) => next is Over && action
            == NormalAction::<F>::Done(Ok((reply, body))),
        (stage, _) => next == stage && action is Unexpected,
    }
}

fn copy_bytes(bytes: &Vec<u8>) -> (copy: Vec<u8>)
    ensures
        copy@ == bytes@,
{
    vstd::slice::slice_to_vec(bytes.as_slice())
}

fn forward<F>(call: &NormalCall, taken: &HeaderFields, ready: Ready, recorded: bool) -> (r: (
    NormalStage,
    NormalAction<F>,
))
    ensures
        forwards(*call, *taken, ready, recorded, r.0, r.1),
{
    if !is_request_method(call.method.as_str().as_bytes()) {
        return (NormalStage::Over, NormalAction::Done(Err(RequestFailure::Method)));
    }
    let body: Option<Vec<u8>> = if ready.body.len() == 0 {
        None
    } else {
        Some(copy_bytes(&ready.body))
    };
    let sent: UpstreamRequest = UpstreamRequest {
        method: call.method.clone(),
        url: ready.url.clone(),
        headers: upstream_headers(taken),
        body,
    };
    (NormalStage::Sending(ready, recorded), NormalAction::Send(sent))
}

fn answer<F>(
    call: &NormalCall,
    taken: &HeaderFields,
    ready: Ready,
    recorded: bool,
    reply: Reply,
    body: ReplyBody,
) -> (r: (NormalStage, NormalAction<F>))
    ensures
        answers(*call, *taken, ready, recorded, reply, body, r.0, r.1),
{
    if !recorded {
        return (NormalStage::Over, NormalAction::Done(Ok((reply, body))));
    }
    let response_body: Vec<u8> = match &body {
        ReplyBody::Whole(bytes) => copy_bytes(bytes),
        ReplyBody::Streamed => Vec::new(),
    };
    let exchange: RecordedExchange = RecordedExchange {
        method: call.method.clone(),
        url: ready.url,
        headers: redact_headers(taken),
        request_body: ready.body,
        status: reply.status,
        response_body,
    };
    (NormalStage::Recording(reply, body), NormalAction::RecordResponse(exchange))
}

fn next_stage<F>(
    call: &NormalCall,
    taken: &HeaderFields,
    stage: NormalStage,
    event: NormalEvent<F>,
) -> (r: (NormalStage, NormalAction<F>))
    ensures
        stepped(*call, *taken, stage, event, r.0, r.1),
{
    match (stage, event) {
        (NormalStage::CreatingClient(url), NormalEvent::ClientCreated(r)) => match (r, url) {
            (Err(failure), _) => (
                NormalStage::Over,
                NormalAction::Done(Err(RequestFailure::Outside(failure))),
            ),
            (Ok(_), Err(error)) => (
                NormalStage::Over,
                NormalAction::Done(Err(RequestFailure::Url(error))),
            ),
            (Ok(_), Ok(url)) => (NormalStage::ReadingBody(url), NormalAction::ReadBody),
        },
        (NormalStage::ReadingBody(url), NormalEvent::Body(r)) => match r {
            Ok(body) => (
                NormalStage::AskingRecording(Ready { url, body }),
                NormalAction::AskRecordingEnabled,
            ),
            Err(failure) => (
                NormalStage::Over,
                NormalAction::Done(Err(RequestFailure::Outside(failure))),
            ),
        },
        (NormalStage::AskingRecording(ready), NormalEvent::RecordingEnabled(r)) => match r {
            Ok(true) => (
                NormalStage::StartingRecording(ready),
                NormalAction::StartRecording(call.session_id),
            ),
            _ => forward(call, taken, ready, false),
        },
        (NormalStage::StartingRecording(ready), NormalEvent::RecordingStarted(r)) => forward(
            call,
            taken,
            ready,
            r.is_ok(),
        ),
        (NormalStage::Sending(ready, recorded), NormalEvent::Response(r)) => match r {
            Ok((status, headers)) => {
                let query: Option<&str> = match &call.query {
                    Some(query) => Some(query.as_str()),
                    None => None,
                };
                let streamed: bool = is_streaming_response(&headers, query);
                let reply: Reply = Reply { status, headers: copy_response_headers(&headers) };
                let audited: AuditedRequest = AuditedRequest {
                    method: call.method.clone(),
                    api_path: call.api_path.clone(),
                    query: match &call.query {
                        Some(query) => Some(query.clone()),
                        None => None,
                    },
                    body: copy_bytes(&ready.body),
                    status,
                };
                (
                    NormalStage::Auditing(ready, recorded, reply, streamed),
                    NormalAction::Audit(audited),
                )
            },
            Err(failure) => (
                NormalStage::Over,
                NormalAction::Done(Err(RequestFailure::Outside(failure))),
            ),
        },
        (NormalStage::Auditing(ready, recorded, reply, streamed), NormalEvent::Audited) => {
            if streamed {
                answer(call, taken, ready, recorded, reply, ReplyBody::Streamed)
            } else {
                (NormalStage::ReadingReply(ready, recorded, reply), NormalAction::ReadReply)
            }
        },
        (NormalStage::ReadingReply(ready, recorded, reply), NormalEvent::ReplyBody(r)) => match r {
            Ok(bytes) => answer(call, taken, ready, recorded, reply, ReplyBody::Whole(bytes)),
            Err(failure) => (
                NormalStage::Over,
                NormalAction::Done(Err(RequestFailure::Outside(failure))),
            ),
        },
        (NormalStage::Recording(reply, body), NormalEvent::Recorded) => (
            NormalStage::Over,
            NormalAction::Done(Ok((reply, body))),
        ),
        (stage, _) => (stage, NormalAction::Unexpected),
    }
}

impl NormalRequest {
    /// Goes on with the answer to the last action.
    pub fn step<F>(self, event: NormalEvent<F>) -> (r: (NormalRequest, NormalAction<F>))
        ensures
            r.0.call == self.call,
            r.0.taken == self.taken,
            stepped(self.call, self.taken, self.stage, event, r.0.stage, r.1),
    {
        let NormalRequest { call, taken, stage } = self;
        let (stage, action): (NormalStage, NormalAction<F>) = next_stage(
            &call,
            &taken,
            stage,
            event,
        );
        (NormalRequest { call, taken, stage }, action)
    }
}

/// Begins to pass a request on, given its headers and the names of those that
/// may be forwarded at all.
pub fn handle_normal_request<F>(
    call: NormalCall,
    headers: &http::HeaderMap<http::HeaderValue>,
    forwardable: &Vec<String>,
) -> (r: (NormalRequest, NormalAction<F>))
    ensures
        r.0.call == call,
        r.0.taken@ == taken_headers(fields(*headers), texts(forwardable@)),
        r.0.stage matches NormalStage::CreatingClient(url) && ({
            let parsed = parsed_url(
                target_url_text(
                    call.options.cluster_url@,
                    call.api_path@,
                    opt_view(call.query),
                ),
            );
            &&& url is Ok <==> parsed is Some
            &&& url matches Ok(text) ==> Some(text@) == parsed
        }),
        r.1 is CreateClient,
{
    let query: Option<&str> = match &call.query {
        Some(query) => Some(query.as_str()),
        None => None,
    };
    assert(opt_text(query) == opt_view(call.query));
    let url: Result<String, TargetUrlError> = construct_target_url(
        call.options.cluster_url.as_str(),
        call.api_path.as_str(),
        query,
    );
    let taken: HeaderFields = take_request_headers(headers, forwardable);
    (
        NormalRequest { call, taken, stage: NormalStage::CreatingClient(url) },
        NormalAction::CreateClient,
    )
}

/// No secret of the client is ever recorded: what is recorded of a request's
/// headers neither holds a credential nor impersonates.
pub proof fn law_no_secret_is_recorded<F>(
    call: NormalCall,
    taken: HeaderFields,
    stage: NormalStage,
    event: NormalEvent<F>,
    next: NormalStage,
    action: NormalAction<F>,
    i: int,
)
    requires
        stepped(call, taken, stage, event, next, action),
        action is RecordResponse,
        0 <= i < action->RecordResponse_0.headers@.len(),
    ensures
        !crate::headers::is_sensitive(action->RecordResponse_0.headers@[i].0),
{
    crate::headers::law_redaction_keeps_no_secret(taken@, i);
}

/// A client can neither impersonate on the cluster nor present a credential of
/// its own to it.
pub proof fn law_no_client_identity_is_sent<F>(
    call: NormalCall,
    taken: HeaderFields,
    stage: NormalStage,
    event: NormalEvent<F>,
    next: NormalStage,
    action: NormalAction<F>,
    request: Seq<(Seq<char>, Seq<u8>)>,
    forwardable: Seq<Seq<char>>,
    i: int,
)
    requires
        taken@ == taken_headers(request, forwardable),
        stepped(call, taken, stage, event, next, action),
        action is Send,
        0 <= i < action->Send_0.headers@.len(),
    ensures
        !crate::headers::impersonates(action->Send_0.headers@[i].0),
        crate::text::lower(action->Send_0.headers@[i].0) != "authorization"@,
{
    crate::headers::law_no_client_identity_reaches_the_cluster(request, forwardable, i);
}

/// The course of a request: the stages it stood at, the events that moved it
/// from one to the next, and what was done on the way.
pub struct Course<F> {
    pub call: NormalCall,
    pub taken: HeaderFields,
    pub stages: Seq<NormalStage>,
    pub events: Seq<NormalEvent<F>>,
    pub actions: Seq<NormalAction<F>>,
}

impl<F> Course<F> {
    /// Step `i` is one that a request takes.
    pub open spec fn step_ok(self, i: int) -> bool {
        stepped(
            self.call,
            self.taken,
            self.stages[i],
            self.events[i],
            self.stages[i + 1],
            self.actions[i],
        )
    }

    /// The course begins as a request does, and every step is one that a
    /// request takes.
    pub open spec fn is_request(self) -> bool {
        &&& self.stages.len() == self.events.len() + 1
        &&& self.actions.len() == self.events.len()
        &&& self.stages[0] is CreatingClient
        &&& forall|i: int| 0 <= i < self.events.len() ==> #[trigger] self.step_ok(i)
    }

    /// The response with this status was reported to the audit before step `n`.
    pub open spec fn audited(self, n: int, status: u16) -> bool {
        exists|j: int|
            0 <= j < n && (#[trigger] self.actions[j] matches NormalAction::Audit(audited)
                && audited.status == status)
    }
}

/// The response that a request at this stage has got was reported.
pub open spec fn reported<F>(course: Course<F>, n: int, stage: NormalStage) -> bool {
    match stage {
        NormalStage::Auditing(_, _, reply, _) => course.audited(n, reply.status),
        NormalStage::ReadingReply(_, _, reply) => course.audited(n, reply.status),
        NormalStage::Recording(reply, _) => course.audited(n, reply.status),
        _ => true,
    }
}

proof fn lemma_reported<F>(course: Course<F>, n: int)
    requires
        course.is_request(),
        0 <= n <= course.events.len(),
    ensures
        reported(course, n, course.stages[n]),
    decreases n,
{
    if n > 0 {
        lemma_reported(course, n - 1);
        assert(course.step_ok(n - 1));
        assert(reported(course, n, course.stages[n - 1]));
        assert(course.actions[n - 1] == course.actions[n - 1]);
    }
}

/// A response's body is read, and the request answered with the response, only
/// after the response was reported to the audit with its status: a failure to
/// read the body cannot lose the report.
pub proof fn law_the_audit_comes_before_the_body<F>(course: Course<F>, i: int)
    requires
        course.is_request(),
        0 <= i < course.events.len(),
    ensures
        course.actions[i] is ReadReply ==> exists|status: u16| #[trigger]
            course.audited(i, status),
        course.actions[i] matches NormalAction::RecordResponse(exchange) ==> course.audited(
            i,
            exchange.status,
        ),
        course.actions[i] matches NormalAction::Done(Ok((reply, _))) ==> course.audited(
            i,
            reply.status,
        ),
{
    lemma_reported(course, i);
    assert(course.step_ok(i));
    match course.stages[i] {
        NormalStage::Auditing(_, _, reply, _) => {
            assert(course.audited(i, reply.status));
        },
        _ => {},
    }
}

/// How often a response is reported among these actions.
pub open spec fn audits<F>(actions: Seq<NormalAction<F>>) -> nat
    decreases actions.len(),
{
    if actions.len() == 0 {
        0
    } else {
        audits(actions.drop_last()) + if actions.last() is Audit {
            1nat
        } else {
            0nat
        }
    }
}

/// The response of a request has not come yet at this stage.
pub open spec fn awaits_response(stage: NormalStage) -> bool {
    stage is CreatingClient || stage is ReadingBody || stage is AskingRecording
        || stage is StartingRecording || stage is Sending
}

/// A request is reported to the audit at most once.
pub proof fn law_a_request_is_audited_at_most_once<F>(course: Course<F>, n: int)
    requires
        course.is_request(),
        0 <= n <= course.actions.len(),
    ensures
        audits(course.actions.take(n)) <= 1,
        awaits_response(course.stages[n]) ==> audits(course.actions.take(n)) == 0,
    decreases n,
{
    if n > 0 {
        law_a_request_is_audited_at_most_once(course, n - 1);
        assert(course.step_ok(n - 1));
        assert(course.actions.take(n).drop_last() == course.actions.take(n - 1));
        assert(course.actions.take(n).last() == course.actions[n - 1]);
    }
}

} // verus!
