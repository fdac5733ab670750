//! What a Kubernetes API request promises: where it goes, what is sent, and what
//! comes back.
use vstd::prelude::*;

use crate::api_request::{
    handle_api_request, route_request, AdmittedSession, ApiAction, ApiEvent, ApiFailure,
    ApiRequest, ApiStage, KubernetesIdentity, Route,
};
use crate::config_providers::AuthorizedIdentity;
use crate::header_laws::{lemma_copied_is_filter, lemma_redacted_is_filter, lemma_upstream_is_filter};
use crate::headers::{
    fields_view, is_field, is_streaming_response, query_pairs, take_request_headers, Entry,
    HeaderFields,
};
use crate::http_fields::{fields, is_method, is_name, is_value, opt_view, text_of, values_of};
use crate::model::UserSessionId;
use crate::normal_request::{
    handle_normal_request, Course, NormalAction, NormalCall, NormalEvent, NormalRequest,
    NormalStage, Ready, Reply, ReplyBody, RequestFailure,
};
use crate::routes::{
    api_path, construct_target_url, decoded_text, named_target_path, parsed_path, parsed_url,
    ticket_path, write_target_url, RouteError, TargetUrlError,
};
use crate::text::{first_position, lemma_first_position, lower};
use crate::tickets::ValidatedTicket;

verus! {

/// The cluster's address and the path of the API make the URL, and a query
/// follows a question mark if there is one that is not empty.
pub proof fn law_a_target_url_is_address_path_and_query(
    cluster_url: &str,
    api_path: &str,
    query: Option<&str>,
    text: String,
)
    requires
        call_ensures(write_target_url, (cluster_url, api_path, query), text),
    ensures
        match query {
            Some(query) if query@.len() > 0 => text@ == cluster_url@ + api_path@ + seq!['?']
                + query@,
            _ => text@ == cluster_url@ + api_path@,
        },
{
    reveal_strlit("?");
    assert("?"@ =~= seq!['?']);
}

/// The URL of a request is what that text parses to, and there is one exactly
/// if it parses.
pub proof fn law_a_request_goes_to_the_parsed_url(
    cluster_url: &str,
    api_path: &str,
    query: Option<&str>,
    r: Result<String, TargetUrlError>,
)
    requires
        call_ensures(construct_target_url, (cluster_url, api_path, query), r),
    ensures
        ({
            let text = match query {
                Some(query) if query@.len() > 0 => cluster_url@ + api_path@ + seq!['?'] + query@,
                _ => cluster_url@ + api_path@,
            };
            match parsed_url(text) {
                Some(url) => r matches Ok(made) && made@ == url,
                None => r is Err,
            }
        }),
{
    reveal_strlit("?");
    assert("?"@ =~= seq!['?']);
}

proof fn lemma_parts(path: Seq<char>, name: Seq<char>, rest: Seq<char>)
    requires
        name.len() > 0,
        !name.contains('/'),
        path == seq!['/'] + name + seq!['/'] + rest,
    ensures
        path.len() > 0 && path[0] == '/',
        first_position(path.skip(1), '/') == name.len(),
        path.skip(1).take(name.len() as int) == name,
        path.skip(1).skip(name.len() as int + 1) == rest,
        path.skip(1).len() > name.len(),
{
    let below = path.skip(1);
    assert(below =~= name + seq!['/'] + rest);
    lemma_first_position(below, '/');
    let at = first_position(below, '/');
    assert(below[name.len() as int] == '/');
    if at < name.len() {
        assert(name[at] == below[at]);
    }
    assert(below.take(name.len() as int) =~= name);
    assert(below.skip(name.len() as int + 1) =~= rest);
}

/// A path `/<name>/<rest>` names the target of the decoded name, if the name
/// decodes to text, and keeps the rest as it stands.
pub proof fn law_a_path_names_its_target(
    path: &str,
    name: Seq<char>,
    rest: Seq<char>,
    r: Result<(String, String), RouteError>,
)
    requires
        call_ensures(named_target_path, (path,), r),
        name.len() > 0,
        !name.contains('/'),
        path@ == seq!['/'] + name + seq!['/'] + rest,
    ensures
        match decoded_text(name) {
            Some(decoded) => r matches Ok(parts) && parts.0@ == decoded && parts.1@ == rest,
            None => r matches Err(RouteError::InvalidTargetName),
        },
{
    lemma_parts(path@, name, rest);
}

/// A path that does not begin with a slash, that has no second one, or that has
/// nothing between the two, names no target.
pub proof fn law_any_other_path_names_no_target(
    path: &str,
    r: Result<(String, String), RouteError>,
)
    requires
        call_ensures(named_target_path, (path,), r),
        path@.len() == 0 || path@[0] != '/' || !path@.skip(1).contains('/') || path@[1] == '/',
    ensures
        r matches Err(RouteError::NotFound),
{
    if path@.len() > 0 {
        lemma_first_position(path@.skip(1), '/');
        if path@.skip(1).len() > 0 && path@[1] == '/' {
            assert(path@.skip(1)[0] == '/');
        }
    }
}

/// With a ticket the whole path belongs to the API: only its leading slashes are
/// taken off.
pub proof fn law_a_ticket_path_loses_its_leading_slashes(path: &str, rest: String, slashes: nat)
    requires
        call_ensures(ticket_path, (path,), rest),
        slashes <= path@.len(),
        forall|i: int| 0 <= i < slashes ==> path@[i] == '/',
        slashes < path@.len() ==> path@[slashes as int] != '/',
    ensures
        rest@ == path@.skip(slashes as int),
{
    lemma_trimmed_slashes(path@, slashes);
}

proof fn lemma_trimmed_slashes(path: Seq<char>, slashes: nat)
    requires
        slashes <= path.len(),
        forall|i: int| 0 <= i < slashes ==> path[i] == '/',
        slashes < path.len() ==> path[slashes as int] != '/',
    ensures
        crate::text::trim_start_of(path, '/') == path.skip(slashes as int),
    decreases slashes,
{
    if slashes == 0 {
        assert(path.skip(0) =~= path);
    } else {
        let rest = path.drop_first();
        assert forall|i: int| 0 <= i < slashes - 1 implies rest[i] == '/' by {
            assert(rest[i] == path[i + 1]);
        }
        lemma_trimmed_slashes(rest, (slashes - 1) as nat);
        assert(rest.skip(slashes - 1) =~= path.skip(slashes as int));
    }
}

/// The path of the API is the path of the local URL that it makes.
pub proof fn law_an_api_path_is_resolved_on_the_local_host(
    path: &str,
    r: Result<String, RouteError>,
)
    requires
        call_ensures(api_path, (path,), r),
    ensures
        match parsed_path("http://localhost/"@ + path@) {
            Some(resolved) => r matches Ok(text) && text@ == resolved,
            None => r matches Err(RouteError::InvalidPath(_)),
        },
{
}

/// A request without a route is answered with 404 if no target is named, and
/// with 400 if the target or the path is malformed.
pub proof fn law_a_missing_route_has_its_status(error: RouteError, status: u16)
    requires
        call_ensures(RouteError::status, (&error,), status),
    ensures
        error is NotFound ==> status == 404,
        error is InvalidTargetName ==> status == 400,
        error is InvalidPath ==> status == 400,
{
}

/// A request is authenticated first, and one that is not is refused with the
/// reason.
pub proof fn law_a_request_is_authenticated_first<F>(
    path: String,
    websocket: bool,
    begun: (ApiRequest, ApiAction<F>),
    failure: F,
    refused: (ApiRequest, ApiAction<F>),
)
    requires
        call_ensures(handle_api_request::<F>, (path, websocket), begun),
        call_ensures(
            ApiRequest::step::<F>,
            (begun.0, ApiEvent::Authenticated(Err(failure))),
            refused,
        ),
    ensures
        begun.1 is Authenticate,
        refused.1 == ApiAction::Refuse(ApiFailure::Outside(failure)),
{
}

/// The bearer of a ticket is authorized for the ticket's own target, whatever
/// the path; the path, but for its leading slashes, is the API's.
pub proof fn law_a_ticket_bearer_goes_to_the_tickets_target<F>(
    path: String,
    websocket: bool,
    begun: (ApiRequest, ApiAction<F>),
    ticket: ValidatedTicket,
    r: (ApiRequest, ApiAction<F>),
    slashes: nat,
)
    requires
        call_ensures(handle_api_request::<F>, (path, websocket), begun),
        call_ensures(
            ApiRequest::step::<F>,
            (begun.0, ApiEvent::Authenticated(Ok(KubernetesIdentity::Ticket(ticket)))),
            r,
        ),
        slashes <= path@.len(),
        forall|i: int| 0 <= i < slashes ==> path@[i] == '/',
        slashes < path@.len() ==> path@[slashes as int] != '/',
    ensures
        match parsed_path("http://localhost/"@ + path@.skip(slashes as int)) {
            Some(resolved) => {
                &&& r.1 matches ApiAction::Authorize(who, target_name)
                &&& who == KubernetesIdentity::Ticket(ticket)
                &&& target_name@ == ticket@.target.target.name@
                &&& r.0.stage matches ApiStage::Authorizing(route)
                &&& route.api_path@ == resolved
                &&& route.target_name@ == ticket@.target.target.name@
            },
            None => r.1 matches ApiAction::Refuse(ApiFailure::Route(RouteError::InvalidPath(_))),
        },
{
    lemma_trimmed_slashes(path@, slashes);
}

/// A user is authorized for the target that the path names, and the rest of the
/// path is the API's.
pub proof fn law_a_user_goes_to_the_named_target<F>(
    path: String,
    websocket: bool,
    begun: (ApiRequest, ApiAction<F>),
    identity: AuthorizedIdentity,
    r: (ApiRequest, ApiAction<F>),
    name: Seq<char>,
    rest: Seq<char>,
)
    requires
        call_ensures(handle_api_request::<F>, (path, websocket), begun),
        call_ensures(
            ApiRequest::step::<F>,
            (begun.0, ApiEvent::Authenticated(Ok(KubernetesIdentity::User(identity)))),
            r,
        ),
        name.len() > 0,
        !name.contains('/'),
        path@ == seq!['/'] + name + seq!['/'] + rest,
    ensures
        match (decoded_text(name), parsed_path("http://localhost/"@ + rest)) {
            (Some(decoded), Some(resolved)) => {
                &&& r.1 matches ApiAction::Authorize(who, target_name)
                &&& who == KubernetesIdentity::User(identity)
                &&& target_name@ == decoded
                &&& r.0.stage matches ApiStage::Authorizing(route)
                &&& route.api_path@ == resolved
                &&& route.target_name@ == decoded
            },
            (Some(_), None) => r.1 matches ApiAction::Refuse(
                ApiFailure::Route(RouteError::InvalidPath(_)),
            ),
            (None, _) => r.1 matches ApiAction::Refuse(
                ApiFailure::Route(RouteError::InvalidTargetName),
            ),
        },
{
    lemma_parts(path@, name, rest);
}

/// A user's path that names no target is refused as not found.
pub proof fn law_a_user_without_a_target_is_refused<F>(
    path: String,
    websocket: bool,
    begun: (ApiRequest, ApiAction<F>),
    identity: AuthorizedIdentity,
    r: (ApiRequest, ApiAction<F>),
)
    requires
        call_ensures(handle_api_request::<F>, (path, websocket), begun),
        call_ensures(
            ApiRequest::step::<F>,
            (begun.0, ApiEvent::Authenticated(Ok(KubernetesIdentity::User(identity)))),
            r,
        ),
        path@.len() == 0 || path@[0] != '/' || !path@.skip(1).contains('/') || path@[1] == '/',
    ensures
        r.1 matches ApiAction::Refuse(ApiFailure::Route(RouteError::NotFound)),
{
    if path@.len() > 0 {
        lemma_first_position(path@.skip(1), '/');
        if path@.skip(1).len() > 0 && path@[1] == '/' {
            assert(path@.skip(1)[0] == '/');
        }
    }
}

/// The same of the route by itself, for a user.
pub proof fn law_a_route_is_the_named_target_and_the_resolved_rest(
    identity: AuthorizedIdentity,
    path: &str,
    r: Result<Route, RouteError>,
    name: Seq<char>,
    rest: Seq<char>,
)
    requires
        call_ensures(route_request, (&KubernetesIdentity::User(identity), path), r),
        name.len() > 0,
        !name.contains('/'),
        path@ == seq!['/'] + name + seq!['/'] + rest,
    ensures
        match (decoded_text(name), parsed_path("http://localhost/"@ + rest)) {
            (Some(decoded), Some(resolved)) => r matches Ok(route) && route.target_name@ == decoded
                && route.api_path@ == resolved,
            (Some(_), None) => r matches Err(RouteError::InvalidPath(_)),
            (None, _) => r matches Err(RouteError::InvalidTargetName),
        },
{
    lemma_parts(path@, name, rest);
}

/// An admitted request opens the span of its session and is then served, as a
/// websocket exactly if it asked for one: with the path of its route, with the
/// session that it was admitted to, and with an audit subject that names the user
/// session, the user and the target of that admission. What it is served with is
/// its answer.
pub proof fn law_an_admitted_request_is_served<F>(
    request: ApiRequest,
    route: Route,
    session: UserSessionId,
    admitted: AdmittedSession,
    opened: (ApiRequest, ApiAction<F>),
    served: (ApiRequest, ApiAction<F>),
    result: Result<u16, F>,
    answered: (ApiRequest, ApiAction<F>),
)
    requires
        request.stage == ApiStage::Authorizing(route),
        call_ensures(
            ApiRequest::step::<F>,
            (request, ApiEvent::Authorized(Ok((session, admitted)))),
            opened,
        ),
        call_ensures(ApiRequest::step::<F>, (opened.0, ApiEvent::SpanOpened(Ok(()))), served),
        call_ensures(ApiRequest::step::<F>, (served.0, ApiEvent::Served(result)), answered),
    ensures
        opened.1 == ApiAction::<F>::OpenSpan(session),
        ({
            let passed = if request.websocket {
                served.1->ServeWebsocket_0
            } else {
                served.1->ServeNormal_0
            };
            &&& request.websocket <==> served.1 is ServeWebsocket
            &&& !request.websocket <==> served.1 is ServeNormal
            &&& passed.api_path == route.api_path
            &&& passed.admitted == admitted
            &&& passed.subject.session_id == session.0
            &&& passed.subject.user_id == admitted.user_info.id
            &&& passed.subject.username@ == admitted.user_info.username@
            &&& passed.subject.target_id == admitted.target.id
            &&& passed.subject.target_name@ == admitted.target.name@
        }),
        answered.1 == ApiAction::Answer(result),
{
}

/// A request that is not admitted, or whose span cannot be opened, is refused
/// with the reason.
pub proof fn law_a_request_that_is_not_admitted_is_refused<F>(
    request: ApiRequest,
    event: ApiEvent<F>,
    asked: (ApiRequest, ApiAction<F>),
    failure: F,
    answer: ApiEvent<F>,
    r: (ApiRequest, ApiAction<F>),
)
    requires
        call_ensures(ApiRequest::step::<F>, (request, event), asked),
        call_ensures(ApiRequest::step::<F>, (asked.0, answer), r),
        asked.1 is Authorize && answer == ApiEvent::<F>::Authorized(Err(failure)) || asked.1 is OpenSpan
            && answer == ApiEvent::<F>::SpanOpened(Err(failure)),
    ensures
        r.1 == ApiAction::Refuse(ApiFailure::Outside(failure)),
{
}

/// A response is streamed exactly if its transfer encoding is `chunked`, in
/// whatever case, or the request's query asks to watch or to follow.
pub proof fn law_what_is_streamed(
    headers: http::HeaderMap<http::HeaderValue>,
    query: Option<&str>,
    r: bool,
)
    requires
        call_ensures(is_streaming_response, (&headers, query), r),
    ensures
        r <==> streamed(headers, crate::access_watch::opt_text(query)),
{
    lemma_streamed(headers, crate::access_watch::opt_text(query));
}

/// The response is chunked, or the query holds `watch=true` or `follow=true`.
pub open spec fn streamed(
    headers: http::HeaderMap<http::HeaderValue>,
    query: Option<Seq<char>>,
) -> bool {
    ||| ({
        let encodings = values_of(fields(headers), "transfer-encoding"@);
        encodings.len() > 0 && (text_of(encodings[0]) matches Some(text) && lower(text)
            == "chunked"@)
    })
    ||| (query matches Some(text) && query_pairs(vstd::utf8::encode_utf8(text)).contains(
        ("watch"@, "true"@),
    ))
    ||| (query matches Some(text) && query_pairs(vstd::utf8::encode_utf8(text)).contains(
        ("follow"@, "true"@),
    ))
}

proof fn lemma_streamed(headers: http::HeaderMap<http::HeaderValue>, query: Option<Seq<char>>)
    ensures
        streamed(headers, query) == crate::normal_request::streams(headers, query),
{
    if query is Some {
        let pairs = query_pairs(vstd::utf8::encode_utf8(query->0));
        if pairs.contains(("watch"@, "true"@)) {
            let i = choose|i: int| 0 <= i < pairs.len() && pairs[i] == ("watch"@, "true"@);
            assert(pairs[i].0 == "watch"@);
        }
        if pairs.contains(("follow"@, "true"@)) {
            let i = choose|i: int| 0 <= i < pairs.len() && pairs[i] == ("follow"@, "true"@);
            assert(pairs[i].0 == "follow"@);
        }
        if crate::headers::asks_to_stream(pairs) {
            let i = choose|i: int|
                0 <= i < pairs.len() && ((#[trigger] pairs[i]).0 == "watch"@ || pairs[i].0
                    == "follow"@) && pairs[i].1 == "true"@;
            assert(pairs[i] == (pairs[i].0, pairs[i].1));
        }
    }
}

/// A request begins by making a client. Its URL is what the cluster's address,
/// the path and the query parse to; if they do not, the request fails with that
/// once the client is made, and a client that cannot be made fails it first.
/// Otherwise its body is read.
pub proof fn law_a_request_begins_with_its_client<F>(
    call: NormalCall,
    headers: http::HeaderMap<http::HeaderValue>,
    forwardable: Vec<String>,
    begun: (NormalRequest, NormalAction<F>),
    created: Result<(), F>,
    r: (NormalRequest, NormalAction<F>),
)
    requires
        call_ensures(handle_normal_request::<F>, (call, &headers, &forwardable), begun),
        call_ensures(NormalRequest::step::<F>, (begun.0, NormalEvent::ClientCreated(created)), r),
    ensures
        begun.0.call == call,
        begun.1 is CreateClient,
        ({
            let text = match opt_view(call.query) {
                Some(query) if query.len() > 0 => call.options.cluster_url@ + call.api_path@
                    + seq!['?'] + query,
                _ => call.options.cluster_url@ + call.api_path@,
            };
            match (created, parsed_url(text)) {
                (Err(failure), _) => r.1 == NormalAction::<F>::Done(
                    Err(RequestFailure::Outside(failure)),
                ),
                (Ok(_), None) => r.1 matches NormalAction::Done(Err(RequestFailure::Url(_))),
                (Ok(_), Some(url)) => r.1 is ReadBody && (
                r.0.stage matches NormalStage::ReadingBody(kept) && kept@ == url),
            }
        }),
{
    reveal_strlit("?");
    assert("?"@ =~= seq!['?']);
}

/// What is sent is the request's own: its method, its body, unless that is empty,
/// to the URL that was made, and of the headers that were taken up every one but
/// those that the gateway sets or that belong to one connection, and no other.
/// Whether or not the exchange is recorded makes no difference to it.
pub proof fn law_the_request_itself_is_sent<F>(
    request: NormalRequest,
    url: String,
    body: Vec<u8>,
    read: (NormalRequest, NormalAction<F>),
    enabled: Result<bool, F>,
    asked: (NormalRequest, NormalAction<F>),
    started: Result<(), F>,
    recording: (NormalRequest, NormalAction<F>),
    entry: Entry,
)
    requires
        request.stage == NormalStage::ReadingBody(url),
        call_ensures(NormalRequest::step::<F>, (request, NormalEvent::Body(Ok(body))), read),
        call_ensures(NormalRequest::step::<F>, (read.0, NormalEvent::RecordingEnabled(enabled)), asked),
        call_ensures(
            NormalRequest::step::<F>,
            (asked.0, NormalEvent::RecordingStarted(started)),
            recording,
        ),
    ensures
        read.1 is AskRecordingEnabled,
        enabled == Ok::<bool, F>(true) ==> asked.1 == NormalAction::<F>::StartRecording(
            request.call.session_id,
        ),
        ({
            let last = if enabled == Ok::<bool, F>(true) {
                recording
            } else {
                asked
            };
            let recorded = enabled == Ok::<bool, F>(true) && started is Ok;
            if is_method(vstd::utf8::encode_utf8(request.call.method@)) {
                &&& last.1 matches NormalAction::Send(sent)
                &&& sent.method@ == request.call.method@
                &&& sent.url@ == url@
                &&& body@.len() == 0 ==> sent.body is None
                &&& body@.len() > 0 ==> (sent.body matches Some(bytes) && bytes@ == body@)
                &&& sent.headers@.contains(entry) <==> request.taken@.contains(entry) && lower(
                    entry.0,
                ) != "host"@ && lower(entry.0) != "content-length"@ && lower(entry.0)
                    != "connection"@ && lower(entry.0) != "transfer-encoding"@ && lower(entry.0)
                    != "authorization"@ && is_name(vstd::utf8::encode_utf8(entry.0)) && is_value(
                    vstd::utf8::encode_utf8(entry.1),
                )
                &&& last.0.stage == NormalStage::Sending(Ready { url, body }, recorded)
            } else {
                last.1 matches NormalAction::Done(Err(RequestFailure::Method))
            }
        }),
{
    lemma_upstream_is_filter(request.taken@, entry);
}

/// A request that cannot be read or sent fails with the reason, and so does one
/// whose response cannot be read.
pub proof fn law_an_outside_failure_fails_the_request<F>(
    request: NormalRequest,
    event: NormalEvent<F>,
    asked: (NormalRequest, NormalAction<F>),
    failure: F,
    answer: NormalEvent<F>,
    r: (NormalRequest, NormalAction<F>),
)
    requires
        call_ensures(NormalRequest::step::<F>, (request, event), asked),
        call_ensures(NormalRequest::step::<F>, (asked.0, answer), r),
        asked.1 is ReadBody && answer == NormalEvent::<F>::Body(Err(failure)) || asked.1 is Send
            && answer == NormalEvent::<F>::Response(Err(failure)) || asked.1 is ReadReply && answer
            == NormalEvent::<F>::ReplyBody(Err(failure)),
    ensures
        r.1 == NormalAction::<F>::Done(Err(RequestFailure::Outside(failure))),
{
}

/// A response is reported to the audit with its status, beside the method, the
/// path, the query and the body of the request. Then its body is read, unless the
/// response is streamed.
pub proof fn law_a_response_is_audited_then_read<F>(
    request: NormalRequest,
    event: NormalEvent<F>,
    asked: (NormalRequest, NormalAction<F>),
    status: u16,
    headers: http::HeaderMap<http::HeaderValue>,
    answered: (NormalRequest, NormalAction<F>),
    after: (NormalRequest, NormalAction<F>),
)
    requires
        call_ensures(NormalRequest::step::<F>, (request, event), asked),
        asked.1 is Send,
        call_ensures(
            NormalRequest::step::<F>,
            (asked.0, NormalEvent::Response(Ok((status, headers)))),
            answered,
        ),
        call_ensures(NormalRequest::step::<F>, (answered.0, NormalEvent::Audited), after),
    ensures
        asked.0.stage matches NormalStage::Sending(ready, recorded) && {
            &&& answered.1 matches NormalAction::Audit(audited)
            &&& audited.method@ == request.call.method@
            &&& audited.api_path@ == request.call.api_path@
            &&& opt_view(audited.query) == opt_view(request.call.query)
            &&& audited.body@ == ready.body@
            &&& audited.status == status
            &&& if streamed(headers, opt_view(request.call.query)) {
                if recorded {
                    after.1 is RecordResponse
                } else {
                    after.1 matches NormalAction::Done(Ok((reply, ReplyBody::Streamed)))
                        && reply.status == status
                }
            } else {
                after.1 is ReadReply
            }
        },
{
    lemma_streamed(headers, opt_view(request.call.query));
}

/// A recorded exchange holds the request's method, URL and body, its headers but
/// for those that are sensitive, the response's status, and the response's body
/// if it was read whole. Once it is recorded, the response goes to the client as
/// it came.
pub proof fn law_a_recorded_exchange_is_the_exchange<F>(
    request: NormalRequest,
    bytes: Vec<u8>,
    read: (NormalRequest, NormalAction<F>),
    after: (NormalRequest, NormalAction<F>),
    ready: Ready,
    recorded: bool,
    reply: Reply,
    entry: Entry,
)
    requires
        request.stage == NormalStage::ReadingReply(ready, recorded, reply),
        call_ensures(NormalRequest::step::<F>, (request, NormalEvent::ReplyBody(Ok(bytes))), read),
        call_ensures(NormalRequest::step::<F>, (read.0, NormalEvent::Recorded), after),
    ensures
        recorded ==> {
            &&& read.1 matches NormalAction::RecordResponse(exchange)
            &&& exchange.method@ == request.call.method@
            &&& exchange.url@ == ready.url@
            &&& exchange.request_body@ == ready.body@
            &&& exchange.status == reply.status
            &&& exchange.response_body@ == bytes@
            &&& exchange.headers@.contains(entry) <==> request.taken@.contains(entry) && lower(
                entry.0,
            ) != "authorization"@ && lower(entry.0) != "cookie"@ && !crate::text::starts_with(
                lower(entry.0),
                "impersonate-"@,
            )
            &&& after.1 == NormalAction::<F>::Done(Ok((reply, ReplyBody::Whole(bytes))))
        },
        !recorded ==> read.1 == NormalAction::<F>::Done(Ok((reply, ReplyBody::Whole(bytes)))),
{
    lemma_redacted_is_filter(request.taken@, entry);
}

/// A streamed exchange is recorded with an empty response body, and then goes to
/// the client as a stream.
pub proof fn law_a_recorded_stream_goes_on<F>(
    request: NormalRequest,
    audited: (NormalRequest, NormalAction<F>),
    after: (NormalRequest, NormalAction<F>),
    ready: Ready,
    reply: Reply,
)
    requires
        request.stage == NormalStage::Auditing(ready, true, reply, true),
        call_ensures(NormalRequest::step::<F>, (request, NormalEvent::Audited), audited),
        call_ensures(NormalRequest::step::<F>, (audited.0, NormalEvent::Recorded), after),
    ensures
        audited.1 matches NormalAction::RecordResponse(exchange) && exchange.method@
            == request.call.method@ && exchange.url@ == ready.url@ && exchange.request_body@
            == ready.body@ && exchange.status == reply.status && exchange.response_body@.len() == 0,
        after.1 == NormalAction::<F>::Done(Ok((reply, ReplyBody::Streamed))),
{
}

/// Before step `n` the whole body of the response was read as these bytes.
pub open spec fn body_read<F>(course: Course<F>, n: int, body: Vec<u8>) -> bool {
    exists|j: int| 0 <= j < n && #[trigger] course.events[j] == NormalEvent::<F>::ReplyBody(Ok(body))
}

/// Before step `n` the cluster responded with this status, and with headers of
/// which `reply` holds every well-formed one, in order.
pub open spec fn responded<F>(course: Course<F>, n: int, reply: Reply) -> bool {
    exists|j: int| 0 <= j < n && #[trigger] responds(course, j, reply)
}

/// Step `j` is that of the response behind `reply`.
pub open spec fn responds<F>(course: Course<F>, j: int, reply: Reply) -> bool {
    &&& course.stages[j] is Sending
    &&& course.events[j] matches NormalEvent::Response(Ok((status, headers)))
    &&& reply.status == status
    &&& fields_view(reply.headers@) == fields(headers).filter(
        |field: (Seq<char>, Seq<u8>)| is_field(field),
    )
}

/// What a request at this stage has got from the cluster.
pub open spec fn received<F>(course: Course<F>, n: int, stage: NormalStage) -> bool {
    match stage {
        NormalStage::Auditing(_, _, reply, _) => responded(course, n, reply),
        NormalStage::ReadingReply(_, _, reply) => responded(course, n, reply),
        NormalStage::Recording(reply, ReplyBody::Whole(body)) => responded(course, n, reply)
            && body_read(course, n, body),
        NormalStage::Recording(reply, ReplyBody::Streamed) => responded(course, n, reply),
        _ => true,
    }
}

proof fn lemma_received<F>(course: Course<F>, n: int)
    requires
        course.is_request(),
        0 <= n <= course.events.len(),
    ensures
        received(course, n, course.stages[n]),
    decreases n,
{
    if n > 0 {
        lemma_received(course, n - 1);
        assert(course.step_ok(n - 1));
        assert(received(course, n, course.stages[n - 1]));
        lemma_step_receives(course, n - 1);
    }
}

proof fn lemma_step_receives<F>(course: Course<F>, i: int)
    requires
        course.is_request(),
        0 <= i < course.events.len(),
        received(course, i, course.stages[i]),
        received(course, i + 1, course.stages[i]),
        course.step_ok(i),
    ensures
        received(course, i + 1, course.stages[i + 1]),
        course.actions[i] matches NormalAction::Done(Ok((reply, body))) ==> responded(
            course,
            i + 1,
            reply,
        ) && (body matches ReplyBody::Whole(bytes) ==> body_read(course, i + 1, bytes)),
{
    assert(course.events[i] == course.events[i]);
    match (course.stages[i], course.events[i]) {
        (NormalStage::Sending(_, _), NormalEvent::Response(Ok((status, headers)))) => {
            lemma_copied_is_filter(fields(headers));
            match course.stages[i + 1] {
                NormalStage::Auditing(_, _, reply, _) => {
                    assert(responds(course, i, reply));
                },
                _ => {},
            }
        },
        _ => {},
    }
}

/// A client is answered with the status and the headers of the cluster's
/// response, and a response that was read whole is answered with exactly the
/// bytes that were read, whether or not the exchange is recorded.
pub proof fn law_the_client_gets_the_clusters_response<F>(course: Course<F>, i: int)
    requires
        course.is_request(),
        0 <= i < course.events.len(),
    ensures
        course.actions[i] matches NormalAction::Done(Ok((reply, body))) ==> responded(
            course,
            i + 1,
            reply,
        ) && (body matches ReplyBody::Whole(bytes) ==> body_read(course, i + 1, bytes)),
{
    lemma_received(course, i);
    assert(course.step_ok(i));
    assert(received(course, i + 1, course.stages[i]));
    lemma_step_receives(course, i);
}

/// A request takes up the headers that its client's request gives it.
pub proof fn law_a_request_takes_up_its_headers<F>(
    call: NormalCall,
    headers: http::HeaderMap<http::HeaderValue>,
    forwardable: Vec<String>,
    begun: (NormalRequest, NormalAction<F>),
    taken: HeaderFields,
)
    requires
        call_ensures(handle_normal_request::<F>, (call, &headers, &forwardable), begun),
        call_ensures(take_request_headers, (&headers, &forwardable), taken),
    ensures
        begun.0.taken@ == taken@,
{
}

/// A request is about one call, with the headers that were taken up, from its
/// first step to its last.
pub proof fn law_a_request_keeps_to_its_call<F>(
    request: NormalRequest,
    event: NormalEvent<F>,
    r: (NormalRequest, NormalAction<F>),
)
    requires
        call_ensures(NormalRequest::step::<F>, (request, event), r),
    ensures
        r.0.call == request.call,
        r.0.taken == request.taken,
        r.1 is Unexpected ==> r.0.stage == request.stage,
{
}

/// A request to the API keeps its path and its kind from its first step to its
/// last.
pub proof fn law_an_api_request_keeps_to_its_path<F>(
    path: String,
    websocket: bool,
    begun: (ApiRequest, ApiAction<F>),
    request: ApiRequest,
    event: ApiEvent<F>,
    r: (ApiRequest, ApiAction<F>),
)
    requires
        call_ensures(handle_api_request::<F>, (path, websocket), begun),
        call_ensures(ApiRequest::step::<F>, (request, event), r),
    ensures
        begun.0.path == path,
        begun.0.websocket == websocket,
        r.0.path == request.path,
        r.0.websocket == request.websocket,
        r.1 is Unexpected ==> r.0.stage == request.stage,
{
}

} // verus!
