//! A request to the Kubernetes API of a target: who makes it, which target it
//! is for, and which path of the API it names.
use vstd::prelude::*;

use crate::config_providers::AuthorizedIdentity;
use crate::model::{AuthStateUserInfo, Target, TargetKubernetesOptions, UserSessionId};
use crate::routes::{
    api_path, decoded_text, is_resolved, local_url, named_target_path, names_target, parsed_path,
    rest_part, target_part, ticket_path, RouteError,
};
use crate::text::{first_position, trim_start_of};
use crate::tickets::ValidatedTicket;

verus! {

/// Who makes a request.
pub enum KubernetesIdentity {
    /// The bearer of a ticket, which selects the target.
    Ticket(ValidatedTicket),
    User(AuthorizedIdentity),
}

/// What a request is for: a target, and the path exactly as its API server will
/// see it.
#[derive(Debug)]
pub struct Route {
    pub target_name: String,
    pub api_path: String,
}

/// The target and the path below it that a request is for. With a ticket the
/// whole path belongs to the API, which includes discovery endpoints such as
/// `/api`; any other path names its target first.
pub open spec fn selected(identity: KubernetesIdentity, path: Seq<char>) -> Option<
    (Seq<char>, Seq<char>),
> {
    match identity {
        KubernetesIdentity::Ticket(ticket) => Some(
            (ticket@.target.target.name@, trim_start_of(path, '/')),
        ),
        KubernetesIdentity::User(_) => match decoded_text(target_part(path)) {
            Some(name) if names_target(path) => Some((name, rest_part(path))),
            _ => None,
        },
    }
}

/// The route of a request.
pub fn route_request(identity: &KubernetesIdentity, path: &str) -> (r: Result<Route, RouteError>)
    ensures
        match selected(*identity, path@) {
            Some((name, rest)) => {
                &&& r is Ok <==> parsed_path(local_url(rest)) is Some
                &&& r matches Ok(route) ==> route.target_name@ == name && Some(route.api_path@)
                    == parsed_path(local_url(rest)) && is_resolved(route.api_path@)
            },
            None => r is Err,
        },
        r matches Err(error) ==> (error is NotFound <==> identity is User && !names_target(path@)),
        r matches Err(error) ==> (error is InvalidPath <==> selected(*identity, path@) is Some),
{
    let (target_name, rest): (String, String) = match identity {
        KubernetesIdentity::Ticket(ticket) => (ticket.target().name.clone(), ticket_path(path)),
        KubernetesIdentity::User(_) => match named_target_path(path) {
            Ok(parts) => parts,
            Err(error) => {
                return Err(error);
            },
        },
    };
    match api_path(rest.as_str()) {
        Ok(api_path) => Ok(Route { target_name, api_path }),
        Err(error) => Err(error),
    }
}

/// A session that a request was admitted to.
#[derive(Debug)]
pub struct AdmittedSession {
    /// The target session, which recordings belong to.
    pub id: u128,
    pub user_info: AuthStateUserInfo,
    pub target: Target,
    pub options: TargetKubernetesOptions,
}

/// Whom an audit event names. The session is the user session, which log
/// entries are kept by; recordings go by the target session instead.
#[derive(Debug)]
pub struct KubernetesAuditSubject {
    pub session_id: u128,
    pub user_id: u128,
    pub username: String,
    pub target_id: u128,
    pub target_name: String,
}

/// The subject of every audit event of a request.
pub open spec fn subject_of(session: UserSessionId, admitted: AdmittedSession) -> KubernetesAuditSubject {
    KubernetesAuditSubject {
        session_id: session.0,
        user_id: admitted.user_info.id,
        username: admitted.user_info.username,
        target_id: admitted.target.id,
        target_name: admitted.target.name,
    }
}

fn audit_subject(session: UserSessionId, admitted: &AdmittedSession) -> (subject:
    KubernetesAuditSubject)
    ensures
        subject == subject_of(session, *admitted),
{
    KubernetesAuditSubject {
        session_id: session.0,
        user_id: admitted.user_info.id,
        username: admitted.user_info.username.clone(),
        target_id: admitted.target.id,
        target_name: admitted.target.name.clone(),
    }
}

/// A request that is ready to be passed on.
#[derive(Debug)]
pub struct ServedRequest {
    pub api_path: String,
    pub admitted: AdmittedSession,
    pub subject: KubernetesAuditSubject,
}

/// Why a request is not answered with what its target said.
#[derive(Debug)]
pub enum ApiFailure<F> {
    Route(RouteError),
    /// A service or a connection failed, or the request was refused.
    Outside(F),
}

/// What a request does next.
pub enum ApiAction<F> {
    /// Check the transport credential, which is done for every request.
    Authenticate,
    /// Authorize the identity for the target of this name. That is resolved
    /// once per session and reused for the requests that follow.
    Authorize(KubernetesIdentity, String),
    /// Open the log span of this session.
    OpenSpan(UserSessionId),
    /// Pass the request on as a websocket upgrade.
    ServeWebsocket(ServedRequest),
    /// Pass the request on as an ordinary one.
    ServeNormal(ServedRequest),
    /// Log the status or the failure, and answer with it.
    Answer(Result<u16, F>),
    /// Refuse the request, before it belongs to a session.
    Refuse(ApiFailure<F>),
    /// The event answers no question that was asked; nothing has changed.
    Unexpected,
}

/// The answer to an [`ApiAction`].
pub enum ApiEvent<F> {
    Authenticated(Result<KubernetesIdentity, F>),
    Authorized(Result<(UserSessionId, AdmittedSession), F>),
    SpanOpened(Result<(), F>),
    /// The status that the request was served with.
    Served(Result<u16, F>),
}

/// How far a request has come.
#[derive(Debug)]
pub enum ApiStage {
    Authenticating,
    Authorizing(Route),
    OpeningSpan(Route, UserSessionId, AdmittedSession),
    Serving,
    Over,
}

/// A request to the API of a target.
pub struct ApiRequest {
    pub path: String,
    pub websocket: bool,
    pub stage: ApiStage,
}

/// The request is refused with this.
pub open spec fn refuses<F>(next: ApiStage, action: ApiAction<F>, failure: F) -> bool {
    next is Over && action == ApiAction::Refuse(ApiFailure::Outside(failure))
}

impl ApiRequest {
    /// The request stands at `next`, and does `action`, once `event` answered
    /// its last question. The classification, the audit and the upstream URL
    /// all go by the one path of the route.
    pub open spec fn stepped<F>(
        self,
        event: ApiEvent<F>,
        next: ApiStage,
        action: ApiAction<F>,
    ) -> bool {
        match (self.stage, event) {
            (ApiStage::Authenticating, ApiEvent::Authenticated(r)) => match r {
                Err(failure) => refuses(next, action, failure),
                Ok(identity) => match selected(identity, self.path@) {
                    Some((name, rest)) => match parsed_path(local_url(rest)) {
                        Some(path) => {
                            &&& next matches ApiStage::Authorizing(route)
                            &&& route.target_name@ == name
                            &&& route.api_path@ == path
                            &&& is_resolved(path)
                            &&& action matches ApiAction::Authorize(who, target)
                            &&& who == identity
                            &&& target@ == name
                        },
                        None => {
                            &&& next is Over
                            &&& action matches ApiAction::Refuse(
                                ApiFailure::Route(RouteError::InvalidPath(_)),
                            )
                        },
                    },
                    None => {
                        &&& next is Over
                        &&& action matches ApiAction::Refuse(ApiFailure::Route(error))
                        &&& error is NotFound <==> !names_target(self.path@)
                        &&& error is InvalidTargetName <==> names_target(self.path@)
                    },
                },
            },
            (ApiStage::Authorizing(route), ApiEvent::Authorized(r)) => match r {
                Err(failure) => refuses(next, action, failure),
                Ok((session, admitted)) => next == ApiStage::OpeningSpan(route, session, admitted)
                    && action == ApiAction::<F>::OpenSpan(session),
            },
            (ApiStage::OpeningSpan(route, session, admitted), ApiEvent::SpanOpened(r)) => match r {
                Err(failure) => refuses(next, action, failure),
                Ok(_) => {
                    let served = ServedRequest {
                        api_path: route.api_path,
                        admitted,
                        subject: subject_of(session, admitted),
                    };
                    &&& next is Serving
                    &&& action == if self.websocket {
                        ApiAction::<F>::ServeWebsocket(served)
                    } else {
                        ApiAction::<F>::ServeNormal(served)
                    }
                },
            },
            (ApiStage::Serving, ApiEvent::Served(r)) => next is Over && action == ApiAction::Answer(
                r,
            ),
            (stage, _) => next == stage && action is Unexpected,
        }
    }

    /// Goes on with the answer to the last action.
    pub fn step<F>(self, event: ApiEvent<F>) -> (r: (ApiRequest, ApiAction<F>))
        ensures
            r.0.path == self.path,
            r.0.websocket == self.websocket,
            self.stepped(event, r.0.stage, r.1),
    {
        let ApiRequest { path, websocket, stage } = self;
        let (stage, action): (ApiStage, ApiAction<F>) = match (stage, event) {
            (ApiStage::Authenticating, ApiEvent::Authenticated(r)) => match r {
                Err(failure) => (ApiStage::Over, ApiAction::Refuse(ApiFailure::Outside(failure))),
                Ok(identity) => match route_request(&identity, path.as_str()) {
                    Err(error) => (ApiStage::Over, ApiAction::Refuse(ApiFailure::Route(error))),
                    Ok(route) => {
                        let name: String = route.target_name.clone();
                        (ApiStage::Authorizing(route), ApiAction::Authorize(identity, name))
                    },
                },
            },
            (ApiStage::Authorizing(route), ApiEvent::Authorized(r)) => match r {
                Err(failure) => (ApiStage::Over, ApiAction::Refuse(ApiFailure::Outside(failure))),
                Ok((session, admitted)) => (
                    ApiStage::OpeningSpan(route, session, admitted),
                    ApiAction::OpenSpan(session),
                ),
            },
            (ApiStage::OpeningSpan(route, session, admitted), ApiEvent::SpanOpened(r)) => match r {
                Err(failure) => (ApiStage::Over, ApiAction::Refuse(ApiFailure::Outside(failure))),
                Ok(_) => {
                    let subject: KubernetesAuditSubject = audit_subject(session, &admitted);
                    let served: ServedRequest = ServedRequest {
                        api_path: route.api_path,
                        admitted,
                        subject,
                    };
                    if websocket {
                        (ApiStage::Serving, ApiAction::ServeWebsocket(served))
                    } else {
                        (ApiStage::Serving, ApiAction::ServeNormal(served))
                    }
                },
            },
            (ApiStage::Serving, ApiEvent::Served(r)) => (ApiStage::Over, ApiAction::Answer(r)),
            (stage, _) => (stage, ApiAction::Unexpected),
        };
        (ApiRequest { path, websocket, stage }, action)
    }
}

/// Begins to handle a request, which asks for a websocket or not.
pub fn handle_api_request<F>(path: String, websocket: bool) -> (r: (ApiRequest, ApiAction<F>))
    ensures
        r.0 == (ApiRequest { path, websocket, stage: ApiStage::Authenticating }),
        r.1 is Authenticate,
{
    (ApiRequest { path, websocket, stage: ApiStage::Authenticating }, ApiAction::Authenticate)
}

/// A ticket fixes the target: whatever path its bearer asks for, the request
/// goes to the target of the ticket and to no other.
pub proof fn law_a_ticket_selects_its_own_target(ticket: ValidatedTicket, path: Seq<char>)
    ensures
        selected(KubernetesIdentity::Ticket(ticket), path) matches Some(parts) && parts.0
            == ticket@.target.target.name@,
{
}

/// Only the target's name is decoded: a path below it reaches the API with its
/// own escaping.
pub proof fn law_the_path_below_a_target_is_not_decoded(
    identity: AuthorizedIdentity,
    name: Seq<char>,
    rest: Seq<char>,
)
    requires
        name.len() > 0,
        !name.contains('/'),
        decoded_text(name) is Some,
    ensures
        selected(KubernetesIdentity::User(identity), seq!['/'] + name + seq!['/'] + rest) == Some(
            (decoded_text(name)->0, rest),
        ),
{
    let path = seq!['/'] + name + seq!['/'] + rest;
    assert(path.skip(1) =~= name + seq!['/'] + rest);
    let below = path.skip(1);
    crate::text::lemma_first_position(below, '/');
    let at = first_position(below, '/');
    assert(below[name.len() as int] == '/');
    if at < name.len() {
        assert(name[at] == below[at]);
    }
    assert(target_part(path) =~= name);
    assert(rest_part(path) =~= rest);
}

} // verus!
