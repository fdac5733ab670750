//! The authorization of a login over a database protocol, from the address
//! check to the administrator's approval.
//!
//! A login stands at a [`DbAuthStage`]. Each step takes the answer to the last
//! question and gives the next one, so that all protocols go through the same
//! checks in the same order, and differ only in how they word their messages.
use vstd::prelude::*;

use crate::config_providers::{
    ApprovedTarget, AuthResult, AuthState, AuthorizedIdentity, CredentialKind, Grant,
    TargetAuthorization,
};
use crate::db_target::{
    authorize_for_target_or_ticket, TargetAction, TargetAttempt, TargetEvent, TargetStage,
};
use crate::model::{
    AuthStateUserInfo, IpAddr, Protocol, TargetOptions, UserSessionId, WarpgateError,
};
use crate::tickets::{
    authorize_and_spend_ticket, begins, TicketActionView, TicketLogin, TicketLoginAction,
    TicketLoginEvent,
};

verus! {

/// The kind of credential that failed attempts are recorded under.
pub const PASSWORD: &'static str = "password";

/// Proof that the success message has not been sent yet. One is made per login
/// and given away with the message, since the clients of both protocols take a
/// second one for an error.
#[derive(Debug)]
pub struct AuthOkPermit {
    seal: (),
}

/// How a client says who it is. It can hold a secret, so it cannot be printed,
/// and neither can the types below that hold one.
pub enum AuthSelector {
    User { username: String, target_name: String },
    Ticket { secret: String },
}

/// By which credentials an approval is remembered for the next login.
#[derive(Debug)]
pub enum RememberApprovalBy {
    Nothing,
    /// The fingerprint of a stable credential.
    Fingerprint(String),
}

/// What an administrator is asked to approve.
#[derive(Debug)]
pub struct GatedConnection {
    pub remote_ip: Option<IpAddr>,
    pub credentials: RememberApprovalBy,
}

/// The link that a user opens to approve a login, and the words by which to
/// recognise it.
#[derive(Debug)]
pub struct WebApprovalPrompt {
    pub url: String,
    pub identification_string: String,
}

/// A failed login, as it counts against brute force.
#[derive(Debug)]
pub struct FailedAttemptInfo {
    pub username: String,
    pub remote_ip: IpAddr,
    pub protocol: Protocol,
    pub credential_type: &'static str,
}

/// What an authentication is started with.
#[derive(Debug)]
pub struct AuthStateRequest {
    pub session_id: UserSessionId,
    pub username: String,
    pub protocol: Protocol,
    pub target_name: String,
    /// The only kind of credential that the protocol can collect itself.
    pub supported: CredentialKind,
    pub remote_ip: IpAddr,
    pub credential_type: &'static str,
}

/// Why a login failed, as opposed to being denied.
#[derive(Debug)]
pub enum DbAuthFailure<E> {
    /// A service of the gateway failed.
    Core(WarpgateError),
    /// The connection to the client failed.
    Transport(E),
}

/// What is fixed for one login.
#[derive(Clone, Copy, Debug, PartialEq, Eq, Structural)]
pub struct DbLogin {
    pub session_id: UserSessionId,
    pub remote_ip: IpAddr,
    pub protocol: Protocol,
    /// Whether the protocol can show a web approval link during a login.
    pub supports_web_approval: bool,
}

/// Who logs in, and to what.
#[derive(Debug)]
pub struct LoginUser {
    pub username: String,
    pub target_name: String,
}

/// What a login does next.
pub enum DbAuthAction<E> {
    CheckIpBlocked(IpAddr),
    CheckUserLocked(String),
    CreateAuthState(AuthStateRequest),
    /// Ask how far the authentication has come.
    Verify,
    /// Read the authentication's state.
    ReadState,
    /// A step of the authorization for the target.
    Target(TargetAction),
    /// A step of the login with a ticket.
    Ticket(TicketLoginAction),
    /// Count a failed attempt; whether that succeeds does not matter.
    RecordFailure(FailedAttemptInfo),
    /// Ask by which credentials an approval would be remembered.
    ReadRememberedBy,
    /// Hold the connection for an administrator's approval, if its target asks
    /// for one. The client may be told, which can use up the permit.
    RequireAdminApproval(GatedConnection, Option<AuthOkPermit>),
    /// Report a successful authentication to the client.
    SendAuthOk(AuthOkPermit),
    /// Forget the failed attempts from this address and of this user; whether
    /// that succeeds does not matter.
    ClearFailedAttempts(IpAddr, String),
    PromptPassword,
    SubmitPassword(String),
    /// Ask whether an earlier web approval counts for this login.
    TryWebApprovalBypass,
    /// Make up the web approval link from the gateway's external address.
    PrepareWebApproval,
    SendWebApprovalPrompt(WebApprovalPrompt),
    /// Wait until the authentication is decided elsewhere.
    WaitForCompletion,
    /// Tell the client that the login is denied.
    SendDenied,
    /// The login is over: approved, denied or failed.
    Done(Result<Option<ApprovedTarget<TargetOptions>>, DbAuthFailure<E>>),
    /// The event answers no question that was asked; nothing has changed.
    Unexpected,
}

/// The answer to a [`DbAuthAction`].
pub enum DbAuthEvent<E> {
    IpBlocked(Result<bool, WarpgateError>),
    UserLocked(Result<bool, WarpgateError>),
    AuthStateCreated(Result<(), WarpgateError>),
    Verified(AuthResult),
    State(AuthState),
    Target(TargetEvent),
    Ticket(TicketLoginEvent),
    FailureRecorded,
    RememberedBy(RememberApprovalBy),
    /// Whether the connection is approved, and the permit if it is still there.
    AdminApproval(Result<bool, DbAuthFailure<E>>, Option<AuthOkPermit>),
    /// A message to the client was sent, or not.
    Sent(Result<(), E>),
    FailedAttemptsCleared,
    /// The password, or `None` if the protocol cannot ask for one again.
    Password(Result<Option<String>, E>),
    /// Whether the password was valid.
    PasswordSubmitted(Result<bool, WarpgateError>),
    WebApprovalBypass(Result<bool, WarpgateError>),
    WebApproval(Result<WebApprovalPrompt, E>),
    /// Whether the prompt could be shown.
    Prompted(Result<bool, E>),
    Completed(AuthResult),
}

/// How far a login has come.
pub enum DbAuthStage<E> {
    CheckingIp(AuthSelector),
    Ticket(TicketLogin),
    CheckingUser(LoginUser),
    Creating(LoginUser),
    Verifying(LoginUser, Option<AuthOkPermit>),
    /// The authentication was accepted for this user.
    Minting(LoginUser, Option<AuthOkPermit>, AuthStateUserInfo),
    Authorizing(LoginUser, Option<AuthOkPermit>, AuthStateUserInfo, TargetAttempt),
    Remembering(Option<AuthOkPermit>, AuthStateUserInfo, TargetAuthorization<TargetOptions>),
    /// An administrator is asked. The user is there unless a ticket was used;
    /// the flag says that the permit was given along.
    Gate(Option<AuthStateUserInfo>, bool, TargetAuthorization<TargetOptions>),
    SendingOk(Option<AuthStateUserInfo>, ApprovedTarget<TargetOptions>),
    Clearing(ApprovedTarget<TargetOptions>),
    Prompting(LoginUser, Option<AuthOkPermit>),
    Submitting(LoginUser, Option<AuthOkPermit>),
    Bypassing(LoginUser, Option<AuthOkPermit>),
    Preparing(LoginUser, Option<AuthOkPermit>),
    /// The success message is sent ahead of the prompt, since some clients drop
    /// what comes before it.
    SendingOkFirst(LoginUser, WebApprovalPrompt),
    WebPrompting(LoginUser),
    Waiting(LoginUser),
    Recording,
    /// The client is told; then the login ends, with the failure if there is
    /// one.
    Denying(Option<DbAuthFailure<E>>),
    Over,
}

/// The login of a client.
pub struct DbAuthorization<E> {
    pub login: DbLogin,
    pub stage: DbAuthStage<E>,
}

/// The login is denied, and the client is told first.
pub open spec fn denies<E>(next: DbAuthStage<E>, action: DbAuthAction<E>) -> bool {
    next == DbAuthStage::<E>::Denying(None) && action is SendDenied
}

/// The login ends with this failure.
pub open spec fn fails<E>(
    next: DbAuthStage<E>,
    action: DbAuthAction<E>,
    failure: DbAuthFailure<E>,
) -> bool {
    next is Over && action == DbAuthAction::Done(Err(failure))
}

/// The failed attempt is counted; the login is denied next.
pub open spec fn records<E>(
    login: DbLogin,
    username: String,
    next: DbAuthStage<E>,
    action: DbAuthAction<E>,
) -> bool {
    next is Recording && action == DbAuthAction::<E>::RecordFailure(
        FailedAttemptInfo {
            username,
            remote_ip: login.remote_ip,
            protocol: login.protocol,
            credential_type: PASSWORD,
        },
    )
}

/// The login asks how far its authentication has come.
pub open spec fn verifies<E>(
    user: LoginUser,
    permit: Option<AuthOkPermit>,
    next: DbAuthStage<E>,
    action: DbAuthAction<E>,
) -> bool {
    next == DbAuthStage::<E>::Verifying(user, permit) && action is Verify
}

/// The connection is held for an administrator's approval.
pub open spec fn holds<E>(
    login: DbLogin,
    user: Option<AuthStateUserInfo>,
    grant: Grant<TargetOptions>,
    credentials: RememberApprovalBy,
    permit: Option<AuthOkPermit>,
    next: DbAuthStage<E>,
    action: DbAuthAction<E>,
) -> bool {
    &&& next matches DbAuthStage::Gate(who, given, authorization)
    &&& who == user
    &&& given == (permit is Some)
    &&& authorization@ == grant
    &&& action == DbAuthAction::<E>::RequireAdminApproval(
        GatedConnection { remote_ip: Some(login.remote_ip), credentials },
        permit,
    )
}

/// The approved login ends, once the failed attempts of its user are forgotten.
pub open spec fn finishes<E>(
    login: DbLogin,
    user: Option<AuthStateUserInfo>,
    grant: Grant<TargetOptions>,
    next: DbAuthStage<E>,
    action: DbAuthAction<E>,
) -> bool {
    match user {
        Some(user) => {
            &&& next matches DbAuthStage::Clearing(approved)
            &&& approved@ == grant
            &&& action == DbAuthAction::<E>::ClearFailedAttempts(login.remote_ip, user.username)
        },
        None => {
            &&& next is Over
            &&& action matches DbAuthAction::Done(Ok(Some(approved)))
            &&& approved@ == grant
        },
    }
}

/// The login goes on as its ticket, now at `after` and asking `asked`, says.
/// Tickets are no stable credential, so an approval is not remembered by one.
pub open spec fn ticket_moves<E>(
    login: DbLogin,
    after: TicketLogin,
    asked: TicketLoginAction,
    next: DbAuthStage<E>,
    action: DbAuthAction<E>,
) -> bool {
    match asked {
        TicketLoginAction::Done(Ok(Some(authorization))) => {
            &&& next matches DbAuthStage::Gate(None, true, held)
            &&& held@ == authorization@
            &&& action matches DbAuthAction::RequireAdminApproval(connection, permit)
            &&& connection == (GatedConnection {
                remote_ip: Some(login.remote_ip),
                credentials: RememberApprovalBy::Nothing,
            })
            &&& permit is Some
        },
        TicketLoginAction::Done(Ok(None)) => denies(next, action),
        TicketLoginAction::Done(Err(error)) => fails(next, action, DbAuthFailure::Core(error)),
        TicketLoginAction::Unexpected => next == DbAuthStage::<E>::Ticket(after)
            && action is Unexpected,
        asked => next == DbAuthStage::<E>::Ticket(after) && action == DbAuthAction::<E>::Ticket(
            asked,
        ),
    }
}

/// The login goes on as the authorization for its target, now at `after` and
/// asking `asked`, says.
pub open spec fn target_moves<E>(
    login: DbLogin,
    user: LoginUser,
    permit: Option<AuthOkPermit>,
    user_info: AuthStateUserInfo,
    after: TargetAttempt,
    asked: TargetAction,
    next: DbAuthStage<E>,
    action: DbAuthAction<E>,
) -> bool {
    match asked {
        TargetAction::Done(Ok(Some(authorization))) => {
            &&& next matches DbAuthStage::Remembering(held, info, kept)
            &&& held == permit
            &&& info == user_info
            &&& kept@ == authorization@
            &&& action is ReadRememberedBy
        },
        TargetAction::Done(Ok(None)) => records(login, user.username, next, action),
        TargetAction::Done(Err(error)) => fails(next, action, DbAuthFailure::Core(error)),
        TargetAction::Unexpected => next == DbAuthStage::<E>::Authorizing(
            user,
            permit,
            user_info,
            after,
        ) && action is Unexpected,
        asked => next == DbAuthStage::<E>::Authorizing(user, permit, user_info, after) && action
            == DbAuthAction::<E>::Target(asked),
    }
}

/// A login at `stage` stands at `next`, and does `action`, once `event`
/// answered its last question.
pub open spec fn stepped<E>(
    login: DbLogin,
    stage: DbAuthStage<E>,
    event: DbAuthEvent<E>,
    next: DbAuthStage<E>,
    action: DbAuthAction<E>,
) -> bool {
    match (stage, event) {
        (DbAuthStage::CheckingIp(selector), DbAuthEvent::IpBlocked(r)) => match (r, selector) {
            (Ok(true), _) => denies(next, action),
            (Ok(false), AuthSelector::User { username, target_name }) => next
                == DbAuthStage::<E>::CheckingUser(LoginUser { username, target_name }) && action
                == DbAuthAction::<E>::CheckUserLocked(username),
            (Ok(false), AuthSelector::Ticket { secret }) => {
                &&& next matches DbAuthStage::Ticket(TicketLogin::Checking(check))
                &&& begins(check)
                &&& check.secret@ == secret@
                &&& check.remote_ip == Some(login.remote_ip)
                &&& check.protocol == login.protocol
                &&& action matches DbAuthAction::Ticket(TicketLoginAction::Check(asked))
                &&& asked@ == TicketActionView::CheckIpBlocked(login.remote_ip)
            },
            (Err(error), _) => fails(next, action, DbAuthFailure::Core(error)),
        },
        (DbAuthStage::Ticket(ticket), DbAuthEvent::Ticket(event)) => exists|
            after: TicketLogin,
            asked: TicketLoginAction,
        | #[trigger]
            ticket.stepped(event, after, asked) && ticket_moves(login, after, asked, next, action),
        (DbAuthStage::CheckingUser(user), DbAuthEvent::UserLocked(r)) => match r {
            Ok(true) => denies(next, action),
            Ok(false) => next == DbAuthStage::<E>::Creating(user) && action == DbAuthAction::<
                E,
            >::CreateAuthState(
                AuthStateRequest {
                    session_id: login.session_id,
                    username: user.username,
                    protocol: login.protocol,
                    target_name: user.target_name,
                    supported: CredentialKind::Password,
                    remote_ip: login.remote_ip,
                    credential_type: PASSWORD,
                },
            ),
            Err(error) => fails(next, action, DbAuthFailure::Core(error)),
        },
        (DbAuthStage::Creating(user), DbAuthEvent::AuthStateCreated(r)) => match r {
            Ok(_) => {
                &&& next matches DbAuthStage::Verifying(same, permit)
                &&& same == user
                &&& permit is Some
                &&& action is Verify
            },
            Err(error) => fails(next, action, DbAuthFailure::Core(error)),
        },
        (DbAuthStage::Verifying(user, permit), DbAuthEvent::Verified(result)) => match result {
            AuthResult::Accepted { user_info } => next == DbAuthStage::<E>::Minting(
                user,
                permit,
                user_info,
            ) && action is ReadState,
            AuthResult::Need(kinds) => if kinds@.contains(CredentialKind::Password) {
                next == DbAuthStage::<E>::Prompting(user, permit) && action is PromptPassword
            } else if kinds@.contains(CredentialKind::WebUserApproval) {
                next == DbAuthStage::<E>::Bypassing(user, permit) && action is TryWebApprovalBypass
            } else {
                denies(next, action)
            },
            AuthResult::Rejected => records(login, user.username, next, action),
        },
        (DbAuthStage::Minting(user, permit, user_info), DbAuthEvent::State(state)) => match state.result {
            AuthResult::Accepted { user_info: accepted } => {
                &&& next matches DbAuthStage::Authorizing(same, held, info, attempt)
                &&& same == user
                &&& held == permit
                &&& info == user_info
                &&& attempt.identity.user() == accepted
                &&& attempt.identity.over() == state.protocol
                &&& attempt.stage is Lookup
                &&& attempt.wf()
                &&& action matches DbAuthAction::Target(TargetAction::FindTarget(name))
                &&& name@ == user.target_name@
            },
            _ => denies(next, action),
        },
        (
            DbAuthStage::Authorizing(user, permit, user_info, attempt),
            DbAuthEvent::Target(event),
        ) => exists|after: TargetStage, asked: TargetAction| #[trigger]
            attempt.stepped(event, after, asked) && target_moves(
                login,
                user,
                permit,
                user_info,
                TargetAttempt { identity: attempt.identity, stage: after },
                asked,
                next,
                action,
            ),
        (
            DbAuthStage::Remembering(permit, user_info, authorization),
            DbAuthEvent::RememberedBy(credentials),
        ) => holds(login, Some(user_info), authorization@, credentials, permit, next, action),
        (
            DbAuthStage::Gate(user, given, authorization),
            DbAuthEvent::AdminApproval(r, permit),
        ) => match r {
            Ok(true) => match permit {
                Some(permit) if given => {
                    &&& next matches DbAuthStage::SendingOk(who, approved)
                    &&& who == user
                    &&& approved@ == authorization@
                    &&& action == DbAuthAction::<E>::SendAuthOk(permit)
                },
                _ => finishes(login, user, authorization@, next, action),
            },
            Ok(false) => denies(next, action),
            Err(failure) => fails(next, action, failure),
        },
        (DbAuthStage::SendingOk(user, approved), DbAuthEvent::Sent(r)) => match r {
            Ok(_) => finishes(login, user, approved@, next, action),
            Err(error) => fails(next, action, DbAuthFailure::Transport(error)),
        },
        (DbAuthStage::Clearing(approved), DbAuthEvent::FailedAttemptsCleared) => {
            &&& next is Over
            &&& action matches DbAuthAction::Done(Ok(Some(given)))
            &&& given@ == approved@
        },
        (DbAuthStage::Prompting(user, permit), DbAuthEvent::Password(r)) => match r {
            Ok(Some(password)) => next == DbAuthStage::<E>::Submitting(user, permit) && action
                == DbAuthAction::<E>::SubmitPassword(password),
            Ok(None) => denies(next, action),
            Err(error) => fails(next, action, DbAuthFailure::Transport(error)),
        },
        (DbAuthStage::Submitting(user, permit), DbAuthEvent::PasswordSubmitted(r)) => match r {
            Ok(true) => verifies(user, permit, next, action),
            Ok(false) => records(login, user.username, next, action),
            Err(error) => fails(next, action, DbAuthFailure::Core(error)),
        },
        (DbAuthStage::Bypassing(user, permit), DbAuthEvent::WebApprovalBypass(r)) => match r {
            Ok(true) => verifies(user, permit, next, action),
            Ok(false) => if login.supports_web_approval {
                next == DbAuthStage::<E>::Preparing(user, permit) && action is PrepareWebApproval
            } else {
                denies(next, action)
            },
            Err(error) => fails(next, action, DbAuthFailure::Core(error)),
        },
        (DbAuthStage::Preparing(user, permit), DbAuthEvent::WebApproval(r)) => match r {
            Ok(prompt) => match permit {
                Some(permit) => next == DbAuthStage::<E>::SendingOkFirst(user, prompt) && action
                    == DbAuthAction::<E>::SendAuthOk(permit),
                None => next == DbAuthStage::<E>::WebPrompting(user) && action == DbAuthAction::<
                    E,
                >::SendWebApprovalPrompt(prompt),
            },
            Err(error) => next == DbAuthStage::Denying(Some(DbAuthFailure::Transport(error)))
                && action is SendDenied,
        },
        (DbAuthStage::SendingOkFirst(user, prompt), DbAuthEvent::Sent(r)) => match r {
            Ok(_) => next == DbAuthStage::<E>::WebPrompting(user) && action == DbAuthAction::<
                E,
            >::SendWebApprovalPrompt(prompt),
            Err(error) => fails(next, action, DbAuthFailure::Transport(error)),
        },
        (DbAuthStage::WebPrompting(user), DbAuthEvent::Prompted(r)) => match r {
            Ok(true) => next == DbAuthStage::<E>::Waiting(user) && action is WaitForCompletion,
            Ok(false) => denies(next, action),
            Err(error) => fails(next, action, DbAuthFailure::Transport(error)),
        },
        (DbAuthStage::Waiting(user), DbAuthEvent::Completed(result)) => match result {
            AuthResult::Accepted { .. } => verifies(user, None, next, action),
            _ => denies(next, action),
        },
        (DbAuthStage::Recording, DbAuthEvent::FailureRecorded) => denies(next, action),
        (DbAuthStage::Denying(failure), DbAuthEvent::Sent(r)) => match (r, failure) {
            (Err(error), _) => fails(next, action, DbAuthFailure::Transport(error)),
            (Ok(_), Some(failure)) => fails(next, action, failure),
            (Ok(_), None) => next is Over && action == DbAuthAction::<E>::Done(Ok(None)),
        },
        (stage, _) => next == stage && action is Unexpected,
    }
}

fn needs(kinds: &Vec<CredentialKind>, kind: CredentialKind) -> (r: bool)
    ensures
        r == kinds@.contains(kind),
{
    let mut i: usize = 0;
    while i < kinds.len()
        invariant
            i <= kinds.len(),
            forall|j: int| 0 <= j < i ==> kinds@[j] != kind,
        decreases kinds.len() - i,
    {
        if kinds[i] == kind {
            assert(kinds@[i as int] == kind);
            return true;
        }
        i += 1;
    }
    false
}

/// The attempt that a failed login counts as.
fn password_failure(login: DbLogin, username: String) -> (info: FailedAttemptInfo)
    ensures
        info == (FailedAttemptInfo {
            username,
            remote_ip: login.remote_ip,
            protocol: login.protocol,
            credential_type: PASSWORD,
        }),
{
    FailedAttemptInfo {
        username,
        remote_ip: login.remote_ip,
        protocol: login.protocol,
        credential_type: PASSWORD,
    }
}

fn finish<E>(
    login: DbLogin,
    user: Option<AuthStateUserInfo>,
    approved: ApprovedTarget<TargetOptions>,
) -> (r: (DbAuthStage<E>, DbAuthAction<E>))
    ensures
        finishes(login, user, approved@, r.0, r.1),
{
    match user {
        Some(user) => (
            DbAuthStage::Clearing(approved),
            DbAuthAction::ClearFailedAttempts(login.remote_ip, user.username),
        ),
        None => (DbAuthStage::Over, DbAuthAction::Done(Ok(Some(approved)))),
    }
}

/// Holds the connection for an administrator's approval.
fn hold_for_admin_approval<E>(
    login: DbLogin,
    user: Option<AuthStateUserInfo>,
    authorization: TargetAuthorization<TargetOptions>,
    credentials: RememberApprovalBy,
    permit: Option<AuthOkPermit>,
) -> (r: (DbAuthStage<E>, DbAuthAction<E>))
    ensures
        holds(login, user, authorization@, credentials, permit, r.0, r.1),
{
    (
        DbAuthStage::Gate(user, permit.is_some(), authorization),
        DbAuthAction::RequireAdminApproval(
            GatedConnection { remote_ip: Some(login.remote_ip), credentials },
            permit,
        ),
    )
}

/// Begins the login of a client. The address is checked first, and if that
/// check fails the login does too: a possibly blocked address is never let
/// through.
pub fn run_db_authorization<E>(login: DbLogin, selector: AuthSelector) -> (r: (
    DbAuthorization<E>,
    DbAuthAction<E>,
))
    ensures
        r.0 == (DbAuthorization::<E> { login, stage: DbAuthStage::CheckingIp(selector) }),
        r.1 == DbAuthAction::<E>::CheckIpBlocked(login.remote_ip),
{
    (
        DbAuthorization { login, stage: DbAuthStage::CheckingIp(selector) },
        DbAuthAction::CheckIpBlocked(login.remote_ip),
    )
}

impl<E> DbAuthorization<E> {
    /// The authorization that an administrator is asked about, while that is
    /// open.
    pub fn held(&self) -> (held: Option<&TargetAuthorization<TargetOptions>>)
        ensures
            match self.stage {
                DbAuthStage::Gate(_, _, authorization) => held == Some(&authorization),
                _ => held is None,
            },
    {
        match &self.stage {
            DbAuthStage::Gate(_, _, authorization) => Some(authorization),
            _ => None,
        }
    }

    /// Goes on with the answer to the last action.
    #[verifier::rlimit(50)]
    pub fn step(self, event: DbAuthEvent<E>) -> (r: (DbAuthorization<E>, DbAuthAction<E>))
        ensures
            r.0.login == self.login,
            stepped(self.login, self.stage, event, r.0.stage, r.1),
    {
        let login: DbLogin = self.login;
        let (stage, action): (DbAuthStage<E>, DbAuthAction<E>) = next_stage(
            login,
            self.stage,
            event,
        );
        (DbAuthorization { login, stage }, action)
    }
}

#[verifier::rlimit(50)]
fn next_stage<E>(login: DbLogin, stage: DbAuthStage<E>, event: DbAuthEvent<E>) -> (r: (
    DbAuthStage<E>,
    DbAuthAction<E>,
))
    ensures
        stepped(login, stage, event, r.0, r.1),
{
    match (stage, event) {
        (DbAuthStage::CheckingIp(selector), DbAuthEvent::IpBlocked(r)) => match (r, selector) {
            (Ok(true), _) => (DbAuthStage::Denying(None), DbAuthAction::SendDenied),
            (Ok(false), AuthSelector::User { username, target_name }) => {
                let asked: String = username.clone();
                (
                    DbAuthStage::CheckingUser(LoginUser { username, target_name }),
                    DbAuthAction::CheckUserLocked(asked),
                )
            },
            (Ok(false), AuthSelector::Ticket { secret }) => {
                let (ticket, asked): (TicketLogin, TicketLoginAction) = authorize_and_spend_ticket(
                    secret,
                    Some(login.remote_ip),
                    login.protocol,
                );
                (DbAuthStage::Ticket(ticket), DbAuthAction::Ticket(asked))
            },
            (Err(error), _) => (
                DbAuthStage::Over,
                DbAuthAction::Done(Err(DbAuthFailure::Core(error))),
            ),
        },
        (DbAuthStage::Ticket(ticket), DbAuthEvent::Ticket(event)) => {
            let (after, asked): (TicketLogin, TicketLoginAction) = ticket.step(event);
            assert(ticket.stepped(event, after, asked));
            match asked {
                TicketLoginAction::Done(Ok(Some(authorization))) => hold_for_admin_approval(
                    login,
                    None,
                    authorization,
                    RememberApprovalBy::Nothing,
                    Some(AuthOkPermit { seal: () }),
                ),
                TicketLoginAction::Done(Ok(None)) => (
                    DbAuthStage::Denying(None),
                    DbAuthAction::SendDenied,
                ),
                TicketLoginAction::Done(Err(error)) => (
                    DbAuthStage::Over,
                    DbAuthAction::Done(Err(DbAuthFailure::Core(error))),
                ),
                TicketLoginAction::Unexpected => (
                    DbAuthStage::Ticket(after),
                    DbAuthAction::Unexpected,
                ),
                asked => (DbAuthStage::Ticket(after), DbAuthAction::Ticket(asked)),
            }
        },
        (DbAuthStage::CheckingUser(user), DbAuthEvent::UserLocked(r)) => match r {
            Ok(true) => (DbAuthStage::Denying(None), DbAuthAction::SendDenied),
            Ok(false) => {
                let request: AuthStateRequest = AuthStateRequest {
                    session_id: login.session_id,
                    username: user.username.clone(),
                    protocol: login.protocol,
                    target_name: user.target_name.clone(),
                    supported: CredentialKind::Password,
                    remote_ip: login.remote_ip,
                    credential_type: PASSWORD,
                };
                (DbAuthStage::Creating(user), DbAuthAction::CreateAuthState(request))
            },
            Err(error) => (
                DbAuthStage::Over,
                DbAuthAction::Done(Err(DbAuthFailure::Core(error))),
            ),
        },
        (DbAuthStage::Creating(user), DbAuthEvent::AuthStateCreated(r)) => match r {
            Ok(_) => (
                DbAuthStage::Verifying(user, Some(AuthOkPermit { seal: () })),
                DbAuthAction::Verify,
            ),
            Err(error) => (
                DbAuthStage::Over,
                DbAuthAction::Done(Err(DbAuthFailure::Core(error))),
            ),
        },
        (DbAuthStage::Verifying(user, permit), DbAuthEvent::Verified(result)) => match result {
            AuthResult::Accepted { user_info } => (
                DbAuthStage::Minting(user, permit, user_info),
                DbAuthAction::ReadState,
            ),
            AuthResult::Need(kinds) => {
                if needs(&kinds, CredentialKind::Password) {
                    (DbAuthStage::Prompting(user, permit), DbAuthAction::PromptPassword)
                } else if needs(&kinds, CredentialKind::WebUserApproval) {
                    (DbAuthStage::Bypassing(user, permit), DbAuthAction::TryWebApprovalBypass)
                } else {
                    (DbAuthStage::Denying(None), DbAuthAction::SendDenied)
                }
            },
            AuthResult::Rejected => (
                DbAuthStage::Recording,
                DbAuthAction::RecordFailure(password_failure(login, user.username)),
            ),
        },
        (DbAuthStage::Minting(user, permit, user_info), DbAuthEvent::State(state)) => {
            match AuthorizedIdentity::from_auth_state(&state) {
                Some(identity) => {
                    let (attempt, asked): (TargetAttempt, TargetAction) =
                        authorize_for_target_or_ticket(identity, user.target_name.clone());
                    (
                        DbAuthStage::Authorizing(user, permit, user_info, attempt),
                        DbAuthAction::Target(asked),
                    )
                },
                None => (DbAuthStage::Denying(None), DbAuthAction::SendDenied),
            }
        },
        (
            DbAuthStage::Authorizing(user, permit, user_info, attempt),
            DbAuthEvent::Target(event),
        ) => {
            let (after, asked): (TargetAttempt, TargetAction) = attempt.step(event);
            assert(attempt.stepped(event, after.stage, asked));
            match asked {
                TargetAction::Done(Ok(Some(authorization))) => (
                    DbAuthStage::Remembering(permit, user_info, authorization),
                    DbAuthAction::ReadRememberedBy,
                ),
                TargetAction::Done(Ok(None)) => (
                    DbAuthStage::Recording,
                    DbAuthAction::RecordFailure(password_failure(login, user.username)),
                ),
                TargetAction::Done(Err(error)) => (
                    DbAuthStage::Over,
                    DbAuthAction::Done(Err(DbAuthFailure::Core(error))),
                ),
                TargetAction::Unexpected => (
                    DbAuthStage::Authorizing(user, permit, user_info, after),
                    DbAuthAction::Unexpected,
                ),
                asked => (
                    DbAuthStage::Authorizing(user, permit, user_info, after),
                    DbAuthAction::Target(asked),
                ),
            }
        },
        (
            DbAuthStage::Remembering(permit, user_info, authorization),
            DbAuthEvent::RememberedBy(credentials),
        ) => hold_for_admin_approval(login, Some(user_info), authorization, credentials, permit),
        (
            DbAuthStage::Gate(user, given, authorization),
            DbAuthEvent::AdminApproval(r, permit),
        ) => match r {
            Ok(true) => {
                let approved: ApprovedTarget<TargetOptions> = ApprovedTarget::new(authorization);
                match permit {
                    Some(permit) => {
                        if given {
                            (
                                DbAuthStage::SendingOk(user, approved),
                                DbAuthAction::SendAuthOk(permit),
                            )
                        } else {
                            finish(login, user, approved)
                        }
                    },
                    None => finish(login, user, approved),
                }
            },
            Ok(false) => (DbAuthStage::Denying(None), DbAuthAction::SendDenied),
            Err(failure) => (DbAuthStage::Over, DbAuthAction::Done(Err(failure))),
        },
        (DbAuthStage::SendingOk(user, approved), DbAuthEvent::Sent(r)) => match r {
            Ok(_) => finish(login, user, approved),
            Err(error) => (
                DbAuthStage::Over,
                DbAuthAction::Done(Err(DbAuthFailure::Transport(error))),
            ),
        },
        (DbAuthStage::Clearing(approved), DbAuthEvent::FailedAttemptsCleared) => (
            DbAuthStage::Over,
            DbAuthAction::Done(Ok(Some(approved))),
        ),
        (DbAuthStage::Prompting(user, permit), DbAuthEvent::Password(r)) => match r {
            Ok(Some(password)) => (
                DbAuthStage::Submitting(user, permit),
                DbAuthAction::SubmitPassword(password),
            ),
            Ok(None) => (DbAuthStage::Denying(None), DbAuthAction::SendDenied),
            Err(error) => (
                DbAuthStage::Over,
                DbAuthAction::Done(Err(DbAuthFailure::Transport(error))),
            ),
        },
        (DbAuthStage::Submitting(user, permit), DbAuthEvent::PasswordSubmitted(r)) => match r {
            Ok(true) => (DbAuthStage::Verifying(user, permit), DbAuthAction::Verify),
            Ok(false) => (
                DbAuthStage::Recording,
                DbAuthAction::RecordFailure(password_failure(login, user.username)),
            ),
            Err(error) => (
                DbAuthStage::Over,
                DbAuthAction::Done(Err(DbAuthFailure::Core(error))),
            ),
        },
        (DbAuthStage::Bypassing(user, permit), DbAuthEvent::WebApprovalBypass(r)) => match r {
            Ok(true) => (DbAuthStage::Verifying(user, permit), DbAuthAction::Verify),
            Ok(false) => {
                if login.supports_web_approval {
                    (DbAuthStage::Preparing(user, permit), DbAuthAction::PrepareWebApproval)
                } else {
                    (DbAuthStage::Denying(None), DbAuthAction::SendDenied)
                }
            },
            Err(error) => (
                DbAuthStage::Over,
                DbAuthAction::Done(Err(DbAuthFailure::Core(error))),
            ),
        },
        (DbAuthStage::Preparing(user, permit), DbAuthEvent::WebApproval(r)) => match r {
            Ok(prompt) => match permit {
                Some(permit) => (
                    DbAuthStage::SendingOkFirst(user, prompt),
                    DbAuthAction::SendAuthOk(permit),
                ),
                None => (
                    DbAuthStage::WebPrompting(user),
                    DbAuthAction::SendWebApprovalPrompt(prompt),
                ),
            },
            Err(error) => (
                DbAuthStage::Denying(Some(DbAuthFailure::Transport(error))),
                DbAuthAction::SendDenied,
            ),
        },
        (DbAuthStage::SendingOkFirst(user, prompt), DbAuthEvent::Sent(r)) => match r {
            Ok(_) => (
                DbAuthStage::WebPrompting(user),
                DbAuthAction::SendWebApprovalPrompt(prompt),
            ),
            Err(error) => (
                DbAuthStage::Over,
                DbAuthAction::Done(Err(DbAuthFailure::Transport(error))),
            ),
        },
        (DbAuthStage::WebPrompting(user), DbAuthEvent::Prompted(r)) => match r {
            Ok(true) => (DbAuthStage::Waiting(user), DbAuthAction::WaitForCompletion),
            Ok(false) => (DbAuthStage::Denying(None), DbAuthAction::SendDenied),
            Err(error) => (
                DbAuthStage::Over,
                DbAuthAction::Done(Err(DbAuthFailure::Transport(error))),
            ),
        },
        (DbAuthStage::Waiting(user), DbAuthEvent::Completed(result)) => match result {
            AuthResult::Accepted { user_info: _ } => (
                DbAuthStage::Verifying(user, None),
                DbAuthAction::Verify,
            ),
            _ => (DbAuthStage::Denying(None), DbAuthAction::SendDenied),
        },
        (DbAuthStage::Recording, DbAuthEvent::FailureRecorded) => (
            DbAuthStage::Denying(None),
            DbAuthAction::SendDenied,
        ),
        (DbAuthStage::Denying(failure), DbAuthEvent::Sent(r)) => match (r, failure) {
            (Err(error), _) => (
                DbAuthStage::Over,
                DbAuthAction::Done(Err(DbAuthFailure::Transport(error))),
            ),
            (Ok(_), Some(failure)) => (DbAuthStage::Over, DbAuthAction::Done(Err(failure))),
            (Ok(_), None) => (DbAuthStage::Over, DbAuthAction::Done(Ok(None))),
        },
        (stage, _) => (stage, DbAuthAction::Unexpected),
    }
}

} // verus!
