//! What a database login does with each answer that it gets, over two or more
//! of its steps.
use vstd::prelude::*;

use crate::config_providers::{AuthResult, AuthState, CredentialKind, TargetAuthorization};
use crate::db_auth::{
    run_db_authorization, AuthOkPermit, AuthSelector, DbAuthAction, DbAuthEvent, DbAuthFailure,
    DbAuthStage, DbAuthorization, DbLogin, LoginUser, RememberApprovalBy, WebApprovalPrompt,
};
use crate::db_auth_laws::Course;
use crate::db_target::{TargetAction, TargetAttempt, TargetEvent, TargetStage};
use crate::model::{Target, TargetOptions, WarpgateError};
use crate::ticket_laws::speaks;
use crate::tickets::{
    TicketAction, TicketEvent, TicketLogin, TicketLoginAction, TicketLoginEvent, TicketStage,
};

verus! {

/// A login asks about its address first. A blocked address is denied, ahead of
/// everything else; a failure to find out fails the login.
pub proof fn law_a_login_asks_about_its_address_first<E>(
    login: DbLogin,
    selector: AuthSelector,
    begun: (DbAuthorization<E>, DbAuthAction<E>),
    blocked: Result<bool, WarpgateError>,
    r: (DbAuthorization<E>, DbAuthAction<E>),
)
    requires
        call_ensures(run_db_authorization::<E>, (login, selector), begun),
        call_ensures(DbAuthorization::<E>::step, (begun.0, DbAuthEvent::IpBlocked(blocked)), r),
    ensures
        begun.0.login == login,
        begun.1 == DbAuthAction::<E>::CheckIpBlocked(login.remote_ip),
        match blocked {
            Ok(true) => r.1 is SendDenied,
            Ok(false) => match selector {
                AuthSelector::User { username, .. } => r.1 == DbAuthAction::<E>::CheckUserLocked(
                    username,
                ),
                AuthSelector::Ticket { .. } => r.1 matches DbAuthAction::Ticket(
                    TicketLoginAction::Check(asked),
                ) && asked == TicketAction::CheckIpBlocked(login.remote_ip),
            },
            Err(error) => r.1 == DbAuthAction::<E>::Done(Err(DbAuthFailure::Core(error))),
        },
{
    assert(r.1->Ticket_0->Check_0@ == r.1->Ticket_0->Check_0@);
}

/// An authentication is started for a user who is not locked, over the name, the
/// target, the session, the address and the protocol of the login, with a
/// password as the one credential that the protocol can collect; then the login
/// asks how far it has come. A locked user is denied.
pub proof fn law_an_unlocked_user_is_authenticated<E>(
    login: DbLogin,
    username: String,
    target_name: String,
    begun: (DbAuthorization<E>, DbAuthAction<E>),
    cleared: (DbAuthorization<E>, DbAuthAction<E>),
    locked: Result<bool, WarpgateError>,
    r: (DbAuthorization<E>, DbAuthAction<E>),
    created: Result<(), WarpgateError>,
    after: (DbAuthorization<E>, DbAuthAction<E>),
)
    requires
        call_ensures(
            run_db_authorization::<E>,
            (login, AuthSelector::User { username, target_name }),
            begun,
        ),
        call_ensures(
            DbAuthorization::<E>::step,
            (begun.0, DbAuthEvent::IpBlocked(Ok(false))),
            cleared,
        ),
        call_ensures(DbAuthorization::<E>::step, (cleared.0, DbAuthEvent::UserLocked(locked)), r),
        call_ensures(DbAuthorization::<E>::step, (r.0, DbAuthEvent::AuthStateCreated(created)), after),
    ensures
        match locked {
            Ok(true) => r.1 is SendDenied,
            Ok(false) => {
                &&& r.1 matches DbAuthAction::CreateAuthState(request)
                &&& request.session_id == login.session_id
                &&& request.username == username
                &&& request.target_name == target_name
                &&& request.protocol == login.protocol
                &&& request.supported is Password
                &&& request.remote_ip == login.remote_ip
                &&& match created {
                    Ok(_) => after.1 is Verify,
                    Err(error) => after.1 == DbAuthAction::<E>::Done(
                        Err(DbAuthFailure::Core(error)),
                    ),
                }
            },
            Err(error) => r.1 == DbAuthAction::<E>::Done(Err(DbAuthFailure::Core(error))),
        },
{
}

/// A password that the authentication needs is asked for first, whatever else it
/// needs too; a web approval is turned to only once no password is needed; a
/// need for anything else is denied, without counting as a failed attempt. An
/// accepted authentication is read, and a rejected one counts as failed.
pub proof fn law_a_needed_password_is_asked_for_first<E>(
    auth: DbAuthorization<E>,
    event: DbAuthEvent<E>,
    asked: (DbAuthorization<E>, DbAuthAction<E>),
    result: AuthResult,
    r: (DbAuthorization<E>, DbAuthAction<E>),
)
    requires
        call_ensures(DbAuthorization::<E>::step, (auth, event), asked),
        asked.1 is Verify,
        call_ensures(DbAuthorization::<E>::step, (asked.0, DbAuthEvent::Verified(result)), r),
    ensures
        match result {
            AuthResult::Accepted { .. } => r.1 is ReadState,
            AuthResult::Rejected => r.1 is RecordFailure,
            AuthResult::Need(kinds) => {
                &&& (exists|i: int| 0 <= i < kinds@.len() && #[trigger] kinds@[i] is Password)
                    ==> r.1 is PromptPassword
                &&& (forall|i: int| 0 <= i < kinds@.len() ==> !(#[trigger] kinds@[i] is Password))
                    && (exists|i: int|
                    0 <= i < kinds@.len() && #[trigger] kinds@[i] is WebUserApproval)
                    ==> r.1 is TryWebApprovalBypass
                &&& (forall|i: int|
                    0 <= i < kinds@.len() ==> !(#[trigger] kinds@[i] is Password)
                        && !(kinds@[i] is WebUserApproval)) ==> r.1 is SendDenied
            },
        },
{
    match result {
        AuthResult::Need(kinds) => {
            assert(kinds@.contains(CredentialKind::Password) <==> exists|i: int|
                0 <= i < kinds@.len() && #[trigger] kinds@[i] is Password);
            assert(kinds@.contains(CredentialKind::WebUserApproval) <==> exists|i: int|
                0 <= i < kinds@.len() && #[trigger] kinds@[i] is WebUserApproval);
        },
        _ => {},
    }
}

/// The password that the client gives is the one that is submitted. A valid one
/// sends the login back to ask how far it has come; a wrong one counts as a
/// failed attempt; a client that cannot be asked again is denied.
pub proof fn law_the_given_password_is_submitted<E>(
    auth: DbAuthorization<E>,
    event: DbAuthEvent<E>,
    asked: (DbAuthorization<E>, DbAuthAction<E>),
    given: Result<Option<String>, E>,
    submitted: (DbAuthorization<E>, DbAuthAction<E>),
    valid: Result<bool, WarpgateError>,
    r: (DbAuthorization<E>, DbAuthAction<E>),
)
    requires
        call_ensures(DbAuthorization::<E>::step, (auth, event), asked),
        asked.1 is PromptPassword,
        call_ensures(DbAuthorization::<E>::step, (asked.0, DbAuthEvent::Password(given)), submitted),
        call_ensures(
            DbAuthorization::<E>::step,
            (submitted.0, DbAuthEvent::PasswordSubmitted(valid)),
            r,
        ),
    ensures
        match given {
            Ok(Some(password)) => submitted.1 == DbAuthAction::<E>::SubmitPassword(password)
                && match valid {
                Ok(true) => r.1 is Verify,
                Ok(false) => r.1 is RecordFailure,
                Err(error) => r.1 == DbAuthAction::<E>::Done(Err(DbAuthFailure::Core(error))),
            },
            Ok(None) => submitted.1 is SendDenied,
            Err(error) => submitted.1 == DbAuthAction::<E>::Done(
                Err(DbAuthFailure::Transport(error)),
            ),
        },
{
}

/// An earlier web approval that counts sends the login back to ask how far it
/// has come. Otherwise the approval link is made, if the protocol can show one,
/// and the login is denied if it cannot.
pub proof fn law_a_web_approval_is_bypassed_or_prepared<E>(
    auth: DbAuthorization<E>,
    event: DbAuthEvent<E>,
    asked: (DbAuthorization<E>, DbAuthAction<E>),
    bypass: Result<bool, WarpgateError>,
    r: (DbAuthorization<E>, DbAuthAction<E>),
)
    requires
        call_ensures(DbAuthorization::<E>::step, (auth, event), asked),
        asked.1 is TryWebApprovalBypass,
        call_ensures(DbAuthorization::<E>::step, (asked.0, DbAuthEvent::WebApprovalBypass(bypass)), r),
    ensures
        match bypass {
            Ok(true) => r.1 is Verify,
            Ok(false) => if auth.login.supports_web_approval {
                r.1 is PrepareWebApproval
            } else {
                r.1 is SendDenied
            },
            Err(error) => r.1 == DbAuthAction::<E>::Done(Err(DbAuthFailure::Core(error))),
        },
{
}

/// The link that was made is the one that is shown: at once if the success
/// message is out already, and right behind that message otherwise. If no link
/// can be made, the client is denied and the login fails with the reason.
pub proof fn law_the_prepared_link_is_shown<E>(
    auth: DbAuthorization<E>,
    event: DbAuthEvent<E>,
    asked: (DbAuthorization<E>, DbAuthAction<E>),
    made: Result<WebApprovalPrompt, E>,
    prepared: (DbAuthorization<E>, DbAuthAction<E>),
    sent: Result<(), E>,
    r: (DbAuthorization<E>, DbAuthAction<E>),
)
    requires
        call_ensures(DbAuthorization::<E>::step, (auth, event), asked),
        asked.1 is PrepareWebApproval,
        call_ensures(DbAuthorization::<E>::step, (asked.0, DbAuthEvent::WebApproval(made)), prepared),
        call_ensures(DbAuthorization::<E>::step, (prepared.0, DbAuthEvent::Sent(sent)), r),
    ensures
        match made {
            Ok(prompt) => prepared.1 == DbAuthAction::<E>::SendWebApprovalPrompt(prompt) || (
            prepared.1 is SendAuthOk && match sent {
                Ok(_) => r.1 == DbAuthAction::<E>::SendWebApprovalPrompt(prompt),
                Err(error) => r.1 == DbAuthAction::<E>::Done(Err(DbAuthFailure::Transport(error))),
            }),
            Err(error) => prepared.1 is SendDenied && match sent {
                Ok(_) => r.1 == DbAuthAction::<E>::Done(Err(DbAuthFailure::Transport(error))),
                Err(other) => r.1 == DbAuthAction::<E>::Done(Err(DbAuthFailure::Transport(other))),
            },
        },
        (asked.0.stage matches DbAuthStage::Preparing(_, Some(permit))) && made is Ok
            ==> prepared.1 is SendAuthOk,
{
}

/// A prompt that is shown is waited for; one that cannot be is a denial. An
/// authentication that is then accepted elsewhere sends the login back to ask how
/// far it has come, and any other end of it is a denial.
pub proof fn law_a_shown_prompt_is_waited_for<E>(
    auth: DbAuthorization<E>,
    event: DbAuthEvent<E>,
    asked: (DbAuthorization<E>, DbAuthAction<E>),
    shown: Result<bool, E>,
    waiting: (DbAuthorization<E>, DbAuthAction<E>),
    result: AuthResult,
    r: (DbAuthorization<E>, DbAuthAction<E>),
)
    requires
        call_ensures(DbAuthorization::<E>::step, (auth, event), asked),
        asked.1 is SendWebApprovalPrompt,
        call_ensures(DbAuthorization::<E>::step, (asked.0, DbAuthEvent::Prompted(shown)), waiting),
        call_ensures(DbAuthorization::<E>::step, (waiting.0, DbAuthEvent::Completed(result)), r),
    ensures
        match shown {
            Ok(true) => waiting.1 is WaitForCompletion && if result is Accepted {
                r.1 is Verify
            } else {
                r.1 is SendDenied
            },
            Ok(false) => waiting.1 is SendDenied,
            Err(error) => waiting.1 == DbAuthAction::<E>::Done(
                Err(DbAuthFailure::Transport(error)),
            ),
        },
{
}

/// A failed attempt is counted, then the client is denied, then the login ends
/// without an approval: whether counting it succeeded does not matter, but a
/// client that cannot be told is a failure.
pub proof fn law_a_counted_failure_ends_in_a_denial<E>(
    auth: DbAuthorization<E>,
    event: DbAuthEvent<E>,
    asked: (DbAuthorization<E>, DbAuthAction<E>),
    counted: (DbAuthorization<E>, DbAuthAction<E>),
    sent: Result<(), E>,
    r: (DbAuthorization<E>, DbAuthAction<E>),
)
    requires
        call_ensures(DbAuthorization::<E>::step, (auth, event), asked),
        asked.1 is RecordFailure,
        call_ensures(DbAuthorization::<E>::step, (asked.0, DbAuthEvent::FailureRecorded), counted),
        call_ensures(DbAuthorization::<E>::step, (counted.0, DbAuthEvent::Sent(sent)), r),
    ensures
        counted.1 is SendDenied,
        match sent {
            Ok(_) => r.1 == DbAuthAction::<E>::Done(Ok(None)),
            Err(error) => r.1 == DbAuthAction::<E>::Done(Err(DbAuthFailure::Transport(error))),
        },
{
}

/// The user of a login, and the target that was asked for, once the address is
/// cleared and until a target is granted.
pub open spec fn user_of<E>(stage: DbAuthStage<E>) -> Option<LoginUser> {
    match stage {
        DbAuthStage::CheckingIp(AuthSelector::User { username, target_name }) => Some(
            LoginUser { username, target_name },
        ),
        DbAuthStage::CheckingUser(user) => Some(user),
        DbAuthStage::Creating(user) => Some(user),
        DbAuthStage::Verifying(user, _) => Some(user),
        DbAuthStage::Minting(user, _, _) => Some(user),
        DbAuthStage::Authorizing(user, _, _, _) => Some(user),
        DbAuthStage::Prompting(user, _) => Some(user),
        DbAuthStage::Submitting(user, _) => Some(user),
        DbAuthStage::Bypassing(user, _) => Some(user),
        DbAuthStage::Preparing(user, _) => Some(user),
        DbAuthStage::SendingOkFirst(user, _) => Some(user),
        DbAuthStage::WebPrompting(user) => Some(user),
        DbAuthStage::Waiting(user) => Some(user),
        _ => None,
    }
}

/// A login is about the user and the target that it began with, all the way: a
/// failed attempt counts against that user, at the address and under the protocol
/// of the login, and the target that is looked up is the one that was asked for.
pub proof fn law_a_login_keeps_to_its_user<E>(
    auth: DbAuthorization<E>,
    event: DbAuthEvent<E>,
    r: (DbAuthorization<E>, DbAuthAction<E>),
)
    requires
        call_ensures(DbAuthorization::<E>::step, (auth, event), r),
    ensures
        r.0.login == auth.login,
        user_of(r.0.stage) is Some ==> user_of(r.0.stage) == user_of(auth.stage),
        r.1 matches DbAuthAction::RecordFailure(info) ==> user_of(auth.stage) is Some
            && info.username == user_of(auth.stage)->0.username && info.remote_ip
            == auth.login.remote_ip && info.protocol == auth.login.protocol,
        r.1 matches DbAuthAction::Target(TargetAction::FindTarget(name)) ==> user_of(
            auth.stage,
        ) is Some && name@ == user_of(auth.stage)->0.target_name@,
{
    match (auth.stage, event) {
        (DbAuthStage::Authorizing(_, _, _, attempt), DbAuthEvent::Target(answer)) => {},
        _ => {},
    }
}

/// An authentication that reads as accepted is authorized for its target, and
/// one that does not is denied. The identity that is authorized is the accepted
/// one, and the user who is let in later is the one that was verified.
pub proof fn law_an_accepted_user_is_authorized_for_the_target<E>(
    auth: DbAuthorization<E>,
    event: DbAuthEvent<E>,
    asked: (DbAuthorization<E>, DbAuthAction<E>),
    state: AuthState,
    r: (DbAuthorization<E>, DbAuthAction<E>),
)
    requires
        call_ensures(DbAuthorization::<E>::step, (auth, event), asked),
        asked.1 is ReadState,
        call_ensures(DbAuthorization::<E>::step, (asked.0, DbAuthEvent::State(state)), r),
    ensures
        match state.result {
            AuthResult::Accepted { user_info } => {
                &&& r.1 matches DbAuthAction::Target(TargetAction::FindTarget(_))
                &&& r.0.stage matches DbAuthStage::Authorizing(_, _, info, attempt)
                &&& attempt.identity.user() == user_info
                &&& attempt.identity.over() == state.protocol
                &&& event matches DbAuthEvent::Verified(AuthResult::Accepted { user_info: first })
                &&& info == first
            },
            _ => r.1 is SendDenied,
        },
{
}

/// A user with a role for the target is asked about for the credentials that an
/// approval would be remembered by; one without a role is asked about for tickets
/// if the target speaks the protocol of the identity, and otherwise a failed
/// attempt is counted.
pub proof fn law_a_role_leads_to_the_gate<E>(
    auth: DbAuthorization<E>,
    role: Result<bool, WarpgateError>,
    r: (DbAuthorization<E>, DbAuthAction<E>),
    target: Target,
)
    requires
        auth.stage matches DbAuthStage::Authorizing(_, _, _, attempt) && attempt.stage
            == TargetStage::Role(target),
        call_ensures(
            DbAuthorization::<E>::step,
            (auth, DbAuthEvent::Target(TargetEvent::Role(role))),
            r,
        ),
    ensures
        auth.stage matches DbAuthStage::Authorizing(_, permit, info, attempt) && match role {
            Ok(true) => {
                &&& r.1 is ReadRememberedBy
                &&& r.0.stage matches DbAuthStage::Remembering(kept, who, authorization)
                &&& kept == permit
                &&& who == info
                &&& authorization@.user == attempt.identity.user()
                &&& authorization@.protocol == attempt.identity.over()
                &&& authorization@.target.target == target
                &&& authorization@.target.options == target.options
                &&& authorization@.ticket is None
            },
            Ok(false) => if speaks(target, attempt.identity.over()) {
                r.1 == DbAuthAction::<E>::Target(
                    TargetAction::ListTickets {
                        user_id: attempt.identity.user().id,
                        target_id: target.id,
                    },
                )
            } else {
                r.1 is RecordFailure
            },
            Err(error) => r.1 == DbAuthAction::<E>::Done(Err(DbAuthFailure::Core(error))),
        },
{
}

/// The target that is found is asked about for a role; a target that is not there
/// counts as a failed attempt.
pub proof fn law_a_found_target_is_asked_about<E>(
    auth: DbAuthorization<E>,
    found: Result<Option<Target>, WarpgateError>,
    r: (DbAuthorization<E>, DbAuthAction<E>),
)
    requires
        auth.stage matches DbAuthStage::Authorizing(_, _, _, attempt) && attempt.stage is Lookup,
        call_ensures(
            DbAuthorization::<E>::step,
            (auth, DbAuthEvent::Target(TargetEvent::Target(found))),
            r,
        ),
    ensures
        auth.stage matches DbAuthStage::Authorizing(_, _, _, attempt) && match found {
            Ok(Some(target)) => r.1 == DbAuthAction::<E>::Target(
                TargetAction::AskRole {
                    user_id: attempt.identity.user().id,
                    target_id: target.id,
                },
            ) && (r.0.stage matches DbAuthStage::Authorizing(_, _, _, next) && next.stage
                == TargetStage::Role(target) && next.identity == attempt.identity),
            Ok(None) => r.1 is RecordFailure,
            Err(error) => r.1 == DbAuthAction::<E>::Done(Err(DbAuthFailure::Core(error))),
        },
{
}

/// An authorized connection is held for an administrator, from the address of
/// the login, with the credentials that an approval would be remembered by and
/// with the permit for the success message, if it is still there.
pub proof fn law_an_authorized_connection_is_held<E>(
    auth: DbAuthorization<E>,
    credentials: RememberApprovalBy,
    r: (DbAuthorization<E>, DbAuthAction<E>),
)
    requires
        auth.stage is Remembering,
        call_ensures(DbAuthorization::<E>::step, (auth, DbAuthEvent::RememberedBy(credentials)), r),
    ensures
        auth.stage matches DbAuthStage::Remembering(permit, user, authorization) && {
            &&& r.1 matches DbAuthAction::RequireAdminApproval(connection, given)
            &&& connection.remote_ip == Some(auth.login.remote_ip)
            &&& connection.credentials == credentials
            &&& given == permit
            &&& r.0.stage matches DbAuthStage::Gate(who, _, held)
            &&& who == Some(user)
            &&& held@ == authorization@
        },
{
}

/// A connection that the administrator lets through is approved, for the very
/// target that it was held for: first the success message is sent, if the permit
/// came back, then the failed attempts from the address and of the user are
/// forgotten, unless a ticket was used, and then the login ends approved.
pub proof fn law_a_connection_let_through_is_approved<E>(
    auth: DbAuthorization<E>,
    event: DbAuthEvent<E>,
    asked: (DbAuthorization<E>, DbAuthAction<E>),
    permit: Option<AuthOkPermit>,
    passed: (DbAuthorization<E>, DbAuthAction<E>),
    sent: (DbAuthorization<E>, DbAuthAction<E>),
    cleared: (DbAuthorization<E>, DbAuthAction<E>),
)
    requires
        call_ensures(DbAuthorization::<E>::step, (auth, event), asked),
        asked.1 matches DbAuthAction::RequireAdminApproval(_, Some(_)),
        call_ensures(
            DbAuthorization::<E>::step,
            (asked.0, DbAuthEvent::AdminApproval(Ok(true), permit)),
            passed,
        ),
        call_ensures(DbAuthorization::<E>::step, (passed.0, DbAuthEvent::Sent(Ok(()))), sent),
        permit is Some ==> call_ensures(
            DbAuthorization::<E>::step,
            (sent.0, DbAuthEvent::FailedAttemptsCleared),
            cleared,
        ),
        permit is None ==> call_ensures(
            DbAuthorization::<E>::step,
            (passed.0, DbAuthEvent::FailedAttemptsCleared),
            cleared,
        ),
    ensures
        asked.0.stage matches DbAuthStage::Gate(user, _, held) && {
            &&& permit matches Some(permit) ==> passed.1 == DbAuthAction::<E>::SendAuthOk(permit)
            &&& match user {
                Some(user) => {
                    let clears = if permit is Some {
                        sent.1
                    } else {
                        passed.1
                    };
                    &&& clears == DbAuthAction::<E>::ClearFailedAttempts(
                        auth.login.remote_ip,
                        user.username,
                    )
                    &&& cleared.1 matches DbAuthAction::Done(Ok(Some(approved)))
                    &&& approved@ == held@
                },
                None => {
                    let ends = if permit is Some {
                        sent.1
                    } else {
                        passed.1
                    };
                    &&& ends matches DbAuthAction::Done(Ok(Some(approved)))
                    &&& approved@ == held@
                },
            }
        },
{
}

/// A connection that is held without the permit is approved without a further
/// success message.
pub proof fn law_the_gate_without_a_permit<E>(
    auth: DbAuthorization<E>,
    event: DbAuthEvent<E>,
    asked: (DbAuthorization<E>, DbAuthAction<E>),
    permit: Option<AuthOkPermit>,
    passed: (DbAuthorization<E>, DbAuthAction<E>),
)
    requires
        call_ensures(DbAuthorization::<E>::step, (auth, event), asked),
        asked.1 matches DbAuthAction::RequireAdminApproval(_, None),
        call_ensures(
            DbAuthorization::<E>::step,
            (asked.0, DbAuthEvent::AdminApproval(Ok(true), permit)),
            passed,
        ),
    ensures
        asked.0.stage matches DbAuthStage::Gate(user, _, held) && match user {
            Some(user) => passed.1 == DbAuthAction::<E>::ClearFailedAttempts(
                auth.login.remote_ip,
                user.username,
            ),
            None => passed.1 matches DbAuthAction::Done(Ok(Some(approved))) && approved@ == held@,
        },
{
}

/// A connection that the administrator refuses is denied, and a gate that fails
/// fails the login with its reason.
pub proof fn law_a_refused_connection_is_denied<E>(
    auth: DbAuthorization<E>,
    event: DbAuthEvent<E>,
    asked: (DbAuthorization<E>, DbAuthAction<E>),
    permit: Option<AuthOkPermit>,
    refused: (DbAuthorization<E>, DbAuthAction<E>),
    failure: DbAuthFailure<E>,
    failed: (DbAuthorization<E>, DbAuthAction<E>),
)
    requires
        call_ensures(DbAuthorization::<E>::step, (auth, event), asked),
        asked.1 is RequireAdminApproval,
        call_ensures(
            DbAuthorization::<E>::step,
            (asked.0, DbAuthEvent::AdminApproval(Ok(false), permit)),
            refused,
        ),
        call_ensures(
            DbAuthorization::<E>::step,
            (asked.0, DbAuthEvent::AdminApproval(Err(failure), permit)),
            failed,
        ),
    ensures
        refused.1 is SendDenied,
        failed.1 == DbAuthAction::<E>::Done(Err(failure)),
{
}

/// A denied client is told, and then the login ends without an approval, unless
/// it was denied because of a failure, or cannot be told.
pub proof fn law_a_denial_ends_the_login<E>(
    auth: DbAuthorization<E>,
    event: DbAuthEvent<E>,
    asked: (DbAuthorization<E>, DbAuthAction<E>),
    sent: Result<(), E>,
    r: (DbAuthorization<E>, DbAuthAction<E>),
)
    requires
        call_ensures(DbAuthorization::<E>::step, (auth, event), asked),
        asked.1 is SendDenied,
        call_ensures(DbAuthorization::<E>::step, (asked.0, DbAuthEvent::Sent(sent)), r),
    ensures
        match sent {
            Err(error) => r.1 == DbAuthAction::<E>::Done(Err(DbAuthFailure::Transport(error))),
            Ok(_) => match event {
                DbAuthEvent::WebApproval(Err(error)) => r.1 == DbAuthAction::<E>::Done(
                    Err(DbAuthFailure::Transport(error)),
                ),
                _ => r.1 == DbAuthAction::<E>::Done(Ok(None)),
            },
        },
{
}

/// A ticket that is good holds the connection for an administrator, remembered
/// by nothing and with the permit; one that is not is denied, and is not counted
/// as a failed attempt.
pub proof fn law_a_ticket_login_is_held_or_denied<E>(
    auth: DbAuthorization<E>,
    spent: Result<(), WarpgateError>,
    r: (DbAuthorization<E>, DbAuthAction<E>),
)
    requires
        auth.stage matches DbAuthStage::Ticket(TicketLogin::Spending(_)),
        call_ensures(
            DbAuthorization::<E>::step,
            (auth, DbAuthEvent::Ticket(TicketLoginEvent::Spent(spent))),
            r,
        ),
    ensures
        auth.stage matches DbAuthStage::Ticket(TicketLogin::Spending(ticket)) && match spent {
            Ok(_) => {
                &&& r.1 matches DbAuthAction::RequireAdminApproval(connection, permit)
                &&& connection.remote_ip == Some(auth.login.remote_ip)
                &&& connection.credentials is Nothing
                &&& permit is Some
                &&& r.0.stage matches DbAuthStage::Gate(user, _, held)
                &&& user is None
                &&& held@ == ticket@
            },
            Err(WarpgateError::InvalidTicket(_)) => r.1 is SendDenied,
            Err(error) => r.1 == DbAuthAction::<E>::Done(Err(DbAuthFailure::Core(error))),
        },
{
}

/// The target of a ticket login decides whether a use is spent: one that is
/// stored and speaks the protocol of the login leads to spending a use of the
/// ticket, and another one to a denial.
pub proof fn law_a_ticket_logins_target_decides<E>(
    auth: DbAuthorization<E>,
    found: Option<Target>,
    r: (DbAuthorization<E>, DbAuthAction<E>),
)
    requires
        auth.stage matches DbAuthStage::Ticket(TicketLogin::Checking(check)) && (
        check.stage is Target),
        call_ensures(
            DbAuthorization::<E>::step,
            (auth, DbAuthEvent::Ticket(TicketLoginEvent::Check(TicketEvent::Target(Ok(found))))),
            r,
        ),
    ensures
        auth.stage matches DbAuthStage::Ticket(TicketLogin::Checking(check))
            && check.stage matches TicketStage::Target(ticket, user) && match found {
            Some(target) if speaks(target, check.protocol) => {
                &&& r.1 == DbAuthAction::<E>::Ticket(TicketLoginAction::Spend(ticket.id))
                &&& r.0.stage matches DbAuthStage::Ticket(TicketLogin::Spending(valid))
                &&& valid@.user == user
                &&& valid@.target.target == target
                &&& valid@.protocol == check.protocol
            },
            _ => r.1 is SendDenied,
        },
{
}

/// The last answer to how far the authentication has come, before step `n`.
pub open spec fn last_verified<E>(course: Course<E>, n: int) -> Option<AuthResult>
    decreases n,
{
    if n <= 0 {
        None
    } else {
        match (course.stages[n - 1], course.events[n - 1]) {
            (DbAuthStage::Verifying(_, _), DbAuthEvent::Verified(result)) => Some(result),
            _ => last_verified(course, n - 1),
        }
    }
}

/// The last verification asked for no password.
pub open spec fn no_password_needed(last: Option<AuthResult>) -> bool {
    last matches Some(AuthResult::Need(kinds)) ==> forall|i: int|
        0 <= i < kinds@.len() ==> !(#[trigger] kinds@[i] is Password)
}

/// The stages past a verification that did not ask for a password.
pub open spec fn past_password<E>(stage: DbAuthStage<E>) -> bool {
    match stage {
        DbAuthStage::Minting(_, _, _) | DbAuthStage::Authorizing(_, _, _, _) => true,
        DbAuthStage::Remembering(_, _, _) | DbAuthStage::Gate(_, _, _) => true,
        DbAuthStage::SendingOk(_, _) | DbAuthStage::Clearing(_) => true,
        DbAuthStage::Bypassing(_, _) | DbAuthStage::Preparing(_, _) => true,
        DbAuthStage::SendingOkFirst(_, _) | DbAuthStage::WebPrompting(_) => true,
        DbAuthStage::Waiting(_) => true,
        _ => false,
    }
}

proof fn lemma_past_password<E>(course: Course<E>, n: int)
    requires
        course.is_login(),
        0 <= n <= course.events.len(),
    ensures
        past_password(course.stages[n]) ==> no_password_needed(last_verified(course, n)),
        course.stages[n] is CheckingIp || course.stages[n] is Ticket || course.stages[
            n
        ] is CheckingUser || course.stages[n] is Creating ==> last_verified(course, n) is None,
    decreases n,
{
    if n > 0 {
        lemma_past_password(course, n - 1);
        assert(course.step_ok(n - 1));
        match (course.stages[n - 1], course.events[n - 1]) {
            (DbAuthStage::Verifying(_, _), DbAuthEvent::Verified(AuthResult::Need(kinds))) => {
                assert(kinds@.contains(CredentialKind::Password) <==> exists|i: int|
                    0 <= i < kinds@.len() && #[trigger] kinds@[i] is Password);
            },
            _ => {},
        }
    }
}

/// While the last verification still asked for a password, no success message
/// and no web approval prompt is sent, nothing is asked of a target or of an
/// administrator, and the login is not approved.
pub proof fn law_nothing_is_given_while_a_password_is_needed<E>(course: Course<E>, i: int)
    requires
        course.is_login(),
        0 <= i < course.events.len(),
        course.actions[i] is SendAuthOk || course.actions[i] is SendWebApprovalPrompt
            || course.actions[i] is TryWebApprovalBypass || course.actions[i] is Target
            || course.actions[i] is RequireAdminApproval || (
        course.actions[i] matches DbAuthAction::Done(Ok(Some(_)))),
    ensures
        no_password_needed(last_verified(course, i + 1)),
{
    lemma_past_password(course, i);
    lemma_past_password(course, i + 1);
    assert(course.step_ok(i));
}

/// A login asks what the authorization for its target asks, word for word; an
/// authorization takes it on to the administrator, with that authorization; a
/// target that the user may not reach counts as a failed attempt; and a failure
/// fails it.
pub proof fn law_a_login_follows_the_authorization_for_its_target<E>(
    auth: DbAuthorization<E>,
    event: TargetEvent,
    asked: (TargetAttempt, TargetAction),
    r: (DbAuthorization<E>, DbAuthAction<E>),
)
    requires
        auth.stage is Authorizing,
        call_ensures(TargetAttempt::step, (auth.stage->Authorizing_3, event), asked),
        call_ensures(DbAuthorization::<E>::step, (auth, DbAuthEvent::Target(event)), r),
    ensures
        match asked.1 {
            TargetAction::Spend(id) => r.1 == DbAuthAction::<E>::Target(TargetAction::Spend(id)),
            TargetAction::AskRole { user_id, target_id } => r.1 == DbAuthAction::<E>::Target(
                TargetAction::AskRole { user_id, target_id },
            ),
            TargetAction::ListTickets { user_id, target_id } => r.1 == DbAuthAction::<E>::Target(
                TargetAction::ListTickets { user_id, target_id },
            ),
            TargetAction::Done(Ok(Some(authorization))) => r.1 is ReadRememberedBy && (
            r.0.stage matches DbAuthStage::Remembering(_, _, kept) && kept@ == authorization@),
            TargetAction::Done(Ok(None)) => r.1 is RecordFailure,
            TargetAction::Done(Err(error)) => r.1 == DbAuthAction::<E>::Done(
                Err(DbAuthFailure::Core(error)),
            ),
            _ => true,
        },
{
}

/// A login with a ticket asks what the check of the ticket asks; a ticket that is
/// spent takes it on to the administrator; a refused one is denied, and is not
/// counted as a failed attempt; and a failure fails it.
pub proof fn law_a_login_follows_its_ticket<E>(
    auth: DbAuthorization<E>,
    event: TicketLoginEvent,
    asked: (TicketLogin, TicketLoginAction),
    r: (DbAuthorization<E>, DbAuthAction<E>),
)
    requires
        auth.stage is Ticket,
        call_ensures(TicketLogin::step, (auth.stage->Ticket_0, event), asked),
        call_ensures(DbAuthorization::<E>::step, (auth, DbAuthEvent::Ticket(event)), r),
    ensures
        match asked.1 {
            TicketLoginAction::Spend(id) => r.1 == DbAuthAction::<E>::Ticket(
                TicketLoginAction::Spend(id),
            ),
            TicketLoginAction::Check(question) => r.1 matches DbAuthAction::Ticket(
                TicketLoginAction::Check(put),
            ) && put@ == question@,
            TicketLoginAction::Done(Ok(Some(authorization))) => {
                &&& r.1 matches DbAuthAction::RequireAdminApproval(connection, permit)
                &&& connection.remote_ip == Some(auth.login.remote_ip)
                &&& connection.credentials is Nothing
                &&& permit is Some
                &&& r.0.stage matches DbAuthStage::Gate(user, _, held)
                &&& user is None
                &&& held@ == authorization@
            },
            TicketLoginAction::Done(Ok(None)) => r.1 is SendDenied,
            TicketLoginAction::Done(Err(_)) => r.1 matches DbAuthAction::Done(
                Err(DbAuthFailure::Core(_)),
            ),
            TicketLoginAction::Unexpected => true,
        },
{
    assert(asked.1->Check_0@ == asked.1->Check_0@);
}

/// A login with a ticket looks its own secret up, under its own address and
/// protocol.
pub proof fn law_a_ticket_login_looks_its_secret_up<E>(
    login: DbLogin,
    secret: String,
    begun: (DbAuthorization<E>, DbAuthAction<E>),
    cleared: (DbAuthorization<E>, DbAuthAction<E>),
    asked: (DbAuthorization<E>, DbAuthAction<E>),
)
    requires
        call_ensures(
            run_db_authorization::<E>,
            (login, AuthSelector::Ticket { secret }),
            begun,
        ),
        call_ensures(
            DbAuthorization::<E>::step,
            (begun.0, DbAuthEvent::IpBlocked(Ok(false))),
            cleared,
        ),
        call_ensures(
            DbAuthorization::<E>::step,
            (
                cleared.0,
                DbAuthEvent::Ticket(TicketLoginEvent::Check(TicketEvent::IpBlocked(Ok(false)))),
            ),
            asked,
        ),
    ensures
        asked.1 matches DbAuthAction::Ticket(TicketLoginAction::Check(question)) && (
        question matches TicketAction::FindTicket(text) && text@ == secret@),
        asked.0.stage matches DbAuthStage::Ticket(TicketLogin::Checking(check)) && check.remote_ip
            == Some(login.remote_ip) && check.protocol == login.protocol,
{
    assert(asked.1->Ticket_0->Check_0@ == asked.1->Ticket_0->Check_0@);
}

/// A login holds an authorization exactly while an administrator is asked about
/// it, and it is that one.
pub proof fn law_what_a_login_holds<E>(
    auth: DbAuthorization<E>,
    held: Option<&TargetAuthorization<TargetOptions>>,
)
    requires
        call_ensures(DbAuthorization::<E>::held, (&auth,), held),
    ensures
        match auth.stage {
            DbAuthStage::Gate(_, _, authorization) => held matches Some(kept) && kept@
                == authorization@,
            _ => held is None,
        },
{
}

/// The success message is sent with the permit that the login got, which it
/// keeps through the password and the web approval until it is sent.
pub proof fn law_the_permit_is_kept_until_it_is_used<E>(
    auth: DbAuthorization<E>,
    event: DbAuthEvent<E>,
    r: (DbAuthorization<E>, DbAuthAction<E>),
)
    requires
        call_ensures(DbAuthorization::<E>::step, (auth, event), r),
    ensures
        permit_of(auth.stage) is Some && permit_of(r.0.stage) is Some ==> permit_of(r.0.stage)
            == permit_of(auth.stage),
        permit_of(auth.stage) is Some && r.0.stage is Remembering ==> Some(
            r.0.stage->Remembering_0,
        ) == permit_of(auth.stage),
        auth.stage is Creating && r.1 is Verify ==> permit_of(r.0.stage) matches Some(Some(_)),
        auth.stage is Waiting && r.1 is Verify ==> permit_of(r.0.stage) == Some(
            None::<AuthOkPermit>,
        ),
{
}

/// The permit that a login at this stage has, or has used up.
pub open spec fn permit_of<E>(stage: DbAuthStage<E>) -> Option<Option<AuthOkPermit>> {
    match stage {
        DbAuthStage::Verifying(_, permit) => Some(permit),
        DbAuthStage::Minting(_, permit, _) => Some(permit),
        DbAuthStage::Authorizing(_, permit, _, _) => Some(permit),
        DbAuthStage::Prompting(_, permit) => Some(permit),
        DbAuthStage::Submitting(_, permit) => Some(permit),
        DbAuthStage::Bypassing(_, permit) => Some(permit),
        DbAuthStage::Preparing(_, permit) => Some(permit),
        _ => None,
    }
}

/// An answer to a question that was not asked changes nothing.
pub proof fn law_an_unasked_answer_changes_nothing<E>(
    auth: DbAuthorization<E>,
    event: DbAuthEvent<E>,
    r: (DbAuthorization<E>, DbAuthAction<E>),
)
    requires
        call_ensures(DbAuthorization::<E>::step, (auth, event), r),
        r.1 is Unexpected,
        !(auth.stage is Ticket),
        !(auth.stage is Authorizing),
    ensures
        r.0.stage == auth.stage,
{
}

/// A success message that cannot be sent fails the login, with what failed, and
/// nothing is given.
pub proof fn law_a_success_that_cannot_be_sent_fails_the_login<E>(
    auth: DbAuthorization<E>,
    event: DbAuthEvent<E>,
    sent: (DbAuthorization<E>, DbAuthAction<E>),
    error: E,
    r: (DbAuthorization<E>, DbAuthAction<E>),
)
    requires
        call_ensures(DbAuthorization::<E>::step, (auth, event), sent),
        sent.1 is SendAuthOk,
        call_ensures(DbAuthorization::<E>::step, (sent.0, DbAuthEvent::Sent(Err(error))), r),
    ensures
        r.1 == DbAuthAction::<E>::Done(Err(DbAuthFailure::Transport(error))),
{
}

/// A login is authenticated, and counted where it fails, as one by password.
pub proof fn law_a_login_is_by_password<E>(
    auth: DbAuthorization<E>,
    event: DbAuthEvent<E>,
    r: (DbAuthorization<E>, DbAuthAction<E>),
)
    requires
        call_ensures(DbAuthorization::<E>::step, (auth, event), r),
    ensures
        r.1 matches DbAuthAction::CreateAuthState(request) ==> request.supported
            == CredentialKind::Password && request.credential_type@ == "password"@,
        r.1 matches DbAuthAction::RecordFailure(info) ==> info.credential_type@ == "password"@,
{
}

} // verus!
