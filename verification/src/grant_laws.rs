//! What the functions that grant targets promise of their results, whoever
//! calls them: by a role, by a ticket of the user's, and as one protocol sees
//! the target.
use vstd::prelude::*;

use crate::config_providers::{
    active, active_self_service_tickets, authorize_for_target, authorize_for_target_by_name,
    has_active_self_service_ticket, is_active, ApprovedTarget, AuthResult, AuthState,
    AuthorizedIdentity, ByName, SpecificTarget, TargetAuthorization,
};
use crate::db_target::{
    authorize_for_target_or_ticket, TargetAction, TargetAttempt, TargetEvent, TargetStage,
};
use crate::model::{
    AuthStateUserInfo, Protocol, Target, TargetHTTPOptions, TargetKubernetesOptions,
    TargetMySqlOptions, TargetOptions, TargetPostgresOptions, TargetSSHOptions, Ticket, Timestamp,
    WarpgateError,
};
use crate::ticket_store::lemma_bounded_contains;
use crate::tickets::{
    authorize_active_self_service_ticket, bounded, grant_active_self_service_ticket,
    law_only_active_tickets_are_spent, unlimited, GrantAction, TicketGrant,
};

verus! {

proof fn lemma_active_has(
    tickets: Seq<Ticket>,
    user_id: u128,
    target_id: u128,
    now: Timestamp,
    i: int,
)
    requires
        0 <= i < tickets.len(),
        is_active(tickets[i], user_id, target_id, now),
    ensures
        active(tickets, user_id, target_id, now).contains(tickets[i]),
{
    let pred = |ticket: Ticket| is_active(ticket, user_id, target_id, now);
    tickets.lemma_filter_contains(pred, i);
}

proof fn lemma_active_is_from(
    tickets: Seq<Ticket>,
    user_id: u128,
    target_id: u128,
    now: Timestamp,
    k: int,
)
    requires
        0 <= k < active(tickets, user_id, target_id, now).len(),
    ensures
        is_active(active(tickets, user_id, target_id, now)[k], user_id, target_id, now),
        tickets.contains(active(tickets, user_id, target_id, now)[k]),
{
    let pred = |ticket: Ticket| is_active(ticket, user_id, target_id, now);
    let kept = active(tickets, user_id, target_id, now);
    tickets.lemma_filter_pred(pred, k);
    assert(kept.contains(kept[k]));
    tickets.lemma_filter_contains_rev(pred, kept[k]);
}

proof fn lemma_unlimited_is_from(candidates: Seq<Ticket>)
    ensures
        unlimited(candidates) matches Some(id) ==> exists|c: int|
            0 <= c < candidates.len() && (#[trigger] candidates[c]).id == id
                && candidates[c].uses_left is None,
        unlimited(candidates) is None ==> forall|c: int|
            0 <= c < candidates.len() ==> (#[trigger] candidates[c]).uses_left is Some,
    decreases candidates.len(),
{
    if candidates.len() > 0 {
        let init = candidates.drop_last();
        lemma_unlimited_is_from(init);
        match unlimited(init) {
            Some(id) => {
                let c = choose|c: int|
                    0 <= c < init.len() && (#[trigger] init[c]).id == id && init[c].uses_left is None;
                assert(candidates[c] == init[c]);
            },
            None => {
                assert(candidates[candidates.len() - 1] == candidates.last());
                assert forall|c: int|
                    0 <= c < init.len() implies (#[trigger] candidates[c]).uses_left is Some by {
                    assert(candidates[c] == init[c]);
                }
            },
        }
    }
}

/// A stored ticket of the user for the target that the user asked for, that
/// has no limit on its uses, and whose expiry, if it has one, lies after now
/// grants access at once. The ticket that is named is such a one, and nothing
/// is spent.
pub proof fn law_an_unlimited_ticket_grants_at_once(
    tickets: Vec<Ticket>,
    user_id: u128,
    target_id: u128,
    now: Timestamp,
    r: (TicketGrant, GrantAction),
    i: int,
)
    requires
        call_ensures(grant_active_self_service_ticket, (&tickets, user_id, target_id, now), r),
        0 <= i < tickets@.len(),
        tickets@[i].user_id == user_id,
        tickets@[i].target_id == target_id,
        tickets@[i].self_service,
        tickets@[i].expiry is None || tickets@[i].expiry->0.nanos > now.nanos,
        tickets@[i].uses_left is None,
    ensures
        r.1 matches GrantAction::Done(Ok(Some(id))) && exists|j: int|
            0 <= j < tickets@.len() && (#[trigger] tickets@[j]).id == id && tickets@[j].user_id
                == user_id && tickets@[j].target_id == target_id && tickets@[j].self_service && (
            tickets@[j].expiry is None || tickets@[j].expiry->0.nanos > now.nanos)
                && tickets@[j].uses_left is None,
{
    let candidates = active(tickets@, user_id, target_id, now);
    lemma_active_has(tickets@, user_id, target_id, now, i);
    lemma_unlimited_is_from(candidates);
    let k = choose|k: int| 0 <= k < candidates.len() && candidates[k] == tickets@[i];
    assert(candidates[k].uses_left is None);
    let id = unlimited(candidates)->0;
    let c = choose|c: int|
        0 <= c < candidates.len() && (#[trigger] candidates[c]).id == id
            && candidates[c].uses_left is None;
    lemma_active_is_from(tickets@, user_id, target_id, now, c);
    let j = choose|j: int| 0 <= j < tickets@.len() && tickets@[j] == candidates[c];
    assert(tickets@[j].id == id);
}

/// A stored ticket of the user for the target that the user asked for, that
/// has a use left, and whose expiry, if it has one, lies after now is tried
/// before access is denied: it is on the list, unless a ticket grants access at
/// once.
pub proof fn law_a_ticket_with_a_use_left_is_tried(
    tickets: Vec<Ticket>,
    user_id: u128,
    target_id: u128,
    now: Timestamp,
    r: (TicketGrant, GrantAction),
    i: int,
)
    requires
        call_ensures(grant_active_self_service_ticket, (&tickets, user_id, target_id, now), r),
        0 <= i < tickets@.len(),
        tickets@[i].user_id == user_id,
        tickets@[i].target_id == target_id,
        tickets@[i].self_service,
        tickets@[i].expiry is None || tickets@[i].expiry->0.nanos > now.nanos,
        tickets@[i].uses_left matches Some(left) && left > 0,
    ensures
        match r.1 {
            GrantAction::Spend(id) => r.0@.len() > 0 && r.0@[0] == id && r.0@.contains(
                tickets@[i].id,
            ),
            GrantAction::Done(Ok(Some(_))) => exists|j: int|
                0 <= j < tickets@.len() && (#[trigger] tickets@[j]).user_id == user_id
                    && tickets@[j].target_id == target_id && tickets@[j].self_service && (
                tickets@[j].expiry is None || tickets@[j].expiry->0.nanos > now.nanos)
                    && tickets@[j].uses_left is None,
            _ => false,
        },
{
    let candidates = active(tickets@, user_id, target_id, now);
    lemma_active_has(tickets@, user_id, target_id, now, i);
    lemma_unlimited_is_from(candidates);
    let k = choose|k: int| 0 <= k < candidates.len() && candidates[k] == tickets@[i];
    lemma_bounded_contains(candidates, k);
    if unlimited(candidates) is Some {
        let c = choose|c: int|
            0 <= c < candidates.len() && (#[trigger] candidates[c]).id == unlimited(candidates)->0
                && candidates[c].uses_left is None;
        lemma_active_is_from(tickets@, user_id, target_id, now, c);
        let j = choose|j: int| 0 <= j < tickets@.len() && tickets@[j] == candidates[c];
        assert(tickets@[j].user_id == user_id);
    }
}

/// No ticket is spent, or grants access, but one that is stored for this user
/// and this target, that the user asked for, and whose expiry, if it has one,
/// lies after now; and it is spent only if its uses are limited and one is left.
pub proof fn law_no_other_ticket_grants(
    tickets: Vec<Ticket>,
    user_id: u128,
    target_id: u128,
    now: Timestamp,
    r: (TicketGrant, GrantAction),
    k: int,
)
    requires
        call_ensures(grant_active_self_service_ticket, (&tickets, user_id, target_id, now), r),
    ensures
        !(r.1 matches GrantAction::Done(Err(_))),
        r.1 matches GrantAction::Spend(id) ==> r.0@.len() > 0 && r.0@[0] == id,
        0 <= k < r.0@.len() ==> exists|j: int|
            0 <= j < tickets@.len() && (#[trigger] tickets@[j]).id == r.0@[k] && tickets@[j].user_id
                == user_id && tickets@[j].target_id == target_id && tickets@[j].self_service && (
            tickets@[j].expiry is None || tickets@[j].expiry->0.nanos > now.nanos) && (
            tickets@[j].uses_left matches Some(left) && left > 0),
        r.1 matches GrantAction::Done(Ok(Some(id))) ==> r.0@.len() == 0 && exists|j: int|
            0 <= j < tickets@.len() && (#[trigger] tickets@[j]).id == id && tickets@[j].user_id
                == user_id && tickets@[j].target_id == target_id && tickets@[j].self_service && (
            tickets@[j].expiry is None || tickets@[j].expiry->0.nanos > now.nanos)
                && tickets@[j].uses_left is None,
{
    let candidates = active(tickets@, user_id, target_id, now);
    lemma_unlimited_is_from(candidates);
    if unlimited(candidates) is Some {
        let c = choose|c: int|
            0 <= c < candidates.len() && (#[trigger] candidates[c]).id == unlimited(candidates)->0
                && candidates[c].uses_left is None;
        lemma_active_is_from(tickets@, user_id, target_id, now, c);
        let j = choose|j: int| 0 <= j < tickets@.len() && tickets@[j] == candidates[c];
        assert(tickets@[j].user_id == user_id);
    } else if 0 <= k < r.0@.len() {
        law_only_active_tickets_are_spent(tickets@, user_id, target_id, now, k);
        let i = choose|i: int|
            0 <= i < tickets@.len() && (#[trigger] tickets@[i]).id == bounded(candidates)[k]
                && is_active(tickets@[i], user_id, target_id, now) && tickets@[i].uses_left is Some
                && tickets@[i].uses_left->0 > 0;
        assert(tickets@[i].user_id == user_id);
    }
}

/// An attempt goes down its list: a use that was spent grants access through the
/// ticket that it was spent of; a ticket that was used up meanwhile gives way to
/// the next, and to nothing once none is left; any other failure ends the
/// attempt, and no further ticket is spent.
pub proof fn law_an_attempt_goes_down_its_list(
    grant: TicketGrant,
    spent: Result<(), WarpgateError>,
    r: (TicketGrant, GrantAction),
)
    requires
        call_ensures(TicketGrant::on_spent, (grant, spent), r),
        grant@.len() > 0,
    ensures
        match spent {
            Ok(_) => r.1 == GrantAction::Done(Ok(Some(grant@[0]))) && r.0@.len() == 0,
            Err(WarpgateError::InvalidTicket(_)) => {
                &&& r.0@.len() == grant@.len() - 1
                &&& forall|k: int| 0 <= k < r.0@.len() ==> #[trigger] r.0@[k] == grant@[k + 1]
                &&& r.1 == if grant@.len() == 1 {
                    GrantAction::Done(Ok(None))
                } else {
                    GrantAction::Spend(grant@[1])
                }
            },
            Err(error) => r.1 == GrantAction::Done(Err(error)) && r.0@.len() == 0,
        },
{
}

/// A finished attempt grants nothing, whatever it is told.
pub proof fn law_a_finished_attempt_grants_nothing(
    grant: TicketGrant,
    spent: Result<(), WarpgateError>,
    r: (TicketGrant, GrantAction),
)
    requires
        call_ensures(TicketGrant::on_spent, (grant, spent), r),
        grant@.len() == 0,
    ensures
        r.1 == GrantAction::Done(Ok(None)),
        r.0@.len() == 0,
{
}

/// The tickets that can act as a grant are exactly those of this user for this
/// target that the user asked for and whose expiry, if they have one, lies after
/// now, however often they were used.
pub proof fn law_the_candidates_are_the_users_own_unexpired_tickets(
    tickets: Vec<Ticket>,
    user_id: u128,
    target_id: u128,
    now: Timestamp,
    kept: Vec<Ticket>,
    ticket: Ticket,
)
    requires
        call_ensures(active_self_service_tickets, (&tickets, user_id, target_id, now), kept),
    ensures
        kept@.contains(ticket) <==> tickets@.contains(ticket) && ticket.user_id == user_id
            && ticket.target_id == target_id && ticket.self_service && (ticket.expiry is None
            || ticket.expiry->0.nanos > now.nanos),
{
    if kept@.contains(ticket) {
        let k = choose|k: int| 0 <= k < kept@.len() && kept@[k] == ticket;
        lemma_active_is_from(tickets@, user_id, target_id, now, k);
    }
    if tickets@.contains(ticket) && is_active(ticket, user_id, target_id, now) {
        let i = choose|i: int| 0 <= i < tickets@.len() && tickets@[i] == ticket;
        lemma_active_has(tickets@, user_id, target_id, now, i);
    }
}

/// A grant through a ticket is still good exactly if that very ticket is stored
/// for the user and the target, was asked for by the user and is not expired.
pub proof fn law_a_grant_lasts_as_long_as_its_ticket(
    tickets: Vec<Ticket>,
    ticket_id: u128,
    user_id: u128,
    target_id: u128,
    now: Timestamp,
    r: bool,
)
    requires
        call_ensures(
            has_active_self_service_ticket,
            (&tickets, ticket_id, user_id, target_id, now),
            r,
        ),
    ensures
        r <==> exists|i: int|
            0 <= i < tickets@.len() && (#[trigger] tickets@[i]).id == ticket_id
                && tickets@[i].user_id == user_id && tickets@[i].target_id == target_id
                && tickets@[i].self_service && (tickets@[i].expiry is None
                || tickets@[i].expiry->0.nanos > now.nanos),
{
    if exists|i: int|
        0 <= i < tickets@.len() && (#[trigger] tickets@[i]).id == ticket_id && tickets@[i].user_id
            == user_id && tickets@[i].target_id == target_id && tickets@[i].self_service && (
        tickets@[i].expiry is None || tickets@[i].expiry->0.nanos > now.nanos) {
        let i = choose|i: int|
            0 <= i < tickets@.len() && (#[trigger] tickets@[i]).id == ticket_id
                && tickets@[i].user_id == user_id && tickets@[i].target_id == target_id
                && tickets@[i].self_service && (tickets@[i].expiry is None
                || tickets@[i].expiry->0.nanos > now.nanos);
        assert(is_active(tickets@[i], user_id, target_id, now));
    }
}

/// A ticket adds the target, and itself, to the identity that authenticated, and
/// changes nothing else; without a ticket there is no authorization, and an
/// error stays one.
pub proof fn law_a_ticket_adds_its_target_to_the_identity(
    identity: AuthorizedIdentity,
    target: Target,
    ticket: Result<Option<u128>, WarpgateError>,
    r: Result<Option<TargetAuthorization<TargetOptions>>, WarpgateError>,
)
    requires
        call_ensures(authorize_active_self_service_ticket, (identity, target, ticket), r),
    ensures
        match ticket {
            Ok(Some(id)) => r matches Ok(Some(authorization)) && authorization@.user
                == identity.user() && authorization@.protocol == identity.over()
                && authorization@.target.target == target && authorization@.target.options
                == target.options && authorization@.ticket == Some(id),
            Ok(None) => r == Ok::<Option<TargetAuthorization<TargetOptions>>, WarpgateError>(None),
            Err(error) => r == Err::<Option<TargetAuthorization<TargetOptions>>, WarpgateError>(
                error,
            ),
        },
{
}

/// A role grants the target to the identity, without a ticket; without one there
/// is no authorization, and an error stays one.
pub proof fn law_a_role_decides(
    identity: AuthorizedIdentity,
    target: Target,
    role: Result<bool, WarpgateError>,
    r: Result<Option<TargetAuthorization<TargetOptions>>, WarpgateError>,
)
    requires
        call_ensures(authorize_for_target, (&identity, target, role), r),
    ensures
        match role {
            Ok(true) => r matches Ok(Some(authorization)) && authorization@.user == identity.user()
                && authorization@.protocol == identity.over() && authorization@.target.target
                == target && authorization@.target.options == target.options
                && authorization@.ticket is None,
            Ok(false) => r == Ok::<Option<TargetAuthorization<TargetOptions>>, WarpgateError>(None),
            Err(error) => r == Err::<Option<TargetAuthorization<TargetOptions>>, WarpgateError>(
                error,
            ),
        },
{
}

/// A target that is found by its name is asked about, the very one that was
/// found; one that is not ends as one that may not be reached.
pub proof fn law_a_named_target_is_asked_about(
    found: Result<Option<Target>, WarpgateError>,
    r: ByName,
)
    requires
        call_ensures(authorize_for_target_by_name, (found,), r),
    ensures
        match found {
            Ok(Some(target)) => r == ByName::AskRole(target),
            Ok(None) => r matches ByName::Done(Ok(None)),
            Err(error) => r == ByName::Done(Err(error)),
        },
{
}

/// An identity comes out of an authentication exactly if it was accepted, and is
/// that of the accepted user under the protocol of the authentication.
pub proof fn law_only_an_accepted_authentication_gives_an_identity(
    state: AuthState,
    identity: Option<AuthorizedIdentity>,
)
    requires
        call_ensures(AuthorizedIdentity::from_auth_state, (&state,), identity),
    ensures
        match state.result {
            AuthResult::Accepted { user_info } => identity is Some && identity->0.user()
                == user_info && identity->0.over() == state.protocol,
            AuthResult::Need(_) | AuthResult::Rejected => identity is None,
        },
{
}

/// Narrowing to PostgreSQL succeeds exactly for a PostgreSQL target that was
/// authorized over PostgreSQL, with the target's own options, and leaves the
/// user, the target and the ticket as they were.
pub proof fn law_narrowing_to_postgres(
    authorization: TargetAuthorization<TargetOptions>,
    r: Result<TargetAuthorization<TargetPostgresOptions>, WarpgateError>,
)
    requires
        call_ensures(
            TargetAuthorization::narrow::<TargetPostgresOptions>,
            (authorization,),
            r,
        ),
    ensures
        match (authorization@.protocol, authorization@.target.options) {
            (Protocol::Postgres, TargetOptions::Postgres(options)) => r matches Ok(narrowed)
                && narrowed@.target.options == options && narrowed@.target.target
                == authorization@.target.target && narrowed@.user == authorization@.user
                && narrowed@.ticket == authorization@.ticket && narrowed@.protocol
                == Protocol::Postgres,
            _ => r matches Err(WarpgateError::InvalidTarget),
        },
{
}

/// The same of MySQL.
pub proof fn law_narrowing_to_mysql(
    authorization: TargetAuthorization<TargetOptions>,
    r: Result<TargetAuthorization<TargetMySqlOptions>, WarpgateError>,
)
    requires
        call_ensures(TargetAuthorization::narrow::<TargetMySqlOptions>, (authorization,), r),
    ensures
        match (authorization@.protocol, authorization@.target.options) {
            (Protocol::MySql, TargetOptions::MySql(options)) => r matches Ok(narrowed)
                && narrowed@.target.options == options && narrowed@.target.target
                == authorization@.target.target && narrowed@.user == authorization@.user
                && narrowed@.ticket == authorization@.ticket && narrowed@.protocol
                == Protocol::MySql,
            _ => r matches Err(WarpgateError::InvalidTarget),
        },
{
}

/// The same of HTTP.
pub proof fn law_narrowing_to_http(
    authorization: TargetAuthorization<TargetOptions>,
    r: Result<TargetAuthorization<TargetHTTPOptions>, WarpgateError>,
)
    requires
        call_ensures(TargetAuthorization::narrow::<TargetHTTPOptions>, (authorization,), r),
    ensures
        match (authorization@.protocol, authorization@.target.options) {
            (Protocol::Http, TargetOptions::Http(options)) => r matches Ok(narrowed)
                && narrowed@.target.options == options && narrowed@.target.target
                == authorization@.target.target && narrowed@.user == authorization@.user
                && narrowed@.ticket == authorization@.ticket && narrowed@.protocol
                == Protocol::Http,
            _ => r matches Err(WarpgateError::InvalidTarget),
        },
{
}

/// The same of SSH.
pub proof fn law_narrowing_to_ssh(
    authorization: TargetAuthorization<TargetOptions>,
    r: Result<TargetAuthorization<TargetSSHOptions>, WarpgateError>,
)
    requires
        call_ensures(TargetAuthorization::narrow::<TargetSSHOptions>, (authorization,), r),
    ensures
        match (authorization@.protocol, authorization@.target.options) {
            (Protocol::Ssh, TargetOptions::Ssh(options)) => r matches Ok(narrowed)
                && narrowed@.target.options == options && narrowed@.target.target
                == authorization@.target.target && narrowed@.user == authorization@.user
                && narrowed@.ticket == authorization@.ticket && narrowed@.protocol
                == Protocol::Ssh,
            _ => r matches Err(WarpgateError::InvalidTarget),
        },
{
}

/// The same of Kubernetes.
pub proof fn law_narrowing_to_kubernetes(
    authorization: TargetAuthorization<TargetOptions>,
    r: Result<TargetAuthorization<TargetKubernetesOptions>, WarpgateError>,
)
    requires
        call_ensures(TargetAuthorization::narrow::<TargetKubernetesOptions>, (authorization,), r),
    ensures
        match (authorization@.protocol, authorization@.target.options) {
            (Protocol::Kubernetes, TargetOptions::Kubernetes(options)) => r matches Ok(narrowed)
                && narrowed@.target.options == options && narrowed@.target.target
                == authorization@.target.target && narrowed@.user == authorization@.user
                && narrowed@.ticket == authorization@.ticket && narrowed@.protocol
                == Protocol::Kubernetes,
            _ => r matches Err(WarpgateError::InvalidTarget),
        },
{
}

/// Narrowing an approval says what narrowing the authorization behind it does,
/// here for a PostgreSQL target.
pub proof fn law_narrowing_an_approval_to_postgres(
    approved: ApprovedTarget<TargetOptions>,
    r: Result<ApprovedTarget<TargetPostgresOptions>, WarpgateError>,
)
    requires
        call_ensures(ApprovedTarget::narrow::<TargetPostgresOptions>, (approved,), r),
    ensures
        match (approved@.protocol, approved@.target.options) {
            (Protocol::Postgres, TargetOptions::Postgres(options)) => r matches Ok(narrowed)
                && narrowed@.target.options == options && narrowed@.target.target
                == approved@.target.target && narrowed@.user == approved@.user && narrowed@.ticket
                == approved@.ticket && narrowed@.protocol == Protocol::Postgres,
            _ => r matches Err(WarpgateError::InvalidTarget),
        },
{
}

/// The same for a MySQL target.
pub proof fn law_narrowing_an_approval_to_mysql(
    approved: ApprovedTarget<TargetOptions>,
    r: Result<ApprovedTarget<TargetMySqlOptions>, WarpgateError>,
)
    requires
        call_ensures(ApprovedTarget::narrow::<TargetMySqlOptions>, (approved,), r),
    ensures
        match (approved@.protocol, approved@.target.options) {
            (Protocol::MySql, TargetOptions::MySql(options)) => r matches Ok(narrowed)
                && narrowed@.target.options == options && narrowed@.target.target
                == approved@.target.target && narrowed@.user == approved@.user && narrowed@.ticket
                == approved@.ticket && narrowed@.protocol == Protocol::MySql,
            _ => r matches Err(WarpgateError::InvalidTarget),
        },
{
}

/// An approval taken apart gives its user and its target.
pub proof fn law_an_approval_comes_apart_whole<O>(
    approved: ApprovedTarget<O>,
    parts: (AuthStateUserInfo, SpecificTarget<O>),
)
    requires
        call_ensures(ApprovedTarget::<O>::into_parts, (approved,), parts),
    ensures
        parts.0 == approved@.user,
        parts.1.target == approved@.target.target,
        parts.1.options == approved@.target.options,
{
}

/// A user with a role for the target is authorized for it, over whatever
/// protocol: the target is looked up by the name that was asked for, the role is
/// asked for that user and that target, and no ticket is touched.
pub proof fn law_a_user_with_a_role_is_authorized(
    identity: AuthorizedIdentity,
    name: String,
    target: Target,
    begun: (TargetAttempt, TargetAction),
    found: (TargetAttempt, TargetAction),
    answered: (TargetAttempt, TargetAction),
)
    requires
        call_ensures(authorize_for_target_or_ticket, (identity, name), begun),
        call_ensures(
            TargetAttempt::step,
            (begun.0, TargetEvent::Target(Ok(Some(target)))),
            found,
        ),
        call_ensures(TargetAttempt::step, (found.0, TargetEvent::Role(Ok(true))), answered),
    ensures
        begun.1 matches TargetAction::FindTarget(asked) && asked@ == name@,
        found.1 == (TargetAction::AskRole { user_id: identity.user().id, target_id: target.id }),
        answered.1 matches TargetAction::Done(Ok(Some(authorization))) && authorization@.user
            == identity.user() && authorization@.protocol == identity.over()
            && authorization@.target.target == target && authorization@.target.options
            == target.options && authorization@.ticket is None,
{
}

/// A user without a role is asked about for tickets exactly if the target speaks
/// the protocol of the login, and otherwise the attempt ends without an
/// authorization.
pub proof fn law_a_user_without_a_role_falls_back_to_tickets(
    identity: AuthorizedIdentity,
    name: String,
    target: Target,
    begun: (TargetAttempt, TargetAction),
    found: (TargetAttempt, TargetAction),
    answered: (TargetAttempt, TargetAction),
)
    requires
        call_ensures(authorize_for_target_or_ticket, (identity, name), begun),
        call_ensures(
            TargetAttempt::step,
            (begun.0, TargetEvent::Target(Ok(Some(target)))),
            found,
        ),
        call_ensures(TargetAttempt::step, (found.0, TargetEvent::Role(Ok(false))), answered),
    ensures
        match (target.options, identity.over()) {
            (TargetOptions::Http(_), Protocol::Http) | (TargetOptions::Ssh(_), Protocol::Ssh) | (
                TargetOptions::MySql(_),
                Protocol::MySql,
            ) | (TargetOptions::Postgres(_), Protocol::Postgres) | (
                TargetOptions::Kubernetes(_),
                Protocol::Kubernetes,
            ) => answered.1 == (TargetAction::ListTickets {
                user_id: identity.user().id,
                target_id: target.id,
            }),
            _ => answered.1 matches TargetAction::Done(Ok(None)),
        },
{
}

/// An unlimited ticket among those that were listed authorizes at once, without
/// being spent, for the user and the target of the attempt.
pub proof fn law_a_listed_unlimited_ticket_authorizes(
    attempt: TargetAttempt,
    event: TargetEvent,
    asked: (TargetAttempt, TargetAction),
    tickets: Vec<Ticket>,
    now: Timestamp,
    listed: (TargetAttempt, TargetAction),
    user_id: u128,
    target_id: u128,
    i: int,
)
    requires
        call_ensures(TargetAttempt::step, (attempt, event), asked),
        asked.1 == (TargetAction::ListTickets { user_id, target_id }),
        call_ensures(
            TargetAttempt::step,
            (asked.0, TargetEvent::Tickets(Ok(tickets), now)),
            listed,
        ),
        0 <= i < tickets@.len(),
        tickets@[i].user_id == user_id,
        tickets@[i].target_id == target_id,
        tickets@[i].self_service,
        tickets@[i].expiry is None || tickets@[i].expiry->0.nanos > now.nanos,
        tickets@[i].uses_left is None,
    ensures
        listed.1 matches TargetAction::Done(Ok(Some(authorization))) && authorization@.user
            == attempt.identity.user() && authorization@.protocol == attempt.identity.over()
            && authorization@.target.target.id == target_id && (exists|j: int|
            0 <= j < tickets@.len() && Some((#[trigger] tickets@[j]).id) == authorization@.ticket
                && tickets@[j].uses_left is None),
{
    let candidates = active(tickets@, user_id, target_id, now);
    lemma_active_has(tickets@, user_id, target_id, now, i);
    lemma_unlimited_is_from(candidates);
    let k = choose|k: int| 0 <= k < candidates.len() && candidates[k] == tickets@[i];
    assert(candidates[k].uses_left is None);
    let id = unlimited(candidates)->0;
    let c = choose|c: int|
        0 <= c < candidates.len() && (#[trigger] candidates[c]).id == id
            && candidates[c].uses_left is None;
    lemma_active_is_from(tickets@, user_id, target_id, now, c);
    let j = choose|j: int| 0 <= j < tickets@.len() && tickets@[j] == candidates[c];
    assert(tickets@[j].id == id);
}

/// Where the listed tickets hold one with a use left, a use is spent, of one of
/// them or through an unlimited one: the attempt does not end without trying.
pub proof fn law_a_listed_ticket_is_tried(
    attempt: TargetAttempt,
    event: TargetEvent,
    asked: (TargetAttempt, TargetAction),
    tickets: Vec<Ticket>,
    now: Timestamp,
    listed: (TargetAttempt, TargetAction),
    user_id: u128,
    target_id: u128,
    i: int,
)
    requires
        call_ensures(TargetAttempt::step, (attempt, event), asked),
        asked.1 == (TargetAction::ListTickets { user_id, target_id }),
        call_ensures(
            TargetAttempt::step,
            (asked.0, TargetEvent::Tickets(Ok(tickets), now)),
            listed,
        ),
        0 <= i < tickets@.len(),
        tickets@[i].user_id == user_id,
        tickets@[i].target_id == target_id,
        tickets@[i].self_service,
        tickets@[i].expiry is None || tickets@[i].expiry->0.nanos > now.nanos,
        tickets@[i].uses_left matches Some(left) && left > 0,
    ensures
        listed.1 is Spend || (listed.1 matches TargetAction::Done(Ok(Some(_)))),
{
    let candidates = active(tickets@, user_id, target_id, now);
    lemma_active_has(tickets@, user_id, target_id, now, i);
    let k = choose|k: int| 0 <= k < candidates.len() && candidates[k] == tickets@[i];
    lemma_bounded_contains(candidates, k);
}

/// A use that was spent authorizes for the user of the attempt, through the very
/// ticket that it was spent of; a failure other than that the ticket was used up
/// ends the attempt with it.
pub proof fn law_a_spent_use_authorizes(
    attempt: TargetAttempt,
    event: TargetEvent,
    asked: (TargetAttempt, TargetAction),
    id: u128,
    spent: Result<(), WarpgateError>,
    answered: (TargetAttempt, TargetAction),
)
    requires
        call_ensures(TargetAttempt::step, (attempt, event), asked),
        asked.1 == TargetAction::Spend(id),
        call_ensures(TargetAttempt::step, (asked.0, TargetEvent::Spent(spent)), answered),
    ensures
        match spent {
            Ok(_) => answered.1 matches TargetAction::Done(Ok(Some(authorization)))
                && authorization@.user == attempt.identity.user() && authorization@.protocol
                == attempt.identity.over() && authorization@.ticket == Some(id),
            Err(WarpgateError::InvalidTicket(_)) => answered.1 is Spend || (
            answered.1 matches TargetAction::Done(Ok(None))),
            Err(error) => answered.1 == TargetAction::Done(Err(error)),
        },
{
}

/// A target that is not there ends the attempt without an authorization, and a
/// failed look-up ends it with its failure, whatever was being looked up.
pub proof fn law_a_failed_look_up_ends_the_attempt(
    attempt: TargetAttempt,
    event: TargetEvent,
    asked: (TargetAttempt, TargetAction),
    error: WarpgateError,
    now: Timestamp,
    failed: (TargetAttempt, TargetAction),
)
    requires
        call_ensures(TargetAttempt::step, (attempt, event), asked),
    ensures
        asked.1 is AskRole && call_ensures(
            TargetAttempt::step,
            (asked.0, TargetEvent::Role(Err(error))),
            failed,
        ) ==> failed.1 == TargetAction::Done(Err(error)),
        asked.1 is ListTickets && call_ensures(
            TargetAttempt::step,
            (asked.0, TargetEvent::Tickets(Err(error), now)),
            failed,
        ) ==> failed.1 == TargetAction::Done(Err(error)),
{
}

/// A target of an unknown name is no target that the user may reach, and a
/// failure to look it up is a failure.
pub proof fn law_an_unknown_target_is_not_authorized(
    identity: AuthorizedIdentity,
    name: String,
    begun: (TargetAttempt, TargetAction),
    missing: (TargetAttempt, TargetAction),
    error: WarpgateError,
    failed: (TargetAttempt, TargetAction),
)
    requires
        call_ensures(authorize_for_target_or_ticket, (identity, name), begun),
        call_ensures(TargetAttempt::step, (begun.0, TargetEvent::Target(Ok(None))), missing),
        call_ensures(TargetAttempt::step, (begun.0, TargetEvent::Target(Err(error))), failed),
    ensures
        missing.1 matches TargetAction::Done(Ok(None)),
        failed.1 == TargetAction::Done(Err(error)),
{
}

/// The target that an attempt is about, once it was found.
pub open spec fn attempted_target(attempt: TargetAttempt) -> Option<Target> {
    match attempt.stage {
        TargetStage::Role(target) => Some(target),
        TargetStage::Tickets(target) => Some(target),
        TargetStage::Spending(target, _) => Some(target),
        TargetStage::Lookup | TargetStage::Over => None,
    }
}

/// An attempt is about the target that was found for it, and for the identity
/// that it began with, up to its end, however many tickets are tried.
pub proof fn law_an_attempt_keeps_to_its_target(
    attempt: TargetAttempt,
    event: TargetEvent,
    r: (TargetAttempt, TargetAction),
)
    requires
        call_ensures(TargetAttempt::step, (attempt, event), r),
    ensures
        r.0.identity == attempt.identity,
        attempted_target(attempt) is Some && attempted_target(r.0) is Some ==> attempted_target(r.0)
            == attempted_target(attempt),
        attempted_target(attempt) is Some ==> (r.1 matches TargetAction::Done(Ok(Some(found)))
            ==> Some(found@.target.target) == attempted_target(attempt)
            && found@.target.options == found@.target.target.options),
        attempted_target(attempt) is None && attempted_target(r.0) is Some ==> event
            == TargetEvent::Target(Ok(attempted_target(r.0))),
        attempted_target(attempt) is None ==> !(r.1 matches TargetAction::Done(Ok(Some(_)))),
        r.1 matches TargetAction::AskRole { user_id, target_id } ==> user_id
            == attempt.identity.user().id && attempted_target(r.0) is Some && attempted_target(
            r.0,
        )->0.id == target_id,
        r.1 matches TargetAction::ListTickets { user_id, target_id } ==> user_id
            == attempt.identity.user().id && attempted_target(r.0) is Some && attempted_target(
            r.0,
        )->0.id == target_id,
{
}

/// The authorization of a ticket is for the user, the target and the protocol
/// that it was given for, through that ticket.
pub proof fn law_a_tickets_authorization(
    user: AuthStateUserInfo,
    target: Target,
    ticket_id: u128,
    protocol: Protocol,
    r: Result<TargetAuthorization<TargetOptions>, WarpgateError>,
)
    requires
        call_ensures(
            TargetAuthorization::for_ticket_session,
            (user, target, ticket_id, protocol),
            r,
        ),
    ensures
        r matches Ok(authorization) && authorization@.user == user && authorization@.target.target
            == target && authorization@.target.options == target.options
            && authorization@.protocol == protocol && authorization@.ticket == Some(ticket_id),
{
}

/// An identity that was authenticated elsewhere is that of its user, under its
/// protocol.
pub proof fn law_an_identity_is_its_users(
    user: AuthStateUserInfo,
    protocol: Protocol,
    identity: AuthorizedIdentity,
)
    requires
        call_ensures(AuthorizedIdentity::for_authenticated_session, (user, protocol), identity),
    ensures
        identity.user() == user,
        identity.over() == protocol,
{
}

/// The ticket is this user's for this target, the user asked for it, and its
/// expiry, if it has one, lies after now.
pub open spec fn is_own_unexpired(
    ticket: Ticket,
    user_id: u128,
    target_id: u128,
    now: Timestamp,
) -> bool {
    &&& ticket.user_id == user_id && ticket.target_id == target_id
    &&& ticket.self_service
    &&& match ticket.expiry {
        Some(expiry) => now.nanos < expiry.nanos,
        None => true,
    }
}

/// The tickets of this user for this target that are not expired, as stored.
pub open spec fn own_unexpired(
    tickets: Seq<Ticket>,
    user_id: u128,
    target_id: u128,
    now: Timestamp,
) -> Seq<Ticket> {
    tickets.filter(|ticket: Ticket| is_own_unexpired(ticket, user_id, target_id, now))
}

/// Those of the tickets that can be used any number of times.
pub open spec fn without_limit(tickets: Seq<Ticket>) -> Seq<Ticket> {
    tickets.filter(|ticket: Ticket| ticket.uses_left is None)
}

/// Those of the tickets that have a number of uses left.
pub open spec fn with_uses_left(tickets: Seq<Ticket>) -> Seq<Ticket> {
    tickets.filter(
        |ticket: Ticket|
            match ticket.uses_left {
                Some(left) => left >= 1,
                None => false,
            },
    )
}

proof fn lemma_limits(candidates: Seq<Ticket>)
    ensures
        bounded(candidates) == with_uses_left(candidates).map_values(|ticket: Ticket| ticket.id),
        unlimited(candidates) == if without_limit(candidates).len() > 0 {
            Some(without_limit(candidates)[0].id)
        } else {
            None
        },
    decreases candidates.len(),
{
    reveal(Seq::filter);
    if candidates.len() > 0 {
        lemma_limits(candidates.drop_last());
    }
    assert(bounded(candidates) =~= with_uses_left(candidates).map_values(
        |ticket: Ticket| ticket.id,
    ));
}

/// The candidates stand in the order in which they are stored, each as often as
/// it is stored.
pub proof fn law_the_candidates_stand_as_stored(
    tickets: Vec<Ticket>,
    user_id: u128,
    target_id: u128,
    now: Timestamp,
    kept: Vec<Ticket>,
)
    requires
        call_ensures(active_self_service_tickets, (&tickets, user_id, target_id, now), kept),
    ensures
        kept@ == own_unexpired(tickets@, user_id, target_id, now),
{
    assert((|ticket: Ticket| is_active(ticket, user_id, target_id, now)) =~= (|ticket: Ticket|
        is_own_unexpired(ticket, user_id, target_id, now)));
}

/// The first ticket without a limit grants access; where there is none, those
/// with uses left are tried, in the order in which they are stored.
pub proof fn law_tickets_are_tried_in_the_order_stored(
    tickets: Vec<Ticket>,
    user_id: u128,
    target_id: u128,
    now: Timestamp,
    r: (TicketGrant, GrantAction),
)
    requires
        call_ensures(grant_active_self_service_ticket, (&tickets, user_id, target_id, now), r),
    ensures
        ({
            let own = own_unexpired(tickets@, user_id, target_id, now);
            let free = without_limit(own);
            let limited = with_uses_left(own);
            if free.len() > 0 {
                r.1 == GrantAction::Done(Ok(Some(free[0].id))) && r.0@.len() == 0
            } else {
                &&& r.0@ == limited.map_values(|ticket: Ticket| ticket.id)
                &&& r.1 == if limited.len() > 0 {
                    GrantAction::Spend(limited[0].id)
                } else {
                    GrantAction::Done(Ok(None))
                }
            }
        }),
{
    assert((|ticket: Ticket| is_active(ticket, user_id, target_id, now)) =~= (|ticket: Ticket|
        is_own_unexpired(ticket, user_id, target_id, now)));
    lemma_limits(own_unexpired(tickets@, user_id, target_id, now));
}

/// What an authorization and an approval say of themselves is what they are.
pub proof fn law_an_authorization_shows_what_it_is(
    authorization: TargetAuthorization<TargetOptions>,
    user: &AuthStateUserInfo,
    target: &Target,
    protocol: Protocol,
    ticket_id: Option<u128>,
    approved: ApprovedTarget<TargetOptions>,
    names: (&str, &str),
)
    requires
        call_ensures(TargetAuthorization::<TargetOptions>::user_info, (&authorization,), user),
        call_ensures(TargetAuthorization::<TargetOptions>::target, (&authorization,), target),
        call_ensures(TargetAuthorization::<TargetOptions>::protocol, (&authorization,), protocol),
        call_ensures(TargetAuthorization::<TargetOptions>::ticket_id, (&authorization,), ticket_id),
        call_ensures(ApprovedTarget::<TargetOptions>::printable, (&approved,), names),
    ensures
        authorization@.user == *user,
        authorization@.target.target == *target,
        authorization@.protocol == protocol,
        authorization@.ticket == ticket_id,
        approved@.target.target.name@ == names.0@,
        approved@.user.username@ == names.1@,
{
}

} // verus!
