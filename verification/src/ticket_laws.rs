//! What logging in with a ticket's secret promises, from the first question to
//! the end.
use vstd::prelude::*;

use crate::model::{
    AuthStateUserInfo, IpAddr, Protocol, Target, TargetOptions, Ticket, Timestamp, WarpgateError,
};
use crate::config_providers::TargetAuthorization;
use crate::tickets::{
    authorize_and_spend_ticket, validate_ticket, TicketAction, TicketCheck,
    TicketEvent, TicketLogin, TicketLoginAction, TicketLoginEvent, ValidatedTicket,
};

verus! {

/// The target speaks the protocol.
pub open spec fn speaks(target: Target, protocol: Protocol) -> bool {
    match target.options {
        TargetOptions::Http(_) => protocol is Http,
        TargetOptions::Ssh(_) => protocol is Ssh,
        TargetOptions::MySql(_) => protocol is MySql,
        TargetOptions::Postgres(_) => protocol is Postgres,
        TargetOptions::Kubernetes(_) => protocol is Kubernetes,
    }
}

/// A check without an address begins with the look-up of the secret, and one
/// with an address asks about the address first.
pub proof fn law_a_check_begins_with_the_address(
    secret: String,
    remote_ip: Option<IpAddr>,
    protocol: Protocol,
    begun: (TicketCheck, TicketAction),
    cleared: (TicketCheck, TicketAction),
)
    requires
        call_ensures(validate_ticket, (secret, remote_ip, protocol), begun),
        call_ensures(TicketCheck::step, (begun.0, TicketEvent::IpBlocked(Ok(false))), cleared),
    ensures
        match remote_ip {
            Some(ip) => begun.1 == TicketAction::CheckIpBlocked(ip) && (
            cleared.1 matches TicketAction::FindTicket(asked) && asked@ == secret@),
            None => begun.1 matches TicketAction::FindTicket(asked) && asked@ == secret@,
        },
{
    assert(begun.1@ == begun.1@);
    assert(cleared.1@ == cleared.1@);
}

/// A check ends in a valid ticket whenever every question is answered in its
/// favour: the ticket is stored, whether or not its user asked for it and however
/// many uses it has left, with an expiry that is absent or not before the time
/// of the look-up; its user is stored and may log in; its target is stored and
/// speaks the protocol. The questions are about the user and the target of the
/// ticket, and the ticket then stands for them.
pub proof fn law_a_check_answered_in_its_favour_is_valid(
    check: TicketCheck,
    event: TicketEvent,
    asked: (TicketCheck, TicketAction),
    ticket: Ticket,
    now: Timestamp,
    found: (TicketCheck, TicketAction),
    user: AuthStateUserInfo,
    known: (TicketCheck, TicketAction),
    vetted: (TicketCheck, TicketAction),
    target: Target,
    ended: (TicketCheck, TicketAction),
)
    requires
        call_ensures(TicketCheck::step, (check, event), asked) || call_ensures(
            validate_ticket,
            (check.secret, check.remote_ip, check.protocol),
            asked,
        ),
        asked.1 is FindTicket,
        call_ensures(
            TicketCheck::step,
            (asked.0, TicketEvent::Ticket(Ok(Some(ticket)), now)),
            found,
        ),
        ticket.expiry is None || ticket.expiry->0.nanos >= now.nanos,
        call_ensures(TicketCheck::step, (found.0, TicketEvent::User(Ok(Some(user)))), known),
        call_ensures(TicketCheck::step, (known.0, TicketEvent::Vetted(Ok(true))), vetted),
        call_ensures(TicketCheck::step, (vetted.0, TicketEvent::Target(Ok(Some(target)))), ended),
        speaks(target, check.protocol),
    ensures
        found.1 == TicketAction::FindUser(ticket.user_id),
        known.1 == TicketAction::VetBearer(user.id, check.remote_ip),
        vetted.1 == TicketAction::FindTarget(ticket.target_id),
        ended.1 matches TicketAction::Done(Ok(Some(valid))) && valid@.user == user
            && valid@.target.target == target && valid@.target.options == target.options
            && valid@.protocol == check.protocol && valid@.ticket == Some(ticket.id),
{
    assert(asked.1@ is FindTicket);
    assert(found.1@ == found.1@);
    assert(known.1@ == known.1@);
    assert(vetted.1@ == vetted.1@);
    assert(ended.1@ == ended.1@);
}

/// A ticket that is not stored, or whose expiry lies before the time of the
/// look-up, ends the check without a ticket; one whose expiry does not goes on.
pub proof fn law_only_a_missing_or_expired_ticket_is_refused_at_the_look_up(
    check: TicketCheck,
    event: TicketEvent,
    asked: (TicketCheck, TicketAction),
    found: Option<Ticket>,
    now: Timestamp,
    r: (TicketCheck, TicketAction),
)
    requires
        call_ensures(TicketCheck::step, (check, event), asked) || call_ensures(
            validate_ticket,
            (check.secret, check.remote_ip, check.protocol),
            asked,
        ),
        asked.1 is FindTicket,
        call_ensures(TicketCheck::step, (asked.0, TicketEvent::Ticket(Ok(found), now)), r),
    ensures
        match found {
            Some(ticket) if ticket.expiry is None || ticket.expiry->0.nanos >= now.nanos => r.1
                == TicketAction::FindUser(ticket.user_id),
            _ => r.1 matches TicketAction::Done(Ok(None)),
        },
{
    assert(asked.1@ is FindTicket);
    assert(r.1@ == r.1@);
}

/// A blocked address, a user who may not log in, a target that is gone and a
/// target of another protocol end the check without a ticket, and none of them
/// is told from an unknown ticket.
pub proof fn law_a_refusal_gives_nothing_away(
    check: TicketCheck,
    event: TicketEvent,
    asked: (TicketCheck, TicketAction),
    answer: TicketEvent,
    r: (TicketCheck, TicketAction),
)
    requires
        call_ensures(TicketCheck::step, (check, event), asked) || call_ensures(
            validate_ticket,
            (check.secret, check.remote_ip, check.protocol),
            asked,
        ),
        call_ensures(TicketCheck::step, (asked.0, answer), r),
    ensures
        asked.1 is CheckIpBlocked && (answer matches TicketEvent::IpBlocked(Ok(true))) ==> (
        r.1 matches TicketAction::Done(Ok(None))),
        asked.1 is VetBearer && (answer matches TicketEvent::Vetted(Ok(false))) ==> (
        r.1 matches TicketAction::Done(Ok(None))),
        asked.1 is FindTarget && (answer matches TicketEvent::Target(Ok(None))) ==> (
        r.1 matches TicketAction::Done(Ok(None))),
        asked.1 is FindTarget && (answer matches TicketEvent::Target(Ok(Some(target))) && !speaks(
            target,
            check.protocol,
        )) ==> (r.1 matches TicketAction::Done(Ok(None))),
{
    assert(asked.1@ == asked.1@);
    assert(r.1@ == r.1@);
}

/// A failed look-up ends the check with its failure, and a ticket whose user is
/// gone names the user that is missing.
pub proof fn law_a_failed_look_up_fails_the_check(
    check: TicketCheck,
    event: TicketEvent,
    asked: (TicketCheck, TicketAction),
    answer: TicketEvent,
    r: (TicketCheck, TicketAction),
)
    requires
        call_ensures(TicketCheck::step, (check, event), asked) || call_ensures(
            validate_ticket,
            (check.secret, check.remote_ip, check.protocol),
            asked,
        ),
        call_ensures(TicketCheck::step, (asked.0, answer), r),
    ensures
        match (asked.1, answer) {
            (TicketAction::CheckIpBlocked(_), TicketEvent::IpBlocked(Err(error))) => ends_with(
                r.1,
                error,
            ),
            (TicketAction::FindTicket(_), TicketEvent::Ticket(Err(error), _)) => ends_with(
                r.1,
                error,
            ),
            (TicketAction::FindUser(_), TicketEvent::User(Err(error))) => ends_with(r.1, error),
            (TicketAction::VetBearer(_, _), TicketEvent::Vetted(Err(error))) => ends_with(
                r.1,
                error,
            ),
            (TicketAction::FindTarget(_), TicketEvent::Target(Err(error))) => ends_with(
                r.1,
                error,
            ),
            (TicketAction::FindUser(id), TicketEvent::User(Ok(None))) => r.1 matches TicketAction::Done(
                Err(WarpgateError::UserNotFound(name)),
            ) && name@ == crate::tickets::id_text(id),
            _ => true,
        },
{
    assert(asked.1@ == asked.1@);
    assert(r.1@ == r.1@);
}

/// The check is over with this error.
pub open spec fn ends_with(action: TicketAction, error: WarpgateError) -> bool {
    &&& action matches TicketAction::Done(Err(reported))
    &&& match (reported, error) {
        (WarpgateError::UserNotFound(named), WarpgateError::UserNotFound(missing)) => named@
            == missing@,
        _ => reported == error,
    }
}

/// An answer to a question that was not asked changes nothing, and a check that
/// is over stays so.
pub proof fn law_only_the_question_that_was_asked_is_answered(
    check: TicketCheck,
    event: TicketEvent,
    r: (TicketCheck, TicketAction),
    later: TicketEvent,
    after: (TicketCheck, TicketAction),
)
    requires
        call_ensures(TicketCheck::step, (check, event), r),
        call_ensures(TicketCheck::step, (r.0, later), after),
    ensures
        r.1 is Unexpected ==> r.0.stage == check.stage,
        r.1 is Done ==> after.1 is Unexpected,
        r.1 is FindUser && !(later is User) ==> after.1 is Unexpected,
        r.1 is FindTicket && !(later is Ticket) ==> after.1 is Unexpected,
        r.1 is VetBearer && !(later is Vetted) ==> after.1 is Unexpected,
        r.1 is FindTarget && !(later is Target) ==> after.1 is Unexpected,
{
    assert(r.1@ == r.1@);
    assert(after.1@ == after.1@);
}

/// A valid ticket authorizes exactly once a use of it was spent, for what it
/// stands for; one that was used up or revoked meanwhile authorizes nothing,
/// which is no error; any other failure is one.
pub proof fn law_spending_makes_a_valid_ticket_an_authorization(
    ticket: ValidatedTicket,
    spent: Result<(), WarpgateError>,
    r: Result<Option<TargetAuthorization<TargetOptions>>, WarpgateError>,
)
    requires
        call_ensures(ValidatedTicket::spend, (ticket, spent), r),
    ensures
        match spent {
            Ok(_) => r matches Ok(Some(authorization)) && authorization@ == ticket@,
            Err(WarpgateError::InvalidTicket(_)) => r == Ok::<
                Option<TargetAuthorization<TargetOptions>>,
                WarpgateError,
            >(None),
            Err(error) => r == Err::<Option<TargetAuthorization<TargetOptions>>, WarpgateError>(
                error,
            ),
        },
{
}

/// A login with a ticket that is valid and has a use left is authorized: once the
/// target was found, a use of that very ticket is spent, and the login is
/// authorized for the ticket's user and target exactly if that succeeds.
pub proof fn law_a_valid_ticket_logs_in(
    check: TicketCheck,
    ticket: Ticket,
    now: Timestamp,
    found: (TicketLogin, TicketLoginAction),
    user: AuthStateUserInfo,
    known: (TicketLogin, TicketLoginAction),
    vetted: (TicketLogin, TicketLoginAction),
    target: Target,
    valid: (TicketLogin, TicketLoginAction),
    spent: Result<(), WarpgateError>,
    ended: (TicketLogin, TicketLoginAction),
)
    requires
        check.stage is Lookup,
        call_ensures(
            TicketLogin::step,
            (
                TicketLogin::Checking(check),
                TicketLoginEvent::Check(TicketEvent::Ticket(Ok(Some(ticket)), now)),
            ),
            found,
        ),
        ticket.expiry is None || ticket.expiry->0.nanos >= now.nanos,
        call_ensures(
            TicketLogin::step,
            (found.0, TicketLoginEvent::Check(TicketEvent::User(Ok(Some(user))))),
            known,
        ),
        call_ensures(
            TicketLogin::step,
            (known.0, TicketLoginEvent::Check(TicketEvent::Vetted(Ok(true)))),
            vetted,
        ),
        call_ensures(
            TicketLogin::step,
            (vetted.0, TicketLoginEvent::Check(TicketEvent::Target(Ok(Some(target))))),
            valid,
        ),
        speaks(target, check.protocol),
        call_ensures(TicketLogin::step, (valid.0, TicketLoginEvent::Spent(spent)), ended),
    ensures
        found.1 matches TicketLoginAction::Check(asked) && asked == TicketAction::FindUser(
            ticket.user_id,
        ),
        known.1 matches TicketLoginAction::Check(asked) && asked == TicketAction::VetBearer(
            user.id,
            check.remote_ip,
        ),
        vetted.1 matches TicketLoginAction::Check(asked) && asked == TicketAction::FindTarget(
            ticket.target_id,
        ),
        valid.1 == TicketLoginAction::Spend(ticket.id),
        match spent {
            Ok(_) => ended.1 matches TicketLoginAction::Done(Ok(Some(authorization)))
                && authorization@.user == user && authorization@.target.target == target
                && authorization@.target.options == target.options && authorization@.protocol
                == check.protocol && authorization@.ticket == Some(ticket.id),
            Err(WarpgateError::InvalidTicket(_)) => ended.1 matches TicketLoginAction::Done(
                Ok(None),
            ),
            Err(error) => ended.1 == TicketLoginAction::Done(Err(error)),
        },
{
    assert(found.1->Check_0@ == found.1->Check_0@);
    assert(known.1->Check_0@ == known.1->Check_0@);
    assert(vetted.1->Check_0@ == vetted.1->Check_0@);
}

/// A ticket login begins as the check of its ticket does, over the secret, the
/// address and the protocol that it was given.
pub proof fn law_a_ticket_login_begins_as_its_check(
    secret: String,
    remote_ip: Option<IpAddr>,
    protocol: Protocol,
    r: (TicketLogin, TicketLoginAction),
)
    requires
        call_ensures(authorize_and_spend_ticket, (secret, remote_ip, protocol), r),
    ensures
        r.0 matches TicketLogin::Checking(check) && check.secret@ == secret@ && check.remote_ip
            == remote_ip && check.protocol == protocol,
        match remote_ip {
            Some(ip) => (r.0 matches TicketLogin::Checking(check) && check.stage is Ip) && (
            r.1 matches TicketLoginAction::Check(asked) && asked == TicketAction::CheckIpBlocked(
                ip,
            )),
            None => (r.0 matches TicketLogin::Checking(check) && check.stage is Lookup) && (
            r.1 matches TicketLoginAction::Check(asked) && (asked matches TicketAction::FindTicket(
                text,
            ) && text@ == secret@)),
        },
{
    assert(r.1->Check_0@ == r.1->Check_0@);
}

/// A check that ends without a ticket ends the login without an authorization,
/// with the failure if there is one, and nothing is spent.
pub proof fn law_a_refused_check_ends_the_login(
    check: TicketCheck,
    event: TicketEvent,
    checked: (TicketCheck, TicketAction),
    r: (TicketLogin, TicketLoginAction),
)
    requires
        call_ensures(TicketCheck::step, (check, event), checked),
        call_ensures(
            TicketLogin::step,
            (TicketLogin::Checking(check), TicketLoginEvent::Check(event)),
            r,
        ),
    ensures
        (checked.1 matches TicketAction::Done(Ok(None))) ==> (
        r.1 matches TicketLoginAction::Done(Ok(None))),
        checked.1 matches TicketAction::Done(Err(error)) ==> r.1 matches TicketLoginAction::Done(
            Err(reported),
        ) && match (reported, error) {
            (WarpgateError::UserNotFound(named), WarpgateError::UserNotFound(missing)) => named@
                == missing@,
            _ => reported == error,
        },
        checked.1 matches TicketAction::Done(Ok(Some(valid))) ==> r.1 matches TicketLoginAction::Spend(
            id,
        ) && valid@.ticket == Some(id),
        !(checked.1 is Done) ==> (r.1 matches TicketLoginAction::Check(asked) && asked@
            == checked.1@),
{
    assert(checked.1@ == checked.1@);
}

} // verus!
