//! What holds of every database login, however its questions are answered.
use vstd::prelude::*;

use crate::config_providers::{AuthResult, Grant};
use crate::db_auth::{
    stepped, target_moves, AuthSelector, DbAuthAction, DbAuthEvent, DbAuthFailure, DbAuthStage,
    DbLogin,
};
use crate::db_target::{
    law_the_authorization_is_for_the_identity, TargetAction, TargetAttempt, TargetStage,
};
use crate::model::TargetOptions;
use crate::tickets::{TicketLogin, TicketLoginAction};

verus! {

/// The course of a login: the stages it stood at, the events that moved it from
/// one to the next, and what it did on the way.
pub struct Course<E> {
    pub login: DbLogin,
    pub stages: Seq<DbAuthStage<E>>,
    pub events: Seq<DbAuthEvent<E>>,
    pub actions: Seq<DbAuthAction<E>>,
}

impl<E> Course<E> {
    /// Step `i` is one that a login takes.
    pub open spec fn step_ok(self, i: int) -> bool {
        stepped(self.login, self.stages[i], self.events[i], self.stages[i + 1], self.actions[i])
    }

    /// The course begins as a login does, and every step is one that a login
    /// takes.
    pub open spec fn is_login(self) -> bool {
        &&& self.stages.len() == self.events.len() + 1
        &&& self.actions.len() == self.events.len()
        &&& self.stages[0] is CheckingIp
        &&& forall|i: int| 0 <= i < self.events.len() ==> #[trigger] self.step_ok(i)
    }

    /// An administrator's gate let the connection through before step `n`.
    pub open spec fn gate_passed(self, n: int) -> bool {
        exists|j: int|
            0 <= j < n && self.stages[j] is Gate && (#[trigger] self.events[j] matches DbAuthEvent::AdminApproval(Ok(true), _))
    }

    /// Before step `n` this grant came out of the authorization for a target or
    /// of a ticket.
    pub open spec fn authorized(self, n: int, grant: Grant<TargetOptions>) -> bool {
        exists|j: int| 0 <= j < n && #[trigger] self.authorizes(j, grant)
    }

    /// Step `j` ends the authorization for a target, or a ticket login, with
    /// this grant.
    pub open spec fn authorizes(self, j: int, grant: Grant<TargetOptions>) -> bool {
        match (self.stages[j], self.events[j]) {
            (DbAuthStage::Authorizing(_, _, _, attempt), DbAuthEvent::Target(event)) => {
                &&& self.accepted(j, grant)
                &&& exists|after: TargetStage, asked: TargetAction| #[trigger]
                    attempt.stepped(event, after, asked) && (asked matches TargetAction::Done(
                        Ok(Some(authorization)),
                    ) && authorization@ == grant)
            },
            (DbAuthStage::Ticket(ticket), DbAuthEvent::Ticket(event)) => exists|
                after: TicketLogin,
                asked: TicketLoginAction,
            | #[trigger]
                ticket.stepped(event, after, asked) && (asked matches TicketLoginAction::Done(
                    Ok(Some(authorization)),
                ) && authorization@ == grant),
            _ => false,
        }
    }

    /// Before step `n` the authentication was accepted for the user of this
    /// grant, under its protocol.
    pub open spec fn accepted(self, n: int, grant: Grant<TargetOptions>) -> bool {
        exists|j: int|
            0 <= j < n && (#[trigger] self.events[j] matches DbAuthEvent::State(state) && (
            state.result matches AuthResult::Accepted { user_info } && user_info == grant.user)
                && state.protocol == grant.protocol)
    }

    /// The client was told of a denial before step `n`.
    pub open spec fn denied(self, n: int) -> bool {
        exists|j: int| 0 <= j < n && #[trigger] self.actions[j] is SendDenied
    }
}

/// How often the success message is among these actions.
pub open spec fn oks_sent<E>(actions: Seq<DbAuthAction<E>>) -> nat
    decreases actions.len(),
{
    if actions.len() == 0 {
        0
    } else {
        oks_sent(actions.drop_last()) + if actions.last() is SendAuthOk {
            1nat
        } else {
            0nat
        }
    }
}

/// Whether a login at this stage can still send the success message.
pub open spec fn may_send_ok<E>(stage: DbAuthStage<E>) -> bool {
    match stage {
        DbAuthStage::CheckingIp(_) | DbAuthStage::Ticket(_) => true,
        DbAuthStage::CheckingUser(_) | DbAuthStage::Creating(_) => true,
        DbAuthStage::Verifying(_, permit) => permit is Some,
        DbAuthStage::Minting(_, permit, _) => permit is Some,
        DbAuthStage::Authorizing(_, permit, _, _) => permit is Some,
        DbAuthStage::Remembering(permit, _, _) => permit is Some,
        DbAuthStage::Gate(_, given, _) => given,
        DbAuthStage::Prompting(_, permit) => permit is Some,
        DbAuthStage::Submitting(_, permit) => permit is Some,
        DbAuthStage::Bypassing(_, permit) => permit is Some,
        DbAuthStage::Preparing(_, permit) => permit is Some,
        _ => false,
    }
}

proof fn lemma_ok_uses_up_the_permit<E>(
    login: DbLogin,
    stage: DbAuthStage<E>,
    event: DbAuthEvent<E>,
    next: DbAuthStage<E>,
    action: DbAuthAction<E>,
)
    requires
        stepped(login, stage, event, next, action),
    ensures
        action is SendAuthOk ==> may_send_ok(stage) && !may_send_ok(next),
        may_send_ok(next) ==> may_send_ok(stage),
{
}

/// The success message is sent at most once in a login.
pub proof fn law_the_success_message_is_sent_at_most_once<E>(course: Course<E>, n: int)
    requires
        course.is_login(),
        0 <= n <= course.actions.len(),
    ensures
        oks_sent(course.actions.take(n)) <= 1,
        may_send_ok(course.stages[n]) ==> oks_sent(course.actions.take(n)) == 0,
    decreases n,
{
    if n > 0 {
        law_the_success_message_is_sent_at_most_once(course, n - 1);
        assert(course.step_ok(n - 1));
        lemma_ok_uses_up_the_permit(
            course.login,
            course.stages[n - 1],
            course.events[n - 1],
            course.stages[n],
            course.actions[n - 1],
        );
        assert(course.actions.take(n).drop_last() == course.actions.take(n - 1));
        assert(course.actions.take(n).last() == course.actions[n - 1]);
    }
}

/// A login at this stage, before step `n`, has everything behind it that leads
/// there.
pub open spec fn earned<E>(course: Course<E>, n: int, stage: DbAuthStage<E>) -> bool {
    match stage {
        DbAuthStage::Authorizing(_, _, _, attempt) => exists|j: int|
            0 <= j < n && (#[trigger] course.events[j] matches DbAuthEvent::State(state) && (
            state.result matches AuthResult::Accepted { user_info } && user_info
                == attempt.identity.user()) && state.protocol == attempt.identity.over()),
        DbAuthStage::Remembering(_, _, authorization) => course.authorized(n, authorization@),
        DbAuthStage::Gate(_, _, authorization) => course.authorized(n, authorization@),
        DbAuthStage::SendingOk(_, approved) => course.authorized(n, approved@)
            && course.gate_passed(n),
        DbAuthStage::Clearing(approved) => course.authorized(n, approved@) && course.gate_passed(n),
        DbAuthStage::Denying(_) => course.denied(n),
        _ => true,
    }
}

proof fn lemma_earned_stays<E>(course: Course<E>, n: int, stage: DbAuthStage<E>)
    requires
        0 <= n,
        earned(course, n, stage),
    ensures
        earned(course, n + 1, stage),
{
}

proof fn lemma_earned<E>(course: Course<E>, n: int)
    requires
        course.is_login(),
        0 <= n <= course.events.len(),
    ensures
        earned(course, n, course.stages[n]),
    decreases n,
{
    if n > 0 {
        let i = n - 1;
        lemma_earned(course, i);
        lemma_earned_stays(course, i, course.stages[i]);
        assert(course.step_ok(i));
        assert(course.events[i] == course.events[i]);
        lemma_step_earns(course, i);
    }
}

proof fn lemma_step_earns<E>(course: Course<E>, i: int)
    requires
        course.is_login(),
        0 <= i < course.events.len(),
        earned(course, i, course.stages[i]),
        earned(course, i + 1, course.stages[i]),
        course.step_ok(i),
    ensures
        earned(course, i + 1, course.stages[i + 1]),
{
    let stage = course.stages[i];
    let event = course.events[i];
    let next = course.stages[i + 1];
    let action = course.actions[i];
    match (stage, event) {
        (DbAuthStage::Authorizing(user, permit, info, attempt), DbAuthEvent::Target(answer)) => {
            let (after, asked) = choose|after: TargetStage, asked: TargetAction| #[trigger]
                attempt.stepped(answer, after, asked) && target_moves(
                    course.login,
                    user,
                    permit,
                    info,
                    TargetAttempt { identity: attempt.identity, stage: after },
                    asked,
                    next,
                    action,
                );
            match asked {
                TargetAction::Done(Ok(Some(authorization))) => {
                    law_the_authorization_is_for_the_identity(
                        attempt,
                        answer,
                        after,
                        asked,
                        authorization,
                    );
                    let j = choose|j: int|
                        0 <= j < i && (#[trigger] course.events[j] matches DbAuthEvent::State(state)
                            && (state.result matches AuthResult::Accepted { user_info } && user_info
                            == attempt.identity.user()) && state.protocol
                            == attempt.identity.over());
                    assert(course.accepted(i, authorization@)) by {
                        assert(course.events[j] is State);
                    }
                    assert(course.authorizes(i, authorization@));
                },
                _ => {},
            }
        },
        (DbAuthStage::Ticket(ticket), DbAuthEvent::Ticket(answer)) => {
            match next {
                DbAuthStage::Gate(_, _, held) => {
                    assert(course.authorizes(i, held@));
                },
                DbAuthStage::Denying(_) => {
                    assert(course.actions[i] is SendDenied);
                },
                _ => {},
            }
        },
        (DbAuthStage::Gate(_, _, _), DbAuthEvent::AdminApproval(_, _)) => {
            match next {
                DbAuthStage::Denying(_) => {
                    assert(course.actions[i] is SendDenied);
                },
                _ => {},
            }
        },
        _ => {
            match next {
                DbAuthStage::Denying(_) => {
                    if !(stage is Denying) {
                        assert(course.actions[i] is SendDenied);
                    }
                },
                _ => {},
            }
        },
    }
}

/// A login that is approved was authorized for the very target that it names,
/// after the user's authentication was accepted or a ticket was spent, and the
/// administrator's gate let this connection through.
pub proof fn law_an_approved_login_was_authorized_and_let_through<E>(course: Course<E>, i: int)
    requires
        course.is_login(),
        0 <= i < course.events.len(),
        course.actions[i] matches DbAuthAction::Done(Ok(Some(_))),
    ensures
        course.actions[i] matches DbAuthAction::Done(Ok(Some(approved))) && course.authorized(
            i,
            approved@,
        ) && course.gate_passed(i + 1),
{
    lemma_earned(course, i);
    assert(course.step_ok(i));
    assert(course.events[i] == course.events[i]);
}

/// A login that ends without an approval and without a failure has told the
/// client of the denial: the caller only has to stop.
pub proof fn law_a_denied_client_has_been_told<E>(course: Course<E>, i: int)
    requires
        course.is_login(),
        0 <= i < course.events.len(),
        course.actions[i] == DbAuthAction::<E>::Done(Ok(None)),
    ensures
        course.denied(i),
{
    lemma_earned(course, i);
    assert(course.step_ok(i));
}

/// How often the client is told of a denial among these actions.
pub open spec fn denials_sent<E>(actions: Seq<DbAuthAction<E>>) -> nat
    decreases actions.len(),
{
    if actions.len() == 0 {
        0
    } else {
        denials_sent(actions.drop_last()) + if actions.last() is SendDenied {
            1nat
        } else {
            0nat
        }
    }
}

proof fn lemma_denials<E>(course: Course<E>, n: int)
    requires
        course.is_login(),
        0 <= n <= course.actions.len(),
    ensures
        course.stages[n] is Denying ==> denials_sent(course.actions.take(n)) == 1,
        !(course.stages[n] is Denying || course.stages[n] is Over) ==> denials_sent(
            course.actions.take(n),
        ) == 0,
    decreases n,
{
    if n > 0 {
        lemma_denials(course, n - 1);
        assert(course.step_ok(n - 1));
        assert(course.actions.take(n).drop_last() == course.actions.take(n - 1));
        assert(course.actions.take(n).last() == course.actions[n - 1]);
    }
}

/// A login that is denied tells the client so exactly once, and one that is
/// approved never does.
pub proof fn law_a_denial_is_sent_exactly_once<E>(course: Course<E>, i: int)
    requires
        course.is_login(),
        0 <= i < course.events.len(),
    ensures
        course.actions[i] == DbAuthAction::<E>::Done(Ok(None)) ==> denials_sent(
            course.actions.take(i + 1),
        ) == 1,
        (course.actions[i] matches DbAuthAction::Done(Ok(Some(_)))) ==> denials_sent(
            course.actions.take(i + 1),
        ) == 0,
{
    lemma_denials(course, i);
    assert(course.step_ok(i));
    assert(course.actions.take(i + 1).drop_last() == course.actions.take(i));
    assert(course.actions.take(i + 1).last() == course.actions[i]);
}

/// How often a failed attempt is recorded among these actions.
pub open spec fn failures_recorded<E>(actions: Seq<DbAuthAction<E>>) -> nat
    decreases actions.len(),
{
    if actions.len() == 0 {
        0
    } else {
        failures_recorded(actions.drop_last()) + if actions.last() is RecordFailure {
            1nat
        } else {
            0nat
        }
    }
}

/// A login records at most one failed attempt. One that is under way or approved
/// has recorded none.
pub proof fn law_a_failure_is_recorded_at_most_once<E>(course: Course<E>, n: int)
    requires
        course.is_login(),
        0 <= n <= course.actions.len(),
    ensures
        failures_recorded(course.actions.take(n)) <= 1,
        !(course.stages[n] is Recording || course.stages[n] is Denying || course.stages[n] is Over)
            ==> failures_recorded(course.actions.take(n)) == 0,
        n > 0 && (course.actions[n - 1] matches DbAuthAction::Done(Ok(Some(_))))
            ==> failures_recorded(course.actions.take(n)) == 0,
    decreases n,
{
    if n > 0 {
        law_a_failure_is_recorded_at_most_once(course, n - 1);
        assert(course.step_ok(n - 1));
        assert(course.actions.take(n).drop_last() == course.actions.take(n - 1));
        assert(course.actions.take(n).last() == course.actions[n - 1]);
    }
}

/// Before step `n` an administrator's gate let the connection through and used
/// up the permit that it was given, for a message of its own.
pub open spec fn gate_took_the_permit<E>(course: Course<E>, n: int) -> bool {
    exists|j: int| 0 <= j < n && #[trigger] takes_the_permit(course, j)
}

/// Step `j` is that of a gate which lets the connection through and does not
/// give the permit back.
pub open spec fn takes_the_permit<E>(course: Course<E>, j: int) -> bool {
    &&& course.stages[j] matches DbAuthStage::Gate(_, true, _)
    &&& course.events[j] matches DbAuthEvent::AdminApproval(Ok(true), None)
}

proof fn lemma_oks<E>(course: Course<E>, n: int)
    requires
        course.is_login(),
        0 <= n <= course.actions.len(),
    ensures
        !(course.stages[n] is Clearing || course.stages[n] is Over) ==> !gate_took_the_permit(
            course,
            n,
        ),
        match course.stages[n] {
            DbAuthStage::Recording | DbAuthStage::Denying(_) | DbAuthStage::Over => true,
            DbAuthStage::Clearing(_) => oks_sent(course.actions.take(n)) == if gate_took_the_permit(
                course,
                n,
            ) {
                0nat
            } else {
                1nat
            },
            stage => oks_sent(course.actions.take(n)) == if may_send_ok(stage) {
                0nat
            } else {
                1nat
            },
        },
    decreases n,
{
    if n > 0 {
        lemma_oks(course, n - 1);
        lemma_permit_taken(course, n - 1);
        assert(course.step_ok(n - 1));
        assert(course.actions.take(n).drop_last() == course.actions.take(n - 1));
        assert(course.actions.take(n).last() == course.actions[n - 1]);
    }
}

proof fn lemma_permit_taken<E>(course: Course<E>, n: int)
    requires
        0 <= n,
    ensures
        gate_took_the_permit(course, n + 1) == (gate_took_the_permit(course, n)
            || takes_the_permit(course, n)),
{
}

/// A login that is approved sends the success message exactly once, unless the
/// administrator's gate used up the permit: then it sends none itself.
pub proof fn law_an_approved_login_sends_the_success_message_once<E>(course: Course<E>, i: int)
    requires
        course.is_login(),
        0 <= i < course.events.len(),
        course.actions[i] matches DbAuthAction::Done(Ok(Some(_))),
    ensures
        oks_sent(course.actions.take(i + 1)) == if gate_took_the_permit(course, i + 1) {
            0nat
        } else {
            1nat
        },
{
    lemma_oks(course, i);
    lemma_permit_taken(course, i);
    assert(course.step_ok(i));
    assert(course.actions.take(i + 1).drop_last() == course.actions.take(i));
    assert(course.actions.take(i + 1).last() == course.actions[i]);
}

/// The address was found not to be blocked before step `n`.
pub open spec fn address_cleared<E>(course: Course<E>, n: int) -> bool {
    exists|j: int|
        0 <= j < n && (#[trigger] course.events[j] matches DbAuthEvent::IpBlocked(Ok(false)))
}

/// The user was found not to be locked before step `n`.
pub open spec fn user_cleared<E>(course: Course<E>, n: int) -> bool {
    exists|j: int|
        0 <= j < n && (#[trigger] course.events[j] matches DbAuthEvent::UserLocked(Ok(false)))
}

/// A login at this stage may still be approved, and is past the check of its
/// address.
pub open spec fn past_address_check<E>(stage: DbAuthStage<E>) -> bool {
    !(stage is CheckingIp || stage is Recording || stage is Denying || stage is Over)
}

proof fn lemma_user_login_clears<E>(course: Course<E>, n: int)
    requires
        course.is_login(),
        course.stages[0] matches DbAuthStage::CheckingIp(AuthSelector::User { .. }),
        0 <= n <= course.events.len(),
    ensures
        !(course.stages[n] is Ticket),
        course.stages[n] matches DbAuthStage::CheckingIp(selector) ==> selector is User,
        past_address_check(course.stages[n]) ==> address_cleared(course, n),
        past_address_check(course.stages[n]) && !(course.stages[n] is CheckingUser)
            ==> user_cleared(course, n),
    decreases n,
{
    if n > 0 {
        lemma_user_login_clears(course, n - 1);
        assert(course.step_ok(n - 1));
        assert(course.events[n - 1] == course.events[n - 1]);
    }
}

/// A login by a user's name is approved only if its address is not blocked, the
/// user is not locked, and the whole authentication was accepted for the user
/// that is let in: a ticket of the user's adds the target, and stands for none
/// of these.
pub proof fn law_an_approved_user_passed_every_check<E>(course: Course<E>, i: int)
    requires
        course.is_login(),
        course.stages[0] matches DbAuthStage::CheckingIp(AuthSelector::User { .. }),
        0 <= i < course.events.len(),
        course.actions[i] matches DbAuthAction::Done(Ok(Some(_))),
    ensures
        address_cleared(course, i),
        user_cleared(course, i),
        course.actions[i] matches DbAuthAction::Done(Ok(Some(approved))) && course.accepted(
            i,
            approved@,
        ),
{
    law_an_approved_login_was_authorized_and_let_through(course, i);
    lemma_user_login_clears(course, i);
    assert(course.step_ok(i));
    match course.actions[i] {
        DbAuthAction::Done(Ok(Some(approved))) => {
            let j = choose|j: int| 0 <= j < i && #[trigger] course.authorizes(j, approved@);
            lemma_user_login_clears(course, j);
            assert(course.accepted(j, approved@));
        },
        _ => {},
    }
}

/// The stages that a login reaches only if its protocol can show a web approval
/// link.
pub open spec fn shows_web_approval<E>(stage: DbAuthStage<E>) -> bool {
    stage is Preparing || stage is SendingOkFirst || stage is WebPrompting || stage is Waiting
}

/// A protocol that cannot show a web approval link is never asked to.
pub proof fn law_an_unsupported_web_approval_is_never_shown<E>(course: Course<E>, n: int)
    requires
        course.is_login(),
        !course.login.supports_web_approval,
        0 <= n <= course.events.len(),
    ensures
        !shows_web_approval(course.stages[n]),
        n > 0 ==> !(course.actions[n - 1] is PrepareWebApproval) && !(course.actions[n
            - 1] is SendWebApprovalPrompt),
    decreases n,
{
    if n > 0 {
        law_an_unsupported_web_approval_is_never_shown(course, n - 1);
        assert(course.step_ok(n - 1));
    }
}

/// A login at this stage is approved or over, and is not denied any more.
pub open spec fn past_denial<E>(stage: DbAuthStage<E>) -> bool {
    stage is SendingOk || stage is Clearing || stage is Over
}

proof fn lemma_past_denial<E>(course: Course<E>, i: int, j: int)
    requires
        course.is_login(),
        0 <= i <= j <= course.events.len(),
        past_denial(course.stages[i]),
    ensures
        past_denial(course.stages[j]),
        i < j ==> !(course.actions[j - 1] is SendDenied),
    decreases j,
{
    if i < j {
        lemma_past_denial(course, i, j - 1);
        assert(course.step_ok(j - 1));
    }
}

/// A client whose protocol cannot show a web approval link is never sent the
/// success message and then a denial.
pub proof fn law_no_denial_follows_the_success_message<E>(course: Course<E>, i: int, j: int)
    requires
        course.is_login(),
        !course.login.supports_web_approval,
        0 <= i < j < course.events.len(),
        course.actions[i] is SendAuthOk,
    ensures
        !(course.actions[j] is SendDenied),
{
    law_an_unsupported_web_approval_is_never_shown(course, i);
    law_an_unsupported_web_approval_is_never_shown(course, i + 1);
    assert(course.step_ok(i));
    lemma_past_denial(course, i + 1, j + 1);
}

/// A check that fails never lets a login through: the login ends with the
/// failure, at whatever stage the check was.
pub proof fn law_a_failed_check_fails_the_login<E>(
    login: DbLogin,
    stage: DbAuthStage<E>,
    event: DbAuthEvent<E>,
    next: DbAuthStage<E>,
    action: DbAuthAction<E>,
)
    requires
        stepped(login, stage, event, next, action),
    ensures
        match (stage, event) {
            (DbAuthStage::CheckingIp(_), DbAuthEvent::IpBlocked(Err(error))) => action
                == DbAuthAction::<E>::Done(Err(DbAuthFailure::Core(error))),
            (DbAuthStage::CheckingUser(_), DbAuthEvent::UserLocked(Err(error))) => action
                == DbAuthAction::<E>::Done(Err(DbAuthFailure::Core(error))),
            (DbAuthStage::Creating(_), DbAuthEvent::AuthStateCreated(Err(error))) => action
                == DbAuthAction::<E>::Done(Err(DbAuthFailure::Core(error))),
            (DbAuthStage::Submitting(_, _), DbAuthEvent::PasswordSubmitted(Err(error))) => action
                == DbAuthAction::<E>::Done(Err(DbAuthFailure::Core(error))),
            (DbAuthStage::Bypassing(_, _), DbAuthEvent::WebApprovalBypass(Err(error))) => action
                == DbAuthAction::<E>::Done(Err(DbAuthFailure::Core(error))),
            (DbAuthStage::Gate(_, _, _), DbAuthEvent::AdminApproval(Err(failure), _)) => action
                == DbAuthAction::<E>::Done(Err(failure)),
            _ => true,
        },
{
}

/// Nothing is done any more once a login is over.
pub proof fn law_a_finished_login_does_nothing<E>(
    login: DbLogin,
    event: DbAuthEvent<E>,
    next: DbAuthStage<E>,
    action: DbAuthAction<E>,
)
    requires
        stepped(login, DbAuthStage::Over, event, next, action),
    ensures
        next is Over,
        action is Unexpected,
{
}

} // verus!
