//! Authorizing a database login for its target: by a role, or else by one of
//! the user's own tickets.
use vstd::prelude::*;

use crate::config_providers::{
    active, authorize_for_target, grant_of, granted, AuthorizedIdentity, Grant, TargetAuthorization,
};
use crate::model::{Target, TargetOptions, Ticket, Timestamp, WarpgateError};
use crate::tickets::{
    after_spending, authorize_active_self_service_ticket, begun,
    grant_active_self_service_ticket, GrantAction, TicketGrant,
};

verus! {

/// What authorizing for a target does next.
pub enum TargetAction {
    /// Look up the target of this name.
    FindTarget(String),
    /// Ask whether a role of the user grants the target.
    AskRole { user_id: u128, target_id: u128 },
    /// List the tickets stored for the user and the target.
    ListTickets { user_id: u128, target_id: u128 },
    /// Spend a use of this ticket.
    Spend(u128),
    /// The attempt is over, with the authorization or without one.
    Done(Result<Option<TargetAuthorization<TargetOptions>>, WarpgateError>),
    /// The event answers no question that was asked; nothing has changed.
    Unexpected,
}

/// The answer to a [`TargetAction`].
#[derive(Debug)]
pub enum TargetEvent {
    Target(Result<Option<Target>, WarpgateError>),
    Role(Result<bool, WarpgateError>),
    /// The stored tickets, and the time of the look-up.
    Tickets(Result<Vec<Ticket>, WarpgateError>, Timestamp),
    Spent(Result<(), WarpgateError>),
}

/// How far authorizing for a target has come.
#[derive(Debug)]
pub enum TargetStage {
    Lookup,
    Role(Target),
    Tickets(Target),
    Spending(Target, TicketGrant),
    Over,
}

/// An attempt to authorize `identity` for a target.
pub struct TargetAttempt {
    pub identity: AuthorizedIdentity,
    pub stage: TargetStage,
}

/// The attempt ends with this authorization, or without one.
pub open spec fn ends(
    next: TargetStage,
    action: TargetAction,
    grant: Option<Grant<TargetOptions>>,
) -> bool {
    &&& next is Over
    &&& action matches TargetAction::Done(Ok(authorization))
    &&& granted(authorization) == grant
}

/// The attempt ends with this error.
pub open spec fn breaks(next: TargetStage, action: TargetAction, error: WarpgateError) -> bool {
    next is Over && action == TargetAction::Done(Err(error))
}

impl TargetAttempt {
    /// The attempt goes on as granting through a ticket says.
    pub open spec fn goes_on(
        self,
        target: Target,
        left: Seq<u128>,
        grant: GrantAction,
        next: TargetStage,
        action: TargetAction,
    ) -> bool {
        match grant {
            GrantAction::Spend(id) => {
                &&& next matches TargetStage::Spending(kept, tickets)
                &&& kept == target
                &&& tickets@ == left
                &&& action == TargetAction::Spend(id)
            },
            GrantAction::Done(Ok(Some(id))) => ends(
                next,
                action,
                Some(grant_of(self.identity.user(), target, self.identity.over(), Some(id))),
            ),
            GrantAction::Done(Ok(None)) => ends(next, action, None),
            GrantAction::Done(Err(error)) => breaks(next, action, error),
        }
    }

    /// The attempt stands at `next`, and does `action`, once `event` answered
    /// its last question. A role counts whatever protocol the target speaks; a
    /// ticket is looked for only if no role grants the target and the target
    /// speaks the protocol of the login.
    pub open spec fn stepped(
        self,
        event: TargetEvent,
        next: TargetStage,
        action: TargetAction,
    ) -> bool {
        let user_id = self.identity.user().id;
        match (self.stage, event) {
            (TargetStage::Lookup, TargetEvent::Target(found)) => match found {
                Ok(Some(target)) => next == TargetStage::Role(target) && action
                    == (TargetAction::AskRole { user_id, target_id: target.id }),
                Ok(None) => ends(next, action, None),
                Err(error) => breaks(next, action, error),
            },
            (TargetStage::Role(target), TargetEvent::Role(role)) => match role {
                Ok(true) => ends(
                    next,
                    action,
                    Some(grant_of(self.identity.user(), target, self.identity.over(), None)),
                ),
                Ok(false) => if target.options.spec_protocol() != self.identity.over() {
                    ends(next, action, None)
                } else {
                    next == TargetStage::Tickets(target) && action == (TargetAction::ListTickets {
                        user_id,
                        target_id: target.id,
                    })
                },
                Err(error) => breaks(next, action, error),
            },
            (TargetStage::Tickets(target), TargetEvent::Tickets(found, now)) => match found {
                Ok(tickets) => {
                    let (left, grant) = begun(active(tickets@, user_id, target.id, now));
                    self.goes_on(target, left, grant, next, action)
                },
                Err(error) => breaks(next, action, error),
            },
            (TargetStage::Spending(target, tickets), TargetEvent::Spent(spent)) => self.goes_on(
                target,
                after_spending(tickets@, spent).0,
                after_spending(tickets@, spent).1,
                next,
                action,
            ),
            (stage, _) => next == stage && action is Unexpected,
        }
    }

    /// A ticket is only looked for, or spent, for a target that speaks the
    /// protocol of the login.
    pub open spec fn wf(self) -> bool {
        match self.stage {
            TargetStage::Tickets(target) => target.options.spec_protocol() == self.identity.over(),
            TargetStage::Spending(target, _) => target.options.spec_protocol()
                == self.identity.over(),
            _ => true,
        }
    }

    fn go_on(
        identity: AuthorizedIdentity,
        target: Target,
        tickets: TicketGrant,
        grant: GrantAction,
    ) -> (r: (TargetAttempt, TargetAction))
        ensures
            r.0.identity == identity,
            r.0.goes_on(target, tickets@, grant, r.0.stage, r.1),
    {
        match grant {
            GrantAction::Spend(id) => (
                TargetAttempt { identity, stage: TargetStage::Spending(target, tickets) },
                TargetAction::Spend(id),
            ),
            GrantAction::Done(ticket) => {
                let r: Result<Option<TargetAuthorization<TargetOptions>>, WarpgateError> =
                    authorize_active_self_service_ticket(identity.clone(), target, ticket);
                (TargetAttempt { identity, stage: TargetStage::Over }, TargetAction::Done(r))
            },
        }
    }

    /// Goes on with the answer to the last action.
    pub fn step(self, event: TargetEvent) -> (r: (TargetAttempt, TargetAction))
        ensures
            r.0.identity == self.identity,
            self.stepped(event, r.0.stage, r.1),
            self.wf() ==> r.0.wf(),
    {
        let TargetAttempt { identity, stage } = self;
        let user_id: u128 = identity.user_info().id;
        match (stage, event) {
            (TargetStage::Lookup, TargetEvent::Target(found)) => match found {
                Ok(Some(target)) => {
                    let target_id: u128 = target.id;
                    (
                        TargetAttempt { identity, stage: TargetStage::Role(target) },
                        TargetAction::AskRole { user_id, target_id },
                    )
                },
                Ok(None) => (
                    TargetAttempt { identity, stage: TargetStage::Over },
                    TargetAction::Done(Ok(None)),
                ),
                Err(error) => (
                    TargetAttempt { identity, stage: TargetStage::Over },
                    TargetAction::Done(Err(error)),
                ),
            },
            (TargetStage::Role(target), TargetEvent::Role(role)) => {
                match role {
                    Ok(false) => {
                        if target.options.protocol() != identity.protocol() {
                            return (
                                TargetAttempt { identity, stage: TargetStage::Over },
                                TargetAction::Done(Ok(None)),
                            );
                        }
                        let target_id: u128 = target.id;
                        (
                            TargetAttempt { identity, stage: TargetStage::Tickets(target) },
                            TargetAction::ListTickets { user_id, target_id },
                        )
                    },
                    role => {
                        let r: Result<Option<TargetAuthorization<TargetOptions>>, WarpgateError> =
                            authorize_for_target(&identity, target, role);
                        (TargetAttempt { identity, stage: TargetStage::Over }, TargetAction::Done(r))
                    },
                }
            },
            (TargetStage::Tickets(target), TargetEvent::Tickets(found, now)) => match found {
                Ok(stored) => {
                    let (tickets, grant): (TicketGrant, GrantAction) =
                        grant_active_self_service_ticket(&stored, user_id, target.id, now);
                    TargetAttempt::go_on(identity, target, tickets, grant)
                },
                Err(error) => (
                    TargetAttempt { identity, stage: TargetStage::Over },
                    TargetAction::Done(Err(error)),
                ),
            },
            (TargetStage::Spending(target, tickets), TargetEvent::Spent(spent)) => {
                let (tickets, grant): (TicketGrant, GrantAction) = tickets.on_spent(spent);
                TargetAttempt::go_on(identity, target, tickets, grant)
            },
            (stage, _) => (TargetAttempt { identity, stage }, TargetAction::Unexpected),
        }
    }
}

/// Begins to authorize `identity` for the target of this name. The identity is
/// fully authenticated already: a ticket adds the target to it, and stands for
/// no credential. A missing target, a user without a role or a ticket, and a
/// target of another protocol end alike.
pub fn authorize_for_target_or_ticket(identity: AuthorizedIdentity, target_name: String) -> (r: (
    TargetAttempt,
    TargetAction,
))
    ensures
        r.0.identity == identity,
        r.0.stage is Lookup,
        r.0.wf(),
        r.1 matches TargetAction::FindTarget(name) && name@ == target_name@,
{
    (
        TargetAttempt { identity, stage: TargetStage::Lookup },
        TargetAction::FindTarget(target_name),
    )
}

/// An authorization is always for the user who authenticated and under the
/// protocol of that login, whether a role gave it or a ticket.
pub proof fn law_the_authorization_is_for_the_identity(
    attempt: TargetAttempt,
    event: TargetEvent,
    next: TargetStage,
    action: TargetAction,
    authorization: TargetAuthorization<TargetOptions>,
)
    requires
        attempt.stepped(event, next, action),
        action == TargetAction::Done(Ok(Some(authorization))),
    ensures
        authorization@.user == attempt.identity.user(),
        authorization@.protocol == attempt.identity.over(),
        authorization@.target.options == authorization@.target.target.options,
{
}

/// A role grants the target without a ticket: the attempt ends at once, and no
/// ticket is named in the authorization or spent.
pub proof fn law_a_role_wins_without_a_ticket(
    attempt: TargetAttempt,
    target: Target,
    next: TargetStage,
    action: TargetAction,
)
    requires
        attempt.stage == TargetStage::Role(target),
        attempt.stepped(TargetEvent::Role(Ok(true)), next, action),
    ensures
        next is Over,
        action matches TargetAction::Done(Ok(Some(authorization))) && authorization@.ticket is None
            && authorization@.target.target == target,
{
}

/// A ticket of the user's is listed or spent only for a target that speaks the
/// protocol of the login.
pub proof fn law_no_ticket_is_spent_across_protocols(
    attempt: TargetAttempt,
    event: TargetEvent,
    next: TargetStage,
    action: TargetAction,
)
    requires
        attempt.wf(),
        attempt.stepped(event, next, action),
        action is ListTickets || action is Spend,
    ensures
        match next {
            TargetStage::Tickets(target) => target.options.spec_protocol()
                == attempt.identity.over(),
            TargetStage::Spending(target, _) => target.options.spec_protocol()
                == attempt.identity.over(),
            _ => false,
        },
{
}

} // verus!
