//! Tickets as grants: spending one on behalf of a user who authenticated
//! otherwise, and logging in with the secret of one.
use vstd::arithmetic::power::pow;
use vstd::prelude::*;

use crate::config_providers::{
    active, active_self_service_tickets, attempted, grant_of, AuthorizedIdentity, Grant,
    TargetAuthorization,
};
use crate::model::{
    AuthStateUserInfo, IpAddr, Protocol, Target, TargetOptions, Ticket, Timestamp, WarpgateError,
};

verus! {

/// The identifiers of the tickets with a limited number of uses, of which at
/// least one is left, in order.
pub open spec fn bounded(candidates: Seq<Ticket>) -> Seq<u128>
    decreases candidates.len(),
{
    if candidates.len() == 0 {
        Seq::empty()
    } else {
        let init = bounded(candidates.drop_last());
        match candidates.last().uses_left {
            Some(left) if left > 0 => init.push(candidates.last().id),
            _ => init,
        }
    }
}

/// The first ticket without a limit on its uses.
pub open spec fn unlimited(candidates: Seq<Ticket>) -> Option<u128>
    decreases candidates.len(),
{
    if candidates.len() == 0 {
        None
    } else {
        match unlimited(candidates.drop_last()) {
            Some(id) => Some(id),
            None => if candidates.last().uses_left is None {
                Some(candidates.last().id)
            } else {
                None
            },
        }
    }
}

/// What granting access through a ticket does next.
#[derive(Debug)]
pub enum GrantAction {
    /// Spend a use of this ticket, and hand the outcome to
    /// [`TicketGrant::on_spent`].
    Spend(u128),
    /// The ticket that grants access, or `None` if there is none.
    Done(Result<Option<u128>, WarpgateError>),
}

/// What is done with the tickets that are left to try.
pub open spec fn try_next(rest: Seq<u128>) -> GrantAction {
    if rest.len() == 0 {
        GrantAction::Done(Ok(None))
    } else {
        GrantAction::Spend(rest[0])
    }
}

/// The tickets to try, and what is done first, with these candidates. A ticket
/// without a limit grants access at once, and nothing is spent.
pub open spec fn begun(candidates: Seq<Ticket>) -> (Seq<u128>, GrantAction) {
    match unlimited(candidates) {
        Some(id) => (Seq::empty(), GrantAction::Done(Ok(Some(id)))),
        None => (bounded(candidates), try_next(bounded(candidates))),
    }
}

/// The tickets left to try, and what is done next, once spending a use of the
/// first one came to `spent`. A ticket that was used up meanwhile gives way to
/// the next; any other failure ends the attempt.
pub open spec fn after_spending(rest: Seq<u128>, spent: Result<(), WarpgateError>) -> (
    Seq<u128>,
    GrantAction,
) {
    if rest.len() == 0 {
        (rest, GrantAction::Done(Ok(None)))
    } else {
        match spent {
            Ok(_) => (Seq::empty(), GrantAction::Done(Ok(Some(rest[0])))),
            Err(WarpgateError::InvalidTicket(_)) => (
                rest.drop_first(),
                try_next(rest.drop_first()),
            ),
            Err(error) => (Seq::empty(), GrantAction::Done(Err(error))),
        }
    }
}

/// An attempt to grant access through one of a user's tickets.
#[derive(Debug)]
pub struct TicketGrant {
    ids: Vec<u128>,
    at: usize,
}

impl View for TicketGrant {
    type V = Seq<u128>;

    /// The tickets that are left to try, the one being spent first.
    closed spec fn view(&self) -> Seq<u128> {
        self.ids@.skip(self.at as int)
    }
}

impl TicketGrant {
    #[verifier::type_invariant]
    spec fn within(self) -> bool {
        self.at <= self.ids.len()
    }

    fn next_action(&self) -> (action: GrantAction)
        ensures
            action == try_next(self@),
    {
        proof {
            use_type_invariant(self);
        }
        if self.at < self.ids.len() {
            GrantAction::Spend(self.ids[self.at])
        } else {
            GrantAction::Done(Ok(None))
        }
    }

    /// The attempt goes on with what spending a use of the first ticket gave.
    pub fn on_spent(self, spent: Result<(), WarpgateError>) -> (r: (TicketGrant, GrantAction))
        ensures
            (r.0@, r.1) == after_spending(self@, spent),
    {
        proof {
            use_type_invariant(&self);
        }
        if self.at >= self.ids.len() {
            let action: GrantAction = GrantAction::Done(Ok(None));
            return (self, action);
        }
        let end: usize = self.ids.len();
        let id: u128 = self.ids[self.at];
        match spent {
            Ok(_) => {
                let over: TicketGrant = TicketGrant { ids: self.ids, at: end };
                assert(over@ =~= Seq::empty());
                (over, GrantAction::Done(Ok(Some(id))))
            },
            Err(WarpgateError::InvalidTicket(_)) => {
                let next: TicketGrant = TicketGrant { ids: self.ids, at: self.at + 1 };
                assert(next@ =~= self@.drop_first());
                let action: GrantAction = next.next_action();
                (next, action)
            },
            Err(error) => {
                let over: TicketGrant = TicketGrant { ids: self.ids, at: end };
                assert(over@ =~= Seq::empty());
                (over, GrantAction::Done(Err(error)))
            },
        }
    }
}

fn bounded_ids(candidates: &Vec<Ticket>) -> (ids: Vec<u128>)
    ensures
        ids@ == bounded(candidates@),
{
    let mut ids: Vec<u128> = Vec::new();
    let mut i: usize = 0;
    assert(ids@ =~= bounded(candidates@.take(0)));
    while i < candidates.len()
        invariant
            i <= candidates.len(),
            ids@ == bounded(candidates@.take(i as int)),
        decreases candidates.len() - i,
    {
        assert(candidates@.take(i + 1).drop_last() == candidates@.take(i as int));
        assert(candidates@.take(i + 1).last() == candidates@[i as int]);
        match candidates[i].uses_left {
            Some(left) => {
                if left > 0 {
                    ids.push(candidates[i].id);
                }
            },
            None => {},
        }
        i += 1;
    }
    assert(candidates@.take(candidates.len() as int) == candidates@);
    ids
}

/// Begins to grant `user_id` access to `target_id` through one of the stored
/// tickets. One without a limit on its uses is preferred, and nothing is spent
/// then: a single operation of a client can fan out into many requests.
/// Otherwise a use is spent of one of the others.
pub fn grant_active_self_service_ticket(
    tickets: &Vec<Ticket>,
    user_id: u128,
    target_id: u128,
    now: Timestamp,
) -> (r: (TicketGrant, GrantAction))
    ensures
        (r.0@, r.1) == begun(active(tickets@, user_id, target_id, now)),
{
    let candidates: Vec<Ticket> = active_self_service_tickets(tickets, user_id, target_id, now);
    let ghost view = candidates@;
    let mut i: usize = 0;
    while i < candidates.len()
        invariant
            i <= candidates.len(),
            candidates@ == view,
            view == active(tickets@, user_id, target_id, now),
            unlimited(view.take(i as int)) is None,
        decreases candidates.len() - i,
    {
        assert(view.take(i + 1).drop_last() == view.take(i as int));
        assert(view.take(i + 1).last() == view[i as int]);
        if candidates[i].uses_left.is_none() {
            proof {
                lemma_unlimited_is_first(view, i + 1);
            }
            let grant: TicketGrant = TicketGrant { ids: Vec::new(), at: 0 };
            assert(grant@ =~= Seq::empty());
            return (grant, GrantAction::Done(Ok(Some(candidates[i].id))));
        }
        i += 1;
    }
    assert(view.take(view.len() as int) == view);
    let grant: TicketGrant = TicketGrant { ids: bounded_ids(&candidates), at: 0 };
    assert(grant@ =~= bounded(view));
    let action: GrantAction = grant.next_action();
    (grant, action)
}

proof fn lemma_unlimited_is_first(candidates: Seq<Ticket>, n: int)
    requires
        0 <= n <= candidates.len(),
        unlimited(candidates.take(n)) is Some,
    ensures
        unlimited(candidates) == unlimited(candidates.take(n)),
    decreases candidates.len(),
{
    if n == candidates.len() {
        assert(candidates.take(n) == candidates);
    } else {
        assert(candidates.drop_last().take(n) == candidates.take(n));
        lemma_unlimited_is_first(candidates.drop_last(), n);
    }
}

/// What an attempt over these tickets comes to when spending a use of one after
/// the other comes to `spent`; `None` while it waits for one more outcome.
pub open spec fn grant_run(rest: Seq<u128>, spent: Seq<Result<(), WarpgateError>>) -> Option<
    Result<Option<u128>, WarpgateError>,
>
    decreases spent.len(),
{
    match try_next(rest) {
        GrantAction::Done(r) => Some(r),
        GrantAction::Spend(_) => if spent.len() == 0 {
            None
        } else {
            match after_spending(rest, spent[0]).1 {
                GrantAction::Done(r) => Some(r),
                GrantAction::Spend(_) => grant_run(
                    after_spending(rest, spent[0]).0,
                    spent.drop_first(),
                ),
            }
        },
    }
}

/// A grant through a bounded ticket has spent exactly one use: all the tickets
/// before it were found used up, and spending its own use succeeded.
pub proof fn law_a_grant_spends_one_use(rest: Seq<u128>, spent: Seq<Result<(), WarpgateError>>)
    requires
        grant_run(rest, spent) matches Some(Ok(Some(_))),
    ensures
        exists|k: int|
            #![trigger rest[k]]
            0 <= k < rest.len() && k < spent.len() && grant_run(rest, spent) == Some(
                Ok::<Option<u128>, WarpgateError>(Some(rest[k])),
            ) && spent[k] is Ok && forall|j: int|
                0 <= j < k ==> #[trigger] spent[j] matches Err(WarpgateError::InvalidTicket(_)),
    decreases spent.len(),
{
    if spent[0] is Ok {
        assert(rest[0] == rest[0]);
    } else {
        let tail = rest.drop_first();
        let later = spent.drop_first();
        law_a_grant_spends_one_use(tail, later);
        let k = choose|k: int|
            #![trigger tail[k]]
            0 <= k < tail.len() && k < later.len() && grant_run(tail, later) == Some(
                Ok::<Option<u128>, WarpgateError>(Some(tail[k])),
            ) && later[k] is Ok && forall|j: int|
                0 <= j < k ==> #[trigger] later[j] matches Err(WarpgateError::InvalidTicket(_));
        assert(rest[k + 1] == tail[k]);
        assert(spent[k + 1] == later[k]);
        assert forall|j: int| 0 <= j < k + 1 implies #[trigger] spent[j] matches Err(
            WarpgateError::InvalidTicket(_),
        ) by {
            if j > 0 {
                assert(spent[j] == later[j - 1]);
            }
        }
    }
}

/// Access is denied only once every bounded ticket was tried and found used up:
/// a lost race for one of them falls through to the next.
pub proof fn law_a_lost_race_falls_through(rest: Seq<u128>, spent: Seq<Result<(), WarpgateError>>)
    requires
        grant_run(rest, spent) == Some(Ok::<Option<u128>, WarpgateError>(None)),
    ensures
        spent.len() >= rest.len(),
        forall|j: int|
            0 <= j < rest.len() ==> #[trigger] spent[j] matches Err(
                WarpgateError::InvalidTicket(_),
            ),
    decreases spent.len(),
{
    if rest.len() > 0 {
        let tail = rest.drop_first();
        let later = spent.drop_first();
        if tail.len() > 0 {
            law_a_lost_race_falls_through(tail, later);
        }
        assert forall|j: int| 0 <= j < rest.len() implies #[trigger] spent[j] matches Err(
            WarpgateError::InvalidTicket(_),
        ) by {
            if j > 0 {
                assert(spent[j] == later[j - 1]);
            }
        }
    }
}

/// Every ticket that a use is spent of is stored for this user and target, was
/// asked for by the user, is not expired and has a use left.
pub proof fn law_only_active_tickets_are_spent(
    tickets: Seq<Ticket>,
    user_id: u128,
    target_id: u128,
    now: Timestamp,
    k: int,
)
    requires
        0 <= k < bounded(active(tickets, user_id, target_id, now)).len(),
    ensures
        exists|i: int|
            0 <= i < tickets.len() && (#[trigger] tickets[i]).id == bounded(
                active(tickets, user_id, target_id, now),
            )[k] && crate::config_providers::is_active(tickets[i], user_id, target_id, now)
                && tickets[i].uses_left is Some && tickets[i].uses_left->0 > 0,
{
    let candidates = active(tickets, user_id, target_id, now);
    let pred = |ticket: Ticket| crate::config_providers::is_active(ticket, user_id, target_id, now);
    lemma_bounded_is_from(candidates, k);
    let c = choose|c: int|
        0 <= c < candidates.len() && (#[trigger] candidates[c]).id == bounded(candidates)[k]
            && candidates[c].uses_left is Some && candidates[c].uses_left->0 > 0;
    tickets.lemma_filter_contains_rev(pred, candidates[c]);
    tickets.lemma_filter_pred(pred, c);
    let i = choose|i: int| 0 <= i < tickets.len() && tickets[i] == candidates[c];
    assert(tickets[i].id == bounded(candidates)[k]);
}

proof fn lemma_bounded_is_from(candidates: Seq<Ticket>, k: int)
    requires
        0 <= k < bounded(candidates).len(),
    ensures
        exists|c: int|
            0 <= c < candidates.len() && (#[trigger] candidates[c]).id == bounded(candidates)[k]
                && candidates[c].uses_left is Some && candidates[c].uses_left->0 > 0,
    decreases candidates.len(),
{
    let init = candidates.drop_last();
    if k < bounded(init).len() {
        lemma_bounded_is_from(init, k);
        let c = choose|c: int|
            0 <= c < init.len() && (#[trigger] init[c]).id == bounded(init)[k]
                && init[c].uses_left is Some && init[c].uses_left->0 > 0;
        assert(candidates[c].id == bounded(candidates)[k]);
    } else {
        let last = candidates.len() - 1;
        assert(candidates[last].id == bounded(candidates)[k]);
    }
}

/// What granting `identity` a target through a ticket authorizes.
pub open spec fn ticket_authorization(
    identity: AuthorizedIdentity,
    target: Target,
    ticket: Result<Option<u128>, WarpgateError>,
) -> Result<Option<Grant<TargetOptions>>, WarpgateError> {
    match ticket {
        Ok(Some(id)) => Ok(Some(grant_of(identity.user(), target, identity.over(), Some(id)))),
        Ok(None) => Ok(None),
        Err(error) => Err(error),
    }
}

/// The authorization that granting through a ticket comes to. The identity was
/// authenticated before; the ticket only adds the target to it.
pub fn authorize_active_self_service_ticket(
    identity: AuthorizedIdentity,
    target: Target,
    ticket: Result<Option<u128>, WarpgateError>,
) -> (r: Result<Option<TargetAuthorization<TargetOptions>>, WarpgateError>)
    ensures
        attempted(r) == ticket_authorization(identity, target, ticket),
{
    match ticket {
        Ok(Some(id)) => match TargetAuthorization::for_ticket_session(
            identity.user_info().clone(),
            target,
            id,
            identity.protocol(),
        ) {
            Ok(authorization) => Ok(Some(authorization)),
            Err(error) => Err(error),
        },
        Ok(None) => Ok(None),
        Err(error) => Err(error),
    }
}

/// What a valid ticket that stands for `grant` authorizes, once spending a use
/// of it came to `spent`.
pub open spec fn spending(grant: Grant<TargetOptions>, spent: Result<(), WarpgateError>) -> Result<
    Option<Grant<TargetOptions>>,
    WarpgateError,
> {
    match spent {
        Ok(_) => Ok(Some(grant)),
        Err(WarpgateError::InvalidTicket(_)) => Ok(None),
        Err(error) => Err(error),
    }
}

/// A ticket that was presented by its secret and found valid, with no use of it
/// spent. It can identify requests that join a session even after its last use
/// was spent; only [`ValidatedTicket::spend`] makes it an authorization.
pub struct ValidatedTicket {
    authorization: TargetAuthorization<TargetOptions>,
    id: u128,
}

impl View for ValidatedTicket {
    type V = Grant<TargetOptions>;

    /// What the ticket authorizes once it is spent.
    closed spec fn view(&self) -> Grant<TargetOptions> {
        self.authorization@
    }
}

impl ValidatedTicket {
    #[verifier::type_invariant]
    spec fn names_itself(self) -> bool {
        self.authorization@.ticket == Some(self.id)
    }

    pub fn id(&self) -> (id: u128)
        ensures
            self@.ticket == Some(id),
    {
        proof {
            use_type_invariant(self);
        }
        self.id
    }

    pub fn user_info(&self) -> (user_info: &AuthStateUserInfo)
        ensures
            *user_info == self@.user,
    {
        self.authorization.user_info()
    }

    pub fn target(&self) -> (target: &Target)
        ensures
            *target == self@.target.target,
    {
        self.authorization.target()
    }

    /// The authorization, with what spending a use of the ticket gave. A ticket
    /// that is revoked or used up authorizes nothing.
    pub fn spend(self, spent: Result<(), WarpgateError>) -> (r: Result<
        Option<TargetAuthorization<TargetOptions>>,
        WarpgateError,
    >)
        ensures
            attempted(r) == spending(self@, spent),
    {
        match spent {
            Ok(_) => Ok(Some(self.authorization)),
            Err(WarpgateError::InvalidTicket(_)) => Ok(None),
            Err(error) => Err(error),
        }
    }
}

/// The digit of value `v`.
pub open spec fn hex_digit(v: int) -> char {
    if v < 10 {
        ('0' as u32 + v) as char
    } else {
        ('a' as u32 + (v - 10)) as char
    }
}

/// How many hyphens stand before position `i` of an identifier's text.
pub open spec fn hyphens_before(i: int) -> int {
    if i <= 8 {
        0
    } else if i <= 13 {
        1
    } else if i <= 18 {
        2
    } else if i <= 23 {
        3
    } else {
        4
    }
}

/// The text of an identifier: its 32 hexadecimal digits in groups of 8, 4, 4, 4
/// and 12.
pub open spec fn id_text(id: u128) -> Seq<char> {
    Seq::new(
        36,
        |i: int|
            if i == 8 || i == 13 || i == 18 || i == 23 {
                '-'
            } else {
                hex_digit((id as int / pow(16, (31 - (i - hyphens_before(i))) as nat)) % 16)
            },
    )
}

/// `uuid::Uuid`'s `to_string`: the identifier in groups of lower-case
/// hexadecimal digits, with hyphens between them.
#[verifier::external_body]
fn id_to_string(id: u128) -> (text: String)
    ensures
        text@ == id_text(id),
{
    uuid::Uuid::from_u128(id).to_string()
}

/// What checking a ticket does next.
pub enum TicketAction {
    /// Look up whether this address is blocked.
    CheckIpBlocked(IpAddr),
    /// Look up the ticket of this secret, by the secret's hash.
    FindTicket(String),
    /// Look up the user of this identifier.
    FindUser(u128),
    /// Ask whether this user may log in from this address at all.
    VetBearer(u128, Option<IpAddr>),
    /// Look up the target of this identifier.
    FindTarget(u128),
    /// The check is over, with the ticket or without one.
    Done(Result<Option<ValidatedTicket>, WarpgateError>),
    /// The event answers no question that was asked; nothing has changed.
    Unexpected,
}

/// The answer to a [`TicketAction`].
#[derive(Debug)]
pub enum TicketEvent {
    IpBlocked(Result<bool, WarpgateError>),
    /// The stored ticket, and the time of the look-up.
    Ticket(Result<Option<Ticket>, WarpgateError>, Timestamp),
    User(Result<Option<AuthStateUserInfo>, WarpgateError>),
    Vetted(Result<bool, WarpgateError>),
    Target(Result<Option<Target>, WarpgateError>),
}

/// How far checking a ticket has come.
#[derive(Debug)]
pub enum TicketStage {
    Ip,
    Lookup,
    User(Ticket),
    Bearer(Ticket, AuthStateUserInfo),
    Target(Ticket, AuthStateUserInfo),
    Over,
}

/// A check of a presented ticket. It holds the secret, so it cannot be printed.
pub struct TicketCheck {
    pub secret: String,
    pub remote_ip: Option<IpAddr>,
    pub protocol: Protocol,
    pub stage: TicketStage,
}

/// What an action of a ticket check says, with the ticket it ends in by what
/// that authorizes.
pub enum TicketActionView {
    CheckIpBlocked(IpAddr),
    FindTicket(Seq<char>),
    FindUser(u128),
    VetBearer(u128, Option<IpAddr>),
    FindTarget(u128),
    Valid(Grant<TargetOptions>),
    Refused,
    Failed(WarpgateError),
    /// No user of this identifier is stored.
    UserMissing(Seq<char>),
    Unexpected,
}

impl View for TicketAction {
    type V = TicketActionView;

    open spec fn view(&self) -> TicketActionView {
        match *self {
            TicketAction::CheckIpBlocked(ip) => TicketActionView::CheckIpBlocked(ip),
            TicketAction::FindTicket(secret) => TicketActionView::FindTicket(secret@),
            TicketAction::FindUser(id) => TicketActionView::FindUser(id),
            TicketAction::VetBearer(id, ip) => TicketActionView::VetBearer(id, ip),
            TicketAction::FindTarget(id) => TicketActionView::FindTarget(id),
            TicketAction::Done(Ok(Some(ticket))) => TicketActionView::Valid(ticket@),
            TicketAction::Done(Ok(None)) => TicketActionView::Refused,
            TicketAction::Done(Err(WarpgateError::UserNotFound(id))) =>
                TicketActionView::UserMissing(id@),
            TicketAction::Done(Err(error)) => TicketActionView::Failed(error),
            TicketAction::Unexpected => TicketActionView::Unexpected,
        }
    }
}

/// An error as the end of a ticket check.
pub open spec fn failed(error: WarpgateError) -> TicketActionView {
    match error {
        WarpgateError::UserNotFound(id) => TicketActionView::UserMissing(id@),
        _ => TicketActionView::Failed(error),
    }
}

/// A ticket has expired when its expiry lies in the past.
pub open spec fn expired(ticket: Ticket, now: Timestamp) -> bool {
    ticket.expiry is Some && ticket.expiry->0.nanos < now.nanos
}

impl TicketCheck {
    /// The stage after `event`, and what is done next. A refusal does not tell
    /// an unknown ticket from one that is blocked, expired or for another
    /// protocol.
    pub open spec fn next(self, event: TicketEvent) -> (TicketStage, TicketActionView) {
        match (self.stage, event) {
            (TicketStage::Ip, TicketEvent::IpBlocked(r)) => match r {
                Ok(true) => (TicketStage::Over, TicketActionView::Refused),
                Ok(false) => (TicketStage::Lookup, TicketActionView::FindTicket(self.secret@)),
                Err(error) => (TicketStage::Over, failed(error)),
            },
            (TicketStage::Lookup, TicketEvent::Ticket(r, now)) => match r {
                Ok(Some(ticket)) => if expired(ticket, now) {
                    (TicketStage::Over, TicketActionView::Refused)
                } else {
                    (TicketStage::User(ticket), TicketActionView::FindUser(ticket.user_id))
                },
                Ok(None) => (TicketStage::Over, TicketActionView::Refused),
                Err(error) => (TicketStage::Over, failed(error)),
            },
            (TicketStage::User(ticket), TicketEvent::User(r)) => match r {
                Ok(Some(user)) => (
                    TicketStage::Bearer(ticket, user),
                    TicketActionView::VetBearer(user.id, self.remote_ip),
                ),
                Ok(None) => (
                    TicketStage::Over,
                    TicketActionView::UserMissing(id_text(ticket.user_id)),
                ),
                Err(error) => (TicketStage::Over, failed(error)),
            },
            (TicketStage::Bearer(ticket, user), TicketEvent::Vetted(r)) => match r {
                Ok(true) => (
                    TicketStage::Target(ticket, user),
                    TicketActionView::FindTarget(ticket.target_id),
                ),
                Ok(false) => (TicketStage::Over, TicketActionView::Refused),
                Err(error) => (TicketStage::Over, failed(error)),
            },
            (TicketStage::Target(ticket, user), TicketEvent::Target(r)) => match r {
                Ok(Some(target)) => if target.options.spec_protocol() == self.protocol {
                    (
                        TicketStage::Over,
                        TicketActionView::Valid(
                            grant_of(user, target, self.protocol, Some(ticket.id)),
                        ),
                    )
                } else {
                    (TicketStage::Over, TicketActionView::Refused)
                },
                Ok(None) => (TicketStage::Over, TicketActionView::Refused),
                Err(error) => (TicketStage::Over, failed(error)),
            },
            (stage, _) => (stage, TicketActionView::Unexpected),
        }
    }

    fn at(self, stage: TicketStage) -> (check: TicketCheck)
        ensures
            check.secret == self.secret,
            check.remote_ip == self.remote_ip,
            check.protocol == self.protocol,
            check.stage == stage,
    {
        TicketCheck {
            secret: self.secret,
            remote_ip: self.remote_ip,
            protocol: self.protocol,
            stage,
        }
    }

    fn over(self, r: Result<Option<ValidatedTicket>, WarpgateError>) -> (step: (
        TicketCheck,
        TicketAction,
    ))
        ensures
            step.0.secret == self.secret,
            step.0.remote_ip == self.remote_ip,
            step.0.protocol == self.protocol,
            step.0.stage is Over,
            step.1 == TicketAction::Done(r),
    {
        (self.at(TicketStage::Over), TicketAction::Done(r))
    }

    /// Goes on with the answer to the last action.
    pub fn step(self, event: TicketEvent) -> (r: (TicketCheck, TicketAction))
        ensures
            r.0.secret@ == self.secret@,
            r.0.remote_ip == self.remote_ip,
            r.0.protocol == self.protocol,
            (r.0.stage, r.1@) == self.next(event),
    {
        let TicketCheck { secret, remote_ip, protocol, stage } = self;
        match (stage, event) {
            (TicketStage::Ip, TicketEvent::IpBlocked(blocked)) => {
                let check: TicketCheck = TicketCheck {
                    secret,
                    remote_ip,
                    protocol,
                    stage: TicketStage::Lookup,
                };
                match blocked {
                    Ok(true) => check.over(Ok(None)),
                    Ok(false) => {
                        let secret: String = check.secret.clone();
                        (check, TicketAction::FindTicket(secret))
                    },
                    Err(error) => check.over(Err(error)),
                }
            },
            (TicketStage::Lookup, TicketEvent::Ticket(found, now)) => {
                let check: TicketCheck = TicketCheck {
                    secret,
                    remote_ip,
                    protocol,
                    stage: TicketStage::Over,
                };
                match found {
                    Ok(Some(ticket)) => {
                        let expired: bool = match ticket.expiry {
                            Some(expiry) => expiry.nanos < now.nanos,
                            None => false,
                        };
                        if expired {
                            check.over(Ok(None))
                        } else {
                            (
                                check.at(TicketStage::User(ticket)),
                                TicketAction::FindUser(ticket.user_id),
                            )
                        }
                    },
                    Ok(None) => check.over(Ok(None)),
                    Err(error) => check.over(Err(error)),
                }
            },
            (TicketStage::User(ticket), TicketEvent::User(found)) => {
                let check: TicketCheck = TicketCheck {
                    secret,
                    remote_ip,
                    protocol,
                    stage: TicketStage::Over,
                };
                match found {
                    Ok(Some(user)) => {
                        let id: u128 = user.id;
                        (
                            check.at(TicketStage::Bearer(ticket, user)),
                            TicketAction::VetBearer(id, remote_ip),
                        )
                    },
                    Ok(None) => check.over(
                        Err(WarpgateError::UserNotFound(id_to_string(ticket.user_id))),
                    ),
                    Err(error) => check.over(Err(error)),
                }
            },
            (TicketStage::Bearer(ticket, user), TicketEvent::Vetted(vetted)) => {
                let check: TicketCheck = TicketCheck {
                    secret,
                    remote_ip,
                    protocol,
                    stage: TicketStage::Over,
                };
                match vetted {
                    Ok(true) => (
                        check.at(TicketStage::Target(ticket, user)),
                        TicketAction::FindTarget(ticket.target_id),
                    ),
                    Ok(false) => check.over(Ok(None)),
                    Err(error) => check.over(Err(error)),
                }
            },
            (TicketStage::Target(ticket, user), TicketEvent::Target(found)) => {
                let check: TicketCheck = TicketCheck {
                    secret,
                    remote_ip,
                    protocol,
                    stage: TicketStage::Over,
                };
                match found {
                    Ok(Some(target)) => {
                        if target.options.protocol() != protocol {
                            return check.over(Ok(None));
                        }
                        match TargetAuthorization::for_ticket_session(
                            user,
                            target,
                            ticket.id,
                            protocol,
                        ) {
                            Ok(authorization) => check.over(
                                Ok(Some(ValidatedTicket { authorization, id: ticket.id })),
                            ),
                            Err(error) => check.over(Err(error)),
                        }
                    },
                    Ok(None) => check.over(Ok(None)),
                    Err(error) => check.over(Err(error)),
                }
            },
            (stage, _) => (
                TicketCheck { secret, remote_ip, protocol, stage },
                TicketAction::Unexpected,
            ),
        }
    }
}

/// Begins to check the ticket of `secret`. A blocked address is turned away
/// ahead of the look-up, so that it learns nothing about which tickets exist.
pub fn validate_ticket(secret: String, remote_ip: Option<IpAddr>, protocol: Protocol) -> (r: (
    TicketCheck,
    TicketAction,
))
    ensures
        r.0.secret@ == secret@,
        r.0.remote_ip == remote_ip,
        r.0.protocol == protocol,
        match remote_ip {
            Some(ip) => r.0.stage is Ip && r.1@ == TicketActionView::CheckIpBlocked(ip),
            None => r.0.stage is Lookup && r.1@ == TicketActionView::FindTicket(secret@),
        },
{
    match remote_ip {
        Some(ip) => (
            TicketCheck { secret, remote_ip, protocol, stage: TicketStage::Ip },
            TicketAction::CheckIpBlocked(ip),
        ),
        None => {
            let presented: String = secret.clone();
            (
                TicketCheck { secret, remote_ip, protocol, stage: TicketStage::Lookup },
                TicketAction::FindTicket(presented),
            )
        },
    }
}

/// The stage of a check after these events.
pub open spec fn stage_after(first: TicketCheck, events: Seq<TicketEvent>) -> TicketStage
    decreases events.len(),
{
    if events.len() == 0 {
        first.stage
    } else {
        (TicketCheck { stage: stage_after(first, events.drop_last()), ..first }).next(
            events.last(),
        ).0
    }
}

/// What a check does in answer to the last of these events.
pub open spec fn action_after(first: TicketCheck, events: Seq<TicketEvent>) -> TicketActionView {
    (TicketCheck { stage: stage_after(first, events.drop_last()), ..first }).next(events.last()).1
}

/// A check as it begins.
pub open spec fn begins(first: TicketCheck) -> bool {
    match first.remote_ip {
        Some(_) => first.stage is Ip,
        None => first.stage is Lookup,
    }
}

/// The address, if there is one, was found not to be blocked.
pub open spec fn ip_cleared(first: TicketCheck, events: Seq<TicketEvent>) -> bool {
    first.remote_ip is None || exists|i: int|
        0 <= i < events.len() && #[trigger] events[i] matches TicketEvent::IpBlocked(Ok(false))
}

/// This ticket was looked up before it expired.
pub open spec fn ticket_found(events: Seq<TicketEvent>, ticket: Ticket) -> bool {
    exists|i: int|
        0 <= i < events.len() && (#[trigger] events[i] matches TicketEvent::Ticket(
            Ok(Some(found)),
            now,
        ) && found == ticket && !expired(ticket, now))
}

/// This user was looked up.
pub open spec fn user_found(events: Seq<TicketEvent>, user: AuthStateUserInfo) -> bool {
    exists|i: int|
        0 <= i < events.len() && (#[trigger] events[i] matches TicketEvent::User(Ok(Some(found)))
            && found == user)
}

/// The user was found fit to log in.
pub open spec fn bearer_vetted(events: Seq<TicketEvent>) -> bool {
    exists|i: int|
        0 <= i < events.len() && #[trigger] events[i] matches TicketEvent::Vetted(Ok(true))
}

/// What a check has established when it stands at `stage`.
pub open spec fn established(
    first: TicketCheck,
    events: Seq<TicketEvent>,
    stage: TicketStage,
) -> bool {
    match stage {
        TicketStage::Ip | TicketStage::Over => true,
        TicketStage::Lookup => ip_cleared(first, events),
        TicketStage::User(ticket) => ip_cleared(first, events) && ticket_found(events, ticket),
        TicketStage::Bearer(ticket, user) => ip_cleared(first, events) && ticket_found(
            events,
            ticket,
        ) && user_found(events, user),
        TicketStage::Target(ticket, user) => ip_cleared(first, events) && ticket_found(
            events,
            ticket,
        ) && user_found(events, user) && bearer_vetted(events),
    }
}

proof fn lemma_established(first: TicketCheck, events: Seq<TicketEvent>)
    requires
        begins(first),
    ensures
        established(first, events, stage_after(first, events)),
    decreases events.len(),
{
    if events.len() > 0 {
        let before = events.drop_last();
        lemma_established(first, before);
        lemma_established_stays(first, events, stage_after(first, before));
        let last = events.len() - 1;
        assert(events[last] == events.last());
    }
}

proof fn lemma_established_stays(first: TicketCheck, events: Seq<TicketEvent>, stage: TicketStage)
    requires
        events.len() > 0,
        established(first, events.drop_last(), stage),
    ensures
        established(first, events, stage),
{
    let before = events.drop_last();
    assert forall|i: int| 0 <= i < before.len() implies #[trigger] before[i] == events[i] by {}
    if ip_cleared(first, before) && first.remote_ip is Some {
        let i = choose|i: int|
            0 <= i < before.len() && #[trigger] before[i] matches TicketEvent::IpBlocked(
                Ok(false),
            );
        assert(events[i] matches TicketEvent::IpBlocked(Ok(false)));
    }
    if bearer_vetted(before) {
        let i = choose|i: int|
            0 <= i < before.len() && #[trigger] before[i] matches TicketEvent::Vetted(Ok(true));
        assert(events[i] matches TicketEvent::Vetted(Ok(true)));
    }
    let ticket = match stage {
        TicketStage::User(ticket) => ticket,
        TicketStage::Bearer(ticket, _) => ticket,
        TicketStage::Target(ticket, _) => ticket,
        _ => arbitrary(),
    };
    if ticket_found(before, ticket) {
        let i = choose|i: int|
            0 <= i < before.len() && (#[trigger] before[i] matches TicketEvent::Ticket(
                Ok(Some(found)),
                now,
            ) && found == ticket && !expired(ticket, now));
        assert(events[i] == before[i]);
    }
    let user = match stage {
        TicketStage::Bearer(_, user) => user,
        TicketStage::Target(_, user) => user,
        _ => arbitrary(),
    };
    if user_found(before, user) {
        let i = choose|i: int|
            0 <= i < before.len() && (#[trigger] before[i] matches TicketEvent::User(
                Ok(Some(found)),
            ) && found == user);
        assert(events[i] == before[i]);
    }
}

/// A check ends in a valid ticket only if every question was answered in its
/// favour: the address is not blocked, the ticket is stored and not expired,
/// its user is stored and may log in, and its target is stored and speaks the
/// protocol. What the ticket then stands for is its own user and target.
pub proof fn law_a_valid_ticket_passed_every_check(
    first: TicketCheck,
    events: Seq<TicketEvent>,
    grant: Grant<TargetOptions>,
)
    requires
        begins(first),
        events.len() > 0,
        action_after(first, events) == TicketActionView::Valid(grant),
    ensures
        ip_cleared(first, events),
        bearer_vetted(events),
        user_found(events, grant.user),
        exists|ticket: Ticket| #[trigger]
            ticket_found(events, ticket) && grant.ticket == Some(ticket.id),
        events.last() matches TicketEvent::Target(Ok(Some(target))) && grant == grant_of(
            grant.user,
            target,
            first.protocol,
            grant.ticket,
        ) && target.options.spec_protocol() == first.protocol,
{
    let before = events.drop_last();
    let stage = stage_after(first, before);
    lemma_established(first, before);
    lemma_established_stays(first, events, stage);
    match stage {
        TicketStage::Target(ticket, _) => {
            assert(ticket_found(events, ticket));
        },
        _ => {},
    }
}

/// What logging in with a ticket does next.
pub enum TicketLoginAction {
    /// The ticket is still being checked.
    Check(TicketAction),
    /// Spend a use of this ticket.
    Spend(u128),
    /// The login is over.
    Done(Result<Option<TargetAuthorization<TargetOptions>>, WarpgateError>),
    /// The event answers no question that was asked; nothing has changed.
    Unexpected,
}

/// The answer to a [`TicketLoginAction`].
#[derive(Debug)]
pub enum TicketLoginEvent {
    Check(TicketEvent),
    Spent(Result<(), WarpgateError>),
}

/// A login with a ticket: the ticket is checked, then a use of it is spent.
pub enum TicketLogin {
    Checking(TicketCheck),
    Spending(ValidatedTicket),
    Over,
}

impl TicketLogin {
    /// The login goes on from this state to `next`, and does `action`, when
    /// `event` answers its last question.
    pub open spec fn stepped(
        self,
        event: TicketLoginEvent,
        next: TicketLogin,
        action: TicketLoginAction,
    ) -> bool {
        match (self, event) {
            (TicketLogin::Checking(check), TicketLoginEvent::Check(event)) => match check.next(
                event,
            ) {
                (_, TicketActionView::Valid(grant)) => {
                    &&& next is Spending
                    &&& next->Spending_0@ == grant
                    &&& action is Spend
                    &&& grant.ticket == Some(action->Spend_0)
                },
                (_, TicketActionView::Refused) => {
                    &&& next is Over
                    &&& action is Done
                    &&& attempted(action->Done_0) == Ok::<
                        Option<Grant<TargetOptions>>,
                        WarpgateError,
                    >(None)
                },
                (_, TicketActionView::Failed(error)) => {
                    &&& next is Over
                    &&& action is Done
                    &&& attempted(action->Done_0) == Err::<
                        Option<Grant<TargetOptions>>,
                        WarpgateError,
                    >(error)
                },
                (_, TicketActionView::UserMissing(id)) => {
                    &&& next is Over
                    &&& action matches TicketLoginAction::Done(
                        Err(WarpgateError::UserNotFound(named)),
                    )
                    &&& named@ == id
                },
                (stage, asked) => {
                    &&& next is Checking
                    &&& next->Checking_0.stage == stage
                    &&& next->Checking_0.secret@ == check.secret@
                    &&& next->Checking_0.remote_ip == check.remote_ip
                    &&& next->Checking_0.protocol == check.protocol
                    &&& action is Check
                    &&& action->Check_0@ == asked
                },
            },
            (TicketLogin::Spending(ticket), TicketLoginEvent::Spent(spent)) => {
                &&& next is Over
                &&& action is Done
                &&& attempted(action->Done_0) == spending(ticket@, spent)
            },
            (login, _) => next == login && action is Unexpected,
        }
    }

    /// Goes on with the answer to the last action.
    pub fn step(self, event: TicketLoginEvent) -> (r: (TicketLogin, TicketLoginAction))
        ensures
            self.stepped(event, r.0, r.1),
    {
        match (self, event) {
            (TicketLogin::Checking(check), TicketLoginEvent::Check(event)) => {
                let (check, action): (TicketCheck, TicketAction) = check.step(event);
                match action {
                    TicketAction::Done(Ok(Some(ticket))) => {
                        let id: u128 = ticket.id();
                        (TicketLogin::Spending(ticket), TicketLoginAction::Spend(id))
                    },
                    TicketAction::Done(Ok(None)) => (
                        TicketLogin::Over,
                        TicketLoginAction::Done(Ok(None)),
                    ),
                    TicketAction::Done(Err(error)) => (
                        TicketLogin::Over,
                        TicketLoginAction::Done(Err(error)),
                    ),
                    action => (TicketLogin::Checking(check), TicketLoginAction::Check(action)),
                }
            },
            (TicketLogin::Spending(ticket), TicketLoginEvent::Spent(spent)) => (
                TicketLogin::Over,
                TicketLoginAction::Done(ticket.spend(spent)),
            ),
            (login, _) => (login, TicketLoginAction::Unexpected),
        }
    }
}

/// Begins to log in with the ticket of `secret`, which spends a use of it.
pub fn authorize_and_spend_ticket(
    secret: String,
    remote_ip: Option<IpAddr>,
    protocol: Protocol,
) -> (r: (TicketLogin, TicketLoginAction))
    ensures
        r.0 is Checking,
        begins(r.0->Checking_0),
        r.0->Checking_0.secret@ == secret@,
        r.0->Checking_0.remote_ip == remote_ip,
        r.0->Checking_0.protocol == protocol,
        r.1 is Check,
        r.1->Check_0@ == match remote_ip {
            Some(ip) => TicketActionView::CheckIpBlocked(ip),
            None => TicketActionView::FindTicket(secret@),
        },
{
    let (check, action): (TicketCheck, TicketAction) = validate_ticket(secret, remote_ip, protocol);
    (TicketLogin::Checking(check), TicketLoginAction::Check(action))
}

/// A ticket login ends in an authorization only by spending a use of the ticket
/// that was checked: a valid ticket alone authorizes nothing.
pub proof fn law_only_a_spent_ticket_authorizes(
    login: TicketLogin,
    event: TicketLoginEvent,
    next: TicketLogin,
    action: TicketLoginAction,
)
    requires
        login.stepped(event, next, action),
        action matches TicketLoginAction::Done(Ok(Some(_))),
    ensures
        event matches TicketLoginEvent::Spent(Ok(_)),
        login is Spending,
        action matches TicketLoginAction::Done(Ok(Some(authorization))) && authorization@
            == login->Spending_0@,
{
}

} // verus!
