//! What holds of several grants and logins that race for the uses of stored
//! tickets.
//!
//! A store takes one use off a ticket in one step, and only if one is left.
//! Everything else about a race is open: which caller looks the tickets up
//! when, and in which order the attempts to spend reach the store.
use vstd::prelude::*;

use crate::config_providers::{active, grant_of, is_active, AuthorizedIdentity, Grant};
use crate::model::{Target, TargetOptions, Ticket, Timestamp, WarpgateError};
use crate::tickets::{
    action_after, after_spending, begins, begun, bounded, expired,
    law_a_valid_ticket_passed_every_check, law_only_active_tickets_are_spent, spending,
    ticket_authorization, ticket_found, try_next, unlimited, GrantAction, TicketActionView,
    TicketCheck, TicketEvent, TicketLogin, TicketLoginAction, TicketLoginEvent,
};

verus! {

/// No two stored tickets have one identifier.
pub open spec fn distinct_ids(store: Seq<Ticket>) -> bool {
    forall|i: int, j: int|
        0 <= i < j < store.len() ==> (#[trigger] store[i]).id != (#[trigger] store[j]).id
}

/// The ticket of this identifier is stored at `i`.
pub open spec fn stored_at(store: Seq<Ticket>, i: int, id: u128) -> bool {
    0 <= i < store.len() && store[i].id == id
}

/// The ticket with another number of uses.
pub open spec fn with_uses(ticket: Ticket, uses_left: Option<i16>) -> Ticket {
    Ticket { uses_left, ..ticket }
}

/// The store after an attempt to spend a use of a ticket, and what the attempt
/// comes to. A ticket without a limit stays as it is; one that is gone or has
/// no use left is invalid.
pub open spec fn spend_use(store: Seq<Ticket>, id: u128) -> (
    Seq<Ticket>,
    Result<(), WarpgateError>,
) {
    if exists|i: int| stored_at(store, i, id) {
        let i = choose|i: int| stored_at(store, i, id);
        match store[i].uses_left {
            None => (store, Ok(())),
            Some(left) => if left > 0 {
                (store.update(i, with_uses(store[i], Some((left - 1) as i16))), Ok(()))
            } else {
                (store, Err(WarpgateError::InvalidTicket(id)))
            },
        }
    } else {
        (store, Err(WarpgateError::InvalidTicket(id)))
    }
}

proof fn lemma_spend(store: Seq<Ticket>, id: u128, i: int)
    requires
        distinct_ids(store),
        stored_at(store, i, id),
        store[i].uses_left is Some,
        store[i].uses_left->0 >= 0,
    ensures
        spend_use(store, id) == if store[i].uses_left->0 > 0 {
            (
                store.update(i, with_uses(store[i], Some((store[i].uses_left->0 - 1) as i16))),
                Ok::<(), WarpgateError>(()),
            )
        } else {
            (store, Err(WarpgateError::InvalidTicket(id)))
        },
        distinct_ids(spend_use(store, id).0),
{
    let k = choose|k: int| stored_at(store, k, id);
    assert(stored_at(store, i, id));
    if k < i {
        assert(store[k].id != store[i].id);
    } else if i < k {
        assert(store[i].id != store[k].id);
    }
}

/// The sum of what `f` makes of each item.
pub open spec fn sum<A>(items: Seq<A>, f: spec_fn(A) -> int) -> int
    decreases items.len(),
{
    if items.len() == 0 {
        0
    } else {
        sum(items.drop_last(), f) + f(items.last())
    }
}

proof fn lemma_sum_update<A>(items: Seq<A>, f: spec_fn(A) -> int, i: int, item: A)
    requires
        0 <= i < items.len(),
    ensures
        sum(items.update(i, item), f) == sum(items, f) - f(items[i]) + f(item),
    decreases items.len(),
{
    let updated = items.update(i, item);
    if i == items.len() - 1 {
        assert(updated.drop_last() =~= items.drop_last());
    } else {
        assert(updated.drop_last() =~= items.drop_last().update(i, item));
        lemma_sum_update(items.drop_last(), f, i, item);
    }
}

proof fn lemma_sum_bounds<A>(items: Seq<A>, f: spec_fn(A) -> int, low: int, high: int)
    requires
        forall|i: int| 0 <= i < items.len() ==> low <= f(#[trigger] items[i]) <= high,
    ensures
        low * items.len() <= sum(items, f) <= high * items.len(),
    decreases items.len(),
{
    if items.len() > 0 {
        let init = items.drop_last();
        assert forall|i: int| 0 <= i < init.len() implies low <= f(#[trigger] init[i]) <= high by {
            assert(init[i] == items[i]);
        }
        lemma_sum_bounds(init, f, low, high);
        assert(low <= f(items[items.len() - 1]) <= high);
        assert(low * items.len() == low * init.len() + low) by (nonlinear_arith)
            requires
                items.len() == init.len() + 1,
        ;
        assert(high * items.len() == high * init.len() + high) by (nonlinear_arith)
            requires
                items.len() == init.len() + 1,
        ;
    }
}

/// One caller in a race for a target.
pub enum Caller {
    /// It has not looked the tickets up yet.
    Waiting,
    /// It tries to spend a use of the first of these.
    Trying(Seq<u128>),
    /// Its attempt came to this.
    Ended(Result<Option<u128>, WarpgateError>),
}

/// A caller that has these tickets left to try and does this next.
pub open spec fn caller_at(step: (Seq<u128>, GrantAction)) -> Caller {
    match step.1 {
        GrantAction::Spend(_) => Caller::Trying(step.0),
        GrantAction::Done(r) => Caller::Ended(r),
    }
}

/// Several callers that ask for one target on behalf of one user, each looking
/// the tickets up at a time of its own.
pub struct Race {
    pub user_id: u128,
    pub target_id: u128,
    pub times: Seq<Timestamp>,
}

/// How far a race has come.
pub struct Standing {
    pub store: Seq<Ticket>,
    pub callers: Seq<Caller>,
}

impl Race {
    /// The race before anything is done.
    pub open spec fn begin(self, store: Seq<Ticket>) -> Standing {
        Standing { store, callers: Seq::new(self.times.len(), |c: int| Caller::Waiting) }
    }

    /// The race once caller `c` took its next step: it looks the tickets up, or
    /// tries to spend a use of the first ticket that it has left.
    pub open spec fn moved(self, at: Standing, c: int) -> Standing {
        if 0 <= c < at.callers.len() {
            match at.callers[c] {
                Caller::Waiting => Standing {
                    store: at.store,
                    callers: at.callers.update(
                        c,
                        caller_at(
                            begun(active(at.store, self.user_id, self.target_id, self.times[c])),
                        ),
                    ),
                },
                Caller::Trying(rest) => {
                    let (store, spent) = spend_use(at.store, rest[0]);
                    Standing {
                        store,
                        callers: at.callers.update(c, caller_at(after_spending(rest, spent))),
                    }
                },
                Caller::Ended(_) => at,
            }
        } else {
            at
        }
    }

    /// The race once the callers took their steps in this order.
    pub open spec fn run(self, store: Seq<Ticket>, order: Seq<int>) -> Standing
        decreases order.len(),
    {
        if order.len() == 0 {
            self.begin(store)
        } else {
            self.moved(self.run(store, order.drop_last()), order.last())
        }
    }

    /// The ticket can act as a grant to the user of the target.
    pub open spec fn counts(self, ticket: Ticket, now: Timestamp) -> bool {
        is_active(ticket, self.user_id, self.target_id, now)
    }

    /// The uses that the tickets that count have left.
    pub open spec fn uses(self, store: Seq<Ticket>, now: Timestamp) -> int {
        sum(store, |ticket: Ticket| self.value(ticket, now))
    }

    /// The uses that this ticket adds to them.
    pub open spec fn value(self, ticket: Ticket, now: Timestamp) -> int {
        if self.counts(ticket, now) {
            ticket.uses_left->0 as int
        } else {
            0
        }
    }

    /// All tickets that count have a limit, and none of the stored tickets
    /// begins or ceases to count between the callers' look-ups.
    pub open spec fn is_fair(self, store: Seq<Ticket>, now: Timestamp) -> bool {
        &&& distinct_ids(store)
        &&& forall|i: int|
            0 <= i < store.len() && self.counts(#[trigger] store[i], now)
                ==> store[i].uses_left is Some && store[i].uses_left->0 >= 0
        &&& forall|c: int, i: int|
            0 <= c < self.times.len() && 0 <= i < store.len() ==> self.counts(
                #[trigger] store[i],
                #[trigger] self.times[c],
            ) == self.counts(store[i], now)
    }
}

/// Whether the caller was granted access.
pub open spec fn is_granted(caller: Caller) -> bool {
    caller matches Caller::Ended(Ok(Some(_)))
}

/// Whether the caller was granted access through this ticket.
pub open spec fn is_granted_by(caller: Caller, id: u128) -> bool {
    caller matches Caller::Ended(Ok(Some(ticket))) && ticket == id
}

/// How many callers were granted access.
pub open spec fn grants(callers: Seq<Caller>) -> int {
    sum(
        callers,
        |caller: Caller|
            if is_granted(caller) {
                1int
            } else {
                0int
            },
    )
}

/// How many callers were granted access through this ticket.
pub open spec fn grants_by(callers: Seq<Caller>, id: u128) -> int {
    sum(
        callers,
        |caller: Caller|
            if is_granted_by(caller, id) {
                1int
            } else {
                0int
            },
    )
}

/// A ticket of this identifier counts.
pub open spec fn counting_id(race: Race, now: Timestamp, store: Seq<Ticket>, id: u128) -> bool {
    exists|i: int| 0 <= i < store.len() && (#[trigger] store[i]).id == id && race.counts(
        store[i],
        now,
    )
}

/// The tickets that a caller has left include every one that it could spend.
pub open spec fn covers(race: Race, now: Timestamp, store: Seq<Ticket>, rest: Seq<u128>) -> bool {
    forall|i: int|
        0 <= i < store.len() && race.counts(#[trigger] store[i], now) && store[i].uses_left->0 > 0
            ==> rest.contains(store[i].id)
}

/// What is known of a caller: it tries tickets that count, and no ticket that
/// it could spend escapes it.
pub open spec fn caller_ok(race: Race, now: Timestamp, store: Seq<Ticket>, caller: Caller) -> bool {
    match caller {
        Caller::Waiting => true,
        Caller::Trying(rest) => {
            &&& rest.len() > 0
            &&& forall|k: int|
                0 <= k < rest.len() ==> counting_id(race, now, store, #[trigger] rest[k])
            &&& covers(race, now, store, rest)
        },
        Caller::Ended(Ok(Some(id))) => counting_id(race, now, store, id),
        Caller::Ended(Ok(None)) => covers(race, now, store, Seq::empty()),
        Caller::Ended(Err(_)) => false,
    }
}

/// The stored tickets differ from those at the start in their uses alone, and
/// each that counts has lost one use for each caller that it let in.
pub open spec fn ticket_ok(
    race: Race,
    now: Timestamp,
    before: Ticket,
    ticket: Ticket,
    callers: Seq<Caller>,
) -> bool {
    &&& ticket == with_uses(before, ticket.uses_left)
    &&& if race.counts(before, now) {
        &&& ticket.uses_left is Some && ticket.uses_left->0 >= 0
        &&& ticket.uses_left->0 + grants_by(callers, before.id) == before.uses_left->0
    } else {
        ticket == before && grants_by(callers, before.id) == 0
    }
}

/// What holds at every point of a race.
pub open spec fn race_ok(race: Race, now: Timestamp, start: Seq<Ticket>, at: Standing) -> bool {
    &&& at.store.len() == start.len()
    &&& at.callers.len() == race.times.len()
    &&& distinct_ids(at.store)
    &&& forall|i: int|
        0 <= i < start.len() ==> ticket_ok(race, now, #[trigger] start[i], at.store[i], at.callers)
    &&& forall|c: int|
        0 <= c < at.callers.len() ==> caller_ok(race, now, at.store, #[trigger] at.callers[c])
    &&& race.uses(at.store, now) + grants(at.callers) == race.uses(start, now)
}

proof fn lemma_begin(race: Race, now: Timestamp, start: Seq<Ticket>)
    requires
        race.is_fair(start, now),
    ensures
        race_ok(race, now, start, race.begin(start)),
{
    let callers = race.begin(start).callers;
    let all = |caller: Caller|
        if is_granted(caller) {
            1int
        } else {
            0int
        };
    lemma_sum_bounds(callers, all, 0, 0);
    assert(grants(callers) == 0);
    assert forall|i: int| 0 <= i < start.len() implies ticket_ok(
        race,
        now,
        #[trigger] start[i],
        start[i],
        callers,
    ) by {
        let id = start[i].id;
        let by = |caller: Caller|
            if is_granted_by(caller, id) {
                1int
            } else {
                0int
            };
        lemma_sum_bounds(callers, by, 0, 0);
        assert(grants_by(callers, id) == 0);
    }
}

proof fn lemma_grants_update(callers: Seq<Caller>, c: int, next: Caller)
    requires
        0 <= c < callers.len(),
        !is_granted(callers[c]),
    ensures
        grants(callers.update(c, next)) == grants(callers) + if is_granted(next) {
            1int
        } else {
            0int
        },
        forall|id: u128| #[trigger]
            grants_by(callers.update(c, next), id) == grants_by(callers, id) + if is_granted_by(
                next,
                id,
            ) {
                1int
            } else {
                0int
            },
{
    lemma_sum_update(
        callers,
        |caller: Caller|
            if is_granted(caller) {
                1int
            } else {
                0int
            },
        c,
        next,
    );
    assert forall|id: u128| #[trigger]
        grants_by(callers.update(c, next), id) == grants_by(callers, id) + if is_granted_by(
            next,
            id,
        ) {
            1int
        } else {
            0int
        } by {
        lemma_sum_update(
            callers,
            |caller: Caller|
                if is_granted_by(caller, id) {
                    1int
                } else {
                    0int
                },
            c,
            next,
        );
    }
}

proof fn lemma_no_unlimited(candidates: Seq<Ticket>)
    requires
        forall|i: int| 0 <= i < candidates.len() ==> (#[trigger] candidates[i]).uses_left is Some,
    ensures
        unlimited(candidates) is None,
    decreases candidates.len(),
{
    if candidates.len() > 0 {
        let init = candidates.drop_last();
        assert forall|i: int| 0 <= i < init.len() implies (#[trigger] init[i]).uses_left is Some by {
            assert(init[i] == candidates[i]);
        }
        lemma_no_unlimited(init);
        assert(candidates[candidates.len() - 1].uses_left is Some);
    }
}

pub proof fn lemma_bounded_contains(candidates: Seq<Ticket>, i: int)
    requires
        0 <= i < candidates.len(),
        candidates[i].uses_left is Some,
        candidates[i].uses_left->0 > 0,
    ensures
        bounded(candidates).contains(candidates[i].id),
    decreases candidates.len(),
{
    let init = candidates.drop_last();
    let ids = bounded(candidates);
    if i == candidates.len() - 1 {
        assert(ids[bounded(init).len() as int] == candidates[i].id);
    } else {
        lemma_bounded_contains(init, i);
        let k = choose|k: int| 0 <= k < bounded(init).len() && bounded(init)[k] == init[i].id;
        assert(ids[k] == candidates[i].id);
    }
}

/// A caller that looks the tickets up has every one that it could spend.
proof fn lemma_lookup(race: Race, now: Timestamp, start: Seq<Ticket>, at: Standing, c: int)
    requires
        race.is_fair(start, now),
        race_ok(race, now, start, at),
        0 <= c < at.callers.len(),
    ensures
        ({
            let step = begun(active(at.store, race.user_id, race.target_id, race.times[c]));
            &&& caller_ok(race, now, at.store, caller_at(step))
            &&& !is_granted(caller_at(step))
        }),
{
    let time = race.times[c];
    let candidates = active(at.store, race.user_id, race.target_id, time);
    let pred = |ticket: Ticket| is_active(ticket, race.user_id, race.target_id, time);
    assert forall|i: int| 0 <= i < at.store.len() implies race.counts(#[trigger] at.store[i], time)
        == race.counts(at.store[i], now) by {
        assert(ticket_ok(race, now, start[i], at.store[i], at.callers));
        assert(race.counts(start[i], race.times[c]) == race.counts(start[i], now));
    }
    assert forall|i: int| 0 <= i < candidates.len() implies (
    #[trigger] candidates[i]).uses_left is Some by {
        at.store.lemma_filter_pred(pred, i);
        at.store.lemma_filter_contains_rev(pred, candidates[i]);
        let k = choose|k: int| 0 <= k < at.store.len() && at.store[k] == candidates[i];
        assert(race.counts(at.store[k], time));
        assert(ticket_ok(race, now, start[k], at.store[k], at.callers));
    }
    lemma_no_unlimited(candidates);
    let ids = bounded(candidates);
    assert(covers(race, now, at.store, ids)) by {
        assert forall|i: int|
            0 <= i < at.store.len() && race.counts(#[trigger] at.store[i], now)
                && at.store[i].uses_left->0 > 0 implies ids.contains(at.store[i].id) by {
            assert(ticket_ok(race, now, start[i], at.store[i], at.callers));
            assert(race.counts(at.store[i], time));
            at.store.lemma_filter_contains(pred, i);
            let k = choose|k: int| 0 <= k < candidates.len() && candidates[k] == at.store[i];
            lemma_bounded_contains(candidates, k);
        }
    }
    assert forall|k: int| 0 <= k < ids.len() implies counting_id(
        race,
        now,
        at.store,
        #[trigger] ids[k],
    ) by {
        law_only_active_tickets_are_spent(at.store, race.user_id, race.target_id, time, k);
        let i = choose|i: int|
            0 <= i < at.store.len() && (#[trigger] at.store[i]).id == ids[k] && is_active(
                at.store[i],
                race.user_id,
                race.target_id,
                time,
            ) && at.store[i].uses_left is Some && at.store[i].uses_left->0 > 0;
        assert(race.counts(at.store[i], now));
    }
    if ids.len() == 0 {
        assert(ids =~= Seq::empty());
    }
}

proof fn lemma_move(race: Race, now: Timestamp, start: Seq<Ticket>, at: Standing, c: int)
    requires
        race.is_fair(start, now),
        race_ok(race, now, start, at),
    ensures
        race_ok(race, now, start, race.moved(at, c)),
{
    let next = race.moved(at, c);
    if 0 <= c < at.callers.len() {
        match at.callers[c] {
            Caller::Waiting => {
                lemma_lookup(race, now, start, at, c);
                lemma_grants_update(at.callers, c, next.callers[c]);
                assert forall|i: int| 0 <= i < start.len() implies ticket_ok(
                    race,
                    now,
                    #[trigger] start[i],
                    next.store[i],
                    next.callers,
                ) by {
                    assert(ticket_ok(race, now, start[i], at.store[i], at.callers));
                    assert(!is_granted_by(next.callers[c], start[i].id));
                    assert(grants_by(next.callers, start[i].id) == grants_by(
                        at.callers,
                        start[i].id,
                    ));
                }
            },
            Caller::Trying(rest) => {
                lemma_try(race, now, start, at, c, rest);
            },
            Caller::Ended(_) => {},
        }
    }
}

proof fn lemma_try(
    race: Race,
    now: Timestamp,
    start: Seq<Ticket>,
    at: Standing,
    c: int,
    rest: Seq<u128>,
)
    requires
        race.is_fair(start, now),
        race_ok(race, now, start, at),
        0 <= c < at.callers.len(),
        at.callers[c] == Caller::Trying(rest),
    ensures
        race_ok(race, now, start, race.moved(at, c)),
{
    let next = race.moved(at, c);
    let id = rest[0];
    assert(caller_ok(race, now, at.store, at.callers[c]));
    assert(counting_id(race, now, at.store, rest[0]));
    let i = choose|i: int| 0 <= i < at.store.len() && (#[trigger] at.store[i]).id == id
        && race.counts(at.store[i], now);
    assert(ticket_ok(race, now, start[i], at.store[i], at.callers));
    lemma_spend(at.store, id, i);
    lemma_grants_update(at.callers, c, next.callers[c]);
    let left = at.store[i].uses_left->0;
    if left > 0 {
        assert(next.callers[c] == Caller::Ended(Ok(Some(id))));
        lemma_sum_update(
            at.store,
            |ticket: Ticket| race.value(ticket, now),
            i,
            with_uses(at.store[i], Some((left - 1) as i16)),
        );
        assert(next.store[i] == with_uses(at.store[i], Some((left - 1) as i16)));
        assert(race.uses(next.store, now) == race.uses(at.store, now) - 1);
    } else {
        let fewer = rest.drop_first();
        assert(next.callers[c] == caller_at((fewer, try_next(fewer))));
    }
    assert forall|k: int| 0 <= k < start.len() implies ticket_ok(
        race,
        now,
        #[trigger] start[k],
        next.store[k],
        next.callers,
    ) by {
        assert(ticket_ok(race, now, start[k], at.store[k], at.callers));
        assert(start[k].id == at.store[k].id);
        if k != i {
            if k < i {
                assert(at.store[k].id != at.store[i].id);
            } else {
                assert(at.store[i].id != at.store[k].id);
            }
        }
        assert(is_granted_by(next.callers[c], start[k].id) == (left > 0 && k == i));
        assert(grants_by(next.callers, start[k].id) == grants_by(at.callers, start[k].id) + if left
            > 0 && k == i {
            1int
        } else {
            0int
        });
    }
    assert forall|d: int| 0 <= d < next.callers.len() implies caller_ok(
        race,
        now,
        next.store,
        #[trigger] next.callers[d],
    ) by {
        lemma_caller_stays(race, now, at.store, next.store, at.callers[d]);
        if d == c {
            if left > 0 {
                assert(next.store[i].id == id && race.counts(next.store[i], now));
            } else {
                let fewer = rest.drop_first();
                assert(covers(race, now, at.store, fewer)) by {
                    assert forall|k: int|
                        0 <= k < at.store.len() && race.counts(#[trigger] at.store[k], now)
                            && at.store[k].uses_left->0 > 0 implies fewer.contains(
                        at.store[k].id,
                    ) by {
                        assert(rest.contains(at.store[k].id));
                        let m = choose|m: int| 0 <= m < rest.len() && rest[m] == at.store[k].id;
                        if m == 0 {
                            if k < i {
                                assert(at.store[k].id != at.store[i].id);
                            } else if i < k {
                                assert(at.store[i].id != at.store[k].id);
                            }
                        } else {
                            assert(fewer[m - 1] == at.store[k].id);
                        }
                    }
                }
                if fewer.len() == 0 {
                    assert(fewer =~= Seq::empty());
                } else {
                    assert forall|k: int| 0 <= k < fewer.len() implies counting_id(
                        race,
                        now,
                        at.store,
                        #[trigger] fewer[k],
                    ) by {
                        assert(fewer[k] == rest[k + 1]);
                    }
                }
            }
        }
    }
}

/// What is known of a caller stays true while tickets lose uses.
proof fn lemma_caller_stays(
    race: Race,
    now: Timestamp,
    store: Seq<Ticket>,
    later: Seq<Ticket>,
    caller: Caller,
)
    requires
        store.len() == later.len(),
        forall|i: int|
            #![trigger later[i]]
            0 <= i < store.len() ==> later[i] == with_uses(store[i], later[i].uses_left) && (
            race.counts(store[i], now) ==> later[i].uses_left->0 <= store[i].uses_left->0),
        caller_ok(race, now, store, caller),
    ensures
        caller_ok(race, now, later, caller),
{
    assert forall|id: u128| counting_id(race, now, store, id) implies #[trigger] counting_id(
        race,
        now,
        later,
        id,
    ) by {
        let i = choose|i: int| 0 <= i < store.len() && (#[trigger] store[i]).id == id
            && race.counts(store[i], now);
        assert(later[i].id == id && race.counts(later[i], now));
    }
    assert forall|rest: Seq<u128>| covers(race, now, store, rest) implies #[trigger] covers(
        race,
        now,
        later,
        rest,
    ) by {
        assert forall|i: int|
            0 <= i < later.len() && race.counts(#[trigger] later[i], now) && later[i].uses_left->0
                > 0 implies rest.contains(later[i].id) by {
            assert(race.counts(store[i], now));
            assert(store[i].uses_left->0 > 0);
        }
    }
}

proof fn lemma_run(race: Race, now: Timestamp, start: Seq<Ticket>, order: Seq<int>)
    requires
        race.is_fair(start, now),
    ensures
        race_ok(race, now, start, race.run(start, order)),
    decreases order.len(),
{
    if order.len() == 0 {
        lemma_begin(race, now, start);
    } else {
        lemma_run(race, now, start, order.drop_last());
        lemma_move(race, now, start, race.run(start, order.drop_last()), order.last());
    }
}

/// The smaller of two numbers.
pub open spec fn least(a: int, b: int) -> int {
    if a <= b {
        a
    } else {
        b
    }
}

/// Of several callers that ask for one target on behalf of one user, as many
/// are granted access as there are uses left in all, and no more, in whatever
/// order they look the tickets up and spend. Each is granted it through a
/// ticket that counts and for its own identity, and each ticket loses exactly
/// one use for each caller that it let in. A ticket that is expired, or that
/// the user did not ask for, lets nobody in and stays as it is.
pub proof fn law_uses_are_granted_exactly(
    race: Race,
    now: Timestamp,
    start: Seq<Ticket>,
    order: Seq<int>,
    identity: AuthorizedIdentity,
    target: Target,
)
    requires
        race.is_fair(start, now),
        identity.user().id == race.user_id,
        target.id == race.target_id,
        forall|c: int|
            0 <= c < race.times.len() ==> (#[trigger] race.run(
                start,
                order,
            ).callers[c]) is Ended,
    ensures
        ({
            let end = race.run(start, order);
            let n = race.uses(start, now);
            let k = race.times.len() as int;
            &&& end.callers.len() == k
            &&& grants(end.callers) == least(k, n)
            &&& race.uses(end.store, now) == n - least(k, n)
            &&& forall|c: int|
                0 <= c < k ==> match (#[trigger] end.callers[c])->Ended_0 {
                    Ok(Some(id)) => counting_id(race, now, start, id) && ticket_authorization(
                        identity,
                        target,
                        end.callers[c]->Ended_0,
                    ) == Ok::<Option<Grant<TargetOptions>>, WarpgateError>(
                        Some(grant_of(identity.user(), target, identity.over(), Some(id))),
                    ),
                    Ok(None) => ticket_authorization(identity, target, end.callers[c]->Ended_0)
                        == Ok::<Option<Grant<TargetOptions>>, WarpgateError>(None),
                    Err(_) => false,
                }
            &&& end.store.len() == start.len()
            &&& forall|i: int|
                0 <= i < start.len() ==> ticket_ok(
                    race,
                    now,
                    #[trigger] start[i],
                    end.store[i],
                    end.callers,
                )
        }),
{
    let end = race.run(start, order);
    let n = race.uses(start, now);
    let k = race.times.len() as int;
    lemma_run(race, now, start, order);
    let one = |caller: Caller|
        if is_granted(caller) {
            1int
        } else {
            0int
        };
    let value = |ticket: Ticket| race.value(ticket, now);
    lemma_sum_bounds(end.callers, one, 0, 1);
    assert forall|i: int| 0 <= i < end.store.len() implies 0 <= value(#[trigger] end.store[i])
        <= i16::MAX by {
        assert(ticket_ok(race, now, start[i], end.store[i], end.callers));
    }
    lemma_sum_bounds(end.store, value, 0, i16::MAX as int);
    if exists|c: int| 0 <= c < k && (#[trigger] end.callers[c]) == Caller::Ended(Ok(None)) {
        let c = choose|c: int| 0 <= c < k && (#[trigger] end.callers[c]) == Caller::Ended(Ok(None));
        assert(caller_ok(race, now, end.store, end.callers[c]));
        assert forall|i: int| 0 <= i < end.store.len() implies 0 <= value(#[trigger] end.store[i])
            <= 0 by {
            assert(ticket_ok(race, now, start[i], end.store[i], end.callers));
            if race.counts(end.store[i], now) && end.store[i].uses_left->0 > 0 {
                assert(Seq::<u128>::empty().contains(end.store[i].id));
            }
        }
        lemma_sum_bounds(end.store, value, 0, 0);
    } else {
        assert forall|c: int| 0 <= c < end.callers.len() implies 1 <= one(
            #[trigger] end.callers[c],
        ) <= 1 by {
            assert(caller_ok(race, now, end.store, end.callers[c]));
            assert(end.callers[c] is Ended);
        }
        lemma_sum_bounds(end.callers, one, 1, 1);
    }
    assert forall|c: int| 0 <= c < k implies match (#[trigger] end.callers[c])->Ended_0 {
        Ok(Some(id)) => counting_id(race, now, start, id),
        Ok(None) => true,
        Err(_) => false,
    } by {
        assert(caller_ok(race, now, end.store, end.callers[c]));
        assert(end.callers[c] is Ended);
        match end.callers[c]->Ended_0 {
            Ok(Some(id)) => {
                let i = choose|i: int| 0 <= i < end.store.len() && (#[trigger] end.store[i]).id
                    == id && race.counts(end.store[i], now);
                assert(ticket_ok(race, now, start[i], end.store[i], end.callers));
                assert(start[i].id == id && race.counts(start[i], now));
            },
            _ => {},
        }
    }
}

/// The store once so many attempts to spend a use of a ticket reached it.
pub open spec fn spent_times(store: Seq<Ticket>, id: u128, times: nat) -> Seq<Ticket>
    decreases times,
{
    if times == 0 {
        store
    } else {
        spend_use(spent_times(store, id, (times - 1) as nat), id).0
    }
}

/// A ticket that is presented by its secret authorizes as often as it has uses:
/// the first attempts to spend one, as many as there are, and no later one. The
/// other tickets stay as they are.
pub proof fn law_a_ticket_authorizes_as_often_as_it_has_uses(
    store: Seq<Ticket>,
    i: int,
    grant: Grant<TargetOptions>,
    times: nat,
)
    requires
        distinct_ids(store),
        0 <= i < store.len(),
        store[i].uses_left is Some,
        store[i].uses_left->0 >= 0,
    ensures
        ({
            let id = store[i].id;
            let n = store[i].uses_left->0 as int;
            let now = spent_times(store, id, times);
            &&& distinct_ids(now)
            &&& now == store.update(
                i,
                with_uses(store[i], Some((n - least(times as int, n)) as i16)),
            )
            &&& spending(grant, spend_use(now, id).1) == if times < n {
                Ok::<Option<Grant<TargetOptions>>, WarpgateError>(Some(grant))
            } else {
                Ok(None)
            }
        }),
    decreases times,
{
    let id = store[i].id;
    let n = store[i].uses_left->0 as int;
    let now = spent_times(store, id, times);
    if times == 0 {
        assert(with_uses(store[i], Some(n as i16)) == store[i]);
        assert(store.update(i, store[i]) =~= store);
    } else {
        let before = spent_times(store, id, (times - 1) as nat);
        law_a_ticket_authorizes_as_often_as_it_has_uses(store, i, grant, (times - 1) as nat);
        assert(stored_at(before, i, id));
        lemma_spend(before, id, i);
        assert(now =~= store.update(
            i,
            with_uses(store[i], Some((n - least(times as int, n)) as i16)),
        ));
    }
    assert(stored_at(now, i, id));
    lemma_spend(now, id, i);
}

/// The look-ups of a ticket check were answered with this ticket and with its
/// own target.
pub open spec fn answered_with(events: Seq<TicketEvent>, ticket: Ticket) -> bool {
    forall|i: int|
        0 <= i < events.len() ==> match #[trigger] events[i] {
            TicketEvent::Ticket(Ok(Some(found)), _) => found == with_uses(ticket, found.uses_left),
            TicketEvent::Target(Ok(Some(target))) => target.id == ticket.target_id,
            _ => true,
        }
}

proof fn lemma_valid_names_the_ticket(
    first: TicketCheck,
    events: Seq<TicketEvent>,
    grant: Grant<TargetOptions>,
    ticket: Ticket,
)
    requires
        begins(first),
        events.len() > 0,
        action_after(first, events) == TicketActionView::Valid(grant),
        answered_with(events, ticket),
    ensures
        grant.ticket == Some(ticket.id),
        grant.target.target.id == ticket.target_id,
{
    law_a_valid_ticket_passed_every_check(first, events, grant);
    let found = choose|found: Ticket| #[trigger]
        ticket_found(events, found) && grant.ticket == Some(found.id);
    let i = choose|i: int|
        0 <= i < events.len() && (#[trigger] events[i] matches TicketEvent::Ticket(Ok(Some(f)), now)
            && f == found && !expired(found, now));
    assert(events[i] matches TicketEvent::Ticket(Ok(Some(f)), _) && f == found);
    assert(events[events.len() - 1] == events.last());
}

/// Of two logins that both found a ticket valid while it had one use left, the
/// one whose attempt to spend it reaches the store first is authorized, with
/// that ticket and its target, and the other is not, which is no error. The
/// ticket then has no use left: no step of a later login with it authorizes, and
/// the attempt to spend it comes to nothing, which is no error either.
pub proof fn law_a_last_use_authorizes_one_of_two(
    store: Seq<Ticket>,
    i: int,
    winner: TicketCheck,
    winner_events: Seq<TicketEvent>,
    winner_grant: Grant<TargetOptions>,
    loser: TicketCheck,
    loser_events: Seq<TicketEvent>,
    loser_grant: Grant<TargetOptions>,
    later: TicketLogin,
    event: TicketLoginEvent,
    next: TicketLogin,
    action: TicketLoginAction,
)
    requires
        distinct_ids(store),
        0 <= i < store.len(),
        store[i].uses_left == Some(1i16),
        begins(winner),
        winner_events.len() > 0,
        action_after(winner, winner_events) == TicketActionView::Valid(winner_grant),
        answered_with(winner_events, store[i]),
        begins(loser),
        loser_events.len() > 0,
        action_after(loser, loser_events) == TicketActionView::Valid(loser_grant),
        answered_with(loser_events, store[i]),
        later.stepped(event, next, action),
        event matches TicketLoginEvent::Spent(spent) ==> spent == spend_use(
            spent_times(store, store[i].id, 2),
            store[i].id,
        ).1,
    ensures
        spending(winner_grant, spend_use(store, store[i].id).1) == Ok::<
            Option<Grant<TargetOptions>>,
            WarpgateError,
        >(Some(winner_grant)),
        winner_grant.ticket == Some(store[i].id),
        winner_grant.target.target.id == store[i].target_id,
        loser_grant.ticket == Some(store[i].id),
        loser_grant.target.target.id == store[i].target_id,
        spending(loser_grant, spend_use(spent_times(store, store[i].id, 1), store[i].id).1) == Ok::<
            Option<Grant<TargetOptions>>,
            WarpgateError,
        >(None),
        spent_times(store, store[i].id, 2)[i].uses_left == Some(0i16),
        !(action matches TicketLoginAction::Done(Ok(Some(_)))),
        later is Spending && event is Spent ==> (action matches TicketLoginAction::Done(Ok(None))),
{
    lemma_valid_names_the_ticket(winner, winner_events, winner_grant, store[i]);
    lemma_valid_names_the_ticket(loser, loser_events, loser_grant, store[i]);
    law_a_ticket_authorizes_as_often_as_it_has_uses(store, i, winner_grant, 0);
    law_a_ticket_authorizes_as_often_as_it_has_uses(store, i, loser_grant, 1);
    law_a_ticket_authorizes_as_often_as_it_has_uses(store, i, winner_grant, 2);
}

} // verus!
