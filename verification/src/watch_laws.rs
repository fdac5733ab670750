//! What watching a grant and keeping the sessions of a node promise.
use vstd::prelude::*;

use crate::access_watch::{
    close_on_error, default_timing, AccessGrant, AccessWatchSettings, CheckOutcome, Liveness,
    WakeReason, WatchStep, Watcher,
};
use crate::instance_ca::{Api, CertificateStep, InstanceCaCertificate, Parameters};
use crate::model::{
    Duration, Instant, NodeId, Protocol, Ticket, Timestamp, UserSessionId, WarpgateError,
};
use crate::state::{
    matching_handles, CloseEffect, HandleLock, PendingSession, Registration, SharedSessionHandle,
    State, StateEffect, UserSessionState, UserSessionStateInit, WeakSessionHandle,
};
use crate::session_handle::{cancellation_of, KubernetesSessionHandle, SessionHandle};
use crate::stream_errors::{any_cause_means_peer_gone, is_peer_gone, Cause, IoKind};
use crate::text::parse_number;
use crate::text_laws::stands_at;

verus! {

/// A re-check finds a grant live as long as its very ticket is stored for its
/// user and its target and is not expired, up to the expiry of that ticket;
/// expired from the expiry on; and revoked without such a ticket. Neither the
/// uses that are left nor who asked for the ticket has a part in it.
pub proof fn law_a_grant_is_as_live_as_its_ticket(
    ticket_id: u128,
    user_id: u128,
    target_id: u128,
    tickets: Vec<Ticket>,
    now: Timestamp,
    liveness: Liveness,
    i: int,
)
    requires
        call_ensures(
            AccessGrant::check,
            (&(AccessGrant::Ticket { ticket_id, user_id, target_id }), &tickets, now),
            liveness,
        ),
    ensures
        (forall|j: int|
            0 <= j < tickets@.len() ==> (#[trigger] tickets@[j]).id != ticket_id
                || tickets@[j].user_id != user_id || tickets@[j].target_id != target_id)
            ==> liveness is Revoked,
        0 <= i < tickets@.len() && tickets@[i].id == ticket_id && tickets@[i].user_id == user_id
            && tickets@[i].target_id == target_id && (forall|j: int|
            0 <= j < i ==> (#[trigger] tickets@[j]).id != ticket_id) ==> liveness
            == match tickets@[i].expiry {
            None => Liveness::Live { until: None },
            Some(expiry) => if expiry.nanos <= now.nanos {
                Liveness::Expired
            } else {
                Liveness::Live { until: Some(expiry) }
            },
        },
{
    let grant = AccessGrant::Ticket { ticket_id, user_id, target_id };
    if forall|j: int|
        0 <= j < tickets@.len() ==> (#[trigger] tickets@[j]).id != ticket_id || tickets@[j].user_id
            != user_id || tickets@[j].target_id != target_id {
        crate::access_watch::law_only_the_exact_ticket_keeps_a_grant_alive(grant, tickets@, now);
    }
    if 0 <= i < tickets@.len() && grant.backed_by(tickets@[i]) && (forall|j: int|
        0 <= j < i ==> (#[trigger] tickets@[j]).id != ticket_id) {
        lemma_backing(grant, tickets@, i);
    }
}

proof fn lemma_backing(grant: AccessGrant, tickets: Seq<Ticket>, i: int)
    requires
        0 <= i < tickets.len(),
        grant.backed_by(tickets[i]),
        forall|j: int| 0 <= j < i ==> !grant.backed_by(#[trigger] tickets[j]),
    ensures
        grant.backing(tickets) == Some(tickets[i]),
    decreases tickets.len(),
{
    if i > 0 {
        let rest = tickets.drop_first();
        assert forall|j: int| 0 <= j < i - 1 implies !grant.backed_by(#[trigger] rest[j]) by {
            assert(rest[j] == tickets[j + 1]);
        }
        lemma_backing(grant, rest, i - 1);
    }
}

/// A watcher that cannot check its grant gives it up exactly if the known
/// deadline has come, or the grant was last confirmed as long ago as the limit
/// says, on a clock that is never taken to run backwards.
pub proof fn law_when_an_unchecked_grant_is_given_up(
    last_ok: Instant,
    now: Instant,
    deadline: Option<Timestamp>,
    wall_now: Timestamp,
    limit: Duration,
    close: bool,
)
    requires
        call_ensures(close_on_error, (last_ok, now, deadline, wall_now, limit), close),
    ensures
        deadline matches Some(at) && at.nanos <= wall_now.nanos ==> close,
        now.nanos >= last_ok.nanos + limit.nanos ==> close,
        now.nanos < last_ok.nanos + limit.nanos && limit.nanos > 0 && (deadline matches Some(at)
            ==> at.nanos > wall_now.nanos) ==> !close,
{
}

/// A watcher waits for its whole interval, unless a deadline comes earlier: then
/// it waits exactly until then, and not at all once it has come.
pub proof fn law_how_long_a_watcher_waits(watcher: Watcher, now: Timestamp, wait: Duration)
    requires
        call_ensures(Watcher::wake_in, (&watcher, now), wait),
    ensures
        watcher.deadline is None ==> wait.nanos == watcher.settings.interval.nanos,
        watcher.deadline matches Some(at) ==> {
            &&& at.nanos <= now.nanos ==> wait.nanos == 0
            &&& at.nanos > now.nanos && at.nanos - now.nanos <= watcher.settings.interval.nanos
                ==> wait.nanos == at.nanos - now.nanos
            &&& at.nanos - now.nanos > watcher.settings.interval.nanos ==> wait.nanos
                == watcher.settings.interval.nanos
        },
{
}

/// A watcher that wakes checks its grant, whatever woke it, unless the session is
/// gone: then it ends and closes nothing. A check is given the interval, and at
/// least a second. Only the last nudger's leaving changes the watcher.
pub proof fn law_a_woken_watcher_checks(watcher: &mut Watcher, reason: WakeReason, step: WatchStep)
    requires
        call_ensures(Watcher::on_wake, (watcher, reason), step),
    ensures
        reason is Stopped ==> step is Return && *final(watcher) == *old(watcher),
        !(reason is Stopped) ==> (step matches WatchStep::Check { timeout } && timeout.nanos
            == if old(watcher).settings.interval.nanos >= 1_000_000_000 {
            old(watcher).settings.interval.nanos
        } else {
            1_000_000_000u128
        }),
        final(watcher).grant == old(watcher).grant,
        final(watcher).settings == old(watcher).settings,
        final(watcher).last_ok == old(watcher).last_ok,
        final(watcher).deadline == old(watcher).deadline,
        reason is NudgesClosed ==> !final(watcher).nudges_alive,
        !(reason is NudgesClosed) ==> final(watcher).nudges_alive == old(watcher).nudges_alive,
{
}

/// A check that confirms the grant makes the watcher wait again, with the new
/// deadline and from now on; one that finds it dead closes the session; one that
/// fails or does not come back closes it exactly if the grant is given up, and
/// does not count as a confirmation; and a session that is gone meanwhile is not
/// closed.
pub proof fn law_what_a_check_leads_to(
    watcher: &mut Watcher,
    outcome: CheckOutcome,
    now: Instant,
    wall_now: Timestamp,
    step: WatchStep,
    close: bool,
)
    requires
        call_ensures(Watcher::on_check, (watcher, outcome, now, wall_now), step),
        call_ensures(
            close_on_error,
            (
                old(watcher).last_ok,
                now,
                old(watcher).deadline,
                wall_now,
                old(watcher).settings.unconfirmed_limit,
            ),
            close,
        ),
    ensures
        match outcome {
            CheckOutcome::Stopped => step is Return,
            CheckOutcome::Checked(Liveness::Live { until }) => step is Wait
                && final(watcher).deadline == until && final(watcher).last_ok == now,
            CheckOutcome::Checked(Liveness::Revoked) => step is Close,
            CheckOutcome::Checked(Liveness::Expired) => step is Close,
            CheckOutcome::Failed | CheckOutcome::TimedOut => {
                &&& close ==> step is Close
                &&& !close ==> step is Wait
                &&& final(watcher).last_ok == old(watcher).last_ok
                &&& final(watcher).deadline == old(watcher).deadline
            },
        },
        final(watcher).grant == old(watcher).grant,
        final(watcher).settings == old(watcher).settings,
        final(watcher).nudges_alive == old(watcher).nudges_alive,
{
}

/// The poll interval can be overridden only in a test run, and only by a number
/// of seconds between one and 3600; the limit is then three times the interval.
/// Otherwise they are five and fifteen seconds.
pub proof fn law_when_the_interval_is_overridden(
    raw: &str,
    flag: Option<&str>,
    seconds: Option<u64>,
    overridden: (Duration, Duration),
    plain: (Duration, Duration),
)
    requires
        call_ensures(parse_number, (raw,), seconds),
        call_ensures(default_timing, (Some(raw), flag), overridden),
        call_ensures(default_timing, (None::<&str>, flag), plain),
    ensures
        plain.0.nanos == 5_000_000_000,
        plain.1.nanos == 15_000_000_000,
        match (flag, seconds) {
            (Some(flag), Some(n)) if flag@.len() > 0 && 1 <= n <= 3600 => overridden.0.nanos == n
                * 1_000_000_000 && overridden.1.nanos == 3 * overridden.0.nanos,
            _ => overridden == plain,
        },
{
}

/// A fresh watcher takes its grant for confirmed now.
pub proof fn law_a_fresh_watcher(
    grant: AccessGrant,
    settings: AccessWatchSettings,
    deadline: Option<Timestamp>,
    now: Instant,
    watcher: Watcher,
)
    requires
        call_ensures(Watcher::new, (grant, settings, deadline, now), watcher),
    ensures
        watcher.grant == grant,
        watcher.settings == settings,
        watcher.deadline == deadline,
        watcher.last_ok == now,
        watcher.nudges_alive,
{
}

/// A node begins without sessions, under its own identifier, and with the timing
/// that the environment asks for.
pub proof fn law_a_fresh_node(
    node_id: NodeId,
    interval: Option<&str>,
    flag: Option<&str>,
    state: State,
    timing: (Duration, Duration),
    id: u128,
)
    requires
        call_ensures(State::new, (node_id, interval, flag), state),
        call_ensures(default_timing, (interval, flag), timing),
    ensures
        !state.user_sessions@.contains_key(id),
        state.node_id == node_id,
        state.access_watch.interval == timing.0,
        state.access_watch.unconfirmed_limit == timing.1,
{
}

/// A nudge moves the count that the watchers look at on by one, around the end
/// of its range, and changes nothing else.
pub proof fn law_a_nudge_is_seen(state: &mut State)
    requires
        call_ensures(State::nudge_access_watchers, (state,), ()),
    ensures
        final(state).access_watch_nudges != old(state).access_watch_nudges,
        (old(state).access_watch_nudges + 1 - final(state).access_watch_nudges) % (u64::MAX + 1)
            == 0,
        final(state).user_sessions == old(state).user_sessions,
        final(state).node_id == old(state).node_id,
        final(state).access_watch == old(state).access_watch,
{
}

/// A session that is bound to its node is stored with that node as its owner,
/// and one that any node may serve without an owner; both with their start,
/// their protocol and their address.
pub proof fn law_only_a_bound_session_has_an_owner(
    state: State,
    protocol: Protocol,
    address: Option<String>,
    instance: u64,
    now: Timestamp,
    bound: PendingSession,
    free: PendingSession,
)
    requires
        call_ensures(
            State::register_node_local_user_session,
            (&state, protocol, address, instance, now),
            bound,
        ),
        call_ensures(
            State::register_nonlocal_user_session,
            (&state, protocol, address, instance, now),
            free,
        ),
    ensures
        bound.row.node_id == Some(state.node_id),
        bound.node_owned,
        free.row.node_id is None,
        !free.node_owned,
        bound.row.protocol == protocol,
        free.row.protocol == protocol,
        bound.row.started == now,
        free.row.started == now,
        bound.instance == instance,
        free.instance == instance,
        address matches Some(text) ==> bound.row.remote_address@ == text@
            && free.row.remote_address@ == text@,
        address is None ==> bound.row.remote_address@.len() == 0 && free.row.remote_address@.len()
            == 0,
{
}

/// The same of a session whose identifier is given: it is stored under it.
pub proof fn law_a_session_is_stored_under_its_identifier(
    state: State,
    id: UserSessionId,
    protocol: Protocol,
    owned: bool,
    address: Option<String>,
    instance: u64,
    now: Timestamp,
    pending: PendingSession,
)
    requires
        call_ensures(
            State::pending_session,
            (&state, id, protocol, owned, address, instance, now),
            pending,
        ),
    ensures
        pending.row.id == id,
        pending.row.node_id is Some <==> owned,
        pending.row.node_id matches Some(node) ==> node == state.node_id,
        pending.row.protocol == protocol,
        pending.row.started == now,
        pending.instance == instance,
        pending.node_owned == owned,
        address matches Some(text) ==> pending.row.remote_address@ == text@,
        address is None ==> pending.row.remote_address@.len() == 0,
{
}

/// A session is registered exactly if its row was stored, in the place of an
/// earlier state object of the same session; every other session stays as it is.
pub proof fn law_a_stored_session_is_registered(
    state: &mut State,
    pending: PendingSession,
    stored: Result<(), WarpgateError>,
    r: Result<Registration, WarpgateError>,
    other: u128,
)
    requires
        call_ensures(State::complete_registration, (state, pending, stored), r),
    ensures
        match stored {
            Ok(_) => {
                &&& r matches Ok(registration)
                &&& registration.id == pending.row.id
                &&& registration.instance == pending.instance
                &&& registration.protocol == pending.row.protocol
                &&& registration.node_owned == pending.node_owned
                &&& registration.node_id == old(state).node_id
                &&& registration.access_watch == old(state).access_watch
                &&& registration.nudges == old(state).access_watch_nudges
                &&& registration.effect is NotifyChange
                &&& final(state).user_sessions@.contains_key(pending.row.id.0)
                &&& final(state).user_sessions@[pending.row.id.0] == pending.instance
            },
            Err(error) => r == Err::<Registration, WarpgateError>(error)
                && final(state).user_sessions@ == old(state).user_sessions@,
        },
        other != pending.row.id.0 ==> final(state).user_sessions@.contains_key(other)
            == old(state).user_sessions@.contains_key(other) && final(state).user_sessions@[other]
            == old(state).user_sessions@[other],
        final(state).node_id == old(state).node_id,
        final(state).access_watch == old(state).access_watch,
{
}

/// An adopted session is registered under its own identifier, is never bound to
/// this node, and touches no other session.
pub proof fn law_an_adopted_session_is_never_owned(
    state: &mut State,
    id: UserSessionId,
    protocol: Protocol,
    instance: u64,
    r: Registration,
    other: u128,
)
    requires
        call_ensures(State::adopt_user_session, (state, id, protocol, instance), r),
    ensures
        r.id == id,
        r.instance == instance,
        r.protocol == protocol,
        !r.node_owned,
        r.effect is NotifyChange,
        final(state).user_sessions@.contains_key(id.0),
        final(state).user_sessions@[id.0] == instance,
        other != id.0 ==> final(state).user_sessions@.contains_key(other)
            == old(state).user_sessions@.contains_key(other) && final(state).user_sessions@[other]
            == old(state).user_sessions@[other],
{
}

/// Detaching takes a session out exactly if this state object is the one that is
/// registered, and touches no other session.
pub proof fn law_detaching_takes_out_its_own_state_only(
    state: &mut State,
    id: UserSessionId,
    instance: u64,
    other: u128,
)
    requires
        call_ensures(State::detach_user_session, (state, id, instance), ()),
    ensures
        old(state).user_sessions@.contains_key(id.0) && old(state).user_sessions@[id.0] == instance
            ==> !final(state).user_sessions@.contains_key(id.0),
        !(old(state).user_sessions@.contains_key(id.0) && old(state).user_sessions@[id.0]
            == instance) ==> final(state).user_sessions@ == old(state).user_sessions@,
        other != id.0 ==> final(state).user_sessions@.contains_key(other)
            == old(state).user_sessions@.contains_key(other) && final(state).user_sessions@[other]
            == old(state).user_sessions@[other],
{
}

/// A removed session is gone from the node and its row is ended, not deleted; its
/// approval requests are closed and the subscribers are told, whether or not the
/// node still held it. No other session is touched.
pub proof fn law_a_removed_session_is_ended(
    state: &mut State,
    id: UserSessionId,
    effects: Vec<StateEffect>,
    other: u128,
)
    requires
        call_ensures(State::remove_session, (state, id), effects),
    ensures
        !final(state).user_sessions@.contains_key(id.0),
        other != id.0 ==> final(state).user_sessions@.contains_key(other)
            == old(state).user_sessions@.contains_key(other) && final(state).user_sessions@[other]
            == old(state).user_sessions@[other],
        effects@.contains(StateEffect::MarkEnded(id)),
        effects@.contains(StateEffect::AbandonApprovals(id)),
        effects@.contains(StateEffect::NotifyChange),
        forall|effect: StateEffect| #[trigger]
            effects@.contains(effect) ==> effect == StateEffect::MarkEnded(id) || effect
                == StateEffect::AbandonApprovals(id) || effect is NotifyChange,
{
    assert(effects@[0] == StateEffect::MarkEnded(id));
    assert(effects@[1] == StateEffect::AbandonApprovals(id));
    assert(effects@[2] == StateEffect::NotifyChange);
}

/// A discarded session is gone from the node and its rows are deleted, its target
/// sessions first, not ended; its approval requests are closed and the
/// subscribers are told. No other session is touched.
pub proof fn law_a_discarded_session_is_deleted(
    state: &mut State,
    id: UserSessionId,
    effects: Vec<StateEffect>,
    other: u128,
)
    requires
        call_ensures(State::discard_session, (state, id), effects),
    ensures
        !final(state).user_sessions@.contains_key(id.0),
        other != id.0 ==> final(state).user_sessions@.contains_key(other)
            == old(state).user_sessions@.contains_key(other) && final(state).user_sessions@[other]
            == old(state).user_sessions@[other],
        effects@[0] == StateEffect::DeleteTargetSessions(id),
        effects@.contains(StateEffect::DeleteUserSession(id)),
        effects@.contains(StateEffect::AbandonApprovals(id)),
        effects@.contains(StateEffect::NotifyChange),
        !effects@.contains(StateEffect::MarkEnded(id)),
{
    assert(effects@[1] == StateEffect::DeleteUserSession(id));
    assert(effects@[2] == StateEffect::AbandonApprovals(id));
    assert(effects@[3] == StateEffect::NotifyChange);
}

/// A state object is local exactly if it is the one registered for some session.
pub proof fn law_what_is_local(state: State, session: UserSessionState, r: bool, id: u128)
    requires
        call_ensures(State::is_local, (&state, &session), r),
    ensures
        state.user_sessions@.contains_key(id) && state.user_sessions@[id] == session.handle.inner
            ==> r,
        r ==> exists|held: u128| #[trigger]
            state.user_sessions@.contains_key(held) && state.user_sessions@[held]
                == session.handle.inner,
{
}

/// Closing by a condition closes every registered session that meets it.
pub proof fn law_every_registered_match_is_closed<F: Fn(&UserSessionState) -> bool>(
    state: State,
    states: Vec<&UserSessionState>,
    matches: F,
    closed: Vec<SharedSessionHandle>,
    id: u128,
    i: int,
)
    requires
        call_ensures(State::close_local_sessions::<F>, (&state, &states, matches), closed),
        0 <= i < states@.len(),
        state.user_sessions@.contains_key(id) && state.user_sessions@[id]
            == states@[i].handle.inner,
        forall|verdict: bool| #[trigger] call_ensures(matches, (states@[i],), verdict) ==> verdict,
    ensures
        closed@.contains(states@[i].handle),
{
    let verdicts = choose|verdicts: Seq<bool>|
        #![trigger matching_handles(states@, verdicts)]
        verdicts.len() == states@.len() && (forall|i: int|
            0 <= i < states@.len() ==> state.decides(*states@[i], matches, #[trigger] verdicts[i]))
            && closed@ == matching_handles(states@, verdicts);
    assert(state.registers(*states@[i]));
    assert(state.decides(*states@[i], matches, verdicts[i]));
    crate::state::law_every_matching_session_is_closed(states@, verdicts, i);
}

/// Closing by a condition closes no session that does not meet it, and none that
/// is not registered.
pub proof fn law_only_a_registered_match_is_closed<F: Fn(&UserSessionState) -> bool>(
    state: State,
    states: Vec<&UserSessionState>,
    matches: F,
    closed: Vec<SharedSessionHandle>,
    k: int,
)
    requires
        call_ensures(State::close_local_sessions::<F>, (&state, &states, matches), closed),
        0 <= k < closed@.len(),
    ensures
        exists|i: int|
            0 <= i < states@.len() && (#[trigger] states@[i]).handle == closed@[k] && call_ensures(
                matches,
                (states@[i],),
                true,
            ) && exists|id: u128| #[trigger]
                state.user_sessions@.contains_key(id) && state.user_sessions@[id]
                    == states@[i].handle.inner,
{
    let verdicts = choose|verdicts: Seq<bool>|
        #![trigger matching_handles(states@, verdicts)]
        verdicts.len() == states@.len() && (forall|i: int|
            0 <= i < states@.len() ==> state.decides(*states@[i], matches, #[trigger] verdicts[i]))
            && closed@ == matching_handles(states@, verdicts);
    crate::state::law_only_matching_sessions_are_closed(states@, verdicts, k);
    let i = choose|i: int|
        0 <= i < states@.len() && verdicts[i] && #[trigger] states@[i].handle == matching_handles(
            states@,
            verdicts,
        )[k];
    assert(state.decides(*states@[i], matches, verdicts[i]));
    assert(states@[i].handle == closed@[k]);
}

/// A handle that can be locked is closed, and one that cannot is reported; a weak
/// handle does the same as long as its session is there, and nothing afterwards.
pub proof fn law_a_handle_closes_its_own_session(
    handle: SharedSessionHandle,
    lock: HandleLock,
    effect: CloseEffect,
    weak: WeakSessionHandle,
    upgraded: Option<HandleLock>,
    weakly: CloseEffect,
)
    requires
        call_ensures(SharedSessionHandle::close, (&handle, lock), effect),
        call_ensures(SharedSessionHandle::downgrade, (&handle,), weak),
        call_ensures(WeakSessionHandle::close, (&weak, upgraded), weakly),
    ensures
        lock is Locked ==> effect == CloseEffect::Close(handle.inner),
        lock is Poisoned ==> effect is ReportLockFailure,
        upgraded is None ==> weakly is Nothing,
        upgraded == Some(HandleLock::Locked) ==> weakly == CloseEffect::Close(handle.inner),
        upgraded == Some(HandleLock::Poisoned) ==> weakly is ReportLockFailure,
{
}

/// A fresh session state knows its connection and nothing else, and watches no
/// grant; a grant is watched once.
pub proof fn law_a_grant_is_watched_once(
    init: UserSessionStateInit,
    fresh: UserSessionState,
    state: &mut UserSessionState,
    grant: AccessGrant,
    starts: bool,
    other: AccessGrant,
)
    requires
        call_ensures(UserSessionState::new, (init,), fresh),
        call_ensures(UserSessionState::begin_access_watch, (state, grant), starts),
    ensures
        fresh.remote_address == init.remote_address,
        fresh.handle.inner == init.handle,
        fresh.user_info is None,
        fresh.target is None,
        fresh.access_watches@.len() == 0,
        starts <==> !old(state).access_watches@.contains(grant),
        final(state).access_watches@.contains(grant),
        other != grant ==> final(state).access_watches@.contains(other)
            == old(state).access_watches@.contains(other),
        final(state).handle == old(state).handle,
{
    let (before, after) = (old(state).access_watches@, final(state).access_watches@);
    if starts {
        assert(after[before.len() as int] == grant);
        if before.contains(other) {
            let k = choose|k: int| 0 <= k < before.len() && before[k] == other;
            assert(after[k] == other);
        }
        if after.contains(other) && other != grant {
            let k = choose|k: int| 0 <= k < after.len() && after[k] == other;
            assert(before[k] == other);
        }
    }
}

/// The cause means that the peer had gone: its connection broke, was reset or
/// aborted, or ended early, or a closed websocket was used.
pub open spec fn tells_peer_gone(io: Option<IoKind>, text: Seq<char>) -> bool {
    ||| io == Some(IoKind::BrokenPipe)
    ||| io == Some(IoKind::ConnectionReset)
    ||| io == Some(IoKind::ConnectionAborted)
    ||| io == Some(IoKind::UnexpectedEof)
    ||| (io is None || io == Some(IoKind::Other)) && ((exists|i: int| #[trigger]
        stands_at("Trying to work with closed connection"@, text, i)) || (exists|i: int| #[trigger]
        stands_at("Connection closed normally"@, text, i)))
}

proof fn lemma_peer_gone(io: Option<IoKind>, text: Seq<char>)
    ensures
        tells_peer_gone(io, text) == crate::stream_errors::means_peer_gone((io, text)),
{
    crate::text_laws::lemma_occurs("Trying to work with closed connection"@, text);
    crate::text_laws::lemma_occurs("Connection closed normally"@, text);
}

/// A failure means that the peer had gone exactly if one of its causes does.
pub proof fn law_when_a_peer_has_gone(causes: Vec<Cause>, r: bool)
    requires
        call_ensures(any_cause_means_peer_gone, (&causes,), r),
    ensures
        r <==> exists|i: int|
            0 <= i < causes@.len() && tells_peer_gone(
                (#[trigger] causes@[i]).io,
                causes@[i].text@,
            ),
{
    let view = crate::stream_errors::causes_view(causes@);
    assert forall|i: int| 0 <= i < causes@.len() implies crate::stream_errors::means_peer_gone(
        #[trigger] view[i],
    ) == tells_peer_gone(causes@[i].io, causes@[i].text@) by {
        lemma_peer_gone(causes@[i].io, causes@[i].text@);
    }
    if exists|i: int|
        0 <= i < causes@.len() && tells_peer_gone((#[trigger] causes@[i]).io, causes@[i].text@) {
        let i = choose|i: int|
            0 <= i < causes@.len() && tells_peer_gone(
                (#[trigger] causes@[i]).io,
                causes@[i].text@,
            );
        assert(crate::stream_errors::means_peer_gone(view[i]));
        assert(crate::stream_errors::any_means_peer_gone(view));
    }
    if exists|i: int| 0 <= i < view.len() && crate::stream_errors::means_peer_gone(
        #[trigger] view[i],
    ) {
        let i = choose|i: int|
            0 <= i < view.len() && crate::stream_errors::means_peer_gone(#[trigger] view[i]);
        assert(tells_peer_gone(causes@[i].io, causes@[i].text@));
    }
}

/// The same of an error, by its chain of causes.
pub proof fn law_when_an_error_means_that_a_peer_has_gone(error: anyhow::Error, r: bool)
    requires
        call_ensures(is_peer_gone, (&error,), r),
    ensures
        r <==> exists|i: int|
            0 <= i < crate::stream_errors::error_causes(error).len() && tells_peer_gone(
                (#[trigger] crate::stream_errors::error_causes(error)[i]).0,
                crate::stream_errors::error_causes(error)[i].1,
            ),
{
    let view = crate::stream_errors::error_causes(error);
    assert forall|i: int| 0 <= i < view.len() implies crate::stream_errors::means_peer_gone(
        #[trigger] view[i],
    ) == tells_peer_gone(view[i].0, view[i].1) by {
        lemma_peer_gone(view[i].0, view[i].1);
    }
    if r {
        let i = choose|i: int|
            0 <= i < view.len() && crate::stream_errors::means_peer_gone(#[trigger] view[i]);
        assert(tells_peer_gone(view[i].0, view[i].1));
    }
}

/// Nothing is read for a request without the permission, which is refused with
/// the reason; with it, the stored certificate is what is handed out.
pub proof fn law_the_stored_certificate_is_handed_out<E>(
    api: Api,
    permitted: Result<(), E>,
    step: CertificateStep<E>,
    loaded: Result<Parameters, E>,
    r: Result<InstanceCaCertificate, E>,
)
    requires
        call_ensures(Api::api_get_certificate::<E>, (&api, permitted), step),
        call_ensures(Api::on_parameters::<E>, (&api, loaded), r),
    ensures
        permitted is Ok ==> step is LoadParameters,
        permitted matches Err(error) ==> step == CertificateStep::Refused(error),
        match loaded {
            Ok(parameters) => r matches Ok(certificate) && certificate.certificate_pem@
                == parameters.ca_certificate_pem@,
            Err(error) => r == Err::<InstanceCaCertificate, E>(error),
        },
{
}

/// The timing that is set is the one that new sessions watch by.
pub proof fn law_the_timing_that_is_set_is_used(
    state: &mut State,
    interval: Duration,
    limit: Duration,
)
    requires
        call_ensures(State::set_access_watch_timing, (state, interval, limit), ()),
    ensures
        final(state).access_watch.interval == interval,
        final(state).access_watch.unconfirmed_limit == limit,
        final(state).user_sessions == old(state).user_sessions,
        final(state).node_id == old(state).node_id,
        final(state).access_watch_nudges == old(state).access_watch_nudges,
{
}

/// A closed handle has told its session to close, by the cancellation that its
/// token shares.
pub proof fn law_closing_a_handle_cancels_its_token(
    made: (KubernetesSessionHandle, tokio_util::sync::CancellationToken),
    handle: &mut KubernetesSessionHandle,
)
    requires
        call_ensures(KubernetesSessionHandle::new, (), made),
        call_ensures(KubernetesSessionHandle::close, (handle,), ()),
    ensures
        cancellation_of(made.1) == made.0.cancellation(),
        !made.0.closed(),
        final(handle).closed(),
        final(handle).cancellation() == old(handle).cancellation(),
{
}

} // verus!
