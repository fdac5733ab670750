//! Watches a target session's backing [`AccessGrant`] for revocation or
//! expiry, and says when the session has to be closed.
//!
//! A grant is checked once at admission and kept checked for as long as
//! anything was admitted under it. The number of uses that a ticket has left is
//! never part of that: using a ticket up stops new admissions, and does not end
//! a session that it already let in.
use vstd::prelude::*;

use crate::model::{Duration, Instant, Ticket, Timestamp};
use crate::text::{number_in, parse_number};

verus! {

/// How often a watcher re-checks its grant without a known deadline or a
/// nudge, in nanoseconds: five seconds.
pub const DEFAULT_INTERVAL: u128 = 5_000_000_000;

/// How long a watcher tolerates a grant that it cannot re-check, in
/// nanoseconds: fifteen seconds, so a few missed checks and not the first one.
pub const DEFAULT_UNCONFIRMED_LIMIT: u128 = 15_000_000_000;

/// The shortest interval that can be asked for, in seconds.
pub const MIN_INTERVAL_OVERRIDE: u64 = 1;

/// The longest interval that can be asked for, in seconds.
pub const MAX_INTERVAL_OVERRIDE: u64 = 3600;

/// The least time that one check of a grant is given, in nanoseconds: one
/// second.
pub const MIN_CHECK_TIMEOUT: u128 = 1_000_000_000;

/// The interval and the unconfirmed limit without an override.
pub open spec fn spec_default_pair() -> (Duration, Duration) {
    (Duration { nanos: DEFAULT_INTERVAL }, Duration { nanos: DEFAULT_UNCONFIRMED_LIMIT })
}

fn default_pair() -> (r: (Duration, Duration))
    ensures
        r == spec_default_pair(),
{
    (Duration { nanos: DEFAULT_INTERVAL }, Duration { nanos: DEFAULT_UNCONFIRMED_LIMIT })
}

/// The interval and the unconfirmed limit for what the two environment
/// variables hold: an override is honoured only under test, and only if it is a
/// number of seconds in range.
pub open spec fn timing(
    interval_override: Option<Seq<char>>,
    under_test: Option<Seq<char>>,
) -> (Duration, Duration) {
    match (interval_override, under_test) {
        (Some(raw), Some(flag)) if flag.len() > 0 => match number_in(raw) {
            Some(seconds) if MIN_INTERVAL_OVERRIDE <= seconds <= MAX_INTERVAL_OVERRIDE => (
                Duration { nanos: (seconds * 1_000_000_000) as u128 },
                Duration { nanos: (seconds * 3_000_000_000) as u128 },
            ),
            _ => spec_default_pair(),
        },
        _ => spec_default_pair(),
    }
}

/// The view of an optional text.
pub open spec fn opt_text(text: Option<&str>) -> Option<Seq<char>> {
    match text {
        Some(t) => Some(t@),
        None => None,
    }
}

/// The interval and the unconfirmed limit that a fresh state starts with, from
/// the override variable and from the variable that marks a test run.
pub fn default_timing(interval_override: Option<&str>, under_test: Option<&str>) -> (r: (
    Duration,
    Duration,
))
    ensures
        r == timing(opt_text(interval_override), opt_text(under_test)),
{
    let raw: &str = match interval_override {
        Some(raw) => raw,
        None => {
            return default_pair();
        },
    };
    let unset: bool = match under_test {
        Some(flag) => flag.is_empty(),
        None => true,
    };
    if unset {
        return default_pair();
    }
    match parse_number(raw) {
        Some(seconds) if MIN_INTERVAL_OVERRIDE <= seconds && seconds <= MAX_INTERVAL_OVERRIDE => {
            let nanos: u128 = seconds as u128 * 1_000_000_000;
            (Duration { nanos }, Duration { nanos: nanos * 3 })
        },
        _ => default_pair(),
    }
}

/// What a target session's admission was granted under.
#[derive(Clone, Copy, Debug, PartialEq, Eq, Hash, Structural)]
pub enum AccessGrant {
    Ticket { ticket_id: u128, user_id: u128, target_id: u128 },
}

/// The result of re-checking a grant.
#[derive(Clone, Copy, Debug, PartialEq, Eq, Structural)]
pub enum Liveness {
    /// Still good, up to the next known deadline, if there is one.
    Live { until: Option<Timestamp> },
    /// The ticket behind the grant is gone.
    Revoked,
    /// The ticket is there, but its own deadline has passed.
    Expired,
}

impl AccessGrant {
    /// The ticket is the one that this grant was made from.
    pub open spec fn backed_by(self, ticket: Ticket) -> bool {
        match self {
            AccessGrant::Ticket { ticket_id, user_id, target_id } => {
                &&& ticket.id == ticket_id
                &&& ticket.user_id == user_id
                &&& ticket.target_id == target_id
            },
        }
    }

    /// The first of the stored tickets that backs this grant.
    pub open spec fn backing(self, tickets: Seq<Ticket>) -> Option<Ticket>
        decreases tickets.len(),
    {
        if tickets.len() == 0 {
            None
        } else if self.backed_by(tickets[0]) {
            Some(tickets[0])
        } else {
            self.backing(tickets.drop_first())
        }
    }

    /// What this grant is worth at `now`, by the stored tickets.
    pub open spec fn liveness(self, tickets: Seq<Ticket>, now: Timestamp) -> Liveness {
        match self.backing(tickets) {
            None => Liveness::Revoked,
            Some(ticket) => match ticket.expiry {
                Some(expiry) if expiry.nanos <= now.nanos => Liveness::Expired,
                until => Liveness::Live { until },
            },
        }
    }

    fn is_backed_by(&self, ticket: &Ticket) -> (r: bool)
        ensures
            r == self.backed_by(*ticket),
    {
        match self {
            AccessGrant::Ticket { ticket_id, user_id, target_id } => ticket.id == *ticket_id
                && ticket.user_id == *user_id && ticket.target_id == *target_id,
        }
    }

    /// Re-checks this grant against the stored tickets as of `now`.
    pub fn check(&self, tickets: &Vec<Ticket>, now: Timestamp) -> (liveness: Liveness)
        ensures
            liveness == self.liveness(tickets@, now),
    {
        let mut i: usize = 0;
        assert(tickets@.skip(0) == tickets@);
        while i < tickets.len()
            invariant
                i <= tickets.len(),
                self.backing(tickets@) == self.backing(tickets@.skip(i as int)),
            decreases tickets.len() - i,
        {
            let ticket: Ticket = tickets[i];
            assert(tickets@.skip(i as int)[0] == ticket);
            assert(tickets@.skip(i as int).drop_first() == tickets@.skip(i + 1));
            if self.is_backed_by(&ticket) {
                return match ticket.expiry {
                    Some(expiry) if expiry.nanos <= now.nanos => Liveness::Expired,
                    until => Liveness::Live { until },
                };
            }
            i += 1;
        }
        Liveness::Revoked
    }
}

/// A watcher that just failed to check its grant gives up on it: the known
/// deadline has passed, or the grant was last confirmed too long ago.
pub open spec fn gives_up(
    last_ok: Instant,
    now: Instant,
    deadline: Option<Timestamp>,
    wall_now: Timestamp,
    unconfirmed_limit: Duration,
) -> bool {
    ||| deadline is Some && deadline->0.nanos <= wall_now.nanos
    ||| (if now.nanos >= last_ok.nanos {
        now.nanos - last_ok.nanos
    } else {
        0
    }) >= unconfirmed_limit.nanos
}

/// Whether a watcher that just failed to check its grant should give up and
/// close the session. The time since the last confirmation is measured on the
/// monotonic clock, the deadline on the wall clock.
pub fn close_on_error(
    last_ok: Instant,
    now: Instant,
    deadline: Option<Timestamp>,
    wall_now: Timestamp,
    unconfirmed_limit: Duration,
) -> (close: bool)
    ensures
        close == gives_up(last_ok, now, deadline, wall_now, unconfirmed_limit),
{
    if let Some(deadline) = deadline {
        if deadline.nanos <= wall_now.nanos {
            return true;
        }
    }
    now.nanos.saturating_sub(last_ok.nanos) >= unconfirmed_limit.nanos
}

/// How eagerly a watcher polls.
#[derive(Clone, Copy, Debug, PartialEq, Eq, Structural)]
pub struct AccessWatchSettings {
    pub interval: Duration,
    pub unconfirmed_limit: Duration,
}

/// The state of one watcher.
#[derive(Clone, Copy, Debug, PartialEq, Eq, Structural)]
pub struct Watcher {
    pub grant: AccessGrant,
    pub settings: AccessWatchSettings,
    /// When the grant was last confirmed.
    pub last_ok: Instant,
    /// The next known deadline of the grant.
    pub deadline: Option<Timestamp>,
    /// Whether anyone can still nudge the watcher.
    pub nudges_alive: bool,
}

/// Why a waiting watcher woke up.
#[derive(Clone, Copy, Debug, PartialEq, Eq, Structural)]
pub enum WakeReason {
    /// The session that it watches is gone.
    Stopped,
    /// The time it meant to wait is over.
    Slept,
    /// It was told to re-check at once.
    Nudged,
    /// Nobody is left who could nudge it.
    NudgesClosed,
}

/// How re-checking the grant ended.
#[derive(Clone, Copy, Debug, PartialEq, Eq, Structural)]
pub enum CheckOutcome {
    /// The session that it watches went away meanwhile.
    Stopped,
    Checked(Liveness),
    /// The check failed.
    Failed,
    /// The check did not come back in time.
    TimedOut,
}

/// What a watcher does next.
#[derive(Clone, Copy, Debug, PartialEq, Eq, Structural)]
pub enum WatchStep {
    /// Wait again.
    Wait,
    /// Re-check the grant, for at most `timeout`.
    Check { timeout: Duration },
    /// Close the session and end.
    Close,
    /// End without closing anything.
    Return,
}

/// The time from `from` to the later point `to`.
fn time_between(from: Timestamp, to: Timestamp) -> (nanos: u128)
    requires
        from.nanos < to.nanos,
    ensures
        nanos == to.nanos - from.nanos,
{
    if from.nanos >= 0 || to.nanos < 0 {
        (to.nanos - from.nanos) as u128
    } else {
        to.nanos as u128 + (-(from.nanos + 1)) as u128 + 1
    }
}

impl Watcher {
    /// How long the watcher waits from `now`, in nanoseconds: until its
    /// deadline, and never longer than its interval.
    pub open spec fn wait_nanos(self, now: Timestamp) -> int {
        match self.deadline {
            Some(deadline) if deadline.nanos <= now.nanos => 0,
            Some(deadline) if deadline.nanos - now.nanos <= self.settings.interval.nanos => {
                deadline.nanos - now.nanos
            },
            _ => self.settings.interval.nanos as int,
        }
    }

    /// How long one check may take.
    pub open spec fn timeout(self) -> Duration {
        if self.settings.interval.nanos >= MIN_CHECK_TIMEOUT {
            self.settings.interval
        } else {
            Duration { nanos: MIN_CHECK_TIMEOUT }
        }
    }

    /// The watcher and its next step, after it woke up.
    pub open spec fn woken(self, reason: WakeReason) -> (Watcher, WatchStep) {
        match reason {
            WakeReason::Stopped => (self, WatchStep::Return),
            WakeReason::NudgesClosed => (
                Watcher { nudges_alive: false, ..self },
                WatchStep::Check { timeout: self.timeout() },
            ),
            WakeReason::Slept => (self, WatchStep::Check { timeout: self.timeout() }),
            WakeReason::Nudged => (self, WatchStep::Check { timeout: self.timeout() }),
        }
    }

    /// The watcher and its next step, after a check that ended at `now`.
    pub open spec fn checked(
        self,
        outcome: CheckOutcome,
        now: Instant,
        wall_now: Timestamp,
    ) -> (Watcher, WatchStep) {
        match outcome {
            CheckOutcome::Stopped => (self, WatchStep::Return),
            CheckOutcome::Checked(Liveness::Live { until }) => (
                Watcher { deadline: until, last_ok: now, ..self },
                WatchStep::Wait,
            ),
            CheckOutcome::Checked(_) => (self, WatchStep::Close),
            CheckOutcome::Failed | CheckOutcome::TimedOut => (
                self,
                if gives_up(
                    self.last_ok,
                    now,
                    self.deadline,
                    wall_now,
                    self.settings.unconfirmed_limit,
                ) {
                    WatchStep::Close
                } else {
                    WatchStep::Wait
                },
            ),
        }
    }

    /// A watcher of a grant that was confirmed at `now`.
    pub fn new(
        grant: AccessGrant,
        settings: AccessWatchSettings,
        deadline: Option<Timestamp>,
        now: Instant,
    ) -> (watcher: Watcher)
        ensures
            watcher == (Watcher { grant, settings, last_ok: now, deadline, nudges_alive: true }),
    {
        Watcher { grant, settings, last_ok: now, deadline, nudges_alive: true }
    }

    /// How long to wait for a nudge from `now` on.
    pub fn wake_in(&self, now: Timestamp) -> (wait: Duration)
        ensures
            wait.nanos == self.wait_nanos(now),
    {
        match self.deadline {
            Some(deadline) if deadline.nanos <= now.nanos => Duration { nanos: 0 },
            Some(deadline) => {
                let left: u128 = time_between(now, deadline);
                if left <= self.settings.interval.nanos {
                    Duration { nanos: left }
                } else {
                    self.settings.interval
                }
            },
            None => self.settings.interval,
        }
    }

    /// Takes up the end of a wait.
    pub fn on_wake(&mut self, reason: WakeReason) -> (step: WatchStep)
        ensures
            (*final(self), step) == old(self).woken(reason),
    {
        let timeout: Duration = if self.settings.interval.nanos >= MIN_CHECK_TIMEOUT {
            self.settings.interval
        } else {
            Duration { nanos: MIN_CHECK_TIMEOUT }
        };
        match reason {
            WakeReason::Stopped => WatchStep::Return,
            WakeReason::NudgesClosed => {
                self.nudges_alive = false;
                WatchStep::Check { timeout }
            },
            WakeReason::Slept => WatchStep::Check { timeout },
            WakeReason::Nudged => WatchStep::Check { timeout },
        }
    }

    /// Takes up the end of a check.
    pub fn on_check(&mut self, outcome: CheckOutcome, now: Instant, wall_now: Timestamp) -> (step:
        WatchStep)
        ensures
            (*final(self), step) == old(self).checked(outcome, now, wall_now),
    {
        match outcome {
            CheckOutcome::Stopped => WatchStep::Return,
            CheckOutcome::Checked(Liveness::Live { until }) => {
                self.deadline = until;
                self.last_ok = now;
                WatchStep::Wait
            },
            CheckOutcome::Checked(_) => WatchStep::Close,
            CheckOutcome::Failed | CheckOutcome::TimedOut => {
                if close_on_error(
                    self.last_ok,
                    now,
                    self.deadline,
                    wall_now,
                    self.settings.unconfirmed_limit,
                ) {
                    WatchStep::Close
                } else {
                    WatchStep::Wait
                }
            },
        }
    }
}

/// One turn of a watcher: why it woke, and how the check that followed ended.
pub struct Round {
    pub woke: WakeReason,
    pub outcome: CheckOutcome,
    pub at: Instant,
    pub wall: Timestamp,
}

/// Where a watcher stands.
pub enum Watching {
    Waiting(Watcher),
    Closed,
    Returned,
}

/// Where a watcher stands after one more turn.
pub open spec fn turn(standing: Watching, round: Round) -> Watching {
    match standing {
        Watching::Waiting(watcher) => {
            let (woken, step) = watcher.woken(round.woke);
            if step is Check {
                let (checked, next) = woken.checked(round.outcome, round.at, round.wall);
                match next {
                    WatchStep::Close => Watching::Closed,
                    WatchStep::Return => Watching::Returned,
                    _ => Watching::Waiting(checked),
                }
            } else {
                Watching::Returned
            }
        },
        ended => ended,
    }
}

/// Where a watcher stands after a number of turns.
pub open spec fn run(watcher: Watcher, rounds: Seq<Round>) -> Watching
    decreases rounds.len(),
{
    if rounds.len() == 0 {
        Watching::Waiting(watcher)
    } else {
        turn(run(watcher, rounds.drop_last()), rounds.last())
    }
}

/// The check confirmed the grant.
pub open spec fn confirms(outcome: CheckOutcome) -> bool {
    outcome matches CheckOutcome::Checked(liveness) && liveness is Live
}

/// The check found the grant dead.
pub open spec fn finds_dead(outcome: CheckOutcome) -> bool {
    outcome matches CheckOutcome::Checked(liveness) && !(liveness is Live)
}

/// How many uses a ticket has left has no part in whether its grant is live.
pub proof fn law_uses_left_is_no_part_of_liveness(
    grant: AccessGrant,
    before: Seq<Ticket>,
    after: Seq<Ticket>,
    now: Timestamp,
)
    requires
        before.len() == after.len(),
        forall|i: int| #![trigger after[i]]
            0 <= i < before.len() ==> after[i] == (Ticket {
                uses_left: after[i].uses_left,
                ..before[i]
            }),
    ensures
        grant.liveness(before, now) == grant.liveness(after, now),
    decreases before.len(),
{
    if before.len() > 0 {
        assert(after[0] == (Ticket { uses_left: after[0].uses_left, ..before[0] }));
        let b = before.drop_first();
        let a = after.drop_first();
        assert forall|i: int| #![trigger a[i]] 0 <= i < b.len() implies a[i] == (Ticket {
            uses_left: a[i].uses_left,
            ..b[i]
        }) by {
            assert(a[i] == after[i + 1]);
        }
        law_uses_left_is_no_part_of_liveness(grant, b, a, now);
    }
}

/// A ticket of another user or another target backs no grant, so a grant
/// without a ticket of all three identifiers is revoked.
pub proof fn law_only_the_exact_ticket_keeps_a_grant_alive(
    grant: AccessGrant,
    tickets: Seq<Ticket>,
    now: Timestamp,
)
    ensures
        grant.liveness(tickets, now) is Revoked <==> (forall|i: int|
            0 <= i < tickets.len() ==> !grant.backed_by(#[trigger] tickets[i])),
    decreases tickets.len(),
{
    if tickets.len() > 0 && !grant.backed_by(tickets[0]) {
        let rest = tickets.drop_first();
        law_only_the_exact_ticket_keeps_a_grant_alive(grant, rest, now);
        assert forall|i: int|
            (forall|j: int| 0 <= j < rest.len() ==> !grant.backed_by(#[trigger] rest[j])) && 0 <= i
                < tickets.len() implies !grant.backed_by(#[trigger] tickets[i]) by {
            if i > 0 {
                assert(tickets[i] == rest[i - 1]);
            }
        }
        assert forall|j: int|
            (forall|i: int| 0 <= i < tickets.len() ==> !grant.backed_by(#[trigger] tickets[i]))
                && 0 <= j < rest.len() implies !grant.backed_by(#[trigger] rest[j]) by {
            assert(rest[j] == tickets[j + 1]);
        }
    }
}

/// A watcher never waits beyond its interval or beyond a known deadline, and
/// a check at the deadline itself already finds the grant expired.
pub proof fn law_a_deadline_is_met_when_it_comes(
    watcher: Watcher,
    tickets: Seq<Ticket>,
    now: Timestamp,
    later: Timestamp,
)
    requires
        watcher.grant.liveness(tickets, now) == (Liveness::Live { until: watcher.deadline }),
    ensures
        0 <= watcher.wait_nanos(now) <= watcher.settings.interval.nanos,
        watcher.deadline is Some ==> now.nanos + watcher.wait_nanos(now)
            <= watcher.deadline->0.nanos,
        watcher.deadline is Some && later.nanos >= watcher.deadline->0.nanos
            ==> watcher.grant.liveness(tickets, later) is Expired,
{
}

/// A grant that every check confirms is never given up, however often it is
/// checked.
pub proof fn law_a_confirmed_grant_is_never_closed(watcher: Watcher, rounds: Seq<Round>)
    requires
        forall|i: int| 0 <= i < rounds.len() ==> confirms((#[trigger] rounds[i]).outcome),
    ensures
        !(run(watcher, rounds) is Closed),
    decreases rounds.len(),
{
    if rounds.len() > 0 {
        assert forall|i: int| 0 <= i < rounds.drop_last().len() implies confirms(
            (#[trigger] rounds.drop_last()[i]).outcome,
        ) by {
            assert(rounds.drop_last()[i] == rounds[i]);
        }
        law_a_confirmed_grant_is_never_closed(watcher, rounds.drop_last());
        assert(confirms(rounds.last().outcome));
    }
}

/// A watcher that is still waiting and then finds its grant dead closes the
/// session, and a closed session stays closed.
pub proof fn law_a_dead_grant_is_closed(watcher: Watcher, rounds: Seq<Round>, more: Seq<Round>)
    requires
        rounds.len() > 0,
        run(watcher, rounds.drop_last()) is Waiting,
        !(rounds.last().woke is Stopped),
        finds_dead(rounds.last().outcome),
    ensures
        run(watcher, rounds + more) is Closed,
    decreases more.len(),
{
    if more.len() == 0 {
        assert(rounds + more == rounds);
    } else {
        law_a_dead_grant_is_closed(watcher, rounds, more.drop_last());
        assert((rounds + more).drop_last() == rounds + more.drop_last());
    }
}

/// A session is closed only by a check that found the grant dead, or by one
/// that did not come through past the limit or the deadline.
pub proof fn law_only_a_dead_or_unconfirmed_grant_is_closed(watcher: Watcher, rounds: Seq<Round>)
    requires
        rounds.len() > 0,
        run(watcher, rounds.drop_last()) is Waiting,
        run(watcher, rounds) is Closed,
    ensures
        ({
            let before = run(watcher, rounds.drop_last())->Waiting_0;
            let last = rounds.last();
            ||| finds_dead(last.outcome)
            ||| (last.outcome is Failed || last.outcome is TimedOut) && gives_up(
                before.last_ok,
                last.at,
                before.deadline,
                last.wall,
                before.settings.unconfirmed_limit,
            )
        }),
{
}

} // verus!
