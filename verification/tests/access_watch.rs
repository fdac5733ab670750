use warpgate::access_watch::{
    close_on_error, default_timing, AccessGrant, AccessWatchSettings, CheckOutcome, Liveness,
    WakeReason, WatchStep, Watcher,
};
use warpgate::model::{Duration, Instant, Ticket, Timestamp};

const SECOND: i128 = 1_000_000_000;
const MILLI: u128 = 1_000_000;

fn at(nanos: i128) -> Timestamp {
    Timestamp { nanos }
}

fn instant(nanos: u128) -> Instant {
    Instant { nanos }
}

fn fixture(expiry: Option<Timestamp>) -> (Vec<Ticket>, u128, u128, u128) {
    let (ticket_id, user_id, target_id) = (11, 22, 33);
    let ticket = Ticket {
        id: ticket_id,
        user_id,
        target_id,
        // A used-up ticket must still read Live: exhausting `uses_left`
        // must not end a session already admitted under it.
        uses_left: Some(0),
        self_service: false,
        expiry,
    };
    (vec![ticket], ticket_id, user_id, target_id)
}

#[test]
fn ticket_grant_liveness_table() {
    let now = at(1_000_000 * SECOND);

    // No expiry: live forever.
    let (mut db, ticket_id, user_id, target_id) = fixture(None);
    let grant = AccessGrant::Ticket { ticket_id, user_id, target_id };
    assert!(matches!(grant.check(&db, now), Liveness::Live { until: None }));

    // Expiry in the future: live, with the deadline reported back.
    let future = at(now.nanos + 3600 * SECOND);
    db = fixture(Some(future)).0;
    assert!(matches!(
        grant.check(&db, now),
        Liveness::Live { until: Some(u) } if u == future
    ));

    // Expiry in the past (including exactly now): expired.
    let past = at(now.nanos - 3600 * SECOND);
    db = fixture(Some(past)).0;
    assert!(matches!(grant.check(&db, now), Liveness::Expired));
    assert!(matches!(grant.check(&db, past), Liveness::Expired));

    // Deleted: revoked, not an error.
    db.clear();
    assert!(matches!(grant.check(&db, now), Liveness::Revoked));

    // A ticket that exists, but for a different user or target, must not
    // be treated as this grant's backing row.
    let (db, ticket_id, user_id, target_id) = fixture(None);
    let wrong_user = AccessGrant::Ticket { ticket_id, user_id: 99, target_id };
    assert!(matches!(wrong_user.check(&db, now), Liveness::Revoked));
    let wrong_target = AccessGrant::Ticket { ticket_id, user_id, target_id: 99 };
    assert!(matches!(wrong_target.check(&db, now), Liveness::Revoked));
}

#[test]
fn close_on_error_policy() {
    let start = instant(1_000_000_000_000);
    let later = |seconds: u128| instant(start.nanos + seconds * 1000 * MILLI);
    let wall_now = at(1_700_000_000 * SECOND);
    let limit = Duration { nanos: 15 * 1000 * MILLI };

    // A deadline that has already passed closes immediately, even if the
    // last successful check was a moment ago.
    assert!(close_on_error(
        start,
        start,
        Some(at(wall_now.nanos - SECOND)),
        wall_now,
        limit
    ));

    // No deadline, and the unconfirmed limit not yet reached: keep going.
    assert!(!close_on_error(start, start, None, wall_now, limit));
    assert!(!close_on_error(start, later(10), None, wall_now, limit));

    // No deadline, but too long since the last confirmed-live check.
    assert!(close_on_error(start, later(15), None, wall_now, limit));

    // A future deadline does not by itself excuse a stale confirmation.
    assert!(close_on_error(
        start,
        later(20),
        Some(at(wall_now.nanos + 3600 * SECOND)),
        wall_now,
        limit
    ));
}

#[test]
fn an_interval_override_counts_only_under_test_and_in_range() {
    let pair = |a: u128, b: u128| (Duration { nanos: a }, Duration { nanos: b });
    let default = pair(5_000_000_000, 15_000_000_000);
    assert_eq!(default_timing(None, None), default);
    assert_eq!(default_timing(Some("2"), None), default);
    assert_eq!(default_timing(Some("2"), Some("")), default);
    assert_eq!(
        default_timing(Some("2"), Some("1")),
        pair(2_000_000_000, 6_000_000_000)
    );
    assert_eq!(
        default_timing(Some("3600"), Some("1")),
        pair(3_600_000_000_000, 10_800_000_000_000)
    );
    assert_eq!(default_timing(Some("0"), Some("1")), default);
    assert_eq!(default_timing(Some("3601"), Some("1")), default);
    assert_eq!(default_timing(Some("-1"), Some("1")), default);
    assert_eq!(default_timing(Some("soon"), Some("1")), default);
    assert_eq!(default_timing(None, Some("1")), default);
}

/// Lets a watcher run over a store of tickets until it closes, and says after
/// how many nanoseconds that was; `None` if it still waits after `limit`.
fn closes_within(
    tickets: &Vec<Ticket>,
    interval: u128,
    unconfirmed: u128,
    deadline: Option<Timestamp>,
    nudge_at: Option<u128>,
    limit: u128,
) -> Option<u128> {
    let grant = AccessGrant::Ticket { ticket_id: 11, user_id: 22, target_id: 33 };
    let settings = AccessWatchSettings {
        interval: Duration { nanos: interval },
        unconfirmed_limit: Duration { nanos: unconfirmed },
    };
    let mut clock: u128 = 0;
    let mut watcher = Watcher::new(grant, settings, deadline, instant(0));
    loop {
        let wait = watcher.wake_in(at(clock as i128)).nanos;
        let reason = match nudge_at {
            Some(nudge) if nudge >= clock && nudge < clock + wait => {
                clock = nudge;
                WakeReason::Nudged
            }
            _ => {
                clock += wait;
                WakeReason::Slept
            }
        };
        if clock > limit {
            return None;
        }
        assert!(matches!(watcher.on_wake(reason), WatchStep::Check { .. }));
        let now = at(clock as i128);
        let outcome = CheckOutcome::Checked(grant.check(tickets, now));
        match watcher.on_check(outcome, instant(clock), now) {
            WatchStep::Close => return Some(clock),
            WatchStep::Wait => clock += 1,
            _ => panic!("a watcher of a live session goes on"),
        }
    }
}

#[test]
fn exhausted_uses_do_not_close() {
    let (db, _, _, _) = fixture(None);
    assert_eq!(closes_within(&db, 30 * MILLI, 90 * MILLI, None, None, 200 * MILLI), None);
}

#[test]
fn deleting_ticket_closes_session() {
    let closed = closes_within(&vec![], 50 * MILLI, 150 * MILLI, None, None, 1000 * MILLI);
    assert_eq!(closed, Some(50 * MILLI));
}

#[test]
fn expiry_closes_at_deadline_not_poll() {
    let hour = 3600 * 1000 * MILLI;
    let expiry = at(2 * SECOND);
    let (db, _, _, _) = fixture(Some(expiry));
    let closed = closes_within(&db, hour, hour, Some(expiry), None, 5000 * MILLI);
    assert_eq!(closed, Some(2000 * MILLI));
}

#[test]
fn nudge_rechecks_immediately() {
    let hour = 3600 * 1000 * MILLI;
    let closed = closes_within(&vec![], hour, hour, None, Some(7 * MILLI), 500 * MILLI);
    assert_eq!(closed, Some(7 * MILLI));
}

#[test]
fn dropping_session_cancels_watcher() {
    let grant = AccessGrant::Ticket { ticket_id: 1, user_id: 2, target_id: 3 };
    let settings = AccessWatchSettings {
        interval: Duration { nanos: 20 * MILLI },
        unconfirmed_limit: Duration { nanos: 60 * MILLI },
    };
    let mut watcher = Watcher::new(grant, settings, None, instant(0));
    assert_eq!(watcher.on_wake(WakeReason::Stopped), WatchStep::Return);
    assert_eq!(
        watcher.on_check(CheckOutcome::Stopped, instant(1), at(1)),
        WatchStep::Return
    );
}

#[test]
fn failed_checks_are_tolerated_up_to_the_limit() {
    let grant = AccessGrant::Ticket { ticket_id: 1, user_id: 2, target_id: 3 };
    let settings = AccessWatchSettings {
        interval: Duration { nanos: 20 * MILLI },
        unconfirmed_limit: Duration { nanos: 60 * MILLI },
    };
    let mut watcher = Watcher::new(grant, settings, None, instant(0));
    // A check is given a second even if the interval is shorter.
    assert_eq!(
        watcher.on_wake(WakeReason::NudgesClosed),
        WatchStep::Check { timeout: Duration { nanos: 1000 * MILLI } }
    );
    assert!(!watcher.nudges_alive);
    let fail = |w: &mut Watcher, t: u128| w.on_check(CheckOutcome::Failed, instant(t), at(0));
    assert_eq!(fail(&mut watcher, 59 * MILLI), WatchStep::Wait);
    assert_eq!(
        watcher.on_check(CheckOutcome::TimedOut, instant(60 * MILLI), at(0)),
        WatchStep::Close
    );
    let live = CheckOutcome::Checked(Liveness::Live { until: None });
    assert_eq!(watcher.on_check(live, instant(60 * MILLI), at(0)), WatchStep::Wait);
    assert_eq!(fail(&mut watcher, 119 * MILLI), WatchStep::Wait);
}
