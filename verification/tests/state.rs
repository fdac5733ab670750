use warpgate::access_watch::{AccessGrant, AccessWatchSettings};
use warpgate::model::{Duration, NodeId, Protocol, Timestamp, UserSessionId, WarpgateError};
use warpgate::state::{
    CloseEffect, HandleLock, Registration, SharedSessionHandle, State, StateEffect,
    UserSessionState, UserSessionStateInit,
};

const NOW: Timestamp = Timestamp { nanos: 42 };

fn session(handle: u64, remote: Option<&str>) -> UserSessionState {
    UserSessionState::new(UserSessionStateInit {
        remote_address: remote.map(|r| r.to_owned()),
        handle,
    })
}

fn register(state: &mut State, instance: u64) -> Registration {
    let pending = state.register_node_local_user_session(Protocol::Http, None, instance, NOW);
    state.complete_registration(pending, Ok(())).unwrap()
}

#[test]
fn registration_kind_decides_the_owning_node() {
    let node_id = NodeId(77);
    let state = State::new(node_id, None, None);

    let cookie_backed = state.register_nonlocal_user_session(Protocol::Http, None, 1, NOW);
    assert_eq!(cookie_backed.row.node_id, None);

    let node_local = state.register_node_local_user_session(Protocol::Http, None, 2, NOW);
    assert_eq!(node_local.row.node_id, Some(node_id));
}

#[test]
fn a_registered_session_has_a_random_identifier_of_its_own() {
    let state = State::new(NodeId(1), None, None);
    let a = state.register_nonlocal_user_session(Protocol::Ssh, None, 1, NOW).row;
    let b = state.register_nonlocal_user_session(Protocol::Ssh, None, 1, NOW).row;
    assert_ne!(a.id, b.id);
    assert_eq!((a.id.0 >> 76) & 0xf, 4);
    assert_eq!((a.id.0 >> 62) & 0x3, 2);
    assert_eq!(a.remote_address, "");
    assert_eq!(a.started, NOW);

    let row = state
        .register_nonlocal_user_session(Protocol::Ssh, Some("1.2.3.4:5".to_owned()), 1, NOW)
        .row;
    assert_eq!(row.remote_address, "1.2.3.4:5");
}

#[test]
fn a_session_is_installed_only_once_its_row_is_stored() {
    let mut state = State::new(NodeId(1), None, None);
    let pending = state.register_node_local_user_session(Protocol::Http, None, 5, NOW);
    let failed = state.complete_registration(pending, Err(WarpgateError::Service("db".to_owned())));
    assert!(matches!(failed, Err(WarpgateError::Service(_))));
    assert!(state.user_sessions.is_empty());

    let registration = register(&mut state, 5);
    assert_eq!(state.user_sessions.get(&registration.id.0), Some(&5));
    assert!(registration.node_owned);
    assert_eq!(registration.node_id, NodeId(1));
    assert_eq!(registration.effect, StateEffect::NotifyChange);
    assert_eq!(
        registration.access_watch,
        AccessWatchSettings {
            interval: Duration { nanos: 5_000_000_000 },
            unconfirmed_limit: Duration { nanos: 15_000_000_000 },
        }
    );
}

#[test]
fn an_adopted_session_is_never_bound_to_this_node() {
    let mut state = State::new(NodeId(1), None, None);
    let adopted = state.adopt_user_session(UserSessionId(9), Protocol::Http, 3);
    assert!(!adopted.node_owned);
    assert_eq!(adopted.id, UserSessionId(9));
    assert_eq!(state.user_sessions.get(&9), Some(&3));
}

#[test]
fn a_stale_handle_takes_out_nothing() {
    let mut state = State::new(NodeId(1), None, None);
    let id = UserSessionId(9);
    state.adopt_user_session(id, Protocol::Http, 3);
    state.adopt_user_session(id, Protocol::Http, 4);
    state.detach_user_session(id, 3);
    assert_eq!(state.user_sessions.get(&9), Some(&4));
    state.detach_user_session(id, 4);
    assert!(state.user_sessions.is_empty());
    state.detach_user_session(id, 4);
    assert!(state.user_sessions.is_empty());
}

#[test]
fn removing_ends_and_discarding_deletes() {
    let mut state = State::new(NodeId(1), None, None);
    let id = UserSessionId(9);
    state.adopt_user_session(id, Protocol::Http, 3);
    state.adopt_user_session(UserSessionId(10), Protocol::Http, 4);
    assert_eq!(
        state.remove_session(id),
        vec![
            StateEffect::MarkEnded(id),
            StateEffect::AbandonApprovals(id),
            StateEffect::NotifyChange,
        ]
    );
    assert_eq!(state.user_sessions.len(), 1);
    let id = UserSessionId(10);
    assert_eq!(
        state.discard_session(id),
        vec![
            StateEffect::DeleteTargetSessions(id),
            StateEffect::DeleteUserSession(id),
            StateEffect::AbandonApprovals(id),
            StateEffect::NotifyChange,
        ]
    );
    assert!(state.user_sessions.is_empty());
}

#[test]
fn a_nudge_changes_the_count_even_at_its_end() {
    let mut state = State::new(NodeId(1), None, None);
    state.nudge_access_watchers();
    assert_eq!(state.access_watch_nudges, 1);
    state.access_watch_nudges = u64::MAX;
    state.nudge_access_watchers();
    assert_eq!(state.access_watch_nudges, 0);
    let (a, b) = (Duration { nanos: 1 }, Duration { nanos: 2 });
    state.set_access_watch_timing(a, b);
    assert_eq!(state.access_watch.interval, a);
    assert_eq!(state.access_watch.unconfirmed_limit, b);
}

#[test]
fn closing_reaches_exactly_the_matching_sessions() {
    let mut state = State::new(NodeId(1), None, None);
    for instance in 1..4 {
        register(&mut state, instance);
    }
    let sessions = [
        session(1, Some("a")),
        session(2, None),
        session(3, Some("b")),
    ];
    let states: Vec<&UserSessionState> = sessions.iter().collect();
    let closed = state.close_local_sessions(&states, |s: &UserSessionState| {
        s.remote_address.is_some()
    });
    assert_eq!(
        closed,
        vec![SharedSessionHandle { inner: 1 }, SharedSessionHandle { inner: 3 }]
    );
    assert!(state.close_local_sessions(&states, |_| false).is_empty());
}

#[test]
fn closing_passes_over_what_is_not_registered() {
    let mut state = State::new(NodeId(1), None, None);
    let id = UserSessionId(9);
    state.adopt_user_session(id, Protocol::Http, 3);
    let removed = register(&mut state, 5);
    let sessions = [session(3, None), session(4, None), session(5, None)];
    let states: Vec<&UserSessionState> = sessions.iter().collect();
    let closed = |state: &State| -> Vec<u64> {
        let handles = state.close_local_sessions(&states, |_| true);
        handles.iter().map(|handle| handle.inner).collect()
    };
    assert_eq!(closed(&state), [3, 5]);
    // A newer state object for the same session displaces the older one.
    state.adopt_user_session(id, Protocol::Http, 4);
    assert!(!state.is_local(&sessions[0]));
    assert!(state.is_local(&sessions[1]));
    assert_eq!(closed(&state), [4, 5]);
    state.remove_session(removed.id);
    assert_eq!(closed(&state), [4]);
}

#[test]
fn a_handle_closes_unless_it_is_gone_or_its_lock_broke() {
    let handle = SharedSessionHandle::new(8);
    assert_eq!(handle.close(HandleLock::Locked), CloseEffect::Close(8));
    assert_eq!(handle.close(HandleLock::Poisoned), CloseEffect::ReportLockFailure);
    let weak = handle.downgrade();
    assert_eq!(weak.close(None), CloseEffect::Nothing);
    assert_eq!(weak.close(Some(HandleLock::Locked)), CloseEffect::Close(8));
    assert_eq!(weak.close(Some(HandleLock::Poisoned)), CloseEffect::ReportLockFailure);
    assert_eq!(session(8, None).emit_change(), StateEffect::NotifyChange);
}

#[test]
fn a_grant_is_watched_once() {
    let grant = |ticket_id: u128| AccessGrant::Ticket { ticket_id, user_id: 1, target_id: 7 };
    let mut state = session(5, None);
    assert!(state.begin_access_watch(grant(40)));
    assert!(state.begin_access_watch(grant(41)));
    assert!(!state.begin_access_watch(grant(40)));
    assert_eq!(state.access_watches, [grant(40), grant(41)]);
    assert_eq!(state.handle, SharedSessionHandle::new(5));
}
