//! The user sessions of one gateway node: which are registered, who owns them,
//! and what ending one calls for.
use std::collections::HashMap;

use vstd::prelude::*;

use crate::access_watch::{
    default_timing, opt_text, timing, AccessGrant, AccessWatchSettings,
};
use crate::model::{
    AuthStateUserInfo, Duration, NodeId, Protocol, Target, Timestamp, UserSessionId, WarpgateError,
};

verus! {

broadcast use vstd::std_specs::hash::group_hash_axioms;

/// The bits of an identifier that mark it as a random one.
pub open spec fn is_random_id(id: u128) -> bool {
    &&& (id as int / 0x1000_0000_0000_0000_0000) % 16 == 4
    &&& (id as int / 0x4000_0000_0000_0000) % 4 == 2
}

/// `uuid::Uuid::new_v4`, as a number: a random identifier, of which nothing is
/// said but the bits that mark it as one.
#[verifier::external_body]
fn new_random_id() -> (id: u128)
    ensures
        is_random_id(id),
{
    uuid::Uuid::new_v4().as_u128()
}

/// A session's close handle, by the number under which it is kept.
#[derive(Clone, Copy, Debug, PartialEq, Eq, Structural)]
pub struct SharedSessionHandle {
    pub inner: u64,
}

/// A close handle that does not keep the session's handle alive by itself.
#[derive(Clone, Copy, Debug, PartialEq, Eq, Structural)]
pub struct WeakSessionHandle {
    pub inner: u64,
}

/// What locking a session's handle gave.
#[derive(Clone, Copy, Debug, PartialEq, Eq, Structural)]
pub enum HandleLock {
    Locked,
    /// A holder of the lock panicked.
    Poisoned,
}

/// What closing a session through its handle comes to.
#[derive(Clone, Copy, Debug, PartialEq, Eq, Structural)]
pub enum CloseEffect {
    /// The numbered handle is told to close.
    Close(u64),
    /// The handle could not be locked, which is reported.
    ReportLockFailure,
    /// There is nothing left to close.
    Nothing,
}

impl SharedSessionHandle {
    /// The effect of closing the session, for what locking its handle gave.
    pub open spec fn close_effect(self, lock: HandleLock) -> CloseEffect {
        match lock {
            HandleLock::Locked => CloseEffect::Close(self.inner),
            HandleLock::Poisoned => CloseEffect::ReportLockFailure,
        }
    }

    /// Shares the numbered handle.
    pub fn new(handle: u64) -> (shared: SharedSessionHandle)
        ensures
            shared.inner == handle,
    {
        SharedSessionHandle { inner: handle }
    }

    /// Closes the session.
    pub fn close(&self, lock: HandleLock) -> (effect: CloseEffect)
        ensures
            effect == self.close_effect(lock),
    {
        match lock {
            HandleLock::Locked => CloseEffect::Close(self.inner),
            HandleLock::Poisoned => CloseEffect::ReportLockFailure,
        }
    }

    /// A view of the handle for a task that must not keep it alive.
    pub fn downgrade(&self) -> (weak: WeakSessionHandle)
        ensures
            weak.inner == self.inner,
    {
        WeakSessionHandle { inner: self.inner }
    }
}

impl WeakSessionHandle {
    /// Closes the session if its handle still exists. `upgraded` is what
    /// locking the handle gave, and `None` if the handle is gone, which is no
    /// error.
    pub fn close(&self, upgraded: Option<HandleLock>) -> (effect: CloseEffect)
        ensures
            match upgraded {
                None => effect == CloseEffect::Nothing,
                Some(lock) => effect == (SharedSessionHandle { inner: self.inner }).close_effect(
                    lock,
                ),
            },
    {
        match upgraded {
            None => CloseEffect::Nothing,
            Some(lock) => SharedSessionHandle { inner: self.inner }.close(lock),
        }
    }
}

/// What the node knows of one user session.
#[derive(Debug)]
pub struct UserSessionState {
    pub remote_address: Option<String>,
    pub user_info: Option<AuthStateUserInfo>,
    pub handle: SharedSessionHandle,
    /// The target that the session's streams are limited against.
    pub target: Option<Target>,
    /// The grants that a watcher is running for.
    pub access_watches: Vec<AccessGrant>,
}

/// What a user session starts from.
#[derive(Debug)]
pub struct UserSessionStateInit {
    pub remote_address: Option<String>,
    pub handle: u64,
}

impl UserSessionState {
    /// A session of which only the connection is known.
    pub fn new(init: UserSessionStateInit) -> (state: UserSessionState)
        ensures
            state.remote_address == init.remote_address,
            state.user_info is None,
            state.handle.inner == init.handle,
            state.target is None,
            state.access_watches@.len() == 0,
    {
        UserSessionState {
            remote_address: init.remote_address,
            user_info: None,
            handle: SharedSessionHandle::new(init.handle),
            target: None,
            access_watches: Vec::new(),
        }
    }

    /// Everything but the watches is as in `other`.
    pub open spec fn same_but_watches(self, other: UserSessionState) -> bool {
        &&& self.remote_address == other.remote_address
        &&& self.user_info == other.user_info
        &&& self.handle == other.handle
        &&& self.target == other.target
    }

    /// Whether a watcher has to be started for this grant, which is noted: at
    /// most one runs per grant.
    pub fn begin_access_watch(&mut self, grant: AccessGrant) -> (starts: bool)
        ensures
            starts == !old(self).access_watches@.contains(grant),
            final(self).access_watches@ == if starts {
                old(self).access_watches@.push(grant)
            } else {
                old(self).access_watches@
            },
            old(self).access_watches@.no_duplicates()
                ==> final(self).access_watches@.no_duplicates(),
            final(self).same_but_watches(*old(self)),
    {
        let mut i: usize = 0;
        while i < self.access_watches.len()
            invariant
                *self == *old(self),
                i <= self.access_watches@.len(),
                forall|k: int| 0 <= k < i ==> self.access_watches@[k] != grant,
            decreases self.access_watches@.len() - i,
        {
            if self.access_watches[i] == grant {
                return false;
            }
            i += 1;
        }
        self.access_watches.push(grant);
        true
    }

    /// Announces that the session changed.
    pub fn emit_change(&self) -> (effect: StateEffect)
        ensures
            effect is NotifyChange,
    {
        StateEffect::NotifyChange
    }
}

/// What a change of the node's sessions calls for outside of it. A step that
/// fails is reported, and the next one is taken all the same.
#[derive(Clone, Copy, Debug, PartialEq, Eq, Structural)]
pub enum StateEffect {
    /// Delete the stored target sessions of a user session.
    DeleteTargetSessions(UserSessionId),
    /// Delete the stored user session.
    DeleteUserSession(UserSessionId),
    /// Mark the stored user session and its target sessions as ended.
    MarkEnded(UserSessionId),
    /// Close the approval requests of a user session.
    AbandonApprovals(UserSessionId),
    /// Tell the subscribers that the sessions changed.
    NotifyChange,
}

/// A user session as it is stored when it is registered.
#[derive(Debug)]
pub struct UserSessionRow {
    pub id: UserSessionId,
    pub started: Timestamp,
    pub remote_address: String,
    pub protocol: Protocol,
    /// The node that keeps the session alive, if it is bound to one.
    pub node_id: Option<NodeId>,
}

/// A session that is registered once its row is stored.
#[derive(Debug)]
pub struct PendingSession {
    pub row: UserSessionRow,
    /// The number of the session's state object on this node.
    pub instance: u64,
    pub node_owned: bool,
}

/// What the handle of a registered session is made from.
#[derive(Clone, Copy, Debug, PartialEq, Eq, Structural)]
pub struct Registration {
    pub id: UserSessionId,
    /// The number of the session's state object on this node.
    pub instance: u64,
    pub protocol: Protocol,
    pub node_owned: bool,
    pub node_id: NodeId,
    pub access_watch: AccessWatchSettings,
    /// How often the watchers had been nudged by then.
    pub nudges: u64,
    /// What the registration calls for outside: the subscribers are told.
    pub effect: StateEffect,
}

/// The sessions once the state object `instance` of session `id` is taken out,
/// unless a newer one has taken its place.
pub open spec fn detached(sessions: Map<u128, u64>, id: u128, instance: u64) -> Map<u128, u64> {
    if sessions.contains_key(id) && sessions[id] == instance {
        sessions.remove(id)
    } else {
        sessions
    }
}

/// The sessions of one node. The state object of a session is told from
/// another one for the same session by its number.
#[derive(Debug)]
pub struct State {
    pub user_sessions: HashMap<u128, u64>,
    pub node_id: NodeId,
    pub access_watch_nudges: u64,
    pub access_watch: AccessWatchSettings,
}

impl State {
    /// What the handle of session `id` is made from in this state.
    pub open spec fn registration(
        self,
        id: UserSessionId,
        instance: u64,
        protocol: Protocol,
        node_owned: bool,
    ) -> Registration {
        Registration {
            id,
            instance,
            protocol,
            node_owned,
            node_id: self.node_id,
            access_watch: self.access_watch,
            nudges: self.access_watch_nudges,
            effect: StateEffect::NotifyChange,
        }
    }

    /// Everything but the registered sessions is as in `other`.
    pub open spec fn same_settings(self, other: State) -> bool {
        &&& self.node_id == other.node_id
        &&& self.access_watch_nudges == other.access_watch_nudges
        &&& self.access_watch == other.access_watch
    }

    /// A node without sessions, with the timing that the two environment
    /// variables ask for.
    pub fn new(node_id: NodeId, interval_override: Option<&str>, under_test: Option<&str>) -> (state:
        State)
        ensures
            state.user_sessions@ == Map::<u128, u64>::empty(),
            state.node_id == node_id,
            state.access_watch_nudges == 0,
            (state.access_watch.interval, state.access_watch.unconfirmed_limit) == timing(
                opt_text(interval_override),
                opt_text(under_test),
            ),
    {
        let (interval, unconfirmed_limit): (Duration, Duration) = default_timing(
            interval_override,
            under_test,
        );
        State {
            user_sessions: HashMap::new(),
            node_id,
            access_watch_nudges: 0,
            access_watch: AccessWatchSettings { interval, unconfirmed_limit },
        }
    }

    /// The count of nudges after one more.
    pub fn next_nudge(count: u64) -> (next: u64)
        ensures
            next == if count == u64::MAX {
                0
            } else {
                count + 1
            },
    {
        count.wrapping_add(1)
    }

    /// Wakes every access watcher of this node, so that it re-checks its grant
    /// now instead of on its next poll: the count that they watch changes.
    pub fn nudge_access_watchers(&mut self)
        ensures
            final(self).access_watch_nudges != old(self).access_watch_nudges,
            final(self).access_watch_nudges == if old(self).access_watch_nudges == u64::MAX {
                0
            } else {
                old(self).access_watch_nudges + 1
            },
            final(self).user_sessions == old(self).user_sessions,
            final(self).node_id == old(self).node_id,
            final(self).access_watch == old(self).access_watch,
    {
        self.access_watch_nudges = Self::next_nudge(self.access_watch_nudges);
    }

    /// Sets how eagerly watchers poll.
    pub fn set_access_watch_timing(&mut self, interval: Duration, unconfirmed_limit: Duration)
        ensures
            final(self).access_watch == (AccessWatchSettings { interval, unconfirmed_limit }),
            final(self).user_sessions == old(self).user_sessions,
            final(self).node_id == old(self).node_id,
            final(self).access_watch_nudges == old(self).access_watch_nudges,
    {
        self.access_watch = AccessWatchSettings { interval, unconfirmed_limit };
    }

    /// The row of session `id` and what it takes to register it. The row
    /// records an owner exactly if the session is bound to this node: a session
    /// that any node may serve must not end with this node, and one that only
    /// this node keeps alive must not look unbacked.
    pub fn pending_session(
        &self,
        id: UserSessionId,
        protocol: Protocol,
        node_owned: bool,
        remote_address: Option<String>,
        instance: u64,
        now: Timestamp,
    ) -> (pending: PendingSession)
        ensures
            pending.row.id == id,
            pending.row.started == now,
            pending.row.protocol == protocol,
            pending.row.node_id == if node_owned {
                Some(self.node_id)
            } else {
                None
            },
            remote_address is Some ==> pending.row.remote_address@ == remote_address->0@,
            remote_address is None ==> pending.row.remote_address@.len() == 0,
            pending.instance == instance,
            pending.node_owned == node_owned,
    {
        let remote_address: String = match remote_address {
            Some(address) => address,
            None => String::new(),
        };
        let node_id: Option<NodeId> = if node_owned {
            Some(self.node_id)
        } else {
            None
        };
        PendingSession {
            row: UserSessionRow { id, started: now, remote_address, protocol, node_id },
            instance,
            node_owned,
        }
    }

    /// Begins to register a fresh session.
    pub fn register_user_session_in(
        &self,
        protocol: Protocol,
        node_owned: bool,
        remote_address: Option<String>,
        instance: u64,
        now: Timestamp,
    ) -> (pending: PendingSession)
        ensures
            is_random_id(pending.row.id.0),
            pending.row.started == now,
            pending.row.protocol == protocol,
            pending.row.node_id == if node_owned {
                Some(self.node_id)
            } else {
                None
            },
            remote_address is Some ==> pending.row.remote_address@ == remote_address->0@,
            remote_address is None ==> pending.row.remote_address@.len() == 0,
            pending.instance == instance,
            pending.node_owned == node_owned,
    {
        let id: UserSessionId = UserSessionId(new_random_id());
        self.pending_session(id, protocol, node_owned, remote_address, instance, now)
    }

    /// Begins to register a session with no owning node, which any node may
    /// serve.
    pub fn register_nonlocal_user_session(
        &self,
        protocol: Protocol,
        remote_address: Option<String>,
        instance: u64,
        now: Timestamp,
    ) -> (pending: PendingSession)
        ensures
            is_random_id(pending.row.id.0),
            pending.row.started == now,
            pending.row.protocol == protocol,
            pending.row.node_id is None,
            remote_address is Some ==> pending.row.remote_address@ == remote_address->0@,
            remote_address is None ==> pending.row.remote_address@.len() == 0,
            pending.instance == instance,
            !pending.node_owned,
    {
        self.register_user_session_in(protocol, false, remote_address, instance, now)
    }

    /// Begins to register a session that is bound to this node.
    pub fn register_node_local_user_session(
        &self,
        protocol: Protocol,
        remote_address: Option<String>,
        instance: u64,
        now: Timestamp,
    ) -> (pending: PendingSession)
        ensures
            is_random_id(pending.row.id.0),
            pending.row.started == now,
            pending.row.protocol == protocol,
            pending.row.node_id == Some(self.node_id),
            remote_address is Some ==> pending.row.remote_address@ == remote_address->0@,
            remote_address is None ==> pending.row.remote_address@.len() == 0,
            pending.instance == instance,
            pending.node_owned,
    {
        self.register_user_session_in(protocol, true, remote_address, instance, now)
    }

    /// Ends the registration of a session, with what storing its row gave: the
    /// session is installed if the row is stored, and otherwise nothing is.
    pub fn complete_registration(
        &mut self,
        pending: PendingSession,
        stored: Result<(), WarpgateError>,
    ) -> (r: Result<Registration, WarpgateError>)
        ensures
            match stored {
                Ok(_) => {
                    &&& r == Ok::<Registration, WarpgateError>(
                        old(self).registration(
                            pending.row.id,
                            pending.instance,
                            pending.row.protocol,
                            pending.node_owned,
                        ),
                    )
                    &&& final(self).user_sessions@ == old(self).user_sessions@.insert(
                        pending.row.id.0,
                        pending.instance,
                    )
                },
                Err(error) => {
                    &&& r == Err::<Registration, WarpgateError>(error)
                    &&& final(self).user_sessions@ == old(self).user_sessions@
                },
            },
            final(self).same_settings(*old(self)),
    {
        match stored {
            Ok(_) => Ok(
                self.install_user_session(
                    pending.row.id,
                    pending.instance,
                    pending.row.protocol,
                    pending.node_owned,
                ),
            ),
            Err(error) => Err(error),
        }
    }

    /// Registers a view of this node over a session that is already stored, as
    /// another node stored it. Such a session is never bound to this node.
    pub fn adopt_user_session(&mut self, id: UserSessionId, protocol: Protocol, instance: u64) -> (r:
        Registration)
        ensures
            r == old(self).registration(id, instance, protocol, false),
            final(self).user_sessions@ == old(self).user_sessions@.insert(id.0, instance),
            final(self).same_settings(*old(self)),
    {
        self.install_user_session(id, instance, protocol, false)
    }

    /// Puts a session's state object in, in the place of an earlier one for the
    /// same session.
    pub fn install_user_session(
        &mut self,
        id: UserSessionId,
        instance: u64,
        protocol: Protocol,
        node_owned: bool,
    ) -> (r: Registration)
        ensures
            r == old(self).registration(id, instance, protocol, node_owned),
            final(self).user_sessions@ == old(self).user_sessions@.insert(id.0, instance),
            final(self).same_settings(*old(self)),
    {
        self.user_sessions.insert(id.0, instance);
        Registration {
            id,
            instance,
            protocol,
            node_owned,
            node_id: self.node_id,
            access_watch: self.access_watch,
            nudges: self.access_watch_nudges,
            effect: StateEffect::NotifyChange,
        }
    }

    /// Takes a session's state object out, unless a newer one has taken its
    /// place. Nothing is ended.
    pub fn detach_user_session(&mut self, id: UserSessionId, instance: u64)
        ensures
            final(self).user_sessions@ == detached(old(self).user_sessions@, id.0, instance),
            final(self).same_settings(*old(self)),
    {
        let current: bool = match self.user_sessions.get(&id.0) {
            Some(held) => *held == instance,
            None => false,
        };
        if current {
            self.user_sessions.remove(&id.0);
        }
    }

    /// Removes a session that never completed authentication. Its row and the
    /// target sessions that were started meanwhile are deleted, not marked as
    /// ended.
    pub fn discard_session(&mut self, id: UserSessionId) -> (effects: Vec<StateEffect>)
        ensures
            final(self).user_sessions@ == old(self).user_sessions@.remove(id.0),
            final(self).same_settings(*old(self)),
            effects@ == seq![
                StateEffect::DeleteTargetSessions(id),
                StateEffect::DeleteUserSession(id),
                StateEffect::AbandonApprovals(id),
                StateEffect::NotifyChange,
            ],
    {
        self.user_sessions.remove(&id.0);
        let mut effects: Vec<StateEffect> = Vec::new();
        effects.push(StateEffect::DeleteTargetSessions(id));
        effects.push(StateEffect::DeleteUserSession(id));
        effects.push(StateEffect::AbandonApprovals(id));
        effects.push(StateEffect::NotifyChange);
        effects
    }

    /// Ends a session. Its row is ended whether or not this node still holds
    /// its state.
    pub fn remove_session(&mut self, id: UserSessionId) -> (effects: Vec<StateEffect>)
        ensures
            final(self).user_sessions@ == old(self).user_sessions@.remove(id.0),
            final(self).same_settings(*old(self)),
            effects@ == seq![
                StateEffect::MarkEnded(id),
                StateEffect::AbandonApprovals(id),
                StateEffect::NotifyChange,
            ],
    {
        self.user_sessions.remove(&id.0);
        let mut effects: Vec<StateEffect> = Vec::new();
        effects.push(StateEffect::MarkEnded(id));
        effects.push(StateEffect::AbandonApprovals(id));
        effects.push(StateEffect::NotifyChange);
        effects
    }

    /// The state object is the one that is registered for some session, and has
    /// not been taken out or displaced since.
    pub open spec fn registers(self, state: UserSessionState) -> bool {
        exists|id: u128| #[trigger]
            self.user_sessions@.contains_key(id) && self.user_sessions@[id] == state.handle.inner
    }

    /// Whether the state object is registered on this node.
    pub fn is_local(&self, state: &UserSessionState) -> (r: bool)
        ensures
            r == self.registers(*state),
    {
        let instance: u64 = state.handle.inner;
        let ghost held = self.user_sessions@;
        for value in iter: self.user_sessions.values()
            invariant
                held == self.user_sessions@,
                instance == state.handle.inner,
                iter.seq().unref().to_set() == held.values(),
                forall|k: int|
                    0 <= k < iter.index() ==> #[trigger] iter.seq().unref()[k] != instance,
        {
            if *value == instance {
                assert(iter.seq().unref()[iter.index()] == instance);
                assert(held.values().contains(instance));
                return true;
            }
        }
        assert(!held.values().contains(instance));
        assert(!self.registers(*state)) by {
            if self.registers(*state) {
                let id = choose|id: u128| #[trigger] held.contains_key(id) && held[id] == instance;
                assert(held.contains_value(instance));
            }
        }
        false
    }

    /// The handles to close, out of the session states on this node: those of
    /// the registered sessions that match, and no other. Only a registered one
    /// is asked about.
    pub fn close_local_sessions<F: Fn(&UserSessionState) -> bool>(
        &self,
        states: &Vec<&UserSessionState>,
        matches: F,
    ) -> (closed: Vec<SharedSessionHandle>)
        requires
            forall|i: int|
                0 <= i < states@.len() && self.registers(*#[trigger] states@[i]) ==> call_requires(
                    matches,
                    (states@[i],),
                ),
        ensures
            exists|verdicts: Seq<bool>|
                #![trigger matching_handles(states@, verdicts)]
                verdicts.len() == states@.len() && (forall|i: int|
                    0 <= i < states@.len() ==> self.decides(
                        *states@[i],
                        matches,
                        #[trigger] verdicts[i],
                    )) && closed@ == matching_handles(states@, verdicts),
    {
        let mut closed: Vec<SharedSessionHandle> = Vec::new();
        let ghost mut verdicts: Seq<bool> = Seq::empty();
        let mut i: usize = 0;
        assert(closed@ =~= matching_handles(states@.take(0), verdicts));
        while i < states.len()
            invariant
                i <= states.len(),
                forall|j: int|
                    0 <= j < states@.len() && self.registers(*#[trigger] states@[j])
                        ==> call_requires(matches, (states@[j],)),
                verdicts.len() == i,
                forall|j: int|
                    0 <= j < i ==> self.decides(*states@[j], matches, #[trigger] verdicts[j]),
                closed@ == matching_handles(states@.take(i as int), verdicts),
            decreases states.len() - i,
        {
            let verdict: bool = self.is_local(states[i]) && matches(states[i]);
            let ghost before = verdicts;
            proof {
                verdicts = verdicts.push(verdict);
            }
            assert(verdicts.drop_last() == before);
            assert(states@.take(i + 1).drop_last() == states@.take(i as int));
            assert(states@.take(i + 1).last() == states@[i as int]);
            if verdict {
                closed.push(states[i].handle);
            }
            i += 1;
        }
        assert(states@.take(states.len() as int) == states@);
        closed
    }

    /// Whether a session state is closed by a condition: a registered one as
    /// the condition says, and another one never.
    pub open spec fn decides<F: Fn(&UserSessionState) -> bool>(
        self,
        state: UserSessionState,
        matches: F,
        verdict: bool,
    ) -> bool {
        if self.registers(state) {
            call_ensures(matches, (&state,), verdict)
        } else {
            !verdict
        }
    }
}

/// The handles of the states with a positive verdict, in order.
pub open spec fn matching_handles(states: Seq<&UserSessionState>, verdicts: Seq<bool>) -> Seq<
    SharedSessionHandle,
>
    decreases states.len(),
{
    if states.len() == 0 {
        Seq::empty()
    } else if verdicts.last() {
        matching_handles(states.drop_last(), verdicts.drop_last()).push(states.last().handle)
    } else {
        matching_handles(states.drop_last(), verdicts.drop_last())
    }
}

/// A handle that is dropped late takes out nothing but its own state object: a
/// newer one for the same session stays.
pub proof fn law_a_stale_handle_leaves_the_newer_session(
    sessions: Map<u128, u64>,
    id: u128,
    stale: u64,
    newer: u64,
)
    requires
        stale != newer,
    ensures
        detached(sessions.insert(id, newer), id, stale) == sessions.insert(id, newer),
{
}

/// Detaching the state object that was installed undoes the installation of a
/// session that was not there before, and touches no other session.
pub proof fn law_detaching_undoes_installing(sessions: Map<u128, u64>, id: u128, instance: u64)
    requires
        !sessions.contains_key(id),
    ensures
        detached(sessions.insert(id, instance), id, instance) == sessions,
{
    assert(sessions.insert(id, instance).remove(id) =~= sessions);
}

/// Closing by a condition reaches every session that meets it.
pub proof fn law_every_matching_session_is_closed(
    states: Seq<&UserSessionState>,
    verdicts: Seq<bool>,
    i: int,
)
    requires
        verdicts.len() == states.len(),
        0 <= i < states.len(),
        verdicts[i],
    ensures
        matching_handles(states, verdicts).contains(states[i].handle),
    decreases states.len(),
{
    let closed = matching_handles(states, verdicts);
    let init = matching_handles(states.drop_last(), verdicts.drop_last());
    if i == states.len() - 1 {
        assert(closed[init.len() as int] == states[i].handle);
    } else {
        law_every_matching_session_is_closed(states.drop_last(), verdicts.drop_last(), i);
        let k = choose|k: int| 0 <= k < init.len() && init[k] == states[i].handle;
        assert(closed[k] == states[i].handle);
    }
}

/// Closing by a condition touches no session that does not meet it.
pub proof fn law_only_matching_sessions_are_closed(
    states: Seq<&UserSessionState>,
    verdicts: Seq<bool>,
    k: int,
)
    requires
        verdicts.len() == states.len(),
        0 <= k < matching_handles(states, verdicts).len(),
    ensures
        exists|i: int|
            0 <= i < states.len() && verdicts[i] && #[trigger] states[i].handle == matching_handles(
                states,
                verdicts,
            )[k],
    decreases states.len(),
{
    let closed = matching_handles(states, verdicts);
    let init = matching_handles(states.drop_last(), verdicts.drop_last());
    let last = states.len() - 1;
    if verdicts.last() && k == init.len() {
        assert(verdicts[last] && states[last].handle == closed[k]);
    } else {
        law_only_matching_sessions_are_closed(states.drop_last(), verdicts.drop_last(), k);
        let i = choose|i: int|
            0 <= i < states.drop_last().len() && verdicts.drop_last()[i]
                && #[trigger] states.drop_last()[i].handle == init[k];
        assert(verdicts[i] && states[i].handle == closed[k]);
    }
}

} // verus!
