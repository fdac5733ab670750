use std::collections::HashSet;

use warpgate::config_providers::{
    authorize_for_target, authorize_for_target_by_name, has_active_self_service_ticket, AuthResult,
    AuthState, AuthorizedIdentity, ByName, CredentialKind, TargetAuthorization,
};
use warpgate::model::{
    AuthStateUserInfo, IpAddr, Protocol, Target, TargetHTTPOptions, TargetOptions,
    TargetSSHOptions, Ticket, Timestamp, WarpgateError,
};
use warpgate::tickets::{
    authorize_active_self_service_ticket, authorize_and_spend_ticket,
    grant_active_self_service_ticket, validate_ticket, GrantAction, TicketAction, TicketCheck,
    TicketEvent, TicketGrant, TicketLoginAction, TicketLoginEvent, ValidatedTicket,
};

const NOW: Timestamp = Timestamp { nanos: 1_000_000_000_000 };
const PAST: Timestamp = Timestamp { nanos: 1_000_000_000_000 - 60_000_000_000 };
const USER: u128 = 0x0123_4567_89ab_cdef_0123_4567_89ab_cdef;
const TARGET: u128 = 77;

fn alice() -> AuthStateUserInfo {
    AuthStateUserInfo { id: USER, username: "alice".to_owned() }
}

fn http_target() -> Target {
    Target {
        id: TARGET,
        name: "web".to_owned(),
        options: TargetOptions::Http(TargetHTTPOptions { url: "http://target".to_owned() }),
        require_approval: false,
    }
}

/// Tickets and their target as a database keeps them, one use spent at a time.
struct Store {
    require_approval: bool,
    tickets: Vec<Ticket>,
}

impl Store {
    fn new() -> Store {
        Store { require_approval: false, tickets: vec![] }
    }

    /// A store whose target has to be approved by an administrator.
    fn gated() -> Store {
        Store { require_approval: true, tickets: vec![] }
    }

    fn insert(
        &mut self,
        self_service: bool,
        uses_left: Option<i16>,
        expiry: Option<Timestamp>,
    ) -> u128 {
        let id = 1000 + self.tickets.len() as u128;
        self.tickets.push(Ticket {
            id,
            user_id: USER,
            target_id: TARGET,
            uses_left,
            self_service,
            expiry,
        });
        id
    }

    fn spend_use(&mut self, id: u128) -> Result<(), WarpgateError> {
        for ticket in self.tickets.iter_mut() {
            if ticket.id == id {
                match ticket.uses_left {
                    None => return Ok(()),
                    Some(left) if left > 0 => {
                        ticket.uses_left = Some(left - 1);
                        return Ok(());
                    }
                    Some(_) => return Err(WarpgateError::InvalidTicket(id)),
                }
            }
        }
        Err(WarpgateError::InvalidTicket(id))
    }

    fn uses_left(&self, id: u128) -> Option<i16> {
        self.tickets.iter().find(|t| t.id == id).unwrap().uses_left
    }
}

fn finish_grant(
    store: &mut Store,
    mut grant: TicketGrant,
    mut action: GrantAction,
) -> Result<Option<u128>, WarpgateError> {
    loop {
        match action {
            GrantAction::Done(r) => return r,
            GrantAction::Spend(id) => {
                let spent = store.spend_use(id);
                (grant, action) = grant.on_spent(spent);
            }
        }
    }
}

fn authorize(
    target: Target,
    ticket: Result<Option<u128>, WarpgateError>,
) -> Result<Option<TargetAuthorization<TargetOptions>>, WarpgateError> {
    let identity = AuthorizedIdentity::for_authenticated_session(alice(), Protocol::Kubernetes);
    authorize_active_self_service_ticket(identity, target, ticket)
}

fn grant_for_user(store: &mut Store) -> Option<TargetAuthorization<TargetOptions>> {
    let (grant, action) = grant_active_self_service_ticket(&store.tickets, USER, TARGET, NOW);
    let ticket = finish_grant(store, grant, action);
    authorize(http_target(), ticket).unwrap()
}

fn answer(store: &Store, id: u128, action: TicketAction) -> TicketEvent {
    match action {
        TicketAction::FindTicket(secret) => {
            assert_eq!(secret, "t1cket");
            let found = store.tickets.iter().find(|t| t.id == id).copied();
            TicketEvent::Ticket(Ok(found), NOW)
        }
        TicketAction::FindUser(user) => {
            assert_eq!(user, USER);
            TicketEvent::User(Ok(Some(alice())))
        }
        TicketAction::VetBearer(user, ip) => {
            assert_eq!((user, ip), (USER, None));
            TicketEvent::Vetted(Ok(true))
        }
        TicketAction::FindTarget(target) => {
            assert_eq!(target, TARGET);
            let require_approval = store.require_approval;
            TicketEvent::Target(Ok(Some(Target { require_approval, ..http_target() })))
        }
        _ => panic!("no other question is asked"),
    }
}

fn validate(store: &Store, id: u128, protocol: Protocol) -> Option<ValidatedTicket> {
    let (mut check, mut action) = validate_ticket("t1cket".to_owned(), None, protocol);
    loop {
        let event = match action {
            TicketAction::Done(r) => return r.unwrap(),
            action => answer(store, id, action),
        };
        (check, action) = check.step(event);
    }
}

fn authorize_and_spend(store: &mut Store, id: u128) -> Option<TargetAuthorization<TargetOptions>> {
    let (mut login, mut action) =
        authorize_and_spend_ticket("t1cket".to_owned(), None, Protocol::Http);
    loop {
        let event = match action {
            TicketLoginAction::Check(action) => TicketLoginEvent::Check(answer(store, id, action)),
            TicketLoginAction::Spend(ticket) => TicketLoginEvent::Spent(store.spend_use(ticket)),
            TicketLoginAction::Done(r) => return r.unwrap(),
            TicketLoginAction::Unexpected => panic!("every question was answered"),
        };
        (login, action) = login.step(event);
    }
}

#[test]
fn specific_narrows_only_matching_kind_and_protocol() {
    let authorization = |protocol: Protocol| {
        let identity = AuthorizedIdentity::for_authenticated_session(alice(), protocol);
        authorize_for_target(&identity, http_target(), Ok(true))
            .unwrap()
            .unwrap()
    };

    let narrowed = authorization(Protocol::Http).narrow::<TargetHTTPOptions>();
    assert!(narrowed.is_ok_and(|a| a.options().url == "http://target"));

    let wrong_kind = authorization(Protocol::Http).narrow::<TargetSSHOptions>();
    assert!(wrong_kind.is_err());

    let wrong_protocol = authorization(Protocol::Ssh).narrow::<TargetHTTPOptions>();
    assert!(wrong_protocol.is_err());
}

#[test]
fn a_gated_targets_ticket_spends_at_authorization() {
    let mut store = Store::gated();
    let used_up = store.insert(false, Some(0), None);
    assert!(authorize_and_spend(&mut store, used_up).is_none());

    let mut store = Store::gated();
    let ticket_id = store.insert(false, Some(1), None);
    let authorization = authorize_and_spend(&mut store, ticket_id).unwrap();
    assert!(authorization.target().require_approval);
    assert_eq!(store.uses_left(ticket_id), Some(0));
}

#[test]
fn a_ticket_spend_is_atomic_with_its_authorization() {
    let mut store = Store::new();
    let ticket_id = store.insert(false, Some(1), None);

    let first = validate(&store, ticket_id, Protocol::Http).unwrap();
    let second = validate(&store, ticket_id, Protocol::Http).unwrap();
    let first = first.spend(store.spend_use(ticket_id));
    let second = second.spend(store.spend_use(ticket_id));
    let authorizations: Vec<_> = [first.unwrap(), second.unwrap()]
        .into_iter()
        .flatten()
        .collect();
    assert_eq!(authorizations.len(), 1);
    // The ticket travels with the authorization so the target session it
    // opens can record which ticket opened it.
    assert!(authorizations
        .iter()
        .all(|a| a.target().id == TARGET && a.ticket_id() == Some(ticket_id)));

    assert!(authorize_and_spend(&mut store, ticket_id).is_none());
    assert_eq!(store.uses_left(ticket_id), Some(0));
}

#[test]
fn unlimited_grant_leaves_uses_left_untouched() {
    let mut store = Store::new();
    let ticket_id = store.insert(true, None, None);
    for _ in 0..3 {
        let authorization = grant_for_user(&mut store).expect("unlimited ticket should grant");
        assert_eq!(authorization.ticket_id(), Some(ticket_id));
    }
    assert_eq!(store.uses_left(ticket_id), None);
}

#[test]
fn bounded_grant_spends_one_then_denies_at_zero() {
    let mut store = Store::new();
    let ticket_id = store.insert(true, Some(1), None);
    let authorization =
        grant_for_user(&mut store).expect("a fresh bounded ticket should grant once");
    assert_eq!(authorization.ticket_id(), Some(ticket_id));
    assert_eq!(store.uses_left(ticket_id), Some(0));

    // The use is gone: a second, separately-opened correlated session
    // finds nothing to grant it.
    assert!(grant_for_user(&mut store).is_none());
}

#[test]
fn admin_ticket_never_grants() {
    let mut store = Store::new();
    store.insert(false, None, None);
    assert!(grant_for_user(&mut store).is_none());
}

#[test]
fn expired_self_service_ticket_never_grants() {
    let mut store = Store::new();
    store.insert(true, None, Some(PAST));
    assert!(grant_for_user(&mut store).is_none());
}

#[test]
fn grant_falls_through_to_next_ticket_when_a_race_is_lost() {
    let mut store = Store::new();
    let first_id = store.insert(true, Some(1), None);
    let second_id = store.insert(true, Some(1), None);

    // Both list the tickets before either spends one.
    let (first, first_action) =
        grant_active_self_service_ticket(&store.tickets, USER, TARGET, NOW);
    let (second, second_action) =
        grant_active_self_service_ticket(&store.tickets, USER, TARGET, NOW);
    let first = finish_grant(&mut store, first, first_action);
    let second = finish_grant(&mut store, second, second_action);
    let granted: HashSet<u128> = [first, second]
        .into_iter()
        .map(|ticket| {
            authorize(http_target(), ticket)
                .unwrap()
                .unwrap()
                .ticket_id()
                .expect("grant carries a ticket id")
        })
        .collect();
    // Both requests found a ticket to spend rather than one losing the
    // race outright, and each spent a distinct ticket.
    assert_eq!(granted, HashSet::from([first_id, second_id]));
    for ticket_id in [first_id, second_id] {
        assert_eq!(store.uses_left(ticket_id), Some(0));
    }
}

#[test]
fn grant_prefers_unlimited_ticket_and_leaves_bounded_one_untouched() {
    let mut store = Store::new();
    let unlimited_id = store.insert(true, None, None);
    let bounded_id = store.insert(true, Some(1), None);
    let authorization = grant_for_user(&mut store).expect("an eligible ticket should grant");
    assert_eq!(authorization.ticket_id(), Some(unlimited_id));
    assert_eq!(store.uses_left(bounded_id), Some(1));
}

#[test]
fn an_unlimited_ticket_is_preferred_wherever_it_stands() {
    let mut store = Store::new();
    let bounded_id = store.insert(true, Some(1), None);
    let unlimited_id = store.insert(true, None, None);
    let authorization = grant_for_user(&mut store).unwrap();
    assert_eq!(authorization.ticket_id(), Some(unlimited_id));
    assert_eq!(store.uses_left(bounded_id), Some(1));
}

#[test]
fn recheck_ignores_uses_left_but_respects_self_service_and_expiry() {
    let active = |store: &Store, id: u128| {
        has_active_self_service_ticket(&store.tickets, id, USER, TARGET, NOW)
    };
    let mut store = Store::new();
    let ticket_id = store.insert(true, Some(1), None);

    // Spend the only use, exactly as the opening request of a correlated
    // session would.
    let authorization = grant_for_user(&mut store).expect("a fresh bounded ticket should grant");
    assert_eq!(authorization.ticket_id(), Some(ticket_id));
    // Every later request in that same session re-checks the grant; it
    // must still see it as active although uses_left is now 0.
    assert!(active(&store, ticket_id));

    let mut store = Store::new();
    let admin_ticket_id = store.insert(false, None, None);
    assert!(!active(&store, admin_ticket_id));

    let mut store = Store::new();
    let expired_ticket_id = store.insert(true, None, Some(PAST));
    assert!(!active(&store, expired_ticket_id));
}

#[test]
fn recheck_targets_the_granting_ticket_not_a_sibling() {
    let mut store = Store::new();
    let granting_id = store.insert(true, Some(1), None);
    let sibling_id = store.insert(true, Some(1), None);
    store.spend_use(sibling_id).unwrap();
    store.tickets.retain(|t| t.id != granting_id);
    assert!(!has_active_self_service_ticket(
        &store.tickets,
        granting_id,
        USER,
        TARGET,
        NOW
    ));
}

#[test]
fn identity_minted_only_from_accepted_state() {
    let auth_state = |satisfied: bool| AuthState {
        protocol: Protocol::Kubernetes,
        result: if satisfied {
            AuthResult::Accepted { user_info: alice() }
        } else {
            AuthResult::Need(vec![CredentialKind::Password])
        },
    };

    // Accepted: an identity carrying the state's protocol and user.
    let accepted = AuthorizedIdentity::from_auth_state(&auth_state(true))
        .expect("an accepted state yields an identity");
    assert_eq!(accepted.protocol(), Protocol::Kubernetes);
    assert_eq!(accepted.user_info().username, "alice");

    // An unsatisfied policy yields no identity, so `authorize_for_target`
    // can't be reached from a state that never passed the policy.
    assert!(AuthorizedIdentity::from_auth_state(&auth_state(false)).is_none());
}

#[test]
fn a_missing_target_and_an_unreachable_one_look_alike() {
    let identity = AuthorizedIdentity::for_authenticated_session(alice(), Protocol::Http);
    assert!(matches!(
        authorize_for_target_by_name(Ok(None)),
        ByName::Done(Ok(None))
    ));
    match authorize_for_target_by_name(Ok(Some(http_target()))) {
        ByName::AskRole(target) => {
            assert!(authorize_for_target(&identity, target, Ok(false))
                .unwrap()
                .is_none())
        }
        ByName::Done(_) => panic!("a found target is asked about"),
    }
    let failed = authorize_for_target_by_name(Err(WarpgateError::Service("db".to_owned())));
    assert!(matches!(failed, ByName::Done(Err(WarpgateError::Service(_)))));
}

#[test]
fn another_failure_than_a_used_up_ticket_ends_the_grant() {
    let mut store = Store::new();
    store.insert(true, Some(1), None);
    store.insert(true, Some(1), None);
    let (grant, action) = grant_active_self_service_ticket(&store.tickets, USER, TARGET, NOW);
    assert!(matches!(action, GrantAction::Spend(1000)));
    let (grant, action) = grant.on_spent(Err(WarpgateError::Service("db".to_owned())));
    assert!(matches!(action, GrantAction::Done(Err(WarpgateError::Service(_)))));
    // It is over: nothing is spent any more.
    let (_, action) = grant.on_spent(Ok(()));
    assert!(matches!(action, GrantAction::Done(Ok(None))));
}

fn check_from(ip: Option<IpAddr>) -> (TicketCheck, TicketAction) {
    validate_ticket("t1cket".to_owned(), ip, Protocol::Http)
}

#[test]
fn a_blocked_address_is_turned_away_ahead_of_the_lookup() {
    let ip = IpAddr::V4(0x7f00_0001);
    let (check, action) = check_from(Some(ip));
    assert!(matches!(action, TicketAction::CheckIpBlocked(asked) if asked == ip));
    let (_, action) = check.step(TicketEvent::IpBlocked(Ok(true)));
    assert!(matches!(action, TicketAction::Done(Ok(None))));

    let (check, _) = check_from(Some(ip));
    let (_, action) = check.step(TicketEvent::IpBlocked(Ok(false)));
    assert!(matches!(action, TicketAction::FindTicket(secret) if secret == "t1cket"));

    let (check, _) = check_from(Some(ip));
    let (_, action) =
        check.step(TicketEvent::IpBlocked(Err(WarpgateError::Service("db".to_owned()))));
    assert!(matches!(action, TicketAction::Done(Err(WarpgateError::Service(_)))));
}

fn stored(expiry: Option<Timestamp>) -> Ticket {
    Ticket {
        id: 5,
        user_id: USER,
        target_id: TARGET,
        uses_left: Some(1),
        self_service: false,
        expiry,
    }
}

#[test]
fn an_unknown_or_expired_ticket_is_refused() {
    let (check, _) = check_from(None);
    let (_, action) = check.step(TicketEvent::Ticket(Ok(None), NOW));
    assert!(matches!(action, TicketAction::Done(Ok(None))));

    let (check, _) = check_from(None);
    let (_, action) = check.step(TicketEvent::Ticket(Ok(Some(stored(Some(PAST)))), NOW));
    assert!(matches!(action, TicketAction::Done(Ok(None))));

    // A ticket is good up to and including its expiry.
    let (check, _) = check_from(None);
    let (_, action) = check.step(TicketEvent::Ticket(Ok(Some(stored(Some(NOW)))), NOW));
    assert!(matches!(action, TicketAction::FindUser(USER)));
}

#[test]
fn a_ticket_without_its_user_names_the_missing_user() {
    let (check, _) = check_from(None);
    let (check, _) = check.step(TicketEvent::Ticket(Ok(Some(stored(None))), NOW));
    let (_, action) = check.step(TicketEvent::User(Ok(None)));
    match action {
        TicketAction::Done(Err(WarpgateError::UserNotFound(id))) => {
            assert_eq!(id, "01234567-89ab-cdef-0123-456789abcdef")
        }
        _ => panic!("the user is missing"),
    }
}

#[test]
fn a_ticket_for_another_protocol_or_a_denied_user_is_refused() {
    let mut store = Store::new();
    let id = store.insert(false, Some(1), None);
    assert!(validate(&store, id, Protocol::Ssh).is_none());
    let valid = validate(&store, id, Protocol::Http).unwrap();
    assert_eq!(valid.id(), id);
    assert_eq!(valid.user_info().username, "alice");
    assert_eq!(valid.target().name, "web");

    let (check, _) = check_from(None);
    let (check, _) = check.step(TicketEvent::Ticket(Ok(Some(stored(None))), NOW));
    let (check, _) = check.step(TicketEvent::User(Ok(Some(alice()))));
    let (_, action) = check.step(TicketEvent::Vetted(Ok(false)));
    assert!(matches!(action, TicketAction::Done(Ok(None))));
}

#[test]
fn an_answer_that_was_not_asked_for_changes_nothing() {
    let (check, _) = check_from(None);
    let (check, action) = check.step(TicketEvent::Vetted(Ok(true)));
    assert!(matches!(action, TicketAction::Unexpected));
    let (_, action) = check.step(TicketEvent::Ticket(Ok(Some(stored(None))), NOW));
    assert!(matches!(action, TicketAction::FindUser(USER)));
}

#[test]
fn a_ticket_login_spends_a_use_last() {
    let (login, action) = authorize_and_spend_ticket("t1cket".to_owned(), None, Protocol::Http);
    assert!(matches!(
        action,
        TicketLoginAction::Check(TicketAction::FindTicket(_))
    ));
    let (login, _) = login.step(TicketLoginEvent::Check(TicketEvent::Ticket(
        Ok(Some(stored(None))),
        NOW,
    )));
    let (login, _) = login.step(TicketLoginEvent::Check(TicketEvent::User(Ok(Some(alice())))));
    let (login, _) = login.step(TicketLoginEvent::Check(TicketEvent::Vetted(Ok(true))));
    let (login, action) = login.step(TicketLoginEvent::Check(TicketEvent::Target(Ok(Some(
        http_target(),
    )))));
    assert!(matches!(action, TicketLoginAction::Spend(5)));
    let (_, action) = login.step(TicketLoginEvent::Spent(Ok(())));
    match action {
        TicketLoginAction::Done(Ok(Some(authorization))) => {
            assert_eq!(authorization.ticket_id(), Some(5));
            assert_eq!(authorization.protocol(), Protocol::Http);
        }
        _ => panic!("the ticket was spent"),
    }
}

/// Five callers list the tickets before any of them spends one, and then spend
/// in turns: three uses let three of them in.
#[test]
fn racing_callers_are_granted_exactly_the_uses_there_are() {
    let mut store = Store::new();
    let first_id = store.insert(true, Some(2), None);
    let second_id = store.insert(true, Some(1), None);
    let admin_id = store.insert(false, Some(9), None);
    let expired_id = store.insert(true, Some(9), Some(PAST));

    let mut racing: Vec<(TicketGrant, GrantAction)> = (0..5)
        .map(|_| grant_active_self_service_ticket(&store.tickets, USER, TARGET, NOW))
        .collect();
    let mut granted: Vec<u128> = vec![];
    let mut refused = 0;
    while !racing.is_empty() {
        let mut next = vec![];
        for (grant, action) in racing {
            match action {
                GrantAction::Spend(id) => {
                    let spent = store.spend_use(id);
                    next.push(grant.on_spent(spent));
                }
                GrantAction::Done(ticket) => match authorize(http_target(), ticket).unwrap() {
                    Some(authorization) => {
                        assert_eq!(authorization.target().id, TARGET);
                        assert_eq!(authorization.protocol(), Protocol::Kubernetes);
                        granted.push(authorization.ticket_id().unwrap());
                    }
                    None => refused += 1,
                },
            }
        }
        racing = next;
    }
    granted.sort();
    assert_eq!(granted, [first_id, first_id, second_id]);
    assert_eq!(refused, 2);
    assert_eq!(store.uses_left(first_id), Some(0));
    assert_eq!(store.uses_left(second_id), Some(0));
    assert_eq!(store.uses_left(admin_id), Some(9));
    assert_eq!(store.uses_left(expired_id), Some(9));
}

#[test]
fn a_ticket_logs_in_as_often_as_it_has_uses() {
    let mut store = Store::new();
    let ticket_id = store.insert(false, Some(2), None);
    let outcomes: Vec<bool> = (0..4)
        .map(|_| authorize_and_spend(&mut store, ticket_id).is_some())
        .collect();
    assert_eq!(outcomes, [true, true, false, false]);
    assert_eq!(store.uses_left(ticket_id), Some(0));
}
