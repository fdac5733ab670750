use warpgate::config_providers::{
    ApprovedTarget, AuthResult, AuthState, AuthorizedIdentity, CredentialKind, TargetAuthorization,
};
use warpgate::db_auth::{
    run_db_authorization, AuthSelector, DbAuthAction, DbAuthEvent, DbAuthFailure, DbAuthorization,
    DbLogin, RememberApprovalBy, WebApprovalPrompt,
};
use warpgate::db_target::{authorize_for_target_or_ticket, TargetAction, TargetEvent};
use warpgate::model::{
    AuthStateUserInfo, IpAddr, Protocol, Target, TargetOptions, TargetPostgresOptions, Ticket,
    Timestamp, UserSessionId, WarpgateError,
};
use warpgate::tickets::{TicketAction, TicketEvent, TicketLoginAction, TicketLoginEvent};

const NOW: Timestamp = Timestamp { nanos: 5 };
const IP: IpAddr = IpAddr::V4(0x0a00_0001);

fn postgres_target() -> Target {
    Target {
        id: 7,
        name: "pg".to_owned(),
        options: TargetOptions::Postgres(TargetPostgresOptions {
            host: "localhost".to_owned(),
            port: 5432,
            username: "postgres".to_owned(),
        }),
        require_approval: false,
    }
}

fn alice() -> AuthStateUserInfo {
    AuthStateUserInfo { id: 1, username: "alice".to_owned() }
}

/// One user and one Postgres target, with the role and the ticket that a test
/// adds on top.
struct Fixture {
    role: bool,
    ticket: Option<Ticket>,
}

impl Fixture {
    fn ticket() -> Ticket {
        Ticket {
            id: 40,
            user_id: 1,
            target_id: 7,
            uses_left: Some(1),
            self_service: true,
            expiry: None,
        }
    }

    fn answer(&mut self, action: TargetAction) -> Option<TargetEvent> {
        match action {
            TargetAction::FindTarget(name) => Some(TargetEvent::Target(Ok(if name == "pg" {
                Some(postgres_target())
            } else {
                None
            }))),
            TargetAction::AskRole { user_id, target_id } => {
                assert_eq!((user_id, target_id), (1, 7));
                Some(TargetEvent::Role(Ok(self.role)))
            }
            TargetAction::ListTickets { user_id, target_id } => {
                assert_eq!((user_id, target_id), (1, 7));
                Some(TargetEvent::Tickets(Ok(self.ticket.into_iter().collect()), NOW))
            }
            TargetAction::Spend(id) => {
                let ticket = self.ticket.as_mut().unwrap();
                assert_eq!(ticket.id, id);
                ticket.uses_left = ticket.uses_left.map(|left| left - 1);
                Some(TargetEvent::Spent(Ok(())))
            }
            _ => None,
        }
    }

    fn authorize(
        &mut self,
        protocol: Protocol,
        target_name: &str,
    ) -> Option<TargetAuthorization<TargetOptions>> {
        let identity = AuthorizedIdentity::for_authenticated_session(alice(), protocol);
        let (mut attempt, mut action) =
            authorize_for_target_or_ticket(identity, target_name.to_owned());
        loop {
            if let TargetAction::Done(r) = action {
                return r.unwrap();
            }
            let event = self.answer(action).unwrap();
            (attempt, action) = attempt.step(event);
        }
    }

    fn uses_left(&self) -> Option<i16> {
        self.ticket.unwrap().uses_left
    }
}

#[test]
fn role_wins_with_no_spend() {
    let mut fixture = Fixture { role: true, ticket: Some(Fixture::ticket()) };
    let authorization = fixture
        .authorize(Protocol::Postgres, "pg")
        .expect("the role should authorize");
    assert_eq!(authorization.ticket_id(), None);
    assert_eq!(fixture.uses_left(), Some(1));
}

#[test]
fn ticket_grants_when_no_role() {
    let mut fixture = Fixture { role: false, ticket: Some(Fixture::ticket()) };
    let authorization = fixture
        .authorize(Protocol::Postgres, "pg")
        .expect("the ticket should authorize");
    assert_eq!(authorization.ticket_id(), Some(40));
    assert_eq!(fixture.uses_left(), Some(0));
}

#[test]
fn protocol_mismatch_denies_without_spending() {
    let mut fixture = Fixture { role: false, ticket: Some(Fixture::ticket()) };
    assert!(fixture.authorize(Protocol::MySql, "pg").is_none());
    assert_eq!(fixture.uses_left(), Some(1));
}

#[test]
fn missing_target_denies() {
    let mut fixture = Fixture { role: false, ticket: None };
    assert!(fixture.authorize(Protocol::Postgres, "no-such-target").is_none());
    assert!(fixture.authorize(Protocol::Postgres, "pg").is_none());
}

#[test]
fn a_role_counts_whatever_protocol_the_target_speaks() {
    let mut fixture = Fixture { role: true, ticket: None };
    let authorization = fixture.authorize(Protocol::MySql, "pg").unwrap();
    assert_eq!(authorization.protocol(), Protocol::MySql);
    assert!(authorization.narrow::<TargetPostgresOptions>().is_err());
}

/// The answers that a scripted client and its gateway give.
struct Script {
    supports_web_approval: bool,
    ip_blocked: bool,
    user_locked: bool,
    /// What the authentication says, one answer per question.
    verify: Vec<AuthResult>,
    password: Option<&'static str>,
    bypass: bool,
    approved: bool,
    role: bool,
    external_url: bool,
    shows_prompt: bool,
    completes: bool,
    /// Whether announcing the wait for an administrator uses the permit up.
    gate_takes_permit: bool,
}

impl Script {
    fn new(verify: Vec<AuthResult>) -> Script {
        Script {
            supports_web_approval: true,
            ip_blocked: false,
            user_locked: false,
            verify,
            password: Some("correct"),
            bypass: false,
            approved: true,
            role: true,
            external_url: true,
            shows_prompt: true,
            completes: true,
            gate_takes_permit: false,
        }
    }

    fn run(mut self, selector: AuthSelector) -> (Outcome, Vec<String>) {
        let login = DbLogin {
            session_id: UserSessionId(9),
            remote_ip: IP,
            protocol: Protocol::Postgres,
            supports_web_approval: self.supports_web_approval,
        };
        self.verify.reverse();
        let mut fixture = Fixture { role: self.role, ticket: None };
        let mut log: Vec<String> = vec![];
        let (mut auth, mut action): (DbAuthorization<String>, DbAuthAction<String>) =
            run_db_authorization(login, selector);
        loop {
            let event = match action {
                DbAuthAction::CheckIpBlocked(ip) => {
                    assert_eq!(ip, IP);
                    DbAuthEvent::IpBlocked(Ok(self.ip_blocked))
                }
                DbAuthAction::CheckUserLocked(username) => {
                    assert_eq!(username, "alice");
                    DbAuthEvent::UserLocked(Ok(self.user_locked))
                }
                DbAuthAction::CreateAuthState(request) => {
                    assert_eq!(request.session_id, UserSessionId(9));
                    assert_eq!(request.username, "alice");
                    assert_eq!(request.target_name, "pg");
                    assert_eq!(request.protocol, Protocol::Postgres);
                    assert_eq!(request.supported, CredentialKind::Password);
                    assert_eq!(request.remote_ip, IP);
                    assert_eq!(request.credential_type, "password");
                    DbAuthEvent::AuthStateCreated(Ok(()))
                }
                DbAuthAction::Verify => DbAuthEvent::Verified(self.verify.pop().unwrap()),
                DbAuthAction::ReadState => DbAuthEvent::State(AuthState {
                    protocol: Protocol::Postgres,
                    result: AuthResult::Accepted { user_info: alice() },
                }),
                DbAuthAction::Target(asked) => {
                    DbAuthEvent::Target(fixture.answer(asked).unwrap())
                }
                DbAuthAction::Ticket(asked) => DbAuthEvent::Ticket(answer_ticket(asked)),
                DbAuthAction::RecordFailure(info) => {
                    assert_eq!(info.remote_ip, IP);
                    assert_eq!(info.protocol, Protocol::Postgres);
                    assert_eq!(info.credential_type, "password");
                    log.push(format!("failure of {}", info.username));
                    DbAuthEvent::FailureRecorded
                }
                DbAuthAction::ReadRememberedBy => DbAuthEvent::RememberedBy(
                    RememberApprovalBy::Fingerprint("password:1".to_owned()),
                ),
                DbAuthAction::RequireAdminApproval(connection, permit) => {
                    assert_eq!(connection.remote_ip, Some(IP));
                    let by = match connection.credentials {
                        RememberApprovalBy::Nothing => "nothing".to_owned(),
                        RememberApprovalBy::Fingerprint(text) => text,
                    };
                    assert_eq!(auth.held().unwrap().target().name, "pg");
                    log.push(format!("gate by {by}"));
                    let permit = if self.gate_takes_permit { None } else { permit };
                    DbAuthEvent::AdminApproval(Ok(self.approved), permit)
                }
                DbAuthAction::SendAuthOk(_) => {
                    log.push("ok".to_owned());
                    DbAuthEvent::Sent(Ok(()))
                }
                DbAuthAction::ClearFailedAttempts(ip, username) => {
                    assert_eq!(ip, IP);
                    log.push(format!("clear {username}"));
                    DbAuthEvent::FailedAttemptsCleared
                }
                DbAuthAction::PromptPassword => {
                    DbAuthEvent::Password(Ok(self.password.map(|p| p.to_owned())))
                }
                DbAuthAction::SubmitPassword(password) => {
                    DbAuthEvent::PasswordSubmitted(Ok(password == "correct"))
                }
                DbAuthAction::TryWebApprovalBypass => {
                    DbAuthEvent::WebApprovalBypass(Ok(self.bypass))
                }
                DbAuthAction::PrepareWebApproval => {
                    DbAuthEvent::WebApproval(if self.external_url {
                        Ok(WebApprovalPrompt {
                            url: "https://gate/approve".to_owned(),
                            identification_string: "AB12".to_owned(),
                        })
                    } else {
                        Err("no external URL".to_owned())
                    })
                }
                DbAuthAction::SendWebApprovalPrompt(prompt) => {
                    log.push(format!("prompt {} {}", prompt.url, prompt.identification_string));
                    DbAuthEvent::Prompted(Ok(self.shows_prompt))
                }
                DbAuthAction::WaitForCompletion => {
                    DbAuthEvent::Completed(if self.completes {
                        AuthResult::Accepted { user_info: alice() }
                    } else {
                        AuthResult::Rejected
                    })
                }
                DbAuthAction::SendDenied => {
                    log.push("denied".to_owned());
                    DbAuthEvent::Sent(Ok(()))
                }
                DbAuthAction::Done(Ok(Some(approved))) => {
                    return (Outcome::Approved(approved), log)
                }
                DbAuthAction::Done(Ok(None)) => return (Outcome::Denied, log),
                DbAuthAction::Done(Err(DbAuthFailure::Core(_))) => {
                    return (Outcome::CoreFailure, log)
                }
                DbAuthAction::Done(Err(DbAuthFailure::Transport(error))) => {
                    return (Outcome::TransportFailure(error), log)
                }
                DbAuthAction::Unexpected => panic!("every answer was asked for"),
            };
            (auth, action) = auth.step(event);
        }
    }
}

fn answer_ticket(asked: TicketLoginAction) -> TicketLoginEvent {
    match asked {
        TicketLoginAction::Check(TicketAction::CheckIpBlocked(ip)) => {
            assert_eq!(ip, IP);
            TicketLoginEvent::Check(TicketEvent::IpBlocked(Ok(false)))
        }
        TicketLoginAction::Check(TicketAction::FindTicket(secret)) => {
            let mut ticket = Fixture::ticket();
            ticket.self_service = false;
            let found = if secret == "s3cret" { Some(ticket) } else { None };
            TicketLoginEvent::Check(TicketEvent::Ticket(Ok(found), NOW))
        }
        TicketLoginAction::Check(TicketAction::FindUser(_)) => {
            TicketLoginEvent::Check(TicketEvent::User(Ok(Some(alice()))))
        }
        TicketLoginAction::Check(TicketAction::VetBearer(_, _)) => {
            TicketLoginEvent::Check(TicketEvent::Vetted(Ok(true)))
        }
        TicketLoginAction::Check(TicketAction::FindTarget(_)) => {
            TicketLoginEvent::Check(TicketEvent::Target(Ok(Some(postgres_target()))))
        }
        TicketLoginAction::Spend(_) => TicketLoginEvent::Spent(Ok(())),
        _ => panic!("no other question is asked"),
    }
}

enum Outcome {
    Approved(ApprovedTarget<TargetOptions>),
    Denied,
    CoreFailure,
    TransportFailure(String),
}

fn user() -> AuthSelector {
    AuthSelector::User { username: "alice".to_owned(), target_name: "pg".to_owned() }
}

fn accepted() -> AuthResult {
    AuthResult::Accepted { user_info: alice() }
}

fn need(kind: CredentialKind) -> AuthResult {
    AuthResult::Need(vec![kind])
}

#[test]
fn a_password_login_is_approved_in_order() {
    let script = Script::new(vec![need(CredentialKind::Password), accepted()]);
    let (outcome, log) = script.run(user());
    assert_eq!(log, ["gate by password:1", "ok", "clear alice"]);
    match outcome {
        Outcome::Approved(approved) => {
            assert_eq!(approved.user_info().username, "alice");
            let (user, target) = approved.into_parts();
            assert_eq!((user.id, target.target.id), (1, 7));
        }
        _ => panic!("the login is approved"),
    }
}

#[test]
fn a_blocked_address_and_a_locked_user_are_denied_first() {
    let mut script = Script::new(vec![]);
    script.ip_blocked = true;
    let (outcome, log) = script.run(user());
    assert!(matches!(outcome, Outcome::Denied));
    assert_eq!(log, ["denied"]);

    let mut script = Script::new(vec![]);
    script.user_locked = true;
    let (outcome, log) = script.run(user());
    assert!(matches!(outcome, Outcome::Denied));
    assert_eq!(log, ["denied"]);
}

#[test]
fn a_wrong_password_counts_and_a_missing_one_does_not() {
    let mut script = Script::new(vec![need(CredentialKind::Password)]);
    script.password = Some("wrong");
    let (outcome, log) = script.run(user());
    assert!(matches!(outcome, Outcome::Denied));
    assert_eq!(log, ["failure of alice", "denied"]);

    let mut script = Script::new(vec![need(CredentialKind::Password)]);
    script.password = None;
    let (_, log) = script.run(user());
    assert_eq!(log, ["denied"]);

    let script = Script::new(vec![AuthResult::Rejected]);
    let (_, log) = script.run(user());
    assert_eq!(log, ["failure of alice", "denied"]);

    let script = Script::new(vec![need(CredentialKind::Totp)]);
    let (_, log) = script.run(user());
    assert_eq!(log, ["denied"]);
}

#[test]
fn an_unauthorized_target_counts_as_a_failure() {
    let mut script = Script::new(vec![accepted()]);
    script.role = false;
    let (outcome, log) = script.run(user());
    assert!(matches!(outcome, Outcome::Denied));
    assert_eq!(log, ["failure of alice", "denied"]);
}

#[test]
fn an_administrator_can_turn_a_login_away() {
    let mut script = Script::new(vec![accepted()]);
    script.approved = false;
    let (outcome, log) = script.run(user());
    assert!(matches!(outcome, Outcome::Denied));
    assert_eq!(log, ["gate by password:1", "denied"]);
}

#[test]
fn the_success_message_goes_out_once() {
    // Ahead of the prompt, and not again at the end.
    let script = Script::new(vec![need(CredentialKind::WebUserApproval), accepted()]);
    let (outcome, log) = script.run(user());
    assert!(matches!(outcome, Outcome::Approved(_)));
    assert_eq!(
        log,
        ["ok", "prompt https://gate/approve AB12", "gate by password:1", "clear alice"]
    );

    // Announcing the wait for an administrator can use the permit up.
    let mut script = Script::new(vec![accepted()]);
    script.gate_takes_permit = true;
    let (_, log) = script.run(user());
    assert_eq!(log, ["gate by password:1", "clear alice"]);
}

#[test]
fn web_approval_that_cannot_be_shown_is_denied_without_a_success_message() {
    let mut script = Script::new(vec![need(CredentialKind::WebUserApproval)]);
    script.supports_web_approval = false;
    let (outcome, log) = script.run(user());
    assert!(matches!(outcome, Outcome::Denied));
    assert_eq!(log, ["denied"]);

    // An earlier approval needs no prompt.
    let mut script = Script::new(vec![need(CredentialKind::WebUserApproval), accepted()]);
    script.supports_web_approval = false;
    script.bypass = true;
    let (outcome, _) = script.run(user());
    assert!(matches!(outcome, Outcome::Approved(_)));
}

#[test]
fn web_approval_can_fail_in_three_ways() {
    let web = || Script::new(vec![need(CredentialKind::WebUserApproval)]);

    let mut script = web();
    script.external_url = false;
    let (outcome, log) = script.run(user());
    assert!(matches!(outcome, Outcome::TransportFailure(e) if e == "no external URL"));
    assert_eq!(log, ["denied"]);

    let mut script = web();
    script.shows_prompt = false;
    let (outcome, log) = script.run(user());
    assert!(matches!(outcome, Outcome::Denied));
    assert_eq!(log.last().unwrap(), "denied");

    let mut script = web();
    script.completes = false;
    let (outcome, log) = script.run(user());
    assert!(matches!(outcome, Outcome::Denied));
    assert_eq!(log.last().unwrap(), "denied");
}

#[test]
fn a_ticket_login_is_gated_and_remembered_by_nothing() {
    let ticket = |secret: &str| AuthSelector::Ticket { secret: secret.to_owned() };
    let (outcome, log) = Script::new(vec![]).run(ticket("s3cret"));
    assert_eq!(log, ["gate by nothing", "ok"]);
    match outcome {
        Outcome::Approved(approved) => {
            assert_eq!(approved.ticket_id(), Some(40));
            assert!(approved.narrow::<TargetPostgresOptions>().is_ok());
        }
        _ => panic!("the ticket is good"),
    }

    let (outcome, log) = Script::new(vec![]).run(ticket("other"));
    assert!(matches!(outcome, Outcome::Denied));
    assert_eq!(log, ["denied"]);
}

#[test]
fn a_failed_lookup_fails_the_login() {
    let login = DbLogin {
        session_id: UserSessionId(9),
        remote_ip: IP,
        protocol: Protocol::MySql,
        supports_web_approval: false,
    };
    let (auth, _): (DbAuthorization<String>, DbAuthAction<String>) =
        run_db_authorization(login, user());
    let (auth, action) = auth.step(DbAuthEvent::IpBlocked(Err(WarpgateError::Service(
        "db".to_owned(),
    ))));
    assert!(matches!(
        action,
        DbAuthAction::Done(Err(DbAuthFailure::Core(WarpgateError::Service(_))))
    ));
    // It is over: a late answer is not taken up.
    let (_, action) = auth.step(DbAuthEvent::IpBlocked(Ok(false)));
    assert!(matches!(action, DbAuthAction::Unexpected));

    let (auth, _): (DbAuthorization<String>, DbAuthAction<String>) =
        run_db_authorization(login, user());
    let (auth, _) = auth.step(DbAuthEvent::IpBlocked(Ok(true)));
    let (_, action) = auth.step(DbAuthEvent::Sent(Err("gone".to_owned())));
    assert!(matches!(
        action,
        DbAuthAction::Done(Err(DbAuthFailure::Transport(error))) if error == "gone"
    ));
}

#[test]
fn an_approval_shows_two_names() {
    match Script::new(vec![accepted()]).run(user()).0 {
        Outcome::Approved(approved) => assert_eq!(approved.printable(), ("pg", "alice")),
        _ => panic!("the role grants the target"),
    }
}
