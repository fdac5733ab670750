//! Who may reach which target: the proofs of authentication and authorization
//! that the protocols pass around, and the checks that mint them.
use vstd::prelude::*;

use crate::model::{
    AuthStateUserInfo, Protocol, Target, TargetOptions, TargetOptionsVariant, Ticket,
    Timestamp, WarpgateError,
};

verus! {

/// The kinds of credential that a policy can ask for.
#[derive(Clone, Copy, Debug, PartialEq, Eq, Structural)]
pub enum CredentialKind {
    PublicKey,
    Password,
    Totp,
    Sso,
    WebUserApproval,
    Certificate,
}

/// How far an authentication has come.
#[derive(Debug)]
pub enum AuthResult {
    /// The credential policy is satisfied for this user.
    Accepted { user_info: AuthStateUserInfo },
    /// The policy asks for one of these.
    Need(Vec<CredentialKind>),
    Rejected,
}

/// An authentication under way, as its credential policy sees it.
#[derive(Debug)]
pub struct AuthState {
    pub protocol: Protocol,
    pub result: AuthResult,
}

/// Proof that a user authenticated for a given protocol. Each constructor
/// stands for a real authentication path.
pub struct AuthorizedIdentity {
    user_info: AuthStateUserInfo,
    protocol: Protocol,
}

impl AuthorizedIdentity {
    /// The user that authenticated.
    pub closed spec fn user(self) -> AuthStateUserInfo {
        self.user_info
    }

    /// The protocol that the authentication ran under.
    pub closed spec fn over(self) -> Protocol {
        self.protocol
    }

    /// The identity from an authentication that was accepted, and `None` from
    /// any other, so that nothing past it is reached with an unsatisfied
    /// policy.
    pub fn from_auth_state(state: &AuthState) -> (identity: Option<Self>)
        ensures
            identity is Some <==> state.result is Accepted,
            identity is Some ==> identity->0.user() == state.result->Accepted_user_info
                && identity->0.over() == state.protocol,
    {
        match &state.result {
            AuthResult::Accepted { user_info } => Some(
                AuthorizedIdentity { user_info: user_info.clone(), protocol: state.protocol },
            ),
            _ => None,
        }
    }

    /// The identity of a request that was authenticated elsewhere: by a browser
    /// session, an API token or a Kubernetes credential.
    pub fn for_authenticated_session(user_info: AuthStateUserInfo, protocol: Protocol) -> (identity:
        Self)
        ensures
            identity.user() == user_info,
            identity.over() == protocol,
    {
        AuthorizedIdentity { user_info, protocol }
    }

    pub fn user_info(&self) -> (user_info: &AuthStateUserInfo)
        ensures
            *user_info == self.user(),
    {
        &self.user_info
    }

    pub fn protocol(&self) -> (protocol: Protocol)
        ensures
            protocol == self.over(),
    {
        self.protocol
    }
}

/// The user that authenticated.
impl std::ops::Deref for AuthorizedIdentity {
    type Target = AuthStateUserInfo;

    fn deref(&self) -> (user_info: &AuthStateUserInfo)
        ensures
            *user_info == self.user(),
    {
        &self.user_info
    }
}

impl Clone for AuthorizedIdentity {
    fn clone(&self) -> (copy: Self)
        ensures
            copy == *self,
    {
        AuthorizedIdentity { user_info: self.user_info.clone(), protocol: self.protocol }
    }
}

/// A target with its options as one protocol sees them.
#[derive(Debug)]
pub struct SpecificTarget<O> {
    pub target: Target,
    pub options: O,
}

impl SpecificTarget<TargetOptions> {
    /// A target of whatever kind.
    pub open spec fn of(target: Target) -> Self {
        SpecificTarget { target, options: target.options }
    }

    pub fn any(target: Target) -> (specific: Self)
        ensures
            specific == Self::of(target),
    {
        SpecificTarget { options: target.options.clone(), target }
    }

    /// The target as protocol `O` sees it, if it is of that kind.
    pub fn narrow<O: TargetOptionsVariant>(self) -> (r: Result<SpecificTarget<O>, WarpgateError>)
        ensures
            match O::variant_of(self.options) {
                Some(options) => r == Ok::<SpecificTarget<O>, WarpgateError>(
                    SpecificTarget { target: self.target, options },
                ),
                None => r == Err::<SpecificTarget<O>, WarpgateError>(WarpgateError::InvalidTarget),
            },
    {
        match O::from_options(&self.options) {
            Some(options) => Ok(SpecificTarget { target: self.target, options }),
            None => Err(WarpgateError::InvalidTarget),
        }
    }
}

impl<O> SpecificTarget<O> {
    pub fn options(&self) -> (options: &O)
        ensures
            *options == self.options,
    {
        &self.options
    }
}

/// Proof that a user is authorized for a target. It does not say yet that the
/// user may connect: see [`ApprovedTarget`].
pub struct TargetAuthorization<O> {
    user_info: AuthStateUserInfo,
    target: SpecificTarget<O>,
    protocol: Protocol,
    ticket_id: Option<u128>,
}

/// What an authorization says.
pub struct Grant<O> {
    pub user: AuthStateUserInfo,
    pub target: SpecificTarget<O>,
    pub protocol: Protocol,
    pub ticket: Option<u128>,
}

impl<O> View for TargetAuthorization<O> {
    type V = Grant<O>;

    closed spec fn view(&self) -> Grant<O> {
        Grant {
            user: self.user_info,
            target: self.target,
            protocol: self.protocol,
            ticket: self.ticket_id,
        }
    }
}

/// The grant of `target`, of whatever kind.
pub open spec fn grant_of(
    user: AuthStateUserInfo,
    target: Target,
    protocol: Protocol,
    ticket: Option<u128>,
) -> Grant<TargetOptions> {
    Grant { user, target: SpecificTarget::of(target), protocol, ticket }
}

/// The grant inside an optional authorization.
pub open spec fn granted(authorization: Option<TargetAuthorization<TargetOptions>>) -> Option<
    Grant<TargetOptions>,
> {
    match authorization {
        Some(authorization) => Some(authorization@),
        None => None,
    }
}

/// What an authorization attempt comes to, with an error as it is.
pub open spec fn attempted(
    r: Result<Option<TargetAuthorization<TargetOptions>>, WarpgateError>,
) -> Result<Option<Grant<TargetOptions>>, WarpgateError> {
    match r {
        Ok(authorization) => Ok(granted(authorization)),
        Err(error) => Err(error),
    }
}

impl TargetAuthorization<TargetOptions> {
    /// The authorization that a ticket gives.
    pub fn for_ticket_session(
        user_info: AuthStateUserInfo,
        target: Target,
        ticket_id: u128,
        protocol: Protocol,
    ) -> (r: Result<Self, WarpgateError>)
        ensures
            r is Ok,
            r->Ok_0@ == grant_of(user_info, target, protocol, Some(ticket_id)),
    {
        Ok(
            TargetAuthorization {
                user_info,
                target: SpecificTarget::any(target),
                protocol,
                ticket_id: Some(ticket_id),
            },
        )
    }

    /// The authorization as protocol `O` sees it. It is refused if the
    /// authentication ran under another protocol, or the target is of another
    /// kind.
    pub fn narrow<O: TargetOptionsVariant>(self) -> (r: Result<
        TargetAuthorization<O>,
        WarpgateError,
    >)
        ensures
            r is Ok <==> O::spec_protocol() == self@.protocol && O::variant_of(
                self@.target.options,
            ) is Some,
            r is Err ==> r->Err_0 is InvalidTarget,
            r is Ok ==> r->Ok_0@ == (Grant {
                user: self@.user,
                target: SpecificTarget {
                    target: self@.target.target,
                    options: O::variant_of(self@.target.options)->0,
                },
                protocol: self@.protocol,
                ticket: self@.ticket,
            }),
    {
        if O::protocol() != self.protocol {
            return Err(WarpgateError::InvalidTarget);
        }
        match self.target.narrow::<O>() {
            Ok(target) => Ok(
                TargetAuthorization {
                    user_info: self.user_info,
                    target,
                    protocol: self.protocol,
                    ticket_id: self.ticket_id,
                },
            ),
            Err(error) => Err(error),
        }
    }
}

impl<O> TargetAuthorization<O> {
    pub fn user_info(&self) -> (user_info: &AuthStateUserInfo)
        ensures
            *user_info == self@.user,
    {
        &self.user_info
    }

    /// The target that was authorized, so that a connection never has to look
    /// it up again and find another one.
    pub fn target(&self) -> (target: &Target)
        ensures
            *target == self@.target.target,
    {
        &self.target.target
    }

    pub fn specific_target(&self) -> (target: &SpecificTarget<O>)
        ensures
            *target == self@.target,
    {
        &self.target
    }

    pub fn options(&self) -> (options: &O)
        ensures
            *options == self@.target.options,
    {
        self.target.options()
    }

    /// The protocol that the authorizing authentication ran under.
    pub fn protocol(&self) -> (protocol: Protocol)
        ensures
            protocol == self@.protocol,
    {
        self.protocol
    }

    /// The ticket that the authorization came from, if any.
    pub fn ticket_id(&self) -> (ticket_id: Option<u128>)
        ensures
            ticket_id == self@.ticket,
    {
        self.ticket_id
    }
}

/// Proof that a user is authorized for a target and has the approval that it
/// needs. It cannot be copied: one of them stands for one connection.
pub struct ApprovedTarget<O>(TargetAuthorization<O>);

impl<O> View for ApprovedTarget<O> {
    type V = Grant<O>;

    closed spec fn view(&self) -> Grant<O> {
        self.0@
    }
}

impl ApprovedTarget<TargetOptions> {
    /// The same approval as protocol `O` sees it.
    pub fn narrow<O: TargetOptionsVariant>(self) -> (r: Result<ApprovedTarget<O>, WarpgateError>)
        ensures
            r is Ok <==> O::spec_protocol() == self@.protocol && O::variant_of(
                self@.target.options,
            ) is Some,
            r is Err ==> r->Err_0 is InvalidTarget,
            r is Ok ==> r->Ok_0@ == (Grant {
                user: self@.user,
                target: SpecificTarget {
                    target: self@.target.target,
                    options: O::variant_of(self@.target.options)->0,
                },
                protocol: self@.protocol,
                ticket: self@.ticket,
            }),
    {
        match self.0.narrow::<O>() {
            Ok(authorization) => Ok(ApprovedTarget(authorization)),
            Err(error) => Err(error),
        }
    }
}

impl<O> ApprovedTarget<O> {
    pub(crate) fn new(authorization: TargetAuthorization<O>) -> (approved: Self)
        ensures
            approved@ == authorization@,
    {
        ApprovedTarget(authorization)
    }

    /// The names of the target and of the user, which is all of an approval
    /// that is fit to be printed.
    pub fn printable(&self) -> (names: (&str, &str))
        ensures
            names.0@ == self@.target.target.name@,
            names.1@ == self@.user.username@,
    {
        (self.0.target().name.as_str(), self.0.user_info().username.as_str())
    }

    pub fn into_parts(self) -> (parts: (AuthStateUserInfo, SpecificTarget<O>))
        ensures
            parts == (self@.user, self@.target),
    {
        (self.0.user_info, self.0.target)
    }
}

/// The authorization that was approved.
impl<O> std::ops::Deref for ApprovedTarget<O> {
    type Target = TargetAuthorization<O>;

    fn deref(&self) -> (authorization: &TargetAuthorization<O>)
        ensures
            authorization@ == self@,
    {
        &self.0
    }
}

/// Authorizes `identity` for `target`, with the answer to the question whether
/// a role of the user grants it. It takes the target and not its name, so that
/// the authorization and the connection are about the same one.
pub fn authorize_for_target(
    identity: &AuthorizedIdentity,
    target: Target,
    role: Result<bool, WarpgateError>,
) -> (r: Result<Option<TargetAuthorization<TargetOptions>>, WarpgateError>)
    ensures
        attempted(r) == match role {
            Ok(true) => Ok::<Option<Grant<TargetOptions>>, WarpgateError>(
                Some(grant_of(identity.user(), target, identity.over(), None)),
            ),
            Ok(false) => Ok(None),
            Err(error) => Err(error),
        },
{
    match role {
        Ok(true) => Ok(
            Some(
                TargetAuthorization {
                    user_info: identity.user_info.clone(),
                    target: SpecificTarget::any(target),
                    protocol: identity.protocol,
                    ticket_id: None,
                },
            ),
        ),
        Ok(false) => Ok(None),
        Err(error) => Err(error),
    }
}

/// What authorizing by a target's name goes on with.
pub enum ByName {
    /// Ask whether a role grants this target, and hand the answer to
    /// [`authorize_for_target`].
    AskRole(Target),
    /// The attempt is over.
    Done(Result<Option<TargetAuthorization<TargetOptions>>, WarpgateError>),
}

/// Begins to authorize for a target by its name, with what looking the name up
/// gave. A target that does not exist ends as one that the user may not reach.
pub fn authorize_for_target_by_name(found: Result<Option<Target>, WarpgateError>) -> (r: ByName)
    ensures
        match found {
            Ok(Some(target)) => r == ByName::AskRole(target),
            Ok(None) => r is Done && attempted(r->Done_0) == Ok::<
                Option<Grant<TargetOptions>>,
                WarpgateError,
            >(None),
            Err(error) => r is Done && attempted(r->Done_0) == Err::<
                Option<Grant<TargetOptions>>,
                WarpgateError,
            >(error),
        },
{
    match found {
        Ok(Some(target)) => ByName::AskRole(target),
        Ok(None) => ByName::Done(Ok(None)),
        Err(error) => ByName::Done(Err(error)),
    }
}

/// Whether a ticket can act as a grant to `user_id` of `target_id` without its
/// secret. How many uses it has left is no part of this.
pub open spec fn is_active(ticket: Ticket, user_id: u128, target_id: u128, now: Timestamp) -> bool {
    &&& ticket.user_id == user_id
    &&& ticket.target_id == target_id
    &&& ticket.self_service
    &&& ticket.expiry is None || ticket.expiry->0.nanos > now.nanos
}

/// The tickets that can act as a grant, in order.
pub open spec fn active(
    tickets: Seq<Ticket>,
    user_id: u128,
    target_id: u128,
    now: Timestamp,
) -> Seq<Ticket> {
    tickets.filter(|ticket: Ticket| is_active(ticket, user_id, target_id, now))
}

fn is_active_self_service_ticket(
    ticket: &Ticket,
    user_id: u128,
    target_id: u128,
    now: Timestamp,
) -> (r: bool)
    ensures
        r == is_active(*ticket, user_id, target_id, now),
{
    let unexpired: bool = match ticket.expiry {
        Some(expiry) => expiry.nanos > now.nanos,
        None => true,
    };
    ticket.user_id == user_id && ticket.target_id == target_id && ticket.self_service && unexpired
}

/// The stored tickets that can act as a grant to this user of this target.
pub fn active_self_service_tickets(
    tickets: &Vec<Ticket>,
    user_id: u128,
    target_id: u128,
    now: Timestamp,
) -> (kept: Vec<Ticket>)
    ensures
        kept@ == active(tickets@, user_id, target_id, now),
{
    let mut kept: Vec<Ticket> = Vec::new();
    let ghost pred = |ticket: Ticket| is_active(ticket, user_id, target_id, now);
    let mut i: usize = 0;
    assert(kept@ =~= tickets@.take(0).filter(pred)) by {
        reveal(Seq::filter);
    }
    while i < tickets.len()
        invariant
            i <= tickets.len(),
            pred == (|ticket: Ticket| is_active(ticket, user_id, target_id, now)),
            kept@ == tickets@.take(i as int).filter(pred),
        decreases tickets.len() - i,
    {
        assert(tickets@.take(i + 1).drop_last() == tickets@.take(i as int));
        assert(tickets@.take(i + 1).last() == tickets@[i as int]);
        proof {
            reveal(Seq::filter);
        }
        if is_active_self_service_ticket(&tickets[i], user_id, target_id, now) {
            kept.push(tickets[i]);
        }
        i += 1;
    }
    assert(tickets@.take(tickets.len() as int) == tickets@);
    kept
}

/// Re-checks a grant through the ticket that it was given by: whether that very
/// ticket is stored and still active. What it has left to spend does not count,
/// since the session's use was spent when the grant was made.
pub fn has_active_self_service_ticket(
    tickets: &Vec<Ticket>,
    ticket_id: u128,
    user_id: u128,
    target_id: u128,
    now: Timestamp,
) -> (r: bool)
    ensures
        r == exists|i: int|
            0 <= i < tickets@.len() && (#[trigger] tickets@[i]).id == ticket_id && is_active(
                tickets@[i],
                user_id,
                target_id,
                now,
            ),
{
    let mut i: usize = 0;
    while i < tickets.len()
        invariant
            i <= tickets.len(),
            forall|j: int|
                0 <= j < i ==> !((#[trigger] tickets@[j]).id == ticket_id && is_active(
                    tickets@[j],
                    user_id,
                    target_id,
                    now,
                )),
        decreases tickets.len() - i,
    {
        if tickets[i].id == ticket_id && is_active_self_service_ticket(
            &tickets[i],
            user_id,
            target_id,
            now,
        ) {
            assert(tickets@[i as int].id == ticket_id);
            return true;
        }
        i += 1;
    }
    false
}

} // verus!
