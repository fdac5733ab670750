//! The plain values that the authorization logic works on: users, targets,
//! tickets, points in time and errors.
use vstd::prelude::*;

verus! {

/// The protocols that a client can reach a target over.
#[derive(Clone, Copy, Debug, PartialEq, Eq, Structural)]
pub enum Protocol {
    Http,
    Ssh,
    MySql,
    Postgres,
    Kubernetes,
}

/// A point in wall-clock time, in nanoseconds from the Unix epoch.
#[derive(Clone, Copy, Debug, PartialEq, Eq, Structural)]
pub struct Timestamp {
    pub nanos: i128,
}

/// A reading of the monotonic clock, in nanoseconds from a fixed start.
#[derive(Clone, Copy, Debug, PartialEq, Eq, Structural)]
pub struct Instant {
    pub nanos: u128,
}

/// A length of time, in nanoseconds.
#[derive(Clone, Copy, Debug, PartialEq, Eq, Structural)]
pub struct Duration {
    pub nanos: u128,
}

/// The address that a client connects from.
#[derive(Clone, Copy, Debug, PartialEq, Eq, Structural)]
pub enum IpAddr {
    V4(u32),
    V6(u128),
}

/// The identifier of a user session.
#[derive(Clone, Copy, Debug, PartialEq, Eq, Structural)]
pub struct UserSessionId(pub u128);

/// The identifier of a gateway node.
#[derive(Clone, Copy, Debug, PartialEq, Eq, Structural)]
pub struct NodeId(pub u128);

/// Who a session belongs to.
#[derive(Debug)]
pub struct AuthStateUserInfo {
    pub id: u128,
    pub username: String,
}

impl Clone for AuthStateUserInfo {
    fn clone(&self) -> (copy: Self)
        ensures
            copy == *self,
    {
        AuthStateUserInfo { id: self.id, username: self.username.clone() }
    }
}

/// How an HTTP target is reached.
#[derive(Debug)]
pub struct TargetHTTPOptions {
    pub url: String,
}

/// How an SSH target is reached.
#[derive(Debug)]
pub struct TargetSSHOptions {
    pub host: String,
    pub port: u16,
    pub username: String,
}

/// How a MySQL target is reached.
#[derive(Debug)]
pub struct TargetMySqlOptions {
    pub host: String,
    pub port: u16,
    pub username: String,
}

/// How a PostgreSQL target is reached.
#[derive(Debug)]
pub struct TargetPostgresOptions {
    pub host: String,
    pub port: u16,
    pub username: String,
}

/// Which kind of credential the gateway presents to a Kubernetes API server.
#[derive(Clone, Copy, Debug, PartialEq, Eq, Structural)]
pub enum KubernetesTargetAuth {
    Token,
    Certificate,
    IamRole,
}

/// How a Kubernetes target is reached.
#[derive(Debug)]
pub struct TargetKubernetesOptions {
    pub cluster_url: String,
    pub auth: KubernetesTargetAuth,
}

/// How a target is reached, by its protocol.
#[derive(Debug)]
pub enum TargetOptions {
    Http(TargetHTTPOptions),
    Ssh(TargetSSHOptions),
    MySql(TargetMySqlOptions),
    Postgres(TargetPostgresOptions),
    Kubernetes(TargetKubernetesOptions),
}

impl TargetOptions {
    /// The protocol that a target with these options speaks.
    pub open spec fn spec_protocol(self) -> Protocol {
        match self {
            TargetOptions::Http(_) => Protocol::Http,
            TargetOptions::Ssh(_) => Protocol::Ssh,
            TargetOptions::MySql(_) => Protocol::MySql,
            TargetOptions::Postgres(_) => Protocol::Postgres,
            TargetOptions::Kubernetes(_) => Protocol::Kubernetes,
        }
    }

    pub fn protocol(&self) -> (protocol: Protocol)
        ensures
            protocol == self.spec_protocol(),
    {
        match self {
            TargetOptions::Http(_) => Protocol::Http,
            TargetOptions::Ssh(_) => Protocol::Ssh,
            TargetOptions::MySql(_) => Protocol::MySql,
            TargetOptions::Postgres(_) => Protocol::Postgres,
            TargetOptions::Kubernetes(_) => Protocol::Kubernetes,
        }
    }
}

impl Clone for TargetOptions {
    fn clone(&self) -> (copy: Self)
        ensures
            copy == *self,
    {
        match self {
            TargetOptions::Http(o) => TargetOptions::Http(TargetHTTPOptions { url: o.url.clone() }),
            TargetOptions::Ssh(o) => TargetOptions::Ssh(
                TargetSSHOptions {
                    host: o.host.clone(),
                    port: o.port,
                    username: o.username.clone(),
                },
            ),
            TargetOptions::MySql(o) => TargetOptions::MySql(
                TargetMySqlOptions {
                    host: o.host.clone(),
                    port: o.port,
                    username: o.username.clone(),
                },
            ),
            TargetOptions::Postgres(o) => TargetOptions::Postgres(
                TargetPostgresOptions {
                    host: o.host.clone(),
                    port: o.port,
                    username: o.username.clone(),
                },
            ),
            TargetOptions::Kubernetes(o) => TargetOptions::Kubernetes(
                TargetKubernetesOptions { cluster_url: o.cluster_url.clone(), auth: o.auth },
            ),
        }
    }
}

/// Something a session can be opened to.
#[derive(Debug)]
pub struct Target {
    pub id: u128,
    pub name: String,
    pub options: TargetOptions,
    /// Whether an administrator has to let each connection through.
    pub require_approval: bool,
}

impl Clone for Target {
    fn clone(&self) -> (copy: Self)
        ensures
            copy == *self,
    {
        Target {
            id: self.id,
            name: self.name.clone(),
            options: self.options.clone(),
            require_approval: self.require_approval,
        }
    }
}

/// One protocol's variant of [`TargetOptions`].
pub trait TargetOptionsVariant: Sized {
    /// The protocol of the variant.
    spec fn spec_protocol() -> Protocol;

    /// The options of this variant in `options`, if they are of this variant.
    spec fn variant_of(options: TargetOptions) -> Option<Self>;

    fn protocol() -> (protocol: Protocol)
        ensures
            protocol == Self::spec_protocol(),
    ;

    fn from_options(options: &TargetOptions) -> (variant: Option<Self>)
        ensures
            variant == Self::variant_of(*options),
    ;
}

impl TargetOptionsVariant for TargetHTTPOptions {
    open spec fn spec_protocol() -> Protocol {
        Protocol::Http
    }

    open spec fn variant_of(options: TargetOptions) -> Option<Self> {
        match options {
            TargetOptions::Http(o) => Some(o),
            _ => None,
        }
    }

    fn protocol() -> (protocol: Protocol) {
        Protocol::Http
    }

    fn from_options(options: &TargetOptions) -> (variant: Option<Self>) {
        match options.clone() {
            TargetOptions::Http(o) => Some(o),
            _ => None,
        }
    }
}

impl TargetOptionsVariant for TargetSSHOptions {
    open spec fn spec_protocol() -> Protocol {
        Protocol::Ssh
    }

    open spec fn variant_of(options: TargetOptions) -> Option<Self> {
        match options {
            TargetOptions::Ssh(o) => Some(o),
            _ => None,
        }
    }

    fn protocol() -> (protocol: Protocol) {
        Protocol::Ssh
    }

    fn from_options(options: &TargetOptions) -> (variant: Option<Self>) {
        match options.clone() {
            TargetOptions::Ssh(o) => Some(o),
            _ => None,
        }
    }
}

impl TargetOptionsVariant for TargetMySqlOptions {
    open spec fn spec_protocol() -> Protocol {
        Protocol::MySql
    }

    open spec fn variant_of(options: TargetOptions) -> Option<Self> {
        match options {
            TargetOptions::MySql(o) => Some(o),
            _ => None,
        }
    }

    fn protocol() -> (protocol: Protocol) {
        Protocol::MySql
    }

    fn from_options(options: &TargetOptions) -> (variant: Option<Self>) {
        match options.clone() {
            TargetOptions::MySql(o) => Some(o),
            _ => None,
        }
    }
}

impl TargetOptionsVariant for TargetPostgresOptions {
    open spec fn spec_protocol() -> Protocol {
        Protocol::Postgres
    }

    open spec fn variant_of(options: TargetOptions) -> Option<Self> {
        match options {
            TargetOptions::Postgres(o) => Some(o),
            _ => None,
        }
    }

    fn protocol() -> (protocol: Protocol) {
        Protocol::Postgres
    }

    fn from_options(options: &TargetOptions) -> (variant: Option<Self>) {
        match options.clone() {
            TargetOptions::Postgres(o) => Some(o),
            _ => None,
        }
    }
}

impl TargetOptionsVariant for TargetKubernetesOptions {
    open spec fn spec_protocol() -> Protocol {
        Protocol::Kubernetes
    }

    open spec fn variant_of(options: TargetOptions) -> Option<Self> {
        match options {
            TargetOptions::Kubernetes(o) => Some(o),
            _ => None,
        }
    }

    fn protocol() -> (protocol: Protocol) {
        Protocol::Kubernetes
    }

    fn from_options(options: &TargetOptions) -> (variant: Option<Self>) {
        match options.clone() {
            TargetOptions::Kubernetes(o) => Some(o),
            _ => None,
        }
    }
}

/// A ticket as it is stored: a grant of one target to one user.
#[derive(Clone, Copy, Debug, PartialEq, Eq, Structural)]
pub struct Ticket {
    pub id: u128,
    pub user_id: u128,
    pub target_id: u128,
    /// How often it can still open a session; `None` for no limit.
    pub uses_left: Option<i16>,
    /// Whether the user asked for it, so that it can act as a grant without
    /// its secret.
    pub self_service: bool,
    pub expiry: Option<Timestamp>,
}

/// Why an operation failed.
#[derive(Debug)]
pub enum WarpgateError {
    /// The target is not of the kind that was asked for.
    InvalidTarget,
    /// The ticket is gone or has no use left.
    InvalidTicket(u128),
    /// No user of this identifier is stored.
    UserNotFound(String),
    /// A service behind the gateway failed.
    Service(String),
}

} // verus!
