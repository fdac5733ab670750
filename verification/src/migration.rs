//! A repair of stored credential policies: an older spelling of a credential
//! kind, which later releases do not read, is replaced by the current one.
use vstd::prelude::*;

verus! {

/// The database systems that the gateway stores its data in.
#[derive(Clone, Copy, Debug, PartialEq, Eq, Structural)]
pub enum DbBackend {
    MySql,
    Postgres,
    Sqlite,
}

/// The statement that repairs the policies of all users in a PostgreSQL
/// database.
pub const REPAIR_POSTGRES: &'static str =
    "UPDATE users SET credential_policy = REPLACE(credential_policy::text, '\"public_key\"', '\"publickey\"')::jsonb WHERE credential_policy::text LIKE '%\"public_key\"%'";

/// The same for a MySQL database.
pub const REPAIR_MYSQL: &'static str =
    "UPDATE users SET credential_policy = REPLACE(credential_policy, '\"public_key\"', '\"publickey\"') WHERE CAST(credential_policy AS CHAR) LIKE '%\"public_key\"%'";

/// The same for a SQLite database.
pub const REPAIR_SQLITE: &'static str =
    "UPDATE users SET credential_policy = REPLACE(credential_policy, '\"public_key\"', '\"publickey\"') WHERE credential_policy LIKE '%\"public_key\"%'";

/// The repair. Only the JSON string token is replaced; every other setting of a
/// policy stays.
pub struct Migration;

impl Migration {
    /// The statement that the repair runs.
    pub fn up(&self, backend: DbBackend) -> (statement: &'static str)
        ensures
            statement == match backend {
                DbBackend::Postgres => REPAIR_POSTGRES,
                DbBackend::MySql => REPAIR_MYSQL,
                DbBackend::Sqlite => REPAIR_SQLITE,
            },
    {
        match backend {
            DbBackend::Postgres => REPAIR_POSTGRES,
            DbBackend::MySql => REPAIR_MYSQL,
            DbBackend::Sqlite => REPAIR_SQLITE,
        }
    }

    /// What undoing the repair runs: nothing. The old spelling would make the
    /// policies unreadable to the releases that a downgrade could lead to.
    pub fn down(&self, backend: DbBackend) -> (statement: Option<&'static str>)
        ensures
            statement is None,
    {
        None
    }
}

} // verus!
