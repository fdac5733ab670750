//! Session authorization logic of a bastion gateway, with its contracts.

use vstd::prelude::*;

pub mod access_watch;
pub mod api_request;
pub mod config_providers;
pub mod db_auth;
pub mod db_auth_laws;
pub mod db_target;
pub mod grant_laws;
pub mod header_laws;
pub mod headers;
pub mod http_fields;
pub mod instance_ca;
pub mod login_laws;
pub mod migration;
pub mod model;
pub mod normal_request;
pub mod request_laws;
pub mod routes;
pub mod session_handle;
pub mod state;
pub mod stream_errors;
pub mod text;
pub mod text_laws;
pub mod ticket_laws;
pub mod ticket_store;
pub mod tickets;
pub mod upgrade_laws;
pub mod watch_laws;
pub mod websocket;
pub mod websocket_request;

verus! {

} // verus!
