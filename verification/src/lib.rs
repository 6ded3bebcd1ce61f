//! Device-bound one-time nonces, login auditing, and allow/deny
//! authorization decisions, built on a verified string-keyed table.

pub mod authorizer;
pub mod error;
pub mod http_error_response;
pub mod logins_table;
pub mod nonces_table;
pub mod response;
pub mod simple_authorizer_response;
pub mod table;
pub mod users_table;
