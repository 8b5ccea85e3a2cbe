//! The verified core of a newsletter service: subscriber e-mail parsing,
//! the idempotent newsletter publication flow, the login page and the
//! report of how the service's background tasks ended.

pub mod domain;
pub mod exit_report;
pub mod idempotency;
pub mod response;
pub mod routes;
