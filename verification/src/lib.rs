//! Verified core of the university project registration services: the
//! authentication service, the notification service and the REST router.
//!
//! Each service keeps its I/O (databases, RPC transport, HTTP) outside this
//! crate; what is here is the logic that decides what those services answer.

pub mod text;
pub mod roles;
pub mod rpc;
pub mod clock;
pub mod ids;
pub mod auth;
pub mod notification;
pub mod router;
