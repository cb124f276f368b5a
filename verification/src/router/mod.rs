//! The REST router: it checks bearer tokens and roles, turns REST bodies
//! into RPC requests and RPC answers into REST bodies, and maps RPC
//! failures to HTTP errors.

pub mod config;
pub mod error;
pub mod handlers;
pub mod middleware;
pub mod models;
