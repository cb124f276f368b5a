//! The notification service: notifications per user, newest first, and
//! their read flag.

pub mod config;
pub mod store;
