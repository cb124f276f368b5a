//! The authentication service: users, their passwords and their tokens.

pub mod config;
pub mod models;
pub mod service;
