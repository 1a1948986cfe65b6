//! Verified core of the ProjectX identity and web services: the data model of users,
//! sessions and passkeys, the rules that issue and check tokens, the sign-in lockout
//! state machine, request validation, role checks and the mapping of errors to replies.
//! Database, cache, HTTP and gRPC plumbing live in the application crate around it.

pub mod time;
pub mod ids;
pub mod error;
pub mod db;
pub mod entities;
pub mod signin;
pub mod config;
pub mod cookie;
pub mod password;
pub mod jwt;
pub mod models;
pub mod token;
pub mod auth;
pub mod validation;
pub mod services;
pub mod endpoints;
pub mod passkey;
pub mod health;
pub mod metrics;
pub mod identity;
