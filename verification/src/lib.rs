//! Verified core of a small background-service host: a supervisor that runs
//! independent polling workers until a broadcast stop signal fires, plus the
//! pure data model around it (pagination, configuration, users, API results).

pub mod api;
pub mod auth;
pub mod config;
pub mod errors;
pub mod filters;
pub mod pagination;
pub mod service;
pub mod supervisor;
pub mod user;
