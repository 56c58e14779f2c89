//! Verified core of a topic-subscription server: authorities and roles,
//! account and session rules, access control for the GraphQL operations,
//! and the shaping of database parameters and records.

pub mod authority;
pub mod record;
pub mod models;
pub mod accounts;
pub mod extract;
pub mod passwords;
pub mod fresh;
pub mod database;
pub mod session;
pub mod graphql;
pub mod config;
