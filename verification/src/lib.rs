//! Task management service core: roles, tasks, two-factor login challenges,
//! access tokens' claims, the per-user view cache and the request decisions
//! of the HTTP layer, each with its contract.

pub mod auth;
pub mod cache;
pub mod clock;
pub mod error;
pub mod handlers;
pub mod ids;
pub mod text;
pub mod models;
