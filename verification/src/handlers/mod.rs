pub mod auth;
pub mod dev;
pub mod seed;
pub mod tasks;
