//! A commit graph of users, repositories and commits: the entities, the
//! links that place a commit in a repository and attribute it to a user,
//! the queries over them, and the checks and answers of the service in
//! front of them.

pub mod dates;
pub mod domain;
pub mod error;
pub mod handlers;
pub mod laws;
pub mod model;
pub mod postgres;
pub mod repository;
pub mod service;
pub mod sorted;
pub mod store;
mod table;
pub mod telemetry;
pub mod text;
