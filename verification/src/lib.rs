//! User directory of the shopping-list service: the error model, the user
//! model, the in-memory user stores, the decisions of the HTTP handlers and
//! of the database setup.
pub mod error;
pub mod user_id;
pub mod models;
pub mod store;
pub mod repositories;
pub mod services;
pub mod handlers;
pub mod routes;
pub mod setup;

pub use error::Error;
