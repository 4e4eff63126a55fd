//! The account, token and post rules of a small social backend, with the
//! guard that decides for every request who is asking.
//!
//! The tables live in a [`schema::Database`] value, the rules in `models`,
//! the request guard in `services` and the request handlers in `controllers`.
//! Every handler answers with a [`http::Response`] value that says which
//! status, challenge and body the caller is to be sent.

pub mod controllers;
pub mod http;
pub mod models;
pub mod routes;
pub mod schema;
pub mod services;
pub mod validation;
