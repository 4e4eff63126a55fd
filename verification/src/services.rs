//! What stands between a request and its handler.

pub mod token_authentication;
