//! What each side does with the requests and notifications it receives.
pub mod client;
pub mod server;
