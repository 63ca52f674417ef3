//! A beer ordering service behind Rancher authentication.
//!
//! `beer` takes orders and writes the confirmations, `rancher_auth` and `session` decide who may
//! order, `settings` reads the configuration. `text` holds the operations on texts that these
//! are stated in. `laws` states what the service promises. `web` and `chance` are what is
//! taken from the `http` and `rand` crates.
pub mod beer;
pub mod chance;
pub mod laws;
pub mod rancher_auth;
pub mod session;
pub mod settings;
pub mod text;
pub mod web;
