//! A minimal HTML snippet store: a client publishes an HTML document under a
//! path-derived key (authenticated write) and any client can later retrieve it
//! (unauthenticated read). Storage lives in an external key-value backend with
//! per-key expiration; this crate holds the request-handling core — the
//! key/TTL scheme, the authorization rule, the backend transition semantics
//! and the mapping of outcomes to HTTP results — with its behaviour verified.

pub mod auth;
pub mod config;
pub mod gateway;
pub mod keys;
pub mod laws;
pub mod store;
