//! Browser-mediated OAuth credential acquisition.
//!
//! The library holds the verified core of a CLI credential tool: the
//! authorization-URL builder, the redirect-polling flow as an explicit state
//! machine, bearer-token extraction from the redirect URL, and the
//! interpretation and display of the authenticated user's profile. Browser
//! driving, HTTP transport, the secret store and the configuration file are
//! collaborators at the edge, reached through the flow machine's actions and
//! a few narrow trusted calls.

pub mod auth;
pub mod config;
pub mod encoding;
pub mod error;
pub mod flow;
pub mod strutil;
pub mod supabase;
pub mod token;
pub mod urlcheck;
