//! The authentication façade the CLI layer drives: it hands out configured
//! flow machines for signup and login, and decides `whoami` from the stored
//! credential alone.

use vstd::prelude::*;

use crate::config::{spec_same_config, Config};
use crate::error::{McpError, McpResult};
use crate::flow::OAuthFlow;
use crate::supabase::SupabaseClient;

verus! {

/// Sequences one CLI command: flow machine → credential store → profile.
/// The store and the transport live outside; this type makes the decisions.
pub struct AuthHandler {
    pub supabase: SupabaseClient,
}

impl AuthHandler {
    /// A handler for the given configuration.
    pub fn new(config: Config) -> (h: AuthHandler)
        ensures
            h.supabase.config == config,
    {
        AuthHandler { supabase: SupabaseClient::new(config) }
    }

    /// The flow machine for a signup attempt, ready to start.
    pub fn signup(&self) -> (f: OAuthFlow)
        ensures
            f.state is Init,
            !f.tab_open,
            f.is_signup,
            spec_same_config(f.client.config, self.supabase.config),
    {
        OAuthFlow::new(SupabaseClient::new(self.supabase.config.duplicate()), true)
    }

    /// The flow machine for a login attempt, ready to start.
    pub fn login(&self) -> (f: OAuthFlow)
        ensures
            f.state is Init,
            !f.tab_open,
            !f.is_signup,
            spec_same_config(f.client.config, self.supabase.config),
    {
        OAuthFlow::new(SupabaseClient::new(self.supabase.config.duplicate()), false)
    }

    /// Decide `whoami` from the stored credential: with no stored token the
    /// command fails as not authenticated — and, since any profile lookup
    /// needs the token this function returns, no network call can follow;
    /// with a stored token, that token is the one to look up.
    pub fn whoami(&self, stored: Option<String>) -> (r: McpResult<String>)
        ensures
            stored is None ==> r matches Err(McpError::NotAuthenticated),
            stored matches Some(t) ==> (r matches Ok(u) && u == t),
    {
        match stored {
            None => Err(McpError::NotAuthenticated),
            Some(t) => Ok(t),
        }
    }
}

} // verus!
