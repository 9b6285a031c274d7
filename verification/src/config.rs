//! Provider configuration: identity-broker base URL, broker API key and
//! OAuth client id.

use vstd::prelude::*;

verus! {

/// The three configuration strings the flow reads; immutable for the
/// lifetime of one invocation.
pub struct Config {
    pub supabase_url: String,
    pub supabase_anon_key: String,
    pub github_client_id: String,
}

impl Default for Config {
    /// Placeholder values, written out when no configuration file exists yet.
    fn default() -> (c: Config)
        ensures
            c.supabase_url@ == "https://your-project.supabase.co"@,
            c.supabase_anon_key@ == "your-anon-key"@,
            c.github_client_id@ == "your-github-client-id"@,
    {
        Config {
            supabase_url: "https://your-project.supabase.co".to_owned(),
            supabase_anon_key: "your-anon-key".to_owned(),
            github_client_id: "your-github-client-id".to_owned(),
        }
    }
}

/// The two configurations hold the same three strings.
pub open spec fn spec_same_config(a: Config, b: Config) -> bool {
    &&& a.supabase_url@ == b.supabase_url@
    &&& a.supabase_anon_key@ == b.supabase_anon_key@
    &&& a.github_client_id@ == b.github_client_id@
}

impl Config {
    /// A copy holding the same three strings.
    pub fn duplicate(&self) -> (c: Config)
        ensures
            spec_same_config(c, *self),
    {
        Config {
            supabase_url: self.supabase_url.clone(),
            supabase_anon_key: self.supabase_anon_key.clone(),
            github_client_id: self.github_client_id.clone(),
        }
    }

    /// Apply environment overrides: each field is replaced exactly when an
    /// override for it is present, and kept otherwise.
    pub fn with_overrides(
        self,
        url: Option<String>,
        anon_key: Option<String>,
        client_id: Option<String>,
    ) -> (c: Config)
        ensures
            c.supabase_url == if url is Some {
                url->0
            } else {
                self.supabase_url
            },
            c.supabase_anon_key == if anon_key is Some {
                anon_key->0
            } else {
                self.supabase_anon_key
            },
            c.github_client_id == if client_id is Some {
                client_id->0
            } else {
                self.github_client_id
            },
    {
        Config {
            supabase_url: match url {
                Some(u) => u,
                None => self.supabase_url,
            },
            supabase_anon_key: match anon_key {
                Some(k) => k,
                None => self.supabase_anon_key,
            },
            github_client_id: match client_id {
                Some(i) => i,
                None => self.github_client_id,
            },
        }
    }
}

} // verus!
