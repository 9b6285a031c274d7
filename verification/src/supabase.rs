//! The identity-broker client: authorization-URL construction, the callback
//! prefix used for redirect detection, the pieces of the profile request,
//! and profile display.

use vstd::prelude::*;

use crate::config::Config;
use crate::encoding::{
    form_encode, form_encoded, lemma_dec_digits, spec_dec, spec_form_unreserved, u64_to_dec,
};
use crate::error::{McpError, McpResult};
use crate::urlcheck::{check_url, url_parse_ok, url_parse_outcome};

verus! {

/// The authenticated user's profile, as the broker reports it.
pub struct UserProfile {
    pub id: String,
    pub email: Option<String>,
    pub user_metadata: UserMetadata,
    pub app_metadata: AppMetadata,
    pub created_at: String,
}

/// Free-form metadata the upstream provider attached to the user.
pub struct UserMetadata {
    pub avatar_url: Option<String>,
    pub email: Option<String>,
    pub email_verified: Option<bool>,
    pub full_name: Option<String>,
    pub iss: Option<String>,
    pub name: Option<String>,
    pub preferred_username: Option<String>,
    pub provider_id: Option<String>,
    pub sub: Option<String>,
    pub user_name: Option<String>,
}

/// Which provider authenticated the user.
pub struct AppMetadata {
    pub provider: String,
    pub providers: Vec<String>,
}

/// The name the profile display uses: `name`, else `full_name`, else none.
pub open spec fn spec_name_value(m: UserMetadata) -> Option<Seq<char>> {
    if m.name is Some {
        Some(m.name->0@)
    } else if m.full_name is Some {
        Some(m.full_name->0@)
    } else {
        None
    }
}

/// The username the profile display uses: `preferred_username`, else
/// `user_name`, else none.
pub open spec fn spec_username_value(m: UserMetadata) -> Option<Seq<char>> {
    if m.preferred_username is Some {
        Some(m.preferred_username->0@)
    } else if m.user_name is Some {
        Some(m.user_name->0@)
    } else {
        None
    }
}

/// The lines the profile is presented with: id, then email, name and
/// username when present, then provider and creation time.
pub open spec fn spec_info_lines(p: UserProfile) -> Seq<Seq<char>> {
    seq!["User ID: "@ + p.id@] + (match p.email {
        Some(e) => seq!["Email: "@ + e@],
        None => Seq::<Seq<char>>::empty(),
    }) + (match spec_name_value(p.user_metadata) {
        Some(n) => seq!["Name: "@ + n],
        None => Seq::<Seq<char>>::empty(),
    }) + (match spec_username_value(p.user_metadata) {
        Some(u) => seq!["GitHub Username: "@ + u],
        None => Seq::<Seq<char>>::empty(),
    }) + seq![
        "Provider: "@ + p.app_metadata.provider@,
        "Account created at: "@ + p.created_at@,
    ]
}

/// The single-line rendering of the profile.
pub open spec fn spec_display(p: UserProfile) -> Seq<char> {
    "User(id="@ + p.id@ + (match p.email {
        Some(e) => ", email="@ + e@,
        None => Seq::<char>::empty(),
    }) + (match spec_name_value(p.user_metadata) {
        Some(n) => ", name="@ + n,
        None => Seq::<char>::empty(),
    }) + (match spec_username_value(p.user_metadata) {
        Some(u) => ", username="@ + u,
        None => Seq::<char>::empty(),
    }) + ")"@
}

impl UserProfile {
    /// The profile as display lines. A missing email is no error: the email
    /// line is simply omitted.
    pub fn info_lines(&self) -> (r: Vec<String>)
        ensures
            r@.len() == spec_info_lines(*self).len(),
            forall|i: int| 0 <= i < r@.len() ==> #[trigger] r@[i]@ == spec_info_lines(*self)[i],
    {
        let mut r: Vec<String> = Vec::new();
        let mut idl = "User ID: ".to_owned();
        idl.append(self.id.as_str());
        r.push(idl);
        if let Some(e) = &self.email {
            let mut l = "Email: ".to_owned();
            l.append(e.as_str());
            r.push(l);
        }
        let name = if let Some(n) = &self.user_metadata.name {
            Some(n)
        } else if let Some(f) = &self.user_metadata.full_name {
            Some(f)
        } else {
            None
        };
        if let Some(n) = name {
            let mut l = "Name: ".to_owned();
            l.append(n.as_str());
            r.push(l);
        }
        let username = if let Some(u) = &self.user_metadata.preferred_username {
            Some(u)
        } else if let Some(u) = &self.user_metadata.user_name {
            Some(u)
        } else {
            None
        };
        if let Some(u) = username {
            let mut l = "GitHub Username: ".to_owned();
            l.append(u.as_str());
            r.push(l);
        }
        let mut pl = "Provider: ".to_owned();
        pl.append(self.app_metadata.provider.as_str());
        r.push(pl);
        let mut cl = "Account created at: ".to_owned();
        cl.append(self.created_at.as_str());
        r.push(cl);
        r
    }

    /// The profile on one line, in the shape `User(id=...)` with the
    /// optional parts appended only when present.
    pub fn display_string(&self) -> (r: String)
        ensures
            r@ == spec_display(*self),
    {
        let mut r = "User(id=".to_owned();
        r.append(self.id.as_str());
        if let Some(e) = &self.email {
            r.append(", email=");
            r.append(e.as_str());
        }
        if let Some(n) = &self.user_metadata.name {
            r.append(", name=");
            r.append(n.as_str());
        } else if let Some(f) = &self.user_metadata.full_name {
            r.append(", name=");
            r.append(f.as_str());
        }
        if let Some(u) = &self.user_metadata.preferred_username {
            r.append(", username=");
            r.append(u.as_str());
        } else if let Some(u) = &self.user_metadata.user_name {
            r.append(", username=");
            r.append(u.as_str());
        }
        r.append(")");
        proof {
            assert(r@ =~= spec_display(*self));
        }
        r
    }
}

/// Law: a profile without an email is accepted and displayed with the email
/// omitted, never treated as an error: its display lines are produced as
/// usual, and they are exactly the lines of the same profile with an email
/// minus the one email line.
pub proof fn lemma_missing_email_not_an_error(p: UserProfile, e: String)
    requires
        p.email is None,
    ensures
        spec_info_lines(p).len() >= 3,
        spec_info_lines(
            (UserProfile {
                id: p.id,
                email: Some(e),
                user_metadata: p.user_metadata,
                app_metadata: p.app_metadata,
                created_at: p.created_at,
            }),
        ) =~= seq![spec_info_lines(p)[0], "Email: "@ + e@] + spec_info_lines(p).skip(1),
{
}

/// `{base}/auth/v1/authorize`: the authorization endpoint.
pub open spec fn spec_authorize_endpoint(base: Seq<char>) -> Seq<char> {
    base + "/auth/v1/authorize"@
}

/// `{base}/auth/v1/callback`: the redirect target, and the prefix the
/// polling loop matches against.
pub open spec fn spec_callback_url(base: Seq<char>) -> Seq<char> {
    base + "/auth/v1/callback"@
}

/// `{base}/auth/v1/user`: the profile endpoint.
pub open spec fn spec_user_endpoint(base: Seq<char>) -> Seq<char> {
    base + "/auth/v1/user"@
}

/// Everything of the authorization URL that precedes the encoded state value.
pub open spec fn spec_auth_url_prefix(base: Seq<char>, client_id: Seq<char>) -> Seq<char> {
    spec_authorize_endpoint(base) + "?provider=github&client_id="@ + form_encoded(client_id)
        + "&redirect_to="@ + form_encoded(spec_callback_url(base)) + "&response_type=token&scopes="@
        + form_encoded("user:email"@) + "&state="@
}

/// Everything of the authorization URL that follows the encoded state value.
pub open spec fn spec_auth_url_suffix(is_signup: bool) -> Seq<char> {
    if is_signup {
        "&flow_type=signup"@
    } else {
        Seq::empty()
    }
}

/// The full authorization URL for a given state nonce and flow kind.
pub open spec fn spec_auth_url(
    base: Seq<char>,
    client_id: Seq<char>,
    state: Seq<char>,
    is_signup: bool,
) -> Seq<char> {
    spec_auth_url_prefix(base, client_id) + form_encoded(state) + spec_auth_url_suffix(is_signup)
}

/// Law: the builder is deterministic in all fields except the state nonce.
/// Two URLs built from the same configuration and flow kind share one prefix
/// and one suffix, neither of which depends on the nonce, and differ only in
/// the encoded state value between them.
pub proof fn lemma_auth_url_nonce_only(
    base: Seq<char>,
    client_id: Seq<char>,
    s1: Seq<char>,
    s2: Seq<char>,
    is_signup: bool,
)
    ensures
        spec_auth_url(base, client_id, s1, is_signup) == spec_auth_url_prefix(base, client_id)
            + form_encoded(s1) + spec_auth_url_suffix(is_signup),
        spec_auth_url(base, client_id, s2, is_signup) == spec_auth_url_prefix(base, client_id)
            + form_encoded(s2) + spec_auth_url_suffix(is_signup),
{
}

/// Law: the signup flavour of the URL is exactly the login flavour with
/// `&flow_type=signup` appended, and the login flavour ends at the encoded
/// state value, adding nothing after it.
pub proof fn lemma_flow_type_signup(base: Seq<char>, client_id: Seq<char>, state: Seq<char>)
    ensures
        spec_auth_url(base, client_id, state, true) == spec_auth_url(base, client_id, state, false)
            + "&flow_type=signup"@,
        spec_auth_url(base, client_id, state, false) == spec_auth_url_prefix(base, client_id)
            + form_encoded(state),
{
    assert(spec_auth_url(base, client_id, state, false) =~= spec_auth_url_prefix(base, client_id)
        + form_encoded(state));
    assert(spec_auth_url(base, client_id, state, true) =~= spec_auth_url(
        base,
        client_id,
        state,
        false,
    ) + "&flow_type=signup"@);
}

/// Relies on std::time::SystemTime::now: the current time, read once;
/// converted to whole seconds since the Unix epoch, 0 for a clock that
/// reads earlier than the epoch. Nothing is assumed of the value.
#[verifier::external_body]
fn unix_now_secs() -> u64 {
    std::time::SystemTime::now().duration_since(std::time::UNIX_EPOCH).map(
        |d| d.as_secs(),
    ).unwrap_or(0)
}

/// Relies on rand::random: a value drawn from the thread-local generator.
/// Nothing is assumed of the value.
pub assume_specification<T>[ rand::random::<T> ]() -> (r: T)
    where
        rand::distributions::Standard: rand::distributions::Distribution<T>,
;

/// An unpredictable state nonce for one flow attempt: the decimal rendering
/// of some pair of 64-bit values — the current Unix time and a random draw,
/// neither of which can be pinned further — so always two or more decimal
/// digits.
pub fn generate_state() -> (r: String)
    ensures
        r@.len() >= 2,
        forall|i: int| 0 <= i < r@.len() ==> '0' <= #[trigger] r@[i] <= '9',
        exists|t: u64, n: u64|
            #![trigger spec_dec(t as nat), spec_dec(n as nat)]
            r@ == spec_dec(t as nat) + spec_dec(n as nat),
{
    let t = unix_now_secs();
    let n: u64 = rand::random();
    proof {
        lemma_dec_digits(t as nat);
        lemma_dec_digits(n as nat);
    }
    let mut s = u64_to_dec(t);
    s.append(u64_to_dec(n).as_str());
    proof {
        assert(s@ == spec_dec(t as nat) + spec_dec(n as nat));
    }
    s
}

/// A character acceptable in an HTTP header value: horizontal tab or any
/// character that is no ASCII control character.
pub open spec fn spec_header_value_char(c: char) -> bool {
    c == '\t' || (' ' <= c && c != '\u{7f}')
}

/// Every character of `s` may stand in an HTTP header value.
pub open spec fn spec_valid_header_value(s: Seq<char>) -> bool {
    forall|i: int| 0 <= i < s.len() ==> spec_header_value_char(#[trigger] s[i])
}

/// Whether `s` is acceptable as an HTTP header value. The bearer token and
/// the broker API key must pass this before a profile request is issued:
/// an invalid one is an authentication failure raised before anything is
/// sent.
pub fn is_valid_header_value(s: &str) -> (r: bool)
    ensures
        r <==> spec_valid_header_value(s@),
{
    let len = s.unicode_len();
    let mut i: usize = 0;
    while i < len
        invariant
            i <= len,
            len == s@.len(),
            forall|j: int| 0 <= j < i ==> spec_header_value_char(#[trigger] s@[j]),
        decreases len - i,
    {
        let c = s.get_char(i);
        if !(c == '\t' || (' ' <= c && c != '\u{7f}')) {
            return false;
        }
        i = i + 1;
    }
    true
}

/// Builds broker requests and interprets broker responses; the HTTP
/// transport itself lives outside.
pub struct SupabaseClient {
    pub config: Config,
}

impl SupabaseClient {
    /// A client for the given configuration.
    pub fn new(config: Config) -> (c: SupabaseClient)
        ensures
            c.config == config,
    {
        SupabaseClient { config }
    }

    /// The authorization URL for the given state nonce and flow kind.
    /// Succeeds exactly when the authorization endpoint derived from the
    /// configured base URL and the fully built URL both parse; the result
    /// is then that syntactically valid URL.
    pub fn build_auth_url_with_state(&self, is_signup: bool, state: &str) -> (r: McpResult<
        String,
    >)
        ensures
            r is Ok <==> url_parse_ok(spec_authorize_endpoint(self.config.supabase_url@))
                && url_parse_ok(
                spec_auth_url(
                    self.config.supabase_url@,
                    self.config.github_client_id@,
                    state@,
                    is_signup,
                ),
            ),
            r matches Ok(u) ==> (u@ == spec_auth_url(
                self.config.supabase_url@,
                self.config.github_client_id@,
                state@,
                is_signup,
            ) && url_parse_ok(u@)),
            r is Ok ==> ((forall|i: int|
                0 <= i < state@.len() ==> spec_form_unreserved(state@[i])) ==> form_encoded(
                state@,
            ) == state@),
            r is Ok ==> (state@.len() > 0 ==> form_encoded(state@).len() > 0),
            r is Ok ==> (forall|i: int|
                0 <= i < form_encoded(self.config.github_client_id@).len()
                    ==> #[trigger] form_encoded(self.config.github_client_id@)[i] != '&'
                    && form_encoded(self.config.github_client_id@)[i] != '='),
            r is Ok ==> (forall|i: int|
                0 <= i < form_encoded(spec_callback_url(self.config.supabase_url@)).len()
                    ==> #[trigger] form_encoded(spec_callback_url(self.config.supabase_url@))[i]
                    != '&' && form_encoded(spec_callback_url(self.config.supabase_url@))[i]
                    != '='),
            r matches Err(e) ==> (e matches McpError::AuthError(m) && m@ == (
            if !url_parse_ok(spec_authorize_endpoint(self.config.supabase_url@)) {
                url_parse_outcome(spec_authorize_endpoint(self.config.supabase_url@))->0
            } else {
                url_parse_outcome(
                    spec_auth_url(
                        self.config.supabase_url@,
                        self.config.github_client_id@,
                        state@,
                        is_signup,
                    ),
                )->0
            })),
    {
        let base = self.config.supabase_url.as_str();
        let mut endpoint = base.to_owned();
        endpoint.append("/auth/v1/authorize");
        if let Err(m) = check_url(endpoint.as_str()) {
            return Err(McpError::AuthError(m));
        }
        let mut cb = base.to_owned();
        cb.append("/auth/v1/callback");
        let mut u = endpoint;
        u.append("?provider=github&client_id=");
        u.append(form_encode(self.config.github_client_id.as_str()).as_str());
        u.append("&redirect_to=");
        u.append(form_encode(cb.as_str()).as_str());
        u.append("&response_type=token&scopes=");
        u.append(form_encode("user:email").as_str());
        u.append("&state=");
        u.append(form_encode(state).as_str());
        if is_signup {
            u.append("&flow_type=signup");
        }
        proof {
            assert(u@ =~= spec_auth_url(
                self.config.supabase_url@,
                self.config.github_client_id@,
                state@,
                is_signup,
            ));
        }
        if let Err(m) = check_url(u.as_str()) {
            return Err(McpError::AuthError(m));
        }
        Ok(u)
    }

    /// The authorization URL with a freshly generated state nonce: a
    /// syntactically valid URL, deterministic in everything but that nonce,
    /// which is two or more decimal digits. Failure comes only from the
    /// configured base: either the authorization endpoint does not parse,
    /// or the URL built on it does not.
    pub fn build_github_auth_url(&self, is_signup: bool) -> (r: McpResult<String>)
        ensures
            !url_parse_ok(spec_authorize_endpoint(self.config.supabase_url@)) ==> r is Err,
            r matches Ok(u) ==> (url_parse_ok(u@) && exists|state: Seq<char>|
                state.len() >= 2 && (forall|i: int|
                    0 <= i < state.len() ==> '0' <= #[trigger] state[i] <= '9') && form_encoded(
                    state,
                ) == state && #[trigger] spec_auth_url(
                    self.config.supabase_url@,
                    self.config.github_client_id@,
                    state,
                    is_signup,
                ) == u@),
            (url_parse_ok(spec_authorize_endpoint(self.config.supabase_url@)) && r is Err)
                ==> exists|state: Seq<char>|
                !url_parse_ok(
                    #[trigger] spec_auth_url(
                        self.config.supabase_url@,
                        self.config.github_client_id@,
                        state,
                        is_signup,
                    ),
                ),
            r is Err ==> r matches Err(McpError::AuthError(_)),
    {
        let state = generate_state();
        let r = self.build_auth_url_with_state(is_signup, state.as_str());
        proof {
            if r is Ok {
                assert(forall|i: int| 0 <= i < state@.len() ==> spec_form_unreserved(state@[i]));
                assert(form_encoded(state@) == state@);
                assert(spec_auth_url(
                    self.config.supabase_url@,
                    self.config.github_client_id@,
                    state@,
                    is_signup,
                ) == r->Ok_0@);
            } else if url_parse_ok(spec_authorize_endpoint(self.config.supabase_url@)) {
                assert(!url_parse_ok(
                    spec_auth_url(
                        self.config.supabase_url@,
                        self.config.github_client_id@,
                        state@,
                        is_signup,
                    ),
                ));
            }
        }
        r
    }

    /// The callback URL prefix against which the polling loop matches the
    /// browser's current URL.
    pub fn get_callback_url_prefix(&self) -> (r: String)
        ensures
            r@ == spec_callback_url(self.config.supabase_url@),
    {
        let mut r = self.config.supabase_url.as_str().to_owned();
        r.append("/auth/v1/callback");
        r
    }

    /// The profile endpoint URL for the authenticated-user lookup.
    pub fn user_endpoint_url(&self) -> (r: String)
        ensures
            r@ == spec_user_endpoint(self.config.supabase_url@),
    {
        let mut r = self.config.supabase_url.as_str().to_owned();
        r.append("/auth/v1/user");
        r
    }

    /// The `Authorization` header value for a bearer token.
    pub fn bearer_header_value(token: &str) -> (r: String)
        ensures
            r@ == "Bearer "@ + token@,
    {
        let mut r = "Bearer ".to_owned();
        r.append(token);
        r
    }

    /// Interpret the profile response's HTTP status: any 2xx status is
    /// success, every other status is an authentication failure naming the
    /// status in its message.
    pub fn check_profile_status(status: u16) -> (r: McpResult<()>)
        ensures
            r is Ok <==> 200 <= status < 300,
            !(200 <= status < 300) ==> (r matches Err(McpError::AuthError(m)) && m@
                == "Failed to get user profile: HTTP "@ + spec_dec(status as nat)),
    {
        if 200 <= status && status < 300 {
            Ok(())
        } else {
            let mut m = "Failed to get user profile: HTTP ".to_owned();
            m.append(u64_to_dec(status as u64).as_str());
            Err(McpError::AuthError(m))
        }
    }
}

} // verus!
