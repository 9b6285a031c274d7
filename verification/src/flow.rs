//! The OAuth flow orchestrator, as an explicit state machine.
//!
//! The machine owns every decision of the authorize → redirect → extract
//! sequence; the browser work it cannot do itself (launching, navigating,
//! reading the current URL, sleeping between polls) is requested through
//! [`FlowAction`] values and answered through [`FlowEvent`] values by the
//! caller that drives a real or simulated browser.

use vstd::prelude::*;

use crate::error::{McpError, McpResult};
use crate::strutil::{spec_starts_with, str_starts_with};
use crate::supabase::{spec_auth_url, spec_authorize_endpoint, spec_callback_url, SupabaseClient};
use crate::token::{extract_token_from_url, spec_extract_token};
use crate::urlcheck::url_parse_ok;

verus! {

/// Wall-clock budget of the redirect-polling loop, in milliseconds.
pub const BROWSER_TIMEOUT_MS: u64 = 60000;

/// Pause between two polls of the browser's current URL, in milliseconds.
pub const POLL_INTERVAL_MS: u64 = 500;

/// Where the flow stands.
pub enum FlowState {
    /// Nothing has happened yet.
    Init,
    /// The driver is probing whether a provider session already exists.
    CheckingSession,
    /// The authorization tab is open and the current URL is being polled.
    AwaitingRedirect { auth_url: String, callback_prefix: String },
    /// The redirect arrived; the token is about to be extracted.
    ExtractingToken { final_url: String },
    /// The token was extracted.
    Completed { token: String },
    /// The polling budget ran out before the redirect arrived.
    TimedOut,
    /// Some step failed with a typed error.
    Failed { error: McpError },
}

/// What the driver reports back to the machine.
pub enum FlowEvent {
    /// The session probe finished; `logged_in` is informational only.
    SessionChecked { logged_in: bool },
    /// A browser operation failed with the given driver message.
    BrowserFailed { message: String },
    /// A poll read the tab's current URL, `elapsed_ms` into the wait.
    UrlObserved { url: String, elapsed_ms: u64 },
    /// The authorization tab was closed.
    TabClosed,
}

/// What the machine asks the driver to do next.
pub enum FlowAction {
    /// Open a tab on the provider's site, probe for a login indicator,
    /// close the tab, and report `SessionChecked`.
    CheckSession,
    /// Open a fresh tab, navigate it to `url`, and start polling.
    OpenAuthTab { url: String },
    /// Sleep `delay_ms`, then read the tab's URL and report `UrlObserved`.
    Poll { delay_ms: u64 },
    /// Close the authorization tab, then report `TabClosed`.
    CloseTab,
    /// The flow is over; read the outcome.
    Finish,
}

/// What one poll observation means, given the callback prefix the machine
/// matches against: past the budget the flow times out, a URL under the
/// prefix is the redirect, anything else keeps the machine waiting.
pub enum PollVerdict {
    Deadline,
    Matched,
    KeepWaiting,
}

/// The verdict for a URL observed `elapsed_ms` into the wait. The budget is
/// checked first, as the poll loop does.
pub open spec fn spec_poll_verdict(prefix: Seq<char>, url: Seq<char>, elapsed_ms: u64) -> PollVerdict {
    if elapsed_ms >= BROWSER_TIMEOUT_MS {
        PollVerdict::Deadline
    } else if spec_starts_with(url, prefix) {
        PollVerdict::Matched
    } else {
        PollVerdict::KeepWaiting
    }
}

/// The orchestrator: one browser-mediated flow attempt from start to token.
pub struct OAuthFlow {
    pub client: SupabaseClient,
    pub is_signup: bool,
    pub state: FlowState,
    /// Whether the machine currently holds the authorization tab: set when
    /// it requests the tab, cleared when it requests the close.
    pub tab_open: bool,
}

impl OAuthFlow {
    /// The flow reached one of its terminal states.
    pub open spec fn terminal(&self) -> bool {
        ||| self.state is Completed
        ||| self.state is TimedOut
        ||| self.state is Failed
    }

    /// The flow is polling for the redirect.
    pub open spec fn awaiting(&self) -> bool {
        self.state is AwaitingRedirect
    }

    /// The callback prefix the polling loop matches against.
    pub open spec fn prefix_of(&self) -> Seq<char>
        recommends
            self.awaiting(),
    {
        self.state->AwaitingRedirect_callback_prefix@
    }

    /// Which events the current state can answer.
    pub open spec fn accepts(&self, event: FlowEvent) -> bool {
        match event {
            FlowEvent::SessionChecked { .. } => self.state is CheckingSession,
            FlowEvent::BrowserFailed { .. } => self.state is CheckingSession || self.awaiting(),
            FlowEvent::UrlObserved { .. } => self.awaiting(),
            FlowEvent::TabClosed => self.state is ExtractingToken,
        }
    }

    /// A fresh machine for one flow attempt.
    pub fn new(client: SupabaseClient, is_signup: bool) -> (f: OAuthFlow)
        ensures
            f.client == client,
            f.is_signup == is_signup,
            f.state is Init,
            !f.tab_open,
    {
        OAuthFlow { client, is_signup, state: FlowState::Init, tab_open: false }
    }

    /// Begin the flow: the first thing to do is the session probe.
    pub fn start(self) -> (r: (OAuthFlow, FlowAction))
        requires
            self.state is Init,
        ensures
            r.0 == (OAuthFlow { state: FlowState::CheckingSession, ..self }),
            r.1 is CheckSession,
    {
        let OAuthFlow { client, is_signup, state: _, tab_open } = self;
        (
            OAuthFlow { client, is_signup, state: FlowState::CheckingSession, tab_open },
            FlowAction::CheckSession,
        )
    }

    /// Answer one event with the next state and the next action.
    pub fn step(self, event: FlowEvent) -> (r: (OAuthFlow, FlowAction))
        requires
            self.accepts(event),
        ensures
            r.0.client == self.client,
            r.0.is_signup == self.is_signup,
            // a reported browser failure fails the whole flow
            event matches FlowEvent::BrowserFailed { message } ==> ({
                &&& r.0.state matches FlowState::Failed { error: McpError::BrowserError(m) }
                    && m == message
                &&& !r.0.tab_open
                &&& r.1 is Finish
            }),
            // the session probe's outcome is informational only: the machine
            // builds the authorization request either way
            (self.state is CheckingSession && event matches FlowEvent::SessionChecked { .. }) ==> ({
                let base = self.client.config.supabase_url@;
                let cid = self.client.config.github_client_id@;
                &&& (r.0.state is AwaitingRedirect || r.0.state is Failed)
                &&& (!url_parse_ok(spec_authorize_endpoint(base)) ==> r.0.state is Failed)
                &&& (r.0.state matches FlowState::AwaitingRedirect { auth_url, callback_prefix }
                    ==> ({
                    &&& callback_prefix@ == spec_callback_url(base)
                    &&& url_parse_ok(auth_url@)
                    &&& (exists|st: Seq<char>|
                        #[trigger] spec_auth_url(base, cid, st, self.is_signup) == auth_url@)
                    &&& r.1 matches FlowAction::OpenAuthTab { url } && url@ == auth_url@
                    &&& r.0.tab_open
                }))
                &&& (r.0.state is Failed ==> ({
                    &&& r.0.state matches FlowState::Failed { error: McpError::AuthError(_) }
                    &&& r.1 is Finish
                    &&& !r.0.tab_open
                    &&& (!url_parse_ok(spec_authorize_endpoint(base)) || exists|st: Seq<char>|
                        !url_parse_ok(#[trigger] spec_auth_url(base, cid, st, self.is_signup)))
                }))
            }),
            // one poll of the redirect loop
            event matches FlowEvent::UrlObserved { url, elapsed_ms } ==> ({
                let v = spec_poll_verdict(self.prefix_of(), url@, elapsed_ms);
                &&& (v is Deadline ==> r.0.state is TimedOut && !r.0.tab_open && r.1 is CloseTab)
                &&& (v is Matched ==> ({
                    &&& r.0.state matches FlowState::ExtractingToken { final_url } && final_url@
                        == url@
                    &&& !r.0.tab_open
                    &&& r.1 is CloseTab
                }))
                &&& (v is KeepWaiting ==> r.0 == self && (r.1 matches FlowAction::Poll { delay_ms }
                    && delay_ms == POLL_INTERVAL_MS))
            }),
            // with the tab closed, the token is extracted from the final URL
            (self.state is ExtractingToken && event is TabClosed) ==> ({
                let u = self.state->ExtractingToken_final_url@;
                &&& r.1 is Finish
                &&& !r.0.tab_open
                &&& (url_parse_ok(u) && spec_extract_token(u) is Some ==> (
                r.0.state matches FlowState::Completed { token } && token@ == spec_extract_token(
                    u,
                )->0))
                &&& (url_parse_ok(u) && spec_extract_token(u) is None ==> (
                r.0.state matches FlowState::Failed { error: McpError::AuthError(_) }))
                &&& (!url_parse_ok(u) ==> (r.0.state matches FlowState::Failed {
                    error: McpError::AuthError(_),
                }))
            }),
    {
        let OAuthFlow { client, is_signup, state, tab_open } = self;
        match (state, event) {
            (FlowState::CheckingSession, FlowEvent::SessionChecked { logged_in: _ }) => {
                match client.build_github_auth_url(is_signup) {
                    Ok(u) => {
                        let prefix = client.get_callback_url_prefix();
                        let u2 = u.clone();
                        (
                            OAuthFlow {
                                client,
                                is_signup,
                                state: FlowState::AwaitingRedirect {
                                    auth_url: u,
                                    callback_prefix: prefix,
                                },
                                tab_open: true,
                            },
                            FlowAction::OpenAuthTab { url: u2 },
                        )
                    },
                    Err(e) => (
                        OAuthFlow {
                            client,
                            is_signup,
                            state: FlowState::Failed { error: e },
                            tab_open: false,
                        },
                        FlowAction::Finish,
                    ),
                }
            },
            (_, FlowEvent::BrowserFailed { message }) => (
                OAuthFlow {
                    client,
                    is_signup,
                    state: FlowState::Failed { error: McpError::BrowserError(message) },
                    tab_open: false,
                },
                FlowAction::Finish,
            ),
            (
                FlowState::AwaitingRedirect { auth_url, callback_prefix },
                FlowEvent::UrlObserved { url, elapsed_ms },
            ) => {
                if elapsed_ms >= BROWSER_TIMEOUT_MS {
                    (
                        OAuthFlow {
                            client,
                            is_signup,
                            state: FlowState::TimedOut,
                            tab_open: false,
                        },
                        FlowAction::CloseTab,
                    )
                } else if str_starts_with(url.as_str(), callback_prefix.as_str()) {
                    (
                        OAuthFlow {
                            client,
                            is_signup,
                            state: FlowState::ExtractingToken { final_url: url },
                            tab_open: false,
                        },
                        FlowAction::CloseTab,
                    )
                } else {
                    (
                        OAuthFlow {
                            client,
                            is_signup,
                            state: FlowState::AwaitingRedirect { auth_url, callback_prefix },
                            tab_open,
                        },
                        FlowAction::Poll { delay_ms: POLL_INTERVAL_MS },
                    )
                }
            },
            (FlowState::ExtractingToken { final_url }, FlowEvent::TabClosed) => {
                let next = match extract_token_from_url(final_url.as_str()) {
                    Ok(t) => FlowState::Completed { token: t },
                    Err(e) => FlowState::Failed { error: e },
                };
                (
                    OAuthFlow { client, is_signup, state: next, tab_open: false },
                    FlowAction::Finish,
                )
            },
            _ => vstd::pervasive::unreached(),
        }
    }

    /// The result of a finished flow: the token, or the typed failure.
    /// A timeout is reported as the browser-level "Authentication timed
    /// out" error.
    pub fn outcome(self) -> (r: McpResult<String>)
        requires
            self.terminal(),
        ensures
            self.state matches FlowState::Completed { token } ==> (r matches Ok(t) && t == token),
            self.state is TimedOut ==> (r matches Err(McpError::BrowserError(m)) && m@
                == "Authentication timed out"@),
            self.state matches FlowState::Failed { error } ==> (r matches Err(e) && e == error),
    {
        match self.state {
            FlowState::Completed { token } => Ok(token),
            FlowState::TimedOut => Err(
                McpError::BrowserError("Authentication timed out".to_owned()),
            ),
            FlowState::Failed { error } => Err(error),
            _ => vstd::pervasive::unreached(),
        }
    }
}

/// Poll observations that are at least one poll interval apart have, by the
/// `i`-th observation, at least `i` intervals on the clock.
pub proof fn lemma_elapsed_grows(e: Seq<u64>, i: int)
    requires
        0 <= i < e.len(),
        forall|j: int| 0 <= j < e.len() - 1 ==> #[trigger] e[j] + POLL_INTERVAL_MS <= e[j + 1],
    ensures
        e[i] >= i * POLL_INTERVAL_MS,
    decreases i,
{
    if i > 0 {
        lemma_elapsed_grows(e, i - 1);
        assert(e[i - 1] + POLL_INTERVAL_MS <= e[i]);
        assert((i - 1) * POLL_INTERVAL_MS + POLL_INTERVAL_MS == i * POLL_INTERVAL_MS) by (nonlinear_arith);
    }
}

/// Law: the polling loop cannot outlive its budget by more than one poll
/// interval. Whatever URLs a tab reports, if consecutive observations are at
/// least one poll interval apart, then among the first
/// `BROWSER_TIMEOUT_MS / POLL_INTERVAL_MS + 1` observations one already
/// carries the deadline verdict — on which the machine's step leaves the
/// awaiting state for `TimedOut` and requests the tab's close, holding no
/// tab afterward.
pub proof fn lemma_polling_bounded(prefix: Seq<char>, urls: Seq<Seq<char>>, e: Seq<u64>)
    requires
        e.len() == urls.len(),
        e.len() > BROWSER_TIMEOUT_MS / POLL_INTERVAL_MS,
        forall|j: int| 0 <= j < e.len() - 1 ==> #[trigger] e[j] + POLL_INTERVAL_MS <= e[j + 1],
    ensures
        exists|i: int|
            0 <= i < e.len() && spec_poll_verdict(prefix, urls[i], e[i]) is Deadline,
{
    let k = (BROWSER_TIMEOUT_MS / POLL_INTERVAL_MS) as int;
    lemma_elapsed_grows(e, k);
    assert(e[k] >= k * POLL_INTERVAL_MS);
    assert(spec_poll_verdict(prefix, urls[k], e[k]) is Deadline);
}

} // verus!
