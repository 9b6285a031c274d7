use rust_mcp::auth::AuthHandler;
use rust_mcp::config::Config;
use rust_mcp::error::McpError;
use rust_mcp::flow::{FlowAction, FlowEvent, FlowState, OAuthFlow, BROWSER_TIMEOUT_MS, POLL_INTERVAL_MS};
use rust_mcp::supabase::{AppMetadata, UserMetadata, UserProfile};

fn test_config() -> Config {
    Config {
        supabase_url: "https://example.com".to_string(),
        supabase_anon_key: "anon-key".to_string(),
        github_client_id: "cid123".to_string(),
    }
}

fn started_flow(is_signup: bool) -> (OAuthFlow, String) {
    let handler = AuthHandler::new(test_config());
    let flow = if is_signup { handler.signup() } else { handler.login() };
    let (flow, action) = flow.start();
    assert!(matches!(action, FlowAction::CheckSession));
    assert!(matches!(flow.state, FlowState::CheckingSession));
    let (flow, action) = flow.step(FlowEvent::SessionChecked { logged_in: false });
    let auth_url = match &action {
        FlowAction::OpenAuthTab { url } => url.clone(),
        _ => panic!("expected the machine to open the authorization tab"),
    };
    assert!(flow.tab_open);
    (flow, auth_url)
}

#[test]
fn never_matching_tab_times_out_within_budget_and_closes_tab() {
    let (mut flow, _) = started_flow(false);
    let mut elapsed: u64 = 0;
    let mut polls: u64 = 0;
    loop {
        let (next, action) = flow.step(FlowEvent::UrlObserved {
            url: "https://github.com/login".to_string(),
            elapsed_ms: elapsed,
        });
        flow = next;
        match action {
            FlowAction::Poll { delay_ms } => {
                assert_eq!(delay_ms, POLL_INTERVAL_MS);
                elapsed += delay_ms;
                polls += 1;
                assert!(polls <= BROWSER_TIMEOUT_MS / POLL_INTERVAL_MS + 1);
            }
            FlowAction::CloseTab => break,
            _ => panic!("unexpected action while polling"),
        }
    }
    // failure no later than the timeout plus one poll interval
    assert!(elapsed <= BROWSER_TIMEOUT_MS + POLL_INTERVAL_MS);
    assert!(matches!(flow.state, FlowState::TimedOut));
    // the tab is not left open on the timeout path
    assert!(!flow.tab_open);
    match flow.outcome() {
        Err(e) => assert_eq!(e.message(), "Browser automation error: Authentication timed out"),
        Ok(_) => panic!("a timed-out flow has no token"),
    }
}

#[test]
fn matching_redirect_completes_with_the_fragment_token() {
    let (flow, _) = started_flow(false);
    let redirect = "https://example.com/auth/v1/callback#access_token=tok123&token_type=bearer";
    let (flow, action) = flow.step(FlowEvent::UrlObserved {
        url: redirect.to_string(),
        elapsed_ms: 1000,
    });
    assert!(matches!(action, FlowAction::CloseTab));
    assert!(!flow.tab_open);
    assert!(matches!(flow.state, FlowState::ExtractingToken { .. }));
    let (flow, action) = flow.step(FlowEvent::TabClosed);
    assert!(matches!(action, FlowAction::Finish));
    assert!(matches!(flow.state, FlowState::Completed { .. }));
    assert_eq!(flow.outcome().ok(), Some("tok123".to_string()));
}

#[test]
fn non_matching_urls_keep_the_machine_polling() {
    let (flow, _) = started_flow(false);
    let (flow, action) = flow.step(FlowEvent::UrlObserved {
        url: "https://github.com/session".to_string(),
        elapsed_ms: 4000,
    });
    assert!(matches!(action, FlowAction::Poll { .. }));
    assert!(matches!(flow.state, FlowState::AwaitingRedirect { .. }));
    assert!(flow.tab_open);
}

#[test]
fn redirect_without_token_fails_with_auth_error() {
    let (flow, _) = started_flow(false);
    let (flow, _) = flow.step(FlowEvent::UrlObserved {
        url: "https://example.com/auth/v1/callback?error=access_denied".to_string(),
        elapsed_ms: 1000,
    });
    let (flow, _) = flow.step(FlowEvent::TabClosed);
    match flow.outcome() {
        Err(McpError::AuthError(m)) => {
            assert_eq!(m, "Could not extract access token from URL");
        }
        _ => panic!("expected an authentication error"),
    }
}

#[test]
fn browser_failure_fails_the_whole_flow() {
    let handler = AuthHandler::new(test_config());
    let (flow, _) = handler.signup().start();
    let (flow, action) = flow.step(FlowEvent::BrowserFailed {
        message: "boom".to_string(),
    });
    assert!(matches!(action, FlowAction::Finish));
    assert!(!flow.tab_open);
    match flow.outcome() {
        Err(e) => assert_eq!(e.message(), "Browser automation error: boom"),
        Ok(_) => panic!("a failed flow has no token"),
    }
}

#[test]
fn signup_and_login_flows_differ_only_in_kind() {
    let handler = AuthHandler::new(test_config());
    assert!(handler.signup().is_signup);
    assert!(!handler.login().is_signup);
}

#[test]
fn whoami_without_stored_token_is_not_authenticated() {
    let handler = AuthHandler::new(test_config());
    match handler.whoami(None) {
        Err(McpError::NotAuthenticated) => {}
        _ => panic!("expected the not-authenticated error"),
    }
}

#[test]
fn whoami_with_stored_token_returns_it() {
    let handler = AuthHandler::new(test_config());
    assert_eq!(handler.whoami(Some("tok".to_string())).ok(), Some("tok".to_string()));
}

fn profile(email: Option<&str>) -> UserProfile {
    UserProfile {
        id: "u1".to_string(),
        email: email.map(|e| e.to_string()),
        user_metadata: UserMetadata {
            avatar_url: None,
            email: None,
            email_verified: None,
            full_name: Some("Jane Doe".to_string()),
            iss: None,
            name: None,
            preferred_username: Some("jdoe".to_string()),
            provider_id: None,
            sub: None,
            user_name: None,
        },
        app_metadata: AppMetadata {
            provider: "github".to_string(),
            providers: vec!["github".to_string()],
        },
        created_at: "2024-01-01T00:00:00Z".to_string(),
    }
}

#[test]
fn profile_without_email_is_displayed_without_email_line() {
    let lines = profile(None).info_lines();
    assert_eq!(
        lines,
        vec![
            "User ID: u1".to_string(),
            "Name: Jane Doe".to_string(),
            "GitHub Username: jdoe".to_string(),
            "Provider: github".to_string(),
            "Account created at: 2024-01-01T00:00:00Z".to_string(),
        ]
    );
    assert!(lines.iter().all(|l| !l.starts_with("Email: ")));
}

#[test]
fn profile_with_email_gains_exactly_the_email_line() {
    let with = profile(Some("jane@example.com")).info_lines();
    let without = profile(None).info_lines();
    assert_eq!(with.len(), without.len() + 1);
    assert_eq!(with[1], "Email: jane@example.com");
}

#[test]
fn display_string_renders_one_line() {
    assert_eq!(
        profile(Some("jane@example.com")).display_string(),
        "User(id=u1, email=jane@example.com, name=Jane Doe, username=jdoe)"
    );
    assert_eq!(
        profile(None).display_string(),
        "User(id=u1, name=Jane Doe, username=jdoe)"
    );
}
