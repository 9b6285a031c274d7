use rust_mcp::config::Config;
use rust_mcp::error::McpError;
use rust_mcp::supabase::{generate_state, is_valid_header_value, SupabaseClient};

fn test_config() -> Config {
    Config {
        supabase_url: "https://example.com".to_string(),
        supabase_anon_key: "anon-key".to_string(),
        github_client_id: "cid123".to_string(),
    }
}

fn pairs(u: &url::Url) -> Vec<(String, String)> {
    u.query_pairs().map(|(k, v)| (k.into_owned(), v.into_owned())).collect()
}

#[test]
fn auth_url_with_state_is_fully_deterministic() {
    let client = SupabaseClient::new(test_config());
    let u = client.build_auth_url_with_state(true, "42").unwrap();
    let expected = "https://example.com/auth/v1/authorize?provider=github&client_id=cid123&redirect_to=https%3A%2F%2Fexample.com%2Fauth%2Fv1%2Fcallback&response_type=token&scopes=user%3Aemail&state=42&flow_type=signup";
    assert_eq!(u, expected);
}

#[test]
fn auth_url_differs_only_in_state() {
    let client = SupabaseClient::new(test_config());
    let a = url::Url::parse(&client.build_github_auth_url(false).unwrap()).unwrap();
    let b = url::Url::parse(&client.build_github_auth_url(false).unwrap()).unwrap();
    assert_eq!(a.host_str(), b.host_str());
    assert_eq!(a.path(), b.path());
    let pa = pairs(&a);
    let pb = pairs(&b);
    assert_eq!(pa.len(), pb.len());
    for (x, y) in pa.iter().zip(pb.iter()) {
        assert_eq!(x.0, y.0);
        if x.0 != "state" {
            assert_eq!(x.1, y.1);
        }
    }
}

#[test]
fn auth_url_carries_the_documented_parameters() {
    let client = SupabaseClient::new(test_config());
    let u = url::Url::parse(&client.build_github_auth_url(false).unwrap()).unwrap();
    let p = pairs(&u);
    assert!(p.contains(&("provider".to_string(), "github".to_string())));
    assert!(p.contains(&("client_id".to_string(), "cid123".to_string())));
    assert!(p.contains(&(
        "redirect_to".to_string(),
        "https://example.com/auth/v1/callback".to_string()
    )));
    assert!(p.contains(&("response_type".to_string(), "token".to_string())));
    assert!(p.contains(&("scopes".to_string(), "user:email".to_string())));
    let state = p.iter().find(|(k, _)| k == "state").expect("a state parameter");
    assert!(!state.1.is_empty());
    assert!(state.1.chars().all(|c| c.is_ascii_digit()));
}

#[test]
fn signup_url_carries_flow_type_and_login_url_does_not() {
    let client = SupabaseClient::new(test_config());
    let s = url::Url::parse(&client.build_github_auth_url(true).unwrap()).unwrap();
    let l = url::Url::parse(&client.build_github_auth_url(false).unwrap()).unwrap();
    assert!(pairs(&s).contains(&("flow_type".to_string(), "signup".to_string())));
    assert!(pairs(&l).iter().all(|(k, _)| k != "flow_type"));
}

#[test]
fn unparsable_base_url_is_auth_error() {
    let client = SupabaseClient::new(Config {
        supabase_url: "no scheme here".to_string(),
        supabase_anon_key: "k".to_string(),
        github_client_id: "c".to_string(),
    });
    match client.build_github_auth_url(false) {
        Err(McpError::AuthError(_)) => {}
        _ => panic!("expected an authentication error"),
    }
}

#[test]
fn callback_prefix_is_base_plus_callback_path() {
    let client = SupabaseClient::new(test_config());
    assert_eq!(client.get_callback_url_prefix(), "https://example.com/auth/v1/callback");
}

#[test]
fn user_endpoint_is_base_plus_user_path() {
    let client = SupabaseClient::new(test_config());
    assert_eq!(client.user_endpoint_url(), "https://example.com/auth/v1/user");
}

#[test]
fn bearer_header_prefixes_the_token() {
    assert_eq!(SupabaseClient::bearer_header_value("tok"), "Bearer tok");
}

#[test]
fn state_nonce_is_nonempty_digits() {
    let s = generate_state();
    assert!(s.len() >= 2);
    assert!(s.chars().all(|c| c.is_ascii_digit()));
}

#[test]
fn state_nonces_differ_between_calls() {
    assert_ne!(generate_state(), generate_state());
}

#[test]
fn profile_status_accepts_exactly_2xx() {
    assert!(SupabaseClient::check_profile_status(200).is_ok());
    assert!(SupabaseClient::check_profile_status(299).is_ok());
    match SupabaseClient::check_profile_status(401) {
        Err(McpError::AuthError(m)) => {
            assert_eq!(m, "Failed to get user profile: HTTP 401");
        }
        _ => panic!("expected an authentication error"),
    }
    match SupabaseClient::check_profile_status(500) {
        Err(McpError::AuthError(m)) => {
            assert_eq!(m, "Failed to get user profile: HTTP 500");
        }
        _ => panic!("expected an authentication error"),
    }
}

#[test]
fn header_values_reject_control_characters() {
    assert!(is_valid_header_value("Bearer abc.def-123"));
    assert!(is_valid_header_value("value with\ttab"));
    assert!(!is_valid_header_value("bad\nvalue"));
    assert!(!is_valid_header_value("bad\rvalue"));
    assert!(!is_valid_header_value("bad\u{7f}value"));
    assert!(is_valid_header_value(""));
}

#[test]
fn default_config_holds_placeholders() {
    let c = Config::default();
    assert_eq!(c.supabase_url, "https://your-project.supabase.co");
    assert_eq!(c.supabase_anon_key, "your-anon-key");
    assert_eq!(c.github_client_id, "your-github-client-id");
}

#[test]
fn overrides_replace_only_what_is_present() {
    let c = test_config().with_overrides(Some("https://o.example".to_string()), None, None);
    assert_eq!(c.supabase_url, "https://o.example");
    assert_eq!(c.supabase_anon_key, "anon-key");
    assert_eq!(c.github_client_id, "cid123");
}

#[test]
fn error_messages_carry_their_category() {
    assert_eq!(
        McpError::AuthError("bad".to_string()).message(),
        "Authentication error: bad"
    );
    assert_eq!(
        McpError::ConfigError("oops".to_string()).message(),
        "Config error: oops"
    );
    assert_eq!(
        McpError::NotAuthenticated.message(),
        "Not authenticated. Please login first."
    );
}
