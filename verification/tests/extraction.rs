use rust_mcp::error::McpError;
use rust_mcp::token::extract_token_from_url;

#[test]
fn fragment_wins_over_query() {
    // the fragment's token must win even when the query also carries one
    let url = "https://example.com/auth/v1/callback?access_token=B#access_token=A&token_type=bearer";
    let r = extract_token_from_url(url);
    assert_eq!(r.ok(), Some("A".to_string()));
}

#[test]
fn extraction_is_idempotent() {
    let url = "https://example.com/auth/v1/callback?access_token=B#access_token=A&token_type=bearer";
    let first = extract_token_from_url(url).ok();
    let second = extract_token_from_url(url).ok();
    assert_eq!(first, second);
    assert_eq!(first, Some("A".to_string()));
}

#[test]
fn missing_token_is_auth_error() {
    let url = "https://example.com/auth/v1/callback?foo=bar#baz=qux";
    match extract_token_from_url(url) {
        Err(McpError::AuthError(m)) => {
            assert_eq!(m, "Could not extract access token from URL");
        }
        _ => panic!("expected an authentication error"),
    }
}

#[test]
fn bare_url_without_parameters_is_auth_error() {
    match extract_token_from_url("https://example.com/auth/v1/callback") {
        Err(McpError::AuthError(_)) => {}
        _ => panic!("expected an authentication error"),
    }
}

#[test]
fn simple_fragment_token() {
    let url = "https://example.com/cb#access_token=abc&token_type=bearer";
    assert_eq!(extract_token_from_url(url).ok(), Some("abc".to_string()));
}

#[test]
fn fragment_piece_must_split_in_exactly_two() {
    // a fragment piece with two `=` is not a match, and with no query
    // fallback the extraction fails
    let url = "https://example.com/cb#access_token=a=b";
    match extract_token_from_url(url) {
        Err(McpError::AuthError(_)) => {}
        _ => panic!("expected an authentication error"),
    }
}

#[test]
fn query_fallback_token() {
    let url = "https://example.com/cb?access_token=qq&state=1";
    assert_eq!(extract_token_from_url(url).ok(), Some("qq".to_string()));
}

#[test]
fn query_fallback_used_when_fragment_has_no_token() {
    let url = "https://example.com/cb?access_token=qq#token_type=bearer";
    assert_eq!(extract_token_from_url(url).ok(), Some("qq".to_string()));
}

#[test]
fn query_value_is_percent_decoded() {
    let url = "https://example.com/cb?access_token=a%2Bb";
    assert_eq!(extract_token_from_url(url).ok(), Some("a+b".to_string()));
}

#[test]
fn plus_in_query_value_decodes_to_space() {
    let url = "https://example.com/cb?access_token=a+b";
    assert_eq!(extract_token_from_url(url).ok(), Some("a b".to_string()));
}

#[test]
fn encoded_query_key_still_matches() {
    let url = "https://example.com/cb?access%5Ftoken=xyz";
    assert_eq!(extract_token_from_url(url).ok(), Some("xyz".to_string()));
}

#[test]
fn fragment_value_stays_verbatim() {
    // only the query fallback decodes; the fragment is split raw
    let url = "https://example.com/cb#access_token=a%2Bb";
    assert_eq!(extract_token_from_url(url).ok(), Some("a%2Bb".to_string()));
}

#[test]
fn unparsable_url_is_auth_error() {
    match extract_token_from_url("definitely not a url") {
        Err(McpError::AuthError(_)) => {}
        _ => panic!("expected an authentication error"),
    }
}

#[test]
fn empty_fragment_value_is_returned_as_is() {
    let url = "https://example.com/cb#access_token=&token_type=bearer";
    assert_eq!(extract_token_from_url(url).ok(), Some(String::new()));
}
