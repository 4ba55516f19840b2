use outlook_mail::mode::ApiMode;
use outlook_mail::outcome::CheckError;
use outlook_mail::token::{
    read_token_response, scope_supports_graph, TokenRefreshResult, TokenResponse,
    DEFAULT_EXPIRES_IN,
};

fn answer(
    access_token: Option<&str>,
    expires_in: Option<i64>,
    scope: Option<&str>,
    error: Option<&str>,
    error_description: Option<&str>,
) -> TokenResponse {
    TokenResponse {
        access_token: access_token.map(|s| s.to_string()),
        expires_in,
        scope: scope.map(|s| s.to_string()),
        error: error.map(|s| s.to_string()),
        error_description: error_description.map(|s| s.to_string()),
    }
}

#[test]
fn scope_with_the_marker_supports_graph() {
    assert!(scope_supports_graph(&Some(
        "https://graph.microsoft.com/Mail.Read https://graph.microsoft.com/User.Read".to_string()
    )));
    assert!(scope_supports_graph(&Some("Mail.ReadWrite".to_string())));
}

#[test]
fn scope_without_the_marker_does_not() {
    assert!(!scope_supports_graph(&Some(
        "https://outlook.office.com/IMAP.AccessAsUser.All".to_string()
    )));
    assert!(!scope_supports_graph(&Some("mail.read".to_string())));
    assert!(!scope_supports_graph(&Some(String::new())));
    assert!(!scope_supports_graph(&None));
}

#[test]
fn grant_with_marker_detects_graph() {
    let grant = read_token_response(answer(
        Some("tok"),
        Some(1200),
        Some("openid Mail.Read"),
        None,
        None,
    ))
    .unwrap();
    assert_eq!(grant.access_token, "tok");
    assert_eq!(grant.expires_in, 1200);
    assert!(grant.supports_graph);
    assert_eq!(grant.detected_mode(), ApiMode::Graph);
}

#[test]
fn grant_without_marker_detects_imap() {
    let grant = read_token_response(answer(
        Some("tok"),
        Some(1200),
        Some("IMAP.AccessAsUser.All"),
        None,
        None,
    ))
    .unwrap();
    assert!(!grant.supports_graph);
    assert_eq!(grant.detected_mode(), ApiMode::Imap);
}

#[test]
fn grant_without_scope_detects_imap() {
    let grant = read_token_response(answer(Some("tok"), Some(10), None, None, None)).unwrap();
    assert!(!grant.supports_graph);
    assert_eq!(grant.detected_mode(), ApiMode::Imap);
}

#[test]
fn lifetime_defaults_to_an_hour() {
    let grant = read_token_response(answer(Some("tok"), None, None, None, None)).unwrap();
    assert_eq!(grant.expires_in, 3600);
    assert_eq!(DEFAULT_EXPIRES_IN, 3600);
}

#[test]
fn refusal_carries_code_and_description() {
    let refused = read_token_response(answer(
        None,
        None,
        None,
        Some("invalid_grant"),
        Some("AADSTS70000: expired"),
    ));
    match refused {
        Err(CheckError::Token(text)) => {
            assert_eq!(text, "刷新令牌失败: invalid_grant - AADSTS70000: expired")
        }
        other => panic!("unexpected: {:?}", other),
    }
}

#[test]
fn refusal_without_details_uses_fixed_words() {
    match read_token_response(answer(None, None, None, None, None)) {
        Err(CheckError::Token(text)) => assert_eq!(text, "刷新令牌失败: 未知错误 - 未知错误描述"),
        other => panic!("unexpected: {:?}", other),
    }
}

#[test]
fn an_error_field_is_a_refusal_even_with_a_token() {
    match read_token_response(answer(Some("tok"), None, None, Some("interaction_required"), None))
    {
        Err(CheckError::Token(text)) => {
            assert_eq!(text, "刷新令牌失败: interaction_required - 未知错误描述")
        }
        other => panic!("unexpected: {:?}", other),
    }
}

#[test]
fn detected_mode_follows_the_flag() {
    let with = TokenRefreshResult {
        access_token: String::new(),
        expires_in: 0,
        supports_graph: true,
    };
    let without = TokenRefreshResult {
        access_token: String::new(),
        expires_in: 0,
        supports_graph: false,
    };
    assert_eq!(with.detected_mode(), ApiMode::Graph);
    assert_eq!(without.detected_mode(), ApiMode::Imap);
}
