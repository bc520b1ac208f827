use mcprs::auth::{AuthConfig, AuthError, AuthUser};

#[test]
fn test_auth_config_add_and_validate_token() {
    let mut config = AuthConfig::new();

    config.add_token("test-token".to_string());
    assert!(config.is_valid_token("test-token"));

    assert!(!config.is_valid_token("invalid-token"));
}

#[test]
fn test_auth_config_multiple_tokens() {
    let mut config = AuthConfig::new();

    config.add_token("token1".to_string());
    config.add_token("token2".to_string());
    config.add_token("token3".to_string());

    assert!(config.is_valid_token("token1"));
    assert!(config.is_valid_token("token2"));
    assert!(config.is_valid_token("token3"));
    assert!(!config.is_valid_token("token4"));
}

#[test]
fn test_auth_error_into_response() {
    let error = AuthError { message: "Token inválido".to_string() };

    assert_eq!(error.status(), 401);
}

#[test]
fn test_auth_config_token_management() {
    let mut config = AuthConfig::new();

    assert!(!config.is_valid_token("any-token"));

    config.add_token("token1".to_string());
    assert!(config.is_valid_token("token1"));
    assert!(!config.is_valid_token("token2"));

    config.add_token("token2".to_string());
    config.add_token("token3".to_string());

    assert!(config.is_valid_token("token1"));
    assert!(config.is_valid_token("token2"));
    assert!(config.is_valid_token("token3"));
    assert!(!config.is_valid_token("token4"));
}

#[test]
fn a_token_added_twice_is_accepted_as_before() {
    let mut config = AuthConfig::default();
    config.add_token("again".to_string());
    config.add_token("again".to_string());
    assert!(config.is_valid_token("again"));
    assert!(!config.is_valid_token("agai"));
    assert!(!config.is_valid_token("again "));
    assert!(!config.is_valid_token(""));
}

#[test]
fn the_empty_token_is_a_token_like_any_other() {
    let mut config = AuthConfig::new();
    assert!(!config.is_valid_token(""));
    config.add_token(String::new());
    assert!(config.is_valid_token(""));
}

#[test]
fn a_request_with_a_bearer_token_is_a_user() {
    let user = AuthUser::from_bearer(Some("abc123")).unwrap();
    assert_eq!(user.token, "abc123");
}

#[test]
fn a_request_without_a_bearer_token_is_refused() {
    let error = AuthUser::from_bearer(None).unwrap_err();
    assert_eq!(error.message, "Token de autorização ausente ou inválido");
    assert_eq!(error.status(), 401);
}
