use eng_session::auth::{
    bytes_equal, generate_auth_token, is_valid_token, validate_auth_token, AuthError,
    AuthInterceptor,
};

#[test]
fn auth_test_validate_auth_token_valid() {
    let token = "valid_token";
    assert!(validate_auth_token(token));
}

#[test]
fn auth_test_validate_auth_token_empty() {
    let token = "";
    assert!(!validate_auth_token(token));
}

#[test]
fn lib_test_validate_auth_token_valid() {
    let token = "valid_token";
    assert!(validate_auth_token(token));
}

#[test]
fn lib_test_validate_auth_token_empty() {
    let token = "";
    assert!(!validate_auth_token(token));
}

#[test]
fn interceptor_allows_the_exact_token() {
    let interceptor = AuthInterceptor::new("secret-token".to_string()).unwrap();
    assert_eq!(interceptor.expected_token(), "secret-token");
    assert_eq!(interceptor.authenticate(Some("secret-token".as_bytes())), Ok(()));
}

#[test]
fn interceptor_rejects_any_other_token() {
    let interceptor = AuthInterceptor::new("secret-token".to_string()).unwrap();
    let others = ["", "secret", "secret-token ", " secret-token", "SECRET-TOKEN", "secret-tokem"];
    for other in others {
        assert_eq!(
            interceptor.authenticate(Some(other.as_bytes())),
            Err(AuthError::Unauthenticated),
            "token {:?}",
            other
        );
    }
    assert_eq!(
        interceptor.authenticate(Some(&[0xff, 0xfe])),
        Err(AuthError::Unauthenticated)
    );
}

#[test]
fn interceptor_rejects_a_call_without_token() {
    let interceptor = AuthInterceptor::new("secret-token".to_string()).unwrap();
    assert_eq!(interceptor.authenticate(None), Err(AuthError::Unauthenticated));
}

#[test]
fn interceptor_goes_on_serving_after_a_rejection() {
    let interceptor = AuthInterceptor::new("t0k".to_string()).unwrap();
    assert!(interceptor.authenticate(Some(b"bad")).is_err());
    assert!(interceptor.authenticate(None).is_err());
    assert!(interceptor.authenticate(Some(b"t0k")).is_ok());
    assert!(interceptor.authenticate(Some(b"bad")).is_err());
    assert!(interceptor.authenticate(Some(b"t0k")).is_ok());
}

#[test]
fn interceptor_is_not_built_on_an_empty_token() {
    assert_eq!(AuthInterceptor::new(String::new()).err(), Some(AuthError::InvalidToken));
}

#[test]
fn interceptor_is_not_built_on_a_malformed_token() {
    for bad in ["line\nbreak", "carriage\rreturn", "nul\0", "del\u{7f}", "\u{1b}[0m"] {
        assert_eq!(
            AuthInterceptor::new(bad.to_string()).err(),
            Some(AuthError::InvalidToken),
            "token {:?}",
            bad
        );
        assert!(!is_valid_token(bad));
    }
}

#[test]
fn tokens_may_hold_tabs_spaces_and_letters_beyond_ascii() {
    for good in ["a", "with space", "with\ttab", "~!@#$%^&*()", "grüße", "日本語"] {
        assert!(is_valid_token(good), "token {:?}", good);
        let interceptor = AuthInterceptor::new(good.to_string()).unwrap();
        assert!(interceptor.authenticate(Some(good.as_bytes())).is_ok());
    }
}

#[test]
fn clone_expects_the_same_token() {
    let interceptor = AuthInterceptor::new("abc".to_string()).unwrap();
    let second = interceptor.clone();
    assert_eq!(second.expected_token(), "abc");
    assert!(second.authenticate(Some(b"abc")).is_ok());
    assert!(second.authenticate(Some(b"abd")).is_err());
}

#[test]
fn generated_tokens_are_hyphenated_lower_case_identifiers() {
    for _ in 0..32 {
        let token = generate_auth_token();
        let chars: Vec<char> = token.chars().collect();
        assert_eq!(chars.len(), 36);
        for (i, c) in chars.iter().enumerate() {
            if i == 8 || i == 13 || i == 18 || i == 23 {
                assert_eq!(*c, '-');
            } else {
                assert!(matches!(*c, '0'..='9' | 'a'..='f'), "char {:?} at {}", c, i);
            }
        }
        assert_eq!(chars[14], '4');
        assert!(matches!(chars[19], '8' | '9' | 'a' | 'b'));
        assert!(is_valid_token(&token));
        assert!(AuthInterceptor::new(token).is_ok());
    }
}

#[test]
fn generated_tokens_differ() {
    assert_ne!(generate_auth_token(), generate_auth_token());
}

#[test]
fn error_messages_reveal_nothing() {
    assert_eq!(AuthError::InvalidToken.message(), "Invalid auth token format");
    assert_eq!(AuthError::Unauthenticated.message(), "No valid auth token");
}

#[test]
fn bytes_equal_compares_length_and_content() {
    assert!(bytes_equal(b"", b""));
    assert!(bytes_equal(b"abc", b"abc"));
    assert!(!bytes_equal(b"abc", b"abd"));
    assert!(!bytes_equal(b"abc", b"ab"));
    assert!(!bytes_equal(b"", b"a"));
}
