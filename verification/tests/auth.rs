use tallr::auth::{
    choose_token, constant_time_eq_at, generate_secure_token, get_or_create_auth_token, validate,
    validate_auth_header, RequestHeaders, TokenChoice, TokenOrigin, TokenSources, TOKEN_BYTES,
};

fn headers(value: Option<&str>) -> RequestHeaders {
    RequestHeaders { authorization: value.map(|v| v.to_string()) }
}

fn secret(token: &str) -> Result<String, String> {
    Ok(token.to_string())
}

fn sources(
    cached: Option<&str>,
    env_override: Option<&str>,
    file: Result<Option<&str>, &str>,
) -> TokenSources {
    TokenSources {
        cached: cached.map(|s| s.to_string()),
        env_override: env_override.map(|s| s.to_string()),
        file: file.map(|o| o.map(|s| s.to_string())).map_err(|e| e.to_string()),
    }
}

#[test]
fn an_equal_credential_is_valid() {
    assert!(validate("s3cret-token", "s3cret-token"));
    assert!(validate("", ""));
    assert!(validate("gr\u{fc}n", "gr\u{fc}n"));
}

#[test]
fn a_credential_of_another_length_is_invalid() {
    assert!(!validate("s3cret-toke", "s3cret-token"));
    assert!(!validate("s3cret-token!", "s3cret-token"));
    assert!(!validate("", "s3cret-token"));
    assert!(!validate("s3cret-token", ""));
}

#[test]
fn a_single_differing_byte_is_invalid_wherever_it_lies() {
    let expected = "0123456789abcdef0123456789abcdef";
    for i in 0..expected.len() {
        let mut bytes = expected.as_bytes().to_vec();
        bytes[i] ^= 0x01;
        let presented = String::from_utf8(bytes).unwrap();
        assert!(!validate(&presented, expected), "difference at {i}");
    }
}

#[test]
fn bytes_are_compared_from_the_given_start() {
    assert!(constant_time_eq_at(b"Bearer abc", 7, b"abc"));
    assert!(!constant_time_eq_at(b"Bearer abc", 6, b"abc"));
    assert!(!constant_time_eq_at(b"Bearer abd", 7, b"abc"));
    assert!(constant_time_eq_at(b"abc", 3, b""));
    assert!(constant_time_eq_at(b"", 0, b""));
    assert!(!constant_time_eq_at(b"abc", 0, b"ab"));
}

#[test]
fn a_bearer_header_with_the_secret_is_authorised() {
    assert!(validate_auth_header(&headers(Some("Bearer tok-123")), &secret("tok-123")));
}

#[test]
fn a_wrong_or_missing_header_is_refused() {
    let expected = secret("tok-123");
    assert!(!validate_auth_header(&headers(None), &expected));
    assert!(!validate_auth_header(&headers(Some("")), &expected));
    assert!(!validate_auth_header(&headers(Some("tok-123")), &expected));
    assert!(!validate_auth_header(&headers(Some("Bearer")), &expected));
    assert!(!validate_auth_header(&headers(Some("Bearer ")), &expected));
    assert!(!validate_auth_header(&headers(Some("bearer tok-123")), &expected));
    assert!(!validate_auth_header(&headers(Some("Bearer  tok-123")), &expected));
    assert!(!validate_auth_header(&headers(Some("Bearer tok-124")), &expected));
    assert!(!validate_auth_header(&headers(Some("Bearer tok-12")), &expected));
    assert!(!validate_auth_header(&headers(Some("Bearer tok-1234")), &expected));
    assert!(!validate_auth_header(&headers(Some("Basic tok-123")), &expected));
}

#[test]
fn an_empty_secret_matches_only_the_bare_prefix() {
    assert!(validate_auth_header(&headers(Some("Bearer ")), &secret("")));
    assert!(!validate_auth_header(&headers(Some("Bearer x")), &secret("")));
}

#[test]
fn a_secret_that_cannot_be_resolved_refuses_everyone() {
    let expected: Result<String, String> = Err("Unable to find HOME directory".to_string());
    assert!(!validate_auth_header(&headers(Some("Bearer tok-123")), &expected));
    assert!(!validate_auth_header(&headers(Some("Bearer ")), &expected));
    assert!(!validate_auth_header(&headers(None), &expected));
}

#[test]
fn a_generated_token_is_sixty_four_lower_case_hex_digits() {
    assert_eq!(TOKEN_BYTES, 32);
    let token = generate_secure_token();
    assert_eq!(token.len(), 64);
    assert!(token.bytes().all(|b| b.is_ascii_digit() || (b'a'..=b'f').contains(&b)));
}

#[test]
fn generated_tokens_differ() {
    assert_ne!(generate_secure_token(), generate_secure_token());
}

#[test]
fn the_cached_secret_comes_first() {
    let r = get_or_create_auth_token(sources(Some("c"), Some("e"), Ok(Some("f")))).unwrap();
    assert_eq!((r.token.as_str(), r.origin), ("c", TokenOrigin::Cache));
    let r = get_or_create_auth_token(sources(Some("c"), None, Err("unreadable"))).unwrap();
    assert_eq!((r.token.as_str(), r.origin), ("c", TokenOrigin::Cache));
}

#[test]
fn the_environment_overrides_the_file() {
    let r = get_or_create_auth_token(sources(None, Some("e"), Ok(Some("f")))).unwrap();
    assert_eq!((r.token.as_str(), r.origin), ("e", TokenOrigin::Environment));
    let r = get_or_create_auth_token(sources(None, Some("e"), Err("unreadable"))).unwrap();
    assert_eq!((r.token.as_str(), r.origin), ("e", TokenOrigin::Environment));
    let r = get_or_create_auth_token(sources(None, Some(""), Ok(Some("f")))).unwrap();
    assert_eq!((r.token.as_str(), r.origin), ("", TokenOrigin::Environment));
}

#[test]
fn the_file_is_read_without_the_white_space_around_it() {
    let r = get_or_create_auth_token(sources(None, None, Ok(Some("  abc123\n")))).unwrap();
    assert_eq!((r.token.as_str(), r.origin), ("abc123", TokenOrigin::File));
    let r = get_or_create_auth_token(sources(None, None, Ok(Some("a b")))).unwrap();
    assert_eq!((r.token.as_str(), r.origin), ("a b", TokenOrigin::File));
}

#[test]
fn an_empty_or_missing_file_gives_a_generated_secret() {
    for file in [Ok(None), Ok(Some("")), Ok(Some(" \n\t "))] {
        let r = get_or_create_auth_token(sources(None, None, file)).unwrap();
        assert_eq!(r.origin, TokenOrigin::Generated);
        assert_eq!(r.token.len(), 64);
        assert!(r.token.bytes().all(|b| b.is_ascii_digit() || (b'a'..=b'f').contains(&b)));
    }
}

#[test]
fn a_file_that_cannot_be_read_fails_closed() {
    let r = get_or_create_auth_token(sources(None, None, Err("Failed to read auth token file: denied")));
    assert_eq!(r.unwrap_err(), "Failed to read auth token file: denied");
}

#[test]
fn choosing_takes_the_file_token_as_it_is_given() {
    match choose_token(None, None, Ok(Some(" x ".to_string()))) {
        TokenChoice::Use(t) => assert_eq!((t.token.as_str(), t.origin), (" x ", TokenOrigin::File)),
        other => panic!("{other:?}"),
    }
    assert!(matches!(choose_token(None, None, Ok(Some(String::new()))), TokenChoice::Generate));
    assert!(matches!(choose_token(None, None, Ok(None)), TokenChoice::Generate));
    match choose_token(None, None, Err("why".to_string())) {
        TokenChoice::Fail(m) => assert_eq!(m, "why"),
        other => panic!("{other:?}"),
    }
    match choose_token(Some("c".to_string()), None, Err("why".to_string())) {
        TokenChoice::Use(t) => assert_eq!((t.token.as_str(), t.origin), ("c", TokenOrigin::Cache)),
        other => panic!("{other:?}"),
    }
}
