use axum_extra::headers::authorization::Bearer;
use axum_extra::headers::{Authorization, Header};
use bearer_auth::bearer::{authenticate, authenticate_at, bearer_token};
use bearer_auth::errors::AuthError;
use bearer_auth::keys::Keys;
use bearer_auth::token::issue_at;

fn keys() -> Keys {
    Keys::new(b"JWT_SECRET").unwrap()
}

fn decoded_by_headers(value: &str) -> Option<String> {
    let value = axum::http::HeaderValue::from_bytes(value.as_bytes()).ok()?;
    let decoded = Authorization::<Bearer>::decode(&mut std::iter::once(&value)).ok()?;
    Some(decoded.token().to_string())
}

#[test]
fn bearer_token_is_what_follows_the_scheme() {
    assert_eq!(bearer_token("Bearer abc"), Some("abc"));
    assert_eq!(bearer_token("Bearer fpKL54jvWmEGVoRdCNjG"), Some("fpKL54jvWmEGVoRdCNjG"));
    assert_eq!(bearer_token("Bearer a.b.c"), Some("a.b.c"));
    assert_eq!(bearer_token("Bearer abc def"), Some("abc def"));
    assert_eq!(bearer_token("Bearer abc "), Some("abc "));
}

#[test]
fn bearer_scheme_is_read_in_either_case() {
    assert_eq!(bearer_token("bearer abc"), Some("abc"));
    assert_eq!(bearer_token("BEARER abc"), Some("abc"));
    assert_eq!(bearer_token("bEaReR abc"), Some("abc"));
}

#[test]
fn blanks_before_the_token_are_dropped() {
    assert_eq!(bearer_token("Bearer   abc"), Some("abc"));
    assert_eq!(bearer_token("Bearer \t abc"), Some("abc"));
    assert_eq!(bearer_token("Bearer "), Some(""));
    assert_eq!(bearer_token("Bearer    "), Some(""));
    assert_eq!(bearer_token("Bearer  \t"), Some(""));
}

#[test]
fn other_schemes_present_no_bearer_token() {
    for value in [
        "",
        "Bearer",
        "Beare",
        "Basic QWxhZGRpbjpvcGVuIHNlc2FtZQ==",
        "Bearerabc",
        "Bearer\tabc",
        " Bearer abc",
        "Bearers abc",
        "Token abc",
        "abc",
        "Bear er abc",
    ] {
        assert_eq!(bearer_token(value), None, "{:?}", value);
    }
}

#[test]
fn text_that_no_header_can_hold_presents_no_bearer_token() {
    for value in ["Bearer ab\u{e9}", "Bearer abc\n", "Bearer a\u{0}b", "Bearer abc\u{7f}", "Bearer \r\nabc", "B\u{e9}arer abc"] {
        assert_eq!(bearer_token(value), None, "{:?}", value);
    }
}

#[test]
fn bearer_token_agrees_with_the_headers_crate() {
    let samples = [
        "Bearer abc",
        "bearer abc",
        "BEARER  \t abc ",
        "Bearer ",
        "Bearer",
        "Bearer\tabc",
        "Basic abc",
        "Bearer a\u{e9}",
        "Bearer a\u{7f}",
        "Bearer a\u{1}",
        "",
        "Bearerx abc",
        "Bearer eyJ0eXAiOiJKV1QiLCJhbGciOiJIUzI1NiJ9.e30.abc-_",
    ];
    for value in samples {
        assert_eq!(bearer_token(value).map(|t| t.to_string()), decoded_by_headers(value), "{:?}", value);
    }
    for first in 0u8..128 {
        for second in [b' ', b'\t', b'a', b'~', 0x7f, 0x1f] {
            let value = String::from_utf8(vec![b'B', b'e', b'a', b'r', b'e', b'r', first, second, b'x']).unwrap();
            assert_eq!(
                bearer_token(&value).map(|t| t.to_string()),
                decoded_by_headers(&value),
                "{:?}",
                value
            );
        }
    }
}

#[test]
fn request_without_a_header_is_invalid() {
    assert_eq!(authenticate_at(&keys(), None, 7).unwrap_err(), AuthError::InvalidToken);
    assert_eq!(authenticate(&keys(), None).unwrap_err(), AuthError::InvalidToken);
}

#[test]
fn request_with_another_scheme_is_invalid() {
    let keys = keys();
    let token = issue_at(&keys, "b@b.com", "ACME", 1_700_000_000).unwrap();
    for value in [format!("Basic {}", token), token.clone(), format!("Bearer{}", token), String::new()] {
        assert_eq!(
            authenticate_at(&keys, Some(&value), 1_700_000_000).unwrap_err(),
            AuthError::InvalidToken
        );
    }
}

#[test]
fn request_with_a_valid_token_gives_its_claims() {
    let keys = keys();
    let token = issue_at(&keys, "b@b.com", "ACME", 1_700_000_000).unwrap();
    for value in [format!("Bearer {}", token), format!("bearer   {}", token)] {
        let claims = authenticate_at(&keys, Some(&value), 1_700_000_300).unwrap();
        assert_eq!(claims.sub, "b@b.com");
        assert_eq!(claims.company, "ACME");
        assert_eq!(claims.exp, 1_700_000_300);
    }
}

#[test]
fn request_with_an_expired_or_forged_token_is_invalid() {
    let keys = keys();
    let token = issue_at(&keys, "b@b.com", "ACME", 1_700_000_000).unwrap();
    let value = format!("Bearer {}", token);
    assert_eq!(
        authenticate_at(&keys, Some(&value), 1_700_000_301).unwrap_err(),
        AuthError::InvalidToken
    );
    assert_eq!(authenticate(&keys, Some(&value)).unwrap_err(), AuthError::InvalidToken);
    let other = Keys::new(b"another secret").unwrap();
    assert_eq!(
        authenticate_at(&other, Some(&value), 1_700_000_000).unwrap_err(),
        AuthError::InvalidToken
    );
    assert_eq!(
        authenticate_at(&keys, Some("Bearer not-a-token"), 1_700_000_000).unwrap_err(),
        AuthError::InvalidToken
    );
    assert_eq!(authenticate_at(&keys, Some("Bearer "), 0).unwrap_err(), AuthError::InvalidToken);
}

#[test]
fn request_is_authenticated_by_the_clock() {
    let keys = keys();
    let token = bearer_auth::token::issue(&keys, "b@b.com", "ACME").unwrap();
    let value = format!("Bearer {}", token);
    let claims = authenticate(&keys, Some(&value)).unwrap();
    assert_eq!(claims.sub, "b@b.com");
    assert_eq!(claims.company, "ACME");
}
