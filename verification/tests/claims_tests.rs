use bearer_auth::body::protected_text;
use bearer_auth::claims::{field_named, Claims, PayloadField, PayloadValue};
use bearer_auth::errors::AuthError;
use bearer_auth::frame::{has_three_segments, DELIMITER};
use bearer_auth::keys::Keys;
use bearer_auth::text::str_eq;

fn claims() -> Claims {
    Claims { sub: "b@b.com".to_string(), company: "ACME".to_string(), exp: 1_700_000_300 }
}

fn field(name: &str, value: PayloadValue) -> PayloadField {
    PayloadField { name: name.to_string(), value }
}

fn text(value: &str) -> PayloadValue {
    PayloadValue::Text(value.to_string())
}

#[test]
fn claims_become_three_fields_in_order() {
    let fields = claims().to_fields();
    assert_eq!(fields.len(), 3);
    assert_eq!(fields[0].name, "sub");
    assert!(matches!(&fields[0].value, PayloadValue::Text(t) if t == "b@b.com"));
    assert_eq!(fields[1].name, "company");
    assert!(matches!(&fields[1].value, PayloadValue::Text(t) if t == "ACME"));
    assert_eq!(fields[2].name, "exp");
    assert!(matches!(&fields[2].value, PayloadValue::Number(1_700_000_300)));
}

#[test]
fn fields_of_claims_hold_the_claims() {
    let back = Claims::from_fields(&claims().to_fields()).unwrap();
    assert_eq!(back.sub, "b@b.com");
    assert_eq!(back.company, "ACME");
    assert_eq!(back.exp, 1_700_000_300);
}

#[test]
fn fields_are_found_by_name_in_any_order() {
    let fields = vec![
        field("exp", PayloadValue::Number(9)),
        field("extra", PayloadValue::Other),
        field("company", text("c")),
        field("sub", text("s")),
    ];
    let back = Claims::from_fields(&fields).unwrap();
    assert_eq!((back.sub.as_str(), back.company.as_str(), back.exp), ("s", "c", 9));
}

#[test]
fn the_first_field_of_a_name_counts() {
    let fields = vec![
        field("sub", text("first")),
        field("sub", text("second")),
        field("company", text("c")),
        field("exp", PayloadValue::Number(1)),
        field("exp", PayloadValue::Other),
    ];
    assert!(matches!(field_named(&fields, "sub"), Some(PayloadValue::Text(t)) if t == "first"));
    assert!(matches!(field_named(&fields, "exp"), Some(PayloadValue::Number(1))));
    assert!(field_named(&fields, "missing").is_none());
    assert!(field_named(&fields, "Sub").is_none());
    assert!(field_named(&Vec::new(), "sub").is_none());
    assert_eq!(Claims::from_fields(&fields).unwrap().sub, "first");
    let shadowed = vec![
        field("sub", PayloadValue::Other),
        field("sub", text("second")),
        field("company", text("c")),
        field("exp", PayloadValue::Number(1)),
    ];
    assert!(Claims::from_fields(&shadowed).is_none());
}

#[test]
fn fields_without_a_required_member_hold_no_claims() {
    assert!(Claims::from_fields(&Vec::new()).is_none());
    assert!(Claims::from_fields(&vec![field("company", text("c")), field("exp", PayloadValue::Number(1))])
        .is_none());
    assert!(Claims::from_fields(&vec![field("sub", text("s")), field("exp", PayloadValue::Number(1))]).is_none());
    assert!(Claims::from_fields(&vec![field("sub", text("s")), field("company", text("c"))]).is_none());
}

#[test]
fn fields_of_the_wrong_kind_hold_no_claims() {
    assert!(Claims::from_fields(&vec![
        field("sub", PayloadValue::Number(1)),
        field("company", text("c")),
        field("exp", PayloadValue::Number(1)),
    ])
    .is_none());
    assert!(Claims::from_fields(&vec![
        field("sub", text("s")),
        field("company", PayloadValue::Other),
        field("exp", PayloadValue::Number(1)),
    ])
    .is_none());
    assert!(Claims::from_fields(&vec![
        field("sub", text("s")),
        field("company", text("c")),
        field("exp", text("1")),
    ])
    .is_none());
}

#[test]
fn claims_are_described_in_two_lines() {
    assert_eq!(claims().describe(), "Email: b@b.com\nCompany: ACME");
    let empty = Claims { sub: String::new(), company: String::new(), exp: 0 };
    assert_eq!(empty.describe(), "Email: \nCompany: ");
}

#[test]
fn protected_text_greets_and_shows_the_claims() {
    assert_eq!(
        protected_text(&claims()),
        "Welcome to the protected area :)\nYour data:\nEmail: b@b.com\nCompany: ACME"
    );
}

#[test]
fn texts_are_compared_in_full() {
    assert!(str_eq("", ""));
    assert!(str_eq("abc", "abc"));
    assert!(str_eq("z\u{fc}rich", "z\u{fc}rich"));
    assert!(!str_eq("abc", "abd"));
    assert!(!str_eq("abc", "xbc"));
    assert!(!str_eq("abc", "ab"));
    assert!(!str_eq("", "a"));
    assert!(!str_eq("abc", "ABC"));
    assert!(!str_eq("\u{e9}", "e\u{301}"));
}

#[test]
fn token_shape_is_three_segments() {
    assert_eq!(DELIMITER, '.');
    assert!(has_three_segments("a.b.c"));
    assert!(has_three_segments(".."));
    assert!(has_three_segments("\u{e9}.\u{e9}.\u{e9}"));
    assert!(!has_three_segments(""));
    assert!(!has_three_segments("not-a-token"));
    assert!(!has_three_segments("a.b"));
    assert!(!has_three_segments("a.b.c.d"));
    assert!(!has_three_segments("...."));
}

#[test]
fn keys_are_made_of_a_secret_that_is_not_empty() {
    assert!(Keys::new(b"").is_none());
    assert!(Keys::new(&[]).is_none());
    let keys = Keys::new(b"JWT_SECRET").unwrap();
    assert_eq!(keys.signing_key(), b"JWT_SECRET");
    assert_eq!(keys.verification_key(), b"JWT_SECRET");
    let short = Keys::new(&[0]).unwrap();
    assert_eq!(short.signing_key(), &[0]);
    assert_eq!(short.verification_key(), short.signing_key());
}

#[test]
fn error_kinds_map_to_status_and_message() {
    assert_eq!(AuthError::WrongCredentials.status_code(), 401);
    assert_eq!(AuthError::MissingCredentials.status_code(), 400);
    assert_eq!(AuthError::TokenCreation.status_code(), 500);
    assert_eq!(AuthError::InvalidToken.status_code(), 400);
    assert_eq!(AuthError::WrongCredentials.message(), "Wrong credentials");
    assert_eq!(AuthError::MissingCredentials.message(), "Missing credentials");
    assert_eq!(AuthError::TokenCreation.message(), "Token creation error");
    assert_eq!(AuthError::InvalidToken.message(), "Invalid token");
}
