use approval_flow::auth::Claims;
use approval_flow::auth::CreateUserDto;
use approval_flow::auth::LoginDto;
use approval_flow::auth::TOKEN_LIFETIME_SECS;
use approval_flow::auth::create_jwt;
use approval_flow::auth::hash_password;
use approval_flow::auth::parse_bearer;
use approval_flow::auth::validate_new_user;
use approval_flow::auth::verify_password;

#[test]
fn hashed_password_verifies_and_others_do_not() {
    let hash = hash_password("password123").unwrap();
    assert!(hash.starts_with("$argon2"));
    assert!(verify_password(&hash, "password123"));
    assert!(!verify_password(&hash, "password124"));
    assert!(!verify_password(&hash, ""));
}

#[test]
fn garbage_hash_never_verifies() {
    assert!(!verify_password("not a phc string", "password123"));
    assert!(!verify_password("", "password123"));
}

#[test]
fn claims_expire_one_day_later() {
    let claims = Claims::new("42".to_string(), 1_000_000);
    assert_eq!(claims.sub, "42");
    assert_eq!(claims.exp, 1_000_000 + TOKEN_LIFETIME_SECS);
}

#[test]
fn issued_token_round_trips_through_decode() {
    let now: usize = 4_000_000_000;
    let token = create_jwt("42".to_string(), now, b"secret").unwrap();
    assert_eq!(token.matches('.').count(), 2);

    let decoded = jsonwebtoken::decode::<serde_json::Value>(
        &token,
        &jsonwebtoken::DecodingKey::from_secret(b"secret"),
        &jsonwebtoken::Validation::default(),
    )
    .unwrap();
    assert_eq!(decoded.claims["sub"], "42");
    assert_eq!(decoded.claims["exp"], (now + TOKEN_LIFETIME_SECS) as u64);
}

#[test]
fn same_claims_and_secret_give_the_same_token() {
    let a = create_jwt("7".to_string(), 4_000_000_000, b"k").unwrap();
    let b = create_jwt("7".to_string(), 4_000_000_000, b"k").unwrap();
    assert_eq!(a, b);
}

#[test]
fn wrong_secret_fails_to_decode() {
    let token = create_jwt("42".to_string(), 4_000_000_000, b"secret").unwrap();
    let decoded = jsonwebtoken::decode::<serde_json::Value>(
        &token,
        &jsonwebtoken::DecodingKey::from_secret(b"other"),
        &jsonwebtoken::Validation::default(),
    );
    assert!(decoded.is_err());
}

#[test]
fn bearer_headers_are_split_on_the_prefix() {
    assert_eq!(parse_bearer("Bearer abc.def.ghi"), Some("abc.def.ghi"));
    assert_eq!(parse_bearer("Bearer "), Some(""));
    assert_eq!(parse_bearer("bearer abc"), None);
    assert_eq!(parse_bearer("Bearer"), None);
    assert_eq!(parse_bearer(""), None);
    assert_eq!(parse_bearer("Basic abc"), None);
}

#[test]
fn registration_checks_email_and_lengths() {
    let good = CreateUserDto {
        email: "kim@example.com".to_string(),
        password: "password123".to_string(),
        full_name: "Kim Manager".to_string(),
        position: Some("Manager".to_string()),
        department_id: Some(3),
    };
    assert!(validate_new_user(&good));

    let bad_email = CreateUserDto { email: "not-an-email".to_string(), ..good.clone() };
    assert!(!validate_new_user(&bad_email));

    let short_password = CreateUserDto { password: "12345".to_string(), ..good.clone() };
    assert!(!validate_new_user(&short_password));

    let short_name = CreateUserDto { full_name: "K".to_string(), ..good.clone() };
    assert!(!validate_new_user(&short_name));
}

#[test]
fn lengths_are_counted_in_characters_not_bytes() {
    let dto = CreateUserDto {
        email: "kim@example.com".to_string(),
        // six characters, seven bytes
        password: "p\u{00e4}sswd".to_string(),
        full_name: "\u{ae40} \u{ad00}\u{b9ac}\u{c790}".to_string(),
        position: None,
        department_id: None,
    };
    assert!(validate_new_user(&dto));

    let five_chars = CreateUserDto { password: "p\u{00e4}ssw".to_string(), ..dto };
    assert!(!validate_new_user(&five_chars));
}

#[test]
fn login_dto_carries_credentials() {
    let dto = LoginDto { email: "kim@example.com".to_string(), password: "pw".to_string() };
    assert_eq!(dto.email, "kim@example.com");
    assert_eq!(dto.password, "pw");
}
