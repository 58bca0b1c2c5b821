//! Identity helpers for the service around the engine: password hashing and
//! verification, token claims and issuing, bearer-header parsing, and the
//! checks a registration payload must pass.
//!
//! The engine itself never authenticates anyone: it is handed an already
//! resolved actor id.  These helpers are what the surrounding service uses
//! to resolve that identity.

use vstd::prelude::*;
use vstd::string::StrSliceExecFns;

use argon2::PasswordHasher;
use argon2::PasswordVerifier;

verus! {

/// The claims carried by an access token: the subject (a user id rendered as
/// text) and the expiry as Unix seconds.
#[derive(Clone, Debug, PartialEq, Eq)]
pub struct Claims {
    pub sub: String,
    pub exp: usize,
}

/// Body of a login call.
#[derive(Clone, Debug, PartialEq, Eq)]
pub struct LoginDto {
    pub email: String,
    pub password: String,
}

/// A registration payload.  Identities are 128-bit user ids.
#[derive(Clone, Debug, PartialEq, Eq)]
pub struct CreateUserDto {
    pub email: String,
    pub password: String,
    pub full_name: String,
    pub position: Option<String>,
    pub department_id: Option<u128>,
}

pub uninterp spec fn password_matches(hash: Seq<char>, password: Seq<char>) -> bool;

/// Relies on argon2's `PasswordVerifier::verify_password` (with PHC-string
/// parsing): whether a password matches a stored PHC hash depends on the two
/// strings alone.  An unparseable hash never matches.
#[verifier::external_body]
pub fn verify_password(hash: &str, password: &str) -> (r: bool)
    ensures
        r == password_matches(hash@, password@),
{
    argon2::Argon2::default().verify_password(password.as_bytes(), hash).is_ok()
}

/// Relies on argon2's `PasswordHasher::hash_password`, which hashes the
/// password with a fresh random salt and renders the PHC string.  The salt is
/// random, so nothing more is claimed of the text than what argon2 documents:
/// verifying the produced hash against the same password succeeds.
#[verifier::external_body]
pub fn hash_password(password: &str) -> (r: Result<String, String>)
    ensures
        r matches Ok(h) ==> password_matches(h@, password@),
{
    argon2::Argon2::default()
        .hash_password(password.as_bytes())
        .map(|hash| hash.to_string())
        .map_err(|e| e.to_string())
}

pub uninterp spec fn jwt_of(sub: Seq<char>, exp: int, secret: Seq<u8>) -> Seq<char>;

/// Relies on jsonwebtoken's `encode` with the default (HS256) header: the
/// token is a function of the claims and the signing secret alone.  On the
/// HS256 path of the crate's built-in provider nothing can fail — an HMAC
/// key of any length is accepted, signing is total, and these claims always
/// serialize — so a token is always returned.
#[verifier::external_body]
fn jwt_encode(claims: &Claims, secret: &[u8]) -> (r: Result<String, String>)
    ensures
        r is Ok,
        r matches Ok(t) ==> t@ == jwt_of(claims.sub@, claims.exp as int, secret@),
{
    let mut map = serde_json::Map::new();
    map.insert("sub".to_string(), serde_json::Value::String(claims.sub.clone()));
    map.insert("exp".to_string(), serde_json::Value::from(claims.exp as u64));
    jsonwebtoken::encode(
        &jsonwebtoken::Header::default(),
        &serde_json::Value::Object(map),
        &jsonwebtoken::EncodingKey::from_secret(secret),
    )
    .map_err(|e| e.to_string())
}

/// How long an issued token stays valid, in seconds: one day.
pub const TOKEN_LIFETIME_SECS: usize = 86400;

impl Claims {
    /// The claims issued at time `now` (Unix seconds): the subject as given
    /// and an expiry one day later.
    pub fn new(sub: String, now: usize) -> (r: Claims)
        requires
            now + TOKEN_LIFETIME_SECS <= usize::MAX,
        ensures
            r.sub == sub,
            r.exp == now + TOKEN_LIFETIME_SECS,
    {
        Claims { sub, exp: now + TOKEN_LIFETIME_SECS }
    }
}

/// Issue a signed access token for subject `sub` at time `now` (Unix
/// seconds), expiring one day later, signed with `secret`.
pub fn create_jwt(sub: String, now: usize, secret: &[u8]) -> (r: Result<String, String>)
    requires
        now + TOKEN_LIFETIME_SECS <= usize::MAX,
    ensures
        r is Ok,
        r matches Ok(t) ==> t@ == jwt_of(sub@, now + TOKEN_LIFETIME_SECS, secret@),
{
    let claims = Claims::new(sub, now);
    jwt_encode(&claims, secret)
}

/// The token carried by an Authorization header value: present exactly when
/// the header starts with `"Bearer "`, and then everything after that prefix.
pub open spec fn spec_bearer_token(header: Seq<char>) -> Option<Seq<char>> {
    if header.len() >= 7 && header.subrange(0, 7) == "Bearer "@ {
        Some(header.skip(7))
    } else {
        None
    }
}

/// Split a `"Bearer <token>"` header value into its token.
pub fn parse_bearer(header: &str) -> (r: Option<&str>)
    ensures
        r matches Some(t) ==> spec_bearer_token(header@) == Some(t@),
        r is None ==> spec_bearer_token(header@) is None,
{
    proof {
        reveal_strlit("Bearer ");
    }
    let len = header.unicode_len();
    if len < 7 {
        return None;
    }
    if header.get_char(0) != 'B' || header.get_char(1) != 'e' || header.get_char(2) != 'a'
        || header.get_char(3) != 'r' || header.get_char(4) != 'e' || header.get_char(5) != 'r'
        || header.get_char(6) != ' ' {
        proof {
            if header@.subrange(0, 7) == "Bearer "@ {
                assert(forall|k: int|
                    0 <= k < 7 ==> header@.subrange(0, 7)[k] == #[trigger] header@[k]);
                assert(header@[0] == 'B' && header@[1] == 'e' && header@[2] == 'a' && header@[3]
                    == 'r' && header@[4] == 'e' && header@[5] == 'r' && header@[6] == ' ');
            }
        }
        return None;
    }
    let token = header.substring_char(7, len);
    proof {
        assert(header@.subrange(0, 7) =~= "Bearer "@);
        assert(token@ =~= header@.skip(7));
    }
    Some(token)
}

pub uninterp spec fn valid_email(s: Seq<char>) -> bool;

/// Relies on validator's `ValidateEmail::validate_email`: whether a string is
/// a well-formed email address depends on the string alone.
#[verifier::external_body]
fn email_ok(s: &str) -> (r: bool)
    ensures
        r == valid_email(s@),
{
    validator::ValidateEmail::validate_email(&s)
}

/// What a registration payload must satisfy: a well-formed email address, a
/// password of at least 6 characters, and a full name of at least 2.
pub open spec fn spec_new_user_valid(dto: &CreateUserDto) -> bool {
    valid_email(dto.email@) && dto.password@.len() >= 6 && dto.full_name@.len() >= 2
}

/// Check a registration payload, exactly as [`spec_new_user_valid`] says.
pub fn validate_new_user(dto: &CreateUserDto) -> (r: bool)
    ensures
        r == spec_new_user_valid(dto),
{
    email_ok(dto.email.as_str()) && dto.password.as_str().unicode_len() >= 6
        && dto.full_name.as_str().unicode_len() >= 2
}

} // verus!
