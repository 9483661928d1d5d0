//! Token codec: issuing and verifying compact signed session tokens.
//!
//! A token carries a subject identifier and an expiry instant (epoch
//! seconds) and is signed with a process-wide symmetric secret.  Validity
//! is determined purely by the signature and the expiry; nothing is kept
//! server-side.  The current time is always an explicit argument, so the
//! codec itself is a pure function of its inputs.

use vstd::prelude::*;

verus! {

/// The lifetime tier chosen by the caller when a token is issued.
#[derive(Clone, Copy, Debug, PartialEq, Eq, Structural)]
pub enum JwtMETHODS {
    Default,
    PasswordReset,
    Login,
}

impl JwtMETHODS {
    /// Lifetime of a token issued under this policy, in seconds.
    pub open spec fn spec_lifetime(self) -> usize {
        match self {
            JwtMETHODS::Default => 604800,
            JwtMETHODS::PasswordReset => 86400,
            JwtMETHODS::Login => 3600,
        }
    }

    /// Seven days for session establishment, one day for password
    /// resets, one hour for short-lived re-authentication tokens.
    pub fn lifetime(self) -> (r: usize)
        ensures
            r == self.spec_lifetime(),
    {
        match self {
            JwtMETHODS::Default => 60 * 60 * 24 * 7,
            JwtMETHODS::PasswordReset => 60 * 60 * 24,
            JwtMETHODS::Login => 60 * 60,
        }
    }
}

/// The payload of a signed token: subject identifier and expiry instant.
#[derive(Debug, PartialEq, Eq)]
pub struct Claims {
    pub sub: String,
    pub exp: usize,
}

/// Why a token failed verification.
#[derive(Clone, Copy, Debug, PartialEq, Eq, Structural)]
pub enum TokenError {
    /// The signature does not match the secret.
    BadSignature,
    /// The signature matches but the expiry is not in the future.
    Expired,
    /// The token is structurally invalid (shape, encoding, or payload).
    Malformed,
}

impl TokenError {
    /// The human-readable reason attached to a rejection.
    pub open spec fn spec_message(self) -> Seq<char> {
        match self {
            TokenError::BadSignature => "invalid signature"@,
            TokenError::Expired => "token expired"@,
            TokenError::Malformed => "malformed token"@,
        }
    }

    pub fn message(self) -> (r: String)
        ensures
            r@ == self.spec_message(),
    {
        match self {
            TokenError::BadSignature => String::from_str("invalid signature"),
            TokenError::Expired => String::from_str("token expired"),
            TokenError::Malformed => String::from_str("malformed token"),
        }
    }
}

/// The token that signing a subject and an expiry with a secret produces.
/// The signing algorithm is fixed, so the result is a function of these
/// three values alone.
pub uninterp spec fn jwt_of(sub: Seq<char>, exp: usize, secret: Seq<char>) -> Seq<char>;

/// The payload that signature checking recovers from a token under a
/// secret: the subject and expiry that were signed, or `None` when the
/// token is not a well-formed token signed with that secret or its
/// payload does not carry a string subject and a representable integer
/// expiry.
pub uninterp spec fn jwt_payload(token: Seq<char>, secret: Seq<char>) -> Option<(Seq<char>, usize)>;

/// Relies on `jsonwebtoken::encode` with `Algorithm::HS256` and an HMAC
/// key: the token is a deterministic function of the claims and the
/// secret, and `jsonwebtoken::decode` recovers from it exactly the claims
/// that were signed.  With an HMAC key, a fixed HS256 header and a claims
/// object made only of a string and an integer, every error path of
/// `encode` (key/algorithm family mismatch, unserialisable claims) is
/// unreachable, so the call cannot fail.
#[verifier::external_body]
fn jwt_encode(sub: &String, exp: usize, secret: &str) -> (t: String)
    ensures
        t@ == jwt_of(sub@, exp, secret@),
        jwt_payload(t@, secret@) == Some((sub@, exp)),
{
    let mut claims = serde_json::Map::new();
    claims.insert("sub".to_string(), serde_json::Value::String(sub.clone()));
    claims.insert("exp".to_string(), serde_json::Value::from(exp as u64));
    let header = jsonwebtoken::Header::new(jsonwebtoken::Algorithm::HS256);
    let key = jsonwebtoken::EncodingKey::from_secret(secret.as_bytes());
    jsonwebtoken::encode(&header, &serde_json::Value::Object(claims), &key)
        .expect("HS256 signing of a string/integer payload cannot fail")
}

/// Relies on `jsonwebtoken::decode` with `Algorithm::HS256` (expiry
/// checking disabled; the caller checks expiry itself): it succeeds
/// exactly when the token is well-formed, its signature matches the
/// secret, and the payload carries a string `sub` and an integer `exp`;
/// a failed signature is told apart from a structurally invalid token by
/// the error kind.
#[verifier::external_body]
fn jwt_decode_raw(token: &str, secret: &str) -> (r: Result<Claims, TokenError>)
    ensures
        r matches Ok(c) ==> jwt_payload(token@, secret@) == Some((c.sub@, c.exp)),
        r is Err ==> jwt_payload(token@, secret@) is None,
        r matches Err(e) ==> e == TokenError::BadSignature || e == TokenError::Malformed,
{
    let key = jsonwebtoken::DecodingKey::from_secret(secret.as_bytes());
    let mut validation = jsonwebtoken::Validation::new(jsonwebtoken::Algorithm::HS256);
    validation.validate_exp = false;
    validation.required_spec_claims.clear();
    let data = jsonwebtoken::decode::<serde_json::Value>(token, &key, &validation)
        .map_err(|e| match e.kind() {
            jsonwebtoken::errors::ErrorKind::InvalidSignature => TokenError::BadSignature,
            _ => TokenError::Malformed,
        })?;
    let exp = data.claims["exp"].as_u64().and_then(|e| usize::try_from(e).ok());
    match (data.claims["sub"].as_str(), exp) {
        (Some(s), Some(e)) => Ok(Claims { sub: s.to_string(), exp: e }),
        _ => Err(TokenError::Malformed),
    }
}

/// Issue a signed token for `user_id` that expires `method`'s lifetime
/// after `now`.
pub fn generate_jwt(user_id: String, method: JwtMETHODS, now: usize, secret: &str) -> (t: String)
    requires
        now + method.spec_lifetime() <= usize::MAX,
    ensures
        t@ == jwt_of(user_id@, (now + method.spec_lifetime()) as usize, secret@),
        jwt_payload(t@, secret@) == Some((user_id@, (now + method.spec_lifetime()) as usize)),
{
    let expiration = now + method.lifetime();
    jwt_encode(&user_id, expiration, secret)
}

/// The subject and expiry that verification at instant `now` accepts:
/// the signed payload, provided the expiry is strictly in the future.
pub open spec fn spec_verify_ok(token: Seq<char>, secret: Seq<char>, now: usize) -> Option<
    (Seq<char>, usize),
> {
    match jwt_payload(token, secret) {
        Some(p) => if p.1 > now {
            Some(p)
        } else {
            None
        },
        None => None,
    }
}

/// Check a token's signature against the secret and its expiry against
/// `now`.  No leeway is granted: a token expiring at exactly the current
/// second is already expired.
pub fn decode_jwt(token: &str, now: usize, secret: &str) -> (r: Result<Claims, TokenError>)
    ensures
        (match jwt_payload(token@, secret@) {
            Some(p) => if p.1 > now {
                r matches Ok(c) && c.sub@ == p.0 && c.exp == p.1
            } else {
                r matches Err(e) && e == TokenError::Expired
            },
            None => r matches Err(e) && (e == TokenError::BadSignature || e
                == TokenError::Malformed),
        }),
        r matches Ok(c) ==> spec_verify_ok(token@, secret@, now) == Some((c.sub@, c.exp)),
        r is Ok <==> spec_verify_ok(token@, secret@, now) is Some,
{
    match jwt_decode_raw(token, secret) {
        Ok(claims) => if claims.exp > now {
            Ok(claims)
        } else {
            Err(TokenError::Expired)
        },
        Err(e) => Err(e),
    }
}

/// Round trip: a token whose signed payload is `(sub, exp)` — as every
/// token issued for `sub` with that expiry is — verifies, at any instant
/// strictly before `exp`, to exactly the subject `sub`.
pub proof fn lemma_round_trip(
    token: Seq<char>,
    sub: Seq<char>,
    exp: usize,
    secret: Seq<char>,
    now: usize,
)
    ensures
        jwt_payload(token, secret) == Some((sub, exp)) && now < exp ==> spec_verify_ok(
            token,
            secret,
            now,
        ) == Some((sub, exp)),
{
}

/// Expiry is a sharp boundary: a token verifies at an instant if and only
/// if that instant is strictly before the signed expiry.
pub proof fn lemma_expiry_boundary(
    token: Seq<char>,
    sub: Seq<char>,
    exp: usize,
    secret: Seq<char>,
    now: usize,
)
    ensures
        jwt_payload(token, secret) == Some((sub, exp)) ==> (spec_verify_ok(token, secret, now)
            is Some <==> now < exp),
{
}

/// Monotonicity: a token that still verifies at a later instant verifies,
/// with the same outcome, at every earlier instant.
pub proof fn lemma_verify_monotonic(token: Seq<char>, secret: Seq<char>, t1: usize, t2: usize)
    ensures
        t1 <= t2 && spec_verify_ok(token, secret, t2) is Some ==> spec_verify_ok(token, secret, t1)
            == spec_verify_ok(token, secret, t2),
{
}

} // verus!
