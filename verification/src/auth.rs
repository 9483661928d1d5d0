//! Request interceptor and dual-token validator.
//!
//! Per request: classify the path; if protected, demand a session token
//! from the designated cookie and a bearer token from the authorization
//! header, verify both against the shared secret, cross-check that the
//! two subjects are identical, and either forward the request annotated
//! with the verified identity or reject it.  Every failure is terminal
//! and surfaces immediately; forwarding happens only after all checks in
//! the active branch pass.

use crate::routes::ProtectionRequirement;
use crate::routes::classify;
use crate::routes::spec_classify;
use crate::routes::str_starts_with;
use crate::token::TokenError;
use crate::token::decode_jwt;
use crate::token::jwt_payload;
use crate::token::spec_verify_ok;
use vstd::prelude::*;
use vstd::seq_lib::*;
use vstd::string::StrSliceExecFns;

verus! {

/// Why a protected request was rejected.
#[derive(Clone, Copy, Debug, PartialEq, Eq, Structural)]
pub enum AuthError {
    /// No session token in the designated cookie.
    MissingCookie,
    /// No authorization header.
    MissingHeader,
    /// The authorization header does not carry the bearer scheme.
    MalformedHeader,
    /// The cookie-borne token failed verification.
    CookieToken(TokenError),
    /// The header-borne token failed verification.
    HeaderToken(TokenError),
    /// Both tokens verify but name different subjects.
    SubjectMismatch,
}

impl AuthError {
    /// The human-readable reason attached to the client-facing rejection.
    pub open spec fn spec_message(self) -> Seq<char> {
        match self {
            AuthError::MissingCookie => "auth_token cookie not found!"@,
            AuthError::MissingHeader => "Authorization header not found!"@,
            AuthError::MalformedHeader => "malformed Authorization header"@,
            AuthError::CookieToken(e) => "Invalid JWT in auth_token cookie: "@ + e.spec_message(),
            AuthError::HeaderToken(e) => "Invalid JWT in Authorization header: "@
                + e.spec_message(),
            AuthError::SubjectMismatch => "User ID mismatch between cookie and header!"@,
        }
    }

    pub fn message(self) -> (r: String)
        ensures
            r@ == self.spec_message(),
    {
        match self {
            AuthError::MissingCookie => String::from_str("auth_token cookie not found!"),
            AuthError::MissingHeader => String::from_str("Authorization header not found!"),
            AuthError::MalformedHeader => String::from_str("malformed Authorization header"),
            AuthError::CookieToken(e) => {
                let detail = e.message();
                String::from_str("Invalid JWT in auth_token cookie: ").concat(detail.as_str())
            },
            AuthError::HeaderToken(e) => {
                let detail = e.message();
                String::from_str("Invalid JWT in Authorization header: ").concat(detail.as_str())
            },
            AuthError::SubjectMismatch => String::from_str(
                "User ID mismatch between cookie and header!",
            ),
        }
    }
}

/// The token carried after the bearer scheme in an authorization header.
pub open spec fn bearer_token(header: Seq<char>) -> Seq<char> {
    header.subrange("Bearer "@.len() as int, header.len() as int)
}

/// The view of an optional borrowed string.
pub open spec fn opt_str_view(o: Option<&str>) -> Option<Seq<char>> {
    match o {
        Some(s) => Some(s@),
        None => None,
    }
}

/// The view of the validator's result.
pub open spec fn result_view(r: Result<String, AuthError>) -> Result<Seq<char>, AuthError> {
    match r {
        Ok(s) => Ok(s@),
        Err(e) => Err(e),
    }
}

/// The dual-token validator's verdict relation: which results the
/// validator may return for the given inputs.  Everything is determined
/// except whether an unverifiable token is reported as a bad signature or
/// as malformed, which the codec decides.
pub open spec fn validate_verdict_matches(
    cookie: Seq<char>,
    authorization: Option<Seq<char>>,
    secret: Seq<char>,
    now: usize,
    r: Result<Seq<char>, AuthError>,
) -> bool {
    match authorization {
        None => r == Err::<Seq<char>, AuthError>(AuthError::MissingHeader),
        Some(a) => if !"Bearer "@.is_prefix_of(a) {
            r == Err::<Seq<char>, AuthError>(AuthError::MalformedHeader)
        } else {
            match jwt_payload(cookie, secret) {
                None => r matches Err(AuthError::CookieToken(e)) && (e == TokenError::BadSignature
                    || e == TokenError::Malformed),
                Some(p) => if p.1 <= now {
                    r == Err::<Seq<char>, AuthError>(AuthError::CookieToken(TokenError::Expired))
                } else {
                    match jwt_payload(bearer_token(a), secret) {
                        None => r matches Err(AuthError::HeaderToken(e)) && (e
                            == TokenError::BadSignature || e == TokenError::Malformed),
                        Some(q) => if q.1 <= now {
                            r == Err::<Seq<char>, AuthError>(
                                AuthError::HeaderToken(TokenError::Expired),
                            )
                        } else if p.0 == q.0 {
                            r == Ok::<Seq<char>, AuthError>(q.0)
                        } else {
                            r == Err::<Seq<char>, AuthError>(AuthError::SubjectMismatch)
                        },
                    }
                },
            }
        },
    }
}

/// Cross-check a cookie-borne session token against a header-borne
/// bearer token.  The header must be present and carry the bearer
/// scheme; both tokens must verify against the secret at instant `now`;
/// the two subjects must be identical.  The verified subject of the
/// bearer token is returned; the first failed check rejects and the
/// remaining ones are not run.
pub fn validate_jwt(cookie_token: &str, authorization: Option<&str>, secret: &str, now: usize) -> (r:
    Result<String, AuthError>)
    ensures
        validate_verdict_matches(
            cookie_token@,
            opt_str_view(authorization),
            secret@,
            now,
            result_view(r),
        ),
        r matches Ok(s) ==> (authorization matches Some(a) && ("Bearer "@.is_prefix_of(a@) && (
        spec_verify_ok(cookie_token@, secret@, now) matches Some(p) && (spec_verify_ok(
            bearer_token(a@),
            secret@,
            now,
        ) matches Some(q) && (p.0 == q.0 && s@ == q.0))))),
{
    let auth_val = match authorization {
        Some(a) => a,
        None => {
            return Err(AuthError::MissingHeader);
        },
    };
    if !str_starts_with(auth_val, "Bearer ") {
        return Err(AuthError::MalformedHeader);
    }
    proof {
        reveal_strlit("Bearer ");
    }
    let header_token = auth_val.substring_char(7, auth_val.unicode_len());
    let cookie_data = match decode_jwt(cookie_token, now, secret) {
        Ok(c) => c,
        Err(e) => {
            return Err(AuthError::CookieToken(e));
        },
    };
    let header_data = match decode_jwt(header_token, now, secret) {
        Ok(c) => c,
        Err(e) => {
            return Err(AuthError::HeaderToken(e));
        },
    };
    if cookie_data.sub == header_data.sub {
        Ok(header_data.sub)
    } else {
        Err(AuthError::SubjectMismatch)
    }
}

/// Subject binding: when the cookie-borne and the header-borne token were
/// signed for different subjects, no accepting verdict exists for the
/// pair, even though each token separately verifies.
pub proof fn lemma_subject_binding(
    cookie: Seq<char>,
    authorization: Seq<char>,
    secret: Seq<char>,
    now: usize,
    s: Seq<char>,
)
    ensures
        (jwt_payload(cookie, secret) matches Some(p) && jwt_payload(bearer_token(authorization), secret)
            matches Some(q) && p.0 != q.0) ==> !validate_verdict_matches(
            cookie,
            Some(authorization),
            secret,
            now,
            Ok(s),
        ),
{
}

/// The decision the interceptor hands back for a request.
#[derive(Debug, PartialEq, Eq)]
pub enum AuthDecision {
    /// The route is open: forward with no further work.
    Forward,
    /// All checks passed: forward annotated with the verified identity.
    ForwardWithIdentity(String),
    /// A check failed: reject immediately with the reason.
    Reject(AuthError),
}

/// The factory that wraps the process-wide secret into the per-request
/// interceptor.
pub struct Authentication;

impl Authentication {
    pub fn new_transform(&self, secret: String) -> (r: AuthenticationMiddleware)
        ensures
            r.secret@ == secret@,
    {
        AuthenticationMiddleware { secret }
    }
}

/// The request interceptor: holds the immutable signing secret and
/// decides, per request, whether it may proceed.
pub struct AuthenticationMiddleware {
    pub secret: String,
}

impl AuthenticationMiddleware {
    /// Decide a request.  An open path is forwarded untouched; a
    /// protected path must carry a session token in the designated
    /// cookie and pass dual-token validation, after which the request is
    /// forwarded annotated with the verified identity.
    pub fn call(
        &self,
        path: &str,
        cookie_token: Option<&str>,
        authorization: Option<&str>,
        now: usize,
    ) -> (r: AuthDecision)
        ensures
            spec_classify(path@) is Open ==> r == AuthDecision::Forward,
            spec_classify(path@) is Protected && cookie_token is None ==> r == AuthDecision::Reject(
                AuthError::MissingCookie,
            ),
            spec_classify(path@) is Protected ==> (cookie_token matches Some(c) ==> ((r matches
                AuthDecision::Reject(e) && validate_verdict_matches(
                c@,
                opt_str_view(authorization),
                self.secret@,
                now,
                Err(e),
            )) || (r matches AuthDecision::ForwardWithIdentity(s) && validate_verdict_matches(
                c@,
                opt_str_view(authorization),
                self.secret@,
                now,
                Ok(s@),
            )))),
    {
        match classify(path) {
            ProtectionRequirement::Open => AuthDecision::Forward,
            ProtectionRequirement::Protected(_group) => match cookie_token {
                None => AuthDecision::Reject(AuthError::MissingCookie),
                Some(cookie) => match validate_jwt(cookie, authorization, self.secret.as_str(), now) {
                    Ok(subject) => AuthDecision::ForwardWithIdentity(subject),
                    Err(e) => AuthDecision::Reject(e),
                },
            },
        }
    }
}

} // verus!
