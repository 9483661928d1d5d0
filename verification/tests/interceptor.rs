use rust_server::AuthDecision;
use rust_server::AuthError;
use rust_server::Authentication;
use rust_server::AuthenticationMiddleware;
use rust_server::JwtMETHODS;
use rust_server::TokenError;
use rust_server::generate_jwt;
use rust_server::validate_jwt;

const SECRET: &str = "interceptor-secret";
const NOW: usize = 1_700_000_000;

fn middleware() -> AuthenticationMiddleware {
    Authentication.new_transform(String::from(SECRET))
}

fn cookie_for(subject: &str) -> String {
    generate_jwt(String::from(subject), JwtMETHODS::Default, NOW, SECRET)
}

fn bearer_for(subject: &str) -> String {
    let token = generate_jwt(String::from(subject), JwtMETHODS::Login, NOW, SECRET);
    format!("Bearer {}", token)
}

#[test]
fn open_route_forwards_without_tokens() {
    let mw = middleware();
    assert_eq!(mw.call("/posts", None, None, NOW), AuthDecision::Forward);
    assert_eq!(mw.call("/users/login", None, None, NOW), AuthDecision::Forward);
    assert_eq!(mw.call("/", None, None, NOW), AuthDecision::Forward);
}

#[test]
fn full_success_forwards_with_identity() {
    let mw = middleware();
    let cookie = cookie_for("u1");
    let bearer = bearer_for("u1");
    let decision = mw.call("/posts/7/update", Some(&cookie), Some(&bearer), NOW + 10);
    assert_eq!(decision, AuthDecision::ForwardWithIdentity(String::from("u1")));
}

#[test]
fn subject_mismatch_is_rejected() {
    let mw = middleware();
    let cookie = cookie_for("u1");
    let bearer = bearer_for("u2");
    let decision = mw.call("/posts/7/update", Some(&cookie), Some(&bearer), NOW + 10);
    assert_eq!(decision, AuthDecision::Reject(AuthError::SubjectMismatch));
}

#[test]
fn missing_cookie_is_rejected() {
    let mw = middleware();
    let bearer = bearer_for("u1");
    let decision = mw.call("/posts/7/update", None, Some(&bearer), NOW + 10);
    assert_eq!(decision, AuthDecision::Reject(AuthError::MissingCookie));
}

#[test]
fn missing_header_is_rejected() {
    let mw = middleware();
    let cookie = cookie_for("u1");
    let decision = mw.call("/posts/7/update", Some(&cookie), None, NOW + 10);
    assert_eq!(decision, AuthDecision::Reject(AuthError::MissingHeader));
}

#[test]
fn header_without_bearer_scheme_is_rejected() {
    let mw = middleware();
    let cookie = cookie_for("u1");
    let token = generate_jwt(String::from("u1"), JwtMETHODS::Login, NOW, SECRET);
    for header in [
        format!("Token {}", token),
        format!("bearer {}", token),
        token.clone(),
        String::from("Bearer"),
        String::new(),
    ] {
        let decision = mw.call("/posts/7/update", Some(&cookie), Some(&header), NOW + 10);
        assert_eq!(decision, AuthDecision::Reject(AuthError::MalformedHeader));
    }
}

#[test]
fn expired_bearer_token_is_rejected() {
    let mw = middleware();
    let cookie = cookie_for("u1");
    let bearer = bearer_for("u1");
    // The bearer token lives one hour; the cookie token is still valid then.
    let decision = mw.call("/posts/7/update", Some(&cookie), Some(&bearer), NOW + 3_600);
    assert_eq!(
        decision,
        AuthDecision::Reject(AuthError::HeaderToken(TokenError::Expired))
    );
}

#[test]
fn expired_cookie_token_is_rejected_first() {
    let mw = middleware();
    let cookie = generate_jwt(String::from("u1"), JwtMETHODS::Login, NOW, SECRET);
    let bearer = bearer_for("u1");
    // Both tokens are expired; the cookie is checked first.
    let decision = mw.call("/posts/7/update", Some(&cookie), Some(&bearer), NOW + 3_600);
    assert_eq!(
        decision,
        AuthDecision::Reject(AuthError::CookieToken(TokenError::Expired))
    );
}

#[test]
fn foreign_cookie_token_is_a_bad_signature() {
    let mw = middleware();
    let cookie = generate_jwt(String::from("u1"), JwtMETHODS::Default, NOW, "other-secret");
    let bearer = bearer_for("u1");
    let decision = mw.call("/posts/7/update", Some(&cookie), Some(&bearer), NOW + 10);
    assert_eq!(
        decision,
        AuthDecision::Reject(AuthError::CookieToken(TokenError::BadSignature))
    );
}

#[test]
fn garbage_header_token_is_malformed() {
    let mw = middleware();
    let cookie = cookie_for("u1");
    let header = String::from("Bearer definitely-not-a-token");
    let decision = mw.call("/posts/7/update", Some(&cookie), Some(&header), NOW + 10);
    assert_eq!(
        decision,
        AuthDecision::Reject(AuthError::HeaderToken(TokenError::Malformed))
    );
}

#[test]
fn validator_returns_the_verified_subject() {
    let cookie = cookie_for("u1");
    let bearer = bearer_for("u1");
    let verdict = validate_jwt(&cookie, Some(&bearer), SECRET, NOW + 10);
    assert_eq!(verdict, Ok(String::from("u1")));
}

#[test]
fn auth_error_messages() {
    assert_eq!(AuthError::MissingCookie.message(), "auth_token cookie not found!");
    assert_eq!(
        AuthError::MissingHeader.message(),
        "Authorization header not found!"
    );
    assert_eq!(
        AuthError::MalformedHeader.message(),
        "malformed Authorization header"
    );
    assert_eq!(
        AuthError::CookieToken(TokenError::Expired).message(),
        "Invalid JWT in auth_token cookie: token expired"
    );
    assert_eq!(
        AuthError::HeaderToken(TokenError::BadSignature).message(),
        "Invalid JWT in Authorization header: invalid signature"
    );
    assert_eq!(
        AuthError::SubjectMismatch.message(),
        "User ID mismatch between cookie and header!"
    );
}
