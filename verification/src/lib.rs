//! Request authentication pipeline for a blog-style backend: a route
//! classifier, a signed session-token codec, a credential hasher, and
//! the request interceptor that cross-checks a cookie-borne and a
//! header-borne token before a protected request may proceed.

use vstd::prelude::*;

mod auth;
mod hashing;
mod mail;
mod requests;
mod routes;
mod token;

pub use auth::AuthDecision;
pub use auth::AuthError;
pub use auth::Authentication;
pub use auth::AuthenticationMiddleware;
pub use auth::bearer_token;
pub use auth::lemma_subject_binding;
pub use auth::opt_str_view;
pub use auth::result_view;
pub use auth::validate_jwt;
pub use auth::validate_verdict_matches;
pub use hashing::HashError;
pub use hashing::hash_password;
pub use hashing::pw_verifies;
pub use hashing::verify_password;
pub use mail::MailMessage;
pub use mail::MailOptions;
pub use mail::spec_from_line;
pub use requests::CreatePostRequest;
pub use requests::LoginRequest;
pub use requests::RegisterRequest;
pub use routes::PolicyGroup;
pub use routes::ProtectionRequirement;
pub use routes::RouteGroup;
pub use routes::classify;
pub use routes::classify_with;
pub use routes::route_table;
pub use routes::spec_classify;
pub use routes::spec_classify_with;
pub use routes::str_ends_with;
pub use routes::str_ends_with_any;
pub use routes::str_starts_with;
pub use token::Claims;
pub use token::JwtMETHODS;
pub use token::TokenError;
pub use token::decode_jwt;
pub use token::generate_jwt;
pub use token::jwt_of;
pub use token::jwt_payload;
pub use token::lemma_expiry_boundary;
pub use token::lemma_round_trip;
pub use token::lemma_verify_monotonic;
pub use token::spec_verify_ok;

verus! {

} // verus!
