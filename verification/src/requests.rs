//! Request payload types.
//!
//! The plain shapes of the request bodies the service accepts.  Checking
//! payload shape (field lengths, address format) is an outside
//! collaborator's job; the pipeline only carries these values.

use vstd::prelude::*;

verus! {

/// The body of a registration request.
pub struct RegisterRequest {
    pub name: String,
    pub email: String,
    pub password: String,
}

/// The body of a login request.
pub struct LoginRequest {
    pub email: String,
    pub password: String,
}

/// The body of a post creation or update request.
pub struct CreatePostRequest {
    pub title: String,
    pub body: String,
}

} // verus!
