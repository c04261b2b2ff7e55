//! Data carried by the authentication tokens.
//!
//! Signing and verifying the tokens is cryptographic work done by the
//! unverified layer; these are the shapes it produces and consumes.

use vstd::prelude::*;

verus! {

/// The pair of tokens a successful login hands out.
#[derive(Debug, Clone)]
pub struct Passport {
    pub access_token: String,
    pub refresh_token: String,
}

/// The claims encoded in an access or refresh token.
#[derive(Debug, Clone)]
pub struct Claims {
    /// The subject: the patient or doctor id, as text.
    pub sub: String,
    pub role: Roles,
    /// Expiry, seconds since the epoch.
    pub exp: usize,
    /// Issued-at, seconds since the epoch.
    pub iat: usize,
}

#[derive(Debug, Clone, Copy, PartialEq, Eq, Structural)]
pub enum Roles {
    Patient,
    Doctor,
}

} // verus!
