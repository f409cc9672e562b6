//! The held API credential.
//!
//! The token lives in secrecy's scrubbing wrapper (zeroed on drop, not
//! rendered by `Debug` or `Display`), held behind an opaque handle whose
//! only accessor is an explicit "reveal for this one use" borrow.  Verus
//! refuses a declaration of `SecretBox<S: Zeroize + ?Sized>` itself, so the
//! wrapper sits in a private field of an opaque struct instead.

use secrecy::ExposeSecret;
use vstd::prelude::*;

verus! {

/// An opaque handle on the API token.
#[verifier::external_body]
pub struct Credential {
    inner: secrecy::SecretString,
}

/// The characters the credential holds.
pub uninterp spec fn credential_chars(c: Credential) -> Seq<char>;

impl Credential {
    /// Relies on secrecy's `SecretString::from`: moves the token into the
    /// scrubbing wrapper unchanged.
    #[verifier::external_body]
    pub fn new(token: String) -> (r: Credential)
        ensures
            credential_chars(r) == token@,
    {
        Credential { inner: secrecy::SecretString::from(token) }
    }

    /// Relies on secrecy's `ExposeSecret::expose_secret` for
    /// `SecretBox<str>`: borrows exactly the characters the secret holds.
    #[verifier::external_body]
    pub fn reveal_for_use(&self) -> (r: &str)
        ensures
            r@ == credential_chars(*self),
    {
        self.inner.expose_secret()
    }
}

} // verus!
