//! The login payload and the decision applied to the transport's answer.
//! The network exchange itself — sending the credentials and keeping the
//! session cookies — lives outside this crate; the decision whether the
//! exchange authenticated the session is made here.

use vstd::prelude::*;

verus! {

/// The credential pair sent to the login endpoint.
#[derive(Debug)]
pub struct AuthRequest {
    pub access: String,
    pub secret: String,
}

impl AuthRequest {
    /// Bundles a credential pair.
    pub fn new(access: String, secret: String) -> (r: AuthRequest)
        ensures
            r.access == access,
            r.secret == secret,
    {
        AuthRequest { access, secret }
    }
}

/// Whether the status the transport answered means the login succeeded:
/// exactly an HTTP 200.
pub fn login_succeeded(status: u16) -> (r: bool)
    ensures
        r == (status == 200),
{
    status == 200
}

} // verus!
