//! Connection options.

use vstd::prelude::*;

verus! {

/// Options for connecting to the RPC server.
#[derive(Debug, Clone)]
pub struct Options {
    /// Whether the server's TLS certificate is checked during the handshake.
    pub tls_verify: bool,
    /// Issuer name registered with the server right after the handshake.
    pub issuer: Option<String>,
}

impl Default for Options {
    fn default() -> (r: Self)
        ensures
            r.tls_verify,
            r.issuer is None,
    {
        Options { tls_verify: true, issuer: None }
    }
}

} // verus!
