//! The verify-mode setting captured when a verifier is constructed.

use vstd::prelude::*;

verus! {

/// Whether a failed certificate verification aborts the handshake or is
/// merely recorded.
///
/// Under `Advisory`, a handshake proceeds even when verification failed; the
/// failure is still observable through the verifier's result register.
#[derive(Clone, Copy, Debug, PartialEq, Eq, Structural)]
pub enum VerifyMode {
    /// Verification failures are observed and recorded, but never fatal.
    Advisory,
    /// Verification failures abort the handshake.
    Mandatory,
}

impl VerifyMode {
    /// Whether a client in this mode must treat a failed server-certificate
    /// verification as fatal.
    pub open spec fn spec_must_verify(self) -> bool {
        self == VerifyMode::Mandatory
    }

    /// Whether the client must treat a failed server-certificate
    /// verification as fatal.
    pub fn client_must_verify_server(&self) -> (r: bool)
        ensures
            r == self.spec_must_verify(),
    {
        match self {
            VerifyMode::Mandatory => true,
            VerifyMode::Advisory => false,
        }
    }
}

} // verus!
