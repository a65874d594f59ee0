//! The classified outcome of a verification attempt.

use vstd::prelude::*;

verus! {

/// The closed taxonomy of classified verification failures.
///
/// Chain validation reports one of `UnknownIssuer`, `NotYetValid`, `Expired`,
/// `Revoked` or `InvalidPurpose`; a configured expected-name check reports
/// `HostnameMismatch`; per-message handshake signature checks report
/// `Signature`; `Parse` covers a malformed end-entity encoding; and
/// `Unspecified` is the catch-all for failures without a precise legacy
/// equivalent.
#[derive(Clone, Copy, Debug, PartialEq, Eq, Structural)]
pub enum ErrorKind {
    /// The end-entity certificate could not be parsed.
    Parse,
    /// No issuer in the trust store signs the presented chain.
    UnknownIssuer,
    /// The certificate is not yet within its validity window.
    NotYetValid,
    /// The certificate's validity window has passed.
    Expired,
    /// The certificate has been revoked.
    Revoked,
    /// The certificate is not valid for server authentication.
    InvalidPurpose,
    /// The certificate matches none of the expected host names.
    HostnameMismatch,
    /// A per-message handshake signature check failed.
    Signature,
    /// Any other classified failure.
    Unspecified,
}

} // verus!
