//! Legacy OpenSSL-style X509 verification result codes.
//!
//! The verifier records its outcome as one of these small integers so that a
//! legacy "get verification result" accessor can report it after the fact.

use vstd::prelude::*;

use crate::mode::VerifyMode;
use crate::outcome::ErrorKind;

verus! {

/// Verification succeeded.
pub const X509_V_OK: i64 = 0;

/// Generic failure code: the initial sentinel before any verification
/// attempt, and the fallback for classified errors without an exact legacy
/// equivalent.
pub const X509_V_ERR_UNSPECIFIED: i64 = 1;

/// The certificate is not yet within its validity window.
pub const X509_V_ERR_CERT_NOT_YET_VALID: i64 = 9;

/// The certificate's validity window has passed.
pub const X509_V_ERR_CERT_HAS_EXPIRED: i64 = 10;

/// No issuer for the certificate could be found in the local trust store.
pub const X509_V_ERR_UNABLE_TO_GET_ISSUER_CERT_LOCALLY: i64 = 20;

/// The certificate has been revoked.
pub const X509_V_ERR_CERT_REVOKED: i64 = 23;

/// The certificate is not valid for the attempted purpose.
pub const X509_V_ERR_INVALID_PURPOSE: i64 = 26;

/// The certificate matches none of the expected host names.
pub const X509_V_ERR_HOSTNAME_MISMATCH: i64 = 62;

/// The codes the result register can ever hold.
pub open spec fn is_legacy_code(code: i64) -> bool {
    ||| code == X509_V_OK
    ||| code == X509_V_ERR_UNSPECIFIED
    ||| code == X509_V_ERR_CERT_NOT_YET_VALID
    ||| code == X509_V_ERR_CERT_HAS_EXPIRED
    ||| code == X509_V_ERR_UNABLE_TO_GET_ISSUER_CERT_LOCALLY
    ||| code == X509_V_ERR_CERT_REVOKED
    ||| code == X509_V_ERR_INVALID_PURPOSE
    ||| code == X509_V_ERR_HOSTNAME_MISMATCH
}

/// The legacy code recorded for each classified failure.
///
/// The enumeration is matched exhaustively, so a new failure kind forces an
/// explicit mapping decision here; kinds without an exact legacy equivalent
/// map to the generic `X509_V_ERR_UNSPECIFIED`.
pub open spec fn spec_error_code(kind: ErrorKind) -> i64 {
    match kind {
        ErrorKind::Parse => X509_V_ERR_UNSPECIFIED,
        ErrorKind::UnknownIssuer => X509_V_ERR_UNABLE_TO_GET_ISSUER_CERT_LOCALLY,
        ErrorKind::NotYetValid => X509_V_ERR_CERT_NOT_YET_VALID,
        ErrorKind::Expired => X509_V_ERR_CERT_HAS_EXPIRED,
        ErrorKind::Revoked => X509_V_ERR_CERT_REVOKED,
        ErrorKind::InvalidPurpose => X509_V_ERR_INVALID_PURPOSE,
        ErrorKind::HostnameMismatch => X509_V_ERR_HOSTNAME_MISMATCH,
        ErrorKind::Signature => X509_V_ERR_UNSPECIFIED,
        ErrorKind::Unspecified => X509_V_ERR_UNSPECIFIED,
    }
}

/// The legacy code recorded for a whole verification attempt: the success
/// code for a success, and the failure's mapped code otherwise.
pub open spec fn spec_outcome_code(outcome: Result<(), ErrorKind>) -> i64 {
    match outcome {
        Ok(_) => X509_V_OK,
        Err(kind) => spec_error_code(kind),
    }
}

/// Whether a verification attempt with this outcome passes under this mode:
/// either the attempt succeeded, or the mode treats failures as advisory.
///
/// The recorded legacy code is deliberately not an input of the mode: a
/// handshake that passes under the advisory mode can still leave a failure
/// code in the register.
pub open spec fn spec_decision(outcome: Result<(), ErrorKind>, mode: VerifyMode) -> bool {
    spec_outcome_code(outcome) == X509_V_OK || !mode.spec_must_verify()
}

/// Maps a classified failure to its legacy code.
pub fn error_code(kind: ErrorKind) -> (code: i64)
    ensures
        code == spec_error_code(kind),
{
    match kind {
        ErrorKind::Parse => X509_V_ERR_UNSPECIFIED,
        ErrorKind::UnknownIssuer => X509_V_ERR_UNABLE_TO_GET_ISSUER_CERT_LOCALLY,
        ErrorKind::NotYetValid => X509_V_ERR_CERT_NOT_YET_VALID,
        ErrorKind::Expired => X509_V_ERR_CERT_HAS_EXPIRED,
        ErrorKind::Revoked => X509_V_ERR_CERT_REVOKED,
        ErrorKind::InvalidPurpose => X509_V_ERR_INVALID_PURPOSE,
        ErrorKind::HostnameMismatch => X509_V_ERR_HOSTNAME_MISMATCH,
        ErrorKind::Signature => X509_V_ERR_UNSPECIFIED,
        ErrorKind::Unspecified => X509_V_ERR_UNSPECIFIED,
    }
}

} // verus!
