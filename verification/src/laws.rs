//! Laws of the outcome-to-code mapping and the verify-mode decision.
//!
//! Each proof function states a behaviour the engine guarantees for every
//! verify mode, tying the recorded legacy code and the pass/fail decision
//! together.

use vstd::prelude::*;

use crate::codes::X509_V_ERR_CERT_HAS_EXPIRED;
use crate::codes::X509_V_ERR_HOSTNAME_MISMATCH;
use crate::codes::X509_V_ERR_UNABLE_TO_GET_ISSUER_CERT_LOCALLY;
use crate::codes::X509_V_OK;
use crate::codes::is_legacy_code;
use crate::codes::spec_decision;
use crate::codes::spec_error_code;
use crate::codes::spec_outcome_code;
use crate::mode::VerifyMode;
use crate::outcome::ErrorKind;

verus! {

/// A successful verification attempt records `X509_V_OK` and passes under
/// every verify mode.
pub proof fn lemma_success_records_ok(mode: VerifyMode)
    ensures
        spec_outcome_code(Ok::<(), ErrorKind>(())) == X509_V_OK,
        spec_decision(Ok::<(), ErrorKind>(()), mode),
{
}

/// Only a successful attempt records `X509_V_OK`: every classified failure
/// records a distinct, non-success legacy code.
pub proof fn lemma_only_success_records_ok(outcome: Result<(), ErrorKind>)
    ensures
        spec_outcome_code(outcome) == X509_V_OK <==> outcome matches Ok(_),
{
}

/// Every verification attempt leaves a valid legacy code in the register,
/// never a partially-defined value.
pub proof fn lemma_register_holds_legacy_code(outcome: Result<(), ErrorKind>)
    ensures
        is_legacy_code(spec_outcome_code(outcome)),
{
}

/// An expired certificate records "certificate has expired" regardless of
/// the verify mode; the decision fails under the mandatory mode and passes
/// under the advisory mode.
pub proof fn lemma_expired_recorded_regardless_of_mode(mode: VerifyMode)
    ensures
        spec_outcome_code(Err::<(), ErrorKind>(ErrorKind::Expired)) == X509_V_ERR_CERT_HAS_EXPIRED,
        spec_decision(Err::<(), ErrorKind>(ErrorKind::Expired), mode) == !mode.spec_must_verify(),
{
}

/// An unknown issuer records "unable to get issuer certificate locally"
/// regardless of the verify mode.
pub proof fn lemma_unknown_issuer_recorded(mode: VerifyMode)
    ensures
        spec_outcome_code(Err::<(), ErrorKind>(ErrorKind::UnknownIssuer))
            == X509_V_ERR_UNABLE_TO_GET_ISSUER_CERT_LOCALLY,
        spec_decision(Err::<(), ErrorKind>(ErrorKind::UnknownIssuer), mode)
            == !mode.spec_must_verify(),
{
}

/// The hostname-mismatch code arises from a hostname mismatch and from
/// nothing else — so a verifier without a configured expected name, which
/// never observes that failure, never records the code.
pub proof fn lemma_mismatch_code_only_from_mismatch(kind: ErrorKind)
    ensures
        spec_error_code(kind) == X509_V_ERR_HOSTNAME_MISMATCH <==> kind
            == ErrorKind::HostnameMismatch,
{
}

/// A hostname mismatch records "hostname mismatch", and the decision fails
/// under the mandatory mode.
pub proof fn lemma_hostname_mismatch_fails_mandatory(mode: VerifyMode)
    ensures
        spec_outcome_code(Err::<(), ErrorKind>(ErrorKind::HostnameMismatch))
            == X509_V_ERR_HOSTNAME_MISMATCH,
        mode.spec_must_verify() ==> !spec_decision(
            Err::<(), ErrorKind>(ErrorKind::HostnameMismatch),
            mode,
        ),
{
}

/// Under the advisory mode every attempt passes, whatever its outcome — yet
/// the recorded code still depends on the outcome alone, so the register
/// cannot be inferred from the decision.
pub proof fn lemma_advisory_mode_always_passes(outcome: Result<(), ErrorKind>)
    ensures
        spec_decision(outcome, VerifyMode::Advisory),
{
}

} // verus!
