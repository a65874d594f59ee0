//! Certificate-trust decision engine for a legacy TLS compatibility shim.
//!
//! The engine validates a server certificate chain against a shared trust
//! anchor store, classifies the outcome, maps it to a legacy OpenSSL-style
//! numeric status code, records that code in a result register, and filters
//! the final pass/fail decision through a configurable verify mode under
//! which failures may be advisory rather than fatal.

use vstd::prelude::*;

mod codes;
mod engine;
mod laws;
mod mode;
mod outcome;
pub mod tls;

pub use codes::X509_V_ERR_CERT_HAS_EXPIRED;
pub use codes::X509_V_ERR_CERT_NOT_YET_VALID;
pub use codes::X509_V_ERR_CERT_REVOKED;
pub use codes::X509_V_ERR_HOSTNAME_MISMATCH;
pub use codes::X509_V_ERR_INVALID_PURPOSE;
pub use codes::X509_V_ERR_UNABLE_TO_GET_ISSUER_CERT_LOCALLY;
pub use codes::X509_V_ERR_UNSPECIFIED;
pub use codes::X509_V_OK;
pub use codes::error_code;
pub use codes::is_legacy_code;
pub use codes::spec_decision;
pub use codes::spec_error_code;
pub use codes::spec_outcome_code;
pub use laws::lemma_advisory_mode_always_passes;
pub use laws::lemma_expired_recorded_regardless_of_mode;
pub use laws::lemma_hostname_mismatch_fails_mandatory;
pub use laws::lemma_mismatch_code_only_from_mismatch;
pub use laws::lemma_only_success_records_ok;
pub use laws::lemma_register_holds_legacy_code;
pub use laws::lemma_success_records_ok;
pub use laws::lemma_unknown_issuer_recorded;
pub use mode::VerifyMode;
pub use outcome::ErrorKind;
pub use engine::ServerVerifier;

verus! {

} // verus!
