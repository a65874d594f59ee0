//! The certificate-trust decision engine.

use vstd::prelude::*;

use std::sync::Arc;

use rustls::DigitallySignedStruct;
use rustls::RootCertStore;
use rustls::SignatureScheme;
use rustls::client::danger::HandshakeSignatureValid;
use rustls::client::danger::ServerCertVerified;
use rustls::crypto::CryptoProvider;
use rustls::pki_types::CertificateDer;
use rustls::pki_types::ServerName;
use rustls::pki_types::UnixTime;

use crate::codes::X509_V_ERR_HOSTNAME_MISMATCH;
use crate::codes::X509_V_ERR_UNSPECIFIED;
use crate::codes::X509_V_OK;
use crate::codes::error_code;
use crate::codes::is_legacy_code;
use crate::codes::spec_decision;
use crate::codes::spec_error_code;
use crate::codes::spec_outcome_code;
use crate::mode::VerifyMode;
use crate::outcome::ErrorKind;
use crate::tls::chain_to_trust_anchor;
use crate::tls::chain_verdict;
use crate::tls::check_server_name;
use crate::tls::clone_expected_name;
use crate::tls::mapping_complete;
use crate::tls::name_verdict;
use crate::tls::provider_mapping_complete;
use crate::tls::parse_end_entity;
use crate::tls::parse_verdict;
use crate::tls::provider_schemes;
use crate::tls::provider_verify_schemes;
use crate::tls::server_cert_verified;
use crate::tls::tls12_signature_valid;
use crate::tls::tls12_verdict;
use crate::tls::tls13_signature_valid;
use crate::tls::tls13_verdict;

verus! {

/// A server-certificate verifier replicating a selection of legacy OpenSSL
/// behaviours:
///
/// - the transport-supplied server name and the verified certificate name
///   are unrelated: hostname verification uses only the expected name
///   configured at construction,
/// - an absent expected name disables hostname verification entirely,
/// - under the advisory verify mode a failed verification is recorded but
///   not enforced.
///
/// Every verification attempt writes a legacy status code into the result
/// register; before the first attempt the register holds the
/// `X509_V_ERR_UNSPECIFIED` sentinel.
#[derive(Debug)]
pub struct ServerVerifier {
    root_store: Arc<RootCertStore>,
    provider: Arc<CryptoProvider>,
    /// Expected server name; `None` disables hostname verification.
    verify_hostname: Option<ServerName<'static>>,
    mode: VerifyMode,
    last_result: i64,
}

impl ServerVerifier {
    /// The register holds a valid legacy code at all times: the sentinel
    /// from construction, and a mapped outcome code thereafter.
    #[verifier::type_invariant]
    spec fn wf(self) -> bool {
        is_legacy_code(self.last_result)
    }

    /// The verify mode captured at construction.
    pub closed spec fn spec_mode(&self) -> VerifyMode {
        self.mode
    }

    /// The expected server name captured at construction, if any.
    pub closed spec fn spec_expected_name(&self) -> Option<ServerName<'static>> {
        self.verify_hostname
    }

    /// Whether an expected server name was configured.
    pub closed spec fn spec_checks_hostname(&self) -> bool {
        self.verify_hostname is Some
    }

    /// The legacy code the result register holds.
    pub closed spec fn spec_last_result(&self) -> i64 {
        self.last_result
    }

    /// The shared trust anchor store.
    pub closed spec fn spec_roots(&self) -> Arc<RootCertStore> {
        self.root_store
    }

    /// The shared signature-algorithm provider.
    pub closed spec fn spec_provider(&self) -> Arc<CryptoProvider> {
        self.provider
    }

    /// The classified outcome a verification attempt on these inputs is
    /// bound to: the parse verdict on the end entity, then the
    /// chain-validation verdict against this verifier's trust store and
    /// provider, then — only when an expected name was configured — the
    /// name verdict against that name.
    pub open spec fn spec_inner_outcome(
        &self,
        end_entity: CertificateDer<'_>,
        intermediates: Seq<CertificateDer<'_>>,
        now: UnixTime,
    ) -> Result<(), ErrorKind> {
        match parse_verdict(end_entity) {
            Err(kind) => Err(kind),
            Ok(parsed) => match chain_verdict(
                parsed,
                self.spec_roots(),
                intermediates,
                now,
                self.spec_provider(),
            ) {
                Err(kind) => Err(kind),
                Ok(_) => match self.spec_expected_name() {
                    Some(name) => name_verdict(parsed, name),
                    None => Ok(()),
                },
            },
        }
    }

    /// Constructs a verifier over a shared trust anchor store and
    /// signature-algorithm provider, with the verify mode and optional
    /// expected server name fixed for the verifier's lifetime. The result
    /// register starts at the `X509_V_ERR_UNSPECIFIED` sentinel.
    pub fn new(
        root_store: Arc<RootCertStore>,
        provider: Arc<CryptoProvider>,
        mode: VerifyMode,
        hostname: &Option<ServerName<'static>>,
    ) -> (v: ServerVerifier)
        ensures
            v.spec_mode() == mode,
            v.spec_expected_name() == *hostname,
            v.spec_checks_hostname() == (*hostname is Some),
            v.spec_last_result() == X509_V_ERR_UNSPECIFIED,
            is_legacy_code(v.spec_last_result()),
            v.spec_roots() == root_store,
            v.spec_provider() == provider,
    {
        ServerVerifier {
            root_store,
            provider,
            verify_hostname: clone_expected_name(hostname),
            mode,
            last_result: X509_V_ERR_UNSPECIFIED,
        }
    }

    /// Reads the legacy code recorded by the most recent verification
    /// attempt, or the sentinel if none was made yet; always one of the
    /// valid legacy codes.
    pub fn last_result(&self) -> (code: i64)
        ensures
            code == self.spec_last_result(),
            is_legacy_code(code),
    {
        proof {
            use_type_invariant(&*self);
        }
        self.last_result
    }

    /// Parses the end entity, validates the chain against the trust store,
    /// and then checks the expected server name — but only when one was
    /// configured: without one the name check is skipped entirely, whatever
    /// name the transport believes it connected to.
    fn verify_server_cert_inner<'a>(
        &self,
        end_entity: &'a CertificateDer<'a>,
        intermediates: &[CertificateDer<'_>],
        now: UnixTime,
    ) -> (outcome: Result<(), ErrorKind>)
        ensures
            outcome == self.spec_inner_outcome(*end_entity, intermediates@, now),
            outcome matches Err(kind) ==> kind != ErrorKind::Signature,
            !self.spec_checks_hostname() ==> (outcome matches Err(kind) ==> kind
                != ErrorKind::HostnameMismatch),
    {
        let parsed = match parse_end_entity(end_entity) {
            Ok(parsed) => parsed,
            Err(kind) => {
                return Err(kind);
            },
        };
        if let Err(kind) = chain_to_trust_anchor(
            &parsed,
            &self.root_store,
            intermediates,
            now,
            &self.provider,
        ) {
            return Err(kind);
        }
        match &self.verify_hostname {
            Some(name) => check_server_name(&parsed, name),
            None => Ok(()),
        }
    }

    /// Maps an attempt's classified outcome to its legacy code, records the
    /// code in the result register, and filters the decision through the
    /// verify mode.
    ///
    /// The register always receives the true outcome's code, whatever the
    /// mode; the returned decision alone is softened: a failure is handed
    /// back to the caller only under the mandatory mode.
    pub fn record_outcome(&mut self, outcome: Result<(), ErrorKind>) -> (decision: Result<
        (),
        ErrorKind,
    >)
        ensures
            final(self).spec_last_result() == spec_outcome_code(outcome),
            is_legacy_code(final(self).spec_last_result()),
            final(self).spec_mode() == old(self).spec_mode(),
            final(self).spec_expected_name() == old(self).spec_expected_name(),
            final(self).spec_checks_hostname() == old(self).spec_checks_hostname(),
            final(self).spec_roots() == old(self).spec_roots(),
            final(self).spec_provider() == old(self).spec_provider(),
            decision matches Ok(_) <==> spec_decision(outcome, old(self).spec_mode()),
            decision matches Err(kind) ==> outcome == Err::<(), ErrorKind>(kind),
            !old(self).spec_mode().spec_must_verify() ==> decision matches Ok(_),
    {
        match outcome {
            Ok(()) => {
                self.last_result = X509_V_OK;
                Ok(())
            },
            Err(kind) => {
                self.last_result = error_code(kind);
                if self.mode.client_must_verify_server() {
                    Err(kind)
                } else {
                    Ok(())
                }
            },
        }
    }

    /// Verifies the presented server certificate chain at time `now` and
    /// records the outcome's legacy code in the result register.
    ///
    /// The transport-supplied `_server_name` is deliberately ignored, and a
    /// supplied OCSP response is accepted but never used: hostname
    /// verification uses only the expected name configured at construction,
    /// and is skipped entirely when none was configured.
    ///
    /// The decision is success exactly when the recorded code is
    /// `X509_V_OK` or the verify mode treats failures as advisory — so
    /// under the advisory mode the handshake proceeds while the register
    /// still records the true failure code.
    pub fn verify_server_cert<'a>(
        &mut self,
        end_entity: &'a CertificateDer<'a>,
        intermediates: &[CertificateDer<'_>],
        _server_name: &ServerName<'_>,
        _ocsp_response: &[u8],
        now: UnixTime,
    ) -> (decision: Result<ServerCertVerified, ErrorKind>)
        ensures
            final(self).spec_last_result() == spec_outcome_code(
                old(self).spec_inner_outcome(*end_entity, intermediates@, now),
            ),
            (decision matches Ok(_)) <==> spec_decision(
                old(self).spec_inner_outcome(*end_entity, intermediates@, now),
                old(self).spec_mode(),
            ),
            decision matches Err(kind) ==> old(self).spec_inner_outcome(
                *end_entity,
                intermediates@,
                now,
            ) == Err::<(), ErrorKind>(kind),
            is_legacy_code(final(self).spec_last_result()),
            final(self).spec_mode() == old(self).spec_mode(),
            final(self).spec_expected_name() == old(self).spec_expected_name(),
            final(self).spec_checks_hostname() == old(self).spec_checks_hostname(),
            final(self).spec_roots() == old(self).spec_roots(),
            final(self).spec_provider() == old(self).spec_provider(),
            decision matches Ok(_) <==> (final(self).spec_last_result() == X509_V_OK || !old(
                self,
            ).spec_mode().spec_must_verify()),
            !old(self).spec_mode().spec_must_verify() ==> decision matches Ok(_),
            decision matches Err(kind) ==> final(self).spec_last_result() == spec_error_code(kind)
                && old(self).spec_mode().spec_must_verify(),
            decision matches Err(kind) ==> kind != ErrorKind::Signature,
            !old(self).spec_checks_hostname() ==> final(self).spec_last_result()
                != X509_V_ERR_HOSTNAME_MISMATCH,
            !old(self).spec_checks_hostname() ==> (decision matches Err(kind) ==> kind
                != ErrorKind::HostnameMismatch),
    {
        let outcome = self.verify_server_cert_inner(end_entity, intermediates, now);
        match self.record_outcome(outcome) {
            Ok(()) => Ok(server_cert_verified()),
            Err(kind) => Err(kind),
        }
    }

    /// Checks a TLS 1.2 per-message handshake signature; pure delegation to
    /// the signature-algorithm provider, with no local policy and no change
    /// to the result register.
    pub fn verify_tls12_signature(
        &self,
        message: &[u8],
        cert: &CertificateDer<'_>,
        dss: &DigitallySignedStruct,
    ) -> (r: Result<HandshakeSignatureValid, ErrorKind>)
        ensures
            (r matches Ok(_)) <==> tls12_verdict(message@, *cert, *dss, self.spec_provider()),
            r matches Err(kind) ==> kind == ErrorKind::Signature,
    {
        tls12_signature_valid(message, cert, dss, &self.provider)
    }

    /// Whether every scheme the provider maps carries at least one
    /// verification algorithm. rustls's own providers always do; the TLS
    /// 1.3 signature check is admitted only under this guard, which a
    /// caller can test here.
    pub fn schemes_mapping_complete(&self) -> (r: bool)
        ensures
            r == mapping_complete(self.spec_provider()),
    {
        provider_mapping_complete(&self.provider)
    }

    /// Checks a TLS 1.3 per-message handshake signature; pure delegation to
    /// the signature-algorithm provider, with no local policy and no change
    /// to the result register.
    ///
    /// Requires the provider's scheme mapping to be complete (see
    /// [`Self::schemes_mapping_complete`]): on a provider mapping a scheme
    /// to no algorithms, rustls's TLS 1.3 check does not return.
    pub fn verify_tls13_signature(
        &self,
        message: &[u8],
        cert: &CertificateDer<'_>,
        dss: &DigitallySignedStruct,
    ) -> (r: Result<HandshakeSignatureValid, ErrorKind>)
        requires
            mapping_complete(self.spec_provider()),
        ensures
            (r matches Ok(_)) <==> tls13_verdict(message@, *cert, *dss, self.spec_provider()),
            r matches Err(kind) ==> kind == ErrorKind::Signature,
    {
        tls13_signature_valid(message, cert, dss, &self.provider)
    }

    /// The provider's declared signature scheme set, unmodified and in the
    /// provider's declared order; pure query with no side effects.
    pub fn supported_verify_schemes(&self) -> (schemes: Vec<SignatureScheme>)
        ensures
            schemes@ == provider_schemes(self.spec_provider()),
    {
        provider_verify_schemes(&self.provider)
    }
}

} // verus!
