//! Trusted bindings to the rustls types and verification routines the
//! engine builds on.
//!
//! Chain validation, DER parsing and signature checking are provided
//! capabilities: each binding here makes exactly one call into rustls and
//! converts its rich error type into the crate's closed [`ErrorKind`]
//! taxonomy. Everything stated about these bindings is believed, not proved.

use vstd::prelude::*;

use std::sync::Arc;

use rustls::CertificateError;
use rustls::DigitallySignedStruct;
use rustls::Error;
use rustls::RootCertStore;
use rustls::SignatureScheme;
use rustls::client::danger::HandshakeSignatureValid;
use rustls::client::danger::ServerCertVerified;
use rustls::client::verify_server_cert_signed_by_trust_anchor;
use rustls::client::verify_server_name;
use rustls::crypto::CryptoProvider;
use rustls::crypto::verify_tls12_signature;
use rustls::crypto::verify_tls13_signature;
use rustls::pki_types::CertificateDer;
use rustls::pki_types::ServerName;
use rustls::pki_types::UnixTime;
use rustls::server::ParsedCertificate;

use crate::outcome::ErrorKind;

verus! {

#[verifier::external_type_specification]
#[verifier::external_body]
pub struct ExCertificateDer<'a>(CertificateDer<'a>);

#[verifier::external_type_specification]
#[verifier::external_body]
pub struct ExServerName<'a>(ServerName<'a>);

#[verifier::external_type_specification]
#[verifier::external_body]
pub struct ExUnixTime(UnixTime);

#[verifier::external_type_specification]
#[verifier::external_body]
pub struct ExRootCertStore(RootCertStore);

#[verifier::external_type_specification]
#[verifier::external_body]
pub struct ExCryptoProvider(CryptoProvider);

#[verifier::external_type_specification]
#[verifier::external_body]
pub struct ExParsedCertificate<'a>(ParsedCertificate<'a>);

#[verifier::external_type_specification]
#[verifier::external_body]
pub struct ExServerCertVerified(ServerCertVerified);

#[verifier::external_type_specification]
#[verifier::external_body]
pub struct ExHandshakeSignatureValid(HandshakeSignatureValid);

#[verifier::external_type_specification]
#[verifier::external_body]
pub struct ExDigitallySignedStruct(DigitallySignedStruct);

#[verifier::external_type_specification]
#[verifier::external_body]
pub struct ExSignatureScheme(SignatureScheme);

#[verifier::external_type_specification]
#[verifier::external_body]
pub struct ExError(Error);

/// The verdict of parsing an end-entity certificate's DER encoding: a
/// function of the encoded bytes alone.
pub uninterp spec fn parse_verdict(end_entity: CertificateDer<'_>) -> Result<
    ParsedCertificate<'_>,
    ErrorKind,
>;

/// The verdict of validating a chain against a trust anchor store at a
/// given time with a provider's algorithm set: a function of those argument
/// values alone.
pub uninterp spec fn chain_verdict(
    cert: ParsedCertificate<'_>,
    roots: Arc<RootCertStore>,
    intermediates: Seq<CertificateDer<'_>>,
    now: UnixTime,
    provider: Arc<CryptoProvider>,
) -> Result<(), ErrorKind>;

/// The verdict of checking a parsed certificate against an expected server
/// name: a function of the two argument values alone.
pub uninterp spec fn name_verdict(cert: ParsedCertificate<'_>, name: ServerName<'_>) -> Result<
    (),
    ErrorKind,
>;

/// Whether a TLS 1.2 handshake signature over a message checks out against
/// a certificate under a provider's rules: a function of those argument
/// values alone.
pub uninterp spec fn tls12_verdict(
    message: Seq<u8>,
    cert: CertificateDer<'_>,
    dss: DigitallySignedStruct,
    provider: Arc<CryptoProvider>,
) -> bool;

/// Whether a TLS 1.3 handshake signature over a message checks out against
/// a certificate under a provider's rules: a function of those argument
/// values alone.
pub uninterp spec fn tls13_verdict(
    message: Seq<u8>,
    cert: CertificateDer<'_>,
    dss: DigitallySignedStruct,
    provider: Arc<CryptoProvider>,
) -> bool;

/// The scheme list a provider declares, in its declared order: a function
/// of the provider value alone.
pub uninterp spec fn provider_schemes(provider: Arc<CryptoProvider>) -> Seq<SignatureScheme>;

/// Whether every scheme in the provider's declared mapping carries at least
/// one verification algorithm: a function of the provider value alone.
pub uninterp spec fn mapping_complete(provider: Arc<CryptoProvider>) -> bool;

/// Relies on the `Clone` impls of `Option` and `rustls::pki_types::ServerName`
/// (both derived, field-wise): cloning an expected name preserves its value.
#[verifier::external_body]
pub(crate) fn clone_expected_name(name: &Option<ServerName<'static>>) -> (r: Option<
    ServerName<'static>,
>)
    ensures
        r == *name,
{
    name.clone()
}

/// Relies on `rustls::server::ParsedCertificate::try_from`: parses the DER
/// encoding of the end-entity certificate — a deterministic function of the
/// encoded bytes, named [`parse_verdict`] — and fails only on a malformed
/// encoding, reported here as [`ErrorKind::Parse`].
#[verifier::external_body]
pub(crate) fn parse_end_entity<'a>(end_entity: &'a CertificateDer<'a>) -> (r: Result<
    ParsedCertificate<'a>,
    ErrorKind,
>)
    ensures
        r == parse_verdict(*end_entity),
        r matches Err(kind) ==> kind == ErrorKind::Parse,
{
    match ParsedCertificate::try_from(end_entity) {
        Ok(parsed) => Ok(parsed),
        Err(_) => Err(ErrorKind::Parse),
    }
}

/// Relies on the variant split of `rustls::CertificateError`: each
/// chain-validation failure is mapped to its classified kind, with the
/// generic kind as the explicit fallback. Chain validation reports neither a
/// name mismatch, a parse failure of the already-parsed end entity, nor a
/// handshake-signature failure.
#[verifier::external_body]
fn classify_chain_error(err: Error) -> (kind: ErrorKind)
    ensures
        kind != ErrorKind::HostnameMismatch,
        kind != ErrorKind::Parse,
        kind != ErrorKind::Signature,
{
    match err {
        Error::InvalidCertificate(cert_err) => match cert_err {
            CertificateError::UnknownIssuer => ErrorKind::UnknownIssuer,
            CertificateError::NotValidYet => ErrorKind::NotYetValid,
            CertificateError::NotValidYetContext { .. } => ErrorKind::NotYetValid,
            CertificateError::Expired => ErrorKind::Expired,
            CertificateError::ExpiredContext { .. } => ErrorKind::Expired,
            CertificateError::Revoked => ErrorKind::Revoked,
            CertificateError::InvalidPurpose => ErrorKind::InvalidPurpose,
            CertificateError::InvalidPurposeContext { .. } => ErrorKind::InvalidPurpose,
            _ => ErrorKind::Unspecified,
        },
        _ => ErrorKind::Unspecified,
    }
}

/// Relies on `rustls::client::verify_server_cert_signed_by_trust_anchor`:
/// validates the chain formed by the parsed end entity and the intermediates
/// against the trust anchor store at time `now`, using the provider's full
/// signature-verification algorithm set. The verdict is a deterministic
/// function of those argument values, named [`chain_verdict`]. Performs no
/// name check, so a failure is never classified as a hostname mismatch.
#[verifier::external_body]
pub(crate) fn chain_to_trust_anchor(
    cert: &ParsedCertificate<'_>,
    roots: &Arc<RootCertStore>,
    intermediates: &[CertificateDer<'_>],
    now: UnixTime,
    provider: &Arc<CryptoProvider>,
) -> (r: Result<(), ErrorKind>)
    ensures
        r == chain_verdict(*cert, *roots, intermediates@, now, *provider),
        r matches Err(kind) ==> kind != ErrorKind::HostnameMismatch,
        r matches Err(kind) ==> kind != ErrorKind::Parse,
        r matches Err(kind) ==> kind != ErrorKind::Signature,
{
    match verify_server_cert_signed_by_trust_anchor(
        cert,
        roots,
        intermediates,
        now,
        provider.signature_verification_algorithms.all,
    ) {
        Ok(()) => Ok(()),
        Err(err) => Err(classify_chain_error(err)),
    }
}

/// Relies on `rustls::client::verify_server_name`: checks that the parsed
/// end entity carries a subject name matching the expected server name — a
/// deterministic function of the two values, named [`name_verdict`] — and
/// reports a failed match as [`ErrorKind::HostnameMismatch`].
#[verifier::external_body]
pub(crate) fn check_server_name(cert: &ParsedCertificate<'_>, name: &ServerName<'static>) -> (r:
    Result<(), ErrorKind>)
    ensures
        r == name_verdict(*cert, *name),
        r matches Err(kind) ==> (kind == ErrorKind::HostnameMismatch || kind
            == ErrorKind::Unspecified),
{
    match verify_server_name(cert, name) {
        Ok(()) => Ok(()),
        Err(Error::InvalidCertificate(CertificateError::NotValidForName)) => Err(
            ErrorKind::HostnameMismatch,
        ),
        Err(Error::InvalidCertificate(CertificateError::NotValidForNameContext { .. })) => Err(
            ErrorKind::HostnameMismatch,
        ),
        Err(_) => Err(ErrorKind::Unspecified),
    }
}

/// Relies on `rustls::crypto::verify_tls12_signature`: checks the signature
/// in `dss` over `message` against the certificate's public key under the
/// provider's TLS 1.2 rules — a deterministic check, named
/// [`tls12_verdict`]; every failure is a signature failure.
#[verifier::external_body]
pub(crate) fn tls12_signature_valid(
    message: &[u8],
    cert: &CertificateDer<'_>,
    dss: &DigitallySignedStruct,
    provider: &Arc<CryptoProvider>,
) -> (r: Result<HandshakeSignatureValid, ErrorKind>)
    ensures
        (r matches Ok(_)) <==> tls12_verdict(message@, *cert, *dss, *provider),
        r matches Err(kind) ==> kind == ErrorKind::Signature,
{
    match verify_tls12_signature(message, cert, dss, &provider.signature_verification_algorithms) {
        Ok(valid) => Ok(valid),
        Err(_) => Err(ErrorKind::Signature),
    }
}

/// Relies on `rustls::crypto::verify_tls13_signature`: checks the signature
/// in `dss` over `message` against the certificate's public key under the
/// provider's TLS 1.3 rules — a deterministic check, named
/// [`tls13_verdict`]; every failure is a signature failure.
///
/// rustls indexes into the first algorithm mapped for the scheme, so a
/// provider whose mapping carries an empty algorithm list would panic
/// there; such providers are excluded by `requires`.
#[verifier::external_body]
pub(crate) fn tls13_signature_valid(
    message: &[u8],
    cert: &CertificateDer<'_>,
    dss: &DigitallySignedStruct,
    provider: &Arc<CryptoProvider>,
) -> (r: Result<HandshakeSignatureValid, ErrorKind>)
    requires
        mapping_complete(*provider),
    ensures
        (r matches Ok(_)) <==> tls13_verdict(message@, *cert, *dss, *provider),
        r matches Err(kind) ==> kind == ErrorKind::Signature,
{
    match verify_tls13_signature(message, cert, dss, &provider.signature_verification_algorithms) {
        Ok(valid) => Ok(valid),
        Err(_) => Err(ErrorKind::Signature),
    }
}

/// Relies on `rustls::crypto::WebPkiSupportedAlgorithms::supported_schemes`:
/// hands back the provider's declared scheme set, preserving its order — a
/// deterministic function of the provider value, named [`provider_schemes`].
#[verifier::external_body]
pub(crate) fn provider_verify_schemes(provider: &Arc<CryptoProvider>) -> (r: Vec<SignatureScheme>)
    ensures
        r@ == provider_schemes(*provider),
{
    provider.signature_verification_algorithms.supported_schemes()
}

/// Relies on the public `mapping` field of
/// `rustls::crypto::WebPkiSupportedAlgorithms`: reports whether every
/// scheme the provider maps carries at least one verification algorithm —
/// the property named [`mapping_complete`] — which rules out the one
/// provider shape on which rustls's TLS 1.3 signature check would panic.
#[verifier::external_body]
pub(crate) fn provider_mapping_complete(provider: &Arc<CryptoProvider>) -> (r: bool)
    ensures
        r == mapping_complete(*provider),
{
    provider
        .signature_verification_algorithms
        .mapping
        .iter()
        .all(|item| !item.1.is_empty())
}

/// Relies on `rustls::client::danger::ServerCertVerified::assertion`: the
/// opaque token a verifier hands back to assert it accepted the server
/// certificate.
#[verifier::external_body]
pub(crate) fn server_cert_verified() -> (r: ServerCertVerified) {
    ServerCertVerified::assertion()
}

} // verus!
