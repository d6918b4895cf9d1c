//! Serving credentials for the accepting daemon.
//!
//! The daemon answers TLS on its deploy port.  Whatever source its PEM
//! material came from (see [`crate::netpolicy::choose_server_credentials`]),
//! it must yield at least one certificate and a private key; when no
//! source offered material at all, a transient self-signed certificate for
//! `localhost` is generated so that a local deployment never fails closed.
//! Parsing the PEM text is the work of an outside crate, reached through
//! the trusted wrappers below; the selection and failure logic around it
//! is verified.

use crate::netpolicy::{CredentialChoice, PemPair};
use rustls_pki_types::{CertificateDer, PrivateKeyDer};
use vstd::prelude::*;

verus! {

#[verifier::external_type_specification]
#[verifier::external_body]
pub struct ExCertificateDer<'a>(CertificateDer<'a>);

#[verifier::external_type_specification]
#[verifier::external_body]
pub struct ExPrivateKeyDer<'a>(PrivateKeyDer<'a>);

#[verifier::external_type_specification]
#[verifier::external_body]
pub struct ExIoError(std::io::Error);

/// How many certificates a PEM text holds; a pure function of the bytes.
pub uninterp spec fn pem_cert_count(pem: Seq<u8>) -> nat;

/// What scanning a PEM text for a private key yields, as a pure function
/// of the bytes: `Some(true)` when a key is found, `Some(false)` when the
/// text is readable but holds none, `None` when reading fails.
pub uninterp spec fn pem_key_scan(pem: Seq<u8>) -> Option<bool>;

/// Relies on rustls_pemfile::certs: every well-formed certificate in the
/// PEM text, in order; unreadable sections are skipped.
#[verifier::external_body]
fn parse_certs(pem: &Vec<u8>) -> (r: Vec<CertificateDer<'static>>)
    ensures
        r@.len() == pem_cert_count(pem@),
{
    rustls_pemfile::certs(&mut std::io::Cursor::new(pem.as_slice())).filter_map(
        |c| c.ok(),
    ).collect()
}

/// Relies on rustls_pemfile::private_key: the first private key of any
/// supported kind in the PEM text, `None` when the text holds none, and an
/// error when a section cannot be read.
#[verifier::external_body]
fn read_private_key(pem: &Vec<u8>) -> (r: Result<Option<PrivateKeyDer<'static>>, std::io::Error>)
    ensures
        r matches Ok(k) ==> (k is Some <==> pem_key_scan(pem@) == Some(true)) && (k is None <==>
            pem_key_scan(pem@) == Some(false)),
        r is Err <==> pem_key_scan(pem@) is None,
{
    rustls_pemfile::private_key(&mut std::io::Cursor::new(pem.as_slice()))
}

/// Relies on rcgen::generate_simple_self_signed: a fresh self-signed
/// certificate for `localhost` and its key, both as PEM text.  The
/// material is freshly generated, so nothing is promised of its bytes.
#[verifier::external_body]
fn generate_self_signed() -> (r: Option<PemPair>)
{
    match rcgen::generate_simple_self_signed(vec!["localhost".to_string()]) {
        Ok(ck) => Some(
            PemPair {
                cert_pem: ck.cert.pem().into_bytes(),
                key_pem: ck.signing_key.serialize_pem().into_bytes(),
            },
        ),
        Err(_) => None,
    }
}

/// What the daemon serves TLS with: a certificate chain and its key.
pub struct ServerTlsMaterial {
    pub certs: Vec<CertificateDer<'static>>,
    pub key: PrivateKeyDer<'static>,
}

/// The serving credentials could not be assembled.
#[derive(Clone, Copy, PartialEq, Eq, Structural, Debug)]
pub enum TlsSetupError {
    /// The certificate PEM text holds no certificate.
    NoCertificates,
    /// The key PEM text is readable but holds no private key.
    NoPrivateKey,
    /// The key PEM text cannot be read.
    KeyUnreadable,
    /// No material was offered and none could be generated.
    GenerationFailed,
}

/// Assembles serving material from PEM texts: every certificate in the
/// chain, and the first private key.  Fails exactly when the chain is
/// empty, or when the key text holds no key or cannot be read.
pub fn server_tls_material(cert_pem: &Vec<u8>, key_pem: &Vec<u8>) -> (r: Result<
    ServerTlsMaterial,
    TlsSetupError,
>)
    ensures
        match r {
            Ok(m) => {
                &&& pem_cert_count(cert_pem@) > 0
                &&& m.certs@.len() == pem_cert_count(cert_pem@)
                &&& pem_key_scan(key_pem@) == Some(true)
            },
            Err(TlsSetupError::NoCertificates) => pem_cert_count(cert_pem@) == 0,
            Err(TlsSetupError::NoPrivateKey) => pem_cert_count(cert_pem@) > 0 && pem_key_scan(
                key_pem@,
            ) == Some(false),
            Err(TlsSetupError::KeyUnreadable) => pem_cert_count(cert_pem@) > 0 && pem_key_scan(
                key_pem@,
            ) is None,
            Err(TlsSetupError::GenerationFailed) => false,
        },
{
    let certs = parse_certs(cert_pem);
    if certs.len() == 0 {
        return Err(TlsSetupError::NoCertificates);
    }
    match read_private_key(key_pem) {
        Ok(Some(key)) => Ok(ServerTlsMaterial { certs, key }),
        Ok(None) => Err(TlsSetupError::NoPrivateKey),
        Err(_) => Err(TlsSetupError::KeyUnreadable),
    }
}

/// Assembles the daemon's serving material from the chosen credential
/// source.  Offered PEM material is parsed and validated; with no source,
/// a transient self-signed certificate is generated and used the same
/// way, so success always carries at least one certificate and a key.
pub fn accept_tls_material(choice: CredentialChoice) -> (r: Result<
    ServerTlsMaterial,
    TlsSetupError,
>)
    ensures
        r matches Ok(m) ==> m.certs@.len() > 0,
        ({
            let offered = match choice {
                CredentialChoice::Inline(p) => Some(p),
                CredentialChoice::FromFiles(p) => Some(p),
                CredentialChoice::WellKnown(p) => Some(p),
                CredentialChoice::SelfSigned => None,
            };
            offered matches Some(p) ==> match r {
                Ok(m) => {
                    &&& pem_cert_count(p.cert_pem@) > 0
                    &&& m.certs@.len() == pem_cert_count(p.cert_pem@)
                    &&& pem_key_scan(p.key_pem@) == Some(true)
                },
                Err(TlsSetupError::NoCertificates) => pem_cert_count(p.cert_pem@) == 0,
                Err(TlsSetupError::NoPrivateKey) => pem_cert_count(p.cert_pem@) > 0
                    && pem_key_scan(p.key_pem@) == Some(false),
                Err(TlsSetupError::KeyUnreadable) => pem_cert_count(p.cert_pem@) > 0
                    && pem_key_scan(p.key_pem@) is None,
                Err(TlsSetupError::GenerationFailed) => false,
            }
        }),
{
    let offered = match choice {
        CredentialChoice::Inline(p) => Some(p),
        CredentialChoice::FromFiles(p) => Some(p),
        CredentialChoice::WellKnown(p) => Some(p),
        CredentialChoice::SelfSigned => None,
    };
    match offered {
        Some(p) => server_tls_material(&p.cert_pem, &p.key_pem),
        None => match generate_self_signed() {
            Some(p) => server_tls_material(&p.cert_pem, &p.key_pem),
            None => Err(TlsSetupError::GenerationFailed),
        },
    }
}

} // verus!
