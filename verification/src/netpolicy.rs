//! TLS trust policy.
//!
//! A connecting client classifies the target host as local (loopback, the
//! RFC 1918 private ranges, or the literal `localhost`) and then either
//! skips certificate verification (local, trust-on-first-use posture for a
//! LAN) or verifies against the bundled Mozilla root store (everything
//! else).  The accepting daemon picks its serving credentials in a fixed
//! priority order: inline material from the environment, then file paths
//! from the environment, then a well-known filesystem location, and as the
//! last resort a transient self-signed certificate, so that a local
//! deployment never fails closed for want of certificates.

use crate::strutil::{spec_starts_with, str_eq, str_starts_with};
use vstd::prelude::*;

verus! {

broadcast use vstd::string::group_string_axioms;

/// A host is on the local network: loopback, an RFC 1918 private range, or
/// the literal `localhost`.
pub open spec fn spec_is_local(h: Seq<char>) -> bool {
    ||| spec_starts_with(h, "127."@)
    ||| spec_starts_with(h, "192.168."@)
    ||| spec_starts_with(h, "10."@)
    ||| spec_starts_with(h, "172.16."@)
    ||| spec_starts_with(h, "172.17."@)
    ||| spec_starts_with(h, "172.18."@)
    ||| spec_starts_with(h, "172.19."@)
    ||| spec_starts_with(h, "172.20."@)
    ||| spec_starts_with(h, "172.21."@)
    ||| spec_starts_with(h, "172.22."@)
    ||| spec_starts_with(h, "172.23."@)
    ||| spec_starts_with(h, "172.24."@)
    ||| spec_starts_with(h, "172.25."@)
    ||| spec_starts_with(h, "172.26."@)
    ||| spec_starts_with(h, "172.27."@)
    ||| spec_starts_with(h, "172.28."@)
    ||| spec_starts_with(h, "172.29."@)
    ||| spec_starts_with(h, "172.30."@)
    ||| spec_starts_with(h, "172.31."@)
    ||| h == "localhost"@
}

/// Whether `host` lies on the local network.  This is a pure function of
/// the host string alone.
pub fn is_local_network(host: &str) -> (r: bool)
    ensures
        r == spec_is_local(host@),
{
    str_starts_with(host, "127.") || str_starts_with(host, "192.168.") || str_starts_with(
        host,
        "10.",
    ) || str_starts_with(host, "172.16.") || str_starts_with(host, "172.17.") || str_starts_with(
        host,
        "172.18.",
    ) || str_starts_with(host, "172.19.") || str_starts_with(host, "172.20.") || str_starts_with(
        host,
        "172.21.",
    ) || str_starts_with(host, "172.22.") || str_starts_with(host, "172.23.") || str_starts_with(
        host,
        "172.24.",
    ) || str_starts_with(host, "172.25.") || str_starts_with(host, "172.26.") || str_starts_with(
        host,
        "172.27.",
    ) || str_starts_with(host, "172.28.") || str_starts_with(host, "172.29.") || str_starts_with(
        host,
        "172.30.",
    ) || str_starts_with(host, "172.31.") || str_eq(host, "localhost")
}

/// How a connecting client must verify the server certificate.
#[derive(Clone, Copy, PartialEq, Eq, Structural, Debug)]
pub enum ClientTrust {
    /// Local network: accept any certificate.
    AcceptAny,
    /// Public network: verify against the bundled Mozilla root store.
    WebPkiRoots,
}

/// The trust policy for a connection to `host`: verification is skipped
/// exactly on the local network.
pub fn client_trust_policy(host: &str) -> (r: ClientTrust)
    ensures
        r == ClientTrust::AcceptAny <==> spec_is_local(host@),
        r == ClientTrust::WebPkiRoots <==> !spec_is_local(host@),
{
    if is_local_network(host) {
        ClientTrust::AcceptAny
    } else {
        ClientTrust::WebPkiRoots
    }
}

/// A PEM certificate chain together with its PEM private key.
pub struct PemPair {
    pub cert_pem: Vec<u8>,
    pub key_pem: Vec<u8>,
}

/// Where the daemon's serving credentials came from.
pub enum CredentialChoice {
    /// Inline certificate and key material from the environment.
    Inline(PemPair),
    /// Certificate and key read from files the environment named.
    FromFiles(PemPair),
    /// Certificate and key read from the well-known filesystem location.
    WellKnown(PemPair),
    /// Nothing was available: generate a transient self-signed certificate.
    SelfSigned,
}

/// Picks the daemon's serving credentials in priority order: inline
/// environment material, then files named by the environment, then the
/// well-known location, and a self-signed certificate when all are absent.
/// Never fails: the caller can always proceed.
pub fn choose_server_credentials(
    inline: Option<PemPair>,
    from_files: Option<PemPair>,
    well_known: Option<PemPair>,
) -> (r: CredentialChoice)
    ensures
        match r {
            CredentialChoice::Inline(p) => (inline matches Some(q) && p == q),
            CredentialChoice::FromFiles(p) => inline is None && (from_files matches Some(q) && p
                == q),
            CredentialChoice::WellKnown(p) => inline is None && from_files is None && (well_known
                matches Some(q) && p == q),
            CredentialChoice::SelfSigned => inline is None && from_files is None && well_known
                is None,
        },
{
    match inline {
        Some(p) => CredentialChoice::Inline(p),
        None => match from_files {
            Some(p) => CredentialChoice::FromFiles(p),
            None => match well_known {
                Some(p) => CredentialChoice::WellKnown(p),
                None => CredentialChoice::SelfSigned,
            },
        },
    }
}

} // verus!
