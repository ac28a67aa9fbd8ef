//! QUIC configurations made from PEM material.

use super::error::TlsError;
use super::identity::{default_names, ServerTlsIdentity};
use super::pem::{
    certified_names, key_bytes, pem_certificates, pem_private_key, read_certificates,
    read_private_key, sections_bytes, KeyEncoding, PrivateKeySection,
};
use crate::bytes::{byte_strings, copy_bytes};
use quinn::crypto::rustls::{QuicClientConfig, QuicServerConfig};
use rustls::pki_types::PrivateKeyDer;
use std::sync::Arc;
use vstd::prelude::*;

verus! {

#[verifier::external_type_specification]
#[verifier::external_body]
pub struct ExQuicServerConfig(quinn::ServerConfig);

#[verifier::external_type_specification]
#[verifier::external_body]
pub struct ExQuicClientConfig(quinn::ClientConfig);

#[verifier::external_type_specification]
#[verifier::external_body]
pub struct ExRootCertStore(rustls::RootCertStore);

/// Whether rustls takes a certificate chain and a private key as one server identity: the key
/// can be loaded and belongs to the first certificate.
pub uninterp spec fn is_key_pair(chain: Seq<Seq<u8>>, key: (KeyEncoding, Seq<u8>)) -> bool;

/// The trust anchor that a DER certificate describes, as bytes, or `None` where it describes
/// none.
pub uninterp spec fn trust_anchor(der: Seq<u8>) -> Option<Seq<u8>>;

/// The trust anchors that a root store holds, in the order in which they were added.
pub uninterp spec fn root_anchors(store: rustls::RootCertStore) -> Seq<Seq<u8>>;

/// The certificate chain, the private key and the protocols that a server configuration holds.
pub uninterp spec fn server_holds(config: quinn::ServerConfig) -> (
    Seq<Seq<u8>>,
    (KeyEncoding, Seq<u8>),
    Seq<Seq<u8>>,
);

/// The trust anchors and the protocols that a client configuration holds.
pub uninterp spec fn client_holds(config: quinn::ClientConfig) -> (Seq<Seq<u8>>, Seq<Seq<u8>>);

/// Makes a QUIC server configuration with `rustls::ServerConfig` and
/// `quinn::ServerConfig::with_crypto`, on the aws-lc-rs provider. It fails where
/// `with_single_cert` refuses the chain and the key, and nowhere else: that provider has the
/// cipher suites, the key exchange groups and the initial QUIC suite that the other steps look
/// for. The configuration holds the chain, the key and the protocols that it was made from.
#[verifier::external_body]
fn quic_server_config(
    chain: Vec<Vec<u8>>,
    key: PrivateKeySection,
    alpn_protocols: Vec<Vec<u8>>,
) -> (config: Result<quinn::ServerConfig, TlsError>)
    ensures
        config is Ok <==> is_key_pair(byte_strings(chain@), key_bytes(key)),
        config is Ok ==> server_holds(config->Ok_0) == (
            byte_strings(chain@),
            key_bytes(key),
            byte_strings(alpn_protocols@),
        ),
        config is Err ==> config->Err_0 == TlsError::InvalidTlsConfig,
{
    let chain = chain.into_iter().map(|der| der.into()).collect();
    let key = match key.encoding {
        KeyEncoding::Pkcs1 => PrivateKeyDer::Pkcs1(key.der.into()),
        KeyEncoding::Sec1 => PrivateKeyDer::Sec1(key.der.into()),
        KeyEncoding::Pkcs8 => PrivateKeyDer::Pkcs8(key.der.into()),
    };
    let provider = Arc::new(rustls::crypto::aws_lc_rs::default_provider());
    let mut tls = rustls::ServerConfig::builder_with_provider(provider)
        .with_safe_default_protocol_versions()
        .and_then(|builder| builder.with_no_client_auth().with_single_cert(chain, key))
        .map_err(|_| TlsError::InvalidTlsConfig)?;
    tls.alpn_protocols = alpn_protocols;
    let quic: QuicServerConfig = tls.try_into().map_err(|_| TlsError::InvalidTlsConfig)?;
    Ok(quinn::ServerConfig::with_crypto(Arc::new(quic)))
}

/// An empty root store, from `rustls::RootCertStore::empty`.
#[verifier::external_body]
fn empty_roots() -> (roots: rustls::RootCertStore)
    ensures
        root_anchors(roots) == Seq::<Seq<u8>>::empty(),
{
    rustls::RootCertStore::empty()
}

/// Adds a certificate with `rustls::RootCertStore::add`: one more trust anchor where the
/// certificate can be one, else an error and the store as it was.
#[verifier::external_body]
fn add_root(roots: &mut rustls::RootCertStore, der: &[u8]) -> (added: Result<(), TlsError>)
    ensures
        added is Ok <==> trust_anchor(der@) is Some,
        added is Err ==> added->Err_0 == TlsError::InvalidTrustAnchor,
        root_anchors(*final(roots)) == match trust_anchor(der@) {
            Some(anchor) => root_anchors(*old(roots)).push(anchor),
            None => root_anchors(*old(roots)),
        },
{
    roots.add(der.into()).map_err(|_| TlsError::InvalidTrustAnchor)
}

/// Whether the store holds no trust anchor, from `rustls::RootCertStore::is_empty`.
#[verifier::external_body]
fn roots_are_empty(roots: &rustls::RootCertStore) -> (empty: bool)
    ensures
        empty == (root_anchors(*roots).len() == 0),
{
    roots.is_empty()
}

/// Makes a QUIC client configuration that trusts `roots`, with `rustls::ClientConfig` and
/// `quinn::ClientConfig::new`, on the aws-lc-rs provider. Every step succeeds with that
/// provider, which has the cipher suites, the key exchange groups and the initial QUIC suite that
/// they look for. The configuration holds the anchors and the protocols that it was made from.
#[verifier::external_body]
fn quic_client_config(roots: rustls::RootCertStore, alpn_protocols: Vec<Vec<u8>>) -> (config:
    Result<quinn::ClientConfig, TlsError>)
    ensures
        config is Ok,
        client_holds(config->Ok_0) == (root_anchors(roots), byte_strings(alpn_protocols@)),
{
    let provider = Arc::new(rustls::crypto::aws_lc_rs::default_provider());
    let mut tls = rustls::ClientConfig::builder_with_provider(provider)
        .with_safe_default_protocol_versions()
        .map_err(|_| TlsError::InvalidTlsConfig)?
        .with_root_certificates(roots)
        .with_no_client_auth();
    tls.alpn_protocols = alpn_protocols;
    let quic: QuicClientConfig = tls.try_into().map_err(|_| TlsError::InvalidQuicConfig)?;
    Ok(quinn::ClientConfig::new(Arc::new(quic)))
}

/// The DER bytes of sections that could all be decoded.
pub open spec fn decoded(sections: Seq<Option<Seq<u8>>>) -> Seq<Seq<u8>> {
    Seq::new(sections.len(), |i: int| sections[i]->0)
}

/// Whether every section could be decoded.
pub open spec fn all_decodable(sections: Seq<Option<Seq<u8>>>) -> bool {
    forall|i: int| 0 <= i < sections.len() ==> #[trigger] sections[i] is Some
}

/// What is wrong with a certificate PEM and a key PEM as one server identity.
pub open spec fn server_material(
    sections: Seq<Option<Seq<u8>>>,
    key: Result<Option<(KeyEncoding, Seq<u8>)>, TlsError>,
) -> Result<(), TlsError> {
    if !all_decodable(sections) {
        Err(TlsError::InvalidCertificatePem)
    } else if sections.len() == 0 {
        Err(TlsError::NoCertificate)
    } else {
        match key {
            Err(error) => Err(error),
            Ok(None) => Err(TlsError::NoPrivateKey),
            Ok(Some(key)) => if is_key_pair(decoded(sections), key) {
                Ok(())
            } else {
                Err(TlsError::InvalidTlsConfig)
            },
        }
    }
}

/// Whether a server configuration was made from a certificate PEM, a key PEM and a protocol
/// list, or refused for what is wrong with them.
pub open spec fn server_config_from(
    config: Result<quinn::ServerConfig, TlsError>,
    cert_pem: Seq<u8>,
    key_pem: Seq<u8>,
    alpn_protocols: Seq<Seq<u8>>,
) -> bool {
    let sections = pem_certificates(cert_pem);
    let key = pem_private_key(key_pem);
    match config {
        Ok(made) => server_material(sections, key) is Ok && server_holds(made) == (
            decoded(sections),
            key->Ok_0->0,
            alpn_protocols,
        ),
        Err(error) => server_material(sections, key) == Err::<(), TlsError>(error),
    }
}

/// The DER bytes of all sections, or an error if one could not be decoded.
pub fn decoded_sections(sections: Vec<Option<Vec<u8>>>) -> (chain: Result<Vec<Vec<u8>>, TlsError>)
    ensures
        chain is Ok <==> all_decodable(sections_bytes(sections@)),
        chain is Ok ==> byte_strings(chain->Ok_0@) == decoded(sections_bytes(sections@)),
        chain is Err ==> chain->Err_0 == TlsError::InvalidCertificatePem,
{
    let ghost bytes = sections_bytes(sections@);
    let mut chain: Vec<Vec<u8>> = Vec::new();
    let mut at: usize = 0;
    while at < sections.len()
        invariant
            bytes == sections_bytes(sections@),
            at == chain@.len(),
            at <= sections@.len(),
            forall|i: int|
                0 <= i < at ==> #[trigger] bytes[i] is Some && chain@[i]@ == bytes[i]->0,
        decreases sections@.len() - at,
    {
        match &sections[at] {
            Some(der) => {
                assert(bytes[at as int] == Some(der@));
                chain.push(copy_bytes(der.as_slice()));
            },
            None => {
                assert(bytes[at as int] is None);
                return Err(TlsError::InvalidCertificatePem);
            },
        }
        at = at + 1;
    }
    assert(byte_strings(chain@) =~= decoded(bytes));
    Ok(chain)
}

/// Makes a QUIC server configuration from what was read of a certificate PEM and of a key PEM.
pub fn server_config_from_sections(
    sections: Vec<Option<Vec<u8>>>,
    key: Result<Option<PrivateKeySection>, TlsError>,
    alpn_protocols: Vec<Vec<u8>>,
) -> (config: Result<quinn::ServerConfig, TlsError>)
    ensures
        ({
            let expected = server_material(
                sections_bytes(sections@),
                match key {
                    Err(error) => Err(error),
                    Ok(None) => Ok(None),
                    Ok(Some(found)) => Ok(Some(key_bytes(found))),
                },
            );
            match config {
                Ok(made) => expected is Ok && server_holds(made) == (
                    decoded(sections_bytes(sections@)),
                    key_bytes(key->Ok_0->0),
                    byte_strings(alpn_protocols@),
                ),
                Err(error) => expected == Err::<(), TlsError>(error),
            }
        }),
{
    let chain: Vec<Vec<u8>> = match decoded_sections(sections) {
        Ok(chain) => chain,
        Err(error) => return Err(error),
    };
    assert(byte_strings(chain@).len() == sections_bytes(sections@).len());
    if chain.len() == 0 {
        return Err(TlsError::NoCertificate);
    }
    match key {
        Err(error) => Err(error),
        Ok(None) => Err(TlsError::NoPrivateKey),
        Ok(Some(found)) => quic_server_config(chain, found, alpn_protocols),
    }
}

/// Makes a QUIC server configuration from a certificate PEM, a key PEM and a protocol list. It
/// needs at least one certificate, all of them readable, and a private key that belongs to the
/// first.
pub fn build_quic_server_config_from_pem(
    cert_pem: &[u8],
    key_pem: &[u8],
    alpn_protocols: Vec<Vec<u8>>,
) -> (config: Result<quinn::ServerConfig, TlsError>)
    ensures
        server_config_from(config, cert_pem@, key_pem@, byte_strings(alpn_protocols@)),
{
    let sections: Vec<Option<Vec<u8>>> = read_certificates(cert_pem);
    let key: Result<Option<PrivateKeySection>, TlsError> = read_private_key(key_pem);
    server_config_from_sections(sections, key, alpn_protocols)
}

/// Makes a QUIC server configuration from an identity and a protocol list. A self-signed identity
/// is served with its one certificate, for the default names, and its PKCS#8 key; it fails only
/// where the pair cannot be made.
pub fn build_quic_server_config(
    identity: &ServerTlsIdentity,
    alpn_protocols: Vec<Vec<u8>>,
) -> (config: Result<quinn::ServerConfig, TlsError>)
    ensures
        identity matches ServerTlsIdentity::Provided { cert_pem, key_pem } ==> server_config_from(
            config,
            cert_pem@,
            key_pem@,
            byte_strings(alpn_protocols@),
        ),
        identity is SelfSigned ==> match config {
            Ok(made) => {
                let (chain, (encoding, _), protocols) = server_holds(made);
                &&& chain.len() == 1
                &&& certified_names(chain[0]) == default_names()
                &&& encoding == KeyEncoding::Pkcs8
                &&& protocols == byte_strings(alpn_protocols@)
            },
            Err(error) => error == TlsError::SelfSignedFailed,
        },
{
    match identity.pem_pair() {
        Ok((cert_pem, key_pem)) => {
            proof {
                let sections = pem_certificates(cert_pem@);
                if identity is SelfSigned {
                    assert(decoded(sections) =~= seq![sections[0]->0]);
                }
            }
            build_quic_server_config_from_pem(
                cert_pem.as_slice(),
                key_pem.as_slice(),
                alpn_protocols,
            )
        },
        Err(error) => Err(error),
    }
}

/// What is wrong with the trust bundle sections from `from` on: the first that cannot be decoded
/// or cannot be a trust anchor.
pub open spec fn anchors_from(sections: Seq<Option<Seq<u8>>>, from: int) -> Result<(), TlsError>
    decreases sections.len() - from,
{
    if from >= sections.len() {
        Ok(())
    } else {
        match sections[from] {
            None => Err(TlsError::InvalidCertificatePem),
            Some(der) => if trust_anchor(der) is Some {
                anchors_from(sections, from + 1)
            } else {
                Err(TlsError::InvalidTrustAnchor)
            },
        }
    }
}

/// The trust anchors of the first `count` sections of a trust bundle in which nothing is wrong.
pub open spec fn bundle_anchors(sections: Seq<Option<Seq<u8>>>, count: int) -> Seq<Seq<u8>> {
    Seq::new(count as nat, |i: int| trust_anchor(sections[i]->0)->0)
}

/// Whether a client configuration was made from trust bundle sections and a protocol list, or
/// refused for what is wrong with the bundle.
pub open spec fn client_config_from(
    config: Result<quinn::ClientConfig, TlsError>,
    sections: Seq<Option<Seq<u8>>>,
    alpn_protocols: Seq<Seq<u8>>,
) -> bool {
    match config {
        Ok(made) => trust_bundle(sections) is Ok && client_holds(made) == (
            bundle_anchors(sections, sections.len() as int),
            alpn_protocols,
        ),
        Err(error) => trust_bundle(sections) == Err::<(), TlsError>(error),
    }
}

/// What is wrong with a trust bundle, which holds at least one certificate.
pub open spec fn trust_bundle(sections: Seq<Option<Seq<u8>>>) -> Result<(), TlsError> {
    match anchors_from(sections, 0) {
        Err(error) => Err(error),
        Ok(_) => if sections.len() > 0 {
            Ok(())
        } else {
            Err(TlsError::EmptyTrustBundle)
        },
    }
}

/// Makes a QUIC client configuration that trusts the certificates that were read of a bundle.
pub fn client_config_from_sections(
    sections: &Vec<Option<Vec<u8>>>,
    alpn_protocols: Vec<Vec<u8>>,
) -> (config: Result<quinn::ClientConfig, TlsError>)
    ensures
        client_config_from(config, sections_bytes(sections@), byte_strings(alpn_protocols@)),
{
    let ghost bytes = sections_bytes(sections@);
    let mut roots: rustls::RootCertStore = empty_roots();
    let mut at: usize = 0;
    while at < sections.len()
        invariant
            bytes == sections_bytes(sections@),
            at <= sections@.len(),
            root_anchors(roots) =~= bundle_anchors(bytes, at as int),
            anchors_from(bytes, 0) == anchors_from(bytes, at as int),
        decreases sections@.len() - at,
    {
        match &sections[at] {
            None => {
                assert(bytes[at as int] is None);
                return Err(TlsError::InvalidCertificatePem);
            },
            Some(der) => {
                assert(bytes[at as int] == Some(der@));
                match add_root(&mut roots, der.as_slice()) {
                    Ok(()) => {},
                    Err(error) => return Err(error),
                }
            },
        }
        at = at + 1;
    }
    if roots_are_empty(&roots) {
        return Err(TlsError::EmptyTrustBundle);
    }
    quic_client_config(roots, alpn_protocols)
}

/// Makes a QUIC client configuration that trusts the certificates of a PEM bundle and offers a
/// protocol list.
pub fn build_trusted_quic_client_config_with_alpn(
    cert_pem: &[u8],
    alpn_protocols: Vec<Vec<u8>>,
) -> (config: Result<quinn::ClientConfig, TlsError>)
    ensures
        client_config_from(config, pem_certificates(cert_pem@), byte_strings(alpn_protocols@)),
{
    let sections: Vec<Option<Vec<u8>>> = read_certificates(cert_pem);
    client_config_from_sections(&sections, alpn_protocols)
}

/// How a QUIC client decides whether to trust a server.
pub enum ClientTrust {
    /// Every certificate is accepted.
    Unverified,
    /// The certificate has to lead to an anchor of this PEM bundle.
    Anchored { trust_pem: Vec<u8> },
}

/// Chooses how a client trusts servers: not at all where verification is switched off, else by
/// the configured bundle, which then has to be there.
pub fn client_trust(cert_pem: Option<Vec<u8>>, insecure: bool) -> (trust: Result<
    ClientTrust,
    TlsError,
>)
    ensures
        trust == if insecure {
            Ok::<ClientTrust, TlsError>(ClientTrust::Unverified)
        } else {
            match cert_pem {
                Some(trust_pem) => Ok(ClientTrust::Anchored { trust_pem }),
                None => Err(TlsError::MissingTrust),
            }
        },
{
    if insecure {
        return Ok(ClientTrust::Unverified);
    }
    match cert_pem {
        Some(trust_pem) => Ok(ClientTrust::Anchored { trust_pem }),
        None => Err(TlsError::MissingTrust),
    }
}

} // verus!
