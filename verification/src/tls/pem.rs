//! PEM sections: what `rustls_pemfile` and `rcgen` read and write.

use super::error::TlsError;
use super::quic::is_key_pair;
use crate::text::texts;
use vstd::prelude::*;

verus! {

/// How a private key is encoded.
#[derive(Clone, Copy, Debug, PartialEq, Eq, Structural)]
pub enum KeyEncoding {
    Pkcs1,
    Sec1,
    Pkcs8,
}

/// A private key as a PEM section holds it.
pub struct PrivateKeySection {
    pub encoding: KeyEncoding,
    pub der: Vec<u8>,
}

/// The certificate sections of a PEM text in order, each with its DER bytes, or `None` where a
/// section cannot be decoded.
pub uninterp spec fn pem_certificates(pem: Seq<u8>) -> Seq<Option<Seq<u8>>>;

/// The first private key section of a PEM text: an error where a section in front of it cannot
/// be decoded, `None` where there is no such section.
pub uninterp spec fn pem_private_key(pem: Seq<u8>) -> Result<
    Option<(KeyEncoding, Seq<u8>)>,
    TlsError,
>;

/// The bytes of a decoded section.
pub open spec fn section_bytes(section: Option<Vec<u8>>) -> Option<Seq<u8>> {
    match section {
        Some(der) => Some(der@),
        None => None,
    }
}

/// The bytes of all sections.
pub open spec fn sections_bytes(sections: Seq<Option<Vec<u8>>>) -> Seq<Option<Seq<u8>>> {
    Seq::new(sections.len(), |i: int| section_bytes(sections[i]))
}

/// The encoding and the bytes of a private key.
pub open spec fn key_bytes(key: PrivateKeySection) -> (KeyEncoding, Seq<u8>) {
    (key.encoding, key.der@)
}

/// Reads all certificate sections with `rustls_pemfile::certs`, which skips sections of other
/// kinds and gives an error item for a section that it cannot decode. Reading a byte slice
/// involves no I/O, so the sections depend on the text alone.
#[verifier::external_body]
pub(crate) fn read_certificates(pem: &[u8]) -> (sections: Vec<Option<Vec<u8>>>)
    ensures
        sections_bytes(sections@) == pem_certificates(pem@),
{
    let mut reader: &[u8] = pem;
    rustls_pemfile::certs(&mut reader)
        .map(|section| section.ok().map(|der| der.as_ref().to_vec()))
        .collect()
}

/// Reads the first private key with `rustls_pemfile::private_key`, which returns a PKCS#1, SEC1
/// or PKCS#8 key, nothing where there is none, or an error for a section that it cannot decode.
#[verifier::external_body]
pub(crate) fn read_private_key(pem: &[u8]) -> (key: Result<Option<PrivateKeySection>, TlsError>)
    ensures
        match (key, pem_private_key(pem@)) {
            (Ok(Some(found)), Ok(Some(expected))) => key_bytes(found) == expected,
            (Ok(None), Ok(None)) => true,
            (Err(error), Err(expected)) => error == expected,
            _ => false,
        },
        key is Err ==> key->Err_0 == TlsError::InvalidKeyPem,
{
    let mut reader: &[u8] = pem;
    match rustls_pemfile::private_key(&mut reader) {
        Ok(Some(key)) => {
            let encoding = match &key {
                rustls::pki_types::PrivateKeyDer::Pkcs1(_) => KeyEncoding::Pkcs1,
                rustls::pki_types::PrivateKeyDer::Sec1(_) => KeyEncoding::Sec1,
                _ => KeyEncoding::Pkcs8,
            };
            Ok(Some(PrivateKeySection { encoding, der: key.secret_der().to_vec() }))
        }
        Ok(None) => Ok(None),
        Err(_) => Err(TlsError::InvalidKeyPem),
    }
}

/// Whether a text is made of ASCII characters alone.
pub open spec fn is_ascii_text(text: Seq<char>) -> bool {
    forall|i: int| 0 <= i < text.len() ==> (#[trigger] text[i] as u32) < 128
}

/// The subject alternative names that a DER certificate is for, in order; DNS names as they are
/// written.
pub uninterp spec fn certified_names(der: Seq<u8>) -> Seq<Seq<char>>;

/// Whether a name cannot be read as an IP address: it has no colon, and something other than
/// digits and dots.
pub open spec fn is_dns_name(name: Seq<char>) -> bool {
    &&& !name.contains(':')
    &&& exists|i: int|
        0 <= i < name.len() && !('0' <= #[trigger] name[i] <= '9') && name[i] != '.'
}

/// Whether the names in a certificate are those given: one for each, in order, and each DNS name
/// as it is written.
pub open spec fn are_names_for(certified: Seq<Seq<char>>, names: Seq<Seq<char>>) -> bool {
    &&& certified.len() == names.len()
    &&& forall|i: int|
        0 <= i < names.len() && is_dns_name(#[trigger] names[i]) ==> certified[i] == names[i]
}

/// Whether a certificate for the names is small enough for rustls, which reads certificates of less
/// than 65536 bytes.
pub open spec fn are_few_names(names: Seq<Seq<char>>) -> bool {
    &&& names.len() <= 64
    &&& forall|i: int| 0 <= i < names.len() ==> (#[trigger] names[i]).len() <= 255
}

/// Whether a pair of texts is a self-signed identity for `names`, which are all ASCII: the first
/// text holds one certificate, for these names, that can be read, the second a PKCS#8 key, and the
/// two belong together.
pub open spec fn is_self_signed_pair(
    names: Seq<Seq<char>>,
    cert_pem: Seq<u8>,
    key_pem: Seq<u8>,
) -> bool {
    &&& forall|i: int| 0 <= i < names.len() ==> is_ascii_text(#[trigger] names[i])
    &&& cert_pem.len() > 0
    &&& key_pem.len() > 0
    &&& pem_certificates(cert_pem).len() == 1
    &&& pem_certificates(cert_pem)[0] matches Some(der)
    &&& are_names_for(certified_names(der), names)
    &&& pem_private_key(key_pem) matches Ok(Some((encoding, key)))
    &&& encoding == KeyEncoding::Pkcs8
    &&& are_few_names(names) ==> is_key_pair(seq![der], (encoding, key))
}

/// Makes a certificate for `names` and its private key, both as PEM, with
/// `rcgen::generate_simple_self_signed`, which refuses a name that is neither an IP address nor
/// ASCII text, and writes the others into the certificate in order. The certificate is written as
/// one `CERTIFICATE` section and the key, for the curve P-256, as one `PRIVATE KEY` section, so
/// each is read back as such, and rustls takes the two as one identity. The key is drawn at random:
/// neither its bytes nor whether drawing it succeeds is said.
#[verifier::external_body]
pub(crate) fn self_signed_pair(names: Vec<String>) -> (pair: Result<(Vec<u8>, Vec<u8>), TlsError>)
    ensures
        pair is Ok ==> is_self_signed_pair(texts(names@), pair->Ok_0.0@, pair->Ok_0.1@),
        pair is Ok ==> are_names_for(
            certified_names(pem_certificates(pair->Ok_0.0@)[0]->0),
            texts(names@),
        ),
        pair is Err ==> pair->Err_0 == TlsError::SelfSignedFailed,
{
    match rcgen::generate_simple_self_signed(names) {
        Ok(made) => Ok((made.cert.pem().into_bytes(), made.key_pair.serialize_pem().into_bytes())),
        Err(_) => Err(TlsError::SelfSignedFailed),
    }
}

} // verus!
