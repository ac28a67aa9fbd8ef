//! The certificate and key that a tunnel server presents.

use super::der::{certificate_window, parse_certificate_validity, CertificateValidity};
use super::error::TlsError;
use super::pem::{
    are_few_names, certified_names, is_dns_name, is_self_signed_pair, pem_certificates,
    pem_private_key, read_certificates, section_bytes, sections_bytes, self_signed_pair,
};
use super::quic::is_key_pair;
use crate::bytes::{copy_bytes, same_bytes};
use crate::text::texts;
use vstd::prelude::*;

verus! {

/// The most bytes that a file of TLS material may hold.
pub const MAX_TLS_MATERIAL_BYTES: u64 = 1_048_576;

/// Seconds between two polls of projected TLS material, below the 30 seconds in which a
/// replacement has to take effect.
pub const DEFAULT_TLS_RELOAD_INTERVAL_SECONDS: u64 = 10;

/// TLS identity used by QUIC tunnel servers.
#[derive(Clone, Debug, PartialEq, Eq)]
pub enum ServerTlsIdentity {
    SelfSigned,
    Provided { cert_pem: Vec<u8>, key_pem: Vec<u8> },
}

/// The contents of a `ServerTlsIdentity`.
pub enum IdentityView {
    SelfSigned,
    Provided { cert_pem: Seq<u8>, key_pem: Seq<u8> },
}

impl View for ServerTlsIdentity {
    type V = IdentityView;

    open spec fn view(&self) -> IdentityView {
        match self {
            ServerTlsIdentity::SelfSigned => IdentityView::SelfSigned,
            ServerTlsIdentity::Provided { cert_pem, key_pem } => IdentityView::Provided {
                cert_pem: cert_pem@,
                key_pem: key_pem@,
            },
        }
    }
}

impl Default for ServerTlsIdentity {
    fn default() -> (identity: Self)
        ensures
            identity == ServerTlsIdentity::SelfSigned,
    {
        ServerTlsIdentity::SelfSigned
    }
}

/// The names of a self-signed identity for which none are given.
pub open spec fn default_names() -> Seq<Seq<char>> {
    seq!["localhost"@, "stargate"@]
}

/// Whether a pair of texts is a self-signed identity for the default names: one certificate, for
/// exactly these names, and the PKCS#8 key that belongs to it.
pub open spec fn is_default_pair(cert_pem: Seq<u8>, key_pem: Seq<u8>) -> bool {
    &&& is_self_signed_pair(default_names(), cert_pem, key_pem)
    &&& pem_certificates(cert_pem)[0] matches Some(der)
    &&& certified_names(der) == default_names()
    &&& pem_private_key(key_pem) matches Ok(Some(key))
    &&& is_key_pair(seq![der], key)
}

/// A self-signed identity for the default names is for exactly these.
proof fn lemma_default_pair(cert_pem: Seq<u8>, key_pem: Seq<u8>)
    requires
        is_self_signed_pair(default_names(), cert_pem, key_pem),
    ensures
        is_default_pair(cert_pem, key_pem),
{
    let names = default_names();
    reveal_strlit("localhost");
    reveal_strlit("stargate");
    assert(names[0] == "localhost"@ && names[1] == "stargate"@);
    assert(names[0][0] == 'l' && names[1][0] == 's');
    assert(is_dns_name(names[0]));
    assert(is_dns_name(names[1]));
    assert(are_few_names(names));
    let der = pem_certificates(cert_pem)[0]->0;
    assert(certified_names(der) =~= names);
}

/// Generates a PEM self-signed certificate and key for the names `localhost` and `stargate`.
pub fn generate_self_signed_cert() -> (pair: Result<(Vec<u8>, Vec<u8>), TlsError>)
    ensures
        pair is Ok ==> is_default_pair(pair->Ok_0.0@, pair->Ok_0.1@),
        pair is Err ==> pair->Err_0 == TlsError::SelfSignedFailed,
{
    let mut names: Vec<String> = Vec::new();
    names.push("localhost".to_owned());
    names.push("stargate".to_owned());
    assert(texts(names@) =~= default_names());
    let pair: Result<(Vec<u8>, Vec<u8>), TlsError> = generate_self_signed_cert_for_names(names);
    proof {
        if pair is Ok {
            lemma_default_pair(pair->Ok_0.0@, pair->Ok_0.1@);
        }
    }
    pair
}

/// Generates a PEM self-signed certificate and key for the given DNS names, all of which have to
/// be ASCII.
pub fn generate_self_signed_cert_for_names(names: Vec<String>) -> (pair: Result<
    (Vec<u8>, Vec<u8>),
    TlsError,
>)
    ensures
        pair is Ok ==> is_self_signed_pair(texts(names@), pair->Ok_0.0@, pair->Ok_0.1@),
        pair is Err ==> pair->Err_0 == TlsError::SelfSignedFailed,
{
    self_signed_pair(names)
}

impl ServerTlsIdentity {
    /// Builds a server identity from an optional certificate and an optional key, which come
    /// together or not at all.
    pub fn from_optional_pem(cert_pem: Option<Vec<u8>>, key_pem: Option<Vec<u8>>) -> (identity:
        Result<Self, TlsError>)
        ensures
            identity == match (cert_pem, key_pem) {
                (Some(cert_pem), Some(key_pem)) => Ok::<ServerTlsIdentity, TlsError>(
                    ServerTlsIdentity::Provided { cert_pem, key_pem },
                ),
                (None, None) => Ok(ServerTlsIdentity::SelfSigned),
                (Some(_), None) => Err(TlsError::KeyPemMissing),
                (None, Some(_)) => Err(TlsError::CertPemMissing),
            },
    {
        match (cert_pem, key_pem) {
            (Some(cert_pem), Some(key_pem)) => Ok(
                ServerTlsIdentity::Provided { cert_pem, key_pem },
            ),
            (None, None) => Ok(ServerTlsIdentity::SelfSigned),
            (Some(_), None) => Err(TlsError::KeyPemMissing),
            (None, Some(_)) => Err(TlsError::CertPemMissing),
        }
    }

    /// The certificate and key to serve: those provided, else a new self-signed pair.
    pub fn pem_pair(&self) -> (pair: Result<(Vec<u8>, Vec<u8>), TlsError>)
        ensures
            self is Provided ==> pair is Ok && pair->Ok_0.0@ == self->cert_pem@ && pair->Ok_0.1@
                == self->key_pem@,
            self is SelfSigned && pair is Ok ==> is_default_pair(pair->Ok_0.0@, pair->Ok_0.1@),
            pair is Err ==> pair->Err_0 == TlsError::SelfSignedFailed,
    {
        match self {
            ServerTlsIdentity::SelfSigned => generate_self_signed_cert(),
            ServerTlsIdentity::Provided { cert_pem, key_pem } => Ok(
                (copy_bytes(cert_pem.as_slice()), copy_bytes(key_pem.as_slice())),
            ),
        }
    }

    /// A copy of this identity.
    pub fn duplicate(&self) -> (copy: Self)
        ensures
            copy@ == self@,
    {
        match self {
            ServerTlsIdentity::SelfSigned => ServerTlsIdentity::SelfSigned,
            ServerTlsIdentity::Provided { cert_pem, key_pem } => ServerTlsIdentity::Provided {
                cert_pem: copy_bytes(cert_pem.as_slice()),
                key_pem: copy_bytes(key_pem.as_slice()),
            },
        }
    }

    /// Whether two identities present the same certificate and key.
    pub fn same_as(&self, other: &Self) -> (same: bool)
        ensures
            same == (self@ == other@),
    {
        match (self, other) {
            (ServerTlsIdentity::SelfSigned, ServerTlsIdentity::SelfSigned) => true,
            (
                ServerTlsIdentity::Provided { cert_pem, key_pem },
                ServerTlsIdentity::Provided { cert_pem: other_cert, key_pem: other_key },
            ) => same_bytes(cert_pem.as_slice(), other_cert.as_slice()) && same_bytes(
                key_pem.as_slice(),
                other_key.as_slice(),
            ),
            _ => false,
        }
    }
}

/// The window of the first certificate section.
pub open spec fn leaf_window(sections: Seq<Option<Seq<u8>>>) -> Result<(int, int), TlsError> {
    if sections.len() == 0 {
        Err(TlsError::NoCertificate)
    } else {
        match sections[0] {
            None => Err(TlsError::InvalidCertificatePem),
            Some(der) => certificate_window(der),
        }
    }
}

/// The window shared by the first `count` certificate sections, of which there is at least one:
/// it starts when the last of them starts and ends when the first of them ends.
pub open spec fn shared_window(sections: Seq<Option<Seq<u8>>>, count: int) -> Result<
    (int, int),
    TlsError,
>
    decreases count,
{
    if count <= 1 {
        leaf_window(sections)
    } else {
        match shared_window(sections, count - 1) {
            Err(error) => Err(error),
            Ok((not_before, not_after)) => match sections[count - 1] {
                None => Err(TlsError::InvalidCertificatePem),
                Some(der) => match certificate_window(der) {
                    Err(error) => Err(error),
                    Ok((start, end)) => Ok(
                        (
                            if start > not_before {
                                start
                            } else {
                                not_before
                            },
                            if end < not_after {
                                end
                            } else {
                                not_after
                            },
                        ),
                    ),
                },
            },
        }
    }
}

/// The first thing wrong, at the time `now`, with the certificate sections from `from` on.
pub open spec fn chain_at(sections: Seq<Option<Seq<u8>>>, from: int, now: int) -> Result<
    (),
    TlsError,
>
    decreases sections.len() - from,
{
    if from >= sections.len() {
        Ok(())
    } else {
        match sections[from] {
            None => Err(TlsError::InvalidCertificatePem),
            Some(der) => match certificate_window(der) {
                Err(error) => Err(error),
                Ok((not_before, not_after)) => if now < not_before {
                    Err(TlsError::NotYetValid { index: from as usize })
                } else if now > not_after {
                    Err(TlsError::Expired { index: from as usize })
                } else {
                    chain_at(sections, from + 1, now)
                },
            },
        }
    }
}

/// What is wrong with a served chain at the time `now`.
pub open spec fn served_chain_at(sections: Seq<Option<Seq<u8>>>, now: int) -> Result<
    (),
    TlsError,
> {
    match chain_at(sections, 0, now) {
        Err(error) => Err(error),
        Ok(_) => if sections.len() > 0 {
            Ok(())
        } else {
            Err(TlsError::NoCertificate)
        },
    }
}

/// What is wrong with an identity when the clock gives `now`, `None` being a time before 1970.
pub open spec fn identity_at(identity: ServerTlsIdentity, now: Option<u64>) -> Result<
    (),
    TlsError,
> {
    match (identity, now) {
        (ServerTlsIdentity::SelfSigned, _) => Ok(()),
        (ServerTlsIdentity::Provided { .. }, None) => Err(TlsError::ClockBeforeEpoch),
        (ServerTlsIdentity::Provided { cert_pem, .. }, Some(now)) => served_chain_at(
            pem_certificates(cert_pem@),
            now as int,
        ),
    }
}

/// Whether a window was computed as specified; an identity that is not provided has none.
pub open spec fn same_identity_window(
    identity: ServerTlsIdentity,
    window: Result<Option<CertificateValidity>, TlsError>,
    expected: Result<(int, int), TlsError>,
) -> bool {
    match (identity, window) {
        (ServerTlsIdentity::SelfSigned, Ok(found)) => found is None,
        (ServerTlsIdentity::Provided { .. }, Ok(Some(found))) => expected == Ok::<
            (int, int),
            TlsError,
        >((found.not_before_unix_seconds as int, found.not_after_unix_seconds as int)),
        (ServerTlsIdentity::Provided { .. }, Err(error)) => expected == Err::<
            (int, int),
            TlsError,
        >(error),
        _ => false,
    }
}

/// The PEM text of the certificates of a provided identity.
pub open spec fn certificate_pem(identity: ServerTlsIdentity) -> Seq<u8> {
    match identity {
        ServerTlsIdentity::SelfSigned => Seq::empty(),
        ServerTlsIdentity::Provided { cert_pem, key_pem } => cert_pem@,
    }
}

/// The validity window of the leaf certificate of a provided server identity.
pub fn server_identity_validity(identity: &ServerTlsIdentity) -> (window: Result<
    Option<CertificateValidity>,
    TlsError,
>)
    ensures
        same_identity_window(
            *identity,
            window,
            leaf_window(pem_certificates(certificate_pem(*identity))),
        ),
{
    match identity {
        ServerTlsIdentity::SelfSigned => Ok(None),
        ServerTlsIdentity::Provided { cert_pem, key_pem } => {
            let sections: Vec<Option<Vec<u8>>> = read_certificates(cert_pem.as_slice());
            match leaf_validity(&sections) {
                Ok(window) => Ok(Some(window)),
                Err(error) => Err(error),
            }
        },
    }
}

/// The validity window of the first of the decoded certificate sections.
pub fn leaf_validity(sections: &Vec<Option<Vec<u8>>>) -> (window: Result<
    CertificateValidity,
    TlsError,
>)
    ensures
        super::der::same_window(window, leaf_window(sections_bytes(sections@))),
{
    if sections.len() == 0 {
        return Err(TlsError::NoCertificate);
    }
    section_validity(&sections[0])
}

fn section_validity(section: &Option<Vec<u8>>) -> (window: Result<CertificateValidity, TlsError>)
    ensures
        super::der::same_window(
            window,
            match section_bytes(*section) {
                None => Err(TlsError::InvalidCertificatePem),
                Some(der) => certificate_window(der),
            },
        ),
{
    match section {
        None => Err(TlsError::InvalidCertificatePem),
        Some(der) => parse_certificate_validity(der.as_slice()),
    }
}

/// The validity window shared by every certificate of a provided server identity.
pub fn server_identity_effective_validity(identity: &ServerTlsIdentity) -> (window: Result<
    Option<CertificateValidity>,
    TlsError,
>)
    ensures
        same_identity_window(
            *identity,
            window,
            shared_window(
                pem_certificates(certificate_pem(*identity)),
                pem_certificates(certificate_pem(*identity)).len() as int,
            ),
        ),
{
    match identity {
        ServerTlsIdentity::SelfSigned => Ok(None),
        ServerTlsIdentity::Provided { cert_pem, key_pem } => {
            let sections: Vec<Option<Vec<u8>>> = read_certificates(cert_pem.as_slice());
            match effective_validity(&sections) {
                Ok(window) => Ok(Some(window)),
                Err(error) => Err(error),
            }
        },
    }
}

proof fn lemma_shared_window_error(sections: Seq<Option<Seq<u8>>>, count: int, longer: int)
    requires
        1 <= count <= longer,
        shared_window(sections, count) is Err,
    ensures
        shared_window(sections, longer) == shared_window(sections, count),
    decreases longer,
{
    if count < longer {
        lemma_shared_window_error(sections, count, longer - 1);
    }
}

/// The validity window shared by all decoded certificate sections.
pub fn effective_validity(sections: &Vec<Option<Vec<u8>>>) -> (window: Result<
    CertificateValidity,
    TlsError,
>)
    ensures
        super::der::same_window(
            window,
            shared_window(sections_bytes(sections@), sections@.len() as int),
        ),
{
    let ghost bytes = sections_bytes(sections@);
    let mut effective: CertificateValidity = match leaf_validity(sections) {
        Ok(window) => window,
        Err(error) => {
            proof {
                if sections@.len() > 0 {
                    lemma_shared_window_error(bytes, 1, sections@.len() as int);
                }
            }
            return Err(error);
        },
    };
    let mut count: usize = 1;
    while count < sections.len()
        invariant
            bytes == sections_bytes(sections@),
            1 <= count <= sections@.len(),
            super::der::same_window(Ok(effective), shared_window(bytes, count as int)),
        decreases sections@.len() - count,
    {
        let validity: CertificateValidity = match section_validity(&sections[count]) {
            Ok(window) => window,
            Err(error) => {
                proof {
                    assert(shared_window(bytes, count + 1) is Err);
                    lemma_shared_window_error(bytes, count + 1, sections@.len() as int);
                }
                return Err(error);
            },
        };
        if validity.not_before_unix_seconds > effective.not_before_unix_seconds {
            effective.not_before_unix_seconds = validity.not_before_unix_seconds;
        }
        if validity.not_after_unix_seconds < effective.not_after_unix_seconds {
            effective.not_after_unix_seconds = validity.not_after_unix_seconds;
        }
        count = count + 1;
    }
    Ok(effective)
}

#[verifier::external_type_specification]
#[verifier::external_body]
pub struct ExSystemTime(std::time::SystemTime);

/// The time that the machine's clock gives, from `std::time::SystemTime::now`. Nothing is known of
/// a clock.
#[verifier::external_body]
fn clock_time() -> (time: std::time::SystemTime) {
    std::time::SystemTime::now()
}

/// The whole seconds from 1970 to a time, or `None` for a time before 1970.
pub uninterp spec fn epoch_seconds(time: std::time::SystemTime) -> Option<u64>;

/// The whole seconds from 1970 to a time, from `std::time::SystemTime::duration_since`, or `None`
/// for a time before 1970. They depend on the time alone; which time is how many seconds from 1970
/// is left unsaid, as nothing is known of what a time holds.
#[verifier::external_body]
fn seconds_from_epoch(time: std::time::SystemTime) -> (seconds: Option<u64>)
    ensures
        seconds == epoch_seconds(time),
{
    time.duration_since(std::time::UNIX_EPOCH).ok().map(|elapsed| elapsed.as_secs())
}

/// The seconds from 1970 to now, or `None` while the clock stands before 1970.
pub(crate) fn unix_seconds_now() -> (now: Option<u64>)
    ensures
        exists|time: std::time::SystemTime| now == #[trigger] epoch_seconds(time),
{
    seconds_from_epoch(clock_time())
}

/// Refuses a provided server identity while one of its certificates is outside its validity
/// window: the answer is that of `validate_server_identity_at` for the time that the clock
/// gives.
pub fn validate_server_identity_time(identity: &ServerTlsIdentity) -> (valid: Result<(), TlsError>)
    ensures
        identity is SelfSigned ==> valid is Ok,
        exists|now: Option<u64>| valid == #[trigger] identity_at(*identity, now),
{
    match identity {
        ServerTlsIdentity::SelfSigned => {
            assert(identity_at(*identity, None) is Ok);
            Ok(())
        },
        ServerTlsIdentity::Provided { cert_pem, key_pem } => {
            let now: Option<u64> = unix_seconds_now();
            validate_server_identity_at(identity, now)
        },
    }
}

/// Refuses a provided server identity if, at `now` seconds from 1970, one of its certificates is
/// outside its validity window, or if the clock stands before 1970.
pub fn validate_server_identity_at(identity: &ServerTlsIdentity, now: Option<u64>) -> (valid:
    Result<(), TlsError>)
    ensures
        valid == identity_at(*identity, now),
{
    match identity {
        ServerTlsIdentity::SelfSigned => Ok(()),
        ServerTlsIdentity::Provided { cert_pem, key_pem } => {
            match now {
                None => Err(TlsError::ClockBeforeEpoch),
                Some(now) => {
                    let sections: Vec<Option<Vec<u8>>> = read_certificates(cert_pem.as_slice());
                    validate_chain_at(&sections, now)
                },
            }
        },
    }
}

/// Refuses decoded certificate sections if, at `now` seconds from 1970, one of them is outside
/// its validity window.
pub fn validate_chain_at(sections: &Vec<Option<Vec<u8>>>, now: u64) -> (valid: Result<(), TlsError>)
    ensures
        valid == served_chain_at(sections_bytes(sections@), now as int),
{
    let ghost bytes = sections_bytes(sections@);
    let mut index: usize = 0;
    while index < sections.len()
        invariant
            bytes == sections_bytes(sections@),
            index <= sections@.len(),
            chain_at(bytes, 0, now as int) == chain_at(bytes, index as int, now as int),
        decreases sections@.len() - index,
    {
        let validity: CertificateValidity = match section_validity(&sections[index]) {
            Ok(window) => window,
            Err(error) => return Err(error),
        };
        if (now as i128) < validity.not_before_unix_seconds as i128 {
            return Err(TlsError::NotYetValid { index });
        }
        if now as i128 > validity.not_after_unix_seconds as i128 {
            return Err(TlsError::Expired { index });
        }
        index = index + 1;
    }
    if sections.len() == 0 {
        return Err(TlsError::NoCertificate);
    }
    Ok(())
}

/// A chain is accepted at exactly the times inside the window that its certificates share.
pub proof fn accepted_inside_the_shared_window(sections: Seq<Option<Seq<u8>>>, now: int)
    ensures
        served_chain_at(sections, now) is Ok <==> {
            let window = shared_window(sections, sections.len() as int);
            window is Ok && window->Ok_0.0 <= now <= window->Ok_0.1
        },
{
    if sections.len() > 0 {
        lemma_accepted_prefix(sections, sections.len() as int, now);
    }
}

/// Whether the first `count` sections are certificates that are valid at `now`.
spec fn all_valid_at(sections: Seq<Option<Seq<u8>>>, from: int, count: int, now: int) -> bool {
    forall|i: int|
        #![trigger sections[i]]
        from <= i < count ==> sections[i] is Some && certificate_window(sections[i]->0) is Ok
            && certificate_window(sections[i]->0)->Ok_0.0 <= now
            <= certificate_window(sections[i]->0)->Ok_0.1
}

proof fn lemma_chain_at(sections: Seq<Option<Seq<u8>>>, from: int, now: int)
    requires
        0 <= from <= sections.len(),
    ensures
        chain_at(sections, from, now) is Ok <==> all_valid_at(
            sections,
            from,
            sections.len() as int,
            now,
        ),
    decreases sections.len() - from,
{
    if from < sections.len() {
        lemma_chain_at(sections, from + 1, now);
        assert(sections[from] == sections[from]);
    }
}

proof fn lemma_shared_window(sections: Seq<Option<Seq<u8>>>, count: int, now: int)
    requires
        1 <= count <= sections.len(),
    ensures
        all_valid_at(sections, 0, count, now) <==> {
            let window = shared_window(sections, count);
            window is Ok && window->Ok_0.0 <= now <= window->Ok_0.1
        },
    decreases count,
{
    assert(sections[count - 1] == sections[count - 1]);
    if count > 1 {
        lemma_shared_window(sections, count - 1, now);
    }
}

proof fn lemma_accepted_prefix(sections: Seq<Option<Seq<u8>>>, count: int, now: int)
    requires
        1 <= count == sections.len(),
    ensures
        chain_at(sections, 0, now) is Ok <==> {
            let window = shared_window(sections, count);
            window is Ok && window->Ok_0.0 <= now <= window->Ok_0.1
        },
{
    lemma_chain_at(sections, 0, now);
    lemma_shared_window(sections, count, now);
}

} // verus!
