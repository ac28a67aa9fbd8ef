//! What holds of TLS material: when it is accepted, what comes into use, and for how long.

use super::der::{
    certificate_window, der_element, der_time, refused_at, parse_certificate_validity, parse_decimal,
    time_refused_at, utc_time, validity_window, window_behind_version, x509_time, CertificateValidity,
    TAG_GENERALIZED_TIME, TAG_INTEGER, TAG_SEQUENCE, TAG_UTC_TIME, TAG_VERSION,
};
use super::error::TlsError;
use super::identity::{
    chain_at, effective_validity, leaf_validity, server_identity_effective_validity,
    server_identity_validity, shared_window, validate_chain_at, validate_server_identity_at,
    IdentityView, ServerTlsIdentity,
};
use super::pem::{
    certified_names, pem_certificates, pem_private_key, sections_bytes, KeyEncoding, PrivateKeySection,
};
use super::quic::{
    anchors_from, build_quic_server_config, build_quic_server_config_from_pem,
    build_trusted_quic_client_config_with_alpn, client_config_from_sections, client_holds, client_trust, is_key_pair,
    server_config_from_sections, server_holds, server_material, trust_anchor, trust_bundle,
    ClientTrust,
};
use super::reload::{
    bounded_material, check_identity_paths, read_server_identity, read_trust_bundle,
    FileRead, IdentityPaths, MaterialRead, ServerIdentityReloader,
};
use super::rotation::{
    activate_identity, check_reload_interval, finishes, identity_expiry, identity_is_ready, prepares, rotates,
    shown_expiry, IdentityRotation, IdentityRotationState, ServerIdentityRotation,
    TlsMaterial, TlsReloadOutcome, TrustRotation, TrustRotationState,
};
use crate::bytes::byte_strings;
use vstd::prelude::*;

verus! {

/// Whether a section holds a certificate whose window can be read and contains the moment.
pub open spec fn valid_then(section: Option<Seq<u8>>, moment: int) -> bool {
    match section {
        None => false,
        Some(der) => match certificate_window(der) {
            Err(_) => false,
            Ok((not_before, not_after)) => not_before <= moment && moment <= not_after,
        },
    }
}

proof fn lemma_shared_window(sections: Seq<Option<Seq<u8>>>, count: int, moment: int)
    requires
        1 <= count <= sections.len(),
    ensures
        shared_window(sections, count) is Ok <==> forall|i: int|
            0 <= i < count ==> (#[trigger] sections[i]) is Some && certificate_window(
                sections[i]->0,
            ) is Ok,
        shared_window(sections, count) matches Ok((not_before, not_after)) ==> (not_before <= moment
            && moment <= not_after <==> forall|i: int|
            0 <= i < count ==> valid_then(#[trigger] sections[i], moment)),
    decreases count,
{
    assert(sections[count - 1] == sections[count - 1]);
    if count > 1 {
        lemma_shared_window(sections, count - 1, moment);
    } else {
        assert(sections[0] == sections[0]);
    }
}

/// A chain of certificates is valid while all of them are, and has a window if and only if there is
/// a certificate and every one can be read.
pub proof fn a_chain_is_valid_while_all_of_it_is(
    sections: Vec<Option<Vec<u8>>>,
    window: Result<CertificateValidity, TlsError>,
    moment: int,
)
    requires
        call_ensures(effective_validity, (&sections,), window),
    ensures
        ({
            let parts = sections_bytes(sections@);
            &&& window is Ok <==> parts.len() > 0 && forall|i: int|
                0 <= i < parts.len() ==> (#[trigger] parts[i]) is Some && certificate_window(
                    parts[i]->0,
                ) is Ok
            &&& window matches Ok(shared) ==> (shared.not_before_unix_seconds <= moment && moment
                <= shared.not_after_unix_seconds <==> forall|i: int|
                0 <= i < parts.len() ==> valid_then(#[trigger] parts[i], moment))
        }),
{
    let parts = sections_bytes(sections@);
    if parts.len() > 0 {
        lemma_shared_window(parts, parts.len() as int, moment);
    }
}

/// The window of a leaf is that of the first certificate alone.
pub proof fn a_leaf_is_the_first_certificate(
    sections: Vec<Option<Vec<u8>>>,
    window: Result<CertificateValidity, TlsError>,
    first: Result<CertificateValidity, TlsError>,
)
    requires
        call_ensures(leaf_validity, (&sections,), window),
    ensures
        sections@.len() == 0 ==> window == Err::<CertificateValidity, TlsError>(
            TlsError::NoCertificate,
        ),
        sections@.len() > 0 && sections@[0] is None ==> window == Err::<
            CertificateValidity,
            TlsError,
        >(TlsError::InvalidCertificatePem),
        forall|der: &[u8]|
            sections@.len() > 0 && sections@[0] is Some && sections@[0]->0@ == der@
                && #[trigger] call_ensures(parse_certificate_validity, (der,), first) ==> window
                == first,
{
}

/// Whether a refusal is about what a certificate holds, not about the time at which it is looked at.
spec fn is_timeless(error: TlsError) -> bool {
    !(error is NotYetValid) && !(error is Expired)
}

proof fn lemma_element_errors(input: Seq<u8>, at: int, tag: u8)
    ensures
        der_element(input, at, tag) is Err ==> is_timeless(der_element(input, at, tag)->Err_0),
{
}

proof fn lemma_time_errors(tag: u8, value: Seq<u8>)
    ensures
        x509_time(tag, value) is Err ==> is_timeless(x509_time(tag, value)->Err_0),
{
    if tag == TAG_UTC_TIME && value.len() == 13 {
        lemma_rest_errors(value.subrange(2, 13));
    } else if tag == TAG_GENERALIZED_TIME && value.len() == 15 {
        lemma_rest_errors(value.subrange(4, 15));
    }
}

proof fn lemma_rest_errors(rest: Seq<u8>)
    ensures
        forall|year: int|
            (#[trigger] utc_time(year, rest)) is Err ==> is_timeless(utc_time(year, rest)->Err_0),
{
}

proof fn lemma_der_time_errors(input: Seq<u8>, at: int)
    ensures
        der_time(input, at) is Err ==> is_timeless(der_time(input, at)->Err_0),
{
    if at < input.len() {
        lemma_element_errors(input, at, input[at]);
        if let Ok((value, end)) = der_element(input, at, input[at]) {
            lemma_time_errors(input[at], value);
        }
    }
}

proof fn lemma_validity_errors(input: Seq<u8>)
    ensures
        validity_window(input) is Err ==> is_timeless(validity_window(input)->Err_0),
{
    lemma_der_time_errors(input, 0);
    if let Ok((not_before, middle)) = der_time(input, 0) {
        lemma_der_time_errors(input, middle);
    }
}

proof fn lemma_behind_errors(tbs: Seq<u8>, at: int)
    ensures
        window_behind_version(tbs, at) is Err ==> is_timeless(window_behind_version(tbs, at)->Err_0),
{
    lemma_element_errors(tbs, at, TAG_INTEGER);
    if let Ok((serial, after_serial)) = der_element(tbs, at, TAG_INTEGER) {
        lemma_element_errors(tbs, after_serial, TAG_SEQUENCE);
        if let Ok((algorithm, after_algorithm)) = der_element(tbs, after_serial, TAG_SEQUENCE) {
            lemma_element_errors(tbs, after_algorithm, TAG_SEQUENCE);
            if let Ok((issuer, after_issuer)) = der_element(tbs, after_algorithm, TAG_SEQUENCE) {
                lemma_element_errors(tbs, after_issuer, TAG_SEQUENCE);
                if let Ok((validity, end)) = der_element(tbs, after_issuer, TAG_SEQUENCE) {
                    lemma_validity_errors(validity);
                }
            }
        }
    }
}

proof fn lemma_window_errors(cert: Seq<u8>)
    ensures
        certificate_window(cert) is Err ==> is_timeless(certificate_window(cert)->Err_0),
{
    reveal(certificate_window);
    lemma_element_errors(cert, 0, TAG_SEQUENCE);
    if let Ok((certificate, end)) = der_element(cert, 0, TAG_SEQUENCE) {
        lemma_element_errors(certificate, 0, TAG_SEQUENCE);
        if let Ok((tbs, tbs_end)) = der_element(certificate, 0, TAG_SEQUENCE) {
            lemma_element_errors(tbs, 0, TAG_VERSION);
            lemma_behind_errors(tbs, 0);
            if let Ok((version, after)) = der_element(tbs, 0, TAG_VERSION) {
                lemma_behind_errors(tbs, after);
            }
        }
    }
}

proof fn lemma_chain_at(sections: Seq<Option<Seq<u8>>>, from: int, moment: int)
    requires
        0 <= from <= sections.len(),
    ensures
        chain_at(sections, from, moment) is Ok <==> forall|i: int|
            from <= i < sections.len() ==> valid_then(#[trigger] sections[i], moment),
        chain_at(sections, from, moment) matches Err(TlsError::NotYetValid { index })
            ==> sections.len() <= usize::MAX ==> {
            &&& from <= index < sections.len()
            &&& sections[index as int] is Some
            &&& certificate_window(sections[index as int]->0) is Ok
            &&& moment < certificate_window(sections[index as int]->0)->Ok_0.0
            &&& forall|i: int| from <= i < index ==> valid_then(#[trigger] sections[i], moment)
        },
        chain_at(sections, from, moment) matches Err(TlsError::Expired { index })
            ==> sections.len() <= usize::MAX ==> {
            &&& from <= index < sections.len()
            &&& sections[index as int] is Some
            &&& certificate_window(sections[index as int]->0) is Ok
            &&& moment > certificate_window(sections[index as int]->0)->Ok_0.1
            &&& forall|i: int| from <= i < index ==> valid_then(#[trigger] sections[i], moment)
        },
    decreases sections.len() - from,
{
    if from < sections.len() {
        lemma_chain_at(sections, from + 1, moment);
        if sections[from] is Some {
            lemma_window_errors(sections[from]->0);
        }
    }
}

/// A chain is accepted at a moment if there is a certificate and all are valid then. A certificate
/// that is not valid yet, or no more, is named by its place, and all before it are valid.
pub proof fn a_chain_is_accepted_while_it_is_valid(
    sections: Vec<Option<Vec<u8>>>,
    now: u64,
    valid: Result<(), TlsError>,
)
    requires
        sections@.len() <= usize::MAX,
        call_ensures(validate_chain_at, (&sections, now), valid),
    ensures
        ({
            let parts = sections_bytes(sections@);
            &&& valid is Ok <==> parts.len() > 0 && forall|i: int|
                0 <= i < parts.len() ==> valid_then(#[trigger] parts[i], now as int)
            &&& parts.len() == 0 ==> valid == Err::<(), TlsError>(TlsError::NoCertificate)
            &&& valid matches Err(TlsError::NotYetValid { index }) ==> index < parts.len()
                && parts[index as int] is Some && certificate_window(parts[index as int]->0) is Ok
                && now < certificate_window(parts[index as int]->0)->Ok_0.0 && forall|i: int|
                0 <= i < index ==> valid_then(#[trigger] parts[i], now as int)
            &&& valid matches Err(TlsError::Expired { index }) ==> index < parts.len()
                && parts[index as int] is Some && certificate_window(parts[index as int]->0) is Ok
                && now > certificate_window(parts[index as int]->0)->Ok_0.1 && forall|i: int|
                0 <= i < index ==> valid_then(#[trigger] parts[i], now as int)
        }),
{
    lemma_chain_at(sections_bytes(sections@), 0, now as int);
}

/// Material that the server makes itself does not expire and is never refused. Provided material is
/// refused while the clock cannot be read.
pub proof fn own_material_does_not_expire(
    identity: ServerTlsIdentity,
    now: Option<u64>,
    valid: Result<(), TlsError>,
    window: Result<Option<CertificateValidity>, TlsError>,
    leaf: Result<Option<CertificateValidity>, TlsError>,
)
    requires
        call_ensures(validate_server_identity_at, (&identity, now), valid),
        call_ensures(server_identity_effective_validity, (&identity,), window),
        call_ensures(server_identity_validity, (&identity,), leaf),
    ensures
        identity is SelfSigned ==> valid is Ok && window is Ok && window->Ok_0 is None && leaf is Ok
            && leaf->Ok_0 is None,
        identity is Provided && now is None ==> valid == Err::<(), TlsError>(
            TlsError::ClockBeforeEpoch,
        ),
        identity is Provided && now is Some && valid is Ok ==> window is Ok && window->Ok_0
            is Some && window->Ok_0->0.not_before_unix_seconds <= now->0
            <= window->Ok_0->0.not_after_unix_seconds,
        identity is Provided && window is Ok ==> leaf is Ok && window->Ok_0 is Some && leaf->Ok_0
            is Some && leaf->Ok_0->0.not_before_unix_seconds
            <= window->Ok_0->0.not_before_unix_seconds && window->Ok_0->0.not_after_unix_seconds
            <= leaf->Ok_0->0.not_after_unix_seconds,
{
    if identity is Provided {
        let parts = pem_certificates(identity->cert_pem@);
        if now is Some {
            super::identity::accepted_inside_the_shared_window(parts, now->0 as int);
        }
        if parts.len() > 0 && window is Ok {
            lemma_within_the_leaf(parts, parts.len() as int);
        }
    }
}

proof fn lemma_within_the_leaf(sections: Seq<Option<Seq<u8>>>, count: int)
    requires
        1 <= count <= sections.len(),
        shared_window(sections, count) is Ok,
    ensures
        sections[0] is Some,
        certificate_window(sections[0]->0) is Ok,
        certificate_window(sections[0]->0)->Ok_0.0 <= shared_window(sections, count)->Ok_0.0,
        shared_window(sections, count)->Ok_0.1 <= certificate_window(sections[0]->0)->Ok_0.1,
    decreases count,
{
    if count > 1 {
        lemma_within_the_leaf(sections, count - 1);
    }
}

/// A certificate and a key come together: both are taken as they are, one without the other is
/// refused and the missing one named.
pub proof fn certificate_and_key_come_together(
    cert_pem: Option<Vec<u8>>,
    key_pem: Option<Vec<u8>>,
    identity: Result<ServerTlsIdentity, TlsError>,
)
    requires
        call_ensures(ServerTlsIdentity::from_optional_pem, (cert_pem, key_pem), identity),
    ensures
        identity is Ok <==> (cert_pem is Some <==> key_pem is Some),
        identity matches Ok(made) ==> (made is Provided <==> cert_pem is Some),
        identity is Ok && identity->Ok_0 is Provided ==> identity->Ok_0->cert_pem == cert_pem->0
            && identity->Ok_0->key_pem == key_pem->0,
        cert_pem is Some && key_pem is None ==> identity->Err_0 == TlsError::KeyPemMissing,
        cert_pem is None && key_pem is Some ==> identity->Err_0 == TlsError::CertPemMissing,
{
}

/// Files are read up to a megabyte; what is read is what they hold.
pub proof fn files_are_read_up_to_a_megabyte(read: FileRead, contents: Result<Vec<u8>, TlsError>)
    requires
        call_ensures(bounded_material, (read,), contents),
    ensures
        read is Unreadable ==> contents is Err && contents->Err_0 == TlsError::Unreadable,
        read matches FileRead::Contents(held) ==> {
            &&& held@.len() <= 1024 * 1024 <==> contents is Ok
            &&& contents matches Ok(material) ==> material@ == held@
            &&& contents matches Err(error) ==> error == TlsError::Oversized
        },
{
}

/// A certificate and a key of one directory are read only if both still stand in one once links are
/// followed, so that they are of one generation. A path that leads nowhere is named.
pub proof fn files_are_of_one_generation(paths: IdentityPaths, checked: Result<(), TlsError>)
    requires
        call_ensures(check_identity_paths, (paths,), checked),
    ensures
        checked is Ok <==> paths.cert_resolves && paths.key_resolves && (paths.same_directory
            ==> paths.same_resolved_directory),
        !paths.cert_resolves ==> checked->Err_0 == TlsError::CertPathUnresolved,
        paths.cert_resolves && !paths.key_resolves ==> checked->Err_0
            == TlsError::KeyPathUnresolved,
        checked is Err && paths.cert_resolves && paths.key_resolves ==> checked->Err_0
            == TlsError::MixedGenerations,
{
}

/// An identity that is read from files is what the files hold, a pair that servers can use, valid at
/// the time.
pub proof fn identities_that_are_read_can_be_used(
    paths: IdentityPaths,
    cert: FileRead,
    key: FileRead,
    now: Option<u64>,
    identity: Result<ServerTlsIdentity, TlsError>,
    k: int,
)
    requires
        call_ensures(read_server_identity, (paths, cert, key, now), identity),
    ensures
        identity matches Ok(accepted) ==> {
            &&& accepted is Provided
            &&& paths.cert_resolves && paths.key_resolves
            &&& paths.same_directory ==> paths.same_resolved_directory
            &&& cert matches FileRead::Contents(held) && held@ == accepted->cert_pem@
                && held@.len() <= 1024 * 1024
            &&& key matches FileRead::Contents(held) && held@ == accepted->key_pem@
                && held@.len() <= 1024 * 1024
            &&& now is Some
            &&& 0 <= k < pem_certificates(accepted->cert_pem@).len() ==> valid_then(
                pem_certificates(accepted->cert_pem@)[k],
                now->0 as int,
            )
            &&& pem_certificates(accepted->cert_pem@).len() > 0
            &&& pem_private_key(accepted->key_pem@) matches Ok(Some(found)) && is_key_pair(
                super::quic::decoded(pem_certificates(accepted->cert_pem@)),
                found,
            )
        },
{
    if identity is Ok {
        let parts = pem_certificates(identity->Ok_0->cert_pem@);
        lemma_chain_at(parts, 0, now->0 as int);
        if 0 <= k < parts.len() {
            assert(valid_then(parts[k], now->0 as int));
        }
    }
}

/// A trust bundle that is read is what the file holds, and every certificate in it can be an anchor.
pub proof fn trust_that_is_read_can_be_anchored(
    resolves: bool,
    read: FileRead,
    bundle: Result<Vec<u8>, TlsError>,
    k: int,
)
    requires
        call_ensures(read_trust_bundle, (resolves, read), bundle),
    ensures
        !resolves ==> bundle is Err && bundle->Err_0 == TlsError::TrustPathUnresolved,
        resolves && read is Unreadable ==> bundle is Err && bundle->Err_0
            == TlsError::Unreadable,
        bundle matches Ok(accepted) ==> {
            let parts = pem_certificates(accepted@);
            &&& read matches FileRead::Contents(held) && held@ == accepted@ && held@.len() <= 1024
                * 1024
            &&& parts.len() > 0
            &&& 0 <= k < parts.len() ==> parts[k] is Some && trust_anchor(parts[k]->0) is Some
        },
{
    if bundle is Ok {
        lemma_anchors(pem_certificates(bundle->Ok_0@), 0);
    }
}

proof fn lemma_anchors(sections: Seq<Option<Seq<u8>>>, from: int)
    requires
        0 <= from <= sections.len(),
    ensures
        anchors_from(sections, from) is Ok <==> forall|i: int|
            from <= i < sections.len() ==> (#[trigger] sections[i]) is Some && trust_anchor(
                sections[i]->0,
            ) is Some,
    decreases sections.len() - from,
{
    if from < sections.len() {
        lemma_anchors(sections, from + 1);
        assert(sections[from] == sections[from]);
    }
}

/// A client trusts every certificate of its bundle, in order, and no other; a bundle without any, or
/// with one that cannot be an anchor, is refused.
pub proof fn clients_trust_the_whole_bundle(
    sections: Vec<Option<Vec<u8>>>,
    alpn_protocols: Vec<Vec<u8>>,
    config: Result<quinn::ClientConfig, TlsError>,
    k: int,
)
    requires
        call_ensures(client_config_from_sections, (&sections, alpn_protocols), config),
    ensures
        ({
            let parts = sections_bytes(sections@);
            &&& config is Ok <==> parts.len() > 0 && forall|i: int|
                0 <= i < parts.len() ==> (#[trigger] parts[i]) is Some && trust_anchor(parts[i]->0)
                    is Some
            &&& parts.len() == 0 ==> config->Err_0 == TlsError::EmptyTrustBundle
            &&& config matches Ok(made) ==> {
                let (anchors, protocols) = client_holds(made);
                &&& anchors.len() == parts.len()
                &&& 0 <= k < parts.len() ==> Some(anchors[k]) == trust_anchor(parts[k]->0)
                &&& protocols == byte_strings(alpn_protocols@)
            }
        }),
{
    lemma_anchors(sections_bytes(sections@), 0);
}

/// A server presents its whole chain, in order, with the key of the first; what is missing or does
/// not fit is refused.
pub proof fn servers_present_the_whole_chain(
    sections: Vec<Option<Vec<u8>>>,
    key: Result<Option<PrivateKeySection>, TlsError>,
    alpn_protocols: Vec<Vec<u8>>,
    config: Result<quinn::ServerConfig, TlsError>,
    k: int,
)
    requires
        call_ensures(server_config_from_sections, (sections, key, alpn_protocols), config),
    ensures
        ({
            let parts = sections_bytes(sections@);
            &&& (exists|i: int| 0 <= i < parts.len() && (#[trigger] parts[i]) is None)
                ==> config->Err_0 == TlsError::InvalidCertificatePem && config is Err
            &&& parts.len() == 0 ==> config is Err && config->Err_0 == TlsError::NoCertificate
            &&& config matches Ok(made) ==> {
                let (chain, pair, protocols) = server_holds(made);
                &&& parts.len() > 0
                &&& chain.len() == parts.len()
                &&& 0 <= k < parts.len() ==> parts[k] == Some(chain[k])
                &&& key matches Ok(Some(found)) && pair == (found.encoding, found.der@)
                &&& is_key_pair(chain, pair)
                &&& protocols == byte_strings(alpn_protocols@)
            }
            &&& config is Err && parts.len() > 0 && (forall|i: int|
                0 <= i < parts.len() ==> (#[trigger] parts[i]) is Some) ==> {
                &&& key matches Ok(None) ==> config->Err_0 == TlsError::NoPrivateKey
                &&& key is Err ==> config->Err_0 == key->Err_0
                &&& key matches Ok(Some(_)) ==> config->Err_0 == TlsError::InvalidTlsConfig
            }
        }),
{
}

/// A client that is told to trust anyone does; any other needs something to trust.
pub proof fn clients_need_something_to_trust(
    cert_pem: Option<Vec<u8>>,
    insecure: bool,
    trust: Result<ClientTrust, TlsError>,
)
    requires
        call_ensures(client_trust, (cert_pem, insecure), trust),
    ensures
        trust matches Ok(ClientTrust::Unverified) <==> insecure,
        !insecure ==> (trust is Ok <==> cert_pem is Some),
        trust matches Ok(ClientTrust::Anchored { trust_pem }) ==> Some(trust_pem) == cert_pem,
        trust is Err ==> trust->Err_0 == TlsError::MissingTrust,
{
}

/// However an attempt to rotate ends, what is in use was in use before or has just been activated.
/// It changes exactly when a rotation reports that it was activated, to material that was read and
/// differs from what was in use; then the expiry is the end of the window that is reported.
pub proof fn only_activated_material_comes_into_use(
    before: IdentityRotationState,
    attempt: MaterialRead<IdentityView>,
    alpn_protocols: Seq<Seq<u8>>,
    rotation: IdentityRotation,
    now: IdentityRotationState,
    outcome: Option<TlsReloadOutcome>,
)
    requires
        rotates(before, attempt, alpn_protocols, rotation, now),
        call_ensures(IdentityRotation::outcome, (&rotation,), outcome),
    ensures
        rotation is Activated <==> now.reload.current != before.reload.current,
        !(rotation is Activated) ==> now.expiry == before.expiry,
        rotation is Activated ==> {
            &&& attempt matches MaterialRead::Valid(read) && read == now.reload.current
            &&& now.reload.current is Provided
            &&& now.expiry == rotation->validity.not_after_unix_seconds
        },
        attempt is Valid && attempt->Valid_0 == before.reload.current ==> rotation is Unchanged,
        attempt is Valid ==> now.reload.last_rejected is None,
        attempt matches MaterialRead::Rejected { error, fingerprint } ==> {
            &&& now.reload.last_rejected == Some(fingerprint)
            &&& rotation is Unchanged <==> before.reload.last_rejected == Some(fingerprint)
            &&& rotation is Rejected ==> rotation->Rejected_error == error
        },
        outcome is None <==> rotation is Unchanged,
        outcome == Some(TlsReloadOutcome::Success) <==> rotation is Activated,
        outcome == Some(TlsReloadOutcome::Rejected) <==> rotation is Rejected,
{
}

/// Preparing a replacement of what clients trust puts nothing into use; what is prepared is what was
/// read, and differs from what is in use.
pub proof fn prepared_trust_is_not_in_use_yet(
    before: TrustRotationState,
    attempt: MaterialRead<Seq<u8>>,
    alpn_protocols: Seq<Seq<u8>>,
    rotation: TrustRotation,
    now: TrustRotationState,
)
    requires
        prepares(before, attempt, alpn_protocols, rotation, now),
    ensures
        now.reload.current == before.reload.current,
        now.generation == before.generation,
        rotation is Prepared ==> attempt is Valid && attempt->Valid_0 == rotation->candidate@
            && attempt->Valid_0 != before.reload.current,
        attempt is Valid && attempt->Valid_0 == before.reload.current ==> rotation is Unchanged,
        attempt is Valid ==> now.reload.last_rejected is None,
        attempt matches MaterialRead::Rejected { error, fingerprint } ==> {
            &&& now.reload.last_rejected == Some(fingerprint)
            &&& rotation is Unchanged <==> before.reload.last_rejected == Some(fingerprint)
            &&& rotation is Rejected ==> rotation->Rejected_error == error
        },
{
}

/// A prepared replacement is in use once every endpoint has it, under the next generation, and only
/// then are earlier connections closed.
pub proof fn trust_comes_into_use_with_all_endpoints(
    before: TrustRotationState,
    candidate: Seq<u8>,
    endpoints_replaced: bool,
    close: Option<&str>,
    now: TrustRotationState,
)
    requires
        finishes(before, candidate, endpoints_replaced, close, now),
    ensures
        close is Some <==> endpoints_replaced,
        close is Some ==> close->0@ == "TLS trust configuration replaced"@,
        now.reload.current == if endpoints_replaced {
            candidate
        } else {
            before.reload.current
        },
        now.generation - before.generation == if endpoints_replaced {
            1int
        } else {
            0
        },
        now.reload.last_rejected == before.reload.last_rejected,
{
}

/// Material with an end is ready up to that second and not after it, and not while the clock cannot
/// be read; material without an end always is, and shows none.
pub proof fn material_is_ready_until_it_expires(
    validity: Option<CertificateValidity>,
    now: Option<u64>,
    expiry: i64,
    ready: bool,
    shown: Option<i64>,
)
    requires
        validity is Some ==> validity->0.not_after_unix_seconds < i64::MAX,
        call_ensures(identity_expiry, (validity,), expiry),
        call_ensures(identity_is_ready, (expiry, now), ready),
        call_ensures(shown_expiry, (expiry,), shown),
    ensures
        validity is None ==> ready && shown is None,
        validity matches Some(window) ==> {
            &&& ready <==> now is Some && now->0 <= window.not_after_unix_seconds
            &&& shown == Some(window.not_after_unix_seconds)
        },
{
}

/// Material is looked at again after an interval of any length but none.
pub proof fn intervals_are_not_empty(interval_nanos: u128, checked: Result<(), TlsError>)
    requires
        call_ensures(check_reload_interval, (interval_nanos,), checked),
    ensures
        checked is Ok <==> interval_nanos > 0,
        checked is Err ==> checked->Err_0 == TlsError::ZeroReloadInterval,
{
}

/// An element that is read starts with its tag, and is what stands before its end; a refusal says
/// what is wrong with the tag, the length or the value.
pub proof fn elements_lie_within_the_input(input: Seq<u8>, at: int, tag: u8)
    requires
        0 <= at <= input.len() <= usize::MAX,
    ensures
        der_element(input, at, tag) matches Ok((value, end)) ==> {
            &&& input[at] == tag
            &&& at + 2 + value.len() <= end <= at + 6 + value.len()
            &&& end <= input.len()
            &&& value == input.subrange(end - value.len(), end)
            &&& input[at + 1] < 128 ==> value.len() == input[at + 1] && end == at + 2
                + value.len()
            &&& input[at + 1] >= 128 ==> end == at + 2 + (input[at + 1] - 128) + value.len()
        },
        der_element(input, at, tag) == Err::<(Seq<u8>, int), TlsError>(TlsError::UnexpectedDerTag)
            <==> at == input.len() || input[at] != tag,
        der_element(input, at, tag) == Err::<(Seq<u8>, int), TlsError>(TlsError::MissingDerLength)
            <==> at + 1 == input.len() && input[at] == tag,
        der_element(input, at, tag) == Err::<(Seq<u8>, int), TlsError>(
            TlsError::UnsupportedDerLength,
        ) <==> at + 1 < input.len() && input[at] == tag && (input[at + 1] == 128 || input[at + 1]
            > 132),
        der_element(input, at, tag) == Err::<(Seq<u8>, int), TlsError>(
            TlsError::TruncatedDerLength,
        ) <==> at + 1 < input.len() && input[at] == tag && 128 < input[at + 1] <= 132 && at + 2 + (
        input[at + 1] - 128) > input.len(),
{
}

/// Decimal digits are read from the highest to the lowest; anything else is refused, and so is a
/// number that is too large.
pub proof fn decimals_are_read_digit_by_digit(
    input: &[u8],
    longer: &[u8],
    digit: u8,
    value: Result<i64, TlsError>,
    longer_value: Result<i64, TlsError>,
)
    requires
        call_ensures(parse_decimal, (input,), value),
        call_ensures(parse_decimal, (longer,), longer_value),
        longer@ == input@.push(digit),
    ensures
        input@.len() == 0 ==> value is Ok && value->Ok_0 == 0,
        !(48 <= digit <= 57) ==> longer_value is Err && longer_value->Err_0
            == TlsError::InvalidDecimal,
        48 <= digit <= 57 && value is Ok ==> if 10 * value->Ok_0 + digit - 48 <= i64::MAX {
            longer_value is Ok && longer_value->Ok_0 == 10 * value->Ok_0 + digit - 48
        } else {
            longer_value is Err && longer_value->Err_0 == TlsError::DecimalOverflow
        },
        48 <= digit <= 57 && value is Err ==> longer_value is Err && longer_value->Err_0
            == value->Err_0,
{
    assert(longer@.drop_last() =~= input@);
    assert(longer@.last() == digit);
    if super::der::all_digits(input@) && 48 <= digit <= 57 {
        assert(super::der::all_digits(longer@));
    }
    if super::der::all_digits(longer@) {
        assert forall|i: int| 0 <= i < input@.len() implies 48 <= #[trigger] input@[i] <= 57 by {
            assert(longer@[i] == input@[i]);
        }
    }
    if !(48 <= digit <= 57) {
        assert(longer@[input@.len() as int] == digit);
    }
}

/// A server configuration that is made from PEM holds the certificates and the key of the PEM and the
/// protocols that are given; one that the server makes itself holds one certificate, for `localhost`
/// and `stargate`.
pub proof fn server_configurations_hold_what_is_given(
    identity: ServerTlsIdentity,
    alpn_protocols: Vec<Vec<u8>>,
    config: quinn::ServerConfig,
    k: int,
)
    requires
        call_ensures(
            build_quic_server_config,
            (&identity, alpn_protocols),
            Ok::<quinn::ServerConfig, TlsError>(config),
        ),
    ensures
        ({
            let (chain, pair, protocols) = server_holds(config);
            &&& protocols == byte_strings(alpn_protocols@)
            &&& identity matches ServerTlsIdentity::Provided { cert_pem, key_pem } ==> {
                let parts = pem_certificates(cert_pem@);
                &&& chain.len() == parts.len()
                &&& chain.len() > 0
                &&& 0 <= k < parts.len() ==> parts[k] == Some(chain[k])
                &&& pem_private_key(key_pem@) matches Ok(Some(found)) && found == pair
                &&& is_key_pair(chain, pair)
            }
            &&& identity is SelfSigned ==> {
                &&& chain.len() == 1
                &&& certified_names(chain[0]).len() == 2
                &&& certified_names(chain[0])[0] == "localhost"@
                &&& certified_names(chain[0])[1] == "stargate"@
            }
        }),
{
}

/// A server configuration that is made from PEM holds its certificates, its key and the protocols.
pub proof fn pem_configurations_hold_the_pem(
    cert_pem: &[u8],
    key_pem: &[u8],
    alpn_protocols: Vec<Vec<u8>>,
    config: Result<quinn::ServerConfig, TlsError>,
    k: int,
)
    requires
        call_ensures(
            build_quic_server_config_from_pem,
            (cert_pem, key_pem, alpn_protocols),
            config,
        ),
    ensures
        ({
            let parts = pem_certificates(cert_pem@);
            &&& parts.len() == 0 ==> config is Err
            &&& config matches Ok(made) ==> {
                let (chain, pair, protocols) = server_holds(made);
                &&& protocols == byte_strings(alpn_protocols@)
                &&& chain.len() == parts.len()
                &&& 0 <= k < parts.len() ==> parts[k] == Some(chain[k])
                &&& pem_private_key(key_pem@) matches Ok(Some(found)) && found == pair
            }
        }),
{
}

/// A client configuration that is made from PEM trusts every certificate of the PEM and speaks the
/// protocols that are given.
pub proof fn client_configurations_trust_the_pem(
    cert_pem: &[u8],
    alpn_protocols: Vec<Vec<u8>>,
    config: Result<quinn::ClientConfig, TlsError>,
    k: int,
)
    requires
        call_ensures(
            build_trusted_quic_client_config_with_alpn,
            (cert_pem, alpn_protocols),
            config,
        ),
    ensures
        ({
            let parts = pem_certificates(cert_pem@);
            &&& parts.len() == 0 ==> config is Err && config->Err_0 == TlsError::EmptyTrustBundle
            &&& config matches Ok(made) ==> {
                let (anchors, protocols) = client_holds(made);
                &&& protocols == byte_strings(alpn_protocols@)
                &&& anchors.len() == parts.len()
                &&& 0 <= k < parts.len() ==> Some(anchors[k]) == trust_anchor(parts[k]->0)
            }
        }),
{
    lemma_anchors(pem_certificates(cert_pem@), 0);
}

/// An identity that comes into use is valid as long as all its certificates are; without certificates
/// of its own it does not expire.
pub proof fn identities_expire_with_their_certificates(
    reloader: ServerIdentityReloader,
    rotation: Result<ServerIdentityRotation, TlsError>,
    moment: int,
)
    requires
        call_ensures(ServerIdentityRotation::new, (reloader,), rotation),
    ensures
        rotation matches Ok(started) ==> {
            &&& started@.reload.current == reloader@.current
            &&& reloader@.current is SelfSigned ==> started@.expiry == i64::MAX
            &&& reloader@.current is Provided ==> {
                let parts = pem_certificates(reloader@.current->cert_pem);
                &&& parts.len() > 0
                &&& (forall|i: int| 0 <= i < parts.len() ==> valid_then(#[trigger] parts[i], moment))
                    ==> moment <= started@.expiry
                &&& moment == started@.expiry + 1 ==> exists|i: int|
                    0 <= i < parts.len() && !valid_then(#[trigger] parts[i], moment)
            }
        },
        reloader@.current is SelfSigned ==> rotation is Ok,
{
    if reloader@.current is Provided {
        let parts = pem_certificates(reloader@.current->cert_pem);
        if parts.len() > 0 {
            lemma_shared_window(parts, parts.len() as int, moment);
        }
    }
}

/// Activated material holds what was read, and its window is that in which all its certificates are
/// valid.
pub proof fn activated_material_is_valid_while_all_of_it_is(
    identity: ServerTlsIdentity,
    alpn_protocols: Vec<Vec<u8>>,
    config: quinn::ServerConfig,
    window: CertificateValidity,
    moment: int,
)
    requires
        identity is Provided,
        call_ensures(
            activate_identity,
            (&identity, alpn_protocols),
            Ok::<(quinn::ServerConfig, CertificateValidity), TlsError>((config, window)),
        ),
    ensures
        ({
            let parts = pem_certificates(identity->cert_pem@);
            let (chain, pair, protocols) = server_holds(config);
            &&& parts.len() > 0
            &&& chain.len() == parts.len()
            &&& protocols == byte_strings(alpn_protocols@)
            &&& window.not_before_unix_seconds <= moment && moment <= window.not_after_unix_seconds
                <==> forall|i: int|
                0 <= i < parts.len() ==> valid_then(#[trigger] parts[i], moment)
        }),
{
    let parts = pem_certificates(identity->cert_pem@);
    if parts.len() > 0 {
        lemma_shared_window(parts, parts.len() as int, moment);
    }
}

/// Two identities are the same if they hold the same certificates and the same key, or are both the
/// server's own.
pub proof fn identities_are_compared_by_what_they_hold(
    a: ServerTlsIdentity,
    b: ServerTlsIdentity,
    same: bool,
    copy: ServerTlsIdentity,
)
    requires
        call_ensures(ServerTlsIdentity::same_as, (&a, &b), same),
        call_ensures(ServerTlsIdentity::duplicate, (&a,), copy),
    ensures
        same <==> match (a, b) {
            (ServerTlsIdentity::SelfSigned, ServerTlsIdentity::SelfSigned) => true,
            (
                ServerTlsIdentity::Provided { cert_pem, key_pem },
                ServerTlsIdentity::Provided { cert_pem: other_cert, key_pem: other_key },
            ) => cert_pem@ == other_cert@ && key_pem@ == other_key@,
            _ => false,
        },
        copy is Provided <==> a is Provided,
        a is Provided ==> copy->cert_pem@ == a->cert_pem@ && copy->key_pem@ == a->key_pem@,
{
}

/// A reader that refuses an element has read what it could make sense of: nothing of an element with
/// another tag, the tag where the length is missing, the start of a length that it does not know, and
/// a whole length whose value is cut short.
pub proof fn refused_elements_are_read_as_far_as_they_make_sense(
    input: Seq<u8>,
    at: int,
    tag: u8,
)
    requires
        0 <= at <= input.len() <= usize::MAX,
        der_element(input, at, tag) is Err,
    ensures
        at <= refused_at(input, at, tag) <= input.len(),
        der_element(input, at, tag)->Err_0 is UnexpectedDerTag ==> refused_at(input, at, tag) == at,
        der_element(input, at, tag)->Err_0 is MissingDerLength ==> refused_at(input, at, tag) == at
            + 1,
        der_element(input, at, tag)->Err_0 is UnsupportedDerLength || der_element(
            input,
            at,
            tag,
        )->Err_0 is TruncatedDerLength ==> refused_at(input, at, tag) == at + 2,
        der_element(input, at, tag)->Err_0 is TruncatedDerValue ==> refused_at(input, at, tag) == at
            + 2 + if input[at + 1] < 128 {
            0int
        } else {
            input[at + 1] - 128
        },
{
}

/// Reloads are counted by the material that is read again and by how that ended.
pub proof fn reloads_are_counted_by_material_and_outcome(
    material: TlsMaterial,
    material_label: &'static str,
    outcome: TlsReloadOutcome,
    outcome_label: &'static str,
)
    requires
        call_ensures(TlsMaterial::as_str, (material,), material_label),
        call_ensures(TlsReloadOutcome::as_str, (outcome,), outcome_label),
    ensures
        material is ServerIdentity ==> material_label@ == "server_identity"@,
        material is ClientTrust ==> material_label@ == "client_trust"@,
        outcome is Success ==> outcome_label@ == "success"@,
        outcome is Rejected ==> outcome_label@ == "rejected"@,
{
}

/// A reader that refuses a time has read nothing where nothing is left, as much of an element as makes
/// sense where there is none, and the whole element where it does not hold a time.
pub proof fn refused_times_are_read_as_far_as_they_make_sense(input: Seq<u8>, at: int)
    requires
        0 <= at <= input.len() <= usize::MAX,
        der_time(input, at) is Err,
    ensures
        at == input.len() ==> time_refused_at(input, at) == at && der_time(input, at)->Err_0
            is MissingTime,
        at < input.len() && der_element(input, at, input[at]) is Err ==> time_refused_at(input, at)
            == refused_at(input, at, input[at]),
        at < input.len() ==> (der_element(input, at, input[at]) matches Ok((value, end))
            ==> time_refused_at(input, at) == end && input.subrange(end - value.len(), end) == value),
{
}

} // verus!
