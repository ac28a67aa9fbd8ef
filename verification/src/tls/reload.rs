//! Replacing TLS material while the last good generation stays in use.

use super::error::TlsError;
use super::identity::{
    validate_server_identity_at, IdentityView, ServerTlsIdentity, MAX_TLS_MATERIAL_BYTES,
};
use super::pem::{pem_certificates, pem_private_key};
use super::quic::{
    build_quic_server_config, build_trusted_quic_client_config_with_alpn, server_material,
    trust_bundle,
};
use crate::bytes::{copy_bytes, same_bytes};
use vstd::prelude::*;

verus! {

/// What reading a file gave. No more than `MAX_TLS_MATERIAL_BYTES` and one byte are ever read.
pub enum FileRead {
    Unreadable,
    Contents(Vec<u8>),
}

/// The contents of a file of TLS material, unless it could not be read or is too large.
pub open spec fn bounded_contents(read: FileRead) -> Result<Seq<u8>, TlsError> {
    match read {
        FileRead::Unreadable => Err(TlsError::Unreadable),
        FileRead::Contents(contents) => if contents@.len() <= MAX_TLS_MATERIAL_BYTES {
            Ok(contents@)
        } else {
            Err(TlsError::Oversized)
        },
    }
}

/// Accepts a file of TLS material that could be read and holds at most `MAX_TLS_MATERIAL_BYTES`
/// bytes.
pub fn bounded_material(read: FileRead) -> (contents: Result<Vec<u8>, TlsError>)
    ensures
        match (contents, bounded_contents(read)) {
            (Ok(material), Ok(expected)) => material@ == expected,
            (Err(error), Err(expected)) => error == expected,
            _ => false,
        },
{
    match read {
        FileRead::Unreadable => Err(TlsError::Unreadable),
        FileRead::Contents(contents) => {
            if contents.len() as u64 <= MAX_TLS_MATERIAL_BYTES {
                Ok(contents)
            } else {
                Err(TlsError::Oversized)
            }
        },
    }
}

/// Where the files of a server identity were found.
#[derive(Clone, Copy)]
pub struct IdentityPaths {
    /// The certificate path leads to a file.
    pub cert_resolves: bool,
    /// The key path leads to a file.
    pub key_resolves: bool,
    /// Both paths name one directory.
    pub same_directory: bool,
    /// Both files lie in one directory once links are followed.
    pub same_resolved_directory: bool,
}

/// What is wrong with the paths of a server identity. Files of one projected directory have to
/// come from one generation of it.
pub open spec fn paths_checked(paths: IdentityPaths) -> Result<(), TlsError> {
    if !paths.cert_resolves {
        Err(TlsError::CertPathUnresolved)
    } else if !paths.key_resolves {
        Err(TlsError::KeyPathUnresolved)
    } else if paths.same_directory && !paths.same_resolved_directory {
        Err(TlsError::MixedGenerations)
    } else {
        Ok(())
    }
}

/// Checks the paths of a server identity.
pub fn check_identity_paths(paths: IdentityPaths) -> (checked: Result<(), TlsError>)
    ensures
        checked == paths_checked(paths),
{
    if !paths.cert_resolves {
        Err(TlsError::CertPathUnresolved)
    } else if !paths.key_resolves {
        Err(TlsError::KeyPathUnresolved)
    } else if paths.same_directory && !paths.same_resolved_directory {
        Err(TlsError::MixedGenerations)
    } else {
        Ok(())
    }
}

/// The identity that a certificate file and a key file make up at the time `now`, or what is
/// wrong with them: the paths, the two files, the pair of them, the time.
pub open spec fn identity_of_files(
    paths: IdentityPaths,
    cert: FileRead,
    key: FileRead,
    now: Option<u64>,
) -> Result<IdentityView, TlsError> {
    match (paths_checked(paths), bounded_contents(cert), bounded_contents(key)) {
        (Err(error), _, _) => Err(error),
        (_, Err(error), _) => Err(error),
        (_, _, Err(error)) => Err(error),
        (Ok(_), Ok(cert_pem), Ok(key_pem)) => match (
            server_material(pem_certificates(cert_pem), pem_private_key(key_pem)),
            provided_at(cert_pem, now),
        ) {
            (Err(error), _) => Err(error),
            (_, Err(error)) => Err(error),
            (Ok(_), Ok(_)) => Ok(IdentityView::Provided { cert_pem, key_pem }),
        },
    }
}

/// What is wrong with a provided certificate when the clock gives `now`.
pub open spec fn provided_at(cert_pem: Seq<u8>, now: Option<u64>) -> Result<(), TlsError> {
    match now {
        None => Err(TlsError::ClockBeforeEpoch),
        Some(now) => super::identity::served_chain_at(pem_certificates(cert_pem), now as int),
    }
}

/// Checks a certificate file and a key file as one server identity: the paths belong together,
/// each file could be read and is not too large, the key belongs to the certificate, and every
/// certificate of the chain is valid now.
pub fn read_server_identity(
    paths: IdentityPaths,
    cert: FileRead,
    key: FileRead,
    now: Option<u64>,
) -> (identity: Result<ServerTlsIdentity, TlsError>)
    ensures
        match (identity, identity_of_files(paths, cert, key, now)) {
            (Ok(accepted), Ok(expected)) => accepted@ == expected,
            (Err(error), Err(expected)) => error == expected,
            _ => false,
        },
{
    if let Err(error) = check_identity_paths(paths) {
        return Err(error);
    }
    let cert_pem: Vec<u8> = match bounded_material(cert) {
        Ok(contents) => contents,
        Err(error) => return Err(error),
    };
    let key_pem: Vec<u8> = match bounded_material(key) {
        Ok(contents) => contents,
        Err(error) => return Err(error),
    };
    let identity: ServerTlsIdentity = match ServerTlsIdentity::from_optional_pem(
        Some(cert_pem),
        Some(key_pem),
    ) {
        Ok(identity) => identity,
        Err(error) => return Err(error),
    };
    if let Err(error) = build_quic_server_config(&identity, Vec::new()) {
        return Err(error);
    }
    if let Err(error) = validate_server_identity_at(&identity, now) {
        return Err(error);
    }
    Ok(identity)
}

/// The trust bundle that a file holds, or what is wrong with it.
pub open spec fn trust_of_file(resolves: bool, read: FileRead) -> Result<Seq<u8>, TlsError> {
    if !resolves {
        Err(TlsError::TrustPathUnresolved)
    } else {
        match bounded_contents(read) {
            Err(error) => Err(error),
            Ok(trust_pem) => match trust_bundle(pem_certificates(trust_pem)) {
                Err(error) => Err(error),
                Ok(_) => Ok(trust_pem),
            },
        }
    }
}

/// Checks a file as a trust bundle: the path leads to it, it could be read and is not too large,
/// and it holds trust anchors only, at least one.
pub fn read_trust_bundle(resolves: bool, read: FileRead) -> (bundle: Result<Vec<u8>, TlsError>)
    ensures
        match (bundle, trust_of_file(resolves, read)) {
            (Ok(accepted), Ok(expected)) => accepted@ == expected,
            (Err(error), Err(expected)) => error == expected,
            _ => false,
        },
{
    if !resolves {
        return Err(TlsError::TrustPathUnresolved);
    }
    let trust_pem: Vec<u8> = match bounded_material(read) {
        Ok(contents) => contents,
        Err(error) => return Err(error),
    };
    if let Err(error) = build_trusted_quic_client_config_with_alpn(
        trust_pem.as_slice(),
        Vec::new(),
    ) {
        return Err(error);
    }
    Ok(trust_pem)
}

/// What one attempt to read replacement material gave.
pub enum MaterialRead<T> {
    /// Material that passed every check.
    Valid(T),
    /// Material that failed a check. The fingerprint tells one refused generation from another.
    Rejected { error: TlsError, fingerprint: u64 },
}

/// The state of a reloader: the material in use, and the generation refused last, unless valid
/// material was read since.
pub struct ReloadState<V> {
    pub current: V,
    pub last_rejected: Option<u64>,
}

/// What a reloader makes of one attempt: a replacement where valid material differs from the
/// material in use, an error where a generation is refused that was not the one refused last, else
/// nothing.
pub open spec fn candidate_of<V>(state: ReloadState<V>, read: MaterialRead<V>) -> Result<
    Option<V>,
    TlsError,
> {
    match read {
        MaterialRead::Valid(candidate) => if candidate == state.current {
            Ok(None)
        } else {
            Ok(Some(candidate))
        },
        MaterialRead::Rejected { error, fingerprint } => if state.last_rejected == Some(
            fingerprint,
        ) {
            Ok(None)
        } else {
            Err(error)
        },
    }
}

/// The state of a reloader after one attempt: the material in use stays.
pub open spec fn state_after<V>(state: ReloadState<V>, read: MaterialRead<V>) -> ReloadState<V> {
    ReloadState {
        current: state.current,
        last_rejected: match read {
            MaterialRead::Valid(_) => None,
            MaterialRead::Rejected { error, fingerprint } => Some(fingerprint),
        },
    }
}

/// The state of a reloader once a candidate is in use.
pub open spec fn state_committed<V>(state: ReloadState<V>, candidate: V) -> ReloadState<V> {
    ReloadState { current: candidate, last_rejected: state.last_rejected }
}

/// The state of a reloader that puts a candidate into use at once.
pub open spec fn state_reloaded<V>(state: ReloadState<V>, read: MaterialRead<V>) -> ReloadState<V> {
    match candidate_of(state, read) {
        Ok(Some(candidate)) => state_committed(state_after(state, read), candidate),
        _ => state_after(state, read),
    }
}

/// An attempt as it looks to a reloader of identities.
pub open spec fn identity_read(read: MaterialRead<ServerTlsIdentity>) -> MaterialRead<
    IdentityView,
> {
    match read {
        MaterialRead::Valid(identity) => MaterialRead::Valid(identity@),
        MaterialRead::Rejected { error, fingerprint } => MaterialRead::Rejected {
            error,
            fingerprint,
        },
    }
}

/// An attempt as it looks to a reloader of trust bundles.
pub open spec fn trust_read(read: MaterialRead<Vec<u8>>) -> MaterialRead<Seq<u8>> {
    match read {
        MaterialRead::Valid(bundle) => MaterialRead::Valid(bundle@),
        MaterialRead::Rejected { error, fingerprint } => MaterialRead::Rejected {
            error,
            fingerprint,
        },
    }
}

/// Whether a reloader of identities returned what was specified.
pub open spec fn same_identity_candidate(
    returned: Result<Option<ServerTlsIdentity>, TlsError>,
    expected: Result<Option<IdentityView>, TlsError>,
) -> bool {
    match (returned, expected) {
        (Ok(Some(candidate)), Ok(Some(contents))) => candidate@ == contents,
        (Ok(None), Ok(None)) => true,
        (Err(error), Err(reason)) => error == reason,
        _ => false,
    }
}

/// Whether a reloader of trust bundles returned what was specified.
pub open spec fn same_trust_candidate(
    returned: Result<Option<Vec<u8>>, TlsError>,
    expected: Result<Option<Seq<u8>>, TlsError>,
) -> bool {
    match (returned, expected) {
        (Ok(Some(candidate)), Ok(Some(contents))) => candidate@ == contents,
        (Ok(None), Ok(None)) => true,
        (Err(error), Err(reason)) => error == reason,
        _ => false,
    }
}

/// Reloads a complete certificate and private-key pair while retaining the last valid identity.
pub struct ServerIdentityReloader {
    current: ServerTlsIdentity,
    last_rejected_fingerprint: Option<u64>,
}

impl View for ServerIdentityReloader {
    type V = ReloadState<IdentityView>;

    closed spec fn view(&self) -> ReloadState<IdentityView> {
        ReloadState { current: self.current@, last_rejected: self.last_rejected_fingerprint }
    }
}

impl ServerIdentityReloader {
    /// Starts with the identity that was read first, which has to be valid.
    pub fn load(read: Result<ServerTlsIdentity, TlsError>) -> (reloader: Result<Self, TlsError>)
        ensures
            match (reloader, read) {
                (Ok(loaded), Ok(identity)) => loaded@ == (ReloadState {
                    current: identity@,
                    last_rejected: None,
                }),
                (Err(error), Err(reason)) => error == reason,
                _ => false,
            },
    {
        match read {
            Ok(current) => Ok(
                ServerIdentityReloader { current, last_rejected_fingerprint: None },
            ),
            Err(error) => Err(error),
        }
    }

    /// The active last-known-good identity.
    pub fn current_identity(&self) -> (identity: &ServerTlsIdentity)
        ensures
            identity@ == self@.current,
    {
        &self.current
    }

    /// Whether the generation read last was refused.
    pub fn has_suppressed_rejection(&self) -> (suppressed: bool)
        ensures
            suppressed == (self@.last_rejected is Some),
    {
        self.last_rejected_fingerprint.is_some()
    }

    /// A changed, valid identity, without putting it into use.
    pub fn load_candidate(&mut self, read: MaterialRead<ServerTlsIdentity>) -> (candidate: Result<
        Option<ServerTlsIdentity>,
        TlsError,
    >)
        ensures
            final(self)@ == state_after(old(self)@, identity_read(read)),
            same_identity_candidate(candidate, candidate_of(old(self)@, identity_read(read))),
    {
        match read {
            MaterialRead::Valid(candidate) => {
                self.last_rejected_fingerprint = None;
                if candidate.same_as(&self.current) {
                    Ok(None)
                } else {
                    Ok(Some(candidate))
                }
            },
            MaterialRead::Rejected { error, fingerprint } => {
                let repeated: bool = match self.last_rejected_fingerprint {
                    Some(last) => last == fingerprint,
                    None => false,
                };
                if repeated {
                    return Ok(None);
                }
                self.last_rejected_fingerprint = Some(fingerprint);
                Err(error)
            },
        }
    }

    /// Records a candidate that is in use from now on.
    pub fn commit(&mut self, candidate: ServerTlsIdentity)
        ensures
            final(self)@ == state_committed(old(self)@, candidate@),
    {
        self.current = candidate;
    }

    /// Puts a changed, valid identity into use and returns it.
    pub fn reload_if_changed(&mut self, read: MaterialRead<ServerTlsIdentity>) -> (replacement:
        Result<Option<ServerTlsIdentity>, TlsError>)
        ensures
            final(self)@ == state_reloaded(old(self)@, identity_read(read)),
            same_identity_candidate(replacement, candidate_of(old(self)@, identity_read(read))),
    {
        match self.load_candidate(read) {
            Ok(Some(candidate)) => {
                self.commit(candidate.duplicate());
                Ok(Some(candidate))
            },
            Ok(None) => Ok(None),
            Err(error) => Err(error),
        }
    }
}

/// Reloads a trust bundle while retaining the last valid generation.
pub struct ClientTrustReloader {
    current: Vec<u8>,
    last_rejected_fingerprint: Option<u64>,
}

impl View for ClientTrustReloader {
    type V = ReloadState<Seq<u8>>;

    closed spec fn view(&self) -> ReloadState<Seq<u8>> {
        ReloadState { current: self.current@, last_rejected: self.last_rejected_fingerprint }
    }
}

impl ClientTrustReloader {
    /// Starts with the bundle that was read first, which has to be valid.
    pub fn load(read: Result<Vec<u8>, TlsError>) -> (reloader: Result<Self, TlsError>)
        ensures
            match (reloader, read) {
                (Ok(loaded), Ok(bundle)) => loaded@ == (ReloadState {
                    current: bundle@,
                    last_rejected: None,
                }),
                (Err(error), Err(reason)) => error == reason,
                _ => false,
            },
    {
        match read {
            Ok(current) => Ok(ClientTrustReloader { current, last_rejected_fingerprint: None }),
            Err(error) => Err(error),
        }
    }

    /// The active last-known-good trust bundle.
    pub fn current_pem(&self) -> (bundle: &[u8])
        ensures
            bundle@ == self@.current,
    {
        self.current.as_slice()
    }

    /// A changed, valid trust bundle, without putting it into use.
    pub fn load_candidate(&mut self, read: MaterialRead<Vec<u8>>) -> (candidate: Result<
        Option<Vec<u8>>,
        TlsError,
    >)
        ensures
            final(self)@ == state_after(old(self)@, trust_read(read)),
            same_trust_candidate(candidate, candidate_of(old(self)@, trust_read(read))),
    {
        match read {
            MaterialRead::Valid(candidate) => {
                self.last_rejected_fingerprint = None;
                if same_bytes(candidate.as_slice(), self.current.as_slice()) {
                    Ok(None)
                } else {
                    Ok(Some(candidate))
                }
            },
            MaterialRead::Rejected { error, fingerprint } => {
                let repeated: bool = match self.last_rejected_fingerprint {
                    Some(last) => last == fingerprint,
                    None => false,
                };
                if repeated {
                    return Ok(None);
                }
                self.last_rejected_fingerprint = Some(fingerprint);
                Err(error)
            },
        }
    }

    /// Records a bundle that is in use from now on, and returns the copy to publish.
    pub fn commit(&mut self, candidate: Vec<u8>) -> (published: Vec<u8>)
        ensures
            final(self)@ == state_committed(old(self)@, candidate@),
            published@ == candidate@,
    {
        let published: Vec<u8> = copy_bytes(candidate.as_slice());
        self.current = candidate;
        published
    }

    /// Puts a changed, valid bundle into use and returns the copy to publish.
    pub fn reload_if_changed(&mut self, read: MaterialRead<Vec<u8>>) -> (published: Result<
        Option<Vec<u8>>,
        TlsError,
    >)
        ensures
            final(self)@ == state_reloaded(old(self)@, trust_read(read)),
            same_trust_candidate(published, candidate_of(old(self)@, trust_read(read))),
    {
        match self.load_candidate(read) {
            Ok(Some(candidate)) => Ok(Some(self.commit(candidate))),
            Ok(None) => Ok(None),
            Err(error) => Err(error),
        }
    }
}

/// The material that a reloader keeps in use through a series of attempts, each put into use at
/// once.
pub open spec fn state_after_all<V>(
    state: ReloadState<V>,
    reads: Seq<MaterialRead<V>>,
) -> ReloadState<V>
    decreases reads.len(),
{
    if reads.len() == 0 {
        state
    } else {
        state_reloaded(state_after_all(state, reads.drop_last()), reads.last())
    }
}

/// The material of the last valid attempt of a series, or `initial` where none was valid.
pub open spec fn last_valid<V>(initial: V, reads: Seq<MaterialRead<V>>) -> V
    decreases reads.len(),
{
    if reads.len() == 0 {
        initial
    } else {
        match reads.last() {
            MaterialRead::Valid(material) => material,
            MaterialRead::Rejected { .. } => last_valid(initial, reads.drop_last()),
        }
    }
}

/// However many attempts are refused, the material in use is the last that was valid.
pub proof fn last_known_good_stays_in_use<V>(
    state: ReloadState<V>,
    reads: Seq<MaterialRead<V>>,
)
    ensures
        state_after_all(state, reads).current == last_valid(state.current, reads),
    decreases reads.len(),
{
    if reads.len() > 0 {
        last_known_good_stays_in_use(state, reads.drop_last());
    }
}

/// A refused generation is reported once: read again without a change, it gives neither an error
/// nor a replacement, and changes nothing. Another refused generation is reported.
pub proof fn refused_generation_is_reported_once<V>(
    state: ReloadState<V>,
    error: TlsError,
    fingerprint: u64,
    other_error: TlsError,
    other: u64,
)
    requires
        other != fingerprint,
    ensures
        ({
            let refused = MaterialRead::<V>::Rejected { error, fingerprint };
            let after = state_after(state, refused);
            &&& candidate_of(after, refused) == Ok::<Option<V>, TlsError>(None)
            &&& state_after(after, refused) == after
            &&& candidate_of(
                after,
                MaterialRead::<V>::Rejected { error: other_error, fingerprint: other },
            ) == Err::<Option<V>, TlsError>(other_error)
        }),
{
}

/// Valid material ends the silence about a refused generation: refused again, it is reported
/// again.
pub proof fn valid_material_clears_the_refusal<V>(
    state: ReloadState<V>,
    valid: V,
    error: TlsError,
    fingerprint: u64,
)
    ensures
        candidate_of(
            state_after(state, MaterialRead::Valid(valid)),
            MaterialRead::Rejected { error, fingerprint },
        ) == Err::<Option<V>, TlsError>(error),
{
}

/// A replacement is offered until it is committed, and not again after that.
pub proof fn replacement_is_offered_until_committed<V>(state: ReloadState<V>, replacement: V)
    requires
        replacement != state.current,
    ensures
        ({
            let read = MaterialRead::Valid(replacement);
            let offered = state_after(state, read);
            &&& candidate_of(state, read) == Ok::<Option<V>, TlsError>(Some(replacement))
            &&& candidate_of(offered, read) == Ok::<Option<V>, TlsError>(Some(replacement))
            &&& candidate_of(state_committed(offered, replacement), read) == Ok::<
                Option<V>,
                TlsError,
            >(None)
        }),
{
}

/// Material that was accepted from files stays within the size limit, and every certificate of
/// it was valid at the time.
pub proof fn accepted_identity_is_bounded_and_current(
    paths: IdentityPaths,
    cert: FileRead,
    key: FileRead,
    now: Option<u64>,
)
    requires
        identity_of_files(paths, cert, key, now) is Ok,
    ensures
        identity_of_files(paths, cert, key, now) matches Ok(
            IdentityView::Provided { cert_pem, key_pem },
        ) && cert_pem.len() <= MAX_TLS_MATERIAL_BYTES && key_pem.len() <= MAX_TLS_MATERIAL_BYTES
            && provided_at(cert_pem, now) is Ok && server_material(
            pem_certificates(cert_pem),
            pem_private_key(key_pem),
        ) is Ok,
{
}

} // verus!
