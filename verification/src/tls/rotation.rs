//! Putting replacement TLS material into use.

use super::der::CertificateValidity;
use super::error::TlsError;
use super::identity::{
    server_identity_effective_validity, shared_window, IdentityView, ServerTlsIdentity,
};
use super::pem::{pem_certificates, pem_private_key};
use super::quic::{
    build_quic_server_config, build_trusted_quic_client_config_with_alpn, client_config_from,
    server_config_from, server_material, trust_bundle,
};
use super::reload::{
    candidate_of, identity_read, state_after, state_committed, trust_read, ClientTrustReloader,
    MaterialRead, ReloadState, ServerIdentityReloader,
};
use crate::bytes::byte_strings;
use vstd::prelude::*;

verus! {

/// The reason given to connections that are closed because other servers are trusted now.
pub const TRUST_REPLACED_REASON: &'static str = "TLS trust configuration replaced";

/// The two kinds of TLS material that are reloaded.
#[derive(Clone, Copy, Debug, PartialEq, Eq, Structural)]
pub enum TlsMaterial {
    ServerIdentity,
    ClientTrust,
}

/// What became of an attempt to reload.
#[derive(Clone, Copy, Debug, PartialEq, Eq, Structural)]
pub enum TlsReloadOutcome {
    Success,
    Rejected,
}

impl TlsMaterial {
    /// The label under which reloads of this material are counted.
    pub open spec fn label(self) -> Seq<char> {
        match self {
            TlsMaterial::ServerIdentity => "server_identity"@,
            TlsMaterial::ClientTrust => "client_trust"@,
        }
    }

    /// The label under which reloads of this material are counted.
    pub fn as_str(self) -> (label: &'static str)
        ensures
            label@ == self.label(),
    {
        match self {
            TlsMaterial::ServerIdentity => "server_identity",
            TlsMaterial::ClientTrust => "client_trust",
        }
    }
}

impl TlsReloadOutcome {
    /// The label under which such an outcome is counted.
    pub open spec fn label(self) -> Seq<char> {
        match self {
            TlsReloadOutcome::Success => "success"@,
            TlsReloadOutcome::Rejected => "rejected"@,
        }
    }

    /// The label under which such an outcome is counted.
    pub fn as_str(self) -> (label: &'static str)
        ensures
            label@ == self.label(),
    {
        match self {
            TlsReloadOutcome::Success => "success",
            TlsReloadOutcome::Rejected => "rejected",
        }
    }
}

/// Refuses a reload interval, in nanoseconds, of no time at all.
pub fn check_reload_interval(interval_nanos: u128) -> (checked: Result<(), TlsError>)
    ensures
        checked == if interval_nanos == 0 {
            Err::<(), TlsError>(TlsError::ZeroReloadInterval)
        } else {
            Ok(())
        },
{
    if interval_nanos == 0 {
        Err(TlsError::ZeroReloadInterval)
    } else {
        Ok(())
    }
}

/// The expiry of an identity that has no certificate of its own to expire.
pub const NO_EXPIRY: i64 = i64::MAX;

/// The expiry that a validity window gives.
pub open spec fn expiry_of(validity: Option<CertificateValidity>) -> i64 {
    match validity {
        Some(window) => window.not_after_unix_seconds,
        None => NO_EXPIRY,
    }
}

/// The expiry that a validity window gives: its last second, or `NO_EXPIRY` without a window.
pub fn identity_expiry(validity: Option<CertificateValidity>) -> (expiry: i64)
    ensures
        expiry == expiry_of(validity),
{
    match validity {
        Some(window) => window.not_after_unix_seconds,
        None => NO_EXPIRY,
    }
}

/// The expiry that metrics show: none where there is nothing that expires.
pub fn shown_expiry(expiry: i64) -> (shown: Option<i64>)
    ensures
        shown == if expiry == NO_EXPIRY {
            None
        } else {
            Some(expiry)
        },
{
    if expiry == NO_EXPIRY {
        None
    } else {
        Some(expiry)
    }
}

/// Whether an identity with that expiry may be served when the clock gives `now`.
pub open spec fn expiry_ready(expiry: i64, now: Option<u64>) -> bool {
    expiry == NO_EXPIRY || (expiry >= 0 && now is Some && now->0 <= expiry)
}

/// Whether an identity with that expiry may be served when the clock gives `now`, `None` being a
/// time before 1970.
pub fn identity_is_ready(expiry: i64, now: Option<u64>) -> (ready: bool)
    ensures
        ready == expiry_ready(expiry, now),
{
    if expiry == NO_EXPIRY {
        return true;
    }
    match now {
        Some(now) => expiry >= 0 && now <= expiry as u64,
        None => false,
    }
}

/// What is wrong with an identity that is about to be put into use: its material, or the windows
/// of its certificates.
pub open spec fn activation_of(identity: IdentityView) -> Result<(int, int), TlsError> {
    match identity {
        IdentityView::SelfSigned => Err(TlsError::NoCertificate),
        IdentityView::Provided { cert_pem, key_pem } => {
            let sections = pem_certificates(cert_pem);
            match server_material(sections, pem_private_key(key_pem)) {
                Err(error) => Err(error),
                Ok(_) => shared_window(sections, sections.len() as int),
            }
        },
    }
}

/// Makes the configuration that serves a provided identity, and finds the window in which it may
/// be served.
pub fn activate_identity(
    identity: &ServerTlsIdentity,
    alpn_protocols: Vec<Vec<u8>>,
) -> (activation: Result<(quinn::ServerConfig, CertificateValidity), TlsError>)
    requires
        identity is Provided,
    ensures
        match (activation, activation_of(identity@)) {
            (Ok((config, window)), Ok((not_before, not_after))) => {
                &&& server_config_from(
                    Ok(config),
                    identity->cert_pem@,
                    identity->key_pem@,
                    byte_strings(alpn_protocols@),
                )
                &&& window.not_before_unix_seconds == not_before
                &&& window.not_after_unix_seconds == not_after
            },
            (Err(error), Err(expected)) => error == expected,
            _ => false,
        },
{
    let config: quinn::ServerConfig = match build_quic_server_config(identity, alpn_protocols) {
        Ok(config) => config,
        Err(error) => return Err(error),
    };
    match server_identity_effective_validity(identity) {
        Err(error) => Err(error),
        Ok(Some(validity)) => Ok((config, validity)),
        Ok(None) => Err(TlsError::NoCertificate),
    }
}

/// The state of an identity in rotation: what the reloader holds, and when the identity in use
/// expires.
pub struct IdentityRotationState {
    pub reload: ReloadState<IdentityView>,
    pub expiry: i64,
}

/// What one attempt to rotate an identity comes to.
pub enum IdentityRotation {
    /// Nothing new was read.
    Unchanged,
    /// The configuration serves new handshakes from now on; connections stay.
    Activated { config: quinn::ServerConfig, validity: CertificateValidity },
    /// What was read cannot be used; the identity in use stays.
    Rejected { error: TlsError },
}

/// The outcome to count for one attempt, if any.
pub open spec fn rotation_outcome(
    reload: ReloadState<IdentityView>,
    read: MaterialRead<IdentityView>,
) -> Option<TlsReloadOutcome> {
    match candidate_of(reload, read) {
        Ok(None) => None,
        Err(_) => Some(TlsReloadOutcome::Rejected),
        Ok(Some(identity)) => if activation_of(identity) is Ok {
            Some(TlsReloadOutcome::Success)
        } else {
            Some(TlsReloadOutcome::Rejected)
        },
    }
}

/// What an attempt to rotate does: material that is refused, or that cannot be activated, is rejected
/// and leaves what is in use; a replacement that can be activated comes into use, and expires at the
/// end of its window.
pub open spec fn rotates(
    before: IdentityRotationState,
    attempt: MaterialRead<IdentityView>,
    alpn_protocols: Seq<Seq<u8>>,
    rotation: IdentityRotation,
    now: IdentityRotationState,
) -> bool {
    let after = state_after(before.reload, attempt);
    match candidate_of(before.reload, attempt) {
        Ok(None) => rotation is Unchanged && now.reload == after && now.expiry == before.expiry,
        Err(error) => rotation == (IdentityRotation::Rejected { error }) && now.reload == after
            && now.expiry == before.expiry,
        Ok(Some(candidate)) => match activation_of(candidate) {
            Err(error) => rotation == (IdentityRotation::Rejected { error }) && now.reload == after
                && now.expiry == before.expiry,
            Ok((not_before, not_after)) => {
                &&& rotation matches IdentityRotation::Activated { config, validity }
                &&& server_config_from(
                    Ok(config),
                    candidate->cert_pem,
                    candidate->key_pem,
                    alpn_protocols,
                )
                &&& validity.not_before_unix_seconds == not_before
                &&& validity.not_after_unix_seconds == not_after
                &&& now.reload == state_committed(after, candidate)
                &&& now.expiry == not_after
            },
        },
    }
}

impl IdentityRotation {
    /// The outcome to count, if any.
    pub fn outcome(&self) -> (outcome: Option<TlsReloadOutcome>)
        ensures
            outcome == match self {
                IdentityRotation::Unchanged => None,
                IdentityRotation::Activated { .. } => Some(TlsReloadOutcome::Success),
                IdentityRotation::Rejected { .. } => Some(TlsReloadOutcome::Rejected),
            },
    {
        match self {
            IdentityRotation::Unchanged => None,
            IdentityRotation::Activated { .. } => Some(TlsReloadOutcome::Success),
            IdentityRotation::Rejected { .. } => Some(TlsReloadOutcome::Rejected),
        }
    }
}

/// Keeps a served identity up to date with its files.
pub struct ServerIdentityRotation {
    reloader: ServerIdentityReloader,
    expiry: i64,
}

impl View for ServerIdentityRotation {
    type V = IdentityRotationState;

    closed spec fn view(&self) -> IdentityRotationState {
        IdentityRotationState { reload: self.reloader@, expiry: self.expiry }
    }
}

impl ServerIdentityRotation {
    /// Starts from the identity of a reloader.
    pub fn new(reloader: ServerIdentityReloader) -> (rotation: Result<Self, TlsError>)
        ensures
            match (rotation, reloader@.current) {
                (Ok(started), IdentityView::SelfSigned) => started@.reload == reloader@
                    && started@.expiry == NO_EXPIRY,
                (Ok(started), IdentityView::Provided { cert_pem, key_pem }) => {
                    let sections = pem_certificates(cert_pem);
                    let window = shared_window(sections, sections.len() as int);
                    started@.reload == reloader@ && window is Ok && started@.expiry
                        == window->Ok_0.1
                },
                (Err(error), IdentityView::Provided { cert_pem, key_pem }) => {
                    let sections = pem_certificates(cert_pem);
                    shared_window(sections, sections.len() as int) == Err::<(int, int), TlsError>(
                        error,
                    )
                },
                (Err(_), IdentityView::SelfSigned) => false,
            },
    {
        match server_identity_effective_validity(reloader.current_identity()) {
            Ok(validity) => {
                let expiry: i64 = identity_expiry(validity);
                Ok(ServerIdentityRotation { reloader, expiry })
            },
            Err(error) => Err(error),
        }
    }

    /// The last second in which the identity in use may be served.
    pub fn expiry(&self) -> (expiry: i64)
        ensures
            expiry == self@.expiry,
    {
        self.expiry
    }

    /// The identity in use.
    pub fn current_identity(&self) -> (identity: &ServerTlsIdentity)
        ensures
            identity@ == self@.reload.current,
    {
        self.reloader.current_identity()
    }

    /// Takes one attempt to read a replacement. A valid replacement that can be served becomes
    /// the identity in use; anything else leaves it as it is.
    pub fn rotate(
        &mut self,
        read: MaterialRead<ServerTlsIdentity>,
        alpn_protocols: Vec<Vec<u8>>,
    ) -> (rotation: IdentityRotation)
        ensures
            rotates(
                old(self)@,
                identity_read(read),
                byte_strings(alpn_protocols@),
                rotation,
                final(self)@,
            ),
            match rotation {
                IdentityRotation::Unchanged => rotation_outcome(
                    old(self)@.reload,
                    identity_read(read),
                ) is None,
                IdentityRotation::Activated { .. } => rotation_outcome(
                    old(self)@.reload,
                    identity_read(read),
                ) == Some(TlsReloadOutcome::Success),
                IdentityRotation::Rejected { .. } => rotation_outcome(
                    old(self)@.reload,
                    identity_read(read),
                ) == Some(TlsReloadOutcome::Rejected),
            },
    {
        match self.reloader.load_candidate(read) {
            Ok(None) => IdentityRotation::Unchanged,
            Err(error) => IdentityRotation::Rejected { error },
            Ok(Some(ServerTlsIdentity::SelfSigned)) => IdentityRotation::Rejected {
                error: TlsError::NoCertificate,
            },
            Ok(Some(ServerTlsIdentity::Provided { cert_pem, key_pem })) => {
                let identity = ServerTlsIdentity::Provided { cert_pem, key_pem };
                match activate_identity(&identity, alpn_protocols) {
                    Ok((config, validity)) => {
                        self.reloader.commit(identity);
                        self.expiry = validity.not_after_unix_seconds;
                        IdentityRotation::Activated { config, validity }
                    },
                    Err(error) => IdentityRotation::Rejected { error },
                }
            },
        }
    }
}

/// The state of client trust in rotation: what the reloader holds, and how often the trust in
/// use was replaced.
pub struct TrustRotationState {
    pub reload: ReloadState<Seq<u8>>,
    pub generation: u64,
}

/// What one attempt to rotate client trust comes to, before endpoints are made for it.
pub enum TrustRotation {
    /// Nothing new was read.
    Unchanged,
    /// New connections can be made with the configuration once endpoints carry it.
    Prepared { candidate: Vec<u8>, config: quinn::ClientConfig },
    /// What was read cannot be used; the trust in use stays.
    Rejected { error: TlsError },
}

/// What an attempt to replace the trust of clients does: what is in use stays, and a replacement that
/// holds trust is prepared.
pub open spec fn prepares(
    before: TrustRotationState,
    attempt: MaterialRead<Seq<u8>>,
    alpn_protocols: Seq<Seq<u8>>,
    rotation: TrustRotation,
    now: TrustRotationState,
) -> bool {
    &&& now.reload == state_after(before.reload, attempt)
    &&& now.generation == before.generation
    &&& match candidate_of(before.reload, attempt) {
        Ok(None) => rotation is Unchanged,
        Err(error) => rotation == (TrustRotation::Rejected { error }),
        Ok(Some(bundle)) => match trust_bundle(pem_certificates(bundle)) {
            Err(error) => rotation == (TrustRotation::Rejected { error }),
            Ok(_) => {
                &&& rotation matches TrustRotation::Prepared { candidate, config }
                &&& candidate@ == bundle
                &&& client_config_from(Ok(config), pem_certificates(bundle), alpn_protocols)
            },
        },
    }
}

/// What comes of a prepared replacement: once all endpoints have it, it is in use, its generation is
/// the next, and connections made before are to be closed; before that nothing changes.
pub open spec fn finishes(
    before: TrustRotationState,
    candidate: Seq<u8>,
    endpoints_replaced: bool,
    close: Option<&str>,
    now: TrustRotationState,
) -> bool {
    &&& endpoints_replaced ==> {
        &&& close is Some
        &&& close->0@ == TRUST_REPLACED_REASON@
        &&& now.reload == state_committed(before.reload, candidate)
        &&& now.generation == before.generation + 1
    }
    &&& !endpoints_replaced ==> close is None && now == before
}

/// Keeps client trust up to date with its file.
pub struct ClientTrustRotation {
    reloader: ClientTrustReloader,
    generation: u64,
}

impl View for ClientTrustRotation {
    type V = TrustRotationState;

    closed spec fn view(&self) -> TrustRotationState {
        TrustRotationState { reload: self.reloader@, generation: self.generation }
    }
}

impl ClientTrustRotation {
    /// Starts from the bundle of a reloader, in generation 0.
    pub fn new(reloader: ClientTrustReloader) -> (rotation: Self)
        ensures
            rotation@.reload == reloader@,
            rotation@.generation == 0,
    {
        ClientTrustRotation { reloader, generation: 0 }
    }

    /// How often the trust in use was replaced.
    pub fn generation(&self) -> (generation: u64)
        ensures
            generation == self@.generation,
    {
        self.generation
    }

    /// The bundle in use.
    pub fn current_pem(&self) -> (bundle: &[u8])
        ensures
            bundle@ == self@.reload.current,
    {
        self.reloader.current_pem()
    }

    /// Takes one attempt to read a replacement, and makes the configuration for it. The trust in
    /// use stays until `finish` says that endpoints carry the replacement.
    pub fn prepare(
        &mut self,
        read: MaterialRead<Vec<u8>>,
        alpn_protocols: Vec<Vec<u8>>,
    ) -> (rotation: TrustRotation)
        ensures
            prepares(
                old(self)@,
                trust_read(read),
                byte_strings(alpn_protocols@),
                rotation,
                final(self)@,
            ),
    {
        match self.reloader.load_candidate(read) {
            Ok(None) => TrustRotation::Unchanged,
            Err(error) => TrustRotation::Rejected { error },
            Ok(Some(candidate)) => {
                match build_trusted_quic_client_config_with_alpn(
                    candidate.as_slice(),
                    alpn_protocols,
                ) {
                    Ok(config) => TrustRotation::Prepared { candidate, config },
                    Err(error) => TrustRotation::Rejected { error },
                }
            },
        }
    }

    /// Records whether endpoints carry a prepared bundle. If they do, it is in use from now on,
    /// a new generation begins, and what was connected under the old trust is to be closed with
    /// the reason that is returned.
    pub fn finish(&mut self, candidate: Vec<u8>, endpoints_replaced: bool) -> (close: Option<
        &'static str,
    >)
        requires
            old(self)@.generation < u64::MAX,
        ensures
            finishes(old(self)@, candidate@, endpoints_replaced, close, final(self)@),
    {
        if endpoints_replaced {
            let _published: Vec<u8> = self.reloader.commit(candidate);
            self.generation = self.generation + 1;
            Some(TRUST_REPLACED_REASON)
        } else {
            None
        }
    }
}

/// An identity that was put into use is ready at exactly the times of its shared window from its
/// start on: a chain accepted at `now` is ready at `now`, and is no longer ready once one of its
/// certificates has expired.
pub proof fn accepted_identity_is_ready(sections: Seq<Option<Seq<u8>>>, expiry: i64, now: u64)
    requires
        shared_window(sections, sections.len() as int) is Ok,
        expiry == shared_window(sections, sections.len() as int)->Ok_0.1,
    ensures
        super::identity::served_chain_at(sections, now as int) is Ok ==> expiry_ready(
            expiry,
            Some(now),
        ),
        expiry != NO_EXPIRY && expiry_ready(expiry, Some(now)) && now
            >= shared_window(sections, sections.len() as int)->Ok_0.0
            ==> super::identity::served_chain_at(sections, now as int) is Ok,
{
    super::identity::accepted_inside_the_shared_window(sections, now as int);
}

} // verus!
