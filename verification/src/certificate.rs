//! The tally certificate and the payload of a private tally.

use crate::share::TallyDecryptShare;
use crate::vote_plan::VotePlanId;
use vstd::prelude::*;

verus! {

/// What a private tally certificate says of one proposal: the shares that
/// decrypted its tally and the outcome they gave.
#[derive(Clone, Debug, PartialEq, Eq)]
pub struct DecryptedPrivateTallyProposal {
    pub decrypt_shares: Vec<TallyDecryptShare>,
    pub tally_result: Vec<u64>,
}

/// The mathematical content of a [`DecryptedPrivateTallyProposal`].
pub struct ProposalTally {
    pub decrypt_shares: Seq<Seq<u8>>,
    pub tally_result: Seq<u64>,
}

impl DeepView for DecryptedPrivateTallyProposal {
    type V = ProposalTally;

    open spec fn deep_view(&self) -> ProposalTally {
        ProposalTally {
            decrypt_shares: self.decrypt_shares.deep_view(),
            tally_result: self.tally_result@,
        }
    }
}

impl View for DecryptedPrivateTallyProposal {
    type V = ProposalTally;

    open spec fn view(&self) -> ProposalTally {
        self.deep_view()
    }
}

/// The payload of a private tally certificate: one entry per proposal, in the
/// order of the vote plan's proposals.
#[derive(Clone, Debug, PartialEq, Eq)]
pub struct DecryptedPrivateTally {
    pub proposals: Vec<DecryptedPrivateTallyProposal>,
}

impl View for DecryptedPrivateTally {
    type V = Seq<ProposalTally>;

    open spec fn view(&self) -> Seq<ProposalTally> {
        self.proposals.deep_view()
    }
}

impl DecryptedPrivateTally {
    /// The payload with the given entries, in their order.
    pub fn new(proposals: Vec<DecryptedPrivateTallyProposal>) -> (tally: DecryptedPrivateTally)
        ensures
            tally@ == proposals.deep_view(),
    {
        DecryptedPrivateTally { proposals }
    }
}

/// The two kinds of tally certificate.
#[derive(Clone, Copy, Debug, PartialEq, Eq, Structural)]
pub enum PayloadType {
    Public,
    Private,
}

/// What a tally certificate carries besides the vote plan's identifier.
#[derive(Clone, Debug, PartialEq, Eq)]
pub enum VoteTallyPayload {
    Public,
    Private { inner: DecryptedPrivateTally },
}

/// The mathematical content of a [`VoteTallyPayload`].
pub enum TallyPayload {
    Public,
    Private(Seq<ProposalTally>),
}

impl TallyPayload {
    /// The kind of certificate that carries this payload.
    pub open spec fn payload_type(self) -> PayloadType {
        match self {
            TallyPayload::Public => PayloadType::Public,
            TallyPayload::Private(_) => PayloadType::Private,
        }
    }

    /// The entries of a private payload; a public one has none.
    pub open spec fn decrypted(self) -> Option<Seq<ProposalTally>> {
        match self {
            TallyPayload::Public => None,
            TallyPayload::Private(entries) => Some(entries),
        }
    }
}

impl View for VoteTallyPayload {
    type V = TallyPayload;

    open spec fn view(&self) -> TallyPayload {
        match self {
            VoteTallyPayload::Public => TallyPayload::Public,
            VoteTallyPayload::Private { inner } => TallyPayload::Private(inner@),
        }
    }
}

/// The closing of a vote plan's tally.
#[derive(Clone, Debug, PartialEq, Eq)]
pub struct VoteTally {
    pub id: VotePlanId,
    pub payload: VoteTallyPayload,
}

/// The mathematical content of a [`VoteTally`].
pub struct TallyContent {
    pub id: Seq<u8>,
    pub payload: TallyPayload,
}

impl View for VoteTally {
    type V = TallyContent;

    open spec fn view(&self) -> TallyContent {
        TallyContent { id: self.id@, payload: self.payload@ }
    }
}

impl VoteTally {
    /// The tally of a public vote: the vote plan's identifier and no payload.
    pub fn new_public(id: VotePlanId) -> (tally: VoteTally)
        ensures
            tally@ == (TallyContent { id: id@, payload: TallyPayload::Public }),
    {
        VoteTally { id, payload: VoteTallyPayload::Public }
    }

    /// The tally of a private vote, with the decrypted payload.
    pub fn new_private(id: VotePlanId, decrypted_tally: DecryptedPrivateTally) -> (tally: VoteTally)
        ensures
            tally@ == (TallyContent {
                id: id@,
                payload: TallyPayload::Private(decrypted_tally@),
            }),
    {
        VoteTally { id, payload: VoteTallyPayload::Private { inner: decrypted_tally } }
    }

    /// The identifier of the vote plan that this tally closes.
    pub fn id(&self) -> (id: &VotePlanId)
        ensures
            id@ == self@.id,
    {
        &self.id
    }

    /// Whether the tally is public or private.
    pub fn tally_type(&self) -> (kind: PayloadType)
        ensures
            kind == self@.payload.payload_type(),
    {
        match &self.payload {
            VoteTallyPayload::Public => PayloadType::Public,
            VoteTallyPayload::Private { .. } => PayloadType::Private,
        }
    }

    /// The decrypted payload of a private tally; `None` for a public one.
    pub fn tally_decrypted(&self) -> (decrypted: Option<&DecryptedPrivateTally>)
        ensures
            match decrypted {
                Some(inner) => self@.payload.decrypted() == Some(inner@),
                None => self@.payload.decrypted() is None,
            },
    {
        match &self.payload {
            VoteTallyPayload::Public => None,
            VoteTallyPayload::Private { inner } => Some(inner),
        }
    }
}

/// A certificate for the ledger.
#[derive(Clone, Debug, PartialEq, Eq)]
pub enum Certificate {
    VoteTally(VoteTally),
}

/// The mathematical content of a [`Certificate`].
pub enum CertificateContent {
    VoteTally(TallyContent),
}

impl View for Certificate {
    type V = CertificateContent;

    open spec fn view(&self) -> CertificateContent {
        match self {
            Certificate::VoteTally(tally) => CertificateContent::VoteTally(tally@),
        }
    }
}

/// The content of the certificate that closes a public vote on the plan `id`.
pub open spec fn public_certificate(id: Seq<u8>) -> CertificateContent {
    CertificateContent::VoteTally(TallyContent { id, payload: TallyPayload::Public })
}

/// The content of the certificate that closes a private vote on the plan `id`
/// with the given entries.
pub open spec fn private_certificate(id: Seq<u8>, entries: Seq<ProposalTally>) -> CertificateContent {
    CertificateContent::VoteTally(TallyContent { id, payload: TallyPayload::Private(entries) })
}

impl Certificate {
    /// The vote tally that the certificate holds.
    pub fn vote_tally(&self) -> (tally: &VoteTally)
        ensures
            self@ == CertificateContent::VoteTally(tally@),
    {
        match self {
            Certificate::VoteTally(tally) => tally,
        }
    }
}

} // verus!
