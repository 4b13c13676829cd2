//! Building the tally certificate of a vote plan, public or private, from a
//! registration and from what its sources hold.

use crate::certificate::{
    private_certificate, public_certificate, Certificate, CertificateContent,
    DecryptedPrivateTally, PayloadType, VoteTally,
};
use crate::error::Error;
use crate::loader::{check_share_count, get_vote_plan_by_id, selected_vote_plan};
use crate::pairing::{
    decrypted_tallies, is_first_undecrypted, lemma_first_undecrypted, lemma_undecrypted_has_first,
    paired_entry, paired_outcome, paired_tallies,
};
use crate::share::TallyDecryptShare;
use crate::vote_plan::{classification, VotePlan, VotePlanId};
use vstd::prelude::*;

verus! {

/// A finished certificate and where it is to be written: to the file named
/// by `destination`, or to the standard output where there is none.
#[derive(Clone, Debug, PartialEq, Eq)]
pub struct CertificateWrite {
    pub destination: Option<String>,
    pub certificate: Certificate,
}

/// The mathematical content of a [`CertificateWrite`].
pub struct WriteContent {
    pub destination: Option<Seq<char>>,
    pub certificate: CertificateContent,
}

/// The characters of an optional path.
pub open spec fn path_chars(path: Option<String>) -> Option<Seq<char>> {
    match path {
        Some(path) => Some(path@),
        None => None,
    }
}

impl View for CertificateWrite {
    type V = WriteContent;

    open spec fn view(&self) -> WriteContent {
        WriteContent {
            destination: path_chars(self.destination),
            certificate: self.certificate@,
        }
    }
}

/// The mathematical content of the result of a build.
pub open spec fn certificate_content(res: Result<Certificate, Error>) -> Result<
    CertificateContent,
    Error,
> {
    match res {
        Ok(certificate) => Ok(certificate@),
        Err(error) => Err(error),
    }
}

/// The mathematical content of the result of a registration.
pub open spec fn write_content(res: Result<CertificateWrite, Error>) -> Result<
    WriteContent,
    Error,
> {
    match res {
        Ok(write) => Ok(write@),
        Err(error) => Err(error),
    }
}

/// The certificate that closes the private vote on `vote_plan` with the given
/// share collections.
///
/// The number of share collections is checked against the number of
/// proposals before any proposal is looked at. Then every proposal must hold
/// a decrypted private tally.
pub open spec fn private_tally_certificate(
    vote_plan: VotePlan,
    shares: Seq<Seq<Seq<u8>>>,
) -> Result<CertificateContent, Error> {
    if shares.len() != vote_plan.proposals@.len() {
        Err(
            Error::ShareCountMismatch {
                expected: vote_plan.proposals.len(),
                actual: shares.len() as usize,
            },
        )
    } else {
        match paired_outcome(vote_plan.proposals@, shares) {
            Ok(entries) => Ok(private_certificate(vote_plan.id@, entries)),
            Err(error) => Err(error),
        }
    }
}

/// Builds the certificate that closes the private vote on `vote_plan`:
/// entry by entry, the shares at a proposal's position and the proposal's
/// decrypted outcome.
pub fn build_private_tally(vote_plan: VotePlan, shares: Vec<Vec<TallyDecryptShare>>) -> (res:
    Result<Certificate, Error>)
    ensures
        certificate_content(res) == private_tally_certificate(vote_plan, shares.deep_view()),
{
    match check_share_count(&shares, vote_plan.proposals.len()) {
        Ok(()) => {},
        Err(error) => {
            return Err(error);
        },
    }
    match decrypted_tallies(&vote_plan.proposals, shares) {
        Ok(tallies) => {
            let vote_tally = VoteTally::new_private(vote_plan.id, DecryptedPrivateTally::new(tallies));
            Ok(Certificate::VoteTally(vote_tally))
        },
        Err(error) => Err(error),
    }
}

/// A private tally certificate is built only where there is one share
/// collection per proposal and every proposal holds a decrypted private
/// tally. It then names the vote plan and has exactly one entry for each
/// proposal, in the proposals' order: the shares at the proposal's position
/// and the proposal's outcome.
pub proof fn lemma_one_entry_per_proposal(vote_plan: VotePlan, shares: Seq<Seq<Seq<u8>>>)
    requires
        private_tally_certificate(vote_plan, shares) is Ok,
    ensures
        shares.len() == vote_plan.proposals@.len(),
        forall|i: int|
            0 <= i < vote_plan.proposals@.len() ==> classification(
                #[trigger] vote_plan.proposals@[i].tally,
            ) is None,
        private_tally_certificate(vote_plan, shares) == Ok::<CertificateContent, Error>(
            private_certificate(vote_plan.id@, paired_tallies(vote_plan.proposals@, shares)),
        ),
        paired_tallies(vote_plan.proposals@, shares).len() == vote_plan.proposals@.len(),
        forall|i: int|
            0 <= i < vote_plan.proposals@.len() ==> #[trigger] paired_tallies(
                vote_plan.proposals@,
                shares,
            )[i] == paired_entry(vote_plan.proposals@[i], shares[i]),
{
    let proposals = vote_plan.proposals@;
    let limit = proposals.len() as int;
    assert forall|i: int| 0 <= i < proposals.len() implies classification(
        #[trigger] proposals[i].tally,
    ) is None by {
        if classification(proposals[i].tally) is Some {
            let first = lemma_undecrypted_has_first(proposals, limit, i);
            lemma_first_undecrypted(proposals, limit, first);
        }
    }
}

/// A proposal without a decrypted private tally fails the whole build,
/// whatever the other proposals hold. The failure names what stands in the
/// first such proposal; that is the proposal at `k` itself where all before
/// it hold a decrypted private tally.
pub proof fn lemma_undecrypted_proposal_fails(
    vote_plan: VotePlan,
    shares: Seq<Seq<Seq<u8>>>,
    k: int,
) -> (first: int)
    requires
        shares.len() == vote_plan.proposals@.len(),
        0 <= k < vote_plan.proposals@.len(),
        classification(vote_plan.proposals@[k].tally) is Some,
    ensures
        0 <= first <= k,
        is_first_undecrypted(vote_plan.proposals@, vote_plan.proposals@.len() as int, first),
        private_tally_certificate(vote_plan, shares) == Err::<CertificateContent, Error>(
            Error::PrivateTallyExpected {
                found: classification(vote_plan.proposals@[first].tally).unwrap(),
            },
        ),
        (forall|j: int|
            0 <= j < k ==> classification(#[trigger] vote_plan.proposals@[j].tally) is None)
            ==> first == k,
{
    let proposals = vote_plan.proposals@;
    let limit = proposals.len() as int;
    let first = lemma_undecrypted_has_first(proposals, limit, k);
    lemma_first_undecrypted(proposals, limit, first);
    first
}

/// Where the number of share collections is not the number of proposals, the
/// build fails on that account, whatever the proposals hold.
pub proof fn lemma_share_count_decides_first(vote_plan: VotePlan, shares: Seq<Seq<Seq<u8>>>)
    requires
        shares.len() != vote_plan.proposals@.len(),
    ensures
        private_tally_certificate(vote_plan, shares) == Err::<CertificateContent, Error>(
            Error::ShareCountMismatch {
                expected: vote_plan.proposals.len(),
                actual: shares.len() as usize,
            },
        ),
{
}

/// The registration of a public tally.
#[derive(Clone, Debug, PartialEq, Eq)]
pub struct PublicTally {
    /// The vote plan's identifier on the blockchain.
    pub id: VotePlanId,
    /// Where the certificate goes: a file, or the standard output if `None`.
    pub output: Option<String>,
}

impl PublicTally {
    /// What the registration gives: always a certificate that names the vote
    /// plan and carries no payload.
    pub open spec fn outcome(self) -> Result<WriteContent, Error> {
        Ok(
            WriteContent {
                destination: path_chars(self.output),
                certificate: public_certificate(self.id@),
            },
        )
    }

    /// Builds the certificate of the public tally and says where it goes.
    pub fn exec(self) -> (res: Result<CertificateWrite, Error>)
        ensures
            write_content(res) == self.outcome(),
    {
        let vote_tally = VoteTally::new_public(self.id);
        let certificate = Certificate::VoteTally(vote_tally);
        Ok(CertificateWrite { destination: self.output, certificate })
    }
}

/// The certificate of a public tally is of the public kind, names the
/// registration's vote plan and carries no decrypted payload.
pub proof fn lemma_public_tally_identity(tally: PublicTally)
    ensures
        tally.outcome() is Ok,
        tally.outcome().unwrap().certificate is VoteTally,
        tally.outcome().unwrap().certificate->VoteTally_0.id == tally.id@,
        tally.outcome().unwrap().certificate->VoteTally_0.payload.payload_type()
            == PayloadType::Public,
        tally.outcome().unwrap().certificate->VoteTally_0.payload.decrypted() is None,
{
}

/// The registration of a private tally.
#[derive(Clone, Debug, PartialEq, Eq)]
pub struct PrivateTally {
    /// Path of the file with the committee's shares.
    pub shares: String,
    /// Path of the file with the vote plans and the state of their tallies.
    pub vote_plan: String,
    /// The identifier of the vote plan that is meant. May be `None` where the
    /// file holds one vote plan only.
    pub vote_plan_id: Option<VotePlanId>,
    /// Where the certificate goes: a file, or the standard output if `None`.
    pub output: Option<String>,
}

impl PrivateTally {
    /// The bytes of the identifier that picks the vote plan, if one was
    /// given.
    pub open spec fn wanted_id(self) -> Option<Seq<u8>> {
        match self.vote_plan_id {
            Some(id) => Some(id@),
            None => None,
        }
    }

    /// What the registration gives for the vote plans and the share
    /// collections that its two sources hold.
    pub open spec fn outcome(self, vote_plans: Seq<VotePlan>, shares: Seq<Seq<Seq<u8>>>) -> Result<
        WriteContent,
        Error,
    > {
        match selected_vote_plan(vote_plans, self.wanted_id()) {
            Ok(vote_plan) => match private_tally_certificate(vote_plan, shares) {
                Ok(certificate) => Ok(
                    WriteContent { destination: path_chars(self.output), certificate },
                ),
                Err(error) => Err(error),
            },
            Err(error) => Err(error),
        }
    }

    /// Builds the certificate of the private tally from what the two sources
    /// hold, and says where it goes.
    ///
    /// `vote_plans` is what the file `self.vote_plan` holds, `shares` what
    /// the file `self.shares` holds. Any failure ends the build: nothing is
    /// to be written then.
    pub fn exec(self, vote_plans: Vec<VotePlan>, shares: Vec<Vec<TallyDecryptShare>>) -> (res:
        Result<CertificateWrite, Error>)
        ensures
            write_content(res) == self.outcome(vote_plans@, shares.deep_view()),
    {
        let wanted = match &self.vote_plan_id {
            Some(id) => Some(id),
            None => None,
        };
        let vote_plan = match get_vote_plan_by_id(vote_plans, wanted) {
            Ok(vote_plan) => vote_plan,
            Err(error) => {
                return Err(error);
            },
        };
        match build_private_tally(vote_plan, shares) {
            Ok(certificate) => Ok(CertificateWrite { destination: self.output, certificate }),
            Err(error) => Err(error),
        }
    }
}

/// The registration of a vote tally: public or private.
#[derive(Clone, Debug, PartialEq, Eq)]
pub enum VoteTallyRegistration {
    Public(PublicTally),
    Private(PrivateTally),
}

impl VoteTallyRegistration {
    /// What the registration gives: what the tally that it selects gives.
    /// A public tally consults no source.
    pub open spec fn outcome(self, vote_plans: Seq<VotePlan>, shares: Seq<Seq<Seq<u8>>>) -> Result<
        WriteContent,
        Error,
    > {
        match self {
            VoteTallyRegistration::Public(public) => public.outcome(),
            VoteTallyRegistration::Private(private) => private.outcome(vote_plans, shares),
        }
    }

    /// Hands the work to the tally that the registration selects and returns
    /// its result unchanged.
    pub fn exec(self, vote_plans: Vec<VotePlan>, shares: Vec<Vec<TallyDecryptShare>>) -> (res:
        Result<CertificateWrite, Error>)
        ensures
            write_content(res) == self.outcome(vote_plans@, shares.deep_view()),
    {
        match self {
            VoteTallyRegistration::Public(public) => public.exec(),
            VoteTallyRegistration::Private(private) => private.exec(vote_plans, shares),
        }
    }
}

} // verus!
