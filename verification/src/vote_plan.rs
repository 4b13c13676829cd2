//! Vote plans as the ledger reports them: an identifier and, for each
//! proposal in order, the state of its tally.

use vstd::prelude::*;

verus! {

/// Identifier of a vote plan: 32 bytes, never interpreted.
#[derive(Clone, Copy, Debug, PartialEq, Eq, Hash)]
pub struct VotePlanId {
    pub bytes: [u8; 32],
}

impl View for VotePlanId {
    type V = Seq<u8>;

    open spec fn view(&self) -> Seq<u8> {
        self.bytes@
    }
}

impl VotePlanId {
    /// The identifier made of the given bytes.
    pub fn from_bytes(bytes: [u8; 32]) -> (id: VotePlanId)
        ensures
            id@ == bytes@,
    {
        VotePlanId { bytes }
    }

    /// Whether two identifiers hold the same bytes.
    pub fn same_as(&self, other: &VotePlanId) -> (same: bool)
        ensures
            same == (self@ == other@),
    {
        let mut i: usize = 0;
        while i < 32
            invariant
                i <= 32,
                forall|k: int| 0 <= k < i ==> self.bytes@[k] == other.bytes@[k],
            decreases 32 - i,
        {
            if self.bytes[i] != other.bytes[i] {
                return false;
            }
            i += 1;
        }
        assert(self.bytes@ =~= other.bytes@);
        true
    }
}

/// The plaintext outcome of one proposal: one count per option, in the order
/// of the options.
#[derive(Clone, Debug, PartialEq, Eq)]
pub struct TallyResult {
    pub results: Vec<u64>,
}

impl View for TallyResult {
    type V = Seq<u64>;

    open spec fn view(&self) -> Seq<u64> {
        self.results@
    }
}

impl TallyResult {
    /// The outcome with the given counts.
    pub fn new(results: Vec<u64>) -> (tally: TallyResult)
        ensures
            tally@ == results@,
    {
        TallyResult { results }
    }

    /// A copy of the counts.
    pub fn results(&self) -> (counts: Vec<u64>)
        ensures
            counts@ == self@,
    {
        let counts = self.results.clone();
        assert(counts@ =~= self.results@);
        counts
    }
}

/// How far a private tally has come.
#[derive(Clone, Debug, PartialEq, Eq)]
pub enum PrivateTallyState {
    /// The committee has not decrypted the tally yet.
    Encrypted,
    /// The tally was decrypted and its outcome is known.
    Decrypted { result: TallyResult },
}

/// The tally recorded for a proposal.
#[derive(Clone, Debug, PartialEq, Eq)]
pub enum Tally {
    /// Votes were cast in the clear.
    Public { result: TallyResult },
    /// Votes were cast encrypted.
    Private { state: PrivateTallyState },
}

/// One proposal of a vote plan. `tally` is `None` while no tally is recorded.
#[derive(Clone, Debug, PartialEq, Eq)]
pub struct VoteProposal {
    pub tally: Option<Tally>,
}

/// A vote plan: its identifier and its proposals in ledger order.
#[derive(Clone, Debug, PartialEq, Eq)]
pub struct VotePlan {
    pub id: VotePlanId,
    pub proposals: Vec<VoteProposal>,
}

/// What stands in a proposal where a decrypted private tally was expected.
#[derive(Clone, Copy, Debug, PartialEq, Eq, Structural)]
pub enum Found {
    PublicTally,
    PrivateEncryptedTally,
    NoTally,
}

impl Found {
    /// The words that name this state to a user.
    pub open spec fn spec_as_str(self) -> Seq<char> {
        match self {
            Found::PublicTally => "public tally"@,
            Found::PrivateEncryptedTally => "private encrypted tally"@,
            Found::NoTally => "none"@,
        }
    }

    /// The words that name this state to a user.
    pub fn as_str(&self) -> (name: &'static str)
        ensures
            name@ == self.spec_as_str(),
    {
        match self {
            Found::PublicTally => "public tally",
            Found::PrivateEncryptedTally => "private encrypted tally",
            Found::NoTally => "none",
        }
    }
}

/// The decrypted outcome of a tally, if it is a decrypted private tally.
pub open spec fn decrypted_result(tally: Option<Tally>) -> Option<Seq<u64>> {
    match tally {
        Some(Tally::Private { state: PrivateTallyState::Decrypted { result } }) => Some(result@),
        _ => None,
    }
}

/// What a tally is instead of a decrypted private tally; `None` where it is
/// one.
pub open spec fn classification(tally: Option<Tally>) -> Option<Found> {
    match tally {
        Some(Tally::Private { state: PrivateTallyState::Decrypted { .. } }) => None,
        Some(Tally::Private { state: PrivateTallyState::Encrypted }) => Some(
            Found::PrivateEncryptedTally,
        ),
        Some(Tally::Public { .. }) => Some(Found::PublicTally),
        None => Some(Found::NoTally),
    }
}

impl VoteProposal {
    /// The proposal's outcome where its tally is private and decrypted, else
    /// what was found in its place.
    pub fn decrypted_result(&self) -> (res: Result<Vec<u64>, Found>)
        ensures
            match res {
                Ok(counts) => decrypted_result(self.tally) == Some(counts@),
                Err(found) => classification(self.tally) == Some(found),
            },
    {
        match &self.tally {
            Some(Tally::Private { state: PrivateTallyState::Decrypted { result } }) => Ok(
                result.results(),
            ),
            Some(Tally::Private { state: PrivateTallyState::Encrypted }) => Err(
                Found::PrivateEncryptedTally,
            ),
            Some(Tally::Public { .. }) => Err(Found::PublicTally),
            None => Err(Found::NoTally),
        }
    }
}

} // verus!
