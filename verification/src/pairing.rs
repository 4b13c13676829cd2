//! Pairing the proposals of a vote plan with the committee's shares.

use crate::certificate::{DecryptedPrivateTallyProposal, ProposalTally};
use crate::error::Error;
use crate::share::TallyDecryptShare;
use crate::vote_plan::{classification, decrypted_result, VoteProposal};
use vstd::prelude::*;

verus! {

/// How many proposals are paired with a share collection: pairing goes by
/// position and stops where either side ends.
pub open spec fn paired_len(proposals: Seq<VoteProposal>, shares: Seq<Seq<Seq<u8>>>) -> int {
    if proposals.len() <= shares.len() {
        proposals.len() as int
    } else {
        shares.len() as int
    }
}

/// The certificate entry for a proposal with a decrypted private tally and
/// the shares that belong to it.
pub open spec fn paired_entry(proposal: VoteProposal, shares: Seq<Seq<u8>>) -> ProposalTally {
    ProposalTally {
        decrypt_shares: shares,
        tally_result: decrypted_result(proposal.tally).unwrap(),
    }
}

/// The certificate entries for the paired proposals, in their order.
pub open spec fn paired_tallies(
    proposals: Seq<VoteProposal>,
    shares: Seq<Seq<Seq<u8>>>,
) -> Seq<ProposalTally> {
    Seq::new(paired_len(proposals, shares) as nat, |i: int| paired_entry(proposals[i], shares[i]))
}

/// `k` is the first of the first `limit` proposals whose tally is not a
/// decrypted private tally.
pub open spec fn is_first_undecrypted(proposals: Seq<VoteProposal>, limit: int, k: int) -> bool {
    &&& 0 <= k < limit
    &&& k < proposals.len()
    &&& classification(proposals[k].tally) is Some
    &&& forall|j: int| 0 <= j < k ==> classification(#[trigger] proposals[j].tally) is None
}

/// The position of the first of the first `limit` proposals whose tally is
/// not a decrypted private tally, if there is one.
pub open spec fn first_undecrypted(proposals: Seq<VoteProposal>, limit: int) -> Option<int> {
    if exists|k: int| is_first_undecrypted(proposals, limit, k) {
        Some(choose|k: int| is_first_undecrypted(proposals, limit, k))
    } else {
        None
    }
}

/// What pairing proposals with share collections gives: the entries of all
/// pairs, or a failure that names what stands in the first proposal without a
/// decrypted private tally.
pub open spec fn paired_outcome(proposals: Seq<VoteProposal>, shares: Seq<Seq<Seq<u8>>>) -> Result<
    Seq<ProposalTally>,
    Error,
> {
    match first_undecrypted(proposals, paired_len(proposals, shares)) {
        Some(k) => Err(
            Error::PrivateTallyExpected { found: classification(proposals[k].tally).unwrap() },
        ),
        None => Ok(paired_tallies(proposals, shares)),
    }
}

/// The mathematical content of the result of a pairing.
pub open spec fn tallies_content(res: Result<Vec<DecryptedPrivateTallyProposal>, Error>) -> Result<
    Seq<ProposalTally>,
    Error,
> {
    match res {
        Ok(tallies) => Ok(tallies.deep_view()),
        Err(error) => Err(error),
    }
}

/// A position that is the first without a decrypted private tally is the one
/// that `first_undecrypted` gives.
pub proof fn lemma_first_undecrypted(proposals: Seq<VoteProposal>, limit: int, k: int)
    requires
        is_first_undecrypted(proposals, limit, k),
    ensures
        first_undecrypted(proposals, limit) == Some(k),
{
    let chosen = choose|c: int| is_first_undecrypted(proposals, limit, c);
    if chosen < k {
        assert(classification(proposals[chosen].tally) is None);
    } else if k < chosen {
        assert(classification(proposals[k].tally) is None);
    }
}

/// Where each of the first `limit` proposals has a decrypted private tally,
/// `first_undecrypted` gives none.
pub proof fn lemma_all_decrypted(proposals: Seq<VoteProposal>, limit: int)
    requires
        forall|j: int|
            0 <= j < limit && j < proposals.len() ==> classification(
                #[trigger] proposals[j].tally,
            ) is None,
    ensures
        first_undecrypted(proposals, limit) is None,
{
    assert forall|k: int| !is_first_undecrypted(proposals, limit, k) by {
        if 0 <= k < limit && k < proposals.len() {
            assert(classification(proposals[k].tally) is None);
        }
    }
}

/// Below a proposal without a decrypted private tally there is a first
/// such proposal, at its position or before it.
pub proof fn lemma_undecrypted_has_first(proposals: Seq<VoteProposal>, limit: int, k: int) -> (first:
    int)
    requires
        0 <= k < limit,
        k < proposals.len(),
        classification(proposals[k].tally) is Some,
    ensures
        0 <= first <= k,
        is_first_undecrypted(proposals, limit, first),
    decreases k,
{
    if exists|j: int| 0 <= j < k && classification(#[trigger] proposals[j].tally) is Some {
        let j = choose|j: int| 0 <= j < k && classification(#[trigger] proposals[j].tally) is Some;
        lemma_undecrypted_has_first(proposals, limit, j)
    } else {
        k
    }
}

/// Pairs each proposal with the share collection at its position and makes
/// the certificate entry of each pair.
///
/// Fails at the first paired proposal whose tally is not a decrypted private
/// tally, and names what was found there.
pub fn decrypted_tallies(
    proposals: &Vec<VoteProposal>,
    shares: Vec<Vec<TallyDecryptShare>>,
) -> (res: Result<Vec<DecryptedPrivateTallyProposal>, Error>)
    ensures
        tallies_content(res) == paired_outcome(proposals@, shares.deep_view()),
{
    let ghost all = shares.deep_view();
    let mut tallies: Vec<DecryptedPrivateTallyProposal> = Vec::new();
    let mut i: usize = 0;
    for collection in it: shares
        invariant
            i == it.index(),
            it.seq() == shares@,
            all == shares.deep_view(),
            i <= proposals.len(),
            tallies.len() == i,
            forall|j: int| 0 <= j < i ==> classification(#[trigger] proposals@[j].tally) is None,
            forall|j: int|
                0 <= j < i ==> (#[trigger] tallies@[j]).deep_view() == paired_entry(
                    proposals@[j],
                    all[j],
                ),
    {
        if i >= proposals.len() {
            proof {
                lemma_all_decrypted(proposals@, paired_len(proposals@, all));
                assert(tallies.deep_view() =~= paired_tallies(proposals@, all));
            }
            return Ok(tallies);
        }
        match proposals[i].decrypted_result() {
            Ok(tally_result) => {
                tallies.push(DecryptedPrivateTallyProposal { decrypt_shares: collection, tally_result });
            },
            Err(found) => {
                proof {
                    lemma_first_undecrypted(proposals@, paired_len(proposals@, all), i as int);
                }
                return Err(Error::PrivateTallyExpected { found });
            },
        }
        i += 1;
    }
    proof {
        lemma_all_decrypted(proposals@, paired_len(proposals@, all));
        assert(tallies.deep_view() =~= paired_tallies(proposals@, all));
    }
    Ok(tallies)
}

} // verus!
