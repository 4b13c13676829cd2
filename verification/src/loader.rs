//! The decisions taken on what was read from the vote plan source and the
//! shares source: which vote plan is meant, and whether the shares fit it.

use crate::error::Error;
use crate::share::TallyDecryptShare;
use crate::vote_plan::{VotePlan, VotePlanId};
use vstd::prelude::*;

verus! {

/// `k` is the position of the first vote plan with identifier `id`.
pub open spec fn is_first_with_id(vote_plans: Seq<VotePlan>, id: Seq<u8>, k: int) -> bool {
    &&& 0 <= k < vote_plans.len()
    &&& vote_plans[k].id@ == id
    &&& forall|j: int| 0 <= j < k ==> (#[trigger] vote_plans[j]).id@ != id
}

/// The position of the first vote plan with identifier `id`, if there is
/// one.
pub open spec fn first_with_id(vote_plans: Seq<VotePlan>, id: Seq<u8>) -> Option<int> {
    if exists|k: int| is_first_with_id(vote_plans, id, k) {
        Some(choose|k: int| is_first_with_id(vote_plans, id, k))
    } else {
        None
    }
}

/// The vote plan that a source holding `vote_plans` yields for an optional
/// identifier.
///
/// With an identifier it is the first vote plan that has it. Without one it
/// is the only vote plan of the source; several of them are ambiguous.
pub open spec fn selected_vote_plan(vote_plans: Seq<VotePlan>, id: Option<Seq<u8>>) -> Result<
    VotePlan,
    Error,
> {
    match id {
        Some(id) => match first_with_id(vote_plans, id) {
            Some(k) => Ok(vote_plans[k]),
            None => Err(Error::VotePlanNotFound),
        },
        None => if vote_plans.len() == 0 {
            Err(Error::VotePlanNotFound)
        } else if vote_plans.len() == 1 {
            Ok(vote_plans[0])
        } else {
            Err(Error::AmbiguousVotePlan)
        },
    }
}

/// The bytes of an optional identifier.
pub open spec fn id_bytes(id: Option<&VotePlanId>) -> Option<Seq<u8>> {
    match id {
        Some(id) => Some(id@),
        None => None,
    }
}

/// A position that is the first with a given identifier is the one that
/// `first_with_id` gives.
pub proof fn lemma_first_with_id(vote_plans: Seq<VotePlan>, id: Seq<u8>, k: int)
    requires
        is_first_with_id(vote_plans, id, k),
    ensures
        first_with_id(vote_plans, id) == Some(k),
{
    let chosen = choose|c: int| is_first_with_id(vote_plans, id, c);
    if chosen < k {
        assert(vote_plans[chosen].id@ != id);
    } else if k < chosen {
        assert(vote_plans[k].id@ != id);
    }
}

/// Picks the vote plan that is meant from those that the source holds.
pub fn get_vote_plan_by_id(vote_plans: Vec<VotePlan>, id: Option<&VotePlanId>) -> (res: Result<
    VotePlan,
    Error,
>)
    ensures
        res == selected_vote_plan(vote_plans@, id_bytes(id)),
{
    let mut rest = vote_plans;
    match id {
        Some(wanted) => {
            let mut i: usize = 0;
            while i < rest.len()
                invariant
                    id == Some(wanted),
                    rest@ == vote_plans@,
                    i <= rest.len(),
                    forall|j: int| 0 <= j < i ==> (#[trigger] vote_plans@[j]).id@ != wanted@,
                decreases rest.len() - i,
            {
                if rest[i].id.same_as(wanted) {
                    proof {
                        lemma_first_with_id(vote_plans@, wanted@, i as int);
                    }
                    return Ok(rest.swap_remove(i));
                }
                i += 1;
            }
            assert(forall|k: int| !is_first_with_id(vote_plans@, wanted@, k));
            Err(Error::VotePlanNotFound)
        },
        None => {
            if rest.len() == 1 {
                Ok(rest.swap_remove(0))
            } else if rest.len() == 0 {
                Err(Error::VotePlanNotFound)
            } else {
                Err(Error::AmbiguousVotePlan)
            }
        },
    }
}

/// Whether the source supplied one share collection per proposal.
pub open spec fn share_count_checked(actual: usize, expected_count: usize) -> Result<(), Error> {
    if actual == expected_count {
        Ok(())
    } else {
        Err(Error::ShareCountMismatch { expected: expected_count, actual })
    }
}

/// Checks that there is one share collection for each of `expected_count`
/// proposals.
pub fn check_share_count(shares: &Vec<Vec<TallyDecryptShare>>, expected_count: usize) -> (res:
    Result<(), Error>)
    ensures
        res == share_count_checked(shares.len(), expected_count),
{
    if shares.len() == expected_count {
        Ok(())
    } else {
        Err(Error::ShareCountMismatch { expected: expected_count, actual: shares.len() })
    }
}

} // verus!
