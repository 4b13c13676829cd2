use vote_tally::certificate::DecryptedPrivateTallyProposal;
use vote_tally::error::Error;
use vote_tally::pairing::decrypted_tallies;
use vote_tally::share::TallyDecryptShare;
use vote_tally::vote_plan::{Found, PrivateTallyState, Tally, TallyResult, VoteProposal};

fn share(byte: u8) -> TallyDecryptShare {
    TallyDecryptShare::from_bytes(vec![byte, byte])
}

fn decrypted(results: Vec<u64>) -> VoteProposal {
    VoteProposal {
        tally: Some(Tally::Private {
            state: PrivateTallyState::Decrypted { result: TallyResult::new(results) },
        }),
    }
}

fn encrypted() -> VoteProposal {
    VoteProposal {
        tally: Some(Tally::Private {
            state: PrivateTallyState::Encrypted,
        }),
    }
}

fn public() -> VoteProposal {
    VoteProposal { tally: Some(Tally::Public { result: TallyResult::new(vec![1]) }) }
}

#[test]
fn pairs_go_by_position() {
    let proposals = vec![decrypted(vec![1, 2]), decrypted(vec![3, 4]), decrypted(vec![])];
    let shares = vec![vec![share(1)], vec![share(2), share(3)], vec![]];

    let tallies = decrypted_tallies(&proposals, shares).unwrap();

    assert_eq!(
        tallies,
        vec![
            DecryptedPrivateTallyProposal { decrypt_shares: vec![share(1)], tally_result: vec![1, 2] },
            DecryptedPrivateTallyProposal {
                decrypt_shares: vec![share(2), share(3)],
                tally_result: vec![3, 4],
            },
            DecryptedPrivateTallyProposal { decrypt_shares: vec![], tally_result: vec![] },
        ]
    );
}

#[test]
fn pairing_nothing_gives_nothing() {
    assert_eq!(decrypted_tallies(&vec![], vec![]), Ok(vec![]));
    assert_eq!(decrypted_tallies(&vec![], vec![vec![share(1)]]), Ok(vec![]));
    assert_eq!(decrypted_tallies(&vec![decrypted(vec![1])], vec![]), Ok(vec![]));
}

#[test]
fn pairing_stops_where_the_shares_end() {
    let proposals = vec![decrypted(vec![1]), decrypted(vec![2]), public()];
    let shares = vec![vec![share(1)], vec![share(2)]];

    let tallies = decrypted_tallies(&proposals, shares).unwrap();

    assert_eq!(
        tallies,
        vec![
            DecryptedPrivateTallyProposal { decrypt_shares: vec![share(1)], tally_result: vec![1] },
            DecryptedPrivateTallyProposal { decrypt_shares: vec![share(2)], tally_result: vec![2] },
        ]
    );
}

#[test]
fn pairing_stops_where_the_proposals_end() {
    let proposals = vec![decrypted(vec![7])];
    let shares = vec![vec![share(1)], vec![share(2)], vec![share(3)]];

    let tallies = decrypted_tallies(&proposals, shares).unwrap();

    assert_eq!(
        tallies,
        vec![DecryptedPrivateTallyProposal { decrypt_shares: vec![share(1)], tally_result: vec![7] }]
    );
}

#[test]
fn pairing_fails_at_the_first_undecrypted_pair() {
    let proposals = vec![decrypted(vec![1]), encrypted(), public()];
    let shares = vec![vec![], vec![], vec![]];

    assert_eq!(
        decrypted_tallies(&proposals, shares),
        Err(Error::PrivateTallyExpected { found: Found::PrivateEncryptedTally })
    );
}

#[test]
fn each_tally_state_is_told_apart() {
    assert_eq!(decrypted(vec![5, 6]).decrypted_result(), Ok(vec![5, 6]));
    assert_eq!(encrypted().decrypted_result(), Err(Found::PrivateEncryptedTally));
    assert_eq!(public().decrypted_result(), Err(Found::PublicTally));
    assert_eq!(VoteProposal { tally: None }.decrypted_result(), Err(Found::NoTally));
}

#[test]
fn what_was_found_has_a_name() {
    assert_eq!(Found::PublicTally.as_str(), "public tally");
    assert_eq!(Found::PrivateEncryptedTally.as_str(), "private encrypted tally");
    assert_eq!(Found::NoTally.as_str(), "none");
}

#[test]
fn results_and_share_bytes_are_copied_out() {
    let result = TallyResult::new(vec![3, 1, 4]);
    assert_eq!(result.results(), vec![3, 1, 4]);
    assert_eq!(TallyResult::new(vec![]).results(), Vec::<u64>::new());

    let share = TallyDecryptShare::from_bytes(vec![1, 5, 9]);
    assert_eq!(share.to_bytes(), vec![1, 5, 9]);
}
