use pd::decimal::{append_decimal, append_zero_padded, decimal_len};
use pd::state_key::{
    all_rate_data_at_proposal_start, all_tallied_delegator_votes_for_proposal,
    all_unfinished_proposals, all_untallied_delegator_votes,
    all_untallied_delegator_votes_for_proposal, all_validator_votes_for_proposal,
    all_voting_power_at_proposal_start, change_chain_params_at_height, dao_transaction,
    deliver_dao_transactions_at_height, deliver_single_dao_transaction_at_height,
    next_proposal_id, proposal_definition, proposal_deposit_amount, proposal_started,
    proposal_state, proposal_voting_end, proposal_voting_start, proposal_voting_start_position,
    rate_data_at_proposal_start, tallied_delegator_votes, unfinished_proposal,
    untallied_delegator_vote, validator_vote, voted_nullifier_lookup_for_proposal,
    voting_power_at_proposal_start,
};

#[test]
fn decimal_rendering() {
    let mut s = String::new();
    append_decimal(&mut s, 0);
    assert_eq!(s, "0");
    let mut s = String::from("h=");
    append_decimal(&mut s, 1234567);
    assert_eq!(s, "h=1234567");
    let mut s = String::new();
    append_decimal(&mut s, u64::MAX);
    assert_eq!(s, "18446744073709551615");
    assert_eq!(decimal_len(0), 1);
    assert_eq!(decimal_len(10), 2);
    assert_eq!(decimal_len(u64::MAX), 20);
}

#[test]
fn zero_padding() {
    let mut s = String::new();
    append_zero_padded(&mut s, 42, 5);
    assert_eq!(s, "00042");
    let mut s = String::new();
    append_zero_padded(&mut s, 123456, 3);
    assert_eq!(s, "123456");
    let mut s = String::new();
    append_zero_padded(&mut s, 0, 0);
    assert_eq!(s, "0");
}

#[test]
fn fixed_keys() {
    assert_eq!(next_proposal_id(), "governance/next_proposal_id");
    assert_eq!(all_unfinished_proposals(), "governance/unfinished_proposals/");
    assert_eq!(all_untallied_delegator_votes(), "governance/untallied_delegator_vote/");
    assert_eq!(proposal_started(), "governance/proposal_started");
}

#[test]
fn proposal_keys_pad_ids_to_twenty_digits() {
    assert_eq!(proposal_definition(7), "governance/proposal/00000000000000000007/data");
    assert_eq!(
        dao_transaction(12),
        "governance/proposal/00000000000000000012/dao_transaction"
    );
    assert_eq!(proposal_state(0), "governance/proposal/00000000000000000000/state");
    assert_eq!(
        proposal_deposit_amount(u64::MAX),
        "governance/proposal/18446744073709551615/deposit_amount"
    );
    assert_eq!(
        proposal_voting_start(3),
        "governance/proposal/00000000000000000003/voting_start"
    );
    assert_eq!(
        proposal_voting_start_position(3),
        "governance/proposal/00000000000000000003/voting_start_position"
    );
    assert_eq!(
        proposal_voting_end(99),
        "governance/proposal/00000000000000000099/voting_end"
    );
    assert_eq!(
        unfinished_proposal(5),
        "governance/unfinished_proposals/00000000000000000005"
    );
}

#[test]
fn keys_with_identity_keys_and_nullifiers() {
    assert_eq!(
        voted_nullifier_lookup_for_proposal(1, "nf"),
        "governance/proposal/00000000000000000001/voted_nullifiers/nf"
    );
    assert_eq!(
        rate_data_at_proposal_start(1, "ik"),
        "governance/proposal/00000000000000000001/rate_data_at_start/ik"
    );
    assert_eq!(
        voting_power_at_proposal_start(1, "ik"),
        "governance/proposal/00000000000000000001/voting_power_at_start/ik"
    );
    assert_eq!(
        validator_vote(2, "ik"),
        "governance/validator_vote/00000000000000000002/ik"
    );
    assert_eq!(
        tallied_delegator_votes(2, "ik"),
        "governance/tallied_delegator_votes/00000000000000000002/ik"
    );
    assert_eq!(
        untallied_delegator_vote(2, "ik", "nf"),
        "governance/untallied_delegator_vote/00000000000000000002/ik/nf"
    );
}

#[test]
fn height_keys_are_not_padded() {
    assert_eq!(
        deliver_single_dao_transaction_at_height(150, 4),
        "governance/deliver_dao_transactions/150/00000000000000000004"
    );
    assert_eq!(
        deliver_dao_transactions_at_height(150),
        "governance/deliver_dao_transactions/150/"
    );
    assert_eq!(
        change_chain_params_at_height(0),
        "governance/change_chain_params/0/"
    );
}

#[test]
fn listing_keys_prefix_their_items() {
    assert!(unfinished_proposal(8).starts_with(all_unfinished_proposals()));
    assert!(rate_data_at_proposal_start(8, "ik").starts_with(&all_rate_data_at_proposal_start(8)));
    assert!(voting_power_at_proposal_start(8, "ik")
        .starts_with(&all_voting_power_at_proposal_start(8)));
    assert!(validator_vote(8, "ik").starts_with(&all_validator_votes_for_proposal(8)));
    assert!(tallied_delegator_votes(8, "ik")
        .starts_with(&all_tallied_delegator_votes_for_proposal(8)));
    assert!(untallied_delegator_vote(8, "ik", "nf")
        .starts_with(&all_untallied_delegator_votes_for_proposal(8)));
    assert!(untallied_delegator_vote(8, "ik", "nf").starts_with(all_untallied_delegator_votes()));
    assert!(deliver_single_dao_transaction_at_height(9, 8)
        .starts_with(&deliver_dao_transactions_at_height(9)));
    assert!(!rate_data_at_proposal_start(9, "ik").starts_with(&all_rate_data_at_proposal_start(8)));
}

#[test]
fn padded_keys_sort_by_id() {
    assert!(proposal_definition(9) < proposal_definition(10));
    assert!(unfinished_proposal(99) < unfinished_proposal(100));
}
