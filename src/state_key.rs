//! Layout of the governance component's keys in the state store.
//!
//! Proposal ids are written as twenty zero-padded decimal digits, so that the
//! lexicographic order of keys follows the numeric order of ids. Validator
//! identity keys and nullifiers are written in their textual form, which the
//! caller supplies.
use vstd::prelude::*;

use crate::decimal::{append_decimal, append_zero_padded, decimal, zero_padded};

verus! {

/// Width of a proposal id inside a key.
pub const PROPOSAL_ID_WIDTH: usize = 20;

/// A proposal id as it stands inside a key.
pub open spec fn padded_id(proposal_id: u64) -> Seq<char> {
    zero_padded(proposal_id as nat, PROPOSAL_ID_WIDTH as nat)
}

/// The key `governance/next_proposal_id`.
pub fn next_proposal_id() -> (r: &'static str)
    ensures
        r@ == "governance/next_proposal_id"@,
{
    "governance/next_proposal_id"
}

/// The key `governance/unfinished_proposals/`.
pub fn all_unfinished_proposals() -> (r: &'static str)
    ensures
        r@ == "governance/unfinished_proposals/"@,
{
    "governance/unfinished_proposals/"
}

/// The key `governance/untallied_delegator_vote/`.
pub fn all_untallied_delegator_votes() -> (r: &'static str)
    ensures
        r@ == "governance/untallied_delegator_vote/"@,
{
    "governance/untallied_delegator_vote/"
}

/// The key `governance/proposal_started`.
pub fn proposal_started() -> (r: &'static str)
    ensures
        r@ == "governance/proposal_started"@,
{
    "governance/proposal_started"
}

/// The key `governance/proposal/{proposal_id:020}/data`.
pub open spec fn proposal_definition_key(proposal_id: u64) -> Seq<char> {
    "governance/proposal/"@ + padded_id(proposal_id) + "/data"@
}

pub fn proposal_definition(proposal_id: u64) -> (r: String)
    ensures
        r@ == proposal_definition_key(proposal_id),
{
    let mut s = String::from_str("governance/proposal/");
    append_zero_padded(&mut s, proposal_id, PROPOSAL_ID_WIDTH);
    s.append("/data");
    proof {
        assert(s@ =~= proposal_definition_key(proposal_id));
    }
    s
}

/// The key `governance/proposal/{proposal_id:020}/dao_transaction`.
pub open spec fn dao_transaction_key(proposal_id: u64) -> Seq<char> {
    "governance/proposal/"@ + padded_id(proposal_id) + "/dao_transaction"@
}

pub fn dao_transaction(proposal_id: u64) -> (r: String)
    ensures
        r@ == dao_transaction_key(proposal_id),
{
    let mut s = String::from_str("governance/proposal/");
    append_zero_padded(&mut s, proposal_id, PROPOSAL_ID_WIDTH);
    s.append("/dao_transaction");
    proof {
        assert(s@ =~= dao_transaction_key(proposal_id));
    }
    s
}

/// The key `governance/proposal/{proposal_id:020}/state`.
pub open spec fn proposal_state_key(proposal_id: u64) -> Seq<char> {
    "governance/proposal/"@ + padded_id(proposal_id) + "/state"@
}

pub fn proposal_state(proposal_id: u64) -> (r: String)
    ensures
        r@ == proposal_state_key(proposal_id),
{
    let mut s = String::from_str("governance/proposal/");
    append_zero_padded(&mut s, proposal_id, PROPOSAL_ID_WIDTH);
    s.append("/state");
    proof {
        assert(s@ =~= proposal_state_key(proposal_id));
    }
    s
}

/// The key `governance/proposal/{proposal_id:020}/deposit_amount`.
pub open spec fn proposal_deposit_amount_key(proposal_id: u64) -> Seq<char> {
    "governance/proposal/"@ + padded_id(proposal_id) + "/deposit_amount"@
}

pub fn proposal_deposit_amount(proposal_id: u64) -> (r: String)
    ensures
        r@ == proposal_deposit_amount_key(proposal_id),
{
    let mut s = String::from_str("governance/proposal/");
    append_zero_padded(&mut s, proposal_id, PROPOSAL_ID_WIDTH);
    s.append("/deposit_amount");
    proof {
        assert(s@ =~= proposal_deposit_amount_key(proposal_id));
    }
    s
}

/// The key `governance/proposal/{proposal_id:020}/voting_start`.
pub open spec fn proposal_voting_start_key(proposal_id: u64) -> Seq<char> {
    "governance/proposal/"@ + padded_id(proposal_id) + "/voting_start"@
}

pub fn proposal_voting_start(proposal_id: u64) -> (r: String)
    ensures
        r@ == proposal_voting_start_key(proposal_id),
{
    let mut s = String::from_str("governance/proposal/");
    append_zero_padded(&mut s, proposal_id, PROPOSAL_ID_WIDTH);
    s.append("/voting_start");
    proof {
        assert(s@ =~= proposal_voting_start_key(proposal_id));
    }
    s
}

/// The key `governance/proposal/{proposal_id:020}/voting_start_position`.
pub open spec fn proposal_voting_start_position_key(proposal_id: u64) -> Seq<char> {
    "governance/proposal/"@ + padded_id(proposal_id) + "/voting_start_position"@
}

pub fn proposal_voting_start_position(proposal_id: u64) -> (r: String)
    ensures
        r@ == proposal_voting_start_position_key(proposal_id),
{
    let mut s = String::from_str("governance/proposal/");
    append_zero_padded(&mut s, proposal_id, PROPOSAL_ID_WIDTH);
    s.append("/voting_start_position");
    proof {
        assert(s@ =~= proposal_voting_start_position_key(proposal_id));
    }
    s
}

/// The key `governance/proposal/{proposal_id:020}/voting_end`.
pub open spec fn proposal_voting_end_key(proposal_id: u64) -> Seq<char> {
    "governance/proposal/"@ + padded_id(proposal_id) + "/voting_end"@
}

pub fn proposal_voting_end(proposal_id: u64) -> (r: String)
    ensures
        r@ == proposal_voting_end_key(proposal_id),
{
    let mut s = String::from_str("governance/proposal/");
    append_zero_padded(&mut s, proposal_id, PROPOSAL_ID_WIDTH);
    s.append("/voting_end");
    proof {
        assert(s@ =~= proposal_voting_end_key(proposal_id));
    }
    s
}

/// The key `governance/unfinished_proposals/{proposal_id:020}`.
pub open spec fn unfinished_proposal_key(proposal_id: u64) -> Seq<char> {
    "governance/unfinished_proposals/"@ + padded_id(proposal_id)
}

pub fn unfinished_proposal(proposal_id: u64) -> (r: String)
    ensures
        r@ == unfinished_proposal_key(proposal_id),
{
    let mut s = String::from_str("governance/unfinished_proposals/");
    append_zero_padded(&mut s, proposal_id, PROPOSAL_ID_WIDTH);
    proof {
        assert(s@ =~= unfinished_proposal_key(proposal_id));
    }
    s
}

/// The key `governance/proposal/{proposal_id:020}/voted_nullifiers/{nullifier}`.
pub open spec fn voted_nullifier_lookup_for_proposal_key(proposal_id: u64, nullifier: Seq<char>) -> Seq<char> {
    "governance/proposal/"@ + padded_id(proposal_id) + "/voted_nullifiers/"@ + nullifier
}

pub fn voted_nullifier_lookup_for_proposal(proposal_id: u64, nullifier: &str) -> (r: String)
    ensures
        r@ == voted_nullifier_lookup_for_proposal_key(proposal_id, nullifier@),
{
    let mut s = String::from_str("governance/proposal/");
    append_zero_padded(&mut s, proposal_id, PROPOSAL_ID_WIDTH);
    s.append("/voted_nullifiers/");
    s.append(nullifier);
    proof {
        assert(s@ =~= voted_nullifier_lookup_for_proposal_key(proposal_id, nullifier@));
    }
    s
}

/// The key `governance/proposal/{proposal_id:020}/rate_data_at_start/{identity_key}`.
pub open spec fn rate_data_at_proposal_start_key(proposal_id: u64, identity_key: Seq<char>) -> Seq<char> {
    "governance/proposal/"@ + padded_id(proposal_id) + "/rate_data_at_start/"@ + identity_key
}

pub fn rate_data_at_proposal_start(proposal_id: u64, identity_key: &str) -> (r: String)
    ensures
        r@ == rate_data_at_proposal_start_key(proposal_id, identity_key@),
{
    let mut s = String::from_str("governance/proposal/");
    append_zero_padded(&mut s, proposal_id, PROPOSAL_ID_WIDTH);
    s.append("/rate_data_at_start/");
    s.append(identity_key);
    proof {
        assert(s@ =~= rate_data_at_proposal_start_key(proposal_id, identity_key@));
    }
    s
}

/// The key `governance/proposal/{proposal_id:020}/rate_data_at_start/`.
pub open spec fn all_rate_data_at_proposal_start_key(proposal_id: u64) -> Seq<char> {
    "governance/proposal/"@ + padded_id(proposal_id) + "/rate_data_at_start/"@
}

pub fn all_rate_data_at_proposal_start(proposal_id: u64) -> (r: String)
    ensures
        r@ == all_rate_data_at_proposal_start_key(proposal_id),
{
    let mut s = String::from_str("governance/proposal/");
    append_zero_padded(&mut s, proposal_id, PROPOSAL_ID_WIDTH);
    s.append("/rate_data_at_start/");
    proof {
        assert(s@ =~= all_rate_data_at_proposal_start_key(proposal_id));
    }
    s
}

/// The key `governance/proposal/{proposal_id:020}/voting_power_at_start/{identity_key}`.
pub open spec fn voting_power_at_proposal_start_key(proposal_id: u64, identity_key: Seq<char>) -> Seq<char> {
    "governance/proposal/"@ + padded_id(proposal_id) + "/voting_power_at_start/"@ + identity_key
}

pub fn voting_power_at_proposal_start(proposal_id: u64, identity_key: &str) -> (r: String)
    ensures
        r@ == voting_power_at_proposal_start_key(proposal_id, identity_key@),
{
    let mut s = String::from_str("governance/proposal/");
    append_zero_padded(&mut s, proposal_id, PROPOSAL_ID_WIDTH);
    s.append("/voting_power_at_start/");
    s.append(identity_key);
    proof {
        assert(s@ =~= voting_power_at_proposal_start_key(proposal_id, identity_key@));
    }
    s
}

/// The key `governance/proposal/{proposal_id:020}/voting_power_at_start/`.
pub open spec fn all_voting_power_at_proposal_start_key(proposal_id: u64) -> Seq<char> {
    "governance/proposal/"@ + padded_id(proposal_id) + "/voting_power_at_start/"@
}

pub fn all_voting_power_at_proposal_start(proposal_id: u64) -> (r: String)
    ensures
        r@ == all_voting_power_at_proposal_start_key(proposal_id),
{
    let mut s = String::from_str("governance/proposal/");
    append_zero_padded(&mut s, proposal_id, PROPOSAL_ID_WIDTH);
    s.append("/voting_power_at_start/");
    proof {
        assert(s@ =~= all_voting_power_at_proposal_start_key(proposal_id));
    }
    s
}

/// The key `governance/validator_vote/{proposal_id:020}/{identity_key}`.
pub open spec fn validator_vote_key(proposal_id: u64, identity_key: Seq<char>) -> Seq<char> {
    "governance/validator_vote/"@ + padded_id(proposal_id) + "/"@ + identity_key
}

pub fn validator_vote(proposal_id: u64, identity_key: &str) -> (r: String)
    ensures
        r@ == validator_vote_key(proposal_id, identity_key@),
{
    let mut s = String::from_str("governance/validator_vote/");
    append_zero_padded(&mut s, proposal_id, PROPOSAL_ID_WIDTH);
    s.append("/");
    s.append(identity_key);
    proof {
        assert(s@ =~= validator_vote_key(proposal_id, identity_key@));
    }
    s
}

/// The key `governance/validator_vote/{proposal_id:020}/`.
pub open spec fn all_validator_votes_for_proposal_key(proposal_id: u64) -> Seq<char> {
    "governance/validator_vote/"@ + padded_id(proposal_id) + "/"@
}

pub fn all_validator_votes_for_proposal(proposal_id: u64) -> (r: String)
    ensures
        r@ == all_validator_votes_for_proposal_key(proposal_id),
{
    let mut s = String::from_str("governance/validator_vote/");
    append_zero_padded(&mut s, proposal_id, PROPOSAL_ID_WIDTH);
    s.append("/");
    proof {
        assert(s@ =~= all_validator_votes_for_proposal_key(proposal_id));
    }
    s
}

/// The key `governance/tallied_delegator_votes/{proposal_id:020}/{identity_key}`.
pub open spec fn tallied_delegator_votes_key(proposal_id: u64, identity_key: Seq<char>) -> Seq<char> {
    "governance/tallied_delegator_votes/"@ + padded_id(proposal_id) + "/"@ + identity_key
}

pub fn tallied_delegator_votes(proposal_id: u64, identity_key: &str) -> (r: String)
    ensures
        r@ == tallied_delegator_votes_key(proposal_id, identity_key@),
{
    let mut s = String::from_str("governance/tallied_delegator_votes/");
    append_zero_padded(&mut s, proposal_id, PROPOSAL_ID_WIDTH);
    s.append("/");
    s.append(identity_key);
    proof {
        assert(s@ =~= tallied_delegator_votes_key(proposal_id, identity_key@));
    }
    s
}

/// The key `governance/tallied_delegator_votes/{proposal_id:020}/`.
pub open spec fn all_tallied_delegator_votes_for_proposal_key(proposal_id: u64) -> Seq<char> {
    "governance/tallied_delegator_votes/"@ + padded_id(proposal_id) + "/"@
}

pub fn all_tallied_delegator_votes_for_proposal(proposal_id: u64) -> (r: String)
    ensures
        r@ == all_tallied_delegator_votes_for_proposal_key(proposal_id),
{
    let mut s = String::from_str("governance/tallied_delegator_votes/");
    append_zero_padded(&mut s, proposal_id, PROPOSAL_ID_WIDTH);
    s.append("/");
    proof {
        assert(s@ =~= all_tallied_delegator_votes_for_proposal_key(proposal_id));
    }
    s
}

/// The key `governance/untallied_delegator_vote/{proposal_id:020}/{identity_key}/{nullifier}`.
pub open spec fn untallied_delegator_vote_key(proposal_id: u64, identity_key: Seq<char>, nullifier: Seq<char>) -> Seq<char> {
    "governance/untallied_delegator_vote/"@ + padded_id(proposal_id) + "/"@ + identity_key + "/"@ + nullifier
}

pub fn untallied_delegator_vote(proposal_id: u64, identity_key: &str, nullifier: &str) -> (r: String)
    ensures
        r@ == untallied_delegator_vote_key(proposal_id, identity_key@, nullifier@),
{
    let mut s = String::from_str("governance/untallied_delegator_vote/");
    append_zero_padded(&mut s, proposal_id, PROPOSAL_ID_WIDTH);
    s.append("/");
    s.append(identity_key);
    s.append("/");
    s.append(nullifier);
    proof {
        assert(s@ =~= untallied_delegator_vote_key(proposal_id, identity_key@, nullifier@));
    }
    s
}

/// The key `governance/untallied_delegator_vote/{proposal_id:020}/`.
pub open spec fn all_untallied_delegator_votes_for_proposal_key(proposal_id: u64) -> Seq<char> {
    "governance/untallied_delegator_vote/"@ + padded_id(proposal_id) + "/"@
}

pub fn all_untallied_delegator_votes_for_proposal(proposal_id: u64) -> (r: String)
    ensures
        r@ == all_untallied_delegator_votes_for_proposal_key(proposal_id),
{
    let mut s = String::from_str("governance/untallied_delegator_vote/");
    append_zero_padded(&mut s, proposal_id, PROPOSAL_ID_WIDTH);
    s.append("/");
    proof {
        assert(s@ =~= all_untallied_delegator_votes_for_proposal_key(proposal_id));
    }
    s
}

/// The key `governance/deliver_dao_transactions/{block_height}/{proposal_id:020}`.
pub open spec fn deliver_single_dao_transaction_at_height_key(block_height: u64, proposal_id: u64) -> Seq<char> {
    "governance/deliver_dao_transactions/"@ + decimal(block_height as nat) + "/"@ + padded_id(proposal_id)
}

pub fn deliver_single_dao_transaction_at_height(block_height: u64, proposal_id: u64) -> (r: String)
    ensures
        r@ == deliver_single_dao_transaction_at_height_key(block_height, proposal_id),
{
    let mut s = String::from_str("governance/deliver_dao_transactions/");
    append_decimal(&mut s, block_height);
    s.append("/");
    append_zero_padded(&mut s, proposal_id, PROPOSAL_ID_WIDTH);
    proof {
        assert(s@ =~= deliver_single_dao_transaction_at_height_key(block_height, proposal_id));
    }
    s
}

/// The key `governance/deliver_dao_transactions/{block_height}/`.
pub open spec fn deliver_dao_transactions_at_height_key(block_height: u64) -> Seq<char> {
    "governance/deliver_dao_transactions/"@ + decimal(block_height as nat) + "/"@
}

pub fn deliver_dao_transactions_at_height(block_height: u64) -> (r: String)
    ensures
        r@ == deliver_dao_transactions_at_height_key(block_height),
{
    let mut s = String::from_str("governance/deliver_dao_transactions/");
    append_decimal(&mut s, block_height);
    s.append("/");
    proof {
        assert(s@ =~= deliver_dao_transactions_at_height_key(block_height));
    }
    s
}

/// The key `governance/change_chain_params/{block_height}/`.
pub open spec fn change_chain_params_at_height_key(block_height: u64) -> Seq<char> {
    "governance/change_chain_params/"@ + decimal(block_height as nat) + "/"@
}

pub fn change_chain_params_at_height(block_height: u64) -> (r: String)
    ensures
        r@ == change_chain_params_at_height_key(block_height),
{
    let mut s = String::from_str("governance/change_chain_params/");
    append_decimal(&mut s, block_height);
    s.append("/");
    proof {
        assert(s@ =~= change_chain_params_at_height_key(block_height));
    }
    s
}

proof fn lemma_prefix_of_concat(a: Seq<char>, b: Seq<char>)
    ensures
        a.is_prefix_of(a + b),
{
    assert(a =~= (a + b).subrange(0, a.len() as int));
}

/// Every listing key is a prefix of each key that it lists, so that a prefix
/// scan over the listing key reaches all of them.
pub proof fn lemma_listing_keys_are_prefixes(
    proposal_id: u64,
    block_height: u64,
    identity_key: Seq<char>,
    nullifier: Seq<char>,
)
    ensures
        "governance/unfinished_proposals/"@.is_prefix_of(unfinished_proposal_key(proposal_id)),
        all_rate_data_at_proposal_start_key(proposal_id).is_prefix_of(
            rate_data_at_proposal_start_key(proposal_id, identity_key),
        ),
        all_voting_power_at_proposal_start_key(proposal_id).is_prefix_of(
            voting_power_at_proposal_start_key(proposal_id, identity_key),
        ),
        all_validator_votes_for_proposal_key(proposal_id).is_prefix_of(
            validator_vote_key(proposal_id, identity_key),
        ),
        all_tallied_delegator_votes_for_proposal_key(proposal_id).is_prefix_of(
            tallied_delegator_votes_key(proposal_id, identity_key),
        ),
        all_untallied_delegator_votes_for_proposal_key(proposal_id).is_prefix_of(
            untallied_delegator_vote_key(proposal_id, identity_key, nullifier),
        ),
        "governance/untallied_delegator_vote/"@.is_prefix_of(
            untallied_delegator_vote_key(proposal_id, identity_key, nullifier),
        ),
        deliver_dao_transactions_at_height_key(block_height).is_prefix_of(
            deliver_single_dao_transaction_at_height_key(block_height, proposal_id),
        ),
{
    let id = padded_id(proposal_id);
    let h = decimal(block_height as nat);
    lemma_prefix_of_concat("governance/unfinished_proposals/"@, id);
    lemma_prefix_of_concat(all_rate_data_at_proposal_start_key(proposal_id), identity_key);
    lemma_prefix_of_concat(all_voting_power_at_proposal_start_key(proposal_id), identity_key);
    lemma_prefix_of_concat(all_validator_votes_for_proposal_key(proposal_id), identity_key);
    lemma_prefix_of_concat(all_tallied_delegator_votes_for_proposal_key(proposal_id), identity_key);
    let untallied = all_untallied_delegator_votes_for_proposal_key(proposal_id);
    let rest = identity_key + "/"@ + nullifier;
    lemma_prefix_of_concat(untallied, rest);
    assert(untallied + rest =~= untallied_delegator_vote_key(proposal_id, identity_key, nullifier));
    let all = "governance/untallied_delegator_vote/"@;
    lemma_prefix_of_concat(all, id + "/"@ + rest);
    assert(all + (id + "/"@ + rest) =~= untallied_delegator_vote_key(proposal_id, identity_key, nullifier));
    lemma_prefix_of_concat(deliver_dao_transactions_at_height_key(block_height), id);
}

} // verus!
