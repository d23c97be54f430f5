//! Escrow-and-settlement engine for a marketplace of unique items, with the
//! staking and governance state machines that sit beside it.
//!
//! Every operation is a pure state transition: it checks the record it owns,
//! returns a typed error without touching anything when a check fails, and on
//! success returns the new record together with the payments and item
//! movements that the host must carry out atomically.

mod address;
mod auction;
mod effects;
mod error;
mod escrow;
mod fees;
mod governance;
mod listing;
mod registry;
mod staking;

pub use address::Address;
pub use auction::{
    after_bids, bid_error, bid_payments, create_auction, create_auction_error,
    lemma_auction_closes_once, lemma_bid_keeps_escrow_balanced, lemma_escrow_tracks_current_bid,
    lemma_low_bid_rejected, lemma_settle_empties_escrow, place_bid, settle_auction, settle_error,
    settle_item, settle_payments, Auction, Settlement,
};
pub use effects::{credited, debited, net_flow, ItemTransfer, Party, Payment, TransferVariant};
pub use error::MarketplaceError;
pub use escrow::{holding_ok, Escrow, ItemAccount};
pub use fees::{
    bps_share, calculate_fee, lemma_split_conserves_price, split_error, split_fits, split_of,
    split_price, FeeSplit, BPS_DENOMINATOR, MAX_FEE_BPS, MAX_ROYALTY_BPS,
};
pub use governance::{
    approval_percentage, byte_len, cancel_proposal, cast_vote, create_proposal, dao_error,
    execute_error, execute_proposal, finalize_error, finalize_proposal, initialize_dao,
    lemma_proposal_closes_once, proposal_error, tally_outcome, vote_error, Dao, GovernanceError,
    Proposal, ProposalStatus, ProposalType, Vote, VoterRecord, MAX_DESCRIPTION_LEN, MAX_TITLE_LEN,
};
pub use listing::{
    buy_error, buy_nft, cancel_error, cancel_listing, lemma_listing_closes_once, list_error,
    list_nft, sale_payments, Listing, Sale,
};
pub use registry::{initialize_marketplace, Marketplace};
pub use staking::{
    accrued, calculate_rewards, claim_error, claim_rewards, initialize_pool, reward_for,
    rewards_ok, stake, stake_error, unstake, unstake_error, update_reward_rate, StakingError,
    StakingPool, UserStake, REWARD_PRECISION, SECONDS_PER_DAY,
};
