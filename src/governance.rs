use vstd::prelude::*;
use vstd::utf8::encode_utf8;
use crate::address::Address;

verus! {

/// Longest proposal title, in bytes.
pub const MAX_TITLE_LEN: usize = 100;

/// Longest proposal description, in bytes.
pub const MAX_DESCRIPTION_LEN: usize = 500;

/// Why a governance operation was refused. A refusal changes no record.
#[derive(Clone, Copy, Debug, PartialEq, Eq, Structural)]
pub enum GovernanceError {
    InvalidVotingPeriod,
    InvalidQuorum,
    InvalidThreshold,
    TitleTooLong,
    DescriptionTooLong,
    ProposalNotActive,
    VotingPeriodEnded,
    VotingPeriodNotEnded,
    InvalidVoteWeight,
    ProposalNotPassed,
    AlreadyExecuted,
    /// A sum left the range of its type.
    MathOverflow,
}

#[derive(Clone, Copy, Debug, PartialEq, Eq, Structural)]
pub enum ProposalType {
    ParameterChange,
    Treasury,
    Upgrade,
}

#[derive(Clone, Copy, Debug, PartialEq, Eq, Structural)]
pub enum ProposalStatus {
    Active,
    Passed,
    Rejected,
    Cancelled,
}

#[derive(Clone, Copy, Debug, PartialEq, Eq, Structural)]
pub enum Vote {
    For,
    Against,
}

/// The governing body: how long votes run and what a proposal needs to pass.
#[derive(Clone, Copy, Debug, PartialEq, Eq, Structural)]
pub struct Dao {
    pub authority: Address,
    pub voting_period: i64,
    pub quorum_percentage: u8,
    pub approval_threshold: u8,
    pub proposal_count: u64,
    pub bump: u8,
}

/// A proposal and its running tally.
#[derive(Clone, Debug)]
pub struct Proposal {
    pub dao: Address,
    pub proposer: Address,
    pub title: String,
    pub description: String,
    pub proposal_type: ProposalType,
    pub votes_for: u64,
    pub votes_against: u64,
    pub status: ProposalStatus,
    pub start_time: i64,
    pub end_time: i64,
    pub executed: bool,
    pub bump: u8,
}

/// The record of one vote.
#[derive(Clone, Copy, Debug, PartialEq, Eq, Structural)]
pub struct VoterRecord {
    pub voter: Address,
    pub proposal: Address,
    pub vote: Vote,
    pub weight: u64,
}

/// Length in bytes of the UTF-8 encoding of `s`.
pub open spec fn byte_len(s: Seq<char>) -> nat {
    encode_utf8(s).len()
}

/// The error, if any, with which `initialize_dao` refuses its arguments.
pub open spec fn dao_error(voting_period: i64, quorum_percentage: u8, approval_threshold: u8) -> Option<
    GovernanceError,
> {
    if voting_period <= 0 {
        Some(GovernanceError::InvalidVotingPeriod)
    } else if quorum_percentage > 100 {
        Some(GovernanceError::InvalidQuorum)
    } else if approval_threshold > 100 {
        Some(GovernanceError::InvalidThreshold)
    } else {
        None
    }
}

/// Creates the governing body with no proposals yet. The voting period must
/// be positive and both percentages at most 100.
pub fn initialize_dao(
    authority: Address,
    voting_period: i64,
    quorum_percentage: u8,
    approval_threshold: u8,
    bump: u8,
) -> (r: Result<Dao, GovernanceError>)
    ensures
        match r {
            Ok(d) => dao_error(voting_period, quorum_percentage, approval_threshold) is None && d
                == (Dao {
                authority,
                voting_period,
                quorum_percentage,
                approval_threshold,
                proposal_count: 0,
                bump,
            }),
            Err(e) => dao_error(voting_period, quorum_percentage, approval_threshold) == Some(e),
        },
{
    if voting_period <= 0 {
        return Err(GovernanceError::InvalidVotingPeriod);
    }
    if quorum_percentage > 100 {
        return Err(GovernanceError::InvalidQuorum);
    }
    if approval_threshold > 100 {
        return Err(GovernanceError::InvalidThreshold);
    }
    Ok(Dao { authority, voting_period, quorum_percentage, approval_threshold, proposal_count: 0, bump })
}

/// The error, if any, with which `create_proposal` refuses its arguments.
pub open spec fn proposal_error(dao: Dao, title: Seq<char>, description: Seq<char>, now: i64) -> Option<
    GovernanceError,
> {
    if byte_len(title) > MAX_TITLE_LEN {
        Some(GovernanceError::TitleTooLong)
    } else if byte_len(description) > MAX_DESCRIPTION_LEN {
        Some(GovernanceError::DescriptionTooLong)
    } else if now + dao.voting_period > i64::MAX || now + dao.voting_period < i64::MIN
        || dao.proposal_count + 1 > u64::MAX {
        Some(GovernanceError::MathOverflow)
    } else {
        None
    }
}

/// Opens a proposal at `now` whose vote runs for the body's voting period,
/// and counts it in the body.
pub fn create_proposal(
    dao: &mut Dao,
    dao_key: Address,
    proposer: Address,
    title: String,
    description: String,
    proposal_type: ProposalType,
    now: i64,
    bump: u8,
) -> (r: Result<Proposal, GovernanceError>)
    ensures
        match r {
            Ok(p) => {
                &&& proposal_error(*old(dao), title@, description@, now) is None
                &&& p.dao == dao_key && p.proposer == proposer
                &&& p.title@ == title@ && p.description@ == description@
                &&& p.proposal_type == proposal_type
                &&& p.votes_for == 0 && p.votes_against == 0
                &&& p.status == ProposalStatus::Active
                &&& p.start_time == now
                &&& p.end_time == now + old(dao).voting_period
                &&& !p.executed
                &&& p.bump == bump
                &&& *final(dao) == (Dao {
                    proposal_count: (old(dao).proposal_count + 1) as u64,
                    ..*old(dao)
                })
            },
            Err(e) => proposal_error(*old(dao), title@, description@, now) == Some(e) && *final(dao) == *old(dao),
        },
{
    if title.as_str().as_bytes().len() > MAX_TITLE_LEN {
        return Err(GovernanceError::TitleTooLong);
    }
    if description.as_str().as_bytes().len() > MAX_DESCRIPTION_LEN {
        return Err(GovernanceError::DescriptionTooLong);
    }
    let end_time = match now.checked_add(dao.voting_period) {
        Some(t) => t,
        None => return Err(GovernanceError::MathOverflow),
    };
    let count = match dao.proposal_count.checked_add(1) {
        Some(c) => c,
        None => return Err(GovernanceError::MathOverflow),
    };
    dao.proposal_count = count;
    Ok(Proposal {
        dao: dao_key,
        proposer,
        title,
        description,
        proposal_type,
        votes_for: 0,
        votes_against: 0,
        status: ProposalStatus::Active,
        start_time: now,
        end_time,
        executed: false,
        bump,
    })
}

/// The error, if any, with which `cast_vote` refuses a vote of `weight` at `now`.
pub open spec fn vote_error(p: Proposal, vote: Vote, weight: u64, now: i64) -> Option<GovernanceError> {
    if weight == 0 {
        Some(GovernanceError::InvalidVoteWeight)
    } else if p.status != ProposalStatus::Active {
        Some(GovernanceError::ProposalNotActive)
    } else if now >= p.end_time {
        Some(GovernanceError::VotingPeriodEnded)
    } else if vote == Vote::For && p.votes_for + weight > u64::MAX {
        Some(GovernanceError::MathOverflow)
    } else if vote == Vote::Against && p.votes_against + weight > u64::MAX {
        Some(GovernanceError::MathOverflow)
    } else {
        None
    }
}

/// Casts `voter`'s vote with `weight` before the vote ends, adding the
/// weight to the matching side of the tally.
pub fn cast_vote(
    proposal: &mut Proposal,
    proposal_key: Address,
    voter: Address,
    vote: Vote,
    weight: u64,
    now: i64,
) -> (r: Result<VoterRecord, GovernanceError>)
    ensures
        match r {
            Ok(rec) => {
                &&& vote_error(*old(proposal), vote, weight, now) is None
                &&& rec == (VoterRecord { voter, proposal: proposal_key, vote, weight })
                &&& *final(proposal) == match vote {
                    Vote::For => Proposal {
                        votes_for: (old(proposal).votes_for + weight) as u64,
                        ..*old(proposal)
                    },
                    Vote::Against => Proposal {
                        votes_against: (old(proposal).votes_against + weight) as u64,
                        ..*old(proposal)
                    },
                }
            },
            Err(e) => vote_error(*old(proposal), vote, weight, now) == Some(e) && *final(proposal)
                == *old(proposal),
        },
{
    if weight == 0 {
        return Err(GovernanceError::InvalidVoteWeight);
    }
    if proposal.status != ProposalStatus::Active {
        return Err(GovernanceError::ProposalNotActive);
    }
    if now >= proposal.end_time {
        return Err(GovernanceError::VotingPeriodEnded);
    }
    match vote {
        Vote::For => {
            proposal.votes_for = match proposal.votes_for.checked_add(weight) {
                Some(v) => v,
                None => return Err(GovernanceError::MathOverflow),
            };
        },
        Vote::Against => {
            proposal.votes_against = match proposal.votes_against.checked_add(weight) {
                Some(v) => v,
                None => return Err(GovernanceError::MathOverflow),
            };
        },
    }
    Ok(VoterRecord { voter, proposal: proposal_key, vote, weight })
}

/// Share of the votes cast in favour, in whole percent rounded down.
pub open spec fn approval_percentage(votes_for: int, votes_against: int) -> int {
    votes_for * 100 / (votes_for + votes_against)
}

/// The outcome of a vote: it passes when some weight was cast and the share
/// in favour reaches the body's approval threshold. Any cast weight counts as
/// a quorum; the body's quorum percentage is recorded but not consulted.
pub open spec fn tally_outcome(dao: Dao, p: Proposal) -> ProposalStatus {
    if p.votes_for + p.votes_against > 0 && approval_percentage(
        p.votes_for as int,
        p.votes_against as int,
    ) >= dao.approval_threshold {
        ProposalStatus::Passed
    } else {
        ProposalStatus::Rejected
    }
}

/// The error, if any, with which `finalize_proposal` refuses at `now`.
pub open spec fn finalize_error(p: Proposal, now: i64) -> Option<GovernanceError> {
    if p.status != ProposalStatus::Active {
        Some(GovernanceError::ProposalNotActive)
    } else if now < p.end_time {
        Some(GovernanceError::VotingPeriodNotEnded)
    } else if p.votes_for + p.votes_against > u64::MAX {
        Some(GovernanceError::MathOverflow)
    } else {
        None
    }
}

/// Closes the vote once it has ended and records whether it passed.
pub fn finalize_proposal(dao: &Dao, proposal: &mut Proposal, now: i64) -> (r: Result<
    (),
    GovernanceError,
>)
    ensures
        match r {
            Ok(()) => finalize_error(*old(proposal), now) is None && *final(proposal) == (Proposal {
                status: tally_outcome(*dao, *old(proposal)),
                ..*old(proposal)
            }),
            Err(e) => finalize_error(*old(proposal), now) == Some(e) && *final(proposal) == *old(proposal),
        },
{
    if proposal.status != ProposalStatus::Active {
        return Err(GovernanceError::ProposalNotActive);
    }
    if now < proposal.end_time {
        return Err(GovernanceError::VotingPeriodNotEnded);
    }
    let total = match proposal.votes_for.checked_add(proposal.votes_against) {
        Some(t) => t,
        None => return Err(GovernanceError::MathOverflow),
    };
    if total > 0 {
        let f = proposal.votes_for;
        assert((f as int) * 100 <= u64::MAX as int * 100) by (nonlinear_arith)
            requires
                f <= u64::MAX,
        ;
        assert((f as int) * 100 / (total as int) <= 100) by (nonlinear_arith)
            requires
                f <= total,
                total > 0,
        ;
        let pct: u128 = (f as u128) * 100 / (total as u128);
        if pct >= dao.approval_threshold as u128 {
            proposal.status = ProposalStatus::Passed;
        } else {
            proposal.status = ProposalStatus::Rejected;
        }
    } else {
        proposal.status = ProposalStatus::Rejected;
    }
    Ok(())
}

/// The error, if any, with which `execute_proposal` refuses.
pub open spec fn execute_error(p: Proposal) -> Option<GovernanceError> {
    if p.status != ProposalStatus::Passed {
        Some(GovernanceError::ProposalNotPassed)
    } else if p.executed {
        Some(GovernanceError::AlreadyExecuted)
    } else {
        None
    }
}

/// Marks a passed proposal as executed, once; returns its type, which tells
/// the caller what to carry out.
pub fn execute_proposal(proposal: &mut Proposal) -> (r: Result<ProposalType, GovernanceError>)
    ensures
        match r {
            Ok(t) => execute_error(*old(proposal)) is None && t == old(proposal).proposal_type
                && *final(proposal) == (Proposal { executed: true, ..*old(proposal) }),
            Err(e) => execute_error(*old(proposal)) == Some(e) && *final(proposal) == *old(proposal),
        },
{
    if proposal.status != ProposalStatus::Passed {
        return Err(GovernanceError::ProposalNotPassed);
    }
    if proposal.executed {
        return Err(GovernanceError::AlreadyExecuted);
    }
    proposal.executed = true;
    Ok(proposal.proposal_type)
}

/// Withdraws a proposal while its vote is still open to decision.
pub fn cancel_proposal(proposal: &mut Proposal) -> (r: Result<(), GovernanceError>)
    ensures
        match r {
            Ok(()) => old(proposal).status == ProposalStatus::Active && *final(proposal) == (
            Proposal { status: ProposalStatus::Cancelled, ..*old(proposal) }),
            Err(e) => old(proposal).status != ProposalStatus::Active && e
                == GovernanceError::ProposalNotActive && *final(proposal) == *old(proposal),
        },
{
    if proposal.status != ProposalStatus::Active {
        return Err(GovernanceError::ProposalNotActive);
    }
    proposal.status = ProposalStatus::Cancelled;
    Ok(())
}

/// A proposal leaves the active state at most once: once it is finalized or
/// cancelled, finalizing it, cancelling it or voting on it again fails with
/// `ProposalNotActive` (a vote of zero weight with `InvalidVoteWeight`), and
/// a refused call changes nothing; a passed proposal is executed at most once.
pub proof fn lemma_proposal_closes_once(p: Proposal, dao: Dao, vote: Vote, weight: u64, now: i64)
    ensures
        ({
            let done = Proposal { status: tally_outcome(dao, p), ..p };
            let cancelled = Proposal { status: ProposalStatus::Cancelled, ..p };
            &&& finalize_error(done, now) == Some(GovernanceError::ProposalNotActive)
            &&& finalize_error(cancelled, now) == Some(GovernanceError::ProposalNotActive)
            &&& weight > 0 ==> vote_error(done, vote, weight, now) == Some(
                GovernanceError::ProposalNotActive,
            )
            &&& weight > 0 ==> vote_error(cancelled, vote, weight, now) == Some(
                GovernanceError::ProposalNotActive,
            )
            &&& execute_error(Proposal { executed: true, ..p }) is Some
        }),
{
}

} // verus!
