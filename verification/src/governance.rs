//! Stake-weighted governance: staking, the life of a proposal from creation
//! through voting and the tally to execution, and the stakers' share of the
//! protocol's fees.

use vstd::prelude::*;
use crate::errors::ErrorCode;
use crate::keys::Pubkey;
use crate::math::{lemma_quotient_bounds, mul_div};

verus! {

/// Fixed supply of the governance token, in micro-units.
pub const TOTAL_SUPPLY: u64 = 1_000_000_000_000_000;

/// Staking yield of a fresh governance record, in basis points.
pub const DEFAULT_STAKING_APY_BPS: u16 = 1420;

/// Total votes that a fresh governance record asks of a tally, in
/// micro-units.
pub const DEFAULT_QUORUM_THRESHOLD: u64 = 10_000_000_000_000;

/// Slots for which a proposal of a fresh governance record takes votes.
pub const DEFAULT_VOTING_PERIOD: u64 = 172_800;

/// Slots between the tally and the execution of a passed proposal, in a
/// fresh governance record.
pub const DEFAULT_EXECUTION_DELAY: u64 = 43_200;

/// Stake that a proposer needs, in micro-units.
pub const MIN_PROPOSAL_STAKE: u64 = 1_000_000_000_000;

/// Longest title, in characters.
pub const MAX_TITLE_CHARS: usize = 100;

/// Longest description, in characters.
pub const MAX_DESCRIPTION_CHARS: usize = 500;

/// The governance record.
#[derive(Clone, Copy, Debug, PartialEq, Eq)]
pub struct CadenGovernance {
    pub admin: Pubkey,
    pub caden_mint: Pubkey,
    pub staked_caden_mint: Pubkey,
    pub total_supply: u64,
    /// Tokens staked by all stakers.
    pub staked_supply: u64,
    pub protocol_fee_vault: Pubkey,
    pub buyback_vault: Pubkey,
    /// Fees collected for the stakers so far.
    pub total_fees_collected: u64,
    /// Tokens bought back so far.
    pub total_caden_bought: u64,
    pub staking_apy: u16,
    /// Proposals created so far; the next proposal's id.
    pub proposal_count: u64,
    pub quorum_threshold: u64,
    pub voting_period: u64,
    pub execution_delay: u64,
    pub bump: u8,
}

/// A governance record that keeps a treasury in place of the two vaults.
#[derive(Clone, Copy, Debug, PartialEq, Eq)]
pub struct Governance {
    pub admin: Pubkey,
    pub caden_mint: Pubkey,
    pub treasury: Pubkey,
    pub total_caden_staked: u64,
    pub total_fees_collected: u64,
    pub total_caden_bought: u64,
    pub staking_apy: u16,
    pub proposal_count: u64,
    pub quorum_threshold: u64,
    pub voting_period: u64,
    pub execution_delay: u64,
    pub bump: u8,
}

/// What a proposal asks for.
#[derive(Clone, Copy, Debug, PartialEq, Eq, Structural)]
pub enum ProposalType {
    ChangeSettlementFee,
    ChangeOracleSource,
    ChangePoolFee,
    ChangeStakingAPY,
    AddNewAssetType,
    TreasurySpend,
    UpgradeProgram,
    EmergencyPause,
}

/// Where a proposal stands.
#[derive(Clone, Copy, Debug, PartialEq, Eq, Structural)]
pub enum ProposalStatus {
    Active,
    Passed,
    Executed,
    Defeated,
    Cancelled,
    Expired,
}

/// A vote's choice.
#[derive(Clone, Copy, Debug, PartialEq, Eq, Structural)]
pub enum VoteChoice {
    For,
    Against,
    Abstain,
}

/// A proposal.
#[derive(Clone, Debug, PartialEq, Eq)]
pub struct GovernanceProposal {
    pub proposal_id: u64,
    pub proposer: Pubkey,
    pub proposal_type: ProposalType,
    pub title: String,
    pub description: String,
    pub votes_for: u64,
    pub votes_against: u64,
    /// All votes cast, abstentions included.
    pub total_votes: u64,
    pub status: ProposalStatus,
    pub created_slot: u64,
    pub voting_ends_slot: u64,
    /// Slot from which a passed proposal may be executed, 0 before the tally.
    pub execution_slot: u64,
    pub executed: bool,
    pub cancelled: bool,
    pub bump: u8,
}

/// One voter's vote on one proposal.
#[derive(Clone, Copy, Debug, PartialEq, Eq)]
pub struct Vote {
    pub proposal_id: u64,
    pub voter: Pubkey,
    pub vote_power: u64,
    pub vote_choice: VoteChoice,
    pub voted_slot: u64,
    pub bump: u8,
}

/// One staker's stake.
#[derive(Clone, Copy, Debug, PartialEq, Eq)]
pub struct StakingPosition {
    pub owner: Pubkey,
    pub caden_staked: u64,
    /// Receipt tokens held for the stake.
    pub stk_caden_tokens: u64,
    pub staking_slot: u64,
    pub last_claim_slot: u64,
    pub total_fees_claimed: u64,
    pub bump: u8,
}

/// Sets up the governance record with the default parameters, nothing
/// staked, no fees and no proposals.
pub fn init_governance(
    governance: &mut CadenGovernance,
    admin: Pubkey,
    caden_mint: Pubkey,
    staked_caden_mint: Pubkey,
    protocol_fee_vault: Pubkey,
    buyback_vault: Pubkey,
    bump: u8,
)
    ensures
        *final(governance) == (CadenGovernance {
            admin,
            caden_mint,
            staked_caden_mint,
            total_supply: TOTAL_SUPPLY,
            staked_supply: 0,
            protocol_fee_vault,
            buyback_vault,
            total_fees_collected: 0,
            total_caden_bought: 0,
            staking_apy: DEFAULT_STAKING_APY_BPS,
            proposal_count: 0,
            quorum_threshold: DEFAULT_QUORUM_THRESHOLD,
            voting_period: DEFAULT_VOTING_PERIOD,
            execution_delay: DEFAULT_EXECUTION_DELAY,
            bump,
        }),
{
    governance.admin = admin;
    governance.caden_mint = caden_mint;
    governance.staked_caden_mint = staked_caden_mint;
    governance.total_supply = TOTAL_SUPPLY;
    governance.staked_supply = 0;
    governance.protocol_fee_vault = protocol_fee_vault;
    governance.buyback_vault = buyback_vault;
    governance.total_fees_collected = 0;
    governance.total_caden_bought = 0;
    governance.staking_apy = DEFAULT_STAKING_APY_BPS;
    governance.proposal_count = 0;
    governance.quorum_threshold = DEFAULT_QUORUM_THRESHOLD;
    governance.voting_period = DEFAULT_VOTING_PERIOD;
    governance.execution_delay = DEFAULT_EXECUTION_DELAY;
    governance.bump = bump;
}

impl CadenGovernance {
    /// The record after `amount` was staked.
    pub open spec fn after_stake(&self, amount: u64) -> CadenGovernance {
        CadenGovernance { staked_supply: (self.staked_supply + amount) as u64, ..*self }
    }
}

impl StakingPosition {
    /// The position after `owner` staked `amount` at `slot`.
    pub open spec fn after_stake(&self, owner: Pubkey, amount: u64, slot: u64, bump: u8) -> StakingPosition {
        StakingPosition {
            owner,
            caden_staked: (self.caden_staked + amount) as u64,
            stk_caden_tokens: (self.stk_caden_tokens + amount) as u64,
            staking_slot: slot,
            last_claim_slot: slot,
            total_fees_claimed: self.total_fees_claimed,
            bump,
        }
    }
}

/// Stakes `amount` for `owner`: the ledger takes the tokens in and mints as
/// many receipt tokens; the stake, the receipt tokens and the staked supply
/// grow by the amount, and the position's slots are set to `current_slot`.
///
/// The three sums must fit in 64 bits.
pub fn stake_caden(
    governance: &mut CadenGovernance,
    staking_position: &mut StakingPosition,
    owner: Pubkey,
    amount: u64,
    bump: u8,
    current_slot: u64,
)
    requires
        old(governance).staked_supply + amount <= u64::MAX,
        old(staking_position).caden_staked + amount <= u64::MAX,
        old(staking_position).stk_caden_tokens + amount <= u64::MAX,
    ensures
        *final(governance) == old(governance).after_stake(amount),
        *final(staking_position) == old(staking_position).after_stake(
            owner,
            amount,
            current_slot,
            bump,
        ),
{
    staking_position.owner = owner;
    staking_position.caden_staked = staking_position.caden_staked + amount;
    staking_position.stk_caden_tokens = staking_position.stk_caden_tokens + amount;
    staking_position.staking_slot = current_slot;
    staking_position.last_claim_slot = current_slot;
    staking_position.bump = bump;
    governance.staked_supply = governance.staked_supply + amount;
}

/// A holder's share of the collected fees:
/// `floor(receipt_tokens * total_fees / staked_supply)`.
pub open spec fn fee_share(receipt_tokens: u64, total_fees: u64, staked_supply: u64) -> int {
    (receipt_tokens * total_fees) / (staked_supply as int)
}

/// Fees that the position may claim now: its share less what it has claimed.
pub open spec fn fees_owed(governance: CadenGovernance, position: StakingPosition) -> int {
    fee_share(
        position.stk_caden_tokens,
        governance.total_fees_collected,
        governance.staked_supply,
    ) - position.total_fees_claimed
}

/// Whether a claim can be computed: the staked supply, by which the share
/// divides, is positive, the position has claimed no more than its share, and
/// its share fits in 64 bits.
pub open spec fn claim_is_sound(governance: CadenGovernance, position: StakingPosition) -> bool {
    &&& governance.staked_supply > 0
    &&& 0 <= fees_owed(governance, position)
    &&& fee_share(
        position.stk_caden_tokens,
        governance.total_fees_collected,
        governance.staked_supply,
    ) <= u64::MAX
}

/// Computes `fee_share`, in 128 bits.
pub fn share_of_fees(receipt_tokens: u64, total_fees: u64, staked_supply: u64) -> (share: u128)
    requires
        staked_supply > 0,
    ensures
        share == fee_share(receipt_tokens, total_fees, staked_supply),
{
    mul_div(receipt_tokens, total_fees, staked_supply as u128)
}

/// Tests `claim_is_sound`.
pub fn can_claim(governance: &CadenGovernance, staking_position: &StakingPosition) -> (ok: bool)
    ensures
        ok == claim_is_sound(*governance, *staking_position),
{
    if governance.staked_supply == 0 {
        return false;
    }
    let user_share: u128 = share_of_fees(
        staking_position.stk_caden_tokens,
        governance.total_fees_collected,
        governance.staked_supply,
    );
    user_share <= u64::MAX as u128 && user_share >= staking_position.total_fees_claimed as u128
}

/// Claims the position's share of the collected fees.
///
/// Refused with `NoFeesToClaim`, the position unchanged, if nothing is owed.
/// Otherwise the result is the amount owed, which the ledger pays from the
/// fee vault; it is added to what the position has claimed, and the
/// position's claim slot is set to `current_slot`.
///
/// The claim must be sound (`claim_is_sound`, which `can_claim` tests).
pub fn claim_fees(
    governance: &CadenGovernance,
    staking_position: &mut StakingPosition,
    current_slot: u64,
) -> (result: Result<u64, ErrorCode>)
    requires
        claim_is_sound(*governance, *old(staking_position)),
    ensures
        fees_owed(*governance, *old(staking_position)) == 0 ==> result == Err::<u64, ErrorCode>(
            ErrorCode::NoFeesToClaim,
        ) && *final(staking_position) == *old(staking_position),
        fees_owed(*governance, *old(staking_position)) > 0 ==> result == Ok::<u64, ErrorCode>(
            fees_owed(*governance, *old(staking_position)) as u64,
        ) && *final(staking_position) == (StakingPosition {
            total_fees_claimed: fee_share(
                old(staking_position).stk_caden_tokens,
                governance.total_fees_collected,
                governance.staked_supply,
            ) as u64,
            last_claim_slot: current_slot,
            ..*old(staking_position)
        }),
        fees_owed(*governance, *final(staking_position)) == 0 || result is Err,
{
    let user_share: u128 = share_of_fees(
        staking_position.stk_caden_tokens,
        governance.total_fees_collected,
        governance.staked_supply,
    );
    let fees_to_claim: u64 = user_share as u64 - staking_position.total_fees_claimed;
    if fees_to_claim == 0 {
        return Err(ErrorCode::NoFeesToClaim);
    }
    staking_position.total_fees_claimed = staking_position.total_fees_claimed + fees_to_claim;
    staking_position.last_claim_slot = current_slot;
    Ok(fees_to_claim)
}

/// Staking and then claiming while no fees have been collected claims
/// nothing: against a governance record without collected fees, a position
/// that has claimed nothing is owed nothing after any stake that leaves the
/// staked supply positive, and the claim is sound, so that `claim_fees`
/// refuses it with `NoFeesToClaim` and with nothing else.
pub proof fn lemma_stake_then_claim_owes_nothing(
    governance: CadenGovernance,
    position: StakingPosition,
    owner: Pubkey,
    amount: u64,
    slot: u64,
    bump: u8,
)
    requires
        governance.total_fees_collected == 0,
        position.total_fees_claimed == 0,
        governance.staked_supply + amount <= u64::MAX,
        governance.staked_supply + amount > 0,
        position.caden_staked + amount <= u64::MAX,
        position.stk_caden_tokens + amount <= u64::MAX,
    ensures
        fees_owed(
            governance.after_stake(amount),
            position.after_stake(owner, amount, slot, bump),
        ) == 0,
        claim_is_sound(
            governance.after_stake(amount),
            position.after_stake(owner, amount, slot, bump),
        ),
{
    let g = governance.after_stake(amount);
    let p = position.after_stake(owner, amount, slot, bump);
    assert(p.stk_caden_tokens * g.total_fees_collected == 0) by (nonlinear_arith)
        requires
            g.total_fees_collected == 0,
    ;
    lemma_quotient_bounds(0, g.staked_supply as int);
}

/// Moves `usdc_amount` of fees to the buyback: the ledger transfers it from
/// the fee vault to the buyback vault, and the tokens bought back grow by the
/// same amount.
///
/// The sum must fit in 64 bits.
pub fn buyback_caden(governance: &mut CadenGovernance, usdc_amount: u64)
    requires
        old(governance).total_caden_bought + usdc_amount <= u64::MAX,
    ensures
        *final(governance) == (CadenGovernance {
            total_caden_bought: (old(governance).total_caden_bought + usdc_amount) as u64,
            ..*old(governance)
        }),
{
    governance.total_caden_bought = governance.total_caden_bought + usdc_amount;
}

/// The steps that a proposal's status may take: from active to passed or
/// defeated, from passed to executed, and none other.
pub open spec fn may_follow(before: ProposalStatus, after: ProposalStatus) -> bool {
    ||| before == after
    ||| before == ProposalStatus::Active && (after == ProposalStatus::Passed || after
        == ProposalStatus::Defeated)
    ||| before == ProposalStatus::Passed && after == ProposalStatus::Executed
}

/// Why a proposal cannot be created, if it cannot: the proposer's stake is
/// tested first, then the title's length, then the description's.
pub open spec fn proposal_refusal(
    staked: u64,
    title: Seq<char>,
    description: Seq<char>,
) -> Option<ErrorCode> {
    if staked < MIN_PROPOSAL_STAKE {
        Some(ErrorCode::InsufficientStakeForProposal)
    } else if title.len() > MAX_TITLE_CHARS {
        Some(ErrorCode::TitleTooLong)
    } else if description.len() > MAX_DESCRIPTION_CHARS {
        Some(ErrorCode::DescriptionTooLong)
    } else {
        None
    }
}

/// Whether the proposal can be computed: where nothing refuses it, the end
/// of its voting and the new proposal count fit in 64 bits.
pub open spec fn admits_proposal(
    governance: CadenGovernance,
    staked: u64,
    title: Seq<char>,
    description: Seq<char>,
    current_slot: u64,
) -> bool {
    proposal_refusal(staked, title, description) is None ==> {
        &&& current_slot + governance.voting_period <= u64::MAX
        &&& governance.proposal_count < u64::MAX
    }
}

/// Tests `admits_proposal`.
pub fn can_create_proposal(
    governance: &CadenGovernance,
    staking_position: &StakingPosition,
    title: &String,
    description: &String,
    current_slot: u64,
) -> (ok: bool)
    ensures
        ok == admits_proposal(
            *governance,
            staking_position.caden_staked,
            title@,
            description@,
            current_slot,
        ),
{
    if staking_position.caden_staked < MIN_PROPOSAL_STAKE || title.as_str().unicode_len()
        > MAX_TITLE_CHARS || description.as_str().unicode_len() > MAX_DESCRIPTION_CHARS {
        return true;
    }
    current_slot.checked_add(governance.voting_period).is_some() && governance.proposal_count
        < u64::MAX
}

/// Creates a proposal and opens it for votes.
///
/// Refused with `InsufficientStakeForProposal` unless the proposer has staked
/// `MIN_PROPOSAL_STAKE`, then with `TitleTooLong` if the title has more than
/// 100 characters, then with `DescriptionTooLong` if the description has more
/// than 500; a refusal changes nothing. Otherwise the proposal gets the
/// governance record's proposal count as its id, is active without votes, and
/// takes votes until `voting_period` slots after `current_slot`; the count
/// grows by one.
///
/// The arguments must admit the proposal (`admits_proposal`, which
/// `can_create_proposal` tests).
pub fn create_proposal(
    governance: &mut CadenGovernance,
    proposal: &mut GovernanceProposal,
    staking_position: &StakingPosition,
    proposer: Pubkey,
    proposal_type: ProposalType,
    title: String,
    description: String,
    bump: u8,
    current_slot: u64,
) -> (result: Result<(), ErrorCode>)
    requires
        admits_proposal(
            *old(governance),
            staking_position.caden_staked,
            title@,
            description@,
            current_slot,
        ),
    ensures
        match proposal_refusal(staking_position.caden_staked, title@, description@) {
            Some(e) => {
                &&& result == Err::<(), ErrorCode>(e)
                &&& *final(governance) == *old(governance)
                &&& *final(proposal) == *old(proposal)
            },
            None => {
                &&& result is Ok
                &&& *final(governance) == (CadenGovernance {
                    proposal_count: (old(governance).proposal_count + 1) as u64,
                    ..*old(governance)
                })
                &&& *final(proposal) == (GovernanceProposal {
                    proposal_id: old(governance).proposal_count,
                    proposer,
                    proposal_type,
                    title,
                    description,
                    votes_for: 0,
                    votes_against: 0,
                    total_votes: 0,
                    status: ProposalStatus::Active,
                    created_slot: current_slot,
                    voting_ends_slot: (current_slot + old(governance).voting_period) as u64,
                    execution_slot: 0,
                    executed: false,
                    cancelled: false,
                    bump,
                })
            },
        },
{
    if staking_position.caden_staked < MIN_PROPOSAL_STAKE {
        return Err(ErrorCode::InsufficientStakeForProposal);
    }
    if title.as_str().unicode_len() > MAX_TITLE_CHARS {
        return Err(ErrorCode::TitleTooLong);
    }
    if description.as_str().unicode_len() > MAX_DESCRIPTION_CHARS {
        return Err(ErrorCode::DescriptionTooLong);
    }
    proposal.proposal_id = governance.proposal_count;
    proposal.proposer = proposer;
    proposal.proposal_type = proposal_type;
    proposal.title = title;
    proposal.description = description;
    proposal.votes_for = 0;
    proposal.votes_against = 0;
    proposal.total_votes = 0;
    proposal.status = ProposalStatus::Active;
    proposal.created_slot = current_slot;
    proposal.voting_ends_slot = current_slot + governance.voting_period;
    proposal.execution_slot = 0;
    proposal.executed = false;
    proposal.cancelled = false;
    proposal.bump = bump;
    governance.proposal_count = governance.proposal_count + 1;
    Ok(())
}

/// Why a vote cannot be cast, if it cannot: the proposal's status is tested
/// first, then the end of its voting, then the voter's stake.
pub open spec fn vote_refusal(proposal: GovernanceProposal, staked: u64, slot: u64) -> Option<
    ErrorCode,
> {
    if proposal.status != ProposalStatus::Active {
        Some(ErrorCode::ProposalNotActive)
    } else if slot >= proposal.voting_ends_slot {
        Some(ErrorCode::VotingPeriodEnded)
    } else if staked == 0 {
        Some(ErrorCode::NoVotingPower)
    } else {
        None
    }
}

impl GovernanceProposal {
    /// The proposal after a vote of `power` for `choice`: a vote for or
    /// against joins its tally, and every vote joins the total.
    pub open spec fn with_vote(&self, choice: VoteChoice, power: u64) -> GovernanceProposal {
        GovernanceProposal {
            votes_for: if choice == VoteChoice::For {
                (self.votes_for + power) as u64
            } else {
                self.votes_for
            },
            votes_against: if choice == VoteChoice::Against {
                (self.votes_against + power) as u64
            } else {
                self.votes_against
            },
            total_votes: (self.total_votes + power) as u64,
            ..*self
        }
    }

    /// The tallies have room for a vote of `power` for `choice`.
    pub open spec fn has_room_for(&self, choice: VoteChoice, power: u64) -> bool {
        &&& self.total_votes + power <= u64::MAX
        &&& choice == VoteChoice::For ==> self.votes_for + power <= u64::MAX
        &&& choice == VoteChoice::Against ==> self.votes_against + power <= u64::MAX
    }
}

/// Whether the vote can be computed: where nothing refuses it, the tallies
/// have room for it.
pub open spec fn admits_vote(
    proposal: GovernanceProposal,
    staked: u64,
    choice: VoteChoice,
    current_slot: u64,
) -> bool {
    vote_refusal(proposal, staked, current_slot) is None ==> proposal.has_room_for(choice, staked)
}

/// Tests `admits_vote`.
pub fn can_cast_vote(
    proposal: &GovernanceProposal,
    staking_position: &StakingPosition,
    vote_choice: VoteChoice,
    current_slot: u64,
) -> (ok: bool)
    ensures
        ok == admits_vote(*proposal, staking_position.caden_staked, vote_choice, current_slot),
{
    let power = staking_position.caden_staked;
    if proposal.status != ProposalStatus::Active || current_slot >= proposal.voting_ends_slot
        || power == 0 {
        return true;
    }
    let tally_has_room = match vote_choice {
        VoteChoice::For => proposal.votes_for.checked_add(power).is_some(),
        VoteChoice::Against => proposal.votes_against.checked_add(power).is_some(),
        VoteChoice::Abstain => true,
    };
    tally_has_room && proposal.total_votes.checked_add(power).is_some()
}

/// Casts the voter's vote on an active proposal, with the voter's stake as
/// its power.
///
/// Refused with `ProposalNotActive` unless the proposal is active, then with
/// `VotingPeriodEnded` unless `current_slot` is before the end of its voting,
/// then with `NoVotingPower` if the voter has no stake; a refusal changes
/// nothing. Otherwise the vote is recorded; a vote for or against joins its
/// tally, and every vote, an abstention too, joins the total.
///
/// The proposal must admit the vote (`admits_vote`, which `can_cast_vote`
/// tests).
pub fn cast_vote(
    proposal: &mut GovernanceProposal,
    vote: &mut Vote,
    staking_position: &StakingPosition,
    voter: Pubkey,
    vote_choice: VoteChoice,
    bump: u8,
    current_slot: u64,
) -> (result: Result<(), ErrorCode>)
    requires
        admits_vote(*old(proposal), staking_position.caden_staked, vote_choice, current_slot),
    ensures
        match vote_refusal(*old(proposal), staking_position.caden_staked, current_slot) {
            Some(e) => {
                &&& result == Err::<(), ErrorCode>(e)
                &&& *final(proposal) == *old(proposal)
                &&& *final(vote) == *old(vote)
            },
            None => {
                &&& result is Ok
                &&& *final(proposal) == old(proposal).with_vote(
                    vote_choice,
                    staking_position.caden_staked,
                )
                &&& *final(vote) == (Vote {
                    proposal_id: old(proposal).proposal_id,
                    voter,
                    vote_power: staking_position.caden_staked,
                    vote_choice,
                    voted_slot: current_slot,
                    bump,
                })
            },
        },
        may_follow(old(proposal).status, final(proposal).status),
{
    if proposal.status != ProposalStatus::Active {
        return Err(ErrorCode::ProposalNotActive);
    }
    if current_slot >= proposal.voting_ends_slot {
        return Err(ErrorCode::VotingPeriodEnded);
    }
    let vote_power = staking_position.caden_staked;
    if vote_power == 0 {
        return Err(ErrorCode::NoVotingPower);
    }
    vote.proposal_id = proposal.proposal_id;
    vote.voter = voter;
    vote.vote_power = vote_power;
    vote.vote_choice = vote_choice;
    vote.voted_slot = current_slot;
    vote.bump = bump;
    match vote_choice {
        VoteChoice::For => {
            proposal.votes_for = proposal.votes_for + vote_power;
        },
        VoteChoice::Against => {
            proposal.votes_against = proposal.votes_against + vote_power;
        },
        VoteChoice::Abstain => {},
    }
    proposal.total_votes = proposal.total_votes + vote_power;
    Ok(())
}

/// The outcome of a tally: defeated where the total of the votes is under
/// the quorum; else passed where the votes for outnumber the votes against,
/// and defeated where they do not, a tie included.
pub open spec fn tally_outcome(
    votes_for: u64,
    votes_against: u64,
    total_votes: u64,
    quorum_threshold: u64,
) -> ProposalStatus {
    if total_votes < quorum_threshold {
        ProposalStatus::Defeated
    } else if votes_for > votes_against {
        ProposalStatus::Passed
    } else {
        ProposalStatus::Defeated
    }
}

/// Under the quorum a proposal is defeated however the votes are split; at
/// the quorum or over it, it passes exactly where the votes for outnumber the
/// votes against.
pub proof fn lemma_quorum_decides(
    votes_for: u64,
    votes_against: u64,
    total_votes: u64,
    quorum_threshold: u64,
)
    ensures
        total_votes < quorum_threshold ==> tally_outcome(
            votes_for,
            votes_against,
            total_votes,
            quorum_threshold,
        ) == ProposalStatus::Defeated,
        tally_outcome(votes_for, votes_against, total_votes, quorum_threshold)
            == ProposalStatus::Passed <==> total_votes >= quorum_threshold && votes_for
            > votes_against,
        tally_outcome(votes_for, votes_against, total_votes, quorum_threshold)
            == ProposalStatus::Passed || tally_outcome(
            votes_for,
            votes_against,
            total_votes,
            quorum_threshold,
        ) == ProposalStatus::Defeated,
{
}

/// Why a proposal cannot be tallied, if it cannot: the end of its voting is
/// tested first, then its status.
pub open spec fn tally_refusal(proposal: GovernanceProposal, slot: u64) -> Option<ErrorCode> {
    if slot < proposal.voting_ends_slot {
        Some(ErrorCode::VotingPeriodNotEnded)
    } else if proposal.status != ProposalStatus::Active {
        Some(ErrorCode::ProposalNotActive)
    } else {
        None
    }
}

impl GovernanceProposal {
    /// The outcome of this proposal's tally against a quorum.
    pub open spec fn outcome(&self, quorum_threshold: u64) -> ProposalStatus {
        tally_outcome(self.votes_for, self.votes_against, self.total_votes, quorum_threshold)
    }
}

/// Whether the tally can be computed: where nothing refuses it and the
/// proposal passes, the slot from which it may be executed fits in 64 bits.
pub open spec fn admits_tally(
    proposal: GovernanceProposal,
    governance: CadenGovernance,
    current_slot: u64,
) -> bool {
    tally_refusal(proposal, current_slot) is None && proposal.outcome(governance.quorum_threshold)
        == ProposalStatus::Passed ==> current_slot + governance.execution_delay <= u64::MAX
}

/// Tests `admits_tally`.
pub fn can_finalize(
    proposal: &GovernanceProposal,
    governance: &CadenGovernance,
    current_slot: u64,
) -> (ok: bool)
    ensures
        ok == admits_tally(*proposal, *governance, current_slot),
{
    if current_slot < proposal.voting_ends_slot || proposal.status != ProposalStatus::Active {
        return true;
    }
    if proposal.total_votes < governance.quorum_threshold || proposal.votes_for
        <= proposal.votes_against {
        return true;
    }
    current_slot.checked_add(governance.execution_delay).is_some()
}

/// Tallies a proposal once its voting has ended.
///
/// Refused with `VotingPeriodNotEnded` while `current_slot` is before the end
/// of its voting, and then with `ProposalNotActive` unless it is active; a
/// refusal changes nothing. Otherwise the proposal's status becomes the
/// outcome of the tally against the governance record's quorum, and a passed
/// proposal may be executed from `execution_delay` slots after
/// `current_slot`. The result is the outcome.
///
/// The proposal must admit the tally (`admits_tally`, which `can_finalize`
/// tests).
pub fn finalize_proposal(
    proposal: &mut GovernanceProposal,
    governance: &CadenGovernance,
    current_slot: u64,
) -> (result: Result<ProposalStatus, ErrorCode>)
    requires
        admits_tally(*old(proposal), *governance, current_slot),
    ensures
        match tally_refusal(*old(proposal), current_slot) {
            Some(e) => result == Err::<ProposalStatus, ErrorCode>(e) && *final(proposal) == *old(
                proposal,
            ),
            None => {
                &&& result == Ok::<ProposalStatus, ErrorCode>(
                    old(proposal).outcome(governance.quorum_threshold),
                )
                &&& *final(proposal) == (GovernanceProposal {
                    status: old(proposal).outcome(governance.quorum_threshold),
                    execution_slot: if old(proposal).outcome(governance.quorum_threshold)
                        == ProposalStatus::Passed {
                        (current_slot + governance.execution_delay) as u64
                    } else {
                        old(proposal).execution_slot
                    },
                    ..*old(proposal)
                })
            },
        },
        may_follow(old(proposal).status, final(proposal).status),
{
    if current_slot < proposal.voting_ends_slot {
        return Err(ErrorCode::VotingPeriodNotEnded);
    }
    if proposal.status != ProposalStatus::Active {
        return Err(ErrorCode::ProposalNotActive);
    }
    if proposal.total_votes < governance.quorum_threshold {
        proposal.status = ProposalStatus::Defeated;
        return Ok(ProposalStatus::Defeated);
    }
    if proposal.votes_for > proposal.votes_against {
        proposal.status = ProposalStatus::Passed;
        proposal.execution_slot = current_slot + governance.execution_delay;
        Ok(ProposalStatus::Passed)
    } else {
        proposal.status = ProposalStatus::Defeated;
        Ok(ProposalStatus::Defeated)
    }
}

/// Why a proposal cannot be executed, if it cannot: its status is tested
/// first, then whether it has been executed, then the execution delay.
pub open spec fn execution_refusal(proposal: GovernanceProposal, slot: u64) -> Option<ErrorCode> {
    if proposal.status != ProposalStatus::Passed {
        Some(ErrorCode::ProposalNotPassed)
    } else if proposal.executed {
        Some(ErrorCode::ProposalAlreadyExecuted)
    } else if slot < proposal.execution_slot {
        Some(ErrorCode::ExecutionDelayNotMet)
    } else {
        None
    }
}

/// Marks a passed proposal executed once its execution delay has passed.
///
/// Refused with `ProposalNotPassed` unless the proposal has passed, then with
/// `ProposalAlreadyExecuted` if it has been executed, then with
/// `ExecutionDelayNotMet` while `current_slot` is before its execution slot;
/// a refusal changes nothing. Otherwise the proposal is executed, and the
/// result is its kind, for the caller to make the change that it asks for.
pub fn execute_proposal(proposal: &mut GovernanceProposal, current_slot: u64) -> (result: Result<
    ProposalType,
    ErrorCode,
>)
    ensures
        match execution_refusal(*old(proposal), current_slot) {
            Some(e) => result == Err::<ProposalType, ErrorCode>(e) && *final(proposal) == *old(
                proposal,
            ),
            None => result == Ok::<ProposalType, ErrorCode>(old(proposal).proposal_type)
                && *final(proposal) == (GovernanceProposal {
                executed: true,
                status: ProposalStatus::Executed,
                ..*old(proposal)
            }),
        },
        may_follow(old(proposal).status, final(proposal).status),
        result is Ok ==> execution_refusal(*final(proposal), current_slot) == Some(
            ErrorCode::ProposalNotPassed,
        ),
{
    if proposal.status != ProposalStatus::Passed {
        return Err(ErrorCode::ProposalNotPassed);
    }
    if proposal.executed {
        return Err(ErrorCode::ProposalAlreadyExecuted);
    }
    if current_slot < proposal.execution_slot {
        return Err(ErrorCode::ExecutionDelayNotMet);
    }
    proposal.executed = true;
    proposal.status = ProposalStatus::Executed;
    Ok(proposal.proposal_type)
}

} // verus!
