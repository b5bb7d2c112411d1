//! Governance: proposals, voting, delegation, and the treasury.
//!
//! A policy layer beside the trading core: proposals accumulate weighted
//! votes over a bounded voting period and may be executed once the period
//! ends, the quorum is met, and the approval threshold is reached.

use vstd::prelude::*;

verus! {

/// Shortest allowed voting period, in seconds.
pub const MIN_VOTING_PERIOD: i64 = 3600;

/// Longest allowed voting period, in seconds.
pub const MAX_VOTING_PERIOD: i64 = 604800;

pub const MIN_QUORUM_PERCENTAGE: u8 = 1;

pub const MAX_QUORUM_PERCENTAGE: u8 = 100;

pub const MIN_APPROVAL_THRESHOLD: u8 = 50;

pub const MAX_APPROVAL_THRESHOLD: u8 = 100;

/// Longest allowed proposal title, in characters.
pub const MAX_TITLE_LEN: usize = 100;

/// Longest allowed proposal description, in characters.
pub const MAX_DESCRIPTION_LEN: usize = 500;

/// How long after creation a proposer may still cancel, in seconds.
pub const CANCEL_WINDOW: i64 = 3600;

#[derive(Clone, Copy, PartialEq, Eq, Structural, Debug)]
pub enum GovernanceError {
    InvalidVotingPeriod,
    InvalidQuorumPercentage,
    InvalidApprovalThreshold,
    ProposalNotActive,
    VotingPeriodEnded,
    VotingPeriodNotEnded,
    QuorumNotMet,
    ProposalNotApproved,
    ProposalAlreadyExecuted,
    AlreadyVoted,
    InsufficientVotingPower,
    Unauthorized,
    TitleTooLong,
    DescriptionTooLong,
    CannotCancelProposal,
    InsufficientTreasuryBalance,
    Overflow,
}

#[derive(Clone, Copy, PartialEq, Eq, Structural, Debug)]
pub enum ProposalType {
    ParameterChange,
    TreasuryAllocation,
    ListingApproval,
    FeeTierAdjustment,
    EmergencyAction,
}

#[derive(Clone, Copy, PartialEq, Eq, Structural, Debug)]
pub enum ProposalStatus {
    Active,
    Succeeded,
    Defeated,
    Executed,
    Cancelled,
    Expired,
}

#[derive(Clone, Copy, PartialEq, Eq, Structural, Debug)]
pub enum VoteChoice {
    For,
    Against,
    Abstain,
}

/// Governance configuration: one per deployment.
#[derive(Clone, Copy, PartialEq, Eq, Structural, Debug)]
pub struct GovernanceConfig {
    pub authority: u64,
    pub governance_token_mint: u64,
    pub treasury: u64,
    pub voting_period: i64,
    pub quorum_percentage: u8,
    pub approval_threshold: u8,
    pub proposal_count: u64,
    pub total_proposals: u64,
}

impl GovernanceConfig {
    /// The configured limits hold.
    pub open spec fn wf(self) -> bool {
        &&& MIN_VOTING_PERIOD <= self.voting_period <= MAX_VOTING_PERIOD
        &&& MIN_QUORUM_PERCENTAGE <= self.quorum_percentage <= MAX_QUORUM_PERCENTAGE
        &&& MIN_APPROVAL_THRESHOLD <= self.approval_threshold <= MAX_APPROVAL_THRESHOLD
    }

    /// Creates the governance configuration; rejects a voting period, a
    /// quorum percentage, or an approval threshold outside its bounds.
    pub fn initialize_governance(
        authority: u64,
        governance_token_mint: u64,
        treasury: u64,
        voting_period: i64,
        quorum_percentage: u8,
        approval_threshold: u8,
    ) -> (r: Result<GovernanceConfig, GovernanceError>)
        ensures
            r == Err::<GovernanceConfig, GovernanceError>(GovernanceError::InvalidVotingPeriod)
                <==> !(MIN_VOTING_PERIOD <= voting_period <= MAX_VOTING_PERIOD),
            r == Err::<GovernanceConfig, GovernanceError>(GovernanceError::InvalidQuorumPercentage)
                <==> MIN_VOTING_PERIOD <= voting_period <= MAX_VOTING_PERIOD && !(
                MIN_QUORUM_PERCENTAGE <= quorum_percentage <= MAX_QUORUM_PERCENTAGE),
            r == Err::<GovernanceConfig, GovernanceError>(
                GovernanceError::InvalidApprovalThreshold,
            ) <==> MIN_VOTING_PERIOD <= voting_period <= MAX_VOTING_PERIOD
                && MIN_QUORUM_PERCENTAGE <= quorum_percentage <= MAX_QUORUM_PERCENTAGE && !(
            MIN_APPROVAL_THRESHOLD <= approval_threshold <= MAX_APPROVAL_THRESHOLD),
            r is Ok <==> MIN_VOTING_PERIOD <= voting_period <= MAX_VOTING_PERIOD
                && MIN_QUORUM_PERCENTAGE <= quorum_percentage <= MAX_QUORUM_PERCENTAGE
                && MIN_APPROVAL_THRESHOLD <= approval_threshold <= MAX_APPROVAL_THRESHOLD,
            r matches Ok(g) ==> g == (GovernanceConfig {
                authority,
                governance_token_mint,
                treasury,
                voting_period,
                quorum_percentage,
                approval_threshold,
                proposal_count: 0,
                total_proposals: 0,
            }) && g.wf(),
    {
        if !(MIN_VOTING_PERIOD <= voting_period && voting_period <= MAX_VOTING_PERIOD) {
            return Err(GovernanceError::InvalidVotingPeriod);
        }
        if !(MIN_QUORUM_PERCENTAGE <= quorum_percentage
            && quorum_percentage <= MAX_QUORUM_PERCENTAGE) {
            return Err(GovernanceError::InvalidQuorumPercentage);
        }
        if !(MIN_APPROVAL_THRESHOLD <= approval_threshold
            && approval_threshold <= MAX_APPROVAL_THRESHOLD) {
            return Err(GovernanceError::InvalidApprovalThreshold);
        }
        Ok(GovernanceConfig {
            authority,
            governance_token_mint,
            treasury,
            voting_period,
            quorum_percentage,
            approval_threshold,
            proposal_count: 0,
            total_proposals: 0,
        })
    }
}

/// One proposal under vote.
#[derive(PartialEq, Eq, Debug)]
pub struct Proposal {
    pub proposal_id: u64,
    pub proposer: u64,
    pub title: String,
    pub description: String,
    pub proposal_type: ProposalType,
    pub status: ProposalStatus,
    pub votes_for: u64,
    pub votes_against: u64,
    pub votes_abstain: u64,
    pub start_time: i64,
    pub end_time: i64,
    pub executed_at: Option<i64>,
}

impl Proposal {
    /// The proposal accepts votes at `current_time`.
    pub open spec fn active_spec(self, current_time: i64) -> bool {
        self.status == ProposalStatus::Active && current_time <= self.end_time
    }

    /// All votes cast on the proposal.
    pub open spec fn votes_cast(self) -> int {
        self.votes_for + self.votes_against + self.votes_abstain
    }

    /// The proposal may be executed: voting has ended, the votes cast
    /// meet the quorum fraction of `total_votes`, and the votes in favor
    /// meet the approval fraction of the votes cast.
    pub open spec fn can_execute_spec(
        self,
        config: GovernanceConfig,
        total_votes: u64,
        current_time: i64,
    ) -> bool {
        &&& self.status == ProposalStatus::Active
        &&& current_time > self.end_time
        &&& self.votes_cast() >= total_votes * config.quorum_percentage / 100
        &&& self.votes_for >= self.votes_cast() * config.approval_threshold / 100
    }

    pub fn is_active(&self, current_time: i64) -> (r: bool)
        ensures
            r == self.active_spec(current_time),
    {
        matches!(self.status, ProposalStatus::Active) && current_time <= self.end_time
    }

    /// Decides [`Proposal::can_execute_spec`].
    pub fn can_execute(
        &self,
        config: &GovernanceConfig,
        total_votes: u64,
        current_time: i64,
    ) -> (r: bool)
        requires
            self.votes_cast() <= u64::MAX,
        ensures
            r == self.can_execute_spec(*config, total_votes, current_time),
    {
        if !matches!(self.status, ProposalStatus::Active) || current_time <= self.end_time {
            return false;
        }
        let total_votes_cast = self.votes_for + self.votes_against + self.votes_abstain;
        proof {
            assert(total_votes as int * config.quorum_percentage as int <= u128::MAX)
                by (nonlinear_arith)
                requires total_votes <= u64::MAX, config.quorum_percentage <= 255;
            assert(total_votes_cast as int * config.approval_threshold as int <= u128::MAX)
                by (nonlinear_arith)
                requires total_votes_cast <= u64::MAX, config.approval_threshold <= 255;
        }
        let quorum_required = (total_votes as u128) * (config.quorum_percentage as u128) / 100;
        if (total_votes_cast as u128) < quorum_required {
            return false;
        }
        let approval_required = (total_votes_cast as u128) * (config.approval_threshold as u128)
            / 100;
        (self.votes_for as u128) >= approval_required
    }

    /// Creates an active proposal under the next proposal id, with a
    /// voting window of the configured length starting at `now`. Rejects
    /// a title over [`MAX_TITLE_LEN`] or a description over
    /// [`MAX_DESCRIPTION_LEN`] characters.
    pub fn create_proposal(
        governance: &mut GovernanceConfig,
        proposer: u64,
        title: String,
        description: String,
        proposal_type: ProposalType,
        now: i64,
    ) -> (r: Result<Proposal, GovernanceError>)
        requires
            old(governance).wf(),
            now + old(governance).voting_period <= i64::MAX,
        ensures
            r == Err::<Proposal, GovernanceError>(GovernanceError::TitleTooLong)
                <==> title@.len() > MAX_TITLE_LEN,
            r == Err::<Proposal, GovernanceError>(GovernanceError::DescriptionTooLong)
                <==> title@.len() <= MAX_TITLE_LEN && description@.len() > MAX_DESCRIPTION_LEN,
            r == Err::<Proposal, GovernanceError>(GovernanceError::Overflow)
                <==> title@.len() <= MAX_TITLE_LEN && description@.len() <= MAX_DESCRIPTION_LEN
                    && (old(governance).total_proposals + 1 > u64::MAX || old(
                governance,
                ).proposal_count + 1 > u64::MAX),
            r is Ok <==> title@.len() <= MAX_TITLE_LEN && description@.len()
                <= MAX_DESCRIPTION_LEN && old(governance).total_proposals + 1 <= u64::MAX && old(
                governance,
            ).proposal_count + 1 <= u64::MAX,
            r is Err ==> *final(governance) == *old(governance),
            r matches Ok(p) ==> {
                &&& p.proposal_id == old(governance).total_proposals
                &&& p.proposer == proposer
                &&& p.title@ == title@
                &&& p.description@ == description@
                &&& p.proposal_type == proposal_type
                &&& p.status == ProposalStatus::Active
                &&& p.votes_for == 0
                &&& p.votes_against == 0
                &&& p.votes_abstain == 0
                &&& p.start_time == now
                &&& p.end_time == now + old(governance).voting_period
                &&& p.executed_at is None
                &&& *final(governance) == (GovernanceConfig {
                    total_proposals: (old(governance).total_proposals + 1) as u64,
                    proposal_count: (old(governance).proposal_count + 1) as u64,
                    ..*old(governance)
                })
            },
    {
        if title.as_str().unicode_len() > MAX_TITLE_LEN {
            return Err(GovernanceError::TitleTooLong);
        }
        if description.as_str().unicode_len() > MAX_DESCRIPTION_LEN {
            return Err(GovernanceError::DescriptionTooLong);
        }
        let new_total = match governance.total_proposals.checked_add(1) {
            Some(n) => n,
            None => {
                return Err(GovernanceError::Overflow);
            }
        };
        let new_count = match governance.proposal_count.checked_add(1) {
            Some(n) => n,
            None => {
                return Err(GovernanceError::Overflow);
            }
        };
        let proposal = Proposal {
            proposal_id: governance.total_proposals,
            proposer,
            title,
            description,
            proposal_type,
            status: ProposalStatus::Active,
            votes_for: 0,
            votes_against: 0,
            votes_abstain: 0,
            start_time: now,
            end_time: now + governance.voting_period,
            executed_at: None,
        };
        governance.total_proposals = new_total;
        governance.proposal_count = new_count;
        Ok(proposal)
    }

    /// Casts a vote with the voter's effective power: for when `support`
    /// holds, against otherwise. Only while the proposal is active; the
    /// matching tally grows by the power and a vote record is returned.
    pub fn cast_vote(
        &mut self,
        voter: u64,
        support: bool,
        voter_weight: &VoterWeight,
        now: i64,
    ) -> (r: Result<VoteRecord, GovernanceError>)
        requires
            voter_weight.voting_power + voter_weight.delegated_power <= u64::MAX,
        ensures
            r == Err::<VoteRecord, GovernanceError>(GovernanceError::VotingPeriodEnded)
                <==> !old(self).active_spec(now),
            old(self).active_spec(now) ==> {
                let power = voter_weight.voting_power + voter_weight.delegated_power;
                r == Err::<VoteRecord, GovernanceError>(GovernanceError::Overflow)
                    <==> (if support {
                        old(self).votes_for + power
                    } else {
                        old(self).votes_against + power
                    }) > u64::MAX
            },
            r is Ok <==> old(self).active_spec(now) && (if support {
                old(self).votes_for + voter_weight.voting_power + voter_weight.delegated_power
            } else {
                old(self).votes_against + voter_weight.voting_power + voter_weight.delegated_power
            }) <= u64::MAX,
            r is Err ==> *final(self) == *old(self),
            r matches Ok(record) ==> {
                let power = voter_weight.voting_power + voter_weight.delegated_power;
                &&& record == (VoteRecord {
                    proposal: old(self).proposal_id,
                    voter,
                    vote_choice: if support {
                        VoteChoice::For
                    } else {
                        VoteChoice::Against
                    },
                    voting_power: power as u64,
                    timestamp: now,
                })
                &&& support ==> *final(self) == (Proposal {
                    votes_for: (old(self).votes_for + power) as u64,
                    ..*old(self)
                })
                &&& !support ==> *final(self) == (Proposal {
                    votes_against: (old(self).votes_against + power) as u64,
                    ..*old(self)
                })
            },
    {
        if !self.is_active(now) {
            return Err(GovernanceError::VotingPeriodEnded);
        }
        let power = voter_weight.effective_voting_power();
        if support {
            match self.votes_for.checked_add(power) {
                Some(n) => {
                    self.votes_for = n;
                }
                None => {
                    return Err(GovernanceError::Overflow);
                }
            }
        } else {
            match self.votes_against.checked_add(power) {
                Some(n) => {
                    self.votes_against = n;
                }
                None => {
                    return Err(GovernanceError::Overflow);
                }
            }
        }
        Ok(VoteRecord {
            proposal: self.proposal_id,
            voter,
            vote_choice: if support {
                VoteChoice::For
            } else {
                VoteChoice::Against
            },
            voting_power: power,
            timestamp: now,
        })
    }

    /// Tallies the proposal once its voting period has ended: when the
    /// votes cast (taken here as the whole voting population) meet the
    /// quorum and approval rules, the proposal succeeds, its execution
    /// time is recorded and the open-proposal count falls by one;
    /// otherwise it is defeated.
    pub fn execute_proposal(
        &mut self,
        governance: &mut GovernanceConfig,
        now: i64,
    ) -> (r: Result<(), GovernanceError>)
        requires
            old(self).votes_cast() <= u64::MAX,
        ensures
            r == Err::<(), GovernanceError>(GovernanceError::VotingPeriodNotEnded)
                <==> now <= old(self).end_time,
            now > old(self).end_time ==> {
                let passing = old(self).can_execute_spec(
                    *old(governance),
                    old(self).votes_cast() as u64,
                    now,
                );
                &&& (r == Err::<(), GovernanceError>(GovernanceError::Overflow)
                    <==> passing && old(governance).proposal_count == 0)
                &&& r is Ok && passing ==> *final(self) == (Proposal {
                    status: ProposalStatus::Succeeded,
                    executed_at: Some(now),
                    ..*old(self)
                }) && *final(governance) == (GovernanceConfig {
                    proposal_count: (old(governance).proposal_count - 1) as u64,
                    ..*old(governance)
                })
                &&& r is Ok && !passing ==> *final(self) == (Proposal {
                    status: ProposalStatus::Defeated,
                    ..*old(self)
                }) && *final(governance) == *old(governance)
            },
            r is Ok <==> now > old(self).end_time && !(old(self).can_execute_spec(
                *old(governance),
                old(self).votes_cast() as u64,
                now,
            ) && old(governance).proposal_count == 0),
            r is Err ==> *final(self) == *old(self) && *final(governance) == *old(governance),
    {
        if now <= self.end_time {
            return Err(GovernanceError::VotingPeriodNotEnded);
        }
        let total_votes = self.votes_for + self.votes_against + self.votes_abstain;
        if self.can_execute(governance, total_votes, now) {
            let new_count = match governance.proposal_count.checked_sub(1) {
                Some(n) => n,
                None => {
                    return Err(GovernanceError::Overflow);
                }
            };
            self.status = ProposalStatus::Succeeded;
            self.executed_at = Some(now);
            governance.proposal_count = new_count;
        } else {
            self.status = ProposalStatus::Defeated;
        }
        Ok(())
    }

    /// Cancels a proposal, only within [`CANCEL_WINDOW`] of its creation.
    pub fn cancel_proposal(&mut self, now: i64) -> (r: Result<(), GovernanceError>)
        requires
            old(self).start_time + CANCEL_WINDOW <= i64::MAX,
        ensures
            r == Err::<(), GovernanceError>(GovernanceError::CannotCancelProposal)
                <==> now >= old(self).start_time + CANCEL_WINDOW,
            r is Ok <==> now < old(self).start_time + CANCEL_WINDOW,
            r is Err ==> *final(self) == *old(self),
            r is Ok ==> *final(self) == (Proposal {
                status: ProposalStatus::Cancelled,
                ..*old(self)
            }),
    {
        if now >= self.start_time + CANCEL_WINDOW {
            return Err(GovernanceError::CannotCancelProposal);
        }
        self.status = ProposalStatus::Cancelled;
        Ok(())
    }
}

/// One cast vote.
#[derive(Clone, Copy, PartialEq, Eq, Structural, Debug)]
pub struct VoteRecord {
    pub proposal: u64,
    pub voter: u64,
    pub vote_choice: VoteChoice,
    pub voting_power: u64,
    pub timestamp: i64,
}

/// A voter's own and delegated power.
#[derive(Clone, Copy, PartialEq, Eq, Structural, Debug)]
pub struct VoterWeight {
    pub owner: u64,
    pub delegate: Option<u64>,
    pub voting_power: u64,
    pub delegated_power: u64,
}

impl VoterWeight {
    /// Own power plus power delegated in.
    pub fn effective_voting_power(&self) -> (r: u64)
        requires
            self.voting_power + self.delegated_power <= u64::MAX,
        ensures
            r == self.voting_power + self.delegated_power,
    {
        self.voting_power + self.delegated_power
    }

    /// Points this voter's power at a delegate; an optional reference,
    /// never a transfer of ownership.
    pub fn delegate_votes(&mut self, delegate: u64)
        ensures
            *final(self) == (VoterWeight { delegate: Some(delegate), ..*old(self) }),
    {
        self.delegate = Some(delegate);
    }
}

/// The governance treasury's running totals; its balance itself lives
/// with the caller, as a plain ledger balance.
#[derive(Clone, Copy, PartialEq, Eq, Structural, Debug)]
pub struct Treasury {
    pub governance: u64,
    pub total_allocated: u64,
    pub total_distributed: u64,
}

impl Treasury {
    /// A fresh treasury record.
    pub fn initialize_treasury(governance: u64) -> (r: Treasury)
        ensures
            r == (Treasury { governance, total_allocated: 0, total_distributed: 0 }),
    {
        Treasury { governance, total_allocated: 0, total_distributed: 0 }
    }

    /// Allocates treasury funds to a recipient: only the governance
    /// authority may allocate, and the transfer plus both totals move as
    /// one unit.
    pub fn allocate_treasury_funds(
        &mut self,
        caller: u64,
        governance: &GovernanceConfig,
        amount: u64,
        treasury_balance: &mut u64,
        recipient_balance: &mut u64,
    ) -> (r: Result<(), GovernanceError>)
        ensures
            r == Err::<(), GovernanceError>(GovernanceError::Unauthorized)
                <==> caller != governance.authority,
            r == Err::<(), GovernanceError>(GovernanceError::InsufficientTreasuryBalance)
                <==> caller == governance.authority && *old(treasury_balance) < amount,
            r == Err::<(), GovernanceError>(GovernanceError::Overflow)
                <==> caller == governance.authority && *old(treasury_balance) >= amount && (*old(
                recipient_balance,
            ) + amount > u64::MAX || old(self).total_allocated + amount > u64::MAX || (old(
                self,
            ).total_allocated + amount <= u64::MAX && old(self).total_distributed + amount
                > u64::MAX)),
            r is Ok <==> caller == governance.authority && *old(treasury_balance) >= amount
                && *old(recipient_balance) + amount <= u64::MAX && old(self).total_allocated
                + amount <= u64::MAX && old(self).total_distributed + amount <= u64::MAX,
            r is Err ==> *final(self) == *old(self) && *final(treasury_balance) == *old(
                treasury_balance,
            ) && *final(recipient_balance) == *old(recipient_balance),
            r is Ok ==> {
                &&& *final(treasury_balance) == *old(treasury_balance) - amount
                &&& *final(recipient_balance) == *old(recipient_balance) + amount
                &&& *final(self) == (Treasury {
                    total_allocated: (old(self).total_allocated + amount) as u64,
                    total_distributed: (old(self).total_distributed + amount) as u64,
                    ..*old(self)
                })
            },
    {
        if caller != governance.authority {
            return Err(GovernanceError::Unauthorized);
        }
        if *treasury_balance < amount {
            return Err(GovernanceError::InsufficientTreasuryBalance);
        }
        if u64::MAX - amount < *recipient_balance {
            return Err(GovernanceError::Overflow);
        }
        let new_allocated = match self.total_allocated.checked_add(amount) {
            Some(n) => n,
            None => {
                return Err(GovernanceError::Overflow);
            }
        };
        let new_distributed = match self.total_distributed.checked_add(amount) {
            Some(n) => n,
            None => {
                return Err(GovernanceError::Overflow);
            }
        };
        *treasury_balance = *treasury_balance - amount;
        *recipient_balance = *recipient_balance + amount;
        self.total_allocated = new_allocated;
        self.total_distributed = new_distributed;
        Ok(())
    }
}

} // verus!
