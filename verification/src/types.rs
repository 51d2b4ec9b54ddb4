//! The records that the rules of a grant work on.
use vstd::prelude::*;

verus! {

/// An account or a contract, by the number under which the caller keeps its
/// ledger address. Equal numbers stand for equal addresses.
pub type Address = u64;

/// A text of the ledger, as bytes.
pub type Text = Vec<u8>;

/// Why a request is refused.
#[derive(Clone, Copy, Debug, PartialEq, Eq, Structural)]
pub enum ContractError {
    Unauthorized,
    InvalidInput,
    GrantNotFound,
    MilestoneNotSubmitted,
    AlreadyVoted,
    AlreadyRegistered,
    /// A refusal that another part of the contract reported, by its number.
    Other(u32),
}

/// The stage of a milestone.
#[derive(Clone, Copy, Debug, PartialEq, Eq, Structural)]
pub enum MilestoneState {
    /// Open for votes.
    Submitted,
    /// Accepted; the payment has not been confirmed yet.
    Approved,
    Rejected,
    /// Accepted, and the payment has been confirmed.
    Paid,
    /// Any other stage, by its number.
    Other(u32),
}

/// How the votes on a grant's milestones are counted.
#[derive(Clone, Copy, Debug, PartialEq, Eq, Structural)]
pub enum VotingMechanism {
    /// A vote weighs as much as the voter's reputation.
    Weighted,
    /// Votes are bought with credits, and counted apart from reputation.
    Quadratic,
}

/// One deliverable of a grant.
pub struct Milestone {
    pub idx: u32,
    pub description: Text,
    pub amount: i128,
    pub state: MilestoneState,
    /// Who voted, and how.
    pub votes: soroban_sdk::Map<Address, bool>,
    /// The weight of the votes in favour.
    pub approvals: u32,
    /// The weight of the votes against.
    pub rejections: u32,
    /// What the voters wrote.
    pub reasons: soroban_sdk::Map<Address, soroban_sdk::String>,
    pub status_updated_at: u64,
    pub proof_url: Option<Text>,
    pub submission_timestamp: u64,
    pub deadline: Option<u64>,
    /// How many could vote when the milestone was submitted.
    pub reviewer_count_snapshot: u32,
}

/// A grant, with the money that it holds in escrow.
pub struct Grant {
    pub id: u64,
    pub owner: Address,
    /// The contract of the token that the escrow is held in.
    pub token: Address,
    /// Who may vote on the milestones.
    pub reviewers: soroban_sdk::Vec<Address>,
    pub escrow_balance: i128,
    /// What each funder paid in. A funder is known by the position here.
    pub funders: soroban_sdk::Vec<i128>,
    /// When the grant was made.
    pub timestamp: u64,
    pub total_milestones: u32,
    pub milestones_paid_out: u32,
}

/// Who gets how much of the escrow when a grant is cancelled.
#[derive(Clone, Copy, Debug, PartialEq, Eq, Structural)]
pub enum RefundPolicyType {
    /// Everything goes back to the funders.
    FullRefund,
    /// The share of the milestones that were not paid out goes back.
    ProportionalToRemaining,
    /// The share of the time that is left goes back.
    TimeWeighted,
    /// Everything but a penalty goes back.
    PenaltyOnCancel,
    /// Any other policy, by its number: nothing above the guaranteed minimum
    /// goes back.
    Other(u32),
}

/// The refund policy of a grant. Rates are in basis points.
#[derive(Clone, Copy, Debug, PartialEq, Eq, Structural)]
pub struct RefundPolicy {
    pub grant_id: u64,
    pub policy_type: RefundPolicyType,
    pub penalty_bps: u32,
    /// For how long after the start everything goes back. Zero for not at all.
    pub grace_period_ledgers: u32,
    /// The share of the escrow that goes back in any case.
    pub min_refund_pct_bps: u32,
}

/// How the escrow of a cancelled grant is divided.
#[derive(Clone, Copy, Debug, PartialEq, Eq, Structural)]
pub struct RefundCalculation {
    pub gross_escrow: i128,
    pub funder_refund: i128,
    pub contributor_compensation: i128,
    pub penalty_amount: i128,
    pub policy_applied: RefundPolicyType,
}

/// What a registry entry stands for.
#[derive(Clone, Copy, Debug, PartialEq, Eq, Structural)]
pub enum RegistryEntryType {
    Contributor,
    /// Any other role, by its number.
    Other(u32),
}

/// One entry of the contributor index.
#[derive(Clone, Copy, Debug, PartialEq, Eq, Structural)]
pub struct RegistryEntry {
    pub address: Address,
    pub registered_at: u64,
    pub is_active: bool,
    pub entry_type: RegistryEntryType,
}

/// A registry entry in the form in which the host keeps it: the address, the
/// time, whether it is active, and the number of the role where it is not that
/// of a contributor.
pub type RegistryRow = (Address, u64, bool, Option<u32>);

/// Something that happened, for the contract to publish.
pub enum Event {
    MilestonePaid { grant_id: u64, milestone_idx: u32, amount: i128 },
    MilestoneStatusChanged { grant_id: u64, milestone_idx: u32, state: MilestoneState },
    MilestoneVoted {
        grant_id: u64,
        milestone_idx: u32,
        reviewer: Address,
        approve: bool,
        reason: Option<Text>,
    },
    ContributorRegistered { address: Address, name: Text },
    ReviewerApproved { reviewer: Address, admin: Address },
    ReviewerRevoked { reviewer: Address, admin: Address },
}

} // verus!
