//! Votes on milestones.
use vstd::prelude::*;

use crate::host::{
    address_list_contains, addresses, reason_count, reason_map_len, reason_map_set, reasons,
    vote_count, vote_map_contains_key, vote_map_entries, vote_map_len, vote_map_set, votes,
    votes_readable,
};
use crate::types::{
    Address, ContractError, Event, Grant, Milestone, MilestoneState, Text, VotingMechanism,
};

verus! {

/// How many votes a call of `cast_vote` casts where the votes are counted
/// quadratically. The credits for them must have been allocated before.
pub const QUADRATIC_VOTES_PER_CALL: u32 = 1;

/// What a vote led to.
#[derive(Clone, Copy, Debug, PartialEq, Eq, Structural)]
pub struct VoteResult {
    pub approved: bool,
    pub quorum_reached: bool,
    pub approval_pct: u32,
}

/// A vote to be handed to the quadratic count.
#[derive(Clone, Copy, Debug, PartialEq, Eq, Structural)]
pub struct QuadraticRequest {
    pub reviewer: Address,
    pub grant_id: u64,
    pub milestone_idx: u32,
    pub votes: u32,
    pub approve: bool,
}

/// What the quadratic count reports once it has taken a vote.
#[derive(Clone, Copy, Debug, PartialEq, Eq, Structural)]
pub struct QuadraticCount {
    /// How many votes the voter has cast.
    pub votes_cast: u32,
    /// The tally of the milestone.
    pub for_votes: u32,
    pub against_votes: u32,
}

/// How a vote is counted.
#[derive(Clone, Copy, Debug)]
pub enum Ballot {
    /// By the voter's reputation, at a time, with a reason of limited length.
    Weighted { reputation: u32, max_reason_len: u32, now: u64 },
    /// By the quadratic count, which has answered.
    Quadratic(Result<QuadraticCount, ContractError>),
}

/// What the contract has to do once a vote was taken.
pub enum Step {
    /// Record a breach of the voter's deadline for the milestone, if it is over.
    CheckSlaBreach { reviewer: Address, grant_id: u64, milestone_idx: u32 },
    /// Mark the voter's deadline for the milestone as met, unless it was breached.
    FulfillSla { reviewer: Address, grant_id: u64, milestone_idx: u32 },
    Publish(Event),
}

/// A vote that was taken.
pub struct CastVote {
    pub result: VoteResult,
    /// Who voted with the outcome, and is rewarded for it. Each of them goes on
    /// with the reputation that `rewarded_reputation` says.
    pub rewarded: Vec<Address>,
    /// What to do next, in this order.
    pub steps: Vec<Step>,
}

/// Whether a weight is strictly more than half of a total.
pub open spec fn has_quorum(weight: int, total: int) -> bool {
    total != 0 && weight * 2 > total
}

/// A part of a total in percent, rounded down.
pub open spec fn percentage(part: int, total: int) -> int {
    if total == 0 {
        0
    } else {
        part * 100 / total
    }
}

/// Whether a weight is strictly more than half of a total.
pub fn quorum_reached(approvals: u32, total_reviewers: u32) -> (result: bool)
    ensures
        result == has_quorum(approvals as int, total_reviewers as int),
{
    if total_reviewers == 0 {
        return false;
    }
    approvals as u64 * 2 > total_reviewers as u64
}

/// A part of a total in percent, rounded down.
fn percent_of(part: u32, total: u64) -> (result: u64)
    ensures
        result == percentage(part as int, total as int),
{
    if total == 0 {
        return 0;
    }
    (part as u64 * 100) / total
}

/// The approvals in percent of the votes cast, rounded down. That percentage must
/// be a `u32`, as it is wherever the approvals are among the votes cast.
pub fn approval_percentage(approvals: u32, total_voters: u32) -> (result: u32)
    requires
        percentage(approvals as int, total_voters as int) <= u32::MAX,
    ensures
        result == percentage(approvals as int, total_voters as int),
{
    percent_of(approvals, total_voters as u64) as u32
}

/// The stage of a milestone once the votes have decided.
pub open spec fn final_state(approved: bool) -> MilestoneState {
    if approved {
        MilestoneState::Approved
    } else {
        MilestoneState::Rejected
    }
}

/// Move a milestone to the stage that the votes decided on.
pub fn finalize_milestone(milestone: &mut Milestone, result: &VoteResult)
    ensures
        *final(milestone) == (Milestone { state: final_state(result.approved), ..*old(milestone) }),
{
    if result.approved {
        milestone.state = MilestoneState::Approved;
    } else {
        milestone.state = MilestoneState::Rejected;
    }
}

/// A tally with a weight added to it, or the largest tally.
pub open spec fn tally(before: int, weight: int) -> int {
    if before + weight > u32::MAX {
        u32::MAX as int
    } else {
        before + weight
    }
}

/// The weight in favour once a vote is counted.
pub open spec fn approvals_after(milestone: Milestone, approve: bool, reputation: u32) -> int {
    if approve {
        tally(milestone.approvals as int, reputation as int)
    } else {
        milestone.approvals as int
    }
}

/// The weight against once a vote is counted.
pub open spec fn rejections_after(milestone: Milestone, approve: bool, reputation: u32) -> int {
    if approve {
        milestone.rejections as int
    } else {
        tally(milestone.rejections as int, reputation as int)
    }
}

/// Why a weighted vote is refused, if it is.
pub open spec fn weighted_refusal(
    grant: Grant,
    milestone: Milestone,
    reviewer: Address,
    reason: Option<Text>,
    max_reason_len: u32,
) -> Option<ContractError> {
    if milestone.state != MilestoneState::Submitted {
        Some(ContractError::MilestoneNotSubmitted)
    } else if !addresses(grant.reviewers).contains(Some(reviewer)) {
        Some(ContractError::Unauthorized)
    } else if votes(milestone.votes).contains_key(reviewer) {
        Some(ContractError::AlreadyVoted)
    } else if reason is Some && reason->0@.len() > max_reason_len {
        Some(ContractError::InvalidInput)
    } else {
        None
    }
}

/// What a weighted vote leads to. The quorum is taken of those who could vote
/// when the milestone was submitted.
pub open spec fn weighted_result(milestone: Milestone, approve: bool, reputation: u32) -> VoteResult {
    let approvals = approvals_after(milestone, approve, reputation);
    let rejections = rejections_after(milestone, approve, reputation);
    let total = milestone.reviewer_count_snapshot as int;
    VoteResult {
        approved: has_quorum(approvals, total),
        quorum_reached: has_quorum(approvals, total) || has_quorum(rejections, total),
        approval_pct: percentage(approvals, approvals + rejections) as u32,
    }
}

/// Whether there is room for a weighted vote, and the votes can be read if they
/// have to be.
pub open spec fn weighted_countable(
    milestone: Milestone,
    approve: bool,
    reason: Option<Text>,
    reputation: u32,
) -> bool {
    &&& vote_count(milestone.votes) < u32::MAX
    &&& reason is Some ==> reason_count(milestone.reasons) < u32::MAX
    &&& weighted_result(milestone, approve, reputation).quorum_reached ==> votes_readable(
        milestone.votes,
    )
}

/// How a weighted vote that is not refused changes the milestone.
pub open spec fn weighted_change(
    before: Milestone,
    after: Milestone,
    reviewer: Address,
    approve: bool,
    reason: Option<Text>,
    reputation: u32,
    now: u64,
) -> bool {
    let result = weighted_result(before, approve, reputation);
    &&& votes(after.votes) == votes(before.votes).insert(reviewer, approve)
    &&& votes_readable(before.votes) ==> votes_readable(after.votes)
    &&& vote_count(after.votes) == vote_count(before.votes) + if votes(
        before.votes,
    ).contains_key(reviewer) {
        0nat
    } else {
        1nat
    }
    &&& match reason {
        Some(text) => {
            &&& reasons(after.reasons) == reasons(before.reasons).insert(reviewer, text@)
            &&& reason_count(after.reasons) == reason_count(before.reasons) + if reasons(
                before.reasons,
            ).contains_key(reviewer) {
                0nat
            } else {
                1nat
            }
        },
        None => after.reasons == before.reasons,
    }
    &&& after.approvals == approvals_after(before, approve, reputation)
    &&& after.rejections == rejections_after(before, approve, reputation)
    &&& after.state == if result.quorum_reached {
        final_state(result.approved)
    } else {
        before.state
    }
    &&& after.status_updated_at == if result.quorum_reached {
        now
    } else {
        before.status_updated_at
    }
    &&& after.idx == before.idx
    &&& after.description == before.description
    &&& after.amount == before.amount
    &&& after.proof_url == before.proof_url
    &&& after.submission_timestamp == before.submission_timestamp
    &&& after.deadline == before.deadline
    &&& after.reviewer_count_snapshot == before.reviewer_count_snapshot
}

/// Whether a list names exactly those who voted for an outcome, each of them
/// once, in the order of the addresses.
pub open spec fn voted_for(
    ballots: Map<Address, bool>,
    outcome: bool,
    voters: Seq<Address>,
) -> bool {
    &&& forall|i: int, j: int| 0 <= i < j < voters.len() ==> voters[i] < voters[j]
    &&& forall|voter: Address| #[trigger]
        voters.contains(voter) <==> ballots.contains_pair(voter, outcome)
}

/// Settle the voter's deadline. The breach comes first: a vote that is cast too
/// late counts as a breach, and then nothing is left to fulfil.
pub open spec fn sla_steps(reviewer: Address, grant_id: u64, milestone_idx: u32) -> Seq<Step> {
    seq![
        Step::CheckSlaBreach { reviewer, grant_id, milestone_idx },
        Step::FulfillSla { reviewer, grant_id, milestone_idx },
    ]
}

/// Tell that a milestone changed its stage.
pub open spec fn status_steps(grant_id: u64, milestone_idx: u32, state: MilestoneState) -> Seq<
    Step,
> {
    seq![Step::Publish(Event::MilestoneStatusChanged { grant_id, milestone_idx, state })]
}

/// Tell that a vote was taken.
pub open spec fn voted_steps(
    grant_id: u64,
    milestone_idx: u32,
    reviewer: Address,
    approve: bool,
    reason: Option<Text>,
) -> Seq<Step> {
    seq![
        Step::Publish(
            Event::MilestoneVoted { grant_id, milestone_idx, reviewer, approve, reason },
        ),
    ]
}

/// Settle the voter's deadline for a milestone: see to a breach first, so that a
/// vote after the deadline is recorded as one and earns nothing.
fn settle_sla(steps: &mut Vec<Step>, reviewer: &Address, grant_id: u64, milestone_idx: u32)
    ensures
        final(steps)@ == old(steps)@ + sla_steps(*reviewer, grant_id, milestone_idx),
{
    let ghost before = steps@;
    steps.push(Step::CheckSlaBreach { reviewer: *reviewer, grant_id, milestone_idx });
    steps.push(Step::FulfillSla { reviewer: *reviewer, grant_id, milestone_idx });
    assert(steps@ =~= before + sla_steps(*reviewer, grant_id, milestone_idx));
}

/// The reputation of a voter who is rewarded.
pub fn rewarded_reputation(reputation: u32) -> (result: u32)
    ensures
        result == tally(reputation as int, 1),
{
    reputation.saturating_add(1)
}

/// Who voted for an outcome.
fn voters_for(ballots: &soroban_sdk::Map<Address, bool>, outcome: bool) -> (voters: Vec<Address>)
    requires
        votes_readable(*ballots),
    ensures
        voted_for(votes(*ballots), outcome, voters@),
{
    let mut voters: Vec<Address> = Vec::new();
    if let Some(entries) = vote_map_entries(ballots) {
        let mut i: usize = 0;
        while i < entries.len()
            invariant
                i <= entries@.len(),
                forall|k: int|
                    #![trigger entries@[k]]
                    0 <= k < entries@.len() ==> votes(*ballots).contains_pair(
                        entries@[k].0,
                        entries@[k].1,
                    ),
                forall|j: int, k: int| 0 <= j < k < entries@.len() ==> entries@[j].0 < entries@[k].0,
                forall|j: int, k: int| 0 <= j < k < voters@.len() ==> voters@[j] < voters@[k],
                forall|k: int|
                    #![trigger voters@[k]]
                    0 <= k < voters@.len() ==> exists|j: int|
                        0 <= j < i && #[trigger] entries@[j] == (voters@[k], outcome),
                forall|j: int|
                    0 <= j < i && (#[trigger] entries@[j]).1 == outcome ==> voters@.contains(
                        entries@[j].0,
                    ),
            decreases entries.len() - i,
        {
            let (voter, vote) = entries[i];
            let ghost before = voters@;
            if vote == outcome {
                voters.push(voter);
                assert(voters@[before.len() as int] == voter);
                assert forall|j: int|
                    0 <= j < i && (#[trigger] entries@[j]).1 == outcome implies voters@.contains(
                    entries@[j].0,
                ) by {
                    let k = before.index_of(entries@[j].0);
                    assert(voters@[k] == entries@[j].0);
                }
                assert forall|k: int|
                    #![trigger voters@[k]]
                    0 <= k < voters@.len() implies exists|j: int|
                    0 <= j < i + 1 && #[trigger] entries@[j] == (voters@[k], outcome) by {
                    if k < before.len() {
                        assert(voters@[k] == before[k]);
                    } else {
                        assert(entries@[i as int] == (voters@[k], outcome));
                    }
                }
            }
            i = i + 1;
        }
        assert forall|voter: Address| #[trigger] voters@.contains(voter) implies votes(
            *ballots,
        ).contains_pair(voter, outcome) by {
            let k = voters@.index_of(voter);
            assert(voters@[k] == voter);
        }
        assert forall|voter: Address| votes(*ballots).contains_pair(voter, outcome) implies
            #[trigger] voters@.contains(voter) by {
            assert(votes(*ballots).contains_key(voter));
            let j = choose|j: int| 0 <= j < entries@.len() && #[trigger] entries@[j].0 == voter;
            assert(votes(*ballots).contains_pair(entries@[j].0, entries@[j].1));
        }
    }
    voters
}

/// What a weighted vote that is not refused leads to.
pub open spec fn weighted_outcome(
    grant: Grant,
    before: Milestone,
    after: Milestone,
    reviewer: Address,
    approve: bool,
    reason: Option<Text>,
    reputation: u32,
    now: u64,
    cast: CastVote,
) -> bool {
    let result = weighted_result(before, approve, reputation);
    let announced = if result.quorum_reached {
        status_steps(grant.id, before.idx, final_state(result.approved))
    } else {
        Seq::empty()
    };
    &&& weighted_change(before, after, reviewer, approve, reason, reputation, now)
    &&& cast.result == result
    &&& if result.quorum_reached {
        voted_for(
            votes(before.votes).insert(reviewer, approve),
            result.approved,
            cast.rewarded@,
        )
    } else {
        cast.rewarded@ == Seq::<Address>::empty()
    }
    &&& cast.steps@ == announced + sla_steps(reviewer, grant.id, before.idx) + voted_steps(
        grant.id,
        before.idx,
        reviewer,
        approve,
        reason,
    )
}

/// Why a weighted vote is refused, if it is: the milestone must be open for votes,
/// the voter must be one of those who may vote on the grant and must not have
/// voted yet, and the reason must not be too long.
fn refuse_weighted_vote(
    grant: &Grant,
    milestone: &Milestone,
    reviewer: &Address,
    reason: &Option<Text>,
    max_reason_len: u32,
) -> (refusal: Option<ContractError>)
    ensures
        refusal == weighted_refusal(*grant, *milestone, *reviewer, *reason, max_reason_len),
{
    if milestone.state != MilestoneState::Submitted {
        return Some(ContractError::MilestoneNotSubmitted);
    }
    if !address_list_contains(&grant.reviewers, *reviewer) {
        return Some(ContractError::Unauthorized);
    }
    if vote_map_contains_key(&milestone.votes, *reviewer) {
        return Some(ContractError::AlreadyVoted);
    }
    if let Some(text) = reason {
        if text.len() > max_reason_len as usize {
            return Some(ContractError::InvalidInput);
        }
    }
    None
}

/// Whether `cast_weighted_vote` can count a vote that is not refused.
fn can_count_weighted_vote(
    milestone: &Milestone,
    approve: bool,
    reason: &Option<Text>,
    reputation: u32,
) -> (result: bool)
    ensures
        result == weighted_countable(*milestone, approve, *reason, reputation),
{
    if vote_map_len(&milestone.votes) == u32::MAX {
        return false;
    }
    if reason.is_some() && reason_map_len(&milestone.reasons) == u32::MAX {
        return false;
    }
    let total: u32 = milestone.reviewer_count_snapshot;
    let mut approvals: u32 = milestone.approvals;
    let mut rejections: u32 = milestone.rejections;
    if approve {
        approvals = approvals.saturating_add(reputation);
    } else {
        rejections = rejections.saturating_add(reputation);
    }
    if quorum_reached(approvals, total) || quorum_reached(rejections, total) {
        return vote_map_entries(&milestone.votes).is_some();
    }
    true
}

/// A part of a total comes to at most a hundred percent.
pub(crate) proof fn lemma_percentage_of_part(part: int, total: int)
    requires
        0 <= part <= total,
    ensures
        0 <= percentage(part, total) <= 100,
{
    if total > 0 {
        assert(0 <= part * 100 / total <= 100) by (nonlinear_arith)
            requires
                0 <= part <= total,
                total > 0,
        ;
    }
}

/// Cast a vote that weighs as much as the voter's reputation.
///
/// A vote that is not refused must be countable: there must be room for it, and if
/// it decides, the votes must be readable.
pub fn cast_weighted_vote(
    grant: &Grant,
    milestone: &mut Milestone,
    reviewer: &Address,
    approve: bool,
    reason: Option<Text>,
    reputation: u32,
    max_reason_len: u32,
    now: u64,
) -> (result: Result<CastVote, ContractError>)
    requires
        weighted_refusal(*grant, *old(milestone), *reviewer, reason, max_reason_len) is None
            ==> weighted_countable(*old(milestone), approve, reason, reputation),
    ensures
        match weighted_refusal(*grant, *old(milestone), *reviewer, reason, max_reason_len) {
            Some(error) => {
                &&& result == Err::<CastVote, ContractError>(error)
                &&& *final(milestone) == *old(milestone)
            },
            None => {
                &&& result matches Ok(cast)
                &&& weighted_outcome(
                    *grant,
                    *old(milestone),
                    *final(milestone),
                    *reviewer,
                    approve,
                    reason,
                    reputation,
                    now,
                    cast,
                )
            },
        },
{
    if let Some(error) = refuse_weighted_vote(grant, milestone, reviewer, &reason, max_reason_len) {
        return Err(error);
    }
    if let Some(text) = &reason {
        reason_map_set(&mut milestone.reasons, *reviewer, text);
    }
    vote_map_set(&mut milestone.votes, *reviewer, approve);
    if approve {
        milestone.approvals = milestone.approvals.saturating_add(reputation);
    } else {
        milestone.rejections = milestone.rejections.saturating_add(reputation);
    }

    let total_weight: u32 = milestone.reviewer_count_snapshot;
    let approval_quorum = quorum_reached(milestone.approvals, total_weight);
    let rejection_quorum = quorum_reached(milestone.rejections, total_weight);
    let vote_finalized = approval_quorum || rejection_quorum;

    let total_votes: u64 = milestone.approvals as u64 + milestone.rejections as u64;
    proof {
        lemma_percentage_of_part(milestone.approvals as int, total_votes as int);
    }
    let result = VoteResult {
        approved: approval_quorum,
        quorum_reached: vote_finalized,
        approval_pct: percent_of(milestone.approvals, total_votes) as u32,
    };

    let mut rewarded: Vec<Address> = Vec::new();
    let mut steps: Vec<Step> = Vec::new();
    if vote_finalized {
        milestone.status_updated_at = now;
        rewarded = voters_for(&milestone.votes, approval_quorum);
        finalize_milestone(milestone, &result);
        steps.push(
            Step::Publish(
                Event::MilestoneStatusChanged {
                    grant_id: grant.id,
                    milestone_idx: milestone.idx,
                    state: milestone.state,
                },
            ),
        );
    }
    settle_sla(&mut steps, reviewer, grant.id, milestone.idx);
    let ghost before = steps@;
    steps.push(
        Step::Publish(
            Event::MilestoneVoted {
                grant_id: grant.id,
                milestone_idx: milestone.idx,
                reviewer: *reviewer,
                approve,
                reason,
            },
        ),
    );
    assert(steps@ =~= before + voted_steps(
        grant.id,
        milestone.idx,
        *reviewer,
        approve,
        reason,
    ));
    Ok(CastVote { result, rewarded, steps })
}

/// How many votes the quadratic count has taken on a milestone.
pub open spec fn participation(count: QuadraticCount) -> int {
    tally(count.for_votes as int, count.against_votes as int)
}

/// Whether the quadratic count decides: more than half of those who could vote
/// when the milestone was submitted took part, and more than half of the votes
/// are in favour.
pub open spec fn quadratic_decided(milestone: Milestone, count: QuadraticCount) -> bool {
    &&& participation(count) > 0
    &&& participation(count) * 2 > milestone.reviewer_count_snapshot
    &&& count.for_votes * 2 > participation(count)
}

/// What a vote that the quadratic count took leads to. Such a count never rejects
/// a milestone.
pub open spec fn quadratic_outcome(
    grant: Grant,
    before: Milestone,
    after: Milestone,
    reviewer: Address,
    approve: bool,
    reason: Option<Text>,
    count: QuadraticCount,
    cast: CastVote,
) -> bool {
    let decided = quadratic_decided(before, count);
    &&& after == (Milestone {
        state: if decided {
            MilestoneState::Approved
        } else {
            before.state
        },
        ..before
    })
    &&& cast.result == (VoteResult {
        approved: approve && decided,
        quorum_reached: decided,
        approval_pct: count.votes_cast,
    })
    &&& cast.rewarded@ == Seq::<Address>::empty()
    &&& cast.steps@ == sla_steps(reviewer, grant.id, before.idx) + voted_steps(
        grant.id,
        before.idx,
        reviewer,
        approve,
        reason,
    )
}

/// The vote that `cast_vote` hands to the quadratic count, where a grant uses it.
pub fn quadratic_request(
    mechanism: VotingMechanism,
    grant: &Grant,
    milestone: &Milestone,
    reviewer: &Address,
    approve: bool,
) -> (request: Option<QuadraticRequest>)
    ensures
        request == match mechanism {
            VotingMechanism::Weighted => None,
            VotingMechanism::Quadratic => Some(
                QuadraticRequest {
                    reviewer: *reviewer,
                    grant_id: grant.id,
                    milestone_idx: milestone.idx,
                    votes: QUADRATIC_VOTES_PER_CALL,
                    approve,
                },
            ),
        },
        request is Some <==> mechanism == VotingMechanism::Quadratic,
        request matches Some(asked) ==> {
            &&& asked.votes == 1
            &&& asked.reviewer == *reviewer
            &&& asked.grant_id == grant.id
            &&& asked.milestone_idx == milestone.idx
            &&& asked.approve == approve
        },
{
    match mechanism {
        VotingMechanism::Weighted => None,
        VotingMechanism::Quadratic => Some(
            QuadraticRequest {
                reviewer: *reviewer,
                grant_id: grant.id,
                milestone_idx: milestone.idx,
                votes: QUADRATIC_VOTES_PER_CALL,
                approve,
            },
        ),
    }
}

/// Evaluate a vote that the quadratic count has taken. It takes both more than
/// half of the possible voters and more than half of the votes to approve the
/// milestone.
pub fn cast_quadratic_vote(
    grant: &Grant,
    milestone: &mut Milestone,
    reviewer: &Address,
    approve: bool,
    reason: Option<Text>,
    count: &QuadraticCount,
) -> (cast: CastVote)
    ensures
        quadratic_outcome(
            *grant,
            *old(milestone),
            *final(milestone),
            *reviewer,
            approve,
            reason,
            *count,
            cast,
        ),
{
    let total_participation: u32 = count.for_votes.saturating_add(count.against_votes);
    let participation_quorum = total_participation > 0 && total_participation as u64 * 2
        > milestone.reviewer_count_snapshot as u64;
    let approval = total_participation > 0 && count.for_votes as u64 * 2
        > total_participation as u64;
    let vote_finalized = participation_quorum && approval;
    let result = VoteResult {
        approved: approve && vote_finalized,
        quorum_reached: vote_finalized,
        approval_pct: count.votes_cast,
    };
    if vote_finalized {
        finalize_milestone(
            milestone,
            &VoteResult {
                approved: approval,
                quorum_reached: true,
                approval_pct: count.for_votes,
            },
        );
    }
    let mut steps: Vec<Step> = Vec::new();
    settle_sla(&mut steps, reviewer, grant.id, milestone.idx);
    steps.push(
        Step::Publish(
            Event::MilestoneVoted {
                grant_id: grant.id,
                milestone_idx: milestone.idx,
                reviewer: *reviewer,
                approve,
                reason,
            },
        ),
    );
    assert(steps@ =~= sla_steps(*reviewer, grant.id, milestone.idx) + voted_steps(
        grant.id,
        milestone.idx,
        *reviewer,
        approve,
        reason,
    ));
    CastVote { result, rewarded: Vec::new(), steps }
}

/// Whether a vote can be counted. A vote that is refused need not be.
pub open spec fn countable(
    ballot: Ballot,
    grant: Grant,
    milestone: Milestone,
    reviewer: Address,
    approve: bool,
    reason: Option<Text>,
) -> bool {
    match ballot {
        Ballot::Weighted { reputation, max_reason_len, now } => weighted_refusal(
            grant,
            milestone,
            reviewer,
            reason,
            max_reason_len,
        ) is None ==> weighted_countable(milestone, approve, reason, reputation),
        Ballot::Quadratic(_) => true,
    }
}

/// What a vote leads to that can be counted or is refused. A vote that is refused
/// leaves the milestone as it was.
pub open spec fn vote_outcome(
    ballot: Ballot,
    grant: Grant,
    before: Milestone,
    after: Milestone,
    reviewer: Address,
    approve: bool,
    reason: Option<Text>,
    result: Result<CastVote, ContractError>,
) -> bool {
    match ballot {
        Ballot::Weighted { reputation, max_reason_len, now } => match weighted_refusal(
            grant,
            before,
            reviewer,
            reason,
            max_reason_len,
        ) {
            Some(error) => {
                &&& result == Err::<CastVote, ContractError>(error)
                &&& after == before
            },
            None => {
                &&& result matches Ok(cast)
                &&& weighted_outcome(
                    grant,
                    before,
                    after,
                    reviewer,
                    approve,
                    reason,
                    reputation,
                    now,
                    cast,
                )
            },
        },
        Ballot::Quadratic(Err(error)) => {
            &&& result == Err::<CastVote, ContractError>(error)
            &&& after == before
        },
        Ballot::Quadratic(Ok(count)) => {
            &&& result matches Ok(cast)
            &&& quadratic_outcome(grant, before, after, reviewer, approve, reason, count, cast)
        },
    }
}

/// Whether a refused vote ends the whole invocation, with the error as its reason,
/// rather than being answered with the error: all refusals of a weighted vote do,
/// but for that of a reason that is too long.
pub open spec fn refusal_aborts(ballot: Ballot, error: ContractError) -> bool {
    ballot is Weighted && error != ContractError::InvalidInput
}

/// Whether the contract ends the whole invocation where `cast_vote` refuses with an
/// error, rather than answering with it.
pub fn aborts(ballot: &Ballot, error: ContractError) -> (result: bool)
    ensures
        result == (*ballot is Weighted && error != ContractError::InvalidInput),
        result == refusal_aborts(*ballot, error),
{
    match ballot {
        Ballot::Weighted { .. } => error != ContractError::InvalidInput,
        Ballot::Quadratic(_) => false,
    }
}

/// Cast a vote for (`approve`) or against a milestone, and move the milestone on
/// where that decides.
///
/// Where the grant counts votes quadratically, the ballot holds the answer to
/// what `quadratic_request` asks for, and a refusal there is passed on.
/// `aborts` says which refusals end the whole invocation.
pub fn cast_vote(
    ballot: &Ballot,
    grant: &Grant,
    milestone: &mut Milestone,
    reviewer: &Address,
    approve: bool,
    reason: Option<Text>,
) -> (result: Result<CastVote, ContractError>)
    requires
        countable(*ballot, *grant, *old(milestone), *reviewer, approve, reason),
    ensures
        vote_outcome(
            *ballot,
            *grant,
            *old(milestone),
            *final(milestone),
            *reviewer,
            approve,
            reason,
            result,
        ),
{
    match ballot {
        Ballot::Quadratic(Err(error)) => Err(*error),
        Ballot::Quadratic(Ok(count)) => Ok(
            cast_quadratic_vote(grant, milestone, reviewer, approve, reason, count),
        ),
        Ballot::Weighted { reputation, max_reason_len, now } => cast_weighted_vote(
            grant,
            milestone,
            reviewer,
            approve,
            reason,
            *reputation,
            *max_reason_len,
            *now,
        ),
    }
}

/// Cast a vote, as `cast_vote` does, or do nothing and return `None` where the vote
/// cannot be counted.
pub fn checked_cast_vote(
    ballot: &Ballot,
    grant: &Grant,
    milestone: &mut Milestone,
    reviewer: &Address,
    approve: bool,
    reason: Option<Text>,
) -> (result: Option<Result<CastVote, ContractError>>)
    ensures
        result is Some <==> countable(
            *ballot,
            *grant,
            *old(milestone),
            *reviewer,
            approve,
            reason,
        ),
        result is None ==> *final(milestone) == *old(milestone),
        result matches Some(outcome) ==> vote_outcome(
            *ballot,
            *grant,
            *old(milestone),
            *final(milestone),
            *reviewer,
            approve,
            reason,
            outcome,
        ),
{
    let can_count = match ballot {
        Ballot::Weighted { reputation, max_reason_len, now } => refuse_weighted_vote(
            grant,
            milestone,
            reviewer,
            &reason,
            *max_reason_len,
        ).is_some() || can_count_weighted_vote(milestone, approve, &reason, *reputation),
        Ballot::Quadratic(_) => true,
    };
    if !can_count {
        return None;
    }
    Some(cast_vote(ballot, grant, milestone, reviewer, approve, reason))
}

/// A milestone once the payment for it is confirmed.
pub open spec fn once_paid(milestone: Option<Milestone>) -> Option<Milestone> {
    match milestone {
        Some(m) => if m.state == MilestoneState::Approved {
            Some(Milestone { state: MilestoneState::Paid, ..m })
        } else {
            milestone
        },
        None => None,
    }
}

/// What is told of the first `n` milestones once the payments for them are
/// confirmed: one event for each that was approved.
pub open spec fn paid_events(grant_id: u64, milestones: Seq<Option<Milestone>>, n: int) -> Seq<
    Event,
>
    decreases n,
{
    if n <= 0 {
        Seq::empty()
    } else {
        let earlier = paid_events(grant_id, milestones, n - 1);
        match milestones[n - 1] {
            Some(m) => if m.state == MilestoneState::Approved {
                earlier.push(
                    Event::MilestonePaid {
                        grant_id,
                        milestone_idx: (n - 1) as u32,
                        amount: m.amount,
                    },
                )
            } else {
                earlier
            },
            None => earlier,
        }
    }
}

/// Mark every approved milestone of a grant as paid, and say what to publish. Call
/// this only once the payments are confirmed: an approved milestone may wait for
/// its payment.
///
/// `milestones` holds what the ledger has at each index of the grant.
pub fn mark_milestones_paid(
    grant_id: u64,
    milestones: &mut Vec<Option<Milestone>>,
) -> (events: Vec<Event>)
    requires
        old(milestones)@.len() <= u32::MAX,
    ensures
        final(milestones)@ == old(milestones)@.map_values(|m: Option<Milestone>| once_paid(m)),
        events@ == paid_events(grant_id, old(milestones)@, old(milestones)@.len() as int),
{
    let ghost before = milestones@;
    let mut events: Vec<Event> = Vec::new();
    let len: usize = milestones.len();
    let mut i: usize = 0;
    while i < len
        invariant
            len == before.len(),
            len == milestones@.len(),
            len <= u32::MAX,
            i <= len,
            forall|k: int|
                0 <= k < i ==> #[trigger] milestones@[k] == once_paid(before[k]),
            forall|k: int| i <= k < len ==> #[trigger] milestones@[k] == before[k],
            events@ == paid_events(grant_id, before, i as int),
        decreases len - i,
    {
        if let Some(milestone) = &mut milestones[i] {
            if milestone.state == MilestoneState::Approved {
                milestone.state = MilestoneState::Paid;
                events.push(
                    Event::MilestonePaid {
                        grant_id,
                        milestone_idx: i as u32,
                        amount: milestone.amount,
                    },
                );
            }
        }
        i = i + 1;
    }
    assert(milestones@ =~= before.map_values(|m: Option<Milestone>| once_paid(m)));
    events
}

} // verus!
