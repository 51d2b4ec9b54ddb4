//! What holds of every vote, and of every payment that is confirmed.
use vstd::prelude::*;

use crate::governance::{
    countable, final_state, has_quorum, lemma_percentage_of_part, once_paid, paid_events,
    percentage, quadratic_decided, quadratic_outcome, refusal_aborts, tally, vote_outcome,
    weighted_change, weighted_outcome, weighted_refusal, weighted_result, Ballot, CastVote,
    QuadraticCount, Step,
};
use crate::host::{addresses, reason_count, reasons, vote_count, votes, votes_readable};
use crate::types::{
    Address, ContractError, Event, Grant, Milestone, MilestoneState, Text,
};

verus! {

/// Weights that together do not exceed the total cannot both have a quorum.
pub proof fn law_one_quorum_at_most(approvals: u32, rejections: u32, total: u32)
    requires
        approvals + rejections <= total,
    ensures
        !(has_quorum(approvals as int, total as int) && has_quorum(
            rejections as int,
            total as int,
        )),
{
}

/// More weight never loses a quorum, and half of the total is not enough for one.
pub proof fn law_quorum_is_a_majority(less: u32, more: u32, total: u32)
    requires
        less <= more,
    ensures
        has_quorum(less as int, total as int) ==> has_quorum(more as int, total as int),
        less * 2 == total ==> !has_quorum(less as int, total as int),
        0 < total ==> has_quorum(total as int, total as int),
        !has_quorum(less as int, 0),
{
}

/// A part of the votes comes to between nothing and a hundred percent, and to a
/// hundred exactly where it is all of them.
pub proof fn law_percentage_bounds(part: u32, total: u32)
    requires
        part <= total,
    ensures
        0 <= percentage(part as int, total as int) <= 100,
        percentage(part as int, total as int) == 100 <==> 0 < part == total,
{
    let p = part as int;
    let t = total as int;
    if t > 0 {
        lemma_percentage_of_part(p, t);
        if p == t {
            assert(p * 100 / t == 100) by (nonlinear_arith)
                requires
                    p == t,
                    t > 0,
            ;
        } else {
            assert(p * 100 / t < 100) by (nonlinear_arith)
                requires
                    0 <= p < t,
            ;
        }
    }
}

/// Who has voted on a milestone cannot vote on it again, whatever the second vote
/// says.
pub proof fn law_no_second_vote(
    grant: Grant,
    before: Milestone,
    after: Milestone,
    reviewer: Address,
    approve: bool,
    reason: Option<Text>,
    reputation: u32,
    max_reason_len: u32,
    now: u64,
    second_reason: Option<Text>,
    second_max_reason_len: u32,
)
    requires
        weighted_refusal(grant, before, reviewer, reason, max_reason_len) is None,
        weighted_change(before, after, reviewer, approve, reason, reputation, now),
    ensures
        weighted_refusal(grant, after, reviewer, second_reason, second_max_reason_len) == Some(
            if weighted_result(before, approve, reputation).quorum_reached {
                ContractError::MilestoneNotSubmitted
            } else {
                ContractError::AlreadyVoted
            },
        ),
{
}

/// A weighted vote ends the invocation exactly where the milestone is not open for
/// votes, the voter may not vote on the grant, or has voted already. A refusal of a
/// quadratic vote never does.
pub proof fn law_which_refusals_abort(
    ballot: Ballot,
    grant: Grant,
    before: Milestone,
    after: Milestone,
    reviewer: Address,
    approve: bool,
    reason: Option<Text>,
    result: Result<CastVote, ContractError>,
)
    requires
        vote_outcome(ballot, grant, before, after, reviewer, approve, reason, result),
    ensures
        ballot is Weighted ==> ((result matches Err(error) && refusal_aborts(ballot, error)) <==> (
        before.state != MilestoneState::Submitted || !addresses(grant.reviewers).contains(
            Some(reviewer),
        ) || votes(before.votes).contains_key(reviewer))),
        ballot is Quadratic ==> (result matches Err(error) ==> !refusal_aborts(ballot, error)),
{
}

/// Once the votes have decided, nobody can vote on the milestone any more.
pub proof fn law_decision_is_final(
    grant: Grant,
    before: Milestone,
    after: Milestone,
    reviewer: Address,
    approve: bool,
    reason: Option<Text>,
    reputation: u32,
    now: u64,
    other: Address,
    other_reason: Option<Text>,
    max_reason_len: u32,
)
    requires
        weighted_change(before, after, reviewer, approve, reason, reputation, now),
        weighted_result(before, approve, reputation).quorum_reached,
    ensures
        weighted_refusal(grant, after, other, other_reason, max_reason_len) == Some(
            ContractError::MilestoneNotSubmitted,
        ),
{
}

/// A weighted vote moves one tally only, and only up. It leaves the votes of all
/// others as they were, and opens, approves or rejects: it never marks as paid.
pub proof fn law_vote_moves_one_tally(
    grant: Grant,
    before: Milestone,
    after: Milestone,
    reviewer: Address,
    approve: bool,
    reason: Option<Text>,
    reputation: u32,
    max_reason_len: u32,
    now: u64,
)
    requires
        weighted_refusal(grant, before, reviewer, reason, max_reason_len) is None,
        weighted_change(before, after, reviewer, approve, reason, reputation, now),
    ensures
        before.approvals <= after.approvals,
        before.rejections <= after.rejections,
        approve ==> after.rejections == before.rejections,
        !approve ==> after.approvals == before.approvals,
        votes(after.votes).remove(reviewer) == votes(before.votes),
        after.state == MilestoneState::Submitted || after.state == MilestoneState::Approved
            || after.state == MilestoneState::Rejected,
{
    assert(votes(after.votes).remove(reviewer) =~= votes(before.votes));
}

/// Who may vote by now makes no difference to what a vote leads to: the quorum is
/// taken of those who could vote when the milestone was submitted.
pub proof fn law_roster_does_not_move_quorum(
    grant: Grant,
    other_grant: Grant,
    before: Milestone,
    after: Milestone,
    other_after: Milestone,
    reviewer: Address,
    approve: bool,
    reason: Option<Text>,
    reputation: u32,
    now: u64,
    cast: CastVote,
    other_cast: CastVote,
)
    requires
        weighted_outcome(
            grant,
            before,
            after,
            reviewer,
            approve,
            reason,
            reputation,
            now,
            cast,
        ),
        weighted_outcome(
            other_grant,
            before,
            other_after,
            reviewer,
            approve,
            reason,
            reputation,
            now,
            other_cast,
        ),
    ensures
        cast.result == other_cast.result,
        after.state == other_after.state,
        after.approvals == other_after.approvals,
        after.rejections == other_after.rejections,
{
}

/// The vote that decides is rewarded exactly where it is on the winning side.
pub proof fn law_deciding_vote_reward(
    grant: Grant,
    before: Milestone,
    after: Milestone,
    reviewer: Address,
    approve: bool,
    reason: Option<Text>,
    reputation: u32,
    now: u64,
    cast: CastVote,
)
    requires
        weighted_outcome(
            grant,
            before,
            after,
            reviewer,
            approve,
            reason,
            reputation,
            now,
            cast,
        ),
    ensures
        cast.rewarded@.contains(reviewer) <==> cast.result.quorum_reached && approve
            == cast.result.approved,
{
}

/// A quadratic count approves a milestone or leaves it alone. A vote against never
/// counts as approved. As long as the two tallies together are a `u32`, the count
/// approves only with a majority of the votes.
pub proof fn law_quadratic_count_never_rejects(
    grant: Grant,
    before: Milestone,
    after: Milestone,
    reviewer: Address,
    approve: bool,
    reason: Option<Text>,
    count: QuadraticCount,
    cast: CastVote,
)
    requires
        quadratic_outcome(grant, before, after, reviewer, approve, reason, count, cast),
    ensures
        after.state == MilestoneState::Approved || after == before,
        cast.result.approved ==> approve && after.state == MilestoneState::Approved,
        quadratic_decided(before, count) && count.for_votes + count.against_votes <= u32::MAX
            ==> count.for_votes > count.against_votes,
{
}

/// What the first `n` milestones have earned: the amounts of those marked as paid.
pub open spec fn earned(milestones: Seq<Option<Milestone>>, n: int) -> int
    decreases n,
{
    if n <= 0 {
        0
    } else {
        earned(milestones, n - 1) + match milestones[n - 1] {
            Some(m) => if m.state == MilestoneState::Paid {
                m.amount as int
            } else {
                0
            },
            None => 0,
        }
    }
}

/// What the payments that are told of come to.
pub open spec fn told(events: Seq<Event>) -> int
    decreases events.len(),
{
    if events.len() == 0 {
        0
    } else {
        told(events.drop_last()) + match events.last() {
            Event::MilestonePaid { grant_id, milestone_idx, amount } => amount as int,
            _ => 0,
        }
    }
}

/// The milestones of a grant once the payments are confirmed.
pub open spec fn all_once_paid(milestones: Seq<Option<Milestone>>) -> Seq<Option<Milestone>> {
    milestones.map_values(|m: Option<Milestone>| once_paid(m))
}

/// After the payments are confirmed no milestone waits for one, and each of those
/// that did is paid. All others, and all but the stage of these, stay as they
/// were.
pub proof fn law_no_payment_is_left_out(milestones: Seq<Option<Milestone>>, i: int)
    requires
        0 <= i < milestones.len(),
    ensures
        all_once_paid(milestones)[i] is Some <==> milestones[i] is Some,
        milestones[i] matches Some(m) ==> {
            &&& all_once_paid(milestones)[i]->0 == (Milestone {
                state: all_once_paid(milestones)[i]->0.state,
                ..m
            })
            &&& all_once_paid(milestones)[i]->0.state == if m.state == MilestoneState::Approved {
                MilestoneState::Paid
            } else {
                m.state
            }
        },
{
}

/// Confirming the payments a second time changes nothing and tells nothing.
pub proof fn law_payment_is_confirmed_once(
    grant_id: u64,
    milestones: Seq<Option<Milestone>>,
    n: int,
)
    requires
        0 <= n <= milestones.len(),
    ensures
        all_once_paid(all_once_paid(milestones)) == all_once_paid(milestones),
        paid_events(grant_id, all_once_paid(milestones), n) == Seq::<Event>::empty(),
    decreases n,
{
    assert(all_once_paid(all_once_paid(milestones)) =~= all_once_paid(milestones));
    if n > 0 {
        law_payment_is_confirmed_once(grant_id, milestones, n - 1);
    }
}

/// What the milestones have earned grows by exactly what is told to be paid.
pub proof fn law_earnings_are_told(grant_id: u64, milestones: Seq<Option<Milestone>>, n: int)
    requires
        0 <= n <= milestones.len(),
    ensures
        earned(all_once_paid(milestones), n) == earned(milestones, n) + told(
            paid_events(grant_id, milestones, n),
        ),
    decreases n,
{
    if n > 0 {
        law_earnings_are_told(grant_id, milestones, n - 1);
        let earlier = paid_events(grant_id, milestones, n - 1);
        let all = paid_events(grant_id, milestones, n);
        if all.len() > earlier.len() {
            assert(all.drop_last() =~= earlier);
        }
    }
}

/// A quorum is a weight that exceeds the rest of the total.
pub proof fn law_quorum_exceeds_the_rest(weight: u32, total: u32)
    ensures
        has_quorum(weight as int, total as int) <==> 0 < total && weight > total - weight,
{
}

/// A percentage is the exact one, rounded down. Of nothing it is zero.
pub proof fn law_percentage_rounds_down(part: u32, total: u32)
    ensures
        total > 0 ==> percentage(part as int, total as int) * total <= part * 100 < (percentage(
            part as int,
            total as int,
        ) + 1) * total,
        total == 0 ==> percentage(part as int, total as int) == 0,
{
    lemma_percentage_rounds_down(part as int, total as int);
}

/// The percentage of a total is rounded down.
proof fn lemma_percentage_rounds_down(part: int, total: int)
    requires
        part >= 0,
        total >= 0,
    ensures
        total > 0 ==> percentage(part, total) * total <= part * 100 < (percentage(part, total) + 1)
            * total,
{
    let x = part * 100;
    if total > 0 {
        assert((x / total) * total <= x < (x / total + 1) * total) by (nonlinear_arith)
            requires
                total > 0,
        ;
    }
}

/// A decision in favour approves a milestone, any other one rejects it.
pub proof fn law_final_state(approved: bool)
    ensures
        final_state(approved) == MilestoneState::Approved <==> approved,
        final_state(approved) == MilestoneState::Rejected <==> !approved,
{
}

/// A reward is one point of reputation. There is no point beyond the largest
/// reputation.
pub proof fn law_reward_is_one_point(reputation: u32)
    ensures
        reputation < u32::MAX ==> tally(reputation as int, 1) - reputation == 1,
        reputation == u32::MAX ==> tally(reputation as int, 1) == reputation,
{
}

/// A weighted vote is taken exactly where the milestone is open for votes, the voter
/// may vote on the grant and has not voted yet, and the reason, if there is one, is
/// not too long. The first of these that fails is the error, and a vote that is
/// refused leaves the milestone as it was.
pub proof fn law_weighted_vote_is_taken(
    grant: Grant,
    before: Milestone,
    after: Milestone,
    reviewer: Address,
    approve: bool,
    reason: Option<Text>,
    reputation: u32,
    max_reason_len: u32,
    now: u64,
    result: Result<CastVote, ContractError>,
)
    requires
        vote_outcome(
            (Ballot::Weighted { reputation, max_reason_len, now }),
            grant,
            before,
            after,
            reviewer,
            approve,
            reason,
            result,
        ),
    ensures
        result is Ok <==> {
            &&& before.state == MilestoneState::Submitted
            &&& addresses(grant.reviewers).contains(Some(reviewer))
            &&& !votes(before.votes).contains_key(reviewer)
            &&& reason matches Some(text) ==> text@.len() <= max_reason_len
        },
        result is Err ==> after == before,
        result matches Err(error) ==> {
            &&& error == ContractError::MilestoneNotSubmitted <==> before.state
                != MilestoneState::Submitted
            &&& error == ContractError::Unauthorized <==> before.state == MilestoneState::Submitted
                && !addresses(grant.reviewers).contains(Some(reviewer))
            &&& error == ContractError::AlreadyVoted <==> before.state == MilestoneState::Submitted
                && addresses(grant.reviewers).contains(Some(reviewer)) && votes(
                before.votes,
            ).contains_key(reviewer)
            &&& error == ContractError::InvalidInput <==> before.state == MilestoneState::Submitted
                && addresses(grant.reviewers).contains(Some(reviewer)) && !votes(
                before.votes,
            ).contains_key(reviewer)
        },
{
}

/// A weighted vote adds the voter's reputation to the tally of its side, as far as a
/// tally goes, and leaves the other tally alone. It is recorded under the voter, and
/// so is the reason, if there is one; what others voted and wrote stays. But for the
/// stage, and when it was reached, nothing else of the milestone changes.
pub proof fn law_weighted_vote_is_recorded(
    grant: Grant,
    before: Milestone,
    after: Milestone,
    reviewer: Address,
    approve: bool,
    reason: Option<Text>,
    reputation: u32,
    max_reason_len: u32,
    now: u64,
    result: Result<CastVote, ContractError>,
    other: Address,
)
    requires
        vote_outcome(
            (Ballot::Weighted { reputation, max_reason_len, now }),
            grant,
            before,
            after,
            reviewer,
            approve,
            reason,
            result,
        ),
        result is Ok,
        other != reviewer,
    ensures
        approve && before.approvals + reputation <= u32::MAX ==> after.approvals - before.approvals
            == reputation,
        approve && before.approvals + reputation > u32::MAX ==> after.approvals == u32::MAX,
        !approve ==> after.approvals == before.approvals,
        !approve && before.rejections + reputation <= u32::MAX ==> after.rejections
            - before.rejections == reputation,
        !approve && before.rejections + reputation > u32::MAX ==> after.rejections == u32::MAX,
        approve ==> after.rejections == before.rejections,
        votes(after.votes).contains_pair(reviewer, approve),
        votes(after.votes).contains_key(other) <==> votes(before.votes).contains_key(other),
        votes(before.votes).contains_key(other) ==> votes(after.votes)[other] == votes(
            before.votes,
        )[other],
        vote_count(after.votes) == vote_count(before.votes) + 1,
        votes_readable(before.votes) ==> votes_readable(after.votes),
        reason matches Some(text) ==> reasons(after.reasons).contains_pair(reviewer, text@),
        reason is None ==> after.reasons == before.reasons,
        reasons(after.reasons).contains_key(other) <==> reasons(before.reasons).contains_key(other),
        reasons(before.reasons).contains_key(other) ==> reasons(after.reasons)[other] == reasons(
            before.reasons,
        )[other],
        after.idx == before.idx,
        after.description == before.description,
        after.amount == before.amount,
        after.proof_url == before.proof_url,
        after.submission_timestamp == before.submission_timestamp,
        after.deadline == before.deadline,
        after.reviewer_count_snapshot == before.reviewer_count_snapshot,
{
}

/// A weighted vote approves the milestone exactly where the weight in favour is then
/// more than half of the number of those who could vote when the milestone was
/// submitted. It rejects the milestone exactly where the weight against is more than
/// half of that number and the weight in favour is not, whatever the two weights are
/// otherwise. The milestone stays open in all other cases. The result says which of
/// these it was, and the weight in favour in percent of both, rounded down.
pub proof fn law_weighted_vote_decides(
    grant: Grant,
    before: Milestone,
    after: Milestone,
    reviewer: Address,
    approve: bool,
    reason: Option<Text>,
    reputation: u32,
    max_reason_len: u32,
    now: u64,
    result: Result<CastVote, ContractError>,
)
    requires
        vote_outcome(
            (Ballot::Weighted { reputation, max_reason_len, now }),
            grant,
            before,
            after,
            reviewer,
            approve,
            reason,
            result,
        ),
        result is Ok,
    ensures
        after.approvals * 2 > before.reviewer_count_snapshot > 0 ==> {
            &&& after.state == MilestoneState::Approved
            &&& result->Ok_0.result.approved
            &&& result->Ok_0.result.quorum_reached
        },
        after.rejections * 2 > before.reviewer_count_snapshot > 0 && !(after.approvals * 2
            > before.reviewer_count_snapshot) ==> {
            &&& after.state == MilestoneState::Rejected
            &&& !result->Ok_0.result.approved
            &&& result->Ok_0.result.quorum_reached
        },
        before.reviewer_count_snapshot == 0 || (after.approvals * 2
            <= before.reviewer_count_snapshot && after.rejections * 2
            <= before.reviewer_count_snapshot) ==> {
            &&& after.state == MilestoneState::Submitted
            &&& !result->Ok_0.result.approved
            &&& !result->Ok_0.result.quorum_reached
        },
        result->Ok_0.result.quorum_reached ==> after.status_updated_at == now,
        !result->Ok_0.result.quorum_reached ==> after.status_updated_at
            == before.status_updated_at,
        after.approvals + after.rejections > 0 ==> result->Ok_0.result.approval_pct * (
        after.approvals + after.rejections) <= after.approvals * 100 < (
        result->Ok_0.result.approval_pct + 1) * (after.approvals + after.rejections),
        after.approvals + after.rejections == 0 ==> result->Ok_0.result.approval_pct == 0,
{
    let part = after.approvals as int;
    let total = after.approvals + after.rejections;
    lemma_percentage_of_part(part, total);
    lemma_percentage_rounds_down(part, total);
}

/// Where a weighted vote decides, exactly those are rewarded whose vote was for the
/// outcome, each of them once and in the order of the addresses. Where it does not
/// decide, nobody is.
pub proof fn law_winners_are_rewarded(
    grant: Grant,
    before: Milestone,
    after: Milestone,
    reviewer: Address,
    approve: bool,
    reason: Option<Text>,
    reputation: u32,
    max_reason_len: u32,
    now: u64,
    result: Result<CastVote, ContractError>,
    voter: Address,
)
    requires
        vote_outcome(
            (Ballot::Weighted { reputation, max_reason_len, now }),
            grant,
            before,
            after,
            reviewer,
            approve,
            reason,
            result,
        ),
        result is Ok,
    ensures
        result->Ok_0.rewarded@.contains(voter) <==> {
            &&& after.state != MilestoneState::Submitted
            &&& votes(after.votes).contains_pair(voter, after.state == MilestoneState::Approved)
        },
        forall|i: int, j: int|
            0 <= i < j < result->Ok_0.rewarded@.len() ==> result->Ok_0.rewarded@[i]
                < result->Ok_0.rewarded@[j],
{
}

/// After a weighted vote the voter's deadline is settled, the breach before the
/// fulfilment, and then the vote is told. A change of the stage is told before that.
pub proof fn law_weighted_vote_is_told(
    grant: Grant,
    before: Milestone,
    after: Milestone,
    reviewer: Address,
    approve: bool,
    reason: Option<Text>,
    reputation: u32,
    max_reason_len: u32,
    now: u64,
    result: Result<CastVote, ContractError>,
)
    requires
        vote_outcome(
            (Ballot::Weighted { reputation, max_reason_len, now }),
            grant,
            before,
            after,
            reviewer,
            approve,
            reason,
            result,
        ),
        result is Ok,
    ensures
        result->Ok_0.steps@.len() == if after.state == MilestoneState::Submitted {
            3int
        } else {
            4int
        },
        after.state != MilestoneState::Submitted ==> result->Ok_0.steps@[0] == Step::Publish(
            Event::MilestoneStatusChanged {
                grant_id: grant.id,
                milestone_idx: before.idx,
                state: after.state,
            },
        ),
        result->Ok_0.steps@[result->Ok_0.steps@.len() - 3] == (Step::CheckSlaBreach {
            reviewer,
            grant_id: grant.id,
            milestone_idx: before.idx,
        }),
        result->Ok_0.steps@[result->Ok_0.steps@.len() - 2] == (Step::FulfillSla {
            reviewer,
            grant_id: grant.id,
            milestone_idx: before.idx,
        }),
        result->Ok_0.steps@[result->Ok_0.steps@.len() - 1] == Step::Publish(
            Event::MilestoneVoted {
                grant_id: grant.id,
                milestone_idx: before.idx,
                reviewer,
                approve,
                reason,
            },
        ),
{
}

/// A weighted vote that is not refused can be counted exactly where there is room
/// for it, and for the reason, if there is one, and the votes can be read, if it
/// decides. `approvals` and `rejections` are the tallies with the vote added.
pub proof fn law_when_a_weighted_vote_counts(
    grant: Grant,
    milestone: Milestone,
    reviewer: Address,
    approve: bool,
    reason: Option<Text>,
    reputation: u32,
    max_reason_len: u32,
    now: u64,
    approvals: int,
    rejections: int,
)
    requires
        milestone.state == MilestoneState::Submitted,
        addresses(grant.reviewers).contains(Some(reviewer)),
        !votes(milestone.votes).contains_key(reviewer),
        reason matches Some(text) ==> text@.len() <= max_reason_len,
        approve ==> rejections == milestone.rejections && if milestone.approvals + reputation
            <= u32::MAX {
            approvals == milestone.approvals + reputation
        } else {
            approvals == u32::MAX
        },
        !approve ==> approvals == milestone.approvals && if milestone.rejections + reputation
            <= u32::MAX {
            rejections == milestone.rejections + reputation
        } else {
            rejections == u32::MAX
        },
    ensures
        countable(
            (Ballot::Weighted { reputation, max_reason_len, now }),
            grant,
            milestone,
            reviewer,
            approve,
            reason,
        ) <==> {
            &&& vote_count(milestone.votes) < u32::MAX
            &&& reason is Some ==> reason_count(milestone.reasons) < u32::MAX
            &&& milestone.reviewer_count_snapshot > 0 && (approvals * 2
                > milestone.reviewer_count_snapshot || rejections * 2
                > milestone.reviewer_count_snapshot) ==> votes_readable(milestone.votes)
        },
{
}

/// A vote that is refused, or that the quadratic count has answered, can always be
/// dealt with.
pub proof fn law_other_votes_need_no_room(
    ballot: Ballot,
    grant: Grant,
    milestone: Milestone,
    reviewer: Address,
    approve: bool,
    reason: Option<Text>,
)
    requires
        ballot matches Ballot::Weighted { reputation, max_reason_len, now } ==> milestone.state
            != MilestoneState::Submitted || !addresses(grant.reviewers).contains(Some(reviewer))
            || votes(milestone.votes).contains_key(reviewer) || (reason is Some
            && reason->0@.len() > max_reason_len),
    ensures
        countable(ballot, grant, milestone, reviewer, approve, reason),
{
}

/// A quadratic vote approves the milestone, and reports a quorum, exactly where the
/// votes taken are more than half of the number of those who could vote when the
/// milestone was submitted, and those in favour are more than half of the votes
/// taken. So it never does while at most half of the voters took part. In all other
/// cases the milestone stays as it was. Tallies that together exceed a `u32` count as
/// the largest one.
pub proof fn law_quadratic_vote_decides(
    grant: Grant,
    before: Milestone,
    after: Milestone,
    reviewer: Address,
    approve: bool,
    reason: Option<Text>,
    count: QuadraticCount,
    result: Result<CastVote, ContractError>,
    taken: int,
)
    requires
        vote_outcome(
            Ballot::Quadratic(Ok(count)),
            grant,
            before,
            after,
            reviewer,
            approve,
            reason,
            result,
        ),
        count.for_votes + count.against_votes <= u32::MAX ==> taken == count.for_votes
            + count.against_votes,
        count.for_votes + count.against_votes > u32::MAX ==> taken == u32::MAX,
    ensures
        result is Ok,
        result->Ok_0.result.quorum_reached <==> taken * 2 > before.reviewer_count_snapshot
            && count.for_votes * 2 > taken > 0,
        taken * 2 > before.reviewer_count_snapshot && count.for_votes * 2 > taken > 0 ==> after == (
        Milestone { state: MilestoneState::Approved, ..before }),
        !(taken * 2 > before.reviewer_count_snapshot && count.for_votes * 2 > taken > 0)
            ==> after == before,
        taken * 2 <= before.reviewer_count_snapshot ==> after == before
            && !result->Ok_0.result.quorum_reached,
        result->Ok_0.result.approved <==> approve && result->Ok_0.result.quorum_reached,
        result->Ok_0.result.approval_pct == count.votes_cast,
{
}

/// A quadratic vote rewards nobody. The voter's deadline is settled, the breach
/// before the fulfilment, and then the vote is told.
pub proof fn law_quadratic_vote_is_told(
    grant: Grant,
    before: Milestone,
    after: Milestone,
    reviewer: Address,
    approve: bool,
    reason: Option<Text>,
    count: QuadraticCount,
    result: Result<CastVote, ContractError>,
)
    requires
        vote_outcome(
            Ballot::Quadratic(Ok(count)),
            grant,
            before,
            after,
            reviewer,
            approve,
            reason,
            result,
        ),
    ensures
        result is Ok,
        result->Ok_0.rewarded@.len() == 0,
        result->Ok_0.steps@.len() == 3,
        result->Ok_0.steps@[0] == (Step::CheckSlaBreach {
            reviewer,
            grant_id: grant.id,
            milestone_idx: before.idx,
        }),
        result->Ok_0.steps@[1] == (Step::FulfillSla {
            reviewer,
            grant_id: grant.id,
            milestone_idx: before.idx,
        }),
        result->Ok_0.steps@[2] == Step::Publish(
            Event::MilestoneVoted {
                grant_id: grant.id,
                milestone_idx: before.idx,
                reviewer,
                approve,
                reason,
            },
        ),
{
}

/// Where the quadratic count refuses a vote, its error is passed on and the milestone
/// stays as it was.
pub proof fn law_quadratic_refusal_is_passed_on(
    grant: Grant,
    before: Milestone,
    after: Milestone,
    reviewer: Address,
    approve: bool,
    reason: Option<Text>,
    error: ContractError,
    result: Result<CastVote, ContractError>,
)
    requires
        vote_outcome(
            Ballot::Quadratic(Err(error)),
            grant,
            before,
            after,
            reviewer,
            approve,
            reason,
            result,
        ),
    ensures
        result == Err::<CastVote, ContractError>(error),
        after == before,
{
}

/// Each payment is told of its own: the event at any place names the grant, an
/// approved milestone by its index, and the amount of that milestone. The events
/// follow the order of the milestones, and none that was approved is left out.
pub proof fn law_each_payment_is_told(grant_id: u64, milestones: Seq<Option<Milestone>>, n: int)
    requires
        0 <= n <= milestones.len() <= u32::MAX,
    ensures
        forall|k: int|
            #![trigger paid_events(grant_id, milestones, n)[k]]
            0 <= k < paid_events(grant_id, milestones, n).len() ==> {
                &&& paid_events(grant_id, milestones, n)[k] matches Event::MilestonePaid {
                    grant_id: g,
                    milestone_idx,
                    amount,
                }
                &&& g == grant_id
                &&& milestone_idx < n
                &&& milestones[milestone_idx as int] matches Some(m)
                &&& m.state == MilestoneState::Approved
                &&& m.amount == amount
            },
        forall|j: int, k: int|
            #![trigger paid_events(grant_id, milestones, n)[j], paid_events(
                grant_id,
                milestones,
                n,
            )[k]]
            0 <= j < k < paid_events(grant_id, milestones, n).len() ==> paid_events(
                grant_id,
                milestones,
                n,
            )[j]->MilestonePaid_milestone_idx < paid_events(
                grant_id,
                milestones,
                n,
            )[k]->MilestonePaid_milestone_idx,
        forall|i: int|
            0 <= i < n && (#[trigger] milestones[i]) is Some && milestones[i]->0.state
                == MilestoneState::Approved ==> paid_events(grant_id, milestones, n).contains(
                (Event::MilestonePaid {
                    grant_id,
                    milestone_idx: i as u32,
                    amount: milestones[i]->0.amount,
                }),
            ),
    decreases n,
{
    if n > 0 {
        law_each_payment_is_told(grant_id, milestones, n - 1);
        let earlier = paid_events(grant_id, milestones, n - 1);
        let all = paid_events(grant_id, milestones, n);
        assert forall|k: int| 0 <= k < earlier.len() implies all[k] == earlier[k] by {}
        assert forall|i: int|
            0 <= i < n && (#[trigger] milestones[i]) is Some && milestones[i]->0.state
                == MilestoneState::Approved implies all.contains(
            (Event::MilestonePaid {
                grant_id,
                milestone_idx: i as u32,
                amount: milestones[i]->0.amount,
            }),
        ) by {
            let event = Event::MilestonePaid {
                grant_id,
                milestone_idx: i as u32,
                amount: milestones[i]->0.amount,
            };
            if i == n - 1 {
                assert(all[earlier.len() as int] == event);
            } else {
                let k = earlier.index_of(event);
                assert(all[k] == event);
            }
        }
    }
}

} // verus!
