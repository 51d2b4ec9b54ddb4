use soroban_sdk::testutils::EnvTestConfig;
use soroban_sdk::{Env, IntoVal, Val};
use stellar_grants::governance::{
    aborts, approval_percentage, cast_vote, checked_cast_vote, finalize_milestone, mark_milestones_paid,
    quadratic_request, quorum_reached, rewarded_reputation, Ballot, CastVote, QuadraticCount,
    QuadraticRequest, Step, VoteResult,
};
use stellar_grants::types::{
    Address, ContractError, Event, Grant, Milestone, MilestoneState, VotingMechanism,
};

fn env() -> Env {
    Env::new_with_config(EnvTestConfig {
        capture_snapshot_at_drop: false,
    })
}

fn grant(env: &Env, panel: &[Address]) -> Grant {
    let mut reviewers = soroban_sdk::Vec::new(env);
    for address in panel {
        reviewers.push_back(*address);
    }
    Grant {
        id: 7,
        owner: 100,
        token: 200,
        reviewers,
        escrow_balance: 0,
        funders: soroban_sdk::Vec::new(env),
        timestamp: 0,
        total_milestones: 1,
        milestones_paid_out: 0,
    }
}

fn milestone(env: &Env, state: MilestoneState, snapshot: u32) -> Milestone {
    Milestone {
        idx: 3,
        description: b"test".to_vec(),
        amount: 100,
        state,
        votes: soroban_sdk::Map::new(env),
        approvals: 0,
        rejections: 0,
        reasons: soroban_sdk::Map::new(env),
        status_updated_at: 0,
        proof_url: None,
        submission_timestamp: 0,
        deadline: None,
        reviewer_count_snapshot: snapshot,
    }
}

fn weighted(reputation: u32) -> Ballot {
    Ballot::Weighted {
        reputation,
        max_reason_len: 10,
        now: 42,
    }
}

fn quadratic(votes_cast: u32, for_votes: u32, against_votes: u32) -> Ballot {
    Ballot::Quadratic(Ok(QuadraticCount {
        votes_cast,
        for_votes,
        against_votes,
    }))
}

fn refusal(result: Result<CastVote, ContractError>) -> ContractError {
    match result {
        Ok(_) => panic!("the vote was taken"),
        Err(error) => error,
    }
}

#[test]
fn test_quorum_zero_reviewers() {
    assert!(!quorum_reached(0, 0));
    assert!(!quorum_reached(1, 0));
}

#[test]
fn test_quorum_single_reviewer() {
    assert!(quorum_reached(1, 1)); // 1/1 = 100%
    assert!(!quorum_reached(0, 1)); // 0/1 = 0%
}

#[test]
fn test_quorum_exact_50_percent_not_reached() {
    assert!(!quorum_reached(1, 2)); // exactly 50%, needs strictly more
    assert!(!quorum_reached(2, 4)); // exactly 50%
}

#[test]
fn test_quorum_51_percent_reached() {
    assert!(quorum_reached(2, 3)); // 66% > 50%
    assert!(quorum_reached(3, 4)); // 75% > 50%
    assert!(quorum_reached(3, 5)); // 60% > 50%
}

#[test]
fn test_quorum_all_reject_path() {
    // If all reject, 0 approvals leave no approval quorum
    assert!(!quorum_reached(0, 3));
    // But the rejections reach theirs
    assert!(quorum_reached(3, 3));
}

#[test]
fn test_approval_percentage_zero_voters() {
    assert_eq!(approval_percentage(0, 0), 0);
}

#[test]
fn test_approval_percentage_full() {
    assert_eq!(approval_percentage(5, 5), 100);
}

#[test]
fn test_approval_percentage_none() {
    assert_eq!(approval_percentage(0, 5), 0);
}

#[test]
fn test_approval_percentage_partial() {
    assert_eq!(approval_percentage(1, 2), 50);
    assert_eq!(approval_percentage(2, 3), 66);
}

#[test]
fn test_finalize_milestone_approved() {
    let env = env();
    let mut milestone = Milestone {
        idx: 0,
        description: b"test".to_vec(),
        amount: 100,
        state: MilestoneState::Submitted,
        votes: soroban_sdk::Map::new(&env),
        approvals: 3,
        rejections: 0,
        reasons: soroban_sdk::Map::new(&env),
        status_updated_at: 0,
        proof_url: None,
        submission_timestamp: 0,
        deadline: None,
        reviewer_count_snapshot: 3,
    };
    let result = VoteResult {
        approved: true,
        quorum_reached: true,
        approval_pct: 100,
    };
    finalize_milestone(&mut milestone, &result);
    assert_eq!(milestone.state, MilestoneState::Approved);
}

#[test]
fn test_finalize_milestone_rejected() {
    let env = env();
    let mut milestone = Milestone {
        idx: 0,
        description: b"test".to_vec(),
        amount: 100,
        state: MilestoneState::Submitted,
        votes: soroban_sdk::Map::new(&env),
        approvals: 0,
        rejections: 3,
        reasons: soroban_sdk::Map::new(&env),
        status_updated_at: 0,
        proof_url: None,
        submission_timestamp: 0,
        deadline: None,
        reviewer_count_snapshot: 3,
    };
    let result = VoteResult {
        approved: false,
        quorum_reached: true,
        approval_pct: 0,
    };
    finalize_milestone(&mut milestone, &result);
    assert_eq!(milestone.state, MilestoneState::Rejected);
}

#[test]
fn large_weights_have_a_quorum_and_a_percentage() {
    assert!(quorum_reached(3_000_000_000, 4_000_000_000));
    assert!(!quorum_reached(2_000_000_000, 4_000_000_000));
    assert!(quorum_reached(u32::MAX, u32::MAX));
    assert!(!quorum_reached(u32::MAX / 2, u32::MAX));
    assert!(!quorum_reached(u32::MAX, 0));
    assert_eq!(approval_percentage(u32::MAX, 0), 0);
    assert_eq!(approval_percentage(50_000_000, 50_000_000), 100);
    assert_eq!(approval_percentage(u32::MAX - 1, u32::MAX), 99);
    assert_eq!(approval_percentage(42_949_672, 1), 4_294_967_200);
    assert_eq!(approval_percentage(u32::MAX, 100), u32::MAX);
}

#[test]
fn votes_below_the_quorum_leave_the_milestone_open() {
    let env = env();
    let grant = grant(&env, &[1, 2, 3]);
    let mut milestone = milestone(&env, MilestoneState::Submitted, 3);
    let cast = cast_vote(
        &weighted(1),
        &grant,
        &mut milestone,
        &1,
        true,
        Some(b"fine".to_vec()),
    )
    .ok()
    .unwrap();
    assert_eq!(
        cast.result,
        VoteResult {
            approved: false,
            quorum_reached: false,
            approval_pct: 100
        }
    );
    assert!(cast.rewarded.is_empty());
    assert_eq!(milestone.state, MilestoneState::Submitted);
    assert_eq!(milestone.status_updated_at, 0);
    assert_eq!((milestone.approvals, milestone.rejections), (1, 0));
    assert_eq!(milestone.votes.len(), 1);
    assert_eq!(milestone.votes.get(1), Some(true));
    assert_eq!(
        milestone.reasons.get(1),
        Some(soroban_sdk::String::from_str(&env, "fine"))
    );
    assert_eq!(cast.steps.len(), 3);
    assert!(matches!(
        cast.steps[0],
        Step::CheckSlaBreach {
            reviewer: 1,
            grant_id: 7,
            milestone_idx: 3
        }
    ));
    assert!(matches!(
        cast.steps[1],
        Step::FulfillSla {
            reviewer: 1,
            grant_id: 7,
            milestone_idx: 3
        }
    ));
    match &cast.steps[2] {
        Step::Publish(Event::MilestoneVoted {
            grant_id,
            milestone_idx,
            reviewer,
            approve,
            reason,
        }) => {
            assert_eq!((*grant_id, *milestone_idx, *reviewer), (7, 3, 1));
            assert!(*approve);
            assert_eq!(*reason, Some(b"fine".to_vec()));
        }
        _ => panic!("the vote is not told"),
    }
}

#[test]
fn the_deciding_vote_approves_and_rewards_the_winning_side() {
    let env = env();
    let grant = grant(&env, &[1, 2, 3, 4, 5]);
    let mut milestone = milestone(&env, MilestoneState::Submitted, 5);
    for (voter, approve) in [(5, true), (2, false), (3, true)] {
        let cast = cast_vote(&weighted(1), &grant, &mut milestone, &voter, approve, None);
        assert!(!cast.ok().unwrap().result.quorum_reached);
    }
    let cast = cast_vote(&weighted(1), &grant, &mut milestone, &1, true, None)
        .ok()
        .unwrap();
    assert_eq!(
        cast.result,
        VoteResult {
            approved: true,
            quorum_reached: true,
            approval_pct: 75
        }
    );
    assert_eq!(cast.rewarded, vec![1, 3, 5]);
    assert_eq!(milestone.state, MilestoneState::Approved);
    assert_eq!(milestone.status_updated_at, 42);
    assert_eq!((milestone.approvals, milestone.rejections), (3, 1));
    assert_eq!(cast.steps.len(), 4);
    assert!(matches!(
        cast.steps[0],
        Step::Publish(Event::MilestoneStatusChanged {
            grant_id: 7,
            milestone_idx: 3,
            state: MilestoneState::Approved
        })
    ));
    assert!(matches!(cast.steps[1], Step::CheckSlaBreach { .. }));
    assert!(matches!(cast.steps[2], Step::FulfillSla { .. }));
    assert!(matches!(
        cast.steps[3],
        Step::Publish(Event::MilestoneVoted { .. })
    ));
}

#[test]
fn rewards_go_in_the_order_of_the_addresses() {
    let env = env();
    let panel = [u64::MAX, 1, 1 << 60, 2];
    let grant = grant(&env, &panel);
    let mut milestone = milestone(&env, MilestoneState::Submitted, 7);
    for voter in [u64::MAX, 1, 1 << 60] {
        let cast = cast_vote(&weighted(1), &grant, &mut milestone, &voter, true, None);
        assert!(cast.ok().unwrap().rewarded.is_empty());
    }
    let cast = cast_vote(&weighted(1), &grant, &mut milestone, &2, true, None);
    assert_eq!(cast.ok().unwrap().rewarded, vec![1, 2, 1 << 60, u64::MAX]);
}

#[test]
fn rejections_decide_too() {
    let env = env();
    let grant = grant(&env, &[1, 2]);
    let mut milestone = milestone(&env, MilestoneState::Submitted, 3);
    let cast = cast_vote(&weighted(2), &grant, &mut milestone, &2, false, None)
        .ok()
        .unwrap();
    assert_eq!(
        cast.result,
        VoteResult {
            approved: false,
            quorum_reached: true,
            approval_pct: 0
        }
    );
    assert_eq!(cast.rewarded, vec![2]);
    assert_eq!(milestone.state, MilestoneState::Rejected);
}

#[test]
fn every_refusal_of_a_weighted_vote_leaves_the_milestone() {
    let env = env();
    let grant = grant(&env, &[1, 2]);

    let mut paid = milestone(&env, MilestoneState::Paid, 2);
    let result = cast_vote(&weighted(1), &grant, &mut paid, &9, true, None);
    assert_eq!(refusal(result), ContractError::MilestoneNotSubmitted);
    assert_eq!(paid.state, MilestoneState::Paid);

    let mut open = milestone(&env, MilestoneState::Submitted, 9);
    let result = cast_vote(&weighted(1), &grant, &mut open, &9, true, None);
    assert_eq!(refusal(result), ContractError::Unauthorized);
    assert_eq!(open.votes.len(), 0);

    let long = b"eleven char".to_vec();
    let result = cast_vote(&weighted(1), &grant, &mut open, &1, true, Some(long.clone()));
    assert_eq!(refusal(result), ContractError::InvalidInput);
    assert_eq!(open.votes.len(), 0);
    assert_eq!(open.reasons.len(), 0);
    assert_eq!(open.approvals, 0);

    let short = b"ten chars!".to_vec();
    assert!(cast_vote(&weighted(1), &grant, &mut open, &1, true, Some(short)).is_ok());
    let result = cast_vote(&weighted(1), &grant, &mut open, &1, false, Some(long));
    assert_eq!(refusal(result), ContractError::AlreadyVoted);
    assert_eq!((open.approvals, open.rejections), (1, 0));
}

#[test]
fn nobody_votes_on_a_decided_milestone() {
    let env = env();
    let grant = grant(&env, &[1, 2]);
    let mut milestone = milestone(&env, MilestoneState::Submitted, 1);
    assert!(cast_vote(&weighted(1), &grant, &mut milestone, &1, true, None).is_ok());
    for voter in [1, 2] {
        let result = cast_vote(&weighted(1), &grant, &mut milestone, &voter, true, None);
        assert_eq!(refusal(result), ContractError::MilestoneNotSubmitted);
    }
}

#[test]
fn large_weights_are_counted() {
    let env = env();
    let grant = grant(&env, &[1, 2, 3]);
    let mut open = milestone(&env, MilestoneState::Submitted, u32::MAX);
    open.approvals = 3_000_000_000;
    open.rejections = 2_000_000_000;
    let result = checked_cast_vote(&weighted(u32::MAX), &grant, &mut open, &1, true, None);
    let cast = result.unwrap().ok().unwrap();
    assert_eq!(
        cast.result,
        VoteResult {
            approved: true,
            quorum_reached: true,
            approval_pct: 68
        }
    );
    assert_eq!(open.approvals, u32::MAX);
    assert_eq!(open.state, MilestoneState::Approved);

    let mut open = milestone(&env, MilestoneState::Submitted, u32::MAX);
    let count = quadratic(1, u32::MAX, 1);
    let cast = checked_cast_vote(&count, &grant, &mut open, &1, true, None);
    assert!(cast.unwrap().ok().unwrap().result.approved);
    assert_eq!(open.state, MilestoneState::Approved);
}

#[test]
fn only_a_long_reason_is_answered_with_an_error() {
    let ballot = weighted(1);
    assert!(aborts(&ballot, ContractError::MilestoneNotSubmitted));
    assert!(aborts(&ballot, ContractError::Unauthorized));
    assert!(aborts(&ballot, ContractError::AlreadyVoted));
    assert!(!aborts(&ballot, ContractError::InvalidInput));
    let count = Ballot::Quadratic(Err(ContractError::AlreadyVoted));
    assert!(!aborts(&count, ContractError::AlreadyVoted));
}

#[test]
fn votes_that_cannot_be_read_stop_only_a_decision() {
    let env = env();
    let grant = grant(&env, &[1]);
    let mut raw: soroban_sdk::Map<Val, Val> = soroban_sdk::Map::new(&env);
    raw.set(8u32.into_val(&env), true.into_val(&env));
    let mut open = milestone(&env, MilestoneState::Submitted, 3);
    open.votes = raw.to_val().into_val(&env);
    assert!(checked_cast_vote(&weighted(2), &grant, &mut open, &1, true, None).is_none());
    assert_eq!(open.votes.len(), 1);
    let result = checked_cast_vote(&weighted(1), &grant, &mut open, &1, true, None);
    assert!(result.unwrap().is_ok());
    assert_eq!(open.votes.len(), 2);
}

#[test]
fn quadratic_votes_need_both_majorities() {
    let env = env();
    let grant = grant(&env, &[]);
    // (for, against, decided) of five who could vote
    for (for_votes, against_votes, decided) in [
        (0, 0, false),
        (2, 0, false),
        (3, 0, true),
        (2, 1, true),
        (1, 2, false),
        (2, 2, false),
        (3, 2, true),
    ] {
        let mut open = milestone(&env, MilestoneState::Submitted, 5);
        let cast = cast_vote(
            &quadratic(4, for_votes, against_votes),
            &grant,
            &mut open,
            &1,
            true,
            None,
        )
        .ok()
        .unwrap();
        assert_eq!(
            cast.result,
            VoteResult {
                approved: decided,
                quorum_reached: decided,
                approval_pct: 4
            }
        );
        let state = if decided {
            MilestoneState::Approved
        } else {
            MilestoneState::Submitted
        };
        assert_eq!(open.state, state);
        assert_eq!(open.status_updated_at, 0);
        assert!(cast.rewarded.is_empty());
        assert_eq!(cast.steps.len(), 3);
        assert!(matches!(cast.steps[0], Step::CheckSlaBreach { .. }));
        assert!(matches!(cast.steps[1], Step::FulfillSla { .. }));
        assert!(matches!(
            cast.steps[2],
            Step::Publish(Event::MilestoneVoted { .. })
        ));
    }
}

#[test]
fn a_quadratic_vote_against_is_not_approved_though_the_milestone_is() {
    let env = env();
    let grant = grant(&env, &[]);
    let mut open = milestone(&env, MilestoneState::Submitted, 5);
    let cast = cast_vote(&quadratic(1, 3, 1), &grant, &mut open, &1, false, None)
        .ok()
        .unwrap();
    assert!(!cast.result.approved);
    assert!(cast.result.quorum_reached);
    assert_eq!(open.state, MilestoneState::Approved);
}

#[test]
fn a_refusal_of_the_quadratic_count_is_passed_on() {
    let env = env();
    let grant = grant(&env, &[]);
    let mut open = milestone(&env, MilestoneState::Submitted, 5);
    let ballot = Ballot::Quadratic(Err(ContractError::Other(77)));
    let result = cast_vote(&ballot, &grant, &mut open, &1, true, None);
    assert_eq!(refusal(result), ContractError::Other(77));
    assert_eq!(open.state, MilestoneState::Submitted);
}

#[test]
fn only_a_quadratic_grant_asks_the_quadratic_count() {
    let env = env();
    let grant = grant(&env, &[]);
    let open = milestone(&env, MilestoneState::Submitted, 5);
    assert_eq!(
        quadratic_request(VotingMechanism::Quadratic, &grant, &open, &1, false),
        Some(QuadraticRequest {
            reviewer: 1,
            grant_id: 7,
            milestone_idx: 3,
            votes: 1,
            approve: false
        })
    );
    assert_eq!(
        quadratic_request(VotingMechanism::Weighted, &grant, &open, &1, false),
        None
    );
}

#[test]
fn a_reward_is_one_point_of_reputation() {
    assert_eq!(rewarded_reputation(0), 1);
    assert_eq!(rewarded_reputation(41), 42);
    assert_eq!(rewarded_reputation(u32::MAX), u32::MAX);
}

#[test]
fn approved_milestones_are_marked_as_paid_once() {
    let env = env();
    let mut second = milestone(&env, MilestoneState::Approved, 3);
    second.amount = 250;
    let mut milestones = vec![
        Some(milestone(&env, MilestoneState::Approved, 3)),
        None,
        Some(milestone(&env, MilestoneState::Rejected, 3)),
        Some(second),
        Some(milestone(&env, MilestoneState::Paid, 3)),
    ];
    let events = mark_milestones_paid(7, &mut milestones);
    assert_eq!(events.len(), 2);
    assert!(matches!(
        events[0],
        Event::MilestonePaid {
            grant_id: 7,
            milestone_idx: 0,
            amount: 100
        }
    ));
    assert!(matches!(
        events[1],
        Event::MilestonePaid {
            grant_id: 7,
            milestone_idx: 3,
            amount: 250
        }
    ));
    let states: Vec<Option<MilestoneState>> = milestones
        .iter()
        .map(|m| m.as_ref().map(|m| m.state))
        .collect();
    assert_eq!(
        states,
        vec![
            Some(MilestoneState::Paid),
            None,
            Some(MilestoneState::Rejected),
            Some(MilestoneState::Paid),
            Some(MilestoneState::Paid),
        ]
    );
    assert!(mark_milestones_paid(7, &mut milestones).is_empty());
}
