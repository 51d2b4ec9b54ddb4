use soroban_sdk::testutils::EnvTestConfig;
use soroban_sdk::{Env, IntoVal, Val};
use stellar_grants::refund::{
    calculate_refund, checked_execute_refund, execute_refund, get_policy, guarded_execute_refund,
    has_policy, set_policy, time_weighted_refund, Payee, RefundKey, Transfer,
};
use stellar_grants::types::{
    ContractError, Grant, RefundCalculation, RefundPolicy, RefundPolicyType,
};

const ID: u64 = 7;
const OWNER: u64 = 100;
const TOKEN: u64 = 200;
const START: u64 = 1_000;

fn env() -> Env {
    Env::new_with_config(EnvTestConfig {
        capture_snapshot_at_drop: false,
    })
}

fn grant(env: &Env, escrow: i128, funds: &[i128]) -> Option<Grant> {
    let mut funders = soroban_sdk::Vec::new(env);
    for amount in funds {
        funders.push_back(*amount);
    }
    Some(Grant {
        id: ID,
        owner: OWNER,
        token: TOKEN,
        reviewers: soroban_sdk::Vec::new(env),
        escrow_balance: escrow,
        funders,
        timestamp: START,
        total_milestones: 4,
        milestones_paid_out: 1,
    })
}

fn policy(policy_type: RefundPolicyType) -> RefundPolicy {
    RefundPolicy {
        grant_id: ID,
        policy_type,
        penalty_bps: 0,
        grace_period_ledgers: 0,
        min_refund_pct_bps: 0,
    }
}

fn division(escrow: i128, policy: RefundPolicy, now: u64) -> (i128, i128, RefundPolicyType) {
    let env = env();
    let calc = calculate_refund(&grant(&env, escrow, &[]), &Some(policy), ID, &OWNER, now).unwrap();
    assert_eq!(calc.gross_escrow, escrow);
    assert_eq!(calc.penalty_amount, calc.contributor_compensation);
    (
        calc.funder_refund,
        calc.contributor_compensation,
        calc.policy_applied,
    )
}

fn pay(to: Payee, amount: i128) -> Transfer {
    Transfer {
        token: TOKEN,
        to,
        amount,
    }
}

#[test]
fn a_policy_is_stored_by_the_owner_while_nothing_is_in_escrow() {
    let env = env();
    let wanted = policy(RefundPolicyType::TimeWeighted);
    let empty = grant(&env, 0, &[]);
    let mut stored = None;
    assert!(!has_policy(&stored));

    let result = set_policy(&mut stored, &None, &OWNER, ID, wanted);
    assert_eq!(result, Err(ContractError::GrantNotFound));
    let result = set_policy(&mut stored, &empty, &99, ID, wanted);
    assert_eq!(result, Err(ContractError::InvalidInput));
    let result = set_policy(&mut stored, &empty, &OWNER, ID + 1, wanted);
    assert_eq!(result, Err(ContractError::InvalidInput));
    let result = set_policy(&mut stored, &grant(&env, 1, &[]), &OWNER, ID, wanted);
    assert_eq!(result, Err(ContractError::InvalidInput));
    assert_eq!(stored, None);

    assert_eq!(set_policy(&mut stored, &empty, &OWNER, ID, wanted), Ok(()));
    assert!(has_policy(&stored));
    assert_eq!(get_policy(&stored, ID), wanted);
}

#[test]
fn without_a_policy_everything_goes_back() {
    assert_eq!(
        get_policy(&None, ID),
        RefundPolicy {
            grant_id: ID,
            policy_type: RefundPolicyType::FullRefund,
            penalty_bps: 0,
            grace_period_ledgers: 0,
            min_refund_pct_bps: 0,
        }
    );
    let env = env();
    let calc = calculate_refund(&grant(&env, 500, &[]), &None, ID, &OWNER, 0);
    assert_eq!(
        calc,
        Ok(RefundCalculation {
            gross_escrow: 500,
            funder_refund: 500,
            contributor_compensation: 0,
            penalty_amount: 0,
            policy_applied: RefundPolicyType::FullRefund,
        })
    );
}

#[test]
fn a_grant_that_is_not_there_is_not_refunded() {
    let calc = calculate_refund(&None, &None, ID, &OWNER, 0);
    assert_eq!(calc, Err(ContractError::GrantNotFound));
    let mut none = None;
    let result = execute_refund(&mut none, &None, ID, &OWNER, 0);
    assert!(matches!(result, Err(ContractError::GrantNotFound)));
    assert!(none.is_none());
}

#[test]
fn each_policy_divides_the_escrow() {
    let full = RefundPolicyType::FullRefund;
    assert_eq!(division(1_001, policy(full), 0), (1_001, 0, full));

    let rest = RefundPolicyType::ProportionalToRemaining;
    // three of four milestones are left
    assert_eq!(division(1_001, policy(rest), 0), (750, 251, rest));

    let time = RefundPolicyType::TimeWeighted;
    assert_eq!(division(1_000, policy(time), START), (1_000, 0, time));
    assert_eq!(
        division(1_000, policy(time), START + 10_000),
        (750, 250, time)
    );
    assert_eq!(
        division(1_000, policy(time), START + 40_000),
        (0, 1_000, time)
    );

    let penalty = RefundPolicyType::PenaltyOnCancel;
    let mut terms = policy(penalty);
    terms.penalty_bps = 1_250;
    assert_eq!(division(1_001, terms, 0), (876, 125, penalty));
    terms.penalty_bps = 20_000;
    assert_eq!(division(1_000, terms, 0), (0, 1_000, penalty));

    let other = RefundPolicyType::Other(9);
    assert_eq!(division(1_000, policy(other), 0), (0, 1_000, other));
}

#[test]
fn a_grant_without_milestones_has_no_proportion() {
    let env = env();
    let mut none = grant(&env, 1_000, &[]).unwrap();
    none.total_milestones = 0;
    let terms = policy(RefundPolicyType::ProportionalToRemaining);
    let calc = calculate_refund(&Some(none), &Some(terms), ID, &OWNER, 0).unwrap();
    assert_eq!(calc.funder_refund, 0);

    let mut over = grant(&env, 1_000, &[]).unwrap();
    over.milestones_paid_out = 5;
    let calc = calculate_refund(&Some(over), &Some(terms), ID, &OWNER, 0).unwrap();
    assert_eq!(calc.funder_refund, 0);
}

#[test]
fn the_minimum_is_kept_and_never_exceeds_the_escrow() {
    let other = RefundPolicyType::Other(9);
    let mut terms = policy(other);
    terms.min_refund_pct_bps = 2_500;
    assert_eq!(division(1_001, terms, 0), (250, 751, other));
    terms.min_refund_pct_bps = 30_000;
    assert_eq!(division(1_001, terms, 0), (1_001, 0, other));
}

#[test]
fn during_the_grace_period_everything_goes_back() {
    let other = RefundPolicyType::Other(9);
    let full = RefundPolicyType::FullRefund;
    let mut terms = policy(other);
    terms.grace_period_ledgers = 50;
    assert_eq!(division(1_000, terms, START + 49), (1_000, 0, full));
    assert_eq!(division(1_000, terms, START + 50), (0, 1_000, other));
}

#[test]
fn a_negative_escrow_is_all_refund() {
    for policy_type in [
        RefundPolicyType::FullRefund,
        RefundPolicyType::ProportionalToRemaining,
        RefundPolicyType::TimeWeighted,
        RefundPolicyType::PenaltyOnCancel,
        RefundPolicyType::Other(1),
    ] {
        let mut terms = policy(policy_type);
        terms.penalty_bps = 3_333;
        terms.min_refund_pct_bps = 70_000;
        assert_eq!(division(-1_001, terms, START), (-1_001, 0, policy_type));
    }
}

#[test]
fn products_saturate() {
    let rest = RefundPolicyType::ProportionalToRemaining;
    // three times the largest amount is the largest amount
    let (refund, _, _) = division(i128::MAX, policy(rest), 0);
    assert_eq!(refund, i128::MAX / 4);
}

#[test]
fn time_weighted_refunds() {
    assert_eq!(time_weighted_refund(100, 10, 20, 5), 100);
    assert_eq!(time_weighted_refund(100, 10, 20, 10), 100);
    assert_eq!(time_weighted_refund(100, 10, 20, 13), 70);
    assert_eq!(time_weighted_refund(101, 10, 20, 15), 50);
    assert_eq!(time_weighted_refund(100, 10, 20, 20), 0);
    assert_eq!(time_weighted_refund(100, 20, 10, 5), 0);
    assert_eq!(time_weighted_refund(100, 10, 10, 5), 0);
    assert_eq!(time_weighted_refund(0, 10, 20, 5), 0);
    assert_eq!(time_weighted_refund(-100, 10, 20, 5), 0);
    assert_eq!(time_weighted_refund(i128::MAX, 0, 10, 5), i128::MAX / 10);
    assert_eq!(
        time_weighted_refund(1_000, 0, u64::MAX, u64::MAX - 1),
        0
    );
}

#[test]
fn the_owner_is_paid_first_and_the_last_funder_gets_the_rest() {
    let env = env();
    let mut terms = policy(RefundPolicyType::PenaltyOnCancel);
    terms.penalty_bps = 1_000;
    let mut cancelled = grant(&env, 1_000, &[100, 200, 400]);
    let refund = execute_refund(&mut cancelled, &Some(terms), ID, &OWNER, 0)
        .ok()
        .unwrap();
    assert_eq!(refund.calculation.funder_refund, 900);
    assert_eq!(
        refund.transfers,
        vec![
            pay(Payee::Owner(OWNER), 100),
            pay(Payee::Funder(0), 128),
            pay(Payee::Funder(1), 257),
            pay(Payee::Funder(2), 515),
        ]
    );
    let total: i128 = refund.transfers.iter().map(|t| t.amount).sum();
    assert_eq!(total, 1_000);
    let after = cancelled.as_ref().unwrap();
    assert_eq!(after.escrow_balance, 0);
    assert_eq!(after.funders.len(), 3);

    // A second time nothing is left to pay
    let again = execute_refund(&mut cancelled, &Some(terms), ID, &OWNER, 0)
        .ok()
        .unwrap();
    assert!(again.transfers.is_empty());
}

#[test]
fn funders_who_are_due_nothing_are_skipped() {
    let env = env();
    let mut cancelled = grant(&env, 10, &[0, 30, -5, 5]);
    let refund = execute_refund(&mut cancelled, &None, ID, &OWNER, 0)
        .ok()
        .unwrap();
    assert_eq!(refund.transfers, vec![pay(Payee::Funder(1), 10)]);
}

#[test]
fn a_refund_stays_where_nobody_paid_in() {
    let env = env();
    for funds in [vec![], vec![0, 0], vec![5, -5]] {
        let mut cancelled = grant(&env, 10, &funds);
        let refund = execute_refund(&mut cancelled, &None, ID, &OWNER, 0)
            .ok()
            .unwrap();
        assert_eq!(refund.calculation.funder_refund, 10);
        assert!(refund.transfers.is_empty());
        assert_eq!(cancelled.unwrap().escrow_balance, 0);
    }
}

#[test]
fn funders_that_cannot_be_read_stop_a_refund() {
    let env = env();
    let mut raw: soroban_sdk::Vec<Val> = soroban_sdk::Vec::new(&env);
    raw.push_back(5i128.into_val(&env));
    raw.push_back(5u32.into_val(&env));
    let mut broken = grant(&env, 10, &[]).unwrap();
    broken.funders = raw.to_val().into_val(&env);
    let mut broken = Some(broken);
    assert!(checked_execute_refund(&mut broken, &None, ID, &OWNER, 0).is_none());
    assert_eq!(broken.as_ref().unwrap().escrow_balance, 10);
    // The contributor can still be paid
    let terms = Some(policy(RefundPolicyType::Other(1)));
    let refund = checked_execute_refund(&mut broken, &terms, ID, &OWNER, 0)
        .unwrap()
        .ok()
        .unwrap();
    assert_eq!(refund.transfers, vec![pay(Payee::Owner(OWNER), 10)]);
}

#[test]
fn the_guard_answers_before_anything_else() {
    let env = env();
    let guard = Err(ContractError::Other(31));
    let mut cancelled = grant(&env, 10, &[10]);
    let result = guarded_execute_refund(guard, &mut cancelled, &None, ID, &OWNER, 0);
    assert!(matches!(result, Some(Err(ContractError::Other(31)))));
    assert_eq!(cancelled.as_ref().unwrap().escrow_balance, 10);
    // Even where there is no grant
    let result = guarded_execute_refund(guard, &mut None, &None, ID, &OWNER, 0);
    assert!(matches!(result, Some(Err(ContractError::Other(31)))));

    let result = guarded_execute_refund(Ok(()), &mut None, &None, ID, &OWNER, 0);
    assert!(matches!(result, Some(Err(ContractError::GrantNotFound))));
    let refund = guarded_execute_refund(Ok(()), &mut cancelled, &None, ID, &OWNER, 0)
        .unwrap()
        .ok()
        .unwrap();
    assert_eq!(refund.transfers, vec![pay(Payee::Funder(0), 10)]);
    assert_eq!(cancelled.unwrap().escrow_balance, 0);
}

#[test]
fn grants_have_keys_of_their_own() {
    assert_eq!(RefundKey::Policy(1), RefundKey::Policy(1));
    assert_ne!(RefundKey::Policy(1), RefundKey::Policy(2));
}
