//! How the escrow of a cancelled grant is divided between the funders and the
//! contributor, and paid out.
use vstd::prelude::*;

use crate::arith::{
    exact_portion, lemma_quotient_bounds, portion, saturated, saturating_add, saturating_sub,
};
use crate::host::{amount_list_get, amount_list_len, amounts};
use crate::types::{
    Address, ContractError, Grant, RefundCalculation, RefundPolicy, RefundPolicyType,
};

verus! {

/// A rate of one, in basis points.
pub const BPS: i128 = 10_000;

/// How much time a time-weighted refund allows for each milestone.
pub const MILESTONE_SPAN: u64 = 10_000;

/// Where the ledger keeps what this module stores.
#[derive(Clone, Copy, Debug, PartialEq, Eq, Structural)]
pub enum RefundKey {
    /// The refund policy of a grant.
    Policy(u64),
}

/// Who receives a payment.
#[derive(Clone, Copy, Debug, PartialEq, Eq, Structural)]
pub enum Payee {
    /// The owner of the grant.
    Owner(Address),
    /// The funder at a position in the grant's list of funders.
    Funder(u32),
}

/// A payment out of the escrow.
#[derive(Clone, Copy, Debug, PartialEq, Eq, Structural)]
pub struct Transfer {
    pub token: Address,
    pub to: Payee,
    pub amount: i128,
}

/// What a cancelled grant pays out, and why.
pub struct Refund {
    pub calculation: RefundCalculation,
    /// The payments, in the order in which they are made.
    pub transfers: Vec<Transfer>,
}

/// The policy of a grant for which none was stored.
pub open spec fn default_policy(grant_id: u64) -> RefundPolicy {
    RefundPolicy {
        grant_id,
        policy_type: RefundPolicyType::FullRefund,
        penalty_bps: 0,
        grace_period_ledgers: 0,
        min_refund_pct_bps: 0,
    }
}

/// The policy that applies to a grant.
pub open spec fn effective_policy(stored: Option<RefundPolicy>, grant_id: u64) -> RefundPolicy {
    match stored {
        Some(policy) => policy,
        None => default_policy(grant_id),
    }
}

/// A point in time, or the last one that a clock can show.
pub open spec fn clock(time: int) -> int {
    if time > u64::MAX {
        u64::MAX as int
    } else {
        time
    }
}

/// Whether everything goes back because the grant is still young.
pub open spec fn in_grace_period(grant: Grant, policy: RefundPolicy, now: u64) -> bool {
    policy.grace_period_ledgers > 0 && now < clock(grant.timestamp + policy.grace_period_ledgers)
}

/// The share of `gross` that the time left bears to the time from start to end.
pub open spec fn time_weighted(gross: int, start_time: int, end_time: int, current_time: int) -> int {
    if gross <= 0 || end_time <= start_time || current_time >= end_time {
        0
    } else if current_time <= start_time {
        gross
    } else {
        portion(gross, end_time - current_time, end_time - start_time)
    }
}

/// How many milestones were not paid out.
pub open spec fn milestones_left(grant: Grant) -> int {
    if grant.milestones_paid_out <= grant.total_milestones {
        grant.total_milestones - grant.milestones_paid_out
    } else {
        0
    }
}

/// What a policy sends back to the funders, before the guaranteed minimum.
pub open spec fn policy_refund(grant: Grant, policy: RefundPolicy, now: u64) -> int {
    let gross = grant.escrow_balance as int;
    match policy.policy_type {
        RefundPolicyType::FullRefund => gross,
        RefundPolicyType::ProportionalToRemaining => if grant.total_milestones == 0 {
            0
        } else {
            portion(gross, milestones_left(grant), grant.total_milestones as int)
        },
        RefundPolicyType::TimeWeighted => time_weighted(
            gross,
            grant.timestamp as int,
            clock(grant.timestamp + grant.total_milestones * MILESTONE_SPAN),
            now as int,
        ),
        RefundPolicyType::PenaltyOnCancel => saturated(
            gross - portion(gross, policy.penalty_bps as int, BPS as int),
        ),
        RefundPolicyType::Other(_) => 0,
    }
}

/// The policy that the division is put down to.
pub open spec fn policy_applied(grant: Grant, policy: RefundPolicy, now: u64) -> RefundPolicyType {
    if in_grace_period(grant, policy, now) {
        RefundPolicyType::FullRefund
    } else {
        policy.policy_type
    }
}

/// What goes back to the funders in any case.
pub open spec fn guaranteed_minimum(grant: Grant, policy: RefundPolicy) -> int {
    portion(grant.escrow_balance as int, policy.min_refund_pct_bps as int, BPS as int)
}

/// What goes back to the funders: what the policy says, but no less than the
/// guaranteed minimum and no more than there is.
pub open spec fn funder_refund(grant: Grant, policy: RefundPolicy, now: u64) -> int {
    let gross = grant.escrow_balance as int;
    let raw = if in_grace_period(grant, policy, now) {
        gross
    } else {
        policy_refund(grant, policy, now)
    };
    let floor = guaranteed_minimum(grant, policy);
    let wanted = if raw >= floor {
        raw
    } else {
        floor
    };
    if wanted <= gross {
        wanted
    } else {
        gross
    }
}

/// Whether `calc` is how the escrow of a grant is divided.
pub open spec fn divides_escrow(
    grant: Grant,
    policy: RefundPolicy,
    now: u64,
    calc: RefundCalculation,
) -> bool {
    &&& calc.gross_escrow == grant.escrow_balance
    &&& calc.funder_refund == funder_refund(grant, policy, now)
    &&& calc.contributor_compensation == grant.escrow_balance - funder_refund(grant, policy, now)
    &&& calc.penalty_amount == calc.contributor_compensation
    &&& calc.policy_applied == policy_applied(grant, policy, now)
}

/// Whether every element of a list of funders can be read as an amount.
pub open spec fn readable(funders: Seq<Option<i128>>) -> bool {
    forall|i: int| 0 <= i < funders.len() ==> #[trigger] funders[i] is Some
}

/// What the funder at position `i` paid in.
pub open spec fn paid_in(funders: Seq<Option<i128>>, i: int) -> int {
    funders[i]->0 as int
}

/// What the first `n` funders paid in, added up one by one.
pub open spec fn total_paid_in(funders: Seq<Option<i128>>, n: int) -> int
    decreases n,
{
    if n <= 0 {
        0
    } else {
        saturated(total_paid_in(funders, n - 1) + paid_in(funders, n - 1))
    }
}

/// The share of a refund that is due to the funder at position `i` by what the
/// funder paid in.
pub open spec fn proportional_share(funders: Seq<Option<i128>>, refund: int, i: int) -> int {
    portion(paid_in(funders, i), refund, total_paid_in(funders, funders.len() as int))
}

/// What the first `n` funders receive by what they paid in.
pub open spec fn paid_out(funders: Seq<Option<i128>>, refund: int, n: int) -> int
    decreases n,
{
    if n <= 0 {
        0
    } else if proportional_share(funders, refund, n - 1) > 0 {
        saturated(paid_out(funders, refund, n - 1) + proportional_share(funders, refund, n - 1))
    } else {
        paid_out(funders, refund, n - 1)
    }
}

/// What the funder at position `i` is due: the last one gets all that is left,
/// every other one the proportional share.
pub open spec fn amount_due(funders: Seq<Option<i128>>, refund: int, i: int) -> int {
    if i + 1 == funders.len() {
        saturated(refund - paid_out(funders, refund, i))
    } else {
        proportional_share(funders, refund, i)
    }
}

/// The payments to the first `n` funders.
pub open spec fn funder_transfers(
    token: Address,
    funders: Seq<Option<i128>>,
    refund: int,
    n: int,
) -> Seq<Transfer>
    decreases n,
{
    if n <= 0 {
        Seq::empty()
    } else {
        let earlier = funder_transfers(token, funders, refund, n - 1);
        let due = amount_due(funders, refund, n - 1);
        if due > 0 {
            earlier.push(
                Transfer { token, to: Payee::Funder((n - 1) as u32), amount: due as i128 },
            )
        } else {
            earlier
        }
    }
}

/// The payment to the owner, if there is one.
pub open spec fn owner_transfers(grant: Grant, compensation: int) -> Seq<Transfer> {
    if compensation > 0 {
        seq![
            Transfer {
                token: grant.token,
                to: Payee::Owner(grant.owner),
                amount: compensation as i128,
            },
        ]
    } else {
        Seq::empty()
    }
}

/// The payments that a division of the escrow leads to.
pub open spec fn refund_transfers(grant: Grant, calc: RefundCalculation) -> Seq<Transfer> {
    let funders = amounts(grant.funders);
    owner_transfers(grant, calc.contributor_compensation as int) + if calc.funder_refund > 0
        && total_paid_in(funders, funders.len() as int) > 0 {
        funder_transfers(grant.token, funders, calc.funder_refund as int, funders.len() as int)
    } else {
        Seq::empty()
    }
}

/// The answer to a request to store a policy.
pub open spec fn policy_answer(
    grant: Option<Grant>,
    owner: Address,
    grant_id: u64,
    policy: RefundPolicy,
) -> Result<(), ContractError> {
    match grant {
        None => Err(ContractError::GrantNotFound),
        Some(grant) => if grant.owner != owner || policy.grant_id != grant_id
            || grant.escrow_balance > 0 {
            Err(ContractError::InvalidInput)
        } else {
            Ok(())
        },
    }
}

/// Store the refund policy of a grant. Only its owner may do so, and only while
/// nothing is in escrow.
///
/// `stored` is what the ledger holds at `RefundKey::Policy(grant_id)`, and
/// `grant` what it holds of that grant.
pub fn set_policy(
    stored: &mut Option<RefundPolicy>,
    grant: &Option<Grant>,
    owner: &Address,
    grant_id: u64,
    policy: RefundPolicy,
) -> (result: Result<(), ContractError>)
    ensures
        result == match *grant {
            None => Err::<(), ContractError>(ContractError::GrantNotFound),
            Some(grant) => if grant.owner != *owner || policy.grant_id != grant_id
                || grant.escrow_balance > 0 {
                Err(ContractError::InvalidInput)
            } else {
                Ok(())
            },
        },
        result == policy_answer(*grant, *owner, grant_id, policy),
        *final(stored) == if result is Ok {
            Some(policy)
        } else {
            *old(stored)
        },
{
    match grant {
        None => Err(ContractError::GrantNotFound),
        Some(grant) => {
            if grant.owner != *owner || policy.grant_id != grant_id || grant.escrow_balance > 0 {
                return Err(ContractError::InvalidInput);
            }
            *stored = Some(policy);
            Ok(())
        },
    }
}

/// Whether a refund policy was stored for a grant, as opposed to the default that
/// `get_policy` makes up where none was.
pub fn has_policy(stored: &Option<RefundPolicy>) -> (result: bool)
    ensures
        result == (*stored is Some),
{
    stored.is_some()
}

/// The refund policy of a grant: the stored one, or a full refund.
pub fn get_policy(stored: &Option<RefundPolicy>, grant_id: u64) -> (policy: RefundPolicy)
    ensures
        policy == effective_policy(*stored, grant_id),
{
    match stored {
        Some(policy) => *policy,
        None => RefundPolicy {
            grant_id,
            policy_type: RefundPolicyType::FullRefund,
            penalty_bps: 0,
            grace_period_ledgers: 0,
            min_refund_pct_bps: 0,
        },
    }
}

/// The share of `gross` that the time left bears to the time from start to end.
pub fn time_weighted_refund(
    gross: i128,
    start_time: u64,
    end_time: u64,
    current_time: u64,
) -> (refund: i128)
    ensures
        refund == time_weighted(
            gross as int,
            start_time as int,
            end_time as int,
            current_time as int,
        ),
{
    if gross <= 0 || end_time <= start_time || current_time >= end_time {
        return 0;
    }
    if current_time <= start_time {
        return gross;
    }
    exact_portion(gross, (end_time - current_time) as i128, (end_time - start_time) as i128)
}

/// Divide the escrow of a cancelled grant by its refund policy.
///
/// `grant` is what the ledger holds of the grant, and `stored` what it holds at
/// `RefundKey::Policy(grant_id)`. Who cancels makes no difference.
pub fn calculate_refund(
    grant: &Option<Grant>,
    stored: &Option<RefundPolicy>,
    grant_id: u64,
    _canceller: &Address,
    now: u64,
) -> (result: Result<RefundCalculation, ContractError>)
    ensures
        match *grant {
            None => result == Err::<RefundCalculation, ContractError>(ContractError::GrantNotFound),
            Some(grant) => result matches Ok(calc) && divides_escrow(
                grant,
                effective_policy(*stored, grant_id),
                now,
                calc,
            ),
        },
{
    let grant = match grant {
        None => return Err(ContractError::GrantNotFound),
        Some(grant) => grant,
    };
    let policy = get_policy(stored, grant_id);
    let gross: i128 = grant.escrow_balance;
    let start: u64 = grant.timestamp;
    let mut applied = policy.policy_type;
    let raw: i128 = if policy.grace_period_ledgers > 0 && now < start.saturating_add(
        policy.grace_period_ledgers as u64,
    ) {
        applied = RefundPolicyType::FullRefund;
        gross
    } else {
        match policy.policy_type {
            RefundPolicyType::FullRefund => gross,
            RefundPolicyType::ProportionalToRemaining => {
                if grant.total_milestones == 0 {
                    0
                } else {
                    let left: u32 = grant.total_milestones.saturating_sub(grant.milestones_paid_out);
                    exact_portion(gross, left as i128, grant.total_milestones as i128)
                }
            },
            RefundPolicyType::TimeWeighted => {
                let span: u64 = grant.total_milestones as u64 * MILESTONE_SPAN;
                time_weighted_refund(gross, start, start.saturating_add(span), now)
            },
            RefundPolicyType::PenaltyOnCancel => saturating_sub(
                gross,
                exact_portion(gross, policy.penalty_bps as i128, BPS),
            ),
            RefundPolicyType::Other(_) => 0,
        }
    };
    let floor: i128 = exact_portion(gross, policy.min_refund_pct_bps as i128, BPS);
    let wanted: i128 = if raw >= floor {
        raw
    } else {
        floor
    };
    let funder_refund: i128 = if wanted <= gross {
        wanted
    } else {
        gross
    };
    let contributor_compensation: i128 = saturating_sub(gross, funder_refund);
    proof {
        lemma_refund_bounds(*grant, policy, now);
    }
    Ok(
        RefundCalculation {
            gross_escrow: gross,
            funder_refund,
            contributor_compensation,
            penalty_amount: contributor_compensation,
            policy_applied: applied,
        },
    )
}

/// What goes back never exceeds the escrow and is never negative, but for an
/// escrow that is itself negative: all of that counts as going back.
pub(crate) proof fn lemma_refund_bounds(grant: Grant, policy: RefundPolicy, now: u64)
    ensures
        funder_refund(grant, policy, now) <= grant.escrow_balance,
        grant.escrow_balance >= 0 ==> funder_refund(grant, policy, now) >= 0,
        grant.escrow_balance < 0 ==> funder_refund(grant, policy, now) == grant.escrow_balance,
{
    let gross = grant.escrow_balance as int;
    if gross >= 0 {
        lemma_portion_of_credit(gross, policy.min_refund_pct_bps as int, BPS as int);
    } else {
        match policy.policy_type {
            RefundPolicyType::ProportionalToRemaining => {
                if grant.total_milestones > 0 {
                    lemma_portion_of_debt(
                        gross,
                        milestones_left(grant),
                        grant.total_milestones as int,
                    );
                }
            },
            RefundPolicyType::PenaltyOnCancel => {
                lemma_portion_of_debt(gross, policy.penalty_bps as int, BPS as int);
            },
            _ => {},
        }
    }
}

/// A portion of what is not negative is not negative, and by its rate no more
/// than the exact share.
pub(crate) proof fn lemma_portion_of_credit(amount: int, share: int, whole: int)
    requires
        amount >= 0,
        share >= 0,
        whole > 0,
    ensures
        0 <= portion(amount, share, whole),
        portion(amount, share, whole) * whole <= amount * share,
        share <= whole ==> portion(amount, share, whole) <= amount,
{
    let product = amount * share;
    assert(product >= 0) by (nonlinear_arith)
        requires
            product == amount * share,
            amount >= 0,
            share >= 0,
    ;
    lemma_quotient_bounds(saturated(product), whole);
    if share <= whole {
        let part = portion(amount, share, whole);
        assert(part <= amount) by (nonlinear_arith)
            requires
                part * whole <= amount * share,
                share <= whole,
                amount >= 0,
                whole > 0,
        ;
    }
}

/// A portion of what is negative is not positive, and by a rate of at most one
/// no less than the whole.
proof fn lemma_portion_of_debt(amount: int, share: int, whole: int)
    requires
        amount <= 0,
        share >= 0,
        whole > 0,
    ensures
        portion(amount, share, whole) <= 0,
        share <= whole ==> amount <= portion(amount, share, whole),
{
    let product = amount * share;
    assert(product <= 0) by (nonlinear_arith)
        requires
            product == amount * share,
            amount <= 0,
            share >= 0,
    ;
    lemma_quotient_bounds(saturated(product), whole);
    if share <= whole {
        let debt = -saturated(product);
        lemma_quotient_bounds(debt, whole);
        let part = debt / whole;
        assert(debt <= (-amount) * share) by (nonlinear_arith)
            requires
                debt <= -product,
                product == amount * share,
        ;
        assert(part <= -amount) by (nonlinear_arith)
            requires
                part * whole <= debt,
                debt <= (-amount) * share,
                share <= whole,
                amount <= 0,
                whole > 0,
        ;
    }
}

/// Whether every element of a list of funders can be read as an amount.
fn funders_readable(funders: &soroban_sdk::Vec<i128>) -> (result: bool)
    ensures
        result == readable(amounts(*funders)),
{
    let len: u32 = amount_list_len(funders);
    let mut i: u32 = 0;
    while i < len
        invariant
            len == amounts(*funders).len(),
            i <= len,
            forall|j: int| 0 <= j < i ==> #[trigger] amounts(*funders)[j] is Some,
        decreases len - i,
    {
        if amount_list_get(funders, i).is_none() {
            return false;
        }
        i = i + 1;
    }
    true
}

/// What all funders paid in.
fn sum_of_funds(funders: &soroban_sdk::Vec<i128>) -> (total: i128)
    requires
        readable(amounts(*funders)),
    ensures
        total == total_paid_in(amounts(*funders), amounts(*funders).len() as int),
{
    let len: u32 = amount_list_len(funders);
    let mut total: i128 = 0;
    let mut i: u32 = 0;
    while i < len
        invariant
            len == amounts(*funders).len(),
            i <= len,
            readable(amounts(*funders)),
            total == total_paid_in(amounts(*funders), i as int),
        decreases len - i,
    {
        if let Some(amount) = amount_list_get(funders, i) {
            total = saturating_add(total, amount);
        }
        i = i + 1;
    }
    total
}

/// Whether a grant can be cancelled: where the funders are owed anything, each of
/// their amounts must be readable.
pub open spec fn refundable(
    grant: Option<Grant>,
    stored: Option<RefundPolicy>,
    grant_id: u64,
    now: u64,
) -> bool {
    grant matches Some(g) ==> (funder_refund(g, effective_policy(stored, grant_id), now) > 0
        ==> readable(amounts(g.funders)))
}

/// What cancelling a grant leads to: the escrow is divided by the policy, the
/// payments follow from the division, and nothing is left in escrow.
pub open spec fn executes_refund(
    grant: Grant,
    stored: Option<RefundPolicy>,
    grant_id: u64,
    now: u64,
    after: Option<Grant>,
    refund: Refund,
) -> bool {
    &&& divides_escrow(grant, effective_policy(stored, grant_id), now, refund.calculation)
    &&& refund.transfers@ == refund_transfers(grant, refund.calculation)
    &&& after == Some(Grant { escrow_balance: 0, ..grant })
}

/// Cancel a grant: empty its escrow, and say which payments that leads to. The
/// contributor is paid first, then the funders in the order of the list.
///
/// `grant` is what the ledger holds of the grant, and `stored` what it holds at
/// `RefundKey::Policy(grant_id)`. Where the funders can be paid, each of their
/// amounts must be readable.
pub fn execute_refund(
    grant: &mut Option<Grant>,
    stored: &Option<RefundPolicy>,
    grant_id: u64,
    canceller: &Address,
    now: u64,
) -> (result: Result<Refund, ContractError>)
    requires
        refundable(*old(grant), *stored, grant_id, now),
    ensures
        match *old(grant) {
            None => {
                &&& result == Err::<Refund, ContractError>(ContractError::GrantNotFound)
                &&& *final(grant) == *old(grant)
            },
            Some(g) => {
                &&& result matches Ok(refund)
                &&& executes_refund(g, *stored, grant_id, now, *final(grant), refund)
            },
        },
{
    let calc = match calculate_refund(&*grant, stored, grant_id, canceller, now) {
        Ok(calc) => calc,
        Err(error) => return Err(error),
    };
    let mut transfers: Vec<Transfer> = Vec::new();
    match grant {
        None => return Err(ContractError::GrantNotFound),
        Some(g) => {
            g.escrow_balance = 0;
            if calc.contributor_compensation > 0 {
                transfers.push(
                    Transfer {
                        token: g.token,
                        to: Payee::Owner(g.owner),
                        amount: calc.contributor_compensation,
                    },
                );
            }
            if calc.funder_refund > 0 {
                pay_funders(g.token, &g.funders, calc.funder_refund, &mut transfers);
            }
        },
    }
    Ok(Refund { calculation: calc, transfers })
}

/// Append the payments of a refund to the funders, where these paid in anything.
fn pay_funders(
    token: Address,
    funders: &soroban_sdk::Vec<i128>,
    refund: i128,
    transfers: &mut Vec<Transfer>,
)
    requires
        refund > 0,
        readable(amounts(*funders)),
    ensures
        final(transfers)@ == old(transfers)@ + if total_paid_in(
            amounts(*funders),
            amounts(*funders).len() as int,
        ) > 0 {
            funder_transfers(
                token,
                amounts(*funders),
                refund as int,
                amounts(*funders).len() as int,
            )
        } else {
            Seq::empty()
        },
{
    let ghost list = amounts(*funders);
    let ghost before = transfers@;
    let total: i128 = sum_of_funds(funders);
    if total <= 0 {
        assert(transfers@ =~= before + Seq::<Transfer>::empty());
        return;
    }
    let len: u32 = amount_list_len(funders);
    let mut paid: i128 = 0;
    let mut i: u32 = 0;
    assert(transfers@ =~= before + funder_transfers(token, list, refund as int, 0));
    while i < len
        invariant
            list == amounts(*funders),
            len == list.len(),
            i <= len,
            readable(list),
            total == total_paid_in(list, list.len() as int),
            total > 0,
            i < len ==> paid == paid_out(list, refund as int, i as int),
            transfers@ == before + funder_transfers(token, list, refund as int, i as int),
        decreases len - i,
    {
        let contribution: i128 = match amount_list_get(funders, i) {
            Some(amount) => amount,
            None => 0,
        };
        let amount: i128 = if i + 1 == len {
            saturating_sub(refund, paid)
        } else {
            exact_portion(contribution, refund, total)
        };
        assert(amount == amount_due(list, refund as int, i as int));
        if amount > 0 {
            transfers.push(Transfer { token, to: Payee::Funder(i), amount });
            paid = saturating_add(paid, amount);
        }
        i = i + 1;
        assert(transfers@ =~= before + funder_transfers(token, list, refund as int, i as int));
    }
}

/// Cancel a grant, as `execute_refund` does, or do nothing and return `None` where
/// the funders cannot be read.
pub fn checked_execute_refund(
    grant: &mut Option<Grant>,
    stored: &Option<RefundPolicy>,
    grant_id: u64,
    canceller: &Address,
    now: u64,
) -> (result: Option<Result<Refund, ContractError>>)
    ensures
        result is Some <==> refundable(*old(grant), *stored, grant_id, now),
        result is None ==> *final(grant) == *old(grant),
        result matches Some(outcome) ==> match *old(grant) {
            None => {
                &&& outcome == Err::<Refund, ContractError>(ContractError::GrantNotFound)
                &&& *final(grant) == *old(grant)
            },
            Some(g) => {
                &&& outcome matches Ok(refund)
                &&& executes_refund(g, *stored, grant_id, now, *final(grant), refund)
            },
        },
{
    if let Ok(calc) = calculate_refund(&*grant, stored, grant_id, canceller, now) {
        if let Some(g) = &*grant {
            if calc.funder_refund > 0 && !funders_readable(&g.funders) {
                return None;
            }
        }
    }
    Some(execute_refund(grant, stored, grant_id, canceller, now))
}

/// Cancel a grant behind a guard against a call that comes back into the contract.
/// Where the guard refuses, its error is the answer before anything else: nothing
/// is paid and the grant stays as it is. Otherwise this is
/// `checked_execute_refund`.
pub fn guarded_execute_refund(
    guard: Result<(), ContractError>,
    grant: &mut Option<Grant>,
    stored: &Option<RefundPolicy>,
    grant_id: u64,
    canceller: &Address,
    now: u64,
) -> (result: Option<Result<Refund, ContractError>>)
    ensures
        guard matches Err(error) ==> {
            &&& result == Some(Err::<Refund, ContractError>(error))
            &&& *final(grant) == *old(grant)
        },
        guard is Ok ==> {
            &&& result is Some <==> refundable(*old(grant), *stored, grant_id, now)
            &&& result is None ==> *final(grant) == *old(grant)
            &&& result matches Some(outcome) ==> match *old(grant) {
                None => {
                    &&& outcome == Err::<Refund, ContractError>(ContractError::GrantNotFound)
                    &&& *final(grant) == *old(grant)
                },
                Some(g) => {
                    &&& outcome matches Ok(refund)
                    &&& executes_refund(g, *stored, grant_id, now, *final(grant), refund)
                },
            }
        },
{
    if let Err(error) = guard {
        return Some(Err(error));
    }
    checked_execute_refund(grant, stored, grant_id, canceller, now)
}

} // verus!
