//! What holds of every refund.
use vstd::prelude::*;

use crate::arith::{lemma_quotient_bounds, portion, saturated};
use crate::host::amounts;
use crate::refund::{
    amount_due, divides_escrow, effective_policy, executes_refund, funder_transfers,
    guaranteed_minimum, in_grace_period, lemma_portion_of_credit, lemma_refund_bounds,
    milestones_left, owner_transfers, paid_in, paid_out, policy_answer, policy_refund, proportional_share,
    refund_transfers, refundable, time_weighted, total_paid_in, Payee, Refund, Transfer, BPS,
};
use crate::types::{
    Address, ContractError, Grant, RefundCalculation, RefundPolicy, RefundPolicyType,
};

verus! {

/// What the payments come to.
pub open spec fn total_of(transfers: Seq<Transfer>) -> int
    decreases transfers.len(),
{
    if transfers.len() == 0 {
        0
    } else {
        total_of(transfers.drop_last()) + transfers.last().amount
    }
}

/// What the first `n` funders paid in.
pub open spec fn exact_total(funders: Seq<Option<i128>>, n: int) -> int
    decreases n,
{
    if n <= 0 {
        0
    } else {
        exact_total(funders, n - 1) + funders[n - 1]->0
    }
}

/// What goes to the funders and what goes to the contributor add up to the
/// escrow. Neither part of an escrow is negative, so neither exceeds it.
pub proof fn law_escrow_is_divided(
    grant: Grant,
    policy: RefundPolicy,
    now: u64,
    calc: RefundCalculation,
)
    requires
        divides_escrow(grant, policy, now, calc),
    ensures
        calc.funder_refund + calc.contributor_compensation == calc.gross_escrow,
        calc.contributor_compensation >= 0,
        calc.gross_escrow >= 0 ==> calc.funder_refund >= 0,
{
    lemma_refund_bounds(grant, policy, now);
}

/// The funders get back at least the guaranteed minimum, or all that there is.
pub proof fn law_minimum_is_kept(
    grant: Grant,
    policy: RefundPolicy,
    now: u64,
    calc: RefundCalculation,
)
    requires
        divides_escrow(grant, policy, now, calc),
    ensures
        calc.funder_refund >= guaranteed_minimum(grant, policy) || calc.funder_refund
            == calc.gross_escrow,
        grant.escrow_balance >= 0 && policy.min_refund_pct_bps <= BPS ==> calc.funder_refund
            >= guaranteed_minimum(grant, policy),
{
    if grant.escrow_balance >= 0 {
        lemma_portion_of_credit(
            grant.escrow_balance as int,
            policy.min_refund_pct_bps as int,
            BPS as int,
        );
    }
}

/// During the grace period everything goes back, whatever the policy. The period
/// lasts from the start of the grant for as long as the policy says, or to the last
/// time that a clock can show.
pub proof fn law_grace_period_refunds_all(
    grant: Grant,
    policy: RefundPolicy,
    now: u64,
    calc: RefundCalculation,
)
    requires
        divides_escrow(grant, policy, now, calc),
        policy.grace_period_ledgers > 0,
        now < grant.timestamp + policy.grace_period_ledgers,
        now < u64::MAX,
    ensures
        calc.funder_refund == calc.gross_escrow,
        calc.contributor_compensation == 0,
        calc.policy_applied == RefundPolicyType::FullRefund,
{
}

/// A grant without a policy of its own refunds everything.
pub proof fn law_default_refunds_all(
    grant: Grant,
    grant_id: u64,
    now: u64,
    calc: RefundCalculation,
)
    requires
        divides_escrow(grant, effective_policy(None, grant_id), now, calc),
    ensures
        calc.funder_refund == calc.gross_escrow,
        calc.contributor_compensation == 0,
        calc.policy_applied == RefundPolicyType::FullRefund,
{
}

/// A policy is read back as it was stored. Where none was stored, a full refund for
/// the grant is read.
pub proof fn law_policy_reads_back(policy: RefundPolicy, grant_id: u64)
    ensures
        effective_policy(Some(policy), grant_id) == policy,
        effective_policy(None, grant_id).policy_type == RefundPolicyType::FullRefund,
        effective_policy(None, grant_id).grant_id == grant_id,
        effective_policy(None, grant_id).penalty_bps == 0,
        effective_policy(None, grant_id).grace_period_ledgers == 0,
        effective_policy(None, grant_id).min_refund_pct_bps == 0,
{
}

/// A time-weighted refund lies between nothing and everything: everything until
/// the start, nothing from the end on.
pub proof fn law_time_weighted_bounds(
    gross: i128,
    start_time: u64,
    end_time: u64,
    current_time: u64,
)
    ensures
        gross >= 0 ==> 0 <= time_weighted(
            gross as int,
            start_time as int,
            end_time as int,
            current_time as int,
        ) <= gross,
        gross >= 0 && current_time <= start_time < end_time ==> time_weighted(
            gross as int,
            start_time as int,
            end_time as int,
            current_time as int,
        ) == gross,
        current_time >= end_time ==> time_weighted(
            gross as int,
            start_time as int,
            end_time as int,
            current_time as int,
        ) == 0,
{
    if gross > 0 && start_time < current_time < end_time {
        lemma_portion_of_credit(
            gross as int,
            end_time - current_time,
            end_time - start_time,
        );
    }
}

/// A time-weighted refund never grows as time passes.
pub proof fn law_time_weighted_falls(
    gross: i128,
    start_time: u64,
    end_time: u64,
    earlier: u64,
    later: u64,
)
    requires
        earlier <= later,
    ensures
        time_weighted(gross as int, start_time as int, end_time as int, later as int)
            <= time_weighted(gross as int, start_time as int, end_time as int, earlier as int),
{
    law_time_weighted_bounds(gross, start_time, end_time, earlier);
    law_time_weighted_bounds(gross, start_time, end_time, later);
    if gross > 0 && start_time < earlier && later < end_time {
        lemma_portion_grows(
            gross as int,
            end_time - later,
            end_time - earlier,
            end_time - start_time,
        );
    }
}

/// The more milestones were paid out, the less a proportional refund sends back.
/// With all of them paid out it sends back nothing, and with none of them
/// everything, as long as the product of escrow and milestones is an amount.
pub proof fn law_proportional_refund_falls(
    grant: Grant,
    policy: RefundPolicy,
    now: u64,
    paid: u32,
    more_paid: u32,
)
    requires
        policy.policy_type == RefundPolicyType::ProportionalToRemaining,
        grant.escrow_balance >= 0,
        paid <= more_paid,
    ensures
        policy_refund((Grant { milestones_paid_out: more_paid, ..grant }), policy, now)
            <= policy_refund((Grant { milestones_paid_out: paid, ..grant }), policy, now),
        more_paid >= grant.total_milestones ==> policy_refund(
            (Grant { milestones_paid_out: more_paid, ..grant }),
            policy,
            now,
        ) == 0,
        paid == 0 && grant.total_milestones > 0 && grant.escrow_balance * grant.total_milestones
            <= i128::MAX ==> policy_refund(
            (Grant { milestones_paid_out: paid, ..grant }),
            policy,
            now,
        ) == grant.escrow_balance,
{
    let gross = grant.escrow_balance as int;
    let whole = grant.total_milestones as int;
    if whole > 0 {
        let before = milestones_left(Grant { milestones_paid_out: paid, ..grant });
        let after = milestones_left(Grant { milestones_paid_out: more_paid, ..grant });
        lemma_portion_grows(gross, after, before, whole);
        if paid == 0 && gross * whole <= i128::MAX {
            assert(gross * whole >= 0) by (nonlinear_arith)
                requires
                    gross >= 0,
                    whole > 0,
            ;
            assert((gross * whole) / whole == gross) by (nonlinear_arith)
                requires
                    whole > 0,
            ;
        }
    }
}

/// A larger share of an amount is a larger portion, and no share is none.
proof fn lemma_portion_grows(amount: int, smaller: int, larger: int, whole: int)
    requires
        amount >= 0,
        0 <= smaller <= larger,
        whole > 0,
    ensures
        portion(amount, smaller, whole) <= portion(amount, larger, whole),
        smaller == 0 ==> portion(amount, smaller, whole) == 0,
{
    let low = saturated(amount * smaller);
    let high = saturated(amount * larger);
    assert(0 <= amount * smaller <= amount * larger) by (nonlinear_arith)
        requires
            amount >= 0,
            0 <= smaller <= larger,
    ;
    assert(low / whole <= high / whole) by (nonlinear_arith)
        requires
            0 <= low <= high,
            whole > 0,
    ;
    if smaller == 0 {
        assert(amount * smaller == 0) by (nonlinear_arith)
            requires
                smaller == 0,
        ;
        lemma_quotient_bounds(0, whole);
    }
}

/// A grant with an empty escrow pays nothing. So cancelling a grant a second time
/// moves no money.
pub proof fn law_empty_escrow_pays_nothing(
    grant: Grant,
    policy: RefundPolicy,
    now: u64,
    calc: RefundCalculation,
)
    requires
        grant.escrow_balance <= 0,
        divides_escrow(grant, policy, now, calc),
    ensures
        calc.contributor_compensation == 0,
        calc.funder_refund <= 0,
        refund_transfers(grant, calc) == Seq::<Transfer>::empty(),
{
    lemma_refund_bounds(grant, policy, now);
}

/// What a funder is due is an amount.
proof fn lemma_due_is_amount(funders: Seq<Option<i128>>, refund: int, i: int)
    requires
        total_paid_in(funders, funders.len() as int) > 0,
    ensures
        i128::MIN <= amount_due(funders, refund, i) <= i128::MAX,
{
    lemma_quotient_bounds(
        saturated(paid_in(funders, i) * refund),
        total_paid_in(funders, funders.len() as int),
    );
}

/// The payments to funders are positive, and go to one funder after the other:
/// no funder is paid twice.
proof fn lemma_funder_transfers(token: Address, funders: Seq<Option<i128>>, refund: int, n: int)
    requires
        0 <= n <= funders.len() <= u32::MAX,
        total_paid_in(funders, funders.len() as int) > 0,
    ensures
        forall|k: int|
            #![trigger funder_transfers(token, funders, refund, n)[k]]
            0 <= k < funder_transfers(token, funders, refund, n).len() ==> {
                let transfer = funder_transfers(token, funders, refund, n)[k];
                &&& transfer.token == token
                &&& transfer.amount > 0
                &&& transfer.to matches Payee::Funder(i) && i < n && transfer.amount == amount_due(
                    funders,
                    refund,
                    i as int,
                )
            },
        forall|j: int, k: int|
            #![trigger funder_transfers(token, funders, refund, n)[j], funder_transfers(
                token,
                funders,
                refund,
                n,
            )[k]]
            0 <= j < k < funder_transfers(token, funders, refund, n).len() ==> funder_transfers(
                token,
                funders,
                refund,
                n,
            )[j].to->Funder_0 < funder_transfers(token, funders, refund, n)[k].to->Funder_0,
    decreases n,
{
    if n > 0 {
        lemma_funder_transfers(token, funders, refund, n - 1);
        lemma_due_is_amount(funders, refund, n - 1);
        let earlier = funder_transfers(token, funders, refund, n - 1);
        let all = funder_transfers(token, funders, refund, n);
        assert forall|k: int| 0 <= k < earlier.len() implies all[k] == earlier[k] by {}
    }
}

/// Every payment of a refund is positive and made in the grant's token. The owner
/// receives at most one, and it comes first; no funder receives two.
pub proof fn law_payments_are_sound(grant: Grant, calc: RefundCalculation)
    requires
        amounts(grant.funders).len() <= u32::MAX,
    ensures
        forall|k: int|
            #![trigger refund_transfers(grant, calc)[k]]
            0 <= k < refund_transfers(grant, calc).len() ==> {
                let transfer = refund_transfers(grant, calc)[k];
                &&& transfer.token == grant.token
                &&& transfer.amount > 0
                &&& match transfer.to {
                    Payee::Owner(owner) => k == 0 && owner == grant.owner,
                    Payee::Funder(i) => i < amounts(grant.funders).len(),
                }
            },
        forall|j: int, k: int|
            #![trigger refund_transfers(grant, calc)[j], refund_transfers(grant, calc)[k]]
            0 <= j < k < refund_transfers(grant, calc).len() ==> refund_transfers(grant, calc)[j].to
                != refund_transfers(grant, calc)[k].to,
{
    let funders = amounts(grant.funders);
    let first = owner_transfers(grant, calc.contributor_compensation as int);
    if calc.funder_refund > 0 && total_paid_in(funders, funders.len() as int) > 0 {
        let n = funders.len() as int;
        lemma_funder_transfers(grant.token, funders, calc.funder_refund as int, n);
        let rest = funder_transfers(grant.token, funders, calc.funder_refund as int, n);
        let all = refund_transfers(grant, calc);
        assert(all == first + rest);
        assert forall|k: int| first.len() <= k < all.len() implies #[trigger] all[k] == rest[k
            - first.len()] by {}
    }
}

/// What two runs of payments come to is what each of them comes to.
proof fn lemma_total_of_sum(first: Seq<Transfer>, rest: Seq<Transfer>)
    ensures
        total_of(first + rest) == total_of(first) + total_of(rest),
    decreases rest.len(),
{
    if rest.len() == 0 {
        assert(first + rest =~= first);
    } else {
        lemma_total_of_sum(first, rest.drop_last());
        assert((first + rest).drop_last() =~= first + rest.drop_last());
    }
}

/// Whether no funder paid in a negative amount.
pub open spec fn none_negative(funders: Seq<Option<i128>>) -> bool {
    forall|i: int| 0 <= i < funders.len() ==> (#[trigger] funders[i])->0 >= 0
}

/// Where the exact total fits, adding up one by one never saturates.
proof fn lemma_total_is_exact(funders: Seq<Option<i128>>, n: int)
    requires
        0 <= n <= funders.len(),
        none_negative(funders),
        exact_total(funders, funders.len() as int) <= i128::MAX,
    ensures
        total_paid_in(funders, n) == exact_total(funders, n),
        0 <= exact_total(funders, n) <= exact_total(funders, funders.len() as int),
    decreases n,
{
    lemma_exact_total_grows(funders, n, funders.len() as int);
    if n > 0 {
        lemma_total_is_exact(funders, n - 1);
    }
}

/// The exact total grows with the number of funders.
proof fn lemma_exact_total_grows(funders: Seq<Option<i128>>, m: int, n: int)
    requires
        0 <= m <= n <= funders.len(),
        none_negative(funders),
    ensures
        0 <= exact_total(funders, m) <= exact_total(funders, n),
    decreases n,
{
    if m < n {
        lemma_exact_total_grows(funders, m, n - 1);
        assert(funders[n - 1]->0 >= 0);
    } else if n > 0 {
        lemma_exact_total_grows(funders, m - 1, n - 1);
        assert(funders[n - 1]->0 >= 0);
    }
}

/// The first `n` funders, the last one left out, receive no more than their part
/// of the refund, and exactly what the payments to them come to.
proof fn lemma_paid_out(token: Address, funders: Seq<Option<i128>>, refund: int, n: int)
    requires
        0 <= n < funders.len() <= u32::MAX,
        none_negative(funders),
        0 < exact_total(funders, funders.len() as int) <= i128::MAX,
        0 < refund <= i128::MAX,
    ensures
        total_of(funder_transfers(token, funders, refund, n)) == paid_out(funders, refund, n),
        0 <= paid_out(funders, refund, n) <= refund,
        paid_out(funders, refund, n) * exact_total(funders, funders.len() as int) <= refund
            * exact_total(funders, n),
    decreases n,
{
    let total = exact_total(funders, funders.len() as int);
    lemma_total_is_exact(funders, funders.len() as int);
    if n == 0 {
        assert(refund * exact_total(funders, n) == 0) by (nonlinear_arith)
            requires
                exact_total(funders, n) == 0,
        ;
        assert(0 * total == 0);
    } else {
        lemma_paid_out(token, funders, refund, n - 1);
        lemma_exact_total_grows(funders, n, funders.len() as int);
        let contribution = paid_in(funders, n - 1);
        let share = proportional_share(funders, refund, n - 1);
        assert(funders[n - 1]->0 >= 0);
        lemma_portion_of_credit(contribution, refund, total);
        let before = paid_out(funders, refund, n - 1);
        let sum = before + share;
        assert(sum * total <= refund * exact_total(funders, n)) by (nonlinear_arith)
            requires
                before * total <= refund * exact_total(funders, n - 1),
                share * total <= contribution * refund,
                exact_total(funders, n) == exact_total(funders, n - 1) + contribution,
                sum == before + share,
        ;
        assert(sum <= refund) by (nonlinear_arith)
            requires
                sum * total <= refund * exact_total(funders, n),
                exact_total(funders, n) <= total,
                total > 0,
                refund > 0,
        ;
        lemma_due_is_amount(funders, refund, n - 1);
        let earlier = funder_transfers(token, funders, refund, n - 1);
        let all = funder_transfers(token, funders, refund, n);
        assert(amount_due(funders, refund, n - 1) == share);
        if share > 0 {
            assert(all.drop_last() =~= earlier);
        }
    }
}

/// The whole escrow is paid out: what the owner and the funders receive comes to
/// exactly the escrow. Where the funders are owed anything, this takes that they
/// paid in something, that none paid in a negative amount, and that what they
/// paid in is together still an amount.
pub proof fn law_payments_add_up(
    grant: Grant,
    policy: RefundPolicy,
    now: u64,
    calc: RefundCalculation,
)
    requires
        grant.escrow_balance >= 0,
        divides_escrow(grant, policy, now, calc),
        amounts(grant.funders).len() <= u32::MAX,
        calc.funder_refund > 0 ==> {
            &&& none_negative(amounts(grant.funders))
            &&& 0 < exact_total(amounts(grant.funders), amounts(grant.funders).len() as int)
                <= i128::MAX
        },
    ensures
        total_of(refund_transfers(grant, calc)) == grant.escrow_balance,
{
    law_escrow_is_divided(grant, policy, now, calc);
    let funders = amounts(grant.funders);
    let refund = calc.funder_refund as int;
    let compensation = calc.contributor_compensation as int;
    let first = owner_transfers(grant, compensation);
    assert(total_of(first) == compensation) by {
        reveal_with_fuel(total_of, 2);
        if compensation > 0 {
            assert(first.len() == 1 && first.last().amount == compensation);
            assert(first.drop_last().len() == 0);
        }
    }
    if refund > 0 {
        let n = funders.len() as int;
        lemma_total_is_exact(funders, n);
        lemma_paid_out(grant.token, funders, refund, n - 1);
        lemma_due_is_amount(funders, refund, n - 1);
        let earlier = funder_transfers(grant.token, funders, refund, n - 1);
        let rest = funder_transfers(grant.token, funders, refund, n);
        if amount_due(funders, refund, n - 1) > 0 {
            assert(rest.drop_last() =~= earlier);
        }
        assert(total_of(rest) == refund);
        lemma_total_of_sum(first, rest);
    } else {
        assert(refund_transfers(grant, calc) =~= first);
    }
}

/// The largest amount, where a product exceeds it.
pub open spec fn capped(product: int) -> int {
    if product > i128::MAX {
        i128::MAX as int
    } else {
        product
    }
}

/// A quotient that was rounded down is the only one.
proof fn lemma_floor_is_unique(x: int, divisor: int, a: int, b: int)
    requires
        divisor > 0,
        a * divisor <= x < (a + 1) * divisor,
        b * divisor <= x < (b + 1) * divisor,
    ensures
        a == b,
{
    assert(a == b) by (nonlinear_arith)
        requires
            divisor > 0,
            a * divisor <= x,
            x < (a + 1) * divisor,
            b * divisor <= x,
            x < (b + 1) * divisor,
    ;
}

/// A portion of what is not negative is the exact share, rounded down.
proof fn lemma_portion_rounds_down(amount: int, share: int, whole: int)
    requires
        amount >= 0,
        share >= 0,
        whole > 0,
    ensures
        portion(amount, share, whole) >= 0,
        portion(amount, share, whole) * whole <= capped(amount * share) < (portion(
            amount,
            share,
            whole,
        ) + 1) * whole,
{
    let product = amount * share;
    assert(product >= 0) by (nonlinear_arith)
        requires
            product == amount * share,
            amount >= 0,
            share >= 0,
    ;
    let x = saturated(product);
    let part = portion(amount, share, whole);
    lemma_quotient_bounds(x, whole);
    assert(part == x / whole);
    assert(x < (x / whole + 1) * whole) by (nonlinear_arith)
        requires
            whole > 0,
    ;
}

/// A time-weighted refund is the share of the amount that the time left bears to
/// the whole time, rounded down. Nothing goes back of nothing, or where there is no
/// time from start to end. A product past the largest amount counts as that amount.
pub proof fn law_time_weighted_is_proportional(
    gross: i128,
    start_time: u64,
    end_time: u64,
    current_time: u64,
    refund: int,
)
    requires
        refund == time_weighted(
            gross as int,
            start_time as int,
            end_time as int,
            current_time as int,
        ),
    ensures
        gross <= 0 || end_time <= start_time || current_time >= end_time ==> refund == 0,
        gross > 0 && current_time <= start_time < end_time ==> refund == gross,
        gross > 0 && start_time < current_time < end_time && gross * (end_time - current_time)
            <= i128::MAX ==> refund * (end_time - start_time) <= gross * (end_time - current_time)
            < (refund + 1) * (end_time - start_time),
        gross > 0 && start_time < current_time < end_time && gross * (end_time - current_time)
            > i128::MAX ==> refund * (end_time - start_time) <= i128::MAX < (refund + 1) * (end_time
            - start_time),
{
    if gross > 0 && start_time < current_time < end_time {
        lemma_portion_rounds_down(
            gross as int,
            end_time - current_time,
            end_time - start_time,
        );
    }
}

/// The refund of an escrow, after the grace period, written out for each policy.
///
/// `raw` is what the policy says, and `minimum` the guaranteed share, each of them
/// an exact share of the escrow rounded down: by the milestones left, by the time
/// left, or by a rate in ten thousandths. The funders get what the policy says, but
/// no less than the minimum, and no more than there is. The rest is the
/// contributor's.
pub proof fn law_refund_follows_policy(
    grant: Grant,
    policy: RefundPolicy,
    now: u64,
    calc: RefundCalculation,
    raw: int,
    minimum: int,
)
    requires
        divides_escrow(grant, policy, now, calc),
        grant.escrow_balance >= 0,
        policy.grace_period_ledgers == 0 || now >= grant.timestamp + policy.grace_period_ledgers
            || now == u64::MAX,
        minimum * 10_000 <= capped(grant.escrow_balance * policy.min_refund_pct_bps) < (minimum + 1)
            * 10_000,
        match policy.policy_type {
            RefundPolicyType::FullRefund => raw == grant.escrow_balance,
            RefundPolicyType::ProportionalToRemaining => if grant.total_milestones == 0
                || grant.milestones_paid_out >= grant.total_milestones {
                raw == 0
            } else {
                raw * grant.total_milestones <= capped(
                    grant.escrow_balance * (grant.total_milestones - grant.milestones_paid_out),
                ) < (raw + 1) * grant.total_milestones
            },
            RefundPolicyType::TimeWeighted => {
                let start = grant.timestamp as int;
                let exact_end = start + grant.total_milestones * 10_000;
                let end = if exact_end > u64::MAX {
                    u64::MAX as int
                } else {
                    exact_end
                };
                if now >= end || end <= start {
                    raw == 0
                } else if now <= start {
                    raw == grant.escrow_balance
                } else {
                    raw * (end - start) <= capped(grant.escrow_balance * (end - now)) < (raw + 1)
                        * (end - start)
                }
            },
            RefundPolicyType::PenaltyOnCancel => {
                let penalty = grant.escrow_balance - raw;
                penalty * 10_000 <= capped(grant.escrow_balance * policy.penalty_bps) < (penalty
                    + 1) * 10_000
            },
            RefundPolicyType::Other(_) => raw == 0,
        },
    ensures
        raw <= minimum <= grant.escrow_balance ==> calc.funder_refund == minimum,
        minimum <= raw <= grant.escrow_balance ==> calc.funder_refund == raw,
        raw >= grant.escrow_balance || minimum >= grant.escrow_balance ==> calc.funder_refund
            == grant.escrow_balance,
        calc.contributor_compensation == grant.escrow_balance - calc.funder_refund,
        calc.penalty_amount == calc.contributor_compensation,
        calc.gross_escrow == grant.escrow_balance,
        calc.policy_applied == policy.policy_type,
{
    let gross = grant.escrow_balance as int;
    let rate = policy.min_refund_pct_bps as int;
    lemma_portion_rounds_down(gross, rate, 10_000);
    lemma_floor_is_unique(
        capped(gross * rate),
        10_000,
        minimum,
        portion(gross, rate, 10_000),
    );
    assert(guaranteed_minimum(grant, policy) == minimum);
    assert(!in_grace_period(grant, policy, now));
    match policy.policy_type {
        RefundPolicyType::FullRefund => {},
        RefundPolicyType::ProportionalToRemaining => {
            let whole = grant.total_milestones as int;
            if whole > 0 {
                let left = milestones_left(grant);
                lemma_portion_rounds_down(gross, left, whole);
                if left == 0 {
                    lemma_portion_grows(gross, 0, 0, whole);
                } else {
                    lemma_floor_is_unique(
                        capped(gross * left),
                        whole,
                        raw,
                        portion(gross, left, whole),
                    );
                }
            }
        },
        RefundPolicyType::TimeWeighted => {
            let start = grant.timestamp as int;
            let exact_end = start + grant.total_milestones * 10_000;
            let end = if exact_end > u64::MAX {
                u64::MAX as int
            } else {
                exact_end
            };
            if start < now < end {
                lemma_portion_rounds_down(gross, end - now, end - start);
                lemma_floor_is_unique(
                    capped(gross * (end - now)),
                    end - start,
                    raw,
                    portion(gross, end - now, end - start),
                );
                if gross == 0 {
                    assert(gross * (end - now) == 0) by (nonlinear_arith)
                        requires
                            gross == 0,
                    ;
                    lemma_quotient_bounds(0, end - start);
                }
            }
        },
        RefundPolicyType::PenaltyOnCancel => {
            let penalty_rate = policy.penalty_bps as int;
            lemma_portion_rounds_down(gross, penalty_rate, 10_000);
            lemma_floor_is_unique(
                capped(gross * penalty_rate),
                10_000,
                gross - raw,
                portion(gross, penalty_rate, 10_000),
            );
        },
        RefundPolicyType::Other(_) => {},
    }
    assert(policy_refund(grant, policy, now) == raw);
}

/// A debt counts as refunded in full, whatever the policy: nobody is compensated.
pub proof fn law_debt_is_all_refund(
    grant: Grant,
    policy: RefundPolicy,
    now: u64,
    calc: RefundCalculation,
)
    requires
        divides_escrow(grant, policy, now, calc),
        grant.escrow_balance < 0,
    ensures
        calc.gross_escrow == grant.escrow_balance,
        calc.funder_refund == grant.escrow_balance,
        calc.contributor_compensation == 0,
        calc.penalty_amount == 0,
        policy.grace_period_ledgers == 0 || now >= grant.timestamp + policy.grace_period_ledgers
            || now == u64::MAX ==> calc.policy_applied == policy.policy_type,
{
    lemma_refund_bounds(grant, policy, now);
}

/// Whether what funders paid in can be added up one by one: no sum on the way
/// exceeds what an amount can be.
pub open spec fn adds_up(funders: Seq<Option<i128>>) -> bool {
    forall|n: int|
        0 <= n <= funders.len() ==> i128::MIN <= #[trigger] exact_total(funders, n) <= i128::MAX
}

/// Sums that stay in range do not saturate. Those of amounts that are not negative
/// saturate at most once and for all, at the largest amount.
proof fn lemma_total_is_capped(funders: Seq<Option<i128>>, n: int)
    requires
        0 <= n <= funders.len(),
        adds_up(funders) || none_negative(funders),
    ensures
        total_paid_in(funders, n) == capped(exact_total(funders, n)),
    decreases n,
{
    if adds_up(funders) {
        assert(i128::MIN <= exact_total(funders, n) <= i128::MAX);
    } else {
        lemma_exact_total_grows(funders, n, n);
    }
    if n > 0 {
        lemma_total_is_capped(funders, n - 1);
        if adds_up(funders) {
            assert(i128::MIN <= exact_total(funders, n - 1) <= i128::MAX);
        } else {
            lemma_exact_total_grows(funders, n - 1, n - 1);
            assert(funders[n - 1]->0 >= 0);
        }
    }
}

/// A funder who is due something is paid it.
proof fn lemma_due_is_paid(
    token: Address,
    funders: Seq<Option<i128>>,
    refund: int,
    n: int,
    i: int,
)
    requires
        0 <= i < n <= funders.len() <= u32::MAX,
        amount_due(funders, refund, i) > 0,
    ensures
        funder_transfers(token, funders, refund, n).contains(
            (Transfer {
                token,
                to: Payee::Funder(i as u32),
                amount: amount_due(funders, refund, i) as i128,
            }),
        ),
    decreases n,
{
    let payment = Transfer {
        token,
        to: Payee::Funder(i as u32),
        amount: amount_due(funders, refund, i) as i128,
    };
    let all = funder_transfers(token, funders, refund, n);
    let earlier = funder_transfers(token, funders, refund, n - 1);
    if i == n - 1 {
        assert(all[earlier.len() as int] == payment);
    } else {
        lemma_due_is_paid(token, funders, refund, n - 1, i);
        let k = earlier.index_of(payment);
        assert(all[k] == payment);
    }
}

/// What is paid to a funder: what is due, if that is positive, and nothing else.
proof fn lemma_payment_to_funder(
    grant: Grant,
    stored: Option<RefundPolicy>,
    grant_id: u64,
    now: u64,
    after: Option<Grant>,
    refund: Refund,
    i: int,
)
    requires
        executes_refund(grant, stored, grant_id, now, after, refund),
        0 <= i < amounts(grant.funders).len() <= u32::MAX,
        adds_up(amounts(grant.funders)) || none_negative(amounts(grant.funders)),
        exact_total(amounts(grant.funders), amounts(grant.funders).len() as int) > 0,
        refund.calculation.funder_refund > 0,
    ensures
        ({
            let due = amount_due(
                amounts(grant.funders),
                refund.calculation.funder_refund as int,
                i,
            );
            &&& i128::MIN <= due <= i128::MAX
            &&& due > 0 ==> refund.transfers@.contains(
                (Transfer {
                    token: grant.token,
                    to: Payee::Funder(i as u32),
                    amount: due as i128,
                }),
            )
            &&& forall|k: int|
                0 <= k < refund.transfers@.len() && (#[trigger] refund.transfers@[k]).to
                    == Payee::Funder(i as u32) ==> due > 0 && refund.transfers@[k].amount == due
        }),
{
    let funders = amounts(grant.funders);
    let n = funders.len() as int;
    let calc = refund.calculation;
    let owed = calc.funder_refund as int;
    lemma_total_is_capped(funders, n);
    lemma_due_is_amount(funders, owed, i);
    let first = owner_transfers(grant, calc.contributor_compensation as int);
    let rest = funder_transfers(grant.token, funders, owed, n);
    let all = refund.transfers@;
    assert(all == first + rest);
    lemma_funder_transfers(grant.token, funders, owed, n);
    if amount_due(funders, owed, i) > 0 {
        lemma_due_is_paid(grant.token, funders, owed, n, i);
        let payment = Transfer {
            token: grant.token,
            to: Payee::Funder(i as u32),
            amount: amount_due(funders, owed, i) as i128,
        };
        let k = rest.index_of(payment);
        assert(all[first.len() + k] == payment);
    }
    assert forall|k: int|
        0 <= k < all.len() && (#[trigger] all[k]).to == Payee::Funder(i as u32) implies amount_due(
        funders,
        owed,
        i,
    ) > 0 && all[k].amount == amount_due(funders, owed, i) by {
        if k < first.len() {
            assert(all[k] == first[k]);
        } else {
            assert(all[k] == rest[k - first.len()]);
        }
    }
}

/// Every funder but the last is paid the exact share of the refund, rounded down:
/// `share` is that share, by what the funder paid in of what all paid in. A funder
/// whose share is nothing receives no payment. A product or a total past the largest
/// amount counts as that amount.
pub proof fn law_funders_share_in_proportion(
    grant: Grant,
    stored: Option<RefundPolicy>,
    grant_id: u64,
    now: u64,
    after: Option<Grant>,
    refund: Refund,
    i: int,
    share: int,
)
    requires
        executes_refund(grant, stored, grant_id, now, after, refund),
        amounts(grant.funders).len() <= u32::MAX,
        adds_up(amounts(grant.funders)) || none_negative(amounts(grant.funders)),
        exact_total(amounts(grant.funders), amounts(grant.funders).len() as int) > 0,
        refund.calculation.funder_refund > 0,
        0 <= i < amounts(grant.funders).len() - 1,
        amounts(grant.funders)[i]->0 >= 0,
        share * capped(
            exact_total(amounts(grant.funders), amounts(grant.funders).len() as int),
        ) <= capped(amounts(grant.funders)[i]->0 * refund.calculation.funder_refund) < (share + 1)
            * capped(exact_total(amounts(grant.funders), amounts(grant.funders).len() as int)),
    ensures
        0 <= share <= i128::MAX,
        share > 0 ==> refund.transfers@.contains(
            (Transfer {
                token: grant.token,
                to: Payee::Funder(i as u32),
                amount: share as i128,
            }),
        ),
        forall|k: int|
            0 <= k < refund.transfers@.len() && (#[trigger] refund.transfers@[k]).to
                == Payee::Funder(i as u32) ==> share > 0 && refund.transfers@[k].amount == share,
{
    let funders = amounts(grant.funders);
    let n = funders.len() as int;
    let owed = refund.calculation.funder_refund as int;
    let paid = funders[i]->0 as int;
    let total = capped(exact_total(funders, n));
    lemma_payment_to_funder(grant, stored, grant_id, now, after, refund, i);
    lemma_total_is_capped(funders, n);
    lemma_portion_rounds_down(paid, owed, total);
    lemma_floor_is_unique(capped(paid * owed), total, share, portion(paid, owed, total));
    assert(amount_due(funders, owed, i) == share);
}

/// Who paid in the same is paid the same, and who paid in less is not paid more. The
/// last funder, who gets what rounding leaves, is left aside.
pub proof fn law_no_funder_is_preferred(
    grant: Grant,
    stored: Option<RefundPolicy>,
    grant_id: u64,
    now: u64,
    after: Option<Grant>,
    refund: Refund,
    i: int,
    j: int,
    k: int,
)
    requires
        executes_refund(grant, stored, grant_id, now, after, refund),
        amounts(grant.funders).len() <= u32::MAX,
        adds_up(amounts(grant.funders)) || none_negative(amounts(grant.funders)),
        exact_total(amounts(grant.funders), amounts(grant.funders).len() as int) > 0,
        refund.calculation.funder_refund > 0,
        0 <= i < amounts(grant.funders).len() - 1,
        0 <= j < amounts(grant.funders).len() - 1,
        0 <= amounts(grant.funders)[i]->0 <= amounts(grant.funders)[j]->0,
        0 <= k < refund.transfers@.len(),
        refund.transfers@[k].to == Payee::Funder(i as u32),
    ensures
        exists|l: int|
            0 <= l < refund.transfers@.len() && (#[trigger] refund.transfers@[l]).to
                == Payee::Funder(j as u32) && refund.transfers@[l].amount
                >= refund.transfers@[k].amount,
        amounts(grant.funders)[i]->0 == amounts(grant.funders)[j]->0
            ==> refund.transfers@.contains(
            (Transfer {
                token: grant.token,
                to: Payee::Funder(j as u32),
                amount: refund.transfers@[k].amount,
            }),
        ),
{
    let funders = amounts(grant.funders);
    let n = funders.len() as int;
    let owed = refund.calculation.funder_refund as int;
    let total = capped(exact_total(funders, n));
    lemma_total_is_capped(funders, n);
    lemma_payment_to_funder(grant, stored, grant_id, now, after, refund, i);
    lemma_payment_to_funder(grant, stored, grant_id, now, after, refund, j);
    let low = funders[i]->0 as int;
    let high = funders[j]->0 as int;
    lemma_portion_grows(owed, low, high, total);
    assert(low * owed == owed * low) by (nonlinear_arith);
    assert(high * owed == owed * high) by (nonlinear_arith);
    assert(amount_due(funders, owed, i) == portion(owed, low, total));
    assert(amount_due(funders, owed, j) == portion(owed, high, total));
    let payment = Transfer {
        token: grant.token,
        to: Payee::Funder(j as u32),
        amount: amount_due(funders, owed, j) as i128,
    };
    assert(refund.transfers@.contains(payment));
    let l = refund.transfers@.index_of(payment);
    assert(refund.transfers@[l] == payment);
}

/// A funder who owes rather than paid in receives nothing, but for the last one.
pub proof fn law_no_payment_for_a_debt(
    grant: Grant,
    stored: Option<RefundPolicy>,
    grant_id: u64,
    now: u64,
    after: Option<Grant>,
    refund: Refund,
    i: int,
    k: int,
)
    requires
        executes_refund(grant, stored, grant_id, now, after, refund),
        amounts(grant.funders).len() <= u32::MAX,
        adds_up(amounts(grant.funders)) || none_negative(amounts(grant.funders)),
        0 <= i < amounts(grant.funders).len() - 1,
        amounts(grant.funders)[i]->0 <= 0,
        0 <= k < refund.transfers@.len(),
    ensures
        refund.transfers@[k].to != Payee::Funder(i as u32),
{
    let funders = amounts(grant.funders);
    let n = funders.len() as int;
    let owed = refund.calculation.funder_refund as int;
    lemma_total_is_capped(funders, n);
    if owed > 0 && exact_total(funders, n) > 0 {
        lemma_payment_to_funder(grant, stored, grant_id, now, after, refund, i);
        let paid = funders[i]->0 as int;
        assert(paid * owed <= 0) by (nonlinear_arith)
            requires
                paid <= 0,
                owed > 0,
        ;
        lemma_quotient_bounds(saturated(paid * owed), capped(exact_total(funders, n)));
    }
}

/// What the first `n` funders receive, the last one left out, is what the payments
/// to them come to.
proof fn lemma_paid_out_is_capped(token: Address, funders: Seq<Option<i128>>, refund: int, n: int)
    requires
        0 <= n < funders.len() <= u32::MAX,
        total_paid_in(funders, funders.len() as int) > 0,
    ensures
        total_of(funder_transfers(token, funders, refund, n)) >= 0,
        paid_out(funders, refund, n) == capped(
            total_of(funder_transfers(token, funders, refund, n)),
        ),
    decreases n,
{
    if n > 0 {
        lemma_paid_out_is_capped(token, funders, refund, n - 1);
        lemma_due_is_amount(funders, refund, n - 1);
        let earlier = funder_transfers(token, funders, refund, n - 1);
        let all = funder_transfers(token, funders, refund, n);
        if amount_due(funders, refund, n - 1) > 0 {
            assert(all.drop_last() =~= earlier);
        }
    }
}

/// The last funder gets what the others leave of the refund: with a payment to the
/// last funder the payments come to exactly the refund and the compensation, and
/// there is no such payment only where the others leave nothing.
pub proof fn law_last_funder_gets_the_rest(
    grant: Grant,
    stored: Option<RefundPolicy>,
    grant_id: u64,
    now: u64,
    after: Option<Grant>,
    refund: Refund,
)
    requires
        executes_refund(grant, stored, grant_id, now, after, refund),
        0 < amounts(grant.funders).len() <= u32::MAX,
        adds_up(amounts(grant.funders)) || none_negative(amounts(grant.funders)),
        exact_total(amounts(grant.funders), amounts(grant.funders).len() as int) > 0,
        refund.calculation.funder_refund > 0,
    ensures
        (exists|k: int|
            0 <= k < refund.transfers@.len() && (#[trigger] refund.transfers@[k]).to
                == Payee::Funder((amounts(grant.funders).len() - 1) as u32)) ==> total_of(
            refund.transfers@,
        ) == refund.calculation.contributor_compensation + refund.calculation.funder_refund,
        !(exists|k: int|
            0 <= k < refund.transfers@.len() && (#[trigger] refund.transfers@[k]).to
                == Payee::Funder((amounts(grant.funders).len() - 1) as u32)) ==> total_of(
            refund.transfers@,
        ) >= refund.calculation.contributor_compensation + refund.calculation.funder_refund,
{
    let funders = amounts(grant.funders);
    let n = funders.len() as int;
    let calc = refund.calculation;
    let owed = calc.funder_refund as int;
    let compensation = calc.contributor_compensation as int;
    let first = owner_transfers(grant, compensation);
    let earlier = funder_transfers(grant.token, funders, owed, n - 1);
    let rest = funder_transfers(grant.token, funders, owed, n);
    let due = amount_due(funders, owed, n - 1);
    law_escrow_is_divided(grant, effective_policy(stored, grant_id), now, calc);
    lemma_total_is_capped(funders, n);
    lemma_due_is_amount(funders, owed, n - 1);
    lemma_payment_to_funder(grant, stored, grant_id, now, after, refund, n - 1);
    lemma_paid_out_is_capped(grant.token, funders, owed, n - 1);
    assert(total_of(first) == compensation) by {
        reveal_with_fuel(total_of, 2);
        if compensation > 0 {
            assert(first.len() == 1 && first.last().amount == compensation);
            assert(first.drop_last().len() == 0);
        }
    }
    lemma_total_of_sum(first, rest);
    assert(refund.transfers@ == first + rest);
    if due > 0 {
        assert(rest.drop_last() =~= earlier);
        let payment = Transfer {
            token: grant.token,
            to: Payee::Funder((n - 1) as u32),
            amount: due as i128,
        };
        let k = refund.transfers@.index_of(payment);
        assert(refund.transfers@[k].to == Payee::Funder((n - 1) as u32));
    } else {
        assert(rest == earlier);
    }
}

/// The contributor's compensation goes to the owner, in one payment before all
/// others. Without a compensation the owner receives nothing.
pub proof fn law_owner_is_compensated(
    grant: Grant,
    stored: Option<RefundPolicy>,
    grant_id: u64,
    now: u64,
    after: Option<Grant>,
    refund: Refund,
)
    requires
        executes_refund(grant, stored, grant_id, now, after, refund),
        amounts(grant.funders).len() <= u32::MAX,
    ensures
        refund.calculation.contributor_compensation > 0 ==> {
            &&& refund.transfers@.len() > 0
            &&& refund.transfers@[0] == (Transfer {
                token: grant.token,
                to: Payee::Owner(grant.owner),
                amount: refund.calculation.contributor_compensation,
            })
        },
        forall|k: int|
            0 <= k < refund.transfers@.len() && (#[trigger] refund.transfers@[k]).to is Owner
                ==> k == 0 && refund.calculation.contributor_compensation > 0
                && refund.transfers@[k].amount == refund.calculation.contributor_compensation,
{
    let calc = refund.calculation;
    law_payments_are_sound(grant, calc);
    let first = owner_transfers(grant, calc.contributor_compensation as int);
    let all = refund.transfers@;
    if calc.contributor_compensation > 0 {
        assert(all[0] == first[0]);
    } else if calc.funder_refund > 0 && total_paid_in(
        amounts(grant.funders),
        amounts(grant.funders).len() as int,
    ) > 0 {
        let n = amounts(grant.funders).len() as int;
        let owed = calc.funder_refund as int;
        lemma_funder_transfers(grant.token, amounts(grant.funders), owed, n);
        assert(all =~= funder_transfers(grant.token, amounts(grant.funders), owed, n));
    }
}

/// Funders are paid in the order of the list, and only where there is something to
/// refund and they paid in more than nothing.
pub proof fn law_funders_are_paid_in_order(
    grant: Grant,
    stored: Option<RefundPolicy>,
    grant_id: u64,
    now: u64,
    after: Option<Grant>,
    refund: Refund,
)
    requires
        executes_refund(grant, stored, grant_id, now, after, refund),
        amounts(grant.funders).len() <= u32::MAX,
        adds_up(amounts(grant.funders)) || none_negative(amounts(grant.funders)),
    ensures
        forall|j: int, k: int|
            0 <= j < k < refund.transfers@.len() && (#[trigger] refund.transfers@[j]).to is Funder
                && (#[trigger] refund.transfers@[k]).to is Funder
                ==> refund.transfers@[j].to->Funder_0 < refund.transfers@[k].to->Funder_0,
        forall|k: int|
            0 <= k < refund.transfers@.len() && (#[trigger] refund.transfers@[k]).to is Funder
                ==> refund.calculation.funder_refund > 0 && exact_total(
                amounts(grant.funders),
                amounts(grant.funders).len() as int,
            ) > 0,
{
    let funders = amounts(grant.funders);
    let n = funders.len() as int;
    let calc = refund.calculation;
    let owed = calc.funder_refund as int;
    let first = owner_transfers(grant, calc.contributor_compensation as int);
    let all = refund.transfers@;
    lemma_total_is_capped(funders, n);
    if owed > 0 && exact_total(funders, n) > 0 {
        let rest = funder_transfers(grant.token, funders, owed, n);
        lemma_funder_transfers(grant.token, funders, owed, n);
        assert(all == first + rest);
        assert forall|j: int, k: int|
            0 <= j < k < all.len() && (#[trigger] all[j]).to is Funder && (
            #[trigger] all[k]).to is Funder implies all[j].to->Funder_0 < all[k].to->Funder_0 by {
            if j < first.len() {
                assert(all[j] == first[j]);
            } else {
                assert(all[j] == rest[j - first.len()]);
                assert(all[k] == rest[k - first.len()]);
            }
        }
    } else {
        assert(all =~= first);
    }
}

/// Cancelling a grant empties its escrow and leaves all else of it as it was, and
/// the payments come to what was in escrow. Where the funders are owed anything,
/// the latter takes that they paid in something, that none paid in a negative
/// amount, and that what they paid in is together still an amount.
pub proof fn law_cancelling_empties_the_escrow(
    grant: Grant,
    stored: Option<RefundPolicy>,
    grant_id: u64,
    now: u64,
    after: Option<Grant>,
    refund: Refund,
)
    requires
        executes_refund(grant, stored, grant_id, now, after, refund),
    ensures
        after is Some,
        after->0.escrow_balance == 0,
        after->0.id == grant.id,
        after->0.owner == grant.owner,
        after->0.token == grant.token,
        after->0.reviewers == grant.reviewers,
        after->0.funders == grant.funders,
        after->0.timestamp == grant.timestamp,
        after->0.total_milestones == grant.total_milestones,
        after->0.milestones_paid_out == grant.milestones_paid_out,
        refund.calculation.gross_escrow == grant.escrow_balance,
        grant.escrow_balance >= 0 && amounts(grant.funders).len() <= u32::MAX && (
        refund.calculation.funder_refund > 0 ==> none_negative(amounts(grant.funders)) && 0
            < exact_total(amounts(grant.funders), amounts(grant.funders).len() as int)
            <= i128::MAX) ==> total_of(refund.transfers@) == grant.escrow_balance,
        grant.escrow_balance <= 0 ==> refund.transfers@.len() == 0,
{
    let policy = effective_policy(stored, grant_id);
    let calc = refund.calculation;
    if grant.escrow_balance <= 0 {
        law_empty_escrow_pays_nothing(grant, policy, now, calc);
    }
    if grant.escrow_balance >= 0 && amounts(grant.funders).len() <= u32::MAX && (
    refund.calculation.funder_refund > 0 ==> none_negative(amounts(grant.funders)) && 0
        < exact_total(amounts(grant.funders), amounts(grant.funders).len() as int) <= i128::MAX) {
        law_payments_add_up(grant, policy, now, calc);
    }
}

/// Only funders who cannot be read, and are owed something, stand in the way of
/// cancelling a grant.
pub proof fn law_readable_grant_is_refundable(
    grant: Option<Grant>,
    stored: Option<RefundPolicy>,
    grant_id: u64,
    now: u64,
    calc: RefundCalculation,
)
    requires
        grant matches Some(g) ==> divides_escrow(
            g,
            effective_policy(stored, grant_id),
            now,
            calc,
        ),
    ensures
        !refundable(grant, stored, grant_id, now) <==> (grant is Some && calc.funder_refund > 0
            && exists|i: int|
            0 <= i < amounts(grant->0.funders).len() && #[trigger] amounts(
                grant->0.funders,
            )[i] is None),
{
}

/// A policy is stored exactly where the owner of the grant asks for it, it is a
/// policy for that grant, and nothing is in escrow: once there is money in the
/// grant, nobody can change how it is divided. A grant that does not exist is told
/// apart from a request that is refused.
pub proof fn law_policy_is_fixed_while_funded(
    grant: Option<Grant>,
    owner: Address,
    grant_id: u64,
    policy: RefundPolicy,
)
    ensures
        policy_answer(grant, owner, grant_id, policy) is Ok <==> (grant is Some && grant->0.owner
            == owner && grant->0.escrow_balance <= 0 && policy.grant_id == grant_id),
        policy_answer(grant, owner, grant_id, policy) == Err::<(), ContractError>(
            ContractError::GrantNotFound,
        ) <==> grant is None,
        policy_answer(grant, owner, grant_id, policy) matches Err(error) ==> (grant is Some
            ==> error == ContractError::InvalidInput),
{
}

} // verus!
