//! What holds of the plans: how a balance is cut into notes, said of the values themselves.

use crate::denominations::{
    after_largest, available, change_of, copies, crossings, crossings_account, digit_notes,
    digit_notes_are_denominations, digit_notes_sum, funds_a_note, is_plan, is_power_of_ten,
    is_self_funding_plan, largest_crossing, largest_from_fits, planned_change, planned_outputs,
    self_funding_notes, sum, sum_concat, sum_push, unfunded, DenominationPlan, SelfFundingPlan,
    MIN_IRONWOOD_MIGRATION_OUTPUT_ZATOSHI,
};
use crate::text::decimal;
use vstd::arithmetic::power::{lemma_pow0, lemma_pow1, lemma_pow_adds, pow};
use vstd::prelude::*;

verus! {

// ----- sums -----

/// The values of a sequence, added one after another.
pub open spec fn total_of(values: Seq<u64>) -> int {
    values.fold_left(0int, |total: int, value: u64| total + value)
}

/// The sum of no values is zero, one more value adds itself, and the sum is the values added one after
/// another.
pub proof fn sum_adds_every_value(values: Seq<u64>, v: u64)
    ensures
        sum(Seq::<u64>::empty()) == 0,
        sum(values.push(v)) == sum(values) + v,
        sum(values) == total_of(values),
    decreases values.len(),
{
    sum_push(values, v);
    if values.len() > 0 {
        sum_adds_every_value(values.drop_last(), v);
    }
}

// ----- powers of ten -----

/// A power of ten is ten to some exponent.
pub proof fn power_of_ten_has_an_exponent(d: nat)
    requires
        is_power_of_ten(d),
    ensures
        exists|k: nat| d == #[trigger] pow(10, k),
    decreases d,
{
    if d == 1 {
        lemma_pow0(10);
        assert(d == pow(10, 0));
    } else {
        power_of_ten_has_an_exponent(d / 10);
        let k = choose|k: nat| d / 10 == #[trigger] pow(10, k);
        lemma_pow_adds(10, k, 1);
        lemma_pow1(10);
        assert(pow(10, k + 1) == pow(10, k) * 10);
        assert(d == pow(10, k + 1));
    }
}

// ----- whole-ZEC notes -----

/// The notes of a number of whole ZEC go from the largest to the smallest, no value occurs more than
/// nine times, each is a power of ten of the unit, and together they are that many units.
pub proof fn digit_notes_are_the_digits(whole: nat, unit: nat, i: int)
    requires
        unit > 0,
        whole * unit <= u64::MAX,
        0 <= i < digit_notes(whole, unit).len(),
    ensures
        i > 0 ==> digit_notes(whole, unit)[i - 1] >= digit_notes(whole, unit)[i],
        i >= 9 ==> digit_notes(whole, unit)[i - 9] > digit_notes(whole, unit)[i],
        exists|k: nat| digit_notes(whole, unit)[i] == #[trigger] pow(10, k) * unit,
        total_of(digit_notes(whole, unit)) == whole * unit,
{
    digit_notes_descend(whole, unit, i);
    digit_notes_are_denominations(whole, unit, i);
    let d = choose|d: nat| is_power_of_ten(d) && #[trigger] (d * unit) == digit_notes(whole, unit)[i];
    power_of_ten_has_an_exponent(d);
    digit_notes_sum(whole, unit);
    sum_adds_every_value(digit_notes(whole, unit), 0);
}

proof fn digit_notes_descend(whole: nat, unit: nat, i: int)
    requires
        unit > 0,
        whole * unit <= u64::MAX,
        0 <= i < digit_notes(whole, unit).len(),
    ensures
        digit_notes(whole, unit)[i] >= unit,
        i > 0 ==> digit_notes(whole, unit)[i - 1] >= digit_notes(whole, unit)[i],
        i >= 9 ==> digit_notes(whole, unit)[i - 9] > digit_notes(whole, unit)[i],
    decreases whole,
{
    let q = whole / 10;
    let r = whole % 10;
    assert(q * (10 * unit) <= whole * unit && unit <= whole * unit) by (nonlinear_arith)
        requires
            whole == 10 * q + r,
            whole >= 1,
            unit >= 0,
            r >= 0,
            q >= 0,
    ;
    let upper = digit_notes(q, 10 * unit);
    let lower = copies(unit as u64, r);
    assert(digit_notes(whole, unit) == upper + lower);
    if i < upper.len() {
        digit_notes_descend(q, 10 * unit, i);
    } else {
        if i > 0 && i - 1 < upper.len() {
            digit_notes_descend(q, 10 * unit, i - 1);
        }
        if i >= 9 {
            assert(i - 9 < upper.len());
            digit_notes_descend(q, 10 * unit, i - 9);
        }
    }
}

/// A plan hands out the whole ZEC of what is left as digit notes, and then its residual below one ZEC:
/// as one more note where it exceeds the threshold; else as change where it reaches the minimum
/// output; else not at all.
pub proof fn plan_hands_out_whole_zec_and_the_residual(left: nat, threshold: nat, minimum: u64)
    requires
        left <= u64::MAX,
    ensures
        ({
            let outputs = planned_outputs(left, threshold);
            let change = planned_change(left, threshold, minimum);
            let residual = left % 100_000_000;
            let notes = if residual > threshold {
                outputs.drop_last()
            } else {
                outputs
            };
            &&& notes == digit_notes(left / 100_000_000, 100_000_000)
            &&& total_of(notes) == left - residual
            &&& residual > threshold ==> outputs.len() > 0 && outputs.last() == residual && change
                is None
            &&& residual <= threshold && residual >= minimum ==> change == Some(residual as u64)
            &&& residual <= threshold && residual < minimum ==> change is None
        }),
{
    let whole = left / 100_000_000;
    let residual = left % 100_000_000;
    let notes = digit_notes(whole, 100_000_000);
    assert(notes.push(residual as u64).drop_last() =~= notes);
    digit_notes_sum(whole, 100_000_000);
    sum_adds_every_value(notes, 0);
}

/// What is left of an input is the input less the preparation fee, and nothing where the fee is as
/// large.
pub proof fn preparation_fee_comes_off_first(total: u64, prep_fee: u64)
    ensures
        total > prep_fee ==> available(total, prep_fee) == total - prep_fee,
        total <= prep_fee ==> available(total, prep_fee) == 0,
{
}

// ----- self-funding notes -----

/// The budget that is left for the value at `i` once the values before it were taken, each with the
/// 20 000 zatoshi of its fee.
pub open spec fn budget_at(budget: nat, values: Seq<u64>, i: int) -> int {
    budget - total_of(values.take(i)) - 20_000 * i
}

/// Each crossing value is a power of ten of whole ZEC, fits what the values before it leave of the
/// budget together with its fee of 20 000 zatoshi, and ten times as much does not. What all of them
/// leave funds no further note of one ZEC.
pub proof fn crossings_are_greedy(budget: nat, i: int)
    requires
        budget <= u64::MAX,
        0 <= i <= crossings(budget).len(),
    ensures
        i < crossings(budget).len() ==> {
            let v = crossings(budget)[i];
            &&& v + 20_000 <= budget_at(budget, crossings(budget), i) < 10 * v + 20_000
            &&& exists|k: nat| v == #[trigger] pow(10, k) * 100_000_000
        },
        i == crossings(budget).len() ==> {
            &&& 0 <= budget_at(budget, crossings(budget), i) < 100_020_000
            &&& unfunded(budget) == budget_at(budget, crossings(budget), i)
        },
    decreases budget,
{
    let values = crossings(budget);
    crossings_account(budget);
    if i < values.len() {
        let d = choose|d: nat| is_power_of_ten(d) && #[trigger] (d * 100_000_000u64) == values[i];
        power_of_ten_has_an_exponent(d);
        let k = choose|k: nat| d == #[trigger] pow(10, k);
        assert(values[i] == pow(10, k) * 100_000_000);
    }
    sum_adds_every_value(values.take(i), 0);
    if funds_a_note(budget) {
        let c = largest_crossing(budget);
        let rest = after_largest(budget);
        let tail = crossings(rest);
        largest_from_fits(100_000_000, budget);
        if i == 0 {
            assert(values.take(0) =~= Seq::<u64>::empty());
        } else {
            crossings_are_greedy(rest, i - 1);
            assert(values.take(i) =~= seq![c as u64] + tail.take(i - 1));
            sum_concat(seq![c as u64], tail.take(i - 1));
            sum_push(Seq::<u64>::empty(), c as u64);
            assert(seq![c as u64] =~= Seq::<u64>::empty().push(c as u64));
            sum_adds_every_value(tail.take(i - 1), 0);
            assert(budget_at(budget, values, i) == budget_at(rest, tail, i - 1));
        }
    } else {
        assert(values.take(0) =~= Seq::<u64>::empty());
    }
}

/// A self-funding note holds its crossing value and 20 000 zatoshi; there is one for each value, in
/// order.
pub proof fn self_funding_notes_hold_their_fee(budget: nat, i: int)
    requires
        budget <= u64::MAX,
        0 <= i < crossings(budget).len(),
    ensures
        self_funding_notes(crossings(budget)).len() == crossings(budget).len(),
        self_funding_notes(crossings(budget))[i] == crossings(budget)[i] + 20_000,
{
    crossings_are_greedy(budget, i);
    let before = crossings(budget).take(i);
    sum_adds_every_value(before, 0);
}

/// What no note can hold stays as change, to the last zatoshi.
pub proof fn residual_is_change(residual: nat)
    requires
        residual <= u64::MAX,
    ensures
        residual > 0 ==> change_of(residual) == Some(residual as u64),
        residual == 0 ==> change_of(residual) is None,
{
}

// ----- the plans -----

/// A planned note split and what it keeps account for the input: the whole ZEC of what the preparation
/// fee leaves are cut into digit notes; a residual is one more note where it exceeds its migration fee
/// and the minimum output, else change where it reaches the minimum output. The totals are those of the
/// notes and of what was handed in.
pub proof fn plan_accounts_for_its_notes(
    plan: Result<DenominationPlan, String>,
    total: u64,
    prep_fee: u64,
    migration_fee: u64,
    minimum: u64,
)
    requires
        is_plan(plan, total, prep_fee, migration_fee, minimum),
        plan is Ok,
    ensures
        ({
            let p = plan->Ok_0;
            let left = if total > prep_fee {
                total - prep_fee
            } else {
                0
            };
            let residual = left % 100_000_000;
            let threshold = migration_fee + minimum;
            let notes = if residual > threshold {
                p.migration_outputs@.drop_last()
            } else {
                p.migration_outputs@
            };
            &&& p.migration_fee_zatoshi == migration_fee
            &&& p.total_input_zatoshi == total
            &&& p.migration_outputs@.len() <= 64
            &&& p.total_migratable_zatoshi == total_of(p.migration_outputs@)
            &&& total <= prep_fee ==> {
                &&& p.migration_outputs@.len() == 0
                &&& p.orchard_change is None
                &&& p.prep_fee_zatoshi == total
            }
            &&& total > prep_fee ==> {
                &&& p.prep_fee_zatoshi == prep_fee
                &&& notes == digit_notes((left / 100_000_000) as nat, 100_000_000)
                &&& residual > threshold ==> p.migration_outputs@.last() == residual
                    && p.orchard_change is None
                &&& residual <= threshold && residual >= minimum ==> p.orchard_change == Some(
                    residual as u64,
                )
                &&& residual <= threshold && residual < minimum ==> p.orchard_change is None
            }
        }),
{
    let p = plan->Ok_0;
    sum_adds_every_value(p.migration_outputs@, 0);
    if total > prep_fee {
        plan_hands_out_whole_zec_and_the_residual(
            available(total, prep_fee),
            (migration_fee + minimum) as nat,
            minimum,
        );
    }
}

/// A note split is refused exactly where the threshold for its residual overflows or where it would
/// have more than 64 notes; the message tells how many.
pub proof fn plan_is_refused_over_the_limit(
    plan: Result<DenominationPlan, String>,
    total: u64,
    prep_fee: u64,
    migration_fee: u64,
    minimum: u64,
)
    requires
        is_plan(plan, total, prep_fee, migration_fee, minimum),
    ensures
        ({
            let left = if total > prep_fee {
                (total - prep_fee) as nat
            } else {
                0
            };
            let threshold = migration_fee + minimum;
            let notes = digit_notes(left / 100_000_000, 100_000_000).len() + if left % 100_000_000
                > threshold {
                1nat
            } else {
                0nat
            };
            &&& plan is Err <==> total > prep_fee && (threshold > u64::MAX || notes > 64)
            &&& plan is Err && threshold > u64::MAX ==> plan->Err_0@
                == "Residual fee threshold overflow"@
            &&& plan is Err && threshold <= u64::MAX ==> plan->Err_0@
                == "Migration plan would create "@ + decimal(notes)
                + " prepared notes, above the 64 note limit"@
        }),
{
    reveal_strlit(" prepared notes, above the 64 note limit");
    reveal_strlit(" prepared notes, above the ");
    reveal_strlit(" note limit");
    reveal_with_fuel(decimal, 3);
    assert(decimal(64) =~= seq!['6', '4']);
    assert(" prepared notes, above the "@ + decimal(64) + " note limit"@
        =~= " prepared notes, above the 64 note limit"@);
    let left = available(total, prep_fee);
    let outputs = planned_outputs(left, (migration_fee + minimum) as nat);
    assert("Migration plan would create "@ + decimal(outputs.len())
        + " prepared notes, above the "@ + decimal(64) + " note limit"@
        =~= "Migration plan would create "@ + decimal(outputs.len()) + (
    " prepared notes, above the "@ + decimal(64) + " note limit"@));
}

/// A plan of self-funding notes has a note for each crossing value, with 20 000 zatoshi on top; its
/// values are greedy, its totals are those of the values and of what was handed in, and every zatoshi
/// that no note holds is change.
pub proof fn self_funding_plan_accounts_for_its_notes(
    plan: Result<SelfFundingPlan, String>,
    total: u64,
    prep_fee: u64,
    i: int,
)
    requires
        is_self_funding_plan(plan, total, prep_fee),
        plan is Ok,
        0 <= i <= plan->Ok_0.crossing_values@.len(),
    ensures
        ({
            let p = plan->Ok_0;
            let budget = if total > prep_fee {
                (total - prep_fee) as nat
            } else {
                0
            };
            let values = p.crossing_values@;
            let left = budget_at(budget, values, i);
            &&& p.prep_fee_zatoshi == prep_fee
            &&& p.total_input_zatoshi == total
            &&& values.len() <= 64
            &&& p.migration_outputs@.len() == values.len()
            &&& p.total_migratable_zatoshi == total_of(values)
            &&& i < values.len() ==> {
                &&& p.migration_outputs@[i] == values[i] + 20_000
                &&& values[i] + 20_000 <= left < 10 * values[i] + 20_000
                &&& exists|k: nat| values[i] == #[trigger] pow(10, k) * 100_000_000
            }
            &&& i == values.len() ==> {
                &&& 0 <= left < 100_020_000
                &&& left > 0 ==> p.orchard_change == Some(left as u64)
                &&& left == 0 ==> p.orchard_change is None
            }
        }),
{
    let budget = available(total, prep_fee);
    crossings_are_greedy(budget, i);
    sum_adds_every_value(crossings(budget), 0);
    if i < crossings(budget).len() {
        self_funding_notes_hold_their_fee(budget, i);
    }
}

/// With the smallest output as the minimum no zatoshi is lost: the notes and the change make up what is
/// left after the preparation fee.
pub proof fn smallest_output_loses_nothing(left: nat, threshold: nat)
    requires
        left <= u64::MAX,
    ensures
        ({
            let change = planned_change(left, threshold, MIN_IRONWOOD_MIGRATION_OUTPUT_ZATOSHI);
            let kept = match change {
                Some(v) => v as int,
                None => 0,
            };
            total_of(planned_outputs(left, threshold)) + kept == left
        }),
{
    let outputs = planned_outputs(left, threshold);
    let notes = digit_notes(left / 100_000_000, 100_000_000);
    plan_hands_out_whole_zec_and_the_residual(
        left,
        threshold,
        MIN_IRONWOOD_MIGRATION_OUTPUT_ZATOSHI,
    );
    sum_adds_every_value(notes, (left % 100_000_000) as u64);
    sum_adds_every_value(outputs, 0);
}

} // verus!
