//! Note-split planning: how a spendable balance is cut into power-of-ten notes.
//!
//! Two plans are offered. [`plan_denominations`] cuts the balance into whole-ZEC powers of ten and
//! migrates or keeps the residual by its size. [`plan_self_funding_denominations`] gives every note
//! the fee of its own transfer on top of a power of ten, and leaves every residual in Orchard.

use crate::text::{decimal, decimal_text, join};
use vstd::prelude::*;
use vstd::string::*;

verus! {

/// Zatoshis in one ZEC.
pub const ZATOSHIS_PER_ZEC: u64 = 100_000_000;

/// The most notes that one run may prepare.
pub const MIGRATION_MAX_PREPARED_NOTES_PER_RUN: usize = 64;

/// The smallest residual kept as a migration output (below this it folds into the fee).
pub const MIN_IRONWOOD_MIGRATION_OUTPUT_ZATOSHI: u64 = 1;

/// What a self-funding note holds on top of the value that crosses: four marginal fees, for two
/// Orchard and two Ironwood actions.
pub const TRANSFER_FEE_BUFFER_ZATOSHI: u64 = 20_000;

/// The outcome of planning a note split: the per-note migration output values, an optional
/// residual kept in Orchard, and the fee and accounting totals.
#[derive(Clone, Debug, PartialEq, Eq)]
pub struct DenominationPlan {
    pub migration_outputs: Vec<u64>,
    pub orchard_change: Option<u64>,
    pub prep_fee_zatoshi: u64,
    pub migration_fee_zatoshi: u64,
    pub total_input_zatoshi: u64,
    pub total_migratable_zatoshi: u64,
}

/// The outcome of planning a split into self-funding notes: the note values, the values that cross
/// (each note less its fee buffer), and the residual kept in Orchard.
#[derive(Clone, Debug, PartialEq, Eq)]
pub struct SelfFundingPlan {
    pub migration_outputs: Vec<u64>,
    pub crossing_values: Vec<u64>,
    pub orchard_change: Option<u64>,
    pub prep_fee_zatoshi: u64,
    pub total_input_zatoshi: u64,
    pub total_migratable_zatoshi: u64,
}

// ----- sums -----

/// The sum of a sequence of values.
pub open spec fn sum(values: Seq<u64>) -> nat
    decreases values.len(),
{
    if values.len() == 0 {
        0
    } else {
        sum(values.drop_last()) + values.last() as nat
    }
}

pub proof fn sum_push(values: Seq<u64>, v: u64)
    ensures
        sum(values.push(v)) == sum(values) + v,
{
    assert(values.push(v).drop_last() == values);
}

pub proof fn sum_concat(a: Seq<u64>, b: Seq<u64>)
    ensures
        sum(a + b) == sum(a) + sum(b),
    decreases b.len(),
{
    if b.len() == 0 {
        assert(a + b == a);
    } else {
        assert((a + b).drop_last() == a + b.drop_last());
        sum_concat(a, b.drop_last());
    }
}

/// No value exceeds the sum it is part of.
pub proof fn value_is_at_most_the_sum(values: Seq<u64>, i: int)
    requires
        0 <= i < values.len(),
    ensures
        values[i] <= sum(values),
    decreases values.len(),
{
    if i < values.len() - 1 {
        value_is_at_most_the_sum(values.drop_last(), i);
    }
}

// ----- whole-ZEC powers of ten -----

/// `n` copies of one value.
pub open spec fn copies(v: u64, n: nat) -> Seq<u64> {
    Seq::new(n, |i: int| v)
}

/// The notes of a number of whole ZEC: a decimal digit `d` at the place of `10^k` gives `d` notes
/// of `10^k * unit` zatoshi, the largest first.
pub open spec fn digit_notes(whole: nat, unit: nat) -> Seq<u64>
    decreases whole,
{
    if whole == 0 {
        Seq::empty()
    } else {
        digit_notes(whole / 10, 10 * unit) + copies(unit as u64, whole % 10)
    }
}

/// The notes of `whole` when its denominations are handed out from `denom` downwards.
spec fn notes_from(whole: nat, denom: nat, unit: nat) -> Seq<u64>
    decreases denom,
{
    if denom == 0 {
        Seq::empty()
    } else {
        copies((denom * unit) as u64, whole / denom) + notes_from(whole % denom, denom / 10, unit)
    }
}

/// `d` is a power of ten.
pub open spec fn is_power_of_ten(d: nat) -> bool
    decreases d,
{
    d == 1 || (d > 1 && d % 10 == 0 && is_power_of_ten(d / 10))
}

proof fn notes_from_scales(whole: nat, denom: nat, unit: nat)
    requires
        is_power_of_ten(denom),
    ensures
        notes_from(whole, 10 * denom, unit) == notes_from(whole / 10, denom, 10 * unit) + copies(
            unit as u64,
            whole % 10,
        ),
    decreases denom,
{
    let big = 10 * denom;
    assert(whole / big == (whole / 10) / denom && (whole % big) / 10 == (whole / 10) % denom && (whole
        % big) % 10 == whole % 10) by {
        lemma_place_value(whole, denom);
    }
    assert(big * unit == denom * (10 * unit)) by (nonlinear_arith)
        requires
            big == 10 * denom,
    ;
    assert(big / 10 == denom);
    if denom == 1 {
        let r = whole % big;
        assert(r == whole % 10 && r / 1 == r && 1 * unit == unit);
        assert(notes_from(r % 1, 0, unit) == Seq::<u64>::empty());
        assert(notes_from(r, 1, unit) == copies((1 * unit) as u64, r / 1) + notes_from(r % 1, 0, unit));
        assert(notes_from(r, 1, unit) =~= copies(unit as u64, whole % 10));
        assert(notes_from((whole / 10) % 1, 0, 10 * unit) == Seq::<u64>::empty());
        assert(notes_from(whole / 10, 1, 10 * unit) =~= copies((1 * (10 * unit)) as u64, whole / 10));
        assert(notes_from(whole, big, unit) =~= notes_from(whole / 10, denom, 10 * unit) + copies(
            unit as u64,
            whole % 10,
        ));
    } else {
        let small = denom / 10;
        assert(denom == 10 * small);
        notes_from_scales(whole % big, small, unit);
        assert(notes_from(whole, big, unit) =~= notes_from(whole / 10, denom, 10 * unit) + copies(
            unit as u64,
            whole % 10,
        ));
    }
}

proof fn lemma_place_value(whole: nat, denom: nat)
    requires
        denom > 0,
    ensures
        whole / (10 * denom) == (whole / 10) / denom,
        (whole % (10 * denom)) / 10 == (whole / 10) % denom,
        (whole % (10 * denom)) % 10 == whole % 10,
{
    let a = (whole / 10) as int;
    let b = (whole % 10) as int;
    let q = a / denom as int;
    let m = a % denom as int;
    let big = 10 * denom as int;
    vstd::arithmetic::div_mod::lemma_fundamental_div_mod(a, denom as int);
    vstd::arithmetic::div_mod::lemma_mod_bound(a, denom as int);
    let r = 10 * m + b;
    assert(whole == big * q + r) by (nonlinear_arith)
        requires
            whole == 10 * a + b,
            a == denom as int * q + m,
            big == 10 * denom as int,
            r == 10 * m + b,
    ;
    assert(0 <= r < big);
    vstd::arithmetic::div_mod::lemma_fundamental_div_mod_converse(whole as int, big, q, r);
}

proof fn notes_from_is_digit_notes(whole: nat, denom: nat, unit: nat)
    requires
        is_power_of_ten(denom),
        whole < 10 * denom,
    ensures
        notes_from(whole, denom, unit) == digit_notes(whole, unit),
    decreases denom,
{
    if denom == 1 {
        assert(whole / 1 == whole && 1 * unit == unit);
        assert(notes_from(whole % 1, 0, unit) == Seq::<u64>::empty());
        assert(notes_from(whole, 1, unit) =~= copies((1 * unit) as u64, whole));
        assert(digit_notes(whole / 10, 10 * unit) == Seq::<u64>::empty());
        assert(digit_notes(whole, unit) =~= copies(unit as u64, whole));
    } else {
        let small = denom / 10;
        assert(denom == 10 * small);
        notes_from_scales(whole, small, unit);
        notes_from_is_digit_notes(whole / 10, small, 10 * unit);
        if whole == 0 {
            assert(notes_from(whole, denom, unit) =~= Seq::<u64>::empty());
        }
    }
}


/// The sum of the digit notes is the amount they stand for.
pub proof fn digit_notes_sum(whole: nat, unit: nat)
    requires
        whole * unit <= u64::MAX,
    ensures
        sum(digit_notes(whole, unit)) == whole * unit,
    decreases whole,
{
    if whole > 0 {
        let q = whole / 10;
        let r = whole % 10;
        assert(q * (10 * unit) + r * unit == whole * unit && q * (10 * unit) <= whole * unit && unit
            <= whole * unit) by (nonlinear_arith)
            requires
                whole == 10 * q + r,
                whole >= 1,
                unit >= 0,
                r >= 0,
                q >= 0,
        ;
        digit_notes_sum(q, 10 * unit);
        sum_of_copies(unit as u64, r);
        assert(r * unit == unit * r) by (nonlinear_arith);
        sum_concat(digit_notes(q, 10 * unit), copies(unit as u64, r));
    } else {
        assert(whole * unit == 0) by (nonlinear_arith)
            requires
                whole == 0,
        ;
    }
}

proof fn sum_of_copies(v: u64, n: nat)
    ensures
        sum(copies(v, n)) == v * n,
    decreases n,
{
    if n > 0 {
        let m = (n - 1) as nat;
        sum_of_copies(v, m);
        assert(copies(v, n).drop_last() =~= copies(v, m));
        assert(v * n == v * m + v) by (nonlinear_arith)
            requires
                n == m + 1,
        ;
    } else {
        assert(v * n == 0) by (nonlinear_arith)
            requires
                n == 0,
        ;
    }
}

/// Every digit note is a power of ten times the unit.
pub proof fn digit_notes_are_denominations(whole: nat, unit: nat, i: int)
    requires
        whole * unit <= u64::MAX,
        0 <= i < digit_notes(whole, unit).len(),
    ensures
        exists|d: nat| is_power_of_ten(d) && #[trigger] (d * unit) == digit_notes(whole, unit)[i],
    decreases whole,
{
    let q = whole / 10;
    let r = whole % 10;
    assert(q * (10 * unit) <= whole * unit && unit <= whole * unit) by (nonlinear_arith)
        requires
            whole == 10 * q + r,
            whole >= 1,
            unit >= 0,
            r >= 0,
            q >= 0,
    ;
    let upper = digit_notes(q, 10 * unit);
    if i < upper.len() {
        digit_notes_are_denominations(q, 10 * unit, i);
        let d = choose|d: nat| is_power_of_ten(d) && #[trigger] (d * (10 * unit)) == upper[i];
        assert((10 * d) * unit == d * (10 * unit)) by (nonlinear_arith);
        assert((10 * d) / 10 == d && (10 * d) % 10 == 0);
        assert(is_power_of_ten(10 * d));
    } else {
        assert(is_power_of_ten(1));
        assert(1 * unit == digit_notes(whole, unit)[i]) by (nonlinear_arith)
            requires
                unit == digit_notes(whole, unit)[i],
        ;
    }
}

// ----- the plan -----

/// What is left of the input once the preparation fee is paid.
pub open spec fn available(total: u64, prep_fee: u64) -> nat {
    if total <= prep_fee {
        0
    } else {
        (total - prep_fee) as nat
    }
}

/// The note values of a plan over `available` zatoshi: the digit notes of the whole ZEC, and the
/// residual as one more note where it exceeds what its own migration costs.
pub open spec fn planned_outputs(available: nat, threshold: nat) -> Seq<u64> {
    let notes = digit_notes(available / ZATOSHIS_PER_ZEC as nat, ZATOSHIS_PER_ZEC as nat);
    let residual = available % ZATOSHIS_PER_ZEC as nat;
    if residual > threshold {
        notes.push(residual as u64)
    } else {
        notes
    }
}

/// The residual that a plan keeps in Orchard: one too small to migrate, yet worth an output.
pub open spec fn planned_change(available: nat, threshold: nat, minimum: u64) -> Option<u64> {
    let residual = available % ZATOSHIS_PER_ZEC as nat;
    if residual <= threshold && residual >= minimum {
        Some(residual as u64)
    } else {
        None
    }
}

/// What planning a note split gives: nothing where the preparation fee takes all, and otherwise the
/// planned notes and change with their totals, unless the threshold overflows or there are too many.
pub open spec fn is_plan(
    plan: Result<DenominationPlan, String>,
    total_input_zatoshi: u64,
    prep_fee_zatoshi: u64,
    migration_fee_zatoshi: u64,
    minimum_output_zatoshi: u64,
) -> bool {
    &&& total_input_zatoshi <= prep_fee_zatoshi ==> {
        &&& plan is Ok
        &&& plan->Ok_0.migration_outputs@ == Seq::<u64>::empty()
        &&& plan->Ok_0.orchard_change == None::<u64>
        &&& plan->Ok_0.prep_fee_zatoshi == total_input_zatoshi
        &&& plan->Ok_0.migration_fee_zatoshi == migration_fee_zatoshi
        &&& plan->Ok_0.total_input_zatoshi == total_input_zatoshi
        &&& plan->Ok_0.total_migratable_zatoshi == 0
    }
    &&& total_input_zatoshi > prep_fee_zatoshi ==> {
        let left = available(total_input_zatoshi, prep_fee_zatoshi);
        let threshold = (migration_fee_zatoshi + minimum_output_zatoshi) as nat;
        let outputs = planned_outputs(left, threshold);
        if threshold > u64::MAX {
            plan matches Err(e) && e@ == "Residual fee threshold overflow"@
        } else if outputs.len() > MIGRATION_MAX_PREPARED_NOTES_PER_RUN {
            plan matches Err(e) && e@ == over_limit_message(outputs.len())
        } else {
            &&& plan is Ok
            &&& plan->Ok_0.migration_outputs@ == outputs
            &&& plan->Ok_0.orchard_change == planned_change(left, threshold, minimum_output_zatoshi)
            &&& plan->Ok_0.prep_fee_zatoshi == prep_fee_zatoshi
            &&& plan->Ok_0.migration_fee_zatoshi == migration_fee_zatoshi
            &&& plan->Ok_0.total_input_zatoshi == total_input_zatoshi
            &&& plan->Ok_0.total_migratable_zatoshi == sum(outputs)
        }
    }
}

/// The message for a plan of `n` notes when that is too many.
pub open spec fn over_limit_message(n: nat) -> Seq<char> {
    "Migration plan would create "@ + decimal(n) + " prepared notes, above the "@ + decimal(
        MIGRATION_MAX_PREPARED_NOTES_PER_RUN as nat,
    ) + " note limit"@
}

fn over_limit_text(n: usize) -> (s: String)
    ensures
        s@ == over_limit_message(n as nat),
{
    let a: String = join("Migration plan would create ", decimal_text(n as u128).as_str());
    let b: String = join(a.as_str(), " prepared notes, above the ");
    let c: String = join(
        b.as_str(),
        decimal_text(MIGRATION_MAX_PREPARED_NOTES_PER_RUN as u128).as_str(),
    );
    join(c.as_str(), " note limit")
}

/// Pushes the notes of `whole` ZEC, from the largest power of ten down.
fn push_digit_notes(whole: u64) -> (outputs: Vec<u64>)
    requires
        whole <= u64::MAX / ZATOSHIS_PER_ZEC,
    ensures
        outputs@ == digit_notes(whole as nat, ZATOSHIS_PER_ZEC as nat),
        outputs@.len() <= whole,
{
    let mut denom: u64 = 1;
    while denom <= whole / 10
        invariant
            is_power_of_ten(denom as nat),
            denom <= whole || denom == 1,
            whole <= u64::MAX / ZATOSHIS_PER_ZEC,
        decreases whole - denom,
    {
        assert((denom * 10) / 10 == denom && (denom * 10) % 10 == 0);
        denom = denom * 10;
    }
    let ghost unit = ZATOSHIS_PER_ZEC as nat;
    let mut outputs: Vec<u64> = Vec::new();
    let mut remaining: u64 = whole;
    proof {
        notes_from_is_digit_notes(whole as nat, denom as nat, unit);
        assert(outputs@ + notes_from(remaining as nat, denom as nat, unit) =~= notes_from(
            whole as nat,
            denom as nat,
            unit,
        ));
    }
    while denom > 0
        invariant
            denom == 0 || is_power_of_ten(denom as nat),
            denom <= whole || denom <= 1,
            remaining < 10 * denom || (denom == 0 && remaining == 0),
            unit == ZATOSHIS_PER_ZEC,
            outputs@ + notes_from(remaining as nat, denom as nat, unit) == digit_notes(whole as nat, unit),
            outputs@.len() + remaining <= whole,
            whole <= u64::MAX / ZATOSHIS_PER_ZEC,
        decreases denom,
    {
        let ghost before = outputs@;
        let ghost at = remaining as nat;
        let ghost mut taken: nat = 0;
        while remaining >= denom
            invariant
                denom > 0,
                denom <= whole || denom <= 1,
                unit == ZATOSHIS_PER_ZEC,
                at == remaining + denom * taken,
                outputs@ == before + copies((denom * unit) as u64, taken),
                outputs@.len() + remaining <= whole,
                whole <= u64::MAX / ZATOSHIS_PER_ZEC,
            decreases remaining,
        {
            assert(denom * unit <= u64::MAX && denom * unit <= whole * unit) by (nonlinear_arith)
                requires
                    denom <= whole,
                    unit == 100_000_000,
                    whole <= u64::MAX / 100_000_000,
            ;
            outputs.push(denom * ZATOSHIS_PER_ZEC);
            remaining = remaining - denom;
            proof {
                assert(denom * (taken + 1) == denom * taken + denom) by (nonlinear_arith);
                taken = taken + 1;
            }
            assert(copies((denom * unit) as u64, taken) =~= copies(
                (denom * unit) as u64,
                (taken - 1) as nat,
            ).push((denom * unit) as u64));
        }
        proof {
            assert(denom * taken == taken * denom) by (nonlinear_arith);
            vstd::arithmetic::div_mod::lemma_fundamental_div_mod_converse(
                at as int,
                denom as int,
                taken as int,
                remaining as int,
            );
            assert(outputs@ + notes_from(remaining as nat, denom as nat / 10, unit) =~= before
                + notes_from(at, denom as nat, unit));
            if denom > 1 {
                assert(denom == 10 * (denom / 10));
            }
        }
        denom = denom / 10;
    }
    proof {
        assert(outputs@ + Seq::<u64>::empty() =~= outputs@);
    }
    outputs
}

/// The sum of some values, which must fit.
pub fn sum_of(values: &[u64]) -> (total: u64)
    requires
        sum(values@) <= u64::MAX,
    ensures
        total == sum(values@),
{
    let mut total: u64 = 0;
    for i in 0..values.len()
        invariant
            total == sum(values@.take(i as int)),
            sum(values@) <= u64::MAX,
    {
        proof {
            assert(values@.take(i + 1) =~= values@.take(i as int).push(values@[i as int]));
            sum_push(values@.take(i as int), values@[i as int]);
            sum_concat(values@.take(i + 1), values@.skip(i + 1));
            assert(values@.take(i + 1) + values@.skip(i + 1) =~= values@);
        }
        total = total + values[i];
    }
    assert(values@.take(values@.len() as int) =~= values@);
    total
}

/// Decompose `total_input_zatoshi` (after reserving the prep fee) into a set of power-of-10 ZEC
/// denominations plus a sub-ZEC residual, capped at [`MIGRATION_MAX_PREPARED_NOTES_PER_RUN`] notes.
///
/// A residual below the minimum output becomes extra transaction fee.
pub fn plan_denominations(
    total_input_zatoshi: u64,
    prep_fee_zatoshi: u64,
    migration_fee_zatoshi: u64,
    minimum_output_zatoshi: u64,
) -> (plan: Result<DenominationPlan, String>)
    ensures
        is_plan(
            plan,
            total_input_zatoshi,
            prep_fee_zatoshi,
            migration_fee_zatoshi,
            minimum_output_zatoshi,
        ),
{
    if total_input_zatoshi <= prep_fee_zatoshi {
        return Ok(
            DenominationPlan {
                migration_outputs: Vec::new(),
                orchard_change: None,
                prep_fee_zatoshi: total_input_zatoshi,
                migration_fee_zatoshi,
                total_input_zatoshi,
                total_migratable_zatoshi: 0,
            },
        );
    }
    let left: u64 = total_input_zatoshi - prep_fee_zatoshi;
    let whole_zec: u64 = left / ZATOSHIS_PER_ZEC;
    let remainder: u64 = left % ZATOSHIS_PER_ZEC;
    let mut outputs: Vec<u64> = push_digit_notes(whole_zec);
    let threshold: u64 = match migration_fee_zatoshi.checked_add(minimum_output_zatoshi) {
        Some(t) => t,
        None => {
            return Err("Residual fee threshold overflow".to_owned());
        },
    };
    proof {
        digit_notes_sum(whole_zec as nat, ZATOSHIS_PER_ZEC as nat);
        sum_push(outputs@, remainder);
    }
    let orchard_change: Option<u64> = if remainder > threshold {
        outputs.push(remainder);
        None
    } else if remainder >= minimum_output_zatoshi {
        Some(remainder)
    } else {
        None
    };
    if outputs.len() > MIGRATION_MAX_PREPARED_NOTES_PER_RUN {
        return Err(over_limit_text(outputs.len()));
    }
    let total_migratable_zatoshi: u64 = sum_of(outputs.as_slice());
    Ok(
        DenominationPlan {
            migration_outputs: outputs,
            orchard_change,
            prep_fee_zatoshi,
            migration_fee_zatoshi,
            total_input_zatoshi,
            total_migratable_zatoshi,
        },
    )
}


/// The value of an optional residual.
pub open spec fn amount_of(change: Option<u64>) -> nat {
    match change {
        Some(v) => v as nat,
        None => 0,
    }
}

/// A plan hands out all that is left after the preparation fee, but for a residual below the
/// minimum output, which goes into the fee.
pub proof fn plan_accounts_for_the_input(left: nat, threshold: nat, minimum: u64)
    requires
        left <= u64::MAX,
    ensures
        ({
            let kept = sum(planned_outputs(left, threshold)) + amount_of(
                planned_change(left, threshold, minimum),
            );
            &&& kept <= left
            &&& kept == left || left - kept < minimum
        }),
{
    let whole = left / ZATOSHIS_PER_ZEC as nat;
    let residual = left % ZATOSHIS_PER_ZEC as nat;
    digit_notes_sum(whole, ZATOSHIS_PER_ZEC as nat);
    sum_push(digit_notes(whole, ZATOSHIS_PER_ZEC as nat), residual as u64);
}

/// Every planned note but a migrated residual is a power of ten of whole ZEC; a migrated residual is
/// less than one ZEC.
pub proof fn planned_outputs_are_denominations(left: nat, threshold: nat, i: int)
    requires
        left <= u64::MAX,
        0 <= i < planned_outputs(left, threshold).len(),
    ensures
        ({
            let v = planned_outputs(left, threshold)[i];
            ||| exists|d: nat| is_power_of_ten(d) && #[trigger] (d * ZATOSHIS_PER_ZEC as nat) == v
            ||| (i == planned_outputs(left, threshold).len() - 1 && threshold < v && v
                < ZATOSHIS_PER_ZEC)
        }),
{
    let whole = left / ZATOSHIS_PER_ZEC as nat;
    let notes = digit_notes(whole, ZATOSHIS_PER_ZEC as nat);
    if i < notes.len() {
        digit_notes_are_denominations(whole, ZATOSHIS_PER_ZEC as nat, i);
    }
}

// ----- self-funding notes -----

/// The largest value `d * 10^k` that a budget can fund together with the fee buffer, for a `d` that
/// it can fund.
pub open spec fn largest_from(d: nat, budget: nat) -> nat
    decreases budget - d,
{
    if 0 < d && 10 * d + TRANSFER_FEE_BUFFER_ZATOSHI <= budget {
        largest_from(10 * d, budget)
    } else {
        d
    }
}

/// The largest power-of-ten ZEC value whose self-funding note fits a budget.
pub open spec fn largest_crossing(budget: nat) -> nat {
    largest_from(ZATOSHIS_PER_ZEC as nat, budget)
}

/// Whether a budget funds a note of the smallest denomination.
pub open spec fn funds_a_note(budget: nat) -> bool {
    budget >= ZATOSHIS_PER_ZEC + TRANSFER_FEE_BUFFER_ZATOSHI
}

/// The largest value fits its budget, and ten times as much does not.
pub proof fn largest_from_fits(d: nat, budget: nat)
    requires
        0 < d,
        d + TRANSFER_FEE_BUFFER_ZATOSHI <= budget,
    ensures
        largest_from(d, budget) >= d,
        largest_from(d, budget) + TRANSFER_FEE_BUFFER_ZATOSHI <= budget,
        10 * largest_from(d, budget) + TRANSFER_FEE_BUFFER_ZATOSHI > budget,
    decreases budget - d,
{
    if 10 * d + TRANSFER_FEE_BUFFER_ZATOSHI <= budget {
        largest_from_fits(10 * d, budget);
    }
}

/// What stays of a budget once its largest note is taken.
pub open spec fn after_largest(budget: nat) -> nat {
    (budget - largest_crossing(budget) - TRANSFER_FEE_BUFFER_ZATOSHI) as nat
}

/// The values that cross when a budget is spent greedily on self-funding notes.
pub open spec fn crossings(budget: nat) -> Seq<u64>
    decreases budget,
{
    if funds_a_note(budget) {
        proof {
            largest_from_fits(ZATOSHIS_PER_ZEC as nat, budget);
        }
        seq![largest_crossing(budget) as u64] + crossings(after_largest(budget))
    } else {
        Seq::empty()
    }
}

/// What is left of a budget when no further self-funding note fits.
pub open spec fn unfunded(budget: nat) -> nat
    decreases budget,
{
    if funds_a_note(budget) {
        proof {
            largest_from_fits(ZATOSHIS_PER_ZEC as nat, budget);
        }
        unfunded(after_largest(budget))
    } else {
        budget
    }
}

/// The self-funding note of a crossing value.
pub open spec fn self_funding(crossing: u64) -> u64 {
    (crossing + TRANSFER_FEE_BUFFER_ZATOSHI) as u64
}

/// The notes of a sequence of crossing values.
pub open spec fn self_funding_notes(crossing_values: Seq<u64>) -> Seq<u64> {
    crossing_values.map_values(|c: u64| self_funding(c))
}

/// A residual as change: present where there is any.
pub open spec fn change_of(residual: nat) -> Option<u64> {
    if residual > 0 {
        Some(residual as u64)
    } else {
        None
    }
}

/// What planning a split into self-funding notes gives, unless there are too many.
pub open spec fn is_self_funding_plan(
    plan: Result<SelfFundingPlan, String>,
    total_input_zatoshi: u64,
    prep_fee_zatoshi: u64,
) -> bool {
    let budget = available(total_input_zatoshi, prep_fee_zatoshi);
    let values = crossings(budget);
    if values.len() > MIGRATION_MAX_PREPARED_NOTES_PER_RUN {
        plan matches Err(e) && e@ == over_limit_message(
            (MIGRATION_MAX_PREPARED_NOTES_PER_RUN + 1) as nat,
        )
    } else {
        &&& plan is Ok
        &&& plan->Ok_0.crossing_values@ == values
        &&& plan->Ok_0.migration_outputs@ == self_funding_notes(values)
        &&& plan->Ok_0.orchard_change == change_of(unfunded(budget))
        &&& plan->Ok_0.prep_fee_zatoshi == prep_fee_zatoshi
        &&& plan->Ok_0.total_input_zatoshi == total_input_zatoshi
        &&& plan->Ok_0.total_migratable_zatoshi == sum(values)
    }
}

/// The notes of a budget and what they leave of it make up the budget, and every crossing value is
/// a power of ten of whole ZEC.
pub proof fn crossings_account(budget: nat)
    requires
        budget <= u64::MAX,
    ensures
        sum(self_funding_notes(crossings(budget))) + unfunded(budget) == budget,
        sum(crossings(budget)) + TRANSFER_FEE_BUFFER_ZATOSHI * crossings(budget).len() + unfunded(
            budget,
        ) == budget,
        unfunded(budget) < ZATOSHIS_PER_ZEC + TRANSFER_FEE_BUFFER_ZATOSHI,
        forall|i: int|
            0 <= i < crossings(budget).len() ==> exists|d: nat|
                is_power_of_ten(d) && (#[trigger] (d * ZATOSHIS_PER_ZEC)) == #[trigger] crossings(
                    budget,
                )[i],
    decreases budget,
{
    if funds_a_note(budget) {
        let c = largest_crossing(budget);
        let rest = after_largest(budget);
        largest_from_fits(ZATOSHIS_PER_ZEC as nat, budget);
        crossings_account(rest);
        let tail = crossings(rest);
        let all = crossings(budget);
        sum_concat(seq![c as u64], tail);
        sum_push(Seq::<u64>::empty(), c as u64);
        assert(seq![c as u64] =~= Seq::<u64>::empty().push(c as u64));
        let notes = self_funding_notes(tail);
        let note = self_funding(c as u64);
        assert(self_funding_notes(all) =~= seq![note] + notes);
        sum_concat(seq![note], notes);
        sum_push(Seq::<u64>::empty(), note);
        assert(seq![note] =~= Seq::<u64>::empty().push(note));
        assert forall|i: int| 0 <= i < all.len() implies exists|d: nat|
            is_power_of_ten(d) && (#[trigger] (d * ZATOSHIS_PER_ZEC)) == #[trigger] all[i] by {
            if i == 0 {
                assert(is_power_of_ten(1));
                assert(1 * ZATOSHIS_PER_ZEC == ZATOSHIS_PER_ZEC);
                largest_from_is_scaled(1, ZATOSHIS_PER_ZEC as nat, budget);
            } else {
                assert(all[i] == tail[i - 1]);
            }
        }
    } else {
        assert(self_funding_notes(crossings(budget)) =~= Seq::<u64>::empty());
    }
}

proof fn largest_from_is_scaled(k: nat, d: nat, budget: nat)
    requires
        0 < d,
        is_power_of_ten(k),
        d == k * ZATOSHIS_PER_ZEC,
    ensures
        exists|p: nat| is_power_of_ten(p) && #[trigger] (p * ZATOSHIS_PER_ZEC) == largest_from(d, budget),
    decreases budget - d,
{
    if 10 * d + TRANSFER_FEE_BUFFER_ZATOSHI <= budget {
        assert((10 * k) / 10 == k && (10 * k) % 10 == 0);
        assert(is_power_of_ten(10 * k));
        largest_from_is_scaled(10 * k, 10 * d, budget);
    }
}

/// Finds the largest power-of-ten ZEC value whose self-funding note fits the budget.
fn pick_crossing(budget: u64) -> (d: u64)
    requires
        funds_a_note(budget as nat),
    ensures
        d == largest_crossing(budget as nat),
        d + TRANSFER_FEE_BUFFER_ZATOSHI <= budget,
        d >= ZATOSHIS_PER_ZEC,
{
    let mut d: u64 = ZATOSHIS_PER_ZEC;
    while d <= (budget - TRANSFER_FEE_BUFFER_ZATOSHI) / 10
        invariant
            d >= ZATOSHIS_PER_ZEC,
            d + TRANSFER_FEE_BUFFER_ZATOSHI <= budget,
            largest_from(d as nat, budget as nat) == largest_crossing(budget as nat),
        decreases budget - d,
    {
        d = d * 10;
    }
    d
}

/// Splits `total_input_zatoshi`, after reserving the prep fee, into self-funding notes: greedily
/// the largest power-of-ten ZEC value plus [`TRANSFER_FEE_BUFFER_ZATOSHI`] that still fits. What no
/// whole-ZEC note can hold stays in Orchard as change and never becomes fee. At most
/// [`MIGRATION_MAX_PREPARED_NOTES_PER_RUN`] notes are planned.
pub fn plan_self_funding_denominations(total_input_zatoshi: u64, prep_fee_zatoshi: u64) -> (plan:
    Result<SelfFundingPlan, String>)
    ensures
        is_self_funding_plan(plan, total_input_zatoshi, prep_fee_zatoshi),
{
    let start: u64 = if total_input_zatoshi <= prep_fee_zatoshi {
        0
    } else {
        total_input_zatoshi - prep_fee_zatoshi
    };
    let mut budget: u64 = start;
    let mut outputs: Vec<u64> = Vec::new();
    let mut values: Vec<u64> = Vec::new();
    assert(values@ + crossings(budget as nat) =~= crossings(start as nat));
    assert(outputs@ =~= self_funding_notes(values@));
    while budget >= ZATOSHIS_PER_ZEC + TRANSFER_FEE_BUFFER_ZATOSHI
        invariant
            values@ + crossings(budget as nat) == crossings(start as nat),
            unfunded(budget as nat) == unfunded(start as nat),
            outputs@ == self_funding_notes(values@),
            values@.len() <= MIGRATION_MAX_PREPARED_NOTES_PER_RUN,
            start as nat == available(total_input_zatoshi, prep_fee_zatoshi),
        decreases budget,
    {
        let d: u64 = pick_crossing(budget);
        let note: u64 = d + TRANSFER_FEE_BUFFER_ZATOSHI;
        let ghost seen = values@;
        outputs.push(note);
        values.push(d);
        proof {
            assert(outputs@ =~= self_funding_notes(values@));
            assert(values@ + crossings(after_largest(budget as nat)) =~= seen + crossings(budget as nat));
        }
        budget = budget - note;
        if outputs.len() > MIGRATION_MAX_PREPARED_NOTES_PER_RUN {
            return Err(over_limit_text(outputs.len()));
        }
    }
    proof {
        assert(values@ + Seq::<u64>::empty() =~= values@);
        crossings_account(start as nat);
    }
    let total_migratable_zatoshi: u64 = sum_of(values.as_slice());
    Ok(
        SelfFundingPlan {
            migration_outputs: outputs,
            crossing_values: values,
            orchard_change: if budget > 0 {
                Some(budget)
            } else {
                None
            },
            prep_fee_zatoshi,
            total_input_zatoshi,
            total_migratable_zatoshi,
        },
    )
}

} // verus!
