//! What holds of the note split: its fee, its notes and how its outputs balance, said of the values
//! themselves.

use crate::context::{is_split_proposal, planned_crossings, split_fee_fits};
use crate::denominations::{available, crossings, self_funding_notes, sum, sum_push};
use crate::error::MigrationError;
use crate::plan_laws::{
    budget_at, crossings_are_greedy, self_funding_notes_hold_their_fee, sum_adds_every_value,
    total_of,
};
use crate::schedule_laws::private_limit_text;
use crate::split::{
    absorbed_last, actions_fee, is_adjustment, is_note_selection, is_split_plan, note_values,
    second_version,
    NoteVersion, SpendableNote,
};
use crate::text::{decimal, decimal_int};
use crate::types::NoteSplitProposal;
use crate::wallet::PoolBalances;
use vstd::arithmetic::power::pow;
use vstd::prelude::*;

verus! {

// ----- the fee -----

/// The fee is 5 000 zatoshi for each action, of which at least two are charged.
pub proof fn fee_is_charged_for_every_action(actions: nat)
    ensures
        actions >= 2 ==> actions_fee(actions) == 5_000 * actions,
        actions < 2 ==> actions_fee(actions) == 10_000,
{
}

// ----- the notes -----

/// The notes that a split spends are those of the second version, all of them and in order.
pub proof fn split_spends_the_second_version(notes: Seq<SpendableNote>)
    ensures
        second_version(notes) == notes.filter(|n: SpendableNote| n.version == NoteVersion::V2),
    decreases notes.len(),
{
    reveal(Seq::filter);
    if notes.len() > 0 {
        split_spends_the_second_version(notes.drop_last());
    }
}

/// The values of some notes are their values, one for each and in order.
pub proof fn note_values_are_their_own(notes: Seq<SpendableNote>)
    ensures
        note_values(notes).len() == notes.len(),
        forall|i: int| 0 <= i < notes.len() ==> #[trigger] note_values(notes)[i] == notes[i].value,
{
}

/// Notes are selected exactly where the heights and the balances could be read, there is a balance and
/// the wallet selected; each failure comes with its own error, in that order.
pub proof fn selection_fails_for_each_reason(
    r: Result<Vec<SpendableNote>, MigrationError>,
    heights: Result<(u32, u32), MigrationError>,
    balances: Result<PoolBalances, MigrationError>,
    selected: Result<Vec<SpendableNote>, String>,
)
    requires
        is_note_selection(r, heights, balances, selected),
    ensures
        heights is Err ==> r == Err::<Vec<SpendableNote>, MigrationError>(heights->Err_0),
        heights is Ok && balances is Err ==> r == Err::<Vec<SpendableNote>, MigrationError>(
            balances->Err_0,
        ),
        heights is Ok && balances is Ok && balances->Ok_0.orchard_spendable == 0 ==> {
            r matches Err(MigrationError::Pipeline(m)) && m@
                == "note split: no spendable Orchard balance"@
        },
        heights is Ok && balances is Ok && balances->Ok_0.orchard_spendable > 0 ==> match selected {
            Err(text) => {
                r matches Err(MigrationError::Pipeline(m)) && m@ == "note split: select notes: "@
                    + text@
            },
            Ok(notes) => {
                r matches Ok(kept) && kept@ == notes@.filter(
                    |n: SpendableNote| n.version == NoteVersion::V2,
                )
            },
        },
{
    if let Ok(notes) = selected {
        split_spends_the_second_version(notes@);
    }
}

// ----- the balance -----

/// Outputs that were adjusted and the fee make up the selected total; only the last output differs
/// from the plan, and it holds something. Adjusting fails exactly where the fee exceeds the total,
/// where there is no output, or where the others leave nothing for the last one.
pub proof fn adjusted_outputs_balance(
    r: Result<Vec<u64>, MigrationError>,
    selected_total: u64,
    fee: u64,
    outputs: Seq<u64>,
)
    requires
        is_adjustment(r, selected_total, fee, outputs),
    ensures
        r is Err <==> {
            ||| fee > selected_total
            ||| outputs.len() == 0
            ||| total_of(outputs.drop_last()) + fee >= selected_total
        },
        r matches Ok(adjusted) ==> {
            &&& adjusted@.len() == outputs.len()
            &&& adjusted@.drop_last() == outputs.drop_last()
            &&& adjusted@.last() > 0
            &&& total_of(adjusted@) + fee == selected_total
        },
        fee > selected_total ==> {
            r matches Err(MigrationError::Pipeline(m)) && m@ == "note split: fee "@ + decimal(
                fee as nat,
            ) + " exceeds selected total "@ + decimal(selected_total as nat)
        },
        fee <= selected_total && outputs.len() == 0 ==> {
            r matches Err(MigrationError::Pipeline(m)) && m@ == "note split: no outputs to adjust"@
        },
        fee <= selected_total && outputs.len() > 0 && r is Err ==> {
            r matches Err(MigrationError::Pipeline(m)) && m@
                == "note split: residual absorption drives the last output to "@ + decimal_int(
                selected_total - fee - total_of(outputs.drop_last()),
            ) + " zatoshi"@
        },
{
    if outputs.len() > 0 {
        let front = outputs.drop_last();
        sum_adds_every_value(front, 0);
        sum_push(front, outputs.last());
        assert(outputs =~= front.push(outputs.last()));
        if let Ok(adjusted) = r {
            let last = absorbed_last(selected_total, fee, outputs) as u64;
            assert(adjusted@ =~= front.push(last));
            assert(adjusted@.drop_last() =~= front);
            sum_adds_every_value(adjusted@, 0);
            sum_push(front, last);
        }
    }
}

// ----- the proposal -----

/// A proposed split has one note for each value that a private migration crosses, with 20 000 zatoshi
/// on top for its fee: the value is the largest power of ten of whole ZEC that what the notes before it
/// leave of the balance, less the 10 000 zatoshi kept for the split, still funds. Its own fee is 5 000
/// zatoshi for each note of the second version that is spent, one at least, and each note that is made,
/// two at least.
pub proof fn proposed_split_funds_every_transfer(
    r: Result<NoteSplitProposal, MigrationError>,
    b: PoolBalances,
    heights: Result<(u32, u32), MigrationError>,
    notes: Vec<SpendableNote>,
    values: Seq<u64>,
    i: int,
)
    requires
        split_fee_fits(Ok(b), heights, Ok(notes)),
        is_split_proposal(r, Ok(b), heights, Ok(notes)),
        r is Ok,
        values == r->Ok_0.output_notes@.map_values(|note: u64| (note - 20_000) as u64),
        0 <= i <= values.len(),
    ensures
        ({
            let budget = if b.orchard_spendable > 10_000 {
                (b.orchard_spendable - 10_000) as nat
            } else {
                0
            };
            let left = budget_at(budget, values, i);
            let second = notes@.filter(|n: SpendableNote| n.version == NoteVersion::V2).len();
            let spends = if second == 0 {
                1
            } else {
                second
            };
            let actions = spends + values.len();
            &&& values.len() <= 64
            &&& i < values.len() ==> {
                &&& r->Ok_0.output_notes@[i] == values[i] + 20_000
                &&& values[i] + 20_000 <= left < 10 * values[i] + 20_000
                &&& exists|k: nat| values[i] == #[trigger] pow(10, k) * 100_000_000
            }
            &&& i == values.len() ==> 0 <= left < 100_020_000
            &&& actions >= 2 ==> r->Ok_0.fee == 5_000 * actions
            &&& actions < 2 ==> r->Ok_0.fee == 10_000
        }),
{
    let planned = planned_crossings(b.orchard_spendable);
    let budget = available(b.orchard_spendable, 10_000);
    assert(planned == crossings(budget));
    assert(r->Ok_0.output_notes@ == self_funding_notes(planned));
    assert(values.len() == planned.len());
    assert forall|j: int| 0 <= j < planned.len() implies values[j] == planned[j] by {
        self_funding_notes_hold_their_fee(budget, j);
        assert(self_funding_notes(planned)[j] == planned[j] + 20_000);
    }
    assert(values =~= planned);
    crossings_are_greedy(budget, i);
    if i < values.len() {
        self_funding_notes_hold_their_fee(budget, i);
    }
    split_spends_the_second_version(notes@);
}

/// A split is proposed exactly where everything could be read, the balance asks for at most 64 notes and
/// is not zero, and the wallet selected notes; each failure comes with its own error.
pub proof fn split_is_refused_for_each_reason(
    r: Result<NoteSplitProposal, MigrationError>,
    balances: Result<PoolBalances, MigrationError>,
    heights: Result<(u32, u32), MigrationError>,
    selected: Result<Vec<SpendableNote>, String>,
)
    requires
        is_split_proposal(r, balances, heights, selected),
    ensures
        balances is Err ==> r == Err::<NoteSplitProposal, MigrationError>(balances->Err_0),
        balances matches Ok(b) ==> {
            let budget = if b.orchard_spendable > 10_000 {
                (b.orchard_spendable - 10_000) as nat
            } else {
                0
            };
            if crossings(budget).len() > 64 {
                r matches Err(MigrationError::Pipeline(m)) && m@
                    == "Migration plan would create 65 prepared notes, above the 64 note limit"@
            } else if heights is Err {
                r == Err::<NoteSplitProposal, MigrationError>(heights->Err_0)
            } else if b.orchard_spendable == 0 {
                r matches Err(MigrationError::Pipeline(m)) && m@
                    == "note split: no spendable Orchard balance"@
            } else {
                match selected {
                    Err(text) => {
                        r matches Err(MigrationError::Pipeline(m)) && m@
                            == "note split: select notes: "@ + text@
                    },
                    Ok(_) => r is Ok,
                }
            }
        },
{
    private_limit_text();
}

/// A planned split and its fee, of 5 000 zatoshi for each note that is spent and each output, two at
/// least, make up the notes that it spends; only the last output differs from the plan.
pub proof fn planned_split_balances(
    r: Result<Vec<u64>, MigrationError>,
    notes: Seq<SpendableNote>,
    outputs: Seq<u64>,
)
    requires
        is_split_plan(r, notes, outputs),
        total_of(note_values(notes)) <= u64::MAX,
        5_000 * (notes.len() + outputs.len()) <= u64::MAX,
    ensures
        ({
            let actions = notes.len() + outputs.len();
            let fee = if actions >= 2 {
                5_000 * actions
            } else {
                10_000
            };
            &&& r is Err <==> {
                ||| notes.len() == 0
                ||| outputs.len() == 0
                ||| total_of(outputs.drop_last()) + fee >= total_of(note_values(notes))
            }
            &&& notes.len() == 0 ==> {
                r matches Err(MigrationError::Pipeline(m)) && m@
                    == "note split: no spendable Orchard V2 notes"@
            }
            &&& r matches Ok(adjusted) ==> {
                &&& adjusted@.len() == outputs.len()
                &&& adjusted@.drop_last() == outputs.drop_last()
                &&& adjusted@.last() > 0
                &&& total_of(adjusted@) + fee == total_of(note_values(notes))
            }
        }),
{
    if notes.len() > 0 {
        let total = sum(note_values(notes));
        let fee = actions_fee((notes.len() + outputs.len()) as nat);
        sum_adds_every_value(note_values(notes), 0);
        adjusted_outputs_balance(r, total as u64, fee as u64, outputs);
        if outputs.len() > 0 {
            sum_adds_every_value(outputs.drop_last(), 0);
        }
    }
}

} // verus!
