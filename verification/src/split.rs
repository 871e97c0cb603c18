//! The note split: which notes it spends, what it costs and how its outputs balance.
//!
//! A split keeps its value in Orchard: it spends the wallet's version-two notes and fans the value
//! into same-address change outputs, one per planned denomination.

use crate::denominations::{sum, sum_of, sum_push};
use crate::error::{is_pipeline_error, pipeline_error, MigrationError};
use crate::store::{has_ref, ref_views};
use crate::text::{
    ascii_lower, decimal, decimal_int, decimal_int_text, decimal_text, join, lower,
};
use crate::wallet::PoolBalances;
use vstd::prelude::*;
use vstd::string::*;

verus! {

/// ZIP-317 marginal fee per logical action (zatoshi).
pub const MARGINAL_FEE_ZATOSHI: u64 = 5_000;

/// ZIP-317 grace floor on the action count.
pub const GRACE_ACTIONS: u64 = 2;

/// The version of an Orchard note: the second one is held in Orchard, the third one in Ironwood.
#[derive(Clone, Copy, Debug, PartialEq, Eq, Structural)]
pub enum NoteVersion {
    V2,
    V3,
}

/// A spendable note of the wallet: where it stands in the wallet's selection, what it is worth and
/// its version.
#[derive(Clone, Copy, Debug, PartialEq, Eq, Structural)]
pub struct SpendableNote {
    pub position: usize,
    pub value: u64,
    pub version: NoteVersion,
}

// ----- fees and balance -----

/// The ZIP-317 fee of a number of actions.
pub open spec fn actions_fee(actions: nat) -> nat {
    MARGINAL_FEE_ZATOSHI as nat * if actions < GRACE_ACTIONS {
        GRACE_ACTIONS as nat
    } else {
        actions
    }
}

/// Exact ZIP-317 fee for the split transaction. The bundle disables cross-address transfers, so
/// each spend and each change output occupies its own action: `actions = n_spends + n_changes`
/// (floored at the grace count). No sapling or transparent components exist in a split.
pub fn split_fee(n_spends: usize, n_changes: usize) -> (fee: u64)
    requires
        actions_fee((n_spends + n_changes) as nat) <= u64::MAX,
    ensures
        fee == actions_fee((n_spends + n_changes) as nat),
{
    let actions: u64 = (n_spends as u64).saturating_add(n_changes as u64);
    if actions < GRACE_ACTIONS {
        MARGINAL_FEE_ZATOSHI * GRACE_ACTIONS
    } else {
        MARGINAL_FEE_ZATOSHI * actions
    }
}

/// The last output once it has absorbed the difference between what is required of the outputs and
/// what they hold.
pub open spec fn absorbed_last(selected_total: u64, fee: u64, outputs: Seq<u64>) -> int {
    outputs.last() + (selected_total - fee) - sum(outputs)
}

/// What adjusting the outputs gives.
pub open spec fn is_adjustment(
    r: Result<Vec<u64>, MigrationError>,
    selected_total: u64,
    fee: u64,
    outputs: Seq<u64>,
) -> bool {
    if fee > selected_total {
        is_pipeline_error(
            r,
            "note split: fee "@ + decimal(fee as nat) + " exceeds selected total "@ + decimal(
                selected_total as nat,
            ),
        )
    } else if outputs.len() == 0 {
        is_pipeline_error(r, "note split: no outputs to adjust"@)
    } else {
        let last = absorbed_last(selected_total, fee, outputs);
        if last <= 0 {
            is_pipeline_error(
                r,
                "note split: residual absorption drives the last output to "@ + decimal_int(last)
                    + " zatoshi"@,
            )
        } else {
            r matches Ok(adjusted) && adjusted@ == outputs.update(outputs.len() - 1, last as u64)
        }
    }
}

/// Make the planned outputs balance exactly: their sum becomes the selected total less the fee, with
/// the last output absorbing the residual (the denomination plan was made against an estimated fee
/// and the wallet's balance snapshot; the builder requires an exact balance). Errors when the fee
/// exceeds the selected total, when there are no outputs, or when absorption would make the last
/// output non-positive.
pub fn adjust_outputs_for_exact_balance(selected_total: u64, fee: u64, outputs: &[u64]) -> (r: Result<
    Vec<u64>,
    MigrationError,
>)
    requires
        fee <= selected_total ==> sum(outputs@) <= u64::MAX,
    ensures
        is_adjustment(r, selected_total, fee, outputs@),
        r matches Ok(adjusted) ==> sum(adjusted@) == selected_total - fee,
{
    if fee > selected_total {
        let a: String = join("note split: fee ", decimal_text(fee as u128).as_str());
        let b: String = join(a.as_str(), " exceeds selected total ");
        return Err(
            MigrationError::Pipeline(join(b.as_str(), decimal_text(selected_total as u128).as_str())),
        );
    }
    let required: u64 = selected_total - fee;
    let current: u64 = sum_of(outputs);
    let count: usize = outputs.len();
    if count == 0 {
        return Err(MigrationError::Pipeline("note split: no outputs to adjust".to_owned()));
    }
    let new_last: i128 = (outputs[count - 1] as i128) + (required as i128) - (current as i128);
    if new_last <= 0 {
        let a: String = join(
            "note split: residual absorption drives the last output to ",
            decimal_int_text(new_last).as_str(),
        );
        return Err(MigrationError::Pipeline(join(a.as_str(), " zatoshi")));
    }
    let ghost front = outputs@.drop_last();
    proof {
        assert(outputs@ =~= front.push(outputs@.last()));
        sum_push(front, outputs@.last());
    }
    let mut adjusted: Vec<u64> = Vec::new();
    for i in 0..count - 1
        invariant
            count == outputs@.len(),
            count > 0,
            adjusted@ == outputs@.take(i as int),
    {
        adjusted.push(outputs[i]);
        assert(outputs@.take(i + 1) =~= outputs@.take(i as int).push(outputs@[i as int]));
    }
    adjusted.push(new_last as u64);
    proof {
        assert(outputs@.take(count - 1) =~= front);
        assert(adjusted@ =~= outputs@.update(count - 1, new_last as u64));
        sum_push(front, new_last as u64);
        assert(adjusted@ =~= front.push(new_last as u64));
    }
    Ok(adjusted)
}

// ----- the notes that a split spends -----

/// The notes of the second version, in order.
pub open spec fn second_version(notes: Seq<SpendableNote>) -> Seq<SpendableNote>
    decreases notes.len(),
{
    if notes.len() == 0 {
        notes
    } else {
        let before = second_version(notes.drop_last());
        if notes.last().version is V2 {
            before.push(notes.last())
        } else {
            before
        }
    }
}

/// The notes of the second version: notes that already sit in Ironwood are left alone.
pub fn keep_second_version(notes: &[SpendableNote]) -> (kept: Vec<SpendableNote>)
    ensures
        kept@ == second_version(notes@),
        kept@.len() <= notes@.len(),
{
    let mut kept: Vec<SpendableNote> = Vec::new();
    for i in 0..notes.len()
        invariant
            kept@ == second_version(notes@.take(i as int)),
            kept@.len() <= i,
    {
        assert(notes@.take(i + 1).drop_last() =~= notes@.take(i as int));
        if notes[i].version == NoteVersion::V2 {
            kept.push(notes[i]);
        }
    }
    assert(notes@.take(notes@.len() as int) =~= notes@);
    kept
}

/// What selecting the notes of a split gives: nothing without heights, balances or a balance, and
/// otherwise the notes of the second version among those that the wallet selected.
pub open spec fn is_note_selection(
    r: Result<Vec<SpendableNote>, MigrationError>,
    heights: Result<(u32, u32), MigrationError>,
    balances: Result<PoolBalances, MigrationError>,
    selected: Result<Vec<SpendableNote>, String>,
) -> bool {
    match (heights, balances) {
        (Err(e), _) => r == Err::<Vec<SpendableNote>, MigrationError>(e),
        (Ok(_), Err(e)) => r == Err::<Vec<SpendableNote>, MigrationError>(e),
        (Ok(_), Ok(b)) => if b.orchard_spendable == 0 {
            is_pipeline_error(r, "note split: no spendable Orchard balance"@)
        } else {
            match selected {
                Err(text) => is_pipeline_error(r, "note split: select notes: "@ + text@),
                Ok(notes) => r matches Ok(kept) && kept@ == second_version(notes@),
            }
        },
    }
}

/// All spendable Orchard notes of the second version among those that the wallet selected for the
/// whole spendable balance, with locked notes left out; notes of the third version (Ironwood) are
/// filtered out defensively: at split time none should exist yet.
pub fn select_spendable_v2_notes(
    heights: Result<(u32, u32), MigrationError>,
    balances: Result<PoolBalances, MigrationError>,
    selected: Result<Vec<SpendableNote>, String>,
) -> (r: Result<Vec<SpendableNote>, MigrationError>)
    ensures
        is_note_selection(r, heights, balances, selected),
        r matches Ok(kept) ==> (selected matches Ok(notes) && kept@.len() <= notes@.len()),
{
    match heights {
        Err(e) => {
            return Err(e);
        },
        Ok(_) => {},
    }
    let total: u64 = match balances {
        Err(e) => {
            return Err(e);
        },
        Ok(b) => b.orchard_spendable,
    };
    if total == 0 {
        return Err(
            MigrationError::Pipeline("note split: no spendable Orchard balance".to_owned()),
        );
    }
    match selected {
        Err(text) => Err(pipeline_error("note split: select notes: ", text.as_str())),
        Ok(notes) => Ok(keep_second_version(notes.as_slice())),
    }
}

/// The values of some notes.
pub open spec fn note_values(notes: Seq<SpendableNote>) -> Seq<u64> {
    notes.map_values(|n: SpendableNote| n.value)
}

/// What planning a split that spends some notes gives: it needs notes, and its outputs are adjusted to
/// their total and the fee for spending all of them.
pub open spec fn is_split_plan(
    r: Result<Vec<u64>, MigrationError>,
    notes: Seq<SpendableNote>,
    outputs: Seq<u64>,
) -> bool {
    if notes.len() == 0 {
        is_pipeline_error(r, "note split: no spendable Orchard V2 notes"@)
    } else {
        is_adjustment(
            r,
            sum(note_values(notes)) as u64,
            actions_fee((notes.len() + outputs.len()) as nat) as u64,
            outputs,
        )
    }
}

/// The output values of a split that spends the given notes: the planned outputs, balanced exactly
/// against the notes' total and the fee for spending all of them.
pub fn plan_split(notes: &[SpendableNote], outputs: &[u64]) -> (r: Result<Vec<u64>, MigrationError>)
    requires
        notes@.len() > 0 ==> sum(note_values(notes@)) <= u64::MAX && actions_fee(
            (notes@.len() + outputs@.len()) as nat,
        ) <= u64::MAX,
        notes@.len() > 0 && actions_fee((notes@.len() + outputs@.len()) as nat) <= sum(
            note_values(notes@),
        ) ==> sum(outputs@) <= u64::MAX,
    ensures
        is_split_plan(r, notes@, outputs@),
        r matches Ok(adjusted) ==> sum(adjusted@) + actions_fee(
            (notes@.len() + outputs@.len()) as nat,
        ) == sum(note_values(notes@)),
{
    if notes.len() == 0 {
        return Err(
            MigrationError::Pipeline("note split: no spendable Orchard V2 notes".to_owned()),
        );
    }
    let mut values: Vec<u64> = Vec::new();
    for i in 0..notes.len()
        invariant
            values@ == note_values(notes@).take(i as int),
    {
        values.push(notes[i].value);
        assert(note_values(notes@).take(i + 1) =~= note_values(notes@).take(i as int).push(
            notes@[i as int].value,
        ));
    }
    assert(note_values(notes@).take(notes@.len() as int) =~= note_values(notes@));
    let selected_total: u64 = sum_of(values.as_slice());
    let fee: u64 = split_fee(notes.len(), outputs.len());
    adjust_outputs_for_exact_balance(selected_total, fee, outputs)
}

// ----- which notes an operation may spend -----

/// A note that an operation may spend: not spent by an earlier transfer of the batch, and not
/// locked.
pub open spec fn may_spend(
    txid: Seq<char>,
    output_index: u32,
    reserved: Seq<(Seq<char>, u32)>,
    locks: Seq<(Seq<char>, u32)>,
) -> bool {
    !reserved.contains((lower(txid), output_index)) && !locks.contains((lower(txid), output_index))
}

/// Whether an operation may spend the note that a transaction made at an output index; `reserved`
/// are the notes that earlier transfers of the same batch spend.
pub fn is_spendable(
    txid_hex: &str,
    output_index: u32,
    reserved: &[(String, u32)],
    locks: &[(String, u32)],
) -> (b: bool)
    ensures
        b == may_spend(txid_hex@, output_index, ref_views(reserved@), ref_views(locks@)),
{
    let txid: String = ascii_lower(txid_hex);
    !has_ref(reserved, txid.as_str(), output_index) && !has_ref(locks, txid.as_str(), output_index)
}

// ----- laws -----

/// Adjusting changes the last output alone, leaves it positive, and balances the transaction.
pub proof fn adjustment_balances(
    selected_total: u64,
    fee: u64,
    outputs: Seq<u64>,
    i: int,
)
    requires
        fee <= selected_total,
        outputs.len() > 0,
        absorbed_last(selected_total, fee, outputs) > 0,
        0 <= i < outputs.len(),
    ensures
        ({
            let last = absorbed_last(selected_total, fee, outputs);
            let adjusted = outputs.update(outputs.len() - 1, last as u64);
            &&& last <= u64::MAX
            &&& sum(adjusted) + fee == selected_total
            &&& adjusted.len() == outputs.len()
            &&& i < outputs.len() - 1 ==> adjusted[i] == outputs[i]
            &&& adjusted.last() > 0
        }),
{
    let last = absorbed_last(selected_total, fee, outputs);
    let front = outputs.drop_last();
    assert(outputs =~= front.push(outputs.last()));
    sum_push(front, outputs.last());
    sum_push(front, last as u64);
    assert(outputs.update(outputs.len() - 1, last as u64) =~= front.push(last as u64));
}

} // verus!
