//! What holds of the rows and of what is read from the tables, said of the rows' own fields.

use crate::context_laws::new_transfers_are_appended;
use crate::rows::{
    optional_text, NoteView, PendingTxRow, PendingTxView, PendingView, PrepTxRow, PrepView,
    PreparedNote, PreparedNoteView, RunRow, RunView, StoredNote, StoredPending, StoredRun,
};
use crate::state::phase_name;
use crate::store::{
    are_broadcasted, are_notes_stored, are_transfers_stored, count_of_run, count_with_status,
    first_due, first_send_height, is_cleared, is_due, is_live_run, is_locked_note, is_prep_read,
    is_prep_stored, is_run_inserted, is_run_read, is_scheduled, is_store_of, key_taken_error,
    locked_refs, new_run_row, newest_live, note_ref, note_views, notes_with, optional_run,
    optional_tx, pending_views, pending_with, pending_with_status, prep_views, prepared_views,
    preps_with_status, read_optional_run, read_run, run_views, runs_with_phase, text_views,
    totals_of, tx_of, tx_views, txids_with_status, without_scheduled, NewRun, Store, StoreView,
};
use crate::store_laws::{
    next_due_transfer_is_the_earliest, next_send_height_is_the_smallest, totals_add_up,
};
use crate::table::{
    keys_are_unique, lookup, position, position_holds, position_is, upserted, upserted_row_is_found,
    Row,
};
use crate::text::{lower, text_before};
use vstd::prelude::*;

verus! {

// ----- views -----

/// The view of a stored run holds each of its fields.
pub proof fn run_view_holds_every_field(r: StoredRun)
    ensures
        r@.run_id == r.run_id@,
        r@.account_uuid == r.account_uuid@,
        r@.network == r.network@,
        r@.db_fingerprint == r.db_fingerprint@,
        r@.phase == r.phase@,
        r@.created_at_ms == r.created_at_ms,
        r@.updated_at_ms == r.updated_at_ms,
        r.prep_txid matches Some(t) ==> r@.prep_txid == Some(t@),
        r.prep_txid is None ==> r@.prep_txid is None,
        r@.target_values_json == r.target_values_json@,
        r.last_error matches Some(e) ==> r@.last_error == Some(e@),
        r.last_error is None ==> r@.last_error is None,
{
}

/// The view of a run that was read holds each of its fields.
pub proof fn read_run_view_holds_every_field(r: RunRow)
    ensures
        r@.run_id == r.run_id@,
        r@.account_uuid == r.account_uuid@,
        r@.network == r.network@,
        r@.phase == r.phase@,
        r.prep_txid matches Some(t) ==> r@.prep_txid == Some(t@),
        r.prep_txid is None ==> r@.prep_txid is None,
        r@.target_values == r.target_values@,
        r.last_error matches Some(e) ==> r@.last_error == Some(e@),
        r.last_error is None ==> r@.last_error is None,
{
}

/// The view of a stored note holds each of its fields.
pub proof fn note_view_holds_every_field(r: StoredNote)
    ensures
        r@.run_id == r.run_id@,
        r@.note.txid_hex == r.note.txid_hex@,
        r@.note.output_index == r.note.output_index,
        r@.note.value_zatoshi == r.note.value_zatoshi,
        r@.note.note_version == r.note.note_version,
        r.note.nullifier_hex matches Some(n) ==> r@.note.nullifier_hex == Some(n@),
        r.note.nullifier_hex is None ==> r@.note.nullifier_hex is None,
        r@.note.lock_state == r.note.lock_state@,
{
}

/// The view of a pending transfer holds each of its fields.
pub proof fn transfer_row_view_holds_every_field(r: PendingTxRow)
    ensures
        r@.txid_hex == r.txid_hex@,
        r@.raw_pczt == r.raw_pczt@,
        r@.anchor_height == r.anchor_height,
        r@.target_height == r.target_height,
        r@.next_executable_after_height == r.next_executable_after_height,
        r@.expiry_height == r.expiry_height,
        r@.value_zatoshi == r.value_zatoshi,
        r@.fee_zatoshi == r.fee_zatoshi,
        r@.selected_note_txid == r.selected_note_txid@,
        r@.selected_note_output_index == r.selected_note_output_index,
        r@.selected_note_value == r.selected_note_value,
        r@.status == r.status@,
        r@.metadata_json == r.metadata_json@,
{
}

/// The view of a stored transfer holds its run and its transfer.
pub proof fn pending_view_holds_every_field(r: StoredPending)
    ensures
        r@.run_id == r.run_id@,
        r@.tx == r.tx@,
{
}

/// The view of a prep transaction holds each of its fields.
pub proof fn prep_view_holds_every_field(r: PrepTxRow)
    ensures
        r@.run_id == r.run_id@,
        r@.txid_hex == r.txid_hex@,
        r@.raw_pczt == r.raw_pczt@,
        r@.status == r.status@,
{
}

/// The views of a table are those of its rows, one for each and in order.
pub proof fn table_views_hold_every_row(
    runs: Seq<StoredRun>,
    notes: Seq<StoredNote>,
    prep: Seq<PrepTxRow>,
    pending: Seq<StoredPending>,
)
    ensures
        run_views(runs).len() == runs.len(),
        forall|i: int| 0 <= i < runs.len() ==> #[trigger] run_views(runs)[i] == runs[i]@,
        note_views(notes).len() == notes.len(),
        forall|i: int| 0 <= i < notes.len() ==> #[trigger] note_views(notes)[i] == notes[i]@,
        prep_views(prep).len() == prep.len(),
        forall|i: int| 0 <= i < prep.len() ==> #[trigger] prep_views(prep)[i] == prep[i]@,
        pending_views(pending).len() == pending.len(),
        forall|i: int|
            0 <= i < pending.len() ==> #[trigger] pending_views(pending)[i] == pending[i]@,
{
}

// ----- keys -----

/// The tables are sound exactly when no two runs share an id, no two notes share their run, transaction
/// and output index, no two prep transactions share their run, and no two transfers share their
/// transaction id.
pub proof fn sound_tables_repeat_no_key(s: StoreView)
    ensures
        s.wf() <==> {
            &&& forall|i: int, j: int|
                0 <= i < j < s.runs.len() ==> (#[trigger] s.runs[i]).run_id != (
                #[trigger] s.runs[j]).run_id
            &&& forall|i: int, j: int|
                0 <= i < j < s.notes.len() ==> {
                    ||| (#[trigger] s.notes[i]).run_id != (#[trigger] s.notes[j]).run_id
                    ||| s.notes[i].note.txid_hex != s.notes[j].note.txid_hex
                    ||| s.notes[i].note.output_index != s.notes[j].note.output_index
                }
            &&& forall|i: int, j: int|
                0 <= i < j < s.prep.len() ==> (#[trigger] s.prep[i]).run_id != (
                #[trigger] s.prep[j]).run_id
            &&& forall|i: int, j: int|
                0 <= i < j < s.pending.len() ==> (#[trigger] s.pending[i]).tx.txid_hex != (
                #[trigger] s.pending[j]).tx.txid_hex
        },
{
    if s.wf() {
        assert forall|i: int, j: int| 0 <= i < j < s.runs.len() implies (#[trigger] s.runs[i]).run_id
            != (#[trigger] s.runs[j]).run_id by {
            assert(s.runs[i].key() != s.runs[j].key());
        }
        assert forall|i: int, j: int| 0 <= i < j < s.notes.len() implies {
            ||| (#[trigger] s.notes[i]).run_id != (#[trigger] s.notes[j]).run_id
            ||| s.notes[i].note.txid_hex != s.notes[j].note.txid_hex
            ||| s.notes[i].note.output_index != s.notes[j].note.output_index
        } by {
            assert(s.notes[i].key() != s.notes[j].key());
        }
        assert forall|i: int, j: int| 0 <= i < j < s.prep.len() implies (#[trigger] s.prep[i]).run_id
            != (#[trigger] s.prep[j]).run_id by {
            assert(s.prep[i].key() != s.prep[j].key());
        }
        assert forall|i: int, j: int|
            0 <= i < j < s.pending.len() implies (#[trigger] s.pending[i]).tx.txid_hex != (
        #[trigger] s.pending[j]).tx.txid_hex by {
            assert(s.pending[i].key() != s.pending[j].key());
        }
    }
}

/// A row is found by its key exactly where one with that key stands in the table, and is that row.
pub proof fn found_row_has_the_key<R: Row>(rows: Seq<R>, key: R::Key)
    ensures
        lookup(rows, key) matches Some(r) ==> r.key() == key && exists|i: int|
            0 <= i < rows.len() && #[trigger] rows[i] == r,
        lookup(rows, key) is None <==> forall|i: int|
            0 <= i < rows.len() ==> (#[trigger] rows[i]).key() != key,
{
    position_holds(rows, key);
    if let Some(i) = position(rows, key) {
        assert(rows[i] == lookup(rows, key)->Some_0);
    }
}

/// An inserted row stands last; every other row with another key stays, in the order it had, and none
/// with its key does.
pub proof fn inserted_row_stands_last<R: Row>(rows: Seq<R>, row: R)
    requires
        keys_are_unique(rows),
    ensures
        upserted(rows, row).last() == row,
        upserted(rows, row).drop_last() == rows.filter(|r: R| r.key() != row.key()),
{
    let others = |r: R| r.key() != row.key();
    position_holds(rows, row.key());
    match position(rows, row.key()) {
        Some(at) => {
            assert forall|i: int| 0 <= i < rows.len() && i != at implies others(
                #[trigger] rows[i],
            ) by {
                if i < at {
                    assert(rows[i].key() != rows[at].key());
                } else {
                    assert(rows[at].key() != rows[i].key());
                }
            }
            filter_drops_one(rows, others, at);
            assert(upserted(rows, row).drop_last() =~= rows.remove(at));
        },
        None => {
            filter_keeps_all(rows, others);
            assert(upserted(rows, row).drop_last() =~= rows);
        },
    }
}

proof fn filter_keeps_all<A>(rows: Seq<A>, keep: spec_fn(A) -> bool)
    requires
        forall|i: int| 0 <= i < rows.len() ==> keep(#[trigger] rows[i]),
    ensures
        rows.filter(keep) == rows,
    decreases rows.len(),
{
    reveal(Seq::filter);
    if rows.len() > 0 {
        assert(keep(rows[rows.len() - 1]));
        assert forall|i: int| 0 <= i < rows.drop_last().len() implies keep(
            #[trigger] rows.drop_last()[i],
        ) by {
            assert(keep(rows[i]));
        }
        filter_keeps_all(rows.drop_last(), keep);
        assert(rows.drop_last().push(rows.last()) =~= rows);
    }
}

proof fn filter_drops_one<A>(rows: Seq<A>, keep: spec_fn(A) -> bool, at: int)
    requires
        0 <= at < rows.len(),
        !keep(rows[at]),
        forall|i: int| 0 <= i < rows.len() && i != at ==> keep(#[trigger] rows[i]),
    ensures
        rows.filter(keep) == rows.remove(at),
    decreases rows.len(),
{
    reveal(Seq::filter);
    let front = rows.drop_last();
    assert forall|i: int| 0 <= i < front.len() && i != at implies keep(#[trigger] front[i]) by {
        assert(keep(rows[i]));
    }
    if at == rows.len() - 1 {
        filter_keeps_all(front, keep);
        assert(rows.remove(at) =~= front);
    } else {
        filter_drops_one(front, keep, at);
        assert(keep(rows[rows.len() - 1]));
        assert(front.remove(at).push(rows.last()) =~= rows.remove(at));
    }
}

// ----- runs -----

/// A new run is stored with the fields it was handed in, in its phase, created and updated now, and
/// without an error.
pub proof fn new_run_is_stored_as_given(run: NewRun, now: i64)
    ensures
        ({
            let row = new_run_row(run, now);
            &&& row.run_id == run.run_id@
            &&& row.account_uuid == run.account_uuid@
            &&& row.network == run.network@
            &&& row.db_fingerprint == run.db_fingerprint@
            &&& row.phase == phase_name(run.phase)
            &&& row.created_at_ms == now
            &&& row.updated_at_ms == now
            &&& run.prep_txid matches Some(t) ==> row.prep_txid == Some(t@)
            &&& run.prep_txid is None ==> row.prep_txid is None
            &&& row.last_error is None
        }),
{
}

/// A run is read with the fields it is stored with.
pub proof fn run_is_read_as_stored(row: Option<RunRow>, stored: Option<RunView>)
    requires
        optional_run(row) == read_optional_run(stored),
    ensures
        row is Some <==> stored is Some,
        row is Some ==> {
            &&& row->Some_0.run_id@ == stored->Some_0.run_id
            &&& row->Some_0.account_uuid@ == stored->Some_0.account_uuid
            &&& row->Some_0.network@ == stored->Some_0.network
            &&& row->Some_0.phase@ == stored->Some_0.phase
            &&& optional_text(row->Some_0.prep_txid) == stored->Some_0.prep_txid
            &&& optional_text(row->Some_0.last_error) == stored->Some_0.last_error
        },
{
    if let (Some(a), Some(b)) = (row, stored) {
        assert(a@ == read_run(b));
    }
}

/// A run that is not finished: its phase is none of the three terminal ones.
pub open spec fn is_unfinished(r: RunView) -> bool {
    r.phase != "complete"@ && r.phase != "failed_terminal"@ && r.phase != "abandoned"@
}

/// A run of an account on a network that is not finished.
pub open spec fn is_open_run(r: RunView, account: Seq<char>, network: Seq<char>) -> bool {
    r.account_uuid == account && r.network == network && is_unfinished(r)
}

/// The active run is an unfinished one of the account on the network; every other such run was created
/// before it, or at the same time and stored before it. There is none exactly where no run of the
/// account on the network is unfinished.
pub proof fn active_run_is_the_latest_unfinished_one(
    runs: Seq<RunView>,
    account: Seq<char>,
    network: Seq<char>,
)
    ensures
        newest_live(runs, account, network) matches Some(r) ==> exists|k: int|
            #![trigger runs[k]]
            0 <= k < runs.len() && runs[k] == r && is_open_run(r, account, network) && forall|i: int|
                0 <= i < runs.len() && is_open_run(#[trigger] runs[i], account, network) ==> {
                    ||| runs[i].created_at_ms < r.created_at_ms
                    ||| runs[i].created_at_ms == r.created_at_ms && i <= k
                },
        newest_live(runs, account, network) is None <==> forall|i: int|
            0 <= i < runs.len() ==> !is_open_run(#[trigger] runs[i], account, network),
    decreases runs.len(),
{
    if runs.len() > 0 {
        let front = runs.drop_last();
        let last = runs.len() - 1;
        active_run_is_the_latest_unfinished_one(front, account, network);
        assert(forall|i: int| 0 <= i < front.len() ==> front[i] == runs[i]);
        assert(is_live_run(runs[last], account, network) == is_open_run(
            runs[last],
            account,
            network,
        ));
        match newest_live(front, account, network) {
            Some(b) => {
                let k = choose|k: int|
                    #![trigger front[k]]
                    0 <= k < front.len() && front[k] == b && is_open_run(b, account, network)
                        && forall|i: int|
                        0 <= i < front.len() && is_open_run(#[trigger] front[i], account, network)
                            ==> {
                            ||| front[i].created_at_ms < b.created_at_ms
                            ||| front[i].created_at_ms == b.created_at_ms && i <= k
                        };
                assert(runs[k] == b);
                let r = newest_live(runs, account, network)->Some_0;
                let at = if is_open_run(runs[last], account, network) && b.created_at_ms
                    <= runs[last].created_at_ms {
                    last
                } else {
                    k
                };
                assert(runs[at] == r);
                assert forall|i: int|
                    0 <= i < runs.len() && is_open_run(#[trigger] runs[i], account, network) implies {
                    ||| runs[i].created_at_ms < r.created_at_ms
                    ||| runs[i].created_at_ms == r.created_at_ms && i <= at
                } by {
                    if i < last {
                        assert(is_open_run(front[i], account, network));
                    }
                }
            },
            None => {
                assert forall|i: int| 0 <= i < last implies !is_open_run(
                    #[trigger] runs[i],
                    account,
                    network,
                ) by {
                    assert(!is_open_run(front[i], account, network));
                }
                if is_open_run(runs[last], account, network) {
                    assert(runs[last] == newest_live(runs, account, network)->Some_0);
                }
            },
        }
    }
}

/// Setting a run's phase gives the run with that id the phase, the error and the time of the change;
/// nothing else of it and no other run changes.
pub proof fn set_phase_changes_one_run(
    runs: Seq<RunView>,
    run_id: Seq<char>,
    phase: Seq<char>,
    last_error: Option<Seq<char>>,
    now: i64,
    i: int,
)
    requires
        0 <= i < runs.len(),
    ensures
        ({
            let after = runs_with_phase(runs, run_id, phase, last_error, now);
            &&& after.len() == runs.len()
            &&& runs[i].run_id != run_id ==> after[i] == runs[i]
            &&& runs[i].run_id == run_id ==> {
                &&& after[i].phase == phase
                &&& after[i].last_error == last_error
                &&& after[i].updated_at_ms == now
                &&& after[i].run_id == runs[i].run_id
                &&& after[i].account_uuid == runs[i].account_uuid
                &&& after[i].network == runs[i].network
                &&& after[i].db_fingerprint == runs[i].db_fingerprint
                &&& after[i].created_at_ms == runs[i].created_at_ms
                &&& after[i].prep_txid == runs[i].prep_txid
                &&& after[i].target_values_json == runs[i].target_values_json
            }
        }),
{
}

// ----- notes -----

/// A note is locked for an account exactly where an unfinished run of the account other than the
/// excluded one prepared it, and it is marked as locked; it is named by its transaction, in lower
/// case, and its output index.
pub proof fn locked_notes_are_those_of_unfinished_runs(
    s: StoreView,
    account: Seq<char>,
    exclude: Option<Seq<char>>,
    txid: Seq<char>,
    output_index: u32,
)
    requires
        s.wf(),
    ensures
        locked_refs(s, account, exclude).contains((txid, output_index)) <==> exists|i: int, j: int|
            #![trigger s.notes[i], s.runs[j]]
            0 <= i < s.notes.len() && 0 <= j < s.runs.len() && s.notes[i].run_id == s.runs[j].run_id
                && s.runs[j].account_uuid == account && is_unfinished(s.runs[j])
                && s.notes[i].note.lock_state == "locked"@ && exclude != Some(s.notes[i].run_id)
                && lower(s.notes[i].note.txid_hex) == txid && s.notes[i].note.output_index
                == output_index,
{
    let wanted = (txid, output_index);
    if locked_refs(s, account, exclude).contains(wanted) {
        let i = choose|i: int|
            0 <= i < s.notes.len() && is_locked_note(s.runs, #[trigger] s.notes[i], account, exclude)
                && note_ref(s.notes[i]) == wanted;
        position_holds(s.runs, s.notes[i].run_id);
        let j = position(s.runs, s.notes[i].run_id)->Some_0;
        assert(s.notes[i].run_id == s.runs[j].run_id);
    }
    if exists|i: int, j: int|
        #![trigger s.notes[i], s.runs[j]]
        0 <= i < s.notes.len() && 0 <= j < s.runs.len() && s.notes[i].run_id == s.runs[j].run_id
            && s.runs[j].account_uuid == account && is_unfinished(s.runs[j])
            && s.notes[i].note.lock_state == "locked"@ && exclude != Some(s.notes[i].run_id)
            && lower(s.notes[i].note.txid_hex) == txid && s.notes[i].note.output_index
            == output_index {
        let (i, j) = choose|i: int, j: int|
            #![trigger s.notes[i], s.runs[j]]
            0 <= i < s.notes.len() && 0 <= j < s.runs.len() && s.notes[i].run_id == s.runs[j].run_id
                && s.runs[j].account_uuid == account && is_unfinished(s.runs[j])
                && s.notes[i].note.lock_state == "locked"@ && exclude != Some(s.notes[i].run_id)
                && lower(s.notes[i].note.txid_hex) == txid && s.notes[i].note.output_index
                == output_index;
        position_is(s.runs, s.notes[i].run_id, j);
        assert(is_locked_note(s.runs, s.notes[i], account, exclude));
    }
}

/// A note that a run stores is found under its run, transaction and output index as it was handed in,
/// unless a later one of the same batch has the same transaction and output index; every note under
/// another key stays.
pub proof fn stored_notes_are_found(
    rows: Seq<NoteView>,
    run_id: Seq<char>,
    notes: Seq<PreparedNoteView>,
    i: int,
    key: (Seq<char>, Seq<char>, u32),
)
    requires
        keys_are_unique(rows),
        0 <= i < notes.len(),
        forall|j: int|
            i < j < notes.len() ==> (#[trigger] notes[j]).txid_hex != notes[i].txid_hex
                || notes[j].output_index != notes[i].output_index,
    ensures
        lookup(
            notes_with(rows, run_id, notes),
            (run_id, notes[i].txid_hex, notes[i].output_index),
        ) == Some(NoteView { run_id, note: notes[i] }),
        (forall|j: int|
            0 <= j < notes.len() ==> (run_id, (#[trigger] notes[j]).txid_hex, notes[j].output_index)
                != key) ==> lookup(notes_with(rows, run_id, notes), key) == lookup(rows, key),
{
    notes_stay_sound(rows, run_id, notes);
    note_is_found(rows, run_id, notes, i);
    if forall|j: int|
        0 <= j < notes.len() ==> (run_id, (#[trigger] notes[j]).txid_hex, notes[j].output_index)
            != key {
        other_notes_stay(rows, run_id, notes, key);
    }
}

/// Storing the notes of a run leaves each of them in the notes table under the run with every field it
/// was handed in with, unless a later one of the same batch has the same transaction and output index;
/// the other tables stay.
pub proof fn notes_are_stored_as_given(
    before: StoreView,
    after: StoreView,
    run_id: Seq<char>,
    notes: Seq<PreparedNote>,
    i: int,
)
    requires
        before.wf(),
        are_notes_stored(before, after, run_id, notes),
        0 <= i < notes.len(),
        forall|j: int|
            i < j < notes.len() ==> (#[trigger] notes[j]).txid_hex@ != notes[i].txid_hex@
                || notes[j].output_index != notes[i].output_index,
    ensures
        exists|k: int|
            0 <= k < after.notes.len() && {
                let row = #[trigger] after.notes[k];
                &&& row.run_id == run_id
                &&& row.note.txid_hex == notes[i].txid_hex@
                &&& row.note.output_index == notes[i].output_index
                &&& row.note.value_zatoshi == notes[i].value_zatoshi
                &&& row.note.note_version == notes[i].note_version
                &&& row.note.nullifier_hex is Some <==> notes[i].nullifier_hex is Some
                &&& notes[i].nullifier_hex matches Some(n) ==> row.note.nullifier_hex == Some(n@)
                &&& row.note.lock_state == notes[i].lock_state@
            },
        after.runs == before.runs,
        after.prep == before.prep,
        after.pending == before.pending,
{
    let views = prepared_views(notes);
    assert forall|j: int| i < j < views.len() implies (#[trigger] views[j]).txid_hex
        != views[i].txid_hex || views[j].output_index != views[i].output_index by {
        assert(views[j] == notes[j]@);
        assert(views[i] == notes[i]@);
    }
    assert(views[i] == notes[i]@);
    let key = (run_id, views[i].txid_hex, views[i].output_index);
    stored_notes_are_found(before.notes, run_id, views, i, key);
    position_holds(after.notes, key);
    let k = position(after.notes, key)->0;
    assert(after.notes[k] == (NoteView { run_id, note: notes[i]@ }));
}

proof fn notes_stay_sound(rows: Seq<NoteView>, run_id: Seq<char>, notes: Seq<PreparedNoteView>)
    requires
        keys_are_unique(rows),
    ensures
        keys_are_unique(notes_with(rows, run_id, notes)),
    decreases notes.len(),
{
    if notes.len() > 0 {
        let row = NoteView { run_id, note: notes.last() };
        notes_stay_sound(rows, run_id, notes.drop_last());
        upserted_row_is_found(notes_with(rows, run_id, notes.drop_last()), row, row.key());
    }
}

proof fn note_is_found(
    rows: Seq<NoteView>,
    run_id: Seq<char>,
    notes: Seq<PreparedNoteView>,
    i: int,
)
    requires
        keys_are_unique(rows),
        0 <= i < notes.len(),
        forall|j: int|
            i < j < notes.len() ==> (#[trigger] notes[j]).txid_hex != notes[i].txid_hex
                || notes[j].output_index != notes[i].output_index,
    ensures
        lookup(
            notes_with(rows, run_id, notes),
            (run_id, notes[i].txid_hex, notes[i].output_index),
        ) == Some(NoteView { run_id, note: notes[i] }),
    decreases notes.len(),
{
    let front = notes.drop_last();
    let key = (run_id, notes[i].txid_hex, notes[i].output_index);
    let row = NoteView { run_id, note: notes.last() };
    notes_stay_sound(rows, run_id, front);
    if i < front.len() {
        assert forall|j: int| i < j < front.len() implies (#[trigger] front[j]).txid_hex
            != front[i].txid_hex || front[j].output_index != front[i].output_index by {
            assert(front[j] == notes[j]);
        }
        note_is_found(rows, run_id, front, i);
        assert(notes[notes.len() - 1] == row.note);
    }
    upserted_row_is_found(notes_with(rows, run_id, front), row, key);
}

proof fn other_notes_stay(
    rows: Seq<NoteView>,
    run_id: Seq<char>,
    notes: Seq<PreparedNoteView>,
    key: (Seq<char>, Seq<char>, u32),
)
    requires
        keys_are_unique(rows),
        forall|j: int|
            0 <= j < notes.len() ==> (run_id, (#[trigger] notes[j]).txid_hex, notes[j].output_index)
                != key,
    ensures
        lookup(notes_with(rows, run_id, notes), key) == lookup(rows, key),
    decreases notes.len(),
{
    if notes.len() > 0 {
        let front = notes.drop_last();
        let row = NoteView { run_id, note: notes.last() };
        notes_stay_sound(rows, run_id, front);
        assert forall|j: int| 0 <= j < front.len() implies (
            run_id,
            (#[trigger] front[j]).txid_hex,
            front[j].output_index,
        ) != key by {
            assert(front[j] == notes[j]);
        }
        other_notes_stay(rows, run_id, front, key);
        assert(notes[notes.len() - 1] == row.note);
        upserted_row_is_found(notes_with(rows, run_id, front), row, key);
    }
}

// ----- pending transfers -----

/// The transfer that is read as due is a scheduled one of the run whose send height the tip has
/// reached; no such transfer has a smaller send height, or the same one and an id that comes first.
/// None is read exactly where the run has no such transfer.
pub proof fn due_transfer_is_the_first_scheduled_one(
    tx: Option<PendingTxRow>,
    rows: Seq<PendingView>,
    run_id: Seq<char>,
    tip: u32,
)
    requires
        optional_tx(tx) == tx_of(first_due(rows, run_id, tip)),
    ensures
        tx matches Some(t) ==> {
            &&& t.status@ == "scheduled"@
            &&& t.next_executable_after_height <= tip
            &&& exists|k: int|
                0 <= k < rows.len() && (#[trigger] rows[k]).run_id == run_id && rows[k].tx == t@
            &&& forall|i: int|
                0 <= i < rows.len() && (#[trigger] rows[i]).run_id == run_id && rows[i].tx.status
                    == "scheduled"@ && rows[i].tx.next_executable_after_height <= tip ==> {
                    ||| t.next_executable_after_height < rows[i].tx.next_executable_after_height
                    ||| t.next_executable_after_height == rows[i].tx.next_executable_after_height
                        && !text_before(rows[i].tx.txid_hex, t.txid_hex@)
                }
        },
        tx is None <==> forall|i: int|
            0 <= i < rows.len() && (#[trigger] rows[i]).run_id == run_id && rows[i].tx.status
                == "scheduled"@ ==> rows[i].tx.next_executable_after_height > tip,
{
    next_due_transfer_is_the_earliest(rows, run_id, tip);
    match first_due(rows, run_id, tip) {
        Some(r) => {
            let t = tx->Some_0;
            assert(t@ == r.tx);
            let k = choose|k: int| 0 <= k < rows.len() && rows[k] == r;
            assert(rows[k].run_id == run_id && rows[k].tx == t@);
            assert forall|i: int|
                0 <= i < rows.len() && (#[trigger] rows[i]).run_id == run_id && rows[i].tx.status
                    == "scheduled"@ && rows[i].tx.next_executable_after_height <= tip implies {
                ||| t.next_executable_after_height < rows[i].tx.next_executable_after_height
                ||| t.next_executable_after_height == rows[i].tx.next_executable_after_height
                    && !text_before(rows[i].tx.txid_hex, t.txid_hex@)
            } by {
                assert(is_due(rows[i], run_id, tip));
            }
        },
        None => {
            assert forall|i: int|
                0 <= i < rows.len() && (#[trigger] rows[i]).run_id == run_id && rows[i].tx.status
                    == "scheduled"@ implies rows[i].tx.next_executable_after_height > tip by {
                assert(!is_due(rows[i], run_id, tip));
            }
        },
    }
}

/// The next send height is the smallest one of the run's scheduled transfers; there is none exactly
/// where none is scheduled.
pub proof fn next_send_height_is_that_of_a_scheduled_transfer(
    rows: Seq<PendingView>,
    run_id: Seq<char>,
)
    ensures
        first_send_height(rows, run_id) matches Some(h) ==> {
            &&& exists|k: int|
                0 <= k < rows.len() && (#[trigger] rows[k]).run_id == run_id && rows[k].tx.status
                    == "scheduled"@ && rows[k].tx.next_executable_after_height == h
            &&& forall|i: int|
                0 <= i < rows.len() && (#[trigger] rows[i]).run_id == run_id && rows[i].tx.status
                    == "scheduled"@ ==> h <= rows[i].tx.next_executable_after_height
        },
        first_send_height(rows, run_id) is None <==> forall|i: int|
            0 <= i < rows.len() && (#[trigger] rows[i]).run_id == run_id ==> rows[i].tx.status
                != "scheduled"@,
{
    next_send_height_is_the_smallest(rows, run_id);
    match first_send_height(rows, run_id) {
        Some(h) => {
            let k = choose|i: int|
                0 <= i < rows.len() && is_scheduled(#[trigger] rows[i], run_id)
                    && rows[i].tx.next_executable_after_height == h;
            assert(rows[k].run_id == run_id);
            assert forall|i: int|
                0 <= i < rows.len() && (#[trigger] rows[i]).run_id == run_id && rows[i].tx.status
                    == "scheduled"@ implies h <= rows[i].tx.next_executable_after_height by {
                assert(is_scheduled(rows[i], run_id));
            }
        },
        None => {
            assert forall|i: int|
                0 <= i < rows.len() && (#[trigger] rows[i]).run_id == run_id implies rows[i].tx.status
                != "scheduled"@ by {
                assert(!is_scheduled(rows[i], run_id));
            }
        },
    }
}

/// The transfers of a run with a status.
pub open spec fn transfers_with(
    rows: Seq<PendingView>,
    run_id: Seq<char>,
    status: Seq<char>,
) -> Seq<PendingView> {
    rows.filter(|r: PendingView| r.run_id == run_id && r.tx.status == status)
}

/// The transfers of a run.
pub open spec fn transfers_of(rows: Seq<PendingView>, run_id: Seq<char>) -> Seq<PendingView> {
    rows.filter(|r: PendingView| r.run_id == run_id)
}

/// The ids that are read for a status are those of the run's transfers with that status, in order.
pub proof fn listed_ids_are_those_of_the_status(
    rows: Seq<PendingView>,
    run_id: Seq<char>,
    status: Seq<char>,
)
    ensures
        txids_with_status(rows, run_id, status) == transfers_with(rows, run_id, status).map_values(
            |r: PendingView| r.tx.txid_hex,
        ),
        count_with_status(rows, run_id, status) == transfers_with(rows, run_id, status).len(),
    decreases rows.len(),
{
    reveal(Seq::filter);
    let id = |r: PendingView| r.tx.txid_hex;
    if rows.len() > 0 {
        let front = rows.drop_last();
        listed_ids_are_those_of_the_status(front, run_id, status);
        assert(transfers_with(front, run_id, status).push(rows.last()).map_values(id)
            =~= transfers_with(front, run_id, status).map_values(id).push(id(rows.last())));
    } else {
        assert(transfers_with(rows, run_id, status).map_values(id) =~= Seq::<Seq<char>>::empty());
    }
}

/// The number of a run's transfers is the number of rows that name the run.
pub proof fn every_transfer_of_a_run_counts(rows: Seq<PendingView>, run_id: Seq<char>)
    ensures
        count_of_run(rows, run_id) == transfers_of(rows, run_id).len(),
    decreases rows.len(),
{
    reveal(Seq::filter);
    if rows.len() > 0 {
        every_transfer_of_a_run_counts(rows.drop_last(), run_id);
    }
}

/// The totals count the run's transfers that are scheduled, broadcast and confirmed, and all of them.
pub proof fn totals_count_the_transfers(rows: Seq<PendingView>, run_id: Seq<char>)
    requires
        rows.len() <= u32::MAX,
    ensures
        totals_of(rows, run_id).scheduled == transfers_with(rows, run_id, "scheduled"@).len(),
        totals_of(rows, run_id).broadcasted == transfers_with(rows, run_id, "broadcasted"@).len(),
        totals_of(rows, run_id).confirmed == transfers_with(rows, run_id, "confirmed"@).len(),
        totals_of(rows, run_id).total == transfers_of(rows, run_id).len(),
{
    totals_add_up(rows, run_id);
    listed_ids_are_those_of_the_status(rows, run_id, "scheduled"@);
    listed_ids_are_those_of_the_status(rows, run_id, "broadcasted"@);
    listed_ids_are_those_of_the_status(rows, run_id, "confirmed"@);
    every_transfer_of_a_run_counts(rows, run_id);
}

/// Setting the status of a transfer changes the status of the row with that transaction id alone.
pub proof fn set_status_changes_one_transfer(
    rows: Seq<PendingView>,
    txid: Seq<char>,
    status: Seq<char>,
    i: int,
)
    requires
        0 <= i < rows.len(),
    ensures
        ({
            let after = pending_with_status(rows, txid, status);
            &&& after.len() == rows.len()
            &&& rows[i].tx.txid_hex != txid ==> after[i] == rows[i]
            &&& rows[i].tx.txid_hex == txid ==> {
                &&& after[i].tx.status == status
                &&& differs_in_status_alone(after[i], rows[i])
            }
        }),
{
}

/// Two stored transfers that agree on everything but the status.
pub open spec fn differs_in_status_alone(a: PendingView, b: PendingView) -> bool {
    &&& a.run_id == b.run_id
    &&& a.tx.txid_hex == b.tx.txid_hex
    &&& a.tx.raw_pczt == b.tx.raw_pczt
    &&& a.tx.anchor_height == b.tx.anchor_height
    &&& a.tx.target_height == b.tx.target_height
    &&& a.tx.next_executable_after_height == b.tx.next_executable_after_height
    &&& a.tx.expiry_height == b.tx.expiry_height
    &&& a.tx.value_zatoshi == b.tx.value_zatoshi
    &&& a.tx.fee_zatoshi == b.tx.fee_zatoshi
    &&& a.tx.selected_note_txid == b.tx.selected_note_txid
    &&& a.tx.selected_note_output_index == b.tx.selected_note_output_index
    &&& a.tx.selected_note_value == b.tx.selected_note_value
    &&& a.tx.metadata_json == b.tx.metadata_json
}

/// Clearing a run's scheduled transfers leaves every other row, in order.
pub proof fn clearing_removes_scheduled_transfers_alone(rows: Seq<PendingView>, run_id: Seq<char>)
    ensures
        without_scheduled(rows, run_id) == rows.filter(
            |r: PendingView| !(r.run_id == run_id && r.tx.status == "scheduled"@),
        ),
    decreases rows.len(),
{
    reveal(Seq::filter);
    if rows.len() > 0 {
        clearing_removes_scheduled_transfers_alone(rows.drop_last(), run_id);
    }
}

/// A transfer that a run stores stands last, as it was handed in; every row under another transaction
/// id stays, in order.
pub proof fn stored_transfer_stands_last(
    rows: Seq<PendingView>,
    run_id: Seq<char>,
    tx: PendingTxView,
)
    requires
        keys_are_unique(rows),
    ensures
        ({
            let after = pending_with(rows, run_id, seq![tx]);
            &&& after.last().run_id == run_id
            &&& after.last().tx == tx
            &&& after.drop_last() == rows.filter(|r: PendingView| r.tx.txid_hex != tx.txid_hex)
        }),
{
    let row = PendingView { run_id, tx };
    assert(seq![tx].drop_last() =~= Seq::<PendingTxView>::empty());
    assert(pending_with(rows, run_id, seq![tx].drop_last()) == rows);
    inserted_row_stands_last(rows, row);
    let by_key = |r: PendingView| r.key() != row.key();
    let by_id = |r: PendingView| r.tx.txid_hex != tx.txid_hex;
    assert(by_key =~= by_id);
}

/// Storing transfers under new and distinct transaction ids adds one row for each behind those there
/// were, in the order they were handed in and with every field of theirs; nothing else changes.
pub proof fn transfers_are_stored_as_given(
    before: StoreView,
    after: StoreView,
    run_id: Seq<char>,
    txs: Seq<PendingTxRow>,
    i: int,
)
    requires
        before.wf(),
        are_transfers_stored(before, after, run_id, txs),
        forall|k: int, j: int|
            0 <= k < before.pending.len() && 0 <= j < txs.len() ==> (
            #[trigger] before.pending[k]).tx.txid_hex != (#[trigger] txs[j]).txid_hex@,
        forall|k: int, j: int|
            0 <= k < j < txs.len() ==> (#[trigger] txs[k]).txid_hex@ != (
            #[trigger] txs[j]).txid_hex@,
        0 <= i < txs.len(),
    ensures
        after.pending.len() == before.pending.len() + txs.len(),
        after.pending.take(before.pending.len() as int) == before.pending,
        ({
            let row = after.pending[before.pending.len() + i];
            &&& row.run_id == run_id
            &&& row.tx.txid_hex == txs[i].txid_hex@
            &&& row.tx.raw_pczt == txs[i].raw_pczt@
            &&& row.tx.anchor_height == txs[i].anchor_height
            &&& row.tx.target_height == txs[i].target_height
            &&& row.tx.next_executable_after_height == txs[i].next_executable_after_height
            &&& row.tx.expiry_height == txs[i].expiry_height
            &&& row.tx.value_zatoshi == txs[i].value_zatoshi
            &&& row.tx.fee_zatoshi == txs[i].fee_zatoshi
            &&& row.tx.selected_note_txid == txs[i].selected_note_txid@
            &&& row.tx.selected_note_output_index == txs[i].selected_note_output_index
            &&& row.tx.selected_note_value == txs[i].selected_note_value
            &&& row.tx.status == txs[i].status@
        }),
        after.runs == before.runs,
        after.notes == before.notes,
        after.prep == before.prep,
{
    let views = tx_views(txs);
    assert forall|j: int| 0 <= j < views.len() implies position(
        before.pending,
        (#[trigger] views[j]).txid_hex,
    ) is None by {
        assert(views[j] == txs[j]@);
        position_holds(before.pending, views[j].txid_hex);
        if let Some(k) = position(before.pending, views[j].txid_hex) {
            assert(before.pending[k].tx.txid_hex != txs[j].txid_hex@);
        }
    }
    assert forall|k: int, j: int| 0 <= k < j < views.len() implies (#[trigger] views[k]).txid_hex
        != (#[trigger] views[j]).txid_hex by {
        assert(views[k] == txs[k]@);
        assert(views[j] == txs[j]@);
    }
    new_transfers_are_appended(before.pending, run_id, views);
    assert(views[i] == txs[i]@);
    assert(after.pending.take(before.pending.len() as int) =~= before.pending);
}

// ----- the prep transaction -----

/// A prep transaction that is stored is read back under its run with all that was handed in; that of
/// any other run is read as before, and the other tables stay.
pub proof fn stored_prep_is_read_back(
    before: StoreView,
    after: StoreView,
    run_id: Seq<char>,
    txid_hex: Seq<char>,
    raw_pczt: Seq<u8>,
    status: Seq<char>,
    read: Option<PrepTxRow>,
    other: Seq<char>,
    was: Option<PrepTxRow>,
    now: Option<PrepTxRow>,
)
    requires
        before.wf(),
        is_prep_stored(before, after, run_id, txid_hex, raw_pczt, status),
        is_prep_read(read, after, run_id),
        other != run_id,
        is_prep_read(was, before, other),
        is_prep_read(now, after, other),
    ensures
        read matches Some(p) && p.run_id@ == run_id && p.txid_hex@ == txid_hex && p.raw_pczt@
            == raw_pczt && p.status@ == status,
        was is Some <==> now is Some,
        was matches Some(p) ==> (now matches Some(q) && q@ == p@ && p.run_id@ == other),
        after.runs == before.runs,
        after.notes == before.notes,
        after.pending == before.pending,
{
    let row = PrepView { run_id, txid_hex, raw_pczt, status };
    upserted_row_is_found(before.prep, row, run_id);
    upserted_row_is_found(before.prep, row, other);
    position_holds(before.prep, other);
}

/// Setting the status of a prep transaction changes the status of the run's own alone.
pub proof fn set_prep_status_changes_one_row(
    rows: Seq<PrepView>,
    run_id: Seq<char>,
    status: Seq<char>,
    i: int,
)
    requires
        0 <= i < rows.len(),
    ensures
        ({
            let after = preps_with_status(rows, run_id, status);
            &&& after.len() == rows.len()
            &&& after[i].run_id == rows[i].run_id
            &&& after[i].txid_hex == rows[i].txid_hex
            &&& after[i].raw_pczt == rows[i].raw_pczt
            &&& after[i].status == if rows[i].run_id == run_id {
                status
            } else {
                rows[i].status
            }
        }),
{
}

/// The texts that are listed are those of the strings, one for each and in order.
pub proof fn listed_texts_hold_every_string(texts: Seq<String>)
    ensures
        text_views(texts).len() == texts.len(),
        forall|i: int| 0 <= i < texts.len() ==> #[trigger] text_views(texts)[i] == texts[i]@,
{
}

// ----- the store -----

/// A store is made of some rows exactly where no key is repeated in a table, and holds them all.
pub proof fn store_holds_the_rows_it_was_made_of(
    store: Option<Store>,
    runs: Seq<StoredRun>,
    notes: Seq<StoredNote>,
    prep: Seq<PrepTxRow>,
    pending: Seq<StoredPending>,
)
    requires
        is_store_of(store, runs, notes, prep, pending),
    ensures
        store is Some <==> {
            &&& forall|i: int, j: int|
                0 <= i < j < runs.len() ==> (#[trigger] runs[i]).run_id@ != (
                #[trigger] runs[j]).run_id@
            &&& forall|i: int, j: int|
                0 <= i < j < notes.len() ==> {
                    ||| (#[trigger] notes[i]).run_id@ != (#[trigger] notes[j]).run_id@
                    ||| notes[i].note.txid_hex@ != notes[j].note.txid_hex@
                    ||| notes[i].note.output_index != notes[j].note.output_index
                }
            &&& forall|i: int, j: int|
                0 <= i < j < prep.len() ==> (#[trigger] prep[i]).run_id@ != (
                #[trigger] prep[j]).run_id@
            &&& forall|i: int, j: int|
                0 <= i < j < pending.len() ==> (#[trigger] pending[i]).tx.txid_hex@ != (
                #[trigger] pending[j]).tx.txid_hex@
        },
        store matches Some(s) ==> {
            &&& s@.runs == runs.map_values(|r: StoredRun| r@)
            &&& s@.notes == notes.map_values(|r: StoredNote| r@)
            &&& s@.prep == prep.map_values(|r: PrepTxRow| r@)
            &&& s@.pending == pending.map_values(|r: StoredPending| r@)
        },
{
    let tables = StoreView {
        runs: run_views(runs),
        notes: note_views(notes),
        prep: prep_views(prep),
        pending: pending_views(pending),
    };
    sound_tables_repeat_no_key(tables);
    table_views_hold_every_row(runs, notes, prep, pending);
    if tables.wf() {
        assert forall|i: int, j: int| 0 <= i < j < runs.len() implies (#[trigger] runs[i]).run_id@
            != (#[trigger] runs[j]).run_id@ by {
            assert(tables.runs[i].run_id != tables.runs[j].run_id);
        }
        assert forall|i: int, j: int| 0 <= i < j < notes.len() implies {
            ||| (#[trigger] notes[i]).run_id@ != (#[trigger] notes[j]).run_id@
            ||| notes[i].note.txid_hex@ != notes[j].note.txid_hex@
            ||| notes[i].note.output_index != notes[j].note.output_index
        } by {
            assert(tables.notes[i].key() != tables.notes[j].key());
        }
        assert forall|i: int, j: int| 0 <= i < j < prep.len() implies (#[trigger] prep[i]).run_id@
            != (#[trigger] prep[j]).run_id@ by {
            assert(tables.prep[i].run_id != tables.prep[j].run_id);
        }
        assert forall|i: int, j: int|
            0 <= i < j < pending.len() implies (#[trigger] pending[i]).tx.txid_hex@ != (
        #[trigger] pending[j]).tx.txid_hex@ by {
            assert(tables.pending[i].tx.txid_hex != tables.pending[j].tx.txid_hex);
        }
    }
}

/// A new run is stored behind the others exactly where its id is not taken; a taken one is refused as
/// SQLite refuses it, and nothing changes.
pub proof fn inserted_run_stands_last(
    r: Result<(), rusqlite::Error>,
    before: StoreView,
    after: StoreView,
    run: NewRun,
    now: i64,
)
    requires
        is_run_inserted(r, before, after, run, now),
    ensures
        r is Err <==> exists|i: int|
            0 <= i < before.runs.len() && (#[trigger] before.runs[i]).run_id == run.run_id@,
        r matches Err(e) ==> after == before && e == key_taken_error(
            "UNIQUE constraint failed: ext_ironwood_migration_runs.run_id"@,
        ),
        r is Ok ==> {
            &&& after.runs.drop_last() == before.runs
            &&& after.runs.last() == new_run_row(run, now)
            &&& after.notes == before.notes
            &&& after.prep == before.prep
            &&& after.pending == before.pending
        },
{
    position_holds(before.runs, run.run_id@);
    if let Some(i) = position(before.runs, run.run_id@) {
        assert(before.runs[i].run_id == run.run_id@);
    }
    if exists|i: int|
        0 <= i < before.runs.len() && (#[trigger] before.runs[i]).run_id == run.run_id@ {
        let i = choose|i: int|
            0 <= i < before.runs.len() && (#[trigger] before.runs[i]).run_id == run.run_id@;
        assert(before.runs[i].key() == run.run_id@);
    }
    assert(before.runs.push(new_run_row(run, now)).drop_last() =~= before.runs);
}

/// The ids that are listed as broadcast are those of the run's transfers with that status, all of them
/// and in order.
pub proof fn broadcast_ids_are_listed(txids: Vec<String>, s: StoreView, run_id: Seq<char>)
    requires
        are_broadcasted(txids, s, run_id),
    ensures
        txids@.map_values(|t: String| t@) == transfers_with(
            s.pending,
            run_id,
            "broadcasted"@,
        ).map_values(|r: PendingView| r.tx.txid_hex),
{
    listed_ids_are_those_of_the_status(s.pending, run_id, "broadcasted"@);
}

/// Clearing a run says how many scheduled transfers it had, and removes those alone.
pub proof fn clearing_counts_what_it_removes(
    removed: usize,
    before: StoreView,
    after: StoreView,
    run_id: Seq<char>,
)
    requires
        is_cleared(removed, before, after, run_id),
    ensures
        removed == transfers_with(before.pending, run_id, "scheduled"@).len(),
        after.runs == before.runs,
        after.notes == before.notes,
        after.prep == before.prep,
        after.pending == before.pending.filter(
            |r: PendingView| !(r.run_id == run_id && r.tx.status == "scheduled"@),
        ),
{
    listed_ids_are_those_of_the_status(before.pending, run_id, "scheduled"@);
    clearing_removes_scheduled_transfers_alone(before.pending, run_id);
}

/// A run is read by its id exactly where one with that id is stored, whatever its phase, and with the
/// fields it is stored with.
pub proof fn runs_are_read_by_their_id(run: Option<RunRow>, s: StoreView, run_id: Seq<char>)
    requires
        is_run_read(run, s, run_id),
    ensures
        run is Some <==> exists|i: int|
            0 <= i < s.runs.len() && (#[trigger] s.runs[i]).run_id == run_id,
        run matches Some(row) ==> exists|i: int| {
            &&& 0 <= i < s.runs.len()
            &&& (#[trigger] s.runs[i]).run_id == run_id
            &&& row.run_id@ == run_id
            &&& row.account_uuid@ == s.runs[i].account_uuid
            &&& row.network@ == s.runs[i].network
            &&& row.phase@ == s.runs[i].phase
            &&& optional_text(row.prep_txid) == s.runs[i].prep_txid
            &&& optional_text(row.last_error) == s.runs[i].last_error
        },
{
    run_is_read_as_stored(run, lookup(s.runs, run_id));
    position_holds(s.runs, run_id);
    match position(s.runs, run_id) {
        Some(i) => {
            assert(s.runs[i].run_id == run_id);
        },
        None => {
            assert forall|i: int| 0 <= i < s.runs.len() implies (#[trigger] s.runs[i]).run_id
                != run_id by {
                assert(s.runs[i].key() != run_id);
            }
        },
    }
}

} // verus!
