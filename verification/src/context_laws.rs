//! What holds of the context's operations taken together.

use crate::attention::{
    expired_is_an_expiry, expired_message, invalid_note_message, invalid_note_names_its_transfer,
};
use crate::context::{
    is_splitting, network_name, planned_crossings, progress_of, shows, shows_progress,
    state_outcome, store_after, ContextView, StateOutcome, FEE_ESTIMATE_ZATOSHI,
};
use crate::denominations::{
    available, crossings_account, sum, unfunded, TRANSFER_FEE_BUFFER_ZATOSHI,
};
use crate::error::{InvalidStateError, MigrationError};
use crate::execution::{after_result, due_transfer, pending_split, with_step_cleared};
use crate::hex::{display_of, hyphenated, txid_of_display, txid_round_trips};
use crate::pipeline::{
    extracted_transaction_keeps_the_id, is_encoding_of, is_extraction, is_signed_pczt, read_txid,
    PcztContents,
};
use crate::rows::{
    NoteView, PendingTxView, PendingView, PrepView, PreparedNoteView, RunView,
};
use crate::signing::{
    lowered_refs, prep_id, scheduled_row_of, signing_run, split_notes, started_run,
    with_signing_run, with_split,
};
use crate::split::may_spend;
use crate::state::{phase_name, phase_named, phase_round_trips, Phase};
use crate::store::{
    count_of_run, count_with_status, first_due, is_due, is_locked_note, is_terminal_name,
    locked_refs, note_ref, notes_with, pending_with, runs_with_phase, with_phase, StoreView,
};
use crate::store_laws::{
    active_run_is_the_newest_live_one, active_run_stays_active, cleared_run_has_nothing_due,
    inserted_prep_is_read_back, next_due_transfer_is_the_earliest, set_phase_is_read_back,
    set_prep_status_is_read_back,
};
use crate::table::{
    keys_are_unique, lookup, position, position_holds, position_is, position_is_none,
    pushed_row_is_found, upserted_row_is_found, Row,
};
use crate::text::{contains_text, is_blank, lower, starts_with};
use crate::types::{
    AttentionView, MigrationProgress, MigrationState, StateView, TransferResult, TransferView,
};
use crate::wallet::PoolBalances;
use vstd::prelude::*;

verus! {

// ----- broadcast results -----

/// A network error changes nothing: the transaction stays queued for a retry.
pub proof fn network_error_changes_nothing(
    s: StoreView,
    run: RunView,
    transfer_id: Seq<char>,
    retryable: bool,
    now: i64,
)
    ensures
        after_result(s, run, transfer_id, TransferResult::NetworkError { retryable }, now) == s,
{
}

/// Once an invalid note was recorded for a transfer, the state asks for attention and names that
/// transfer, unless its id starts or ends with a blank or holds the word that sets it off.
pub proof fn invalid_note_asks_for_attention(
    c: ContextView,
    s: StoreView,
    run: RunView,
    transfer_id: Seq<char>,
    now: i64,
    balances: Result<PoolBalances, MigrationError>,
    split_mined: Result<bool, MigrationError>,
)
    requires
        s.wf(),
        c.active(s) == Some(run),
        !starts_with(transfer_id, "prep:"@),
        transfer_id.len() > 0 ==> !is_blank(transfer_id[0]) && !is_blank(transfer_id.last()),
        !contains_text(transfer_id, "transfer "@),
    ensures
        state_outcome(
            c,
            after_result(s, run, transfer_id, TransferResult::InvalidNote, now),
            balances,
            split_mined,
        ) == StateOutcome::State(
            StateView::RequiresAttention(AttentionView::InvalidTransfer { transfer_id }),
        ),
{
    invalid_note_names_its_transfer(transfer_id);
    failure_is_surfaced(c, s, run, invalid_note_message(transfer_id), now);
}

/// Once an expiry was recorded for a transfer, the state asks for attention because of an expiry,
/// unless the id itself speaks of an invalid note.
pub proof fn expiry_asks_for_attention(
    c: ContextView,
    s: StoreView,
    run: RunView,
    transfer_id: Seq<char>,
    now: i64,
    balances: Result<PoolBalances, MigrationError>,
    split_mined: Result<bool, MigrationError>,
)
    requires
        s.wf(),
        c.active(s) == Some(run),
        !starts_with(transfer_id, "prep:"@),
        !contains_text(lower(transfer_id), "invalid note"@),
    ensures
        state_outcome(
            c,
            after_result(s, run, transfer_id, TransferResult::Expired, now),
            balances,
            split_mined,
        ) == StateOutcome::State(StateView::RequiresAttention(AttentionView::TransferExpired)),
{
    expired_is_an_expiry(transfer_id);
    failure_is_surfaced(c, s, run, expired_message(transfer_id), now);
}

proof fn failure_is_surfaced(
    c: ContextView,
    s: StoreView,
    run: RunView,
    message: Seq<char>,
    now: i64,
)
    requires
        s.wf(),
        c.active(s) == Some(run),
    ensures
        ({
            let after = StoreView {
                runs: runs_with_phase(
                    s.runs,
                    run.run_id,
                    phase_name(Phase::FailedRecoverable),
                    Some(message),
                    now,
                ),
                ..s
            };
            &&& c.active(after) == Some(
                with_phase(
                    run,
                    run.run_id,
                    phase_name(Phase::FailedRecoverable),
                    Some(message),
                    now,
                ),
            )
            &&& phase_named(phase_name(Phase::FailedRecoverable)) == Some(Phase::FailedRecoverable)
        }),
{
    active_run_stays_active(
        s.runs,
        run,
        Phase::FailedRecoverable,
        Some(message),
        now,
        hyphenated(c.account),
        network_name(c.network),
    );
    phase_round_trips(Phase::FailedRecoverable);
}

/// Once the broadcast of a transfer was recorded, that transfer is not due any more.
pub proof fn broadcast_transfer_is_not_due(
    s: StoreView,
    run: RunView,
    transfer_id: Seq<char>,
    txid: String,
    now: i64,
    target: u32,
)
    requires
        !starts_with(transfer_id, "prep:"@),
    ensures
        due_transfer(
            after_result(s, run, transfer_id, TransferResult::Success { txid }, now),
            run,
            target,
        ) matches Some(tx) ==> tx.id != transfer_id,
{
    let after = after_result(s, run, transfer_id, TransferResult::Success { txid }, now);
    next_due_transfer_is_the_earliest(after.pending, run.run_id, target);
    reveal_strlit("scheduled");
    reveal_strlit("broadcasted");
    assert("scheduled"@.len() == 9 && "broadcasted"@.len() == 11);
    if let Some(row) = first_due(after.pending, run.run_id, target) {
        let k = choose|k: int| 0 <= k < after.pending.len() && after.pending[k] == row;
        assert(is_due(after.pending[k], run.run_id, target));
    }
}

/// Once the broadcast of a run's note split was recorded, the split is not handed out any more and
/// the run waits for its confirmation.
pub proof fn broadcast_split_is_not_due(
    c: ContextView,
    s: StoreView,
    run: RunView,
    txid: String,
    now: i64,
)
    requires
        s.wf(),
        c.active(s) == Some(run),
    ensures
        ({
            let after = after_result(
                s,
                run,
                prep_id(run.run_id),
                TransferResult::Success { txid },
                now,
            );
            let waiting = with_phase(
                run,
                run.run_id,
                phase_name(Phase::WaitingDenomConfirmations),
                None,
                now,
            );
            &&& c.active(after) == Some(waiting)
            &&& pending_split(after, waiting) is None
        }),
{
    let id = prep_id(run.run_id);
    reveal_strlit("prep:");
    reveal_strlit("pending");
    reveal_strlit("broadcasted");
    assert("prep:"@.len() == 5 && "pending"@.len() == 7 && "broadcasted"@.len() == 11);
    assert(id.take(5) =~= "prep:"@);
    assert(starts_with(id, "prep:"@));
    assert(id.skip(5) =~= run.run_id);
    active_run_stays_active(
        s.runs,
        run,
        Phase::WaitingDenomConfirmations,
        None,
        now,
        hyphenated(c.account),
        network_name(c.network),
    );
    set_prep_status_is_read_back(s.prep, run.run_id, "broadcasted"@);
}

// ----- the note split -----

/// A note split that was stored is handed out before any transfer, as it was signed.
pub proof fn stored_split_comes_first(
    s: StoreView,
    run: RunView,
    txid: Seq<char>,
    raw_pczt: Seq<u8>,
    placed: Seq<(u32, u64)>,
)
    requires
        s.wf(),
    ensures
        ({
            let tx = pending_split(with_split(s, run.run_id, txid, raw_pczt, placed), run);
            &&& tx is Some
            &&& tx->Some_0.id == prep_id(run.run_id)
            &&& tx->Some_0.txid == txid
            &&& tx->Some_0.raw_pczt == raw_pczt
        }),
{
    inserted_prep_is_read_back(
        s,
        PrepView { run_id: run.run_id, txid_hex: txid, raw_pczt, status: "pending"@ },
        run.run_id,
    );
}

/// What the platform extracts from a stored split, once it is handed out, is a transaction with the id
/// that is handed out with it.
pub proof fn handed_out_split_extracts_to_its_id(
    s: StoreView,
    run: RunView,
    built: PcztContents,
    ask: Seq<u8>,
    raw_pczt: Seq<u8>,
    placed: Seq<(u32, u64)>,
    bytes: Vec<u8>,
)
    requires
        s.wf(),
        read_txid(raw_pczt).len() == 32,
        is_signed_pczt(raw_pczt, built, ask),
        ({
            let after = with_split(s, run.run_id, display_of(read_txid(raw_pczt)), raw_pczt, placed);
            is_extraction(Ok(bytes), pending_split(after, run)->Some_0.raw_pczt)
        }),
    ensures
        ({
            let after = with_split(s, run.run_id, display_of(read_txid(raw_pczt)), raw_pczt, placed);
            let txid = txid_of_display(pending_split(after, run)->Some_0.txid);
            txid is Some && is_encoding_of(bytes@, txid->Some_0)
        }),
{
    stored_split_comes_first(s, run, display_of(read_txid(raw_pczt)), raw_pczt, placed);
    extracted_transaction_keeps_the_id(raw_pczt, built, ask, bytes);
    txid_round_trips(read_txid(raw_pczt));
}

/// The notes that a stored split prepared are locked for every operation but its own run's, as long
/// as the run is not finished.
pub proof fn stored_split_locks_its_notes(
    s: StoreView,
    run: RunView,
    txid: Seq<char>,
    raw_pczt: Seq<u8>,
    placed: Seq<(u32, u64)>,
    exclude: Option<Seq<char>>,
    i: int,
)
    requires
        s.wf(),
        lookup(s.runs, run.run_id) == Some(run),
        !is_terminal_name(run.phase),
        exclude != Some(run.run_id),
        0 <= i < placed.len(),
    ensures
        locked_refs(
            with_split(s, run.run_id, txid, raw_pczt, placed),
            run.account_uuid,
            exclude,
        ).contains((lower(txid), placed[i].0)),
{
    let after = with_split(s, run.run_id, txid, raw_pczt, placed);
    let notes = split_notes(txid, placed);
    let key = (run.run_id, txid, placed[i].0);
    prepared_note_is_stored(s.notes, run.run_id, notes, i);
    position_holds(after.notes, key);
    let k = position(after.notes, key)->Some_0;
    assert(is_locked_note(after.runs, after.notes[k], run.account_uuid, exclude));
    assert(note_ref(after.notes[k]) == (lower(txid), placed[i].0));
}

proof fn prepared_note_is_stored(
    rows: Seq<NoteView>,
    run_id: Seq<char>,
    notes: Seq<PreparedNoteView>,
    i: int,
)
    requires
        keys_are_unique(rows),
        0 <= i < notes.len(),
        forall|k: int| 0 <= k < notes.len() ==> (#[trigger] notes[k]).lock_state == "locked"@,
    ensures
        keys_are_unique(notes_with(rows, run_id, notes)),
        lookup(
            notes_with(rows, run_id, notes),
            (run_id, notes[i].txid_hex, notes[i].output_index),
        ) matches Some(row) && row.note.lock_state == "locked"@,
    decreases notes.len(),
{
    let front = notes.drop_last();
    let key = (run_id, notes[i].txid_hex, notes[i].output_index);
    assert forall|k: int| 0 <= k < front.len() implies (#[trigger] front[k]).lock_state
        == "locked"@ by {
        assert(front[k] == notes[k]);
    }
    assert(notes[notes.len() - 1].lock_state == "locked"@);
    if i < front.len() {
        prepared_note_is_stored(rows, run_id, front, i);
    } else if front.len() > 0 {
        prepared_note_is_stored(rows, run_id, front, 0);
    }
    upserted_row_is_found(
        notes_with(rows, run_id, front),
        NoteView { run_id, note: notes.last() },
        key,
    );
}

/// Once the split of the active run has confirmed, the migration is ready to propose, whatever is
/// asked of the wallet afterwards.
pub proof fn confirmed_split_is_ready(
    c: ContextView,
    s: StoreView,
    run: RunView,
    now: i64,
    balances: Result<PoolBalances, MigrationError>,
    split_mined: Result<bool, MigrationError>,
)
    requires
        s.wf(),
        c.active(s) == Some(run),
    ensures
        state_outcome(
            c,
            store_after(s, StateOutcome::SplitConfirmed(run.run_id), now),
            balances,
            split_mined,
        ) == StateOutcome::State(StateView::ReadyToPropose),
{
    active_run_stays_active(
        s.runs,
        run,
        Phase::ReadyToMigrate,
        None,
        now,
        hyphenated(c.account),
        network_name(c.network),
    );
    phase_round_trips(Phase::ReadyToMigrate);
}

/// A split that the wallet has not mined keeps its run waiting: it never advances prematurely.
pub proof fn unmined_split_keeps_waiting(
    c: ContextView,
    s: StoreView,
    run: RunView,
    phase: Phase,
    balances: Result<PoolBalances, MigrationError>,
)
    requires
        c.active(s) == Some(run),
        phase_named(run.phase) == Some(phase),
        is_splitting(phase),
    ensures
        state_outcome(c, s, balances, Ok(false)) == StateOutcome::State(
            StateView::SplitPendingConfirmation,
        ),
{
}

// ----- progress -----

/// Whether two results hold the same error.
pub open spec fn same_error<S, T>(a: Result<S, MigrationError>, b: Result<T, MigrationError>) -> bool {
    match (a, b) {
        (
            Err(MigrationError::InvalidState(InvalidStateError::UnknownPhase(p))),
            Err(MigrationError::InvalidState(InvalidStateError::UnknownPhase(q))),
        ) => p@ == q@,
        (Err(e), Err(f)) => e == f,
        _ => false,
    }
}

/// On the same tables and readings there is progress exactly when the state is in progress, and it is
/// the same; there is none in every other state, and an error exactly where the state is that error.
pub proof fn progress_is_that_of_the_state(
    c: ContextView,
    s: StoreView,
    balances: Result<PoolBalances, MigrationError>,
    split_mined: Result<bool, MigrationError>,
    state: Result<MigrationState, MigrationError>,
    progress: Result<Option<MigrationProgress>, MigrationError>,
    p: MigrationProgress,
)
    requires
        shows(state, state_outcome(c, s, balances, split_mined)),
        shows_progress(progress, state_outcome(c, s, balances, split_mined)),
    ensures
        progress == Ok::<Option<MigrationProgress>, MigrationError>(Some(p)) <==> state == Ok::<
            MigrationState,
            MigrationError,
        >(MigrationState::InProgress(p)),
        progress == Ok::<Option<MigrationProgress>, MigrationError>(None) <==> state is Ok && !(
        state->Ok_0 is InProgress),
        progress is Err <==> state is Err,
        state is Err ==> same_error(state, progress),
{
}

// ----- the schedule -----

/// Once a schedule is signed, its run is in progress, unless all its transfers are confirmed.
pub proof fn signed_schedule_is_in_progress(
    c: ContextView,
    s: StoreView,
    run: RunView,
    now: i64,
    balances: Result<PoolBalances, MigrationError>,
    split_mined: Result<bool, MigrationError>,
)
    requires
        s.wf(),
        c.active(s) == Some(run),
        count_with_status(s.pending, run.run_id, "confirmed"@)
            < count_of_run(s.pending, run.run_id) <= u32::MAX,
    ensures
        ({
            let after = StoreView {
                runs: runs_with_phase(
                    s.runs,
                    run.run_id,
                    phase_name(Phase::BroadcastScheduled),
                    None,
                    now,
                ),
                ..s
            };
            state_outcome(c, after, balances, split_mined) == StateOutcome::State(
                StateView::InProgress(progress_of(s, run.run_id, balances)),
            )
        }),
{
    active_run_stays_active(
        s.runs,
        run,
        Phase::BroadcastScheduled,
        None,
        now,
        hyphenated(c.account),
        network_name(c.network),
    );
    phase_round_trips(Phase::BroadcastScheduled);
}

/// The values that cross, the fee buffers of the notes that carry them, what stays in Orchard and
/// the fee reserved for the split make up the balance.
pub proof fn schedule_accounts_for_the_balance(total: u64)
    requires
        total > FEE_ESTIMATE_ZATOSHI,
    ensures
        sum(planned_crossings(total)) + TRANSFER_FEE_BUFFER_ZATOSHI * planned_crossings(total).len()
            + unfunded(available(total, FEE_ESTIMATE_ZATOSHI)) + FEE_ESTIMATE_ZATOSHI == total,
{
    crossings_account(available(total, FEE_ESTIMATE_ZATOSHI));
}

/// Restarting a step leaves none of the active run's transfers due, and leaves the run active.
pub proof fn restarted_step_has_nothing_due(
    c: ContextView,
    s: StoreView,
    run: RunView,
    target: u32,
)
    requires
        c.active(s) == Some(run),
    ensures
        c.active(with_step_cleared(c, s)) == Some(run),
        due_transfer(with_step_cleared(c, s), run, target) is None,
{
    cleared_run_has_nothing_due(s.pending, run.run_id, target);
}

/// The rows of some transfers, with the transaction id and the PCZT of each.
pub open spec fn schedule_rows(
    transfers: Seq<TransferView>,
    txids: Seq<Seq<char>>,
    raw_pczts: Seq<Seq<u8>>,
) -> Seq<PendingTxView> {
    Seq::new(
        transfers.len(),
        |i: int| scheduled_row_of(transfers[i], txids[i], raw_pczts[i]),
    )
}

/// Transfers that are stored one by one are stored together.
pub proof fn transfers_add_up(
    pending: Seq<PendingView>,
    run_id: Seq<char>,
    rows: Seq<PendingTxView>,
    row: PendingTxView,
)
    ensures
        pending_with(pending_with(pending, run_id, rows), run_id, seq![row]) == pending_with(
            pending,
            run_id,
            rows.push(row),
        ),
{
    let stored = pending_with(pending, run_id, rows);
    assert(rows.push(row).drop_last() =~= rows);
    assert(seq![row].drop_last() =~= Seq::<PendingTxView>::empty());
    assert(pending_with(stored, run_id, seq![row].drop_last()) == stored);
}

/// Transfers under new and distinct transaction ids are stored behind what was there, one row for
/// each.
pub proof fn new_transfers_are_appended(
    pending: Seq<PendingView>,
    run_id: Seq<char>,
    rows: Seq<PendingTxView>,
)
    requires
        keys_are_unique(pending),
        forall|i: int|
            0 <= i < rows.len() ==> position(pending, (#[trigger] rows[i]).txid_hex) is None,
        forall|i: int, j: int|
            0 <= i < j < rows.len() ==> (#[trigger] rows[i]).txid_hex != (
            #[trigger] rows[j]).txid_hex,
    ensures
        pending_with(pending, run_id, rows) == pending + rows.map_values(
            |row: PendingTxView| PendingView { run_id, tx: row },
        ),
    decreases rows.len(),
{
    let as_row = |row: PendingTxView| PendingView { run_id, tx: row };
    if rows.len() == 0 {
        assert(pending + rows.map_values(as_row) =~= pending);
    } else {
        let front = rows.drop_last();
        new_transfers_are_appended(pending, run_id, front);
        let stored = pending + front.map_values(as_row);
        let last = PendingView { run_id, tx: rows.last() };
        assert forall|i: int| 0 <= i < stored.len() implies (#[trigger] stored[i]).key()
            != last.key() by {
            if i < pending.len() {
                position_holds(pending, last.key());
                assert(rows[rows.len() - 1].txid_hex == last.key());
                assert(pending[i].key() != last.key());
            } else {
                let k = i - pending.len();
                assert(stored[i].tx == rows[k]);
                assert(rows[k].txid_hex != rows[rows.len() - 1].txid_hex);
            }
        }
        position_is_none(stored, last.key());
        assert(stored.push(last) =~= pending + rows.map_values(as_row));
    }
}

/// Once every transfer of a schedule is signed under new and distinct transaction ids, the run of the
/// schedule is scheduled for broadcast without an error and has one more row for each transfer, with
/// the transfer's amount and heights; a new run is the context's own. No other row and no other run
/// changes.
pub proof fn signed_schedule_is_stored(
    c: ContextView,
    s: StoreView,
    fresh: Seq<char>,
    transfers: Seq<TransferView>,
    txids: Seq<Seq<char>>,
    raw_pczts: Seq<Seq<u8>>,
    begun_at: i64,
    finished_at: i64,
    id: Seq<char>,
)
    requires
        s.wf(),
        c.active(s) is None ==> position(s.runs, fresh) is None,
        txids.len() == transfers.len(),
        raw_pczts.len() == transfers.len(),
        forall|i: int| 0 <= i < txids.len() ==> position(s.pending, #[trigger] txids[i]) is None,
        forall|i: int, j: int|
            0 <= i < j < txids.len() ==> #[trigger] txids[i] != #[trigger] txids[j],
    ensures
        ({
            let run_id = signing_run(c, s, fresh);
            let begun = with_signing_run(c, s, fresh, begun_at);
            let rows = schedule_rows(transfers, txids, raw_pczts);
            let runs = runs_with_phase(
                begun.runs,
                run_id,
                phase_name(Phase::BroadcastScheduled),
                None,
                finished_at,
            );
            let started = match c.active(s) {
                Some(run) => run,
                None => started_run(c, fresh, Phase::ReadyToMigrate, Seq::empty(), begun_at),
            };
            &&& pending_with(begun.pending, run_id, rows) == s.pending + rows.map_values(
                |row: PendingTxView| PendingView { run_id, tx: row },
            )
            &&& lookup(runs, run_id) == Some(
                RunView {
                    phase: phase_name(Phase::BroadcastScheduled),
                    last_error: None,
                    updated_at_ms: finished_at,
                    ..started
                },
            )
            &&& id != run_id ==> lookup(runs, id) == lookup(s.runs, id)
        }),
{
    let run_id = signing_run(c, s, fresh);
    let begun = with_signing_run(c, s, fresh, begun_at);
    let rows = schedule_rows(transfers, txids, raw_pczts);
    assert forall|i: int| 0 <= i < rows.len() implies position(
        s.pending,
        (#[trigger] rows[i]).txid_hex,
    ) is None by {
        assert(rows[i].txid_hex == txids[i]);
    }
    assert forall|i: int, j: int| 0 <= i < j < rows.len() implies (#[trigger] rows[i]).txid_hex != (
    #[trigger] rows[j]).txid_hex by {
        assert(txids[i] != txids[j]);
    }
    new_transfers_are_appended(s.pending, run_id, rows);
    match c.active(s) {
        Some(run) => {
            active_run_is_the_newest_live_one(
                s.runs,
                hyphenated(c.account),
                network_name(c.network),
            );
            let k = choose|k: int| 0 <= k < s.runs.len() && s.runs[k] == run;
            position_is(s.runs, run_id, k);
        },
        None => {
            let row = started_run(c, fresh, Phase::ReadyToMigrate, Seq::empty(), begun_at);
            pushed_row_is_found(s.runs, row, run_id);
            pushed_row_is_found(s.runs, row, id);
        },
    }
    set_phase_is_read_back(
        begun.runs,
        run_id,
        Phase::BroadcastScheduled,
        None,
        finished_at,
        run_id,
    );
    set_phase_is_read_back(begun.runs, run_id, Phase::BroadcastScheduled, None, finished_at, id);
}

// ----- the notes of a schedule -----

/// The notes that the transfers of a batch spend, the first transfer's first.
pub open spec fn batch_reserved(spent: Seq<Seq<(Seq<char>, u32)>>) -> Seq<(Seq<char>, u32)>
    decreases spent.len(),
{
    if spent.len() == 0 {
        Seq::empty()
    } else {
        batch_reserved(spent.drop_last()) + lowered_refs(spent.last())
    }
}

/// What a transfer spends is reserved behind what the transfers before it spend.
pub proof fn reserved_notes_add_up(
    spent: Seq<Seq<(Seq<char>, u32)>>,
    next: Seq<(Seq<char>, u32)>,
)
    ensures
        batch_reserved(spent.push(next)) == batch_reserved(spent) + lowered_refs(next),
{
    assert(spent.push(next).drop_last() =~= spent);
}

/// A note is admitted for no transfer after one that spends it.
pub proof fn reserved_note_is_never_admitted_again(
    spent: Seq<Seq<(Seq<char>, u32)>>,
    locks: Seq<(Seq<char>, u32)>,
    i: int,
    k: int,
)
    requires
        0 <= i < spent.len(),
        0 <= k < spent[i].len(),
    ensures
        !may_spend(spent[i][k].0, spent[i][k].1, batch_reserved(spent), locks),
    decreases spent.len(),
{
    let note = (lower(spent[i][k].0), spent[i][k].1);
    let front = batch_reserved(spent.drop_last());
    let last = lowered_refs(spent.last());
    if i == spent.len() - 1 {
        assert(last[k] == note);
        assert((front + last)[front.len() + k] == note);
    } else {
        assert(spent.drop_last()[i] == spent[i]);
        reserved_note_is_never_admitted_again(spent.drop_last(), Seq::empty(), i, k);
        let at = choose|at: int| 0 <= at < front.len() && front[at] == note;
        assert((front + last)[at] == note);
    }
}

/// Where every transfer of a batch spends only notes that were admitted for it, no note is an input
/// of two of them.
pub proof fn transfers_spend_distinct_notes(
    spent: Seq<Seq<(Seq<char>, u32)>>,
    locks: Seq<(Seq<char>, u32)>,
    i: int,
    j: int,
    a: int,
    b: int,
)
    requires
        forall|n: int, k: int|
            0 <= n < spent.len() && 0 <= k < spent[n].len() ==> may_spend(
                (#[trigger] spent[n][k]).0,
                spent[n][k].1,
                batch_reserved(spent.take(n)),
                locks,
            ),
        0 <= i < j < spent.len(),
        0 <= a < spent[i].len(),
        0 <= b < spent[j].len(),
    ensures
        lowered_refs(spent[i])[a] != lowered_refs(spent[j])[b],
{
    let before = spent.take(j);
    assert(before[i] == spent[i]);
    reserved_note_is_never_admitted_again(before, Seq::empty(), i, a);
    assert(may_spend(spent[j][b].0, spent[j][b].1, batch_reserved(before), locks));
}

} // verus!
