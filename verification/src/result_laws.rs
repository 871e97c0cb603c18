//! What holds of the transactions that are handed out and of the results that are recorded for them,
//! said of the rows that change and of those that do not.

use crate::context::{shows, state_outcome, ContextView};
use crate::error::{InvalidStateError, MigrationError};
use crate::execution::{
    after_result, due_transfer, is_invalid_answer, is_next_due, is_overdue_answer, is_recorded,
    pending_split, with_step_cleared,
};
use crate::row_laws::{
    clearing_removes_scheduled_transfers_alone, differs_in_status_alone, transfers_of,
};
use crate::rows::{PendingView, RunView};
use crate::state_laws::{
    is_broadcasting_name, is_early_name, is_fully_confirmed, is_splitting_name,
    nothing_is_queued_without_open_transfers, run_completes_once_all_is_confirmed,
    schedules_are_expected_from_broadcasting_on,
};
use crate::store::{first_due, is_due, StoreView};
use crate::store_laws::next_due_transfer_is_the_earliest;
use crate::table::{position, position_holds, position_is, Row};
use crate::text::{starts_with, text_before};
use crate::types::{MigrationState, PreparedTx, TransferResult};
use crate::wallet::PoolBalances;
use vstd::prelude::*;

verus! {

// ----- what is handed out -----

/// A run's note split that is still to be broadcast.
pub open spec fn is_open_split(s: StoreView, run: RunView, k: int) -> bool {
    0 <= k < s.prep.len() && s.prep[k].run_id == run.run_id && s.prep[k].status == "pending"@
}

/// A run's transfer that may be sent at a height: it is scheduled, and its send height is reached.
pub open spec fn is_sendable(s: StoreView, run: RunView, target: u32, k: int) -> bool {
    &&& 0 <= k < s.pending.len()
    &&& s.pending[k].run_id == run.run_id
    &&& s.pending[k].tx.status == "scheduled"@
    &&& s.pending[k].tx.next_executable_after_height <= target
}

/// Without an active run nothing is handed out.
pub proof fn nothing_is_handed_out_without_a_run(
    r: Result<Option<PreparedTx>, MigrationError>,
    c: ContextView,
    s: StoreView,
    heights: Result<(u32, u32), MigrationError>,
)
    requires
        is_next_due(r, c, s, heights),
        c.active(s) is None,
    ensures
        r is Ok,
        r->Ok_0 is None,
{
}

/// The active run's note split goes first, whatever the height: it is handed out under the run's id,
/// with the transaction id and the PCZT it was stored with.
pub proof fn open_split_is_handed_out_first(
    r: Result<Option<PreparedTx>, MigrationError>,
    c: ContextView,
    s: StoreView,
    run: RunView,
    heights: Result<(u32, u32), MigrationError>,
    k: int,
)
    requires
        s.wf(),
        is_next_due(r, c, s, heights),
        c.active(s) == Some(run),
        is_open_split(s, run, k),
    ensures
        r is Ok,
        r->Ok_0 is Some,
        r->Ok_0->Some_0.id@ == "prep:"@ + run.run_id,
        r->Ok_0->Some_0.txid@ == s.prep[k].txid_hex,
        r->Ok_0->Some_0.raw_pczt@ == s.prep[k].raw_pczt,
{
    assert(s.prep[k].key() == run.run_id);
    position_is(s.prep, run.run_id, k);
    let tx = r->Ok_0->Some_0;
    assert(tx@ == pending_split(s, run)->Some_0);
    assert(tx.id@ == tx@.id && tx.txid@ == tx@.txid && tx.raw_pczt@ == tx@.raw_pczt);
}

/// Where no split is to be broadcast, what is handed out is a transfer of the active run that may be
/// sent, under its transaction id and with the PCZT it was stored with; none that may be sent has a
/// smaller send height, or the same one and an id that comes first. Nothing is handed out exactly where
/// no transfer of the run may be sent.
pub proof fn earliest_transfer_is_handed_out(
    r: Result<Option<PreparedTx>, MigrationError>,
    c: ContextView,
    s: StoreView,
    run: RunView,
    target: u32,
    anchor: u32,
)
    requires
        s.wf(),
        is_next_due(r, c, s, Ok((target, anchor))),
        c.active(s) == Some(run),
        forall|k: int| !is_open_split(s, run, k),
    ensures
        r is Ok,
        r->Ok_0 is None <==> forall|k: int| !is_sendable(s, run, target, k),
        r->Ok_0 is Some ==> exists|k: int| #[trigger]
            is_sendable(s, run, target, k) && {
                &&& r->Ok_0->Some_0.id@ == s.pending[k].tx.txid_hex
                &&& r->Ok_0->Some_0.txid@ == s.pending[k].tx.txid_hex
                &&& r->Ok_0->Some_0.raw_pczt@ == s.pending[k].tx.raw_pczt
                &&& forall|i: int| #[trigger]
                    is_sendable(s, run, target, i) ==> {
                        ||| s.pending[k].tx.next_executable_after_height
                            < s.pending[i].tx.next_executable_after_height
                        ||| s.pending[k].tx.next_executable_after_height
                            == s.pending[i].tx.next_executable_after_height && !text_before(
                            s.pending[i].tx.txid_hex,
                            s.pending[k].tx.txid_hex,
                        )
                    }
            },
{
    no_open_split_is_pending(s, run);
    next_due_transfer_is_the_earliest(s.pending, run.run_id, target);
    match first_due(s.pending, run.run_id, target) {
        Some(row) => {
            let k = choose|k: int| 0 <= k < s.pending.len() && s.pending[k] == row;
            let tx = r->Ok_0->Some_0;
            assert(tx@ == due_transfer(s, run, target)->Some_0);
            assert(tx.id@ == tx@.id && tx.txid@ == tx@.txid && tx.raw_pczt@ == tx@.raw_pczt);
            assert(is_sendable(s, run, target, k));
            assert forall|i: int| #[trigger] is_sendable(s, run, target, i) implies {
                ||| s.pending[k].tx.next_executable_after_height
                    < s.pending[i].tx.next_executable_after_height
                ||| s.pending[k].tx.next_executable_after_height
                    == s.pending[i].tx.next_executable_after_height && !text_before(
                    s.pending[i].tx.txid_hex,
                    s.pending[k].tx.txid_hex,
                )
            } by {
                assert(is_due(s.pending[i], run.run_id, target));
            }
        },
        None => {
            assert forall|k: int| !is_sendable(s, run, target, k) by {
                if is_sendable(s, run, target, k) {
                    assert(!is_due(s.pending[k], run.run_id, target));
                }
            }
        },
    }
}

/// Where no split is to be broadcast and the heights could not be read, that is the error.
pub proof fn unread_heights_are_reported(
    r: Result<Option<PreparedTx>, MigrationError>,
    c: ContextView,
    s: StoreView,
    run: RunView,
    e: MigrationError,
)
    requires
        s.wf(),
        is_next_due(r, c, s, Err(e)),
        c.active(s) == Some(run),
        forall|k: int| !is_open_split(s, run, k),
    ensures
        r == Err::<Option<PreparedTx>, MigrationError>(e),
{
    no_open_split_is_pending(s, run);
}

proof fn no_open_split_is_pending(s: StoreView, run: RunView)
    requires
        forall|k: int| !is_open_split(s, run, k),
    ensures
        pending_split(s, run) is None,
{
    position_holds(s.prep, run.run_id);
    if let Some(k) = position(s.prep, run.run_id) {
        assert(s.prep[k].run_id == run.run_id);
        assert(!is_open_split(s, run, k));
    }
}

// ----- what a result changes -----

/// An id is that of a note split: it begins with the word for one.
pub open spec fn names_a_split(transfer_id: Seq<char>) -> bool {
    transfer_id.len() >= 5 && transfer_id.take(5) == "prep:"@
}

proof fn split_ids_are_told_apart(transfer_id: Seq<char>)
    ensures
        starts_with(transfer_id, "prep:"@) == names_a_split(transfer_id),
{
    reveal_strlit("prep:");
    assert("prep:"@.len() == 5);
}

/// Recording the success of a transfer marks the row of that transfer as broadcast and changes nothing
/// else: the runs with their phases and errors, the prep transactions, the notes and every other row
/// stay as they were.
pub proof fn success_marks_the_transfer_alone(
    s: StoreView,
    run: RunView,
    transfer_id: Seq<char>,
    txid: String,
    now: i64,
    i: int,
)
    requires
        !names_a_split(transfer_id),
        0 <= i < s.pending.len(),
    ensures
        ({
            let after = after_result(s, run, transfer_id, TransferResult::Success { txid }, now);
            &&& after.runs == s.runs
            &&& after.notes == s.notes
            &&& after.prep == s.prep
            &&& after.pending.len() == s.pending.len()
            &&& s.pending[i].tx.txid_hex != transfer_id ==> after.pending[i] == s.pending[i]
            &&& s.pending[i].tx.txid_hex == transfer_id ==> {
                &&& after.pending[i].tx.status == "broadcasted"@
                &&& differs_in_status_alone(after.pending[i], s.pending[i])
            }
        }),
{
    split_ids_are_told_apart(transfer_id);
}

/// A run that is broadcasting is in progress once the success of one of its transfers is recorded, with
/// as many transfers as before.
pub proof fn recorded_transfer_keeps_its_run_in_progress(
    c: ContextView,
    s: StoreView,
    run: RunView,
    k: int,
    txid: String,
    now: i64,
    balances: Result<PoolBalances, MigrationError>,
    split_mined: Result<bool, MigrationError>,
    state: Result<MigrationState, MigrationError>,
)
    requires
        c.active(s) == Some(run),
        is_broadcasting_name(run.phase),
        s.pending.len() <= u32::MAX,
        0 <= k < s.pending.len(),
        s.pending[k].run_id == run.run_id,
        !names_a_split(s.pending[k].tx.txid_hex),
        shows(
            state,
            state_outcome(
                c,
                after_result(
                    s,
                    run,
                    s.pending[k].tx.txid_hex,
                    TransferResult::Success { txid },
                    now,
                ),
                balances,
                split_mined,
            ),
        ),
    ensures
        state is Ok,
        state->Ok_0 is InProgress,
        state->Ok_0->InProgress_0.total_transfers == transfers_of(s.pending, run.run_id).len(),
{
    let id = s.pending[k].tx.txid_hex;
    let after = after_result(s, run, id, TransferResult::Success { txid }, now);
    success_marks_the_transfer_alone(s, run, id, txid, now, k);
    reveal_strlit("broadcasted");
    reveal_strlit("confirmed");
    assert("broadcasted"@.len() == 11 && "confirmed"@.len() == 9);
    assert(after.pending[k].run_id == run.run_id);
    assert(!is_fully_confirmed(after.pending, run.run_id));
    run_completes_once_all_is_confirmed(c, after, run, balances, split_mined, now, state);
    assert forall|i: int| 0 <= i < s.pending.len() implies (#[trigger] after.pending[i]).run_id
        == s.pending[i].run_id by {
        success_marks_the_transfer_alone(s, run, id, txid, now, i);
    }
    rows_of_a_run_are_counted_alike(s.pending, after.pending, run.run_id);
}

proof fn rows_of_a_run_are_counted_alike(
    a: Seq<PendingView>,
    b: Seq<PendingView>,
    run_id: Seq<char>,
)
    requires
        a.len() == b.len(),
        forall|i: int| 0 <= i < a.len() ==> (#[trigger] b[i]).run_id == a[i].run_id,
    ensures
        transfers_of(a, run_id).len() == transfers_of(b, run_id).len(),
    decreases a.len(),
{
    reveal(Seq::filter);
    if a.len() > 0 {
        assert(b[b.len() - 1].run_id == a[a.len() - 1].run_id);
        assert forall|i: int| 0 <= i < a.len() - 1 implies (#[trigger] b.drop_last()[i]).run_id
            == a.drop_last()[i].run_id by {
            assert(b[i].run_id == a[i].run_id);
        }
        rows_of_a_run_are_counted_alike(a.drop_last(), b.drop_last(), run_id);
    }
}

/// A network error changes nothing, whatever it was reported for.
pub proof fn network_errors_leave_everything(
    s: StoreView,
    run: RunView,
    transfer_id: Seq<char>,
    retryable: bool,
    now: i64,
)
    ensures
        ({
            let after = after_result(
                s,
                run,
                transfer_id,
                TransferResult::NetworkError { retryable },
                now,
            );
            &&& after.runs == s.runs
            &&& after.notes == s.notes
            &&& after.prep == s.prep
            &&& after.pending == s.pending
        }),
{
}

/// An invalid note or an expiry that is reported for a transfer fails the active run, to be recovered
/// from, with a message that names the transfer; every other run, the notes, the prep transactions and
/// the transfers stay as they were.
pub proof fn failure_marks_the_active_run_alone(
    s: StoreView,
    run: RunView,
    transfer_id: Seq<char>,
    result: TransferResult,
    now: i64,
    i: int,
)
    requires
        !names_a_split(transfer_id),
        result is InvalidNote || result is Expired,
        0 <= i < s.runs.len(),
    ensures
        ({
            let after = after_result(s, run, transfer_id, result, now);
            &&& after.notes == s.notes
            &&& after.prep == s.prep
            &&& after.pending == s.pending
            &&& after.runs.len() == s.runs.len()
            &&& s.runs[i].run_id != run.run_id ==> after.runs[i] == s.runs[i]
            &&& s.runs[i].run_id == run.run_id ==> {
                &&& after.runs[i].phase == "failed_recoverable"@
                &&& result is InvalidNote ==> after.runs[i].last_error == Some(
                    "invalid note for transfer "@ + transfer_id,
                )
                &&& result is Expired ==> after.runs[i].last_error == Some(
                    "transfer "@ + transfer_id + " expired"@,
                )
                &&& after.runs[i].updated_at_ms == now
                &&& after.runs[i].run_id == s.runs[i].run_id
                &&& after.runs[i].account_uuid == s.runs[i].account_uuid
                &&& after.runs[i].network == s.runs[i].network
                &&& after.runs[i].db_fingerprint == s.runs[i].db_fingerprint
                &&& after.runs[i].created_at_ms == s.runs[i].created_at_ms
                &&& after.runs[i].prep_txid == s.runs[i].prep_txid
                &&& after.runs[i].target_values_json == s.runs[i].target_values_json
            }
        }),
{
    split_ids_are_told_apart(transfer_id);
}

/// Recording the success of a run's note split marks the split as broadcast and lets its run wait for
/// the confirmation, without an error; the notes, the transfers, the other splits and the other runs
/// stay as they were. Any other result for a split changes nothing.
pub proof fn split_result_advances_its_run_alone(
    s: StoreView,
    run: RunView,
    run_id: Seq<char>,
    result: TransferResult,
    now: i64,
    i: int,
    j: int,
)
    requires
        0 <= i < s.runs.len(),
        0 <= j < s.prep.len(),
    ensures
        ({
            let after = after_result(s, run, "prep:"@ + run_id, result, now);
            &&& after.notes == s.notes
            &&& after.pending == s.pending
            &&& !(result is Success) ==> after.runs == s.runs && after.prep == s.prep
            &&& after.runs.len() == s.runs.len()
            &&& after.prep.len() == s.prep.len()
            &&& s.runs[i].run_id != run_id ==> after.runs[i] == s.runs[i]
            &&& s.prep[j].run_id != run_id ==> after.prep[j] == s.prep[j]
            &&& result is Success && s.runs[i].run_id == run_id ==> {
                &&& after.runs[i].phase == "waiting_denom_confirmations"@
                &&& after.runs[i].last_error is None
                &&& after.runs[i].updated_at_ms == now
                &&& after.runs[i].run_id == run_id
                &&& after.runs[i].account_uuid == s.runs[i].account_uuid
                &&& after.runs[i].network == s.runs[i].network
                &&& after.runs[i].created_at_ms == s.runs[i].created_at_ms
            }
            &&& result is Success && s.prep[j].run_id == run_id ==> {
                &&& after.prep[j].status == "broadcasted"@
                &&& after.prep[j].run_id == run_id
                &&& after.prep[j].txid_hex == s.prep[j].txid_hex
                &&& after.prep[j].raw_pczt == s.prep[j].raw_pczt
            }
        }),
{
    let id = "prep:"@ + run_id;
    reveal_strlit("prep:");
    assert("prep:"@.len() == 5);
    assert(id.take(5) =~= "prep:"@);
    assert(id.skip(5) =~= run_id);
    split_ids_are_told_apart(id);
}

// ----- starting a step afresh -----

/// Clearing a step removes the scheduled transfers of the active run alone; without an active run
/// nothing changes.
pub proof fn cleared_step_loses_scheduled_transfers_alone(c: ContextView, s: StoreView)
    ensures
        with_step_cleared(c, s).runs == s.runs,
        with_step_cleared(c, s).notes == s.notes,
        with_step_cleared(c, s).prep == s.prep,
        c.active(s) is None ==> with_step_cleared(c, s).pending == s.pending,
        c.active(s) matches Some(run) ==> with_step_cleared(c, s).pending == s.pending.filter(
            |r: PendingView| !(r.run_id == run.run_id && r.tx.status == "scheduled"@),
        ),
{
    if let Some(run) = c.active(s) {
        clearing_removes_scheduled_transfers_alone(s.pending, run.run_id);
    }
}

// ----- recording -----

/// A result is recorded exactly where there is an active run; without one it is refused, and nothing
/// changes.
pub proof fn results_are_recorded_for_an_active_run(
    r: Result<(), MigrationError>,
    c: ContextView,
    before: StoreView,
    after: StoreView,
    transfer_id: Seq<char>,
    result: TransferResult,
    now: i64,
)
    requires
        is_recorded(r, c, before, after, transfer_id, result, now),
    ensures
        r is Ok <==> c.active(before) is Some,
        r is Err ==> {
            &&& r matches Err(MigrationError::InvalidState(InvalidStateError::NoActiveRun))
            &&& after == before
        },
        c.active(before) matches Some(run) ==> after == after_result(
            before,
            run,
            transfer_id,
            result,
            now,
        ),
{
}

/// Once the success of a transfer is recorded, the runs, the notes and the prep transactions are as
/// before, and of the transfers only the status of the one with that id has changed.
pub proof fn recorded_success_changes_one_status(
    r: Result<(), MigrationError>,
    c: ContextView,
    before: StoreView,
    after: StoreView,
    transfer_id: Seq<char>,
    result: TransferResult,
    now: i64,
    i: int,
)
    requires
        is_recorded(r, c, before, after, transfer_id, result, now),
        r is Ok,
        result is Success,
        !names_a_split(transfer_id),
        0 <= i < before.pending.len(),
    ensures
        after.runs == before.runs,
        after.notes == before.notes,
        after.prep == before.prep,
        after.pending.len() == before.pending.len(),
        before.pending[i].tx.txid_hex != transfer_id ==> after.pending[i] == before.pending[i],
        before.pending[i].tx.txid_hex == transfer_id ==> {
            &&& after.pending[i].tx.status == "broadcasted"@
            &&& differs_in_status_alone(after.pending[i], before.pending[i])
        },
{
    let run = c.active(before)->Some_0;
    let txid = result->Success_txid;
    assert(result == TransferResult::Success { txid });
    success_marks_the_transfer_alone(before, run, transfer_id, txid, now, i);
}

// ----- reconciliation -----

/// A transfer is overdue exactly where one of the active run may be sent; without an active run none is,
/// and the heights are not looked at.
pub proof fn overdue_transfers_may_be_sent(
    r: Result<bool, MigrationError>,
    c: ContextView,
    s: StoreView,
    heights: Result<(u32, u32), MigrationError>,
)
    requires
        is_overdue_answer(r, c, s, heights),
    ensures
        c.active(s) is None ==> r is Ok && !r->Ok_0,
        c.active(s) matches Some(run) ==> match heights {
            Err(e) => r == Err::<bool, MigrationError>(e),
            Ok((target, _)) => {
                &&& r is Ok
                &&& r->Ok_0 <==> exists|k: int| is_sendable(s, run, target, k)
            },
        },
{
    if let (Some(run), Ok((target, _))) = (c.active(s), heights) {
        if exists|k: int| is_sendable(s, run, target, k) {
            let k = choose|k: int| is_sendable(s, run, target, k);
            assert(is_due(s.pending[k], run.run_id, target));
        }
        if exists|i: int|
            0 <= i < s.pending.len() && is_due(#[trigger] s.pending[i], run.run_id, target) {
            let i = choose|i: int|
                0 <= i < s.pending.len() && is_due(#[trigger] s.pending[i], run.run_id, target);
            assert(is_sendable(s, run, target, i));
        }
    }
}

/// The migration is invalid exactly where the active run is past being ready to migrate, none of its
/// transfers is scheduled or broadcast, and spendable Orchard remains. The balances are looked at only
/// where the rest holds.
pub proof fn uncovered_balance_is_invalid(
    r: Result<bool, MigrationError>,
    c: ContextView,
    s: StoreView,
    balances: Result<PoolBalances, MigrationError>,
)
    requires
        is_invalid_answer(r, c, s, balances),
    ensures
        ({
            let open = c.active(s) is Some && {
                let run = c.active(s)->Some_0;
                &&& !is_early_name(run.phase)
                &&& !is_splitting_name(run.phase)
                &&& run.phase != "ready_to_migrate"@
                &&& forall|i: int|
                    0 <= i < s.pending.len() && (#[trigger] s.pending[i]).run_id == run.run_id
                        ==> s.pending[i].tx.status != "scheduled"@ && s.pending[i].tx.status
                        != "broadcasted"@
            };
            &&& !open ==> r is Ok && !r->Ok_0
            &&& open && balances is Err ==> r == Err::<bool, MigrationError>(balances->Err_0)
            &&& open && balances is Ok ==> r is Ok && (r->Ok_0
                <==> balances->Ok_0.orchard_spendable > 0)
        }),
{
    if let Some(run) = c.active(s) {
        schedules_are_expected_from_broadcasting_on(run);
        nothing_is_queued_without_open_transfers(s, run.run_id);
    }
}

} // verus!
