//! What holds of the note splits and the schedules that are signed, said of what is stored for them.

use crate::context::{is_private_schedule, ContextView};
use crate::error::MigrationError;
use crate::execution::{is_next_due, is_refresh, with_step_cleared};
use crate::hex::{display_of, hyphenated};
use crate::json::json_array;
use crate::pipeline::{
    decoded_authority, is_signed_pczt, key_authority, parsed_contents, pczt_contents, read_txid,
};
use crate::result_laws::{
    cleared_step_loses_scheduled_transfers_alone, earliest_transfer_is_handed_out, is_open_split,
    is_sendable,
};
use crate::row_laws::{inserted_row_stands_last, stored_notes_are_found, stored_transfer_stands_last};
use crate::rows::{PendingTxRow, PendingView, PrepView, RunView};
use crate::schedule_laws::private_migration_crosses_all_that_is_funded;
use crate::signing::{
    is_next_recorded, is_next_signed, is_next_stored, is_next_transfer, is_schedule_begun,
    is_schedule_finished, is_split_begun, is_split_finished, is_split_recorded, lowered_refs, prep_id, scheduled_row_of,
    split_notes, started_run, with_split, ScheduleSigning, SplitSigning,
};
use crate::split::may_spend;
use crate::state::Phase;
use crate::store::{key_taken_error, locked_refs, pending_with, ref_views, StoreView};
use crate::table::{lookup, position, position_holds, upserted_row_is_found, Row};
use crate::text::lower;
use crate::types::{
    transfer_views, MigrationSchedule, PreparedTx, TransferProposal, TransferView,
};
use crate::wallet::PoolBalances;
use pczt::Pczt;
use vstd::prelude::*;

verus! {

// ----- transfers -----

/// The row of a signed transfer has the send height, the anchor, the expiry and the amount of the
/// transfer itself, the id and the bytes of what was signed, and is scheduled.
pub proof fn signed_row_is_that_of_its_transfer(
    row: PendingTxRow,
    t: TransferProposal,
    txid: Seq<char>,
    raw_pczt: Seq<u8>,
)
    requires
        row@ == scheduled_row_of(t@, txid, raw_pczt),
    ensures
        row.txid_hex@ == txid,
        row.raw_pczt@ == raw_pczt,
        row.next_executable_after_height == t.next_executable_after_height,
        row.target_height == t.next_executable_after_height,
        row.anchor_height == t.anchor_height,
        row.expiry_height == t.expiry_height,
        row.value_zatoshi == t.amount,
        row.fee_zatoshi == 0,
        row.selected_note_txid@.len() == 0,
        row.selected_note_output_index == 0,
        row.selected_note_value == 0,
        row.status@ == "scheduled"@,
        row.metadata_json@ == "{}"@,
{
    let v = row@;
    assert(v.txid_hex == row.txid_hex@ && v.raw_pczt == row.raw_pczt@);
    assert(v.status == row.status@ && v.metadata_json == row.metadata_json@);
    assert(v.selected_note_txid == row.selected_note_txid@);
}

/// The tables once a signed transfer of a run was stored.
pub open spec fn with_transfer(
    s: StoreView,
    run_id: Seq<char>,
    t: TransferView,
    txid: Seq<char>,
    raw_pczt: Seq<u8>,
) -> StoreView {
    StoreView {
        pending: pending_with(s.pending, run_id, seq![scheduled_row_of(t, txid, raw_pczt)]),
        ..s
    }
}

/// A signed transfer that was stored is queued until its send height: below it, it is not handed out;
/// from then on something is, and the transfer itself where nothing else of its run may be sent.
pub proof fn stored_transfer_waits_for_its_send_height(
    r: Result<Option<PreparedTx>, MigrationError>,
    c: ContextView,
    s: StoreView,
    run: RunView,
    t: TransferView,
    txid: Seq<char>,
    raw_pczt: Seq<u8>,
    target: u32,
    anchor: u32,
)
    requires
        s.wf(),
        c.active(s) == Some(run),
        forall|k: int| !is_open_split(s, run, k),
        is_next_due(
            r,
            c,
            with_transfer(s, run.run_id, t, txid, raw_pczt),
            Ok((target, anchor)),
        ),
    ensures
        r is Ok,
        target < t.next_executable_after_height && r->Ok_0 is Some ==> r->Ok_0->Some_0.id@ != txid,
        target >= t.next_executable_after_height ==> r->Ok_0 is Some,
        target >= t.next_executable_after_height && (forall|k: int|
            is_sendable(s, run, target, k) ==> s.pending[k].tx.txid_hex == txid) ==> {
            &&& r->Ok_0->Some_0.id@ == txid
            &&& r->Ok_0->Some_0.txid@ == txid
            &&& r->Ok_0->Some_0.raw_pczt@ == raw_pczt
        },
{
    let after = with_transfer(s, run.run_id, t, txid, raw_pczt);
    let row = scheduled_row_of(t, txid, raw_pczt);
    let last = after.pending.len() - 1;
    let keep = |p: PendingView| p.tx.txid_hex != row.txid_hex;
    stored_transfer_stands_last(s.pending, run.run_id, row);
    assert(after.pending[last].tx == row && after.pending[last].run_id == run.run_id);
    assert(seq![row].drop_last() =~= Seq::empty());
    assert(pending_with(s.pending, run.run_id, seq![row].drop_last()) == s.pending);
    upserted_row_is_found(s.pending, PendingView { run_id: run.run_id, tx: row }, txid);
    assert(after.wf());
    assert forall|k: int| !is_open_split(after, run, k) by {
        assert(!is_open_split(s, run, k));
    }
    earliest_transfer_is_handed_out(r, c, after, run, target, anchor);
    assert forall|k: int| 0 <= k < last implies (#[trigger] after.pending[k]).tx.txid_hex != txid by {
        assert(after.pending[k].key() != after.pending[last].key());
    }
    if target >= t.next_executable_after_height {
        assert(is_sendable(after, run, target, last));
    }
    if r->Ok_0 is Some {
        let k = choose|k: int| #[trigger]
            is_sendable(after, run, target, k) && r->Ok_0->Some_0.id@ == after.pending[k].tx.txid_hex
                && r->Ok_0->Some_0.txid@ == after.pending[k].tx.txid_hex
                && r->Ok_0->Some_0.raw_pczt@ == after.pending[k].tx.raw_pczt;
        if forall|k: int|
            is_sendable(s, run, target, k) ==> s.pending[k].tx.txid_hex == txid {
            if k < last {
                s.pending.filter_lemma(keep);
                assert(s.pending.filter(keep)[k] == after.pending[k]);
                assert(s.pending.contains(after.pending[k]));
                let m = choose|m: int| 0 <= m < s.pending.len() && s.pending[m] == after.pending[k];
                assert(is_sendable(s, run, target, m));
            }
        }
    }
}

// ----- runs that are begun -----

/// The row of a run that the engine begins.
pub open spec fn is_begun_row(
    row: RunView,
    c: ContextView,
    run_id: Seq<char>,
    phase: Seq<char>,
    target_values: Seq<u64>,
    now: i64,
) -> bool {
    &&& row.run_id == run_id
    &&& row.account_uuid == hyphenated(c.account)
    &&& c.network is Main ==> row.network == "main"@
    &&& c.network is Test ==> row.network == "test"@
    &&& c.network is Regtest ==> row.network == "regtest"@
    &&& row.db_fingerprint == c.db_path
    &&& row.phase == phase
    &&& row.created_at_ms == now
    &&& row.updated_at_ms == now
    &&& row.prep_txid is None
    &&& row.target_values_json == json_array(target_values)
    &&& row.last_error is None
}

/// The error of a run id that is taken, as SQLite tells it.
pub open spec fn taken_id_error() -> MigrationError {
    MigrationError::Db(
        key_taken_error("UNIQUE constraint failed: ext_ironwood_migration_runs.run_id"@),
    )
}

/// A run with the id is stored.
pub open spec fn has_run(s: StoreView, run_id: Seq<char>) -> bool {
    exists|i: int| 0 <= i < s.runs.len() && (#[trigger] s.runs[i]).run_id == run_id
}

proof fn position_tells_a_stored_run(s: StoreView, run_id: Seq<char>)
    ensures
        position(s.runs, run_id) is Some <==> has_run(s, run_id),
{
    position_holds(s.runs, run_id);
    if let Some(i) = position(s.runs, run_id) {
        assert(s.runs[i].run_id == run_id);
    }
    if has_run(s, run_id) {
        let i = choose|i: int| 0 <= i < s.runs.len() && (#[trigger] s.runs[i]).run_id == run_id;
        assert(s.runs[i].key() == run_id);
    }
}

/// Beginning a note split fails, and changes nothing, exactly where the key cannot be read or the run id
/// is taken. Otherwise one run is added behind the others, in the phase of preparing, with the planned
/// outputs; what is handed back is for that run, key and those outputs, under the locks of the other
/// unfinished runs.
pub proof fn begun_split_adds_one_run(
    r: Result<SplitSigning, MigrationError>,
    c: ContextView,
    before: StoreView,
    after: StoreView,
    run_id: Seq<char>,
    outputs: Seq<u64>,
    usk: Seq<u8>,
    now: i64,
    note: (Seq<char>, u32),
)
    requires
        is_split_begun(r, c, before, after, run_id, outputs, usk, now),
    ensures
        r is Err <==> decoded_authority(usk) is Err || has_run(before, run_id),
        r is Err ==> after == before,
        decoded_authority(usk) matches Err(text) ==> {
            r matches Err(MigrationError::Pipeline(m)) && m@ == "invalid unified spending key: "@
                + text
        },
        decoded_authority(usk) is Ok && has_run(before, run_id) ==> r == Err::<
            SplitSigning,
            MigrationError,
        >(taken_id_error()),
        r matches Ok(signing) ==> {
            &&& after.runs.len() == before.runs.len() + 1
            &&& after.runs.drop_last() == before.runs
            &&& is_begun_row(after.runs.last(), c, run_id, "preparing_denominations"@, outputs, now)
            &&& after.notes == before.notes
            &&& after.prep == before.prep
            &&& after.pending == before.pending
            &&& signing.run_id@ == run_id
            &&& signing.outputs@ == outputs
            &&& decoded_authority(usk) == Ok::<Seq<u8>, Seq<char>>(key_authority(signing.usk))
            &&& ref_views(signing.locks@).contains(note) <==> locked_refs(
                after,
                hyphenated(c.account),
                Some(run_id),
            ).contains(note)
        },
{
    position_tells_a_stored_run(before, run_id);
    let row = started_run(c, run_id, Phase::PreparingDenominations, outputs, now);
    assert(before.runs.push(row).drop_last() =~= before.runs);
    if r is Ok {
        assert(ref_views(r->Ok_0.locks@).to_set().contains(note) == ref_views(
            r->Ok_0.locks@,
        ).contains(note));
    }
}

/// Beginning to sign a schedule fails where the key cannot be read, where a new run would need a taken
/// id, or where the heights could not be read. The transfers belong to the active run, and no run is
/// added then; without one a run is added behind the others, ready to migrate. What is handed back holds
/// the transfers of the schedule in order, none signed yet, no note reserved, and the locks of the
/// other unfinished runs.
pub proof fn begun_schedule_belongs_to_the_active_run(
    r: Result<ScheduleSigning, MigrationError>,
    c: ContextView,
    before: StoreView,
    after: StoreView,
    fresh: Seq<char>,
    schedule: MigrationSchedule,
    usk: Seq<u8>,
    heights: Result<(u32, u32), MigrationError>,
    now: i64,
    note: (Seq<char>, u32),
    i: int,
)
    requires
        is_schedule_begun(r, c, before, after, fresh, schedule@.transfers, usk, heights, now),
        0 <= i < schedule.transfers@.len(),
    ensures
        r is Err <==> {
            ||| decoded_authority(usk) is Err
            ||| c.active(before) is None && has_run(before, fresh)
            ||| heights is Err
        },
        decoded_authority(usk) matches Err(text) ==> {
            r matches Err(MigrationError::Pipeline(m)) && m@ == "invalid unified spending key: "@
                + text
        },
        decoded_authority(usk) is Ok && c.active(before) is None && has_run(before, fresh) ==> r
            == Err::<ScheduleSigning, MigrationError>(taken_id_error()),
        decoded_authority(usk) is Ok && !(c.active(before) is None && has_run(before, fresh))
            && heights is Err ==> r == Err::<ScheduleSigning, MigrationError>(heights->Err_0),
        after.notes == before.notes,
        after.prep == before.prep,
        after.pending == before.pending,
        c.active(before) is Some ==> after.runs == before.runs,
        decoded_authority(usk) is Err || (c.active(before) is None && has_run(before, fresh))
            ==> after.runs == before.runs,
        decoded_authority(usk) is Ok && c.active(before) is None && !has_run(before, fresh) ==> {
            &&& after.runs.len() == before.runs.len() + 1
            &&& after.runs.drop_last() == before.runs
            &&& is_begun_row(
                after.runs.last(),
                c,
                fresh,
                "ready_to_migrate"@,
                Seq::<u64>::empty(),
                now,
            )
        },
        r matches Ok(signing) ==> {
            &&& c.active(before) matches Some(run) ==> signing.run_id@ == run.run_id
            &&& c.active(before) is None ==> signing.run_id@ == fresh
            &&& decoded_authority(usk) == Ok::<Seq<u8>, Seq<char>>(key_authority(signing.usk))
            &&& signing.target_height == heights->Ok_0.0
            &&& signing.transfers@.len() == schedule.transfers@.len()
            &&& signing.transfers@[i].id@ == schedule.transfers@[i].id@
            &&& signing.transfers@[i].amount == schedule.transfers@[i].amount
            &&& signing.transfers@[i].anchor_height == schedule.transfers@[i].anchor_height
            &&& signing.transfers@[i].next_executable_after_height
                == schedule.transfers@[i].next_executable_after_height
            &&& signing.transfers@[i].expiry_height == schedule.transfers@[i].expiry_height
            &&& signing.signed == 0
            &&& signing.reserved@.len() == 0
            &&& ref_views(signing.locks@).contains(note) <==> locked_refs(
                after,
                hyphenated(c.account),
                Some(signing.run_id@),
            ).contains(note)
        },
{
    position_tells_a_stored_run(before, fresh);
    let row = started_run(c, fresh, Phase::ReadyToMigrate, Seq::empty(), now);
    assert(before.runs.push(row).drop_last() =~= before.runs);
    if let Ok(signing) = r {
        assert(ref_views(signing.locks@).to_set().contains(note) == ref_views(
            signing.locks@,
        ).contains(note));
        assert(ref_views(signing.reserved@).len() == signing.reserved@.len());
        assert(transfer_views(signing.transfers@).len() == signing.transfers@.len());
        assert(transfer_views(schedule.transfers@).len() == schedule.transfers@.len());
        assert(transfer_views(signing.transfers@)[i] == signing.transfers@[i]@);
        assert(transfer_views(schedule.transfers@)[i] == schedule.transfers@[i]@);
        assert(signing.transfers@[i]@.id == signing.transfers@[i].id@);
        assert(schedule.transfers@[i]@.id == schedule.transfers@[i].id@);
    }
}

/// The transfer that is to be built next is the one behind those that are stored, until all are.
pub proof fn transfers_are_built_in_turn(t: Option<&TransferProposal>, signing: ScheduleSigning)
    requires
        is_next_transfer(t, signing),
    ensures
        t is Some <==> signing.signed < signing.transfers@.len(),
        t matches Some(next) ==> *next == signing.transfers@[signing.signed as int],
{
}

/// Once a transfer is stored, one more is, and the notes that it spends are reserved behind the ones
/// before, their transactions in lower case; nothing else of the signing changes.
pub proof fn recorded_transfer_reserves_its_notes(
    before: ScheduleSigning,
    after: ScheduleSigning,
    spent: Seq<(String, u32)>,
    i: int,
)
    requires
        before.signed < usize::MAX,
        is_next_recorded(before, after, ref_views(spent)),
        0 <= i < after.reserved@.len(),
    ensures
        after.signed == before.signed + 1,
        after.run_id@ == before.run_id@,
        after.usk == before.usk,
        after.target_height == before.target_height,
        after.locks@ == before.locks@,
        after.transfers@ == before.transfers@,
        after.reserved@.len() == before.reserved@.len() + spent.len(),
        i < before.reserved@.len() ==> {
            &&& after.reserved@[i].0@ == before.reserved@[i].0@
            &&& after.reserved@[i].1 == before.reserved@[i].1
        },
        i >= before.reserved@.len() ==> {
            &&& after.reserved@[i].0@ == lower(spent[i - before.reserved@.len()].0@)
            &&& after.reserved@[i].1 == spent[i - before.reserved@.len()].1
        },
{
    let held = ref_views(before.reserved@);
    let added = lowered_refs(ref_views(spent));
    assert(ref_views(after.reserved@) == held + added);
    assert(ref_views(after.reserved@).len() == after.reserved@.len());
    assert(held.len() == before.reserved@.len());
    assert(added.len() == spent.len());
    assert(ref_views(after.reserved@)[i] == (after.reserved@[i].0@, after.reserved@[i].1));
    if i < held.len() {
        assert(held[i] == (before.reserved@[i].0@, before.reserved@[i].1));
    } else {
        let k = i - held.len();
        assert(added[k] == (lower(spent[k].0@), spent[k].1));
    }
}

/// A note may be spent exactly where it stands, by its transaction in lower case and its output index,
/// neither among the reserved ones nor among the locked ones.
pub proof fn admitted_notes_are_neither_reserved_nor_locked(
    txid: Seq<char>,
    output_index: u32,
    reserved: Seq<(String, u32)>,
    locks: Seq<(String, u32)>,
)
    ensures
        may_spend(txid, output_index, ref_views(reserved), ref_views(locks)) <==> {
            &&& forall|i: int|
                0 <= i < reserved.len() ==> (#[trigger] reserved[i]).0@ != lower(txid)
                    || reserved[i].1 != output_index
            &&& forall|i: int|
                0 <= i < locks.len() ==> (#[trigger] locks[i]).0@ != lower(txid) || locks[i].1
                    != output_index
        },
{
    reference_is_listed(reserved, lower(txid), output_index);
    reference_is_listed(locks, lower(txid), output_index);
}

proof fn reference_is_listed(refs: Seq<(String, u32)>, txid: Seq<char>, output_index: u32)
    ensures
        ref_views(refs).contains((txid, output_index)) <==> exists|i: int|
            0 <= i < refs.len() && (#[trigger] refs[i]).0@ == txid && refs[i].1 == output_index,
{
    if ref_views(refs).contains((txid, output_index)) {
        let i = choose|i: int|
            0 <= i < ref_views(refs).len() && ref_views(refs)[i] == (txid, output_index);
        assert(refs[i].0@ == txid && refs[i].1 == output_index);
    }
    if exists|i: int|
        0 <= i < refs.len() && (#[trigger] refs[i]).0@ == txid && refs[i].1 == output_index {
        let i = choose|i: int|
            0 <= i < refs.len() && (#[trigger] refs[i]).0@ == txid && refs[i].1 == output_index;
        assert(ref_views(refs)[i] == (txid, output_index));
    }
}

// ----- the note split -----

/// A signed split is stored as pending under its run, with the id and the bytes of what was signed, in
/// place of one stored before; for each output that was placed a locked note of the second version is
/// stored at its action and of its value, unless a later output was placed at the same action. The
/// runs, the transfers and the splits of other runs stay as they were.
pub proof fn stored_split_keeps_what_was_signed(
    s: StoreView,
    run_id: Seq<char>,
    txid: Seq<char>,
    raw_pczt: Seq<u8>,
    placed: Seq<(u32, u64)>,
    i: int,
    other: Seq<char>,
)
    requires
        s.wf(),
        0 <= i < placed.len(),
        forall|j: int| i < j < placed.len() ==> (#[trigger] placed[j]).0 != placed[i].0,
        other != run_id,
    ensures
        ({
            let after = with_split(s, run_id, txid, raw_pczt, placed);
            let note = lookup(after.notes, (run_id, txid, placed[i].0));
            &&& after.runs == s.runs
            &&& after.pending == s.pending
            &&& after.prep.last().run_id == run_id
            &&& after.prep.last().txid_hex == txid
            &&& after.prep.last().raw_pczt == raw_pczt
            &&& after.prep.last().status == "pending"@
            &&& lookup(after.prep, run_id) == Some(after.prep.last())
            &&& lookup(after.prep, other) == lookup(s.prep, other)
            &&& note is Some
            &&& note->Some_0.run_id == run_id
            &&& note->Some_0.note.txid_hex == txid
            &&& note->Some_0.note.output_index == placed[i].0
            &&& note->Some_0.note.value_zatoshi == placed[i].1
            &&& note->Some_0.note.note_version == 2
            &&& note->Some_0.note.nullifier_hex is None
            &&& note->Some_0.note.lock_state == "locked"@
        }),
{
    let prep = PrepView { run_id, txid_hex: txid, raw_pczt, status: "pending"@ };
    let notes = split_notes(txid, placed);
    inserted_row_stands_last(s.prep, prep);
    upserted_row_is_found(s.prep, prep, run_id);
    upserted_row_is_found(s.prep, prep, other);
    assert forall|j: int| i < j < notes.len() implies (#[trigger] notes[j]).txid_hex
        != notes[i].txid_hex || notes[j].output_index != notes[i].output_index by {
        assert(placed[j].0 != placed[i].0);
    }
    stored_notes_are_found(s.notes, run_id, notes, i, (run_id, txid, placed[i].0));
}

/// A run's split goes by the word for a split and the run's id.
pub proof fn splits_go_by_their_run(run_id: Seq<char>)
    ensures
        prep_id(run_id) == "prep:"@ + run_id,
{
}

// ----- refreshing -----

/// Refreshing hands back as many transfers as are signed anew: those of a private migration of the
/// readings, for the active run or a new one. Of the tables the scheduled transfers of the active run
/// are gone first, whatever comes after; no other transfer, no note and no split changes.
pub proof fn refreshing_signs_a_private_migration_anew(
    r: Result<(u32, ScheduleSigning), MigrationError>,
    c: ContextView,
    before: StoreView,
    after: StoreView,
    run_id: Seq<char>,
    fresh: Seq<char>,
    heights: Result<(u32, u32), MigrationError>,
    balances: Result<PoolBalances, MigrationError>,
    usk: Seq<u8>,
    now: i64,
)
    requires
        is_refresh(r, c, before, after, run_id, fresh, heights, balances, usk, now),
    ensures
        after.notes == before.notes,
        after.prep == before.prep,
        c.active(before) is None ==> after.pending == before.pending,
        c.active(before) matches Some(run) ==> {
            &&& after.runs == before.runs
            &&& after.pending == before.pending.filter(
                |p: PendingView| !(p.run_id == run.run_id && p.tx.status == "scheduled"@),
            )
        },
        heights is Err ==> r == Err::<(u32, ScheduleSigning), MigrationError>(heights->Err_0),
        heights is Ok && balances is Err ==> r == Err::<(u32, ScheduleSigning), MigrationError>(
            balances->Err_0,
        ),
        r matches Ok((count, signing)) ==> {
            &&& signing.signed == 0
            &&& c.active(before) matches Some(run) ==> signing.run_id@ == run.run_id
            &&& c.active(before) is None ==> signing.run_id@ == fresh
            &&& exists|schedule: MigrationSchedule|
                is_private_schedule(Ok(schedule), run_id, heights, balances)
                    && #[trigger] schedule@.transfers == transfer_views(signing.transfers@)
            &&& count == signing.transfers@.len()
        },
{
    let cleared = with_step_cleared(c, before);
    cleared_step_loses_scheduled_transfers_alone(c, before);
    assert(c.active(cleared) == c.active(before));
    let proposed = choose|proposed: Result<MigrationSchedule, MigrationError>| #[trigger]
        is_private_schedule(proposed, run_id, heights, balances) && match proposed {
            Err(e) => r == Err::<(u32, ScheduleSigning), MigrationError>(e) && after == cleared,
            Ok(schedule) => exists|begun: Result<ScheduleSigning, MigrationError>| #[trigger]
                is_schedule_begun(
                    begun,
                    c,
                    cleared,
                    after,
                    fresh,
                    schedule@.transfers,
                    usk,
                    heights,
                    now,
                ) && match begun {
                    Err(e) => r == Err::<(u32, ScheduleSigning), MigrationError>(e),
                    Ok(signing) => r == Ok::<(u32, ScheduleSigning), MigrationError>(
                        (schedule@.transfers.len() as u32, signing),
                    ),
                },
        };
    if let Ok(schedule) = proposed {
        let begun = choose|begun: Result<ScheduleSigning, MigrationError>| #[trigger]
            is_schedule_begun(
                begun,
                c,
                cleared,
                after,
                fresh,
                schedule@.transfers,
                usk,
                heights,
                now,
            ) && match begun {
                Err(e) => r == Err::<(u32, ScheduleSigning), MigrationError>(e),
                Ok(signing) => r == Ok::<(u32, ScheduleSigning), MigrationError>(
                    (schedule@.transfers.len() as u32, signing),
                ),
            };
        assert(transfer_views(schedule.transfers@).len() == schedule.transfers@.len());
        if let Ok(signing) = begun {
            assert(schedule@.transfers == transfer_views(signing.transfers@));
            assert(transfer_views(signing.transfers@).len() == signing.transfers@.len());
            private_migration_crosses_all_that_is_funded(
                proposed,
                run_id,
                heights->Ok_0.0,
                heights->Ok_0.1,
                balances->Ok_0,
                0,
            );
        }
    }
}

// ----- finishing -----

/// A split that was stored is handed back under its run, with the id and the bytes of what was signed:
/// the same that are stored.
pub proof fn recorded_split_is_handed_back(
    tx: PreparedTx,
    before: StoreView,
    after: StoreView,
    run_id: Seq<char>,
    txid: Seq<u8>,
    raw_pczt: Seq<u8>,
    placed: Seq<(u32, u64)>,
)
    requires
        is_split_recorded(tx, before, after, run_id, txid, raw_pczt, placed),
    ensures
        tx.id@ == "prep:"@ + run_id,
        tx.txid@ == display_of(txid),
        tx.raw_pczt@ == raw_pczt,
        after == with_split(before, run_id, tx.txid@, tx.raw_pczt@, placed),
{
    assert(tx.id@ == tx@.id && tx.txid@ == tx@.txid && tx.raw_pczt@ == tx@.raw_pczt);
}

/// A split is finished only where it was built; where building or signing it failed nothing more is
/// stored. A finished one is handed back under its run, with the id and the bytes that are stored, and
/// stored with every output that was placed.
pub proof fn finished_split_is_stored(
    r: Result<PreparedTx, MigrationError>,
    before: StoreView,
    after: StoreView,
    run_id: Seq<char>,
    ask: Seq<u8>,
    built: Result<(Pczt, Vec<(u32, u64)>), MigrationError>,
)
    requires
        is_split_finished(r, before, after, run_id, ask, built),
    ensures
        built matches Err(e) ==> r == Err::<PreparedTx, MigrationError>(e),
        r is Err ==> after == before,
        r matches Ok(tx) ==> built is Ok && {
            &&& tx.id@ == "prep:"@ + run_id
            &&& parsed_contents(tx.raw_pczt@) is Ok
            &&& tx.txid@ == display_of(parsed_contents(tx.raw_pczt@)->Ok_0.txid)
            &&& is_signed_pczt(tx.raw_pczt@, pczt_contents(built->Ok_0.0), ask)
            &&& after == with_split(before, run_id, tx.txid@, tx.raw_pczt@, built->Ok_0.1@)
        },
{
}

/// The next transfer of a schedule is stored last, for the schedule's run and with the heights and the
/// amount of the transfer itself; every row under another id stays, and so do the runs, the notes and
/// the splits.
pub proof fn next_transfer_is_stored_as_proposed(
    signing: ScheduleSigning,
    before: StoreView,
    after: StoreView,
    txid: Seq<char>,
    raw_pczt: Seq<u8>,
)
    requires
        before.wf(),
        signing.signed < signing.transfers@.len(),
        is_next_stored(signing, before, after, txid, raw_pczt),
    ensures
        ({
            let t = signing.transfers@[signing.signed as int];
            let row = after.pending.last();
            &&& after.runs == before.runs
            &&& after.notes == before.notes
            &&& after.prep == before.prep
            &&& after.pending.drop_last() == before.pending.filter(
                |p: PendingView| p.tx.txid_hex != txid,
            )
            &&& row.run_id == signing.run_id@
            &&& row.tx.txid_hex == txid
            &&& row.tx.raw_pczt == raw_pczt
            &&& row.tx.status == "scheduled"@
            &&& row.tx.next_executable_after_height == t.next_executable_after_height
            &&& row.tx.anchor_height == t.anchor_height
            &&& row.tx.expiry_height == t.expiry_height
            &&& row.tx.value_zatoshi == t.amount
        }),
{
    let t = signing.transfers@[signing.signed as int]@;
    stored_transfer_stands_last(
        before.pending,
        signing.run_id@,
        scheduled_row_of(t, txid, raw_pczt),
    );
}

/// Signing the next transfer fails only where building or signing it did, and changes nothing then;
/// otherwise the transfer is stored with the id and the bytes of what was signed, and the notes that it
/// spends are reserved.
pub proof fn signed_transfer_is_stored_as_proposed(
    r: Result<(), MigrationError>,
    signing: ScheduleSigning,
    signed: ScheduleSigning,
    before: StoreView,
    after: StoreView,
    built: Result<(Pczt, Vec<(String, u32)>), MigrationError>,
)
    requires
        before.wf(),
        signing.signed < signing.transfers@.len(),
        is_next_signed(r, signing, signed, before, after, built),
    ensures
        built matches Err(e) ==> r == Err::<(), MigrationError>(e),
        r is Err ==> after == before && signed == signing,
        r is Ok ==> {
            let t = signing.transfers@[signing.signed as int];
            let row = after.pending.last();
            &&& built is Ok
            &&& signed.signed == signing.signed + 1
            &&& signed.reserved@.len() == signing.reserved@.len() + built->Ok_0.1@.len()
            &&& after.runs == before.runs
            &&& after.notes == before.notes
            &&& after.prep == before.prep
            &&& row.run_id == signing.run_id@
            &&& row.tx.status == "scheduled"@
            &&& row.tx.next_executable_after_height == t.next_executable_after_height
            &&& row.tx.anchor_height == t.anchor_height
            &&& row.tx.expiry_height == t.expiry_height
            &&& row.tx.value_zatoshi == t.amount
            &&& parsed_contents(row.tx.raw_pczt) is Ok
            &&& row.tx.txid_hex == display_of(parsed_contents(row.tx.raw_pczt)->Ok_0.txid)
            &&& is_signed_pczt(
                row.tx.raw_pczt,
                pczt_contents(built->Ok_0.0),
                key_authority(signing.usk),
            )
        },
{
    if let (Ok(_), Ok((pczt, spent))) = (r, built) {
        let raw_pczt = choose|raw_pczt: Seq<u8>|
            is_signed_pczt(raw_pczt, pczt_contents(pczt), key_authority(signing.usk))
                && #[trigger] is_next_stored(
                signing,
                before,
                after,
                display_of(read_txid(raw_pczt)),
                raw_pczt,
            );
        next_transfer_is_stored_as_proposed(
            signing,
            before,
            after,
            display_of(read_txid(raw_pczt)),
            raw_pczt,
        );
        let total: usize = signing.transfers.len();
        assert(total == signing.transfers@.len());
        assert(ref_views(signed.reserved@).len() == signed.reserved@.len());
        assert(ref_views(signing.reserved@).len() == signing.reserved@.len());
        assert(lowered_refs(ref_views(spent@)).len() == spent@.len());
    }
}

/// A schedule that is finished marks its run's broadcasts as scheduled, without an error; no other run
/// and no other table changes.
pub proof fn finished_schedule_marks_its_run_alone(
    before: StoreView,
    after: StoreView,
    run_id: Seq<char>,
    now: i64,
    i: int,
)
    requires
        is_schedule_finished(before, after, run_id, now),
        0 <= i < before.runs.len(),
    ensures
        after.notes == before.notes,
        after.prep == before.prep,
        after.pending == before.pending,
        after.runs.len() == before.runs.len(),
        before.runs[i].run_id != run_id ==> after.runs[i] == before.runs[i],
        before.runs[i].run_id == run_id ==> {
            &&& after.runs[i].phase == "broadcast_scheduled"@
            &&& after.runs[i].last_error is None
            &&& after.runs[i].updated_at_ms == now
            &&& after.runs[i].run_id == run_id
            &&& after.runs[i].account_uuid == before.runs[i].account_uuid
            &&& after.runs[i].network == before.runs[i].network
            &&& after.runs[i].created_at_ms == before.runs[i].created_at_ms
        },
{
}

} // verus!
