//! What holds of the note split over any sequence of the context's operations: a signed split is
//! handed out until its broadcast is recorded, and never after.

use crate::attention::{expired_message, invalid_note_message};
use crate::context::{network_name, state_outcome, store_after, ContextView};
use crate::error::MigrationError;
use crate::execution::{
    after_result, is_next_due, optional_prepared, pending_split, with_step_cleared,
};
use crate::hex::{display_of, hex_digit, hex_digit_is_read_back, hex_value, hyphenated};
use crate::rows::{PendingTxView, PendingView, PrepView};
use crate::signing::{prep_id, scheduled_row_of, started_run, with_signing_run, with_split};
use crate::state::{phase_name, Phase};
use crate::store::{
    first_due, pending_with, preps_with_status, runs_with_phase,
    terminal_names_are_of_terminal_phases, without_scheduled, without_scheduled_keeps_the_rest,
    StoreView,
};
use crate::store_laws::{active_run_stays_active, next_due_transfer_is_the_earliest};
use crate::table::{
    keys_are_unique, lookup, position, position_holds, pushed_row_is_found,
    rewritten_rows_are_found, upserted, upserted_row_is_found, Row,
};
use crate::text::starts_with;
use crate::types::{PreparedTx, PreparedTxView, TransferResult, TransferView};
use crate::wallet::PoolBalances;
use vstd::prelude::*;

verus! {

/// What an operation of a context does to the tables.
pub enum Step {
    /// The state was asked for.
    StateAsked {
        balances: Result<PoolBalances, MigrationError>,
        split_mined: Result<bool, MigrationError>,
        now: i64,
    },
    /// A broadcast result was reported.
    ResultRecorded { transfer_id: Seq<char>, result: TransferResult, now: i64 },
    /// Signing a note split was begun.
    SplitBegun { run_id: Seq<char>, outputs: Seq<u64>, now: i64 },
    /// A signed note split was stored.
    SplitStored {
        run_id: Seq<char>,
        txid: Seq<u8>,
        raw_pczt: Seq<u8>,
        placed: Seq<(u32, u64)>,
    },
    /// Signing a schedule was begun.
    ScheduleBegun { fresh: Seq<char>, now: i64 },
    /// A signed transfer was stored.
    TransferStored {
        run_id: Seq<char>,
        transfer: TransferView,
        txid: Seq<u8>,
        raw_pczt: Seq<u8>,
    },
    /// Every transfer of a schedule was stored.
    ScheduleFinished { run_id: Seq<char>, now: i64 },
    /// The scheduled transfers were cleared.
    StepCleared,
}

/// The tables after a step.
pub open spec fn after_step(c: ContextView, s: StoreView, step: Step) -> StoreView {
    match step {
        Step::StateAsked { balances, split_mined, now } => store_after(
            s,
            state_outcome(c, s, balances, split_mined),
            now,
        ),
        Step::ResultRecorded { transfer_id, result, now } => match c.active(s) {
            None => s,
            Some(run) => after_result(s, run, transfer_id, result, now),
        },
        Step::SplitBegun { run_id, outputs, now } => if position(s.runs, run_id) is Some {
            s
        } else {
            StoreView {
                runs: s.runs.push(
                    started_run(c, run_id, Phase::PreparingDenominations, outputs, now),
                ),
                ..s
            }
        },
        Step::SplitStored { run_id, txid, raw_pczt, placed } => with_split(
            s,
            run_id,
            display_of(txid),
            raw_pczt,
            placed,
        ),
        Step::ScheduleBegun { fresh, now } => if c.active(s) is None && position(s.runs, fresh) is Some {
            s
        } else {
            with_signing_run(c, s, fresh, now)
        },
        Step::TransferStored { run_id, transfer, txid, raw_pczt } => StoreView {
            pending: pending_with(
                s.pending,
                run_id,
                seq![scheduled_row_of(transfer, display_of(txid), raw_pczt)],
            ),
            ..s
        },
        Step::ScheduleFinished { run_id, now } => StoreView {
            runs: runs_with_phase(s.runs, run_id, phase_name(Phase::BroadcastScheduled), None, now),
            ..s
        },
        Step::StepCleared => with_step_cleared(c, s),
    }
}

/// The tables after some steps.
pub open spec fn after_steps(c: ContextView, s: StoreView, steps: Seq<Step>) -> StoreView
    decreases steps.len(),
{
    if steps.len() == 0 {
        s
    } else {
        after_step(c, after_steps(c, s, steps.drop_last()), steps.last())
    }
}

/// A step that leaves a run the active one with its split still to be broadcast: no other split is
/// begun, no broadcast of a split is recorded, and schedules are those of the run.
pub open spec fn leaves_the_split(step: Step, run_id: Seq<char>) -> bool {
    match step {
        Step::SplitBegun { .. } => false,
        Step::SplitStored { run_id: other, .. } => other != run_id,
        Step::ScheduleFinished { run_id: other, .. } => other == run_id,
        Step::ResultRecorded { transfer_id, result, .. } => !(starts_with(transfer_id, "prep:"@)
            && result is Success),
        _ => true,
    }
}

/// A step that stores no split under a run's id.
pub open spec fn stores_no_split_of(step: Step, run_id: Seq<char>) -> bool {
    match step {
        Step::SplitStored { run_id: other, .. } => other != run_id,
        _ => true,
    }
}

/// The tables once a note split was signed and stored where there was no active run.
pub open spec fn split_signed(
    c: ContextView,
    s: StoreView,
    run_id: Seq<char>,
    outputs: Seq<u64>,
    now: i64,
    txid: Seq<u8>,
    raw_pczt: Seq<u8>,
    placed: Seq<(u32, u64)>,
) -> StoreView {
    with_split(
        after_step(c, s, Step::SplitBegun { run_id, outputs, now }),
        run_id,
        display_of(txid),
        raw_pczt,
        placed,
    )
}

// ----- until it is recorded -----

/// A run is the active one and its split, still to be broadcast, is the given one.
spec fn awaits_broadcast(c: ContextView, s: StoreView, run_id: Seq<char>, prep: PrepView) -> bool {
    &&& keys_are_unique(s.runs)
    &&& keys_are_unique(s.prep)
    &&& c.active(s) matches Some(run) && run.run_id == run_id
    &&& lookup(s.prep, run_id) == Some(prep)
    &&& prep.run_id == run_id
    &&& prep.status == "pending"@
}

proof fn phase_keeps_the_split(
    c: ContextView,
    s: StoreView,
    run_id: Seq<char>,
    prep: PrepView,
    phase: Phase,
    last_error: Option<Seq<char>>,
    now: i64,
)
    requires
        awaits_broadcast(c, s, run_id, prep),
        !(phase is Complete || phase is FailedTerminal || phase is Abandoned),
    ensures
        awaits_broadcast(
            c,
            StoreView {
                runs: runs_with_phase(s.runs, run_id, phase_name(phase), last_error, now),
                ..s
            },
            run_id,
            prep,
        ),
{
    let run = c.active(s)->Some_0;
    active_run_stays_active(
        s.runs,
        run,
        phase,
        last_error,
        now,
        hyphenated(c.account),
        network_name(c.network),
    );
    rewritten_rows_are_found(
        s.runs,
        runs_with_phase(s.runs, run_id, phase_name(phase), last_error, now),
        run_id,
    );
}

proof fn step_keeps_the_split(
    c: ContextView,
    s: StoreView,
    step: Step,
    run_id: Seq<char>,
    prep: PrepView,
)
    requires
        awaits_broadcast(c, s, run_id, prep),
        leaves_the_split(step, run_id),
    ensures
        awaits_broadcast(c, after_step(c, s, step), run_id, prep),
{
    match step {
        Step::StateAsked { now, .. } => {
            phase_keeps_the_split(c, s, run_id, prep, Phase::ReadyToMigrate, None, now);
        },
        Step::ResultRecorded { transfer_id, result, now } => {
            let run = c.active(s)->Some_0;
            let after = after_result(s, run, transfer_id, result, now);
            if after.runs != s.runs {
                let message = if result is InvalidNote {
                    Some(invalid_note_message(transfer_id))
                } else {
                    Some(expired_message(transfer_id))
                };
                phase_keeps_the_split(c, s, run_id, prep, Phase::FailedRecoverable, message, now);
            }
        },
        Step::SplitStored { run_id: other, txid, raw_pczt, .. } => {
            upserted_row_is_found(
                s.prep,
                PrepView {
                    run_id: other,
                    txid_hex: display_of(txid),
                    raw_pczt,
                    status: "pending"@,
                },
                run_id,
            );
        },
        Step::ScheduleFinished { now, .. } => {
            phase_keeps_the_split(c, s, run_id, prep, Phase::BroadcastScheduled, None, now);
        },
        _ => {},
    }
}

proof fn steps_keep_the_split(
    c: ContextView,
    s: StoreView,
    steps: Seq<Step>,
    run_id: Seq<char>,
    prep: PrepView,
)
    requires
        awaits_broadcast(c, s, run_id, prep),
        forall|i: int| 0 <= i < steps.len() ==> leaves_the_split(#[trigger] steps[i], run_id),
    ensures
        awaits_broadcast(c, after_steps(c, s, steps), run_id, prep),
    decreases steps.len(),
{
    if steps.len() > 0 {
        let front = steps.drop_last();
        assert(forall|i: int| 0 <= i < front.len() ==> front[i] == steps[i]);
        steps_keep_the_split(c, s, front, run_id, prep);
        assert(leaves_the_split(steps[steps.len() - 1], run_id));
        step_keeps_the_split(c, after_steps(c, s, front), steps.last(), run_id, prep);
    }
}

proof fn signed_split_awaits_broadcast(
    c: ContextView,
    s: StoreView,
    run_id: Seq<char>,
    outputs: Seq<u64>,
    now: i64,
    txid: Seq<u8>,
    raw_pczt: Seq<u8>,
    placed: Seq<(u32, u64)>,
)
    requires
        s.wf(),
        c.active(s) is None,
        position(s.runs, run_id) is None,
    ensures
        awaits_broadcast(
            c,
            split_signed(c, s, run_id, outputs, now, txid, raw_pczt, placed),
            run_id,
            PrepView { run_id, txid_hex: display_of(txid), raw_pczt, status: "pending"@ },
        ),
{
    let row = started_run(c, run_id, Phase::PreparingDenominations, outputs, now);
    pushed_row_is_found(s.runs, row, run_id);
    terminal_names_are_of_terminal_phases(Phase::PreparingDenominations);
    assert(s.runs.push(row).drop_last() =~= s.runs);
    upserted_row_is_found(
        s.prep,
        PrepView { run_id, txid_hex: display_of(txid), raw_pczt, status: "pending"@ },
        run_id,
    );
}

// ----- once it is recorded -----

/// A run's split is not to be broadcast any more, and no transfer goes by its id.
spec fn is_past_broadcast(s: StoreView, run_id: Seq<char>) -> bool {
    &&& keys_are_unique(s.prep)
    &&& lookup(s.prep, run_id) matches Some(prep) ==> prep.status != "pending"@
    &&& has_no_transfer(s.pending, prep_id(run_id))
}

/// No transfer goes by an id.
pub open spec fn has_no_transfer(rows: Seq<PendingView>, id: Seq<char>) -> bool {
    forall|i: int| 0 <= i < rows.len() ==> (#[trigger] rows[i]).tx.txid_hex != id
}

proof fn display_is_no_split_id(txid: Seq<u8>, run_id: Seq<char>)
    ensures
        display_of(txid) != prep_id(run_id),
{
    reveal_strlit("prep:");
    assert("prep:"@.len() == 5);
    assert(prep_id(run_id)[0] == 'p');
    if txid.len() > 0 {
        let b = txid.reverse()[0] as int;
        hex_digit_is_read_back(b / 16);
        assert(display_of(txid)[0] == hex_digit(b / 16));
        assert(hex_value('p') is None);
        assert(display_of(txid)[0] != prep_id(run_id)[0]);
    } else {
        assert(display_of(txid).len() == 0);
        assert(prep_id(run_id).len() >= 5);
    }
}

proof fn broadcast_status_is_not_pending(rows: Seq<PrepView>, other: Seq<char>, run_id: Seq<char>)
    requires
        keys_are_unique(rows),
    ensures
        ({
            let after = preps_with_status(rows, other, "broadcasted"@);
            &&& keys_are_unique(after)
            &&& (lookup(rows, run_id) matches Some(prep) ==> prep.status != "pending"@) || other
                == run_id ==> (lookup(after, run_id) matches Some(prep) ==> prep.status
                != "pending"@)
        }),
{
    reveal_strlit("pending");
    reveal_strlit("broadcasted");
    assert("pending"@.len() == 7 && "broadcasted"@.len() == 11);
    rewritten_rows_are_found(rows, preps_with_status(rows, other, "broadcasted"@), run_id);
    position_holds(rows, run_id);
}

proof fn step_stays_past_broadcast(c: ContextView, s: StoreView, step: Step, run_id: Seq<char>)
    requires
        is_past_broadcast(s, run_id),
        stores_no_split_of(step, run_id),
    ensures
        is_past_broadcast(after_step(c, s, step), run_id),
{
    let after = after_step(c, s, step);
    match step {
        Step::ResultRecorded { transfer_id, result, .. } => {
            if c.active(s) is Some {
                broadcast_status_is_not_pending(s.prep, transfer_id.skip(5), run_id);
                assert forall|i: int| 0 <= i < after.pending.len() implies (
                #[trigger] after.pending[i]).tx.txid_hex != prep_id(run_id) by {
                    assert(s.pending[i].tx.txid_hex != prep_id(run_id));
                }
            }
        },
        Step::SplitStored { run_id: other, txid, raw_pczt, .. } => {
            upserted_row_is_found(
                s.prep,
                PrepView {
                    run_id: other,
                    txid_hex: display_of(txid),
                    raw_pczt,
                    status: "pending"@,
                },
                run_id,
            );
        },
        Step::TransferStored { run_id: other, transfer, txid, raw_pczt } => {
            let tx = scheduled_row_of(transfer, display_of(txid), raw_pczt);
            let row = PendingView { run_id: other, tx };
            display_is_no_split_id(txid, run_id);
            assert(seq![tx].drop_last() =~= Seq::<PendingTxView>::empty());
            assert(pending_with(s.pending, other, seq![tx].drop_last()) == s.pending);
            assert(after.pending == upserted(s.pending, row));
            position_holds(s.pending, row.key());
            assert forall|i: int| 0 <= i < after.pending.len() implies (
            #[trigger] after.pending[i]).tx.txid_hex != prep_id(run_id) by {
                if after.pending[i] != row {
                    match position(s.pending, row.key()) {
                        Some(at) => {
                            assert(after.pending[i] == s.pending.remove(at)[i]);
                            if i < at {
                                assert(s.pending[i].tx.txid_hex != prep_id(run_id));
                            } else {
                                assert(s.pending[i + 1].tx.txid_hex != prep_id(run_id));
                            }
                        },
                        None => {
                            assert(s.pending[i].tx.txid_hex != prep_id(run_id));
                        },
                    }
                }
            }
        },
        Step::StepCleared => {
            if let Some(run) = c.active(s) {
                without_scheduled_keeps_the_rest(s.pending, run.run_id);
                assert forall|i: int| 0 <= i < after.pending.len() implies (
                #[trigger] after.pending[i]).tx.txid_hex != prep_id(run_id) by {
                    let row = after.pending[i];
                    assert(without_scheduled(s.pending, run.run_id).contains(row));
                    let k = choose|k: int| 0 <= k < s.pending.len() && s.pending[k] == row;
                    assert(s.pending[k].tx.txid_hex != prep_id(run_id));
                }
            }
        },
        _ => {},
    }
}

proof fn steps_stay_past_broadcast(
    c: ContextView,
    s: StoreView,
    steps: Seq<Step>,
    run_id: Seq<char>,
)
    requires
        is_past_broadcast(s, run_id),
        forall|i: int| 0 <= i < steps.len() ==> stores_no_split_of(#[trigger] steps[i], run_id),
    ensures
        is_past_broadcast(after_steps(c, s, steps), run_id),
    decreases steps.len(),
{
    if steps.len() > 0 {
        let front = steps.drop_last();
        assert(forall|i: int| 0 <= i < front.len() ==> front[i] == steps[i]);
        steps_stay_past_broadcast(c, s, front, run_id);
        assert(stores_no_split_of(steps[steps.len() - 1], run_id));
        step_stays_past_broadcast(c, after_steps(c, s, front), steps.last(), run_id);
    }
}

// ----- the laws -----

/// A note split that was signed where there was no active run is handed out, as it was signed,
/// whatever else is done, until its broadcast is recorded or another split is begun.
pub proof fn signed_split_is_handed_out_until_recorded(
    c: ContextView,
    s: StoreView,
    run_id: Seq<char>,
    outputs: Seq<u64>,
    now: i64,
    txid: Seq<u8>,
    raw_pczt: Seq<u8>,
    placed: Seq<(u32, u64)>,
    steps: Seq<Step>,
    heights: Result<(u32, u32), MigrationError>,
    r: Result<Option<PreparedTx>, MigrationError>,
)
    requires
        s.wf(),
        c.active(s) is None,
        position(s.runs, run_id) is None,
        forall|i: int| 0 <= i < steps.len() ==> leaves_the_split(#[trigger] steps[i], run_id),
        is_next_due(
            r,
            c,
            after_steps(
                c,
                split_signed(c, s, run_id, outputs, now, txid, raw_pczt, placed),
                steps,
            ),
            heights,
        ),
    ensures
        r is Ok,
        optional_prepared(r->Ok_0) == Some(
            PreparedTxView { id: prep_id(run_id), txid: display_of(txid), raw_pczt },
        ),
{
    let signed = split_signed(c, s, run_id, outputs, now, txid, raw_pczt, placed);
    let prep = PrepView { run_id, txid_hex: display_of(txid), raw_pczt, status: "pending"@ };
    signed_split_awaits_broadcast(c, s, run_id, outputs, now, txid, raw_pczt, placed);
    steps_keep_the_split(c, signed, steps, run_id, prep);
}

/// Once the broadcast of a note split is recorded, nothing is handed out under its id any more,
/// whatever is done: run ids are used once, so that no other split is stored under the run's id, and
/// no transfer went by the split's id.
pub proof fn recorded_split_is_never_handed_out(
    c: ContextView,
    s: StoreView,
    run_id: Seq<char>,
    txid: String,
    now: i64,
    steps: Seq<Step>,
    heights: Result<(u32, u32), MigrationError>,
    r: Result<Option<PreparedTx>, MigrationError>,
)
    requires
        s.wf(),
        c.active(s) is Some,
        has_no_transfer(s.pending, prep_id(run_id)),
        forall|i: int| 0 <= i < steps.len() ==> stores_no_split_of(#[trigger] steps[i], run_id),
        is_next_due(
            r,
            c,
            after_steps(
                c,
                after_step(
                    c,
                    s,
                    Step::ResultRecorded {
                        transfer_id: prep_id(run_id),
                        result: TransferResult::Success { txid },
                        now,
                    },
                ),
                steps,
            ),
            heights,
        ),
    ensures
        r is Ok ==> (optional_prepared(r->Ok_0) matches Some(tx) ==> tx.id != prep_id(run_id)),
{
    let id = prep_id(run_id);
    reveal_strlit("prep:");
    assert("prep:"@.len() == 5);
    assert(id.take(5) =~= "prep:"@);
    assert(id.skip(5) =~= run_id);
    let recorded = after_step(
        c,
        s,
        Step::ResultRecorded {
            transfer_id: id,
            result: TransferResult::Success { txid },
            now,
        },
    );
    broadcast_status_is_not_pending(s.prep, run_id, run_id);
    steps_stay_past_broadcast(c, recorded, steps, run_id);
    let after = after_steps(c, recorded, steps);
    if let Some(run) = c.active(after) {
        if pending_split(after, run) is Some {
            if prep_id(run.run_id) == id {
                assert(prep_id(run.run_id).skip(5) =~= run.run_id);
            }
        } else if let Ok((target, _)) = heights {
            next_due_transfer_is_the_earliest(after.pending, run.run_id, target);
            if let Some(row) = first_due(after.pending, run.run_id, target) {
                let k = choose|k: int| 0 <= k < after.pending.len() && after.pending[k] == row;
                assert(after.pending[k].tx.txid_hex != id);
            }
        }
    }
}

} // verus!
