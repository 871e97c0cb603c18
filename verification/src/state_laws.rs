//! What holds of the state that the app sees, said of the rows of the active run.

use crate::attention::attention_of;
use crate::context::{
    is_prepared, is_split_need, is_split_txid, network_name, progress_of, shows, shows_progress, state_outcome, store_after,
    ContextView, NetworkType,
};
use crate::error::{InvalidStateError, MigrationError};
use crate::execution::{expects_schedule, has_nothing_queued};
use crate::hex::hyphenated;
use crate::row_laws::{
    active_run_is_the_latest_unfinished_one, is_open_run, is_unfinished,
    listed_ids_are_those_of_the_status, next_send_height_is_that_of_a_scheduled_transfer,
    totals_count_the_transfers, transfers_of, transfers_with,
};
use crate::rows::{PendingView, RunView};
use crate::state::{is_terminal_phase, phase_name, phase_named, phase_round_trips, Phase};
use crate::store::{first_send_height, StoreView};
use crate::table::{lookup, position, position_holds, position_is, Row};
use crate::types::{
    AttentionReason, AttentionView, MigrationProgress, MigrationState, StateView,
};
use crate::wallet::PoolBalances;
use vstd::prelude::*;

verus! {

// ----- the active run -----

/// The active run of a context is the latest unfinished run of its account on its network.
pub proof fn active_run_is_the_accounts_own(c: ContextView, s: StoreView)
    ensures
        c.active(s) matches Some(run) ==> {
            &&& run.account_uuid == hyphenated(c.account)
            &&& c.network is Main ==> run.network == "main"@
            &&& c.network is Test ==> run.network == "test"@
            &&& c.network is Regtest ==> run.network == "regtest"@
            &&& is_unfinished(run)
            &&& exists|k: int|
                #![trigger s.runs[k]]
                0 <= k < s.runs.len() && s.runs[k] == run && forall|i: int|
                    0 <= i < s.runs.len() && is_open_run(
                        #[trigger] s.runs[i],
                        run.account_uuid,
                        run.network,
                    ) ==> {
                        ||| s.runs[i].created_at_ms < run.created_at_ms
                        ||| s.runs[i].created_at_ms == run.created_at_ms && i <= k
                    }
        },
        c.active(s) is None <==> forall|i: int|
            0 <= i < s.runs.len() ==> !is_open_run(
                #[trigger] s.runs[i],
                hyphenated(c.account),
                match c.network {
                    NetworkType::Main => "main"@,
                    NetworkType::Test => "test"@,
                    NetworkType::Regtest => "regtest"@,
                },
            ),
{
    active_run_is_the_latest_unfinished_one(
        s.runs,
        hyphenated(c.account),
        network_name(c.network),
    );
}

// ----- phases by name -----

/// A phase during which transfers are broadcast.
pub open spec fn is_broadcasting_name(name: Seq<char>) -> bool {
    name == "broadcast_scheduled"@ || name == "broadcasting"@ || name
        == "waiting_migration_confirmations"@
}

/// A phase during which the note split is underway.
pub open spec fn is_splitting_name(name: Seq<char>) -> bool {
    name == "preparing_denominations"@ || name == "waiting_denom_confirmations"@
}

/// A phase before the note split.
pub open spec fn is_early_name(name: Seq<char>) -> bool {
    name == "no_orchard_funds"@ || name == "waiting_for_spendable_orchard"@ || name
        == "ready_to_prepare"@
}

/// A name that some phase has.
pub open spec fn is_phase_name(name: Seq<char>) -> bool {
    ||| is_early_name(name)
    ||| is_splitting_name(name)
    ||| name == "ready_to_migrate"@
    ||| is_broadcasting_name(name)
    ||| name == "failed_recoverable"@
    ||| name == "failed_terminal"@
    ||| name == "paused"@
    ||| name == "abandoned"@
    ||| name == "complete"@
}

proof fn names_are_read()
    ensures
        phase_named("no_orchard_funds"@) == Some(Phase::NoOrchardFunds),
        phase_named("waiting_for_spendable_orchard"@) == Some(Phase::WaitingForSpendableOrchard),
        phase_named("ready_to_prepare"@) == Some(Phase::ReadyToPrepare),
        phase_named("preparing_denominations"@) == Some(Phase::PreparingDenominations),
        phase_named("waiting_denom_confirmations"@) == Some(Phase::WaitingDenomConfirmations),
        phase_named("ready_to_migrate"@) == Some(Phase::ReadyToMigrate),
        phase_named("broadcast_scheduled"@) == Some(Phase::BroadcastScheduled),
        phase_named("broadcasting"@) == Some(Phase::Broadcasting),
        phase_named("waiting_migration_confirmations"@) == Some(
            Phase::WaitingMigrationConfirmations,
        ),
        phase_named("failed_recoverable"@) == Some(Phase::FailedRecoverable),
        phase_named("failed_terminal"@) == Some(Phase::FailedTerminal),
        phase_named("paused"@) == Some(Phase::Paused),
        phase_named("abandoned"@) == Some(Phase::Abandoned),
        phase_named("complete"@) == Some(Phase::Complete),
{
    phase_round_trips(Phase::NoOrchardFunds);
    phase_round_trips(Phase::WaitingForSpendableOrchard);
    phase_round_trips(Phase::ReadyToPrepare);
    phase_round_trips(Phase::PreparingDenominations);
    phase_round_trips(Phase::WaitingDenomConfirmations);
    phase_round_trips(Phase::ReadyToMigrate);
    phase_round_trips(Phase::BroadcastScheduled);
    phase_round_trips(Phase::Broadcasting);
    phase_round_trips(Phase::WaitingMigrationConfirmations);
    phase_round_trips(Phase::FailedRecoverable);
    phase_round_trips(Phase::FailedTerminal);
    phase_round_trips(Phase::Paused);
    phase_round_trips(Phase::Abandoned);
    phase_round_trips(Phase::Complete);
}

/// A stored phase is known exactly where it is one of the fourteen names, and is read as the phase of
/// that name; the finished phases are the complete, the terminally failed and the abandoned one.
pub proof fn phases_go_by_their_names(name: Seq<char>)
    ensures
        phase_named(name) is Some <==> is_phase_name(name),
        phase_named(name) matches Some(p) ==> {
            &&& p is NoOrchardFunds <==> name == "no_orchard_funds"@
            &&& p is WaitingForSpendableOrchard <==> name == "waiting_for_spendable_orchard"@
            &&& p is ReadyToPrepare <==> name == "ready_to_prepare"@
            &&& p is PreparingDenominations <==> name == "preparing_denominations"@
            &&& p is WaitingDenomConfirmations <==> name == "waiting_denom_confirmations"@
            &&& p is ReadyToMigrate <==> name == "ready_to_migrate"@
            &&& p is BroadcastScheduled <==> name == "broadcast_scheduled"@
            &&& p is Broadcasting <==> name == "broadcasting"@
            &&& p is WaitingMigrationConfirmations <==> name == "waiting_migration_confirmations"@
            &&& p is FailedRecoverable <==> name == "failed_recoverable"@
            &&& p is FailedTerminal <==> name == "failed_terminal"@
            &&& p is Paused <==> name == "paused"@
            &&& p is Abandoned <==> name == "abandoned"@
            &&& p is Complete <==> name == "complete"@
            &&& is_terminal_phase(p) <==> name == "complete"@ || name == "failed_terminal"@ || name
                == "abandoned"@
        },
{
    names_are_read();
    if let Some(p) = phase_named(name) {
        assert(exists|q: Phase| phase_name(q) == name);
        assert(phase_name(p) == name);
    }
}

// ----- progress -----

/// The progress of a run counts its confirmed transfers and all of them; what remains is the spendable
/// Orchard balance, or zero where it could not be read; the next height is the smallest send height of
/// its scheduled transfers, if there are any.
pub proof fn progress_counts_the_runs_transfers(
    s: StoreView,
    run_id: Seq<char>,
    balances: Result<PoolBalances, MigrationError>,
)
    requires
        s.pending.len() <= u32::MAX,
    ensures
        ({
            let p = progress_of(s, run_id, balances);
            &&& p.completed_transfers == transfers_with(s.pending, run_id, "confirmed"@).len()
            &&& p.total_transfers == transfers_of(s.pending, run_id).len()
            &&& balances matches Ok(b) ==> p.remaining_orchard == b.orchard_spendable
            &&& balances is Err ==> p.remaining_orchard == 0
            &&& p.next_transfer_ready_at_height matches Some(h) ==> {
                &&& exists|k: int|
                    0 <= k < s.pending.len() && (#[trigger] s.pending[k]).run_id == run_id
                        && s.pending[k].tx.status == "scheduled"@
                        && s.pending[k].tx.next_executable_after_height == h
                &&& forall|i: int|
                    0 <= i < s.pending.len() && (#[trigger] s.pending[i]).run_id == run_id
                        && s.pending[i].tx.status == "scheduled"@ ==> h
                        <= s.pending[i].tx.next_executable_after_height
            }
            &&& p.next_transfer_ready_at_height is None <==> forall|i: int|
                0 <= i < s.pending.len() && (#[trigger] s.pending[i]).run_id == run_id
                    ==> s.pending[i].tx.status != "scheduled"@
        }),
{
    totals_count_the_transfers(s.pending, run_id);
    next_send_height_is_that_of_a_scheduled_transfer(s.pending, run_id);
}

/// A run has transfers, and all of them are confirmed.
pub open spec fn is_fully_confirmed(rows: Seq<PendingView>, run_id: Seq<char>) -> bool {
    &&& exists|k: int| 0 <= k < rows.len() && (#[trigger] rows[k]).run_id == run_id
    &&& forall|i: int|
        0 <= i < rows.len() && (#[trigger] rows[i]).run_id == run_id ==> rows[i].tx.status
            == "confirmed"@
}

proof fn confirmed_runs_are_counted(rows: Seq<PendingView>, run_id: Seq<char>)
    ensures
        transfers_with(rows, run_id, "confirmed"@).len() <= transfers_of(rows, run_id).len(),
        transfers_of(rows, run_id).len() > 0 <==> exists|k: int|
            0 <= k < rows.len() && (#[trigger] rows[k]).run_id == run_id,
        transfers_with(rows, run_id, "confirmed"@).len() == transfers_of(rows, run_id).len()
            <==> forall|i: int|
            0 <= i < rows.len() && (#[trigger] rows[i]).run_id == run_id ==> rows[i].tx.status
                == "confirmed"@,
    decreases rows.len(),
{
    reveal(Seq::filter);
    if rows.len() > 0 {
        let front = rows.drop_last();
        let last = rows.len() - 1;
        confirmed_runs_are_counted(front, run_id);
        assert(forall|i: int| 0 <= i < front.len() ==> front[i] == rows[i]);
        if exists|k: int| 0 <= k < front.len() && (#[trigger] front[k]).run_id == run_id {
            let k = choose|k: int| 0 <= k < front.len() && (#[trigger] front[k]).run_id == run_id;
            assert(rows[k].run_id == run_id);
        }
        if exists|k: int| 0 <= k < rows.len() && (#[trigger] rows[k]).run_id == run_id {
            let k = choose|k: int| 0 <= k < rows.len() && (#[trigger] rows[k]).run_id == run_id;
            if k < last {
                assert(front[k].run_id == run_id);
            }
        }
        if forall|i: int|
            0 <= i < rows.len() && (#[trigger] rows[i]).run_id == run_id ==> rows[i].tx.status
                == "confirmed"@ {
            assert forall|i: int|
                0 <= i < front.len() && (#[trigger] front[i]).run_id == run_id implies front[i].tx.status
                == "confirmed"@ by {
                assert(rows[i].run_id == run_id);
            }
        }
        if transfers_with(rows, run_id, "confirmed"@).len() == transfers_of(rows, run_id).len() {
            assert forall|i: int|
                0 <= i < rows.len() && (#[trigger] rows[i]).run_id == run_id implies rows[i].tx.status
                == "confirmed"@ by {
                if i < last {
                    assert(front[i].run_id == run_id);
                }
            }
        }
        assert(rows[last] == rows.last());
    }
}

// ----- the state -----

/// Without an active run nothing has started, and nothing changes.
pub proof fn state_without_a_run_is_not_started(
    c: ContextView,
    s: StoreView,
    balances: Result<PoolBalances, MigrationError>,
    split_mined: Result<bool, MigrationError>,
    now: i64,
    state: Result<MigrationState, MigrationError>,
)
    requires
        c.active(s) is None,
        shows(state, state_outcome(c, s, balances, split_mined)),
    ensures
        state is Ok,
        state->Ok_0 is NotStarted,
        store_after(s, state_outcome(c, s, balances, split_mined), now) == s,
{
}

/// An active run that is broadcasting is complete exactly where it has transfers, whatever their number,
/// all of them are confirmed, no spendable Orchard is left and Ironwood holds some. Otherwise it is in
/// progress, with the counts of its transfers. Only where all are confirmed do the balances have to be
/// read. Asking changes nothing.
pub proof fn run_completes_once_all_is_confirmed(
    c: ContextView,
    s: StoreView,
    run: RunView,
    balances: Result<PoolBalances, MigrationError>,
    split_mined: Result<bool, MigrationError>,
    now: i64,
    state: Result<MigrationState, MigrationError>,
)
    requires
        c.active(s) == Some(run),
        is_broadcasting_name(run.phase),
        s.pending.len() <= u32::MAX,
        shows(state, state_outcome(c, s, balances, split_mined)),
    ensures
        is_fully_confirmed(s.pending, run.run_id) && balances is Err ==> state == Err::<
            MigrationState,
            MigrationError,
        >(balances->Err_0),
        !(is_fully_confirmed(s.pending, run.run_id) && balances is Err) ==> state is Ok,
        state is Ok ==> (state->Ok_0 is Complete <==> is_fully_confirmed(s.pending, run.run_id)
            && balances is Ok && balances->Ok_0.orchard_spendable == 0
            && balances->Ok_0.ironwood_total > 0),
        state is Ok && !(state->Ok_0 is Complete) ==> {
            &&& state->Ok_0 is InProgress
            &&& state->Ok_0->InProgress_0.completed_transfers == transfers_with(
                s.pending,
                run.run_id,
                "confirmed"@,
            ).len()
            &&& state->Ok_0->InProgress_0.total_transfers == transfers_of(
                s.pending,
                run.run_id,
            ).len()
            &&& state->Ok_0->InProgress_0.next_transfer_ready_at_height == first_send_height(
                s.pending,
                run.run_id,
            )
            &&& balances is Ok ==> state->Ok_0->InProgress_0.remaining_orchard
                == balances->Ok_0.orchard_spendable
            &&& balances is Err ==> state->Ok_0->InProgress_0.remaining_orchard == 0
        },
        store_after(s, state_outcome(c, s, balances, split_mined), now) == s,
{
    names_are_read();
    totals_count_the_transfers(s.pending, run.run_id);
    confirmed_runs_are_counted(s.pending, run.run_id);
}

/// While the note split of an active run is underway and stored, the run is ready to propose once the
/// split is mined, and is stored as ready to migrate then; until then it waits, and nothing changes;
/// where it could not be read whether the split is mined, that is the error. A split that was never
/// stored waits.
pub proof fn split_is_awaited_until_it_is_mined(
    c: ContextView,
    s: StoreView,
    run: RunView,
    balances: Result<PoolBalances, MigrationError>,
    split_mined: Result<bool, MigrationError>,
    now: i64,
    state: Result<MigrationState, MigrationError>,
    i: int,
)
    requires
        s.wf(),
        c.active(s) == Some(run),
        is_splitting_name(run.phase),
        shows(state, state_outcome(c, s, balances, split_mined)),
        0 <= i < s.runs.len(),
    ensures
        ({
            let stored = exists|k: int|
                0 <= k < s.prep.len() && (#[trigger] s.prep[k]).run_id == run.run_id;
            let after = store_after(s, state_outcome(c, s, balances, split_mined), now);
            let advances = stored && split_mined is Ok && split_mined->Ok_0;
            &&& after.notes == s.notes
            &&& after.prep == s.prep
            &&& after.pending == s.pending
            &&& after.runs.len() == s.runs.len()
            &&& stored && split_mined is Err ==> state == Err::<MigrationState, MigrationError>(
                split_mined->Err_0,
            )
            &&& advances ==> state is Ok && state->Ok_0 is ReadyToPropose
            &&& !stored || (split_mined is Ok && !split_mined->Ok_0) ==> state is Ok
                && state->Ok_0 is SplitPendingConfirmation
            &&& advances && s.runs[i].run_id == run.run_id ==> {
                &&& after.runs[i].phase == "ready_to_migrate"@
                &&& after.runs[i].last_error is None
                &&& after.runs[i].updated_at_ms == now
            }
            &&& !(advances && s.runs[i].run_id == run.run_id) ==> after.runs[i] == s.runs[i]
        }),
{
    names_are_read();
    position_holds(s.prep, run.run_id);
    if exists|k: int| 0 <= k < s.prep.len() && (#[trigger] s.prep[k]).run_id == run.run_id {
        let k = choose|k: int| 0 <= k < s.prep.len() && (#[trigger] s.prep[k]).run_id == run.run_id;
        assert(s.prep[k].key() == run.run_id);
        position_is(s.prep, run.run_id, k);
    } else {
        assert forall|k: int| 0 <= k < s.prep.len() implies (#[trigger] s.prep[k]).key()
            != run.run_id by {
            assert(s.prep[k].run_id != run.run_id);
        }
        if let Some(k) = position(s.prep, run.run_id) {
            assert(s.prep[k].run_id == run.run_id);
        }
    }
}

/// An active run that is ready to migrate is ready to propose; one before its split has not started,
/// unless its funds are gone with all its transfers confirmed, when it is complete; a failed or paused
/// one asks for attention. Asking changes nothing.
pub proof fn quiet_phases_surface_as_they_are(
    c: ContextView,
    s: StoreView,
    run: RunView,
    balances: Result<PoolBalances, MigrationError>,
    split_mined: Result<bool, MigrationError>,
    now: i64,
    state: Result<MigrationState, MigrationError>,
)
    requires
        c.active(s) == Some(run),
        !is_splitting_name(run.phase),
        !is_broadcasting_name(run.phase),
        s.pending.len() <= u32::MAX,
        shows(state, state_outcome(c, s, balances, split_mined)),
    ensures
        run.phase == "ready_to_migrate"@ ==> state is Ok && state->Ok_0 is ReadyToPropose,
        run.phase == "waiting_for_spendable_orchard"@ || run.phase == "ready_to_prepare"@ ==> state
            is Ok && state->Ok_0 is NotStarted,
        run.phase == "no_orchard_funds"@ ==> state is Ok && if is_fully_confirmed(
            s.pending,
            run.run_id,
        ) {
            state->Ok_0 is Complete
        } else {
            state->Ok_0 is NotStarted
        },
        run.phase == "paused"@ ==> state is Ok && state->Ok_0@ == StateView::RequiresAttention(
            AttentionView::TransferExpired,
        ),
        run.phase == "failed_recoverable"@ ==> state is Ok && state->Ok_0@
            == StateView::RequiresAttention(
            match run.last_error {
                Some(message) => attention_of(message),
                None => AttentionView::TransferExpired,
            },
        ),
        !is_phase_name(run.phase) ==> {
            state matches Err(MigrationError::InvalidState(InvalidStateError::UnknownPhase(name)))
                && name@ == run.phase
        },
        store_after(s, state_outcome(c, s, balances, split_mined), now) == s,
{
    names_are_read();
    totals_count_the_transfers(s.pending, run.run_id);
    confirmed_runs_are_counted(s.pending, run.run_id);
    phases_go_by_their_names(run.phase);
    active_run_is_the_accounts_own(c, s);
}

/// The progress that is shown is that of a state in progress, there is none for any other state, and
/// an error is the error of the state.
pub proof fn progress_is_shown_while_in_progress(
    c: ContextView,
    s: StoreView,
    run: RunView,
    balances: Result<PoolBalances, MigrationError>,
    split_mined: Result<bool, MigrationError>,
    progress: Result<Option<MigrationProgress>, MigrationError>,
)
    requires
        c.active(s) == Some(run),
        s.pending.len() <= u32::MAX,
        shows_progress(progress, state_outcome(c, s, balances, split_mined)),
    ensures
        is_phase_name(run.phase) && !is_broadcasting_name(run.phase) && split_mined is Ok
            ==> progress == Ok::<Option<MigrationProgress>, MigrationError>(None),
        is_broadcasting_name(run.phase) && !is_fully_confirmed(s.pending, run.run_id) ==> {
            &&& progress is Ok
            &&& progress->Ok_0 is Some
            &&& progress->Ok_0->Some_0.total_transfers == transfers_of(s.pending, run.run_id).len()
            &&& progress->Ok_0->Some_0.completed_transfers == transfers_with(
                s.pending,
                run.run_id,
                "confirmed"@,
            ).len()
        },
        is_broadcasting_name(run.phase) && is_fully_confirmed(s.pending, run.run_id) ==> match balances {
            Err(e) => progress == Err::<Option<MigrationProgress>, MigrationError>(e),
            Ok(b) => if b.orchard_spendable == 0 && b.ironwood_total > 0 {
                progress == Ok::<Option<MigrationProgress>, MigrationError>(None)
            } else {
                progress is Ok && progress->Ok_0 is Some
            },
        },
{
    names_are_read();
    totals_count_the_transfers(s.pending, run.run_id);
    confirmed_runs_are_counted(s.pending, run.run_id);
    phases_go_by_their_names(run.phase);
}

// ----- views -----

/// The view of a state is that of the same kind, with the same progress or reason.
pub proof fn state_view_is_of_the_same_kind(state: MigrationState)
    ensures
        state is NotStarted <==> state@ is NotStarted,
        state is SplitPendingConfirmation <==> state@ is SplitPendingConfirmation,
        state is ReadyToPropose <==> state@ is ReadyToPropose,
        state is InProgress <==> state@ is InProgress,
        state is RequiresAttention <==> state@ is RequiresAttention,
        state is Complete <==> state@ is Complete,
        state matches MigrationState::InProgress(p) ==> state@ == StateView::InProgress(p),
        state matches MigrationState::RequiresAttention(reason) ==> state@
            == StateView::RequiresAttention(reason@),
{
}

/// The view of a reason is that of the same kind, with the same transfer.
pub proof fn reason_view_is_of_the_same_kind(reason: AttentionReason)
    ensures
        reason is TransferExpired <==> reason@ is TransferExpired,
        reason is SyncRequiredBeforeNext <==> reason@ is SyncRequiredBeforeNext,
        reason matches AttentionReason::InvalidTransfer { transfer_id } ==> reason@ == (
        AttentionView::InvalidTransfer { transfer_id: transfer_id@ }),
{
}

// ----- what the phase of a run means for the other operations -----

/// A run has been prepared from the confirmation of its split on: it is ready to migrate, broadcasting,
/// failed or paused.
pub proof fn prepared_runs_are_past_their_split(c: ContextView, s: StoreView, run: RunView)
    requires
        c.active(s) == Some(run),
    ensures
        is_prepared(c, s) <==> {
            ||| run.phase == "ready_to_migrate"@
            ||| is_broadcasting_name(run.phase)
            ||| run.phase == "failed_recoverable"@
            ||| run.phase == "paused"@
        },
{
    names_are_read();
    phases_go_by_their_names(run.phase);
    active_run_is_the_accounts_own(c, s);
}

/// Without an active run nothing has been prepared.
pub proof fn nothing_is_prepared_without_a_run(c: ContextView, s: StoreView)
    requires
        c.active(s) is None,
    ensures
        !is_prepared(c, s),
{
}

/// A schedule is expected of a run in every phase but those before its split, of its split, and when it
/// is ready to migrate.
pub proof fn schedules_are_expected_from_broadcasting_on(run: RunView)
    ensures
        expects_schedule(run) <==> !(is_early_name(run.phase) || is_splitting_name(run.phase)
            || run.phase == "ready_to_migrate"@),
{
    names_are_read();
    phases_go_by_their_names(run.phase);
}

/// Nothing of a run is queued exactly where none of its transfers is scheduled or broadcast.
pub proof fn nothing_is_queued_without_open_transfers(s: StoreView, run_id: Seq<char>)
    ensures
        has_nothing_queued(s, run_id) <==> forall|i: int|
            0 <= i < s.pending.len() && (#[trigger] s.pending[i]).run_id == run_id
                ==> s.pending[i].tx.status != "scheduled"@ && s.pending[i].tx.status
                != "broadcasted"@,
{
    listed_ids_are_those_of_the_status(s.pending, run_id, "scheduled"@);
    listed_ids_are_those_of_the_status(s.pending, run_id, "broadcasted"@);
    no_transfer_has_the_status(s.pending, run_id, "scheduled"@);
    no_transfer_has_the_status(s.pending, run_id, "broadcasted"@);
}

proof fn no_transfer_has_the_status(rows: Seq<PendingView>, run_id: Seq<char>, status: Seq<char>)
    ensures
        transfers_with(rows, run_id, status).len() == 0 <==> forall|i: int|
            0 <= i < rows.len() && (#[trigger] rows[i]).run_id == run_id ==> rows[i].tx.status
                != status,
    decreases rows.len(),
{
    reveal(Seq::filter);
    if rows.len() > 0 {
        let front = rows.drop_last();
        let last = rows.len() - 1;
        no_transfer_has_the_status(front, run_id, status);
        assert(forall|i: int| 0 <= i < front.len() ==> front[i] == rows[i]);
        assert(rows[last] == rows.last());
        if transfers_with(rows, run_id, status).len() == 0 {
            assert forall|i: int|
                0 <= i < rows.len() && (#[trigger] rows[i]).run_id == run_id implies rows[i].tx.status
                != status by {
                if i < last {
                    assert(front[i].run_id == run_id);
                }
            }
        }
        if forall|i: int|
            0 <= i < rows.len() && (#[trigger] rows[i]).run_id == run_id ==> rows[i].tx.status
                != status {
            assert forall|i: int|
                0 <= i < front.len() && (#[trigger] front[i]).run_id == run_id implies front[i].tx.status
                != status by {
                assert(rows[i].run_id == run_id);
            }
        }
    }
}

/// The transaction whose confirmation is asked for is that of the active run's stored split, while the
/// split is underway; there is none otherwise.
pub proof fn split_transaction_is_that_of_the_active_run(
    txid: Option<String>,
    c: ContextView,
    s: StoreView,
)
    requires
        s.wf(),
        is_split_txid(txid, c, s),
    ensures
        c.active(s) is None ==> txid is None,
        c.active(s) matches Some(run) ==> {
            &&& !is_splitting_name(run.phase) ==> txid is None
            &&& is_splitting_name(run.phase) ==> {
                &&& txid is Some <==> exists|k: int|
                    0 <= k < s.prep.len() && (#[trigger] s.prep[k]).run_id == run.run_id
                &&& forall|k: int|
                    0 <= k < s.prep.len() && (#[trigger] s.prep[k]).run_id == run.run_id ==> txid
                        is Some && txid->Some_0@ == s.prep[k].txid_hex
            }
        },
{
    names_are_read();
    if let Some(run) = c.active(s) {
        phases_go_by_their_names(run.phase);
        position_holds(s.prep, run.run_id);
        if let Some(k) = position(s.prep, run.run_id) {
            assert(s.prep[k].run_id == run.run_id);
        }
        assert forall|k: int|
            0 <= k < s.prep.len() && (#[trigger] s.prep[k]).run_id == run.run_id implies lookup(
            s.prep,
            run.run_id,
        ) == Some(s.prep[k]) by {
            assert(s.prep[k].key() == run.run_id);
            position_is(s.prep, run.run_id, k);
        }
    }
}

/// A note split is needed exactly where there is a spendable Orchard balance and no split of the active
/// run is confirmed; once one is, the balances are not looked at.
pub proof fn split_is_needed_until_one_is_confirmed(
    r: Result<bool, MigrationError>,
    c: ContextView,
    s: StoreView,
    balances: Result<PoolBalances, MigrationError>,
)
    requires
        is_split_need(r, c, s, balances),
    ensures
        ({
            let confirmed = c.active(s) is Some && {
                let phase = c.active(s)->Some_0.phase;
                ||| phase == "ready_to_migrate"@
                ||| is_broadcasting_name(phase)
                ||| phase == "failed_recoverable"@
                ||| phase == "paused"@
            };
            &&& confirmed ==> r is Ok && !r->Ok_0
            &&& !confirmed && balances is Err ==> r == Err::<bool, MigrationError>(balances->Err_0)
            &&& !confirmed && balances is Ok ==> r is Ok && (r->Ok_0
                <==> balances->Ok_0.orchard_spendable > 0)
        }),
{
    if let Some(run) = c.active(s) {
        prepared_runs_are_past_their_split(c, s, run);
    }
}

} // verus!
