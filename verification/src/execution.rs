//! Background execution, reconciliation and recovery: which transaction is due, what a broadcast
//! result changes, and how a step is started afresh.

use crate::attention::{expired_message, expired_text, invalid_note_message, invalid_note_text};
use crate::context::{is_money, is_private_schedule, ContextView, MigrationContext};
use crate::error::{InvalidStateError, MigrationError};
use crate::hex::{is_random_id, new_run_id};
use crate::pipeline::{extract_broadcast_tx, is_extraction};
use crate::rows::RunView;
use crate::signing::{is_schedule_begun, prep_id, ScheduleSigning};
use crate::state::{phase_name, phase_named, Phase};
use crate::store::{
    self, count_with_status, first_due, is_due, pending_with_status, preps_with_status, runs_with_phase,
    without_scheduled, Store, StoreView,
};
use crate::store_laws::next_due_transfer_is_the_earliest;
use crate::table::lookup;
use crate::text::{join, same_text, starts_with, strip_prefix};
use crate::types::{MigrationSchedule, PreparedTx, PreparedTxView, TransferResult};
use crate::wallet::PoolBalances;
use vstd::prelude::*;
use vstd::string::*;

verus! {

// ----- what is due -----

/// The view of an optional prepared transaction.
pub open spec fn optional_prepared(tx: Option<PreparedTx>) -> Option<PreparedTxView> {
    match tx {
        Some(t) => Some(t@),
        None => None,
    }
}

/// The note split of a run, where it is still to be broadcast.
pub open spec fn pending_split(s: StoreView, run: RunView) -> Option<PreparedTxView> {
    match lookup(s.prep, run.run_id) {
        Some(prep) if prep.status == "pending"@ => Some(
            PreparedTxView {
                id: prep_id(run.run_id),
                txid: prep.txid_hex,
                raw_pczt: prep.raw_pczt,
            },
        ),
        _ => None,
    }
}

/// The transfer of a run that is due at a height.
pub open spec fn due_transfer(s: StoreView, run: RunView, target: u32) -> Option<PreparedTxView> {
    match first_due(s.pending, run.run_id, target) {
        Some(row) => Some(
            PreparedTxView {
                id: row.tx.txid_hex,
                txid: row.tx.txid_hex,
                raw_pczt: row.tx.raw_pczt,
            },
        ),
        None => None,
    }
}

/// What asking for the next transaction gives: the note split first, then the transfer that is due.
pub open spec fn is_next_due(
    r: Result<Option<PreparedTx>, MigrationError>,
    c: ContextView,
    s: StoreView,
    heights: Result<(u32, u32), MigrationError>,
) -> bool {
    match c.active(s) {
        None => r == Ok::<Option<PreparedTx>, MigrationError>(None),
        Some(run) => if pending_split(s, run) is Some {
            r is Ok && optional_prepared(r->Ok_0) == pending_split(s, run)
        } else {
            match heights {
                Err(e) => r == Err::<Option<PreparedTx>, MigrationError>(e),
                Ok((target, _)) => r is Ok && optional_prepared(r->Ok_0) == due_transfer(
                    s,
                    run,
                    target,
                ),
            }
        },
    }
}

// ----- broadcast results -----

/// The tables after a broadcast result was recorded for a transaction of the active run.
pub open spec fn after_result(
    s: StoreView,
    run: RunView,
    transfer_id: Seq<char>,
    result: TransferResult,
    now: i64,
) -> StoreView {
    if starts_with(transfer_id, "prep:"@) {
        let run_id = transfer_id.skip(5);
        match result {
            TransferResult::Success { .. } => StoreView {
                prep: preps_with_status(s.prep, run_id, "broadcasted"@),
                runs: runs_with_phase(
                    s.runs,
                    run_id,
                    phase_name(Phase::WaitingDenomConfirmations),
                    None,
                    now,
                ),
                ..s
            },
            _ => s,
        }
    } else {
        match result {
            TransferResult::Success { .. } => StoreView {
                pending: pending_with_status(s.pending, transfer_id, "broadcasted"@),
                ..s
            },
            TransferResult::NetworkError { .. } => s,
            TransferResult::InvalidNote => StoreView {
                runs: runs_with_phase(
                    s.runs,
                    run.run_id,
                    phase_name(Phase::FailedRecoverable),
                    Some(invalid_note_message(transfer_id)),
                    now,
                ),
                ..s
            },
            TransferResult::Expired => StoreView {
                runs: runs_with_phase(
                    s.runs,
                    run.run_id,
                    phase_name(Phase::FailedRecoverable),
                    Some(expired_message(transfer_id)),
                    now,
                ),
                ..s
            },
        }
    }
}

/// What recording a broadcast result gives, and leaves in the tables: it needs an active run.
pub open spec fn is_recorded(
    r: Result<(), MigrationError>,
    c: ContextView,
    before: StoreView,
    after: StoreView,
    transfer_id: Seq<char>,
    result: TransferResult,
    now: i64,
) -> bool {
    match c.active(before) {
        None => {
            &&& r == Err::<(), MigrationError>(
                MigrationError::InvalidState(InvalidStateError::NoActiveRun),
            )
            &&& after == before
        },
        Some(run) => {
            &&& r == Ok::<(), MigrationError>(())
            &&& after == after_result(before, run, transfer_id, result, now)
        },
    }
}

// ----- reconciliation -----

/// Whether a transfer of the active run is overdue at the target height.
pub open spec fn is_overdue_answer(
    r: Result<bool, MigrationError>,
    c: ContextView,
    s: StoreView,
    heights: Result<(u32, u32), MigrationError>,
) -> bool {
    match c.active(s) {
        None => r == Ok::<bool, MigrationError>(false),
        Some(run) => match heights {
            Err(e) => r == Err::<bool, MigrationError>(e),
            Ok((target, _)) => r == Ok::<bool, MigrationError>(
                exists|i: int|
                    0 <= i < s.pending.len() && is_due(#[trigger] s.pending[i], run.run_id, target),
            ),
        },
    }
}

/// Whether spendable Orchard remains that no queued transfer of the active run covers.
pub open spec fn is_invalid_answer(
    r: Result<bool, MigrationError>,
    c: ContextView,
    s: StoreView,
    balances: Result<PoolBalances, MigrationError>,
) -> bool {
    match c.active(s) {
        Some(run) if expects_schedule(run) && has_nothing_queued(s, run.run_id) => {
            match balances {
                Err(e) => r == Err::<bool, MigrationError>(e),
                Ok(b) => r == Ok::<bool, MigrationError>(b.orchard_spendable > 0),
            }
        },
        _ => r == Ok::<bool, MigrationError>(false),
    }
}

// ----- recovery -----

/// A phase in which no schedule is expected yet.
pub open spec fn is_pre_schedule(p: Phase) -> bool {
    ||| p is NoOrchardFunds
    ||| p is WaitingForSpendableOrchard
    ||| p is ReadyToPrepare
    ||| p is PreparingDenominations
    ||| p is WaitingDenomConfirmations
    ||| p is ReadyToMigrate
}

/// A run is in, or past, the phase from which on a schedule is expected.
pub open spec fn expects_schedule(run: RunView) -> bool {
    phase_named(run.phase) matches Some(p) ==> !is_pre_schedule(p)
}

/// None of a run's transfers is scheduled or broadcast.
pub open spec fn has_nothing_queued(s: StoreView, run_id: Seq<char>) -> bool {
    count_with_status(s.pending, run_id, "scheduled"@) == 0 && count_with_status(
        s.pending,
        run_id,
        "broadcasted"@,
    ) == 0
}

/// The tables once the active run's scheduled transfers are cleared.
pub open spec fn with_step_cleared(c: ContextView, s: StoreView) -> StoreView {
    match c.active(s) {
        Some(run) => StoreView { pending: without_scheduled(s.pending, run.run_id), ..s },
        None => s,
    }
}

/// What refreshing the scheduled transfers gives, and leaves in the tables, when the new schedule
/// was made under one run id and a new run, if needed, gets another.
pub open spec fn is_refresh(
    r: Result<(u32, ScheduleSigning), MigrationError>,
    c: ContextView,
    before: StoreView,
    after: StoreView,
    run_id: Seq<char>,
    fresh: Seq<char>,
    heights: Result<(u32, u32), MigrationError>,
    balances: Result<PoolBalances, MigrationError>,
    usk: Seq<u8>,
    now: i64,
) -> bool {
    let cleared = with_step_cleared(c, before);
    exists|proposed: Result<MigrationSchedule, MigrationError>| #[trigger]
        is_private_schedule(proposed, run_id, heights, balances) && match proposed {
            Err(e) => r == Err::<(u32, ScheduleSigning), MigrationError>(e) && after == cleared,
            Ok(schedule) => exists|begun: Result<ScheduleSigning, MigrationError>| #[trigger]
                is_schedule_begun(
                    begun,
                    c,
                    cleared,
                    after,
                    fresh,
                    schedule@.transfers,
                    usk,
                    heights,
                    now,
                ) && match begun {
                    Err(e) => r == Err::<(u32, ScheduleSigning), MigrationError>(e),
                    Ok(signing) => r == Ok::<(u32, ScheduleSigning), MigrationError>(
                        (schedule@.transfers.len() as u32, signing),
                    ),
                },
        }
}

impl MigrationContext {
    // ----- background execution -----

    /// Whether a sync is required before the next transfer (change returned to Orchard). With the
    /// clean self-funding denominations each transfer spends a whole pre-split note and produces no
    /// Orchard change, so none is.
    pub fn is_sync_required_before_next_transfer(&self) -> (r: Result<bool, MigrationError>)
        ensures
            r == Ok::<bool, MigrationError>(false),
    {
        Ok(false)
    }

    /// The next height-due pre-signed transfer, or `None`. The note-split (prep) transaction comes
    /// first: it must broadcast and confirm before any transfer. The platform extracts the
    /// transaction from `raw_pczt` (see [`Self::extract_broadcast_tx`]), broadcasts it, and calls
    /// [`Self::record_transfer_result`].
    pub fn next_due_transfer(&self, store: &Store, heights: Result<(u32, u32), MigrationError>) -> (r:
        Result<Option<PreparedTx>, MigrationError>)
        requires
            store@.wf(),
        ensures
            is_next_due(r, self@, store@, heights),
    {
        let run = match self.active_run(store) {
            None => {
                return Ok(None);
            },
            Some(run) => run,
        };
        if let Some(prep) = store::prep_tx(store, run.run_id.as_str()) {
            if same_text(prep.status.as_str(), "pending") {
                return Ok(
                    Some(
                        PreparedTx {
                            id: join("prep:", run.run_id.as_str()),
                            txid: prep.txid_hex,
                            raw_pczt: prep.raw_pczt,
                        },
                    ),
                );
            }
        }
        let target: u32 = match heights {
            Err(e) => {
                return Err(e);
            },
            Ok((target, _)) => target,
        };
        match store::next_due_transfer(store, run.run_id.as_str(), target) {
            None => Ok(None),
            Some(tx) => Ok(
                Some(
                    PreparedTx { id: tx.txid_hex.clone(), txid: tx.txid_hex, raw_pczt: tx.raw_pczt },
                ),
            ),
        }
    }

    /// Extract the broadcast-ready consensus transaction bytes from a serialized signed PCZT (as
    /// carried in [`PreparedTx::raw_pczt`]).
    pub fn extract_broadcast_tx(&self, raw_pczt: &[u8]) -> (bytes: Result<Vec<u8>, MigrationError>)
        ensures
            is_extraction(bytes, raw_pczt@),
    {
        extract_broadcast_tx(raw_pczt)
    }

    /// Re-propose at a fresh bucketed anchor and begin to re-sign the active run's scheduled
    /// transfers, replacing PCZTs whose anchor may have gone stale. Hands back the number of
    /// transfers that are refreshed, and the signing that the application completes as for
    /// [`Self::sign_and_store_migration_schedule`].
    pub fn refresh_stale_transfers(
        &self,
        store: &mut Store,
        heights: Result<(u32, u32), MigrationError>,
        balances: Result<PoolBalances, MigrationError>,
        usk: &[u8],
        now: i64,
    ) -> (r: Result<(u32, ScheduleSigning), MigrationError>)
        requires
            old(store)@.wf(),
            is_money(balances),
        ensures
            final(store)@.wf(),
            exists|run_id: Seq<char>, fresh: Seq<char>|
                is_random_id(run_id) && is_random_id(fresh) && #[trigger] is_refresh(
                    r,
                    self@,
                    old(store)@,
                    final(store)@,
                    run_id,
                    fresh,
                    heights,
                    balances,
                    usk@,
                    now,
                ),
    {
        let run_id: String = new_run_id();
        let fresh: String = new_run_id();
        self.refresh_under(store, run_id.as_str(), fresh.as_str(), heights, balances, usk, now)
    }

    /// Refresh the scheduled transfers: the new schedule is made under `run_id`, and a new run, if
    /// one is needed, gets the id `fresh_run_id`.
    pub fn refresh_under(
        &self,
        store: &mut Store,
        run_id: &str,
        fresh_run_id: &str,
        heights: Result<(u32, u32), MigrationError>,
        balances: Result<PoolBalances, MigrationError>,
        usk: &[u8],
        now: i64,
    ) -> (r: Result<(u32, ScheduleSigning), MigrationError>)
        requires
            old(store)@.wf(),
            is_money(balances),
        ensures
            final(store)@.wf(),
            is_refresh(
                r,
                self@,
                old(store)@,
                final(store)@,
                run_id@,
                fresh_run_id@,
                heights,
                balances,
                usk@,
                now,
            ),
    {
        self.clear_step(store);
        let ghost cleared = store@;
        let (again, given): (Result<(u32, u32), MigrationError>, Result<(u32, u32), MigrationError>) =
            match heights {
            Err(e) => {
                assert(is_private_schedule(
                    Err::<MigrationSchedule, MigrationError>(e),
                    run_id@,
                    heights,
                    balances,
                ));
                return Err(e);
            },
            Ok(pair) => (Ok(pair), Ok(pair)),
        };
        let proposed: Result<MigrationSchedule, MigrationError> = self.private_schedule(
            run_id,
            given,
            balances,
        );
        assert(is_private_schedule(proposed, run_id@, heights, balances));
        match proposed {
            Err(e) => Err(e),
            Ok(schedule) => {
                let count: u32 = schedule.transfers.len() as u32;
                let begun: Result<ScheduleSigning, MigrationError> = self.begin_schedule(
                    store,
                    fresh_run_id,
                    &schedule,
                    usk,
                    again,
                    now,
                );
                assert(is_schedule_begun(
                    begun,
                    self@,
                    cleared,
                    store@,
                    fresh_run_id@,
                    schedule@.transfers,
                    usk@,
                    heights,
                    now,
                ));
                match begun {
                    Err(e) => Err(e),
                    Ok(signing) => Ok((count, signing)),
                }
            },
        }
    }

    /// Record the platform's broadcast outcome, advancing the engine's state. A result for the
    /// note-split (prep) transaction advances the split phase; a network error leaves everything for
    /// a retry.
    pub fn record_transfer_result(
        &self,
        store: &mut Store,
        transfer_id: &str,
        result: TransferResult,
        now: i64,
    ) -> (r: Result<(), MigrationError>)
        requires
            old(store)@.wf(),
        ensures
            final(store)@.wf(),
            is_recorded(r, self@, old(store)@, final(store)@, transfer_id@, result, now),
    {
        let run = match self.active_run(store) {
            None => {
                return Err(MigrationError::InvalidState(InvalidStateError::NoActiveRun));
            },
            Some(run) => run,
        };
        proof {
            reveal_strlit("prep:");
            assert("prep:"@.len() == 5);
        }
        if let Some(run_id) = strip_prefix(transfer_id, "prep:") {
            if let TransferResult::Success { .. } = result {
                store::set_prep_tx_status(store, run_id.as_str(), "broadcasted");
                store::set_phase(
                    store,
                    run_id.as_str(),
                    Phase::WaitingDenomConfirmations,
                    None,
                    now,
                );
            }
            return Ok(());
        }
        match result {
            TransferResult::Success { .. } => {
                store::mark_pending_status(store, transfer_id, "broadcasted");
            },
            TransferResult::NetworkError { .. } => {},
            TransferResult::InvalidNote => {
                let message: String = invalid_note_text(transfer_id);
                store::set_phase(
                    store,
                    run.run_id.as_str(),
                    Phase::FailedRecoverable,
                    Some(message.as_str()),
                    now,
                );
            },
            TransferResult::Expired => {
                let message: String = expired_text(transfer_id);
                store::set_phase(
                    store,
                    run.run_id.as_str(),
                    Phase::FailedRecoverable,
                    Some(message.as_str()),
                    now,
                );
            },
        }
        Ok(())
    }

    // ----- on-launch reconciliation -----

    /// Whether any scheduled transfer is past its send height but not yet broadcast.
    pub fn has_overdue_transfers(
        &self,
        store: &Store,
        heights: Result<(u32, u32), MigrationError>,
    ) -> (r: Result<bool, MigrationError>)
        requires
            store@.wf(),
        ensures
            is_overdue_answer(r, self@, store@, heights),
    {
        let run = match self.active_run(store) {
            None => {
                return Ok(false);
            },
            Some(run) => run,
        };
        let target: u32 = match heights {
            Err(e) => {
                return Err(e);
            },
            Ok((target, _)) => target,
        };
        proof {
            next_due_transfer_is_the_earliest(store@.pending, run.run_id@, target);
        }
        Ok(store::next_due_transfer(store, run.run_id.as_str(), target).is_some())
    }

    /// Whether the migration is in an invalid state: spendable Orchard remains but no scheduled
    /// transfer covers it.
    ///
    /// Only meaningful once a schedule should exist. In the phases before that (the note split
    /// underway or confirmed, the transfer plan not yet user-approved) having no queued transfers
    /// while the balance still sits in Orchard is the expected state, not an invalid one; the
    /// balances are not looked at.
    pub fn has_invalid_transfers(
        &self,
        store: &Store,
        balances: Result<PoolBalances, MigrationError>,
    ) -> (r: Result<bool, MigrationError>)
        requires
            store@.pending.len() <= u32::MAX,
        ensures
            is_invalid_answer(r, self@, store@, balances),
    {
        let run = match self.active_run(store) {
            None => {
                return Ok(false);
            },
            Some(run) => run,
        };
        let pre_schedule: bool = match Phase::parse(run.phase.as_str()) {
            None => false,
            Some(p) => matches!(
                p,
                Phase::NoOrchardFunds | Phase::WaitingForSpendableOrchard | Phase::ReadyToPrepare
                | Phase::PreparingDenominations | Phase::WaitingDenomConfirmations
                | Phase::ReadyToMigrate
            ),
        };
        if pre_schedule {
            return Ok(false);
        }
        let totals = store::pending_totals(store, run.run_id.as_str());
        if totals.scheduled == 0 && totals.broadcasted == 0 {
            match balances {
                Err(e) => Err(e),
                Ok(b) => Ok(b.orchard_spendable > 0),
            }
        } else {
            Ok(false)
        }
    }

    // ----- recovery / lifecycle -----

    /// Removes the active run's scheduled transfers.
    fn clear_step(&self, store: &mut Store)
        requires
            old(store)@.wf(),
        ensures
            final(store)@.wf(),
            final(store)@ == with_step_cleared(self@, old(store)@),
    {
        if let Some(run) = self.active_run(store) {
            let _ = store::clear_scheduled_pending(store, run.run_id.as_str());
        }
    }

    /// Re-evaluate the remaining spendable Orchard balance and return a fresh schedule for it; the
    /// active run's scheduled transfers are removed first. The returned schedule goes through the
    /// normal confirm and sign flow.
    pub fn restart_current_migration_step(
        &self,
        store: &mut Store,
        heights: Result<(u32, u32), MigrationError>,
        balances: Result<PoolBalances, MigrationError>,
    ) -> (r: Result<MigrationSchedule, MigrationError>)
        requires
            old(store)@.wf(),
            is_money(balances),
        ensures
            final(store)@.wf(),
            final(store)@ == with_step_cleared(self@, old(store)@),
            exists|run_id: Seq<char>|
                is_random_id(run_id) && #[trigger] is_private_schedule(
                    r,
                    run_id,
                    heights,
                    balances,
                ),
    {
        self.clear_step(store);
        self.propose_migration_transfers(heights, balances)
    }

    /// Called on first launch after the Ironwood upgrade; `opened` says whether the engine's tables
    /// could be opened or created. The minimum anchor is enforced implicitly because every bucketed
    /// anchor derives from the wallet's current (post-upgrade) sync state.
    pub fn initialize_post_upgrade(&self, opened: Result<(), rusqlite::Error>) -> (r: Result<
        (),
        MigrationError,
    >)
        ensures
            match opened {
                Err(e) => r == Err::<(), MigrationError>(MigrationError::Db(e)),
                Ok(_) => r == Ok::<(), MigrationError>(()),
            },
    {
        match opened {
            Err(e) => Err(MigrationError::Db(e)),
            Ok(_) => Ok(()),
        }
    }
}

} // verus!
