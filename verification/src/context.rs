//! The [`MigrationContext`] facade: the synchronous API that the platform SDKs wrap.
//!
//! The application owns the wallet database. Before an operation it reads what the operation asks
//! for and hands it in: the engine's tables as a [`Store`], and the wallet's balances, heights and
//! the like as readings, each an error where reading it failed. After the operation it writes the
//! tables back.

use crate::attention::{attention_from_error, attention_of};
use crate::denominations::{
    available, crossings, crossings_account, over_limit_message, plan_self_funding_denominations,
    self_funding_notes, value_is_at_most_the_sum, MIGRATION_MAX_PREPARED_NOTES_PER_RUN,
    TRANSFER_FEE_BUFFER_ZATOSHI,
};
use crate::error::{is_pipeline_error, InvalidStateError, MigrationError};
use crate::hex::{account_text, hyphenated, is_random_id, new_run_id};
use crate::rows::{optional_text, RunRow, RunView};
use crate::scheduling::{build_schedule, schedule_of, FIRST_TRANSFER_DELAY_BLOCKS};
use crate::split::{
    actions_fee, second_version, select_spendable_v2_notes, split_fee, SpendableNote,
};
use crate::state::{phase_name, phase_named, surfaced, to_state, Phase};
use crate::store::{
    self, first_send_height, newest_live, optional_run, read_optional_run, runs_with_phase,
    totals_of, Store, StoreView,
};
use crate::table::lookup;
use crate::types::{
    AttentionReason, AttentionView, MigrationProgress, MigrationSchedule, MigrationState,
    NoteSplitProposal, StateView, MAX_MONEY,
};
use crate::wallet::{is_sweep, sweep_crossing_value, PoolBalances, SweepProbe};
use vstd::prelude::*;
use vstd::string::*;

verus! {

/// ZIP-317 fee estimate (zatoshi) used by note-split / migration planning.
pub const FEE_ESTIMATE_ZATOSHI: u64 = 10_000;

/// The kind of network that a wallet is on.
#[derive(Clone, Copy, Debug, PartialEq, Eq, Structural)]
pub enum NetworkType {
    Main,
    Test,
    Regtest,
}

/// The name under which a network's runs are stored.
pub open spec fn network_name(network: NetworkType) -> Seq<char> {
    match network {
        NetworkType::Main => "main"@,
        NetworkType::Test => "test"@,
        NetworkType::Regtest => "regtest"@,
    }
}

/// Holds wallet context for migration operations: a database path, a network and an account. It has
/// no state of its own; every operation works on the tables and readings it is handed.
pub struct MigrationContext {
    db_path: String,
    network: NetworkType,
    account_uuid: [u8; 16],
}

/// What a context is bound to.
#[verifier::ext_equal]
pub struct ContextView {
    pub db_path: Seq<char>,
    pub network: NetworkType,
    pub account: Seq<u8>,
}

impl View for MigrationContext {
    type V = ContextView;

    closed spec fn view(&self) -> ContextView {
        ContextView {
            db_path: self.db_path@,
            network: self.network,
            account: self.account_uuid@,
        }
    }
}

impl ContextView {
    /// The account's active run.
    pub open spec fn active(self, s: StoreView) -> Option<RunView> {
        newest_live(s.runs, hyphenated(self.account), network_name(self.network))
    }
}

// ----- what the operations compute -----

/// A reading of balances that no panicking conversion can meet: an amount is at most [`MAX_MONEY`].
pub open spec fn is_money(balances: Result<PoolBalances, MigrationError>) -> bool {
    balances matches Ok(b) ==> b.orchard_spendable <= MAX_MONEY
}

/// The spendable Orchard balance of a reading, zero where reading failed.
pub open spec fn spendable_or_zero(balances: Result<PoolBalances, MigrationError>) -> u64 {
    match balances {
        Ok(b) => b.orchard_spendable,
        Err(_) => 0,
    }
}

/// The progress of a run.
pub open spec fn progress_of(
    s: StoreView,
    run_id: Seq<char>,
    balances: Result<PoolBalances, MigrationError>,
) -> MigrationProgress {
    let totals = totals_of(s.pending, run_id);
    MigrationProgress {
        completed_transfers: totals.confirmed,
        total_transfers: totals.total,
        remaining_orchard: spendable_or_zero(balances),
        next_transfer_ready_at_height: first_send_height(s.pending, run_id),
    }
}

/// The attention reason of a run: that of its last error, once the run has failed.
pub open spec fn run_attention(last_error: Option<Seq<char>>, phase: Phase) -> Option<AttentionView> {
    match last_error {
        Some(message) if phase is FailedRecoverable || phase is FailedTerminal => Some(
            attention_of(message),
        ),
        _ => None,
    }
}

/// A run whose note split is underway.
pub open spec fn is_splitting(phase: Phase) -> bool {
    phase is PreparingDenominations || phase is WaitingDenomConfirmations
}

/// All transfers of a run are confirmed.
pub open spec fn all_confirmed(p: MigrationProgress) -> bool {
    p.total_transfers > 0 && p.completed_transfers == p.total_transfers
}

/// What asking for the state of a migration finds.
pub enum StateOutcome {
    /// The state, with nothing changed.
    State(StateView),
    /// The split of the run has confirmed.
    SplitConfirmed(Seq<char>),
    /// The run's phase is unknown.
    UnknownPhase(Seq<char>),
    /// A reading that was needed had failed.
    Failed(MigrationError),
}

/// What asking for the state of a run in a known phase finds.
pub open spec fn run_outcome(
    s: StoreView,
    run: RunView,
    phase: Phase,
    balances: Result<PoolBalances, MigrationError>,
    split_mined: Result<bool, MigrationError>,
) -> StateOutcome {
    let progress = progress_of(s, run.run_id, balances);
    let mapped = surfaced(phase, progress, run_attention(run.last_error, phase));
    if is_splitting(phase) && lookup(s.prep, run.run_id) is Some {
        match split_mined {
            Err(e) => StateOutcome::Failed(e),
            Ok(mined) => if mined {
                StateOutcome::SplitConfirmed(run.run_id)
            } else {
                StateOutcome::State(mapped)
            },
        }
    } else if mapped is InProgress && all_confirmed(progress) {
        match balances {
            Err(e) => StateOutcome::Failed(e),
            Ok(b) => if b.orchard_spendable == 0 && b.ironwood_total > 0 {
                StateOutcome::State(StateView::Complete)
            } else {
                StateOutcome::State(mapped)
            },
        }
    } else {
        StateOutcome::State(mapped)
    }
}

/// What asking for the state of a migration finds.
pub open spec fn state_outcome(
    c: ContextView,
    s: StoreView,
    balances: Result<PoolBalances, MigrationError>,
    split_mined: Result<bool, MigrationError>,
) -> StateOutcome {
    match c.active(s) {
        None => StateOutcome::State(StateView::NotStarted),
        Some(run) => match phase_named(run.phase) {
            None => StateOutcome::UnknownPhase(run.phase),
            Some(phase) => run_outcome(s, run, phase, balances, split_mined),
        },
    }
}

/// What asking for the transaction of the note split gives: that of the active run, while its split
/// is underway and stored.
pub open spec fn is_split_txid(txid: Option<String>, c: ContextView, s: StoreView) -> bool {
    optional_text(txid) == match c.active(s) {
        Some(run) if (phase_named(run.phase) matches Some(p) && is_splitting(p)) => match lookup(
            s.prep,
            run.run_id,
        ) {
            Some(prep) => Some(prep.txid_hex),
            None => None,
        },
        _ => None,
    }
}

/// The tables once asking for the state found an outcome: a confirmed split makes its run ready to
/// migrate.
pub open spec fn store_after(s: StoreView, outcome: StateOutcome, now: i64) -> StoreView {
    match outcome {
        StateOutcome::SplitConfirmed(run_id) => StoreView {
            runs: runs_with_phase(s.runs, run_id, phase_name(Phase::ReadyToMigrate), None, now),
            ..s
        },
        _ => s,
    }
}

/// The state that an outcome shows.
pub open spec fn shows(r: Result<MigrationState, MigrationError>, outcome: StateOutcome) -> bool {
    match outcome {
        StateOutcome::State(state) => r matches Ok(m) && m@ == state,
        StateOutcome::SplitConfirmed(_) => r matches Ok(m) && m@ == StateView::ReadyToPropose,
        StateOutcome::UnknownPhase(name) => {
            r matches Err(MigrationError::InvalidState(InvalidStateError::UnknownPhase(p))) && p@
                == name
        },
        StateOutcome::Failed(e) => r == Err::<MigrationState, MigrationError>(e),
    }
}

/// The progress that an outcome shows: present only while a migration is in progress.
pub open spec fn shows_progress(
    r: Result<Option<MigrationProgress>, MigrationError>,
    outcome: StateOutcome,
) -> bool {
    match outcome {
        StateOutcome::State(StateView::InProgress(p)) => r
            == Ok::<Option<MigrationProgress>, MigrationError>(Some(p)),
        StateOutcome::State(_) | StateOutcome::SplitConfirmed(_) => r
            == Ok::<Option<MigrationProgress>, MigrationError>(None),
        StateOutcome::UnknownPhase(name) => {
            r matches Err(MigrationError::InvalidState(InvalidStateError::UnknownPhase(p))) && p@
                == name
        },
        StateOutcome::Failed(e) => r == Err::<Option<MigrationProgress>, MigrationError>(e),
    }
}

impl MigrationContext {
    /// Create a context bound to a wallet database, network, and account; `opened` says whether the
    /// engine's tables could be opened or created there.
    pub fn new(
        db_path: &str,
        network: NetworkType,
        account_uuid: [u8; 16],
        opened: Result<(), rusqlite::Error>,
    ) -> (r: Result<MigrationContext, MigrationError>)
        ensures
            match opened {
                Err(e) => r matches Err(MigrationError::Db(d)) && d == e,
                Ok(_) => r matches Ok(c) && c@ == (ContextView {
                    db_path: db_path@,
                    network,
                    account: account_uuid@,
                }),
            },
    {
        match opened {
            Err(e) => Err(MigrationError::Db(e)),
            Ok(_) => Ok(MigrationContext { db_path: db_path.to_owned(), network, account_uuid }),
        }
    }

    // ----- internal helpers -----

    /// The account as it is stored with a run.
    pub fn account_str(&self) -> (s: String)
        ensures
            s@ == hyphenated(self@.account),
    {
        account_text(self.account_uuid)
    }

    /// The network as it is stored with a run.
    pub fn network_str(&self) -> (s: &'static str)
        ensures
            s@ == network_name(self@.network),
    {
        match self.network {
            NetworkType::Main => "main",
            NetworkType::Test => "test",
            NetworkType::Regtest => "regtest",
        }
    }

    /// The account that the context is bound to.
    pub fn account(&self) -> (account: [u8; 16])
        ensures
            account@ == self@.account,
    {
        self.account_uuid
    }

    /// The database path that the context is bound to.
    pub fn db_path(&self) -> (path: &str)
        ensures
            path@ == self@.db_path,
    {
        self.db_path.as_str()
    }

    /// The account's active run.
    pub fn active_run(&self, store: &Store) -> (run: Option<RunRow>)
        ensures
            optional_run(run) == read_optional_run(self@.active(store@)),
    {
        store::active_run(store, self.account_str().as_str(), self.network_str())
    }

    // ----- state -----

    /// The transaction whose confirmation decides the state: that of the active run's note split,
    /// while the split is underway.
    pub fn split_txid(&self, store: &Store) -> (txid: Option<String>)
        requires
            store@.wf(),
        ensures
            is_split_txid(txid, self@, store@),
    {
        match self.active_run(store) {
            None => None,
            Some(run) => match Phase::parse(run.phase.as_str()) {
                Some(Phase::PreparingDenominations) | Some(Phase::WaitingDenomConfirmations) => {
                    match store::prep_tx(store, run.run_id.as_str()) {
                        Some(prep) => Some(prep.txid_hex),
                        None => None,
                    }
                },
                _ => None,
            },
        }
    }

    /// Current migration state. App calls this on launch and after every operation.
    ///
    /// `balances` are the account's balances; `split_mined` says whether the wallet has mined the
    /// transaction that [`Self::split_txid`] names. The split has no explicit confirmation callback,
    /// so a run whose split is underway becomes ready once that transaction is mined: a broadcast
    /// whose result was not recorded still advances, and a split that was never broadcast does not.
    /// A run whose transfers are all confirmed is complete once the Orchard balance is gone and
    /// Ironwood holds some.
    pub fn migration_state(
        &self,
        store: &mut Store,
        balances: Result<PoolBalances, MigrationError>,
        split_mined: Result<bool, MigrationError>,
        now: i64,
    ) -> (r: Result<MigrationState, MigrationError>)
        requires
            old(store)@.wf(),
            old(store)@.pending.len() <= u32::MAX,
            is_money(balances),
        ensures
            final(store)@.wf(),
            shows(r, state_outcome(self@, old(store)@, balances, split_mined)),
            final(store)@ == store_after(
                old(store)@,
                state_outcome(self@, old(store)@, balances, split_mined),
                now,
            ),
    {
        let run: RunRow = match self.active_run(store) {
            None => {
                return Ok(MigrationState::NotStarted);
            },
            Some(run) => run,
        };
        let phase: Phase = match Phase::parse(run.phase.as_str()) {
            None => {
                return Err(
                    MigrationError::InvalidState(InvalidStateError::UnknownPhase(run.phase)),
                );
            },
            Some(phase) => phase,
        };
        let progress: MigrationProgress = self.progress_for_run(
            store,
            run.run_id.as_str(),
            &balances,
        );
        let failed: bool = matches!(phase, Phase::FailedRecoverable | Phase::FailedTerminal);
        let attention: Option<AttentionReason> = match &run.last_error {
            Some(message) => if failed {
                Some(attention_from_error(message.as_str()))
            } else {
                None
            },
            None => None,
        };
        let mapped: MigrationState = to_state(phase, progress, attention);
        if matches!(phase, Phase::PreparingDenominations | Phase::WaitingDenomConfirmations)
            && store::prep_tx(store, run.run_id.as_str()).is_some() {
            match split_mined {
                Err(e) => {
                    return Err(e);
                },
                Ok(mined) => {
                    if mined {
                        store::set_phase(
                            store,
                            run.run_id.as_str(),
                            Phase::ReadyToMigrate,
                            None,
                            now,
                        );
                        return Ok(MigrationState::ReadyToPropose);
                    }
                },
            }
            return Ok(mapped);
        }
        if matches!(mapped, MigrationState::InProgress(_)) && progress.total_transfers > 0
            && progress.completed_transfers == progress.total_transfers {
            match balances {
                Err(e) => {
                    return Err(e);
                },
                Ok(b) => {
                    if b.orchard_spendable == 0 && b.ironwood_total > 0 {
                        return Ok(MigrationState::Complete);
                    }
                },
            }
        }
        Ok(mapped)
    }

    /// Progress details, present only while a migration is in progress. Takes what
    /// [`Self::migration_state`] takes, and changes what it changes.
    pub fn migration_progress(
        &self,
        store: &mut Store,
        balances: Result<PoolBalances, MigrationError>,
        split_mined: Result<bool, MigrationError>,
        now: i64,
    ) -> (r: Result<Option<MigrationProgress>, MigrationError>)
        requires
            old(store)@.wf(),
            old(store)@.pending.len() <= u32::MAX,
            is_money(balances),
        ensures
            final(store)@.wf(),
            shows_progress(r, state_outcome(self@, old(store)@, balances, split_mined)),
            final(store)@ == store_after(
                old(store)@,
                state_outcome(self@, old(store)@, balances, split_mined),
                now,
            ),
    {
        match self.migration_state(store, balances, split_mined, now) {
            Err(e) => Err(e),
            Ok(MigrationState::InProgress(p)) => Ok(Some(p)),
            Ok(_) => Ok(None),
        }
    }

    fn progress_for_run(
        &self,
        store: &Store,
        run_id: &str,
        balances: &Result<PoolBalances, MigrationError>,
    ) -> (p: MigrationProgress)
        requires
            store@.pending.len() <= u32::MAX,
        ensures
            p == progress_of(store@, run_id@, *balances),
    {
        let totals = store::pending_totals(store, run_id);
        let remaining_orchard: u64 = match balances {
            Ok(b) => b.orchard_spendable,
            Err(_) => 0,
        };
        MigrationProgress {
            completed_transfers: totals.confirmed,
            total_transfers: totals.total,
            remaining_orchard,
            next_transfer_ready_at_height: store::next_scheduled_send_height(store, run_id),
        }
    }
}

// ----- proposing -----

/// The active run has been prepared: it is past the phases before its split was confirmed.
pub open spec fn is_prepared(c: ContextView, s: StoreView) -> bool {
    c.active(s) matches Some(run) && (phase_named(run.phase) matches Some(p) && !(p is NoOrchardFunds
        || p is WaitingForSpendableOrchard || p is ReadyToPrepare || is_splitting(p)))
}

/// Whether a note split is needed: never once the active run has been prepared, and otherwise where
/// there is a spendable balance.
pub open spec fn is_split_need(
    r: Result<bool, MigrationError>,
    c: ContextView,
    s: StoreView,
    balances: Result<PoolBalances, MigrationError>,
) -> bool {
    &&& is_prepared(c, s) ==> r == Ok::<bool, MigrationError>(false)
    &&& !is_prepared(c, s) ==> match balances {
        Err(e) => r == Err::<bool, MigrationError>(e),
        Ok(b) => r == Ok::<bool, MigrationError>(b.orchard_spendable > 0),
    }
}

/// The values that cross when a balance is split for migration.
pub open spec fn planned_crossings(total: u64) -> Seq<u64> {
    crossings(available(total, FEE_ESTIMATE_ZATOSHI))
}

/// More notes than a run may prepare.
pub open spec fn is_over_limit(values: Seq<u64>) -> bool {
    values.len() > MIGRATION_MAX_PREPARED_NOTES_PER_RUN
}

/// The message for a plan over the limit.
pub open spec fn limit_message() -> Seq<char> {
    over_limit_message((MIGRATION_MAX_PREPARED_NOTES_PER_RUN + 1) as nat)
}

/// The number of spends that a split is charged for: one at least.
pub open spec fn charged_spends(notes: Seq<SpendableNote>) -> nat {
    if second_version(notes).len() == 0 {
        1
    } else {
        second_version(notes).len()
    }
}

/// Where a note split is proposed, its fee fits.
pub open spec fn split_fee_fits(
    balances: Result<PoolBalances, MigrationError>,
    heights: Result<(u32, u32), MigrationError>,
    selected: Result<Vec<SpendableNote>, String>,
) -> bool {
    match (balances, heights, selected) {
        (Ok(b), Ok(_), Ok(notes)) => b.orchard_spendable > 0 && !is_over_limit(
            planned_crossings(b.orchard_spendable),
        ) ==> actions_fee(
            charged_spends(notes@) + planned_crossings(b.orchard_spendable).len(),
        ) <= u64::MAX,
        _ => true,
    }
}

/// What preparing a note split gives.
pub open spec fn is_split_proposal(
    r: Result<NoteSplitProposal, MigrationError>,
    balances: Result<PoolBalances, MigrationError>,
    heights: Result<(u32, u32), MigrationError>,
    selected: Result<Vec<SpendableNote>, String>,
) -> bool {
    match balances {
        Err(e) => r == Err::<NoteSplitProposal, MigrationError>(e),
        Ok(b) => {
            let values = planned_crossings(b.orchard_spendable);
            if is_over_limit(values) {
                is_pipeline_error(r, limit_message())
            } else {
                match heights {
                    Err(e) => r == Err::<NoteSplitProposal, MigrationError>(e),
                    Ok(_) => if b.orchard_spendable == 0 {
                        is_pipeline_error(r, "note split: no spendable Orchard balance"@)
                    } else {
                        match selected {
                            Err(text) => is_pipeline_error(
                                r,
                                "note split: select notes: "@ + text@,
                            ),
                            Ok(notes) => {
                                &&& r is Ok
                                &&& r->Ok_0.output_notes@ == self_funding_notes(values)
                                &&& r->Ok_0.fee == actions_fee(
                                    charged_spends(notes@) + values.len(),
                                )
                            },
                        }
                    },
                }
            }
        },
    }
}

/// What proposing a private migration gives under a run id.
pub open spec fn is_private_schedule(
    r: Result<MigrationSchedule, MigrationError>,
    run_id: Seq<char>,
    heights: Result<(u32, u32), MigrationError>,
    balances: Result<PoolBalances, MigrationError>,
) -> bool {
    match (heights, balances) {
        (Err(e), _) => r == Err::<MigrationSchedule, MigrationError>(e),
        (Ok(_), Err(e)) => r == Err::<MigrationSchedule, MigrationError>(e),
        (Ok((target, anchor)), Ok(b)) => {
            let values = planned_crossings(b.orchard_spendable);
            if is_over_limit(values) {
                is_pipeline_error(r, limit_message())
            } else {
                r matches Ok(schedule) && schedule@ == schedule_of(
                    run_id,
                    values,
                    target,
                    anchor,
                    FIRST_TRANSFER_DELAY_BLOCKS,
                )
            }
        },
    }
}

/// The amounts of an immediate migration: one, or none where nothing crosses.
pub open spec fn swept_amounts(crossing: Option<u64>) -> Seq<u64> {
    match crossing {
        Some(value) => seq![value],
        None => Seq::empty(),
    }
}

/// What proposing an immediate migration gives under a run id.
pub open spec fn is_immediate_schedule(
    r: Result<MigrationSchedule, MigrationError>,
    run_id: Seq<char>,
    heights: Result<(u32, u32), MigrationError>,
    balances: Result<PoolBalances, MigrationError>,
    probe: Result<SweepProbe, MigrationError>,
) -> bool {
    match (heights, balances) {
        (Err(e), _) => r == Err::<MigrationSchedule, MigrationError>(e),
        (Ok(_), Err(e)) => r == Err::<MigrationSchedule, MigrationError>(e),
        (Ok((target, anchor)), Ok(b)) => {
            exists|crossing: Result<Option<u64>, MigrationError>| #[trigger]
                is_sweep(crossing, b.orchard_spendable, probe) && match crossing {
                    Err(e) => r == Err::<MigrationSchedule, MigrationError>(e),
                    Ok(value) => r matches Ok(schedule) && schedule@ == schedule_of(
                        run_id,
                        swept_amounts(value),
                        target,
                        anchor,
                        0,
                    ),
                }
        },
    }
}

proof fn crossings_are_money(total: u64)
    requires
        total <= MAX_MONEY,
    ensures
        forall|i: int|
            0 <= i < planned_crossings(total).len() ==> #[trigger] planned_crossings(total)[i]
                <= MAX_MONEY,
{
    let budget = available(total, FEE_ESTIMATE_ZATOSHI);
    let values = planned_crossings(total);
    crossings_account(budget);
    assert forall|i: int| 0 <= i < values.len() implies #[trigger] values[i] <= MAX_MONEY by {
        value_is_at_most_the_sum(values, i);
        assert(TRANSFER_FEE_BUFFER_ZATOSHI * values.len() >= 0) by (nonlinear_arith);
    }
}

impl MigrationContext {
    // ----- note splitting -----

    /// Whether the Orchard notes must be split before migration. Splitting is mandatory whenever
    /// there is spendable Orchard balance and no split has yet been confirmed.
    pub fn is_note_split_needed(
        &self,
        store: &Store,
        balances: Result<PoolBalances, MigrationError>,
    ) -> (r: Result<bool, MigrationError>)
        ensures
            is_split_need(r, self@, store@, balances),
    {
        let already_prepared: bool = match self.active_run(store) {
            None => false,
            Some(run) => match Phase::parse(run.phase.as_str()) {
                None => false,
                Some(p) => !matches!(
                    p,
                    Phase::NoOrchardFunds | Phase::WaitingForSpendableOrchard | Phase::ReadyToPrepare
                        | Phase::PreparingDenominations | Phase::WaitingDenomConfirmations
                ),
            },
        };
        if already_prepared {
            return Ok(false);
        }
        match balances {
            Err(e) => Err(e),
            Ok(b) => Ok(b.orchard_spendable > 0),
        }
    }

    /// Compute the optimal note split for the spendable Orchard balance. Each output note is
    /// self-funding (a power of ten and the fee buffer); any residual stays in Orchard. The reported
    /// fee is the exact ZIP-317 fee for the split transaction; at signing time the last output
    /// absorbs any drift between this plan and the then-current balance.
    ///
    /// `selected` are the notes that the wallet selects for the whole balance, with no locks (before
    /// the split there are none).
    pub fn prepare_note_split(
        &self,
        balances: Result<PoolBalances, MigrationError>,
        heights: Result<(u32, u32), MigrationError>,
        selected: Result<Vec<SpendableNote>, String>,
    ) -> (r: Result<NoteSplitProposal, MigrationError>)
        requires
            split_fee_fits(balances, heights, selected),
        ensures
            is_split_proposal(r, balances, heights, selected),
    {
        let b: PoolBalances = match balances {
            Err(e) => {
                return Err(e);
            },
            Ok(b) => b,
        };
        let plan = match plan_self_funding_denominations(
            b.orchard_spendable,
            FEE_ESTIMATE_ZATOSHI,
        ) {
            Err(message) => {
                return Err(MigrationError::Pipeline(message));
            },
            Ok(plan) => plan,
        };
        let notes: Vec<SpendableNote> = match select_spendable_v2_notes(heights, Ok(b), selected) {
            Err(e) => {
                return Err(e);
            },
            Ok(notes) => notes,
        };
        let n_spends: usize = if notes.len() == 0 {
            1
        } else {
            notes.len()
        };
        let n_outputs: usize = plan.migration_outputs.len();
        let fee: u64 = split_fee(n_spends, n_outputs);
        Ok(NoteSplitProposal { output_notes: plan.migration_outputs, fee })
    }

    // ----- migration proposal -----

    /// The migration schedule for the spendable Orchard balance, under the given run id.
    pub fn private_schedule(
        &self,
        run_id: &str,
        heights: Result<(u32, u32), MigrationError>,
        balances: Result<PoolBalances, MigrationError>,
    ) -> (r: Result<MigrationSchedule, MigrationError>)
        requires
            is_money(balances),
        ensures
            is_private_schedule(r, run_id@, heights, balances),
            r matches Ok(schedule) ==> schedule.transfers@.len()
                <= MIGRATION_MAX_PREPARED_NOTES_PER_RUN,
    {
        let (target, anchor): (u32, u32) = match heights {
            Err(e) => {
                return Err(e);
            },
            Ok(pair) => pair,
        };
        let b: PoolBalances = match balances {
            Err(e) => {
                return Err(e);
            },
            Ok(b) => b,
        };
        let plan = match plan_self_funding_denominations(
            b.orchard_spendable,
            FEE_ESTIMATE_ZATOSHI,
        ) {
            Err(message) => {
                return Err(MigrationError::Pipeline(message));
            },
            Ok(plan) => plan,
        };
        proof {
            crossings_are_money(b.orchard_spendable);
        }
        let schedule = build_schedule(
            run_id,
            plan.crossing_values.as_slice(),
            target,
            anchor,
            FIRST_TRANSFER_DELAY_BLOCKS,
        );
        assert(schedule@.transfers.len() == plan.crossing_values@.len());
        Ok(schedule)
    }

    /// Generate the full migration schedule for the spendable Orchard balance, under a fresh run id.
    /// Each transfer's `amount` is the value that crosses the turnstile (the pre-split note pays its
    /// own fee).
    pub fn propose_migration_transfers(
        &self,
        heights: Result<(u32, u32), MigrationError>,
        balances: Result<PoolBalances, MigrationError>,
    ) -> (r: Result<MigrationSchedule, MigrationError>)
        requires
            is_money(balances),
        ensures
            exists|run_id: Seq<char>|
                is_random_id(run_id) && #[trigger] is_private_schedule(
                    r,
                    run_id,
                    heights,
                    balances,
                ),
            r matches Ok(schedule) ==> schedule.transfers@.len()
                <= MIGRATION_MAX_PREPARED_NOTES_PER_RUN,
    {
        let run_id: String = new_run_id();
        self.private_schedule(run_id.as_str(), heights, balances)
    }

    /// The immediate migration schedule under the given run id.
    pub fn immediate_schedule(
        &self,
        run_id: &str,
        heights: Result<(u32, u32), MigrationError>,
        balances: Result<PoolBalances, MigrationError>,
        probe: Result<SweepProbe, MigrationError>,
    ) -> (r: Result<MigrationSchedule, MigrationError>)
        requires
            is_money(balances),
        ensures
            is_immediate_schedule(r, run_id@, heights, balances, probe),
    {
        let (target, anchor): (u32, u32) = match heights {
            Err(e) => {
                return Err(e);
            },
            Ok(pair) => pair,
        };
        let b: PoolBalances = match balances {
            Err(e) => {
                return Err(e);
            },
            Ok(b) => b,
        };
        let crossing: Result<Option<u64>, MigrationError> = sweep_crossing_value(
            b.orchard_spendable,
            probe,
        );
        assert(is_sweep(crossing, b.orchard_spendable, probe));
        match crossing {
            Err(e) => Err(e),
            Ok(value) => {
                let mut amounts: Vec<u64> = Vec::new();
                if let Some(v) = value {
                    amounts.push(v);
                }
                assert(amounts@ =~= swept_amounts(value));
                Ok(build_schedule(run_id, amounts.as_slice(), target, anchor, 0))
            },
        }
    }

    /// Propose the immediate (single-transaction) migration: sweep the entire spendable Orchard
    /// balance into one Ironwood output, executable now. Unlike the private path there is no
    /// denomination and no note split: the whole balance (minus the transaction fee) crosses in a
    /// single transfer. The schedule is empty when nothing is migratable.
    ///
    /// `probe` is what came of proposing a transfer of the whole balance; it is looked at only where
    /// there is a balance.
    pub fn propose_immediate_migration_transfers(
        &self,
        heights: Result<(u32, u32), MigrationError>,
        balances: Result<PoolBalances, MigrationError>,
        probe: Result<SweepProbe, MigrationError>,
    ) -> (r: Result<MigrationSchedule, MigrationError>)
        requires
            is_money(balances),
        ensures
            exists|run_id: Seq<char>|
                is_random_id(run_id) && #[trigger] is_immediate_schedule(
                    r,
                    run_id,
                    heights,
                    balances,
                    probe,
                ),
    {
        let run_id: String = new_run_id();
        self.immediate_schedule(run_id.as_str(), heights, balances, probe)
    }
}

} // verus!
