use secrecy::ExposeSecret;
use zcash_keys::keys::{Era, UnifiedSpendingKey};
use zodl_ironwood_migration::context::NetworkType;
use zodl_ironwood_migration::error::{InvalidStateError, MigrationError};
use zodl_ironwood_migration::pipeline::SignedPczt;
use zodl_ironwood_migration::rows::PendingTxRow;
use zodl_ironwood_migration::split::{NoteVersion, SpendableNote};
use zodl_ironwood_migration::state::Phase;
use zodl_ironwood_migration::store::{
    init, insert_pending_txs, insert_prep_tx, insert_run, mark_pending_status, prep_tx, set_phase,
    NewRun, Store,
};
use zodl_ironwood_migration::types::{
    AttentionReason, MigrationProgress, MigrationSchedule, MigrationState, NoteSplitProposal,
    TransferProposal, TransferResult,
};
use zodl_ironwood_migration::wallet::{
    is_tx_mined, pool_balances, sweep_crossing_value, target_and_anchor, AccountBalances,
    PoolBalances, SweepProbe,
};
use zodl_ironwood_migration::MigrationContext;

fn unread<T>() -> Result<T, MigrationError> {
    Err(MigrationError::Pipeline("open wallet: not there".to_string()))
}

fn holds(orchard_spendable: u64, ironwood_total: u64) -> Result<PoolBalances, MigrationError> {
    Ok(PoolBalances { orchard_spendable, ironwood_total })
}

fn ctx() -> (Store, MigrationContext) {
    let ctx = MigrationContext::new("wallet.db", NetworkType::Main, [7u8; 16], Ok(())).unwrap();
    (init(), ctx)
}

#[test]
fn new_creates_tables_and_state_is_not_started() {
    let (mut store, ctx) = ctx();
    assert_eq!(
        ctx.migration_state(&mut store, unread(), unread(), 1).unwrap(),
        MigrationState::NotStarted
    );
    assert!(ctx
        .migration_progress(&mut store, unread(), unread(), 1)
        .unwrap()
        .is_none());
}

/// Inserts an active run at `phase` for the fixture's account and returns the context.
fn ctx_with_run_at(phase: Phase) -> (Store, MigrationContext) {
    let (mut store, ctx) = ctx();
    insert_run(
        &mut store,
        &NewRun {
            run_id: "run-phase-test",
            account_uuid: &ctx.account_str(),
            network: ctx.network_str(),
            db_fingerprint: ctx.db_path(),
            phase,
            prep_txid: None,
            target_values: &[],
        },
        1,
    )
    .unwrap();
    (store, ctx)
}

// Regression: a run resumed in a pre-schedule phase (split underway, awaiting confirmation, or
// ready to propose) has NO queued transfers and a spendable Orchard balance by design, so it must
// not classify as "invalid". The balances cannot be read here, which also shows that the
// pre-schedule gate returns before any wallet access.
#[test]
fn has_invalid_transfers_is_false_while_awaiting_denom_confirmations() {
    let (store, ctx) = ctx_with_run_at(Phase::WaitingDenomConfirmations);
    assert_eq!(ctx.has_invalid_transfers(&store, unread()).unwrap(), false);
}

#[test]
fn has_invalid_transfers_is_false_when_ready_to_migrate() {
    let (store, ctx) = ctx_with_run_at(Phase::ReadyToMigrate);
    assert_eq!(ctx.has_invalid_transfers(&store, unread()).unwrap(), false);
}

#[test]
fn has_invalid_transfers_looks_at_the_balance_once_a_schedule_is_due() {
    let (mut store, ctx) = ctx_with_run_at(Phase::BroadcastScheduled);
    assert!(ctx.has_invalid_transfers(&store, holds(1, 0)).unwrap());
    assert!(!ctx.has_invalid_transfers(&store, holds(0, 0)).unwrap());
    assert!(ctx.has_invalid_transfers(&store, unread()).is_err());
    insert_pending_txs(&mut store, "run-phase-test", &[pending("t1", 5, "broadcasted")]);
    assert!(!ctx.has_invalid_transfers(&store, unread()).unwrap());
    mark_pending_status(&mut store, "t1", "confirmed");
    assert!(ctx.has_invalid_transfers(&store, holds(1, 0)).unwrap());
    let (empty, ctx) = ctx_without_run();
    assert!(!ctx.has_invalid_transfers(&empty, unread()).unwrap());
}

fn ctx_without_run() -> (Store, MigrationContext) {
    ctx()
}

fn pending(txid: &str, send_height: u32, status: &str) -> PendingTxRow {
    PendingTxRow {
        txid_hex: txid.to_string(),
        raw_pczt: vec![4, 5],
        anchor_height: 0,
        target_height: send_height,
        next_executable_after_height: send_height,
        expiry_height: send_height + 288,
        value_zatoshi: 100,
        fee_zatoshi: 0,
        selected_note_txid: String::new(),
        selected_note_output_index: 0,
        selected_note_value: 0,
        status: status.to_string(),
        metadata_json: "{}".to_string(),
    }
}

#[test]
fn a_database_that_cannot_be_opened_is_reported() {
    let failed = || Err(rusqlite::Error::QueryReturnedNoRows);
    assert!(matches!(
        MigrationContext::new("x", NetworkType::Test, [0; 16], failed()),
        Err(MigrationError::Db(_))
    ));
    let (_, ctx) = ctx();
    assert!(ctx.initialize_post_upgrade(Ok(())).is_ok());
    assert!(matches!(
        ctx.initialize_post_upgrade(failed()),
        Err(MigrationError::Db(_))
    ));
}

#[test]
fn a_context_knows_its_account_and_network() {
    let (_, ctx) = ctx();
    assert_eq!(ctx.account_str(), "07070707-0707-0707-0707-070707070707");
    assert_eq!(ctx.network_str(), "main");
    assert_eq!(ctx.account(), [7u8; 16]);
    assert_eq!(ctx.db_path(), "wallet.db");
    let test = MigrationContext::new("x", NetworkType::Test, [0; 16], Ok(())).unwrap();
    assert_eq!(test.network_str(), "test");
    let regtest = MigrationContext::new("x", NetworkType::Regtest, [0; 16], Ok(())).unwrap();
    assert_eq!(regtest.network_str(), "regtest");
}

#[test]
fn an_unknown_phase_is_reported() {
    let (store, ctx) = ctx_with_run_at(Phase::Paused);
    let mut runs = store.runs().clone();
    runs[0].phase = "odd".to_string();
    let mut store = Store::from_tables(runs, vec![], vec![], vec![]).unwrap();
    match ctx.migration_state(&mut store, unread(), unread(), 1) {
        Err(MigrationError::InvalidState(InvalidStateError::UnknownPhase(p))) => assert_eq!(p, "odd"),
        other => panic!("{other:?}"),
    }
    // Not known to be before the schedule, so the balance decides.
    assert!(ctx.has_invalid_transfers(&store, holds(3, 0)).unwrap());
}

#[test]
fn progress_counts_confirmed_transfers() {
    let (mut store, ctx) = ctx_with_run_at(Phase::BroadcastScheduled);
    insert_pending_txs(
        &mut store,
        "run-phase-test",
        &[
            pending("a", 300, "scheduled"),
            pending("b", 200, "scheduled"),
            pending("c", 100, "confirmed"),
        ],
    );
    let expected = MigrationProgress {
        completed_transfers: 1,
        total_transfers: 3,
        remaining_orchard: 55,
        next_transfer_ready_at_height: Some(200),
    };
    assert_eq!(
        ctx.migration_state(&mut store, holds(55, 9), unread(), 1).unwrap(),
        MigrationState::InProgress(expected)
    );
    assert_eq!(
        ctx.migration_progress(&mut store, holds(55, 9), unread(), 1).unwrap(),
        Some(expected)
    );
    // A balance that cannot be read counts as none.
    assert_eq!(
        ctx.migration_progress(&mut store, unread(), unread(), 1).unwrap(),
        Some(MigrationProgress { remaining_orchard: 0, ..expected })
    );
}

#[test]
fn a_run_with_all_transfers_confirmed_completes_with_the_balance() {
    let (mut store, ctx) = ctx_with_run_at(Phase::WaitingMigrationConfirmations);
    insert_pending_txs(&mut store, "run-phase-test", &[pending("c", 100, "confirmed")]);
    assert_eq!(
        ctx.migration_state(&mut store, holds(0, 9), unread(), 1).unwrap(),
        MigrationState::Complete
    );
    assert!(matches!(
        ctx.migration_state(&mut store, holds(1, 9), unread(), 1).unwrap(),
        MigrationState::InProgress(_)
    ));
    assert!(matches!(
        ctx.migration_state(&mut store, holds(0, 0), unread(), 1).unwrap(),
        MigrationState::InProgress(_)
    ));
    assert!(ctx.migration_state(&mut store, unread(), unread(), 1).is_err());
    // The run itself is not touched.
    assert_eq!(store.runs()[0].phase, "waiting_migration_confirmations");
}

#[test]
fn a_mined_split_makes_its_run_ready() {
    let (mut store, ctx) = ctx_with_run_at(Phase::PreparingDenominations);
    assert_eq!(ctx.split_txid(&store), None);
    // Without a split transaction there is nothing to ask the wallet for.
    assert_eq!(
        ctx.migration_state(&mut store, unread(), unread(), 5).unwrap(),
        MigrationState::SplitPendingConfirmation
    );
    insert_prep_tx(&mut store, "run-phase-test", "ab", &[1], "pending");
    assert_eq!(ctx.split_txid(&store), Some("ab".to_string()));
    assert!(ctx.migration_state(&mut store, unread(), unread(), 5).is_err());
    assert_eq!(
        ctx.migration_state(&mut store, unread(), Ok(false), 5).unwrap(),
        MigrationState::SplitPendingConfirmation
    );
    assert_eq!(store.runs()[0].phase, "preparing_denominations");
    assert_eq!(
        ctx.migration_state(&mut store, unread(), Ok(true), 5).unwrap(),
        MigrationState::ReadyToPropose
    );
    assert_eq!(store.runs()[0].phase, "ready_to_migrate");
    assert_eq!(store.runs()[0].updated_at_ms, 5);
    assert_eq!(
        ctx.migration_state(&mut store, unread(), unread(), 6).unwrap(),
        MigrationState::ReadyToPropose
    );
    assert_eq!(ctx.split_txid(&store), None);
}

#[test]
fn results_need_an_active_run() {
    let (mut store, ctx) = ctx();
    assert!(matches!(
        ctx.record_transfer_result(&mut store, "x", TransferResult::Expired, 1),
        Err(MigrationError::InvalidState(InvalidStateError::NoActiveRun))
    ));
}

#[test]
fn a_broadcast_transfer_is_not_due_again() {
    let (mut store, ctx) = ctx_with_run_at(Phase::BroadcastScheduled);
    insert_pending_txs(
        &mut store,
        "run-phase-test",
        &[pending("a", 100, "scheduled"), pending("b", 200, "scheduled")],
    );
    let due = ctx.next_due_transfer(&store, Ok((150, 1))).unwrap().unwrap();
    assert_eq!((due.id.as_str(), due.txid.as_str()), ("a", "a"));
    assert_eq!(due.raw_pczt, vec![4, 5]);
    assert!(ctx.has_overdue_transfers(&store, Ok((150, 1))).unwrap());

    // A network error leaves it due.
    ctx.record_transfer_result(
        &mut store,
        "a",
        TransferResult::NetworkError { retryable: true },
        2,
    )
    .unwrap();
    assert!(ctx.has_overdue_transfers(&store, Ok((150, 1))).unwrap());

    ctx.record_transfer_result(
        &mut store,
        "a",
        TransferResult::Success { txid: "a".to_string() },
        2,
    )
    .unwrap();
    assert_eq!(store.pending()[0].tx.status, "broadcasted");
    assert!(ctx.next_due_transfer(&store, Ok((150, 1))).unwrap().is_none());
    assert!(!ctx.has_overdue_transfers(&store, Ok((150, 1))).unwrap());
    assert_eq!(
        ctx.next_due_transfer(&store, Ok((200, 1))).unwrap().unwrap().id,
        "b"
    );
    assert!(matches!(
        ctx.next_due_transfer(&store, Err(MigrationError::NotSynced)),
        Err(MigrationError::NotSynced)
    ));
    assert!(ctx.has_overdue_transfers(&store, unread()).is_err());
}

#[test]
fn the_split_goes_before_any_transfer() {
    let (mut store, ctx) = ctx_with_run_at(Phase::PreparingDenominations);
    insert_pending_txs(&mut store, "run-phase-test", &[pending("a", 100, "scheduled")]);
    insert_prep_tx(&mut store, "run-phase-test", "split", &[9, 9], "pending");
    let due = ctx.next_due_transfer(&store, unread()).unwrap().unwrap();
    assert_eq!(due.id, "prep:run-phase-test");
    assert_eq!(due.txid, "split");
    assert_eq!(due.raw_pczt, vec![9, 9]);
    // Only transfers are overdue, not the split.
    assert!(!ctx.has_overdue_transfers(&store, Ok((99, 1))).unwrap());
    assert!(ctx.has_overdue_transfers(&store, Ok((100, 1))).unwrap());
    assert!(ctx.has_overdue_transfers(&store, unread()).is_err());

    ctx.record_transfer_result(&mut store, &due.id, TransferResult::Expired, 3).unwrap();
    assert_eq!(store.runs()[0].phase, "preparing_denominations");
    ctx.record_transfer_result(
        &mut store,
        &due.id,
        TransferResult::Success { txid: "split".to_string() },
        4,
    )
    .unwrap();
    assert_eq!(store.runs()[0].phase, "waiting_denom_confirmations");
    assert_eq!(prep_tx(&store, "run-phase-test").unwrap().status, "broadcasted");
    assert_eq!(
        ctx.next_due_transfer(&store, Ok((100, 1))).unwrap().unwrap().id,
        "a"
    );
}

#[test]
fn failures_ask_for_attention() {
    let (mut store, ctx) = ctx_with_run_at(Phase::BroadcastScheduled);
    ctx.record_transfer_result(&mut store, "ab-1", TransferResult::InvalidNote, 2).unwrap();
    assert_eq!(
        store.runs()[0].last_error.as_deref(),
        Some("invalid note for transfer ab-1")
    );
    assert_eq!(
        ctx.migration_state(&mut store, unread(), unread(), 2).unwrap(),
        MigrationState::RequiresAttention(AttentionReason::InvalidTransfer {
            transfer_id: "ab-1".to_string()
        })
    );
    ctx.record_transfer_result(&mut store, "ab-1", TransferResult::Expired, 3).unwrap();
    assert_eq!(
        store.runs()[0].last_error.as_deref(),
        Some("transfer ab-1 expired")
    );
    assert_eq!(
        ctx.migration_state(&mut store, unread(), unread(), 3).unwrap(),
        MigrationState::RequiresAttention(AttentionReason::TransferExpired)
    );
    // The error of a run that has not failed is not shown.
    set_phase(&mut store, "run-phase-test", Phase::Paused, Some("invalid note"), 4);
    assert_eq!(
        ctx.migration_state(&mut store, unread(), unread(), 4).unwrap(),
        MigrationState::RequiresAttention(AttentionReason::TransferExpired)
    );
}

#[test]
fn a_split_is_needed_until_a_run_is_prepared() {
    let (store, ctx) = ctx();
    assert!(ctx.is_note_split_needed(&store, holds(1, 0)).unwrap());
    assert!(!ctx.is_note_split_needed(&store, holds(0, 5)).unwrap());
    assert!(ctx.is_note_split_needed(&store, unread()).is_err());
    let (store, ctx) = ctx_with_run_at(Phase::ReadyToPrepare);
    assert!(ctx.is_note_split_needed(&store, holds(1, 0)).unwrap());
    // A split that is underway is not confirmed yet.
    for phase in [Phase::PreparingDenominations, Phase::WaitingDenomConfirmations] {
        let (store, ctx) = ctx_with_run_at(phase);
        assert!(ctx.is_note_split_needed(&store, holds(1, 0)).unwrap());
        assert!(!ctx.is_note_split_needed(&store, holds(0, 5)).unwrap());
        assert!(ctx.is_note_split_needed(&store, unread()).is_err());
    }
    let (store, ctx) = ctx_with_run_at(Phase::ReadyToMigrate);
    assert!(!ctx.is_note_split_needed(&store, unread()).unwrap());
}

#[test]
fn a_split_is_planned_with_its_exact_fee() {
    let (_, ctx) = ctx();
    let note = |value, version| SpendableNote { position: 0, value, version };
    let notes = vec![
        note(1_000_000_000, NoteVersion::V2),
        note(234_500_000, NoteVersion::V2),
        note(5, NoteVersion::V3),
    ];
    let proposal = ctx
        .prepare_note_split(holds(1_234_500_000, 0), Ok((10, 5)), Ok(notes))
        .unwrap();
    assert_eq!(
        proposal,
        NoteSplitProposal {
            output_notes: vec![1_000_020_000, 100_020_000, 100_020_000],
            fee: 25_000,
        }
    );
    // One spend at least is charged for.
    let proposal = ctx
        .prepare_note_split(holds(1_234_500_000, 0), Ok((10, 5)), Ok(vec![]))
        .unwrap();
    assert_eq!(proposal.fee, 20_000);
    assert!(matches!(
        ctx.prepare_note_split(holds(1_000, 0), Err(MigrationError::NotSynced), Ok(vec![])),
        Err(MigrationError::NotSynced)
    ));
    assert!(ctx.prepare_note_split(unread(), Ok((10, 5)), Ok(vec![])).is_err());
    match ctx.prepare_note_split(holds(0, 0), Ok((10, 5)), Ok(vec![])) {
        Err(MigrationError::Pipeline(m)) => assert_eq!(m, "note split: no spendable Orchard balance"),
        other => panic!("{other:?}"),
    }
    match ctx.prepare_note_split(holds(9_999_999_950_000_000, 0), unread(), Ok(vec![])) {
        Err(MigrationError::Pipeline(m)) => assert!(m.contains("above the 64 note limit")),
        other => panic!("{other:?}"),
    }
}

#[test]
fn a_private_migration_is_scheduled_by_crossing_values() {
    let (_, ctx) = ctx();
    let schedule = ctx
        .propose_migration_transfers(Ok((1000, 2_880_290)), holds(1_234_500_000, 0))
        .unwrap();
    let amounts: Vec<u64> = schedule.transfers.iter().map(|t| t.amount).collect();
    assert_eq!(amounts, vec![1_000_000_000, 100_000_000, 100_000_000]);
    assert_eq!(schedule.estimated_duration_hours, 18);
    assert_eq!(schedule.transfers[0].next_executable_after_height, 1288);
    assert_eq!(schedule.transfers[0].anchor_height, 2_880_288);
    let id = &schedule.transfers[0].id;
    assert!(id.ends_with("-0"));
    assert!(uuid::Uuid::parse_str(&id[..36]).is_ok());
    let named = ctx
        .private_schedule("run", Ok((1000, 2_880_290)), holds(1_234_500_000, 0))
        .unwrap();
    assert_eq!(named.transfers[2].id, "run-2");
    assert!(ctx.propose_migration_transfers(unread(), holds(1, 0)).is_err());
    assert!(ctx.propose_migration_transfers(Ok((1, 1)), unread()).is_err());
}

#[test]
fn an_immediate_migration_sweeps_all_but_the_fee() {
    let (_, ctx) = ctx();
    let short = SweepProbe::InsufficientFunds { available: 500_000, required: 515_000 };
    let schedule = ctx
        .propose_immediate_migration_transfers(Ok((1000, 2000)), holds(500_000, 0), Ok(short))
        .unwrap();
    assert_eq!(schedule.transfers.len(), 1);
    assert_eq!(schedule.transfers[0].amount, 485_000);
    assert_eq!(schedule.transfers[0].next_executable_after_height, 1000);
    assert_eq!(schedule.estimated_duration_hours, 0);

    let none = ctx
        .immediate_schedule("r", Ok((1000, 2000)), holds(0, 0), unread())
        .unwrap();
    assert!(none.transfers.is_empty());
    let dust = ctx
        .immediate_schedule(
            "r",
            Ok((1000, 2000)),
            holds(9_000, 0),
            Ok(SweepProbe::Proposed { fee: 10_000 }),
        )
        .unwrap();
    assert!(dust.transfers.is_empty());
    assert!(ctx
        .immediate_schedule("r", Ok((1000, 2000)), holds(9_000, 0), unread())
        .is_err());
}

#[test]
fn sweeping_tells_outcomes_apart() {
    assert_eq!(sweep_crossing_value(0, unread()).unwrap(), None);
    assert_eq!(
        sweep_crossing_value(100, Ok(SweepProbe::Proposed { fee: 15 })).unwrap(),
        Some(85)
    );
    assert_eq!(
        sweep_crossing_value(100, Ok(SweepProbe::Proposed { fee: 100 })).unwrap(),
        None
    );
    assert_eq!(
        sweep_crossing_value(
            100,
            Ok(SweepProbe::InsufficientFunds { available: 100, required: 130 })
        )
        .unwrap(),
        Some(70)
    );
    assert_eq!(
        sweep_crossing_value(
            100,
            Ok(SweepProbe::InsufficientFunds { available: 100, required: 90 })
        )
        .unwrap(),
        Some(100)
    );
    match sweep_crossing_value(100, Ok(SweepProbe::Failed("bad".to_string()))) {
        Err(MigrationError::Pipeline(m)) => assert_eq!(m, "immediate sweep probe: bad"),
        other => panic!("{other:?}"),
    }
}

#[test]
fn wallet_readings_are_told_apart() {
    let unknown = || zcash_client_sqlite::error::SqliteClientError::AccountUnknown;
    let row = |n: u8| AccountBalances {
        account: [n; 16],
        balances: PoolBalances { orchard_spendable: n as u64, ironwood_total: 2 * n as u64 },
    };
    assert!(matches!(
        pool_balances(Err(unknown()), [1; 16]),
        Err(MigrationError::Backend(_))
    ));
    assert!(matches!(pool_balances(Ok(None), [1; 16]), Err(MigrationError::NotSynced)));
    assert!(matches!(
        pool_balances(Ok(Some(vec![row(1), row(2)])), [3; 16]),
        Err(MigrationError::InvalidState(InvalidStateError::NotApplicable("unknown account")))
    ));
    assert_eq!(
        pool_balances(Ok(Some(vec![row(1), row(2)])), [2; 16]).unwrap(),
        PoolBalances { orchard_spendable: 2, ironwood_total: 4 }
    );
    assert!(matches!(target_and_anchor(Err(unknown())), Err(MigrationError::Backend(_))));
    assert!(matches!(target_and_anchor(Ok(None)), Err(MigrationError::NotSynced)));
    assert_eq!(target_and_anchor(Ok(Some((7, 3)))).unwrap(), (7, 3));
    let txid = "ab".repeat(32);
    assert!(is_tx_mined(&txid, Ok(Some(9))).unwrap());
    assert!(!is_tx_mined(&txid, Ok(None)).unwrap());
    assert!(is_tx_mined(&txid, Err(unknown())).is_err());
    assert!(!is_tx_mined("nonsense", Err(unknown())).unwrap());
}

fn usk() -> Vec<u8> {
    UnifiedSpendingKey::from_seed(
        &zcash_protocol::consensus::Network::MainNetwork,
        &[3u8; 32],
        0u32.try_into().unwrap(),
    )
    .unwrap()
    .to_bytes(Era::Orchard)
    .expose_secret()
    .clone()
}

fn signed(n: u8) -> SignedPczt {
    SignedPczt { txid: [n; 32], raw_pczt: vec![n, n] }
}

#[test]
fn a_split_is_stored_with_its_notes() {
    let (mut store, ctx) = ctx();
    let proposal = NoteSplitProposal { output_notes: vec![100_020_000, 50], fee: 1 };
    assert!(matches!(
        ctx.sign_note_split(&mut store, &proposal, &[1, 2, 3], 7),
        Err(MigrationError::Pipeline(m)) if m.starts_with("invalid unified spending key: ")
    ));
    assert!(store.runs().is_empty());

    let signing = ctx.sign_note_split(&mut store, &proposal, &usk(), 7).unwrap();
    assert_eq!(signing.outputs, vec![100_020_000, 50]);
    assert!(signing.locks.is_empty());
    assert_eq!(store.runs().len(), 1);
    assert_eq!(store.runs()[0].run_id, signing.run_id);
    assert_eq!(store.runs()[0].phase, "preparing_denominations");
    assert_eq!(store.runs()[0].target_values_json, "[100020000,50]");
    assert_eq!(store.runs()[0].db_fingerprint, "wallet.db");

    let tx = ctx.record_note_split(&mut store, &signing.run_id, &[(3, 100_020_000), (0, 50)], signed(0xab));
    assert_eq!(tx.id, format!("prep:{}", signing.run_id));
    assert_eq!(tx.txid, "ab".repeat(32));
    assert_eq!(tx.raw_pczt, vec![0xab, 0xab]);
    assert_eq!(prep_tx(&store, &signing.run_id).unwrap().status, "pending");
    assert_eq!(store.notes().len(), 2);
    assert_eq!(store.notes()[0].note.output_index, 3);
    assert_eq!(store.notes()[0].note.value_zatoshi, 100_020_000);
    assert_eq!(store.notes()[0].note.note_version, 2);
    assert_eq!(ctx.next_due_transfer(&store, unread()).unwrap().unwrap(), tx);

    // Another split must leave those notes alone; the run's own schedule may spend them.
    let other = ctx.begin_note_split(&mut store, "other", &proposal, &usk(), 8).unwrap();
    assert_eq!(other.locks.len(), 2);
    assert!(matches!(
        ctx.begin_note_split(&mut store, "other", &proposal, &usk(), 9),
        Err(MigrationError::Db(_))
    ));
}

fn schedule() -> MigrationSchedule {
    let transfer = |id: &str, amount, height| TransferProposal {
        id: id.to_string(),
        amount,
        anchor_height: 288,
        next_executable_after_height: height,
        expiry_height: height + 288,
    };
    MigrationSchedule {
        transfers: vec![transfer("r-0", 10, 1000), transfer("r-1", 20, 1288)],
        estimated_duration_hours: 12,
    }
}

#[test]
fn a_schedule_is_signed_transfer_by_transfer() {
    let (mut store, ctx) = ctx();
    assert!(ctx
        .sign_and_store_migration_schedule(&mut store, &schedule(), &[], Ok((900, 800)), 5)
        .is_err());
    assert!(store.runs().is_empty());

    // Without heights the run is there, but nothing is signed.
    assert!(matches!(
        ctx.begin_schedule(&mut store, "fresh", &schedule(), &usk(), Err(MigrationError::NotSynced), 5),
        Err(MigrationError::NotSynced)
    ));
    assert_eq!(store.runs()[0].run_id, "fresh");
    assert_eq!(store.runs()[0].phase, "ready_to_migrate");

    let mut signing = ctx
        .sign_and_store_migration_schedule(&mut store, &schedule(), &usk(), Ok((900, 800)), 6)
        .unwrap();
    assert_eq!(signing.run_id, "fresh");
    assert_eq!(signing.target_height, 900);
    assert_eq!(signing.next_transfer().unwrap().id, "r-0");
    signing.record_next(&mut store, signed(1), &[("AA".to_string(), 1)]);
    assert_eq!(signing.next_transfer().unwrap().id, "r-1");
    assert_eq!(store.runs()[0].phase, "ready_to_migrate");
    signing.record_next(&mut store, signed(2), &[("bb".to_string(), 0)]);
    assert!(signing.next_transfer().is_none());
    signing.finish(&mut store, 7);
    assert_eq!(store.runs()[0].phase, "broadcast_scheduled");
    assert_eq!(store.pending().len(), 2);
    let row = &store.pending()[1].tx;
    assert_eq!(row.txid_hex, "02".repeat(32));
    assert_eq!(row.value_zatoshi, 20);
    assert_eq!(row.next_executable_after_height, 1288);
    assert_eq!(row.target_height, 1288);
    assert_eq!(row.expiry_height, 1576);
    assert_eq!(row.anchor_height, 288);
    assert_eq!(row.status, "scheduled");
    assert_eq!(row.metadata_json, "{}");
    assert_eq!(
        ctx.next_due_transfer(&store, Ok((1000, 1))).unwrap().unwrap().raw_pczt,
        vec![1, 1]
    );
    assert!(matches!(
        ctx.migration_state(&mut store, holds(30, 0), unread(), 8).unwrap(),
        MigrationState::InProgress(p) if p.total_transfers == 2 && p.completed_transfers == 0
    ));
}

#[test]
fn refreshing_clears_and_signs_anew() {
    let (mut store, ctx) = ctx_with_run_at(Phase::BroadcastScheduled);
    insert_pending_txs(
        &mut store,
        "run-phase-test",
        &[pending("a", 100, "scheduled"), pending("b", 50, "broadcasted")],
    );
    let (count, signing) = ctx
        .refresh_stale_transfers(&mut store, Ok((900, 800)), holds(1_234_500_000, 0), &usk(), 5)
        .unwrap();
    assert_eq!(count, 3);
    assert_eq!(signing.run_id, "run-phase-test");
    assert_eq!(signing.transfers.len(), 3);
    assert_eq!(store.pending().len(), 1);
    assert_eq!(store.pending()[0].tx.txid_hex, "b");
    assert!(ctx
        .refresh_stale_transfers(&mut store, unread(), holds(1, 0), &usk(), 5)
        .is_err());
    assert!(ctx
        .refresh_stale_transfers(&mut store, Ok((900, 800)), holds(1, 0), &[], 5)
        .is_err());
}

#[test]
fn restarting_clears_the_scheduled_transfers() {
    let (mut store, ctx) = ctx_with_run_at(Phase::FailedRecoverable);
    insert_pending_txs(
        &mut store,
        "run-phase-test",
        &[pending("a", 100, "scheduled"), pending("b", 50, "confirmed")],
    );
    let schedule = ctx
        .restart_current_migration_step(&mut store, Ok((900, 800)), holds(100_030_000, 0))
        .unwrap();
    assert_eq!(schedule.transfers.len(), 1);
    assert!(ctx.next_due_transfer(&store, Ok((u32::MAX, 1))).unwrap().is_none());
    assert_eq!(store.pending().len(), 1);
    // What was cleared stays cleared where proposing fails.
    insert_pending_txs(&mut store, "run-phase-test", &[pending("c", 100, "scheduled")]);
    assert!(ctx
        .restart_current_migration_step(&mut store, unread(), holds(1, 0))
        .is_err());
    assert_eq!(store.pending().len(), 1);
}

#[test]
fn no_sync_is_required_between_transfers() {
    let (_, ctx) = ctx();
    assert!(!ctx.is_sync_required_before_next_transfer().unwrap());
}
