use zodl_ironwood_migration::rows::{
    PendingTotals, PendingTxRow, PreparedNote, StoredNote, StoredPending, StoredRun,
};
use zodl_ironwood_migration::state::Phase;
use zodl_ironwood_migration::store::{
    active_run, broadcasted_txids, clear_scheduled_pending, init, insert_pending_txs,
    insert_prep_tx, insert_prepared_notes, insert_run, locked_note_refs, mark_pending_status,
    next_due_transfer, next_scheduled_send_height, pending_totals, prep_tx, run_by_id, set_phase,
    set_prep_tx_status, NewRun, Store,
};

fn db() -> Store {
    init()
}

fn sample_run(conn: &mut Store, run_id: &str, phase: Phase) {
    insert_run(
        conn,
        &NewRun {
            run_id,
            account_uuid: "acct",
            network: "main",
            db_fingerprint: "fp",
            phase,
            prep_txid: None,
            target_values: &[100_000_000, 200_000_000],
        },
        1,
    )
    .unwrap();
}

fn note(txid: &str, index: u32, lock_state: &str) -> PreparedNote {
    PreparedNote {
        txid_hex: txid.to_string(),
        output_index: index,
        value_zatoshi: 1,
        note_version: 3,
        nullifier_hex: None,
        lock_state: lock_state.to_string(),
    }
}

fn pending(txid: &str, send_height: u32, status: &str) -> PendingTxRow {
    PendingTxRow {
        txid_hex: txid.to_string(),
        raw_pczt: vec![1, 2, 3],
        anchor_height: 2_880_000,
        target_height: 1000,
        next_executable_after_height: send_height,
        expiry_height: send_height + 288,
        value_zatoshi: 100,
        fee_zatoshi: 10,
        selected_note_txid: "note".to_string(),
        selected_note_output_index: 0,
        selected_note_value: 110,
        status: status.to_string(),
        metadata_json: "{}".to_string(),
    }
}

#[test]
fn insert_and_read_run_round_trips() {
    let mut conn = db();
    sample_run(&mut conn, "r1", Phase::ReadyToMigrate);
    let row = run_by_id(&conn, "r1").unwrap();
    assert_eq!(row.run_id, "r1");
    assert_eq!(row.account_uuid, "acct");
    assert_eq!(row.phase, "ready_to_migrate");
    assert_eq!(row.target_values, vec![100_000_000, 200_000_000]);
    assert_eq!(row.last_error, None);
}

#[test]
fn run_by_id_is_none_when_absent() {
    let conn = db();
    assert!(run_by_id(&conn, "missing").is_none());
}

#[test]
fn active_run_excludes_terminal_phases() {
    let mut conn = db();
    sample_run(&mut conn, "done", Phase::Complete);
    assert!(active_run(&conn, "acct", "main").is_none());
    sample_run(&mut conn, "live", Phase::BroadcastScheduled);
    assert_eq!(
        active_run(&conn, "acct", "main").unwrap().run_id,
        "live"
    );
}

#[test]
fn set_phase_updates_phase_and_error() {
    let mut conn = db();
    sample_run(&mut conn, "r1", Phase::BroadcastScheduled);
    set_phase(&mut conn, "r1", Phase::FailedRecoverable, Some("tx expired"), 2);
    let row = run_by_id(&conn, "r1").unwrap();
    assert_eq!(row.phase, "failed_recoverable");
    assert_eq!(row.last_error.as_deref(), Some("tx expired"));
}

#[test]
fn locked_note_refs_returns_lowercased_locked_notes_of_live_runs() {
    let mut conn = db();
    sample_run(&mut conn, "live", Phase::BroadcastScheduled);
    insert_prepared_notes(
        &mut conn,
        "live",
        &[note("AABB", 0, "locked"), note("CCDD", 2, "unlocked")],
    );
    let refs = locked_note_refs(&conn, "acct", None);
    assert!(refs.contains(&("aabb".to_string(), 0)));
    assert!(!refs.contains(&("ccdd".to_string(), 2)));
}

#[test]
fn locked_note_refs_excludes_terminal_runs() {
    let mut conn = db();
    sample_run(&mut conn, "done", Phase::Complete);
    insert_prepared_notes(&mut conn, "done", &[note("AABB", 0, "locked")]);
    assert!(locked_note_refs(&conn, "acct", None).is_empty());
}

#[test]
fn broadcasted_txids_returns_only_broadcasted_rows_of_the_run() {
    let mut conn = db();
    sample_run(&mut conn, "r1", Phase::BroadcastScheduled);
    insert_pending_txs(
        &mut conn,
        "r1",
        &[
            pending("t1", 1000, "broadcasted"),
            pending("t2", 1300, "scheduled"),
            pending("t3", 1600, "confirmed"),
        ],
    );
    assert_eq!(broadcasted_txids(&conn, "r1"), vec!["t1".to_string()]);
    assert!(broadcasted_txids(&conn, "other").is_empty());
}

// Regression: a run's own locked notes must not be excluded from its own operations — the
// schedule transfers spend exactly the notes the split prepared. Other live runs' notes stay
// locked.
#[test]
fn locked_note_refs_excludes_the_callers_own_run() {
    let mut conn = db();
    sample_run(&mut conn, "mine", Phase::ReadyToMigrate);
    sample_run(&mut conn, "other", Phase::BroadcastScheduled);
    insert_prepared_notes(&mut conn, "mine", &[note("AABB", 0, "locked")]);
    insert_prepared_notes(&mut conn, "other", &[note("CCDD", 1, "locked")]);
    let refs = locked_note_refs(&conn, "acct", Some("mine"));
    assert!(!refs.contains(&("aabb".to_string(), 0)));
    assert!(refs.contains(&("ccdd".to_string(), 1)));
}

#[test]
fn next_due_returns_earliest_scheduled_at_or_below_tip() {
    let mut conn = db();
    sample_run(&mut conn, "r1", Phase::BroadcastScheduled);
    insert_pending_txs(
        &mut conn,
        "r1",
        &[
            pending("t2", 2000, "scheduled"),
            pending("t1", 1500, "scheduled"),
            pending("t3", 5000, "scheduled"),
        ],
    );
    assert_eq!(
        next_due_transfer(&conn, "r1", 1800)
            .unwrap()
            .txid_hex,
        "t1"
    );
    assert_eq!(
        next_due_transfer(&conn, "r1", 4000)
            .unwrap()
            .txid_hex,
        "t1"
    );
    assert!(next_due_transfer(&conn, "r1", 100).is_none());
}

#[test]
fn next_due_skips_non_scheduled() {
    let mut conn = db();
    sample_run(&mut conn, "r1", Phase::BroadcastScheduled);
    insert_pending_txs(&mut conn, "r1", &[pending("t1", 1500, "broadcasted")]);
    assert!(next_due_transfer(&conn, "r1", 9999).is_none());
}

#[test]
fn next_due_round_trips_all_fields() {
    let mut conn = db();
    sample_run(&mut conn, "r1", Phase::BroadcastScheduled);
    let row = pending("t1", 1500, "scheduled");
    insert_pending_txs(&mut conn, "r1", std::slice::from_ref(&row));
    let got = next_due_transfer(&conn, "r1", 9999).unwrap();
    assert_eq!(got, row);
}

#[test]
fn next_scheduled_send_height_returns_min_or_none() {
    let mut conn = db();
    sample_run(&mut conn, "r1", Phase::BroadcastScheduled);
    assert_eq!(next_scheduled_send_height(&conn, "r1"), None);
    insert_pending_txs(
        &mut conn,
        "r1",
        &[
            pending("t1", 2000, "scheduled"),
            pending("t2", 1500, "scheduled"),
            pending("t3", 999, "broadcasted"),
        ],
    );
    assert_eq!(next_scheduled_send_height(&conn, "r1"), Some(1500));
}

#[test]
fn mark_pending_status_transitions() {
    let mut conn = db();
    sample_run(&mut conn, "r1", Phase::BroadcastScheduled);
    insert_pending_txs(&mut conn, "r1", &[pending("t1", 1500, "scheduled")]);
    mark_pending_status(&mut conn, "t1", "broadcasted");
    assert!(next_due_transfer(&conn, "r1", 9999).is_none());
    let totals = pending_totals(&conn, "r1");
    assert_eq!(totals.broadcasted, 1);
    assert_eq!(totals.scheduled, 0);
}

#[test]
fn pending_totals_counts_by_status() {
    let mut conn = db();
    sample_run(&mut conn, "r1", Phase::BroadcastScheduled);
    insert_pending_txs(
        &mut conn,
        "r1",
        &[
            pending("t1", 1, "confirmed"),
            pending("t2", 2, "scheduled"),
            pending("t3", 3, "scheduled"),
        ],
    );
    let t = pending_totals(&conn, "r1");
    assert_eq!(t.confirmed, 1);
    assert_eq!(t.scheduled, 2);
    assert_eq!(t.broadcasted, 0);
    assert_eq!(t.total, 3);
}

#[test]
fn clear_scheduled_pending_removes_only_scheduled() {
    let mut conn = db();
    sample_run(&mut conn, "r1", Phase::FailedRecoverable);
    insert_pending_txs(
        &mut conn,
        "r1",
        &[
            pending("t1", 1, "scheduled"),
            pending("t2", 2, "broadcasted"),
        ],
    );
    assert_eq!(clear_scheduled_pending(&mut conn, "r1"), 1);
    let t = pending_totals(&conn, "r1");
    assert_eq!(t.scheduled, 0);
    assert_eq!(t.broadcasted, 1);
}

#[test]
fn prep_tx_insert_get_and_status() {
    let mut conn = db();
    sample_run(&mut conn, "r1", Phase::PreparingDenominations);
    insert_prep_tx(&mut conn, "r1", "txid1", &[9, 9, 9], "pending");
    let p = prep_tx(&conn, "r1").unwrap();
    assert_eq!(p.txid_hex, "txid1");
    assert_eq!(p.raw_pczt, vec![9, 9, 9]);
    assert_eq!(p.status, "pending");
    set_prep_tx_status(&mut conn, "r1", "broadcasted");
    assert_eq!(prep_tx(&conn, "r1").unwrap().status, "broadcasted");
}

fn run_at(conn: &mut Store, run_id: &str, account: &str, now: i64) {
    insert_run(
        conn,
        &NewRun {
            run_id,
            account_uuid: account,
            network: "main",
            db_fingerprint: "fp",
            phase: Phase::BroadcastScheduled,
            prep_txid: Some("aa"),
            target_values: &[],
        },
        now,
    )
    .unwrap();
}

#[test]
fn a_run_id_is_taken_once() {
    let mut conn = db();
    sample_run(&mut conn, "r1", Phase::ReadyToMigrate);
    let again = insert_run(
        &mut conn,
        &NewRun {
            run_id: "r1",
            account_uuid: "other",
            network: "test",
            db_fingerprint: "fp",
            phase: Phase::Complete,
            prep_txid: None,
            target_values: &[],
        },
        5,
    );
    // It is the error that the database itself would report.
    let database = rusqlite::Connection::open_in_memory().unwrap();
    database
        .execute_batch("CREATE TABLE ext_ironwood_migration_runs (run_id TEXT PRIMARY KEY)")
        .unwrap();
    let insert = "INSERT INTO ext_ironwood_migration_runs (run_id) VALUES ('r1')";
    database.execute(insert, []).unwrap();
    let reported = database.execute(insert, []).unwrap_err();
    let error = again.unwrap_err();
    assert_eq!(error.to_string(), reported.to_string());
    assert_eq!(error, reported);
    assert_eq!(
        error.sqlite_error_code(),
        Some(rusqlite::ErrorCode::ConstraintViolation)
    );
    assert_eq!(conn.runs().len(), 1);
    assert_eq!(run_by_id(&conn, "r1").unwrap().account_uuid, "acct");
}

#[test]
fn a_stored_run_keeps_all_its_fields() {
    let mut conn = db();
    run_at(&mut conn, "r1", "acct", 42);
    assert_eq!(
        conn.runs()[0],
        StoredRun {
            run_id: "r1".to_string(),
            account_uuid: "acct".to_string(),
            network: "main".to_string(),
            db_fingerprint: "fp".to_string(),
            phase: "broadcast_scheduled".to_string(),
            created_at_ms: 42,
            updated_at_ms: 42,
            prep_txid: Some("aa".to_string()),
            target_values_json: "[]".to_string(),
            last_error: None,
        }
    );
    sample_run(&mut conn, "r2", Phase::Paused);
    assert_eq!(conn.runs()[1].target_values_json, "[100000000,200000000]");
}

#[test]
fn the_newest_live_run_is_active() {
    let mut conn = db();
    run_at(&mut conn, "old", "acct", 10);
    run_at(&mut conn, "new", "acct", 30);
    run_at(&mut conn, "mid", "acct", 20);
    run_at(&mut conn, "foreign", "other", 99);
    assert_eq!(active_run(&conn, "acct", "main").unwrap().run_id, "new");
    assert!(active_run(&conn, "acct", "test").is_none());
    // Of two runs created at one time the one stored last is active.
    run_at(&mut conn, "newer", "acct", 30);
    assert_eq!(active_run(&conn, "acct", "main").unwrap().run_id, "newer");
    // A finished run makes room for the one before it.
    set_phase(&mut conn, "newer", Phase::Abandoned, None, 31);
    set_phase(&mut conn, "new", Phase::FailedTerminal, None, 31);
    assert_eq!(active_run(&conn, "acct", "main").unwrap().run_id, "mid");
}

#[test]
fn setting_a_phase_touches_one_run() {
    let mut conn = db();
    run_at(&mut conn, "a", "acct", 1);
    run_at(&mut conn, "b", "acct", 2);
    set_phase(&mut conn, "a", Phase::Paused, Some("why"), 9);
    set_phase(&mut conn, "missing", Phase::Paused, None, 9);
    assert_eq!(conn.runs()[0].phase, "paused");
    assert_eq!(conn.runs()[0].updated_at_ms, 9);
    assert_eq!(conn.runs()[0].created_at_ms, 1);
    assert_eq!(conn.runs()[1].phase, "broadcast_scheduled");
    assert_eq!(conn.runs()[1].updated_at_ms, 2);
}

#[test]
fn finishing_a_run_releases_its_notes_alone() {
    let mut conn = db();
    sample_run(&mut conn, "one", Phase::BroadcastScheduled);
    sample_run(&mut conn, "two", Phase::BroadcastScheduled);
    insert_prepared_notes(&mut conn, "one", &[note("AA", 0, "locked")]);
    insert_prepared_notes(&mut conn, "two", &[note("BB", 0, "locked")]);
    assert_eq!(locked_note_refs(&conn, "acct", None).len(), 2);
    set_phase(&mut conn, "one", Phase::Complete, None, 3);
    assert_eq!(
        locked_note_refs(&conn, "acct", None),
        vec![("bb".to_string(), 0)]
    );
    assert!(locked_note_refs(&conn, "other", None).is_empty());
}

#[test]
fn a_reference_is_listed_once() {
    let mut conn = db();
    sample_run(&mut conn, "one", Phase::BroadcastScheduled);
    sample_run(&mut conn, "two", Phase::BroadcastScheduled);
    insert_prepared_notes(&mut conn, "one", &[note("AA", 0, "locked")]);
    insert_prepared_notes(&mut conn, "two", &[note("aa", 0, "locked")]);
    assert_eq!(
        locked_note_refs(&conn, "acct", None),
        vec![("aa".to_string(), 0)]
    );
}

#[test]
fn notes_of_no_run_are_not_locked() {
    let mut conn = db();
    insert_prepared_notes(&mut conn, "ghost", &[note("AA", 0, "locked")]);
    assert!(locked_note_refs(&conn, "acct", None).is_empty());
}

#[test]
fn inserting_again_replaces() {
    let mut conn = db();
    sample_run(&mut conn, "r1", Phase::BroadcastScheduled);
    insert_pending_txs(
        &mut conn,
        "r1",
        &[pending("t1", 10, "scheduled"), pending("t2", 20, "scheduled")],
    );
    insert_pending_txs(&mut conn, "r1", &[pending("t1", 30, "scheduled")]);
    assert_eq!(conn.pending().len(), 2);
    assert_eq!(next_due_transfer(&conn, "r1", 99).unwrap().txid_hex, "t2");

    insert_prepared_notes(&mut conn, "r1", &[note("AA", 0, "locked")]);
    insert_prepared_notes(&mut conn, "r1", &[note("AA", 0, "unlocked")]);
    assert_eq!(conn.notes().len(), 1);
    assert!(locked_note_refs(&conn, "acct", None).is_empty());

    insert_prep_tx(&mut conn, "r1", "x", &[1], "pending");
    insert_prep_tx(&mut conn, "r1", "y", &[2], "pending");
    assert_eq!(conn.prep().len(), 1);
    assert_eq!(prep_tx(&conn, "r1").unwrap().txid_hex, "y");
}

#[test]
fn due_transfers_of_one_height_go_by_transaction_id() {
    let mut conn = db();
    sample_run(&mut conn, "r1", Phase::BroadcastScheduled);
    insert_pending_txs(
        &mut conn,
        "r1",
        &[
            pending("b", 10, "scheduled"),
            pending("ab", 10, "scheduled"),
            pending("a", 10, "scheduled"),
            pending("Z", 11, "scheduled"),
        ],
    );
    assert_eq!(next_due_transfer(&conn, "r1", 10).unwrap().txid_hex, "a");
    mark_pending_status(&mut conn, "a", "broadcasted");
    assert_eq!(next_due_transfer(&conn, "r1", 10).unwrap().txid_hex, "ab");
    assert!(next_due_transfer(&conn, "r2", 10).is_none());
}

#[test]
fn clearing_leaves_other_runs_alone() {
    let mut conn = db();
    insert_pending_txs(&mut conn, "r1", &[pending("t1", 1, "scheduled")]);
    insert_pending_txs(
        &mut conn,
        "r2",
        &[pending("t2", 1, "scheduled"), pending("t3", 1, "confirmed")],
    );
    assert_eq!(clear_scheduled_pending(&mut conn, "r1"), 1);
    assert_eq!(clear_scheduled_pending(&mut conn, "r1"), 0);
    assert_eq!(
        pending_totals(&conn, "r2"),
        PendingTotals { scheduled: 1, broadcasted: 0, confirmed: 1, total: 2 }
    );
}

#[test]
fn a_status_outside_the_known_ones_counts_in_the_total() {
    let mut conn = db();
    insert_pending_txs(&mut conn, "r1", &[pending("t1", 1, "odd")]);
    assert_eq!(
        pending_totals(&conn, "r1"),
        PendingTotals { scheduled: 0, broadcasted: 0, confirmed: 0, total: 1 }
    );
}

fn stored_note(run: &str, txid: &str, index: u32) -> StoredNote {
    StoredNote { run_id: run.to_string(), note: note(txid, index, "locked") }
}

#[test]
fn tables_with_a_repeated_key_are_refused() {
    let mut conn = db();
    sample_run(&mut conn, "r1", Phase::Paused);
    let runs = conn.runs().clone();
    let twice = vec![runs[0].clone(), runs[0].clone()];
    assert!(Store::from_tables(twice, vec![], vec![], vec![]).is_none());

    let notes = vec![stored_note("r1", "a", 0), stored_note("r1", "a", 1), stored_note("r2", "a", 0)];
    assert!(Store::from_tables(runs.clone(), notes.clone(), vec![], vec![]).is_some());
    let mut again = notes.clone();
    again.push(stored_note("r1", "a", 1));
    assert!(Store::from_tables(runs.clone(), again, vec![], vec![]).is_none());

    let tx = |run: &str| StoredPending { run_id: run.to_string(), tx: pending("t", 1, "scheduled") };
    assert!(Store::from_tables(vec![], vec![], vec![], vec![tx("r1"), tx("r2")]).is_none());

    insert_prep_tx(&mut conn, "r1", "x", &[1], "pending");
    let prep = conn.prep().clone();
    let store = Store::from_tables(runs.clone(), notes, prep.clone(), vec![tx("r1")]).unwrap();
    assert_eq!(store.runs(), &runs);
    assert_eq!(store.prep(), &prep);
    let mut again = prep.clone();
    again.extend(prep);
    assert!(Store::from_tables(runs, vec![], again, vec![]).is_none());
}
