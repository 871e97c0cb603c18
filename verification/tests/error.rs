use zodl_ironwood_migration::error::{pipeline_error, InvalidStateError, MigrationError};

#[test]
fn error_codes_are_stable_and_display_readable() {
    assert_eq!(MigrationError::NotSynced.error_code(), 1);
    assert_eq!(MigrationError::NotInitialized.error_code(), 2);
    let e = MigrationError::InvalidState(InvalidStateError::NoActiveRun);
    assert_eq!(e.error_code(), 3);
    assert!(e.to_string().to_lowercase().contains("no active"));
    let db: MigrationError = rusqlite::Error::QueryReturnedNoRows.into();
    assert_eq!(db.error_code(), 4);
}

#[test]
fn not_synced_and_not_initialized_display() {
    assert!(MigrationError::NotSynced
        .to_string()
        .to_lowercase()
        .contains("sync"));
    assert!(MigrationError::NotInitialized
        .to_string()
        .to_lowercase()
        .contains("initial"));
}

#[test]
fn invalid_state_display_variants() {
    assert!(InvalidStateError::AlreadyComplete
        .to_string()
        .contains("complete"));
    assert_eq!(
        InvalidStateError::WrongPhase {
            expected: "ready",
            found: "broadcasting".to_string()
        }
        .to_string(),
        "wrong migration phase: expected ready, found broadcasting"
    );
}

#[test]
fn every_message_is_exact() {
    assert_eq!(
        InvalidStateError::NoActiveRun.to_string(),
        "no active migration run"
    );
    assert_eq!(
        InvalidStateError::UnknownPhase("odd".to_string()).to_string(),
        "unknown migration phase: odd"
    );
    assert_eq!(
        InvalidStateError::NotApplicable("why").to_string(),
        "operation not applicable: why"
    );
    assert_eq!(
        MigrationError::InvalidState(InvalidStateError::NotApplicable("why")).to_string(),
        "invalid migration state: operation not applicable: why"
    );
    assert_eq!(
        pipeline_error("stage: ", "detail").to_string(),
        "pczt pipeline error: stage: detail"
    );
    assert_eq!(
        MigrationError::Unsupported("x").to_string(),
        "unsupported by pinned librustzcash: x"
    );
    assert_eq!(
        MigrationError::Db(rusqlite::Error::QueryReturnedNoRows).message_with("text"),
        "database error: text"
    );
}

#[test]
fn wrapped_errors_show_their_own_text() {
    let inner = rusqlite::Error::QueryReturnedNoRows;
    let expected = format!("database error: {inner}");
    assert_eq!(MigrationError::from(inner).to_string(), expected);

    let inner = zcash_client_sqlite::error::SqliteClientError::AccountUnknown;
    let expected = format!("wallet backend error: {inner}");
    let wrapped = MigrationError::from(inner);
    assert_eq!(wrapped.error_code(), 5);
    assert_eq!(wrapped.to_string(), expected);
}

#[test]
fn codes_are_distinct() {
    let codes = vec![
        MigrationError::NotSynced.error_code(),
        MigrationError::NotInitialized.error_code(),
        MigrationError::InvalidState(InvalidStateError::NoActiveRun).error_code(),
        MigrationError::Db(rusqlite::Error::QueryReturnedNoRows).error_code(),
        MigrationError::Backend(zcash_client_sqlite::error::SqliteClientError::AccountUnknown)
            .error_code(),
        MigrationError::Pipeline(String::new()).error_code(),
        MigrationError::Unsupported("").error_code(),
    ];
    assert_eq!(codes, vec![1, 2, 3, 4, 5, 6, 7]);
}
