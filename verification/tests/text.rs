use zodl_ironwood_migration::attention::{attention_from_error, expired_text, invalid_note_text};
use zodl_ironwood_migration::hex::{
    account_text, new_run_id, txid_display, txid_from_display_hex,
};
use zodl_ironwood_migration::json::{parse_target_values, target_values_text};
use zodl_ironwood_migration::state::{to_state, Phase};
use zodl_ironwood_migration::text::{
    ascii_lower, blank, comes_before, decimal_int_text, decimal_text, find, from_chars, piece_after,
    strip_prefix, to_chars, trim,
};
use zodl_ironwood_migration::types::{AttentionReason, MigrationProgress, MigrationState};

fn chars(s: &str) -> Vec<char> {
    s.chars().collect()
}

#[test]
fn attention_from_error_classifies() {
    assert!(matches!(
        attention_from_error("invalid note for transfer run-2"),
        AttentionReason::InvalidTransfer { .. }
    ));
    assert_eq!(
        attention_from_error("transfer run-1 expired"),
        AttentionReason::TransferExpired
    );
}

#[test]
fn attention_names_the_transfer() {
    let named = |id: &str| AttentionReason::InvalidTransfer { transfer_id: id.to_string() };
    assert_eq!(attention_from_error("invalid note for transfer run-2"), named("run-2"));
    assert_eq!(attention_from_error("INVALID NOTE: transfer  x \u{2003}"), named("x"));
    assert_eq!(attention_from_error("invalid note"), named(""));
    assert_eq!(attention_from_error("transfer a transfer b invalid note"), named("a"));
    assert_eq!(attention_from_error(""), AttentionReason::TransferExpired);
    assert_eq!(attention_from_error(&invalid_note_text("ab-3")), named("ab-3"));
    assert_eq!(attention_from_error(&expired_text("ab-3")), AttentionReason::TransferExpired);
    assert_eq!(expired_text("x"), "transfer x expired");
    assert_eq!(invalid_note_text("x"), "invalid note for transfer x");
}

#[test]
fn blanks_are_the_white_space_characters() {
    for c in '\u{0}'..=char::MAX {
        assert_eq!(blank(c), c.is_whitespace(), "{c:?}");
    }
}

#[test]
fn trimming_agrees_with_the_standard_library() {
    for s in ["", " ", "a", " a b\t", "\u{3000}x\u{85}", "x\u{200b}"] {
        assert_eq!(from_chars(&trim(&chars(s))), s.trim());
    }
}

#[test]
fn splitting_agrees_with_the_standard_library() {
    for s in ["", "transfer ", "a transfer b", "transfer transfer x", "x", "ttransfer y transfer "] {
        let expected = s.split("transfer ").nth(1).unwrap_or("");
        assert_eq!(from_chars(&piece_after(&chars(s), &chars("transfer "))), expected);
        assert_eq!(
            find(&chars(s), &chars("transfer ")),
            s.find("transfer ")
        );
    }
}

#[test]
fn prefixes_and_case_agree_with_the_standard_library() {
    for s in ["prep:", "prep:abc", "pre", "PREP:x", "xprep:"] {
        assert_eq!(strip_prefix(s, "prep:").as_deref(), s.strip_prefix("prep:"));
        assert_eq!(ascii_lower(s), s.to_ascii_lowercase());
    }
    assert_eq!(ascii_lower("ÄAZ[`"), "Äaz[`");
}

#[test]
fn texts_are_ordered_by_code_point() {
    let words = ["", "A", "a", "aa", "ab", "b", "é", "\u{10000}", "\u{ffff}"];
    for a in words {
        for b in words {
            assert_eq!(comes_before(a, b), a < b);
        }
    }
    assert_eq!(to_chars("aé"), vec!['a', 'é']);
}

#[test]
fn numbers_are_written_in_decimal() {
    for n in [0u128, 7, 10, 65, 100_000_000, u64::MAX as u128, u128::MAX] {
        assert_eq!(decimal_text(n), n.to_string());
    }
    for n in [0i128, -1, -5000, 42, i128::MAX, i128::MIN + 1] {
        assert_eq!(decimal_int_text(n), n.to_string());
    }
}

#[test]
fn target_values_round_trip_through_json() {
    for values in [vec![], vec![5u64], vec![100_000_000, 0, u64::MAX]] {
        let text = target_values_text(&values);
        assert_eq!(text, format!("{values:?}").replace(' ', ""));
        assert_eq!(parse_target_values(&text), values);
    }
}

#[test]
fn target_values_that_are_no_array_count_as_none() {
    assert_eq!(parse_target_values(" [ 1 , 2 ] "), vec![1, 2]);
    for text in ["", "{}", "[1", "[-1]", "[1.5]", "[\"1\"]", "null"] {
        assert!(parse_target_values(text).is_empty());
    }
}

#[test]
fn transaction_ids_round_trip_through_their_display_form() {
    let mut txid = [0u8; 32];
    for i in 0..32 {
        txid[i] = (i * 7 + 1) as u8;
    }
    let display = txid_display(&txid);
    assert_eq!(display, zcash_protocol::TxId::from_bytes(txid).to_string());
    assert_eq!(txid_from_display_hex(&display), Some(txid));
    assert_eq!(txid_from_display_hex(&display.to_uppercase()), Some(txid));
}

#[test]
fn texts_that_are_no_transaction_id_are_refused() {
    let good = "00".repeat(32);
    assert_eq!(txid_from_display_hex(&good), Some([0u8; 32]));
    assert_eq!(txid_from_display_hex(&good[1..]), None);
    assert_eq!(txid_from_display_hex(&format!("{good}0")), None);
    assert_eq!(txid_from_display_hex(&good.replacen('0', "g", 1)), None);
    assert_eq!(txid_from_display_hex(&format!("é{}", &good[2..])), None);
    assert_eq!(txid_from_display_hex(&format!("-1{}", &good[2..])), None);
    // A pair may carry a plus sign, as in Rust's own radix parser.
    let mut bytes = [0u8; 32];
    bytes[31] = 15;
    assert_eq!(txid_from_display_hex(&format!("+f{}", &good[2..])), Some(bytes));
}

#[test]
fn account_ids_are_hyphenated() {
    assert_eq!(
        account_text([
            0x00, 0x01, 0x02, 0x03, 0x14, 0x15, 0x26, 0x27, 0x38, 0x39, 0x4a, 0x4b, 0x4c, 0x4d,
            0xfe, 0xff
        ]),
        "00010203-1415-2627-3839-4a4b4c4dfeff"
    );
}

#[test]
fn run_ids_are_random_version_four_ids() {
    let id = new_run_id();
    assert_ne!(id, new_run_id());
    let parsed = uuid::Uuid::parse_str(&id).unwrap();
    assert_eq!(parsed.get_version_num(), 4);
    assert_eq!(parsed.to_string(), id);
    assert_eq!(account_text(*parsed.as_bytes()), id);
}

const ALL: [Phase; 14] = [
    Phase::NoOrchardFunds,
    Phase::WaitingForSpendableOrchard,
    Phase::ReadyToPrepare,
    Phase::PreparingDenominations,
    Phase::WaitingDenomConfirmations,
    Phase::ReadyToMigrate,
    Phase::BroadcastScheduled,
    Phase::Broadcasting,
    Phase::WaitingMigrationConfirmations,
    Phase::FailedRecoverable,
    Phase::FailedTerminal,
    Phase::Paused,
    Phase::Abandoned,
    Phase::Complete,
];

#[test]
fn phases_round_trip_through_their_names() {
    for p in ALL {
        assert_eq!(Phase::parse(p.as_str()), Some(p));
    }
    assert_eq!(Phase::parse("ready"), None);
    assert_eq!(Phase::parse(""), None);
    assert_eq!(
        ALL.iter().filter(|p| p.is_terminal()).count(),
        3
    );
}

#[test]
fn phases_surface_as_states() {
    let progress = MigrationProgress {
        completed_transfers: 2,
        total_transfers: 2,
        remaining_orchard: 7,
        next_transfer_ready_at_height: None,
    };
    let none = MigrationProgress { completed_transfers: 0, total_transfers: 0, ..progress };
    let invalid = || AttentionReason::InvalidTransfer { transfer_id: "x".to_string() };
    assert_eq!(to_state(Phase::NoOrchardFunds, none, None), MigrationState::NotStarted);
    assert_eq!(to_state(Phase::NoOrchardFunds, progress, None), MigrationState::Complete);
    assert_eq!(to_state(Phase::ReadyToPrepare, progress, None), MigrationState::NotStarted);
    assert_eq!(
        to_state(Phase::PreparingDenominations, none, None),
        MigrationState::SplitPendingConfirmation
    );
    assert_eq!(to_state(Phase::ReadyToMigrate, none, None), MigrationState::ReadyToPropose);
    assert_eq!(
        to_state(Phase::Broadcasting, progress, Some(invalid())),
        MigrationState::InProgress(progress)
    );
    assert_eq!(
        to_state(Phase::FailedTerminal, none, Some(invalid())),
        MigrationState::RequiresAttention(invalid())
    );
    assert_eq!(
        to_state(Phase::Paused, none, None),
        MigrationState::RequiresAttention(AttentionReason::TransferExpired)
    );
    assert_eq!(to_state(Phase::Abandoned, progress, None), MigrationState::NotStarted);
    assert_eq!(to_state(Phase::Complete, none, None), MigrationState::Complete);
}
