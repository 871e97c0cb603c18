use zodl_ironwood_migration::error::MigrationError;
use zodl_ironwood_migration::split::{
    adjust_outputs_for_exact_balance, is_spendable, keep_second_version, plan_split,
    select_spendable_v2_notes, split_fee, NoteVersion, SpendableNote,
};
use zodl_ironwood_migration::wallet::PoolBalances;

#[test]
fn split_fee_is_marginal_fee_times_actions() {
    // Cross-address disabled: actions = spends + changes; ZIP-317 marginal fee 5000.
    assert_eq!(split_fee(1, 2), 15_000);
    assert_eq!(split_fee(1, 9), 50_000);
    assert_eq!(split_fee(2, 3), 25_000);
}

#[test]
fn split_fee_applies_the_two_action_grace_floor() {
    assert_eq!(split_fee(1, 0), 10_000);
    assert_eq!(split_fee(0, 1), 10_000);
}

#[test]
fn adjust_keeps_outputs_when_balance_is_exact() {
    let adjusted =
        adjust_outputs_for_exact_balance(1_000_000, 15_000, &[500_000, 485_000]).unwrap();
    assert_eq!(adjusted, vec![500_000, 485_000]);
}

#[test]
fn adjust_absorbs_the_residual_in_the_last_output() {
    // Planned against an estimated fee; the exact fee differs, so the last output absorbs the delta.
    let adjusted =
        adjust_outputs_for_exact_balance(1_000_000, 15_000, &[500_000, 400_000]).unwrap();
    assert_eq!(adjusted, vec![500_000, 485_000]);
    let adjusted =
        adjust_outputs_for_exact_balance(1_000_000, 15_000, &[500_000, 500_000]).unwrap();
    assert_eq!(adjusted, vec![500_000, 485_000]);
}

#[test]
fn adjust_rejects_a_nonpositive_last_output() {
    assert!(adjust_outputs_for_exact_balance(1_000_000, 15_000, &[985_000, 10_000]).is_err());
}

#[test]
fn adjust_rejects_fee_exceeding_total_and_empty_outputs() {
    assert!(adjust_outputs_for_exact_balance(10_000, 15_000, &[5_000]).is_err());
    assert!(adjust_outputs_for_exact_balance(1_000_000, 15_000, &[]).is_err());
}

fn message(e: MigrationError) -> String {
    match e {
        MigrationError::Pipeline(m) => m,
        other => panic!("no pipeline error: {other:?}"),
    }
}

#[test]
fn adjust_says_what_is_wrong() {
    assert_eq!(
        message(adjust_outputs_for_exact_balance(10_000, 15_000, &[5_000]).unwrap_err()),
        "note split: fee 15000 exceeds selected total 10000"
    );
    assert_eq!(
        message(adjust_outputs_for_exact_balance(1_000_000, 15_000, &[]).unwrap_err()),
        "note split: no outputs to adjust"
    );
    assert_eq!(
        message(adjust_outputs_for_exact_balance(1_000_000, 15_000, &[985_000, 7]).unwrap_err()),
        "note split: residual absorption drives the last output to 0 zatoshi"
    );
    assert_eq!(
        message(adjust_outputs_for_exact_balance(1_000_000, 15_000, &[990_000, 7]).unwrap_err()),
        "note split: residual absorption drives the last output to -5000 zatoshi"
    );
}

fn note(position: usize, value: u64, version: NoteVersion) -> SpendableNote {
    SpendableNote { position, value, version }
}

#[test]
fn split_balances_against_the_notes_it_spends() {
    let notes = [note(0, 150_000_000, NoteVersion::V2), note(1, 60_000_000, NoteVersion::V2)];
    let outputs = plan_split(&notes, &[100_020_000, 100_020_000]).unwrap();
    assert_eq!(outputs, vec![100_020_000, 109_960_000]);
    assert_eq!(outputs.iter().sum::<u64>() + split_fee(2, 2), 210_000_000);
}

#[test]
fn split_needs_notes() {
    assert_eq!(
        message(plan_split(&[], &[100_020_000]).unwrap_err()),
        "note split: no spendable Orchard V2 notes"
    );
}

#[test]
fn notes_of_the_third_version_are_left_alone() {
    let notes = [
        note(0, 1, NoteVersion::V3),
        note(1, 2, NoteVersion::V2),
        note(2, 3, NoteVersion::V3),
        note(3, 4, NoteVersion::V2),
    ];
    let kept = keep_second_version(&notes);
    assert_eq!(kept.iter().map(|n| n.position).collect::<Vec<_>>(), vec![1, 3]);
}

#[test]
fn selection_reports_each_failure() {
    let balances = |orchard_spendable| {
        Ok(PoolBalances { orchard_spendable, ironwood_total: 0 })
    };
    assert!(matches!(
        select_spendable_v2_notes(Err(MigrationError::NotSynced), balances(5), Ok(vec![])),
        Err(MigrationError::NotSynced)
    ));
    assert!(matches!(
        select_spendable_v2_notes(Ok((1, 1)), Err(MigrationError::NotSynced), Ok(vec![])),
        Err(MigrationError::NotSynced)
    ));
    assert_eq!(
        message(select_spendable_v2_notes(Ok((1, 1)), balances(0), Ok(vec![])).unwrap_err()),
        "note split: no spendable Orchard balance"
    );
    assert_eq!(
        message(
            select_spendable_v2_notes(Ok((1, 1)), balances(5), Err("locked".to_string()))
                .unwrap_err()
        ),
        "note split: select notes: locked"
    );
    let notes = vec![note(0, 1, NoteVersion::V3), note(1, 2, NoteVersion::V2)];
    let kept = select_spendable_v2_notes(Ok((1, 1)), balances(5), Ok(notes)).unwrap();
    assert_eq!(kept, vec![note(1, 2, NoteVersion::V2)]);
}

#[test]
fn locked_and_reserved_notes_are_not_spendable() {
    let locks = vec![("aabb".to_string(), 1u32)];
    assert!(!is_spendable("AABB", 1, &[], &locks));
    assert!(!is_spendable("aabb", 1, &[], &locks));
    assert!(is_spendable("aabb", 2, &[], &locks));
    assert!(is_spendable("aabc", 1, &[], &locks));
    assert!(!is_spendable("AABC", 1, &[("aabc".to_string(), 1)], &locks));
}
