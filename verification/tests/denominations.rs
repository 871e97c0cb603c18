use zodl_ironwood_migration::denominations::{
    plan_denominations, plan_self_funding_denominations, sum_of,
    MIGRATION_MAX_PREPARED_NOTES_PER_RUN, TRANSFER_FEE_BUFFER_ZATOSHI, ZATOSHIS_PER_ZEC,
};

const MINIMUM_OUTPUT_FOR_TEST: u64 = 1;

#[test]
fn planner_noops_when_prep_fee_consumes_balance() {
    let plan = plan_denominations(5_000, 10_000, 10_000, 1).unwrap();

    assert!(plan.migration_outputs.is_empty());
    assert_eq!(plan.total_migratable_zatoshi, 0);
    assert_eq!(plan.prep_fee_zatoshi, 5_000);
}

#[test]
fn planner_creates_decimal_denominations_and_fee_positive_residual() {
    let plan = plan_denominations(1_234_500_000, 0, 10_000, MINIMUM_OUTPUT_FOR_TEST).unwrap();

    assert_eq!(
        plan.migration_outputs,
        vec![1_000_000_000, 100_000_000, 100_000_000, 34_500_000]
    );
    assert_eq!(plan.orchard_change, None);
    assert_eq!(plan.total_migratable_zatoshi, 1_234_500_000);
}

#[test]
fn planner_keeps_non_fee_positive_residual_as_orchard_change() {
    let plan = plan_denominations(100_010_000, 0, 10_000, MINIMUM_OUTPUT_FOR_TEST).unwrap();

    assert_eq!(plan.migration_outputs, vec![100_000_000]);
    assert_eq!(plan.orchard_change, Some(10_000));
}

#[test]
fn planner_reserves_prep_fee_before_decomposition() {
    let plan = plan_denominations(1_000_000_000, 10_000, 10_000, 1).unwrap();

    assert_eq!(
        plan.migration_outputs,
        vec![
            100_000_000,
            100_000_000,
            100_000_000,
            100_000_000,
            100_000_000,
            100_000_000,
            100_000_000,
            100_000_000,
            100_000_000,
            99_990_000,
        ]
    );
}

#[test]
fn planner_rejects_more_than_max_prepared_outputs() {
    let err = plan_denominations(1_999_999_950_000_000, 0, 10_000, 1).unwrap_err();

    assert!(err.contains("above the 64 note limit"));
}

#[test]
fn planner_names_the_number_of_notes_it_rejects() {
    // 19,999,999.5 ZEC: one note of the largest denomination, nine of each of the seven below it
    // and the residual.
    let err = plan_denominations(1_999_999_950_000_000, 0, 10_000, 1).unwrap_err();
    assert_eq!(
        err,
        "Migration plan would create 65 prepared notes, above the 64 note limit"
    );
}

#[test]
fn planner_rejects_an_overflowing_residual_threshold() {
    let err = plan_denominations(200_000_000, 0, u64::MAX, 1).unwrap_err();
    assert_eq!(err, "Residual fee threshold overflow");
    // The prep fee is looked at first.
    assert!(plan_denominations(5_000, 10_000, u64::MAX, 1).is_ok());
}

#[test]
fn planner_folds_a_residual_below_the_minimum_into_the_fee() {
    let plan = plan_denominations(100_000_400, 0, 10_000, 500).unwrap();
    assert_eq!(plan.migration_outputs, vec![100_000_000]);
    assert_eq!(plan.orchard_change, None);
    assert_eq!(plan.total_migratable_zatoshi, 100_000_000);
}

#[test]
fn planner_hands_out_everything_but_a_folded_residual() {
    for total in [1u64, 10_001, 99_999_999, 100_000_000, 4_321_000_777, 98_765_432_100] {
        let plan = plan_denominations(total, 10_000, 10_000, 1).unwrap();
        if total > 10_000 {
            assert_eq!(
                plan.total_migratable_zatoshi + plan.orchard_change.unwrap_or(0),
                total - 10_000
            );
        }
        assert!(plan.migration_outputs.len() <= MIGRATION_MAX_PREPARED_NOTES_PER_RUN);
    }
}

#[test]
fn each_output_is_power_of_ten_plus_self_funding_buffer() {
    let plan = plan_self_funding_denominations(1_234_500_000, 0).unwrap();
    assert_eq!(
        plan.crossing_values,
        vec![1_000_000_000, 100_000_000, 100_000_000]
    );
    assert_eq!(
        plan.migration_outputs,
        vec![1_000_020_000, 100_020_000, 100_020_000]
    );
    assert_eq!(plan.total_migratable_zatoshi, 1_200_000_000);
    // 0.345 ZEC minus three 20_000 buffers stays in Orchard:
    assert_eq!(plan.orchard_change, Some(34_440_000));
}

#[test]
fn dust_is_left_in_orchard_never_folded_into_fee() {
    let plan = plan_self_funding_denominations(100_030_000, 0).unwrap();
    assert_eq!(plan.migration_outputs, vec![100_020_000]);
    assert_eq!(plan.orchard_change, Some(10_000));
}

#[test]
fn exact_funding_leaves_no_change() {
    let plan = plan_self_funding_denominations(100_020_000, 0).unwrap();
    assert_eq!(plan.migration_outputs, vec![100_020_000]);
    assert_eq!(plan.orchard_change, None);
}

#[test]
fn sub_one_zec_input_migrates_nothing_keeps_all_in_orchard() {
    let plan = plan_self_funding_denominations(50_000_000, 0).unwrap();
    assert!(plan.migration_outputs.is_empty());
    assert_eq!(plan.orchard_change, Some(50_000_000));
    assert_eq!(plan.total_migratable_zatoshi, 0);
}

#[test]
fn noops_when_prep_fee_consumes_balance() {
    let plan = plan_self_funding_denominations(5_000, 10_000).unwrap();
    assert!(plan.migration_outputs.is_empty());
    assert_eq!(plan.orchard_change, None);
}

#[test]
fn rejects_more_than_max_prepared_outputs() {
    // One note more than allowed ends the planning.
    let err = plan_self_funding_denominations(9_999_999_950_000_000, 0).unwrap_err();
    assert_eq!(
        err,
        "Migration plan would create 65 prepared notes, above the 64 note limit"
    );
    // Exactly as many as allowed is a plan.
    let plan = plan_self_funding_denominations(1_999_999_950_000_000, 0).unwrap();
    assert_eq!(plan.crossing_values.len(), MIGRATION_MAX_PREPARED_NOTES_PER_RUN);
}

#[test]
fn self_funding_plan_accounts_for_every_zatoshi() {
    for total in [0u64, 10_000, 100_020_000, 1_234_500_000, 77_777_777_777, 2_100_000_000_000] {
        let plan = plan_self_funding_denominations(total, 10_000).unwrap();
        let left = total.saturating_sub(10_000);
        assert_eq!(
            sum_of(&plan.migration_outputs) + plan.orchard_change.unwrap_or(0),
            left
        );
        for (note, crossing) in plan.migration_outputs.iter().zip(&plan.crossing_values) {
            assert_eq!(*note, crossing + TRANSFER_FEE_BUFFER_ZATOSHI);
            let mut zec = crossing / ZATOSHIS_PER_ZEC;
            assert_eq!(zec * ZATOSHIS_PER_ZEC, *crossing);
            while zec % 10 == 0 {
                zec /= 10;
            }
            assert_eq!(zec, 1);
        }
    }
}
