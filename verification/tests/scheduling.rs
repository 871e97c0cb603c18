use zodl_ironwood_migration::scheduling::{
    bucket_anchor, build_schedule, estimated_duration_hours, ANCHOR_BUCKET_SIZE,
    FIRST_TRANSFER_DELAY_BLOCKS,
};

#[test]
fn bucket_anchor_floors_to_multiple_of_288() {
    assert_eq!(bucket_anchor(2_880_000), 2_880_000); // exact multiple
    assert_eq!(bucket_anchor(2_880_287), 2_880_000); // just below the next bucket
    assert_eq!(bucket_anchor(2_880_288), 2_880_288); // exactly the next bucket
    assert_eq!(bucket_anchor(100), 0);
    assert_eq!(bucket_anchor(0), 0);
}

#[test]
fn bucket_anchor_never_exceeds_input_and_is_aligned() {
    for h in [1u32, 287, 288, 289, 1_000_000, 2_500_001] {
        assert!(bucket_anchor(h) <= h);
        assert_eq!(bucket_anchor(h) % ANCHOR_BUCKET_SIZE, 0);
    }
}

#[test]
fn schedule_is_empty_for_no_amounts() {
    let s = build_schedule("run", &[], 1000, 2000, FIRST_TRANSFER_DELAY_BLOCKS);
    assert!(s.transfers.is_empty());
    assert_eq!(s.estimated_duration_hours, 0);
}

#[test]
fn schedule_shares_one_bucketed_anchor_across_transfers() {
    let s = build_schedule(
        "run",
        &[10, 20, 30],
        1000,
        2_880_290,
        FIRST_TRANSFER_DELAY_BLOCKS,
    );
    let anchors: Vec<u32> = s
        .transfers
        .iter()
        .map(|t| u32::from(t.anchor_height))
        .collect();
    assert_eq!(anchors, vec![2_880_288, 2_880_288, 2_880_288]);
}

#[test]
fn schedule_staggers_send_and_expiry_heights() {
    let s = build_schedule(
        "run",
        &[10, 20, 30],
        1000,
        2000,
        FIRST_TRANSFER_DELAY_BLOCKS,
    );
    let sends: Vec<u32> = s
        .transfers
        .iter()
        .map(|t| u32::from(t.next_executable_after_height))
        .collect();
    assert_eq!(sends, vec![1000 + 288, 1000 + 576, 1000 + 864]);
    let expiries: Vec<u32> = s
        .transfers
        .iter()
        .map(|t| u32::from(t.expiry_height))
        .collect();
    assert_eq!(expiries, vec![1576, 1864, 2152]); // each send + 288
}

#[test]
fn schedule_maps_amounts_in_order() {
    let s = build_schedule(
        "run",
        &[10, 20, 30],
        1000,
        2000,
        FIRST_TRANSFER_DELAY_BLOCKS,
    );
    let amounts: Vec<u64> = s.transfers.iter().map(|t| u64::from(t.amount)).collect();
    assert_eq!(amounts, vec![10, 20, 30]);
}

#[test]
fn schedule_transfer_ids_are_unique_and_carry_run_id() {
    let s = build_schedule(
        "RUN42",
        &[10, 20, 30],
        1000,
        2000,
        FIRST_TRANSFER_DELAY_BLOCKS,
    );
    let ids: Vec<String> = s.transfers.iter().map(|t| t.id.clone()).collect();
    let unique: std::collections::HashSet<&String> = ids.iter().collect();
    assert_eq!(unique.len(), 3);
    assert!(ids.iter().all(|id| id.contains("RUN42")));
}

#[test]
fn estimated_duration_matches_app_examples() {
    let three = build_schedule("r", &[1, 2, 3], 1000, 2000, FIRST_TRANSFER_DELAY_BLOCKS);
    assert_eq!(three.estimated_duration_hours, 18);
    let one = build_schedule("r", &[1], 1000, 2000, FIRST_TRANSFER_DELAY_BLOCKS);
    assert_eq!(one.estimated_duration_hours, 6);
}

#[test]
fn immediate_schedule_has_no_first_delay() {
    let s = build_schedule("r", &[1], 1000, 2000, 0);
    assert_eq!(u32::from(s.transfers[0].next_executable_after_height), 1000);
    assert_eq!(s.estimated_duration_hours, 0);
}

#[test]
fn ids_end_in_the_place_of_the_transfer() {
    let amounts = [1u64; 12];
    let s = build_schedule("run", &amounts, 0, 0, 0);
    assert_eq!(s.transfers[0].id, "run-0");
    assert_eq!(s.transfers[11].id, "run-11");
}

#[test]
fn heights_stop_at_the_largest_one() {
    let s = build_schedule("run", &[1, 2], u32::MAX - 300, 5, 288);
    assert_eq!(s.transfers[0].next_executable_after_height, u32::MAX - 12);
    assert_eq!(s.transfers[0].expiry_height, u32::MAX);
    assert_eq!(s.transfers[1].next_executable_after_height, u32::MAX);
    assert_eq!(s.transfers[1].expiry_height, u32::MAX);
}

#[test]
fn heights_of_one_bucket_share_their_anchor() {
    assert_eq!(bucket_anchor(576), bucket_anchor(863));
    assert_ne!(bucket_anchor(863), bucket_anchor(864));
}

#[test]
fn duration_is_rounded_up() {
    assert_eq!(estimated_duration_hours(1, 1), 1);
    assert_eq!(estimated_duration_hours(1, 48), 1);
    assert_eq!(estimated_duration_hours(1, 49), 2);
    assert_eq!(estimated_duration_hours(0, 49), 0);
}
