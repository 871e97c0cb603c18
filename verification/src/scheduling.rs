//! Height-based anchor bucketing and migration-transfer scheduling.
//!
//! All transfers in a schedule share one bucketed anchor, which is network-wide for a window of
//! about six hours: this hides the wallet's last sync time. De-correlation between a wallet's own
//! transfers comes from staggered send heights (`next_executable_after_height`, one bucket apart)
//! and distinct expiry heights. The first privacy-path transfer is delayed one bucket so it does
//! not correlate with the moment the user confirmed the schedule.

use crate::text::{decimal, decimal_is_injective, decimal_text, join};
use crate::types::{MigrationSchedule, ScheduleView, TransferProposal, TransferView, MAX_MONEY};
use vstd::prelude::*;
use vstd::string::*;

verus! {

/// Width of an anchor bucket, in blocks (~6 hours at ~75 s/block).
pub const ANCHOR_BUCKET_SIZE: u32 = 288;

/// Blocks between successive transfers' send windows.
pub const TRANSFER_CADENCE_BLOCKS: u32 = 288;

/// Delay (blocks) before the first privacy-path transfer may broadcast.
pub const FIRST_TRANSFER_DELAY_BLOCKS: u32 = 288;

/// Blocks after its send window during which a transfer remains valid.
pub const TRANSFER_EXPIRY_WINDOW_BLOCKS: u32 = 288;

/// Approximate blocks per hour (~75 s/block).
pub const BLOCKS_PER_HOUR: u32 = 48;

/// The bucket of a height, as the height at which the bucket starts.
pub open spec fn bucket_of(height: nat) -> nat {
    (height - height % ANCHOR_BUCKET_SIZE as nat) as nat
}

/// A height held at the largest one there is.
pub open spec fn capped(height: int) -> u32 {
    if height > u32::MAX {
        u32::MAX
    } else {
        height as u32
    }
}

/// The low 32 bits of an index.
pub open spec fn index_bits(i: int) -> int {
    i % 0x1_0000_0000
}

/// When the transfer at index `i` may be sent.
pub open spec fn send_height(target: u32, first_delay: u32, i: int) -> u32 {
    capped(target + first_delay + index_bits(i) * TRANSFER_CADENCE_BLOCKS)
}

/// The transfer at index `i` of a schedule.
pub open spec fn scheduled_transfer(
    run_id: Seq<char>,
    amount: u64,
    target: u32,
    natural_anchor: u32,
    first_delay: u32,
    i: int,
) -> TransferView {
    let next = send_height(target, first_delay, i);
    TransferView {
        id: run_id + "-"@ + decimal(i as nat),
        amount,
        anchor_height: bucket_of(natural_anchor as nat) as u32,
        next_executable_after_height: next,
        expiry_height: capped(next + TRANSFER_EXPIRY_WINDOW_BLOCKS),
    }
}

/// The hours from now to the last send window of `count` transfers, rounded up.
pub open spec fn duration_hours(count: nat, first_delay: u32) -> u32 {
    if count == 0 {
        0
    } else {
        let span = capped(first_delay + index_bits(count - 1) * TRANSFER_CADENCE_BLOCKS) as int;
        ((span + BLOCKS_PER_HOUR - 1) / BLOCKS_PER_HOUR as int) as u32
    }
}

/// The schedule of a sequence of amounts.
pub open spec fn schedule_of(
    run_id: Seq<char>,
    amounts: Seq<u64>,
    target: u32,
    natural_anchor: u32,
    first_delay: u32,
) -> ScheduleView {
    ScheduleView {
        transfers: Seq::new(
            amounts.len(),
            |i: int| scheduled_transfer(run_id, amounts[i], target, natural_anchor, first_delay, i),
        ),
        estimated_duration_hours: duration_hours(amounts.len(), first_delay),
    }
}

/// Floor a natural anchor height to its shared network-wide bucket. The result is always
/// `<= natural_anchor` (an anchor in the past, so the note is witnessable now).
pub fn bucket_anchor(natural_anchor: u32) -> (anchor: u32)
    ensures
        anchor == bucket_of(natural_anchor as nat),
        anchor <= natural_anchor,
        anchor % ANCHOR_BUCKET_SIZE == 0,
        natural_anchor - anchor < ANCHOR_BUCKET_SIZE,
{
    (natural_anchor / ANCHOR_BUCKET_SIZE) * ANCHOR_BUCKET_SIZE
}

/// The blocks that an index's place in the cadence adds, held at the largest height.
fn cadence_offset(i: usize) -> (blocks: u32)
    ensures
        blocks == capped(index_bits(i as int) * TRANSFER_CADENCE_BLOCKS),
{
    let bits: u64 = (i as u64) % 0x1_0000_0000;
    let blocks: u64 = bits * (TRANSFER_CADENCE_BLOCKS as u64);
    if blocks > u32::MAX as u64 {
        u32::MAX
    } else {
        blocks as u32
    }
}

/// Build a migration schedule mapping each output `amount` (zatoshi) to a `TransferProposal`.
///
/// All transfers share `bucket_anchor(natural_anchor)`. Transfer `i` may broadcast at
/// `target_height + first_delay_blocks + i * TRANSFER_CADENCE_BLOCKS` and expires
/// `TRANSFER_EXPIRY_WINDOW_BLOCKS` later, both held at the largest height. Pass
/// `first_delay_blocks = FIRST_TRANSFER_DELAY_BLOCKS` for the privacy path, or `0` for an immediate
/// single transfer.
pub fn build_schedule(
    run_id: &str,
    amounts: &[u64],
    target_height: u32,
    natural_anchor: u32,
    first_delay_blocks: u32,
) -> (schedule: MigrationSchedule)
    requires
        forall|i: int| 0 <= i < amounts@.len() ==> amounts@[i] <= MAX_MONEY,
    ensures
        schedule@ == schedule_of(
            run_id@,
            amounts@,
            target_height,
            natural_anchor,
            first_delay_blocks,
        ),
{
    let anchor_height: u32 = bucket_anchor(natural_anchor);
    let mut transfers: Vec<TransferProposal> = Vec::new();
    let prefix: String = join(run_id, "-");
    for i in 0..amounts.len()
        invariant
            transfers@.len() == i,
            prefix@ == run_id@ + "-"@,
            anchor_height == bucket_of(natural_anchor as nat),
            forall|k: int|
                0 <= k < i ==> (#[trigger] transfers@[k])@ == scheduled_transfer(
                    run_id@,
                    amounts@[k],
                    target_height,
                    natural_anchor,
                    first_delay_blocks,
                    k,
                ),
    {
        let next: u32 = target_height.saturating_add(first_delay_blocks).saturating_add(
            cadence_offset(i),
        );
        transfers.push(
            TransferProposal {
                id: join(prefix.as_str(), decimal_text(i as u128).as_str()),
                amount: amounts[i],
                anchor_height,
                next_executable_after_height: next,
                expiry_height: next.saturating_add(TRANSFER_EXPIRY_WINDOW_BLOCKS),
            },
        );
    }
    let schedule = MigrationSchedule {
        transfers,
        estimated_duration_hours: estimated_duration_hours(amounts.len(), first_delay_blocks),
    };
    assert(schedule@ =~= schedule_of(
        run_id@,
        amounts@,
        target_height,
        natural_anchor,
        first_delay_blocks,
    ));
    schedule
}

/// Hours until the last transfer's send window, rounded up. Zero for an empty schedule.
pub fn estimated_duration_hours(transfer_count: usize, first_delay_blocks: u32) -> (hours: u32)
    ensures
        hours == duration_hours(transfer_count as nat, first_delay_blocks),
{
    if transfer_count == 0 {
        return 0;
    }
    let span: u32 = first_delay_blocks.saturating_add(cadence_offset(transfer_count - 1));
    if span % BLOCKS_PER_HOUR == 0 {
        span / BLOCKS_PER_HOUR
    } else {
        span / BLOCKS_PER_HOUR + 1
    }
}

// ----- laws -----

/// Two heights of one bucket get the same anchor, whatever the wallet's own sync height is.
pub proof fn one_bucket_one_anchor(a: nat, b: nat)
    requires
        a / ANCHOR_BUCKET_SIZE as nat == b / ANCHOR_BUCKET_SIZE as nat,
    ensures
        bucket_of(a) == bucket_of(b),
{
}

/// All transfers of a schedule share one anchor, at or below the natural one and aligned to the
/// bucket size.
pub proof fn schedule_shares_its_anchor(
    run_id: Seq<char>,
    amounts: Seq<u64>,
    target: u32,
    natural_anchor: u32,
    first_delay: u32,
    i: int,
    j: int,
)
    requires
        0 <= i < amounts.len(),
        0 <= j < amounts.len(),
    ensures
        ({
            let s = schedule_of(run_id, amounts, target, natural_anchor, first_delay);
            &&& s.transfers[i].anchor_height == s.transfers[j].anchor_height
            &&& s.transfers[i].anchor_height <= natural_anchor
            &&& s.transfers[i].anchor_height % ANCHOR_BUCKET_SIZE == 0
        }),
{
}

/// Successive transfers are sent one cadence apart and each expires one window after it is sent,
/// as long as no height reaches the largest one.
pub proof fn schedule_staggers_its_transfers(
    run_id: Seq<char>,
    amounts: Seq<u64>,
    target: u32,
    natural_anchor: u32,
    first_delay: u32,
    i: int,
)
    requires
        0 <= i < amounts.len(),
        target + first_delay + i * TRANSFER_CADENCE_BLOCKS + TRANSFER_EXPIRY_WINDOW_BLOCKS <= u32::MAX,
    ensures
        ({
            let t = schedule_of(run_id, amounts, target, natural_anchor, first_delay).transfers;
            &&& t[i].next_executable_after_height == target + first_delay + i
                * TRANSFER_CADENCE_BLOCKS
            &&& t[i].expiry_height == t[i].next_executable_after_height
                + TRANSFER_EXPIRY_WINDOW_BLOCKS
            &&& i > 0 ==> t[i].next_executable_after_height == t[i
                - 1].next_executable_after_height + TRANSFER_CADENCE_BLOCKS
            &&& i > 0 ==> t[i].expiry_height != t[i - 1].expiry_height
        }),
{
    assert(index_bits(i) == i);
    assert(i > 0 ==> index_bits(i - 1) == i - 1);
}

/// The ids of a schedule are distinct, and each starts with the run id.
pub proof fn schedule_ids_are_distinct(
    run_id: Seq<char>,
    amounts: Seq<u64>,
    target: u32,
    natural_anchor: u32,
    first_delay: u32,
    i: int,
    j: int,
)
    requires
        0 <= i < amounts.len(),
        0 <= j < amounts.len(),
        i != j,
    ensures
        ({
            let t = schedule_of(run_id, amounts, target, natural_anchor, first_delay).transfers;
            &&& t[i].id != t[j].id
            &&& t[i].id.take(run_id.len() as int) == run_id
        }),
{
    let t = schedule_of(run_id, amounts, target, natural_anchor, first_delay).transfers;
    let prefix = run_id + "-"@;
    assert(t[i].id == prefix + decimal(i as nat));
    assert(t[j].id == prefix + decimal(j as nat));
    assert(t[i].id.take(run_id.len() as int) =~= run_id);
    if t[i].id == t[j].id {
        assert(t[i].id.skip(prefix.len() as int) =~= decimal(i as nat));
        assert(t[j].id.skip(prefix.len() as int) =~= decimal(j as nat));
        decimal_is_injective(i as nat, j as nat);
    }
}

} // verus!
