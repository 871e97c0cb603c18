//! What holds of the schedules that are proposed: which amounts cross, when, and what stays behind.

use crate::context::{
    is_immediate_schedule, is_private_schedule, limit_message, planned_crossings, swept_amounts,
};
use crate::denominations::{available, crossings};
use crate::error::MigrationError;
use crate::plan_laws::{budget_at, crossings_are_greedy, total_of};
use crate::scheduling::{schedule_of, scheduled_transfer};
use crate::text::decimal;
use crate::types::{transfer_views, MigrationSchedule, TransferProposal};
use crate::wallet::{is_sweep, PoolBalances, SweepProbe};
use vstd::arithmetic::power::pow;
use vstd::prelude::*;

verus! {

/// The amounts that cross, in the order of their transfers.
pub open spec fn amounts_of(schedule: MigrationSchedule) -> Seq<u64> {
    schedule.transfers@.map_values(|t: TransferProposal| t.amount)
}

// ----- a schedule -----

/// A schedule has one transfer for each amount it was built for, in order and of that very amount; so
/// its amounts sum to the sum of those it was built for.
pub proof fn schedule_carries_its_amounts(
    schedule: MigrationSchedule,
    run_id: Seq<char>,
    amounts: Seq<u64>,
    target: u32,
    natural_anchor: u32,
    first_delay: u32,
)
    requires
        schedule@ == schedule_of(run_id, amounts, target, natural_anchor, first_delay),
    ensures
        schedule.transfers@.len() == amounts.len(),
        forall|i: int|
            0 <= i < amounts.len() ==> (#[trigger] schedule.transfers@[i]).amount == amounts[i],
        total_of(amounts_of(schedule)) == total_of(amounts),
{
    transfers_are_scheduled(schedule, run_id, amounts, target, natural_anchor, first_delay);
    assert(amounts_of(schedule) =~= amounts);
}

/// The transfer at `i` may be sent 288 blocks after the one before it, the first one the given delay
/// after the target; it expires 288 blocks later; both heights stop at the largest one. Its anchor is
/// the last multiple of 288 at or below the natural one. Its id is the run id, a hyphen and its place.
/// (For the heights, places count from zero again after 32 bits.)
pub proof fn schedule_paces_its_transfers(
    schedule: MigrationSchedule,
    run_id: Seq<char>,
    amounts: Seq<u64>,
    target: u32,
    natural_anchor: u32,
    first_delay: u32,
    i: int,
)
    requires
        schedule@ == schedule_of(run_id, amounts, target, natural_anchor, first_delay),
        0 <= i < amounts.len(),
    ensures
        ({
            let t = schedule.transfers@[i];
            let send = target + first_delay + 288 * (i % 0x1_0000_0000);
            &&& send <= u32::MAX ==> t.next_executable_after_height == send
            &&& send > u32::MAX ==> t.next_executable_after_height == u32::MAX
            &&& send + 288 <= u32::MAX ==> t.expiry_height == send + 288
            &&& send + 288 > u32::MAX ==> t.expiry_height == u32::MAX
            &&& t.anchor_height % 288 == 0
            &&& t.anchor_height <= natural_anchor < t.anchor_height + 288
            &&& t.id@ == run_id + "-"@ + decimal(i as nat)
        }),
{
    transfers_are_scheduled(schedule, run_id, amounts, target, natural_anchor, first_delay);
    assert(schedule.transfers@[i]@ == scheduled_transfer(
        run_id,
        amounts[i],
        target,
        natural_anchor,
        first_delay,
        i,
    ));
}

/// The duration of a schedule is the least number of hours, of 48 blocks each, that reaches from now
/// to the last send height, which is held at the largest height there is; an empty schedule has none.
pub proof fn duration_reaches_the_last_transfer(
    schedule: MigrationSchedule,
    run_id: Seq<char>,
    amounts: Seq<u64>,
    target: u32,
    natural_anchor: u32,
    first_delay: u32,
)
    requires
        schedule@ == schedule_of(run_id, amounts, target, natural_anchor, first_delay),
    ensures
        amounts.len() == 0 ==> schedule.estimated_duration_hours == 0,
        amounts.len() > 0 ==> {
            let blocks = first_delay + 288 * ((amounts.len() - 1) % 0x1_0000_0000);
            let span = if blocks > u32::MAX {
                u32::MAX as int
            } else {
                blocks
            };
            let hours = schedule.estimated_duration_hours;
            48 * (hours - 1) < span <= 48 * hours
        },
{
}

proof fn transfers_are_scheduled(
    schedule: MigrationSchedule,
    run_id: Seq<char>,
    amounts: Seq<u64>,
    target: u32,
    natural_anchor: u32,
    first_delay: u32,
)
    requires
        schedule@ == schedule_of(run_id, amounts, target, natural_anchor, first_delay),
    ensures
        schedule.transfers@.len() == amounts.len(),
        forall|i: int|
            0 <= i < amounts.len() ==> (#[trigger] schedule.transfers@[i])@ == scheduled_transfer(
                run_id,
                amounts[i],
                target,
                natural_anchor,
                first_delay,
                i,
            ),
{
    let expected = schedule_of(run_id, amounts, target, natural_anchor, first_delay).transfers;
    assert(transfer_views(schedule.transfers@) == expected);
    assert(transfer_views(schedule.transfers@).len() == schedule.transfers@.len());
    assert forall|i: int| 0 <= i < amounts.len() implies (#[trigger] schedule.transfers@[i])@
        == scheduled_transfer(run_id, amounts[i], target, natural_anchor, first_delay, i) by {
        assert(transfer_views(schedule.transfers@)[i] == schedule.transfers@[i]@);
        assert(expected[i] == scheduled_transfer(
            run_id,
            amounts[i],
            target,
            natural_anchor,
            first_delay,
            i,
        ));
    }
}

// ----- the private migration -----

/// A private migration is scheduled unless a reading failed or the balance asks for more than 64
/// notes. Of a spendable balance, 10 000 zatoshi are kept for the split; then each transfer crosses
/// the largest power of ten of whole ZEC that the rest still funds together with 20 000 zatoshi for
/// its fee, until not even one ZEC is funded. The first transfer waits 288 blocks, and each takes six
/// hours.
pub proof fn private_migration_crosses_all_that_is_funded(
    r: Result<MigrationSchedule, MigrationError>,
    run_id: Seq<char>,
    target: u32,
    anchor: u32,
    b: PoolBalances,
    i: int,
)
    requires
        is_private_schedule(r, run_id, Ok((target, anchor)), Ok(b)),
        r is Ok,
        0 <= i <= r->Ok_0.transfers@.len(),
    ensures
        ({
            let transfers = r->Ok_0.transfers@;
            let budget = if b.orchard_spendable > 10_000 {
                (b.orchard_spendable - 10_000) as nat
            } else {
                0
            };
            let left = budget_at(budget, amounts_of(r->Ok_0), i);
            let send = target + 288 + 288 * i;
            &&& transfers.len() <= 64
            &&& r->Ok_0.estimated_duration_hours == 6 * transfers.len()
            &&& i < transfers.len() ==> {
                &&& transfers[i].id@ == run_id + "-"@ + decimal(i as nat)
                &&& transfers[i].amount + 20_000 <= left < 10 * transfers[i].amount + 20_000
                &&& exists|k: nat| transfers[i].amount == #[trigger] pow(10, k) * 100_000_000
                &&& send <= u32::MAX ==> transfers[i].next_executable_after_height == send
                &&& send + 288 <= u32::MAX ==> transfers[i].expiry_height == send + 288
                &&& transfers[i].anchor_height % 288 == 0
                &&& transfers[i].anchor_height <= anchor < transfers[i].anchor_height + 288
            }
            &&& i == transfers.len() ==> 0 <= left < 100_020_000
        }),
{
    let schedule = r->Ok_0;
    let values = planned_crossings(b.orchard_spendable);
    let budget = available(b.orchard_spendable, 10_000);
    schedule_carries_its_amounts(schedule, run_id, values, target, anchor, 288);
    assert(amounts_of(schedule) =~= values);
    crossings_are_greedy(budget, i);
    duration_reaches_the_last_transfer(schedule, run_id, values, target, anchor, 288);
    if i < values.len() {
        assert(i % 0x1_0000_0000 == i);
        schedule_paces_its_transfers(schedule, run_id, values, target, anchor, 288, i);
    }
}

/// No private migration is scheduled exactly where the heights or the balances could not be read,
/// which is then the error, or where the balance asks for more than 64 notes.
pub proof fn private_migration_is_refused_only_over_the_limit(
    r: Result<MigrationSchedule, MigrationError>,
    run_id: Seq<char>,
    heights: Result<(u32, u32), MigrationError>,
    balances: Result<PoolBalances, MigrationError>,
)
    requires
        is_private_schedule(r, run_id, heights, balances),
    ensures
        heights is Err ==> r == Err::<MigrationSchedule, MigrationError>(heights->Err_0),
        heights is Ok && balances is Err ==> r == Err::<MigrationSchedule, MigrationError>(
            balances->Err_0,
        ),
        heights is Ok && balances is Ok ==> {
            let spendable = balances->Ok_0.orchard_spendable;
            let budget = if spendable > 10_000 {
                (spendable - 10_000) as nat
            } else {
                0
            };
            &&& r is Err <==> crossings(budget).len() > 64
            &&& r matches Err(e) ==> e matches MigrationError::Pipeline(m) && m@
                == "Migration plan would create 65 prepared notes, above the 64 note limit"@
        },
{
    private_limit_text();
}

/// The message of a plan over the limit.
pub proof fn private_limit_text()
    ensures
        limit_message()
            == "Migration plan would create 65 prepared notes, above the 64 note limit"@,
{
    reveal_strlit("Migration plan would create 65 prepared notes, above the 64 note limit");
    reveal_strlit("Migration plan would create ");
    reveal_strlit(" prepared notes, above the ");
    reveal_strlit(" note limit");
    reveal_with_fuel(decimal, 3);
    assert(decimal(65) =~= seq!['6', '5']);
    assert(decimal(64) =~= seq!['6', '4']);
    assert(limit_message()
        =~= "Migration plan would create 65 prepared notes, above the 64 note limit"@);
}

// ----- the immediate migration -----

/// An immediate migration crosses the whole spendable balance but for the fee, in one transfer that
/// may be sent at once: the amount and the fee that the probe reveals make up the balance. Where the
/// balance does not exceed the fee the schedule is empty.
pub proof fn immediate_migration_leaves_only_the_fee(
    r: Result<MigrationSchedule, MigrationError>,
    run_id: Seq<char>,
    target: u32,
    anchor: u32,
    b: PoolBalances,
    probe: SweepProbe,
    fee: u64,
)
    requires
        is_immediate_schedule(r, run_id, Ok((target, anchor)), Ok(b), Ok(probe)),
        match probe {
            SweepProbe::Proposed { fee: proposed } => fee == proposed,
            SweepProbe::InsufficientFunds { available, required } => if required > available {
                fee == required - available
            } else {
                fee == 0
            },
            SweepProbe::Failed(_) => false,
        },
    ensures
        r is Ok,
        r->Ok_0.estimated_duration_hours == 0,
        b.orchard_spendable <= fee ==> r->Ok_0.transfers@.len() == 0,
        b.orchard_spendable > fee ==> {
            let transfers = r->Ok_0.transfers@;
            &&& transfers.len() == 1
            &&& transfers[0].id@ == run_id + "-"@ + decimal(0)
            &&& transfers[0].amount + fee == b.orchard_spendable
            &&& transfers[0].next_executable_after_height == target
            &&& target + 288 <= u32::MAX ==> transfers[0].expiry_height == target + 288
            &&& target + 288 > u32::MAX ==> transfers[0].expiry_height == u32::MAX
            &&& transfers[0].anchor_height % 288 == 0
            &&& transfers[0].anchor_height <= anchor < transfers[0].anchor_height + 288
        },
{
    let crossing = choose|crossing: Result<Option<u64>, MigrationError>| #[trigger]
        is_sweep(crossing, b.orchard_spendable, Ok(probe)) && match crossing {
            Err(e) => r == Err::<MigrationSchedule, MigrationError>(e),
            Ok(value) => r matches Ok(schedule) && schedule@ == schedule_of(
                run_id,
                swept_amounts(value),
                target,
                anchor,
                0,
            ),
        };
    let amounts = swept_amounts(crossing->Ok_0);
    schedule_carries_its_amounts(r->Ok_0, run_id, amounts, target, anchor, 0);
    duration_reaches_the_last_transfer(r->Ok_0, run_id, amounts, target, anchor, 0);
    if amounts.len() > 0 {
        schedule_paces_its_transfers(r->Ok_0, run_id, amounts, target, anchor, 0, 0);
    }
}

/// An immediate migration is refused exactly where the heights or the balances could not be read or,
/// with a balance, where the probe failed; without a balance the probe is not looked at.
pub proof fn immediate_migration_is_refused_only_for_a_failure(
    r: Result<MigrationSchedule, MigrationError>,
    run_id: Seq<char>,
    heights: Result<(u32, u32), MigrationError>,
    balances: Result<PoolBalances, MigrationError>,
    probe: Result<SweepProbe, MigrationError>,
)
    requires
        is_immediate_schedule(r, run_id, heights, balances, probe),
    ensures
        heights is Err ==> r == Err::<MigrationSchedule, MigrationError>(heights->Err_0),
        heights is Ok && balances is Err ==> r == Err::<MigrationSchedule, MigrationError>(
            balances->Err_0,
        ),
        heights is Ok && balances is Ok && balances->Ok_0.orchard_spendable == 0 ==> r is Ok
            && r->Ok_0.transfers@.len() == 0,
        heights is Ok && balances is Ok && balances->Ok_0.orchard_spendable > 0 ==> match probe {
            Err(e) => r == Err::<MigrationSchedule, MigrationError>(e),
            Ok(SweepProbe::Failed(text)) => {
                r matches Err(MigrationError::Pipeline(m)) && m@ == "immediate sweep probe: "@
                    + text@
            },
            Ok(_) => r is Ok,
        },
{
    if let (Ok((target, anchor)), Ok(b)) = (heights, balances) {
        let crossing = choose|crossing: Result<Option<u64>, MigrationError>| #[trigger]
            is_sweep(crossing, b.orchard_spendable, probe) && match crossing {
                Err(e) => r == Err::<MigrationSchedule, MigrationError>(e),
                Ok(value) => r matches Ok(schedule) && schedule@ == schedule_of(
                    run_id,
                    swept_amounts(value),
                    target,
                    anchor,
                    0,
                ),
            };
        if b.orchard_spendable == 0 {
            schedule_carries_its_amounts(
                r->Ok_0,
                run_id,
                swept_amounts(crossing->Ok_0),
                target,
                anchor,
                0,
            );
        }
    }
}

} // verus!
