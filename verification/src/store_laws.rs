//! What holds of the store's operations taken together.

use crate::rows::{NoteView, PendingTxView, PendingView, PrepView, RunView};
use crate::state::{is_terminal_phase, phase_name, Phase};
use crate::store::{
    count_of_run, count_with_status, first_due, first_send_height, is_due, is_live_run,
    is_locked_note, is_scheduled, is_terminal_name, new_run_row, newest_live, pending_with,
    pending_with_status, preps_with_status, read_run, runs_with_phase, sent_before,
    terminal_names_are_of_terminal_phases, with_phase, without_scheduled,
    without_scheduled_keeps_the_rest, NewRun, StoreView,
};
use crate::table::{
    keys_are_unique, lookup, position, position_holds, pushed_row_is_found,
    rewritten_rows_are_found, upserted, upserted_row_is_found, Row,
};
use crate::text::{text_order_is_total, text_order_is_transitive};
use vstd::prelude::*;

verus! {

// ----- runs -----

/// A stored run is found again by its id, field by field as it was handed in, and no other run is
/// touched.
pub proof fn inserted_run_is_read_back(s: StoreView, run: NewRun, now: i64, id: Seq<char>)
    requires
        s.wf(),
        position(s.runs, run.run_id@) is None,
    ensures
        lookup(s.runs.push(new_run_row(run, now)), id) == if id == run.run_id@ {
            Some(new_run_row(run, now))
        } else {
            lookup(s.runs, id)
        },
        ({
            let read = read_run(new_run_row(run, now));
            &&& read.run_id == run.run_id@
            &&& read.account_uuid == run.account_uuid@
            &&& read.network == run.network@
            &&& read.phase == phase_name(run.phase)
            &&& read.last_error is None
        }),
{
    pushed_row_is_found(s.runs, new_run_row(run, now), id);
}

/// The active run is a live run of the account on the network, no live one is newer, and there is
/// none exactly when no run is live.
pub proof fn active_run_is_the_newest_live_one(
    runs: Seq<RunView>,
    account: Seq<char>,
    network: Seq<char>,
)
    ensures
        newest_live(runs, account, network) matches Some(r) ==> {
            &&& runs.contains(r)
            &&& is_live_run(r, account, network)
            &&& forall|i: int|
                0 <= i < runs.len() && is_live_run(#[trigger] runs[i], account, network)
                    ==> runs[i].created_at_ms <= r.created_at_ms
        },
        newest_live(runs, account, network) is None <==> forall|i: int|
            0 <= i < runs.len() ==> !is_live_run(#[trigger] runs[i], account, network),
    decreases runs.len(),
{
    if runs.len() > 0 {
        let front = runs.drop_last();
        active_run_is_the_newest_live_one(front, account, network);
        assert(forall|i: int| 0 <= i < front.len() ==> front[i] == runs[i]);
        assert(runs[runs.len() - 1] == runs.last());
        match newest_live(front, account, network) {
            Some(b) => {
                let k = choose|k: int| 0 <= k < front.len() && front[k] == b;
                assert(runs[k] == b);
                assert(is_live_run(runs[k], account, network));
            },
            None => {
                assert forall|i: int| 0 <= i < front.len() implies !is_live_run(
                    #[trigger] runs[i],
                    account,
                    network,
                ) by {
                    assert(!is_live_run(front[i], account, network));
                }
            },
        }
        let chosen = newest_live(runs, account, network);
        if chosen is Some {
            assert forall|i: int|
                0 <= i < runs.len() && is_live_run(#[trigger] runs[i], account, network) implies
                runs[i].created_at_ms <= chosen->Some_0.created_at_ms by {
                if i < front.len() {
                    assert(is_live_run(front[i], account, network));
                }
            }
        }
    }
}

/// The phase of a run is the one that was set last, with the error set along with it; the rest of
/// the run, and every other run, stays as it was.
pub proof fn set_phase_is_read_back(
    runs: Seq<RunView>,
    run_id: Seq<char>,
    phase: Phase,
    last_error: Option<Seq<char>>,
    now: i64,
    id: Seq<char>,
)
    requires
        keys_are_unique(runs),
    ensures
        ({
            let after = lookup(
                runs_with_phase(runs, run_id, phase_name(phase), last_error, now),
                id,
            );
            match lookup(runs, id) {
                Some(r) => after == Some(with_phase(r, run_id, phase_name(phase), last_error, now)),
                None => after is None,
            }
        }),
{
    let after = runs_with_phase(runs, run_id, phase_name(phase), last_error, now);
    rewritten_rows_are_found(runs, after, id);
    position_holds(runs, id);
}

/// A run that was set to a finished phase is no longer live.
pub proof fn finished_run_is_not_active(
    runs: Seq<RunView>,
    run_id: Seq<char>,
    phase: Phase,
    last_error: Option<Seq<char>>,
    now: i64,
    account: Seq<char>,
    network: Seq<char>,
)
    requires
        is_terminal_phase(phase),
    ensures
        newest_live(
            runs_with_phase(runs, run_id, phase_name(phase), last_error, now),
            account,
            network,
        ) matches Some(r) ==> r.run_id != run_id,
{
    let after = runs_with_phase(runs, run_id, phase_name(phase), last_error, now);
    terminal_names_are_of_terminal_phases(phase);
    active_run_is_the_newest_live_one(after, account, network);
    if let Some(r) = newest_live(after, account, network) {
        let k = choose|k: int| 0 <= k < after.len() && after[k] == r;
        assert(after[k] == with_phase(runs[k], run_id, phase_name(phase), last_error, now));
    }
}

/// The active run stays the active one when its phase is set to an unfinished one.
pub proof fn active_run_stays_active(
    runs: Seq<RunView>,
    run: RunView,
    phase: Phase,
    last_error: Option<Seq<char>>,
    now: i64,
    account: Seq<char>,
    network: Seq<char>,
)
    requires
        keys_are_unique(runs),
        newest_live(runs, account, network) == Some(run),
        !is_terminal_phase(phase),
    ensures
        newest_live(
            runs_with_phase(runs, run.run_id, phase_name(phase), last_error, now),
            account,
            network,
        ) == Some(with_phase(run, run.run_id, phase_name(phase), last_error, now)),
{
    terminal_names_are_of_terminal_phases(phase);
    active_run_is_the_newest_live_one(runs, account, network);
    let k = choose|k: int| 0 <= k < runs.len() && runs[k] == run;
    assert forall|i: int| 0 <= i < runs.len() && (#[trigger] runs[i]).run_id == run.run_id implies
        runs[i] == run by {
        if i < k {
            assert(runs[i].key() != runs[k].key());
        } else if k < i {
            assert(runs[k].key() != runs[i].key());
        }
    }
    let after = runs_with_phase(runs, run.run_id, phase_name(phase), last_error, now);
    newest_of_rewritten(runs, after, run.run_id, phase_name(phase), last_error, now, account, network);
}

proof fn newest_of_rewritten(
    runs: Seq<RunView>,
    after: Seq<RunView>,
    run_id: Seq<char>,
    phase: Seq<char>,
    last_error: Option<Seq<char>>,
    now: i64,
    account: Seq<char>,
    network: Seq<char>,
)
    requires
        after.len() == runs.len(),
        forall|i: int|
            0 <= i < runs.len() ==> #[trigger] after[i] == with_phase(
                runs[i],
                run_id,
                phase,
                last_error,
                now,
            ),
        forall|i: int|
            0 <= i < runs.len() && (#[trigger] runs[i]).run_id == run_id ==> !is_terminal_name(
                runs[i].phase,
            ),
        !is_terminal_name(phase),
    ensures
        newest_live(after, account, network) == match newest_live(runs, account, network) {
            Some(r) => Some(with_phase(r, run_id, phase, last_error, now)),
            None => None,
        },
    decreases runs.len(),
{
    if runs.len() > 0 {
        let front = runs.drop_last();
        assert forall|i: int| 0 <= i < front.len() implies #[trigger] after.drop_last()[i]
            == with_phase(front[i], run_id, phase, last_error, now) by {
            assert(after[i] == with_phase(runs[i], run_id, phase, last_error, now));
        }
        assert forall|i: int|
            0 <= i < front.len() && (#[trigger] front[i]).run_id == run_id implies !is_terminal_name(
            front[i].phase,
        ) by {
            assert(front[i] == runs[i]);
        }
        newest_of_rewritten(
            front,
            after.drop_last(),
            run_id,
            phase,
            last_error,
            now,
            account,
            network,
        );
        let last = runs.len() - 1;
        assert(after[last] == with_phase(runs[last], run_id, phase, last_error, now));
        assert(is_live_run(after[last], account, network) == is_live_run(
            runs[last],
            account,
            network,
        ));
    }
}

// ----- locks -----

/// A run's own notes are not locked for its own operations.
pub proof fn own_notes_are_not_locked(runs: Seq<RunView>, n: NoteView, account: Seq<char>)
    ensures
        !is_locked_note(runs, n, account, Some(n.run_id)),
{
}

/// Excluding a run takes away only that run's notes.
pub proof fn exclusion_spares_other_runs(
    runs: Seq<RunView>,
    n: NoteView,
    account: Seq<char>,
    exclude: Seq<char>,
)
    requires
        n.run_id != exclude,
    ensures
        is_locked_note(runs, n, account, Some(exclude)) == is_locked_note(runs, n, account, None),
{
}

/// A run that reaches a finished phase releases its notes; those of every other run stay as they
/// were.
pub proof fn finished_run_releases_its_notes(
    runs: Seq<RunView>,
    n: NoteView,
    run_id: Seq<char>,
    phase: Phase,
    last_error: Option<Seq<char>>,
    now: i64,
    account: Seq<char>,
    exclude: Option<Seq<char>>,
)
    requires
        keys_are_unique(runs),
        is_terminal_phase(phase),
    ensures
        ({
            let after = runs_with_phase(runs, run_id, phase_name(phase), last_error, now);
            if n.run_id == run_id {
                !is_locked_note(after, n, account, exclude)
            } else {
                is_locked_note(after, n, account, exclude) == is_locked_note(
                    runs,
                    n,
                    account,
                    exclude,
                )
            }
        }),
{
    terminal_names_are_of_terminal_phases(phase);
    set_phase_is_read_back(runs, run_id, phase, last_error, now, n.run_id);
    position_holds(runs, n.run_id);
}

// ----- pending transfers -----

proof fn sent_before_is_transitive(a: PendingView, b: PendingView, c: PendingView)
    requires
        sent_before(a, b),
        sent_before(b, c),
    ensures
        sent_before(a, c),
{
    if a.tx.next_executable_after_height == b.tx.next_executable_after_height
        && b.tx.next_executable_after_height == c.tx.next_executable_after_height {
        text_order_is_transitive(a.tx.txid_hex, b.tx.txid_hex, c.tx.txid_hex);
    }
}

/// The transfer that is sent next is due, no due transfer of the run is sent before it, and there
/// is none exactly when none is due.
pub proof fn next_due_transfer_is_the_earliest(
    rows: Seq<PendingView>,
    run_id: Seq<char>,
    tip: u32,
)
    ensures
        first_due(rows, run_id, tip) matches Some(r) ==> {
            &&& rows.contains(r)
            &&& is_due(r, run_id, tip)
            &&& forall|i: int|
                0 <= i < rows.len() && is_due(#[trigger] rows[i], run_id, tip) ==> !sent_before(
                    rows[i],
                    r,
                )
        },
        first_due(rows, run_id, tip) is None <==> forall|i: int|
            0 <= i < rows.len() ==> !is_due(#[trigger] rows[i], run_id, tip),
    decreases rows.len(),
{
    if rows.len() > 0 {
        let front = rows.drop_last();
        let last = rows.last();
        next_due_transfer_is_the_earliest(front, run_id, tip);
        assert(forall|i: int| 0 <= i < front.len() ==> front[i] == rows[i]);
        assert(rows[rows.len() - 1] == last);
        let before = first_due(front, run_id, tip);
        let chosen = first_due(rows, run_id, tip);
        match before {
            Some(b) => {
                let k = choose|k: int| 0 <= k < front.len() && front[k] == b;
                assert(rows[k] == b);
                assert(is_due(rows[k], run_id, tip));
            },
            None => {
                assert forall|i: int| 0 <= i < front.len() implies !is_due(
                    #[trigger] rows[i],
                    run_id,
                    tip,
                ) by {
                    assert(!is_due(front[i], run_id, tip));
                }
            },
        }
        if let Some(c) = chosen {
            assert forall|i: int|
                0 <= i < rows.len() && is_due(#[trigger] rows[i], run_id, tip) implies !sent_before(
                rows[i],
                c,
            ) by {
                if i < front.len() {
                    assert(is_due(front[i], run_id, tip));
                    let b = before->Some_0;
                    assert(!sent_before(front[i], b));
                    if c == last && sent_before(last, b) && sent_before(rows[i], c) {
                        sent_before_is_transitive(rows[i], last, b);
                    }
                } else {
                    text_order_is_total(last.tx.txid_hex, last.tx.txid_hex);
                }
            }
        }
    }
}

/// The next send height is the smallest among a run's scheduled transfers, and there is none
/// exactly when none is scheduled.
pub proof fn next_send_height_is_the_smallest(rows: Seq<PendingView>, run_id: Seq<char>)
    ensures
        first_send_height(rows, run_id) matches Some(h) ==> {
            &&& exists|i: int|
                0 <= i < rows.len() && is_scheduled(#[trigger] rows[i], run_id)
                    && rows[i].tx.next_executable_after_height == h
            &&& forall|i: int|
                0 <= i < rows.len() && is_scheduled(#[trigger] rows[i], run_id) ==> h
                    <= rows[i].tx.next_executable_after_height
        },
        first_send_height(rows, run_id) is None <==> forall|i: int|
            0 <= i < rows.len() ==> !is_scheduled(#[trigger] rows[i], run_id),
    decreases rows.len(),
{
    if rows.len() > 0 {
        let front = rows.drop_last();
        next_send_height_is_the_smallest(front, run_id);
        assert(forall|i: int| 0 <= i < front.len() ==> front[i] == rows[i]);
        assert(rows[rows.len() - 1] == rows.last());
        match first_send_height(front, run_id) {
            Some(h) => {
                let k = choose|k: int|
                    0 <= k < front.len() && is_scheduled(#[trigger] front[k], run_id)
                        && front[k].tx.next_executable_after_height == h;
                assert(is_scheduled(rows[k], run_id));
            },
            None => {
                assert forall|i: int| 0 <= i < front.len() implies !is_scheduled(
                    #[trigger] rows[i],
                    run_id,
                ) by {
                    assert(!is_scheduled(front[i], run_id));
                }
            },
        }
        assert forall|i: int|
            0 <= i < rows.len() && is_scheduled(#[trigger] rows[i], run_id) implies first_send_height(
            rows,
            run_id,
        ) is Some && first_send_height(rows, run_id)->Some_0
            <= rows[i].tx.next_executable_after_height by {
            if i < front.len() {
                assert(is_scheduled(front[i], run_id));
            }
        }
    }
}

/// The transfer that is sent next has the smallest send height of the run's scheduled ones.
pub proof fn next_due_transfer_has_the_next_send_height(
    rows: Seq<PendingView>,
    run_id: Seq<char>,
    tip: u32,
)
    ensures
        first_due(rows, run_id, tip) matches Some(r) ==> first_send_height(rows, run_id) == Some(
            r.tx.next_executable_after_height,
        ),
        first_due(rows, run_id, tip) is None ==> (first_send_height(rows, run_id) matches Some(h)
            ==> h > tip),
{
    next_due_transfer_is_the_earliest(rows, run_id, tip);
    next_send_height_is_the_smallest(rows, run_id);
    match first_due(rows, run_id, tip) {
        Some(r) => {
            let k = choose|k: int| 0 <= k < rows.len() && rows[k] == r;
            assert(is_scheduled(rows[k], run_id));
            let h = first_send_height(rows, run_id)->Some_0;
            let m = choose|i: int|
                0 <= i < rows.len() && is_scheduled(#[trigger] rows[i], run_id)
                    && rows[i].tx.next_executable_after_height == h;
            assert(is_due(rows[m], run_id, tip));
        },
        None => {
            if let Some(h) = first_send_height(rows, run_id) {
                let m = choose|i: int|
                    0 <= i < rows.len() && is_scheduled(#[trigger] rows[i], run_id)
                        && rows[i].tx.next_executable_after_height == h;
                assert(!is_due(rows[m], run_id, tip));
            }
        },
    }
}

/// A stored transfer is found again under its transaction id, field by field; every other transfer
/// is found as before.
pub proof fn inserted_transfer_is_read_back(
    s: StoreView,
    run_id: Seq<char>,
    tx: PendingTxView,
    txid: Seq<char>,
)
    requires
        s.wf(),
    ensures
        lookup(pending_with(s.pending, run_id, seq![tx]), txid) == if txid == tx.txid_hex {
            Some(PendingView { run_id, tx })
        } else {
            lookup(s.pending, txid)
        },
{
    assert(seq![tx].drop_last() =~= Seq::<PendingTxView>::empty());
    assert(pending_with(s.pending, run_id, seq![tx].drop_last()) == s.pending);
    upserted_row_is_found(s.pending, PendingView { run_id, tx }, txid);
}

/// A transfer whose status was set to anything but `scheduled` is not due, whatever the tip; the
/// others are due as before.
pub proof fn marked_transfer_is_not_due(
    rows: Seq<PendingView>,
    txid: Seq<char>,
    status: Seq<char>,
    run_id: Seq<char>,
    tip: u32,
    i: int,
)
    requires
        status != "scheduled"@,
        0 <= i < rows.len(),
    ensures
        is_due(pending_with_status(rows, txid, status)[i], run_id, tip) == (is_due(
            rows[i],
            run_id,
            tip,
        ) && rows[i].tx.txid_hex != txid),
{
}

/// Once a run's scheduled transfers are cleared none of its transfers is due and none is scheduled;
/// its other transfers, and those of other runs, are all still there.
pub proof fn cleared_run_has_nothing_due(rows: Seq<PendingView>, run_id: Seq<char>, tip: u32)
    ensures
        first_due(without_scheduled(rows, run_id), run_id, tip) is None,
        first_send_height(without_scheduled(rows, run_id), run_id) is None,
        count_with_status(without_scheduled(rows, run_id), run_id, "scheduled"@) == 0,
        forall|r: PendingView|
            rows.contains(r) && !is_scheduled(r, run_id) ==> #[trigger] without_scheduled(
                rows,
                run_id,
            ).contains(r),
{
    let left = without_scheduled(rows, run_id);
    without_scheduled_keeps_the_rest(rows, run_id);
    next_due_transfer_is_the_earliest(left, run_id, tip);
    next_send_height_is_the_smallest(left, run_id);
    assert forall|i: int| 0 <= i < left.len() implies !is_scheduled(
        #[trigger] left[i],
        run_id,
    ) by {
        assert(left.contains(left[i]));
    }
    nothing_scheduled_counts_zero(left, run_id);
}

proof fn nothing_scheduled_counts_zero(rows: Seq<PendingView>, run_id: Seq<char>)
    requires
        forall|i: int| 0 <= i < rows.len() ==> !is_scheduled(#[trigger] rows[i], run_id),
    ensures
        count_with_status(rows, run_id, "scheduled"@) == 0,
    decreases rows.len(),
{
    if rows.len() > 0 {
        let front = rows.drop_last();
        assert forall|i: int| 0 <= i < front.len() implies !is_scheduled(
            #[trigger] front[i],
            run_id,
        ) by {
            assert(!is_scheduled(rows[i], run_id));
        }
        nothing_scheduled_counts_zero(front, run_id);
        assert(!is_scheduled(rows[rows.len() - 1], run_id));
    }
}

/// The counts by status never exceed the total.
pub proof fn totals_add_up(rows: Seq<PendingView>, run_id: Seq<char>)
    ensures
        count_with_status(rows, run_id, "scheduled"@) + count_with_status(
            rows,
            run_id,
            "broadcasted"@,
        ) + count_with_status(rows, run_id, "confirmed"@) <= count_of_run(rows, run_id)
            <= rows.len(),
    decreases rows.len(),
{
    if rows.len() > 0 {
        reveal_strlit("scheduled");
        reveal_strlit("broadcasted");
        reveal_strlit("confirmed");
        assert("scheduled"@.len() == 9 && "confirmed"@.len() == 9 && "broadcasted"@.len() == 11);
        assert("scheduled"@[0] == 's' && "confirmed"@[0] == 'c');
        totals_add_up(rows.drop_last(), run_id);
    }
}

// ----- the prep transaction -----

/// A stored prep transaction is read back as it was written; other runs' stay as they were.
pub proof fn inserted_prep_is_read_back(s: StoreView, prep: PrepView, run_id: Seq<char>)
    requires
        s.wf(),
    ensures
        lookup(upserted(s.prep, prep), run_id) == if run_id == prep.run_id {
            Some(prep)
        } else {
            lookup(s.prep, run_id)
        },
{
    upserted_row_is_found(s.prep, prep, run_id);
}

/// The status of a prep transaction is the one that was set last; nothing else of it changes.
pub proof fn set_prep_status_is_read_back(
    rows: Seq<PrepView>,
    run_id: Seq<char>,
    status: Seq<char>,
)
    requires
        keys_are_unique(rows),
    ensures
        lookup(preps_with_status(rows, run_id, status), run_id) == match lookup(rows, run_id) {
            Some(p) => Some(PrepView { status, ..p }),
            None => None,
        },
{
    rewritten_rows_are_found(rows, preps_with_status(rows, run_id, status), run_id);
    position_holds(rows, run_id);
}

} // verus!
