//! Migration runs, their prepared notes and their pre-signed transactions.
//!
//! A [`Store`] holds the engine's four tables in memory; the application reads them from the wallet
//! database before an operation and writes them back after it. Times are handed in, in milliseconds.

use crate::json::{json_array, parse_target_values, target_values_of, target_values_text};
use crate::rows::{
    copy_bytes, copy_optional, NoteView, PendingTotals, PendingTxRow, PendingTxView, PendingView,
    PrepTxRow, PrepView, PreparedNote, PreparedNoteView, RunRow, RunRowView, RunView, StoredNote,
    StoredPending, StoredRun,
};
use crate::state::{is_terminal_phase, phase_name, phase_names_are_distinct, Phase};
use crate::table::{
    holds_at, keys_are_unique, lookup, position, position_holds, position_is, position_is_none,
    pushed_row_is_found, rewritten_rows_are_found, upserted, upserted_row_is_found, Row,
};
use crate::text::{ascii_lower, comes_before, lower, same_text, text_before};
use vstd::prelude::*;
use vstd::string::*;

verus! {

/// Fields needed to create a new migration run.
pub struct NewRun<'a> {
    pub run_id: &'a str,
    pub account_uuid: &'a str,
    pub network: &'a str,
    pub db_fingerprint: &'a str,
    pub phase: Phase,
    pub prep_txid: Option<&'a str>,
    pub target_values: &'a [u64],
}

/// The engine's tables.
pub struct Store {
    runs: Vec<StoredRun>,
    notes: Vec<StoredNote>,
    prep: Vec<PrepTxRow>,
    pending: Vec<StoredPending>,
}

/// The rows of the engine's tables, the oldest first.
#[verifier::ext_equal]
pub struct StoreView {
    pub runs: Seq<RunView>,
    pub notes: Seq<NoteView>,
    pub prep: Seq<PrepView>,
    pub pending: Seq<PendingView>,
}

impl StoreView {
    /// In each table the primary keys are unique.
    pub open spec fn wf(self) -> bool {
        &&& keys_are_unique(self.runs)
        &&& keys_are_unique(self.notes)
        &&& keys_are_unique(self.prep)
        &&& keys_are_unique(self.pending)
    }
}

pub open spec fn run_views(rows: Seq<StoredRun>) -> Seq<RunView> {
    rows.map_values(|r: StoredRun| r@)
}

pub open spec fn note_views(rows: Seq<StoredNote>) -> Seq<NoteView> {
    rows.map_values(|r: StoredNote| r@)
}

pub open spec fn prep_views(rows: Seq<PrepTxRow>) -> Seq<PrepView> {
    rows.map_values(|r: PrepTxRow| r@)
}

pub open spec fn pending_views(rows: Seq<StoredPending>) -> Seq<PendingView> {
    rows.map_values(|r: StoredPending| r@)
}

impl View for Store {
    type V = StoreView;

    closed spec fn view(&self) -> StoreView {
        StoreView {
            runs: run_views(self.runs@),
            notes: note_views(self.notes@),
            prep: prep_views(self.prep@),
            pending: pending_views(self.pending@),
        }
    }
}

/// What a store of some rows is: one that holds them, unless two rows of a table share a primary key.
pub open spec fn is_store_of(
    store: Option<Store>,
    runs: Seq<StoredRun>,
    notes: Seq<StoredNote>,
    prep: Seq<PrepTxRow>,
    pending: Seq<StoredPending>,
) -> bool {
    let tables = StoreView {
        runs: run_views(runs),
        notes: note_views(notes),
        prep: prep_views(prep),
        pending: pending_views(pending),
    };
    &&& store is Some <==> tables.wf()
    &&& store matches Some(s) ==> s@ == tables
}

/// The tables before anything was stored.
pub fn init() -> (store: Store)
    ensures
        store@.wf(),
        store@ == (StoreView {
            runs: Seq::empty(),
            notes: Seq::empty(),
            prep: Seq::empty(),
            pending: Seq::empty(),
        }),
{
    let store = Store { runs: Vec::new(), notes: Vec::new(), prep: Vec::new(), pending: Vec::new() };
    assert(store@ =~= StoreView {
        runs: Seq::empty(),
        notes: Seq::empty(),
        prep: Seq::empty(),
        pending: Seq::empty(),
    });
    store
}

impl Store {
    /// The store that holds the given rows; `None` where two rows of a table share a primary key.
    pub fn from_tables(
        runs: Vec<StoredRun>,
        notes: Vec<StoredNote>,
        prep: Vec<PrepTxRow>,
        pending: Vec<StoredPending>,
    ) -> (store: Option<Store>)
        ensures
            is_store_of(store, runs@, notes@, prep@, pending@),
    {
        let unique: bool = runs_unique(&runs) && notes_unique(&notes) && prep_unique(&prep)
            && pending_unique(&pending);
        if unique {
            Some(Store { runs, notes, prep, pending })
        } else {
            None
        }
    }

    /// The runs, the oldest first.
    pub fn runs(&self) -> (rows: &Vec<StoredRun>)
        ensures
            run_views(rows@) == self@.runs,
    {
        &self.runs
    }

    /// The prepared notes, the oldest first.
    pub fn notes(&self) -> (rows: &Vec<StoredNote>)
        ensures
            note_views(rows@) == self@.notes,
    {
        &self.notes
    }

    /// The prep transactions, the oldest first.
    pub fn prep(&self) -> (rows: &Vec<PrepTxRow>)
        ensures
            prep_views(rows@) == self@.prep,
    {
        &self.prep
    }

    /// The pending transfers, the oldest first.
    pub fn pending(&self) -> (rows: &Vec<StoredPending>)
        ensures
            pending_views(rows@) == self@.pending,
    {
        &self.pending
    }
}

fn runs_unique(rows: &Vec<StoredRun>) -> (unique: bool)
    ensures
        unique == keys_are_unique(run_views(rows@)),
{
    let ghost views = run_views(rows@);
    for j in 0..rows.len()
        invariant
            views == run_views(rows@),
            forall|a: int, b: int|
                0 <= a < b < j ==> (#[trigger] views[a]).key() != (#[trigger] views[b]).key(),
    {
        for i in 0..j
            invariant
                views == run_views(rows@),
                j < rows@.len(),
                forall|a: int| 0 <= a < i ==> (#[trigger] views[a]).key() != views[j as int].key(),
        {
            if same_text(rows[i].run_id.as_str(), rows[j].run_id.as_str()) {
                assert(views[i as int].key() == views[j as int].key());
                return false;
            }
        }
    }
    true
}

fn notes_unique(rows: &Vec<StoredNote>) -> (unique: bool)
    ensures
        unique == keys_are_unique(note_views(rows@)),
{
    let ghost views = note_views(rows@);
    for j in 0..rows.len()
        invariant
            views == note_views(rows@),
            forall|a: int, b: int|
                0 <= a < b < j ==> (#[trigger] views[a]).key() != (#[trigger] views[b]).key(),
    {
        for i in 0..j
            invariant
                views == note_views(rows@),
                j < rows@.len(),
                forall|a: int| 0 <= a < i ==> (#[trigger] views[a]).key() != views[j as int].key(),
        {
            if rows[i].note.output_index == rows[j].note.output_index && same_text(
                rows[i].note.txid_hex.as_str(),
                rows[j].note.txid_hex.as_str(),
            ) && same_text(rows[i].run_id.as_str(), rows[j].run_id.as_str()) {
                assert(views[i as int].key() == views[j as int].key());
                return false;
            }
        }
    }
    true
}

fn prep_unique(rows: &Vec<PrepTxRow>) -> (unique: bool)
    ensures
        unique == keys_are_unique(prep_views(rows@)),
{
    let ghost views = prep_views(rows@);
    for j in 0..rows.len()
        invariant
            views == prep_views(rows@),
            forall|a: int, b: int|
                0 <= a < b < j ==> (#[trigger] views[a]).key() != (#[trigger] views[b]).key(),
    {
        for i in 0..j
            invariant
                views == prep_views(rows@),
                j < rows@.len(),
                forall|a: int| 0 <= a < i ==> (#[trigger] views[a]).key() != views[j as int].key(),
        {
            if same_text(rows[i].run_id.as_str(), rows[j].run_id.as_str()) {
                assert(views[i as int].key() == views[j as int].key());
                return false;
            }
        }
    }
    true
}

fn pending_unique(rows: &Vec<StoredPending>) -> (unique: bool)
    ensures
        unique == keys_are_unique(pending_views(rows@)),
{
    let ghost views = pending_views(rows@);
    for j in 0..rows.len()
        invariant
            views == pending_views(rows@),
            forall|a: int, b: int|
                0 <= a < b < j ==> (#[trigger] views[a]).key() != (#[trigger] views[b]).key(),
    {
        for i in 0..j
            invariant
                views == pending_views(rows@),
                j < rows@.len(),
                forall|a: int| 0 <= a < i ==> (#[trigger] views[a]).key() != views[j as int].key(),
        {
            if same_text(rows[i].tx.txid_hex.as_str(), rows[j].tx.txid_hex.as_str()) {
                assert(views[i as int].key() == views[j as int].key());
                return false;
            }
        }
    }
    true
}

// ----- finding rows -----

impl Store {
    fn find_run(&self, run_id: &str) -> (at: Option<usize>)
        requires
            self@.wf(),
        ensures
            (match at {
                Some(i) => Some(i as int),
                None => None,
            }) == position(self@.runs, run_id@),
            at matches Some(i) ==> holds_at(self@.runs, run_id@, i as int),
    {
        let total: usize = self.runs.len();
        for i in 0..total
            invariant
                total == self.runs@.len(),
                self@.wf(),
                forall|k: int| 0 <= k < i ==> (#[trigger] self@.runs[k]).key() != run_id@,
        {
            assert(self@.runs[i as int] == self.runs@[i as int]@);
            if same_text(self.runs[i].run_id.as_str(), run_id) {
                proof {
                    position_is(self@.runs, run_id@, i as int);
                }
                return Some(i);
            }
        }
        proof {
            position_is_none(self@.runs, run_id@);
        }
        None
    }

    fn find_prep(&self, run_id: &str) -> (at: Option<usize>)
        requires
            self@.wf(),
        ensures
            (match at {
                Some(i) => Some(i as int),
                None => None,
            }) == position(self@.prep, run_id@),
            at matches Some(i) ==> holds_at(self@.prep, run_id@, i as int),
    {
        let total: usize = self.prep.len();
        for i in 0..total
            invariant
                total == self.prep@.len(),
                self@.wf(),
                forall|k: int| 0 <= k < i ==> (#[trigger] self@.prep[k]).key() != run_id@,
        {
            assert(self@.prep[i as int] == self.prep@[i as int]@);
            if same_text(self.prep[i].run_id.as_str(), run_id) {
                proof {
                    position_is(self@.prep, run_id@, i as int);
                }
                return Some(i);
            }
        }
        proof {
            position_is_none(self@.prep, run_id@);
        }
        None
    }

    fn find_pending(&self, txid_hex: &str) -> (at: Option<usize>)
        requires
            self@.wf(),
        ensures
            (match at {
                Some(i) => Some(i as int),
                None => None,
            }) == position(self@.pending, txid_hex@),
            at matches Some(i) ==> holds_at(self@.pending, txid_hex@, i as int),
    {
        let total: usize = self.pending.len();
        for i in 0..total
            invariant
                total == self.pending@.len(),
                self@.wf(),
                forall|k: int| 0 <= k < i ==> (#[trigger] self@.pending[k]).key() != txid_hex@,
        {
            assert(self@.pending[i as int] == self.pending@[i as int]@);
            if same_text(self.pending[i].tx.txid_hex.as_str(), txid_hex) {
                proof {
                    position_is(self@.pending, txid_hex@, i as int);
                }
                return Some(i);
            }
        }
        proof {
            position_is_none(self@.pending, txid_hex@);
        }
        None
    }

    fn find_note(&self, run_id: &str, txid_hex: &str, output_index: u32) -> (at: Option<usize>)
        requires
            self@.wf(),
        ensures
            (match at {
                Some(i) => Some(i as int),
                None => None,
            }) == position(self@.notes, (run_id@, txid_hex@, output_index)),
            at matches Some(i) ==> holds_at(
                self@.notes,
                (run_id@, txid_hex@, output_index),
                i as int,
            ),
    {
        let ghost key = (run_id@, txid_hex@, output_index);
        let total: usize = self.notes.len();
        for i in 0..total
            invariant
                total == self.notes@.len(),
                self@.wf(),
                key == (run_id@, txid_hex@, output_index),
                forall|k: int| 0 <= k < i ==> (#[trigger] self@.notes[k]).key() != key,
        {
            assert(self@.notes[i as int] == self.notes@[i as int]@);
            if self.notes[i].note.output_index == output_index && same_text(
                self.notes[i].note.txid_hex.as_str(),
                txid_hex,
            ) && same_text(self.notes[i].run_id.as_str(), run_id) {
                proof {
                    position_is(self@.notes, key, i as int);
                }
                return Some(i);
            }
        }
        proof {
            position_is_none(self@.notes, key);
        }
        None
    }
}


// ----- runs -----

/// The row of a new run.
pub open spec fn new_run_row(run: NewRun, now: i64) -> RunView {
    RunView {
        run_id: run.run_id@,
        account_uuid: run.account_uuid@,
        network: run.network@,
        db_fingerprint: run.db_fingerprint@,
        phase: phase_name(run.phase),
        created_at_ms: now,
        updated_at_ms: now,
        prep_txid: match run.prep_txid {
            Some(t) => Some(t@),
            None => None,
        },
        target_values_json: json_array(run.target_values@),
        last_error: None,
    }
}

/// A stored run as the engine reads it.
pub open spec fn read_run(r: RunView) -> RunRowView {
    RunRowView {
        run_id: r.run_id,
        account_uuid: r.account_uuid,
        network: r.network,
        phase: r.phase,
        prep_txid: r.prep_txid,
        target_values: target_values_of(r.target_values_json),
        last_error: r.last_error,
    }
}

/// The view of an optional run.
pub open spec fn optional_run(r: Option<RunRow>) -> Option<RunRowView> {
    match r {
        Some(row) => Some(row@),
        None => None,
    }
}

/// What the engine reads of an optional stored run.
pub open spec fn read_optional_run(r: Option<RunView>) -> Option<RunRowView> {
    match r {
        Some(row) => Some(read_run(row)),
        None => None,
    }
}

/// What SQLite reports of a run whose id is already taken.
pub const RUN_ID_TAKEN: &'static str = "UNIQUE constraint failed: ext_ironwood_migration_runs.run_id";

/// The `rusqlite::Error` of a primary key that is already taken, with a message: the failure that
/// `rusqlite::ffi::Error::new` makes of SQLite's result code for it.
pub uninterp spec fn key_taken_error(message: Seq<char>) -> rusqlite::Error;

/// `rusqlite::ffi::Error::new` with SQLite's result code for a primary key that is already taken,
/// as the error that rusqlite returns for it: it is made of the message alone.
#[verifier::external_body]
pub(crate) fn primary_key_taken(message: &str) -> (e: rusqlite::Error)
    ensures
        e == key_taken_error(message@),
{
    rusqlite::Error::SqliteFailure(
        rusqlite::ffi::Error::new(rusqlite::ffi::SQLITE_CONSTRAINT_PRIMARYKEY),
        Some(message.to_string()),
    )
}

fn read_stored_run(r: &StoredRun) -> (row: RunRow)
    ensures
        row@ == read_run(r@),
        forall|written: Seq<u64>|
            r.target_values_json@ == #[trigger] json_array(written) ==> row.target_values@
                == written,
{
    RunRow {
        run_id: r.run_id.clone(),
        account_uuid: r.account_uuid.clone(),
        network: r.network.clone(),
        phase: r.phase.clone(),
        prep_txid: copy_optional(&r.prep_txid),
        target_values: parse_target_values(r.target_values_json.as_str()),
        last_error: copy_optional(&r.last_error),
    }
}

/// What storing a new run gives, and leaves in the tables: it fails where its id is taken.
pub open spec fn is_run_inserted(
    r: Result<(), rusqlite::Error>,
    before: StoreView,
    after: StoreView,
    run: NewRun,
    now: i64,
) -> bool {
    &&& r is Ok <==> position(before.runs, run.run_id@) is None
    &&& r is Ok ==> after == (StoreView {
        runs: before.runs.push(new_run_row(run, now)),
        ..before
    })
    &&& r matches Err(e) ==> e == key_taken_error(RUN_ID_TAKEN@) && after == before
}

/// Stores a new run; fails, and stores nothing, where a run with its id exists.
pub fn insert_run(store: &mut Store, run: &NewRun, now: i64) -> (r: Result<(), rusqlite::Error>)
    requires
        old(store)@.wf(),
    ensures
        final(store)@.wf(),
        is_run_inserted(r, old(store)@, final(store)@, *run, now),
{
    if store.find_run(run.run_id).is_some() {
        return Err(primary_key_taken(RUN_ID_TAKEN));
    }
    let row = StoredRun {
        run_id: run.run_id.to_owned(),
        account_uuid: run.account_uuid.to_owned(),
        network: run.network.to_owned(),
        db_fingerprint: run.db_fingerprint.to_owned(),
        phase: run.phase.as_str().to_owned(),
        created_at_ms: now,
        updated_at_ms: now,
        prep_txid: match run.prep_txid {
            Some(t) => Some(t.to_owned()),
            None => None,
        },
        target_values_json: target_values_text(run.target_values),
        last_error: None,
    };
    let ghost before = store@;
    proof {
        pushed_row_is_found(before.runs, row@, run.run_id@);
        assert(row@ == new_run_row(*run, now));
    }
    let ghost view = row@;
    store.runs.push(row);
    proof {
        assert(store@ =~= StoreView { runs: before.runs.push(view), ..before });
    }
    Ok(())
}

/// What reading a run by its id gives.
pub open spec fn is_run_read(run: Option<RunRow>, s: StoreView, run_id: Seq<char>) -> bool {
    optional_run(run) == read_optional_run(lookup(s.runs, run_id))
}

/// The run with an id.
pub fn run_by_id(store: &Store, run_id: &str) -> (run: Option<RunRow>)
    requires
        store@.wf(),
    ensures
        is_run_read(run, store@, run_id@),
        forall|written: Seq<u64>|
            #![trigger json_array(written)]
            (lookup(store@.runs, run_id@) matches Some(r) && r.target_values_json == json_array(
                written,
            )) ==> run.unwrap().target_values@ == written,
{
    match store.find_run(run_id) {
        Some(i) => {
            assert(store@.runs[i as int] == store.runs@[i as int]@);
            Some(read_stored_run(&store.runs[i]))
        },
        None => None,
    }
}

/// The names of the phases in which a run is finished.
pub open spec fn is_terminal_name(name: Seq<char>) -> bool {
    name == "complete"@ || name == "failed_terminal"@ || name == "abandoned"@
}

/// The finished phases are those with a terminal name.
pub proof fn terminal_names_are_of_terminal_phases(p: Phase)
    ensures
        is_terminal_name(phase_name(p)) == is_terminal_phase(p),
{
    if phase_name(p) == phase_name(Phase::Complete) {
        phase_names_are_distinct(p, Phase::Complete);
    }
    if phase_name(p) == phase_name(Phase::FailedTerminal) {
        phase_names_are_distinct(p, Phase::FailedTerminal);
    }
    if phase_name(p) == phase_name(Phase::Abandoned) {
        phase_names_are_distinct(p, Phase::Abandoned);
    }
}

fn terminal_name(name: &str) -> (b: bool)
    ensures
        b == is_terminal_name(name@),
{
    same_text(name, "complete") || same_text(name, "failed_terminal") || same_text(
        name,
        "abandoned",
    )
}

/// An unfinished run of an account on a network.
pub open spec fn is_live_run(r: RunView, account: Seq<char>, network: Seq<char>) -> bool {
    r.account_uuid == account && r.network == network && !is_terminal_name(r.phase)
}

/// The live run that was created last; of several created at one time the one stored last.
pub open spec fn newest_live(runs: Seq<RunView>, account: Seq<char>, network: Seq<char>) -> Option<
    RunView,
>
    decreases runs.len(),
{
    if runs.len() == 0 {
        None
    } else {
        let before = newest_live(runs.drop_last(), account, network);
        let last = runs.last();
        if is_live_run(last, account, network) && (before matches Some(b) ==> b.created_at_ms
            <= last.created_at_ms) {
            Some(last)
        } else {
            before
        }
    }
}

/// The account's active run on a network: the newest one that is not finished.
pub fn active_run(store: &Store, account_uuid: &str, network: &str) -> (run: Option<RunRow>)
    ensures
        optional_run(run) == read_optional_run(
            newest_live(store@.runs, account_uuid@, network@),
        ),
        forall|written: Seq<u64>|
            #![trigger json_array(written)]
            (newest_live(store@.runs, account_uuid@, network@) matches Some(r)
                && r.target_values_json == json_array(written)) ==> run.unwrap().target_values@
                == written,
{
    let total: usize = store.runs.len();
    let mut best: Option<usize> = None;
    for i in 0..total
        invariant
            total == store.runs@.len(),
            best matches Some(b) ==> b < i && newest_live(
                store@.runs.take(i as int),
                account_uuid@,
                network@,
            ) == Some(store@.runs[b as int]),
            best is None ==> newest_live(store@.runs.take(i as int), account_uuid@, network@)
                == None::<RunView>,
    {
        assert(store@.runs[i as int] == store.runs@[i as int]@);
        assert(store@.runs.take(i + 1).drop_last() =~= store@.runs.take(i as int));
        let row: &StoredRun = &store.runs[i];
        let live: bool = same_text(row.account_uuid.as_str(), account_uuid) && same_text(
            row.network.as_str(),
            network,
        ) && !terminal_name(row.phase.as_str());
        if live {
            match best {
                Some(b) => {
                    assert(store@.runs[b as int] == store.runs@[b as int]@);
                    if store.runs[b].created_at_ms <= row.created_at_ms {
                        best = Some(i);
                    }
                },
                None => {
                    best = Some(i);
                },
            }
        }
    }
    assert(store@.runs.take(total as int) =~= store@.runs);
    match best {
        Some(b) => {
            assert(store@.runs[b as int] == store.runs@[b as int]@);
            Some(read_stored_run(&store.runs[b]))
        },
        None => None,
    }
}

/// A run after its phase was set, if it is the one with the given id.
pub open spec fn with_phase(
    r: RunView,
    run_id: Seq<char>,
    phase: Seq<char>,
    last_error: Option<Seq<char>>,
    now: i64,
) -> RunView {
    if r.run_id == run_id {
        RunView { phase, last_error, updated_at_ms: now, ..r }
    } else {
        r
    }
}

/// The runs after the phase of one was set.
pub open spec fn runs_with_phase(
    runs: Seq<RunView>,
    run_id: Seq<char>,
    phase: Seq<char>,
    last_error: Option<Seq<char>>,
    now: i64,
) -> Seq<RunView> {
    Seq::new(runs.len(), |i: int| with_phase(runs[i], run_id, phase, last_error, now))
}

/// The characters of an optional borrowed text.
pub open spec fn borrowed_text(t: Option<&str>) -> Option<Seq<char>> {
    match t {
        Some(s) => Some(s@),
        None => None,
    }
}

/// Sets a run's phase and last error; where no run has the id nothing changes.
pub fn set_phase(store: &mut Store, run_id: &str, phase: Phase, last_error: Option<&str>, now: i64)
    requires
        old(store)@.wf(),
    ensures
        final(store)@.wf(),
        final(store)@ == (StoreView {
            runs: runs_with_phase(
                old(store)@.runs,
                run_id@,
                phase_name(phase),
                borrowed_text(last_error),
                now,
            ),
            ..old(store)@
        }),
{
    let ghost before = store@;
    let ghost after = runs_with_phase(
        before.runs,
        run_id@,
        phase_name(phase),
        borrowed_text(last_error),
        now,
    );
    proof {
        rewritten_rows_are_found(before.runs, after, run_id@);
        position_holds(before.runs, run_id@);
    }
    match store.find_run(run_id) {
        Some(i) => {
            let mut row = store.runs.remove(i);
            row.phase = phase.as_str().to_owned();
            row.last_error = match last_error {
                Some(e) => Some(e.to_owned()),
                None => None,
            };
            row.updated_at_ms = now;
            store.runs.insert(i, row);
            proof {
                assert forall|k: int| 0 <= k < before.runs.len() implies store@.runs[k]
                    == after[k] by {
                    if k < i {
                        assert(before.runs[k].key() != before.runs[i as int].key());
                    } else if k > i {
                        assert(before.runs[i as int].key() != before.runs[k].key());
                    }
                }
                assert(store@ =~= StoreView { runs: after, ..before });
            }
        },
        None => {
            proof {
                assert(after =~= before.runs);
                assert(store@ =~= StoreView { runs: after, ..before });
            }
        },
    }
}


// ----- prepared notes -----

/// The views of some notes.
pub open spec fn prepared_views(notes: Seq<PreparedNote>) -> Seq<PreparedNoteView> {
    notes.map_values(|n: PreparedNote| n@)
}

/// The table after a run's notes were inserted one after another, each in place of a row with the
/// same key.
pub open spec fn notes_with(rows: Seq<NoteView>, run_id: Seq<char>, notes: Seq<PreparedNoteView>) -> Seq<
    NoteView,
>
    decreases notes.len(),
{
    if notes.len() == 0 {
        rows
    } else {
        upserted(
            notes_with(rows, run_id, notes.drop_last()),
            NoteView { run_id, note: notes.last() },
        )
    }
}

/// What storing the notes of a run leaves in the tables.
pub open spec fn are_notes_stored(
    before: StoreView,
    after: StoreView,
    run_id: Seq<char>,
    notes: Seq<PreparedNote>,
) -> bool {
    after == (StoreView {
        notes: notes_with(before.notes, run_id, prepared_views(notes)),
        ..before
    })
}

/// Stores the notes that a run prepared.
pub fn insert_prepared_notes(store: &mut Store, run_id: &str, notes: &[PreparedNote])
    requires
        old(store)@.wf(),
    ensures
        final(store)@.wf(),
        are_notes_stored(old(store)@, final(store)@, run_id@, notes@),
{
    let ghost before = store@;
    let ghost views = prepared_views(notes@);
    assert(views.take(0) =~= Seq::<PreparedNoteView>::empty());
    for i in 0..notes.len()
        invariant
            views == prepared_views(notes@),
            store@.wf(),
            store@ == (StoreView {
                notes: notes_with(before.notes, run_id@, views.take(i as int)),
                ..before
            }),
    {
        let row = StoredNote { run_id: run_id.to_owned(), note: notes[i].duplicate() };
        let ghost view = row@;
        let ghost at = store@;
        proof {
            assert(views.take(i + 1).drop_last() =~= views.take(i as int));
            upserted_row_is_found(at.notes, view, view.key());
        }
        match store.find_note(run_id, notes[i].txid_hex.as_str(), notes[i].output_index) {
            Some(k) => {
                let _ = store.notes.remove(k);
                store.notes.push(row);
                assert(store@ =~= StoreView {
                    notes: at.notes.remove(k as int).push(view),
                    ..at
                });
            },
            None => {
                store.notes.push(row);
                assert(store@ =~= StoreView { notes: at.notes.push(view), ..at });
            },
        }
    }
    assert(views.take(views.len() as int) =~= views);
}

/// A reference to a note: the transaction that made it, in lower case, and its output index.
pub open spec fn note_ref(n: NoteView) -> (Seq<char>, u32) {
    (lower(n.note.txid_hex), n.note.output_index)
}

/// A note that is locked by an unfinished run of the account other than the excluded one.
pub open spec fn is_locked_note(
    runs: Seq<RunView>,
    n: NoteView,
    account: Seq<char>,
    exclude: Option<Seq<char>>,
) -> bool {
    &&& n.note.lock_state == "locked"@
    &&& exclude != Some(n.run_id)
    &&& lookup(runs, n.run_id) matches Some(r) && r.account_uuid == account && !is_terminal_name(
        r.phase,
    )
}

/// The references of the notes that are locked for an account.
pub open spec fn locked_refs(s: StoreView, account: Seq<char>, exclude: Option<Seq<char>>) -> Set<
    (Seq<char>, u32),
> {
    Set::new(
        |r: (Seq<char>, u32)|
            exists|i: int|
                0 <= i < s.notes.len() && is_locked_note(s.runs, #[trigger] s.notes[i], account, exclude)
                    && note_ref(s.notes[i]) == r,
    )
}

/// The views of some note references.
pub open spec fn ref_views(refs: Seq<(String, u32)>) -> Seq<(Seq<char>, u32)> {
    refs.map_values(|r: (String, u32)| (r.0@, r.1))
}

/// Whether a reference stands among some others.
pub fn has_ref(refs: &[(String, u32)], txid: &str, index: u32) -> (found: bool)
    ensures
        found == ref_views(refs@).contains((txid@, index)),
{
    for i in 0..refs.len()
        invariant
            forall|k: int| 0 <= k < i ==> #[trigger] ref_views(refs@)[k] != (txid@, index),
    {
        assert(ref_views(refs@)[i as int] == (refs@[i as int].0@, refs@[i as int].1));
        if refs[i].1 == index && same_text(refs[i].0.as_str(), txid) {
            return true;
        }
    }
    false
}

/// Locked prepared-note refs of the account's live (non-terminal) runs, excluding `exclude_run_id`
/// when given; none is listed twice. A run's own operations pass their run id: the schedule
/// transfers must spend the notes the run's split prepared (locks exist to keep other migration
/// operations off them), and the split itself predates its notes. Nothing ever unlocks a note; runs
/// release theirs by reaching a terminal phase.
pub fn locked_note_refs(store: &Store, account_uuid: &str, exclude_run_id: Option<&str>) -> (refs:
    Vec<(String, u32)>)
    requires
        store@.wf(),
    ensures
        ref_views(refs@).to_set() == locked_refs(
            store@,
            account_uuid@,
            borrowed_text(exclude_run_id),
        ),
        ref_views(refs@).no_duplicates(),
{
    let mut refs: Vec<(String, u32)> = Vec::new();
    let ghost exclude = borrowed_text(exclude_run_id);
    let ghost account = account_uuid@;
    for i in 0..store.notes.len()
        invariant
            store@.wf(),
            account == account_uuid@,
            exclude == borrowed_text(exclude_run_id),
            ref_views(refs@).no_duplicates(),
            forall|r: (Seq<char>, u32)| #[trigger]
                ref_views(refs@).contains(r) <==> exists|k: int|
                    0 <= k < i && is_locked_note(
                        store@.runs,
                        #[trigger] store@.notes[k],
                        account,
                        exclude,
                    ) && note_ref(store@.notes[k]) == r,
    {
        let row: &StoredNote = &store.notes[i];
        assert(store@.notes[i as int] == row@);
        let excluded: bool = match exclude_run_id {
            Some(id) => same_text(id, row.run_id.as_str()),
            None => false,
        };
        let owned: bool = match store.find_run(row.run_id.as_str()) {
            Some(r) => {
                assert(store@.runs[r as int] == store.runs@[r as int]@);
                same_text(store.runs[r].account_uuid.as_str(), account_uuid) && !terminal_name(
                    store.runs[r].phase.as_str(),
                )
            },
            None => false,
        };
        if owned && !excluded && same_text(row.note.lock_state.as_str(), "locked") {
            assert(is_locked_note(store@.runs, store@.notes[i as int], account, exclude));
            let txid: String = ascii_lower(row.note.txid_hex.as_str());
            let index: u32 = row.note.output_index;
            let ghost seen = ref_views(refs@);
            let ghost new = note_ref(store@.notes[i as int]);
            if !has_ref(&refs, txid.as_str(), index) {
                refs.push((txid, index));
                proof {
                    assert(ref_views(refs@) =~= seen.push(new));
                    assert forall|r: (Seq<char>, u32)| #[trigger]
                        ref_views(refs@).contains(r) <==> (seen.contains(r) || r == new) by {
                        if seen.contains(r) {
                            let k = choose|k: int| 0 <= k < seen.len() && seen[k] == r;
                            assert(seen.push(new)[k] == r);
                        }
                        assert(seen.push(new)[seen.len() as int] == new);
                    }
                }
            }
        }
    }
    proof {
        assert(ref_views(refs@).to_set() =~= locked_refs(store@, account, exclude));
    }
    refs
}


// ----- pending transfers -----

/// The views of some pending transfers.
pub open spec fn tx_views(txs: Seq<PendingTxRow>) -> Seq<PendingTxView> {
    txs.map_values(|t: PendingTxRow| t@)
}

/// The table after a run's transfers were inserted one after another, each in place of a row with
/// the same transaction id.
pub open spec fn pending_with(
    rows: Seq<PendingView>,
    run_id: Seq<char>,
    txs: Seq<PendingTxView>,
) -> Seq<PendingView>
    decreases txs.len(),
{
    if txs.len() == 0 {
        rows
    } else {
        upserted(
            pending_with(rows, run_id, txs.drop_last()),
            PendingView { run_id, tx: txs.last() },
        )
    }
}

/// What storing the transfers of a run leaves in the tables.
pub open spec fn are_transfers_stored(
    before: StoreView,
    after: StoreView,
    run_id: Seq<char>,
    txs: Seq<PendingTxRow>,
) -> bool {
    after == (StoreView {
        pending: pending_with(before.pending, run_id, tx_views(txs)),
        ..before
    })
}

/// Stores the pre-signed transfers of a run.
pub fn insert_pending_txs(store: &mut Store, run_id: &str, txs: &[PendingTxRow])
    requires
        old(store)@.wf(),
    ensures
        final(store)@.wf(),
        are_transfers_stored(old(store)@, final(store)@, run_id@, txs@),
{
    let ghost before = store@;
    let ghost views = tx_views(txs@);
    assert(views.take(0) =~= Seq::<PendingTxView>::empty());
    for i in 0..txs.len()
        invariant
            views == tx_views(txs@),
            store@.wf(),
            store@ == (StoreView {
                pending: pending_with(before.pending, run_id@, views.take(i as int)),
                ..before
            }),
    {
        let row = StoredPending { run_id: run_id.to_owned(), tx: txs[i].duplicate() };
        let ghost view = row@;
        let ghost at = store@;
        proof {
            assert(views.take(i + 1).drop_last() =~= views.take(i as int));
            upserted_row_is_found(at.pending, view, view.key());
        }
        match store.find_pending(txs[i].txid_hex.as_str()) {
            Some(k) => {
                let _ = store.pending.remove(k);
                store.pending.push(row);
                assert(store@ =~= StoreView {
                    pending: at.pending.remove(k as int).push(view),
                    ..at
                });
            },
            None => {
                store.pending.push(row);
                assert(store@ =~= StoreView { pending: at.pending.push(view), ..at });
            },
        }
    }
    assert(views.take(views.len() as int) =~= views);
}

/// A scheduled transfer of a run.
pub open spec fn is_scheduled(r: PendingView, run_id: Seq<char>) -> bool {
    r.run_id == run_id && r.tx.status == "scheduled"@
}

/// A scheduled transfer of a run whose send height the tip has reached.
pub open spec fn is_due(r: PendingView, run_id: Seq<char>, tip: u32) -> bool {
    is_scheduled(r, run_id) && r.tx.next_executable_after_height <= tip
}

/// The order in which due transfers are sent: by send height, then by transaction id.
pub open spec fn sent_before(a: PendingView, b: PendingView) -> bool {
    ||| a.tx.next_executable_after_height < b.tx.next_executable_after_height
    ||| a.tx.next_executable_after_height == b.tx.next_executable_after_height && text_before(
        a.tx.txid_hex,
        b.tx.txid_hex,
    )
}

/// The due transfer of a run that is sent first.
pub open spec fn first_due(rows: Seq<PendingView>, run_id: Seq<char>, tip: u32) -> Option<
    PendingView,
>
    decreases rows.len(),
{
    if rows.len() == 0 {
        None
    } else {
        let before = first_due(rows.drop_last(), run_id, tip);
        let last = rows.last();
        if is_due(last, run_id, tip) && (before matches Some(b) ==> sent_before(last, b)) {
            Some(last)
        } else {
            before
        }
    }
}

/// The view of an optional transfer.
pub open spec fn optional_tx(t: Option<PendingTxRow>) -> Option<PendingTxView> {
    match t {
        Some(row) => Some(row@),
        None => None,
    }
}

/// The transfer of an optional row.
pub open spec fn tx_of(r: Option<PendingView>) -> Option<PendingTxView> {
    match r {
        Some(row) => Some(row.tx),
        None => None,
    }
}

fn scheduled_row(r: &StoredPending, run_id: &str) -> (b: bool)
    ensures
        b == is_scheduled(r@, run_id@),
{
    same_text(r.run_id.as_str(), run_id) && same_text(r.tx.status.as_str(), "scheduled")
}

/// The earliest scheduled transfer of a run whose send height the tip has reached.
pub fn next_due_transfer(store: &Store, run_id: &str, tip_height: u32) -> (tx: Option<PendingTxRow>)
    ensures
        optional_tx(tx) == tx_of(first_due(store@.pending, run_id@, tip_height)),
{
    let total: usize = store.pending.len();
    let mut best: Option<usize> = None;
    for i in 0..total
        invariant
            total == store.pending@.len(),
            best matches Some(b) ==> b < i && first_due(
                store@.pending.take(i as int),
                run_id@,
                tip_height,
            ) == Some(store@.pending[b as int]),
            best is None ==> first_due(store@.pending.take(i as int), run_id@, tip_height)
                == None::<PendingView>,
    {
        assert(store@.pending[i as int] == store.pending@[i as int]@);
        assert(store@.pending.take(i + 1).drop_last() =~= store@.pending.take(i as int));
        let row: &StoredPending = &store.pending[i];
        if scheduled_row(row, run_id) && row.tx.next_executable_after_height <= tip_height {
            match best {
                Some(b) => {
                    assert(store@.pending[b as int] == store.pending@[b as int]@);
                    let chosen: &StoredPending = &store.pending[b];
                    if row.tx.next_executable_after_height < chosen.tx.next_executable_after_height
                        || (row.tx.next_executable_after_height
                        == chosen.tx.next_executable_after_height && comes_before(
                        row.tx.txid_hex.as_str(),
                        chosen.tx.txid_hex.as_str(),
                    )) {
                        best = Some(i);
                    }
                },
                None => {
                    best = Some(i);
                },
            }
        }
    }
    assert(store@.pending.take(total as int) =~= store@.pending);
    match best {
        Some(b) => {
            assert(store@.pending[b as int] == store.pending@[b as int]@);
            Some(store.pending[b].tx.duplicate())
        },
        None => None,
    }
}

/// The smallest send height of a run's scheduled transfers.
pub open spec fn first_send_height(rows: Seq<PendingView>, run_id: Seq<char>) -> Option<u32>
    decreases rows.len(),
{
    if rows.len() == 0 {
        None
    } else {
        let before = first_send_height(rows.drop_last(), run_id);
        let last = rows.last();
        if is_scheduled(last, run_id) && (before matches Some(h)
            ==> last.tx.next_executable_after_height < h) {
            Some(last.tx.next_executable_after_height)
        } else {
            before
        }
    }
}

/// The earliest send height among a run's still-scheduled transfers, or `None` if none remain.
pub fn next_scheduled_send_height(store: &Store, run_id: &str) -> (height: Option<u32>)
    ensures
        height == first_send_height(store@.pending, run_id@),
{
    let total: usize = store.pending.len();
    let mut best: Option<u32> = None;
    for i in 0..total
        invariant
            total == store.pending@.len(),
            best == first_send_height(store@.pending.take(i as int), run_id@),
    {
        assert(store@.pending[i as int] == store.pending@[i as int]@);
        assert(store@.pending.take(i + 1).drop_last() =~= store@.pending.take(i as int));
        let row: &StoredPending = &store.pending[i];
        if scheduled_row(row, run_id) {
            let h: u32 = row.tx.next_executable_after_height;
            match best {
                Some(b) => {
                    if h < b {
                        best = Some(h);
                    }
                },
                None => {
                    best = Some(h);
                },
            }
        }
    }
    assert(store@.pending.take(total as int) =~= store@.pending);
    best
}

/// The transaction ids of a run's transfers with a status, the oldest row first.
pub open spec fn txids_with_status(
    rows: Seq<PendingView>,
    run_id: Seq<char>,
    status: Seq<char>,
) -> Seq<Seq<char>>
    decreases rows.len(),
{
    if rows.len() == 0 {
        Seq::empty()
    } else {
        let before = txids_with_status(rows.drop_last(), run_id, status);
        let last = rows.last();
        if last.run_id == run_id && last.tx.status == status {
            before.push(last.tx.txid_hex)
        } else {
            before
        }
    }
}

/// The views of some texts.
pub open spec fn text_views(texts: Seq<String>) -> Seq<Seq<char>> {
    texts.map_values(|t: String| t@)
}

/// The ids of a run's broadcasted-but-not-yet-confirmed transfers, the oldest row first.
pub open spec fn are_broadcasted(txids: Vec<String>, s: StoreView, run_id: Seq<char>) -> bool {
    text_views(txids@) == txids_with_status(s.pending, run_id, "broadcasted"@)
}

/// Txids of a run's broadcasted-but-not-yet-confirmed transfers, the oldest row first.
pub fn broadcasted_txids(store: &Store, run_id: &str) -> (txids: Vec<String>)
    ensures
        are_broadcasted(txids, store@, run_id@),
{
    let total: usize = store.pending.len();
    let mut txids: Vec<String> = Vec::new();
    assert(text_views(txids@) =~= Seq::<Seq<char>>::empty());
    for i in 0..total
        invariant
            total == store.pending@.len(),
            text_views(txids@) == txids_with_status(
                store@.pending.take(i as int),
                run_id@,
                "broadcasted"@,
            ),
    {
        assert(store@.pending[i as int] == store.pending@[i as int]@);
        assert(store@.pending.take(i + 1).drop_last() =~= store@.pending.take(i as int));
        let row: &StoredPending = &store.pending[i];
        if same_text(row.run_id.as_str(), run_id) && same_text(
            row.tx.status.as_str(),
            "broadcasted",
        ) {
            let ghost seen = text_views(txids@);
            txids.push(row.tx.txid_hex.clone());
            assert(text_views(txids@) =~= seen.push(row.tx.txid_hex@));
        }
    }
    assert(store@.pending.take(total as int) =~= store@.pending);
    txids
}

/// A pending row after its status was set, if it is the one with the given transaction id.
pub open spec fn with_status(r: PendingView, txid: Seq<char>, status: Seq<char>) -> PendingView {
    if r.tx.txid_hex == txid {
        PendingView { tx: PendingTxView { status, ..r.tx }, ..r }
    } else {
        r
    }
}

/// The pending rows after the status of one was set.
pub open spec fn pending_with_status(
    rows: Seq<PendingView>,
    txid: Seq<char>,
    status: Seq<char>,
) -> Seq<PendingView> {
    Seq::new(rows.len(), |i: int| with_status(rows[i], txid, status))
}

/// Sets the status of the transfer with a transaction id; where there is none nothing changes.
pub fn mark_pending_status(store: &mut Store, txid_hex: &str, status: &str)
    requires
        old(store)@.wf(),
    ensures
        final(store)@.wf(),
        final(store)@ == (StoreView {
            pending: pending_with_status(old(store)@.pending, txid_hex@, status@),
            ..old(store)@
        }),
{
    let ghost before = store@;
    let ghost after = pending_with_status(before.pending, txid_hex@, status@);
    proof {
        rewritten_rows_are_found(before.pending, after, txid_hex@);
        position_holds(before.pending, txid_hex@);
    }
    match store.find_pending(txid_hex) {
        Some(i) => {
            let mut row = store.pending.remove(i);
            row.tx.status = status.to_owned();
            store.pending.insert(i, row);
            proof {
                assert forall|k: int| 0 <= k < before.pending.len() implies store@.pending[k]
                    == after[k] by {
                    if k < i {
                        assert(before.pending[k].key() != before.pending[i as int].key());
                    } else if k > i {
                        assert(before.pending[i as int].key() != before.pending[k].key());
                    }
                }
                assert(store@ =~= StoreView { pending: after, ..before });
            }
        },
        None => {
            proof {
                assert(after =~= before.pending);
                assert(store@ =~= StoreView { pending: after, ..before });
            }
        },
    }
}

/// The number of a run's transfers with a status.
pub open spec fn count_with_status(
    rows: Seq<PendingView>,
    run_id: Seq<char>,
    status: Seq<char>,
) -> nat {
    txids_with_status(rows, run_id, status).len()
}

/// The number of a run's transfers.
pub open spec fn count_of_run(rows: Seq<PendingView>, run_id: Seq<char>) -> nat
    decreases rows.len(),
{
    if rows.len() == 0 {
        0
    } else {
        count_of_run(rows.drop_last(), run_id) + if rows.last().run_id == run_id {
            1nat
        } else {
            0nat
        }
    }
}

/// The totals of a run's transfers.
pub open spec fn totals_of(rows: Seq<PendingView>, run_id: Seq<char>) -> PendingTotals {
    PendingTotals {
        scheduled: count_with_status(rows, run_id, "scheduled"@) as u32,
        broadcasted: count_with_status(rows, run_id, "broadcasted"@) as u32,
        confirmed: count_with_status(rows, run_id, "confirmed"@) as u32,
        total: count_of_run(rows, run_id) as u32,
    }
}

proof fn statuses_differ()
    ensures
        "scheduled"@ != "broadcasted"@,
        "scheduled"@ != "confirmed"@,
        "broadcasted"@ != "confirmed"@,
{
    reveal_strlit("scheduled");
    reveal_strlit("broadcasted");
    reveal_strlit("confirmed");
    assert("scheduled"@.len() == 9 && "confirmed"@.len() == 9 && "broadcasted"@.len() == 11);
    assert("scheduled"@[0] == 's' && "confirmed"@[0] == 'c');
}

/// Counts a run's transfers by status.
pub fn pending_totals(store: &Store, run_id: &str) -> (totals: PendingTotals)
    requires
        store@.pending.len() <= u32::MAX,
    ensures
        totals == totals_of(store@.pending, run_id@),
        totals.scheduled == count_with_status(store@.pending, run_id@, "scheduled"@),
        totals.broadcasted == count_with_status(store@.pending, run_id@, "broadcasted"@),
        totals.confirmed == count_with_status(store@.pending, run_id@, "confirmed"@),
        totals.total == count_of_run(store@.pending, run_id@),
{
    let total: usize = store.pending.len();
    let mut totals = PendingTotals { scheduled: 0, broadcasted: 0, confirmed: 0, total: 0 };
    proof {
        statuses_differ();
    }
    for i in 0..total
        invariant
            total == store.pending@.len(),
            total <= u32::MAX,
            "scheduled"@ != "broadcasted"@,
            "scheduled"@ != "confirmed"@,
            "broadcasted"@ != "confirmed"@,
            totals.scheduled == count_with_status(
                store@.pending.take(i as int),
                run_id@,
                "scheduled"@,
            ),
            totals.broadcasted == count_with_status(
                store@.pending.take(i as int),
                run_id@,
                "broadcasted"@,
            ),
            totals.confirmed == count_with_status(
                store@.pending.take(i as int),
                run_id@,
                "confirmed"@,
            ),
            totals.total == count_of_run(store@.pending.take(i as int), run_id@),
            totals.scheduled <= totals.total <= i,
            totals.broadcasted <= totals.total,
            totals.confirmed <= totals.total,
    {
        assert(store@.pending[i as int] == store.pending@[i as int]@);
        assert(store@.pending.take(i + 1).drop_last() =~= store@.pending.take(i as int));
        let row: &StoredPending = &store.pending[i];
        if same_text(row.run_id.as_str(), run_id) {
            totals.total = totals.total + 1;
            if same_text(row.tx.status.as_str(), "scheduled") {
                totals.scheduled = totals.scheduled + 1;
            } else if same_text(row.tx.status.as_str(), "broadcasted") {
                totals.broadcasted = totals.broadcasted + 1;
            } else if same_text(row.tx.status.as_str(), "confirmed") {
                totals.confirmed = totals.confirmed + 1;
            }
        }
    }
    assert(store@.pending.take(total as int) =~= store@.pending);
    totals
}

/// The rows that are left when a run's scheduled transfers are removed.
pub open spec fn without_scheduled(rows: Seq<PendingView>, run_id: Seq<char>) -> Seq<PendingView>
    decreases rows.len(),
{
    if rows.len() == 0 {
        rows
    } else {
        let before = without_scheduled(rows.drop_last(), run_id);
        if is_scheduled(rows.last(), run_id) {
            before
        } else {
            before.push(rows.last())
        }
    }
}

/// Removing a run's scheduled transfers keeps the keys unique and removes as many rows as the run
/// has scheduled transfers; every row that is left stood in the table.
pub proof fn without_scheduled_keeps_the_rest(rows: Seq<PendingView>, run_id: Seq<char>)
    ensures
        keys_are_unique(rows) ==> keys_are_unique(without_scheduled(rows, run_id)),
        without_scheduled(rows, run_id).len() + count_with_status(rows, run_id, "scheduled"@)
            == rows.len(),
        forall|r: PendingView| #[trigger]
            without_scheduled(rows, run_id).contains(r) <==> rows.contains(r) && !is_scheduled(
                r,
                run_id,
            ),
    decreases rows.len(),
{
    if rows.len() > 0 {
        let front = rows.drop_last();
        let last = rows.last();
        let before = without_scheduled(front, run_id);
        let after = without_scheduled(rows, run_id);
        without_scheduled_keeps_the_rest(front, run_id);
        assert(rows =~= front.push(last));
        assert forall|r: PendingView| #[trigger] after.contains(r) <==> rows.contains(r)
            && !is_scheduled(r, run_id) by {
            assert(rows.contains(r) <==> front.contains(r) || r == last) by {
                if front.contains(r) {
                    let k = choose|k: int| 0 <= k < front.len() && front[k] == r;
                    assert(rows[k] == r);
                }
                assert(rows[rows.len() - 1] == last);
                if rows.contains(r) {
                    let k = choose|k: int| 0 <= k < rows.len() && rows[k] == r;
                    if k < front.len() {
                        assert(front[k] == r);
                    }
                }
            }
            assert(before.contains(r) <==> front.contains(r) && !is_scheduled(r, run_id));
            if !is_scheduled(last, run_id) {
                assert(after[before.len() as int] == last);
                if before.contains(r) {
                    let k = choose|k: int| 0 <= k < before.len() && before[k] == r;
                    assert(after[k] == r);
                }
                if after.contains(r) {
                    let k = choose|k: int| 0 <= k < after.len() && after[k] == r;
                    if k < before.len() {
                        assert(before[k] == r);
                    }
                }
            }
        }
        if keys_are_unique(rows) {
            assert forall|i: int, j: int| 0 <= i < j < front.len() implies (
            #[trigger] front[i]).key() != (#[trigger] front[j]).key() by {
                assert(rows[i].key() != rows[j].key());
            }
            if !is_scheduled(last, run_id) {
                assert forall|i: int, j: int| 0 <= i < j < after.len() implies (
                #[trigger] after[i]).key() != (#[trigger] after[j]).key() by {
                    if j < before.len() {
                        assert(before[i].key() != before[j].key());
                    } else {
                        assert(before.contains(before[i]));
                        let k = choose|k: int| 0 <= k < front.len() && front[k] == before[i];
                        assert(rows[k].key() != rows[rows.len() - 1].key());
                    }
                }
            }
        }
    }
}

/// What clearing a run's scheduled transfers gives, and leaves in the tables.
pub open spec fn is_cleared(
    removed: usize,
    before: StoreView,
    after: StoreView,
    run_id: Seq<char>,
) -> bool {
    &&& after == (StoreView { pending: without_scheduled(before.pending, run_id), ..before })
    &&& removed == count_with_status(before.pending, run_id, "scheduled"@)
}

/// Removes a run's scheduled transfers and says how many there were.
pub fn clear_scheduled_pending(store: &mut Store, run_id: &str) -> (removed: usize)
    requires
        old(store)@.wf(),
    ensures
        final(store)@.wf(),
        is_cleared(removed, old(store)@, final(store)@, run_id@),
{
    let ghost before = store@;
    let ghost rows = before.pending;
    let total: usize = store.pending.len();
    let mut done: usize = 0;
    let mut kept: usize = 0;
    assert(rows.take(0) =~= Seq::<PendingView>::empty());
    while done < total
        invariant
            rows.len() == total,
            rows == before.pending,
            kept <= done <= total,
            kept == without_scheduled(rows.take(done as int), run_id@).len(),
            store@.pending == without_scheduled(rows.take(done as int), run_id@) + rows.skip(
                done as int,
            ),
            store@ == (StoreView { pending: store@.pending, ..before }),
        decreases total - done,
    {
        let ghost at = store@;
        let ghost front = without_scheduled(rows.take(done as int), run_id@);
        assert(rows.take(done + 1).drop_last() =~= rows.take(done as int));
        assert(rows.take(done + 1).last() == rows[done as int]);
        assert(store.pending@.len() == at.pending.len());
        assert(at.pending[kept as int] == store.pending@[kept as int]@);
        assert(at.pending[kept as int] == rows[done as int]);
        if scheduled_row(&store.pending[kept], run_id) {
            let _ = store.pending.remove(kept);
            assert(store@.pending =~= at.pending.remove(kept as int));
            assert(store@.pending =~= front + rows.skip(done + 1));
        } else {
            assert(at.pending =~= front.push(rows[done as int]) + rows.skip(done + 1));
            kept = kept + 1;
        }
        assert(store@ =~= StoreView { pending: store@.pending, ..before });
        done = done + 1;
    }
    proof {
        assert(rows.take(total as int) =~= rows);
        assert(store@.pending =~= without_scheduled(rows, run_id@));
        without_scheduled_keeps_the_rest(rows, run_id@);
    }
    total - kept
}

// ----- the prep transaction -----

/// The view of an optional prep transaction.
pub open spec fn optional_prep(p: Option<PrepTxRow>) -> Option<PrepView> {
    match p {
        Some(row) => Some(row@),
        None => None,
    }
}

/// What storing a run's prep transaction leaves in the tables.
pub open spec fn is_prep_stored(
    before: StoreView,
    after: StoreView,
    run_id: Seq<char>,
    txid_hex: Seq<char>,
    raw_pczt: Seq<u8>,
    status: Seq<char>,
) -> bool {
    after == (StoreView {
        prep: upserted(before.prep, PrepView { run_id, txid_hex, raw_pczt, status }),
        ..before
    })
}

/// Stores a run's prep transaction in place of one stored before.
pub fn insert_prep_tx(
    store: &mut Store,
    run_id: &str,
    txid_hex: &str,
    raw_pczt: &[u8],
    status: &str,
)
    requires
        old(store)@.wf(),
    ensures
        final(store)@.wf(),
        is_prep_stored(
            old(store)@,
            final(store)@,
            run_id@,
            txid_hex@,
            raw_pczt@,
            status@,
        ),
{
    let row = PrepTxRow {
        run_id: run_id.to_owned(),
        txid_hex: txid_hex.to_owned(),
        raw_pczt: copy_bytes(raw_pczt),
        status: status.to_owned(),
    };
    let ghost view = row@;
    let ghost at = store@;
    proof {
        upserted_row_is_found(at.prep, view, view.key());
    }
    match store.find_prep(run_id) {
        Some(k) => {
            let _ = store.prep.remove(k);
            store.prep.push(row);
            assert(store@ =~= StoreView { prep: at.prep.remove(k as int).push(view), ..at });
        },
        None => {
            store.prep.push(row);
            assert(store@ =~= StoreView { prep: at.prep.push(view), ..at });
        },
    }
}

/// What reading the prep transaction of a run gives.
pub open spec fn is_prep_read(prep: Option<PrepTxRow>, s: StoreView, run_id: Seq<char>) -> bool {
    optional_prep(prep) == lookup(s.prep, run_id)
}

/// The prep transaction of a run.
pub fn prep_tx(store: &Store, run_id: &str) -> (prep: Option<PrepTxRow>)
    requires
        store@.wf(),
    ensures
        is_prep_read(prep, store@, run_id@),
{
    match store.find_prep(run_id) {
        Some(i) => {
            assert(store@.prep[i as int] == store.prep@[i as int]@);
            Some(store.prep[i].duplicate())
        },
        None => None,
    }
}

/// A prep transaction after its status was set, if it is the given run's.
pub open spec fn prep_with_status(p: PrepView, run_id: Seq<char>, status: Seq<char>) -> PrepView {
    if p.run_id == run_id {
        PrepView { status, ..p }
    } else {
        p
    }
}

/// The prep transactions after the status of one was set.
pub open spec fn preps_with_status(rows: Seq<PrepView>, run_id: Seq<char>, status: Seq<char>) -> Seq<
    PrepView,
> {
    Seq::new(rows.len(), |i: int| prep_with_status(rows[i], run_id, status))
}

/// Sets the status of a run's prep transaction; where there is none nothing changes.
pub fn set_prep_tx_status(store: &mut Store, run_id: &str, status: &str)
    requires
        old(store)@.wf(),
    ensures
        final(store)@.wf(),
        final(store)@ == (StoreView {
            prep: preps_with_status(old(store)@.prep, run_id@, status@),
            ..old(store)@
        }),
{
    let ghost before = store@;
    let ghost after = preps_with_status(before.prep, run_id@, status@);
    proof {
        rewritten_rows_are_found(before.prep, after, run_id@);
        position_holds(before.prep, run_id@);
    }
    match store.find_prep(run_id) {
        Some(i) => {
            let mut row = store.prep.remove(i);
            row.status = status.to_owned();
            store.prep.insert(i, row);
            proof {
                assert forall|k: int| 0 <= k < before.prep.len() implies store@.prep[k]
                    == after[k] by {
                    if k < i {
                        assert(before.prep[k].key() != before.prep[i as int].key());
                    } else if k > i {
                        assert(before.prep[i as int].key() != before.prep[k].key());
                    }
                }
                assert(store@ =~= StoreView { prep: after, ..before });
            }
        },
        None => {
            proof {
                assert(after =~= before.prep);
                assert(store@ =~= StoreView { prep: after, ..before });
            }
        },
    }
}

} // verus!
