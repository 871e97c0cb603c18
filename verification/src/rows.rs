//! The rows that the engine persists, and their views.

use crate::table::Row;
use vstd::prelude::*;
use vstd::string::*;

verus! {

/// A migration run as the engine reads it.
#[derive(Clone, Debug, PartialEq, Eq)]
pub struct RunRow {
    pub run_id: String,
    pub account_uuid: String,
    pub network: String,
    pub phase: String,
    pub prep_txid: Option<String>,
    pub target_values: Vec<u64>,
    pub last_error: Option<String>,
}

/// A migration run as it is stored.
#[derive(Clone, Debug, PartialEq, Eq)]
pub struct StoredRun {
    pub run_id: String,
    pub account_uuid: String,
    pub network: String,
    pub db_fingerprint: String,
    pub phase: String,
    pub created_at_ms: i64,
    pub updated_at_ms: i64,
    pub prep_txid: Option<String>,
    pub target_values_json: String,
    pub last_error: Option<String>,
}

/// A note produced by the denomination prep transaction, locked for migration.
#[derive(Clone, Debug, PartialEq, Eq)]
pub struct PreparedNote {
    pub txid_hex: String,
    pub output_index: u32,
    pub value_zatoshi: u64,
    pub note_version: i64,
    pub nullifier_hex: Option<String>,
    pub lock_state: String,
}

/// A prepared note as it is stored: with the run that prepared it.
#[derive(Clone, Debug, PartialEq, Eq)]
pub struct StoredNote {
    pub run_id: String,
    pub note: PreparedNote,
}

/// A scheduled, pre-signed migration transfer.
#[derive(Clone, Debug, PartialEq, Eq)]
pub struct PendingTxRow {
    pub txid_hex: String,
    pub raw_pczt: Vec<u8>,
    pub anchor_height: u32,
    pub target_height: u32,
    pub next_executable_after_height: u32,
    pub expiry_height: u32,
    pub value_zatoshi: u64,
    pub fee_zatoshi: u64,
    pub selected_note_txid: String,
    pub selected_note_output_index: u32,
    pub selected_note_value: u64,
    pub status: String,
    pub metadata_json: String,
}

/// A pending transfer as it is stored: with the run it belongs to.
#[derive(Clone, Debug, PartialEq, Eq)]
pub struct StoredPending {
    pub run_id: String,
    pub tx: PendingTxRow,
}

/// The denomination prep (note-split) transaction for a run.
#[derive(Clone, Debug, PartialEq, Eq)]
pub struct PrepTxRow {
    pub run_id: String,
    pub txid_hex: String,
    pub raw_pczt: Vec<u8>,
    pub status: String,
}

/// Counts of a run's pending transfers by status.
#[derive(Clone, Copy, Debug, PartialEq, Eq)]
pub struct PendingTotals {
    pub scheduled: u32,
    pub broadcasted: u32,
    pub confirmed: u32,
    pub total: u32,
}

// ----- views -----

/// The characters of an optional text.
pub open spec fn optional_text(t: Option<String>) -> Option<Seq<char>> {
    match t {
        Some(s) => Some(s@),
        None => None,
    }
}

#[verifier::ext_equal]
pub struct RunRowView {
    pub run_id: Seq<char>,
    pub account_uuid: Seq<char>,
    pub network: Seq<char>,
    pub phase: Seq<char>,
    pub prep_txid: Option<Seq<char>>,
    pub target_values: Seq<u64>,
    pub last_error: Option<Seq<char>>,
}

impl View for RunRow {
    type V = RunRowView;

    open spec fn view(&self) -> RunRowView {
        RunRowView {
            run_id: self.run_id@,
            account_uuid: self.account_uuid@,
            network: self.network@,
            phase: self.phase@,
            prep_txid: optional_text(self.prep_txid),
            target_values: self.target_values@,
            last_error: optional_text(self.last_error),
        }
    }
}

#[verifier::ext_equal]
pub struct RunView {
    pub run_id: Seq<char>,
    pub account_uuid: Seq<char>,
    pub network: Seq<char>,
    pub db_fingerprint: Seq<char>,
    pub phase: Seq<char>,
    pub created_at_ms: i64,
    pub updated_at_ms: i64,
    pub prep_txid: Option<Seq<char>>,
    pub target_values_json: Seq<char>,
    pub last_error: Option<Seq<char>>,
}

impl View for StoredRun {
    type V = RunView;

    open spec fn view(&self) -> RunView {
        RunView {
            run_id: self.run_id@,
            account_uuid: self.account_uuid@,
            network: self.network@,
            db_fingerprint: self.db_fingerprint@,
            phase: self.phase@,
            created_at_ms: self.created_at_ms,
            updated_at_ms: self.updated_at_ms,
            prep_txid: optional_text(self.prep_txid),
            target_values_json: self.target_values_json@,
            last_error: optional_text(self.last_error),
        }
    }
}

impl Row for RunView {
    type Key = Seq<char>;

    open spec fn key(self) -> Seq<char> {
        self.run_id
    }
}

#[verifier::ext_equal]
pub struct PreparedNoteView {
    pub txid_hex: Seq<char>,
    pub output_index: u32,
    pub value_zatoshi: u64,
    pub note_version: i64,
    pub nullifier_hex: Option<Seq<char>>,
    pub lock_state: Seq<char>,
}

impl View for PreparedNote {
    type V = PreparedNoteView;

    open spec fn view(&self) -> PreparedNoteView {
        PreparedNoteView {
            txid_hex: self.txid_hex@,
            output_index: self.output_index,
            value_zatoshi: self.value_zatoshi,
            note_version: self.note_version,
            nullifier_hex: optional_text(self.nullifier_hex),
            lock_state: self.lock_state@,
        }
    }
}

#[verifier::ext_equal]
pub struct NoteView {
    pub run_id: Seq<char>,
    pub note: PreparedNoteView,
}

impl View for StoredNote {
    type V = NoteView;

    open spec fn view(&self) -> NoteView {
        NoteView { run_id: self.run_id@, note: self.note@ }
    }
}

impl Row for NoteView {
    type Key = (Seq<char>, Seq<char>, u32);

    open spec fn key(self) -> (Seq<char>, Seq<char>, u32) {
        (self.run_id, self.note.txid_hex, self.note.output_index)
    }
}

#[verifier::ext_equal]
pub struct PendingTxView {
    pub txid_hex: Seq<char>,
    pub raw_pczt: Seq<u8>,
    pub anchor_height: u32,
    pub target_height: u32,
    pub next_executable_after_height: u32,
    pub expiry_height: u32,
    pub value_zatoshi: u64,
    pub fee_zatoshi: u64,
    pub selected_note_txid: Seq<char>,
    pub selected_note_output_index: u32,
    pub selected_note_value: u64,
    pub status: Seq<char>,
    pub metadata_json: Seq<char>,
}

impl View for PendingTxRow {
    type V = PendingTxView;

    open spec fn view(&self) -> PendingTxView {
        PendingTxView {
            txid_hex: self.txid_hex@,
            raw_pczt: self.raw_pczt@,
            anchor_height: self.anchor_height,
            target_height: self.target_height,
            next_executable_after_height: self.next_executable_after_height,
            expiry_height: self.expiry_height,
            value_zatoshi: self.value_zatoshi,
            fee_zatoshi: self.fee_zatoshi,
            selected_note_txid: self.selected_note_txid@,
            selected_note_output_index: self.selected_note_output_index,
            selected_note_value: self.selected_note_value,
            status: self.status@,
            metadata_json: self.metadata_json@,
        }
    }
}

#[verifier::ext_equal]
pub struct PendingView {
    pub run_id: Seq<char>,
    pub tx: PendingTxView,
}

impl View for StoredPending {
    type V = PendingView;

    open spec fn view(&self) -> PendingView {
        PendingView { run_id: self.run_id@, tx: self.tx@ }
    }
}

impl Row for PendingView {
    type Key = Seq<char>;

    open spec fn key(self) -> Seq<char> {
        self.tx.txid_hex
    }
}

#[verifier::ext_equal]
pub struct PrepView {
    pub run_id: Seq<char>,
    pub txid_hex: Seq<char>,
    pub raw_pczt: Seq<u8>,
    pub status: Seq<char>,
}

impl View for PrepTxRow {
    type V = PrepView;

    open spec fn view(&self) -> PrepView {
        PrepView {
            run_id: self.run_id@,
            txid_hex: self.txid_hex@,
            raw_pczt: self.raw_pczt@,
            status: self.status@,
        }
    }
}

impl Row for PrepView {
    type Key = Seq<char>;

    open spec fn key(self) -> Seq<char> {
        self.run_id
    }
}

// ----- copies -----

/// A copy of an optional text.
pub fn copy_optional(t: &Option<String>) -> (copy: Option<String>)
    ensures
        optional_text(copy) == optional_text(*t),
{
    match t {
        Some(s) => Some(s.clone()),
        None => None,
    }
}

/// A copy of a sequence of bytes.
pub fn copy_bytes(bytes: &[u8]) -> (copy: Vec<u8>)
    ensures
        copy@ == bytes@,
{
    let mut copy: Vec<u8> = Vec::new();
    for i in 0..bytes.len()
        invariant
            copy@ == bytes@.take(i as int),
    {
        copy.push(bytes[i]);
        assert(bytes@.take(i + 1) =~= bytes@.take(i as int).push(bytes@[i as int]));
    }
    assert(bytes@.take(bytes@.len() as int) =~= bytes@);
    copy
}

impl PendingTxRow {
    /// A copy of this row.
    pub fn duplicate(&self) -> (copy: PendingTxRow)
        ensures
            copy@ == self@,
    {
        PendingTxRow {
            txid_hex: self.txid_hex.clone(),
            raw_pczt: copy_bytes(self.raw_pczt.as_slice()),
            anchor_height: self.anchor_height,
            target_height: self.target_height,
            next_executable_after_height: self.next_executable_after_height,
            expiry_height: self.expiry_height,
            value_zatoshi: self.value_zatoshi,
            fee_zatoshi: self.fee_zatoshi,
            selected_note_txid: self.selected_note_txid.clone(),
            selected_note_output_index: self.selected_note_output_index,
            selected_note_value: self.selected_note_value,
            status: self.status.clone(),
            metadata_json: self.metadata_json.clone(),
        }
    }
}

impl PrepTxRow {
    /// A copy of this row.
    pub fn duplicate(&self) -> (copy: PrepTxRow)
        ensures
            copy@ == self@,
    {
        PrepTxRow {
            run_id: self.run_id.clone(),
            txid_hex: self.txid_hex.clone(),
            raw_pczt: copy_bytes(self.raw_pczt.as_slice()),
            status: self.status.clone(),
        }
    }
}

impl PreparedNote {
    /// A copy of this note.
    pub fn duplicate(&self) -> (copy: PreparedNote)
        ensures
            copy@ == self@,
    {
        PreparedNote {
            txid_hex: self.txid_hex.clone(),
            output_index: self.output_index,
            value_zatoshi: self.value_zatoshi,
            note_version: self.note_version,
            nullifier_hex: copy_optional(&self.nullifier_hex),
            lock_state: self.lock_state.clone(),
        }
    }
}

} // verus!
