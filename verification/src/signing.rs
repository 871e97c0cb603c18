//! Signing the note split and the transfers of a schedule.
//!
//! Both go back and forth between the engine and the wallet: the engine says what is to be built
//! under which locks, the application builds a PCZT for it from the wallet database, and the engine
//! proves, signs and stores it.

use crate::context::{network_name, ContextView, MigrationContext};
use crate::error::{is_pipeline_error, MigrationError};
use crate::hex::{display_of, hyphenated, is_random_id, new_run_id, txid_display};
use crate::json::json_array;
use crate::pipeline::{
    decoded_authority, is_signed_pczt, is_signing_error, key_authority, parse_usk, pczt_contents,
    pczt_refusals, prove_sign_finalize, read_txid, ProvingKeys, SignedPczt,
};
use crate::rows::{
    copy_bytes, PendingTxRow, PendingTxView, PrepView, PreparedNote, PreparedNoteView, RunView,
};
use crate::split::{is_spendable, may_spend};
use crate::state::{phase_name, Phase};
use crate::store::{
    self, key_taken_error, locked_refs, new_run_row, notes_with, pending_with, prepared_views,
    ref_views, runs_with_phase, tx_views, NewRun, Store, StoreView, RUN_ID_TAKEN,
};
use crate::table::{position, upserted};
use crate::text::{ascii_lower, join, lower};
use crate::types::{
    transfer_views, MigrationSchedule, NoteSplitProposal, PreparedTx, PreparedTxView,
    TransferProposal, TransferView,
};
use pczt::Pczt;
use vstd::prelude::*;
use vstd::string::*;
use zcash_keys::keys::UnifiedSpendingKey;

verus! {

/// The row of a run that an operation of the engine starts.
pub open spec fn started_run(
    c: ContextView,
    run_id: Seq<char>,
    phase: Phase,
    target_values: Seq<u64>,
    now: i64,
) -> RunView {
    RunView {
        run_id,
        account_uuid: hyphenated(c.account),
        network: network_name(c.network),
        db_fingerprint: c.db_path,
        phase: phase_name(phase),
        created_at_ms: now,
        updated_at_ms: now,
        prep_txid: None,
        target_values_json: json_array(target_values),
        last_error: None,
    }
}

/// The error of a run whose id is already taken.
pub open spec fn id_taken_error() -> MigrationError {
    MigrationError::Db(key_taken_error(RUN_ID_TAKEN@))
}

impl MigrationContext {
    /// Stores a new run of the context's account.
    fn start_run(
        &self,
        store: &mut Store,
        run_id: &str,
        phase: Phase,
        target_values: &[u64],
        now: i64,
    ) -> (r: Result<(), MigrationError>)
        requires
            old(store)@.wf(),
        ensures
            final(store)@.wf(),
            position(old(store)@.runs, run_id@) is Some ==> r == Err::<(), MigrationError>(
                id_taken_error(),
            ) && final(store)@ == old(store)@,
            position(old(store)@.runs, run_id@) is None ==> r is Ok && final(store)@ == (StoreView {
                runs: old(store)@.runs.push(
                    started_run(self@, run_id@, phase, target_values@, now),
                ),
                ..old(store)@
            }),
    {
        let account: String = self.account_str();
        let run = NewRun {
            run_id,
            account_uuid: account.as_str(),
            network: self.network_str(),
            db_fingerprint: self.db_path(),
            phase,
            prep_txid: None,
            target_values,
        };
        assert(new_run_row(run, now) =~= started_run(self@, run_id@, phase, target_values@, now));
        match store::insert_run(store, &run, now) {
            Ok(()) => Ok(()),
            Err(e) => Err(MigrationError::Db(e)),
        }
    }
}

// ----- the note split -----

/// A note split that is being signed: the run that it belongs to, the spending key, the notes that
/// it must leave alone, and its planned outputs.
pub struct SplitSigning {
    pub run_id: String,
    pub usk: UnifiedSpendingKey,
    pub locks: Vec<(String, u32)>,
    pub outputs: Vec<u64>,
}

/// What beginning a note split gives, and leaves in the tables.
pub open spec fn is_split_begun(
    r: Result<SplitSigning, MigrationError>,
    c: ContextView,
    before: StoreView,
    after: StoreView,
    run_id: Seq<char>,
    outputs: Seq<u64>,
    usk: Seq<u8>,
    now: i64,
) -> bool {
    match decoded_authority(usk) {
        Err(text) => is_pipeline_error(r, "invalid unified spending key: "@ + text) && after
            == before,
        Ok(authority) => if position(before.runs, run_id) is Some {
            r == Err::<SplitSigning, MigrationError>(id_taken_error()) && after == before
        } else {
            &&& after == (StoreView {
                runs: before.runs.push(
                    started_run(c, run_id, Phase::PreparingDenominations, outputs, now),
                ),
                ..before
            })
            &&& r is Ok
            &&& r->Ok_0.run_id@ == run_id
            &&& key_authority(r->Ok_0.usk) == authority
            &&& r->Ok_0.outputs@ == outputs
            &&& ref_views(r->Ok_0.locks@).to_set() == locked_refs(
                after,
                hyphenated(c.account),
                Some(run_id),
            )
        },
    }
}

/// The notes that a split prepares: one locked note of the second version for each output, at the
/// action where it was placed.
pub open spec fn split_notes(txid: Seq<char>, placed: Seq<(u32, u64)>) -> Seq<PreparedNoteView> {
    Seq::new(
        placed.len(),
        |i: int|
            PreparedNoteView {
                txid_hex: txid,
                output_index: placed[i].0,
                value_zatoshi: placed[i].1,
                note_version: 2,
                nullifier_hex: None,
                lock_state: "locked"@,
            },
    )
}

/// The tables once a signed split was stored.
pub open spec fn with_split(
    s: StoreView,
    run_id: Seq<char>,
    txid: Seq<char>,
    raw_pczt: Seq<u8>,
    placed: Seq<(u32, u64)>,
) -> StoreView {
    StoreView {
        prep: upserted(s.prep, PrepView { run_id, txid_hex: txid, raw_pczt, status: "pending"@ }),
        notes: notes_with(s.notes, run_id, split_notes(txid, placed)),
        ..s
    }
}

/// The id under which a run's note split is handed out.
pub open spec fn prep_id(run_id: Seq<char>) -> Seq<char> {
    "prep:"@ + run_id
}

/// What storing a signed split gives, and leaves in the tables.
pub open spec fn is_split_recorded(
    tx: PreparedTx,
    before: StoreView,
    after: StoreView,
    run_id: Seq<char>,
    txid: Seq<u8>,
    raw_pczt: Seq<u8>,
    placed: Seq<(u32, u64)>,
) -> bool {
    &&& tx@ == (PreparedTxView { id: prep_id(run_id), txid: display_of(txid), raw_pczt })
    &&& after == with_split(before, run_id, display_of(txid), raw_pczt, placed)
}

/// What finishing a note split gives, and leaves in the tables: nothing more is stored where building
/// or signing it failed.
pub open spec fn is_split_finished(
    r: Result<PreparedTx, MigrationError>,
    before: StoreView,
    after: StoreView,
    run_id: Seq<char>,
    ask: Seq<u8>,
    built: Result<(Pczt, Vec<(u32, u64)>), MigrationError>,
) -> bool {
    match built {
        Err(e) => r == Err::<PreparedTx, MigrationError>(e) && after == before,
        Ok((pczt, placed)) => match r {
            Err(e) => is_signing_error(e, pczt_contents(pczt), pczt_refusals(pczt), ask) && after
                == before,
            Ok(tx) => {
                &&& is_signed_pczt(tx.raw_pczt@, pczt_contents(pczt), ask)
                &&& tx.txid@ == display_of(read_txid(tx.raw_pczt@))
                &&& tx.id@ == prep_id(run_id)
                &&& after == with_split(before, run_id, tx.txid@, tx.raw_pczt@, placed@)
            },
        },
    }
}

/// A copy of some values.
fn copy_values(values: &[u64]) -> (copy: Vec<u64>)
    ensures
        copy@ == values@,
{
    let mut copy: Vec<u64> = Vec::new();
    for i in 0..values.len()
        invariant
            copy@ == values@.take(i as int),
    {
        copy.push(values[i]);
        assert(values@.take(i + 1) =~= values@.take(i as int).push(values@[i as int]));
    }
    assert(values@.take(values@.len() as int) =~= values@);
    copy
}

impl MigrationContext {
    /// Begin signing a note split under the given run id.
    pub fn begin_note_split(
        &self,
        store: &mut Store,
        run_id: &str,
        proposal: &NoteSplitProposal,
        usk: &[u8],
        now: i64,
    ) -> (r: Result<SplitSigning, MigrationError>)
        requires
            old(store)@.wf(),
        ensures
            final(store)@.wf(),
            is_split_begun(
                r,
                self@,
                old(store)@,
                final(store)@,
                run_id@,
                proposal.output_notes@,
                usk@,
                now,
            ),
    {
        let parsed: UnifiedSpendingKey = match parse_usk(usk) {
            Err(e) => {
                return Err(e);
            },
            Ok(parsed) => parsed,
        };
        match self.start_run(
            store,
            run_id,
            Phase::PreparingDenominations,
            proposal.output_notes.as_slice(),
            now,
        ) {
            Err(e) => {
                return Err(e);
            },
            Ok(()) => {},
        }
        let locks = store::locked_note_refs(store, self.account_str().as_str(), Some(run_id));
        Ok(
            SplitSigning {
                run_id: run_id.to_owned(),
                usk: parsed,
                locks,
                outputs: copy_values(proposal.output_notes.as_slice()),
            },
        )
    }

    /// Begin to build, sign (as a PCZT), and persist the note-split transaction, under a fresh run
    /// id. The split is a wallet-internal multi-output send to the account's own address. The
    /// application builds it under the locks and outputs that are handed back, and completes it with
    /// [`Self::finish_note_split`].
    pub fn sign_note_split(
        &self,
        store: &mut Store,
        proposal: &NoteSplitProposal,
        usk: &[u8],
        now: i64,
    ) -> (r: Result<SplitSigning, MigrationError>)
        requires
            old(store)@.wf(),
        ensures
            final(store)@.wf(),
            exists|run_id: Seq<char>|
                is_random_id(run_id) && #[trigger] is_split_begun(
                    r,
                    self@,
                    old(store)@,
                    final(store)@,
                    run_id,
                    proposal.output_notes@,
                    usk@,
                    now,
                ),
    {
        let run_id: String = new_run_id();
        self.begin_note_split(store, run_id.as_str(), proposal, usk, now)
    }

    /// Store a signed note split: the transaction as pending, and its outputs as locked notes at the
    /// actions where they were placed, so that their references match what the scanner stores.
    pub fn record_note_split(
        &self,
        store: &mut Store,
        run_id: &str,
        placed: &[(u32, u64)],
        signed: SignedPczt,
    ) -> (tx: PreparedTx)
        requires
            old(store)@.wf(),
        ensures
            final(store)@.wf(),
            is_split_recorded(
                tx,
                old(store)@,
                final(store)@,
                run_id@,
                signed.txid@,
                signed.raw_pczt@,
                placed@,
            ),
    {
        let txid: String = txid_display(&signed.txid);
        let ghost before = store@;
        store::insert_prep_tx(
            store,
            run_id,
            txid.as_str(),
            signed.raw_pczt.as_slice(),
            "pending",
        );
        let mut prepared: Vec<PreparedNote> = Vec::new();
        for i in 0..placed.len()
            invariant
                prepared@.len() == i,
                txid@ == display_of(signed.txid@),
                forall|k: int|
                    0 <= k < i ==> (#[trigger] prepared@[k])@ == split_notes(txid@, placed@)[k],
        {
            let (action_index, value_zatoshi): (u32, u64) = placed[i];
            prepared.push(
                PreparedNote {
                    txid_hex: txid.clone(),
                    output_index: action_index,
                    value_zatoshi,
                    note_version: 2,
                    nullifier_hex: None,
                    lock_state: "locked".to_owned(),
                },
            );
        }
        assert(prepared_views(prepared@) =~= split_notes(txid@, placed@));
        store::insert_prepared_notes(store, run_id, prepared.as_slice());
        let tx = PreparedTx { id: join("prep:", run_id), txid, raw_pczt: signed.raw_pczt };
        assert(store@ =~= with_split(
            before,
            run_id@,
            display_of(signed.txid@),
            signed.raw_pczt@,
            placed@,
        ));
        tx
    }

    /// Prove, sign and store a note split that the application built; returns the serialized PCZT
    /// for the platform to extract and broadcast. `built` is the PCZT with the action and value of
    /// each output. Where building or signing failed nothing more is stored.
    pub fn finish_note_split(
        &self,
        store: &mut Store,
        signing: &SplitSigning,
        built: Result<(Pczt, Vec<(u32, u64)>), MigrationError>,
        keys: &ProvingKeys,
    ) -> (r: Result<PreparedTx, MigrationError>)
        requires
            old(store)@.wf(),
        ensures
            final(store)@.wf(),
            is_split_finished(
                r,
                old(store)@,
                final(store)@,
                signing.run_id@,
                key_authority(signing.usk),
                built,
            ),
    {
        let (pczt, placed): (Pczt, Vec<(u32, u64)>) = match built {
            Err(e) => {
                return Err(e);
            },
            Ok(pair) => pair,
        };
        match prove_sign_finalize(pczt, &signing.usk, keys) {
            Err(e) => Err(e),
            Ok(signed) => {
                let tx = self.record_note_split(
                    store,
                    signing.run_id.as_str(),
                    placed.as_slice(),
                    signed,
                );
                assert(tx.id@ == tx@.id && tx.txid@ == tx@.txid && tx.raw_pczt@ == tx@.raw_pczt);
                Ok(tx)
            },
        }
    }
}

// ----- the schedule -----

/// The row of a transfer that was signed.
pub open spec fn scheduled_row_of(t: TransferView, txid: Seq<char>, raw_pczt: Seq<u8>) -> PendingTxView {
    PendingTxView {
        txid_hex: txid,
        raw_pczt,
        anchor_height: t.anchor_height,
        target_height: t.next_executable_after_height,
        next_executable_after_height: t.next_executable_after_height,
        expiry_height: t.expiry_height,
        value_zatoshi: t.amount,
        fee_zatoshi: 0,
        selected_note_txid: Seq::empty(),
        selected_note_output_index: 0,
        selected_note_value: 0,
        status: "scheduled"@,
        metadata_json: "{}"@,
    }
}

/// The row of a transfer that was signed.
pub fn pending_row(t: &TransferProposal, signed: &SignedPczt) -> (row: PendingTxRow)
    ensures
        row@ == scheduled_row_of(t@, display_of(signed.txid@), signed.raw_pczt@),
{
    let row = PendingTxRow {
        txid_hex: txid_display(&signed.txid),
        raw_pczt: copy_bytes(signed.raw_pczt.as_slice()),
        anchor_height: t.anchor_height,
        target_height: t.next_executable_after_height,
        next_executable_after_height: t.next_executable_after_height,
        expiry_height: t.expiry_height,
        value_zatoshi: t.amount,
        fee_zatoshi: 0,
        selected_note_txid: String::new(),
        selected_note_output_index: 0,
        selected_note_value: 0,
        status: "scheduled".to_owned(),
        metadata_json: "{}".to_owned(),
    };
    assert(row@ =~= scheduled_row_of(t@, display_of(signed.txid@), signed.raw_pczt@));
    row
}

/// A schedule that is being signed: the run that it belongs to, the spending key, the target height,
/// the notes that its transfers must leave alone, the transfers, how many of them are stored, and the
/// notes that those spend.
pub struct ScheduleSigning {
    pub run_id: String,
    pub usk: UnifiedSpendingKey,
    pub target_height: u32,
    pub locks: Vec<(String, u32)>,
    pub transfers: Vec<TransferProposal>,
    pub signed: usize,
    pub reserved: Vec<(String, u32)>,
}

/// The transfer that is to be built next: the first that is not stored yet.
pub open spec fn is_next_transfer(t: Option<&TransferProposal>, signing: ScheduleSigning) -> bool {
    &&& signing.signed < signing.transfers@.len() ==> t == Some(
        &signing.transfers@[signing.signed as int],
    )
    &&& signing.signed >= signing.transfers@.len() ==> t is None
}

/// Note references with their transaction ids in lower case.
pub open spec fn lowered_refs(refs: Seq<(Seq<char>, u32)>) -> Seq<(Seq<char>, u32)> {
    refs.map_values(|r: (Seq<char>, u32)| (lower(r.0), r.1))
}

/// One more transfer is stored: the notes that it spends are reserved behind those of the transfers
/// before it, and nothing else changes.
pub open spec fn is_next_recorded(
    before: ScheduleSigning,
    after: ScheduleSigning,
    spent: Seq<(Seq<char>, u32)>,
) -> bool {
    &&& after == (ScheduleSigning {
        signed: (before.signed + 1) as usize,
        reserved: after.reserved,
        ..before
    })
    &&& ref_views(after.reserved@) == ref_views(before.reserved@) + lowered_refs(spent)
}

/// The next transfer of a schedule is stored for the schedule's run, with the given transaction id and
/// PCZT.
pub open spec fn is_next_stored(
    signing: ScheduleSigning,
    before: StoreView,
    after: StoreView,
    txid: Seq<char>,
    raw_pczt: Seq<u8>,
) -> bool {
    after == (StoreView {
        pending: pending_with(
            before.pending,
            signing.run_id@,
            seq![scheduled_row_of(signing.transfers@[signing.signed as int]@, txid, raw_pczt)],
        ),
        ..before
    })
}

/// What signing the next transfer of a schedule gives, and leaves in the tables: nothing where building
/// or signing it failed.
pub open spec fn is_next_signed(
    r: Result<(), MigrationError>,
    signing: ScheduleSigning,
    signed: ScheduleSigning,
    before: StoreView,
    after: StoreView,
    built: Result<(Pczt, Vec<(String, u32)>), MigrationError>,
) -> bool {
    &&& r is Err ==> after == before && signed == signing
    &&& match built {
        Err(e) => r == Err::<(), MigrationError>(e),
        Ok((pczt, spent)) => match r {
            Err(e) => is_signing_error(
                e,
                pczt_contents(pczt),
                pczt_refusals(pczt),
                key_authority(signing.usk),
            ),
            Ok(_) => {
                &&& is_next_recorded(signing, signed, ref_views(spent@))
                &&& exists|raw_pczt: Seq<u8>|
                    is_signed_pczt(raw_pczt, pczt_contents(pczt), key_authority(signing.usk))
                        && #[trigger] is_next_stored(
                        signing,
                        before,
                        after,
                        display_of(read_txid(raw_pczt)),
                        raw_pczt,
                    )
            },
        },
    }
}

/// The tables once every transfer of a run's schedule is stored.
pub open spec fn is_schedule_finished(
    before: StoreView,
    after: StoreView,
    run_id: Seq<char>,
    now: i64,
) -> bool {
    after == (StoreView {
        runs: runs_with_phase(
            before.runs,
            run_id,
            phase_name(Phase::BroadcastScheduled),
            None,
            now,
        ),
        ..before
    })
}

/// The run that a schedule is signed for: the active one, or a new one under a fresh id.
pub open spec fn signing_run(c: ContextView, s: StoreView, fresh: Seq<char>) -> Seq<char> {
    match c.active(s) {
        Some(run) => run.run_id,
        None => fresh,
    }
}

/// The tables once the run of a schedule is there.
pub open spec fn with_signing_run(c: ContextView, s: StoreView, fresh: Seq<char>, now: i64) -> StoreView {
    match c.active(s) {
        Some(_) => s,
        None => StoreView {
            runs: s.runs.push(started_run(c, fresh, Phase::ReadyToMigrate, Seq::empty(), now)),
            ..s
        },
    }
}

/// What beginning to sign a schedule gives, and leaves in the tables.
pub open spec fn is_schedule_begun(
    r: Result<ScheduleSigning, MigrationError>,
    c: ContextView,
    before: StoreView,
    after: StoreView,
    fresh: Seq<char>,
    transfers: Seq<TransferView>,
    usk: Seq<u8>,
    heights: Result<(u32, u32), MigrationError>,
    now: i64,
) -> bool {
    match decoded_authority(usk) {
        Err(text) => is_pipeline_error(r, "invalid unified spending key: "@ + text) && after
            == before,
        Ok(authority) => if c.active(before) is None && position(before.runs, fresh) is Some {
            r == Err::<ScheduleSigning, MigrationError>(id_taken_error()) && after == before
        } else {
            &&& after == with_signing_run(c, before, fresh, now)
            &&& match heights {
                Err(e) => r == Err::<ScheduleSigning, MigrationError>(e),
                Ok((target, _)) => {
                    &&& r is Ok
                    &&& r->Ok_0.run_id@ == signing_run(c, before, fresh)
                    &&& key_authority(r->Ok_0.usk) == authority
                    &&& r->Ok_0.target_height == target
                    &&& transfer_views(r->Ok_0.transfers@) == transfers
                    &&& r->Ok_0.signed == 0
                    &&& ref_views(r->Ok_0.reserved@) == Seq::<(Seq<char>, u32)>::empty()
                    &&& ref_views(r->Ok_0.locks@).to_set() == locked_refs(
                        after,
                        hyphenated(c.account),
                        Some(signing_run(c, before, fresh)),
                    )
                },
            }
        },
    }
}

/// A copy of some transfers.
fn copy_transfers(transfers: &[TransferProposal]) -> (copy: Vec<TransferProposal>)
    ensures
        transfer_views(copy@) == transfer_views(transfers@),
{
    let mut copy: Vec<TransferProposal> = Vec::new();
    for i in 0..transfers.len()
        invariant
            copy@.len() == i,
            forall|k: int| 0 <= k < i ==> (#[trigger] copy@[k])@ == transfers@[k]@,
    {
        copy.push(transfers[i].duplicate());
    }
    assert(transfer_views(copy@) =~= transfer_views(transfers@));
    copy
}

impl MigrationContext {
    /// Begin signing a schedule; a new run, if one is needed, gets the given id.
    pub fn begin_schedule(
        &self,
        store: &mut Store,
        fresh_run_id: &str,
        schedule: &MigrationSchedule,
        usk: &[u8],
        heights: Result<(u32, u32), MigrationError>,
        now: i64,
    ) -> (r: Result<ScheduleSigning, MigrationError>)
        requires
            old(store)@.wf(),
        ensures
            final(store)@.wf(),
            is_schedule_begun(
                r,
                self@,
                old(store)@,
                final(store)@,
                fresh_run_id@,
                schedule@.transfers,
                usk@,
                heights,
                now,
            ),
    {
        let parsed: UnifiedSpendingKey = match parse_usk(usk) {
            Err(e) => {
                return Err(e);
            },
            Ok(parsed) => parsed,
        };
        let none: Vec<u64> = Vec::new();
        assert(none@ =~= Seq::<u64>::empty());
        let run_id: String = match self.active_run(store) {
            Some(run) => run.run_id,
            None => {
                match self.start_run(
                    store,
                    fresh_run_id,
                    Phase::ReadyToMigrate,
                    none.as_slice(),
                    now,
                ) {
                    Err(e) => {
                        return Err(e);
                    },
                    Ok(()) => {},
                }
                fresh_run_id.to_owned()
            },
        };
        let target_height: u32 = match heights {
            Err(e) => {
                return Err(e);
            },
            Ok((target, _)) => target,
        };
        let locks = store::locked_note_refs(
            store,
            self.account_str().as_str(),
            Some(run_id.as_str()),
        );
        let reserved: Vec<(String, u32)> = Vec::new();
        assert(ref_views(reserved@) =~= Seq::<(Seq<char>, u32)>::empty());
        Ok(
            ScheduleSigning {
                run_id,
                usk: parsed,
                target_height,
                locks,
                transfers: copy_transfers(schedule.transfers.as_slice()),
                signed: 0,
                reserved,
            },
        )
    }

    /// Begin to pre-sign and persist every transfer in the schedule, each at its bucketed anchor.
    /// The transfers belong to the active run, or to a new one. The application builds a PCZT for
    /// each transfer in turn and hands it to [`ScheduleSigning::sign_next`], and ends with
    /// [`ScheduleSigning::finish`].
    pub fn sign_and_store_migration_schedule(
        &self,
        store: &mut Store,
        schedule: &MigrationSchedule,
        usk: &[u8],
        heights: Result<(u32, u32), MigrationError>,
        now: i64,
    ) -> (r: Result<ScheduleSigning, MigrationError>)
        requires
            old(store)@.wf(),
        ensures
            final(store)@.wf(),
            exists|fresh: Seq<char>|
                is_random_id(fresh) && #[trigger] is_schedule_begun(
                    r,
                    self@,
                    old(store)@,
                    final(store)@,
                    fresh,
                    schedule@.transfers,
                    usk@,
                    heights,
                    now,
                ),
    {
        let fresh: String = new_run_id();
        self.begin_schedule(store, fresh.as_str(), schedule, usk, heights, now)
    }
}

impl ScheduleSigning {
    /// The transfer that is to be built next.
    pub fn next_transfer(&self) -> (t: Option<&TransferProposal>)
        ensures
            is_next_transfer(t, *self),
    {
        if self.signed < self.transfers.len() {
            Some(&self.transfers[self.signed])
        } else {
            None
        }
    }

    /// Whether the transfer that is to be built next may spend the note that a transaction made at an
    /// output index: no transfer of the batch spends it yet, and it is not locked.
    pub fn admits(&self, txid_hex: &str, output_index: u32) -> (b: bool)
        ensures
            b == may_spend(
                txid_hex@,
                output_index,
                ref_views(self.reserved@),
                ref_views(self.locks@),
            ),
    {
        is_spendable(txid_hex, output_index, self.reserved.as_slice(), self.locks.as_slice())
    }

    /// Stores the next transfer as a pending one, and reserves the notes that it spends.
    pub fn record_next(&mut self, store: &mut Store, signed: SignedPczt, spent: &[(String, u32)])
        requires
            old(store)@.wf(),
            old(self).signed < old(self).transfers@.len(),
        ensures
            final(store)@.wf(),
            is_next_stored(
                *old(self),
                old(store)@,
                final(store)@,
                display_of(signed.txid@),
                signed.raw_pczt@,
            ),
            is_next_recorded(*old(self), *final(self), ref_views(spent@)),
    {
        let total: usize = self.transfers.len();
        assert(self.signed < total);
        let mut rows: Vec<PendingTxRow> = Vec::new();
        rows.push(pending_row(&self.transfers[self.signed], &signed));
        assert(tx_views(rows@) =~= seq![
            scheduled_row_of(
                self.transfers@[self.signed as int]@,
                display_of(signed.txid@),
                signed.raw_pczt@,
            ),
        ]);
        store::insert_pending_txs(store, self.run_id.as_str(), rows.as_slice());
        self.signed = self.signed + 1;
        let ghost before = ref_views(self.reserved@);
        let ghost notes = lowered_refs(ref_views(spent@));
        for i in 0..spent.len()
            invariant
                notes == lowered_refs(ref_views(spent@)),
                *self == (ScheduleSigning {
                    signed: (old(self).signed + 1) as usize,
                    reserved: self.reserved,
                    ..*old(self)
                }),
                ref_views(self.reserved@) == before + notes.take(i as int),
        {
            let ghost held = self.reserved@;
            self.reserved.push((ascii_lower(spent[i].0.as_str()), spent[i].1));
            assert(ref_views(self.reserved@) =~= ref_views(held).push(notes[i as int]));
            assert(notes.take(i + 1) =~= notes.take(i as int).push(notes[i as int]));
        }
        assert(notes.take(spent@.len() as int) =~= notes);
    }

    /// Proves, signs and stores the next transfer, which the application built; `built` is the PCZT
    /// with the notes that it spends, which are reserved then. Where building or signing failed
    /// nothing is stored, and the transfers before it stay.
    pub fn sign_next(
        &mut self,
        store: &mut Store,
        built: Result<(Pczt, Vec<(String, u32)>), MigrationError>,
        keys: &ProvingKeys,
    ) -> (r: Result<(), MigrationError>)
        requires
            old(store)@.wf(),
            old(self).signed < old(self).transfers@.len(),
        ensures
            final(store)@.wf(),
            is_next_signed(r, *old(self), *final(self), old(store)@, final(store)@, built),
    {
        let (pczt, spent): (Pczt, Vec<(String, u32)>) = match built {
            Err(e) => {
                return Err(e);
            },
            Ok(pair) => pair,
        };
        match prove_sign_finalize(pczt, &self.usk, keys) {
            Err(e) => Err(e),
            Ok(signed) => {
                self.record_next(store, signed, spent.as_slice());
                Ok(())
            },
        }
    }

    /// Marks the run's broadcasts as scheduled, once every transfer is stored.
    pub fn finish(self, store: &mut Store, now: i64)
        requires
            old(store)@.wf(),
            self.signed == self.transfers@.len(),
        ensures
            final(store)@.wf(),
            is_schedule_finished(old(store)@, final(store)@, self.run_id@, now),
    {
        store::set_phase(store, self.run_id.as_str(), Phase::BroadcastScheduled, None, now);
    }
}

} // verus!
