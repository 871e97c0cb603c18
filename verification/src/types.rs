//! The data exchanged with the platform that drives a migration.
//!
//! All amounts are zatoshi (`u64`); all block heights are `u32`. A type that owns text or bytes has
//! a view of the same shape over sequences, which the contracts speak of.

use vstd::prelude::*;

verus! {

/// The most zatoshi that can exist: 21 million ZEC. An amount above it is no valid value.
pub const MAX_MONEY: u64 = 2_100_000_000_000_000;

/// The Zcash network the wallet operates on.
#[derive(Clone, Copy, Debug, PartialEq, Eq)]
pub enum Network {
    Main,
    Test,
}

/// How the platform should broadcast migration transactions.
///
/// `submission_endpoint == None` means broadcast over the same lightwalletd server used for
/// sync; a secondary endpoint de-correlates sync traffic from broadcast traffic.
#[derive(Clone, Debug, PartialEq, Eq)]
pub struct NetworkPrivacyOptions {
    pub use_tor: bool,
    pub submission_endpoint: Option<String>,
}

/// A proposed note split: the per-note output values (zatoshi) and the prep-transaction fee.
#[derive(Clone, Debug, PartialEq, Eq)]
pub struct NoteSplitProposal {
    pub output_notes: Vec<u64>,
    pub fee: u64,
}

/// A single scheduled migration transfer.
///
/// `amount` is the value that crosses into Ironwood; `anchor_height` comes from a shared
/// network-wide bucket; `next_executable_after_height` is when the platform may broadcast it; after
/// `expiry_height` it is invalid and the step must be restarted.
#[derive(Clone, Debug, PartialEq, Eq)]
pub struct TransferProposal {
    pub id: String,
    pub amount: u64,
    pub anchor_height: u32,
    pub next_executable_after_height: u32,
    pub expiry_height: u32,
}

/// The full migration schedule presented to the user for one-time confirmation.
#[derive(Clone, Debug, PartialEq, Eq)]
pub struct MigrationSchedule {
    pub transfers: Vec<TransferProposal>,
    pub estimated_duration_hours: u32,
}

/// Live migration progress for the progress UI.
#[derive(Clone, Copy, Debug, PartialEq, Eq)]
pub struct MigrationProgress {
    pub completed_transfers: u32,
    pub total_transfers: u32,
    pub remaining_orchard: u64,
    pub next_transfer_ready_at_height: Option<u32>,
}

/// A pre-signed transaction for the platform to broadcast. `raw_pczt` is the serialized signed
/// PCZT; `txid` is the (pre-computed) transaction id.
#[derive(Clone, Debug, PartialEq, Eq)]
pub struct PreparedTx {
    pub id: String,
    pub txid: String,
    pub raw_pczt: Vec<u8>,
}

/// Top-level migration state machine surfaced to the app.
#[derive(Clone, Debug, PartialEq, Eq)]
pub enum MigrationState {
    /// No migration has been initiated.
    NotStarted,
    /// Note-split transaction submitted, awaiting on-chain confirmation.
    SplitPendingConfirmation,
    /// Split confirmed (or not needed); ready to propose transfers.
    ReadyToPropose,
    /// Schedule committed; transfers are executing.
    InProgress(MigrationProgress),
    /// A transfer cannot proceed automatically; the app must act.
    RequiresAttention(AttentionReason),
    /// All transfers confirmed; Orchard balance is migrated.
    Complete,
}

/// Why a migration requires user attention.
#[derive(Clone, Debug, PartialEq, Eq)]
pub enum AttentionReason {
    /// An input note was spent externally before its transfer was broadcast.
    InvalidTransfer { transfer_id: String },
    /// A transaction's anchor/expiry elapsed before broadcast.
    TransferExpired,
    /// A transfer produced change back to Orchard that must be synced before the next spend.
    SyncRequiredBeforeNext,
}

/// The outcome of a broadcast attempt, reported back to the engine by the platform.
#[derive(Clone, Debug, PartialEq, Eq)]
pub enum TransferResult {
    Success { txid: String },
    /// Transient network failure; `retryable` indicates whether to retry in a later window.
    NetworkError { retryable: bool },
    /// The input note was already spent.
    InvalidNote,
    /// The transaction's anchor/expiry height has passed.
    Expired,
}

impl TransferProposal {
    /// A copy of this transfer.
    pub fn duplicate(&self) -> (copy: TransferProposal)
        ensures
            copy@ == self@,
    {
        TransferProposal {
            id: self.id.clone(),
            amount: self.amount,
            anchor_height: self.anchor_height,
            next_executable_after_height: self.next_executable_after_height,
            expiry_height: self.expiry_height,
        }
    }
}

// ----- views -----

#[verifier::ext_equal]
pub struct TransferView {
    pub id: Seq<char>,
    pub amount: u64,
    pub anchor_height: u32,
    pub next_executable_after_height: u32,
    pub expiry_height: u32,
}

impl View for TransferProposal {
    type V = TransferView;

    open spec fn view(&self) -> TransferView {
        TransferView {
            id: self.id@,
            amount: self.amount,
            anchor_height: self.anchor_height,
            next_executable_after_height: self.next_executable_after_height,
            expiry_height: self.expiry_height,
        }
    }
}

#[verifier::ext_equal]
pub struct ScheduleView {
    pub transfers: Seq<TransferView>,
    pub estimated_duration_hours: u32,
}

impl View for MigrationSchedule {
    type V = ScheduleView;

    open spec fn view(&self) -> ScheduleView {
        ScheduleView {
            transfers: transfer_views(self.transfers@),
            estimated_duration_hours: self.estimated_duration_hours,
        }
    }
}

/// The views of a sequence of transfers.
pub open spec fn transfer_views(transfers: Seq<TransferProposal>) -> Seq<TransferView> {
    transfers.map_values(|t: TransferProposal| t@)
}

#[verifier::ext_equal]
pub struct PreparedTxView {
    pub id: Seq<char>,
    pub txid: Seq<char>,
    pub raw_pczt: Seq<u8>,
}

impl View for PreparedTx {
    type V = PreparedTxView;

    open spec fn view(&self) -> PreparedTxView {
        PreparedTxView { id: self.id@, txid: self.txid@, raw_pczt: self.raw_pczt@ }
    }
}

#[verifier::ext_equal]
pub struct SplitProposalView {
    pub output_notes: Seq<u64>,
    pub fee: u64,
}

impl View for NoteSplitProposal {
    type V = SplitProposalView;

    open spec fn view(&self) -> SplitProposalView {
        SplitProposalView { output_notes: self.output_notes@, fee: self.fee }
    }
}

#[verifier::ext_equal]
pub enum AttentionView {
    InvalidTransfer { transfer_id: Seq<char> },
    TransferExpired,
    SyncRequiredBeforeNext,
}

impl View for AttentionReason {
    type V = AttentionView;

    open spec fn view(&self) -> AttentionView {
        match self {
            AttentionReason::InvalidTransfer { transfer_id } => AttentionView::InvalidTransfer {
                transfer_id: transfer_id@,
            },
            AttentionReason::TransferExpired => AttentionView::TransferExpired,
            AttentionReason::SyncRequiredBeforeNext => AttentionView::SyncRequiredBeforeNext,
        }
    }
}

#[verifier::ext_equal]
pub enum StateView {
    NotStarted,
    SplitPendingConfirmation,
    ReadyToPropose,
    InProgress(MigrationProgress),
    RequiresAttention(AttentionView),
    Complete,
}

impl View for MigrationState {
    type V = StateView;

    open spec fn view(&self) -> StateView {
        match self {
            MigrationState::NotStarted => StateView::NotStarted,
            MigrationState::SplitPendingConfirmation => StateView::SplitPendingConfirmation,
            MigrationState::ReadyToPropose => StateView::ReadyToPropose,
            MigrationState::InProgress(p) => StateView::InProgress(*p),
            MigrationState::RequiresAttention(r) => StateView::RequiresAttention(r@),
            MigrationState::Complete => StateView::Complete,
        }
    }
}

} // verus!
