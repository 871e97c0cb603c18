//! The phases of a migration run and the state they surface to the app.

use crate::text::same_text;
use crate::types::{AttentionReason, AttentionView, MigrationProgress, MigrationState, StateView};
use vstd::prelude::*;
use vstd::string::*;

verus! {

/// The phase of a migration run, as it is persisted.
#[derive(Clone, Copy, Debug, PartialEq, Eq, Structural)]
pub enum Phase {
    NoOrchardFunds,
    WaitingForSpendableOrchard,
    ReadyToPrepare,
    PreparingDenominations,
    WaitingDenomConfirmations,
    ReadyToMigrate,
    BroadcastScheduled,
    Broadcasting,
    WaitingMigrationConfirmations,
    FailedRecoverable,
    FailedTerminal,
    Paused,
    Abandoned,
    Complete,
}

/// The persisted name of a phase.
pub open spec fn phase_name(p: Phase) -> Seq<char> {
    match p {
        Phase::NoOrchardFunds => "no_orchard_funds"@,
        Phase::WaitingForSpendableOrchard => "waiting_for_spendable_orchard"@,
        Phase::ReadyToPrepare => "ready_to_prepare"@,
        Phase::PreparingDenominations => "preparing_denominations"@,
        Phase::WaitingDenomConfirmations => "waiting_denom_confirmations"@,
        Phase::ReadyToMigrate => "ready_to_migrate"@,
        Phase::BroadcastScheduled => "broadcast_scheduled"@,
        Phase::Broadcasting => "broadcasting"@,
        Phase::WaitingMigrationConfirmations => "waiting_migration_confirmations"@,
        Phase::FailedRecoverable => "failed_recoverable"@,
        Phase::FailedTerminal => "failed_terminal"@,
        Phase::Paused => "paused"@,
        Phase::Abandoned => "abandoned"@,
        Phase::Complete => "complete"@,
    }
}

/// The phase that a name stands for.
pub open spec fn phase_named(name: Seq<char>) -> Option<Phase> {
    if exists|p: Phase| phase_name(p) == name {
        Some(choose|p: Phase| phase_name(p) == name)
    } else {
        None
    }
}

/// No two phases share a name.
pub proof fn phase_names_are_distinct(a: Phase, b: Phase)
    requires
        phase_name(a) == phase_name(b),
    ensures
        a == b,
{
    reveal_strlit("no_orchard_funds");
    reveal_strlit("waiting_for_spendable_orchard");
    reveal_strlit("ready_to_prepare");
    reveal_strlit("preparing_denominations");
    reveal_strlit("waiting_denom_confirmations");
    reveal_strlit("ready_to_migrate");
    reveal_strlit("broadcast_scheduled");
    reveal_strlit("broadcasting");
    reveal_strlit("waiting_migration_confirmations");
    reveal_strlit("failed_recoverable");
    reveal_strlit("failed_terminal");
    reveal_strlit("paused");
    reveal_strlit("abandoned");
    reveal_strlit("complete");
    assert("no_orchard_funds"@.len() == 16);
    assert("waiting_for_spendable_orchard"@.len() == 29);
    assert("ready_to_prepare"@.len() == 16);
    assert("preparing_denominations"@.len() == 23);
    assert("waiting_denom_confirmations"@.len() == 27);
    assert("ready_to_migrate"@.len() == 16);
    assert("broadcast_scheduled"@.len() == 19);
    assert("broadcasting"@.len() == 12);
    assert("waiting_migration_confirmations"@.len() == 31);
    assert("failed_recoverable"@.len() == 18);
    assert("failed_terminal"@.len() == 15);
    assert("paused"@.len() == 6);
    assert("abandoned"@.len() == 9);
    assert("complete"@.len() == 8);
    assert("no_orchard_funds"@[0] == 'n');
    assert("ready_to_prepare"@[0] == 'r' && "ready_to_prepare"@[9] == 'p');
    assert("ready_to_migrate"@[0] == 'r' && "ready_to_migrate"@[9] == 'm');
}

/// A persisted phase is read back as it was written.
pub proof fn phase_round_trips(p: Phase)
    ensures
        phase_named(phase_name(p)) == Some(p),
{
    let q = choose|q: Phase| phase_name(q) == phase_name(p);
    phase_names_are_distinct(p, q);
}

impl Phase {
    /// The persisted name of the phase.
    pub fn as_str(self) -> (s: &'static str)
        ensures
            s@ == phase_name(self),
    {
        match self {
            Phase::NoOrchardFunds => "no_orchard_funds",
            Phase::WaitingForSpendableOrchard => "waiting_for_spendable_orchard",
            Phase::ReadyToPrepare => "ready_to_prepare",
            Phase::PreparingDenominations => "preparing_denominations",
            Phase::WaitingDenomConfirmations => "waiting_denom_confirmations",
            Phase::ReadyToMigrate => "ready_to_migrate",
            Phase::BroadcastScheduled => "broadcast_scheduled",
            Phase::Broadcasting => "broadcasting",
            Phase::WaitingMigrationConfirmations => "waiting_migration_confirmations",
            Phase::FailedRecoverable => "failed_recoverable",
            Phase::FailedTerminal => "failed_terminal",
            Phase::Paused => "paused",
            Phase::Abandoned => "abandoned",
            Phase::Complete => "complete",
        }
    }

    /// The phase with the given persisted name.
    pub fn parse(name: &str) -> (phase: Option<Phase>)
        ensures
            phase == phase_named(name@),
    {
        let all: [Phase; 14] = [
            Phase::NoOrchardFunds,
            Phase::WaitingForSpendableOrchard,
            Phase::ReadyToPrepare,
            Phase::PreparingDenominations,
            Phase::WaitingDenomConfirmations,
            Phase::ReadyToMigrate,
            Phase::BroadcastScheduled,
            Phase::Broadcasting,
            Phase::WaitingMigrationConfirmations,
            Phase::FailedRecoverable,
            Phase::FailedTerminal,
            Phase::Paused,
            Phase::Abandoned,
            Phase::Complete,
        ];
        let ghost listed = all@;
        proof {
            assert(listed[0] is NoOrchardFunds && listed[1] is WaitingForSpendableOrchard
                && listed[2] is ReadyToPrepare && listed[3] is PreparingDenominations
                && listed[4] is WaitingDenomConfirmations && listed[5] is ReadyToMigrate
                && listed[6] is BroadcastScheduled && listed[7] is Broadcasting
                && listed[8] is WaitingMigrationConfirmations && listed[9] is FailedRecoverable
                && listed[10] is FailedTerminal && listed[11] is Paused && listed[12] is Abandoned
                && listed[13] is Complete);
        }
        assert(forall|p: Phase| #[trigger] phase_name(p) == phase_name(p) ==> exists|k: int|
            0 <= k < 14 && #[trigger] listed[k] == p);
        for i in 0..14
            invariant
                all@ == listed,
                listed.len() == 14,
                forall|k: int| 0 <= k < i ==> phase_name(#[trigger] listed[k]) != name@,
        {
            if same_text(all[i].as_str(), name) {
                proof {
                    phase_round_trips(listed[i as int]);
                }
                return Some(all[i]);
            }
        }
        None
    }

    /// Whether a run in this phase is finished: its notes are no longer locked, and it is no longer
    /// the active run.
    pub fn is_terminal(self) -> (b: bool)
        ensures
            b == is_terminal_phase(self),
    {
        matches!(self, Phase::Complete | Phase::FailedTerminal | Phase::Abandoned)
    }
}

/// The phases in which a run is finished.
pub open spec fn is_terminal_phase(p: Phase) -> bool {
    p is Complete || p is FailedTerminal || p is Abandoned
}

/// The state that a phase surfaces.
pub open spec fn surfaced(
    p: Phase,
    progress: MigrationProgress,
    attention: Option<AttentionView>,
) -> StateView {
    match p {
        Phase::NoOrchardFunds => if progress.total_transfers > 0 && progress.completed_transfers
            == progress.total_transfers {
            StateView::Complete
        } else {
            StateView::NotStarted
        },
        Phase::WaitingForSpendableOrchard | Phase::ReadyToPrepare | Phase::Abandoned =>
            StateView::NotStarted,
        Phase::PreparingDenominations | Phase::WaitingDenomConfirmations =>
            StateView::SplitPendingConfirmation,
        Phase::ReadyToMigrate => StateView::ReadyToPropose,
        Phase::BroadcastScheduled | Phase::Broadcasting | Phase::WaitingMigrationConfirmations =>
            StateView::InProgress(progress),
        Phase::FailedRecoverable | Phase::FailedTerminal | Phase::Paused =>
            StateView::RequiresAttention(
            match attention {
                Some(reason) => reason,
                None => AttentionView::TransferExpired,
            },
        ),
        Phase::Complete => StateView::Complete,
    }
}

/// Maps a run's phase, progress and attention reason to the state the app sees.
pub fn to_state(
    phase: Phase,
    progress: MigrationProgress,
    attention: Option<AttentionReason>,
) -> (state: MigrationState)
    ensures
        state@ == surfaced(
            phase,
            progress,
            match attention {
                Some(reason) => Some(reason@),
                None => None,
            },
        ),
{
    match phase {
        Phase::NoOrchardFunds => {
            if progress.total_transfers > 0 && progress.completed_transfers
                == progress.total_transfers {
                MigrationState::Complete
            } else {
                MigrationState::NotStarted
            }
        },
        Phase::WaitingForSpendableOrchard | Phase::ReadyToPrepare | Phase::Abandoned => {
            MigrationState::NotStarted
        },
        Phase::PreparingDenominations | Phase::WaitingDenomConfirmations => {
            MigrationState::SplitPendingConfirmation
        },
        Phase::ReadyToMigrate => MigrationState::ReadyToPropose,
        Phase::BroadcastScheduled | Phase::Broadcasting | Phase::WaitingMigrationConfirmations => {
            MigrationState::InProgress(progress)
        },
        Phase::FailedRecoverable | Phase::FailedTerminal | Phase::Paused => {
            MigrationState::RequiresAttention(
                match attention {
                    Some(reason) => reason,
                    None => AttentionReason::TransferExpired,
                },
            )
        },
        Phase::Complete => MigrationState::Complete,
    }
}

} // verus!
