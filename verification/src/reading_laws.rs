//! What holds of what the wallet reports, and of the errors and states that are made of it.

use crate::error::{code_of, error_message, state_message, InvalidStateError, MigrationError};
use crate::hex::txid_of_display;
use crate::state::{surfaced, Phase};
use crate::types::{AttentionView, MigrationProgress, StateView};
use crate::wallet::{
    balances_of, heights_reading, is_balance_reading, is_sweep, mined_reading, AccountBalances,
    PoolBalances, SweepProbe,
};
use vstd::prelude::*;
use zcash_client_sqlite::error::SqliteClientError;

verus! {

// ----- balances -----

/// The balances that are read are those that the summary reports for the account, the first ones where
/// it reports several; an account that it does not report is unknown, and without a summary the wallet
/// is not synced.
pub proof fn balances_are_those_of_the_account(
    r: Result<PoolBalances, MigrationError>,
    summary: Result<Option<Vec<AccountBalances>>, SqliteClientError>,
    account: Seq<u8>,
)
    requires
        is_balance_reading(r, summary, account),
    ensures
        summary is Err ==> r == Err::<PoolBalances, MigrationError>(
            MigrationError::Backend(summary->Err_0),
        ),
        summary is Ok && summary->Ok_0 is None ==> r is Err && r->Err_0 is NotSynced,
        summary is Ok && summary->Ok_0 is Some ==> {
            let accounts = summary->Ok_0->Some_0@;
            &&& r matches Ok(b) ==> exists|k: int|
                #![trigger accounts[k]]
                0 <= k < accounts.len() && accounts[k].account@ == account && b
                    == accounts[k].balances && forall|i: int|
                    0 <= i < k ==> (#[trigger] accounts[i]).account@ != account
            &&& r is Err <==> forall|i: int|
                0 <= i < accounts.len() ==> (#[trigger] accounts[i]).account@ != account
            &&& r is Err ==> {
                r matches Err(MigrationError::InvalidState(InvalidStateError::NotApplicable(why)))
                    && why@ == "unknown account"@
            }
        },
{
    if let Ok(Some(accounts)) = summary {
        account_is_found(accounts@, account);
    }
}

proof fn account_is_found(accounts: Seq<AccountBalances>, account: Seq<u8>)
    ensures
        balances_of(accounts, account) matches Some(b) ==> exists|k: int|
            #![trigger accounts[k]]
            0 <= k < accounts.len() && accounts[k].account@ == account && b == accounts[k].balances
                && forall|i: int| 0 <= i < k ==> (#[trigger] accounts[i]).account@ != account,
        balances_of(accounts, account) is None <==> forall|i: int|
            0 <= i < accounts.len() ==> (#[trigger] accounts[i]).account@ != account,
    decreases accounts.len(),
{
    if accounts.len() > 0 {
        let front = accounts.drop_last();
        let last = accounts.len() - 1;
        account_is_found(front, account);
        assert(forall|i: int| 0 <= i < front.len() ==> front[i] == accounts[i]);
        match balances_of(front, account) {
            Some(b) => {
                let k = choose|k: int|
                    #![trigger front[k]]
                    0 <= k < front.len() && front[k].account@ == account && b == front[k].balances
                        && forall|i: int| 0 <= i < k ==> (#[trigger] front[i]).account@ != account;
                assert(accounts[k].account@ == account);
                assert forall|i: int| 0 <= i < k implies (#[trigger] accounts[i]).account@
                    != account by {
                    assert(front[i].account@ != account);
                }
            },
            None => {
                assert forall|i: int| 0 <= i < last implies (#[trigger] accounts[i]).account@
                    != account by {
                    assert(front[i].account@ != account);
                }
                assert(accounts[last] == accounts.last());
            },
        }
    }
}

// ----- heights and mined transactions -----

/// The heights are those that the wallet reports; without any it is not synced.
pub proof fn heights_are_those_of_the_wallet(heights: Result<Option<(u32, u32)>, SqliteClientError>)
    ensures
        match heights {
            Err(e) => heights_reading(heights) == Err::<(u32, u32), MigrationError>(
                MigrationError::Backend(e),
            ),
            Ok(None) => heights_reading(heights) is Err && heights_reading(heights)->Err_0
                is NotSynced,
            Ok(Some(pair)) => heights_reading(heights) == Ok::<(u32, u32), MigrationError>(pair),
        },
{
}

/// A transaction is mined exactly where the text is a transaction id and the wallet has it at some
/// height.
pub proof fn mined_transactions_have_a_height(
    text: Seq<char>,
    height: Result<Option<u32>, SqliteClientError>,
)
    ensures
        mined_reading(text, height) == Ok::<bool, MigrationError>(true) <==> txid_of_display(text)
            is Some && height is Ok && height->Ok_0 is Some,
        mined_reading(text, height) is Err <==> txid_of_display(text) is Some && height is Err,
        txid_of_display(text) is Some && height is Err ==> mined_reading(text, height) == Err::<
            bool,
            MigrationError,
        >(MigrationError::Backend(height->Err_0)),
{
}

// ----- the full sweep -----

/// A sweep of a balance crosses all but the fee that the probe reveals, and nothing where the balance
/// does not exceed it; it fails only where the probe did, and never without a balance.
pub proof fn sweep_crosses_all_but_the_fee(
    r: Result<Option<u64>, MigrationError>,
    total: u64,
    probe: Result<SweepProbe, MigrationError>,
)
    requires
        is_sweep(r, total, probe),
    ensures
        total == 0 ==> r is Ok && r->Ok_0 is None,
        total > 0 ==> match probe {
            Err(e) => r == Err::<Option<u64>, MigrationError>(e),
            Ok(SweepProbe::Failed(text)) => {
                r matches Err(MigrationError::Pipeline(m)) && m@ == "immediate sweep probe: "@
                    + text@
            },
            Ok(SweepProbe::Proposed { fee }) => {
                &&& r is Ok
                &&& total > fee ==> r->Ok_0 is Some && r->Ok_0->Some_0 + fee == total
                &&& total <= fee ==> r->Ok_0 is None
            },
            Ok(SweepProbe::InsufficientFunds { available, required }) => {
                let fee = if required > available {
                    required - available
                } else {
                    0
                };
                &&& r is Ok
                &&& total > fee ==> r->Ok_0 is Some && r->Ok_0->Some_0 + fee == total
                &&& total <= fee ==> r->Ok_0 is None
            },
        },
{
}

// ----- errors -----

/// Each kind of error has its number.
pub proof fn errors_are_numbered(e: MigrationError)
    ensures
        code_of(e) == 1 <==> e is NotSynced,
        code_of(e) == 2 <==> e is NotInitialized,
        code_of(e) == 3 <==> e is InvalidState,
        code_of(e) == 4 <==> e is Db,
        code_of(e) == 5 <==> e is Backend,
        code_of(e) == 6 <==> e is Pipeline,
        code_of(e) == 7 <==> e is Unsupported,
        1 <= code_of(e) <= 7,
{
}

/// The message of an error is that of its kind, followed by all that the error tells.
pub proof fn messages_tell_all_of_an_error(e: MigrationError, detail: Seq<char>)
    ensures
        e is NotSynced ==> error_message(e, detail) == "wallet must finish syncing first"@,
        e is NotInitialized ==> error_message(e, detail)
            == "migration not initialized; call initialize_post_upgrade first"@,
        e matches MigrationError::InvalidState(s) ==> error_message(e, detail)
            == "invalid migration state: "@ + state_message(s),
        e is Db ==> error_message(e, detail) == "database error: "@ + detail,
        e is Backend ==> error_message(e, detail) == "wallet backend error: "@ + detail,
        e matches MigrationError::Pipeline(m) ==> error_message(e, detail)
            == "pczt pipeline error: "@ + m@,
        e matches MigrationError::Unsupported(why) ==> error_message(e, detail)
            == "unsupported by pinned librustzcash: "@ + why@,
{
}

/// The message of a state error is that of its kind, followed by all that the error tells.
pub proof fn messages_tell_all_of_a_state_error(s: InvalidStateError)
    ensures
        s is NoActiveRun ==> state_message(s) == "no active migration run"@,
        s matches InvalidStateError::UnknownPhase(p) ==> state_message(s)
            == "unknown migration phase: "@ + p@,
        s matches InvalidStateError::WrongPhase { expected, found } ==> state_message(s)
            == "wrong migration phase: expected "@ + expected@ + ", found "@ + found@,
        s is AlreadyComplete ==> state_message(s) == "migration already complete"@,
        s matches InvalidStateError::NotApplicable(why) ==> state_message(s)
            == "operation not applicable: "@ + why@,
{
}

// ----- what a phase surfaces as -----

/// A phase in progress surfaces with the progress as it is, a failed or paused one with its reason or as
/// an expiry, and the others as what they are; a phase without funds is complete only where there were
/// transfers and all of them are.
pub proof fn phases_surface_by_what_they_mean(
    p: Phase,
    progress: MigrationProgress,
    attention: Option<AttentionView>,
)
    ensures
        surfaced(p, progress, attention) is InProgress <==> p is BroadcastScheduled || p
            is Broadcasting || p is WaitingMigrationConfirmations,
        surfaced(p, progress, attention) matches StateView::InProgress(shown) ==> shown == progress,
        surfaced(p, progress, attention) is RequiresAttention <==> p is FailedRecoverable || p
            is FailedTerminal || p is Paused,
        surfaced(p, progress, attention) matches StateView::RequiresAttention(reason) ==> reason
            == match attention {
            Some(given) => given,
            None => AttentionView::TransferExpired,
        },
        surfaced(p, progress, attention) is SplitPendingConfirmation <==> p
            is PreparingDenominations || p is WaitingDenomConfirmations,
        surfaced(p, progress, attention) is ReadyToPropose <==> p is ReadyToMigrate,
        surfaced(p, progress, attention) is Complete <==> p is Complete || (p is NoOrchardFunds
            && progress.total_transfers > 0 && progress.completed_transfers
            == progress.total_transfers),
{
}

} // verus!
