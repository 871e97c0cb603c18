//! What the engine reads of the wallet: balances, heights, mined transactions and the probe for a
//! full sweep. The application does the reading; what a reading means is decided here.

use crate::error::{is_pipeline_error, pipeline_error, InvalidStateError, MigrationError};
use crate::hex::{txid_from_display_hex, txid_of_display};
use vstd::prelude::*;
use vstd::string::*;
use zcash_client_sqlite::error::SqliteClientError;

verus! {

/// Spendable Orchard balance and total Ironwood balance (zatoshi) for an account.
#[derive(Clone, Copy, Debug, PartialEq, Eq, Structural)]
pub struct PoolBalances {
    pub orchard_spendable: u64,
    pub ironwood_total: u64,
}

/// The balances that the wallet reports for one account.
#[derive(Clone, Copy, Debug, PartialEq, Eq)]
pub struct AccountBalances {
    pub account: [u8; 16],
    pub balances: PoolBalances,
}

/// The balances that are reported for an account.
pub open spec fn balances_of(accounts: Seq<AccountBalances>, account: Seq<u8>) -> Option<
    PoolBalances,
>
    decreases accounts.len(),
{
    if accounts.len() == 0 {
        None
    } else {
        match balances_of(accounts.drop_last(), account) {
            Some(b) => Some(b),
            None => if accounts.last().account@ == account {
                Some(accounts.last().balances)
            } else {
                None
            },
        }
    }
}

/// An error saying that an operation does not apply.
pub open spec fn is_not_applicable<T>(r: Result<T, MigrationError>, why: Seq<char>) -> bool {
    r matches Err(MigrationError::InvalidState(InvalidStateError::NotApplicable(w))) && w@ == why
}

/// What a wallet summary says of an account's balances.
pub open spec fn is_balance_reading(
    r: Result<PoolBalances, MigrationError>,
    summary: Result<Option<Vec<AccountBalances>>, SqliteClientError>,
    account: Seq<u8>,
) -> bool {
    match summary {
        Err(e) => r == Err::<PoolBalances, MigrationError>(MigrationError::Backend(e)),
        Ok(None) => r == Err::<PoolBalances, MigrationError>(MigrationError::NotSynced),
        Ok(Some(accounts)) => match balances_of(accounts@, account) {
            Some(b) => r == Ok::<PoolBalances, MigrationError>(b),
            None => is_not_applicable(r, "unknown account"@),
        },
    }
}

fn same_account(a: &[u8; 16], b: &[u8; 16]) -> (same: bool)
    ensures
        same == (a@ == b@),
{
    for i in 0..16usize
        invariant
            forall|k: int| 0 <= k < i ==> a@[k] == b@[k],
    {
        if a[i] != b[i] {
            return false;
        }
    }
    assert(a@ =~= b@);
    true
}

/// Read the spendable Orchard and total Ironwood balances for `account` from the wallet's summary.
pub fn pool_balances(
    summary: Result<Option<Vec<AccountBalances>>, SqliteClientError>,
    account: [u8; 16],
) -> (r: Result<PoolBalances, MigrationError>)
    ensures
        is_balance_reading(r, summary, account@),
{
    let accounts: Vec<AccountBalances> = match summary {
        Err(e) => {
            return Err(MigrationError::Backend(e));
        },
        Ok(None) => {
            return Err(MigrationError::NotSynced);
        },
        Ok(Some(accounts)) => accounts,
    };
    let mut found: Option<PoolBalances> = None;
    for i in 0..accounts.len()
        invariant
            found == balances_of(accounts@.take(i as int), account@),
    {
        assert(accounts@.take(i + 1).drop_last() =~= accounts@.take(i as int));
        if found.is_none() && same_account(&accounts[i].account, &account) {
            found = Some(accounts[i].balances);
        }
    }
    assert(accounts@.take(accounts@.len() as int) =~= accounts@);
    match found {
        Some(b) => Ok(b),
        None => Err(
            MigrationError::InvalidState(InvalidStateError::NotApplicable("unknown account")),
        ),
    }
}

/// What the wallet's heights say.
pub open spec fn heights_reading(
    heights: Result<Option<(u32, u32)>, SqliteClientError>,
) -> Result<(u32, u32), MigrationError> {
    match heights {
        Err(e) => Err(MigrationError::Backend(e)),
        Ok(None) => Err(MigrationError::NotSynced),
        Ok(Some(pair)) => Ok(pair),
    }
}

/// The current target height and the wallet's natural (spendable) anchor height.
pub fn target_and_anchor(heights: Result<Option<(u32, u32)>, SqliteClientError>) -> (r: Result<
    (u32, u32),
    MigrationError,
>)
    ensures
        r == heights_reading(heights),
{
    match heights {
        Err(e) => Err(MigrationError::Backend(e)),
        Ok(None) => Err(MigrationError::NotSynced),
        Ok(Some(pair)) => Ok(pair),
    }
}

/// Whether a transaction is mined, given the height at which the wallet has it.
pub open spec fn mined_reading(
    txid_display_hex: Seq<char>,
    height: Result<Option<u32>, SqliteClientError>,
) -> Result<bool, MigrationError> {
    if txid_of_display(txid_display_hex) is None {
        Ok(false)
    } else {
        match height {
            Err(e) => Err(MigrationError::Backend(e)),
            Ok(h) => Ok(h is Some),
        }
    }
}

/// Whether the wallet has mined the transaction with the given display-order txid; `height` is what
/// the wallet says of that transaction. Used to detect that the denomination-split (prep)
/// transaction has confirmed, so the migration can proceed. A text that is no transaction id is
/// never mined.
pub fn is_tx_mined(txid_display_hex: &str, height: Result<Option<u32>, SqliteClientError>) -> (r:
    Result<bool, MigrationError>)
    ensures
        r == mined_reading(txid_display_hex@, height),
{
    match txid_from_display_hex(txid_display_hex) {
        None => Ok(false),
        Some(_) => match height {
            Err(e) => Err(MigrationError::Backend(e)),
            Ok(h) => Ok(h.is_some()),
        },
    }
}

// ----- the full sweep -----

/// What came of proposing a transfer of the whole balance.
pub enum SweepProbe {
    /// The whole balance is proposable, at this fee.
    Proposed { fee: u64 },
    /// The balance falls short of itself and the fee.
    InsufficientFunds { available: u64, required: u64 },
    /// The proposal failed otherwise.
    Failed(String),
}

/// The fee that a probe reveals.
pub open spec fn probed_fee(probe: SweepProbe) -> Option<u64> {
    match probe {
        SweepProbe::Proposed { fee } => Some(fee),
        SweepProbe::InsufficientFunds { available, required } => Some(
            if required > available {
                (required - available) as u64
            } else {
                0
            },
        ),
        SweepProbe::Failed(_) => None,
    }
}

/// What crosses when a total is swept at a fee: all but the fee, where that is anything.
pub open spec fn swept(total: u64, fee: u64) -> Option<u64> {
    if total > fee {
        Some((total - fee) as u64)
    } else {
        None
    }
}

/// What a probe says of the value that a full sweep crosses.
pub open spec fn is_sweep(
    r: Result<Option<u64>, MigrationError>,
    total: u64,
    probe: Result<SweepProbe, MigrationError>,
) -> bool {
    if total == 0 {
        r == Ok::<Option<u64>, MigrationError>(None)
    } else {
        match probe {
            Err(e) => r == Err::<Option<u64>, MigrationError>(e),
            Ok(SweepProbe::Failed(text)) => is_pipeline_error(
                r,
                "immediate sweep probe: "@ + text@,
            ),
            Ok(p) => r == Ok::<Option<u64>, MigrationError>(swept(total, probed_fee(p)->Some_0)),
        }
    }
}

/// The exact "migrate everything" crossing value for the immediate (single-transaction) path: the
/// whole spendable Orchard balance minus the fee to spend all of it into one Ironwood output.
///
/// Unlike the private path there is no note split to self-fund the fee, so the single sweep transfer
/// must account for the fee up front. It is not estimated: a request for the entire balance forces
/// every note to be selected and falls short by exactly the fee. `None` when nothing is migratable
/// (balance at or below the fee).
pub fn sweep_crossing_value(total: u64, probe: Result<SweepProbe, MigrationError>) -> (r: Result<
    Option<u64>,
    MigrationError,
>)
    ensures
        is_sweep(r, total, probe),
{
    if total == 0 {
        return Ok(None);
    }
    let fee: u64 = match probe {
        Err(e) => {
            return Err(e);
        },
        Ok(SweepProbe::Proposed { fee }) => fee,
        Ok(SweepProbe::InsufficientFunds { available, required }) => if required > available {
            required - available
        } else {
            0
        },
        Ok(SweepProbe::Failed(text)) => {
            return Err(pipeline_error("immediate sweep probe: ", text.as_str()));
        },
    };
    if total > fee {
        Ok(Some(total - fee))
    } else {
        Ok(None)
    }
}

/// A full sweep crosses the whole balance but for the fee, and never nothing.
pub proof fn sweep_leaves_only_the_fee(total: u64, fee: u64)
    ensures
        swept(total, fee) matches Some(crossing) ==> crossing > 0 && crossing + fee == total,
        swept(total, fee) is None <==> total <= fee,
{
}

/// When the probe falls short of the balance and the fee, the sweep crosses the balance less that
/// fee.
pub proof fn shortfall_is_the_fee(total: u64, fee: u64)
    requires
        total + fee <= u64::MAX,
    ensures
        probed_fee(
            SweepProbe::InsufficientFunds { available: total, required: (total + fee) as u64 },
        ) == Some(fee),
{
}

} // verus!
