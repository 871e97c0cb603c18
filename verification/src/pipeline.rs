//! The pipeline that turns an assembled PCZT into a signed one: prove, sign, finalize, serialize,
//! extract. The work of each role is done by the `pczt` crate; what it reports is told apart here.

use crate::error::{is_pipeline_error, pipeline_error, InvalidStateError, MigrationError};
use crate::types::MAX_MONEY;
use orchard::bundle::BundleVersion;
use orchard::circuit::ProvingKey;
use orchard::keys::SpendAuthorizingKey;
use orchard::pczt::TxExtractorError;
use pczt::Pczt;
use pczt::roles::prover::Prover;
use pczt::roles::signer::Signer;
use pczt::roles::tx_extractor::{Error, OrchardError, TransactionExtractor};
use std::sync::OnceLock;
use vstd::prelude::*;
use vstd::string::*;
use zcash_address::ZcashAddress;
use zcash_client_sqlite::error::SqliteClientError;
use zcash_keys::keys::UnifiedSpendingKey;
use zcash_primitives::transaction::Transaction;
use zip321::TransactionRequest;

verus! {

// ----- outside types that are carried through -----

/// `pczt::Pczt`: a partially created transaction.
#[verifier::external_type_specification]
#[verifier::external_body]
pub struct ExPczt(pczt::Pczt);

/// `pczt::roles::prover::Prover`.
#[verifier::external_type_specification]
#[verifier::external_body]
pub struct ExProver(pczt::roles::prover::Prover);

/// `pczt::roles::signer::Signer`.
#[verifier::external_type_specification]
#[verifier::external_body]
pub struct ExSigner(pczt::roles::signer::Signer);

/// `orchard::circuit::ProvingKey`.
#[verifier::external_type_specification]
#[verifier::external_body]
pub struct ExProvingKey(orchard::circuit::ProvingKey);

/// `orchard::keys::SpendAuthorizingKey`.
#[verifier::external_type_specification]
#[verifier::external_body]
pub struct ExSpendAuthorizingKey(orchard::keys::SpendAuthorizingKey);

/// `zcash_keys::keys::UnifiedSpendingKey`.
#[verifier::external_type_specification]
#[verifier::external_body]
pub struct ExUnifiedSpendingKey(zcash_keys::keys::UnifiedSpendingKey);

/// `zcash_primitives::transaction::Transaction`.
#[verifier::external_type_specification]
#[verifier::external_body]
pub struct ExTransaction(zcash_primitives::transaction::Transaction);

/// `zcash_address::ZcashAddress`.
#[verifier::external_type_specification]
#[verifier::external_body]
pub struct ExZcashAddress(zcash_address::ZcashAddress);

/// `zip321::TransactionRequest`: a collection of payments.
#[verifier::external_type_specification]
#[verifier::external_body]
pub struct ExTransactionRequest(zip321::TransactionRequest);

/// `std::sync::OnceLock`.
#[verifier::external_type_specification]
#[verifier::external_body]
#[verifier::reject_recursive_types(T)]
pub struct ExOnceLock<T>(std::sync::OnceLock<T>);

// ----- proving keys -----

/// The proving keys, each built when it is first needed (in memory; no parameters are read). A
/// transfer carries an Orchard bundle and an Ironwood bundle, each proved with its own key; a note
/// split carries only an Orchard bundle.
pub struct ProvingKeys {
    orchard: OnceLock<ProvingKey>,
    ironwood: OnceLock<ProvingKey>,
}

/// `std::sync::OnceLock::new`. Nothing is claimed: the lock is filled later behind a shared reference.
#[verifier::external_body]
pub(crate) fn no_key_yet() -> (lock: OnceLock<ProvingKey>) {
    OnceLock::new()
}

/// `orchard::circuit::ProvingKey::build` for the circuit of Orchard bundles since NU6.3, once. Nothing
/// is claimed of the key.
#[verifier::external_body]
pub(crate) fn orchard_proving_key(lock: &OnceLock<ProvingKey>) -> (key: &ProvingKey) {
    lock.get_or_init(|| ProvingKey::build(BundleVersion::orchard_v3().circuit_version()))
}

/// `orchard::circuit::ProvingKey::build` for the circuit of Ironwood bundles, once. Nothing is claimed
/// of the key.
#[verifier::external_body]
pub(crate) fn ironwood_proving_key(lock: &OnceLock<ProvingKey>) -> (key: &ProvingKey) {
    lock.get_or_init(|| ProvingKey::build(BundleVersion::ironwood_v3().circuit_version()))
}

impl ProvingKeys {
    /// Proving keys of which none is built yet. Each is built later, behind a shared reference.
    pub fn new() -> (keys: ProvingKeys) {
        ProvingKeys { orchard: no_key_yet(), ironwood: no_key_yet() }
    }
}

// ----- stages -----

/// What a stage of the pipeline hands on: its value, or a pipeline error made of the stage's name
/// and what it reported.
pub open spec fn is_stage_result<T>(
    handed_on: Result<T, MigrationError>,
    stage: Seq<char>,
    reported: Result<T, String>,
) -> bool {
    match reported {
        Ok(value) => handed_on == Ok::<T, MigrationError>(value),
        Err(text) => is_pipeline_error(handed_on, stage + text@),
    }
}

/// Puts the name of a stage before what it reported.
pub fn in_stage<T>(stage: &str, reported: Result<T, String>) -> (r: Result<T, MigrationError>)
    ensures
        is_stage_result(r, stage@, reported),
{
    match reported {
        Ok(value) => Ok(value),
        Err(text) => Err(pipeline_error(stage, text.as_str())),
    }
}

/// A pipeline error of the given stage.
pub open spec fn is_error_of_stage(e: MigrationError, stage: Seq<char>) -> bool {
    e matches MigrationError::Pipeline(m) && exists|text: Seq<char>| m@ == stage + text
}

// ----- spending keys -----

/// The Orchard spend authorizing key of a unified spending key, as bytes.
pub uninterp spec fn key_authority(usk: UnifiedSpendingKey) -> Seq<u8>;

/// What `zcash_keys::keys::UnifiedSpendingKey::from_bytes` makes of some bytes as a key of the
/// Orchard era: the key's Orchard spend authorizing key, or the `Debug` text of the error.
pub uninterp spec fn decoded_authority(bytes: Seq<u8>) -> Result<Seq<u8>, Seq<char>>;

/// What came of decoding a key, over its Orchard spend authorizing key.
pub open spec fn authority_or_error(key: Result<UnifiedSpendingKey, String>) -> Result<
    Seq<u8>,
    Seq<char>,
> {
    match key {
        Ok(usk) => Ok(key_authority(usk)),
        Err(text) => Err(text@),
    }
}

/// `zcash_keys::keys::UnifiedSpendingKey::from_bytes` for the Orchard era, its error as `Debug`
/// text. Which key the bytes encode, or which error comes of them, depends on the bytes alone.
#[verifier::external_body]
pub(crate) fn decode_spending_key(bytes: &[u8]) -> (key: Result<UnifiedSpendingKey, String>)
    ensures
        authority_or_error(key) == decoded_authority(bytes@),
{
    match UnifiedSpendingKey::from_bytes(zcash_keys::keys::Era::Orchard, bytes) {
        Ok(key) => Ok(key),
        Err(e) => Err(format!("{e:?}")),
    }
}

/// What parsing the bytes of a Unified Spending Key gives.
pub open spec fn is_parsed_usk(key: Result<UnifiedSpendingKey, MigrationError>, bytes: Seq<u8>) -> bool {
    match decoded_authority(bytes) {
        Ok(authority) => key matches Ok(usk) && key_authority(usk) == authority,
        Err(text) => is_pipeline_error(key, "invalid unified spending key: "@ + text),
    }
}

/// Parse a Unified Spending Key from its raw byte encoding (Orchard era).
pub fn parse_usk(bytes: &[u8]) -> (key: Result<UnifiedSpendingKey, MigrationError>)
    ensures
        is_parsed_usk(key, bytes@),
{
    in_stage("invalid unified spending key: ", decode_spending_key(bytes))
}

// ----- payments -----

/// The payments of a request, in order: to whom, and how much.
pub uninterp spec fn requested_payments(request: TransactionRequest) -> Seq<
    (ZcashAddress, Option<u64>),
>;

/// `zcash_protocol::value::Zatoshis::from_u64`, its error as `Debug` text: an amount of at most
/// [`MAX_MONEY`] is handed back, a larger one overflows.
#[verifier::external_body]
pub(crate) fn checked_zatoshis(amount: u64) -> (value: Result<u64, String>)
    ensures
        value is Ok <==> amount <= MAX_MONEY,
        value is Ok ==> value->Ok_0 == amount,
        value is Err ==> value->Err_0@ == "Overflow"@,
{
    match zcash_protocol::value::Zatoshis::from_u64(amount) {
        Ok(value) => Ok(u64::from(value)),
        Err(e) => Err(format!("{e:?}")),
    }
}

/// Why `zip321::TransactionRequest::new` refuses a single payment of an amount to an address: the
/// `Debug` text of its error, or `None` where it builds the request.
pub uninterp spec fn payment_refusal(address: ZcashAddress, amount: u64) -> Option<Seq<char>>;

/// The text of an error, where there is one.
pub open spec fn error_text<T>(r: Result<T, String>) -> Option<Seq<char>> {
    match r {
        Ok(_) => None,
        Err(text) => Some(text@),
    }
}

/// `zip321::TransactionRequest::new` on one `zip321::Payment::without_memo`, its error as `Debug`
/// text: whether a request is built depends on the address and the amount alone, and one that is
/// built holds that payment alone.
#[verifier::external_body]
pub(crate) fn single_payment(address: &ZcashAddress, amount: u64) -> (request: Result<
    TransactionRequest,
    String,
>)
    requires
        amount <= MAX_MONEY,
    ensures
        error_text(request) == payment_refusal(*address, amount),
        request is Ok ==> requested_payments(request->Ok_0) == seq![(*address, Some(amount))],
{
    let value = zcash_protocol::value::Zatoshis::const_from_u64(amount);
    let payment = zip321::Payment::without_memo(address.clone(), value);
    match TransactionRequest::new(vec![payment]) {
        Ok(request) => Ok(request),
        Err(e) => Err(format!("{e:?}")),
    }
}

/// What building a payment of an amount to an address gives: an amount beyond all money is refused,
/// and so is what ZIP 321 does not admit; otherwise the request holds the payment alone.
pub open spec fn is_self_payment(
    request: Result<TransactionRequest, MigrationError>,
    address: ZcashAddress,
    amount: u64,
) -> bool {
    if amount > MAX_MONEY {
        is_pipeline_error(request, "invalid migration amount: Overflow"@)
    } else {
        match payment_refusal(address, amount) {
            None => request matches Ok(r) && requested_payments(r) == seq![(address, Some(amount))],
            Some(text) => is_pipeline_error(request, "construct self-payment request: "@ + text),
        }
    }
}

/// Build a zip321 request paying `amount` zatoshi to `address`. The migration is a self-send, so
/// `address` is the account's own unified address resolved by [`self_payment_request`].
pub fn build_self_payment(address: &ZcashAddress, amount: u64) -> (request: Result<
    TransactionRequest,
    MigrationError,
>)
    ensures
        is_self_payment(request, *address, amount),
{
    let checked: Result<u64, MigrationError> = in_stage(
        "invalid migration amount: ",
        checked_zatoshis(amount),
    );
    match checked {
        Ok(value) => in_stage("construct self-payment request: ", single_payment(address, value)),
        Err(e) => {
            proof {
                reveal_strlit("invalid migration amount: ");
                reveal_strlit("Overflow");
                reveal_strlit("invalid migration amount: Overflow");
                assert("invalid migration amount: "@ + "Overflow"@
                    =~= "invalid migration amount: Overflow"@);
            }
            Err(e)
        },
    }
}

/// Build a zip321 request paying `amount` to the account's own current unified address, as the
/// wallet reported it (Ironwood addresses equal the existing Orchard/unified address, so the
/// migration is a self-send).
pub fn self_payment_request(
    address: Result<Option<ZcashAddress>, SqliteClientError>,
    amount: u64,
) -> (request: Result<TransactionRequest, MigrationError>)
    ensures
        match address {
            Err(e) => request matches Err(MigrationError::Backend(b)) && b == e,
            Ok(None) => {
                request matches Err(MigrationError::InvalidState(InvalidStateError::NotApplicable(why)))
                    && why@ == "account has no current unified address"@
            },
            Ok(Some(own)) => is_self_payment(request, own, amount),
        },
{
    match address {
        Err(e) => Err(MigrationError::Backend(e)),
        Ok(None) => Err(
            MigrationError::InvalidState(
                InvalidStateError::NotApplicable("account has no current unified address"),
            ),
        ),
        Ok(Some(own)) => build_self_payment(&own, amount),
    }
}

// ----- the roles -----

/// The spend of an Orchard action: whether it carries a signature, the key that validates the
/// signature, the randomizer by which that key comes of the owner's, and what keeps the spend from
/// being signed with any key, if anything does (the parts of its note do not fit together, or there
/// is no randomizer), as the signer reports it. A dummy spend still carries its own key, with which
/// it is signed when inputs and outputs are finalized.
pub struct OrchardSpend {
    pub signed: bool,
    pub rk: Seq<u8>,
    pub alpha: Option<Seq<u8>>,
    pub defect: Option<Seq<char>>,
    pub dummy: bool,
}

/// What a PCZT holds, as far as it matters here: the spends of its Orchard actions, whether it has
/// Orchard or Ironwood actions without a proof or without the key for their binding signature,
/// whether a transparent input asks for a lock time, and the id of its transaction. (The id is a
/// digest of what the transaction does; proofs and signatures do not enter it.)
pub struct PcztContents {
    pub spends: Seq<OrchardSpend>,
    pub lacks_orchard_proof: bool,
    pub lacks_ironwood_proof: bool,
    pub lacks_binding_key: bool,
    pub asks_lock_time: bool,
    pub txid: Seq<u8>,
}

/// What keeps a PCZT from being signed, and its transparent inputs from being finalized, if anything
/// does: the `Debug` texts with which `pczt::roles::signer::Signer::new` and
/// `pczt::roles::spend_finalizer::SpendFinalizer::finalize_spends` refuse it.
pub struct PcztRefusals {
    pub signer: Option<Seq<char>>,
    pub transparent: Option<Seq<char>>,
}

/// What a PCZT holds.
pub uninterp spec fn pczt_contents(pczt: Pczt) -> PcztContents;

/// What the PCZT of a prover holds.
pub uninterp spec fn prover_contents(prover: Prover) -> PcztContents;

/// What the PCZT of a signer holds.
pub uninterp spec fn signer_contents(signer: Signer) -> PcztContents;

/// What keeps a PCZT from being signed and finalized.
pub uninterp spec fn pczt_refusals(pczt: Pczt) -> PcztRefusals;

/// What keeps the PCZT of a prover from being signed and finalized.
pub uninterp spec fn prover_refusals(prover: Prover) -> PcztRefusals;

/// What keeps the transparent inputs of a signer's PCZT from being finalized.
pub uninterp spec fn signer_transparent_refusal(signer: Signer) -> Option<Seq<char>>;

/// Every spend carries a signature, and nothing lacks a proof or the key for a binding signature.
pub open spec fn is_complete(c: PcztContents) -> bool {
    &&& forall|i: int| 0 <= i < c.spends.len() ==> (#[trigger] c.spends[i]).signed
    &&& !c.lacks_orchard_proof
    &&& !c.lacks_ironwood_proof
    &&& !c.lacks_binding_key
}

/// `pczt::roles::prover::Prover::new`: the prover holds the PCZT.
#[verifier::external_body]
pub(crate) fn new_prover(pczt: Pczt) -> (prover: Prover)
    ensures
        prover_contents(prover) == pczt_contents(pczt),
        prover_refusals(prover) == pczt_refusals(pczt),
{
    Prover::new(pczt)
}

/// `pczt::roles::prover::Prover::requires_orchard_proof`: whether there are Orchard actions without a
/// proof.
#[verifier::external_body]
pub(crate) fn requires_orchard_proof(prover: &Prover) -> (b: bool)
    ensures
        b == prover_contents(*prover).lacks_orchard_proof,
{
    prover.requires_orchard_proof()
}

/// `pczt::roles::prover::Prover::requires_ironwood_proof`: whether there are Ironwood actions without
/// a proof.
#[verifier::external_body]
pub(crate) fn requires_ironwood_proof(prover: &Prover) -> (b: bool)
    ensures
        b == prover_contents(*prover).lacks_ironwood_proof,
{
    prover.requires_ironwood_proof()
}

/// `pczt::roles::prover::Prover::create_orchard_proof` with the system's randomness, its error as
/// `Debug` text: the Orchard actions, of which there are some, have a proof then, and the rest
/// stays as it was. Nothing is claimed of the proof, which is random, nor of when one is made.
#[verifier::external_body]
pub(crate) fn create_orchard_proof(prover: Prover, key: &ProvingKey) -> (proved: Result<
    Prover,
    String,
>)
    requires
        prover_contents(prover).lacks_orchard_proof,
    ensures
        proved is Ok ==> prover_refusals(proved->Ok_0) == prover_refusals(prover),
        proved is Ok ==> prover_contents(proved->Ok_0) == (PcztContents {
            lacks_orchard_proof: false,
            ..prover_contents(prover)
        }),
{
    let rng = rand::rand_core::UnwrapErr(rand::rngs::SysRng);
    match prover.create_orchard_proof(rng, key) {
        Ok(proved) => Ok(proved),
        Err(e) => Err(format!("{e:?}")),
    }
}

/// `pczt::roles::prover::Prover::create_ironwood_proof` with the system's randomness, its error as
/// `Debug` text: the Ironwood actions, of which there are some, have a proof then, and the rest
/// stays as it was. Nothing is claimed of the proof, which is random, nor of when one is made.
#[verifier::external_body]
pub(crate) fn create_ironwood_proof(prover: Prover, key: &ProvingKey) -> (proved: Result<
    Prover,
    String,
>)
    requires
        prover_contents(prover).lacks_ironwood_proof,
    ensures
        proved is Ok ==> prover_refusals(proved->Ok_0) == prover_refusals(prover),
        proved is Ok ==> prover_contents(proved->Ok_0) == (PcztContents {
            lacks_ironwood_proof: false,
            ..prover_contents(prover)
        }),
{
    let rng = rand::rand_core::UnwrapErr(rand::rngs::SysRng);
    match prover.create_ironwood_proof(rng, key) {
        Ok(proved) => Ok(proved),
        Err(e) => Err(format!("{e:?}")),
    }
}

/// `pczt::roles::prover::Prover::finish`: the PCZT that the prover holds.
#[verifier::external_body]
pub(crate) fn finish_proving(prover: Prover) -> (pczt: Pczt)
    ensures
        pczt_contents(pczt) == prover_contents(prover),
        pczt_refusals(pczt) == prover_refusals(prover),
{
    prover.finish()
}

/// `pczt::roles::signer::Signer::new`, its error as `Debug` text: whether the PCZT is
/// refused depends on it alone, and a signer holds it.
#[verifier::external_body]
pub(crate) fn new_signer(pczt: Pczt) -> (signer: Result<Signer, String>)
    ensures
        error_text(signer) == pczt_refusals(pczt).signer,
        signer is Ok ==> signer_contents(signer->Ok_0) == pczt_contents(pczt),
        signer is Ok ==> signer_transparent_refusal(signer->Ok_0)
            == pczt_refusals(pczt).transparent,
{
    match Signer::new(pczt) {
        Ok(signer) => Ok(signer),
        Err(e) => Err(format!("{e:?}")),
    }
}

/// The bytes of an Orchard spend authorizing key.
pub uninterp spec fn authority_bytes(ask: SpendAuthorizingKey) -> Seq<u8>;

/// `orchard::keys::SpendAuthorizingKey::from` on the Orchard part of a spending key.
#[verifier::external_body]
pub(crate) fn spend_authorizing_key(usk: &UnifiedSpendingKey) -> (ask: SpendAuthorizingKey)
    ensures
        authority_bytes(ask) == key_authority(*usk),
{
    SpendAuthorizingKey::from(usk.orchard())
}

/// What came of signing one action.
pub enum SignOutcome {
    /// The spend is the wallet's, and is signed now.
    Signed,
    /// The spend belongs to another key.
    WrongKey,
    /// There is no action at that index.
    NoSuchAction,
    /// Signing failed.
    Failed(String),
}

/// Whether an Orchard spend authorizing key, randomized by `alpha`, is the one that `rk` validates.
pub uninterp spec fn authorizes(ask: Seq<u8>, alpha: Option<Seq<u8>>, rk: Seq<u8>) -> bool;

/// Whether a spend belongs to an Orchard spend authorizing key.
pub open spec fn is_spend_of(spend: OrchardSpend, ask: Seq<u8>) -> bool {
    authorizes(ask, spend.alpha, spend.rk)
}

/// A PCZT with a signature on one of its spends.
pub open spec fn with_signature(c: PcztContents, i: int) -> PcztContents {
    PcztContents {
        spends: c.spends.update(i, OrchardSpend { signed: true, ..c.spends[i] }),
        ..c
    }
}

/// `pczt::roles::signer::Signer::sign_orchard` with the system's randomness, its error told apart:
/// an index is refused exactly when no action stands there; a spend with a defect fails, with the
/// defect as the text; any other is signed with the key that it belongs to and passed over with
/// another. Where it is not signed the PCZT stays as it was. No list of actions is as long as the
/// largest index.
#[verifier::external_body]
pub(crate) fn sign_action(signer: &mut Signer, index: usize, ask: &SpendAuthorizingKey) -> (outcome:
    SignOutcome)
    ensures
        outcome is NoSuchAction <==> index >= signer_contents(*old(signer)).spends.len(),
        index == usize::MAX ==> outcome is NoSuchAction,
        !(outcome is NoSuchAction) ==> (outcome is Failed <==> signer_contents(
            *old(signer),
        ).spends[index as int].defect is Some),
        outcome is Failed ==> outcome->Failed_0@ == signer_contents(
            *old(signer),
        ).spends[index as int].defect->Some_0,
        outcome is Signed ==> authorizes(
            authority_bytes(*ask),
            signer_contents(*old(signer)).spends[index as int].alpha,
            signer_contents(*old(signer)).spends[index as int].rk,
        ),
        outcome is WrongKey ==> !authorizes(
            authority_bytes(*ask),
            signer_contents(*old(signer)).spends[index as int].alpha,
            signer_contents(*old(signer)).spends[index as int].rk,
        ),
        outcome is Signed ==> signer_contents(*final(signer)) == with_signature(
            signer_contents(*old(signer)),
            index as int,
        ),
        !(outcome is Signed) ==> signer_contents(*final(signer)) == signer_contents(*old(signer)),
        signer_transparent_refusal(*final(signer)) == signer_transparent_refusal(*old(signer)),
{
    let rng = rand::rand_core::UnwrapErr(rand::rngs::SysRng);
    match signer.sign_orchard(rng, index, ask) {
        Ok(()) => SignOutcome::Signed,
        Err(pczt::roles::signer::Error::InvalidIndex) => SignOutcome::NoSuchAction,
        Err(
            pczt::roles::signer::Error::OrchardSign(
                orchard::pczt::SignerError::WrongSpendAuthorizingKey,
            ),
        ) => SignOutcome::WrongKey,
        Err(e) => SignOutcome::Failed(format!("{e:?}")),
    }
}

/// The spends once those that belong to a key are signed.
pub open spec fn signed_with(spends: Seq<OrchardSpend>, ask: Seq<u8>) -> Seq<OrchardSpend> {
    spends.map_values(
        |spend: OrchardSpend|
            OrchardSpend { signed: spend.signed || is_spend_of(spend, ask), ..spend },
    )
}

/// Nothing keeps a spend from being tried with a key.
pub open spec fn can_be_tried(spend: OrchardSpend) -> bool {
    spend.defect is None
}

/// The first spend that cannot be tried stands at `k`.
pub open spec fn is_first_defect(spends: Seq<OrchardSpend>, k: int) -> bool {
    &&& 0 <= k < spends.len()
    &&& !can_be_tried(spends[k])
    &&& forall|i: int| 0 <= i < k ==> can_be_tried(#[trigger] spends[i])
}

/// Every spend can be tried with a key.
pub open spec fn all_can_be_tried(spends: Seq<OrchardSpend>) -> bool {
    forall|i: int| 0 <= i < spends.len() ==> can_be_tried(#[trigger] spends[i])
}

/// Signing ended at the spend at `k`, the first that cannot be tried: the error tells its defect, and
/// the key's own spends before it are signed.
pub open spec fn is_stopped_at(
    e: MigrationError,
    before: PcztContents,
    after: PcztContents,
    ask: Seq<u8>,
    k: int,
) -> bool {
    &&& is_defect_error(e, before.spends, k)
    &&& after == (PcztContents {
        spends: signed_with(before.spends.take(k), ask) + before.spends.skip(k),
        ..before
    })
}

/// The error of the first spend that cannot be tried, which stands at `k`.
pub open spec fn is_defect_error(e: MigrationError, spends: Seq<OrchardSpend>, k: int) -> bool {
    &&& is_first_defect(spends, k)
    &&& e matches MigrationError::Pipeline(m) && m@ == "sign orchard: "@ + spends[k].defect->Some_0
}

/// What trying one action says of the work: `None` where there is no action any more, and otherwise
/// whether the action was signed. An action of another key is passed over; only a failure ends the
/// work with an error.
pub fn step_of(outcome: SignOutcome) -> (r: Result<Option<bool>, MigrationError>)
    ensures
        match outcome {
            SignOutcome::NoSuchAction => r == Ok::<Option<bool>, MigrationError>(None),
            SignOutcome::Signed => r == Ok::<Option<bool>, MigrationError>(Some(true)),
            SignOutcome::WrongKey => r == Ok::<Option<bool>, MigrationError>(Some(false)),
            SignOutcome::Failed(text) => is_pipeline_error(r, "sign orchard: "@ + text@),
        },
{
    match outcome {
        SignOutcome::NoSuchAction => Ok(None),
        SignOutcome::Signed => Ok(Some(true)),
        SignOutcome::WrongKey => Ok(Some(false)),
        SignOutcome::Failed(text) => Err(pipeline_error("sign orchard: ", text.as_str())),
    }
}

/// Sign every Orchard spend that is the key's own. Action positions are randomized, so every index
/// is tried, wrong-key actions are passed over, and the first index without an action ends the work.
/// Says of each action whether it was signed here. A spend that cannot be tried ends the work; what
/// was signed before it stays signed.
pub fn sign_every_spend(signer: &mut Signer, ask: &SpendAuthorizingKey) -> (r: Result<
    Vec<bool>,
    MigrationError,
>)
    ensures
        signer_transparent_refusal(*final(signer)) == signer_transparent_refusal(*old(signer)),
        r is Ok <==> all_can_be_tried(signer_contents(*old(signer)).spends),
        r matches Ok(signed) ==> {
            let before = signer_contents(*old(signer));
            &&& signed@ == before.spends.map_values(
                |spend: OrchardSpend| is_spend_of(spend, authority_bytes(*ask)),
            )
            &&& signer_contents(*final(signer)) == (PcztContents {
                spends: signed_with(before.spends, authority_bytes(*ask)),
                ..before
            })
        },
        r matches Err(e) ==> exists|k: int| #[trigger]
            is_stopped_at(
                e,
                signer_contents(*old(signer)),
                signer_contents(*final(signer)),
                authority_bytes(*ask),
                k,
            ),
{
    let ghost before = signer_contents(*signer);
    let ghost key = authority_bytes(*ask);
    let mut signed: Vec<bool> = Vec::new();
    let mut index: usize = 0;
    loop
        invariant
            index == signed@.len(),
            before == signer_contents(*old(signer)),
            signer_transparent_refusal(*signer) == signer_transparent_refusal(*old(signer)),
            key == authority_bytes(*ask),
            signed@.len() <= before.spends.len(),
            signer_contents(*signer) == (PcztContents {
                spends: signer_contents(*signer).spends,
                ..before
            }),
            signer_contents(*signer).spends.len() == before.spends.len(),
            forall|i: int| 0 <= i < index ==> can_be_tried(#[trigger] before.spends[i]),
            forall|i: int|
                0 <= i < index ==> #[trigger] signed@[i] == is_spend_of(before.spends[i], key),
            forall|i: int|
                0 <= i < index ==> #[trigger] signer_contents(*signer).spends[i] == signed_with(
                    before.spends,
                    key,
                )[i],
            forall|i: int|
                index <= i < before.spends.len() ==> #[trigger] signer_contents(*signer).spends[i]
                    == before.spends[i],
        decreases usize::MAX - index,
    {
        let outcome = sign_action(signer, index, ask);
        match step_of(outcome) {
            Ok(None) => {
                assert(signer_contents(*signer).spends =~= signed_with(before.spends, key));
                return Ok(signed);
            },
            Ok(Some(signed_here)) => {
                signed.push(signed_here);
            },
            Err(e) => {
                assert(is_first_defect(before.spends, index as int));
                assert(signer_contents(*signer).spends =~= signed_with(
                    before.spends.take(index as int),
                    key,
                ) + before.spends.skip(index as int));
                assert(is_stopped_at(e, before, signer_contents(*signer), key, index as int));
                return Err(e);
            },
        }
        index = index + 1;
    }
}

/// `pczt::roles::signer::Signer::finish`: the PCZT that the signer holds.
#[verifier::external_body]
pub(crate) fn finish_signing(signer: Signer) -> (pczt: Pczt)
    ensures
        pczt_contents(pczt) == signer_contents(signer),
        pczt_refusals(pczt).transparent == signer_transparent_refusal(signer),
{
    signer.finish()
}

/// A PCZT once its transparent inputs are finalized, with the id that it has then: the inputs ask for
/// no lock time any more, and the shielded parts stay as they were.
pub open spec fn inputs_finalized(c: PcztContents, txid: Seq<u8>) -> PcztContents {
    PcztContents { asks_lock_time: false, txid, ..c }
}

/// `pczt::roles::spend_finalizer::SpendFinalizer::finalize_spends`, its error as `Debug` text: whether
/// the PCZT is refused depends on it alone. It fills in the scripts of transparent inputs, which do
/// not enter the id, and clears the lock times that they ask for, which do: without such a lock time
/// the id stays as it was.
#[verifier::external_body]
pub(crate) fn finalize_spends(pczt: Pczt) -> (finalized: Result<Pczt, String>)
    ensures
        error_text(finalized) == pczt_refusals(pczt).transparent,
        finalized is Ok ==> pczt_contents(finalized->Ok_0) == inputs_finalized(
            pczt_contents(pczt),
            pczt_contents(finalized->Ok_0).txid,
        ),
        finalized is Ok && !pczt_contents(pczt).asks_lock_time ==> pczt_contents(
            finalized->Ok_0,
        ).txid == pczt_contents(pczt).txid,
{
    match pczt::roles::spend_finalizer::SpendFinalizer::new(pczt).finalize_spends() {
        Ok(finalized) => Ok(finalized),
        Err(e) => Err(format!("{e:?}")),
    }
}

/// What `pczt::Pczt::parse` reads from some bytes: what the PCZT holds, or the `Debug` text of the
/// error.
pub uninterp spec fn parsed_contents(bytes: Seq<u8>) -> Result<PcztContents, Seq<char>>;

/// What came of reading a PCZT, over what it holds.
pub open spec fn contents_or_error(pczt: Result<Pczt, String>) -> Result<PcztContents, Seq<char>> {
    match pczt {
        Ok(p) => Ok(pczt_contents(p)),
        Err(text) => Err(text@),
    }
}

/// Some bytes are read as a PCZT that holds the given.
pub open spec fn reads_as(bytes: Seq<u8>, contents: PcztContents) -> bool {
    parsed_contents(bytes) == Ok::<PcztContents, Seq<char>>(contents)
}

/// `pczt::Pczt::serialize` on a copy, its error as `Debug` text: what the first encoding cannot hold
/// the second one can, so that it does not fail, and what `pczt::Pczt::parse` reads from the bytes is
/// the PCZT that was written.
#[verifier::external_body]
pub(crate) fn serialize_pczt(pczt: &Pczt) -> (bytes: Result<Vec<u8>, String>)
    ensures
        bytes is Ok,
        reads_as(bytes->Ok_0@, pczt_contents(*pczt)),
{
    match pczt.clone().serialize() {
        Ok(bytes) => Ok(bytes),
        Err(e) => Err(format!("{e:?}")),
    }
}

/// What a transaction holds, as far as it matters here: its id, in internal byte order, and what
/// writing it gives (the consensus encoding, or the text of the error).
pub struct TransactionContents {
    pub txid: Seq<u8>,
    pub encoding: Result<Seq<u8>, Seq<char>>,
}

/// What a transaction holds.
pub uninterp spec fn transaction_contents(tx: Transaction) -> TransactionContents;

/// Why no transaction was extracted, with the text of the report.
pub enum ExtractionError {
    /// Orchard or Ironwood actions have no proof.
    MissingProof(String),
    /// An Orchard spend has no signature.
    MissingSignature(String),
    /// Orchard or Ironwood actions have no key for their binding signature.
    MissingBindingKey(String),
    /// Anything else.
    Other(String),
}

/// The text of a report.
pub open spec fn extraction_text(e: ExtractionError) -> Seq<char> {
    match e {
        ExtractionError::MissingProof(text) => text@,
        ExtractionError::MissingSignature(text) => text@,
        ExtractionError::MissingBindingKey(text) => text@,
        ExtractionError::Other(text) => text@,
    }
}

/// What a report of something missing says of the PCZT: it is missing there.
pub open spec fn is_reported_of(e: ExtractionError, c: PcztContents) -> bool {
    match e {
        ExtractionError::MissingProof(_) => c.lacks_orchard_proof || c.lacks_ironwood_proof,
        ExtractionError::MissingSignature(_) => exists|i: int|
            0 <= i < c.spends.len() && !(#[trigger] c.spends[i]).signed,
        ExtractionError::MissingBindingKey(_) => c.lacks_binding_key,
        ExtractionError::Other(_) => true,
    }
}

/// What may come of extracting a transaction from a PCZT: the PCZT's transaction, only where nothing
/// is missing, or an error, which reports as missing only what is.
pub open spec fn is_extracted_from(
    tx: Result<Transaction, ExtractionError>,
    c: PcztContents,
) -> bool {
    match tx {
        Ok(t) => is_complete(c) && transaction_contents(t).txid == c.txid,
        Err(e) => is_reported_of(e, c),
    }
}

impl ExtractionError {
    /// The text of the report.
    pub fn into_text(self) -> (text: String)
        ensures
            text@ == extraction_text(self),
    {
        match self {
            ExtractionError::MissingProof(text) => text,
            ExtractionError::MissingSignature(text) => text,
            ExtractionError::MissingBindingKey(text) => text,
            ExtractionError::Other(text) => text,
        }
    }
}

/// `pczt::roles::tx_extractor::TransactionExtractor::extract` with the system's randomness, its
/// error told apart and as `Debug` text: a transaction comes only of a PCZT in which every Orchard
/// spend is signed and nothing lacks a proof or the key for a binding signature, and has the PCZT's
/// id; what an error says is missing is. Nothing is claimed of the transaction's encoding, which
/// holds random binding signatures, nor of when the proofs and signatures are found valid.
#[verifier::external_body]
pub(crate) fn extract_transaction(pczt: Pczt) -> (tx: Result<Transaction, ExtractionError>)
    ensures
        is_extracted_from(tx, pczt_contents(pczt)),
{
    let rng = rand::rand_core::UnwrapErr(rand::rngs::SysRng);
    TransactionExtractor::new(pczt).extract(rng).map_err(|e| {
        let text = format!("{e:?}");
        match e {
            Error::Orchard(OrchardError::Extract(TxExtractorError::MissingProof)) => ExtractionError::MissingProof(text),
            Error::Ironwood(OrchardError::Extract(TxExtractorError::MissingProof)) => ExtractionError::MissingProof(text),
            Error::Orchard(OrchardError::Extract(TxExtractorError::MissingSpendAuthSig)) => ExtractionError::MissingSignature(text),
            Error::Orchard(OrchardError::Extract(TxExtractorError::MissingBindingSignatureSigningKey)) => ExtractionError::MissingBindingKey(text),
            Error::Ironwood(OrchardError::Extract(TxExtractorError::MissingBindingSignatureSigningKey)) => ExtractionError::MissingBindingKey(text),
            _ => ExtractionError::Other(text),
        }
    })
}

/// `zcash_primitives::transaction::Transaction::txid`, as bytes in internal order.
#[verifier::external_body]
pub(crate) fn transaction_id(tx: &Transaction) -> (txid: [u8; 32])
    ensures
        txid@ == transaction_contents(*tx).txid,
{
    *tx.txid().as_ref()
}

/// The bytes that were written, or the text of the error.
pub open spec fn bytes_or_error(bytes: Result<Vec<u8>, String>) -> Result<Seq<u8>, Seq<char>> {
    match bytes {
        Ok(b) => Ok(b@),
        Err(text) => Err(text@),
    }
}

/// `zcash_primitives::transaction::Transaction::write` into a vector, its error as text.
#[verifier::external_body]
pub(crate) fn encode_transaction(tx: &Transaction) -> (bytes: Result<Vec<u8>, String>)
    ensures
        bytes_or_error(bytes) == transaction_contents(*tx).encoding,
{
    let mut bytes = Vec::new();
    match tx.write(&mut bytes) {
        Ok(()) => Ok(bytes),
        Err(e) => Err(format!("{e}")),
    }
}

/// `pczt::Pczt::parse`, its error as `Debug` text: what it reads depends on the bytes alone.
#[verifier::external_body]
pub(crate) fn parse_pczt(bytes: &[u8]) -> (pczt: Result<Pczt, String>)
    ensures
        contents_or_error(pczt) == parsed_contents(bytes@),
{
    match Pczt::parse(bytes) {
        Ok(pczt) => Ok(pczt),
        Err(e) => Err(format!("{e:?}")),
    }
}

/// Why `pczt::roles::io_finalizer::IoFinalizer::finalize_io` refuses a PCZT: the `Debug` text of its
/// error, or `None` where it does not.
pub uninterp spec fn io_refusal(pczt: Pczt) -> Option<Seq<char>>;

/// A PCZT once its inputs and outputs are finalized: the dummy spends are signed with their own keys,
/// which are taken away, and the keys for the binding signatures are there.
pub open spec fn io_finalized(c: PcztContents) -> PcztContents {
    PcztContents {
        spends: c.spends.map_values(
            |spend: OrchardSpend|
                OrchardSpend { signed: spend.signed || spend.dummy, dummy: false, ..spend },
        ),
        lacks_binding_key: false,
        ..c
    }
}

/// `pczt::roles::io_finalizer::IoFinalizer::finalize_io` with the system's randomness, its error as
/// `Debug` text: whether the PCZT is refused depends on it alone, and otherwise its dummy spends are
/// signed and the keys for its binding signatures set.
#[verifier::external_body]
pub(crate) fn finalize_io(pczt: Pczt) -> (finalized: Result<Pczt, String>)
    ensures
        error_text(finalized) == io_refusal(pczt),
        finalized is Ok ==> pczt_contents(finalized->Ok_0) == io_finalized(pczt_contents(pczt)),
{
    let rng = rand::rand_core::UnwrapErr(rand::rngs::SysRng);
    match pczt::roles::io_finalizer::IoFinalizer::new(pczt).finalize_io(rng) {
        Ok(finalized) => Ok(finalized),
        Err(e) => Err(format!("{e:?}")),
    }
}

/// Finalize the inputs and outputs of a split that was created, or say that none was.
pub fn finish_split_pczt(created: Option<Pczt>) -> (finalized: Result<Pczt, MigrationError>)
    ensures
        created is None ==> is_pipeline_error(finalized, "note split: pczt creation failed"@),
        created matches Some(pczt) ==> match io_refusal(pczt) {
            None => finalized matches Ok(f) && pczt_contents(f) == io_finalized(pczt_contents(pczt)),
            Some(text) => is_pipeline_error(finalized, "note split: io finalize: "@ + text),
        },
{
    match created {
        None => Err(MigrationError::Pipeline("note split: pczt creation failed".to_owned())),
        Some(pczt) => in_stage("note split: io finalize: ", finalize_io(pczt)),
    }
}

// ----- the pipeline -----

/// A signed migration transaction, carried as a serialized PCZT ready for the platform to extract
/// and broadcast; the transaction id is in internal byte order.
#[derive(Debug, PartialEq, Eq)]
pub struct SignedPczt {
    pub txid: [u8; 32],
    pub raw_pczt: Vec<u8>,
}

/// A PCZT once it is proved.
pub open spec fn proved(c: PcztContents) -> PcztContents {
    PcztContents { lacks_orchard_proof: false, lacks_ironwood_proof: false, ..c }
}

/// A PCZT once the key's own spends are signed.
pub open spec fn signed_contents(c: PcztContents, ask: Seq<u8>) -> PcztContents {
    PcztContents { spends: signed_with(c.spends, ask), ..c }
}

/// A PCZT once it is proved, signed with a key and finalized, with the id that it has then.
pub open spec fn finished(c: PcztContents, ask: Seq<u8>, txid: Seq<u8>) -> PcztContents {
    inputs_finalized(signed_contents(proved(c), ask), txid)
}

/// The id of the transaction that some bytes are read as.
pub open spec fn read_txid(bytes: Seq<u8>) -> Seq<u8> {
    parsed_contents(bytes)->Ok_0.txid
}

/// Bytes that `pczt::Pczt::parse` reads as the given PCZT, proved, signed with a key and finalized,
/// in which nothing is missing then. Unless a transparent input asked for a lock time it has the id
/// that it had.
pub open spec fn is_signed_pczt(bytes: Seq<u8>, before: PcztContents, ask: Seq<u8>) -> bool {
    &&& reads_as(bytes, finished(before, ask, read_txid(bytes)))
    &&& is_complete(finished(before, ask, read_txid(bytes)))
    &&& !before.asks_lock_time ==> read_txid(bytes) == before.txid
}

/// An error of proving a PCZT: only of a proof that is lacking.
pub open spec fn is_proving_error(e: MigrationError, c: PcztContents) -> bool {
    ||| c.lacks_orchard_proof && is_error_of_stage(e, "orchard proof: "@)
    ||| c.lacks_ironwood_proof && is_error_of_stage(e, "ironwood proof: "@)
}

/// A pipeline error with the given text.
pub open spec fn has_text(e: MigrationError, text: Seq<char>) -> bool {
    e matches MigrationError::Pipeline(m) && m@ == text
}

/// An error of signing a PCZT: what keeps it from being signed, or else the defect of the first spend
/// that cannot be tried.
pub open spec fn is_sign_error(
    e: MigrationError,
    c: PcztContents,
    refusals: PcztRefusals,
) -> bool {
    match refusals.signer {
        Some(text) => has_text(e, "pczt signer init: "@ + text),
        None => exists|k: int| #[trigger] is_defect_error(e, c.spends, k),
    }
}

/// A PCZT that can be signed.
pub open spec fn can_be_signed(c: PcztContents, refusals: PcztRefusals) -> bool {
    refusals.signer is None && all_can_be_tried(c.spends)
}

/// An error of one of the stages through which a PCZT goes: of a proof only where one is lacking; of
/// signing and of finalizing the transparent inputs exactly what stands in the way; and of
/// extraction only where nothing does, and none that reports as missing what was added.
pub open spec fn is_signing_error(
    e: MigrationError,
    before: PcztContents,
    refusals: PcztRefusals,
    ask: Seq<u8>,
) -> bool {
    ||| is_proving_error(e, before)
    ||| !can_be_signed(before, refusals) && is_sign_error(e, before, refusals)
    ||| can_be_signed(before, refusals) && match refusals.transparent {
        Some(text) => has_text(e, "finalize spends: "@ + text),
        None => exists|report: ExtractionError| #[trigger]
            is_reported_of(report, signed_contents(proved(before), ask)) && has_text(
                e,
                "extract tx: "@ + extraction_text(report),
            ),
    }
}

/// Prove an assembled PCZT. The Orchard bundle is on one circuit for transfers and for the note
/// split, so one proving key serves; the Ironwood proof only runs when the PCZT carries an Ironwood
/// bundle.
pub fn prove(pczt: Pczt, keys: &ProvingKeys) -> (r: Result<Pczt, MigrationError>)
    ensures
        match r {
            Ok(p) => {
                &&& pczt_contents(p) == proved(pczt_contents(pczt))
                &&& pczt_refusals(p) == pczt_refusals(pczt)
            },
            Err(e) => is_proving_error(e, pczt_contents(pczt)),
        },
{
    let mut prover: Prover = new_prover(pczt);
    if requires_orchard_proof(&prover) {
        let key = orchard_proving_key(&keys.orchard);
        prover =
        match in_stage("orchard proof: ", create_orchard_proof(prover, key)) {
            Ok(proved) => proved,
            Err(e) => {
                return Err(e);
            },
        };
    }
    if requires_ironwood_proof(&prover) {
        let key = ironwood_proving_key(&keys.ironwood);
        prover =
        match in_stage("ironwood proof: ", create_ironwood_proof(prover, key)) {
            Ok(proved) => proved,
            Err(e) => {
                return Err(e);
            },
        };
    }
    Ok(finish_proving(prover))
}

/// Sign every Orchard spend of a PCZT that is the wallet's own, the note split's fabricated zero-value
/// change spends among them.
pub fn sign(pczt: Pczt, usk: &UnifiedSpendingKey) -> (r: Result<Pczt, MigrationError>)
    ensures
        r is Ok <==> can_be_signed(pczt_contents(pczt), pczt_refusals(pczt)),
        match r {
            Ok(p) => {
                &&& pczt_contents(p) == signed_contents(pczt_contents(pczt), key_authority(*usk))
                &&& pczt_refusals(p).transparent == pczt_refusals(pczt).transparent
            },
            Err(e) => is_sign_error(e, pczt_contents(pczt), pczt_refusals(pczt)),
        },
{
    let mut signer: Signer = match in_stage("pczt signer init: ", new_signer(pczt)) {
        Ok(signer) => signer,
        Err(e) => {
            return Err(e);
        },
    };
    let ask: SpendAuthorizingKey = spend_authorizing_key(usk);
    match sign_every_spend(&mut signer, &ask) {
        Ok(_) => Ok(finish_signing(signer)),
        Err(e) => {
            assert(exists|k: int| #[trigger] is_defect_error(e, pczt_contents(pczt).spends, k));
            Err(e)
        },
    }
}

/// The signed transaction that the last two stages make: the serialized PCZT, with the id of the
/// transaction that was extracted from it.
pub fn finish_signed(raw_pczt: Result<Vec<u8>, String>, txid: Result<[u8; 32], String>) -> (signed:
    Result<SignedPczt, MigrationError>)
    ensures
        match (raw_pczt, txid) {
            (Err(text), _) => is_pipeline_error(signed, "serialize pczt: "@ + text@),
            (Ok(_), Err(text)) => is_pipeline_error(signed, "extract tx: "@ + text@),
            (Ok(bytes), Ok(id)) => signed matches Ok(s) && s.raw_pczt@ == bytes@ && s.txid == id,
        },
{
    let raw_pczt: Vec<u8> = match in_stage("serialize pczt: ", raw_pczt) {
        Ok(bytes) => bytes,
        Err(e) => {
            return Err(e);
        },
    };
    match in_stage("extract tx: ", txid) {
        Ok(txid) => Ok(SignedPczt { txid, raw_pczt }),
        Err(e) => Err(e),
    }
}

/// Prove, sign, finalize, and serialize an assembled PCZT.
///
/// Proofs and signatures are random, so the bytes are not pinned down; they are read back as the same
/// PCZT, proved, signed with the key and finalized. It is not claimed when proofs are made, nor when
/// they and the signatures are found valid.
pub fn prove_sign_finalize(
    pczt: Pczt,
    usk: &UnifiedSpendingKey,
    keys: &ProvingKeys,
) -> (signed: Result<SignedPczt, MigrationError>)
    ensures
        match signed {
            Ok(s) => {
                &&& can_be_signed(pczt_contents(pczt), pczt_refusals(pczt))
                &&& pczt_refusals(pczt).transparent is None
                &&& is_signed_pczt(s.raw_pczt@, pczt_contents(pczt), key_authority(*usk))
                &&& s.txid@ == read_txid(s.raw_pczt@)
            },
            Err(e) => is_signing_error(
                e,
                pczt_contents(pczt),
                pczt_refusals(pczt),
                key_authority(*usk),
            ),
        },
{
    let ghost before = pczt_contents(pczt);
    let ghost refusals = pczt_refusals(pczt);
    let ghost key = key_authority(*usk);
    let pczt: Pczt = match prove(pczt, keys) {
        Ok(pczt) => pczt,
        Err(e) => {
            return Err(e);
        },
    };
    assert(can_be_signed(pczt_contents(pczt), pczt_refusals(pczt)) == can_be_signed(
        before,
        refusals,
    ));
    let pczt: Pczt = match sign(pczt, usk) {
        Ok(pczt) => pczt,
        Err(e) => {
            return Err(e);
        },
    };
    let finalized: Pczt = match in_stage("finalize spends: ", finalize_spends(pczt)) {
        Ok(finalized) => finalized,
        Err(e) => {
            return Err(e);
        },
    };
    let ghost id = pczt_contents(finalized).txid;
    assert(pczt_contents(finalized) == finished(before, key, id));
    let raw_pczt: Result<Vec<u8>, String> = serialize_pczt(&finalized);
    let txid: Result<[u8; 32], String> = match extract_transaction(finalized) {
        Ok(tx) => Ok(transaction_id(&tx)),
        Err(report) => {
            assert(is_reported_of(report, signed_contents(proved(before), key)));
            Err(report.into_text())
        },
    };
    finish_signed(raw_pczt, txid)
}

/// The consensus encoding of a transaction with the given id.
pub open spec fn is_encoding_of(bytes: Seq<u8>, txid: Seq<u8>) -> bool {
    exists|tx: Transaction|
        (#[trigger] transaction_contents(tx)).txid == txid && transaction_contents(tx).encoding
            == Ok::<Seq<u8>, Seq<char>>(bytes)
}

/// What encoding an extracted transaction gives: the error of extracting it, its encoding, or the
/// error of encoding it.
pub open spec fn is_encoded(
    bytes: Result<Vec<u8>, MigrationError>,
    tx: Result<Transaction, ExtractionError>,
) -> bool {
    match tx {
        Err(report) => is_pipeline_error(bytes, "extract tx: "@ + extraction_text(report)),
        Ok(t) => match transaction_contents(t).encoding {
            Ok(encoding) => bytes matches Ok(b) && b@ == encoding,
            Err(text) => is_pipeline_error(bytes, "encode tx: "@ + text),
        },
    }
}

/// What extracting a transaction from a serialized PCZT gives: the error of reading it, or what
/// encoding the extracted transaction gives.
pub open spec fn is_extraction(bytes: Result<Vec<u8>, MigrationError>, raw_pczt: Seq<u8>) -> bool {
    match parsed_contents(raw_pczt) {
        Err(text) => is_pipeline_error(bytes, "parse pczt: "@ + text),
        Ok(contents) => exists|tx: Result<Transaction, ExtractionError>|
            is_extracted_from(tx, contents) && #[trigger] is_encoded(bytes, tx),
    }
}

/// The consensus encoding of a transaction that was extracted.
pub fn encode_extracted(tx: Result<Transaction, ExtractionError>) -> (bytes: Result<
    Vec<u8>,
    MigrationError,
>)
    ensures
        is_encoded(bytes, tx),
{
    match tx {
        Err(report) => Err(pipeline_error("extract tx: ", report.into_text().as_str())),
        Ok(t) => in_stage("encode tx: ", encode_transaction(&t)),
    }
}

/// What is extracted from a signed PCZT is the encoding of a transaction with the PCZT's id, which is
/// the one that it had before it was proved and signed unless a transparent input asked for a lock
/// time.
pub proof fn extracted_transaction_keeps_the_id(
    raw_pczt: Seq<u8>,
    before: PcztContents,
    ask: Seq<u8>,
    bytes: Vec<u8>,
)
    requires
        is_signed_pczt(raw_pczt, before, ask),
        is_extraction(Ok(bytes), raw_pczt),
    ensures
        is_encoding_of(bytes@, read_txid(raw_pczt)),
        !before.asks_lock_time ==> is_encoding_of(bytes@, before.txid),
{
    let contents = finished(before, ask, read_txid(raw_pczt));
    let tx = choose|tx: Result<Transaction, ExtractionError>|
        is_extracted_from(tx, contents) && #[trigger] is_encoded(Ok(bytes), tx);
    assert(transaction_contents(tx->Ok_0).txid == read_txid(raw_pczt));
}

/// Extract the broadcast-ready consensus transaction bytes from a serialized signed PCZT. The
/// platform calls this immediately before broadcasting.
///
/// The transaction's binding signature is random, so its bytes are not pinned down.
pub fn extract_broadcast_tx(raw_pczt: &[u8]) -> (bytes: Result<Vec<u8>, MigrationError>)
    ensures
        is_extraction(bytes, raw_pczt@),
{
    let pczt: Pczt = match in_stage("parse pczt: ", parse_pczt(raw_pczt)) {
        Ok(pczt) => pczt,
        Err(e) => {
            return Err(e);
        },
    };
    let ghost contents = pczt_contents(pczt);
    let tx: Result<Transaction, ExtractionError> = extract_transaction(pczt);
    let ghost extracted = tx;
    let bytes: Result<Vec<u8>, MigrationError> = encode_extracted(tx);
    assert(is_extracted_from(extracted, contents) && is_encoded(bytes, extracted));
    bytes
}

} // verus!
