//! What holds of a PCZT on its way through the pipeline, said of its spends and of what it lacks.

use crate::error::MigrationError;
use crate::pipeline::{
    authorizes, can_be_signed, can_be_tried, decoded_authority, extraction_text, finished, has_text,
    io_finalized, is_defect_error, is_encoded, is_error_of_stage, is_extracted_from, is_extraction,
    is_parsed_usk, is_reported_of, is_self_payment, is_sign_error, is_signed_pczt, is_signing_error,
    is_stage_result, is_stopped_at, key_authority, parsed_contents, payment_refusal, proved,
    requested_payments, signed_contents, transaction_contents, ExtractionError, OrchardSpend,
    PcztContents, PcztRefusals,
};
use vstd::prelude::*;
use zcash_address::ZcashAddress;
use zcash_keys::keys::UnifiedSpendingKey;
use zcash_primitives::transaction::Transaction;
use zip321::TransactionRequest;

verus! {

// ----- stages -----

/// A stage hands on the value that it was given, or a pipeline error of its name and the report.
pub proof fn stages_hand_on_what_they_were_given<T>(
    handed_on: Result<T, MigrationError>,
    stage: Seq<char>,
    reported: Result<T, String>,
)
    requires
        is_stage_result(handed_on, stage, reported),
    ensures
        reported is Ok ==> handed_on is Ok && handed_on->Ok_0 == reported->Ok_0,
        reported is Err ==> {
            handed_on matches Err(MigrationError::Pipeline(m)) && m@ == stage + reported->Err_0@
        },
{
}

/// A spending key is parsed exactly where its bytes are decoded, and is the decoded one; otherwise the
/// error tells why.
pub proof fn parsed_key_is_the_decoded_one(
    key: Result<UnifiedSpendingKey, MigrationError>,
    bytes: Seq<u8>,
)
    requires
        is_parsed_usk(key, bytes),
    ensures
        key is Ok <==> decoded_authority(bytes) is Ok,
        key is Ok ==> decoded_authority(bytes)->Ok_0 == key_authority(key->Ok_0),
        key is Err ==> {
            key matches Err(MigrationError::Pipeline(m)) && m@ == "invalid unified spending key: "@
                + decoded_authority(bytes)->Err_0
        },
{
}

/// A payment of an amount to an address is requested as that one payment; an amount beyond 21 million
/// ZEC is refused, and so is what the request does not admit.
pub proof fn self_payment_is_the_one_payment(
    request: Result<TransactionRequest, MigrationError>,
    address: ZcashAddress,
    amount: u64,
)
    requires
        is_self_payment(request, address, amount),
    ensures
        request is Ok <==> amount <= 2_100_000_000_000_000 && payment_refusal(address, amount)
            is None,
        request matches Ok(r) ==> {
            &&& requested_payments(r).len() == 1
            &&& requested_payments(r)[0].0 == address
            &&& requested_payments(r)[0].1 == Some(amount)
        },
        amount > 2_100_000_000_000_000 ==> {
            request matches Err(MigrationError::Pipeline(m)) && m@
                == "invalid migration amount: Overflow"@
        },
        amount <= 2_100_000_000_000_000 && request is Err ==> {
            request matches Err(MigrationError::Pipeline(m)) && m@
                == "construct self-payment request: "@ + payment_refusal(address, amount)->Some_0
        },
{
}

// ----- proving and signing -----

/// Two PCZTs that agree on everything but the proofs.
pub open spec fn differs_in_proofs_alone(a: PcztContents, b: PcztContents) -> bool {
    &&& a.spends == b.spends
    &&& a.lacks_binding_key == b.lacks_binding_key
    &&& a.asks_lock_time == b.asks_lock_time
    &&& a.txid == b.txid
}

/// A PCZT that was proved lacks no proof, and differs in nothing else.
pub proof fn proved_pczt_lacks_no_proof(c: PcztContents)
    ensures
        !proved(c).lacks_orchard_proof,
        !proved(c).lacks_ironwood_proof,
        differs_in_proofs_alone(proved(c), c),
{
}

/// Two spends that agree on everything but the signature.
pub open spec fn differs_in_signature_alone(a: OrchardSpend, b: OrchardSpend) -> bool {
    a.rk == b.rk && a.alpha == b.alpha && a.defect == b.defect && a.dummy == b.dummy
}

/// Signing a PCZT with a key signs exactly the spends that the key authorizes, and leaves the signatures
/// that are there; nothing else changes, and no spend comes or goes.
pub proof fn signing_signs_the_keys_own_spends(c: PcztContents, ask: Seq<u8>, i: int)
    requires
        0 <= i < c.spends.len(),
    ensures
        ({
            let after = signed_contents(c, ask);
            &&& after.spends.len() == c.spends.len()
            &&& after.spends[i].signed <==> c.spends[i].signed || authorizes(
                ask,
                c.spends[i].alpha,
                c.spends[i].rk,
            )
            &&& differs_in_signature_alone(after.spends[i], c.spends[i])
            &&& after.lacks_orchard_proof == c.lacks_orchard_proof
            &&& after.lacks_ironwood_proof == c.lacks_ironwood_proof
            &&& after.lacks_binding_key == c.lacks_binding_key
            &&& after.asks_lock_time == c.asks_lock_time
            &&& after.txid == c.txid
        }),
{
}

/// A PCZT can be signed exactly where the signer does not refuse it and no spend has a defect.
pub proof fn defects_keep_a_pczt_from_being_signed(c: PcztContents, refusals: PcztRefusals)
    ensures
        can_be_signed(c, refusals) <==> refusals.signer is None && forall|i: int|
            0 <= i < c.spends.len() ==> (#[trigger] c.spends[i]).defect is None,
{
    if can_be_signed(c, refusals) {
        assert forall|i: int| 0 <= i < c.spends.len() implies (#[trigger] c.spends[i]).defect
            is None by {
            assert(can_be_tried(c.spends[i]));
        }
    }
}

/// The error of signing tells why the signer refused the PCZT, or else the defect of the first spend
/// that has one.
pub proof fn sign_error_tells_the_first_defect(
    e: MigrationError,
    c: PcztContents,
    refusals: PcztRefusals,
)
    requires
        is_sign_error(e, c, refusals),
    ensures
        refusals.signer matches Some(text) ==> {
            e matches MigrationError::Pipeline(m) && m@ == "pczt signer init: "@ + text
        },
        refusals.signer is None ==> exists|k: int|
            #![trigger c.spends[k]]
            0 <= k < c.spends.len() && c.spends[k].defect is Some && (forall|i: int|
                0 <= i < k ==> (#[trigger] c.spends[i]).defect is None) && (
            e matches MigrationError::Pipeline(m) && m@ == "sign orchard: "@
                + c.spends[k].defect->Some_0),
{
    if refusals.signer is None {
        let k = choose|k: int| #[trigger] is_defect_error(e, c.spends, k);
        assert(is_defect_error(e, c.spends, k));
        assert forall|i: int| 0 <= i < k implies (#[trigger] c.spends[i]).defect is None by {
            assert(can_be_tried(c.spends[i]));
        }
        assert(c.spends[k].defect is Some);
    }
}

/// Where a defect ends the signing, the spends before it are signed as far as the key authorizes them,
/// and those from it on stay as they were.
pub proof fn stopped_signing_leaves_the_rest(
    e: MigrationError,
    before: PcztContents,
    after: PcztContents,
    ask: Seq<u8>,
    k: int,
    i: int,
)
    requires
        is_stopped_at(e, before, after, ask, k),
        0 <= i < before.spends.len(),
    ensures
        before.spends[k].defect is Some,
        after.spends.len() == before.spends.len(),
        i >= k ==> after.spends[i] == before.spends[i],
        i < k ==> {
            &&& before.spends[i].defect is None
            &&& after.spends[i].signed <==> before.spends[i].signed || authorizes(
                ask,
                before.spends[i].alpha,
                before.spends[i].rk,
            )
            &&& differs_in_signature_alone(after.spends[i], before.spends[i])
        },
        differs_in_proofs_alone(PcztContents { spends: before.spends, ..after }, before),
        after.lacks_orchard_proof == before.lacks_orchard_proof,
        after.lacks_ironwood_proof == before.lacks_ironwood_proof,
{
    if i < k {
        assert(can_be_tried(before.spends[i]));
        assert(before.spends.take(k)[i] == before.spends[i]);
    } else {
        assert(before.spends.skip(k)[i - k] == before.spends[i]);
    }
}

/// Finalizing the inputs and outputs signs the dummy spends, takes their keys away and sets the keys for
/// the binding signatures; nothing else changes.
pub proof fn finalizing_signs_the_dummies(c: PcztContents, i: int)
    requires
        0 <= i < c.spends.len(),
    ensures
        ({
            let after = io_finalized(c);
            &&& after.spends.len() == c.spends.len()
            &&& after.spends[i].signed <==> c.spends[i].signed || c.spends[i].dummy
            &&& !after.spends[i].dummy
            &&& after.spends[i].rk == c.spends[i].rk
            &&& after.spends[i].alpha == c.spends[i].alpha
            &&& after.spends[i].defect == c.spends[i].defect
            &&& !after.lacks_binding_key
            &&& after.lacks_orchard_proof == c.lacks_orchard_proof
            &&& after.lacks_ironwood_proof == c.lacks_ironwood_proof
            &&& after.asks_lock_time == c.asks_lock_time
            &&& after.txid == c.txid
        }),
{
}

// ----- the signed PCZT -----

/// The bytes of a signed PCZT are read as one in which nothing is lacking and every spend is signed,
/// each of them before or by the key; it has the spends that it had, and the id that it had unless a
/// transparent input asked for a lock time.
pub proof fn signed_pczt_is_complete(bytes: Seq<u8>, before: PcztContents, ask: Seq<u8>, i: int)
    requires
        is_signed_pczt(bytes, before, ask),
        0 <= i < before.spends.len(),
    ensures
        parsed_contents(bytes) matches Ok(c) && {
            &&& !c.lacks_orchard_proof
            &&& !c.lacks_ironwood_proof
            &&& !c.lacks_binding_key
            &&& !before.lacks_binding_key
            &&& !c.asks_lock_time
            &&& c.spends.len() == before.spends.len()
            &&& c.spends[i].signed
            &&& before.spends[i].signed || authorizes(ask, before.spends[i].alpha, before.spends[i].rk)
            &&& differs_in_signature_alone(c.spends[i], before.spends[i])
            &&& !before.asks_lock_time ==> c.txid == before.txid
        },
{
    let c = finished(before, ask, parsed_contents(bytes)->Ok_0.txid);
    assert(parsed_contents(bytes) == Ok::<PcztContents, Seq<char>>(c));
    signing_signs_the_keys_own_spends(proved(before), ask, i);
    assert(c.spends[i].signed);
}

/// A text begins with the name of a stage.
pub open spec fn is_of_stage(text: Seq<char>, stage: Seq<char>) -> bool {
    exists|report: Seq<char>| text == #[trigger] (stage + report)
}

/// An error of signing is a pipeline error that names its stage: a proof only where one is lacking, the
/// signer or a spend only where the PCZT cannot be signed, and the later stages only where it can.
pub proof fn signing_errors_name_their_stage(
    e: MigrationError,
    before: PcztContents,
    refusals: PcztRefusals,
    ask: Seq<u8>,
)
    requires
        is_signing_error(e, before, refusals, ask),
    ensures
        e matches MigrationError::Pipeline(m) && {
            ||| before.lacks_orchard_proof && is_of_stage(m@, "orchard proof: "@)
            ||| before.lacks_ironwood_proof && is_of_stage(m@, "ironwood proof: "@)
            ||| refusals.signer is Some && m@ == "pczt signer init: "@ + refusals.signer->Some_0
            ||| refusals.signer is None && !can_be_signed(before, refusals) && is_of_stage(
                m@,
                "sign orchard: "@,
            )
            ||| can_be_signed(before, refusals) && refusals.transparent is Some && m@
                == "finalize spends: "@ + refusals.transparent->Some_0
            ||| can_be_signed(before, refusals) && refusals.transparent is None && is_of_stage(
                m@,
                "extract tx: "@,
            )
        },
{
    if !can_be_signed(before, refusals) && is_sign_error(e, before, refusals) {
        if refusals.signer is None {
            let k = choose|k: int| #[trigger] is_defect_error(e, before.spends, k);
            let report = before.spends[k].defect->Some_0;
            assert(e->Pipeline_0@ == "sign orchard: "@ + report);
        }
    }
    if can_be_signed(before, refusals) && refusals.transparent is None {
        if exists|report: ExtractionError| #[trigger]
            is_reported_of(report, signed_contents(proved(before), ask))
                && has_text(e, "extract tx: "@ + extraction_text(report)) {
            let report = choose|report: ExtractionError| #[trigger]
                is_reported_of(report, signed_contents(proved(before), ask))
                    && has_text(e, "extract tx: "@ + extraction_text(report));
            assert(e->Pipeline_0@ == "extract tx: "@ + extraction_text(report));
        }
    }
    if is_error_of_stage(e, "orchard proof: "@) {
        let m = e->Pipeline_0;
        let text = choose|text: Seq<char>| m@ == "orchard proof: "@ + text;
        assert(m@ == "orchard proof: "@ + text);
    }
    if is_error_of_stage(e, "ironwood proof: "@) {
        let m = e->Pipeline_0;
        let text = choose|text: Seq<char>| m@ == "ironwood proof: "@ + text;
        assert(m@ == "ironwood proof: "@ + text);
    }
}

// ----- extraction -----

/// What is extracted from some bytes is the encoding of a transaction with the id of the PCZT that they
/// are read as, and only where nothing is lacking in it and every spend is signed.
pub proof fn extracted_bytes_encode_the_pczts_transaction(bytes: Vec<u8>, raw_pczt: Seq<u8>)
    requires
        is_extraction(Ok(bytes), raw_pczt),
    ensures
        parsed_contents(raw_pczt) matches Ok(c) && {
            &&& !c.lacks_orchard_proof
            &&& !c.lacks_ironwood_proof
            &&& !c.lacks_binding_key
            &&& forall|i: int| 0 <= i < c.spends.len() ==> (#[trigger] c.spends[i]).signed
            &&& exists|tx: Transaction|
                (#[trigger] transaction_contents(tx)).txid == c.txid
                    && transaction_contents(tx).encoding == Ok::<Seq<u8>, Seq<char>>(bytes@)
        },
{
    let c = parsed_contents(raw_pczt)->Ok_0;
    let tx = choose|tx: Result<Transaction, ExtractionError>|
        is_extracted_from(tx, c) && #[trigger] is_encoded(Ok(bytes), tx);
    assert(transaction_contents(tx->Ok_0).txid == c.txid);
}

/// Bytes that are no PCZT are refused with the reason; every other error is of extracting or of encoding
/// the transaction.
pub proof fn extraction_errors_name_their_stage(e: MigrationError, raw_pczt: Seq<u8>)
    requires
        is_extraction(Err(e), raw_pczt),
    ensures
        e matches MigrationError::Pipeline(m) && {
            &&& parsed_contents(raw_pczt) matches Err(text) ==> m@ == "parse pczt: "@ + text
            &&& parsed_contents(raw_pczt) is Ok ==> is_of_stage(m@, "extract tx: "@) || is_of_stage(
                m@,
                "encode tx: "@,
            )
        },
{
    if let Ok(c) = parsed_contents(raw_pczt) {
        let tx = choose|tx: Result<Transaction, ExtractionError>|
            is_extracted_from(tx, c) && #[trigger] is_encoded(Err(e), tx);
        match tx {
            Err(report) => {
                assert(e->Pipeline_0@ == "extract tx: "@ + extraction_text(report));
            },
            Ok(t) => {
                let text = transaction_contents(t).encoding->Err_0;
                assert(e->Pipeline_0@ == "encode tx: "@ + text);
            },
        }
    }
}

} // verus!
