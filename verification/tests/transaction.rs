use pczt::roles::creator::Creator;
use pczt::roles::signer::Signer;
use pczt::Pczt;
use rand::rand_core::UnwrapErr;
use rand::rngs::SysRng;
use secrecy::ExposeSecret;
use zcash_keys::keys::{Era, UnifiedSpendingKey};
use zcash_primitives::transaction::builder::{BuildConfig, Builder, BundlePadding};
use zcash_primitives::transaction::fees::zip317::FeeRule;
use zcash_primitives::transaction::Transaction;
use zcash_protocol::consensus::{BlockHeight, BranchId, Network};
use zcash_protocol::value::Zatoshis;
use zcash_transparent::address::TransparentAddress;
use zcash_transparent::bundle::{OutPoint, TxOut};
use zcash_transparent::keys::NonHardenedChildIndex;
use zodl_ironwood_migration::context::NetworkType;
use zodl_ironwood_migration::error::MigrationError;
use zodl_ironwood_migration::hex::txid_display;
use zodl_ironwood_migration::pipeline::{
    encode_extracted, extract_broadcast_tx, finish_split_pczt, prove, prove_sign_finalize,
    ExtractionError, ProvingKeys,
};
use zodl_ironwood_migration::store::init;
use zodl_ironwood_migration::types::{
    MigrationSchedule, NoteSplitProposal, TransferProposal,
};
use zodl_ironwood_migration::MigrationContext;

fn wallet() -> UnifiedSpendingKey {
    UnifiedSpendingKey::from_seed(
        &Network::MainNetwork,
        &[3u8; 32],
        0u32.try_into().unwrap(),
    )
    .unwrap()
}

fn usk_bytes() -> Vec<u8> {
    wallet().to_bytes(Era::Orchard).expose_secret().clone()
}

/// A transaction without shielded parts, signed where `signed` says so.
fn transparent_only(coin: u8, signed: bool) -> Pczt {
    let sk = wallet()
        .transparent()
        .derive_external_secret_key(NonHardenedChildIndex::ZERO)
        .unwrap();
    let pubkey = sk.public_key();
    let address = TransparentAddress::from_pubkey(&pubkey);
    let mut builder = Builder::new(
        Network::MainNetwork,
        BlockHeight::from_u32(2_800_000),
        BuildConfig::Standard {
            sapling_anchor: None,
            orchard_anchor: None,
            ironwood_anchor: None,
            orchard_padding: BundlePadding::DEFAULT,
            ironwood_padding: BundlePadding::DEFAULT,
        },
    );
    builder
        .add_transparent_p2pkh_input(
            pubkey,
            OutPoint::new([coin; 32], 0),
            TxOut::new(Zatoshis::const_from_u64(110_000), address.script().into()),
        )
        .unwrap();
    builder
        .add_transparent_output(&address, Zatoshis::const_from_u64(100_000))
        .unwrap();
    let built = builder
        .build_for_pczt(UnwrapErr(SysRng), &FeeRule::standard())
        .unwrap();
    let pczt = finish_split_pczt(Creator::build_from_parts(built.pczt_parts)).unwrap();
    if !signed {
        return pczt;
    }
    let mut signer = Signer::new(pczt).unwrap();
    signer.sign_transparent(0, &sk).unwrap();
    signer.finish()
}

fn spends(txid: &str) -> Vec<(String, u32)> {
    vec![(txid.to_string(), 1)]
}

fn read(bytes: &[u8]) -> Transaction {
    Transaction::read(bytes, BranchId::Nu6).unwrap()
}

#[test]
fn a_signed_transaction_is_extracted_with_its_id() {
    let signed =
        prove_sign_finalize(transparent_only(1, true), &wallet(), &ProvingKeys::new()).unwrap();
    let bytes = extract_broadcast_tx(&signed.raw_pczt).unwrap();
    let tx = read(&bytes);
    assert_eq!(tx.txid().as_ref(), &signed.txid);
    let bundle = tx.transparent_bundle().unwrap();
    assert_eq!(bundle.vin.len(), 1);
    assert_eq!(u64::from(bundle.vout[0].value()), 100_000);
    let context = MigrationContext::new("x", NetworkType::Main, [0; 16], Ok(())).unwrap();
    assert_eq!(context.extract_broadcast_tx(&signed.raw_pczt).unwrap(), bytes);

    let other =
        prove_sign_finalize(transparent_only(2, true), &wallet(), &ProvingKeys::new()).unwrap();
    assert_ne!(other.txid, signed.txid);
}

#[test]
fn an_extracted_transaction_is_encoded() {
    let signed =
        prove_sign_finalize(transparent_only(1, true), &wallet(), &ProvingKeys::new()).unwrap();
    let bytes = extract_broadcast_tx(&signed.raw_pczt).unwrap();
    assert_eq!(encode_extracted(Ok(read(&bytes))).unwrap(), bytes);
    match encode_extracted(Err(ExtractionError::Other("why".to_string()))) {
        Err(MigrationError::Pipeline(m)) => assert_eq!(m, "extract tx: why"),
        other => panic!("{other:?}"),
    }
}

#[test]
fn nothing_is_proved_where_no_proof_is_lacking() {
    let pczt = transparent_only(1, true);
    let bytes = pczt.clone().serialize().unwrap();
    let proved = prove(pczt, &ProvingKeys::new()).unwrap();
    assert_eq!(proved.serialize().unwrap(), bytes);
}

#[test]
fn an_unsigned_input_is_reported_at_its_stage() {
    match prove_sign_finalize(transparent_only(1, false), &wallet(), &ProvingKeys::new()) {
        Err(MigrationError::Pipeline(m)) => assert!(m.starts_with("finalize spends: "), "{m}"),
        other => panic!("{other:?}"),
    }
}

#[test]
fn a_built_split_is_signed_and_stored() {
    let context = MigrationContext::new("db", NetworkType::Main, [7; 16], Ok(())).unwrap();
    let mut store = init();
    let proposal = NoteSplitProposal { output_notes: vec![60_000, 40_000], fee: 10_000 };
    let signing = context.sign_note_split(&mut store, &proposal, &usk_bytes(), 5).unwrap();
    assert_eq!(
        signing.usk.to_bytes(Era::Orchard).expose_secret(),
        &usk_bytes()
    );
    let failed: Result<(Pczt, Vec<(u32, u64)>), MigrationError> = Err(MigrationError::NotSynced);
    assert!(matches!(
        context.finish_note_split(&mut store, &signing, failed, &ProvingKeys::new()),
        Err(MigrationError::NotSynced)
    ));
    assert!(store.prep().is_empty());

    let built = Ok((transparent_only(1, true), vec![(3u32, 60_000u64), (0, 40_000)]));
    let tx = context
        .finish_note_split(&mut store, &signing, built, &ProvingKeys::new())
        .unwrap();
    assert_eq!(tx.id, format!("prep:{}", signing.run_id));
    let extracted = read(&extract_broadcast_tx(&tx.raw_pczt).unwrap());
    assert_eq!(extracted.txid().to_string(), tx.txid);
    assert_eq!(store.prep().len(), 1);
    assert_eq!(store.prep()[0].raw_pczt, tx.raw_pczt);
    assert_eq!(store.prep()[0].txid_hex, tx.txid);
    assert_eq!(store.prep()[0].status, "pending");
    let placed: Vec<(String, u32, u64)> = store
        .notes()
        .iter()
        .map(|n| (n.note.txid_hex.clone(), n.note.output_index, n.note.value_zatoshi))
        .collect();
    assert_eq!(
        placed,
        vec![(tx.txid.clone(), 3, 60_000), (tx.txid.clone(), 0, 40_000)]
    );
    assert_eq!(
        context.next_due_transfer(&store, Ok((100, 90))).unwrap(),
        Some(tx)
    );
}

#[test]
fn built_transfers_are_signed_in_turn() {
    let context = MigrationContext::new("db", NetworkType::Main, [7; 16], Ok(())).unwrap();
    let mut store = init();
    let transfer = |id: &str, after: u32| TransferProposal {
        id: id.to_string(),
        amount: 100_000,
        anchor_height: 90,
        next_executable_after_height: after,
        expiry_height: after + 50,
    };
    let schedule = MigrationSchedule {
        transfers: vec![transfer("a", 100), transfer("b", 120)],
        estimated_duration_hours: 1,
    };
    let mut signing = context
        .sign_and_store_migration_schedule(&mut store, &schedule, &usk_bytes(), Ok((110, 95)), 5)
        .unwrap();
    assert_eq!(signing.target_height, 110);
    let keys = ProvingKeys::new();

    // A transfer that cannot be signed leaves the ones before it.
    assert_eq!(signing.next_transfer().unwrap().id, "a");
    signing.sign_next(&mut store, Ok((transparent_only(1, true), spends("AA"))), &keys).unwrap();
    assert_eq!(signing.next_transfer().unwrap().id, "b");
    assert!(!signing.admits("aa", 1));
    assert!(signing.admits("aa", 2));
    assert!(signing.admits("bb", 1));
    assert!(signing.sign_next(&mut store, Ok((transparent_only(2, false), spends("bb"))), &keys).is_err());
    assert!(signing.sign_next(&mut store, Err(MigrationError::NotSynced), &keys).is_err());
    assert_eq!(store.pending().len(), 1);
    assert_eq!(signing.next_transfer().unwrap().id, "b");
    signing.sign_next(&mut store, Ok((transparent_only(2, true), spends("bb"))), &keys).unwrap();
    assert!(signing.next_transfer().is_none());
    assert!(!signing.admits("aa", 1) && !signing.admits("BB", 1));
    signing.finish(&mut store, 9);

    assert_eq!(store.pending().len(), 2);
    for row in store.pending() {
        let tx = read(&extract_broadcast_tx(&row.tx.raw_pczt).unwrap());
        assert_eq!(tx.txid().to_string(), row.tx.txid_hex);
        assert_eq!(txid_display(tx.txid().as_ref()), row.tx.txid_hex);
        assert_eq!(row.tx.status, "scheduled");
    }
    assert_eq!(store.runs()[0].phase, "broadcast_scheduled");
    let due = context.next_due_transfer(&store, Ok((110, 95))).unwrap().unwrap();
    assert_eq!(due.raw_pczt, store.pending()[0].tx.raw_pczt);
}
