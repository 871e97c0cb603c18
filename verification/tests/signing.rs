use orchard::keys::{FullViewingKey, Scope, SpendAuthorizingKey, SpendingKey};
use orchard::note::{Note, NoteVersion, RandomSeed, Rho};
use orchard::tree::{MerkleHashOrchard, MerklePath};
use orchard::value::NoteValue;
use pczt::roles::creator::Creator;
use pczt::roles::redactor::Redactor;
use pczt::roles::signer::Signer;
use pczt::Pczt;
use rand::rand_core::UnwrapErr;
use rand::rngs::SysRng;
use zcash_keys::keys::UnifiedSpendingKey;
use zcash_primitives::transaction::builder::{BuildConfig, Builder, BundlePadding};
use zcash_primitives::transaction::fees::zip317::FeeRule;
use zcash_protocol::consensus::{BlockHeight, BranchId, Network};
use zcash_protocol::memo::MemoBytes;
use zcash_protocol::value::Zatoshis;
use zodl_ironwood_migration::error::MigrationError;
use zodl_ironwood_migration::pipeline::{
    extract_broadcast_tx, finish_split_pczt, sign, sign_every_spend,
};

fn wallet(seed: u8) -> UnifiedSpendingKey {
    UnifiedSpendingKey::from_seed(&Network::MainNetwork, &[seed; 32], 0u32.try_into().unwrap())
        .unwrap()
}

fn key(seed: u8) -> SpendingKey {
    SpendingKey::from_bytes([seed; 32]).unwrap()
}

/// A transaction that spends one note of the key and pays one output, with neither proof nor
/// signature.
fn created(sk: &SpendingKey) -> Pczt {
    let fvk = FullViewingKey::from(sk);
    let address = fvk.address_at(0u32, Scope::External);
    let rho = Rho::from_bytes(&[1u8; 32]).unwrap();
    let rseed = RandomSeed::from_bytes([2u8; 32], &rho).unwrap();
    let note = Note::from_parts(
        address,
        NoteValue::from_raw(110_000),
        rho,
        rseed,
        NoteVersion::V2,
    )
    .unwrap();
    let path = MerklePath::from_parts(0, [MerkleHashOrchard::from_bytes(&[0u8; 32]).unwrap(); 32]);
    let anchor = path.root(note.commitment().into());
    let mut builder = Builder::new(
        Network::MainNetwork,
        BlockHeight::from_u32(2_800_000),
        BuildConfig::Standard {
            sapling_anchor: None,
            orchard_anchor: Some(anchor),
            ironwood_anchor: None,
            orchard_padding: BundlePadding::DEFAULT,
            ironwood_padding: BundlePadding::DEFAULT,
        },
    );
    builder
        .add_orchard_spend::<std::convert::Infallible>(fvk, note, path)
        .unwrap();
    builder
        .add_orchard_output::<std::convert::Infallible>(
            None,
            address,
            Zatoshis::const_from_u64(100_000),
            MemoBytes::empty(),
        )
        .unwrap();
    let built = builder
        .build_for_pczt(UnwrapErr(SysRng), &FeeRule::standard())
        .unwrap();
    Creator::build_from_parts(built.pczt_parts).unwrap()
}

/// The same with inputs and outputs finalized.
fn assembled(sk: &SpendingKey) -> Pczt {
    finish_split_pczt(Some(created(sk))).unwrap()
}

fn message<T>(r: Result<T, MigrationError>) -> String {
    match r {
        Err(MigrationError::Pipeline(m)) => m,
        Err(other) => panic!("no pipeline error: {other:?}"),
        Ok(_) => panic!("no error"),
    }
}

fn signatures(pczt: &Pczt) -> usize {
    pczt.orchard()
        .actions()
        .iter()
        .filter(|a| a.spend().spend_auth_sig().is_some())
        .count()
}

#[test]
fn every_spend_of_the_key_is_signed() {
    let sk = key(7);
    let pczt = assembled(&sk);
    let actions = pczt.orchard().actions().len();
    let before = signatures(&pczt);
    assert_eq!(before + 1, actions);
    let mut signer = Signer::new(pczt).unwrap();
    let signed = sign_every_spend(&mut signer, &SpendAuthorizingKey::from(&sk)).unwrap();
    assert_eq!(signed.len(), actions);
    assert_eq!(signed.iter().filter(|s| **s).count(), 1);
    let pczt = signer.finish();
    assert_eq!(signatures(&pczt), actions);

    // Without a proof there is no transaction to broadcast yet.
    match extract_broadcast_tx(&pczt.serialize().unwrap()) {
        Err(MigrationError::Pipeline(m)) => assert!(m.starts_with("extract tx: ")),
        other => panic!("{other:?}"),
    }
}

#[test]
fn finalizing_signs_the_dummy_spends() {
    let created = created(&key(7));
    let actions = created.orchard().actions().len();
    assert_eq!(signatures(&created), 0);
    let finalized = finish_split_pczt(Some(created)).unwrap();
    assert_eq!(signatures(&finalized) + 1, actions);

    let empty = Creator::new(BranchId::Nu6.into(), 10, 133, None, None).unwrap().build().unwrap();
    assert_eq!(
        message(finish_split_pczt(Some(empty))),
        "note split: io finalize: NoSpends"
    );
}

#[test]
fn a_wallet_signs_its_own_spends() {
    let usk = wallet(3);
    let signed = sign(assembled(usk.orchard()), &usk).unwrap();
    assert_eq!(signatures(&signed), signed.orchard().actions().len());
    // What is missing then is the proof.
    assert_eq!(
        message(extract_broadcast_tx(&signed.serialize().unwrap())),
        "extract tx: Orchard(Extract(MissingProof))"
    );

    let other = sign(assembled(usk.orchard()), &wallet(4)).unwrap();
    assert_eq!(signatures(&other) + 1, other.orchard().actions().len());
    assert_eq!(
        message(extract_broadcast_tx(&other.serialize().unwrap())),
        "extract tx: Orchard(Extract(MissingSpendAuthSig))"
    );
}

#[test]
fn a_pczt_that_cannot_be_signed_is_refused() {
    let pczt = created(&key(7));
    let without_anchor = Redactor::new(pczt)
        .redact_orchard_with(|mut orchard| orchard.clear_anchor())
        .finish();
    let expected = Signer::new(without_anchor.clone()).map(|_| ()).unwrap_err();
    assert_eq!(
        message(sign(without_anchor, &wallet(3))),
        format!("pczt signer init: {expected:?}")
    );
}

#[test]
fn a_spend_without_a_randomizer_ends_the_signing() {
    let sk = key(7);
    let pczt = Redactor::new(assembled(&sk))
        .redact_orchard_with(|mut orchard| {
            orchard.redact_actions(|mut actions| actions.clear_spend_alpha());
        })
        .finish();
    let before = signatures(&pczt);
    let mut signer = Signer::new(pczt).unwrap();
    match sign_every_spend(&mut signer, &SpendAuthorizingKey::from(&sk)) {
        Err(MigrationError::Pipeline(m)) => {
            assert_eq!(m, "sign orchard: OrchardSign(MissingSpendAuthRandomizer)")
        }
        other => panic!("{other:?}"),
    }
    assert_eq!(signatures(&signer.finish()), before);
}

#[test]
fn spends_of_another_key_are_passed_over() {
    let pczt = assembled(&key(7));
    let before = signatures(&pczt);
    let mut signer = Signer::new(pczt).unwrap();
    let signed = sign_every_spend(&mut signer, &SpendAuthorizingKey::from(&key(8))).unwrap();
    assert!(signed.len() > 1);
    assert!(signed.iter().all(|s| !s));
    assert_eq!(signatures(&signer.finish()), before);
}
