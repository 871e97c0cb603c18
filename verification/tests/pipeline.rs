use secrecy::ExposeSecret;
use zcash_address::ZcashAddress;
use zcash_keys::keys::{Era, UnifiedSpendingKey};
use zodl_ironwood_migration::context::NetworkType;
use zodl_ironwood_migration::error::{InvalidStateError, MigrationError};
use zodl_ironwood_migration::pipeline::{
    build_self_payment, extract_broadcast_tx, finish_signed, finish_split_pczt, in_stage, parse_usk,
    self_payment_request, step_of, SignOutcome,
};
use zodl_ironwood_migration::MigrationContext;

fn address() -> ZcashAddress {
    "ztestsapling1ctuamfer5xjnnrdr3xdazenljx0mu0gutcf9u9e74tr2d3jwjnt0qllzxaplu54hgc2tyjdc2p6"
        .parse()
        .expect("address parses")
}

#[test]
fn build_self_payment_creates_single_payment_for_amount() {
    let address: ZcashAddress =
        "ztestsapling1ctuamfer5xjnnrdr3xdazenljx0mu0gutcf9u9e74tr2d3jwjnt0qllzxaplu54hgc2tyjdc2p6"
            .parse()
            .expect("address parses");
    let req = build_self_payment(&address, 100_000_000).expect("request builds");
    assert_eq!(req.payments().len(), 1);
    let payment = req.payments().values().next().expect("one payment");
    assert_eq!(payment.amount().map(u64::from), Some(100_000_000));
}

fn message<T>(r: Result<T, MigrationError>) -> String {
    match r {
        Err(MigrationError::Pipeline(m)) => m,
        Err(other) => panic!("no pipeline error: {other:?}"),
        Ok(_) => panic!("no error"),
    }
}

#[test]
fn a_payment_goes_to_the_address_it_is_for() {
    let req = build_self_payment(&address(), 5).unwrap();
    let payment = req.payments().values().next().unwrap();
    assert_eq!(payment.recipient_address(), &address());
    assert!(payment.memo().is_none());
}

#[test]
fn an_amount_beyond_all_money_is_refused() {
    assert!(build_self_payment(&address(), 2_100_000_000_000_000).is_ok());
    assert_eq!(
        message(build_self_payment(&address(), 2_100_000_000_000_001)),
        "invalid migration amount: Overflow"
    );
}

#[test]
fn a_payment_that_the_request_does_not_admit_is_refused() {
    let address: ZcashAddress = "t1Hsc1LR8yKnbbe3twRp88p6vFfC5t7DLbs".parse().unwrap();
    assert!(build_self_payment(&address, 1).is_ok());
    let payment = zip321::Payment::without_memo(
        address.clone(),
        zcash_protocol::value::Zatoshis::ZERO,
    );
    let expected = zip321::TransactionRequest::new(vec![payment]).unwrap_err();
    let reported = format!("construct self-payment request: {expected:?}");
    assert_eq!(message(build_self_payment(&address, 0)), reported);
    assert_eq!(message(self_payment_request(Ok(Some(address)), 0)), reported);
}

#[test]
fn wrong_key_actions_are_passed_over() {
    assert_eq!(step_of(SignOutcome::NoSuchAction).unwrap(), None);
    assert_eq!(step_of(SignOutcome::Signed).unwrap(), Some(true));
    assert_eq!(step_of(SignOutcome::WrongKey).unwrap(), Some(false));
    assert_eq!(
        message(step_of(SignOutcome::Failed("why".to_string()))),
        "sign orchard: why"
    );
}

#[test]
fn a_self_payment_needs_an_address() {
    assert!(matches!(
        self_payment_request(Ok(None), 5),
        Err(MigrationError::InvalidState(InvalidStateError::NotApplicable(
            "account has no current unified address"
        )))
    ));
    assert!(matches!(
        self_payment_request(
            Err(zcash_client_sqlite::error::SqliteClientError::AccountUnknown),
            5
        ),
        Err(MigrationError::Backend(_))
    ));
    assert_eq!(
        self_payment_request(Ok(Some(address())), 5).unwrap().payments().len(),
        1
    );
}

#[test]
fn spending_keys_are_parsed() {
    let key = UnifiedSpendingKey::from_seed(
        &zcash_protocol::consensus::Network::MainNetwork,
        &[3u8; 32],
        0u32.try_into().unwrap(),
    )
    .unwrap();
    let bytes = key.to_bytes(Era::Orchard).expose_secret().clone();
    let parsed = parse_usk(&bytes).unwrap();
    assert_eq!(parsed.to_bytes(Era::Orchard).expose_secret(), &bytes);

    for bad in [vec![], vec![0u8; 4], bytes[1..].to_vec()] {
        let expected = UnifiedSpendingKey::from_bytes(Era::Orchard, &bad).map(|_| ()).unwrap_err();
        assert_eq!(
            message(parse_usk(&bad)),
            format!("invalid unified spending key: {expected:?}")
        );
    }
}

#[test]
fn bytes_that_are_no_pczt_are_refused() {
    let expected = pczt::Pczt::parse(&[1, 2, 3]).map(|_| ()).unwrap_err();
    assert_eq!(
        message(extract_broadcast_tx(&[1, 2, 3])),
        format!("parse pczt: {expected:?}")
    );
    let ctx = MigrationContext::new("x", NetworkType::Main, [0; 16], Ok(())).unwrap();
    assert!(message(ctx.extract_broadcast_tx(b"PCZT")).starts_with("parse pczt: "));
}

#[test]
fn stages_put_their_name_before_a_report() {
    assert_eq!(in_stage("s: ", Ok(4)).unwrap(), 4);
    assert_eq!(message(in_stage::<u8>("s: ", Err("t".to_string()))), "s: t");
}

#[test]
fn a_signed_transaction_needs_its_bytes_and_its_id() {
    let done = finish_signed(Ok(vec![1, 2]), Ok([7; 32])).unwrap();
    assert_eq!(done.raw_pczt, vec![1, 2]);
    assert_eq!(done.txid, [7; 32]);
    assert_eq!(
        message(finish_signed(Err("a".to_string()), Err("b".to_string()))),
        "serialize pczt: a"
    );
    assert_eq!(
        message(finish_signed(Ok(vec![]), Err("b".to_string()))),
        "extract tx: b"
    );
}

#[test]
fn a_split_that_was_not_created_is_reported() {
    assert_eq!(message(finish_split_pczt(None)), "note split: pczt creation failed");
}
