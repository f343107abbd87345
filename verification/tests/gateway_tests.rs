use mint_api::gateway::{
    balance_from_fetch, buy_preimage_step, connect_should_retry, htlc_intercept_start,
    pay_invoice_start, pay_invoice_step, BuyPreimageCommand, BuyPreimageEvent, BuyPreimageState,
    ContractAccount, HtlcAccepted, LnGatewayError, PayCommand, PayEvent, PaymentParameters,
    PayState,
};
use mint_api::hexstr::{decode_hex, encode_hex, HexError};
use mint_api::modules::OutPoint;

fn params(maybe_internal: bool) -> PaymentParameters {
    PaymentParameters {
        max_delay: 144,
        invoice_amount: 10_000,
        max_send_amount: 10_100,
        payment_hash: vec![0xabu8; 32],
        maybe_internal,
    }
}

fn account() -> ContractAccount {
    ContractAccount {
        contract_id: vec![0x11u8; 32],
        amount_msat: 10_000,
        invoice: String::from("lnbc1example"),
    }
}

#[test]
fn test_pay_invoice_external_happy_path() {
    let (state, cmd) = pay_invoice_start(&vec![0x11u8; 32]);
    match &cmd {
        PayCommand::FetchContract { contract_id } => assert_eq!(contract_id, &vec![0x11u8; 32]),
        other => panic!("unexpected command {:?}", other),
    }
    let (state, cmd) = pay_invoice_step(state, PayEvent::ContractFetched(Ok(account())));
    assert!(matches!(cmd, PayCommand::ValidateAccount { .. }));
    let (state, cmd) = pay_invoice_step(state, PayEvent::Validated(Ok(params(false))));
    assert!(matches!(cmd, PayCommand::SaveAccount { .. }));
    // not maybe-internal: straight to the Lightning network
    let (state, cmd) = pay_invoice_step(state, PayEvent::Saved);
    match &cmd {
        PayCommand::PayExternal { invoice, max_delay, invoice_amount, max_send_amount } => {
            assert_eq!(invoice, "lnbc1example");
            assert_eq!(*max_delay, 144);
            assert_eq!(*invoice_amount, 10_000);
            assert_eq!(*max_send_amount, 10_100);
        }
        other => panic!("unexpected command {:?}", other),
    }
    let (state, cmd) =
        pay_invoice_step(state, PayEvent::ExternalPaid(Ok(vec![0x99u8; 32])));
    assert!(matches!(cmd, PayCommand::ClaimContract { .. }));
    let outpoint = OutPoint { txid: vec![0x22u8; 32], out_idx: 0 };
    let (state, cmd) = pay_invoice_step(state, PayEvent::Claimed(Ok(outpoint)));
    match &cmd {
        PayCommand::FinishPay(Ok(o)) => {
            assert_eq!(o.txid, vec![0x22u8; 32]);
            assert_eq!(o.out_idx, 0);
        }
        other => panic!("unexpected command {:?}", other),
    }
    assert!(matches!(state, PayState::Done { .. }));
}

#[test]
fn test_pay_invoice_internal_route_taken_only_with_offer() {
    let (state, _) = pay_invoice_start(&vec![0x11u8; 32]);
    let (state, _) = pay_invoice_step(state, PayEvent::ContractFetched(Ok(account())));
    let (state, _) = pay_invoice_step(state, PayEvent::Validated(Ok(params(true))));
    let (state, cmd) = pay_invoice_step(state, PayEvent::Saved);
    assert!(matches!(cmd, PayCommand::CheckOffer { .. }));
    // an offer-lookup error counts as "no offer": external route
    let (state, cmd) =
        pay_invoice_step(state, PayEvent::OfferChecked(Err(String::from("timeout"))));
    assert!(matches!(cmd, PayCommand::PayExternal { .. }));
    assert!(matches!(state, PayState::PayingExternal { .. }));
}

#[test]
fn test_pay_invoice_internal_buy_and_claim() {
    let (state, _) = pay_invoice_start(&vec![0x11u8; 32]);
    let (state, _) = pay_invoice_step(state, PayEvent::ContractFetched(Ok(account())));
    let (state, _) = pay_invoice_step(state, PayEvent::Validated(Ok(params(true))));
    let (state, _) = pay_invoice_step(state, PayEvent::Saved);
    let (state, cmd) = pay_invoice_step(state, PayEvent::OfferChecked(Ok(true)));
    match &cmd {
        PayCommand::Buy(BuyPreimageCommand::OfferPreimage { payment_hash, amount_msat }) => {
            assert_eq!(payment_hash, &vec![0xabu8; 32]);
            assert_eq!(*amount_msat, 10_000);
        }
        other => panic!("unexpected command {:?}", other),
    }
    let offer_outpoint = OutPoint { txid: vec![0x33u8; 32], out_idx: 1 };
    let (state, cmd) = pay_invoice_step(
        state,
        PayEvent::Buy(BuyPreimageEvent::Offered(Ok((offer_outpoint, vec![0x44u8; 32])))),
    );
    assert!(matches!(cmd, PayCommand::Buy(BuyPreimageCommand::AwaitDecryption { .. })));
    let (_state, cmd) = pay_invoice_step(
        state,
        PayEvent::Buy(BuyPreimageEvent::Decrypted(Ok(vec![0x55u8; 32]))),
    );
    match &cmd {
        PayCommand::ClaimContract { contract_id, preimage } => {
            assert_eq!(contract_id, &vec![0x11u8; 32]);
            assert_eq!(preimage, &vec![0x55u8; 32]);
        }
        other => panic!("unexpected command {:?}", other),
    }
}

#[test]
fn test_pay_invoice_failure_aborts_contract() {
    let (state, _) = pay_invoice_start(&vec![0x11u8; 32]);
    let (state, _) = pay_invoice_step(state, PayEvent::ContractFetched(Ok(account())));
    let (state, _) = pay_invoice_step(state, PayEvent::Validated(Ok(params(false))));
    let (state, _) = pay_invoice_step(state, PayEvent::Saved);
    let (state, cmd) =
        pay_invoice_step(state, PayEvent::ExternalPaid(Err(String::from("no route"))));
    match &cmd {
        PayCommand::AbortContract { contract_id } => assert_eq!(contract_id, &vec![0x11u8; 32]),
        other => panic!("unexpected command {:?}", other),
    }
    let (state, cmd) = pay_invoice_step(state, PayEvent::Aborted(Ok(())));
    match &cmd {
        PayCommand::FinishPay(Err(LnGatewayError::CouldNotRoute(m))) => {
            assert_eq!(m, "no route")
        }
        other => panic!("unexpected command {:?}", other),
    }
    assert!(matches!(state, PayState::Failed { .. }));
}

#[test]
fn test_htlc_intercept_buys_preimage() {
    let htlc = HtlcAccepted { payment_hash: vec![0x66u8; 32], amount_msat: 2_500 };
    let (state, cmd) = htlc_intercept_start(&htlc);
    match &cmd {
        BuyPreimageCommand::OfferPreimage { payment_hash, amount_msat } => {
            assert_eq!(payment_hash, &vec![0x66u8; 32]);
            assert_eq!(*amount_msat, 2_500);
        }
        other => panic!("unexpected command {:?}", other),
    }
    let offer_outpoint = OutPoint { txid: vec![0x77u8; 32], out_idx: 0 };
    let (state, _) = buy_preimage_step(
        state,
        BuyPreimageEvent::Offered(Ok((offer_outpoint, vec![0x88u8; 32]))),
    );
    // a failed decryption requests a refund before surfacing the error
    let (state, cmd) =
        buy_preimage_step(state, BuyPreimageEvent::Decrypted(Err(String::from("threshold"))));
    match &cmd {
        BuyPreimageCommand::RefundIncoming { incoming_contract_id } => {
            assert_eq!(incoming_contract_id, &vec![0x88u8; 32])
        }
        other => panic!("unexpected command {:?}", other),
    }
    let (state, cmd) = buy_preimage_step(state, BuyPreimageEvent::Refunded(Ok(())));
    match &cmd {
        BuyPreimageCommand::FinishBuy(Err(LnGatewayError::ClientError(m))) => {
            assert_eq!(m, "threshold")
        }
        other => panic!("unexpected command {:?}", other),
    }
    assert!(matches!(state, BuyPreimageState::Failed { .. }));
}

#[test]
fn test_balance_from_fetch() {
    let ok: Vec<Result<(), String>> = vec![Ok(()), Ok(())];
    assert_eq!(balance_from_fetch(&ok, 1_234), Ok(1_234));
    let mixed: Vec<Result<(), String>> =
        vec![Ok(()), Err(String::from("fetch failed")), Err(String::from("later"))];
    match balance_from_fetch(&mixed, 1_234) {
        Err(LnGatewayError::ClientError(m)) => assert_eq!(m, "fetch failed"),
        other => panic!("unexpected result {:?}", other),
    }
}

#[test]
fn test_connect_retry_budget() {
    assert!(connect_should_retry(0));
    assert!(connect_should_retry(9));
    assert!(!connect_should_retry(10));
    assert!(!connect_should_retry(11));
}

#[test]
fn test_hex_round_trip() {
    let bytes = vec![0xdeu8, 0xad, 0x00, 0x0f];
    let s = encode_hex(&bytes);
    assert_eq!(s, "dead000f");
    assert_eq!(decode_hex(&s), Ok(bytes));
    // uppercase digits decode too
    assert_eq!(decode_hex("DEAD000F"), Ok(vec![0xdeu8, 0xad, 0x00, 0x0f]));
    assert_eq!(decode_hex("abc"), Err(HexError::OddLength));
    assert!(matches!(decode_hex("zz"), Err(HexError::InvalidHexCharacter { .. })));
}
