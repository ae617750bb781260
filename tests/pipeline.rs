use verusid_cashback::checker::{
    is_confirmed, Block, CashbackChecker, CheckError, IdentityReservation, OperationStatus,
    PayoutAction, PayoutEvent, PayoutPhase, Transaction, TransactionVout,
};
use verusid_cashback::config::pbaas::Config;
use verusid_cashback::database::{get_pending_cashbacks, store_cashback};
use verusid_cashback::discord::{channel_for, DiscordMessage};
use verusid_cashback::ids::{Address, Txid};

const CHAIN: &str = "iJhCezBExJHvtyH3fGhNnt2NhU4Ztkf2yq";
const REFERRAL: &str = "iExBJfZYK7KREDpuhj6PzZBzqMAKaFg7d2";
const ALICE_ID: &str = "i3ZqK2F8UX8WogqohQ6dp9GCC9CVvasbyH";
const BOB_ID: &str = "i3f9By5sXdzfCATmu1DmAVm9Bq7nLEWphh";
const OTHER: &str = "i3kT4uvcakroae5k6cLtWrG6BX34gAzxCp";
const TXID: &str = "4a5e1e4baab89f3a32518a88c31bc87f618f76673e2cc77ab2127b7afdeda33b";
const EXPLORER: &str = "https://explorer.example/tx/";

fn addr(s: &str) -> Address {
    Address::parse(s).expect("valid address")
}

fn config(fee: u64, referral_amount: u64) -> Config {
    Config {
        rpc_user: "user".to_string(),
        rpc_password: "pass".to_string(),
        rpc_port: 27486,
        zmq_block_hash_url: "tcp://127.0.0.1:28332".to_string(),
        currency_id: addr(CHAIN),
        referral_currency_id: addr(REFERRAL),
        explorer_url: EXPLORER.to_string(),
        fee,
        referral_amount,
    }
}

fn checker() -> CashbackChecker {
    CashbackChecker::new(&config(50000, 1000000)).expect("sound economics")
}

fn registration(name: &str, name_id: &str, referral: Option<&str>) -> TransactionVout {
    TransactionVout {
        identity_reservation: Some(IdentityReservation {
            name: name.to_string(),
            nameid: addr(name_id),
            referral: referral.map(|r| r.to_string()),
        }),
    }
}

fn plain_vout() -> TransactionVout {
    TransactionVout { identity_reservation: None }
}

fn block(vouts: Vec<TransactionVout>) -> Block {
    Block { tx: vec![Transaction { vout: vec![plain_vout()] }, Transaction { vout: vouts }] }
}

fn status(s: &str, result: Option<&str>) -> OperationStatus {
    OperationStatus {
        status: s.to_string(),
        result: result.map(|t| Txid::parse(t).expect("valid txid")),
    }
}

#[test]
fn referral_detection_then_payout() {
    let mut c = checker();
    let events = c
        .handle_block(&block(vec![registration("alice", ALICE_ID, Some(REFERRAL))]))
        .expect("block accepted");
    assert_eq!(events.len(), 1);
    match &events[0] {
        DiscordMessage::CashbackInitiated(chain, (name, name_id)) => {
            assert_eq!(chain.text, CHAIN);
            assert_eq!(name, "alice");
            assert_eq!(name_id.text, ALICE_ID);
        }
        other => panic!("unexpected {:?}", other),
    }
    let pending = get_pending_cashbacks(&c.ledger);
    assert_eq!(pending.len(), 1);
    assert_eq!(pending[0].currency_id.text, CHAIN);
    assert_eq!(pending[0].name_id.text, ALICE_ID);
    assert_eq!(pending[0].name, "alice");
    assert!(pending[0].txid.is_none());

    let (mut pass, action) = c.begin_payouts(110);
    match action {
        PayoutAction::LookupIdentity(a) => assert_eq!(a.text, ALICE_ID),
        other => panic!("unexpected {:?}", other),
    }
    match c.payout_step(&mut pass, PayoutEvent::CreationHeight(100)) {
        PayoutAction::Transfer(outs) => {
            assert_eq!(outs.len(), 2);
            assert_eq!(outs[0].amount, 950000);
            assert_eq!(outs[0].address.text, ALICE_ID);
            assert_eq!(outs[1].amount, 30000);
            assert_eq!(outs[1].address.text, REFERRAL);
        }
        other => panic!("unexpected {:?}", other),
    }
    match c.payout_step(&mut pass, PayoutEvent::OperationStarted("opid-1".to_string())) {
        PayoutAction::Poll(o) => assert_eq!(o, "opid-1"),
        other => panic!("unexpected {:?}", other),
    }
    match c.payout_step(&mut pass, PayoutEvent::Status(status("executing", None))) {
        PayoutAction::PauseThenPoll(o) => assert_eq!(o, "opid-1"),
        other => panic!("unexpected {:?}", other),
    }
    match c.payout_step(&mut pass, PayoutEvent::Status(status("success", Some(TXID)))) {
        PayoutAction::Record { currency_id, name_id, txid, message } => {
            assert_eq!(currency_id.text, CHAIN);
            assert_eq!(name_id.text, ALICE_ID);
            assert_eq!(txid.text, TXID);
            match message {
                DiscordMessage::CashbackProcessed(chain, (name, nid), link) => {
                    assert_eq!(chain.text, CHAIN);
                    assert_eq!(name, "alice");
                    assert_eq!(nid.text, ALICE_ID);
                    assert_eq!(link, format!("{}{}", EXPLORER, TXID));
                }
                other => panic!("unexpected {:?}", other),
            }
        }
        other => panic!("unexpected {:?}", other),
    }
    assert!(get_pending_cashbacks(&c.ledger).is_empty());
    assert!(matches!(c.payout_step(&mut pass, PayoutEvent::Recorded), PayoutAction::Done));
    assert!(matches!(pass.phase, PayoutPhase::Finished));
    let (_, again) = c.begin_payouts(200);
    assert!(matches!(again, PayoutAction::Done));
}

#[test]
fn other_referral_creates_nothing() {
    let mut c = checker();
    let events = c
        .handle_block(&block(vec![registration("bob", BOB_ID, Some(OTHER))]))
        .expect("block accepted");
    assert!(events.is_empty());
    assert_eq!(c.ledger.len(), 0);
}

#[test]
fn block_without_registrations_creates_nothing() {
    let mut c = checker();
    let events = c
        .handle_block(&block(vec![plain_vout(), registration("bob", BOB_ID, None)]))
        .expect("block accepted");
    assert!(events.is_empty());
    assert_eq!(c.ledger.len(), 0);
}

#[test]
fn reprocessing_a_block_adds_no_duplicate() {
    let mut c = checker();
    let b = block(vec![
        registration("alice", ALICE_ID, Some(REFERRAL)),
        registration("bob", BOB_ID, Some(REFERRAL)),
    ]);
    assert_eq!(c.handle_block(&b).unwrap().len(), 2);
    assert_eq!(c.ledger.len(), 2);
    assert_eq!(c.handle_block(&b).unwrap().len(), 0);
    assert_eq!(c.ledger.len(), 2);
}

#[test]
fn invalid_referral_refuses_the_block() {
    let mut c = checker();
    let b = block(vec![
        registration("alice", ALICE_ID, Some(REFERRAL)),
        registration("bob", BOB_ID, Some("not-an-address")),
    ]);
    assert_eq!(c.handle_block(&b).unwrap_err(), CheckError::InvalidReferral);
    assert_eq!(c.ledger.len(), 0);
}

#[test]
fn single_output_detection() {
    let mut c = checker();
    let mut events = Vec::new();
    assert_eq!(c.tx_has_referral(&registration("alice", ALICE_ID, Some(REFERRAL)), &mut events), Ok(true));
    assert_eq!(events.len(), 1);
    assert_eq!(c.tx_has_referral(&registration("alice", ALICE_ID, Some(REFERRAL)), &mut events), Ok(true));
    assert_eq!(events.len(), 1);
    assert_eq!(c.tx_has_referral(&registration("bob", BOB_ID, Some(OTHER)), &mut events), Ok(false));
    assert_eq!(c.tx_has_referral(&plain_vout(), &mut events), Ok(false));
    assert_eq!(
        c.tx_has_referral(&registration("bob", BOB_ID, Some("xyz")), &mut events),
        Err(CheckError::InvalidReferral)
    );
    assert_eq!(c.ledger.len(), 1);
}

#[test]
fn unsound_economics_refused() {
    assert_eq!(CashbackChecker::new(&config(10000, 1000000)).unwrap_err(), CheckError::InvalidEconomics);
    assert_eq!(CashbackChecker::new(&config(50000, 40000)).unwrap_err(), CheckError::InvalidEconomics);
    assert!(CashbackChecker::new(&config(20000, 20000)).is_ok());
}

#[test]
fn confirmation_gate_at_ten() {
    assert!(!is_confirmed(109, 100));
    assert!(is_confirmed(110, 100));
    assert!(is_confirmed(500, 100));
    assert!(!is_confirmed(5, 10));
}

#[test]
fn immature_record_ends_the_pass() {
    let mut c = checker();
    c.handle_block(&block(vec![
        registration("alice", ALICE_ID, Some(REFERRAL)),
        registration("bob", BOB_ID, Some(REFERRAL)),
    ]))
    .unwrap();
    let (mut pass, _) = c.begin_payouts(105);
    assert!(matches!(c.payout_step(&mut pass, PayoutEvent::CreationHeight(100)), PayoutAction::Done));
    assert!(matches!(pass.phase, PayoutPhase::Finished));
    assert_eq!(get_pending_cashbacks(&c.ledger).len(), 2);
}

#[test]
fn operation_without_result_keeps_record_pending() {
    let mut c = checker();
    c.handle_block(&block(vec![registration("alice", ALICE_ID, Some(REFERRAL))])).unwrap();
    let (mut pass, _) = c.begin_payouts(120);
    assert!(matches!(c.payout_step(&mut pass, PayoutEvent::CreationHeight(100)), PayoutAction::Transfer(_)));
    c.payout_step(&mut pass, PayoutEvent::OperationStarted("op".to_string()));
    match c.payout_step(&mut pass, PayoutEvent::Status(status("failed", None))) {
        PayoutAction::Poll(o) => assert_eq!(o, "op"),
        other => panic!("unexpected {:?}", other),
    }
    match c.payout_step(&mut pass, PayoutEvent::Status(status("queued", None))) {
        PayoutAction::PauseThenPoll(o) => assert_eq!(o, "op"),
        other => panic!("unexpected {:?}", other),
    }
    assert_eq!(get_pending_cashbacks(&c.ledger).len(), 1);
    let (pass2, action) = c.begin_payouts(130);
    assert_eq!(pass2.pending.len(), 1);
    assert!(matches!(action, PayoutAction::LookupIdentity(_)));
}

#[test]
fn unexpected_event_ends_the_pass() {
    let mut c = checker();
    c.handle_block(&block(vec![registration("alice", ALICE_ID, Some(REFERRAL))])).unwrap();
    let (mut pass, _) = c.begin_payouts(120);
    assert!(matches!(c.payout_step(&mut pass, PayoutEvent::Recorded), PayoutAction::Done));
    assert!(matches!(pass.phase, PayoutPhase::Finished));
}

#[test]
fn two_records_paid_in_order() {
    let mut c = checker();
    c.handle_block(&block(vec![
        registration("alice", ALICE_ID, Some(REFERRAL)),
        registration("bob", BOB_ID, Some(REFERRAL)),
    ]))
    .unwrap();
    let (mut pass, _) = c.begin_payouts(120);
    c.payout_step(&mut pass, PayoutEvent::CreationHeight(100));
    c.payout_step(&mut pass, PayoutEvent::OperationStarted("op".to_string()));
    c.payout_step(&mut pass, PayoutEvent::Status(status("success", Some(TXID))));
    match c.payout_step(&mut pass, PayoutEvent::Recorded) {
        PayoutAction::LookupIdentity(a) => assert_eq!(a.text, BOB_ID),
        other => panic!("unexpected {:?}", other),
    }
    let pending = get_pending_cashbacks(&c.ledger);
    assert_eq!(pending.len(), 1);
    assert_eq!(pending[0].name, "bob");
}

#[test]
fn store_skips_existing_key() {
    let mut c = checker();
    let chain = addr(CHAIN);
    let alice = addr(ALICE_ID);
    assert!(store_cashback(&mut c.ledger, &chain, &alice, "alice"));
    assert!(!store_cashback(&mut c.ledger, &chain, &alice, "alice2"));
    assert!(store_cashback(&mut c.ledger, &addr(OTHER), &alice, "alice"));
    assert_eq!(c.ledger.len(), 2);
}

#[test]
fn notification_texts_and_channels() {
    let initiated = DiscordMessage::CashbackInitiated(addr(CHAIN), ("alice".to_string(), addr(ALICE_ID)));
    assert_eq!(
        initiated.content(),
        format!(":sparkles:  **alice@** ({}) initiated cashback", ALICE_ID)
    );
    assert_eq!(initiated.chain().text, CHAIN);
    let processed = DiscordMessage::CashbackProcessed(
        addr(REFERRAL),
        ("alice".to_string(), addr(ALICE_ID)),
        "https://x/t".to_string(),
    );
    assert_eq!(
        processed.content(),
        format!(":moneybag:  Cashback processed for **alice@** ({}): [https://x/t]", ALICE_ID)
    );
    assert_eq!(processed.chain().text, REFERRAL);
    assert_eq!(channel_for(&addr(CHAIN)), Some(1227894258216734782));
    assert_eq!(channel_for(&addr(REFERRAL)), Some(1227869235942785035));
    assert_eq!(channel_for(&addr(OTHER)), None);
}
