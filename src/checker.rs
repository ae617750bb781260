//! One chain's worker: detection of referred registrations in each new block,
//! and the payout pass over the records that await payout.

use crate::config::pbaas;
use crate::constants::{Cashback, CashbackView};
use crate::database::{
    Ledger, contains_key, get_pending_cashbacks, has_key, pending_rows,
    store_cashback, stored, update_cashback, updated,
};
use crate::discord::{DiscordMessage, NotificationView};
use crate::ids::{Address, Txid, address_text};
use vstd::prelude::*;

verus! {

/// Confirmations a registration needs before its cashback is paid.
pub const CONFIRMATIONS: u64 = 10;

/// Network overhead taken off the referrer's share of a payout, in satoshis.
pub const NETWORK_FEE_DEDUCTION: u64 = 20000;

/// The identity registration an output carries.
#[derive(Debug, Clone)]
pub struct IdentityReservation {
    pub name: String,
    pub nameid: Address,
    pub referral: Option<String>,
}

/// A transaction output, as far as detection reads it.
#[derive(Debug, Clone)]
pub struct TransactionVout {
    pub identity_reservation: Option<IdentityReservation>,
}

/// A transaction of a block.
#[derive(Debug, Clone)]
pub struct Transaction {
    pub vout: Vec<TransactionVout>,
}

/// A block with its transactions.
#[derive(Debug, Clone)]
pub struct Block {
    pub tx: Vec<Transaction>,
}

/// Why a worker stops.
#[derive(Debug, Clone, Copy, PartialEq, Eq)]
pub enum CheckError {
    /// A registration names a referral that is no address.
    InvalidReferral,
    /// The referral reward does not cover the fee, or the fee does not cover
    /// the network overhead.
    InvalidEconomics,
}

/// The output's referral, if it has one, is an address.
pub open spec fn referral_parses(v: TransactionVout) -> bool {
    match v.identity_reservation {
        Some(ir) => match ir.referral {
            Some(s) => address_text(s@) is Some,
            None => true,
        },
        None => true,
    }
}

/// The output registers an identity whose referral is this referral identity.
pub open spec fn vout_matches(v: TransactionVout, referral_id: Seq<char>) -> bool {
    match v.identity_reservation {
        Some(ir) => match ir.referral {
            Some(s) => address_text(s@) == Some(referral_id),
            None => false,
        },
        None => false,
    }
}

/// The records and the notifications after detection has looked at one output.
pub open spec fn scan_step(
    state: (Seq<CashbackView>, Seq<NotificationView>),
    v: TransactionVout,
    chain: Seq<char>,
    referral_id: Seq<char>,
) -> (Seq<CashbackView>, Seq<NotificationView>) {
    if vout_matches(v, referral_id) {
        let ir = v.identity_reservation.unwrap();
        let rows = state.0;
        if contains_key(rows, chain, ir.nameid@) {
            state
        } else {
            (
                stored(rows, chain, ir.nameid@, ir.name@),
                state.1.push(
                    NotificationView::Initiated { chain, name: ir.name@, name_id: ir.nameid@ },
                ),
            )
        }
    } else {
        state
    }
}

/// The records and the notifications after detection has looked at these outputs in order.
pub open spec fn scan(
    state: (Seq<CashbackView>, Seq<NotificationView>),
    vouts: Seq<TransactionVout>,
    chain: Seq<char>,
    referral_id: Seq<char>,
) -> (Seq<CashbackView>, Seq<NotificationView>)
    decreases vouts.len(),
{
    if vouts.len() == 0 {
        state
    } else {
        scan_step(scan(state, vouts.drop_last(), chain, referral_id), vouts.last(), chain, referral_id)
    }
}

/// The records and the notifications after detection has looked at these
/// transactions' outputs in order.
pub open spec fn scan_txs(
    state: (Seq<CashbackView>, Seq<NotificationView>),
    txs: Seq<Transaction>,
    chain: Seq<char>,
    referral_id: Seq<char>,
) -> (Seq<CashbackView>, Seq<NotificationView>)
    decreases txs.len(),
{
    if txs.len() == 0 {
        state
    } else {
        scan(scan_txs(state, txs.drop_last(), chain, referral_id), txs.last().vout@, chain, referral_id)
    }
}

/// Every referral in the block is an address.
pub open spec fn block_parses(b: Block) -> bool {
    forall|i: int, j: int|
        0 <= i < b.tx@.len() && 0 <= j < b.tx@[i].vout@.len() ==> referral_parses(
            #[trigger] b.tx@[i].vout@[j],
        )
}

/// One transfer output: an amount in satoshis to an address.
#[derive(Debug, Clone)]
pub struct SendCurrencyOutput {
    pub amount: u64,
    pub address: Address,
}

/// The worker's state for one chain: its identities, the payout economics, the
/// explorer link prefix, and the records it knows of.
#[derive(Debug)]
pub struct CashbackChecker {
    pub currency_id: Address,
    pub referral_id: Address,
    pub explorer_url: String,
    pub fee: u64,
    pub referral_amount: u64,
    pub ledger: Ledger,
}

/// The payout economics are sound: the reward covers the fee and the fee covers
/// the network overhead.
pub open spec fn economics_ok(fee: u64, referral_amount: u64) -> bool {
    NETWORK_FEE_DEDUCTION <= fee <= referral_amount
}

impl CashbackChecker {
    pub open spec fn wf(&self) -> bool {
        &&& self.ledger.wf()
        &&& economics_ok(self.fee, self.referral_amount)
    }

    /// A worker for the chain this configuration describes, knowing no records yet.
    pub fn new(config: &pbaas::Config) -> (r: Result<CashbackChecker, CheckError>)
        ensures
            r is Err <==> !economics_ok(config.fee, config.referral_amount),
            r matches Err(e) ==> e == CheckError::InvalidEconomics,
            r matches Ok(c) ==> {
                &&& c.wf()
                &&& c.currency_id@ == config.currency_id@
                &&& c.referral_id@ == config.referral_currency_id@
                &&& c.explorer_url@ == config.explorer_url@
                &&& c.fee == config.fee
                &&& c.referral_amount == config.referral_amount
                &&& c.ledger@ == Seq::<CashbackView>::empty()
            },
    {
        if config.fee < NETWORK_FEE_DEDUCTION || config.referral_amount < config.fee {
            return Err(CheckError::InvalidEconomics);
        }
        Ok(CashbackChecker {
            currency_id: Address { text: config.currency_id.text.clone() },
            referral_id: Address { text: config.referral_currency_id.text.clone() },
            explorer_url: config.explorer_url.clone(),
            fee: config.fee,
            referral_amount: config.referral_amount,
            ledger: Ledger::new(),
        })
    }

    /// Looks at one output: where it registers an identity referred by this
    /// chain's referral identity, records an unresolved cashback and, for a new
    /// record, queues an `Initiated` notification. Returns whether it matched.
    pub fn tx_has_referral(&mut self, vout: &TransactionVout, events: &mut Vec<DiscordMessage>) -> (r: Result<bool, CheckError>)
        requires
            old(self).wf(),
        ensures
            final(self).wf(),
            final(self).currency_id == old(self).currency_id,
            final(self).referral_id == old(self).referral_id,
            final(self).explorer_url == old(self).explorer_url,
            final(self).fee == old(self).fee,
            final(self).referral_amount == old(self).referral_amount,
            r is Err <==> !referral_parses(*vout),
            r matches Err(e) ==> e == CheckError::InvalidReferral,
            r is Err ==> final(self).ledger@ == old(self).ledger@ && final(events)@ == old(events)@,
            r matches Ok(b) ==> {
                &&& b == vout_matches(*vout, old(self).referral_id@)
                &&& (final(self).ledger@, final(events)@.map_values(|m: DiscordMessage| m@)) == scan_step(
                    (old(self).ledger@, old(events)@.map_values(|m: DiscordMessage| m@)),
                    *vout,
                    old(self).currency_id@,
                    old(self).referral_id@,
                )
            },
    {
        let ghost ev0 = events@.map_values(|m: DiscordMessage| m@);
        match &vout.identity_reservation {
            Some(ir) => match &ir.referral {
                Some(s) => match Address::parse(s.as_str()) {
                    Some(used) => {
                        if self.referral_id.same(&used) {
                            let added = store_cashback(&mut self.ledger, &self.currency_id, &ir.nameid, ir.name.as_str());
                            if added {
                                let msg = DiscordMessage::CashbackInitiated(
                                    self.currency_id.clone_exact(),
                                    (ir.name.clone(), ir.nameid.clone_exact()),
                                );
                                events.push(msg);
                                assert(events@.map_values(|m: DiscordMessage| m@) =~= ev0.push(msg@));
                            }
                            Ok(true)
                        } else {
                            Ok(false)
                        }
                    },
                    None => Err(CheckError::InvalidReferral),
                },
                None => Ok(false),
            },
            None => Ok(false),
        }
    }
}

/// Whether every referral in the block is an address.
fn check_referrals(block: &Block) -> (r: bool)
    ensures
        r == block_parses(*block),
{
    let mut i: usize = 0;
    while i < block.tx.len()
        invariant
            i <= block.tx@.len(),
            forall|a: int, j: int|
                0 <= a < i && 0 <= j < block.tx@[a].vout@.len() ==> referral_parses(
                    #[trigger] block.tx@[a].vout@[j],
                ),
        decreases block.tx@.len() - i,
    {
        let vouts = &block.tx[i].vout;
        let mut j: usize = 0;
        while j < vouts.len()
            invariant
                i < block.tx@.len(),
                vouts@ == block.tx@[i as int].vout@,
                j <= vouts@.len(),
                forall|a: int, k: int|
                    0 <= a < i && 0 <= k < block.tx@[a].vout@.len() ==> referral_parses(
                        #[trigger] block.tx@[a].vout@[k],
                    ),
                forall|k: int| 0 <= k < j ==> referral_parses(#[trigger] vouts@[k]),
            decreases vouts@.len() - j,
        {
            let ok = match &vouts[j].identity_reservation {
                Some(ir) => match &ir.referral {
                    Some(s) => Address::parse(s.as_str()).is_some(),
                    None => true,
                },
                None => true,
            };
            if !ok {
                assert(!referral_parses(block.tx@[i as int].vout@[j as int]));
                return false;
            }
            j = j + 1;
        }
        i = i + 1;
    }
    true
}

impl CashbackChecker {
    /// Detection over a whole block: every output of every transaction, in the
    /// block's order. A block with a referral that is no address is refused as a
    /// whole, and nothing is recorded or queued.
    pub fn handle_block(&mut self, block: &Block) -> (r: Result<Vec<DiscordMessage>, CheckError>)
        requires
            old(self).wf(),
        ensures
            final(self).wf(),
            final(self).currency_id == old(self).currency_id,
            final(self).referral_id == old(self).referral_id,
            final(self).explorer_url == old(self).explorer_url,
            final(self).fee == old(self).fee,
            final(self).referral_amount == old(self).referral_amount,
            r is Err <==> !block_parses(*block),
            r matches Err(e) ==> e == CheckError::InvalidReferral && final(self).ledger@ == old(self).ledger@,
            r matches Ok(events) ==> (final(self).ledger@, events@.map_values(|m: DiscordMessage| m@)) == scan_txs(
                (old(self).ledger@, Seq::<NotificationView>::empty()),
                block.tx@,
                old(self).currency_id@,
                old(self).referral_id@,
            ),
    {
        if !check_referrals(block) {
            return Err(CheckError::InvalidReferral);
        }
        let ghost s0 = (self.ledger@, Seq::<NotificationView>::empty());
        let ghost chain = self.currency_id@;
        let ghost referral = self.referral_id@;
        let mut events: Vec<DiscordMessage> = Vec::new();
        assert(events@.map_values(|m: DiscordMessage| m@) =~= Seq::<NotificationView>::empty());
        let mut i: usize = 0;
        while i < block.tx.len()
            invariant
                self.wf(),
                i <= block.tx@.len(),
                block_parses(*block),
                self.currency_id@ == chain,
                self.referral_id@ == referral,
                self.currency_id == old(self).currency_id,
                self.referral_id == old(self).referral_id,
                self.explorer_url == old(self).explorer_url,
                self.fee == old(self).fee,
                self.referral_amount == old(self).referral_amount,
                (self.ledger@, events@.map_values(|m: DiscordMessage| m@)) == scan_txs(
                    s0,
                    block.tx@.take(i as int),
                    chain,
                    referral,
                ),
            decreases block.tx@.len() - i,
        {
            let vouts = &block.tx[i].vout;
            let ghost mid = (self.ledger@, events@.map_values(|m: DiscordMessage| m@));
            assert(block.tx@.take(i as int + 1).drop_last() =~= block.tx@.take(i as int));
            let mut j: usize = 0;
            while j < vouts.len()
                invariant
                    self.wf(),
                    i < block.tx@.len(),
                    vouts@ == block.tx@[i as int].vout@,
                    j <= vouts@.len(),
                    block_parses(*block),
                    self.currency_id@ == chain,
                    self.referral_id@ == referral,
                    self.currency_id == old(self).currency_id,
                    self.referral_id == old(self).referral_id,
                    self.explorer_url == old(self).explorer_url,
                    self.fee == old(self).fee,
                    self.referral_amount == old(self).referral_amount,
                    (self.ledger@, events@.map_values(|m: DiscordMessage| m@)) == scan(
                        mid,
                        vouts@.take(j as int),
                        chain,
                        referral,
                    ),
                decreases vouts@.len() - j,
            {
                assert(referral_parses(block.tx@[i as int].vout@[j as int]));
                assert(vouts@.take(j as int + 1).drop_last() =~= vouts@.take(j as int));
                let _ = self.tx_has_referral(&vouts[j], &mut events);
                j = j + 1;
            }
            assert(vouts@.take(j as int) =~= vouts@);
            i = i + 1;
        }
        assert(block.tx@.take(i as int) =~= block.tx@);
        Ok(events)
    }
}

} // verus!

verus! {

/// Status of an asynchronous operation as the chain daemon reports it: its state
/// word, and the transaction it produced once it has one.
#[derive(Debug, Clone)]
pub struct OperationStatus {
    pub status: String,
    pub result: Option<Txid>,
}

/// The operation is still running: it is queued or executing.
pub open spec fn still_running(s: OperationStatus) -> bool {
    s.status@ == "queued"@ || s.status@ == "executing"@
}

/// Where a payout pass stands.
#[derive(Debug, Clone)]
pub enum PayoutPhase {
    /// Waiting for the creation height of the current record's identity.
    AwaitCreation,
    /// Waiting for the id of the submitted transfer operation.
    AwaitOperation,
    /// Polling this operation.
    Polling(String),
    /// Waiting for the payout to be written and committed.
    AwaitRecord,
    /// The pass is over.
    Finished,
}

/// One pass over the records that await payout, in their order.
#[derive(Debug)]
pub struct PayoutPass {
    pub pending: Vec<Cashback>,
    pub next: usize,
    pub chain_height: u64,
    pub phase: PayoutPhase,
}

/// What the outside world reports to a payout pass.
#[derive(Debug, Clone)]
pub enum PayoutEvent {
    /// The block height at which the current record's identity was created.
    CreationHeight(u64),
    /// The transfer was submitted under this operation id.
    OperationStarted(String),
    /// The polled operation's status.
    Status(OperationStatus),
    /// The payout was written and committed.
    Recorded,
}

/// What a payout pass asks the outside world to do next.
#[derive(Debug)]
pub enum PayoutAction {
    /// Look up the creation height of this identity.
    LookupIdentity(Address),
    /// Open a transaction scope and submit this split transfer.
    Transfer(Vec<SendCurrencyOutput>),
    /// Query this operation's status now.
    Poll(String),
    /// Pause briefly, then query this operation's status.
    PauseThenPoll(String),
    /// Write this transaction id into the record with this key, commit, then send
    /// the notification.
    Record { currency_id: Address, name_id: Address, txid: Txid, message: DiscordMessage },
    /// The pass is over.
    Done,
}

/// A registration created at `creation` is deep enough under `current` to be paid.
pub open spec fn confirmed(current: u64, creation: u64) -> bool {
    current - creation >= CONFIRMATIONS
}

/// Whether a registration created at `creation_height` has enough confirmations
/// under `current_height`.
pub fn is_confirmed(current_height: u64, creation_height: u64) -> (r: bool)
    ensures
        r == confirmed(current_height, creation_height),
{
    creation_height <= current_height && current_height - creation_height >= CONFIRMATIONS
}

impl CashbackChecker {
    /// The two outputs of a payout: the reward less the fee to the new identity,
    /// and the fee less the network overhead to the referral identity.
    pub fn payout_outputs(&self, name_id: &Address) -> (r: Vec<SendCurrencyOutput>)
        requires
            self.wf(),
        ensures
            r@.len() == 2,
            r@[0].amount == self.referral_amount - self.fee,
            r@[0].address@ == name_id@,
            r@[1].amount == self.fee - NETWORK_FEE_DEDUCTION,
            r@[1].address@ == self.referral_id@,
    {
        let mut v: Vec<SendCurrencyOutput> = Vec::new();
        v.push(SendCurrencyOutput { amount: self.referral_amount - self.fee, address: name_id.clone_exact() });
        v.push(SendCurrencyOutput { amount: self.fee - NETWORK_FEE_DEDUCTION, address: self.referral_id.clone_exact() });
        v
    }

    /// The explorer link of a payout transaction.
    pub fn explorer_link(&self, txid: &Txid) -> (r: String)
        ensures
            r@ == self.explorer_url@ + txid@,
    {
        self.explorer_url.clone().concat(txid.text.as_str())
    }

    /// Starts a payout pass over the records that await payout, under the chain's
    /// current height.
    pub fn begin_payouts(&self, chain_height: u64) -> (r: (PayoutPass, PayoutAction))
        ensures
            r.0.pending@.map_values(|c: Cashback| c@) == pending_rows(self.ledger@),
            r.0.next == 0,
            r.0.chain_height == chain_height,
            r.0.pending@.len() == 0 ==> r.0.phase is Finished && r.1 is Done,
            r.0.pending@.len() > 0 ==> (r.0.phase is AwaitCreation && (r.1 matches PayoutAction::LookupIdentity(a)
                && a@ == r.0.pending@[0].name_id@)),
    {
        let pending = get_pending_cashbacks(&self.ledger);
        if pending.len() == 0 {
            (PayoutPass { pending, next: 0, chain_height, phase: PayoutPhase::Finished }, PayoutAction::Done)
        } else {
            let a = pending[0].name_id.clone_exact();
            (PayoutPass { pending, next: 0, chain_height, phase: PayoutPhase::AwaitCreation }, PayoutAction::LookupIdentity(a))
        }
    }

    /// Moves a payout pass on by one event. The records are taken in order; the
    /// first one without enough confirmations ends the pass. A confirmed record is
    /// paid by one split transfer whose operation is polled, with a pause while it
    /// is queued or executing, until it reports a transaction; that transaction is
    /// then set on the record and a `Processed` notification is made. An event that
    /// does not fit the phase ends the pass.
    pub fn payout_step(&mut self, pass: &mut PayoutPass, event: PayoutEvent) -> (action: PayoutAction)
        requires
            old(self).wf(),
            old(pass).next <= old(pass).pending@.len(),
            !(old(pass).phase is Finished) ==> old(pass).next < old(pass).pending@.len(),
        ensures
            final(self).wf(),
            final(self).currency_id == old(self).currency_id,
            final(self).referral_id == old(self).referral_id,
            final(self).explorer_url == old(self).explorer_url,
            final(self).fee == old(self).fee,
            final(self).referral_amount == old(self).referral_amount,
            final(pass).pending == old(pass).pending,
            final(pass).chain_height == old(pass).chain_height,
            final(pass).next <= final(pass).pending@.len(),
            !(final(pass).phase is Finished) ==> final(pass).next < final(pass).pending@.len(),
            ({
                let c = old(pass).pending@[old(pass).next as int];
                let chain = old(self).currency_id@;
                match (old(pass).phase, event) {
                    (PayoutPhase::AwaitCreation, PayoutEvent::CreationHeight(h)) => if confirmed(old(pass).chain_height, h) {
                        &&& final(pass).phase is AwaitOperation
                        &&& final(pass).next == old(pass).next
                        &&& final(self).ledger@ == old(self).ledger@
                        &&& action matches PayoutAction::Transfer(outs) && outs@.len() == 2
                            && outs@[0].amount == old(self).referral_amount - old(self).fee
                            && outs@[0].address@ == c.name_id@
                            && outs@[1].amount == old(self).fee - NETWORK_FEE_DEDUCTION
                            && outs@[1].address@ == old(self).referral_id@
                    } else {
                        &&& final(pass).phase is Finished
                        &&& final(self).ledger@ == old(self).ledger@
                        &&& action is Done
                    },
                    (PayoutPhase::AwaitOperation, PayoutEvent::OperationStarted(opid)) => {
                        &&& final(pass).phase == PayoutPhase::Polling(opid)
                        &&& final(pass).next == old(pass).next
                        &&& final(self).ledger@ == old(self).ledger@
                        &&& action matches PayoutAction::Poll(o) && o@ == opid@
                    },
                    (PayoutPhase::Polling(opid), PayoutEvent::Status(s)) => match s.result {
                        Some(t) => if still_running(s) {
                            &&& final(pass).phase == PayoutPhase::Polling(opid)
                            &&& final(pass).next == old(pass).next
                            &&& final(self).ledger@ == old(self).ledger@
                            &&& action matches PayoutAction::PauseThenPoll(o) && o@ == opid@
                        } else {
                            &&& final(pass).phase is AwaitRecord
                            &&& final(pass).next == old(pass).next
                            &&& final(self).ledger@ == updated(old(self).ledger@, c.currency_id@, c.name_id@, t@)
                            &&& action matches PayoutAction::Record { currency_id, name_id, txid, message }
                                && currency_id@ == c.currency_id@ && name_id@ == c.name_id@ && txid@ == t@
                                && message@ == NotificationView::Processed {
                                    chain,
                                    name: c.name@,
                                    name_id: c.name_id@,
                                    link: old(self).explorer_url@ + t@,
                                }
                        },
                        None => {
                            &&& final(pass).phase == PayoutPhase::Polling(opid)
                            &&& final(pass).next == old(pass).next
                            &&& final(self).ledger@ == old(self).ledger@
                            &&& if still_running(s) {
                                action matches PayoutAction::PauseThenPoll(o) && o@ == opid@
                            } else {
                                action matches PayoutAction::Poll(o) && o@ == opid@
                            }
                        },
                    },
                    (PayoutPhase::AwaitRecord, PayoutEvent::Recorded) => {
                        &&& final(pass).next == old(pass).next + 1
                        &&& final(self).ledger@ == old(self).ledger@
                        &&& if final(pass).next < old(pass).pending@.len() {
                            &&& final(pass).phase is AwaitCreation
                            &&& action matches PayoutAction::LookupIdentity(a)
                                && a@ == old(pass).pending@[final(pass).next as int].name_id@
                        } else {
                            final(pass).phase is Finished && action is Done
                        }
                    },
                    _ => {
                        &&& final(pass).phase is Finished
                        &&& final(pass).next == old(pass).next
                        &&& final(self).ledger@ == old(self).ledger@
                        &&& action is Done
                    },
                }
            }),
    {
        let phase = pass.phase.clone_exact();
        match (phase, event) {
            (PayoutPhase::AwaitCreation, PayoutEvent::CreationHeight(h)) => {
                if is_confirmed(pass.chain_height, h) {
                    let outs = self.payout_outputs(&pass.pending[pass.next].name_id);
                    pass.phase = PayoutPhase::AwaitOperation;
                    PayoutAction::Transfer(outs)
                } else {
                    pass.phase = PayoutPhase::Finished;
                    PayoutAction::Done
                }
            },
            (PayoutPhase::AwaitOperation, PayoutEvent::OperationStarted(opid)) => {
                let o = opid.clone();
                pass.phase = PayoutPhase::Polling(opid);
                PayoutAction::Poll(o)
            },
            (PayoutPhase::Polling(opid), PayoutEvent::Status(s)) => {
                let running = s.status == String::from_str("queued") || s.status == String::from_str("executing");
                if running {
                    let o = opid.clone();
                    pass.phase = PayoutPhase::Polling(opid);
                    PayoutAction::PauseThenPoll(o)
                } else {
                    match s.result {
                        Some(t) => {
                            let c = &pass.pending[pass.next];
                            let _ = update_cashback(&mut self.ledger, &c.currency_id, &c.name_id, &t);
                            let link = self.explorer_link(&t);
                            let message = DiscordMessage::CashbackProcessed(
                                self.currency_id.clone_exact(),
                                (c.name.clone(), c.name_id.clone_exact()),
                                link,
                            );
                            let action = PayoutAction::Record {
                                currency_id: c.currency_id.clone_exact(),
                                name_id: c.name_id.clone_exact(),
                                txid: t,
                                message,
                            };
                            pass.phase = PayoutPhase::AwaitRecord;
                            action
                        },
                        None => {
                            let o = opid.clone();
                            pass.phase = PayoutPhase::Polling(opid);
                            PayoutAction::Poll(o)
                        },
                    }
                }
            },
            (PayoutPhase::AwaitRecord, PayoutEvent::Recorded) => {
                let n = pass.pending.len();
                assert(pass.next < n);
                pass.next = pass.next + 1;
                if pass.next < pass.pending.len() {
                    pass.phase = PayoutPhase::AwaitCreation;
                    PayoutAction::LookupIdentity(pass.pending[pass.next].name_id.clone_exact())
                } else {
                    pass.phase = PayoutPhase::Finished;
                    PayoutAction::Done
                }
            },
            _ => {
                pass.phase = PayoutPhase::Finished;
                PayoutAction::Done
            },
        }
    }
}

impl PayoutPhase {
    /// A copy of the phase.
    pub fn clone_exact(&self) -> (r: PayoutPhase)
        ensures
            r == *self,
    {
        match self {
            PayoutPhase::AwaitCreation => PayoutPhase::AwaitCreation,
            PayoutPhase::AwaitOperation => PayoutPhase::AwaitOperation,
            PayoutPhase::Polling(o) => PayoutPhase::Polling(o.clone()),
            PayoutPhase::AwaitRecord => PayoutPhase::AwaitRecord,
            PayoutPhase::Finished => PayoutPhase::Finished,
        }
    }
}

} // verus!

verus! {

/// No output of these transactions names this referral identity.
pub open spec fn no_match(txs: Seq<Transaction>, referral_id: Seq<char>) -> bool {
    forall|i: int, j: int|
        0 <= i < txs.len() && 0 <= j < txs[i].vout@.len() ==> !vout_matches(
            #[trigger] txs[i].vout@[j],
            referral_id,
        )
}

/// Every output of these transactions that names this referral identity has its
/// record among these rows.
pub open spec fn covered(rows: Seq<CashbackView>, txs: Seq<Transaction>, chain: Seq<char>, referral_id: Seq<char>) -> bool {
    forall|i: int, j: int|
        0 <= i < txs.len() && 0 <= j < txs[i].vout@.len() && vout_matches(
            #[trigger] txs[i].vout@[j],
            referral_id,
        ) ==> contains_key(rows, chain, txs[i].vout@[j].identity_reservation.unwrap().nameid@)
}

/// Every output here that names this referral identity has its record among these rows.
pub open spec fn vouts_covered(rows: Seq<CashbackView>, vs: Seq<TransactionVout>, chain: Seq<char>, referral_id: Seq<char>) -> bool {
    forall|j: int|
        0 <= j < vs.len() && vout_matches(#[trigger] vs[j], referral_id) ==> contains_key(
            rows,
            chain,
            vs[j].identity_reservation.unwrap().nameid@,
        )
}

/// Looking at one output only ever adds records.
proof fn lemma_step_keeps(state: (Seq<CashbackView>, Seq<NotificationView>), v: TransactionVout, chain: Seq<char>, referral_id: Seq<char>, c: Seq<char>, n: Seq<char>)
    requires
        contains_key(state.0, c, n),
    ensures
        contains_key(scan_step(state, v, chain, referral_id).0, c, n),
{
    let i = choose|i: int| 0 <= i < state.0.len() && has_key(state.0[i], c, n);
    let after = scan_step(state, v, chain, referral_id).0;
    assert(after[i] == state.0[i]);
}

/// Detection only ever adds records.
proof fn lemma_scan_keeps(state: (Seq<CashbackView>, Seq<NotificationView>), vs: Seq<TransactionVout>, chain: Seq<char>, referral_id: Seq<char>, c: Seq<char>, n: Seq<char>)
    requires
        contains_key(state.0, c, n),
    ensures
        contains_key(scan(state, vs, chain, referral_id).0, c, n),
    decreases vs.len(),
{
    if vs.len() > 0 {
        lemma_scan_keeps(state, vs.drop_last(), chain, referral_id, c, n);
        lemma_step_keeps(scan(state, vs.drop_last(), chain, referral_id), vs.last(), chain, referral_id, c, n);
    }
}

/// After detection, every matching output has its record.
proof fn lemma_scan_covers(state: (Seq<CashbackView>, Seq<NotificationView>), vs: Seq<TransactionVout>, chain: Seq<char>, referral_id: Seq<char>)
    ensures
        vouts_covered(scan(state, vs, chain, referral_id).0, vs, chain, referral_id),
    decreases vs.len(),
{
    if vs.len() > 0 {
        let pre = vs.drop_last();
        lemma_scan_covers(state, pre, chain, referral_id);
        let mid = scan(state, pre, chain, referral_id);
        let after = scan(state, vs, chain, referral_id).0;
        assert forall|j: int| 0 <= j < vs.len() && vout_matches(#[trigger] vs[j], referral_id) implies contains_key(
            after,
            chain,
            vs[j].identity_reservation.unwrap().nameid@,
        ) by {
            let n = vs[j].identity_reservation.unwrap().nameid@;
            if j < vs.len() - 1 {
                assert(pre[j] == vs[j]);
                lemma_step_keeps(mid, vs.last(), chain, referral_id, chain, n);
            } else {
                assert(vs.last() == vs[j]);
                if !contains_key(mid.0, chain, n) {
                    let name = vs[j].identity_reservation.unwrap().name@;
                    let k = mid.0.len() as int;
                    assert(has_key(stored(mid.0, chain, n, name)[k], chain, n));
                }
            }
        }
    }
}

/// Detection over outputs whose records all exist changes nothing.
proof fn lemma_scan_stable(state: (Seq<CashbackView>, Seq<NotificationView>), vs: Seq<TransactionVout>, chain: Seq<char>, referral_id: Seq<char>)
    requires
        vouts_covered(state.0, vs, chain, referral_id),
    ensures
        scan(state, vs, chain, referral_id) == state,
    decreases vs.len(),
{
    if vs.len() > 0 {
        let pre = vs.drop_last();
        assert forall|j: int| 0 <= j < pre.len() && vout_matches(#[trigger] pre[j], referral_id) implies contains_key(
            state.0,
            chain,
            pre[j].identity_reservation.unwrap().nameid@,
        ) by {
            assert(pre[j] == vs[j]);
        }
        lemma_scan_stable(state, pre, chain, referral_id);
        assert(vs.last() == vs[vs.len() - 1]);
    }
}

/// Detection over whole transactions only ever adds records.
proof fn lemma_scan_txs_keeps(state: (Seq<CashbackView>, Seq<NotificationView>), txs: Seq<Transaction>, chain: Seq<char>, referral_id: Seq<char>, c: Seq<char>, n: Seq<char>)
    requires
        contains_key(state.0, c, n),
    ensures
        contains_key(scan_txs(state, txs, chain, referral_id).0, c, n),
    decreases txs.len(),
{
    if txs.len() > 0 {
        lemma_scan_txs_keeps(state, txs.drop_last(), chain, referral_id, c, n);
        lemma_scan_keeps(scan_txs(state, txs.drop_last(), chain, referral_id), txs.last().vout@, chain, referral_id, c, n);
    }
}

/// After detection over whole transactions, every matching output has its record.
proof fn lemma_scan_txs_covers(state: (Seq<CashbackView>, Seq<NotificationView>), txs: Seq<Transaction>, chain: Seq<char>, referral_id: Seq<char>)
    ensures
        covered(scan_txs(state, txs, chain, referral_id).0, txs, chain, referral_id),
    decreases txs.len(),
{
    if txs.len() > 0 {
        let pre = txs.drop_last();
        lemma_scan_txs_covers(state, pre, chain, referral_id);
        let mid = scan_txs(state, pre, chain, referral_id);
        let vs = txs.last().vout@;
        lemma_scan_covers(mid, vs, chain, referral_id);
        let after = scan_txs(state, txs, chain, referral_id).0;
        assert forall|i: int, j: int|
            0 <= i < txs.len() && 0 <= j < txs[i].vout@.len() && vout_matches(
                #[trigger] txs[i].vout@[j],
                referral_id,
            ) implies contains_key(after, chain, txs[i].vout@[j].identity_reservation.unwrap().nameid@) by {
            if i < txs.len() - 1 {
                assert(pre[i] == txs[i]);
                assert(pre[i].vout@[j] == txs[i].vout@[j]);
                lemma_scan_keeps(mid, vs, chain, referral_id, chain, txs[i].vout@[j].identity_reservation.unwrap().nameid@);
            } else {
                assert(vs[j] == txs[i].vout@[j]);
            }
        }
    }
}

/// Detection over transactions whose records all exist changes nothing.
proof fn lemma_scan_txs_stable(state: (Seq<CashbackView>, Seq<NotificationView>), txs: Seq<Transaction>, chain: Seq<char>, referral_id: Seq<char>)
    requires
        covered(state.0, txs, chain, referral_id),
    ensures
        scan_txs(state, txs, chain, referral_id) == state,
    decreases txs.len(),
{
    if txs.len() > 0 {
        let pre = txs.drop_last();
        assert forall|i: int, j: int|
            0 <= i < pre.len() && 0 <= j < pre[i].vout@.len() && vout_matches(
                #[trigger] pre[i].vout@[j],
                referral_id,
            ) implies contains_key(state.0, chain, pre[i].vout@[j].identity_reservation.unwrap().nameid@) by {
            assert(pre[i] == txs[i]);
        }
        lemma_scan_txs_stable(state, pre, chain, referral_id);
        let vs = txs.last().vout@;
        assert forall|j: int| 0 <= j < vs.len() && vout_matches(#[trigger] vs[j], referral_id) implies contains_key(
            state.0,
            chain,
            vs[j].identity_reservation.unwrap().nameid@,
        ) by {
            assert(txs[txs.len() - 1].vout@[j] == vs[j]);
        }
        lemma_scan_stable(state, vs, chain, referral_id);
    }
}

/// A block in which no output names the referral identity creates no record and
/// no notification.
pub proof fn lemma_no_match_no_effect(rows: Seq<CashbackView>, txs: Seq<Transaction>, chain: Seq<char>, referral_id: Seq<char>)
    requires
        no_match(txs, referral_id),
    ensures
        scan_txs((rows, Seq::empty()), txs, chain, referral_id) == (rows, Seq::<NotificationView>::empty()),
{
    lemma_scan_txs_stable((rows, Seq::empty()), txs, chain, referral_id);
}

/// Detection gives every matching output exactly one record, keyed by chain and
/// identity, and processing the same block again creates no record and no
/// notification.
pub proof fn lemma_detection_idempotent(rows: Seq<CashbackView>, txs: Seq<Transaction>, chain: Seq<char>, referral_id: Seq<char>)
    ensures
        ({
            let once = scan_txs((rows, Seq::empty()), txs, chain, referral_id);
            &&& covered(once.0, txs, chain, referral_id)
            &&& scan_txs((once.0, Seq::empty()), txs, chain, referral_id) == (once.0, Seq::<NotificationView>::empty())
        }),
{
    lemma_scan_txs_covers((rows, Seq::empty()), txs, chain, referral_id);
    let once = scan_txs((rows, Seq::empty()), txs, chain, referral_id);
    lemma_scan_txs_stable((once.0, Seq::empty()), txs, chain, referral_id);
}

/// A registration is paid from its tenth confirmation on, and never before.
pub proof fn lemma_confirmation_gate(current: u64, creation: u64)
    ensures
        current - creation < 10 ==> !confirmed(current, creation),
        current - creation == 10 ==> confirmed(current, creation),
{
}

/// The two payout outputs together pay the reward less the network overhead.
pub proof fn lemma_payout_total(fee: u64, referral_amount: u64)
    requires
        economics_ok(fee, referral_amount),
    ensures
        (referral_amount - fee) + (fee - NETWORK_FEE_DEDUCTION) == referral_amount - NETWORK_FEE_DEDUCTION,
{
}

} // verus!
