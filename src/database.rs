//! The store of cashback records: one record per chain and identity, created
//! unresolved, resolved at most once, never removed.

use crate::constants::{Cashback, CashbackView, txid_view};
use crate::ids::{Address, Txid, address_text, txid_text};
use vstd::prelude::*;

verus! {

/// A record as the database row holds it: every field as text.
#[derive(Debug)]
pub struct DbCashback {
    pub currency_id: String,
    pub name_id: String,
    pub name_str: String,
    pub txid: Option<String>,
}

/// Which field of a row did not decode.
#[derive(Debug, Clone, Copy, PartialEq, Eq)]
pub enum DecodeError {
    CurrencyId,
    NameId,
    Txid,
}

/// The row's transaction id text parses, or there is none.
pub open spec fn txid_decodes(t: Option<String>) -> bool {
    match t {
        Some(s) => txid_text(s@) is Some,
        None => true,
    }
}

impl DbCashback {
    /// Decodes a row into a record: the addresses and the transaction id must parse.
    pub fn into_cashback(self) -> (r: Result<Cashback, DecodeError>)
        ensures
            r == Err::<Cashback, DecodeError>(DecodeError::CurrencyId) <==> address_text(
                self.currency_id@,
            ) is None,
            r == Err::<Cashback, DecodeError>(DecodeError::NameId) <==> (address_text(
                self.currency_id@,
            ) is Some && address_text(self.name_id@) is None),
            r == Err::<Cashback, DecodeError>(DecodeError::Txid) <==> (address_text(
                self.currency_id@,
            ) is Some && address_text(self.name_id@) is Some && !txid_decodes(self.txid)),
            r matches Ok(c) ==> {
                &&& Some(c.currency_id@) == address_text(self.currency_id@)
                &&& Some(c.name_id@) == address_text(self.name_id@)
                &&& c.name@ == self.name_str@
                &&& c.txid is None <==> self.txid is None
                &&& forall|s: String|
                    self.txid == Some(s) ==> txid_view(c.txid) == txid_text(s@)
            },
    {
        let currency_id = match Address::parse(self.currency_id.as_str()) {
            Some(a) => a,
            None => return Err(DecodeError::CurrencyId),
        };
        let name_id = match Address::parse(self.name_id.as_str()) {
            Some(a) => a,
            None => return Err(DecodeError::NameId),
        };
        let txid = match &self.txid {
            Some(s) => match Txid::parse(s.as_str()) {
                Some(t) => Some(t),
                None => return Err(DecodeError::Txid),
            },
            None => None,
        };
        Ok(Cashback { currency_id, name_id, name: self.name_str, txid })
    }
}

/// The record is keyed by this chain and identity.
pub open spec fn has_key(r: CashbackView, currency_id: Seq<char>, name_id: Seq<char>) -> bool {
    r.currency_id == currency_id && r.name_id == name_id
}

/// Some record is keyed by this chain and identity.
pub open spec fn contains_key(rows: Seq<CashbackView>, currency_id: Seq<char>, name_id: Seq<char>) -> bool {
    exists|i: int| 0 <= i < rows.len() && has_key(#[trigger] rows[i], currency_id, name_id)
}

/// No two records share a chain and identity.
pub open spec fn keys_unique(rows: Seq<CashbackView>) -> bool {
    forall|i: int, j: int|
        0 <= i < j < rows.len() ==> !has_key(#[trigger] rows[i], rows[j].currency_id, #[trigger] rows[j].name_id)
}

/// The record awaits payout.
pub open spec fn is_pending(r: CashbackView) -> bool {
    r.txid is None
}

/// The records that await payout, in the store's order.
pub open spec fn pending_rows(rows: Seq<CashbackView>) -> Seq<CashbackView> {
    rows.filter(|r: CashbackView| is_pending(r))
}

/// The rows after a detection: a new unresolved record, unless one with this key exists.
pub open spec fn stored(rows: Seq<CashbackView>, currency_id: Seq<char>, name_id: Seq<char>, name: Seq<char>) -> Seq<CashbackView> {
    if contains_key(rows, currency_id, name_id) {
        rows
    } else {
        rows.push(CashbackView { currency_id, name_id, name, txid: None })
    }
}

/// The record after a payout: the transaction id is set if it was not yet.
pub open spec fn resolved(r: CashbackView, currency_id: Seq<char>, name_id: Seq<char>, txid: Seq<char>) -> CashbackView {
    if has_key(r, currency_id, name_id) && is_pending(r) {
        CashbackView { txid: Some(txid), ..r }
    } else {
        r
    }
}

/// The rows after a payout of the record with this key.
pub open spec fn updated(rows: Seq<CashbackView>, currency_id: Seq<char>, name_id: Seq<char>, txid: Seq<char>) -> Seq<CashbackView> {
    rows.map_values(|r: CashbackView| resolved(r, currency_id, name_id, txid))
}

/// The cashback records known to one worker, in the order they were created.
#[derive(Debug)]
pub struct Ledger {
    rows: Vec<Cashback>,
}

impl Ledger {
    pub closed spec fn view(&self) -> Seq<CashbackView> {
        self.rows@.map_values(|c: Cashback| c@)
    }

    pub open spec fn wf(&self) -> bool {
        keys_unique(self@)
    }

    /// An empty store.
    pub fn new() -> (r: Ledger)
        ensures
            r@ == Seq::<CashbackView>::empty(),
            r.wf(),
    {
        let r = Ledger { rows: Vec::new() };
        assert(r@ =~= Seq::<CashbackView>::empty());
        r
    }

    /// Number of records.
    pub fn len(&self) -> (r: usize)
        ensures
            r == self@.len(),
    {
        self.rows.len()
    }

    /// Index of the record with this key, if any.
    fn find(&self, currency_id: &Address, name_id: &Address) -> (r: Option<usize>)
        ensures
            r matches Some(i) ==> i < self@.len() && has_key(self@[i as int], currency_id@, name_id@),
            r is None ==> !contains_key(self@, currency_id@, name_id@),
    {
        let mut i: usize = 0;
        while i < self.rows.len()
            invariant
                i <= self.rows@.len(),
                self@.len() == self.rows@.len(),
                forall|k: int| 0 <= k < i ==> !has_key(#[trigger] self@[k], currency_id@, name_id@),
            decreases self.rows@.len() - i,
        {
            let row = &self.rows[i];
            assert(self@[i as int] == row@);
            if row.currency_id.same(currency_id) && row.name_id.same(name_id) {
                return Some(i);
            }
            i = i + 1;
        }
        None
    }
}

/// Records a detected referral as an unresolved cashback, unless the store already
/// holds a record for this chain and identity. Returns whether a record was added.
pub fn store_cashback(ledger: &mut Ledger, currency_id: &Address, name_id: &Address, name: &str) -> (r: bool)
    requires
        old(ledger).wf(),
    ensures
        final(ledger).wf(),
        final(ledger)@ == stored(old(ledger)@, currency_id@, name_id@, name@),
        r == !contains_key(old(ledger)@, currency_id@, name_id@),
{
    match ledger.find(currency_id, name_id) {
        Some(_) => false,
        None => {
            let row = Cashback {
                currency_id: Address { text: currency_id.text.clone() },
                name_id: Address { text: name_id.text.clone() },
                name: name.to_owned(),
                txid: None,
            };
            let ghost before = ledger@;
            ledger.rows.push(row);
            assert(ledger@ =~= before.push(row@));
            proof {
                let rows = ledger@;
                assert forall|i: int, j: int|
                    0 <= i < j < rows.len() implies !has_key(#[trigger] rows[i], rows[j].currency_id, #[trigger] rows[j].name_id) by {
                    if j == rows.len() - 1 {
                        assert(rows[i] == before[i]);
                    } else {
                        assert(rows[i] == before[i] && rows[j] == before[j]);
                    }
                }
            }
            true
        },
    }
}

/// Sets the payout transaction of the unresolved record with this key. A resolved
/// record keeps its transaction. Returns whether a record was resolved.
pub fn update_cashback(ledger: &mut Ledger, currency_id: &Address, name_id: &Address, txid: &Txid) -> (r: bool)
    requires
        old(ledger).wf(),
    ensures
        final(ledger).wf(),
        final(ledger)@ == updated(old(ledger)@, currency_id@, name_id@, txid@),
        r == exists|i: int|
            0 <= i < old(ledger)@.len() && has_key(#[trigger] old(ledger)@[i], currency_id@, name_id@)
                && is_pending(old(ledger)@[i]),
{
    let ghost before = ledger@;
    match ledger.find(currency_id, name_id) {
        Some(i) => {
            if ledger.rows[i].txid.is_none() {
                assert(ledger@[i as int] == ledger.rows@[i as int]@);
                let mut row = ledger.rows[i].duplicate();
                row.txid = Some(Txid { text: txid.text.clone() });
                ledger.rows.set(i, row);
                proof {
                    assert forall|k: int| 0 <= k < before.len() && k != i implies !has_key(#[trigger] before[k], currency_id@, name_id@) by {
                        if k < i {
                            assert(!has_key(before[k], before[i as int].currency_id, before[i as int].name_id));
                        } else {
                            assert(!has_key(before[i as int], before[k].currency_id, before[k].name_id));
                        }
                    }
                    assert(ledger@ =~= updated(before, currency_id@, name_id@, txid@));
                }
                true
            } else {
                proof {
                    assert forall|k: int| 0 <= k < before.len() && k != i implies !has_key(#[trigger] before[k], currency_id@, name_id@) by {
                        if k < i {
                            assert(!has_key(before[k], before[i as int].currency_id, before[i as int].name_id));
                        } else {
                            assert(!has_key(before[i as int], before[k].currency_id, before[k].name_id));
                        }
                    }
                    assert(ledger@ =~= updated(before, currency_id@, name_id@, txid@));
                }
                false
            }
        },
        None => {
            assert(ledger@ =~= updated(before, currency_id@, name_id@, txid@));
            false
        },
    }
}

/// The records that await payout, in the order they were created.
pub fn get_pending_cashbacks(ledger: &Ledger) -> (r: Vec<Cashback>)
    ensures
        r@.map_values(|c: Cashback| c@) == pending_rows(ledger@),
{
    let mut out: Vec<Cashback> = Vec::new();
    let mut i: usize = 0;
    while i < ledger.rows.len()
        invariant
            i <= ledger.rows@.len(),
            ledger@.len() == ledger.rows@.len(),
            out@.map_values(|c: Cashback| c@) == pending_rows(ledger@.take(i as int)),
        decreases ledger.rows@.len() - i,
    {
        let row = &ledger.rows[i];
        proof {
            assert(ledger@.take(i as int + 1) =~= ledger@.take(i as int).push(row@));
            ledger@.take(i as int).lemma_filter_push(row@, |r: CashbackView| is_pending(r));
        }
        if row.txid.is_none() {
            let c = row.duplicate();
            let ghost prev = out@;
            out.push(c);
            assert(out@.map_values(|c: Cashback| c@) =~= prev.map_values(|c: Cashback| c@).push(c@));
        }
        i = i + 1;
    }
    assert(ledger@.take(i as int) =~= ledger@);
    out
}

} // verus!

verus! {

/// Once a payout is recorded for a record, the record holds that transaction, no
/// record with its key awaits payout any more, and a later payout of the same key
/// changes nothing: the transaction is set exactly once.
pub proof fn lemma_payout_resolves_once(
    rows: Seq<CashbackView>,
    currency_id: Seq<char>,
    name_id: Seq<char>,
    txid: Seq<char>,
    later: Seq<char>,
    i: int,
)
    requires
        keys_unique(rows),
        0 <= i < rows.len(),
        has_key(rows[i], currency_id, name_id),
        is_pending(rows[i]),
    ensures
        ({
            let after = updated(rows, currency_id, name_id, txid);
            &&& after[i].txid == Some(txid)
            &&& keys_unique(after)
            &&& forall|k: int|
                0 <= k < pending_rows(after).len() ==> !has_key(
                    #[trigger] pending_rows(after)[k],
                    currency_id,
                    name_id,
                )
            &&& updated(after, currency_id, name_id, later) == after
        }),
{
    let after = updated(rows, currency_id, name_id, txid);
    let p = |r: CashbackView| is_pending(r);
    assert forall|k: int| 0 <= k < pending_rows(after).len() implies !has_key(
        #[trigger] pending_rows(after)[k],
        currency_id,
        name_id,
    ) by {
        let e = pending_rows(after)[k];
        after.lemma_filter_pred(p, k);
        assert(after.filter(p).contains(e));
        after.lemma_filter_contains_rev(p, e);
        let j = choose|j: int| 0 <= j < after.len() && after[j] == e;
        if has_key(e, currency_id, name_id) {
            if j != i {
                if j < i {
                    assert(!has_key(rows[j], rows[i].currency_id, rows[i].name_id));
                } else {
                    assert(!has_key(rows[i], rows[j].currency_id, rows[j].name_id));
                }
            }
        }
    }
    assert(updated(after, currency_id, name_id, later) =~= after);
}

/// A record that awaits payout is offered again by every later pass, for as long
/// as no payout is recorded for it.
pub proof fn lemma_unresolved_is_offered(rows: Seq<CashbackView>, i: int)
    requires
        0 <= i < rows.len(),
        is_pending(rows[i]),
    ensures
        pending_rows(rows).contains(rows[i]),
{
    rows.lemma_filter_contains(|r: CashbackView| is_pending(r), i);
}

} // verus!
