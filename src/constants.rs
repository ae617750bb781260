//! The pending cashback record.

use crate::ids::{Address, Txid};
use vstd::prelude::*;

verus! {

/// What a cashback record says, as plain text.
pub ghost struct CashbackView {
    pub currency_id: Seq<char>,
    pub name_id: Seq<char>,
    pub name: Seq<char>,
    pub txid: Option<Seq<char>>,
}

/// One detected referral: the chain, the new identity, its name, and the payout
/// transaction once there is one.
#[derive(Debug, Clone)]
pub struct Cashback {
    pub currency_id: Address,
    pub name_id: Address,
    pub name: String,
    pub txid: Option<Txid>,
}

pub open spec fn txid_view(t: Option<Txid>) -> Option<Seq<char>> {
    match t {
        Some(t) => Some(t@),
        None => None,
    }
}

impl Cashback {
    pub open spec fn view(&self) -> CashbackView {
        CashbackView {
            currency_id: self.currency_id@,
            name_id: self.name_id@,
            name: self.name@,
            txid: txid_view(self.txid),
        }
    }

    /// A copy of the record.
    pub fn duplicate(&self) -> (r: Cashback)
        ensures
            r@ == self@,
    {
        let txid = match &self.txid {
            Some(t) => Some(Txid { text: t.text.clone() }),
            None => None,
        };
        Cashback {
            currency_id: Address { text: self.currency_id.text.clone() },
            name_id: Address { text: self.name_id.text.clone() },
            name: self.name.clone(),
            txid,
        }
    }
}

} // verus!
