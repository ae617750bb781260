//! Chain identifiers held as their canonical text.

use std::str::FromStr;
use vstd::prelude::*;

verus! {

/// Canonical text of the address that `s` parses to, if it parses.
pub uninterp spec fn address_text(s: Seq<char>) -> Option<Seq<char>>;

/// Canonical text of the transaction id that `s` parses to, if it parses.
pub uninterp spec fn txid_text(s: Seq<char>) -> Option<Seq<char>>;

/// Canonical text of the block hash that `s` parses to, if it parses.
pub uninterp spec fn block_hash_text(s: Seq<char>) -> Option<Seq<char>>;

/// A chain address (an identity, a currency), held as the canonical base58check
/// text of the parsed address. Two addresses are equal exactly when their texts are.
#[derive(Debug, Clone)]
pub struct Address {
    pub text: String,
}

/// A transaction id, held as its canonical hex text.
#[derive(Debug, Clone)]
pub struct Txid {
    pub text: String,
}

/// A block hash, held as its canonical hex text.
#[derive(Debug, Clone)]
pub struct BlockHash {
    pub text: String,
}

/// Relies on `vrsc::Address::from_str` and its `Display`: the canonical text of
/// the parsed address depends on the input text alone; inputs longer than 50
/// characters are refused before decoding.
#[verifier::external_body]
fn parse_address_text(s: &str) -> (r: Option<String>)
    ensures
        r matches Some(t) ==> address_text(s@) == Some(t@),
        r is None ==> address_text(s@) is None,
        s@.len() > 50 ==> r is None,
{
    vrsc_rpc::json::vrsc::Address::from_str(s).ok().map(|a| a.to_string())
}

/// Relies on `bitcoin::Txid::from_str` and its `Display`: 64 hex digits, else an error.
#[verifier::external_body]
fn parse_txid_text(s: &str) -> (r: Option<String>)
    ensures
        r matches Some(t) ==> txid_text(s@) == Some(t@),
        r is None ==> txid_text(s@) is None,
        s@.len() != 64 ==> r is None,
{
    vrsc_rpc::bitcoin::Txid::from_str(s).ok().map(|t| t.to_string())
}

/// Relies on `bitcoin::BlockHash::from_str` and its `Display`: 64 hex digits, else an error.
#[verifier::external_body]
fn parse_block_hash_chars(s: &Vec<char>) -> (r: Option<String>)
    ensures
        r matches Some(t) ==> block_hash_text(s@) == Some(t@),
        r is None ==> block_hash_text(s@) is None,
        s@.len() != 64 ==> r is None,
{
    let text: String = s.iter().collect();
    vrsc_rpc::bitcoin::BlockHash::from_str(&text).ok().map(|h| h.to_string())
}

impl Address {
    pub open spec fn view(&self) -> Seq<char> {
        self.text@
    }

    /// Parses an address; `None` where the text is no valid address.
    pub fn parse(s: &str) -> (r: Option<Address>)
        ensures
            r matches Some(a) ==> address_text(s@) == Some(a@),
            r is None <==> address_text(s@) is None,
    {
        match parse_address_text(s) {
            Some(t) => Some(Address { text: t }),
            None => None,
        }
    }

    /// Whether two addresses are the same address.
    pub fn same(&self, other: &Address) -> (r: bool)
        ensures
            r == (self@ == other@),
    {
        self.text == other.text
    }

    /// A copy of the address.
    pub fn clone_exact(&self) -> (r: Address)
        ensures
            r@ == self@,
    {
        Address { text: self.text.clone() }
    }
}

impl Txid {
    pub open spec fn view(&self) -> Seq<char> {
        self.text@
    }

    /// Parses a transaction id; `None` where the text is no valid id.
    pub fn parse(s: &str) -> (r: Option<Txid>)
        ensures
            r matches Some(t) ==> txid_text(s@) == Some(t@),
            r is None <==> txid_text(s@) is None,
    {
        match parse_txid_text(s) {
            Some(t) => Some(Txid { text: t }),
            None => None,
        }
    }
}

impl BlockHash {
    pub open spec fn view(&self) -> Seq<char> {
        self.text@
    }

    /// Parses a block hash from its characters; `None` where they are no valid hash.
    pub fn parse_chars(s: &Vec<char>) -> (r: Option<BlockHash>)
        ensures
            r matches Some(h) ==> block_hash_text(s@) == Some(h@),
            r is None <==> block_hash_text(s@) is None,
    {
        match parse_block_hash_chars(s) {
            Some(t) => Some(BlockHash { text: t }),
            None => None,
        }
    }
}

} // verus!
