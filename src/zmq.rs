//! Decoding of new-block notifications from the block feed.

use crate::ids::{BlockHash, block_hash_text};
use vstd::prelude::*;

verus! {

/// A notification of the block feed.
#[derive(Debug, Clone)]
pub enum ZMQMessage {
    NewBlock(BlockHash),
}

/// The lower-case hex digits, by value.
pub open spec fn hex_digits() -> Seq<char> {
    seq!['0', '1', '2', '3', '4', '5', '6', '7', '8', '9', 'a', 'b', 'c', 'd', 'e', 'f']
}

/// Two lower-case hex digits per byte, high digit first.
pub open spec fn hex_of(bytes: Seq<u8>) -> Seq<char>
    decreases bytes.len(),
{
    if bytes.len() == 0 {
        Seq::empty()
    } else {
        let b = bytes.last();
        hex_of(bytes.drop_last()).push(hex_digits()[b as int / 16]).push(hex_digits()[b as int % 16])
    }
}

/// The hex digit of a value below 16.
fn hex_digit(n: u8) -> (c: char)
    requires
        n < 16,
    ensures
        c == hex_digits()[n as int],
{
    let table: [char; 16] = ['0', '1', '2', '3', '4', '5', '6', '7', '8', '9', 'a', 'b', 'c', 'd', 'e', 'f'];
    assert(table@ =~= hex_digits());
    table[n as usize]
}

/// The bytes written as lower-case hex, two digits per byte.
pub fn hex_encode(bytes: &[u8]) -> (r: Vec<char>)
    ensures
        r@ == hex_of(bytes@),
{
    let mut out: Vec<char> = Vec::new();
    let mut i: usize = 0;
    while i < bytes.len()
        invariant
            i <= bytes@.len(),
            out@ == hex_of(bytes@.take(i as int)),
        decreases bytes@.len() - i,
    {
        let b = bytes[i];
        assert(bytes@.take(i as int + 1).drop_last() =~= bytes@.take(i as int));
        out.push(hex_digit(b / 16));
        out.push(hex_digit(b % 16));
        i = i + 1;
    }
    assert(bytes@.take(i as int) =~= bytes@);
    out
}

/// The block hash a feed message carries: its second frame, hex-encoded, read as
/// a block hash. `None` for a message with fewer than two frames or whose second
/// frame is no block hash.
pub fn decode_block_message(frames: &Vec<Vec<u8>>) -> (r: Option<ZMQMessage>)
    ensures
        r is None <==> (frames@.len() < 2 || block_hash_text(hex_of(frames@[1]@)) is None),
        r matches Some(ZMQMessage::NewBlock(h)) ==> block_hash_text(hex_of(frames@[1]@)) == Some(h@),
{
    if frames.len() < 2 {
        return None;
    }
    let text = hex_encode(frames[1].as_slice());
    match BlockHash::parse_chars(&text) {
        Some(h) => Some(ZMQMessage::NewBlock(h)),
        None => None,
    }
}

} // verus!
