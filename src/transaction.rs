//! The parts of a transaction and the serialization of its scripts and
//! outputs.

use vstd::prelude::*;

use crate::encode::{compact_size, push_bytes, push_compact_size, push_u64_le, u64_le};

verus! {

/// A reference to an output of an earlier transaction.
#[derive(Clone, Copy, Debug, PartialEq, Eq, Hash)]
pub struct OutPoint {
    pub txid: [u8; 32],
    pub vout: u32,
}

/// A transaction input.
#[derive(Clone, Debug, PartialEq, Eq, Hash)]
pub struct TxIn {
    pub previous_output: OutPoint,
    /// The unlocking script; may be empty.
    pub script_sig: Vec<u8>,
    pub sequence: u32,
    pub witness: Vec<Vec<u8>>,
}

/// A transaction output: an amount in satoshis and a locking script.
#[derive(Clone, Debug, PartialEq, Eq, Hash)]
pub struct TxOut {
    pub value: u64,
    pub script_pubkey: Vec<u8>,
}

/// A transaction.
#[derive(Clone, Debug, PartialEq, Eq, Hash)]
pub struct Transaction {
    pub version: i32,
    pub lock_time: u32,
    pub input: Vec<TxIn>,
    pub output: Vec<TxOut>,
}

/// A script as serialized: its length as a compact size, then its bytes.
pub open spec fn script_enc(s: Seq<u8>) -> Seq<u8> {
    compact_size(s.len() as u64) + s
}

/// An output as serialized: the value in eight little-endian bytes, then
/// the serialized locking script.
pub open spec fn txout_enc(o: TxOut) -> Seq<u8> {
    u64_le(o.value) + script_enc(o.script_pubkey@)
}

/// Appends the serialization of the script `s` to `buf`.
pub fn push_script(buf: &mut Vec<u8>, s: &Vec<u8>)
    ensures
        final(buf)@ == old(buf)@ + script_enc(s@),
{
    push_compact_size(buf, s.len() as u64);
    push_bytes(buf, s.as_slice());
    assert(buf@ =~= old(buf)@ + script_enc(s@));
}

impl TxOut {
    /// Appends the serialization of this output to `buf`.
    pub fn consensus_encode(&self, buf: &mut Vec<u8>)
        ensures
            final(buf)@ == old(buf)@ + txout_enc(*self),
    {
        push_u64_le(buf, self.value);
        push_script(buf, &self.script_pubkey);
        assert(buf@ =~= old(buf)@ + txout_enc(*self));
    }
}

} // verus!
