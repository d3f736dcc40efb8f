//! The BIP-119 default template hash.

use vstd::prelude::*;

use crate::digest::{sha256, sha256_of};
use crate::encode::{push_bytes, push_u32_le, u32_le};
use crate::hex::{digest_from_hex, digest_to_hex, hex_decode, hex_lower, is_hex_of_len};
use crate::transaction::{push_script, script_enc, txout_enc, Transaction, TxIn, TxOut};

verus! {

/// Whether some input has a non-empty unlocking script.
pub open spec fn has_script_sig(ins: Seq<TxIn>) -> bool {
    exists|i: int| 0 <= i < ins.len() && (#[trigger] ins[i]).script_sig@.len() > 0
}

/// The serialized unlocking scripts of the inputs, one after another.
pub open spec fn script_sigs_enc(ins: Seq<TxIn>) -> Seq<u8>
    decreases ins.len(),
{
    if ins.len() == 0 {
        Seq::empty()
    } else {
        script_sigs_enc(ins.drop_last()) + script_enc(ins.last().script_sig@)
    }
}

/// The sequence numbers of the inputs, four little-endian bytes each.
pub open spec fn sequences_enc(ins: Seq<TxIn>) -> Seq<u8>
    decreases ins.len(),
{
    if ins.len() == 0 {
        Seq::empty()
    } else {
        sequences_enc(ins.drop_last()) + u32_le(ins.last().sequence)
    }
}

/// The serialized outputs, one after another.
pub open spec fn outputs_enc(outs: Seq<TxOut>) -> Seq<u8>
    decreases outs.len(),
{
    if outs.len() == 0 {
        Seq::empty()
    } else {
        outputs_enc(outs.drop_last()) + txout_enc(outs.last())
    }
}

/// The commitment to the unlocking scripts: the digest of their
/// serialization where some script is non-empty, and nothing otherwise.
pub open spec fn script_sigs_commitment(ins: Seq<TxIn>) -> Seq<u8> {
    if has_script_sig(ins) {
        sha256_of(script_sigs_enc(ins))@
    } else {
        Seq::empty()
    }
}

/// The bytes whose SHA-256 digest is the default template hash of `tx`
/// spent at input `input_index`. Counts are taken modulo 2^32.
pub open spec fn ctv_preimage(tx: Transaction, input_index: u32) -> Seq<u8> {
    u32_le(tx.version as u32)
        + u32_le(tx.lock_time)
        + script_sigs_commitment(tx.input@)
        + u32_le(tx.input@.len() as u32)
        + sha256_of(sequences_enc(tx.input@))@
        + u32_le(tx.output@.len() as u32)
        + sha256_of(outputs_enc(tx.output@))@
        + u32_le(input_index)
}

/// The default template hash of `tx` spent at input `input_index`.
pub open spec fn ctv_hash(tx: Transaction, input_index: u32) -> [u8; 32] {
    sha256_of(ctv_preimage(tx, input_index))
}

/// Whether some input has a non-empty unlocking script.
fn any_script_sig(ins: &Vec<TxIn>) -> (r: bool)
    ensures
        r == has_script_sig(ins@),
{
    let mut i: usize = 0;
    while i < ins.len()
        invariant
            i <= ins@.len(),
            forall|j: int| 0 <= j < i ==> (#[trigger] ins@[j]).script_sig@.len() == 0,
        decreases ins@.len() - i,
    {
        if ins[i].script_sig.len() != 0 {
            assert(ins@[i as int].script_sig@.len() > 0);
            return true;
        }
        i = i + 1;
    }
    false
}

/// The serialized unlocking scripts of `ins`.
fn encode_script_sigs(ins: &Vec<TxIn>) -> (r: Vec<u8>)
    ensures
        r@ == script_sigs_enc(ins@),
{
    let mut buf: Vec<u8> = Vec::new();
    let mut i: usize = 0;
    while i < ins.len()
        invariant
            i <= ins@.len(),
            buf@ == script_sigs_enc(ins@.subrange(0, i as int)),
        decreases ins@.len() - i,
    {
        assert(ins@.subrange(0, i + 1).drop_last() =~= ins@.subrange(0, i as int));
        push_script(&mut buf, &ins[i].script_sig);
        i = i + 1;
    }
    assert(ins@.subrange(0, ins@.len() as int) =~= ins@);
    buf
}

/// The sequence numbers of `ins`, serialized.
fn encode_sequences(ins: &Vec<TxIn>) -> (r: Vec<u8>)
    ensures
        r@ == sequences_enc(ins@),
{
    let mut buf: Vec<u8> = Vec::new();
    let mut i: usize = 0;
    while i < ins.len()
        invariant
            i <= ins@.len(),
            buf@ == sequences_enc(ins@.subrange(0, i as int)),
        decreases ins@.len() - i,
    {
        assert(ins@.subrange(0, i + 1).drop_last() =~= ins@.subrange(0, i as int));
        push_u32_le(&mut buf, ins[i].sequence);
        i = i + 1;
    }
    assert(ins@.subrange(0, ins@.len() as int) =~= ins@);
    buf
}

/// The serialized outputs `outs`.
fn encode_outputs(outs: &Vec<TxOut>) -> (r: Vec<u8>)
    ensures
        r@ == outputs_enc(outs@),
{
    let mut buf: Vec<u8> = Vec::new();
    let mut i: usize = 0;
    while i < outs.len()
        invariant
            i <= outs@.len(),
            buf@ == outputs_enc(outs@.subrange(0, i as int)),
        decreases outs@.len() - i,
    {
        assert(outs@.subrange(0, i + 1).drop_last() =~= outs@.subrange(0, i as int));
        outs[i].consensus_encode(&mut buf);
        i = i + 1;
    }
    assert(outs@.subrange(0, outs@.len() as int) =~= outs@);
    buf
}

/// The bytes whose digest is the default template hash of `transaction`
/// spent at input `input_index`.
pub fn template_preimage(transaction: &Transaction, input_index: u32) -> (r: Vec<u8>)
    ensures
        r@ == ctv_preimage(*transaction, input_index),
{
    let mut buf: Vec<u8> = Vec::new();
    push_u32_le(&mut buf, transaction.version as u32);
    push_u32_le(&mut buf, transaction.lock_time);
    let ghost head = buf@;
    if any_script_sig(&transaction.input) {
        let script_sigs = encode_script_sigs(&transaction.input);
        let d = sha256(script_sigs.as_slice());
        push_bytes(&mut buf, d.as_slice());
    }
    assert(buf@ == head + script_sigs_commitment(transaction.input@));
    push_u32_le(&mut buf, transaction.input.len() as u32);
    let sequences = encode_sequences(&transaction.input);
    let d = sha256(sequences.as_slice());
    push_bytes(&mut buf, d.as_slice());
    push_u32_le(&mut buf, transaction.output.len() as u32);
    let outputs = encode_outputs(&transaction.output);
    let d = sha256(outputs.as_slice());
    push_bytes(&mut buf, d.as_slice());
    push_u32_le(&mut buf, input_index);
    assert(buf@ =~= ctv_preimage(*transaction, input_index));
    buf
}

/// The default CHECKTEMPLATEVERIFY hash of a transaction: 32 bytes.
#[derive(Clone, Copy, Debug, PartialEq, Eq, PartialOrd, Ord, Hash)]
pub struct DefaultCheckTemplateVerifyHash([u8; 32]);

impl View for DefaultCheckTemplateVerifyHash {
    type V = Seq<u8>;

    closed spec fn view(&self) -> Seq<u8> {
        self.0@
    }
}

/// Why bytes could not be read as a hash.
#[derive(Clone, Copy, Debug, PartialEq, Eq)]
pub enum DecodeError {
    /// Fewer than 32 bytes were given.
    UnexpectedEof,
}

/// Why text could not be read as a hash.
#[derive(Clone, Copy, Debug, PartialEq, Eq)]
pub enum HexError {
    /// The text is not exactly 64 hexadecimal digits.
    InvalidHex,
}

impl DefaultCheckTemplateVerifyHash {
    /// A hash is 32 bytes.
    pub proof fn lemma_len(&self)
        ensures
            self@.len() == 32,
    {
    }

    /// Calculates the BIP-119 default template hash of `transaction` spent
    /// at input `input_index`. The index is not checked against the inputs.
    pub fn new(transaction: &Transaction, input_index: u32) -> (r: Self)
        ensures
            r@ == ctv_hash(*transaction, input_index)@,
    {
        let preimage = template_preimage(transaction, input_index);
        DefaultCheckTemplateVerifyHash(sha256(preimage.as_slice()))
    }

    /// The hash holding the given bytes.
    pub fn from_byte_array(bytes: [u8; 32]) -> (r: Self)
        ensures
            r@ == bytes@,
    {
        DefaultCheckTemplateVerifyHash(bytes)
    }

    /// The bytes of the hash.
    pub fn to_byte_array(self) -> (r: [u8; 32])
        ensures
            r@ == self@,
    {
        self.0
    }

    /// The bytes of the hash, borrowed.
    pub fn as_byte_array(&self) -> (r: &[u8; 32])
        ensures
            r@ == self@,
    {
        &self.0
    }

    /// Appends the 32 bytes of the hash to `w`, with no length prefix, and
    /// returns how many bytes were written.
    pub fn consensus_encode(&self, w: &mut Vec<u8>) -> (r: usize)
        ensures
            final(w)@ == old(w)@ + self@,
            r == 32,
    {
        push_bytes(w, self.0.as_slice());
        32
    }

    /// Reads a hash from the first 32 bytes of `r`.
    pub fn consensus_decode(r: &[u8]) -> (res: Result<Self, DecodeError>)
        ensures
            r@.len() < 32 ==> res == Err::<Self, DecodeError>(DecodeError::UnexpectedEof),
            r@.len() >= 32 ==> (res matches Ok(h) && h@ == r@.subrange(0, 32)),
    {
        if r.len() < 32 {
            return Err(DecodeError::UnexpectedEof);
        }
        let mut bytes: [u8; 32] = [0u8; 32];
        let mut i: usize = 0;
        while i < 32
            invariant
                i <= 32,
                r@.len() >= 32,
                forall|j: int| 0 <= j < i ==> bytes@[j] == r@[j],
            decreases 32 - i,
        {
            bytes[i] = r[i];
            i = i + 1;
        }
        assert(bytes@ =~= r@.subrange(0, 32));
        Ok(DefaultCheckTemplateVerifyHash(bytes))
    }

    /// The hash as 64 lowercase hexadecimal digits, in byte order.
    pub fn to_hex(&self) -> (r: String)
        ensures
            r@ == hex_lower(self@),
    {
        digest_to_hex(self.0)
    }

    /// Reads a hash from 64 hexadecimal digits of either case.
    pub fn from_hex(s: &str) -> (r: Result<Self, HexError>)
        ensures
            r is Ok <==> is_hex_of_len(s@, 64),
            r matches Ok(h) ==> h@ == hex_decode(s@),
    {
        match digest_from_hex(s) {
            Ok(b) => Ok(DefaultCheckTemplateVerifyHash(b)),
            Err(_) => Err(HexError::InvalidHex),
        }
    }
}

} // verus!
