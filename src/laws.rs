//! What holds of the default template hash across transactions, indices
//! and encodings.

use vstd::prelude::*;

use crate::bip119::{
    ctv_hash, ctv_preimage, has_script_sig, outputs_enc, script_sigs_commitment, script_sigs_enc,
    sequences_enc, DefaultCheckTemplateVerifyHash,
};
use crate::digest::sha256_of;
use crate::encode::{compact_size, u32_le};
use crate::hex::{hex_decode, hex_lower, is_hex_of_len, lemma_hex_round_trip};
use crate::transaction::{Transaction, TxIn, TxOut};

verus! {

/// Whether two transactions agree on every field that the template hash
/// commits to: version, lock time, each input's unlocking script and
/// sequence number, and each output. Previous outputs and witnesses are
/// left out.
pub open spec fn same_committed_fields(t1: Transaction, t2: Transaction) -> bool {
    &&& t1.version == t2.version
    &&& t1.lock_time == t2.lock_time
    &&& t1.input@.len() == t2.input@.len()
    &&& forall|i: int|
        0 <= i < t1.input@.len() ==> (#[trigger] t1.input@[i]).script_sig@ == t2.input@[i].script_sig@
            && t1.input@[i].sequence == t2.input@[i].sequence
    &&& t1.output@.len() == t2.output@.len()
    &&& forall|i: int|
        0 <= i < t1.output@.len() ==> (#[trigger] t1.output@[i]).value == t2.output@[i].value
            && t1.output@[i].script_pubkey@ == t2.output@[i].script_pubkey@
}

proof fn lemma_inputs_enc_eq(a: Seq<TxIn>, b: Seq<TxIn>)
    requires
        a.len() == b.len(),
        forall|i: int|
            0 <= i < a.len() ==> (#[trigger] a[i]).script_sig@ == b[i].script_sig@ && a[i].sequence
                == b[i].sequence,
    ensures
        script_sigs_enc(a) == script_sigs_enc(b),
        sequences_enc(a) == sequences_enc(b),
        has_script_sig(a) == has_script_sig(b),
    decreases a.len(),
{
    if a.len() > 0 {
        assert(a.last() == a[a.len() - 1]);
        lemma_inputs_enc_eq(a.drop_last(), b.drop_last());
    }
    if has_script_sig(a) {
        let i = choose|i: int| 0 <= i < a.len() && (#[trigger] a[i]).script_sig@.len() > 0;
        assert(b[i].script_sig@.len() > 0);
    }
    if has_script_sig(b) {
        let i = choose|i: int| 0 <= i < b.len() && (#[trigger] b[i]).script_sig@.len() > 0;
        assert(a[i].script_sig@.len() > 0);
    }
}

proof fn lemma_outputs_enc_eq(a: Seq<TxOut>, b: Seq<TxOut>)
    requires
        a.len() == b.len(),
        forall|i: int|
            0 <= i < a.len() ==> (#[trigger] a[i]).value == b[i].value && a[i].script_pubkey@
                == b[i].script_pubkey@,
    ensures
        outputs_enc(a) == outputs_enc(b),
    decreases a.len(),
{
    if a.len() > 0 {
        assert(a.last() == a[a.len() - 1]);
        lemma_outputs_enc_eq(a.drop_last(), b.drop_last());
    }
}

/// The template hash is a function of the committed fields and the index
/// alone: the same transaction and index always give the same hash, and
/// so do two transactions that differ only in previous outputs or
/// witnesses.
pub proof fn lemma_hash_depends_only_on_committed_fields(
    t1: Transaction,
    t2: Transaction,
    input_index: u32,
)
    requires
        same_committed_fields(t1, t2),
    ensures
        ctv_preimage(t1, input_index) == ctv_preimage(t2, input_index),
        ctv_hash(t1, input_index) == ctv_hash(t2, input_index),
{
    lemma_inputs_enc_eq(t1.input@, t2.input@);
    lemma_outputs_enc_eq(t1.output@, t2.output@);
}

/// The preimage ends with the little-endian input index.
proof fn lemma_preimage_ends_with_index(tx: Transaction, input_index: u32)
    ensures
        ({
            let p = ctv_preimage(tx, input_index);
            p.len() >= 4 && p.subrange(p.len() - 4, p.len() as int) == u32_le(input_index)
        }),
{
    let p = ctv_preimage(tx, input_index);
    assert(p.subrange(p.len() - 4, p.len() as int) =~= u32_le(input_index));
}

proof fn lemma_u32_le_injective(x: u32, y: u32)
    requires
        u32_le(x) == u32_le(y),
    ensures
        x == y,
{
    assert(u32_le(x)[0] == u32_le(y)[0]);
    assert(u32_le(x)[1] == u32_le(y)[1]);
    assert(u32_le(x)[2] == u32_le(y)[2]);
    assert(u32_le(x)[3] == u32_le(y)[3]);
    assert(x == y) by (bit_vector)
        requires
            (x & 0xff) as u8 == (y & 0xff) as u8,
            ((x >> 8u32) & 0xff) as u8 == ((y >> 8u32) & 0xff) as u8,
            ((x >> 16u32) & 0xff) as u8 == ((y >> 16u32) & 0xff) as u8,
            ((x >> 24u32) & 0xff) as u8 == ((y >> 24u32) & 0xff) as u8,
    ;
}

/// Two different input indices give two different preimages for the same
/// transaction: the index is committed to.
pub proof fn lemma_index_committed(tx: Transaction, i: u32, j: u32)
    requires
        i != j,
    ensures
        ctv_preimage(tx, i) != ctv_preimage(tx, j),
{
    lemma_preimage_ends_with_index(tx, i);
    lemma_preimage_ends_with_index(tx, j);
    if ctv_preimage(tx, i) == ctv_preimage(tx, j) {
        lemma_u32_le_injective(i, j);
    }
}

/// Where no input has an unlocking script, the scripts are left out of the
/// preimage altogether, which is then 84 bytes long.
pub proof fn lemma_empty_script_sigs_omitted(tx: Transaction, input_index: u32)
    requires
        forall|i: int| 0 <= i < tx.input@.len() ==> (#[trigger] tx.input@[i]).script_sig@.len() == 0,
    ensures
        !has_script_sig(tx.input@),
        ctv_preimage(tx, input_index) == u32_le(tx.version as u32) + u32_le(tx.lock_time) + u32_le(
            tx.input@.len() as u32,
        ) + sha256_of(sequences_enc(tx.input@))@ + u32_le(tx.output@.len() as u32) + sha256_of(
            outputs_enc(tx.output@),
        )@ + u32_le(input_index),
        ctv_preimage(tx, input_index).len() == 84,
{
    assert(script_sigs_commitment(tx.input@) =~= Seq::<u8>::empty());
    assert(ctv_preimage(tx, input_index) =~= u32_le(tx.version as u32) + u32_le(tx.lock_time)
        + u32_le(tx.input@.len() as u32) + sha256_of(sequences_enc(tx.input@))@ + u32_le(
        tx.output@.len() as u32,
    ) + sha256_of(outputs_enc(tx.output@))@ + u32_le(input_index));
}

/// Where some input has an unlocking script, the preimage is 116 bytes long.
proof fn lemma_script_sigs_present_len(tx: Transaction, input_index: u32)
    requires
        has_script_sig(tx.input@),
    ensures
        ctv_preimage(tx, input_index).len() == 116,
{
}

/// Two transactions whose input counts differ (modulo 2^32) have different
/// preimages, whatever their unlocking scripts.
pub proof fn lemma_input_count_committed(t1: Transaction, t2: Transaction, input_index: u32)
    requires
        t1.input@.len() as u32 != t2.input@.len() as u32,
    ensures
        ctv_preimage(t1, input_index) != ctv_preimage(t2, input_index),
{
    let p1 = ctv_preimage(t1, input_index);
    let p2 = ctv_preimage(t2, input_index);
    let s1 = has_script_sig(t1.input@);
    let s2 = has_script_sig(t2.input@);
    if s1 {
        lemma_script_sigs_present_len(t1, input_index);
    } else {
        lemma_empty_script_sigs_omitted_len(t1, input_index);
    }
    if s2 {
        lemma_script_sigs_present_len(t2, input_index);
    } else {
        lemma_empty_script_sigs_omitted_len(t2, input_index);
    }
    if s1 == s2 && p1 == p2 {
        let at: int = if s1 { 40 } else { 8 };
        assert(p1.subrange(at, at + 4) =~= u32_le(t1.input@.len() as u32));
        assert(p2.subrange(at, at + 4) =~= u32_le(t2.input@.len() as u32));
        lemma_u32_le_injective(t1.input@.len() as u32, t2.input@.len() as u32);
    }
}

proof fn lemma_empty_script_sigs_omitted_len(tx: Transaction, input_index: u32)
    requires
        !has_script_sig(tx.input@),
    ensures
        ctv_preimage(tx, input_index).len() == 84,
{
}

proof fn lemma_script_sigs_enc_longer(a: Seq<TxIn>, b: Seq<TxIn>, k: int)
    requires
        a.len() == b.len(),
        0 <= k < a.len(),
        forall|i: int| 0 <= i < a.len() && i != k ==> (#[trigger] a[i]).script_sig@ == b[i].script_sig@,
        a[k].script_sig@.len() > 0,
        b[k].script_sig@.len() == 0,
    ensures
        script_sigs_enc(a).len() > script_sigs_enc(b).len(),
    decreases a.len(),
{
    let n = a.len() - 1;
    if k == n {
        assert forall|i: int| 0 <= i < a.drop_last().len() implies (#[trigger] a.drop_last()[i]).script_sig@
            == b.drop_last()[i].script_sig@ by {
            assert(a[i].script_sig@ == b[i].script_sig@);
        }
        lemma_script_sigs_enc_eq(a.drop_last(), b.drop_last());
        assert(compact_size(a[k].script_sig@.len() as u64).len() >= 1);
        assert(compact_size(0).len() == 1);
    } else {
        lemma_script_sigs_enc_longer(a.drop_last(), b.drop_last(), k);
        assert(a[n].script_sig@ == b[n].script_sig@);
    }
}

proof fn lemma_script_sigs_enc_eq(a: Seq<TxIn>, b: Seq<TxIn>)
    requires
        a.len() == b.len(),
        forall|i: int| 0 <= i < a.len() ==> (#[trigger] a[i]).script_sig@ == b[i].script_sig@,
    ensures
        script_sigs_enc(a) == script_sigs_enc(b),
    decreases a.len(),
{
    if a.len() > 0 {
        assert(a[a.len() - 1].script_sig@ == b[b.len() - 1].script_sig@);
        lemma_script_sigs_enc_eq(a.drop_last(), b.drop_last());
    }
}

/// Emptying one non-empty unlocking script changes what is committed to:
/// the serialized scripts become shorter, and where no other input has a
/// script, the preimage loses the script commitment (116 bytes become 84).
pub proof fn lemma_script_sig_committed(t1: Transaction, t2: Transaction, k: int, input_index: u32)
    requires
        t1.version == t2.version,
        t1.lock_time == t2.lock_time,
        t1.output@ == t2.output@,
        t1.input@.len() == t2.input@.len(),
        0 <= k < t1.input@.len(),
        forall|i: int|
            0 <= i < t1.input@.len() && i != k ==> (#[trigger] t1.input@[i]).script_sig@
                == t2.input@[i].script_sig@,
        forall|i: int|
            0 <= i < t1.input@.len() ==> (#[trigger] t1.input@[i]).sequence == t2.input@[i].sequence,
        t1.input@[k].script_sig@.len() > 0,
        t2.input@[k].script_sig@.len() == 0,
    ensures
        has_script_sig(t1.input@),
        script_sigs_enc(t1.input@) != script_sigs_enc(t2.input@),
        !has_script_sig(t2.input@) ==> ctv_preimage(t1, input_index) != ctv_preimage(
            t2,
            input_index,
        ),
{
    lemma_script_sigs_enc_longer(t1.input@, t2.input@, k);
    assert(has_script_sig(t1.input@));
    if !has_script_sig(t2.input@) {
        lemma_script_sigs_present_len(t1, input_index);
        lemma_empty_script_sigs_omitted_len(t2, input_index);
    }
}

/// A transaction without inputs or outputs still has a preimage of 84
/// bytes, built on the digest of no bytes for both the sequences and the
/// outputs.
pub proof fn lemma_empty_transaction(tx: Transaction, input_index: u32)
    requires
        tx.input@.len() == 0,
        tx.output@.len() == 0,
    ensures
        ctv_preimage(tx, input_index) == u32_le(tx.version as u32) + u32_le(tx.lock_time) + u32_le(
            0,
        ) + sha256_of(Seq::empty())@ + u32_le(0) + sha256_of(Seq::empty())@ + u32_le(input_index),
        ctv_preimage(tx, input_index).len() == 84,
{
    lemma_empty_script_sigs_omitted(tx, input_index);
    assert(sequences_enc(tx.input@) == Seq::<u8>::empty());
    assert(outputs_enc(tx.output@) == Seq::<u8>::empty());
}

/// A hash written as hexadecimal is 64 digits, and reading them back gives
/// the same 32 bytes.
pub proof fn lemma_hex_round_trip_hash(h: DefaultCheckTemplateVerifyHash)
    ensures
        h@.len() == 32,
        is_hex_of_len(hex_lower(h@), 64),
        hex_decode(hex_lower(h@)) == h@,
{
    h.lemma_len();
    lemma_hex_round_trip(h@);
}

/// A hash written in its 32-byte binary form, whatever follows it, reads
/// back as the same bytes.
pub proof fn lemma_binary_round_trip(h: DefaultCheckTemplateVerifyHash, rest: Seq<u8>)
    ensures
        (h@ + rest).len() >= 32,
        (h@ + rest).subrange(0, 32) == h@,
{
    h.lemma_len();
    assert((h@ + rest).subrange(0, 32) =~= h@);
}

} // verus!
