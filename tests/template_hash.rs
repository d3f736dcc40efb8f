use bip119::bip119::{template_preimage, DecodeError, DefaultCheckTemplateVerifyHash, HexError};
use bip119::transaction::{OutPoint, Transaction, TxIn, TxOut};

fn bytes_of_hex(s: &str) -> Vec<u8> {
    (0..s.len() / 2).map(|i| u8::from_str_radix(&s[2 * i..2 * i + 2], 16).unwrap()).collect()
}

fn input(script_sig: Vec<u8>, sequence: u32) -> TxIn {
    TxIn {
        previous_output: OutPoint { txid: [0u8; 32], vout: 0 },
        script_sig,
        sequence,
        witness: Vec::new(),
    }
}

fn tx(version: i32, lock_time: u32, input: Vec<TxIn>, output: Vec<TxOut>) -> Transaction {
    Transaction { version, lock_time, input, output }
}

fn one_in_one_out(script_sig: Vec<u8>) -> Transaction {
    tx(2, 0, vec![input(script_sig, 0xffff_ffff)], vec![TxOut { value: 100_000, script_pubkey: vec![0x51] }])
}

fn large_tx() -> Transaction {
    let mut long_sig: Vec<u8> = (0..=255u8).collect();
    long_sig.extend(std::iter::repeat(0u8).take(44));
    let mut p2wpkh = vec![0x00, 0x14];
    p2wpkh.extend([0u8; 20]);
    tx(
        -1,
        500_000,
        vec![input(long_sig, 0xffff_fffd), input(Vec::new(), 7)],
        vec![
            TxOut { value: 0, script_pubkey: Vec::new() },
            TxOut { value: 5_000_000_000, script_pubkey: p2wpkh },
            TxOut { value: 1, script_pubkey: vec![0x6a; 70_000] },
        ],
    )
}

fn hash_of_hex(s: &str) -> DefaultCheckTemplateVerifyHash {
    DefaultCheckTemplateVerifyHash::from_hex(s).unwrap()
}

#[test]
fn test_ctv_hash() {
    let cases: Vec<(Transaction, u32, &str)> = vec![
        (one_in_one_out(Vec::new()), 0, "2c0987d5697bfa512c52d5fca7cf6852ed16c3e0f73b4ac3f056d8e993364670"),
        (one_in_one_out(Vec::new()), 1, "cddeaed0aa893e43b771c187b1c7e8919b1c29fdab989114d07a1a7689725a19"),
        (one_in_one_out(vec![0x01, 0x02]), 0, "98ebdfa94fb349e845b93494974a6b03bfd6cc42c5f61da2815c677ac0df425e"),
        (tx(1, 0, Vec::new(), Vec::new()), 0, "2a73dc5dea9b33458bd11d5c6a7db02a9f1d20d94ae19f3f8096b46e26c2ca56"),
        (large_tx(), 0, "39958c55dcf075f0f2e61b647d4c09353cabb264069d434fc61cb54de27c56cb"),
        (large_tx(), 5, "7ae05eb91e71d6f3b60f99edaefefb48f0a4fbd9a78b78958325d30a6db390d0"),
    ];
    for (t, index, expected) in cases {
        let ctv_hash = DefaultCheckTemplateVerifyHash::new(&t, index);
        assert_eq!(ctv_hash, hash_of_hex(expected));
    }
}

#[test]
fn same_input_gives_same_hash() {
    let t = large_tx();
    assert_eq!(DefaultCheckTemplateVerifyHash::new(&t, 3), DefaultCheckTemplateVerifyHash::new(&t, 3));
}

#[test]
fn previous_outputs_and_witnesses_are_not_committed() {
    let a = one_in_one_out(Vec::new());
    let mut b = a.clone();
    b.input[0].previous_output = OutPoint { txid: [7u8; 32], vout: 9 };
    b.input[0].witness = vec![vec![1, 2, 3], Vec::new()];
    assert_eq!(DefaultCheckTemplateVerifyHash::new(&a, 0), DefaultCheckTemplateVerifyHash::new(&b, 0));
}

#[test]
fn index_changes_hash() {
    let t = one_in_one_out(Vec::new());
    assert_ne!(DefaultCheckTemplateVerifyHash::new(&t, 0), DefaultCheckTemplateVerifyHash::new(&t, 1));
}

#[test]
fn empty_script_sigs_are_omitted_but_input_count_is_committed() {
    let one = one_in_one_out(Vec::new());
    let pre = template_preimage(&one, 0);
    assert_eq!(
        pre,
        bytes_of_hex(
            "020000000000000001000000ad95131bc0b799c0b1af477fb14fcf26a6a9f76079e48bf090acb7e8367bfd0e\
             010000003e1b64ac679049e9bfcd5b360d591e8d5bae376fa127a5e024e3476c0c19175400000000"
        )
    );
    let mut two = one.clone();
    two.input.push(input(Vec::new(), 0xffff_ffff));
    assert_eq!(template_preimage(&two, 0).len(), 84);
    assert_eq!(
        DefaultCheckTemplateVerifyHash::new(&two, 0),
        hash_of_hex("e848db39701006d3247661bd326a497de54525abceaf9accdf7dfd516b91efe8")
    );
    assert_ne!(DefaultCheckTemplateVerifyHash::new(&one, 0), DefaultCheckTemplateVerifyHash::new(&two, 0));
}

#[test]
fn script_sig_changes_hash() {
    let with_sig = one_in_one_out(vec![0x01, 0x02]);
    let without = one_in_one_out(Vec::new());
    assert_eq!(template_preimage(&with_sig, 0).len(), 116);
    assert_eq!(template_preimage(&without, 0).len(), 84);
    assert_ne!(DefaultCheckTemplateVerifyHash::new(&with_sig, 0), DefaultCheckTemplateVerifyHash::new(&without, 0));
}

#[test]
fn empty_transaction_has_fixed_preimage() {
    let t = tx(1, 0, Vec::new(), Vec::new());
    let pre = template_preimage(&t, 0);
    let empty_digest = "e3b0c44298fc1c149afbf4c8996fb92427ae41e4649b934ca495991b7852b855";
    let expected = format!("0100000000000000{}{}{}{}{}", "00000000", empty_digest, "00000000", empty_digest, "00000000");
    assert_eq!(pre, bytes_of_hex(&expected));
    assert_eq!(
        DefaultCheckTemplateVerifyHash::new(&t, 0),
        hash_of_hex("2a73dc5dea9b33458bd11d5c6a7db02a9f1d20d94ae19f3f8096b46e26c2ca56")
    );
}

#[test]
fn large_transaction_uses_long_compact_sizes() {
    assert_eq!(template_preimage(&large_tx(), 0).len(), 116);
}

#[test]
fn hex_round_trip() {
    let h = DefaultCheckTemplateVerifyHash::new(&large_tx(), 0);
    let text = h.to_hex();
    assert_eq!(text, "39958c55dcf075f0f2e61b647d4c09353cabb264069d434fc61cb54de27c56cb");
    assert_eq!(DefaultCheckTemplateVerifyHash::from_hex(&text), Ok(h));
}

#[test]
fn hex_reads_bytes_in_order_and_either_case() {
    let mut bytes = [0u8; 32];
    bytes[0] = 0xab;
    bytes[31] = 0x01;
    let h = DefaultCheckTemplateVerifyHash::from_byte_array(bytes);
    let lower = "ab00000000000000000000000000000000000000000000000000000000000001";
    assert_eq!(h.to_hex(), lower);
    assert_eq!(DefaultCheckTemplateVerifyHash::from_hex(&lower.to_uppercase()), Ok(h));
}

#[test]
fn hex_rejects_bad_text() {
    let short = "ab0000000000000000000000000000000000000000000000000000000000000";
    assert_eq!(DefaultCheckTemplateVerifyHash::from_hex(short), Err(HexError::InvalidHex));
    let bad_char = "zb00000000000000000000000000000000000000000000000000000000000001";
    assert_eq!(DefaultCheckTemplateVerifyHash::from_hex(bad_char), Err(HexError::InvalidHex));
    let long = "ab0000000000000000000000000000000000000000000000000000000000000100";
    assert_eq!(DefaultCheckTemplateVerifyHash::from_hex(long), Err(HexError::InvalidHex));
}

#[test]
fn binary_round_trip() {
    let h = DefaultCheckTemplateVerifyHash::new(&one_in_one_out(Vec::new()), 0);
    let mut w = vec![0xee];
    assert_eq!(h.consensus_encode(&mut w), 32);
    assert_eq!(w.len(), 33);
    assert_eq!(&w[1..], &h.to_byte_array()[..]);
    assert_eq!(DefaultCheckTemplateVerifyHash::consensus_decode(&w[1..]), Ok(h));
    assert_eq!(DefaultCheckTemplateVerifyHash::from_byte_array(h.to_byte_array()), h);
    assert_eq!(h.as_byte_array(), &h.to_byte_array());
}

#[test]
fn binary_decode_needs_32_bytes() {
    assert_eq!(DefaultCheckTemplateVerifyHash::consensus_decode(&[0u8; 31]), Err(DecodeError::UnexpectedEof));
    let mut long = vec![5u8; 32];
    long.push(9);
    assert_eq!(
        DefaultCheckTemplateVerifyHash::consensus_decode(&long),
        Ok(DefaultCheckTemplateVerifyHash::from_byte_array([5u8; 32]))
    );
}
