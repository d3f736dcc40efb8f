//! Hexadecimal text of a 32-byte digest, as `bitcoin_hashes` writes and
//! reads it.

use vstd::prelude::*;

verus! {

/// The lowercase hexadecimal digit of `n` (below 16).
pub open spec fn hex_digit(n: u8) -> char {
    if n < 10 {
        (n + 48) as char
    } else {
        (n + 87) as char
    }
}

/// Two lowercase hexadecimal digits per byte, the high half first.
pub open spec fn hex_lower(b: Seq<u8>) -> Seq<char> {
    Seq::new(
        2 * b.len(),
        |i: int|
            if i % 2 == 0 {
                hex_digit(b[i / 2] >> 4u8)
            } else {
                hex_digit(b[i / 2] & 0xfu8)
            },
    )
}

/// Whether `c` is a hexadecimal digit, in either case.
pub open spec fn is_hex_digit(c: char) -> bool {
    (48 <= c as u32 <= 57) || (97 <= c as u32 <= 102) || (65 <= c as u32 <= 70)
}

/// The value of the hexadecimal digit `c`.
pub open spec fn hex_value(c: char) -> int {
    if 48 <= c as u32 <= 57 {
        c as u32 - 48
    } else if 97 <= c as u32 <= 102 {
        c as u32 - 87
    } else {
        c as u32 - 55
    }
}

/// Whether `s` is `n` hexadecimal digits.
pub open spec fn is_hex_of_len(s: Seq<char>, n: nat) -> bool {
    &&& s.len() == n
    &&& forall|i: int| 0 <= i < s.len() ==> is_hex_digit(#[trigger] s[i])
}

/// The bytes that the pairs of hexadecimal digits of `s` stand for.
pub open spec fn hex_decode(s: Seq<char>) -> Seq<u8> {
    Seq::new(s.len() / 2, |i: int| (16 * hex_value(s[2 * i]) + hex_value(s[2 * i + 1])) as u8)
}

/// Writing bytes as hexadecimal and reading them back gives the bytes.
pub proof fn lemma_hex_round_trip(b: Seq<u8>)
    ensures
        is_hex_of_len(hex_lower(b), 2 * b.len()),
        hex_decode(hex_lower(b)) == b,
{
    let h = hex_lower(b);
    assert forall|i: int| 0 <= i < h.len() implies is_hex_digit(#[trigger] h[i]) by {
        let x = b[i / 2];
        let hi = x >> 4u8;
        let lo = x & 0xfu8;
        assert(hi < 16 && lo < 16) by (bit_vector)
            requires
                hi == x >> 4u8,
                lo == x & 0xfu8,
        ;
    }
    assert forall|i: int| 0 <= i < b.len() implies #[trigger] hex_decode(h)[i] == b[i] by {
        let x = b[i];
        let hi = x >> 4u8;
        let lo = x & 0xfu8;
        assert(hi < 16 && lo < 16 && 16 * hi + lo == x) by (bit_vector)
            requires
                hi == x >> 4u8,
                lo == x & 0xfu8,
        ;
        assert(h[2 * i] == hex_digit(hi));
        assert(h[2 * i + 1] == hex_digit(lo));
    }
    assert(hex_decode(h) =~= b);
}

/// The error of `bitcoin_hashes` on text that is not a hexadecimal digest.
#[verifier::external_type_specification]
#[verifier::external_body]
pub struct ExHexToArrayError(bitcoin_hashes::hex::HexToArrayError);

/// Relies on the `Display` of `bitcoin_hashes::sha256::Hash`, which writes
/// the bytes in order as lowercase hexadecimal, two digits each.
#[verifier::external_body]
pub(crate) fn digest_to_hex(b: [u8; 32]) -> (r: String)
    ensures
        r@ == hex_lower(b@),
{
    let h = <bitcoin_hashes::sha256::Hash as bitcoin_hashes::Hash>::from_byte_array(b);
    h.to_string()
}

/// Relies on the `FromStr` of `bitcoin_hashes::sha256::Hash`, which takes
/// exactly 64 hexadecimal digits of either case, pairs read high half first,
/// and keeps the bytes in order.
#[verifier::external_body]
pub(crate) fn digest_from_hex(s: &str) -> (r: Result<[u8; 32], bitcoin_hashes::hex::HexToArrayError>)
    ensures
        r is Ok <==> is_hex_of_len(s@, 64),
        r matches Ok(b) ==> b@ == hex_decode(s@),
{
    match <bitcoin_hashes::sha256::Hash as core::str::FromStr>::from_str(s) {
        Ok(h) => Ok(bitcoin_hashes::Hash::to_byte_array(h)),
        Err(e) => Err(e),
    }
}

} // verus!
