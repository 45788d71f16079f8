//! Little-endian codec for 128-bit fixed-point fee amounts.
//!
//! On-chain fee fields are unsigned 128-bit integers in minor units.  The
//! normalized output carries them as their raw 16-byte little-endian
//! encoding, and an absent optional fee encodes as sixteen zero bytes.

use vstd::prelude::*;

verus! {

/// Byte `k` of the little-endian encoding of `v`.
pub open spec fn fee_byte(v: u128, k: int) -> u8 {
    ((v >> ((8 * k) as u128)) & 0xff) as u8
}

/// The 16-byte little-endian encoding of a fee amount.
pub open spec fn fee_bytes_of(v: u128) -> Seq<u8> {
    Seq::new(16, |k: int| fee_byte(v, k))
}

/// The amount that a 16-byte little-endian encoding stands for.
pub open spec fn fee_value_of(s: Seq<u8>) -> u128
    recommends
        s.len() == 16,
{
    ((s[0] as u128) >> 0)
        | ((s[1] as u128) << 8)
        | ((s[2] as u128) << 16)
        | ((s[3] as u128) << 24)
        | ((s[4] as u128) << 32)
        | ((s[5] as u128) << 40)
        | ((s[6] as u128) << 48)
        | ((s[7] as u128) << 56)
        | ((s[8] as u128) << 64)
        | ((s[9] as u128) << 72)
        | ((s[10] as u128) << 80)
        | ((s[11] as u128) << 88)
        | ((s[12] as u128) << 96)
        | ((s[13] as u128) << 104)
        | ((s[14] as u128) << 112)
        | ((s[15] as u128) << 120)
}

/// The encoding of an absent optional fee: sixteen zero bytes.
pub open spec fn zero_fee_bytes() -> Seq<u8> {
    Seq::new(16, |k: int| 0u8)
}

/// The bytes the normalized record carries for an optional fee field.
pub open spec fn download_fee_bytes(d: Option<u128>) -> Seq<u8> {
    match d {
        Option::Some(v) => fee_bytes_of(v),
        Option::None => zero_fee_bytes(),
    }
}

/// Encodes a fee amount as its 16 little-endian bytes.
pub fn encode_fee(v: u128) -> (r: Vec<u8>)
    ensures
        r@ == fee_bytes_of(v),
        r@.len() == 16,
{
    proof {
        assert((v >> 0) & 0xff < 256
            && (v >> 8) & 0xff < 256
            && (v >> 16) & 0xff < 256
            && (v >> 24) & 0xff < 256
            && (v >> 32) & 0xff < 256
            && (v >> 40) & 0xff < 256
            && (v >> 48) & 0xff < 256
            && (v >> 56) & 0xff < 256
            && (v >> 64) & 0xff < 256
            && (v >> 72) & 0xff < 256
            && (v >> 80) & 0xff < 256
            && (v >> 88) & 0xff < 256
            && (v >> 96) & 0xff < 256
            && (v >> 104) & 0xff < 256
            && (v >> 112) & 0xff < 256
            && (v >> 120) & 0xff < 256) by (bit_vector);
    }
    let mut r: Vec<u8> = Vec::new();
    r.push(((v >> 0u128) & 0xff) as u8);
    r.push(((v >> 8u128) & 0xff) as u8);
    r.push(((v >> 16u128) & 0xff) as u8);
    r.push(((v >> 24u128) & 0xff) as u8);
    r.push(((v >> 32u128) & 0xff) as u8);
    r.push(((v >> 40u128) & 0xff) as u8);
    r.push(((v >> 48u128) & 0xff) as u8);
    r.push(((v >> 56u128) & 0xff) as u8);
    r.push(((v >> 64u128) & 0xff) as u8);
    r.push(((v >> 72u128) & 0xff) as u8);
    r.push(((v >> 80u128) & 0xff) as u8);
    r.push(((v >> 88u128) & 0xff) as u8);
    r.push(((v >> 96u128) & 0xff) as u8);
    r.push(((v >> 104u128) & 0xff) as u8);
    r.push(((v >> 112u128) & 0xff) as u8);
    r.push(((v >> 120u128) & 0xff) as u8);
    proof {
        assert(r@ =~= fee_bytes_of(v));
    }
    r
}

/// Decodes 16 little-endian bytes back into the fee amount.
pub fn decode_fee(b: &Vec<u8>) -> (v: u128)
    requires
        b@.len() == 16,
    ensures
        v == fee_value_of(b@),
{
    ((b[0] as u128) >> 0)
        | ((b[1] as u128) << 8)
        | ((b[2] as u128) << 16)
        | ((b[3] as u128) << 24)
        | ((b[4] as u128) << 32)
        | ((b[5] as u128) << 40)
        | ((b[6] as u128) << 48)
        | ((b[7] as u128) << 56)
        | ((b[8] as u128) << 64)
        | ((b[9] as u128) << 72)
        | ((b[10] as u128) << 80)
        | ((b[11] as u128) << 88)
        | ((b[12] as u128) << 96)
        | ((b[13] as u128) << 104)
        | ((b[14] as u128) << 112)
        | ((b[15] as u128) << 120)
}

/// Encodes an optional fee: its little-endian bytes when present, sixteen
/// zero bytes when absent.
pub fn encode_download_fee(d: Option<u128>) -> (r: Vec<u8>)
    ensures
        r@ == download_fee_bytes(d),
        r@.len() == 16,
{
    match d {
        Option::Some(v) => encode_fee(v),
        Option::None => {
            let mut r: Vec<u8> = Vec::new();
            let mut k: usize = 0;
            while k < 16
                invariant
                    k <= 16,
                    r@.len() == k as int,
                    forall|j: int| 0 <= j < k as int ==> r@[j] == 0u8,
                decreases 16 - k,
            {
                r.push(0u8);
                k += 1;
            }
            proof {
                assert(r@ =~= zero_fee_bytes());
            }
            r
        },
    }
}

/// Law: little-endian fee encoding round-trips; decoding the encoding of
/// any 128-bit amount gives the amount back.
pub proof fn lemma_fee_round_trip(v: u128)
    ensures
        fee_value_of(fee_bytes_of(v)) == v,
{
    let s = fee_bytes_of(v);
    assert((v >> 0) & 0xff < 256
        && (v >> 8) & 0xff < 256
        && (v >> 16) & 0xff < 256
        && (v >> 24) & 0xff < 256
        && (v >> 32) & 0xff < 256
        && (v >> 40) & 0xff < 256
        && (v >> 48) & 0xff < 256
        && (v >> 56) & 0xff < 256
        && (v >> 64) & 0xff < 256
        && (v >> 72) & 0xff < 256
        && (v >> 80) & 0xff < 256
        && (v >> 88) & 0xff < 256
        && (v >> 96) & 0xff < 256
        && (v >> 104) & 0xff < 256
        && (v >> 112) & 0xff < 256
        && (v >> 120) & 0xff < 256) by (bit_vector);
    assert(v == (((v >> 0) & 0xff) >> 0)
        | (((v >> 8) & 0xff) << 8)
        | (((v >> 16) & 0xff) << 16)
        | (((v >> 24) & 0xff) << 24)
        | (((v >> 32) & 0xff) << 32)
        | (((v >> 40) & 0xff) << 40)
        | (((v >> 48) & 0xff) << 48)
        | (((v >> 56) & 0xff) << 56)
        | (((v >> 64) & 0xff) << 64)
        | (((v >> 72) & 0xff) << 72)
        | (((v >> 80) & 0xff) << 80)
        | (((v >> 88) & 0xff) << 88)
        | (((v >> 96) & 0xff) << 96)
        | (((v >> 104) & 0xff) << 104)
        | (((v >> 112) & 0xff) << 112)
        | (((v >> 120) & 0xff) << 120)) by (bit_vector);
}

/// Law: an absent download fee yields sixteen zero bytes; a present one
/// yields exactly its little-endian encoding, which decodes back to it.
pub proof fn lemma_download_fee_encoding(d: Option<u128>)
    ensures
        d is None ==> download_fee_bytes(d) == zero_fee_bytes(),
        d is None ==> forall|k: int| 0 <= k < 16 ==> download_fee_bytes(d)[k] == 0u8,
        d is Some ==> download_fee_bytes(d) == fee_bytes_of(d->0),
        d is Some ==> fee_value_of(download_fee_bytes(d)) == d->0,
{
    if let Option::Some(v) = d {
        lemma_fee_round_trip(v);
    }
}

} // verus!
