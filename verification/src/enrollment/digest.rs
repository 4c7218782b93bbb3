use vstd::prelude::*;

use sha2::{Digest, Sha256};
use subtle::ConstantTimeEq;
use vstd::string::StringSliceAdditionalSpecFns;

verus! {

/// The SHA-256 digest of a byte string.
pub uninterp spec fn sha256_of(bytes: Seq<u8>) -> [u8; 32];

/// `Sha256::digest` of the `sha2` crate: the 32-byte SHA-256 digest of `bytes`, a function of
/// the bytes alone. Nothing more is claimed of the digest's value.
#[verifier::external_body]
pub(crate) fn sha256(bytes: &[u8]) -> (r: [u8; 32])
    ensures
        r == sha256_of(bytes@),
{
    Sha256::digest(bytes).into()
}

/// `ConstantTimeEq::ct_eq` of the `subtle` crate on byte slices, converted to `bool`: true exactly
/// when both slices have the same length and the same bytes.
#[verifier::external_body]
pub(crate) fn bytes_ct_eq(a: &[u8], b: &[u8]) -> (r: bool)
    ensures
        r == (a@ == b@),
{
    bool::from(a.ct_eq(b))
}

/// `String::from_utf8_lossy` of std on ASCII bytes: each byte becomes the character it encodes.
#[verifier::external_body]
pub(crate) fn ascii_string(bytes: &[u8]) -> (r: String)
    requires
        forall|i: int| 0 <= i < bytes@.len() ==> bytes@[i] < 128,
    ensures
        r@ == Seq::new(bytes@.len(), |i: int| bytes@[i] as char),
{
    String::from_utf8_lossy(bytes).into_owned()
}

/// The lowercase hexadecimal digit of a nibble.
pub open spec fn hex_digit(nibble: int) -> u8 {
    if nibble < 10 {
        (48 + nibble) as u8
    } else {
        (87 + nibble) as u8
    }
}

/// Canonical lowercase hexadecimal wire bytes of a digest: two digits per byte, high nibble first.
pub open spec fn hex_encoding(digest: Seq<u8>) -> Seq<u8> {
    Seq::new(2 * digest.len(), |i: int| if i % 2 == 0 {
        hex_digit((digest[i / 2] / 16) as int)
    } else {
        hex_digit((digest[i / 2] % 16) as int)
    })
}

/// Whether a byte is a canonical lowercase hexadecimal digit.
pub open spec fn is_hex_digit(byte: u8) -> bool {
    (48 <= byte <= 57) || (97 <= byte <= 102)
}

/// The value of a lowercase hexadecimal digit.
pub open spec fn nibble_value(byte: u8) -> int {
    if byte <= 57 {
        byte - 48
    } else {
        byte - 87
    }
}

/// Whether wire bytes are a canonical 32-byte digest: 64 lowercase hexadecimal digits.
pub open spec fn canonical_digest_wire(wire: Seq<u8>) -> bool {
    wire.len() == 64 && forall|i: int| 0 <= i < 64 ==> is_hex_digit(#[trigger] wire[i])
}

/// The digest that canonical wire bytes denote.
pub open spec fn decoded_digest(wire: Seq<u8>) -> Seq<u8> {
    Seq::new(32, |i: int| (nibble_value(wire[2 * i]) * 16 + nibble_value(wire[2 * i + 1])) as u8)
}

/// The value of one lowercase hexadecimal digit; any other byte is not a digit.
pub fn hex_nibble(byte: u8) -> (r: Option<u8>)
    ensures
        match r {
            Some(v) => is_hex_digit(byte) && v == nibble_value(byte),
            None => !is_hex_digit(byte),
        },
{
    if 48 <= byte && byte <= 57 {
        Some(byte - 48)
    } else if 97 <= byte && byte <= 102 {
        Some(byte - 87)
    } else {
        None
    }
}

/// Parses the canonical wire form of a 32-byte digest; anything else is refused.
pub fn parse_digest(wire: &str) -> (r: Option<[u8; 32]>)
    ensures
        match r {
            Some(d) => canonical_digest_wire(wire.spec_bytes()) && d@ == decoded_digest(wire.spec_bytes()),
            None => !canonical_digest_wire(wire.spec_bytes()),
        },
{
    let bytes = wire.as_bytes();
    if bytes.len() != 64 {
        return None;
    }
    let mut i: usize = 0;
    while i < 64
        invariant
            bytes@ == wire.spec_bytes(),
            bytes@.len() == 64,
            i <= 64,
            forall|j: int| 0 <= j < i ==> is_hex_digit(#[trigger] bytes@[j]),
        decreases 64 - i,
    {
        if hex_nibble(bytes[i]).is_none() {
            return None;
        }
        i = i + 1;
    }
    let mut result = [0u8; 32];
    let mut k: usize = 0;
    while k < 32
        invariant
            bytes@ == wire.spec_bytes(),
            canonical_digest_wire(bytes@),
            k <= 32,
            forall|j: int| 0 <= j < k ==> result@[j] == #[trigger] decoded_digest(bytes@)[j],
        decreases 32 - k,
    {
        let high = hex_nibble(bytes[2 * k]);
        let low = hex_nibble(bytes[2 * k + 1]);
        match (high, low) {
            (Some(h), Some(l)) => {
                assert(is_hex_digit(bytes@[2 * k as int]));
                assert(is_hex_digit(bytes@[2 * k as int + 1]));
                result[k] = h * 16 + l;
            },
            _ => {
                assert(is_hex_digit(bytes@[2 * k as int]));
                assert(is_hex_digit(bytes@[2 * k as int + 1]));
                return None;
            },
        }
        k = k + 1;
    }
    assert(result@ == decoded_digest(bytes@));
    Some(result)
}

/// The lowercase hexadecimal digits of a digest, as bytes.
pub fn hex_digits(digest: &[u8; 32]) -> (r: Vec<u8>)
    ensures
        r@ == hex_encoding(digest@),
        forall|i: int| 0 <= i < r@.len() ==> r@[i] < 128,
{
    let mut wire: Vec<u8> = Vec::with_capacity(64);
    let mut i: usize = 0;
    while i < 32
        invariant
            i <= 32,
            wire@.len() == 2 * i,
            forall|j: int| 0 <= j < 2 * i ==> wire@[j] == #[trigger] hex_encoding(digest@)[j],
        decreases 32 - i,
    {
        let byte = digest[i];
        let high = byte / 16;
        let low = byte % 16;
        wire.push(if high < 10 { 48 + high } else { 87 + high });
        wire.push(if low < 10 { 48 + low } else { 87 + low });
        i = i + 1;
    }
    assert forall|j: int| 0 <= j < wire@.len() implies wire@[j] < 128 by {
        assert(wire@[j] == hex_encoding(digest@)[j]);
    }
    assert(wire@ =~= hex_encoding(digest@));
    wire
}

/// The canonical lowercase hexadecimal wire form of a digest.
pub fn hex_wire(digest: &[u8; 32]) -> (r: String)
    ensures
        r@ == Seq::new(64, |i: int| hex_encoding(digest@)[i] as char),
{
    let wire = hex_digits(digest);
    ascii_string(wire.as_slice())
}

/// The canonical wire form of the SHA-256 digest of a secret or request.
pub fn digest_wire(bytes: &[u8]) -> (r: String)
    ensures
        r@ == Seq::new(64, |i: int| hex_encoding(sha256_of(bytes@)@)[i] as char),
{
    let digest = sha256(bytes);
    hex_wire(&digest)
}

/// Decoding the canonical wire form of a digest gives back the digest.
pub proof fn lemma_digest_wire_round_trip(digest: Seq<u8>)
    requires
        digest.len() == 32,
    ensures
        canonical_digest_wire(hex_encoding(digest)),
        decoded_digest(hex_encoding(digest)) == digest,
{
    let wire = hex_encoding(digest);
    assert forall|i: int| 0 <= i < 64 implies is_hex_digit(#[trigger] wire[i]) by {
        let b = digest[i / 2];
        assert(b / 16 < 16 && b % 16 < 16);
    }
    assert forall|i: int| 0 <= i < 32 implies #[trigger] decoded_digest(wire)[i] == digest[i] by {
        let b = digest[i];
        assert((2 * i) / 2 == i && (2 * i + 1) / 2 == i);
        assert((2 * i) % 2 == 0 && (2 * i + 1) % 2 == 1);
        assert(nibble_value(wire[2 * i]) == b / 16);
        assert(nibble_value(wire[2 * i + 1]) == b % 16);
        assert((b / 16) * 16 + b % 16 == b);
    }
    assert(decoded_digest(wire) =~= digest);
}

} // verus!
