//! Fingerprints of credentials: they tell two keys apart without holding either.

use vstd::prelude::*;
use vstd::utf8::encode_utf8;

verus! {

/// The hexadecimal digits, small letters for ten and above.
pub open spec fn hex_digits() -> Seq<char> {
    seq!['0', '1', '2', '3', '4', '5', '6', '7', '8', '9', 'a', 'b', 'c', 'd', 'e', 'f']
}

/// `bytes` in hexadecimal, two digits for each, the higher one first.
pub open spec fn lower_hex(bytes: Seq<u8>) -> Seq<char> {
    Seq::new(
        2 * bytes.len(),
        |i: int|
            if i % 2 == 0 {
                hex_digits()[bytes[i / 2] as int / 16]
            } else {
                hex_digits()[bytes[i / 2] as int % 16]
            },
    )
}

/// The bytes of the BLAKE3 hash of `data`, as `blake3::hash` computes it.
pub uninterp spec fn blake3_hash(data: Seq<u8>) -> Seq<u8>;

/// Calls `blake3::hash`, and `Hash::to_hex` on its result. The contract gives the hash
/// a name that depends on the bytes alone, and claims that the text is the hash in
/// hexadecimal with small letters, two digits for each of its 32 bytes.
#[verifier::external_body]
fn blake3_hex(data: &[u8]) -> (res: String)
    ensures
        res@ == lower_hex(blake3_hash(data@)),
        res@.len() == 64,
{
    blake3::hash(data).to_hex().to_string()
}

/// The fingerprint of `api_key`: the hash of its UTF-8 bytes, in hexadecimal.
pub open spec fn fingerprint(api_key: Seq<char>) -> Seq<char> {
    lower_hex(blake3_hash(encode_utf8(api_key)))
}

/// The fingerprint of `api_key`.
pub fn credential_fingerprint(api_key: &str) -> (res: String)
    ensures
        res@ == fingerprint(api_key@),
        res@ == lower_hex(blake3_hash(encode_utf8(api_key@))),
        res@.len() == 64,
        forall|i: int| 0 <= i < 64 ==> hex_digits().contains(#[trigger] res@[i]),
{
    let res = blake3_hex(api_key.as_bytes());
    assert forall|i: int| 0 <= i < 64 implies hex_digits().contains(#[trigger] res@[i]) by {
        let byte = blake3_hash(encode_utf8(api_key@))[i / 2] as int;
        assert(0 <= byte / 16 < 16 && 0 <= byte % 16 < 16);
    }
    res
}

/// Hexadecimal text tells any two byte strings apart.
pub proof fn law_hexadecimal_keeps_bytes_apart(a: Seq<u8>, b: Seq<u8>)
    requires
        lower_hex(a) == lower_hex(b),
    ensures
        a == b,
{
    assert(lower_hex(a).len() == 2 * a.len() && lower_hex(b).len() == 2 * b.len());
    assert forall|i: int| 0 <= i < a.len() implies #[trigger] a[i] == b[i] by {
        assert(lower_hex(a)[2 * i] == lower_hex(b)[2 * i]);
        assert(lower_hex(a)[2 * i + 1] == lower_hex(b)[2 * i + 1]);
        let (x, y) = (a[i] as int, b[i] as int);
        assert((2 * i) / 2 == i && (2 * i + 1) / 2 == i);
        assert((2 * i) % 2 == 0 && (2 * i + 1) % 2 == 1);
        assert(lower_hex(a)[2 * i] == hex_digits()[x / 16]);
        assert(lower_hex(b)[2 * i] == hex_digits()[y / 16]);
        assert(lower_hex(a)[2 * i + 1] == hex_digits()[x % 16]);
        assert(lower_hex(b)[2 * i + 1] == hex_digits()[y % 16]);
        assert(hex_digits()[x / 16] == hex_digits()[y / 16]);
        assert(hex_digits()[x % 16] == hex_digits()[y % 16]);
        lemma_hex_digits_differ(x / 16, y / 16);
        lemma_hex_digits_differ(x % 16, y % 16);
    }
    assert(a =~= b);
}

proof fn lemma_hex_digits_differ(x: int, y: int)
    requires
        0 <= x < 16,
        0 <= y < 16,
        hex_digits()[x] == hex_digits()[y],
    ensures
        x == y,
{
}

/// A fingerprint is the hash of all the bytes of the key, in hexadecimal: two keys have the
/// same fingerprint exactly where the hash does not tell their bytes apart.
pub proof fn law_fingerprint_covers_the_whole_key(key: Seq<char>, other: Seq<char>)
    ensures
        fingerprint(key) == lower_hex(blake3_hash(encode_utf8(key))),
        fingerprint(key) == fingerprint(other) <==> blake3_hash(encode_utf8(key)) == blake3_hash(
            encode_utf8(other),
        ),
{
    if fingerprint(key) == fingerprint(other) {
        law_hexadecimal_keeps_bytes_apart(
            blake3_hash(encode_utf8(key)),
            blake3_hash(encode_utf8(other)),
        );
    }
}

} // verus!
