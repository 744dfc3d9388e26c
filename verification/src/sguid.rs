//! Short GUIDs of SRS clients: random version-4 UUIDs written in URL-safe base64
//! without padding.
use base64::Engine;
use vstd::prelude::*;

verus! {

/// The character that stands for the six-bit value `v` in the URL-safe base64 alphabet.
pub open spec fn url_safe_char(v: nat) -> char {
    if v < 26 {
        (65 + v) as char
    } else if v < 52 {
        (97 + (v - 26)) as char
    } else if v < 62 {
        (48 + (v - 52)) as char
    } else if v == 62 {
        '-'
    } else {
        '_'
    }
}

/// The URL-safe base64 text of `b` without padding: each group of three bytes becomes four
/// characters, a trailing group of one or two bytes becomes two or three.
pub open spec fn base64_url_no_pad(b: Seq<u8>) -> Seq<char>
    decreases b.len(),
{
    if b.len() == 0 {
        Seq::empty()
    } else if b.len() == 1 {
        seq![url_safe_char(b[0] as nat / 4), url_safe_char((b[0] as nat % 4) * 16)]
    } else if b.len() == 2 {
        seq![
            url_safe_char(b[0] as nat / 4),
            url_safe_char((b[0] as nat % 4) * 16 + b[1] as nat / 16),
            url_safe_char((b[1] as nat % 16) * 4),
        ]
    } else {
        seq![
            url_safe_char(b[0] as nat / 4),
            url_safe_char((b[0] as nat % 4) * 16 + b[1] as nat / 16),
            url_safe_char((b[1] as nat % 16) * 4 + b[2] as nat / 64),
            url_safe_char(b[2] as nat % 64),
        ] + base64_url_no_pad(b.subrange(3, b.len() as int))
    }
}

/// The length of the unpadded base64 text of `n` bytes.
pub open spec fn base64_len(n: nat) -> nat {
    4 * (n / 3) + if n % 3 == 0 {
        0nat
    } else if n % 3 == 1 {
        2nat
    } else {
        3nat
    }
}

/// The unpadded base64 text of `n` bytes has `base64_len(n)` characters.
pub proof fn lemma_base64_len(b: Seq<u8>)
    ensures
        base64_url_no_pad(b).len() == base64_len(b.len()),
    decreases b.len(),
{
    if b.len() >= 3 {
        lemma_base64_len(b.subrange(3, b.len() as int));
    }
}

/// Whether `c` belongs to the URL-safe base64 alphabet.
pub open spec fn is_url_safe_char(c: char) -> bool {
    ('A' <= c <= 'Z') || ('a' <= c <= 'z') || ('0' <= c <= '9') || c == '-' || c == '_'
}

/// Every character of an unpadded URL-safe base64 text belongs to the URL-safe alphabet.
pub proof fn lemma_base64_alphabet(b: Seq<u8>)
    ensures
        forall|i: int|
            0 <= i < base64_url_no_pad(b).len() ==> is_url_safe_char(
                #[trigger] base64_url_no_pad(b)[i],
            ),
    decreases b.len(),
{
    assert forall|v: nat| v < 64 implies is_url_safe_char(#[trigger] url_safe_char(v)) by {}
    let t = base64_url_no_pad(b);
    if b.len() >= 3 {
        let rest = b.subrange(3, b.len() as int);
        lemma_base64_alphabet(rest);
        assert forall|i: int| 0 <= i < t.len() implies is_url_safe_char(#[trigger] t[i]) by {
            if i >= 4 {
                assert(t[i] == base64_url_no_pad(rest)[i - 4]);
            } else {
                assert(b[0] as nat / 4 < 64);
                assert((b[0] as nat % 4) * 16 + b[1] as nat / 16 < 64);
                assert((b[1] as nat % 16) * 4 + b[2] as nat / 64 < 64);
                assert(b[2] as nat % 64 < 64);
            }
        }
    } else {
        assert forall|i: int| 0 <= i < t.len() implies is_url_safe_char(#[trigger] t[i]) by {
            if b.len() >= 1 {
                assert(b[0] as nat / 4 < 64);
                assert((b[0] as nat % 4) * 16 < 64);
            }
            if b.len() == 2 {
                assert((b[0] as nat % 4) * 16 + b[1] as nat / 16 < 64);
                assert((b[1] as nat % 16) * 4 < 64);
            }
        }
    }
}

/// Whether sixteen bytes are those of a random (version 4, RFC 4122 variant) UUID.
pub open spec fn is_random_uuid(b: Seq<u8>) -> bool {
    &&& b.len() == 16
    &&& b[6] / 16 == 4
    &&& b[8] / 64 == 2
}

/// Calls `uuid::Uuid::new_v4` and hands back the bytes of the UUID. The bytes are random,
/// except that the version nibble is 4 and the variant bits are `10`, as the source of
/// `new_v4` sets them.
#[verifier::external_body]
fn random_uuid_bytes() -> (r: [u8; 16])
    ensures
        is_random_uuid(r@),
{
    *uuid::Uuid::new_v4().as_bytes()
}

/// Calls `base64::Engine::encode` of `base64::engine::general_purpose::URL_SAFE_NO_PAD`.
/// The contract claims what the crate's source computes: the URL-safe alphabet, no padding.
#[verifier::external_body]
fn encode_url_safe_no_pad(bytes: &[u8]) -> (r: String)
    requires
        bytes@.len() <= 0x1000_0000,
    ensures
        r@ == base64_url_no_pad(bytes@),
{
    base64::engine::general_purpose::URL_SAFE_NO_PAD.encode(bytes)
}

/// A new short GUID: a random UUID in URL-safe base64 without padding, always 22
/// characters long.
pub fn create_sguid() -> (r: String)
    ensures
        r@.len() == 22,
        exists|b: Seq<u8>| is_random_uuid(b) && r@ == base64_url_no_pad(b),
        forall|i: int| 0 <= i < r@.len() ==> is_url_safe_char(#[trigger] r@[i]),
{
    let bytes = random_uuid_bytes();
    let sguid = encode_url_safe_no_pad(bytes.as_slice());
    proof {
        lemma_base64_len(bytes@);
        lemma_base64_alphabet(bytes@);
        assert(is_random_uuid(bytes@) && sguid@ == base64_url_no_pad(bytes@));
    }
    sguid
}

} // verus!
