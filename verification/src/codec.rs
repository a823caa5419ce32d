//! The cipher codec: a reversible XOR stream obfuscation of protocol
//! payloads, and the 4-byte big-endian length framing that precedes it
//! on the TCP transport.
//!
//! The running key byte starts at a fixed seed for every message; each
//! output byte is the current input byte XOR the current key, and the
//! key is then replaced by the byte produced (encode) or consumed
//! (decode) at that step, so the two directions are exact mirrors.

use vstd::prelude::*;
use vstd::utf8::{decode_utf8, encode_utf8, valid_utf8};

use crate::error::Error;
use crate::text::utf8_lossy;

verus! {

/// The fixed initial value of the running key; reseeded fresh for every
/// message, never carried from one message to the next.
pub const CIPHER_SEED: u8 = 0xAB;

// ---------------------------------------------------------------------
// the stream cipher over byte sequences

/// The cipher byte produced at position `i` when obfuscating `m`:
/// each output byte is the input byte XOR the previous output byte,
/// with the seed standing in before the first.
pub open spec fn cipher_at(m: Seq<u8>, i: int) -> u8
    decreases i,
{
    if i <= 0 {
        m[0] ^ CIPHER_SEED
    } else {
        m[i] ^ cipher_at(m, i - 1)
    }
}

/// The obfuscated form of a plaintext byte sequence.
pub open spec fn spec_obfuscate(m: Seq<u8>) -> Seq<u8> {
    Seq::new(m.len(), |i: int| cipher_at(m, i))
}

/// The clarified (deciphered) form of a cipher byte sequence: each
/// output byte is the cipher byte XOR the previous cipher byte, with
/// the seed standing in before the first.
pub open spec fn spec_clarify(c: Seq<u8>) -> Seq<u8> {
    Seq::new(c.len(), |i: int| if i == 0 { c[0] ^ CIPHER_SEED } else { c[i] ^ c[i - 1] })
}

proof fn lemma_xor_cancel(a: u8, b: u8)
    ensures
        (a ^ b) ^ b == a,
{
    assert((a ^ b) ^ b == a) by (bit_vector);
}

/// The running key is reseeded fresh for every message: what a
/// message obfuscates to is a function of that message alone, and its
/// first output byte always uses the fixed seed, never a key carried
/// over from an earlier message.
pub proof fn lemma_cipher_reseeded(m: Seq<u8>)
    requires
        m.len() > 0,
    ensures
        spec_obfuscate(m)[0] == (m[0] ^ CIPHER_SEED),
{
}

/// Deciphering inverts obfuscation on every byte sequence, the empty
/// one included: the running key is recovered from the cipher text
/// itself.
pub proof fn lemma_clarify_obfuscate(m: Seq<u8>)
    ensures
        spec_clarify(spec_obfuscate(m)) == m,
{
    let c = spec_obfuscate(m);
    assert forall|i: int| 0 <= i < m.len() implies spec_clarify(c)[i] == m[i] by {
        if i == 0 {
            lemma_xor_cancel(m[0], CIPHER_SEED);
        } else {
            lemma_xor_cancel(m[i], cipher_at(m, i - 1));
        }
    }
    assert(spec_clarify(spec_obfuscate(m)) =~= m);
}

/// Obfuscates a plaintext byte sequence with a freshly seeded key.
pub fn obfuscate(m: &[u8]) -> (r: Vec<u8>)
    ensures
        r@ == spec_obfuscate(m@),
{
    let mut out: Vec<u8> = Vec::new();
    let mut key: u8 = CIPHER_SEED;
    let mut i: usize = 0;
    while i < m.len()
        invariant
            i <= m@.len(),
            out@.len() == i,
            out@ == spec_obfuscate(m@).take(i as int),
            key == if i == 0 { CIPHER_SEED } else { cipher_at(m@, i - 1) },
        decreases m@.len() - i,
    {
        let b = m[i] ^ key;
        assert(b == cipher_at(m@, i as int));
        out.push(b);
        key = b;
        i += 1;
        proof {
            assert(out@ =~= spec_obfuscate(m@).take(i as int));
        }
    }
    proof {
        assert(out@ =~= spec_obfuscate(m@));
    }
    out
}

/// Deciphers a cipher byte sequence with a freshly seeded key.
pub fn clarify(c: &[u8]) -> (r: Vec<u8>)
    ensures
        r@ == spec_clarify(c@),
{
    let mut out: Vec<u8> = Vec::new();
    let mut key: u8 = CIPHER_SEED;
    let mut i: usize = 0;
    while i < c.len()
        invariant
            i <= c@.len(),
            out@.len() == i,
            out@ == spec_clarify(c@).take(i as int),
            key == if i == 0 { CIPHER_SEED } else { c@[i - 1] },
        decreases c@.len() - i,
    {
        let b = c[i] ^ key;
        out.push(b);
        key = c[i];
        i += 1;
        proof {
            assert(out@ =~= spec_clarify(c@).take(i as int));
        }
    }
    proof {
        assert(out@ =~= spec_clarify(c@));
    }
    out
}

// ---------------------------------------------------------------------
// big-endian length framing

/// The four big-endian bytes of a 32-bit length.
pub open spec fn spec_u32_be(x: u32) -> Seq<u8> {
    seq![(x >> 24) as u8, ((x >> 16) & 0xff) as u8, ((x >> 8) & 0xff) as u8, (x & 0xff) as u8]
}

/// The 32-bit value read from four big-endian bytes.
pub open spec fn spec_be_u32(b0: u8, b1: u8, b2: u8, b3: u8) -> u32 {
    ((b0 as u32) << 24) | ((b1 as u32) << 16) | ((b2 as u32) << 8) | (b3 as u32)
}

pub proof fn lemma_be_roundtrip(x: u32)
    ensures
        spec_be_u32(
            spec_u32_be(x)[0],
            spec_u32_be(x)[1],
            spec_u32_be(x)[2],
            spec_u32_be(x)[3],
        ) == x,
{
    let b0 = (x >> 24) as u8;
    let b1 = ((x >> 16) & 0xff) as u8;
    let b2 = ((x >> 8) & 0xff) as u8;
    let b3 = (x & 0xff) as u8;
    assert(((b0 as u32) << 24) | ((b1 as u32) << 16) | ((b2 as u32) << 8) | (b3 as u32) == x)
        by (bit_vector)
        requires
            b0 == (x >> 24) as u8,
            b1 == ((x >> 16) & 0xff) as u8,
            b2 == ((x >> 8) & 0xff) as u8,
            b3 == (x & 0xff) as u8,
    ;
}

/// The full wire frame of a plaintext: four big-endian bytes holding
/// the plaintext length, then the obfuscated payload.
pub open spec fn spec_frame(m: Seq<u8>) -> Seq<u8> {
    spec_u32_be(m.len() as u32).add(spec_obfuscate(m))
}

/// Builds the wire frame of a plaintext byte sequence.
pub fn frame_bytes(m: &[u8]) -> (r: Vec<u8>)
    requires
        m@.len() <= u32::MAX,
    ensures
        r@ == spec_frame(m@),
{
    let len: u32 = m.len() as u32;
    let mut out: Vec<u8> = Vec::new();
    out.push((len >> 24) as u8);
    out.push(((len >> 16) & 0xff) as u8);
    out.push(((len >> 8) & 0xff) as u8);
    out.push((len & 0xff) as u8);
    let mut payload = obfuscate(m);
    out.append(&mut payload);
    proof {
        assert((len >> 24) <= 0xff) by (bit_vector);
        assert(out@ =~= spec_frame(m@));
    }
    out
}

// ---------------------------------------------------------------------
// the string-level entry points

/// Prepares a message for the device: the 4-byte big-endian plaintext
/// length, then the obfuscated UTF-8 bytes of the text.
///
/// The result is always `Ok`; the `Result` shape is kept for callers
/// that treat encoding as fallible.
pub fn encrypt(plain: &str) -> (r: Result<Vec<u8>, Error>)
    requires
        encode_utf8(plain@).len() <= u32::MAX,
    ensures
        r matches Ok(v) && v@ == spec_frame(encode_utf8(plain@)),
{
    let bytes = plain.as_bytes_vec();
    Ok(frame_bytes(bytes.as_slice()))
}

/// Deciphers received cipher bytes (the part past the length prefix)
/// and decodes them as UTF-8 text; invalid byte sequences are decoded
/// lossily, a function of the deciphered bytes alone.
pub fn decrypt(cipher: &[u8]) -> (r: String)
    ensures
        r@ == crate::text::lossy_of(spec_clarify(cipher@)),
        valid_utf8(spec_clarify(cipher@)) ==> r@ == decode_utf8(spec_clarify(cipher@)),
{
    let plain = clarify(cipher);
    utf8_lossy(plain.as_slice())
}

/// Encoding then decoding returns the original text: the cipher is
/// reversible and the key is reseeded fresh on both sides.
pub proof fn lemma_text_roundtrip(plain: Seq<char>)
    ensures
        spec_clarify(spec_obfuscate(encode_utf8(plain))) == encode_utf8(plain),
        decode_utf8(spec_clarify(spec_obfuscate(encode_utf8(plain)))) == plain,
        valid_utf8(spec_clarify(spec_obfuscate(encode_utf8(plain)))),
{
    lemma_clarify_obfuscate(encode_utf8(plain));
    vstd::utf8::encode_utf8_valid_utf8(plain);
    vstd::utf8::encode_utf8_decode_utf8(plain);
}

} // verus!
