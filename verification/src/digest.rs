//! SHA-256 fingerprints.

use vstd::prelude::*;
use vstd::string::*;
use vstd::utf8::*;

use sha2::{Digest, Sha256};

use crate::text;

verus! {

/// The SHA-256 digest of a byte sequence.
pub uninterp spec fn sha256_of(bytes: Seq<u8>) -> Seq<u8>;

/// Calls `sha2::Sha256::digest`. The digest depends on the bytes alone and has 32 bytes.
#[verifier::external_body]
pub(crate) fn sha256(bytes: &[u8]) -> (digest: Vec<u8>)
    ensures
        digest@ == sha256_of(bytes@),
        digest@.len() == 32,
{
    Sha256::digest(bytes).to_vec()
}

/// The lowercase hexadecimal digit of a number below sixteen.
pub open spec fn hex_char(d: int) -> char {
    if d == 0 {
        '0'
    } else if d == 1 {
        '1'
    } else if d == 2 {
        '2'
    } else if d == 3 {
        '3'
    } else if d == 4 {
        '4'
    } else if d == 5 {
        '5'
    } else if d == 6 {
        '6'
    } else if d == 7 {
        '7'
    } else if d == 8 {
        '8'
    } else if d == 9 {
        '9'
    } else if d == 10 {
        'a'
    } else if d == 11 {
        'b'
    } else if d == 12 {
        'c'
    } else if d == 13 {
        'd'
    } else if d == 14 {
        'e'
    } else {
        'f'
    }
}

/// Two lowercase hexadecimal characters for each byte.
pub open spec fn hex_text(bytes: Seq<u8>) -> Seq<char>
    decreases bytes.len(),
{
    if bytes.len() == 0 {
        Seq::empty()
    } else {
        hex_text(bytes.drop_last()).push(hex_char(bytes.last() as int / 16)).push(
            hex_char(bytes.last() as int % 16),
        )
    }
}

/// The fingerprint of a byte sequence: its SHA-256 digest in lowercase hexadecimal.
pub open spec fn fingerprint_of(bytes: Seq<u8>) -> Seq<char> {
    hex_text(sha256_of(bytes))
}

/// The fingerprint of a text in UTF-8.
pub open spec fn text_fingerprint(s: Seq<char>) -> Seq<char> {
    fingerprint_of(encode_utf8(s))
}

/// Different digits are spelled differently.
pub proof fn lemma_hex_char_injective(d: int, e: int)
    requires
        0 <= d < 16,
        0 <= e < 16,
        hex_char(d) == hex_char(e),
    ensures
        d == e,
{
}

proof fn lemma_hex_text(bytes: Seq<u8>)
    ensures
        hex_text(bytes).len() == 2 * bytes.len(),
        forall|i: int|
            0 <= i < hex_text(bytes).len() ==> text::is_lower_hex_char(#[trigger] hex_text(bytes)[i]),
    decreases bytes.len(),
{
    if bytes.len() > 0 {
        lemma_hex_text(bytes.drop_last());
    }
}

proof fn lemma_hex_text_injective(a: Seq<u8>, b: Seq<u8>)
    requires
        hex_text(a) == hex_text(b),
    ensures
        a == b,
    decreases a.len(),
{
    lemma_hex_text(a);
    lemma_hex_text(b);
    if a.len() > 0 {
        let p = hex_text(a);
        let q = hex_text(b);
        let n = p.len() as int;
        assert(p[n - 1] == q[n - 1] && p[n - 2] == q[n - 2]);
        lemma_hex_char_injective(a.last() as int / 16, b.last() as int / 16);
        lemma_hex_char_injective(a.last() as int % 16, b.last() as int % 16);
        assert(p.take(n - 2) =~= hex_text(a.drop_last()));
        assert(q.take(n - 2) =~= hex_text(b.drop_last()));
        lemma_hex_text_injective(a.drop_last(), b.drop_last());
        assert(a =~= a.drop_last().push(a.last()));
        assert(b =~= b.drop_last().push(b.last()));
    } else {
        assert(a =~= b);
    }
}

/// Two texts whose bytes differ and have the same SHA-256 digest.
pub open spec fn is_collision(a: Seq<char>, b: Seq<char>) -> bool {
    encode_utf8(a) != encode_utf8(b) && sha256_of(encode_utf8(a)) == sha256_of(encode_utf8(b))
}

/// Different texts have different fingerprints, short of a SHA-256 collision.
pub proof fn fingerprint_tells_its_text(a: Seq<char>, b: Seq<char>)
    requires
        text_fingerprint(a) == text_fingerprint(b),
    ensures
        a == b || is_collision(a, b),
{
    lemma_hex_text_injective(sha256_of(encode_utf8(a)), sha256_of(encode_utf8(b)));
    encode_utf8_decode_utf8(a);
    encode_utf8_decode_utf8(b);
}

fn hex_digit(d: u8) -> (c: char)
    requires
        d < 16,
    ensures
        c == hex_char(d as int),
{
    match d {
        0 => '0',
        1 => '1',
        2 => '2',
        3 => '3',
        4 => '4',
        5 => '5',
        6 => '6',
        7 => '7',
        8 => '8',
        9 => '9',
        10 => 'a',
        11 => 'b',
        12 => 'c',
        13 => 'd',
        14 => 'e',
        _ => 'f',
    }
}

/// Spells bytes in lowercase hexadecimal.
pub fn hex(bytes: &Vec<u8>) -> (text: String)
    ensures
        text@ == hex_text(bytes@),
{
    let mut text = String::new();
    let mut i: usize = 0;
    while i < bytes.len()
        invariant
            i <= bytes.len(),
            text@ == hex_text(bytes@.take(i as int)),
        decreases bytes.len() - i,
    {
        let b: u8 = bytes[i];
        text.push(hex_digit(b / 16));
        text.push(hex_digit(b % 16));
        assert(bytes@.take(i + 1).drop_last() =~= bytes@.take(i as int));
        i += 1;
    }
    assert(bytes@.take(bytes@.len() as int) =~= bytes@);
    text
}

/// The fingerprint of a byte sequence.
pub fn fingerprint(bytes: &[u8]) -> (text: String)
    ensures
        text@ == fingerprint_of(bytes@),
        text::is_digest_text(text@),
{
    let digest = sha256(bytes);
    proof {
        lemma_hex_text(digest@);
    }
    hex(&digest)
}

/// The fingerprint of a text.
pub fn fingerprint_text(s: &str) -> (text: String)
    ensures
        text@ == text_fingerprint(s@),
        text::is_digest_text(text@),
{
    fingerprint(s.as_bytes())
}

/// The number that a small hexadecimal digit stands for.
pub open spec fn hex_value(c: char) -> int {
    if '0' <= c <= '9' {
        c as int - '0' as int
    } else {
        c as int - 'a' as int + 10
    }
}

/// The two small hexadecimal digits spell the byte, the higher one first.
pub open spec fn spells_byte(high: char, low: char, byte: u8) -> bool {
    &&& '0' <= high <= '9' || 'a' <= high <= 'f'
    &&& '0' <= low <= '9' || 'a' <= low <= 'f'
    &&& byte == 16 * hex_value(high) + hex_value(low)
}

/// Each byte is spelled by two small hexadecimal digits, in order.
pub proof fn bytes_are_spelled_in_hexadecimal(bytes: Seq<u8>)
    ensures
        hex_text(bytes).len() == 2 * bytes.len(),
        forall|i: int|
            0 <= i < bytes.len() ==> spells_byte(
                hex_text(bytes)[2 * i],
                hex_text(bytes)[2 * i + 1],
                #[trigger] bytes[i],
            ),
    decreases bytes.len(),
{
    if bytes.len() > 0 {
        let before = bytes.drop_last();
        bytes_are_spelled_in_hexadecimal(before);
        let all = hex_text(bytes);
        let n = before.len() as int;
        assert forall|i: int| 0 <= i < bytes.len() implies spells_byte(
            all[2 * i],
            all[2 * i + 1],
            #[trigger] bytes[i],
        ) by {
            if i < n {
                assert(before[i] == bytes[i]);
                assert(all[2 * i] == hex_text(before)[2 * i]);
                assert(all[2 * i + 1] == hex_text(before)[2 * i + 1]);
            } else {
                let d = bytes[i] as int;
                assert(all[2 * i] == hex_char(d / 16));
                assert(all[2 * i + 1] == hex_char(d % 16));
                assert(d == 16 * (d / 16) + d % 16);
            }
        }
    }
}

/// A fingerprint spells the SHA-256 digest of the bytes, and that of a text is the one of its UTF-8
/// bytes.
pub proof fn fingerprint_spells_the_digest(bytes: Seq<u8>, s: Seq<char>)
    ensures
        fingerprint_of(bytes) == hex_text(sha256_of(bytes)),
        text_fingerprint(s) == hex_text(sha256_of(encode_utf8(s))),
{
}

} // verus!
