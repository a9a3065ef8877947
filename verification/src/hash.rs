//! Cache keys: the SHA-256 digest of a URL, written in lowercase hexadecimal.

use sha2::{Digest, Sha256};
use vstd::prelude::*;
use vstd::utf8::{decode_utf8, encode_utf8, encode_utf8_decode_utf8};
use crate::cache::{has_download_extension, lemma_last_dot, spec_is_download_marker};
use crate::text::push_char;

verus! {

/// The SHA-256 digest of a message.
pub uninterp spec fn sha256(data: Seq<u8>) -> Seq<u8>;

/// The SHA-256 digest of `data`.
///
/// Trusted: stands for `Sha256::digest` of the crate `sha2`, which feeds the
/// whole message to a fresh hasher and returns its output, an array of 32
/// bytes that depends on the message alone.
#[verifier::external_body]
fn sha256_digest(data: &[u8]) -> (digest: Vec<u8>)
    ensures
        digest@ == sha256(data@),
        digest@.len() == 32,
{
    Sha256::digest(data).to_vec()
}

/// The lowercase hexadecimal digit for a value below 16.
pub open spec fn hex_digit(n: int) -> char
    recommends
        0 <= n < 16,
{
    if n == 0 {
        '0'
    } else if n == 1 {
        '1'
    } else if n == 2 {
        '2'
    } else if n == 3 {
        '3'
    } else if n == 4 {
        '4'
    } else if n == 5 {
        '5'
    } else if n == 6 {
        '6'
    } else if n == 7 {
        '7'
    } else if n == 8 {
        '8'
    } else if n == 9 {
        '9'
    } else if n == 10 {
        'a'
    } else if n == 11 {
        'b'
    } else if n == 12 {
        'c'
    } else if n == 13 {
        'd'
    } else if n == 14 {
        'e'
    } else {
        'f'
    }
}

/// `c` is one of the digits `0` to `9` and `a` to `f`.
pub open spec fn is_lower_hex(c: char) -> bool {
    exists|n: int| 0 <= n < 16 && c == #[trigger] hex_digit(n)
}

/// The bytes written in lowercase hexadecimal: two digits for each byte, the
/// high half first.
pub open spec fn spec_to_hex(bytes: Seq<u8>) -> Seq<char> {
    Seq::new(
        2 * bytes.len(),
        |i: int|
            if i % 2 == 0 {
                hex_digit(bytes[i / 2] as int / 16)
            } else {
                hex_digit(bytes[i / 2] as int % 16)
            },
    )
}

/// The cache key of a URL: the SHA-256 digest of its UTF-8 encoding, in
/// lowercase hexadecimal.
pub open spec fn spec_url_hash(url: Seq<char>) -> Seq<char> {
    spec_to_hex(sha256(encode_utf8(url)))
}

fn hex_char(n: u8) -> (c: char)
    requires
        n < 16,
    ensures
        c == hex_digit(n as int),
{
    match n {
        0 => '0',
        1 => '1',
        2 => '2',
        3 => '3',
        4 => '4',
        5 => '5',
        6 => '6',
        7 => '7',
        8 => '8',
        9 => '9',
        10 => 'a',
        11 => 'b',
        12 => 'c',
        13 => 'd',
        14 => 'e',
        _ => 'f',
    }
}

/// The bytes written in lowercase hexadecimal.
pub fn to_hex(bytes: &[u8]) -> (text: String)
    ensures
        text@ == spec_to_hex(bytes@),
{
    let mut text = String::new();
    let mut i: usize = 0;
    while i < bytes.len()
        invariant
            0 <= i <= bytes@.len(),
            text@ == spec_to_hex(bytes@.take(i as int)),
        decreases bytes@.len() - i,
    {
        let byte: u8 = bytes[i];
        push_char(&mut text, hex_char(byte / 16));
        push_char(&mut text, hex_char(byte % 16));
        i += 1;
        assert(text@ =~= spec_to_hex(bytes@.take(i as int)));
    }
    assert(bytes@.take(i as int) == bytes@);
    text
}

/// The cache key of `url`: the name under which the image downloaded from
/// it is kept in the cache. It is the SHA-256 digest of the URL in lowercase
/// hexadecimal, so it always has 64 characters and depends on the URL alone.
pub fn get_url_hash(url: &str) -> (key: String)
    ensures
        key@ == spec_url_hash(url@),
        key@.len() == 64,
        forall|i: int| 0 <= i < key@.len() ==> is_lower_hex(#[trigger] key@[i]),
{
    let digest = sha256_digest(url.as_bytes());
    let key = to_hex(digest.as_slice());
    proof {
        lemma_hex_digits(digest@);
    }
    key
}

/// Every character of a hexadecimal text is a lowercase hexadecimal digit.
pub proof fn lemma_hex_digits(bytes: Seq<u8>)
    ensures
        spec_to_hex(bytes).len() == 2 * bytes.len(),
        forall|i: int|
            0 <= i < spec_to_hex(bytes).len() ==> is_lower_hex(#[trigger] spec_to_hex(bytes)[i]),
{
    assert forall|i: int| 0 <= i < spec_to_hex(bytes).len() implies is_lower_hex(
        #[trigger] spec_to_hex(bytes)[i],
    ) by {
        let n = if i % 2 == 0 {
            bytes[i / 2] as int / 16
        } else {
            bytes[i / 2] as int % 16
        };
        assert(spec_to_hex(bytes)[i] == hex_digit(n));
    }
}

/// Two values below 16 with the same digit are the same value.
pub proof fn lemma_hex_digit_injective(m: int, n: int)
    requires
        0 <= m < 16,
        0 <= n < 16,
        hex_digit(m) == hex_digit(n),
    ensures
        m == n,
{
}

/// Hexadecimal writing loses nothing: texts are equal only where the bytes
/// are.
pub proof fn lemma_to_hex_injective(a: Seq<u8>, b: Seq<u8>)
    requires
        spec_to_hex(a) == spec_to_hex(b),
    ensures
        a == b,
{
    assert(spec_to_hex(a).len() == 2 * a.len());
    assert(spec_to_hex(b).len() == 2 * b.len());
    assert forall|k: int| 0 <= k < a.len() implies a[k] == b[k] by {
        let high = 2 * k;
        let low = 2 * k + 1;
        assert(high % 2 == 0 && high / 2 == k);
        assert(low % 2 == 1 && low / 2 == k);
        assert(spec_to_hex(a)[high] == hex_digit(a[k] as int / 16));
        assert(spec_to_hex(b)[high] == hex_digit(b[k] as int / 16));
        assert(spec_to_hex(a)[low] == hex_digit(a[k] as int % 16));
        assert(spec_to_hex(b)[low] == hex_digit(b[k] as int % 16));
        lemma_hex_digit_injective(a[k] as int / 16, b[k] as int / 16);
        lemma_hex_digit_injective(a[k] as int % 16, b[k] as int % 16);
    }
    assert(a =~= b);
}

/// Hashing is a function of the URL alone: hashing the same URL twice gives
/// the same key.
pub proof fn lemma_url_hash_deterministic(url1: Seq<char>, url2: Seq<char>)
    requires
        url1 == url2,
    ensures
        spec_url_hash(url1) == spec_url_hash(url2),
{
}

/// Two URLs share a cache key exactly where the SHA-256 digests of their
/// encodings are equal, and different URLs have different encodings. So
/// different URLs share a key only where SHA-256 itself collides.
pub proof fn lemma_key_collision_is_digest_collision(url1: Seq<char>, url2: Seq<char>)
    ensures
        spec_url_hash(url1) == spec_url_hash(url2) <==> sha256(encode_utf8(url1)) == sha256(
            encode_utf8(url2),
        ),
        url1 != url2 ==> encode_utf8(url1) != encode_utf8(url2),
{
    if spec_url_hash(url1) == spec_url_hash(url2) {
        lemma_to_hex_injective(sha256(encode_utf8(url1)), sha256(encode_utf8(url2)));
    }
    encode_utf8_decode_utf8(url1);
    encode_utf8_decode_utf8(url2);
    assert(decode_utf8(encode_utf8(url1)) == url1);
    assert(decode_utf8(encode_utf8(url2)) == url2);
}

/// A hexadecimal text holds no `.`. So a cache key never has the form of a
/// temporary download file, and the temporary file of a download to a cache
/// key is never the key's own file.
pub proof fn lemma_hex_is_no_marker(bytes: Seq<u8>)
    ensures
        !spec_to_hex(bytes).contains('.'),
        !spec_is_download_marker(spec_to_hex(bytes)),
        !has_download_extension(spec_to_hex(bytes)),
{
    let text = spec_to_hex(bytes);
    reveal_strlit(".download");
    lemma_hex_digits(bytes);
    assert forall|i: int| 0 <= i < text.len() implies text[i] != '.' by {
        assert(is_lower_hex(text[i]));
    }
    lemma_last_dot(text, -1);
    if spec_is_download_marker(text) {
        let at = text.len() - ".download"@.len();
        assert(text.subrange(at, text.len() as int)[0] == '.');
    }
}

} // verus!
