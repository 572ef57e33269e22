//! Cache keys: a human-readable name joined to a hash of the URL.
use siphasher::sip::SipHasher13;
use std::hash::{Hash, Hasher};
use vstd::prelude::*;

verus! {

/// The SipHash-1-3 digest (keys 0, 0) of a string fed through `Hash for str`.
pub uninterp spec fn sip13_of_str(s: Seq<char>) -> u64;

/// Lowercase hexadecimal digit of a nibble.
pub open spec fn hex_digit(n: int) -> char {
    if n == 0 { '0' }
    else if n == 1 { '1' }
    else if n == 2 { '2' }
    else if n == 3 { '3' }
    else if n == 4 { '4' }
    else if n == 5 { '5' }
    else if n == 6 { '6' }
    else if n == 7 { '7' }
    else if n == 8 { '8' }
    else if n == 9 { '9' }
    else if n == 10 { 'a' }
    else if n == 11 { 'b' }
    else if n == 12 { 'c' }
    else if n == 13 { 'd' }
    else if n == 14 { 'e' }
    else { 'f' }
}

/// Two lowercase hex digits per byte, high nibble first.
pub open spec fn hex_of(b: Seq<u8>) -> Seq<char> {
    Seq::new(
        2 * b.len(),
        |i: int|
            if i % 2 == 0 {
                hex_digit(b[i / 2] as int / 16)
            } else {
                hex_digit(b[i / 2] as int % 16)
            },
    )
}

/// The eight bytes of `x`, least significant first.
pub open spec fn le_bytes(x: u64) -> Seq<u8> {
    seq![
        x as u8,
        (x >> 8u64) as u8,
        (x >> 16u64) as u8,
        (x >> 24u64) as u8,
        (x >> 32u64) as u8,
        (x >> 40u64) as u8,
        (x >> 48u64) as u8,
        (x >> 56u64) as u8,
    ]
}

/// The directory name under which the archive at `url` is cached as `name`.
pub open spec fn cache_key(url: Seq<char>, name: Seq<char>) -> Seq<char> {
    key_of_digest(name, sip13_of_str(url))
}

/// Relies on siphasher's `SipHasher13::new` (keys 0, 0), std's `Hash for str`
/// and `Hasher::finish`: the digest depends on the string alone.
#[verifier::external_body]
fn sip13_digest(s: &str) -> (r: u64)
    ensures
        r == sip13_of_str(s@),
{
    let mut hasher = SipHasher13::new();
    s.hash(&mut hasher);
    hasher.finish()
}

/// Relies on `hex::encode`: two lowercase digits per byte, high nibble first.
#[verifier::external_body]
fn to_hex(b: &Vec<u8>) -> (r: String)
    ensures
        r@ == hex_of(b@),
{
    hex::encode(b)
}

/// The directory name for `name` whose URL has the digest `digest`: the name,
/// a dash, and the digest's bytes in hex, least significant byte first.
pub open spec fn key_of_digest(name: Seq<char>, digest: u64) -> Seq<char> {
    name + seq!['-'] + hex_of(le_bytes(digest))
}

/// Formats the directory name for `name` from the digest of its URL.
pub fn dirname_from_digest(name: &str, digest: u64) -> (r: String)
    ensures
        r@ == key_of_digest(name@, digest),
        r@.len() == name@.len() + 17,
{
    let h = digest;
    let mut bytes: Vec<u8> = Vec::new();
    bytes.push(h as u8);
    bytes.push((h >> 8u64) as u8);
    bytes.push((h >> 16u64) as u8);
    bytes.push((h >> 24u64) as u8);
    bytes.push((h >> 32u64) as u8);
    bytes.push((h >> 40u64) as u8);
    bytes.push((h >> 48u64) as u8);
    bytes.push((h >> 56u64) as u8);
    assert(bytes@ =~= le_bytes(h));
    let hex = to_hex(&bytes);
    let mut r = String::from_str(name);
    proof {
        reveal_strlit("-");
    }
    r.append("-");
    r.append(hex.as_str());
    assert(r@ =~= key_of_digest(name@, digest));
    r
}

/// Derives the cache directory name for `name` fetched from `url`.
pub fn hashed_dirname(url: &str, name: &str) -> (r: String)
    ensures
        r@ == cache_key(url@, name@),
        r@.len() == name@.len() + 17,
{
    let h = sip13_digest(url);
    dirname_from_digest(name, h)
}

proof fn lemma_hex_digit_injective(a: int, b: int)
    requires
        0 <= a < 16,
        0 <= b < 16,
        hex_digit(a) == hex_digit(b),
    ensures
        a == b,
{
}

proof fn lemma_hex_of_injective(a: Seq<u8>, b: Seq<u8>)
    requires
        hex_of(a) == hex_of(b),
    ensures
        a == b,
{
    assert(a.len() == b.len()) by {
        assert(hex_of(a).len() == 2 * a.len());
    }
    assert forall|i: int| 0 <= i < a.len() implies a[i] == b[i] by {
        let j = 2 * i;
        assert(j / 2 == i && j % 2 == 0 && (j + 1) / 2 == i && (j + 1) % 2 == 1) by (nonlinear_arith)
            requires
                j == 2 * i,
        ;
        assert(hex_of(a)[j] == hex_of(b)[j]);
        assert(hex_of(a)[j + 1] == hex_of(b)[j + 1]);
        assert(hex_of(a)[j] == hex_digit(a[i] as int / 16));
        assert(hex_of(b)[j] == hex_digit(b[i] as int / 16));
        assert(hex_of(a)[j + 1] == hex_digit(a[i] as int % 16));
        assert(hex_of(b)[j + 1] == hex_digit(b[i] as int % 16));
        lemma_hex_digit_injective(a[i] as int / 16, b[i] as int / 16);
        lemma_hex_digit_injective(a[i] as int % 16, b[i] as int % 16);
        assert(a[i] as int == 16 * (a[i] as int / 16) + a[i] as int % 16);
        assert(b[i] as int == 16 * (b[i] as int / 16) + b[i] as int % 16);
    }
    assert(a =~= b);
}

proof fn lemma_le_bytes_injective(x: u64, y: u64)
    requires
        le_bytes(x) == le_bytes(y),
    ensures
        x == y,
{
    assert(le_bytes(x)[0] == le_bytes(y)[0]);
    assert(le_bytes(x)[1] == le_bytes(y)[1]);
    assert(le_bytes(x)[2] == le_bytes(y)[2]);
    assert(le_bytes(x)[3] == le_bytes(y)[3]);
    assert(le_bytes(x)[4] == le_bytes(y)[4]);
    assert(le_bytes(x)[5] == le_bytes(y)[5]);
    assert(le_bytes(x)[6] == le_bytes(y)[6]);
    assert(le_bytes(x)[7] == le_bytes(y)[7]);
    assert(
        (x as u8 == y as u8 && (x >> 8u64) as u8 == (y >> 8u64) as u8 && (x >> 16u64) as u8 == (y
            >> 16u64) as u8 && (x >> 24u64) as u8 == (y >> 24u64) as u8 && (x >> 32u64) as u8 == (y
            >> 32u64) as u8 && (x >> 40u64) as u8 == (y >> 40u64) as u8 && (x >> 48u64) as u8 == (y
            >> 48u64) as u8 && (x >> 56u64) as u8 == (y >> 56u64) as u8) ==> x == y
    ) by (bit_vector);
}

/// Key derivation is deterministic: two derivations from the same name and URL
/// give the same directory name.
pub proof fn lemma_key_deterministic(url: Seq<char>, name: Seq<char>, k1: Seq<char>, k2: Seq<char>)
    requires
        k1 == cache_key(url, name),
        k2 == cache_key(url, name),
    ensures
        k1 == k2,
        k1.len() > 0,
{
}

/// Key derivation tells URLs apart as far as their digests differ: under one
/// name, two URLs whose digests differ get different directory names.
pub proof fn lemma_key_separates_digests(u1: Seq<char>, u2: Seq<char>, name: Seq<char>)
    requires
        sip13_of_str(u1) != sip13_of_str(u2),
    ensures
        cache_key(u1, name) != cache_key(u2, name),
{
    if cache_key(u1, name) == cache_key(u2, name) {
        let n = name.len() + 1;
        let k1 = cache_key(u1, name);
        let k2 = cache_key(u2, name);
        assert(k1.subrange(n as int, k1.len() as int) =~= hex_of(le_bytes(sip13_of_str(u1))));
        assert(k2.subrange(n as int, k2.len() as int) =~= hex_of(le_bytes(sip13_of_str(u2))));
        lemma_hex_of_injective(le_bytes(sip13_of_str(u1)), le_bytes(sip13_of_str(u2)));
        lemma_le_bytes_injective(sip13_of_str(u1), sip13_of_str(u2));
    }
}

} // verus!
