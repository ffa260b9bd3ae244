//! Checksum engine: computes the two digests the SBOM schema mandates for a
//! file, a legacy 160-bit SHA-1 digest and a modern 256-bit SHA-256 digest,
//! both rendered as lowercase hexadecimal strings.

use sha1::Digest;
use vstd::prelude::*;

verus! {

/// The SHA-1 digest of a byte sequence. The algorithm is left uninterpreted:
/// the trusted wrapper below ties the name to the outside implementation.
pub uninterp spec fn sha1_of(data: Seq<u8>) -> Seq<u8>;

/// The SHA-256 digest of a byte sequence, likewise uninterpreted.
pub uninterp spec fn sha256_of(data: Seq<u8>) -> Seq<u8>;

/// Relies on sha1::Sha1 through digest::Digest::digest: returns the 20-byte
/// SHA-1 digest, a function of the input bytes alone.
#[verifier::external_body]
fn sha1_digest(data: &[u8]) -> (r: Vec<u8>)
    ensures
        r@ == sha1_of(data@),
        r@.len() == 20,
{
    sha1::Sha1::digest(data).as_slice().to_vec()
}

/// Relies on sha2::Sha256 through digest::Digest::digest: returns the 32-byte
/// SHA-256 digest, a function of the input bytes alone.
#[verifier::external_body]
fn sha256_digest(data: &[u8]) -> (r: Vec<u8>)
    ensures
        r@ == sha256_of(data@),
        r@.len() == 32,
{
    sha2::Sha256::digest(data).as_slice().to_vec()
}

/// The lowercase hexadecimal digit for a value below sixteen.
pub open spec fn hex_digit(n: u8) -> char {
    if n == 0 {
        '0'
    } else if n == 1 {
        '1'
    } else if n == 2 {
        '2'
    } else if n == 3 {
        '3'
    } else if n == 4 {
        '4'
    } else if n == 5 {
        '5'
    } else if n == 6 {
        '6'
    } else if n == 7 {
        '7'
    } else if n == 8 {
        '8'
    } else if n == 9 {
        '9'
    } else if n == 10 {
        'a'
    } else if n == 11 {
        'b'
    } else if n == 12 {
        'c'
    } else if n == 13 {
        'd'
    } else if n == 14 {
        'e'
    } else {
        'f'
    }
}

/// The lowercase hexadecimal rendering of a byte sequence: two digits per
/// byte, high nibble first.
pub open spec fn hex_of(data: Seq<u8>) -> Seq<char>
    decreases data.len(),
{
    if data.len() == 0 {
        Seq::empty()
    } else {
        seq![hex_digit(data.first() / 16), hex_digit(data.first() % 16)] + hex_of(
            data.drop_first(),
        )
    }
}

/// A character is a lowercase hexadecimal digit.
pub open spec fn is_lower_hex(c: char) -> bool {
    ('0' <= c && c <= '9') || ('a' <= c && c <= 'f')
}

pub proof fn lemma_hex_of_shape(data: Seq<u8>)
    ensures
        hex_of(data).len() == 2 * data.len(),
        forall|i: int| 0 <= i < hex_of(data).len() ==> is_lower_hex(#[trigger] hex_of(data)[i]),
    decreases data.len(),
{
    if data.len() > 0 {
        lemma_hex_of_shape(data.drop_first());
    }
}

fn exec_hex_digit(n: u8) -> (c: char)
    requires
        n < 16,
    ensures
        c == hex_digit(n),
{
    match n {
        0 => '0',
        1 => '1',
        2 => '2',
        3 => '3',
        4 => '4',
        5 => '5',
        6 => '6',
        7 => '7',
        8 => '8',
        9 => '9',
        10 => 'a',
        11 => 'b',
        12 => 'c',
        13 => 'd',
        14 => 'e',
        _ => 'f',
    }
}

/// Relies on alloc::string::String::push: appends exactly the given character.
#[verifier::external_body]
fn push_char(s: &mut String, c: char)
    ensures
        final(s)@ == old(s)@ + seq![c],
{
    s.push(c)
}

/// Renders a byte sequence as lowercase hexadecimal, two digits per byte.
pub fn hex_encode(data: &[u8]) -> (r: String)
    ensures
        r@ == hex_of(data@),
        r@.len() == 2 * data@.len(),
{
    let mut r = String::new();
    let n = data.len();
    assert(data@.skip(0) == data@);
    for i in 0..n
        invariant
            n == data@.len(),
            r@.len() == 2 * i,
            hex_of(data@) == r@ + hex_of(data@.skip(i as int)),
    {
        let b = data[i];
        push_char(&mut r, exec_hex_digit(b / 16));
        push_char(&mut r, exec_hex_digit(b % 16));
        proof {
            assert(data@.skip(i as int).drop_first() == data@.skip(i + 1));
            assert(hex_of(data@) =~= r@ + hex_of(data@.skip(i + 1)));
        }
    }
    proof {
        assert(hex_of(data@) =~= r@);
        lemma_hex_of_shape(data@);
    }
    r
}

/// The digest algorithms the schema knows; the document only ever carries the
/// two mandated ones.
#[derive(Clone, Copy, Debug, PartialEq, Eq, Structural)]
pub enum Algorithm {
    SHA1,
    SHA256,
}

/// One digest record: the algorithm and its lowercase hexadecimal value.
#[derive(Clone, Debug)]
pub struct Checksum {
    pub algorithm: Algorithm,
    pub value: String,
}

/// The legacy digest rendering of a byte content, as written into a document.
pub open spec fn legacy_digest(data: Seq<u8>) -> Seq<char> {
    hex_of(sha1_of(data))
}

/// The modern digest rendering of a byte content, as written into a document.
pub open spec fn modern_digest(data: Seq<u8>) -> Seq<char> {
    hex_of(sha256_of(data))
}

/// Computes the two mandated digests of a file's content: SHA-1 first for
/// schema compatibility, then SHA-256 for integrity, both in lowercase hex of
/// the fixed documented lengths.
pub fn calculate_checksums(data: &[u8]) -> (r: Vec<Checksum>)
    ensures
        r@.len() == 2,
        r@[0].algorithm == Algorithm::SHA1,
        r@[0].value@ == legacy_digest(data@),
        r@[0].value@.len() == 40,
        r@[1].algorithm == Algorithm::SHA256,
        r@[1].value@ == modern_digest(data@),
        r@[1].value@.len() == 64,
        forall|i: int, j: int|
            0 <= i < 2 && 0 <= j < r@[i].value@.len() ==> is_lower_hex(#[trigger] r@[i].value@[j]),
{
    let sha1_hash = sha1_digest(data);
    let sha256_hash = sha256_digest(data);
    let mut r: Vec<Checksum> = Vec::new();
    r.push(Checksum { algorithm: Algorithm::SHA1, value: hex_encode(sha1_hash.as_slice()) });
    r.push(Checksum { algorithm: Algorithm::SHA256, value: hex_encode(sha256_hash.as_slice()) });
    proof {
        lemma_hex_of_shape(sha1_hash@);
        lemma_hex_of_shape(sha256_hash@);
    }
    r
}

/// Law: checksumming is deterministic. The same byte content always yields
/// the same legacy and the same modern digest rendering.
pub proof fn lemma_checksums_deterministic(a: Seq<u8>, b: Seq<u8>)
    requires
        a == b,
    ensures
        legacy_digest(a) == legacy_digest(b),
        modern_digest(a) == modern_digest(b),
{
}

} // verus!
