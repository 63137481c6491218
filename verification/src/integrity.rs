//! Package integrity verification.
//!
//! Artifact bytes are fingerprinted with a fixed 512-bit digest and compared
//! against a registry-declared hex digest.  The digest itself comes from an
//! outside hashing crate; encoding it as lowercase hex and comparing digests
//! case-insensitively is verified here.

use vstd::prelude::*;
use vstd::string::StringExecFns;
use crate::text::{chars_vec, string_from_chars};

verus! {

/// The 64-byte SHA-512 digest of a byte sequence, named but not written out:
/// the trusted wrapper below ties it to the hashing crate.
pub uninterp spec fn sha512_of(data: Seq<u8>) -> Seq<u8>;

/// Relies on `sha2::Sha512` through `digest::Digest::digest`: the digest is a
/// pure function of the input bytes and is always 64 bytes long.
#[verifier::external_body]
fn sha512_digest(data: &Vec<u8>) -> (r: Vec<u8>)
    ensures
        r@ == sha512_of(data@),
        r@.len() == 64,
{
    <sha2::Sha512 as sha2::Digest>::digest(data.as_slice()).to_vec()
}

/// The lowercase hex character for a value below 16.
pub open spec fn hex_digit(n: int) -> char {
    if n == 0 { '0' } else if n == 1 { '1' } else if n == 2 { '2' } else if n == 3 { '3' }
    else if n == 4 { '4' } else if n == 5 { '5' } else if n == 6 { '6' } else if n == 7 { '7' }
    else if n == 8 { '8' } else if n == 9 { '9' } else if n == 10 { 'a' } else if n == 11 { 'b' }
    else if n == 12 { 'c' } else if n == 13 { 'd' } else if n == 14 { 'e' } else { 'f' }
}

/// Lowercase hex encoding of a byte sequence: two digits per byte.
pub open spec fn hex_of(data: Seq<u8>) -> Seq<char>
    decreases data.len(),
{
    if data.len() == 0 {
        Seq::empty()
    } else {
        hex_of(data.drop_last()) + seq![
            hex_digit(data.last() as int / 16),
            hex_digit(data.last() as int % 16),
        ]
    }
}

/// Uppercase hex letters fold to lowercase; all other characters are fixed.
pub open spec fn fold_hex_char(c: char) -> char {
    if 65 <= c as u32 <= 70 {
        ((c as u32) + 32) as char
    } else {
        c
    }
}

/// Case normalization of a digest string: every character folded to lowercase.
pub open spec fn fold_hex(s: Seq<char>) -> Seq<char> {
    s.map_values(|c: char| fold_hex_char(c))
}

pub(crate) fn hex_digit_char(n: u8) -> (r: char)
    requires
        n < 16,
    ensures
        r == hex_digit(n as int),
{
    if n == 0 { '0' } else if n == 1 { '1' } else if n == 2 { '2' } else if n == 3 { '3' }
    else if n == 4 { '4' } else if n == 5 { '5' } else if n == 6 { '6' } else if n == 7 { '7' }
    else if n == 8 { '8' } else if n == 9 { '9' } else if n == 10 { 'a' } else if n == 11 { 'b' }
    else if n == 12 { 'c' } else if n == 13 { 'd' } else if n == 14 { 'e' } else { 'f' }
}

fn hex_encode(data: &Vec<u8>) -> (r: Vec<char>)
    ensures
        r@ == hex_of(data@),
{
    let n = data.len();
    let mut r: Vec<char> = Vec::new();
    let mut i: usize = 0;
    while i < n
        invariant
            n == data@.len(),
            0 <= i <= n,
            r@ == hex_of(data@.take(i as int)),
        decreases n - i,
    {
        let b = data[i];
        r.push(hex_digit_char(b / 16));
        r.push(hex_digit_char(b % 16));
        proof {
            assert(data@.take(i + 1).drop_last() =~= data@.take(i as int));
            assert(data@.take(i + 1).last() == data@[i as int]);
        }
        i = i + 1;
    }
    proof {
        assert(data@.take(n as int) =~= data@);
    }
    r
}

fn fold_hex_char_exec(c: char) -> (r: char)
    ensures
        r == fold_hex_char(c),
{
    let u = c as u32;
    if 65 <= u && u <= 70 {
        ((u + 32) as u8) as char
    } else {
        c
    }
}

/// Case-insensitive digest comparison: both sides folded to lowercase.
fn hex_eq_ignore_case(a: &Vec<char>, b: &Vec<char>) -> (r: bool)
    ensures
        r == (fold_hex(a@) == fold_hex(b@)),
{
    if a.len() != b.len() {
        assert(fold_hex(a@).len() != fold_hex(b@).len());
        return false;
    }
    let n = a.len();
    let mut i: usize = 0;
    while i < n
        invariant
            n == a@.len() == b@.len(),
            0 <= i <= n,
            forall|j: int| 0 <= j < i ==> fold_hex_char(a@[j]) == fold_hex_char(b@[j]),
        decreases n - i,
    {
        if fold_hex_char_exec(a[i]) != fold_hex_char_exec(b[i]) {
            assert(fold_hex(a@)[i as int] != fold_hex(b@)[i as int]);
            return false;
        }
        i = i + 1;
    }
    assert(fold_hex(a@) =~= fold_hex(b@));
    true
}

/// Error taxonomy of integrity verification.
#[derive(Debug)]
pub enum IntegrityError {
    /// The computed digest differs from the declared one.
    HashMismatch { expected: String, actual: String },
    /// The artifact could not be read.
    IoError(String),
    /// The declared digest is not a digest at all.
    InvalidHashFormat,
}

impl IntegrityError {
    /// A human-readable description, never empty.
    pub fn message(&self) -> (r: String)
        ensures
            r@.len() > 0,
    {
        proof {
            reveal_strlit("Hash mismatch: expected ");
            reveal_strlit("IO error: ");
            reveal_strlit("Invalid hash format");
        }
        match self {
            IntegrityError::HashMismatch { expected, actual } => {
                let mut s: String = "Hash mismatch: expected ".to_owned();
                s.append(expected.as_str());
                s.append(", got ");
                s.append(actual.as_str());
                s
            },
            IntegrityError::IoError(e) => {
                let mut s: String = "IO error: ".to_owned();
                s.append(e.as_str());
                s
            },
            IntegrityError::InvalidHashFormat => "Invalid hash format".to_owned(),
        }
    }
}

/// Digest of the artifact bytes, as the registry publishes it: lowercase
/// hex, always 128 characters wide.
pub fn calculate_package_hash(content: &Vec<u8>) -> (r: String)
    ensures
        r@ == hex_of(sha512_of(content@)),
        r@.len() == 128,
{
    let digest = sha512_digest(content);
    let hex = hex_encode(&digest);
    proof {
        lemma_hex_len(sha512_of(content@));
    }
    string_from_chars(&hex)
}

/// Verify the integrity of package artifact bytes against an expected
/// SHA-512 digest given as a hex string.  Comparison is case-insensitive:
/// both digests are folded to lowercase first.  A mismatch carries the
/// declared digest as given and the actual computed digest.
pub fn verify_package_integrity(content: &Vec<u8>, expected_hash: &str) -> (r: Result<
    (),
    IntegrityError,
>)
    ensures
        r is Ok <==> fold_hex(expected_hash@) == hex_of(sha512_of(content@)),
        r is Err ==> (r matches Err(IntegrityError::HashMismatch { expected, actual })
            && expected@ == expected_hash@ && actual@ == hex_of(sha512_of(content@))
            && actual@.len() == 128),
{
    let digest = sha512_digest(content);
    let actual = hex_encode(&digest);
    proof {
        lemma_hex_len(sha512_of(content@));
    }
    let expected_chars = chars_vec(expected_hash);
    if hex_eq_ignore_case(&expected_chars, &actual) {
        proof {
            lemma_fold_hex_of_hex(sha512_of(content@));
        }
        Ok(())
    } else {
        proof {
            lemma_fold_hex_of_hex(sha512_of(content@));
        }
        Err(IntegrityError::HashMismatch {
            expected: expected_hash.to_owned(),
            actual: string_from_chars(&actual),
        })
    }
}

/// A hex encoding is twice as long as the bytes it encodes.
pub proof fn lemma_hex_len(data: Seq<u8>)
    ensures
        hex_of(data).len() == 2 * data.len(),
    decreases data.len(),
{
    if data.len() != 0 {
        lemma_hex_len(data.drop_last());
    }
}

/// Hex encodings are already lowercase, so case folding leaves them unchanged.
pub proof fn lemma_fold_hex_of_hex(data: Seq<u8>)
    ensures
        fold_hex(hex_of(data)) == hex_of(data),
    decreases data.len(),
{
    if data.len() == 0 {
        assert(fold_hex(hex_of(data)) =~= hex_of(data));
    } else {
        lemma_fold_hex_of_hex(data.drop_last());
        assert(fold_hex(hex_of(data)) =~= hex_of(data));
    }
}

/// Digest round trip: an artifact always verifies against its own computed
/// digest, because the computed digest is lowercase hex and case folding
/// leaves it unchanged; any digest whose lowercase folding differs from the
/// computed one is rejected, and the mismatch carries the computed digest.
pub proof fn lemma_digest_round_trip(b: Seq<u8>)
    ensures
        fold_hex(hex_of(sha512_of(b))) == hex_of(sha512_of(b)),
{
    lemma_fold_hex_of_hex(sha512_of(b));
}

} // verus!
