//! Published digests and their canonical form.
//!
//! A registry publishes either an integrity string, which lists one or more
//! `algorithm-base64` pairs, or a bare checksum. Both are brought to one
//! digest: an algorithm, `sha1` or `sha512`, and the hash in lower-case
//! hexadecimal.

use vstd::prelude::*;
use vstd::utf8::encode_utf8;
use crate::error::{Failure, ResolveError};

verus! {

/// The algorithms an integrity string can name, strongest first.
#[derive(Clone, Copy, PartialEq, Eq, Structural, Debug)]
pub enum HashAlgorithm {
    Sha512,
    Sha384,
    Sha256,
    Sha1,
}

/// One `algorithm-digest` pair of an integrity string. The digest is in
/// base-64.
#[derive(Clone, Debug, PartialEq, Eq)]
pub struct HashEntry {
    pub algorithm: HashAlgorithm,
    pub digest: String,
}

impl View for HashEntry {
    type V = (HashAlgorithm, Seq<char>);

    open spec fn view(&self) -> (HashAlgorithm, Seq<char>) {
        (self.algorithm, self.digest@)
    }
}

/// The pairs held by a list of entries.
pub open spec fn pairs_of(entries: Seq<HashEntry>) -> Seq<(HashAlgorithm, Seq<char>)> {
    Seq::new(entries.len(), |i: int| entries[i]@)
}

/// The algorithms a canonical digest can have.
#[derive(Clone, Copy, PartialEq, Eq, Structural, Debug)]
pub enum DigestAlgorithm {
    Sha1,
    Sha512,
}

/// A canonical digest.
#[derive(Clone, Debug, PartialEq, Eq)]
pub struct IntegrityDigest {
    pub algorithm: DigestAlgorithm,
    /// The hash in lower-case hexadecimal.
    pub hex: String,
}

/// A canonical digest, its text as a character sequence.
pub ghost struct Digest {
    pub algorithm: DigestAlgorithm,
    pub hex: Seq<char>,
}

impl View for IntegrityDigest {
    type V = Digest;

    open spec fn view(&self) -> Digest {
        Digest { algorithm: self.algorithm, hex: self.hex@ }
    }
}

/// What a registry published for a version.
#[derive(Clone, Debug, PartialEq, Eq)]
pub enum PublishedDigest {
    /// An integrity string.
    Integrity(String),
    /// A bare checksum, as the text that the document holds for it.
    Shasum(String),
}

/// What a registry published for a version, as character sequences.
pub ghost enum Published {
    Integrity(Seq<char>),
    Shasum(Seq<char>),
}

impl View for PublishedDigest {
    type V = Published;

    open spec fn view(&self) -> Published {
        match self {
            PublishedDigest::Integrity(text) => Published::Integrity(text@),
            PublishedDigest::Shasum(text) => Published::Shasum(text@),
        }
    }
}

/// The pairs that `ssri` reads out of an integrity string, in the order in
/// which it keeps them, or `None` where it rejects the string.
pub uninterp spec fn sri_entries(text: Seq<char>) -> Option<Seq<(HashAlgorithm, Seq<char>)>>;

/// The bytes that standard base-64 text decodes to, or `None` where the
/// text is not standard base-64.
pub uninterp spec fn base64_decoded(text: Seq<char>) -> Option<Seq<u8>>;

/// Parses an integrity string with `ssri`, through `str::parse` for
/// `ssri::Integrity`, and hands its hashes over one for one.
///
/// Believed: the entries are those that `sri_entries` names for the text,
/// and the parse fails exactly where `sri_entries` is `None`.
#[verifier::external_body]
fn parse_sri(text: &str) -> (r: Option<Vec<HashEntry>>)
    ensures
        match r {
            Some(entries) => sri_entries(text@) == Some(pairs_of(entries@)),
            None => sri_entries(text@) is None,
        },
{
    let parsed: ssri::Integrity = text.parse().ok()?;
    let mut entries = Vec::new();
    for hash in parsed.hashes {
        let algorithm = match hash.algorithm {
            ssri::Algorithm::Sha512 => HashAlgorithm::Sha512,
            ssri::Algorithm::Sha384 => HashAlgorithm::Sha384,
            ssri::Algorithm::Sha256 => HashAlgorithm::Sha256,
            ssri::Algorithm::Sha1 => HashAlgorithm::Sha1,
        };
        entries.push(HashEntry { algorithm, digest: hash.digest });
    }
    Some(entries)
}

/// Encodes bytes with `base64::encode`.
///
/// Believed: the text is standard base-64 that decodes back to the bytes.
#[verifier::external_body]
fn base64_encode(bytes: &[u8]) -> (r: String)
    ensures
        base64_decoded(r@) == Some(bytes@),
{
    base64::encode(bytes)
}

/// Decodes text with `base64::decode`.
///
/// Believed: the bytes are those that `base64_decoded` names for the text,
/// and decoding fails exactly where `base64_decoded` is `None`.
#[verifier::external_body]
fn base64_decode(text: &str) -> (r: Option<Vec<u8>>)
    ensures
        match r {
            Some(bytes) => base64_decoded(text@) == Some(bytes@),
            None => base64_decoded(text@) is None,
        },
{
    base64::decode(text).ok()
}

/// The lower-case hexadecimal digit for `n`, which is below sixteen.
pub open spec fn hex_digit(n: u8) -> char {
    if n < 10 {
        ((48 + n) as u8) as char
    } else {
        ((87 + n) as u8) as char
    }
}

/// The bytes in lower-case hexadecimal, two digits each, high digit first.
pub open spec fn hex_lower(bytes: Seq<u8>) -> Seq<char>
    decreases bytes.len(),
{
    if bytes.len() == 0 {
        Seq::empty()
    } else {
        hex_lower(bytes.drop_last()).push(hex_digit(bytes.last() / 16)).push(
            hex_digit(bytes.last() % 16),
        )
    }
}

fn digit(n: u8) -> (c: char)
    requires
        n < 16,
    ensures
        c == hex_digit(n),
{
    if n < 10 {
        (48u8 + n) as char
    } else {
        (87u8 + n) as char
    }
}

/// Writes `bytes` in lower-case hexadecimal.
pub fn to_hex(bytes: &Vec<u8>) -> (s: String)
    ensures
        s@ == hex_lower(bytes@),
{
    let mut s = String::new();
    let mut i: usize = 0;
    while i < bytes.len()
        invariant
            i <= bytes@.len(),
            s@ == hex_lower(bytes@.take(i as int)),
        decreases bytes@.len() - i,
    {
        let b = bytes[i];
        proof {
            assert(bytes@.take(i + 1).drop_last() == bytes@.take(i as int));
        }
        s.push(digit(b / 16));
        s.push(digit(b % 16));
        i += 1;
    }
    proof {
        assert(bytes@.take(i as int) == bytes@);
    }
    s
}

/// The name under which a digest algorithm is written.
pub open spec fn algorithm_name(algorithm: DigestAlgorithm) -> Seq<char> {
    match algorithm {
        DigestAlgorithm::Sha1 => seq!['s', 'h', 'a', '1'],
        DigestAlgorithm::Sha512 => seq!['s', 'h', 'a', '5', '1', '2'],
    }
}

/// The canonical text of a digest: its algorithm's name, a hyphen, its hash.
pub open spec fn rendered(digest: Digest) -> Seq<char> {
    algorithm_name(digest.algorithm).push('-') + digest.hex
}

impl IntegrityDigest {
    /// The digest as text, `sha1-<hex>` or `sha512-<hex>`.
    pub fn render(&self) -> (s: String)
        ensures
            s@ == rendered(self@),
    {
        let head = match self.algorithm {
            DigestAlgorithm::Sha1 => "sha1-",
            DigestAlgorithm::Sha512 => "sha512-",
        };
        proof {
            reveal_strlit("sha1-");
            reveal_strlit("sha512-");
        }
        let mut s = head.to_owned();
        s.append(self.hex.as_str());
        s
    }
}

/// The position of the first entry with algorithm `wanted`, or the number
/// of entries if there is none.
pub open spec fn first_with(entries: Seq<(HashAlgorithm, Seq<char>)>, wanted: HashAlgorithm) -> int
    decreases entries.len(),
{
    if entries.len() == 0 {
        0
    } else if entries.first().0 == wanted {
        0
    } else {
        1 + first_with(entries.drop_first(), wanted)
    }
}

/// The entry that survives: the first `sha512` entry if there is one, else
/// the first `sha1` entry, else none. Entries of other algorithms never
/// survive.
pub open spec fn strongest(entries: Seq<(HashAlgorithm, Seq<char>)>) -> Option<
    (DigestAlgorithm, int),
> {
    if first_with(entries, HashAlgorithm::Sha512) < entries.len() {
        Some((DigestAlgorithm::Sha512, first_with(entries, HashAlgorithm::Sha512)))
    } else if first_with(entries, HashAlgorithm::Sha1) < entries.len() {
        Some((DigestAlgorithm::Sha1, first_with(entries, HashAlgorithm::Sha1)))
    } else {
        None
    }
}

/// Where no entry before position `i` has algorithm `wanted`, the first
/// such entry is found `i` further than in what follows.
proof fn lemma_first_with_skip(
    entries: Seq<(HashAlgorithm, Seq<char>)>,
    i: int,
    wanted: HashAlgorithm,
)
    requires
        0 <= i <= entries.len(),
        forall|j: int| 0 <= j < i ==> entries[j].0 != wanted,
    ensures
        first_with(entries, wanted) == i + first_with(entries.skip(i), wanted),
    decreases i,
{
    if i == 0 {
        assert(entries.skip(0) == entries);
    } else {
        let rest = entries.drop_first();
        assert forall|j: int| 0 <= j < i - 1 implies rest[j].0 != wanted by {}
        lemma_first_with_skip(rest, i - 1, wanted);
        assert(rest.skip(i - 1) == entries.skip(i));
    }
}

/// The position of the first entry with algorithm `wanted`.
fn find_algorithm(entries: &Vec<HashEntry>, wanted: HashAlgorithm) -> (r: Option<usize>)
    ensures
        match r {
            Some(i) => i < entries@.len() && i == first_with(pairs_of(entries@), wanted),
            None => first_with(pairs_of(entries@), wanted) == entries@.len(),
        },
{
    let ghost pairs = pairs_of(entries@);
    let mut i: usize = 0;
    while i < entries.len()
        invariant
            i <= entries@.len(),
            pairs == pairs_of(entries@),
            forall|j: int| 0 <= j < i ==> pairs[j].0 != wanted,
        decreases entries@.len() - i,
    {
        if entries[i].algorithm == wanted {
            proof {
                lemma_first_with_skip(pairs, i as int, wanted);
            }
            return Some(i);
        }
        i += 1;
    }
    proof {
        lemma_first_with_skip(pairs, i as int, wanted);
    }
    None
}

/// Picks the entry that survives normalisation: `sha512` before `sha1`,
/// the first of its algorithm, and nothing else.
pub fn strongest_entry(entries: &Vec<HashEntry>) -> (r: Option<(DigestAlgorithm, usize)>)
    ensures
        match r {
            Some((algorithm, i)) => i < entries@.len() && strongest(pairs_of(entries@)) == Some(
                (algorithm, i as int),
            ),
            None => strongest(pairs_of(entries@)) is None,
        },
{
    match find_algorithm(entries, HashAlgorithm::Sha512) {
        Some(i) => Some((DigestAlgorithm::Sha512, i)),
        None => match find_algorithm(entries, HashAlgorithm::Sha1) {
            Some(i) => Some((DigestAlgorithm::Sha1, i)),
            None => None,
        },
    }
}

/// The canonical digest of a list of entries: the surviving entry, its
/// base-64 digest decoded and written in hexadecimal. There is none where
/// no entry survives or the survivor's digest is not base-64.
pub open spec fn chosen_digest(entries: Seq<(HashAlgorithm, Seq<char>)>) -> Result<
    Digest,
    Failure,
> {
    match strongest(entries) {
        None => Err(Failure::IntegrityConversion),
        Some((algorithm, i)) => match base64_decoded(entries[i].1) {
            None => Err(Failure::IntegrityConversion),
            Some(bytes) => Ok(Digest { algorithm, hex: hex_lower(bytes) }),
        },
    }
}

/// The canonical digest of what a registry published.
///
/// An integrity string is read into its entries. A bare checksum stands
/// for one `sha1` entry whose digest is the base-64 of the checksum's text,
/// so its canonical hash is the hexadecimal of that text's bytes.
pub open spec fn normalized(published: Published) -> Result<Digest, Failure> {
    match published {
        Published::Integrity(text) => match sri_entries(text) {
            None => Err(Failure::HashParse { hash: text }),
            Some(entries) => chosen_digest(entries),
        },
        Published::Shasum(text) => Ok(
            Digest { algorithm: DigestAlgorithm::Sha1, hex: hex_lower(encode_utf8(text)) },
        ),
    }
}

/// Whether `r` is the executable form of `expected`.
pub open spec fn digest_result_is(
    r: Result<IntegrityDigest, ResolveError>,
    expected: Result<Digest, Failure>,
) -> bool {
    match r {
        Ok(digest) => expected == Ok::<Digest, Failure>(digest@),
        Err(error) => expected == Err::<Digest, Failure>(error@),
    }
}

/// Reduces a list of entries to one canonical digest.
///
/// Fails with [`ResolveError::IntegrityConversion`] exactly when no `sha1`
/// or `sha512` entry is present or the chosen digest is not base-64.
pub fn digest_of_entries(entries: &Vec<HashEntry>) -> (r: Result<IntegrityDigest, ResolveError>)
    ensures
        digest_result_is(r, chosen_digest(pairs_of(entries@))),
{
    match strongest_entry(entries) {
        None => Err(ResolveError::IntegrityConversion),
        Some((algorithm, i)) => match base64_decode(entries[i].digest.as_str()) {
            None => Err(ResolveError::IntegrityConversion),
            Some(bytes) => Ok(IntegrityDigest { algorithm, hex: to_hex(&bytes) }),
        },
    }
}

/// Brings what a registry published to its canonical digest.
///
/// Fails with [`ResolveError::HashParse`], carrying the string, exactly
/// when an integrity string cannot be read, and otherwise as
/// [`digest_of_entries`] does. A bare checksum never fails.
pub fn normalize(published: &PublishedDigest) -> (r: Result<IntegrityDigest, ResolveError>)
    ensures
        digest_result_is(r, normalized(published@)),
{
    match published {
        PublishedDigest::Integrity(text) => match parse_sri(text.as_str()) {
            None => Err(ResolveError::HashParse { hash: text.clone() }),
            Some(entries) => digest_of_entries(&entries),
        },
        PublishedDigest::Shasum(text) => {
            let bytes = text.as_str().as_bytes();
            let digest = base64_encode(bytes);
            let mut entries: Vec<HashEntry> = Vec::new();
            entries.push(HashEntry { algorithm: HashAlgorithm::Sha1, digest });
            proof {
                let pairs = pairs_of(entries@);
                assert(first_with(pairs.drop_first(), HashAlgorithm::Sha512) == 0);
            }
            digest_of_entries(&entries)
        },
    }
}

/// A bare checksum always normalises to a `sha1` digest, whose text begins
/// with `sha1-`.
pub proof fn lemma_shasum_gives_sha1(text: Seq<char>)
    ensures
        normalized(Published::Shasum(text)) matches Ok(digest) && digest.algorithm
            == DigestAlgorithm::Sha1 && seq!['s', 'h', 'a', '1', '-'].is_prefix_of(
            rendered(digest),
        ),
{
}

/// When normalising its own output gives a digest back.
///
/// The text of a canonical digest, read as an integrity string of one pair
/// with the digest's algorithm and hash, normalises to the same digest
/// exactly when the hash, taken as base-64, decodes to bytes whose
/// hexadecimal form is that hash again.
pub proof fn lemma_canonical_text_fixed_point(digest: Digest)
    ensures
        ({
            let algorithm = match digest.algorithm {
                DigestAlgorithm::Sha1 => HashAlgorithm::Sha1,
                DigestAlgorithm::Sha512 => HashAlgorithm::Sha512,
            };
            sri_entries(rendered(digest)) == Some(seq![(algorithm, digest.hex)]) ==> (normalized(
                Published::Integrity(rendered(digest)),
            ) == Ok::<Digest, Failure>(digest) <==> (base64_decoded(digest.hex) matches Some(bytes)
                && hex_lower(bytes) == digest.hex))
        }),
{
    let algorithm = match digest.algorithm {
        DigestAlgorithm::Sha1 => HashAlgorithm::Sha1,
        DigestAlgorithm::Sha512 => HashAlgorithm::Sha512,
    };
    let entries = seq![(algorithm, digest.hex)];
    assert(first_with(entries.drop_first(), HashAlgorithm::Sha512) == 0);
}

} // verus!
