//! Semantic versions and ranges, as `semver_rs` reads them.
//!
//! A range and a version are kept as `semver_rs` parsed them, each together
//! with the text it was parsed from. What `semver_rs` decides about them is
//! stated over those texts.

use vstd::prelude::*;
use crate::text::chars_of;

verus! {

/// `semver_rs::Range`, carried as it is. Nothing is known of what is
/// inside.
#[verifier::external_type_specification]
#[verifier::external_body]
pub struct ExRange(semver_rs::Range);

/// `semver_rs::Version`, carried as it is. Nothing is known of what is
/// inside.
#[verifier::external_type_specification]
#[verifier::external_body]
pub struct ExVersion(semver_rs::Version);

/// Whether `semver_rs` accepts the text as a range.
pub uninterp spec fn semver_range_ok(text: Seq<char>) -> bool;

/// Whether `semver_rs` reads the text as a version without an error.
pub uninterp spec fn semver_version_ok(text: Seq<char>) -> bool;

/// Whether what `semver_rs` reads from the text is its empty version, the
/// one it gives for a text that has not the form of a version.
pub uninterp spec fn semver_blank(text: Seq<char>) -> bool;

/// Whether the text is a version: `semver_rs` reads it without an error,
/// and what it reads is not the empty version.
pub open spec fn is_version(text: Seq<char>) -> bool {
    semver_version_ok(text) && !semver_blank(text)
}

/// Whether the range parsed from `range` accepts the version parsed from
/// `version`.
pub uninterp spec fn semver_admits(range: Seq<char>, version: Seq<char>) -> bool;

/// Whether the version parsed from `a` comes before the one parsed from
/// `b` in semver precedence.
pub uninterp spec fn semver_less(a: Seq<char>, b: Seq<char>) -> bool;

/// The text that `semver_rs` writes for the version parsed from `version`.
pub uninterp spec fn semver_text(version: Seq<char>) -> Seq<char>;

/// The longest run of decimal digits that a range may hold outside a
/// prerelease or build tag. A number of that length fits every integer
/// type that `semver_rs` reads the numbers of a version into, with room to
/// add one.
pub const MAX_DIGITS: usize = 9;

/// Whether `c` is one of `0` to `9`.
pub open spec fn is_digit(c: char) -> bool {
    '0' <= c <= '9'
}

/// Whether `c` ends a piece of a range: white space, a control character
/// or `|`.
pub open spec fn is_break(c: char) -> bool {
    (c as u32) <= 32 || c == '|'
}

/// Whether `c` opens a prerelease or build tag.
pub open spec fn opens_tag(c: char) -> bool {
    c == '-' || c == '+'
}

/// Whether `s` ends inside a tag: a `-` or `+` stands in it, and no break
/// after that.
pub open spec fn in_tag(s: Seq<char>) -> bool
    decreases s.len(),
{
    if s.len() == 0 {
        false
    } else if is_break(s.last()) {
        false
    } else if opens_tag(s.last()) {
        true
    } else {
        in_tag(s.drop_last())
    }
}

/// The length of the run of digits outside tags that `s` ends in.
pub open spec fn digit_run(s: Seq<char>) -> nat
    decreases s.len(),
{
    if s.len() == 0 {
        0
    } else if is_digit(s.last()) && !in_tag(s.drop_last()) {
        digit_run(s.drop_last()) + 1
    } else {
        0
    }
}

/// Whether a range text can be handed to `semver_rs`: it is ASCII, and no
/// run of digits outside a tag is longer than [`MAX_DIGITS`].
pub open spec fn range_text_safe(s: Seq<char>) -> bool {
    &&& forall|i: int| 0 <= i < s.len() ==> (s[i] as u32) < 128
    &&& forall|i: int| 0 <= i <= s.len() ==> digit_run(#[trigger] s.take(i)) <= MAX_DIGITS
}

/// Decides [`range_text_safe`].
pub fn is_range_text_safe(text: &str) -> (r: bool)
    ensures
        r == range_text_safe(text@),
{
    let chars = chars_of(text);
    let mut tag: bool = false;
    let mut run: usize = 0;
    let mut i: usize = 0;
    while i < chars.len()
        invariant
            i <= chars@.len(),
            chars@ == text@,
            tag == in_tag(chars@.take(i as int)),
            run == digit_run(chars@.take(i as int)),
            run <= MAX_DIGITS,
            forall|j: int| 0 <= j < i ==> (chars@[j] as u32) < 128,
            forall|j: int| 0 <= j <= i ==> digit_run(#[trigger] chars@.take(j)) <= MAX_DIGITS,
        decreases chars@.len() - i,
    {
        let c = chars[i];
        proof {
            assert(chars@.take(i + 1).drop_last() == chars@.take(i as int));
        }
        if c as u32 >= 128 {
            return false;
        }
        if '0' <= c && c <= '9' && !tag {
            run += 1;
        } else {
            run = 0;
        }
        if c as u32 <= 32 || c == '|' {
            tag = false;
        } else if c == '-' || c == '+' {
            tag = true;
        }
        if run > MAX_DIGITS {
            return false;
        }
        i += 1;
    }
    true
}

/// A parsed range. Its view is the text it was parsed from.
pub struct SemverRange {
    text: Ghost<Seq<char>>,
    inner: semver_rs::Range,
}

/// A parsed version. Its view is the text it was parsed from.
pub struct SemverVersion {
    text: Ghost<Seq<char>>,
    inner: semver_rs::Version,
}

impl View for SemverRange {
    type V = Seq<char>;

    closed spec fn view(&self) -> Seq<char> {
        self.text@
    }
}

impl View for SemverVersion {
    type V = Seq<char>;

    closed spec fn view(&self) -> Seq<char> {
        self.text@
    }
}

/// Parses a range with `semver_rs::Range::new(..).parse()` and keeps it
/// with its text. Nothing else makes a [`SemverRange`].
///
/// Believed: for a safe text the call returns; it succeeds exactly where
/// `semver_range_ok` holds of the text; the range's view is the text.
/// `semver_rs` turns into integers without a check only the major, minor
/// and patch numbers of a comparator, which stand before every `-` and `+`
/// of their piece; what follows one of these is a tag and stays text.
#[verifier::external_body]
fn parse_range_text(text: &str) -> (r: Option<SemverRange>)
    requires
        range_text_safe(text@),
    ensures
        r is Some <==> semver_range_ok(text@),
        r matches Some(range) ==> range@ == text@,
{
    let inner = semver_rs::Range::new(text).parse().ok()?;
    Some(SemverRange { text: Ghost(text@), inner })
}

/// Parses a version with `semver_rs::Version::new(..).parse()` and keeps
/// it with its text. Nothing else makes a [`SemverVersion`].
///
/// Believed: the call succeeds exactly where `semver_version_ok` holds of
/// the text; the version's view is the text.
#[verifier::external_body]
fn parse_version_text(text: &str) -> (r: Option<SemverVersion>)
    ensures
        r is Some <==> semver_version_ok(text@),
        r matches Some(version) ==> version@ == text@,
{
    let inner = semver_rs::Version::new(text).parse().ok()?;
    Some(SemverVersion { text: Ghost(text@), inner })
}

/// Tests a version against a range with `semver_rs::Range::test`.
///
/// Believed: the answer is what `semver_admits` names for the texts that
/// the range and the version were parsed from.
#[verifier::external_body]
pub(crate) fn range_test(range: &SemverRange, version: &SemverVersion) -> (r: bool)
    ensures
        r == semver_admits(range@, version@),
{
    range.inner.test(&version.inner)
}

/// Compares two versions with `semver_rs::Version`'s `<`.
///
/// Believed: the answer is what `semver_less` names for the texts that the
/// versions were parsed from. `semver_rs::Version` implements `Ord`, by
/// the three numbers and then the prerelease tags, so `<` orders versions:
/// of two versions at most one comes before the other, and a version that
/// comes before a second comes before every version that the second comes
/// before.
#[verifier::external_body]
pub(crate) fn version_less(a: &SemverVersion, b: &SemverVersion) -> (r: bool)
    ensures
        r == semver_less(a@, b@),
        r ==> !semver_less(b@, a@),
        forall|c: Seq<char>|
            r && semver_version_ok(c) && #[trigger] semver_less(b@, c) ==> semver_less(a@, c),
{
    a.inner.lt(&b.inner)
}

/// Asks `semver_rs::Version::is_empty` whether a version is the empty one.
///
/// Believed: the answer is what `semver_blank` names for the text that the
/// version was parsed from.
#[verifier::external_body]
fn version_is_blank(version: &SemverVersion) -> (r: bool)
    ensures
        r == semver_blank(version@),
{
    version.inner.is_empty()
}

/// Writes a version with `semver_rs::Version`'s `to_string`.
///
/// Believed: the text is what `semver_text` names for the text that the
/// version was parsed from.
#[verifier::external_body]
pub(crate) fn version_text(version: &SemverVersion) -> (r: String)
    ensures
        r@ == semver_text(version@),
{
    version.inner.to_string()
}

impl SemverRange {
    /// Parses a range. There is none where the text is not safe to parse
    /// or is not a range.
    pub fn parse(text: &str) -> (r: Option<SemverRange>)
        ensures
            r is Some <==> range_text_safe(text@) && semver_range_ok(text@),
            r matches Some(range) ==> range@ == text@,
    {
        if !is_range_text_safe(text) {
            return None;
        }
        parse_range_text(text)
    }
}

impl SemverVersion {
    /// Parses a version. There is none where the text is not a version.
    pub fn parse(text: &str) -> (r: Option<SemverVersion>)
        ensures
            r is Some <==> is_version(text@),
            r matches Some(version) ==> version@ == text@,
    {
        match parse_version_text(text) {
            Some(version) => {
                if version_is_blank(&version) {
                    None
                } else {
                    Some(version)
                }
            },
            None => None,
        }
    }
}

} // verus!
