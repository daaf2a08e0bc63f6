//! Package specifiers: `name`, `@scope/name`, `name@range` and
//! `@scope/name@range`.

use vstd::prelude::*;
use crate::error::{Failure, ResolveError};
use crate::text::{chars_of, string_of};

verus! {

/// How often `c` occurs in `s`.
pub open spec fn count_of(s: Seq<char>, c: char) -> nat
    decreases s.len(),
{
    if s.len() == 0 {
        0
    } else {
        count_of(s.drop_last(), c) + if s.last() == c { 1nat } else { 0nat }
    }
}

/// The position of the first `c` in `s`, or `s.len()` if there is none.
pub open spec fn first_index_of(s: Seq<char>, c: char) -> int
    decreases s.len(),
{
    if s.len() == 0 {
        0
    } else if s.first() == c {
        0
    } else {
        1 + first_index_of(s.drop_first(), c)
    }
}

/// The position of the last `c` in `s`, or `-1` if there is none.
pub open spec fn last_index_of(s: Seq<char>, c: char) -> int
    decreases s.len(),
{
    if s.len() == 0 {
        -1
    } else if s.last() == c {
        s.len() - 1
    } else {
        last_index_of(s.drop_last(), c)
    }
}

/// The scope of a bare package name: what stands before its first `/`.
pub open spec fn scope_of(name: Seq<char>) -> Option<Seq<char>> {
    if name.contains('/') {
        Some(name.take(first_index_of(name, '/')))
    } else {
        None
    }
}

/// A specifier as the parser understands it.
pub ghost struct Specifier {
    /// The specifier as it was given.
    pub raw: Seq<char>,
    /// What stands before the first `/` of `name`, if it has one.
    pub scope: Option<Seq<char>>,
    /// The package name the registry is asked for.
    pub name: Seq<char>,
    /// The version range, where the specifier carries one.
    pub constraint: Option<Seq<char>>,
}

/// Whether `raw` names a package without a version: no `@` and no `/`, or
/// one `@` and a `/`.
pub open spec fn is_unversioned(raw: Seq<char>) -> bool {
    let ats = count_of(raw, '@');
    let slash = raw.contains('/');
    (ats == 0 && !slash) || (ats == 1 && slash)
}

/// Whether `raw` names a package with a version: one `@` and no `/`, or
/// two `@` and a `/`.
pub open spec fn is_versioned(raw: Seq<char>) -> bool {
    let ats = count_of(raw, '@');
    let slash = raw.contains('/');
    (ats == 1 && !slash) || (ats == 2 && slash)
}

/// The meaning of `raw`, or `None` if it has none of the four shapes.
///
/// A versioned specifier splits at its last `@`: the range is what follows
/// it, the name what precedes it.
pub open spec fn specifier_of(raw: Seq<char>) -> Option<Specifier> {
    if is_unversioned(raw) {
        Some(Specifier { raw, scope: scope_of(raw), name: raw, constraint: None })
    } else if is_versioned(raw) {
        let at = last_index_of(raw, '@');
        let name = raw.take(at);
        Some(Specifier { raw, scope: scope_of(name), name, constraint: Some(raw.skip(at + 1)) })
    } else {
        None
    }
}

/// A classified package specifier.
#[derive(Clone, Debug, PartialEq, Eq)]
pub struct PackageSpecifier {
    /// The specifier as it was given.
    pub raw: String,
    /// What stands before the first `/` of `name`, if it has one.
    pub scope: Option<String>,
    /// The package name the registry is asked for.
    pub name: String,
    /// The version range, where the specifier carries one.
    pub constraint: Option<String>,
}

impl View for PackageSpecifier {
    type V = Specifier;

    open spec fn view(&self) -> Specifier {
        Specifier {
            raw: self.raw@,
            scope: match self.scope {
                Some(s) => Some(s@),
                None => None,
            },
            name: self.name@,
            constraint: match self.constraint {
                Some(c) => Some(c@),
                None => None,
            },
        }
    }
}

proof fn lemma_count_step(s: Seq<char>, i: int, c: char)
    requires
        0 <= i < s.len(),
    ensures
        count_of(s.take(i + 1), c) == count_of(s.take(i), c) + if s[i] == c { 1nat } else { 0nat },
{
    assert(s.take(i + 1).drop_last() == s.take(i));
}

proof fn lemma_last_index_step(s: Seq<char>, i: int, c: char)
    requires
        0 <= i < s.len(),
    ensures
        last_index_of(s.take(i + 1), c) == if s[i] == c { i } else { last_index_of(s.take(i), c) },
{
    assert(s.take(i + 1).drop_last() == s.take(i));
}

/// Where `c` does not occur before position `i`, the first occurrence in
/// `s` is `i` plus the first occurrence in what follows.
proof fn lemma_first_index_skip(s: Seq<char>, i: int, c: char)
    requires
        0 <= i <= s.len(),
        forall|j: int| 0 <= j < i ==> s[j] != c,
    ensures
        first_index_of(s, c) == i + first_index_of(s.skip(i), c),
    decreases i,
{
    if i == 0 {
        assert(s.skip(0) == s);
    } else {
        let t = s.drop_first();
        assert forall|j: int| 0 <= j < i - 1 implies t[j] != c by {}
        lemma_first_index_skip(t, i - 1, c);
        assert(t.skip(i - 1) == s.skip(i));
    }
}

/// Where `c` occurs in `s`, its last occurrence is a position of `s` that
/// holds `c` and is followed by no other.
pub proof fn lemma_last_index(s: Seq<char>, c: char)
    requires
        count_of(s, c) > 0,
    ensures
        0 <= last_index_of(s, c) < s.len(),
        s[last_index_of(s, c)] == c,
        count_of(s.skip(last_index_of(s, c) + 1), c) == 0,
        count_of(s.take(last_index_of(s, c)), c) == count_of(s, c) - 1,
    decreases s.len(),
{
    if s.last() != c {
        let front = s.drop_last();
        lemma_last_index(front, c);
        let at = last_index_of(front, c);
        assert(s.skip(at + 1).drop_last() == front.skip(at + 1));
        assert(s.take(at) == front.take(at));
    }
}

/// A specifier with no `@` and no `/` names a package without a version:
/// it is its own name, and no range is read from it.
pub proof fn lemma_bare_name_is_unversioned(raw: Seq<char>)
    requires
        count_of(raw, '@') == 0,
        !raw.contains('/'),
    ensures
        specifier_of(raw) == Some(Specifier { raw, scope: None, name: raw, constraint: None }),
{
}

/// A specifier with exactly one `@` is routed by its `/`: with one it
/// names a scoped package without a version, without one it is a name, the
/// `@`, and a range.
pub proof fn lemma_one_at_routes_by_slash(raw: Seq<char>)
    requires
        count_of(raw, '@') == 1,
    ensures
        raw.contains('/') ==> specifier_of(raw) == Some(
            Specifier { raw, scope: scope_of(raw), name: raw, constraint: None },
        ),
        !raw.contains('/') ==> (specifier_of(raw) matches Some(s) && s.constraint matches Some(
            range,
        ) && raw == s.name.push('@') + range && count_of(s.name, '@') == 0 && count_of(range, '@')
            == 0),
{
    if !raw.contains('/') {
        lemma_versioned_splits(raw);
    }
}

/// A versioned specifier is its name, an `@`, and its range, and the range
/// holds no `@`.
pub proof fn lemma_versioned_splits(raw: Seq<char>)
    requires
        is_versioned(raw),
    ensures
        specifier_of(raw) matches Some(s) && s.constraint matches Some(range) && raw == s.name.push(
            '@',
        ) + range && count_of(range, '@') == 0 && count_of(s.name, '@') + 1 == count_of(raw, '@'),
{
    lemma_last_index(raw, '@');
}

/// A specifier with more than two `@` has no meaning.
pub proof fn lemma_many_ats_are_malformed(raw: Seq<char>)
    requires
        count_of(raw, '@') > 2,
    ensures
        specifier_of(raw) is None,
{
}

/// What the scans over a specifier find.
struct Scan {
    ats: usize,
    last_at: usize,
    slash: Option<usize>,
}

/// Counts the `@`, and finds the last `@` and the first `/`.
fn scan(chars: &Vec<char>) -> (r: Scan)
    ensures
        r.ats == count_of(chars@, '@'),
        r.ats > 0 ==> r.last_at == last_index_of(chars@, '@'),
        r.ats > 0 ==> r.last_at < chars@.len(),
        r.slash is Some <==> chars@.contains('/'),
        r.slash matches Some(p) ==> p == first_index_of(chars@, '/') && p < chars@.len(),
{
    let mut ats: usize = 0;
    let mut last_at: usize = 0;
    let mut slash: Option<usize> = None;
    let mut i: usize = 0;
    while i < chars.len()
        invariant
            i <= chars@.len(),
            ats == count_of(chars@.take(i as int), '@'),
            ats <= i,
            ats > 0 ==> last_at == last_index_of(chars@.take(i as int), '@') && last_at < i,
            ats == 0 ==> last_index_of(chars@.take(i as int), '@') == -1,
            slash is None ==> forall|j: int| 0 <= j < i ==> chars@[j] != '/',
            slash matches Some(p) ==> p < i && chars@[p as int] == '/' && forall|j: int|
                0 <= j < p ==> chars@[j] != '/',
        decreases chars@.len() - i,
    {
        proof {
            lemma_count_step(chars@, i as int, '@');
            lemma_last_index_step(chars@, i as int, '@');
        }
        let c = chars[i];
        if c == '@' {
            ats += 1;
            last_at = i;
        }
        if c == '/' && slash.is_none() {
            slash = Some(i);
        }
        i += 1;
    }
    proof {
        assert(chars@.take(i as int) == chars@);
        if let Some(p) = slash {
            lemma_first_index_skip(chars@, p as int, '/');
        }
    }
    Scan { ats, last_at, slash }
}

/// Classifies `raw` by the number of its `@` and by whether it holds a `/`.
///
/// Fails with [`ResolveError::UnknownSpecifier`] exactly when `raw` has
/// none of the four shapes.
pub fn parse_specifier(raw: &str) -> (r: Result<PackageSpecifier, ResolveError>)
    ensures
        match r {
            Ok(s) => specifier_of(raw@) == Some(s@),
            Err(e) => specifier_of(raw@) is None && e@ == Failure::UnknownSpecifier,
        },
{
    let chars = chars_of(raw);
    let found = scan(&chars);
    let slash = found.slash.is_some();
    if (found.ats == 0 && !slash) || (found.ats == 1 && slash) {
        let scope = match found.slash {
            Some(p) => Some(string_of(&chars, 0, p)),
            None => None,
        };
        let name = string_of(&chars, 0, chars.len());
        proof {
            assert(chars@.subrange(0, chars@.len() as int) == raw@);
        }
        Ok(PackageSpecifier { raw: raw.to_owned(), scope, name, constraint: None })
    } else if (found.ats == 1 && !slash) || (found.ats == 2 && slash) {
        let at = found.last_at;
        let end = chars.len();
        let name = string_of(&chars, 0, at);
        let constraint = string_of(&chars, at + 1, end);
        let head = name_scan(&chars, at);
        let scope = match head {
            Some(p) => Some(string_of(&chars, 0, p)),
            None => None,
        };
        proof {
            let bare = raw@.take(at as int);
            if let Some(p) = head {
                assert(chars@.subrange(0, p as int) == bare.take(p as int));
            }
        }
        Ok(PackageSpecifier { raw: raw.to_owned(), scope, name, constraint: Some(constraint) })
    } else {
        Err(ResolveError::UnknownSpecifier)
    }
}

/// The position of the first `/` among the first `end` characters.
fn name_scan(chars: &Vec<char>, end: usize) -> (r: Option<usize>)
    requires
        end <= chars@.len(),
    ensures
        r is Some <==> chars@.take(end as int).contains('/'),
        r matches Some(p) ==> p == first_index_of(chars@.take(end as int), '/') && p < end,
{
    let ghost head = chars@.take(end as int);
    let mut i: usize = 0;
    while i < end
        invariant
            i <= end <= chars@.len(),
            head == chars@.take(end as int),
            forall|j: int| 0 <= j < i ==> head[j] != '/',
        decreases end - i,
    {
        if chars[i] == '/' {
            proof {
                lemma_first_index_skip(head, i as int, '/');
            }
            return Some(i);
        }
        i += 1;
    }
    None
}

} // verus!
