//! Selecting the version that a range asks for.

use vstd::prelude::*;
use crate::semver::{
    is_version,
    range_test,
    semver_admits,
    semver_less,
    semver_text,
    version_less,
    version_text,
    SemverRange,
    SemverVersion,
};
use crate::text::texts_of;

verus! {

/// Whether a version key takes part in the selection: it is a version and
/// the range accepts it.
pub open spec fn is_candidate(range: Seq<char>, key: Seq<char>) -> bool {
    is_version(key) && semver_admits(range, key)
}

/// The position of the selected key, or `-1` where no key is a candidate.
///
/// The keys are taken in order. A candidate replaces the one selected so
/// far exactly when that one comes before it in semver precedence, so of
/// several candidates of equal precedence the earliest is selected.
pub open spec fn selected(range: Seq<char>, keys: Seq<Seq<char>>) -> int
    decreases keys.len(),
{
    if keys.len() == 0 {
        -1
    } else {
        let before = selected(range, keys.drop_last());
        if !is_candidate(range, keys.last()) {
            before
        } else if before < 0 || semver_less(keys[before], keys.last()) {
            keys.len() - 1
        } else {
            before
        }
    }
}

/// Whether the key at `at` is the highest that the range accepts: it is a
/// candidate, and it comes before no candidate but, at most, itself.
pub open spec fn is_highest(range: Seq<char>, keys: Seq<Seq<char>>, at: int) -> bool {
    &&& 0 <= at < keys.len()
    &&& is_candidate(range, keys[at])
    &&& forall|j: int|
        0 <= j < keys.len() && is_candidate(range, #[trigger] keys[j]) ==> keys[j] == keys[at]
            || !semver_less(keys[at], keys[j])
}

/// The selected key and the version it stands for.
#[derive(Clone, Debug, PartialEq, Eq)]
pub struct Selection {
    /// The position of the selected key among the keys.
    pub index: usize,
    /// The selected version as `semver_rs` writes it.
    pub version: String,
}

/// Selects the highest version among the keys that the range accepts.
///
/// Returns `None` exactly when no key is a candidate. Otherwise the
/// selected key is a candidate that comes before no other candidate, the
/// earliest of those in the order of the keys.
pub fn select_version(range: &SemverRange, keys: &Vec<String>) -> (r: Option<Selection>)
    ensures
        match r {
            Some(chosen) => {
                &&& chosen.index == selected(range@, texts_of(keys@))
                &&& is_highest(range@, texts_of(keys@), chosen.index as int)
                &&& chosen.version@ == semver_text(keys@[chosen.index as int]@)
            },
            None => selected(range@, texts_of(keys@)) == -1 && forall|j: int|
                0 <= j < keys@.len() ==> !is_candidate(range@, #[trigger] texts_of(keys@)[j]),
        },
{
    let ghost texts = texts_of(keys@);
    let mut best: Option<(usize, SemverVersion)> = None;
    let mut i: usize = 0;
    while i < keys.len()
        invariant
            i <= keys@.len(),
            texts == texts_of(keys@),
            match best {
                Some((at, version)) => {
                    &&& at < i
                    &&& at == selected(range@, texts.take(i as int))
                    &&& version@ == texts[at as int]
                    &&& is_candidate(range@, texts[at as int])
                    &&& forall|j: int|
                        0 <= j < i && is_candidate(range@, #[trigger] texts[j]) ==> texts[j]
                            == texts[at as int] || !semver_less(texts[at as int], texts[j])
                },
                None => selected(range@, texts.take(i as int)) == -1 && forall|j: int|
                    0 <= j < i ==> !is_candidate(range@, #[trigger] texts[j]),
            },
        decreases keys@.len() - i,
    {
        proof {
            assert(texts.take(i + 1).drop_last() == texts.take(i as int));
        }
        match SemverVersion::parse(keys[i].as_str()) {
            Some(version) => {
                if range_test(range, &version) {
                    let replace = match &best {
                        Some((_, held)) => version_less(held, &version),
                        None => true,
                    };
                    if replace {
                        best = Some((i, version));
                    }
                }
            },
            None => {},
        }
        i += 1;
    }
    proof {
        assert(texts.take(i as int) == texts);
    }
    match best {
        Some((index, version)) => Some(Selection { index, version: version_text(&version) }),
        None => None,
    }
}

/// No key is selected exactly when no key is a candidate, and a selected
/// key is a candidate.
pub proof fn lemma_selected_is_candidate(range: Seq<char>, keys: Seq<Seq<char>>)
    ensures
        -1 <= selected(range, keys) < keys.len(),
        selected(range, keys) == -1 <==> forall|j: int|
            0 <= j < keys.len() ==> !is_candidate(range, #[trigger] keys[j]),
        selected(range, keys) >= 0 ==> is_candidate(range, keys[selected(range, keys)]),
    decreases keys.len(),
{
    if keys.len() > 0 {
        let front = keys.drop_last();
        lemma_selected_is_candidate(range, front);
        assert forall|j: int| 0 <= j < front.len() implies front[j] == keys[j] by {}
    }
}

} // verus!
