//! Bringing the results of a batch together.
//!
//! The specifiers of a batch are resolved independently of each other. The
//! results are handed in in the order of the specifiers, and the batch as a
//! whole succeeds only if each of them did. The failures are the caller's:
//! they may be the library's errors or any type that holds them.

use vstd::prelude::*;
use crate::outcome::{Outcome, ResolutionOutcome};

verus! {

/// The view of one result: the outcome as its view, the failure as it is.
pub open spec fn result_view<E>(r: Result<ResolutionOutcome, E>) -> Result<Outcome, E> {
    match r {
        Ok(outcome) => Ok(outcome@),
        Err(error) => Err(error),
    }
}

/// The views of a list of results.
pub open spec fn result_views<E>(results: Seq<Result<ResolutionOutcome, E>>) -> Seq<
    Result<Outcome, E>,
> {
    Seq::new(results.len(), |i: int| result_view(results[i]))
}

/// The views of a list of outcomes.
pub open spec fn outcome_views(outcomes: Seq<ResolutionOutcome>) -> Seq<Outcome> {
    Seq::new(outcomes.len(), |i: int| outcomes[i]@)
}

/// The position of the first failure, or the number of results if there is
/// none.
pub open spec fn first_failure<E>(results: Seq<Result<Outcome, E>>) -> int
    decreases results.len(),
{
    if results.len() == 0 {
        0
    } else if results.first() is Err {
        0
    } else {
        1 + first_failure(results.drop_first())
    }
}

/// The result of a batch: the outcomes in the order of the results, or the
/// first failure in that order.
pub open spec fn batch_of<E>(results: Seq<Result<Outcome, E>>) -> Result<Seq<Outcome>, E> {
    let k = first_failure(results);
    if k < results.len() {
        Err(results[k]->Err_0)
    } else {
        Ok(Seq::new(results.len(), |i: int| results[i]->Ok_0))
    }
}

/// The first failure stands after successes only, and is a failure.
pub proof fn lemma_first_failure<E>(results: Seq<Result<Outcome, E>>)
    ensures
        0 <= first_failure(results) <= results.len(),
        forall|j: int| 0 <= j < first_failure(results) ==> results[j] is Ok,
        first_failure(results) < results.len() ==> results[first_failure(results)] is Err,
    decreases results.len(),
{
    if results.len() > 0 && results.first() is Ok {
        let rest = results.drop_first();
        lemma_first_failure(rest);
        assert forall|j: int| 0 <= j < first_failure(results) implies results[j] is Ok by {
            if j > 0 {
                assert(rest[j - 1] == results[j]);
            }
        }
    }
}

/// A batch that succeeds keeps the order of its results: it has one
/// outcome for each, the `i`-th for the `i`-th.
pub proof fn lemma_batch_keeps_order<E>(results: Seq<Result<Outcome, E>>)
    ensures
        batch_of(results) matches Ok(outcomes) ==> outcomes.len() == results.len() && forall|i: int|
            0 <= i < results.len() ==> results[i] == Ok::<Outcome, E>(outcomes[i]),
{
    lemma_first_failure(results);
}

/// One failure fails the batch: where a result is a failure, the batch
/// fails with the first failure.
pub proof fn lemma_batch_fails_with_first<E>(results: Seq<Result<Outcome, E>>, k: int)
    requires
        0 <= k < results.len(),
        results[k] is Err,
    ensures
        first_failure(results) <= k,
        batch_of(results) == Err::<Seq<Outcome>, E>(results[first_failure(results)]->Err_0),
{
    lemma_first_failure(results);
}

/// Brings the results of a batch together, in their order.
///
/// Succeeds exactly when every result is a success, with the outcomes in
/// the order of the results. Otherwise fails with the first failure.
pub fn collect_outcomes<E>(results: Vec<Result<ResolutionOutcome, E>>) -> (r: Result<
    Vec<ResolutionOutcome>,
    E,
>)
    ensures
        match r {
            Ok(outcomes) => batch_of(result_views(results@)) == Ok::<Seq<Outcome>, E>(
                outcome_views(outcomes@),
            ),
            Err(error) => batch_of(result_views(results@)) == Err::<Seq<Outcome>, E>(error),
        },
{
    let ghost views = result_views(results@);
    let mut outcomes: Vec<ResolutionOutcome> = Vec::new();
    for result in it: results.into_iter()
        invariant
            it.seq() == results@,
            views == result_views(results@),
            outcomes@.len() == it.index(),
            forall|j: int| 0 <= j < it.index() ==> views[j] == Ok::<Outcome, E>(outcomes@[j]@),
    {
        match result {
            Ok(outcome) => {
                outcomes.push(outcome);
            },
            Err(error) => {
                proof {
                    assert(views[it.index()] == Err::<Outcome, E>(error));
                    lemma_first_failure(views);
                }
                return Err(error);
            },
        }
    }
    proof {
        lemma_first_failure(views);
        assert(Seq::new(views.len(), |i: int| views[i]->Ok_0) == outcome_views(outcomes@));
    }
    Ok(outcomes)
}

} // verus!
