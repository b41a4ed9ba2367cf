//! Results gathered in order, up to the first failure.
//!
//! Every operation of the library goes through a sequence of things (the
//! groups of a workspace, the files of a group) and makes of each a list of
//! records or a failure. What comes out is the lists joined in order, or
//! the first failure met.

use crate::error::ErrorKind;
use vstd::prelude::*;

verus! {

/// A result with `before` put in front of what it lists.
pub open spec fn after<T>(before: Seq<T>, result: Result<Seq<T>, ErrorKind>) -> Result<
    Seq<T>,
    ErrorKind,
> {
    match result {
        Ok(rest) => Ok(before + rest),
        Err(kind) => Err(kind),
    }
}

/// A result that lists one record or none, as a list.
pub open spec fn single<T>(step: Result<Option<T>, ErrorKind>) -> Result<Seq<T>, ErrorKind> {
    match step {
        Ok(Some(record)) => Ok(seq![record]),
        Ok(None) => Ok(Seq::empty()),
        Err(kind) => Err(kind),
    }
}

/// The lists of the steps joined in order, or the first failure among them.
pub open spec fn gather<T>(steps: Seq<Result<Seq<T>, ErrorKind>>) -> Result<Seq<T>, ErrorKind>
    decreases steps.len(),
{
    if steps.len() == 0 {
        Ok(Seq::empty())
    } else {
        match steps[0] {
            Ok(first) => after(first, gather(steps.drop_first())),
            Err(kind) => Err(kind),
        }
    }
}

/// Where the record at index `k` of what was gathered comes from: the
/// index of its step, and its index in the list of that step.
pub open spec fn place<T>(steps: Seq<Result<Seq<T>, ErrorKind>>, k: int) -> (int, int)
    decreases steps.len(),
{
    if steps.len() == 0 {
        (0, 0)
    } else if k < steps[0]->Ok_0.len() {
        (0, k)
    } else {
        let below = place(steps.drop_first(), k - steps[0]->Ok_0.len());
        (below.0 + 1, below.1)
    }
}

/// Whether one place lies before another: in an earlier step, or earlier
/// in the list of the same step.
pub open spec fn comes_before(first: (int, int), second: (int, int)) -> bool {
    first.0 < second.0 || (first.0 == second.0 && first.1 < second.1)
}

/// Gathering nothing gives the empty list, and putting nothing in front
/// of a result changes nothing.
pub proof fn lemma_gather_start<T>(steps: Seq<Result<Seq<T>, ErrorKind>>)
    ensures
        gather(steps) == after(Seq::empty(), gather(steps.skip(0))),
{
    assert(steps.skip(0) =~= steps);
    if let Ok(list) = gather(steps) {
        assert(Seq::<T>::empty() + list =~= list);
    }
}

/// Gathering from one step on: the step's failure, or its list in front
/// of what is gathered from the next step on.
pub proof fn lemma_gather_step<T>(
    steps: Seq<Result<Seq<T>, ErrorKind>>,
    before: Seq<T>,
    at: int,
)
    requires
        0 <= at < steps.len(),
    ensures
        after(before, gather(steps.skip(at))) == match steps[at] {
            Ok(part) => after(before + part, gather(steps.skip(at + 1))),
            Err(kind) => Err(kind),
        },
{
    assert(steps.skip(at).drop_first() =~= steps.skip(at + 1));
    assert(steps.skip(at)[0] == steps[at]);
    if let Ok(part) = steps[at] {
        if let Ok(rest) = gather(steps.skip(at + 1)) {
            assert(before + (part + rest) =~= (before + part) + rest);
        }
    }
}

/// Gathering from behind the last step adds nothing.
pub proof fn lemma_gather_end<T>(steps: Seq<Result<Seq<T>, ErrorKind>>, before: Seq<T>)
    ensures
        after(before, gather(steps.skip(steps.len() as int))) == Ok::<Seq<T>, ErrorKind>(before),
{
    assert(before + Seq::<T>::empty() =~= before);
}

/// Gathering succeeds exactly when every step does, and a failure of
/// gathering is the failure of one of the steps.
pub proof fn lemma_gather_fails<T>(steps: Seq<Result<Seq<T>, ErrorKind>>)
    ensures
        gather(steps) is Ok <==> forall|i: int|
            0 <= i < steps.len() ==> (#[trigger] steps[i]) is Ok,
        gather(steps) matches Err(kind) ==> exists|i: int|
            0 <= i < steps.len() && #[trigger] steps[i] == Err::<Seq<T>, ErrorKind>(kind),
    decreases steps.len(),
{
    if steps.len() > 0 {
        let rest = steps.drop_first();
        lemma_gather_fails(rest);
        assert forall|i: int| 0 <= i < rest.len() implies rest[i] == steps[i + 1] by {}
        if gather(steps) is Ok {
            assert forall|i: int| 0 <= i < steps.len() implies (#[trigger] steps[i]) is Ok by {
                if i > 0 {
                    assert(rest[i - 1] is Ok);
                }
            }
        } else if steps[0] is Ok {
            let kind = gather(rest)->Err_0;
            let i = choose|i: int|
                0 <= i < rest.len() && #[trigger] rest[i] == Err::<Seq<T>, ErrorKind>(kind);
            assert(steps[i + 1] == Err::<Seq<T>, ErrorKind>(kind));
        }
    }
}

/// Every record of what was gathered stands at its place: in the list of
/// one of the steps.
pub proof fn lemma_place_holds<T>(steps: Seq<Result<Seq<T>, ErrorKind>>, k: int)
    requires
        gather(steps) is Ok,
        0 <= k < gather(steps)->Ok_0.len(),
    ensures
        0 <= place(steps, k).0 < steps.len(),
        steps[place(steps, k).0] is Ok,
        0 <= place(steps, k).1 < steps[place(steps, k).0]->Ok_0.len(),
        steps[place(steps, k).0]->Ok_0[place(steps, k).1] == gather(steps)->Ok_0[k],
    decreases steps.len(),
{
    let first = steps[0]->Ok_0;
    if k >= first.len() {
        let rest = steps.drop_first();
        lemma_place_holds(rest, k - first.len());
        assert(rest[place(rest, k - first.len()).0] == steps[place(steps, k).0]);
    }
}

/// The places rise with the index: a record that stands later in what was
/// gathered comes from a later place.
pub proof fn lemma_place_rises<T>(steps: Seq<Result<Seq<T>, ErrorKind>>, first: int, second: int)
    requires
        gather(steps) is Ok,
        0 <= first < second < gather(steps)->Ok_0.len(),
    ensures
        comes_before(place(steps, first), place(steps, second)),
    decreases steps.len(),
{
    let head = steps[0]->Ok_0;
    if first >= head.len() {
        lemma_place_rises(steps.drop_first(), first - head.len(), second - head.len());
    } else if second >= head.len() {
        lemma_place_holds(steps.drop_first(), second - head.len());
    }
}

/// Every place is taken: each record in the list of one of the steps
/// stands in what was gathered, at an index with that place.
pub proof fn lemma_place_is_taken<T>(steps: Seq<Result<Seq<T>, ErrorKind>>, i: int, j: int) -> (k:
    int)
    requires
        gather(steps) is Ok,
        0 <= i < steps.len(),
        steps[i] is Ok,
        0 <= j < steps[i]->Ok_0.len(),
    ensures
        0 <= k < gather(steps)->Ok_0.len(),
        place(steps, k) == (i, j),
        gather(steps)->Ok_0[k] == steps[i]->Ok_0[j],
    decreases steps.len(),
{
    let first = steps[0]->Ok_0;
    if i == 0 {
        j
    } else {
        let rest = steps.drop_first();
        assert(rest[i - 1] == steps[i]);
        first.len() + lemma_place_is_taken(rest, i - 1, j)
    }
}

} // verus!
