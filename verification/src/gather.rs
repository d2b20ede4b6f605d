//! All or nothing: the answers for the entries of a page are gathered from
//! the first on, and the first that is an error is the answer for the whole
//! page. Nothing is kept of the entries that went well before it.

use vstd::prelude::*;

verus! {

/// The values of `results` where every one of them is `Ok`; else the first
/// error, with the position that it stands at.
pub open spec fn gathered<T, E>(results: Seq<Result<T, E>>) -> Result<Seq<T>, (int, E)>
    decreases results.len(),
{
    if results.len() == 0 {
        Ok(Seq::empty())
    } else {
        match gathered(results.drop_last()) {
            Err(first) => Err(first),
            Ok(values) => match results.last() {
                Ok(value) => Ok(values.push(value)),
                Err(error) => Err((results.len() - 1, error)),
            },
        }
    }
}

/// Where everything went well, there is one value for each result, in the
/// same order.
pub proof fn gathered_all<T, E>(results: Seq<Result<T, E>>)
    requires
        forall|i: int| 0 <= i < results.len() ==> (#[trigger] results[i]) is Ok,
    ensures
        gathered(results) is Ok,
        gathered(results)->Ok_0.len() == results.len(),
        forall|i: int|
            0 <= i < results.len() ==> results[i] == Ok::<T, E>(
                #[trigger] gathered(results)->Ok_0[i],
            ),
    decreases results.len(),
{
    if results.len() > 0 {
        let front = results.drop_last();
        assert forall|i: int| 0 <= i < front.len() implies (#[trigger] front[i]) is Ok by {
            assert(front[i] == results[i]);
        }
        gathered_all(front);
        let values = gathered(front)->Ok_0;
        assert forall|i: int| 0 <= i < results.len() implies results[i] == Ok::<T, E>(
            #[trigger] gathered(results)->Ok_0[i],
        ) by {
            if i < front.len() {
                assert(front[i] == results[i]);
                assert(gathered(results)->Ok_0[i] == values[i]);
            }
        }
    }
}

/// Where a result is an error and all before it went well, that error and
/// its position are the answer.
pub proof fn gathered_first_error<T, E>(results: Seq<Result<T, E>>, at: int, error: E)
    requires
        0 <= at < results.len(),
        results[at] == Err::<T, E>(error),
        forall|i: int| 0 <= i < at ==> (#[trigger] results[i]) is Ok,
    ensures
        gathered(results) == Err::<Seq<T>, (int, E)>((at, error)),
    decreases results.len(),
{
    let front = results.drop_last();
    if at == results.len() - 1 {
        assert forall|i: int| 0 <= i < front.len() implies (#[trigger] front[i]) is Ok by {
            assert(front[i] == results[i]);
        }
        gathered_all(front);
    } else {
        assert(front[at] == results[at]);
        assert forall|i: int| 0 <= i < at implies (#[trigger] front[i]) is Ok by {
            assert(front[i] == results[i]);
        }
        gathered_first_error(front, at, error);
    }
}

/// One error is enough for the whole to be an error.
pub proof fn gathered_fails_with_any<T, E>(results: Seq<Result<T, E>>, at: int)
    requires
        0 <= at < results.len(),
        results[at] is Err,
    ensures
        gathered(results) is Err,
    decreases results.len(),
{
    let front = results.drop_last();
    if at < results.len() - 1 {
        assert(front[at] == results[at]);
        gathered_fails_with_any(front, at);
    }
}

/// Where the whole went well, so did every result, and the values are theirs,
/// in the same order.
pub proof fn gathered_ok_means_all<T, E>(results: Seq<Result<T, E>>)
    requires
        gathered(results) is Ok,
    ensures
        gathered(results)->Ok_0.len() == results.len(),
        forall|i: int|
            0 <= i < results.len() ==> (#[trigger] results[i]) == Ok::<T, E>(
                gathered(results)->Ok_0[i],
            ),
{
    assert forall|i: int| 0 <= i < results.len() implies (#[trigger] results[i]) is Ok by {
        if results[i] is Err {
            gathered_fails_with_any(results, i);
        }
    }
    gathered_all(results);
}

} // verus!
