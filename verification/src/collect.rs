//! Results taken together: all of them, or the first error.
use vstd::prelude::*;

verus! {

/// The results taken together: all that is there, or the first error.
pub open spec fn collected<A, E>(results: Seq<Result<A, E>>) -> Result<Seq<A>, E>
    decreases results.len(),
{
    if results.len() == 0 {
        Ok(Seq::empty())
    } else {
        match collected(results.drop_last()) {
            Ok(done) => match results.last() {
                Ok(one) => Ok(done.push(one)),
                Err(err) => Err(err),
            },
            Err(err) => Err(err),
        }
    }
}

/// Once an error stands among the results, more results do not change what they come to.
pub proof fn lemma_collected_error<A, E>(results: Seq<Result<A, E>>, n: int)
    requires
        0 <= n <= results.len(),
        collected(results.take(n)) is Err,
    ensures
        collected(results) == collected(results.take(n)),
    decreases results.len() - n,
{
    if n < results.len() {
        assert(results.take(n + 1).drop_last() =~= results.take(n));
        lemma_collected_error(results, n + 1);
    } else {
        assert(results.take(n) =~= results);
    }
}

/// One more result.
pub proof fn lemma_collected_next<A, E>(results: Seq<Result<A, E>>, n: int)
    requires
        0 <= n < results.len(),
    ensures
        collected(results.take(n + 1)) == match collected(results.take(n)) {
            Ok(done) => match results[n] {
                Ok(one) => Ok(done.push(one)),
                Err(err) => Err(err),
            },
            Err(err) => Err(err),
        },
{
    assert(results.take(n + 1).drop_last() =~= results.take(n));
    assert(results.take(n + 1).last() == results[n]);
}

/// Results that are all there come to the values.
pub proof fn lemma_collected_all<A, E>(results: Seq<Result<A, E>>, values: Seq<A>)
    requires
        results.len() == values.len(),
        forall|i: int|
            0 <= i < results.len() ==> #[trigger] results[i] == Ok::<A, E>(values[i]),
    ensures
        collected(results) == Ok::<Seq<A>, E>(values),
    decreases results.len(),
{
    if results.len() == 0 {
        assert(values =~= Seq::empty());
    } else {
        assert forall|i: int| 0 <= i < results.drop_last().len() implies (
        #[trigger] results.drop_last()[i]) == Ok::<A, E>(values.drop_last()[i]) by {
            assert(results[i] == Ok::<A, E>(values[i]));
        }
        lemma_collected_all(results.drop_last(), values.drop_last());
        assert(results[results.len() - 1] == Ok::<A, E>(values[results.len() - 1]));
        assert(values =~= values.drop_last().push(values.last()));
    }
}

/// What results that come to values are, and that an error among them comes to an error.
pub proof fn lemma_collected_each<A, E>(results: Seq<Result<A, E>>)
    ensures
        collected(results) matches Ok(values) ==> values.len() == results.len() && forall|i: int|
            0 <= i < results.len() ==> #[trigger] results[i] == Ok::<A, E>(values[i]),
        collected(results) is Err ==> exists|i: int|
            0 <= i < results.len() && (#[trigger] results[i]) is Err,
    decreases results.len(),
{
    if results.len() > 0 {
        let rest = results.drop_last();
        lemma_collected_each(rest);
        if collected(results) is Ok {
            let values = collected(results)->Ok_0;
            let before = collected(rest)->Ok_0;
            assert(values == before.push(results.last()->Ok_0));
            assert forall|i: int| 0 <= i < results.len() implies #[trigger] results[i] == Ok::<
                A,
                E,
            >(values[i]) by {
                if i < rest.len() {
                    assert(rest[i] == Ok::<A, E>(before[i]));
                }
            }
        } else if collected(rest) is Err {
            let i = choose|i: int| 0 <= i < rest.len() && (#[trigger] rest[i]) is Err;
            assert(results[i] is Err);
        } else {
            assert(results[results.len() - 1] is Err);
        }
    }
}

/// Results that come to an error come to the first error among them.
pub proof fn lemma_collected_first_error<A, E>(results: Seq<Result<A, E>>)
    ensures
        collected(results) matches Err(err) ==> exists|i: int|
            0 <= i < results.len() && #[trigger] results[i] == Err::<A, E>(err) && forall|j: int|
                0 <= j < i ==> (#[trigger] results[j]) is Ok,
    decreases results.len(),
{
    if results.len() > 0 && collected(results) is Err {
        let err = collected(results)->Err_0;
        let rest = results.drop_last();
        if collected(rest) is Err {
            lemma_collected_first_error(rest);
            let i = choose|i: int|
                0 <= i < rest.len() && #[trigger] rest[i] == Err::<A, E>(err) && forall|j: int|
                    0 <= j < i ==> (#[trigger] rest[j]) is Ok;
            assert(results[i] == Err::<A, E>(err));
            assert forall|j: int| 0 <= j < i implies (#[trigger] results[j]) is Ok by {
                assert(rest[j] is Ok);
            }
        } else {
            lemma_collected_each(rest);
            let i = results.len() - 1;
            assert(results[i] == Err::<A, E>(err));
            assert forall|j: int| 0 <= j < i implies (#[trigger] results[j]) is Ok by {
                assert(rest[j] is Ok);
            }
        }
    }
}

} // verus!
