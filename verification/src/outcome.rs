//! Outcomes of a run of steps that each may fail: the first failure wins,
//! else every step's value, in order.
use vstd::prelude::*;

verus! {

/// `acc` put before the values of `r`, or the failure of `r`.
pub open spec fn prepend_ok<T, E>(acc: Seq<T>, r: Result<Seq<T>, E>) -> Result<Seq<T>, E> {
    match r {
        Ok(s) => Ok(acc + s),
        Err(e) => Err(e),
    }
}

/// The outcome of the steps in order: the first failure, else all values.
pub open spec fn collect<T, E>(steps: Seq<Result<T, E>>) -> Result<Seq<T>, E>
    decreases steps.len(),
{
    if steps.len() == 0 {
        Ok(Seq::empty())
    } else {
        match steps[0] {
            Err(e) => Err(e),
            Ok(v) => prepend_ok(seq![v], collect(steps.drop_first())),
        }
    }
}

/// A `Result` holding a vector, read as one holding its sequence.
pub open spec fn result_seq<T, E>(r: Result<Vec<T>, E>) -> Result<Seq<T>, E> {
    match r {
        Ok(v) => Ok(v@),
        Err(e) => Err(e),
    }
}

/// Unfolds `collect` at step `i`.
pub proof fn lemma_collect_at<T, E>(steps: Seq<Result<T, E>>, i: int)
    requires
        0 <= i < steps.len(),
    ensures
        collect(steps.skip(i)) == match steps[i] {
            Err(e) => Err(e),
            Ok(v) => prepend_ok(seq![v], collect(steps.skip(i + 1))),
        },
{
    assert(steps.skip(i).drop_first() =~= steps.skip(i + 1));
    assert(steps.skip(i)[0] == steps[i]);
}

/// Putting `a` then `b` before an outcome is putting `a + b` before it.
pub proof fn lemma_prepend_twice<T, E>(a: Seq<T>, b: Seq<T>, r: Result<Seq<T>, E>)
    ensures
        prepend_ok(a, prepend_ok(b, r)) == prepend_ok(a + b, r),
{
    match r {
        Ok(s) => {
            assert(a + (b + s) =~= (a + b) + s);
        },
        Err(_) => {},
    }
}

/// The outcome of no step.
pub proof fn lemma_collect_done<T, E>(steps: Seq<Result<T, E>>)
    ensures
        collect(steps.skip(steps.len() as int)) == Ok::<Seq<T>, E>(Seq::empty()),
{
    assert(steps.skip(steps.len() as int) =~= Seq::<Result<T, E>>::empty());
}

} // verus!

verus! {

/// A successful outcome holds one value per step, each the value of its
/// step.
pub proof fn lemma_collect_ok<T, E>(steps: Seq<Result<T, E>>, vs: Seq<T>)
    requires
        collect(steps) == Ok::<Seq<T>, E>(vs),
    ensures
        vs.len() == steps.len(),
        forall|i: int| 0 <= i < steps.len() ==> #[trigger] steps[i] == Ok::<T, E>(vs[i]),
    decreases steps.len(),
{
    if steps.len() > 0 {
        match steps[0] {
            Err(_) => {},
            Ok(v) => {
                let rest = collect(steps.drop_first());
                match rest {
                    Ok(rs) => {
                        lemma_collect_ok(steps.drop_first(), rs);
                        assert(vs == seq![v] + rs);
                        assert forall|i: int| 0 <= i < steps.len() implies #[trigger] steps[i] == Ok::<T, E>(vs[i]) by {
                            if i > 0 {
                                assert(steps[i] == steps.drop_first()[i - 1]);
                            }
                        }
                    },
                    Err(_) => {},
                }
            },
        }
    }
}

/// Steps that all succeed give all their values, in order.
pub proof fn lemma_collect_all_ok<T, E>(steps: Seq<Result<T, E>>, vs: Seq<T>)
    requires
        vs.len() == steps.len(),
        forall|i: int| 0 <= i < steps.len() ==> #[trigger] steps[i] == Ok::<T, E>(vs[i]),
    ensures
        collect(steps) == Ok::<Seq<T>, E>(vs),
    decreases steps.len(),
{
    if steps.len() > 0 {
        assert forall|i: int| 0 <= i < steps.drop_first().len() implies #[trigger] steps.drop_first()[i] == Ok::<T, E>(vs.drop_first()[i]) by {
            assert(steps.drop_first()[i] == steps[i + 1]);
        }
        lemma_collect_all_ok(steps.drop_first(), vs.drop_first());
        assert(steps[0] == Ok::<T, E>(vs[0]));
        assert(seq![vs[0]] + vs.drop_first() =~= vs);
    } else {
        assert(vs =~= Seq::<T>::empty());
    }
}

} // verus!
