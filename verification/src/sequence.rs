use vstd::prelude::*;

verus! {

/// Applies `f` to the items in order and collects the results. The first item
/// that `f` refuses decides the failure; later items are not looked at.
pub open spec fn try_map<A, B, E>(items: Seq<A>, f: spec_fn(A) -> Result<B, E>) -> Result<
    Seq<B>,
    E,
>
    decreases items.len(),
{
    if items.len() == 0 {
        Ok(Seq::empty())
    } else {
        match try_map(items.drop_last(), f) {
            Err(e) => Err(e),
            Ok(init) => match f(items.last()) {
                Err(e) => Err(e),
                Ok(b) => Ok(init.push(b)),
            },
        }
    }
}

/// One more item after a prefix that went well.
pub proof fn lemma_try_map_step<A, B, E>(
    items: Seq<A>,
    f: spec_fn(A) -> Result<B, E>,
    n: int,
    done: Seq<B>,
)
    requires
        0 <= n < items.len(),
        try_map(items.take(n), f) == Ok::<Seq<B>, E>(done),
    ensures
        f(items[n]) matches Ok(b) ==> try_map(items.take(n + 1), f) == Ok::<Seq<B>, E>(
            done.push(b),
        ),
        f(items[n]) matches Err(e) ==> try_map(items.take(n + 1), f) == Err::<Seq<B>, E>(e),
{
    assert(items.take(n + 1).drop_last() =~= items.take(n));
}

/// A failure on a prefix is the failure on the whole.
pub proof fn lemma_try_map_prefix_fails<A, B, E>(
    items: Seq<A>,
    f: spec_fn(A) -> Result<B, E>,
    n: int,
)
    requires
        0 <= n <= items.len(),
        try_map(items.take(n), f) is Err,
    ensures
        try_map(items, f) == try_map(items.take(n), f),
    decreases items.len() - n,
{
    if n == items.len() {
        assert(items.take(n) =~= items);
    } else {
        assert(items.take(n + 1).drop_last() =~= items.take(n));
        lemma_try_map_prefix_fails(items, f, n + 1);
    }
}

/// What a success of `try_map` means, item by item.
pub proof fn lemma_try_map_ok<A, B, E>(items: Seq<A>, f: spec_fn(A) -> Result<B, E>)
    ensures
        try_map(items, f) matches Ok(out) ==> out.len() == items.len() && forall|i: int|
            0 <= i < items.len() ==> f(#[trigger] items[i]) == Ok::<B, E>(out[i]),
        (forall|i: int| 0 <= i < items.len() ==> f(#[trigger] items[i]) is Ok) ==> try_map(
            items,
            f,
        ) is Ok,
    decreases items.len(),
{
    if items.len() > 0 {
        lemma_try_map_ok(items.drop_last(), f);
        let init = items.drop_last();
        assert forall|i: int| 0 <= i < init.len() implies init[i] == items[i] by {}
        if forall|i: int| 0 <= i < items.len() ==> f(#[trigger] items[i]) is Ok {
            assert forall|i: int| 0 <= i < init.len() implies f(#[trigger] init[i]) is Ok by {
                assert(init[i] == items[i]);
            }
            assert(f(items[items.len() - 1]) is Ok);
        }
        if try_map(items, f) is Ok {
            let out = try_map(items, f)->Ok_0;
            let head = try_map(init, f)->Ok_0;
            assert forall|i: int| 0 <= i < items.len() implies f(#[trigger] items[i]) == Ok::<
                B,
                E,
            >(out[i]) by {
                if i < init.len() {
                    assert(init[i] == items[i]);
                    assert(f(init[i]) == Ok::<B, E>(head[i]));
                }
            }
        }
    }
}

/// The whole sequence is its own longest prefix.
pub proof fn lemma_take_all<A>(items: Seq<A>)
    ensures
        items.take(items.len() as int) == items,
{
    assert(items.take(items.len() as int) =~= items);
}

} // verus!
