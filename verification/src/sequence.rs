//! Two folds over sequences that the builders and the emitter share: a rule
//! applied to each item that stops at the first failure, and the
//! concatenation of what each item gives.

use vstd::prelude::*;
use crate::error::TypeError;

verus! {

/// What a rule gives for each item, in order. Where the rule fails on some
/// item, the error of the first such item.
pub open spec fn try_map<A, B>(items: Seq<A>, rule: spec_fn(A) -> Result<B, TypeError>) -> Result<
    Seq<B>,
    TypeError,
>
    decreases items.len(),
{
    if items.len() == 0 {
        Ok(Seq::empty())
    } else {
        match try_map(items.drop_last(), rule) {
            Err(e) => Err(e),
            Ok(done) => match rule(items.last()) {
                Err(e) => Err(e),
                Ok(b) => Ok(done.push(b)),
            },
        }
    }
}

/// The parts that each item gives, joined in order.
pub open spec fn concat_map<A, T>(items: Seq<A>, parts: spec_fn(A) -> Seq<T>) -> Seq<T>
    decreases items.len(),
{
    if items.len() == 0 {
        Seq::empty()
    } else {
        concat_map(items.drop_last(), parts) + parts(items.last())
    }
}

/// One more item: the fold of a prefix that ends after position `k` follows
/// from the fold of the prefix that ends before it.
pub proof fn lemma_try_map_step<A, B>(
    items: Seq<A>,
    rule: spec_fn(A) -> Result<B, TypeError>,
    k: int,
)
    requires
        0 <= k < items.len(),
    ensures
        try_map(items.take(k + 1), rule) == match try_map(items.take(k), rule) {
            Err(e) => Err(e),
            Ok(done) => match rule(items[k]) {
                Err(e) => Err(e),
                Ok(b) => Ok(done.push(b)),
            },
        },
{
    assert(items.take(k + 1).drop_last() =~= items.take(k));
    assert(items.take(k + 1).last() == items[k]);
}

/// A failure on a prefix is the failure on the whole.
pub proof fn lemma_try_map_prefix_fails<A, B>(
    items: Seq<A>,
    rule: spec_fn(A) -> Result<B, TypeError>,
    k: int,
)
    requires
        0 <= k <= items.len(),
        try_map(items.take(k), rule) is Err,
    ensures
        try_map(items, rule) == try_map(items.take(k), rule),
    decreases items.len(),
{
    if k == items.len() {
        assert(items.take(k) =~= items);
    } else {
        assert(items.drop_last().take(k) =~= items.take(k));
        lemma_try_map_prefix_fails(items.drop_last(), rule, k);
    }
}

/// Where the rule fails on any item, the fold fails.
pub proof fn lemma_try_map_fails<A, B>(
    items: Seq<A>,
    rule: spec_fn(A) -> Result<B, TypeError>,
    k: int,
)
    requires
        0 <= k < items.len(),
        rule(items[k]) is Err,
    ensures
        try_map(items, rule) is Err,
{
    lemma_try_map_step(items, rule, k);
    lemma_try_map_prefix_fails(items, rule, k + 1);
}

/// Where the fold succeeds, it gives one result for each item, and each is
/// what the rule gives for that item.
pub proof fn lemma_try_map_ok<A, B>(items: Seq<A>, rule: spec_fn(A) -> Result<B, TypeError>)
    requires
        try_map(items, rule) is Ok,
    ensures
        try_map(items, rule)->Ok_0.len() == items.len(),
        forall|i: int|
            0 <= i < items.len() ==> rule(#[trigger] items[i]) == Ok::<B, TypeError>(
                try_map(items, rule)->Ok_0[i],
            ),
    decreases items.len(),
{
    if items.len() > 0 {
        lemma_try_map_ok(items.drop_last(), rule);
        let done = try_map(items.drop_last(), rule)->Ok_0;
        assert forall|i: int| 0 <= i < items.len() implies rule(#[trigger] items[i]) == Ok::<
            B,
            TypeError,
        >(try_map(items, rule)->Ok_0[i]) by {
            if i < items.len() - 1 {
                assert(items.drop_last()[i] == items[i]);
            }
        }
    }
}

/// One more item: the parts of a prefix that ends after position `k` are
/// those of the prefix that ends before it, then the parts of item `k`.
pub proof fn lemma_concat_map_step<A, T>(items: Seq<A>, parts: spec_fn(A) -> Seq<T>, k: int)
    requires
        0 <= k < items.len(),
    ensures
        concat_map(items.take(k + 1), parts) == concat_map(items.take(k), parts) + parts(items[k]),
{
    assert(items.take(k + 1).drop_last() =~= items.take(k));
    assert(items.take(k + 1).last() == items[k]);
}

} // verus!
