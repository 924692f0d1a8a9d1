use vstd::prelude::*;

verus! {

/// `ys` is what a filter-then-map over `xs` gives: the elements of `xs` that
/// `keep` accepts, in order, each related by `rel` to its image in `ys`.
pub open spec fn filter_map_rel<A, B>(
    xs: Seq<A>,
    ys: Seq<B>,
    keep: spec_fn(A) -> bool,
    rel: spec_fn(A, B) -> bool,
) -> bool
    decreases xs.len(),
{
    if xs.len() == 0 {
        ys.len() == 0
    } else if keep(xs.last()) {
        &&& ys.len() > 0
        &&& rel(xs.last(), ys.last())
        &&& filter_map_rel(xs.drop_last(), ys.drop_last(), keep, rel)
    } else {
        filter_map_rel(xs.drop_last(), ys, keep, rel)
    }
}

/// Extending a filter-map by one element of the input: when `keep` accepts
/// it, its image is appended; else the output stays.
pub proof fn lemma_filter_map_push<A, B>(
    xs: Seq<A>,
    ys: Seq<B>,
    keep: spec_fn(A) -> bool,
    rel: spec_fn(A, B) -> bool,
    x: A,
    y: B,
)
    requires
        filter_map_rel(xs, ys, keep, rel),
        keep(x) ==> rel(x, y),
    ensures
        keep(x) ==> filter_map_rel(xs.push(x), ys.push(y), keep, rel),
        !keep(x) ==> filter_map_rel(xs.push(x), ys, keep, rel),
{
    assert(xs.push(x).drop_last() =~= xs);
    assert(ys.push(y).drop_last() =~= ys);
}

} // verus!
