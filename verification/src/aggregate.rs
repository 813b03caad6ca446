use vstd::prelude::*;

verus! {

/// The ordered join of the non-empty entries of `results`, separated by
/// single newlines. Empty entries contribute nothing, not even a separator,
/// so a query whose fetch came back empty is silently dropped while the
/// order of the remaining results is kept.
pub open spec fn spec_aggregate(results: Seq<Seq<char>>) -> Seq<char>
    decreases results.len(),
{
    if results.len() == 0 {
        Seq::<char>::empty()
    } else {
        let prefix = spec_aggregate(results.drop_last());
        let last = results.last();
        if last.len() == 0 {
            prefix
        } else if prefix.len() == 0 {
            last
        } else {
            prefix + seq!['\n'] + last
        }
    }
}

/// The aggregate of results that are all empty is empty; the aggregate of
/// results with at least one non-empty entry is non-empty.
pub proof fn lemma_aggregate_empty_iff(results: Seq<Seq<char>>)
    ensures
        spec_aggregate(results).len() == 0 <==> (forall|i: int|
            0 <= i < results.len() ==> results[i].len() == 0),
    decreases results.len(),
{
    if results.len() > 0 {
        lemma_aggregate_empty_iff(results.drop_last());
        if spec_aggregate(results).len() == 0 {
            assert forall|i: int| 0 <= i < results.len() implies results[i].len() == 0 by {
                if i < results.len() - 1 {
                    assert(results.drop_last()[i] == results[i]);
                }
            }
        } else {
            if forall|i: int| 0 <= i < results.len() ==> results[i].len() == 0 {
                assert(forall|i: int|
                    0 <= i < results.drop_last().len() ==> results.drop_last()[i] == results[i]);
                assert(results.last().len() == 0);
            }
        }
    }
}

/// Aggregation distributes over concatenation of result sequences whose
/// entries are all non-empty: joining a batch equals joining its two halves
/// and separating them with one newline.
pub proof fn lemma_aggregate_concat(left: Seq<Seq<char>>, right: Seq<Seq<char>>)
    requires
        left.len() > 0,
        right.len() > 0,
        forall|i: int| 0 <= i < left.len() ==> left[i].len() > 0,
        forall|i: int| 0 <= i < right.len() ==> right[i].len() > 0,
    ensures
        spec_aggregate(left + right) == spec_aggregate(left) + seq!['\n'] + spec_aggregate(right),
    decreases right.len(),
{
    lemma_aggregate_empty_iff(left);
    if right.len() == 1 {
        assert((left + right).drop_last() =~= left);
        assert((left + right).last() == right[0]);
        assert(right.drop_last() =~= Seq::<Seq<char>>::empty());
        assert(spec_aggregate(right) == right[0]);
    } else {
        lemma_aggregate_concat(left, right.drop_last());
        lemma_aggregate_empty_iff(right.drop_last());
        assert(forall|i: int|
            0 <= i < right.drop_last().len() ==> #[trigger] right.drop_last()[i].len() > 0);
        assert((left + right).drop_last() =~= left + right.drop_last());
        assert((left + right).last() == right.last());
        assert(spec_aggregate(left + right) == spec_aggregate(left + right.drop_last())
            + seq!['\n'] + right.last());
        assert(spec_aggregate(right) == spec_aggregate(right.drop_last()) + seq!['\n']
            + right.last());
        assert(spec_aggregate(left) + seq!['\n'] + (spec_aggregate(right.drop_last()) + seq!['\n']
            + right.last()) =~= (spec_aggregate(left) + seq!['\n'] + spec_aggregate(
            right.drop_last(),
        )) + seq!['\n'] + right.last());
    }
}

/// Joining three non-empty results in one batch equals joining each alone
/// and separating the three joins with newlines; the batch keeps the order
/// of its entries.
pub proof fn lemma_aggregate_three(a: Seq<char>, b: Seq<char>, c: Seq<char>)
    requires
        a.len() > 0,
        b.len() > 0,
        c.len() > 0,
    ensures
        spec_aggregate(seq![a, b, c]) == spec_aggregate(seq![a]) + seq!['\n'] + spec_aggregate(
            seq![b],
        ) + seq!['\n'] + spec_aggregate(seq![c]),
{
    lemma_aggregate_concat(seq![a], seq![b]);
    assert(seq![a] + seq![b] =~= seq![a, b]);
    lemma_aggregate_concat(seq![a, b], seq![c]);
    assert(seq![a, b] + seq![c] =~= seq![a, b, c]);
    assert(seq![a].drop_last() =~= Seq::<Seq<char>>::empty());
    assert(seq![b].drop_last() =~= Seq::<Seq<char>>::empty());
    assert(seq![c].drop_last() =~= Seq::<Seq<char>>::empty());
}

/// Joins the non-empty entries of `results` with newline separators,
/// preserving input order. Total: never fails, and empty input or all-empty
/// input yields the empty string.
pub fn aggregate(results: &Vec<String>) -> (combined: String)
    ensures
        combined@ == spec_aggregate(results.deep_view()),
{
    let mut combined = String::new();
    let mut i: usize = 0;
    while i < results.len()
        invariant
            i <= results.len(),
            combined@ == spec_aggregate(results.deep_view().take(i as int)),
        decreases results.len() - i,
    {
        proof {
            assert(results.deep_view().take(i + 1 as int).drop_last() =~= results.deep_view().take(
                i as int,
            ));
            assert(results.deep_view().take(i + 1 as int).last() == results@[i as int]@);
        }
        let entry = &results[i];
        if !entry.as_str().is_empty() {
            if !combined.as_str().is_empty() {
                combined.append("\n");
                proof {
                    reveal_strlit("\n");
                    assert("\n"@ =~= seq!['\n']);
                }
            }
            combined.append(entry.as_str());
        }
        i += 1;
    }
    proof {
        assert(results.deep_view().take(results.len() as int) =~= results.deep_view());
    }
    combined
}

} // verus!
