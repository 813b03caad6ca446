use vstd::prelude::*;

verus! {

/// The segments of `s` between occurrences of the delimiter `d`, in order.
/// Every string has at least one segment; a leading, trailing or doubled
/// delimiter contributes an empty segment.
pub open spec fn split_on(s: Seq<char>, d: char) -> Seq<Seq<char>>
    decreases s.len(),
{
    if s.len() == 0 {
        seq![Seq::<char>::empty()]
    } else if s.last() == d {
        split_on(s.drop_last(), d).push(Seq::<char>::empty())
    } else {
        let prior = split_on(s.drop_last(), d);
        prior.update(prior.len() - 1, prior.last().push(s.last()))
    }
}

pub proof fn lemma_split_on_nonempty(s: Seq<char>, d: char)
    ensures
        split_on(s, d).len() >= 1,
    decreases s.len(),
{
    if s.len() != 0 {
        lemma_split_on_nonempty(s.drop_last(), d);
    }
}

/// The fixed instruction prefix placed before the topic text when asking the
/// completion collaborator for optimized search queries.
pub open spec fn spec_optimisation_prefix() -> Seq<char> {
    "Optimise this natural language query to show the best and latest results in a search engine. Only return the updated query. If the query contains more than 1 request then split it into multiple queries using semi-colons ;. Query:"@
}

/// The full optimization prompt for a topic: the fixed prefix followed by
/// the topic text.
pub fn optimization_prompt(topic: &str) -> (prompt: String)
    ensures
        prompt@ == spec_optimisation_prefix() + topic@,
{
    let mut prompt =
        "Optimise this natural language query to show the best and latest results in a search engine. Only return the updated query. If the query contains more than 1 request then split it into multiple queries using semi-colons ;. Query:".to_owned();
    prompt.append(topic);
    prompt
}

/// Splits a completion response into the optimized queries it encodes, one
/// per semicolon-separated segment. Empty segments are kept: downstream
/// stages tolerate them rather than crash on them.
pub fn split_queries(response: &str) -> (queries: Vec<String>)
    ensures
        queries.deep_view() == split_on(response@, ';'),
        queries.len() >= 1,
{
    let n = response.unicode_len();
    let mut queries: Vec<String> = Vec::new();
    let mut start: usize = 0;
    let mut i: usize = 0;
    while i < n
        invariant
            start <= i <= n,
            n == response@.len(),
            queries.deep_view() == split_on(response@.take(i as int), ';').drop_last(),
            split_on(response@.take(i as int), ';').last() == response@.subrange(
                start as int,
                i as int,
            ),
        decreases n - i,
    {
        proof {
            lemma_split_on_nonempty(response@.take(i as int), ';');
            assert(response@.take(i + 1 as int).drop_last() =~= response@.take(i as int));
            assert(response@.take(i + 1 as int).last() == response@[i as int]);
        }
        let c = response.get_char(i);
        if c == ';' {
            let segment = response.substring_char(start, i).to_owned();
            let ghost pre = queries.deep_view();
            queries.push(segment);
            proof {
                assert(queries.deep_view() =~= pre.push(segment@));
                let sp = split_on(response@.take(i as int), ';');
                assert(pre.push(segment@) =~= sp.drop_last().push(sp.last()));
                assert(sp.drop_last().push(sp.last()) =~= sp);
                assert(split_on(response@.take(i + 1 as int), ';').drop_last() =~= sp);
                assert(split_on(response@.take(i + 1 as int), ';').last() =~= response@.subrange(
                    i + 1 as int,
                    i + 1 as int,
                ));
            }
            start = i + 1;
        } else {
            proof {
                let sp = split_on(response@.take(i as int), ';');
                let sp1 = split_on(response@.take(i + 1 as int), ';');
                assert(sp1 == sp.update(sp.len() - 1, sp.last().push(response@[i as int])));
                assert(sp1.drop_last() =~= sp.drop_last());
                assert(sp1.last() =~= response@.subrange(start as int, i + 1 as int));
            }
        }
        i += 1;
    }
    proof {
        assert(response@.take(n as int) =~= response@);
        lemma_split_on_nonempty(response@, ';');
    }
    let last_segment = response.substring_char(start, n).to_owned();
    let ghost pre = queries.deep_view();
    queries.push(last_segment);
    proof {
        assert(queries.deep_view() =~= pre.push(last_segment@));
        let sp = split_on(response@, ';');
        assert(pre.push(last_segment@) =~= sp.drop_last().push(sp.last()));
        assert(sp.drop_last().push(sp.last()) =~= sp);
    }
    queries
}

} // verus!
