use vstd::prelude::*;

verus! {

/// One place that the geocoding provider matched for a query. The
/// coordinates are the bit patterns of `f64` degrees.
#[derive(Clone, Debug)]
pub struct SearchResult {
    pub name: String,
    pub state: Option<String>,
    pub country: String,
    pub lat_bits: u64,
    pub lon_bits: u64,
}

/// What a search query leads to before any provider call.
#[derive(Clone, Copy, Debug, PartialEq, Eq, Structural)]
pub enum SearchStep {
    /// The query is empty: show an empty result list, ask no one.
    ShowNoResults,
    /// Ask the provider for matches.
    AskProvider,
}

/// `candidate` repeats `kept`: same name, same country and the same state,
/// which the candidate must have. A candidate without a state repeats
/// nothing.
pub open spec fn repeats(kept: SearchResult, candidate: SearchResult) -> bool {
    &&& kept.name@ == candidate.name@
    &&& kept.country@ == candidate.country@
    &&& candidate.state is Some
    &&& kept.state is Some
    &&& kept.state.unwrap()@ == candidate.state.unwrap()@
}

pub open spec fn repeats_any(kept: Seq<SearchResult>, candidate: SearchResult) -> bool {
    exists|j: int| 0 <= j < kept.len() && repeats(#[trigger] kept[j], candidate)
}

/// The candidates in order, each dropped when it repeats one kept before it.
pub open spec fn deduplicated(s: Seq<SearchResult>) -> Seq<SearchResult>
    decreases s.len(),
{
    if s.len() == 0 {
        s
    } else {
        let r = deduplicated(s.drop_last());
        if repeats_any(r, s.last()) {
            r
        } else {
            r.push(s.last())
        }
    }
}

/// The first step of a search for `query`.
pub fn search_location(query: &str) -> (r: SearchStep)
    ensures
        r == SearchStep::ShowNoResults <==> query@.len() == 0,
{
    if query.is_empty() {
        SearchStep::ShowNoResults
    } else {
        SearchStep::AskProvider
    }
}

fn same_text(a: &String, b: &String) -> (r: bool)
    ensures
        r == (a@ == b@),
{
    *a == *b
}

fn repeats_exec(kept: &SearchResult, candidate: &SearchResult) -> (r: bool)
    ensures
        r == repeats(*kept, *candidate),
{
    if !same_text(&kept.name, &candidate.name) || !same_text(&kept.country, &candidate.country) {
        return false;
    }
    match (&kept.state, &candidate.state) {
        (Some(k), Some(c)) => same_text(k, c),
        _ => false,
    }
}

/// Drops each candidate that repeats one kept before it.
pub fn dedup_results(candidates: Vec<SearchResult>) -> (r: Vec<SearchResult>)
    ensures
        r@ == deduplicated(candidates@),
{
    let ghost src = candidates@;
    let total = candidates.len();
    let mut rest = candidates;
    let mut kept: Vec<SearchResult> = Vec::new();
    let mut i: usize = 0;
    while rest.len() > 0
        invariant
            i + rest@.len() == src.len(),
            src.len() == total,
            rest@ == src.subrange(i as int, src.len() as int),
            kept@ == deduplicated(src.subrange(0, i as int)),
        decreases rest@.len(),
    {
        let candidate = rest.remove(0);
        assert(src.subrange(0, i + 1).drop_last() =~= src.subrange(0, i as int));
        let mut found = false;
        let mut j: usize = 0;
        while j < kept.len()
            invariant
                j <= kept@.len(),
                found == exists|m: int| 0 <= m < j && repeats(#[trigger] kept@[m], candidate),
            decreases kept@.len() - j,
        {
            if repeats_exec(&kept[j], &candidate) {
                found = true;
            }
            j = j + 1;
        }
        if !found {
            kept.push(candidate);
        }
        i = i + 1;
        assert(rest@ =~= src.subrange(i as int, src.len() as int));
    }
    assert(src.subrange(0, i as int) =~= src);
    kept
}

/// What the result list becomes once the provider has answered: a failed
/// lookup leaves the shown list alone (`None`); matches replace it, with
/// repeats dropped.
pub fn search_results(response: Option<Vec<SearchResult>>) -> (r: Option<Vec<SearchResult>>)
    ensures
        response is None ==> r is None,
        response is Some ==> r is Some && r.unwrap()@ == deduplicated(response.unwrap()@),
{
    match response {
        Some(found) => Some(dedup_results(found)),
        None => None,
    }
}

/// A candidate without a state is never dropped.
pub proof fn lemma_stateless_kept(s: Seq<SearchResult>, i: int)
    requires
        0 <= i < s.len(),
        s[i].state is None,
    ensures
        deduplicated(s).contains(s[i]),
    decreases s.len(),
{
    let t = s.drop_last();
    if i == s.len() - 1 {
        assert(!repeats_any(deduplicated(t), s[i]));
        assert(deduplicated(s).last() == s[i]);
    } else {
        assert(t[i] == s[i]);
        lemma_stateless_kept(t, i);
        let k = choose|k: int| 0 <= k < deduplicated(t).len() && deduplicated(t)[k] == s[i];
        if !repeats_any(deduplicated(t), s.last()) {
            assert(deduplicated(s)[k] == s[i]);
        }
    }
}

} // verus!
