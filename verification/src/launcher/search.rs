//! Fuzzy ranking of launcher entries, blended with launch frequency.
use vstd::prelude::*;

use crate::launcher::types::{views, AppEntry, AppEntryView, SearchResult};
use crate::text::{push_all, str_eq, string_from_chars, chars_of};
use nucleo::pattern::{CaseMatching, MultiPattern, Normalization};

verus! {

/// What `nucleo`'s matcher scores `haystack` against the pattern parsed from `query`
/// (one column, smart case matching, smart normalization); `None` when it does not match.
pub uninterp spec fn fuzzy_score(query: Seq<char>, haystack: Seq<char>) -> Option<u32>;

/// `nucleo::pattern::MultiPattern::score` for one column. Trusted: the result is
/// `fuzzy_score` of the query and the haystack.
#[verifier::external_body]
fn nucleo_score(query: &str, haystack: &str) -> (r: Option<u32>)
    ensures
        r == fuzzy_score(query@, haystack@),
{
    let mut matcher = nucleo::Matcher::new(nucleo::Config::DEFAULT);
    let mut pattern = MultiPattern::new(1);
    pattern.reparse(0, query, CaseMatching::Smart, Normalization::Smart, false);
    pattern.score(&[nucleo::Utf32String::from(haystack)], &mut matcher)
}

/// Weight of launch frequency against match quality, in tenths.
pub open spec fn frequency_weight_tenths() -> int {
    3
}

/// The words searched for an entry: its name, its description if any, its keywords.
pub open spec fn haystack_parts(e: AppEntryView) -> Seq<Seq<char>> {
    seq![e.name] + (match e.description {
        Some(d) => seq![d],
        None => seq![],
    }) + e.keywords
}

/// `parts` joined by single spaces.
pub open spec fn join_spaces(parts: Seq<Seq<char>>) -> Seq<char>
    decreases parts.len(),
{
    if parts.len() == 0 {
        seq![]
    } else if parts.len() == 1 {
        parts[0]
    } else {
        join_spaces(parts.drop_last()) + seq![' '] + parts.last()
    }
}

/// The text an entry is matched against.
pub open spec fn haystack(e: AppEntryView) -> Seq<char> {
    join_spaces(haystack_parts(e))
}

/// The text an entry is matched against: name, description and keywords, space-separated.
pub fn build_haystack(entry: &AppEntry) -> (r: String)
    ensures
        r@ == haystack(entry@),
{
    let mut parts: Vec<String> = Vec::new();
    parts.push(entry.name.clone());
    assert(views(parts@) =~= seq![entry@.name]);
    match &entry.description {
        Some(d) => {
            parts.push(d.clone());
            assert(views(parts@) =~= seq![entry@.name] + seq![d@]);
        },
        None => {
            assert(views(parts@) =~= seq![entry@.name] + seq![]);
        },
    }
    assert(entry@.keywords.take(0) =~= seq![]);
    let mut k: usize = 0;
    while k < entry.keywords.len()
        invariant
            k <= entry.keywords.len(),
            views(parts@) == seq![entry@.name] + (match entry@.description {
                Some(d) => seq![d],
                None => seq![],
            }) + entry@.keywords.take(k as int),
        decreases entry.keywords.len() - k,
    {
        let ghost before = views(parts@);
        parts.push(entry.keywords[k].clone());
        proof {
            assert(views(parts@) =~= before.push(entry@.keywords[k as int]));
            assert(entry@.keywords.take(k + 1) =~= entry@.keywords.take(k as int).push(
                entry@.keywords[k as int],
            ));
            assert(views(parts@) =~= seq![entry@.name] + (match entry@.description {
                Some(d) => seq![d],
                None => seq![],
            }) + entry@.keywords.take(k + 1));
        }
        k += 1;
    }
    proof {
        assert(entry@.keywords.take(entry.keywords.len() as int) =~= entry@.keywords);
        assert(views(parts@) =~= haystack_parts(entry@));
    }
    let ghost ps = views(parts@);
    let mut out: Vec<char> = chars_of(parts[0].as_str());
    let mut i: usize = 1;
    while i < parts.len()
        invariant
            1 <= i <= parts.len(),
            ps == views(parts@),
            out@ == join_spaces(ps.take(i as int)),
        decreases parts.len() - i,
    {
        proof {
            assert(ps.take(i + 1).drop_last() =~= ps.take(i as int));
        }
        out.push(' ');
        let w = chars_of(parts[i].as_str());
        push_all(&mut out, w.as_slice());
        i += 1;
    }
    proof {
        assert(ps.take(parts.len() as int) =~= ps);
    }
    string_from_chars(out.as_slice())
}

/// The launch count recorded for `id`: the first matching pair's count, or 0.
pub open spec fn count_for(id: Seq<char>, counts: Seq<(String, u32)>) -> u32
    decreases counts.len(),
{
    if counts.len() == 0 {
        0
    } else if counts[0].0@ == id {
        counts[0].1
    } else {
        count_for(id, counts.drop_first())
    }
}

/// The launch count recorded for `id`, or 0 when there is none.
pub fn usage_count_for(id: &str, counts: &[(String, u32)]) -> (r: u32)
    ensures
        r == count_for(id@, counts@),
{
    let mut i: usize = 0;
    assert(counts@.skip(0) =~= counts@);
    while i < counts.len()
        invariant
            i <= counts.len(),
            count_for(id@, counts@) == count_for(id@, counts@.skip(i as int)),
        decreases counts.len() - i,
    {
        proof {
            assert(counts@.skip(i as int).drop_first() =~= counts@.skip(i + 1));
        }
        if str_eq(counts[i].0.as_str(), id) {
            return counts[i].1;
        }
        i += 1;
    }
    0
}

/// The largest recorded launch count, or 0 when none is recorded.
pub open spec fn max_usage(counts: Seq<(String, u32)>) -> u32
    decreases counts.len(),
{
    if counts.len() == 0 {
        0
    } else {
        let m = max_usage(counts.drop_last());
        if counts.last().1 > m { counts.last().1 } else { m }
    }
}

/// The frequency normaliser: the largest launch count, at least 1.
pub open spec fn count_scale(counts: Seq<(String, u32)>) -> u32 {
    if max_usage(counts) == 0 { 1 } else { max_usage(counts) }
}

fn compute_count_scale(counts: &[(String, u32)]) -> (r: u32)
    ensures
        r == count_scale(counts@),
        r >= 1,
{
    let mut m: u32 = 0;
    let mut i: usize = 0;
    while i < counts.len()
        invariant
            i <= counts.len(),
            m == max_usage(counts@.take(i as int)),
        decreases counts.len() - i,
    {
        proof {
            assert(counts@.take(i + 1).drop_last() =~= counts@.take(i as int));
        }
        if counts[i].1 > m {
            m = counts[i].1;
        }
        i += 1;
    }
    proof {
        assert(counts@.take(counts.len() as int) =~= counts@);
    }
    if m == 0 { 1 } else { m }
}

/// The content of a [`SearchResult`].
pub struct SearchResultView {
    pub entry: AppEntryView,
    pub score_num: u128,
    pub score_den: u128,
    pub launch_count: u32,
}

impl View for SearchResult {
    type V = SearchResultView;

    open spec fn view(&self) -> SearchResultView {
        SearchResultView {
            entry: self.entry@,
            score_num: self.score_num,
            score_den: self.score_den,
            launch_count: self.launch_count,
        }
    }
}

/// The views of a list of results.
pub open spec fn result_views(s: Seq<SearchResult>) -> Seq<SearchResultView> {
    s.map_values(|r: SearchResult| r@)
}

/// `x` inserted into `s` after every element scored at least as high (stable insertion).
pub open spec fn insert_desc(s: Seq<SearchResultView>, x: SearchResultView) -> Seq<SearchResultView>
    decreases s.len(),
{
    if s.len() == 0 {
        seq![x]
    } else if s[0].score_num >= x.score_num {
        seq![s[0]] + insert_desc(s.drop_first(), x)
    } else {
        seq![x] + s
    }
}

/// `s` stably sorted by descending score.
pub open spec fn sort_desc(s: Seq<SearchResultView>) -> Seq<SearchResultView>
    decreases s.len(),
{
    if s.len() == 0 {
        s
    } else {
        insert_desc(sort_desc(s.drop_last()), s.last())
    }
}

/// Whether `s` is ordered by descending score.
pub open spec fn is_sorted_desc(s: Seq<SearchResultView>) -> bool {
    forall|i: int, j: int| 0 <= i < j < s.len() ==> s[i].score_num >= s[j].score_num
}

proof fn lemma_insert_at(s: Seq<SearchResultView>, x: SearchResultView, i: int)
    requires
        0 <= i <= s.len(),
        forall|j: int| 0 <= j < i ==> s[j].score_num >= x.score_num,
        i == s.len() || s[i].score_num < x.score_num,
    ensures
        insert_desc(s, x) == s.take(i).push(x) + s.skip(i),
    decreases i,
{
    if i == 0 {
        if s.len() == 0 {
            assert(s.take(0).push(x) + s.skip(0) =~= seq![x]);
        } else {
            assert(s.take(0).push(x) + s.skip(0) =~= seq![x] + s);
        }
    } else {
        let t = s.drop_first();
        assert forall|j: int| 0 <= j < i - 1 implies t[j].score_num >= x.score_num by {
            assert(t[j] == s[j + 1]);
        }
        lemma_insert_at(t, x, i - 1);
        assert(seq![s[0]] + (t.take(i - 1).push(x) + t.skip(i - 1)) =~= s.take(i).push(x)
            + s.skip(i));
    }
}

proof fn lemma_insert_sorted(s: Seq<SearchResultView>, x: SearchResultView)
    requires
        is_sorted_desc(s),
    ensures
        is_sorted_desc(insert_desc(s, x)),
        insert_desc(s, x).len() == s.len() + 1,
        insert_desc(s, x).to_multiset() == s.to_multiset().insert(x),
    decreases s.len(),
{
    broadcast use vstd::seq_lib::group_to_multiset_ensures;
    if s.len() == 0 {
        assert(insert_desc(s, x) =~= seq![x]);
        assert(seq![x] =~= s.push(x));
    } else if s[0].score_num >= x.score_num {
        let t = s.drop_first();
        lemma_insert_sorted(t, x);
        let r = insert_desc(s, x);
        let rt = insert_desc(t, x);
        assert(r == seq![s[0]] + rt);
        assert forall|j: int| 0 <= j < rt.len() implies rt[j].score_num <= s[0].score_num by {
            assert(rt.to_multiset().count(rt[j]) > 0);
            assert(t.to_multiset().insert(x).count(rt[j]) > 0);
            if rt[j] != x {
                assert(t.to_multiset().count(rt[j]) > 0);
                assert(t.contains(rt[j]));
                let k = choose|k: int| 0 <= k < t.len() && t[k] == rt[j];
                assert(t[k] == s[k + 1]);
            }
        }
        assert forall|a: int, b: int| 0 <= a < b < r.len() implies r[a].score_num
            >= r[b].score_num by {
            if a > 0 {
                assert(r[a] == rt[a - 1]);
                assert(r[b] == rt[b - 1]);
            } else {
                assert(r[b] == rt[b - 1]);
            }
        }
        assert(s =~= seq![s[0]] + t);
        vstd::seq_lib::lemma_multiset_commutative(seq![s[0]], t);
        vstd::seq_lib::lemma_multiset_commutative(seq![s[0]], rt);
    } else {
        let r = seq![x] + s;
        assert(insert_desc(s, x) == r);
        assert forall|a: int, b: int| 0 <= a < b < r.len() implies r[a].score_num
            >= r[b].score_num by {
            if a > 0 {
                assert(r[a] == s[a - 1]);
            }
            assert(r[b] == s[b - 1]);
            assert(s[0].score_num >= s[b - 1].score_num);
        }
        vstd::seq_lib::lemma_multiset_commutative(seq![x], s);
    }
}

/// A stable descending sort is sorted and keeps every element.
pub proof fn lemma_sort_desc(s: Seq<SearchResultView>)
    ensures
        is_sorted_desc(sort_desc(s)),
        sort_desc(s).len() == s.len(),
        sort_desc(s).to_multiset() == s.to_multiset(),
    decreases s.len(),
{
    broadcast use vstd::seq_lib::group_to_multiset_ensures;
    if s.len() > 0 {
        lemma_sort_desc(s.drop_last());
        lemma_insert_sorted(sort_desc(s.drop_last()), s.last());
        assert(s =~= s.drop_last().push(s.last()));
    }
}

fn insert_sorted(v: &mut Vec<SearchResult>, x: SearchResult)
    ensures
        result_views(final(v)@) == insert_desc(result_views(old(v)@), x@),
{
    let ghost s = result_views(v@);
    let mut i: usize = 0;
    while i < v.len() && v[i].score_num >= x.score_num
        invariant
            i <= v.len(),
            s == result_views(v@),
            forall|j: int| 0 <= j < i ==> s[j].score_num >= x.score_num,
        decreases v.len() - i,
    {
        i += 1;
    }
    proof {
        lemma_insert_at(s, x@, i as int);
    }
    v.insert(i, x);
    proof {
        assert(result_views(v@) =~= s.take(i as int).push(x@) + s.skip(i as int));
    }
}

/// The entries that match `query`, each with its raw match score, in entry order.
pub open spec fn matched(query: Seq<char>, entries: Seq<AppEntryView>) -> Seq<(AppEntryView, u32)>
    decreases entries.len(),
{
    if entries.len() == 0 {
        seq![]
    } else {
        let prev = matched(query, entries.drop_last());
        match fuzzy_score(query, haystack(entries.last())) {
            Some(raw) => prev.push((entries.last(), raw)),
            None => prev,
        }
    }
}

/// The largest raw match score, at least 1.
pub open spec fn raw_scale(m: Seq<(AppEntryView, u32)>) -> u32
    decreases m.len(),
{
    if m.len() == 0 {
        1
    } else {
        let r = raw_scale(m.drop_last());
        if m.last().1 > r { m.last().1 } else { r }
    }
}

/// The result for one matched entry: the blend `0.7 · raw/raw_scale + 0.3 · count/count_scale`,
/// as an exact fraction over the common denominator `10 · raw_scale · count_scale`.
pub open spec fn blended(e: AppEntryView, raw: u32, count: u32, rs: u32, cs: u32) -> SearchResultView {
    SearchResultView {
        entry: e,
        score_num: ((10 - frequency_weight_tenths()) * raw * cs + frequency_weight_tenths() * count
            * rs) as u128,
        score_den: (10 * rs * cs) as u128,
        launch_count: count,
    }
}

/// The unsorted results: every entry scored by frequency alone when the query is empty,
/// else every matching entry with its blended score.
pub open spec fn unsorted_results(
    query: Seq<char>,
    entries: Seq<AppEntryView>,
    counts: Seq<(String, u32)>,
) -> Seq<SearchResultView> {
    if query.len() == 0 {
        entries.map_values(
            |e: AppEntryView|
                SearchResultView {
                    entry: e,
                    score_num: count_for(e.id, counts) as u128,
                    score_den: count_scale(counts) as u128,
                    launch_count: count_for(e.id, counts),
                },
        )
    } else {
        let m = matched(query, entries);
        m.map_values(
            |p: (AppEntryView, u32)|
                blended(p.0, p.1, count_for(p.0.id, counts), raw_scale(m), count_scale(counts)),
        )
    }
}

/// The ranking: the results stably sorted by descending score, at most `limit` of them.
pub open spec fn ranking(
    query: Seq<char>,
    entries: Seq<AppEntryView>,
    counts: Seq<(String, u32)>,
    limit: nat,
) -> Seq<SearchResultView> {
    let s = sort_desc(unsorted_results(query, entries, counts));
    if limit < s.len() { s.take(limit as int) } else { s }
}

/// The views of a list of entries.
pub open spec fn entry_views(s: Seq<AppEntry>) -> Seq<AppEntryView> {
    s.map_values(|e: AppEntry| e@)
}

/// The entries that match, each with its raw match score from `raws` (by position), in
/// entry order.
pub open spec fn matched_by(entries: Seq<AppEntryView>, raws: Seq<Option<u32>>) -> Seq<(AppEntryView, u32)>
    decreases entries.len(),
{
    if entries.len() == 0 {
        seq![]
    } else {
        let prev = matched_by(entries.drop_last(), raws);
        match raws[entries.len() - 1] {
            Some(raw) => prev.push((entries.last(), raw)),
            None => prev,
        }
    }
}

/// The unsorted results for raw match scores `raws`: every entry scored by frequency
/// alone for an empty query, else every matching entry with its blended score.
pub open spec fn unsorted_by(
    query_empty: bool,
    entries: Seq<AppEntryView>,
    counts: Seq<(String, u32)>,
    raws: Seq<Option<u32>>,
) -> Seq<SearchResultView> {
    if query_empty {
        entries.map_values(
            |e: AppEntryView|
                SearchResultView {
                    entry: e,
                    score_num: count_for(e.id, counts) as u128,
                    score_den: count_scale(counts) as u128,
                    launch_count: count_for(e.id, counts),
                },
        )
    } else {
        let m = matched_by(entries, raws);
        m.map_values(
            |p: (AppEntryView, u32)|
                blended(p.0, p.1, count_for(p.0.id, counts), raw_scale(m), count_scale(counts)),
        )
    }
}

/// The ranking for raw match scores `raws`: the results stably sorted by descending
/// score, at most `limit` of them.
pub open spec fn ranking_by(
    query_empty: bool,
    entries: Seq<AppEntryView>,
    counts: Seq<(String, u32)>,
    raws: Seq<Option<u32>>,
    limit: nat,
) -> Seq<SearchResultView> {
    let s = sort_desc(unsorted_by(query_empty, entries, counts, raws));
    if limit < s.len() { s.take(limit as int) } else { s }
}

proof fn lemma_matched_by(query: Seq<char>, entries: Seq<AppEntryView>, raws: Seq<Option<u32>>)
    requires
        raws.len() >= entries.len(),
        forall|k: int| 0 <= k < entries.len() ==> raws[k] == fuzzy_score(query, haystack(#[trigger] entries[k])),
    ensures
        matched(query, entries) == matched_by(entries, raws),
    decreases entries.len(),
{
    if entries.len() > 0 {
        assert forall|k: int| 0 <= k < entries.drop_last().len() implies raws[k] == fuzzy_score(
            query,
            haystack(#[trigger] entries.drop_last()[k]),
        ) by {
            assert(entries.drop_last()[k] == entries[k]);
        }
        lemma_matched_by(query, entries.drop_last(), raws);
        assert(raws[entries.len() - 1] == fuzzy_score(query, haystack(entries[entries.len() - 1])));
    }
}

/// Ranking with the scores `nucleo` gives each entry is the ranking.
proof fn lemma_ranking_by(
    query: Seq<char>,
    entries: Seq<AppEntryView>,
    counts: Seq<(String, u32)>,
    raws: Seq<Option<u32>>,
    limit: nat,
)
    requires
        raws.len() == entries.len(),
        query.len() > 0 ==> forall|k: int|
            0 <= k < entries.len() ==> raws[k] == fuzzy_score(query, haystack(#[trigger] entries[k])),
    ensures
        ranking(query, entries, counts, limit) == ranking_by(query.len() == 0, entries, counts, raws, limit),
{
    if query.len() > 0 {
        lemma_matched_by(query, entries, raws);
    }
    assert(unsorted_results(query, entries, counts) == unsorted_by(query.len() == 0, entries, counts, raws));
}

/// Ranks `entries` given the raw match score of each (`raws`, `None` for no match), for
/// an empty query (frequency alone) or not; results come sorted by descending score, at
/// most `limit` of them.
pub fn rank_scored(
    query_empty: bool,
    entries: &[AppEntry],
    usage_counts: &[(String, u32)],
    raws: &Vec<Option<u32>>,
    limit: usize,
) -> (r: Vec<SearchResult>)
    requires
        raws.len() == entries.len(),
    ensures
        result_views(r@) == ranking_by(query_empty, entry_views(entries@), usage_counts@, raws@, limit as nat),
{
    let ghost ev = entry_views(entries@);
    let ghost unsorted = unsorted_by(query_empty, ev, usage_counts@, raws@);
    let cs = compute_count_scale(usage_counts);
    let mut out: Vec<SearchResult> = Vec::new();
    if query_empty {
        let mut i: usize = 0;
        while i < entries.len()
            invariant
                i <= entries.len(),
                query_empty,
                ev == entry_views(entries@),
                unsorted == unsorted_by(query_empty, ev, usage_counts@, raws@),
                cs == count_scale(usage_counts@),
                result_views(out@) == sort_desc(unsorted.take(i as int)),
            decreases entries.len() - i,
        {
            let count = usage_count_for(entries[i].id.as_str(), usage_counts);
            let sr = SearchResult {
                entry: entries[i].duplicate(),
                score_num: count as u128,
                score_den: cs as u128,
                launch_count: count,
            };
            proof {
                assert(unsorted.take(i + 1).drop_last() =~= unsorted.take(i as int));
                assert(sr@ == unsorted[i as int]);
            }
            insert_sorted(&mut out, sr);
            i += 1;
        }
        proof {
            assert(unsorted.take(entries.len() as int) =~= unsorted);
        }
    } else {
        let mut hits: Vec<(usize, u32)> = Vec::new();
        let mut rs: u32 = 1;
        let mut i: usize = 0;
        while i < entries.len()
            invariant
                i <= entries.len(),
                raws.len() == entries.len(),
                ev == entry_views(entries@),
                hits@.len() == matched_by(ev.take(i as int), raws@).len(),
                forall|k: int|
                    #![trigger hits@[k]]
                    0 <= k < hits@.len() ==> {
                        &&& hits@[k].0 < i
                        &&& matched_by(ev.take(i as int), raws@)[k] == (
                            ev[hits@[k].0 as int],
                            hits@[k].1,
                        )
                    },
                rs == raw_scale(matched_by(ev.take(i as int), raws@)),
            decreases entries.len() - i,
        {
            proof {
                assert(ev.take(i + 1).drop_last() =~= ev.take(i as int));
            }
            let ghost prev = matched_by(ev.take(i as int), raws@);
            let ghost hs = hits@;
            proof {
                assert(ev.take(i + 1).last() == ev[i as int]);
                assert(ev.take(i + 1).len() - 1 == i);
            }
            match raws[i] {
                Some(raw) => {
                    proof {
                        assert(matched_by(ev.take(i + 1), raws@) == prev.push((ev[i as int], raw)));
                        assert(prev.push((ev[i as int], raw)).drop_last() =~= prev);
                    }
                    hits.push((i, raw));
                    if raw > rs {
                        rs = raw;
                    }
                    proof {
                        assert forall|k: int| #![trigger hits@[k]] 0 <= k < hits@.len() implies {
                            &&& hits@[k].0 < i + 1
                            &&& matched_by(ev.take(i + 1), raws@)[k] == (
                                ev[hits@[k].0 as int],
                                hits@[k].1,
                            )
                        } by {
                            if k < hs.len() {
                                assert(hits@[k] == hs[k]);
                            }
                        }
                    }
                },
                None => {
                    proof {
                        assert(matched_by(ev.take(i + 1), raws@) == prev);
                    }
                },
            }
            i += 1;
        }
        proof {
            assert(ev.take(entries.len() as int) =~= ev);
        }
        let ghost m = matched_by(ev, raws@);
        assert(matched_by(ev.take(entries.len() as int), raws@) == m);
        let mut k: usize = 0;
        while k < hits.len()
            invariant
                k <= hits.len(),
                !query_empty,
                ev == entry_views(entries@),
                m == matched_by(ev, raws@),
                hits@.len() == m.len(),
                forall|j: int|
                    #![trigger hits@[j]]
                    0 <= j < hits@.len() ==> {
                        &&& hits@[j].0 < entries.len()
                        &&& m[j] == (ev[hits@[j].0 as int], hits@[j].1)
                    },
                rs == raw_scale(m),
                cs == count_scale(usage_counts@),
                cs >= 1,
                unsorted == unsorted_by(query_empty, ev, usage_counts@, raws@),
                result_views(out@) == sort_desc(unsorted.take(k as int)),
            decreases hits.len() - k,
        {
            let (idx, raw) = hits[k];
            assert(hits@[k as int].0 < entries.len());
            let count = usage_count_for(entries[idx].id.as_str(), usage_counts);
            proof {
                assert((raw as u128) * (cs as u128) <= 0xffff_ffffu128 * 0xffff_ffffu128) by (nonlinear_arith)
                    requires raw <= 0xffff_ffffu32, cs <= 0xffff_ffffu32;
                assert((count as u128) * (rs as u128) <= 0xffff_ffffu128 * 0xffff_ffffu128) by (nonlinear_arith)
                    requires count <= 0xffff_ffffu32, rs <= 0xffff_ffffu32;
                assert((rs as u128) * (cs as u128) <= 0xffff_ffffu128 * 0xffff_ffffu128) by (nonlinear_arith)
                    requires rs <= 0xffff_ffffu32, cs <= 0xffff_ffffu32;
            }
            let a: u128 = (raw as u128) * (cs as u128);
            let b: u128 = (count as u128) * (rs as u128);
            let d: u128 = (rs as u128) * (cs as u128);
            let sr = SearchResult {
                entry: entries[idx].duplicate(),
                score_num: 7u128 * a + 3u128 * b,
                score_den: 10u128 * d,
                launch_count: count,
            };
            proof {
                assert(m[k as int] == (ev[idx as int], raw));
                assert(unsorted.take(k + 1).drop_last() =~= unsorted.take(k as int));
                assert(7 * raw * cs == 7 * a) by (nonlinear_arith) requires a == raw * cs;
                assert(3 * count * rs == 3 * b) by (nonlinear_arith) requires b == count * rs;
                assert(10 * rs * cs == 10 * d) by (nonlinear_arith) requires d == rs * cs;
                assert(sr@ == unsorted[k as int]);
            }
            insert_sorted(&mut out, sr);
            k += 1;
        }
        proof {
            assert(unsorted.take(hits.len() as int) =~= unsorted);
        }
    }
    let ghost sorted = result_views(out@);
    if limit < out.len() {
        out.truncate(limit);
        proof {
            assert(result_views(out@) =~= sorted.take(limit as int));
        }
    }
    out
}

/// Fuzzy-ranks `entries` against `query`, blending match quality with launch frequency;
/// results come sorted by descending score, at most `limit` of them.
pub fn rank(query: &str, entries: &[AppEntry], usage_counts: &[(String, u32)], limit: usize) -> (r:
    Vec<SearchResult>)
    ensures
        result_views(r@) == ranking(query@, entry_views(entries@), usage_counts@, limit as nat),
{
    let q = chars_of(query);
    let mut raws: Vec<Option<u32>> = Vec::new();
    let mut i: usize = 0;
    while i < entries.len()
        invariant
            i <= entries.len(),
            raws.len() == i,
            q@ == query@,
            query@.len() > 0 ==> forall|k: int|
                0 <= k < i ==> raws@[k] == fuzzy_score(query@, haystack(#[trigger] entries@[k]@)),
        decreases entries.len() - i,
    {
        if q.len() == 0 {
            raws.push(None);
        } else {
            let hay = build_haystack(&entries[i]);
            raws.push(nucleo_score(query, hay.as_str()));
        }
        i += 1;
    }
    proof {
        lemma_ranking_by(query@, entry_views(entries@), usage_counts@, raws@, limit as nat);
    }
    rank_scored(q.len() == 0, entries, usage_counts, &raws, limit)
}

/// The ranking is sorted by descending score, holds at most `limit` results, and each
/// result is one of the unsorted results.
pub proof fn lemma_ranking_sorted_and_bounded(
    query: Seq<char>,
    entries: Seq<AppEntryView>,
    counts: Seq<(String, u32)>,
    limit: nat,
)
    ensures
        is_sorted_desc(ranking(query, entries, counts, limit)),
        ranking(query, entries, counts, limit).len() <= limit,
        forall|i: int|
            0 <= i < ranking(query, entries, counts, limit).len() ==> unsorted_results(
                query,
                entries,
                counts,
            ).contains(#[trigger] ranking(query, entries, counts, limit)[i]),
{
    broadcast use vstd::seq_lib::group_to_multiset_ensures;
    let u = unsorted_results(query, entries, counts);
    lemma_sort_desc(u);
    let s = sort_desc(u);
    let r = ranking(query, entries, counts, limit);
    assert forall|i: int| 0 <= i < r.len() implies u.contains(#[trigger] r[i]) by {
        assert(r[i] == s[i]);
        assert(s.to_multiset().count(s[i]) > 0);
    }
}


proof fn lemma_max_usage_bounds(counts: Seq<(String, u32)>)
    ensures
        forall|i: int| 0 <= i < counts.len() ==> (#[trigger] counts[i]).1 <= max_usage(counts),
    decreases counts.len(),
{
    if counts.len() > 0 {
        lemma_max_usage_bounds(counts.drop_last());
        assert forall|i: int| 0 <= i < counts.len() implies (#[trigger] counts[i]).1 <= max_usage(
            counts,
        ) by {
            if i < counts.len() - 1 {
                assert(counts[i] == counts.drop_last()[i]);
            }
        }
    }
}

proof fn lemma_count_for_is_recorded(id: Seq<char>, counts: Seq<(String, u32)>)
    ensures
        count_for(id, counts) == 0 || exists|i: int| 0 <= i < counts.len() && count_for(id, counts)
            == (#[trigger] counts[i]).1,
    decreases counts.len(),
{
    if counts.len() > 0 && counts[0].0@ != id {
        lemma_count_for_is_recorded(id, counts.drop_first());
        if count_for(id, counts) != 0 {
            let i = choose|i: int| 0 <= i < counts.drop_first().len() && count_for(id, counts.drop_first())
                == (#[trigger] counts.drop_first()[i]).1;
            assert(counts[i + 1] == counts.drop_first()[i]);
        }
    }
}

proof fn lemma_count_within_scale(id: Seq<char>, counts: Seq<(String, u32)>)
    ensures
        count_for(id, counts) <= count_scale(counts),
        count_scale(counts) >= 1,
{
    lemma_max_usage_bounds(counts);
    lemma_count_for_is_recorded(id, counts);
}

proof fn lemma_raw_within_scale(m: Seq<(AppEntryView, u32)>)
    ensures
        forall|i: int| 0 <= i < m.len() ==> (#[trigger] m[i]).1 <= raw_scale(m),
        raw_scale(m) >= 1,
    decreases m.len(),
{
    if m.len() > 0 {
        lemma_raw_within_scale(m.drop_last());
        assert forall|i: int| 0 <= i < m.len() implies (#[trigger] m[i]).1 <= raw_scale(m) by {
            if i < m.len() - 1 {
                assert(m[i] == m.drop_last()[i]);
            }
        }
    }
}

proof fn lemma_unsorted_scores(query: Seq<char>, entries: Seq<AppEntryView>, counts: Seq<(String, u32)>)
    ensures
        forall|i: int|
            0 <= i < unsorted_results(query, entries, counts).len() ==> {
                let r = #[trigger] unsorted_results(query, entries, counts)[i];
                &&& 0 < r.score_den
                &&& r.score_num <= r.score_den
                &&& r.launch_count == count_for(r.entry.id, counts)
            },
{
    let u = unsorted_results(query, entries, counts);
    let cs = count_scale(counts);
    assert(cs >= 1) by {
        lemma_count_within_scale(seq![], counts);
    }
    if query.len() == 0 {
        assert forall|i: int| 0 <= i < u.len() implies {
            let r = #[trigger] u[i];
            &&& 0 < r.score_den
            &&& r.score_num <= r.score_den
            &&& r.launch_count == count_for(r.entry.id, counts)
        } by {
            lemma_count_within_scale(entries[i].id, counts);
        }
    } else {
        let m = matched(query, entries);
        let rs = raw_scale(m);
        lemma_raw_within_scale(m);
        assert forall|i: int| 0 <= i < u.len() implies {
            let r = #[trigger] u[i];
            &&& 0 < r.score_den
            &&& r.score_num <= r.score_den
            &&& r.launch_count == count_for(r.entry.id, counts)
        } by {
            let raw = m[i].1;
            let c = count_for(m[i].0.id, counts);
            lemma_count_within_scale(m[i].0.id, counts);
            assert(raw <= rs);
            assert(7 * raw * cs + 3 * c * rs <= 10 * rs * cs) by (nonlinear_arith)
                requires raw <= rs, c <= cs, 0 <= raw, 0 <= c;
            assert(10 * rs * cs > 0) by (nonlinear_arith) requires rs >= 1, cs >= 1;
            assert(10 * rs * cs <= 10 * 0xffff_ffff * 0xffff_ffff) by (nonlinear_arith)
                requires rs <= 0xffff_ffff, cs <= 0xffff_ffff, rs >= 1, cs >= 1;
            assert(7 * raw * cs + 3 * c * rs >= 0) by (nonlinear_arith)
                requires raw >= 0, c >= 0, rs >= 0, cs >= 0;
        }
    }
}

/// Every ranked result scores within `[0, 1]` (its numerator is at most its positive
/// denominator) and carries its entry's recorded launch count.
pub proof fn lemma_ranking_scores(
    query: Seq<char>,
    entries: Seq<AppEntryView>,
    counts: Seq<(String, u32)>,
    limit: nat,
)
    ensures
        forall|i: int|
            0 <= i < ranking(query, entries, counts, limit).len() ==> {
                let r = #[trigger] ranking(query, entries, counts, limit)[i];
                &&& 0 < r.score_den
                &&& r.score_num <= r.score_den
                &&& r.launch_count == count_for(r.entry.id, counts)
            },
{
    lemma_ranking_sorted_and_bounded(query, entries, counts, limit);
    lemma_unsorted_scores(query, entries, counts);
    let u = unsorted_results(query, entries, counts);
    let rk = ranking(query, entries, counts, limit);
    assert forall|i: int| 0 <= i < rk.len() implies {
        let r = #[trigger] rk[i];
        &&& 0 < r.score_den
        &&& r.score_num <= r.score_den
        &&& r.launch_count == count_for(r.entry.id, counts)
    } by {
        assert(u.contains(rk[i]));
        let j = choose|j: int| 0 <= j < u.len() && u[j] == rk[i];
        assert(u[j] == rk[i]);
    }
}


/// Whether the results name pairwise different entries (by id).
pub open spec fn distinct_result_ids(s: Seq<SearchResultView>) -> bool {
    forall|a: int, b: int| 0 <= a < b < s.len() ==> (#[trigger] s[a]).entry.id != (#[trigger] s[b]).entry.id
}

/// Whether the entries have pairwise different ids.
pub open spec fn distinct_entry_ids(e: Seq<AppEntryView>) -> bool {
    forall|a: int, b: int| 0 <= a < b < e.len() ==> (#[trigger] e[a]).id != (#[trigger] e[b]).id
}

proof fn lemma_insert_distinct(s: Seq<SearchResultView>, x: SearchResultView)
    requires
        distinct_result_ids(s),
        forall|k: int| 0 <= k < s.len() ==> (#[trigger] s[k]).entry.id != x.entry.id,
    ensures
        distinct_result_ids(insert_desc(s, x)),
        forall|k: int|
            0 <= k < insert_desc(s, x).len() ==> #[trigger] insert_desc(s, x)[k] == x || s.contains(
                insert_desc(s, x)[k],
            ),
    decreases s.len(),
{
    if s.len() > 0 && s[0].score_num >= x.score_num {
        let t = s.drop_first();
        assert forall|a: int, b: int| 0 <= a < b < t.len() implies (#[trigger] t[a]).entry.id
            != (#[trigger] t[b]).entry.id by {
            assert(t[a] == s[a + 1] && t[b] == s[b + 1]);
        }
        assert forall|k: int| 0 <= k < t.len() implies (#[trigger] t[k]).entry.id != x.entry.id by {
            assert(t[k] == s[k + 1]);
        }
        lemma_insert_distinct(t, x);
        let rt = insert_desc(t, x);
        let r = insert_desc(s, x);
        assert(r == seq![s[0]] + rt);
        assert forall|k: int| 0 <= k < r.len() implies #[trigger] r[k] == x || s.contains(r[k]) by {
            if k > 0 {
                assert(r[k] == rt[k - 1]);
                if rt[k - 1] != x {
                    let j = choose|j: int| 0 <= j < t.len() && t[j] == rt[k - 1];
                    assert(s[j + 1] == t[j]);
                }
            } else {
                assert(s[0] == r[0]);
            }
        }
        assert forall|a: int, b: int| 0 <= a < b < r.len() implies (#[trigger] r[a]).entry.id
            != (#[trigger] r[b]).entry.id by {
            assert(r[b] == rt[b - 1]);
            if a > 0 {
                assert(r[a] == rt[a - 1]);
            } else {
                if rt[b - 1] != x {
                    let j = choose|j: int| 0 <= j < t.len() && t[j] == rt[b - 1];
                    assert(s[j + 1] == t[j]);
                }
            }
        }
    } else if s.len() > 0 {
        let r = seq![x] + s;
        assert(insert_desc(s, x) == r);
        assert forall|k: int| 0 <= k < r.len() implies #[trigger] r[k] == x || s.contains(r[k]) by {
            if k > 0 {
                assert(r[k] == s[k - 1]);
            }
        }
        assert forall|a: int, b: int| 0 <= a < b < r.len() implies (#[trigger] r[a]).entry.id
            != (#[trigger] r[b]).entry.id by {
            assert(r[b] == s[b - 1]);
            if a > 0 {
                assert(r[a] == s[a - 1]);
            }
        }
    } else {
        assert(insert_desc(s, x) == seq![x]);
    }
}

proof fn lemma_sort_distinct(s: Seq<SearchResultView>)
    requires
        distinct_result_ids(s),
    ensures
        distinct_result_ids(sort_desc(s)),
        forall|k: int| 0 <= k < sort_desc(s).len() ==> s.contains(#[trigger] sort_desc(s)[k]),
    decreases s.len(),
{
    if s.len() > 0 {
        let p = s.drop_last();
        assert forall|a: int, b: int| 0 <= a < b < p.len() implies (#[trigger] p[a]).entry.id
            != (#[trigger] p[b]).entry.id by {
            assert(p[a] == s[a] && p[b] == s[b]);
        }
        lemma_sort_distinct(p);
        let sp = sort_desc(p);
        assert forall|k: int| 0 <= k < sp.len() implies (#[trigger] sp[k]).entry.id != s.last().entry.id by {
            assert(p.contains(sp[k]));
            let j = choose|j: int| 0 <= j < p.len() && p[j] == sp[k];
            assert(s[j] == p[j]);
            assert(s.last() == s[s.len() - 1]);
        }
        lemma_insert_distinct(sp, s.last());
        let r = sort_desc(s);
        assert forall|k: int| 0 <= k < r.len() implies s.contains(#[trigger] r[k]) by {
            if r[k] == s.last() {
                assert(s[s.len() - 1] == s.last());
            } else {
                assert(sp.contains(r[k]));
                let j = choose|j: int| 0 <= j < sp.len() && sp[j] == r[k];
                assert(p.contains(sp[j]));
                let i = choose|i: int| 0 <= i < p.len() && p[i] == sp[j];
                assert(s[i] == p[i]);
            }
        }
    }
}

proof fn lemma_matched_distinct(query: Seq<char>, entries: Seq<AppEntryView>)
    requires
        distinct_entry_ids(entries),
    ensures
        forall|a: int, b: int|
            0 <= a < b < matched(query, entries).len() ==> (#[trigger] matched(query, entries)[a]).0.id
                != (#[trigger] matched(query, entries)[b]).0.id,
        forall|k: int|
            0 <= k < matched(query, entries).len() ==> entries.contains(
                (#[trigger] matched(query, entries)[k]).0,
            ),
    decreases entries.len(),
{
    if entries.len() > 0 {
        let p = entries.drop_last();
        assert forall|a: int, b: int| 0 <= a < b < p.len() implies (#[trigger] p[a]).id != (
        #[trigger] p[b]).id by {
            assert(p[a] == entries[a] && p[b] == entries[b]);
        }
        lemma_matched_distinct(query, p);
        let prev = matched(query, p);
        let m = matched(query, entries);
        assert forall|k: int| 0 <= k < prev.len() implies entries.contains((#[trigger] prev[k]).0)
            && prev[k].0.id != entries.last().id by {
            assert(p.contains(prev[k].0));
            let j = choose|j: int| 0 <= j < p.len() && p[j] == prev[k].0;
            assert(entries[j] == p[j]);
            assert(entries.last() == entries[entries.len() - 1]);
        }
        if m != prev {
            assert forall|k: int| 0 <= k < m.len() implies entries.contains((#[trigger] m[k]).0) by {
                if k < prev.len() {
                    assert(m[k] == prev[k]);
                } else {
                    assert(entries[entries.len() - 1] == m[k].0);
                }
            }
            assert forall|a: int, b: int| 0 <= a < b < m.len() implies (#[trigger] m[a]).0.id != (
            #[trigger] m[b]).0.id by {
                assert(m[a] == prev[a]);
                if b < prev.len() {
                    assert(m[b] == prev[b]);
                }
            }
        }
    }
}

/// Entries with pairwise different ids are ranked at most once each: the ranked results
/// name pairwise different entries.
pub proof fn lemma_ranking_distinct(
    query: Seq<char>,
    entries: Seq<AppEntryView>,
    counts: Seq<(String, u32)>,
    limit: nat,
)
    requires
        distinct_entry_ids(entries),
    ensures
        distinct_result_ids(ranking(query, entries, counts, limit)),
{
    let u = unsorted_results(query, entries, counts);
    if query.len() == 0 {
        assert forall|a: int, b: int| 0 <= a < b < u.len() implies (#[trigger] u[a]).entry.id != (
        #[trigger] u[b]).entry.id by {
            assert(u[a].entry == entries[a] && u[b].entry == entries[b]);
        }
    } else {
        lemma_matched_distinct(query, entries);
        let m = matched(query, entries);
        assert forall|a: int, b: int| 0 <= a < b < u.len() implies (#[trigger] u[a]).entry.id != (
        #[trigger] u[b]).entry.id by {
            assert(u[a].entry == m[a].0 && u[b].entry == m[b].0);
        }
    }
    lemma_sort_distinct(u);
    let s = sort_desc(u);
    let r = ranking(query, entries, counts, limit);
    assert forall|a: int, b: int| 0 <= a < b < r.len() implies (#[trigger] r[a]).entry.id != (
    #[trigger] r[b]).entry.id by {
        assert(r[a] == s[a] && r[b] == s[b]);
    }
}

} // verus!
