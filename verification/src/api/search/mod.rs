use vstd::prelude::*;
use vstd::string::*;

use crate::cloudflare::models::text_generation::TextGenerationJsonResult;
use crate::text::{cat, contains_text, join, join_spec, split_spec, split_text, texts};

pub mod calls;
pub mod observation;
pub mod request;
pub mod response;

verus! {

/// One point found by a vector search: whether its score reaches the
/// relevance threshold, and the `document` and `page_id` of its payload when
/// they are strings.
pub struct SearchHit {
    pub relevant: bool,
    pub document: Option<String>,
    pub page_id: Option<String>,
}

/// Whether a hit gives a context: it is relevant and has a document.
pub open spec fn gives_context(h: SearchHit) -> bool {
    h.relevant && h.document is Some
}

/// The documents of the hits that give a context, in order.
pub open spec fn hit_contexts(hits: Seq<SearchHit>) -> Seq<Seq<char>>
    decreases hits.len(),
{
    if hits.len() == 0 {
        Seq::empty()
    } else {
        let rest = hit_contexts(hits.drop_last());
        let h = hits.last();
        if gives_context(h) {
            rest.push(h.document->0@)
        } else {
            rest
        }
    }
}

/// The page ids of the hits that give a context and have a page id, in order.
pub open spec fn hit_page_ids(hits: Seq<SearchHit>) -> Seq<Seq<char>>
    decreases hits.len(),
{
    if hits.len() == 0 {
        Seq::empty()
    } else {
        let rest = hit_page_ids(hits.drop_last());
        let h = hits.last();
        if gives_context(h) && h.page_id is Some {
            rest.push(h.page_id->0@)
        } else {
            rest
        }
    }
}

/// A hit never yields a page id without its context, so there are never more
/// page ids than contexts.
pub proof fn page_ids_never_outnumber_contexts(hits: Seq<SearchHit>)
    ensures
        hit_page_ids(hits).len() <= hit_contexts(hits).len(),
    decreases hits.len(),
{
    if hits.len() > 0 {
        page_ids_never_outnumber_contexts(hits.drop_last());
    }
}

/// The contexts and page ids that the hits of a search give: the document of
/// every relevant hit that has one, and the page id of those that have one.
pub fn collect_hits(hits: &Vec<SearchHit>) -> (r: (Vec<String>, Vec<String>))
    ensures
        texts(r.0@) == hit_contexts(hits@),
        texts(r.1@) == hit_page_ids(hits@),
        r.1@.len() <= r.0@.len(),
{
    let mut contexts: Vec<String> = Vec::new();
    let mut page_ids: Vec<String> = Vec::new();
    for i in 0..hits.len()
        invariant
            texts(contexts@) == hit_contexts(hits@.take(i as int)),
            texts(page_ids@) == hit_page_ids(hits@.take(i as int)),
    {
        assert(hits@.take(i + 1).drop_last() =~= hits@.take(i as int));
        assert(hits@.take(i + 1).last() == hits@[i as int]);
        let h = &hits[i];
        if h.relevant {
            match &h.document {
                Some(doc) => {
                    let ghost before = texts(contexts@);
                    contexts.push(doc.clone());
                    assert(texts(contexts@) =~= before.push(doc@));
                    match &h.page_id {
                        Some(id) => {
                            let ghost before_ids = texts(page_ids@);
                            page_ids.push(id.clone());
                            assert(texts(page_ids@) =~= before_ids.push(id@));
                        },
                        None => {},
                    }
                },
                None => {},
            }
        }
    }
    assert(hits@.take(hits.len() as int) =~= hits@);
    proof {
        page_ids_never_outnumber_contexts(hits@);
    }
    (contexts, page_ids)
}

/// The keywords of a comma-separated list, empty ones kept.
pub fn split_keywords(keywords: &str) -> (r: Vec<String>)
    ensures
        texts(r@) == split_spec(keywords@, seq![',']),
{
    proof {
        reveal_strlit(",");
        assert(","@ =~= seq![',']);
    }
    split_text(keywords, ",")
}

/// The positions of `ids`, below `n`, whose id did not come earlier.
pub open spec fn first_positions(ids: Seq<Seq<char>>, n: nat) -> Seq<int>
    decreases n,
{
    if n == 0 {
        Seq::empty()
    } else {
        let rest = first_positions(ids, (n - 1) as nat);
        if ids.take(n - 1).contains(ids[n - 1]) {
            rest
        } else {
            rest.push(n - 1)
        }
    }
}

/// The heading of the vector-search section of a keyword.
pub open spec fn section_heading(keyword: Seq<char>) -> Seq<char> {
    "## Vector search result with "@ + keyword + "\n"@
}

/// The vector-search section of a keyword: `Not found` when the search gave
/// no context; otherwise one numbered line for the context of each page id
/// seen for the first time.
pub open spec fn section_spec(keyword: Seq<char>, contexts: Seq<Seq<char>>, ids: Seq<Seq<char>>) -> Seq<
    char,
> {
    if contexts.len() == 0 {
        section_heading(keyword) + "Not found"@
    } else {
        section_heading(keyword) + join_spec(
            first_positions(ids, ids.len()).map_values(|i: int| "1. "@ + contexts[i]),
            "\n"@,
        )
    }
}

/// The page ids that the section of a keyword cites: none when the search
/// gave no context; otherwise each page id once, in the order first seen.
pub open spec fn section_ids(contexts: Seq<Seq<char>>, ids: Seq<Seq<char>>) -> Seq<Seq<char>> {
    if contexts.len() == 0 {
        Seq::empty()
    } else {
        first_positions(ids, ids.len()).map_values(|i: int| ids[i])
    }
}

proof fn lemma_first_positions(ids: Seq<Seq<char>>, n: nat)
    requires
        n <= ids.len(),
    ensures
        forall|k: int| 0 <= k < first_positions(ids, n).len() ==> 0 <= #[trigger] first_positions(ids, n)[k] < n,
        forall|k: int, l: int| 0 <= k < l < first_positions(ids, n).len() ==> first_positions(ids, n)[k] < first_positions(ids, n)[l],
        forall|x: Seq<char>| ids.take(n as int).contains(x) <==> exists|k: int| 0 <= k < first_positions(ids, n).len() && #[trigger] ids[first_positions(ids, n)[k]] == x,
    decreases n,
{
    if n > 0 {
        lemma_first_positions(ids, (n - 1) as nat);
        let rest = first_positions(ids, (n - 1) as nat);
        let t = ids.take(n - 1);
        assert(ids.take(n as int) =~= t.push(ids[n - 1]));
        assert forall|x: Seq<char>| ids.take(n as int).contains(x) implies exists|k: int| 0 <= k < first_positions(ids, n).len() && #[trigger] ids[first_positions(ids, n)[k]] == x by {
            let j = choose|j: int| 0 <= j < n && ids.take(n as int)[j] == x;
            if j < n - 1 {
                assert(t.contains(x));
                let k = choose|k: int| 0 <= k < rest.len() && #[trigger] ids[rest[k]] == x;
                assert(first_positions(ids, n)[k] == rest[k]);
            } else if t.contains(ids[n - 1]) {
                let k = choose|k: int| 0 <= k < rest.len() && #[trigger] ids[rest[k]] == ids[n - 1];
                assert(first_positions(ids, n)[k] == rest[k]);
            } else {
                assert(first_positions(ids, n)[rest.len() as int] == n - 1);
            }
        }
        assert forall|x: Seq<char>| (exists|k: int| 0 <= k < first_positions(ids, n).len() && #[trigger] ids[first_positions(ids, n)[k]] == x) implies ids.take(n as int).contains(x) by {
            let k = choose|k: int| 0 <= k < first_positions(ids, n).len() && #[trigger] ids[first_positions(ids, n)[k]] == x;
            let i = first_positions(ids, n)[k];
            assert(ids.take(n as int)[i] == x);
        }
    }
}

/// The section ids hold no page id twice.
pub proof fn section_ids_are_distinct(contexts: Seq<Seq<char>>, ids: Seq<Seq<char>>)
    ensures
        section_ids(contexts, ids).no_duplicates(),
{
    if contexts.len() > 0 {
        lemma_distinct_first(ids, ids.len());
    }
}

proof fn lemma_distinct_first(ids: Seq<Seq<char>>, n: nat)
    requires
        n <= ids.len(),
    ensures
        first_positions(ids, n).map_values(|i: int| ids[i]).no_duplicates(),
    decreases n,
{
    if n > 0 {
        lemma_distinct_first(ids, (n - 1) as nat);
        lemma_first_positions(ids, (n - 1) as nat);
        let rest = first_positions(ids, (n - 1) as nat);
        let t = ids.take(n - 1);
        if !t.contains(ids[n - 1]) {
            let m = first_positions(ids, n).map_values(|i: int| ids[i]);
            let mr = rest.map_values(|i: int| ids[i]);
            assert(m =~= mr.push(ids[n - 1]));
            assert forall|a: int, b: int| 0 <= a < m.len() && 0 <= b < m.len() && a != b implies m[a] != m[b] by {
                if a < mr.len() && b < mr.len() {
                } else if a == mr.len() {
                    if m[a] == m[b] {
                        assert(mr[b] == ids[rest[b]]);
                        assert(0 <= rest[b] < n - 1);
                        assert(t[rest[b]] == ids[n - 1]);
                    }
                } else {
                    if m[a] == m[b] {
                        assert(mr[a] == ids[rest[a]]);
                        assert(0 <= rest[a] < n - 1);
                        assert(t[rest[a]] == ids[n - 1]);
                    }
                }
            }
        } else {
            assert(first_positions(ids, n) == rest);
        }
    }
}

/// The vector-search section of a keyword, and the page ids it cites: the
/// heading, then `Not found` when the search gave no context, else one line
/// `1. <context>` for each page id seen for the first time, paired with that
/// page id. There are never more page ids than contexts.
pub fn vector_search_section(keyword: &str, contexts: &Vec<String>, page_ids: &Vec<String>) -> (r: (
    String,
    Vec<String>,
))
    requires
        page_ids@.len() <= contexts@.len(),
    ensures
        r.0@ == section_spec(keyword@, texts(contexts@), texts(page_ids@)),
        texts(r.1@) == section_ids(texts(contexts@), texts(page_ids@)),
{
    let ghost cs = texts(contexts@);
    let ghost ids = texts(page_ids@);
    let heading = cat(cat("## Vector search result with ", keyword).as_str(), "\n");
    assert(heading@ =~= section_heading(keyword@));
    if contexts.len() == 0 {
        let mut s = heading;
        s.append("Not found");
        return (s, Vec::new());
    }
    let mut lines: Vec<String> = Vec::new();
    let mut kept: Vec<String> = Vec::new();
    for i in 0..page_ids.len()
        invariant
            cs == texts(contexts@),
            ids == texts(page_ids@),
            page_ids@.len() <= contexts@.len(),
            texts(lines@) == first_positions(ids, i as nat).map_values(|k: int| "1. "@ + cs[k]),
            texts(kept@) == first_positions(ids, i as nat).map_values(|k: int| ids[k]),
            forall|x: Seq<char>| texts(kept@).contains(x) <==> ids.take(i as int).contains(x),
    {
        proof {
            lemma_first_positions(ids, i as nat);
        }
        assert(ids[i as int] == page_ids@[i as int]@);
        assert(cs[i as int] == contexts@[i as int]@);
        let seen = contains_text(&kept, page_ids[i].as_str());
        let ghost before_lines = texts(lines@);
        let ghost before_kept = texts(kept@);
        let ghost t0 = ids.take(i as int);
        let ghost t1 = ids.take(i + 1);
        assert(t1 =~= t0.push(ids[i as int]));
        if !seen {
            lines.push(cat("1. ", contexts[i].as_str()));
            kept.push(page_ids[i].clone());
            assert(texts(lines@) =~= before_lines.push("1. "@ + cs[i as int]));
            assert(texts(kept@) =~= before_kept.push(ids[i as int]));
            assert(first_positions(ids, (i + 1) as nat) == first_positions(ids, i as nat).push(i as int));
            assert(texts(lines@) =~= first_positions(ids, (i + 1) as nat).map_values(|k: int| "1. "@ + cs[k]));
            assert(texts(kept@) =~= first_positions(ids, (i + 1) as nat).map_values(|k: int| ids[k]));
            let ghost now = texts(kept@);
            assert forall|x: Seq<char>| now.contains(x) <==> t1.contains(x) by {
                if now.contains(x) && x != ids[i as int] {
                    let j = choose|j: int| 0 <= j < now.len() && now[j] == x;
                    assert(before_kept[j] == x);
                    assert(before_kept.contains(x));
                    assert(t0.contains(x));
                    let m = choose|m: int| 0 <= m < t0.len() && t0[m] == x;
                    assert(t1[m] == x);
                }
                if t1.contains(x) && x != ids[i as int] {
                    let j = choose|j: int| 0 <= j < t1.len() && t1[j] == x;
                    assert(t0[j] == x);
                    assert(before_kept.contains(x));
                    let m = choose|m: int| 0 <= m < before_kept.len() && before_kept[m] == x;
                    assert(now[m] == x);
                }
                if x == ids[i as int] {
                    assert(now[before_kept.len() as int] == x);
                    assert(t1[i as int] == x);
                }
            }
        } else {
            assert(first_positions(ids, (i + 1) as nat) == first_positions(ids, i as nat));
            assert(t0.contains(ids[i as int]));
            assert forall|x: Seq<char>| texts(kept@).contains(x) <==> t1.contains(x) by {
                if t1.contains(x) {
                    let j = choose|j: int| 0 <= j < t1.len() && t1[j] == x;
                    if j < i {
                        assert(t0[j] == x);
                    }
                }
                if t0.contains(x) {
                    let j = choose|j: int| 0 <= j < t0.len() && t0[j] == x;
                    assert(t1[j] == x);
                }
            }
        }
    }
    let body = join(&lines, "\n");
    let mut s = heading;
    s.append(body.as_str());
    (s, kept)
}

/// What searching one keyword gave: its contexts and page ids, or nothing
/// when the keyword was not searched or the search failed.
pub open spec fn outcome_view(o: Option<(Vec<String>, Vec<String>)>) -> Option<(Seq<Seq<char>>, Seq<Seq<char>>)> {
    match o {
        Some(r) => Some((texts(r.0@), texts(r.1@))),
        None => None,
    }
}

/// Whether a keyword's outcome has no more page ids than contexts.
pub open spec fn outcome_ok(o: Option<(Vec<String>, Vec<String>)>) -> bool {
    match o {
        Some(r) => r.1@.len() <= r.0@.len(),
        None => true,
    }
}

/// Whether a keyword gets a section: it is not empty and its search gave
/// something.
pub open spec fn has_section(keyword: Seq<char>, o: Option<(Seq<Seq<char>>, Seq<Seq<char>>)>) -> bool {
    keyword.len() > 0 && o is Some
}

/// The sections of the keywords that get one, in order.
pub open spec fn vector_sections(
    keywords: Seq<Seq<char>>,
    outcomes: Seq<Option<(Seq<Seq<char>>, Seq<Seq<char>>)>>,
) -> Seq<Seq<char>>
    decreases keywords.len(),
{
    if keywords.len() == 0 || outcomes.len() != keywords.len() {
        Seq::empty()
    } else {
        let rest = vector_sections(keywords.drop_last(), outcomes.drop_last());
        let k = keywords.last();
        let o = outcomes.last();
        if has_section(k, o) {
            rest.push(section_spec(k, (o->0).0, (o->0).1))
        } else {
            rest
        }
    }
}

/// The page ids that the sections cite, section after section.
pub open spec fn vector_page_ids(
    keywords: Seq<Seq<char>>,
    outcomes: Seq<Option<(Seq<Seq<char>>, Seq<Seq<char>>)>>,
) -> Seq<Seq<char>>
    decreases keywords.len(),
{
    if keywords.len() == 0 || outcomes.len() != keywords.len() {
        Seq::empty()
    } else {
        let rest = vector_page_ids(keywords.drop_last(), outcomes.drop_last());
        let k = keywords.last();
        let o = outcomes.last();
        if has_section(k, o) {
            rest + section_ids((o->0).0, (o->0).1)
        } else {
            rest
        }
    }
}

/// The sections and page ids of keywords laid end to end are those of each
/// part, in order: every keyword's section and every page id it cites is
/// kept, whatever came before.
pub proof fn vector_results_of_concatenation(
    k1: Seq<Seq<char>>,
    o1: Seq<Option<(Seq<Seq<char>>, Seq<Seq<char>>)>>,
    k2: Seq<Seq<char>>,
    o2: Seq<Option<(Seq<Seq<char>>, Seq<Seq<char>>)>>,
)
    requires
        k1.len() == o1.len(),
        k2.len() == o2.len(),
    ensures
        vector_sections(k1 + k2, o1 + o2) == vector_sections(k1, o1) + vector_sections(k2, o2),
        vector_page_ids(k1 + k2, o1 + o2) == vector_page_ids(k1, o1) + vector_page_ids(k2, o2),
    decreases k2.len(),
{
    if k2.len() == 0 {
        assert(k1 + k2 =~= k1);
        assert(o1 + o2 =~= o1);
        assert(vector_sections(k1, o1) + vector_sections(k2, o2) =~= vector_sections(k1, o1));
        assert(vector_page_ids(k1, o1) + vector_page_ids(k2, o2) =~= vector_page_ids(k1, o1));
    } else {
        assert((k1 + k2).drop_last() =~= k1 + k2.drop_last());
        assert((o1 + o2).drop_last() =~= o1 + o2.drop_last());
        assert((k1 + k2).last() == k2.last());
        assert((o1 + o2).last() == o2.last());
        vector_results_of_concatenation(k1, o1, k2.drop_last(), o2.drop_last());
        let k = k2.last();
        let o = o2.last();
        if has_section(k, o) {
            let sec = section_spec(k, (o->0).0, (o->0).1);
            let ids = section_ids((o->0).0, (o->0).1);
            assert(vector_sections(k1, o1) + vector_sections(k2.drop_last(), o2.drop_last()).push(sec)
                =~= (vector_sections(k1, o1) + vector_sections(k2.drop_last(), o2.drop_last())).push(sec));
            assert(vector_page_ids(k1, o1) + (vector_page_ids(k2.drop_last(), o2.drop_last()) + ids)
                =~= (vector_page_ids(k1, o1) + vector_page_ids(k2.drop_last(), o2.drop_last())) + ids);
        }
    }
}

/// One keyword gives its section and the page ids it cites when it is not
/// empty and its search gave something, and nothing otherwise.
pub proof fn vector_results_of_one(k: Seq<char>, o: Option<(Seq<Seq<char>>, Seq<Seq<char>>)>)
    ensures
        vector_sections(seq![k], seq![o]) == if has_section(k, o) {
            seq![section_spec(k, (o->0).0, (o->0).1)]
        } else {
            Seq::<Seq<char>>::empty()
        },
        vector_page_ids(seq![k], seq![o]) == if has_section(k, o) {
            section_ids((o->0).0, (o->0).1)
        } else {
            Seq::<Seq<char>>::empty()
        },
{
    let e: Seq<Seq<char>> = Seq::empty();
    let eo: Seq<Option<(Seq<Seq<char>>, Seq<Seq<char>>)>> = Seq::empty();
    assert(seq![k].drop_last() =~= e);
    assert(seq![o].drop_last() =~= eo);
    assert(seq![k].last() == k);
    assert(seq![o].last() == o);
    assert(vector_sections(e, eo) == e);
    assert(vector_page_ids(e, eo) == e);
    assert(e.push(section_spec(k, (o->0).0, (o->0).1)) =~= seq![section_spec(k, (o->0).0, (o->0).1)]);
    assert(e + section_ids((o->0).0, (o->0).1) =~= section_ids((o->0).0, (o->0).1));
}

/// The result of a vector search over keywords: a section for each keyword
/// that is not empty and whose search gave something (`outcomes[i]` is what
/// the search of `keywords[i]` gave), and the page ids that the sections
/// cite, in order.
pub fn vector_search_result(keywords: &Vec<String>, outcomes: &Vec<Option<(Vec<String>, Vec<String>)>>) -> (r: (
    Vec<String>,
    Vec<String>,
))
    requires
        keywords@.len() == outcomes@.len(),
        forall|i: int| 0 <= i < outcomes@.len() ==> outcome_ok(#[trigger] outcomes@[i]),
    ensures
        texts(r.0@) == vector_sections(texts(keywords@), outcomes@.map_values(|o: Option<(Vec<String>, Vec<String>)>| outcome_view(o))),
        texts(r.1@) == vector_page_ids(texts(keywords@), outcomes@.map_values(|o: Option<(Vec<String>, Vec<String>)>| outcome_view(o))),
{
    let ghost ks = texts(keywords@);
    let ghost os = outcomes@.map_values(|o: Option<(Vec<String>, Vec<String>)>| outcome_view(o));
    let mut sections: Vec<String> = Vec::new();
    let mut ids: Vec<String> = Vec::new();
    for i in 0..keywords.len()
        invariant
            keywords@.len() == outcomes@.len(),
            forall|j: int| 0 <= j < outcomes@.len() ==> outcome_ok(#[trigger] outcomes@[j]),
            ks == texts(keywords@),
            os == outcomes@.map_values(|o: Option<(Vec<String>, Vec<String>)>| outcome_view(o)),
            texts(sections@) == vector_sections(ks.take(i as int), os.take(i as int)),
            texts(ids@) == vector_page_ids(ks.take(i as int), os.take(i as int)),
    {
        assert(ks.take(i + 1).drop_last() =~= ks.take(i as int));
        assert(os.take(i + 1).drop_last() =~= os.take(i as int));
        assert(ks.take(i + 1).last() == keywords@[i as int]@);
        assert(os.take(i + 1).last() == outcome_view(outcomes@[i as int]));
        assert(outcome_ok(outcomes@[i as int]));
        if keywords[i].as_str().is_empty() {
        } else {
            match &outcomes[i] {
                None => {},
                Some(found) => {
                    let (section, cited) = vector_search_section(keywords[i].as_str(), &found.0, &found.1);
                    let ghost before_sections = texts(sections@);
                    let ghost before_ids = texts(ids@);
                    sections.push(section);
                    assert(texts(sections@) =~= before_sections.push(
                        section_spec(ks[i as int], texts(found.0@), texts(found.1@)),
                    ));
                    let mut k: usize = 0;
                    while k < cited.len()
                        invariant
                            k <= cited@.len(),
                            texts(ids@) == before_ids + texts(cited@).take(k as int),
                        decreases cited.len() - k,
                    {
                        let ghost prev = texts(ids@);
                        ids.push(cited[k].clone());
                        assert(texts(ids@) =~= prev.push(cited@[k as int]@));
                        assert(texts(cited@).take(k + 1) =~= texts(cited@).take(k as int).push(cited@[k as int]@));
                        assert(texts(ids@) =~= before_ids + texts(cited@).take(k + 1));
                        k = k + 1;
                    }
                    assert(texts(cited@).take(cited@.len() as int) =~= texts(cited@));
                },
            }
        }
    }
    assert(ks.take(keywords.len() as int) =~= ks);
    assert(os.take(keywords.len() as int) =~= os);
    (sections, ids)
}

/// The texts that a batch of streamed results carries, in order.
pub open spec fn batch_texts(batch: Seq<TextGenerationJsonResult>) -> Seq<Seq<char>>
    decreases batch.len(),
{
    if batch.len() == 0 {
        Seq::empty()
    } else {
        let rest = batch_texts(batch.drop_last());
        match batch.last().response {
            Some(t) => rest.push(t@),
            None => rest,
        }
    }
}

/// The pieces of the answer that a batch of streamed results carries: the
/// text of each result that has one, in order.
pub fn answer_pieces(batch: &Vec<TextGenerationJsonResult>) -> (r: Vec<String>)
    ensures
        texts(r@) == batch_texts(batch@),
{
    let mut r: Vec<String> = Vec::new();
    for i in 0..batch.len()
        invariant
            texts(r@) == batch_texts(batch@.take(i as int)),
    {
        assert(batch@.take(i + 1).drop_last() =~= batch@.take(i as int));
        assert(batch@.take(i + 1).last() == batch@[i as int]);
        match &batch[i].response {
            Some(t) => {
                let ghost before = texts(r@);
                r.push(t.clone());
                assert(texts(r@) =~= before.push(t@));
            },
            None => {},
        }
    }
    assert(batch@.take(batch.len() as int) =~= batch@);
    r
}

} // verus!
