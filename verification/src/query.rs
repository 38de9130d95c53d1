//! Building the documents that are sent to the search engine.

use vstd::prelude::*;
use crate::json::Doc;
use crate::json::docs_of;
use crate::json::fields_of;
use crate::json::Json;
use crate::json::lemma_member_skip;
use crate::json::member;
use crate::json::push_field;
use crate::json::push_item;
use crate::models::NewsSearchParams;
use crate::models::SearchView;
use crate::text::text_eq;

verus! {

/// The page size used where a search names none.
pub const DEFAULT_PAGE_SIZE: u64 = 10;

/// The page asked for: the first where none is named or page zero is.
pub open spec fn page_number(p: SearchView) -> u64 {
    match p.page {
        Some(n) => if n >= 1 {
            n
        } else {
            1
        },
        None => 1,
    }
}

/// The page size asked for, held to `cap`.
pub open spec fn page_size(p: SearchView, cap: u64) -> u64 {
    let asked = match p.size {
        Some(n) => n,
        None => DEFAULT_PAGE_SIZE,
    };
    if asked <= cap {
        asked
    } else {
        cap
    }
}

/// How many results come before the page asked for.
pub open spec fn page_offset(p: SearchView, cap: u64) -> int {
    (page_number(p) - 1) * page_size(p, cap)
}

/// An object with the one member `key`.
pub open spec fn one(key: Seq<char>, value: Doc) -> Doc {
    Doc::Object(seq![(key, value)])
}

/// The scoring clause for a free-text query: best-fields match over the
/// title, weighted three times, and the content, with automatic fuzziness.
pub open spec fn text_clause(q: Seq<char>) -> Doc {
    one(
        "multi_match"@,
        Doc::Object(
            seq![
                ("query"@, Doc::Text(q)),
                ("fields"@, Doc::List(seq![Doc::Text("title^3"@), Doc::Text("content"@)])),
                ("type"@, Doc::Text("best_fields"@)),
                ("fuzziness"@, Doc::Text("AUTO"@)),
            ],
        ),
    )
}

/// The filter that holds `field` to exactly `value`.
pub open spec fn term_clause(field: Seq<char>, value: Seq<char>) -> Doc {
    one("term"@, one(field, Doc::Text(value)))
}

/// The term filter on `field`, where a value is asked for.
pub open spec fn opt_term(field: Seq<char>, value: Option<Seq<char>>) -> Seq<Doc> {
    match value {
        Some(v) => seq![term_clause(field, v)],
        None => Seq::empty(),
    }
}

/// One bound of a range, where it is asked for.
pub open spec fn opt_bound(op: Seq<char>, value: Option<Seq<char>>) -> Seq<(Seq<char>, Doc)> {
    match value {
        Some(v) => seq![(op, Doc::Text(v))],
        None => Seq::empty(),
    }
}

/// The bounds on the ingestion time.
pub open spec fn range_bounds(p: SearchView) -> Seq<(Seq<char>, Doc)> {
    opt_bound("gte"@, p.date_from) + opt_bound("lte"@, p.date_to)
}

/// The single range filter on the ingestion time, where either bound is
/// asked for.
pub open spec fn range_clause(p: SearchView) -> Seq<Doc> {
    if range_bounds(p).len() > 0 {
        seq![one("range"@, one("ingested_at"@, Doc::Object(range_bounds(p))))]
    } else {
        Seq::empty()
    }
}

/// Whether a text query is there: one was supplied and is not empty.
pub open spec fn has_text_query(p: SearchView) -> bool {
    p.q matches Some(q) && q.len() > 0
}

/// The scoring clauses: the text query, where one is there.
pub open spec fn must_clauses(p: SearchView) -> Seq<Doc> {
    if has_text_query(p) {
        seq![text_clause(p.q->Some_0)]
    } else {
        Seq::empty()
    }
}

/// The non-scoring clauses, one for each filter asked for.
pub open spec fn filter_clauses(p: SearchView) -> Seq<Doc> {
    opt_term("source"@, p.source) + opt_term("tags"@, p.tag) + opt_term(
        "annotate.sentiment.label.keyword"@,
        p.sentiment,
    ) + opt_term("annotate.emotion.label.keyword"@, p.emotion) + opt_term("author"@, p.author)
        + range_clause(p)
}

/// A member holding a list of clauses, unless there are none.
pub open spec fn opt_clauses(key: Seq<char>, clauses: Seq<Doc>) -> Seq<(Seq<char>, Doc)> {
    if clauses.len() > 0 {
        seq![(key, Doc::List(clauses))]
    } else {
        Seq::empty()
    }
}

/// What a search matches: everything where nothing is asked for, else the
/// text query as a scoring clause and the filters as non-scoring ones.
pub open spec fn query_clause(p: SearchView) -> Doc {
    if must_clauses(p).len() == 0 && filter_clauses(p).len() == 0 {
        one("match_all"@, Doc::Object(Seq::empty()))
    } else {
        one(
            "bool"@,
            Doc::Object(
                opt_clauses("must"@, must_clauses(p)) + opt_clauses("filter"@, filter_clauses(p)),
            ),
        )
    }
}

/// Ordering by ingestion time in the direction `order`.
pub open spec fn by_time(order: Seq<char>) -> Doc {
    Doc::List(seq![one("ingested_at"@, one("order"@, Doc::Text(order)))])
}

/// Ordering by score, best first.
pub open spec fn by_score() -> Doc {
    Doc::List(seq![Doc::Text("_score"@)])
}

/// Whether the search is ordered by score: `relevance` is asked for and a
/// text query is there. An empty text query counts as none.
pub open spec fn sorts_by_score(p: SearchView) -> bool {
    p.sort == Some("relevance"@) && has_text_query(p)
}

/// How results are ordered: oldest first where asked for, by score where
/// that is asked for together with a text query, newest first otherwise.
pub open spec fn sort_clause(p: SearchView) -> Doc {
    if p.sort == Some("oldest"@) {
        by_time("asc"@)
    } else if sorts_by_score(p) {
        by_score()
    } else {
        by_time("desc"@)
    }
}

/// The whole search request: what to match, in which order, which window of
/// the results, and that the true number of matches is to be reported.
pub open spec fn search_document(p: SearchView, cap: u64) -> Doc {
    Doc::Object(
        seq![
            ("query"@, query_clause(p)),
            ("sort"@, sort_clause(p)),
            ("from"@, Doc::Int(page_offset(p, cap))),
            ("size"@, Doc::Int(page_size(p, cap) as int)),
            ("track_total_hits"@, Doc::Bool(true)),
        ],
    )
}

/// Relevance is only honoured together with a text query: a search that
/// asks for it without one is ordered newest first, as one that asks for
/// nothing is, and never by score.
pub proof fn law_relevance_needs_query(p: SearchView)
    requires
        p.sort == Some("relevance"@),
        !has_text_query(p),
    ensures
        sort_clause(p) == by_time("desc"@),
        sort_clause(p) != by_score(),
{
    reveal_strlit("relevance");
    reveal_strlit("oldest");
    assert("relevance"@.len() != "oldest"@.len());
    assert(by_time("desc"@)->List_0[0] is Object);
    assert(by_score()->List_0[0] is Text);
}

/// A search is ordered by score only where that was asked for and a text
/// query came with it.
pub proof fn law_score_order_is_asked_for(p: SearchView)
    ensures
        sort_clause(p) == by_score() ==> p.sort == Some("relevance"@) && has_text_query(p),
        sort_clause(p) == by_score() ==> must_clauses(p) == seq![text_clause(p.q->Some_0)],
{
    assert(by_time("desc"@)->List_0[0] is Object);
    assert(by_time("asc"@)->List_0[0] is Object);
    assert(by_score()->List_0[0] is Text);
}

/// One for what is there, nothing for what is not.
pub open spec fn one_if(there: bool) -> nat {
    if there {
        1
    } else {
        0
    }
}

/// How many filters `p` asks for: one for each of source, tag, sentiment,
/// emotion and author that is named, and one for the dates if either of
/// them is.
pub open spec fn filters_asked(p: SearchView) -> nat {
    one_if(p.source is Some) + one_if(p.tag is Some) + one_if(p.sentiment is Some) + one_if(
        p.emotion is Some,
    ) + one_if(p.author is Some) + one_if(p.date_from is Some || p.date_to is Some)
}

/// There is one non-scoring clause for each filter asked for, the range
/// last, and one scoring clause for a text query that is not empty.
pub proof fn law_one_clause_each(p: SearchView)
    ensures
        filter_clauses(p).len() == filters_asked(p),
        must_clauses(p).len() == one_if(has_text_query(p)),
        range_clause(p).len() == 1 ==> filter_clauses(p).last() == range_clause(p)[0],
{
}

/// A search that asks for nothing matches everything. Any other is a
/// boolean query in which the text query, and nothing else, scores, and the
/// filters, and nothing else, only filter.
pub proof fn law_filters_do_not_score(p: SearchView)
    ensures
        (must_clauses(p).len() == 0 && filter_clauses(p).len() == 0) <==> query_clause(p) == one(
            "match_all"@,
            Doc::Object(Seq::empty()),
        ),
        query_clause(p).at("bool"@).get("must"@) == (if must_clauses(p).len() > 0 {
            Some(Doc::List(must_clauses(p)))
        } else {
            None
        }),
        query_clause(p).at("bool"@).get("filter"@) == (if filter_clauses(p).len() > 0 {
            Some(Doc::List(filter_clauses(p)))
        } else {
            None
        }),
{
    reveal_strlit("match_all");
    reveal_strlit("bool");
    reveal_strlit("must");
    reveal_strlit("filter");
    assert("match_all"@.len() != "bool"@.len());
    assert("must"@.len() != "filter"@.len());
    if must_clauses(p).len() == 0 && filter_clauses(p).len() == 0 {
        let fields = seq![("match_all"@, Doc::Object(Seq::empty()))];
        assert(member(fields.drop_first(), "bool"@) is None);
    } else {
        let must = opt_clauses("must"@, must_clauses(p));
        let filter = opt_clauses("filter"@, filter_clauses(p));
        let members = must + filter;
        let outer = seq![("bool"@, Doc::Object(members))];
        assert(query_clause(p) == Doc::Object(outer));
        assert(outer[0].0 == "bool"@);
        assert(query_clause(p).at("bool"@) == Doc::Object(members));
        assert(one("match_all"@, Doc::Object(Seq::empty()))->Object_0[0].0 == "match_all"@);
        if must_clauses(p).len() > 0 {
            assert(members[0] == must[0]);
            if filter_clauses(p).len() > 0 {
                lemma_member_skip(members, "filter"@, 1);
                assert(members.skip(1)[0] == filter[0]);
            } else {
                assert(members =~= must);
                lemma_member_skip(members, "filter"@, 1);
                assert(members.skip(1) =~= Seq::empty());
            }
        } else {
            assert(members =~= filter);
            assert(members[0] == filter[0]);
            lemma_member_skip(members, "must"@, 1);
            assert(members.skip(1) =~= Seq::empty());
        }
    }
}

/// The page size in force is never above the cap, and the window of a
/// search starts behind all the pages before it.
pub proof fn law_page_window(p: SearchView, cap: u64)
    ensures
        page_size(p, cap) <= cap,
        page_number(p) >= 1,
        page_offset(p, cap) == (page_number(p) - 1) * page_size(p, cap),
        search_document(p, cap).at("size"@) == Doc::Int(page_size(p, cap) as int),
        search_document(p, cap).at("from"@) == Doc::Int(page_offset(p, cap)),
        search_document(p, cap).at("track_total_hits"@) == Doc::Bool(true),
{
    reveal_strlit("query");
    reveal_strlit("sort");
    reveal_strlit("from");
    reveal_strlit("size");
    reveal_strlit("track_total_hits");
    let fields = search_document(p, cap)->Object_0;
    assert("query"@.len() == 5 && "sort"@.len() == 4 && "from"@.len() == 4 && "size"@.len() == 4);
    assert("sort"@[1] != "size"@[1]);
    assert("from"@[0] != "size"@[0]);
    assert("sort"@[0] != "from"@[0]);
    lemma_member_skip(fields, "size"@, 3);
    assert(fields.skip(3)[0] == fields[3]);
    lemma_member_skip(fields, "from"@, 2);
    assert(fields.skip(2)[0] == fields[2]);
    lemma_member_skip(fields, "track_total_hits"@, 4);
    assert(fields.skip(4)[0] == fields[4]);
}

fn build_text_clause(q: &str) -> (r: Json)
    ensures
        r@ == text_clause(q@),
{
    let mut names: Vec<Json> = Vec::new();
    push_item(&mut names, Json::string("title^3"));
    push_item(&mut names, Json::string("content"));
    let ghost names_model = docs_of(names@);
    proof {
        assert(names_model =~= seq![Doc::Text("title^3"@), Doc::Text("content"@)]);
    }
    let mut fields: Vec<(String, Json)> = Vec::new();
    push_field(&mut fields, "query", Json::string(q));
    push_field(&mut fields, "fields", Json::array(names));
    push_field(&mut fields, "type", Json::string("best_fields"));
    push_field(&mut fields, "fuzziness", Json::string("AUTO"));
    proof {
        assert(fields_of(fields@) =~= seq![
            ("query"@, Doc::Text(q@)),
            ("fields"@, Doc::List(names_model)),
            ("type"@, Doc::Text("best_fields"@)),
            ("fuzziness"@, Doc::Text("AUTO"@)),
        ]);
    }
    Json::singleton("multi_match", Json::object(fields))
}

fn build_term_clause(field: &str, value: &str) -> (r: Json)
    ensures
        r@ == term_clause(field@, value@),
{
    Json::singleton("term", Json::singleton(field, Json::string(value)))
}

fn push_opt_term(clauses: &mut Vec<Json>, field: &str, value: &Option<String>)
    ensures
        docs_of(final(clauses)@) == docs_of(old(clauses)@) + opt_term(
            field@,
            crate::text::opt_text(*value),
        ),
{
    match value {
        Some(v) => {
            push_item(clauses, build_term_clause(field, v.as_str()));
            proof {
                assert(docs_of(clauses@) =~= docs_of(old(clauses)@) + opt_term(
                    field@,
                    crate::text::opt_text(*value),
                ));
            }
        },
        None => {
            proof {
                assert(docs_of(clauses@) =~= docs_of(old(clauses)@) + opt_term(
                    field@,
                    crate::text::opt_text(*value),
                ));
            }
        },
    }
}

fn push_opt_bound(bounds: &mut Vec<(String, Json)>, op: &str, value: &Option<String>)
    ensures
        fields_of(final(bounds)@) == fields_of(old(bounds)@) + opt_bound(
            op@,
            crate::text::opt_text(*value),
        ),
{
    match value {
        Some(v) => {
            push_field(bounds, op, Json::string(v.as_str()));
            proof {
                assert(fields_of(bounds@) =~= fields_of(old(bounds)@) + opt_bound(
                    op@,
                    crate::text::opt_text(*value),
                ));
            }
        },
        None => {
            proof {
                assert(fields_of(bounds@) =~= fields_of(old(bounds)@) + opt_bound(
                    op@,
                    crate::text::opt_text(*value),
                ));
            }
        },
    }
}

fn build_must(params: &NewsSearchParams) -> (r: Vec<Json>)
    ensures
        docs_of(r@) == must_clauses(params@),
{
    let mut must: Vec<Json> = Vec::new();
    proof {
        assert(docs_of(must@) =~= Seq::<Doc>::empty());
    }
    match &params.q {
        Some(q) => {
            if !text_eq(q.as_str(), "") {
                proof {
                    reveal_strlit("");
                    assert(q@.len() > 0) by {
                        if q@.len() == 0 {
                            assert(q@ =~= ""@);
                        }
                    }
                }
                push_item(&mut must, build_text_clause(q.as_str()));
                proof {
                    assert(docs_of(must@) =~= seq![text_clause(q@)]);
                }
            } else {
                proof {
                    reveal_strlit("");
                }
            }
        },
        None => {},
    }
    must
}

fn build_range(params: &NewsSearchParams) -> (r: Vec<(String, Json)>)
    ensures
        fields_of(r@) == range_bounds(params@),
{
    let mut bounds: Vec<(String, Json)> = Vec::new();
    proof {
        assert(fields_of(bounds@) =~= Seq::<(Seq<char>, Doc)>::empty());
    }
    push_opt_bound(&mut bounds, "gte", &params.date_from);
    push_opt_bound(&mut bounds, "lte", &params.date_to);
    proof {
        assert(fields_of(bounds@) =~= range_bounds(params@));
    }
    bounds
}

fn build_filter(params: &NewsSearchParams) -> (r: Vec<Json>)
    ensures
        docs_of(r@) == filter_clauses(params@),
{
    let mut filter: Vec<Json> = Vec::new();
    proof {
        assert(docs_of(filter@) =~= Seq::<Doc>::empty());
    }
    push_opt_term(&mut filter, "source", &params.source);
    push_opt_term(&mut filter, "tags", &params.tag);
    push_opt_term(&mut filter, "annotate.sentiment.label.keyword", &params.sentiment);
    push_opt_term(&mut filter, "annotate.emotion.label.keyword", &params.emotion);
    push_opt_term(&mut filter, "author", &params.author);
    let ghost terms = docs_of(filter@);
    let range = build_range(params);
    if range.len() > 0 {
        let clause = Json::singleton("range", Json::singleton("ingested_at", Json::object(range)));
        push_item(&mut filter, clause);
        proof {
            assert(docs_of(filter@) =~= terms + range_clause(params@));
        }
    } else {
        proof {
            assert(docs_of(filter@) =~= terms + range_clause(params@));
        }
    }
    proof {
        assert(docs_of(filter@) =~= filter_clauses(params@));
    }
    filter
}

fn push_opt_clauses(members: &mut Vec<(String, Json)>, key: &str, clauses: Vec<Json>)
    ensures
        fields_of(final(members)@) == fields_of(old(members)@) + opt_clauses(
            key@,
            docs_of(clauses@),
        ),
{
    if clauses.len() > 0 {
        push_field(members, key, Json::array(clauses));
    }
    proof {
        assert(fields_of(members@) =~= fields_of(old(members)@) + opt_clauses(
            key@,
            docs_of(clauses@),
        ));
    }
}

fn build_query(params: &NewsSearchParams) -> (r: Json)
    ensures
        r@ == query_clause(params@),
{
    let must = build_must(params);
    let filter = build_filter(params);
    if must.len() == 0 && filter.len() == 0 {
        let nothing: Vec<(String, Json)> = Vec::new();
        proof {
            assert(fields_of(nothing@) =~= Seq::<(Seq<char>, Doc)>::empty());
        }
        Json::singleton("match_all", Json::object(nothing))
    } else {
        let mut members: Vec<(String, Json)> = Vec::new();
        proof {
            assert(fields_of(members@) =~= Seq::<(Seq<char>, Doc)>::empty());
        }
        push_opt_clauses(&mut members, "must", must);
        push_opt_clauses(&mut members, "filter", filter);
        proof {
            assert(fields_of(members@) =~= opt_clauses("must"@, must_clauses(params@))
                + opt_clauses("filter"@, filter_clauses(params@)));
        }
        Json::singleton("bool", Json::object(members))
    }
}

fn build_by_time(order: &str) -> (r: Json)
    ensures
        r@ == by_time(order@),
{
    let mut keys: Vec<Json> = Vec::new();
    push_item(
        &mut keys,
        Json::singleton("ingested_at", Json::singleton("order", Json::string(order))),
    );
    proof {
        assert(docs_of(keys@) =~= seq![one("ingested_at"@, one("order"@, Doc::Text(order@)))]);
    }
    Json::array(keys)
}

fn build_sort(params: &NewsSearchParams) -> (r: Json)
    ensures
        r@ == sort_clause(params@),
{
    let oldest = match &params.sort {
        Some(s) => text_eq(s.as_str(), "oldest"),
        None => false,
    };
    let relevance = match &params.sort {
        Some(s) => text_eq(s.as_str(), "relevance"),
        None => false,
    };
    let has_query = match &params.q {
        Some(q) => !text_eq(q.as_str(), ""),
        None => false,
    };
    proof {
        reveal_strlit("");
        if params.q is Some && params.q->Some_0@.len() == 0 {
            assert(params.q->Some_0@ =~= ""@);
        }
    }
    if oldest {
        build_by_time("asc")
    } else if relevance && has_query {
        let mut keys: Vec<Json> = Vec::new();
        push_item(&mut keys, Json::string("_score"));
        proof {
            assert(docs_of(keys@) =~= seq![Doc::Text("_score"@)]);
        }
        Json::array(keys)
    } else {
        build_by_time("desc")
    }
}

impl NewsSearchParams {
    /// The page asked for: the first where none is named or page zero is.
    pub fn page_number(&self) -> (r: u64)
        ensures
            r == page_number(self@),
            r >= 1,
    {
        match self.page {
            Some(n) => if n >= 1 {
                n
            } else {
                1
            },
            None => 1,
        }
    }

    /// The page size asked for, ten where none is named, held to `cap`.
    pub fn page_size(&self, cap: u64) -> (r: u64)
        ensures
            r == page_size(self@, cap),
            r <= cap,
    {
        let asked = match self.size {
            Some(n) => n,
            None => DEFAULT_PAGE_SIZE,
        };
        if asked <= cap {
            asked
        } else {
            cap
        }
    }

    /// How many results come before the page asked for, where that number
    /// fits 64 bits.
    pub fn offset(&self, cap: u64) -> (r: Option<u64>)
        ensures
            match r {
                Some(n) => n == page_offset(self@, cap),
                None => page_offset(self@, cap) > u64::MAX,
            },
    {
        let before = self.page_number() - 1;
        let size = self.page_size(cap);
        before.checked_mul(size)
    }
}

/// The search request for `params` with pages of at most `max_size` results.
pub fn search_body(params: &NewsSearchParams, max_size: u64) -> (r: Json)
    requires
        page_offset(params@, max_size) <= u64::MAX,
    ensures
        r@ == search_document(params@, max_size),
{
    let size = params.page_size(max_size);
    let from = match params.offset(max_size) {
        Some(n) => n,
        None => 0,
    };
    let mut members: Vec<(String, Json)> = Vec::new();
    proof {
        assert(fields_of(members@) =~= Seq::<(Seq<char>, Doc)>::empty());
    }
    push_field(&mut members, "query", build_query(params));
    push_field(&mut members, "sort", build_sort(params));
    push_field(&mut members, "from", Json::UInt(from));
    push_field(&mut members, "size", Json::UInt(size));
    push_field(&mut members, "track_total_hits", Json::Bool(true));
    proof {
        assert(fields_of(members@) =~= seq![
            ("query"@, query_clause(params@)),
            ("sort"@, sort_clause(params@)),
            ("from"@, Doc::Int(page_offset(params@, max_size))),
            ("size"@, Doc::Int(page_size(params@, max_size) as int)),
            ("track_total_hits"@, Doc::Bool(true)),
        ]);
    }
    Json::object(members)
}

} // verus!
