use news_gateway::json::Json;
use news_gateway::models::NewsSearchParams;
use news_gateway::query::search_body;

fn s(text: &str) -> Json {
    Json::Str(text.to_string())
}

fn obj(members: Vec<(&str, Json)>) -> Json {
    Json::Object(members.into_iter().map(|(k, v)| (k.to_string(), v)).collect())
}

fn none() -> NewsSearchParams {
    NewsSearchParams {
        q: None,
        source: None,
        tag: None,
        sentiment: None,
        emotion: None,
        author: None,
        date_from: None,
        date_to: None,
        sort: None,
        page: None,
        size: None,
    }
}

fn text(v: &str) -> Option<String> {
    Some(v.to_string())
}

fn newest_first() -> Json {
    Json::Array(vec![obj(vec![("ingested_at", obj(vec![("order", s("desc"))]))])])
}

fn oldest_first() -> Json {
    Json::Array(vec![obj(vec![("ingested_at", obj(vec![("order", s("asc"))]))])])
}

fn match_all() -> Json {
    obj(vec![("match_all", obj(vec![]))])
}

fn multi_match(q: &str) -> Json {
    obj(vec![(
        "multi_match",
        obj(vec![
            ("query", s(q)),
            ("fields", Json::Array(vec![s("title^3"), s("content")])),
            ("type", s("best_fields")),
            ("fuzziness", s("AUTO")),
        ]),
    )])
}

fn term(field: &str, value: &str) -> Json {
    obj(vec![("term", obj(vec![(field, s(value))]))])
}

fn body(query: Json, sort: Json, from: u64, size: u64) -> Json {
    obj(vec![
        ("query", query),
        ("sort", sort),
        ("from", Json::UInt(from)),
        ("size", Json::UInt(size)),
        ("track_total_hits", Json::Bool(true)),
    ])
}

#[test]
fn nothing_asked_matches_all() {
    assert_eq!(search_body(&none(), 10), body(match_all(), newest_first(), 0, 10));
}

#[test]
fn text_query_is_a_scoring_clause() {
    let p = NewsSearchParams { q: text("banjir jakarta"), ..none() };
    let expected = body(
        obj(vec![("bool", obj(vec![("must", Json::Array(vec![multi_match("banjir jakarta")]))]))]),
        newest_first(),
        0,
        10,
    );
    assert_eq!(search_body(&p, 10), expected);
}

#[test]
fn empty_text_query_is_no_clause() {
    let p = NewsSearchParams { q: text(""), ..none() };
    assert_eq!(search_body(&p, 10), body(match_all(), newest_first(), 0, 10));
}

#[test]
fn filters_alone_do_not_score() {
    let p = NewsSearchParams {
        source: text("kompas"),
        tag: text("politik"),
        sentiment: text("positive"),
        emotion: text("joy"),
        author: text("Budi"),
        ..none()
    };
    let expected = body(
        obj(vec![(
            "bool",
            obj(vec![(
                "filter",
                Json::Array(vec![
                    term("source", "kompas"),
                    term("tags", "politik"),
                    term("annotate.sentiment.label.keyword", "positive"),
                    term("annotate.emotion.label.keyword", "joy"),
                    term("author", "Budi"),
                ]),
            )]),
        )]),
        newest_first(),
        0,
        10,
    );
    assert_eq!(search_body(&p, 10), expected);
}

#[test]
fn text_query_with_filters_keeps_them_apart() {
    let p = NewsSearchParams { q: text("gempa"), source: text("detik"), ..none() };
    let expected = body(
        obj(vec![(
            "bool",
            obj(vec![
                ("must", Json::Array(vec![multi_match("gempa")])),
                ("filter", Json::Array(vec![term("source", "detik")])),
            ]),
        )]),
        newest_first(),
        0,
        10,
    );
    assert_eq!(search_body(&p, 10), expected);
}

#[test]
fn dates_make_one_range_filter() {
    let range = |bounds: Vec<(&str, Json)>| {
        obj(vec![(
            "bool",
            obj(vec![(
                "filter",
                Json::Array(vec![obj(vec![("range", obj(vec![("ingested_at", obj(bounds))]))])]),
            )]),
        )])
    };
    let both = NewsSearchParams { date_from: text("2024-01-01"), date_to: text("2024-02-01"), ..none() };
    assert_eq!(
        search_body(&both, 10),
        body(range(vec![("gte", s("2024-01-01")), ("lte", s("2024-02-01"))]), newest_first(), 0, 10)
    );
    let from = NewsSearchParams { date_from: text("2024-01-01"), ..none() };
    assert_eq!(
        search_body(&from, 10),
        body(range(vec![("gte", s("2024-01-01"))]), newest_first(), 0, 10)
    );
    let to = NewsSearchParams { date_to: text("2024-02-01"), ..none() };
    assert_eq!(
        search_body(&to, 10),
        body(range(vec![("lte", s("2024-02-01"))]), newest_first(), 0, 10)
    );
}

#[test]
fn range_comes_after_the_term_filters() {
    let p = NewsSearchParams { author: text("Ani"), date_from: text("2024"), ..none() };
    let expected = obj(vec![(
        "bool",
        obj(vec![(
            "filter",
            Json::Array(vec![
                term("author", "Ani"),
                obj(vec![("range", obj(vec![("ingested_at", obj(vec![("gte", s("2024"))]))]))]),
            ]),
        )]),
    )]);
    assert_eq!(search_body(&p, 10).get("query"), Some(&expected));
}

#[test]
fn relevance_without_a_query_sorts_newest_first() {
    let p = NewsSearchParams { sort: text("relevance"), ..none() };
    assert_eq!(search_body(&p, 10), body(match_all(), newest_first(), 0, 10));
    let filtered = NewsSearchParams { sort: text("relevance"), source: text("kompas"), ..none() };
    assert_eq!(search_body(&filtered, 10).get("sort"), Some(&newest_first()));
}

#[test]
fn relevance_with_a_query_sorts_by_score() {
    let p = NewsSearchParams { sort: text("relevance"), q: text("pemilu"), ..none() };
    assert_eq!(search_body(&p, 10).get("sort"), Some(&Json::Array(vec![s("_score")])));
}

#[test]
fn relevance_with_an_empty_query_sorts_newest_first() {
    let p = NewsSearchParams { sort: text("relevance"), q: text(""), ..none() };
    assert_eq!(search_body(&p, 10), body(match_all(), newest_first(), 0, 10));
    let filtered = NewsSearchParams { source: text("kompas"), ..p };
    assert_eq!(search_body(&filtered, 10).get("sort"), Some(&newest_first()));
}

#[test]
fn sort_modes() {
    let oldest = NewsSearchParams { sort: text("oldest"), ..none() };
    assert_eq!(search_body(&oldest, 10).get("sort"), Some(&oldest_first()));
    let oldest_q = NewsSearchParams { sort: text("oldest"), q: text("x"), ..none() };
    assert_eq!(search_body(&oldest_q, 10).get("sort"), Some(&oldest_first()));
    for other in ["newest", "", "OLDEST", "Relevance", "random"] {
        let p = NewsSearchParams { sort: text(other), q: text("x"), ..none() };
        assert_eq!(search_body(&p, 10).get("sort"), Some(&newest_first()), "{}", other);
    }
}

#[test]
fn page_two_of_an_oversized_request_on_the_basic_cap() {
    let p = NewsSearchParams { page: Some(2), size: Some(999), ..none() };
    let doc = search_body(&p, 10);
    assert_eq!(doc.get("size"), Some(&Json::UInt(10)));
    assert_eq!(doc.get("from"), Some(&Json::UInt(10)));
    assert_eq!(doc.get("track_total_hits"), Some(&Json::Bool(true)));
    assert_eq!(p.page_number(), 2);
    assert_eq!(p.page_size(10), 10);
    assert_eq!(p.offset(10), Some(10));
}

#[test]
fn page_is_floored_at_one() {
    let zero = NewsSearchParams { page: Some(0), size: Some(7), ..none() };
    assert_eq!(zero.page_number(), 1);
    assert_eq!(zero.offset(10), Some(0));
    assert_eq!(search_body(&zero, 10), body(match_all(), newest_first(), 0, 7));
    let missing = NewsSearchParams { size: Some(7), ..none() };
    assert_eq!(missing.page_number(), 1);
}

#[test]
fn size_defaults_to_ten_and_is_capped() {
    assert_eq!(none().page_size(100), 10);
    assert_eq!(none().page_size(4), 4);
    let big = NewsSearchParams { size: Some(60), ..none() };
    assert_eq!(big.page_size(100), 60);
    assert_eq!(big.page_size(50), 50);
    assert_eq!(big.page_size(25), 25);
    let zero = NewsSearchParams { size: Some(0), page: Some(9), ..none() };
    assert_eq!(zero.page_size(10), 0);
    assert_eq!(search_body(&zero, 10), body(match_all(), newest_first(), 0, 0));
}

#[test]
fn offset_is_pages_before_times_size() {
    let p = NewsSearchParams { page: Some(7), size: Some(25), ..none() };
    assert_eq!(p.offset(25), Some(150));
    assert_eq!(p.offset(10), Some(60));
    assert_eq!(search_body(&p, 25), body(match_all(), newest_first(), 150, 25));
}

#[test]
fn offset_that_does_not_fit_is_told() {
    let p = NewsSearchParams { page: Some(u64::MAX), size: Some(100), ..none() };
    assert_eq!(p.offset(100), None);
    let edge = NewsSearchParams { page: Some(u64::MAX), size: Some(1), ..none() };
    assert_eq!(edge.offset(100), Some(u64::MAX - 1));
    assert_eq!(search_body(&edge, 100).get("from"), Some(&Json::UInt(u64::MAX - 1)));
}
