use news_gateway::config::Config;
use news_gateway::config::Environment;
use news_gateway::errors::AppError;
use news_gateway::json::Json;
use news_gateway::models::DateRange;
use news_gateway::models::NewsArticle;
use news_gateway::models::NewsSearchParams;
use news_gateway::models::SourceInfo;
use news_gateway::models::StatsData;
use news_gateway::models::TrendingItem;
use news_gateway::repository::BackendReply;
use news_gateway::repository::BackendRequest;
use news_gateway::repository::EsRepository;
use news_gateway::service::NewsService;
use news_gateway::tier::SubscriptionTier;

fn s(text: &str) -> Json {
    Json::Str(text.to_string())
}

fn obj(members: Vec<(&str, Json)>) -> Json {
    Json::Object(members.into_iter().map(|(k, v)| (k.to_string(), v)).collect())
}

fn config() -> Config {
    Config::from_env(Environment {
        es_host: Some("http://es:9200".to_string()),
        es_username: Some("reader".to_string()),
        es_password: Some("pw".to_string()),
        es_index_pattern: Some("news-*".to_string()),
        port: None,
        rapidapi_proxy_secret: None,
        rate_limit_basic: None,
        rate_limit_pro: None,
        rate_limit_ultra: None,
        rate_limit_mega: None,
    })
}

fn repo() -> EsRepository {
    EsRepository::new(&config())
}

fn service() -> NewsService {
    NewsService::new(repo())
}

fn request(body: Json) -> BackendRequest {
    BackendRequest {
        url: "http://es:9200/news-*/_search".to_string(),
        username: "reader".to_string(),
        password: "pw".to_string(),
        body: Some(body),
    }
}

fn params() -> NewsSearchParams {
    NewsSearchParams {
        q: None,
        source: None,
        tag: None,
        sentiment: None,
        emotion: None,
        author: None,
        date_from: None,
        date_to: None,
        sort: None,
        page: None,
        size: None,
    }
}

fn article(id: &str, content: Option<&str>) -> NewsArticle {
    NewsArticle {
        id: id.to_string(),
        title: None,
        content: content.map(|c| c.to_string()),
        author: None,
        source: None,
        url: None,
        headline_image: None,
        headline_caption: None,
        publish_date: None,
        publish_date_timestamp: None,
        tags: None,
        extracted_at: None,
        ingested_at: None,
        annotate: None,
    }
}

fn terms(field: &str, size: u64) -> Json {
    obj(vec![("terms", obj(vec![("field", s(field)), ("size", Json::UInt(size))]))])
}

fn bucket(key: &str, count: u64) -> Json {
    obj(vec![("key", s(key)), ("doc_count", Json::UInt(count))])
}

fn document(body: Json) -> BackendReply {
    BackendReply::Document(body)
}

fn record(id: &str, source: Json) -> Json {
    obj(vec![("_id", s(id)), ("_source", source)])
}

fn records(total: u64, records: Vec<Json>) -> BackendReply {
    document(obj(vec![(
        "hits",
        obj(vec![("total", obj(vec![("value", Json::UInt(total))])), ("hits", Json::Array(records))]),
    )]))
}

/// Takes a body for an article if it is an object whose content, where it
/// has one, is a string.
fn decode(text: String) -> Option<NewsArticle> {
    let value: serde_json::Value = serde_json::from_str(&text).ok()?;
    let members = value.as_object()?;
    let content = match members.get("content") {
        None | Some(serde_json::Value::Null) => None,
        Some(serde_json::Value::String(t)) => Some(t.clone()),
        Some(_) => return None,
    };
    Some(article("", content.as_deref()))
}

fn backend_failure(text: &str) -> AppError {
    AppError::Elasticsearch(text.to_string())
}

#[test]
fn addresses() {
    assert_eq!(repo().search_url(), "http://es:9200/news-*/_search");
    assert_eq!(repo().health_url(), "http://es:9200/_cluster/health");
    let default = EsRepository::new(&Config::from_env(Environment {
        es_host: None,
        es_username: None,
        es_password: None,
        es_index_pattern: None,
        port: None,
        rapidapi_proxy_secret: None,
        rate_limit_basic: None,
        rate_limit_pro: None,
        rate_limit_ultra: None,
        rate_limit_mega: None,
    }));
    assert_eq!(default.search_url(), "https://local-es.nusarithm.id/online-news-*/_search");
}

#[test]
fn search_request_is_capped_by_the_tier() {
    let p = NewsSearchParams { page: Some(2), size: Some(999), ..params() };
    let expected = |from: u64, size: u64| {
        request(obj(vec![
            ("query", obj(vec![("match_all", obj(vec![]))])),
            ("sort", Json::Array(vec![obj(vec![("ingested_at", obj(vec![("order", s("desc"))]))])])),
            ("from", Json::UInt(from)),
            ("size", Json::UInt(size)),
            ("track_total_hits", Json::Bool(true)),
        ]))
    };
    assert_eq!(service().search_request(&p, &SubscriptionTier::Basic), expected(10, 10));
    assert_eq!(service().search_request(&p, &SubscriptionTier::Pro), expected(25, 25));
    assert_eq!(service().search_request(&p, &SubscriptionTier::Ultra), expected(50, 50));
    assert_eq!(service().search_request(&p, &SubscriptionTier::Mega), expected(100, 100));
    assert_eq!(repo().search_request(&p, 7), expected(7, 7));
}

#[test]
fn find_by_id_request() {
    let expected = request(obj(vec![
        ("query", obj(vec![("ids", obj(vec![("values", Json::Array(vec![s("doc-9")]))]))])),
        ("size", Json::UInt(1)),
    ]));
    assert_eq!(repo().find_by_id_request("doc-9"), expected);
    assert_eq!(service().get_by_id_request("doc-9"), expected);
}

#[test]
fn sources_request() {
    let expected = request(obj(vec![
        ("size", Json::UInt(0)),
        ("aggs", obj(vec![("sources", terms("source", 100))])),
    ]));
    assert_eq!(repo().aggregate_sources_request(), expected);
    assert_eq!(service().list_sources_request(), expected);
}

#[test]
fn stats_request() {
    let expected = request(obj(vec![
        ("size", Json::UInt(0)),
        ("track_total_hits", Json::Bool(true)),
        (
            "aggs",
            obj(vec![
                ("sources", terms("source", 100)),
                ("date_min", obj(vec![("min", obj(vec![("field", s("ingested_at"))]))])),
                ("date_max", obj(vec![("max", obj(vec![("field", s("ingested_at"))]))])),
            ]),
        ),
    ]));
    assert_eq!(repo().aggregate_stats_request(), expected);
    assert_eq!(service().stats_request(), expected);
}

#[test]
fn trending_request() {
    let expected = request(obj(vec![
        ("size", Json::UInt(0)),
        (
            "query",
            obj(vec![("range", obj(vec![("ingested_at", obj(vec![("gte", s("now-7d/d"))]))]))]),
        ),
        (
            "aggs",
            obj(vec![
                ("entities", terms("annotate.entities.word.keyword", 20)),
                ("tags", terms("tags", 20)),
            ]),
        ),
    ]));
    assert_eq!(repo().trending_request(), expected);
    assert_eq!(service().trending_request(), expected);
}

#[test]
fn health_request_carries_no_document() {
    let expected = BackendRequest {
        url: "http://es:9200/_cluster/health".to_string(),
        username: "reader".to_string(),
        password: "pw".to_string(),
        body: None,
    };
    assert_eq!(repo().health_request(), expected);
    assert_eq!(service().health_request(), expected);
}

#[test]
fn requests_can_be_written_out() {
    let body = repo().find_by_id_request("a\"b").body.unwrap();
    assert_eq!(body.render(), "{\"query\":{\"ids\":{\"values\":[\"a\\\"b\"]}},\"size\":1}");
}

#[test]
fn failures_of_the_backend() {
    assert_eq!(
        EsRepository::execute(BackendReply::SendFailed("connection refused".to_string())),
        Err(backend_failure("Request failed: connection refused"))
    );
    assert_eq!(
        EsRepository::execute(BackendReply::BodyUnreadable("expected value".to_string())),
        Err(backend_failure("Parse failed: expected value"))
    );
    let refused = obj(vec![
        ("error", obj(vec![("reason", s("no such index")), ("type", s("index_not_found"))])),
        ("status", Json::UInt(404)),
    ]);
    assert_eq!(
        EsRepository::execute(document(refused)),
        Err(backend_failure("{\"reason\":\"no such index\",\"type\":\"index_not_found\"}"))
    );
    assert_eq!(
        EsRepository::execute(document(obj(vec![("error", s("boom"))]))),
        Err(backend_failure("\"boom\""))
    );
    assert_eq!(
        EsRepository::execute(document(obj(vec![("error", Json::Null)]))),
        Err(backend_failure("null"))
    );
}

#[test]
fn a_document_without_error_is_handed_on() {
    assert_eq!(
        EsRepository::execute(document(obj(vec![("took", Json::UInt(3))]))),
        Ok(obj(vec![("took", Json::UInt(3))]))
    );
}

#[test]
fn every_operation_passes_failures_on() {
    let failed = || BackendReply::SendFailed("timeout".to_string());
    let e = backend_failure("Request failed: timeout");
    assert_eq!(EsRepository::search(failed(), &decode), Err(e.clone()));
    assert_eq!(EsRepository::find_by_id(failed(), &decode), Err(e.clone()));
    assert_eq!(EsRepository::aggregate_sources(failed()), Err(e.clone()));
    assert_eq!(EsRepository::aggregate_stats(failed()), Err(e.clone()));
    assert_eq!(EsRepository::trending(failed()), Err(e.clone()));
    assert_eq!(service().search(failed(), &SubscriptionTier::Basic, &decode), Err(e.clone()));
    assert_eq!(
        service().get_by_id("x", failed(), &SubscriptionTier::Basic, &decode),
        Err(e.clone())
    );
    assert_eq!(service().list_sources(failed()), Err(e.clone()));
    assert_eq!(service().stats(failed()), Err(e.clone()));
    assert_eq!(service().trending(failed()), Err(e));
    let refused = || document(obj(vec![("error", s("x"))]));
    assert_eq!(EsRepository::search(refused(), &decode), Err(backend_failure("\"x\"")));
    assert_eq!(service().stats(refused()), Err(backend_failure("\"x\"")));
}

#[test]
fn health_has_its_own_failures() {
    assert_eq!(
        EsRepository::health(BackendReply::SendFailed("timeout".to_string())),
        Err(backend_failure("Health check failed: timeout"))
    );
    assert_eq!(
        EsRepository::health(BackendReply::BodyUnreadable("eof".to_string())),
        Err(backend_failure("Parse failed: eof"))
    );
    assert_eq!(
        EsRepository::health(document(obj(vec![("status", s("green"))]))),
        Ok("green".to_string())
    );
    assert_eq!(EsRepository::health(document(obj(vec![]))), Ok("unknown".to_string()));
    assert_eq!(
        EsRepository::health(document(obj(vec![("status", Json::UInt(1))]))),
        Ok("unknown".to_string())
    );
    assert_eq!(
        service().health(document(obj(vec![("error", s("x")), ("status", s("red"))]))),
        Ok("red".to_string())
    );
}

#[test]
fn search_result_is_gated_for_the_tier() {
    let long: String = std::iter::repeat('z').take(250).collect();
    let reply = || {
        records(
            77,
            vec![
                record("a", obj(vec![("content", s(&long))])),
                record("b", obj(vec![("content", Json::Bool(true))])),
                record("c", obj(vec![("content", s("short"))])),
            ],
        )
    };
    let cut: String = std::iter::repeat('z').take(200).collect::<String>() + "...";
    assert_eq!(
        service().search(reply(), &SubscriptionTier::Basic, &decode),
        Ok((vec![article("a", Some(&cut)), article("c", Some("short"))], 77))
    );
    assert_eq!(
        service().search(reply(), &SubscriptionTier::Pro, &decode),
        Ok((vec![article("a", Some(&long)), article("c", Some("short"))], 77))
    );
}

#[test]
fn get_by_id_finds_the_first_or_nothing() {
    let found = records(
        2,
        vec![
            record("doc-1", obj(vec![("content", s("one"))])),
            record("doc-2", obj(vec![("content", s("two"))])),
        ],
    );
    assert_eq!(
        service().get_by_id("doc-1", found, &SubscriptionTier::Mega, &decode),
        Ok(article("doc-1", Some("one")))
    );
    assert_eq!(
        service().get_by_id("doc-404", document(Json::Null), &SubscriptionTier::Mega, &decode),
        Err(AppError::NotFound("Article 'doc-404' not found".to_string()))
    );
    let malformed = || records(1, vec![record("doc-3", obj(vec![("content", Json::UInt(1))]))]);
    assert_eq!(EsRepository::find_by_id(malformed(), &decode), Ok(None));
    assert_eq!(
        service().get_by_id("doc-3", malformed(), &SubscriptionTier::Mega, &decode),
        Err(AppError::NotFound("Article 'doc-3' not found".to_string()))
    );
}

#[test]
fn the_decoder_decides_what_an_article_is() {
    let reply = || records(1, vec![record("a", obj(vec![("content", s("x"))]))]);
    let nothing = |_: String| -> Option<NewsArticle> { None };
    assert_eq!(EsRepository::search(reply(), &nothing), Ok((vec![], 1)));
    let always = |text: String| Some(article("from the decoder", Some(&text)));
    assert_eq!(
        EsRepository::search(reply(), &always),
        Ok((vec![article("a", Some("{\"content\":\"x\"}"))], 1))
    );
}

#[test]
fn sources_and_stats_and_trending_are_read_from_aggregations() {
    let body = || {
        obj(vec![
            ("hits", obj(vec![("total", obj(vec![("value", Json::UInt(5000))]))])),
            (
                "aggregations",
                obj(vec![
                    (
                        "sources",
                        obj(vec![("buckets", Json::Array(vec![bucket("kompas", 3000), bucket("detik", 2000)]))]),
                    ),
                    ("date_min", obj(vec![("value", Json::Float("1.7e12".to_string())), ("value_as_string", s("2023-11-14"))])),
                    ("date_max", obj(vec![("value_as_string", s("2024-03-01"))])),
                    ("entities", obj(vec![("buckets", Json::Array(vec![bucket("x", 5)]))])),
                    ("tags", obj(vec![("buckets", Json::Array(vec![bucket("y", 8), bucket("x", 5)]))])),
                ]),
            ),
        ])
    };
    let sources = vec![
        SourceInfo { name: "kompas".to_string(), doc_count: 3000 },
        SourceInfo { name: "detik".to_string(), doc_count: 2000 },
    ];
    assert_eq!(service().list_sources(document(body())), Ok(sources.clone()));
    assert_eq!(
        service().stats(document(body())),
        Ok(StatsData {
            total_articles: 5000,
            sources,
            date_range: DateRange {
                earliest: Some("2023-11-14".to_string()),
                latest: Some("2024-03-01".to_string())
            },
        })
    );
    assert_eq!(
        service().trending(document(body())),
        Ok(vec![
            TrendingItem { keyword: "y".to_string(), category: "tag".to_string(), count: 8 },
            TrendingItem { keyword: "x".to_string(), category: "entity".to_string(), count: 5 },
            TrendingItem { keyword: "x".to_string(), category: "tag".to_string(), count: 5 },
        ])
    );
    assert_eq!(
        service().stats(document(Json::Null)),
        Ok(StatsData {
            total_articles: 0,
            sources: vec![],
            date_range: DateRange { earliest: None, latest: None },
        })
    );
    assert_eq!(service().list_sources(document(Json::Null)), Ok(vec![]));
    assert_eq!(service().trending(document(Json::Null)), Ok(vec![]));
}
