//! The requests that go to the search engine and what its replies mean.
//!
//! Sending a request and receiving the reply is left to the caller: each
//! operation is a function that builds the request and a function that reads
//! the reply.

use vstd::prelude::*;
use crate::config::Config;
use crate::errors::AppError;
use crate::errors::ErrorView;
use crate::json::Doc;
use crate::json::docs_of;
use crate::json::fields_of;
use crate::json::Json;
use crate::json::json_text;
use crate::json::push_field;
use crate::json::push_item;
use crate::mapper::articles_of;
use crate::mapper::decode_frames;
use crate::mapper::decoded_by;
use crate::mapper::frames_of;
use crate::mapper::hit_frames;
use crate::mapper::hit_views;
use crate::mapper::HitView;
use crate::mapper::opt_article;
use crate::mapper::parse_buckets;
use crate::mapper::parse_hits;
use crate::mapper::parse_total;
use crate::mapper::sources_of;
use crate::mapper::total_of;
use crate::mapper::trends_of;
use crate::models::article_views;
use crate::models::ArticleView;
use crate::models::DateRange;
use crate::models::DateRangeView;
use crate::models::NewsArticle;
use crate::models::NewsSearchParams;
use crate::models::source_views;
use crate::models::SourceInfo;
use crate::models::StatsData;
use crate::models::StatsView;
use crate::models::trending_views;
use crate::models::TrendingItem;
use crate::query::one;
use crate::query::page_offset;
use crate::query::search_body;
use crate::query::search_document;
use crate::text::join2;
use crate::text::opt_text;
use crate::trending::parse_trending;
use crate::trending::ranked;

verus! {

/// A request to the search engine: where it goes, whom it comes from, and
/// the document it carries. A request without a document only reads.
#[derive(Debug, PartialEq)]
pub struct BackendRequest {
    pub url: String,
    pub username: String,
    pub password: String,
    pub body: Option<Json>,
}

/// What came of a request to the search engine.
#[derive(Debug, PartialEq)]
pub enum BackendReply {
    /// The request did not get through; the text says why.
    SendFailed(String),
    /// An answer came that is no document; the text says why.
    BodyUnreadable(String),
    /// The search engine answered with a document.
    Document(Json),
}

/// Model of [`BackendReply`].
pub ghost enum ReplyView {
    SendFailed(Seq<char>),
    BodyUnreadable(Seq<char>),
    Document(Doc),
}

impl View for BackendReply {
    type V = ReplyView;

    open spec fn view(&self) -> ReplyView {
        match self {
            BackendReply::SendFailed(e) => ReplyView::SendFailed(e@),
            BackendReply::BodyUnreadable(e) => ReplyView::BodyUnreadable(e@),
            BackendReply::Document(body) => ReplyView::Document(body@),
        }
    }
}

/// The failure that a reply stands for, if it stands for one: a request
/// that did not get through, an answer that is no document, or a document
/// with a member `error`, in which the search engine says what it failed at.
/// All of them are failures of the search engine; the last is told by that
/// member, written out.
pub open spec fn failure_of(reply: ReplyView) -> Option<ErrorView> {
    match reply {
        ReplyView::SendFailed(e) => Some(ErrorView::Elasticsearch("Request failed: "@ + e)),
        ReplyView::BodyUnreadable(e) => Some(ErrorView::Elasticsearch("Parse failed: "@ + e)),
        ReplyView::Document(body) => match body.get("error"@) {
            Some(e) => Some(ErrorView::Elasticsearch(json_text(e))),
            None => None,
        },
    }
}

/// The failure that a reply to a health check stands for. A health check
/// takes any document for an answer.
pub open spec fn health_failure_of(reply: ReplyView) -> Option<ErrorView> {
    match reply {
        ReplyView::SendFailed(e) => Some(ErrorView::Elasticsearch("Health check failed: "@ + e)),
        ReplyView::BodyUnreadable(e) => Some(ErrorView::Elasticsearch("Parse failed: "@ + e)),
        ReplyView::Document(_) => None,
    }
}

/// Whether `articles` are the articles that the reply `body` holds where
/// `decode` decodes the bodies of its records: those of the records of which
/// `decode` makes an article, each under the identifier of its record, in
/// the order of the records.
pub open spec fn found_by<F: Fn(String) -> Option<NewsArticle>>(
    decode: F,
    body: Doc,
    articles: Seq<ArticleView>,
) -> bool {
    exists|hits: Seq<HitView>| #[trigger]
        decoded_by(decode, frames_of(body), hits) && articles == articles_of(hits)
}

/// The first of a list of articles, if it has one.
pub open spec fn first_of(articles: Seq<ArticleView>) -> Option<ArticleView> {
    if articles.len() > 0 {
        Some(articles[0])
    } else {
        None
    }
}

/// An aggregation that counts documents by the values of `field`, for the
/// `size` most frequent values.
pub open spec fn terms_agg(field: Seq<char>, size: u64) -> Doc {
    one(
        "terms"@,
        Doc::Object(seq![("field"@, Doc::Text(field)), ("size"@, Doc::Int(size as int))]),
    )
}

/// An aggregation `op` over the ingestion time.
pub open spec fn time_agg(op: Seq<char>) -> Doc {
    one(op, one("field"@, Doc::Text("ingested_at"@)))
}

/// The request for the one article with the identifier `id`.
pub open spec fn find_by_id_document(id: Seq<char>) -> Doc {
    Doc::Object(
        seq![
            ("query"@, one("ids"@, one("values"@, Doc::List(seq![Doc::Text(id)])))),
            ("size"@, Doc::Int(1)),
        ],
    )
}

/// The request for the hundred most frequent sources with their counts.
pub open spec fn sources_document() -> Doc {
    Doc::Object(
        seq![("size"@, Doc::Int(0)), ("aggs"@, one("sources"@, terms_agg("source"@, 100)))],
    )
}

/// The request for the figures on the whole collection: the true number of
/// articles, the sources, and the earliest and latest ingestion time.
pub open spec fn stats_document() -> Doc {
    Doc::Object(
        seq![
            ("size"@, Doc::Int(0)),
            ("track_total_hits"@, Doc::Bool(true)),
            (
                "aggs"@,
                Doc::Object(
                    seq![
                        ("sources"@, terms_agg("source"@, 100)),
                        ("date_min"@, time_agg("min"@)),
                        ("date_max"@, time_agg("max"@)),
                    ],
                ),
            ),
        ],
    )
}

/// The request for the twenty most frequent entities and the twenty most
/// frequent tags among the articles of the last seven days.
pub open spec fn trending_document() -> Doc {
    Doc::Object(
        seq![
            ("size"@, Doc::Int(0)),
            ("query"@, one("range"@, one("ingested_at"@, one("gte"@, Doc::Text("now-7d/d"@))))),
            (
                "aggs"@,
                Doc::Object(
                    seq![
                        ("entities"@, terms_agg("annotate.entities.word.keyword"@, 20)),
                        ("tags"@, terms_agg("tags"@, 20)),
                    ],
                ),
            ),
        ],
    )
}

/// The buckets of the aggregation `name` in a reply.
pub open spec fn buckets_of(body: Doc, name: Seq<char>) -> Doc {
    body.at("aggregations"@).at(name).at("buckets"@)
}

/// The value of the aggregation `name` in a reply, as the search engine
/// wrote it out.
pub open spec fn agg_text_of(body: Doc, name: Seq<char>) -> Option<Seq<char>> {
    body.at("aggregations"@).at(name).at("value_as_string"@).as_str()
}

/// The figures that a reply to [`stats_document`] holds.
pub open spec fn stats_of(body: Doc) -> StatsView {
    StatsView {
        total_articles: total_of(body),
        sources: sources_of(buckets_of(body, "sources"@)),
        date_range: DateRangeView {
            earliest: agg_text_of(body, "date_min"@),
            latest: agg_text_of(body, "date_max"@),
        },
    }
}

/// The state of the cluster that a reply to a health check names.
pub open spec fn health_of(body: Doc) -> Seq<char> {
    match body.at("status"@).as_str() {
        Some(s) => s,
        None => "unknown"@,
    }
}

fn build_terms_agg(field: &str, size: u64) -> (r: Json)
    ensures
        r@ == terms_agg(field@, size),
{
    let mut fields: Vec<(String, Json)> = Vec::new();
    push_field(&mut fields, "field", Json::string(field));
    push_field(&mut fields, "size", Json::UInt(size));
    proof {
        assert(fields_of(fields@) =~= seq![
            ("field"@, Doc::Text(field@)),
            ("size"@, Doc::Int(size as int)),
        ]);
    }
    Json::singleton("terms", Json::object(fields))
}

fn build_time_agg(op: &str) -> (r: Json)
    ensures
        r@ == time_agg(op@),
{
    Json::singleton(op, Json::singleton("field", Json::string("ingested_at")))
}

fn agg_text(body: &Json, name: &str) -> (r: Option<String>)
    ensures
        opt_text(r) == agg_text_of(body@, name@),
{
    match body.at("aggregations").at(name).at("value_as_string").as_str() {
        Some(s) => Some(s.to_owned()),
        None => None,
    }
}

/// Where the search engine is and as whom it is asked.
#[derive(Debug, Clone, PartialEq)]
pub struct EsRepository {
    base_url: String,
    index_pattern: String,
    username: String,
    password: String,
}

impl EsRepository {
    /// The address of the search engine.
    pub closed spec fn base(&self) -> Seq<char> {
        self.base_url@
    }

    /// The indices that searches run over.
    pub closed spec fn index(&self) -> Seq<char> {
        self.index_pattern@
    }

    /// The user as whom requests are made.
    pub closed spec fn user(&self) -> Seq<char> {
        self.username@
    }

    /// That user's password.
    pub closed spec fn secret(&self) -> Seq<char> {
        self.password@
    }

    /// The address that searches go to.
    pub open spec fn search_address(&self) -> Seq<char> {
        self.base() + "/"@ + self.index() + "/_search"@
    }

    /// The address that health checks go to.
    pub open spec fn health_address(&self) -> Seq<char> {
        self.base() + "/_cluster/health"@
    }

    /// Whether `req` is the request of this repository that carries `body`
    /// to the search address.
    pub open spec fn sends(&self, req: BackendRequest, body: Doc) -> bool {
        &&& req.url@ == self.search_address()
        &&& req.username@ == self.user()
        &&& req.password@ == self.secret()
        &&& req.body matches Some(b)
        &&& b@ == body
    }

    /// The repository for the search engine that `config` names.
    pub fn new(config: &Config) -> (r: Self)
        ensures
            r.base() == config.es_host@,
            r.index() == config.es_index_pattern@,
            r.user() == config.es_username@,
            r.secret() == config.es_password@,
    {
        EsRepository {
            base_url: config.es_host.clone(),
            index_pattern: config.es_index_pattern.clone(),
            username: config.es_username.clone(),
            password: config.es_password.clone(),
        }
    }

    /// The address that searches go to.
    pub fn search_url(&self) -> (r: String)
        ensures
            r@ == self.search_address(),
    {
        let mut r = join2(self.base_url.as_str(), "/");
        r.append(self.index_pattern.as_str());
        r.append("/_search");
        r
    }

    /// The address that health checks go to.
    pub fn health_url(&self) -> (r: String)
        ensures
            r@ == self.health_address(),
    {
        join2(self.base_url.as_str(), "/_cluster/health")
    }

    fn request(&self, body: Json) -> (r: BackendRequest)
        ensures
            self.sends(r, body@),
    {
        BackendRequest {
            url: self.search_url(),
            username: self.username.clone(),
            password: self.password.clone(),
            body: Some(body),
        }
    }

    /// What a reply to a request means: its document, or the failure of the
    /// search engine that it stands for.
    pub fn execute(reply: BackendReply) -> (r: Result<Json, AppError>)
        ensures
            match r {
                Ok(body) => failure_of(reply@) is None && reply@ == ReplyView::Document(body@),
                Err(e) => failure_of(reply@) == Some(e@),
            },
    {
        match reply {
            BackendReply::SendFailed(e) => Err(
                AppError::Elasticsearch(join2("Request failed: ", e.as_str())),
            ),
            BackendReply::BodyUnreadable(e) => Err(
                AppError::Elasticsearch(join2("Parse failed: ", e.as_str())),
            ),
            BackendReply::Document(body) => {
                let told = match body.get("error") {
                    Some(e) => Some(e.render()),
                    None => None,
                };
                match told {
                    Some(text) => Err(AppError::Elasticsearch(text)),
                    None => Ok(body),
                }
            },
        }
    }

    /// The request for one page of the articles that match `params`, with
    /// pages of at most `max_size`.
    pub fn search_request(&self, params: &NewsSearchParams, max_size: u64) -> (r: BackendRequest)
        requires
            page_offset(params@, max_size) <= u64::MAX,
        ensures
            self.sends(r, search_document(params@, max_size)),
    {
        self.request(search_body(params, max_size))
    }

    /// The articles of a reply to a search, and the number of matches that
    /// the search engine reports, which may be more than the articles of one
    /// page. The body of each record is decoded by `decode`; a record of
    /// which `decode` makes nothing is left out and does not fail the rest.
    pub fn search<F: Fn(String) -> Option<NewsArticle>>(reply: BackendReply, decode: &F) -> (r:
        Result<(Vec<NewsArticle>, u64), AppError>)
        requires
            forall|text: String| call_requires(*decode, (text,)),
        ensures
            match r {
                Ok((articles, total)) => {
                    &&& failure_of(reply@) is None
                    &&& reply@ matches ReplyView::Document(body)
                    &&& found_by(*decode, body, article_views(articles@))
                    &&& total == total_of(body)
                },
                Err(e) => failure_of(reply@) == Some(e@),
            },
    {
        match Self::execute(reply) {
            Ok(body) => {
                let total = parse_total(&body);
                let hits = decode_frames(hit_frames(&body), decode);
                let ghost found = hit_views(hits@);
                let articles = parse_hits(hits);
                proof {
                    assert(decoded_by(*decode, frames_of(body@), found));
                }
                Ok((articles, total))
            },
            Err(e) => Err(e),
        }
    }

    /// The request for the one article with the identifier `id`.
    pub fn find_by_id_request(&self, id: &str) -> (r: BackendRequest)
        ensures
            self.sends(r, find_by_id_document(id@)),
    {
        let mut values: Vec<Json> = Vec::new();
        push_item(&mut values, Json::string(id));
        proof {
            assert(docs_of(values@) =~= seq![Doc::Text(id@)]);
        }
        let mut fields: Vec<(String, Json)> = Vec::new();
        push_field(
            &mut fields,
            "query",
            Json::singleton("ids", Json::singleton("values", Json::array(values))),
        );
        push_field(&mut fields, "size", Json::UInt(1));
        proof {
            assert(fields_of(fields@) =~= find_by_id_document(id@)->Object_0);
        }
        self.request(Json::object(fields))
    }

    /// The first article of a reply, if it has one.
    pub fn find_by_id<F: Fn(String) -> Option<NewsArticle>>(reply: BackendReply, decode: &F) -> (r:
        Result<Option<NewsArticle>, AppError>)
        requires
            forall|text: String| call_requires(*decode, (text,)),
        ensures
            match r {
                Ok(first) => {
                    &&& failure_of(reply@) is None
                    &&& reply@ matches ReplyView::Document(body)
                    &&& exists|found: Seq<ArticleView>| #[trigger]
                        found_by(*decode, body, found) && opt_article(first) == first_of(found)
                },
                Err(e) => failure_of(reply@) == Some(e@),
            },
    {
        match Self::execute(reply) {
            Ok(body) => {
                let hits = decode_frames(hit_frames(&body), decode);
                let ghost decoded = hit_views(hits@);
                let mut articles = parse_hits(hits);
                let ghost found = article_views(articles@);
                proof {
                    assert(decoded_by(*decode, frames_of(body@), decoded));
                    assert(found_by(*decode, body@, found));
                }
                if articles.len() > 0 {
                    let first = articles.swap_remove(0);
                    proof {
                        assert(first@ == found[0]);
                    }
                    Ok(Some(first))
                } else {
                    Ok(None)
                }
            },
            Err(e) => Err(e),
        }
    }

    /// The request for the sources with their counts.
    pub fn aggregate_sources_request(&self) -> (r: BackendRequest)
        ensures
            self.sends(r, sources_document()),
    {
        let mut fields: Vec<(String, Json)> = Vec::new();
        push_field(&mut fields, "size", Json::UInt(0));
        push_field(&mut fields, "aggs", Json::singleton("sources", build_terms_agg("source", 100)));
        proof {
            assert(fields_of(fields@) =~= sources_document()->Object_0);
        }
        self.request(Json::object(fields))
    }

    /// The sources that a reply counts.
    pub fn aggregate_sources(reply: BackendReply) -> (r: Result<Vec<SourceInfo>, AppError>)
        ensures
            match r {
                Ok(sources) => {
                    &&& failure_of(reply@) is None
                    &&& reply@ matches ReplyView::Document(body)
                    &&& source_views(sources@) == sources_of(buckets_of(body, "sources"@))
                },
                Err(e) => failure_of(reply@) == Some(e@),
            },
    {
        match Self::execute(reply) {
            Ok(body) => Ok(parse_buckets(body.at("aggregations").at("sources").at("buckets"))),
            Err(e) => Err(e),
        }
    }

    /// The request for the figures on the whole collection.
    pub fn aggregate_stats_request(&self) -> (r: BackendRequest)
        ensures
            self.sends(r, stats_document()),
    {
        let mut aggs: Vec<(String, Json)> = Vec::new();
        push_field(&mut aggs, "sources", build_terms_agg("source", 100));
        push_field(&mut aggs, "date_min", build_time_agg("min"));
        push_field(&mut aggs, "date_max", build_time_agg("max"));
        let ghost aggs_model = fields_of(aggs@);
        proof {
            assert(aggs_model =~= seq![
                ("sources"@, terms_agg("source"@, 100)),
                ("date_min"@, time_agg("min"@)),
                ("date_max"@, time_agg("max"@)),
            ]);
        }
        let mut fields: Vec<(String, Json)> = Vec::new();
        push_field(&mut fields, "size", Json::UInt(0));
        push_field(&mut fields, "track_total_hits", Json::Bool(true));
        push_field(&mut fields, "aggs", Json::object(aggs));
        proof {
            assert(fields_of(fields@) =~= stats_document()->Object_0);
        }
        self.request(Json::object(fields))
    }

    /// The figures that a reply holds.
    pub fn aggregate_stats(reply: BackendReply) -> (r: Result<StatsData, AppError>)
        ensures
            match r {
                Ok(stats) => {
                    &&& failure_of(reply@) is None
                    &&& reply@ matches ReplyView::Document(body)
                    &&& stats@ == stats_of(body)
                },
                Err(e) => failure_of(reply@) == Some(e@),
            },
    {
        match Self::execute(reply) {
            Ok(body) => Ok(
                StatsData {
                    total_articles: parse_total(&body),
                    sources: parse_buckets(body.at("aggregations").at("sources").at("buckets")),
                    date_range: DateRange {
                        earliest: agg_text(&body, "date_min"),
                        latest: agg_text(&body, "date_max"),
                    },
                },
            ),
            Err(e) => Err(e),
        }
    }

    /// The request for what trends in the last seven days.
    pub fn trending_request(&self) -> (r: BackendRequest)
        ensures
            self.sends(r, trending_document()),
    {
        let mut aggs: Vec<(String, Json)> = Vec::new();
        push_field(&mut aggs, "entities", build_terms_agg("annotate.entities.word.keyword", 20));
        push_field(&mut aggs, "tags", build_terms_agg("tags", 20));
        let ghost aggs_model = fields_of(aggs@);
        proof {
            assert(aggs_model =~= seq![
                ("entities"@, terms_agg("annotate.entities.word.keyword"@, 20)),
                ("tags"@, terms_agg("tags"@, 20)),
            ]);
        }
        let mut fields: Vec<(String, Json)> = Vec::new();
        push_field(&mut fields, "size", Json::UInt(0));
        push_field(
            &mut fields,
            "query",
            Json::singleton(
                "range",
                Json::singleton("ingested_at", Json::singleton("gte", Json::string("now-7d/d"))),
            ),
        );
        push_field(&mut fields, "aggs", Json::object(aggs));
        proof {
            assert(fields_of(fields@) =~= trending_document()->Object_0);
        }
        self.request(Json::object(fields))
    }

    /// What trends according to a reply: its entities and then its tags,
    /// ranked by count, equal counts in that order.
    pub fn trending(reply: BackendReply) -> (r: Result<Vec<TrendingItem>, AppError>)
        ensures
            match r {
                Ok(items) => {
                    &&& failure_of(reply@) is None
                    &&& reply@ matches ReplyView::Document(body)
                    &&& trending_views(items@) == ranked(
                        trends_of(buckets_of(body, "entities"@), "entity"@) + trends_of(
                            buckets_of(body, "tags"@),
                            "tag"@,
                        ),
                    )
                },
                Err(e) => failure_of(reply@) == Some(e@),
            },
    {
        match Self::execute(reply) {
            Ok(body) => Ok(
                parse_trending(
                    body.at("aggregations").at("entities").at("buckets"),
                    body.at("aggregations").at("tags").at("buckets"),
                ),
            ),
            Err(e) => Err(e),
        }
    }

    /// The request that asks the cluster how it is.
    pub fn health_request(&self) -> (r: BackendRequest)
        ensures
            r.url@ == self.health_address(),
            r.username@ == self.user(),
            r.password@ == self.secret(),
            r.body is None,
    {
        BackendRequest {
            url: self.health_url(),
            username: self.username.clone(),
            password: self.password.clone(),
            body: None,
        }
    }

    /// The state that the cluster reports, `unknown` where the reply names
    /// none.
    pub fn health(reply: BackendReply) -> (r: Result<String, AppError>)
        ensures
            match r {
                Ok(status) => {
                    &&& reply@ matches ReplyView::Document(body)
                    &&& status@ == health_of(body)
                },
                Err(e) => health_failure_of(reply@) == Some(e@),
            },
    {
        match reply {
            BackendReply::SendFailed(e) => Err(
                AppError::Elasticsearch(join2("Health check failed: ", e.as_str())),
            ),
            BackendReply::BodyUnreadable(e) => Err(
                AppError::Elasticsearch(join2("Parse failed: ", e.as_str())),
            ),
            BackendReply::Document(body) => {
                match body.at("status").as_str() {
                    Some(s) => Ok(s.to_owned()),
                    None => Ok("unknown".to_owned()),
                }
            },
        }
    }
}

} // verus!
