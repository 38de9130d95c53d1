//! What each operation answers, once the caller is known and the service
//! has come back.

use vstd::prelude::*;
use crate::errors::answers;
use crate::json::Doc;
use crate::errors::AppError;
use crate::errors::ErrorBody;
use crate::limiter::checked;
use crate::limiter::RateLimiter;
use crate::models::NewsArticle;
use crate::models::NewsSearchParams;
use crate::models::SourceInfo;
use crate::models::StatsData;
use crate::models::TrendingItem;
use crate::query::page_number;
use crate::query::page_offset;
use crate::query::page_size;
use crate::query::search_document;
use crate::repository::BackendRequest;
use crate::repository::find_by_id_document;
use crate::repository::sources_document;
use crate::repository::stats_document;
use crate::repository::trending_document;
use crate::response::ApiResponse;
use crate::response::header_views;
use crate::response::HeaderView;
use crate::response::HttpReply;
use crate::response::pages_for;
use crate::response::PaginationMeta;
use crate::response::ResponseBuilder;
use crate::response::with_rate_status;
use crate::service::NewsService;
use crate::text::opt_chars;
use crate::tier::SubscriptionTier;
use crate::tier::tier_of_label;
use crate::tier::uppercase_of;

verus! {

/// The answer to a request: the data asked for, or why there is none.
#[derive(Debug, Clone, PartialEq)]
pub enum Answer<T> {
    Success(HttpReply<ApiResponse<T>>),
    Failure(HttpReply<ErrorBody>),
}

/// What the health check reports.
#[derive(Debug, Clone, PartialEq)]
pub struct HealthReport {
    pub status: String,
    pub version: String,
    pub elasticsearch: String,
}

/// The headers of a successful answer: where the caller's quota stands.
pub open spec fn rate_headers(
    limit: u64,
    remaining: u64,
    reset_at: Seq<char>,
    tier: SubscriptionTier,
) -> Seq<HeaderView> {
    with_rate_status(Seq::empty(), limit, remaining, reset_at, tier.name_text())
}

/// Whether `answer` is the answer to what came back as `outcome`: a failure
/// answers as [`answers`] says; data is sent with status 200, with `meta`,
/// and with the caller's quota in the headers.
pub open spec fn replies<T>(
    answer: Answer<T>,
    outcome: Result<T, AppError>,
    meta: Option<PaginationMeta>,
    headers: Seq<HeaderView>,
) -> bool {
    match outcome {
        Ok(data) => {
            &&& answer matches Answer::Success(reply)
            &&& reply.status == 200
            &&& header_views(reply.headers@) == headers
            &&& reply.body.success
            &&& reply.body.data == data
            &&& reply.body.meta == meta
        },
        Err(e) => {
            &&& answer matches Answer::Failure(reply)
            &&& answers(reply, e@)
        },
    }
}

/// The tier that a plan label stands for; the lowest where there is none.
pub open spec fn tier_of(label: Option<Seq<char>>) -> SubscriptionTier {
    match label {
        Some(l) => tier_of_label(uppercase_of(l)),
        None => SubscriptionTier::Basic,
    }
}

/// The user that a name stands for; `anonymous` where there is none.
pub open spec fn user_of(name: Option<Seq<char>>) -> Seq<char> {
    match name {
        Some(n) => n,
        None => "anonymous"@,
    }
}

/// The tier of a caller, from the plan label that the request carries. A
/// request without a label is on the lowest tier.
pub fn get_tier(header: Option<&str>) -> (tier: SubscriptionTier)
    ensures
        tier == tier_of(opt_chars(header)),
{
    match header {
        Some(label) => SubscriptionTier::from_header(label),
        None => SubscriptionTier::Basic,
    }
}

/// The user of a caller, from the name that the request carries. A request
/// without a name is counted as `anonymous`.
pub fn get_user(header: Option<&str>) -> (user: String)
    ensures
        user@ == user_of(opt_chars(header)),
{
    match header {
        Some(name) => name.to_owned(),
        None => "anonymous".to_owned(),
    }
}

/// Finds the caller's tier and user and takes the request at the time that
/// the system clock shows. A request that is let through comes with the
/// tier, the quota and what is left of it.
pub fn check_rate_limit(
    tier_header: Option<&str>,
    user_header: Option<&str>,
    limiter: &mut RateLimiter,
) -> (r: Result<(SubscriptionTier, u64, u64), AppError>)
    ensures
        r matches Ok(granted) ==> granted.0 == tier_of(opt_chars(tier_header)),
        checked(
            *old(limiter),
            *final(limiter),
            user_of(opt_chars(user_header)),
            tier_of(opt_chars(tier_header)),
            match r {
                Ok(granted) => Ok((granted.1, granted.2)),
                Err(e) => Err(e),
            },
        ),
{
    let tier = get_tier(tier_header);
    let user = get_user(user_header);
    match limiter.check(user.as_str(), &tier) {
        Ok((limit, left)) => Ok((tier, limit, left)),
        Err(e) => Err(e),
    }
}

/// What a caller asks the gateway for.
#[derive(Debug, Clone, Copy, PartialEq)]
pub enum Operation<'a> {
    /// One page of the articles that match.
    Search(&'a NewsSearchParams),
    /// The one article with this identifier.
    Article(&'a str),
    /// The sources with their counts.
    Sources,
    /// The figures on the whole collection.
    Stats,
    /// What trends.
    Trending,
}

/// What is next for a request once the rate accounting has spoken: it is
/// answered at once, or the search engine is asked on its behalf.
#[derive(Debug, PartialEq)]
pub enum Next {
    /// The request was refused; this is the answer, and the search engine
    /// is not asked.
    Answer(HttpReply<ErrorBody>),
    /// The request was let through as one of `tier`, with `limit` as its
    /// quota and `remaining` left of it; `request` goes to the search
    /// engine.
    Ask { request: BackendRequest, tier: SubscriptionTier, limit: u64, remaining: u64 },
}

/// The document that the search engine is sent for `op` on behalf of a
/// caller of `tier`.
pub open spec fn document_for(op: Operation, tier: SubscriptionTier) -> Doc {
    match op {
        Operation::Search(params) => search_document(params@, tier.page_cap()),
        Operation::Article(id) => find_by_id_document(id@),
        Operation::Sources => sources_document(),
        Operation::Stats => stats_document(),
        Operation::Trending => trending_document(),
    }
}

/// Whether the request for `op` can be written for a caller of `tier`: the
/// start of the page of a search has to fit 64 bits.
pub open spec fn can_ask(op: Operation, tier: SubscriptionTier) -> bool {
    op matches Operation::Search(params) ==> page_offset(params@, tier.page_cap()) <= u64::MAX
}

/// Decides what is next for a request for `op`, given what the rate
/// accounting made of it. A request that was refused, or that failed there,
/// is answered with that failure and never reaches the search engine. One
/// that was let through is handed on: with the tier, the quota and what is
/// left of it, and with the request that `service` makes of `op` for that
/// tier.
pub fn begin(
    checked: Result<(SubscriptionTier, u64, u64), AppError>,
    op: Operation,
    service: &NewsService,
) -> (r: Next)
    requires
        checked matches Ok(granted) ==> can_ask(op, granted.0),
    ensures
        match checked {
            Ok(granted) => {
                &&& r matches Next::Ask { request, tier, limit, remaining }
                &&& tier == granted.0
                &&& limit == granted.1
                &&& remaining == granted.2
                &&& service.repo().sends(request, document_for(op, granted.0))
            },
            Err(e) => {
                &&& r matches Next::Answer(reply)
                &&& answers(reply, e@)
            },
        },
{
    match checked {
        Ok((tier, limit, remaining)) => {
            let request = match op {
                Operation::Search(params) => service.search_request(params, &tier),
                Operation::Article(id) => service.get_by_id_request(id),
                Operation::Sources => service.list_sources_request(),
                Operation::Stats => service.stats_request(),
                Operation::Trending => service.trending_request(),
            };
            Next::Ask { request: request, tier: tier, limit: limit, remaining: remaining }
        },
        Err(e) => Next::Answer(e.to_response()),
    }
}

/// The answer to what came back from the service: the data with the
/// caller's quota in the headers, or the failure.
pub fn respond<T>(
    outcome: Result<T, AppError>,
    tier: &SubscriptionTier,
    limit: u64,
    remaining: u64,
    reset_at: &str,
) -> (r: Answer<T>)
    ensures
        replies(r, outcome, None, rate_headers(limit, remaining, reset_at@, *tier)),
{
    match outcome {
        Ok(data) => {
            let plain = ResponseBuilder::ok(data);
            proof {
                assert(header_views(plain.headers@) =~= Seq::<HeaderView>::empty());
            }
            Answer::Success(
                ResponseBuilder::with_rate_headers(plain, limit, remaining, reset_at, tier.name()),
            )
        },
        Err(e) => Answer::Failure(e.to_response()),
    }
}

/// How the health check answers: the service is up, and the search engine
/// is in the state it reports, `unavailable` where it could not be asked.
pub fn health(status: Result<String, AppError>) -> (r: HttpReply<ApiResponse<HealthReport>>)
    ensures
        r.status == 200,
        r.headers@.len() == 0,
        r.body.success,
        r.body.meta is None,
        r.body.data.status@ == "ok"@,
        r.body.data.version@ == "1.1.0"@,
        r.body.data.elasticsearch@ == match status {
            Ok(s) => s@,
            Err(_) => "unavailable"@,
        },
{
    let state = match status {
        Ok(s) => s,
        Err(_) => "unavailable".to_owned(),
    };
    ResponseBuilder::ok(
        HealthReport { status: "ok".to_owned(), version: "1.1.0".to_owned(), elasticsearch: state },
    )
}

/// How a search answers: the page of articles, with the page number and the
/// page size that were in force, the number of matches and of pages, and
/// the caller's quota in the headers; or the failure.
pub fn search_news(
    outcome: Result<(Vec<NewsArticle>, u64), AppError>,
    params: &NewsSearchParams,
    tier: &SubscriptionTier,
    limit: u64,
    remaining: u64,
    reset_at: &str,
) -> (r: Answer<Vec<NewsArticle>>)
    ensures
        match outcome {
            Ok(found) => replies(
                r,
                Ok(found.0),
                Some(
                    PaginationMeta {
                        page: page_number(params@),
                        size: page_size(params@, tier.page_cap()),
                        total: found.1,
                        total_pages: pages_for(found.1, page_size(params@, tier.page_cap())) as u64,
                    },
                ),
                rate_headers(limit, remaining, reset_at@, *tier),
            ),
            Err(e) => replies(r, Err(e), None, Seq::empty()),
        },
{
    match outcome {
        Ok((articles, total)) => {
            let page = params.page_number();
            let size = params.page_size(tier.max_page_size());
            let plain = ResponseBuilder::ok_paged(articles, page, size, total);
            proof {
                assert(header_views(plain.headers@) =~= Seq::<HeaderView>::empty());
            }
            Answer::Success(
                ResponseBuilder::with_rate_headers(plain, limit, remaining, reset_at, tier.name()),
            )
        },
        Err(e) => Answer::Failure(e.to_response()),
    }
}

/// How the request for one article answers.
pub fn get_article(
    outcome: Result<NewsArticle, AppError>,
    tier: &SubscriptionTier,
    limit: u64,
    remaining: u64,
    reset_at: &str,
) -> (r: Answer<NewsArticle>)
    ensures
        replies(r, outcome, None, rate_headers(limit, remaining, reset_at@, *tier)),
{
    respond(outcome, tier, limit, remaining, reset_at)
}

/// How the request for the sources answers.
pub fn list_sources(
    outcome: Result<Vec<SourceInfo>, AppError>,
    tier: &SubscriptionTier,
    limit: u64,
    remaining: u64,
    reset_at: &str,
) -> (r: Answer<Vec<SourceInfo>>)
    ensures
        replies(r, outcome, None, rate_headers(limit, remaining, reset_at@, *tier)),
{
    respond(outcome, tier, limit, remaining, reset_at)
}

/// How the request for the figures on the collection answers.
pub fn get_stats(
    outcome: Result<StatsData, AppError>,
    tier: &SubscriptionTier,
    limit: u64,
    remaining: u64,
    reset_at: &str,
) -> (r: Answer<StatsData>)
    ensures
        replies(r, outcome, None, rate_headers(limit, remaining, reset_at@, *tier)),
{
    respond(outcome, tier, limit, remaining, reset_at)
}

/// How the request for what trends answers.
pub fn get_trending(
    outcome: Result<Vec<TrendingItem>, AppError>,
    tier: &SubscriptionTier,
    limit: u64,
    remaining: u64,
    reset_at: &str,
) -> (r: Answer<Vec<TrendingItem>>)
    ensures
        replies(r, outcome, None, rate_headers(limit, remaining, reset_at@, *tier)),
{
    respond(outcome, tier, limit, remaining, reset_at)
}

} // verus!
