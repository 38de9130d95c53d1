//! The operations of the gateway, and what each tier gets to see of their
//! results.

use vstd::prelude::*;
use vstd::string::StrSliceExecFns;
use crate::errors::AppError;
use crate::errors::ErrorView;
use crate::mapper::sources_of;
use crate::mapper::total_of;
use crate::mapper::trends_of;
use crate::models::Annotation;
use crate::models::AnnotationView;
use crate::models::article_views;
use crate::models::ArticleView;
use crate::models::NewsArticle;
use crate::models::NewsSearchParams;
use crate::models::source_views;
use crate::models::SourceInfo;
use crate::models::StatsData;
use crate::models::trending_views;
use crate::models::TrendingItem;
use crate::query::page_offset;
use crate::query::search_document;
use crate::repository::BackendReply;
use crate::repository::BackendRequest;
use crate::repository::buckets_of;
use crate::repository::EsRepository;
use crate::repository::failure_of;
use crate::repository::find_by_id_document;
use crate::repository::first_of;
use crate::repository::found_by;
use crate::repository::health_failure_of;
use crate::repository::health_of;
use crate::repository::ReplyView;
use crate::repository::sources_document;
use crate::repository::stats_document;
use crate::repository::stats_of;
use crate::repository::trending_document;
use crate::text::join2;
use crate::tier::SubscriptionTier;
use crate::trending::ranked;

verus! {

/// How many characters of an article a tier without full content sees.
pub const PREVIEW_LEN: usize = 200;

/// The preview of an article body: the body itself up to 200 characters,
/// else its first 200 characters and three dots.
pub open spec fn preview(content: Seq<char>) -> Seq<char> {
    if content.len() > PREVIEW_LEN {
        content.take(PREVIEW_LEN as int) + "..."@
    } else {
        content
    }
}

/// What `tier` sees of an article body.
pub open spec fn gated_content(content: Option<Seq<char>>, tier: SubscriptionTier) -> Option<
    Seq<char>,
> {
    match content {
        Some(c) => if tier.sees_full_content() {
            Some(c)
        } else {
            Some(preview(c))
        },
        None => None,
    }
}

/// What `tier` sees of an annotation: all of it, or all but the entities.
pub open spec fn gated_annotation(
    annotate: Option<AnnotationView>,
    tier: SubscriptionTier,
) -> Option<AnnotationView> {
    match annotate {
        Some(a) => if tier.sees_entities() {
            Some(a)
        } else {
            Some(AnnotationView { entities: None, ..a })
        },
        None => None,
    }
}

/// What `tier` sees of an article. Only the body and the entities are ever
/// held back.
pub open spec fn gated(article: ArticleView, tier: SubscriptionTier) -> ArticleView {
    ArticleView {
        content: gated_content(article.content, tier),
        annotate: gated_annotation(article.annotate, tier),
        ..article
    }
}

/// What `tier` sees of a list of articles.
pub open spec fn gated_all(articles: Seq<ArticleView>, tier: SubscriptionTier) -> Seq<ArticleView> {
    Seq::new(articles.len(), |i: int| gated(articles[i], tier))
}

/// The failure that answers a request for an article that does not exist.
pub open spec fn not_found(id: Seq<char>) -> ErrorView {
    ErrorView::NotFound("Article '"@ + id + "' not found"@)
}

/// A body of more than 200 characters is cut to exactly its first 200 and
/// three dots; a shorter one is shown as it is. Characters are counted, not
/// bytes.
pub proof fn law_preview_cuts_at_200(content: Seq<char>)
    ensures
        content.len() <= 200 ==> preview(content) == content,
        content.len() > 200 ==> {
            &&& preview(content).len() == 203
            &&& preview(content).take(200) == content.take(200)
            &&& preview(content).skip(200) == "..."@
        },
{
    reveal_strlit("...");
    if content.len() > 200 {
        assert(preview(content).take(200) =~= content.take(200));
        assert(preview(content).skip(200) =~= "..."@);
    }
}

/// Gating twice shows what gating once shows.
pub proof fn law_gating_is_idempotent(article: ArticleView, tier: SubscriptionTier)
    ensures
        gated(gated(article, tier), tier) == gated(article, tier),
{
    reveal_strlit("...");
    match article.content {
        Some(c) => {
            if c.len() > 200 {
                assert(preview(c).take(200) =~= c.take(200));
            }
        },
        None => {},
    }
}

/// The highest tier sees every article as it is.
pub proof fn law_mega_sees_all(article: ArticleView)
    ensures
        gated(article, SubscriptionTier::Mega) == article,
{
}

/// Full content shows bodies uncut, and entity access shows entities; a tier
/// without entity access never sees any. Sentiment, emotion and everything
/// outside the body and the entities are shown to every tier.
pub proof fn law_gating_by_tier(article: ArticleView, tier: SubscriptionTier)
    ensures
        tier.sees_full_content() ==> gated(article, tier).content == article.content,
        tier.sees_entities() ==> gated(article, tier).annotate == article.annotate,
        !tier.sees_entities() ==> (gated(article, tier).annotate matches Some(a)
            ==> a.entities is None),
        gated(article, SubscriptionTier::Basic).annotate matches Some(a) ==> a.entities is None,
        gated(article, tier).annotate is Some == article.annotate is Some,
        gated(article, tier).annotate matches Some(a) ==> {
            &&& a.sentiment == article.annotate->Some_0.sentiment
            &&& a.emotion == article.annotate->Some_0.emotion
            &&& a.status == article.annotate->Some_0.status
        },
        gated(article, tier) == (ArticleView {
            content: gated(article, tier).content,
            annotate: gated(article, tier).annotate,
            ..article
        }),
{
}

/// The operations of the gateway on top of one search engine.
#[derive(Debug, Clone, PartialEq)]
pub struct NewsService {
    repo: EsRepository,
}

impl NewsService {
    /// The search engine that the service asks.
    pub closed spec fn repo(&self) -> EsRepository {
        self.repo
    }

    /// The service on top of `repo`.
    pub fn new(repo: EsRepository) -> (r: Self)
        ensures
            r.repo() == repo,
    {
        NewsService { repo: repo }
    }

    /// What `tier` sees of `article`: the body cut to a preview unless the
    /// tier has full content, the entities taken out unless the tier has
    /// entity access, everything else as it is.
    pub fn gate_article(&self, article: NewsArticle, tier: &SubscriptionTier) -> (r: NewsArticle)
        ensures
            r@ == gated(article@, *tier),
    {
        let mut article = article;
        if !tier.has_full_content() {
            article.content = match article.content {
                Some(content) => {
                    let n = content.as_str().unicode_len();
                    if n > PREVIEW_LEN {
                        let mut cut = content.as_str().substring_char(0, PREVIEW_LEN).to_owned();
                        cut.append("...");
                        proof {
                            assert(content@.subrange(0, PREVIEW_LEN as int) =~= content@.take(
                                PREVIEW_LEN as int,
                            ));
                        }
                        Some(cut)
                    } else {
                        Some(content)
                    }
                },
                None => None,
            };
        }
        if !tier.has_entities() {
            article.annotate = match article.annotate {
                Some(a) => Some(
                    Annotation {
                        sentiment: a.sentiment,
                        emotion: a.emotion,
                        entities: None,
                        status: a.status,
                    },
                ),
                None => None,
            };
        }
        article
    }

    /// What `tier` sees of each of `articles`, in the same order.
    pub fn apply_content_gating(&self, articles: Vec<NewsArticle>, tier: &SubscriptionTier) -> (r:
        Vec<NewsArticle>)
        ensures
            article_views(r@) == gated_all(article_views(articles@), *tier),
    {
        let mut out: Vec<NewsArticle> = Vec::new();
        let ghost raw = articles@;
        let ghost all = article_views(articles@);
        for a in it: articles
            invariant
                it.seq() == raw,
                all == article_views(raw),
                out@.len() == it.index(),
                forall|i: int| 0 <= i < out@.len() ==> out@[i]@ == gated(all[i], *tier),
        {
            proof {
                assert(a@ == all[it.index() as int]);
            }
            let g = self.gate_article(a, tier);
            out.push(g);
        }
        proof {
            assert(article_views(out@) =~= gated_all(all, *tier));
        }
        out
    }

    /// The request for one page of the articles that match `params`. The
    /// page size is held to what `tier` may ask for before anything else is
    /// worked out from it.
    pub fn search_request(&self, params: &NewsSearchParams, tier: &SubscriptionTier) -> (r:
        BackendRequest)
        requires
            page_offset(params@, tier.page_cap()) <= u64::MAX,
        ensures
            self.repo().sends(r, search_document(params@, tier.page_cap())),
    {
        let max_size = tier.max_page_size();
        self.repo.search_request(params, max_size)
    }

    /// The articles of a reply to a search as `tier` sees them, and the
    /// number of matches that the search engine reports. The reply is read
    /// first, with `decode` for the bodies of its records, and what it holds
    /// is gated then.
    pub fn search<F: Fn(String) -> Option<NewsArticle>>(
        &self,
        reply: BackendReply,
        tier: &SubscriptionTier,
        decode: &F,
    ) -> (r: Result<(Vec<NewsArticle>, u64), AppError>)
        requires
            forall|text: String| call_requires(*decode, (text,)),
        ensures
            match r {
                Ok((articles, total)) => {
                    &&& failure_of(reply@) is None
                    &&& reply@ matches ReplyView::Document(body)
                    &&& exists|found: Seq<ArticleView>| #[trigger]
                        found_by(*decode, body, found) && article_views(articles@) == gated_all(
                            found,
                            *tier,
                        )
                    &&& total == total_of(body)
                },
                Err(e) => failure_of(reply@) == Some(e@),
            },
    {
        match EsRepository::search(reply, decode) {
            Ok((articles, total)) => Ok((self.apply_content_gating(articles, tier), total)),
            Err(e) => Err(e),
        }
    }

    /// The request for the one article with the identifier `id`.
    pub fn get_by_id_request(&self, id: &str) -> (r: BackendRequest)
        ensures
            self.repo().sends(r, find_by_id_document(id@)),
    {
        self.repo.find_by_id_request(id)
    }

    /// The article of a reply to the request for `id`, as `tier` sees it.
    /// Where the reply has none, the article does not exist.
    pub fn get_by_id<F: Fn(String) -> Option<NewsArticle>>(
        &self,
        id: &str,
        reply: BackendReply,
        tier: &SubscriptionTier,
        decode: &F,
    ) -> (r: Result<NewsArticle, AppError>)
        requires
            forall|text: String| call_requires(*decode, (text,)),
        ensures
            match r {
                Ok(article) => {
                    &&& failure_of(reply@) is None
                    &&& reply@ matches ReplyView::Document(body)
                    &&& exists|found: Seq<ArticleView>| #[trigger]
                        found_by(*decode, body, found) && found.len() > 0 && article@ == gated(
                            found[0],
                            *tier,
                        )
                },
                Err(e) => match failure_of(reply@) {
                    Some(failure) => e@ == failure,
                    None => {
                        &&& reply@ matches ReplyView::Document(body)
                        &&& found_by(*decode, body, Seq::empty())
                        &&& e@ == not_found(id@)
                    },
                },
            },
    {
        match EsRepository::find_by_id(reply, decode) {
            Ok(Some(article)) => Ok(self.gate_article(article, tier)),
            Ok(None) => {
                proof {
                    let body = reply@->Document_0;
                    let found = choose|found: Seq<ArticleView>| #[trigger]
                        found_by(*decode, body, found) && None::<ArticleView> == first_of(found);
                    assert(found =~= Seq::empty());
                }
                let mut m = join2("Article '", id);
                m.append("' not found");
                Err(AppError::NotFound(m))
            },
            Err(e) => Err(e),
        }
    }

    /// The request for the sources with their counts.
    pub fn list_sources_request(&self) -> (r: BackendRequest)
        ensures
            self.repo().sends(r, sources_document()),
    {
        self.repo.aggregate_sources_request()
    }

    /// The sources that a reply counts.
    pub fn list_sources(&self, reply: BackendReply) -> (r: Result<Vec<SourceInfo>, AppError>)
        ensures
            match r {
                Ok(sources) => {
                    &&& failure_of(reply@) is None
                    &&& reply@ matches ReplyView::Document(body)
                    &&& source_views(sources@) == sources_of(buckets_of(body, "sources"@))
                },
                Err(e) => failure_of(reply@) == Some(e@),
            },
    {
        EsRepository::aggregate_sources(reply)
    }

    /// The request for the figures on the whole collection.
    pub fn stats_request(&self) -> (r: BackendRequest)
        ensures
            self.repo().sends(r, stats_document()),
    {
        self.repo.aggregate_stats_request()
    }

    /// The figures that a reply holds.
    pub fn stats(&self, reply: BackendReply) -> (r: Result<StatsData, AppError>)
        ensures
            match r {
                Ok(stats) => {
                    &&& failure_of(reply@) is None
                    &&& reply@ matches ReplyView::Document(body)
                    &&& stats@ == stats_of(body)
                },
                Err(e) => failure_of(reply@) == Some(e@),
            },
    {
        EsRepository::aggregate_stats(reply)
    }

    /// The request for what trends.
    pub fn trending_request(&self) -> (r: BackendRequest)
        ensures
            self.repo().sends(r, trending_document()),
    {
        self.repo.trending_request()
    }

    /// What trends according to a reply.
    pub fn trending(&self, reply: BackendReply) -> (r: Result<Vec<TrendingItem>, AppError>)
        ensures
            match r {
                Ok(items) => {
                    &&& failure_of(reply@) is None
                    &&& reply@ matches ReplyView::Document(body)
                    &&& trending_views(items@) == ranked(
                        trends_of(buckets_of(body, "entities"@), "entity"@) + trends_of(
                            buckets_of(body, "tags"@),
                            "tag"@,
                        ),
                    )
                },
                Err(e) => failure_of(reply@) == Some(e@),
            },
    {
        EsRepository::trending(reply)
    }

    /// The request that asks the cluster how it is.
    pub fn health_request(&self) -> (r: BackendRequest)
        ensures
            r.url@ == self.repo().health_address(),
            r.username@ == self.repo().user(),
            r.password@ == self.repo().secret(),
            r.body is None,
    {
        self.repo.health_request()
    }

    /// The state that the cluster reports.
    pub fn health(&self, reply: BackendReply) -> (r: Result<String, AppError>)
        ensures
            match r {
                Ok(status) => {
                    &&& reply@ matches ReplyView::Document(body)
                    &&& status@ == health_of(body)
                },
                Err(e) => health_failure_of(reply@) == Some(e@),
            },
    {
        EsRepository::health(reply)
    }
}

} // verus!
