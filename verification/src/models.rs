//! The values that travel through the gateway, each with its model.

use vstd::prelude::*;
use crate::text::opt_text;
use crate::text::texts;

verus! {

/// A binary64 number, held by its IEEE-754 bit pattern. The gateway hands
/// scores on and never computes with them.
#[derive(Debug, Clone, Copy, PartialEq, Eq, Structural)]
pub struct Score {
    pub bits: u64,
}

/// Sentiment found in an article.
#[derive(Debug, Clone, PartialEq)]
pub struct SentimentData {
    pub label: Option<String>,
    pub score: Option<Score>,
}

/// Emotion found in an article.
#[derive(Debug, Clone, PartialEq)]
pub struct EmotionData {
    pub label: Option<String>,
    pub score: Option<Score>,
}

/// A named entity found in an article, with the span it was found at.
#[derive(Debug, Clone, PartialEq)]
pub struct EntityData {
    pub word: Option<String>,
    pub entity_group: Option<String>,
    pub score: Option<Score>,
    pub start: Option<i64>,
    pub end: Option<i64>,
}

/// What language analysis found in an article.
#[derive(Debug, Clone, PartialEq)]
pub struct Annotation {
    pub sentiment: Option<SentimentData>,
    pub emotion: Option<EmotionData>,
    pub entities: Option<Vec<EntityData>>,
    pub status: Option<String>,
}

/// A news article. Upstream documents differ, so everything but the
/// identifier may be missing.
#[derive(Debug, Clone, PartialEq)]
pub struct NewsArticle {
    pub id: String,
    pub title: Option<String>,
    pub content: Option<String>,
    pub author: Option<String>,
    pub source: Option<String>,
    pub url: Option<String>,
    pub headline_image: Option<String>,
    pub headline_caption: Option<String>,
    pub publish_date: Option<String>,
    pub publish_date_timestamp: Option<i64>,
    pub tags: Option<Vec<String>>,
    pub extracted_at: Option<String>,
    pub ingested_at: Option<String>,
    pub annotate: Option<Annotation>,
}

/// A news source and the number of its articles.
#[derive(Debug, Clone, PartialEq)]
pub struct SourceInfo {
    pub name: String,
    pub doc_count: u64,
}

/// The ingestion times of the oldest and the newest article.
#[derive(Debug, Clone, PartialEq)]
pub struct DateRange {
    pub earliest: Option<String>,
    pub latest: Option<String>,
}

/// Figures on the whole collection.
#[derive(Debug, Clone, PartialEq)]
pub struct StatsData {
    pub total_articles: u64,
    pub sources: Vec<SourceInfo>,
    pub date_range: DateRange,
}

/// A keyword that many recent articles share. `category` is `entity` or
/// `tag`.
#[derive(Debug, Clone, PartialEq)]
pub struct TrendingItem {
    pub keyword: String,
    pub category: String,
    pub count: u64,
}

/// What a caller may ask of a search.
#[derive(Debug, Clone, PartialEq)]
pub struct NewsSearchParams {
    pub q: Option<String>,
    pub source: Option<String>,
    pub tag: Option<String>,
    pub sentiment: Option<String>,
    pub emotion: Option<String>,
    pub author: Option<String>,
    pub date_from: Option<String>,
    pub date_to: Option<String>,
    pub sort: Option<String>,
    pub page: Option<u64>,
    pub size: Option<u64>,
}

/// Model of [`SentimentData`] and of [`EmotionData`].
pub ghost struct ScoredLabel {
    pub label: Option<Seq<char>>,
    pub score: Option<Score>,
}

/// Model of [`EntityData`].
pub ghost struct EntityView {
    pub word: Option<Seq<char>>,
    pub entity_group: Option<Seq<char>>,
    pub score: Option<Score>,
    pub start: Option<i64>,
    pub end: Option<i64>,
}

/// Model of [`Annotation`].
pub ghost struct AnnotationView {
    pub sentiment: Option<ScoredLabel>,
    pub emotion: Option<ScoredLabel>,
    pub entities: Option<Seq<EntityView>>,
    pub status: Option<Seq<char>>,
}

/// Model of [`NewsArticle`].
pub ghost struct ArticleView {
    pub id: Seq<char>,
    pub title: Option<Seq<char>>,
    pub content: Option<Seq<char>>,
    pub author: Option<Seq<char>>,
    pub source: Option<Seq<char>>,
    pub url: Option<Seq<char>>,
    pub headline_image: Option<Seq<char>>,
    pub headline_caption: Option<Seq<char>>,
    pub publish_date: Option<Seq<char>>,
    pub publish_date_timestamp: Option<i64>,
    pub tags: Option<Seq<Seq<char>>>,
    pub extracted_at: Option<Seq<char>>,
    pub ingested_at: Option<Seq<char>>,
    pub annotate: Option<AnnotationView>,
}

/// Model of [`SourceInfo`].
pub ghost struct SourceView {
    pub name: Seq<char>,
    pub doc_count: u64,
}

/// Model of [`DateRange`].
pub ghost struct DateRangeView {
    pub earliest: Option<Seq<char>>,
    pub latest: Option<Seq<char>>,
}

/// Model of [`StatsData`].
pub ghost struct StatsView {
    pub total_articles: u64,
    pub sources: Seq<SourceView>,
    pub date_range: DateRangeView,
}

/// Model of [`TrendingItem`].
pub ghost struct TrendingView {
    pub keyword: Seq<char>,
    pub category: Seq<char>,
    pub count: u64,
}

/// Model of [`NewsSearchParams`].
pub ghost struct SearchView {
    pub q: Option<Seq<char>>,
    pub source: Option<Seq<char>>,
    pub tag: Option<Seq<char>>,
    pub sentiment: Option<Seq<char>>,
    pub emotion: Option<Seq<char>>,
    pub author: Option<Seq<char>>,
    pub date_from: Option<Seq<char>>,
    pub date_to: Option<Seq<char>>,
    pub sort: Option<Seq<char>>,
    pub page: Option<u64>,
    pub size: Option<u64>,
}

impl View for SentimentData {
    type V = ScoredLabel;

    open spec fn view(&self) -> ScoredLabel {
        ScoredLabel { label: opt_text(self.label), score: self.score }
    }
}

impl View for EmotionData {
    type V = ScoredLabel;

    open spec fn view(&self) -> ScoredLabel {
        ScoredLabel { label: opt_text(self.label), score: self.score }
    }
}

impl View for EntityData {
    type V = EntityView;

    open spec fn view(&self) -> EntityView {
        EntityView {
            word: opt_text(self.word),
            entity_group: opt_text(self.entity_group),
            score: self.score,
            start: self.start,
            end: self.end,
        }
    }
}

/// The models of a list of entities.
pub open spec fn entity_views(v: Seq<EntityData>) -> Seq<EntityView> {
    Seq::new(v.len(), |i: int| v[i]@)
}

impl View for Annotation {
    type V = AnnotationView;

    open spec fn view(&self) -> AnnotationView {
        AnnotationView {
            sentiment: match self.sentiment {
                Some(s) => Some(s@),
                None => None,
            },
            emotion: match self.emotion {
                Some(e) => Some(e@),
                None => None,
            },
            entities: match self.entities {
                Some(v) => Some(entity_views(v@)),
                None => None,
            },
            status: opt_text(self.status),
        }
    }
}

impl View for NewsArticle {
    type V = ArticleView;

    open spec fn view(&self) -> ArticleView {
        ArticleView {
            id: self.id@,
            title: opt_text(self.title),
            content: opt_text(self.content),
            author: opt_text(self.author),
            source: opt_text(self.source),
            url: opt_text(self.url),
            headline_image: opt_text(self.headline_image),
            headline_caption: opt_text(self.headline_caption),
            publish_date: opt_text(self.publish_date),
            publish_date_timestamp: self.publish_date_timestamp,
            tags: match self.tags {
                Some(v) => Some(texts(v@)),
                None => None,
            },
            extracted_at: opt_text(self.extracted_at),
            ingested_at: opt_text(self.ingested_at),
            annotate: match self.annotate {
                Some(a) => Some(a@),
                None => None,
            },
        }
    }
}

/// The models of a list of articles.
pub open spec fn article_views(v: Seq<NewsArticle>) -> Seq<ArticleView> {
    Seq::new(v.len(), |i: int| v[i]@)
}

impl View for SourceInfo {
    type V = SourceView;

    open spec fn view(&self) -> SourceView {
        SourceView { name: self.name@, doc_count: self.doc_count }
    }
}

/// The models of a list of sources.
pub open spec fn source_views(v: Seq<SourceInfo>) -> Seq<SourceView> {
    Seq::new(v.len(), |i: int| v[i]@)
}

impl View for DateRange {
    type V = DateRangeView;

    open spec fn view(&self) -> DateRangeView {
        DateRangeView { earliest: opt_text(self.earliest), latest: opt_text(self.latest) }
    }
}

impl View for StatsData {
    type V = StatsView;

    open spec fn view(&self) -> StatsView {
        StatsView {
            total_articles: self.total_articles,
            sources: source_views(self.sources@),
            date_range: self.date_range@,
        }
    }
}

impl View for TrendingItem {
    type V = TrendingView;

    open spec fn view(&self) -> TrendingView {
        TrendingView { keyword: self.keyword@, category: self.category@, count: self.count }
    }
}

/// The models of a list of trending items.
pub open spec fn trending_views(v: Seq<TrendingItem>) -> Seq<TrendingView> {
    Seq::new(v.len(), |i: int| v[i]@)
}

impl View for NewsSearchParams {
    type V = SearchView;

    open spec fn view(&self) -> SearchView {
        SearchView {
            q: opt_text(self.q),
            source: opt_text(self.source),
            tag: opt_text(self.tag),
            sentiment: opt_text(self.sentiment),
            emotion: opt_text(self.emotion),
            author: opt_text(self.author),
            date_from: opt_text(self.date_from),
            date_to: opt_text(self.date_to),
            sort: opt_text(self.sort),
            page: self.page,
            size: self.size,
        }
    }
}

} // verus!
