//! Reading what the search engine answers: hits, totals and aggregation
//! buckets.

use vstd::prelude::*;
use crate::json::Doc;
use crate::json::docs_of;
use crate::json::Json;
use crate::json::json_text;
use crate::lists::lemma_somes_len;
use crate::lists::lemma_somes_push;
use crate::lists::somes;
use crate::models::article_views;
use crate::models::ArticleView;
use crate::models::NewsArticle;
use crate::models::source_views;
use crate::models::SourceInfo;
use crate::models::SourceView;
use crate::models::trending_views;
use crate::models::TrendingItem;
use crate::models::TrendingView;

verus! {

/// One record of a search reply as it came: its identifier, and its body
/// written out as a document.
#[derive(Debug, Clone, PartialEq)]
pub struct HitFrame {
    pub id: String,
    pub source: String,
}

/// Model of [`HitFrame`].
pub ghost struct FrameView {
    pub id: Seq<char>,
    pub source: Seq<char>,
}

impl View for HitFrame {
    type V = FrameView;

    open spec fn view(&self) -> FrameView {
        FrameView { id: self.id@, source: self.source@ }
    }
}

/// The models of a list of records as they came.
pub open spec fn frame_views(v: Seq<HitFrame>) -> Seq<FrameView> {
    Seq::new(v.len(), |i: int| v[i]@)
}

/// One record of a search reply: its identifier, and its body where that
/// has the shape of an article.
#[derive(Debug, Clone, PartialEq)]
pub struct Hit {
    pub id: String,
    pub article: Option<NewsArticle>,
}

/// Model of [`Hit`].
pub ghost struct HitView {
    pub id: Seq<char>,
    pub article: Option<ArticleView>,
}

/// The model of an article that may not be there.
pub open spec fn opt_article(a: Option<NewsArticle>) -> Option<ArticleView> {
    match a {
        Some(a) => Some(a@),
        None => None,
    }
}

impl View for Hit {
    type V = HitView;

    open spec fn view(&self) -> HitView {
        HitView { id: self.id@, article: opt_article(self.article) }
    }
}

/// The models of a list of records.
pub open spec fn hit_views(v: Seq<Hit>) -> Seq<HitView> {
    Seq::new(v.len(), |i: int| v[i]@)
}

/// One record as it came in a reply: the text of its member `_id`, the
/// empty identifier where it has none, and its member `_source`, written
/// out.
pub open spec fn frame_of(record: Doc) -> FrameView {
    FrameView {
        id: match record.at("_id"@).as_str() {
            Some(id) => id,
            None => Seq::empty(),
        },
        source: json_text(record.at("_source"@)),
    }
}

/// The records of a reply to a search, in order; none where the reply has
/// no list of them.
pub open spec fn frames_of(reply: Doc) -> Seq<FrameView> {
    match reply.at("hits"@).at("hits"@).as_array() {
        Some(records) => Seq::new(records.len(), |i: int| frame_of(records[i])),
        None => Seq::empty(),
    }
}

/// Whether `article` is something that `decode` makes of a text with the
/// characters `source`.
pub open spec fn made_of<F: Fn(String) -> Option<NewsArticle>>(
    decode: F,
    source: Seq<char>,
    article: Option<ArticleView>,
) -> bool {
    exists|text: String, out: Option<NewsArticle>|
        text@ == source && #[trigger] call_ensures(decode, (text,), out) && opt_article(out)
            == article
}

/// Whether `hit` is the record `frame` with its body decoded by `decode`.
pub open spec fn decoded_one<F: Fn(String) -> Option<NewsArticle>>(
    decode: F,
    frame: FrameView,
    hit: HitView,
) -> bool {
    hit.id == frame.id && made_of(decode, frame.source, hit.article)
}

/// Whether `hits` are the records `frames` with their bodies decoded by
/// `decode`: as many, in the same order, each with its identifier.
pub open spec fn decoded_by<F: Fn(String) -> Option<NewsArticle>>(
    decode: F,
    frames: Seq<FrameView>,
    hits: Seq<HitView>,
) -> bool {
    &&& hits.len() == frames.len()
    &&& forall|i: int| 0 <= i < frames.len() ==> #[trigger] decoded_one(decode, frames[i], hits[i])
}

/// The article of one record: its body under the record's identifier;
/// nothing for a record whose body is no article.
pub open spec fn hit_article(h: HitView) -> Option<ArticleView> {
    match h.article {
        Some(a) => Some(ArticleView { id: h.id, ..a }),
        None => None,
    }
}

/// The articles of a list of records: those of the records that have one, in
/// the order of the records.
pub open spec fn articles_of(hits: Seq<HitView>) -> Seq<ArticleView> {
    somes(Seq::new(hits.len(), |i: int| hit_article(hits[i])))
}

/// The number of matches that a reply reports; zero where it reports none.
pub open spec fn total_of(reply: Doc) -> u64 {
    match reply.at("hits"@).at("total"@).at("value"@).as_u64() {
        Some(n) => n,
        None => 0,
    }
}

/// The source that one bucket stands for: its key and its count, where it
/// has both.
pub open spec fn bucket_source(b: Doc) -> Option<SourceView> {
    match (b.at("key"@).as_str(), b.at("doc_count"@).as_u64()) {
        (Some(name), Some(n)) => Some(SourceView { name: name, doc_count: n }),
        _ => None,
    }
}

/// The sources of a list of buckets; none where `buckets` is no list.
pub open spec fn sources_of(buckets: Doc) -> Seq<SourceView> {
    match buckets.as_array() {
        Some(items) => somes(Seq::new(items.len(), |i: int| bucket_source(items[i]))),
        None => Seq::empty(),
    }
}

/// The trending item that one bucket stands for.
pub open spec fn bucket_trend(b: Doc, category: Seq<char>) -> Option<TrendingView> {
    match (b.at("key"@).as_str(), b.at("doc_count"@).as_u64()) {
        (Some(key), Some(n)) => Some(TrendingView { keyword: key, category: category, count: n }),
        _ => None,
    }
}

/// The trending items of a list of buckets, each under `category`.
pub open spec fn trends_of(buckets: Doc, category: Seq<char>) -> Seq<TrendingView> {
    match buckets.as_array() {
        Some(items) => somes(Seq::new(items.len(), |i: int| bucket_trend(items[i], category))),
        None => Seq::empty(),
    }
}

/// The records of a reply to a search as they came.
pub fn hit_frames(reply: &Json) -> (r: Vec<HitFrame>)
    ensures
        frame_views(r@) == frames_of(reply@),
{
    let mut out: Vec<HitFrame> = Vec::new();
    match reply.at("hits").at("hits").as_array() {
        Some(records) => {
            let ghost all = docs_of(records@);
            let mut i: usize = 0;
            while i < records.len()
                invariant
                    i <= records.len(),
                    all == docs_of(records@),
                    out@.len() == i,
                    forall|k: int| 0 <= k < i ==> out@[k]@ == frame_of(all[k]),
                decreases records.len() - i,
            {
                let record = &records[i];
                proof {
                    assert(record@ == all[i as int]);
                }
                let id = match record.at("_id").as_str() {
                    Some(id) => id.to_owned(),
                    None => String::new(),
                };
                let source = record.at("_source").render();
                out.push(HitFrame { id: id, source: source });
                i += 1;
            }
            proof {
                assert(frame_views(out@) =~= frames_of(reply@));
            }
        },
        None => {
            proof {
                assert(frame_views(out@) =~= frames_of(reply@));
            }
        },
    }
    out
}

/// Decodes the body of each of `frames` with `decode`.
pub fn decode_frames<F: Fn(String) -> Option<NewsArticle>>(frames: Vec<HitFrame>, decode: &F) -> (r:
    Vec<Hit>)
    requires
        forall|text: String| call_requires(*decode, (text,)),
    ensures
        decoded_by(*decode, frame_views(frames@), hit_views(r@)),
{
    let mut out: Vec<Hit> = Vec::new();
    let ghost raw = frames@;
    for frame in it: frames
        invariant
            it.seq() == raw,
            out@.len() == it.index(),
            forall|text: String| call_requires(*decode, (text,)),
            forall|i: int|
                0 <= i < out@.len() ==> #[trigger] decoded_one(*decode, raw[i]@, out@[i]@),
    {
        let ghost n = it.index() as int;
        let ghost before = out@;
        proof {
            assert(frame == raw[n]);
        }
        let HitFrame { id, source } = frame;
        let ghost text = source;
        let article = decode(source);
        let hit = Hit { id: id, article: article };
        proof {
            assert(call_ensures(*decode, (text,), article));
            assert(made_of(*decode, raw[n]@.source, hit@.article));
            assert(decoded_one(*decode, raw[n]@, hit@));
        }
        out.push(hit);
        proof {
            assert forall|i: int| 0 <= i < out@.len() implies #[trigger] decoded_one(
                *decode,
                raw[i]@,
                out@[i]@,
            ) by {
                if i < n {
                    assert(out@[i] == before[i]);
                    assert(decoded_one(*decode, raw[i]@, before[i]@));
                }
            }
        }
    }
    proof {
        let frames_model = frame_views(raw);
        let hits_model = hit_views(out@);
        assert forall|i: int| 0 <= i < frames_model.len() implies #[trigger] decoded_one(
            *decode,
            frames_model[i],
            hits_model[i],
        ) by {
            assert(decoded_one(*decode, raw[i]@, out@[i]@));
        }
    }
    out
}

/// The articles of the records of a reply. A record whose body is no
/// article is left out; the others keep their order.
pub fn parse_hits(hits: Vec<Hit>) -> (r: Vec<NewsArticle>)
    ensures
        article_views(r@) == articles_of(hit_views(hits@)),
        r@.len() <= hits@.len(),
{
    let mut out: Vec<NewsArticle> = Vec::new();
    let ghost all = hit_views(hits@);
    let ghost raw = hits@;
    proof {
        assert(article_views(out@) =~= somes(Seq::new(0, |i: int| hit_article(all[i]))));
    }
    for hit in it: hits
        invariant
            it.seq() == raw,
            all == hit_views(raw),
            article_views(out@) == somes(
                Seq::new(it.index() as nat, |i: int| hit_article(all[i])),
            ),
    {
        let ghost n = it.index();
        let ghost before = Seq::new(n as nat, |i: int| hit_article(all[i]));
        let ghost old_out = article_views(out@);
        proof {
            assert(hit@ == all[n]);
            lemma_somes_push(before, hit_article(all[n]));
            assert(before.push(hit_article(all[n])) =~= Seq::new(
                (n + 1) as nat,
                |i: int| hit_article(all[i]),
            ));
        }
        match hit.article {
            Some(a) => {
                let mut a = a;
                a.id = hit.id;
                out.push(a);
                proof {
                    assert(article_views(out@) =~= old_out.push(hit_article(all[n])->Some_0));
                }
            },
            None => {},
        }
    }
    proof {
        assert(Seq::new(raw.len(), |i: int| hit_article(all[i])) =~= Seq::new(
            all.len(),
            |i: int| hit_article(all[i]),
        ));
        lemma_somes_len(Seq::new(all.len(), |i: int| hit_article(all[i])));
    }
    out
}

/// The number of matches that a reply reports.
pub fn parse_total(reply: &Json) -> (r: u64)
    ensures
        r == total_of(reply@),
{
    match reply.at("hits").at("total").at("value").as_u64() {
        Some(n) => n,
        None => 0,
    }
}

/// The sources of a list of aggregation buckets. A bucket without a key or
/// without a count is left out.
pub fn parse_buckets(buckets: &Json) -> (r: Vec<SourceInfo>)
    ensures
        source_views(r@) == sources_of(buckets@),
{
    let mut out: Vec<SourceInfo> = Vec::new();
    match buckets.as_array() {
        Some(items) => {
            let ghost all = docs_of(items@);
            proof {
                assert(source_views(out@) =~= somes(Seq::new(0, |k: int| bucket_source(all[k]))));
            }
            let mut i: usize = 0;
            while i < items.len()
                invariant
                    i <= items.len(),
                    all == docs_of(items@),
                    source_views(out@) == somes(Seq::new(i as nat, |k: int| bucket_source(all[k]))),
                decreases items.len() - i,
            {
                let b = &items[i];
                let ghost before = Seq::new(i as nat, |k: int| bucket_source(all[k]));
                let ghost old_out = source_views(out@);
                proof {
                    assert(b@ == all[i as int]);
                    lemma_somes_push(before, bucket_source(all[i as int]));
                    assert(before.push(bucket_source(all[i as int])) =~= Seq::new(
                        (i + 1) as nat,
                        |k: int| bucket_source(all[k]),
                    ));
                }
                let key = b.at("key").as_str();
                let count = b.at("doc_count").as_u64();
                match (key, count) {
                    (Some(name), Some(n)) => {
                        out.push(SourceInfo { name: name.to_owned(), doc_count: n });
                        proof {
                            assert(source_views(out@) =~= old_out.push(
                                bucket_source(all[i as int])->Some_0,
                            ));
                        }
                    },
                    _ => {},
                }
                i += 1;
            }
            proof {
                assert(Seq::new(items@.len(), |k: int| bucket_source(all[k])) =~= Seq::new(
                    all.len(),
                    |k: int| bucket_source(all[k]),
                ));
            }
        },
        None => {
            proof {
                assert(source_views(out@) =~= Seq::<SourceView>::empty());
            }
        },
    }
    out
}

/// Appends to `items` the trending items of a list of aggregation buckets,
/// each under `category`. A bucket without a key or without a count is left
/// out.
pub fn collect_trending(buckets: &Json, category: &str, items: &mut Vec<TrendingItem>)
    ensures
        trending_views(final(items)@) == trending_views(old(items)@) + trends_of(
            buckets@,
            category@,
        ),
{
    let ghost start = trending_views(items@);
    match buckets.as_array() {
        Some(list) => {
            let ghost all = docs_of(list@);
            proof {
                assert(trending_views(items@) =~= start + somes(
                    Seq::new(0, |k: int| bucket_trend(all[k], category@)),
                ));
            }
            let mut i: usize = 0;
            while i < list.len()
                invariant
                    i <= list.len(),
                    all == docs_of(list@),
                    trending_views(items@) == start + somes(
                        Seq::new(i as nat, |k: int| bucket_trend(all[k], category@)),
                    ),
                decreases list.len() - i,
            {
                let b = &list[i];
                let ghost before = Seq::new(i as nat, |k: int| bucket_trend(all[k], category@));
                let ghost old_items = trending_views(items@);
                proof {
                    assert(b@ == all[i as int]);
                    lemma_somes_push(before, bucket_trend(all[i as int], category@));
                    assert(before.push(bucket_trend(all[i as int], category@)) =~= Seq::new(
                        (i + 1) as nat,
                        |k: int| bucket_trend(all[k], category@),
                    ));
                }
                let key = b.at("key").as_str();
                let count = b.at("doc_count").as_u64();
                match (key, count) {
                    (Some(k), Some(n)) => {
                        items.push(
                            TrendingItem {
                                keyword: k.to_owned(),
                                category: category.to_owned(),
                                count: n,
                            },
                        );
                        proof {
                            assert(trending_views(items@) =~= old_items.push(
                                bucket_trend(all[i as int], category@)->Some_0,
                            ));
                            assert(old_items.push(bucket_trend(all[i as int], category@)->Some_0)
                                =~= start + somes(before).push(
                                bucket_trend(all[i as int], category@)->Some_0,
                            ));
                        }
                    },
                    _ => {},
                }
                i += 1;
            }
            proof {
                assert(Seq::new(list@.len(), |k: int| bucket_trend(all[k], category@))
                    =~= Seq::new(all.len(), |k: int| bucket_trend(all[k], category@)));
            }
        },
        None => {
            proof {
                assert(trending_views(items@) =~= start + Seq::<TrendingView>::empty());
            }
        },
    }
}

} // verus!
