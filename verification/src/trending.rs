//! Ranking trending items by how often they occur, keeping the order in
//! which equally frequent items came.

use vstd::prelude::*;
use crate::json::Json;
use crate::lists::lemma_somes_add;
use crate::lists::somes;
use crate::mapper::collect_trending;
use crate::mapper::trends_of;
use crate::models::trending_views;
use crate::models::TrendingItem;
use crate::models::TrendingView;

verus! {

/// Where `x` goes in `s`: directly behind the last item that counts at least
/// as much as `x`, at the front where there is none.
pub open spec fn rank_pos(s: Seq<TrendingView>, x: TrendingView) -> int
    decreases s.len(),
{
    if s.len() == 0 {
        0
    } else if s.last().count >= x.count {
        s.len() as int
    } else {
        rank_pos(s.drop_last(), x)
    }
}

/// `s` with the items taken in one by one, each to its place.
pub open spec fn ranked(s: Seq<TrendingView>) -> Seq<TrendingView>
    decreases s.len(),
{
    if s.len() == 0 {
        Seq::empty()
    } else {
        let before = ranked(s.drop_last());
        before.insert(rank_pos(before, s.last()), s.last())
    }
}

/// No item counts more than one before it.
pub open spec fn descending(s: Seq<TrendingView>) -> bool {
    forall|i: int, j: int| 0 <= i < j < s.len() ==> s[i].count >= s[j].count
}

/// The items of `s` that count exactly `c`, in order.
pub open spec fn with_count(s: Seq<TrendingView>, c: u64) -> Seq<TrendingView> {
    somes(
        Seq::new(
            s.len(),
            |i: int|
                if s[i].count == c {
                    Some(s[i])
                } else {
                    None
                },
        ),
    )
}

/// What [`rank_pos`] finds: everything from there on counts less, and the
/// item just before counts at least as much.
pub proof fn lemma_rank_pos(s: Seq<TrendingView>, x: TrendingView)
    ensures
        0 <= rank_pos(s, x) <= s.len(),
        forall|j: int| rank_pos(s, x) <= j < s.len() ==> s[j].count < x.count,
        rank_pos(s, x) > 0 ==> s[rank_pos(s, x) - 1].count >= x.count,
    decreases s.len(),
{
    if s.len() > 0 && s.last().count < x.count {
        let init = s.drop_last();
        lemma_rank_pos(init, x);
        assert forall|j: int| rank_pos(s, x) <= j < s.len() implies s[j].count < x.count by {
            if j < init.len() {
                assert(init[j] == s[j]);
            }
        }
        if rank_pos(s, x) > 0 {
            assert(init[rank_pos(s, x) - 1] == s[rank_pos(s, x) - 1]);
        }
    }
}

/// Only one place is as [`lemma_rank_pos`] says.
pub proof fn lemma_rank_pos_unique(s: Seq<TrendingView>, x: TrendingView, k: int)
    requires
        0 <= k <= s.len(),
        forall|j: int| k <= j < s.len() ==> s[j].count < x.count,
        k > 0 ==> s[k - 1].count >= x.count,
    ensures
        k == rank_pos(s, x),
{
    lemma_rank_pos(s, x);
    let p = rank_pos(s, x);
    if k < p {
        assert(s[p - 1].count < x.count);
    } else if p < k {
        assert(s[k - 1].count < x.count);
    }
}

proof fn lemma_with_count_add(a: Seq<TrendingView>, b: Seq<TrendingView>, c: u64)
    ensures
        with_count(a + b, c) == with_count(a, c) + with_count(b, c),
{
    let pick = |t: TrendingView|
        if t.count == c {
            Some(t)
        } else {
            None
        };
    let fa = Seq::new(a.len(), |i: int| pick(a[i]));
    let fb = Seq::new(b.len(), |i: int| pick(b[i]));
    let fab = Seq::new((a + b).len(), |i: int| pick((a + b)[i]));
    assert(fab =~= fa + fb);
    lemma_somes_add(fa, fb);
    assert(Seq::new(
        a.len(),
        |i: int|
            if a[i].count == c {
                Some(a[i])
            } else {
                None
            },
    ) =~= fa);
    assert(Seq::new(
        b.len(),
        |i: int|
            if b[i].count == c {
                Some(b[i])
            } else {
                None
            },
    ) =~= fb);
    assert(Seq::new(
        (a + b).len(),
        |i: int|
            if (a + b)[i].count == c {
                Some((a + b)[i])
            } else {
                None
            },
    ) =~= fab);
}

proof fn lemma_with_count_none(s: Seq<TrendingView>, c: u64)
    requires
        forall|i: int| 0 <= i < s.len() ==> s[i].count != c,
    ensures
        with_count(s, c) == Seq::<TrendingView>::empty(),
    decreases s.len(),
{
    let f = Seq::new(
        s.len(),
        |i: int|
            if s[i].count == c {
                Some(s[i])
            } else {
                None
            },
    );
    if s.len() > 0 {
        lemma_with_count_none(s.drop_last(), c);
        assert(f.drop_last() =~= Seq::new(
            s.drop_last().len(),
            |i: int|
                if s.drop_last()[i].count == c {
                    Some(s.drop_last()[i])
                } else {
                    None
                },
        ));
    }
}

proof fn lemma_with_count_one(x: TrendingView, c: u64)
    ensures
        with_count(seq![x], c) == if x.count == c {
            seq![x]
        } else {
            Seq::<TrendingView>::empty()
        },
{
    let s = seq![x];
    let f = Seq::new(
        s.len(),
        |i: int|
            if s[i].count == c {
                Some(s[i])
            } else {
                None
            },
    );
    assert(f.drop_last() =~= Seq::<Option<TrendingView>>::empty());
    assert(somes(f.drop_last()) =~= Seq::<TrendingView>::empty());
    if x.count == c {
        assert(somes(f) =~= seq![x]);
    }
}

/// Taking an item in at its place keeps a descending list descending, and
/// puts the item behind those that count the same.
proof fn lemma_insert_ranked(s: Seq<TrendingView>, x: TrendingView, c: u64)
    requires
        descending(s),
    ensures
        descending(s.insert(rank_pos(s, x), x)),
        with_count(s.insert(rank_pos(s, x), x), c) == with_count(s.push(x), c),
{
    lemma_rank_pos(s, x);
    let k = rank_pos(s, x);
    let r = s.insert(k, x);
    assert forall|i: int, j: int| 0 <= i < j < r.len() implies r[i].count >= r[j].count by {
        if i < k {
            assert(r[i] == s[i]);
            assert(s[i].count >= s[k - 1].count);
        }
        if j > k {
            assert(r[j] == s[j - 1]);
        }
    }
    let head = s.take(k);
    let tail = s.skip(k);
    assert(r =~= head + seq![x] + tail);
    assert(s.push(x) =~= head + tail + seq![x]);
    assert(s =~= head + tail);
    lemma_with_count_add(head + seq![x], tail, c);
    lemma_with_count_add(head, seq![x], c);
    lemma_with_count_add(head + tail, seq![x], c);
    lemma_with_count_add(head, tail, c);
    lemma_with_count_one(x, c);
    if x.count == c {
        lemma_with_count_none(tail, c);
        assert(with_count(r, c) =~= with_count(s.push(x), c));
    } else {
        assert(with_count(r, c) =~= with_count(s.push(x), c));
    }
}

/// Ranking orders by count, highest first, and is stable: the items of any
/// one count come out in the order in which they went in. Nothing is lost or
/// added.
pub proof fn law_ranked_is_stable_sort(s: Seq<TrendingView>, c: u64)
    ensures
        descending(ranked(s)),
        with_count(ranked(s), c) == with_count(s, c),
        ranked(s).len() == s.len(),
    decreases s.len(),
{
    if s.len() == 0 {
    } else {
        let init = s.drop_last();
        law_ranked_is_stable_sort(init, c);
        lemma_insert_ranked(ranked(init), s.last(), c);
        lemma_rank_pos(ranked(init), s.last());
        assert(s =~= init + seq![s.last()]);
        assert(ranked(init).push(s.last()) =~= ranked(init) + seq![s.last()]);
        lemma_with_count_add(init, seq![s.last()], c);
        lemma_with_count_add(ranked(init), seq![s.last()], c);
    }
}

/// Of two items that count the same, the one that went in first comes out
/// first.
pub proof fn law_ties_keep_order(a: TrendingView, b: TrendingView)
    requires
        a.count == b.count,
    ensures
        ranked(seq![a, b]) == seq![a, b],
{
    let s = seq![a, b];
    assert(s.drop_last() =~= seq![a]);
    assert(seq![a].drop_last() =~= Seq::<TrendingView>::empty());
    assert(ranked(Seq::<TrendingView>::empty()) =~= Seq::<TrendingView>::empty());
    assert(rank_pos(Seq::<TrendingView>::empty(), a) == 0);
    assert(ranked(seq![a]) =~= seq![a]);
    assert(rank_pos(seq![a], b) == 1);
    assert(ranked(s) =~= seq![a, b]);
}

/// Orders trending items by count, highest first. Items that count the same
/// keep the order in which they came.
pub fn rank_trending(items: Vec<TrendingItem>) -> (r: Vec<TrendingItem>)
    ensures
        trending_views(r@) == ranked(trending_views(items@)),
        descending(trending_views(r@)),
        r@.len() == items@.len(),
        forall|c: u64| with_count(trending_views(r@), c) == with_count(trending_views(items@), c),
{
    let mut out: Vec<TrendingItem> = Vec::new();
    let ghost raw = items@;
    let ghost all = trending_views(items@);
    proof {
        assert(all.take(0) =~= Seq::<TrendingView>::empty());
        assert(trending_views(out@) =~= ranked(all.take(0)));
    }
    for item in it: items
        invariant
            it.seq() == raw,
            all == trending_views(raw),
            trending_views(out@) == ranked(all.take(it.index() as int)),
    {
        let ghost n = it.index() as int;
        let ghost before = trending_views(out@);
        proof {
            assert(item@ == all[n]);
            assert(all.take(n + 1).drop_last() =~= all.take(n));
            assert(all.take(n + 1).last() == all[n]);
        }
        let mut k: usize = out.len();
        while k > 0 && out[k - 1].count < item.count
            invariant
                k <= out.len(),
                before == trending_views(out@),
                forall|j: int| k <= j < out.len() ==> before[j].count < item.count,
            decreases k,
        {
            k -= 1;
        }
        proof {
            if k > 0 {
                assert(before[k - 1].count >= item.count);
            }
            lemma_rank_pos_unique(before, item@, k as int);
        }
        out.insert(k, item);
        proof {
            assert(trending_views(out@) =~= before.insert(k as int, all[n]));
        }
    }
    proof {
        assert(all.take(raw.len() as int) =~= all);
        assert forall|c: u64|
            with_count(trending_views(out@), c) == with_count(trending_views(items@), c) by {
            law_ranked_is_stable_sort(all, c);
        }
        law_ranked_is_stable_sort(all, 0);
    }
    out
}

/// The trending items of two lists of buckets, entities before tags, ranked
/// by count.
pub fn parse_trending(entity_buckets: &Json, tag_buckets: &Json) -> (r: Vec<TrendingItem>)
    ensures
        trending_views(r@) == ranked(
            trends_of(entity_buckets@, "entity"@) + trends_of(tag_buckets@, "tag"@),
        ),
{
    let mut items: Vec<TrendingItem> = Vec::new();
    proof {
        assert(trending_views(items@) =~= Seq::<TrendingView>::empty());
    }
    collect_trending(entity_buckets, "entity", &mut items);
    collect_trending(tag_buckets, "tag", &mut items);
    proof {
        assert(trending_views(items@) =~= trends_of(entity_buckets@, "entity"@) + trends_of(
            tag_buckets@,
            "tag"@,
        ));
    }
    rank_trending(items)
}

} // verus!
