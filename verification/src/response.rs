//! What the gateway answers: a status, headers and a typed body.

use vstd::prelude::*;
use crate::lists::lemma_somes_push;
use crate::lists::somes;
use crate::text::decimal;
use crate::text::decimal_text;
use crate::text::text_eq;

verus! {

/// One header of an answer.
#[derive(Debug, Clone, PartialEq)]
pub struct Header {
    pub name: String,
    pub value: String,
}

/// Model of [`Header`].
pub ghost struct HeaderView {
    pub name: Seq<char>,
    pub value: Seq<char>,
}

impl View for Header {
    type V = HeaderView;

    open spec fn view(&self) -> HeaderView {
        HeaderView { name: self.name@, value: self.value@ }
    }
}

/// The models of a list of headers.
pub open spec fn header_views(v: Seq<Header>) -> Seq<HeaderView> {
    Seq::new(v.len(), |i: int| v[i]@)
}

/// An answer: its status code, the headers it carries besides those of the
/// transport, and its body.
#[derive(Debug, Clone, PartialEq)]
pub struct HttpReply<B> {
    pub status: u16,
    pub headers: Vec<Header>,
    pub body: B,
}

/// Where a page stands in the whole of the results.
#[derive(Debug, Clone, Copy, PartialEq, Eq, Structural)]
pub struct PaginationMeta {
    pub page: u64,
    pub size: u64,
    pub total: u64,
    pub total_pages: u64,
}

/// The body of a successful answer.
#[derive(Debug, Clone, PartialEq)]
pub struct ApiResponse<T> {
    pub success: bool,
    pub data: T,
    pub meta: Option<PaginationMeta>,
}

/// Builds answers of one shape.
pub struct ResponseBuilder;

/// The number of pages that `total` results fill at `size` a page. Pages
/// that hold nothing are not counted: there is none where there is no
/// result, and none where a page holds none.
pub open spec fn pages_for(total: u64, size: u64) -> int {
    if total > 0 && size > 0 {
        (total + size - 1) / (size as int)
    } else {
        0
    }
}

/// The pages of a result are just enough to hold it: the last of them is
/// not empty, and together they hold every result.
pub proof fn law_pages_hold_all(total: u64, size: u64)
    ensures
        total == 0 || size == 0 ==> pages_for(total, size) == 0,
        total > 0 && size > 0 ==> (pages_for(total, size) - 1) * size < total <= pages_for(
            total,
            size,
        ) * size,
        0 <= pages_for(total, size) <= total,
{
    if total > 0 && size > 0 {
        let t = total as int;
        let d = size as int;
        let n = t + d - 1;
        vstd::arithmetic::div_mod::lemma_fundamental_div_mod(n, d);
        vstd::arithmetic::div_mod::lemma_mod_bound(n, d);
        let q = n / d;
        assert(n == d * q + n % d);
        assert((q - 1) * d == d * q - d) by (nonlinear_arith);
        assert(q * d == d * q) by (nonlinear_arith);
        assert(0 <= q <= t) by (nonlinear_arith)
            requires
                (q - 1) * d < t <= q * d,
                d >= 1,
                t >= 1,
        ;
    }
}

/// `hs` without the headers named `name`.
pub open spec fn without_header(hs: Seq<HeaderView>, name: Seq<char>) -> Seq<HeaderView> {
    somes(
        Seq::new(
            hs.len(),
            |i: int|
                if hs[i].name == name {
                    None
                } else {
                    Some(hs[i])
                },
        ),
    )
}

/// `hs` with the header `name` set to `value`, in place of any it had.
pub open spec fn set_header(
    hs: Seq<HeaderView>,
    name: Seq<char>,
    value: Seq<char>,
) -> Seq<HeaderView> {
    without_header(hs, name).push(HeaderView { name: name, value: value })
}

/// `hs` with the four headers that tell a caller where its quota stands.
pub open spec fn with_rate_status(
    hs: Seq<HeaderView>,
    limit: u64,
    remaining: u64,
    reset_at: Seq<char>,
    tier: Seq<char>,
) -> Seq<HeaderView> {
    set_header(
        set_header(
            set_header(
                set_header(hs, "X-RateLimit-Limit"@, decimal(limit as nat)),
                "X-RateLimit-Remaining"@,
                decimal(remaining as nat),
            ),
            "X-RateLimit-Reset"@,
            reset_at,
        ),
        "X-Subscription-Tier"@,
        tier,
    )
}

/// Sets the header `name` to `value`, in place of any that `headers` had.
pub fn put_header(headers: Vec<Header>, name: &str, value: String) -> (r: Vec<Header>)
    ensures
        header_views(r@) == set_header(header_views(headers@), name@, value@),
{
    let mut out: Vec<Header> = Vec::new();
    let ghost raw = headers@;
    let ghost all = header_views(headers@);
    let ghost keep = |h: HeaderView|
        if h.name == name@ {
            None
        } else {
            Some(h)
        };
    proof {
        assert(header_views(out@) =~= somes(Seq::new(0, |i: int| keep(all[i]))));
    }
    for h in it: headers
        invariant
            it.seq() == raw,
            all == header_views(raw),
            keep == (|h: HeaderView|
                if h.name == name@ {
                    None
                } else {
                    Some(h)
                }),
            header_views(out@) == somes(Seq::new(it.index() as nat, |i: int| keep(all[i]))),
    {
        let ghost n = it.index();
        let ghost before = Seq::new(n as nat, |i: int| keep(all[i]));
        let ghost old_out = header_views(out@);
        proof {
            assert(h@ == all[n]);
            lemma_somes_push(before, keep(all[n]));
            assert(before.push(keep(all[n])) =~= Seq::new((n + 1) as nat, |i: int| keep(all[i])));
        }
        if !text_eq(h.name.as_str(), name) {
            out.push(h);
            proof {
                assert(header_views(out@) =~= old_out.push(all[n]));
            }
        }
    }
    let ghost kept = header_views(out@);
    proof {
        assert(Seq::new(raw.len(), |i: int| keep(all[i])) =~= Seq::new(
            all.len(),
            |i: int|
                if all[i].name == name@ {
                    None
                } else {
                    Some(all[i])
                },
        ));
    }
    out.push(Header { name: name.to_owned(), value: value });
    proof {
        assert(header_views(out@) =~= kept.push(HeaderView { name: name@, value: value@ }));
    }
    out
}

impl ResponseBuilder {
    /// A successful answer that carries `data`.
    pub fn ok<T>(data: T) -> (r: HttpReply<ApiResponse<T>>)
        ensures
            r.status == 200,
            r.headers@.len() == 0,
            r.body.success,
            r.body.data == data,
            r.body.meta is None,
    {
        HttpReply {
            status: 200,
            headers: Vec::new(),
            body: ApiResponse { success: true, data: data, meta: None },
        }
    }

    /// A successful answer that carries one page of results and says where
    /// the page stands. With pages that hold nothing the results count as
    /// filling no page.
    pub fn ok_paged<T>(data: T, page: u64, size: u64, total: u64) -> (r: HttpReply<ApiResponse<T>>)
        ensures
            r.status == 200,
            r.headers@.len() == 0,
            r.body.success,
            r.body.data == data,
            r.body.meta == Some(
                PaginationMeta {
                    page: page,
                    size: size,
                    total: total,
                    total_pages: pages_for(total, size) as u64,
                },
            ),
            pages_for(total, size) <= total,
    {
        let total_pages: u64 = if total > 0 && size > 0 {
            let q: u64 = total / size;
            let rest: u64 = total % size;
            proof {
                let t = total as int;
                let d = size as int;
                assert(t == d * (t / d) + t % d) by {
                    vstd::arithmetic::div_mod::lemma_fundamental_div_mod(t, d);
                }
                if rest == 0 {
                    assert(t + d - 1 == d * (t / d) + (d - 1));
                    vstd::arithmetic::div_mod::lemma_fundamental_div_mod_converse(
                        t + d - 1,
                        d,
                        t / d,
                        d - 1,
                    );
                } else {
                    assert(d * (t / d + 1) == d * (t / d) + d) by (nonlinear_arith);
                    assert(t + d - 1 == d * (t / d + 1) + (t % d - 1));
                    vstd::arithmetic::div_mod::lemma_fundamental_div_mod_converse(
                        t + d - 1,
                        d,
                        t / d + 1,
                        t % d - 1,
                    );
                    assert(t / d + 1 <= t) by (nonlinear_arith)
                        requires
                            t == d * (t / d) + t % d,
                            t % d > 0,
                            d > 0,
                            t / d >= 0,
                    ;
                }
                assert(t / d <= t) by (nonlinear_arith)
                    requires
                        t == d * (t / d) + t % d,
                        t % d >= 0,
                        d > 0,
                        t / d >= 0,
                ;
            }
            if rest == 0 {
                q
            } else {
                q + 1
            }
        } else {
            0
        };
        HttpReply {
            status: 200,
            headers: Vec::new(),
            body: ApiResponse {
                success: true,
                data: data,
                meta: Some(
                    PaginationMeta {
                        page: page,
                        size: size,
                        total: total,
                        total_pages: total_pages,
                    },
                ),
            },
        }
    }

    /// The answer `resp` with the caller's quota, what is left of it, when it
    /// is whole again and the caller's tier added as headers.
    pub fn with_rate_headers<B>(
        resp: HttpReply<B>,
        limit: u64,
        remaining: u64,
        reset_at: &str,
        tier: &str,
    ) -> (r: HttpReply<B>)
        ensures
            r.status == resp.status,
            r.body == resp.body,
            header_views(r.headers@) == with_rate_status(
                header_views(resp.headers@),
                limit,
                remaining,
                reset_at@,
                tier@,
            ),
    {
        let HttpReply { status, headers, body } = resp;
        let headers = put_header(headers, "X-RateLimit-Limit", decimal_text(limit));
        let headers = put_header(headers, "X-RateLimit-Remaining", decimal_text(remaining));
        let headers = put_header(headers, "X-RateLimit-Reset", reset_at.to_owned());
        let headers = put_header(headers, "X-Subscription-Tier", tier.to_owned());
        HttpReply { status: status, headers: headers, body: body }
    }
}

} // verus!
