//! Process configuration as plain values.

use vstd::prelude::*;
use vstd::utf8::is_ascii_chars;
use vstd::utf8::is_ascii_chars_encode_utf8;
use crate::text::decimal;
use crate::text::digit_char;
use crate::text::opt_text;

verus! {

/// What the service is configured with.
#[derive(Clone, Debug, PartialEq)]
pub struct Config {
    /// Base address of the search engine.
    pub es_host: String,
    pub es_username: String,
    pub es_password: String,
    /// Which indices a search runs over.
    pub es_index_pattern: String,
    /// Port the service listens on.
    pub port: u16,
    /// Secret that the fronting proxy sends with every request.
    pub rapidapi_proxy_secret: String,
    /// Requests per hour, by tier.
    pub rate_limit_basic: u64,
    pub rate_limit_pro: u64,
    pub rate_limit_ultra: u64,
    pub rate_limit_mega: u64,
}

/// What the environment holds of each setting; nothing where a setting is
/// not there or cannot be read as text.
#[derive(Clone, Debug, PartialEq)]
pub struct Environment {
    pub es_host: Option<String>,
    pub es_username: Option<String>,
    pub es_password: Option<String>,
    pub es_index_pattern: Option<String>,
    pub port: Option<String>,
    pub rapidapi_proxy_secret: Option<String>,
    pub rate_limit_basic: Option<String>,
    pub rate_limit_pro: Option<String>,
    pub rate_limit_ultra: Option<String>,
    pub rate_limit_mega: Option<String>,
}

/// Whether `c` is one of the ten decimal digits.
pub open spec fn is_digit(c: char) -> bool {
    '0' <= c && c <= '9'
}

/// The number that a run of decimal digits stands for.
pub open spec fn digits_value(s: Seq<char>) -> nat
    decreases s.len(),
{
    if s.len() == 0 {
        0
    } else {
        digits_value(s.drop_last()) * 10 + (s.last() as nat - '0' as nat) as nat
    }
}

/// Whether `s` holds nothing but decimal digits.
pub open spec fn all_digits(s: Seq<char>) -> bool {
    forall|i: int| 0 <= i < s.len() ==> is_digit(#[trigger] s[i])
}

/// The number that `s` stands for as an unsigned decimal: one or more
/// decimal digits, with at most a plus sign before them.
pub open spec fn unsigned_decimal(s: Seq<char>) -> Option<nat> {
    let digits = if s.len() > 0 && s[0] == '+' {
        s.drop_first()
    } else {
        s
    };
    if digits.len() > 0 && all_digits(digits) {
        Some(digits_value(digits))
    } else {
        None
    }
}

/// The number that `s` stands for, where it is one and is at most `max`.
pub open spec fn number_in(s: Seq<char>, max: nat) -> Option<nat> {
    match unsigned_decimal(s) {
        Some(n) => if n <= max {
            Some(n)
        } else {
            None
        },
        None => None,
    }
}

/// What [`decimal`] writes is read back as the number it was written for.
pub proof fn law_written_numbers_are_read_back(n: nat)
    ensures
        unsigned_decimal(decimal(n)) == Some(n),
        number_in(decimal(n), n) == Some(n),
    decreases n,
{
    lemma_decimal_digits(n);
}

proof fn lemma_decimal_digits(n: nat)
    ensures
        decimal(n).len() > 0,
        forall|i: int| 0 <= i < decimal(n).len() ==> is_digit(#[trigger] decimal(n)[i]),
        digits_value(decimal(n)) == n,
    decreases n,
{
    let s = decimal(n);
    if n < 10 {
        assert(s.drop_last() =~= Seq::<char>::empty());
        assert(digits_value(s.drop_last()) == 0);
        assert(s.last() == digit_char(n as int));
    } else {
        let init = decimal(n / 10);
        lemma_decimal_digits(n / 10);
        assert(s.drop_last() =~= init);
        assert(s.last() == digit_char((n % 10) as int));
        assert forall|i: int| 0 <= i < s.len() implies is_digit(#[trigger] s[i]) by {
            if i < init.len() {
                assert(s[i] == init[i]);
            }
        }
    }
}

/// A setting that is text: what the environment holds, else `default`.
pub open spec fn text_setting(value: Option<Seq<char>>, default: Seq<char>) -> Seq<char> {
    match value {
        Some(v) => v,
        None => default,
    }
}

/// A setting that is a number of at most `max`: what the environment holds
/// where that is such a number, else `default`.
pub open spec fn number_setting(value: Option<Seq<char>>, max: nat, default: nat) -> nat {
    match value {
        Some(v) => match number_in(v, max) {
            Some(n) => n,
            None => default,
        },
        None => default,
    }
}

/// The digits read so far never stand for more than all of them do.
proof fn lemma_digits_grow(s: Seq<char>, n: int)
    requires
        0 <= n <= s.len(),
    ensures
        digits_value(s.take(n)) <= digits_value(s),
    decreases s.len() - n,
{
    if n == s.len() {
        assert(s.take(n) =~= s);
    } else {
        lemma_digits_grow(s.drop_last(), n);
        assert(s.drop_last().take(n) =~= s.take(n));
        assert(digits_value(s.drop_last()) * 10 >= digits_value(s.drop_last())) by (nonlinear_arith)
            requires
                digits_value(s.drop_last()) >= 0,
        ;
    }
}

/// A text with a character beyond ASCII stands for no number.
proof fn lemma_numbers_are_ascii(s: Seq<char>)
    requires
        !is_ascii_chars(s),
    ensures
        unsigned_decimal(s) is None,
{
    let i = choose|i: int| 0 <= i < s.len() && !('\0' <= #[trigger] s[i] <= '\u{7f}');
    assert(!is_digit(s[i]));
    if s[0] == '+' {
        assert(i > 0);
        assert(s.drop_first()[i - 1] == s[i]);
    }
}

/// Reads `s` as a number of at most `max`: one or more decimal digits with
/// at most a plus sign before them, and nothing else.
fn read_number(s: &str, max: u64) -> (r: Option<u64>)
    ensures
        r == match number_in(s@, max as nat) {
            Some(n) => Some(n as u64),
            None => None,
        },
{
    if !s.is_ascii() {
        proof {
            lemma_numbers_are_ascii(s@);
        }
        return None;
    }
    let bytes = s.as_bytes();
    proof {
        is_ascii_chars_encode_utf8(s@);
    }
    let n = bytes.len();
    let start: usize = if n > 0 && bytes[0] == 43 {
        1
    } else {
        0
    };
    let ghost digits = if s@.len() > 0 && s@[0] == '+' {
        s@.drop_first()
    } else {
        s@
    };
    proof {
        if n > 0 {
            assert(s@[0] as u8 == bytes@[0]);
        }
        assert(digits =~= s@.skip(start as int));
    }
    if start == n {
        return None;
    }
    let mut value: u64 = 0;
    let mut i: usize = start;
    proof {
        assert(digits.take(0) =~= Seq::<char>::empty());
    }
    while i < n
        invariant
            start <= i <= n,
            n == bytes@.len(),
            n == s@.len(),
            is_ascii_chars(s@),
            digits == s@.skip(start as int),
            digits == (if s@.len() > 0 && s@[0] == '+' {
                s@.drop_first()
            } else {
                s@
            }),
            forall|k: int| 0 <= k < n ==> s@[k] as u8 == #[trigger] bytes@[k],
            all_digits(digits.take(i - start)),
            value == digits_value(digits.take(i - start)),
            value <= max,
        decreases n - i,
    {
        let b = bytes[i];
        let ghost c = s@[i as int];
        proof {
            assert(digits[i - start] == c);
            assert(c as u8 == b);
            assert('\0' <= c <= '\u{7f}');
        }
        if b < 48 || b > 57 {
            proof {
                assert(!is_digit(digits[i - start]));
            }
            return None;
        }
        let d = (b - 48) as u64;
        let ghost more = digits.take(i - start + 1);
        proof {
            assert(is_digit(c));
            assert(more.drop_last() =~= digits.take(i - start));
            assert(more.last() == c);
            assert(digits_value(more) == value * 10 + d);
            lemma_digits_grow(digits, i - start + 1);
        }
        let next = match value.checked_mul(10) {
            Some(tens) => tens.checked_add(d),
            None => None,
        };
        match next {
            Some(v) => {
                if v > max {
                    return None;
                }
                value = v;
            },
            None => {
                return None;
            },
        }
        proof {
            assert forall|k: int| 0 <= k < more.len() implies is_digit(#[trigger] more[k]) by {
                if k < more.len() - 1 {
                    assert(more[k] == digits.take(i - start)[k]);
                }
            }
        }
        i += 1;
    }
    proof {
        assert(digits.take(n - start) =~= digits);
    }
    Some(value)
}

fn text_or(value: Option<String>, default: &str) -> (r: String)
    ensures
        r@ == text_setting(opt_text(value), default@),
{
    match value {
        Some(v) => v,
        None => default.to_owned(),
    }
}

fn quota_or(value: &Option<String>, default: u64) -> (r: u64)
    ensures
        r == number_setting(opt_text(*value), u64::MAX as nat, default as nat),
{
    match value {
        Some(v) => match read_number(v.as_str(), u64::MAX) {
            Some(n) => n,
            None => default,
        },
        None => default,
    }
}

impl Config {
    /// The configuration that the environment `env` gives. A setting that is
    /// not there, and a number that cannot be read, takes its default: the
    /// port 3000; per hour 5 requests on the lowest tier, then 100, 1000
    /// and 10000.
    pub fn from_env(env: Environment) -> (r: Config)
        ensures
            r.es_host@ == text_setting(opt_text(env.es_host), "https://local-es.nusarithm.id"@),
            r.es_username@ == text_setting(opt_text(env.es_username), "elastic"@),
            r.es_password@ == text_setting(opt_text(env.es_password), ""@),
            r.es_index_pattern@ == text_setting(opt_text(env.es_index_pattern), "online-news-*"@),
            r.port == number_setting(opt_text(env.port), u16::MAX as nat, 3000),
            r.rapidapi_proxy_secret@ == text_setting(opt_text(env.rapidapi_proxy_secret), ""@),
            r.rate_limit_basic == number_setting(
                opt_text(env.rate_limit_basic),
                u64::MAX as nat,
                5,
            ),
            r.rate_limit_pro == number_setting(opt_text(env.rate_limit_pro), u64::MAX as nat, 100),
            r.rate_limit_ultra == number_setting(
                opt_text(env.rate_limit_ultra),
                u64::MAX as nat,
                1000,
            ),
            r.rate_limit_mega == number_setting(
                opt_text(env.rate_limit_mega),
                u64::MAX as nat,
                10000,
            ),
    {
        let port: u16 = match &env.port {
            Some(v) => match read_number(v.as_str(), 65535) {
                Some(n) => n as u16,
                None => 3000,
            },
            None => 3000,
        };
        let basic = quota_or(&env.rate_limit_basic, 5);
        let pro = quota_or(&env.rate_limit_pro, 100);
        let ultra = quota_or(&env.rate_limit_ultra, 1000);
        let mega = quota_or(&env.rate_limit_mega, 10000);
        Config {
            es_host: text_or(env.es_host, "https://local-es.nusarithm.id"),
            es_username: text_or(env.es_username, "elastic"),
            es_password: text_or(env.es_password, ""),
            es_index_pattern: text_or(env.es_index_pattern, "online-news-*"),
            port: port,
            rapidapi_proxy_secret: text_or(env.rapidapi_proxy_secret, ""),
            rate_limit_basic: basic,
            rate_limit_pro: pro,
            rate_limit_ultra: ultra,
            rate_limit_mega: mega,
        }
    }
}

} // verus!
