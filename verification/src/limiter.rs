//! Hourly rate accounting per user and tier.

use vstd::prelude::*;
use std::collections::hash_map::RandomState;
use dashmap::DashMap;
use crate::clock::ClockReading;
use crate::clock::held;
use crate::clock::HOUR;
use crate::clock::utc_hour;
use crate::clock::utc_hour_stamp;
use crate::clock::utc_ordinal;
use crate::config::Config;
use crate::errors::AppError;
use crate::errors::ErrorView;
use crate::text::join2;
use crate::tier::SubscriptionTier;

verus! {

/// dashmap's `DashMap`. Nothing is known of what is inside one but what the
/// functions below say.
#[verifier::external_type_specification]
#[verifier::external_body]
#[verifier::reject_recursive_types(K)]
#[verifier::reject_recursive_types(V)]
#[verifier::reject_recursive_types(S)]
pub struct ExDashMap<K, V, S>(DashMap<K, V, S>);

/// How many requests of one user on one tier were let through in the window
/// that `hour` and `day` mark.
#[derive(Clone, Copy, Debug, PartialEq, Eq, Structural)]
pub struct RateLimitEntry {
    pub count: u64,
    /// Hour of day, 0 to 23.
    pub hour: u32,
    /// Day of year, 1 to 366.
    pub day: u32,
}

impl RateLimitEntry {
    /// The entry of a window in which nothing was let through yet.
    pub open spec fn fresh(hour: u32, day: u32) -> RateLimitEntry {
        RateLimitEntry { count: 0, hour: hour, day: day }
    }

    /// Whether the entry belongs to the window that `hour` and `day` mark.
    pub open spec fn current(self, hour: u32, day: u32) -> bool {
        self.hour == hour && self.day == day
    }

    /// The entry as it counts once the clock shows `hour` and `day`: itself
    /// within its window, a fresh one as soon as the hour or the day
    /// differs.
    pub open spec fn rolled(self, hour: u32, day: u32) -> RateLimitEntry {
        if self.current(hour, day) {
            self
        } else {
            Self::fresh(hour, day)
        }
    }

    /// Whether one more request is let through at `hour` and `day` under the
    /// quota `limit`.
    pub open spec fn admits(self, hour: u32, day: u32, limit: u64) -> bool {
        self.rolled(hour, day).count < limit
    }

    /// The entry after a request at `hour` and `day`: rolled to the window,
    /// and counted up if the request is let through.
    pub open spec fn after(self, hour: u32, day: u32, limit: u64) -> RateLimitEntry {
        let at = self.rolled(hour, day);
        if at.count < limit {
            RateLimitEntry { count: (at.count + 1) as u64, hour: at.hour, day: at.day }
        } else {
            at
        }
    }

    /// What is left of the quota after a request at `hour` and `day`.
    pub open spec fn left(self, hour: u32, day: u32, limit: u64) -> int {
        limit - self.after(hour, day, limit).count
    }

    /// Takes one request at `hour` and `day` under the quota `limit`. A
    /// stale entry is reset first. The request is let through while the
    /// count is below the quota; then the count goes up by one and what is
    /// left of the quota is returned. Otherwise the count stays.
    pub fn tally(&mut self, hour: u32, day: u32, limit: u64) -> (r: Option<u64>)
        ensures
            *final(self) == old(self).after(hour, day, limit),
            match r {
                Some(left) => old(self).admits(hour, day, limit) && left == old(self).left(
                    hour,
                    day,
                    limit,
                ),
                None => !old(self).admits(hour, day, limit),
            },
    {
        if self.hour != hour || self.day != day {
            self.count = 0;
            self.hour = hour;
            self.day = day;
        }
        if self.count >= limit {
            return None;
        }
        self.count = self.count + 1;
        Some(limit - self.count)
    }
}

/// The entries that a table holds, by key.
pub uninterp spec fn table_entries(
    table: DashMap<String, RateLimitEntry, RandomState>,
) -> Map<Seq<char>, RateLimitEntry>;

/// The table without any entry.
pub open spec fn no_entries() -> Map<Seq<char>, RateLimitEntry> {
    Map::empty()
}

/// The entry under `key`, a fresh one of the given window where there is
/// none.
pub open spec fn entry_or_fresh(
    entries: Map<Seq<char>, RateLimitEntry>,
    key: Seq<char>,
    hour: u32,
    day: u32,
) -> RateLimitEntry {
    if entries.contains_key(key) {
        entries[key]
    } else {
        RateLimitEntry::fresh(hour, day)
    }
}

/// dashmap's `DashMap::new`: a map that holds nothing.
#[verifier::external_body]
fn table_new() -> (table: DashMap<String, RateLimitEntry, RandomState>)
    ensures
        table_entries(table) == no_entries(),
{
    DashMap::new()
}

/// dashmap's `DashMap::entry` and `Entry::or_insert`: where the map has no
/// value under `key`, `fresh` is put there; the map is otherwise unchanged.
/// Returned is a copy of the value then found under `key`. The map is
/// borrowed exclusively, so no other reference into it is held during the
/// call.
#[verifier::external_body]
fn table_entry(
    table: &mut DashMap<String, RateLimitEntry, RandomState>,
    key: String,
    fresh: RateLimitEntry,
) -> (found: RateLimitEntry)
    ensures
        table_entries(*final(table)) == (if table_entries(*old(table)).contains_key(key@) {
            table_entries(*old(table))
        } else {
            table_entries(*old(table)).insert(key@, fresh)
        }),
        found == (if table_entries(*old(table)).contains_key(key@) {
            table_entries(*old(table))[key@]
        } else {
            fresh
        }),
{
    *table.entry(key).or_insert(fresh)
}

/// dashmap's `DashMap::insert`: afterwards the map holds `entry` under
/// `key`, in place of what it held there, and is otherwise unchanged.
#[verifier::external_body]
fn table_insert(
    table: &mut DashMap<String, RateLimitEntry, RandomState>,
    key: String,
    entry: RateLimitEntry,
)
    ensures
        table_entries(*final(table)) == table_entries(*old(table)).insert(key@, entry),
{
    table.insert(key, entry);
}

/// The key under which the requests of `user` on `tier` are counted.
pub open spec fn rate_key(user: Seq<char>, tier: SubscriptionTier) -> Seq<char> {
    user + ":"@ + tier.name_text()
}

/// No tier's name holds a colon.
proof fn lemma_name_has_no_colon(tier: SubscriptionTier, i: int)
    requires
        0 <= i < tier.name_text().len(),
    ensures
        tier.name_text()[i] != ':',
{
    reveal_strlit("basic");
    reveal_strlit("pro");
    reveal_strlit("ultra");
    reveal_strlit("mega");
}

/// Two users, or two tiers, never share a key: each pair of user and tier is
/// counted on its own.
pub proof fn law_keys_tell_apart(
    user1: Seq<char>,
    tier1: SubscriptionTier,
    user2: Seq<char>,
    tier2: SubscriptionTier,
)
    requires
        rate_key(user1, tier1) == rate_key(user2, tier2),
    ensures
        user1 == user2,
        tier1 == tier2,
{
    reveal_strlit(":");
    reveal_strlit("basic");
    reveal_strlit("pro");
    reveal_strlit("ultra");
    reveal_strlit("mega");
    let key = rate_key(user1, tier1);
    let name1 = tier1.name_text();
    let name2 = tier2.name_text();
    assert(key.len() == user1.len() + 1 + name1.len());
    assert(key.len() == user2.len() + 1 + name2.len());
    assert(rate_key(user1, tier1)[user1.len() as int] == ':');
    assert(rate_key(user2, tier2)[user2.len() as int] == ':');
    if user1.len() < user2.len() {
        let i = user2.len() - user1.len() - 1;
        assert(rate_key(user1, tier1)[user2.len() as int] == name1[i]);
        lemma_name_has_no_colon(tier1, i);
    } else if user2.len() < user1.len() {
        let i = user1.len() - user2.len() - 1;
        assert(rate_key(user2, tier2)[user1.len() as int] == name2[i]);
        lemma_name_has_no_colon(tier2, i);
    } else {
        assert forall|i: int| 0 <= i < user1.len() implies user1[i] == user2[i] by {
            assert(rate_key(user1, tier1)[i] == user1[i]);
            assert(rate_key(user2, tier2)[i] == user2[i]);
        }
        assert(user1 =~= user2);
        assert(name1.len() == name2.len());
        assert(rate_key(user1, tier1)[user1.len() as int + 1] == name1[0]);
        assert(rate_key(user2, tier2)[user2.len() as int + 1] == name2[0]);
    }
}

/// Counts requests per user and tier in hourly windows, and lets through no
/// more than the tier's quota in any one window.
pub struct RateLimiter {
    entries: DashMap<String, RateLimitEntry, RandomState>,
    config: Config,
}

/// Whether `after` and `r` are what comes of a request of `user` on `tier`
/// that the limiter `before` takes when the clock shows `hour` and `day`,
/// with `reset_at` as the time of reset.
///
/// The entry of the user and tier, a fresh one if this is their first
/// request, is rolled to the window and counted up if the tier's quota is
/// not used up. The request is then let through with the quota and what is
/// left of it. Otherwise it is refused with the tier's name, the quota and
/// the time of reset, and nothing is counted. No other entry changes.
pub open spec fn checked_at(
    before: RateLimiter,
    after: RateLimiter,
    user: Seq<char>,
    tier: SubscriptionTier,
    hour: u32,
    day: u32,
    reset_at: Seq<char>,
    r: Result<(u64, u64), AppError>,
) -> bool {
    let key = rate_key(user, tier);
    let quota = tier.quota(before.config());
    let entry = entry_or_fresh(before.entries(), key, hour, day);
    &&& after.config() == before.config()
    &&& after.entries() == before.entries().insert(key, entry.after(hour, day, quota))
    &&& match r {
        Ok((limit, left)) => {
            &&& entry.admits(hour, day, quota)
            &&& limit == quota
            &&& left == entry.left(hour, day, quota)
        },
        Err(e) => {
            &&& !entry.admits(hour, day, quota)
            &&& e@ == (ErrorView::RateLimitExceeded {
                tier: tier.name_text(),
                limit: quota,
                reset_at: reset_at,
            })
        },
    }
}

/// Whether `r` is the time of reset as it is told at the moment `secs`: the
/// start of the hour that follows `secs`, with minutes and seconds at zero,
/// as chrono writes it; nothing where the clock cannot be read at `secs`.
pub open spec fn reset_read_at(secs: i64, r: Option<String>) -> bool {
    match r {
        Some(stamp) => {
            &&& ClockReading::readable(secs)
            &&& utc_hour_stamp((secs + HOUR) as i64) == Some(stamp@)
        },
        None => !ClockReading::readable(secs),
    }
}

/// The failure of a request that came while the system clock showed a
/// moment that cannot be read.
pub open spec fn clock_failure() -> ErrorView {
    ErrorView::Internal("clock out of range"@)
}

/// Whether `after` and `r` are what comes of a request of `user` on `tier`
/// that the limiter `before` takes at the moment `secs`: where the clock can
/// be read then, what [`checked_at`] says for the hour and the day of that
/// moment and the hour after it as the time of reset; where it cannot, a
/// failure that leaves the limiter as it was.
pub open spec fn checked_at_moment(
    before: RateLimiter,
    after: RateLimiter,
    user: Seq<char>,
    tier: SubscriptionTier,
    secs: i64,
    r: Result<(u64, u64), AppError>,
) -> bool {
    if ClockReading::readable(secs) {
        checked_at(
            before,
            after,
            user,
            tier,
            utc_hour(secs)->Some_0,
            utc_ordinal(secs)->Some_0,
            utc_hour_stamp((secs + HOUR) as i64)->Some_0,
            r,
        )
    } else {
        &&& r matches Err(e)
        &&& e@ == clock_failure()
        &&& after.entries() == before.entries()
        &&& after.config() == before.config()
    }
}

/// Whether `after` and `r` are what comes of a request of `user` on `tier`
/// that the limiter `before` takes at the time that the system clock shows:
/// what [`checked_at_moment`] says of the moment that it shows, which is one
/// that chrono can hold.
pub open spec fn checked(
    before: RateLimiter,
    after: RateLimiter,
    user: Seq<char>,
    tier: SubscriptionTier,
    r: Result<(u64, u64), AppError>,
) -> bool {
    exists|secs: i64| held(secs) && #[trigger] checked_at_moment(before, after, user, tier, secs, r)
}

/// Whatever the clock shows, a request touches no entry but its own; one
/// that is let through comes with the quota and with what the entry then
/// lacks to it; one that is refused for its quota leaves the entry at the
/// quota or above.
pub proof fn law_check_whatever_the_time(
    before: RateLimiter,
    after: RateLimiter,
    user: Seq<char>,
    tier: SubscriptionTier,
    r: Result<(u64, u64), AppError>,
)
    requires
        checked(before, after, user, tier, r),
    ensures
        after.config() == before.config(),
        after.entries().remove(rate_key(user, tier)) == before.entries().remove(
            rate_key(user, tier),
        ),
        r matches Ok(granted) ==> {
            &&& granted.0 == tier.quota(before.config())
            &&& after.entries().contains_key(rate_key(user, tier))
            &&& 1 <= after.entries()[rate_key(user, tier)].count <= granted.0
            &&& granted.1 == granted.0 - after.entries()[rate_key(user, tier)].count
        },
        r matches Err(e) ==> e@ == clock_failure() || {
            &&& e@ matches ErrorView::RateLimitExceeded { tier: name, limit, reset_at }
            &&& name == tier.name_text()
            &&& limit == tier.quota(before.config())
            &&& after.entries().contains_key(rate_key(user, tier))
            &&& after.entries()[rate_key(user, tier)].count >= limit
        },
{
    let key = rate_key(user, tier);
    let secs = choose|secs: i64|
        held(secs) && #[trigger] checked_at_moment(before, after, user, tier, secs, r);
    if ClockReading::readable(secs) {
        assert(after.entries().remove(key) =~= before.entries().remove(key));
    } else {
        reveal_strlit("clock out of range");
    }
}

impl RateLimiter {
    /// The entries counted so far, by key.
    pub closed spec fn entries(&self) -> Map<Seq<char>, RateLimitEntry> {
        table_entries(self.entries)
    }

    /// The configuration that the quotas come from.
    pub closed spec fn config(&self) -> Config {
        self.config
    }

    /// A limiter that has counted nothing yet.
    pub fn new(config: Config) -> (r: Self)
        ensures
            r.entries() == no_entries(),
            r.config() == config,
    {
        RateLimiter { entries: table_new(), config: config }
    }

    /// Takes one request of `user` on `tier` at the clock reading `now`, as
    /// [`checked_at`] says.
    pub fn check_at(&mut self, user: &str, tier: &SubscriptionTier, now: &ClockReading) -> (r:
        Result<(u64, u64), AppError>)
        ensures
            checked_at(
                *old(self),
                *final(self),
                user@,
                *tier,
                now.hour,
                now.day,
                now.reset_at@,
                r,
            ),
    {
        let limit = tier.hourly_limit(&self.config);
        let mut key = join2(user, ":");
        key.append(tier.name());
        let again = key.clone();
        let fresh = RateLimitEntry { count: 0, hour: now.hour, day: now.day };
        let mut entry = table_entry(&mut self.entries, key, fresh);
        let outcome = entry.tally(now.hour, now.day, limit);
        table_insert(&mut self.entries, again, entry);
        proof {
            assert(final(self).entries() =~= old(self).entries().insert(
                rate_key(user@, *tier),
                entry,
            ));
        }
        match outcome {
            Some(left) => Ok((limit, left)),
            None => Err(
                AppError::RateLimitExceeded {
                    tier: tier.name().to_owned(),
                    limit: limit,
                    reset_at: now.reset_at.clone(),
                },
            ),
        }
    }

    /// Takes one request of `user` on `tier` at the time that the system
    /// clock shows, as [`RateLimiter::check_at`] does at the reading of that
    /// moment. Where the clock shows a moment that cannot be read, the
    /// request fails and nothing is counted.
    pub fn check(&mut self, user: &str, tier: &SubscriptionTier) -> (r: Result<
        (u64, u64),
        AppError,
    >)
        ensures
            checked(*old(self), *final(self), user@, *tier, r),
    {
        let now = ClockReading::now();
        let ghost secs = choose|secs: i64|
            held(secs) && #[trigger] ClockReading::read_at(secs, now);
        let r = match now {
            Some(reading) => self.check_at(user, tier, &reading),
            None => Err(AppError::Internal("clock out of range".to_owned())),
        };
        proof {
            assert(held(secs) && ClockReading::read_at(secs, now));
            assert(checked_at_moment(*old(self), *final(self), user@, *tier, secs, r));
        }
        r
    }

    /// The start of the next hour, written out, which is when every quota is
    /// whole again: for the moment that the system clock shows, which is
    /// one that chrono can hold, the hour that starts within the 3600
    /// seconds after it, as [`reset_read_at`] says; nothing where the clock
    /// cannot be read at that moment.
    pub fn reset_time() -> (r: Option<String>)
        ensures
            exists|secs: i64| held(secs) && #[trigger] reset_read_at(secs, r),
    {
        let now = ClockReading::now();
        proof {
            let secs = choose|secs: i64| held(secs) && #[trigger] ClockReading::read_at(secs, now);
            assert(held(secs) && reset_read_at(
                secs,
                match now {
                    Some(c) => Some(c.reset_at),
                    None => None,
                },
            ));
        }
        match now {
            Some(reading) => Some(reading.reset_at),
            None => None,
        }
    }
}

/// The entry `e` after `n` requests in a row at `hour` and `day`.
pub open spec fn served(
    e: RateLimitEntry,
    hour: u32,
    day: u32,
    limit: u64,
    n: nat,
) -> RateLimitEntry
    decreases n,
{
    if n == 0 {
        e
    } else {
        served(e, hour, day, limit, (n - 1) as nat).after(hour, day, limit)
    }
}

/// Within one window a quota is good for exactly as many requests as it
/// says. Of the requests that follow a new or stale entry, the first `limit`
/// are let through, the `n`-th of them leaving `limit - n`; every request
/// after those is refused, and the count then stands at the quota.
pub proof fn law_quota_is_exact(e: RateLimitEntry, hour: u32, day: u32, limit: u64, n: nat)
    requires
        e.rolled(hour, day).count == 0,
        n >= 1,
    ensures
        n <= limit ==> {
            &&& served(e, hour, day, limit, (n - 1) as nat).admits(hour, day, limit)
            &&& served(e, hour, day, limit, n).count == n
            &&& served(e, hour, day, limit, (n - 1) as nat).left(hour, day, limit) == limit - n
        },
        n > limit ==> {
            &&& !served(e, hour, day, limit, (n - 1) as nat).admits(hour, day, limit)
            &&& served(e, hour, day, limit, n).count == limit
        },
        served(e, hour, day, limit, n).current(hour, day),
    decreases n,
{
    if n > 1 {
        law_quota_is_exact(e, hour, day, limit, (n - 1) as nat);
    } else {
        assert(served(e, hour, day, limit, 0) == e);
    }
}

/// A refusal counts nothing: the entry comes out of it as it went in, once
/// rolled to the window. Within its window the entry is left untouched, so a
/// refused request is refused again however often it is repeated.
pub proof fn law_refusal_counts_nothing(e: RateLimitEntry, hour: u32, day: u32, limit: u64)
    requires
        !e.admits(hour, day, limit),
    ensures
        e.after(hour, day, limit) == e.rolled(hour, day),
        e.current(hour, day) ==> e.after(hour, day, limit) == e,
        !e.after(hour, day, limit).admits(hour, day, limit),
        e.after(hour, day, limit).after(hour, day, limit) == e.after(hour, day, limit),
{
}

/// A refused request of a user whose entry is of the current window leaves
/// the whole table as it was.
pub proof fn law_refusal_keeps_table(
    entries: Map<Seq<char>, RateLimitEntry>,
    key: Seq<char>,
    hour: u32,
    day: u32,
    limit: u64,
)
    requires
        entries.contains_key(key),
        entries[key].current(hour, day),
        !entries[key].admits(hour, day, limit),
    ensures
        entries.insert(key, entry_or_fresh(entries, key, hour, day).after(hour, day, limit))
            == entries,
{
    assert(entries.insert(key, entries[key]) =~= entries);
}

/// A new hour starts the count at zero, whatever it was and whether or not
/// the day is the same: the first request of a new hour is let through
/// under any quota but zero, and is the only one counted.
pub proof fn law_new_hour_resets(e: RateLimitEntry, hour: u32, day: u32, limit: u64)
    requires
        e.hour != hour,
    ensures
        e.rolled(hour, day).count == 0,
        limit > 0 ==> e.admits(hour, day, limit),
        limit > 0 ==> e.after(hour, day, limit) == (RateLimitEntry {
            count: 1,
            hour: hour,
            day: day,
        }),
        limit > 0 ==> e.left(hour, day, limit) == limit - 1,
{
}

/// No more is ever counted in a window than the quota allows: an entry that
/// stands at or below the quota stays there.
pub proof fn law_count_stays_within_quota(e: RateLimitEntry, hour: u32, day: u32, limit: u64)
    requires
        e.count <= limit,
    ensures
        e.after(hour, day, limit).count <= limit,
        e.after(hour, day, limit).current(hour, day),
{
}

/// Whether every entry of a table has an hour from 0 to 23 and a day from
/// 1 to 366.
pub open spec fn in_range(entries: Map<Seq<char>, RateLimitEntry>) -> bool {
    forall|key: Seq<char>| #[trigger]
        entries.contains_key(key) ==> entries[key].hour < 24 && 1 <= entries[key].day <= 366
}

/// Requests taken at readings of a clock keep every entry at an hour and a
/// day that a clock can show.
pub proof fn law_entries_stay_in_range(
    before: RateLimiter,
    after: RateLimiter,
    user: Seq<char>,
    tier: SubscriptionTier,
    hour: u32,
    day: u32,
    reset_at: Seq<char>,
    r: Result<(u64, u64), AppError>,
)
    requires
        in_range(before.entries()),
        hour < 24,
        1 <= day <= 366,
        checked_at(before, after, user, tier, hour, day, reset_at, r),
    ensures
        in_range(after.entries()),
{
    let entries = after.entries();
    assert forall|key: Seq<char>| #[trigger] entries.contains_key(key) implies entries[key].hour
        < 24 && 1 <= entries[key].day <= 366 by {
        if key != rate_key(user, tier) {
            assert(before.entries().contains_key(key));
        }
    }
}

/// Every pair of user and tier is counted on its own, and nothing counted
/// is ever dropped: a request leaves behind the entry that the next request
/// of the same user on the same tier finds, and leaves the entries of all
/// others as they were.
pub proof fn law_requests_count_per_user_and_tier(
    before: RateLimiter,
    after: RateLimiter,
    user: Seq<char>,
    tier: SubscriptionTier,
    hour: u32,
    day: u32,
    reset_at: Seq<char>,
    r: Result<(u64, u64), AppError>,
    other_user: Seq<char>,
    other_tier: SubscriptionTier,
)
    requires
        checked_at(before, after, user, tier, hour, day, reset_at, r),
    ensures
        after.entries().contains_key(rate_key(user, tier)),
        after.entries()[rate_key(user, tier)] == entry_or_fresh(
            before.entries(),
            rate_key(user, tier),
            hour,
            day,
        ).after(hour, day, tier.quota(before.config())),
        before.entries().dom().subset_of(after.entries().dom()),
        other_user != user || other_tier != tier ==> {
            &&& after.entries().contains_key(rate_key(other_user, other_tier))
                == before.entries().contains_key(rate_key(other_user, other_tier))
            &&& after.entries()[rate_key(other_user, other_tier)] == before.entries()[rate_key(
                other_user,
                other_tier,
            )]
        },
{
    if other_user != user || other_tier != tier {
        if rate_key(other_user, other_tier) == rate_key(user, tier) {
            law_keys_tell_apart(other_user, other_tier, user, tier);
        }
    }
}

/// The same hour of another day is another window.
pub proof fn law_new_day_resets(e: RateLimitEntry, hour: u32, day: u32)
    requires
        e.day != day,
    ensures
        e.rolled(hour, day) == RateLimitEntry::fresh(hour, day),
{
}

} // verus!
