//! Subscription tiers and what each of them is allowed.

use vstd::prelude::*;
use crate::config::Config;
use crate::text::text_eq;

verus! {

/// The subscription level of a caller.
#[derive(Debug, Clone, Copy, PartialEq, Eq, Structural)]
pub enum SubscriptionTier {
    Basic,
    Pro,
    Ultra,
    Mega,
}

/// The upper-case form of a string, as `str::to_uppercase` of the standard
/// library gives it.
pub uninterp spec fn uppercase_of(s: Seq<char>) -> Seq<char>;

/// Calls `str::to_uppercase`. The result is the upper-case form of the
/// argument by Unicode's rules, a function of the characters alone; nothing
/// more is claimed of it.
#[verifier::external_body]
fn to_upper(s: &str) -> (r: String)
    ensures
        r@ == uppercase_of(s@),
{
    s.to_uppercase()
}

/// The tier that an upper-case plan label names: `PRO`, `ULTRA` and `MEGA`
/// name theirs, and every other label, one that names no tier too, gives
/// `Basic`.
pub open spec fn tier_of_label(upper: Seq<char>) -> SubscriptionTier {
    if upper == "PRO"@ {
        SubscriptionTier::Pro
    } else if upper == "ULTRA"@ {
        SubscriptionTier::Ultra
    } else if upper == "MEGA"@ {
        SubscriptionTier::Mega
    } else {
        SubscriptionTier::Basic
    }
}

/// Only the names of the three higher tiers lift a caller above `Basic`,
/// and each lifts it to its own tier.
pub proof fn law_only_tier_names_lift(upper: Seq<char>)
    ensures
        tier_of_label(upper) == SubscriptionTier::Pro <==> upper == "PRO"@,
        tier_of_label(upper) == SubscriptionTier::Ultra <==> upper == "ULTRA"@,
        tier_of_label(upper) == SubscriptionTier::Mega <==> upper == "MEGA"@,
        upper != "PRO"@ && upper != "ULTRA"@ && upper != "MEGA"@ ==> tier_of_label(upper)
            == SubscriptionTier::Basic,
{
    reveal_strlit("PRO");
    reveal_strlit("ULTRA");
    reveal_strlit("MEGA");
    assert("PRO"@.len() == 3 && "ULTRA"@.len() == 5 && "MEGA"@.len() == 4);
}

impl SubscriptionTier {
    /// The tier's name as shown to callers.
    pub open spec fn name_text(self) -> Seq<char> {
        match self {
            SubscriptionTier::Basic => "basic"@,
            SubscriptionTier::Pro => "pro"@,
            SubscriptionTier::Ultra => "ultra"@,
            SubscriptionTier::Mega => "mega"@,
        }
    }

    /// The tier's price as shown to callers.
    pub open spec fn price_text(self) -> Seq<char> {
        match self {
            SubscriptionTier::Basic => "Free"@,
            SubscriptionTier::Pro => "$49/mo"@,
            SubscriptionTier::Ultra => "$99/mo"@,
            SubscriptionTier::Mega => "$199/mo"@,
        }
    }

    /// Requests per hour that `config` grants the tier.
    pub open spec fn quota(self, config: Config) -> u64 {
        match self {
            SubscriptionTier::Basic => config.rate_limit_basic,
            SubscriptionTier::Pro => config.rate_limit_pro,
            SubscriptionTier::Ultra => config.rate_limit_ultra,
            SubscriptionTier::Mega => config.rate_limit_mega,
        }
    }

    /// The largest page the tier may ask for.
    pub open spec fn page_cap(self) -> u64 {
        match self {
            SubscriptionTier::Basic => 10,
            SubscriptionTier::Pro => 25,
            SubscriptionTier::Ultra => 50,
            SubscriptionTier::Mega => 100,
        }
    }

    /// Whether the tier sees article bodies in full.
    pub open spec fn sees_full_content(self) -> bool {
        self != SubscriptionTier::Basic
    }

    /// Whether the tier sees extracted entities.
    pub open spec fn sees_entities(self) -> bool {
        self == SubscriptionTier::Ultra || self == SubscriptionTier::Mega
    }

    /// The tier named by a label that is already in upper case.
    pub fn from_upper_label(label: &str) -> (tier: Self)
        ensures
            tier == tier_of_label(label@),
    {
        if text_eq(label, "PRO") {
            SubscriptionTier::Pro
        } else if text_eq(label, "ULTRA") {
            SubscriptionTier::Ultra
        } else if text_eq(label, "MEGA") {
            SubscriptionTier::Mega
        } else {
            SubscriptionTier::Basic
        }
    }

    /// The tier named by a plan label, whatever its case. A label that names
    /// no plan gives `Basic`: an unknown caller gets the least, not an error.
    pub fn from_header(value: &str) -> (tier: Self)
        ensures
            tier == tier_of_label(uppercase_of(value@)),
    {
        let upper = to_upper(value);
        Self::from_upper_label(upper.as_str())
    }

    /// The tier's name as shown to callers.
    pub fn name(&self) -> (r: &'static str)
        ensures
            r@ == self.name_text(),
    {
        match self {
            SubscriptionTier::Basic => "basic",
            SubscriptionTier::Pro => "pro",
            SubscriptionTier::Ultra => "ultra",
            SubscriptionTier::Mega => "mega",
        }
    }

    /// Requests per hour that `config` grants the tier.
    pub fn hourly_limit(&self, config: &Config) -> (r: u64)
        ensures
            r == self.quota(*config),
    {
        match self {
            SubscriptionTier::Basic => config.rate_limit_basic,
            SubscriptionTier::Pro => config.rate_limit_pro,
            SubscriptionTier::Ultra => config.rate_limit_ultra,
            SubscriptionTier::Mega => config.rate_limit_mega,
        }
    }

    /// The largest page the tier may ask for.
    pub fn max_page_size(&self) -> (r: u64)
        ensures
            r == self.page_cap(),
    {
        match self {
            SubscriptionTier::Basic => 10,
            SubscriptionTier::Pro => 25,
            SubscriptionTier::Ultra => 50,
            SubscriptionTier::Mega => 100,
        }
    }

    /// Whether the tier sees article bodies in full.
    pub fn has_full_content(&self) -> (r: bool)
        ensures
            r == self.sees_full_content(),
    {
        !matches!(self, SubscriptionTier::Basic)
    }

    /// Whether the tier sees extracted entities.
    pub fn has_entities(&self) -> (r: bool)
        ensures
            r == self.sees_entities(),
    {
        matches!(self, SubscriptionTier::Ultra | SubscriptionTier::Mega)
    }

    /// The tier's price as shown to callers.
    pub fn price_label(&self) -> (r: &'static str)
        ensures
            r@ == self.price_text(),
    {
        match self {
            SubscriptionTier::Basic => "Free",
            SubscriptionTier::Pro => "$49/mo",
            SubscriptionTier::Ultra => "$99/mo",
            SubscriptionTier::Mega => "$199/mo",
        }
    }
}

} // verus!
