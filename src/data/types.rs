//! Records of the exported game data.

use vstd::prelude::*;
use vstd::string::StringSliceAdditionalSpecFns;

verus! {

/// Export metadata.
#[derive(Clone, Debug)]
pub struct MetaData {
    pub version: String,
    pub engine: String,
    pub classification: String,
    pub exported_at: String,
    pub entity_count: usize,
    pub source: String,
}

/// Combat statistics of an entity.
#[derive(Clone, Copy, Debug, PartialEq, Eq, Structural)]
pub struct GameStats {
    pub health: i32,
    pub power: i32,
    pub defense: i32,
    pub conceptual_capacity: i32,
}

/// Optional lore of an entity.
#[derive(Clone, Debug)]
pub struct LoreData {
    pub scent: Option<String>,
    pub word_count: Option<i32>,
    pub edfa_excerpt: Option<String>,
    pub edfa_full: Option<String>,
}

/// Dialogue register of an entity.
#[allow(non_camel_case_types)]
#[derive(Clone, Copy, Debug, PartialEq, Eq, Structural)]
pub enum LinguisticMode {
    EULP_AA,
    LIPAA,
    LUPLR,
    VISUAL,
    META,
    MIXED,
    FACTION,
    /// Context-dependent; also what any unknown name reads as.
    DYNAMIC,
}

/// The mode a name stands for: each mode by its own name, `DYNAMIC` for
/// anything else.
pub open spec fn mode_named(s: Seq<char>) -> LinguisticMode {
    if s == "EULP_AA"@ {
        LinguisticMode::EULP_AA
    } else if s == "LIPAA"@ {
        LinguisticMode::LIPAA
    } else if s == "LUPLR"@ {
        LinguisticMode::LUPLR
    } else if s == "VISUAL"@ {
        LinguisticMode::VISUAL
    } else if s == "META"@ {
        LinguisticMode::META
    } else if s == "MIXED"@ {
        LinguisticMode::MIXED
    } else if s == "FACTION"@ {
        LinguisticMode::FACTION
    } else {
        LinguisticMode::DYNAMIC
    }
}

/// Whether two strings hold the same characters.
pub fn str_equal(a: &str, b: &str) -> (r: bool)
    ensures
        r == (a@ == b@),
{
    let ab = a.as_bytes();
    let bb = b.as_bytes();
    proof {
        vstd::utf8::encode_utf8_decode_utf8(a@);
        vstd::utf8::encode_utf8_decode_utf8(b@);
    }
    if ab.len() != bb.len() {
        return false;
    }
    let mut i: usize = 0;
    while i < ab.len()
        invariant
            ab@.len() == bb@.len(),
            ab@ == a.spec_bytes(),
            bb@ == b.spec_bytes(),
            i <= ab@.len(),
            forall|k: int| 0 <= k < i ==> ab@[k] == bb@[k],
        decreases ab.len() - i,
    {
        if ab[i] != bb[i] {
            return false;
        }
        i = i + 1;
    }
    proof {
        assert(ab@ =~= bb@);
    }
    true
}

impl<'a> From<&'a str> for LinguisticMode {
    fn from(s: &'a str) -> (r: LinguisticMode)
        ensures
            r == mode_named(s@),
    {
        if str_equal(s, "EULP_AA") {
            LinguisticMode::EULP_AA
        } else if str_equal(s, "LIPAA") {
            LinguisticMode::LIPAA
        } else if str_equal(s, "LUPLR") {
            LinguisticMode::LUPLR
        } else if str_equal(s, "VISUAL") {
            LinguisticMode::VISUAL
        } else if str_equal(s, "META") {
            LinguisticMode::META
        } else if str_equal(s, "MIXED") {
            LinguisticMode::MIXED
        } else if str_equal(s, "FACTION") {
            LinguisticMode::FACTION
        } else {
            LinguisticMode::DYNAMIC
        }
    }
}

impl<'a> vstd::std_specs::convert::FromSpecImpl<&'a str> for LinguisticMode {
    open spec fn obeys_from_spec() -> bool {
        true
    }

    open spec fn from_spec(s: &'a str) -> LinguisticMode {
        mode_named(s@)
    }
}

/// Entity tiers are kept in tenths of a tier: tier 0.5 is 5.
pub const TIER_SCALE: i32 = 10;

/// Entities at or below this tier, in tenths, are supreme matriarchs.
pub const SUPREME_MATRIARCH_TIER: i32 = 5;

/// Whether an entity of this tier, in tenths, is a supreme matriarch.
pub fn is_supreme_matriarch(tier_tenths: i32) -> (r: bool)
    ensures
        r == (tier_tenths <= SUPREME_MATRIARCH_TIER),
{
    tier_tenths <= SUPREME_MATRIARCH_TIER
}

/// Rank band of an entity's tier.
#[derive(Clone, Copy, Debug, PartialEq, Eq, Structural)]
pub enum TierRank {
    /// Tier at most 0.5.
    Supreme,
    /// Tier above 0.5, at most 1.0.
    Triumvirate,
    /// Tier above 1.0, at most 2.0.
    Prime,
    /// Any higher tier.
    Lesser,
}

/// The rank band of a tier, in tenths.
pub fn tier_rank(tier_tenths: i32) -> (r: TierRank)
    ensures
        r == if tier_tenths <= 5 {
            TierRank::Supreme
        } else if tier_tenths <= 10 {
            TierRank::Triumvirate
        } else if tier_tenths <= 20 {
            TierRank::Prime
        } else {
            TierRank::Lesser
        },
{
    if tier_tenths <= SUPREME_MATRIARCH_TIER {
        TierRank::Supreme
    } else if tier_tenths <= 10 {
        TierRank::Triumvirate
    } else if tier_tenths <= 20 {
        TierRank::Prime
    } else {
        TierRank::Lesser
    }
}

/// Number of supreme matriarchs among entities of the given tiers, in tenths.
pub open spec fn supreme_count(tiers: Seq<i32>) -> nat
    decreases tiers.len(),
{
    if tiers.len() == 0 {
        0
    } else {
        supreme_count(tiers.drop_last()) + if tiers.last() <= SUPREME_MATRIARCH_TIER {
            1nat
        } else {
            0nat
        }
    }
}

/// Counts the supreme matriarchs among entities of the given tiers, in tenths.
pub fn count_supreme_matriarchs(tiers: &Vec<i32>) -> (r: usize)
    ensures
        r == supreme_count(tiers@),
{
    let mut count: usize = 0;
    let mut i: usize = 0;
    while i < tiers.len()
        invariant
            i <= tiers@.len(),
            count == supreme_count(tiers@.subrange(0, i as int)),
            count <= i,
        decreases tiers.len() - i,
    {
        proof {
            assert(tiers@.subrange(0, i as int + 1).drop_last() =~= tiers@.subrange(0, i as int));
        }
        if tiers[i] <= SUPREME_MATRIARCH_TIER {
            count = count + 1;
        }
        i = i + 1;
    }
    proof {
        assert(tiers@.subrange(0, tiers@.len() as int) =~= tiers@);
    }
    count
}

} // verus!
