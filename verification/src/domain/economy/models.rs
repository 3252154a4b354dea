//! Economy models: the kinds of economy that poe.ninja lists, the tiers of
//! the core currencies, currency items, and the cache of fetched data.

use vstd::prelude::*;
use crate::text::str_equals;
use crate::time::{
    Timestamp, in_rfc3339_years, rfc3339_instant, rfc3339_text, parse_rfc3339, now, now_rfc3339,
    signed_whole_seconds,
};

verus! {

/// A kind of economy, as poe.ninja names it.
#[derive(Debug, Clone, Copy, PartialEq, Eq, Structural, Hash)]
pub enum EconomyType {
    Currency,
    Fragments,
    Abyss,
    UncutGems,
    LineageSupportGems,
    Essences,
    SoulCores,
    Idols,
    Runes,
    Ritual,
    Expedition,
    Delirium,
    Breach,
}

/// The name of an economy type, as poe.ninja and the cache know it.
pub open spec fn economy_type_name(t: EconomyType) -> Seq<char> {
    match t {
        EconomyType::Currency => "Currency"@,
        EconomyType::Fragments => "Fragments"@,
        EconomyType::Abyss => "Abyss"@,
        EconomyType::UncutGems => "UncutGems"@,
        EconomyType::LineageSupportGems => "LineageSupportGems"@,
        EconomyType::Essences => "Essences"@,
        EconomyType::SoulCores => "SoulCores"@,
        EconomyType::Idols => "Idols"@,
        EconomyType::Runes => "Runes"@,
        EconomyType::Ritual => "Ritual"@,
        EconomyType::Expedition => "Expedition"@,
        EconomyType::Delirium => "Delirium"@,
        EconomyType::Breach => "Breach"@,
    }
}

/// The economy type with the name `s` (case matters), if any.
pub open spec fn economy_type_from_name(s: Seq<char>) -> Option<EconomyType> {
    if s == "Currency"@ {
        Some(EconomyType::Currency)
    } else if s == "Fragments"@ {
        Some(EconomyType::Fragments)
    } else if s == "Abyss"@ {
        Some(EconomyType::Abyss)
    } else if s == "UncutGems"@ {
        Some(EconomyType::UncutGems)
    } else if s == "LineageSupportGems"@ {
        Some(EconomyType::LineageSupportGems)
    } else if s == "Essences"@ {
        Some(EconomyType::Essences)
    } else if s == "SoulCores"@ {
        Some(EconomyType::SoulCores)
    } else if s == "Idols"@ {
        Some(EconomyType::Idols)
    } else if s == "Runes"@ {
        Some(EconomyType::Runes)
    } else if s == "Ritual"@ {
        Some(EconomyType::Ritual)
    } else if s == "Expedition"@ {
        Some(EconomyType::Expedition)
    } else if s == "Delirium"@ {
        Some(EconomyType::Delirium)
    } else if s == "Breach"@ {
        Some(EconomyType::Breach)
    } else {
        None
    }
}

/// Every economy type, in the order poe.ninja lists them.
pub open spec fn all_economy_types() -> Seq<EconomyType> {
    seq![EconomyType::Currency, EconomyType::Fragments, EconomyType::Abyss, EconomyType::UncutGems, EconomyType::LineageSupportGems, EconomyType::Essences, EconomyType::SoulCores, EconomyType::Idols, EconomyType::Runes, EconomyType::Ritual, EconomyType::Expedition, EconomyType::Delirium, EconomyType::Breach]
}

/// The message for a name that is no economy type.
pub open spec fn unknown_economy_type_text(s: Seq<char>) -> Seq<char> {
    "Unknown economy type: "@ + s
}

impl EconomyType {
    /// The name of this economy type.
    pub fn as_str(&self) -> (res: &'static str)
        ensures
            res@ == economy_type_name(*self),
    {
        match self {
            EconomyType::Currency => "Currency",
            EconomyType::Fragments => "Fragments",
            EconomyType::Abyss => "Abyss",
            EconomyType::UncutGems => "UncutGems",
            EconomyType::LineageSupportGems => "LineageSupportGems",
            EconomyType::Essences => "Essences",
            EconomyType::SoulCores => "SoulCores",
            EconomyType::Idols => "Idols",
            EconomyType::Runes => "Runes",
            EconomyType::Ritual => "Ritual",
            EconomyType::Expedition => "Expedition",
            EconomyType::Delirium => "Delirium",
            EconomyType::Breach => "Breach",
        }
    }

    /// The name of this economy type, as an owned string.
    pub fn to_string(&self) -> (res: String)
        ensures
            res@ == economy_type_name(*self),
    {
        String::from_str(self.as_str())
    }

    /// Every economy type, in the order poe.ninja lists them.
    pub fn all() -> (res: Vec<EconomyType>)
        ensures
            res@ == all_economy_types(),
    {
        let v = vec![EconomyType::Currency, EconomyType::Fragments, EconomyType::Abyss, EconomyType::UncutGems, EconomyType::LineageSupportGems, EconomyType::Essences, EconomyType::SoulCores, EconomyType::Idols, EconomyType::Runes, EconomyType::Ritual, EconomyType::Expedition, EconomyType::Delirium, EconomyType::Breach];
        assert(v@ =~= all_economy_types());
        v
    }

    /// Parses the name of an economy type (case matters); any other text is
    /// refused with a message naming it.
    pub fn parse(s: &str) -> (res: Result<EconomyType, String>)
        ensures
            economy_type_from_name(s@) matches Some(t) ==> res == Ok::<EconomyType, String>(t),
            economy_type_from_name(s@) is None ==> (res matches Err(e) && e@ == unknown_economy_type_text(s@)),
    {
        if str_equals(s, "Currency") {
            return Ok(EconomyType::Currency);
        }
        if str_equals(s, "Fragments") {
            return Ok(EconomyType::Fragments);
        }
        if str_equals(s, "Abyss") {
            return Ok(EconomyType::Abyss);
        }
        if str_equals(s, "UncutGems") {
            return Ok(EconomyType::UncutGems);
        }
        if str_equals(s, "LineageSupportGems") {
            return Ok(EconomyType::LineageSupportGems);
        }
        if str_equals(s, "Essences") {
            return Ok(EconomyType::Essences);
        }
        if str_equals(s, "SoulCores") {
            return Ok(EconomyType::SoulCores);
        }
        if str_equals(s, "Idols") {
            return Ok(EconomyType::Idols);
        }
        if str_equals(s, "Runes") {
            return Ok(EconomyType::Runes);
        }
        if str_equals(s, "Ritual") {
            return Ok(EconomyType::Ritual);
        }
        if str_equals(s, "Expedition") {
            return Ok(EconomyType::Expedition);
        }
        if str_equals(s, "Delirium") {
            return Ok(EconomyType::Delirium);
        }
        if str_equals(s, "Breach") {
            return Ok(EconomyType::Breach);
        }
        Err(String::from_str("Unknown economy type: ").concat(s))
    }
}

impl core::str::FromStr for EconomyType {
    type Err = String;

    fn from_str(s: &str) -> (res: Result<EconomyType, String>)
        ensures
            economy_type_from_name(s@) matches Some(t) ==> res == Ok::<EconomyType, String>(t),
            economy_type_from_name(s@) is None ==> (res matches Err(e) && e@ == unknown_economy_type_text(s@)),
    {
        EconomyType::parse(s)
    }
}

/// Parsing the name of an economy type gives it back: `as_str` and `parse`
/// are inverse.
pub proof fn lemma_economy_type_name_roundtrip(t: EconomyType)
    ensures
        economy_type_from_name(economy_type_name(t)) == Some(t),
{
    reveal_strlit("Currency");
    assert("Currency"@ =~= seq!['C','u','r','r','e','n','c','y']);
    reveal_strlit("Fragments");
    assert("Fragments"@ =~= seq!['F','r','a','g','m','e','n','t','s']);
    reveal_strlit("Abyss");
    assert("Abyss"@ =~= seq!['A','b','y','s','s']);
    reveal_strlit("UncutGems");
    assert("UncutGems"@ =~= seq!['U','n','c','u','t','G','e','m','s']);
    reveal_strlit("LineageSupportGems");
    assert("LineageSupportGems"@ =~= seq!['L','i','n','e','a','g','e','S','u','p','p','o','r','t','G','e','m','s']);
    reveal_strlit("Essences");
    assert("Essences"@ =~= seq!['E','s','s','e','n','c','e','s']);
    reveal_strlit("SoulCores");
    assert("SoulCores"@ =~= seq!['S','o','u','l','C','o','r','e','s']);
    reveal_strlit("Idols");
    assert("Idols"@ =~= seq!['I','d','o','l','s']);
    reveal_strlit("Runes");
    assert("Runes"@ =~= seq!['R','u','n','e','s']);
    reveal_strlit("Ritual");
    assert("Ritual"@ =~= seq!['R','i','t','u','a','l']);
    reveal_strlit("Expedition");
    assert("Expedition"@ =~= seq!['E','x','p','e','d','i','t','i','o','n']);
    reveal_strlit("Delirium");
    assert("Delirium"@ =~= seq!['D','e','l','i','r','i','u','m']);
    reveal_strlit("Breach");
    assert("Breach"@ =~= seq!['B','r','e','a','c','h']);
}

/// Every economy type is listed by `all`, once.
pub proof fn lemma_all_economy_types_listed(t: EconomyType)
    ensures
        all_economy_types().contains(t),
        all_economy_types().len() == 13,
{
    match t {
        EconomyType::Currency => assert(all_economy_types()[0] == t),
        EconomyType::Fragments => assert(all_economy_types()[1] == t),
        EconomyType::Abyss => assert(all_economy_types()[2] == t),
        EconomyType::UncutGems => assert(all_economy_types()[3] == t),
        EconomyType::LineageSupportGems => assert(all_economy_types()[4] == t),
        EconomyType::Essences => assert(all_economy_types()[5] == t),
        EconomyType::SoulCores => assert(all_economy_types()[6] == t),
        EconomyType::Idols => assert(all_economy_types()[7] == t),
        EconomyType::Runes => assert(all_economy_types()[8] == t),
        EconomyType::Ritual => assert(all_economy_types()[9] == t),
        EconomyType::Expedition => assert(all_economy_types()[10] == t),
        EconomyType::Delirium => assert(all_economy_types()[11] == t),
        EconomyType::Breach => assert(all_economy_types()[12] == t),
    }
}

/// The tier of a core currency: the one prices are given in (primary), the
/// next (secondary), and a third, optional one (tertiary).
#[derive(Debug, Clone, Copy, PartialEq, Eq, Structural, Hash)]
pub enum CurrencyTier {
    Primary,
    Secondary,
    Tertiary,
}

/// The name a tier is stored under.
pub open spec fn tier_name(t: CurrencyTier) -> Seq<char> {
    match t {
        CurrencyTier::Primary => "Primary"@,
        CurrencyTier::Secondary => "Secondary"@,
        CurrencyTier::Tertiary => "Tertiary"@,
    }
}

/// The tier stored under a name; any unknown name reads as primary.
pub open spec fn tier_from_stored(s: Seq<char>) -> CurrencyTier {
    if s == "Secondary"@ {
        CurrencyTier::Secondary
    } else if s == "Tertiary"@ {
        CurrencyTier::Tertiary
    } else {
        CurrencyTier::Primary
    }
}

impl CurrencyTier {
    /// The name this tier is stored under.
    pub fn as_str(&self) -> (res: &'static str)
        ensures
            res@ == tier_name(*self),
    {
        match self {
            CurrencyTier::Primary => "Primary",
            CurrencyTier::Secondary => "Secondary",
            CurrencyTier::Tertiary => "Tertiary",
        }
    }

    /// The tier stored under `s`; an unknown name reads as primary.
    pub fn from_stored(s: &str) -> (res: CurrencyTier)
        ensures
            res == tier_from_stored(s@),
    {
        if str_equals(s, "Secondary") {
            CurrencyTier::Secondary
        } else if str_equals(s, "Tertiary") {
            CurrencyTier::Tertiary
        } else {
            CurrencyTier::Primary
        }
    }
}

/// A stored tier reads back as itself.
pub proof fn lemma_tier_name_roundtrip(t: CurrencyTier)
    ensures
        tier_from_stored(tier_name(t)) == t,
{
    reveal_strlit("Primary");
    assert("Primary"@ =~= seq!['P','r','i','m','a','r','y']);
    reveal_strlit("Secondary");
    assert("Secondary"@ =~= seq!['S','e','c','o','n','d','a','r','y']);
    reveal_strlit("Tertiary");
    assert("Tertiary"@ =~= seq!['T','e','r','t','i','a','r','y']);
}

/// A currency as poe.ninja describes it.
#[derive(Debug, Clone)]
pub struct CurrencyItem {
    pub id: String,
    pub name: String,
    pub image: String,
    pub category: String,
    pub details_id: String,
}

/// A currency as shown: its id, name and the full address of its image.
#[derive(Debug, Clone)]
pub struct CurrencyInfo {
    pub id: String,
    pub name: String,
    pub image_url: String,
}

/// The host that poe.ninja image paths are relative to.
pub open spec fn image_host() -> Seq<char> {
    "https://web.poecdn.com"@
}

impl CurrencyInfo {
    /// The shown form of a currency item: its image path made absolute.
    pub fn from_item(item: &CurrencyItem) -> (res: CurrencyInfo)
        ensures
            res.id == item.id,
            res.name == item.name,
            res.image_url@ == image_host() + item.image@,
    {
        CurrencyInfo {
            id: item.id.clone(),
            name: item.name.clone(),
            image_url: String::from_str("https://web.poecdn.com").concat(item.image.as_str()),
        }
    }
}

/// The time-to-live as a signed number of seconds: capped at `i64::MAX`.
pub open spec fn ttl_limit(ttl_seconds: u64) -> int {
    if ttl_seconds > i64::MAX {
        i64::MAX as int
    } else {
        ttl_seconds as int
    }
}

/// Whether data stamped with the RFC 3339 text `cached_at` is still fresh at
/// `now`: fewer whole seconds than the time-to-live have passed. Text that is
/// no RFC 3339 date-time is never fresh.
pub open spec fn fresh_at(cached_at: Seq<char>, ttl_seconds: u64, now: Timestamp) -> bool {
    match rfc3339_instant(cached_at) {
        Some(stamp) => signed_whole_seconds(now, stamp) < ttl_limit(ttl_seconds),
        None => false,
    }
}

/// Whether data stamped `cached_at` (RFC 3339) is still fresh at `now`.
pub fn is_within_ttl(cached_at: &str, ttl_seconds: u64, now: Timestamp) -> (res: bool)
    ensures
        res == fresh_at(cached_at@, ttl_seconds, now),
{
    match parse_rfc3339(cached_at) {
        None => false,
        Some(stamp) => {
            let d: i128 = (now.secs as i128 - stamp.secs as i128) * 1_000_000_000i128 + (
            now.nanos as i128 - stamp.nanos as i128);
            assert(d == now.total_nanos() - stamp.total_nanos());
            let whole: i128 = if d >= 0 {
                d / 1_000_000_000i128
            } else {
                -((-d) / 1_000_000_000i128)
            };
            let limit: i128 = if ttl_seconds > i64::MAX as u64 {
                i64::MAX as i128
            } else {
                ttl_seconds as i128
            };
            whole < limit
        },
    }
}

/// Fetched data of one economy type, when it was cached (RFC 3339) and for
/// how many seconds it stays fresh.
#[derive(Debug, Clone)]
pub struct CachedEconomyData<D> {
    pub data: D,
    pub cached_at: String,
    pub ttl_seconds: u64,
}

impl<D> CachedEconomyData<D> {
    /// Whether the data is still fresh at `now`.
    pub fn is_fresh_at(&self, now: Timestamp) -> (res: bool)
        ensures
            res == fresh_at(self.cached_at@, self.ttl_seconds, now),
    {
        is_within_ttl(self.cached_at.as_str(), self.ttl_seconds, now)
    }

    /// Whether the data is still fresh now, by the system clock: `is_fresh_at`
    /// the instant the clock gives, which the contract does not know. Data
    /// whose stamp is no RFC 3339 date-time is never fresh.
    pub fn is_fresh(&self) -> (res: bool)
        ensures
            res ==> rfc3339_instant(self.cached_at@) is Some,
    {
        let at = now();
        self.is_fresh_at(at)
    }
}

/// The entries of a cache have one entry per economy type at most.
pub open spec fn keys_unique<D>(entries: Seq<(EconomyType, CachedEconomyData<D>)>) -> bool {
    forall|i: int, j: int|
        0 <= i < entries.len() && 0 <= j < entries.len() && #[trigger] entries[i].0
            == #[trigger] entries[j].0 ==> i == j
}

/// The cached data of an economy type among the entries, if any.
pub open spec fn cached_entry<D>(
    entries: Seq<(EconomyType, CachedEconomyData<D>)>,
    t: EconomyType,
) -> Option<CachedEconomyData<D>> {
    if exists|i: int| 0 <= i < entries.len() && #[trigger] entries[i].0 == t {
        let i = choose|i: int| 0 <= i < entries.len() && #[trigger] entries[i].0 == t;
        Some(entries[i].1)
    } else {
        None
    }
}

/// In entries with unique keys, the entry of a key is the one at its
/// position.
pub proof fn lemma_entry_at<D>(entries: Seq<(EconomyType, CachedEconomyData<D>)>, i: int)
    requires
        keys_unique(entries),
        0 <= i < entries.len(),
    ensures
        cached_entry(entries, entries[i].0) == Some(entries[i].1),
{
    let t = entries[i].0;
    assert(entries[i].0 == t);
    let j = choose|j: int| 0 <= j < entries.len() && #[trigger] entries[j].0 == t;
    assert(entries[i].0 == entries[j].0);
}

/// The cached data of every economy type of one league.
#[derive(Debug, Clone)]
pub struct LeagueEconomyCache<D> {
    pub league: String,
    pub is_hardcore: bool,
    pub last_updated: String,
    pub economy_types: Vec<(EconomyType, CachedEconomyData<D>)>,
}

impl<D> LeagueEconomyCache<D> {
    /// Each economy type has one entry at most.
    pub open spec fn well_formed(&self) -> bool {
        keys_unique(self.economy_types@)
    }

    /// The cached data of an economy type, if any.
    pub open spec fn entry(&self, t: EconomyType) -> Option<CachedEconomyData<D>> {
        cached_entry(self.economy_types@, t)
    }

    /// An empty cache for a league, stamped now.
    pub fn new(league: String, is_hardcore: bool) -> (res: LeagueEconomyCache<D>)
        ensures
            res.well_formed(),
            res.league == league,
            res.is_hardcore == is_hardcore,
            forall|t: EconomyType| res.entry(t) is None,
    {
        LeagueEconomyCache {
            league,
            is_hardcore,
            last_updated: now_rfc3339(),
            economy_types: Vec::new(),
        }
    }

    /// Stores fresh data for an economy type, stamped now, replacing what was
    /// cached for it; the other economy types keep their data. The entry and
    /// the cache are stamped as `update_economy_type_at` stamps them, with the
    /// instant the clock gives; that instant is not known to the contract.
    pub fn update_economy_type(&mut self, economy_type: EconomyType, data: D, ttl_seconds: u64)
        requires
            old(self).well_formed(),
        ensures
            final(self).well_formed(),
            final(self).league == old(self).league,
            final(self).is_hardcore == old(self).is_hardcore,
            final(self).entry(economy_type) matches Some(c) && c.data == data && c.ttl_seconds
                == ttl_seconds,
            forall|t: EconomyType| t != economy_type ==> final(self).entry(t) == old(self).entry(t),
    {
        let at = now();
        self.update_economy_type_at(economy_type, data, ttl_seconds, at);
    }

    /// Stores fresh data for an economy type, stamped with the instant `at`,
    /// replacing what was cached for it; the other economy types keep their
    /// data. The entry and the cache are stamped with the RFC 3339 text of
    /// `at`, which reads back as `at` whenever its year has four digits.
    pub fn update_economy_type_at(
        &mut self,
        economy_type: EconomyType,
        data: D,
        ttl_seconds: u64,
        at: Timestamp,
    )
        requires
            old(self).well_formed(),
        ensures
            final(self).well_formed(),
            final(self).league == old(self).league,
            final(self).is_hardcore == old(self).is_hardcore,
            final(self).entry(economy_type) matches Some(c) && c.data == data && c.ttl_seconds
                == ttl_seconds,
            forall|t: EconomyType| t != economy_type ==> final(self).entry(t) == old(self).entry(t),
            in_rfc3339_years(at) ==> (final(self).entry(economy_type) matches Some(c)
                && rfc3339_instant(c.cached_at@) == Some(at)),
            in_rfc3339_years(at) ==> rfc3339_instant(final(self).last_updated@) == Some(at),
    {
        let entry = CachedEconomyData { data, cached_at: rfc3339_text(at), ttl_seconds };
        let ghost before = self.economy_types@;
        let n = self.economy_types.len();
        let mut pos: usize = n;
        let mut i: usize = 0;
        while i < n
            invariant
                i <= n,
                n == before.len(),
                self.economy_types@ == before,
                pos == n || (pos < i && before[pos as int].0 == economy_type),
                pos == n ==> forall|k: int| 0 <= k < i ==> before[k].0 != economy_type,
            decreases n - i,
        {
            if pos == n && self.economy_types[i].0 == economy_type {
                pos = i;
            }
            i = i + 1;
        }
        let i = pos;
        if i < self.economy_types.len() {
            self.economy_types.set(i, (economy_type, entry));
            let ghost after = self.economy_types@;
            assert(after[i as int].0 == economy_type);
            assert forall|a: int, b: int|
                0 <= a < after.len() && 0 <= b < after.len() && #[trigger] after[a].0
                    == #[trigger] after[b].0 implies a == b by {
                if a != i && b != i {
                    assert(before[a].0 == before[b].0);
                } else if a == i && b != i {
                    assert(before[b].0 == before[i as int].0);
                } else if b == i && a != i {
                    assert(before[a].0 == before[i as int].0);
                }
            }
            assert forall|t: EconomyType| t != economy_type implies #[trigger] cached_entry(after, t)
                == cached_entry(before, t) by {
                if exists|k: int| 0 <= k < before.len() && #[trigger] before[k].0 == t {
                    let k = choose|k: int| 0 <= k < before.len() && #[trigger] before[k].0 == t;
                    assert(after[k].0 == t);
                } else if exists|k: int| 0 <= k < after.len() && #[trigger] after[k].0 == t {
                    let k = choose|k: int| 0 <= k < after.len() && #[trigger] after[k].0 == t;
                    assert(before[k].0 == t);
                }
            }
        } else {
            self.economy_types.push((economy_type, entry));
            let ghost after = self.economy_types@;
            assert(after[before.len() as int].0 == economy_type);
            assert forall|a: int, b: int|
                0 <= a < after.len() && 0 <= b < after.len() && #[trigger] after[a].0
                    == #[trigger] after[b].0 implies a == b by {
                if a < before.len() && b < before.len() {
                    assert(before[a].0 == before[b].0);
                }
            }
            assert forall|t: EconomyType| t != economy_type implies #[trigger] cached_entry(after, t)
                == cached_entry(before, t) by {
                if exists|k: int| 0 <= k < before.len() && #[trigger] before[k].0 == t {
                    let k = choose|k: int| 0 <= k < before.len() && #[trigger] before[k].0 == t;
                    assert(after[k].0 == t);
                } else if exists|k: int| 0 <= k < after.len() && #[trigger] after[k].0 == t {
                    let k = choose|k: int| 0 <= k < after.len() && #[trigger] after[k].0 == t;
                    assert(k < before.len());
                    assert(before[k].0 == t);
                }
            }
        }
        self.last_updated = rfc3339_text(at);
    }

    /// The cached data of an economy type, if any.
    pub fn get_economy_type(&self, economy_type: EconomyType) -> (res: Option<&CachedEconomyData<D>>)
        requires
            self.well_formed(),
        ensures
            match self.entry(economy_type) {
                Some(c) => res matches Some(r) && *r == c,
                None => res is None,
            },
    {
        let mut i: usize = 0;
        while i < self.economy_types.len()
            invariant
                i <= self.economy_types.len(),
                keys_unique(self.economy_types@),
                forall|k: int| 0 <= k < i ==> self.economy_types@[k].0 != economy_type,
            decreases self.economy_types.len() - i,
        {
            if self.economy_types[i].0 == economy_type {
                proof {
                    lemma_entry_at(self.economy_types@, i as int);
                }
                return Some(&self.economy_types[i].1);
            }
            i = i + 1;
        }
        None
    }
}

} // verus!
