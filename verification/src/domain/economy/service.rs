//! The rules of the economy service: how the poe.ninja address and the
//! cache key are formed, how league names are given to poe.ninja, how long
//! to wait between attempts and which failures are retried, and how an API
//! response is checked. Requests, waiting and storage are done by the
//! caller.

use vstd::prelude::*;
use crate::domain::economy::models::{
    CurrencyInfo, CurrencyItem, CurrencyTier, EconomyType, economy_type_name, image_host,
    lemma_economy_type_name_roundtrip,
};
use crate::errors::{AppError, ErrorKind, operation_message};
use crate::text::{
    contains_text, eq_ignore_ascii_case, has_prefix, is_blank, is_blank_str, str_contains,
    str_eq_ignore_ascii_case, str_equals, str_starts_with, str_suffix_from,
};
use crate::url::{url_encode, url_encoded};

verus! {

/// The poe.ninja address that exchange overviews are requested from.
pub const POE_NINJA_API_BASE_URL: &'static str = "https://poe.ninja/poe2/api/economy/exchange/current/overview";

/// Seconds that fetched economy data stays fresh.
pub const CACHE_TTL_SECONDS: u64 = 600;

/// Attempts made to fetch before giving up.
pub const MAX_RETRY_ATTEMPTS: u32 = 3;

/// Milliseconds waited before the first retry.
pub const INITIAL_RETRY_DELAY_MS: u64 = 500;

/// How many times longer each retry waits than the one before.
pub const RETRY_BACKOFF_MULTIPLIER: u32 = 3;

/// Three to the power `n`.
pub open spec fn power_of_three(n: nat) -> nat
    decreases n,
{
    if n == 0 {
        1
    } else {
        3 * power_of_three((n - 1) as nat)
    }
}

/// The wait before attempt `attempt` (counted from 0), in milliseconds: none
/// before the first, then 500 ms, multiplied by three for each later attempt.
pub open spec fn retry_delay_ms(attempt: nat) -> int {
    if attempt == 0 {
        0
    } else {
        500 * (power_of_three((attempt - 1) as nat) as int)
    }
}

/// The text of a boolean, as `Display` writes it.
pub open spec fn bool_text(b: bool) -> Seq<char> {
    if b {
        "true"@
    } else {
        "false"@
    }
}

/// The key a league, hardcore flag and economy type are cached under:
/// "`league`:`hardcore`:`type`".
pub open spec fn cache_key_text(league: Seq<char>, is_hardcore: bool, t: EconomyType) -> Seq<char> {
    league + ":"@ + bool_text(is_hardcore) + ":"@ + economy_type_name(t)
}

/// A league's name with a leading "The " removed.
pub open spec fn without_the(league: Seq<char>) -> Seq<char> {
    if has_prefix(league, "The "@) {
        league.subrange(4, league.len() as int)
    } else {
        league
    }
}

/// The league name poe.ninja knows a league by: "Hardcore" for hardcore
/// Standard (in any case), "HC " before the name for other hardcore leagues,
/// and a leading "The " dropped.
pub open spec fn league_for_api(league: Seq<char>, is_hardcore: bool) -> Seq<char> {
    if is_hardcore {
        if eq_ignore_ascii_case(league, "Standard"@) {
            "Hardcore"@
        } else {
            "HC "@ + without_the(league)
        }
    } else {
        without_the(league)
    }
}

/// The league name poe.ninja knows a softcore league by is the league's own
/// name, but for a leading "The ", which is dropped; so it is "Hardcore"
/// only for a league named "Hardcore" or "The Hardcore".
pub proof fn lemma_softcore_league_name(league: Seq<char>)
    ensures
        if league.len() >= 4 && league.subrange(0, 4) == "The "@ {
            "The "@ + league_for_api(league, false) == league
        } else {
            league_for_api(league, false) == league
        },
{
    reveal_strlit("The ");
    if league.len() >= 4 && league.subrange(0, 4) == "The "@ {
        assert("The "@ + league.subrange(4, league.len() as int) =~= league);
    }
}

/// A hardcore league other than Standard is known to poe.ninja by "HC "
/// before the name its softcore counterpart is known by; hardcore Standard,
/// in any case, is "Hardcore".
pub proof fn lemma_hardcore_league_name(league: Seq<char>)
    ensures
        eq_ignore_ascii_case(league, "Standard"@) ==> league_for_api(league, true) == "Hardcore"@,
        !eq_ignore_ascii_case(league, "Standard"@) ==> league_for_api(league, true) == "HC "@
            + league_for_api(league, false),
{
}

/// The poe.ninja address of the overview of an economy type in a league.
pub open spec fn poe_ninja_url(league_name: Seq<char>, t: EconomyType) -> Seq<char> {
    POE_NINJA_API_BASE_URL@ + "?league="@ + url_encoded(league_name) + "&type="@
        + economy_type_name(t)
}

/// The poe.ninja rules: addresses, cache keys, league names and retries.
#[derive(Debug, Clone, Copy)]
pub struct EconomyService {}

impl EconomyService {
    /// The poe.ninja address of the overview of an economy type in a league;
    /// the league name is percent-encoded.
    pub fn build_poe_ninja_url(league_name: &str, economy_type: EconomyType) -> (res: String)
        ensures
            res@ == poe_ninja_url(league_name@, economy_type),
    {
        let encoded = url_encode(league_name);
        String::from_str(POE_NINJA_API_BASE_URL).concat("?league=").concat(encoded.as_str()).concat(
            "&type=",
        ).concat(economy_type.as_str())
    }

    /// The wait before attempt `attempt` (counted from 0), in milliseconds.
    pub fn calculate_retry_delay(attempt: u32) -> (res: u64)
        requires
            attempt <= 21,
        ensures
            res == retry_delay_ms(attempt as nat),
    {
        if attempt == 0 {
            return 0;
        }
        let mut factor: u64 = 1;
        let mut k: u32 = 0;
        while k < attempt - 1
            invariant
                k <= attempt - 1,
                attempt <= 21,
                factor == power_of_three(k as nat),
            decreases attempt - 1 - k,
        {
            proof {
                lemma_power_of_three_bounded(k as nat);
            }
            factor = factor * 3;
            k = k + 1;
        }
        proof {
            lemma_power_of_three_bounded(k as nat);
        }
        INITIAL_RETRY_DELAY_MS * factor
    }

    /// Only network failures are retried.
    pub fn is_retryable_error(error: &AppError) -> (res: bool)
        ensures
            res == (error.kind() == ErrorKind::Network),
    {
        match error {
            AppError::Network { .. } => true,
            _ => false,
        }
    }

    /// The key a league, hardcore flag and economy type are cached under.
    pub fn cache_key(league: &str, is_hardcore: bool, economy_type: EconomyType) -> (res: String)
        ensures
            res@ == cache_key_text(league@, is_hardcore, economy_type),
    {
        let flag = if is_hardcore {
            "true"
        } else {
            "false"
        };
        String::from_str(league).concat(":").concat(flag).concat(":").concat(economy_type.as_str())
    }

    /// The name poe.ninja knows a league by.
    pub fn format_league_for_api(league: &str, is_hardcore: bool) -> (res: String)
        ensures
            res@ == league_for_api(league@, is_hardcore),
    {
        let name = if str_starts_with(league, "The ") {
            proof {
                reveal_strlit("The ");
            }
            str_suffix_from(league, 4)
        } else {
            String::from_str(league)
        };
        if is_hardcore {
            if str_eq_ignore_ascii_case(league, "Standard") {
                String::from_str("Hardcore")
            } else {
                String::from_str("HC ").concat(name.as_str())
            }
        } else {
            name
        }
    }
}

/// Three to the power of 20 or less fits the delay computation.
proof fn lemma_power_of_three_bounded(k: nat)
    requires
        k <= 20,
    ensures
        1 <= power_of_three(k) <= 3486784401,
    decreases 20 - k,
{
    if k < 20 {
        lemma_power_of_three_bounded(k + 1);
    } else {
        reveal_with_fuel(power_of_three, 21);
    }
}

/// No character of the text is a colon.
pub open spec fn colon_free(s: Seq<char>) -> bool {
    forall|i: int| 0 <= i < s.len() ==> s[i] != ':'
}

/// Where two texts end in a colon and a colon-free part, they split there
/// alike.
proof fn lemma_split_at_last_colon(a: Seq<char>, b: Seq<char>, c: Seq<char>, d: Seq<char>)
    requires
        colon_free(b),
        colon_free(d),
        a + ":"@ + b == c + ":"@ + d,
    ensures
        a == c,
        b == d,
{
    reveal_strlit(":");
    assert(":"@ =~= seq![':']);
    let x = a + ":"@ + b;
    assert(x.len() == a.len() + 1 + b.len());
    assert(x.len() == c.len() + 1 + d.len());
    assert(x[a.len() as int] == ':');
    assert((c + ":"@ + d)[c.len() as int] == ':');
    if a.len() < c.len() {
        assert(x[c.len() as int] == b[c.len() - a.len() - 1]);
        assert(false);
    } else if c.len() < a.len() {
        assert((c + ":"@ + d)[a.len() as int] == d[a.len() - c.len() - 1]);
        assert(false);
    }
    assert(a =~= x.subrange(0, a.len() as int));
    assert(c =~= (c + ":"@ + d).subrange(0, c.len() as int));
    assert(b =~= x.subrange(a.len() as int + 1, x.len() as int));
    assert(d =~= (c + ":"@ + d).subrange(c.len() as int + 1, x.len() as int));
}

/// The names of economy types and the texts of booleans hold no colon.
proof fn lemma_key_parts_colon_free(t: EconomyType, h: bool)
    ensures
        colon_free(economy_type_name(t)),
        colon_free(bool_text(h)),
{
    reveal_strlit("true");
    assert("true"@ =~= seq!['t','r','u','e']);
    reveal_strlit("false");
    assert("false"@ =~= seq!['f','a','l','s','e']);
    match t {
        EconomyType::Currency => {
            reveal_strlit("Currency");
            assert("Currency"@ =~= seq!['C','u','r','r','e','n','c','y']);
        },
        EconomyType::Fragments => {
            reveal_strlit("Fragments");
            assert("Fragments"@ =~= seq!['F','r','a','g','m','e','n','t','s']);
        },
        EconomyType::Abyss => {
            reveal_strlit("Abyss");
            assert("Abyss"@ =~= seq!['A','b','y','s','s']);
        },
        EconomyType::UncutGems => {
            reveal_strlit("UncutGems");
            assert("UncutGems"@ =~= seq!['U','n','c','u','t','G','e','m','s']);
        },
        EconomyType::LineageSupportGems => {
            reveal_strlit("LineageSupportGems");
            assert("LineageSupportGems"@ =~= seq!['L','i','n','e','a','g','e','S','u','p','p','o','r','t','G','e','m','s']);
        },
        EconomyType::Essences => {
            reveal_strlit("Essences");
            assert("Essences"@ =~= seq!['E','s','s','e','n','c','e','s']);
        },
        EconomyType::SoulCores => {
            reveal_strlit("SoulCores");
            assert("SoulCores"@ =~= seq!['S','o','u','l','C','o','r','e','s']);
        },
        EconomyType::Idols => {
            reveal_strlit("Idols");
            assert("Idols"@ =~= seq!['I','d','o','l','s']);
        },
        EconomyType::Runes => {
            reveal_strlit("Runes");
            assert("Runes"@ =~= seq!['R','u','n','e','s']);
        },
        EconomyType::Ritual => {
            reveal_strlit("Ritual");
            assert("Ritual"@ =~= seq!['R','i','t','u','a','l']);
        },
        EconomyType::Expedition => {
            reveal_strlit("Expedition");
            assert("Expedition"@ =~= seq!['E','x','p','e','d','i','t','i','o','n']);
        },
        EconomyType::Delirium => {
            reveal_strlit("Delirium");
            assert("Delirium"@ =~= seq!['D','e','l','i','r','i','u','m']);
        },
        EconomyType::Breach => {
            reveal_strlit("Breach");
            assert("Breach"@ =~= seq!['B','r','e','a','c','h']);
        },
    }
}

/// Different leagues, hardcore flags or economy types are cached under
/// different keys: the key gives all three back.
pub proof fn lemma_cache_key_injective(
    league1: Seq<char>,
    hardcore1: bool,
    type1: EconomyType,
    league2: Seq<char>,
    hardcore2: bool,
    type2: EconomyType,
)
    requires
        cache_key_text(league1, hardcore1, type1) == cache_key_text(league2, hardcore2, type2),
    ensures
        league1 == league2,
        hardcore1 == hardcore2,
        type1 == type2,
{
    lemma_key_parts_colon_free(type1, hardcore1);
    lemma_key_parts_colon_free(type2, hardcore2);
    lemma_split_at_last_colon(
        league1 + ":"@ + bool_text(hardcore1),
        economy_type_name(type1),
        league2 + ":"@ + bool_text(hardcore2),
        economy_type_name(type2),
    );
    lemma_split_at_last_colon(league1, bool_text(hardcore1), league2, bool_text(hardcore2));
    lemma_economy_type_name_roundtrip(type1);
    lemma_economy_type_name_roundtrip(type2);
    reveal_strlit("true");
    reveal_strlit("false");
    assert("true"@.len() != "false"@.len());
}

/// What to do after an attempt to fetch failed.
#[derive(Debug, Clone, Copy, PartialEq, Eq, Structural)]
pub enum RetryDecision {
    /// Wait `delay_ms` milliseconds, then make attempt `next_attempt`.
    RetryAfter { next_attempt: u32, delay_ms: u64 },
    /// Stop and report the failure of this attempt.
    GiveUp,
}

impl EconomyService {
    /// After attempt `attempt` (counted from 0) failed with `error`: a
    /// network failure is retried, after the backoff delay, while attempts
    /// are left; any other failure, or the last attempt's, is reported.
    pub fn after_failed_attempt(attempt: u32, error: &AppError) -> (res: RetryDecision)
        requires
            attempt < MAX_RETRY_ATTEMPTS,
        ensures
            error.kind() != ErrorKind::Network ==> res == RetryDecision::GiveUp,
            error.kind() == ErrorKind::Network && attempt + 1 < MAX_RETRY_ATTEMPTS ==> res
                == (RetryDecision::RetryAfter {
                next_attempt: (attempt + 1) as u32,
                delay_ms: retry_delay_ms((attempt + 1) as nat) as u64,
            }),
            error.kind() == ErrorKind::Network && attempt + 1 >= MAX_RETRY_ATTEMPTS ==> res
                == RetryDecision::GiveUp,
    {
        if !EconomyService::is_retryable_error(error) {
            return RetryDecision::GiveUp;
        }
        let next = attempt + 1;
        if next < MAX_RETRY_ATTEMPTS {
            RetryDecision::RetryAfter {
                next_attempt: next,
                delay_ms: EconomyService::calculate_retry_delay(next),
            }
        } else {
            RetryDecision::GiveUp
        }
    }

    /// A league name must not be blank.
    pub fn validate_league(league: &str) -> (res: Result<(), AppError>)
        ensures
            res is Ok <==> !is_blank(league@),
            res matches Err(e) ==> e.kind() == ErrorKind::Validation && e.message()
                == operation_message(
                "fetch_currency_exchange_data"@,
                "League name cannot be empty"@,
            ),
    {
        if is_blank_str(league) {
            Err(
                AppError::validation_error(
                    "fetch_currency_exchange_data",
                    "League name cannot be empty",
                ),
            )
        } else {
            Ok(())
        }
    }

    /// Checks the status of a poe.ninja response (`status_text` is how the
    /// status is shown, such as "404 Not Found"): a success passes, a client
    /// error (400 to 499) is a validation error that is not retried, and any
    /// other status is a network error that is.
    pub fn check_response_status(status: u16, status_text: &str) -> (res: Result<(), AppError>)
        ensures
            200 <= status <= 299 <==> res is Ok,
            400 <= status <= 499 ==> (res matches Err(e) && e.kind() == ErrorKind::Validation
                && e.message() == operation_message(
                "poe.ninja_api"@,
                "API client error: "@ + status_text@,
            )),
            !(200 <= status <= 299) && !(400 <= status <= 499) ==> (res matches Err(e) && e.kind()
                == ErrorKind::Network && e.message() == operation_message(
                "poe.ninja_api"@,
                "API server error: "@ + status_text@,
            )),
    {
        if 200 <= status && status <= 299 {
            Ok(())
        } else if 400 <= status && status <= 499 {
            let message = String::from_str("API client error: ").concat(status_text);
            Err(AppError::validation_error("poe.ninja_api", message.as_str()))
        } else {
            let message = String::from_str("API server error: ").concat(status_text);
            Err(AppError::network_error("poe.ninja_api", message.as_str()))
        }
    }

    /// The error a failed conversion of a response is reported with: missing
    /// currency data is a validation error, anything else a serialization
    /// error.
    pub fn conversion_error(message: &str) -> (res: AppError)
        ensures
            contains_text(message@, "No currency data available"@) ==> res.kind()
                == ErrorKind::Validation && res.message() == operation_message(
                "convert_api_response"@,
                message@,
            ),
            !contains_text(message@, "No currency data available"@) ==> res.kind()
                == ErrorKind::Serialization && res.message() == operation_message(
                "process_currency_data"@,
                message@,
            ),
    {
        if str_contains(message, "No currency data available") {
            AppError::validation_error("convert_api_response", message)
        } else {
            AppError::serialization_error("process_currency_data", message)
        }
    }

    /// When a fetch failed: the stale cached data if there is any, else the
    /// failure.
    pub fn fallback_to_stale<D>(error: AppError, stale: Option<D>) -> (res: Result<D, AppError>)
        ensures
            stale matches Some(d) ==> res == Ok::<D, AppError>(d),
            stale is None ==> res == Err::<D, AppError>(error),
    {
        match stale {
            Some(d) => Ok(d),
            None => Err(error),
        }
    }
}

/// `i` is the position of the first item with id `id`.
pub open spec fn is_first_item_with_id(items: Seq<CurrencyItem>, id: Seq<char>, i: int) -> bool {
    &&& 0 <= i < items.len()
    &&& items[i].id@ == id
    &&& forall|j: int| 0 <= j < i ==> items[j].id@ != id
}

/// No item has id `id`.
pub open spec fn no_item_with_id(items: Seq<CurrencyItem>, id: Seq<char>) -> bool {
    forall|j: int| 0 <= j < items.len() ==> items[j].id@ != id
}

/// The position of the first item with id `id`, if any.
pub fn find_currency_item(items: &Vec<CurrencyItem>, id: &str) -> (res: Option<usize>)
    ensures
        res matches Some(i) ==> is_first_item_with_id(items@, id@, i as int),
        res is None ==> no_item_with_id(items@, id@),
{
    let mut i: usize = 0;
    while i < items.len()
        invariant
            i <= items.len(),
            forall|j: int| 0 <= j < i ==> items@[j].id@ != id@,
        decreases items.len() - i,
    {
        if str_equals(items[i].id.as_str(), id) {
            return Some(i);
        }
        i = i + 1;
    }
    None
}

/// The message for a core currency missing from the core items.
pub open spec fn core_currency_missing_text(id: Seq<char>) -> Seq<char> {
    "No currency data available - '"@ + id + "' currency not found"@
}

/// The shown form of the core currency with id `id`, as the core items give
/// it.
pub open spec fn core_currency_found(items: Seq<CurrencyItem>, id: Seq<char>, info: CurrencyInfo) -> bool {
    exists|i: int|
        is_first_item_with_id(items, id, i) && info.id == items[i].id && info.name == items[i].name
            && #[trigger] info.image_url@ == image_host() + items[i].image@
}

/// The primary and secondary currencies of a poe.ninja response: there must
/// be some items, both core currencies must be named and both must be among
/// the core items, checked in that order.
pub fn resolve_core_currencies(
    items: &Vec<CurrencyItem>,
    core_items: &Vec<CurrencyItem>,
    primary: &str,
    secondary: &str,
) -> (res: Result<(CurrencyInfo, CurrencyInfo), String>)
    ensures
        items@.len() == 0 && core_items@.len() == 0 ==> (res matches Err(e) && e@
            == "No currency data available for this economy type"@),
        !(items@.len() == 0 && core_items@.len() == 0) && primary@.len() == 0 ==> (res matches Err(e)
            && e@ == "API response missing primary currency"@),
        !(items@.len() == 0 && core_items@.len() == 0) && primary@.len() != 0 && secondary@.len()
            == 0 ==> (res matches Err(e) && e@ == "API response missing secondary currency"@),
        !(items@.len() == 0 && core_items@.len() == 0) && primary@.len() != 0 && secondary@.len()
            != 0 && no_item_with_id(core_items@, primary@) ==> (res matches Err(e) && e@
            == core_currency_missing_text(primary@)),
        !(items@.len() == 0 && core_items@.len() == 0) && primary@.len() != 0 && secondary@.len()
            != 0 && !no_item_with_id(core_items@, primary@) && no_item_with_id(core_items@, secondary@)
            ==> (res matches Err(e) && e@ == core_currency_missing_text(secondary@)),
        !(items@.len() == 0 && core_items@.len() == 0) && primary@.len() != 0 && secondary@.len()
            != 0 && !no_item_with_id(core_items@, primary@) && !no_item_with_id(core_items@, secondary@)
            ==> (res matches Ok((p, s)) && core_currency_found(core_items@, primary@, p)
            && core_currency_found(core_items@, secondary@, s)),
{
    if items.len() == 0 && core_items.len() == 0 {
        return Err(String::from_str("No currency data available for this economy type"));
    }
    if primary.unicode_len() == 0 {
        return Err(String::from_str("API response missing primary currency"));
    }
    if secondary.unicode_len() == 0 {
        return Err(String::from_str("API response missing secondary currency"));
    }
    let p = match find_currency_item(core_items, primary) {
        None => {
            return Err(
                String::from_str("No currency data available - '").concat(primary).concat(
                    "' currency not found",
                ),
            );
        },
        Some(i) => CurrencyInfo::from_item(&core_items[i]),
    };
    let s = match find_currency_item(core_items, secondary) {
        None => {
            return Err(
                String::from_str("No currency data available - '").concat(secondary).concat(
                    "' currency not found",
                ),
            );
        },
        Some(i) => CurrencyInfo::from_item(&core_items[i]),
    };
    Ok((p, s))
}

/// The currency and tier an exchange line is shown in. A core currency is
/// never shown in itself: the primary is shown in the secondary, the
/// secondary in the primary, the tertiary in the secondary. Any other line
/// is shown in the currency of its tier, the secondary standing in for a
/// missing tertiary.
pub open spec fn display_choice(
    line_id: Seq<char>,
    primary: CurrencyInfo,
    secondary: CurrencyInfo,
    tertiary: Option<CurrencyInfo>,
    tier: CurrencyTier,
) -> (CurrencyInfo, CurrencyTier) {
    if line_id == primary.id@ {
        (secondary, CurrencyTier::Secondary)
    } else if line_id == secondary.id@ {
        (primary, CurrencyTier::Primary)
    } else if tertiary matches Some(t) && line_id == t.id@ {
        (secondary, CurrencyTier::Secondary)
    } else {
        match tier {
            CurrencyTier::Primary => (primary, CurrencyTier::Primary),
            CurrencyTier::Secondary => (secondary, CurrencyTier::Secondary),
            CurrencyTier::Tertiary => (
                match tertiary {
                    Some(t) => t,
                    None => secondary,
                },
                CurrencyTier::Tertiary,
            ),
        }
    }
}

/// Clones the shown form of a currency.
fn copy_info(info: &CurrencyInfo) -> (res: CurrencyInfo)
    ensures
        res == *info,
{
    CurrencyInfo {
        id: info.id.clone(),
        name: info.name.clone(),
        image_url: info.image_url.clone(),
    }
}

/// The currency and tier an exchange line with id `line_id` is shown in,
/// `tier` being the tier its value selects.
pub fn display_currency_for(
    line_id: &str,
    primary: &CurrencyInfo,
    secondary: &CurrencyInfo,
    tertiary: &Option<CurrencyInfo>,
    tier: CurrencyTier,
) -> (res: (CurrencyInfo, CurrencyTier))
    ensures
        res == display_choice(line_id@, *primary, *secondary, *tertiary, tier),
{
    if str_equals(line_id, primary.id.as_str()) {
        return (copy_info(secondary), CurrencyTier::Secondary);
    }
    if str_equals(line_id, secondary.id.as_str()) {
        return (copy_info(primary), CurrencyTier::Primary);
    }
    let is_tertiary = match tertiary {
        Some(t) => str_equals(line_id, t.id.as_str()),
        None => false,
    };
    if is_tertiary {
        return (copy_info(secondary), CurrencyTier::Secondary);
    }
    match tier {
        CurrencyTier::Primary => (copy_info(primary), CurrencyTier::Primary),
        CurrencyTier::Secondary => (copy_info(secondary), CurrencyTier::Secondary),
        CurrencyTier::Tertiary => match tertiary {
            Some(t) => (copy_info(t), CurrencyTier::Tertiary),
            None => (copy_info(secondary), CurrencyTier::Tertiary),
        },
    }
}

} // verus!
