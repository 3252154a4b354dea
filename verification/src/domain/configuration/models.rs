//! Configuration models: the zone refresh interval, the application
//! configuration and its validation.

use vstd::prelude::*;
use crate::text::{
    str_equals, str_starts_with, has_prefix, is_blank, is_blank_str, to_lowercase,
    unicode_lowercase,
};
use crate::time::{Timestamp, now};

verus! {

/// How often zone data is refreshed.
#[derive(Debug, Clone, Copy, PartialEq, Eq, Structural)]
pub enum ZoneRefreshInterval {
    FiveMinutes,
    OneHour,
    TwelveHours,
    TwentyFourHours,
    ThreeDays,
    SevenDays,
}

/// The length of an interval in seconds.
pub open spec fn interval_seconds(i: ZoneRefreshInterval) -> int {
    match i {
        ZoneRefreshInterval::FiveMinutes => 300,
        ZoneRefreshInterval::OneHour => 3600,
        ZoneRefreshInterval::TwelveHours => 43200,
        ZoneRefreshInterval::TwentyFourHours => 86400,
        ZoneRefreshInterval::ThreeDays => 259200,
        ZoneRefreshInterval::SevenDays => 604800,
    }
}

/// The label of an interval.
pub open spec fn interval_label(i: ZoneRefreshInterval) -> Seq<char> {
    match i {
        ZoneRefreshInterval::FiveMinutes => "5 Minutes"@,
        ZoneRefreshInterval::OneHour => "1 Hour"@,
        ZoneRefreshInterval::TwelveHours => "12 Hours"@,
        ZoneRefreshInterval::TwentyFourHours => "24 Hours"@,
        ZoneRefreshInterval::ThreeDays => "3 Days"@,
        ZoneRefreshInterval::SevenDays => "7 Days"@,
    }
}

/// The name of an interval's variant, as stored and as parsed.
pub open spec fn interval_name(i: ZoneRefreshInterval) -> Seq<char> {
    match i {
        ZoneRefreshInterval::FiveMinutes => "FiveMinutes"@,
        ZoneRefreshInterval::OneHour => "OneHour"@,
        ZoneRefreshInterval::TwelveHours => "TwelveHours"@,
        ZoneRefreshInterval::TwentyFourHours => "TwentyFourHours"@,
        ZoneRefreshInterval::ThreeDays => "ThreeDays"@,
        ZoneRefreshInterval::SevenDays => "SevenDays"@,
    }
}

/// The interval whose variant name is `s`, if any.
pub open spec fn interval_from_name(s: Seq<char>) -> Option<ZoneRefreshInterval> {
    if s == "FiveMinutes"@ {
        Some(ZoneRefreshInterval::FiveMinutes)
    } else if s == "OneHour"@ {
        Some(ZoneRefreshInterval::OneHour)
    } else if s == "TwelveHours"@ {
        Some(ZoneRefreshInterval::TwelveHours)
    } else if s == "TwentyFourHours"@ {
        Some(ZoneRefreshInterval::TwentyFourHours)
    } else if s == "ThreeDays"@ {
        Some(ZoneRefreshInterval::ThreeDays)
    } else if s == "SevenDays"@ {
        Some(ZoneRefreshInterval::SevenDays)
    } else {
        None
    }
}

/// All intervals, shortest first.
pub open spec fn all_intervals() -> Seq<ZoneRefreshInterval> {
    seq![ZoneRefreshInterval::FiveMinutes, ZoneRefreshInterval::OneHour, ZoneRefreshInterval::TwelveHours, ZoneRefreshInterval::TwentyFourHours, ZoneRefreshInterval::ThreeDays, ZoneRefreshInterval::SevenDays] 
}

impl ZoneRefreshInterval {
    /// The interval in seconds.
    pub fn to_seconds(&self) -> (res: i64)
        ensures
            res == interval_seconds(*self),
    {
        match self {
            ZoneRefreshInterval::FiveMinutes => 5 * 60,
            ZoneRefreshInterval::OneHour => 60 * 60,
            ZoneRefreshInterval::TwelveHours => 12 * 60 * 60,
            ZoneRefreshInterval::TwentyFourHours => 24 * 60 * 60,
            ZoneRefreshInterval::ThreeDays => 3 * 24 * 60 * 60,
            ZoneRefreshInterval::SevenDays => 7 * 24 * 60 * 60,
        }
    }

    /// Every interval, shortest first.
    pub fn all_options() -> (res: Vec<ZoneRefreshInterval>)
        ensures
            res@ == all_intervals(),
    {
        let v = vec![ZoneRefreshInterval::FiveMinutes, ZoneRefreshInterval::OneHour, ZoneRefreshInterval::TwelveHours, ZoneRefreshInterval::TwentyFourHours, ZoneRefreshInterval::ThreeDays, ZoneRefreshInterval::SevenDays];
        assert(v@ =~= all_intervals());
        v
    }

    /// The label shown for the interval.
    pub fn label(&self) -> (res: &'static str)
        ensures
            res@ == interval_label(*self),
    {
        match self {
            ZoneRefreshInterval::FiveMinutes => "5 Minutes",
            ZoneRefreshInterval::OneHour => "1 Hour",
            ZoneRefreshInterval::TwelveHours => "12 Hours",
            ZoneRefreshInterval::TwentyFourHours => "24 Hours",
            ZoneRefreshInterval::ThreeDays => "3 Days",
            ZoneRefreshInterval::SevenDays => "7 Days",
        }
    }

    /// The label shown for the interval, as an owned string.
    pub fn to_string(&self) -> (res: String)
        ensures
            res@ == interval_label(*self),
    {
        String::from_str(self.label())
    }

    /// Parses a variant name ("FiveMinutes", ...); labels and other text give
    /// `None`.
    pub fn from_str(s: &str) -> (res: Option<ZoneRefreshInterval>)
        ensures
            res == interval_from_name(s@),
    {
        if str_equals(s, "FiveMinutes") {
            return Some(ZoneRefreshInterval::FiveMinutes);
        }
        if str_equals(s, "OneHour") {
            return Some(ZoneRefreshInterval::OneHour);
        }
        if str_equals(s, "TwelveHours") {
            return Some(ZoneRefreshInterval::TwelveHours);
        }
        if str_equals(s, "TwentyFourHours") {
            return Some(ZoneRefreshInterval::TwentyFourHours);
        }
        if str_equals(s, "ThreeDays") {
            return Some(ZoneRefreshInterval::ThreeDays);
        }
        if str_equals(s, "SevenDays") {
            return Some(ZoneRefreshInterval::SevenDays);
        }
        None
    }
}

impl ZoneRefreshInterval {
    /// The interval stored under a variant name; an unknown name reads as
    /// seven days.
    pub fn from_stored(s: &str) -> (res: ZoneRefreshInterval)
        ensures
            res == match interval_from_name(s@) {
                Some(i) => i,
                None => ZoneRefreshInterval::SevenDays,
            },
    {
        match ZoneRefreshInterval::from_str(s) {
            Some(i) => i,
            None => ZoneRefreshInterval::SevenDays,
        }
    }
}

impl Default for ZoneRefreshInterval {
    fn default() -> (res: ZoneRefreshInterval)
        ensures
            res == ZoneRefreshInterval::SevenDays,
    {
        ZoneRefreshInterval::SevenDays
    }
}

/// Parsing the variant name of an interval gives it back: what is stored as
/// text is read back unchanged.
pub proof fn lemma_interval_name_roundtrip(i: ZoneRefreshInterval)
    ensures
        interval_from_name(interval_name(i)) == Some(i),
{
    reveal_strlit("FiveMinutes");
    assert("FiveMinutes"@ =~= seq!['F','i','v','e','M','i','n','u','t','e','s']);
    reveal_strlit("OneHour");
    assert("OneHour"@ =~= seq!['O','n','e','H','o','u','r']);
    reveal_strlit("TwelveHours");
    assert("TwelveHours"@ =~= seq!['T','w','e','l','v','e','H','o','u','r','s']);
    reveal_strlit("TwentyFourHours");
    assert("TwentyFourHours"@ =~= seq!['T','w','e','n','t','y','F','o','u','r','H','o','u','r','s']);
    reveal_strlit("ThreeDays");
    assert("ThreeDays"@ =~= seq!['T','h','r','e','e','D','a','y','s']);
    reveal_strlit("SevenDays");
    assert("SevenDays"@ =~= seq!['S','e','v','e','n','D','a','y','s']);
}

/// The options are listed shortest first, each strictly longer than the one
/// before, and every interval is among them exactly once.
pub proof fn lemma_intervals_ordered()
    ensures
        forall|a: int, b: int|
            0 <= a < b < all_intervals().len() ==> interval_seconds(all_intervals()[a])
                < interval_seconds(all_intervals()[b]),
        forall|i: ZoneRefreshInterval| all_intervals().contains(i),
        forall|a: int| 0 <= a < all_intervals().len() ==> interval_seconds(#[trigger] all_intervals()[a]) > 0,
{
    assert forall|i: ZoneRefreshInterval| all_intervals().contains(i) by {
        match i {
            ZoneRefreshInterval::FiveMinutes => assert(all_intervals()[0] == i),
            ZoneRefreshInterval::OneHour => assert(all_intervals()[1] == i),
            ZoneRefreshInterval::TwelveHours => assert(all_intervals()[2] == i),
            ZoneRefreshInterval::TwentyFourHours => assert(all_intervals()[3] == i),
            ZoneRefreshInterval::ThreeDays => assert(all_intervals()[4] == i),
            ZoneRefreshInterval::SevenDays => assert(all_intervals()[5] == i),
        }
    }
}

/// The log levels a configuration may name (in lower case).
pub open spec fn valid_log_levels() -> Seq<Seq<char>> {
    seq!["trace"@, "debug"@, "info"@, "warn"@, "warning"@, "error"@]
}

/// The text listing the valid log levels, as shown in messages.
pub open spec fn valid_levels_text() -> Seq<char> {
    "trace, debug, info, warn, warning, error"@
}

/// Whether a log level is valid, ignoring case.
pub open spec fn log_level_is_valid(level: Seq<char>) -> bool {
    valid_log_levels().contains(unicode_lowercase(level))
}

/// Whether a text is one of the valid log levels exactly.
pub open spec fn is_listed_level(level: Seq<char>) -> bool {
    valid_log_levels().contains(level)
}

/// How much the application logs: the least severe level still written.
#[derive(Debug, Clone, Copy, PartialEq, Eq, Structural)]
pub enum LogLevel {
    Trace,
    Debug,
    Info,
    Warn,
    Error,
}

/// The level a lower-case level name sets: `warning` is read as `warn`, and
/// a name that is no level sets `Info`.
pub open spec fn log_level_of(lower: Seq<char>) -> LogLevel {
    if lower == "trace"@ {
        LogLevel::Trace
    } else if lower == "debug"@ {
        LogLevel::Debug
    } else if lower == "info"@ {
        LogLevel::Info
    } else if lower == "warn"@ || lower == "warning"@ {
        LogLevel::Warn
    } else if lower == "error"@ {
        LogLevel::Error
    } else {
        LogLevel::Info
    }
}

/// The level that the configured level name sets, ignoring case; a name that
/// is no level sets `Info`.
pub fn log_level_filter(level: &str) -> (res: LogLevel)
    ensures
        res == log_level_of(unicode_lowercase(level@)),
{
    let lower = to_lowercase(level);
    let l = lower.as_str();
    if str_equals(l, "trace") {
        LogLevel::Trace
    } else if str_equals(l, "debug") {
        LogLevel::Debug
    } else if str_equals(l, "info") {
        LogLevel::Info
    } else if str_equals(l, "warn") || str_equals(l, "warning") {
        LogLevel::Warn
    } else if str_equals(l, "error") {
        LogLevel::Error
    } else {
        LogLevel::Info
    }
}

/// The level set by the configured level name, or by `info` when the
/// configuration could not be read.
pub fn log_level_from_config(configured: Option<&str>) -> (res: LogLevel)
    ensures
        res == match configured {
            Some(l) => log_level_of(unicode_lowercase(l@)),
            None => LogLevel::Info,
        },
{
    match configured {
        Some(l) => log_level_filter(l),
        None => LogLevel::Info,
    }
}

/// Whether log records of `target` are written: those of the HTML parsing
/// libraries (targets starting with `selectors` or `html5ever`) are not.
pub fn log_target_allowed(target: &str) -> (res: bool)
    ensures
        res == !(has_prefix(target@, "selectors"@) || has_prefix(target@, "html5ever"@)),
{
    !(str_starts_with(target, "selectors") || str_starts_with(target, "html5ever"))
}

/// Whether a text is one of the valid log levels exactly (case matters).
pub fn is_listed_log_level(level: &str) -> (res: bool)
    ensures
        res == is_listed_level(level@),
{
    if str_equals(level, "trace") {
        assert(valid_log_levels()[0] == level@);
        return true;
    }
    if str_equals(level, "debug") {
        assert(valid_log_levels()[1] == level@);
        return true;
    }
    if str_equals(level, "info") {
        assert(valid_log_levels()[2] == level@);
        return true;
    }
    if str_equals(level, "warn") {
        assert(valid_log_levels()[3] == level@);
        return true;
    }
    if str_equals(level, "warning") {
        assert(valid_log_levels()[4] == level@);
        return true;
    }
    if str_equals(level, "error") {
        assert(valid_log_levels()[5] == level@);
        return true;
    }
    proof {
        assert forall|i: int| 0 <= i < valid_log_levels().len() implies valid_log_levels()[i] != level@ by {
        }
    }
    false
}

/// The message for an invalid log level.
pub open spec fn invalid_level_text(level: Seq<char>) -> Seq<char> {
    "Invalid log level '"@ + level + "'. Valid levels are: "@ + valid_levels_text()
}

/// The message for a blank log path.
pub open spec fn empty_path_text() -> Seq<char> {
    "POE client log path cannot be empty"@
}

/// The application configuration.
#[derive(Debug)]
pub struct AppConfig {
    pub poe_client_log_path: String,
    pub log_level: String,
    pub zone_refresh_interval: ZoneRefreshInterval,
}

impl Clone for AppConfig {
    fn clone(&self) -> (res: AppConfig)
        ensures
            res == *self,
    {
        AppConfig {
            poe_client_log_path: self.poe_client_log_path.clone(),
            log_level: self.log_level.clone(),
            zone_refresh_interval: self.zone_refresh_interval,
        }
    }
}

/// The default log path on an operating system (as named by
/// `std::env::consts::OS`), given the user's home directory if known.
pub open spec fn default_log_path(os: Seq<char>, home: Option<Seq<char>>) -> Seq<char> {
    if os == "windows"@ {
        "C:\\Program Files (x86)\\Grinding Gear Games\\Path of Exile 2\\logs\\Client.txt"@
    } else if os == "macos"@ {
        (match home {
            Some(h) => h,
            None => "/Users/default"@,
        }) + "/Library/Application Support/Path of Exile 2/logs/Client.txt"@
    } else if os == "linux"@ {
        (match home {
            Some(h) => h,
            None => "/home/default"@,
        }) + "/.var/app/com.valvesoftware.Steam/.local/share/Steam/steamapps/common/Path of Exile 2/logs/Client.txt"@
    } else {
        "Client.txt"@
    }
}

/// On macOS and Linux the default log path lies under the user's home
/// directory: it is the home directory followed by a fixed path within it,
/// the same for every user; without a known home directory it is the path
/// for the home directory `/Users/default` (macOS) or `/home/default`
/// (Linux).
pub proof fn lemma_default_path_under_home(h: Seq<char>)
    ensures
        default_log_path("macos"@, Some(h)) == h
            + "/Library/Application Support/Path of Exile 2/logs/Client.txt"@,
        default_log_path("macos"@, None) == default_log_path("macos"@, Some("/Users/default"@)),
        default_log_path("linux"@, Some(h)) == h
            + "/.var/app/com.valvesoftware.Steam/.local/share/Steam/steamapps/common/Path of Exile 2/logs/Client.txt"@,
        default_log_path("linux"@, None) == default_log_path("linux"@, Some("/home/default"@)),
{
    reveal_strlit("windows");
    reveal_strlit("macos");
    reveal_strlit("linux");
    assert("macos"@ != "windows"@) by {
        assert("macos"@.len() != "windows"@.len());
    }
    assert("linux"@ != "windows"@) by {
        assert("linux"@.len() != "windows"@.len());
    }
    assert("linux"@ != "macos"@) by {
        assert("linux"@[0] != "macos"@[0]);
    }
}

impl AppConfig {
    /// The default configuration: the given default log path, level "info",
    /// a refresh every seven days.
    pub fn new(default_log_path: String) -> (res: AppConfig)
        ensures
            res.poe_client_log_path == default_log_path,
            res.log_level@ == "info"@,
            res.zone_refresh_interval == ZoneRefreshInterval::SevenDays,
    {
        AppConfig {
            poe_client_log_path: default_log_path,
            log_level: String::from_str("info"),
            zone_refresh_interval: ZoneRefreshInterval::SevenDays,
        }
    }

    /// A configuration with the given path and level and the default refresh
    /// interval.
    pub fn with_values(poe_client_log_path: String, log_level: String) -> (res: AppConfig)
        ensures
            res.poe_client_log_path == poe_client_log_path,
            res.log_level == log_level,
            res.zone_refresh_interval == ZoneRefreshInterval::SevenDays,
    {
        AppConfig {
            poe_client_log_path,
            log_level,
            zone_refresh_interval: ZoneRefreshInterval::SevenDays,
        }
    }

    /// Whether a log level is valid, ignoring case.
    pub fn is_valid_log_level(level: &str) -> (res: bool)
        ensures
            res == log_level_is_valid(level@),
    {
        let lower = to_lowercase(level);
        is_listed_log_level(lower.as_str())
    }

    /// The log level in lower case, or the invalid-level message.
    pub fn normalize_log_level(level: &str) -> (res: Result<String, String>)
        ensures
            log_level_is_valid(level@) ==> (res matches Ok(l) && l@ == unicode_lowercase(level@)),
            !log_level_is_valid(level@) ==> (res matches Err(e) && e@ == invalid_level_text(level@)),
    {
        let lower = to_lowercase(level);
        if is_listed_log_level(lower.as_str()) {
            Ok(lower)
        } else {
            Err(invalid_level_message(level))
        }
    }

    /// Checks the configuration: the log level must be valid (ignoring case)
    /// and the log path must not be blank; the level is checked first.
    pub fn validate(&self) -> (res: Result<(), String>)
        ensures
            !log_level_is_valid(self.log_level@) ==> (res matches Err(e) && e@
                == invalid_level_text(self.log_level@)),
            log_level_is_valid(self.log_level@) && is_blank(self.poe_client_log_path@) ==> (res matches Err(e) && e@ == empty_path_text()),
            log_level_is_valid(self.log_level@) && !is_blank(self.poe_client_log_path@) ==> res is Ok,
    {
        if !AppConfig::is_valid_log_level(self.log_level.as_str()) {
            return Err(invalid_level_message(self.log_level.as_str()));
        }
        if is_blank_str(self.poe_client_log_path.as_str()) {
            return Err(String::from_str("POE client log path cannot be empty"));
        }
        Ok(())
    }

    /// The default log path for an operating system and home directory.
    pub fn get_default_poe_client_log_path(os: &str, home: Option<&str>) -> (res: String)
        ensures
            res@ == default_log_path(os@, match home {
                Some(h) => Some(h@),
                None => None,
            }),
    {
        if str_equals(os, "windows") {
            String::from_str("C:\\Program Files (x86)\\Grinding Gear Games\\Path of Exile 2\\logs\\Client.txt")
        } else if str_equals(os, "macos") {
            let h = match home {
                Some(h) => String::from_str(h),
                None => String::from_str("/Users/default"),
            };
            h.concat("/Library/Application Support/Path of Exile 2/logs/Client.txt")
        } else if str_equals(os, "linux") {
            let h = match home {
                Some(h) => String::from_str(h),
                None => String::from_str("/home/default"),
            };
            h.concat("/.var/app/com.valvesoftware.Steam/.local/share/Steam/steamapps/common/Path of Exile 2/logs/Client.txt")
        } else {
            String::from_str("Client.txt")
        }
    }

    /// Whether the log path is the default one.
    pub fn is_using_default_poe_path(&self, default_log_path: &str) -> (res: bool)
        ensures
            res == (self.poe_client_log_path@ == default_log_path@),
    {
        str_equals(self.poe_client_log_path.as_str(), default_log_path)
    }

    /// Sets the log path back to the default one.
    pub fn reset_poe_path_to_default(&mut self, default_log_path: String)
        ensures
            final(self).poe_client_log_path == default_log_path,
            final(self).log_level == old(self).log_level,
            final(self).zone_refresh_interval == old(self).zone_refresh_interval,
    {
        self.poe_client_log_path = default_log_path;
    }
}

/// The invalid-level message for a level.
fn invalid_level_message(level: &str) -> (res: String)
    ensures
        res@ == invalid_level_text(level@),
{
    String::from_str("Invalid log level '").concat(level).concat("'. Valid levels are: ").concat(
        "trace, debug, info, warn, warning, error",
    )
}

/// The texts of a list of strings.
pub open spec fn string_texts(v: Seq<String>) -> Seq<Seq<char>> {
    v.map_values(|s: String| s@)
}

/// The outcome of checking a configuration: whether it is valid and, if not,
/// why.
#[derive(Debug, Clone)]
pub struct ConfigurationValidationResult {
    pub is_valid: bool,
    pub errors: Vec<String>,
}

impl ConfigurationValidationResult {
    /// A valid result, with no errors.
    pub fn valid() -> (res: ConfigurationValidationResult)
        ensures
            res.is_valid,
            res.errors@.len() == 0,
    {
        ConfigurationValidationResult { is_valid: true, errors: Vec::new() }
    }

    /// An invalid result with the given errors.
    pub fn invalid(errors: Vec<String>) -> (res: ConfigurationValidationResult)
        ensures
            !res.is_valid,
            res.errors@ == errors@,
    {
        ConfigurationValidationResult { is_valid: false, errors }
    }

    /// Records one more error; the result is invalid from then on.
    pub fn add_error(&mut self, error: String)
        ensures
            !final(self).is_valid,
            final(self).errors@ == old(self).errors@.push(error),
    {
        self.is_valid = false;
        self.errors.push(error);
    }
}

/// A change of configuration: the new one, the one it replaced, and when.
#[derive(Debug, Clone)]
pub struct ConfigurationChangedEvent {
    pub new_config: AppConfig,
    pub previous_config: AppConfig,
    pub timestamp: Timestamp,
}

impl ConfigurationChangedEvent {
    /// The change from `previous_config` to `new_config`, stamped with the
    /// current time.
    pub fn new(new_config: AppConfig, previous_config: AppConfig) -> (res: ConfigurationChangedEvent)
        ensures
            res.new_config == new_config,
            res.previous_config == previous_config,
    {
        ConfigurationChangedEvent { new_config, previous_config, timestamp: now() }
    }
}

/// What is known of a configuration file on disk.
#[derive(Debug, Clone)]
pub struct ConfigurationFileInfo {
    pub path: String,
    pub exists: bool,
    pub size: Option<u64>,
    pub last_modified: Option<Timestamp>,
}

impl ConfigurationFileInfo {
    /// The information for `path`, given whether the file exists and, where
    /// its metadata could be read, its size and modification time. Size and
    /// time are only kept for a file that exists.
    pub fn new(path: String, exists: bool, metadata: Option<(u64, Option<Timestamp>)>) -> (res: ConfigurationFileInfo)
        ensures
            res.path == path,
            res.exists == exists,
            res.size == (match metadata {
                Some((len, _)) if exists => Some(len),
                _ => None::<u64>,
            }),
            res.last_modified == (match metadata {
                Some((_, modified)) if exists => modified,
                _ => None::<Timestamp>,
            }),
    {
        let (size, last_modified) = if exists {
            match metadata {
                Some((len, modified)) => (Some(len), modified),
                None => (None, None),
            }
        } else {
            (None, None)
        };
        ConfigurationFileInfo { path, exists, size, last_modified }
    }
}

} // verus!
