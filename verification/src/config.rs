//! The data model shared between the fetch pipeline and the display layer: the
//! usage snapshot, the display language, the refresh interval, and the state
//! container that the refresh coordinator publishes into.

use vstd::prelude::*;
use vstd::arithmetic::div_mod::{
    lemma_div_pos_is_pos, lemma_fundamental_div_mod, lemma_mod_division_less_than_divisor,
    lemma_multiply_divide_lt,
};

use crate::settings::Settings;
use crate::text::str_eq;

verus! {

/// The usage percentage in tenths of a percent: `used / total * 100`, rounded
/// to one decimal place (halves round up), with a zero total guarded to zero.
/// Keeping tenths as an integer lets the display layer render one decimal digit
/// while the core stays free of floating point.
pub open spec fn percentage_tenths_of(used: int, total: int) -> int {
    if total <= 0 {
        0
    } else {
        (2000 * used + total) / (2 * total)
    }
}

/// For a positive total and a used count within it, the percentage in tenths
/// stays between 0 and 1000 (that is, between 0% and 100.0%).
pub proof fn lemma_percentage_tenths_bounds(used: int, total: int)
    requires
        0 < total,
        0 <= used <= total,
    ensures
        0 <= percentage_tenths_of(used, total) <= 1000,
{
    let n = 2000 * used + total;
    lemma_div_pos_is_pos(n, 2 * total);
    lemma_multiply_divide_lt(n, 2 * total, 1001);
}

/// The tenths value is the ratio rounded to the nearest tenth of a percent,
/// halves rounding up: scaled back by `2 * total`, it never strays from
/// `2000 * used` by more than `total`, that is, by half a tenth either way.
pub proof fn lemma_percentage_tenths_rounds(used: int, total: int)
    requires
        0 < total,
        0 <= used,
    ensures
        2 * total * percentage_tenths_of(used, total) - total <= 2000 * used,
        2000 * used < 2 * total * percentage_tenths_of(used, total) + total,
{
    let n = 2000 * used + total;
    lemma_fundamental_div_mod(n, 2 * total);
    lemma_mod_division_less_than_divisor(n, 2 * total);
}

/// Relies on chrono's `Local::now` and its `format` with `"%H:%M:%S"`: the
/// result is a two-digit hour, minute and second separated by colons, so it is
/// always eight characters long.
#[verifier::external_body]
pub(crate) fn local_time_hms() -> (r: String)
    ensures
        r@.len() == 8,
{
    chrono::Local::now().format("%H:%M:%S").to_string()
}

pub(crate) fn clone_opt_string(o: &Option<String>) -> (r: Option<String>)
    ensures
        r == *o,
{
    match o {
        None => None,
        Some(s) => Some(s.clone()),
    }
}

/// One usage snapshot handed to the display layer. When `error` is set the
/// numeric fields are left at their defaults and the snapshot counts as failed;
/// otherwise `used`, `total` and `percentage_tenths` carry the fetched values.
#[derive(Debug, PartialEq)]
pub struct UsageData {
    pub used: i32,
    pub total: i32,
    pub percentage_tenths: u64,
    pub email: Option<String>,
    pub last_update: String,
    pub error: Option<String>,
}

impl Clone for UsageData {
    fn clone(&self) -> (r: Self)
        ensures
            r == *self,
    {
        UsageData {
            used: self.used,
            total: self.total,
            percentage_tenths: self.percentage_tenths,
            email: clone_opt_string(&self.email),
            last_update: self.last_update.clone(),
            error: clone_opt_string(&self.error),
        }
    }
}

impl UsageData {
    /// The counts never go negative; a snapshot that leaves this module always
    /// satisfies it.
    pub open spec fn wf(self) -> bool {
        0 <= self.used && 0 <= self.total
    }

    /// The percentage in tenths for this snapshot's counts, rounded to one
    /// decimal place, with a zero total giving zero.
    pub fn calculate_percentage(&self) -> (r: u64)
        requires
            self.wf(),
        ensures
            r == percentage_tenths_of(self.used as int, self.total as int),
            self.total == 0 ==> r == 0,
            self.used <= self.total ==> r <= 1000,
    {
        if self.total == 0 {
            0
        } else {
            proof {
                if self.used <= self.total {
                    lemma_percentage_tenths_bounds(self.used as int, self.total as int);
                }
            }
            let u = self.used as u64;
            let t = self.total as u64;
            (2000 * u + t) / (2 * t)
        }
    }

    /// Stamps the snapshot with the current local wall-clock time, leaving every
    /// other field unchanged.
    pub fn update_time(&mut self)
        ensures
            final(self).last_update@.len() == 8,
            final(self).used == old(self).used,
            final(self).total == old(self).total,
            final(self).percentage_tenths == old(self).percentage_tenths,
            final(self).email == old(self).email,
            final(self).error == old(self).error,
    {
        self.last_update = local_time_hms();
    }
}

impl Default for UsageData {
    /// An empty snapshot: zero counts, no email, no error, stamped with the
    /// current time.
    fn default() -> (r: Self)
        ensures
            r.used == 0,
            r.total == 0,
            r.percentage_tenths == 0,
            r.email is None,
            r.error is None,
            r.last_update@.len() == 8,
            r.wf(),
    {
        UsageData {
            used: 0,
            total: 0,
            percentage_tenths: 0,
            email: None,
            last_update: local_time_hms(),
            error: None,
        }
    }
}

/// The display language.
#[derive(Clone, Copy, Debug, PartialEq, Eq, Structural)]
pub enum Language {
    Chinese,
    English,
}

impl Language {
    /// The language a stored name selects; anything unrecognized falls back to
    /// Chinese, the default.
    pub open spec fn spec_from_str(s: Seq<char>) -> Language {
        if s == "English"@ {
            Language::English
        } else {
            Language::Chinese
        }
    }

    pub fn from_str(lang: &str) -> (r: Self)
        ensures
            r == Language::spec_from_str(lang@),
    {
        if str_eq(lang, "English") {
            Language::English
        } else {
            Language::Chinese
        }
    }

    /// The name under which the language is persisted.
    pub open spec fn spec_name(self) -> Seq<char> {
        match self {
            Language::Chinese => "Chinese"@,
            Language::English => "English"@,
        }
    }

    pub fn as_str(self) -> (r: &'static str)
        ensures
            r@ == self.spec_name(),
    {
        match self {
            Language::Chinese => "Chinese",
            Language::English => "English",
        }
    }
}

/// The refresh interval: one of a fixed set of durations.
#[derive(Clone, Copy, Debug, PartialEq, Eq, Structural)]
pub enum RefreshInterval {
    Min1,
    Min5,
    Min10,
    Min30,
    Hour1,
}

impl RefreshInterval {
    pub open spec fn spec_secs(self) -> u64 {
        match self {
            RefreshInterval::Min1 => 60,
            RefreshInterval::Min5 => 300,
            RefreshInterval::Min10 => 600,
            RefreshInterval::Min30 => 1800,
            RefreshInterval::Hour1 => 3600,
        }
    }

    /// The interval a stored number of seconds selects; anything unrecognized
    /// falls back to five minutes, the default.
    pub open spec fn spec_from_secs(secs: u64) -> RefreshInterval {
        if secs == 60 {
            RefreshInterval::Min1
        } else if secs == 300 {
            RefreshInterval::Min5
        } else if secs == 600 {
            RefreshInterval::Min10
        } else if secs == 1800 {
            RefreshInterval::Min30
        } else if secs == 3600 {
            RefreshInterval::Hour1
        } else {
            RefreshInterval::Min5
        }
    }

    pub fn from_secs(secs: u64) -> (r: Self)
        ensures
            r == RefreshInterval::spec_from_secs(secs),
    {
        if secs == 60 {
            RefreshInterval::Min1
        } else if secs == 300 {
            RefreshInterval::Min5
        } else if secs == 600 {
            RefreshInterval::Min10
        } else if secs == 1800 {
            RefreshInterval::Min30
        } else if secs == 3600 {
            RefreshInterval::Hour1
        } else {
            RefreshInterval::Min5
        }
    }

    pub fn as_secs(&self) -> (r: u64)
        ensures
            r == self.spec_secs(),
    {
        match self {
            RefreshInterval::Min1 => 60,
            RefreshInterval::Min5 => 300,
            RefreshInterval::Min10 => 600,
            RefreshInterval::Min30 => 1800,
            RefreshInterval::Hour1 => 3600,
        }
    }

    /// The interval's display text in the given language.
    pub fn to_string(self, lang: Language) -> (r: &'static str)
        ensures
            lang == Language::Chinese && self == RefreshInterval::Min1 ==> r@ == "1分钟"@,
            lang == Language::Chinese && self == RefreshInterval::Min5 ==> r@ == "5分钟"@,
            lang == Language::Chinese && self == RefreshInterval::Min10 ==> r@ == "10分钟"@,
            lang == Language::Chinese && self == RefreshInterval::Min30 ==> r@ == "30分钟"@,
            lang == Language::Chinese && self == RefreshInterval::Hour1 ==> r@ == "1小时"@,
            lang == Language::English && self == RefreshInterval::Min1 ==> r@ == "1 minute"@,
            lang == Language::English && self == RefreshInterval::Min5 ==> r@ == "5 minutes"@,
            lang == Language::English && self == RefreshInterval::Min10 ==> r@ == "10 minutes"@,
            lang == Language::English && self == RefreshInterval::Min30 ==> r@ == "30 minutes"@,
            lang == Language::English && self == RefreshInterval::Hour1 ==> r@ == "1 hour"@,
    {
        match lang {
            Language::Chinese => match self {
                RefreshInterval::Min1 => "1分钟",
                RefreshInterval::Min5 => "5分钟",
                RefreshInterval::Min10 => "10分钟",
                RefreshInterval::Min30 => "30分钟",
                RefreshInterval::Hour1 => "1小时",
            },
            Language::English => match self {
                RefreshInterval::Min1 => "1 minute",
                RefreshInterval::Min5 => "5 minutes",
                RefreshInterval::Min10 => "10 minutes",
                RefreshInterval::Min30 => "30 minutes",
                RefreshInterval::Hour1 => "1 hour",
            },
        }
    }

    /// Every interval, in ascending order.
    pub fn all() -> (r: Vec<RefreshInterval>)
        ensures
            r@ =~= seq![
                RefreshInterval::Min1,
                RefreshInterval::Min5,
                RefreshInterval::Min10,
                RefreshInterval::Min30,
                RefreshInterval::Hour1,
            ],
    {
        let mut v: Vec<RefreshInterval> = Vec::new();
        v.push(RefreshInterval::Min1);
        v.push(RefreshInterval::Min5);
        v.push(RefreshInterval::Min10);
        v.push(RefreshInterval::Min30);
        v.push(RefreshInterval::Hour1);
        v
    }
}

/// The state shared between the refresh coordinator and the display layer: the
/// current snapshot, the selected language and interval, and the settings
/// record that mirrors the two selections for persistence. The unverified shell
/// wraps one value of this in a mutex; every method here is a short,
/// lock-scoped read or write, and no network or file work happens inside.
pub struct SharedState {
    pub usage_data: UsageData,
    pub language: Language,
    pub refresh_interval: RefreshInterval,
    pub settings: Settings,
}

impl SharedState {
    /// Builds the state from loaded (or default) settings: the language and
    /// interval are derived from the stored values, and the snapshot starts
    /// empty.
    pub fn new(settings: Settings) -> (r: Self)
        ensures
            r.language == Language::spec_from_str(settings.language@),
            r.refresh_interval == RefreshInterval::spec_from_secs(settings.refresh_interval),
            r.settings == settings,
            r.usage_data.used == 0,
            r.usage_data.total == 0,
            r.usage_data.percentage_tenths == 0,
            r.usage_data.email is None,
            r.usage_data.error is None,
    {
        let language = Language::from_str(settings.language.as_str());
        let refresh_interval = RefreshInterval::from_secs(settings.refresh_interval);
        SharedState { usage_data: UsageData::default(), language, refresh_interval, settings }
    }

    pub fn get_usage_data(&self) -> (r: UsageData)
        ensures
            r == self.usage_data,
    {
        self.usage_data.clone()
    }

    /// Publishes a finished snapshot; the other fields are untouched.
    pub fn set_usage_data(&mut self, data: UsageData)
        ensures
            final(self).usage_data == data,
            final(self).language == old(self).language,
            final(self).refresh_interval == old(self).refresh_interval,
            final(self).settings == old(self).settings,
    {
        self.usage_data = data;
    }

    pub fn get_language(&self) -> (r: Language)
        ensures
            r == self.language,
    {
        self.language
    }

    /// Selects a language and refreshes the settings record to mirror both
    /// current selections; the returned copy is what the shell persists.
    pub fn set_language(&mut self, lang: Language) -> (to_save: Settings)
        ensures
            final(self).language == lang,
            final(self).usage_data == old(self).usage_data,
            final(self).refresh_interval == old(self).refresh_interval,
            final(self).settings.language@ == lang.spec_name(),
            final(self).settings.refresh_interval == old(self).refresh_interval.spec_secs(),
            to_save == final(self).settings,
    {
        self.language = lang;
        self.refresh_settings()
    }

    pub fn get_refresh_interval(&self) -> (r: RefreshInterval)
        ensures
            r == self.refresh_interval,
    {
        self.refresh_interval
    }

    /// Selects a refresh interval and refreshes the settings record to mirror
    /// both current selections; the returned copy is what the shell persists.
    pub fn set_refresh_interval(&mut self, interval: RefreshInterval) -> (to_save: Settings)
        ensures
            final(self).refresh_interval == interval,
            final(self).usage_data == old(self).usage_data,
            final(self).language == old(self).language,
            final(self).settings.language@ == old(self).language.spec_name(),
            final(self).settings.refresh_interval == interval.spec_secs(),
            to_save == final(self).settings,
    {
        self.refresh_interval = interval;
        self.refresh_settings()
    }

    /// Rewrites the settings record from the current selections and returns a
    /// copy for persistence.
    fn refresh_settings(&mut self) -> (to_save: Settings)
        ensures
            final(self).usage_data == old(self).usage_data,
            final(self).language == old(self).language,
            final(self).refresh_interval == old(self).refresh_interval,
            final(self).settings.language@ == old(self).language.spec_name(),
            final(self).settings.refresh_interval == old(self).refresh_interval.spec_secs(),
            to_save == final(self).settings,
    {
        self.settings = Settings {
            language: String::from_str(self.language.as_str()),
            refresh_interval: self.refresh_interval.as_secs(),
        };
        self.settings.clone()
    }
}

} // verus!
