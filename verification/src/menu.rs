//! The tray menu's decisions: which action a menu entry's tag names, what each
//! action does to the shared state, and the localized texts the menu is built
//! from. Rendering the menu itself is the unverified shell's job.

use vstd::prelude::*;

use crate::config::{Language, RefreshInterval, SharedState};
use crate::settings::Settings;
use crate::text::str_eq;

verus! {

/// An action a menu entry can trigger.
#[derive(Clone, Copy, Debug, PartialEq, Eq, Structural)]
pub enum MenuAction {
    Refresh,
    OpenSettings,
    Quit,
    SetLanguage(Language),
    SetInterval(RefreshInterval),
}

/// What the shell must do after an action was applied to the shared state.
#[derive(Debug, PartialEq)]
pub enum MenuEffect {
    /// Dispatch an immediate refresh cycle, independent of the timer.
    RequestRefresh,
    /// Open this page in the user's browser.
    OpenUrl(&'static str),
    /// Leave the event loop and raise the shutdown flag.
    Quit,
    /// A selection changed: persist these settings, then redraw the menu.
    PersistAndRedraw(Settings),
}

impl MenuAction {
    /// The action a menu entry's tag names, or nothing for an unknown tag.
    pub open spec fn spec_from_string(s: Seq<char>) -> Option<MenuAction> {
        if s == "refresh"@ {
            Some(MenuAction::Refresh)
        } else if s == "open_settings"@ {
            Some(MenuAction::OpenSettings)
        } else if s == "quit"@ {
            Some(MenuAction::Quit)
        } else if s == "lang_chinese"@ {
            Some(MenuAction::SetLanguage(Language::Chinese))
        } else if s == "lang_english"@ {
            Some(MenuAction::SetLanguage(Language::English))
        } else if s == "interval_Min1"@ {
            Some(MenuAction::SetInterval(RefreshInterval::Min1))
        } else if s == "interval_Min5"@ {
            Some(MenuAction::SetInterval(RefreshInterval::Min5))
        } else if s == "interval_Min10"@ {
            Some(MenuAction::SetInterval(RefreshInterval::Min10))
        } else if s == "interval_Min30"@ {
            Some(MenuAction::SetInterval(RefreshInterval::Min30))
        } else if s == "interval_Hour1"@ {
            Some(MenuAction::SetInterval(RefreshInterval::Hour1))
        } else {
            None
        }
    }

    pub fn from_string(s: &str) -> (r: Option<Self>)
        ensures
            r == MenuAction::spec_from_string(s@),
    {
        if str_eq(s, "refresh") {
            Some(MenuAction::Refresh)
        } else if str_eq(s, "open_settings") {
            Some(MenuAction::OpenSettings)
        } else if str_eq(s, "quit") {
            Some(MenuAction::Quit)
        } else if str_eq(s, "lang_chinese") {
            Some(MenuAction::SetLanguage(Language::Chinese))
        } else if str_eq(s, "lang_english") {
            Some(MenuAction::SetLanguage(Language::English))
        } else if str_eq(s, "interval_Min1") {
            Some(MenuAction::SetInterval(RefreshInterval::Min1))
        } else if str_eq(s, "interval_Min5") {
            Some(MenuAction::SetInterval(RefreshInterval::Min5))
        } else if str_eq(s, "interval_Min10") {
            Some(MenuAction::SetInterval(RefreshInterval::Min10))
        } else if str_eq(s, "interval_Min30") {
            Some(MenuAction::SetInterval(RefreshInterval::Min30))
        } else if str_eq(s, "interval_Hour1") {
            Some(MenuAction::SetInterval(RefreshInterval::Hour1))
        } else {
            None
        }
    }

    /// Applies the action to the shared state and says what the shell must do:
    /// a refresh request and the browser page leave the state untouched; a
    /// language or interval selection changes exactly that selection, mirrors
    /// both selections into the settings record, and asks for it to be
    /// persisted.
    pub fn handle(&self, state: &mut SharedState) -> (r: MenuEffect)
        ensures
            *self == MenuAction::Refresh ==> r == MenuEffect::RequestRefresh && *final(state)
                == *old(state),
            *self == MenuAction::OpenSettings ==> (r matches MenuEffect::OpenUrl(u) && u@
                == "https://www.cursor.com/settings"@) && *final(state) == *old(state),
            *self == MenuAction::Quit ==> r == MenuEffect::Quit && *final(state) == *old(state),
            *self matches MenuAction::SetLanguage(lang) ==> {
                &&& final(state).language == lang
                &&& final(state).usage_data == old(state).usage_data
                &&& final(state).refresh_interval == old(state).refresh_interval
                &&& final(state).settings.language@ == lang.spec_name()
                &&& final(state).settings.refresh_interval == old(
                    state,
                ).refresh_interval.spec_secs()
                &&& r matches MenuEffect::PersistAndRedraw(s) && s == final(state).settings
            },
            *self matches MenuAction::SetInterval(interval) ==> {
                &&& final(state).refresh_interval == interval
                &&& final(state).usage_data == old(state).usage_data
                &&& final(state).language == old(state).language
                &&& final(state).settings.language@ == old(state).language.spec_name()
                &&& final(state).settings.refresh_interval == interval.spec_secs()
                &&& r matches MenuEffect::PersistAndRedraw(s) && s == final(state).settings
            },
    {
        match self {
            MenuAction::Refresh => MenuEffect::RequestRefresh,
            MenuAction::OpenSettings => MenuEffect::OpenUrl("https://www.cursor.com/settings"),
            MenuAction::Quit => MenuEffect::Quit,
            MenuAction::SetLanguage(lang) => MenuEffect::PersistAndRedraw(
                state.set_language(*lang),
            ),
            MenuAction::SetInterval(interval) => MenuEffect::PersistAndRedraw(
                state.set_refresh_interval(*interval),
            ),
        }
    }
}

/// The menu's localized texts.
#[derive(Clone, Copy, Debug)]
pub struct MenuTexts {
    pub title: &'static str,
    pub refresh: &'static str,
    pub settings: &'static str,
    pub quit: &'static str,
    pub language: &'static str,
    pub refresh_interval: &'static str,
    pub used: &'static str,
    pub remaining: &'static str,
    pub usage_rate: &'static str,
    pub account: &'static str,
    pub last_update: &'static str,
    pub requests: &'static str,
    pub options: &'static str,
}

impl Language {
    /// The menu texts in this language.
    pub fn get_menu_texts(&self) -> (r: MenuTexts)
        ensures
            *self == Language::Chinese ==> r.title@ == "🤖 Cursor GPT-4 用量"@ && r.language@
                == "----- 🇺🇳 语言 -----"@ && r.refresh_interval@ == "----- ⏳ 刷新间隔 -----"@
                && r.used@ == "已用"@ && r.remaining@ == "剩余"@ && r.usage_rate@ == "使用率"@
                && r.account@ == "账户"@ && r.last_update@ == "最后更新"@ && r.requests@
                == "次请求"@ && r.options@ == "----- ⚙️ 选项 -----"@ && r.refresh@ == "刷新数据"@
                && r.settings@ == "打开Cursor设置"@ && r.quit@ == "退出"@,
            *self == Language::English ==> r.title@ == "🤖 Cursor GPT-4 Usage"@ && r.language@
                == "-----🇺🇳 Language -----"@ && r.refresh_interval@
                == "----- ⏳ Refresh Interval -----"@ && r.used@ == "Used"@ && r.remaining@
                == "Remaining"@ && r.usage_rate@ == "Usage"@ && r.account@ == "Account"@
                && r.last_update@ == "Last updated"@ && r.requests@ == "requests"@ && r.options@
                == "----- ⚙️ Options -----"@ && r.refresh@ == "Refresh Data"@ && r.settings@
                == "Open Cursor Settings"@ && r.quit@ == "Exit"@,
    {
        match self {
            Language::Chinese => MenuTexts {
                title: "🤖 Cursor GPT-4 用量",
                language: "----- 🇺🇳 语言 -----",
                refresh_interval: "----- ⏳ 刷新间隔 -----",
                used: "已用",
                remaining: "剩余",
                usage_rate: "使用率",
                account: "账户",
                last_update: "最后更新",
                requests: "次请求",
                options: "----- ⚙️ 选项 -----",
                refresh: "刷新数据",
                settings: "打开Cursor设置",
                quit: "退出",
            },
            Language::English => MenuTexts {
                title: "🤖 Cursor GPT-4 Usage",
                language: "-----🇺🇳 Language -----",
                refresh_interval: "----- ⏳ Refresh Interval -----",
                used: "Used",
                remaining: "Remaining",
                usage_rate: "Usage",
                account: "Account",
                last_update: "Last updated",
                requests: "requests",
                options: "----- ⚙️ Options -----",
                refresh: "Refresh Data",
                settings: "Open Cursor Settings",
                quit: "Exit",
            },
        }
    }
}

} // verus!
