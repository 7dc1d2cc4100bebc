use cursor_watch::config::{Language, RefreshInterval, SharedState};
use cursor_watch::menu::{MenuAction, MenuEffect};
use cursor_watch::settings::Settings;
use cursor_watch::tray::get_color_for_usage;

#[test]
fn every_menu_tag_names_its_action() {
    assert_eq!(MenuAction::from_string("refresh"), Some(MenuAction::Refresh));
    assert_eq!(MenuAction::from_string("open_settings"), Some(MenuAction::OpenSettings));
    assert_eq!(MenuAction::from_string("quit"), Some(MenuAction::Quit));
    assert_eq!(
        MenuAction::from_string("lang_chinese"),
        Some(MenuAction::SetLanguage(Language::Chinese))
    );
    assert_eq!(
        MenuAction::from_string("lang_english"),
        Some(MenuAction::SetLanguage(Language::English))
    );
    assert_eq!(
        MenuAction::from_string("interval_Min1"),
        Some(MenuAction::SetInterval(RefreshInterval::Min1))
    );
    assert_eq!(
        MenuAction::from_string("interval_Min5"),
        Some(MenuAction::SetInterval(RefreshInterval::Min5))
    );
    assert_eq!(
        MenuAction::from_string("interval_Min10"),
        Some(MenuAction::SetInterval(RefreshInterval::Min10))
    );
    assert_eq!(
        MenuAction::from_string("interval_Min30"),
        Some(MenuAction::SetInterval(RefreshInterval::Min30))
    );
    assert_eq!(
        MenuAction::from_string("interval_Hour1"),
        Some(MenuAction::SetInterval(RefreshInterval::Hour1))
    );
    assert_eq!(MenuAction::from_string("interval_Min2"), None);
    assert_eq!(MenuAction::from_string("unknown"), None);
    assert_eq!(MenuAction::from_string(""), None);
}

#[test]
fn refresh_and_quit_leave_the_state_alone() {
    let mut state = SharedState::new(Settings::default());
    assert_eq!(MenuAction::Refresh.handle(&mut state), MenuEffect::RequestRefresh);
    assert_eq!(MenuAction::Quit.handle(&mut state), MenuEffect::Quit);
    assert_eq!(state.get_language(), Language::Chinese);
    assert_eq!(state.get_refresh_interval(), RefreshInterval::Min5);
}

#[test]
fn open_settings_names_the_settings_page() {
    let mut state = SharedState::new(Settings::default());
    assert_eq!(
        MenuAction::OpenSettings.handle(&mut state),
        MenuEffect::OpenUrl("https://www.cursor.com/settings")
    );
}

#[test]
fn selecting_a_language_asks_for_persistence() {
    let mut state = SharedState::new(Settings::default());
    let effect = MenuAction::SetLanguage(Language::English).handle(&mut state);
    assert_eq!(state.get_language(), Language::English);
    match effect {
        MenuEffect::PersistAndRedraw(s) => {
            assert_eq!(s.language, "English");
            assert_eq!(s.refresh_interval, 300);
        }
        other => panic!("expected a persistence request, got {:?}", other),
    }
}

#[test]
fn selecting_an_interval_asks_for_persistence() {
    let mut state = SharedState::new(Settings::default());
    let effect = MenuAction::SetInterval(RefreshInterval::Min10).handle(&mut state);
    assert_eq!(state.get_refresh_interval(), RefreshInterval::Min10);
    match effect {
        MenuEffect::PersistAndRedraw(s) => {
            assert_eq!(s.language, "Chinese");
            assert_eq!(s.refresh_interval, 600);
        }
        other => panic!("expected a persistence request, got {:?}", other),
    }
}

#[test]
fn menu_texts_per_language() {
    let zh = Language::Chinese.get_menu_texts();
    assert_eq!(zh.title, "🤖 Cursor GPT-4 用量");
    assert_eq!(zh.used, "已用");
    assert_eq!(zh.quit, "退出");
    let en = Language::English.get_menu_texts();
    assert_eq!(en.title, "🤖 Cursor GPT-4 Usage");
    assert_eq!(en.used, "Used");
    assert_eq!(en.refresh, "Refresh Data");
    assert_eq!(en.settings, "Open Cursor Settings");
    assert_eq!(en.quit, "Exit");
}

#[test]
fn icon_color_thresholds() {
    assert_eq!(get_color_for_usage(0), (50, 200, 100));
    assert_eq!(get_color_for_usage(499), (50, 200, 100));
    assert_eq!(get_color_for_usage(500), (250, 230, 30));
    assert_eq!(get_color_for_usage(699), (250, 230, 30));
    assert_eq!(get_color_for_usage(700), (250, 150, 30));
    assert_eq!(get_color_for_usage(899), (250, 150, 30));
    assert_eq!(get_color_for_usage(900), (230, 40, 40));
    assert_eq!(get_color_for_usage(1000), (230, 40, 40));
}
