use cursor_watch::config::{Language, RefreshInterval, SharedState, UsageData};
use cursor_watch::settings::Settings;

fn snapshot(used: i32, total: i32) -> UsageData {
    UsageData {
        used,
        total,
        percentage_tenths: 0,
        email: None,
        last_update: String::new(),
        error: None,
    }
}

#[test]
fn percentage_of_the_usage_scenario() {
    // 42 of 500 requests is 8.4%.
    assert_eq!(snapshot(42, 500).calculate_percentage(), 84);
}

#[test]
fn percentage_with_zero_total_is_zero() {
    assert_eq!(snapshot(0, 0).calculate_percentage(), 0);
    assert_eq!(snapshot(7, 0).calculate_percentage(), 0);
}

#[test]
fn percentage_at_the_edges() {
    assert_eq!(snapshot(0, 500).calculate_percentage(), 0);
    assert_eq!(snapshot(500, 500).calculate_percentage(), 1000);
}

#[test]
fn percentage_rounds_to_one_decimal() {
    // 1/3 is 33.33..% and rounds down to 33.3%; 2/3 is 66.66..% and rounds up.
    assert_eq!(snapshot(1, 3).calculate_percentage(), 333);
    assert_eq!(snapshot(2, 3).calculate_percentage(), 667);
    // 1/8 is 12.5%, a half that rounds up to 12.5 exactly in tenths.
    assert_eq!(snapshot(1, 8).calculate_percentage(), 125);
    // 1/16 is 6.25%, a half in tenths, rounded up to 6.3%.
    assert_eq!(snapshot(1, 16).calculate_percentage(), 63);
}

#[test]
fn percentage_at_the_largest_counts() {
    assert_eq!(snapshot(i32::MAX, i32::MAX).calculate_percentage(), 1000);
    assert_eq!(snapshot(0, i32::MAX).calculate_percentage(), 0);
}

#[test]
fn percentage_can_exceed_one_hundred_when_overdrawn() {
    assert_eq!(snapshot(600, 500).calculate_percentage(), 1200);
}

#[test]
fn default_snapshot_is_empty_and_stamped() {
    let d = UsageData::default();
    assert_eq!(d.used, 0);
    assert_eq!(d.total, 0);
    assert_eq!(d.percentage_tenths, 0);
    assert_eq!(d.email, None);
    assert_eq!(d.error, None);
    assert_eq!(d.last_update.chars().count(), 8);
}

#[test]
fn update_time_stamps_and_keeps_the_rest() {
    let mut d = snapshot(3, 4);
    d.update_time();
    assert_eq!(d.last_update.chars().count(), 8);
    assert_eq!(d.used, 3);
    assert_eq!(d.total, 4);
}

#[test]
fn language_from_str() {
    assert_eq!(Language::from_str("Chinese"), Language::Chinese);
    assert_eq!(Language::from_str("English"), Language::English);
    assert_eq!(Language::from_str("Klingon"), Language::Chinese);
    assert_eq!(Language::from_str(""), Language::Chinese);
}

#[test]
fn language_names() {
    assert_eq!(Language::Chinese.as_str(), "Chinese");
    assert_eq!(Language::English.as_str(), "English");
}

#[test]
fn interval_from_and_to_seconds() {
    assert_eq!(RefreshInterval::from_secs(60), RefreshInterval::Min1);
    assert_eq!(RefreshInterval::from_secs(300), RefreshInterval::Min5);
    assert_eq!(RefreshInterval::from_secs(600), RefreshInterval::Min10);
    assert_eq!(RefreshInterval::from_secs(1800), RefreshInterval::Min30);
    assert_eq!(RefreshInterval::from_secs(3600), RefreshInterval::Hour1);
    assert_eq!(RefreshInterval::from_secs(42), RefreshInterval::Min5);
    for interval in RefreshInterval::all() {
        assert_eq!(RefreshInterval::from_secs(interval.as_secs()), interval);
    }
}

#[test]
fn interval_display_text() {
    assert_eq!(RefreshInterval::Min1.to_string(Language::English), "1 minute");
    assert_eq!(RefreshInterval::Hour1.to_string(Language::English), "1 hour");
    assert_eq!(RefreshInterval::Min5.to_string(Language::Chinese), "5分钟");
    assert_eq!(RefreshInterval::Hour1.to_string(Language::Chinese), "1小时");
}

#[test]
fn all_intervals_in_order() {
    assert_eq!(
        RefreshInterval::all(),
        vec![
            RefreshInterval::Min1,
            RefreshInterval::Min5,
            RefreshInterval::Min10,
            RefreshInterval::Min30,
            RefreshInterval::Hour1,
        ]
    );
}

#[test]
fn settings_defaults() {
    let s = Settings::default();
    assert_eq!(s.language, "Chinese");
    assert_eq!(s.refresh_interval, 300);
}

#[test]
fn shared_state_from_default_settings() {
    let state = SharedState::new(Settings::default());
    assert_eq!(state.language, Language::Chinese);
    assert_eq!(state.refresh_interval, RefreshInterval::Min5);
    assert_eq!(state.get_usage_data().used, 0);
    assert_eq!(state.get_usage_data().error, None);
}

#[test]
fn shared_state_from_stored_settings() {
    let state = SharedState::new(Settings {
        language: "English".to_string(),
        refresh_interval: 1800,
    });
    assert_eq!(state.get_language(), Language::English);
    assert_eq!(state.get_refresh_interval(), RefreshInterval::Min30);
}

#[test]
fn publishing_a_snapshot_replaces_it_whole() {
    let mut state = SharedState::new(Settings::default());
    let mut d = snapshot(42, 500);
    d.percentage_tenths = 84;
    state.set_usage_data(d.clone());
    assert_eq!(state.get_usage_data(), d);
    assert_eq!(state.get_language(), Language::Chinese);
}

#[test]
fn selecting_a_language_updates_the_settings_record() {
    let mut state = SharedState::new(Settings::default());
    let to_save = state.set_language(Language::English);
    assert_eq!(state.get_language(), Language::English);
    assert_eq!(to_save.language, "English");
    assert_eq!(to_save.refresh_interval, 300);
}

#[test]
fn selecting_an_interval_updates_the_settings_record() {
    let mut state = SharedState::new(Settings::default());
    let to_save = state.set_refresh_interval(RefreshInterval::Hour1);
    assert_eq!(state.get_refresh_interval(), RefreshInterval::Hour1);
    assert_eq!(to_save.language, "Chinese");
    assert_eq!(to_save.refresh_interval, 3600);
}
