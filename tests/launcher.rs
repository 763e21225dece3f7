use dod_shell::config::{BarConfig, Config};
use dod_shell::process::Bytes;
use dod_shell::launcher::{pick_mode, LauncherResult, LauncherResultInput, LauncherResults, ModeKind, SearchMode};

#[test]
fn search_returns_the_query() {
    assert_eq!(SearchMode {}.search("rust verus"), vec!["rust verus".to_string()]);
    assert_eq!(SearchMode {}.search(""), vec![String::new()]);
}

#[test]
fn search_url_is_percent_encoded() {
    let m = SearchMode {};
    assert_eq!(m.search_url("abc123"), "https://duck.com?q=abc123");
    assert_eq!(m.search_url("a b&c"), "https://duck.com?q=a%20b%26c");
    assert_eq!(m.search_url("é"), "https://duck.com?q=%C3%A9");
    assert_eq!(m.search_url(""), "https://duck.com?q=");
}

#[test]
fn bytes_in_binary_megabytes() {
    assert_eq!(Bytes(0).to_kb(), 0);
    assert_eq!(Bytes(1048575).to_kb(), 0);
    assert_eq!(Bytes(1048576).to_kb(), 1);
    assert_eq!(Bytes(5 * 1048576 + 7).to_kb(), 5);
}

#[test]
fn battery_reader_follows_config() {
    let mut c = Config::default();
    assert!(!c.bar.battery_enabled());
    c.bar = BarConfig { battery: Some("BAT0".to_string()), ..BarConfig::default() };
    assert!(c.bar.battery_enabled());
}

#[test]
fn modes_are_picked_by_prefix() {
    assert_eq!(pick_mode("  =1+2 "), (ModeKind::Math, "1+2".to_string()));
    assert_eq!(pick_mode("?rust"), (ModeKind::Search, "rust".to_string()));
    assert_eq!(pick_mode(" firefox\n"), (ModeKind::Launch, "firefox".to_string()));
    assert_eq!(pick_mode(""), (ModeKind::Launch, String::new()));
    assert_eq!(pick_mode("="), (ModeKind::Math, String::new()));
    assert_eq!(pick_mode("a=b"), (ModeKind::Launch, "a=b".to_string()));
}

fn active_flags(r: &LauncherResults) -> Vec<bool> {
    r.results().iter().map(|x| x.active).collect()
}

#[test]
fn selection_wraps_around() {
    let mut r = LauncherResults::new();
    r.replace(vec!["a".to_string(), "b".to_string(), "c".to_string()]);
    assert_eq!(r.get_selected_index(), 0);
    assert_eq!(active_flags(&r), vec![true, false, false]);
    r.increase_and_set();
    r.increase_and_set();
    assert_eq!(r.get_selected_index(), 2);
    assert_eq!(active_flags(&r), vec![false, false, true]);
    r.increase_and_set();
    assert_eq!(r.get_selected_index(), 0);
    r.decrease_and_set();
    assert_eq!(r.get_selected_index(), 2);
    assert_eq!(active_flags(&r), vec![false, false, true]);
    r.reset_and_set();
    assert_eq!(r.get_selected_index(), 0);
    assert_eq!(active_flags(&r), vec![true, false, false]);
    assert_eq!(r.results()[1].label, "b");
}

#[test]
fn empty_selection_stays_put() {
    let mut r = LauncherResults::new();
    r.increase_and_set();
    r.decrease_and_set();
    r.reset_and_set();
    assert_eq!(r.get_selected_index(), 0);
    r.replace(vec!["x".to_string()]);
    r.increase_and_set();
    assert_eq!(r.get_selected_index(), 0);
    r.replace(Vec::new());
    assert_eq!(r.get_selected_index(), 0);
    assert!(r.results().is_empty());
}

#[test]
fn result_follows_messages() {
    let mut x = LauncherResult::init_model("x".to_string());
    assert!(!x.active);
    x.update(LauncherResultInput::ResultActive);
    assert!(x.active);
    x.update(LauncherResultInput::ResultInactive);
    assert!(!x.active);
    assert_eq!(x.label, "x");
}
