use dod_shell::leds::{key_states, BrightnessFile, LedEntry, LedError};

fn entry(name: &str, brightness: BrightnessFile) -> LedEntry {
    LedEntry { name: name.to_string(), brightness }
}

fn text(s: &str) -> BrightnessFile {
    BrightnessFile::Text(s.to_string())
}

#[test]
fn capslock_on_numlock_absent() {
    let es = vec![entry("input3::capslock", text("1\n")), entry("phy0-led", text("1"))];
    assert_eq!(key_states(&es), Ok((true, false)));
}

#[test]
fn numlock_on() {
    let es = vec![entry("input12::numlock", text("1")), entry("input12::capslock", text("0"))];
    assert_eq!(key_states(&es), Ok((false, true)));
}

#[test]
fn brightness_is_summed_over_devices() {
    let es = vec![
        entry("input3::capslock", text("0")),
        entry("input7::capslock", text("1")),
        entry("input3::numlock", text("0")),
        entry("input7::numlock", text("0")),
    ];
    assert_eq!(key_states(&es), Ok((true, false)));
}

#[test]
fn names_must_match_the_pattern() {
    let es = vec![
        entry("input::capslock", text("1")),
        entry("inputX::numlock", text("1")),
        entry("input3::scrolllock", text("1")),
    ];
    assert_eq!(key_states(&es), Ok((false, false)));
    assert_eq!(key_states(&Vec::new()), Ok((false, false)));
}

#[test]
fn entries_without_brightness_are_skipped() {
    let es = vec![entry("input3::capslock", BrightnessFile::Missing)];
    assert_eq!(key_states(&es), Ok((false, false)));
}

#[test]
fn unreadable_brightness_fails() {
    let es = vec![entry("input3::capslock", BrightnessFile::Unreadable)];
    assert_eq!(key_states(&es), Err(LedError::Unreadable));
    let es = vec![entry("input3::numlock", text("on"))];
    assert_eq!(key_states(&es), Err(LedError::NotANumber));
    let es = vec![entry("phy0-led", BrightnessFile::Unreadable), entry("input3::numlock", text("1"))];
    assert_eq!(key_states(&es), Ok((false, true)));
}
