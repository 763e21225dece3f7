use dod_shell::percentage::Percentage;
use dod_shell::volume::{volume_from_channels, ChannelReading, VolumeError};

fn ch(volume: Option<i64>, switch: Option<i32>) -> ChannelReading {
    ChannelReading { volume, switch }
}

#[test]
fn muted_channel_gives_marker() {
    let r = volume_from_channels(65536, &vec![ch(Some(40000), Some(0))]).unwrap();
    assert!(r.is_muted());
    assert_eq!(r.render(), "-1%");
}

#[test]
fn volume_is_level_over_max() {
    let r = volume_from_channels(64, &vec![ch(None, None), ch(Some(32), Some(1)), ch(Some(64), Some(0))]);
    assert_eq!(r, Ok(Percentage::new(32, 64)));
    assert_eq!(r.unwrap().render(), "50%");
}

#[test]
fn no_readable_channel_gives_zero() {
    assert_eq!(volume_from_channels(64, &vec![ch(None, Some(1))]), Ok(Percentage::zero()));
    assert_eq!(volume_from_channels(64, &vec![]), Ok(Percentage::zero()));
}

#[test]
fn unreadable_switch_fails() {
    assert_eq!(volume_from_channels(64, &vec![ch(Some(10), None)]), Err(VolumeError::SwitchUnreadable));
}

#[test]
fn empty_range_gives_zero() {
    assert_eq!(volume_from_channels(0, &vec![ch(Some(10), Some(1))]), Ok(Percentage::zero()));
}

#[test]
fn negative_range_end_divides_too() {
    let r = volume_from_channels(-10, &vec![ch(Some(5), Some(1))]).unwrap();
    assert_eq!(r.get_value(), (-5, 10));
    assert_eq!(r.render(), "-50%");
}
