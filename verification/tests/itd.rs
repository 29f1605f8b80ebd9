use bevy_seedling_spatial::channels::NonZeroChannels;
use bevy_seedling_spatial::itd::{
    channel_config_counts, itd_channel_config, itd_channel_layout, itd_inputs_silent,
    itd_process_step, InputConfig, ItdChannelLayout, ItdProcessStep,
};

#[test]
fn channel_count_bounds() {
    assert!(NonZeroChannels::new(0).is_none());
    assert_eq!(NonZeroChannels::new(1).unwrap().get(), 1);
    assert_eq!(NonZeroChannels::new(64).unwrap().get(), 64);
    assert!(NonZeroChannels::new(65).is_none());
    assert!(NonZeroChannels::new(u32::MAX).is_none());
}

#[test]
fn stereo_has_two_channels() {
    assert_eq!(NonZeroChannels::stereo().get(), 2);
}

#[test]
fn input_channels_stereo() {
    assert_eq!(InputConfig::Stereo.input_channels().get(), 2);
}

#[test]
fn input_channels_downmixed() {
    let six = NonZeroChannels::new(6).unwrap();
    assert_eq!(InputConfig::Downmixed(six).input_channels().get(), 6);
}

#[test]
fn channel_layout_of_configs() {
    assert_eq!(
        itd_channel_layout(&InputConfig::Stereo),
        ItdChannelLayout { num_inputs: 2, num_outputs: 2 }
    );
    let one = NonZeroChannels::new(1).unwrap();
    assert_eq!(
        itd_channel_layout(&InputConfig::Downmixed(one)),
        ItdChannelLayout { num_inputs: 1, num_outputs: 2 }
    );
}

#[test]
fn channel_config_of_configs() {
    let config = itd_channel_config(&InputConfig::Stereo);
    assert_eq!(config.num_inputs.get(), 2);
    assert_eq!(config.num_outputs.get(), 2);
    let eight = NonZeroChannels::new(8).unwrap();
    let config = itd_channel_config(&InputConfig::Downmixed(eight));
    assert_eq!(config.num_inputs.get(), 8);
    assert_eq!(config.num_outputs.get(), 2);
}

#[test]
fn silent_inputs_stereo() {
    let stereo = InputConfig::Stereo;
    assert!(itd_inputs_silent(&stereo, 0b11));
    assert!(itd_inputs_silent(&stereo, u64::MAX));
    assert!(itd_inputs_silent(&stereo, 0b111));
    assert!(!itd_inputs_silent(&stereo, 0));
    assert!(!itd_inputs_silent(&stereo, 0b01));
    assert!(!itd_inputs_silent(&stereo, 0b10));
    assert!(!itd_inputs_silent(&stereo, 0b1100));
}

#[test]
fn silent_inputs_downmixed_checks_every_channel() {
    let three = InputConfig::Downmixed(NonZeroChannels::new(3).unwrap());
    assert!(!itd_inputs_silent(&three, 0b011));
    assert!(itd_inputs_silent(&three, 0b111));
    let one = InputConfig::Downmixed(NonZeroChannels::new(1).unwrap());
    assert!(!itd_inputs_silent(&one, 0b001));
    assert!(itd_inputs_silent(&one, 0b011));
    let two = InputConfig::Downmixed(NonZeroChannels::new(2).unwrap());
    assert!(itd_inputs_silent(&two, 0b011));
    assert!(!itd_inputs_silent(&two, 0b001));
    let all = InputConfig::Downmixed(NonZeroChannels::new(64).unwrap());
    assert!(itd_inputs_silent(&all, u64::MAX));
    assert!(!itd_inputs_silent(&all, u64::MAX >> 1));
}

#[test]
fn process_step_of_blocks() {
    let stereo = InputConfig::Stereo;
    assert_eq!(itd_process_step(&stereo, 0b11, 2, 2), ItdProcessStep::ClearAllOutputs);
    assert_eq!(itd_process_step(&stereo, 0b01, 2, 2), ItdProcessStep::Stereo);
    let three = InputConfig::Downmixed(NonZeroChannels::new(3).unwrap());
    assert_eq!(itd_process_step(&three, 0b011, 3, 2), ItdProcessStep::Downmix { channels: 3 });
    assert_eq!(itd_process_step(&three, 0b111, 3, 2), ItdProcessStep::ClearAllOutputs);
    let mono = InputConfig::Downmixed(NonZeroChannels::new(1).unwrap());
    assert_eq!(itd_process_step(&mono, 0b01, 1, 2), ItdProcessStep::Downmix { channels: 1 });
}

#[test]
fn channel_config_counts_read_back() {
    let config = itd_channel_config(&InputConfig::Stereo);
    assert_eq!(
        channel_config_counts(&config),
        ItdChannelLayout { num_inputs: 2, num_outputs: 2 }
    );
    let five = InputConfig::Downmixed(NonZeroChannels::new(5).unwrap());
    assert_eq!(
        channel_config_counts(&itd_channel_config(&five)),
        ItdChannelLayout { num_inputs: 5, num_outputs: 2 }
    );
}
