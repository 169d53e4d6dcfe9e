use jexcel::frame_settings::{DEFAULT_LOSSY_BITS, LOSSLESS_THRESHOLD_BITS};
use jexcel::{
    BlendInfo, Distance, Effort, Error, FrameHeader, FrameSettings, JxlEncoder, LayerInfo,
    SettingsCall,
};

fn settings() -> FrameSettings {
    let mut encoder = JxlEncoder::new(0x1000).unwrap();
    FrameSettings::new(&mut encoder, None, 0x2000).unwrap().0
}

fn option(option: u32, value: i64) -> SettingsCall {
    SettingsCall::SetOption { settings: 0x2000, option, value }
}

#[test]
fn effort_sets_option_0_to_the_tier() {
    let tiers = [
        (Effort::Lightning, 1i64),
        (Effort::Thunder, 2),
        (Effort::Falcon, 3),
        (Effort::Cheetah, 4),
        (Effort::Hare, 5),
        (Effort::Wombat, 6),
        (Effort::Squirrel, 7),
        (Effort::Kitten, 8),
        (Effort::Tortoise, 9),
        (Effort::Glacier, 10),
        (Effort::TectonicPlate, 11),
    ];
    for (effort, level) in tiers {
        assert_eq!(settings().effort(effort), option(0, level));
        assert_eq!(effort.to_level(), level);
        assert_eq!(Effort::try_from(level), Ok(effort));
    }
}

#[test]
fn effort_outside_1_to_11_is_a_usage_error() {
    for value in [0i64, -1, 12, 100, i64::MIN, i64::MAX] {
        assert_eq!(Effort::try_from(value), Err(Error::ApiUsage));
    }
}

#[test]
fn default_effort_is_squirrel() {
    assert_eq!(Effort::default(), Effort::Squirrel);
    assert!(Effort::Lightning < Effort::TectonicPlate);
}

#[test]
fn tri_state_options_encode_unset_as_minus_one() {
    let s = settings();
    for (value, raw) in [(None, -1i64), (Some(false), 0), (Some(true), 1)] {
        assert_eq!(s.modular_progressive(value), option(16, raw));
        assert_eq!(s.vardct_progressive_hf(value), option(17, raw));
        assert_eq!(s.vardct_progressive_hf_quant(value), option(18, raw));
        assert_eq!(s.modular(value), option(11, raw));
    }
}

#[test]
fn low_frequency_passes_are_0_to_2() {
    let s = settings();
    assert_eq!(s.vardct_progressive_lf(None), Ok(option(19, -1)));
    assert_eq!(s.vardct_progressive_lf(Some(0)), Ok(option(19, 0)));
    assert_eq!(s.vardct_progressive_lf(Some(1)), Ok(option(19, 1)));
    assert_eq!(s.vardct_progressive_lf(Some(2)), Ok(option(19, 2)));
    assert_eq!(s.vardct_progressive_lf(Some(3)), Err(Error::ApiUsage));
    assert_eq!(s.vardct_progressive_lf(Some(u32::MAX)), Err(Error::ApiUsage));
}

#[test]
fn decoding_speed_is_0_to_4() {
    let s = settings();
    for speed in 0..=4u32 {
        assert_eq!(s.decoding_speed(speed), Ok(option(1, speed as i64)));
    }
    assert_eq!(s.decoding_speed(5), Err(Error::ApiUsage));
    assert_eq!(s.decoding_speed(u32::MAX), Err(Error::ApiUsage));
}

#[test]
fn frame_header_is_passed_on() {
    let header = FrameHeader {
        duration: 3,
        timecode: 7,
        name_length: 0,
        is_last: true,
        layer_info: LayerInfo {
            have_crop: true,
            crop_x0: -4,
            crop_y0: 9,
            xsize: 16,
            ysize: 32,
            blend_info: BlendInfo { blendmode: 1, source: 2, alpha: 0, clamp: false },
            save_as_reference: 1,
        },
    };
    assert_eq!(
        settings().frame_header(&header),
        SettingsCall::SetFrameHeader { settings: 0x2000, header }
    );
}

fn distance(value: f32) -> Distance {
    Distance::from_bits(value.to_bits())
}

#[test]
fn threshold_patterns_are_those_of_the_values() {
    assert_eq!(LOSSLESS_THRESHOLD_BITS, 0.01f32.to_bits());
    assert_eq!(DEFAULT_LOSSY_BITS, 1.0f32.to_bits());
    assert_eq!(Distance::zero().to_bits(), 0.0f32.to_bits());
    assert_eq!(Distance::one().to_bits(), 1.0f32.to_bits());
}

#[test]
fn lossless_is_below_one_hundredth() {
    let values = [
        0.0f32,
        -0.0,
        0.001,
        0.009,
        0.0099,
        0.009999999,
        0.01,
        0.010000001,
        0.011,
        0.1,
        1.0,
        25.0,
        -0.5,
        -1.0,
        -1.0e30,
        f32::MIN_POSITIVE,
        f32::MIN_POSITIVE / 4.0,
        f32::EPSILON,
        f32::MAX,
        f32::MIN,
        f32::INFINITY,
        f32::NEG_INFINITY,
        f32::NAN,
        -f32::NAN,
    ];
    for value in values {
        assert_eq!(distance(value).is_lossless(), value < 0.01, "{value}");
    }
    // Around the threshold, one pattern at a time.
    let threshold = 0.01f32.to_bits();
    for bits in threshold - 64..threshold + 64 {
        let value = f32::from_bits(bits);
        assert_eq!(Distance::from_bits(bits).is_lossless(), value < 0.01);
    }
    assert!(Distance::from_bits(threshold - 1).is_lossless());
    assert!(!Distance::from_bits(threshold).is_lossless());
}

#[test]
fn lossless_agrees_with_the_comparison_on_every_kind_of_pattern() {
    // A sweep over the whole range of patterns, and the borders of each kind.
    let mut bits = 0u32;
    loop {
        let value = f32::from_bits(bits);
        assert_eq!(Distance::from_bits(bits).is_lossless(), value < 0.01, "{bits:#x}");
        match bits.checked_add(0x0001_0003) {
            Some(next) => bits = next,
            None => break,
        }
    }
    for border in [0x7f80_0000u32, 0x8000_0000, 0xff80_0000, 0x7fc0_0000, 0xffc0_0000] {
        for bits in [border.wrapping_sub(1), border, border.wrapping_add(1)] {
            let value = f32::from_bits(bits);
            assert_eq!(Distance::from_bits(bits).is_lossless(), value < 0.01, "{bits:#x}");
        }
    }
    assert!(!Distance::from_bits(u32::MAX).is_lossless());
}

#[test]
fn distance_below_threshold_goes_to_the_lossless_switch() {
    let s = settings();
    let lossless = SettingsCall::SetLossless { settings: 0x2000 };
    assert_eq!(s.distance(distance(0.0)), lossless);
    assert_eq!(s.distance(distance(0.005)), lossless);
    assert_eq!(s.distance(distance(0.0099)), lossless);
    assert_eq!(s.distance(distance(-3.0)), lossless);
    assert_eq!(
        s.distance(distance(0.01)),
        SettingsCall::SetDistance { settings: 0x2000, distance: distance(0.01) }
    );
    assert_eq!(
        s.distance(distance(1.5)),
        SettingsCall::SetDistance { settings: 0x2000, distance: distance(1.5) }
    );
    match s.distance(distance(2.0)) {
        SettingsCall::SetDistance { distance, .. } => {
            assert_eq!(f32::from_bits(distance.to_bits()), 2.0)
        }
        _ => unreachable!(),
    }
}
