use jexcel::{
    Distance, Effort, EncodeOptions, EncodePlan, Error, FrameSettings, JxlEncoder, Progressive,
    Quality, SettingsCall,
};

fn options() -> EncodeOptions {
    EncodeOptions {
        distance: None,
        effort: 7,
        progressive: 0,
        decoding_speed: 0,
        force_modular: false,
        force_from_pixels: false,
        verify: false,
    }
}

fn distance(value: f32) -> Option<Distance> {
    Some(Distance::from_bits(value.to_bits()))
}

#[test]
fn default_distance_is_one_and_lossy() {
    let quality = Quality::new(&options()).unwrap();
    assert_eq!(f32::from_bits(quality.distance.to_bits()), 1.0);
    assert!(!quality.is_lossless);
    assert!(!quality.is_modular);
    assert_eq!(quality.effort, Effort::Squirrel);
}

#[test]
fn default_distance_of_forced_modular_is_lossless() {
    let quality = Quality::new(&EncodeOptions { force_modular: true, ..options() }).unwrap();
    assert_eq!(quality.distance, Distance::zero());
    assert!(quality.is_lossless);
    assert!(quality.is_modular);
}

#[test]
fn forced_modular_with_a_distance_is_lossy_modular() {
    let quality = Quality::new(&EncodeOptions {
        force_modular: true,
        distance: distance(2.0),
        ..options()
    })
    .unwrap();
    assert_eq!(f32::from_bits(quality.distance.to_bits()), 2.0);
    assert!(!quality.is_lossless);
    assert!(quality.is_modular);
}

#[test]
fn every_distance_below_threshold_is_distance_zero() {
    let zero = EncodePlan::new(&EncodeOptions { distance: distance(0.0), ..options() }, false);
    for value in [0.0f32, 0.001, 0.005, 0.0099, -0.0, -1.0] {
        for is_jpeg in [false, true] {
            let at_zero =
                EncodePlan::new(&EncodeOptions { distance: distance(0.0), ..options() }, is_jpeg)
                    .unwrap();
            let plan = EncodePlan::new(
                &EncodeOptions { distance: distance(value), ..options() },
                is_jpeg,
            )
            .unwrap();
            assert_eq!(plan, at_zero);
            assert!(plan.quality.is_lossless);
            assert!(plan.quality.is_modular);
            assert_eq!(plan.quality.distance.to_bits(), 0);
        }
    }
    assert!(zero.is_ok());
    // At the threshold the encode is lossy and the distance is kept.
    let lossy = EncodePlan::new(&EncodeOptions { distance: distance(0.01), ..options() }, false)
        .unwrap();
    assert!(!lossy.quality.is_lossless);
    assert_eq!(f32::from_bits(lossy.quality.distance.to_bits()), 0.01);
}

#[test]
fn lossless_plan_engages_the_lossless_switch() {
    let mut encoder = JxlEncoder::new(0x1000).unwrap();
    let (settings, _) = FrameSettings::new(&mut encoder, None, 0x2000).unwrap();
    for value in [0.0f32, 0.004] {
        let plan = EncodePlan::new(&EncodeOptions { distance: distance(value), ..options() }, false)
            .unwrap();
        assert_eq!(
            plan.configure(&settings, 0),
            Ok(SettingsCall::SetLossless { settings: 0x2000 })
        );
        assert_eq!(
            plan.configure(&settings, 6),
            Ok(SettingsCall::SetOption { settings: 0x2000, option: 11, value: 1 })
        );
    }
}

#[test]
fn invalid_effort_is_a_usage_error() {
    for effort in [0i64, 12, -3] {
        let bad = EncodeOptions { effort, ..options() };
        assert_eq!(Quality::new(&bad), Err(Error::ApiUsage));
        assert_eq!(EncodePlan::new(&bad, true), Err(Error::ApiUsage));
    }
    assert!(EncodePlan::new(&EncodeOptions { effort: 11, ..options() }, true).is_ok());
}

fn controls(lf: Option<u32>, hf_quant: Option<bool>, hf: Option<bool>) -> Progressive {
    Progressive { modular_responsive: None, lf_frames: lf, hf, hf_quant }
}

#[test]
fn progressive_table_of_a_transform_coded_frame() {
    let none = Progressive { modular_responsive: None, lf_frames: None, hf: None, hf_quant: None };
    assert_eq!(Progressive::derive(0, false, false), none);
    assert_eq!(Progressive::derive(1, false, false), controls(Some(1), None, None));
    assert_eq!(Progressive::derive(2, false, false), controls(Some(1), Some(true), None));
    assert_eq!(Progressive::derive(3, false, false), controls(Some(1), Some(true), Some(true)));
    assert_eq!(Progressive::derive(4, false, false), controls(Some(2), Some(true), Some(true)));
    assert_eq!(Progressive::derive(5, false, false), controls(Some(2), Some(true), Some(true)));
    assert_eq!(Progressive::derive(255, false, false), controls(Some(2), Some(true), Some(true)));
}

#[test]
fn progressive_modular_frame_is_responsive_only() {
    let responsive = Progressive {
        modular_responsive: Some(true),
        lf_frames: None,
        hf: None,
        hf_quant: None,
    };
    for intensity in 1..=6u8 {
        assert_eq!(Progressive::derive(intensity, true, false), responsive);
    }
    let none = Progressive { modular_responsive: None, lf_frames: None, hf: None, hf_quant: None };
    assert_eq!(Progressive::derive(0, true, false), none);
}

#[test]
fn transcode_sets_no_progressive_control() {
    let none = Progressive { modular_responsive: None, lf_frames: None, hf: None, hf_quant: None };
    for intensity in 0..=6u8 {
        for is_modular in [false, true] {
            assert_eq!(Progressive::derive(intensity, is_modular, true), none);
        }
    }
    let plan = EncodePlan::new(&EncodeOptions { progressive: 4, ..options() }, true).unwrap();
    assert!(plan.do_transcode);
    assert_eq!(plan.progressive, none);
}

#[test]
fn transcode_is_for_jpeg_unless_pixels_are_forced() {
    let forced = EncodeOptions { force_from_pixels: true, ..options() };
    assert!(EncodePlan::new(&options(), true).unwrap().do_transcode);
    assert!(!EncodePlan::new(&options(), false).unwrap().do_transcode);
    assert!(!EncodePlan::new(&forced, true).unwrap().do_transcode);
    assert!(!EncodePlan::new(&forced, false).unwrap().do_transcode);
}

#[test]
fn verification_needs_an_exact_output() {
    let verify = EncodeOptions { verify: true, ..options() };
    let lossless = EncodeOptions { distance: distance(0.0), ..verify };
    // lossy from pixels: nothing to compare with
    assert!(!EncodePlan::new(&verify, false).unwrap().do_verify);
    // transcode
    assert!(EncodePlan::new(&verify, true).unwrap().do_verify);
    // lossless from pixels
    assert!(EncodePlan::new(&lossless, false).unwrap().do_verify);
    assert!(EncodePlan::new(&EncodeOptions { force_from_pixels: true, ..lossless }, true)
        .unwrap()
        .do_verify);
    // not asked for
    assert!(!EncodePlan::new(&options(), true).unwrap().do_verify);
}

#[test]
fn settings_are_configured_in_order() {
    let mut encoder = JxlEncoder::new(0x1000).unwrap();
    let (settings, _) = FrameSettings::new(&mut encoder, None, 0x2000).unwrap();
    let plan = EncodePlan::new(
        &EncodeOptions {
            distance: distance(1.5),
            effort: 9,
            progressive: 3,
            decoding_speed: 2,
            ..options()
        },
        false,
    )
    .unwrap();
    let option =
        |option: u32, value: i64| SettingsCall::SetOption { settings: 0x2000, option, value };
    let expected = [
        SettingsCall::SetDistance {
            settings: 0x2000,
            distance: Distance::from_bits(1.5f32.to_bits()),
        },
        option(0, 9),
        option(16, -1),
        option(19, 1),
        option(17, 1),
        option(18, 1),
        option(11, -1),
        option(1, 2),
    ];
    for (index, call) in expected.iter().enumerate() {
        assert_eq!(plan.configure(&settings, index as u8), Ok(*call));
    }
    assert_eq!(plan.configure(&settings, 8), Err(Error::ApiUsage));
    assert_eq!(jexcel::encode::SETTINGS_CALLS, 8);
}

#[test]
fn decoding_speed_out_of_range_fails_at_its_request() {
    let mut encoder = JxlEncoder::new(0x1000).unwrap();
    let (settings, _) = FrameSettings::new(&mut encoder, None, 0x2000).unwrap();
    let plan = EncodePlan::new(&EncodeOptions { decoding_speed: 5, ..options() }, false).unwrap();
    for index in 0..7u8 {
        assert!(plan.configure(&settings, index).is_ok());
    }
    assert_eq!(plan.configure(&settings, 7), Err(Error::ApiUsage));
}
