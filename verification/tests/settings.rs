use mumble_tauri::commands::screen_share::{
    suggested_screen_share_bitrate, validate_screen_share_settings,
};
use mumble_tauri::media::settings::{
    even_floor, suggested_bitrate_kbps, validate_custom_size, CaptureBackend, EncoderChoice,
    OutputSize, P2pMode, Resolution, ScreenShareSettings, MAX_BITRATE_KBPS, MAX_P2P_VIEWERS,
    MIN_BITRATE_KBPS,
};

const UHD: OutputSize = OutputSize { width: 3840, height: 2160 };
const WIDE: OutputSize = OutputSize { width: 1920, height: 1200 };

#[test]
fn native_keeps_source_size_but_evens_it() {
    let odd = OutputSize { width: 1367, height: 769 };
    assert_eq!(Resolution::Native.resolve(odd), OutputSize { width: 1366, height: 768 });
}

#[test]
fn preset_fits_inside_sixteen_by_nine_box() {
    assert_eq!(
        Resolution::Preset { lines: 1080 }.resolve(UHD),
        OutputSize { width: 1920, height: 1080 }
    );
    // 16:10 source: height is honoured, width shrinks with it.
    assert_eq!(
        Resolution::Preset { lines: 1080 }.resolve(WIDE),
        OutputSize { width: 1728, height: 1080 }
    );
}

#[test]
fn preset_never_upscales() {
    let small = OutputSize { width: 1280, height: 720 };
    assert_eq!(Resolution::Preset { lines: 2160 }.resolve(small), small);
}

#[test]
fn custom_preserves_aspect_ratio() {
    let res = Resolution::Custom { width: 1000, height: 1000 };
    assert_eq!(res.resolve(UHD), OutputSize { width: 1000, height: 562 });
}

#[test]
fn portrait_source_survives_preset() {
    let portrait = OutputSize { width: 1080, height: 1920 };
    let out = Resolution::Preset { lines: 1080 }.resolve(portrait);
    assert!(out.width <= 1920 && out.height <= 1080);
    assert_eq!(out.width % 2, 0);
    assert_eq!(out.height % 2, 0);
}

#[test]
fn validate_rejects_out_of_range_values() {
    let bad_fps = ScreenShareSettings { fps: 0, ..Default::default() };
    assert!(bad_fps.validate().is_err());

    let bad_rate = ScreenShareSettings { bitrate_kbps: Some(10), ..Default::default() };
    assert!(bad_rate.validate().is_err());

    let bad_preset = ScreenShareSettings {
        resolution: Resolution::Preset { lines: 999 },
        ..Default::default()
    };
    assert!(bad_preset.validate().is_err());

    let bad_custom = ScreenShareSettings {
        resolution: Resolution::Custom { width: 4, height: 4 },
        ..Default::default()
    };
    assert!(bad_custom.validate().is_err());
}

#[test]
fn refusals_say_what_is_wrong() {
    let message = |s: ScreenShareSettings| s.validate().unwrap_err();
    assert_eq!(
        message(ScreenShareSettings { fps: 121, ..Default::default() }),
        "fps 121 is outside 5..=120"
    );
    assert_eq!(
        message(ScreenShareSettings { bitrate_kbps: Some(10), ..Default::default() }),
        "bitrate 10 kbps is outside 500..=50000"
    );
    assert_eq!(
        message(ScreenShareSettings {
            resolution: Resolution::Preset { lines: 999 },
            ..Default::default()
        }),
        "unsupported resolution preset 999p"
    );
    assert!(validate_custom_size(8193, 100).is_err());
    assert!(validate_custom_size(16, 8192).is_ok());
}

#[test]
fn saved_settings_are_checked_like_fresh_ones() {
    let good = ScreenShareSettings::default();
    assert_eq!(validate_screen_share_settings(good.clone()), Ok(good));
    let bad = ScreenShareSettings { fps: 4, ..Default::default() };
    assert!(validate_screen_share_settings(bad).is_err());
}

#[test]
fn defaults_are_valid_and_resolve() {
    let settings = ScreenShareSettings::default();
    let resolved = settings.resolve(UHD).unwrap();
    assert_eq!(resolved.size, UHD);
    assert_eq!(resolved.fps, 30);
    // Auto bit rate: clamped to the ceiling at 4K30.
    assert_eq!(resolved.bitrate_kbps, MAX_BITRATE_KBPS.min(17418));
}

#[test]
fn explicit_bitrate_wins_over_estimate() {
    let settings = ScreenShareSettings { bitrate_kbps: Some(2500), ..Default::default() };
    assert_eq!(settings.resolve(UHD).unwrap().bitrate_kbps, 2500);
}

#[test]
fn suggested_bitrate_is_clamped_both_ways() {
    let tiny = OutputSize { width: 160, height: 120 };
    assert_eq!(suggested_bitrate_kbps(tiny, 5), MIN_BITRATE_KBPS);
    let huge = OutputSize { width: 7680, height: 4320 };
    assert_eq!(suggested_bitrate_kbps(huge, 120), MAX_BITRATE_KBPS);
}

#[test]
fn the_estimate_follows_the_pixel_rate() {
    for (w, h, fps) in [(1920u32, 1080u32, 30u32), (2560, 1440, 60), (1280, 720, 25)] {
        let exact = f64::from(w) * f64::from(h) * f64::from(fps) * 0.07 / 1000.0;
        assert_eq!(suggested_screen_share_bitrate(w, h, fps), exact as u32);
    }
}

#[test]
fn encoder_choice_round_trips_as_plain_string() {
    assert_eq!(EncoderChoice::Auto.wire(), "auto");
    let named = EncoderChoice::Id("h264_nvenc".to_owned());
    assert_eq!(named.wire(), "h264_nvenc");
    assert_eq!(EncoderChoice::from_wire("AUTO".to_owned()), EncoderChoice::Auto);
    assert_eq!(EncoderChoice::from_wire("".to_owned()), EncoderChoice::Auto);
    assert_eq!(EncoderChoice::from_wire("h264_mf".to_owned()), named_mf());
    assert_eq!(named_mf().id(), Some("h264_mf"));
    assert_eq!(EncoderChoice::Auto.id(), None);
}

fn named_mf() -> EncoderChoice {
    EncoderChoice::Id("h264_mf".to_owned())
}

#[test]
fn p2p_slots_collapses_every_way_of_saying_none() {
    let auto =
        ScreenShareSettings { p2p: P2pMode::Auto, p2p_max_viewers: 3, ..Default::default() };
    assert_eq!(auto.p2p_slots(), 3);

    // Disabled wins over whatever the cap says.
    let disabled = ScreenShareSettings { p2p: P2pMode::Disabled, ..auto.clone() };
    assert_eq!(disabled.p2p_slots(), 0);

    // A cap of zero means the same thing as disabling it.
    let zero = ScreenShareSettings { p2p_max_viewers: 0, ..auto.clone() };
    assert_eq!(zero.p2p_slots(), 0);

    // Stored settings from a future build with a higher ceiling must not
    // hand out more slots than this build is prepared to serve.
    let over = ScreenShareSettings { p2p_max_viewers: 999, ..auto };
    assert_eq!(over.p2p_slots(), MAX_P2P_VIEWERS);
}

#[test]
fn defaults_are_what_the_settings_page_starts_with() {
    let s = ScreenShareSettings::default();
    assert_eq!(s.capture, CaptureBackend::Ddagrab);
    assert_eq!(s.encoder, EncoderChoice::Auto);
    assert_eq!(s.resolution, Resolution::Native);
    assert_eq!(s.bitrate_kbps, None);
    assert_eq!(s.p2p_max_viewers, 2);
    assert_eq!(even_floor(0), 2);
    assert_eq!(even_floor(7), 6);
}
