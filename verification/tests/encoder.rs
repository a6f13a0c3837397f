use mumble_tauri::media::capture::EncoderInput;
use mumble_tauri::media::encoder::{
    candidates, merge, probe_wait, wants_probe, EncoderReport, ProbeResult, ProbeWait, AUTO_CODEC,
};
use mumble_tauri::media::gpu::{
    describe_adapter, describe_adapters, signature, signature_of_digest, AdapterFacts,
};
use mumble_tauri::media::settings::EncoderChoice;

fn result(id: &str, available: bool) -> ProbeResult {
    ProbeResult {
        id: id.to_owned(),
        available,
        detail: if available { None } else { Some("nope".to_owned()) },
        elapsed_ms: 1,
        input: None,
    }
}

#[test]
fn merge_keeps_catalogue_order_and_size() {
    let merged = merge(&vec![result("h264_mf", true)]);
    assert_eq!(merged.len(), candidates().len());
    let ids: Vec<&str> = merged.iter().map(|e| e.id.as_str()).collect();
    let catalogue = candidates();
    let expected: Vec<&str> = catalogue.iter().map(|c| c.id).collect();
    assert_eq!(ids, expected);
}

#[test]
fn unreported_candidates_are_unavailable() {
    let merged = merge(&vec![]);
    assert!(merged.iter().all(|e| !e.available));
    assert!(merged.iter().all(|e| e.detail.as_deref() == Some("not probed")));
}

#[test]
fn auto_prefers_hardware_over_software() {
    // Only software encoders present -> falls back to one of those.
    let software_only = merge(&vec![result("libopenh264", true), result("h264_mf", true)]);
    assert_eq!(
        EncoderReport::auto_pick(&software_only).as_deref(),
        Some("h264_mf"),
        "catalogue order puts h264_mf before libopenh264"
    );

    // Hardware present -> wins regardless of catalogue position.
    let with_hardware = merge(&vec![result("libopenh264", true), result("h264_qsv", true)]);
    assert_eq!(EncoderReport::auto_pick(&with_hardware).as_deref(), Some("h264_qsv"));
}

#[test]
fn auto_is_none_when_nothing_works() {
    assert_eq!(EncoderReport::auto_pick(&merge(&vec![])), None);
}

#[test]
fn auto_never_picks_hevc_or_av1() {
    // Every non-H.264 encoder working, no H.264 at all: automatic
    // selection must decline rather than hand back a codec the SFU may
    // silently drop.
    let non_h264: Vec<ProbeResult> = candidates()
        .iter()
        .filter(|c| c.codec != AUTO_CODEC)
        .map(|c| result(c.id, true))
        .collect();
    assert!(!non_h264.is_empty(), "catalogue should contain HEVC and AV1");
    assert_eq!(EncoderReport::auto_pick(&merge(&non_h264)), None);
}

#[test]
fn auto_prefers_h264_software_over_other_codec_hardware() {
    // libopenh264 is software, hevc_nvenc is hardware. H.264 still wins,
    // because codec compatibility outranks hardware acceleration.
    let merged = merge(&vec![result("hevc_nvenc", true), result("libopenh264", true)]);
    assert_eq!(EncoderReport::auto_pick(&merged).as_deref(), Some("libopenh264"));
}

#[test]
fn explicit_non_h264_choice_is_still_honoured() {
    let encoders = merge(&vec![result("hevc_nvenc", true), result("h264_nvenc", true)]);
    let report = EncoderReport {
        supported: true,
        auto_selected: EncoderReport::auto_pick(&encoders),
        encoders,
        gpu_signature: "test".to_owned(),
        probed_at: 0,
    };
    let picked = report.resolve_choice(&EncoderChoice::Id("hevc_nvenc".to_owned())).unwrap();
    assert_eq!(picked.id, "hevc_nvenc");
    assert!(!picked.fell_back, "an available explicit choice must be kept");
}

#[test]
fn every_candidate_has_a_known_codec() {
    for c in candidates() {
        assert!(
            matches!(c.codec, "h264" | "hevc" | "av1"),
            "{} has unexpected codec {}",
            c.id,
            c.codec
        );
    }
}

fn report_with(available: &[&str]) -> EncoderReport {
    let encoders = merge(&available.iter().map(|id| result(id, true)).collect::<Vec<_>>());
    EncoderReport {
        supported: true,
        auto_selected: EncoderReport::auto_pick(&encoders),
        encoders,
        gpu_signature: "test".to_owned(),
        probed_at: 0,
    }
}

#[test]
fn explicit_available_choice_is_honoured() {
    let report = report_with(&["h264_nvenc", "h264_mf"]);
    let picked = report.resolve_choice(&EncoderChoice::Id("h264_mf".to_owned())).unwrap();
    assert_eq!(picked.id, "h264_mf");
    assert!(!picked.fell_back);
}

#[test]
fn unavailable_choice_falls_back_and_says_so() {
    let report = report_with(&["h264_nvenc"]);
    let picked = report.resolve_choice(&EncoderChoice::Id("h264_qsv".to_owned())).unwrap();
    assert_eq!(picked.id, "h264_nvenc");
    assert!(picked.fell_back, "the UI needs to know the choice was dropped");
}

#[test]
fn auto_choice_does_not_count_as_fallback() {
    let picked = report_with(&["h264_nvenc"]).resolve_choice(&EncoderChoice::Auto).unwrap();
    assert_eq!(picked.id, "h264_nvenc");
    assert!(!picked.fell_back);
}

#[test]
fn resolving_without_any_encoder_is_an_error() {
    assert!(report_with(&[]).resolve_choice(&EncoderChoice::Auto).is_err());
}

#[test]
fn unsupported_report_marks_everything_unavailable() {
    let report = EncoderReport::unsupported("no dice");
    assert!(!report.supported);
    assert_eq!(report.encoders.len(), candidates().len());
    assert!(report.encoders.iter().all(|e| !e.available));
    assert_eq!(report.auto_selected, None);
}

#[test]
fn an_encoder_is_opened_on_the_path_that_worked() {
    let probed = |id: &str, input: Option<EncoderInput>| ProbeResult {
        input,
        ..result(id, true)
    };
    let report = EncoderReport::probed(
        Ok(vec![
            probed("h264_qsv", Some(EncoderInput::HardwareD3d11)),
            probed("h264_mf", None),
        ]),
        "gpu-1".to_owned(),
        0,
    );
    let pick = |choice: EncoderChoice| report.resolve_choice(&choice).unwrap().input;
    assert_eq!(pick(EncoderChoice::Auto), EncoderInput::HardwareD3d11);
    assert_eq!(
        pick(EncoderChoice::Id("h264_qsv".to_owned())),
        EncoderInput::HardwareD3d11
    );
    // Where the path is not known, the one that such encoders take.
    assert_eq!(pick(EncoderChoice::Id("h264_mf".to_owned())), EncoderInput::SysMemNv12);
}

#[test]
fn a_report_stands_while_the_graphics_hardware_does() {
    let known = EncoderReport::probed(Ok(vec![]), "gpu-1".to_owned(), 5);
    assert!(known.is_current(false, "gpu-1"));
    assert!(!known.is_current(true, "gpu-1"), "the user asked for a fresh probe");
    assert!(!known.is_current(false, "gpu-2"));
    // A machine whose hardware could not be described is probed every time.
    let unknown = EncoderReport::probed(Ok(vec![]), "gpu-unknown".to_owned(), 5);
    assert!(!unknown.is_current(false, "gpu-unknown"));
}

#[test]
fn a_failed_probe_is_reported_with_its_reason() {
    let report = EncoderReport::probed(Err("crashed".to_owned()), "gpu-1".to_owned(), 5);
    assert!(report.supported);
    assert!(report.encoders.iter().all(|e| e.detail.as_deref() == Some("crashed")));
    // The present lies after the year 2020.
    let now = EncoderReport::probed_now(Ok(vec![]), "gpu-1".to_owned());
    assert!(now.probed_at > 1_577_836_800);
}

#[test]
fn a_probe_that_hangs_is_killed() {
    assert_eq!(probe_wait(Ok(true), false), ProbeWait::Exited);
    assert_eq!(probe_wait(Ok(false), false), ProbeWait::Poll);
    assert!(matches!(probe_wait(Ok(false), true), ProbeWait::Kill(_)));
    assert!(matches!(probe_wait(Err("e".to_owned()), false), ProbeWait::Failed(_)));
    assert!(wants_probe(&vec!["app".to_owned(), "--probe-video-encoders".to_owned()]));
    assert!(!wants_probe(&vec!["app".to_owned()]));
}

fn adapter() -> AdapterFacts {
    AdapterFacts {
        description: "Card\0\0".encode_utf16().collect(),
        vendor_id: 0x10de,
        device_id: 0x2684,
        luid_high: 0,
        luid_low: 7,
        driver_version: 3,
    }
}

#[test]
fn signature_is_stable_and_shaped_as_expected() {
    let described = Some(describe_adapters(&vec![adapter()]));
    let first = signature(&described);
    assert!(first.starts_with("gpu-"), "unexpected shape: {first}");
    assert_eq!(first, signature(&described), "signature must be stable across calls");
}

#[test]
fn the_signature_is_a_digest_of_the_adapters() {
    let text = describe_adapters(&vec![adapter()]);
    assert_eq!(text, "Card|10de:2684|0:7|drv=3");
    assert_eq!(describe_adapter(&adapter()), Some(text.clone()));
    let first = signature(&Some(text.clone()));
    assert!(first.starts_with("gpu-"), "{first}");
    assert_eq!(first, signature(&Some(text.clone())), "stable across calls");
    assert_ne!(first, signature(&Some(format!("{text}x"))));
    assert_eq!(signature(&None), "gpu-unknown");
}

#[test]
fn the_digest_is_sha_256() {
    let digest: Vec<u8> = vec![
        0xba, 0x78, 0x16, 0xbf, 0x8f, 0x01, 0xcf, 0xea, 0x41, 0x41, 0x40, 0xde, 0x5d, 0xae, 0x22,
        0x23, 0xb0, 0x03, 0x61, 0xa3, 0x96, 0x17, 0x7a, 0x9c, 0xb4, 0x10, 0xff, 0x61, 0xf2, 0x00,
        0x15, 0xad,
    ];
    let abc = signature(&Some("abc".to_owned()));
    assert_eq!(abc, signature_of_digest(true, &digest));
    assert!(abc.starts_with("gpu-ba7816bf"), "{abc}");
    assert_eq!(signature(&Some(String::new())), "gpu-unknown");
}
