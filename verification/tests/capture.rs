use mumble_tauri::media::broadcast::source::{
    capture_stopped, flag_or_default, pipeline_config, StartRequest,
};
use mumble_tauri::media::capture::{
    plan, probe_plan, read_handle, CaptureSource, ChainRequest, DeviceSlot, EncoderInput,
    FilterStep, Handle,
};
use mumble_tauri::media::encoder::{EncoderReport, ProbeResult};
use mumble_tauri::media::pipeline::StopReason;
use mumble_tauri::media::settings::{CaptureBackend, EncoderChoice, OutputSize, ScreenShareSettings};
use mumble_tauri::text::NumberError;

const HD: OutputSize = OutputSize { width: 1920, height: 1080 };
const QHD: OutputSize = OutputSize { width: 2560, height: 1440 };

const MONITOR: CaptureSource = CaptureSource::Monitor { output_index: 0, hmonitor: 0x1234 };
const WINDOW: CaptureSource = CaptureSource::Window { hwnd: 0xABCD };

#[test]
fn picker_handles_preserve_all_bits_and_accept_legacy_numbers() {
    let text = |t: &str| read_handle(&Handle::Text(t.to_owned()));
    assert_eq!(text("18446744073709551615"), Ok(u64::MAX));
    assert_eq!(read_handle(&Handle::Number(1234)), Ok(1234));
    assert!(text("-1").is_err());
    assert_eq!(text(""), Err(NumberError::Empty));
    assert_eq!(text("12x"), Err(NumberError::InvalidDigit));
    assert_eq!(text("18446744073709551616"), Err(NumberError::Overflow));
}

fn request(backend: CaptureBackend, input: EncoderInput, target: OutputSize) -> ChainRequest {
    ChainRequest {
        source: MONITOR,
        backend,
        source_size: QHD,
        target_size: target,
        fps: 30,
        input,
        draw_cursor: true,
    }
}

fn names(steps: &[FilterStep]) -> Vec<&str> {
    steps.iter().map(|s| s.name).collect()
}

fn option<'a>(step: &'a FilterStep, key: &str) -> Option<&'a str> {
    step.options.iter().find(|(k, _)| *k == key).map(|(_, v)| v.as_str())
}

#[test]
fn hardware_path_has_no_conversion_at_all() {
    let steps =
        plan(&request(CaptureBackend::Ddagrab, EncoderInput::HardwareD3d11, QHD)).unwrap();
    assert_eq!(names(&steps), ["ddagrab"], "BGRA D3D11 frames go straight to the encoder");
}

#[test]
fn gfxcapture_scales_inside_the_source_filter() {
    let steps =
        plan(&request(CaptureBackend::Gfxcapture, EncoderInput::HardwareD3d11, HD)).unwrap();
    assert_eq!(names(&steps), ["gfxcapture"], "GPU scaling needs no extra filter");
    assert_eq!(option(&steps[0], "width"), Some("1920"));
    assert_eq!(option(&steps[0], "height"), Some("1080"));
    assert_eq!(option(&steps[0], "resize_mode"), Some("scale"));
}

#[test]
fn ddagrab_scales_through_a_cpu_round_trip() {
    let steps = plan(&request(CaptureBackend::Ddagrab, EncoderInput::HardwareD3d11, HD)).unwrap();
    assert_eq!(
        names(&steps),
        ["ddagrab", "hwdownload", "format", "scale", "hwupload"],
        "ddagrab cannot scale, and no GPU scaler is usable"
    );
    let scale = &steps[3];
    assert_eq!(option(scale, "w"), Some("1920"));
    assert_eq!(option(scale, "h"), Some("1080"));
    assert_eq!(steps[4].device, Some(DeviceSlot::D3d11));
}

#[test]
fn software_encoders_end_in_system_memory() {
    let nv12 = plan(&request(CaptureBackend::Ddagrab, EncoderInput::SysMemNv12, QHD)).unwrap();
    assert_eq!(names(&nv12), ["ddagrab", "hwdownload", "format", "format"]);
    assert_eq!(option(&nv12[3], "pix_fmts"), Some("nv12"));

    let yuv = plan(&request(CaptureBackend::Ddagrab, EncoderInput::SysMemYuv420p, QHD)).unwrap();
    assert_eq!(option(&yuv[3], "pix_fmts"), Some("yuv420p"));
    assert!(yuv.iter().all(|s| s.name != "hwupload"), "no upload for a software encoder");
}

#[test]
fn d3d12_encoder_uploads_nv12_to_its_own_device() {
    let steps =
        plan(&request(CaptureBackend::Gfxcapture, EncoderInput::HardwareD3d12, QHD)).unwrap();
    assert_eq!(names(&steps), ["gfxcapture", "hwdownload", "format", "format", "hwupload"]);
    assert_eq!(option(&steps[3], "pix_fmts"), Some("nv12"));
    assert_eq!(
        steps[4].device,
        Some(DeviceSlot::D3d12),
        "the upload has to target the D3D12 device, not the capture one"
    );
}

#[test]
fn window_capture_requires_gfxcapture() {
    let mut req = request(CaptureBackend::Ddagrab, EncoderInput::HardwareD3d11, QHD);
    req.source = WINDOW;
    assert!(plan(&req).is_err());

    req.backend = CaptureBackend::Gfxcapture;
    let steps = plan(&req).unwrap();
    assert_eq!(option(&steps[0], "hwnd"), Some("43981"), "0xABCD as decimal");
}

#[test]
fn monitors_are_addressed_per_backend() {
    // The two filters name the same display differently, and getting this
    // wrong captures the wrong screen rather than failing.
    let dda = plan(&request(CaptureBackend::Ddagrab, EncoderInput::HardwareD3d11, QHD)).unwrap();
    assert_eq!(option(&dda[0], "output_idx"), Some("0"));
    assert_eq!(option(&dda[0], "dup_frames"), Some("1"), "self-paced repeat frames");

    let gfx = plan(&request(CaptureBackend::Gfxcapture, EncoderInput::HardwareD3d11, QHD)).unwrap();
    assert_eq!(option(&gfx[0], "hmonitor"), Some("4660"), "0x1234 as decimal");

    // Both must use our device; a source that makes its own would put the
    // frames on a different D3D11 device than the encoder.
    assert_eq!(dda[0].device, Some(DeviceSlot::D3d11));
    assert_eq!(gfx[0].device, Some(DeviceSlot::D3d11));
}

#[test]
fn encoder_input_matches_the_measured_table() {
    for (id, expected) in [
        ("h264_nvenc", EncoderInput::HardwareD3d11),
        ("hevc_nvenc", EncoderInput::HardwareD3d11),
        ("av1_amf", EncoderInput::HardwareD3d11),
        ("h264_d3d12va", EncoderInput::HardwareD3d12),
        ("h264_qsv", EncoderInput::SysMemNv12),
        ("h264_mf", EncoderInput::SysMemNv12),
        ("libopenh264", EncoderInput::SysMemYuv420p),
    ] {
        assert_eq!(EncoderInput::for_encoder(id), expected, "{id}");
    }
}

#[test]
fn a_probe_captures_at_the_native_size() {
    let steps = probe_plan(WINDOW, CaptureBackend::Gfxcapture, 30);
    assert_eq!(names(&steps), ["gfxcapture"]);
    assert_eq!(option(&steps[0], "width"), None);
}

#[test]
fn audio_defaults_on_and_respects_explicit_disable() {
    assert!(flag_or_default(None));
    assert!(flag_or_default(Some(true)));
    assert!(!flag_or_default(Some(false)));
}

fn start(source: Result<CaptureSource, String>, settings: ScreenShareSettings) -> StartRequest {
    StartRequest { source, settings, draw_cursor: true, share_audio: false }
}

#[test]
fn a_request_is_checked_settings_first() {
    let works = EncoderReport::probed(
        Ok(vec![ProbeResult {
            id: "h264_mf".to_owned(),
            available: true,
            detail: None,
            elapsed_ms: 1,
            input: Some(EncoderInput::HardwareD3d11),
        }]),
        "gpu-1".to_owned(),
        0,
    );
    let bad = ScreenShareSettings { fps: 1, ..Default::default() };
    let e = pipeline_config(start(Err("no".to_owned()), bad), &works).unwrap_err();
    assert!(e.starts_with("fps 1 "), "{e}");
    let good = ScreenShareSettings::default();
    let e = pipeline_config(start(Err("no".to_owned()), good.clone()), &works).unwrap_err();
    assert_eq!(e, "invalid capture source: no");
    let none = EncoderReport::unsupported("none");
    let e = pipeline_config(start(Ok(MONITOR), good.clone()), &none).unwrap_err();
    assert_eq!(e, "no working h264 encoder found on this machine");
    let config = pipeline_config(start(Ok(MONITOR), good), &works).unwrap();
    assert_eq!(config.encoder_id, "h264_mf");
    assert_eq!(config.encoder_input, EncoderInput::HardwareD3d11, "the path that worked");
    assert_eq!(config.settings.encoder, EncoderChoice::Auto);
}

#[test]
fn only_a_failure_is_an_error() {
    assert_eq!(capture_stopped(None), None);
    assert_eq!(capture_stopped(Some(StopReason::Requested)), Some(Ok(())));
    assert_eq!(capture_stopped(Some(StopReason::SourceEnded)), Some(Ok(())));
    assert_eq!(
        capture_stopped(Some(StopReason::Failed { message: "gone".to_owned() })),
        Some(Err("gone".to_owned()))
    );
}
