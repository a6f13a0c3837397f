use mumble_tauri::media::capture::{conversion_steps, DeviceSlot, EncoderInput, FilterStep};
use mumble_tauri::media::connection::{
    audio_parameters, stun_urls, AudioTiming, AudioWrite, Codec, KeyFrameFeedback, Negotiated, Step,
    VideoTiming, VideoWrite, MAX_FEEDBACK,
};
use mumble_tauri::media::display::DisplayInfo;
use mumble_tauri::media::encoder::{EncoderReport, ProbeResult};
use mumble_tauri::media::ffmpeg::graph::{
    build_error, check_leftover, classify_pull, device_argument, device_error, device_for,
    error_text, instance_name, op_outcome, plan_graph, GraphBuild, GraphOp, OpAnswer, PullCode,
    SinkFormat,
};
use mumble_tauri::media::ffmpeg::log::{LogCapture, LOG_ERROR, MAX_LINES};
use mumble_tauri::media::ffmpeg::params::{
    configure, gop_for, private_options, profile_for, ColorRange, ColorStandard, EncoderParams,
    Profile, GOP_D3D12VA, GOP_INFINITE,
};
use mumble_tauri::media::ffmpeg::probe::{
    attempt_frames, attempt_reason, detail, plane_rows, probe_failure, probe_order, probe_params,
    probe_result, require_key_frame, stop_reason, PixelFormat, ProbePacket, ProbeRun, ProbeStop,
    SupportedFormats,
};
use mumble_tauri::media::ffmpeg::session::{drain_step, open, submitted, OpenFailure, ReceiveCode};
use mumble_tauri::media::frame::EncodedFrame;
use mumble_tauri::media::mailbox::Pulled;
use mumble_tauri::media::negotiation::{
    answer_outcome, check_answer, outgoing_candidate, read_candidate, Candidate,
};
use mumble_tauri::media::network::{
    adapter_buffer, after_attempt, bind_addresses, interface_of, is_tun_proxy_adapter, is_usable,
    non_tun_ipv4_interfaces, Ipv4, ListOutcome, NetworkAdapter, IF_TYPE_PROP_VIRTUAL,
    IF_TYPE_TUNNEL,
};
use mumble_tauri::media::selftest::{
    collect_step, describe_display, has_parameter_sets, pick_encoder, wants_selftest, Collected,
    Options, SelfTestStep,
};
use mumble_tauri::media::settings::{CaptureBackend, EncoderChoice, OutputSize, Resolution};

#[test]
fn encoder_names_map_to_the_codec_they_produce() {
    // Getting this wrong means offering a codec we do not emit, and a
    // payload-type mismatch is a silent frame drop rather than an error.
    for (id, expected) in [
        ("h264_nvenc", Some(Codec::H264)),
        ("libopenh264", Some(Codec::H264)),
        ("hevc_qsv", Some(Codec::Hevc)),
        ("av1_nvenc", Some(Codec::Av1)),
        ("vp9_something", None),
    ] {
        assert_eq!(Codec::from_encoder(id), expected, "{id}");
    }
}

#[test]
fn h264_advertises_the_profile_the_encoders_actually_emit() {
    // H.264 is matched on profile and packetization-mode exactly, and frames
    // that do not match are dropped without an error, so this line has to agree
    // with the High profile that the encoders are configured for.
    let fmtp = Codec::H264.codec_parameters().sdp_fmtp_line;
    assert!(fmtp.contains("profile-level-id=64001f"), "{fmtp}");
    assert!(fmtp.contains("packetization-mode=1"), "{fmtp}");
}

#[test]
fn streams_are_described_for_negotiation() {
    assert_eq!(Codec::Av1.codec_parameters().mime_type, "video/AV1");
    assert_eq!(Codec::Hevc.codec_parameters().clock_rate, 90_000);
    let opus = audio_parameters();
    assert_eq!((opus.mime_type.as_str(), opus.clock_rate, opus.channels), ("audio/opus", 48_000, 2));
    assert_eq!(stun_urls().len(), 2);
}

fn codecs(mime: &str, payload_type: u8) -> Vec<Negotiated> {
    vec![Negotiated { mime_type: mime.to_owned(), payload_type }]
}

#[test]
fn video_keeps_the_gaps_between_frames() {
    let mut timing = VideoTiming::new(30);
    assert_eq!(timing.plan(0), VideoWrite::Discard, "nobody has answered yet");
    assert_eq!(timing.negotiate(&vec![]).unwrap_err(), "the far end negotiated no video codec");
    timing.negotiate(&codecs("video/H264", 114)).unwrap();
    timing.stamped(100);
    assert_eq!(
        timing.plan(166),
        VideoWrite::Write { payload_type: 114, step: Step::Millis { millis: 66 } }
    );
}

#[test]
fn audio_never_goes_back() {
    let mut timing = AudioTiming::new();
    assert_eq!(timing.plan(0), AudioWrite::Discard);
    assert_eq!(
        timing.negotiate(&codecs("video/H264", 1)).unwrap_err(),
        "the far end negotiated no Opus codec"
    );
    timing.negotiate(&codecs("AUDIO/OPUS", 111)).unwrap();
    timing.written(960);
    assert_eq!(timing.plan(1920), AudioWrite::Write { payload_type: 111, samples: Some(960) });
}

#[test]
fn feedback_is_kept_up_to_a_limit() {
    let mut feedback: KeyFrameFeedback<u8> = KeyFrameFeedback::new();
    feedback.note(&vec![(1, false)]);
    assert_eq!(feedback.take(), None, "no key frame was asked for");
    feedback.note(&vec![(2, true), (3, false)]);
    assert!(feedback.take().is_some());
    for i in 0..(MAX_FEEDBACK as u8 + 5) {
        feedback.note(&vec![(i, true)]);
    }
    let mut kept = 0;
    while feedback.take().is_some() {
        kept += 1;
    }
    assert_eq!(kept, MAX_FEEDBACK);
    feedback.note(&vec![(1, true)]);
    feedback.clear();
    assert_eq!(feedback.take(), None);
}

#[test]
fn identifies_tun_and_proxy_adapters() {
    assert!(is_tun_proxy_adapter(IF_TYPE_PROP_VIRTUAL, "", ""));
    assert!(is_tun_proxy_adapter(IF_TYPE_TUNNEL, "", ""));
    assert!(is_tun_proxy_adapter(6, "Mihomo", "Meta Tunnel"));
    assert!(is_tun_proxy_adapter(6, "VPN", "Wintun Userspace Tunnel"));
    assert!(!is_tun_proxy_adapter(6, "Ethernet", "Realtek PCIe GbE Family Controller"));
    assert!(!is_tun_proxy_adapter(6, "vEthernet (br0)", "Hyper-V Virtual Ethernet Adapter"));
}

fn ip(a: u8, b: u8, c: u8, d: u8) -> Ipv4 {
    Ipv4 { a, b, c, d }
}

#[test]
fn only_physical_interfaces_are_bound() {
    assert!(is_usable(ip(192, 168, 1, 2)));
    for bad in [ip(127, 0, 0, 1), ip(0, 0, 0, 0), ip(169, 254, 1, 1), ip(224, 0, 0, 1)] {
        assert!(!is_usable(bad), "{bad:?}");
    }
    let adapter = |up: bool, friendly: &str| NetworkAdapter {
        up,
        if_type: 6,
        friendly: friendly.to_owned(),
        description: String::new(),
        if_index: 3,
        addresses: vec![ip(127, 0, 0, 1), ip(10, 0, 0, 5)],
    };
    let found = non_tun_ipv4_interfaces(&vec![
        adapter(false, "down"),
        adapter(true, "Tailscale"),
        adapter(true, "Ethernet"),
    ]);
    assert_eq!(found.len(), 1);
    assert_eq!(bind_addresses(&found), Ok(vec!["10.0.0.5:0".to_owned()]));
    assert_eq!(interface_of(&found, ip(10, 0, 0, 5)), Some(3));
    assert_eq!(interface_of(&found, ip(10, 0, 0, 6)), None);
    assert_eq!(
        bind_addresses(&vec![]).unwrap_err(),
        "no active non-TUN IPv4 network interface is available"
    );
}

#[test]
fn the_adapter_list_is_asked_for_a_few_times() {
    assert_eq!(adapter_buffer(15), Ok((2, 16)));
    assert_eq!(adapter_buffer(usize::MAX).unwrap_err(), "network adapter list is too large");
    assert_eq!(adapter_buffer(0xffff_fff8), Ok((0x1fff_ffff, 0xffff_fff8)));
    assert!(adapter_buffer(0xffff_fff9).is_err());
    assert_eq!(after_attempt(1, ListOutcome::Filled), Ok(None));
    assert_eq!(after_attempt(1, ListOutcome::TooSmall(20_000)), Ok(Some(20_000)));
    assert_eq!(after_attempt(0, ListOutcome::TooSmall(20_000)), Ok(Some(20_000)));
    assert!(after_attempt(3, ListOutcome::TooSmall(20_000)).is_err());
    assert_eq!(
        after_attempt(1, ListOutcome::Refused("no".to_owned())).unwrap_err(),
        "could not enumerate Windows network adapters: no"
    );
}

#[test]
fn finds_an_sps_behind_either_start_code() {
    // Four-byte start code, H.264 SPS (type 7, nal_ref_idc 3 -> 0x67).
    assert!(has_parameter_sets(&vec![0, 0, 0, 1, 0x67, 0x42]));
    // Three-byte start code.
    assert!(has_parameter_sets(&vec![0, 0, 1, 0x67]));
    // HEVC SPS is type 33 -> 0x42 in the high bits.
    assert!(has_parameter_sets(&vec![0, 0, 0, 1, 0x42, 0x01]));
    // A slice on its own is not a parameter set.
    assert!(!has_parameter_sets(&vec![0, 0, 0, 1, 0x65, 0x88]));
    assert!(!has_parameter_sets(&vec![]));
    assert!(!has_parameter_sets(&vec![0, 0, 0, 1]));
}

fn args(text: &str) -> Vec<String> {
    text.split(' ').map(str::to_owned).collect()
}

fn display() -> DisplayInfo {
    DisplayInfo {
        adapter_index: 0,
        output_index: 1,
        hmonitor: 0xabc,
        device_name: "one".to_owned(),
        adapter_name: "Card".to_owned(),
        size: OutputSize { width: 1920, height: 1080 },
        is_primary: true,
    }
}

#[test]
fn the_self_test_reads_its_options() {
    let line = "app --capture-selftest --backend wgc --frames 10 --fps 60 --resolution 720 --hwnd 7";
    assert!(wants_selftest(&args(line)));
    let o = Options::parse(&args(line));
    assert_eq!(
        (o.backend, o.frames, o.fps, o.hwnd),
        (CaptureBackend::Gfxcapture, 10, 60, Some(7))
    );
    assert_eq!(o.settings().resolution, Resolution::Preset { lines: 720 });
    let plain = Options::parse(&args("app"));
    assert_eq!((plain.frames, plain.fps, plain.display), (60, 30, 0));
    assert_eq!(plain.source(&vec![display()]), Ok(display().source()));
    assert_eq!(plain.source(&vec![]).unwrap_err(), "no display at index 0");
    assert_eq!(
        describe_display(0, &display()),
        "  [0] one 1920x1080 adapter=0 output_idx=1 hmonitor=0xabc (primary)"
    );
}

#[test]
fn the_self_test_needs_a_working_encoder() {
    let none = EncoderReport::unsupported("none");
    assert_eq!(
        pick_encoder(&none, &EncoderChoice::Auto).unwrap_err(),
        "encoder probing reported no support"
    );
    let probe = ProbeResult {
        id: "h264_mf".to_owned(),
        available: true,
        detail: None,
        elapsed_ms: 2,
        input: None,
    };
    let some = EncoderReport::probed(Ok(vec![probe]), "gpu-1".to_owned(), 0);
    assert_eq!(pick_encoder(&some, &EncoderChoice::Auto).unwrap().id, "h264_mf");
}

#[test]
fn the_self_test_collects_packets() {
    let mut asked = false;
    assert_eq!(collect_step(10, 10, false, false, &mut asked), SelfTestStep::Complete);
    assert_eq!(collect_step(1, 10, true, false, &mut asked), SelfTestStep::Stopped);
    assert_eq!(collect_step(1, 10, false, true, &mut asked), SelfTestStep::TimedOut);
    let mut collected = Collected::default();
    assert_eq!(collected.verdict().unwrap_err(), "no packets were produced");
    collected.record(
        0,
        &EncodedFrame { bytes: vec![0, 0, 0, 1, 0x67, 1], pts_ms: 0, is_key: true },
    );
    assert_eq!((collected.packets, collected.key_frames_with_headers), (1, 1));
    assert!(!collected.headers_missing());
    assert!(collected.verdict().is_ok());
    collected.record(1, &EncodedFrame { bytes: vec![0, 0, 0, 1, 0x65], pts_ms: 5, is_key: true });
    assert!(collected.headers_missing());
}

#[test]
fn encoders_are_configured_for_low_latency() {
    let params = EncoderParams { width: 1280, height: 720, fps: 30, bitrate_bps: 4_000_000 };
    for id in ["h264_nvenc", "hevc_amf", "av1_qsv", "libopenh264", "h264_mf", "h264_d3d12va"] {
        let setup = configure(id, &params);
        assert_eq!((setup.max_b_frames, setup.slices), (0, 1), "{id}");
        assert!(setup.has_b_frames == 0 && setup.slice_threads && setup.low_delay, "{id}");
        assert!(setup.local_headers, "{id} repeats its parameter sets");
        assert_eq!(setup.color_range, ColorRange::Limited, "{id}");
        assert_eq!(setup.color_trc, ColorStandard::Smpte170m, "{id}");
        assert_eq!((setup.bit_rate, setup.width), (4_000_000, 1280), "{id}");
    }
    assert_eq!(gop_for("h264_nvenc"), GOP_INFINITE);
    assert_eq!(gop_for("h264_d3d12va"), GOP_D3D12VA);
    assert_eq!(profile_for("libopenh264"), Some(Profile::H264High));
    assert_eq!(profile_for("hevc_nvenc"), Some(Profile::HevcMain));
    assert_eq!(profile_for("h264_d3d12va"), None);
    assert_eq!(
        private_options("av1_nvenc"),
        vec![("delay", "0"), ("rc", "cbr"), ("forced-idr", "1")]
    );
    assert_eq!(private_options("libopenh264"), vec![]);
}

#[test]
fn graphs_report_what_went_wrong() {
    let format = SinkFormat { width: -1, height: 720, pix_fmt: 0 };
    assert_eq!(format.size(), OutputSize { width: 0, height: 720 });
    assert_eq!(classify_pull(PullCode::Success), Ok(Pulled::Frame));
    assert_eq!(classify_pull(PullCode::OutputChanged), Ok(Pulled::Ended));
    assert_eq!(classify_pull(PullCode::TryAgain), Ok(Pulled::Idle));
    assert_eq!(
        classify_pull(PullCode::Failed("x".to_owned())).unwrap_err(),
        "capture failed (x)"
    );
    assert_eq!(error_text(-22, ""), "error -22");
    assert_eq!(error_text(-22, "Invalid argument"), "Invalid argument");
    assert_eq!(build_error("bad", &vec!["a".to_owned(), "b".to_owned()]), "bad: a; b");
    assert_eq!(instance_name(2, "scale"), "f2_scale");
    assert_eq!(device_for(Some(DeviceSlot::D3d11), false), Ok(Some(DeviceSlot::D3d11)));
    assert!(device_for(Some(DeviceSlot::D3d12), false).is_err());
    assert_eq!(
        check_leftover("scale", &vec!["w".to_owned(), "h".to_owned()]).unwrap_err(),
        "scale rejected option(s): w, h"
    );
}

#[test]
fn filters_of_one_chain_have_names_of_their_own() {
    let steps = conversion_steps(EncoderInput::HardwareD3d12, None);
    let planned = plan_graph(&steps, true);
    let names: Vec<&str> = planned
        .iter()
        .filter_map(|op| match op {
            GraphOp::Create { instance, .. } => Some(instance.as_str()),
            _ => None,
        })
        .collect();
    assert_eq!(names, ["f0_hwdownload", "f1_format", "f2_format", "f3_hwupload"]);
    let attached = planned
        .iter()
        .position(|op| *op == GraphOp::Attach { device: DeviceSlot::D3d12 })
        .unwrap();
    assert_eq!(planned[attached + 1], GraphOp::Start { name: "hwupload" });
    assert_eq!(planned[attached + 2], GraphOp::Link { name: "hwupload" });
    assert_eq!(planned[planned.len() - 1], GraphOp::Configure);
}

/// Make a graph whose steps all succeed but the one that is singled out.
fn made(steps: &Vec<FilterStep>, has_d3d12: bool, fails: fn(&GraphOp) -> OpAnswer) -> String {
    let mut build = GraphBuild::new(steps, has_d3d12);
    loop {
        let answer = match build.next() {
            Some(op) => fails(op),
            None => return "made".to_owned(),
        };
        if let Err(e) = build.answered(&answer) {
            return e;
        }
    }
}

#[test]
fn a_graph_is_made_until_a_step_fails() {
    let steps = conversion_steps(EncoderInput::HardwareD3d12, None);
    assert_eq!(made(&steps, true, |_| OpAnswer::Done), "made");
    assert_eq!(made(&vec![], true, |_| OpAnswer::Done), "empty filter chain");
    assert_eq!(made(&steps, false, |_| OpAnswer::Done), "no D3D12 device for this chain");
    let missing = |op: &GraphOp| match op {
        GraphOp::Create { name: "hwupload", .. } => OpAnswer::Missing,
        _ => OpAnswer::Done,
    };
    assert_eq!(
        made(&steps, false, missing),
        "filter hwupload is not in this FFmpeg build",
        "a filter is looked for before its device"
    );
    let odd = vec![FilterStep::plain("a\0b", vec![])];
    assert_eq!(made(&odd, true, |_| OpAnswer::Done), "filter name contains NUL");
    let skipped = vec![FilterStep::plain("scale", vec![("w", "1\0".to_owned())])];
    assert!(!plan_graph(&skipped, true).iter().any(|op| matches!(op, GraphOp::SetOption { .. })));
}

#[test]
fn every_step_of_a_graph_has_its_error() {
    let refused = OpAnswer::Refused("x".to_owned());
    let text = |op: GraphOp, answer: &OpAnswer| op_outcome(&op, answer).unwrap_err();
    let create = || GraphOp::Create { name: "scale", instance: "f0_scale".to_owned() };
    assert_eq!(text(GraphOp::Graph, &OpAnswer::Memory), "could not allocate filter graph");
    assert_eq!(
        text(create(), &OpAnswer::Missing),
        "filter scale is not in this FFmpeg build"
    );
    assert_eq!(text(create(), &OpAnswer::Memory), "could not allocate filter scale");
    assert_eq!(
        text(GraphOp::Attach { device: DeviceSlot::D3d11 }, &OpAnswer::Memory),
        "could not reference hardware device"
    );
    assert_eq!(
        text(GraphOp::SetOption { key: "w", value: "2".to_owned() }, &refused),
        "could not set w=2 (x)"
    );
    assert_eq!(text(GraphOp::Start { name: "scale" }, &refused), "could not initialise scale (x)");
    assert_eq!(
        text(GraphOp::Start { name: "scale" }, &OpAnswer::Leftover(vec!["w".to_owned()])),
        "scale rejected option(s): w"
    );
    let taken = OpAnswer::Leftover(vec![]);
    assert_eq!(op_outcome(&GraphOp::Start { name: "scale" }, &taken), Ok(()));
    assert_eq!(text(GraphOp::Link { name: "scale" }, &refused), "could not link into scale (x)");
    assert_eq!(
        text(GraphOp::CreateSink, &OpAnswer::Missing),
        "buffersink is not in this FFmpeg build"
    );
    assert_eq!(text(GraphOp::CreateSink, &OpAnswer::Memory), "could not allocate buffersink");
    assert_eq!(text(GraphOp::StartSink, &refused), "could not initialise buffersink (x)");
    assert_eq!(text(GraphOp::LinkSink, &refused), "could not link into buffersink (x)");
    assert_eq!(text(GraphOp::Configure, &refused), "could not configure filter graph (x)");
    assert_eq!(device_argument(DeviceSlot::D3d11, 2), Some("2".to_owned()));
    assert_eq!(device_argument(DeviceSlot::D3d12, 2), None);
    assert_eq!(
        device_error("d3d11va", &Some("x".to_owned())),
        "could not create d3d11va device (x)"
    );
    assert_eq!(device_error("d3d12va", &None), "d3d12va device is null");
}

#[test]
fn every_step_of_a_probe_has_its_error() {
    let words = || "x".to_owned();
    let texts = [
        (ProbeStop::Name, "encoder name contains NUL"),
        (ProbeStop::Missing, "not compiled into this FFmpeg build"),
        (ProbeStop::Formats(words()), "could not query pixel formats (x)"),
        (ProbeStop::FormatCount, "FFmpeg returned a negative pixel-format count"),
        (ProbeStop::Context, "could not allocate codec context"),
        (ProbeStop::Open(words()), "could not open encoder (x)"),
        (ProbeStop::Frame, "could not allocate frame"),
        (ProbeStop::Picture(words()), "could not allocate frame buffer (x)"),
        (ProbeStop::Device(words()), "could not create hardware device (x)"),
        (ProbeStop::Pool, "could not allocate hardware frame context"),
        (ProbeStop::PoolSetup(words()), "could not init hardware frame context (x)"),
        (ProbeStop::PoolShare, "could not reference hardware frame context"),
        (ProbeStop::HardwareFrame, "could not allocate hardware frame"),
        (ProbeStop::HardwarePicture(words()), "could not get hardware frame (x)"),
        (ProbeStop::Upload(words()), "could not upload frame to hardware (x)"),
        (ProbeStop::Submit(words()), "encoder rejected the frame (x)"),
        (ProbeStop::Packet, "could not allocate packet"),
        (ProbeStop::Receive(words()), "encoder produced no packet (x)"),
    ];
    for (stop, text) in texts {
        assert_eq!(stop_reason(&stop), text);
    }
    let frames = attempt_frames(EncoderInput::HardwareD3d11);
    assert_eq!(frames.pix_fmt, PixelFormat::D3d11);
    assert_eq!(frames.uploaded_from, Some(PixelFormat::Bgra));
    let frames = attempt_frames(EncoderInput::SysMemYuv420p);
    assert_eq!((frames.pix_fmt, frames.uploaded_from), (PixelFormat::Yuv420p, None));
}

#[test]
fn logged_errors_are_kept_while_asked_for() {
    let mut log = LogCapture::new();
    log.record(LOG_ERROR, "before\n");
    log.begin_capture();
    for i in 0..(MAX_LINES + 5) {
        log.record(LOG_ERROR, &format!("line {i}\n"));
    }
    let lines = log.take_errors();
    assert_eq!(lines.len(), MAX_LINES);
    // The most recent lines are kept, oldest first.
    assert_eq!(lines[0], "line 5");
    assert_eq!(lines[MAX_LINES - 1], format!("line {}", MAX_LINES + 4));
    assert!(log.take_errors().is_empty());
}

#[test]
fn every_input_path_is_tried() {
    let formats = SupportedFormats {
        values: vec![PixelFormat::Nv12],
        names: vec!["nv12".to_owned()],
        all: false,
    };
    let order = probe_order(&formats);
    assert_eq!(
        order,
        [
            EncoderInput::SysMemNv12,
            EncoderInput::HardwareD3d11,
            EncoderInput::SysMemYuv420p,
            EncoderInput::HardwareD3d12,
        ],
        "what is advertised comes first, and system memory before a round trip"
    );
    let mut run = ProbeRun::new(SupportedFormats {
        values: vec![PixelFormat::Nv12],
        names: vec!["nv12".to_owned()],
        all: false,
    });
    for expected in &order {
        assert_eq!(run.next(), Some(*expected));
        run.failed("no");
    }
    assert_eq!(run.next(), None);
    assert!(run.failure().starts_with("SysMemNv12: no; HardwareD3d11: no; "), "{}", run.failure());
    assert_eq!(attempt_reason(EncoderInput::SysMemNv12, "no"), "SysMemNv12: no");
    assert_eq!(
        probe_failure(&vec![], &formats),
        "no supported input path (advertised: nv12)"
    );
    assert_eq!(probe_failure(&vec!["a".to_owned(), "b".to_owned()], &formats), "a; b");
    assert_eq!(detail("failed", &vec!["driver too old".to_owned()]), "driver too old: failed");
    assert_eq!(detail("failed", &vec![]), "failed");
    let result = probe_result("h264_mf", &Ok(EncoderInput::SysMemNv12), &vec![], 12);
    assert!(result.available);
    assert_eq!(result.input, Some(EncoderInput::SysMemNv12));
    assert_eq!((result.detail, result.elapsed_ms), (None, 12));
    assert!(require_key_frame(&vec![ProbePacket { key: true, size: 10 }]).is_ok());
    assert_eq!(
        require_key_frame(&vec![ProbePacket { key: false, size: 10 }]).unwrap_err(),
        "encoder produced no key frame"
    );
    assert_eq!(probe_params().width, 1280);
    assert_eq!(plane_rows(true).len(), 3);
}

#[test]
fn candidates_lose_their_media_name_on_the_way() {
    let candidate = Candidate {
        candidate: "candidate:1 1 udp 2130706431 192.0.2.1 5000 typ host".to_owned(),
        sdp_mid: Some(String::new()),
        sdp_mline_index: Some(0),
        username_fragment: None,
        url: None,
    };
    let text = outgoing_candidate(candidate).unwrap();
    let read = read_candidate(&text).unwrap();
    assert_eq!(read.sdp_mid, None);
    assert_eq!(read.sdp_mline_index, Some(0));
    assert!(read.candidate.ends_with("typ host"));
    let e = read_candidate("{").unwrap_err();
    assert!(e.starts_with("malformed ICE candidate: "), "{e}");
    assert!(read_candidate("\"text\"").is_err());
}

#[test]
fn answers_are_read_before_they_are_used() {
    let sdp = "v=0\r\no=- 1 2 IN IP4 127.0.0.1\r\ns=-\r\nt=0 0\r\n";
    assert_eq!(check_answer(sdp), Ok(()));
    let e = check_answer("nonsense").unwrap_err();
    assert!(e.starts_with("malformed answer: "), "{e}");
    assert_eq!(answer_outcome(Some("x".to_owned())), Err("malformed answer: x".to_owned()));
}

#[test]
fn an_encoder_is_opened_as_it_was_probed() {
    let format = SinkFormat { width: 1280, height: 720, pix_fmt: 173 };
    let opening = open("h264_nvenc", format, true, 4_000_000, 30, None).unwrap();
    assert_eq!(opening.setup, configure("h264_nvenc", &probe_params()));
    assert_eq!(opening.pix_fmt, 173);
    assert!(opening.shares_frames);
    assert_eq!(opening.options, private_options("h264_nvenc"));
    assert!(!open("h264_mf", format, false, 1, 30, None).unwrap().shares_frames);
    let failure = |f: OpenFailure| open("h264_mf", format, true, 1, 30, Some(f)).unwrap_err();
    assert_eq!(failure(OpenFailure::Packet), "could not allocate packet");
    assert_eq!(failure(OpenFailure::Missing), "h264_mf is not in this FFmpeg build");
    assert_eq!(open("a\0b", format, true, 1, 30, None).unwrap_err(), "encoder name contains NUL");
    assert_eq!(failure(OpenFailure::Memory), "could not allocate codec context");
    assert_eq!(failure(OpenFailure::Frames), "could not reference hardware frame context");
    assert_eq!(failure(OpenFailure::Refused("x".to_owned())), "could not open h264_mf (x)");
    assert_eq!(submitted("h264_mf", None), Ok(()));
    assert_eq!(
        submitted("h264_mf", Some("x".to_owned())).unwrap_err(),
        "h264_mf rejected the frame (x)"
    );
}

#[test]
fn an_encoder_is_emptied_after_each_frame() {
    let packet = |size: i32| ReceiveCode::Packet { size, pts: 7, key: true, data: Some(vec![1]) };
    let mut packets = Vec::new();
    assert_eq!(drain_step("e", packet(1), &mut packets), Ok(true));
    assert_eq!(drain_step("e", packet(0), &mut packets), Ok(true));
    assert_eq!(drain_step("e", ReceiveCode::TryAgain, &mut packets), Ok(false));
    assert_eq!(drain_step("e", ReceiveCode::EndOfFile, &mut packets), Ok(false));
    assert_eq!(
        drain_step("e", ReceiveCode::Failed("x".to_owned()), &mut packets).unwrap_err(),
        "e produced no packet (x)"
    );
    assert_eq!(packets.len(), 1);
    assert_eq!((packets[0].pts, packets[0].key), (7, true));
}
