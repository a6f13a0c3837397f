use mumble_tauri::media::audio::{
    audio_target, capture_error, read_plan, validate_source, window_handle, window_process,
    AudioTarget, BufferFacts, CaptureClock, Framer, FRAME_SAMPLES,
};
use mumble_tauri::media::capture::{CaptureSource, EncoderInput};
use mumble_tauri::media::display::{
    describe_output, enumerate, find, AdapterOutputs, DesktopRect, DisplayInfo, OutputFacts,
};
use mumble_tauri::media::frame::{
    frame_failure, pack_rows, preview_jpeg, preview_size, EncodedFrame, FrameFailure,
};
use mumble_tauri::media::mailbox::{
    after_encode, emit, frame_wait_nanos, on_pulled, store, AfterEncode, CaptureStep, EncodeState,
    EncodeStep, EncodedPacket, Next, Pulled, Slot,
};
use mumble_tauri::media::pipeline::{
    assemble, locate, needs_measuring, opened_encoding, resolve_source_size, PipelineConfig, Shared,
    StopReason,
};
use mumble_tauri::media::preview::{Lookup, PreviewSnapshot, PreviewState};
use mumble_tauri::media::settings::{
    CaptureBackend, OutputSize, Resolution, ResolvedEncoding, ScreenShareSettings,
};
use mumble_tauri::media::sources::{collect_window, list_sources, WindowFacts};

#[test]
fn capture_clock_counts_samples_and_preserves_time_across_silence() {
    let mut clock = CaptureClock::default();
    assert_eq!(clock.advance(480, Some(1_000_000)), 0);
    assert_eq!(clock.advance(480, Some(1_100_010)), 480);
    assert_eq!(clock.advance(480, Some(2_200_010)), 5760);
    assert_eq!(clock.advance(480, None), 6240);
    assert_eq!(clock.advance(480, Some(2_400_010)), 6720);
}

#[test]
fn capture_gaps_discard_partial_audio_without_compressing_time() {
    let mut framer: Framer<f32> = Framer::new();
    let mut packets = Vec::new();
    packets.extend(framer.push(&vec![0.0; 800], 0).unwrap());
    packets.extend(framer.push(&vec![0.0; FRAME_SAMPLES * 2], 48_000).unwrap());
    assert_eq!(packets.len(), 1);
    assert_eq!(packets[0].pts_samples, 48_000);
}

#[test]
fn packets_keep_their_boundaries_and_channels() {
    let samples: Vec<f32> = (0..FRAME_SAMPLES * 3).flat_map(|i| [i as f32, -(i as f32)]).collect();
    let mut framer: Framer<f32> = Framer::new();
    assert!(framer.push(&samples[..600].to_vec(), 0).unwrap().is_empty());
    let packets = framer.push(&samples[600..].to_vec(), 300).unwrap();
    assert_eq!(packets.iter().map(|p| p.pts_samples).collect::<Vec<_>>(), vec![0, 960, 1920]);
    let joined: Vec<f32> = packets.into_iter().flat_map(|p| p.samples).collect();
    assert_eq!(joined, samples);
    assert_eq!(
        framer.push(&vec![0.0], 2880).unwrap_err(),
        "screen-share audio is not interleaved stereo"
    );
}

#[test]
fn missing_window_audio_never_falls_back_to_the_device() {
    let window = CaptureSource::Window { hwnd: 0 };
    assert!(audio_target(window, window_process(0, 0)).is_err());
    let monitor = CaptureSource::Monitor { output_index: 0, hmonitor: 1 };
    assert_eq!(audio_target(monitor, Err("unused".to_owned())), Ok(AudioTarget::Device));
    let target = audio_target(CaptureSource::Window { hwnd: 5 }, Ok(77)).unwrap();
    assert_eq!(target, AudioTarget::Process { hwnd: 5, pid: 77 });
    assert!(validate_source(target, Ok(77)).is_ok());
    assert!(validate_source(target, Ok(78)).is_err(), "the handle was given to another process");
    assert!(validate_source(target, Err("gone".to_owned())).is_err());
    assert!(window_handle(5).is_ok());
}

#[test]
fn device_buffers_are_read_as_their_flags_say() {
    let facts =
        BufferFacts { frames: 480, silent: false, timestamp_error: false, has_data: true, qpc: 9 };
    let plan = read_plan(facts).unwrap();
    assert_eq!((plan.count, plan.copy, plan.timestamp), (960, true, Some(9)));
    let quiet = read_plan(BufferFacts { silent: true, ..facts }).unwrap();
    assert!(!quiet.copy);
    let lost = read_plan(BufferFacts { timestamp_error: true, ..facts }).unwrap();
    assert_eq!(lost.timestamp, None);
    assert!(read_plan(BufferFacts { has_data: false, ..facts }).is_err());
    assert_eq!(capture_error(Some("x".to_owned()), true).as_deref(), Some("x"));
    assert_eq!(capture_error(None, false), None);
    assert!(capture_error(None, true).is_some());
}

#[test]
fn frame_wait_leaves_room_for_a_self_paced_source() {
    // At 30 fps a frame arrives every ~33 ms; the encode thread must wait
    // longer than that before deciding to repeat, or it would repeat on
    // every single tick of a perfectly healthy ddagrab source.
    let interval = std::time::Duration::from_nanos(frame_wait_nanos(30));
    assert!(interval > std::time::Duration::from_millis(33), "{interval:?}");
    assert!(interval < std::time::Duration::from_millis(100), "{interval:?} is too slack");
    assert_eq!(interval, std::time::Duration::from_millis(50));
}

#[test]
fn first_stop_reason_wins() {
    // Every shutdown path ends in `finish(Requested)`, so a real failure
    // would be relabelled as a user request if the first reason did not
    // stick - and the UI would report a crash as a normal stop.
    let mut shared = Shared::default();
    shared.finish(StopReason::Failed { message: "encoder died".to_owned() });
    shared.finish(StopReason::Requested);
    assert_eq!(
        shared.stop_reason(),
        Some(StopReason::Failed { message: "encoder died".to_owned() })
    );
    assert_eq!(shared.shutdown(), StopReason::Failed { message: "encoder died".to_owned() });
}

#[test]
fn key_frame_request_is_consumed_once() {
    // A request that repeated would make every subsequent frame an IDR.
    let mut shared = Shared::default();
    shared.request_key_frame();
    assert!(shared.take_key_frame_request());
    assert!(!shared.take_key_frame_request());
}

#[test]
fn statistics_add_up() {
    let mut shared = Shared::default();
    assert!(!shared.should_stop());
    shared.stats.note_captured(false);
    shared.stats.note_captured(true);
    shared.stats.note_encoded(false, 100);
    shared.stats.note_encoded(true, 300);
    shared.stats.note_packet(10, true);
    let s = shared.stats.snapshot();
    assert_eq!((s.captured, s.dropped, s.encoded, s.repeated), (2, 1, 2, 1));
    assert_eq!((s.packets, s.bytes, s.key_frames, s.mean_encode_micros), (1, 10, 1, 200));
    shared.request_stop();
    assert!(shared.should_stop());
}

#[test]
fn the_latest_frame_is_encoded() {
    let mut slot: Slot<u32> = Slot::new();
    assert!(!slot.put(1));
    assert!(slot.put(2), "a frame that nobody took is displaced");
    assert!(matches!(slot.poll(false), Some(Next::Fresh(2))));
    assert!(slot.poll(false).is_none(), "nothing yet");
    assert!(matches!(slot.poll(true), Some(Next::Repeat)));
    slot.put(3);
    slot.close();
    assert!(matches!(slot.poll(false), Some(Next::Fresh(3))), "the last frame still counts");
    assert!(matches!(slot.poll(false), Some(Next::Done)));
}

#[test]
fn capture_ends_when_the_source_does() {
    let mut shared = Shared::default();
    assert_eq!(on_pulled(&mut shared, Ok(Pulled::Frame)), CaptureStep::Store);
    assert_eq!(on_pulled(&mut shared, Ok(Pulled::Idle)), CaptureStep::Again);
    assert_eq!(on_pulled(&mut shared, Ok(Pulled::Ended)), CaptureStep::Stop);
    assert_eq!(shared.stop_reason(), Some(StopReason::SourceEnded));
    let mut failing = Shared::default();
    assert_eq!(on_pulled(&mut failing, Err("lost".to_owned())), CaptureStep::Stop);
    assert_eq!(failing.stop_reason(), Some(StopReason::Failed { message: "lost".to_owned() }));
    let mut slot: Slot<u32> = Slot::new();
    let mut ok = Shared::default();
    assert!(store(&mut slot, &mut ok, Ok(4)));
    assert!(!store(&mut slot, &mut ok, Err("full".to_owned())));
}

#[test]
fn encoding_repeats_the_last_frame_and_time_advances() {
    let mut state: EncodeState<u32> = EncodeState::new();
    assert_eq!(state.accept(Next::Repeat), EncodeStep::Skip);
    assert_eq!(state.accept(Next::Fresh(1)), EncodeStep::Encode { repeated: false });
    assert_eq!(state.accept(Next::Repeat), EncodeStep::Encode { repeated: true });
    assert_eq!(state.accept(Next::Done), EncodeStep::Stop);
    let first = state.next_pts(10);
    let second = state.next_pts(10);
    assert!(second > first);
    let mut shared = Shared::default();
    let frames = emit(
        &mut shared,
        false,
        7,
        vec![EncodedPacket { bytes: vec![1, 2], pts: 5, key: true }],
    );
    assert_eq!(frames, vec![EncodedFrame { bytes: vec![1, 2], pts_ms: 5, is_key: true }]);
    assert_eq!(after_encode(&mut shared, Ok(()), true), AfterEncode::Republish);
    assert_eq!(after_encode(&mut shared, Ok(()), false), AfterEncode::Publish);
    assert_eq!(after_encode(&mut shared, Err("bad".to_owned()), false), AfterEncode::Stop);
}

#[test]
fn a_preview_is_encoded_once_per_frame() {
    let mut state: PreviewState<u32> = PreviewState::new();
    assert!(matches!(state.lookup(640), Lookup::Nothing));
    state.publish_frame(1);
    let sequence = match state.lookup(640) {
        Lookup::Encode { sequence } => sequence,
        other => panic!("{other:?}"),
    };
    state.remember(PreviewSnapshot { sequence, width: 640, height: 360, bytes: vec![9] });
    assert!(matches!(state.lookup(640), Lookup::Cached(_)));
    state.publish_frame(2);
    assert!(matches!(state.lookup(640), Lookup::Encode { .. }));
}

#[test]
fn a_frame_that_cannot_be_used_says_why() {
    let words = || "x".to_owned();
    let texts = [
        (FrameFailure::Memory, "could not allocate frame"),
        (FrameFailure::Share(words()), "could not reference frame (x)"),
        (FrameFailure::Transfer(words()), "could not transfer preview frame (x)"),
        (FrameFailure::Image(words()), "could not allocate preview image (x)"),
        (FrameFailure::Scaler, "could not create preview scaler"),
        (FrameFailure::Scale, "could not scale preview frame"),
    ];
    for (failure, text) in texts {
        assert_eq!(frame_failure(&failure), text);
    }
}

#[test]
fn previews_are_small_jpeg_files() {
    assert_eq!(preview_size(1920, 1080, 640), Ok((640, 360)));
    assert!(preview_size(0, 10, 640).is_err());
    let padded: Vec<u8> = vec![1, 2, 3, 0, 4, 5, 6, 0];
    assert_eq!(pack_rows(&padded, 4, 3, 2), vec![1, 2, 3, 4, 5, 6]);
    let jpeg = preview_jpeg(&vec![200u8; 2 * 2 * 3], 6, 2, 2);
    assert_eq!(&jpeg[..2], &[0xff, 0xd8], "the start marker");
    assert_eq!(&jpeg[jpeg.len() - 2..], &[0xff, 0xd9], "the end marker");
}

fn utf16(text: &str) -> Vec<u16> {
    text.encode_utf16().collect()
}

fn outputs() -> Vec<AdapterOutputs> {
    vec![AdapterOutputs {
        description: Some(utf16("Card\0")),
        outputs: vec![
            Some(OutputFacts {
                rect: DesktopRect { left: 0, top: 0, right: 1920, bottom: 1080 },
                monitor: 65,
                device_name: utf16("one\0"),
            }),
            None,
            Some(OutputFacts {
                rect: DesktopRect { left: 1920, top: 0, right: 4480, bottom: 1440 },
                monitor: 66,
                device_name: utf16("two\0"),
            }),
        ],
    }]
}

#[test]
fn a_display_is_found_by_its_source() {
    let displays = enumerate(&outputs()).unwrap();
    assert_eq!(displays.len(), 2);
    assert!(displays[0].is_primary && !displays[1].is_primary);
    for d in &displays {
        assert_eq!(&find(d.source(), &displays).unwrap(), d);
    }
    assert!(find(CaptureSource::Window { hwnd: 1 }, &displays).is_err());
    assert!(enumerate(&vec![]).is_err());
    let mut undescribed = outputs();
    undescribed[0].description = None;
    assert!(enumerate(&undescribed).is_err(), "an adapter that cannot be described is skipped");
    let around = OutputFacts {
        rect: DesktopRect { left: -100, top: -100, right: 1, bottom: 1 },
        monitor: 1,
        device_name: vec![],
    };
    assert!(describe_output(&around, 0, 0, "Card").unwrap().is_primary);
    let flat = OutputFacts {
        rect: DesktopRect { left: 5, top: 5, right: 5, bottom: 9 },
        monitor: 1,
        device_name: vec![],
    };
    assert_eq!(describe_output(&flat, 0, 0, "Card"), None);
    let (adapter, size) = locate(displays[1].source(), &displays).unwrap();
    assert_eq!((adapter, size), (0, OutputSize { width: 2560, height: 1440 }));
}

#[test]
fn only_shown_windows_are_offered() {
    let rect = DesktopRect { left: 0, top: 0, right: 800, bottom: 600 };
    let window = |title: &str| WindowFacts {
        handle: 9,
        visible: true,
        minimized: false,
        cloaked: 0,
        title: utf16(title),
        title_length: title.len() as i32,
        frame: Some(rect),
        rect: Some(rect),
    };
    let info = collect_window(&window("Editor")).unwrap();
    assert_eq!(info.name, "Editor");
    assert_eq!(info.source, CaptureSource::Window { hwnd: 9 });
    assert!(collect_window(&WindowFacts { visible: false, ..window("Editor") }).is_none());
    assert!(collect_window(&WindowFacts { minimized: true, ..window("Editor") }).is_none());
    assert!(collect_window(&WindowFacts { cloaked: 1, ..window("Editor") }).is_none());
    let displays: Vec<DisplayInfo> = enumerate(&outputs()).unwrap();
    let all = list_sources(&displays, &vec![window("Editor")]);
    assert_eq!(all.len(), 3);
}

fn config(source: CaptureSource, capture: CaptureBackend) -> PipelineConfig {
    PipelineConfig {
        source,
        settings: ScreenShareSettings { capture, ..Default::default() },
        encoder_id: "h264_nvenc".to_owned(),
        encoder_input: EncoderInput::HardwareD3d11,
        draw_cursor: true,
    }
}

#[test]
fn a_pipeline_is_assembled_for_what_the_source_delivers() {
    let monitor = CaptureSource::Monitor { output_index: 0, hmonitor: 1 };
    let window = CaptureSource::Window { hwnd: 2 };
    let hd = OutputSize { width: 1920, height: 1080 };
    let odd = OutputSize { width: 801, height: 601 };
    assert!(!needs_measuring(&config(monitor, CaptureBackend::Ddagrab)));
    // At native resolution nothing is scaled, so nothing has to be measured.
    assert!(!needs_measuring(&config(window, CaptureBackend::Gfxcapture)));
    let mut scaled = config(window, CaptureBackend::Gfxcapture);
    scaled.settings.resolution = Resolution::Preset { lines: 720 };
    assert!(needs_measuring(&scaled));
    assert_eq!(resolve_source_size(&scaled, hd, Some(odd)), odd);
    assert_eq!(resolve_source_size(&scaled, hd, None), hd);
    let assembly = assemble(&config(monitor, CaptureBackend::Ddagrab), hd).unwrap();
    assert_eq!(assembly.requested.size, hd);
    assert_eq!(assembly.steps.len(), 1);
    assert!(!assembly.needs_d3d12);
    assert!(assemble(&config(window, CaptureBackend::Ddagrab), hd).is_err());
    let requested = ResolvedEncoding { size: hd, fps: 30, bitrate_kbps: 4000 };
    let (opened, bps) = opened_encoding(requested, odd);
    assert_eq!((opened.size, opened.fps, bps), (odd, 30, 4_000_000));
}
