use mumble_tauri::commands::screen_share::{
    native_screen_share_preview, plan_transport, preview_action, resolve_screen_share_encoding,
    MAX_PREVIEW_SIGNAL,
};
use mumble_tauri::media::broadcast::peer::PreviewAction;
use mumble_tauri::media::capture::EncoderInput;
use mumble_tauri::media::encoder::{EncoderReport, ProbeResult};
use mumble_tauri::media::settings::{EncoderChoice, OutputSize, ScreenShareSettings};
use mumble_tauri::media::transport::SfuReason;
use mumble_tauri::startup::{
    configure_runtime_env, e2e_data_dir, handle_media_cli_flags, has_audio_settings, log_settings,
    read_prefs, Helper, SavedPrefs, WindowAction, WindowEvent, Windows,
};
use mumble_tauri::state::app::AppState;

fn args(list: &[&str]) -> Vec<String> {
    list.iter().map(|a| (*a).to_owned()).collect()
}

#[test]
fn helpers_are_recognised_before_anything_else() {
    let probe = args(&["app", "--probe-video-encoders"]);
    let test = args(&["app", "--capture-selftest"]);
    assert_eq!(handle_media_cli_flags(&probe, false), Some(Helper::Probe));
    assert_eq!(handle_media_cli_flags(&test, true), Some(Helper::SelfTest));
    assert_eq!(handle_media_cli_flags(&test, false), None);
    assert_eq!(handle_media_cli_flags(&args(&["app", "fancy://x"]), true), None);
}

#[test]
fn only_unset_variables_are_set() {
    let both = configure_runtime_env(false, false, true);
    let names: Vec<(&str, &str)> = both.iter().map(|v| (v.key, v.value)).collect();
    assert_eq!(names, vec![("TOKIO_WORKER_THREADS", "4"), ("MIMALLOC_PURGE_DELAY", "100")]);
    assert_eq!(configure_runtime_env(true, false, false).len(), 0);
    assert_eq!(configure_runtime_env(false, true, true).len(), 1);
}

#[test]
fn a_blank_override_is_ignored() {
    let system = || Ok("system".to_owned());
    assert_eq!(e2e_data_dir(Some("  ".to_owned()), system()), system());
    assert_eq!(e2e_data_dir(Some(" a ".to_owned()), system()), Ok(" a ".to_owned()));
    assert_eq!(e2e_data_dir(None, Err("no".to_owned())), Err("no".to_owned()));
}

fn doc(text: &str) -> Vec<u8> {
    text.as_bytes().to_vec()
}

#[test]
fn saved_preferences_are_taken_over() {
    let mut state = AppState::new();
    let logs = state
        .hydrate_persisted_prefs(&doc(
            r#"{"audioSettings":{},"preferences":{"enableNotifications":true,"streamerMode":true,
                "enableDualPath":false,"logLevel":"trace","debugLogging":false,
                "terminalLogging":false,"logToFile":true}}"#,
        ))
        .unwrap();
    let prefs = state.snapshot().prefs;
    assert!(!prefs.notifications_enabled, "nobody is notified in streamer mode");
    assert!(prefs.disable_dual_path && prefs.app_focused);
    assert_eq!(logs.level.as_deref(), Some("trace"));
    assert_eq!((logs.terminal, logs.auto_zip, logs.to_file), (Some(false), None, true));
}

#[test]
fn older_documents_keep_preferences_at_the_top() {
    let old = doc(r#"{"enableNotifications":false,"debugLogging":true,"logLevel":5}"#);
    let saved = read_prefs(&old).unwrap();
    assert_eq!(saved.enable_notifications, Some(false));
    assert_eq!(log_settings(&saved).level.as_deref(), Some("debug"));
    assert!(!has_audio_settings(&old));
    assert!(has_audio_settings(&doc(r#"{"audioSettings":null}"#)));
    assert!(read_prefs(&doc("{")).is_none());
    let mut state = AppState::new();
    assert!(state.hydrate_persisted_prefs(&doc("not json")).is_none());
    let none: SavedPrefs = read_prefs(&doc("[]")).unwrap();
    state.apply_saved_prefs(&none);
    assert!(state.snapshot().prefs.notifications_enabled, "what was not saved stays");
}

#[test]
fn windows_are_looked_after() {
    let mut windows = Windows::new("main".to_owned(), "updater".to_owned(), true);
    let minimized = WindowEvent::Resized { minimized: true };
    assert_eq!(
        windows.on_event("main", minimized),
        vec![WindowAction::SetMemoryTarget { low: true }]
    );
    assert_eq!(windows.on_event("main", minimized), vec![], "asked already");
    assert_eq!(windows.on_event("other", WindowEvent::Resized { minimized: false }), vec![]);
    assert_eq!(
        windows.on_event("main", WindowEvent::Focused(true)),
        vec![WindowAction::SetFocused(true), WindowAction::SetMemoryTarget { low: false }]
    );
    assert_eq!(
        windows.on_event("updater", WindowEvent::Destroyed),
        vec![WindowAction::ShowMainWindow]
    );
    windows.open_stream("popout-stream-1".to_owned(), 5);
    windows.open_stream("popout-stream-1".to_owned(), 6);
    assert_eq!(
        windows.on_event("popout-stream-1", WindowEvent::Destroyed),
        vec![WindowAction::StreamClosed { session: 6 }]
    );
    assert_eq!(windows.on_event("popout-stream-1", WindowEvent::Destroyed), vec![]);
    assert_eq!(
        windows.on_event("popout-translation", WindowEvent::Destroyed),
        vec![WindowAction::StopTranslationPicker]
    );
    let mut state = AppState::new();
    state.set_focused(false);
    assert!(!state.snapshot().prefs.app_focused);
}

#[test]
fn preview_requests_are_checked() {
    let id = "67e55044-10b1-426f-9247-bb680e5fe0c8";
    let text = || Some("sdp".to_owned());
    assert_eq!(preview_action(id, "start", None), Ok(PreviewAction::Start));
    assert_eq!(preview_action(id, "answer", text()), Ok(PreviewAction::Answer("sdp".to_owned())));
    assert_eq!(preview_action(id, "ice", text()), Ok(PreviewAction::Ice("sdp".to_owned())));
    assert_eq!(preview_action(id, "stop", None), Ok(PreviewAction::Stop));
    assert_eq!(preview_action("x", "start", None).unwrap_err(), "Invalid preview id");
    assert_eq!(preview_action(id, "go", None).unwrap_err(), "Invalid preview action");
    let limit = "a".repeat(MAX_PREVIEW_SIGNAL);
    assert!(preview_action(id, "ice", Some(limit.clone())).is_ok());
    assert_eq!(
        preview_action(id, "ice", Some(limit + "a")).unwrap_err(),
        "Preview signal too large"
    );
    let state = AppState::new();
    let ask = |server: &str, preview: &str, action: &str| {
        native_screen_share_preview(&state, server, "b", preview.to_owned(), action, None)
            .unwrap_err()
    };
    assert_eq!(ask(id, "x", "go"), "Invalid preview id");
    assert_eq!(ask(id, id, "go"), "Invalid preview action");
    assert_eq!(ask(id, id, "start"), format!("unknown server id: {id}"));
}

#[test]
fn a_plan_is_honest_before_anything_starts() {
    let mut state = AppState::new();
    let settings = ScreenShareSettings::default();
    let plan = plan_transport(&settings, &state);
    assert_eq!(plan.direct_slots, 0);
    assert_eq!(plan.sfu_only_reason, Some(SfuReason::ServerUnsupported));
    state.current_mut().server.config.webrtc_p2p_relay_available = true;
    let plan = plan_transport(&settings, &state);
    assert_eq!((plan.direct_slots, plan.sfu_only_reason), (2, None));

    let unsupported = EncoderReport::unsupported("no");
    let e = resolve_screen_share_encoding(&state, &settings, 3840, 2160, &unsupported).unwrap_err();
    assert_eq!(e, "native screen-share encoding is not available in this build");
    let probe =
        ProbeResult {
            id: "h264_mf".to_owned(),
            available: true,
            detail: None,
            elapsed_ms: 1,
            input: Some(EncoderInput::SysMemYuv420p),
        };
    let report = EncoderReport::probed(Ok(vec![probe]), "gpu-1".to_owned(), 0);
    let wanted =
        ScreenShareSettings { encoder: EncoderChoice::Id("h264_qsv".to_owned()), ..settings };
    let resolved = resolve_screen_share_encoding(&state, &wanted, 3840, 2160, &report).unwrap();
    assert_eq!(resolved.encoding.size, OutputSize { width: 3840, height: 2160 });
    assert!(resolved.encoder.fell_back && resolved.encoder.id == "h264_mf");
    assert_eq!(resolved.encoder.input, EncoderInput::SysMemYuv420p);
    assert_eq!(resolved.transport.direct_slots, 2);
    let bad = ScreenShareSettings { fps: 0, ..wanted };
    assert!(resolve_screen_share_encoding(&state, &bad, 10, 10, &report).is_err());
}
