use mumble_tauri::ids::{is_uuid, ServerId};
use mumble_tauri::media::broadcast::owner::Event;
use mumble_tauri::media::broadcast::peer::{PreviewAction, PreviewEvent};
use mumble_tauri::media::broadcast::status::{SignalType, Status};
use mumble_tauri::media::settings::{P2pMode, ScreenShareSettings};
use mumble_tauri::state::app::AppState;
use mumble_tauri::state::channels::Command;
use mumble_tauri::state::connection::ConnectFailure;
use mumble_tauri::state::screen_share::{
    context, deliver, members, route, Delivery, WebRtcSignal,
};
use mumble_tauri::state::session::{identity_label, AppPreferences, SharedState};
use mumble_tauri::state::types::{
    blob_marker, default_true, parse_pchat_protocol_str, push_capped, text_size, AudioSettings,
    ChannelEntry, ChatMessage, ConnectionStatus, MovedLevels, PchatProtocol, PluginDataPayload,
    ServerConfig, ServerLogEntry, UserEntry, VoiceState, MAX_MESSAGES_PER_THREAD,
};

fn dummy_message(idx: usize) -> ChatMessage {
    ChatMessage {
        sender_session: Some(1),
        sender_name: "user".into(),
        sender_hash: None,
        body: format!("msg {idx}"),
        channel_id: 0,
        is_own: false,
        dm_session: None,
        message_id: Some(format!("id-{idx}")),
        timestamp: Some(idx as u64),
        is_legacy: false,
        edited_at: None,
        pinned: false,
        pinned_by: None,
        pinned_at: None,
        plugin_name: None,
        plugin_components: None,
    }
}

#[test]
fn push_capped_drops_oldest_when_full() {
    let mut buf: Vec<ChatMessage> = Vec::new();
    for i in 0..(MAX_MESSAGES_PER_THREAD + 5) {
        push_capped(&mut buf, dummy_message(i));
    }
    assert_eq!(buf.len(), MAX_MESSAGES_PER_THREAD);
    // Oldest 5 should have been drained; first remaining message is index 5.
    assert_eq!(buf.first().and_then(|m| m.timestamp), Some(5));
    assert_eq!(
        buf.last().and_then(|m| m.timestamp),
        Some((MAX_MESSAGES_PER_THREAD + 4) as u64),
    );
}

#[test]
fn push_capped_below_limit_keeps_all() {
    let mut buf: Vec<ChatMessage> = Vec::new();
    for i in 0..10 {
        push_capped(&mut buf, dummy_message(i));
    }
    assert_eq!(buf.len(), 10);
    assert_eq!(buf.first().and_then(|m| m.timestamp), Some(0));
}

fn register_idle_session(state: &mut AppState) -> ServerId {
    let id = ServerId::new();
    let fresh = state.fresh_session_state();
    state.registry.register_active(id, fresh);
    id
}

#[test]
fn switch_active_with_voice_unknown_target_errors() {
    let mut state = AppState::new();
    let _ = register_idle_session(&mut state);
    let bogus = ServerId::new();
    let e = state.switch_active_with_voice(bogus).unwrap_err();
    assert_eq!(e, format!("unknown server id: {}", bogus.text()));
}

#[test]
fn switch_active_with_voice_same_session_is_noop() {
    let mut state = AppState::new();
    let id = register_idle_session(&mut state);
    // Point `inner` at the registered session (registration alone
    // only updates the registry).
    state.switch_active_to(id).expect("ok");
    let prev = state.inner;
    assert_eq!(state.switch_active_with_voice(id), Ok(None));
    assert_eq!(state.inner, prev);
}

#[test]
fn switch_active_with_voice_inactive_just_swaps() {
    let mut state = AppState::new();
    let a = register_idle_session(&mut state);
    let b = register_idle_session(&mut state);
    // Most recently registered wins active in the registry.
    assert_eq!(state.registry.active_id(), Some(b));
    state.switch_active_to(b).expect("ok");
    assert_eq!(state.switch_active_with_voice(a), Ok(Some(VoiceState::Inactive)));
    assert_eq!(state.registry.active_id(), Some(a));
    assert!(state.registry.session(a).is_some());
    assert_eq!(state.inner, Some(a));
}

#[test]
fn the_call_follows_the_user_to_another_server() {
    let mut state = AppState::new();
    let a = register_idle_session(&mut state);
    let b = register_idle_session(&mut state);
    state.switch_active_to(b).unwrap();
    state.current_mut().audio.voice_state = VoiceState::Muted;
    assert_eq!(state.switch_active_with_voice(a), Ok(Some(VoiceState::Muted)));
    assert_eq!(state.registry.session(b).unwrap().audio.voice_state, VoiceState::Inactive);
}

#[test]
fn disconnect_session_non_active_leaves_active_inner_intact() {
    let mut state = AppState::new();
    let active = register_idle_session(&mut state);
    let victim = register_idle_session(&mut state);
    state.switch_active_to(active).expect("ok");
    assert_eq!(state.inner, Some(active));

    let end = state.disconnect_session(victim).expect("ok");
    assert!(!end.teardown.stop_audio);

    // Victim removed from registry.
    assert!(state.registry.session(victim).is_none());
    // Active still active and `inner` still points at it.
    assert_eq!(state.registry.active_id(), Some(active));
    assert_eq!(state.inner, Some(active));
}

#[test]
fn disconnect_session_active_rebinds_inner_to_remaining() {
    let mut state = AppState::new();
    let other = register_idle_session(&mut state);
    let active = register_idle_session(&mut state);
    state.switch_active_to(active).expect("ok");

    let end = state.disconnect_session(active).expect("ok");
    assert!(end.teardown.stop_audio);

    // Active gone, the remaining session takes over.
    assert!(state.registry.session(active).is_none());
    assert_eq!(state.registry.active_id(), Some(other));
    assert!(state.registry.session(other).is_some());
    assert_eq!(state.inner, Some(other));
}

#[test]
fn disconnect_session_last_resets_to_default() {
    let mut state = AppState::new();
    let only = register_idle_session(&mut state);
    state.switch_active_to(only).expect("ok");

    state.disconnect_session(only).expect("ok");

    assert!(state.registry.active_id().is_none());
    // `inner` must point at the empty default state.
    assert_eq!(state.inner, None);
    assert!(state.disconnect().unwrap().is_none(), "nothing is left to end");
}

#[test]
fn disconnect_session_unknown_id_errors() {
    let mut state = AppState::new();
    let _active = register_idle_session(&mut state);
    let bogus = ServerId::new();
    assert!(state.disconnect_session(bogus).is_err());
}

fn connected(state: &mut AppState, host: &str) -> ServerId {
    state.set_app_handle();
    let started = state
        .connect(host.to_owned(), 64738, "me".to_owned(), Some("cert".to_owned()))
        .unwrap();
    started.server_id
}

#[test]
fn a_retry_reuses_the_connection_that_failed() {
    let mut state = AppState::new();
    let refused = state.connect("h".to_owned(), 1, "me".to_owned(), None).unwrap_err();
    assert_eq!(refused, "App not initialized");
    let first = connected(&mut state, "host");
    state.note_connecting();
    assert_eq!(state.snapshot().conn.status, ConnectionStatus::Connecting);
    assert_eq!(state.snapshot().conn.epoch, 1);
    let told = state.connection_failed(first, ConnectFailure::Transport, "refused");
    assert_eq!(told.server_id, Some(first.text()));
    assert_eq!(told.reason.as_deref(), Some("Connection failed: refused"));
    let again = connected(&mut state, "host");
    assert_eq!(again, first);
    assert_eq!(state.registry.sessions.len(), 1);
    assert_eq!(state.snapshot().conn.epoch, 2);
    let other = connected(&mut state, "elsewhere");
    assert_ne!(other, first);
    assert_eq!(state.registry.sessions.len(), 2);
}

#[test]
fn a_failed_attempt_hands_over_to_a_live_connection() {
    let mut state = AppState::new();
    let first = connected(&mut state, "one");
    assert!(state.transport_up(first));
    assert!(state.snapshot().conn.client);
    let second = connected(&mut state, "two");
    assert_eq!(state.inner, Some(second));
    let told = state.connection_failed(second, ConnectFailure::Authentication, "broken pipe");
    assert_eq!(told.reason.as_deref(), Some("Failed to authenticate: broken pipe"));
    assert_eq!(state.inner, Some(first));
    assert!(state.registry.session(second).is_some(), "its place is kept");
    let gone = ServerId(5);
    let told = state.connection_failed(gone, ConnectFailure::Transport, "late");
    assert_eq!(told.server_id, Some(gone.text()));
    assert_eq!(told.reason.as_deref(), Some("Connection failed: late"));
    assert_eq!((state.inner, state.registry.sessions.len()), (Some(first), 2));
}

#[test]
fn nothing_of_an_ended_connection_remains() {
    let mut state = AppState::new();
    let id = connected(&mut state, "host");
    state.transport_up(id);
    {
        let s = state.current_mut();
        s.users.insert(4, UserEntry::new(4));
        s.registered_user_textures.insert(9, vec![1, 2, 3]);
        s.current_channel = Some(1);
        s.pchat_ctx.loaded = true;
        s.set_identity(vec![1; 32], "dir".to_owned());
    }
    let end = state.disconnect().unwrap().unwrap();
    assert!(end.teardown.ends.client && end.teardown.ends.event_loop);
    assert!(end.ended.save_chat);
    let left = end.ended.state;
    assert!(left.users.is_empty() && left.current_channel.is_none());
    assert!(left.registered_user_textures.is_empty());
    assert!(left.pchat_ctx.seed.is_none() && left.server_id.is_none());
    assert!(left.conn.user_initiated_disconnect);
    assert_eq!(identity_label(&None), "default");
    assert_eq!(identity_label(&Some("work".to_owned())), "work");
}

#[test]
fn uploads_are_cancelled_once() {
    let mut state = AppState::new();
    state.begin_upload("a".to_owned());
    state.begin_upload("b".to_owned());
    state.begin_upload("a".to_owned());
    assert_eq!(state.uploads.len(), 2);
    assert!(state.cancel_upload("a"));
    assert!(!state.cancel_upload("a"));
    assert!(state.cancel_upload("b"));
}

fn channel(id: u32, permissions: Option<u32>) -> ChannelEntry {
    ChannelEntry {
        id,
        parent_id: None,
        name: "c".to_owned(),
        description: String::new(),
        description_hash: None,
        user_count: 9,
        permissions,
        temporary: false,
        position: 0,
        max_users: 0,
        pchat_protocol: None,
        pchat_max_history: None,
        pchat_retention_days: None,
        pchat_key_custodians: vec![],
        is_enter_restricted: false,
    }
}

#[test]
fn listening_is_toggled_where_it_is_permitted() {
    let mut state = AppState::new();
    let id = connected(&mut state, "host");
    state.transport_up(id);
    state.current_mut().channels.insert(1, channel(1, Some(0x7ff)));
    state.current_mut().channels.insert(2, channel(2, Some(0x800)));
    assert_eq!(
        state.toggle_listen(1).unwrap_err(),
        "You do not have permission to listen to this channel"
    );
    let on = state.toggle_listen(2).unwrap();
    assert!(on.listened);
    assert_eq!(on.command, Some(Command::ChannelListen { add: vec![2], remove: vec![] }));
    assert_eq!(state.listened_channels(), vec![2]);
    let off = state.toggle_listen(2).unwrap();
    assert_eq!(off.command, Some(Command::ChannelListen { add: vec![], remove: vec![2] }));
    assert!(!off.listened && state.listened_channels().is_empty());
    // A channel that is shown is listened to anyway.
    assert_eq!(state.select_channel(2), Some(Command::PermissionQuery { channel_id: 2 }));
    assert_eq!(state.toggle_listen(2).unwrap().command, None);
}

#[test]
fn channels_are_changed_through_the_server() {
    let mut state = AppState::new();
    let refused = state.delete_channel(3).unwrap_err();
    assert_eq!(refused, "Not connected");
    assert_eq!(state.select_channel(3), None);
    assert!(state.join_channel(3, None).command.is_none());
    let id = connected(&mut state, "host");
    state.transport_up(id);
    assert_eq!(state.delete_channel(3), Ok(Command::DeleteChannel { channel_id: 3 }));
    assert_eq!(
        state.join_channel(3, Some("pw".to_owned())).command,
        Some(Command::JoinChannel { channel_id: 3, password: Some("pw".to_owned()) })
    );
    let made = state.create_channel(
        0,
        "new".to_owned(),
        None,
        None,
        Some(true),
        None,
        Some("signal_v1".to_owned()),
        None,
        None,
        None,
    );
    match made.unwrap() {
        Command::SetChannelState(c) => {
            assert_eq!((c.channel_id, c.parent), (None, Some(0)));
            assert_eq!(c.name.as_deref(), Some("new"));
            assert_eq!(c.pchat_protocol, Some(PchatProtocol::SignalV1));
        }
        other => panic!("{other:?}"),
    }
    let changed = state
        .update_channel(5, None, None, Some(-1), None, None, None, Some(10), None, None)
        .unwrap();
    match changed {
        Command::SetChannelState(c) => {
            assert_eq!((c.channel_id, c.parent, c.position), (Some(5), None, Some(-1)));
            assert_eq!((c.pchat_protocol, c.pchat_max_history), (None, Some(10)));
        }
        other => panic!("{other:?}"),
    }
}

#[test]
fn users_are_counted_per_channel() {
    let mut s = AppState::new().fresh_session_state();
    s.channels.insert(1, channel(1, None));
    s.channels.insert(2, channel(2, None));
    for (session, channel_id) in [(10, 1), (11, 1), (12, 7)] {
        s.users.insert(session, UserEntry { channel_id, ..UserEntry::new(session) });
    }
    AppState::refresh_user_counts(&mut s);
    assert_eq!(s.channels[&1].user_count, 2);
    assert_eq!(s.channels[&2].user_count, 0);
}

fn status(running: bool) -> Status {
    let mut status = Status::reserved(
        "pinned-server".to_owned(),
        "test-broadcast".to_owned(),
        &ScreenShareSettings::default(),
        true,
    );
    status.running = running;
    status
}

fn broadcaster() -> SharedState {
    let mut state = AppState::new().fresh_session_state();
    state.conn.own_session = Some(7);
    state.current_channel = Some(3);
    state.server.config.webrtc_p2p_relay_available = true;
    let _ = state
        .users
        .insert(42, UserEntry { session: 42, channel_id: 3, ..UserEntry::new(42) });
    state.native_broadcast = Some(status(true));
    state
}

fn signal(sender: u32, kind: SignalType) -> WebRtcSignal {
    WebRtcSignal {
        sender_session: Some(sender),
        target_session: Some(7),
        signal_type: Some(1),
        kind: Some(kind),
        payload: Some("payload".to_owned()),
    }
}

#[test]
fn sfu_answers_for_other_broadcasters_still_reach_the_browser() {
    let state = broadcaster();
    assert!(route(&state, &signal(42, SignalType::SdpAnswer)).is_none());
    assert!(matches!(
        route(&state, &signal(7, SignalType::SdpAnswer)),
        Some(Event::Signal { sender: 7, kind: SignalType::SdpAnswer, .. })
    ));
}

#[test]
fn direct_requests_require_capability_target_and_channel_membership() {
    let mut state = broadcaster();
    let request = signal(42, SignalType::P2pRequest);
    assert!(matches!(
        route(&state, &request),
        Some(Event::Signal { sender: 42, kind: SignalType::P2pRequest, .. })
    ));
    state.server.config.webrtc_p2p_relay_available = false;
    assert!(route(&state, &request).is_none());
    state.server.config.webrtc_p2p_relay_available = true;
    let elsewhere =
        WebRtcSignal { target_session: Some(9), ..signal(42, SignalType::P2pRequest) };
    assert!(route(&state, &elsewhere).is_none());
    state.current_channel = Some(4);
    assert!(route(&state, &request).is_none());
}

#[test]
fn signals_that_nobody_owns_go_to_the_interface() {
    let mut state = broadcaster();
    state.native_broadcast = Some(status(false));
    match deliver(&state, &signal(7, SignalType::SdpAnswer)) {
        Delivery::Interface(p) => {
            assert_eq!((p.sender_session, p.signal_type), (Some(7), 1));
            assert_eq!(p.payload, "payload");
        }
        other => panic!("{other:?}"),
    }
    let bare = WebRtcSignal {
        sender_session: None,
        target_session: None,
        signal_type: None,
        kind: None,
        payload: None,
    };
    match deliver(&broadcaster(), &bare) {
        Delivery::Interface(p) => assert_eq!((p.signal_type, p.payload.as_str()), (0, "")),
        other => panic!("{other:?}"),
    }
}

fn ready(sfu: bool, p2p: bool) -> (AppState, ServerId) {
    let mut state = AppState::new();
    let id = connected(&mut state, "host");
    state.transport_up(id);
    let s = state.current_mut();
    s.conn.status = ConnectionStatus::Connected;
    s.conn.own_session = Some(7);
    s.current_channel = Some(3);
    s.server.config.webrtc_sfu_available = sfu;
    s.server.config.webrtc_p2p_relay_available = p2p;
    for (session, channel_id) in [(7, 3), (8, 3), (9, 4)] {
        s.users.insert(session, UserEntry { channel_id, ..UserEntry::new(session) });
    }
    (state, id)
}

#[test]
fn a_broadcast_is_bound_to_its_connection_and_channel() {
    let (mut state, id) = ready(false, true);
    let bound = state
        .start_native_screen_share(&ScreenShareSettings::default(), Some(&id.text()))
        .unwrap();
    assert_eq!(bound.server_id, id.text());
    assert_eq!((bound.own_session, bound.channel, bound.epoch), (7, 3, 1));
    let others = members(state.snapshot(), &bound).unwrap();
    assert_eq!(others.into_iter().collect::<Vec<u32>>(), vec![8]);
    let broadcast_id = state.native_screen_share_status(None).unwrap().unwrap().broadcast_id.clone();
    assert!(is_uuid(&broadcast_id));
    let ice = || PreviewAction::Ice("candidate".to_owned());
    assert_eq!(
        state.native_screen_share_preview(&id.text(), &broadcast_id, "p".to_owned(), ice()),
        Ok(PreviewEvent { id: "p".to_owned(), action: ice() })
    );
    assert_eq!(
        state
            .native_screen_share_preview(&id.text(), "other", "p".to_owned(), ice())
            .unwrap_err(),
        "Screen share has ended or changed"
    );
    assert_eq!(
        state.start_native_screen_share(&ScreenShareSettings::default(), None).unwrap_err(),
        "this server already has an active screen share"
    );
    assert_eq!(state.stop_native_screen_share(None), Ok(true));
    assert!(state.join_channel(4, None).stop_share);
    assert!(!state.join_channel(3, None).stop_share);
    state.current_mut().current_channel = Some(4);
    assert!(members(state.snapshot(), &bound).is_none());
}

#[test]
fn a_broadcast_needs_everything_in_place() {
    let defaults = ScreenShareSettings::default();
    let refusal = |change: fn(&mut SharedState)| {
        let (mut state, _) = ready(true, true);
        change(state.current_mut());
        state.start_native_screen_share(&ScreenShareSettings::default(), None).unwrap_err()
    };
    assert_eq!(refusal(|s| s.conn.client = false), "not connected");
    assert_eq!(refusal(|s| s.server_id = None), "missing server id");
    assert_eq!(refusal(|s| s.conn.own_session = None), "server synchronization incomplete");
    assert_eq!(refusal(|s| s.current_channel = None), "not in a channel");
    let (mut state, id) = ready(false, true);
    let sfu_only = ScreenShareSettings { p2p: P2pMode::Disabled, ..defaults.clone() };
    assert_eq!(
        state.start_native_screen_share(&sfu_only, None).unwrap_err(),
        "this server has no available screen-share transport"
    );
    let bad = ScreenShareSettings { fps: 1, ..defaults.clone() };
    assert!(state.start_native_screen_share(&bad, Some("nonsense")).unwrap_err().starts_with("fps"));
    let e = state.start_native_screen_share(&defaults, Some("nonsense")).unwrap_err();
    assert!(e.starts_with("invalid server id: "), "{e}");
    let stranger = ServerId(1).text();
    assert_eq!(
        state.native_screen_share_status(Some(&stranger)).unwrap_err(),
        format!("unknown server id: {stranger}")
    );
    assert_eq!(
        state
            .native_screen_share_preview(&id.text(), "x", "p".to_owned(), PreviewAction::Start)
            .unwrap_err(),
        "No active screen share"
    );
    assert!(context(state.snapshot()).is_ok());
}

#[test]
fn identities_read_back() {
    let id = ServerId::new();
    assert_eq!(ServerId::parse(&id.text()), Ok(id));
    assert_eq!(ServerId(0x1f).text(), "00000000-0000-0000-0000-00000000001f");
    assert_eq!(
        ServerId(0x0123_4567_89ab_cdef_fedc_ba98_7654_3210).text(),
        "01234567-89ab-cdef-fedc-ba9876543210"
    );
    assert_eq!(ServerId(1).text(), "00000000-0000-0000-0000-000000000001");
    assert_ne!(ServerId::new(), ServerId::new());
    for _ in 0..16 {
        let text = ServerId::new().text();
        assert_eq!(text.as_bytes()[14], b'4', "{text}");
        assert!(matches!(text.as_bytes()[19], b'8' | b'9' | b'a' | b'b'), "{text}");
        let number = ServerId::new().0;
        assert_eq!(((number >> 76) & 0xF, (number >> 62) & 3), (4, 2));
    }
    assert!(is_uuid("67e55044-10b1-426f-9247-bb680e5fe0c8"));
    assert!(!is_uuid("67e55044"));
}

#[test]
fn parse_pchat_protocol_str_roundtrip() {
    let cases = [
        (PchatProtocol::Disabled, "none"),
        (PchatProtocol::FancyV1FullArchive, "fancy_v1_full_archive"),
        (PchatProtocol::SignalV1, "signal_v1"),
    ];
    for (expected, input) in cases {
        assert_eq!(
            parse_pchat_protocol_str(input),
            expected,
            "parse_pchat_protocol_str({input:?}) should return {expected:?}",
        );
        assert_eq!(expected.name(), input);
    }
    assert_eq!(parse_pchat_protocol_str("other"), PchatProtocol::Disabled);
}

#[test]
fn markers_change_with_what_they_mark() {
    let png = [0x89u8, 0x50, 0x4E, 0x47];
    let picture = |last: u8| {
        let mut bytes = png.to_vec();
        bytes.push(last);
        blob_marker(&bytes)
    };
    assert_ne!(picture(1), picture(2));
    assert_eq!(picture(1), picture(1), "the marker is stable");
    assert_eq!(blob_marker(&vec![]), 3);
    assert_eq!(blob_marker(&vec![5]), 2 * (16_777_619 + 5) + 1);
    let long: Vec<u8> = (0..200u8).collect();
    let marker = blob_marker(&long);
    assert_ne!(marker, 0);
    for i in 0..long.len() {
        let mut changed = long.clone();
        changed[i] ^= 0x80;
        assert_ne!(blob_marker(&changed), marker, "byte {i}");
    }
    assert_eq!(text_size(""), None);
    assert_eq!(text_size("\u{e4}b"), Some(3));
}

#[test]
fn messages_get_an_identity_once() {
    let mut m = dummy_message(1);
    m.ensure_id();
    assert_eq!(m.message_id.as_deref(), Some("id-1"));
    m.message_id = None;
    m.ensure_id();
    let id = m.message_id.clone().unwrap();
    assert!(is_uuid(&id));
    m.ensure_id();
    assert_eq!(m.message_id, Some(id));
}

#[test]
fn log_lines_carry_the_time() {
    assert_eq!(ServerLogEntry::at(Some(5), "x".to_owned()).timestamp_ms, 5);
    assert_eq!(ServerLogEntry::at(None, "x".to_owned()).timestamp_ms, 0);
    let now = ServerLogEntry::now("joined".to_owned());
    assert_eq!(now.message, "joined");
    assert!(now.timestamp_ms > 1_577_836_800_000, "after the year 2020");
}

#[test]
fn plugin_data_travels_in_base_64() {
    let p = PluginDataPayload {
        sender_session: None,
        data: b"any carnal pleas".to_vec(),
        data_id: "d".to_owned(),
    };
    assert_eq!(p.data_text(), "YW55IGNhcm5hbCBwbGVhcw==");
}

#[test]
fn audio_restarts_only_for_what_matters() {
    let settings = AudioSettings::default();
    let still = MovedLevels {
        vad_threshold: false,
        max_gain_db: false,
        noise_gate_close_ratio: false,
        denoiser_params: false,
    };
    assert!(!settings.needs_pipeline_restart(&settings.clone(), still));
    let key = AudioSettings { push_to_talk_key: Some("Alt+T".to_owned()), ..settings.clone() };
    assert!(!settings.needs_pipeline_restart(&key, still));
    let device = AudioSettings { selected_device: Some("mic".to_owned()), ..settings.clone() };
    assert!(settings.needs_pipeline_restart(&device, still));
    let moved = MovedLevels { vad_threshold: true, ..still };
    assert!(settings.needs_pipeline_restart(&settings.clone(), moved));
    let out = AudioSettings { selected_output_device: Some("s".to_owned()), ..settings.clone() };
    assert!(settings.needs_inbound_restart(&out) && !settings.needs_inbound_restart(&settings));
    for (ms, samples) in [(10, 480), (20, 960), (40, 1920), (60, 2880), (33, 960)] {
        assert_eq!(AudioSettings::frame_ms_to_samples(ms), samples);
    }
}

#[test]
fn a_new_connection_has_the_users_preferences() {
    let mut state = AppState::new();
    state.default_inner.prefs = AppPreferences {
        notifications_enabled: false,
        disable_dual_path: true,
        app_focused: true,
    };
    state.default_inner.audio.settings.bitrate_bps = 40_000;
    let fresh = state.fresh_session_state();
    assert_eq!(fresh.prefs, state.default_inner.prefs);
    assert_eq!(fresh.audio.settings.bitrate_bps, 40_000);
    assert!(!state.server_relays_p2p());
    assert!(default_true());
    let config = ServerConfig::default();
    assert_eq!((config.max_message_length, config.max_image_message_length), (5000, 131072));
    let mut user = UserEntry::new(3);
    assert!(!user.has_pchat_e2ee(1));
    user.client_features.push(1);
    assert!(user.has_pchat_e2ee(1));
    state.reset_to_default();
    assert_eq!(state.current_channel(), None);
}
