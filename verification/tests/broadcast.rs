use std::collections::HashSet;

use mumble_tauri::media::broadcast::owner::{key_frame_due, Action, Event, Input, Owner};
use mumble_tauri::media::broadcast::peer::{
    ended_report, preview_end, preview_kind, LinkState, PeerAction, PeerEvent, PeerSession,
    MAX_PENDING_ICE,
};
use mumble_tauri::media::broadcast::status::{
    announce_text, announcement_text, decline_text, startup_error, Signal, SignalType, Status,
    ViewerUpdate,
};
use mumble_tauri::media::connection::Codec;
use mumble_tauri::media::settings::{P2pMode, ScreenShareSettings};
use mumble_tauri::media::transport::{Serving, SfuReason};

fn settings(slots: u32) -> ScreenShareSettings {
    ScreenShareSettings { p2p: P2pMode::Auto, p2p_max_viewers: slots, ..Default::default() }
}

fn members(sessions: &[u32]) -> Option<HashSet<u32>> {
    Some(sessions.iter().copied().collect())
}

fn signal(sender: u32, kind: SignalType) -> Event {
    Event::Signal { sender, kind, payload: "text".to_owned() }
}

fn started(slots: u32, sfu: bool) -> Owner {
    let mut owner = Owner::new("id".to_owned(), 7, true, sfu, &settings(slots));
    let (codec, actions) = owner.begin(false, members(&[42]), "h264_nvenc").unwrap();
    assert_eq!(codec, Codec::H264);
    assert!(matches!(&actions[0], Action::Send(Signal { kind: SignalType::Start, .. })));
    owner
}

#[test]
fn a_broadcast_starts_only_while_its_channel_is_there() {
    let owner = || Owner::new("id".to_owned(), 7, true, true, &settings(1));
    let start = |cancelled, members, encoder: &str| {
        owner().begin(cancelled, members, encoder).unwrap_err()
    };
    assert_eq!(start(true, members(&[]), "h264_mf"), "screen sharing cancelled");
    assert_eq!(start(false, None, "h264_mf"), "screen-share connection changed");
    assert_eq!(start(false, members(&[]), "vp9"), "unsupported video codec");
}

#[test]
fn viewers_get_slots_while_there_are_any() {
    let mut owner = started(1, true);
    let now = members(&[42, 43]);
    let first = owner.event(signal(42, SignalType::P2pRequest), &now);
    assert!(matches!(first[0], Action::AddPeer { target: 42, .. }), "{first:?}");
    assert!(matches!(
        first[1],
        Action::Update(ViewerUpdate { serving: Some(Serving::Direct), free_direct_slots: 0, .. })
    ));
    let second = owner.event(signal(43, SignalType::P2pRequest), &now);
    match &second[0] {
        Action::Send(Signal { target: 43, kind: SignalType::P2pDecline, payload }) => {
            assert_eq!(payload, "{\"sfuAvailable\":true}")
        }
        other => panic!("{other:?}"),
    }
    // Someone who is not in the channel changes nothing.
    assert!(owner.event(signal(99, SignalType::P2pRequest), &now).is_empty());
    // Leaving frees the slot.
    let left = owner.event(signal(42, SignalType::P2pLeave), &now);
    assert!(matches!(left[0], Action::RemovePeer { target: 42 }));
    assert!(matches!(
        left[1],
        Action::Update(ViewerUpdate { forget: true, free_direct_slots: 1, .. })
    ));
}

#[test]
fn stale_senders_release_nothing() {
    let mut owner = started(1, false);
    let now = members(&[42]);
    let id = match owner.event(signal(42, SignalType::P2pRequest), &now)[0] {
        Action::AddPeer { id, .. } => id,
        ref other => panic!("{other:?}"),
    };
    let stale = Event::PeerEnded { target: 42, id: id + 1, error: None };
    assert!(owner.event(stale, &now).is_empty());
    let lost = owner.event(Event::PeerEnded { target: 42, id, error: None }, &now);
    assert!(matches!(lost[0], Action::RemovePeer { target: 42 }));
    assert!(matches!(
        lost[1],
        Action::Update(ViewerUpdate {
            serving: Some(Serving::Sfu { reason: SfuReason::DirectFailed }),
            ..
        })
    ));
}

#[test]
fn answers_reach_the_sender_they_are_for() {
    let mut owner = started(1, true);
    let now = members(&[42]);
    let delivered = owner.event(signal(0, SignalType::SdpAnswer), &now);
    match &delivered[0] {
        Action::Deliver { target: 0, message: Input::Answer(text) } => assert_eq!(text, "text"),
        other => panic!("{other:?}"),
    }
    assert!(owner.event(signal(42, SignalType::SdpAnswer), &now).is_empty());
}

#[test]
fn the_regular_look_ends_or_tends_the_broadcast() {
    let mut owner = started(1, true);
    let over = owner.tick(Some(Ok(())), members(&[42]), &vec![], false);
    assert!(matches!(over[0], Action::Finish(Ok(()))));
    let changed = started(1, true).tick(None, None, &vec![], false);
    match &changed[0] {
        Action::Finish(Err(e)) => assert_eq!(e, "screen-share connection or channel changed"),
        other => panic!("{other:?}"),
    }
    // A newcomer is told.
    let mut owner = started(1, true);
    let joined = owner.tick(None, members(&[42, 43]), &vec![], false);
    assert!(matches!(&joined[0], Action::Send(Signal { kind: SignalType::Start, .. })));
    assert!(key_frame_due(None) && key_frame_due(Some(500)) && !key_frame_due(Some(499)));
    // A key frame is asked for once per request.
    assert!(owner.event(Event::KeyFrame, &members(&[42, 43])).is_empty());
    let due = owner.tick(None, members(&[42, 43]), &vec![], true);
    assert!(matches!(due[0], Action::RequestKeyFrame));
    assert!(owner.tick(None, members(&[42, 43]), &vec![], true).is_empty());
    assert!(Owner::farewell(false).is_none());
    assert_eq!(Owner::farewell(true).unwrap().kind, SignalType::Stop);
}

#[test]
fn a_sender_negotiates_and_waits_for_a_key_frame() {
    let mut peer = PeerSession::new(42);
    assert_eq!(peer.offer("sdp".to_owned()).kind, SignalType::P2pOffer);
    assert_eq!(PeerSession::new(0).offer("sdp".to_owned()).kind, SignalType::SdpOffer);
    assert!(peer.connecting() && !peer.wants_feedback());
    assert!(peer.handle(PeerEvent::Ice("early".to_owned())).is_empty());
    let answered = peer.handle(PeerEvent::Answer("sdp".to_owned()));
    assert!(matches!(&answered[0], PeerAction::AcceptAnswer(_)));
    assert!(matches!(&answered[1], PeerAction::AddIce(c) if c == "early"));
    assert!(peer.handle(PeerEvent::Answer("again".to_owned())).is_empty());
    assert!(matches!(
        peer.handle(PeerEvent::Link(LinkState::Connected))[0],
        PeerAction::KeyFrame
    ));
    assert!(!peer.connecting() && peer.wants_feedback());
    assert!(peer.handle(PeerEvent::Frame { is_key: false }).is_empty());
    assert!(matches!(peer.handle(PeerEvent::Frame { is_key: true })[0], PeerAction::SendFrame));
    assert!(matches!(peer.handle(PeerEvent::Frame { is_key: false })[0], PeerAction::SendFrame));
    assert!(matches!(peer.handle(PeerEvent::Lagged)[0], PeerAction::KeyFrame));
    assert!(peer.handle(PeerEvent::Frame { is_key: false }).is_empty());
}

#[test]
fn a_sender_gives_up_with_a_reason() {
    let reason = |actions: Vec<PeerAction>| match actions.into_iter().next() {
        Some(PeerAction::Finish(Err(e))) => e,
        other => panic!("{other:?}"),
    };
    assert_eq!(
        reason(PeerSession::new(1).handle(PeerEvent::TimedOut)),
        "WebRTC connection timed out after 20 seconds"
    );
    assert_eq!(
        reason(PeerSession::new(1).handle(PeerEvent::Link(LinkState::Lost))),
        "WebRTC connection lost"
    );
    let mut peer = PeerSession::new(1);
    for _ in 0..MAX_PENDING_ICE {
        assert!(peer.handle(PeerEvent::Ice("c".to_owned())).is_empty());
    }
    assert_eq!(
        reason(peer.handle(PeerEvent::Ice("c".to_owned()))),
        "too many pending ICE candidates"
    );
    assert_eq!(ended_report(true, Err("x".to_owned())), None);
    assert_eq!(ended_report(false, Err("x".to_owned())), Some(Some("x".to_owned())));
    assert_eq!(ended_report(false, Ok(())), Some(None));
    assert_eq!(preview_end(true, Ok(())), None);
    assert_eq!(preview_end(false, Ok(())).as_deref(), Some("Preview connection closed"));
    assert_eq!(preview_end(false, Err("x".to_owned())).as_deref(), Some("x"));
    assert_eq!(preview_kind(SignalType::SdpOffer), "offer");
    assert_eq!(preview_kind(SignalType::IceCandidate), "ice");
}

#[test]
fn payloads_are_json() {
    assert_eq!(decline_text(false), "{\"sfuAvailable\":false}");
    assert_eq!(
        announcement_text("\"id\"", true, false),
        "{\"broadcastId\":\"id\",\"native\":true,\"p2p\":true,\"sfuAvailable\":false}"
    );
    // The identity is escaped as JSON demands.
    let text = announce_text("a\"b", true, true);
    assert!(text.starts_with("{\"broadcastId\":\"a\\\"b\","), "{text}");
    let value: serde_json::Value = serde_json::from_str(&text).unwrap();
    assert_eq!(value.pointer("/broadcastId").and_then(|v| v.as_str()), Some("a\"b"));
}

#[test]
fn the_status_follows_the_broadcast() {
    let mut status = Status::reserve("server".to_owned(), &settings(2), true);
    assert_eq!(status.broadcast_id.len(), 36);
    assert_ne!(
        status.broadcast_id,
        Status::reserve("server".to_owned(), &settings(2), true).broadcast_id
    );
    assert!(status.running && status.free_direct_slots == 2);
    status.capturing("h264_mf".to_owned(), 25);
    assert_eq!((status.encoder_id.as_deref(), status.fps), (Some("h264_mf"), 25));
    status.apply(ViewerUpdate {
        viewer: 5,
        forget: false,
        serving: Some(Serving::Direct),
        free_direct_slots: 1,
    });
    assert_eq!(status.viewers.get(&5), Some(&Serving::Direct));
    status.finish(&Err("gone".to_owned()));
    assert!(!status.running);
    assert_eq!(status.error.as_deref(), Some("gone"));
    assert_eq!(startup_error(Err("gone".to_owned())), "gone");
}
