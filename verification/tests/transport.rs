use mumble_tauri::media::settings::{P2pMode, ScreenShareSettings, MAX_P2P_VIEWERS};
use mumble_tauri::media::transport::{Allocator, Serving, SfuReason};

fn settings(mode: P2pMode, cap: u32) -> ScreenShareSettings {
    ScreenShareSettings { p2p: mode, p2p_max_viewers: cap, ..Default::default() }
}

fn allocator(cap: u32) -> Allocator {
    Allocator::new(&settings(P2pMode::Auto, cap), true)
}

#[test]
fn direct_slots_run_out_and_the_rest_go_to_the_sfu() {
    let mut alloc = allocator(2);
    assert_eq!(alloc.admit_viewer(10), Serving::Direct);
    assert_eq!(alloc.admit_viewer(11), Serving::Direct);
    assert_eq!(alloc.admit_viewer(12), Serving::sfu(SfuReason::NoSlots));
    assert_eq!(alloc.free_slots(), 0);
}

#[test]
fn a_repeated_request_does_not_consume_a_second_slot() {
    // A viewer retrying, or a duplicate request racing the first, must
    // not eat into the budget twice.
    let mut alloc = allocator(2);
    assert_eq!(alloc.admit_viewer(10), Serving::Direct);
    assert_eq!(alloc.admit_viewer(10), Serving::Direct);
    assert_eq!(alloc.free_slots(), 1, "one viewer must only hold one slot");
}

#[test]
fn a_failed_direct_connection_frees_its_slot_and_says_why() {
    let mut alloc = allocator(1);
    assert_eq!(alloc.admit_viewer(10), Serving::Direct);
    assert_eq!(alloc.admit_viewer(11), Serving::sfu(SfuReason::NoSlots));

    assert!(alloc.demote(10), "viewer 10 was on a direct connection");
    assert_eq!(alloc.serving(10), Some(Serving::sfu(SfuReason::DirectFailed)));
    assert_eq!(alloc.free_slots(), 1);
    assert_eq!(alloc.admit_viewer(12), Serving::Direct, "the freed slot is reusable");

    // Demoting again is not a second failure to report.
    assert!(!alloc.demote(10));
}

#[test]
fn leaving_releases_a_slot() {
    let mut alloc = allocator(1);
    assert_eq!(alloc.admit_viewer(10), Serving::Direct);
    alloc.release(10);
    assert_eq!(alloc.serving(10), None);
    assert_eq!(alloc.admit_viewer(11), Serving::Direct);
}

#[test]
fn every_way_of_not_getting_a_direct_connection_is_reported_distinctly() {
    // The user turned it off.
    let mut off = Allocator::new(&settings(P2pMode::Disabled, 4), true);
    assert_eq!(off.admit_viewer(10), Serving::sfu(SfuReason::Disabled));

    // The server cannot relay for it, whatever the user asked for.
    let mut unsupported = Allocator::new(&settings(P2pMode::Auto, 4), false);
    assert_eq!(unsupported.admit_viewer(10), Serving::sfu(SfuReason::ServerUnsupported));
}

#[test]
fn the_cap_is_clamped_to_what_this_build_serves() {
    // Settings stored by a future build with a higher ceiling must not
    // hand out more slots than this one is prepared to serve.
    let alloc = allocator(999);
    assert_eq!(alloc.free_slots(), MAX_P2P_VIEWERS);
}

#[test]
fn a_viewer_keeps_its_assignment_while_others_come_and_go() {
    let mut alloc = allocator(2);
    alloc.admit_viewer(1);
    alloc.admit_viewer(2);
    assert_eq!(alloc.admit_viewer(3), Serving::sfu(SfuReason::NoSlots));
    alloc.release(1);
    // A slot is free again, but the viewer that was turned down keeps its place.
    assert_eq!(alloc.admit_viewer(3), Serving::sfu(SfuReason::NoSlots));
    assert_eq!(alloc.serving(2), Some(Serving::Direct));
    assert_eq!(alloc.direct_count(), 1);
    assert!(Serving::Direct.is_direct());
    assert_eq!(alloc.sfu_only_reason(), None);
}
