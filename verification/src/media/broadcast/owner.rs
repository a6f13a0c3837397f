//! The broadcast's owner: who is served how, by which sender.

use std::collections::{HashMap, HashSet};

use vstd::prelude::*;
use vstd::std_specs::hash::*;

use crate::collections::set_members;
use crate::media::connection::{codec_of_encoder, Codec};
use crate::media::encoder::text_view;
use crate::media::settings::ScreenShareSettings;
use crate::media::transport::{
    a_failed_connection_frees_its_slot, a_known_viewer_keeps_its_place,
    a_new_viewer_is_direct_exactly_when_a_slot_is_free, a_refusal_says_why,
    held_and_free_slots_make_up_the_budget, initial_allocation, leaving_gives_back_the_slot,
    slots_are_never_exceeded, Allocation, Allocator, Serving, SfuReason,
};

use super::status::{
    announce_text, announcement, decline_payload, decline_text, json_string, Sent, Signal,
    SignalType, ViewerUpdate,
};

verus! {

broadcast use group_hash_axioms;

/// Messages addressed to one established negotiation.
#[derive(Debug, PartialEq, Eq)]
pub enum Input {
    /// The far end's answer.
    Answer(String),
    /// A candidate of the far end.
    Ice(String),
}

/// What a message says.
#[verifier::ext_equal]
pub enum Message {
    /// The far end's answer.
    Answer(Seq<char>),
    /// A candidate of the far end.
    Ice(Seq<char>),
}

impl View for Input {
    type V = Message;

    open spec fn view(&self) -> Message {
        match self {
            Input::Answer(text) => Message::Answer(text@),
            Input::Ice(text) => Message::Ice(text@),
        }
    }
}

/// Commands and connection feedback for the owner.
#[derive(Debug)]
pub enum Event {
    /// Incoming signal on the owning connection.
    Signal {
        /// The session it comes from, or 0 for the server.
        sender: u32,
        /// Its kind.
        kind: SignalType,
        /// What it carries.
        payload: String,
    },
    /// A sender terminated; its number keeps a stale sender from releasing a
    /// new slot.
    PeerEnded {
        /// Whom it served.
        target: u32,
        /// Its number.
        id: u64,
        /// Why it ended, where that was an error.
        error: Option<String>,
    },
    /// A receiver or a full queue needs a new key frame.
    KeyFrame,
}

/// What the owner wants done.
#[derive(Debug)]
pub enum Action {
    /// Send a signal; a failure ends the broadcast.
    Send(Signal),
    /// Start a sender.
    AddPeer {
        /// Whom it serves, or 0 for the server.
        target: u32,
        /// Its number.
        id: u64,
    },
    /// Cancel a sender and wait for it.
    RemovePeer {
        /// Whom it serves.
        target: u32,
    },
    /// Give a message to a sender; cancel it where its mailbox is full.
    Deliver {
        /// Whom it serves.
        target: u32,
        /// The message.
        message: Input,
    },
    /// Change the status and tell the user.
    Update(ViewerUpdate),
    /// Ask the encoder for a key frame.
    RequestKeyFrame,
    /// End the broadcast.
    Finish(Result<(), String>),
}

/// What an action says.
#[verifier::ext_equal]
pub enum Act {
    /// Send a signal.
    Send(Sent),
    /// Start a sender.
    AddPeer {
        /// Whom it serves.
        target: u32,
        /// Its number.
        id: u64,
    },
    /// Cancel a sender and wait for it.
    RemovePeer {
        /// Whom it serves.
        target: u32,
    },
    /// Give a message to a sender.
    Deliver {
        /// Whom it serves.
        target: u32,
        /// The message.
        message: Message,
    },
    /// Change the status and tell the user.
    Update(ViewerUpdate),
    /// Ask the encoder for a key frame.
    RequestKeyFrame,
    /// End the broadcast, with an error where there is one.
    Finish(Option<Seq<char>>),
}

impl View for Action {
    type V = Act;

    open spec fn view(&self) -> Act {
        match self {
            Action::Send(signal) => Act::Send(signal@),
            Action::AddPeer { target, id } => Act::AddPeer { target: *target, id: *id },
            Action::RemovePeer { target } => Act::RemovePeer { target: *target },
            Action::Deliver { target, message } => Act::Deliver {
                target: *target,
                message: message@,
            },
            Action::Update(update) => Act::Update(*update),
            Action::RequestKeyFrame => Act::RequestKeyFrame,
            Action::Finish(result) => Act::Finish(
                match result {
                    Ok(()) => None,
                    Err(e) => Some(e@),
                },
            ),
        }
    }
}

/// The actions of a list.
pub open spec fn acts(actions: Seq<Action>) -> Seq<Act> {
    actions.map_values(|a: Action| a@)
}

/// What the owner knows.
#[verifier::ext_equal]
pub struct OwnerState {
    /// The broadcast's identity.
    pub broadcast_id: Seq<char>,
    /// Our own session on the server.
    pub own_session: u32,
    /// Whether the server relays for direct connections.
    pub p2p_available: bool,
    /// Whether the server can forward the stream itself.
    pub sfu_available: bool,
    /// Who is served how.
    pub allocation: Allocation,
    /// The senders, by whom they serve, with their numbers.
    pub peers: Map<u32, u64>,
    /// The members of the channel, as last seen.
    pub members: Set<u32>,
    /// The last number that was given to a sender.
    pub next_peer: u64,
    /// Whether a key frame is wanted.
    pub key_requested: bool,
}

impl OwnerState {
    /// The slot budget is kept, every viewer that holds a slot has a sender,
    /// and no sender has a number that is yet to be given.
    pub open spec fn sound(self) -> bool {
        &&& self.allocation.in_budget()
        &&& forall|v: u32| #[trigger]
            self.allocation.holds_slot(v) ==> self.peers.contains_key(v)
        &&& forall|t: u32| #[trigger]
            self.peers.contains_key(t) ==> self.peers[t] <= self.next_peer
    }

    /// The signal that declines a viewer's direct connection.
    pub open spec fn decline(self, viewer: u32) -> Act {
        Act::Send(
            Sent {
                target: viewer,
                kind: SignalType::P2pDecline,
                payload: decline_payload(self.sfu_available),
            },
        )
    }

    /// The signal that announces the broadcast.
    pub open spec fn announce(self) -> Act {
        Act::Send(
            Sent {
                target: 0,
                kind: SignalType::Start,
                payload: announcement(
                    json_string(self.broadcast_id),
                    self.p2p_available,
                    self.sfu_available,
                ),
            },
        )
    }

    /// The change of the status that a viewer's entry needs.
    pub open spec fn update(self, viewer: u32, forget: bool) -> Act {
        Act::Update(
            ViewerUpdate {
                viewer,
                forget,
                serving: if self.allocation.viewers.contains_key(viewer) {
                    Some(self.allocation.viewers[viewer])
                } else {
                    None
                },
                free_direct_slots: self.allocation.free() as u32,
            },
        )
    }

    /// With a new sender.
    pub open spec fn with_peer(self, target: u32) -> OwnerState {
        OwnerState {
            next_peer: (self.next_peer + 1) as u64,
            peers: self.peers.insert(target, (self.next_peer + 1) as u64),
            ..self
        }
    }

    /// Without a sender.
    pub open spec fn without_peer(self, target: u32) -> OwnerState {
        OwnerState { peers: self.peers.remove(target), ..self }
    }

    /// With another allocation.
    pub open spec fn allocated(self, allocation: Allocation) -> OwnerState {
        OwnerState { allocation, ..self }
    }

    /// The actions that remove a sender, where there is one.
    pub open spec fn removal(self, target: u32) -> Seq<Act> {
        if self.peers.contains_key(target) {
            seq![Act::RemovePeer { target }]
        } else {
            Seq::empty()
        }
    }
}

/// A state, and the actions on the way to it.
#[verifier::ext_equal]
pub struct Run {
    /// The state.
    pub state: OwnerState,
    /// The actions so far.
    pub actions: Seq<Act>,
    /// Whether the last of them ends the broadcast.
    pub over: bool,
}

/// Nothing done.
pub open spec fn at_rest(state: OwnerState) -> Run {
    Run { state, actions: Seq::empty(), over: false }
}

/// Whom a signal is for: the server's sender, a viewer's, or nobody.
///
/// Only the server and our own session speak for the server.  A viewer has to
/// be a member of the channel, on a server that relays for it.
pub open spec fn addressee(
    s: OwnerState,
    sender: u32,
    kind: SignalType,
    members: Option<Set<u32>>,
) -> Option<u32> {
    match kind {
        SignalType::SdpAnswer | SignalType::IceCandidate => if sender == s.own_session || sender
            == 0 {
            Some(0u32)
        } else {
            None
        },
        SignalType::P2pRequest | SignalType::P2pAnswer | SignalType::P2pIce
        | SignalType::P2pLeave => if s.p2p_available && members is Some
            && members->0.contains(sender) {
            Some(sender)
        } else {
            None
        },
        _ => None,
    }
}

/// A viewer asks for a direct connection: it is admitted, and gets a sender or
/// is declined.
pub open spec fn on_request(s: OwnerState, viewer: u32) -> Run {
    let direct = s.allocation.decision(viewer) == Serving::Direct;
    let admitted = s.allocated(s.allocation.admitted(viewer));
    if !direct {
        Run {
            state: admitted,
            actions: seq![s.decline(viewer), admitted.update(viewer, false)],
            over: false,
        }
    } else if s.peers.contains_key(viewer) {
        Run { state: admitted, actions: seq![admitted.update(viewer, false)], over: false }
    } else {
        Run {
            state: admitted.with_peer(viewer),
            actions: seq![
                Act::AddPeer { target: viewer, id: (s.next_peer + 1) as u64 },
                admitted.update(viewer, false),
            ],
            over: false,
        }
    }
}

/// A viewer goes: its sender is removed, and its slot is given back.
pub open spec fn on_departure(s: OwnerState, viewer: u32) -> Run {
    let after = s.without_peer(viewer).allocated(s.allocation.released(viewer));
    Run {
        state: after,
        actions: s.removal(viewer).push(after.update(viewer, true)),
        over: false,
    }
}

/// A signal arrives.
pub open spec fn on_signal(
    s: OwnerState,
    sender: u32,
    kind: SignalType,
    payload: Seq<char>,
    members: Option<Set<u32>>,
) -> Run {
    match addressee(s, sender, kind, members) {
        None => at_rest(s),
        Some(target) => match kind {
            SignalType::P2pRequest => on_request(s, target),
            SignalType::P2pLeave => on_departure(s, target),
            _ => Run {
                state: s,
                actions: if s.peers.contains_key(target) {
                    seq![
                        Act::Deliver {
                            target,
                            message: match kind {
                                SignalType::SdpAnswer | SignalType::P2pAnswer => Message::Answer(
                                    payload,
                                ),
                                _ => Message::Ice(payload),
                            },
                        },
                    ]
                } else {
                    Seq::empty()
                },
                over: false,
            },
        },
    }
}

/// A viewer's direct connection has gone: it is moved to the server, and told.
pub open spec fn on_lost(s: OwnerState, viewer: u32) -> Run {
    let after = s.allocated(s.allocation.demoted(viewer));
    if s.allocation.holds_slot(viewer) {
        Run {
            state: after,
            actions: seq![after.update(viewer, false), s.decline(viewer)],
            over: false,
        }
    } else {
        at_rest(s)
    }
}

/// A sender has ended.  One that is no longer the current one for its target is
/// ignored; the server's ends the broadcast.
pub open spec fn on_peer_ended(
    s: OwnerState,
    target: u32,
    id: u64,
    error: Option<Seq<char>>,
) -> Run {
    if !s.peers.contains_key(target) || s.peers[target] != id {
        at_rest(s)
    } else if target == 0 {
        Run {
            state: s.without_peer(target),
            actions: seq![
                Act::RemovePeer { target },
                Act::Finish(
                    Some(
                        match error {
                            Some(e) => e,
                            None => "SFU connection closed"@,
                        },
                    ),
                ),
            ],
            over: true,
        }
    } else {
        let lost = on_lost(s.without_peer(target), target);
        Run {
            state: lost.state,
            actions: seq![Act::RemovePeer { target }] + lost.actions,
            over: false,
        }
    }
}

/// An event arrives, while these are the members of the channel; none means
/// that the connection or the channel has changed.
pub open spec fn on_event(s: OwnerState, event: Event, members: Option<Set<u32>>) -> Run {
    match event {
        Event::KeyFrame => at_rest(OwnerState { key_requested: true, ..s }),
        Event::PeerEnded { target, id, error } => on_peer_ended(
            s,
            target,
            id,
            text_view(error),
        ),
        Event::Signal { sender, kind, payload } => on_signal(s, sender, kind, payload@, members),
    }
}

/// One run after another.
pub open spec fn followed(run: Run, next: Run) -> Run {
    Run { state: next.state, actions: run.actions + next.actions, over: next.over }
}

/// Some viewers have left the channel, in this order.
pub open spec fn departures(run: Run, order: Seq<u32>) -> Run
    decreases order.len(),
{
    if order.len() == 0 {
        run
    } else {
        let before = departures(run, order.drop_last());
        followed(before, on_departure(before.state, order.last()))
    }
}

/// The channel has these members now: viewers that left are released, and a
/// newcomer is told of the broadcast.
pub open spec fn refreshed(s: OwnerState, current: Set<u32>, order: Seq<u32>) -> Run {
    let gone = departures(at_rest(s), order);
    let now = OwnerState { members: current, ..gone.state };
    let joined = exists|m: u32| #[trigger] current.contains(m) && !s.members.contains(m);
    Run {
        state: now,
        actions: if joined {
            gone.actions.push(now.announce())
        } else {
            gone.actions
        },
        over: false,
    }
}

/// A sender is found finished.
pub open spec fn on_finished(s: OwnerState, target: u32) -> Run {
    if !s.peers.contains_key(target) {
        at_rest(s)
    } else if target == 0 {
        Run {
            state: s.without_peer(target),
            actions: seq![
                Act::RemovePeer { target },
                Act::Finish(Some("SFU sender stopped"@)),
            ],
            over: true,
        }
    } else {
        let lost = on_lost(s.without_peer(target), target);
        Run {
            state: lost.state,
            actions: seq![Act::RemovePeer { target }] + lost.actions,
            over: false,
        }
    }
}

/// Some senders are found finished, in this order.
pub open spec fn reaped(run: Run, order: Seq<u32>) -> Run
    decreases order.len(),
{
    if order.len() == 0 {
        run
    } else {
        let before = reaped(run, order.drop_last());
        if before.over {
            before
        } else {
            followed(before, on_finished(before.state, order.last()))
        }
    }
}

/// A key frame is asked for where one is wanted and the last is long enough
/// ago.
pub open spec fn with_key_frame(run: Run, due: bool) -> Run {
    if !run.over && run.state.key_requested && due {
        Run {
            state: OwnerState { key_requested: false, ..run.state },
            actions: run.actions.push(Act::RequestKeyFrame),
            over: false,
        }
    } else {
        run
    }
}

/// What the regular look at everything comes to: with the reason why capture
/// has stopped, where it has; the members of the channel; the viewers that have
/// left, in some order; the senders that have finished; and whether a key frame
/// is due.
pub open spec fn on_tick(
    s: OwnerState,
    stopped: Option<Option<Seq<char>>>,
    members: Option<Set<u32>>,
    departed: Seq<u32>,
    finished: Seq<u32>,
    due: bool,
) -> Run {
    match stopped {
        Some(error) => Run { state: s, actions: seq![Act::Finish(error)], over: true },
        None => match members {
            None => Run {
                state: s,
                actions: seq![
                    Act::Finish(Some("screen-share connection or channel changed"@)),
                ],
                over: true,
            },
            Some(current) => with_key_frame(
                reaped(refreshed(s, current, departed), finished),
                due,
            ),
        },
    }
}

/// Capture runs, while these are the members of the channel: the broadcast is
/// announced, and served through the server where that can forward it.
pub open spec fn begun(s: OwnerState, present: Set<u32>) -> Run {
    let now = OwnerState { members: present, ..s };
    if s.sfu_available {
        Run {
            state: now.with_peer(0),
            actions: seq![
                now.announce(),
                Act::AddPeer { target: 0, id: (s.next_peer + 1) as u64 },
            ],
            over: false,
        }
    } else {
        Run { state: now, actions: seq![now.announce()], over: false }
    }
}

/// The members that have left, each once.
pub open spec fn lists_departed(order: Seq<u32>, before: Set<u32>, current: Set<u32>) -> bool {
    &&& order.no_duplicates()
    &&& forall|m: u32| #[trigger]
        order.contains(m) <==> before.contains(m) && !current.contains(m)
}

/// The owner of one broadcast.
#[derive(Debug)]
pub struct Owner {
    broadcast_id: String,
    own_session: u32,
    p2p_available: bool,
    sfu_available: bool,
    allocator: Allocator,
    peers: HashMap<u32, u64>,
    members: HashSet<u32>,
    next_peer: u64,
    key_requested: bool,
}

impl View for Owner {
    type V = OwnerState;

    closed spec fn view(&self) -> OwnerState {
        OwnerState {
            broadcast_id: self.broadcast_id@,
            own_session: self.own_session,
            p2p_available: self.p2p_available,
            sfu_available: self.sfu_available,
            allocation: self.allocator@,
            peers: self.peers@,
            members: self.members@,
            next_peer: self.next_peer,
            key_requested: self.key_requested,
        }
    }
}

/// The members of a set that may be missing.
pub open spec fn set_view(members: Option<HashSet<u32>>) -> Option<Set<u32>> {
    match members {
        Some(m) => Some(m@),
        None => None,
    }
}

fn push_action(actions: &mut Vec<Action>, action: Action)
    ensures
        acts(final(actions)@) == acts(old(actions)@).push(action@),
{
    let ghost before = actions@;
    actions.push(action);
    assert(acts(actions@) =~= acts(before).push(action@));
}

proof fn lemma_lost_is_sound(s: OwnerState, viewer: u32)
    requires
        s.sound(),
    ensures
        on_lost(s.without_peer(viewer), viewer).state.sound(),
{
    slots_are_never_exceeded(s.allocation, viewer);
    let after = on_lost(s.without_peer(viewer), viewer).state;
    assert forall|v: u32| #[trigger] after.allocation.holds_slot(v) implies after.peers.contains_key(
        v,
    ) by {
        assert(s.allocation.holds_slot(v));
    }
}

proof fn lemma_departure_is_sound(s: OwnerState, viewer: u32)
    requires
        s.sound(),
    ensures
        on_departure(s, viewer).state.sound(),
{
    slots_are_never_exceeded(s.allocation, viewer);
    let after = on_departure(s, viewer).state;
    assert forall|v: u32| #[trigger] after.allocation.holds_slot(v) implies after.peers.contains_key(
        v,
    ) by {
        assert(s.allocation.holds_slot(v));
    }
}

proof fn lemma_request_is_sound(s: OwnerState, viewer: u32)
    requires
        s.sound(),
        s.next_peer < u64::MAX,
    ensures
        on_request(s, viewer).state.sound(),
{
    slots_are_never_exceeded(s.allocation, viewer);
    let after = on_request(s, viewer).state;
    assert forall|v: u32| #[trigger] after.allocation.holds_slot(v) implies after.peers.contains_key(
        v,
    ) by {
        if v != viewer {
            assert(s.allocation.holds_slot(v));
        }
    }
}

proof fn lemma_only_serving_matters(s: OwnerState, t: OwnerState)
    requires
        s.sound(),
        t.allocation == s.allocation,
        t.peers == s.peers,
        t.next_peer == s.next_peer,
    ensures
        t.sound(),
{
    assert forall|v: u32| #[trigger] t.allocation.holds_slot(v) implies t.peers.contains_key(v) by {
        assert(s.allocation.holds_slot(v));
    }
}

proof fn lemma_new_peer_is_sound(s: OwnerState, target: u32)
    requires
        s.sound(),
        s.next_peer < u64::MAX,
    ensures
        s.with_peer(target).sound(),
{
    let t = s.with_peer(target);
    assert forall|v: u32| #[trigger] t.allocation.holds_slot(v) implies t.peers.contains_key(v) by {
        assert(s.allocation.holds_slot(v));
    }
}

proof fn lemma_reaped_stays_over(run: Run, order: Seq<u32>, n: int)
    requires
        0 <= n <= order.len(),
        reaped(run, order.subrange(0, n)).over,
    ensures
        reaped(run, order) == reaped(run, order.subrange(0, n)),
    decreases order.len(),
{
    if n == order.len() {
        assert(order.subrange(0, n) =~= order);
    } else {
        assert(order.drop_last().subrange(0, n) =~= order.subrange(0, n));
        lemma_reaped_stays_over(run, order.drop_last(), n);
    }
}

/// Whatever arrives, as long as the broadcast goes on no more viewers are
/// direct than there are slots, every one of them has a sender, and the numbers
/// of senders are fresh.
pub proof fn event_keeps_the_owner_sound(s: OwnerState, event: Event, members: Option<Set<u32>>)
    requires
        s.sound(),
        s.next_peer < u64::MAX,
    ensures
        on_event(s, event, members).over || on_event(s, event, members).state.sound(),
{
    match event {
        Event::KeyFrame => {
            lemma_only_serving_matters(s, on_event(s, event, members).state);
        },
        Event::PeerEnded { target, .. } => {
            lemma_lost_is_sound(s, target);
        },
        Event::Signal { sender, kind, .. } => {
            match addressee(s, sender, kind, members) {
                Some(target) => {
                    lemma_request_is_sound(s, target);
                    lemma_departure_is_sound(s, target);
                },
                None => {},
            }
        },
    }
}

/// A sender that was replaced cannot take its successor down: news of one that
/// is not the current one of its target changes nothing.
pub proof fn stale_senders_are_ignored(
    s: OwnerState,
    target: u32,
    id: u64,
    error: Option<Seq<char>>,
)
    requires
        !s.peers.contains_key(target) || s.peers[target] != id,
    ensures
        on_peer_ended(s, target, id, error) == at_rest(s),
{
}

/// A new sender's number differs from that of every sender before it.
pub proof fn sender_numbers_are_fresh(s: OwnerState, target: u32, other: u32)
    requires
        s.sound(),
        s.next_peer < u64::MAX,
        s.peers.contains_key(other),
    ensures
        s.with_peer(target).peers[target] > s.peers[other],
{
}

/// Only members of the channel, on a server that relays for them, reach the
/// viewers' side; and only the server and our own session reach the server's.
pub proof fn strangers_change_nothing(
    s: OwnerState,
    sender: u32,
    kind: SignalType,
    payload: Seq<char>,
    members: Option<Set<u32>>,
)
    requires
        sender != 0,
        sender != s.own_session,
        !s.p2p_available || members is None || !members->0.contains(sender),
    ensures
        on_signal(s, sender, kind, payload, members) == at_rest(s),
{
}

/// A viewer that asks and is not refused has a sender of its own, and one that
/// is refused is told so.
pub proof fn every_request_is_answered(s: OwnerState, viewer: u32)
    requires
        s.sound(),
        s.next_peer < u64::MAX,
    ensures
        s.allocation.decision(viewer) == Serving::Direct ==> on_request(
            s,
            viewer,
        ).state.peers.contains_key(viewer),
        s.allocation.decision(viewer) != Serving::Direct ==> on_request(
            s,
            viewer,
        ).actions.contains(s.decline(viewer)),
{
    if s.allocation.decision(viewer) != Serving::Direct {
        assert(on_request(s, viewer).actions[0] == s.decline(viewer));
    }
}

/// A viewer that leaves frees its slot and its sender, in whatever way it
/// leaves.
pub proof fn leaving_frees_slot_and_sender(s: OwnerState, viewer: u32)
    requires
        s.sound(),
    ensures
        !on_departure(s, viewer).state.peers.contains_key(viewer),
        !on_departure(s, viewer).state.allocation.viewers.contains_key(viewer),
        on_departure(s, viewer).state.allocation.free() == s.allocation.free()
            + if s.allocation.holds_slot(viewer) {
            1int
        } else {
            0int
        },
{
    leaving_gives_back_the_slot(s.allocation, viewer);
}

/// A direct connection that is lost moves the viewer to the server and tells
/// it so, once.
pub proof fn a_lost_viewer_falls_back_once(s: OwnerState, viewer: u32)
    requires
        s.sound(),
        s.allocation.holds_slot(viewer),
    ensures
        ({
            let run = on_lost(s.without_peer(viewer), viewer);
            &&& run.actions.last() == s.decline(viewer)
            &&& run.state.allocation.free() == s.allocation.free() + 1
            &&& on_lost(run.state, viewer) == at_rest(run.state)
        }),
{
    a_failed_connection_frees_its_slot(s.allocation, viewer, viewer);
}

/// Key frames are only asked for when one is wanted and due, and then not
/// again until one is wanted anew.
pub proof fn key_frames_are_throttled(run: Run, due: bool)
    requires
        !run.over,
    ensures
        with_key_frame(run, due) != run ==> run.state.key_requested && due,
        run.state.key_requested && due ==> !with_key_frame(run, due).state.key_requested,
        with_key_frame(with_key_frame(run, due), due) == with_key_frame(run, due),
{
}

/// How long after a key frame the next one is asked for at the earliest, in
/// milliseconds.
pub const KEY_FRAME_INTERVAL_MS: u64 = 500;

/// Whether a key frame may be asked for, this long after the last one; none was
/// asked for yet where there is no time.
pub fn key_frame_due(since_last_ms: Option<u64>) -> (r: bool)
    ensures
        r == (since_last_ms is None || since_last_ms->0 >= KEY_FRAME_INTERVAL_MS),
        r == may_ask_again(since_last_ms),
{
    match since_last_ms {
        None => true,
        Some(ms) => ms >= KEY_FRAME_INTERVAL_MS,
    }
}

impl Owner {
    /// The owner of a broadcast that is about to start.
    pub fn new(
        broadcast_id: String,
        own_session: u32,
        p2p_available: bool,
        sfu_available: bool,
        settings: &ScreenShareSettings,
    ) -> (r: Self)
        ensures
            r@ == (OwnerState {
                broadcast_id: broadcast_id@,
                own_session,
                p2p_available,
                sfu_available,
                allocation: initial_allocation(*settings, p2p_available),
                peers: Map::empty(),
                members: Set::empty(),
                next_peer: 0,
                key_requested: false,
            }),
            r@.sound(),
    {
        Owner {
            broadcast_id,
            own_session,
            p2p_available,
            sfu_available,
            allocator: Allocator::new(settings, p2p_available),
            peers: HashMap::new(),
            members: HashSet::new(),
            next_peer: 0,
            key_requested: false,
        }
    }

    fn declined(&self, viewer: u32) -> (r: Action)
        ensures
            r@ == self@.decline(viewer),
    {
        Action::Send(
            Signal {
                target: viewer,
                kind: SignalType::P2pDecline,
                payload: decline_text(self.sfu_available),
            },
        )
    }

    fn announced(&self) -> (r: Action)
        ensures
            r@ == self@.announce(),
    {
        Action::Send(
            Signal {
                target: 0,
                kind: SignalType::Start,
                payload: announce_text(
                    self.broadcast_id.as_str(),
                    self.p2p_available,
                    self.sfu_available,
                ),
            },
        )
    }

    fn updated(&self, viewer: u32, forget: bool) -> (r: Action)
        requires
            self@.allocation.in_budget(),
        ensures
            r@ == self@.update(viewer, forget),
    {
        Action::Update(
            ViewerUpdate {
                viewer,
                forget,
                serving: self.allocator.serving(viewer),
                free_direct_slots: self.allocator.free_slots(),
            },
        )
    }

    fn add_peer(&mut self, target: u32, actions: &mut Vec<Action>)
        requires
            old(self)@.next_peer < u64::MAX,
        ensures
            final(self)@ == old(self)@.with_peer(target),
            acts(final(actions)@) == acts(old(actions)@).push(
                Act::AddPeer { target, id: (old(self)@.next_peer + 1) as u64 },
            ),
    {
        self.next_peer = self.next_peer + 1;
        self.peers.insert(target, self.next_peer);
        push_action(actions, Action::AddPeer { target, id: self.next_peer });
    }

    fn remove_peer(&mut self, target: u32, actions: &mut Vec<Action>)
        ensures
            final(self)@ == old(self)@.without_peer(target),
            acts(final(actions)@) == acts(old(actions)@) + old(self)@.removal(target),
    {
        let ghost before = acts(actions@);
        if self.peers.contains_key(&target) {
            self.peers.remove(&target);
            push_action(actions, Action::RemovePeer { target });
            assert(acts(actions@) =~= before + self@.without_peer(target).removal(target) + seq![
                Act::RemovePeer { target },
            ]);
        } else {
            assert(self@.peers.remove(target) =~= self@.peers);
            assert(before + Seq::<Act>::empty() =~= before);
        }
    }

    /// Whether a sender can still be given a number of its own.
    pub fn has_numbers_left(&self) -> (r: bool)
        ensures
            r == (self@.next_peer < u64::MAX),
    {
        self.next_peer < u64::MAX
    }

    /// Capture runs: announce the broadcast, and serve it through the server
    /// where that can forward it.
    ///
    /// `members` are the members of the channel, or `None` where the connection
    /// or the channel has changed meanwhile.  The actions are performed in
    /// order, the announcement first.
    pub fn begin(
        &mut self,
        cancelled: bool,
        members: Option<HashSet<u32>>,
        encoder_id: &str,
    ) -> (r: Result<(Codec, Vec<Action>), String>)
        requires
            old(self)@.sound(),
            old(self)@.next_peer < u64::MAX,
        ensures
            final(self)@.sound(),
            if cancelled {
                &&& r is Err
                &&& r->Err_0@ == "screen sharing cancelled"@
                &&& final(self)@ == old(self)@
            } else if members is None {
                &&& r is Err
                &&& r->Err_0@ == "screen-share connection changed"@
                &&& final(self)@ == old(self)@
            } else {
                let present = OwnerState { members: members->0@, ..old(self)@ };
                match codec_of_encoder(encoder_id@) {
                    None => {
                        &&& r is Err
                        &&& r->Err_0@ == "unsupported video codec"@
                        &&& final(self)@ == present
                    },
                    Some(codec) => {
                        &&& r is Ok
                        &&& r->Ok_0.0 == codec
                        &&& acts(r->Ok_0.1@) == if present.sfu_available {
                            seq![
                                present.announce(),
                                Act::AddPeer {
                                    target: 0,
                                    id: (present.next_peer + 1) as u64,
                                },
                            ]
                        } else {
                            seq![present.announce()]
                        }
                        &&& final(self)@ == if present.sfu_available {
                            present.with_peer(0)
                        } else {
                            present
                        }
                        &&& acts(r->Ok_0.1@) == begun(old(self)@, members->0@).actions
                        &&& final(self)@ == begun(old(self)@, members->0@).state
                    },
                }
            },
    {
        if cancelled {
            return Err("screen sharing cancelled".to_owned());
        }
        match members {
            None => Err("screen-share connection changed".to_owned()),
            Some(present) => {
                let ghost start = self@;
                self.members = present;
                proof {
                    lemma_only_serving_matters(start, self@);
                    lemma_new_peer_is_sound(self@, 0);
                }
                match Codec::from_encoder(encoder_id) {
                    None => Err("unsupported video codec".to_owned()),
                    Some(codec) => {
                        let mut actions: Vec<Action> = Vec::new();
                        assert(acts(actions@) =~= Seq::empty());
                        let announce = self.announced();
                        push_action(&mut actions, announce);
                        if self.sfu_available {
                            self.add_peer(0, &mut actions);
                        }
                        Ok((codec, actions))
                    },
                }
            },
        }
    }

    fn lost(&mut self, viewer: u32, actions: &mut Vec<Action>)
        requires
            old(self)@.allocation.in_budget(),
        ensures
            final(self)@ == on_lost(old(self)@, viewer).state,
            acts(final(actions)@) == acts(old(actions)@) + on_lost(old(self)@, viewer).actions,
    {
        let ghost before = acts(actions@);
        let ghost start = self@;
        if self.allocator.demote(viewer) {
            let update = self.updated(viewer, false);
            push_action(actions, update);
            let decline = self.declined(viewer);
            push_action(actions, decline);
            assert(acts(actions@) =~= before + on_lost(start, viewer).actions);
        } else {
            assert(before + Seq::<Act>::empty() =~= before);
        }
    }

    fn departed(&mut self, viewer: u32, actions: &mut Vec<Action>)
        requires
            old(self)@.allocation.in_budget(),
        ensures
            final(self)@ == on_departure(old(self)@, viewer).state,
            acts(final(actions)@) == acts(old(actions)@) + on_departure(
                old(self)@,
                viewer,
            ).actions,
    {
        let ghost before = acts(actions@);
        let ghost start = self@;
        self.remove_peer(viewer, actions);
        self.allocator.release(viewer);
        let update = self.updated(viewer, true);
        push_action(actions, update);
        assert(acts(actions@) =~= before + on_departure(start, viewer).actions);
    }

    fn requested(&mut self, viewer: u32, actions: &mut Vec<Action>)
        requires
            old(self)@.allocation.in_budget(),
            old(self)@.next_peer < u64::MAX,
        ensures
            final(self)@ == on_request(old(self)@, viewer).state,
            acts(final(actions)@) == acts(old(actions)@) + on_request(old(self)@, viewer).actions,
    {
        let ghost before = acts(actions@);
        let ghost start = self@;
        let serving = self.allocator.admit_viewer(viewer);
        if serving.is_direct() {
            if !self.peers.contains_key(&viewer) {
                self.add_peer(viewer, actions);
            }
        } else {
            let decline = self.declined(viewer);
            push_action(actions, decline);
        }
        let update = self.updated(viewer, false);
        push_action(actions, update);
        assert(acts(actions@) =~= before + on_request(start, viewer).actions);
    }

    fn addressee(&self, sender: u32, kind: SignalType, members: &Option<HashSet<u32>>) -> (r: Option<
        u32,
    >)
        ensures
            r == addressee(self@, sender, kind, set_view(*members)),
    {
        match kind {
            SignalType::SdpAnswer | SignalType::IceCandidate => {
                if sender == self.own_session || sender == 0 {
                    Some(0)
                } else {
                    None
                }
            },
            SignalType::P2pRequest | SignalType::P2pAnswer | SignalType::P2pIce
            | SignalType::P2pLeave => {
                let member = match members {
                    Some(m) => m.contains(&sender),
                    None => false,
                };
                if self.p2p_available && member {
                    Some(sender)
                } else {
                    None
                }
            },
            _ => None,
        }
    }

    fn signal(
        &mut self,
        sender: u32,
        kind: SignalType,
        payload: String,
        members: &Option<HashSet<u32>>,
        actions: &mut Vec<Action>,
    )
        requires
            old(self)@.sound(),
            old(self)@.next_peer < u64::MAX,
        ensures
            final(self)@ == on_signal(
                old(self)@,
                sender,
                kind,
                payload@,
                set_view(*members),
            ).state,
            acts(final(actions)@) == acts(old(actions)@) + on_signal(
                old(self)@,
                sender,
                kind,
                payload@,
                set_view(*members),
            ).actions,
    {
        let ghost before = acts(actions@);
        let ghost start = self@;
        assert(before + Seq::<Act>::empty() =~= before);
        if let Some(target) = self.addressee(sender, kind, members) {
            match kind {
                SignalType::P2pRequest => {
                    self.requested(target, actions);
                },
                SignalType::P2pLeave => {
                    self.departed(target, actions);
                },
                SignalType::SdpAnswer | SignalType::P2pAnswer => {
                    if self.peers.contains_key(&target) {
                        push_action(
                            actions,
                            Action::Deliver { target, message: Input::Answer(payload) },
                        );
                    }
                },
                _ => {
                    if self.peers.contains_key(&target) {
                        push_action(
                            actions,
                            Action::Deliver { target, message: Input::Ice(payload) },
                        );
                    }
                },
            }
        }
        assert(acts(actions@) =~= before + on_signal(
            start,
            sender,
            kind,
            payload@,
            set_view(*members),
        ).actions);
    }

    /// Handle an event, while these are the members of the channel.
    pub fn event(&mut self, event: Event, members: &Option<HashSet<u32>>) -> (r: Vec<Action>)
        requires
            old(self)@.sound(),
            old(self)@.next_peer < u64::MAX,
        ensures
            final(self)@ == on_event(old(self)@, event, set_view(*members)).state,
            acts(r@) == on_event(old(self)@, event, set_view(*members)).actions,
            !on_event(old(self)@, event, set_view(*members)).over ==> final(self)@.sound(),
    {
        let mut actions: Vec<Action> = Vec::new();
        assert(acts(actions@) =~= Seq::empty());
        proof {
            event_keeps_the_owner_sound(self@, event, set_view(*members));
        }
        let ghost start = self@;
        match event {
            Event::KeyFrame => {
                self.key_requested = true;
            },
            Event::PeerEnded { target, id, error } => {
                let current = match self.peers.get(&target) {
                    Some(number) => *number == id,
                    None => false,
                };
                if current {
                    self.remove_peer(target, &mut actions);
                    assert(acts(actions@) =~= seq![Act::RemovePeer { target }]);
                    if target == 0 {
                        let reason = match error {
                            Some(e) => e,
                            None => "SFU connection closed".to_owned(),
                        };
                        push_action(&mut actions, Action::Finish(Err(reason)));
                    } else {
                        self.lost(target, &mut actions);
                    }
                }
            },
            Event::Signal { sender, kind, payload } => {
                self.signal(sender, kind, payload, members, &mut actions);
            },
        }
        assert(acts(actions@) =~= on_event(start, event, set_view(*members)).actions);
        actions
    }

    fn members_gone(&self, current: &HashSet<u32>) -> (r: Vec<u32>)
        ensures
            lists_departed(r@, self@.members, current@),
    {
        let all = set_members(&self.members);
        let mut gone: Vec<u32> = Vec::new();
        let mut i: usize = 0;
        while i < all.len()
            invariant
                i <= all.len(),
                all@.no_duplicates(),
                all@.to_set() == self@.members,
                gone@.no_duplicates(),
                forall|m: u32| #[trigger]
                    gone@.contains(m) <==> all@.subrange(0, i as int).contains(m)
                        && !current@.contains(m),
            decreases all.len() - i,
        {
            let m: u32 = all[i];
            let ghost seen = all@.subrange(0, i as int);
            let ghost upto = all@.subrange(0, i + 1);
            let ghost before = gone@;
            assert(upto =~= seen.push(m));
            assert(!seen.contains(m));
            if !current.contains(&m) {
                gone.push(m);
            }
            proof {
                assert forall|x: u32| #[trigger] gone@.contains(x) <==> upto.contains(x)
                    && !current@.contains(x) by {
                    if seen.contains(x) {
                        let k = choose|k: int| 0 <= k < seen.len() && seen[k] == x;
                        assert(upto[k] == x);
                    }
                    if upto.contains(x) {
                        let k = choose|k: int| 0 <= k < upto.len() && upto[k] == x;
                        if k < i {
                            assert(seen[k] == x);
                        }
                    }
                    assert(upto[i as int] == m);
                    if before.contains(x) {
                        let k = choose|k: int| 0 <= k < before.len() && before[k] == x;
                        assert(gone@[k] == x);
                    }
                    if gone@.contains(x) {
                        let k = choose|k: int| 0 <= k < gone@.len() && gone@[k] == x;
                        if k < before.len() {
                            assert(before[k] == x);
                        }
                    }
                    if !current@.contains(m) {
                        assert(gone@[before.len() as int] == m);
                    }
                }
                assert(!before.contains(m));
            }
            i += 1;
        }
        proof {
            assert(all@.subrange(0, all@.len() as int) =~= all@);
            assert forall|m: u32| #[trigger] gone@.contains(m) <==> self@.members.contains(m)
                && !current@.contains(m) by {
                assert(all@.to_set().contains(m) <==> all@.contains(m));
            }
        }
        gone
    }

    fn someone_joined(&self, current: &HashSet<u32>) -> (r: bool)
        ensures
            r == exists|m: u32| #[trigger] current@.contains(m) && !self@.members.contains(m),
    {
        let all = set_members(current);
        let mut i: usize = 0;
        while i < all.len()
            invariant
                i <= all.len(),
                all@.to_set() == current@,
                forall|j: int|
                    0 <= j < i ==> self@.members.contains(#[trigger] all@[j]),
            decreases all.len() - i,
        {
            let m: u32 = all[i];
            if !self.members.contains(&m) {
                assert(all@.to_set().contains(m));
                assert(current@.contains(m));
                return true;
            }
            i += 1;
        }
        proof {
            assert forall|m: u32| #[trigger] current@.contains(m) implies self@.members.contains(
                m,
            ) by {
                assert(all@.to_set().contains(m));
                let k = choose|k: int| 0 <= k < all@.len() && all@[k] == m;
                assert(self@.members.contains(all@[k]));
            }
        }
        false
    }

    fn refresh_members(&mut self, current: HashSet<u32>, actions: &mut Vec<Action>) -> (order: Ghost<
        Seq<u32>,
    >)
        requires
            old(self)@.sound(),
            acts(old(actions)@) == Seq::<Act>::empty(),
        ensures
            lists_departed(order@, old(self)@.members, current@),
            final(self)@ == refreshed(old(self)@, current@, order@).state,
            acts(final(actions)@) == refreshed(old(self)@, current@, order@).actions,
            final(self)@.sound(),
    {
        let ghost start = self@;
        let joined = self.someone_joined(&current);
        let gone = self.members_gone(&current);
        let mut i: usize = 0;
        while i < gone.len()
            invariant
                i <= gone.len(),
                self@.sound(),
                self@ == departures(at_rest(start), gone@.subrange(0, i as int)).state,
                acts(actions@) == departures(
                    at_rest(start),
                    gone@.subrange(0, i as int),
                ).actions,
            decreases gone.len() - i,
        {
            assert(gone@.subrange(0, i + 1).drop_last() =~= gone@.subrange(0, i as int));
            proof {
                lemma_departure_is_sound(self@, gone@[i as int]);
            }
            self.departed(gone[i], actions);
            i += 1;
        }
        assert(gone@.subrange(0, gone@.len() as int) =~= gone@);
        let ghost left = self@;
        self.members = current;
        proof {
            lemma_only_serving_matters(left, self@);
        }
        if joined {
            let announce = self.announced();
            push_action(actions, announce);
        }
        Ghost(gone@)
    }

    fn reap(&mut self, finished: &Vec<u32>, actions: &mut Vec<Action>) -> (over: bool)
        requires
            old(self)@.sound(),
        ensures
            ({
                let run = reaped(
                    Run { state: old(self)@, actions: acts(old(actions)@), over: false },
                    finished@,
                );
                &&& final(self)@ == run.state
                &&& acts(final(actions)@) == run.actions
                &&& over == run.over
                &&& !over ==> final(self)@.sound()
            }),
    {
        let ghost begin = Run { state: self@, actions: acts(actions@), over: false };
        let mut i: usize = 0;
        while i < finished.len()
            invariant
                i <= finished.len(),
                self@.sound(),
                reaped(begin, finished@.subrange(0, i as int)) == (Run {
                    state: self@,
                    actions: acts(actions@),
                    over: false,
                }),
                begin == (Run {
                    state: old(self)@,
                    actions: acts(old(actions)@),
                    over: false,
                }),
            decreases finished.len() - i,
        {
            let target: u32 = finished[i];
            assert(finished@.subrange(0, i + 1).drop_last() =~= finished@.subrange(0, i as int));
            let ghost before = self@;
            let ghost so_far = acts(actions@);
            proof {
                lemma_lost_is_sound(self@, target);
            }
            if self.peers.contains_key(&target) {
                self.remove_peer(target, actions);
                assert(acts(actions@) =~= so_far.push(Act::RemovePeer { target }));
                if target == 0 {
                    push_action(actions, Action::Finish(Err("SFU sender stopped".to_owned())));
                    assert(acts(actions@) =~= so_far + on_finished(before, target).actions);
                    proof {
                        lemma_reaped_stays_over(begin, finished@, i + 1);
                    }
                    return true;
                }
                self.lost(target, actions);
                assert(acts(actions@) =~= so_far + on_finished(before, target).actions);
            } else {
                assert(so_far + Seq::<Act>::empty() =~= so_far);
            }
            i += 1;
        }
        assert(finished@.subrange(0, finished@.len() as int) =~= finished@);
        false
    }

    /// The regular look at everything.
    ///
    /// `stopped` is why capture has stopped, where it has; `members` are the
    /// members of the channel, or `None` where the connection or the channel has
    /// changed; `finished` are the targets of senders that have finished; and
    /// `key_frame_due` says whether the last key frame is long enough ago.
    ///
    /// The order in which several viewers that left at once are dealt with is
    /// not fixed.
    pub fn tick(
        &mut self,
        stopped: Option<Result<(), String>>,
        members: Option<HashSet<u32>>,
        finished: &Vec<u32>,
        key_frame_due: bool,
    ) -> (r: Vec<Action>)
        requires
            old(self)@.sound(),
        ensures
            exists|order: Seq<u32>|
                {
                    let run = #[trigger] on_tick(
                        old(self)@,
                        stop_view(stopped),
                        set_view(members),
                        order,
                        finished@,
                        key_frame_due,
                    );
                    &&& stopped is None && members is Some ==> lists_departed(
                        order,
                        old(self)@.members,
                        members->0@,
                    )
                    &&& final(self)@ == run.state
                    &&& acts(r@) == run.actions
                    &&& !run.over ==> final(self)@.sound()
                },
    {
        let mut actions: Vec<Action> = Vec::new();
        assert(acts(actions@) =~= Seq::empty());
        let ghost start = self@;
        match stopped {
            Some(result) => {
                push_action(&mut actions, Action::Finish(result));
                proof {
                    assert(on_tick(
                        start,
                        stop_view(stopped),
                        set_view(members),
                        Seq::empty(),
                        finished@,
                        key_frame_due,
                    ).actions =~= acts(actions@));
                }
                actions
            },
            None => match members {
                None => {
                    push_action(
                        &mut actions,
                        Action::Finish(
                            Err("screen-share connection or channel changed".to_owned()),
                        ),
                    );
                    proof {
                        assert(on_tick(
                            start,
                            stop_view(stopped),
                            set_view(members),
                            Seq::empty(),
                            finished@,
                            key_frame_due,
                        ).actions =~= acts(actions@));
                    }
                    actions
                },
                Some(current) => {
                    let ghost now = current@;
                    let order = self.refresh_members(current, &mut actions);
                    let over = self.reap(finished, &mut actions);
                    if !over && self.key_requested && key_frame_due {
                        self.key_requested = false;
                        push_action(&mut actions, Action::RequestKeyFrame);
                    }
                    proof {
                        assert(on_tick(
                            start,
                            stop_view(stopped),
                            set_view(members),
                            order@,
                            finished@,
                            key_frame_due,
                        ) == (Run { state: self@, actions: acts(actions@), over }));
                    }
                    actions
                },
            },
        }
    }

    /// The signal that ends the broadcast for the channel, where it has been
    /// announced.
    pub fn farewell(announced: bool) -> (r: Option<Signal>)
        ensures
            if announced {
                &&& r is Some
                &&& r->0@ == (Sent {
                    target: 0,
                    kind: SignalType::Stop,
                    payload: Seq::<char>::empty(),
                })
            } else {
                r is None
            },
            r is Some <==> goodbye(announced) is Some,
            r is Some ==> goodbye(announced) == Some(r->0@),
    {
        if announced {
            Some(Signal { target: 0, kind: SignalType::Stop, payload: String::new() })
        } else {
            None
        }
    }
}

/// Why capture has stopped, where it has.
pub open spec fn stop_view(stopped: Option<Result<(), String>>) -> Option<Option<Seq<char>>> {
    match stopped {
        None => None,
        Some(Ok(())) => Some(None),
        Some(Err(e)) => Some(Some(e@)),
    }
}

/// A message and an action mean what they are called.
pub proof fn actions_mean_what_they_are_called(text: String, target: u32, id: u64, signal: Signal)
    ensures
        Input::Answer(text)@ == Message::Answer(text@),
        Input::Ice(text)@ == Message::Ice(text@),
        (Action::Deliver { target, message: Input::Answer(text) })@ == (Act::Deliver {
            target,
            message: Message::Answer(text@),
        }),
        (Action::Deliver { target, message: Input::Ice(text) })@ == (Act::Deliver {
            target,
            message: Message::Ice(text@),
        }),
        (Action::AddPeer { target, id })@ == (Act::AddPeer { target, id }),
        (Action::RemovePeer { target })@ == (Act::RemovePeer { target }),
        Action::RequestKeyFrame@ == Act::RequestKeyFrame,
        Action::Finish(Ok(()))@ == Act::Finish(None),
        Action::Finish(Err(text))@ == Act::Finish(Some(text@)),
        Action::Send(signal)@ == Act::Send(
            Sent { target: signal.target, kind: signal.kind, payload: signal.payload@ },
        ),
{
}

/// What a viewer with a sender signals reaches that sender alone: its answer as
/// the answer, its candidates as candidates, word for word.
pub proof fn a_viewers_signals_reach_its_sender(
    s: OwnerState,
    viewer: u32,
    payload: String,
    members: Option<Set<u32>>,
)
    requires
        s.p2p_available,
        members is Some,
        members->0.contains(viewer),
        s.peers.contains_key(viewer),
    ensures
        ({
            let answer = on_event(
                s,
                Event::Signal { sender: viewer, kind: SignalType::P2pAnswer, payload },
                members,
            );
            let candidate = on_event(
                s,
                Event::Signal { sender: viewer, kind: SignalType::P2pIce, payload },
                members,
            );
            &&& answer.actions == seq![
                Act::Deliver { target: viewer, message: Message::Answer(payload@) },
            ]
            &&& candidate.actions == seq![
                Act::Deliver { target: viewer, message: Message::Ice(payload@) },
            ]
            &&& answer.state == s && !answer.over
            &&& candidate.state == s && !candidate.over
        }),
{
}

/// What the server signals reaches the server's sender, whether the server
/// speaks for itself or under our own session.
pub proof fn the_servers_signals_reach_its_sender(
    s: OwnerState,
    sender: u32,
    payload: String,
    members: Option<Set<u32>>,
)
    requires
        sender == 0 || sender == s.own_session,
        s.peers.contains_key(0),
    ensures
        ({
            let answer = on_event(
                s,
                Event::Signal { sender, kind: SignalType::SdpAnswer, payload },
                members,
            );
            let candidate = on_event(
                s,
                Event::Signal { sender, kind: SignalType::IceCandidate, payload },
                members,
            );
            &&& answer.actions == seq![
                Act::Deliver { target: 0, message: Message::Answer(payload@) },
            ]
            &&& candidate.actions == seq![
                Act::Deliver { target: 0, message: Message::Ice(payload@) },
            ]
            &&& answer.state == s && !answer.over
            &&& candidate.state == s && !candidate.over
        }),
{
}

/// A negotiation that nobody here conducts is not for us: without a sender for
/// it, an answer or a candidate changes nothing; and what only a broadcaster
/// sends is never taken for a viewer's signal.
pub proof fn signals_without_a_sender_change_nothing(
    s: OwnerState,
    sender: u32,
    kind: SignalType,
    payload: String,
    members: Option<Set<u32>>,
)
    requires
        ({
            ||| kind == SignalType::SdpAnswer && !s.peers.contains_key(0)
            ||| kind == SignalType::IceCandidate && !s.peers.contains_key(0)
            ||| kind == SignalType::P2pAnswer && !s.peers.contains_key(sender)
            ||| kind == SignalType::P2pIce && !s.peers.contains_key(sender)
            ||| kind == SignalType::Start
            ||| kind == SignalType::Stop
            ||| kind == SignalType::SdpOffer
            ||| kind == SignalType::P2pOffer
            ||| kind == SignalType::P2pDecline
        }),
    ensures
        ({
            let run = on_event(s, Event::Signal { sender, kind, payload }, members);
            &&& run.state == s
            &&& run.actions.len() == 0
            &&& !run.over
        }),
{
}

/// A signal of a direct connection counts only from a member of the channel,
/// and only where the server relays; one of the server's connection only from
/// the server or our own session.
pub proof fn signals_of_strangers_change_nothing(
    s: OwnerState,
    sender: u32,
    kind: SignalType,
    payload: String,
    members: Option<Set<u32>>,
)
    requires
        ({
            ||| (kind == SignalType::SdpAnswer || kind == SignalType::IceCandidate) && sender != 0
                && sender != s.own_session
            ||| (kind == SignalType::P2pRequest || kind == SignalType::P2pAnswer || kind
                == SignalType::P2pIce || kind == SignalType::P2pLeave) && (!s.p2p_available
                || members is None || !members->0.contains(sender))
        }),
    ensures
        ({
            let run = on_event(s, Event::Signal { sender, kind, payload }, members);
            &&& run.state == s
            &&& run.actions.len() == 0
            &&& !run.over
        }),
{
}

/// A newcomer that asks while a slot is free gets a sender of its own and is
/// shown as served directly, with one slot fewer left; nobody else is touched.
pub proof fn a_free_slot_goes_to_the_viewer_that_asks(
    s: OwnerState,
    viewer: u32,
    payload: String,
    members: Option<Set<u32>>,
)
    requires
        s.sound(),
        s.next_peer < u64::MAX,
        s.p2p_available,
        members is Some,
        members->0.contains(viewer),
        !s.allocation.viewers.contains_key(viewer),
        !s.peers.contains_key(viewer),
        s.allocation.slots > s.allocation.direct().len(),
    ensures
        ({
            let run = on_event(
                s,
                Event::Signal { sender: viewer, kind: SignalType::P2pRequest, payload },
                members,
            );
            let left = s.allocation.slots - s.allocation.direct().len() - 1;
            &&& run.actions == seq![
                Act::AddPeer { target: viewer, id: (s.next_peer + 1) as u64 },
                Act::Update(
                    ViewerUpdate {
                        viewer,
                        forget: false,
                        serving: Some(Serving::Direct),
                        free_direct_slots: left as u32,
                    },
                ),
            ]
            &&& !run.over
            &&& run.state.peers == s.peers.insert(viewer, (s.next_peer + 1) as u64)
            &&& run.state.next_peer == s.next_peer + 1
            &&& run.state.allocation.viewers == s.allocation.viewers.insert(
                viewer,
                Serving::Direct,
            )
            &&& run.state.members == s.members
            &&& run.state.key_requested == s.key_requested
        }),
{
    a_new_viewer_is_direct_exactly_when_a_slot_is_free(s.allocation, viewer);
    held_and_free_slots_make_up_the_budget(s.allocation, viewer);
    let run = on_event(
        s,
        Event::Signal { sender: viewer, kind: SignalType::P2pRequest, payload },
        members,
    );
    assert(run.actions[1] == run.actions.last());
}

/// A viewer that asks when no slot is free gets no sender: it is declined, with
/// word whether the server can serve it, and shown with the reason.
pub proof fn a_viewer_without_a_slot_is_declined(
    s: OwnerState,
    viewer: u32,
    payload: String,
    members: Option<Set<u32>>,
)
    requires
        s.sound(),
        s.next_peer < u64::MAX,
        s.p2p_available,
        members is Some,
        members->0.contains(viewer),
        !s.allocation.viewers.contains_key(viewer),
        s.allocation.slots == s.allocation.direct().len(),
    ensures
        ({
            let run = on_event(
                s,
                Event::Signal { sender: viewer, kind: SignalType::P2pRequest, payload },
                members,
            );
            let serving = Serving::Sfu {
                reason: if s.allocation.slots == 0 {
                    s.allocation.disabled->0
                } else {
                    SfuReason::NoSlots
                },
            };
            &&& run.actions == seq![
                Act::Send(
                    Sent {
                        target: viewer,
                        kind: SignalType::P2pDecline,
                        payload: decline_payload(s.sfu_available),
                    },
                ),
                Act::Update(
                    ViewerUpdate {
                        viewer,
                        forget: false,
                        serving: Some(serving),
                        free_direct_slots: 0,
                    },
                ),
            ]
            &&& !run.over
            &&& run.state.peers == s.peers
            &&& run.state.next_peer == s.next_peer
            &&& run.state.allocation.viewers == s.allocation.viewers.insert(viewer, serving)
            &&& run.state.members == s.members
        }),
{
    a_new_viewer_is_direct_exactly_when_a_slot_is_free(s.allocation, viewer);
    a_refusal_says_why(s.allocation, viewer);
    held_and_free_slots_make_up_the_budget(s.allocation, viewer);
}

/// A viewer that asks again is answered as before: one with a sender keeps it
/// and gets no second one, one that goes through the server is declined again.
pub proof fn a_viewer_that_asks_again_is_answered_as_before(
    s: OwnerState,
    viewer: u32,
    payload: String,
    members: Option<Set<u32>>,
)
    requires
        s.sound(),
        s.next_peer < u64::MAX,
        s.p2p_available,
        members is Some,
        members->0.contains(viewer),
        s.allocation.viewers.contains_key(viewer),
    ensures
        ({
            let run = on_event(
                s,
                Event::Signal { sender: viewer, kind: SignalType::P2pRequest, payload },
                members,
            );
            let shown = Act::Update(
                ViewerUpdate {
                    viewer,
                    forget: false,
                    serving: Some(s.allocation.viewers[viewer]),
                    free_direct_slots: (s.allocation.slots - s.allocation.direct().len()) as u32,
                },
            );
            &&& run.state == s
            &&& !run.over
            &&& s.allocation.viewers[viewer] == Serving::Direct ==> run.actions == seq![shown]
            &&& s.allocation.viewers[viewer] != Serving::Direct ==> run.actions == seq![
                Act::Send(
                    Sent {
                        target: viewer,
                        kind: SignalType::P2pDecline,
                        payload: decline_payload(s.sfu_available),
                    },
                ),
                shown,
            ]
        }),
{
    a_known_viewer_keeps_its_place(s.allocation, viewer, s.allocation.viewers[viewer]);
    held_and_free_slots_make_up_the_budget(s.allocation, viewer);
    if s.allocation.viewers[viewer] == Serving::Direct {
        assert(s.allocation.holds_slot(viewer));
    }
}

/// A viewer that leaves loses its sender and its entry, and its slot is free
/// again; nobody else is touched.
pub proof fn a_viewer_that_leaves_is_forgotten(
    s: OwnerState,
    viewer: u32,
    payload: String,
    members: Option<Set<u32>>,
)
    requires
        s.sound(),
        s.p2p_available,
        members is Some,
        members->0.contains(viewer),
    ensures
        ({
            let run = on_event(
                s,
                Event::Signal { sender: viewer, kind: SignalType::P2pLeave, payload },
                members,
            );
            let free = s.allocation.slots - s.allocation.direct().len() + if s.peers.contains_key(
                viewer,
            ) && s.allocation.holds_slot(viewer) {
                1int
            } else {
                0int
            };
            let forgotten = Act::Update(
                ViewerUpdate {
                    viewer,
                    forget: true,
                    serving: None,
                    free_direct_slots: free as u32,
                },
            );
            &&& run.actions == if s.peers.contains_key(viewer) {
                seq![Act::RemovePeer { target: viewer }, forgotten]
            } else {
                seq![forgotten]
            }
            &&& !run.over
            &&& run.state.peers == s.peers.remove(viewer)
            &&& run.state.allocation.viewers == s.allocation.viewers.remove(viewer)
            &&& run.state.next_peer == s.next_peer
            &&& run.state.members == s.members
            &&& run.state.key_requested == s.key_requested
        }),
{
    leaving_gives_back_the_slot(s.allocation, viewer);
    held_and_free_slots_make_up_the_budget(s.allocation, viewer);
    let run = on_event(
        s,
        Event::Signal { sender: viewer, kind: SignalType::P2pLeave, payload },
        members,
    );
    assert(run.actions =~= if s.peers.contains_key(viewer) {
        seq![Act::RemovePeer { target: viewer }, run.actions.last()]
    } else {
        seq![run.actions.last()]
    });
}

/// A viewer whose sender has failed is moved to the server: its sender goes, it
/// is shown with the reason, and it is told, so that it need not wait.
pub proof fn a_viewer_whose_sender_failed_goes_to_the_server(
    s: OwnerState,
    viewer: u32,
    error: Option<String>,
    members: Option<Set<u32>>,
)
    requires
        s.sound(),
        viewer != 0,
        s.peers.contains_key(viewer),
        s.allocation.holds_slot(viewer),
    ensures
        ({
            let run = on_event(
                s,
                Event::PeerEnded { target: viewer, id: s.peers[viewer], error },
                members,
            );
            let failed = Serving::Sfu { reason: SfuReason::DirectFailed };
            &&& run.actions == seq![
                Act::RemovePeer { target: viewer },
                Act::Update(
                    ViewerUpdate {
                        viewer,
                        forget: false,
                        serving: Some(failed),
                        free_direct_slots: (s.allocation.slots - s.allocation.direct().len()
                            + 1) as u32,
                    },
                ),
                Act::Send(
                    Sent {
                        target: viewer,
                        kind: SignalType::P2pDecline,
                        payload: decline_payload(s.sfu_available),
                    },
                ),
            ]
            &&& !run.over
            &&& run.state.peers == s.peers.remove(viewer)
            &&& run.state.allocation.viewers == s.allocation.viewers.insert(viewer, failed)
            &&& run.state.members == s.members
        }),
{
    a_failed_connection_frees_its_slot(s.allocation, viewer, viewer);
    held_and_free_slots_make_up_the_budget(s.allocation, viewer);
    let run = on_event(
        s,
        Event::PeerEnded { target: viewer, id: s.peers[viewer], error },
        members,
    );
    assert(run.actions =~= seq![run.actions[0], run.actions[1], run.actions[2]]);
}

/// Without the server's sender there is no broadcast: its end is the end of the
/// broadcast, for the reason it gives.
pub proof fn the_servers_sender_ends_the_broadcast(
    s: OwnerState,
    error: Option<String>,
    members: Option<Set<u32>>,
)
    requires
        s.peers.contains_key(0),
    ensures
        ({
            let run = on_event(
                s,
                Event::PeerEnded { target: 0, id: s.peers[0], error },
                members,
            );
            &&& run.over
            &&& run.actions == seq![
                Act::RemovePeer { target: 0 },
                Act::Finish(
                    Some(
                        if error is Some {
                            error->0@
                        } else {
                            "SFU connection closed"@
                        },
                    ),
                ),
            ]
        }),
{
}

/// Of a sender that has been replaced, or that is gone, nothing is heard any
/// more.
pub proof fn a_replaced_sender_is_not_heard(
    s: OwnerState,
    target: u32,
    id: u64,
    error: Option<String>,
    members: Option<Set<u32>>,
)
    requires
        !s.peers.contains_key(target) || s.peers[target] != id,
    ensures
        ({
            let run = on_event(s, Event::PeerEnded { target, id, error }, members);
            &&& run.state == s
            &&& run.actions.len() == 0
            &&& !run.over
        }),
{
}

/// A request for a key frame is kept until it is due, and changes nothing else.
pub proof fn a_wish_for_a_key_frame_is_kept(s: OwnerState, members: Option<Set<u32>>)
    ensures
        ({
            let run = on_event(s, Event::KeyFrame, members);
            &&& run.actions.len() == 0
            &&& !run.over
            &&& run.state.key_requested
            &&& (OwnerState { key_requested: s.key_requested, ..run.state }) == s
        }),
{
}

/// Capture that has stopped ends the broadcast, with its error where there is
/// one, and nothing else is done.
pub proof fn the_end_of_capture_ends_the_broadcast(
    s: OwnerState,
    error: Option<Seq<char>>,
    members: Option<Set<u32>>,
    departed: Seq<u32>,
    finished: Seq<u32>,
    due: bool,
)
    ensures
        on_tick(s, Some(error), members, departed, finished, due).over,
        on_tick(s, Some(error), members, departed, finished, due).actions == seq![
            Act::Finish(error),
        ],
        on_tick(s, None, None, departed, finished, due).over,
        on_tick(s, None, None, departed, finished, due).actions == seq![
            Act::Finish(Some("screen-share connection or channel changed"@)),
        ],
{
}

proof fn lemma_departures(s: OwnerState, order: Seq<u32>)
    requires
        s.sound(),
    ensures
        ({
            let run = departures(at_rest(s), order);
            &&& !run.over
            &&& run.state.sound()
            &&& forall|v: u32| #[trigger]
                run.state.peers.contains_key(v) <==> s.peers.contains_key(v) && !order.contains(v)
            &&& forall|v: u32| #[trigger]
                run.state.peers.contains_key(v) ==> run.state.peers[v] == s.peers[v]
            &&& forall|v: u32| #[trigger]
                run.state.allocation.viewers.contains_key(v)
                    <==> s.allocation.viewers.contains_key(v) && !order.contains(v)
            &&& forall|v: u32| #[trigger]
                run.state.allocation.viewers.contains_key(v)
                    ==> run.state.allocation.viewers[v] == s.allocation.viewers[v]
            &&& run.state == (OwnerState {
                peers: run.state.peers,
                allocation: run.state.allocation,
                ..s
            })
            &&& run.state.allocation.slots == s.allocation.slots
            &&& run.state.allocation.disabled == s.allocation.disabled
            &&& forall|i: int|
                0 <= i < run.actions.len() ==> {
                    ||| (#[trigger] run.actions[i]) is RemovePeer && order.contains(
                        run.actions[i]->RemovePeer_target,
                    )
                    ||| run.actions[i] is Update && order.contains(
                        run.actions[i]->Update_0.viewer,
                    ) && run.actions[i]->Update_0.forget && run.actions[i]->Update_0.serving is None
                }
            &&& forall|v: u32| #[trigger]
                order.contains(v) && s.peers.contains_key(v) ==> run.actions.contains(
                    Act::RemovePeer { target: v },
                )
        }),
    decreases order.len(),
{
    if order.len() == 0 {
        assert forall|v: u32| !(#[trigger] order.contains(v)) by {}
    } else {
        let head = order.drop_last();
        let last = order.last();
        lemma_departures(s, head);
        let before = departures(at_rest(s), head);
        let step = on_departure(before.state, last);
        let run = departures(at_rest(s), order);
        lemma_departure_is_sound(before.state, last);
        assert(order =~= head.push(last));
        assert forall|v: u32| #[trigger] order.contains(v) <==> head.contains(v) || v == last by {
            if head.contains(v) {
                let k = choose|k: int| 0 <= k < head.len() && head[k] == v;
                assert(order[k] == v);
            }
            if order.contains(v) {
                let k = choose|k: int| 0 <= k < order.len() && order[k] == v;
                if k < head.len() {
                    assert(head[k] == v);
                }
            }
            assert(order[order.len() - 1] == last);
        }
        assert(run.actions == before.actions + step.actions);
        assert forall|i: int| 0 <= i < run.actions.len() implies {
            ||| (#[trigger] run.actions[i]) is RemovePeer && order.contains(
                run.actions[i]->RemovePeer_target,
            )
            ||| run.actions[i] is Update && order.contains(run.actions[i]->Update_0.viewer)
                && run.actions[i]->Update_0.forget && run.actions[i]->Update_0.serving is None
        } by {
            if i < before.actions.len() {
                assert(run.actions[i] == before.actions[i]);
            } else {
                assert(run.actions[i] == step.actions[i - before.actions.len()]);
            }
        }
        assert forall|v: u32| #[trigger]
            order.contains(v) && s.peers.contains_key(v) implies run.actions.contains(
            Act::RemovePeer { target: v },
        ) by {
            if head.contains(v) {
                let k = before.actions.index_of(Act::RemovePeer { target: v });
                assert(run.actions[k] == before.actions[k]);
            } else {
                assert(before.state.peers.contains_key(v));
                assert(step.actions[0] == (Act::RemovePeer { target: v }));
                assert(run.actions[before.actions.len() as int] == step.actions[0]);
            }
        }
    }
}

/// Those who have left the channel are forgotten at the next regular look,
/// senders and slots included, and all others stay as they were.
pub proof fn those_who_left_are_forgotten(
    s: OwnerState,
    current: Set<u32>,
    departed: Seq<u32>,
    due: bool,
)
    requires
        s.sound(),
        lists_departed(departed, s.members, current),
    ensures
        ({
            let run = on_tick(s, None, Some(current), departed, Seq::empty(), due);
            &&& !run.over
            &&& run.state.members == current
            &&& forall|v: u32| #[trigger]
                run.state.peers.contains_key(v) <==> s.peers.contains_key(v) && (current.contains(
                    v,
                ) || !s.members.contains(v))
            &&& forall|v: u32| #[trigger]
                run.state.peers.contains_key(v) ==> run.state.peers[v] == s.peers[v]
            &&& forall|v: u32| #[trigger]
                run.state.allocation.viewers.contains_key(v)
                    <==> s.allocation.viewers.contains_key(v) && (current.contains(v)
                    || !s.members.contains(v))
            &&& forall|v: u32| #[trigger]
                run.state.allocation.viewers.contains_key(v)
                    ==> run.state.allocation.viewers[v] == s.allocation.viewers[v]
            &&& forall|v: u32|
                s.members.contains(v) && !current.contains(v) && #[trigger] s.peers.contains_key(
                    v,
                ) ==> run.actions.contains(Act::RemovePeer { target: v })
        }),
{
    lemma_departures(s, departed);
    let gone = departures(at_rest(s), departed);
    let kept = refreshed(s, current, departed);
    let run = on_tick(s, None, Some(current), departed, Seq::empty(), due);
    assert forall|v: u32|
        s.members.contains(v) && !current.contains(v) && #[trigger] s.peers.contains_key(
            v,
        ) implies run.actions.contains(Act::RemovePeer { target: v }) by {
        assert(departed.contains(v));
        let k = gone.actions.index_of(Act::RemovePeer { target: v });
        assert(kept.actions[k] == gone.actions[k]);
        assert(run.actions[k] == gone.actions[k]);
    }
    assert forall|v: u32| #[trigger] run.state.peers.contains_key(v) <==> s.peers.contains_key(v)
        && (current.contains(v) || !s.members.contains(v)) by {
        assert(gone.state.peers.contains_key(v) <==> s.peers.contains_key(v) && !departed.contains(
            v,
        ));
    }
    assert forall|v: u32| #[trigger]
        run.state.allocation.viewers.contains_key(v) <==> s.allocation.viewers.contains_key(v) && (
    current.contains(v) || !s.members.contains(v)) by {
        assert(gone.state.allocation.viewers.contains_key(v)
            <==> s.allocation.viewers.contains_key(v) && !departed.contains(v));
    }
    assert forall|v: u32| #[trigger] run.state.peers.contains_key(v) implies run.state.peers[v]
        == s.peers[v] by {
        assert(gone.state.peers.contains_key(v));
    }
    assert forall|v: u32| #[trigger]
        run.state.allocation.viewers.contains_key(v) implies run.state.allocation.viewers[v]
        == s.allocation.viewers[v] by {
        assert(gone.state.allocation.viewers.contains_key(v));
    }
}

/// The channel is told of the broadcast again exactly when somebody has come
/// who was not there at the last look.
pub proof fn newcomers_are_told_of_the_broadcast(
    s: OwnerState,
    current: Set<u32>,
    departed: Seq<u32>,
    due: bool,
)
    requires
        s.sound(),
        lists_departed(departed, s.members, current),
    ensures
        on_tick(s, None, Some(current), departed, Seq::empty(), due).actions.contains(
            Act::Send(
                Sent {
                    target: 0,
                    kind: SignalType::Start,
                    payload: announcement(
                        json_string(s.broadcast_id),
                        s.p2p_available,
                        s.sfu_available,
                    ),
                },
            ),
        ) <==> exists|m: u32| #[trigger] current.contains(m) && !s.members.contains(m),
{
    lemma_departures(s, departed);
    let gone = departures(at_rest(s), departed);
    let kept = refreshed(s, current, departed);
    let run = on_tick(s, None, Some(current), departed, Seq::empty(), due);
    let told = Act::Send(
        Sent {
            target: 0,
            kind: SignalType::Start,
            payload: announcement(json_string(s.broadcast_id), s.p2p_available, s.sfu_available),
        },
    );
    if exists|m: u32| #[trigger] current.contains(m) && !s.members.contains(m) {
        let last = gone.actions.len() as int;
        assert(kept.actions[last] == told);
        assert(run.actions[last] == told);
    } else {
        assert(kept.actions == gone.actions);
        if run.actions.contains(told) {
            let k = run.actions.index_of(told);
            if k < gone.actions.len() {
                assert(run.actions[k] == gone.actions[k]);
            }
        }
    }
}

/// The encoder is asked for a key frame at a regular look exactly when one is
/// wanted and due, and then only once; the wish stays where it is not due.
pub proof fn a_key_frame_is_asked_for_when_wanted_and_due(
    s: OwnerState,
    current: Set<u32>,
    departed: Seq<u32>,
    due: bool,
)
    requires
        s.sound(),
        lists_departed(departed, s.members, current),
    ensures
        ({
            let run = on_tick(s, None, Some(current), departed, Seq::empty(), due);
            &&& run.actions.contains(Act::RequestKeyFrame) <==> s.key_requested && due
            &&& run.state.key_requested <==> s.key_requested && !due
        }),
{
    lemma_departures(s, departed);
    let gone = departures(at_rest(s), departed);
    let kept = refreshed(s, current, departed);
    let run = on_tick(s, None, Some(current), departed, Seq::empty(), due);
    if s.key_requested && due {
        assert(run.actions[kept.actions.len() as int] == Act::RequestKeyFrame);
    } else if run.actions.contains(Act::RequestKeyFrame) {
        let k = run.actions.index_of(Act::RequestKeyFrame);
        if k < gone.actions.len() {
            assert(kept.actions[k] == gone.actions[k]);
        }
    }
}

/// A sender that is found finished is treated as one that failed: the server's
/// ends the broadcast, a viewer's moves that viewer to the server.
pub proof fn a_finished_sender_counts_as_failed(s: OwnerState, viewer: u32, due: bool)
    requires
        s.sound(),
        viewer != 0,
    ensures
        ({
            let run = on_tick(s, None, Some(s.members), Seq::empty(), seq![0u32], due);
            s.peers.contains_key(0) ==> {
                &&& run.over
                &&& run.actions == seq![
                    Act::RemovePeer { target: 0 },
                    Act::Finish(Some("SFU sender stopped"@)),
                ]
            }
        }),
        ({
            let run = on_tick(s, None, Some(s.members), Seq::empty(), seq![viewer], due);
            let failed = Serving::Sfu { reason: SfuReason::DirectFailed };
            s.peers.contains_key(viewer) && s.allocation.holds_slot(viewer) ==> {
                &&& !run.over
                &&& run.actions.len() >= 3
                &&& run.actions.subrange(0, 3) == seq![
                    Act::RemovePeer { target: viewer },
                    Act::Update(
                        ViewerUpdate {
                            viewer,
                            forget: false,
                            serving: Some(failed),
                            free_direct_slots: (s.allocation.slots - s.allocation.direct().len()
                                + 1) as u32,
                        },
                    ),
                    Act::Send(
                        Sent {
                            target: viewer,
                            kind: SignalType::P2pDecline,
                            payload: decline_payload(s.sfu_available),
                        },
                    ),
                ]
                &&& run.state.peers == s.peers.remove(viewer)
                &&& run.state.allocation.viewers == s.allocation.viewers.insert(viewer, failed)
            }
        }),
        !s.peers.contains_key(viewer) ==> on_tick(
            s,
            None,
            Some(s.members),
            Seq::empty(),
            seq![viewer],
            false,
        ).actions.len() == 0,
{
    reveal_with_fuel(reaped, 2);
    let start = refreshed(s, s.members, Seq::empty());
    assert(start.state == s);
    assert(start.actions =~= Seq::empty());
    assert(seq![0u32].drop_last() =~= Seq::empty());
    assert(seq![viewer].drop_last() =~= Seq::empty());
    if s.peers.contains_key(viewer) && s.allocation.holds_slot(viewer) {
        a_failed_connection_frees_its_slot(s.allocation, viewer, viewer);
        held_and_free_slots_make_up_the_budget(s.allocation, viewer);
        let run = on_tick(s, None, Some(s.members), Seq::empty(), seq![viewer], due);
        assert(run.actions.subrange(0, 3) =~= seq![
            run.actions[0],
            run.actions[1],
            run.actions[2],
        ]);
    }
    assert(on_tick(s, None, Some(s.members), Seq::empty(), seq![0u32], due).actions
        =~= on_finished(s, 0).actions || !s.peers.contains_key(0));
}

/// A broadcast is announced before it is served, and served through the server
/// exactly where that can forward it.
pub proof fn a_broadcast_begins_with_its_announcement(s: OwnerState, present: Set<u32>)
    requires
        s.next_peer < u64::MAX,
    ensures
        begun(s, present).state.members == present,
        begun(s, present).actions[0] == Act::Send(
            Sent {
                target: 0,
                kind: SignalType::Start,
                payload: announcement(
                    json_string(s.broadcast_id),
                    s.p2p_available,
                    s.sfu_available,
                ),
            },
        ),
        s.sfu_available ==> begun(s, present).actions.len() == 2 && begun(s, present).actions[1]
            == (Act::AddPeer { target: 0, id: (s.next_peer + 1) as u64 }) && begun(
            s,
            present,
        ).state.peers == s.peers.insert(0, (s.next_peer + 1) as u64),
        !s.sfu_available ==> begun(s, present).actions.len() == 1 && begun(s, present).state.peers
            == s.peers,
        begun(s, present).state.allocation == s.allocation,
{
}

/// Whether a key frame may be asked for, this long after the last request.
pub open spec fn may_ask_again(since_last_ms: Option<u64>) -> bool {
    match since_last_ms {
        None => true,
        Some(ms) => ms >= 500,
    }
}

/// What the channel is told at the end of a broadcast.
pub open spec fn goodbye(announced: bool) -> Option<Sent> {
    if announced {
        Some(Sent { target: 0, kind: SignalType::Stop, payload: Seq::<char>::empty() })
    } else {
        None
    }
}

/// Key frames are asked for twice a second at most, the first at once.
pub proof fn key_frames_are_asked_for_twice_a_second(ms: u64)
    ensures
        may_ask_again(None),
        may_ask_again(Some(ms)) <==> 2 * ms >= 1000,
{
}

/// The channel learns of the end of a broadcast exactly where it has learned of
/// its beginning.
pub proof fn the_channel_learns_of_the_end()
    ensures
        goodbye(false) is None,
        goodbye(true) is Some,
        goodbye(true)->0.target == 0,
        goodbye(true)->0.kind == SignalType::Stop,
        goodbye(true)->0.payload.len() == 0,
{
}

} // verus!
