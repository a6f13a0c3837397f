//! One sender: negotiation, candidates and the choice of frames.
//!
//! A sender serves one viewer, or the server.  It is a state machine of its
//! own, so a slow viewer never holds up another.

use vstd::prelude::*;

use crate::media::encoder::text_view;
use crate::text::texts;

use super::status::{Sent, Signal, SignalType};

verus! {

/// How many candidates are kept while there is no answer yet.
pub const MAX_PENDING_ICE: usize = 64;

/// The state of the connection, as far as it matters.
#[derive(Debug, Clone, Copy, PartialEq, Eq, Structural)]
pub enum LinkState {
    /// It is up.
    Connected,
    /// It has failed, is disconnected or closed.
    Lost,
    /// Anything in between.
    Pending,
}

/// What a sender learns.
#[derive(Debug)]
pub enum PeerEvent {
    /// The time to connect is over.
    TimedOut,
    /// The far end's answer.
    Answer(String),
    /// A candidate of the far end.
    Ice(String),
    /// No more messages will come.
    InputClosed,
    /// A candidate of our own.
    LocalIce(String),
    /// The connection's state has changed.
    Link(LinkState),
    /// The connection will say no more.
    LinkClosed,
    /// Feedback from the receiver.
    Feedback {
        /// Whether it asks for a key frame.
        key_frame: bool,
    },
    /// No more feedback will come.
    FeedbackClosed,
    /// A frame to send.
    Frame {
        /// Whether it is a key frame.
        is_key: bool,
    },
    /// Frames were lost because this sender was too slow.
    Lagged,
    /// No more frames will come.
    FramesClosed,
}

/// What a sender wants done.
#[derive(Debug)]
pub enum PeerAction {
    /// Apply the far end's answer; a failure ends the sender.
    AcceptAnswer(String),
    /// Add a candidate of the far end; a failure ends the sender.
    AddIce(String),
    /// Send a signal; a failure ends the sender.
    Send(Signal),
    /// Ask the owner for a key frame.
    KeyFrame,
    /// Send the frame.
    SendFrame,
    /// End, with an error where there is one.
    Finish(Result<(), String>),
}

/// What an action says.
#[verifier::ext_equal]
pub enum PeerAct {
    /// Apply the far end's answer.
    AcceptAnswer(Seq<char>),
    /// Add a candidate of the far end.
    AddIce(Seq<char>),
    /// Send a signal.
    Send(Sent),
    /// Ask the owner for a key frame.
    KeyFrame,
    /// Send the frame.
    SendFrame,
    /// End, with an error where there is one.
    Finish(Option<Seq<char>>),
}

impl View for PeerAction {
    type V = PeerAct;

    open spec fn view(&self) -> PeerAct {
        match self {
            PeerAction::AcceptAnswer(sdp) => PeerAct::AcceptAnswer(sdp@),
            PeerAction::AddIce(candidate) => PeerAct::AddIce(candidate@),
            PeerAction::Send(signal) => PeerAct::Send(signal@),
            PeerAction::KeyFrame => PeerAct::KeyFrame,
            PeerAction::SendFrame => PeerAct::SendFrame,
            PeerAction::Finish(result) => PeerAct::Finish(
                match result {
                    Ok(()) => None,
                    Err(e) => Some(e@),
                },
            ),
        }
    }
}

/// The actions of a list.
pub open spec fn peer_acts(actions: Seq<PeerAction>) -> Seq<PeerAct> {
    actions.map_values(|a: PeerAction| a@)
}

/// What a sender knows.
#[verifier::ext_equal]
pub struct Link {
    /// Whom it serves, or 0 for the server.
    pub target: u32,
    /// Whether the connection is up.
    pub connected: bool,
    /// Whether the far end has answered.
    pub answered: bool,
    /// Whether frames are held back until a key frame.
    pub waiting_key: bool,
    /// Whether feedback may still come.
    pub feedback_open: bool,
    /// Candidates that came before the answer.
    pub pending_ice: Seq<Seq<char>>,
}

/// The signal to a target: one kind through the server, another directly.
pub open spec fn signal_of(
    target: u32,
    sfu: SignalType,
    direct: SignalType,
    payload: Seq<char>,
) -> Sent {
    Sent {
        target,
        kind: if target == 0 {
            sfu
        } else {
            direct
        },
        payload,
    }
}

/// Each of these candidates is added.
pub open spec fn additions(candidates: Seq<Seq<char>>) -> Seq<PeerAct> {
    candidates.map_values(|c: Seq<char>| PeerAct::AddIce(c))
}

/// What an event does to a sender.
pub open spec fn link_after(l: Link, event: PeerEvent) -> Link {
    match event {
        PeerEvent::Answer(_) => if l.answered {
            l
        } else {
            Link { answered: true, pending_ice: Seq::empty(), ..l }
        },
        PeerEvent::Ice(candidate) => if !l.answered && l.pending_ice.len() < MAX_PENDING_ICE {
            Link { pending_ice: l.pending_ice.push(candidate@), ..l }
        } else {
            l
        },
        PeerEvent::Link(LinkState::Connected) => Link { connected: true, ..l },
        PeerEvent::FeedbackClosed => Link { feedback_open: false, ..l },
        PeerEvent::Frame { is_key } => if l.connected && l.answered && (is_key || !l.waiting_key) {
            Link { waiting_key: false, ..l }
        } else {
            l
        },
        PeerEvent::Lagged => Link { waiting_key: true, ..l },
        _ => l,
    }
}

/// What a sender does on an event.
pub open spec fn link_actions(l: Link, event: PeerEvent) -> Seq<PeerAct> {
    match event {
        PeerEvent::TimedOut => if l.connected {
            Seq::empty()
        } else {
            seq![PeerAct::Finish(Some("WebRTC connection timed out after 20 seconds"@))]
        },
        PeerEvent::Answer(sdp) => if l.answered {
            Seq::empty()
        } else {
            seq![PeerAct::AcceptAnswer(sdp@)] + additions(l.pending_ice)
        },
        PeerEvent::Ice(candidate) => if l.answered {
            seq![PeerAct::AddIce(candidate@)]
        } else if l.pending_ice.len() < MAX_PENDING_ICE {
            Seq::empty()
        } else {
            seq![PeerAct::Finish(Some("too many pending ICE candidates"@))]
        },
        PeerEvent::InputClosed => seq![PeerAct::Finish(None)],
        PeerEvent::LocalIce(candidate) => seq![
            PeerAct::Send(
                signal_of(
                    l.target,
                    SignalType::IceCandidate,
                    SignalType::P2pIce,
                    candidate@,
                ),
            ),
        ],
        PeerEvent::Link(LinkState::Connected) => seq![PeerAct::KeyFrame],
        PeerEvent::Link(LinkState::Lost) => seq![
            PeerAct::Finish(Some("WebRTC connection lost"@)),
        ],
        PeerEvent::Link(LinkState::Pending) => Seq::empty(),
        PeerEvent::LinkClosed => seq![PeerAct::Finish(None)],
        PeerEvent::Feedback { key_frame } => if key_frame {
            seq![PeerAct::KeyFrame]
        } else {
            Seq::empty()
        },
        PeerEvent::FeedbackClosed => Seq::empty(),
        PeerEvent::Frame { is_key } => if l.connected && l.answered && (is_key || !l.waiting_key) {
            seq![PeerAct::SendFrame]
        } else {
            Seq::empty()
        },
        PeerEvent::Lagged => seq![PeerAct::KeyFrame],
        PeerEvent::FramesClosed => seq![PeerAct::Finish(None)],
    }
}

/// One sender.
#[derive(Debug)]
pub struct PeerSession {
    target: u32,
    connected: bool,
    answered: bool,
    waiting_key: bool,
    feedback_open: bool,
    pending_ice: Vec<String>,
}

impl View for PeerSession {
    type V = Link;

    closed spec fn view(&self) -> Link {
        Link {
            target: self.target,
            connected: self.connected,
            answered: self.answered,
            waiting_key: self.waiting_key,
            feedback_open: self.feedback_open,
            pending_ice: texts(self.pending_ice@),
        }
    }
}

fn push_act(actions: &mut Vec<PeerAction>, action: PeerAction)
    ensures
        peer_acts(final(actions)@) == peer_acts(old(actions)@).push(action@),
{
    let ghost before = actions@;
    actions.push(action);
    assert(peer_acts(actions@) =~= peer_acts(before).push(action@));
}

fn signal_for(target: u32, sfu: SignalType, direct: SignalType, payload: String) -> (r: Signal)
    ensures
        r@ == signal_of(target, sfu, direct, payload@),
{
    Signal { target, kind: if target == 0 { sfu } else { direct }, payload }
}

impl PeerSession {
    /// A sender that has nothing but an offer.
    pub fn new(target: u32) -> (r: Self)
        ensures
            r@ == (Link {
                target,
                connected: false,
                answered: false,
                waiting_key: true,
                feedback_open: true,
                pending_ice: Seq::empty(),
            }),
    {
        let r = PeerSession {
            target,
            connected: false,
            answered: false,
            waiting_key: true,
            feedback_open: true,
            pending_ice: Vec::new(),
        };
        assert(r@.pending_ice =~= Seq::empty());
        r
    }

    /// The signal that carries the offer.
    pub fn offer(&self, sdp: String) -> (r: Signal)
        ensures
            r@ == signal_of(self@.target, SignalType::SdpOffer, SignalType::P2pOffer, sdp@),
    {
        signal_for(self.target, SignalType::SdpOffer, SignalType::P2pOffer, sdp)
    }

    /// Whether the time to connect still runs.
    pub fn connecting(&self) -> (r: bool)
        ensures
            r == !self@.connected,
    {
        !self.connected
    }

    /// Whether to listen for feedback.
    pub fn wants_feedback(&self) -> (r: bool)
        ensures
            r == (self@.connected && self@.answered && self@.feedback_open),
    {
        self.connected && self.answered && self.feedback_open
    }

    fn answer(&mut self, sdp: String, actions: &mut Vec<PeerAction>)
        requires
            peer_acts(old(actions)@) == Seq::<PeerAct>::empty(),
        ensures
            final(self)@ == link_after(old(self)@, PeerEvent::Answer(sdp)),
            peer_acts(final(actions)@) == link_actions(old(self)@, PeerEvent::Answer(sdp)),
    {
        if self.answered {
            return;
        }
        let ghost pending = texts(self.pending_ice@);
        push_act(actions, PeerAction::AcceptAnswer(sdp));
        assert(additions(pending.subrange(0, 0)) =~= Seq::empty());
        let mut i: usize = 0;
        while i < self.pending_ice.len()
            invariant
                i <= self.pending_ice.len(),
                pending == texts(self.pending_ice@),
                peer_acts(actions@) == seq![PeerAct::AcceptAnswer(sdp@)] + additions(
                    pending.subrange(0, i as int),
                ),
            decreases self.pending_ice.len() - i,
        {
            let ghost done = additions(pending.subrange(0, i as int));
            let candidate = self.pending_ice[i].clone();
            assert(candidate@ == pending[i as int]);
            push_act(actions, PeerAction::AddIce(candidate));
            assert(additions(pending.subrange(0, i + 1)) =~= done.push(
                PeerAct::AddIce(pending[i as int]),
            ));
            assert((seq![PeerAct::AcceptAnswer(sdp@)] + done).push(
                PeerAct::AddIce(pending[i as int]),
            ) =~= seq![PeerAct::AcceptAnswer(sdp@)] + done.push(
                PeerAct::AddIce(pending[i as int]),
            ));
            i += 1;
        }
        assert(pending.subrange(0, pending.len() as int) =~= pending);
        self.answered = true;
        self.pending_ice = Vec::new();
        assert(self@.pending_ice =~= Seq::empty());
    }

    /// Handle an event.
    pub fn handle(&mut self, event: PeerEvent) -> (r: Vec<PeerAction>)
        ensures
            final(self)@ == link_after(old(self)@, event),
            peer_acts(r@) == link_actions(old(self)@, event),
    {
        let mut actions: Vec<PeerAction> = Vec::new();
        assert(peer_acts(actions@) =~= Seq::empty());
        let ghost start = self@;
        match event {
            PeerEvent::TimedOut => {
                if !self.connected {
                    push_act(
                        &mut actions,
                        PeerAction::Finish(
                            Err("WebRTC connection timed out after 20 seconds".to_owned()),
                        ),
                    );
                }
            },
            PeerEvent::Answer(sdp) => {
                self.answer(sdp, &mut actions);
            },
            PeerEvent::Ice(candidate) => {
                assert(start.pending_ice.len() == self.pending_ice@.len());
                if self.answered {
                    push_act(&mut actions, PeerAction::AddIce(candidate));
                } else if self.pending_ice.len() < MAX_PENDING_ICE {
                    let ghost before = self.pending_ice@;
                    self.pending_ice.push(candidate);
                    assert(texts(self.pending_ice@) =~= texts(before).push(candidate@));
                } else {
                    push_act(
                        &mut actions,
                        PeerAction::Finish(Err("too many pending ICE candidates".to_owned())),
                    );
                }
            },
            PeerEvent::InputClosed => {
                push_act(&mut actions, PeerAction::Finish(Ok(())));
            },
            PeerEvent::LocalIce(candidate) => {
                let signal = signal_for(
                    self.target,
                    SignalType::IceCandidate,
                    SignalType::P2pIce,
                    candidate,
                );
                push_act(&mut actions, PeerAction::Send(signal));
            },
            PeerEvent::Link(LinkState::Connected) => {
                self.connected = true;
                push_act(&mut actions, PeerAction::KeyFrame);
            },
            PeerEvent::Link(LinkState::Lost) => {
                push_act(
                    &mut actions,
                    PeerAction::Finish(Err("WebRTC connection lost".to_owned())),
                );
            },
            PeerEvent::Link(LinkState::Pending) => {},
            PeerEvent::LinkClosed => {
                push_act(&mut actions, PeerAction::Finish(Ok(())));
            },
            PeerEvent::Feedback { key_frame } => {
                if key_frame {
                    push_act(&mut actions, PeerAction::KeyFrame);
                }
            },
            PeerEvent::FeedbackClosed => {
                self.feedback_open = false;
            },
            PeerEvent::Frame { is_key } => {
                if self.connected && self.answered && (is_key || !self.waiting_key) {
                    self.waiting_key = false;
                    push_act(&mut actions, PeerAction::SendFrame);
                }
            },
            PeerEvent::Lagged => {
                self.waiting_key = true;
                push_act(&mut actions, PeerAction::KeyFrame);
            },
            PeerEvent::FramesClosed => {
                push_act(&mut actions, PeerAction::Finish(Ok(())));
            },
        }
        assert(peer_acts(actions@) =~= link_actions(start, event));
        actions
    }
}

/// What is to be done with a preview.
#[derive(Debug, PartialEq, Eq)]
pub enum PreviewAction {
    /// Offer one.
    Start,
    /// Take its answer.
    Answer(String),
    /// Take a candidate.
    Ice(String),
    /// Close it.
    Stop,
}

/// Something for the preview of a broadcast.
#[derive(Debug, PartialEq, Eq)]
pub struct PreviewEvent {
    /// Which preview.
    pub id: String,
    /// What is to be done with it.
    pub action: PreviewAction,
}

/// What the local preview calls a signal.
pub open spec fn preview_name(kind: SignalType) -> Seq<char> {
    if kind == SignalType::SdpOffer {
        "offer"@
    } else {
        "ice"@
    }
}

/// What the local preview calls a signal: it only ever gets the offer and
/// candidates.
pub fn preview_kind(kind: SignalType) -> (r: &'static str)
    ensures
        r@ == preview_name(kind),
{
    match kind {
        SignalType::SdpOffer => "offer",
        _ => "ice",
    }
}

/// The error that the local preview is told at the end of its sender, where it
/// was not closed on purpose.
pub fn preview_end(cancelled: bool, outcome: Result<(), String>) -> (r: Option<String>)
    ensures
        if cancelled {
            r is None
        } else {
            &&& r is Some
            &&& r->0@ == match outcome {
                Err(e) => e@,
                Ok(()) => "Preview connection closed"@,
            }
        },
        text_view(r) == preview_farewell(cancelled, outcome),
{
    if cancelled {
        return None;
    }
    match outcome {
        Err(e) => Some(e),
        Ok(()) => Some("Preview connection closed".to_string()),
    }
}

/// What the owner is told of a sender that has ended: nothing where it was
/// cancelled, and otherwise the error, where there is one.
pub fn ended_report(cancelled: bool, outcome: Result<(), String>) -> (r: Option<Option<String>>)
    ensures
        r == if cancelled {
            None
        } else {
            Some(
                match outcome {
                    Ok(()) => None,
                    Err(e) => Some(e),
                },
            )
        },
        r == told_of_end(cancelled, outcome),
{
    if cancelled {
        None
    } else {
        match outcome {
            Ok(()) => Some(None),
            Err(e) => Some(Some(e)),
        }
    }
}

/// A viewer is only ever sent frames once it is connected and has answered,
/// and the first of them, after a start or a loss, is a key frame.
pub proof fn viewers_start_on_a_key_frame(l: Link, is_key: bool)
    ensures
        link_actions(l, PeerEvent::Frame { is_key }).len() > 0 ==> l.connected && l.answered && (
        l.waiting_key ==> is_key),
        link_after(l, PeerEvent::Lagged).waiting_key,
        link_actions(link_after(l, PeerEvent::Lagged), PeerEvent::Frame { is_key: false })
            == Seq::<PeerAct>::empty(),
        link_actions(l, PeerEvent::Lagged) == seq![PeerAct::KeyFrame],
{
}

/// Candidates that arrive before the answer are kept, and added right after
/// it, in the order of their arrival.
pub proof fn early_candidates_follow_the_answer(l: Link, first: String, second: String, sdp: String)
    requires
        !l.answered,
        l.pending_ice.len() == 0,
    ensures
        ({
            let one = link_after(l, PeerEvent::Ice(first));
            let two = link_after(one, PeerEvent::Ice(second));
            &&& link_actions(l, PeerEvent::Ice(first)) == Seq::<PeerAct>::empty()
            &&& link_actions(one, PeerEvent::Ice(second)) == Seq::<PeerAct>::empty()
            &&& link_actions(two, PeerEvent::Answer(sdp)) == seq![
                PeerAct::AcceptAnswer(sdp@),
                PeerAct::AddIce(first@),
                PeerAct::AddIce(second@),
            ]
        }),
{
    let one = link_after(l, PeerEvent::Ice(first));
    let two = link_after(one, PeerEvent::Ice(second));
    assert(two.pending_ice =~= seq![first@, second@]);
    assert(link_actions(two, PeerEvent::Answer(sdp)) =~= seq![
        PeerAct::AcceptAnswer(sdp@),
        PeerAct::AddIce(first@),
        PeerAct::AddIce(second@),
    ]);
}

/// Only the first answer counts.
pub proof fn a_second_answer_changes_nothing(l: Link, first: String, second: String)
    ensures
        ({
            let answered = link_after(l, PeerEvent::Answer(first));
            &&& link_after(answered, PeerEvent::Answer(second)) == answered
            &&& link_actions(answered, PeerEvent::Answer(second)) == Seq::<PeerAct>::empty()
        }),
{
}

/// An action means what it is called.
pub proof fn peer_actions_mean_what_they_are_called(text: String, signal: Signal)
    ensures
        PeerAction::AcceptAnswer(text)@ == PeerAct::AcceptAnswer(text@),
        PeerAction::AddIce(text)@ == PeerAct::AddIce(text@),
        PeerAction::KeyFrame@ == PeerAct::KeyFrame,
        PeerAction::SendFrame@ == PeerAct::SendFrame,
        PeerAction::Finish(Ok(()))@ == PeerAct::Finish(None),
        PeerAction::Finish(Err(text))@ == PeerAct::Finish(Some(text@)),
        PeerAction::Send(signal)@ == PeerAct::Send(
            Sent { target: signal.target, kind: signal.kind, payload: signal.payload@ },
        ),
{
}

/// What goes to the server is signalled as the server expects it, and what goes
/// to a viewer as a viewer does: offers as offers, candidates as candidates,
/// word for word.
pub proof fn signals_go_out_as_the_far_end_expects(l: Link, candidate: String, sdp: Seq<char>)
    ensures
        link_actions(l, PeerEvent::LocalIce(candidate)) == seq![
            PeerAct::Send(
                Sent {
                    target: l.target,
                    kind: if l.target == 0 {
                        SignalType::IceCandidate
                    } else {
                        SignalType::P2pIce
                    },
                    payload: candidate@,
                },
            ),
        ],
        signal_of(l.target, SignalType::SdpOffer, SignalType::P2pOffer, sdp) == (Sent {
            target: l.target,
            kind: if l.target == 0 {
                SignalType::SdpOffer
            } else {
                SignalType::P2pOffer
            },
            payload: sdp,
        }),
        link_after(l, PeerEvent::LocalIce(candidate)) == l,
{
}

/// The far end's first answer is applied, and then every candidate that came
/// before it, in the order they came; a second answer is ignored.
pub proof fn the_first_answer_counts(l: Link, sdp: String)
    ensures
        ({
            let acts = link_actions(l, PeerEvent::Answer(sdp));
            let after = link_after(l, PeerEvent::Answer(sdp));
            &&& !l.answered ==> {
                &&& acts.len() == l.pending_ice.len() + 1
                &&& acts[0] == PeerAct::AcceptAnswer(sdp@)
                &&& forall|i: int|
                    0 <= i < l.pending_ice.len() ==> #[trigger] acts[i + 1] == PeerAct::AddIce(
                        l.pending_ice[i],
                    )
                &&& after.answered
                &&& after.pending_ice.len() == 0
                &&& after.connected == l.connected
                &&& after.waiting_key == l.waiting_key
                &&& after.feedback_open == l.feedback_open
                &&& after.target == l.target
            }
            &&& l.answered ==> acts.len() == 0 && after == l
        }),
{
}

/// A candidate is added at once after the answer, and kept until then: the last
/// of those that wait, up to 64 of them; one more is too many.
pub proof fn candidates_wait_for_the_answer(l: Link, candidate: String)
    ensures
        ({
            let acts = link_actions(l, PeerEvent::Ice(candidate));
            let after = link_after(l, PeerEvent::Ice(candidate));
            &&& l.answered ==> acts == seq![PeerAct::AddIce(candidate@)] && after == l
            &&& !l.answered && l.pending_ice.len() < 64 ==> {
                &&& acts.len() == 0
                &&& after == (Link { pending_ice: l.pending_ice.push(candidate@), ..l })
            }
            &&& !l.answered && l.pending_ice.len() >= 64 ==> acts == seq![
                PeerAct::Finish(Some("too many pending ICE candidates"@)),
            ] && after == l
        }),
{
}

/// A connection that comes up wants a key frame, one that is lost ends the
/// sender, and one that is still pending changes nothing; the time to connect
/// only runs until it is up.
pub proof fn the_connection_decides_over_the_sender(l: Link)
    ensures
        link_actions(l, PeerEvent::Link(LinkState::Connected)) == seq![PeerAct::KeyFrame],
        link_after(l, PeerEvent::Link(LinkState::Connected)) == (Link { connected: true, ..l }),
        link_actions(l, PeerEvent::Link(LinkState::Lost)) == seq![
            PeerAct::Finish(Some("WebRTC connection lost"@)),
        ],
        link_actions(l, PeerEvent::Link(LinkState::Pending)).len() == 0,
        link_after(l, PeerEvent::Link(LinkState::Pending)) == l,
        l.connected ==> link_actions(l, PeerEvent::TimedOut).len() == 0,
        !l.connected ==> link_actions(l, PeerEvent::TimedOut) == seq![
            PeerAct::Finish(Some("WebRTC connection timed out after 20 seconds"@)),
        ],
        link_actions(l, PeerEvent::InputClosed) == seq![PeerAct::Finish(None)],
        link_actions(l, PeerEvent::LinkClosed) == seq![PeerAct::Finish(None)],
        link_actions(l, PeerEvent::FramesClosed) == seq![PeerAct::Finish(None)],
{
}

/// A frame is sent exactly where the far end is connected, has answered and can
/// decode it; once it got a key frame it gets every frame after that, until
/// frames were lost.
pub proof fn frames_are_sent_to_those_who_can_decode_them(l: Link, is_key: bool)
    ensures
        l.connected && l.answered && is_key ==> {
            &&& link_actions(l, PeerEvent::Frame { is_key }) == seq![PeerAct::SendFrame]
            &&& link_after(l, PeerEvent::Frame { is_key }) == (Link { waiting_key: false, ..l })
        },
        l.connected && l.answered && !l.waiting_key ==> {
            &&& link_actions(l, PeerEvent::Frame { is_key }) == seq![PeerAct::SendFrame]
            &&& link_after(l, PeerEvent::Frame { is_key }) == l
        },
        !l.connected || !l.answered || (l.waiting_key && !is_key) ==> {
            &&& link_actions(l, PeerEvent::Frame { is_key }).len() == 0
            &&& link_after(l, PeerEvent::Frame { is_key }) == l
        },
        link_after(l, PeerEvent::Lagged) == (Link { waiting_key: true, ..l }),
        link_actions(l, PeerEvent::Lagged) == seq![PeerAct::KeyFrame],
{
}

/// A receiver's request for a key frame is passed on, other feedback is not,
/// and the end of feedback ends nothing else.
pub proof fn requests_for_a_key_frame_are_passed_on(l: Link)
    ensures
        link_actions(l, PeerEvent::Feedback { key_frame: true }) == seq![PeerAct::KeyFrame],
        link_actions(l, PeerEvent::Feedback { key_frame: false }).len() == 0,
        link_after(l, PeerEvent::Feedback { key_frame: true }) == l,
        link_after(l, PeerEvent::Feedback { key_frame: false }) == l,
        link_actions(l, PeerEvent::FeedbackClosed).len() == 0,
        link_after(l, PeerEvent::FeedbackClosed) == (Link { feedback_open: false, ..l }),
{
}

/// What a preview is told at its end, where it is told anything.
pub open spec fn preview_farewell(cancelled: bool, outcome: Result<(), String>) -> Option<
    Seq<char>,
> {
    if cancelled {
        None
    } else {
        match outcome {
            Err(e) => Some(e@),
            Ok(()) => Some("Preview connection closed"@),
        }
    }
}

/// What the owner is told at a sender's end, where it is told anything.
pub open spec fn told_of_end(cancelled: bool, outcome: Result<(), String>) -> Option<
    Option<String>,
> {
    if cancelled {
        None
    } else if outcome is Err {
        Some(Some(outcome->Err_0))
    } else {
        Some(None)
    }
}

/// An end that was asked for is told to nobody; any other is told with its
/// error, where it has one.  A preview's offer and candidates go by their names.
pub proof fn ends_are_told_unless_asked_for(e: String, outcome: Result<(), String>)
    ensures
        preview_farewell(true, outcome) is None,
        preview_farewell(false, Err(e)) == Some(e@),
        preview_farewell(false, Ok(())) == Some("Preview connection closed"@),
        told_of_end(true, outcome) is None,
        told_of_end(false, Err(e)) == Some(Some(e)),
        told_of_end(false, Ok(())) == Some(None::<String>),
        preview_name(SignalType::SdpOffer) == "offer"@,
        preview_name(SignalType::IceCandidate) == "ice"@,
{
}

} // verus!
