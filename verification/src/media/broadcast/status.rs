//! The status of a broadcast, and the signals it exchanges.

use std::collections::HashMap;

use vstd::prelude::*;
use vstd::std_specs::hash::*;

use crate::ids::{fresh_uuid, is_random_id, uuid_reading};
use crate::media::encoder::text_view;
use crate::media::settings::{P2pMode, ScreenShareSettings};
use crate::media::transport::{initial_allocation, Allocator, Serving};
use crate::text::{concat2, concat3};

verus! {

broadcast use group_hash_axioms;

/// The kinds of signal that set up and tear down a stream.
#[derive(Debug, Clone, Copy, PartialEq, Eq, Structural)]
pub enum SignalType {
    /// A broadcast has started.
    Start,
    /// A broadcast has stopped.
    Stop,
    /// An offer, through the server.
    SdpOffer,
    /// An answer, through the server.
    SdpAnswer,
    /// A candidate, through the server.
    IceCandidate,
    /// A viewer asks for a direct connection.
    P2pRequest,
    /// An offer of a direct connection.
    P2pOffer,
    /// An answer to it.
    P2pAnswer,
    /// A direct connection is declined.
    P2pDecline,
    /// A candidate of a direct connection.
    P2pIce,
    /// A viewer leaves.
    P2pLeave,
}

/// A signal to send.
#[derive(Debug, PartialEq, Eq)]
pub struct Signal {
    /// The session it goes to, or 0 for the server.
    pub target: u32,
    /// Its kind.
    pub kind: SignalType,
    /// What it carries.
    pub payload: String,
}

/// What a signal says.
#[verifier::ext_equal]
pub struct Sent {
    /// The session it goes to.
    pub target: u32,
    /// Its kind.
    pub kind: SignalType,
    /// What it carries.
    pub payload: Seq<char>,
}

impl View for Signal {
    type V = Sent;

    open spec fn view(&self) -> Sent {
        Sent { target: self.target, kind: self.kind, payload: self.payload@ }
    }
}

/// A text as a JSON string, with its quotes.
pub uninterp spec fn json_string(text: Seq<char>) -> Seq<char>;

/// `serde_json::Value::from` and `Value::to_string`: the text as a JSON string.
#[verifier::external_body]
fn json_quoted(text: &str) -> (r: String)
    ensures
        r@ == json_string(text@),
{
    serde_json::Value::from(text).to_string()
}

/// A truth value in JSON.
pub open spec fn json_bool(b: bool) -> Seq<char> {
    if b {
        "true"@
    } else {
        "false"@
    }
}

/// What a viewer that is declined is told: whether the server can serve it.
pub open spec fn decline_payload(sfu_available: bool) -> Seq<char> {
    "{\"sfuAvailable\":"@ + json_bool(sfu_available) + "}"@
}

/// What the channel is told of a broadcast whose identity is written as
/// `quoted_id`.
pub open spec fn announcement(quoted_id: Seq<char>, p2p: bool, sfu_available: bool) -> Seq<char> {
    "{\"broadcastId\":"@ + quoted_id + ",\"native\":true,\"p2p\":"@ + json_bool(p2p)
        + ",\"sfuAvailable\":"@ + json_bool(sfu_available) + "}"@
}

fn bool_text(b: bool) -> (r: &'static str)
    ensures
        r@ == json_bool(b),
{
    if b {
        "true"
    } else {
        "false"
    }
}

/// What a viewer that is declined is told.
pub fn decline_text(sfu_available: bool) -> (r: String)
    ensures
        r@ == decline_payload(sfu_available),
{
    concat3("{\"sfuAvailable\":", bool_text(sfu_available), "}")
}

/// The announcement of a broadcast, from its identity as a JSON string.
pub fn announcement_text(quoted_id: &str, p2p: bool, sfu_available: bool) -> (r: String)
    ensures
        r@ == announcement(quoted_id@, p2p, sfu_available),
{
    let mut out = concat2("{\"broadcastId\":", quoted_id);
    out.append(",\"native\":true,\"p2p\":");
    out.append(bool_text(p2p));
    out.append(",\"sfuAvailable\":");
    out.append(bool_text(sfu_available));
    out.append("}");
    out
}

/// The announcement of a broadcast.
pub fn announce_text(broadcast_id: &str, p2p: bool, sfu_available: bool) -> (r: String)
    ensures
        r@ == announcement(json_string(broadcast_id@), p2p, sfu_available),
{
    let quoted = json_quoted(broadcast_id);
    announcement_text(quoted.as_str(), p2p, sfu_available)
}

/// A change of one viewer's entry in the status.
#[derive(Debug, Clone, Copy, PartialEq, Eq, Structural)]
pub struct ViewerUpdate {
    /// The viewer.
    pub viewer: u32,
    /// Whether its entry is removed first.
    pub forget: bool,
    /// How it is served, where it is.
    pub serving: Option<Serving>,
    /// The direct connections that remain.
    pub free_direct_slots: u32,
}

/// Runtime state of a broadcast, for the user and for commands.
#[derive(Debug)]
pub struct Status {
    /// Server connection that owns this broadcast.
    pub server_id: String,
    /// Unique broadcast identity, including across rapid restarts.
    pub broadcast_id: String,
    /// True until every sender and the capture source have stopped.
    pub running: bool,
    /// Effective encoded video frame rate.
    pub fps: u32,
    /// Encoder in use once capture has started.
    pub encoder_id: Option<String>,
    /// Current assignments, keyed by viewer session.
    pub viewers: HashMap<u32, Serving>,
    /// Remaining direct connection budget.
    pub free_direct_slots: u32,
    /// Terminal error or source stop reason.
    pub error: Option<String>,
}

/// What a status says.
#[verifier::ext_equal]
pub struct StatusView {
    /// Server connection that owns this broadcast.
    pub server_id: Seq<char>,
    /// Unique broadcast identity.
    pub broadcast_id: Seq<char>,
    /// Whether it is running.
    pub running: bool,
    /// Effective frame rate.
    pub fps: u32,
    /// Encoder in use.
    pub encoder_id: Option<Seq<char>>,
    /// Current assignments.
    pub viewers: Map<u32, Serving>,
    /// Remaining direct connection budget.
    pub free_direct_slots: u32,
    /// Terminal error.
    pub error: Option<Seq<char>>,
}

impl View for Status {
    type V = StatusView;

    open spec fn view(&self) -> StatusView {
        StatusView {
            server_id: self.server_id@,
            broadcast_id: self.broadcast_id@,
            running: self.running,
            fps: self.fps,
            encoder_id: text_view(self.encoder_id),
            viewers: self.viewers@,
            free_direct_slots: self.free_direct_slots,
            error: text_view(self.error),
        }
    }
}

/// The status after a change of one viewer's entry.
pub open spec fn updated(s: StatusView, u: ViewerUpdate) -> StatusView {
    let kept = if u.forget {
        s.viewers.remove(u.viewer)
    } else {
        s.viewers
    };
    StatusView {
        viewers: match u.serving {
            Some(serving) => kept.insert(u.viewer, serving),
            None => kept,
        },
        free_direct_slots: u.free_direct_slots,
        ..s
    }
}

/// The status of a broadcast that has ended.
pub open spec fn ended(s: StatusView, error: Option<Seq<char>>) -> StatusView {
    StatusView { running: false, error, ..s }
}

/// The status of a broadcast that is about to start.
pub open spec fn reserved_status(
    server_id: Seq<char>,
    broadcast_id: Seq<char>,
    settings: ScreenShareSettings,
    p2p_available: bool,
) -> StatusView {
    StatusView {
        server_id,
        broadcast_id,
        running: true,
        fps: settings.fps,
        encoder_id: None,
        viewers: Map::empty(),
        free_direct_slots: initial_allocation(settings, p2p_available).slots as u32,
        error: None,
    }
}

impl Status {
    /// The status of a broadcast that is about to start, under this identity.
    pub fn reserved(
        server_id: String,
        broadcast_id: String,
        settings: &ScreenShareSettings,
        p2p_available: bool,
    ) -> (r: Self)
        ensures
            r@ == (StatusView {
                server_id: server_id@,
                broadcast_id: broadcast_id@,
                running: true,
                fps: settings.fps,
                encoder_id: None,
                viewers: Map::empty(),
                free_direct_slots: initial_allocation(*settings, p2p_available).slots as u32,
                error: None,
            }),
            r@ == reserved_status(server_id@, broadcast_id@, *settings, p2p_available),
    {
        let allocator = Allocator::new(settings, p2p_available);
        assert(allocator@.direct() =~= Set::empty());
        Status {
            server_id,
            broadcast_id,
            running: true,
            fps: settings.fps,
            encoder_id: None,
            viewers: HashMap::new(),
            free_direct_slots: allocator.free_slots(),
            error: None,
        }
    }

    /// The status of a broadcast that is about to start, under a fresh
    /// identity.
    pub fn reserve(
        server_id: String,
        settings: &ScreenShareSettings,
        p2p_available: bool,
    ) -> (r: Self)
        ensures
            r@ == (StatusView {
                server_id: server_id@,
                broadcast_id: r.broadcast_id@,
                running: true,
                fps: settings.fps,
                encoder_id: None,
                viewers: Map::empty(),
                free_direct_slots: initial_allocation(*settings, p2p_available).slots as u32,
                error: None,
            }),
            r.broadcast_id@.len() == 36,
            uuid_reading(r.broadcast_id@) matches Ok(number) && is_random_id(number),
    {
        let broadcast_id = fresh_uuid();
        Status::reserved(server_id, broadcast_id, settings, p2p_available)
    }

    /// Note what capture has started with.
    pub fn capturing(&mut self, encoder_id: String, fps: u32)
        ensures
            final(self)@ == (StatusView {
                encoder_id: Some(encoder_id@),
                fps,
                ..old(self)@
            }),
            final(self)@ == now_capturing(old(self)@, encoder_id@, fps),
    {
        self.encoder_id = Some(encoder_id);
        self.fps = fps;
    }

    /// Change one viewer's entry.
    pub fn apply(&mut self, update: ViewerUpdate)
        ensures
            final(self)@ == updated(old(self)@, update),
    {
        if update.forget {
            self.viewers.remove(&update.viewer);
        }
        if let Some(serving) = update.serving {
            self.viewers.insert(update.viewer, serving);
        }
        self.free_direct_slots = update.free_direct_slots;
    }

    /// Note that everything has stopped, and why where that was an error.
    pub fn finish(&mut self, result: &Result<(), String>)
        ensures
            final(self)@ == ended(
                old(self)@,
                match result {
                    Ok(()) => None,
                    Err(e) => Some(e@),
                },
            ),
    {
        self.running = false;
        self.error = match result {
            Ok(()) => None,
            Err(e) => Some(e.clone()),
        };
    }
}

/// What a caller that still waits for the start of a broadcast is told when it
/// has ended instead.
pub fn startup_error(result: Result<(), String>) -> (r: String)
    ensures
        r@ == match result {
            Err(e) => e@,
            Ok(()) => "screen sharing cancelled"@,
        },
        r@ == not_started(result),
{
    match result {
        Err(e) => e,
        Ok(()) => "screen sharing cancelled".to_owned(),
    }
}

/// A truth value reads as what it is, so that what a viewer and the channel are
/// told of the server is true.
pub proof fn payloads_tell_the_truth(sfu_available: bool, p2p: bool, quoted_id: Seq<char>)
    ensures
        decline_payload(sfu_available) == if sfu_available {
            "{\"sfuAvailable\":true}"@
        } else {
            "{\"sfuAvailable\":false}"@
        },
        announcement(quoted_id, p2p, sfu_available) == "{\"broadcastId\":"@ + quoted_id + (if p2p
            && sfu_available {
            ",\"native\":true,\"p2p\":true,\"sfuAvailable\":true}"@
        } else if p2p {
            ",\"native\":true,\"p2p\":true,\"sfuAvailable\":false}"@
        } else if sfu_available {
            ",\"native\":true,\"p2p\":false,\"sfuAvailable\":true}"@
        } else {
            ",\"native\":true,\"p2p\":false,\"sfuAvailable\":false}"@
        }),
{
    reveal_strlit("{\"sfuAvailable\":");
    reveal_strlit("}");
    reveal_strlit("true");
    reveal_strlit("false");
    reveal_strlit("{\"sfuAvailable\":true}");
    reveal_strlit("{\"sfuAvailable\":false}");
    reveal_strlit(",\"native\":true,\"p2p\":");
    reveal_strlit(",\"sfuAvailable\":");
    reveal_strlit(",\"native\":true,\"p2p\":true,\"sfuAvailable\":true}");
    reveal_strlit(",\"native\":true,\"p2p\":true,\"sfuAvailable\":false}");
    reveal_strlit(",\"native\":true,\"p2p\":false,\"sfuAvailable\":true}");
    reveal_strlit(",\"native\":true,\"p2p\":false,\"sfuAvailable\":false}");
    let tail = ",\"native\":true,\"p2p\":"@ + json_bool(p2p) + ",\"sfuAvailable\":"@ + json_bool(
        sfu_available,
    ) + "}"@;
    assert(announcement(quoted_id, p2p, sfu_available) =~= "{\"broadcastId\":"@ + quoted_id + tail);
    assert(decline_payload(sfu_available) =~= if sfu_available {
        "{\"sfuAvailable\":true}"@
    } else {
        "{\"sfuAvailable\":false}"@
    });
    assert(tail =~= if p2p && sfu_available {
        ",\"native\":true,\"p2p\":true,\"sfuAvailable\":true}"@
    } else if p2p {
        ",\"native\":true,\"p2p\":true,\"sfuAvailable\":false}"@
    } else if sfu_available {
        ",\"native\":true,\"p2p\":false,\"sfuAvailable\":true}"@
    } else {
        ",\"native\":true,\"p2p\":false,\"sfuAvailable\":false}"@
    });
}

/// A change of one viewer's entry is seen in the status: the viewer is shown as
/// it is served now, or not at all once it is forgotten, and nobody else's
/// entry changes.
pub proof fn the_status_shows_each_viewer_as_it_is_served(
    s: StatusView,
    u: ViewerUpdate,
    other: u32,
)
    requires
        other != u.viewer,
    ensures
        u.serving is Some ==> updated(s, u).viewers.contains_key(u.viewer) && updated(
            s,
            u,
        ).viewers[u.viewer] == u.serving->0,
        u.serving is None && u.forget ==> !updated(s, u).viewers.contains_key(u.viewer),
        u.serving is None && !u.forget ==> updated(s, u).viewers == s.viewers,
        updated(s, u).viewers.contains_key(other) == s.viewers.contains_key(other),
        s.viewers.contains_key(other) ==> updated(s, u).viewers[other] == s.viewers[other],
        updated(s, u).free_direct_slots == u.free_direct_slots,
        updated(s, u).running == s.running,
        updated(s, u).fps == s.fps,
        updated(s, u).encoder_id == s.encoder_id,
        updated(s, u).error == s.error,
        updated(s, u).server_id == s.server_id,
        updated(s, u).broadcast_id == s.broadcast_id,
{
}

/// A broadcast that has ended no longer runs, and keeps its error, its identity
/// and what else is known of it.
pub proof fn the_end_of_a_broadcast_stays_visible(s: StatusView, error: Option<Seq<char>>)
    ensures
        !ended(s, error).running,
        ended(s, error).error == error,
        ended(s, error).server_id == s.server_id,
        ended(s, error).broadcast_id == s.broadcast_id,
        ended(s, error).fps == s.fps,
        ended(s, error).encoder_id == s.encoder_id,
        ended(s, error).viewers == s.viewers,
        ended(s, error).free_direct_slots == s.free_direct_slots,
{
}

/// A broadcast is running from the moment it is reserved, with the frame rate
/// that was asked for, nobody watching and every slot free.
pub proof fn a_reserved_broadcast_runs_for_nobody(
    server_id: Seq<char>,
    broadcast_id: Seq<char>,
    settings: ScreenShareSettings,
    p2p_available: bool,
)
    ensures
        ({
            let s = reserved_status(server_id, broadcast_id, settings, p2p_available);
            &&& s.server_id == server_id
            &&& s.broadcast_id == broadcast_id
            &&& s.running
            &&& s.error is None
            &&& s.encoder_id is None
            &&& s.fps == settings.fps
            &&& forall|v: u32| !s.viewers.contains_key(v)
            &&& s.free_direct_slots <= settings.p2p_max_viewers
            &&& !p2p_available ==> s.free_direct_slots == 0
            &&& p2p_available && settings.p2p == P2pMode::Auto && settings.p2p_max_viewers <= 8
                ==> s.free_direct_slots == settings.p2p_max_viewers
        }),
{
}

/// The status once capture has started.
pub open spec fn now_capturing(v: StatusView, encoder_id: Seq<char>, fps: u32) -> StatusView {
    StatusView { encoder_id: Some(encoder_id), fps, ..v }
}

/// Why a broadcast has not started.
pub open spec fn not_started(result: Result<(), String>) -> Seq<char> {
    match result {
        Err(e) => e@,
        Ok(()) => "screen sharing cancelled"@,
    }
}

/// Once capture has started the status names the encoder and the frame rate, and
/// says the rest as before; a broadcast that never started was cancelled unless
/// there is an error.
pub proof fn the_status_names_what_is_encoded(
    v: StatusView,
    encoder_id: Seq<char>,
    fps: u32,
    e: String,
)
    ensures
        now_capturing(v, encoder_id, fps).encoder_id == Some(encoder_id),
        now_capturing(v, encoder_id, fps).fps == fps,
        now_capturing(v, encoder_id, fps).running == v.running,
        now_capturing(v, encoder_id, fps).viewers == v.viewers,
        now_capturing(v, encoder_id, fps).broadcast_id == v.broadcast_id,
        now_capturing(v, encoder_id, fps).error == v.error,
        not_started(Err(e)) == e@,
        not_started(Ok(())) == "screen sharing cancelled"@,
{
}

/// A status says what it holds.
pub proof fn a_status_says_what_it_holds(s: Status)
    ensures
        s@.server_id == s.server_id@,
        s@.broadcast_id == s.broadcast_id@,
        s@.running == s.running,
        s@.fps == s.fps,
        s@.encoder_id == text_view(s.encoder_id),
        s@.viewers == s.viewers@,
        s@.free_direct_slots == s.free_direct_slots,
        s@.error == text_view(s.error),
{
}

} // verus!
