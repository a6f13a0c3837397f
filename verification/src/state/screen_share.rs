//! Screen shares, each bound to the connection and the channel it was started
//! on.

use std::collections::HashSet;

use vstd::prelude::*;
use vstd::std_specs::hash::*;

use crate::collections::map_keys;
use crate::ids::{fresh_uuid, is_random_id, uuid_reading, uuid_text, ServerId};
use crate::media::broadcast::owner::Event;
use crate::media::broadcast::peer::{PreviewAction, PreviewEvent};
use crate::media::broadcast::status::{SignalType, Status, StatusView};
use crate::media::settings::{direct_slots, settings_error, ScreenShareSettings};
use crate::media::transport::initial_allocation;
use crate::state::app::AppState;
use crate::state::connection::only_session_changed;
use crate::state::registry::{
    is_known, lemma_position, lemma_update, position, state_of, Session,
};
use crate::state::session::{restarted, torn_down, SharedState};
use crate::state::types::{ConnectionStatus, WebRtcSignalPayload};
use crate::text::{concat2, same_text};

verus! {

broadcast use group_hash_axioms;

/// What a broadcast is bound to.
#[derive(Debug, PartialEq, Eq)]
pub struct Context {
    /// The connection.
    pub server_id: String,
    /// Our session.
    pub own_session: u32,
    /// The channel.
    pub channel: u32,
    /// The attempt by which the connection was made.
    pub epoch: u64,
    /// Whether the server relays the signals of direct connections.
    pub p2p_available: bool,
    /// Whether the server forwards.
    pub sfu_available: bool,
}

/// What a context says.
#[verifier::ext_equal]
pub struct Bound {
    /// The connection.
    pub server_id: Seq<char>,
    /// Our session.
    pub own_session: u32,
    /// The channel.
    pub channel: u32,
    /// The attempt.
    pub epoch: u64,
    /// Whether the server relays the signals of direct connections.
    pub p2p_available: bool,
    /// Whether the server forwards.
    pub sfu_available: bool,
}

impl View for Context {
    type V = Bound;

    open spec fn view(&self) -> Bound {
        Bound {
            server_id: self.server_id@,
            own_session: self.own_session,
            channel: self.channel,
            epoch: self.epoch,
            p2p_available: self.p2p_available,
            sfu_available: self.sfu_available,
        }
    }
}

/// What a broadcast on this connection is bound to, or why there can be none.
pub open spec fn context_of(s: SharedState) -> Result<Bound, Seq<char>> {
    if !s.conn.client {
        Err("not connected"@)
    } else if s.server_id is None {
        Err("missing server id"@)
    } else if s.conn.own_session is None {
        Err("server synchronization incomplete"@)
    } else if s.current_channel is None {
        Err("not in a channel"@)
    } else {
        Ok(
            Bound {
                server_id: uuid_text((s.server_id->0).0),
                own_session: s.conn.own_session->0,
                channel: s.current_channel->0,
                epoch: s.conn.epoch,
                p2p_available: s.server.config.webrtc_p2p_relay_available,
                sfu_available: s.server.config.webrtc_sfu_available,
            },
        )
    }
}

/// What a broadcast on this connection is bound to.
pub fn context(state: &SharedState) -> (r: Result<Context, String>)
    ensures
        match context_of(*state) {
            Ok(bound) => r is Ok && r->Ok_0@ == bound,
            Err(text) => r is Err && r->Err_0@ == text,
        },
{
    if !state.conn.client {
        return Err("not connected".to_string());
    }
    let server_id = match &state.server_id {
        Some(id) => id.text(),
        None => {
            return Err("missing server id".to_string());
        },
    };
    let own_session: u32 = match state.conn.own_session {
        Some(session) => session,
        None => {
            return Err("server synchronization incomplete".to_string());
        },
    };
    let channel: u32 = match state.current_channel {
        Some(channel) => channel,
        None => {
            return Err("not in a channel".to_string());
        },
    };
    Ok(
        Context {
            server_id,
            own_session,
            channel,
            epoch: state.conn.epoch,
            p2p_available: state.server.config.webrtc_p2p_relay_available,
            sfu_available: state.server.config.webrtc_sfu_available,
        },
    )
}

/// Whether a connection is still what a broadcast is bound to.
pub open spec fn still_bound(s: SharedState, bound: Bound) -> bool {
    &&& s.conn.epoch == bound.epoch
    &&& s.conn.status == ConnectionStatus::Connected
    &&& s.current_channel == Some(bound.channel)
}

/// Whether a session is one of the others in the channel of a broadcast.
pub open spec fn is_member(s: SharedState, bound: Bound, session: u32) -> bool {
    session != bound.own_session && exists|key: u32| #[trigger]
        s.users@.dom().contains(key) && s.users@[key].channel_id == bound.channel
            && s.users@[key].session == session
}

/// The others in the channel of a broadcast, as long as the connection is what
/// the broadcast is bound to.
pub fn members(state: &SharedState, context: &Context) -> (r: Option<HashSet<u32>>)
    ensures
        match r {
            Some(set) => still_bound(*state, context@) && forall|session: u32| #[trigger]
                set@.contains(session) <==> is_member(*state, context@, session),
            None => !still_bound(*state, context@),
        },
{
    let same_channel = match state.current_channel {
        Some(channel) => channel == context.channel,
        None => false,
    };
    if state.conn.epoch != context.epoch || state.conn.status != ConnectionStatus::Connected
        || !same_channel {
        return None;
    }
    let keys = map_keys(&state.users);
    let mut out: HashSet<u32> = HashSet::new();
    let mut i: usize = 0;
    while i < keys.len()
        invariant
            i <= keys.len(),
            keys@.to_set() == state.users@.dom(),
            forall|session: u32| #[trigger]
                out@.contains(session) <==> (session != context.own_session && exists|j: int|
                    0 <= j < i && state.users@[#[trigger] keys@[j]].channel_id == context.channel
                        && state.users@[keys@[j]].session == session),
        decreases keys.len() - i,
    {
        let key: u32 = keys[i];
        assert(keys@.to_set().contains(key));
        let ghost before = out@;
        if let Some(user) = state.users.get(&key) {
            if user.channel_id == context.channel && user.session != context.own_session {
                out.insert(user.session);
            }
        }
        proof {
            assert forall|session: u32| #[trigger] out@.contains(session) implies session
                != context.own_session && exists|j: int|
                0 <= j < i + 1 && state.users@[#[trigger] keys@[j]].channel_id == context.channel
                    && state.users@[keys@[j]].session == session by {
                if before.contains(session) {
                    let j = choose|j: int|
                        0 <= j < i && state.users@[#[trigger] keys@[j]].channel_id
                            == context.channel && state.users@[keys@[j]].session == session;
                    assert(keys@[j] == keys@[j]);
                } else {
                    assert(keys@[i as int] == key);
                }
            }
            assert forall|session: u32|
                session != context.own_session && (exists|j: int|
                    0 <= j < i + 1 && state.users@[#[trigger] keys@[j]].channel_id
                        == context.channel && state.users@[keys@[j]].session == session)
                implies #[trigger] out@.contains(session) by {
                let j = choose|j: int|
                    0 <= j < i + 1 && state.users@[#[trigger] keys@[j]].channel_id
                        == context.channel && state.users@[keys@[j]].session == session;
                if j < i {
                    assert(before.contains(session));
                }
            }
        }
        i += 1;
    }
    proof {
        assert forall|session: u32| #[trigger] out@.contains(session) <==> is_member(
            *state,
            context@,
            session,
        ) by {
            if out@.contains(session) {
                let j = choose|j: int|
                    0 <= j < keys@.len() && state.users@[#[trigger] keys@[j]].channel_id
                        == context.channel && state.users@[keys@[j]].session == session;
                assert(keys@.to_set().contains(keys@[j]));
                assert(state.users@.dom().contains(keys@[j]));
            }
            if is_member(*state, context@, session) {
                let key = choose|key: u32| #[trigger]
                    state.users@.dom().contains(key) && state.users@[key].channel_id
                        == context@.channel && state.users@[key].session == session;
                assert(keys@.to_set().contains(key));
                let j = choose|j: int| 0 <= j < keys@.len() && keys@[j] == key;
                assert(keys@[j] == key);
            }
        }
    }
    Some(out)
}

/// A signal of a screen share, as the server relays it.
#[derive(Debug, PartialEq, Eq)]
pub struct WebRtcSignal {
    /// Who sent it; none for the server.
    pub sender_session: Option<u32>,
    /// Whom it is for.
    pub target_session: Option<u32>,
    /// The number of its kind.
    pub signal_type: Option<i32>,
    /// The kind that the number stands for, where it stands for one.
    pub kind: Option<SignalType>,
    /// What it carries.
    pub payload: Option<String>,
}

/// Who sent a signal; 0 for the server.
pub open spec fn sender_of(signal: WebRtcSignal) -> u32 {
    match signal.sender_session {
        Some(sender) => sender,
        None => 0,
    }
}

/// What a signal carries.
pub open spec fn payload_of(signal: WebRtcSignal) -> Seq<char> {
    match signal.payload {
        Some(payload) => payload@,
        None => Seq::<char>::empty(),
    }
}

/// Whether a broadcast is running on this connection.
pub open spec fn is_sharing(s: SharedState) -> bool {
    match s.native_broadcast {
        Some(status) => status.running,
        None => false,
    }
}

/// Whether a signal is for the broadcast that is running here.
///
/// What comes through the server is where it answers this user's own stream.
/// What concerns a direct connection is where the server relays such, it is
/// meant for this user, and it comes from someone in the same channel.
pub open spec fn owns_signal(s: SharedState, signal: WebRtcSignal) -> bool {
    let sender = sender_of(signal);
    is_sharing(s) && match signal.kind {
        Some(SignalType::SdpAnswer) | Some(SignalType::IceCandidate) => sender == 0
            || s.conn.own_session == Some(sender),
        Some(SignalType::P2pRequest)
        | Some(SignalType::P2pAnswer)
        | Some(SignalType::P2pIce)
        | Some(SignalType::P2pLeave) => {
            &&& s.server.config.webrtc_p2p_relay_available
            &&& signal.target_session == s.conn.own_session
            &&& s.users@.dom().contains(sender)
            &&& s.current_channel == Some(s.users@[sender].channel_id)
        },
        _ => false,
    }
}

fn payload_text(signal: &WebRtcSignal) -> (r: String)
    ensures
        r@ == payload_of(*signal),
{
    match &signal.payload {
        Some(payload) => payload.clone(),
        None => String::new(),
    }
}

fn same_id(a: Option<u32>, b: Option<u32>) -> (r: bool)
    ensures
        r == (a == b),
{
    match (a, b) {
        (Some(x), Some(y)) => x == y,
        (None, None) => true,
        _ => false,
    }
}

/// The event of a signal that is for the broadcast that is running here.
///
/// Where its queue is full the broadcast is cancelled; the signal is consumed
/// all the same.
pub fn route(state: &SharedState, signal: &WebRtcSignal) -> (r: Option<Event>)
    ensures
        r is Some <==> owns_signal(*state, *signal),
        match r {
            Some(Event::Signal { sender, kind, payload }) => {
                &&& sender == sender_of(*signal)
                &&& Some(kind) == signal.kind
                &&& payload@ == payload_of(*signal)
            },
            Some(_) => false,
            None => true,
        },
{
    let running = match &state.native_broadcast {
        Some(status) => status.running,
        None => false,
    };
    if !running {
        return None;
    }
    let kind = match signal.kind {
        Some(kind) => kind,
        None => {
            return None;
        },
    };
    let sender: u32 = match signal.sender_session {
        Some(sender) => sender,
        None => 0,
    };
    let owns = match kind {
        SignalType::SdpAnswer | SignalType::IceCandidate => {
            sender == 0 || same_id(state.conn.own_session, Some(sender))
        },
        SignalType::P2pRequest | SignalType::P2pAnswer | SignalType::P2pIce | SignalType::P2pLeave => {
            let in_channel = match state.users.get(&sender) {
                Some(user) => same_id(state.current_channel, Some(user.channel_id)),
                None => false,
            };
            state.server.config.webrtc_p2p_relay_available && same_id(
                signal.target_session,
                state.conn.own_session,
            ) && in_channel
        },
        _ => false,
    };
    if owns {
        Some(Event::Signal { sender, kind, payload: payload_text(signal) })
    } else {
        None
    }
}

/// Where a signal goes.
#[derive(Debug)]
pub enum Delivery {
    /// To the broadcast that is running here.
    Broadcast(Event),
    /// To the user interface, which may be watching someone else's.
    Interface(WebRtcSignalPayload),
}

/// This is where a signal goes, and as what.
pub open spec fn goes_to(s: SharedState, signal: WebRtcSignal, d: Delivery) -> bool {
    match d {
        Delivery::Broadcast(event) => {
            &&& owns_signal(s, signal)
            &&& event is Signal
            &&& event->Signal_sender == sender_of(signal)
            &&& Some(event->Signal_kind) == signal.kind
            &&& event->Signal_payload@ == payload_of(signal)
        },
        Delivery::Interface(p) => {
            &&& !owns_signal(s, signal)
            &&& p.sender_session == signal.sender_session
            &&& p.target_session == signal.target_session
            &&& signal.signal_type is Some ==> p.signal_type == signal.signal_type->0
            &&& signal.signal_type is None ==> p.signal_type == 0
            &&& p.payload@ == payload_of(signal)
        },
    }
}

/// Where a signal goes.
pub fn deliver(state: &SharedState, signal: &WebRtcSignal) -> (r: Delivery)
    ensures
        match r {
            Delivery::Broadcast(Event::Signal { sender, kind, payload }) => {
                &&& owns_signal(*state, *signal)
                &&& sender == sender_of(*signal)
                &&& Some(kind) == signal.kind
                &&& payload@ == payload_of(*signal)
            },
            Delivery::Broadcast(_) => false,
            Delivery::Interface(p) => {
                &&& !owns_signal(*state, *signal)
                &&& p.sender_session == signal.sender_session
                &&& p.target_session == signal.target_session
                &&& p.signal_type == match signal.signal_type {
                    Some(number) => number,
                    None => 0,
                }
                &&& p.payload@ == payload_of(*signal)
            },
        },
        goes_to(*state, *signal, r),
{
    match route(state, signal) {
        Some(event) => Delivery::Broadcast(event),
        None => {
            let signal_type: i32 = match signal.signal_type {
                Some(number) => number,
                None => 0,
            };
            Delivery::Interface(
                WebRtcSignalPayload {
                    sender_session: signal.sender_session,
                    target_session: signal.target_session,
                    signal_type,
                    payload: payload_text(signal),
                },
            )
        },
    }
}

/// What comes from another user about a stream of the server's is never taken
/// from the user interface: it concerns a broadcast that is watched there.
pub proof fn answers_for_others_are_not_consumed(s: SharedState, signal: WebRtcSignal)
    requires
        signal.kind == Some(SignalType::SdpAnswer) || signal.kind == Some(
            SignalType::IceCandidate,
        ),
        sender_of(signal) != 0,
        s.conn.own_session != Some(sender_of(signal)),
    ensures
        !owns_signal(s, signal),
{
}

/// What concerns a direct connection is taken only where the server relays
/// such, it is meant for this user, and it comes from the same channel.
pub proof fn direct_signals_need_capability_target_and_membership(
    s: SharedState,
    signal: WebRtcSignal,
)
    requires
        owns_signal(s, signal),
        signal.kind != Some(SignalType::SdpAnswer),
        signal.kind != Some(SignalType::IceCandidate),
    ensures
        is_sharing(s),
        s.server.config.webrtc_p2p_relay_available,
        signal.target_session == s.conn.own_session,
        s.users@.dom().contains(sender_of(signal)),
        s.current_channel == Some(s.users@[sender_of(signal)].channel_id),
{
}

/// A broadcast does not outlive its connection: once that is set up anew or torn
/// down, the broadcast finds that it is bound to nothing.
pub proof fn broadcasts_end_with_their_connection(
    before: SharedState,
    after: SharedState,
    bound: Bound,
    username: Seq<char>,
    host: Seq<char>,
    port: u16,
    cert_label: Option<Seq<char>>,
    server_id: ServerId,
)
    requires
        restarted(before, after, username, host, port, cert_label, server_id) || torn_down(
            before,
            after,
        ),
    ensures
        !still_bound(after, bound),
{
}

/// Without a running broadcast nothing is taken from the user interface.
pub proof fn nothing_is_consumed_without_a_broadcast(s: SharedState, signal: WebRtcSignal)
    requires
        !is_sharing(s),
    ensures
        !owns_signal(s, signal),
{
}

/// The connection that a request is about: the one it names, else the one the
/// user works with.
pub open spec fn share_target(a: AppState, server_id: Option<Seq<char>>) -> Result<
    Option<ServerId>,
    Seq<char>,
> {
    match server_id {
        Some(text) => match uuid_reading(text) {
            Ok(number) => if is_known(a.registry.sessions@, ServerId(number)) {
                Ok(Some(ServerId(number)))
            } else {
                Err("unknown server id: "@ + text)
            },
            Err(e) => Err("invalid server id: "@ + e),
        },
        None => Ok(a.inner),
    }
}

/// The state of a connection; of none, what the user sees without one.
pub open spec fn state_at(a: AppState, target: Option<ServerId>) -> SharedState {
    match target {
        Some(id) => state_of(a.registry.sessions@, id),
        None => a.default_inner,
    }
}

/// Only the state of this connection has changed.
pub open spec fn only_target_changed(
    before: AppState,
    after: AppState,
    target: Option<ServerId>,
    state: SharedState,
) -> bool {
    match target {
        Some(id) => only_session_changed(before, after, id, state),
        None => after == (AppState { default_inner: state, ..before }),
    }
}

/// Whether a broadcast with these settings can reach anyone.
pub open spec fn has_transport(bound: Bound, settings: ScreenShareSettings) -> bool {
    bound.sfu_available || (bound.p2p_available && direct_slots(settings) != 0)
}

/// The connection that a broadcast can be started on and what it is bound to
/// there, or why it cannot be started: the settings first, then the
/// connection, then what it is doing.
pub open spec fn start_check(
    a: AppState,
    settings: ScreenShareSettings,
    server_id: Option<Seq<char>>,
) -> Result<(Option<ServerId>, Bound), Seq<char>> {
    match settings_error(settings) {
        Some(text) => Err(text),
        None => match share_target(a, server_id) {
            Err(text) => Err(text),
            Ok(target) => {
                let s = state_at(a, target);
                if is_sharing(s) {
                    Err("this server already has an active screen share"@)
                } else {
                    match context_of(s) {
                        Err(text) => Err(text),
                        Ok(bound) => if has_transport(bound, settings) {
                            Ok((target, bound))
                        } else {
                            Err("this server has no available screen-share transport"@)
                        },
                    }
                }
            },
        },
    }
}

/// The status of a broadcast that is about to start.
pub open spec fn starting_status(
    bound: Bound,
    settings: ScreenShareSettings,
    broadcast_id: Seq<char>,
) -> StatusView {
    StatusView {
        server_id: bound.server_id,
        broadcast_id,
        running: true,
        fps: settings.fps,
        encoder_id: None,
        viewers: Map::empty(),
        free_direct_slots: initial_allocation(settings, bound.p2p_available).slots as u32,
        error: None,
    }
}

/// A broadcast has been reserved on a connection; nothing else has changed.
pub open spec fn reserved_on(
    before: AppState,
    after: AppState,
    target: Option<ServerId>,
    status: StatusView,
) -> bool {
    let s = state_at(after, target);
    &&& s.native_broadcast is Some
    &&& s.native_broadcast->0@ == status
    &&& s == (SharedState { native_broadcast: s.native_broadcast, ..state_at(before, target) })
    &&& only_target_changed(before, after, target, s)
}

/// Why the preview of a broadcast cannot be negotiated, where it cannot.
pub open spec fn preview_error(
    a: AppState,
    server_id: Seq<char>,
    broadcast_id: Seq<char>,
) -> Option<Seq<char>> {
    match share_target(a, Some(server_id)) {
        Err(text) => Some(text),
        Ok(target) => match state_at(a, target).native_broadcast {
            None => Some("No active screen share"@),
            Some(status) => if status.running && status.broadcast_id@ == broadcast_id {
                None
            } else {
                Some("Screen share has ended or changed"@)
            },
        },
    }
}

/// A text that may be absent.
pub open spec fn optional_text(text: Option<&str>) -> Option<Seq<char>> {
    match text {
        Some(text) => Some(text@),
        None => None,
    }
}

impl AppState {
    /// The connection that a request is about.
    pub fn screen_share_session(&self, server_id: Option<&str>) -> (r: Result<
        Option<ServerId>,
        String,
    >)
        ensures
            match share_target(*self, optional_text(server_id)) {
                Ok(target) => r == Ok::<Option<ServerId>, String>(target),
                Err(text) => r is Err && r->Err_0@ == text,
            },
    {
        match server_id {
            Some(text) => match ServerId::parse(text) {
                Ok(id) => match self.registry.index_of(id) {
                    Some(_) => Ok(Some(id)),
                    None => Err(concat2("unknown server id: ", text)),
                },
                Err(e) => Err(e),
            },
            None => Ok(self.inner),
        }
    }

    fn state_ref(&self, target: Option<ServerId>) -> (r: &SharedState)
        requires
            match target {
                Some(id) => is_known(self.registry.sessions@, id),
                None => true,
            },
        ensures
            *r == state_at(*self, target),
    {
        match target {
            Some(id) => match self.registry.index_of(id) {
                Some(i) => &self.registry.sessions[i].state,
                None => &self.default_inner,
            },
            None => &self.default_inner,
        }
    }

    /// What the broadcast is handed for one of its previews, where it is still
    /// the one that is running.
    pub fn native_screen_share_preview(
        &self,
        server_id: &str,
        broadcast_id: &str,
        id: String,
        action: PreviewAction,
    ) -> (r: Result<PreviewEvent, String>)
        requires
            self.wf(),
        ensures
            match preview_error(*self, server_id@, broadcast_id@) {
                Some(text) => r is Err && r->Err_0@ == text,
                None => r == Ok::<PreviewEvent, String>(PreviewEvent { id, action }),
            },
    {
        let target = match self.screen_share_session(Some(server_id)) {
            Ok(target) => target,
            Err(e) => {
                return Err(e);
            },
        };
        match &self.state_ref(target).native_broadcast {
            None => Err("No active screen share".to_string()),
            Some(status) => if status.running && same_text(
                status.broadcast_id.as_str(),
                broadcast_id,
            ) {
                Ok(PreviewEvent { id, action })
            } else {
                Err("Screen share has ended or changed".to_string())
            },
        }
    }

    /// Reserve a broadcast of this identity, or say why there can be none.
    pub fn start_screen_share_as(
        &mut self,
        settings: &ScreenShareSettings,
        server_id: Option<&str>,
        broadcast_id: String,
    ) -> (r: Result<Context, String>)
        requires
            old(self).wf(),
        ensures
            final(self).wf(),
            match start_check(*old(self), *settings, optional_text(server_id)) {
                Ok((target, bound)) => {
                    &&& r is Ok
                    &&& r->Ok_0@ == bound
                    &&& reserved_on(
                        *old(self),
                        *final(self),
                        target,
                        starting_status(bound, *settings, broadcast_id@),
                    )
                },
                Err(text) => {
                    &&& r is Err
                    &&& r->Err_0@ == text
                    &&& *final(self) == *old(self)
                },
            },
    {
        match settings.validate() {
            Ok(()) => {},
            Err(e) => {
                return Err(e);
            },
        }
        let target = match self.screen_share_session(server_id) {
            Ok(target) => target,
            Err(e) => {
                return Err(e);
            },
        };
        let state = self.state_ref(target);
        let sharing = match &state.native_broadcast {
            Some(status) => status.running,
            None => false,
        };
        if sharing {
            return Err("this server already has an active screen share".to_string());
        }
        let bound = match context(state) {
            Ok(bound) => bound,
            Err(e) => {
                return Err(e);
            },
        };
        if !bound.sfu_available && (!bound.p2p_available || settings.p2p_slots() == 0) {
            return Err("this server has no available screen-share transport".to_string());
        }
        let status = Status::reserved(
            bound.server_id.clone(),
            broadcast_id,
            settings,
            bound.p2p_available,
        );
        let found: Option<usize> = match target {
            Some(id) => self.registry.index_of(id),
            None => None,
        };
        let ghost before = self.registry.sessions@;
        match found {
            Some(i) => {
                self.registry.sessions[i].state.native_broadcast = Some(status);
                proof {
                    let now = self.registry.sessions@;
                    assert(now =~= before.update(i as int, now[i as int]));
                    lemma_update(before, i as int, now[i as int], target->0);
                    if let Some(active) = self.registry.active {
                        lemma_update(before, i as int, now[i as int], active);
                    }
                }
            },
            None => {
                self.default_inner.native_broadcast = Some(status);
            },
        }
        Ok(bound)
    }

    /// Reserve a broadcast of a fresh identity, or say why there can be none.
    pub fn start_native_screen_share(
        &mut self,
        settings: &ScreenShareSettings,
        server_id: Option<&str>,
    ) -> (r: Result<Context, String>)
        requires
            old(self).wf(),
        ensures
            final(self).wf(),
            match start_check(*old(self), *settings, optional_text(server_id)) {
                Ok((target, bound)) => {
                    &&& r is Ok
                    &&& r->Ok_0@ == bound
                    &&& exists|id: Seq<char>|
                        (uuid_reading(id) matches Ok(number) && is_random_id(number)) && reserved_on(
                            *old(self),
                            *final(self),
                            target,
                            #[trigger] starting_status(bound, *settings, id),
                        )
                },
                Err(text) => {
                    &&& r is Err
                    &&& r->Err_0@ == text
                    &&& *final(self) == *old(self)
                },
            },
    {
        let broadcast_id = fresh_uuid();
        let ghost id = broadcast_id@;
        let r = self.start_screen_share_as(settings, server_id, broadcast_id);
        proof {
            if let Ok((target, bound)) = start_check(
                *old(self),
                *settings,
                optional_text(server_id),
            ) {
                assert(reserved_on(
                    *old(self),
                    *self,
                    target,
                    starting_status(bound, *settings, id),
                ));
            }
        }
        r
    }

    /// Whether there is a broadcast to be cancelled and waited for.
    pub fn stop_native_screen_share(&self, server_id: Option<&str>) -> (r: Result<bool, String>)
        requires
            self.wf(),
        ensures
            match share_target(*self, optional_text(server_id)) {
                Ok(target) => r == Ok::<bool, String>(
                    state_at(*self, target).native_broadcast is Some,
                ),
                Err(text) => r is Err && r->Err_0@ == text,
            },
    {
        match self.screen_share_session(server_id) {
            Ok(target) => Ok(self.state_ref(target).native_broadcast.is_some()),
            Err(e) => Err(e),
        }
    }

    /// The status of the last broadcast, with the error it ended with.
    pub fn native_screen_share_status(&self, server_id: Option<&str>) -> (r: Result<
        Option<&Status>,
        String,
    >)
        requires
            self.wf(),
        ensures
            match share_target(*self, optional_text(server_id)) {
                Ok(target) => match state_at(*self, target).native_broadcast {
                    Some(status) => r is Ok && r->Ok_0 is Some && *r->Ok_0->0 == status,
                    None => r is Ok && r->Ok_0 is None,
                },
                Err(text) => r is Err && r->Err_0@ == text,
            },
    {
        match self.screen_share_session(server_id) {
            Ok(target) => match &self.state_ref(target).native_broadcast {
                Some(status) => Ok(Some(status)),
                None => Ok(None),
            },
            Err(e) => Err(e),
        }
    }
}

/// No connection ever has two broadcasts: while one is running, another cannot
/// be started there.
pub proof fn a_second_broadcast_is_refused(
    before: AppState,
    after: AppState,
    settings: ScreenShareSettings,
    server_id: Option<Seq<char>>,
    target: Option<ServerId>,
    bound: Bound,
    broadcast_id: Seq<char>,
)
    requires
        before.wf(),
        start_check(before, settings, server_id) == Ok::<
            (Option<ServerId>, Bound),
            Seq<char>,
        >((target, bound)),
        reserved_on(before, after, target, starting_status(bound, settings, broadcast_id)),
    ensures
        start_check(after, settings, server_id) == Err::<(Option<ServerId>, Bound), Seq<char>>(
            "this server already has an active screen share"@,
        ),
{
    let s = state_at(after, target);
    assert(s.native_broadcast->0@.running);
    if let Some(id) = target {
        let sessions = before.registry.sessions@;
        let i = position(sessions, id)->0;
        lemma_position(sessions, id);
        lemma_update(sessions, i, Session { id, state: s }, id);
    }
}

/// A broadcast is bound to where its user is: to that connection, as that
/// session, in that channel, by that attempt, with what the server offers.  The
/// first thing that is missing is what the user is told.
pub proof fn a_broadcast_is_bound_to_where_its_user_is(s: SharedState)
    ensures
        s.conn.client && s.server_id is Some && s.conn.own_session is Some && s.current_channel
            is Some ==> {
            &&& context_of(s) is Ok
            &&& context_of(s)->Ok_0.server_id == uuid_text((s.server_id->0).0)
            &&& context_of(s)->Ok_0.own_session == s.conn.own_session->0
            &&& context_of(s)->Ok_0.channel == s.current_channel->0
            &&& context_of(s)->Ok_0.epoch == s.conn.epoch
            &&& context_of(s)->Ok_0.p2p_available == s.server.config.webrtc_p2p_relay_available
            &&& context_of(s)->Ok_0.sfu_available == s.server.config.webrtc_sfu_available
            &&& s.conn.status == ConnectionStatus::Connected ==> still_bound(
                s,
                context_of(s)->Ok_0,
            )
        },
        !s.conn.client ==> context_of(s) == Err::<Bound, Seq<char>>("not connected"@),
        s.conn.client && s.server_id is None ==> context_of(s) == Err::<Bound, Seq<char>>(
            "missing server id"@,
        ),
        s.conn.client && s.server_id is Some && s.conn.own_session is None ==> context_of(s)
            == Err::<Bound, Seq<char>>("server synchronization incomplete"@),
        s.conn.client && s.server_id is Some && s.conn.own_session is Some && s.current_channel
            is None ==> context_of(s) == Err::<Bound, Seq<char>>("not in a channel"@),
{
}

/// A broadcast ends with its attempt, with the connection and with its user's
/// going to another channel.
pub proof fn a_broadcast_lasts_while_its_user_stays(s: SharedState, bound: Bound)
    ensures
        s.conn.epoch != bound.epoch ==> !still_bound(s, bound),
        s.conn.status != ConnectionStatus::Connected ==> !still_bound(s, bound),
        s.current_channel != Some(bound.channel) ==> !still_bound(s, bound),
        s.conn.epoch == bound.epoch && s.conn.status == ConnectionStatus::Connected
            && s.current_channel == Some(bound.channel) ==> still_bound(s, bound),
{
}

/// A broadcast is for everyone else in its channel, and for nobody elsewhere.
pub proof fn a_broadcast_is_for_the_others_in_its_channel(s: SharedState, bound: Bound, key: u32)
    requires
        s.users@.contains_key(key),
    ensures
        !is_member(s, bound, bound.own_session),
        s.users@[key].channel_id == bound.channel && s.users@[key].session != bound.own_session
            ==> is_member(s, bound, s.users@[key].session),
        (forall|k: u32| #[trigger]
            s.users@.dom().contains(k) && s.users@[k].session == s.users@[key].session
                ==> s.users@[k].channel_id != bound.channel) ==> !is_member(
            s,
            bound,
            s.users@[key].session,
        ),
{
    assert(s.users@.dom().contains(key));
}

/// What belongs to the running broadcast reaches it: the server's answers, what
/// answers this user's own stream, and what a user of the same channel sends
/// this user of a direct connection; nothing of any other kind does.
pub proof fn what_belongs_to_the_broadcast_reaches_it(s: SharedState, signal: WebRtcSignal)
    requires
        is_sharing(s),
    ensures
        (signal.kind == Some(SignalType::SdpAnswer) || signal.kind == Some(
            SignalType::IceCandidate,
        )) && (signal.sender_session is None || signal.sender_session == Some(0u32)
            || signal.sender_session == s.conn.own_session) ==> owns_signal(s, signal),
        (signal.kind == Some(SignalType::P2pRequest) || signal.kind == Some(
            SignalType::P2pAnswer,
        ) || signal.kind == Some(SignalType::P2pIce) || signal.kind == Some(SignalType::P2pLeave))
            && s.server.config.webrtc_p2p_relay_available && signal.target_session
            == s.conn.own_session && signal.sender_session is Some && s.users@.contains_key(
            signal.sender_session->0,
        ) && s.current_channel == Some(s.users@[signal.sender_session->0].channel_id)
            ==> owns_signal(s, signal),
        owns_signal(s, signal) ==> {
            ||| signal.kind == Some(SignalType::SdpAnswer)
            ||| signal.kind == Some(SignalType::IceCandidate)
            ||| signal.kind == Some(SignalType::P2pRequest)
            ||| signal.kind == Some(SignalType::P2pAnswer)
            ||| signal.kind == Some(SignalType::P2pIce)
            ||| signal.kind == Some(SignalType::P2pLeave)
        },
{
}

/// A signal arrives as it was sent, wherever it goes: from the same sender, of
/// the same kind, carrying the same.
pub proof fn a_signal_arrives_as_it_was_sent(s: SharedState, signal: WebRtcSignal, d: Delivery)
    requires
        goes_to(s, signal, d),
    ensures
        d is Broadcast <==> owns_signal(s, signal),
        d matches Delivery::Broadcast(Event::Signal { sender, kind, payload }) ==> {
            &&& signal.sender_session is Some ==> sender == signal.sender_session->0
            &&& signal.sender_session is None ==> sender == 0
            &&& signal.kind == Some(kind)
            &&& signal.payload is Some ==> payload@ == signal.payload->0@
            &&& signal.payload is None ==> payload@.len() == 0
        },
        d is Broadcast ==> d->Broadcast_0 is Signal,
        d matches Delivery::Interface(p) ==> {
            &&& p.sender_session == signal.sender_session
            &&& p.target_session == signal.target_session
            &&& signal.signal_type is Some ==> p.signal_type == signal.signal_type->0
            &&& signal.signal_type is None ==> p.signal_type == 0
            &&& signal.payload is Some ==> p.payload@ == signal.payload->0@
            &&& signal.payload is None ==> p.payload@.len() == 0
        },
{
}

/// A request is about the connection it names, and about no other; where it
/// names none, about the one the user works with.
pub proof fn a_request_is_about_what_it_names(a: AppState, text: Seq<char>)
    ensures
        share_target(a, None) == Ok::<Option<ServerId>, Seq<char>>(a.inner),
        uuid_reading(text) is Ok && is_known(
            a.registry.sessions@,
            ServerId(uuid_reading(text)->Ok_0),
        ) ==> {
            &&& share_target(a, Some(text)) == Ok::<Option<ServerId>, Seq<char>>(
                Some(ServerId(uuid_reading(text)->Ok_0)),
            )
            &&& state_at(a, share_target(a, Some(text))->Ok_0) == state_of(
                a.registry.sessions@,
                ServerId(uuid_reading(text)->Ok_0),
            )
        },
        uuid_reading(text) is Ok && !is_known(
            a.registry.sessions@,
            ServerId(uuid_reading(text)->Ok_0),
        ) ==> share_target(a, Some(text)) == Err::<Option<ServerId>, Seq<char>>(
            "unknown server id: "@ + text,
        ),
        uuid_reading(text) is Err ==> share_target(a, Some(text)) == Err::<
            Option<ServerId>,
            Seq<char>,
        >("invalid server id: "@ + uuid_reading(text)->Err_0),
        state_at(a, None) == a.default_inner,
{
}

/// A broadcast can be started exactly where its settings can be honoured, the
/// connection is known, shares nothing yet, is up and in a channel, and someone
/// can be reached: through the server, or directly where slots are left.
pub proof fn a_broadcast_starts_where_it_can_reach_someone(
    a: AppState,
    settings: ScreenShareSettings,
    server_id: Option<Seq<char>>,
)
    ensures
        ({
            let target = share_target(a, server_id);
            let s = state_at(a, target->Ok_0);
            let r = start_check(a, settings, server_id);
            &&& r is Ok <==> {
                &&& settings_error(settings) is None
                &&& target is Ok
                &&& !is_sharing(s)
                &&& context_of(s) is Ok
                &&& s.server.config.webrtc_sfu_available || (
                s.server.config.webrtc_p2p_relay_available && direct_slots(settings) > 0)
            }
            &&& r is Ok ==> {
                &&& r->Ok_0 == (target->Ok_0, context_of(s)->Ok_0)
            }
            &&& settings_error(settings) is Some ==> r == Err::<
                (Option<ServerId>, Bound),
                Seq<char>,
            >(settings_error(settings)->0)
            &&& settings_error(settings) is None && target is Err ==> r == Err::<
                (Option<ServerId>, Bound),
                Seq<char>,
            >(target->Err_0)
            &&& settings_error(settings) is None && target is Ok && is_sharing(s) ==> r == Err::<
                (Option<ServerId>, Bound),
                Seq<char>,
            >("this server already has an active screen share"@)
            &&& settings_error(settings) is None && target is Ok && !is_sharing(s) && context_of(s)
                is Err ==> r == Err::<(Option<ServerId>, Bound), Seq<char>>(context_of(s)->Err_0)
            &&& settings_error(settings) is None && target is Ok && !is_sharing(s) && context_of(s)
                is Ok && r is Err ==> r == Err::<(Option<ServerId>, Bound), Seq<char>>(
                "this server has no available screen-share transport"@,
            )
        }),
{
}

/// A broadcast that is about to start is shown as running for nobody yet, at
/// the frame rate asked for, without an error.
pub proof fn a_starting_broadcast_is_shown_as_running(
    bound: Bound,
    settings: ScreenShareSettings,
    broadcast_id: Seq<char>,
)
    ensures
        ({
            let v = starting_status(bound, settings, broadcast_id);
            &&& v.server_id == bound.server_id
            &&& v.broadcast_id == broadcast_id
            &&& v.running
            &&& v.fps == settings.fps
            &&& v.viewers.dom() == Set::<u32>::empty()
            &&& v.encoder_id is None
            &&& v.error is None
            &&& !bound.p2p_available ==> v.free_direct_slots == 0
            &&& bound.p2p_available ==> v.free_direct_slots == direct_slots(settings)
        }),
{
}

/// A preview is negotiated with just the broadcast it is of, while that runs.
pub proof fn a_preview_is_of_the_running_broadcast(
    a: AppState,
    server_id: Seq<char>,
    broadcast_id: Seq<char>,
)
    ensures
        ({
            let target = share_target(a, Some(server_id));
            let share = state_at(a, target->Ok_0).native_broadcast;
            &&& target is Err ==> preview_error(a, server_id, broadcast_id) == Some(target->Err_0)
            &&& target is Ok && share is None ==> preview_error(a, server_id, broadcast_id)
                == Some("No active screen share"@)
            &&& target is Ok && share is Some && (!(share->0).running
                || share->0.broadcast_id@ != broadcast_id) ==> preview_error(
                a,
                server_id,
                broadcast_id,
            ) == Some("Screen share has ended or changed"@)
            &&& target is Ok && share is Some && (share->0).running && share->0.broadcast_id@
                == broadcast_id ==> preview_error(a, server_id, broadcast_id) is None
        }),
{
}

/// Something is shared exactly while the last broadcast is running.
pub proof fn sharing_is_a_running_broadcast(s: SharedState)
    ensures
        s.native_broadcast is None ==> !is_sharing(s),
        s.native_broadcast is Some ==> is_sharing(s) == s.native_broadcast->0.running,
{
}

/// Reserving a broadcast puts its status on one connection, of which nothing
/// else changes; every other connection is as it was, and the user stays where
/// they are.
pub proof fn a_reservation_concerns_one_connection(
    before: AppState,
    after: AppState,
    target: Option<ServerId>,
    status: StatusView,
    other: ServerId,
)
    requires
        before.wf(),
        target is Some ==> is_known(before.registry.sessions@, target->0),
        reserved_on(before, after, target, status),
        target != Some(other),
    ensures
        state_at(after, target).native_broadcast is Some,
        state_at(after, target).native_broadcast->0@ == status,
        state_at(after, target).conn == state_at(before, target).conn,
        state_at(after, target).users == state_at(before, target).users,
        state_at(after, target).current_channel == state_at(before, target).current_channel,
        state_at(after, target).audio == state_at(before, target).audio,
        state_at(after, target).server == state_at(before, target).server,
        after.inner == before.inner,
        after.registry.active == before.registry.active,
        is_known(after.registry.sessions@, other) == is_known(before.registry.sessions@, other),
        is_known(before.registry.sessions@, other) ==> state_of(after.registry.sessions@, other)
            == state_of(before.registry.sessions@, other),
{
    if let Some(id) = target {
        let sessions = before.registry.sessions@;
        lemma_position(sessions, id);
        lemma_position(sessions, other);
        lemma_update(
            sessions,
            position(sessions, id)->0,
            Session { id, state: state_at(after, target) },
            other,
        );
    }
}

} // verus!
