//! Screen sharing: settings, what they come to, and the preview.

use vstd::prelude::*;

use crate::ids::{is_uuid, uuid_reading};
use crate::media::broadcast::peer::{PreviewAction, PreviewEvent};
use crate::media::encoder::{path_of, resolved_choice, EncoderReport, Selection};
use crate::media::settings::{
    bitrate_estimate, direct_slots, encoding_of, settings_error, suggested_bitrate_kbps, OutputSize,
    ResolvedEncoding, ScreenShareSettings,
};
use crate::media::transport::{initial_allocation, Allocator, SfuReason};
use crate::state::app::AppState;
use crate::state::screen_share::preview_error;
use crate::text::same_text;

verus! {

/// Longest signal of a preview, in bytes.
pub const MAX_PREVIEW_SIGNAL: usize = 131072;

/// What a preview request carries.
pub open spec fn preview_payload(payload: Option<String>) -> Seq<char> {
    match payload {
        Some(text) => text@,
        None => Seq::<char>::empty(),
    }
}

/// Whether a preview request asks for an action.
pub open spec fn is_preview_action(
    action: Seq<char>,
    payload: Seq<char>,
    r: PreviewAction,
) -> bool {
    match r {
        PreviewAction::Start => action == "start"@,
        PreviewAction::Answer(text) => action == "answer"@ && text@ == payload,
        PreviewAction::Ice(text) => action == "ice"@ && text@ == payload,
        PreviewAction::Stop => action == "stop"@,
    }
}

/// The names of the actions.
pub open spec fn is_preview_name(action: Seq<char>) -> bool {
    action == "start"@ || action == "answer"@ || action == "ice"@ || action == "stop"@
}

/// Check a request about a preview, and read what it asks for: its identity
/// first, then the length of what it carries, then the action.
pub fn preview_action(preview_id: &str, action: &str, payload: Option<String>) -> (r: Result<
    PreviewAction,
    String,
>)
    ensures
        match preview_request_error(preview_id@, action@, payload) {
            Some(text) => r is Err && r->Err_0@ == text,
            None => r is Ok && is_preview_action(action@, preview_payload(payload), r->Ok_0),
        },
{
    if !is_uuid(preview_id) {
        return Err("Invalid preview id".to_string());
    }
    let payload = match payload {
        Some(text) => text,
        None => String::new(),
    };
    if payload.as_str().as_bytes().len() > MAX_PREVIEW_SIGNAL {
        return Err("Preview signal too large".to_string());
    }
    if same_text(action, "start") {
        Ok(PreviewAction::Start)
    } else if same_text(action, "answer") {
        Ok(PreviewAction::Answer(payload))
    } else if same_text(action, "ice") {
        Ok(PreviewAction::Ice(payload))
    } else if same_text(action, "stop") {
        Ok(PreviewAction::Stop)
    } else {
        Err("Invalid preview action".to_string())
    }
}

/// A preview action is asked for by one name only.
pub proof fn preview_names_are_distinct(action: Seq<char>, payload: Seq<char>, r: PreviewAction)
    requires
        is_preview_action(action, payload, r),
    ensures
        is_preview_name(action),
        r is Start <==> action == "start"@,
        r is Answer <==> action == "answer"@,
        r is Ice <==> action == "ice"@,
        r is Stop <==> action == "stop"@,
{
    reveal_strlit("start");
    reveal_strlit("answer");
    reveal_strlit("ice");
    reveal_strlit("stop");
    assert("start"@.len() == 5 && "answer"@.len() == 6 && "ice"@.len() == 3 && "stop"@.len() == 4);
}

/// Why a request about a preview is refused before its broadcast is looked at,
/// where it is.
pub open spec fn preview_request_error(
    preview_id: Seq<char>,
    action: Seq<char>,
    payload: Option<String>,
) -> Option<Seq<char>> {
    if uuid_reading(preview_id) is Err {
        Some("Invalid preview id"@)
    } else if vstd::utf8::encode_utf8(preview_payload(payload)).len() > MAX_PREVIEW_SIGNAL {
        Some("Preview signal too large"@)
    } else if !is_preview_name(action) {
        Some("Invalid preview action"@)
    } else {
        None
    }
}

/// What the broadcast is handed for a request about its preview: the request is
/// checked first, then the broadcast.
pub fn native_screen_share_preview(
    state: &AppState,
    server_id: &str,
    broadcast_id: &str,
    preview_id: String,
    action: &str,
    payload: Option<String>,
) -> (r: Result<PreviewEvent, String>)
    requires
        state.wf(),
    ensures
        match preview_request_error(preview_id@, action@, payload) {
            Some(text) => r is Err && r->Err_0@ == text,
            None => match preview_error(*state, server_id@, broadcast_id@) {
                Some(text) => r is Err && r->Err_0@ == text,
                None => {
                    &&& r is Ok
                    &&& r->Ok_0.id == preview_id
                    &&& is_preview_action(action@, preview_payload(payload), r->Ok_0.action)
                },
            },
        },
{
    match preview_action(preview_id.as_str(), action, payload) {
        Ok(action) => state.native_screen_share_preview(
            server_id,
            broadcast_id,
            preview_id,
            action,
        ),
        Err(e) => Err(e),
    }
}

/// Check settings that were saved earlier, as starting a broadcast does.
pub fn validate_screen_share_settings(settings: ScreenShareSettings) -> (r: Result<
    ScreenShareSettings,
    String,
>)
    ensures
        match settings_error(settings) {
            Some(text) => r is Err && r->Err_0@ == text,
            None => r == Ok::<ScreenShareSettings, String>(settings),
        },
{
    match settings.validate() {
        Ok(()) => Ok(settings),
        Err(e) => Err(e),
    }
}

/// The estimate that is shown next to a bit rate that the user enters.
pub fn suggested_screen_share_bitrate(width: u32, height: u32, fps: u32) -> (r: u32)
    ensures
        r == bitrate_estimate(width as int, height as int, fps as int),
{
    suggested_bitrate_kbps(OutputSize { width, height }, fps)
}

/// How viewers will be served.
#[derive(Debug, Clone, Copy, PartialEq, Eq, Structural)]
pub struct TransportPlan {
    /// How many will be offered a direct connection.
    pub direct_slots: u32,
    /// Why none will, where none will.
    pub sfu_only_reason: Option<SfuReason>,
}

/// What settings come to.
#[derive(Debug)]
pub struct ResolvedScreenShare {
    /// What the encoder is opened with.
    pub encoding: ResolvedEncoding,
    /// Which encoder is opened.
    pub encoder: Selection,
    /// How viewers will be served.
    pub transport: TransportPlan,
}

/// How viewers will be served by a server that relays the signals of direct
/// connections, or does not.
pub open spec fn transport_plan(
    settings: ScreenShareSettings,
    server_relays_p2p: bool,
) -> TransportPlan {
    let start = initial_allocation(settings, server_relays_p2p);
    TransportPlan { direct_slots: start.slots as u32, sfu_only_reason: start.disabled }
}

/// How viewers will be served, before anything starts.  What the server cannot
/// relay overrides what the user has asked for.
pub fn plan_transport(settings: &ScreenShareSettings, state: &AppState) -> (r: TransportPlan)
    requires
        state.wf(),
    ensures
        r == transport_plan(
            *settings,
            state.current().server.config.webrtc_p2p_relay_available,
        ),
{
    let allocator = Allocator::new(settings, state.server_relays_p2p());
    assert(allocator@.direct() =~= Set::empty());
    TransportPlan {
        direct_slots: allocator.free_slots(),
        sfu_only_reason: allocator.sfu_only_reason(),
    }
}

/// What settings come to for a source of this size on this machine: the
/// settings are checked first, then the build, then the encoder.
pub fn resolve_screen_share_encoding(
    state: &AppState,
    settings: &ScreenShareSettings,
    source_width: u32,
    source_height: u32,
    report: &EncoderReport,
) -> (r: Result<ResolvedScreenShare, String>)
    requires
        state.wf(),
    ensures
        match settings_error(*settings) {
            Some(text) => r is Err && r->Err_0@ == text,
            None => if !report.supported {
                r is Err && r->Err_0@
                    == "native screen-share encoding is not available in this build"@
            } else {
                match resolved_choice(report@, settings.encoder@) {
                    None => r is Err && r->Err_0@
                        == "no working h264 encoder found on this machine"@,
                    Some((id, fell_back)) => {
                        &&& r is Ok
                        &&& r->Ok_0.encoding == encoding_of(
                            *settings,
                            (OutputSize { width: source_width, height: source_height }),
                        )
                        &&& r->Ok_0.encoder.id@ == id
                        &&& r->Ok_0.encoder.fell_back == fell_back
                        &&& r->Ok_0.encoder.input == path_of(report@.encoders, id)
                        &&& r->Ok_0.transport == transport_plan(
                            *settings,
                            state.current().server.config.webrtc_p2p_relay_available,
                        )
                    },
                }
            },
        },
{
    let encoding = match settings.resolve(
        OutputSize { width: source_width, height: source_height },
    ) {
        Ok(encoding) => encoding,
        Err(e) => {
            return Err(e);
        },
    };
    let transport = plan_transport(settings, state);
    if !report.supported {
        return Err("native screen-share encoding is not available in this build".to_string());
    }
    match report.resolve_choice(&settings.encoder) {
        Ok(encoder) => Ok(ResolvedScreenShare { encoding, encoder, transport }),
        Err(e) => Err(e),
    }
}

/// A plan promises direct connections exactly where it gives no reason against
/// them.
pub proof fn a_plan_is_honest(settings: ScreenShareSettings, server_relays_p2p: bool)
    ensures
        transport_plan(settings, server_relays_p2p).direct_slots == 0 <==> transport_plan(
            settings,
            server_relays_p2p,
        ).sfu_only_reason is Some,
        !server_relays_p2p ==> transport_plan(settings, server_relays_p2p).direct_slots == 0,
{
}

/// A request about a preview is refused for its identity, for more than 128 KiB
/// of what it carries, or for an action that has no name here, in that order;
/// every other is read as what it is called, carrying what it carried.
pub proof fn preview_requests_are_read_as_made(
    preview_id: Seq<char>,
    action: Seq<char>,
    payload: Option<String>,
    text: String,
)
    ensures
        uuid_reading(preview_id) is Err ==> preview_request_error(preview_id, action, payload)
            == Some("Invalid preview id"@),
        uuid_reading(preview_id) is Ok && vstd::utf8::encode_utf8(text@).len() > 131_072
            ==> preview_request_error(preview_id, action, Some(text)) == Some(
            "Preview signal too large"@,
        ),
        uuid_reading(preview_id) is Ok && vstd::utf8::encode_utf8(text@).len() <= 131_072 && (action
            == "start"@ || action == "answer"@ || action == "ice"@ || action == "stop"@)
            ==> preview_request_error(preview_id, action, Some(text)) is None,
        uuid_reading(preview_id) is Ok && vstd::utf8::encode_utf8(text@).len() <= 131_072 && action
            != "start"@ && action != "answer"@ && action != "ice"@ && action != "stop"@
            ==> preview_request_error(preview_id, action, Some(text)) == Some(
            "Invalid preview action"@,
        ),
        preview_payload(Some(text)) == text@,
        preview_payload(None).len() == 0,
        is_preview_action(action, text@, PreviewAction::Answer(text)) <==> action == "answer"@,
        is_preview_action(action, text@, PreviewAction::Ice(text)) <==> action == "ice"@,
{
}

/// What the user allows is planned where the server relays such connections;
/// where it does not, that is the reason, whatever the user allows.
pub proof fn a_plan_is_what_the_user_allows(settings: ScreenShareSettings)
    ensures
        transport_plan(settings, true).direct_slots == direct_slots(settings),
        transport_plan(settings, false).direct_slots == 0,
        transport_plan(settings, false).sfu_only_reason == Some(SfuReason::ServerUnsupported),
        direct_slots(settings) > 0 ==> transport_plan(settings, true).sfu_only_reason is None,
        direct_slots(settings) == 0 ==> transport_plan(settings, true).sfu_only_reason == Some(
            SfuReason::Disabled,
        ),
{
}

} // verus!
