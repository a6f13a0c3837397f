//! What a broadcast captures, and how its end is read.

use vstd::prelude::*;

use crate::media::capture::CaptureSource;
use crate::media::encoder::{path_of, resolved_choice, EncoderReport, Report};
use crate::media::pipeline::{PipelineConfig, StopReason};
use crate::media::settings::{settings_error, ScreenShareSettings};
use crate::text::concat2;

verus! {

/// Parameters supplied by the capture source picker.
#[derive(Debug)]
pub struct StartRequest {
    /// What to capture, or why the picker's value could not be read.
    pub source: Result<CaptureSource, String>,
    /// Encoding and transport preferences.
    pub settings: ScreenShareSettings,
    /// Whether the pointer is part of the captured frames.
    pub draw_cursor: bool,
    /// Whether audio is captured too.
    pub share_audio: bool,
}

/// What a flag that may be left out comes to.
pub open spec fn on_unless_off(given: Option<bool>) -> bool {
    match given {
        Some(value) => value,
        None => true,
    }
}

/// How capture has ended, where it has.
pub open spec fn end_of_capture(reason: Option<StopReason>) -> Option<Result<(), String>> {
    match reason {
        None => None,
        Some(StopReason::Requested) | Some(StopReason::SourceEnded) => Some(Ok(())),
        Some(StopReason::Failed { message }) => Some(Err(message)),
    }
}

/// A request comes to this configuration on a machine with these encoders.
pub open spec fn configured(
    request: StartRequest,
    report: Report,
    r: Result<PipelineConfig, String>,
) -> bool {
    let choice = resolved_choice(report, request.settings.encoder@);
    if settings_error(request.settings) is Some {
        r is Err && r->Err_0@ == settings_error(request.settings)->0
    } else if request.source is Err {
        r is Err && r->Err_0@ == "invalid capture source: "@ + request.source->Err_0@
    } else if choice is None {
        r is Err && r->Err_0@ == "no working h264 encoder found on this machine"@
    } else {
        &&& r is Ok
        &&& r->Ok_0.source == request.source->Ok_0
        &&& r->Ok_0.settings == request.settings
        &&& r->Ok_0.draw_cursor == request.draw_cursor
        &&& r->Ok_0.encoder_id@ == (choice->0).0
        &&& r->Ok_0.encoder_input == path_of(report.encoders, (choice->0).0)
    }
}

/// A flag of a request that may be left out: on unless it is turned off.
pub fn flag_or_default(given: Option<bool>) -> (r: bool)
    ensures
        r == (given != Some(false)),
        r == on_unless_off(given),
{
    match given {
        Some(value) => value,
        None => true,
    }
}

/// How capture has ended, where it has: by request and by the end of the source
/// is no error.
pub fn capture_stopped(reason: Option<StopReason>) -> (r: Option<Result<(), String>>)
    ensures
        match reason {
            None => r is None,
            Some(StopReason::Failed { message }) => r == Some(Err::<(), String>(message)),
            Some(_) => r == Some(Ok::<(), String>(())),
        },
        r == end_of_capture(reason),
{
    match reason {
        None => None,
        Some(StopReason::Requested) => Some(Ok(())),
        Some(StopReason::SourceEnded) => Some(Ok(())),
        Some(StopReason::Failed { message }) => Some(Err(message)),
    }
}

/// Check a request, and make the pipeline's configuration of it: the settings
/// first, then the source, then the encoder.
pub fn pipeline_config(request: StartRequest, report: &EncoderReport) -> (r: Result<
    PipelineConfig,
    String,
>)
    ensures
        match settings_error(request.settings) {
            Some(text) => r is Err && r->Err_0@ == text,
            None => match request.source {
                Err(e) => r is Err && r->Err_0@ == "invalid capture source: "@ + e@,
                Ok(source) => match resolved_choice(report@, request.settings.encoder@) {
                    None => r is Err && r->Err_0@
                        == "no working h264 encoder found on this machine"@,
                    Some((id, _)) => {
                        &&& r is Ok
                        &&& r->Ok_0.source == source
                        &&& r->Ok_0.settings == request.settings
                        &&& r->Ok_0.encoder_id@ == id
                        &&& r->Ok_0.encoder_input == path_of(report@.encoders, id)
                        &&& r->Ok_0.draw_cursor == request.draw_cursor
                    },
                },
            },
        },
        configured(request, report@, r),
{
    match request.settings.validate() {
        Err(e) => {
            return Err(e);
        },
        Ok(()) => {},
    }
    let source = match request.source {
        Ok(source) => source,
        Err(e) => {
            return Err(concat2("invalid capture source: ", e.as_str()));
        },
    };
    let selection = match report.resolve_choice(&request.settings.encoder) {
        Ok(selection) => selection,
        Err(e) => {
            return Err(e);
        },
    };
    Ok(
        PipelineConfig {
            source,
            settings: request.settings,
            encoder_id: selection.id,
            encoder_input: selection.input,
            draw_cursor: request.draw_cursor,
        },
    )
}

/// A flag holds unless it is turned off.
pub proof fn flags_hold_unless_turned_off(given: bool)
    ensures
        on_unless_off(Some(given)) == given,
        on_unless_off(None),
{
}

/// Only a failure of capture is an error, and it is told in its own words.
pub proof fn only_failed_capture_is_an_error(message: String)
    ensures
        end_of_capture(None) is None,
        end_of_capture(Some(StopReason::Requested)) == Some(Ok::<(), String>(())),
        end_of_capture(Some(StopReason::SourceEnded)) == Some(Ok::<(), String>(())),
        end_of_capture(Some(StopReason::Failed { message })) == Some(Err::<(), String>(message)),
{
}

/// What was asked for is what is configured: that source, those settings, that
/// pointer, and the encoder that the choice comes to, on the path it takes.
/// Settings that cannot be honoured are told of before a source that cannot be
/// read, and that before a missing encoder.
pub proof fn a_request_is_configured_as_made(
    request: StartRequest,
    report: Report,
    r: Result<PipelineConfig, String>,
)
    requires
        configured(request, report, r),
    ensures
        r is Ok <==> settings_error(request.settings) is None && request.source is Ok
            && resolved_choice(report, request.settings.encoder@) is Some,
        r is Ok ==> {
            &&& r->Ok_0.source == request.source->Ok_0
            &&& r->Ok_0.settings == request.settings
            &&& r->Ok_0.draw_cursor == request.draw_cursor
            &&& r->Ok_0.encoder_id@ == (resolved_choice(report, request.settings.encoder@)->0).0
            &&& r->Ok_0.encoder_input == path_of(report.encoders, r->Ok_0.encoder_id@)
        },
        settings_error(request.settings) is Some ==> r->Err_0@ == settings_error(
            request.settings,
        )->0,
        settings_error(request.settings) is None && request.source is Err ==> r->Err_0@
            == "invalid capture source: "@ + request.source->Err_0@,
        settings_error(request.settings) is None && request.source is Ok && r is Err ==> r->Err_0@
            == "no working h264 encoder found on this machine"@,
{
}

} // verus!
