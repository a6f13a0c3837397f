//! One open encoder: what it is opened with, and what comes out of it.

use vstd::prelude::*;

use crate::media::ffmpeg::graph::SinkFormat;
use crate::media::ffmpeg::params::{
    configure, options_of, options_text, private_options, setup_of, EncoderParams, EncoderSetup,
};
use crate::media::encoder::text_view;
use crate::media::mailbox::EncodedPacket;
use crate::media::settings::outcome_is;
use crate::text::{concat2, concat3, contains_nul};

verus! {

/// What an encoder is opened with: the size that the graph produces, at this
/// rate.
pub open spec fn open_params(format: SinkFormat, bitrate_bps: i64, fps: u32) -> EncoderParams {
    EncoderParams { width: format.width, height: format.height, fps, bitrate_bps }
}

/// Why an encoder could not be opened.
#[derive(Debug, PartialEq, Eq)]
pub enum OpenFailure {
    /// It is not part of the library.
    Missing,
    /// There is no memory for it.
    Memory,
    /// The graph's frames cannot be shared with it.
    Frames,
    /// It refused, in the library's words.
    Refused(String),
    /// There is no memory for its packets.
    Packet,
}

/// Why an encoder could not be opened, for the user.
pub open spec fn open_failure_text(id: Seq<char>, failure: OpenFailure) -> Seq<char> {
    match failure {
        OpenFailure::Missing => id + " is not in this FFmpeg build"@,
        OpenFailure::Memory => "could not allocate codec context"@,
        OpenFailure::Frames => "could not reference hardware frame context"@,
        OpenFailure::Refused(words) => "could not open "@ + id + " ("@ + words@ + ")"@,
        OpenFailure::Packet => "could not allocate packet"@,
    }
}

/// What an encoder is opened with.
#[derive(Debug, PartialEq, Eq)]
pub struct Opening {
    /// The fields of its context.
    pub setup: EncoderSetup,
    /// The pixel format of its frames, as the library numbers them.
    pub pix_fmt: i32,
    /// Whether it takes the graph's hardware frames, so that they never leave
    /// the device they were captured on.
    pub shares_frames: bool,
    /// Its private options, in the order they are set.
    pub options: Vec<(&'static str, &'static str)>,
}

/// An encoder is opened for what a graph produces: as it was set up when it was
/// probed, for the graph's size and pixel format, and with the graph's hardware
/// frames where it has any.
pub open spec fn opened_for(
    opening: Opening,
    id: Seq<char>,
    format: SinkFormat,
    hardware_frames: bool,
    bitrate_bps: i64,
    fps: u32,
) -> bool {
    &&& opening.setup == setup_of(id, open_params(format, bitrate_bps, fps))
    &&& opening.pix_fmt == format.pix_fmt
    &&& opening.shares_frames == hardware_frames
    &&& options_text(opening.options@) == options_of(id)
}

/// How an encoder was opened, from how the library took each step.  A name that
/// contains a NUL cannot be handed to it at all.
///
/// `hardware_frames` says whether the graph's frames lie on a device.
pub fn open(
    id: &str,
    format: SinkFormat,
    hardware_frames: bool,
    bitrate_bps: i64,
    fps: u32,
    failure: Option<OpenFailure>,
) -> (r: Result<Opening, String>)
    ensures
        if id@.contains('\0') {
            r is Err && r->Err_0@ == "encoder name contains NUL"@
        } else {
            match failure {
                None => r is Ok && opened_for(
                    r->Ok_0,
                    id@,
                    format,
                    hardware_frames,
                    bitrate_bps,
                    fps,
                ),
                Some(failure) => r is Err && r->Err_0@ == open_failure_text(id@, failure),
            }
        },
{
    if contains_nul(id) {
        return Err("encoder name contains NUL".to_string());
    }
    match failure {
        None => {
            let params = EncoderParams {
                width: format.width,
                height: format.height,
                fps,
                bitrate_bps,
            };
            Ok(
                Opening {
                    setup: configure(id, &params),
                    pix_fmt: format.pix_fmt,
                    shares_frames: hardware_frames,
                    options: private_options(id),
                },
            )
        },
        Some(OpenFailure::Missing) => Err(concat2(id, " is not in this FFmpeg build")),
        Some(OpenFailure::Memory) => Err("could not allocate codec context".to_string()),
        Some(OpenFailure::Frames) => Err("could not reference hardware frame context".to_string()),
        Some(OpenFailure::Refused(words)) => {
            let head = concat3("could not open ", id, " (");
            Err(concat3(head.as_str(), words.as_str(), ")"))
        },
        Some(OpenFailure::Packet) => Err("could not allocate packet".to_string()),
    }
}

/// Why a frame did not go in, where it did not.
pub open spec fn rejection(id: Seq<char>, refused: Option<Seq<char>>) -> Option<Seq<char>> {
    match refused {
        None => None,
        Some(words) => Some(id + " rejected the frame ("@ + words + ")"@),
    }
}

/// Whether a frame went in, from the library's words where it did not.
pub fn submitted(id: &str, refused: Option<String>) -> (r: Result<(), String>)
    ensures
        match refused {
            None => r is Ok,
            Some(words) => r is Err && r->Err_0@ == id@ + " rejected the frame ("@ + words@
                + ")"@,
        },
        outcome_is(r, rejection(id@, text_view(refused))),
{
    match refused {
        None => Ok(()),
        Some(words) => {
            let head = concat2(id, " rejected the frame (");
            Err(concat3(head.as_str(), words.as_str(), ")"))
        },
    }
}

/// What the library answers when it is asked for a packet.
#[derive(Debug, PartialEq, Eq)]
pub enum ReceiveCode {
    /// One, with this size, timestamp and mark, and these bytes where there
    /// are any.
    Packet {
        /// Its size.
        size: i32,
        /// Its timestamp.
        pts: i64,
        /// Whether it is a key frame.
        key: bool,
        /// Its bytes.
        data: Option<Vec<u8>>,
    },
    /// None until another frame goes in.
    TryAgain,
    /// None any more.
    EndOfFile,
    /// It failed, in the library's words.
    Failed(String),
}

/// The packet of an answer that holds one with something in it.
pub open spec fn received(code: ReceiveCode) -> Option<EncodedPacket> {
    match code {
        ReceiveCode::Packet { size, pts, key, data: Some(bytes) } => if size > 0 {
            Some(EncodedPacket { bytes, pts, key })
        } else {
            None
        },
        _ => None,
    }
}

/// An answer was taken into the packets of a frame, with this outcome.
pub open spec fn answered(
    id: Seq<char>,
    code: ReceiveCode,
    before: Seq<EncodedPacket>,
    after: Seq<EncodedPacket>,
    r: Result<bool, String>,
) -> bool {
    &&& after == match received(code) {
        Some(packet) => before.push(packet),
        None => before,
    }
    &&& match code {
        ReceiveCode::Packet { .. } => r is Ok && r->Ok_0,
        ReceiveCode::TryAgain | ReceiveCode::EndOfFile => r is Ok && !r->Ok_0,
        ReceiveCode::Failed(words) => r is Err && r->Err_0@ == id + " produced no packet ("@
            + words@ + ")"@,
    }
}

/// Take an answer into the packets of a frame; whether to ask again.
pub fn drain_step(id: &str, code: ReceiveCode, packets: &mut Vec<EncodedPacket>) -> (r: Result<
    bool,
    String,
>)
    ensures
        match code {
            ReceiveCode::Packet { .. } => r == Ok::<bool, String>(true),
            ReceiveCode::TryAgain => r == Ok::<bool, String>(false),
            ReceiveCode::EndOfFile => r == Ok::<bool, String>(false),
            ReceiveCode::Failed(words) => r is Err && r->Err_0@ == id@ + " produced no packet ("@
                + words@ + ")"@,
        },
        final(packets)@ == match received(code) {
            Some(packet) => old(packets)@.push(packet),
            None => old(packets)@,
        },
        answered(id@, code, old(packets)@, final(packets)@, r),
{
    match code {
        ReceiveCode::Packet { size, pts, key, data } => {
            if let Some(bytes) = data {
                if size > 0 {
                    packets.push(EncodedPacket { bytes, pts, key });
                }
            }
            Ok(true)
        },
        ReceiveCode::TryAgain => Ok(false),
        ReceiveCode::EndOfFile => Ok(false),
        ReceiveCode::Failed(words) => {
            let head = concat2(id, " produced no packet (");
            Err(concat3(head.as_str(), words.as_str(), ")"))
        },
    }
}

/// An encoder is opened for just the frames the graph makes: their size, their
/// format and where they lie, at the rates asked for.
pub proof fn an_encoder_is_opened_for_its_frames(
    opening: Opening,
    id: Seq<char>,
    format: SinkFormat,
    hardware_frames: bool,
    bitrate_bps: i64,
    fps: u32,
)
    requires
        opened_for(opening, id, format, hardware_frames, bitrate_bps, fps),
    ensures
        opening.setup.width == format.width,
        opening.setup.height == format.height,
        opening.setup.bit_rate == bitrate_bps,
        fps <= i32::MAX ==> opening.setup.framerate_num == fps,
        opening.pix_fmt == format.pix_fmt,
        opening.shares_frames == hardware_frames,
        options_text(opening.options@) == options_of(id),
{
}

/// Each way in which an encoder cannot be opened is told as what it is.
pub proof fn open_failures_are_told(id: Seq<char>, words: String)
    ensures
        open_failure_text(id, OpenFailure::Missing) == id + " is not in this FFmpeg build"@,
        open_failure_text(id, OpenFailure::Memory) == "could not allocate codec context"@,
        open_failure_text(id, OpenFailure::Frames)
            == "could not reference hardware frame context"@,
        open_failure_text(id, OpenFailure::Refused(words)) == "could not open "@ + id + " ("@
            + words@ + ")"@,
        open_failure_text(id, OpenFailure::Packet) == "could not allocate packet"@,
        rejection(id, None) is None,
        rejection(id, Some(words@)) == Some(id + " rejected the frame ("@ + words@ + ")"@),
{
}

/// What the encoder gives is kept as it is, after what it gave before; an empty
/// packet is passed over, and the encoder is asked on exactly while it gives.
pub proof fn what_the_encoder_gives_is_kept(
    id: Seq<char>,
    size: i32,
    pts: i64,
    key: bool,
    bytes: Vec<u8>,
    words: String,
    before: Seq<EncodedPacket>,
    after: Seq<EncodedPacket>,
    r: Result<bool, String>,
)
    ensures
        answered(id, ReceiveCode::Failed(words), before, after, r) ==> {
            &&& r is Err
            &&& r->Err_0@ == id + " produced no packet ("@ + words@ + ")"@
            &&& after == before
        },
        answered(id, ReceiveCode::Packet { size, pts, key, data: Some(bytes) }, before, after, r)
            ==> {
            &&& r == Ok::<bool, String>(true)
            &&& size > 0 ==> {
                &&& after.len() == before.len() + 1
                &&& after.drop_last() == before
                &&& after.last().bytes == bytes
                &&& after.last().pts == pts
                &&& after.last().key == key
            }
            &&& size <= 0 ==> after == before
        },
        answered(id, ReceiveCode::Packet { size, pts, key, data: None }, before, after, r) ==> r
            == Ok::<bool, String>(true) && after == before,
        answered(id, ReceiveCode::TryAgain, before, after, r) ==> r == Ok::<bool, String>(false)
            && after == before,
        answered(id, ReceiveCode::EndOfFile, before, after, r) ==> r == Ok::<bool, String>(false)
            && after == before,
{
    if answered(id, ReceiveCode::Packet { size, pts, key, data: Some(bytes) }, before, after, r)
        && size > 0 {
        assert(after.drop_last() =~= before);
    }
}

} // verus!
