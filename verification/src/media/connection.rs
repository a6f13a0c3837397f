//! One connection carrying an encoded screen-share stream.
//!
//! The same shape serves both transports: the forwarding server and a direct
//! viewer differ only in who is on the far end and which signal types carry
//! the handshake.  Both are offered a send-only video track and optional
//! stereo audio.
//!
//! This module holds what is offered and how frames are timed; the connection
//! itself belongs to the transport library.

use std::collections::VecDeque;

use vstd::prelude::*;

use crate::collections::{first_from, first_where, first_where_is_first};
use crate::text::{has_prefix, lower_text, same_ignoring_case, same_text, starts_with};

use super::audio::SAMPLE_RATE;

verus! {

/// Clock rate every video codec uses, in Hz.
pub const VIDEO_CLOCK_RATE: u32 = 90_000;

/// Payload type offered for H.264.
pub const PT_H264: u8 = 114;

/// Payload type offered for HEVC.
pub const PT_HEVC: u8 = 98;

/// Payload type offered for AV1.
pub const PT_AV1: u8 = 45;

/// Payload type offered for Opus.
pub const PT_OPUS: u8 = 111;

/// The codec a connection carries, derived from the encoder in use.
#[derive(Debug, Clone, Copy, PartialEq, Eq, Structural)]
pub enum Codec {
    /// H.264, the only codec automatic encoder selection produces.
    H264,
    /// HEVC.  Needs the server's support.
    Hevc,
    /// AV1.
    Av1,
}

/// Which codec an encoder of this name produces, where that is known.
pub open spec fn codec_of_encoder(id: Seq<char>) -> Option<Codec> {
    if has_prefix(id, "h264"@) || id == "libopenh264"@ {
        Some(Codec::H264)
    } else if has_prefix(id, "hevc"@) {
        Some(Codec::Hevc)
    } else if has_prefix(id, "av1"@) {
        Some(Codec::Av1)
    } else {
        None
    }
}

/// The parameters of a codec that are offered to the far end.
#[derive(Debug, PartialEq, Eq)]
pub struct CodecParameters {
    /// Media type.
    pub mime_type: String,
    /// Clock rate in Hz.
    pub clock_rate: u32,
    /// Channels, or 0 for video.
    pub channels: u16,
    /// Format parameters.
    pub sdp_fmtp_line: String,
    /// Payload type.
    pub payload_type: u8,
}

/// What codec parameters say.
#[verifier::ext_equal]
pub struct Offered {
    /// Media type.
    pub mime_type: Seq<char>,
    /// Clock rate in Hz.
    pub clock_rate: u32,
    /// Channels, or 0 for video.
    pub channels: u16,
    /// Format parameters.
    pub sdp_fmtp_line: Seq<char>,
    /// Payload type.
    pub payload_type: u8,
}

impl View for CodecParameters {
    type V = Offered;

    open spec fn view(&self) -> Offered {
        Offered {
            mime_type: self.mime_type@,
            clock_rate: self.clock_rate,
            channels: self.channels,
            sdp_fmtp_line: self.sdp_fmtp_line@,
            payload_type: self.payload_type,
        }
    }
}

/// What is offered for a video codec.
///
/// The H.264 format line has to describe what the encoder actually emits: the
/// profile and the packetization mode have to match exactly, and a mismatch is
/// not an error but a silent frame drop.  It says High 3.1, the profile that
/// every H.264 encoder is configured for.
pub open spec fn video_offer(codec: Codec) -> Offered {
    let (mime_type, payload_type, sdp_fmtp_line) = match codec {
        Codec::H264 => (
            "video/H264"@,
            PT_H264,
            "level-asymmetry-allowed=1;packetization-mode=1;profile-level-id=64001f"@,
        ),
        Codec::Hevc => ("video/H265"@, PT_HEVC, ""@),
        Codec::Av1 => ("video/AV1"@, PT_AV1, ""@),
    };
    Offered {
        mime_type,
        clock_rate: VIDEO_CLOCK_RATE,
        channels: 0,
        sdp_fmtp_line,
        payload_type,
    }
}

/// What is offered for audio.
pub open spec fn audio_offer() -> Offered {
    Offered {
        mime_type: "audio/opus"@,
        clock_rate: SAMPLE_RATE,
        channels: 2,
        sdp_fmtp_line: "minptime=10;useinbandfec=1;stereo=1;sprop-stereo=1"@,
        payload_type: PT_OPUS,
    }
}

impl Codec {
    /// Which codec an encoder name produces.
    ///
    /// `None` for a name that is not recognised: offering the wrong codec is
    /// worse than refusing to start, because a mismatch makes the server drop
    /// every frame silently.
    pub fn from_encoder(id: &str) -> (r: Option<Self>)
        ensures
            r == codec_of_encoder(id@),
    {
        if starts_with(id, "h264") || same_text(id, "libopenh264") {
            return Some(Codec::H264);
        }
        if starts_with(id, "hevc") {
            return Some(Codec::Hevc);
        }
        if starts_with(id, "av1") {
            return Some(Codec::Av1);
        }
        None
    }

    /// The codec parameters to offer.
    pub fn codec_parameters(self) -> (r: CodecParameters)
        ensures
            r@ == video_offer(self),
    {
        let (mime, payload_type, fmtp): (&str, u8, &str) = match self {
            Codec::H264 => (
                "video/H264",
                PT_H264,
                "level-asymmetry-allowed=1;packetization-mode=1;profile-level-id=64001f",
            ),
            Codec::Hevc => ("video/H265", PT_HEVC, ""),
            Codec::Av1 => ("video/AV1", PT_AV1, ""),
        };
        CodecParameters {
            mime_type: mime.to_owned(),
            clock_rate: VIDEO_CLOCK_RATE,
            channels: 0,
            sdp_fmtp_line: fmtp.to_owned(),
            payload_type,
        }
    }
}

/// The audio codec parameters to offer.
pub fn audio_parameters() -> (r: CodecParameters)
    ensures
        r@ == audio_offer(),
{
    CodecParameters {
        mime_type: "audio/opus".to_owned(),
        clock_rate: SAMPLE_RATE,
        channels: 2,
        sdp_fmtp_line: "minptime=10;useinbandfec=1;stereo=1;sprop-stereo=1".to_owned(),
        payload_type: PT_OPUS,
    }
}

/// The servers used to discover our public address.
pub fn stun_urls() -> (r: Vec<String>)
    ensures
        r@.len() == 2,
        r@[0]@ == "stun:stun.l.google.com:19302"@,
        r@[1]@ == "stun:stun1.l.google.com:19302"@,
{
    vec![
        "stun:stun.l.google.com:19302".to_owned(),
        "stun:stun1.l.google.com:19302".to_owned(),
    ]
}

/// A codec that the far end agreed to.
#[derive(Debug, PartialEq, Eq)]
pub struct Negotiated {
    /// Media type.
    pub mime_type: String,
    /// Payload type.
    pub payload_type: u8,
}

/// The nominal frame interval in nanoseconds.
pub open spec fn frame_interval(fps: int) -> int {
    1_000_000_000int / (if fps < 1 {
        1
    } else {
        fps
    })
}

/// How far the timestamp moves before a frame is written.
#[derive(Debug, Clone, Copy, PartialEq, Eq, Structural)]
pub enum Step {
    /// Not at all: this is the first frame.
    Stay,
    /// By the nominal frame interval, in nanoseconds.
    Nominal {
        /// Nanoseconds.
        nanos: u64,
    },
    /// By this many milliseconds.
    Millis {
        /// Milliseconds.
        millis: u64,
    },
}

/// What to do with a frame.
#[derive(Debug, Clone, Copy, PartialEq, Eq, Structural)]
pub enum VideoWrite {
    /// Nothing: the far end has not answered yet.
    Discard,
    /// Move the timestamp, then write the frame under this payload type.
    Write {
        /// The payload type.
        payload_type: u8,
        /// How far to move first.
        step: Step,
    },
}

/// The timing of a connection's video.
#[derive(Debug, Clone, Copy, PartialEq, Eq, Structural)]
pub struct VideoTiming {
    /// Payload type the far end agreed to, once an answer has arrived.
    pub payload_type: Option<u8>,
    /// Nominal frame interval in nanoseconds.
    pub frame_nanos: u64,
    /// The previous frame's timestamp.
    pub last_pts_ms: Option<i64>,
}

/// How far the timestamp moves from one frame to the next: by the difference of
/// their times, and by the nominal interval where time does not advance.
pub open spec fn step_between(previous: int, pts_ms: int, frame_nanos: u64) -> Step {
    if pts_ms > previous {
        Step::Millis {
            millis: (if pts_ms - previous > i64::MAX {
                i64::MAX as int
            } else {
                pts_ms - previous
            }) as u64,
        }
    } else {
        Step::Nominal { nanos: frame_nanos }
    }
}

/// What to do with a frame of this time.
pub open spec fn video_write(t: VideoTiming, pts_ms: i64) -> VideoWrite {
    match t.payload_type {
        None => VideoWrite::Discard,
        Some(payload_type) => VideoWrite::Write {
            payload_type,
            step: match t.last_pts_ms {
                None => Step::Stay,
                Some(previous) => step_between(previous as int, pts_ms as int, t.frame_nanos),
            },
        },
    }
}

impl VideoTiming {
    /// The timing of a connection that has not been answered.
    pub fn new(fps: u32) -> (r: Self)
        ensures
            r.payload_type is None,
            r.frame_nanos == frame_interval(fps as int),
            r.last_pts_ms is None,
    {
        let rate: u64 = if fps < 1 { 1 } else { fps as u64 };
        VideoTiming { payload_type: None, frame_nanos: 1_000_000_000 / rate, last_pts_ms: None }
    }

    /// Take the codecs that the far end agreed to.
    ///
    /// The first one is used.  None at all is an error rather than a silent
    /// no-op: nothing would ever arrive.
    pub fn negotiate(&mut self, codecs: &Vec<Negotiated>) -> (r: Result<(), String>)
        ensures
            if codecs@.len() == 0 {
                &&& r is Err
                &&& r->Err_0@ == "the far end negotiated no video codec"@
                &&& *final(self) == *old(self)
            } else {
                &&& r is Ok
                &&& *final(self) == (VideoTiming {
                    payload_type: Some(codecs@[0].payload_type),
                    ..*old(self)
                })
                &&& final(self).payload_type == agreed_video(codecs@)
            },
    {
        if codecs.len() == 0 {
            return Err("the far end negotiated no video codec".to_owned());
        }
        self.payload_type = Some(codecs[0].payload_type);
        Ok(())
    }

    /// Decide what to do with a frame.
    ///
    /// The packetizer moves its clock after a sample, so the clock is moved by
    /// an empty sample first and the frame is stamped with its actual time.
    /// This keeps the gaps of dropped frames without a frame of latency.
    pub fn plan(&self, pts_ms: i64) -> (r: VideoWrite)
        ensures
            r == video_write(*self, pts_ms),
    {
        match self.payload_type {
            None => VideoWrite::Discard,
            Some(payload_type) => {
                let step = match self.last_pts_ms {
                    None => Step::Stay,
                    Some(previous) => {
                        if pts_ms > previous {
                            let wide: i128 = pts_ms as i128 - previous as i128;
                            let millis: u64 = if wide > i64::MAX as i128 {
                                i64::MAX as u64
                            } else {
                                wide as u64
                            };
                            Step::Millis { millis }
                        } else {
                            Step::Nominal { nanos: self.frame_nanos }
                        }
                    },
                };
                VideoWrite::Write { payload_type, step }
            },
        }
    }

    /// Note that the clock has been moved for a frame.
    pub fn stamped(&mut self, pts_ms: i64)
        ensures
            *final(self) == (VideoTiming { last_pts_ms: Some(pts_ms), ..*old(self) }),
            *final(self) == video_sent(*old(self), pts_ms),
    {
        self.last_pts_ms = Some(pts_ms);
    }
}

/// Frames are discarded exactly until the far end has answered.
pub proof fn frames_are_discarded_until_answered(t: VideoTiming, pts_ms: i64)
    ensures
        video_write(t, pts_ms) is Discard <==> t.payload_type is None,
{
}

/// Dropped frames leave their gap: between two frames that are written the
/// clock moves by exactly the time that lies between them.
pub proof fn gaps_between_frames_are_kept(t: VideoTiming, first: i64, second: i64)
    requires
        t.payload_type is Some,
        first < second,
        second - first <= i64::MAX,
    ensures
        video_write(VideoTiming { last_pts_ms: Some(first), ..t }, second) == (
        VideoWrite::Write {
            payload_type: t.payload_type->0,
            step: Step::Millis { millis: (second - first) as u64 },
        }),
{
}

/// What to do with an audio packet.
#[derive(Debug, Clone, Copy, PartialEq, Eq, Structural)]
pub enum AudioWrite {
    /// Nothing: the far end has not answered yet, or the packet is not later
    /// than the last one.
    Discard,
    /// Move the clock by these samples, then write the packet under this
    /// payload type.
    Write {
        /// The payload type.
        payload_type: u8,
        /// How many samples to move first, where this is not the first packet.
        samples: Option<u64>,
    },
}

/// The timing of a connection's audio.
#[derive(Debug, Clone, Copy, PartialEq, Eq, Structural)]
pub struct AudioTiming {
    /// Payload type the far end agreed to, once an answer has arrived.
    pub payload_type: Option<u8>,
    /// The previous packet's timestamp, in samples.
    pub last_pts: Option<u64>,
}

/// What to do with a packet of this time.
pub open spec fn audio_write(t: AudioTiming, pts: u64) -> AudioWrite {
    match t.payload_type {
        None => AudioWrite::Discard,
        Some(payload_type) => match t.last_pts {
            None => AudioWrite::Write { payload_type, samples: None },
            Some(previous) => if pts <= previous {
                AudioWrite::Discard
            } else {
                AudioWrite::Write { payload_type, samples: Some((pts - previous) as u64) }
            },
        },
    }
}

impl AudioTiming {
    /// The timing of a connection that has not been answered.
    pub fn new() -> (r: Self)
        ensures
            r == (AudioTiming { payload_type: None, last_pts: None }),
    {
        AudioTiming { payload_type: None, last_pts: None }
    }

    /// Take the codecs that the far end agreed to: the first that is Opus, in
    /// whatever case of letters.
    pub fn negotiate(&mut self, codecs: &Vec<Negotiated>) -> (r: Result<(), String>)
        ensures
            match first_where(
                codecs@,
                |c: Negotiated| lower_text(c.mime_type@) == lower_text("audio/opus"@),
            ) {
                Some(i) => {
                    &&& r is Ok
                    &&& *final(self) == (AudioTiming {
                        payload_type: Some(codecs@[i].payload_type),
                        ..*old(self)
                    })
                },
                None => {
                    &&& r is Err
                    &&& r->Err_0@ == "the far end negotiated no Opus codec"@
                    &&& *final(self) == (AudioTiming { payload_type: None, ..*old(self) })
                },
            },
            final(self).payload_type == agreed_audio(codecs@),
    {
        let ghost opus = |c: Negotiated| lower_text(c.mime_type@) == lower_text("audio/opus"@);
        let mut i: usize = 0;
        while i < codecs.len()
            invariant
                i <= codecs.len(),
                *self == *old(self),
                opus == (|c: Negotiated| lower_text(c.mime_type@) == lower_text("audio/opus"@)),
                first_where(codecs@, opus) == first_from(codecs@, opus, i as int),
            decreases codecs.len() - i,
        {
            if same_ignoring_case(codecs[i].mime_type.as_str(), "audio/opus") {
                assert(first_where(codecs@, opus) == Some(i as int));
                self.payload_type = Some(codecs[i].payload_type);
                return Ok(());
            }
            i += 1;
        }
        self.payload_type = None;
        Err("the far end negotiated no Opus codec".to_owned())
    }

    /// Decide what to do with a packet.
    pub fn plan(&self, pts: u64) -> (r: AudioWrite)
        ensures
            r == audio_write(*self, pts),
    {
        match self.payload_type {
            None => AudioWrite::Discard,
            Some(payload_type) => match self.last_pts {
                None => AudioWrite::Write { payload_type, samples: None },
                Some(previous) => {
                    if pts <= previous {
                        AudioWrite::Discard
                    } else {
                        AudioWrite::Write { payload_type, samples: Some(pts - previous) }
                    }
                },
            },
        }
    }

    /// Note that a packet has been written.
    pub fn written(&mut self, pts: u64)
        ensures
            *final(self) == (AudioTiming { last_pts: Some(pts), ..*old(self) }),
            *final(self) == audio_sent(*old(self), pts),
    {
        self.last_pts = Some(pts);
    }
}

/// Audio never goes back in time: a packet is only written when it is later
/// than the one before, and lost packets leave their gap.
pub proof fn audio_never_goes_back(t: AudioTiming, previous: u64, pts: u64)
    requires
        t.payload_type is Some,
    ensures
        audio_write(AudioTiming { last_pts: Some(previous), ..t }, pts) is Discard <==> pts
            <= previous,
        pts > previous ==> audio_write(AudioTiming { last_pts: Some(previous), ..t }, pts)
            == (AudioWrite::Write {
            payload_type: t.payload_type->0,
            samples: Some((pts - previous) as u64),
        }),
{
}

/// How many batches of key-frame requests are kept.
pub const MAX_FEEDBACK: usize = 16;

/// Batches of key-frame requests, kept before the default handling of control
/// packets consumes them.
#[derive(Debug)]
pub struct KeyFrameFeedback<P> {
    queue: VecDeque<Vec<P>>,
}

/// The packets that ask for a key frame, in order.
pub open spec fn requests_of<P>(packets: Seq<(P, bool)>) -> Seq<P>
    decreases packets.len(),
{
    if packets.len() == 0 {
        Seq::empty()
    } else if packets.last().1 {
        requests_of(packets.drop_last()).push(packets.last().0)
    } else {
        requests_of(packets.drop_last())
    }
}

/// The batches with one more: the oldest is dropped when there is no room.
pub open spec fn with_batch<P>(queue: Seq<Seq<P>>, batch: Seq<P>) -> Seq<Seq<P>> {
    if batch.len() == 0 {
        queue
    } else if queue.len() == MAX_FEEDBACK {
        queue.subrange(1, queue.len() as int).push(batch)
    } else {
        queue.push(batch)
    }
}

impl<P> View for KeyFrameFeedback<P> {
    type V = Seq<Seq<P>>;

    closed spec fn view(&self) -> Seq<Seq<P>> {
        self.queue@.map_values(|batch: Vec<P>| batch@)
    }
}

impl<P: Copy> KeyFrameFeedback<P> {
    /// Nothing kept.
    pub fn new() -> (r: Self)
        ensures
            r@ == Seq::<Seq<P>>::empty(),
    {
        let r = KeyFrameFeedback { queue: VecDeque::new() };
        assert(r@ =~= Seq::<Seq<P>>::empty());
        r
    }

    /// Keep the packets of a batch that ask for a key frame, if any do.
    pub fn note(&mut self, packets: &Vec<(P, bool)>)
        requires
            old(self)@.len() <= MAX_FEEDBACK,
        ensures
            final(self)@ == with_batch(old(self)@, requests_of(packets@)),
            final(self)@.len() <= MAX_FEEDBACK,
    {
        let ghost start = self@;
        let mut batch: Vec<P> = Vec::new();
        let mut i: usize = 0;
        while i < packets.len()
            invariant
                i <= packets.len(),
                batch@ == requests_of(packets@.subrange(0, i as int)),
            decreases packets.len() - i,
        {
            assert(packets@.subrange(0, i + 1).drop_last() =~= packets@.subrange(0, i as int));
            if packets[i].1 {
                batch.push(packets[i].0);
            }
            i += 1;
        }
        assert(packets@.subrange(0, packets@.len() as int) =~= packets@);
        if batch.len() > 0 {
            let ghost b = batch@;
            assert(start.len() == self.queue@.len());
            if self.queue.len() == MAX_FEEDBACK {
                let _ = self.queue.pop_front();
                assert(self@ =~= start.subrange(1, start.len() as int));
            }
            let ghost room = self@;
            self.queue.push_back(batch);
            assert(self@ =~= room.push(b));
        }
    }

    /// Take the oldest batch.
    pub fn take(&mut self) -> (r: Option<Vec<P>>)
        ensures
            if old(self)@.len() == 0 {
                r is None && final(self)@ == old(self)@
            } else {
                &&& r is Some
                &&& r->0@ == old(self)@[0]
                &&& final(self)@ == old(self)@.subrange(1, old(self)@.len() as int)
            },
            r is Some <==> first_batch(old(self)@).0 is Some,
            r is Some ==> first_batch(old(self)@).0 == Some(r->0@),
            final(self)@ == first_batch(old(self)@).1,
    {
        let ghost start = self@;
        assert(start.len() == self.queue@.len());
        let r = self.queue.pop_front();
        if r.is_some() {
            assert(self@ =~= start.subrange(1, start.len() as int));
        }
        r
    }

    /// Forget every batch.
    pub fn clear(&mut self)
        ensures
            final(self)@ == Seq::<Seq<P>>::empty(),
    {
        self.queue = VecDeque::new();
        assert(self@ =~= Seq::<Seq<P>>::empty());
    }
}

/// However many requests arrive, a bounded number of batches is kept, and the
/// latest is among them.
pub proof fn feedback_is_bounded<P>(queue: Seq<Seq<P>>, batch: Seq<P>)
    requires
        queue.len() <= MAX_FEEDBACK,
        batch.len() > 0,
    ensures
        with_batch(queue, batch).len() <= MAX_FEEDBACK,
        with_batch(queue, batch).last() == batch,
{
}

/// The codec of a stream is the one that its encoder makes, by the encoder's
/// name; of a name that says nothing of the codec nothing is offered.
pub proof fn the_encoders_name_tells_the_codec(id: Seq<char>, rest: Seq<char>)
    ensures
        codec_of_encoder("h264"@ + rest) == Some(Codec::H264),
        codec_of_encoder("libopenh264"@) == Some(Codec::H264),
        codec_of_encoder("hevc"@ + rest) == Some(Codec::Hevc),
        codec_of_encoder("av1"@ + rest) == Some(Codec::Av1),
        id != "libopenh264"@ && !has_prefix(id, "h264"@) && !has_prefix(id, "hevc"@)
            && !has_prefix(id, "av1"@) ==> codec_of_encoder(id) is None,
{
    reveal_strlit("h264");
    reveal_strlit("hevc");
    reveal_strlit("av1");
    reveal_strlit("libopenh264");
    let a = "h264"@ + rest;
    let b = "hevc"@ + rest;
    let c = "av1"@ + rest;
    assert(a.subrange(0, 4) =~= "h264"@);
    assert(b.subrange(0, 4) =~= "hevc"@);
    assert(c.subrange(0, 3) =~= "av1"@);
    assert(b[1] == 'e' && c[0] == 'a' && "h264"@[1] == '2' && "libopenh264"@[0] == 'l');
    if has_prefix(b, "h264"@) {
        assert(b.subrange(0, 4)[1] == b[1]);
    }
    if has_prefix(c, "h264"@) {
        assert(c.subrange(0, 4)[0] == c[0]);
    }
    if has_prefix(c, "hevc"@) {
        assert(c.subrange(0, 4)[0] == c[0]);
    }
    assert(b[0] == 'h');
}

/// Each codec is offered under a payload type of its own, on the clock that
/// video or audio runs on; H.264 as the encoders make it, Opus in stereo.
pub proof fn offers_describe_what_is_sent(codec: Codec)
    ensures
        video_offer(codec).clock_rate == 90_000,
        video_offer(codec).channels == 0,
        video_offer(Codec::H264).mime_type == "video/H264"@,
        video_offer(Codec::H264).payload_type == 114,
        video_offer(Codec::H264).sdp_fmtp_line
            == "level-asymmetry-allowed=1;packetization-mode=1;profile-level-id=64001f"@,
        video_offer(Codec::Hevc).mime_type == "video/H265"@,
        video_offer(Codec::Hevc).payload_type == 98,
        video_offer(Codec::Hevc).sdp_fmtp_line.len() == 0,
        video_offer(Codec::Av1).mime_type == "video/AV1"@,
        video_offer(Codec::Av1).payload_type == 45,
        video_offer(Codec::Av1).sdp_fmtp_line.len() == 0,
        audio_offer().mime_type == "audio/opus"@,
        audio_offer().clock_rate == 48_000,
        audio_offer().channels == 2,
        audio_offer().payload_type == 111,
        audio_offer().sdp_fmtp_line == "minptime=10;useinbandfec=1;stereo=1;sprop-stereo=1"@,
{
    reveal_strlit("");
}

/// The nominal interval is that of the frame rate, to the nanosecond below.
pub proof fn the_nominal_interval_is_that_of_the_frame_rate(fps: int)
    ensures
        fps >= 1 ==> frame_interval(fps) * fps <= 1_000_000_000 < (frame_interval(fps) + 1) * fps,
        fps < 1 ==> frame_interval(fps) == 1_000_000_000,
{
    if fps >= 1 {
        let q = 1_000_000_000int / fps;
        assert(q * fps <= 1_000_000_000 < (q + 1) * fps) by (nonlinear_arith)
            requires
                q == 1_000_000_000int / fps,
                fps >= 1,
        ;
    }
}

/// The first frame sets the time, a later one moves it by just the time between
/// the two, and one whose time does not advance by the nominal interval; all of
/// them go out under the payload type that was agreed.
pub proof fn video_keeps_its_time(t: VideoTiming, previous: i64, pts_ms: i64, agreed: u8)
    requires
        t.payload_type == Some(agreed),
    ensures
        video_write(VideoTiming { last_pts_ms: None, ..t }, pts_ms) == (VideoWrite::Write {
            payload_type: agreed,
            step: Step::Stay,
        }),
        previous < pts_ms && pts_ms - previous <= i64::MAX ==> video_write(
            VideoTiming { last_pts_ms: Some(previous), ..t },
            pts_ms,
        ) == (VideoWrite::Write {
            payload_type: agreed,
            step: Step::Millis { millis: (pts_ms - previous) as u64 },
        }),
        pts_ms <= previous ==> video_write(
            VideoTiming { last_pts_ms: Some(previous), ..t },
            pts_ms,
        ) == (VideoWrite::Write {
            payload_type: agreed,
            step: Step::Nominal { nanos: t.frame_nanos },
        }),
        video_write(VideoTiming { payload_type: None, ..t }, pts_ms) is Discard,
{
}

/// The first packet sets the time of the audio, and nothing is written before
/// the far end has answered.
pub proof fn audio_starts_with_its_first_packet(t: AudioTiming, pts: u64, agreed: u8)
    requires
        t.payload_type == Some(agreed),
    ensures
        audio_write(AudioTiming { last_pts: None, ..t }, pts) == (AudioWrite::Write {
            payload_type: agreed,
            samples: None,
        }),
        audio_write(AudioTiming { payload_type: None, ..t }, pts) is Discard,
{
}

/// The payload type under which video was agreed on, where it was.
pub open spec fn agreed_video(codecs: Seq<Negotiated>) -> Option<u8> {
    if codecs.len() == 0 {
        None
    } else {
        Some(codecs[0].payload_type)
    }
}

/// The payload type under which audio was agreed on, where it was.
pub open spec fn agreed_audio(codecs: Seq<Negotiated>) -> Option<u8> {
    match first_where(
        codecs,
        |c: Negotiated| lower_text(c.mime_type@) == lower_text("audio/opus"@),
    ) {
        Some(i) => Some(codecs[i].payload_type),
        None => None,
    }
}

/// Video goes out under what the far end named first, audio under the first
/// Opus it named, whatever the case of the letters; where it named none,
/// nothing was agreed.
pub proof fn what_the_far_end_named_is_agreed(codecs: Seq<Negotiated>, k: int)
    requires
        0 <= k < codecs.len(),
    ensures
        agreed_video(codecs) == Some(codecs[0].payload_type),
        codecs[k].mime_type@ == "audio/opus"@ && (forall|j: int|
            0 <= j < k ==> lower_text((#[trigger] codecs[j]).mime_type@) != "audio/opus"@)
            ==> agreed_audio(codecs) == Some(codecs[k].payload_type),
        (forall|j: int|
            0 <= j < codecs.len() ==> lower_text((#[trigger] codecs[j]).mime_type@)
                != "audio/opus"@) ==> agreed_audio(codecs) is None,
        agreed_video(Seq::empty()) is None,
{
    reveal_strlit("audio/opus");
    assert(lower_text("audio/opus"@) =~= "audio/opus"@);
    let opus = |c: Negotiated| lower_text(c.mime_type@) == lower_text("audio/opus"@);
    first_where_is_first(codecs, opus);
    let found = first_where(codecs, opus);
    if found is Some {
        assert(opus(codecs[found->0]));
        if found->0 > k {
            assert(!opus(codecs[k]));
        }
    } else {
        assert(!opus(codecs[k]));
    }
}

/// Of the feedback only the requests for a key frame are kept, all of them and
/// in order; sixteen batches at most, of which the oldest goes first.
pub proof fn requests_are_kept_in_order<P>(
    packets: Seq<(P, bool)>,
    packet: P,
    queue: Seq<Seq<P>>,
    batch: Seq<P>,
)
    ensures
        requests_of(Seq::<(P, bool)>::empty()).len() == 0,
        requests_of(packets.push((packet, true))) == requests_of(packets).push(packet),
        requests_of(packets.push((packet, false))) == requests_of(packets),
        batch.len() == 0 ==> with_batch(queue, batch) == queue,
        batch.len() > 0 && queue.len() < 16 ==> with_batch(queue, batch) == queue.push(batch),
        batch.len() > 0 && queue.len() == 16 ==> with_batch(queue, batch) == queue.subrange(
            1,
            16,
        ).push(batch),
{
    assert(packets.push((packet, true)).drop_last() =~= packets);
    assert(packets.push((packet, false)).drop_last() =~= packets);
}

/// The video's time after a frame was sent.
pub open spec fn video_sent(t: VideoTiming, pts_ms: i64) -> VideoTiming {
    VideoTiming { last_pts_ms: Some(pts_ms), ..t }
}

/// The audio's time after a packet was sent.
pub open spec fn audio_sent(t: AudioTiming, pts: u64) -> AudioTiming {
    AudioTiming { last_pts: Some(pts), ..t }
}

/// The oldest batch that is kept, and what is kept without it.
pub open spec fn first_batch<P>(queue: Seq<Seq<P>>) -> (Option<Seq<P>>, Seq<Seq<P>>) {
    if queue.len() == 0 {
        (None, queue)
    } else {
        (Some(queue[0]), queue.subrange(1, queue.len() as int))
    }
}

/// Of two frames sent one after the other the second moves the video's time by
/// just the time between them.
pub proof fn sent_frames_move_the_time(t: VideoTiming, first: i64, second: i64, agreed: u8)
    requires
        t.payload_type == Some(agreed),
        first < second,
        second - first <= i64::MAX,
    ensures
        video_write(video_sent(t, first), second) == (VideoWrite::Write {
            payload_type: agreed,
            step: Step::Millis { millis: (second - first) as u64 },
        }),
        video_sent(video_sent(t, first), second) == video_sent(t, second),
        video_sent(t, first).frame_nanos == t.frame_nanos,
        video_sent(t, first).payload_type == t.payload_type,
{
}

/// Of two packets sent one after the other the second moves the audio's time by
/// just the samples between them.
pub proof fn sent_packets_move_the_time(t: AudioTiming, first: u64, second: u64, agreed: u8)
    requires
        t.payload_type == Some(agreed),
        first < second,
    ensures
        audio_write(audio_sent(t, first), second) == (AudioWrite::Write {
            payload_type: agreed,
            samples: Some((second - first) as u64),
        }),
        audio_sent(t, first).payload_type == t.payload_type,
{
}

/// Batches come out in the order in which they went in, each once.
pub proof fn batches_come_out_in_order<P>(queue: Seq<Seq<P>>, batch: Seq<P>)
    ensures
        first_batch(Seq::<Seq<P>>::empty()).0 is None,
        first_batch(seq![batch]) == (Some(batch), Seq::<Seq<P>>::empty()),
        queue.len() > 0 ==> {
            &&& first_batch(queue).0 == Some(queue[0])
            &&& seq![queue[0]] + first_batch(queue).1 == queue
            &&& first_batch(queue.push(batch)).1 == first_batch(queue).1.push(batch)
        },
{
    assert(seq![batch].subrange(1, 1) =~= Seq::<Seq<P>>::empty());
    if queue.len() > 0 {
        assert(seq![queue[0]] + first_batch(queue).1 =~= queue);
        assert(first_batch(queue.push(batch)).1 =~= first_batch(queue).1.push(batch));
    }
}

/// What is offered says what it holds.
pub proof fn an_offer_says_what_it_holds(o: CodecParameters)
    ensures
        o@.mime_type == o.mime_type@,
        o@.clock_rate == o.clock_rate,
        o@.channels == o.channels,
        o@.sdp_fmtp_line == o.sdp_fmtp_line@,
        o@.payload_type == o.payload_type,
{
}

} // verus!
