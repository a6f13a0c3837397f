//! Encoder configuration shared by the probe and the live pipeline.
//!
//! One table, so an encoder that passes probing is opened with the same
//! settings when it matters.
//!
//! Everything is low latency: no B-frames, no lookahead, and a group of
//! pictures long enough that the encoder never emits a key frame by itself.
//! Key frames cost bandwidth, and receivers ask for one when they need it.

use vstd::prelude::*;

use crate::text::{ends_with, has_prefix, has_suffix, same_text, starts_with};

verus! {

/// Group length for encoders that accept an effectively infinite one.
pub const GOP_INFINITE: i32 = 0x7fff_ffff;

/// Group length for the D3D12 encoders, which derive a bitstream field of
/// limited width from it.
pub const GOP_D3D12VA: i32 = 16_384;

/// Time base denominator: timestamps are milliseconds throughout the pipeline.
pub const TIME_BASE_HZ: i32 = 1000;

/// The size, rate and bit rate an encoder is opened with.
#[derive(Debug, Clone, Copy, PartialEq, Eq, Structural)]
pub struct EncoderParams {
    /// Frame width in pixels.  Must equal the input frames' width: an encoder
    /// smaller than its input crops, it does not scale.
    pub width: i32,
    /// Frame height in pixels.
    pub height: i32,
    /// Frame rate, for the encoder's rate control.
    pub fps: u32,
    /// Target bit rate in bits per second.
    pub bitrate_bps: i64,
}

/// A codec profile.
#[derive(Debug, Clone, Copy, PartialEq, Eq, Structural)]
pub enum Profile {
    /// H.264 High.
    H264High,
    /// HEVC Main.
    HevcMain,
    /// AV1 Main.
    Av1Main,
}

/// The range of sample values.
#[derive(Debug, Clone, Copy, PartialEq, Eq, Structural)]
pub enum ColorRange {
    /// That of television.
    Limited,
    /// All of them.
    Full,
}

/// A standard that describes colours.
#[derive(Debug, Clone, Copy, PartialEq, Eq, Structural)]
pub enum ColorStandard {
    /// None is named.
    Unspecified,
    /// SMPTE 170M.
    Smpte170m,
}

/// The fields of an encoder context, as they are set before it is opened.
#[derive(Debug, Clone, Copy, PartialEq, Eq, Structural)]
pub struct EncoderSetup {
    /// Frame width in pixels.
    pub width: i32,
    /// Frame height in pixels.
    pub height: i32,
    /// Time base denominator; its numerator is 1.
    pub time_base_den: i32,
    /// Frame rate numerator; its denominator is 1.
    pub framerate_num: i32,
    /// Target bit rate in bits per second.
    pub bit_rate: i64,
    /// Group length.
    pub gop_size: i32,
    /// Least distance of key frames.
    pub keyint_min: i32,
    /// Most B-frames in a row.
    pub max_b_frames: i32,
    /// Frames by which the output is reordered.
    pub has_b_frames: i32,
    /// Slices per frame.
    pub slices: i32,
    /// Whether threads work on slices, not on frames.
    pub slice_threads: bool,
    /// Whether low delay is asked for.
    pub low_delay: bool,
    /// Whether the parameter sets are repeated with every key frame, so that a
    /// receiver can join in the middle of the stream.
    pub local_headers: bool,
    /// The range of sample values.
    pub color_range: ColorRange,
    /// How colours are coded.
    pub colorspace: ColorStandard,
    /// The primary colours.
    pub color_primaries: ColorStandard,
    /// The transfer characteristic.
    pub color_trc: ColorStandard,
    /// The profile to request, or `None` to let the encoder decide.
    pub profile: Option<Profile>,
    /// A ceiling for the bit rate, where one is set.
    pub rc_max_rate: Option<i64>,
    /// Whether settings outside the standard are accepted.
    pub relaxed_compliance: bool,
}

/// The group length that an encoder tolerates.
pub open spec fn gop_of(id: Seq<char>) -> i32 {
    if has_suffix(id, "_d3d12va"@) {
        GOP_D3D12VA
    } else {
        GOP_INFINITE
    }
}

/// The profile to request of an encoder.
///
/// High is the profile that the connection offers for H.264.  The D3D12
/// encoders derive the profile from the frame format themselves and reject the
/// hint.
pub open spec fn profile_of(id: Seq<char>) -> Option<Profile> {
    if has_suffix(id, "_d3d12va"@) {
        None
    } else if has_prefix(id, "h264"@) || id == "libopenh264"@ {
        Some(Profile::H264High)
    } else if has_prefix(id, "hevc"@) {
        Some(Profile::HevcMain)
    } else if has_prefix(id, "av1"@) {
        Some(Profile::Av1Main)
    } else {
        None
    }
}

/// How an encoder is configured.
pub open spec fn setup_of(id: Seq<char>, p: EncoderParams) -> EncoderSetup {
    let qsv = has_suffix(id, "_qsv"@);
    EncoderSetup {
        width: p.width,
        height: p.height,
        time_base_den: TIME_BASE_HZ,
        framerate_num: if p.fps <= i32::MAX {
            p.fps as i32
        } else {
            30
        },
        bit_rate: p.bitrate_bps,
        gop_size: gop_of(id),
        keyint_min: gop_of(id),
        max_b_frames: 0,
        has_b_frames: 0,
        slices: 1,
        slice_threads: true,
        low_delay: true,
        local_headers: true,
        color_range: ColorRange::Limited,
        colorspace: ColorStandard::Smpte170m,
        color_primaries: ColorStandard::Smpte170m,
        color_trc: ColorStandard::Smpte170m,
        profile: profile_of(id),
        rc_max_rate: if qsv {
            Some(p.bitrate_bps)
        } else {
            None
        },
        relaxed_compliance: qsv,
    }
}

/// The group length this encoder tolerates.
pub fn gop_for(id: &str) -> (r: i32)
    ensures
        r == gop_of(id@),
{
    if ends_with(id, "_d3d12va") {
        return GOP_D3D12VA;
    }
    GOP_INFINITE
}

/// The profile to request, or `None` to let the encoder decide.
pub fn profile_for(id: &str) -> (r: Option<Profile>)
    ensures
        r == profile_of(id@),
{
    if ends_with(id, "_d3d12va") {
        return None;
    }
    if starts_with(id, "h264") || same_text(id, "libopenh264") {
        return Some(Profile::H264High);
    }
    if starts_with(id, "hevc") {
        return Some(Profile::HevcMain);
    }
    if starts_with(id, "av1") {
        return Some(Profile::Av1Main);
    }
    None
}

/// The shared parameters for an encoder that is about to be opened.
pub fn configure(id: &str, params: &EncoderParams) -> (r: EncoderSetup)
    ensures
        r == setup_of(id@, *params),
{
    let gop: i32 = gop_for(id);
    let qsv = ends_with(id, "_qsv");
    EncoderSetup {
        width: params.width,
        height: params.height,
        time_base_den: TIME_BASE_HZ,
        framerate_num: if params.fps <= 0x7fff_ffff { params.fps as i32 } else { 30 },
        bit_rate: params.bitrate_bps,
        gop_size: gop,
        keyint_min: gop,
        max_b_frames: 0,
        has_b_frames: 0,
        slices: 1,
        slice_threads: true,
        low_delay: true,
        local_headers: true,
        color_range: ColorRange::Limited,
        colorspace: ColorStandard::Smpte170m,
        color_primaries: ColorStandard::Smpte170m,
        color_trc: ColorStandard::Smpte170m,
        profile: profile_for(id),
        // Quick Sync emulates a constant rate through a variable one with a
        // matched ceiling, and needs relaxed compliance to accept it.
        rc_max_rate: if qsv { Some(params.bitrate_bps) } else { None },
        relaxed_compliance: qsv,
    }
}

/// The private options of an encoder, in the order they are set.
pub open spec fn options_of(id: Seq<char>) -> Seq<(Seq<char>, Seq<char>)> {
    if has_suffix(id, "_nvenc"@) {
        seq![("delay"@, "0"@), ("rc"@, "cbr"@), ("forced-idr"@, "1"@)]
    } else if has_suffix(id, "_amf"@) {
        seq![("query_timeout"@, "1000"@), ("rc"@, "cbr"@), ("forced_idr"@, "1"@)]
    } else if has_suffix(id, "_qsv"@) {
        seq![("async_depth"@, "1"@), ("forced_idr"@, "1"@)]
    } else if has_suffix(id, "_mf"@) {
        seq![("scenario"@, "display_remoting"@)]
    } else {
        Seq::empty()
    }
}

/// Options as text.
pub open spec fn options_text(options: Seq<(&'static str, &'static str)>) -> Seq<
    (Seq<char>, Seq<char>),
> {
    options.map_values(|o: (&'static str, &'static str)| (o.0@, o.1@))
}

/// Vendor-private low-latency options.
///
/// Keyed on the vendor suffix, so that every codec of a vendor gets the same
/// treatment.  Forcing a real key frame matters: without it a request gives an
/// intra-coded picture that a joining receiver cannot start from.  Media
/// Foundation is told that this is screen content, and is left free to pick
/// software, the case it exists to cover.
pub fn private_options(id: &str) -> (r: Vec<(&'static str, &'static str)>)
    ensures
        options_text(r@) == options_of(id@),
{
    let r = if ends_with(id, "_nvenc") {
        vec![("delay", "0"), ("rc", "cbr"), ("forced-idr", "1")]
    } else if ends_with(id, "_amf") {
        vec![("query_timeout", "1000"), ("rc", "cbr"), ("forced_idr", "1")]
    } else if ends_with(id, "_qsv") {
        vec![("async_depth", "1"), ("forced_idr", "1")]
    } else if ends_with(id, "_mf") {
        vec![("scenario", "display_remoting")]
    } else {
        Vec::new()
    };
    assert(options_text(r@) =~= options_of(id@));
    r
}

/// Every encoder is configured for low latency: no B-frames, no reordering, one
/// slice, and a group so long that key frames only come when they are asked
/// for.
pub proof fn every_encoder_is_configured_for_low_latency(id: Seq<char>, p: EncoderParams)
    ensures
        setup_of(id, p).max_b_frames == 0,
        setup_of(id, p).has_b_frames == 0,
        setup_of(id, p).slices == 1,
        setup_of(id, p).slice_threads,
        setup_of(id, p).low_delay,
        setup_of(id, p).gop_size >= 16_384,
        setup_of(id, p).keyint_min == setup_of(id, p).gop_size,
{
}

/// Every encoder repeats its parameter sets with each key frame, so that a
/// viewer who joins late can start at the next one.
pub proof fn key_frames_carry_their_parameter_sets(id: Seq<char>, p: EncoderParams)
    ensures
        setup_of(id, p).local_headers,
{
}

/// An encoder is opened at the size, frame rate and bit rate it was asked for,
/// counts time in milliseconds, and writes colours as they were converted.
pub proof fn an_encoder_is_opened_as_asked_for(id: Seq<char>, p: EncoderParams)
    ensures
        setup_of(id, p).width == p.width,
        setup_of(id, p).height == p.height,
        setup_of(id, p).bit_rate == p.bitrate_bps,
        p.fps <= i32::MAX ==> setup_of(id, p).framerate_num == p.fps,
        p.fps > i32::MAX ==> setup_of(id, p).framerate_num == 30,
        setup_of(id, p).time_base_den == 1000,
        setup_of(id, p).color_range == ColorRange::Limited,
        setup_of(id, p).colorspace == ColorStandard::Smpte170m,
        setup_of(id, p).color_primaries == ColorStandard::Smpte170m,
        setup_of(id, p).color_trc == ColorStandard::Smpte170m,
        has_suffix(id, "_qsv"@) ==> setup_of(id, p).rc_max_rate == Some(p.bitrate_bps)
            && setup_of(id, p).relaxed_compliance,
        !has_suffix(id, "_qsv"@) ==> setup_of(id, p).rc_max_rate is None && !setup_of(
            id,
            p,
        ).relaxed_compliance,
        has_suffix(id, "_d3d12va"@) ==> setup_of(id, p).gop_size == 16_384,
        !has_suffix(id, "_d3d12va"@) ==> setup_of(id, p).gop_size == i32::MAX,
        setup_of(id, p).profile == profile_of(id),
{
}

/// The profile is that of the codec in the encoder's name; the D3D12 encoders
/// are asked for none.
pub proof fn the_profile_is_that_of_the_codec(id: Seq<char>, rest: Seq<char>)
    ensures
        has_suffix(id, "_d3d12va"@) ==> profile_of(id) is None,
        !has_suffix("h264"@ + rest, "_d3d12va"@) ==> profile_of("h264"@ + rest) == Some(
            Profile::H264High,
        ),
        !has_suffix("hevc"@ + rest, "_d3d12va"@) ==> profile_of("hevc"@ + rest) == Some(
            Profile::HevcMain,
        ),
        !has_suffix("av1"@ + rest, "_d3d12va"@) ==> profile_of("av1"@ + rest) == Some(
            Profile::Av1Main,
        ),
        id == "libopenh264"@ ==> profile_of(id) == Some(Profile::H264High),
{
    reveal_strlit("h264");
    reveal_strlit("hevc");
    reveal_strlit("av1");
    reveal_strlit("libopenh264");
    reveal_strlit("_d3d12va");
    let a = "h264"@ + rest;
    let b = "hevc"@ + rest;
    let c = "av1"@ + rest;
    assert(a.subrange(0, 4) =~= "h264"@);
    assert(b.subrange(0, 4) =~= "hevc"@);
    assert(c.subrange(0, 3) =~= "av1"@);
    assert(b[0] == 'h' && b[1] == 'e' && c[0] == 'a');
    if has_prefix(b, "h264"@) {
        assert(b.subrange(0, 4)[1] == b[1]);
        assert("h264"@[1] == '2');
    }
    if has_prefix(c, "h264"@) {
        assert(c.subrange(0, 4)[0] == c[0]);
        assert("h264"@[0] == 'h');
    }
    if has_prefix(c, "hevc"@) {
        assert(c.subrange(0, 4)[0] == c[0]);
        assert("hevc"@[0] == 'h');
    }
    assert("libopenh264"@[0] == 'l');
    assert("libopenh264"@[10] == '4');
    if has_suffix("libopenh264"@, "_d3d12va"@) {
        let tail = "libopenh264"@.subrange(11 - 8, 11);
        assert(tail[7] == '4');
        assert("_d3d12va"@[7] == 'a');
    }
}

/// Each vendor's encoders are opened with that vendor's options, whatever the
/// codec: at a constant rate, without delay, and with true key frames on
/// request.
pub proof fn each_vendor_has_its_options(id: Seq<char>)
    ensures
        has_suffix(id, "_nvenc"@) ==> options_of(id) == seq![
            ("delay"@, "0"@),
            ("rc"@, "cbr"@),
            ("forced-idr"@, "1"@),
        ],
        has_suffix(id, "_amf"@) ==> options_of(id) == seq![
            ("query_timeout"@, "1000"@),
            ("rc"@, "cbr"@),
            ("forced_idr"@, "1"@),
        ],
        has_suffix(id, "_qsv"@) ==> options_of(id) == seq![
            ("async_depth"@, "1"@),
            ("forced_idr"@, "1"@),
        ],
        has_suffix(id, "_mf"@) ==> options_of(id) == seq![("scenario"@, "display_remoting"@)],
        !has_suffix(id, "_nvenc"@) && !has_suffix(id, "_amf"@) && !has_suffix(id, "_qsv"@)
            && !has_suffix(id, "_mf"@) ==> options_of(id).len() == 0,
{
    reveal_strlit("_nvenc");
    reveal_strlit("_amf");
    reveal_strlit("_qsv");
    reveal_strlit("_mf");
    let n = id.len() as int;
    if has_suffix(id, "_nvenc"@) {
        assert("_nvenc"@[5] == 'c');
        assert(id.subrange(n - 6, n)[5] == id[n - 1]);
    }
    if has_suffix(id, "_amf"@) {
        assert("_amf"@[3] == 'f' && "_amf"@[1] == 'a');
        assert(id.subrange(n - 4, n)[3] == id[n - 1]);
        assert(id.subrange(n - 4, n)[1] == id[n - 3]);
    }
    if has_suffix(id, "_qsv"@) {
        assert("_qsv"@[3] == 'v');
        assert(id.subrange(n - 4, n)[3] == id[n - 1]);
    }
    if has_suffix(id, "_mf"@) {
        assert("_mf"@[2] == 'f' && "_mf"@[0] == '_');
        assert(id.subrange(n - 3, n)[2] == id[n - 1]);
        assert(id.subrange(n - 3, n)[0] == id[n - 3]);
    }
}

} // verus!
