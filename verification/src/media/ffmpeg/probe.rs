//! Probing: which input paths of an encoder are tried in which order, and what
//! an attempt comes to.
//!
//! The only reliable test of an encoder is to open it and get a key frame out
//! of it.

use vstd::prelude::*;

use crate::media::capture::EncoderInput;
use crate::media::encoder::{text_view, ProbeResult};
use crate::text::{concat3, join, joined, texts};

use super::params::EncoderParams;

verus! {

/// Probe frame width: large enough that every hardware encoder takes it
/// seriously, and small enough to encode in milliseconds.
pub const PROBE_WIDTH: i32 = 1280;

/// Probe frame height.
pub const PROBE_HEIGHT: i32 = 720;

/// Bit rate used while probing.
pub const PROBE_BITRATE_BPS: i64 = 4_000_000;

/// The parameters every probe attempt is made with.
pub fn probe_params() -> (r: EncoderParams)
    ensures
        r == (EncoderParams {
            width: PROBE_WIDTH,
            height: PROBE_HEIGHT,
            fps: 30,
            bitrate_bps: PROBE_BITRATE_BPS,
        }),
{
    EncoderParams {
        width: PROBE_WIDTH,
        height: PROBE_HEIGHT,
        fps: 30,
        bitrate_bps: PROBE_BITRATE_BPS,
    }
}

/// A pixel format that an encoder advertises.
#[derive(Debug, Clone, Copy, PartialEq, Eq, Structural)]
pub enum PixelFormat {
    /// Hardware frames on a D3D11 device.
    D3d11,
    /// Hardware frames on a D3D12 device.
    D3d12,
    /// System-memory NV12.
    Nv12,
    /// System-memory planar 4:2:0.
    Yuv420p,
    /// System-memory BGRA.
    Bgra,
    /// Another one.
    Other,
}

/// The pixel formats that an encoder advertises, with their names.
#[derive(Debug)]
pub struct SupportedFormats {
    /// The formats.
    pub values: Vec<PixelFormat>,
    /// Their names, in the same order.
    pub names: Vec<String>,
    /// Whether it takes everything.
    pub all: bool,
}

/// The format that an input path delivers.
pub open spec fn format_of(input: EncoderInput) -> PixelFormat {
    match input {
        EncoderInput::HardwareD3d11 => PixelFormat::D3d11,
        EncoderInput::HardwareD3d12 => PixelFormat::D3d12,
        EncoderInput::SysMemNv12 => PixelFormat::Nv12,
        EncoderInput::SysMemYuv420p => PixelFormat::Yuv420p,
    }
}

/// Whether an encoder advertises an input path.
pub open spec fn advertises(formats: SupportedFormats, input: EncoderInput) -> bool {
    formats.all || formats.values@.contains(format_of(input))
}

impl SupportedFormats {
    /// Whether the encoder advertises this input path.
    pub fn supports(&self, input: EncoderInput) -> (r: bool)
        ensures
            r == advertises(*self, input),
    {
        if self.all {
            return true;
        }
        let mut i: usize = 0;
        while i < self.values.len()
            invariant
                i <= self.values.len(),
                forall|j: int| 0 <= j < i ==> #[trigger] self.values@[j] != format_of(input),
            decreases self.values.len() - i,
        {
            let same = match (&self.values[i], input) {
                (PixelFormat::D3d11, EncoderInput::HardwareD3d11) => true,
                (PixelFormat::D3d12, EncoderInput::HardwareD3d12) => true,
                (PixelFormat::Nv12, EncoderInput::SysMemNv12) => true,
                (PixelFormat::Yuv420p, EncoderInput::SysMemYuv420p) => true,
                _ => false,
            };
            if same {
                assert(self.values@[i as int] == format_of(input));
                return true;
            }
            i += 1;
        }
        false
    }

    /// The advertised formats, for an error text.
    pub fn describe(&self) -> (r: String)
        ensures
            r@ == if self.all {
                "all"@
            } else {
                joined(texts(self.names@), ","@)
            },
    {
        if self.all {
            return "all".to_owned();
        }
        join(&self.names, ",")
    }
}

/// The input paths in order of preference: a zero-copy surface, then the
/// portable system-memory formats, then the surface that takes a round trip.
pub open spec fn preference() -> Seq<EncoderInput> {
    seq![
        EncoderInput::HardwareD3d11,
        EncoderInput::SysMemNv12,
        EncoderInput::SysMemYuv420p,
        EncoderInput::HardwareD3d12,
    ]
}

/// The first `n` paths in order of preference that are advertised, or that are
/// not.
pub open spec fn selected(formats: SupportedFormats, pass: bool, n: int) -> Seq<EncoderInput>
    decreases n,
{
    if n <= 0 {
        Seq::empty()
    } else if advertises(formats, preference()[n - 1]) == pass {
        selected(formats, pass, n - 1).push(preference()[n - 1])
    } else {
        selected(formats, pass, n - 1)
    }
}

/// The order in which the paths are tried: the advertised ones first, then
/// still the others, because some drivers advertise too little.
pub open spec fn trial_order(formats: SupportedFormats) -> Seq<EncoderInput> {
    selected(formats, true, 4) + selected(formats, false, 4)
}

fn candidates_in_order() -> (r: Vec<EncoderInput>)
    ensures
        r@ == preference(),
{
    let r = vec![
        EncoderInput::HardwareD3d11,
        EncoderInput::SysMemNv12,
        EncoderInput::SysMemYuv420p,
        EncoderInput::HardwareD3d12,
    ];
    assert(r@ =~= preference());
    r
}

fn add_selected(formats: &SupportedFormats, pass: bool, order: &mut Vec<EncoderInput>)
    ensures
        final(order)@ == old(order)@ + selected(*formats, pass, 4),
{
    let all = candidates_in_order();
    let ghost start = order@;
    let mut i: usize = 0;
    assert(start + Seq::<EncoderInput>::empty() =~= start);
    while i < all.len()
        invariant
            i <= all.len(),
            all@ == preference(),
            order@ == start + selected(*formats, pass, i as int),
        decreases all.len() - i,
    {
        let input = all[i];
        let ghost before = selected(*formats, pass, i as int);
        if formats.supports(input) == pass {
            order.push(input);
            assert((start + before).push(input) =~= start + before.push(input));
        }
        i += 1;
    }
}

/// The order in which the input paths of an encoder are tried.
pub fn probe_order(formats: &SupportedFormats) -> (r: Vec<EncoderInput>)
    ensures
        r@ == trial_order(*formats),
{
    let mut order: Vec<EncoderInput> = Vec::new();
    add_selected(formats, true, &mut order);
    assert(order@ =~= selected(*formats, true, 4));
    add_selected(formats, false, &mut order);
    order
}

/// Every input path is tried once, whatever is advertised, and no path that is
/// not advertised comes before one that is.
pub proof fn every_path_is_tried_advertised_ones_first(formats: SupportedFormats)
    ensures
        trial_order(formats).len() == 4,
        forall|input: EncoderInput| #[trigger] trial_order(formats).contains(input),
        forall|i: int, j: int|
            0 <= i < j < 4 && advertises(formats, #[trigger] trial_order(formats)[j])
                ==> advertises(formats, #[trigger] trial_order(formats)[i]),
{
    reveal_with_fuel(selected, 5);
    let order = trial_order(formats);
    assert forall|input: EncoderInput| #[trigger] order.contains(input) by {
        let a = selected(formats, true, 4);
        let b = selected(formats, false, 4);
        let k: int = match input {
            EncoderInput::HardwareD3d11 => 0,
            EncoderInput::SysMemNv12 => 1,
            EncoderInput::SysMemYuv420p => 2,
            EncoderInput::HardwareD3d12 => 3,
        };
        assert(preference()[k] == input);
        if advertises(formats, input) {
            let m = selected(formats, true, k).len() as int;
            assert(a[m] == input);
            assert(order[m] == input);
        } else {
            let m = selected(formats, false, k).len() as int;
            assert(b[m] == input);
            assert(order[a.len() + m] == input);
        }
    }
}

/// The frames that an attempt is made with.
#[derive(Debug, Clone, Copy, PartialEq, Eq, Structural)]
pub struct AttemptFrames {
    /// The pixel format that the encoder is opened for.
    pub pix_fmt: PixelFormat,
    /// For hardware frames, the system-memory format they are uploaded from.
    pub uploaded_from: Option<PixelFormat>,
}

/// The frames that an input path is tried with: those it delivers, and on a
/// device uploaded from what the capture chain has there.
pub open spec fn frames_of(input: EncoderInput) -> AttemptFrames {
    AttemptFrames {
        pix_fmt: format_of(input),
        uploaded_from: match input {
            EncoderInput::HardwareD3d11 => Some(PixelFormat::Bgra),
            EncoderInput::HardwareD3d12 => Some(PixelFormat::Nv12),
            _ => None,
        },
    }
}

/// The frames that an input path is tried with.
pub fn attempt_frames(input: EncoderInput) -> (r: AttemptFrames)
    ensures
        r == frames_of(input),
{
    match input {
        EncoderInput::HardwareD3d11 => AttemptFrames {
            pix_fmt: PixelFormat::D3d11,
            uploaded_from: Some(PixelFormat::Bgra),
        },
        EncoderInput::HardwareD3d12 => AttemptFrames {
            pix_fmt: PixelFormat::D3d12,
            uploaded_from: Some(PixelFormat::Nv12),
        },
        EncoderInput::SysMemNv12 => AttemptFrames {
            pix_fmt: PixelFormat::Nv12,
            uploaded_from: None,
        },
        EncoderInput::SysMemYuv420p => AttemptFrames {
            pix_fmt: PixelFormat::Yuv420p,
            uploaded_from: None,
        },
    }
}

/// Where a probe stopped.  Some steps come with the library's words.
#[derive(Debug, PartialEq, Eq)]
pub enum ProbeStop {
    /// The encoder's name contains a NUL.
    Name,
    /// The encoder is not part of the library.
    Missing,
    /// Its pixel formats cannot be asked for.
    Formats(String),
    /// It has less than no pixel formats.
    FormatCount,
    /// There is no memory for its context.
    Context,
    /// It does not open.
    Open(String),
    /// There is no memory for the frame.
    Frame,
    /// There is no memory for the frame's picture.
    Picture(String),
    /// There is no device.
    Device(String),
    /// There is no memory for hardware frames.
    Pool,
    /// Hardware frames cannot be set up.
    PoolSetup(String),
    /// Hardware frames cannot be shared.
    PoolShare,
    /// There is no memory for the hardware frame.
    HardwareFrame,
    /// The device gives no frame.
    HardwarePicture(String),
    /// The frame cannot be uploaded.
    Upload(String),
    /// The encoder does not take the frame.
    Submit(String),
    /// There is no memory for a packet.
    Packet,
    /// The encoder gives no packet.
    Receive(String),
}

/// Where a probe stopped, for the user.
pub open spec fn stop_text(stop: ProbeStop) -> Seq<char> {
    match stop {
        ProbeStop::Name => "encoder name contains NUL"@,
        ProbeStop::Missing => "not compiled into this FFmpeg build"@,
        ProbeStop::Formats(words) => "could not query pixel formats ("@ + words@ + ")"@,
        ProbeStop::FormatCount => "FFmpeg returned a negative pixel-format count"@,
        ProbeStop::Context => "could not allocate codec context"@,
        ProbeStop::Open(words) => "could not open encoder ("@ + words@ + ")"@,
        ProbeStop::Frame => "could not allocate frame"@,
        ProbeStop::Picture(words) => "could not allocate frame buffer ("@ + words@ + ")"@,
        ProbeStop::Device(words) => "could not create hardware device ("@ + words@ + ")"@,
        ProbeStop::Pool => "could not allocate hardware frame context"@,
        ProbeStop::PoolSetup(words) => "could not init hardware frame context ("@ + words@ + ")"@,
        ProbeStop::PoolShare => "could not reference hardware frame context"@,
        ProbeStop::HardwareFrame => "could not allocate hardware frame"@,
        ProbeStop::HardwarePicture(words) => "could not get hardware frame ("@ + words@ + ")"@,
        ProbeStop::Upload(words) => "could not upload frame to hardware ("@ + words@ + ")"@,
        ProbeStop::Submit(words) => "encoder rejected the frame ("@ + words@ + ")"@,
        ProbeStop::Packet => "could not allocate packet"@,
        ProbeStop::Receive(words) => "encoder produced no packet ("@ + words@ + ")"@,
    }
}

/// Where a probe stopped, for the user.
pub fn stop_reason(stop: &ProbeStop) -> (r: String)
    ensures
        r@ == stop_text(*stop),
{
    match stop {
        ProbeStop::Name => "encoder name contains NUL".to_owned(),
        ProbeStop::Missing => "not compiled into this FFmpeg build".to_owned(),
        ProbeStop::Formats(words) => concat3("could not query pixel formats (", words.as_str(), ")"),
        ProbeStop::FormatCount => "FFmpeg returned a negative pixel-format count".to_owned(),
        ProbeStop::Context => "could not allocate codec context".to_owned(),
        ProbeStop::Open(words) => concat3("could not open encoder (", words.as_str(), ")"),
        ProbeStop::Frame => "could not allocate frame".to_owned(),
        ProbeStop::Picture(words) => concat3(
            "could not allocate frame buffer (",
            words.as_str(),
            ")",
        ),
        ProbeStop::Device(words) => concat3(
            "could not create hardware device (",
            words.as_str(),
            ")",
        ),
        ProbeStop::Pool => "could not allocate hardware frame context".to_owned(),
        ProbeStop::PoolSetup(words) => concat3(
            "could not init hardware frame context (",
            words.as_str(),
            ")",
        ),
        ProbeStop::PoolShare => "could not reference hardware frame context".to_owned(),
        ProbeStop::HardwareFrame => "could not allocate hardware frame".to_owned(),
        ProbeStop::HardwarePicture(words) => concat3(
            "could not get hardware frame (",
            words.as_str(),
            ")",
        ),
        ProbeStop::Upload(words) => concat3(
            "could not upload frame to hardware (",
            words.as_str(),
            ")",
        ),
        ProbeStop::Submit(words) => concat3("encoder rejected the frame (", words.as_str(), ")"),
        ProbeStop::Packet => "could not allocate packet".to_owned(),
        ProbeStop::Receive(words) => concat3("encoder produced no packet (", words.as_str(), ")"),
    }
}

/// The name of an input path in an error text.
pub open spec fn input_text(input: EncoderInput) -> Seq<char> {
    match input {
        EncoderInput::HardwareD3d11 => "HardwareD3d11"@,
        EncoderInput::HardwareD3d12 => "HardwareD3d12"@,
        EncoderInput::SysMemNv12 => "SysMemNv12"@,
        EncoderInput::SysMemYuv420p => "SysMemYuv420p"@,
    }
}

/// Why one path failed.
pub fn attempt_reason(input: EncoderInput, reason: &str) -> (r: String)
    ensures
        r@ == input_text(input) + ": "@ + reason@,
{
    let name = match input {
        EncoderInput::HardwareD3d11 => "HardwareD3d11",
        EncoderInput::HardwareD3d12 => "HardwareD3d12",
        EncoderInput::SysMemNv12 => "SysMemNv12",
        EncoderInput::SysMemYuv420p => "SysMemYuv420p",
    };
    concat3(name, ": ", reason)
}

/// Why an encoder is not available, after every path has failed for a reason.
pub open spec fn failure_text(reasons: Seq<Seq<char>>, formats: SupportedFormats) -> Seq<char> {
    if reasons.len() == 0 {
        "no supported input path (advertised: "@ + (if formats.all {
            "all"@
        } else {
            joined(texts(formats.names@), ","@)
        }) + ")"@
    } else {
        joined(reasons, "; "@)
    }
}

/// Why an encoder is not available, after every path has failed.
pub fn probe_failure(reasons: &Vec<String>, formats: &SupportedFormats) -> (r: String)
    ensures
        r@ == failure_text(texts(reasons@), *formats),
{
    assert(texts(reasons@).len() == reasons@.len());
    if reasons.len() == 0 {
        let names = formats.describe();
        concat3("no supported input path (advertised: ", names.as_str(), ")")
    } else {
        join(reasons, "; ")
    }
}

/// One encoder's probe: its paths are tried in order until one works.
#[derive(Debug)]
pub struct ProbeRun {
    /// What the encoder advertises.
    pub formats: SupportedFormats,
    /// The paths in the order in which they are tried.
    pub order: Vec<EncoderInput>,
    /// Why those that were tried failed.
    pub reasons: Vec<String>,
}

impl ProbeRun {
    /// The paths are in the right order, and no more have failed than there
    /// are.
    pub open spec fn wf(self) -> bool {
        &&& self.order@ == trial_order(self.formats)
        &&& self.reasons@.len() <= self.order@.len()
    }

    /// Nothing was tried yet.
    pub fn new(formats: SupportedFormats) -> (r: Self)
        ensures
            r.wf(),
            r.formats == formats,
            r.reasons@ == Seq::<String>::empty(),
    {
        let order = probe_order(&formats);
        ProbeRun { formats, order, reasons: Vec::new() }
    }

    /// The path to try next, where one is left.
    pub fn next(&self) -> (r: Option<EncoderInput>)
        requires
            self.wf(),
        ensures
            r == if self.reasons@.len() < trial_order(self.formats).len() {
                Some(trial_order(self.formats)[self.reasons@.len() as int])
            } else {
                None
            },
    {
        let tried: usize = self.reasons.len();
        if tried < self.order.len() {
            Some(self.order[tried])
        } else {
            None
        }
    }

    /// Note that the path that was to be tried has failed.
    pub fn failed(&mut self, reason: &str)
        requires
            old(self).wf(),
            old(self).reasons@.len() < trial_order(old(self).formats).len(),
        ensures
            final(self).wf(),
            final(self).formats == old(self).formats,
            texts(final(self).reasons@) == texts(old(self).reasons@).push(
                input_text(trial_order(old(self).formats)[old(self).reasons@.len() as int])
                    + ": "@ + reason@,
            ),
    {
        let tried: usize = self.reasons.len();
        let ghost before = self.reasons@;
        let line = attempt_reason(self.order[tried], reason);
        self.reasons.push(line);
        assert(texts(self.reasons@) =~= texts(before).push(line@));
    }

    /// Why the encoder is not available, once every path has failed.
    pub fn failure(&self) -> (r: String)
        ensures
            r@ == failure_text(texts(self.reasons@), self.formats),
    {
        probe_failure(&self.reasons, &self.formats)
    }
}

/// Our own failure reason combined with what the library logged.
///
/// The library's message is the useful one for a user, so it leads; our reason
/// names the step that failed.
pub open spec fn detail_text(reason: Seq<char>, logged: Seq<Seq<char>>) -> Seq<char> {
    if logged.len() == 0 {
        reason
    } else {
        joined(logged, "; "@) + ": "@ + reason
    }
}

/// Combine our own failure reason with what the library logged.
pub fn detail(reason: &str, logged: &Vec<String>) -> (r: String)
    ensures
        r@ == detail_text(reason@, texts(logged@)),
{
    assert(texts(logged@).len() == logged@.len());
    if logged.len() == 0 {
        return reason.to_owned();
    }
    let lines = join(logged, "; ");
    concat3(lines.as_str(), ": ", reason)
}

/// This is what the probe of an encoder has found.
pub open spec fn found(
    id: Seq<char>,
    outcome: Result<EncoderInput, String>,
    logged: Seq<Seq<char>>,
    elapsed_ms: u128,
    r: ProbeResult,
) -> bool {
    &&& r.id@ == id
    &&& elapsed_ms <= u64::MAX ==> r.elapsed_ms == elapsed_ms
    &&& elapsed_ms > u64::MAX ==> r.elapsed_ms == u64::MAX
    &&& match outcome {
        Ok(input) => r.available && r.input == Some(input) && r.detail is None,
        Err(reason) => !r.available && r.input is None && r.detail is Some && r.detail->0@
            == detail_text(reason@, logged),
    }
}

/// One candidate's probe outcome, from the path that worked or the reason why
/// none did.
pub fn probe_result(
    id: &str,
    outcome: &Result<EncoderInput, String>,
    logged: &Vec<String>,
    elapsed_ms: u128,
) -> (r: ProbeResult)
    ensures
        r.id@ == id@,
        r.available == (outcome is Ok),
        r.input == match outcome {
            Ok(input) => Some(*input),
            Err(_) => None,
        },
        text_view(r.detail) == match outcome {
            Ok(_) => None,
            Err(reason) => Some(detail_text(reason@, texts(logged@))),
        },
        r.elapsed_ms == if elapsed_ms > u64::MAX {
            u64::MAX
        } else {
            elapsed_ms as u64
        },
        found(id@, *outcome, texts(logged@), elapsed_ms, r),
{
    let elapsed: u64 = if elapsed_ms > u64::MAX as u128 { u64::MAX } else { elapsed_ms as u64 };
    match outcome {
        Ok(input) => ProbeResult {
            id: id.to_owned(),
            available: true,
            detail: None,
            elapsed_ms: elapsed,
            input: Some(*input),
        },
        Err(reason) => ProbeResult {
            id: id.to_owned(),
            available: false,
            detail: Some(detail(reason.as_str(), logged)),
            elapsed_ms: elapsed,
            input: None,
        },
    }
}

/// What is known of a packet that came out of a probe.
#[derive(Debug, Clone, Copy, PartialEq, Eq, Structural)]
pub struct ProbePacket {
    /// Whether it is marked as a key frame.
    pub key: bool,
    /// Its size in bytes.
    pub size: i32,
}

/// Whether a key frame with something in it is among the packets.
pub open spec fn has_key_frame(packets: Seq<ProbePacket>) -> bool {
    exists|i: int| 0 <= i < packets.len() && (#[trigger] packets[i]).key && packets[i].size > 0
}

/// Require a key frame among the packets of a probe: an encoder that opens but
/// produces nothing usable is not available.
pub fn require_key_frame(packets: &Vec<ProbePacket>) -> (r: Result<(), String>)
    ensures
        if has_key_frame(packets@) {
            r is Ok
        } else {
            r is Err && r->Err_0@ == "encoder produced no key frame"@
        },
{
    let mut i: usize = 0;
    while i < packets.len()
        invariant
            i <= packets.len(),
            forall|j: int|
                0 <= j < i ==> !((#[trigger] packets@[j]).key && packets@[j].size > 0),
        decreases packets.len() - i,
    {
        if packets[i].key && packets[i].size > 0 {
            return Ok(());
        }
        i += 1;
    }
    Err("encoder produced no key frame".to_owned())
}

/// The rows of each plane of the probe frame: full height for luma, half for
/// chroma, which planar formats have two of.
pub fn plane_rows(planar: bool) -> (r: Vec<usize>)
    ensures
        r@ == if planar {
            seq![720usize, 360usize, 360usize]
        } else {
            seq![720usize, 360usize]
        },
{
    let r = if planar { vec![720usize, 360usize, 360usize] } else { vec![720usize, 360usize] };
    assert(r@ =~= if planar {
        seq![720usize, 360usize, 360usize]
    } else {
        seq![720usize, 360usize]
    });
    r
}

/// An encoder that worked is available on the path that worked, with nothing to
/// tell; one that did not is not, and the reason is told, after what the library
/// logged.  How long it took is told either way.
pub proof fn a_probe_tells_what_it_found(
    id: Seq<char>,
    input: EncoderInput,
    reason: String,
    logged: Seq<Seq<char>>,
    elapsed_ms: u128,
    r: ProbeResult,
)
    ensures
        found(id, Ok(input), logged, elapsed_ms, r) ==> {
            &&& r.id@ == id
            &&& r.available
            &&& r.input == Some(input)
            &&& r.detail is None
        },
        found(id, Err(reason), logged, elapsed_ms, r) ==> {
            &&& r.id@ == id
            &&& !r.available
            &&& r.input is None
            &&& r.detail is Some
            &&& logged.len() == 0 ==> r.detail->0@ == reason@
            &&& logged.len() > 0 ==> r.detail->0@ == joined(logged, "; "@) + ": "@ + reason@
        },
        found(id, Ok(input), logged, elapsed_ms, r) && elapsed_ms <= u64::MAX ==> r.elapsed_ms
            == elapsed_ms,
{
}

/// Each path delivers the frames it is named after; those on a device come from
/// what the capture chain has there.
pub proof fn each_path_delivers_its_format(formats: SupportedFormats, input: EncoderInput)
    ensures
        frames_of(EncoderInput::HardwareD3d11) == (AttemptFrames {
            pix_fmt: PixelFormat::D3d11,
            uploaded_from: Some(PixelFormat::Bgra),
        }),
        frames_of(EncoderInput::HardwareD3d12) == (AttemptFrames {
            pix_fmt: PixelFormat::D3d12,
            uploaded_from: Some(PixelFormat::Nv12),
        }),
        frames_of(EncoderInput::SysMemNv12) == (AttemptFrames {
            pix_fmt: PixelFormat::Nv12,
            uploaded_from: None,
        }),
        frames_of(EncoderInput::SysMemYuv420p) == (AttemptFrames {
            pix_fmt: PixelFormat::Yuv420p,
            uploaded_from: None,
        }),
        formats.all ==> advertises(formats, input),
        !formats.all ==> (advertises(formats, input) <==> formats.values@.contains(
            frames_of(input).pix_fmt,
        )),
{
}

/// Where everything is advertised, or nothing, the capture device comes first,
/// then the two formats in system memory, then the other device.
pub proof fn equal_paths_are_tried_in_order_of_preference(formats: SupportedFormats)
    requires
        forall|a: EncoderInput, b: EncoderInput|
            #[trigger] advertises(formats, a) == #[trigger] advertises(formats, b),
    ensures
        trial_order(formats) == seq![
            EncoderInput::HardwareD3d11,
            EncoderInput::SysMemNv12,
            EncoderInput::SysMemYuv420p,
            EncoderInput::HardwareD3d12,
        ],
{
    reveal_with_fuel(selected, 5);
    let first = EncoderInput::HardwareD3d11;
    assert(advertises(formats, EncoderInput::SysMemNv12) == advertises(formats, first));
    assert(advertises(formats, EncoderInput::SysMemYuv420p) == advertises(formats, first));
    assert(advertises(formats, EncoderInput::HardwareD3d12) == advertises(formats, first));
    assert(trial_order(formats) =~= preference());
}

/// Each place where a probe stops is told as what it is, with the library's
/// words where there are any.
pub proof fn stops_are_told(words: String)
    ensures
        stop_text(ProbeStop::Name) == "encoder name contains NUL"@,
        stop_text(ProbeStop::Missing) == "not compiled into this FFmpeg build"@,
        stop_text(ProbeStop::Formats(words)) == "could not query pixel formats ("@ + words@ + ")"@,
        stop_text(ProbeStop::FormatCount) == "FFmpeg returned a negative pixel-format count"@,
        stop_text(ProbeStop::Context) == "could not allocate codec context"@,
        stop_text(ProbeStop::Open(words)) == "could not open encoder ("@ + words@ + ")"@,
        stop_text(ProbeStop::Frame) == "could not allocate frame"@,
        stop_text(ProbeStop::Picture(words)) == "could not allocate frame buffer ("@ + words@
            + ")"@,
        stop_text(ProbeStop::Device(words)) == "could not create hardware device ("@ + words@
            + ")"@,
        stop_text(ProbeStop::Pool) == "could not allocate hardware frame context"@,
        stop_text(ProbeStop::PoolSetup(words)) == "could not init hardware frame context ("@
            + words@ + ")"@,
        stop_text(ProbeStop::PoolShare) == "could not reference hardware frame context"@,
        stop_text(ProbeStop::HardwareFrame) == "could not allocate hardware frame"@,
        stop_text(ProbeStop::HardwarePicture(words)) == "could not get hardware frame ("@ + words@
            + ")"@,
        stop_text(ProbeStop::Upload(words)) == "could not upload frame to hardware ("@ + words@
            + ")"@,
        stop_text(ProbeStop::Submit(words)) == "encoder rejected the frame ("@ + words@ + ")"@,
        stop_text(ProbeStop::Packet) == "could not allocate packet"@,
        stop_text(ProbeStop::Receive(words)) == "encoder produced no packet ("@ + words@ + ")"@,
{
}

/// Why no path worked is told path by path, in the order in which they were
/// tried; only where none was tried is what the encoder advertises told.
pub proof fn a_failed_probe_names_its_paths(
    reasons: Seq<Seq<char>>,
    formats: SupportedFormats,
)
    ensures
        reasons.len() > 0 ==> failure_text(reasons, formats) == joined(reasons, "; "@),
        reasons.len() == 0 && formats.all ==> failure_text(reasons, formats)
            == "no supported input path (advertised: "@ + "all"@ + ")"@,
        reasons.len() == 0 && !formats.all ==> failure_text(reasons, formats)
            == "no supported input path (advertised: "@ + joined(texts(formats.names@), ","@)
            + ")"@,
        input_text(EncoderInput::HardwareD3d11) == "HardwareD3d11"@,
        input_text(EncoderInput::HardwareD3d12) == "HardwareD3d12"@,
        input_text(EncoderInput::SysMemNv12) == "SysMemNv12"@,
        input_text(EncoderInput::SysMemYuv420p) == "SysMemYuv420p"@,
{
}

/// An encoder passes where one of its packets is a key frame with something in
/// it, and only there.
pub proof fn a_key_frame_has_to_hold_something(packets: Seq<ProbePacket>, k: int)
    requires
        0 <= k < packets.len(),
    ensures
        packets[k].key && packets[k].size > 0 ==> has_key_frame(packets),
        (forall|j: int| 0 <= j < packets.len() ==> !(#[trigger] packets[j]).key) ==> !has_key_frame(
            packets,
        ),
        (forall|j: int| 0 <= j < packets.len() ==> (#[trigger] packets[j]).size <= 0)
            ==> !has_key_frame(packets),
{
}

} // verus!
