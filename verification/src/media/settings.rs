//! User-facing screen-share encoding settings.
//!
//! The frontend persists these values; this module owns validation and
//! normalisation, so that both ends agree on what a combination means.
//!
//! Settings are read once when a broadcast starts.  Changing them mid-way
//! requires restarting the broadcast, because a resolution change forces a
//! new negotiation.

use vstd::prelude::*;

use crate::text::{concat3, decimal, decimal_text, lower_text, same_ignoring_case};

verus! {

/// Lowest frame rate the encoder pipeline accepts.
pub const MIN_FPS: u32 = 5;

/// Highest frame rate the encoder pipeline accepts.
pub const MAX_FPS: u32 = 120;

/// Lowest bit rate, in kbps.  Below this screen content falls apart.
pub const MIN_BITRATE_KBPS: u32 = 500;

/// Highest bit rate, in kbps.
pub const MAX_BITRATE_KBPS: u32 = 50_000;

/// Smallest custom output edge, in pixels.
pub const MIN_EDGE: u32 = 16;

/// Largest custom output edge, in pixels.
pub const MAX_EDGE: u32 = 8192;

/// Default frame rate: a compromise between smoothness and bit rate.
pub const DEFAULT_FPS: u32 = 30;

/// Highest number of direct viewers the settings allow.
///
/// Each one costs a full copy of the stream on the broadcaster's uplink, so
/// this is a bandwidth ceiling rather than a technical limit.
pub const MAX_P2P_VIEWERS: u32 = 8;

/// How many viewers get a direct connection by default.
pub const DEFAULT_P2P_MAX_VIEWERS: u32 = 2;

/// Which native capture backend feeds the encoder.
#[derive(Debug, Clone, Copy, PartialEq, Eq, Structural)]
pub enum CaptureBackend {
    /// Desktop duplication.  Whole monitors only and it cannot scale, but it
    /// paces frames itself and repeats the last one while nothing changes.
    Ddagrab,
    /// Graphics capture.  Can target a single window and scales on the GPU,
    /// but only emits a frame when the content changes, so the pipeline
    /// supplies its own frame clock.
    Gfxcapture,
}

impl Default for CaptureBackend {
    fn default() -> (r: Self)
        ensures
            r == CaptureBackend::Ddagrab,
    {
        CaptureBackend::Ddagrab
    }
}

/// Which encoder to use.
///
/// Travels as a plain string: `"auto"`, or an encoder name such as
/// `"h264_nvenc"`.
#[derive(Debug, Clone, PartialEq, Eq)]
pub enum EncoderChoice {
    /// Pick the first hardware encoder that passes probing.  The default.
    Auto,
    /// Use this specific encoder, falling back to automatic choice when it is
    /// not available on this machine.
    Id(String),
}

/// A choice is the encoder's name, or none where it is automatic.
impl View for EncoderChoice {
    type V = Option<Seq<char>>;

    open spec fn view(&self) -> Option<Seq<char>> {
        match self {
            EncoderChoice::Auto => None,
            EncoderChoice::Id(id) => Some(id@),
        }
    }
}

impl Default for EncoderChoice {
    fn default() -> (r: Self)
        ensures
            r == EncoderChoice::Auto,
    {
        EncoderChoice::Auto
    }
}

/// The string by which a choice travels.
pub open spec fn choice_to_wire(choice: Option<Seq<char>>) -> Seq<char> {
    match choice {
        None => "auto"@,
        Some(id) => id,
    }
}

/// The choice that a string stands for: automatic where it is empty or says
/// `auto` in any case of letters, the encoder of that name otherwise.
pub open spec fn choice_from_wire(raw: Seq<char>) -> Option<Seq<char>> {
    if raw.len() == 0 || lower_text(raw) == "auto"@ {
        None
    } else {
        Some(raw)
    }
}

impl EncoderChoice {
    /// The encoder's name, or `None` when set to automatic.
    pub fn id(&self) -> (r: Option<&str>)
        ensures
            r is Some <==> self@ is Some,
            r matches Some(id) ==> self@ == Some(id@),
    {
        match self {
            EncoderChoice::Auto => None,
            EncoderChoice::Id(id) => Some(id.as_str()),
        }
    }

    /// The string by which this choice travels.
    pub fn wire(&self) -> (r: &str)
        ensures
            r@ == choice_to_wire(self@),
    {
        match self {
            EncoderChoice::Auto => "auto",
            EncoderChoice::Id(id) => id.as_str(),
        }
    }

    /// The choice that a string from the settings store stands for.
    pub fn from_wire(raw: String) -> (r: Self)
        ensures
            r@ == choice_from_wire(raw@),
    {
        let automatic = raw.as_str().is_empty() || same_ignoring_case(raw.as_str(), "auto");
        proof {
            reveal_strlit("auto");
            assert(lower_text("auto"@) =~= "auto"@);
        }
        if automatic {
            EncoderChoice::Auto
        } else {
            EncoderChoice::Id(raw)
        }
    }
}

/// A choice survives being written out and read back, unless it names an
/// encoder by the empty string or by some spelling of `auto`, which no
/// encoder has.
pub proof fn encoder_choice_round_trips(choice: Option<Seq<char>>)
    requires
        choice matches Some(id) ==> id.len() > 0 && lower_text(id) != "auto"@,
    ensures
        choice_from_wire(choice_to_wire(choice)) == choice,
{
    reveal_strlit("auto");
    assert(lower_text("auto"@) =~= "auto"@);
}

/// A validated, encoder-safe output size in pixels.
#[derive(Debug, Clone, Copy, PartialEq, Eq, Structural)]
pub struct OutputSize {
    /// Output width in pixels.
    pub width: u32,
    /// Output height in pixels.
    pub height: u32,
}

/// The largest even number not above `value`, or two where that would be less.
pub open spec fn even_part(value: int) -> int {
    if value < 2 {
        2
    } else {
        value - value % 2
    }
}

/// The larger of two integers.
pub open spec fn larger(a: int, b: int) -> int {
    if a < b {
        b
    } else {
        a
    }
}

/// Round down to an even number, never below 2.
pub fn even_floor(value: u32) -> (r: u32)
    ensures
        r == even_part(value as int),
{
    if value < 2 {
        2
    } else {
        value - value % 2
    }
}

/// The size of `source` scaled down to a box, before its edges are made even.
///
/// A source inside the box keeps its size.  Otherwise the edge that is
/// proportionally tighter takes the box's edge, and the other follows from the
/// aspect ratio.
pub open spec fn scaled_into(source: OutputSize, box_w: int, box_h: int) -> (int, int) {
    let w = larger(source.width as int, 1);
    let h = larger(source.height as int, 1);
    if w <= box_w && h <= box_h {
        (source.width as int, source.height as int)
    } else if box_w * h <= box_h * w {
        (box_w, box_w * h / w)
    } else {
        (box_h * w / h, box_h)
    }
}

/// The size of `source` inside a box, with even edges.
pub open spec fn fitted(source: OutputSize, box_w: int, box_h: int) -> (int, int) {
    let (w, h) = scaled_into(source, box_w, box_h);
    (even_part(w), even_part(h))
}

proof fn scaled_bounds(source: OutputSize, box_w: int, box_h: int)
    requires
        0 <= box_w,
        0 <= box_h,
    ensures
        0 <= scaled_into(source, box_w, box_h).0 <= box_w,
        0 <= scaled_into(source, box_w, box_h).1 <= box_h,
        scaled_into(source, box_w, box_h).0 <= larger(source.width as int, 1),
        scaled_into(source, box_w, box_h).1 <= larger(source.height as int, 1),
{
    let w = larger(source.width as int, 1);
    let h = larger(source.height as int, 1);
    if w <= box_w && h <= box_h {
    } else if box_w * h <= box_h * w {
        if box_w > w {
            assert(h > box_h);
            assert(box_w * h > box_h * w) by (nonlinear_arith)
                requires
                    box_w > w,
                    h > box_h,
                    w >= 1,
                    h >= 1,
                    box_h >= 0,
            ;
        }
        let q = box_w * h / w;
        assert(0 <= q <= box_h && q <= h) by (nonlinear_arith)
            requires
                q == box_w * h / w,
                0 <= box_w <= w,
                w >= 1,
                h >= 1,
                box_w * h <= box_h * w,
        ;
    } else {
        if box_h > h {
            assert(w > box_w);
            assert(box_w * h <= box_h * w) by (nonlinear_arith)
                requires
                    box_h > h,
                    w > box_w,
                    w >= 1,
                    h >= 1,
                    box_w >= 0,
            ;
        }
        let q = box_h * w / h;
        assert(0 <= q <= box_w && q <= w) by (nonlinear_arith)
            requires
                q == box_h * w / h,
                0 <= box_h <= h,
                w >= 1,
                h >= 1,
                box_h * w < box_w * h,
        ;
    }
}

/// Fitting a source into a box makes both edges even, keeps each of them
/// inside the box and never enlarges one, apart from the two pixels that an
/// edge always has.
pub proof fn fit_is_even_inside_and_never_upscales(source: OutputSize, box_w: u32, box_h: u32)
    ensures
        ({
            let (w, h) = fitted(source, box_w as int, box_h as int);
            &&& w % 2 == 0 && h % 2 == 0
            &&& 2 <= w <= larger(box_w as int, 2) && 2 <= h <= larger(box_h as int, 2)
            &&& w <= larger(source.width as int, 2) && h <= larger(source.height as int, 2)
        }),
{
    scaled_bounds(source, box_w as int, box_h as int);
}

/// A source inside the box keeps its size, up to the evening of its edges.
pub proof fn fit_keeps_a_source_inside_the_box(source: OutputSize, box_w: u32, box_h: u32)
    requires
        1 <= source.width <= box_w,
        1 <= source.height <= box_h,
    ensures
        fitted(source, box_w as int, box_h as int) == (
            even_part(source.width as int),
            even_part(source.height as int),
        ),
{
}

/// A source that does not fit is scaled by one factor: the edge that binds is
/// the box's, and the other is the exact proportion rounded down, so it is less
/// than one pixel short of the source's aspect ratio.
pub proof fn fit_preserves_the_aspect_ratio(source: OutputSize, box_w: u32, box_h: u32)
    requires
        source.width >= 1,
        source.height >= 1,
        source.width > box_w || source.height > box_h,
    ensures
        ({
            let (w, h) = scaled_into(source, box_w as int, box_h as int);
            ||| w == box_w && h * source.width <= w * source.height < (h + 1) * source.width
            ||| h == box_h && w * source.height <= h * source.width < (w + 1) * source.height
        }),
{
    let w = source.width as int;
    let h = source.height as int;
    let bw = box_w as int;
    let bh = box_h as int;
    let q = bw * h / w;
    assert(q * w <= bw * h < (q + 1) * w) by (nonlinear_arith)
        requires
            q == bw * h / w,
            w >= 1,
    ;
    let p = bh * w / h;
    assert(p * h <= bh * w < (p + 1) * h) by (nonlinear_arith)
        requires
            p == bh * w / h,
            h >= 1,
    ;
}

impl OutputSize {
    /// Scale `source` down to fit inside a `max_width` x `max_height` box,
    /// preserving aspect ratio, then round both edges to even numbers.
    ///
    /// Never upscales: a source already inside the box keeps its size.
    ///
    /// Integer arithmetic throughout, so an exact fit (3840x2160 into
    /// 1920x1080) stays exact.
    pub fn fit(source: Self, max_width: u32, max_height: u32) -> (r: Self)
        ensures
            (r.width as int, r.height as int) == fitted(
                source,
                max_width as int,
                max_height as int,
            ),
    {
        let src_w: u64 = if source.width < 1 { 1 } else { source.width as u64 };
        let src_h: u64 = if source.height < 1 { 1 } else { source.height as u64 };
        let box_w: u64 = max_width as u64;
        let box_h: u64 = max_height as u64;
        proof {
            scaled_bounds(source, max_width as int, max_height as int);
        }
        if src_w <= box_w && src_h <= box_h {
            return OutputSize {
                width: even_floor(source.width),
                height: even_floor(source.height),
            };
        }
        assert(box_w * src_h <= u64::MAX && box_h * src_w <= u64::MAX) by (nonlinear_arith)
            requires
                box_w <= u32::MAX,
                box_h <= u32::MAX,
                src_w <= u32::MAX,
                src_h <= u32::MAX,
        ;
        if box_w * src_h <= box_h * src_w {
            let height: u64 = box_w * src_h / src_w;
            OutputSize { width: even_floor(max_width), height: even_floor(height as u32) }
        } else {
            let width: u64 = box_h * src_w / src_h;
            OutputSize { width: even_floor(width as u32), height: even_floor(max_height) }
        }
    }
}

/// Target output resolution.
#[derive(Debug, Clone, Copy, PartialEq, Eq, Structural)]
pub enum Resolution {
    /// Encode at the capture source's own resolution.  The default.
    Native,
    /// Fit inside one of the standard 16:9 boxes.
    Preset {
        /// The preset's short-edge budget: 2160, 1440, 1080 or 720.
        lines: u32,
    },
    /// Fit inside a user-supplied box.
    Custom {
        /// Bounding-box width in pixels.
        width: u32,
        /// Bounding-box height in pixels.
        height: u32,
    },
}

impl Default for Resolution {
    fn default() -> (r: Self)
        ensures
            r == Resolution::Native,
    {
        Resolution::Native
    }
}

/// The line counts that the settings offer as presets.
pub open spec fn is_preset(lines: u32) -> bool {
    lines == 2160 || lines == 1440 || lines == 1080 || lines == 720
}

/// The width of the 16:9 box of a preset.
pub open spec fn preset_width(lines: u32) -> int {
    (if lines * 16 > u32::MAX {
        u32::MAX as int
    } else {
        lines * 16
    }) / 9
}

/// The output size of a resolution on a source.
pub open spec fn resolved_size(resolution: Resolution, source: OutputSize) -> (int, int) {
    match resolution {
        Resolution::Native => (even_part(source.width as int), even_part(source.height as int)),
        Resolution::Preset { lines } => fitted(source, preset_width(lines), lines as int),
        Resolution::Custom { width, height } => fitted(source, width as int, height as int),
    }
}

/// What is wrong with a custom edge, under its label.
pub open spec fn edge_error(label: Seq<char>, edge: u32) -> Seq<char> {
    "custom "@ + label + " "@ + decimal_text(edge as nat) + " is outside 16..=8192"@
}

/// An edge that custom sizes may have.
pub open spec fn edge_in_range(edge: u32) -> bool {
    MIN_EDGE <= edge <= MAX_EDGE
}

/// What is wrong with a resolution, where something is.
pub open spec fn resolution_error(resolution: Resolution) -> Option<Seq<char>> {
    match resolution {
        Resolution::Native => None,
        Resolution::Preset { lines } => if is_preset(lines) {
            None
        } else {
            Some("unsupported resolution preset "@ + decimal_text(lines as nat) + "p"@)
        },
        Resolution::Custom { width, height } => if !edge_in_range(width) {
            Some(edge_error("width"@, width))
        } else if !edge_in_range(height) {
            Some(edge_error("height"@, height))
        } else {
            None
        },
    }
}

/// Whether a check came out as an error text says: `Ok` where there is none,
/// and otherwise that text.
pub open spec fn outcome_is(r: Result<(), String>, error: Option<Seq<char>>) -> bool {
    match error {
        None => r is Ok,
        Some(text) => r is Err && r->Err_0@ == text,
    }
}

fn check_edge(label: &str, edge: u32) -> (r: Result<(), String>)
    ensures
        outcome_is(
            r,
            if edge_in_range(edge) {
                None
            } else {
                Some(edge_error(label@, edge))
            },
        ),
{
    if edge < MIN_EDGE || edge > MAX_EDGE {
        let head = concat3("custom ", label, " ");
        let number = decimal(edge as u64);
        Err(concat3(head.as_str(), number.as_str(), " is outside 16..=8192"))
    } else {
        Ok(())
    }
}

/// Check a custom width/height pair against the supported edge range.
pub fn validate_custom_size(width: u32, height: u32) -> (r: Result<(), String>)
    ensures
        outcome_is(r, resolution_error(Resolution::Custom { width, height })),
{
    match check_edge("width", width) {
        Err(e) => Err(e),
        Ok(()) => check_edge("height", height),
    }
}

impl Resolution {
    /// Resolve to a concrete output size for a given capture source size.
    ///
    /// Presets are treated as 16:9 bounding boxes, so the label stays honest
    /// on other sources: 1080 lines on a 1920x1200 monitor yield 1728x1080.
    pub fn resolve(self, source: OutputSize) -> (r: OutputSize)
        ensures
            (r.width as int, r.height as int) == resolved_size(self, source),
    {
        match self {
            Resolution::Native => OutputSize {
                width: even_floor(source.width),
                height: even_floor(source.height),
            },
            Resolution::Preset { lines } => {
                let wide: u64 = lines as u64 * 16;
                let capped: u32 = if wide > u32::MAX as u64 { u32::MAX } else { wide as u32 };
                OutputSize::fit(source, capped / 9, lines)
            },
            Resolution::Custom { width, height } => OutputSize::fit(source, width, height),
        }
    }

    /// Reject presets that are not offered and out-of-range custom sizes.
    pub fn validate(self) -> (r: Result<(), String>)
        ensures
            outcome_is(r, resolution_error(self)),
    {
        match self {
            Resolution::Native => Ok(()),
            Resolution::Preset { lines } => {
                if lines == 2160 || lines == 1440 || lines == 1080 || lines == 720 {
                    Ok(())
                } else {
                    let number = decimal(lines as u64);
                    Err(concat3("unsupported resolution preset ", number.as_str(), "p"))
                }
            },
            Resolution::Custom { width, height } => validate_custom_size(width, height),
        }
    }
}

/// `value` brought into `low..=high`.
pub open spec fn clamped(value: int, low: int, high: int) -> int {
    if value < low {
        low
    } else if value > high {
        high
    } else {
        value
    }
}

/// The bit rate of screen content at 0.07 bits per pixel, in whole kbps,
/// within the supported range.
pub open spec fn bitrate_estimate(width: int, height: int, fps: int) -> int {
    clamped(
        width * height * fps * 7 / 100_000,
        MIN_BITRATE_KBPS as int,
        MAX_BITRATE_KBPS as int,
    )
}

/// Estimate a bit rate in kbps for the given output size and frame rate.
///
/// Used both as the automatic default and as the reference figure that the
/// settings show next to the manual bit-rate input.
pub fn suggested_bitrate_kbps(size: OutputSize, fps: u32) -> (r: u32)
    ensures
        r == bitrate_estimate(size.width as int, size.height as int, fps as int),
{
    let w: u128 = size.width as u128;
    let h: u128 = size.height as u128;
    let f: u128 = fps as u128;
    assert(w * h <= 0xffff_ffff_0000_0000) by (nonlinear_arith)
        requires
            w <= 0xffff_ffff,
            h <= 0xffff_ffff,
    ;
    let pixels: u128 = w * h;
    assert(pixels * f * 7 <= 0xffff_ffff_0000_0000 * 0xffff_ffff * 7) by (nonlinear_arith)
        requires
            pixels <= 0xffff_ffff_0000_0000,
            f <= 0xffff_ffff,
    ;
    assert(pixels * f <= 0xffff_ffff_0000_0000 * 0xffff_ffff) by (nonlinear_arith)
        requires
            pixels <= 0xffff_ffff_0000_0000,
            f <= 0xffff_ffff,
    ;
    let kbps: u128 = pixels * f * 7 / 100_000;
    if kbps < 500 {
        MIN_BITRATE_KBPS
    } else if kbps > 50_000 {
        MAX_BITRATE_KBPS
    } else {
        kbps as u32
    }
}

/// How a broadcast reaches its viewers.
///
/// The two transports coexist within one broadcast: the first viewers, up to
/// the cap, are offered a direct connection and everyone after that goes
/// through the server.
#[derive(Debug, Clone, Copy, PartialEq, Eq, Structural)]
pub enum P2pMode {
    /// Offer direct connections up to the viewer cap, then fall back to the
    /// server.  Also falls back for any viewer whose direct connection cannot
    /// be established.
    Auto,
    /// Never offer a direct connection.
    Disabled,
}

impl Default for P2pMode {
    fn default() -> (r: Self)
        ensures
            r == P2pMode::Auto,
    {
        P2pMode::Auto
    }
}

/// The complete set of user-configurable screen-share encoding settings.
#[derive(Debug, Clone, PartialEq, Eq)]
pub struct ScreenShareSettings {
    /// Which capture backend to use.
    pub capture: CaptureBackend,
    /// Which encoder to use, or automatic selection.
    pub encoder: EncoderChoice,
    /// Target output resolution.
    pub resolution: Resolution,
    /// Target frame rate in frames per second.
    pub fps: u32,
    /// Target bit rate in kbps.  `None` means derive it from the resolved
    /// resolution and frame rate.
    pub bitrate_kbps: Option<u32>,
    /// How a broadcast reaches its viewers.
    pub p2p: P2pMode,
    /// How many viewers, at most, are offered a direct connection.
    ///
    /// Only consulted in [`P2pMode::Auto`].  A value of 0 is equivalent to
    /// [`P2pMode::Disabled`].
    pub p2p_max_viewers: u32,
}

impl Default for ScreenShareSettings {
    fn default() -> (r: Self)
        ensures
            r.capture == CaptureBackend::Ddagrab,
            r.encoder == EncoderChoice::Auto,
            r.resolution == Resolution::Native,
            r.fps == DEFAULT_FPS,
            r.bitrate_kbps is None,
            r.p2p == P2pMode::Auto,
            r.p2p_max_viewers == DEFAULT_P2P_MAX_VIEWERS,
    {
        ScreenShareSettings {
            capture: CaptureBackend::Ddagrab,
            encoder: EncoderChoice::Auto,
            resolution: Resolution::Native,
            fps: DEFAULT_FPS,
            bitrate_kbps: None,
            p2p: P2pMode::Auto,
            p2p_max_viewers: DEFAULT_P2P_MAX_VIEWERS,
        }
    }
}

/// The concrete encoding parameters handed to the pipeline, after validating
/// the settings and resolving them against a capture source.
#[derive(Debug, Clone, Copy, PartialEq, Eq, Structural)]
pub struct ResolvedEncoding {
    /// Encoder input size after scaling; both edges even.
    pub size: OutputSize,
    /// Frame rate handed to the encoder and the capture pacer.
    pub fps: u32,
    /// Bit rate handed to the encoder, in kbps.
    pub bitrate_kbps: u32,
}

/// What is wrong with settings, where something is: the first of the frame
/// rate, the bit rate, the viewer cap and the resolution.
pub open spec fn settings_error(s: ScreenShareSettings) -> Option<Seq<char>> {
    if !(MIN_FPS <= s.fps <= MAX_FPS) {
        Some("fps "@ + decimal_text(s.fps as nat) + " is outside 5..=120"@)
    } else if s.bitrate_kbps matches Some(kbps) && !(MIN_BITRATE_KBPS <= kbps
        <= MAX_BITRATE_KBPS) {
        Some(
            "bitrate "@ + decimal_text(s.bitrate_kbps->0 as nat)
                + " kbps is outside 500..=50000"@,
        )
    } else if s.p2p_max_viewers > MAX_P2P_VIEWERS {
        Some("p2p viewer cap "@ + decimal_text(s.p2p_max_viewers as nat) + " is above 8"@)
    } else {
        resolution_error(s.resolution)
    }
}

/// How many viewers may be given a direct connection under these settings.
pub open spec fn direct_slots(s: ScreenShareSettings) -> int {
    match s.p2p {
        P2pMode::Disabled => 0,
        P2pMode::Auto => if s.p2p_max_viewers < MAX_P2P_VIEWERS {
            s.p2p_max_viewers as int
        } else {
            MAX_P2P_VIEWERS as int
        },
    }
}

/// The encoding that accepted settings come to on a source.
pub open spec fn encoding_of(s: ScreenShareSettings, source: OutputSize) -> ResolvedEncoding {
    let (width, height) = resolved_size(s.resolution, source);
    ResolvedEncoding {
        size: OutputSize { width: width as u32, height: height as u32 },
        fps: s.fps,
        bitrate_kbps: match s.bitrate_kbps {
            Some(kbps) => kbps,
            None => bitrate_estimate(width, height, s.fps as int) as u32,
        },
    }
}

impl ScreenShareSettings {
    /// Reject settings the pipeline cannot honour.
    ///
    /// Encoder availability is not checked here: that needs probe results.
    pub fn validate(&self) -> (r: Result<(), String>)
        ensures
            outcome_is(r, settings_error(*self)),
    {
        if self.fps < MIN_FPS || self.fps > MAX_FPS {
            let number = decimal(self.fps as u64);
            return Err(concat3("fps ", number.as_str(), " is outside 5..=120"));
        }
        if let Some(kbps) = self.bitrate_kbps {
            if kbps < MIN_BITRATE_KBPS || kbps > MAX_BITRATE_KBPS {
                let number = decimal(kbps as u64);
                return Err(concat3("bitrate ", number.as_str(), " kbps is outside 500..=50000"));
            }
        }
        if self.p2p_max_viewers > MAX_P2P_VIEWERS {
            let number = decimal(self.p2p_max_viewers as u64);
            return Err(concat3("p2p viewer cap ", number.as_str(), " is above 8"));
        }
        self.resolution.validate()
    }

    /// How many viewers may be given a direct connection.
    ///
    /// Collapses the two ways of saying "none" so callers have a single number
    /// to reason about.  The server's own support is a separate condition.
    pub fn p2p_slots(&self) -> (r: u32)
        ensures
            r == direct_slots(*self),
    {
        match self.p2p {
            P2pMode::Disabled => 0,
            P2pMode::Auto => {
                if self.p2p_max_viewers < MAX_P2P_VIEWERS {
                    self.p2p_max_viewers
                } else {
                    MAX_P2P_VIEWERS
                }
            },
        }
    }

    /// Validate, then resolve against the capture source's own size.
    pub fn resolve(&self, source: OutputSize) -> (r: Result<ResolvedEncoding, String>)
        ensures
            match settings_error(*self) {
                None => r is Ok && r->Ok_0 == encoding_of(*self, source),
                Some(text) => r is Err && r->Err_0@ == text,
            },
    {
        match self.validate() {
            Err(e) => Err(e),
            Ok(()) => {
                let size = self.resolution.resolve(source);
                let bitrate_kbps = match self.bitrate_kbps {
                    Some(kbps) => kbps,
                    None => suggested_bitrate_kbps(size, self.fps),
                };
                Ok(ResolvedEncoding { size, fps: self.fps, bitrate_kbps })
            },
        }
    }
}

/// Accepted settings always resolve to something every encoder takes: even
/// edges of at least two pixels, and a frame rate and bit rate in range.
pub proof fn resolved_encodings_are_in_range(s: ScreenShareSettings, source: OutputSize)
    requires
        settings_error(s) is None,
    ensures
        ({
            let e = encoding_of(s, source);
            &&& e.size.width % 2 == 0 && e.size.width >= 2
            &&& e.size.height % 2 == 0 && e.size.height >= 2
            &&& MIN_FPS <= e.fps <= MAX_FPS
            &&& MIN_BITRATE_KBPS <= e.bitrate_kbps <= MAX_BITRATE_KBPS
        }),
{
    match s.resolution {
        Resolution::Native => {},
        Resolution::Preset { lines } => {
            fit_is_even_inside_and_never_upscales(source, preset_width(lines) as u32, lines);
        },
        Resolution::Custom { width, height } => {
            fit_is_even_inside_and_never_upscales(source, width, height);
        },
    }
}

/// No settings hand out more direct slots than this build serves, and turning
/// peer-to-peer off is the same as a cap of zero.
pub proof fn direct_slots_are_bounded(s: ScreenShareSettings)
    ensures
        0 <= direct_slots(s) <= MAX_P2P_VIEWERS,
        direct_slots(s) == 0 <==> s.p2p == P2pMode::Disabled || s.p2p_max_viewers == 0,
{
}

proof fn lemma_edge_in_proportion(edge: int, across: int, along: int)
    requires
        edge >= 1,
        across >= 1,
        along >= 1,
    ensures
        ({
            let other = even_part(edge * along / across);
            &&& other == 2 || other * across <= edge * along
            &&& edge * along < (other + 2) * across
        }),
{
    let q = edge * along / across;
    let other = even_part(q);
    assert(q >= 0 && q * across <= edge * along < (q + 1) * across) by (nonlinear_arith)
        requires
            q == edge * along / across,
            edge >= 1,
            across >= 1,
            along >= 1,
    ;
    if q >= 2 {
        assert(other <= q);
        assert(other * across <= q * across) by (nonlinear_arith)
            requires
                other <= q,
                across >= 1,
        ;
    }
    assert((q + 1) * across <= (other + 2) * across) by (nonlinear_arith)
        requires
            q + 1 <= other + 2,
            across >= 1,
    ;
}

/// A custom resolution is the box that the picture has to fit into, its width
/// against the picture's width and its height against the picture's height.  A
/// source inside the box keeps its size; a larger one fills the box in one
/// direction and keeps its aspect ratio in the other, each to the even pixel.
pub proof fn a_custom_resolution_is_a_box_for_the_picture(
    width: u32,
    height: u32,
    source: OutputSize,
)
    requires
        width >= 2,
        height >= 2,
        source.width >= 1,
        source.height >= 1,
    ensures
        ({
            let (w, h) = resolved_size(Resolution::Custom { width, height }, source);
            &&& w % 2 == 0 && h % 2 == 0
            &&& 2 <= w <= width && 2 <= h <= height
            &&& source.width <= width && source.height <= height ==> {
                &&& w == source.width - source.width % 2 || w == 2 && source.width == 1
                &&& h == source.height - source.height % 2 || h == 2 && source.height == 1
            }
            &&& (source.width > width || source.height > height) && width * source.height
                <= height * source.width ==> {
                &&& w == width - width % 2
                &&& h == 2 || h * source.width <= width * source.height
                &&& width * source.height < (h + 2) * source.width
            }
            &&& (source.width > width || source.height > height) && width * source.height
                > height * source.width ==> {
                &&& h == height - height % 2
                &&& w == 2 || w * source.height <= height * source.width
                &&& height * source.width < (w + 2) * source.height
            }
        }),
{
    fit_is_even_inside_and_never_upscales(source, width, height);
    lemma_edge_in_proportion(width as int, source.width as int, source.height as int);
    lemma_edge_in_proportion(height as int, source.height as int, source.width as int);
}

/// A preset is a box of sixteen to nine with that many lines, which the picture
/// is fitted into as into any other box: never enlarged, never wider than the
/// box and never higher than its lines.
pub proof fn a_preset_is_a_wide_box_of_that_many_lines(lines: u32, source: OutputSize)
    requires
        2 <= lines <= 0x0fff_ffff,
        source.width >= 1,
        source.height >= 1,
    ensures
        ({
            let (w, h) = resolved_size(Resolution::Preset { lines }, source);
            let width = (lines * 16 / 9) as u32;
            &&& w * 9 <= lines * 16
            &&& h <= lines
            &&& (w, h) == resolved_size(Resolution::Custom { width, height: lines }, source)
            &&& w <= larger(source.width as int, 2) && h <= larger(source.height as int, 2)
        }),
{
    fit_is_even_inside_and_never_upscales(source, (lines * 16 / 9) as u32, lines);
}

/// The native resolution is the source's own, to the even pixel.
pub proof fn the_native_resolution_is_the_sources_own(source: OutputSize)
    requires
        source.width >= 2,
        source.height >= 2,
    ensures
        ({
            let (w, h) = resolved_size(Resolution::Native, source);
            &&& w % 2 == 0 && h % 2 == 0
            &&& w <= source.width <= w + 1
            &&& h <= source.height <= h + 1
        }),
{
}

/// The estimate is seven hundredths of a bit per pixel: in whole kilobits where
/// that is in range, and the nearer end of the range elsewhere.
pub proof fn the_estimate_is_seven_hundredths_of_a_bit_per_pixel(w: u32, h: u32, fps: u32)
    ensures
        ({
            let kbps = bitrate_estimate(w as int, h as int, fps as int);
            let bits = w * h * fps * 7;
            &&& 500 <= kbps <= 50_000
            &&& bits < 500 * 100_000 ==> kbps == 500
            &&& bits >= 50_000 * 100_000 ==> kbps == 50_000
            &&& 500 * 100_000 <= bits < 50_000 * 100_000 ==> kbps * 100_000 <= bits < (kbps + 1)
                * 100_000
        }),
{
    let bits = w * h * fps * 7;
    assert(bits >= 0) by (nonlinear_arith)
        requires
            bits == w * h * fps * 7,
            w >= 0,
            h >= 0,
            fps >= 0,
    ;
}

/// Settings are accepted exactly where the pipeline can honour each of them.
pub proof fn settings_are_accepted_exactly_where_they_can_be_honoured(s: ScreenShareSettings)
    ensures
        settings_error(s) is None <==> {
            &&& 5 <= s.fps <= 120
            &&& s.bitrate_kbps is None || 500 <= s.bitrate_kbps->0 <= 50_000
            &&& s.p2p_max_viewers <= 8
            &&& match s.resolution {
                Resolution::Native => true,
                Resolution::Preset { lines } => lines == 2160 || lines == 1440 || lines == 1080
                    || lines == 720,
                Resolution::Custom { width, height } => 16 <= width <= 8192 && 16 <= height
                    <= 8192,
            }
        },
{
}

/// A refusal names the first setting that cannot be honoured, and the value it
/// has.
pub proof fn a_refusal_names_the_setting(s: ScreenShareSettings)
    ensures
        s.fps < 5 || s.fps > 120 ==> settings_error(s) == Some(
            "fps "@ + decimal_text(s.fps as nat) + " is outside 5..=120"@,
        ),
        5 <= s.fps <= 120 && s.bitrate_kbps is Some && (s.bitrate_kbps->0 < 500
            || s.bitrate_kbps->0 > 50_000) ==> settings_error(s) == Some(
            "bitrate "@ + decimal_text(s.bitrate_kbps->0 as nat) + " kbps is outside 500..=50000"@,
        ),
        5 <= s.fps <= 120 && s.bitrate_kbps is None && s.p2p_max_viewers > 8 ==> settings_error(s)
            == Some("p2p viewer cap "@ + decimal_text(s.p2p_max_viewers as nat) + " is above 8"@),
        5 <= s.fps <= 120 && s.bitrate_kbps is None && s.p2p_max_viewers <= 8
            && s.resolution is Preset ==> {
            let lines = s.resolution->lines;
            lines != 2160 && lines != 1440 && lines != 1080 && lines != 720 ==> settings_error(s)
                == Some("unsupported resolution preset "@ + decimal_text(lines as nat) + "p"@)
        },
        5 <= s.fps <= 120 && s.bitrate_kbps is None && s.p2p_max_viewers <= 8
            && s.resolution is Custom ==> {
            let width = s.resolution->width;
            let height = s.resolution->height;
            &&& width < 16 || width > 8192 ==> settings_error(s) == Some(
                "custom "@ + "width"@ + " "@ + decimal_text(width as nat)
                    + " is outside 16..=8192"@,
            )
            &&& 16 <= width <= 8192 && (height < 16 || height > 8192) ==> settings_error(s)
                == Some(
                "custom "@ + "height"@ + " "@ + decimal_text(height as nat)
                    + " is outside 16..=8192"@,
            )
        },
{
}

/// The encoder gets the frame rate that was asked for, the resolved size, and
/// the bit rate that was asked for or else the estimate for just that size and
/// rate.
pub proof fn an_encoding_is_what_was_asked_for(s: ScreenShareSettings, source: OutputSize)
    requires
        settings_error(s) is None,
    ensures
        ({
            let e = encoding_of(s, source);
            &&& e.fps == s.fps
            &&& (e.size.width as int, e.size.height as int) == resolved_size(s.resolution, source)
            &&& s.bitrate_kbps is Some ==> e.bitrate_kbps == s.bitrate_kbps->0
            &&& s.bitrate_kbps is None ==> e.bitrate_kbps == bitrate_estimate(
                e.size.width as int,
                e.size.height as int,
                e.fps as int,
            )
        }),
{
    match s.resolution {
        Resolution::Native => {},
        Resolution::Preset { lines } => {
            fit_is_even_inside_and_never_upscales(source, preset_width(lines) as u32, lines);
        },
        Resolution::Custom { width: across, height: down } => {
            fit_is_even_inside_and_never_upscales(source, across, down);
        },
    }
}

/// As many viewers are served directly as the user allows, eight at most, and
/// none where that is turned off.
pub proof fn direct_slots_are_what_the_user_allows(s: ScreenShareSettings)
    ensures
        s.p2p == P2pMode::Disabled ==> direct_slots(s) == 0,
        s.p2p == P2pMode::Auto && s.p2p_max_viewers <= 8 ==> direct_slots(s) == s.p2p_max_viewers,
        s.p2p == P2pMode::Auto && s.p2p_max_viewers > 8 ==> direct_slots(s) == 8,
{
}

/// A stored choice names the encoder it is stored under, and is automatic where
/// nothing or `auto` is stored.
pub proof fn a_stored_choice_names_its_encoder(raw: Seq<char>)
    ensures
        raw.len() == 0 ==> choice_from_wire(raw) is None,
        raw == "auto"@ || raw == "AUTO"@ || raw == "Auto"@ ==> choice_from_wire(raw) is None,
        raw.len() > 0 && raw.len() != 4 ==> choice_from_wire(raw) == Some(raw),
        choice_to_wire(Some(raw)) == raw,
        choice_from_wire(choice_to_wire(None)) is None,
{
    reveal_strlit("auto");
    reveal_strlit("AUTO");
    reveal_strlit("Auto");
    assert(lower_text(raw).len() == raw.len());
    assert(lower_text("auto"@) =~= "auto"@);
    assert(lower_text("AUTO"@) =~= "auto"@);
    assert(lower_text("Auto"@) =~= "auto"@);
}

/// A choice is of no encoder in particular, or of the one it names.
pub proof fn a_choice_is_of_what_it_names(id: String)
    ensures
        EncoderChoice::Auto@ is None,
        EncoderChoice::Id(id)@ == Some(id@),
{
}

/// An outcome is an error exactly where there is one, with its text.
pub proof fn an_outcome_is_its_error(r: Result<(), String>, text: Seq<char>)
    ensures
        outcome_is(r, None) <==> r is Ok,
        outcome_is(r, Some(text)) <==> r is Err && r->Err_0@ == text,
{
}

} // verus!
