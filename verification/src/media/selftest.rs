//! Hidden command-line self-test for the capture and encode pipeline.
//!
//! Runs the pipeline for a few seconds on a chosen display and reports what
//! came out: packet sizes, key frames, encode times, and whether the parameter
//! sets are repeated with each key frame.
//!
//! ```text
//! mumble-tauri --capture-selftest                       # 60 frames, defaults
//! mumble-tauri --capture-selftest --frames 120 --fps 60
//! mumble-tauri --capture-selftest --backend gfxcapture --resolution 720
//! mumble-tauri --capture-selftest --encoder libopenh264
//! mumble-tauri --capture-selftest --list
//! ```

use vstd::prelude::*;

use crate::collections::{first_from, first_where, first_where_is_first};
use crate::text::{
    concat2, decimal, decimal_text, hex, hex_text, number_of_text, numbers_fit, parse_u64,
    same_text, signed_decimal, signed_text,
};

use super::capture::CaptureSource;
use super::display::{source_of, DisplayInfo};
use super::encoder::{
    contains_argument, has_argument, path_of, resolved_choice, EncoderReport, Selection,
};
use super::frame::EncodedFrame;
use super::settings::{
    clamped, CaptureBackend, EncoderChoice, P2pMode, Resolution, ScreenShareSettings,
    DEFAULT_P2P_MAX_VIEWERS,
};

verus! {

/// Hidden command-line flag that runs the self-test.
pub const SELFTEST_FLAG: &'static str = "--capture-selftest";

/// What the self-test was asked to do.
#[derive(Debug, PartialEq, Eq)]
pub struct Options {
    /// Only list the displays and exit.
    pub list: bool,
    /// Which display to capture, by index into the enumeration.
    pub display: usize,
    /// A window handle to capture instead of a display.
    pub hwnd: Option<u64>,
    /// How many encoded frames to collect.
    pub frames: u64,
    /// Which capture backend to use.
    pub backend: CaptureBackend,
    /// Which encoder to use, or automatic.
    pub encoder: EncoderChoice,
    /// Target frame rate.
    pub fps: u32,
    /// Target resolution.
    pub resolution: Resolution,
}

/// Whether this argument is the one of a name.
pub open spec fn is_named(arg: String, name: Seq<char>) -> bool {
    arg@ == name
}

/// The argument after the first one with this name.
pub open spec fn value_of(args: Seq<String>, name: Seq<char>) -> Option<Seq<char>> {
    match first_where(args, |a: String| is_named(a, name)) {
        Some(i) => if i + 1 < args.len() {
            Some(args[i + 1]@)
        } else {
            None
        },
        None => None,
    }
}

/// That argument as a number, where it is one.
pub open spec fn number_of(args: Seq<String>, name: Seq<char>) -> Option<nat> {
    match value_of(args, name) {
        Some(text) => match number_of_text(text) {
            Ok(n) => Some(n),
            Err(_) => None,
        },
        None => None,
    }
}

/// A number, or another where there is none.
pub open spec fn number_or(n: Option<nat>, other: nat) -> nat {
    match n {
        Some(v) => v,
        None => other,
    }
}

/// The backend that the arguments ask for.
pub open spec fn backend_of(args: Seq<String>) -> CaptureBackend {
    let v = value_of(args, "--backend"@);
    if v == Some("gfxcapture"@) || v == Some("wgc"@) {
        CaptureBackend::Gfxcapture
    } else {
        CaptureBackend::Ddagrab
    }
}

/// The resolution that the arguments ask for: native without a number of lines
/// or with zero of them.
pub open spec fn resolution_of(args: Seq<String>) -> Resolution {
    match number_of(args, "--resolution"@) {
        None => Resolution::Native,
        Some(n) => if n == 0 {
            Resolution::Native
        } else if n <= u32::MAX {
            Resolution::Preset { lines: n as u32 }
        } else {
            Resolution::Preset { lines: 1080 }
        },
    }
}

/// What the arguments come to.
pub open spec fn parsed(args: Seq<String>, o: Options) -> bool {
    &&& o.list == has_argument(args, "--list"@)
    &&& ({
        let n = number_or(number_of(args, "--display"@), 0);
        o.display == if n <= usize::MAX {
            n
        } else {
            0
        }
    })
    &&& ({
        let n = number_of(args, "--hwnd"@);
        o.hwnd == if n is Some && n->0 != 0 {
            Some(n->0 as u64)
        } else {
            None
        }
    })
    &&& ({
        let n = number_or(number_of(args, "--frames"@), 60);
        o.frames == if n < 1 {
            1
        } else {
            n
        }
    })
    &&& o.backend == backend_of(args)
    &&& o.encoder@ == value_of(args, "--encoder"@)
    &&& ({
        let n = number_or(number_of(args, "--fps"@), 30);
        o.fps == clamped(
            if n <= u32::MAX {
                n as int
            } else {
                30
            },
            5,
            120,
        )
    })
    &&& o.resolution == resolution_of(args)
}

fn find_value<'a>(args: &'a Vec<String>, name: &str) -> (r: Option<&'a String>)
    ensures
        match value_of(args@, name@) {
            Some(text) => r is Some && r->0@ == text,
            None => r is None,
        },
{
    let ghost named = |a: String| is_named(a, name@);
    let mut i: usize = 0;
    while i < args.len()
        invariant
            i <= args.len(),
            named == (|a: String| is_named(a, name@)),
            first_where(args@, named) == first_from(args@, named, i as int),
        decreases args.len() - i,
    {
        if same_text(args[i].as_str(), name) {
            assert(first_where(args@, named) == Some(i as int));
            if i + 1 < args.len() {
                return Some(&args[i + 1]);
            } else {
                return None;
            }
        }
        i += 1;
    }
    None
}

fn find_number(args: &Vec<String>, name: &str) -> (r: Option<u64>)
    ensures
        match number_of(args@, name@) {
            Some(n) => r is Some && r->0 == n,
            None => r is None,
        },
{
    match find_value(args, name) {
        Some(text) => match parse_u64(text.as_str()) {
            Ok(n) => Some(n),
            Err(_) => None,
        },
        None => None,
    }
}

/// Whether these arguments ask for the self-test.
pub fn wants_selftest(args: &Vec<String>) -> (r: bool)
    ensures
        r == has_argument(args@, SELFTEST_FLAG@),
{
    contains_argument(args, SELFTEST_FLAG)
}

impl Options {
    /// Read the options from the command line, falling back to defaults.
    pub fn parse(args: &Vec<String>) -> (r: Self)
        ensures
            parsed(args@, r),
    {
        let backend = match find_value(args, "--backend") {
            Some(v) => {
                if same_text(v.as_str(), "gfxcapture") || same_text(v.as_str(), "wgc") {
                    CaptureBackend::Gfxcapture
                } else {
                    CaptureBackend::Ddagrab
                }
            },
            None => CaptureBackend::Ddagrab,
        };
        let resolution = match find_number(args, "--resolution") {
            None => Resolution::Native,
            Some(n) => {
                if n == 0 {
                    Resolution::Native
                } else if n <= u32::MAX as u64 {
                    Resolution::Preset { lines: n as u32 }
                } else {
                    Resolution::Preset { lines: 1080 }
                }
            },
        };
        let encoder = match find_value(args, "--encoder") {
            Some(id) => EncoderChoice::Id(id.clone()),
            None => EncoderChoice::Auto,
        };
        let display: usize = match find_number(args, "--display") {
            Some(n) => {
                if n <= usize::MAX as u64 {
                    n as usize
                } else {
                    0
                }
            },
            None => 0,
        };
        let hwnd: Option<u64> = match find_number(args, "--hwnd") {
            Some(h) => {
                if h != 0 {
                    Some(h)
                } else {
                    None
                }
            },
            None => None,
        };
        let frames: u64 = match find_number(args, "--frames") {
            Some(n) => {
                if n < 1 {
                    1
                } else {
                    n
                }
            },
            None => 60,
        };
        let fps: u32 = match find_number(args, "--fps") {
            Some(n) => {
                if n > u32::MAX as u64 {
                    30
                } else if n < 5 {
                    5
                } else if n > 120 {
                    120
                } else {
                    n as u32
                }
            },
            None => 30,
        };
        Options {
            list: contains_argument(args, "--list"),
            display,
            hwnd,
            frames,
            backend,
            encoder,
            fps,
            resolution,
        }
    }

    /// The settings these options describe.
    pub fn settings(&self) -> (r: ScreenShareSettings)
        ensures
            r.capture == self.backend,
            r.encoder@ == self.encoder@,
            r.resolution == self.resolution,
            r.fps == self.fps,
            r.bitrate_kbps is None,
            r.p2p == P2pMode::Auto,
            r.p2p_max_viewers == DEFAULT_P2P_MAX_VIEWERS,
            tested_with(*self, r),
    {
        let encoder = match self.encoder.id() {
            Some(id) => EncoderChoice::Id(id.to_owned()),
            None => EncoderChoice::Auto,
        };
        ScreenShareSettings {
            capture: self.backend,
            encoder,
            resolution: self.resolution,
            fps: self.fps,
            bitrate_kbps: None,
            p2p: P2pMode::Auto,
            p2p_max_viewers: DEFAULT_P2P_MAX_VIEWERS,
        }
    }

    /// What these options ask to capture: the window, or the display at the
    /// index.
    pub fn source(&self, displays: &Vec<DisplayInfo>) -> (r: Result<CaptureSource, String>)
        ensures
            match self.hwnd {
                Some(hwnd) => r == Ok::<CaptureSource, String>(CaptureSource::Window { hwnd }),
                None => if self.display < displays@.len() {
                    r == Ok::<CaptureSource, String>(source_of(displays@[self.display as int]@))
                } else {
                    r is Err && r->Err_0@ == "no display at index "@ + decimal_text(
                        self.display as nat,
                    )
                },
            },
            tested_on(*self, displays@, r),
    {
        match self.hwnd {
            Some(hwnd) => Ok(CaptureSource::Window { hwnd }),
            None => {
                if self.display < displays.len() {
                    Ok(displays[self.display].source())
                } else {
                    let number = decimal(self.display as u64);
                    Err(concat2("no display at index ", number.as_str()))
                }
            },
        }
    }
}

/// Every command line gives a rate and a number of frames that the pipeline
/// takes.
pub proof fn parsed_options_are_usable(args: Seq<String>, o: Options)
    requires
        parsed(args, o),
    ensures
        5 <= o.fps <= 120,
        o.frames >= 1,
        o.hwnd != Some(0u64),
{
    if let Some(text) = value_of(args, "--hwnd"@) {
        numbers_fit(text);
    }
}

/// How one display is listed.
pub open spec fn display_line(index: nat, d: DisplayInfo) -> Seq<char> {
    "  ["@ + decimal_text(index) + "] "@ + d.device_name@ + " "@ + decimal_text(
        d.size.width as nat,
    ) + "x"@ + decimal_text(d.size.height as nat) + " adapter="@ + decimal_text(
        d.adapter_index as nat,
    ) + " output_idx="@ + decimal_text(d.output_index as nat) + " hmonitor=0x"@ + hex_text(
        d.hmonitor as nat,
    ) + (if d.is_primary {
        " (primary)"@
    } else {
        ""@
    })
}

/// List one display.
pub fn describe_display(index: usize, d: &DisplayInfo) -> (r: String)
    ensures
        r@ == display_line(index as nat, *d),
{
    let mut out = concat2("  [", decimal(index as u64).as_str());
    out.append("] ");
    out.append(d.device_name.as_str());
    out.append(" ");
    out.append(decimal(d.size.width as u64).as_str());
    out.append("x");
    out.append(decimal(d.size.height as u64).as_str());
    out.append(" adapter=");
    out.append(decimal(d.adapter_index as u64).as_str());
    out.append(" output_idx=");
    out.append(decimal(d.output_index as u64).as_str());
    out.append(" hmonitor=0x");
    out.append(hex(d.hmonitor).as_str());
    out.append(if d.is_primary { " (primary)" } else { "" });
    out
}

/// Resolve the encoder choice against the probe results.
pub fn pick_encoder(report: &EncoderReport, choice: &EncoderChoice) -> (r: Result<
    Selection,
    String,
>)
    ensures
        if !report.supported {
            r is Err && r->Err_0@ == "encoder probing reported no support"@
        } else {
            match resolved_choice(report@, choice@) {
                Some((id, fell_back)) => {
                    &&& r is Ok
                    &&& r->Ok_0.id@ == id
                    &&& r->Ok_0.fell_back == fell_back
                    &&& r->Ok_0.input == path_of(report@.encoders, id)
                },
                None => r is Err && r->Err_0@
                    == "no working h264 encoder found on this machine"@,
            }
        },
{
    if !report.supported {
        return Err("encoder probing reported no support".to_owned());
    }
    report.resolve_choice(choice)
}

/// What the self-test does while it collects frames.
#[derive(Debug, Clone, Copy, PartialEq, Eq, Structural)]
pub enum SelfTestStep {
    /// Every frame is there.
    Complete,
    /// The pipeline has stopped by itself.
    Stopped,
    /// Time is up.
    TimedOut,
    /// Look again shortly, after asking for a key frame where this says so.
    Wait {
        /// Ask for a key frame first.
        ask_for_key: bool,
    },
}

/// Decide how the collection goes on.
///
/// A key frame is asked for once, half way through, which is what a receiver
/// does when it joins.
pub fn collect_step(
    count: u64,
    wanted: u64,
    stopped: bool,
    past_deadline: bool,
    asked_for_key: &mut bool,
) -> (r: SelfTestStep)
    ensures
        r == if count >= wanted {
            SelfTestStep::Complete
        } else if stopped {
            SelfTestStep::Stopped
        } else if past_deadline {
            SelfTestStep::TimedOut
        } else {
            SelfTestStep::Wait { ask_for_key: !*old(asked_for_key) && count >= wanted / 2 }
        },
        *final(asked_for_key) == (*old(asked_for_key) || r == (SelfTestStep::Wait {
            ask_for_key: true,
        })),
        (r, *final(asked_for_key)) == collecting(
            count,
            wanted,
            stopped,
            past_deadline,
            *old(asked_for_key),
        ),
{
    if count >= wanted {
        return SelfTestStep::Complete;
    }
    if stopped {
        return SelfTestStep::Stopped;
    }
    if past_deadline {
        return SelfTestStep::TimedOut;
    }
    let ask_for_key = !*asked_for_key && count >= wanted / 2;
    if ask_for_key {
        *asked_for_key = true;
    }
    SelfTestStep::Wait { ask_for_key }
}

/// What the run produced.
#[derive(Debug)]
pub struct Collected {
    /// Total packets seen.
    pub packets: u64,
    /// Total bytes seen.
    pub bytes: u64,
    /// Key frames seen.
    pub key_frames: u64,
    /// Key frames that carried their own parameter sets.
    pub key_frames_with_headers: u64,
    /// The first few packets, described.
    pub first: Vec<String>,
    /// The last timestamp seen.
    pub last_pts: i64,
}

impl Default for Collected {
    fn default() -> (r: Self)
        ensures
            r.packets == 0,
            r.bytes == 0,
            r.key_frames == 0,
            r.key_frames_with_headers == 0,
            r.first@.len() == 0,
            r.last_pts == 0,
    {
        Collected {
            packets: 0,
            bytes: 0,
            key_frames: 0,
            key_frames_with_headers: 0,
            first: Vec::new(),
            last_pts: 0,
        }
    }
}

/// A parameter set starts at this position: a start code of three bytes, then
/// the type of an H.264 or HEVC sequence parameter set.
///
/// A start code of four bytes is one of three with a zero in front.
pub open spec fn parameter_set_at(bytes: Seq<u8>, i: int) -> bool {
    &&& 0 <= i
    &&& i + 3 < bytes.len()
    &&& bytes[i] == 0
    &&& bytes[i + 1] == 0
    &&& bytes[i + 2] == 1
    &&& (bytes[i + 3] & 0x1F == 7 || (bytes[i + 3] >> 1) & 0x3F == 33)
}

/// Whether a bitstream holds a sequence parameter set.
pub open spec fn holds_parameter_sets(bytes: Seq<u8>) -> bool {
    exists|i: int| #[trigger] parameter_set_at(bytes, i)
}

/// Whether a bitstream holds a sequence parameter set.
///
/// Encoders are asked to repeat the parameter sets with every key frame, so
/// that a receiver can start decoding in the middle of a stream; whether one
/// does is worth measuring.
pub fn has_parameter_sets(bytes: &Vec<u8>) -> (r: bool)
    ensures
        r == holds_parameter_sets(bytes@),
{
    let len: usize = bytes.len();
    if len < 4 {
        return false;
    }
    let last: usize = len - 4;
    let mut index: usize = 0;
    loop
        invariant
            len == bytes@.len(),
            last + 4 == len,
            index <= last,
            forall|i: int| i < index ==> !#[trigger] parameter_set_at(bytes@, i),
        decreases last - index,
    {
        if bytes[index] == 0 && bytes[index + 1] == 0 && bytes[index + 2] == 1 {
            let byte: u8 = bytes[index + 3];
            if byte & 0x1F == 7 || (byte >> 1) & 0x3F == 33 {
                assert(parameter_set_at(bytes@, index as int));
                return true;
            }
        }
        assert(!parameter_set_at(bytes@, index as int));
        if index == last {
            return false;
        }
        index += 1;
    }
}

/// How one packet is described.
pub open spec fn packet_line(index: u64, frame: EncodedFrame) -> Seq<char> {
    "#"@ + decimal_text(index as nat) + " "@ + decimal_text(frame.bytes@.len()) + " bytes pts="@
        + signed_text(frame.pts_ms as int) + " ms"@ + (if frame.is_key {
        " KEY"@
    } else {
        ""@
    }) + (if frame.is_key && holds_parameter_sets(frame.bytes@) {
        " +SPS/PPS"@
    } else {
        ""@
    })
}

/// Whether a packet is described: one of the first five or a key frame, while
/// there is room for another line.
pub open spec fn is_described(lines: int, index: u64, frame: EncodedFrame) -> bool {
    (index < 5 || frame.is_key) && lines < 12
}

impl Collected {
    /// The counters have room for another frame.
    pub open spec fn has_room(&self, frame: EncodedFrame) -> bool {
        &&& self.packets < u64::MAX
        &&& self.bytes + frame.bytes@.len() <= u64::MAX
        &&& self.key_frames < u64::MAX
        &&& self.key_frames_with_headers < u64::MAX
    }

    /// Fold one frame in.
    pub fn record(&mut self, index: u64, frame: &EncodedFrame)
        requires
            old(self).has_room(*frame),
        ensures
            final(self).packets == old(self).packets + 1,
            final(self).bytes == old(self).bytes + frame.bytes@.len(),
            final(self).last_pts == frame.pts_ms,
            final(self).key_frames == old(self).key_frames + if frame.is_key {
                1int
            } else {
                0
            },
            final(self).key_frames_with_headers == old(self).key_frames_with_headers + if frame.is_key
                && holds_parameter_sets(frame.bytes@) {
                1int
            } else {
                0
            },
            if is_described(old(self).first@.len() as int, index, *frame) {
                &&& final(self).first@.len() == old(self).first@.len() + 1
                &&& final(self).first@.drop_last() == old(self).first@
                &&& final(self).first@.last()@ == packet_line(index, *frame)
            } else {
                final(self).first@ == old(self).first@
            },
            recorded(*old(self), *final(self), index, *frame),
    {
        self.packets = self.packets + 1;
        self.bytes = self.bytes + frame.bytes.len() as u64;
        self.last_pts = frame.pts_ms;
        let headers = frame.is_key && has_parameter_sets(&frame.bytes);
        if frame.is_key {
            self.key_frames = self.key_frames + 1;
            if headers {
                self.key_frames_with_headers = self.key_frames_with_headers + 1;
            }
        }
        if (index < 5 || frame.is_key) && self.first.len() < 12 {
            let mut line = concat2("#", decimal(index).as_str());
            line.append(" ");
            line.append(decimal(frame.bytes.len() as u64).as_str());
            line.append(" bytes pts=");
            line.append(signed_decimal(frame.pts_ms).as_str());
            line.append(" ms");
            line.append(if frame.is_key { " KEY" } else { "" });
            line.append(if headers { " +SPS/PPS" } else { "" });
            self.first.push(line);
            assert(self.first@.drop_last() =~= old(self).first@);
        }
    }

    /// Whether some key frame came without its parameter sets.
    pub fn headers_missing(&self) -> (r: bool)
        ensures
            r == (self.key_frames > 0 && self.key_frames_with_headers < self.key_frames),
    {
        self.key_frames > 0 && self.key_frames_with_headers < self.key_frames
    }

    /// Whether the run succeeded: it produced something.
    pub fn verdict(&self) -> (r: Result<(), String>)
        ensures
            if self.packets == 0 {
                r is Err && r->Err_0@ == "no packets were produced"@
            } else {
                r is Ok
            },
    {
        if self.packets == 0 {
            Err("no packets were produced".to_owned())
        } else {
            Ok(())
        }
    }
}

/// A parameter set is found behind either start code: of three bytes, or of
/// four.
pub proof fn either_start_code_is_found(prefix: Seq<u8>, rest: Seq<u8>)
    requires
        rest.len() > 0,
        rest[0] & 0x1F == 7 || (rest[0] >> 1) & 0x3F == 33,
    ensures
        holds_parameter_sets(prefix + seq![0u8, 0u8, 1u8] + rest),
        holds_parameter_sets(prefix + seq![0u8, 0u8, 0u8, 1u8] + rest),
{
    let n = prefix.len() as int;
    let three = prefix + seq![0u8, 0u8, 1u8] + rest;
    assert(three[n + 3] == rest[0]);
    assert(parameter_set_at(three, n));
    let four = prefix + seq![0u8, 0u8, 0u8, 1u8] + rest;
    assert(four[n + 4] == rest[0]);
    assert(parameter_set_at(four, n + 1));
}

/// What the test does next, and whether it has then asked for a key frame.
pub open spec fn collecting(
    count: u64,
    wanted: u64,
    stopped: bool,
    past_deadline: bool,
    asked: bool,
) -> (SelfTestStep, bool) {
    if count >= wanted {
        (SelfTestStep::Complete, asked)
    } else if stopped {
        (SelfTestStep::Stopped, asked)
    } else if past_deadline {
        (SelfTestStep::TimedOut, asked)
    } else {
        let ask_for_key = !asked && count >= wanted / 2;
        (SelfTestStep::Wait { ask_for_key }, asked || ask_for_key)
    }
}

/// The test is complete with all its frames, whatever else has happened; it
/// stops with the pipeline, else at its deadline, and half way through it asks
/// for a key frame, once.
pub proof fn the_test_asks_for_one_key_frame(
    count: u64,
    wanted: u64,
    stopped: bool,
    past_deadline: bool,
    asked: bool,
)
    ensures
        count >= wanted ==> collecting(count, wanted, stopped, past_deadline, asked) == (
            SelfTestStep::Complete,
            asked,
        ),
        count < wanted ==> collecting(count, wanted, true, past_deadline, asked) == (
            SelfTestStep::Stopped,
            asked,
        ),
        count < wanted ==> collecting(count, wanted, false, true, asked) == (
            SelfTestStep::TimedOut,
            asked,
        ),
        count < wanted && 2 * count + 1 >= wanted ==> collecting(count, wanted, false, false, false)
            == (SelfTestStep::Wait { ask_for_key: true }, true),
        2 * count + 1 < wanted ==> collecting(count, wanted, false, false, false) == (
            SelfTestStep::Wait { ask_for_key: false },
            false,
        ),
        count < wanted ==> collecting(count, wanted, false, false, true) == (
            SelfTestStep::Wait { ask_for_key: false },
            true,
        ),
{
}

/// A packet was taken into what the test has collected.
pub open spec fn recorded(
    before: Collected,
    after: Collected,
    index: u64,
    frame: EncodedFrame,
) -> bool {
    let headers = frame.is_key && holds_parameter_sets(frame.bytes@);
    &&& after.packets == before.packets + 1
    &&& after.bytes == before.bytes + frame.bytes@.len()
    &&& after.last_pts == frame.pts_ms
    &&& after.key_frames - before.key_frames == if frame.is_key {
        1int
    } else {
        0
    }
    &&& after.key_frames_with_headers - before.key_frames_with_headers == if headers {
        1int
    } else {
        0
    }
    &&& if is_described(before.first@.len() as int, index, frame) {
        &&& after.first@.len() == before.first@.len() + 1
        &&& after.first@.last()@ == packet_line(index, frame)
    } else {
        after.first@ == before.first@
    }
}

/// Every packet counts with all its bytes, every key frame as one, and those
/// with parameter sets again; the first five packets and the key frames are
/// described, up to twelve lines.
pub proof fn every_packet_counts(
    before: Collected,
    after: Collected,
    index: u64,
    frame: EncodedFrame,
)
    requires
        recorded(before, after, index, frame),
    ensures
        after.packets == before.packets + 1,
        after.bytes == before.bytes + frame.bytes@.len(),
        after.last_pts == frame.pts_ms,
        frame.is_key ==> after.key_frames == before.key_frames + 1,
        !frame.is_key ==> after.key_frames == before.key_frames && after.key_frames_with_headers
            == before.key_frames_with_headers,
        frame.is_key && holds_parameter_sets(frame.bytes@) ==> after.key_frames_with_headers
            == before.key_frames_with_headers + 1,
        frame.is_key && !holds_parameter_sets(frame.bytes@) ==> after.key_frames_with_headers
            == before.key_frames_with_headers,
        before.first@.len() < 12 && (index <= 4 || frame.is_key) ==> after.first@.len()
            == before.first@.len() + 1,
        before.first@.len() >= 12 || (index >= 5 && !frame.is_key) ==> after.first@
            == before.first@,
{
}

/// The line of a packet says which it is, its size, its time, and whether it is
/// a key frame that a viewer can start from.
pub proof fn a_packets_line_says_what_it_is(index: u64, frame: EncodedFrame)
    ensures
        ({
            let head = "#"@ + decimal_text(index as nat) + " "@ + decimal_text(frame.bytes@.len())
                + " bytes pts="@ + signed_text(frame.pts_ms as int) + " ms"@;
            &&& !frame.is_key ==> packet_line(index, frame) == head
            &&& frame.is_key && !holds_parameter_sets(frame.bytes@) ==> packet_line(index, frame)
                == head + " KEY"@
            &&& frame.is_key && holds_parameter_sets(frame.bytes@) ==> packet_line(index, frame)
                == head + " KEY"@ + " +SPS/PPS"@
        }),
{
    reveal_strlit("");
    let head = "#"@ + decimal_text(index as nat) + " "@ + decimal_text(frame.bytes@.len())
        + " bytes pts="@ + signed_text(frame.pts_ms as int) + " ms"@;
    assert(head + ""@ + ""@ =~= head);
    assert(head + " KEY"@ + ""@ =~= head + " KEY"@);
}

/// The line of a display says where it stands in the list, its name, its size as
/// width by height, and how it is found.
pub proof fn a_displays_line_says_what_it_is(index: nat, d: DisplayInfo)
    ensures
        ({
            let head = "  ["@ + decimal_text(index) + "] "@ + d.device_name@ + " "@ + decimal_text(
                d.size.width as nat,
            ) + "x"@ + decimal_text(d.size.height as nat) + " adapter="@ + decimal_text(
                d.adapter_index as nat,
            ) + " output_idx="@ + decimal_text(d.output_index as nat) + " hmonitor=0x"@ + hex_text(
                d.hmonitor as nat,
            );
            &&& d.is_primary ==> display_line(index, d) == head + " (primary)"@
            &&& !d.is_primary ==> display_line(index, d) == head
        }),
{
    reveal_strlit("");
    let head = "  ["@ + decimal_text(index) + "] "@ + d.device_name@ + " "@ + decimal_text(
        d.size.width as nat,
    ) + "x"@ + decimal_text(d.size.height as nat) + " adapter="@ + decimal_text(
        d.adapter_index as nat,
    ) + " output_idx="@ + decimal_text(d.output_index as nat) + " hmonitor=0x"@ + hex_text(
        d.hmonitor as nat,
    );
    assert(head + ""@ =~= head);
}

/// A key frame holds parameter sets only behind a start code, and only those of
/// H.264 or HEVC count.
pub proof fn parameter_sets_follow_a_start_code(bytes: Seq<u8>, i: int)
    requires
        parameter_set_at(bytes, i),
    ensures
        0 <= i && i + 4 <= bytes.len(),
        bytes.subrange(i, i + 3) == seq![0u8, 0u8, 1u8],
        bytes[i + 3] as int % 32 == 7 || bytes[i + 3] as int / 2 % 64 == 33,
{
    let byte: u8 = bytes[i + 3];
    assert((byte & 0x1F == 7) == (byte % 32 == 7)) by (bit_vector);
    assert(((byte >> 1) & 0x3F == 33) == (byte / 2 % 64 == 33)) by (bit_vector);
    assert(bytes.subrange(i, i + 3) =~= seq![0u8, 0u8, 1u8]);
}

/// These are the settings that the test runs with.
pub open spec fn tested_with(o: Options, s: ScreenShareSettings) -> bool {
    &&& s.capture == o.backend
    &&& s.encoder@ == o.encoder@
    &&& s.resolution == o.resolution
    &&& s.fps == o.fps
    &&& s.bitrate_kbps is None
}

/// This is what the test captures.
pub open spec fn tested_on(
    o: Options,
    displays: Seq<DisplayInfo>,
    r: Result<CaptureSource, String>,
) -> bool {
    if o.hwnd is Some {
        r is Ok && r->Ok_0 == (CaptureSource::Window { hwnd: o.hwnd->0 })
    } else if o.display < displays.len() {
        r is Ok && r->Ok_0 == source_of(displays[o.display as int]@)
    } else {
        r is Err && r->Err_0@ == "no display at index "@ + decimal_text(o.display as nat)
    }
}

/// The test captures the window it is given, else the display of that number,
/// in the way, at the size and at the rate that were asked for.
pub proof fn the_test_runs_as_asked_for(
    o: Options,
    s: ScreenShareSettings,
    displays: Seq<DisplayInfo>,
    r: Result<CaptureSource, String>,
    hwnd: u64,
)
    requires
        tested_with(o, s),
        tested_on(o, displays, r),
    ensures
        s.capture == o.backend,
        s.encoder@ == o.encoder@,
        s.resolution == o.resolution,
        s.fps == o.fps,
        s.bitrate_kbps is None,
        o.hwnd == Some(hwnd) ==> r == Ok::<CaptureSource, String>(CaptureSource::Window { hwnd }),
        o.hwnd is None && o.display < displays.len() ==> r == Ok::<CaptureSource, String>(
            CaptureSource::Monitor {
                output_index: displays[o.display as int].output_index,
                hmonitor: displays[o.display as int].hmonitor,
            },
        ),
        o.hwnd is None && o.display >= displays.len() ==> r is Err,
{
}

/// The value of an option is the argument behind its first mention.
pub proof fn an_options_value_stands_behind_it(args: Seq<String>, name: Seq<char>, k: int)
    requires
        0 <= k < args.len(),
        args[k]@ == name,
        forall|j: int| 0 <= j < k ==> (#[trigger] args[j])@ != name,
    ensures
        k + 1 < args.len() ==> value_of(args, name) == Some(args[k + 1]@),
        k + 1 == args.len() ==> value_of(args, name) is None,
{
    let named = |a: String| is_named(a, name);
    first_where_is_first(args, named);
    assert(named(args[k]));
    let i = first_where(args, named)->0;
    assert(named(args[i]));
    if k < i {
        assert(!named(args[k]));
    }
}

/// Each option is taken as what it is called, a number only where it is one and
/// in its range; what is left out has its default.
pub proof fn options_mean_what_they_are_called(args: Seq<String>, o: Options, n: nat)
    requires
        parsed(args, o),
    ensures
        o.list <==> has_argument(args, "--list"@),
        number_of(args, "--display"@) == Some(n) && n <= u32::MAX ==> o.display == n,
        number_of(args, "--display"@) is None ==> o.display == 0,
        number_of(args, "--hwnd"@) == Some(n) && 0 < n <= u64::MAX ==> o.hwnd == Some(n as u64),
        number_of(args, "--hwnd"@) is None || number_of(args, "--hwnd"@) == Some(0nat) ==> o.hwnd
            is None,
        number_of(args, "--frames"@) == Some(n) && 0 < n <= u64::MAX ==> o.frames == n,
        number_of(args, "--frames"@) == Some(0nat) ==> o.frames == 1,
        number_of(args, "--frames"@) is None ==> o.frames == 60,
        number_of(args, "--fps"@) == Some(n) && 5 <= n <= 120 ==> o.fps == n,
        number_of(args, "--fps"@) == Some(n) && n < 5 ==> o.fps == 5,
        number_of(args, "--fps"@) == Some(n) && 120 < n <= u32::MAX ==> o.fps == 120,
        number_of(args, "--fps"@) is None ==> o.fps == 30,
        value_of(args, "--backend"@) == Some("gfxcapture"@) || value_of(args, "--backend"@) == Some(
            "wgc"@,
        ) ==> o.backend == CaptureBackend::Gfxcapture,
        value_of(args, "--backend"@) is None ==> o.backend == CaptureBackend::Ddagrab,
        value_of(args, "--encoder"@) == o.encoder@,
        number_of(args, "--resolution"@) == Some(n) && 0 < n <= u32::MAX ==> o.resolution == (
        Resolution::Preset { lines: n as u32 }),
        number_of(args, "--resolution"@) is None || number_of(args, "--resolution"@) == Some(0nat)
            ==> o.resolution == Resolution::Native,
{
}

} // verus!
