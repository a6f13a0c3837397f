//! Screen-share audio: sample clock, packet framing and the decisions of the
//! capture thread.
//!
//! Samples are opaque here (`S` is one sample of one channel): what matters is
//! how many there are and when they were captured.

use vstd::prelude::*;

use super::capture::CaptureSource;
use super::settings::outcome_is;

verus! {

/// The clock rate of the audio, in samples per second and channel.
pub const SAMPLE_RATE: u32 = 48_000;

/// Samples per channel in a 20 ms packet.
pub const FRAME_SAMPLES: usize = 960;

/// Interleaved samples of both channels in a packet.
pub const FRAME_VALUES: usize = 1920;

/// The longest buffer that a device may hand over, in samples per channel.
pub const MAX_BUFFER_FRAMES: u32 = 48_000;

/// One stereo packet, timestamped independently of network delivery.
#[derive(Debug, PartialEq, Eq)]
pub struct Packet {
    /// The encoded packet.
    pub bytes: Vec<u8>,
    /// When it starts, in samples.
    pub pts_samples: u64,
}

/// Counts captured samples, using the performance counter only to preserve
/// gaps.
#[derive(Debug, Clone, Copy, PartialEq, Eq, Structural)]
pub struct CaptureClock {
    /// The position of the next sample.
    pub next_samples: u64,
    /// When the next sample is due, in units of 100 ns, where known.
    pub next_qpc: Option<u64>,
}

impl Default for CaptureClock {
    fn default() -> (r: Self)
        ensures
            r == (CaptureClock { next_samples: 0, next_qpc: None }),
    {
        CaptureClock { next_samples: 0, next_qpc: None }
    }
}

/// The samples that fit into a gap of some units of 100 ns.
pub open spec fn gap_samples(gap: int) -> int {
    (if gap * 48_000 > u64::MAX {
        u64::MAX as int
    } else {
        gap * 48_000
    }) / 10_000_000
}

/// The samples that are missing before a buffer of this time: none unless both
/// its time and the expected one are known and more than 2 ms apart, which is
/// more than jitter.
pub open spec fn missing_samples(clock: CaptureClock, qpc: Option<u64>) -> int {
    match (qpc, clock.next_qpc) {
        (Some(actual), Some(expected)) => if actual - expected > 20_000 {
            gap_samples(actual - expected)
        } else {
            0
        },
        _ => 0,
    }
}

/// How long a number of samples lasts, in units of 100 ns.
pub open spec fn duration_of(frames: int) -> int {
    frames * 10_000_000 / 48_000
}

/// Where a buffer starts.
pub open spec fn buffer_start(clock: CaptureClock, qpc: Option<u64>) -> int {
    clock.next_samples + missing_samples(clock, qpc)
}

/// The clock after a buffer.
pub open spec fn clock_after(clock: CaptureClock, frames: u32, qpc: Option<u64>) -> CaptureClock {
    CaptureClock {
        next_samples: (buffer_start(clock, qpc) + frames) as u64,
        next_qpc: match qpc {
            Some(at) => Some((at + duration_of(frames as int)) as u64),
            None => None,
        },
    }
}

/// The clock's next readings are 64-bit numbers.
pub open spec fn clock_in_range(clock: CaptureClock, frames: u32, qpc: Option<u64>) -> bool {
    &&& buffer_start(clock, qpc) + frames <= u64::MAX
    &&& qpc matches Some(at) ==> at + duration_of(frames as int) <= u64::MAX
}

fn gap_in_samples(gap: u64) -> (r: u64)
    ensures
        r == gap_samples(gap as int),
{
    let wide: u128 = gap as u128 * 48_000;
    let capped: u128 = if wide > u64::MAX as u128 { u64::MAX as u128 } else { wide };
    (capped / 10_000_000) as u64
}

impl CaptureClock {
    fn missing(&self, qpc: Option<u64>) -> (r: u64)
        ensures
            r == missing_samples(*self, qpc),
    {
        match (qpc, self.next_qpc) {
            (Some(actual), Some(expected)) => {
                if actual > expected && actual - expected > 20_000 {
                    gap_in_samples(actual - expected)
                } else {
                    0
                }
            },
            _ => 0,
        }
    }

    /// Whether the clock can take a buffer of this length and time.
    pub fn in_range(&self, frames: u32, qpc: Option<u64>) -> (r: bool)
        ensures
            r == clock_in_range(*self, frames, qpc),
    {
        let end: u128 = self.next_samples as u128 + self.missing(qpc) as u128 + frames as u128;
        let due_fits = match qpc {
            Some(at) => {
                let due: u128 = at as u128 + frames as u128 * 10_000_000 / 48_000;
                due <= u64::MAX as u128
            },
            None => true,
        };
        end <= u64::MAX as u128 && due_fits
    }

    /// Take a buffer of `frames` samples per channel, captured at `qpc` where
    /// known, and tell where it starts.
    pub fn advance(&mut self, frames: u32, qpc: Option<u64>) -> (r: u64)
        requires
            clock_in_range(*old(self), frames, qpc),
        ensures
            r == buffer_start(*old(self), qpc),
            *final(self) == clock_after(*old(self), frames, qpc),
    {
        let start: u64 = self.next_samples + self.missing(qpc);
        self.next_qpc = match qpc {
            Some(at) => Some(at + frames as u64 * 10_000_000 / 48_000),
            None => None,
        };
        self.next_samples = start + frames as u64;
        start
    }
}

/// Buffers never overlap: each starts at or after the end of the one before,
/// and later by exactly the samples that a gap in time has room for.
pub proof fn buffers_never_overlap(
    clock: CaptureClock,
    frames: u32,
    qpc: Option<u64>,
    next_frames: u32,
    next_qpc: Option<u64>,
)
    requires
        clock_in_range(clock, frames, qpc),
        clock_in_range(clock_after(clock, frames, qpc), next_frames, next_qpc),
    ensures
        buffer_start(clock_after(clock, frames, qpc), next_qpc) == buffer_start(clock, qpc)
            + frames + missing_samples(clock_after(clock, frames, qpc), next_qpc),
        missing_samples(clock_after(clock, frames, qpc), next_qpc) >= 0,
{
}

/// Collects interleaved stereo samples into packets of 20 ms.
#[derive(Debug)]
pub struct Framer<S> {
    pending: Vec<S>,
    next_pts: Option<u64>,
}

/// What a framer holds: samples that do not fill a packet yet, and where they
/// start.
#[verifier::ext_equal]
pub struct Framing<S> {
    /// The samples that do not fill a packet.
    pub pending: Seq<S>,
    /// Where the next packet starts, once anything was taken.
    pub next_pts: Option<u64>,
}

impl<S> View for Framer<S> {
    type V = Framing<S>;

    closed spec fn view(&self) -> Framing<S> {
        Framing { pending: self.pending@, next_pts: self.next_pts }
    }
}

/// The samples of one packet, before they are encoded.
#[derive(Debug, PartialEq, Eq)]
pub struct RawPacket<S> {
    /// Interleaved samples of both channels.
    pub samples: Vec<S>,
    /// When it starts, in samples per channel.
    pub pts_samples: u64,
}

/// What a packet says.
#[verifier::ext_equal]
pub struct Framed<S> {
    /// Interleaved samples of both channels.
    pub samples: Seq<S>,
    /// When it starts.
    pub pts_samples: int,
}

impl<S> View for RawPacket<S> {
    type V = Framed<S>;

    open spec fn view(&self) -> Framed<S> {
        Framed { samples: self.samples@, pts_samples: self.pts_samples as int }
    }
}

/// The packets of a list.
pub open spec fn packets_view<S>(packets: Seq<RawPacket<S>>) -> Seq<Framed<S>> {
    packets.map_values(|p: RawPacket<S>| p@)
}

impl<S> Framing<S> {
    /// Less than a packet is pending, of whole stereo samples, and nothing
    /// before the first buffer.
    pub open spec fn well_formed(self) -> bool {
        &&& self.pending.len() < FRAME_VALUES
        &&& self.pending.len() % 2 == 0
        &&& self.next_pts is None ==> self.pending.len() == 0
        &&& self.next_pts matches Some(start) ==> start + self.pending.len() / 2 <= u64::MAX
    }

    /// Whether a buffer that starts at `pts` follows what is pending, to
    /// within one sample.
    pub open spec fn continues(self, pts: int) -> bool {
        self.next_pts matches Some(start) && -1 <= start + self.pending.len() / 2 - pts <= 1
    }

    /// The samples to cut into packets: what is pending and the new ones, or
    /// the new ones alone after a gap.
    pub open spec fn stream(self, samples: Seq<S>, pts: int) -> Seq<S> {
        if self.continues(pts) {
            self.pending + samples
        } else {
            samples
        }
    }

    /// Where those samples start.
    pub open spec fn base(self, pts: int) -> int {
        if self.continues(pts) {
            self.next_pts->0 as int
        } else {
            pts
        }
    }

    /// The whole packets among those samples, in order.
    pub open spec fn packets(self, samples: Seq<S>, pts: int) -> Seq<Framed<S>> {
        cut(self.stream(samples, pts), self.base(pts))
    }

    /// What is held after a buffer.
    pub open spec fn after(self, samples: Seq<S>, pts: int) -> Framing<S> {
        let stream = self.stream(samples, pts);
        let whole = stream.len() as int / FRAME_VALUES as int;
        Framing {
            pending: stream.subrange(whole * FRAME_VALUES, stream.len() as int),
            next_pts: Some((self.base(pts) + whole * FRAME_SAMPLES) as u64),
        }
    }

    /// The positions that a buffer leads to are 64-bit numbers.
    pub open spec fn in_range(self, samples: Seq<S>, pts: int) -> bool {
        self.base(pts) + self.stream(samples, pts).len() / 2 <= u64::MAX
    }
}

/// A stream of samples cut into packets, the first of which starts at `base`.
pub open spec fn cut<S>(stream: Seq<S>, base: int) -> Seq<Framed<S>> {
    Seq::new(
        (stream.len() as int / FRAME_VALUES as int) as nat,
        |i: int|
            Framed {
                samples: stream.subrange(i * FRAME_VALUES, (i + 1) * FRAME_VALUES),
                pts_samples: base + i * FRAME_SAMPLES,
            },
    )
}

impl<S: Copy> Framer<S> {
    /// A framer that has taken nothing.
    pub fn new() -> (r: Self)
        ensures
            r@ == (Framing::<S> { pending: Seq::empty(), next_pts: None }),
            r@.well_formed(),
    {
        let r = Framer { pending: Vec::new(), next_pts: None };
        assert(r@.pending =~= Seq::empty());
        r
    }

    fn expects(&self, pts: u64) -> (r: bool)
        requires
            self@.well_formed(),
        ensures
            r == self@.continues(pts as int),
    {
        match self.next_pts {
            Some(start) => {
                let expected: u64 = start + (self.pending.len() / 2) as u64;
                if expected >= pts {
                    expected - pts <= 1
                } else {
                    pts - expected <= 1
                }
            },
            None => false,
        }
    }

    /// Whether the positions that a buffer leads to are 64-bit numbers.
    pub fn in_range(&self, samples: &Vec<S>, pts: u64) -> (r: bool)
        requires
            self@.well_formed(),
        ensures
            r == self@.in_range(samples@, pts as int),
    {
        let (base, held): (u64, usize) = if self.expects(pts) {
            (
                match self.next_pts {
                    Some(start) => start,
                    None => pts,
                },
                self.pending.len(),
            )
        } else {
            (pts, 0)
        };
        let total: u128 = held as u128 + samples.len() as u128;
        base as u128 + total / 2 <= u64::MAX as u128
    }

    /// Take a buffer of interleaved stereo samples that starts at `pts`, and
    /// give the packets that are full.
    ///
    /// Keeps incomplete packets across buffers, but never across a gap.
    pub fn push(&mut self, samples: &Vec<S>, pts: u64) -> (r: Result<Vec<RawPacket<S>>, String>)
        requires
            old(self)@.well_formed(),
            old(self)@.in_range(samples@, pts as int),
        ensures
            final(self)@.well_formed(),
            if samples@.len() % 2 != 0 {
                &&& r is Err
                &&& r->Err_0@ == "screen-share audio is not interleaved stereo"@
                &&& final(self)@ == old(self)@
            } else {
                &&& r is Ok
                &&& packets_view(r->Ok_0@) == old(self)@.packets(samples@, pts as int)
                &&& final(self)@ == old(self)@.after(samples@, pts as int)
            },
    {
        if samples.len() % 2 != 0 {
            return Err("screen-share audio is not interleaved stereo".to_owned());
        }
        let ghost start = self@;
        let keep = self.expects(pts);
        let mut stream: Vec<S> = Vec::new();
        let mut base: u64 = pts;
        if keep {
            if let Some(next) = self.next_pts {
                base = next;
            }
            let mut k: usize = 0;
            while k < self.pending.len()
                invariant
                    k <= self.pending.len(),
                    stream@ == self.pending@.subrange(0, k as int),
                decreases self.pending.len() - k,
            {
                stream.push(self.pending[k]);
                k += 1;
            }
            assert(stream@ =~= self.pending@);
        }
        let ghost head = stream@;
        let mut m: usize = 0;
        while m < samples.len()
            invariant
                m <= samples.len(),
                stream@ == head + samples@.subrange(0, m as int),
            decreases samples.len() - m,
        {
            stream.push(samples[m]);
            assert(samples@.subrange(0, m + 1) =~= samples@.subrange(0, m as int).push(
                samples@[m as int],
            ));
            m += 1;
        }
        assert(stream@ =~= start.stream(samples@, pts as int)) by {
            assert(samples@.subrange(0, samples@.len() as int) =~= samples@);
            if !keep {
                assert(head =~= Seq::empty());
            }
        }
        assert(base == start.base(pts as int));
        let total: usize = stream.len();
        let whole: usize = total / FRAME_VALUES;
        let mut packets: Vec<RawPacket<S>> = Vec::new();
        let mut next: u64 = base;
        let mut at: usize = 0;
        let mut i: usize = 0;
        while i < whole
            invariant
                i <= whole,
                total == stream@.len(),
                whole == total / 1920,
                at == i * 1920,
                next == base + i * 960,
                base + stream@.len() / 2 <= u64::MAX,
                packets@.len() == i,
                forall|j: int|
                    0 <= j < i ==> (#[trigger] packets@[j])@ == cut(stream@, base as int)[j],
            decreases whole - i,
        {
            let mut packet: Vec<S> = Vec::new();
            let mut k: usize = 0;
            while k < FRAME_VALUES
                invariant
                    k <= FRAME_VALUES,
                    total == stream@.len(),
                    at + 1920 <= total,
                    packet@ == stream@.subrange(at as int, at + k),
                decreases FRAME_VALUES - k,
            {
                packet.push(stream[at + k]);
                k += 1;
            }
            let raw = RawPacket { samples: packet, pts_samples: next };
            assert(raw@ =~= cut(stream@, base as int)[i as int]);
            packets.push(raw);
            next = next + FRAME_SAMPLES as u64;
            at = at + FRAME_VALUES;
            i += 1;
        }
        assert(packets_view(packets@) =~= cut(stream@, base as int));
        let mut rest: Vec<S> = Vec::new();
        let mut n: usize = at;
        while n < stream.len()
            invariant
                at <= n <= stream@.len(),
                rest@ == stream@.subrange(at as int, n as int),
            decreases stream.len() - n,
        {
            rest.push(stream[n]);
            n += 1;
        }
        self.pending = rest;
        self.next_pts = Some(next);
        Ok(packets)
    }
}

/// Where a buffer is cut does not matter: samples that arrive in two buffers,
/// one right after the other, give the same packets and leave the same rest as
/// in one.
pub proof fn splitting_a_buffer_changes_nothing<S>(f: Framing<S>, a: Seq<S>, b: Seq<S>, pts: int)
    requires
        f.well_formed(),
        a.len() % 2 == 0,
        b.len() % 2 == 0,
        0 <= pts,
        f.in_range(a + b, pts),
    ensures
        ({
            let then = f.base(pts) + f.stream(a, pts).len() as int / 2;
            &&& f.packets(a + b, pts) == f.packets(a, pts) + f.after(a, pts).packets(b, then)
            &&& f.after(a + b, pts) == f.after(a, pts).after(b, then)
        }),
{
    let s = f.stream(a, pts);
    let base = f.base(pts);
    let then = base + s.len() as int / 2;
    let n = s.len() as int / 1920;
    let mid = f.after(a, pts);
    assert(f.stream(a + b, pts) =~= s + b);
    assert(base + (s + b).len() as int / 2 <= u64::MAX);
    assert(mid.next_pts == Some((base + n * 960) as u64));
    assert(mid.pending.len() == s.len() - n * 1920);
    assert(base >= 0);
    assert(mid.next_pts->0 == base + n * 960);
    assert(mid.continues(then));
    assert(mid.stream(b, then) =~= (s + b).subrange(n * 1920, (s + b).len() as int));
    let whole = f.packets(a + b, pts);
    let parts = f.packets(a, pts) + mid.packets(b, then);
    assert forall|i: int| 0 <= i < whole.len() implies whole[i] == parts[i] by {
        if i < n {
            assert(whole[i].samples =~= f.packets(a, pts)[i].samples);
        } else {
            assert(whole[i].samples =~= mid.packets(b, then)[i - n].samples);
        }
    }
    assert(whole =~= parts);
    assert(f.after(a + b, pts).pending =~= mid.after(b, then).pending);
}

/// After a gap the partial packet is discarded and time is kept: packets start
/// where the new buffer does and hold only its samples.
pub proof fn a_gap_discards_partial_audio<S>(f: Framing<S>, samples: Seq<S>, pts: int)
    requires
        !f.continues(pts),
    ensures
        f.packets(samples, pts) == cut(samples, pts),
        samples.len() >= FRAME_VALUES ==> f.packets(samples, pts)[0].pts_samples == pts,
{
}

/// Packets follow one another without a hole: each starts 20 ms after the one
/// before.
pub proof fn packets_are_contiguous<S>(stream: Seq<S>, base: int, i: int)
    requires
        0 <= i,
        i + 1 < cut(stream, base).len(),
    ensures
        cut(stream, base)[i + 1].pts_samples == cut(stream, base)[i].pts_samples + FRAME_SAMPLES,
        cut(stream, base)[i].samples.len() == FRAME_VALUES,
{
}

/// What to capture the audio of.
#[derive(Debug, Clone, Copy, PartialEq, Eq, Structural)]
pub enum AudioTarget {
    /// Everything that the output device plays.
    Device,
    /// What one window's process plays.
    Process {
        /// The window.
        hwnd: u64,
        /// Its process.
        pid: u32,
    },
}

/// A window handle as the platform's pointer-sized number.
pub fn window_handle(hwnd: u64) -> (r: Result<usize, String>)
    ensures
        if hwnd <= usize::MAX {
            r is Ok && r->Ok_0 == hwnd
        } else {
            r is Err && r->Err_0@ == "invalid window handle"@
        },
{
    if hwnd > usize::MAX as u64 {
        Err("invalid window handle".to_owned())
    } else {
        Ok(hwnd as usize)
    }
}

/// The process of a window, from the thread and process that own it; a zero
/// stands for none.
pub fn window_process(thread: u32, pid: u32) -> (r: Result<u32, String>)
    ensures
        if thread == 0 || pid == 0 {
            r is Err && r->Err_0@ == "shared window no longer exists"@
        } else {
            r is Ok && r->Ok_0 == pid
        },
        r is Ok <==> owns_window(thread, pid),
        r is Ok ==> r->Ok_0 == pid,
{
    if thread == 0 || pid == 0 {
        Err("shared window no longer exists".to_owned())
    } else {
        Ok(pid)
    }
}

/// What to capture for a source, given the process of its window.
///
/// A window whose process is unknown is an error: it never falls back to the
/// whole device.
pub fn audio_target(source: CaptureSource, process: Result<u32, String>) -> (r: Result<
    AudioTarget,
    String,
>)
    ensures
        match source {
            CaptureSource::Monitor { .. } => r == Ok::<AudioTarget, String>(AudioTarget::Device),
            CaptureSource::Window { hwnd } => match process {
                Ok(pid) => r == Ok::<AudioTarget, String>(AudioTarget::Process { hwnd, pid }),
                Err(e) => r == Err::<AudioTarget, String>(e),
            },
        },
        captured_audio(
            source,
            match process {
                Ok(pid) => Some(pid),
                Err(_) => None,
            },
        ) == match r {
            Ok(target) => Some(target),
            Err(_) => None,
        },
{
    match source {
        CaptureSource::Monitor { .. } => Ok(AudioTarget::Device),
        CaptureSource::Window { hwnd } => match process {
            Ok(pid) => Ok(AudioTarget::Process { hwnd, pid }),
            Err(e) => Err(e),
        },
    }
}

/// Check that a window still belongs to the process whose audio is captured.
pub fn validate_source(target: AudioTarget, process: Result<u32, String>) -> (r: Result<
    (),
    String,
>)
    ensures
        match target {
            AudioTarget::Device => r is Ok,
            AudioTarget::Process { pid, .. } => match process {
                Err(e) => r == Err::<(), String>(e),
                Ok(now) => if now == pid {
                    r is Ok
                } else {
                    r is Err && r->Err_0@ == "shared window process changed"@
                },
            },
        },
        outcome_is(r, source_error(target, process)),
{
    match target {
        AudioTarget::Device => Ok(()),
        AudioTarget::Process { pid, .. } => match process {
            Err(e) => Err(e),
            Ok(now) => {
                if now == pid {
                    Ok(())
                } else {
                    Err("shared window process changed".to_owned())
                }
            },
        },
    }
}

/// What a device said of a buffer that it handed over.
#[derive(Debug, Clone, Copy, PartialEq, Eq, Structural)]
pub struct BufferFacts {
    /// Its length in samples per channel.
    pub frames: u32,
    /// Whether it is to be taken as silence.
    pub silent: bool,
    /// Whether its time is not to be trusted.
    pub timestamp_error: bool,
    /// Whether there are bytes behind it.
    pub has_data: bool,
    /// When it was captured, in units of 100 ns; 0 stands for unknown.
    pub qpc: u64,
}

/// What to take from a buffer.
#[derive(Debug, Clone, Copy, PartialEq, Eq, Structural)]
pub struct ReadPlan {
    /// How many interleaved values there are.
    pub count: usize,
    /// Whether they are copied from the buffer, rather than silence.
    pub copy: bool,
    /// When the buffer was captured, where known.
    pub timestamp: Option<u64>,
}

/// Decide what to take from a buffer.
pub fn read_plan(b: BufferFacts) -> (r: Result<ReadPlan, String>)
    ensures
        if b.frames > MAX_BUFFER_FRAMES {
            r is Err && r->Err_0@ == "unexpectedly large WASAPI audio buffer"@
        } else if !b.silent && b.frames > 0 && !b.has_data {
            r is Err && r->Err_0@ == "WASAPI returned an empty audio buffer"@
        } else {
            r is Ok && r->Ok_0 == (ReadPlan {
                count: (b.frames * 2) as usize,
                copy: !b.silent && b.frames > 0,
                timestamp: if !b.timestamp_error && b.qpc != 0 {
                    Some(b.qpc)
                } else {
                    None
                },
            })
        },
        r is Ok ==> r->Ok_0 == taken_from(b),
{
    if b.frames > MAX_BUFFER_FRAMES {
        return Err("unexpectedly large WASAPI audio buffer".to_owned());
    }
    let copy = !b.silent && b.frames > 0;
    if copy && !b.has_data {
        return Err("WASAPI returned an empty audio buffer".to_owned());
    }
    let timestamp = if !b.timestamp_error && b.qpc != 0 { Some(b.qpc) } else { None };
    Ok(ReadPlan { count: b.frames as usize * 2, copy, timestamp })
}

/// Why audio capture has stopped, where it has: the error it recorded, or that
/// its thread is gone.
pub fn capture_error(recorded: Option<String>, thread_finished: bool) -> (r: Option<String>)
    ensures
        match recorded {
            Some(e) => r == Some(e),
            None => if thread_finished {
                r is Some && r->0@ == "screen-share audio thread stopped"@
            } else {
                r is None
            },
        },
{
    match recorded {
        Some(e) => Some(e),
        None => {
            if thread_finished {
                Some("screen-share audio thread stopped".to_owned())
            } else {
                None
            }
        },
    }
}

/// Time is kept across any gap.  A buffer that comes more than 2 ms after the
/// expected time starts as many samples after the end of the one before as fit
/// into the time between; any other starts right at that end.
pub proof fn time_is_kept_across_gaps(clock: CaptureClock, at: u64, expected: u64)
    requires
        clock.next_qpc == Some(expected),
    ensures
        ({
            let n = buffer_start(clock, Some(at)) - clock.next_samples;
            &&& at - expected > 20_000 && (at - expected) * 48_000 <= u64::MAX ==> n * 10_000_000
                <= (at - expected) * 48_000 < (n + 1) * 10_000_000
            &&& at - expected <= 20_000 ==> n == 0
        }),
        buffer_start(clock, None) == clock.next_samples,
        buffer_start(CaptureClock { next_qpc: None, ..clock }, Some(at)) == clock.next_samples,
{
}

/// After a buffer the clock stands right behind its last sample, and expects
/// the next one when this one has been played: to within 100 ns, a second after
/// every 48000 samples.
pub proof fn the_next_buffer_is_expected_when_this_one_ends(
    clock: CaptureClock,
    frames: u32,
    at: u64,
)
    requires
        clock_in_range(clock, frames, Some(at)),
    ensures
        ({
            let after = clock_after(clock, frames, Some(at));
            &&& after.next_samples == buffer_start(clock, Some(at)) + frames
            &&& after.next_qpc is Some
            &&& (after.next_qpc->0 - at) * 48_000 <= frames * 10_000_000
            &&& frames * 10_000_000 < (after.next_qpc->0 - at + 1) * 48_000
        }),
        clock_in_range(clock, frames, None) ==> clock_after(clock, frames, None).next_qpc is None
            && clock_after(clock, frames, None).next_samples == clock.next_samples + frames,
{
}

/// Whether a buffer follows what is pending: it starts where that ends, give or
/// take one sample.
pub proof fn a_buffer_follows_where_the_pending_samples_end<S>(
    f: Framing<S>,
    start: u64,
    pts: int,
)
    ensures
        f.next_pts is None ==> !f.continues(pts),
        f.next_pts == Some(start) ==> (f.continues(pts) <==> {
            ||| start + f.pending.len() / 2 == pts
            ||| start + f.pending.len() / 2 == pts + 1
            ||| start + f.pending.len() / 2 == pts - 1
        }),
{
}

/// No sample is lost, doubled or moved: the packets and what stays pending
/// hold, one after the other, what was pending and what has come; packets hold
/// 20 ms, and the first starts where the pending samples did.
pub proof fn every_sample_is_kept_in_order<S>(f: Framing<S>, samples: Seq<S>, pts: int, k: int)
    requires
        f.well_formed(),
        f.continues(pts),
        f.in_range(samples, pts),
        0 <= k < f.pending.len() + samples.len(),
    ensures
        ({
            let sample = if k < f.pending.len() {
                f.pending[k]
            } else {
                samples[k - f.pending.len()]
            };
            let packets = f.packets(samples, pts);
            let rest = f.after(samples, pts);
            &&& packets.len() * 1920 + rest.pending.len() == f.pending.len() + samples.len()
            &&& rest.pending.len() < 1920
            &&& k < packets.len() * 1920 ==> packets[k / 1920].samples.len() == 1920
                && packets[k / 1920].samples[k % 1920] == sample
                && packets[k / 1920].pts_samples == f.next_pts->0 + k / 1920 * 960
            &&& k >= packets.len() * 1920 ==> rest.pending[k - packets.len() * 1920] == sample
            &&& rest.next_pts == Some((f.next_pts->0 + packets.len() * 960) as u64)
        }),
{
}

/// After a gap, and at the very beginning, only the new samples count, from
/// where they start.
pub proof fn after_a_gap_only_the_new_samples_count<S>(
    f: Framing<S>,
    samples: Seq<S>,
    pts: int,
    k: int,
)
    requires
        !f.continues(pts),
        f.in_range(samples, pts),
        0 <= pts,
        0 <= k < samples.len(),
    ensures
        ({
            let packets = f.packets(samples, pts);
            let rest = f.after(samples, pts);
            &&& packets.len() * 1920 + rest.pending.len() == samples.len()
            &&& rest.pending.len() < 1920
            &&& k < packets.len() * 1920 ==> packets[k / 1920].samples[k % 1920] == samples[k]
                && packets[k / 1920].pts_samples == pts + k / 1920 * 960
            &&& k >= packets.len() * 1920 ==> rest.pending[k - packets.len() * 1920] == samples[k]
            &&& rest.next_pts == Some((pts + packets.len() * 960) as u64)
        }),
{
}

/// What to capture for a source: for a monitor what the device plays, for a
/// window what its process plays, and nothing where that process is not known.
pub open spec fn captured_audio(source: CaptureSource, process: Option<u32>) -> Option<AudioTarget> {
    match source {
        CaptureSource::Monitor { .. } => Some(AudioTarget::Device),
        CaptureSource::Window { hwnd } => match process {
            Some(pid) => Some(AudioTarget::Process { hwnd, pid }),
            None => None,
        },
    }
}

/// Sharing a window never shares what other programs play: nothing but the
/// audio of that window's own process is captured, or nothing at all.
pub proof fn a_window_never_shares_other_audio(source: CaptureSource, process: Option<u32>)
    ensures
        source is Window ==> captured_audio(source, process) != Some(AudioTarget::Device),
        source is Window && process is Some ==> captured_audio(source, process) == Some(
            AudioTarget::Process { hwnd: source->hwnd, pid: process->0 },
        ),
        source is Window && process is None ==> captured_audio(source, process) is None,
        source is Monitor ==> captured_audio(source, process) == Some(AudioTarget::Device),
{
}

/// What is taken from a buffer that can be taken.
pub open spec fn taken_from(b: BufferFacts) -> ReadPlan {
    ReadPlan {
        count: (b.frames * 2) as usize,
        copy: !b.silent && b.frames > 0,
        timestamp: if !b.timestamp_error && b.qpc != 0 {
            Some(b.qpc)
        } else {
            None
        },
    }
}

/// A buffer gives two values per sample, those that it holds unless it stands
/// for silence; and its time counts only where it is known and not in doubt.
pub proof fn a_buffer_gives_both_channels(b: BufferFacts)
    requires
        b.frames <= 48_000,
    ensures
        taken_from(b).count == b.frames + b.frames,
        b.silent ==> !taken_from(b).copy,
        !b.silent && b.frames > 0 ==> taken_from(b).copy,
        b.timestamp_error || b.qpc == 0 ==> taken_from(b).timestamp is None,
        !b.timestamp_error && b.qpc != 0 ==> taken_from(b).timestamp == Some(b.qpc),
{
}

/// Whether a process of this number owns a window, by one of its threads.
pub open spec fn owns_window(thread: u32, pid: u32) -> bool {
    thread != 0 && pid != 0
}

/// Why audio can no longer be captured, where it cannot, given the process that
/// owns the window now.
pub open spec fn source_error(target: AudioTarget, process: Result<u32, String>) -> Option<
    Seq<char>,
> {
    match target {
        AudioTarget::Device => None,
        AudioTarget::Process { pid, .. } => match process {
            Err(e) => Some(e@),
            Ok(now) => if now == pid {
                None
            } else {
                Some("shared window process changed"@)
            },
        },
    }
}

/// The audio of a window is shared only while just the process that owned it
/// does; that of the device is whatever becomes of any window.
pub proof fn audio_ends_with_its_process(
    target: AudioTarget,
    now: u32,
    e: String,
    process: Result<u32, String>,
    thread: u32,
    pid: u32,
)
    ensures
        target is Device ==> source_error(target, process) is None,
        target is Process ==> {
            &&& source_error(target, Err(e)) == Some(e@)
            &&& now == target->pid ==> source_error(target, Ok(now)) is None
            &&& now != target->pid ==> source_error(target, Ok(now)) == Some(
                "shared window process changed"@,
            )
        },
        !owns_window(0, pid) && !owns_window(thread, 0),
        thread > 0 && pid > 0 ==> owns_window(thread, pid),
{
}

} // verus!
