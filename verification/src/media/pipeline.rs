//! The capture-and-encode pipeline: configuration, statistics and the state
//! that its two threads share.
//!
//! The threads are connected by a one-slot mailbox rather than a queue:
//!
//! - the capture thread pulls frames from the filter graph and drops each one
//!   into the slot, replacing whatever was there, so a slow encoder falls
//!   behind by dropping stale frames rather than by building a backlog;
//! - the encode thread waits for a fresh frame, but not much longer than one
//!   frame interval.  When the wait times out it re-sends the previous frame,
//!   because a receiver that gets no packets cannot tell a still picture from
//!   a broken stream.

use vstd::prelude::*;

use crate::collections::{first_from, first_where, first_where_is_first};

use super::capture::{
    chain, plan, steps_view, supported, CaptureSource, ChainRequest, EncoderInput, FilterStep,
};
use super::display::{displays_view, find, named_display, Display, DisplayInfo};
use super::settings::{
    encoding_of, settings_error, OutputSize, Resolution, ResolvedEncoding, ScreenShareSettings,
};
use crate::text::decimal_text;

verus! {

/// Everything the pipeline needs to start.
///
/// The settings are the unresolved ones on purpose: resolving them needs the
/// capture source's real size, which for a window is only known once a graph
/// has been configured.
#[derive(Debug)]
pub struct PipelineConfig {
    /// What to capture.
    pub source: CaptureSource,
    /// The user's encoding settings, including the capture backend.
    pub settings: ScreenShareSettings,
    /// The encoder to open.
    pub encoder_id: String,
    /// The input path that the encoder's probe successfully used.
    pub encoder_input: EncoderInput,
    /// Whether to composite the mouse cursor into the frames.
    pub draw_cursor: bool,
}

/// Why the pipeline stopped.
#[derive(Debug, PartialEq, Eq)]
pub enum StopReason {
    /// It was asked to.
    Requested,
    /// The capture source went away: the window was closed, or the display was
    /// detached.
    SourceEnded,
    /// Capture or encoding failed.
    Failed {
        /// What went wrong.
        message: String,
    },
}

impl Clone for StopReason {
    fn clone(&self) -> (r: Self)
        ensures
            r == *self,
    {
        match self {
            StopReason::Requested => StopReason::Requested,
            StopReason::SourceEnded => StopReason::SourceEnded,
            StopReason::Failed { message } => StopReason::Failed { message: message.clone() },
        }
    }
}

/// Counters that are read while a broadcast runs.  They wrap around.
#[derive(Debug, Clone, Copy, PartialEq, Eq, Structural)]
pub struct Stats {
    /// Frames the capture graph produced.
    pub captured: u64,
    /// Frames handed to the encoder, including repeats.
    pub encoded: u64,
    /// Frames sent again because no new one arrived in time.
    pub repeated: u64,
    /// Captured frames replaced in the slot before the encoder took them.
    pub dropped: u64,
    /// Encoded packets emitted.
    pub packets: u64,
    /// Total encoded bytes.
    pub bytes: u64,
    /// Key frames emitted.
    pub key_frames: u64,
    /// Total time spent inside the encoder, in microseconds.
    pub encode_micros: u64,
}

impl Default for Stats {
    fn default() -> (r: Self)
        ensures
            r == no_stats(),
    {
        Stats {
            captured: 0,
            encoded: 0,
            repeated: 0,
            dropped: 0,
            packets: 0,
            bytes: 0,
            key_frames: 0,
            encode_micros: 0,
        }
    }
}

/// Counters that have counted nothing.
pub open spec fn no_stats() -> Stats {
    Stats {
        captured: 0,
        encoded: 0,
        repeated: 0,
        dropped: 0,
        packets: 0,
        bytes: 0,
        key_frames: 0,
        encode_micros: 0,
    }
}

/// One more, where something happened.
pub open spec fn counted(n: u64, happened: bool) -> u64 {
    if happened {
        n.wrapping_add(1)
    } else {
        n
    }
}

/// The counters after an emitted packet.
pub open spec fn with_packet(s: Stats, bytes: u64, is_key: bool) -> Stats {
    Stats {
        packets: counted(s.packets, true),
        bytes: s.bytes.wrapping_add(bytes),
        key_frames: counted(s.key_frames, is_key),
        ..s
    }
}

/// The counters after a captured frame.
pub open spec fn with_captured(s: Stats, displaced: bool) -> Stats {
    Stats { captured: counted(s.captured, true), dropped: counted(s.dropped, displaced), ..s }
}

/// The counters after a frame was handed to the encoder.
pub open spec fn with_encoded(s: Stats, repeated: bool, micros: u64) -> Stats {
    Stats {
        encoded: counted(s.encoded, true),
        encode_micros: s.encode_micros.wrapping_add(micros),
        repeated: counted(s.repeated, repeated),
        ..s
    }
}

impl Stats {
    /// Record a captured frame, and whether it displaced an unencoded one.
    pub fn note_captured(&mut self, displaced: bool)
        ensures
            *final(self) == with_captured(*old(self), displaced),
    {
        self.captured = self.captured.wrapping_add(1);
        if displaced {
            self.dropped = self.dropped.wrapping_add(1);
        }
    }

    /// Record a frame handed to the encoder.
    pub fn note_encoded(&mut self, repeated: bool, micros: u64)
        ensures
            *final(self) == with_encoded(*old(self), repeated, micros),
    {
        self.encoded = self.encoded.wrapping_add(1);
        self.encode_micros = self.encode_micros.wrapping_add(micros);
        if repeated {
            self.repeated = self.repeated.wrapping_add(1);
        }
    }

    /// Record an emitted packet.
    pub fn note_packet(&mut self, bytes: usize, is_key: bool)
        ensures
            *final(self) == with_packet(*old(self), bytes as u64, is_key),
    {
        self.packets = self.packets.wrapping_add(1);
        self.bytes = self.bytes.wrapping_add(bytes as u64);
        if is_key {
            self.key_frames = self.key_frames.wrapping_add(1);
        }
    }

    /// Read every counter.
    pub fn snapshot(&self) -> (r: StatsSnapshot)
        ensures
            r == reading(*self),
    {
        StatsSnapshot {
            captured: self.captured,
            encoded: self.encoded,
            repeated: self.repeated,
            dropped: self.dropped,
            packets: self.packets,
            bytes: self.bytes,
            key_frames: self.key_frames,
            mean_encode_micros: if self.encoded == 0 {
                0
            } else {
                self.encode_micros / self.encoded
            },
        }
    }
}

/// A point-in-time reading of [`Stats`].
#[derive(Debug, Clone, Copy, PartialEq, Eq, Structural)]
pub struct StatsSnapshot {
    /// Frames the capture graph produced.
    pub captured: u64,
    /// Frames handed to the encoder, including repeats.
    pub encoded: u64,
    /// Frames re-sent because the source produced nothing in time.
    pub repeated: u64,
    /// Captured frames dropped because the encoder was still busy.
    pub dropped: u64,
    /// Encoded packets emitted.
    pub packets: u64,
    /// Total encoded bytes.
    pub bytes: u64,
    /// Key frames emitted.
    pub key_frames: u64,
    /// Mean time spent inside the encoder per frame, in microseconds.
    pub mean_encode_micros: u64,
}

/// The reading of counters.
pub open spec fn reading(s: Stats) -> StatsSnapshot {
    StatsSnapshot {
        captured: s.captured,
        encoded: s.encoded,
        repeated: s.repeated,
        dropped: s.dropped,
        packets: s.packets,
        bytes: s.bytes,
        key_frames: s.key_frames,
        mean_encode_micros: if s.encoded == 0 {
            0
        } else {
            s.encode_micros / s.encoded
        },
    }
}

/// Something that the counters take note of.
pub enum Note {
    /// A captured frame, and whether it displaced another.
    Captured {
        /// Whether it did.
        displaced: bool,
    },
    /// A frame handed to the encoder.
    Encoded {
        /// Whether it was sent again.
        repeated: bool,
        /// How long that took.
        micros: u64,
    },
    /// An emitted packet.
    Packet {
        /// Its size.
        bytes: u64,
        /// Whether it is a key frame.
        is_key: bool,
    },
}

/// The counters after one note.
pub open spec fn with_note(s: Stats, note: Note) -> Stats {
    match note {
        Note::Captured { displaced } => with_captured(s, displaced),
        Note::Encoded { repeated, micros } => with_encoded(s, repeated, micros),
        Note::Packet { bytes, is_key } => with_packet(s, bytes, is_key),
    }
}

/// The counters after these notes, in this order.
pub open spec fn after_notes(notes: Seq<Note>) -> Stats
    decreases notes.len(),
{
    if notes.len() == 0 {
        no_stats()
    } else {
        with_note(after_notes(notes.drop_last()), notes.last())
    }
}

/// How much these notes come to, where each counts for this much.
pub open spec fn total(notes: Seq<Note>, weight: spec_fn(Note) -> nat) -> nat
    decreases notes.len(),
{
    if notes.len() == 0 {
        0
    } else {
        total(notes.drop_last(), weight) + weight(notes.last())
    }
}

/// How many of these notes are of a kind.
pub open spec fn how_many(notes: Seq<Note>, kind: spec_fn(Note) -> bool) -> nat {
    total(
        notes,
        |note: Note|
            if kind(note) {
                1nat
            } else {
                0nat
            },
    )
}

/// The microseconds of a note.
pub open spec fn micros_of(note: Note) -> nat {
    match note {
        Note::Encoded { micros, .. } => micros as nat,
        _ => 0,
    }
}

/// The bytes of a note.
pub open spec fn bytes_of(note: Note) -> nat {
    match note {
        Note::Packet { bytes, .. } => bytes as nat,
        _ => 0,
    }
}

/// The counters count these notes: each what it is there for.
pub open spec fn counts(s: Stats, notes: Seq<Note>) -> bool {
    &&& s.captured == how_many(notes, |note: Note| note is Captured)
    &&& s.dropped == how_many(notes, |note: Note| note == Note::Captured { displaced: true })
    &&& s.encoded == how_many(notes, |note: Note| note is Encoded)
    &&& s.repeated == how_many(notes, |note: Note| note is Encoded && note->repeated)
    &&& s.packets == how_many(notes, |note: Note| note is Packet)
    &&& s.key_frames == how_many(notes, |note: Note| note is Packet && note->is_key)
    &&& s.bytes == total(notes, |note: Note| bytes_of(note))
    &&& s.encode_micros == total(notes, |note: Note| micros_of(note))
}

proof fn lemma_at_most(notes: Seq<Note>, kind: spec_fn(Note) -> bool)
    ensures
        how_many(notes, kind) <= notes.len(),
    decreases notes.len(),
{
    if notes.len() > 0 {
        lemma_at_most(notes.drop_last(), kind);
    }
}

proof fn lemma_fewer(
    notes: Seq<Note>,
    narrow: spec_fn(Note) -> bool,
    wide: spec_fn(Note) -> bool,
)
    requires
        forall|note: Note| #[trigger] narrow(note) ==> wide(note),
    ensures
        how_many(notes, narrow) <= how_many(notes, wide),
    decreases notes.len(),
{
    if notes.len() > 0 {
        lemma_fewer(notes.drop_last(), narrow, wide);
    }
}

/// Over any sequence of notes whose sums fit, each counter counts what it is
/// there for; no more frames are dropped than captured or repeated than
/// encoded, and no more packets are key frames than there are; and the mean is
/// that of the time spent per encoded frame.
pub proof fn statistics_count_what_happened(notes: Seq<Note>)
    requires
        notes.len() <= u64::MAX,
        total(notes, |note: Note| bytes_of(note)) <= u64::MAX,
        total(notes, |note: Note| micros_of(note)) <= u64::MAX,
    ensures
        counts(after_notes(notes), notes),
        reading(after_notes(notes)).dropped <= reading(after_notes(notes)).captured,
        reading(after_notes(notes)).repeated <= reading(after_notes(notes)).encoded,
        reading(after_notes(notes)).key_frames <= reading(after_notes(notes)).packets,
        reading(after_notes(notes)).mean_encode_micros == if how_many(
            notes,
            |note: Note| note is Encoded,
        ) == 0 {
            0
        } else {
            total(notes, |note: Note| micros_of(note)) as int / how_many(
                notes,
                |note: Note| note is Encoded,
            ) as int
        },
    decreases notes.len(),
{
    if notes.len() > 0 {
        let before = notes.drop_last();
        statistics_count_what_happened(before);
        lemma_at_most(before, |note: Note| note is Captured);
        lemma_at_most(before, |note: Note| note == Note::Captured { displaced: true });
        lemma_at_most(before, |note: Note| note is Encoded);
        lemma_at_most(before, |note: Note| note is Encoded && note->repeated);
        lemma_at_most(before, |note: Note| note is Packet);
        lemma_at_most(before, |note: Note| note is Packet && note->is_key);
        assert(counts(after_notes(notes), notes));
    }
    lemma_fewer(
        notes,
        |note: Note| note == Note::Captured { displaced: true },
        |note: Note| note is Captured,
    );
    lemma_fewer(
        notes,
        |note: Note| note is Encoded && note->repeated,
        |note: Note| note is Encoded,
    );
    lemma_fewer(
        notes,
        |note: Note| note is Packet && note->is_key,
        |note: Note| note is Packet,
    );
}

/// State shared by the pipeline's threads.
#[derive(Debug, PartialEq, Eq)]
pub struct Shared {
    /// Set to ask both threads to finish.
    pub stop: bool,
    /// Set to force the next frame to be coded as a key frame.
    pub key_frame_wanted: bool,
    /// Why the pipeline stopped, once it has.  The first reason is kept.
    pub reason: Option<StopReason>,
    /// Live counters.
    pub stats: Stats,
}

impl Default for Shared {
    fn default() -> (r: Self)
        ensures
            !r.stop,
            !r.key_frame_wanted,
            r.reason is None,
            r.stats == no_stats(),
    {
        Shared { stop: false, key_frame_wanted: false, reason: None, stats: Stats::default() }
    }
}

/// The shared state after a reason for stopping was given.
pub open spec fn finished(s: Shared, reason: StopReason) -> Shared {
    Shared {
        stop: true,
        reason: if s.reason is None {
            Some(reason)
        } else {
            s.reason
        },
        ..s
    }
}

impl Shared {
    /// Whether the threads have been asked to stop.
    pub fn should_stop(&self) -> (r: bool)
        ensures
            r == self.stop,
    {
        self.stop
    }

    /// Ask the threads to stop.
    pub fn request_stop(&mut self)
        ensures
            *final(self) == (Shared { stop: true, ..*old(self) }),
    {
        self.stop = true;
    }

    /// Record why the pipeline is stopping, and ask it to stop.
    ///
    /// Only the first reason is kept: a source that ends causes a shutdown, and
    /// the shutdown must not relabel it as merely requested.
    pub fn finish(&mut self, reason: StopReason)
        ensures
            *final(self) == finished(*old(self), reason),
    {
        if self.reason.is_none() {
            self.reason = Some(reason);
        }
        self.stop = true;
    }

    /// The recorded stop reason, if the pipeline has stopped.
    pub fn stop_reason(&self) -> (r: Option<StopReason>)
        ensures
            r == self.reason,
    {
        match &self.reason {
            Some(reason) => Some(reason.clone()),
            None => None,
        }
    }

    /// Ask for a key frame on the next encoded frame.
    pub fn request_key_frame(&mut self)
        ensures
            *final(self) == (Shared { key_frame_wanted: true, ..*old(self) }),
            *final(self) == wished(*old(self)),
    {
        self.key_frame_wanted = true;
    }

    /// Consume a pending key-frame request, if any.
    pub fn take_key_frame_request(&mut self) -> (r: bool)
        ensures
            r == old(self).key_frame_wanted,
            *final(self) == (Shared { key_frame_wanted: false, ..*old(self) }),
            (r, *final(self)) == granted(*old(self)),
    {
        let wanted = self.key_frame_wanted;
        self.key_frame_wanted = false;
        wanted
    }

    /// Stop the pipeline and report why it ended.
    pub fn shutdown(&mut self) -> (r: StopReason)
        ensures
            *final(self) == finished(*old(self), StopReason::Requested),
            r == finished(*old(self), StopReason::Requested).reason->0,
    {
        self.finish(StopReason::Requested);
        match self.stop_reason() {
            Some(reason) => reason,
            None => StopReason::Requested,
        }
    }
}

/// The first reason for stopping is the one that is kept, whatever is given
/// later; in particular a failure is not relabelled by the shutdown after it.
pub proof fn the_first_stop_reason_wins(s: Shared, first: StopReason, second: StopReason)
    requires
        s.reason is None,
    ensures
        finished(finished(s, first), second).reason == Some(first),
        finished(finished(s, first), second) == finished(s, first),
{
}

/// Where a capture source is, and how big: the adapter that drives it and its
/// size.
///
/// A monitor is looked up.  A window has no adapter of its own and its size is
/// measured later; it takes the primary display's, or the first one's.
pub open spec fn located(source: CaptureSource, displays: Seq<Display>) -> Option<int> {
    match source {
        CaptureSource::Monitor { output_index, hmonitor } => named_display(
            displays,
            output_index,
            hmonitor,
        ),
        CaptureSource::Window { .. } => {
            let primary = first_where(displays, |d: Display| d.is_primary);
            if primary is Some {
                primary
            } else if displays.len() > 0 {
                Some(0)
            } else {
                None
            }
        },
    }
}

/// What is said where a source cannot be located.
pub open spec fn locate_error(source: CaptureSource) -> Seq<char> {
    match source {
        CaptureSource::Monitor { output_index, .. } => "no display with output index "@
            + decimal_text(output_index as nat),
        CaptureSource::Window { .. } => "no display found"@,
    }
}

/// Find the adapter that drives a capture source, and the source's size.
///
/// The adapter matters: `ddagrab` resolves its output index against the adapter
/// of the device it is handed.
pub fn locate(source: CaptureSource, displays: &Vec<DisplayInfo>) -> (r: Result<
    (u32, OutputSize),
    String,
>)
    ensures
        match located(source, displays_view(displays@)) {
            Some(i) => r is Ok && r->Ok_0 == (
                displays@[i].adapter_index,
                displays@[i].size,
            ),
            None => r is Err && r->Err_0@ == locate_error(source),
        },
{
    match source {
        CaptureSource::Monitor { .. } => {
            match find(source, displays) {
                Ok(selected) => Ok((selected.adapter_index, selected.size)),
                Err(e) => Err(e),
            }
        },
        CaptureSource::Window { .. } => {
            let ghost all = displays_view(displays@);
            let ghost primary = |d: Display| d.is_primary;
            let mut i: usize = 0;
            while i < displays.len()
                invariant
                    i <= displays.len(),
                    all == displays_view(displays@),
                    primary == (|d: Display| d.is_primary),
                    first_where(all, primary) == first_from(all, primary, i as int),
                    source is Window,
                decreases displays.len() - i,
            {
                assert(all[i as int] == displays@[i as int]@);
                if displays[i].is_primary {
                    return Ok((displays[i].adapter_index, displays[i].size));
                }
                i += 1;
            }
            assert(first_where(all, primary) is None);
            if displays.len() > 0 {
                assert(all.len() > 0);
                Ok((displays[0].adapter_index, displays[0].size))
            } else {
                assert(all.len() == 0);
                Err("no display found".to_owned())
            }
        },
    }
}

/// Whether the source's size has to be measured with a throwaway graph.
///
/// Only a window's, and only when the answer can change the outcome: at native
/// resolution the chain has no scaling stage either way.
pub open spec fn measuring_needed(config: PipelineConfig) -> bool {
    config.source is Window && config.settings.resolution != Resolution::Native
}

/// Whether the source's size has to be measured.
pub fn needs_measuring(config: &PipelineConfig) -> (r: bool)
    ensures
        r == measuring_needed(*config),
{
    match config.source {
        CaptureSource::Monitor { .. } => false,
        CaptureSource::Window { .. } => {
            match config.settings.resolution {
                Resolution::Native => false,
                _ => true,
            }
        },
    }
}

/// The size the capture source will actually produce: what was measured, and
/// what is known where nothing was or the measurement failed.
pub fn resolve_source_size(
    config: &PipelineConfig,
    known: OutputSize,
    measured: Option<OutputSize>,
) -> (r: OutputSize)
    ensures
        r == if measuring_needed(*config) && measured is Some {
            measured->0
        } else {
            known
        },
        r == size_to_plan_for(*config, known, measured),
{
    if !needs_measuring(config) {
        return known;
    }
    match measured {
        Some(size) => size,
        None => known,
    }
}

/// What has to be built for a configuration once the source's size is known.
#[derive(Debug)]
pub struct Assembly {
    /// The encoding that was asked for.
    pub requested: ResolvedEncoding,
    /// The filter chain, source first.
    pub steps: Vec<FilterStep>,
    /// Whether a second device is needed, as an upload target.
    pub needs_d3d12: bool,
}

/// The chain that a configuration asks for.
pub open spec fn requested_chain(
    config: PipelineConfig,
    source_size: OutputSize,
) -> ChainRequest {
    let requested = encoding_of(config.settings, source_size);
    ChainRequest {
        source: config.source,
        backend: config.settings.capture,
        source_size,
        target_size: requested.size,
        fps: requested.fps,
        input: config.encoder_input,
        draw_cursor: config.draw_cursor,
    }
}

/// What is said of a source that its backend cannot capture.
pub open spec fn unsupported_source() -> Seq<char> {
    "capturing a single window needs the gfxcapture backend; ddagrab can only capture a whole display"@
}

/// Resolve the settings and plan the chain.
pub fn assemble(config: &PipelineConfig, source_size: OutputSize) -> (r: Result<Assembly, String>)
    ensures
        match settings_error(config.settings) {
            Some(text) => r is Err && r->Err_0@ == text,
            None => if !supported(config.source, config.settings.capture) {
                r is Err && r->Err_0@ == unsupported_source()
            } else {
                &&& r is Ok
                &&& r->Ok_0.requested == encoding_of(config.settings, source_size)
                &&& steps_view(r->Ok_0.steps@) == chain(requested_chain(*config, source_size))
                &&& r->Ok_0.needs_d3d12 == (config.encoder_input == EncoderInput::HardwareD3d12)
            },
        },
{
    let requested = match config.settings.resolve(source_size) {
        Ok(requested) => requested,
        Err(e) => {
            return Err(e);
        },
    };
    let request = ChainRequest {
        source: config.source,
        backend: config.settings.capture,
        source_size,
        target_size: requested.size,
        fps: requested.fps,
        input: config.encoder_input,
        draw_cursor: config.draw_cursor,
    };
    match plan(&request) {
        Err(e) => Err(e),
        Ok(steps) => Ok(
            Assembly {
                requested,
                steps,
                needs_d3d12: config.encoder_input == EncoderInput::HardwareD3d12,
            },
        ),
    }
}

/// What the encoder has to be opened with.
///
/// The frames win: an encoder smaller than its input crops rather than scales,
/// so it is opened for the size that the graph actually produces.
pub fn opened_encoding(requested: ResolvedEncoding, actual_size: OutputSize) -> (r: (
    ResolvedEncoding,
    i64,
))
    ensures
        r.0 == (ResolvedEncoding { size: actual_size, ..requested }),
        r.1 == requested.bitrate_kbps * 1000,
        (r.0, r.1 as int) == opened_for_frames(requested, actual_size),
{
    let encoding = ResolvedEncoding {
        size: actual_size,
        fps: requested.fps,
        bitrate_kbps: requested.bitrate_kbps,
    };
    (encoding, requested.bitrate_kbps as i64 * 1000)
}

/// The size that the source will produce.
pub open spec fn size_to_plan_for(
    config: PipelineConfig,
    known: OutputSize,
    measured: Option<OutputSize>,
) -> OutputSize {
    if measuring_needed(config) && measured is Some {
        measured->0
    } else {
        known
    }
}

/// A window that is to be scaled is planned for at the size that was measured,
/// and at the known one only where that failed; everything else is planned for
/// at the size that is known.
pub proof fn a_scaled_window_is_measured(
    config: PipelineConfig,
    known: OutputSize,
    measured: Option<OutputSize>,
)
    ensures
        config.source is Monitor ==> !measuring_needed(config) && size_to_plan_for(
            config,
            known,
            measured,
        ) == known,
        config.settings.resolution == Resolution::Native ==> !measuring_needed(config)
            && size_to_plan_for(config, known, measured) == known,
        config.source is Window && config.settings.resolution != Resolution::Native ==> {
            &&& measuring_needed(config)
            &&& measured is Some ==> size_to_plan_for(config, known, measured) == measured->0
            &&& measured is None ==> size_to_plan_for(config, known, measured) == known
        },
{
}

/// The chain that is built captures what the user picked, with the backend, the
/// cursor and the frame rate of the settings, scales from the source's size to
/// the resolved one, and ends on the path on which the encoder worked.
pub proof fn the_chain_is_what_the_configuration_asks_for(
    config: PipelineConfig,
    source_size: OutputSize,
)
    ensures
        ({
            let request = requested_chain(config, source_size);
            &&& request.source == config.source
            &&& request.backend == config.settings.capture
            &&& request.draw_cursor == config.draw_cursor
            &&& request.fps == config.settings.fps
            &&& request.input == config.encoder_input
            &&& request.source_size == source_size
            &&& request.target_size == encoding_of(config.settings, source_size).size
        }),
{
}

/// What an encoder is opened for: the frames as they come, at the rates that
/// were asked for.
pub open spec fn opened_for_frames(requested: ResolvedEncoding, actual_size: OutputSize) -> (
    ResolvedEncoding,
    int,
) {
    (ResolvedEncoding { size: actual_size, ..requested }, requested.bitrate_kbps * 1000)
}

/// The encoder is opened for the size that the frames have, not for the one
/// that was asked for, and keeps the frame rate and the bit rate.
pub proof fn the_frames_decide_the_size(requested: ResolvedEncoding, actual_size: OutputSize)
    ensures
        opened_for_frames(requested, actual_size).0.size == actual_size,
        opened_for_frames(requested, actual_size).0.fps == requested.fps,
        opened_for_frames(requested, actual_size).0.bitrate_kbps == requested.bitrate_kbps,
        opened_for_frames(requested, actual_size).1 == requested.bitrate_kbps * 1000,
{
}

/// A window is located on the primary display, or on the first where none is
/// primary.
pub proof fn a_window_is_located_on_the_primary_display(
    hwnd: u64,
    displays: Seq<Display>,
    k: int,
)
    requires
        0 <= k < displays.len(),
    ensures
        ({
            let found = located(CaptureSource::Window { hwnd }, displays);
            &&& found is Some
            &&& displays[k].is_primary && (forall|j: int|
                0 <= j < k ==> !(#[trigger] displays[j]).is_primary) ==> found == Some(k)
            &&& (forall|j: int| 0 <= j < displays.len() ==> !(#[trigger] displays[j]).is_primary)
                ==> found == Some(0int)
        }),
{
    let primary = |d: Display| d.is_primary;
    first_where_is_first(displays, primary);
    let found = first_where(displays, primary);
    if found is Some {
        assert(primary(displays[found->0]));
        if found->0 > k {
            assert(!primary(displays[k]));
        }
    } else {
        assert(!primary(displays[k]));
    }
}

/// Whatever ends the pipeline asks its threads to stop, and is the reason that
/// is given where there was none before; nothing else changes.
pub proof fn the_end_is_recorded_and_asked_for(s: Shared, reason: StopReason)
    ensures
        finished(s, reason).stop,
        s.reason is None ==> finished(s, reason).reason == Some(reason),
        s.reason is Some ==> finished(s, reason).reason == s.reason,
        finished(s, reason).key_frame_wanted == s.key_frame_wanted,
        finished(s, reason).stats == s.stats,
{
}

/// What is read is what was counted.
pub proof fn readings_are_the_counters(s: Stats)
    ensures
        reading(s).captured == s.captured,
        reading(s).encoded == s.encoded,
        reading(s).repeated == s.repeated,
        reading(s).dropped == s.dropped,
        reading(s).packets == s.packets,
        reading(s).bytes == s.bytes,
        reading(s).key_frames == s.key_frames,
        s.encoded > 0 ==> reading(s).mean_encode_micros * s.encoded <= s.encode_micros < (reading(
            s,
        ).mean_encode_micros + 1) * s.encoded,
        s.encoded == 0 ==> reading(s).mean_encode_micros == 0,
{
    if s.encoded > 0 {
        let q = s.encode_micros as int / s.encoded as int;
        assert(q * s.encoded <= s.encode_micros < (q + 1) * s.encoded) by (nonlinear_arith)
            requires
                q == s.encode_micros as int / s.encoded as int,
                s.encoded > 0,
        ;
    }
}

/// A key frame is wished for.
pub open spec fn wished(s: Shared) -> Shared {
    Shared { key_frame_wanted: true, ..s }
}

/// Whether a key frame was wished for, and the state in which it no longer is.
pub open spec fn granted(s: Shared) -> (bool, Shared) {
    (s.key_frame_wanted, Shared { key_frame_wanted: false, ..s })
}

/// A wish for a key frame is granted once, however often it was made before, and
/// none that was not made is.
pub proof fn a_wish_for_a_key_frame_is_granted_once(s: Shared)
    ensures
        granted(wished(s)).0,
        granted(wished(wished(s))) == granted(wished(s)),
        !granted(granted(wished(s)).1).0,
        !s.key_frame_wanted ==> granted(s) == (false, s),
        wished(s).stop == s.stop && granted(s).1.stop == s.stop,
        wished(s).stats == s.stats && granted(s).1.stats == s.stats,
{
}

/// Each event is counted as what it is: a captured frame, and with it one that
/// it displaced; an encoded one with the time it took, again where it was
/// repeated; a packet with its bytes, again where it is a key frame.
pub proof fn events_are_counted_as_what_they_are(
    s: Stats,
    flag: bool,
    micros: u64,
    bytes: u64,
)
    requires
        s.captured < u64::MAX && s.dropped < u64::MAX && s.encoded < u64::MAX && s.repeated
            < u64::MAX && s.packets < u64::MAX && s.key_frames < u64::MAX,
        s.encode_micros + micros <= u64::MAX,
        s.bytes + bytes <= u64::MAX,
    ensures
        ({
            let c = with_note(s, Note::Captured { displaced: flag });
            &&& c.captured == s.captured + 1
            &&& c.dropped == s.dropped + if flag {
                1int
            } else {
                0
            }
            &&& c.encoded == s.encoded && c.repeated == s.repeated && c.packets == s.packets
            &&& c.bytes == s.bytes && c.key_frames == s.key_frames && c.encode_micros
                == s.encode_micros
        }),
        ({
            let c = with_note(s, Note::Encoded { repeated: flag, micros });
            &&& c.encoded == s.encoded + 1
            &&& c.encode_micros == s.encode_micros + micros
            &&& c.repeated == s.repeated + if flag {
                1int
            } else {
                0
            }
            &&& c.captured == s.captured && c.dropped == s.dropped && c.packets == s.packets
            &&& c.bytes == s.bytes && c.key_frames == s.key_frames
        }),
        ({
            let c = with_note(s, Note::Packet { bytes, is_key: flag });
            &&& c.packets == s.packets + 1
            &&& c.bytes == s.bytes + bytes
            &&& c.key_frames == s.key_frames + if flag {
                1int
            } else {
                0
            }
            &&& c.captured == s.captured && c.dropped == s.dropped && c.encoded == s.encoded
            &&& c.repeated == s.repeated && c.encode_micros == s.encode_micros
        }),
        with_note(s, Note::Captured { displaced: flag }) == with_captured(s, flag),
        with_note(s, Note::Encoded { repeated: flag, micros }) == with_encoded(s, flag, micros),
        with_note(s, Note::Packet { bytes, is_key: flag }) == with_packet(s, bytes, flag),
        no_stats().captured == 0 && no_stats().encoded == 0 && no_stats().packets == 0,
        no_stats().dropped == 0 && no_stats().repeated == 0 && no_stats().bytes == 0,
        no_stats().key_frames == 0 && no_stats().encode_micros == 0,
{
}

/// A source that cannot be captured is told as what it is.
pub proof fn what_cannot_be_captured_is_told(output_index: u32, hmonitor: u64, hwnd: u64)
    ensures
        locate_error(CaptureSource::Monitor { output_index, hmonitor })
            == "no display with output index "@ + decimal_text(output_index as nat),
        locate_error(CaptureSource::Window { hwnd }) == "no display found"@,
        unsupported_source()
            == "capturing a single window needs the gfxcapture backend; ddagrab can only capture a whole display"@,
{
}

} // verus!
