//! The mailbox between the capture and encode threads, and what each of them
//! decides.
//!
//! The frames themselves belong to the codec library and are opaque here: `F`
//! is a reference to a captured surface.

use vstd::prelude::*;

use super::frame::EncodedFrame;
use super::pipeline::{
    finished, with_captured, with_encoded, with_packet, Shared, Stats, StopReason,
};

verus! {

/// The frame the encode thread should work on next.
#[derive(Debug)]
pub struct Slot<F> {
    /// The most recent captured frame, if it has not been taken.
    pub frame: Option<F>,
    /// Set when the capture side is finished, for whatever reason.
    pub ended: bool,
}

/// What the encode thread should do next.
#[derive(Debug)]
pub enum Next<F> {
    /// A newly captured frame.
    Fresh(F),
    /// Nothing new arrived in time; re-send the previous frame.
    Repeat,
    /// Capture has finished.
    Done,
}

/// What a look into the slot gives: a frame that is there, before the news
/// that capture has finished, before the end of the wait.  Nothing where the
/// wait goes on.
pub open spec fn slot_gives<F>(slot: Slot<F>, timed_out: bool) -> Option<Next<F>> {
    match slot.frame {
        Some(frame) => Some(Next::Fresh(frame)),
        None => if slot.ended {
            Some(Next::Done)
        } else if timed_out {
            Some(Next::Repeat)
        } else {
            None
        },
    }
}

/// The slot with a frame put in.
pub open spec fn slot_with<F>(slot: Slot<F>, frame: F) -> Slot<F> {
    Slot { frame: Some(frame), ..slot }
}

/// The slot with its frame taken out.
pub open spec fn slot_taken<F>(slot: Slot<F>) -> Slot<F> {
    Slot { frame: None, ..slot }
}

/// The slot after capture has finished.
pub open spec fn slot_closed<F>(slot: Slot<F>) -> Slot<F> {
    Slot { ended: true, ..slot }
}

impl<F> Slot<F> {
    /// An empty slot of a running capture.
    pub fn new() -> (r: Self)
        ensures
            r.frame is None,
            !r.ended,
    {
        Slot { frame: None, ended: false }
    }

    /// Put a frame in the slot, replacing anything there; tells whether an
    /// unencoded frame was displaced.
    pub fn put(&mut self, frame: F) -> (displaced: bool)
        ensures
            *final(self) == slot_with(*old(self), frame),
            displaced == (old(self).frame is Some),
    {
        let displaced = self.frame.is_some();
        self.frame = Some(frame);
        displaced
    }

    /// Mark capture as finished.
    pub fn close(&mut self)
        ensures
            *final(self) == slot_closed(*old(self)),
    {
        self.ended = true;
    }

    /// Look for something to do, taking a frame that is there.
    ///
    /// `timed_out` says whether the wait for a fresh frame is over; `None`
    /// means that it goes on.
    pub fn poll(&mut self, timed_out: bool) -> (r: Option<Next<F>>)
        ensures
            r == slot_gives(*old(self), timed_out),
            *final(self) == slot_taken(*old(self)),
    {
        match self.frame.take() {
            Some(frame) => Some(Next::Fresh(frame)),
            None => {
                if self.ended {
                    Some(Next::Done)
                } else if timed_out {
                    Some(Next::Repeat)
                } else {
                    None
                }
            },
        }
    }
}

/// The latest frame wins: of two frames stored before the encoder looks, it
/// gets the second, and then nothing more.
pub proof fn the_latest_frame_wins<F>(slot: Slot<F>, first: F, second: F, timed_out: bool)
    ensures
        slot_gives(slot_with(slot_with(slot, first), second), timed_out) == Some(
            Next::Fresh(second),
        ),
        slot_taken(slot_with(slot_with(slot, first), second)).frame is None,
{
}

/// A frame captured just before capture ends is still encoded, and the end is
/// seen right after it.
pub proof fn the_last_frame_is_encoded_before_the_end<F>(slot: Slot<F>, frame: F, timed_out: bool)
    ensures
        slot_gives(slot_closed(slot_with(slot, frame)), timed_out) == Some(Next::Fresh(frame)),
        slot_gives(slot_taken(slot_closed(slot_with(slot, frame))), timed_out) == Some(
            Next::<F>::Done,
        ),
{
}

/// What pulling from the capture graph gave.
#[derive(Debug, Clone, Copy, PartialEq, Eq, Structural)]
pub enum Pulled {
    /// A frame.
    Frame,
    /// Nothing within the source's own wait.
    Idle,
    /// The source is gone.
    Ended,
}

/// What the capture thread does after a pull.
#[derive(Debug, Clone, Copy, PartialEq, Eq, Structural)]
pub enum CaptureStep {
    /// Put the frame into the slot.
    Store,
    /// Look at the stop flag and pull again.
    Again,
    /// Close the mailbox and finish.
    Stop,
}

/// Decide what follows a pull, and record why capture ends where it does.
pub fn on_pulled(shared: &mut Shared, pulled: Result<Pulled, String>) -> (r: CaptureStep)
    ensures
        match pulled {
            Ok(Pulled::Frame) => r == CaptureStep::Store && *final(shared) == *old(shared),
            Ok(Pulled::Idle) => r == CaptureStep::Again && *final(shared) == *old(shared),
            Ok(Pulled::Ended) => r == CaptureStep::Stop && *final(shared) == finished(
                *old(shared),
                StopReason::SourceEnded,
            ),
            Err(message) => r == CaptureStep::Stop && *final(shared) == finished(
                *old(shared),
                StopReason::Failed { message },
            ),
        },
{
    match pulled {
        Ok(Pulled::Frame) => CaptureStep::Store,
        Ok(Pulled::Idle) => CaptureStep::Again,
        Ok(Pulled::Ended) => {
            shared.finish(StopReason::SourceEnded);
            CaptureStep::Stop
        },
        Err(message) => {
            shared.finish(StopReason::Failed { message });
            CaptureStep::Stop
        },
    }
}

/// Put a new reference to a captured frame into the slot.
///
/// Returns `false` when the reference could not be taken, which is fatal.
pub fn store<F>(slot: &mut Slot<F>, shared: &mut Shared, reference: Result<F, String>) -> (r: bool)
    ensures
        match reference {
            Ok(frame) => {
                &&& r
                &&& *final(slot) == slot_with(*old(slot), frame)
                &&& *final(shared) == (Shared {
                    stats: with_captured(old(shared).stats, old(slot).frame is Some),
                    ..*old(shared)
                })
            },
            Err(message) => {
                &&& !r
                &&& *final(slot) == *old(slot)
                &&& *final(shared) == finished(*old(shared), StopReason::Failed { message })
            },
        },
{
    match reference {
        Ok(frame) => {
            let displaced = slot.put(frame);
            shared.stats.note_captured(displaced);
            true
        },
        Err(message) => {
            shared.finish(StopReason::Failed { message });
            false
        },
    }
}

/// What the encode thread holds between two frames.
#[derive(Debug)]
pub struct EncodeState<F> {
    /// The frame to encode, and to repeat while nothing new arrives.
    pub current: Option<F>,
    /// The last timestamp emitted.
    pub last_pts: i64,
}

/// What the encode thread does after its wait.
#[derive(Debug, Clone, Copy, PartialEq, Eq, Structural)]
pub enum EncodeStep {
    /// Encode the current frame.
    Encode {
        /// Whether it has been encoded before.
        repeated: bool,
    },
    /// Nothing captured yet, so there is nothing to repeat either.
    Skip,
    /// Finish.
    Stop,
}

/// The next timestamp at a time of the clock, after the last one: the clock's,
/// or one more than the last where that is later.
pub open spec fn pts_after(last: int, elapsed_ms: int) -> int {
    let clock = if elapsed_ms > i64::MAX {
        i64::MAX as int
    } else {
        elapsed_ms
    };
    let least = if last >= i64::MAX {
        i64::MAX as int
    } else {
        last + 1
    };
    if clock < least {
        least
    } else {
        clock
    }
}

/// Timestamps advance with every frame, repeated ones included, until the
/// clock's last millisecond; and they never run ahead of a clock that does.
pub proof fn timestamps_advance(last: int, elapsed_ms: int)
    requires
        i64::MIN <= last < i64::MAX,
        0 <= elapsed_ms,
    ensures
        last < pts_after(last, elapsed_ms) <= i64::MAX,
        last < elapsed_ms <= i64::MAX ==> pts_after(last, elapsed_ms) == elapsed_ms,
{
}

impl<F> EncodeState<F> {
    /// Before the first frame.
    pub fn new() -> (r: Self)
        ensures
            r.current is None,
            r.last_pts == i64::MIN,
    {
        EncodeState { current: None, last_pts: i64::MIN }
    }

    /// Take what the wait gave, and decide what to do.
    pub fn accept(&mut self, next: Next<F>) -> (r: EncodeStep)
        ensures
            final(self).last_pts == old(self).last_pts,
            match next {
                Next::Fresh(frame) => final(self).current == Some(frame) && r
                    == (EncodeStep::Encode { repeated: false }),
                Next::Repeat => final(self).current == old(self).current && r == if old(
                    self,
                ).current is Some {
                    EncodeStep::Encode { repeated: true }
                } else {
                    EncodeStep::Skip
                },
                Next::Done => final(self).current == old(self).current && r == EncodeStep::Stop,
            },
            (final(self).current, r) == encoded_next(old(self).current, next),
    {
        match next {
            Next::Fresh(frame) => {
                self.current = Some(frame);
                EncodeStep::Encode { repeated: false }
            },
            Next::Repeat => {
                if self.current.is_some() {
                    EncodeStep::Encode { repeated: true }
                } else {
                    EncodeStep::Skip
                }
            },
            Next::Done => EncodeStep::Stop,
        }
    }

    /// The next presentation timestamp, in the encoder's millisecond base.
    ///
    /// Taken from our own clock rather than the capture filter's timeline: a
    /// repeated frame has no source timestamp of its own, and encoders reject a
    /// timestamp that does not advance.
    pub fn next_pts(&mut self, elapsed_ms: u128) -> (r: i64)
        ensures
            r == pts_after(old(self).last_pts as int, elapsed_ms as int),
            final(self).last_pts == r,
            final(self).current == old(self).current,
    {
        let clock: i64 = if elapsed_ms > i64::MAX as u128 { i64::MAX } else { elapsed_ms as i64 };
        let least: i64 = if self.last_pts == i64::MAX { i64::MAX } else { self.last_pts + 1 };
        let pts: i64 = if clock < least { least } else { clock };
        self.last_pts = pts;
        pts
    }
}

/// One packet as the encoder hands it out.
#[derive(Debug, PartialEq, Eq)]
pub struct EncodedPacket {
    /// The bitstream.
    pub bytes: Vec<u8>,
    /// Its timestamp, in the encoder's time base.
    pub pts: i64,
    /// Whether it is a key frame.
    pub key: bool,
}

/// The counters after some packets.
pub open spec fn with_packets(s: Stats, packets: Seq<EncodedPacket>) -> Stats
    decreases packets.len(),
{
    if packets.len() == 0 {
        s
    } else {
        with_packet(
            with_packets(s, packets.drop_last()),
            packets.last().bytes@.len() as u64,
            packets.last().key,
        )
    }
}

/// Whether a frame carries what a packet does.
pub open spec fn carries(frame: EncodedFrame, packet: EncodedPacket) -> bool {
    &&& frame.bytes@ == packet.bytes@
    &&& frame.pts_ms == packet.pts
    &&& frame.is_key == packet.key
}

/// Count one encoded frame and its packets, and make the frames that go to the
/// sink, in order.
pub fn emit(
    shared: &mut Shared,
    repeated: bool,
    spent_micros: u128,
    packets: Vec<EncodedPacket>,
) -> (r: Vec<EncodedFrame>)
    ensures
        r@.len() == packets@.len(),
        forall|i: int| 0 <= i < r@.len() ==> carries(#[trigger] r@[i], packets@[i]),
        *final(shared) == (Shared {
            stats: with_packets(
                with_encoded(
                    old(shared).stats,
                    repeated,
                    if spent_micros > u64::MAX {
                        u64::MAX
                    } else {
                        spent_micros as u64
                    },
                ),
                packets@,
            ),
            ..*old(shared)
        }),
{
    let micros: u64 = if spent_micros > u64::MAX as u128 { u64::MAX } else { spent_micros as u64 };
    shared.stats.note_encoded(repeated, micros);
    let ghost start = shared.stats;
    let ghost base = *shared;
    let mut out: Vec<EncodedFrame> = Vec::new();
    let mut i: usize = 0;
    while i < packets.len()
        invariant
            i <= packets.len(),
            out@.len() == i,
            forall|j: int| 0 <= j < i ==> carries(#[trigger] out@[j], packets@[j]),
            *shared == (Shared {
                stats: with_packets(start, packets@.subrange(0, i as int)),
                ..base
            }),
        decreases packets.len() - i,
    {
        let packet = &packets[i];
        assert(packets@.subrange(0, i + 1).drop_last() =~= packets@.subrange(0, i as int));
        shared.stats.note_packet(packet.bytes.len(), packet.key);
        let bytes = packet.bytes.clone();
        assert(bytes@ =~= packet.bytes@);
        out.push(EncodedFrame { bytes, pts_ms: packet.pts, is_key: packet.key });
        i += 1;
    }
    assert(packets@.subrange(0, packets@.len() as int) =~= packets@);
    out
}

/// What follows an attempt to encode.
#[derive(Debug, Clone, Copy, PartialEq, Eq, Structural)]
pub enum AfterEncode {
    /// Encoding failed; finish.
    Stop,
    /// Let the preview advance on the frame it has.
    Republish,
    /// Give the preview the new frame.
    Publish,
}

/// Decide what follows an attempt to encode, and record a failure.
pub fn after_encode(shared: &mut Shared, outcome: Result<(), String>, repeated: bool) -> (r:
    AfterEncode)
    ensures
        match outcome {
            Err(message) => r == AfterEncode::Stop && *final(shared) == finished(
                *old(shared),
                StopReason::Failed { message },
            ),
            Ok(()) => *final(shared) == *old(shared) && r == if repeated {
                AfterEncode::Republish
            } else {
                AfterEncode::Publish
            },
        },
{
    match outcome {
        Err(message) => {
            shared.finish(StopReason::Failed { message });
            AfterEncode::Stop
        },
        Ok(()) => {
            if repeated {
                AfterEncode::Republish
            } else {
                AfterEncode::Publish
            }
        },
    }
}

/// One and a half frame intervals in nanoseconds, to the nearest one; a half
/// goes to the even neighbour.
pub open spec fn frame_wait(fps: int) -> int {
    let whole = 1_500_000_000int / fps;
    let rest = 1_500_000_000int % fps;
    if 2 * rest > fps || (2 * rest == fps && whole % 2 == 1) {
        whole + 1
    } else {
        whole
    }
}

/// How long the encode thread waits for a fresh frame before it repeats the
/// previous one, in nanoseconds.
///
/// Half an interval of slack keeps a source that paces itself off the repeat
/// path: its frames arrive one interval apart, and a deadline of exactly one
/// interval would race with them every time.
pub fn frame_wait_nanos(fps: u32) -> (r: u64)
    requires
        fps > 0,
    ensures
        r == frame_wait(fps as int),
{
    let whole: u64 = 1_500_000_000 / fps as u64;
    let rest: u64 = 1_500_000_000 % fps as u64;
    if 2 * rest > fps as u64 || (2 * rest == fps as u64 && whole % 2 == 1) {
        whole + 1
    } else {
        whole
    }
}

/// The wait leaves room for a source that paces itself: it is longer than one
/// frame interval and shorter than two, at every rate the settings accept.
pub proof fn the_wait_leaves_room_for_a_self_paced_source(fps: int)
    requires
        1 <= fps <= 120,
    ensures
        1_000_000_000 < frame_wait(fps) * fps < 2_000_000_000,
{
    let whole = 1_500_000_000int / fps;
    let rest = 1_500_000_000int % fps;
    assert(whole * fps + rest == 1_500_000_000 && 0 <= rest < fps) by (nonlinear_arith)
        requires
            whole == 1_500_000_000int / fps,
            rest == 1_500_000_000int % fps,
            fps >= 1,
    ;
    assert((whole + 1) * fps == whole * fps + fps) by (nonlinear_arith);
}

/// A look into the slot takes a frame that is there, whatever else holds; an
/// empty one says that capture is over, that it is time to repeat, or nothing,
/// in this order.
pub proof fn a_look_into_the_slot<F>(frame: F, ended: bool, timed_out: bool)
    ensures
        slot_gives(Slot { frame: Some(frame), ended }, timed_out) == Some(Next::Fresh(frame)),
        slot_gives(Slot::<F> { frame: None, ended: true }, timed_out) == Some(Next::<F>::Done),
        slot_gives(Slot::<F> { frame: None, ended: false }, true) == Some(Next::<F>::Repeat),
        slot_gives(Slot::<F> { frame: None, ended: false }, false) is None,
        slot_taken(Slot { frame: Some(frame), ended }).ended == ended,
        slot_taken(Slot { frame: Some(frame), ended }).frame is None,
        slot_with(Slot::<F> { frame: None, ended }, frame).ended == ended,
        slot_closed(Slot { frame: Some(frame), ended }).frame == Some(frame),
        slot_closed(Slot { frame: Some(frame), ended }).ended,
{
}

/// Timestamps are those of the clock, except that a frame within the same
/// millisecond as the last one, or before it, comes one millisecond after it.
pub proof fn timestamps_follow_the_clock(last: int, elapsed_ms: int)
    requires
        i64::MIN <= last < i64::MAX,
        0 <= elapsed_ms <= i64::MAX,
    ensures
        elapsed_ms > last ==> pts_after(last, elapsed_ms) == elapsed_ms,
        elapsed_ms <= last ==> pts_after(last, elapsed_ms) == last + 1,
{
}

/// What goes to the viewers is what the encoder made: the same bytes, at the
/// same time, and a key frame exactly where that is one.
pub proof fn what_was_encoded_is_what_is_sent(frame: EncodedFrame, packet: EncodedPacket)
    ensures
        carries(frame, packet) <==> frame.bytes@ == packet.bytes@ && frame.pts_ms == packet.pts
            && frame.is_key == packet.key,
{
}

/// The wait for a frame is one and a half frame intervals, to the nearest
/// nanosecond, and to the even one of two that are equally near.
pub proof fn the_wait_is_one_and_a_half_intervals(fps: int)
    requires
        fps >= 1,
    ensures
        2 * frame_wait(fps) * fps - fps <= 3_000_000_000 <= 2 * frame_wait(fps) * fps + fps,
        2 * frame_wait(fps) * fps - fps == 3_000_000_000 || 2 * frame_wait(fps) * fps + fps
            == 3_000_000_000 ==> frame_wait(fps) % 2 == 0,
{
    let whole = 1_500_000_000int / fps;
    let rest = 1_500_000_000int % fps;
    assert(whole * fps + rest == 1_500_000_000 && 0 <= rest < fps) by (nonlinear_arith)
        requires
            whole == 1_500_000_000int / fps,
            rest == 1_500_000_000int % fps,
            fps >= 1,
    ;
    assert(2 * whole * fps == 2 * (whole * fps)) by (nonlinear_arith);
    assert(2 * (whole + 1) * fps == 2 * (whole * fps) + 2 * fps) by (nonlinear_arith);
}

/// The frame that is then the current one, and what the encoder does.
pub open spec fn encoded_next<F>(current: Option<F>, next: Next<F>) -> (Option<F>, EncodeStep) {
    match next {
        Next::Fresh(frame) => (Some(frame), EncodeStep::Encode { repeated: false }),
        Next::Repeat => if current is Some {
            (current, EncodeStep::Encode { repeated: true })
        } else {
            (current, EncodeStep::Skip)
        },
        Next::Done => (current, EncodeStep::Stop),
    }
}

/// A fresh frame is encoded as new and takes the place of the one before; while
/// nothing comes the last one is repeated, where there is one, and the end ends
/// encoding.
pub proof fn the_latest_frame_is_encoded<F>(current: Option<F>, last: F, frame: F)
    ensures
        encoded_next(current, Next::Fresh(frame)) == (
            Some(frame),
            EncodeStep::Encode { repeated: false },
        ),
        encoded_next(Some(last), Next::Repeat) == (
            Some(last),
            EncodeStep::Encode { repeated: true },
        ),
        encoded_next(None::<F>, Next::Repeat) == (None::<F>, EncodeStep::Skip),
        encoded_next(current, Next::Done) == (current, EncodeStep::Stop),
{
}

/// Each packet counts once, with its own bytes and as a key frame where it is
/// one, after those before it.
pub proof fn each_packet_counts_once(s: Stats, packets: Seq<EncodedPacket>, packet: EncodedPacket)
    ensures
        with_packets(s, Seq::empty()) == s,
        with_packets(s, packets.push(packet)) == with_packet(
            with_packets(s, packets),
            packet.bytes@.len() as u64,
            packet.key,
        ),
{
    assert(packets.push(packet).drop_last() =~= packets);
}

} // verus!
