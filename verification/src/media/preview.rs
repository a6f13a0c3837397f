//! The local preview of a running capture.
//!
//! Keeps the latest captured frame, a sequence number that advances with every
//! tick of the encoder, and the image last made of the frame, so that an idle
//! source costs no encoding.

use vstd::prelude::*;

verus! {

/// A point-in-time image of the capture.
#[derive(Debug, PartialEq, Eq)]
pub struct PreviewSnapshot {
    /// Which tick it shows.
    pub sequence: u64,
    /// Width in pixels.
    pub width: u32,
    /// Height in pixels.
    pub height: u32,
    /// The image file.
    pub bytes: Vec<u8>,
}

/// What an image says.
#[verifier::ext_equal]
pub struct Picture {
    /// Which tick it shows.
    pub sequence: u64,
    /// Width in pixels.
    pub width: u32,
    /// Height in pixels.
    pub height: u32,
    /// The image file.
    pub bytes: Seq<u8>,
}

impl View for PreviewSnapshot {
    type V = Picture;

    open spec fn view(&self) -> Picture {
        Picture {
            sequence: self.sequence,
            width: self.width,
            height: self.height,
            bytes: self.bytes@,
        }
    }
}

impl Clone for PreviewSnapshot {
    fn clone(&self) -> (r: Self)
        ensures
            r@ == self@,
    {
        let bytes = self.bytes.clone();
        assert(bytes@ =~= self.bytes@);
        PreviewSnapshot { sequence: self.sequence, width: self.width, height: self.height, bytes }
    }
}

/// The state of a preview of frames `F`.
#[derive(Debug)]
pub struct PreviewState<F> {
    /// The latest captured frame.
    pub frame: Option<F>,
    /// How many ticks there have been.
    pub sequence: u64,
    /// The image last made, where it is of the latest frame.
    pub encoded: Option<PreviewSnapshot>,
}

/// What a preview holds.
#[verifier::ext_equal]
pub struct Preview<F> {
    /// The latest captured frame.
    pub frame: Option<F>,
    /// How many ticks there have been.
    pub sequence: u64,
    /// The image of the latest frame, where one was made.
    pub encoded: Option<Picture>,
}

impl<F> View for PreviewState<F> {
    type V = Preview<F>;

    open spec fn view(&self) -> Preview<F> {
        Preview {
            frame: self.frame,
            sequence: self.sequence,
            encoded: match self.encoded {
                Some(snapshot) => Some(snapshot@),
                None => None,
            },
        }
    }
}

/// What a request for an image comes to.
#[derive(Debug)]
pub enum Lookup {
    /// Nothing has been captured yet.
    Nothing,
    /// This image is still current.
    Cached(PreviewSnapshot),
    /// The frame has to be encoded, as the image of this tick.
    Encode {
        /// The tick.
        sequence: u64,
    },
}

/// The preview with a newly captured frame.
pub open spec fn published<F>(p: Preview<F>, frame: F) -> Preview<F> {
    Preview { frame: Some(frame), sequence: p.sequence.wrapping_add(1), encoded: None }
}

/// The preview after a tick in which the frame stayed the same.
pub open spec fn republished<F>(p: Preview<F>) -> Preview<F> {
    if p.frame is None {
        p
    } else {
        let sequence = (p.sequence + 1) as u64;
        Preview {
            sequence,
            encoded: match p.encoded {
                Some(picture) => Some(Picture { sequence, ..picture }),
                None => None,
            },
            ..p
        }
    }
}

/// The image that still serves a viewer of this width, where one does.
pub open spec fn current_picture<F>(p: Preview<F>, max_width: u32) -> Option<Picture> {
    match p.encoded {
        Some(picture) => if picture.sequence == p.sequence && picture.width <= max_width {
            Some(picture)
        } else {
            None
        },
        None => None,
    }
}

/// The preview with an image of its latest frame.
pub open spec fn with_picture<F>(p: Preview<F>, picture: Picture) -> Preview<F> {
    Preview { encoded: Some(picture), ..p }
}

impl<F> PreviewState<F> {
    /// Before anything has been captured.
    pub fn new() -> (r: Self)
        ensures
            r@ == (Preview::<F> { frame: None, sequence: 0, encoded: None }),
    {
        PreviewState { frame: None, sequence: 0, encoded: None }
    }

    /// Publish a newly captured frame and invalidate the encoded preview.
    pub fn publish_frame(&mut self, frame: F)
        ensures
            final(self)@ == published(old(self)@, frame),
    {
        self.frame = Some(frame);
        self.sequence = self.sequence.wrapping_add(1);
        self.encoded = None;
    }

    /// Publish another tick of the current frame without re-encoding it.
    ///
    /// Advancing the sequence keeps the local viewer on the configured clock
    /// while retaining the cached image.
    pub fn republish(&mut self)
        requires
            old(self)@.sequence < u64::MAX,
        ensures
            final(self)@ == republished(old(self)@),
    {
        if self.frame.is_none() {
            return;
        }
        let sequence: u64 = self.sequence + 1;
        self.sequence = sequence;
        if let Some(mut snapshot) = self.encoded.take() {
            snapshot.sequence = sequence;
            self.encoded = Some(snapshot);
        }
    }

    /// Look for an image that a viewer of at most `max_width` pixels across
    /// can be given.
    pub fn lookup(&self, max_width: u32) -> (r: Lookup)
        ensures
            if self@.frame is None {
                r is Nothing
            } else {
                match current_picture(self@, max_width) {
                    Some(picture) => r matches Lookup::Cached(snapshot) && snapshot@ == picture,
                    None => r == (Lookup::Encode { sequence: self@.sequence }),
                }
            },
    {
        if self.frame.is_none() {
            return Lookup::Nothing;
        }
        if let Some(snapshot) = &self.encoded {
            if snapshot.sequence == self.sequence && snapshot.width <= max_width {
                return Lookup::Cached(snapshot.clone());
            }
        }
        Lookup::Encode { sequence: self.sequence }
    }

    /// Keep an image that was made, and hand it out.
    pub fn remember(&mut self, snapshot: PreviewSnapshot) -> (r: PreviewSnapshot)
        ensures
            r@ == snapshot@,
            final(self)@ == with_picture(old(self)@, snapshot@),
    {
        self.encoded = Some(snapshot.clone());
        snapshot
    }
}

/// A newly captured frame is never shown by an image made of an earlier one.
pub proof fn a_new_frame_is_never_served_from_the_cache<F>(p: Preview<F>, frame: F, max_width: u32)
    ensures
        current_picture(published(p, frame), max_width) is None,
{
}

/// While the source is idle the image is kept: a tick gives the same picture
/// under the next sequence number, without encoding.
pub proof fn an_idle_source_keeps_its_image<F>(p: Preview<F>, max_width: u32)
    requires
        p.frame is Some,
        p.sequence < u64::MAX,
        current_picture(p, max_width) is Some,
    ensures
        current_picture(republished(p), max_width) == Some(
            Picture { sequence: (p.sequence + 1) as u64, ..current_picture(p, max_width)->0 },
        ),
{
}

/// An image that was kept under the current tick is served to every viewer
/// that it fits.
pub proof fn a_kept_image_is_served<F>(p: Preview<F>, picture: Picture, max_width: u32)
    requires
        picture.sequence == p.sequence,
        picture.width <= max_width,
    ensures
        current_picture(with_picture(p, picture), max_width) == Some(picture),
{
}

/// A preview shows the frame that was captured last, one tick later, and an
/// image of an earlier one is no longer there.
pub proof fn a_preview_shows_the_latest_frame<F>(p: Preview<F>, frame: F)
    requires
        p.sequence < u64::MAX,
    ensures
        published(p, frame).frame == Some(frame),
        published(p, frame).sequence == p.sequence + 1,
        published(p, frame).encoded is None,
        p.frame is Some ==> republished(p).sequence == p.sequence + 1 && republished(p).frame
            == p.frame,
        p.frame is None ==> republished(p) == p,
{
}

/// An image is only given to a viewer that it fits, and only while it is of the
/// current tick; keeping one changes nothing but that.
pub proof fn only_a_fitting_image_is_given<F>(p: Preview<F>, picture: Picture, max_width: u32)
    ensures
        current_picture(p, max_width) is Some ==> current_picture(p, max_width) == p.encoded
            && current_picture(p, max_width)->0.width <= max_width && current_picture(
            p,
            max_width,
        )->0.sequence == p.sequence,
        with_picture(p, picture).encoded == Some(picture),
        with_picture(p, picture).frame == p.frame,
        with_picture(p, picture).sequence == p.sequence,
{
}

/// An image says what it holds, and a preview what it keeps.
pub proof fn an_image_says_what_it_holds<F>(image: PreviewSnapshot, state: PreviewState<F>)
    ensures
        image@.sequence == image.sequence,
        image@.width == image.width,
        image@.height == image.height,
        image@.bytes == image.bytes@,
        state@.frame == state.frame,
        state@.sequence == state.sequence,
        state.encoded is None <==> state@.encoded is None,
        state.encoded is Some ==> state@.encoded == Some(state.encoded->0@),
{
}

} // verus!
