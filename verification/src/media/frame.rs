//! An encoded frame, and the still image of a captured one.

use image::codecs::jpeg::JpegEncoder;
use image::ExtendedColorType;
use vstd::prelude::*;

use crate::text::concat3;

verus! {

/// One encoded frame, on its way to the transport stage.
#[derive(Debug, PartialEq, Eq)]
pub struct EncodedFrame {
    /// The bitstream.
    pub bytes: Vec<u8>,
    /// Presentation timestamp in milliseconds from the start of the stream.
    pub pts_ms: i64,
    /// Whether this is a key frame, i.e. a decodable entry point.
    pub is_key: bool,
}

/// The longest edge of a preview image.
pub const PREVIEW_EDGE: u32 = 1280;

/// The quality of a preview image.
pub const PREVIEW_QUALITY: u8 = 75;

/// The width of a preview before its height is bounded.
pub open spec fn preview_width(src_width: int, max_width: int) -> int {
    let wanted = if max_width < 1 {
        1
    } else if max_width > PREVIEW_EDGE {
        PREVIEW_EDGE as int
    } else {
        max_width
    };
    if wanted < src_width {
        wanted
    } else {
        src_width
    }
}

/// At least one pixel.
pub open spec fn at_least_one(n: int) -> int {
    if n < 1 {
        1
    } else {
        n
    }
}

/// The size of a preview: no wider than asked for, than the source and than
/// the bound; its height follows, and where that exceeds the bound the height
/// is the bound and the width follows.
pub open spec fn preview_dimensions(src_width: int, src_height: int, max_width: int) -> (int, int) {
    let width = preview_width(src_width, max_width);
    let height = at_least_one(src_height * width / src_width);
    if height > PREVIEW_EDGE {
        (at_least_one(width * PREVIEW_EDGE / height), PREVIEW_EDGE as int)
    } else {
        (width, height)
    }
}

/// A preview has pixels, stays within its bound in both directions, and is no
/// wider than the source or than asked for.
pub proof fn previews_stay_within_bounds(src_width: int, src_height: int, max_width: int)
    requires
        src_width >= 1,
        src_height >= 1,
        max_width >= 0,
    ensures
        ({
            let (w, h) = preview_dimensions(src_width, src_height, max_width);
            &&& 1 <= w <= PREVIEW_EDGE
            &&& 1 <= h <= PREVIEW_EDGE
            &&& w <= src_width
            &&& h <= src_height
            &&& w <= at_least_one(max_width)
        }),
{
    let width = preview_width(src_width, max_width);
    let full = src_height * width / src_width;
    assert(0 <= full <= src_height) by (nonlinear_arith)
        requires
            full == src_height * width / src_width,
            1 <= width <= src_width,
            src_height >= 1,
    ;
    let height = at_least_one(full);
    if height > PREVIEW_EDGE {
        let narrow = width * PREVIEW_EDGE / height;
        assert(0 <= narrow <= width) by (nonlinear_arith)
            requires
                narrow == width * PREVIEW_EDGE / height,
                width >= 1,
                height > PREVIEW_EDGE,
        ;
    }
}

/// Why a frame cannot be used.  Some reasons come with the library's words.
#[derive(Debug, PartialEq, Eq)]
pub enum FrameFailure {
    /// There is no memory for another frame.
    Memory,
    /// It cannot be shared.
    Share(String),
    /// It cannot be brought into system memory.
    Transfer(String),
    /// There is no memory for its preview.
    Image(String),
    /// There is nothing to scale it with.
    Scaler,
    /// It cannot be scaled.
    Scale,
}

/// Why a frame cannot be used, for the user.
pub open spec fn frame_failure_text(failure: FrameFailure) -> Seq<char> {
    match failure {
        FrameFailure::Memory => "could not allocate frame"@,
        FrameFailure::Share(words) => "could not reference frame ("@ + words@ + ")"@,
        FrameFailure::Transfer(words) => "could not transfer preview frame ("@ + words@ + ")"@,
        FrameFailure::Image(words) => "could not allocate preview image ("@ + words@ + ")"@,
        FrameFailure::Scaler => "could not create preview scaler"@,
        FrameFailure::Scale => "could not scale preview frame"@,
    }
}

/// Why a frame cannot be used, for the user.
pub fn frame_failure(failure: &FrameFailure) -> (r: String)
    ensures
        r@ == frame_failure_text(*failure),
{
    match failure {
        FrameFailure::Memory => "could not allocate frame".to_owned(),
        FrameFailure::Share(words) => concat3("could not reference frame (", words.as_str(), ")"),
        FrameFailure::Transfer(words) => concat3(
            "could not transfer preview frame (",
            words.as_str(),
            ")",
        ),
        FrameFailure::Image(words) => concat3(
            "could not allocate preview image (",
            words.as_str(),
            ")",
        ),
        FrameFailure::Scaler => "could not create preview scaler".to_owned(),
        FrameFailure::Scale => "could not scale preview frame".to_owned(),
    }
}

/// The size of the preview of a frame, for a viewer that shows at most
/// `max_width` pixels across.
pub fn preview_size(src_width: i32, src_height: i32, max_width: u32) -> (r: Result<
    (u32, u32),
    String,
>)
    ensures
        if src_width <= 0 || src_height <= 0 {
            r is Err && r->Err_0@ == "preview frame has invalid dimensions"@
        } else {
            r is Ok && (r->Ok_0.0 as int, r->Ok_0.1 as int) == preview_dimensions(
                src_width as int,
                src_height as int,
                max_width as int,
            )
        },
{
    if src_width <= 0 || src_height <= 0 {
        return Err("preview frame has invalid dimensions".to_owned());
    }
    proof {
        previews_stay_within_bounds(src_width as int, src_height as int, max_width as int);
    }
    let wanted: u32 = if max_width < 1 {
        1
    } else if max_width > PREVIEW_EDGE {
        PREVIEW_EDGE
    } else {
        max_width
    };
    let width: u32 = if wanted < src_width as u32 { wanted } else { src_width as u32 };
    assert(src_height * width <= 0x7fff_ffff * 1280) by (nonlinear_arith)
        requires
            src_height <= 0x7fff_ffff,
            0 <= width <= 1280,
            src_height >= 0,
    ;
    assert(0 <= src_height * width) by (nonlinear_arith)
        requires
            width >= 0,
            src_height >= 0,
    ;
    let full: u64 = (src_height as u64 * width as u64) / src_width as u64;
    assert(full <= src_height) by (nonlinear_arith)
        requires
            full == (src_height as int * width as int) / src_width as int,
            1 <= width <= src_width,
            src_height >= 1,
    ;
    let height: u64 = if full < 1 { 1 } else { full };
    if height > PREVIEW_EDGE as u64 {
        let narrow: u64 = (width as u64 * 1280) / height;
        assert(narrow <= width) by (nonlinear_arith)
            requires
                narrow == (width as int * 1280) / height as int,
                height > 1280,
        ;
        let bounded: u64 = if narrow < 1 { 1 } else { narrow };
        Ok((bounded as u32, PREVIEW_EDGE))
    } else {
        Ok((width, height as u32))
    }
}

/// The first `rows` rows of a padded picture, without the padding.
pub open spec fn packed(data: Seq<u8>, stride: int, row_len: int, rows: int) -> Seq<u8>
    decreases rows,
{
    if rows <= 0 {
        Seq::empty()
    } else {
        packed(data, stride, row_len, rows - 1) + data.subrange(
            (rows - 1) * stride,
            (rows - 1) * stride + row_len,
        )
    }
}

/// Every visible byte lies inside the picture's data.
pub open spec fn rows_inside(data: Seq<u8>, stride: int, row_len: int, rows: int) -> bool {
    0 <= row_len && 0 <= stride && (rows > 0 ==> (rows - 1) * stride + row_len <= data.len())
}

proof fn lemma_packed_len(data: Seq<u8>, stride: int, row_len: int, rows: int)
    requires
        rows_inside(data, stride, row_len, rows),
        rows >= 0,
    ensures
        packed(data, stride, row_len, rows).len() == rows * row_len,
    decreases rows,
{
    if rows > 0 {
        assert((rows - 2) * stride + row_len <= (rows - 1) * stride + row_len) by (nonlinear_arith)
            requires
                stride >= 0,
        ;
        assert(0 <= (rows - 1) * stride) by (nonlinear_arith)
            requires
                rows >= 1,
                stride >= 0,
        ;
        lemma_packed_len(data, stride, row_len, rows - 1);
        assert(rows * row_len == (rows - 1) * row_len + row_len) by (nonlinear_arith);
    } else {
        assert(rows * row_len == 0) by (nonlinear_arith)
            requires
                rows == 0,
        ;
    }
}

/// Copy only the visible bytes of each row, excluding padding.
pub fn pack_rows(data: &Vec<u8>, stride: usize, row_len: usize, rows: usize) -> (r: Vec<u8>)
    requires
        rows_inside(data@, stride as int, row_len as int, rows as int),
    ensures
        r@ == packed(data@, stride as int, row_len as int, rows as int),
        r@.len() == rows * row_len,
{
    let mut out: Vec<u8> = Vec::new();
    let mut row: usize = 0;
    let mut start: usize = 0;
    let total: usize = data.len();
    assert(0 == 0 * stride) by (nonlinear_arith);
    while row < rows
        invariant
            row <= rows,
            total == data@.len(),
            rows_inside(data@, stride as int, row_len as int, rows as int),
            row < rows ==> start == row * stride,
            out@ == packed(data@, stride as int, row_len as int, row as int),
        decreases rows - row,
    {
        assert(row * stride <= (rows - 1) * stride) by (nonlinear_arith)
            requires
                row <= rows - 1,
                stride >= 0,
        ;
        let ghost before = out@;
        let mut i: usize = 0;
        while i < row_len
            invariant
                i <= row_len,
                total == data@.len(),
                start + row_len <= total,
                out@ == before + data@.subrange(start as int, start + i),
            decreases row_len - i,
        {
            out.push(data[start + i]);
            assert(data@.subrange(start as int, start + i + 1) =~= data@.subrange(
                start as int,
                start + i,
            ).push(data@[start + i]));
            i += 1;
        }
        row += 1;
        if row < rows {
            assert(row * stride <= (rows - 1) * stride) by (nonlinear_arith)
                requires
                    row <= rows - 1,
                    stride >= 0,
            ;
            assert(row * stride == (row - 1) * stride + stride) by (nonlinear_arith);
            start = start + stride;
        }
    }
    proof {
        lemma_packed_len(data@, stride as int, row_len as int, rows as int);
    }
    out
}

/// An error of the `image` crate.
#[verifier::external_type_specification]
#[verifier::external_body]
pub struct ExImageError(image::ImageError);

/// The JPEG file of an RGB picture at a quality.
pub uninterp spec fn jpeg_file(rgb: Seq<u8>, width: u32, height: u32, quality: u8) -> Seq<u8>;

/// `JpegEncoder::new_with_quality` and `JpegEncoder::encode` of the `image`
/// crate, writing into memory: a picture of three bytes per pixel becomes a
/// JPEG file, and the only pictures refused are those with an edge of zero or
/// of more than 65535 pixels.
#[verifier::external_body]
fn encode_rgb_jpeg(rgb: &Vec<u8>, width: u32, height: u32, quality: u8) -> (r: Result<
    Vec<u8>,
    image::ImageError,
>)
    requires
        rgb@.len() == width * height * 3,
    ensures
        match r {
            Ok(bytes) => 1 <= width <= 65535 && 1 <= height <= 65535 && bytes@ == jpeg_file(
                rgb@,
                width,
                height,
                quality,
            ),
            Err(_) => !(1 <= width <= 65535 && 1 <= height <= 65535),
        },
{
    let mut bytes = Vec::new();
    JpegEncoder::new_with_quality(&mut bytes, quality)
        .encode(rgb, width, height, ExtendedColorType::Rgb8)
        .map(|()| bytes)
}

/// The file of a preview picture whose rows may be padded.
pub open spec fn preview_file(data: Seq<u8>, stride: int, width: u32, height: u32) -> Seq<u8> {
    jpeg_file(packed(data, stride, width * 3, height as int), width, height, 75)
}

/// The JPEG of a scaled RGB picture whose rows may be padded.
pub fn preview_jpeg(data: &Vec<u8>, stride: usize, width: u32, height: u32) -> (r: Vec<u8>)
    requires
        1 <= width <= PREVIEW_EDGE,
        1 <= height <= PREVIEW_EDGE,
        rows_inside(data@, stride as int, width * 3, height as int),
    ensures
        r@ == jpeg_file(
            packed(data@, stride as int, width * 3, height as int),
            width,
            height,
            PREVIEW_QUALITY,
        ),
        r@ == preview_file(data@, stride as int, width, height),
{
    let rgb = pack_rows(data, stride, width as usize * 3, height as usize);
    assert(height * (width * 3) == width * height * 3) by (nonlinear_arith);
    match encode_rgb_jpeg(&rgb, width, height, PREVIEW_QUALITY) {
        Ok(bytes) => bytes,
        Err(_) => {
            assert(false);
            Vec::new()
        },
    }
}

/// The file of a preview is that of the visible pixels, three bytes each, in its
/// own width and height at three quarters of the best quality.
pub proof fn a_preview_holds_the_visible_pixels(
    data: Seq<u8>,
    stride: int,
    width: u32,
    height: u32,
)
    ensures
        preview_file(data, stride, width, height) == jpeg_file(
            packed(data, stride, 3 * width, height as int),
            width,
            height,
            75,
        ),
{
}

/// A preview is as wide as is asked for, as the source is, or as 1280 pixels,
/// whichever is least, and keeps the shape of the source to within a pixel; one
/// that would be higher than 1280 pixels is 1280 high, and just as much
/// narrower.
pub proof fn previews_keep_the_shape(src_width: int, src_height: int, max_width: int)
    requires
        src_width >= 1,
        src_height >= 1,
        max_width >= 1,
    ensures
        ({
            let (w, h) = preview_dimensions(src_width, src_height, max_width);
            let least = if max_width <= src_width && max_width <= 1280 {
                max_width
            } else if src_width <= 1280 {
                src_width
            } else {
                1280
            };
            let full = src_height * least / src_width;
            &&& full <= 1280 ==> w == least
            &&& 1 <= full <= 1280 ==> h * src_width <= src_height * w < (h + 1) * src_width
            &&& full < 1 ==> h == 1
            &&& full > 1280 ==> h == 1280
            &&& full > 1280 && w > 1 ==> w * full <= least * 1280 < (w + 1) * full
        }),
{
    let least = preview_width(src_width, max_width);
    let full = src_height * least / src_width;
    assert(full * src_width <= src_height * least < (full + 1) * src_width) by (nonlinear_arith)
        requires
            full == src_height * least / src_width,
            src_width >= 1,
    ;
    if full > 1280 {
        let narrow = least * 1280 / full;
        assert(narrow * full <= least * 1280 < (narrow + 1) * full) by (nonlinear_arith)
            requires
                narrow == least * 1280 / full,
                full > 1280,
        ;
    }
}

/// Each visible byte of a picture comes out in its place, and the padding does
/// not.
pub proof fn visible_bytes_keep_their_place(
    data: Seq<u8>,
    stride: int,
    row_len: int,
    rows: int,
    row: int,
    column: int,
)
    requires
        rows_inside(data, stride, row_len, rows),
        0 <= row < rows,
        0 <= column < row_len,
    ensures
        packed(data, stride, row_len, rows).len() == rows * row_len,
        0 <= row * row_len + column < rows * row_len,
        packed(data, stride, row_len, rows)[row * row_len + column] == data[row * stride + column],
    decreases rows,
{
    lemma_packed_len(data, stride, row_len, rows);
    assert((rows - 2) * stride + row_len <= (rows - 1) * stride + row_len) by (nonlinear_arith)
        requires
            stride >= 0,
    ;
    assert(0 <= (rows - 1) * stride) by (nonlinear_arith)
        requires
            rows >= 1,
            stride >= 0,
    ;
    lemma_packed_len(data, stride, row_len, rows - 1);
    assert(rows * row_len == (rows - 1) * row_len + row_len) by (nonlinear_arith);
    assert(0 <= row * row_len + column) by (nonlinear_arith)
        requires
            row >= 0,
            row_len > column,
            column >= 0,
    ;
    if row == rows - 1 {
    } else {
        visible_bytes_keep_their_place(data, stride, row_len, rows - 1, row, column);
    }
}

/// Each failure of a frame is told as what it is, with the library's words where
/// there are any.
pub proof fn frame_failures_are_told(words: String)
    ensures
        frame_failure_text(FrameFailure::Memory) == "could not allocate frame"@,
        frame_failure_text(FrameFailure::Share(words)) == "could not reference frame ("@ + words@
            + ")"@,
        frame_failure_text(FrameFailure::Transfer(words))
            == "could not transfer preview frame ("@ + words@ + ")"@,
        frame_failure_text(FrameFailure::Image(words)) == "could not allocate preview image ("@
            + words@ + ")"@,
        frame_failure_text(FrameFailure::Scaler) == "could not create preview scaler"@,
        frame_failure_text(FrameFailure::Scale) == "could not scale preview frame"@,
{
}

} // verus!
