//! Decoded images and the pixels that a region covers.

use vstd::prelude::*;
use crate::media::{base64_standard_decoded, payload_bytes_of, payload_of, payload_text};
use crate::roi::ROI;

verus! {

/// One pixel: red, green, blue and alpha.
#[derive(Debug, Clone, Copy, PartialEq, Eq, Structural)]
pub struct Rgba {
    pub r: u8,
    pub g: u8,
    pub b: u8,
    pub a: u8,
}

/// A pixel of an image together with its position.
#[derive(Debug, Clone, Copy, PartialEq, Eq, Structural)]
pub struct Sample {
    pub x: i32,
    pub y: i32,
    pub rgba: Rgba,
}

/// An image held as RGBA bytes, four to a pixel, row by row from the top.
#[derive(Debug)]
pub struct Raster {
    pub width: u32,
    pub height: u32,
    pub data: Vec<u8>,
}

/// Why the pixels under a region could not be read from a `data:` URL.
#[derive(Debug, Clone, Copy, PartialEq, Eq, Structural)]
pub enum SampleError {
    /// The URL has no comma, so no payload.
    NoPayload,
    /// The payload is no standard base64.
    BadBase64,
    /// The bytes are no image that can be decoded.
    BadImage,
    /// The region reaches past the largest coordinate an `i32` can hold.
    OutOfRange,
}

/// The positions of a region can all be written as `i32`.
pub open spec fn samplable(roi: ROI) -> bool {
    roi.width > 0 && roi.height > 0 ==> roi.x + roi.width - 1 <= i32::MAX && roi.y + roi.height
        - 1 <= i32::MAX
}

/// A coordinate as the unsigned pixel index it is taken for: itself where
/// it is not negative, and `2^32` more where it is.
pub open spec fn as_index(v: int) -> int {
    if v >= 0 { v } else { v + 0x1_0000_0000 }
}

/// Whether the `image` crate decodes a file's bytes, and the width and
/// height of the image where it does: what `image::guess_format` followed by
/// `image::load_from_memory_with_format` makes of them. The pixel values
/// have no name: the decoders choose their code by the machine they run on.
pub uninterp spec fn decoded_size(bytes: Seq<u8>) -> Option<(u32, u32)>;

/// The size of the image in a file's bytes: the format from
/// `image::guess_format`, the image from
/// `image::load_from_memory_with_format`, its size from
/// `GenericImageView::dimensions`. These two steps are what
/// `image::load_from_memory` takes too, but they read none of the decoding
/// hooks that a process can register, so the outcome rests on the bytes
/// alone. Trusted: the outcome is the named size, `None` exactly where the
/// crate returns an error.
#[verifier::external_body]
fn decode_size(bytes: &[u8]) -> (size: Option<(u32, u32)>)
    ensures
        size == decoded_size(bytes@),
{
    match image::guess_format(bytes) {
        Ok(format) => match image::load_from_memory_with_format(bytes, format) {
            Ok(img) => Some(image::GenericImageView::dimensions(&img)),
            Err(_) => None,
        },
        Err(_) => None,
    }
}

/// The image in a file's bytes as RGBA: decoded as in `decode_size`,
/// converted with `DynamicImage::to_rgba8` and taken apart into width,
/// height and bytes. Trusted: the outcome is `None` exactly where the named
/// size is; else the width and height are the named size, and there are
/// four bytes for each pixel. Nothing is claimed of the bytes themselves.
#[verifier::external_body]
fn decode_rgba8(bytes: &[u8]) -> (parts: Option<(u32, u32, Vec<u8>)>)
    ensures
        match parts {
            Some((w, h, data)) => decoded_size(bytes@) == Some((w, h)) && data@.len() == 4 * w * h,
            None => decoded_size(bytes@) is None,
        },
{
    match image::guess_format(bytes) {
        Ok(format) => match image::load_from_memory_with_format(bytes, format) {
            Ok(img) => {
                let rgba = img.to_rgba8();
                Some((rgba.width(), rgba.height(), rgba.into_raw()))
            },
            Err(_) => None,
        },
        Err(_) => None,
    }
}

/// An image as a mathematical value: its size and its RGBA bytes.
pub ghost struct Pixmap {
    pub width: nat,
    pub height: nat,
    pub data: Seq<u8>,
}

impl View for Raster {
    type V = Pixmap;

    open spec fn view(&self) -> Pixmap {
        Pixmap { width: self.width as nat, height: self.height as nat, data: self.data@ }
    }
}

/// What reading the pixels under `roi` yields once the image is decoded,
/// or is known not to decode: no image is an error, and so is a region
/// whose positions leave `i32`; else the samples of the region.
pub open spec fn region_outcome(img: Option<Pixmap>, roi: ROI) -> Result<Seq<Sample>, SampleError> {
    match img {
        None => Err(SampleError::BadImage),
        Some(pixmap) => if samplable(roi) {
            Ok(pixmap.region_samples(roi, roi.height as int))
        } else {
            Err(SampleError::OutOfRange)
        },
    }
}

/// An outcome with its samples as a sequence.
pub open spec fn outcome_view(outcome: Result<Vec<Sample>, SampleError>) -> Result<
    Seq<Sample>,
    SampleError,
> {
    match outcome {
        Ok(samples) => Ok(samples@),
        Err(e) => Err(e),
    }
}

/// The image as a mathematical value, where there is one.
pub open spec fn pixmap_of(raster: Option<Raster>) -> Option<Pixmap> {
    match raster {
        Some(img) => Some(img@),
        None => None,
    }
}

impl Pixmap {
    /// There are exactly four bytes for each pixel.
    pub open spec fn wf(self) -> bool {
        self.data.len() == 4 * self.width * self.height
    }

    /// The pixel at column `x` of row `y`, where the image has one.
    pub open spec fn pixel(self, x: int, y: int) -> Option<Rgba> {
        if 0 <= x < self.width && 0 <= y < self.height {
            let i = 4 * (y * self.width + x);
            Some(
                Rgba {
                    r: self.data[i],
                    g: self.data[i + 1],
                    b: self.data[i + 2],
                    a: self.data[i + 3],
                },
            )
        } else {
            None
        }
    }

    /// The sample at the signed position `(px, py)`: the pixel at the
    /// unsigned indices that the two coordinates are taken for.
    pub open spec fn sample(self, px: int, py: int) -> Seq<Sample> {
        match self.pixel(as_index(px), as_index(py)) {
            Some(rgba) => seq![Sample { x: px as i32, y: py as i32, rgba }],
            None => Seq::empty(),
        }
    }

    /// The samples of the first `cols` positions of row `dy` of a region.
    pub open spec fn row_samples(self, roi: ROI, dy: int, cols: int) -> Seq<Sample>
        decreases cols,
    {
        if cols <= 0 {
            Seq::empty()
        } else {
            self.row_samples(roi, dy, cols - 1) + self.sample(roi.x + cols - 1, roi.y + dy)
        }
    }

    /// The samples of the first `rows` rows of a region, row by row and
    /// from left to right in each.
    pub open spec fn region_samples(self, roi: ROI, rows: int) -> Seq<Sample>
        decreases rows,
    {
        if rows <= 0 {
            Seq::empty()
        } else {
            self.region_samples(roi, rows - 1) + self.row_samples(roi, rows - 1, roi.width as int)
        }
    }


    /// `s` is a pixel of the image at a position of the region `roi`.
    pub open spec fn holds(self, roi: ROI, s: Sample) -> bool {
        &&& roi.contains(s.x as int, s.y as int)
        &&& self.pixel(as_index(s.x as int), as_index(s.y as int)) == Some(s.rgba)
    }

    /// Every sample of the first `cols` positions of a row of a region lies
    /// in that row, within those positions, and is the image's pixel there.
    pub proof fn lemma_row_samples(self, roi: ROI, dy: int, cols: int)
        requires
            samplable(roi),
            0 <= dy < roi.height,
            cols <= roi.width,
        ensures
            forall|i: int|
                0 <= i < self.row_samples(roi, dy, cols).len() ==> {
                    let s = #[trigger] self.row_samples(roi, dy, cols)[i];
                    &&& s.y == roi.y + dy
                    &&& roi.x <= s.x < roi.x + cols
                    &&& self.holds(roi, s)
                },
        decreases cols,
    {
        if cols > 0 {
            self.lemma_row_samples(roi, dy, cols - 1);
            let before = self.row_samples(roi, dy, cols - 1);
            let last = self.sample(roi.x + cols - 1, roi.y + dy);
            assert forall|i: int| 0 <= i < self.row_samples(roi, dy, cols).len() implies {
                let s = #[trigger] self.row_samples(roi, dy, cols)[i];
                &&& s.y == roi.y + dy
                &&& roi.x <= s.x < roi.x + cols
                &&& self.holds(roi, s)
            } by {
                if i < before.len() {
                    assert(self.row_samples(roi, dy, cols)[i] == before[i]);
                } else {
                    assert(self.row_samples(roi, dy, cols)[i] == last[i - before.len()]);
                }
            }
        }
    }

    /// Every sample of a region is a pixel of the image at a position of
    /// the region: nothing outside the region or outside the image is read.
    pub proof fn lemma_region_samples(self, roi: ROI, rows: int)
        requires
            samplable(roi),
            rows <= roi.height,
        ensures
            forall|i: int|
                0 <= i < self.region_samples(roi, rows).len() ==> self.holds(
                    roi,
                    #[trigger] self.region_samples(roi, rows)[i],
                ),
        decreases rows,
    {
        if rows > 0 {
            self.lemma_region_samples(roi, rows - 1);
            self.lemma_row_samples(roi, rows - 1, roi.width as int);
            let before = self.region_samples(roi, rows - 1);
            let row = self.row_samples(roi, rows - 1, roi.width as int);
            assert forall|i: int| 0 <= i < self.region_samples(roi, rows).len() implies self.holds(
                roi,
                #[trigger] self.region_samples(roi, rows)[i],
            ) by {
                if i < before.len() {
                    assert(self.region_samples(roi, rows)[i] == before[i]);
                } else {
                    assert(self.region_samples(roi, rows)[i] == row[i - before.len()]);
                }
            }
        }
    }
}

impl Raster {
    /// There are exactly four bytes for each pixel.
    pub open spec fn wf(self) -> bool {
        self@.wf()
    }

    /// An image of the given size over the given bytes, where there are
    /// four bytes for each pixel; `None` for any other number of bytes.
    pub fn from_parts(width: u32, height: u32, data: Vec<u8>) -> (raster: Option<Raster>)
        ensures
            match raster {
                Some(img) => {
                    &&& img.wf()
                    &&& img.width == width
                    &&& img.height == height
                    &&& img.data@ == data@
                },
                None => data@.len() != 4 * width * height,
            },
    {
        assert(0 <= width * height <= 0xFFFF_FFFF * 0xFFFF_FFFF) by (nonlinear_arith)
            requires
                0 <= width <= 0xFFFF_FFFF,
                0 <= height <= 0xFFFF_FFFF,
        ;
        let area: u128 = (width as u128) * (height as u128);
        let need: u128 = 4 * area;
        assert(need == 4 * width * height) by (nonlinear_arith)
            requires
                need == 4 * (width * height),
        ;
        if data.len() as u128 == need {
            Some(Raster { width, height, data })
        } else {
            None
        }
    }

    /// The pixel at column `x` of row `y`, or `None` outside the image.
    pub fn get_pixel_checked(&self, x: u32, y: u32) -> (found: Option<Rgba>)
        requires
            self.wf(),
        ensures
            found == self@.pixel(x as int, y as int),
    {
        if x >= self.width || y >= self.height {
            return None;
        }
        let len: usize = self.data.len();
        proof {
            lemma_pixel_offset(x as int, y as int, self.width as int, self.height as int);
            assert(4 * (self.width as int) * (self.height as int) == len);
        }
        let row: usize = y as usize * self.width as usize;
        let i: usize = 4 * (row + x as usize);
        Some(
            Rgba { r: self.data[i], g: self.data[i + 1], b: self.data[i + 2], a: self.data[i + 3] },
        )
    }

    /// The pixels of the image that lie under `roi`, each with its
    /// position, row by row. Positions outside the image are passed over.
    pub fn sample_region(&self, roi: &ROI) -> (samples: Vec<Sample>)
        requires
            self.wf(),
            samplable(*roi),
        ensures
            samples@ == self@.region_samples(*roi, roi.height as int),
    {
        let mut samples: Vec<Sample> = Vec::new();
        let mut dy: i32 = 0;
        while dy < roi.height
            invariant
                self.wf(),
                0 <= dy,
                roi.height > 0 ==> dy <= roi.height,
                roi.height <= 0 ==> dy == 0,
                samplable(*roi),
                samples@ == self@.region_samples(*roi, dy as int),
            decreases roi.height - dy,
        {
            let ghost before = samples@;
            let mut dx: i32 = 0;
            while dx < roi.width
                invariant
                    self.wf(),
                    0 <= dx,
                    roi.width > 0 ==> dx <= roi.width,
                    roi.width <= 0 ==> dx == 0,
                    0 <= dy < roi.height,
                    samplable(*roi),
                    samples@ == before + self@.row_samples(*roi, dy as int, dx as int),
                decreases roi.width - dx,
            {
                let px: i32 = roi.x + dx;
                let py: i32 = roi.y + dy;
                match self.get_pixel_checked(index_of(px), index_of(py)) {
                    Some(rgba) => {
                        samples.push(Sample { x: px, y: py, rgba });
                    },
                    None => {},
                }
                dx = dx + 1;
                assert(samples@ =~= before + self@.row_samples(*roi, dy as int, dx as int));
            }
            dy = dy + 1;
        }
        samples
    }
}

/// Whether the positions of a region can all be written as `i32`.
pub fn is_samplable(roi: &ROI) -> (can: bool)
    ensures
        can == samplable(*roi),
{
    let limit: i64 = i32::MAX as i64;
    roi.width <= 0 || roi.height <= 0 || (roi.x as i64 + roi.width as i64 - 1 <= limit
        && roi.y as i64 + roi.height as i64 - 1 <= limit)
}

/// The size of the image that a file's bytes decode to; `None` where the
/// bytes are no image that can be decoded.
pub fn image_size(bytes: &[u8]) -> (size: Option<(u32, u32)>)
    ensures
        size == decoded_size(bytes@),
{
    decode_size(bytes)
}

/// The size to draw an image at: the size that was read, or zero by zero
/// where none was.
pub fn size_or_zero(size: Option<(u32, u32)>) -> (drawn: (u32, u32))
    ensures
        drawn == match size {
            Some(s) => s,
            None => (0u32, 0u32),
        },
{
    match size {
        Some(s) => s,
        None => (0, 0),
    }
}

/// The unsigned pixel index that a signed coordinate is taken for.
pub fn index_of(v: i32) -> (i: u32)
    ensures
        i == as_index(v as int),
{
    if v >= 0 {
        v as u32
    } else {
        (v as i64 + 0x1_0000_0000) as u32
    }
}

/// The four bytes of a pixel inside the image lie inside its data.
proof fn lemma_pixel_offset(x: int, y: int, w: int, h: int)
    requires
        0 <= x < w,
        0 <= y < h,
    ensures
        0 <= 4 * (y * w + x),
        4 * (y * w + x) + 4 <= 4 * w * h,
        0 <= y * w,
        y * w + x < w * h,
        w * h <= 4 * w * h,
{
    assert(0 <= y * w) by (nonlinear_arith)
        requires
            0 <= y,
            0 <= w,
    ;
    assert((y + 1) * w <= h * w) by (nonlinear_arith)
        requires
            y + 1 <= h,
            0 <= w,
    ;
    assert((y + 1) * w == y * w + w) by (nonlinear_arith);
    assert(h * w == w * h) by (nonlinear_arith);
    assert(4 * w * h == 4 * (w * h)) by (nonlinear_arith);
    assert(0 <= w * h) by (nonlinear_arith)
        requires
            0 <= w,
            0 <= h,
    ;
}

/// Decodes the bytes of an image file: an image of the size that the
/// bytes decode to, and `None` exactly where they do not decode. The pixel
/// values are the decoder's; the image is well formed.
pub fn load_raster(bytes: &[u8]) -> (raster: Option<Raster>)
    ensures
        match raster {
            Some(img) => img.wf() && decoded_size(bytes@) == Some((img.width, img.height)),
            None => decoded_size(bytes@) is None,
        },
{
    match decode_rgba8(bytes) {
        Some((w, h, data)) => Raster::from_parts(w, h, data),
        None => None,
    }
}

/// Reads the pixels under `roi` from a decoded image, or from none: no
/// image is `BadImage`, a region whose positions leave `i32` is
/// `OutOfRange`, and any other region yields its samples.
pub fn sample_decoded(raster: &Option<Raster>, roi: &ROI) -> (outcome: Result<
    Vec<Sample>,
    SampleError,
>)
    requires
        raster matches Some(img) ==> img.wf(),
    ensures
        outcome_view(outcome) == region_outcome(pixmap_of(*raster), *roi),
{
    match raster {
        Some(img) => if is_samplable(roi) {
            Ok(img.sample_region(roi))
        } else {
            Err(SampleError::OutOfRange)
        },
        None => Err(SampleError::BadImage),
    }
}

/// Reads the pixels under `roi` from the image that a `data:` URL carries.
/// A URL without a payload and a payload that is no base64 are errors of
/// their own. Bytes that do not decode are `BadImage`. Bytes that decode
/// give what `sample_decoded` gives for an image of the decoded size:
/// `OutOfRange` or the samples of the region.
pub fn sample_from_url(url: &str, roi: &ROI) -> (outcome: Result<Vec<Sample>, SampleError>)
    ensures
        outcome == Err::<Vec<Sample>, SampleError>(SampleError::NoPayload) <==> payload_text(url@)
            is None,
        outcome == Err::<Vec<Sample>, SampleError>(SampleError::BadBase64) <==> (payload_text(
            url@,
        ) matches Some(p) && base64_standard_decoded(p) is None),
        match payload_text(url@) {
            Some(p) => match base64_standard_decoded(p) {
                Some(bytes) => match decoded_size(bytes) {
                    None => outcome == Err::<Vec<Sample>, SampleError>(SampleError::BadImage),
                    Some((w, h)) => exists|pixmap: Pixmap|
                        {
                            &&& pixmap.wf()
                            &&& pixmap.width == w
                            &&& pixmap.height == h
                            &&& outcome_view(outcome) == #[trigger] region_outcome(
                                Some(pixmap),
                                *roi,
                            )
                        },
                },
                None => true,
            },
            None => true,
        },
{
    match payload_of_checked(url) {
        Err(e) => Err(e),
        Ok(bytes) => {
            let raster = load_raster(bytes.as_slice());
            let outcome = sample_decoded(&raster, roi);
            proof {
                match raster {
                    Some(img) => {
                        let pixmap = img@;
                        assert(pixmap.wf());
                        assert(pixmap.width == img.width && pixmap.height == img.height);
                        assert(outcome_view(outcome) == region_outcome(Some(pixmap), *roi));
                    },
                    None => {
                        assert(outcome_view(outcome) == region_outcome(None, *roi));
                        assert(outcome is Err);
                    },
                }
            }
            outcome
        },
    }
}

/// The bytes that a `data:` URL carries, or why there are none.
pub fn payload_of_checked(url: &str) -> (outcome: Result<Vec<u8>, SampleError>)
    ensures
        match outcome {
            Ok(bytes) => payload_text(url@) matches Some(p) && base64_standard_decoded(p) == Some(
                bytes@,
            ),
            Err(e) => match payload_text(url@) {
                Some(p) => e == SampleError::BadBase64 && base64_standard_decoded(p) is None,
                None => e == SampleError::NoPayload,
            },
        },
{
    match payload_of(url) {
        Some(p) => match payload_bytes_of(p) {
            Some(b) => Ok(b),
            None => Err(SampleError::BadBase64),
        },
        None => Err(SampleError::NoPayload),
    }
}

} // verus!
