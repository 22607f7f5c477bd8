//! An image on show and the transforms that can be applied to it.

use vstd::prelude::*;
use crate::media::{
    base64_standard, data_url, data_url_text, encodable, image_data_url, media_type,
};
use crate::roi::ROI;

verus! {

/// The side of the square over which a blur averages.
pub const BLUR_KERNEL: i32 = 15;

/// The width and height that a resize gives.
pub const RESIZE_SIDE: i32 = 200;

/// The lower threshold of the edge detector.
pub const EDGE_LOW: i32 = 100;

/// The upper threshold of the edge detector.
pub const EDGE_HIGH: i32 = 200;

/// The aperture of the edge detector's gradient.
pub const EDGE_APERTURE: i32 = 3;

/// A transform of the image on show.
#[derive(Debug, Clone, Copy, PartialEq, Eq, Structural)]
pub enum Transform {
    Blur,
    Resize,
    Grayscale,
    Invert,
    EdgeDetect,
    Rotate90,
    Crop,
}

/// The region that a crop cuts out: 100 by 100 pixels at `(50, 50)`.
pub open spec fn crop_box() -> ROI {
    ROI { x: 50, y: 50, width: 100, height: 100 }
}

/// The region that a crop cuts out.
pub fn crop_region() -> (roi: ROI)
    ensures
        roi == crop_box(),
{
    ROI { x: 50, y: 50, width: 100, height: 100 }
}

impl Transform {
    /// Whether the result of the transform becomes the image that later
    /// transforms start from. Only a rotation does: every other transform
    /// is shown and the source stays.
    pub open spec fn chains(self) -> bool {
        self == Transform::Rotate90
    }

    /// Whether the result becomes the source of later transforms.
    pub fn replaces_source(self) -> (replaces: bool)
        ensures
            replaces == self.chains(),
    {
        match self {
            Transform::Rotate90 => true,
            _ => false,
        }
    }
}

/// The image on show: the URL that displays it and the bytes that
/// transforms start from.
#[derive(Debug)]
pub struct Viewer {
    pub image_data_url: Option<String>,
    pub original_image_bytes: Option<Vec<u8>>,
}

impl Viewer {
    /// A viewer that shows nothing.
    pub fn new() -> (viewer: Viewer)
        ensures
            viewer.image_data_url is None,
            viewer.original_image_bytes is None,
    {
        Viewer { image_data_url: None, original_image_bytes: None }
    }

    /// Shows the bytes of a file with the given extension and makes them
    /// the source of transforms.
    pub fn load(&mut self, ext: Option<&str>, bytes: Vec<u8>)
        requires
            encodable(bytes@.len()),
        ensures
            final(self).image_data_url matches Some(url) && url@ == data_url_text(
                media_type(
                    match ext {
                        Some(e) => Some(e@),
                        None => None,
                    },
                ),
                base64_standard(bytes@),
            ),
            final(self).original_image_bytes matches Some(source) && source@ == bytes@,
    {
        let url = image_data_url(ext, bytes.as_slice());
        self.image_data_url = Some(url);
        self.original_image_bytes = Some(bytes);
    }

    /// Shows the PNG bytes that a transform produced. After a rotation
    /// they are also the source of later transforms; after any other
    /// transform the source stays.
    pub fn show(&mut self, transform: Transform, png: Vec<u8>)
        requires
            encodable(png@.len()),
        ensures
            final(self).image_data_url matches Some(url) && url@ == data_url_text(
                "image/png"@,
                base64_standard(png@),
            ),
            transform.chains() ==> (final(self).original_image_bytes matches Some(source)
                && source@ == png@),
            !transform.chains() ==> final(self).original_image_bytes == old(
                self,
            ).original_image_bytes,
    {
        let url = data_url("image/png", png.as_slice());
        self.image_data_url = Some(url);
        if transform.replaces_source() {
            self.original_image_bytes = Some(png);
        }
    }
}

} // verus!
