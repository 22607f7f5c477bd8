//! Rectangular regions of interest on an image: hit testing, the rules by
//! which pointer gestures place and remove regions, the pixels a region
//! covers, and the `data:` URL under which an image is shown.

pub mod editor;
pub mod place;
pub mod roi;
pub mod stamp;
pub mod media;
pub mod pixels;
pub mod gallery;
pub mod viewer;
pub mod probe;
