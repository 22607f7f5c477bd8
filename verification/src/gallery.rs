//! The image files of a folder: which files count as images, which of
//! them is shown, and how an image is prepared for reading its pixels.

use vstd::prelude::*;
use crate::media::same_text;

verus! {

/// The lower-case form of a text: what `str::to_lowercase` makes of it.
pub uninterp spec fn lowercased(text: Seq<char>) -> Seq<char>;

/// Lower-cases with `str::to_lowercase`. Trusted: the result is the named
/// lower-case form of the text.
#[verifier::external_body]
fn lowercase(text: &str) -> (lower: String)
    ensures
        lower@ == lowercased(text@),
{
    text.to_lowercase()
}

/// One of the extensions of an image file: `png`, `jpg`, `jpeg`, `webp`.
pub open spec fn listed_extension(ext: Seq<char>) -> bool {
    ext == "png"@ || ext == "jpg"@ || ext == "jpeg"@ || ext == "webp"@
}

/// Whether `ext`, as it stands, is one of the four image extensions.
pub fn is_listed_extension(ext: &str) -> (listed: bool)
    ensures
        listed == listed_extension(ext@),
{
    same_text(ext, "png") || same_text(ext, "jpg") || same_text(ext, "jpeg") || same_text(
        ext,
        "webp",
    )
}

/// Whether a file with this extension is listed as an image: its
/// extension, in lower case, is one of the four. A file without an
/// extension is none.
pub fn is_image_extension(ext: Option<&str>) -> (listed: bool)
    ensures
        listed == listed_extension(
            lowercased(
                match ext {
                    Some(e) => e@,
                    None => ""@,
                },
            ),
        ),
{
    let lower = match ext {
        Some(e) => lowercase(e),
        None => lowercase(""),
    };
    is_listed_extension(lower.as_str())
}

/// How an image is converted before its pixels are read.
#[derive(Debug, Clone, Copy, PartialEq, Eq, Structural)]
pub enum Conversion {
    /// The image stays as it was decoded.
    Keep,
    /// One grey channel.
    Gray,
    /// Red, green, blue in that order.
    Rgb,
}

/// The conversion that the sampling switches ask for: none outside
/// sampling mode; in it grey where grey is on, else RGB where RGB is on.
pub open spec fn conversion(sampling: bool, gray: bool, rgb: bool) -> Conversion {
    if !sampling {
        Conversion::Keep
    } else if gray {
        Conversion::Gray
    } else if rgb {
        Conversion::Rgb
    } else {
        Conversion::Keep
    }
}

/// The conversion that the sampling switches ask for.
pub fn conversion_for(sampling: bool, gray: bool, rgb: bool) -> (c: Conversion)
    ensures
        c == conversion(sampling, gray, rgb),
{
    if sampling {
        if gray {
            Conversion::Gray
        } else if rgb {
            Conversion::Rgb
        } else {
            Conversion::Keep
        }
    } else {
        Conversion::Keep
    }
}

/// A position in a list of `len` images.
#[derive(Debug, Clone, Copy, PartialEq, Eq, Structural)]
pub struct Cursor {
    pub len: usize,
    pub index: usize,
}

impl Cursor {
    /// A cursor on the image that was picked, or on the first where the
    /// picked one is not in the list.
    pub fn at(len: usize, found: Option<usize>) -> (cursor: Cursor)
        ensures
            cursor.len == len,
            cursor.index == match found {
                Some(i) => i,
                None => 0,
            },
    {
        Cursor {
            len,
            index: match found {
                Some(i) => i,
                None => 0,
            },
        }
    }

    /// There is no image before this one.
    pub fn at_start(&self) -> (first: bool)
        ensures
            first == (self.index == 0),
    {
        self.index == 0
    }

    /// There is no image after this one.
    pub fn at_end(&self) -> (last: bool)
        ensures
            last == (self.index + 1 >= self.len),
    {
        self.index >= self.len || self.index + 1 >= self.len
    }

    /// Steps to the image before and returns its index; stays, and returns
    /// `None`, on the first.
    pub fn back(&mut self) -> (shown: Option<usize>)
        ensures
            final(self).len == old(self).len,
            old(self).index > 0 ==> final(self).index == old(self).index - 1 && shown == Some(
                final(self).index,
            ),
            old(self).index == 0 ==> final(self).index == 0 && shown is None,
    {
        if self.index > 0 {
            self.index = self.index - 1;
            Some(self.index)
        } else {
            None
        }
    }

    /// Steps to the image after and returns its index; stays, and returns
    /// `None`, on the last.
    pub fn forward(&mut self) -> (shown: Option<usize>)
        ensures
            final(self).len == old(self).len,
            old(self).index + 1 < old(self).len ==> final(self).index == old(self).index + 1
                && shown == Some(final(self).index),
            old(self).index + 1 >= old(self).len ==> final(self).index == old(self).index
                && shown is None,
    {
        if self.index < self.len && self.index + 1 < self.len {
            self.index = self.index + 1;
            Some(self.index)
        } else {
            None
        }
    }
}

} // verus!
