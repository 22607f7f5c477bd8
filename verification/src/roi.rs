//! The region type, point containment and removal of the region under a point.

use vstd::prelude::*;

verus! {

/// An axis-aligned rectangle in image pixels: the top-left corner and the
/// extent to the right and downwards.
#[derive(Debug, Clone, Copy, PartialEq, Eq, Structural)]
pub struct ROI {
    pub x: i32,
    pub y: i32,
    pub width: i32,
    pub height: i32,
}

/// Whether `v` can be held in an `i32`.
pub open spec fn fits_i32(v: int) -> bool {
    i32::MIN <= v <= i32::MAX
}

impl ROI {
    /// The pixel `(x, y)` lies in the half-open rectangle
    /// `[self.x, self.x + self.width) x [self.y, self.y + self.height)`.
    /// A region of width or height zero or less contains nothing.
    pub open spec fn contains(self, x: int, y: int) -> bool {
        &&& self.x <= x < self.x + self.width
        &&& self.y <= y < self.y + self.height
    }

    /// The region lies inside an image of the given size.
    pub open spec fn within(self, img_w: int, img_h: int) -> bool {
        &&& 0 <= self.x
        &&& self.x + self.width <= img_w
        &&& 0 <= self.y
        &&& self.y + self.height <= img_h
    }

    /// The region with the given corner and extent, each of which fits an `i32`.
    pub open spec fn at(x: int, y: int, width: int, height: int) -> ROI
        recommends
            fits_i32(x),
            fits_i32(y),
            fits_i32(width),
            fits_i32(height),
    {
        ROI { x: x as i32, y: y as i32, width: width as i32, height: height as i32 }
    }
}

/// `i` is the first region of `rois` that contains `(x, y)`.
pub open spec fn is_first_hit(rois: Seq<ROI>, x: int, y: int, i: int) -> bool {
    &&& 0 <= i < rois.len()
    &&& rois[i].contains(x, y)
    &&& forall|j: int| 0 <= j < i ==> !(#[trigger] rois[j]).contains(x, y)
}

/// No region of `rois` contains `(x, y)`.
pub open spec fn no_hit(rois: Seq<ROI>, x: int, y: int) -> bool {
    forall|j: int| 0 <= j < rois.len() ==> !(#[trigger] rois[j]).contains(x, y)
}

/// The first region of `rois` that contains `(x, y)`, if there is one.
pub open spec fn hit_region(rois: Seq<ROI>, x: int, y: int) -> Option<ROI>
    decreases rois.len(),
{
    if rois.len() == 0 {
        None
    } else if rois[0].contains(x, y) {
        Some(rois[0])
    } else {
        hit_region(rois.drop_first(), x, y)
    }
}

/// What is left of `rois` once the first region under `(x, y)` is taken out:
/// all of it where no region is hit.
pub open spec fn without_first_hit(rois: Seq<ROI>, x: int, y: int) -> Seq<ROI>
    decreases rois.len(),
{
    if rois.len() == 0 {
        rois
    } else if rois[0].contains(x, y) {
        rois.drop_first()
    } else {
        seq![rois[0]] + without_first_hit(rois.drop_first(), x, y)
    }
}

/// Point containment. The sums are taken in 64 bits, so the answer is the
/// mathematical one for every region, also one that reaches past `i32::MAX`.
pub fn point_in_roi(x: i32, y: i32, roi: &ROI) -> (inside: bool)
    ensures
        inside == roi.contains(x as int, y as int),
{
    let right: i64 = roi.x as i64 + roi.width as i64;
    let bottom: i64 = roi.y as i64 + roi.height as i64;
    x >= roi.x && y >= roi.y && (x as i64) < right && (y as i64) < bottom
}

/// The index of the first region that contains `(x, y)`, if there is one.
pub fn first_hit(rois: &Vec<ROI>, x: i32, y: i32) -> (hit: Option<usize>)
    ensures
        match hit {
            Some(i) => is_first_hit(rois@, x as int, y as int, i as int),
            None => no_hit(rois@, x as int, y as int),
        },
{
    let mut i: usize = 0;
    while i < rois.len()
        invariant
            i <= rois.len(),
            forall|j: int| 0 <= j < i ==> !(#[trigger] rois@[j]).contains(x as int, y as int),
        decreases rois.len() - i,
    {
        if point_in_roi(x, y, &rois[i]) {
            return Some(i);
        }
        i += 1;
    }
    None
}

/// Taking out index `i`, the first hit, is what `without_first_hit` describes.
pub proof fn lemma_without_first_hit(rois: Seq<ROI>, x: int, y: int, i: int)
    requires
        is_first_hit(rois, x, y, i),
    ensures
        without_first_hit(rois, x, y) == rois.remove(i),
        hit_region(rois, x, y) == Some(rois[i]),
    decreases rois.len(),
{
    if i == 0 {
        assert(rois.drop_first() =~= rois.remove(0));
    } else {
        let rest = rois.drop_first();
        assert(is_first_hit(rest, x, y, i - 1)) by {
            assert(rest[i - 1] == rois[i]);
            assert forall|j: int| 0 <= j < i - 1 implies !(#[trigger] rest[j]).contains(x, y) by {
                assert(rest[j] == rois[j + 1]);
            }
        }
        lemma_without_first_hit(rest, x, y, i - 1);
        assert(seq![rois[0]] + rest.remove(i - 1) =~= rois.remove(i));
    }
}

/// Where nothing is hit, nothing is taken out.
pub proof fn lemma_without_no_hit(rois: Seq<ROI>, x: int, y: int)
    requires
        no_hit(rois, x, y),
    ensures
        without_first_hit(rois, x, y) == rois,
        hit_region(rois, x, y) is None,
    decreases rois.len(),
{
    if rois.len() > 0 {
        let rest = rois.drop_first();
        assert(!rois[0].contains(x, y));
        assert(no_hit(rest, x, y)) by {
            assert forall|j: int| 0 <= j < rest.len() implies !(#[trigger] rest[j]).contains(x, y) by {
                assert(rest[j] == rois[j + 1]);
            }
        }
        lemma_without_no_hit(rest, x, y);
        assert(seq![rois[0]] + rest =~= rois);
    }
}

/// Removes the first region that contains `(x, y)` and returns it; leaves
/// `rois` as it is, and returns `None`, where no region contains the point.
pub fn remove_first_hit(rois: &mut Vec<ROI>, x: i32, y: i32) -> (removed: Option<ROI>)
    ensures
        final(rois)@ == without_first_hit(old(rois)@, x as int, y as int),
        removed == hit_region(old(rois)@, x as int, y as int),
        match removed {
            Some(roi) => exists|i: int|
                is_first_hit(old(rois)@, x as int, y as int, i) && old(rois)@[i] == roi
                    && final(rois)@ == old(rois)@.remove(i),
            None => no_hit(old(rois)@, x as int, y as int) && final(rois)@ == old(rois)@,
        },
{
    match first_hit(rois, x, y) {
        Some(i) => {
            proof {
                lemma_without_first_hit(rois@, x as int, y as int, i as int);
            }
            let roi = rois.remove(i);
            Some(roi)
        },
        None => {
            proof {
                lemma_without_no_hit(rois@, x as int, y as int);
            }
            None
        },
    }
}

} // verus!
