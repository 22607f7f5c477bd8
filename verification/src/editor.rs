//! The state of a region editor and what each pointer gesture does to it.
//!
//! An editor holds the regions drawn so far and, while a drag goes on, its
//! two ends. The caller turns screen positions into image pixels, hands
//! each gesture to the editor, and draws what the editor then holds.

use vstd::prelude::*;
use crate::place::{
    box_at_click, box_of_drag, box_of_drag_min_one, box_of_drag_padded, centred_origin, clamp_to,
    clamped, click_box, click_in_range, drag_box, drag_box_min_one, drag_box_padded, drag_fits,
    drag_in_range, has_room, held_origin, last_index, last_index_of, lower, lower_of,
    origin_held, origin_of_stamp, padded_fits, padded_in_range, side_has_room, span, span_of,
    stamp_fits, stamp_in_range, stamp_origin,
};
use crate::roi::{hit_region, remove_first_hit, without_first_hit, ROI};
use crate::stamp::StampSize;

verus! {

/// What a gesture did to the regions.
#[derive(Debug, Clone, Copy, PartialEq, Eq, Structural)]
pub enum Change {
    /// The regions are as they were.
    Unchanged,
    /// This region was added at the end.
    Placed(ROI),
    /// This region was taken out.
    Removed(ROI),
}

/// The change that removing the first region under `(x, y)` makes.
pub open spec fn removal(rois: Seq<ROI>, x: int, y: int) -> Change {
    match hit_region(rois, x, y) {
        Some(roi) => Change::Removed(roi),
        None => Change::Unchanged,
    }
}

/// The regions on an image and the drag in progress, if any.
#[derive(Debug)]
pub struct Editor {
    /// The regions, in the order in which they were placed.
    pub rois: Vec<ROI>,
    /// Where the button went down.
    pub drag_start: Option<(i32, i32)>,
    /// Where the pointer is now.
    pub drag_current: Option<(i32, i32)>,
}

impl Editor {
    /// The two ends of the drag, where both are known.
    pub open spec fn drag(self) -> Option<((i32, i32), (i32, i32))> {
        match (self.drag_start, self.drag_current) {
            (Some(start), Some(end)) => Some((start, end)),
            _ => None,
        }
    }

    /// The same drag state as `other`.
    pub open spec fn same_drag(self, other: Editor) -> bool {
        self.drag_start == other.drag_start && self.drag_current == other.drag_current
    }

    /// Both ends of a drag are known, or neither is.
    pub open spec fn consistent(self) -> bool {
        self.drag_start is Some <==> self.drag_current is Some
    }

    /// No drag is going on.
    pub open spec fn idle(self) -> bool {
        self.drag_start is None && self.drag_current is None
    }

    /// `(x, y)` is a pixel of an image of the given size.
    pub open spec fn on_image(x: int, y: int, img_w: int, img_h: int) -> bool {
        0 <= x < img_w && 0 <= y < img_h
    }

    /// The rectangle of the drag in progress, if any, fits an `i32`.
    pub open spec fn drag_in_range(self) -> bool {
        self.drag() matches Some((start, end)) ==> drag_in_range(start, end)
    }

    /// The padded rectangle of the drag in progress, if any, fits an `i32`.
    pub open spec fn padded_in_range(self) -> bool {
        self.drag() matches Some((start, end)) ==> padded_in_range(start, end)
    }

    /// A stamp of the given size can be placed at `(x, y)` on an image of
    /// the given size.
    pub open spec fn stamp_in_range(x: int, y: int, size: StampSize, img_w: int, img_h: int) -> bool {
        &&& stamp_in_range(x, size.width as int, img_w)
        &&& stamp_in_range(y, size.height as int, img_h)
    }

    /// The drag in progress, if any, can be released on an image of the
    /// given size: its rectangle fits an `i32`, the image has a pixel, and
    /// a rectangle that is to be placed has room in the image.
    pub open spec fn held_in_range(self, shift: bool, img_w: int, img_h: int) -> bool {
        match self.drag() {
            Some((start, end)) => {
                let w = span(start.0 as int, end.0 as int);
                let h = span(start.1 as int, end.1 as int);
                &&& drag_in_range(start, end)
                &&& has_room(1, img_w)
                &&& has_room(1, img_h)
                &&& (!shift && w > 0 && h > 0) ==> has_room(w, img_w) && has_room(h, img_h)
            },
            None => true,
        }
    }

    /// The region that a drag from `start` to `end` leaves on an image of
    /// the given size once it is moved to lie inside the image.
    pub open spec fn held_box(start: (i32, i32), end: (i32, i32), img_w: int, img_h: int) -> ROI {
        let w = span(start.0 as int, end.0 as int);
        let h = span(start.1 as int, end.1 as int);
        ROI::at(
            held_origin(lower(start.0 as int, end.0 as int), w, img_w),
            held_origin(lower(start.1 as int, end.1 as int), h, img_h),
            w,
            h,
        )
    }

    /// The stamp of the given size centred on `(x, y)` and held inside the image.
    pub open spec fn stamp_box(x: int, y: int, size: StampSize, img_w: int, img_h: int) -> ROI {
        ROI::at(
            stamp_origin(x, size.width as int, img_w),
            stamp_origin(y, size.height as int, img_h),
            size.width as int,
            size.height as int,
        )
    }

    /// The stamp of the given size centred on `(x, y)`.
    pub open spec fn centred_box(x: int, y: int, size: StampSize) -> ROI {
        ROI::at(
            centred_origin(x, size.width as int),
            centred_origin(y, size.height as int),
            size.width as int,
            size.height as int,
        )
    }

    /// An editor with no region and no drag.
    pub fn new() -> (editor: Editor)
        ensures
            editor.rois@ == Seq::<ROI>::empty(),
            editor.idle(),
            editor.consistent(),
    {
        Editor { rois: Vec::new(), drag_start: None, drag_current: None }
    }

    /// Forgets every region, as when another image is shown. A drag in
    /// progress goes on.
    pub fn clear(&mut self)
        ensures
            final(self).rois@ == Seq::<ROI>::empty(),
            final(self).same_drag(*old(self)),
    {
        self.rois.clear();
    }

    /// Whether `preview` and `release_min_one` can be called.
    pub fn can_release(&self) -> (can: bool)
        ensures
            can == self.drag_in_range(),
    {
        match (self.drag_start, self.drag_current) {
            (Some(start), Some(end)) => drag_fits(start, end),
            _ => true,
        }
    }

    /// Whether `release_padded` can be called.
    pub fn can_release_padded(&self) -> (can: bool)
        ensures
            can == self.padded_in_range(),
    {
        match (self.drag_start, self.drag_current) {
            (Some(start), Some(end)) => padded_fits(start, end),
            _ => true,
        }
    }

    /// Whether `stamp` can be called with these arguments.
    pub fn can_stamp(x: i32, y: i32, size: &StampSize, img_w: i32, img_h: i32) -> (can: bool)
        requires
            size.wf(),
        ensures
            can == Self::stamp_in_range(x as int, y as int, *size, img_w as int, img_h as int),
    {
        stamp_fits(x, size.width, img_w) && stamp_fits(y, size.height, img_h)
    }

    /// Whether `release_held` can be called with these arguments in
    /// dragging mode.
    pub fn can_release_held(&self, shift: bool, img_w: i32, img_h: i32) -> (can: bool)
        ensures
            can == self.held_in_range(shift, img_w as int, img_h as int),
    {
        match (self.drag_start, self.drag_current) {
            (Some(start), Some(end)) => {
                if !drag_fits(start, end) {
                    return false;
                }
                let w: i32 = span_of(start.0, end.0);
                let h: i32 = span_of(start.1, end.1);
                side_has_room(1, img_w) && side_has_room(1, img_h) && (shift || w <= 0 || h <= 0
                    || (side_has_room(w, img_w) && side_has_room(h, img_h)))
            },
            _ => true,
        }
    }

    /// A click at `(x, y)` places a box of side 20 around it.
    pub fn click(&mut self, x: i32, y: i32)
        requires
            click_in_range(x as int, y as int),
        ensures
            final(self).rois@ == old(self).rois@.push(click_box(x as int, y as int)),
            final(self).same_drag(*old(self)),
    {
        self.rois.push(box_at_click(x, y));
    }

    /// The button goes down at `(x, y)`. With shift held the first region
    /// under the pointer is removed and no drag begins; without it a drag
    /// begins there.
    pub fn press(&mut self, x: i32, y: i32, shift: bool) -> (removed: Option<ROI>)
        ensures
            shift ==> {
                &&& final(self).rois@ == without_first_hit(old(self).rois@, x as int, y as int)
                &&& final(self).same_drag(*old(self))
                &&& removed == hit_region(old(self).rois@, x as int, y as int)
            },
            !shift ==> {
                &&& final(self).rois@ == old(self).rois@
                &&& final(self).drag_start == Some((x, y))
                &&& final(self).drag_current == Some((x, y))
                &&& removed is None
            },
            old(self).consistent() ==> final(self).consistent(),
    {
        if shift {
            remove_first_hit(&mut self.rois, x, y)
        } else {
            self.drag_start = Some((x, y));
            self.drag_current = Some((x, y));
            None
        }
    }

    /// The pointer moves to `(x, y)`: the moving end of a drag follows it.
    /// Nothing changes where no drag has begun.
    pub fn drag_to(&mut self, x: i32, y: i32)
        ensures
            final(self).rois@ == old(self).rois@,
            final(self).drag_start == old(self).drag_start,
            final(self).drag_current == if old(self).drag_start is Some {
                Some((x, y))
            } else {
                old(self).drag_current
            },
            old(self).consistent() ==> final(self).consistent(),
    {
        if self.drag_start.is_some() {
            self.drag_current = Some((x, y));
        }
    }

    /// The rectangle to draw while a drag goes on.
    pub fn preview(&self) -> (shown: Option<ROI>)
        requires
            self.drag_in_range(),
        ensures
            shown == match self.drag() {
                Some((start, end)) => Some(drag_box(start, end)),
                None => None,
            },
    {
        match (self.drag_start, self.drag_current) {
            (Some(start), Some(end)) => Some(box_of_drag(start, end)),
            _ => None,
        }
    }

    /// The button comes up: the drag ends and leaves its padded rectangle,
    /// which is returned.
    pub fn release_padded(&mut self) -> (placed: Option<ROI>)
        requires
            old(self).padded_in_range(),
        ensures
            final(self).idle(),
            match old(self).drag() {
                Some((start, end)) => {
                    &&& placed == Some(drag_box_padded(start, end))
                    &&& final(self).rois@ == old(self).rois@.push(drag_box_padded(start, end))
                },
                None => placed is None && final(self).rois@ == old(self).rois@,
            },
    {
        let placed = match (self.drag_start, self.drag_current) {
            (Some(start), Some(end)) => {
                let roi = box_of_drag_padded(start, end);
                self.rois.push(roi);
                Some(roi)
            },
            _ => None,
        };
        self.drag_start = None;
        self.drag_current = None;
        placed
    }

    /// The button comes up: the drag ends and leaves its rectangle, no side
    /// shorter than one, which is returned.
    pub fn release_min_one(&mut self) -> (placed: Option<ROI>)
        requires
            old(self).drag_in_range(),
        ensures
            final(self).idle(),
            match old(self).drag() {
                Some((start, end)) => {
                    &&& placed == Some(drag_box_min_one(start, end))
                    &&& final(self).rois@ == old(self).rois@.push(drag_box_min_one(start, end))
                },
                None => placed is None && final(self).rois@ == old(self).rois@,
            },
    {
        let placed = match (self.drag_start, self.drag_current) {
            (Some(start), Some(end)) => {
                let roi = box_of_drag_min_one(start, end);
                self.rois.push(roi);
                Some(roi)
            },
            _ => None,
        };
        self.drag_start = None;
        self.drag_current = None;
        placed
    }

    /// The button goes down at `(x, y)` on an image of the given size: a
    /// stamp centred there and held inside the image is placed, or, with
    /// shift held, the first region under the pointer is removed.
    pub fn stamp(
        &mut self,
        x: i32,
        y: i32,
        shift: bool,
        size: &StampSize,
        img_w: i32,
        img_h: i32,
    ) -> (change: Change)
        requires
            size.wf(),
            Self::stamp_in_range(x as int, y as int, *size, img_w as int, img_h as int),
        ensures
            final(self).same_drag(*old(self)),
            shift ==> {
                &&& final(self).rois@ == without_first_hit(old(self).rois@, x as int, y as int)
                &&& change == removal(old(self).rois@, x as int, y as int)
            },
            !shift ==> {
                &&& final(self).rois@ == old(self).rois@.push(
                    Self::stamp_box(x as int, y as int, *size, img_w as int, img_h as int),
                )
                &&& change == Change::Placed(
                    Self::stamp_box(x as int, y as int, *size, img_w as int, img_h as int),
                )
                &&& Self::stamp_box(x as int, y as int, *size, img_w as int, img_h as int).within(
                    img_w as int,
                    img_h as int,
                )
            },
    {
        let left: i32 = origin_of_stamp(x, size.width, img_w);
        let top: i32 = origin_of_stamp(y, size.height, img_h);
        if shift {
            match remove_first_hit(&mut self.rois, x, y) {
                Some(roi) => Change::Removed(roi),
                None => Change::Unchanged,
            }
        } else {
            let roi = ROI { x: left, y: top, width: size.width, height: size.height };
            self.rois.push(roi);
            Change::Placed(roi)
        }
    }

    /// The button goes down at `(x, y)` in an editor that can stamp or drag.
    /// Outside the image nothing happens. In stamping mode a stamp centred
    /// on the pointer is placed, or with shift held the first region under
    /// the pointer is removed; either way the area of the stamp's size that
    /// begins at the pointer is returned, for the caller to read its
    /// pixels. In dragging mode a drag begins.
    pub fn press_on_image(
        &mut self,
        x: i32,
        y: i32,
        shift: bool,
        stamping: bool,
        size: &StampSize,
        img_w: i32,
        img_h: i32,
    ) -> (probe: Option<ROI>)
        requires
            size.wf(),
        ensures
            !Self::on_image(x as int, y as int, img_w as int, img_h as int) ==> {
                &&& *final(self) == *old(self)
                &&& probe is None
            },
            Self::on_image(x as int, y as int, img_w as int, img_h as int) && stamping ==> {
                &&& final(self).same_drag(*old(self))
                &&& shift ==> final(self).rois@ == without_first_hit(
                    old(self).rois@,
                    x as int,
                    y as int,
                )
                &&& !shift ==> final(self).rois@ == old(self).rois@.push(
                    Self::centred_box(x as int, y as int, *size),
                )
                &&& probe == Some(
                    ROI::at(x as int, y as int, size.width as int, size.height as int),
                )
            },
            Self::on_image(x as int, y as int, img_w as int, img_h as int) && !stamping ==> {
                &&& final(self).rois@ == old(self).rois@
                &&& final(self).drag_start == Some((x, y))
                &&& final(self).drag_current == Some((x, y))
                &&& probe is None
            },
            old(self).consistent() ==> final(self).consistent(),
    {
        if x >= 0 && y >= 0 && x < img_w && y < img_h {
            if stamping {
                if shift {
                    let _ = remove_first_hit(&mut self.rois, x, y);
                } else {
                    self.rois.push(
                        ROI {
                            x: x - size.width / 2,
                            y: y - size.height / 2,
                            width: size.width,
                            height: size.height,
                        },
                    );
                }
                Some(ROI { x, y, width: size.width, height: size.height })
            } else {
                self.drag_start = Some((x, y));
                self.drag_current = Some((x, y));
                None
            }
        } else {
            None
        }
    }

    /// The button comes up in an editor that can stamp or drag. The drag
    /// ends. In stamping mode nothing else happens. In dragging mode, with
    /// shift held, the first region under the drag's top-left corner, held
    /// inside the image, is removed; without shift a drag of positive width
    /// and height leaves its rectangle, moved to lie inside the image,
    /// which is returned.
    pub fn release_held(&mut self, shift: bool, stamping: bool, img_w: i32, img_h: i32) -> (placed:
        Option<ROI>)
        requires
            !stamping ==> old(self).held_in_range(shift, img_w as int, img_h as int),
        ensures
            final(self).idle(),
            match old(self).drag() {
                Some((start, end)) if !stamping => {
                    let w = span(start.0 as int, end.0 as int);
                    let h = span(start.1 as int, end.1 as int);
                    if shift {
                        &&& placed is None
                        &&& final(self).rois@ == without_first_hit(
                            old(self).rois@,
                            clamped(lower(start.0 as int, end.0 as int), 0, last_index(img_w as int)),
                            clamped(lower(start.1 as int, end.1 as int), 0, last_index(img_h as int)),
                        )
                    } else if w > 0 && h > 0 {
                        &&& placed == Some(Self::held_box(start, end, img_w as int, img_h as int))
                        &&& final(self).rois@ == old(self).rois@.push(
                            Self::held_box(start, end, img_w as int, img_h as int),
                        )
                        &&& Self::held_box(start, end, img_w as int, img_h as int).within(
                            img_w as int,
                            img_h as int,
                        )
                    } else {
                        placed is None && final(self).rois@ == old(self).rois@
                    }
                },
                _ => placed is None && final(self).rois@ == old(self).rois@,
            },
    {
        let mut placed: Option<ROI> = None;
        if !stamping {
            match (self.drag_start, self.drag_current) {
                (Some(start), Some(end)) => {
                    let x: i32 = lower_of(start.0, end.0);
                    let y: i32 = lower_of(start.1, end.1);
                    let w: i32 = span_of(start.0, end.0);
                    let h: i32 = span_of(start.1, end.1);
                    let max_x: i32 = last_index_of(img_w);
                    let max_y: i32 = last_index_of(img_h);
                    let corner_x: i32 = clamp_to(x, 0, max_x);
                    let corner_y: i32 = clamp_to(y, 0, max_y);
                    if shift {
                        let _ = remove_first_hit(&mut self.rois, corner_x, corner_y);
                    } else if w > 0 && h > 0 {
                        let roi = ROI {
                            x: origin_held(x, w, img_w),
                            y: origin_held(y, h, img_h),
                            width: w,
                            height: h,
                        };
                        self.rois.push(roi);
                        placed = Some(roi);
                    }
                },
                _ => {},
            }
        }
        self.drag_start = None;
        self.drag_current = None;
        placed
    }
}

} // verus!
