//! The rules that turn a click or a drag into a region.
//!
//! Positions are image pixels. Every rule is stated over the integers; a
//! function asks of its caller that the region it describes fits the `i32`
//! fields of [`ROI`].

use vstd::prelude::*;
use crate::roi::{fits_i32, ROI};

verus! {

/// Half the side of the box that a plain click places.
pub const CLICK_PAD: i32 = 10;

/// The side of the box that a plain click places.
pub const CLICK_SIDE: i32 = 20;

/// The smallest side a stamp can have.
pub const STAMP_MIN: i32 = 16;

/// The largest side a stamp can have.
pub const STAMP_MAX: i32 = 512;

/// The smaller of two coordinates.
pub open spec fn lower(a: int, b: int) -> int {
    if a <= b { a } else { b }
}

/// The distance between two coordinates.
pub open spec fn span(a: int, b: int) -> int {
    if a <= b { b - a } else { a - b }
}

/// `v` held to the interval `[lo, hi]`.
pub open spec fn clamped(v: int, lo: int, hi: int) -> int
    recommends
        lo <= hi,
{
    if v < lo { lo } else if v > hi { hi } else { v }
}

/// The last pixel index along an axis of the given extent, saturating at
/// the lower end of `i32`.
pub open spec fn last_index(extent: int) -> int {
    if extent - 1 < i32::MIN { i32::MIN as int } else { extent - 1 }
}

/// Both distances of a drag fit an `i32`.
pub open spec fn drag_in_range(start: (i32, i32), end: (i32, i32)) -> bool {
    &&& span(start.0 as int, end.0 as int) <= i32::MAX
    &&& span(start.1 as int, end.1 as int) <= i32::MAX
}

/// The box around a click at `(x, y)` fits an `i32`.
pub open spec fn click_in_range(x: int, y: int) -> bool {
    fits_i32(x - 10) && fits_i32(y - 10)
}

/// The padded rectangle of a drag fits an `i32`: both distances do, and
/// so does each corner coordinate that the padding moves.
pub open spec fn padded_in_range(start: (i32, i32), end: (i32, i32)) -> bool {
    let w = span(start.0 as int, end.0 as int);
    let h = span(start.1 as int, end.1 as int);
    &&& drag_in_range(start, end)
    &&& (w == 0 || h == 0) ==> fits_i32(lower(start.0 as int, end.0 as int) - 10)
    &&& h == 0 ==> fits_i32(lower(start.1 as int, end.1 as int) - 10)
}

/// A side of length `size` has room on an axis of `extent` pixels.
pub open spec fn has_room(size: int, extent: int) -> bool {
    last_index(extent) - size + 1 >= 0
}

/// A stamp of side `size` centred on `pos` can be placed on an axis of
/// `extent` pixels: its centred start fits an `i32` and it has room.
pub open spec fn stamp_in_range(pos: int, size: int, extent: int) -> bool {
    fits_i32(pos - size / 2) && has_room(size, extent)
}

/// The box of side 20 centred on a click.
pub open spec fn click_box(x: int, y: int) -> ROI {
    ROI::at(x - 10, y - 10, 20, 20)
}

/// The rectangle spanned by the two ends of a drag. It is empty where the
/// ends share a coordinate.
pub open spec fn drag_box(start: (i32, i32), end: (i32, i32)) -> ROI {
    ROI::at(
        lower(start.0 as int, end.0 as int),
        lower(start.1 as int, end.1 as int),
        span(start.0 as int, end.0 as int),
        span(start.1 as int, end.1 as int),
    )
}

/// The rectangle spanned by a drag, with each side of length zero widened to one.
pub open spec fn drag_box_min_one(start: (i32, i32), end: (i32, i32)) -> ROI {
    let w = span(start.0 as int, end.0 as int);
    let h = span(start.1 as int, end.1 as int);
    ROI::at(
        lower(start.0 as int, end.0 as int),
        lower(start.1 as int, end.1 as int),
        if w < 1 { 1 } else { w },
        if h < 1 { 1 } else { h },
    )
}

/// The rectangle spanned by a drag, padded where the drag is degenerate:
/// a side of length zero becomes 20; the top moves up by 10 where the
/// height is zero; the left edge moves left by 10 where the width or the
/// height is zero.
pub open spec fn drag_box_padded(start: (i32, i32), end: (i32, i32)) -> ROI {
    let w = span(start.0 as int, end.0 as int);
    let h = span(start.1 as int, end.1 as int);
    let left = lower(start.0 as int, end.0 as int);
    let top = lower(start.1 as int, end.1 as int);
    ROI::at(
        if w == 0 || h == 0 { left - 10 } else { left },
        if h == 0 { top - 10 } else { top },
        if w == 0 { 20 } else { w },
        if h == 0 { 20 } else { h },
    )
}

/// Where a stamp of side `size` starts along an axis of `extent` pixels when
/// it is centred on `pos` and then moved so that it lies inside the axis.
pub open spec fn stamp_origin(pos: int, size: int, extent: int) -> int {
    clamped(pos - size / 2, 0, last_index(extent) - size + 1)
}

/// Where a stamp of side `size` starts along an axis when it is centred on `pos`.
pub open spec fn centred_origin(pos: int, size: int) -> int {
    pos - size / 2
}

/// Where a dragged side of length `size` that begins at `pos` starts once it
/// is moved to lie inside an axis of `extent` pixels.
pub open spec fn held_origin(pos: int, size: int, extent: int) -> int {
    clamped(pos, 0, last_index(extent) - size + 1)
}

/// A stamp lies inside the image: on an axis at least as long as the
/// stamp, it starts at zero or later and ends at the axis's end or before.
pub proof fn lemma_stamp_inside(pos: int, size: int, extent: int)
    requires
        0 <= size <= extent,
        fits_i32(extent),
    ensures
        0 <= stamp_origin(pos, size, extent),
        stamp_origin(pos, size, extent) + size <= extent,
{
}

/// A dragged side that is held inside the image lies inside it.
pub proof fn lemma_held_inside(pos: int, size: int, extent: int)
    requires
        0 <= size <= extent,
        fits_i32(extent),
    ensures
        0 <= held_origin(pos, size, extent),
        held_origin(pos, size, extent) + size <= extent,
{
}

/// Holding inside the image moves nothing that lies inside it already.
pub proof fn lemma_held_fixed(pos: int, size: int, extent: int)
    requires
        0 <= pos,
        pos + size <= extent,
        fits_i32(extent),
        0 < extent,
    ensures
        held_origin(pos, size, extent) == pos,
{
}

/// The box that a click places contains the click.
pub proof fn lemma_click_box_contains(x: int, y: int)
    requires
        fits_i32(x - 10),
        fits_i32(y - 10),
    ensures
        click_box(x, y).contains(x, y),
{
}

/// A drag spans the same rectangle in either direction.
pub proof fn lemma_drag_box_symmetric(start: (i32, i32), end: (i32, i32))
    ensures
        drag_box(start, end) == drag_box(end, start),
        drag_box_min_one(start, end) == drag_box_min_one(end, start),
        drag_box_padded(start, end) == drag_box_padded(end, start),
{
}

/// The rectangle of a drag that moved along both axes contains the
/// corner nearest the origin and not the corner furthest from it.
pub proof fn lemma_drag_box_corners(start: (i32, i32), end: (i32, i32))
    requires
        drag_in_range(start, end),
        start.0 != end.0,
        start.1 != end.1,
    ensures
        drag_box(start, end).contains(
            lower(start.0 as int, end.0 as int),
            lower(start.1 as int, end.1 as int),
        ),
        !drag_box(start, end).contains(
            lower(start.0 as int, end.0 as int) + span(start.0 as int, end.0 as int),
            lower(start.1 as int, end.1 as int) + span(start.1 as int, end.1 as int),
        ),
        drag_box(start, end) == drag_box_min_one(start, end),
        drag_box(start, end) == drag_box_padded(start, end),
{
}

/// The smaller of two coordinates.
pub fn lower_of(a: i32, b: i32) -> (m: i32)
    ensures
        m == lower(a as int, b as int),
{
    if a <= b { a } else { b }
}

/// The distance between two coordinates.
pub fn span_of(a: i32, b: i32) -> (d: i32)
    requires
        span(a as int, b as int) <= i32::MAX,
    ensures
        d == span(a as int, b as int),
{
    if a <= b { b - a } else { a - b }
}

/// `v` held to `[lo, hi]`.
pub fn clamp_to(v: i32, lo: i32, hi: i32) -> (c: i32)
    requires
        lo <= hi,
    ensures
        c == clamped(v as int, lo as int, hi as int),
{
    if v < lo { lo } else if v > hi { hi } else { v }
}

/// The last pixel index along an axis of `extent` pixels.
pub fn last_index_of(extent: i32) -> (last: i32)
    ensures
        last == last_index(extent as int),
{
    if extent == i32::MIN { i32::MIN } else { extent - 1 }
}

/// A side length held to the sides a stamp can have, 16 to 512.
pub fn clamp_stamp_side(val: i32) -> (side: i32)
    ensures
        side == clamped(val as int, 16, 512),
{
    clamp_to(val, STAMP_MIN, STAMP_MAX)
}

/// Whether the box around a click at `(x, y)` fits an `i32`.
pub fn click_fits(x: i32, y: i32) -> (fits: bool)
    ensures
        fits == click_in_range(x as int, y as int),
{
    x >= i32::MIN + CLICK_PAD && y >= i32::MIN + CLICK_PAD
}

/// Whether both distances of a drag fit an `i32`.
pub fn drag_fits(start: (i32, i32), end: (i32, i32)) -> (fits: bool)
    ensures
        fits == drag_in_range(start, end),
{
    let dx: i64 = start.0 as i64 - end.0 as i64;
    let dy: i64 = start.1 as i64 - end.1 as i64;
    let limit: i64 = i32::MAX as i64;
    -limit <= dx && dx <= limit && -limit <= dy && dy <= limit
}

/// Whether the padded rectangle of a drag fits an `i32`.
pub fn padded_fits(start: (i32, i32), end: (i32, i32)) -> (fits: bool)
    ensures
        fits == padded_in_range(start, end),
{
    if !drag_fits(start, end) {
        return false;
    }
    let flat: bool = start.1 == end.1;
    let narrow: bool = start.0 == end.0;
    let left_fits: bool = lower_of(start.0, end.0) >= i32::MIN + CLICK_PAD;
    let top_fits: bool = lower_of(start.1, end.1) >= i32::MIN + CLICK_PAD;
    (left_fits || !(narrow || flat)) && (top_fits || !flat)
}

/// Whether a side of length `size` has room on an axis of `extent` pixels.
pub fn side_has_room(size: i32, extent: i32) -> (room: bool)
    ensures
        room == has_room(size as int, extent as int),
{
    last_index_of(extent) as i64 - size as i64 + 1 >= 0
}

/// Whether a stamp of side `size` centred on `pos` can be placed on an
/// axis of `extent` pixels.
pub fn stamp_fits(pos: i32, size: i32, extent: i32) -> (fits: bool)
    requires
        0 <= size,
    ensures
        fits == stamp_in_range(pos as int, size as int, extent as int),
{
    pos as i64 - (size / 2) as i64 >= i32::MIN as i64 && side_has_room(size, extent)
}

/// The box that a click at `(x, y)` places.
pub fn box_at_click(x: i32, y: i32) -> (roi: ROI)
    requires
        click_in_range(x as int, y as int),
    ensures
        roi == click_box(x as int, y as int),
{
    ROI { x: x - CLICK_PAD, y: y - CLICK_PAD, width: CLICK_SIDE, height: CLICK_SIDE }
}

/// The rectangle between the two ends of a drag, as it is drawn while the
/// drag goes on.
pub fn box_of_drag(start: (i32, i32), end: (i32, i32)) -> (roi: ROI)
    requires
        drag_in_range(start, end),
    ensures
        roi == drag_box(start, end),
{
    ROI {
        x: lower_of(start.0, end.0),
        y: lower_of(start.1, end.1),
        width: span_of(start.0, end.0),
        height: span_of(start.1, end.1),
    }
}

/// The region that a finished drag leaves where no side may be shorter than one.
pub fn box_of_drag_min_one(start: (i32, i32), end: (i32, i32)) -> (roi: ROI)
    requires
        drag_in_range(start, end),
    ensures
        roi == drag_box_min_one(start, end),
{
    let w: i32 = span_of(start.0, end.0);
    let h: i32 = span_of(start.1, end.1);
    ROI {
        x: lower_of(start.0, end.0),
        y: lower_of(start.1, end.1),
        width: if w < 1 { 1 } else { w },
        height: if h < 1 { 1 } else { h },
    }
}

/// The region that a finished drag leaves where a degenerate drag is padded
/// to a box of side 20.
pub fn box_of_drag_padded(start: (i32, i32), end: (i32, i32)) -> (roi: ROI)
    requires
        padded_in_range(start, end),
    ensures
        roi == drag_box_padded(start, end),
{
    let w: i32 = span_of(start.0, end.0);
    let h: i32 = span_of(start.1, end.1);
    let left: i32 = lower_of(start.0, end.0);
    let top: i32 = lower_of(start.1, end.1);
    ROI {
        x: if w == 0 || h == 0 { left - CLICK_PAD } else { left },
        y: if h == 0 { top - CLICK_PAD } else { top },
        width: if w == 0 { CLICK_SIDE } else { w },
        height: if h == 0 { CLICK_SIDE } else { h },
    }
}

/// Where a stamp starts along one axis: centred on `pos`, then held inside
/// the image. The image must be at least as long as the stamp.
pub fn origin_of_stamp(pos: i32, size: i32, extent: i32) -> (origin: i32)
    requires
        0 <= size,
        stamp_in_range(pos as int, size as int, extent as int),
    ensures
        origin == stamp_origin(pos as int, size as int, extent as int),
{
    let last: i32 = last_index_of(extent);
    clamp_to(pos - size / 2, 0, last - size + 1)
}

/// Where a dragged side starts along one axis once it is held inside the
/// image. The image must be at least as long as the side.
pub fn origin_held(pos: i32, size: i32, extent: i32) -> (origin: i32)
    requires
        0 <= size,
        has_room(size as int, extent as int),
    ensures
        origin == held_origin(pos as int, size as int, extent as int),
{
    let last: i32 = last_index_of(extent);
    clamp_to(pos, 0, last - size + 1)
}

} // verus!
