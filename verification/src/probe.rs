//! Which positions of an area are read when its pixel values are listed.

use vstd::prelude::*;
use vstd::arithmetic::div_mod::lemma_fundamental_div_mod_converse;
use crate::roi::ROI;
use crate::stamp::StampSize;

verus! {

/// The most grey values that are listed of one area.
pub const GRAY_LIMIT: i32 = 256;

/// One position to read, as an offset from the area's corner, and whether
/// the line of the listing ends after it.
#[derive(Debug, Clone, Copy, PartialEq, Eq, Structural)]
pub struct Probe {
    pub row: i32,
    pub col: i32,
    pub ends_line: bool,
}

/// How many positions of an area of the given size are read: all of them,
/// or 256 where there are more.
pub open spec fn probe_count(size: StampSize) -> int {
    let area = size.width * size.height;
    if area < 256 { area } else { 256 }
}

/// The `k`-th position, counting row by row. A line ends after the last
/// position of a row, but not after the 256th position.
pub open spec fn probe_at(size: StampSize, k: int) -> Probe {
    Probe {
        row: (k / (size.width as int)) as i32,
        col: (k % (size.width as int)) as i32,
        ends_line: k % (size.width as int) == size.width - 1 && k + 1 < 256,
    }
}

/// The positions that are read of an area of the given size, in order.
pub open spec fn gray_probes(size: StampSize) -> Seq<Probe> {
    Seq::new(probe_count(size) as nat, |k: int| probe_at(size, k))
}

/// The positions of `roi` in the first `n` columns of the row `y` that lie
/// left of column `cols`.
pub open spec fn row_positions(roi: ROI, y: int, n: int, cols: int) -> Seq<(i32, i32)>
    decreases n,
{
    if n <= 0 {
        Seq::empty()
    } else {
        let x = roi.x + n - 1;
        let before = row_positions(roi, y, n - 1, cols);
        if x < cols { before.push((x as i32, y as i32)) } else { before }
    }
}

/// The positions of the first `m` rows of `roi` that lie above row `rows`
/// and left of column `cols`, row by row and from left to right in each.
/// A position with a negative coordinate counts as lying there.
pub open spec fn region_positions(roi: ROI, m: int, cols: int, rows: int) -> Seq<(i32, i32)>
    decreases m,
{
    if m <= 0 {
        Seq::empty()
    } else {
        let y = roi.y + m - 1;
        let before = region_positions(roi, m - 1, cols, rows);
        if y < rows { before + row_positions(roi, y, roi.width as int, cols) } else { before }
    }
}

/// Every position that is read lies in the area.
pub proof fn lemma_probes_in_area(size: StampSize, k: int)
    requires
        size.wf(),
        0 <= k < probe_count(size),
    ensures
        0 <= probe_at(size, k).row < size.height,
        0 <= probe_at(size, k).col < size.width,
        k == probe_at(size, k).row * size.width + probe_at(size, k).col,
{
    let w = size.width as int;
    let h = size.height as int;
    let q = k / w;
    let r = k % w;
    assert(k == q * w + r && 0 <= r < w) by (nonlinear_arith)
        requires
            q == k / w,
            r == k % w,
            w > 0,
            0 <= k,
    ;
    assert(0 <= q < h) by (nonlinear_arith)
        requires
            k == q * w + r,
            0 <= r < w,
            0 <= k < w * h,
            w > 0,
    ;
}

/// The offsets at which the grey values of an area of the given size are
/// read: row by row, 256 values at most.
pub fn gray_probe_list(size: &StampSize) -> (probes: Vec<Probe>)
    requires
        size.wf(),
    ensures
        probes@ == gray_probes(*size),
{
    let w: i32 = size.width;
    let h: i32 = size.height;
    let mut probes: Vec<Probe> = Vec::new();
    let mut row: i32 = 0;
    let mut col: i32 = 0;
    let mut count: i32 = 0;
    assert(0 == 0 * w + 0) by (nonlinear_arith);
    while row < h && count < GRAY_LIMIT
        invariant
            size.wf(),
            w == size.width,
            h == size.height,
            0 <= row <= h,
            0 <= col < w,
            row == h ==> col == 0,
            0 <= count <= 256,
            count == row * w + col,
            probes@ == Seq::new(count as nat, |k: int| probe_at(*size, k)),
        decreases 256 - count,
    {
        proof {
            lemma_fundamental_div_mod_converse(count as int, w as int, row as int, col as int);
        }
        let last: bool = col == w - 1;
        probes.push(Probe { row, col, ends_line: last && count + 1 < GRAY_LIMIT });
        assert(probes@ =~= Seq::new((count + 1) as nat, |k: int| probe_at(*size, k)));
        proof {
            if last {
                assert((row + 1) * w + 0 == row * w + col + 1) by (nonlinear_arith)
                    requires
                        col == w - 1,
                ;
            }
        }
        count = count + 1;
        if last {
            row = row + 1;
            col = 0;
        } else {
            col = col + 1;
        }
    }
    proof {
        if row == h {
            assert(count == w * h) by (nonlinear_arith)
                requires
                    count == row * w + col,
                    row == h,
                    col == 0,
            ;
        } else {
            assert(count < w * h) by (nonlinear_arith)
                requires
                    count == row * w + col,
                    0 <= row < h,
                    0 <= col < w,
            ;
        }
    }
    probes
}

/// The positions of `roi` to read from an image of `cols` columns and
/// `rows` rows: those above row `rows` and left of column `cols`, row by
/// row. The sums are taken in 64 bits, so a region that reaches past
/// `i32::MAX` is answered too.
pub fn positions_on_image(roi: &ROI, cols: i32, rows: i32) -> (positions: Vec<(i32, i32)>)
    ensures
        positions@ == region_positions(*roi, roi.height as int, cols as int, rows as int),
{
    let mut positions: Vec<(i32, i32)> = Vec::new();
    let mut dy: i32 = 0;
    while dy < roi.height
        invariant
            0 <= dy,
            roi.height > 0 ==> dy <= roi.height,
            roi.height <= 0 ==> dy == 0,
            positions@ == region_positions(*roi, dy as int, cols as int, rows as int),
        decreases roi.height - dy,
    {
        let y: i64 = roi.y as i64 + dy as i64;
        if y < rows as i64 {
            let ghost before = positions@;
            let mut dx: i32 = 0;
            while dx < roi.width
                invariant
                    0 <= dx,
                    roi.width > 0 ==> dx <= roi.width,
                    roi.width <= 0 ==> dx == 0,
                    y == roi.y + dy,
                    y < rows,
                    positions@ == before + row_positions(*roi, y as int, dx as int, cols as int),
                decreases roi.width - dx,
            {
                let x: i64 = roi.x as i64 + dx as i64;
                if x < cols as i64 {
                    positions.push((x as i32, y as i32));
                }
                dx = dx + 1;
                assert(positions@ =~= before + row_positions(
                    *roi,
                    y as int,
                    dx as int,
                    cols as int,
                ));
            }
        }
        dy = dy + 1;
    }
    positions
}

} // verus!
