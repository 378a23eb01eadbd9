//! Regions of interest: a box grown by a margin and cut to the frame, and
//! the centred square crop.

use vstd::prelude::*;
use crate::geometry::Rect;

verus! {

/// Why no region could be produced.
#[derive(Clone, Copy, Debug, PartialEq, Eq, Structural)]
pub enum RoiError {
    /// What is left of the expanded box inside the frame has no area.
    Empty,
}

impl RoiError {
    /// The text shown for the error.
    pub fn message(&self) -> (text: String)
        ensures
            text@ == "Expanded ROI is invalid"@,
    {
        "Expanded ROI is invalid".to_owned()
    }
}

/// The greater of two integers.
pub open spec fn max_int(a: int, b: int) -> int {
    if a >= b { a } else { b }
}

/// The lesser of two integers.
pub open spec fn min_int(a: int, b: int) -> int {
    if a <= b { a } else { b }
}

/// Left edge of `roi` grown by `expand` on every side, kept inside the frame.
pub open spec fn expanded_left(roi: Rect, expand: int) -> int {
    max_int(0, roi.left() - expand)
}

/// Top edge of `roi` grown by `expand` on every side, kept inside the frame.
pub open spec fn expanded_top(roi: Rect, expand: int) -> int {
    max_int(0, roi.top() - expand)
}

/// Right edge of `roi` grown by `expand`, kept inside a frame of `cols`
/// columns.
pub open spec fn expanded_right(cols: int, roi: Rect, expand: int) -> int {
    min_int(cols, roi.right() + expand)
}

/// Bottom edge of `roi` grown by `expand`, kept inside a frame of `rows`
/// rows.
pub open spec fn expanded_bottom(rows: int, roi: Rect, expand: int) -> int {
    min_int(rows, roi.bottom() + expand)
}

/// The part of the grown box that lies inside the frame has positive area.
pub open spec fn expansion_visible(cols: int, rows: int, roi: Rect, expand: int) -> bool {
    &&& expanded_left(roi, expand) < expanded_right(cols, roi, expand)
    &&& expanded_top(roi, expand) < expanded_bottom(rows, roi, expand)
}

/// Grows `prev_roi` by `expand` pixels on every side and cuts the result to
/// a frame of `cols` columns and `rows` rows.
///
/// A box that sticks out on the left or top loses the part outside rather
/// than being moved. The result is the intersection of the grown box with
/// the frame; where that intersection has no area the call fails with
/// `RoiError::Empty`. A negative `expand` shrinks the box.
pub fn expand_roi_rect(cols: i32, rows: i32, prev_roi: Rect, expand: i32) -> (res: Result<
    Rect,
    RoiError,
>)
    ensures
        res is Ok <==> expansion_visible(cols as int, rows as int, prev_roi, expand as int),
        res matches Ok(r) ==> {
            &&& r.left() == expanded_left(prev_roi, expand as int)
            &&& r.top() == expanded_top(prev_roi, expand as int)
            &&& r.right() == expanded_right(cols as int, prev_roi, expand as int)
            &&& r.bottom() == expanded_bottom(rows as int, prev_roi, expand as int)
            &&& r.is_valid()
            &&& 0 <= r.left() && r.right() <= cols
            &&& 0 <= r.top() && r.bottom() <= rows
        },
        res matches Err(e) ==> e == RoiError::Empty,
{
    let mut x: i64 = prev_roi.x as i64 - expand as i64;
    let mut y: i64 = prev_roi.y as i64 - expand as i64;
    let mut w: i64 = prev_roi.width as i64 + 2 * (expand as i64);
    let mut h: i64 = prev_roi.height as i64 + 2 * (expand as i64);

    if x < 0 {
        w = w + x;
        x = 0;
    }
    if y < 0 {
        h = h + y;
        y = 0;
    }
    if x + w > cols as i64 {
        w = cols as i64 - x;
    }
    if y + h > rows as i64 {
        h = rows as i64 - y;
    }

    if w <= 0 || h <= 0 {
        return Err(RoiError::Empty);
    }
    Ok(Rect { x: x as i32, y: y as i32, width: w as i32, height: h as i32 })
}

/// The square of side `crop_size` in the middle of a frame of `cols`
/// columns and `rows` rows.
///
/// The square must fit in the frame. Where the space left over is odd, the
/// square sits one pixel nearer to the top left.
pub fn center_crop(cols: i32, rows: i32, crop_size: i32) -> (r: Rect)
    requires
        0 <= crop_size <= cols,
        crop_size <= rows,
    ensures
        r.x == (cols - crop_size) / 2,
        r.y == (rows - crop_size) / 2,
        r.width == crop_size,
        r.height == crop_size,
        0 <= r.left() && r.right() <= cols,
        0 <= r.top() && r.bottom() <= rows,
{
    let x: i32 = (cols - crop_size) / 2;
    let y: i32 = (rows - crop_size) / 2;
    Rect { x, y, width: crop_size, height: crop_size }
}

} // verus!
