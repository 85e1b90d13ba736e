//! Where the popup stands on the screen, and how large it is.
use vstd::prelude::*;

use crate::translator::{outcome_of, Outcome, TranslateResult};

verus! {

/// The distance between the mouse and the popup, in pixels.
pub const POPUP_GAP_PX: i32 = 14;

/// The distance that the popup keeps from the edges of the screen, in pixels.
pub const SCREEN_MARGIN_PX: i32 = 12;

/// The width that the popup keeps on any screen, in pixels.
pub const LEAST_WIDTH_PX: i32 = 240;

/// The height that the popup keeps on any screen, in pixels.
pub const LEAST_HEIGHT_PX: i32 = 160;

pub open spec fn is_i32(x: int) -> bool {
    i32::MIN <= x <= i32::MAX
}

/// The part of a screen that windows may cover, in pixels.
#[derive(Clone, Copy, PartialEq, Eq, Structural, Debug)]
pub struct WorkArea {
    pub left: i32,
    pub top: i32,
    pub right: i32,
    pub bottom: i32,
}

impl WorkArea {
    pub fn width(self) -> (r: i32)
        requires
            is_i32(self.right - self.left),
        ensures
            r == self.right - self.left,
    {
        self.right - self.left
    }

    pub fn height(self) -> (r: i32)
        requires
            is_i32(self.bottom - self.top),
        ensures
            r == self.bottom - self.top,
    {
        self.bottom - self.top
    }
}

/// The size of the popup in points.
#[derive(Clone, Copy, PartialEq, Eq, Structural, Debug)]
pub struct PopupSize {
    pub width: u32,
    pub height: u32,
}

/// The size for a result: roomy for what the language model says, smaller for
/// an entry of the dictionary, smallest while there is nothing to show.
pub open spec fn popup_size(result: Option<Outcome>) -> PopupSize {
    match result {
        Some(res) => if res.is_error {
            PopupSize { width: 460, height: 300 }
        } else if res.is_llm {
            PopupSize { width: 460, height: 340 }
        } else {
            PopupSize { width: 360, height: 240 }
        },
        None => PopupSize { width: 320, height: 220 },
    }
}

/// The size of the popup for a result.
pub fn popup_size_for_result(result: &Option<TranslateResult>) -> (r: PopupSize)
    ensures
        r == popup_size(outcome_of(*result)),
{
    match result {
        Some(res) => if res.is_error {
            PopupSize { width: 460, height: 300 }
        } else if res.is_llm {
            PopupSize { width: 460, height: 340 }
        } else {
            PopupSize { width: 360, height: 240 }
        },
        None => PopupSize { width: 320, height: 220 },
    }
}

pub open spec fn min_of(a: int, b: int) -> int {
    if a <= b {
        a
    } else {
        b
    }
}

pub open spec fn max_of(a: int, b: int) -> int {
    if a >= b {
        a
    } else {
        b
    }
}

/// The extent of the popup along one axis of the area from `low` to `high`:
/// the desired one, cut to what the margins leave, though not below `least`.
pub open spec fn fitted_extent(desired: int, low: int, high: int, least: int) -> int {
    min_of(desired, max_of(high - low - 2 * SCREEN_MARGIN_PX, least))
}

/// The greatest start at which the popup ends before the margin.
pub open spec fn last_start(extent: int, high: int) -> int {
    high - extent - SCREEN_MARGIN_PX
}

/// The start that is tried: beyond the anchor, or before it where the popup
/// would run into the margin.
pub open spec fn wanted_start(anchor: int, extent: int, high: int) -> int {
    if anchor + POPUP_GAP_PX > last_start(extent, high) {
        anchor - extent - POPUP_GAP_PX
    } else {
        anchor + POPUP_GAP_PX
    }
}

/// The start of the popup along one axis: the one that is tried, moved
/// between the margins; where the popup is too large for that, the lower margin.
pub open spec fn fitted_start(anchor: int, extent: int, low: int, high: int) -> int {
    min_of(
        max_of(wanted_start(anchor, extent, high), low + SCREEN_MARGIN_PX),
        max_of(last_start(extent, high), low + SCREEN_MARGIN_PX),
    )
}

/// Whether all that is computed along one axis fits 32 bits.
pub open spec fn axis_computes(anchor: int, desired: int, low: int, high: int, least: int) -> bool {
    let extent = fitted_extent(desired, low, high, least);
    &&& is_i32(high - low)
    &&& is_i32(high - low - 2 * SCREEN_MARGIN_PX)
    &&& is_i32(low + SCREEN_MARGIN_PX)
    &&& is_i32(high - extent)
    &&& is_i32(last_start(extent, high))
    &&& is_i32(anchor + POPUP_GAP_PX)
    &&& anchor + POPUP_GAP_PX > last_start(extent, high) ==> is_i32(anchor - extent) && is_i32(
        anchor - extent - POPUP_GAP_PX,
    )
}

/// Whether all that is computed for a layout fits 32 bits.
pub open spec fn layout_computes(
    anchor_x: int,
    anchor_y: int,
    width: int,
    height: int,
    area: Option<WorkArea>,
) -> bool {
    match area {
        Some(a) => {
            &&& axis_computes(anchor_x, width, a.left as int, a.right as int, LEAST_WIDTH_PX as int)
            &&& axis_computes(
                anchor_y,
                height,
                a.top as int,
                a.bottom as int,
                LEAST_HEIGHT_PX as int,
            )
        },
        None => is_i32(anchor_x + POPUP_GAP_PX) && is_i32(anchor_y + POPUP_GAP_PX),
    }
}

/// The layout of the popup, in pixels.
#[derive(Clone, Copy, PartialEq, Eq, Structural, Debug)]
pub enum PopupLayout {
    /// The size and the position that fit the work area.
    Fitted { width: i32, height: i32, x: i32, y: i32 },
    /// The position alone, where no work area is known; the size is as desired.
    Free { x: i32, y: i32 },
}

/// Whether `r` is the layout of a popup of the desired size for a mouse at the anchor.
pub open spec fn is_layout(
    r: PopupLayout,
    anchor_x: int,
    anchor_y: int,
    desired_width: int,
    desired_height: int,
    area: Option<WorkArea>,
) -> bool {
    match area {
        Some(a) => r matches PopupLayout::Fitted { width, height, x, y } && {
            &&& width == fitted_extent(
                desired_width,
                a.left as int,
                a.right as int,
                LEAST_WIDTH_PX as int,
            )
            &&& height == fitted_extent(
                desired_height,
                a.top as int,
                a.bottom as int,
                LEAST_HEIGHT_PX as int,
            )
            &&& x == fitted_start(anchor_x, width as int, a.left as int, a.right as int)
            &&& y == fitted_start(anchor_y, height as int, a.top as int, a.bottom as int)
        },
        None => r matches PopupLayout::Free { x, y } && {
            &&& x == anchor_x + POPUP_GAP_PX
            &&& y == anchor_y + POPUP_GAP_PX
        },
    }
}

fn min_i32(a: i32, b: i32) -> (r: i32)
    ensures
        r == min_of(a as int, b as int),
{
    if a <= b {
        a
    } else {
        b
    }
}

fn max_i32(a: i32, b: i32) -> (r: i32)
    ensures
        r == max_of(a as int, b as int),
{
    if a >= b {
        a
    } else {
        b
    }
}

/// The extent and the start along one axis, `span` being the length of the area.
fn fit_axis(anchor: i32, desired: i32, low: i32, high: i32, span: i32, least: i32) -> (r: (i32, i32))
    requires
        span == high - low,
        axis_computes(anchor as int, desired as int, low as int, high as int, least as int),
    ensures
        r.0 == fitted_extent(desired as int, low as int, high as int, least as int),
        r.1 == fitted_start(anchor as int, r.0 as int, low as int, high as int),
{
    let extent: i32 = min_i32(desired, max_i32(span - SCREEN_MARGIN_PX * 2, least));
    let first: i32 = low + SCREEN_MARGIN_PX;
    let last: i32 = high - extent - SCREEN_MARGIN_PX;
    let mut start: i32 = anchor + POPUP_GAP_PX;
    if start > last {
        start = anchor - extent - POPUP_GAP_PX;
    }
    (extent, min_i32(max_i32(start, first), max_i32(last, first)))
}

/// The layout of a popup of the desired size for a mouse at the anchor.
pub fn adjusted_popup_layout(
    anchor_x: i32,
    anchor_y: i32,
    desired_width: i32,
    desired_height: i32,
    work_area: Option<WorkArea>,
) -> (r: PopupLayout)
    requires
        layout_computes(
            anchor_x as int,
            anchor_y as int,
            desired_width as int,
            desired_height as int,
            work_area,
        ),
    ensures
        is_layout(
            r,
            anchor_x as int,
            anchor_y as int,
            desired_width as int,
            desired_height as int,
            work_area,
        ),
{
    match work_area {
        Some(a) => {
            let (width, x) = fit_axis(
                anchor_x,
                desired_width,
                a.left,
                a.right,
                a.width(),
                LEAST_WIDTH_PX,
            );
            let (height, y) = fit_axis(
                anchor_y,
                desired_height,
                a.top,
                a.bottom,
                a.height(),
                LEAST_HEIGHT_PX,
            );
            PopupLayout::Fitted { width, height, x, y }
        },
        None => PopupLayout::Free { x: anchor_x + POPUP_GAP_PX, y: anchor_y + POPUP_GAP_PX },
    }
}

fn fits_i32(x: i64) -> (r: bool)
    ensures
        r == is_i32(x as int),
{
    -0x8000_0000 <= x && x <= 0x7fff_ffff
}

fn axis_in_range(anchor: i32, desired: i32, low: i32, high: i32, least: i32) -> (r: bool)
    ensures
        r == axis_computes(anchor as int, desired as int, low as int, high as int, least as int),
{
    let margin: i64 = SCREEN_MARGIN_PX as i64;
    let gap: i64 = POPUP_GAP_PX as i64;
    let span: i64 = high as i64 - low as i64;
    let room: i64 = span - 2 * margin;
    let most: i64 = if room >= least as i64 {
        room
    } else {
        least as i64
    };
    let extent: i64 = if desired as i64 <= most {
        desired as i64
    } else {
        most
    };
    let last: i64 = high as i64 - extent - margin;
    let beyond: i64 = anchor as i64 + gap;
    let before: i64 = anchor as i64 - extent;
    fits_i32(span) && fits_i32(room) && fits_i32(low as i64 + margin) && fits_i32(
        high as i64 - extent,
    ) && fits_i32(last) && fits_i32(beyond) && (beyond <= last || (fits_i32(before) && fits_i32(
        before - gap,
    )))
}

/// Whether a layout can be computed within 32 bits.
pub fn layout_in_range(
    anchor_x: i32,
    anchor_y: i32,
    desired_width: i32,
    desired_height: i32,
    work_area: Option<WorkArea>,
) -> (r: bool)
    ensures
        r == layout_computes(
            anchor_x as int,
            anchor_y as int,
            desired_width as int,
            desired_height as int,
            work_area,
        ),
{
    match work_area {
        Some(a) => axis_in_range(anchor_x, desired_width, a.left, a.right, LEAST_WIDTH_PX)
            && axis_in_range(anchor_y, desired_height, a.top, a.bottom, LEAST_HEIGHT_PX),
        None => fits_i32(anchor_x as i64 + POPUP_GAP_PX as i64) && fits_i32(
            anchor_y as i64 + POPUP_GAP_PX as i64,
        ),
    }
}

/// On a work area with room for the least popup and its margins, the whole
/// popup stands within the margins, whatever the mouse and the desired size;
/// and it is never larger than desired.
pub proof fn law_popup_within_margins(
    r: PopupLayout,
    anchor_x: int,
    anchor_y: int,
    desired_width: int,
    desired_height: int,
    area: WorkArea,
)
    requires
        is_layout(r, anchor_x, anchor_y, desired_width, desired_height, Some(area)),
        area.right - area.left >= LEAST_WIDTH_PX + 2 * SCREEN_MARGIN_PX,
        area.bottom - area.top >= LEAST_HEIGHT_PX + 2 * SCREEN_MARGIN_PX,
    ensures
        r matches PopupLayout::Fitted { width, height, x, y } && {
            &&& area.left + SCREEN_MARGIN_PX <= x
            &&& x + width <= area.right - SCREEN_MARGIN_PX
            &&& area.top + SCREEN_MARGIN_PX <= y
            &&& y + height <= area.bottom - SCREEN_MARGIN_PX
            &&& width <= desired_width
            &&& height <= desired_height
        },
{
}

/// Along each axis the popup leaves the mouse free wherever it can: beyond
/// the mouse where it fits there, else before it where it fits there.
pub proof fn law_popup_leaves_mouse_free(anchor: int, extent: int, low: int, high: int)
    ensures
        low + SCREEN_MARGIN_PX <= anchor + POPUP_GAP_PX <= last_start(extent, high)
            ==> fitted_start(anchor, extent, low, high) == anchor + POPUP_GAP_PX,
        anchor + POPUP_GAP_PX > last_start(extent, high) && low + SCREEN_MARGIN_PX <= anchor
            - extent - POPUP_GAP_PX <= last_start(extent, high) ==> fitted_start(
            anchor,
            extent,
            low,
            high,
        ) + extent == anchor - POPUP_GAP_PX,
{
}

/// On a work area that is too small for the popup, the popup starts at the
/// left and upper margins.
pub proof fn law_popup_too_large(anchor: int, extent: int, low: int, high: int)
    requires
        last_start(extent, high) <= low + SCREEN_MARGIN_PX,
    ensures
        fitted_start(anchor, extent, low, high) == low + SCREEN_MARGIN_PX,
{
}

/// The size of the popup along each axis: the desired one where the margins of
/// twelve pixels leave room for it; else that room, though no less than 240
/// pixels of width and 160 of height.
pub proof fn law_popup_has_its_size(
    r: PopupLayout,
    anchor_x: int,
    anchor_y: int,
    desired_width: int,
    desired_height: int,
    area: WorkArea,
)
    requires
        is_layout(r, anchor_x, anchor_y, desired_width, desired_height, Some(area)),
    ensures
        r matches PopupLayout::Fitted { width, height, .. } && {
            let across = area.right - area.left - 24;
            let down = area.bottom - area.top - 24;
            &&& desired_width <= across || desired_width <= 240 ==> width == desired_width
            &&& desired_width > across >= 240 ==> width == across
            &&& desired_width > 240 >= across ==> width == 240
            &&& desired_height <= down || desired_height <= 160 ==> height == desired_height
            &&& desired_height > down >= 160 ==> height == down
            &&& desired_height > 160 >= down ==> height == 160
        },
{
}

/// The place of the popup along each axis. It begins fourteen pixels beyond
/// the mouse where it then ends before the margin, though not before the near
/// margin; else it ends fourteen pixels before the mouse where it then begins
/// behind the near margin, though not beyond the far margin; else, or where it
/// is larger than the room between the margins, it begins at the near margin.
pub proof fn law_popup_has_its_place(
    r: PopupLayout,
    anchor_x: int,
    anchor_y: int,
    desired_width: int,
    desired_height: int,
    area: WorkArea,
)
    requires
        is_layout(r, anchor_x, anchor_y, desired_width, desired_height, Some(area)),
    ensures
        r matches PopupLayout::Fitted { width, height, x, y } && {
            let (left, right) = (area.left + 12, area.right - 12);
            let (top, bottom) = (area.top + 12, area.bottom - 12);
            &&& width > right - left ==> x == left
            &&& left <= anchor_x + 14 <= right - width ==> x == anchor_x + 14
            &&& anchor_x + 14 < left <= right - width ==> x == left
            &&& width <= right - left && anchor_x + 14 + width > right ==> {
                &&& left + width <= anchor_x - 14 <= right ==> x + width == anchor_x - 14
                &&& anchor_x - 14 < left + width ==> x == left
                &&& anchor_x - 14 > right ==> x + width == right
            }
            &&& height > bottom - top ==> y == top
            &&& top <= anchor_y + 14 <= bottom - height ==> y == anchor_y + 14
            &&& anchor_y + 14 < top <= bottom - height ==> y == top
            &&& height <= bottom - top && anchor_y + 14 + height > bottom ==> {
                &&& top + height <= anchor_y - 14 <= bottom ==> y + height == anchor_y - 14
                &&& anchor_y - 14 < top + height ==> y == top
                &&& anchor_y - 14 > bottom ==> y + height == bottom
            }
        },
{
}

/// Without a work area the popup begins fourteen pixels beyond the mouse.
pub proof fn law_popup_without_area(
    r: PopupLayout,
    anchor_x: int,
    anchor_y: int,
    desired_width: int,
    desired_height: int,
)
    requires
        is_layout(r, anchor_x, anchor_y, desired_width, desired_height, None),
    ensures
        r matches PopupLayout::Free { x, y } && x == anchor_x + 14 && y == anchor_y + 14,
{
}

/// Every layout can be computed whose numbers are at most 500 million.
pub proof fn law_ordinary_layouts_compute(
    anchor_x: int,
    anchor_y: int,
    width: int,
    height: int,
    area: Option<WorkArea>,
)
    requires
        -500_000_000 <= anchor_x <= 500_000_000,
        -500_000_000 <= anchor_y <= 500_000_000,
        0 <= width <= 500_000_000,
        0 <= height <= 500_000_000,
        area matches Some(a) ==> {
            &&& -500_000_000 <= a.left <= a.right <= 500_000_000
            &&& -500_000_000 <= a.top <= a.bottom <= 500_000_000
        },
    ensures
        layout_computes(anchor_x, anchor_y, width, height, area),
{
}

/// The size of the popup depends on who translated and whether that failed,
/// and on nothing else of the result.
pub proof fn law_popup_sizes(result: Outcome)
    ensures
        result.is_error ==> popup_size(Some(result)) == (PopupSize { width: 460, height: 300 }),
        result.is_llm && !result.is_error ==> popup_size(Some(result)) == (PopupSize {
            width: 460,
            height: 340,
        }),
        !result.is_llm && !result.is_error ==> popup_size(Some(result)) == (PopupSize {
            width: 360,
            height: 240,
        }),
        popup_size(None) == (PopupSize { width: 320, height: 220 }),
{
}

} // verus!
