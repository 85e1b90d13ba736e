//! Telling a selection by dragging from a click.
use vstd::prelude::*;

use crate::layout::is_i32;

verus! {

/// The length of a drag, in pixels, beyond which it selects text.
pub const DRAG_THRESHOLD_PX: i32 = 10;

/// The mouse: where it is, and where its left button was last pressed.
#[derive(Clone, Copy, PartialEq, Eq, Structural, Debug)]
pub struct MouseTracker {
    pub x: i32,
    pub y: i32,
    pub down_x: i32,
    pub down_y: i32,
}

impl MouseTracker {
    /// The square of the distance from where the button was pressed.
    pub open spec fn squared_distance(self) -> int {
        (self.x - self.down_x) * (self.x - self.down_x) + (self.y - self.down_y) * (self.y
            - self.down_y)
    }

    /// Whether the square of the distance can be computed within 32 bits.
    pub open spec fn measurable(self) -> bool {
        &&& is_i32(self.x - self.down_x)
        &&& is_i32(self.y - self.down_y)
        &&& is_i32((self.x - self.down_x) * (self.x - self.down_x))
        &&& is_i32((self.y - self.down_y) * (self.y - self.down_y))
        &&& is_i32(self.squared_distance())
    }

    /// Where a drag that selects text ends, if the release of the button ends one.
    pub open spec fn drag_end(self, capture_enabled: bool) -> Option<(i32, i32)> {
        if capture_enabled && self.squared_distance() > DRAG_THRESHOLD_PX * DRAG_THRESHOLD_PX {
            Some((self.x, self.y))
        } else {
            None
        }
    }

    pub fn new() -> (r: Self)
        ensures
            r == (MouseTracker { x: 0, y: 0, down_x: 0, down_y: 0 }),
    {
        MouseTracker { x: 0, y: 0, down_x: 0, down_y: 0 }
    }

    /// The mouse has moved.
    pub fn moved(&mut self, x: i32, y: i32)
        ensures
            *final(self) == (MouseTracker { x, y, ..*old(self) }),
    {
        self.x = x;
        self.y = y;
    }

    /// The left button has been pressed.
    pub fn pressed(&mut self)
        ensures
            *final(self) == (MouseTracker {
                down_x: old(self).x,
                down_y: old(self).y,
                ..*old(self)
            }),
    {
        self.down_x = self.x;
        self.down_y = self.y;
    }

    /// Whether the length of the drag can be measured within 32 bits.
    pub fn is_measurable(&self) -> (r: bool)
        ensures
            r == self.measurable(),
    {
        let dx: i64 = self.x as i64 - self.down_x as i64;
        let dy: i64 = self.y as i64 - self.down_y as i64;
        // The squares of 46340 and 46341 lie on the two sides of the limit.
        assert(dx > 46340 ==> dx * dx > i32::MAX) by (nonlinear_arith);
        assert(dx < -46340 ==> dx * dx > i32::MAX) by (nonlinear_arith);
        assert(dy > 46340 ==> dy * dy > i32::MAX) by (nonlinear_arith);
        assert(dy < -46340 ==> dy * dy > i32::MAX) by (nonlinear_arith);
        if dx < -46340 || dx > 46340 || dy < -46340 || dy > 46340 {
            return false;
        }
        assert(0 <= dx * dx <= i32::MAX) by (nonlinear_arith)
            requires
                -46340 <= dx <= 46340,
        ;
        assert(0 <= dy * dy <= i32::MAX) by (nonlinear_arith)
            requires
                -46340 <= dy <= 46340,
        ;
        dx * dx + dy * dy <= 0x7fff_ffff
    }

    /// The left button has been released: where, if it ends a drag that
    /// selects text and captures are switched on.
    pub fn released(&self, capture_enabled: bool) -> (r: Option<(i32, i32)>)
        requires
            capture_enabled ==> self.measurable(),
        ensures
            r == (if capture_enabled && self.squared_distance() > DRAG_THRESHOLD_PX
                * DRAG_THRESHOLD_PX {
                Some((self.x, self.y))
            } else {
                None
            }),
            r == self.drag_end(capture_enabled),
    {
        if !capture_enabled {
            return None;
        }
        let dx: i32 = self.x - self.down_x;
        let dy: i32 = self.y - self.down_y;
        if dx * dx + dy * dy > DRAG_THRESHOLD_PX * DRAG_THRESHOLD_PX {
            Some((self.x, self.y))
        } else {
            None
        }
    }
}

/// A click, with the button released where it was pressed, captures nothing.
pub proof fn law_click_captures_nothing(mouse: MouseTracker)
    requires
        mouse.x == mouse.down_x,
        mouse.y == mouse.down_y,
    ensures
        mouse.measurable(),
        mouse.squared_distance() == 0,
{
}

/// A drag straight along either axis captures exactly when it is longer than
/// the threshold.
pub proof fn law_straight_drag(mouse: MouseTracker)
    requires
        mouse.x == mouse.down_x || mouse.y == mouse.down_y,
    ensures
        ({
            let d = (mouse.x - mouse.down_x) + (mouse.y - mouse.down_y);
            mouse.squared_distance() > DRAG_THRESHOLD_PX * DRAG_THRESHOLD_PX <==> (d
                > DRAG_THRESHOLD_PX || -d > DRAG_THRESHOLD_PX)
        }),
{
    let dx = mouse.x - mouse.down_x;
    let dy = mouse.y - mouse.down_y;
    assert(dx == 0 ==> dx * dx == 0) by (nonlinear_arith);
    assert(dy == 0 ==> dy * dy == 0) by (nonlinear_arith);
    assert(dx * dx > 100 <==> (dx > 10 || -dx > 10)) by (nonlinear_arith);
    assert(dy * dy > 100 <==> (dy > 10 || -dy > 10)) by (nonlinear_arith);
}

/// The length of a drag is that of the straight line: its square is the sum of
/// the squares of the ways along the two axes, either of which alone makes a
/// drag of its own length.
pub proof fn law_drag_is_straight_line(mouse: MouseTracker)
    ensures
        ({
            let across = MouseTracker { down_y: mouse.y, ..mouse };
            let down = MouseTracker { down_x: mouse.x, ..mouse };
            let (dx, dy) = (mouse.x - mouse.down_x, mouse.y - mouse.down_y);
            &&& mouse.squared_distance() == across.squared_distance() + down.squared_distance()
            &&& across.squared_distance() == dx * dx
            &&& down.squared_distance() == dy * dy
        }),
{
    assert((mouse.y - mouse.y) * (mouse.y - mouse.y) == 0) by (nonlinear_arith);
    assert((mouse.x - mouse.x) * (mouse.x - mouse.x) == 0) by (nonlinear_arith);
}

/// A drag by less than 30000 pixels along each axis can be measured.
pub proof fn law_ordinary_drags_are_measurable(mouse: MouseTracker)
    requires
        -30_000 <= mouse.x - mouse.down_x <= 30_000,
        -30_000 <= mouse.y - mouse.down_y <= 30_000,
    ensures
        mouse.measurable(),
{
    let dx = mouse.x - mouse.down_x;
    let dy = mouse.y - mouse.down_y;
    assert(0 <= dx * dx <= 900_000_000) by (nonlinear_arith)
        requires
            -30_000 <= dx <= 30_000,
    ;
    assert(0 <= dy * dy <= 900_000_000) by (nonlinear_arith)
        requires
            -30_000 <= dy <= 30_000,
    ;
}

/// While captures are switched on, a drag captures where it ends exactly if the
/// straight line from where it began is longer than ten pixels, whichever way
/// it goes and wherever it begins; while they are switched off, none does.
pub proof fn law_long_drag_captures(mouse: MouseTracker)
    ensures
        ({
            let (dx, dy) = (mouse.x - mouse.down_x, mouse.y - mouse.down_y);
            &&& dx > 10 || dx < -10 || dy > 10 || dy < -10 ==> mouse.drag_end(true) == Some(
                (mouse.x, mouse.y),
            )
            &&& dx * dx + dy * dy > 10 * 10 ==> mouse.drag_end(true) == Some((mouse.x, mouse.y))
            &&& dx * dx + dy * dy <= 10 * 10 ==> mouse.drag_end(true) is None
            &&& mouse.drag_end(false) is None
        }),
{
    let (dx, dy) = (mouse.x - mouse.down_x, mouse.y - mouse.down_y);
    assert(dx * dx >= 0 && dy * dy >= 0) by (nonlinear_arith);
    assert(dx > 10 || dx < -10 ==> dx * dx > 100) by (nonlinear_arith);
    assert(dy > 10 || dy < -10 ==> dy * dy > 100) by (nonlinear_arith);
}

} // verus!
