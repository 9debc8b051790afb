//! A library for handling scrolling areas.
//!
//! A `ScrollController` tracks a 2D pan offset over a logical content area
//! seen through a fixed viewport, driven by pointer and scroll-wheel events.

use vstd::prelude::*;

verus! {

/// Stores scroll settings.
#[derive(Clone, Copy, Debug)]
pub struct ScrollSettings {
    /// Scroll speed: scroll-wheel deltas are scaled by this factor.
    pub speed: i64,
}

impl ScrollSettings {
    /// Creates a new `ScrollSettings` object with the default speed of 1.
    pub fn new() -> (s: ScrollSettings)
        ensures
            s.speed == 1,
    {
        ScrollSettings { speed: 1 }
    }

    /// Sets scroll speed, builder-style.
    pub fn speed(self, val: i64) -> (s: ScrollSettings)
        ensures
            s.speed == val,
    {
        ScrollSettings { speed: val }
    }
}

/// An integer saturated into the `i64` range; scroll candidates that a
/// sequence of events drives outside the machine range stop at its ends.
pub open spec fn sat_i64(v: int) -> int {
    if v > i64::MAX {
        i64::MAX as int
    } else if v < i64::MIN {
        i64::MIN as int
    } else {
        v
    }
}

/// The clamp rule for the X axis, for content extent `area`, viewport extent
/// `bound` and candidate offset `o`: a positive candidate, or a viewport
/// wider than the content, locks the axis to 0; a candidate past the far
/// edge stops there; anything else passes through.
pub open spec fn clamp_axis_x(area: int, bound: int, o: int) -> int {
    if o > 0 || bound > area {
        0
    } else if o < -(area - bound) {
        -(area - bound)
    } else {
        o
    }
}

/// The clamp rule for the Y axis. It differs from the X axis in one corner:
/// the far-edge clamp applies only when the content is strictly larger than
/// the viewport, so with `area == bound` a negative candidate passes through
/// unclamped instead of locking to 0. This asymmetry is kept deliberately to
/// match the established behaviour of the rule.
pub open spec fn clamp_axis_y(area: int, bound: int, o: int) -> int {
    if o > 0 || bound > area {
        0
    } else if area > bound && o < -(area - bound) {
        -(area - bound)
    } else {
        o
    }
}

/// The four components of a rectangle, as unbounded integers.
pub open spec fn rect_view(r: [i64; 4]) -> Seq<int> {
    seq![r[0] as int, r[1] as int, r[2] as int, r[3] as int]
}

/// An input event, reduced to the two payloads the controller reads: a
/// pointer position or a scroll-wheel delta. Any richer event stream maps
/// into this by extracting those payloads and sending everything else as
/// `Other`.
#[derive(Clone, Copy, Debug)]
pub enum ControllerEvent {
    /// The pointer moved to this position, in viewport coordinates.
    MouseCursor([i64; 2]),
    /// The mouse wheel scrolled by this delta.
    MouseScroll([i64; 2]),
    /// Any other event; leaves the controller unchanged.
    Other,
}

/// Saturates an `i128` into the `i64` range.
fn saturate_i64(v: i128) -> (r: i64)
    ensures
        r as int == sat_i64(v as int),
{
    if v > i64::MAX as i128 {
        i64::MAX
    } else if v < (i64::MIN as i128) {
        i64::MIN
    } else {
        v as i64
    }
}

/// The product of two `i64` values fits comfortably inside `i128`: room is
/// left to add or subtract one more `i64` without leaving the range.
proof fn lemma_i64_mul_fits_i128(x: int, y: int)
    by (nonlinear_arith)
    requires
        i64::MIN <= x <= i64::MAX,
        i64::MIN <= y <= i64::MAX,
    ensures
        -0x40000000000000000000000000000000 <= x * y <= 0x40000000000000000000000000000000,
{
}

/// Stores information for scrolling.
#[derive(Clone, Copy, Debug)]
pub struct ScrollController {
    /// The last observed pointer position.
    pub cursor: [i64; 2],
    /// The offset of visible area.
    pub offset: [i64; 2],
    /// Visible bounds, as `[x, y, width, height]`.
    pub bounds: [i64; 4],
    /// The size of the scrollable area, as `[width, height]`.
    pub area: [i64; 2],
    /// The scroll speed.
    pub speed: i64,
}

impl ScrollController {
    /// The far-edge clamp targets fit in `i64`: a machine limit, not a rule
    /// of the scroll logic. It holds whenever the content and viewport
    /// extents are anywhere near a sane range.
    pub open spec fn dims_in_range(&self) -> bool {
        &&& self.area[0] - self.bounds[2] <= i64::MAX
        &&& self.area[1] - self.bounds[3] <= i64::MAX
    }

    /// The offset invariant: each axis is clamped between the far edge and
    /// 0. On the Y axis the far edge binds only when content and viewport
    /// extents differ (see `clamp_axis_y`).
    pub open spec fn offset_in_range(&self) -> bool {
        &&& -vstd::math::max(0, self.area[0] - self.bounds[2]) <= self.offset[0] <= 0
        &&& self.offset[1] <= 0
        &&& self.area[1] != self.bounds[3]
            ==> -vstd::math::max(0, self.area[1] - self.bounds[3]) <= self.offset[1]
    }

    /// Creates a new `ScrollController`. All inputs are accepted as given.
    pub fn new(bounds: [i64; 4], area: [i64; 2], settings: &ScrollSettings) -> (c:
        ScrollController)
        ensures
            c.cursor[0] == 0 && c.cursor[1] == 0,
            c.offset[0] == 0 && c.offset[1] == 0,
            c.bounds == bounds,
            c.area == area,
            c.speed == settings.speed,
            c.offset_in_range(),
    {
        ScrollController {
            cursor: [0i64, 0i64],
            offset: [0i64, 0i64],
            bounds,
            area,
            speed: settings.speed,
        }
    }

    /// The rectangle, in content-area coordinates, that is currently visible
    /// through the viewport: `[-offset.x, -offset.y]` with each extent the
    /// smaller of the viewport's and the content's.
    pub open spec fn spec_visible_area_rect(&self) -> Seq<int> {
        seq![
            -(self.offset[0] as int),
            -(self.offset[1] as int),
            vstd::math::min(self.bounds[2] as int, self.area[0] as int),
            vstd::math::min(self.bounds[3] as int, self.area[1] as int),
        ]
    }

    /// Returns the visible rectangle that intersects with the area.
    /// This is used to find what part of the area the user is looking at.
    ///
    /// The width and height are never larger than the content's, and are
    /// non-negative whenever the viewport and content extents are.
    pub fn visible_area_rect(&self) -> (r: [i64; 4])
        requires
            self.offset[0] > i64::MIN,
            self.offset[1] > i64::MIN,
        ensures
            rect_view(r) == self.spec_visible_area_rect(),
            self.bounds[2] >= 0 && self.area[0] >= 0 ==> r[2] >= 0,
            self.bounds[3] >= 0 && self.area[1] >= 0 ==> r[3] >= 0,
    {
        let w: i64 = if self.bounds[2] <= self.area[0] {
            self.bounds[2]
        } else {
            self.area[0]
        };
        let h: i64 = if self.bounds[3] <= self.area[1] {
            self.bounds[3]
        } else {
            self.area[1]
        };
        let r: [i64; 4] = [-self.offset[0], -self.offset[1], w, h];
        proof {
            assert(rect_view(r) =~= self.spec_visible_area_rect());
        }
        r
    }

    /// A rectangle in content-area coordinates carried into view coordinates
    /// by the viewport origin and the current pan: the origin moves to
    /// `bounds.origin - offset - rect.origin`, the size is kept. The sign
    /// convention is mirrored on purpose: paired with the content transform
    /// `bounds.origin + offset` it places an overlay, not the content.
    pub open spec fn spec_rect_from_area_to_view(&self, rect: Seq<int>) -> Seq<int>
        recommends
            rect.len() == 4,
    {
        seq![
            self.bounds[0] - self.offset[0] - rect[0],
            self.bounds[1] - self.offset[1] - rect[1],
            rect[2],
            rect[3],
        ]
    }

    /// Transform a rectangle from area coordinates to view.
    pub fn rect_from_area_to_view(&self, rect: [i64; 4]) -> (r: [i64; 4])
        requires
            i64::MIN <= self.bounds[0] - self.offset[0] - rect[0] <= i64::MAX,
            i64::MIN <= self.bounds[1] - self.offset[1] - rect[1] <= i64::MAX,
        ensures
            rect_view(r) == self.spec_rect_from_area_to_view(rect_view(rect)),
    {
        let x: i64 = (((self.bounds[0] as i128) - (self.offset[0] as i128)) - (rect[0] as i128))
            as i64;
        let y: i64 = (((self.bounds[1] as i128) - (self.offset[1] as i128)) - (rect[1] as i128))
            as i64;
        let r: [i64; 4] = [x, y, rect[2], rect[3]];
        proof {
            assert(rect_view(r) =~= self.spec_rect_from_area_to_view(rect_view(rect)));
        }
        r
    }

    /// True iff the last recorded cursor position lies within the viewport,
    /// half-open on both axes.
    pub open spec fn spec_cursor_inside(&self) -> bool {
        &&& self.cursor[0] >= self.bounds[0]
        &&& self.cursor[1] >= self.bounds[1]
        &&& self.cursor[0] < self.bounds[0] + self.bounds[2]
        &&& self.cursor[1] < self.bounds[1] + self.bounds[3]
    }

    fn cursor_inside(&self) -> (r: bool)
        ensures
            r == self.spec_cursor_inside(),
    {
        let c0: i128 = self.cursor[0] as i128;
        let c1: i128 = self.cursor[1] as i128;
        let b0: i128 = self.bounds[0] as i128;
        let b1: i128 = self.bounds[1] as i128;
        let b2: i128 = self.bounds[2] as i128;
        let b3: i128 = self.bounds[3] as i128;
        c0 >= b0 && c1 >= b1 && c0 < b0 + b2 && c1 < b1 + b3
    }

    /// The unclamped offset one scroll delta proposes on the X axis: the
    /// delta scaled by the speed and subtracted, so the axis moves against
    /// the wheel, saturated at the machine range.
    pub open spec fn scroll_candidate_x(&self, dx: i64) -> int {
        sat_i64(self.offset[0] - dx * self.speed)
    }

    /// The unclamped offset one scroll delta proposes on the Y axis: the
    /// delta scaled by the speed and added, so the axis moves with the
    /// wheel, saturated at the machine range. The opposite signs of the two
    /// axes are kept deliberately.
    pub open spec fn scroll_candidate_y(&self, dy: i64) -> int {
        sat_i64(self.offset[1] + dy * self.speed)
    }

    fn clamp_offset_to_scroll_area(&self, offset: [i64; 2]) -> (r: [i64; 2])
        requires
            self.dims_in_range(),
        ensures
            r[0] == clamp_axis_x(self.area[0] as int, self.bounds[2] as int, offset[0] as int),
            r[1] == clamp_axis_y(self.area[1] as int, self.bounds[3] as int, offset[1] as int),
    {
        let x: i64 = if offset[0] > 0 || self.bounds[2] > self.area[0] {
            0
        } else if offset[0] < -(self.area[0] - self.bounds[2]) {
            -(self.area[0] - self.bounds[2])
        } else {
            offset[0]
        };
        let y: i64 = if offset[1] > 0 || self.bounds[3] > self.area[1] {
            0
        } else if self.area[1] > self.bounds[3] && offset[1] < -(self.area[1] - self.bounds[3]) {
            -(self.area[1] - self.bounds[3])
        } else {
            offset[1]
        };
        [x, y]
    }

    /// Handles an event. A pointer position is recorded unconditionally; a
    /// scroll delta moves the offset only while the cursor is inside the
    /// viewport, and the moved offset is clamped to the scroll area. Any
    /// other event changes nothing.
    pub fn event(&mut self, e: &ControllerEvent)
        requires
            old(self).dims_in_range(),
        ensures
            final(self).bounds == old(self).bounds,
            final(self).area == old(self).area,
            final(self).speed == old(self).speed,
            (match *e {
                ControllerEvent::MouseCursor(pos) => {
                    &&& final(self).cursor == pos
                    &&& final(self).offset == old(self).offset
                },
                ControllerEvent::MouseScroll(d) => {
                    &&& final(self).cursor == old(self).cursor
                    &&& if old(self).spec_cursor_inside() {
                        &&& final(self).offset[0] == clamp_axis_x(
                            old(self).area[0] as int,
                            old(self).bounds[2] as int,
                            old(self).scroll_candidate_x(d[0]),
                        )
                        &&& final(self).offset[1] == clamp_axis_y(
                            old(self).area[1] as int,
                            old(self).bounds[3] as int,
                            old(self).scroll_candidate_y(d[1]),
                        )
                    } else {
                        final(self).offset == old(self).offset
                    }
                },
                ControllerEvent::Other => {
                    &&& final(self).cursor == old(self).cursor
                    &&& final(self).offset == old(self).offset
                },
            }),
            old(self).offset_in_range() ==> final(self).offset_in_range(),
            old(self).offset_in_range() && old(self).bounds[2] >= old(self).area[0]
                ==> final(self).offset[0] == 0,
    {
        match *e {
            ControllerEvent::MouseCursor(pos) => {
                self.cursor = pos;
            },
            ControllerEvent::MouseScroll(d) => {
                if self.cursor_inside() {
                    proof {
                        lemma_i64_mul_fits_i128(d[0] as int, self.speed as int);
                        lemma_i64_mul_fits_i128(d[1] as int, self.speed as int);
                    }
                    let cand_x: i64 = saturate_i64(
                        (self.offset[0] as i128) - (d[0] as i128) * (self.speed as i128),
                    );
                    let cand_y: i64 = saturate_i64(
                        (self.offset[1] as i128) + (d[1] as i128) * (self.speed as i128),
                    );
                    self.offset = self.clamp_offset_to_scroll_area([cand_x, cand_y]);
                }
            },
            ControllerEvent::Other => {},
        }
    }
}

/// Whatever candidate a scroll proposes, the clamped X offset lies between
/// the far edge `-(max(0, area - bound))` and 0.
pub proof fn lemma_clamp_x_in_range(area: int, bound: int, o: int)
    ensures
        -vstd::math::max(0, area - bound) <= clamp_axis_x(area, bound, o) <= 0,
{
}

/// Whatever candidate a scroll proposes, the clamped Y offset never exceeds
/// 0, and lies between the far edge and 0 whenever the content and viewport
/// extents differ; with equal extents a negative candidate passes through,
/// so only the upper end is promised there.
pub proof fn lemma_clamp_y_in_range(area: int, bound: int, o: int)
    ensures
        clamp_axis_y(area, bound, o) <= 0,
        area != bound ==> -vstd::math::max(0, area - bound) <= clamp_axis_y(area, bound, o),
{
}

/// A viewport at least as wide as the content locks the X axis: every
/// candidate clamps to exactly 0.
pub proof fn lemma_clamp_x_locked(area: int, bound: int, o: int)
    requires
        bound >= area,
    ensures
        clamp_axis_x(area, bound, o) == 0,
{
}

/// Mapping the visible-area rectangle back through the area-to-view
/// transform lands exactly at the viewport origin, with the clamped sizes:
/// the current offset cancels out algebraically, wherever the view has been
/// panned to.
pub proof fn lemma_overlay_at_viewport_origin(c: ScrollController)
    ensures
        c.spec_rect_from_area_to_view(c.spec_visible_area_rect()) =~= (seq![
            c.bounds[0] as int,
            c.bounds[1] as int,
            vstd::math::min(c.bounds[2] as int, c.area[0] as int),
            vstd::math::min(c.bounds[3] as int, c.area[1] as int),
        ]),
{
}

/// On the X axis, a scroll whose candidate lands at or past the far edge
/// clamps exactly to the edge; and from the edge, any further step in the
/// same direction stays there, however large. Repeated identical scrolls
/// past the edge therefore converge to the edge and stay.
pub proof fn lemma_scroll_edge_fixed_point_x(area: int, bound: int, cand: int, step: int)
    requires
        bound <= area,
        area - bound <= i64::MAX,
        cand <= -(area - bound),
        step <= 0,
    ensures
        clamp_axis_x(area, bound, cand) == -(area - bound),
        clamp_axis_x(area, bound, sat_i64(-(area - bound) + step)) == -(area - bound),
{
}

/// The Y-axis counterpart of `lemma_scroll_edge_fixed_point_x`. It asks for
/// strictly larger content: with `area == bound` the Y clamp has no far-edge
/// branch and candidates below 0 drift through unclamped.
pub proof fn lemma_scroll_edge_fixed_point_y(area: int, bound: int, cand: int, step: int)
    requires
        bound < area,
        area - bound <= i64::MAX,
        cand <= -(area - bound),
        step <= 0,
    ensures
        clamp_axis_y(area, bound, cand) == -(area - bound),
        clamp_axis_y(area, bound, sat_i64(-(area - bound) + step)) == -(area - bound),
{
}

} // verus!
