//! Screen layout arithmetic: how the terminal area is cut into the regions
//! the rendering collaborator paints — a help line, the input box, one
//! column per lane, and the description pane with its side panel.
//!
//! Proportions follow the classic four-lane screen: inside a one-cell margin, the
//! rows take 8, 12, 50 and 30 percent of the height (the percentages are
//! rounded down, so a short remainder strip at the bottom may stay unused);
//! the lane row is split into equal-width columns; the description row gives
//! 75 percent to the description pane and the rest to the side panel.

use vstd::prelude::*;

verus! {

/// A rectangle of terminal cells.
#[derive(Clone, Copy, Debug, PartialEq, Eq, Structural)]
pub struct Rect {
    pub x: u16,
    pub y: u16,
    pub width: u16,
    pub height: u16,
}

/// A rectangle whose corners fit in the coordinate type.
pub open spec fn rect_bounded(r: Rect) -> bool {
    &&& r.x + r.width <= u16::MAX
    &&& r.y + r.height <= u16::MAX
}

/// `r` lies inside `outer`.
pub open spec fn rect_within(r: Rect, outer: Rect) -> bool {
    &&& outer.x <= r.x
    &&& r.x + r.width <= outer.x + outer.width
    &&& outer.y <= r.y
    &&& r.y + r.height <= outer.y + outer.height
}

/// `percent` percent of `length`, rounded down.
pub open spec fn spec_pct(length: u16, percent: u16) -> int {
    length * percent / 100
}

/// `area` shrunk by a one-cell margin on every side; empty when the area is
/// too small for the margin.
pub open spec fn spec_inner(area: Rect) -> Rect {
    if area.width >= 2 && area.height >= 2 {
        Rect {
            x: (area.x + 1) as u16,
            y: (area.y + 1) as u16,
            width: (area.width - 2) as u16,
            height: (area.height - 2) as u16,
        }
    } else {
        Rect { x: area.x, y: area.y, width: 0, height: 0 }
    }
}

/// The help line: the top row of the margined area, 8 percent of its height.
pub open spec fn spec_help_rect(area: Rect) -> Rect {
    let inner = spec_inner(area);
    Rect {
        x: inner.x,
        y: inner.y,
        width: inner.width,
        height: spec_pct(inner.height, 8) as u16,
    }
}

/// The input box: below the help line, 12 percent of the margined height.
pub open spec fn spec_input_rect(area: Rect) -> Rect {
    let inner = spec_inner(area);
    Rect {
        x: inner.x,
        y: (inner.y + spec_pct(inner.height, 8)) as u16,
        width: inner.width,
        height: spec_pct(inner.height, 12) as u16,
    }
}

/// The row holding the lane columns: 50 percent of the margined height.
pub open spec fn spec_lanes_row(area: Rect) -> Rect {
    let inner = spec_inner(area);
    Rect {
        x: inner.x,
        y: (inner.y + spec_pct(inner.height, 8) + spec_pct(inner.height, 12)) as u16,
        width: inner.width,
        height: spec_pct(inner.height, 50) as u16,
    }
}

/// The row holding the description pane: the remaining 30 percent.
pub open spec fn spec_desc_row(area: Rect) -> Rect {
    let inner = spec_inner(area);
    Rect {
        x: inner.x,
        y: (inner.y + spec_pct(inner.height, 8) + spec_pct(inner.height, 12) + spec_pct(
            inner.height,
            50,
        )) as u16,
        width: inner.width,
        height: spec_pct(inner.height, 30) as u16,
    }
}

/// The width of one lane column: the margined lane row split evenly.
pub open spec fn spec_lane_width(area: Rect, lane_count: int) -> int {
    spec_inner(spec_lanes_row(area)).width as int / lane_count
}

/// The computed screen regions.
pub struct MainLayout {
    pub help: Rect,
    pub input: Rect,
    pub lanes: Vec<Rect>,
    pub description: Rect,
    pub detail: Rect,
}

/// Integer division distributes sub-additively over sums: splitting before
/// dividing never yields more than dividing the sum.
proof fn lemma_div_sum_le(a: int, b: int, d: int)
    requires
        d > 0,
        a >= 0,
        b >= 0,
    ensures
        a / d + b / d <= (a + b) / d,
{
    vstd::arithmetic::div_mod::lemma_fundamental_div_mod(a, d);
    vstd::arithmetic::div_mod::lemma_fundamental_div_mod(b, d);
    vstd::arithmetic::div_mod::lemma_mod_bound(a, d);
    vstd::arithmetic::div_mod::lemma_mod_bound(b, d);
    vstd::arithmetic::mul::lemma_mul_is_distributive_add(d, a / d, b / d);
    if a % d + b % d < d {
        vstd::arithmetic::div_mod::lemma_fundamental_div_mod_converse_div(
            a + b,
            d,
            a / d + b / d,
            a % d + b % d,
        );
    } else {
        vstd::arithmetic::mul::lemma_mul_is_distributive_add(d, a / d + b / d, 1);
        vstd::arithmetic::div_mod::lemma_fundamental_div_mod_converse_div(
            a + b,
            d,
            a / d + b / d + 1,
            a % d + b % d - d,
        );
    }
}

/// The four row heights fit inside the margined height together.
proof fn lemma_rows_fit(h: u16)
    ensures
        spec_pct(h, 8) + spec_pct(h, 12) + spec_pct(h, 50) + spec_pct(h, 30) <= h,
        spec_pct(h, 8) >= 0,
        spec_pct(h, 12) >= 0,
        spec_pct(h, 50) >= 0,
        spec_pct(h, 30) >= 0,
{
    let hi = h as int;
    lemma_div_sum_le(hi * 8, hi * 12, 100);
    lemma_div_sum_le(hi * 20, hi * 50, 100);
    lemma_div_sum_le(hi * 70, hi * 30, 100);
    vstd::arithmetic::div_mod::lemma_fundamental_div_mod_converse_div(hi * 100, 100, hi, 0);
}

/// A percentage of a length, rounded down. Never exceeds the length.
fn pct(length: u16, percent: u16) -> (r: u16)
    requires
        percent <= 100,
    ensures
        r == spec_pct(length, percent),
        r <= length,
{
    proof {
        let li = length as int;
        let pi = percent as int;
        vstd::arithmetic::mul::lemma_mul_inequality(pi, 100, li);
        vstd::arithmetic::div_mod::lemma_div_is_ordered(li * pi, li * 100, 100);
        vstd::arithmetic::div_mod::lemma_fundamental_div_mod_converse_div(li * 100, 100, li, 0);
        vstd::arithmetic::div_mod::lemma_div_pos_is_pos(li * pi, 100);
        vstd::arithmetic::mul::lemma_mul_nonnegative(li, pi);
    }
    (((length as u32) * (percent as u32)) / 100) as u16
}

/// `area` shrunk by a one-cell margin on every side.
fn inner_rect(area: Rect) -> (r: Rect)
    requires
        rect_bounded(area),
    ensures
        r == spec_inner(area),
        rect_bounded(r),
        rect_within(r, area),
{
    if area.width >= 2 && area.height >= 2 {
        Rect { x: area.x + 1, y: area.y + 1, width: area.width - 2, height: area.height - 2 }
    } else {
        Rect { x: area.x, y: area.y, width: 0, height: 0 }
    }
}

/// Cuts the screen `area` into the regions of the main screen: the
/// help line, the input box, `lane_count` equal lane columns, and the
/// description pane with its side panel. Every region lies inside `area`;
/// the exact coordinates are fixed by the `spec_*` functions of this module.
pub fn draw_main_layout(area: Rect, lane_count: usize) -> (layout: MainLayout)
    requires
        rect_bounded(area),
        1 <= lane_count,
    ensures
        layout.help == spec_help_rect(area),
        layout.input == spec_input_rect(area),
        layout.description.x == spec_inner(spec_desc_row(area)).x,
        layout.description.y == spec_inner(spec_desc_row(area)).y,
        layout.description.height == spec_inner(spec_desc_row(area)).height,
        layout.description.width == spec_pct(spec_inner(spec_desc_row(area)).width, 75),
        layout.detail.x == spec_inner(spec_desc_row(area)).x + layout.description.width,
        layout.detail.y == spec_inner(spec_desc_row(area)).y,
        layout.detail.height == spec_inner(spec_desc_row(area)).height,
        layout.detail.width == spec_inner(spec_desc_row(area)).width - layout.description.width,
        layout.lanes@.len() == lane_count,
        forall|i: int|
            0 <= i < lane_count ==> #[trigger] layout.lanes@[i] == (Rect {
                x: (spec_inner(spec_lanes_row(area)).x + i * spec_lane_width(
                    area,
                    lane_count as int,
                )) as u16,
                y: spec_inner(spec_lanes_row(area)).y,
                width: spec_lane_width(area, lane_count as int) as u16,
                height: spec_inner(spec_lanes_row(area)).height,
            }),
        rect_within(layout.help, area),
        rect_within(layout.input, area),
        rect_within(layout.description, area),
        rect_within(layout.detail, area),
        forall|i: int| 0 <= i < lane_count ==> rect_within(#[trigger] layout.lanes@[i], area),
{
    let inner = inner_rect(area);
    proof {
        lemma_rows_fit(inner.height);
    }
    let help_h = pct(inner.height, 8);
    let input_h = pct(inner.height, 12);
    let lanes_h = pct(inner.height, 50);
    let desc_h = pct(inner.height, 30);
    let help = Rect { x: inner.x, y: inner.y, width: inner.width, height: help_h };
    let input = Rect { x: inner.x, y: inner.y + help_h, width: inner.width, height: input_h };
    let lanes_row = Rect {
        x: inner.x,
        y: input.y + input_h,
        width: inner.width,
        height: lanes_h,
    };
    let desc_row = Rect {
        x: inner.x,
        y: lanes_row.y + lanes_h,
        width: inner.width,
        height: desc_h,
    };
    let lanes_inner = inner_rect(lanes_row);
    let column_width: u16 = ((lanes_inner.width as usize) / lane_count) as u16;
    proof {
        vstd::arithmetic::div_mod::lemma_fundamental_div_mod(
            lanes_inner.width as int,
            lane_count as int,
        );
        vstd::arithmetic::div_mod::lemma_mod_bound(lanes_inner.width as int, lane_count as int);
    }
    let mut lanes: Vec<Rect> = Vec::new();
    let mut x: u16 = lanes_inner.x;
    let mut i: usize = 0;
    while i < lane_count
        invariant
            1 <= lane_count,
            i <= lane_count,
            lanes@.len() == i as int,
            column_width == spec_lane_width(area, lane_count as int),
            lanes_inner == spec_inner(spec_lanes_row(area)),
            rect_bounded(lanes_inner),
            x == lanes_inner.x + i * column_width,
            x + (lane_count - i) * column_width <= lanes_inner.x + lanes_inner.width,
            forall|j: int|
                0 <= j < i as int ==> #[trigger] lanes@[j] == (Rect {
                    x: (lanes_inner.x + j * column_width as int) as u16,
                    y: lanes_inner.y,
                    width: column_width,
                    height: lanes_inner.height,
                }),
        decreases lane_count - i,
    {
        proof {
            vstd::arithmetic::mul::lemma_mul_is_distributive_sub_other_way(
                column_width as int,
                lane_count - i as int,
                1,
            );
            vstd::arithmetic::mul::lemma_mul_nonnegative(
                lane_count - i as int - 1,
                column_width as int,
            );
            vstd::arithmetic::mul::lemma_mul_is_distributive_add_other_way(
                column_width as int,
                i as int,
                1,
            );
        }
        lanes.push(Rect { x, y: lanes_inner.y, width: column_width, height: lanes_inner.height });
        x = x + column_width;
        i = i + 1;
    }
    let desc_inner = inner_rect(desc_row);
    let description_w = pct(desc_inner.width, 75);
    let description = Rect {
        x: desc_inner.x,
        y: desc_inner.y,
        width: description_w,
        height: desc_inner.height,
    };
    let detail = Rect {
        x: desc_inner.x + description_w,
        y: desc_inner.y,
        width: desc_inner.width - description_w,
        height: desc_inner.height,
    };
    proof {
        assert forall|j: int| 0 <= j < lane_count implies rect_within(
            #[trigger] lanes@[j],
            area,
        ) by {
            vstd::arithmetic::mul::lemma_mul_nonnegative(j, column_width as int);
            vstd::arithmetic::mul::lemma_mul_is_distributive_add_other_way(
                column_width as int,
                j,
                1,
            );
            vstd::arithmetic::mul::lemma_mul_inequality(j + 1, lane_count as int, column_width as int);
        }
    }
    MainLayout { help, input, lanes, description, detail }
}

} // verus!
