//! Sizes, positions and pointer regions of the popup window.

use vstd::prelude::*;

use crate::numbers::{round_away, round_half_away};

verus! {

pub const SEGMENT_W: i32 = 10;

pub const SEGMENT_H: i32 = 13;

pub const SEGMENT_GAP: i32 = 1;

pub const SEGMENT_COUNT: i32 = 10;

pub const CORNER_RADIUS: i32 = 2;

pub const LEFT_DIVIDER_W: i32 = 3;

pub const DIVIDER_RIGHT_MARGIN: i32 = 10;

pub const LABEL_WIDTH: i32 = 18;

pub const LABEL_RIGHT_MARGIN: i32 = 10;

pub const BAR_RIGHT_MARGIN: i32 = 4;

/// Text budget of the only provider column.
pub const TEXT_WIDTH: i32 = 160;

/// Least text budget per column when several providers share the widget.
pub const MIN_MULTI_PROVIDER_TEXT_WIDTH: i32 = 96;

pub const MAX_WIDGET_WIDTH_LOGICAL: i32 = 1200;

pub const RESIZE_EDGE_LOGICAL: i32 = 6;

pub const MODEL_RIGHT_MARGIN: i32 = 3;

pub const RIGHT_MARGIN: i32 = 1;

/// The largest DPI that the pixel arithmetic below is carried out for.
pub const MAX_DPI: u32 = 1_000_000;

/// The largest number of provider columns that it is carried out for.
pub const MAX_FAMILIES: i32 = 100;

/// A rectangle in pixels; `right` and `bottom` lie just outside.
#[derive(Clone, Copy, Debug, PartialEq, Eq, Structural)]
pub struct Rect {
    pub left: i32,
    pub top: i32,
    pub right: i32,
    pub bottom: i32,
}

#[derive(Clone, Copy, Debug, PartialEq, Eq, Structural)]
pub enum HorizontalResizeEdge {
    Left,
    Right,
}

/// A resize in progress: which edge, and where cursor and window were at its start.
#[derive(Clone, Copy, Debug, PartialEq, Eq, Structural)]
pub struct HorizontalResizeSession {
    pub edge: HorizontalResizeEdge,
    pub start_cursor_screen_x: i32,
    pub start_window_rect: Rect,
}

/// What a press at some point of the popup starts.
#[derive(Clone, Copy, Debug, PartialEq, Eq, Structural)]
pub enum PointerInteractionTarget {
    HorizontalResize(HorizontalResizeEdge),
    HeaderDrag,
    Nothing,
}

// ---- scaling ---------------------------------------------------------------

/// `v`, or the end of the range of `i32` that it lies beyond.
pub open spec fn to_i32(v: int) -> int {
    if v < i32::MIN {
        i32::MIN as int
    } else if v > i32::MAX {
        i32::MAX as int
    } else {
        v
    }
}

/// `v` kept within `low` and `high`.
pub open spec fn clamped(v: int, low: int, high: int) -> int {
    if v < low {
        low
    } else if v > high {
        high
    } else {
        v
    }
}

/// The larger of two numbers.
pub open spec fn larger(a: int, b: int) -> int {
    if a >= b {
        a
    } else {
        b
    }
}

/// The smaller of two numbers.
pub open spec fn smaller(a: int, b: int) -> int {
    if a <= b {
        a
    } else {
        b
    }
}

/// A length designed at 96 DPI, in pixels at `dpi`.
pub open spec fn scaled(px: int, dpi: int) -> int {
    to_i32(round_half_away(px * dpi, 96))
}

fn saturate(v: i128) -> (r: i32)
    ensures
        r == to_i32(v as int),
{
    if v < i32::MIN as i128 {
        i32::MIN
    } else if v > i32::MAX as i128 {
        i32::MAX
    } else {
        v as i32
    }
}

/// Scales a base pixel value to the current DPI.
pub fn sc(px: i32, dpi: u32) -> (r: i32)
    ensures
        r == scaled(px as int, dpi as int),
{
    assert(-0x8000_0000_0000_0000_0000 <= px * dpi <= 0x8000_0000_0000_0000_0000)
        by (nonlinear_arith)
        requires
            -0x8000_0000 <= px <= 0x7fff_ffff,
            0 <= dpi <= 0xffff_ffff,
    ;
    saturate(round_away(px as i128 * dpi as i128, 96))
}

/// The effective DPI: an unknown one counts as one.
pub open spec fn effective_dpi(dpi: u32) -> int {
    if dpi == 0 {
        1
    } else {
        dpi as int
    }
}

/// Scales a base pixel value to `dpi`, an unknown DPI counting as one.
pub fn scaled_for_dpi(px: i32, dpi: u32) -> (r: i32)
    ensures
        r == scaled(px as int, effective_dpi(dpi)),
{
    if dpi == 0 {
        sc(px, 1)
    } else {
        sc(px, dpi)
    }
}

/// The 96-DPI length that has `px` pixels at `dpi`.
pub fn logical_from_device(px: i32, dpi: u32) -> (r: i32)
    ensures
        r == to_i32(round_half_away(px * 96, effective_dpi(dpi))),
{
    let dpi: u32 = if dpi == 0 {
        1
    } else {
        dpi
    };
    saturate(round_away(px as i128 * 96, dpi as i128))
}

/// Bounds of a scaled design length.
pub broadcast proof fn scaled_design_length_bounds(px: int, dpi: int)
    requires
        0 <= px <= 10_000,
        0 <= dpi <= 1_000_000,
    ensures
        0 <= #[trigger] scaled(px, dpi) <= 10_417 * px,
{
    assert(0 <= px * dpi <= px * 1_000_000) by (nonlinear_arith)
        requires
            0 <= px,
            0 <= dpi <= 1_000_000,
    ;
    let n = 2 * (px * dpi) + 96;
    assert(round_half_away(px * dpi, 96) == n / 192);
    assert(n / 192 <= 10_417 * px);
}

/// Bounds of a scaled short length, at every DPI.
pub proof fn scaled_small_length_bounds(px: int, dpi: u32)
    requires
        0 <= px <= 47,
    ensures
        0 <= scaled(px, dpi as int) <= 44_739_243 * px,
        -96 <= 2 * (px * dpi - 96 * scaled(px, dpi as int)) <= 96,
{
    let d = dpi as int;
    assert(0 <= px * d <= px * 0xffff_ffff) by (nonlinear_arith)
        requires
            0 <= px,
            0 <= d <= 0xffff_ffff,
    ;
    let n = 2 * (px * d) + 96;
    assert(round_half_away(px * d, 96) == n / 192);
    assert(n / 192 <= 44_739_243 * px);
}

/// A larger design length never scales to fewer pixels.
pub proof fn scaled_is_monotone(a: int, b: int, dpi: int)
    requires
        a <= b,
        0 <= dpi,
    ensures
        scaled(a, dpi) <= scaled(b, dpi),
{
    assert(a * dpi <= b * dpi) by (nonlinear_arith)
        requires
            a <= b,
            0 <= dpi,
    ;
}

/// At a whole multiple of 96 DPI scaling is plain multiplication.
pub proof fn scaled_at_whole_scale(px: int, scale: int)
    requires
        0 <= scale,
        i32::MIN <= px * scale <= i32::MAX,
    ensures
        scaled(px, 96 * scale) == px * scale,
{
    assert(px * (96 * scale) == 96 * (px * scale)) by (nonlinear_arith);
    let m = px * scale;
    if m >= 0 {
        assert((2 * (96 * m) + 96) / 192 == m);
    } else {
        assert((2 * -(96 * m) + 96) / 192 == -m);
    }
}

proof fn lemma_scaled_is_near(exact: int, shown: int)
    requires
        0 <= exact,
        shown == (2 * exact + 96) / 192,
    ensures
        2 * exact - 96 < 192 * shown <= 2 * exact + 96,
{
}

/// A saved length survives being shown and saved again at any scale from 96 DPI on, as
/// long as its pixels can be counted in 32 bits.
pub proof fn saved_length_survives_scaling(px: int, dpi: int)
    requires
        0 <= px,
        96 <= dpi,
        px * dpi <= 96 * i32::MAX,
    ensures
        round_half_away(scaled(px, dpi) * 96, dpi) == px,
{
    let exact = px * dpi;
    let shown = scaled(px, dpi);
    assert(0 <= exact) by (nonlinear_arith)
        requires
            exact == px * dpi,
            0 <= px,
            0 <= dpi,
    ;
    assert(shown == (2 * exact + 96) / 192);
    lemma_scaled_is_near(exact, shown);
    if dpi == 96 {
        assert(exact == 96 * px) by (nonlinear_arith)
            requires
                exact == px * dpi,
                dpi == 96,
        ;
    }
    let n = 192 * shown + dpi;
    assert(n / (2 * dpi) == px) by (nonlinear_arith)
        requires
            exact == px * dpi,
            2 * exact <= n < 2 * exact + 2 * dpi,
            dpi > 0,
    ;
}

// ---- pointer regions -------------------------------------------------------

pub open spec fn spec_is_drag_region_point(
    client_x: i32,
    client_y: i32,
    width: i32,
    header_band_bottom: i32,
) -> bool {
    0 <= client_x < width && 0 <= client_y < header_band_bottom
}

/// Whether a point lies in the popup's draggable header band.
#[verifier::when_used_as_spec(spec_is_drag_region_point)]
pub fn is_drag_region_point(
    client_x: i32,
    client_y: i32,
    width: i32,
    header_band_bottom: i32,
) -> (r: bool)
    ensures
        r == spec_is_drag_region_point(client_x, client_y, width, header_band_bottom),
{
    client_x >= 0 && client_x < width && client_y >= 0 && client_y < header_band_bottom
}

/// Width of the strips at which the popup can be resized.
pub fn horizontal_resize_edge_width_for_dpi(dpi: u32) -> (r: i32)
    ensures
        r == larger(scaled(RESIZE_EDGE_LOGICAL as int, effective_dpi(dpi)), 4),
{
    let width: i32 = scaled_for_dpi(RESIZE_EDGE_LOGICAL, dpi);
    if width >= 4 {
        width
    } else {
        4
    }
}

pub open spec fn spec_horizontal_resize_edge_at(
    client_x: i32,
    client_width: i32,
    edge_width: i32,
) -> Option<HorizontalResizeEdge> {
    let edge = smaller(larger(edge_width as int, 1), client_width as int);
    if !(0 <= client_x < client_width) {
        None
    } else if client_x < edge {
        Some(HorizontalResizeEdge::Left)
    } else if client_x >= client_width - edge {
        Some(HorizontalResizeEdge::Right)
    } else {
        None
    }
}

/// The resize strip at a client x, if there is one. The left strip wins where the
/// two meet.
#[verifier::when_used_as_spec(spec_horizontal_resize_edge_at)]
pub fn horizontal_resize_edge_at(client_x: i32, client_width: i32, edge_width: i32) -> (r: Option<
    HorizontalResizeEdge,
>)
    ensures
        r == spec_horizontal_resize_edge_at(client_x, client_width, edge_width),
{
    if client_x < 0 || client_x >= client_width || client_width <= 0 {
        return None;
    }
    let at_least_one: i32 = if edge_width >= 1 {
        edge_width
    } else {
        1
    };
    let edge: i32 = if at_least_one <= client_width {
        at_least_one
    } else {
        client_width
    };
    if client_x < edge {
        Some(HorizontalResizeEdge::Left)
    } else if client_x >= client_width - edge {
        Some(HorizontalResizeEdge::Right)
    } else {
        None
    }
}

pub open spec fn spec_pointer_interaction_target(
    client_x: i32,
    client_y: i32,
    client_width: i32,
    resize_edge_width: i32,
    header_bottom: i32,
) -> PointerInteractionTarget {
    match horizontal_resize_edge_at(client_x, client_width, resize_edge_width) {
        Some(edge) => PointerInteractionTarget::HorizontalResize(edge),
        None => if is_drag_region_point(client_x, client_y, client_width, header_bottom) {
            PointerInteractionTarget::HeaderDrag
        } else {
            PointerInteractionTarget::Nothing
        },
    }
}

/// What a press at a point starts: a resize at the edges, else a drag in the
/// header band.
#[verifier::when_used_as_spec(spec_pointer_interaction_target)]
pub fn pointer_interaction_target(
    client_x: i32,
    client_y: i32,
    client_width: i32,
    resize_edge_width: i32,
    header_bottom: i32,
) -> (r: PointerInteractionTarget)
    ensures
        r == spec_pointer_interaction_target(
            client_x,
            client_y,
            client_width,
            resize_edge_width,
            header_bottom,
        ),
{
    match horizontal_resize_edge_at(client_x, client_width, resize_edge_width) {
        Some(edge) => PointerInteractionTarget::HorizontalResize(edge),
        None => if is_drag_region_point(client_x, client_y, client_width, header_bottom) {
            PointerInteractionTarget::HeaderDrag
        } else {
            PointerInteractionTarget::Nothing
        },
    }
}

// ---- dragging and resizing -------------------------------------------------

/// Where the window is while it is dragged: its start, shifted by how far the
/// cursor has moved.
pub fn drag_follow_position(
    start_window: (i32, i32),
    start_mouse: (i32, i32),
    current_mouse: (i32, i32),
) -> (r: (i32, i32))
    requires
        i32::MIN <= current_mouse.0 - start_mouse.0 <= i32::MAX,
        i32::MIN <= current_mouse.1 - start_mouse.1 <= i32::MAX,
        i32::MIN <= start_window.0 + (current_mouse.0 - start_mouse.0) <= i32::MAX,
        i32::MIN <= start_window.1 + (current_mouse.1 - start_mouse.1) <= i32::MAX,
    ensures
        r.0 == start_window.0 + (current_mouse.0 - start_mouse.0),
        r.1 == start_window.1 + (current_mouse.1 - start_mouse.1),
{
    (
        start_window.0 + (current_mouse.0 - start_mouse.0),
        start_window.1 + (current_mouse.1 - start_mouse.1),
    )
}

fn saturating_add(a: i32, b: i32) -> (r: i32)
    ensures
        r == to_i32(a + b),
{
    saturate(a as i128 + b as i128)
}

fn saturating_sub(a: i32, b: i32) -> (r: i32)
    ensures
        r == to_i32(a - b),
{
    saturate(a as i128 - b as i128)
}

/// The width that a resize asks for, within its limits.
pub open spec fn resize_width(
    session: HorizontalResizeSession,
    cursor_screen_x: i32,
    minimum_width: i32,
    maximum_width: i32,
) -> int {
    let start_width = to_i32(session.start_window_rect.right - session.start_window_rect.left);
    let delta = to_i32(cursor_screen_x - session.start_cursor_screen_x);
    let desired = match session.edge {
        HorizontalResizeEdge::Left => to_i32(start_width - delta),
        HorizontalResizeEdge::Right => to_i32(start_width + delta),
    };
    clamped(desired, minimum_width as int, maximum_width as int)
}

/// The window while it is resized: the edge opposite to the dragged one and the
/// top stay, the width follows the cursor within its limits, and the height is the
/// content's.
pub fn horizontal_resize_rect(
    session: HorizontalResizeSession,
    cursor_screen_x: i32,
    minimum_width: i32,
    maximum_width: i32,
    required_height: i32,
) -> (r: Rect)
    requires
        minimum_width <= maximum_width,
    ensures
        r.top == session.start_window_rect.top,
        r.bottom == to_i32(session.start_window_rect.top + required_height),
        session.edge is Left ==> r.right == session.start_window_rect.right && r.left == to_i32(
            session.start_window_rect.right - resize_width(
                session,
                cursor_screen_x,
                minimum_width,
                maximum_width,
            ),
        ),
        session.edge is Right ==> r.left == session.start_window_rect.left && r.right == to_i32(
            session.start_window_rect.left + resize_width(
                session,
                cursor_screen_x,
                minimum_width,
                maximum_width,
            ),
        ),
{
    let start: Rect = session.start_window_rect;
    let start_width: i32 = saturating_sub(start.right, start.left);
    let delta: i32 = saturating_sub(cursor_screen_x, session.start_cursor_screen_x);
    let desired: i32 = match session.edge {
        HorizontalResizeEdge::Left => saturating_sub(start_width, delta),
        HorizontalResizeEdge::Right => saturating_add(start_width, delta),
    };
    let width: i32 = clamp(desired, minimum_width, maximum_width);
    let bottom: i32 = saturating_add(start.top, required_height);
    match session.edge {
        HorizontalResizeEdge::Left => Rect {
            left: saturating_sub(start.right, width),
            top: start.top,
            right: start.right,
            bottom,
        },
        HorizontalResizeEdge::Right => Rect {
            left: start.left,
            top: start.top,
            right: saturating_add(start.left, width),
            bottom,
        },
    }
}

fn clamp(v: i32, low: i32, high: i32) -> (r: i32)
    requires
        low <= high,
    ensures
        r == clamped(v as int, low as int, high as int),
{
    if v < low {
        low
    } else if v > high {
        high
    } else {
        v
    }
}

/// Ends a resize; tells whether there was one.
pub fn clear_horizontal_resize_session(session: &mut Option<HorizontalResizeSession>) -> (r: bool)
    ensures
        r == (*old(session) is Some),
        *final(session) is None,
{
    session.take().is_some()
}

/// What a completed resize saves: the width in 96-DPI pixels, and the window's
/// place where it had been moved by hand.
pub fn completed_resize_settings(
    rect: Rect,
    dpi: u32,
    manual_position: Option<(i32, i32)>,
) -> (r: (i32, Option<(i32, i32)>))
    requires
        i32::MIN <= rect.right - rect.left <= i32::MAX,
    ensures
        r.0 == to_i32(round_half_away((rect.right - rect.left) * 96, effective_dpi(dpi))),
        r.1 == (match manual_position {
            Some(_) => Some((rect.left, rect.top)),
            None => None,
        }),
{
    (
        logical_from_device(rect.right - rect.left, dpi),
        match manual_position {
            Some(_) => Some((rect.left, rect.top)),
            None => None,
        },
    )
}

// ---- widths ----------------------------------------------------------------

pub open spec fn spec_active_family_count(
    show_claude_code: bool,
    show_codex: bool,
    show_antigravity: bool,
    show_github_copilot: bool,
) -> i32 {
    let n: int = (if show_claude_code {
        1int
    } else {
        0
    }) + (if show_codex {
        1int
    } else {
        0
    }) + (if show_antigravity {
        1int
    } else {
        0
    }) + (if show_github_copilot {
        1int
    } else {
        0
    });
    larger(n, 1) as i32
}

/// How many provider columns there are; never fewer than one.
#[verifier::when_used_as_spec(spec_active_family_count)]
pub fn active_family_count(
    show_claude_code: bool,
    show_codex: bool,
    show_antigravity: bool,
    show_github_copilot: bool,
) -> (r: i32)
    ensures
        r == spec_active_family_count(
            show_claude_code,
            show_codex,
            show_antigravity,
            show_github_copilot,
        ),
        1 <= r <= 4,
{
    let mut count: i32 = 0;
    if show_claude_code {
        count += 1;
    }
    if show_codex {
        count += 1;
    }
    if show_antigravity {
        count += 1;
    }
    if show_github_copilot {
        count += 1;
    }
    if count >= 1 {
        count
    } else {
        1
    }
}

pub open spec fn spec_row_bar_segment_count(active_models: i32) -> i32 {
    if active_models == 1 {
        10
    } else if active_models == 2 {
        5
    } else {
        4
    }
}

/// Segments per usage bar; fewer where more columns share the row.
#[verifier::when_used_as_spec(spec_row_bar_segment_count)]
pub fn row_bar_segment_count(active_models: i32) -> (r: i32)
    ensures
        r == spec_row_bar_segment_count(active_models),
{
    match active_models {
        1 => SEGMENT_COUNT,
        2 => 5,
        _ => 4,
    }
}

/// Width of a bar and its right margin at 96 DPI.
pub open spec fn bar_width_logical(segment_count: int) -> int {
    11 * segment_count - 1 + 4
}

pub fn usage_bar_logical_width(segment_count: i32) -> (r: i32)
    requires
        0 <= segment_count <= 1_000_000,
    ensures
        r == bar_width_logical(segment_count as int),
{
    let pitch: i32 = SEGMENT_W + SEGMENT_GAP;
    assert(pitch * segment_count == 11 * segment_count) by (nonlinear_arith)
        requires
            pitch == 11,
    ;
    pitch * segment_count - SEGMENT_GAP + BAR_RIGHT_MARGIN
}

/// Width of a bar and its right margin in pixels.
pub open spec fn bar_width_device(segment_count: int, dpi: int) -> int {
    (scaled(10, dpi) + scaled(1, dpi)) * segment_count - scaled(1, dpi) + scaled(4, dpi)
}

pub fn usage_bar_device_width(segment_count: i32, dpi: u32) -> (r: i32)
    requires
        0 <= segment_count <= 1_000,
        dpi <= MAX_DPI,
    ensures
        r == bar_width_device(segment_count as int, effective_dpi(dpi)),
{
    broadcast use scaled_design_length_bounds;

    let pitch: i32 = scaled_for_dpi(SEGMENT_W, dpi) + scaled_for_dpi(SEGMENT_GAP, dpi);
    assert(0 <= pitch * segment_count <= 114_587 * 1_000) by (nonlinear_arith)
        requires
            0 <= pitch <= 114_587,
            0 <= segment_count <= 1_000,
    ;
    pitch * segment_count - scaled_for_dpi(SEGMENT_GAP, dpi) + scaled_for_dpi(BAR_RIGHT_MARGIN, dpi)
}

/// Width of everything but the columns, at 96 DPI.
pub open spec fn fixed_width_logical(active_families: int) -> int {
    3 + 10 + 18 + 10 + 3 * (active_families - 1) + 1
}

pub fn fixed_widget_logical_width(active_families: i32) -> (r: i32)
    requires
        -1_000_000 <= active_families <= 1_000_000,
    ensures
        r == fixed_width_logical(active_families as int),
{
    LEFT_DIVIDER_W + DIVIDER_RIGHT_MARGIN + LABEL_WIDTH + LABEL_RIGHT_MARGIN + MODEL_RIGHT_MARGIN
        * (active_families - 1) + RIGHT_MARGIN
}

/// Width of everything but the columns, in pixels.
pub open spec fn fixed_width_device(active_families: int, dpi: int) -> int {
    scaled(3, dpi) + scaled(10, dpi) + scaled(18, dpi) + scaled(10, dpi) + scaled(3, dpi) * (
    active_families - 1) + scaled(1, dpi)
}

pub fn fixed_widget_device_width(active_families: i32, dpi: u32) -> (r: i32)
    requires
        -MAX_FAMILIES <= active_families <= MAX_FAMILIES,
        dpi <= MAX_DPI,
    ensures
        r == fixed_width_device(active_families as int, effective_dpi(dpi)),
        -4_000_000 <= r <= 4_000_000,
        active_families >= 1 ==> r >= 0,
{
    broadcast use scaled_design_length_bounds;

    let margin: i32 = scaled_for_dpi(MODEL_RIGHT_MARGIN, dpi);
    assert(-31_251 * 101 <= margin * (active_families - 1) <= 31_251 * 100) by (nonlinear_arith)
        requires
            0 <= margin <= 31_251,
            -100 <= active_families <= 100,
    ;
    assert(active_families >= 1 ==> margin * (active_families - 1) >= 0) by (nonlinear_arith)
        requires
            0 <= margin,
    ;
    scaled_for_dpi(LEFT_DIVIDER_W, dpi) + scaled_for_dpi(DIVIDER_RIGHT_MARGIN, dpi)
        + scaled_for_dpi(LABEL_WIDTH, dpi) + scaled_for_dpi(LABEL_RIGHT_MARGIN, dpi) + margin * (
    active_families - 1) + scaled_for_dpi(RIGHT_MARGIN, dpi)
}

/// Width of all columns and what surrounds them, for a text budget per column.
pub open spec fn widget_width_logical(active_families: int, text_width: int) -> int {
    fixed_width_logical(active_families) + (bar_width_logical(
        spec_row_bar_segment_count(active_families as i32) as int,
    ) + text_width) * active_families
}

/// The text budget per column at its least.
pub open spec fn minimum_text_width(active_families: int) -> int {
    if active_families == 1 {
        160
    } else {
        96
    }
}

fn at_least_one(n: i32) -> (r: i32)
    ensures
        r == larger(n as int, 1),
{
    if n >= 1 {
        n
    } else {
        1
    }
}

/// The width at 96 DPI that the widget has until the user resizes it.
pub fn default_widget_width_logical_for(active_families: i32) -> (r: i32)
    requires
        active_families <= MAX_FAMILIES,
    ensures
        r == widget_width_logical(larger(active_families as int, 1), 160),
        0 <= r <= 40_000,
{
    let families: i32 = at_least_one(active_families);
    let column: i32 = usage_bar_logical_width(row_bar_segment_count(families)) + TEXT_WIDTH;
    assert(0 <= column * families <= 274 * 100) by (nonlinear_arith)
        requires
            0 <= column <= 274,
            1 <= families <= 100,
    ;
    fixed_widget_logical_width(families) + column * families
}

/// The least width at 96 DPI.
pub fn minimum_widget_width_logical_for(active_families: i32) -> (r: i32)
    requires
        active_families <= MAX_FAMILIES,
    ensures
        r == widget_width_logical(
            larger(active_families as int, 1),
            minimum_text_width(larger(active_families as int, 1)),
        ),
{
    let families: i32 = at_least_one(active_families);
    let text_width: i32 = if families == 1 {
        TEXT_WIDTH
    } else {
        MIN_MULTI_PROVIDER_TEXT_WIDTH
    };
    let column: i32 = usage_bar_logical_width(row_bar_segment_count(families)) + text_width;
    assert(0 <= column * families <= 274 * 100) by (nonlinear_arith)
        requires
            0 <= column <= 274,
            1 <= families <= 100,
    ;
    fixed_widget_logical_width(families) + column * families
}

/// Width in pixels of all columns and what surrounds them.
pub open spec fn widget_width_device(active_families: int, text_width: int, dpi: int) -> int {
    fixed_width_device(active_families, dpi) + (bar_width_device(
        spec_row_bar_segment_count(active_families as i32) as int,
        dpi,
    ) + scaled(text_width, dpi)) * active_families
}

/// Least and largest width in pixels on a work area.
pub open spec fn width_limits(active_families: i32, dpi: u32, work_area_width: i32) -> (int, int) {
    let families = larger(active_families as int, 1);
    let room = larger(work_area_width as int, 1);
    let minimum = smaller(
        widget_width_device(families, minimum_text_width(families), effective_dpi(dpi)),
        room,
    );
    (minimum, larger(smaller(scaled(1200, effective_dpi(dpi)), room), minimum))
}

fn columns_device_width(families: i32, text_width: i32, dpi: u32) -> (r: i32)
    requires
        -MAX_FAMILIES <= families <= MAX_FAMILIES,
        0 <= text_width <= 160,
        dpi <= MAX_DPI,
    ensures
        r == widget_width_device(families as int, text_width as int, effective_dpi(dpi)),
        families >= 1 ==> 0 <= r,
{
    broadcast use scaled_design_length_bounds;

    let segments: i32 = row_bar_segment_count(families);
    proof {
        let pitch = scaled(10, effective_dpi(dpi)) + scaled(1, effective_dpi(dpi));
        assert(pitch <= pitch * segments <= 114_587 * 10) by (nonlinear_arith)
            requires
                0 <= pitch <= 114_587,
                4 <= segments <= 10,
        ;
    }
    let column: i32 = usage_bar_device_width(segments, dpi) + scaled_for_dpi(text_width, dpi);
    assert(-3_000_000 * 100 <= column * families <= 3_000_000 * 100) by (nonlinear_arith)
        requires
            0 <= column <= 3_000_000,
            -100 <= families <= 100,
    ;
    assert(families >= 1 ==> column * families >= 0) by (nonlinear_arith)
        requires
            0 <= column,
    ;
    fixed_widget_device_width(families, dpi) + column * families
}

/// The least and the largest width in pixels, both within the work area.
pub fn widget_width_limits_device(active_families: i32, dpi: u32, work_area_width: i32) -> (r: (
    i32,
    i32,
))
    requires
        active_families <= MAX_FAMILIES,
        dpi <= MAX_DPI,
    ensures
        r.0 == width_limits(active_families, dpi, work_area_width).0,
        r.1 == width_limits(active_families, dpi, work_area_width).1,
        r.0 <= r.1,
{
    let room: i32 = at_least_one(work_area_width);
    let families: i32 = at_least_one(active_families);
    let text_width: i32 = if families == 1 {
        TEXT_WIDTH
    } else {
        MIN_MULTI_PROVIDER_TEXT_WIDTH
    };
    let wanted: i32 = columns_device_width(families, text_width, dpi);
    let minimum: i32 = if wanted <= room {
        wanted
    } else {
        room
    };
    let cap: i32 = scaled_for_dpi(MAX_WIDGET_WIDTH_LOGICAL, dpi);
    let room_cap: i32 = if cap <= room {
        cap
    } else {
        room
    };
    let maximum: i32 = if room_cap >= minimum {
        room_cap
    } else {
        minimum
    };
    (minimum, maximum)
}

/// The width in pixels that a saved width resolves to.
pub open spec fn resolved_width(
    saved_logical_width: Option<i32>,
    active_families: i32,
    dpi: u32,
    work_area_width: i32,
) -> int {
    let desired = match saved_logical_width {
        Some(width) => scaled(width as int, effective_dpi(dpi)),
        None => widget_width_device(active_families as int, 160, effective_dpi(dpi)),
    };
    let limits = width_limits(active_families, dpi, work_area_width);
    clamped(desired, limits.0, limits.1)
}

/// The saved or default width in pixels, within the limits.
pub fn resolved_widget_width_device(
    saved_logical_width: Option<i32>,
    active_families: i32,
    dpi: u32,
    work_area_width: i32,
) -> (r: i32)
    requires
        -MAX_FAMILIES <= active_families <= MAX_FAMILIES,
        dpi <= MAX_DPI,
    ensures
        r == resolved_width(saved_logical_width, active_families, dpi, work_area_width),
{
    let desired: i32 = match saved_logical_width {
        Some(width) => scaled_for_dpi(width, dpi),
        None => columns_device_width(active_families, TEXT_WIDTH, dpi),
    };
    let limits: (i32, i32) = widget_width_limits_device(active_families, dpi, work_area_width);
    clamp(desired, limits.0, limits.1)
}

/// Width and height of the window: the height is the content's, whatever width
/// the user chose.
pub fn resolved_widget_size_device(
    saved_logical_width: Option<i32>,
    active_families: i32,
    dpi: u32,
    work_area_width: i32,
    required_height: i32,
) -> (r: (i32, i32))
    requires
        -MAX_FAMILIES <= active_families <= MAX_FAMILIES,
        dpi <= MAX_DPI,
    ensures
        r.0 == resolved_width(saved_logical_width, active_families, dpi, work_area_width),
        r.1 == required_height,
{
    (
        resolved_widget_width_device(saved_logical_width, active_families, dpi, work_area_width),
        required_height,
    )
}

/// The resolved width never exceeds the work area, nor goes below the least width
/// that fits on it.
pub proof fn resolved_width_fits(
    saved_logical_width: Option<i32>,
    active_families: i32,
    dpi: u32,
    work_area_width: i32,
)
    ensures
        resolved_width(saved_logical_width, active_families, dpi, work_area_width) <= larger(
            work_area_width as int,
            1,
        ),
        resolved_width(saved_logical_width, active_families, dpi, work_area_width) >= width_limits(
            active_families,
            dpi,
            work_area_width,
        ).0,
{
}

/// The least width is not negative.
pub proof fn minimum_width_is_not_negative(active_families: i32, dpi: u32, work_area_width: i32)
    requires
        1 <= active_families,
        dpi <= MAX_DPI,
    ensures
        0 <= width_limits(active_families, dpi, work_area_width).0,
{
    broadcast use scaled_design_length_bounds;

    let d = effective_dpi(dpi);
    let segments = spec_row_bar_segment_count(active_families) as int;
    let pitch = scaled(10, d) + scaled(1, d);
    assert(pitch <= pitch * segments) by (nonlinear_arith)
        requires
            0 <= pitch,
            1 <= segments,
    ;
    let column = bar_width_device(segments, d) + scaled(
        minimum_text_width(active_families as int),
        d,
    );
    assert(0 <= column * active_families) by (nonlinear_arith)
        requires
            0 <= column,
            1 <= active_families,
    ;
    assert(0 <= scaled(3, d) * (active_families - 1)) by (nonlinear_arith)
        requires
            0 <= scaled(3, d),
            1 <= active_families,
    ;
}

/// The width of one provider column in a client area.
pub open spec fn column_width(client_width: i32, active_families: i32, dpi: u32) -> int {
    let families = larger(active_families as int, 1);
    let free = client_width - fixed_width_device(families, effective_dpi(dpi));
    if free <= 0 {
        0
    } else {
        free / families
    }
}

pub fn provider_column_width_for_client_at_dpi(
    client_width: i32,
    active_families: i32,
    dpi: u32,
) -> (r: i32)
    requires
        active_families <= MAX_FAMILIES,
        dpi <= MAX_DPI,
        client_width >= -2_000_000_000,
    ensures
        r == column_width(client_width, active_families, dpi),
        0 <= r,
{
    let families: i32 = at_least_one(active_families);
    let free: i32 = client_width - fixed_widget_device_width(families, dpi);
    if free <= 0 {
        0
    } else {
        free / families
    }
}

/// No column is wider than the client area.
pub proof fn column_fits_client(client_width: i32, active_families: i32, dpi: u32)
    requires
        0 <= client_width,
        dpi <= MAX_DPI,
    ensures
        0 <= column_width(client_width, active_families, dpi) <= client_width,
{
    broadcast use scaled_design_length_bounds;

    let families = larger(active_families as int, 1);
    let d = effective_dpi(dpi);
    assert(0 <= scaled(3, d) * (families - 1)) by (nonlinear_arith)
        requires
            0 <= scaled(3, d),
            1 <= families,
    ;
    let free = client_width - fixed_width_device(families, d);
    if free > 0 {
        vstd::arithmetic::div_mod::lemma_div_is_ordered_by_denominator(free, 1, families);
        vstd::arithmetic::div_mod::lemma_div_pos_is_pos(free, families);
    }
}

/// The columns together are no wider than the client area.
pub proof fn columns_fit_client(client_width: i32, active_families: i32, dpi: u32)
    requires
        0 <= client_width,
        1 <= active_families,
        dpi <= MAX_DPI,
    ensures
        active_families * column_width(client_width, active_families, dpi) <= client_width,
{
    broadcast use scaled_design_length_bounds;

    let families = active_families as int;
    let d = effective_dpi(dpi);
    assert(0 <= scaled(3, d) * (families - 1)) by (nonlinear_arith)
        requires
            0 <= scaled(3, d),
            1 <= families,
    ;
    let free = client_width - fixed_width_device(families, d);
    let column = column_width(client_width, active_families, dpi);
    assert(free <= client_width);
    if free > 0 {
        vstd::arithmetic::div_mod::lemma_fundamental_div_mod(free, families);
        vstd::arithmetic::div_mod::lemma_mod_bound(free, families);
    } else {
        assert(families * 0 == 0);
    }
}

/// The columns share what the fixed parts leave: together they never exceed it,
/// and fall short of it by less than one pixel per column.
pub proof fn columns_share_the_client_width(client_width: i32, active_families: i32, dpi: u32)
    requires
        1 <= active_families,
    ensures
        ({
            let free = client_width - fixed_width_device(
                active_families as int,
                effective_dpi(dpi),
            );
            free >= 0 ==> free - active_families < column_width(client_width, active_families, dpi)
                * active_families <= free
        }),
{
    let free = client_width - fixed_width_device(active_families as int, effective_dpi(dpi));
    if free >= 0 {
        vstd::arithmetic::div_mod::lemma_fundamental_div_mod(free, active_families as int);
        vstd::arithmetic::div_mod::lemma_mod_bound(free, active_families as int);
        assert(column_width(client_width, active_families, dpi) * active_families
            == active_families * (free / active_families as int)) by (nonlinear_arith)
            requires
                column_width(client_width, active_families, dpi) == free / active_families as int,
        ;
    }
}

// ---- positions -------------------------------------------------------------

/// A position moved into a work area; the top left corner wins where the window
/// does not fit.
pub open spec fn position_in(
    work_area: Rect,
    width: i32,
    height: i32,
    desired_x: int,
    desired_y: int,
) -> (int, int) {
    (
        clamped(
            desired_x,
            work_area.left as int,
            larger(work_area.right - width, work_area.left as int),
        ),
        clamped(
            desired_y,
            work_area.top as int,
            larger(work_area.bottom - height, work_area.top as int),
        ),
    )
}

pub fn clamp_position_to_work_area(
    work_area: Rect,
    width: i32,
    height: i32,
    desired_x: i32,
    desired_y: i32,
) -> (r: (i32, i32))
    requires
        i32::MIN <= work_area.right - width <= i32::MAX,
        i32::MIN <= work_area.bottom - height <= i32::MAX,
    ensures
        r.0 == position_in(work_area, width, height, desired_x as int, desired_y as int).0,
        r.1 == position_in(work_area, width, height, desired_x as int, desired_y as int).1,
{
    let free_x: i32 = work_area.right - width;
    let free_y: i32 = work_area.bottom - height;
    let max_x: i32 = if free_x >= work_area.left {
        free_x
    } else {
        work_area.left
    };
    let max_y: i32 = if free_y >= work_area.top {
        free_y
    } else {
        work_area.top
    };
    (clamp(desired_x, work_area.left, max_x), clamp(desired_y, work_area.top, max_y))
}

/// A window that fits the work area lies inside it wherever it was asked to be.
pub proof fn clamped_window_lies_in_work_area(
    work_area: Rect,
    width: i32,
    height: i32,
    desired_x: int,
    desired_y: int,
)
    requires
        width <= work_area.right - work_area.left,
        height <= work_area.bottom - work_area.top,
    ensures
        ({
            let at = position_in(work_area, width, height, desired_x, desired_y);
            work_area.left <= at.0 && at.0 + width <= work_area.right && work_area.top <= at.1
                && at.1 + height <= work_area.bottom
        }),
{
}

/// The place of a popup that was never moved: the bottom right of the work area.
pub fn default_popup_position(work_area: Rect, width: i32, height: i32) -> (r: (i32, i32))
    requires
        i32::MIN <= work_area.right - width <= i32::MAX,
        i32::MIN <= work_area.bottom - height <= i32::MAX,
    ensures
        r.0 == position_in(
            work_area,
            width,
            height,
            work_area.right - width,
            work_area.bottom - height,
        ).0,
        r.1 == position_in(
            work_area,
            width,
            height,
            work_area.right - width,
            work_area.bottom - height,
        ).1,
{
    clamp_position_to_work_area(
        work_area,
        width,
        height,
        work_area.right - width,
        work_area.bottom - height,
    )
}

/// Forgets every placement that the user made.
pub fn reset_saved_position(tray_offset: &mut i32, manual_position: &mut Option<(i32, i32)>)
    ensures
        *final(tray_offset) == 0,
        *final(manual_position) is None,
{
    *tray_offset = 0;
    *manual_position = None;
}

/// The default width in pixels.
pub fn total_widget_width_for(active_models: i32, dpi: u32) -> (r: i32)
    requires
        active_models <= MAX_FAMILIES,
    ensures
        r == scaled(widget_width_logical(larger(active_models as int, 1), 160), dpi as int),
{
    sc(default_widget_width_logical_for(active_models), dpi)
}

// ---- what sizes and positions mean -----------------------------------------------------

/// A scaled length is the nearest whole number of pixels to its share of the DPI.
pub proof fn scaled_length_is_the_nearest(px: int, dpi: int)
    requires
        i32::MIN < scaled(px, dpi) < i32::MAX,
    ensures
        -96 <= 2 * (px * dpi - 96 * scaled(px, dpi)) <= 96,
{
    crate::numbers::round_half_away_is_nearest(px * dpi, 96);
}

/// A saved width is shown as it was saved wherever the limits allow it; a smaller one
/// becomes the least and a larger one the largest.
pub proof fn saved_width_is_kept_within_the_limits(
    saved: i32,
    active_families: i32,
    dpi: u32,
    room: i32,
)
    ensures
        ({
            let (least, most) = width_limits(active_families, dpi, room);
            let wanted = scaled(saved as int, effective_dpi(dpi));
            let width = resolved_width(Some(saved), active_families, dpi, room);
            &&& least <= wanted <= most ==> width == wanted
            &&& wanted < least ==> width == least
            &&& wanted > most && least <= most ==> width == most
        }),
{
}

/// Without a saved width the window has room for every column's bar and its longest text,
/// as far as the screen allows; at 96 DPI that is the sum of the parts.
pub proof fn default_width_holds_every_column(active_families: i32, room: i32)
    requires
        1 <= active_families <= 4,
        1_200 <= room,
    ensures
        ({
            let segments: int = if active_families == 1 {
                10
            } else if active_families == 2 {
                5
            } else {
                4
            };
            let column = 11 * segments + 3 + 160;
            resolved_width(None, active_families, 96, room) == 41 + 1 + active_families * column
                + 3 * (active_families - 1)
        }),
{
    scaled_at_whole_scale(1, 1);
    scaled_at_whole_scale(3, 1);
    scaled_at_whole_scale(4, 1);
    scaled_at_whole_scale(10, 1);
    scaled_at_whole_scale(18, 1);
    scaled_at_whole_scale(96, 1);
    scaled_at_whole_scale(160, 1);
    scaled_at_whole_scale(1_200, 1);
    let n = active_families as int;
    let segments = spec_row_bar_segment_count(active_families) as int;
    assert((scaled(10, 96) + scaled(1, 96)) * segments == 11 * segments) by (nonlinear_arith)
        requires
            scaled(10, 96) + scaled(1, 96) == 11,
    ;
    let column = bar_width_device(segments, 96) + scaled(160, 96);
    assert(column == 11 * segments + 163);
    let text = minimum_text_width(n);
    let least = bar_width_device(segments, 96) + scaled(text, 96);
    assert(least <= column);
    assert(least * n <= column * n && column * n == n * column) by (nonlinear_arith)
        requires
            least <= column,
            0 <= n,
    ;
    assert(scaled(3, 96) * (n - 1) == 3 * (n - 1)) by (nonlinear_arith)
        requires
            scaled(3, 96) == 3,
    ;
    if n == 1 {
        assert(n * column == column);
    } else if n == 2 {
        assert(n * column == 2 * column);
    } else if n == 3 {
        assert(n * column == 3 * column);
    } else {
        assert(n * column == 4 * column);
    }
    assert(fixed_width_device(n, 96) == 42 + 3 * (n - 1));
}

/// A position at which the window lies inside the work area is kept; one outside moves to
/// the nearer edge, each direction on its own.
pub proof fn position_moves_only_as_far_as_it_must(
    work_area: Rect,
    width: i32,
    height: i32,
    x: int,
    y: int,
)
    requires
        width <= work_area.right - work_area.left,
        height <= work_area.bottom - work_area.top,
    ensures
        ({
            let at = position_in(work_area, width, height, x, y);
            &&& work_area.left <= x && x + width <= work_area.right ==> at.0 == x
            &&& x < work_area.left ==> at.0 == work_area.left
            &&& x + width > work_area.right ==> at.0 + width == work_area.right
            &&& work_area.top <= y && y + height <= work_area.bottom ==> at.1 == y
            &&& y < work_area.top ==> at.1 == work_area.top
            &&& y + height > work_area.bottom ==> at.1 + height == work_area.bottom
        }),
{
}

/// A window that does not fit stands at the top left corner of the work area.
pub proof fn oversized_window_stands_at_the_top_left(
    work_area: Rect,
    width: i32,
    height: i32,
    x: int,
    y: int,
)
    ensures
        ({
            let at = position_in(work_area, width, height, x, y);
            &&& width > work_area.right - work_area.left ==> at.0 == work_area.left
            &&& height > work_area.bottom - work_area.top ==> at.1 == work_area.top
        }),
{
}

/// The left strip resizes by the left edge and the right strip by the right one; between
/// them nothing does.
pub proof fn strips_resize_by_their_own_edge(client_x: i32, client_width: i32, edge_width: i32)
    requires
        1 <= edge_width,
        2 * edge_width <= client_width,
    ensures
        ({
            let edge = horizontal_resize_edge_at(client_x, client_width, edge_width);
            &&& edge == Some(HorizontalResizeEdge::Left) <==> 0 <= client_x < edge_width
            &&& edge == Some(HorizontalResizeEdge::Right) <==> client_width - edge_width <= client_x
                < client_width
        }),
{
}

/// A press on a strip resizes, a press elsewhere in the header band drags, and any other
/// press does neither.
pub proof fn press_resizes_at_the_edges_and_drags_in_the_header(
    client_x: i32,
    client_y: i32,
    client_width: i32,
    edge_width: i32,
    header_bottom: i32,
)
    ensures
        ({
            let target = pointer_interaction_target(
                client_x,
                client_y,
                client_width,
                edge_width,
                header_bottom,
            );
            let edge = horizontal_resize_edge_at(client_x, client_width, edge_width);
            &&& edge matches Some(e) ==> target == PointerInteractionTarget::HorizontalResize(e)
            &&& target is HeaderDrag <==> edge is None && 0 <= client_x < client_width && 0
                <= client_y < header_bottom
            &&& target is HorizontalResize ==> edge is Some
        }),
{
}

/// While the popup is resized, the dragged edge follows the cursor: as far as the limits
/// allow, the window is wider by just as much as its right edge goes right or its left edge
/// goes left, and at a limit it has that limit's width.
pub proof fn resized_edge_follows_the_cursor(
    session: HorizontalResizeSession,
    cursor_screen_x: i32,
    minimum_width: i32,
    maximum_width: i32,
)
    requires
        minimum_width <= maximum_width,
        -1_000_000_000 <= session.start_window_rect.left <= 1_000_000_000,
        -1_000_000_000 <= session.start_window_rect.right <= 1_000_000_000,
        -1_000_000_000 <= session.start_cursor_screen_x - cursor_screen_x <= 1_000_000_000,
        0 <= session.start_window_rect.right - session.start_window_rect.left <= 1_000_000_000,
    ensures
        ({
            let width = resize_width(session, cursor_screen_x, minimum_width, maximum_width);
            let start = session.start_window_rect.right - session.start_window_rect.left;
            let outward = if session.edge is Right {
                cursor_screen_x - session.start_cursor_screen_x
            } else {
                session.start_cursor_screen_x - cursor_screen_x
            };
            &&& minimum_width <= start + outward <= maximum_width ==> width == start + outward
            &&& start + outward < minimum_width ==> width == minimum_width
            &&& start + outward > maximum_width ==> width == maximum_width
        }),
{
}

/// At its least width the window still has room for every column's bar and some text
/// beside it: as much as one column has on its own, and less where columns share the row.
pub proof fn least_width_leaves_room_for_text(active_families: i32, dpi: u32, room: i32)
    requires
        1 <= active_families <= MAX_FAMILIES,
        1 <= dpi <= MAX_DPI,
        0 <= width_limits(active_families, dpi, room).0 < room,
    ensures
        ({
            let least = width_limits(active_families, dpi, room).0;
            let segments = spec_row_bar_segment_count(active_families) as int;
            let text: int = if active_families == 1 {
                160
            } else {
                96
            };
            column_width(least as i32, active_families, dpi) == bar_width_device(
                segments,
                dpi as int,
            ) + scaled(text, dpi as int)
        }),
{
    broadcast use scaled_design_length_bounds;

    let least = width_limits(active_families, dpi, room).0;
    let segments = spec_row_bar_segment_count(active_families) as int;
    let n = active_families as int;
    let d = dpi as int;
    let column = bar_width_device(segments, d) + scaled(minimum_text_width(n), d);
    let pitch = scaled(10, d) + scaled(1, d);
    assert(pitch <= pitch * segments) by (nonlinear_arith)
        requires
            0 <= pitch,
            1 <= segments,
    ;
    assert(scaled(10, d) == (20 * d + 96) / 192);
    scaled_is_monotone(96, 160, d);
    scaled_is_monotone(1, 96, d);
    assert(0 < column);
    assert(least == fixed_width_device(n, d) + column * n);
    assert(0 < column * n && (column * n) / n == column) by (nonlinear_arith)
        requires
            0 < column,
            1 <= n,
    ;
}

/// Every width that can be saved is shown as it was saved where the screen has room for it
/// and it is not below the least.
pub proof fn every_savable_width_can_be_shown(
    saved: i32,
    active_families: i32,
    dpi: u32,
    room: i32,
)
    requires
        1 <= saved <= MAX_WIDGET_WIDTH_LOGICAL,
        width_limits(active_families, dpi, room).0 <= scaled(saved as int, effective_dpi(dpi))
            <= room,
    ensures
        resolved_width(Some(saved), active_families, dpi, room) == scaled(
            saved as int,
            effective_dpi(dpi),
        ),
{
    scaled_is_monotone(saved as int, 1_200, effective_dpi(dpi));
}

/// The popup never gets wider than the widest width that can be saved, but for one whose
/// columns need more.
pub proof fn widest_width_is_the_widest_savable(active_families: i32, dpi: u32, room: i32)
    ensures
        ({
            let (least, most) = width_limits(active_families, dpi, room);
            &&& most <= larger(
                scaled(MAX_WIDGET_WIDTH_LOGICAL as int, effective_dpi(dpi)),
                least,
            )
            &&& least <= most
            &&& most <= larger(room as int, 1)
        }),
{
}

} // verus!
