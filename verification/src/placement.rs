//! Where the popup stands and how large it is.

use vstd::prelude::*;

use crate::effects::Effect;
use crate::geometry::{
    clamp_position_to_work_area, clamped, completed_resize_settings, default_popup_position,
    effective_dpi, larger, position_in, resolved_widget_size_device, resolved_widget_width_device,
    resolved_width, sc, scaled, scaled_design_length_bounds, scaled_for_dpi, to_i32,
    widget_width_limits_device, width_limits, Rect, MAX_DPI, MAX_WIDGET_WIDTH_LOGICAL,
};
use crate::numbers::round_half_away;
use crate::rows::{height_device, VisibleRows, WIDGET_HEIGHT};
use crate::state::{families_of, rows_of, widget_height_for_state, AppState, Preferences};

verus! {

/// The largest coordinate of a screen.
pub const MAX_SCREEN: i32 = 1_000_000_000;

/// A rectangle whose coordinates are those of a screen, so that differences of them
/// are pixel counts too.
pub open spec fn on_screen(rect: Rect) -> bool {
    &&& -MAX_SCREEN <= rect.left <= MAX_SCREEN
    &&& -MAX_SCREEN <= rect.right <= MAX_SCREEN
    &&& -MAX_SCREEN <= rect.top <= MAX_SCREEN
    &&& -MAX_SCREEN <= rect.bottom <= MAX_SCREEN
}

/// Whether a rectangle has the coordinates of a screen.
pub fn is_on_screen(rect: Rect) -> (r: bool)
    ensures
        r == on_screen(rect),
{
    -MAX_SCREEN <= rect.left && rect.left <= MAX_SCREEN && -MAX_SCREEN <= rect.right && rect.right
        <= MAX_SCREEN && -MAX_SCREEN <= rect.top && rect.top <= MAX_SCREEN && -MAX_SCREEN
        <= rect.bottom && rect.bottom <= MAX_SCREEN
}

// ---- automatic position -----------------------------------------------------------

/// The top of a popup that stands on the bottom of the work area; the top of the
/// work area wins where the popup does not fit.
pub fn compute_popup_y(work_area_top: i32, work_area_bottom: i32, popup_height: i32) -> (r: i32)
    requires
        i32::MIN <= work_area_bottom - popup_height <= i32::MAX,
    ensures
        r == larger(work_area_bottom - popup_height, work_area_top as int),
{
    let y: i32 = work_area_bottom - popup_height;
    if y >= work_area_top {
        y
    } else {
        work_area_top
    }
}

/// A desired left edge moved into the work area; its left edge wins where the popup
/// does not fit.
pub fn clamp_popup_x(
    desired_x: i32,
    work_area_left: i32,
    work_area_right: i32,
    popup_width: i32,
) -> (r: i32)
    requires
        i32::MIN <= work_area_right - popup_width <= i32::MAX,
    ensures
        r == clamped(
            desired_x as int,
            work_area_left as int,
            larger(work_area_right - popup_width, work_area_left as int),
        ),
{
    let free: i32 = work_area_right - popup_width;
    let max_x: i32 = if free >= work_area_left {
        free
    } else {
        work_area_left
    };
    if desired_x < work_area_left {
        work_area_left
    } else if desired_x > max_x {
        max_x
    } else {
        desired_x
    }
}

/// Where the popup stands beside the tray: left of it by an offset, within the work
/// area.
pub fn compute_auto_popup_position(
    work_area: Rect,
    tray_left: i32,
    popup_width: i32,
    popup_height: i32,
    tray_offset: i32,
) -> (r: (i32, i32))
    requires
        i32::MIN <= work_area.bottom - popup_height <= i32::MAX,
        i32::MIN <= work_area.right - popup_width <= i32::MAX,
        i32::MIN <= tray_left - popup_width <= i32::MAX,
        i32::MIN <= tray_left - popup_width - tray_offset <= i32::MAX,
    ensures
        r.0 == clamped(
            tray_left - popup_width - tray_offset,
            work_area.left as int,
            larger(work_area.right - popup_width, work_area.left as int),
        ),
        r.1 == larger(work_area.bottom - popup_height, work_area.top as int),
{
    let y: i32 = compute_popup_y(work_area.top, work_area.bottom, popup_height);
    let desired_x: i32 = tray_left - popup_width - tray_offset;
    let x: i32 = clamp_popup_x(desired_x, work_area.left, work_area.right, popup_width);
    (x, y)
}

// ---- placing the window -------------------------------------------------------------

/// Work areas that a position can refer to.
#[derive(Clone, Copy, Debug, PartialEq, Eq, Structural)]
pub struct WorkAreas {
    /// Of the monitor nearest to the saved position.
    pub at_saved_position: Option<Rect>,
    /// Of the monitor that the window is on.
    pub of_window: Option<Rect>,
    /// Of the monitor of the anchoring taskbar.
    pub of_taskbar: Option<Rect>,
}

/// The work area to use: that of a saved position first, then the window's, then the
/// taskbar's.
pub open spec fn area_for(areas: WorkAreas, manual: Option<(i32, i32)>) -> Option<Rect> {
    if manual is Some && areas.at_saved_position is Some {
        areas.at_saved_position
    } else if areas.of_window is Some {
        areas.of_window
    } else {
        areas.of_taskbar
    }
}

fn choose_area(areas: WorkAreas, manual: Option<(i32, i32)>) -> (r: Option<Rect>)
    ensures
        r == area_for(areas, manual),
{
    if manual.is_some() && areas.at_saved_position.is_some() {
        areas.at_saved_position
    } else if areas.of_window.is_some() {
        areas.of_window
    } else {
        areas.of_taskbar
    }
}

/// Every work area is one of a screen.
pub open spec fn areas_on_screen(areas: WorkAreas) -> bool {
    &&& areas.at_saved_position matches Some(area) ==> on_screen(area)
    &&& areas.of_window matches Some(area) ==> on_screen(area)
    &&& areas.of_taskbar matches Some(area) ==> on_screen(area)
}

/// The window's place and size on a work area.
pub struct Placement {
    pub x: int,
    pub y: int,
    pub width: int,
    pub height: int,
}

pub open spec fn placement_on(area: Rect, s: AppState, dpi: u32) -> Placement {
    let width = resolved_width(
        s.prefs.widget_width_logical,
        families_of(s.prefs),
        dpi,
        (area.right - area.left) as i32,
    );
    let height = height_device(
        rows_of(s.states, s.shown@, s.prefs),
        s.prefs.show_github_copilot,
        dpi,
    );
    let at = match s.prefs.manual_position {
        Some((x, y)) => position_in(area, width as i32, height as i32, x as int, y as int),
        None => position_in(
            area,
            width as i32,
            height as i32,
            area.right - width,
            area.bottom - height,
        ),
    };
    Placement { x: at.0, y: at.1, width, height }
}

/// The state once the window is placed: a saved position follows the window where it
/// had to be moved into the work area.
pub open spec fn state_placed(s: AppState, areas: WorkAreas, dpi: u32) -> AppState {
    match area_for(areas, s.prefs.manual_position) {
        Some(area) => if !s.pointer.dragging && s.prefs.manual_position is Some {
            let p = placement_on(area, s, dpi);
            AppState {
                prefs: Preferences {
                    manual_position: Some((p.x as i32, p.y as i32)),
                    ..s.prefs
                },
                ..s
            }
        } else {
            s
        },
        None => s,
    }
}

/// Effects of placing the window: nothing while it is dragged or without a work area.
pub open spec fn placing_effects(s: AppState, areas: WorkAreas, dpi: u32) -> Seq<Effect> {
    match area_for(areas, s.prefs.manual_position) {
        Some(area) => if s.pointer.dragging {
            Seq::empty()
        } else {
            let p = placement_on(area, s, dpi);
            let moved = match s.prefs.manual_position {
                Some(at) => at != (p.x as i32, p.y as i32),
                None => false,
            };
            (if moved {
                seq![Effect::SaveSettings]
            } else {
                Seq::empty()
            }) + seq![
                Effect::MoveWindow {
                    x: p.x as i32,
                    y: p.y as i32,
                    width: p.width as i32,
                    height: p.height as i32,
                },
            ]
        },
        None => Seq::empty(),
    }
}

/// Bounds of the popup's height.
pub(crate) proof fn lemma_height_bounds(rows: VisibleRows, show_github_copilot: bool, dpi: u32)
    requires
        0 <= rows.weekly_extra_lines <= 2,
        dpi <= MAX_DPI,
    ensures
        0 <= height_device(rows, show_github_copilot, dpi) <= 10_417 * 113,
{
    broadcast use scaled_design_length_bounds;

}

/// Sizes and places the window.
pub fn position_at_taskbar(state: &mut Option<AppState>, areas: WorkAreas, dpi: u32) -> (r: Vec<
    Effect,
>)
    requires
        areas_on_screen(areas),
        dpi <= MAX_DPI,
    ensures
        (match *old(state) {
            Some(s) => *final(state) == Some(state_placed(s, areas, dpi)) && r@
                == placing_effects(s, areas, dpi),
            None => *final(state) is None && r@ == Seq::<Effect>::empty(),
        }),
{
    let mut effects: Vec<Effect> = Vec::new();
    let taken: Option<AppState> = state.take();
    if let Some(mut s) = taken {
        let ghost before = s;
        if !s.pointer.dragging {
            if let Some(area) = choose_area(areas, s.prefs.manual_position) {
                let height: i32 = widget_height_for_state(&s, dpi);
                proof {
                    lemma_height_bounds(
                        rows_of(s.states, s.shown@, s.prefs),
                        s.prefs.show_github_copilot,
                        dpi,
                    );
                }
                let width: i32 = resolved_widget_width_device(
                    s.prefs.widget_width_logical,
                    s.prefs.active_family_count(),
                    dpi,
                    area.right - area.left,
                );
                proof {
                    lemma_width_bounds(
                        s.prefs.widget_width_logical,
                        families_of(s.prefs),
                        dpi,
                        (area.right - area.left) as i32,
                    );
                }
                let at: (i32, i32) = match s.prefs.manual_position {
                    Some((x, y)) => clamp_position_to_work_area(area, width, height, x, y),
                    None => default_popup_position(area, width, height),
                };
                if let Some((x, y)) = s.prefs.manual_position {
                    if x != at.0 || y != at.1 {
                        effects.push(Effect::SaveSettings);
                    }
                    s.prefs.manual_position = Some(at);
                }
                effects.push(Effect::MoveWindow { x: at.0, y: at.1, width, height });
            }
        }
        assert(effects@ =~= placing_effects(before, areas, dpi));
        *state = Some(s);
    }
    effects
}

/// A resolved width is not negative and at most the work area's.
proof fn lemma_width_bounds(saved: Option<i32>, families: i32, dpi: u32, room: i32)
    requires
        1 <= families <= 4,
        dpi <= MAX_DPI,
    ensures
        0 <= resolved_width(saved, families, dpi, room) <= larger(room as int, 1),
{
    crate::geometry::resolved_width_fits(saved, families, dpi, room);
    crate::geometry::minimum_width_is_not_negative(families, dpi, room);
}

/// A window that fits its work area is placed inside it.
pub proof fn placed_window_lies_in_work_area(s: AppState, areas: WorkAreas, dpi: u32)
    requires
        areas_on_screen(areas),
        dpi <= MAX_DPI,
        area_for(areas, s.prefs.manual_position) is Some,
        ({
            let area = area_for(areas, s.prefs.manual_position)->0;
            let p = placement_on(area, s, dpi);
            &&& area.left < area.right
            &&& p.height <= area.bottom - area.top
        }),
    ensures
        ({
            let area = area_for(areas, s.prefs.manual_position)->0;
            let p = placement_on(area, s, dpi);
            &&& area.left <= p.x && p.x + p.width <= area.right
            &&& area.top <= p.y && p.y + p.height <= area.bottom
        }),
{
    let area = area_for(areas, s.prefs.manual_position)->0;
    lemma_width_bounds(
        s.prefs.widget_width_logical,
        families_of(s.prefs),
        dpi,
        (area.right - area.left) as i32,
    );
    lemma_height_bounds(
        rows_of(s.states, s.shown@, s.prefs),
        s.prefs.show_github_copilot,
        dpi,
    );
}

// ---- resizing ---------------------------------------------------------------------

/// Least width, largest width and height while the window is resized. Without a work
/// area the largest design width stands for its width.
pub fn resize_limits(
    state: &Option<AppState>,
    work_area_width: Option<i32>,
    window_dpi: u32,
    dpi: u32,
) -> (r: (i32, i32, i32))
    requires
        window_dpi <= MAX_DPI,
    ensures
        ({
            let room = match work_area_width {
                Some(width) => width,
                None => scaled(1200, effective_dpi(window_dpi)) as i32,
            };
            let families = match *state {
                Some(s) => families_of(s.prefs),
                None => 1i32,
            };
            r.0 == width_limits(families, window_dpi, room).0 && r.1 == width_limits(
                families,
                window_dpi,
                room,
            ).1
        }),
        r.2 == (match *state {
            Some(s) => height_device(
                rows_of(s.states, s.shown@, s.prefs),
                s.prefs.show_github_copilot,
                dpi,
            ),
            None => scaled(78, dpi as int),
        }),
        r.0 <= r.1,
{
    let (families, height): (i32, i32) = match state {
        Some(s) => (s.prefs.active_family_count(), widget_height_for_state(s, dpi)),
        None => (1, sc(WIDGET_HEIGHT, dpi)),
    };
    let room: i32 = match work_area_width {
        Some(width) => width,
        None => scaled_for_dpi(MAX_WIDGET_WIDTH_LOGICAL, window_dpi),
    };
    let limits: (i32, i32) = widget_width_limits_device(families, window_dpi, room);
    (limits.0, limits.1, height)
}

/// Preferences after a completed resize.
pub open spec fn prefs_resized(prefs: Preferences, rect: Option<Rect>, dpi: u32) -> Preferences {
    match rect {
        Some(rect) => Preferences {
            widget_width_logical: Some(
                to_i32(
                    round_half_away((rect.right - rect.left) * 96, effective_dpi(dpi)),
                ) as i32,
            ),
            manual_position: match prefs.manual_position {
                Some(_) => Some((rect.left, rect.top)),
                None => None,
            },
            ..prefs
        },
        None => prefs,
    }
}

/// Keeps the width that a resize ended with, and the place of a window that was
/// moved by hand.
pub fn finish_horizontal_resize(
    state: &mut Option<AppState>,
    rect: Option<Rect>,
    dpi: u32,
) -> (r: Vec<Effect>)
    requires
        rect matches Some(rect) ==> on_screen(rect),
    ensures
        *final(state) == (match *old(state) {
            Some(s) => Some(AppState { prefs: prefs_resized(s.prefs, rect, dpi), ..s }),
            None => None,
        }),
        r@ == seq![Effect::SaveSettings, Effect::Position, Effect::Render],
{
    let taken: Option<AppState> = state.take();
    if let Some(mut s) = taken {
        if let Some(rect) = rect {
            let kept: (i32, Option<(i32, i32)>) = completed_resize_settings(
                rect,
                dpi,
                s.prefs.manual_position,
            );
            s.prefs.widget_width_logical = Some(kept.0);
            s.prefs.manual_position = kept.1;
        }
        *state = Some(s);
    }
    vec![Effect::SaveSettings, Effect::Position, Effect::Render]
}

// ---- following the content ------------------------------------------------------------

/// Whether the window has another size than it needs; an unknown size counts as one.
pub open spec fn size_differs(current: Option<Rect>, width: int, height: int) -> bool {
    match current {
        Some(rect) => rect.right - rect.left != width || rect.bottom - rect.top != height,
        None => true,
    }
}

pub fn window_size_needs_sync(
    current_rect: Option<Rect>,
    required_width: i32,
    required_height: i32,
) -> (r: bool)
    requires
        current_rect matches Some(rect) ==> i32::MIN <= rect.right - rect.left <= i32::MAX
            && i32::MIN <= rect.bottom - rect.top <= i32::MAX,
    ensures
        r == size_differs(current_rect, required_width as int, required_height as int),
{
    match current_rect {
        Some(rect) => rect.right - rect.left != required_width || rect.bottom - rect.top
            != required_height,
        None => true,
    }
}

/// The width of a work area that is not known.
pub const UNKNOWN_AREA_WIDTH: i32 = 536_870_911;

/// The size that the window is created with, before it is placed.
pub fn first_window_size(prefs: &Preferences, dpi: u32) -> (r: (i32, i32))
    ensures
        r.0 == resolved_width(
            prefs.widget_width_logical,
            families_of(*prefs),
            96,
            UNKNOWN_AREA_WIDTH,
        ),
        r.1 == scaled(78, dpi as int),
{
    (
        resolved_widget_width_device(
            prefs.widget_width_logical,
            prefs.active_family_count(),
            96,
            UNKNOWN_AREA_WIDTH,
        ),
        sc(WIDGET_HEIGHT, dpi),
    )
}

/// Whether the window has to be placed anew because its content needs another size.
/// Never while the user resizes it.
pub fn usage_geometry_needs_sync(
    state: &Option<AppState>,
    work_area_width: Option<i32>,
    current_rect: Option<Rect>,
    dpi: u32,
) -> (r: bool)
    requires
        dpi <= MAX_DPI,
        current_rect matches Some(rect) ==> on_screen(rect),
    ensures
        r == (match *state {
            Some(s) => s.pointer.resize_session is None && size_differs(
                current_rect,
                resolved_width(
                    s.prefs.widget_width_logical,
                    families_of(s.prefs),
                    dpi,
                    match work_area_width {
                        Some(width) => width,
                        None => UNKNOWN_AREA_WIDTH,
                    },
                ),
                height_device(
                    rows_of(s.states, s.shown@, s.prefs),
                    s.prefs.show_github_copilot,
                    dpi,
                ),
            ),
            None => false,
        }),
{
    match state {
        Some(s) => {
            if s.pointer.resize_session.is_some() {
                return false;
            }
            let room: i32 = match work_area_width {
                Some(width) => width,
                None => UNKNOWN_AREA_WIDTH,
            };
            let size: (i32, i32) = resolved_widget_size_device(
                s.prefs.widget_width_logical,
                s.prefs.active_family_count(),
                dpi,
                room,
                widget_height_for_state(s, dpi),
            );
            window_size_needs_sync(current_rect, size.0, size.1)
        },
        None => false,
    }
}

// ---- DPI and tray --------------------------------------------------------------------

/// The DPI after asking for it: an answer of zero changes nothing.
pub fn dpi_after_query(current: u32, queried: u32) -> (r: u32)
    ensures
        r == if queried > 0 {
            queried
        } else {
            current
        },
{
    if queried > 0 {
        queried
    } else {
        current
    }
}

/// The DPI of a window: the one that was asked for, else the current one, at least
/// one.
pub fn window_dpi(queried: u32, current: u32) -> (r: u32)
    ensures
        r == if queried != 0 {
            queried
        } else if current == 0 {
            1
        } else {
            current
        },
{
    if queried != 0 {
        queried
    } else if current == 0 {
        1
    } else {
        current
    }
}

/// How long tray movements are ignored after the tray icon changes.
pub const TRAY_ICON_UPDATE_REPOSITION_SUPPRESS_MS: u64 = 750;

/// Two repositions after tray movements are at least this far apart.
pub const TRAY_REPOSITION_THROTTLE_MS: u64 = 500;

/// What is remembered about tray movements. Times are nanoseconds of a clock that
/// never goes back.
#[derive(Clone, Copy, Debug, PartialEq, Eq, Structural)]
pub struct TrayMotion {
    pub suppressed_until: Option<u64>,
    pub last_reposition: Option<u64>,
}

/// Ignores tray movements for a while.
pub fn suppress_tray_reposition_for(motion: &mut TrayMotion, now: u64, millis: u64)
    requires
        now + millis * 1_000_000 <= u64::MAX,
    ensures
        final(motion).suppressed_until == Some((now + millis * 1_000_000) as u64),
        final(motion).last_reposition == old(motion).last_reposition,
{
    motion.suppressed_until = Some(now + millis * 1_000_000);
}

/// Whether tray movements are ignored now; forgets a time that is over.
pub fn tray_reposition_is_suppressed(motion: &mut TrayMotion, now: u64) -> (r: bool)
    ensures
        r == (old(motion).suppressed_until matches Some(until) && now < until),
        final(motion).suppressed_until == if r {
            old(motion).suppressed_until
        } else {
            None
        },
        final(motion).last_reposition == old(motion).last_reposition,
{
    match motion.suppressed_until {
        Some(until) => if now < until {
            true
        } else {
            motion.suppressed_until = None;
            false
        },
        None => false,
    }
}

/// Decides on a movement of a window: only the tray's own count, not while they are
/// ignored, and not within half a second of the last one that did.
pub fn tray_location_changed(motion: &mut TrayMotion, is_tray: bool, now: u64) -> (r: Vec<Effect>)
    requires
        old(motion).last_reposition matches Some(last) ==> last <= now,
    ensures
        ({
            let suppressed = old(motion).suppressed_until matches Some(until) && now < until;
            let recent = old(motion).last_reposition matches Some(last) && (now - last)
                / 1_000_000 <= 500;
            let moves = is_tray && !suppressed && !recent;
            &&& r@ == if moves {
                seq![Effect::Position, Effect::Render]
            } else {
                Seq::empty()
            }
            &&& final(motion).last_reposition == if moves {
                Some(now)
            } else {
                old(motion).last_reposition
            }
            &&& final(motion).suppressed_until == if is_tray && !suppressed {
                None
            } else {
                old(motion).suppressed_until
            }
        }),
{
    if !is_tray {
        return Vec::new();
    }
    if tray_reposition_is_suppressed(motion, now) {
        return Vec::new();
    }
    let due: bool = match motion.last_reposition {
        Some(last) => (now - last) / 1_000_000 > TRAY_REPOSITION_THROTTLE_MS,
        None => true,
    };
    if due {
        motion.last_reposition = Some(now);
        vec![Effect::Position, Effect::Render]
    } else {
        Vec::new()
    }
}

// ---- what placing is for ----------------------------------------------------------------

/// A saved position at which the window already lies inside the work area of that
/// position's monitor is kept: the window is moved there, nothing is saved anew, and no
/// other work area matters.
pub proof fn saved_position_on_its_monitor_is_kept(
    s: AppState,
    areas: WorkAreas,
    area: Rect,
    x: i32,
    y: i32,
    dpi: u32,
)
    requires
        !s.pointer.dragging,
        s.prefs.manual_position == Some((x, y)),
        areas.at_saved_position == Some(area),
        ({
            let p = placement_on(area, s, dpi);
            &&& area.left <= x && x + p.width <= area.right
            &&& area.top <= y && y + p.height <= area.bottom
            &&& 0 <= p.width <= i32::MAX && 0 <= p.height <= i32::MAX
        }),
    ensures
        state_placed(s, areas, dpi) == s,
        placing_effects(s, areas, dpi).len() == 1,
        (match placing_effects(s, areas, dpi)[0] {
            Effect::MoveWindow { x: left, y: top, .. } => left == x && top == y,
            _ => false,
        }),
{
}

/// The work areas count in their order: that of a saved position before the window's own,
/// and that before the taskbar's. The ones after the first that is there make no
/// difference, and that of a saved position makes none without one.
pub proof fn work_areas_count_in_order(
    s: AppState,
    areas: WorkAreas,
    others: WorkAreas,
    dpi: u32,
)
    requires
        ({
            let saved = s.prefs.manual_position is Some;
            ||| saved && areas.at_saved_position is Some && areas.at_saved_position
                == others.at_saved_position
            ||| (saved ==> areas.at_saved_position is None && others.at_saved_position is None)
                && areas.of_window is Some && areas.of_window == others.of_window
            ||| (saved ==> areas.at_saved_position is None && others.at_saved_position is None)
                && areas.of_window is None && others.of_window is None && areas.of_taskbar
                == others.of_taskbar
        }),
    ensures
        state_placed(s, areas, dpi) == state_placed(s, others, dpi),
        placing_effects(s, areas, dpi) == placing_effects(s, others, dpi),
{
}

/// A window that was never moved by hand stands in the bottom right corner of the work
/// area of its own monitor, or of the taskbar's where its own is not known.
pub proof fn unmoved_window_stands_in_the_bottom_right_corner(
    s: AppState,
    areas: WorkAreas,
    area: Rect,
    dpi: u32,
)
    requires
        !s.pointer.dragging,
        s.prefs.manual_position is None,
        areas.of_window == Some(area) || areas.of_window is None && areas.of_taskbar == Some(area),
        on_screen(area),
        dpi <= MAX_DPI,
        area.left < area.right,
        placement_on(area, s, dpi).height <= area.bottom - area.top,
    ensures
        state_placed(s, areas, dpi) == s,
        placing_effects(s, areas, dpi).len() == 1,
        (match placing_effects(s, areas, dpi)[0] {
            Effect::MoveWindow { x, y, width, height } => x + width == area.right && y + height
                == area.bottom,
            _ => false,
        }),
{
    lemma_width_bounds(
        s.prefs.widget_width_logical,
        families_of(s.prefs),
        dpi,
        (area.right - area.left) as i32,
    );
    lemma_height_bounds(
        rows_of(s.states, s.shown@, s.prefs),
        s.prefs.show_github_copilot,
        dpi,
    );
}

/// Nothing is placed while the user drags the window, nor without a work area.
pub proof fn nothing_is_placed_while_dragging(s: AppState, areas: WorkAreas, dpi: u32)
    requires
        s.pointer.dragging || areas.of_window is None && areas.of_taskbar is None && (
        s.prefs.manual_position is None || areas.at_saved_position is None),
    ensures
        state_placed(s, areas, dpi) == s,
        placing_effects(s, areas, dpi).len() == 0,
{
}

/// Placing changes nothing but a saved position, which follows the window; it is saved
/// exactly where it changed. The window gets the size that its content needs.
pub proof fn placed_position_is_saved_where_it_changed(s: AppState, areas: WorkAreas, dpi: u32)
    requires
        areas_on_screen(areas),
        dpi <= MAX_DPI,
        !s.pointer.dragging,
        area_for(areas, s.prefs.manual_position) is Some,
    ensures
        ({
            let after = state_placed(s, areas, dpi);
            let effects = placing_effects(s, areas, dpi);
            &&& after == (AppState {
                prefs: Preferences {
                    manual_position: after.prefs.manual_position,
                    ..s.prefs
                },
                ..s
            })
            &&& after.prefs.manual_position is Some <==> s.prefs.manual_position is Some
            &&& effects.contains(Effect::SaveSettings) <==> after.prefs.manual_position
                != s.prefs.manual_position
            &&& match effects.last() {
                Effect::MoveWindow { x, y, width, height } => {
                    &&& after.prefs.manual_position is Some ==> after.prefs.manual_position
                        == Some((x, y))
                    &&& height == height_device(
                        rows_of(s.states, s.shown@, s.prefs),
                        s.prefs.show_github_copilot,
                        dpi,
                    )
                    &&& exists|room: i32|
                        width == #[trigger] resolved_width(
                            s.prefs.widget_width_logical,
                            families_of(s.prefs),
                            dpi,
                            room,
                        )
                },
                _ => false,
            }
        }),
{
    let area = area_for(areas, s.prefs.manual_position)->0;
    let room = (area.right - area.left) as i32;
    lemma_width_bounds(s.prefs.widget_width_logical, families_of(s.prefs), dpi, room);
    lemma_height_bounds(
        rows_of(s.states, s.shown@, s.prefs),
        s.prefs.show_github_copilot,
        dpi,
    );
    let p = placement_on(area, s, dpi);
    let effects = placing_effects(s, areas, dpi);
    let moved = match s.prefs.manual_position {
        Some(at) => at != (p.x as i32, p.y as i32),
        None => false,
    };
    if moved {
        assert(effects[0] == Effect::SaveSettings);
    } else {
        assert(effects.len() == 1 && effects[0] is MoveWindow);
    }
    assert(resolved_width(s.prefs.widget_width_logical, families_of(s.prefs), dpi, room)
        == p.width);
}

/// Placing twice is placing once: what the first run leaves, the second keeps.
pub proof fn placing_again_moves_nothing(s: AppState, areas: WorkAreas, dpi: u32)
    requires
        areas_on_screen(areas),
        dpi <= MAX_DPI,
    ensures
        state_placed(state_placed(s, areas, dpi), areas, dpi) == state_placed(s, areas, dpi),
{
    match area_for(areas, s.prefs.manual_position) {
        Some(area) => {
            let room = (area.right - area.left) as i32;
            lemma_width_bounds(s.prefs.widget_width_logical, families_of(s.prefs), dpi, room);
            lemma_height_bounds(
                rows_of(s.states, s.shown@, s.prefs),
                s.prefs.show_github_copilot,
                dpi,
            );
        },
        None => {},
    }
}

/// A finished resize keeps the width that the window has and, for a window that was moved
/// by hand, its top left corner; nothing else of the preferences changes.
pub proof fn resize_keeps_width_and_corner(prefs: Preferences, rect: Rect)
    requires
        on_screen(rect),
    ensures
        ({
            let after = prefs_resized(prefs, Some(rect), 96);
            &&& after.widget_width_logical == Some((rect.right - rect.left) as i32)
            &&& prefs.manual_position is Some ==> after.manual_position == Some(
                (rect.left, rect.top),
            )
            &&& prefs.manual_position is None ==> after.manual_position is None
            &&& after == (Preferences {
                widget_width_logical: after.widget_width_logical,
                manual_position: after.manual_position,
                ..prefs
            })
        }),
        prefs_resized(prefs, None, 96) == prefs,
{
    let w = rect.right - rect.left;
    if w >= 0 {
        assert((2 * (w * 96) + 96) / 192 == w);
    } else {
        assert((2 * -(w * 96) + 96) / 192 == -w);
    }
}

/// A window is resized to its content just where it does not have its size already.
pub proof fn size_that_fits_stays(rect: Rect, width: int, height: int)
    ensures
        !size_differs(Some(rect), width, height) <==> rect.left + width == rect.right && rect.top
            + height == rect.bottom,
        size_differs(None, width, height),
{
}

} // verus!
