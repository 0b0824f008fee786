//! Dragging and resizing the popup with the mouse.

use vstd::prelude::*;

use crate::effects::Effect;
use crate::geometry::{
    clamp_position_to_work_area, clear_horizontal_resize_session, drag_follow_position,
    effective_dpi, horizontal_resize_edge_at, horizontal_resize_edge_width_for_dpi,
    horizontal_resize_rect, is_drag_region_point, larger, pointer_interaction_target, position_in,
    resize_width, resized_edge_follows_the_cursor, scaled, scaled_is_monotone,
    widget_width_logical, width_limits, HorizontalResizeEdge, HorizontalResizeSession,
    PointerInteractionTarget, Rect, MAX_DPI, MAX_WIDGET_WIDTH_LOGICAL, RESIZE_EDGE_LOGICAL,
    TEXT_WIDTH,
};
use crate::models::QuotaFamilyId;
use crate::paint::is_family_shown;
use crate::placement::{lemma_height_bounds, resize_limits, MAX_SCREEN};
use crate::rows::{header_bottom, height_device};
use crate::state::{
    families_of, header_band_bottom, rows_of, total_widget_width_for_state,
    widget_height_for_state, AppState, PointerState, Preferences,
};

verus! {

/// Half of the largest coordinate of a drag, so that positions derived from it are
/// still coordinates.
pub const MAX_POINT: i32 = 500_000_000;

/// A point of a screen.
pub open spec fn is_point(p: (i32, i32)) -> bool {
    -MAX_POINT <= p.0 <= MAX_POINT && -MAX_POINT <= p.1 <= MAX_POINT
}

/// Whether a point is one of a screen.
pub fn is_screen_point(p: (i32, i32)) -> (r: bool)
    ensures
        r == is_point(p),
{
    -MAX_POINT <= p.0 && p.0 <= MAX_POINT && -MAX_POINT <= p.1 && p.1 <= MAX_POINT
}

/// A rectangle of a screen.
pub open spec fn is_screen_rect(rect: Rect) -> bool {
    is_point((rect.left, rect.top)) && is_point((rect.right, rect.bottom))
}

/// A drag and a resize in progress started at points of a screen.
pub open spec fn starts_on_screen(pointer: PointerState) -> bool {
    &&& is_point(pointer.drag_start_mouse)
    &&& is_point(pointer.drag_start_window)
    &&& pointer.resize_session matches Some(session) ==> is_screen_rect(session.start_window_rect)
}

/// The sixteen low bits of a word as a signed number.
pub open spec fn signed_word(bits: int) -> int {
    let low = bits % 0x1_0000;
    if low < 0x8000 {
        low
    } else {
        low - 0x1_0000
    }
}

fn to_signed_word(bits: u64) -> (r: i32)
    ensures
        r == signed_word(bits as int),
{
    let low: i32 = (bits % 0x1_0000) as i32;
    if low < 0x8000 {
        low
    } else {
        low - 0x1_0000
    }
}

/// The client point in the parameter of a mouse message: x in the low word, y in the
/// next one, both signed.
pub fn client_point(lparam: u64) -> (r: (i32, i32))
    ensures
        r.0 == signed_word(lparam as int),
        r.1 == signed_word(lparam as int / 0x1_0000),
{
    (to_signed_word(lparam), to_signed_word(lparam / 0x1_0000))
}

// ---- the cursor -----------------------------------------------------------------------

/// The shapes that the cursor takes over the popup.
#[derive(Clone, Copy, Debug, PartialEq, Eq, Structural)]
pub enum CursorShape {
    ResizeHorizontally,
    Move,
}

/// Where the cursor is in the client area, and how wide that is.
#[derive(Clone, Copy, Debug, PartialEq, Eq)]
pub struct ClientCursor {
    pub x: i32,
    pub y: i32,
    pub client_width: i32,
}

/// The width of the resize strips.
pub open spec fn edge_width(window_dpi: u32) -> int {
    larger(scaled(RESIZE_EDGE_LOGICAL as int, effective_dpi(window_dpi)), 4)
}

/// The bottom of the band that the popup is dragged by.
pub open spec fn band_bottom(s: AppState, dpi: u32) -> i32 {
    header_bottom(
        rows_of(s.states, s.shown@, s.prefs),
        s.prefs.show_github_copilot,
        dpi,
    ) as i32
}

pub open spec fn on_edge(cursor: Option<ClientCursor>, window_dpi: u32) -> bool {
    match cursor {
        Some(c) => horizontal_resize_edge_at(
            c.x,
            c.client_width,
            edge_width(window_dpi) as i32,
        ) is Some,
        None => false,
    }
}

pub open spec fn on_band(
    state: Option<AppState>,
    cursor: Option<ClientCursor>,
    dpi: u32,
) -> bool {
    match (state, cursor) {
        (Some(s), Some(c)) => is_drag_region_point(c.x, c.y, c.client_width, band_bottom(s, dpi)),
        _ => false,
    }
}

/// The shape of the cursor: that of a resize while one goes on or at an edge, that of
/// a move while the popup is dragged or over its header band, else the default.
pub fn cursor_shape(
    state: &Option<AppState>,
    cursor: Option<ClientCursor>,
    window_dpi: u32,
    dpi: u32,
) -> (r: Option<CursorShape>)
    requires
        dpi <= MAX_DPI,
    ensures
        ({
            let resizing = *state matches Some(s) && s.pointer.resize_session is Some;
            let dragging = *state matches Some(s) && s.pointer.dragging;
            r == if resizing || on_edge(cursor, window_dpi) {
                Some(CursorShape::ResizeHorizontally)
            } else if dragging || on_band(*state, cursor, dpi) {
                Some(CursorShape::Move)
            } else {
                None
            }
        }),
{
    let (resizing, dragging): (bool, bool) = match state {
        Some(s) => (s.pointer.resize_session.is_some(), s.pointer.dragging),
        None => (false, false),
    };
    let strip: i32 = horizontal_resize_edge_width_for_dpi(window_dpi);
    let at_edge: bool = match cursor {
        Some(c) => horizontal_resize_edge_at(c.x, c.client_width, strip).is_some(),
        None => false,
    };
    if resizing || at_edge {
        return Some(CursorShape::ResizeHorizontally);
    }
    let over_band: bool = match (state, cursor) {
        (Some(s), Some(c)) => is_drag_region_point(
            c.x,
            c.y,
            c.client_width,
            header_band_bottom(s, dpi),
        ),
        _ => false,
    };
    if dragging || over_band {
        Some(CursorShape::Move)
    } else {
        None
    }
}

// ---- pressing ---------------------------------------------------------------------------

/// What a press starts.
pub open spec fn pressed_target(
    s: AppState,
    at: ClientCursor,
    window_dpi: u32,
    dpi: u32,
) -> PointerInteractionTarget {
    pointer_interaction_target(
        at.x,
        at.y,
        at.client_width,
        edge_width(window_dpi) as i32,
        band_bottom(s, dpi),
    )
}

/// The pointer's state and the effects after a press. Without a cursor position
/// nothing starts, and without a window rectangle no resize does.
pub open spec fn after_press(
    pointer: PointerState,
    target: PointerInteractionTarget,
    cursor: Option<(i32, i32)>,
    window_rect: Option<Rect>,
) -> (PointerState, Seq<Effect>) {
    match (cursor, target) {
        (Some(cursor), PointerInteractionTarget::HorizontalResize(edge)) => match window_rect {
            Some(rect) => (
                PointerState {
                    resize_session: Some(
                        HorizontalResizeSession {
                            edge,
                            start_cursor_screen_x: cursor.0,
                            start_window_rect: rect,
                        },
                    ),
                    ..pointer
                },
                seq![Effect::CaptureForResize],
            ),
            None => (pointer, Seq::empty()),
        },
        (Some(cursor), PointerInteractionTarget::HeaderDrag) => (
            PointerState {
                dragging: true,
                drag_start_mouse: cursor,
                drag_start_window: match window_rect {
                    Some(rect) => (rect.left, rect.top),
                    None => pointer.drag_start_window,
                },
                ..pointer
            },
            seq![Effect::CaptureForDrag],
        ),
        _ => (pointer, Seq::empty()),
    }
}

/// Starts a drag or a resize with a press of the left button. `at` is the point of the
/// message, `cursor` the position on the screen.
pub fn pointer_pressed(
    state: &mut Option<AppState>,
    at: ClientCursor,
    cursor: Option<(i32, i32)>,
    window_rect: Option<Rect>,
    window_dpi: u32,
    dpi: u32,
) -> (r: Vec<Effect>)
    requires
        dpi <= MAX_DPI,
    ensures
        (match *old(state) {
            Some(s) => {
                let done = after_press(
                    s.pointer,
                    pressed_target(s, at, window_dpi, dpi),
                    cursor,
                    window_rect,
                );
                *final(state) == Some(AppState { pointer: done.0, ..s }) && r@ == done.1
            },
            None => *final(state) is None && r@ == Seq::<Effect>::empty(),
        }),
{
    let taken: Option<AppState> = state.take();
    let mut effects: Vec<Effect> = Vec::new();
    if let Some(mut s) = taken {
        let target: PointerInteractionTarget = pointer_interaction_target(
            at.x,
            at.y,
            at.client_width,
            horizontal_resize_edge_width_for_dpi(window_dpi),
            header_band_bottom(&s, dpi),
        );
        if let Some(cursor) = cursor {
            match target {
                PointerInteractionTarget::HorizontalResize(edge) => {
                    if let Some(rect) = window_rect {
                        s.pointer.resize_session = Some(
                            HorizontalResizeSession {
                                edge,
                                start_cursor_screen_x: cursor.0,
                                start_window_rect: rect,
                            },
                        );
                        effects.push(Effect::CaptureForResize);
                    }
                },
                PointerInteractionTarget::HeaderDrag => {
                    s.pointer.dragging = true;
                    s.pointer.drag_start_mouse = cursor;
                    if let Some(rect) = window_rect {
                        s.pointer.drag_start_window = (rect.left, rect.top);
                    }
                    effects.push(Effect::CaptureForDrag);
                },
                PointerInteractionTarget::Nothing => {},
            }
        }
        *state = Some(s);
    }
    effects
}

/// A press on the screen leaves starts that are on the screen.
pub proof fn press_starts_on_screen(
    pointer: PointerState,
    target: PointerInteractionTarget,
    cursor: Option<(i32, i32)>,
    window_rect: Option<Rect>,
)
    requires
        starts_on_screen(pointer),
        cursor matches Some(c) ==> is_point(c),
        window_rect matches Some(rect) ==> is_screen_rect(rect),
    ensures
        starts_on_screen(after_press(pointer, target, cursor, window_rect).0),
{
}

/// The state without a resize in progress.
pub open spec fn resize_ended(state: Option<AppState>) -> Option<AppState> {
    match state {
        Some(s) => Some(
            AppState { pointer: PointerState { resize_session: None, ..s.pointer }, ..s },
        ),
        None => None,
    }
}

/// Whether a resize is in progress.
pub open spec fn is_resizing(state: Option<AppState>) -> bool {
    state matches Some(s) && s.pointer.resize_session is Some
}

/// Ends a resize and tells whether there was one: when the button comes up, when the
/// capture is lost or was refused, and when the system cancels.
pub fn end_resize(state: &mut Option<AppState>) -> (r: bool)
    ensures
        r == is_resizing(*old(state)),
        *final(state) == resize_ended(*old(state)),
{
    let taken: Option<AppState> = state.take();
    match taken {
        Some(mut s) => {
            let ended: bool = clear_horizontal_resize_session(&mut s.pointer.resize_session);
            *state = Some(s);
            ended
        },
        None => false,
    }
}

// ---- moving -----------------------------------------------------------------------------

/// The cursor's position during a drag; the origin where it is not known.
pub open spec fn drag_cursor(cursor: Option<(i32, i32)>) -> (i32, i32) {
    match cursor {
        Some(c) => c,
        None => (0i32, 0i32),
    }
}

/// Where a drag has taken the window.
pub open spec fn dragged_to(pointer: PointerState, cursor: (i32, i32)) -> (int, int) {
    (
        pointer.drag_start_window.0 + (cursor.0 - pointer.drag_start_mouse.0),
        pointer.drag_start_window.1 + (cursor.1 - pointer.drag_start_mouse.1),
    )
}

/// The room for a resize.
pub open spec fn resize_room(work_area_width: Option<i32>, window_dpi: u32) -> i32 {
    match work_area_width {
        Some(width) => width,
        None => scaled(1200, effective_dpi(window_dpi)) as i32,
    }
}

/// The move that a resize asks for: the edge that is not dragged and the top stay,
/// and the height is the content's.
pub open spec fn resize_move(
    s: AppState,
    session: HorizontalResizeSession,
    cursor_x: i32,
    room: i32,
    window_dpi: u32,
    dpi: u32,
) -> Effect {
    let limits = width_limits(families_of(s.prefs), window_dpi, room);
    let width = resize_width(session, cursor_x, limits.0 as i32, limits.1 as i32);
    Effect::MoveWindow {
        x: match session.edge {
            HorizontalResizeEdge::Left => (session.start_window_rect.right - width) as i32,
            HorizontalResizeEdge::Right => session.start_window_rect.left,
        },
        y: session.start_window_rect.top,
        width: width as i32,
        height: height_device(
            rows_of(s.states, s.shown@, s.prefs),
            s.prefs.show_github_copilot,
            dpi,
        ) as i32,
    }
}

/// The move that a drag asks for. Nothing holds the window on the screen here.
pub open spec fn drag_move(
    s: AppState,
    cursor: Option<(i32, i32)>,
    window_width: Option<i32>,
    dpi: u32,
) -> Effect {
    let at = dragged_to(s.pointer, drag_cursor(cursor));
    Effect::MoveWindow {
        x: at.0 as i32,
        y: at.1 as i32,
        width: match window_width {
            Some(width) => width,
            None => scaled(
                widget_width_logical(families_of(s.prefs) as int, TEXT_WIDTH as int),
                dpi as int,
            ) as i32,
        },
        height: height_device(
            rows_of(s.states, s.shown@, s.prefs),
            s.prefs.show_github_copilot,
            dpi,
        ) as i32,
    }
}

/// What a movement of the mouse asks for: a resize wins over a drag.
pub open spec fn movement(
    state: Option<AppState>,
    cursor: Option<(i32, i32)>,
    window_width: Option<i32>,
    work_area_width: Option<i32>,
    window_dpi: u32,
    dpi: u32,
) -> Option<Effect> {
    match state {
        Some(s) => match s.pointer.resize_session {
            Some(session) => match cursor {
                Some(c) => Some(
                    resize_move(
                        s,
                        session,
                        c.0,
                        resize_room(work_area_width, window_dpi),
                        window_dpi,
                        dpi,
                    ),
                ),
                None => None,
            },
            None => if s.pointer.dragging {
                Some(drag_move(s, cursor, window_width, dpi))
            } else {
                None
            },
        },
        None => None,
    }
}

fn follow_resize(
    state: &Option<AppState>,
    session: HorizontalResizeSession,
    cursor_x: i32,
    work_area_width: Option<i32>,
    window_dpi: u32,
    dpi: u32,
) -> (r: Effect)
    requires
        *state is Some,
        is_screen_rect(session.start_window_rect),
        work_area_width matches Some(width) ==> width <= MAX_SCREEN,
        window_dpi <= MAX_DPI,
        dpi <= MAX_DPI,
    ensures
        r == resize_move(
            (*state)->0,
            session,
            cursor_x,
            resize_room(work_area_width, window_dpi),
            window_dpi,
            dpi,
        ),
{
    let limits: (i32, i32, i32) = resize_limits(state, work_area_width, window_dpi, dpi);
    proof {
        broadcast use crate::geometry::scaled_design_length_bounds;

        let s = (*state)->0;
        let room = resize_room(work_area_width, window_dpi);
        lemma_height_bounds(
            rows_of(s.states, s.shown@, s.prefs),
            s.prefs.show_github_copilot,
            dpi,
        );
        crate::geometry::minimum_width_is_not_negative(families_of(s.prefs), window_dpi, room);
        assert(limits.1 <= MAX_SCREEN);
    }
    let rect: Rect = horizontal_resize_rect(session, cursor_x, limits.0, limits.1, limits.2);
    Effect::MoveWindow {
        x: rect.left,
        y: rect.top,
        width: rect.right - rect.left,
        height: rect.bottom - rect.top,
    }
}

fn follow_drag(
    s: &AppState,
    cursor: Option<(i32, i32)>,
    window_width: Option<i32>,
    dpi: u32,
) -> (r: Effect)
    requires
        starts_on_screen(s.pointer),
        cursor matches Some(c) ==> is_point(c),
    ensures
        r == drag_move(*s, cursor, window_width, dpi),
{
    let at_cursor: (i32, i32) = match cursor {
        Some(c) => c,
        None => (0, 0),
    };
    let at: (i32, i32) = drag_follow_position(
        s.pointer.drag_start_window,
        s.pointer.drag_start_mouse,
        at_cursor,
    );
    let width: i32 = match window_width {
        Some(width) => width,
        None => total_widget_width_for_state(s, dpi),
    };
    Effect::MoveWindow { x: at.0, y: at.1, width, height: widget_height_for_state(s, dpi) }
}

/// Follows the mouse with the window during a resize or a drag.
pub fn pointer_moved(
    state: &Option<AppState>,
    cursor: Option<(i32, i32)>,
    window_width: Option<i32>,
    work_area_width: Option<i32>,
    window_dpi: u32,
    dpi: u32,
) -> (r: Option<Effect>)
    requires
        *state matches Some(s) ==> starts_on_screen(s.pointer),
        cursor matches Some(c) ==> is_point(c),
        work_area_width matches Some(width) ==> width <= MAX_SCREEN,
        window_dpi <= MAX_DPI,
        dpi <= MAX_DPI,
    ensures
        r == movement(*state, cursor, window_width, work_area_width, window_dpi, dpi),
{
    match state {
        Some(s) => match s.pointer.resize_session {
            Some(session) => match cursor {
                Some(c) => Some(
                    follow_resize(state, session, c.0, work_area_width, window_dpi, dpi),
                ),
                None => None,
            },
            None => if s.pointer.dragging {
                Some(follow_drag(s, cursor, window_width, dpi))
            } else {
                None
            },
        },
        None => None,
    }
}

// ---- releasing --------------------------------------------------------------------------

/// The state without a drag in progress.
pub open spec fn drag_ended(s: AppState) -> AppState {
    AppState { pointer: PointerState { dragging: false, ..s.pointer }, ..s }
}

/// Ends a drag, if there is one, and tells where the cursor dropped the window: where
/// the last movement to the same point took it.
pub fn end_drag(state: &mut Option<AppState>, cursor: Option<(i32, i32)>) -> (r: Option<
    (i32, i32),
>)
    requires
        *old(state) matches Some(s) ==> starts_on_screen(s.pointer),
        cursor matches Some(c) ==> is_point(c),
    ensures
        (match *old(state) {
            Some(s) => if s.pointer.dragging {
                *final(state) == Some(drag_ended(s)) && (match r {
                    Some((x, y)) => (x as int, y as int) == dragged_to(
                        s.pointer,
                        drag_cursor(cursor),
                    ),
                    None => false,
                })
            } else {
                *final(state) == *old(state) && r is None
            },
            None => *final(state) is None && r is None,
        }),
{
    let taken: Option<AppState> = state.take();
    match taken {
        Some(mut s) => {
            let mut dropped: Option<(i32, i32)> = None;
            if s.pointer.dragging {
                s.pointer.dragging = false;
                let at_cursor: (i32, i32) = match cursor {
                    Some(c) => c,
                    None => (0, 0),
                };
                dropped =
                Some(
                    drag_follow_position(
                        s.pointer.drag_start_window,
                        s.pointer.drag_start_mouse,
                        at_cursor,
                    ),
                );
            }
            *state = Some(s);
            dropped
        },
        None => None,
    }
}

/// Where a dropped window stays: inside the work area, where both are known.
pub open spec fn drop_place(
    at: (i32, i32),
    window_rect: Option<Rect>,
    work_area: Option<Rect>,
) -> (int, int) {
    match (window_rect, work_area) {
        (Some(rect), Some(area)) => position_in(
            area,
            (rect.right - rect.left) as i32,
            (rect.bottom - rect.top) as i32,
            at.0 as int,
            at.1 as int,
        ),
        _ => (at.0 as int, at.1 as int),
    }
}

/// Whether a point lies in a rectangle, whose right and bottom edges are outside it.
pub open spec fn lies_in(p: (i32, i32), rect: Rect) -> bool {
    rect.left <= p.0 < rect.right && rect.top <= p.1 < rect.bottom
}

/// Whether a point lies in one of some rectangles.
pub open spec fn lies_in_any(p: (i32, i32), rects: Seq<Rect>) -> bool {
    exists|i: int| 0 <= i < rects.len() && #[trigger] lies_in(p, rects[i])
}

/// Whether a drop at the cursor is one on a taskbar. A cursor that is not known is on
/// none.
pub fn dropped_on_taskbar(cursor: Option<(i32, i32)>, taskbars: &Vec<Rect>) -> (r: bool)
    ensures
        r == (match cursor {
            Some(p) => lies_in_any(p, taskbars@),
            None => false,
        }),
{
    if let Some(p) = cursor {
        let mut i: usize = 0;
        while i < taskbars.len()
            invariant
                i <= taskbars.len(),
                cursor == Some(p),
                forall|k: int| 0 <= k < i ==> !#[trigger] lies_in(p, taskbars@[k]),
            decreases taskbars.len() - i,
        {
            let bar: Rect = taskbars[i];
            if bar.left <= p.0 && p.0 < bar.right && bar.top <= p.1 && p.1 < bar.bottom {
                assert(lies_in(p, taskbars@[i as int]));
                return true;
            }
            i += 1;
        }
    }
    false
}

/// The state with this saved position.
pub open spec fn with_position(s: AppState, position: Option<(i32, i32)>) -> AppState {
    AppState { prefs: Preferences { manual_position: position, ..s.prefs }, ..s }
}

/// The saved position once a window is dropped: none after a drop on a taskbar, which
/// sends the popup back to its corner, else the place where it stays.
pub open spec fn position_after_drop(
    at: (i32, i32),
    on_taskbar: bool,
    window_rect: Option<Rect>,
    work_area: Option<Rect>,
) -> Option<(i32, i32)> {
    if on_taskbar {
        None
    } else {
        let place = drop_place(at, window_rect, work_area);
        Some((place.0 as i32, place.1 as i32))
    }
}

/// What a drop leads to.
pub open spec fn drop_effects(
    at: (i32, i32),
    on_taskbar: bool,
    window_rect: Option<Rect>,
    work_area: Option<Rect>,
) -> Seq<Effect> {
    if on_taskbar {
        seq![Effect::SaveSettings, Effect::Position]
    } else {
        match window_rect {
            Some(rect) => {
                let place = drop_place(at, window_rect, work_area);
                seq![
                    Effect::MoveWindow {
                        x: place.0 as i32,
                        y: place.1 as i32,
                        width: (rect.right - rect.left) as i32,
                        height: (rect.bottom - rect.top) as i32,
                    },
                    Effect::SaveSettings,
                ]
            },
            None => seq![Effect::SaveSettings],
        }
    }
}

/// Puts a dropped window where it stays and remembers that place; a drop on a taskbar
/// forgets the saved place instead and lets the window be placed anew.
pub fn place_dropped(
    state: &mut Option<AppState>,
    at: (i32, i32),
    on_taskbar: bool,
    window_rect: Option<Rect>,
    work_area: Option<Rect>,
) -> (r: Vec<Effect>)
    requires
        window_rect matches Some(rect) ==> is_screen_rect(rect),
        work_area matches Some(area) ==> is_screen_rect(area),
    ensures
        *final(state) == (match *old(state) {
            Some(s) => Some(
                with_position(s, position_after_drop(at, on_taskbar, window_rect, work_area)),
            ),
            None => None,
        }),
        r@ == drop_effects(at, on_taskbar, window_rect, work_area),
        on_taskbar ==> r@ == seq![Effect::SaveSettings, Effect::Position],
{
    let mut effects: Vec<Effect> = Vec::new();
    let mut position: Option<(i32, i32)> = None;
    if on_taskbar {
        effects.push(Effect::SaveSettings);
        effects.push(Effect::Position);
    } else {
        let place: (i32, i32) = match (window_rect, work_area) {
            (Some(rect), Some(area)) => clamp_position_to_work_area(
                area,
                rect.right - rect.left,
                rect.bottom - rect.top,
                at.0,
                at.1,
            ),
            _ => at,
        };
        if let Some(rect) = window_rect {
            effects.push(
                Effect::MoveWindow {
                    x: place.0,
                    y: place.1,
                    width: rect.right - rect.left,
                    height: rect.bottom - rect.top,
                },
            );
        }
        effects.push(Effect::SaveSettings);
        position = Some(place);
    }
    assert(effects@ =~= drop_effects(at, on_taskbar, window_rect, work_area));
    let taken: Option<AppState> = state.take();
    if let Some(mut s) = taken {
        s.prefs.manual_position = position;
        *state = Some(s);
    }
    effects
}

// ---- laws -----------------------------------------------------------------------------

/// A drag that ends where it began leaves the window where it was.
pub proof fn drag_without_movement_stays(pointer: PointerState)
    ensures
        dragged_to(pointer, pointer.drag_start_mouse) == (
            pointer.drag_start_window.0 as int,
            pointer.drag_start_window.1 as int,
        ),
{
}

/// A drag moves the window by as much as the mouse, whatever way it took.
pub proof fn drag_follows_the_mouse(pointer: PointerState, a: (i32, i32), b: (i32, i32))
    ensures
        dragged_to(pointer, b).0 - dragged_to(pointer, a).0 == b.0 - a.0,
        dragged_to(pointer, b).1 - dragged_to(pointer, a).1 == b.1 - a.1,
{
}

/// A window dropped on a work area that it fits in lies inside it.
pub proof fn dropped_window_lies_in_work_area(at: (i32, i32), rect: Rect, area: Rect)
    requires
        is_screen_rect(rect),
        is_screen_rect(area),
        0 <= rect.right - rect.left <= area.right - area.left,
        0 <= rect.bottom - rect.top <= area.bottom - area.top,
    ensures
        ({
            let place = drop_place(at, Some(rect), Some(area));
            &&& area.left <= place.0 && place.0 + (rect.right - rect.left) <= area.right
            &&& area.top <= place.1 && place.1 + (rect.bottom - rect.top) <= area.bottom
        }),
{
}

/// A resize keeps the edge that is not dragged where it is.
pub proof fn resize_keeps_the_other_edge(
    s: AppState,
    session: HorizontalResizeSession,
    cursor_x: i32,
    room: i32,
    window_dpi: u32,
    dpi: u32,
)
    requires
        is_screen_rect(session.start_window_rect),
        room <= MAX_SCREEN,
        window_dpi <= MAX_DPI,
    ensures
        (match resize_move(s, session, cursor_x, room, window_dpi, dpi) {
            Effect::MoveWindow { x, y, width, height } => {
                &&& y == session.start_window_rect.top
                &&& session.edge is Left ==> x + width == session.start_window_rect.right
                &&& session.edge is Right ==> x == session.start_window_rect.left
            },
            _ => false,
        }),
{
    crate::geometry::minimum_width_is_not_negative(families_of(s.prefs), window_dpi, room);
}

/// A drag begins with the window where it stands and a resize with the width it has; the
/// other of the two is not begun, and nothing is begun in the window's middle.
pub proof fn press_begins_one_interaction(
    pointer: PointerState,
    target: PointerInteractionTarget,
    cursor: (i32, i32),
    rect: Rect,
)
    ensures
        ({
            let (after, effects) = after_press(pointer, target, Some(cursor), Some(rect));
            match target {
                PointerInteractionTarget::HeaderDrag => {
                    &&& after.dragging
                    &&& dragged_to(after, cursor) == (rect.left as int, rect.top as int)
                    &&& after.resize_session == pointer.resize_session
                    &&& effects.contains(Effect::CaptureForDrag)
                    &&& !effects.contains(Effect::CaptureForResize)
                },
                PointerInteractionTarget::HorizontalResize(edge) => {
                    &&& after.dragging == pointer.dragging
                    &&& after.resize_session matches Some(session) && session.edge == edge
                        && session.start_cursor_screen_x == cursor.0 && session.start_window_rect
                        == rect
                    &&& effects.contains(Effect::CaptureForResize)
                    &&& !effects.contains(Effect::CaptureForDrag)
                },
                PointerInteractionTarget::Nothing => after == pointer && effects.len() == 0,
            }
        }),
{
    let (after, effects) = after_press(pointer, target, Some(cursor), Some(rect));
    if effects.len() > 0 {
        assert(effects.contains(effects[0]));
    }
}

/// Where the cursor is not known, a press begins nothing; nor does it begin a resize of a
/// window whose rectangle is not known.
pub proof fn press_in_the_dark_begins_nothing(
    pointer: PointerState,
    target: PointerInteractionTarget,
    cursor: Option<(i32, i32)>,
    window_rect: Option<Rect>,
)
    requires
        cursor is None || (window_rect is None && target is HorizontalResize),
    ensures
        after_press(pointer, target, cursor, window_rect).0 == pointer,
        after_press(pointer, target, cursor, window_rect).1.len() == 0,
{
}

/// The window moves with the mouse just while it is dragged or resized. A drag keeps its
/// width, and both give it the height of its content.
pub proof fn window_moves_while_dragged_or_resized_only(
    s: AppState,
    cursor: (i32, i32),
    window_width: i32,
    work_area_width: i32,
    window_dpi: u32,
    dpi: u32,
)
    requires
        starts_on_screen(s.pointer),
        is_point(cursor),
    ensures
        ({
            let moved = movement(
                Some(s),
                Some(cursor),
                Some(window_width),
                Some(work_area_width),
                window_dpi,
                dpi,
            );
            &&& moved is Some <==> s.pointer.dragging || s.pointer.resize_session is Some
            &&& moved matches Some(effect) ==> {
                &&& effect is MoveWindow
                &&& effect->MoveWindow_height == height_device(
                    rows_of(s.states, s.shown@, s.prefs),
                    s.prefs.show_github_copilot,
                    dpi,
                ) as i32
                &&& s.pointer.resize_session is None ==> effect->MoveWindow_width == window_width
                    && effect->MoveWindow_x - s.pointer.drag_start_window.0 == cursor.0
                    - s.pointer.drag_start_mouse.0 && effect->MoveWindow_y
                    - s.pointer.drag_start_window.1 == cursor.1 - s.pointer.drag_start_mouse.1
                &&& s.pointer.resize_session matches Some(session) ==> effect->MoveWindow_y
                    == session.start_window_rect.top
            }
            &&& movement(
                None,
                Some(cursor),
                Some(window_width),
                Some(work_area_width),
                window_dpi,
                dpi,
            ) is None
        }),
{
}

/// A resize keeps the window within the widths that the room allows; the cursor's movement
/// is all that changes the width between them.
pub proof fn resize_follows_the_cursor_within_the_room(
    s: AppState,
    session: HorizontalResizeSession,
    cursor_x: i32,
    room: i32,
    window_dpi: u32,
    dpi: u32,
)
    requires
        is_screen_rect(session.start_window_rect),
        0 <= session.start_window_rect.right - session.start_window_rect.left <= MAX_SCREEN,
        -MAX_SCREEN <= session.start_cursor_screen_x - cursor_x <= MAX_SCREEN,
        room <= MAX_SCREEN,
        window_dpi <= MAX_DPI,
    ensures
        ({
            let limits = width_limits(families_of(s.prefs), window_dpi, room);
            let start = session.start_window_rect.right - session.start_window_rect.left;
            let outward = if session.edge is Right {
                cursor_x - session.start_cursor_screen_x
            } else {
                session.start_cursor_screen_x - cursor_x
            };
            match resize_move(s, session, cursor_x, room, window_dpi, dpi) {
                Effect::MoveWindow { x, y, width, height } => {
                    &&& limits.0 <= width <= limits.1
                    &&& limits.0 <= start + outward <= limits.1 ==> width == start + outward
                },
                _ => false,
            }
        }),
{
    crate::geometry::minimum_width_is_not_negative(families_of(s.prefs), window_dpi, room);
    let limits = width_limits(families_of(s.prefs), window_dpi, room);
    resized_edge_follows_the_cursor(session, cursor_x, limits.0 as i32, limits.1 as i32);
}

/// The position that is saved after a drop is the one that the window is moved to. A
/// window dropped inside the work area stays where it was dropped. A drop on a taskbar
/// forgets the saved position and has the window placed anew.
pub proof fn drop_saves_where_the_window_stays(
    at: (i32, i32),
    rect: Rect,
    area: Rect,
)
    requires
        is_screen_rect(rect),
        is_screen_rect(area),
        0 <= rect.right - rect.left,
        0 <= rect.bottom - rect.top,
    ensures
        ({
            let saved = position_after_drop(at, false, Some(rect), Some(area));
            let effects = drop_effects(at, false, Some(rect), Some(area));
            &&& saved matches Some(place) ==> effects.contains(
                Effect::MoveWindow {
                    x: place.0,
                    y: place.1,
                    width: (rect.right - rect.left) as i32,
                    height: (rect.bottom - rect.top) as i32,
                },
            )
            &&& saved is Some
            &&& effects.contains(Effect::SaveSettings) && !effects.contains(Effect::Position)
            &&& area.left <= at.0 && at.0 + (rect.right - rect.left) <= area.right && area.top
                <= at.1 && at.1 + (rect.bottom - rect.top) <= area.bottom ==> saved == Some(at)
        }),
        position_after_drop(at, true, Some(rect), Some(area)) is None,
        drop_effects(at, true, Some(rect), Some(area)).contains(Effect::Position),
        drop_effects(at, true, Some(rect), Some(area)).contains(Effect::SaveSettings),
        position_after_drop(at, false, None, Some(area)) == Some(at),
        position_after_drop(at, false, Some(rect), None) == Some(at),
{
    let effects = drop_effects(at, false, Some(rect), Some(area));
    assert(effects[0] is MoveWindow && effects[1] is SaveSettings);
    assert(effects.contains(effects[0]));
    assert(effects.contains(effects[1]));
    let anew = drop_effects(at, true, Some(rect), Some(area));
    assert(anew.contains(anew[0]));
    assert(anew.contains(anew[1]));
}

/// Ending a drag or a resize changes nothing else in the state, and a saved position
/// changes nothing but itself.
pub proof fn release_leaves_the_rest_alone(s: AppState, position: Option<(i32, i32)>)
    ensures
        !drag_ended(s).pointer.dragging,
        drag_ended(s).pointer.resize_session == s.pointer.resize_session,
        drag_ended(s).prefs == s.prefs && drag_ended(s).shown == s.shown && drag_ended(s).states
            == s.states && drag_ended(s).data == s.data && drag_ended(s).polling == s.polling,
        resize_ended(Some(s)) matches Some(after) && after.pointer.resize_session is None
            && after.pointer.dragging == s.pointer.dragging && after.prefs == s.prefs && after.shown
            == s.shown && after.states == s.states && after.data == s.data && after.polling
            == s.polling,
        with_position(s, position).prefs.manual_position == position,
        with_position(s, position).pointer == s.pointer,
        with_position(s, position).shown == s.shown,
        with_position(s, position).prefs.widget_width_logical == s.prefs.widget_width_logical,
        forall|id: QuotaFamilyId| #[trigger]
            is_family_shown(with_position(s, position).prefs, id) == is_family_shown(s.prefs, id),
{
}

/// A signed word has the sixteen low bits of its number and the range of a signed one.
pub proof fn signed_word_keeps_the_low_bits(bits: int)
    ensures
        -0x8000 <= signed_word(bits) < 0x8000,
        (bits - signed_word(bits)) % 0x1_0000 == 0,
{
}

/// Where the work area is not known, there is room for just the widths that can be saved;
/// where it is known, it is the room.
pub proof fn room_without_a_work_area_is_the_widest_width(width: i32, window_dpi: u32)
    requires
        window_dpi <= MAX_DPI,
    ensures
        resize_room(Some(width), window_dpi) == width,
        width <= MAX_WIDGET_WIDTH_LOGICAL ==> scaled(width as int, effective_dpi(window_dpi))
            <= resize_room(None, window_dpi),
        resize_room(None, window_dpi) == scaled(
            MAX_WIDGET_WIDTH_LOGICAL as int,
            effective_dpi(window_dpi),
        ),
{
    if width <= MAX_WIDGET_WIDTH_LOGICAL {
        scaled_is_monotone(width as int, 1_200, effective_dpi(window_dpi));
    }
}

/// The resize strips grow with the DPI, and can be hit at any.
pub proof fn strips_can_be_hit(window_dpi: u32)
    ensures
        ({
            let strip = scaled(RESIZE_EDGE_LOGICAL as int, effective_dpi(window_dpi));
            &&& 4 <= strip ==> edge_width(window_dpi) == strip
            &&& strip < 4 ==> edge_width(window_dpi) == 4
        }),
{
}

} // verus!
