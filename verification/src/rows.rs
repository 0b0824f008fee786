//! Which rows the popup shows, how tall it is, and where each row stands.

use vstd::prelude::*;

use crate::cells::CellState;
use crate::geometry::{
    larger, sc, scaled, scaled_design_length_bounds, scaled_is_monotone,
    scaled_small_length_bounds, MAX_DPI, SEGMENT_H,
};
use crate::numbers::{round_half_away_is_nearest, Quantity};
use crate::pace::{PaceGuidanceLines, PaceView};
use crate::settings::{PopupLayout, ShortWindowVisibility};

verus! {

/// Height of a header row.
pub const HEADER_ROW_H: i32 = 14;

/// Space below the lowest row.
pub const BOTTOM_MARGIN_H: i32 = 5;

/// Space between the provider header and the weekly row.
pub const HEADER_GAP_H: i32 = 4;

/// Height of the popup with both bar rows and the label row that is never drawn.
pub const WIDGET_HEIGHT: i32 = 78;

/// Height of the label row that is never drawn.
pub const BASIS_LABEL_ROW_H: i32 = 16;

/// Height of one additional line of pace text.
pub const PACE_LINE_H: i32 = 14;

/// Gap between two bar rows.
pub const ROW_GAP_H: i32 = 10;

/// Gap between a provider's name and its remaining time.
pub const HEADER_REMAINING_GAP_W: i32 = 8;

/// Clear space at the right edge of every column but the last.
pub const COLUMN_BOUNDARY_GAP_W: i32 = 8;

/// The largest width, height or coordinate that the row arithmetic is carried out
/// for.
pub const MAX_EXTENT: i32 = 100_000_000;

/// Extra lines that a provider's weekly guidance needs.
pub open spec fn extra_lines(pace: Option<PaceView>) -> int {
    match pace {
        Some(lines) => (if lines.secondary is Some {
            1int
        } else {
            0
        }) + (if lines.detail is Some {
            1int
        } else {
            0
        }),
        None => 0,
    }
}

/// The view of borrowed optional lines.
pub open spec fn pace_ref_view(pace: Option<&PaceGuidanceLines>) -> Option<PaceView> {
    match pace {
        Some(lines) => Some(lines@),
        None => None,
    }
}

pub fn weekly_pace_extra_lines_for(pace: Option<&PaceGuidanceLines>) -> (r: i32)
    ensures
        r == extra_lines(pace_ref_view(pace)),
        0 <= r <= 2,
{
    match pace {
        Some(lines) => {
            let mut count: i32 = 0;
            if lines.secondary.is_some() {
                count += 1;
            }
            if lines.detail.is_some() {
                count += 1;
            }
            count
        },
        None => 0,
    }
}

/// Extra lines that the popup reserves: the most that any shown provider needs.
pub open spec fn extra_lines_shown(
    show_claude_code: bool,
    weekly_pace: Option<PaceView>,
    show_codex: bool,
    codex_weekly_pace: Option<PaceView>,
    show_antigravity: bool,
    antigravity_weekly_pace: Option<PaceView>,
) -> int {
    let a = if show_claude_code {
        extra_lines(weekly_pace)
    } else {
        0
    };
    let b = if show_codex {
        extra_lines(codex_weekly_pace)
    } else {
        0
    };
    let c = if show_antigravity {
        extra_lines(antigravity_weekly_pace)
    } else {
        0
    };
    larger(larger(a, b), c)
}

pub fn weekly_pace_extra_lines_shown(
    show_claude_code: bool,
    weekly_pace: Option<&PaceGuidanceLines>,
    show_codex: bool,
    codex_weekly_pace: Option<&PaceGuidanceLines>,
    show_antigravity: bool,
    antigravity_weekly_pace: Option<&PaceGuidanceLines>,
) -> (r: i32)
    ensures
        r == extra_lines_shown(
            show_claude_code,
            pace_ref_view(weekly_pace),
            show_codex,
            pace_ref_view(codex_weekly_pace),
            show_antigravity,
            pace_ref_view(antigravity_weekly_pace),
        ),
        0 <= r <= 2,
{
    let mut most: i32 = 0;
    if show_claude_code {
        let n: i32 = weekly_pace_extra_lines_for(weekly_pace);
        if n > most {
            most = n;
        }
    }
    if show_codex {
        let n: i32 = weekly_pace_extra_lines_for(codex_weekly_pace);
        if n > most {
            most = n;
        }
    }
    if show_antigravity {
        let n: i32 = weekly_pace_extra_lines_for(antigravity_weekly_pace);
        if n > most {
            most = n;
        }
    }
    most
}

/// What the short-window row shows for one provider.
pub struct SessionCellView {
    pub shows: bool,
    pub percent: Option<Quantity>,
    pub text: Seq<char>,
    pub is_warning: bool,
}

/// Hidden blanks everything. A pace line shows in its own words. A ready cell with
/// a value but no pace line stays blank. Anything else keeps its status text.
pub open spec fn session_cell(
    state: CellState,
    percent: Option<Quantity>,
    text: Seq<char>,
    pace: Option<PaceView>,
    visibility: ShortWindowVisibility,
) -> SessionCellView {
    let blank = SessionCellView {
        shows: false,
        percent: None,
        text: Seq::empty(),
        is_warning: false,
    };
    if visibility is Hidden {
        blank
    } else {
        match pace {
            Some(lines) => SessionCellView {
                shows: true,
                percent,
                text: lines.primary,
                is_warning: lines.is_warning,
            },
            None => if state is Ready && percent is Some {
                blank
            } else {
                SessionCellView { shows: true, percent, text, is_warning: false }
            },
        }
    }
}

pub fn session_cell_decision<'a>(
    state: CellState,
    percent: Option<Quantity>,
    text: &'a str,
    pace: Option<&'a PaceGuidanceLines>,
    visibility: ShortWindowVisibility,
) -> (r: (bool, Option<Quantity>, &'a str, bool))
    ensures
        (SessionCellView { shows: r.0, percent: r.1, text: r.2@, is_warning: r.3 })
            == session_cell(state, percent, text@, pace_ref_view(pace), visibility),
{
    proof {
        reveal_strlit("");
        assert(""@ =~= Seq::<char>::empty());
    }
    if let ShortWindowVisibility::Hidden = visibility {
        return (false, None, "", false);
    }
    match pace {
        Some(lines) => (true, percent, lines.primary.as_str(), lines.is_warning),
        None => if state == CellState::Ready && percent.is_some() {
            (false, None, "", false)
        } else {
            (true, percent, text, false)
        },
    }
}

pub open spec fn justifies_warning_row(state: CellState, pace: Option<PaceView>) -> bool {
    pace is Some || !(state is Ready || state is NotAvailable)
}

/// Whether a provider alone keeps the row alive under warning-only: a pace line
/// does, and so does every status but "not available".
pub fn session_cell_justifies_warning_only_row(
    state: CellState,
    pace: Option<&PaceGuidanceLines>,
) -> (r: bool)
    ensures
        r == justifies_warning_row(state, pace_ref_view(pace)),
{
    pace.is_some() || !matches!(state, CellState::Ready | CellState::NotAvailable)
}

pub open spec fn row_cell_shows(
    state: CellState,
    percent: Option<Quantity>,
    text: Seq<char>,
    pace: Option<PaceView>,
    visibility: ShortWindowVisibility,
) -> bool {
    if visibility is WarningOnly {
        justifies_warning_row(state, pace)
    } else {
        session_cell(state, percent, text, pace, visibility).shows
    }
}

/// One provider's contribution to the existence of the short-window row.
pub fn session_row_cell_shows(
    state: CellState,
    percent: Option<Quantity>,
    text: &str,
    pace: Option<&PaceGuidanceLines>,
    visibility: ShortWindowVisibility,
) -> (r: bool)
    ensures
        r == row_cell_shows(state, percent, text@, pace_ref_view(pace), visibility),
{
    if let ShortWindowVisibility::WarningOnly = visibility {
        return session_cell_justifies_warning_only_row(state, pace);
    }
    session_cell_decision(state, percent, text, pace, visibility).0
}

/// Whatever keeps the row alive also has something to draw in it.
pub proof fn a_cell_that_keeps_the_row_draws_in_it(
    state: CellState,
    percent: Option<Quantity>,
    text: Seq<char>,
    pace: Option<PaceView>,
    visibility: ShortWindowVisibility,
)
    requires
        row_cell_shows(state, percent, text, pace, visibility),
    ensures
        session_cell(state, percent, text, pace, visibility).shows,
{
}

/// A provider without a short window never keeps the warning-only row on its own.
pub proof fn not_available_alone_never_keeps_the_row(
    percent: Option<Quantity>,
    text: Seq<char>,
)
    ensures
        !row_cell_shows(
            CellState::NotAvailable,
            percent,
            text,
            None,
            ShortWindowVisibility::WarningOnly,
        ),
{
}

/// Hidden shows nothing, whatever the state.
pub proof fn hidden_blanks_every_state(
    state: CellState,
    percent: Option<Quantity>,
    text: Seq<char>,
    pace: Option<PaceView>,
)
    ensures
        !row_cell_shows(state, percent, text, pace, ShortWindowVisibility::Hidden),
        session_cell(state, percent, text, pace, ShortWindowVisibility::Hidden).percent is None,
        session_cell(state, percent, text, pace, ShortWindowVisibility::Hidden).text.len() == 0,
{
}

pub open spec fn spec_session_row_visible(
    show_claude_code: bool,
    claude_shows: bool,
    show_codex: bool,
    codex_shows: bool,
    show_antigravity: bool,
    antigravity_shows: bool,
) -> bool {
    (show_claude_code && claude_shows) || (show_codex && codex_shows) || (show_antigravity
        && antigravity_shows)
}

/// Whether any shown provider keeps the short-window row.
#[verifier::when_used_as_spec(spec_session_row_visible)]
pub fn session_row_visible(
    show_claude_code: bool,
    claude_shows: bool,
    show_codex: bool,
    codex_shows: bool,
    show_antigravity: bool,
    antigravity_shows: bool,
) -> (r: bool)
    ensures
        r == spec_session_row_visible(
            show_claude_code,
            claude_shows,
            show_codex,
            codex_shows,
            show_antigravity,
            antigravity_shows,
        ),
{
    (show_claude_code && claude_shows) || (show_codex && codex_shows) || (show_antigravity
        && antigravity_shows)
}

/// The popup's optional rows.
#[derive(Clone, Copy, Debug, PartialEq, Eq, Structural)]
pub struct VisibleRows {
    pub weekly_extra_lines: i32,
    pub session_row: bool,
}

pub open spec fn spec_visible_rows(
    layout: PopupLayout,
    weekly_extra_lines: i32,
    needs_session_row: bool,
) -> VisibleRows {
    match layout {
        PopupLayout::Compact => VisibleRows { weekly_extra_lines: 0, session_row: false },
        PopupLayout::Standard => VisibleRows {
            weekly_extra_lines,
            session_row: needs_session_row,
        },
    }
}

/// The one choice of rows that sizing and drawing share: Compact forces every
/// optional row off, Standard takes what the content needs.
#[verifier::when_used_as_spec(spec_visible_rows)]
pub fn visible_rows(layout: PopupLayout, weekly_extra_lines: i32, needs_session_row: bool) -> (r:
    VisibleRows)
    ensures
        r == spec_visible_rows(layout, weekly_extra_lines, needs_session_row),
{
    match layout {
        PopupLayout::Compact => VisibleRows { weekly_extra_lines: 0, session_row: false },
        PopupLayout::Standard => VisibleRows {
            weekly_extra_lines,
            session_row: needs_session_row,
        },
    }
}

/// Popup height at 96 DPI without the monthly row.
pub open spec fn height_logical(rows: VisibleRows) -> int {
    (if rows.session_row {
        62int
    } else {
        39
    }) + rows.weekly_extra_lines * 14
}

pub fn popup_height_logical(rows: VisibleRows) -> (r: i32)
    requires
        -100_000_000 <= rows.weekly_extra_lines <= 100_000_000,
    ensures
        r == height_logical(rows),
{
    let mut base: i32 = WIDGET_HEIGHT - BASIS_LABEL_ROW_H;
    if !rows.session_row {
        base = base - (ROW_GAP_H + SEGMENT_H);
    }
    let extra: i32 = rows.weekly_extra_lines;
    assert(extra * 14 == 14 * extra);
    base + extra * 14
}

/// For the same content, Compact is never taller than Standard.
pub proof fn compact_is_never_taller(weekly_extra_lines: i32, needs_session_row: bool)
    requires
        0 <= weekly_extra_lines,
    ensures
        height_logical(visible_rows(PopupLayout::Compact, weekly_extra_lines, needs_session_row))
            <= height_logical(
            visible_rows(PopupLayout::Standard, weekly_extra_lines, needs_session_row),
        ),
{
}

/// Popup height in pixels; the monthly row adds its own height.
pub open spec fn height_device(rows: VisibleRows, show_github_copilot: bool, dpi: u32) -> int {
    scaled(
        height_logical(rows) + (if show_github_copilot {
            23int
        } else {
            0
        }),
        dpi as int,
    )
}

pub fn widget_height_for_rows(rows: VisibleRows, show_github_copilot: bool, dpi: u32) -> (r: i32)
    requires
        -100_000_000 <= rows.weekly_extra_lines <= 100_000_000,
    ensures
        r == height_device(rows, show_github_copilot, dpi),
{
    let base: i32 = popup_height_logical(rows);
    if show_github_copilot {
        sc(base + (ROW_GAP_H + SEGMENT_H), dpi)
    } else {
        sc(base, dpi)
    }
}

/// Where the rows stand, in pixels from the top.
#[derive(Clone, Copy, Debug, PartialEq, Eq, Structural)]
pub struct PaceRowLayout {
    pub provider_header_y: i32,
    pub weekly_row_y: i32,
    pub weekly_secondary_y: Option<i32>,
    pub session_row_y: Option<i32>,
}

/// What a popup has above its weekly bar: the height of one without optional rows, less
/// the bar and the margin below it.
pub open spec fn header_height(dpi: int) -> int {
    scaled(39, dpi) - scaled(5, dpi) - scaled(13, dpi)
}

/// Top of the weekly bar row, in a popup of this height. The height counts from the
/// bottom: in a popup that is just as tall as its rows need, only the header stands above
/// the weekly bar.
pub open spec fn weekly_row_top(height: int, rows: VisibleRows, dpi: u32) -> int {
    height - (height_device(rows, false, dpi) - header_height(dpi as int))
}

/// Top of the row of the short window: at the very bottom.
pub open spec fn session_row_top(height: int, dpi: u32) -> int {
    height - scaled(5, dpi as int) - scaled(13, dpi as int)
}

/// Whether a layout is the one of these rows in a popup of this height.
pub open spec fn is_row_layout(
    layout: PaceRowLayout,
    height: int,
    rows: VisibleRows,
    dpi: u32,
) -> bool {
    let top = weekly_row_top(height, rows, dpi);
    &&& layout.weekly_row_y == top
    &&& layout.provider_header_y == top - scaled(4, dpi as int) - scaled(14, dpi as int)
    &&& match layout.weekly_secondary_y {
        Some(y) => rows.weekly_extra_lines >= 1 && y == top + scaled(13, dpi as int),
        None => rows.weekly_extra_lines < 1,
    }
    &&& match layout.session_row_y {
        Some(y) => rows.session_row && y == session_row_top(height, dpi),
        None => !rows.session_row,
    }
}

/// Whether the rows and their places can be counted in 32 bits.
pub open spec fn layout_fits(height: int, rows: VisibleRows, dpi: u32) -> bool {
    let top = weekly_row_top(height, rows, dpi);
    &&& -100_000_000 <= rows.weekly_extra_lines <= 100_000_000
    &&& i32::MIN <= top - scaled(4, dpi as int) - scaled(14, dpi as int)
    &&& top + scaled(13, dpi as int) <= i32::MAX
    &&& i32::MIN <= session_row_top(height, dpi)
}

/// Places the rows: the provider header, the weekly bar, its extra lines and the bar of
/// the short window. `height` is that of the popup without its monthly row.
pub fn pace_row_layout(height: i32, rows: VisibleRows, dpi: u32) -> (r: PaceRowLayout)
    requires
        layout_fits(height as int, rows, dpi),
    ensures
        is_row_layout(r, height as int, rows, dpi),
{
    proof {
        scaled_small_length_bounds(4, dpi);
        scaled_small_length_bounds(5, dpi);
        scaled_small_length_bounds(13, dpi);
        scaled_small_length_bounds(14, dpi);
        scaled_small_length_bounds(39, dpi);
    }
    let bare = VisibleRows { weekly_extra_lines: 0, session_row: false };
    let bar: i32 = sc(SEGMENT_H, dpi);
    let margin: i32 = sc(BOTTOM_MARGIN_H, dpi);
    let header: i32 = widget_height_for_rows(bare, false, dpi) - margin - bar;
    let below: i64 = widget_height_for_rows(rows, false, dpi) as i64 - header as i64;
    let top: i64 = height as i64 - below;
    let weekly_row_y: i32 = top as i32;
    let weekly_secondary_y: Option<i32> = if rows.weekly_extra_lines >= 1 {
        Some(weekly_row_y + bar)
    } else {
        None
    };
    let session_row_y: Option<i32> = if rows.session_row {
        Some(height - margin - bar)
    } else {
        None
    };
    let provider_header_y: i32 = weekly_row_y - sc(HEADER_GAP_H, dpi) - sc(HEADER_ROW_H, dpi);
    PaceRowLayout { provider_header_y, weekly_row_y, weekly_secondary_y, session_row_y }
}

/// What is left of a popup's height for the rows above its monthly row.
pub open spec fn height_above_monthly_row(
    height: int,
    rows: VisibleRows,
    show_github_copilot: bool,
    dpi: u32,
) -> int {
    if show_github_copilot {
        height - (height_device(rows, true, dpi) - height_device(rows, false, dpi))
    } else {
        height
    }
}

/// Takes the height that the monthly row adds off a popup's height.
pub fn without_monthly_row(
    height: i32,
    rows: VisibleRows,
    show_github_copilot: bool,
    dpi: u32,
) -> (r: i32)
    requires
        -100_000_000 <= rows.weekly_extra_lines <= 100_000_000,
        i32::MIN <= height_above_monthly_row(height as int, rows, show_github_copilot, dpi),
    ensures
        r == height_above_monthly_row(height as int, rows, show_github_copilot, dpi),
{
    if show_github_copilot {
        let with: i32 = widget_height_for_rows(rows, true, dpi);
        let without: i32 = widget_height_for_rows(rows, false, dpi);
        proof {
            scaled_is_monotone(height_logical(rows), height_logical(rows) + 23, dpi as int);
        }
        let left: i64 = height as i64 - (with as i64 - without as i64);
        left as i32
    } else {
        height
    }
}

/// Where the header band ends in a popup that is just as tall as its rows need, with or
/// without the monthly row: at the top of the weekly bar.
pub open spec fn header_bottom(rows: VisibleRows, show_github_copilot: bool, dpi: u32) -> int {
    weekly_row_top(
        height_above_monthly_row(
            height_device(rows, show_github_copilot, dpi),
            rows,
            show_github_copilot,
            dpi,
        ),
        rows,
        dpi,
    )
}

/// The header band ends at the same place whatever rows stand below it, at every DPI.
pub proof fn header_band_is_the_same_for_all_rows(
    a: VisibleRows,
    copilot_in_a: bool,
    b: VisibleRows,
    copilot_in_b: bool,
    dpi: u32,
)
    ensures
        header_bottom(a, copilot_in_a, dpi) == header_bottom(b, copilot_in_b, dpi),
{
}

/// Any two sets of rows, each laid out in a popup just as tall as it needs, have the
/// header and the weekly bar at the same places, at every DPI.
pub proof fn header_never_moves(
    a: VisibleRows,
    layout_of_a: PaceRowLayout,
    b: VisibleRows,
    layout_of_b: PaceRowLayout,
    dpi: u32,
)
    requires
        is_row_layout(layout_of_a, height_device(a, false, dpi), a, dpi),
        is_row_layout(layout_of_b, height_device(b, false, dpi), b, dpi),
    ensures
        layout_of_a.weekly_row_y == layout_of_b.weekly_row_y,
        layout_of_a.provider_header_y == layout_of_b.provider_header_y,
{
}

/// Rows can be laid out at every DPI in a popup just as tall as they need.
pub proof fn needed_height_fits(rows: VisibleRows, dpi: u32)
    requires
        0 <= rows.weekly_extra_lines <= 100_000_000,
    ensures
        layout_fits(height_device(rows, false, dpi), rows, dpi),
{
    scaled_small_length_bounds(4, dpi);
    scaled_small_length_bounds(5, dpi);
    scaled_small_length_bounds(13, dpi);
    scaled_small_length_bounds(14, dpi);
    scaled_small_length_bounds(39, dpi);
    scaled_is_monotone(39, height_logical(rows), dpi as int);
}

/// Where the weekly row ends, its extra lines with it.
pub open spec fn weekly_block_bottom(height: int, rows: VisibleRows, dpi: u32) -> int {
    weekly_row_top(height, rows, dpi) + scaled(13, dpi as int) + rows.weekly_extra_lines * scaled(
        14,
        dpi as int,
    )
}

/// Twice the rounding error of a scaled design length is at most one pixel.
proof fn lemma_scaling_error(px: int, dpi: int)
    requires
        0 <= px <= 10_000,
        0 <= dpi <= 1_000_000,
    ensures
        -96 <= 2 * (px * dpi - 96 * scaled(px, dpi)) <= 96,
{
    assert(0 <= px * dpi <= 10_000 * 1_000_000) by (nonlinear_arith)
        requires
            0 <= px <= 10_000,
            0 <= dpi <= 1_000_000,
    ;
    round_half_away_is_nearest(px * dpi, 96);
}

/// Rounding each length to half a pixel leaves room for the rows: `s4` to `s39` are the
/// design lengths of these sizes at DPI `d`, and `part` and `total` the heights without
/// and with the monthly row.
proof fn lemma_room(
    d: int,
    s4: int,
    s5: int,
    s13: int,
    s14: int,
    s39: int,
    part: int,
    total: int,
    session_row: bool,
    lines: int,
)
    requires
        96 <= d,
        0 <= lines <= 2,
        -96 <= 2 * (4 * d - 96 * s4) <= 96,
        -96 <= 2 * (5 * d - 96 * s5) <= 96,
        -96 <= 2 * (13 * d - 96 * s13) <= 96,
        -96 <= 2 * (14 * d - 96 * s14) <= 96,
        -96 <= 2 * (39 * d - 96 * s39) <= 96,
        ({
            let rows = if session_row {
                62 * d
            } else {
                39 * d
            };
            let extra = if lines == 0 {
                0
            } else if lines == 1 {
                14 * d
            } else {
                28 * d
            };
            &&& -96 <= 2 * (rows + extra - 96 * part) <= 96
            &&& -96 <= 2 * (rows + extra + 23 * d - 96 * total) <= 96
        }),
    ensures
        ({
            let extra = if lines == 0 {
                0
            } else if lines == 1 {
                s14
            } else {
                2 * s14
            };
            let top = s39 - s5 - s13;
            &&& 0 <= top - s4 - s14
            &&& top + s13 + extra <= part - if session_row {
                s5 + s13
            } else {
                0
            }
            &&& part <= total - s5 - s13
        }),
{
}

/// The popup has room for its rows: the header lies on it, the weekly bar and its extra
/// lines end above the row below them, and nothing reaches into the monthly row at the
/// bottom.
pub proof fn rows_fit_the_popup(rows: VisibleRows, dpi: u32)
    requires
        0 <= rows.weekly_extra_lines <= 2,
        96 <= dpi <= MAX_DPI,
    ensures
        ({
            let part = height_device(rows, false, dpi);
            let bar = scaled(13, dpi as int);
            let bottom = weekly_block_bottom(part, rows, dpi);
            &&& 0 <= weekly_row_top(part, rows, dpi) - scaled(4, dpi as int) - scaled(
                14,
                dpi as int,
            )
            &&& rows.session_row ==> bottom <= session_row_top(part, dpi)
            &&& bottom <= part
            &&& part <= session_row_top(height_device(rows, true, dpi), dpi)
        }),
{
    broadcast use scaled_design_length_bounds;

    let d = dpi as int;
    let lines = rows.weekly_extra_lines as int;
    let logical = height_logical(rows);
    lemma_scaling_error(4, d);
    lemma_scaling_error(5, d);
    lemma_scaling_error(13, d);
    lemma_scaling_error(14, d);
    lemma_scaling_error(39, d);
    lemma_scaling_error(logical, d);
    lemma_scaling_error(logical + 23, d);
    assert(logical * d == (if rows.session_row {
        62 * d
    } else {
        39 * d
    }) + 14 * (lines * d)) by (nonlinear_arith)
        requires
            logical == (if rows.session_row {
                62int
            } else {
                39
            }) + lines * 14,
    ;
    assert((logical + 23) * d == logical * d + 23 * d) by (nonlinear_arith);
    assert(0 * d == 0 && 1 * d == d && 2 * d == d + d);
    lemma_room(
        d,
        scaled(4, d),
        scaled(5, d),
        scaled(13, d),
        scaled(14, d),
        scaled(39, d),
        scaled(logical, d),
        scaled(logical + 23, d),
        rows.session_row,
        lines,
    );
    let line = scaled(14, d);
    assert(0 * line == 0 && 1 * line == line && 2 * line == line + line);
}

// ---- what the rows are for ----------------------------------------------------------------

/// Every line of guidance below the first needs a line of its own.
pub proof fn every_further_line_is_counted(pace: Option<PaceView>)
    ensures
        (match pace {
            Some(PaceView { secondary: Some(_), detail: Some(_), .. }) => extra_lines(pace) == 2,
            Some(PaceView { secondary: None, detail: None, .. }) => extra_lines(pace) == 0,
            Some(_) => extra_lines(pace) == 1,
            None => extra_lines(pace) == 0,
        }),
{
}

/// Where the short window is not hidden, its row shows the guidance line with its warning
/// wherever there is one, and the status text of a cell that has no value; a value without
/// guidance stays blank.
pub proof fn short_window_row_shows_guidance_or_status(
    state: CellState,
    percent: Option<Quantity>,
    text: Seq<char>,
    pace: Option<PaceView>,
    visibility: ShortWindowVisibility,
)
    requires
        !(visibility is Hidden),
    ensures
        ({
            let cell = session_cell(state, percent, text, pace, visibility);
            &&& pace matches Some(lines) ==> cell.shows && cell.text == lines.primary
                && cell.is_warning == lines.is_warning && cell.percent == percent
            &&& pace is None && !(state is Ready) ==> cell.shows && cell.text == text
                && !cell.is_warning
            &&& pace is None && state is Ready && percent is Some ==> !cell.shows && cell.text
                == Seq::<char>::empty() && cell.percent is None
            &&& visibility is Always ==> (row_cell_shows(state, percent, text, pace, visibility)
                <==> cell.shows)
            &&& visibility is WarningOnly ==> (row_cell_shows(
                state,
                percent,
                text,
                pace,
                visibility,
            ) <==> pace is Some || state is Loading || state is AuthenticationExpired
                || state is AuthenticationProblem || state is CredentialsUnavailable
                || state is FetchFailed || state is Disabled)
        }),
{
}

/// Each optional row adds its own height and nothing else does: a line of guidance one
/// line, the short-window row a bar and a gap, and the monthly row as much.
pub proof fn every_row_adds_its_own_height(rows: VisibleRows)
    ensures
        ({
            let bare = height_logical(VisibleRows { weekly_extra_lines: 0, session_row: false });
            &&& bare == 39
            &&& height_logical(rows) == bare + PACE_LINE_H * rows.weekly_extra_lines
                + if rows.session_row {
                ROW_GAP_H + SEGMENT_H
            } else {
                0
            }
            &&& height_device(rows, false, 96) == crate::geometry::to_i32(height_logical(rows))
            &&& height_device(rows, true, 96) == crate::geometry::to_i32(
                height_logical(rows) + ROW_GAP_H + SEGMENT_H,
            )
        }),
{
    let h = height_logical(rows);
    assert(14 * rows.weekly_extra_lines == rows.weekly_extra_lines * 14);
    lemma_unscaled(h);
    lemma_unscaled(h + 23);
}

proof fn lemma_unscaled(px: int)
    ensures
        scaled(px, 96) == crate::geometry::to_i32(px),
{
    if px >= 0 {
        assert((2 * (px * 96) + 96) / 192 == px);
    } else {
        assert((2 * -(px * 96) + 96) / 192 == -px);
    }
}

/// Whichever row is the last one, it stands equally far above the bottom edge.
pub proof fn last_row_keeps_its_distance_from_the_bottom(height: int, dpi: u32)
    ensures
        weekly_row_top(
            height,
            VisibleRows { weekly_extra_lines: 0, session_row: false },
            dpi,
        ) == session_row_top(height, dpi),
{
}

/// The compact layout has neither further lines nor the row of the short window; the
/// standard one has all that are asked for.
pub proof fn only_the_standard_layout_has_further_rows(extra: i32, needs_session_row: bool)
    ensures
        ({
            let compact = visible_rows(PopupLayout::Compact, extra, needs_session_row);
            let standard = visible_rows(PopupLayout::Standard, extra, needs_session_row);
            &&& compact.weekly_extra_lines == 0 && !compact.session_row
            &&& standard.weekly_extra_lines == extra
            &&& standard.session_row == needs_session_row
        }),
{
}

/// As many further lines are shown as the shown provider with the most of them has, and a
/// provider that is not shown asks for neither lines nor a row.
pub proof fn shown_providers_alone_ask_for_lines(
    a: (bool, Option<PaceView>),
    b: (bool, Option<PaceView>),
    c: (bool, Option<PaceView>),
)
    ensures
        ({
            let lines = extra_lines_shown(a.0, a.1, b.0, b.1, c.0, c.1);
            &&& a.0 ==> extra_lines(a.1) <= lines
            &&& b.0 ==> extra_lines(b.1) <= lines
            &&& c.0 ==> extra_lines(c.1) <= lines
            &&& lines == 0 || (a.0 && lines == extra_lines(a.1)) || (b.0 && lines == extra_lines(
                b.1,
            )) || (c.0 && lines == extra_lines(c.1))
        }),
{
}

/// The parts of the popup stand one under the other: the header a small gap above the
/// weekly row, the further lines right under it, and the row of the short window at the
/// bottom.
pub proof fn rows_stand_one_under_the_other(
    layout: PaceRowLayout,
    height: int,
    rows: VisibleRows,
    dpi: u32,
)
    requires
        is_row_layout(layout, height, rows, dpi),
    ensures
        layout.provider_header_y + scaled(14, dpi as int) + scaled(4, dpi as int)
            == layout.weekly_row_y,
        layout.weekly_secondary_y matches Some(y) ==> layout.weekly_row_y + scaled(13, dpi as int)
            == y,
        layout.weekly_secondary_y is Some <==> rows.weekly_extra_lines >= 1,
        layout.session_row_y matches Some(y) ==> y + scaled(13, dpi as int) + scaled(5, dpi as int)
            == height,
        layout.session_row_y is Some <==> rows.session_row,
{
}

} // verus!
