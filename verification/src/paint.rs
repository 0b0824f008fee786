//! What the popup draws.

use vstd::prelude::*;

use crate::cells::CellState;
use crate::draw::{
    appended_twice, cell_texts, cells_view, column_x, draw_row, drawn,
    every_cell_is_drawn_in_its_column, first_column_x, is_among, lemma_among_more, lemma_joined,
    lemma_one_text, lemma_texts_joined, outline_thickness, outline_width, put_fill, put_text,
    rect_at, rect_with_size, row_drawn, row_writes_its_label_and_its_cells, segments_drawn,
    texts_of, value_rect, BarStyle, DrawCommand, DrawView, RowCell, RowCellView, RowStyle,
    TextAlign,
};
use crate::geometry::{
    column_fits_client, column_width, fixed_width_device, provider_column_width_for_client_at_dpi,
    row_bar_segment_count, sc, scaled, scaled_design_length_bounds, Rect, DIVIDER_RIGHT_MARGIN,
    LABEL_RIGHT_MARGIN, LABEL_WIDTH, LEFT_DIVIDER_W, MAX_DPI, MODEL_RIGHT_MARGIN, SEGMENT_H,
};
use crate::models::QuotaFamilyId;
use crate::numbers::Quantity;
use crate::pace::{PaceGuidanceLines, PaceView};
use crate::rows::{
    height_above_monthly_row, is_row_layout, pace_ref_view, pace_row_layout, session_cell,
    session_cell_decision, session_row_top, weekly_row_top, without_monthly_row, PaceRowLayout,
    VisibleRows, COLUMN_BOUNDARY_GAP_W, HEADER_REMAINING_GAP_W, HEADER_ROW_H, MAX_EXTENT,
    PACE_LINE_H,
};
use crate::settings::{PopupLayout, ShortWindowVisibility};
use crate::state::{
    families_of, rows_of, states_of, total_widget_width_for_state, view_of,
    visible_rows_for_state, widget_height_for_state, AppState, Preferences, ShownWindow,
    UsageView, WindowView,
};
use crate::strings::Strings;
use crate::theme::{
    accent_color, pixel_number, popup_palette, theme_is_dark_variant, theme_outlines_usage_track,
    theme_shows_column_dividers, usage_text_color, Color, PopupPalette,
};
use crate::time::text_view;

verus! {

/// The area that is drawn on.
#[derive(Clone, Copy, Debug, PartialEq, Eq, Structural)]
pub struct Canvas {
    pub width: i32,
    pub height: i32,
    pub dpi: u32,
}

impl Canvas {
    /// A canvas of a size and DPI that the drawing arithmetic is carried out for.
    pub open spec fn is_valid(self) -> bool {
        0 <= self.width <= MAX_EXTENT && 0 <= self.height <= MAX_EXTENT && self.dpi <= MAX_DPI
    }

    /// Tells whether the canvas can be drawn on.
    pub fn valid(&self) -> (r: bool)
        ensures
            r == self.is_valid(),
    {
        0 <= self.width && self.width <= MAX_EXTENT && 0 <= self.height && self.height
            <= MAX_EXTENT && self.dpi <= MAX_DPI
    }
}

// ---- background ---------------------------------------------------------------------------

/// Half of a length, rounded towards zero.
pub open spec fn half(v: int) -> int {
    if v >= 0 {
        v / 2
    } else {
        -((-v) / 2)
    }
}

/// The background and the divider at its left.
pub open spec fn background_drawn(canvas: Canvas, palette: PopupPalette) -> Seq<DrawView> {
    let dpi = canvas.dpi as int;
    let top = half(canvas.height - scaled(25, dpi));
    seq![
        DrawView::Fill {
            rect: rect_at(0, 0, canvas.width as int, canvas.height as int),
            color: palette.background,
        },
        DrawView::Fill {
            rect: rect_at(0, top, scaled(2, dpi), scaled(25, dpi)),
            color: palette.border,
        },
        DrawView::Fill {
            rect: rect_at(
                scaled(2, dpi),
                top,
                scaled(3, dpi) - scaled(2, dpi),
                scaled(25, dpi),
            ),
            color: palette.border,
        },
    ]
}

fn draw_background(commands: &mut Vec<DrawCommand>, canvas: Canvas, palette: PopupPalette)
    requires
        canvas.is_valid(),
    ensures
        drawn(final(commands)@) == drawn(old(commands)@) + background_drawn(canvas, palette),
{
    broadcast use scaled_design_length_bounds;

    let dpi: u32 = canvas.dpi;
    let divider_height: i32 = sc(25, dpi);
    let rest: i32 = canvas.height - divider_height;
    let top: i32 = if rest >= 0 {
        rest / 2
    } else {
        -((-rest) / 2)
    };
    let whole: Rect = rect_with_size(0, 0, canvas.width, canvas.height);
    put_fill(commands, whole, palette.background);
    let left: Rect = rect_with_size(0, top, sc(2, dpi), divider_height);
    put_fill(commands, left, palette.border);
    let right: Rect = rect_with_size(sc(2, dpi), top, sc(3, dpi) - sc(2, dpi), divider_height);
    put_fill(commands, right, palette.border);
    assert(drawn(commands@) =~= drawn(old(commands)@) + background_drawn(canvas, palette));
}

/// Left edge of the row labels.
pub open spec fn content_x(dpi: int) -> int {
    scaled(3, dpi) + scaled(10, dpi)
}

// ---- header -------------------------------------------------------------------------------

/// Widths of a provider's name and of its remaining time, as the font has them.
#[derive(Clone, Copy, Debug, PartialEq, Eq, Structural)]
pub struct TextWidths {
    pub name: i32,
    pub remaining: i32,
}

/// Widths of the texts of the header.
#[derive(Clone, Copy, Debug, PartialEq, Eq, Structural)]
pub struct HeaderWidths {
    pub claude: TextWidths,
    pub codex: TextWidths,
    pub antigravity: TextWidths,
}

pub open spec fn are_widths(widths: TextWidths) -> bool {
    0 <= widths.name <= MAX_EXTENT && 0 <= widths.remaining <= MAX_EXTENT
}

impl HeaderWidths {
    pub open spec fn is_valid(self) -> bool {
        are_widths(self.claude) && are_widths(self.codex) && are_widths(self.antigravity)
    }

    /// Tells whether all widths are ones that the drawing arithmetic is carried out
    /// for.
    pub fn valid(&self) -> (r: bool)
        ensures
            r == self.is_valid(),
    {
        let c: TextWidths = self.claude;
        let x: TextWidths = self.codex;
        let a: TextWidths = self.antigravity;
        0 <= c.name && c.name <= MAX_EXTENT && 0 <= c.remaining && c.remaining <= MAX_EXTENT && 0
            <= x.name && x.name <= MAX_EXTENT && 0 <= x.remaining && x.remaining <= MAX_EXTENT && 0
            <= a.name && a.name <= MAX_EXTENT && 0 <= a.remaining && a.remaining <= MAX_EXTENT
    }
}

/// The room that a remaining time may take: the column, but for clear space before the
/// next one.
pub open spec fn available_width(column: int, is_last: bool, dpi: int) -> int {
    column - if is_last {
        0
    } else {
        scaled(8, dpi)
    }
}

/// Whether a remaining time fits beside the name.
pub open spec fn remaining_fits(
    column: int,
    is_last: bool,
    widths: TextWidths,
    dpi: int,
) -> bool {
    widths.name + scaled(8, dpi) + widths.remaining <= available_width(column, is_last, dpi)
}

/// A remaining time in the header, right-aligned. It is left out where it does not fit:
/// the name always wins.
pub open spec fn remaining_drawn(
    x: int,
    y: int,
    column: int,
    is_last: bool,
    remaining: Option<Seq<char>>,
    widths: TextWidths,
    color: Color,
    dpi: int,
) -> Seq<DrawView> {
    match remaining {
        Some(text) => if text.len() > 0 && remaining_fits(column, is_last, widths, dpi) {
            seq![
                DrawView::Text {
                    text,
                    rect: rect_at(x, y, available_width(column, is_last, dpi), scaled(14, dpi)),
                    color,
                    align: TextAlign::Right,
                },
            ]
        } else {
            Seq::empty()
        },
        None => Seq::empty(),
    }
}

/// Draws a remaining time where it fits.
pub fn draw_header_remaining_if_fits(
    commands: &mut Vec<DrawCommand>,
    x: i32,
    y: i32,
    column: i32,
    is_last_column: bool,
    remaining: Option<&str>,
    widths: TextWidths,
    color: Color,
    dpi: u32,
)
    requires
        -500_000_000 <= x <= 500_000_000,
        -500_000_000 <= y <= 500_000_000,
        0 <= column <= MAX_EXTENT,
        are_widths(widths),
        dpi <= MAX_DPI,
    ensures
        drawn(final(commands)@) == drawn(old(commands)@) + remaining_drawn(
            x as int,
            y as int,
            column as int,
            is_last_column,
            match remaining {
                Some(text) => Some(text@),
                None => None,
            },
            widths,
            color,
            dpi as int,
        ),
{
    broadcast use scaled_design_length_bounds;

    if let Some(text) = remaining {
        if !text.is_empty() {
            let boundary: i32 = if is_last_column {
                0
            } else {
                sc(COLUMN_BOUNDARY_GAP_W, dpi)
            };
            let available: i32 = column - boundary;
            if widths.name + sc(HEADER_REMAINING_GAP_W, dpi) + widths.remaining <= available {
                let rect: Rect = rect_with_size(x, y, available, sc(HEADER_ROW_H, dpi));
                put_text(commands, text, rect, color, TextAlign::Right);
            }
        }
    }
    assert(drawn(commands@) =~= drawn(old(commands)@) + remaining_drawn(
        x as int,
        y as int,
        column as int,
        is_last_column,
        match remaining {
            Some(text) => Some(text@),
            None => None,
        },
        widths,
        color,
        dpi as int,
    ));
}

/// One provider of the header: its name, and its remaining time in the compact layout.
pub open spec fn header_entry_drawn(
    x: int,
    y: int,
    column: int,
    name: Seq<char>,
    remaining: Option<Seq<char>>,
    is_last: bool,
    shows_remaining: bool,
    widths: TextWidths,
    color: Color,
    dpi: int,
) -> Seq<DrawView> {
    seq![
        DrawView::Text {
            text: name,
            rect: rect_at(x, y, column, scaled(14, dpi)),
            color,
            align: TextAlign::LeftEllipsis,
        },
    ] + if shows_remaining {
        remaining_drawn(x, y, column, is_last, remaining, widths, color, dpi)
    } else {
        Seq::empty()
    }
}

fn draw_header_entry(
    commands: &mut Vec<DrawCommand>,
    x: i32,
    y: i32,
    column: i32,
    name: &str,
    remaining: &Option<String>,
    is_last_column: bool,
    shows_remaining: bool,
    widths: TextWidths,
    color: Color,
    dpi: u32,
)
    requires
        -500_000_000 <= x <= 500_000_000,
        -500_000_000 <= y <= 500_000_000,
        0 <= column <= MAX_EXTENT,
        are_widths(widths),
        dpi <= MAX_DPI,
    ensures
        drawn(final(commands)@) == drawn(old(commands)@) + header_entry_drawn(
            x as int,
            y as int,
            column as int,
            name@,
            text_view(*remaining),
            is_last_column,
            shows_remaining,
            widths,
            color,
            dpi as int,
        ),
{
    broadcast use scaled_design_length_bounds;

    let ghost before = drawn(commands@);
    let rect: Rect = rect_with_size(x, y, column, sc(HEADER_ROW_H, dpi));
    put_text(commands, name, rect, color, TextAlign::LeftEllipsis);
    if shows_remaining {
        let text: Option<&str> = match remaining {
            Some(text) => Some(text.as_str()),
            None => None,
        };
        draw_header_remaining_if_fits(
            commands,
            x,
            y,
            column,
            is_last_column,
            text,
            widths,
            color,
            dpi,
        );
    }
    assert(drawn(commands@) =~= before + header_entry_drawn(
        x as int,
        y as int,
        column as int,
        name@,
        text_view(*remaining),
        is_last_column,
        shows_remaining,
        widths,
        color,
        dpi as int,
    ));
}

/// How many of some providers are shown.
pub open spec fn count_of(a: bool, b: bool, c: bool) -> int {
    (if a {
        1int
    } else {
        0
    }) + (if b {
        1int
    } else {
        0
    }) + (if c {
        1int
    } else {
        0
    })
}

/// Which column a provider has: as many as are shown before it.
pub open spec fn column_index(prefs: Preferences, family: QuotaFamilyId) -> int {
    match family {
        QuotaFamilyId::Claude => 0,
        QuotaFamilyId::Codex => count_of(prefs.show_claude_code, false, false),
        QuotaFamilyId::Antigravity => count_of(prefs.show_claude_code, prefs.show_codex, false),
        QuotaFamilyId::GithubCopilot => count_of(
            prefs.show_claude_code,
            prefs.show_codex,
            prefs.show_antigravity,
        ),
    }
}

/// Left edge of a provider's column.
#[verifier::opaque]
pub open spec fn family_x(prefs: Preferences, family: QuotaFamilyId, canvas: Canvas) -> int {
    column_x(
        content_x(canvas.dpi as int),
        column_index(prefs, family),
        column_width(canvas.width, families_of(prefs), canvas.dpi),
        canvas.dpi as int,
    )
}

/// Whether a provider is shown.
pub open spec fn is_family_shown(prefs: Preferences, family: QuotaFamilyId) -> bool {
    match family {
        QuotaFamilyId::Claude => prefs.show_claude_code,
        QuotaFamilyId::Codex => prefs.show_codex,
        QuotaFamilyId::Antigravity => prefs.show_antigravity,
        QuotaFamilyId::GithubCopilot => prefs.show_github_copilot,
    }
}

/// The providers' place in the fixed order of the columns.
pub open spec fn family_rank(family: QuotaFamilyId) -> int {
    match family {
        QuotaFamilyId::Claude => 0,
        QuotaFamilyId::Codex => 1,
        QuotaFamilyId::Antigravity => 2,
        QuotaFamilyId::GithubCopilot => 3,
    }
}

/// Whether no shown provider has a column to the right of this one's.
pub open spec fn is_last_column(prefs: Preferences, family: QuotaFamilyId) -> bool {
    match family {
        QuotaFamilyId::Claude => !prefs.show_codex && !prefs.show_antigravity
            && !prefs.show_github_copilot,
        QuotaFamilyId::Codex => !prefs.show_antigravity && !prefs.show_github_copilot,
        QuotaFamilyId::Antigravity => !prefs.show_github_copilot,
        QuotaFamilyId::GithubCopilot => true,
    }
}

/// Codex's name in the header, with its banked resets.
pub open spec fn codex_header(strings: Strings, banked_resets: Seq<char>) -> Seq<char> {
    strings.codex_model@ + " · "@ + banked_resets
}

pub fn codex_header_text(strings: Strings, banked_resets: &str) -> (r: String)
    ensures
        r@ == codex_header(strings, banked_resets@),
{
    let mut text: String = strings.codex_model.to_owned();
    text.append(" · ");
    text.append(banked_resets);
    text
}

/// A provider's part of the header; nothing for one that is not shown.
#[verifier::opaque]
pub open spec fn header_part(
    family: QuotaFamilyId,
    prefs: Preferences,
    shown: UsageView,
    y: int,
    strings: Strings,
    widths: HeaderWidths,
    color: Color,
    canvas: Canvas,
) -> Seq<DrawView> {
    let dpi = canvas.dpi as int;
    let x = family_x(prefs, family, canvas);
    let column = column_width(canvas.width, families_of(prefs), canvas.dpi);
    let compact = prefs.popup_layout is Compact;
    match family {
        QuotaFamilyId::Claude => if prefs.show_claude_code {
            header_entry_drawn(
                x,
                y,
                column,
                strings.claude_code_model@,
                shown.claude.weekly_remaining_text,
                is_last_column(prefs, family),
                compact,
                widths.claude,
                color,
                dpi,
            )
        } else {
            Seq::empty()
        },
        QuotaFamilyId::Codex => if prefs.show_codex {
            header_entry_drawn(
                x,
                y,
                column,
                codex_header(strings, shown.codex_banked_reset_text),
                shown.codex.weekly_remaining_text,
                is_last_column(prefs, family),
                compact,
                widths.codex,
                color,
                dpi,
            )
        } else {
            Seq::empty()
        },
        QuotaFamilyId::Antigravity => if prefs.show_antigravity {
            header_entry_drawn(
                x,
                y,
                column,
                strings.antigravity_model@,
                shown.antigravity.weekly_remaining_text,
                is_last_column(prefs, family),
                compact,
                widths.antigravity,
                color,
                dpi,
            )
        } else {
            Seq::empty()
        },
        QuotaFamilyId::GithubCopilot => if prefs.show_github_copilot {
            header_entry_drawn(
                x,
                y,
                column,
                "GitHub Copilot"@,
                None,
                true,
                false,
                TextWidths { name: 0, remaining: 0 },
                color,
                dpi,
            )
        } else {
            Seq::empty()
        },
    }
}

/// The header: the shown providers' names over their columns.
pub open spec fn header_drawn(
    prefs: Preferences,
    shown: UsageView,
    y: int,
    strings: Strings,
    widths: HeaderWidths,
    color: Color,
    canvas: Canvas,
) -> Seq<DrawView> {
    header_part(QuotaFamilyId::Claude, prefs, shown, y, strings, widths, color, canvas)
        + header_part(QuotaFamilyId::Codex, prefs, shown, y, strings, widths, color, canvas)
        + header_part(QuotaFamilyId::Antigravity, prefs, shown, y, strings, widths, color, canvas)
        + header_part(
        QuotaFamilyId::GithubCopilot,
        prefs,
        shown,
        y,
        strings,
        widths,
        color,
        canvas,
    )
}

/// `n` steps, for as many columns as can stand before one.
spec fn steps(n: int, step: int) -> int {
    if n == 0 {
        0
    } else if n == 1 {
        step
    } else if n == 2 {
        step + step
    } else {
        step + step + step
    }
}

proof fn lemma_family_x(prefs: Preferences, family: QuotaFamilyId, canvas: Canvas, step: int)
    requires
        step == column_width(canvas.width, families_of(prefs), canvas.dpi) + scaled(
            3,
            canvas.dpi as int,
        ),
    ensures
        family_x(prefs, family, canvas) == first_column_x(
            content_x(canvas.dpi as int),
            canvas.dpi as int,
        ) + steps(column_index(prefs, family), step),
{
    assert(0 * step == 0 && 1 * step == step && 2 * step == step + step && 3 * step == step + step
        + step) by (nonlinear_arith);
    let index = column_index(prefs, family);
    assert(index * step == steps(index, step));
    reveal(family_x);
}

/// The left edge of the first column and the distance between columns.
fn column_grid(prefs: &Preferences, canvas: Canvas) -> (r: (i32, i32))
    requires
        canvas.is_valid(),
    ensures
        r.0 == first_column_x(content_x(canvas.dpi as int), canvas.dpi as int),
        r.1 == column_width(canvas.width, families_of(*prefs), canvas.dpi) + scaled(
            3,
            canvas.dpi as int,
        ),
        0 <= r.0 <= 1_000_000,
        0 <= r.1 <= 101_000_000,
{
    broadcast use scaled_design_length_bounds;

    let dpi: u32 = canvas.dpi;
    let families: i32 = prefs.active_family_count();
    let column: i32 = provider_column_width_for_client_at_dpi(canvas.width, families, dpi);
    proof {
        column_fits_client(canvas.width, families, dpi);
    }
    let first: i32 = sc(LEFT_DIVIDER_W, dpi) + sc(DIVIDER_RIGHT_MARGIN, dpi) + sc(
        LABEL_WIDTH,
        dpi,
    ) + sc(LABEL_RIGHT_MARGIN, dpi);
    (first, column + sc(MODEL_RIGHT_MARGIN, dpi))
}

/// Left edges of the four providers' columns in their fixed order, each where
/// it would stand if it is shown.
fn column_positions(prefs: &Preferences, canvas: Canvas) -> (r: (i32, i32, i32, i32))
    requires
        canvas.is_valid(),
    ensures
        r.0 == family_x(*prefs, QuotaFamilyId::Claude, canvas),
        r.1 == family_x(*prefs, QuotaFamilyId::Codex, canvas),
        r.2 == family_x(*prefs, QuotaFamilyId::Antigravity, canvas),
        r.3 == family_x(*prefs, QuotaFamilyId::GithubCopilot, canvas),
        0 <= r.0 <= 500_000_000,
        0 <= r.1 <= 500_000_000,
        0 <= r.2 <= 500_000_000,
        0 <= r.3 <= 500_000_000,
{
    let (claude, step): (i32, i32) = column_grid(prefs, canvas);
    proof {
        lemma_family_x(*prefs, QuotaFamilyId::Claude, canvas, step as int);
        lemma_family_x(*prefs, QuotaFamilyId::Codex, canvas, step as int);
        lemma_family_x(*prefs, QuotaFamilyId::Antigravity, canvas, step as int);
        lemma_family_x(*prefs, QuotaFamilyId::GithubCopilot, canvas, step as int);
    }
    let codex: i32 = if prefs.show_claude_code {
        claude + step
    } else {
        claude
    };
    let antigravity: i32 = if prefs.show_codex {
        codex + step
    } else {
        codex
    };
    let copilot: i32 = if prefs.show_antigravity {
        antigravity + step
    } else {
        antigravity
    };
    (claude, codex, antigravity, copilot)
}

/// A provider's column position, or zero for a provider that is not shown.
pub open spec fn shown_x(
    is_shown: bool,
    prefs: Preferences,
    family: QuotaFamilyId,
    canvas: Canvas,
) -> int {
    if is_shown {
        family_x(prefs, family, canvas)
    } else {
        0
    }
}

/// Left edges of the columns that carry pace lines; zero for those not shown.
pub fn provider_column_x_positions(prefs: &Preferences, canvas: Canvas) -> (r: (i32, i32, i32))
    requires
        canvas.is_valid(),
    ensures
        r.0 == shown_x(prefs.show_claude_code, *prefs, QuotaFamilyId::Claude, canvas),
        r.1 == shown_x(prefs.show_codex, *prefs, QuotaFamilyId::Codex, canvas),
        r.2 == shown_x(prefs.show_antigravity, *prefs, QuotaFamilyId::Antigravity, canvas),
        0 <= r.0 <= 500_000_000,
        0 <= r.1 <= 500_000_000,
        0 <= r.2 <= 500_000_000,
{
    let xs: (i32, i32, i32, i32) = column_positions(prefs, canvas);
    (
        if prefs.show_claude_code {
            xs.0
        } else {
            0
        },
        if prefs.show_codex {
            xs.1
        } else {
            0
        },
        if prefs.show_antigravity {
            xs.2
        } else {
            0
        },
    )
}

fn draw_header_part(
    commands: &mut Vec<DrawCommand>,
    family: QuotaFamilyId,
    state: &AppState,
    y: i32,
    strings: Strings,
    widths: HeaderWidths,
    color: Color,
    canvas: Canvas,
)
    requires
        canvas.is_valid(),
        widths.is_valid(),
        -500_000_000 <= y <= 500_000_000,
    ensures
        drawn(final(commands)@) == drawn(old(commands)@) + header_part(
            family,
            state.prefs,
            state.shown@,
            y as int,
            strings,
            widths,
            color,
            canvas,
        ),
{
    reveal(header_part);
    let prefs: &Preferences = &state.prefs;
    let dpi: u32 = canvas.dpi;
    let families: i32 = prefs.active_family_count();
    let column: i32 = provider_column_width_for_client_at_dpi(canvas.width, families, dpi);
    proof {
        column_fits_client(canvas.width, families, dpi);
    }
    let xs: (i32, i32, i32, i32) = column_positions(prefs, canvas);
    let compact: bool = prefs.popup_layout == PopupLayout::Compact;
    match family {
        QuotaFamilyId::Claude => {
            if prefs.show_claude_code {
                draw_header_entry(
                    commands,
                    xs.0,
                    y,
                    column,
                    strings.claude_code_model,
                    &state.shown.claude.weekly_remaining_text,
                    !prefs.show_codex && !prefs.show_antigravity && !prefs.show_github_copilot,
                    compact,
                    widths.claude,
                    color,
                    dpi,
                );
                return;
            }
        },
        QuotaFamilyId::Codex => {
            if prefs.show_codex {
                let name: String = codex_header_text(
                    strings,
                    state.shown.codex_banked_reset_text.as_str(),
                );
                draw_header_entry(
                    commands,
                    xs.1,
                    y,
                    column,
                    name.as_str(),
                    &state.shown.codex.weekly_remaining_text,
                    !prefs.show_antigravity && !prefs.show_github_copilot,
                    compact,
                    widths.codex,
                    color,
                    dpi,
                );
                return;
            }
        },
        QuotaFamilyId::Antigravity => {
            if prefs.show_antigravity {
                draw_header_entry(
                    commands,
                    xs.2,
                    y,
                    column,
                    strings.antigravity_model,
                    &state.shown.antigravity.weekly_remaining_text,
                    !prefs.show_github_copilot,
                    compact,
                    widths.antigravity,
                    color,
                    dpi,
                );
                return;
            }
        },
        QuotaFamilyId::GithubCopilot => {
            if prefs.show_github_copilot {
                let widths: TextWidths = TextWidths { name: 0, remaining: 0 };
                draw_header_entry(
                    commands,
                    xs.3,
                    y,
                    column,
                    "GitHub Copilot",
                    &None,
                    true,
                    false,
                    widths,
                    color,
                    dpi,
                );
                return;
            }
        },
    }
    assert(drawn(commands@) =~= drawn(commands@) + Seq::<DrawView>::empty());
}

/// Draws the header.
pub fn draw_provider_header_row(
    commands: &mut Vec<DrawCommand>,
    state: &AppState,
    y: i32,
    strings: Strings,
    widths: HeaderWidths,
    color: Color,
    canvas: Canvas,
)
    requires
        canvas.is_valid(),
        widths.is_valid(),
        -500_000_000 <= y <= 500_000_000,
    ensures
        drawn(final(commands)@) == drawn(old(commands)@) + header_drawn(
            state.prefs,
            state.shown@,
            y as int,
            strings,
            widths,
            color,
            canvas,
        ),
{
    let ghost before = drawn(commands@);
    draw_header_part(
        commands,
        QuotaFamilyId::Claude,
        state,
        y,
        strings,
        widths,
        color,
        canvas,
    );
    draw_header_part(commands, QuotaFamilyId::Codex, state, y, strings, widths, color, canvas);
    draw_header_part(
        commands,
        QuotaFamilyId::Antigravity,
        state,
        y,
        strings,
        widths,
        color,
        canvas,
    );
    draw_header_part(
        commands,
        QuotaFamilyId::GithubCopilot,
        state,
        y,
        strings,
        widths,
        color,
        canvas,
    );
    assert(drawn(commands@) =~= before + header_drawn(
        state.prefs,
        state.shown@,
        y as int,
        strings,
        widths,
        color,
        canvas,
    ));
}

// ---- rows -----------------------------------------------------------------------------------

/// What a cell of a row holds.
#[derive(Clone, Copy, Debug)]
pub struct CellContent<'a> {
    pub percent: Option<Quantity>,
    pub text: &'a str,
    pub is_warning: bool,
}

/// What a cell of a row holds, as a value.
pub struct ContentView {
    pub percent: Option<Quantity>,
    pub text: Seq<char>,
    pub is_warning: bool,
}

impl<'a> View for CellContent<'a> {
    type V = ContentView;

    open spec fn view(&self) -> ContentView {
        ContentView { percent: self.percent, text: self.text@, is_warning: self.is_warning }
    }
}

/// A cell with nothing in it.
pub open spec fn blank_content() -> ContentView {
    ContentView { percent: None, text: Seq::empty(), is_warning: false }
}

fn blank_cell() -> (r: CellContent<'static>)
    ensures
        r@ == blank_content(),
{
    proof {
        reveal_strlit("");
        assert(""@ =~= Seq::<char>::empty());
    }
    CellContent { percent: None, text: "", is_warning: false }
}

/// The weekly cell: its text is the pace line where there is one.
pub open spec fn weekly_content(window: WindowView) -> ContentView {
    ContentView {
        percent: window.percent,
        text: match window.pace {
            Some(lines) => lines.primary,
            None => window.text,
        },
        is_warning: false,
    }
}

fn weekly_cell<'a>(window: &'a ShownWindow) -> (r: CellContent<'a>)
    ensures
        r@ == weekly_content(window@),
{
    let text: &'a str = match &window.pace {
        Some(lines) => lines.primary.as_str(),
        None => window.text.as_str(),
    };
    CellContent { percent: window.percent, text, is_warning: false }
}

/// The cell of the short window.
pub open spec fn session_content(
    state: CellState,
    window: WindowView,
    visibility: ShortWindowVisibility,
) -> ContentView {
    let cell = session_cell(state, window.percent, window.text, window.pace, visibility);
    ContentView { percent: cell.percent, text: cell.text, is_warning: cell.is_warning }
}

fn session_cell_of<'a>(
    state: CellState,
    window: &'a ShownWindow,
    visibility: ShortWindowVisibility,
) -> (r: CellContent<'a>)
    ensures
        r@ == session_content(state, window@, visibility),
{
    let decision: (bool, Option<Quantity>, &'a str, bool) = session_cell_decision(
        state,
        window.percent,
        window.text.as_str(),
        window.pace.as_ref(),
        visibility,
    );
    CellContent { percent: decision.1, text: decision.2, is_warning: decision.3 }
}

/// A provider's cell, in its colors.
pub open spec fn provider_cell(
    family: QuotaFamilyId,
    dark: bool,
    content: ContentView,
) -> RowCellView {
    RowCellView {
        percent: content.percent,
        text: content.text,
        accent: accent_color(family),
        provider_text_color: usage_text_color(family, dark),
        is_warning: content.is_warning,
    }
}

/// One cell, or none for a provider that is not shown.
pub open spec fn cell_if(
    shown: bool,
    family: QuotaFamilyId,
    dark: bool,
    content: ContentView,
) -> Seq<RowCellView> {
    if shown {
        seq![provider_cell(family, dark, content)]
    } else {
        Seq::empty()
    }
}

/// The cells of a row: one per shown provider, in the order of the columns.
pub open spec fn cells_for(
    prefs: Preferences,
    claude: ContentView,
    codex: ContentView,
    antigravity: ContentView,
    copilot: ContentView,
) -> Seq<RowCellView> {
    let dark = !(prefs.app_theme is Light);
    cell_if(prefs.show_claude_code, QuotaFamilyId::Claude, dark, claude) + cell_if(
        prefs.show_codex,
        QuotaFamilyId::Codex,
        dark,
        codex,
    ) + cell_if(prefs.show_antigravity, QuotaFamilyId::Antigravity, dark, antigravity) + cell_if(
        prefs.show_github_copilot,
        QuotaFamilyId::GithubCopilot,
        dark,
        copilot,
    )
}

fn push_cell<'a>(
    cells: &mut Vec<RowCell<'a>>,
    shown: bool,
    family: QuotaFamilyId,
    dark: bool,
    content: CellContent<'a>,
)
    ensures
        cells_view(final(cells)@) == cells_view(old(cells)@) + cell_if(
            shown,
            family,
            dark,
            content@,
        ),
        final(cells).len() <= old(cells).len() + 1,
{
    if shown {
        cells.push(
            RowCell {
                percent: content.percent,
                text: content.text,
                accent: accent_color(family),
                provider_text_color: usage_text_color(family, dark),
                is_warning: content.is_warning,
            },
        );
    }
    assert(cells_view(cells@) =~= cells_view(old(cells)@) + cell_if(
        shown,
        family,
        dark,
        content@,
    ));
}

fn build_cells<'a>(
    prefs: &Preferences,
    claude: CellContent<'a>,
    codex: CellContent<'a>,
    antigravity: CellContent<'a>,
    copilot: CellContent<'a>,
) -> (r: Vec<RowCell<'a>>)
    ensures
        cells_view(r@) == cells_for(*prefs, claude@, codex@, antigravity@, copilot@),
        r.len() <= 4,
{
    let dark: bool = theme_is_dark_variant(prefs.app_theme);
    let mut cells: Vec<RowCell<'a>> = Vec::new();
    assert(cells_view(cells@) =~= Seq::empty());
    push_cell(&mut cells, prefs.show_claude_code, QuotaFamilyId::Claude, dark, claude);
    push_cell(&mut cells, prefs.show_codex, QuotaFamilyId::Codex, dark, codex);
    push_cell(&mut cells, prefs.show_antigravity, QuotaFamilyId::Antigravity, dark, antigravity);
    push_cell(&mut cells, prefs.show_github_copilot, QuotaFamilyId::GithubCopilot, dark, copilot);
    assert(cells_view(cells@) =~= cells_for(*prefs, claude@, codex@, antigravity@, copilot@));
    cells
}

/// Colors of the rows.
pub open spec fn row_style(prefs: Preferences) -> RowStyle {
    let palette = popup_palette(prefs.app_theme);
    RowStyle {
        text: palette.primary_text,
        track: palette.track,
        warning: palette.warning,
        outline: if prefs.app_theme is HighVisibility {
            Some(palette.border)
        } else {
            None
        },
    }
}

fn style_of_rows(prefs: &Preferences) -> (r: RowStyle)
    ensures
        r == row_style(*prefs),
{
    let palette: PopupPalette = popup_palette(prefs.app_theme);
    RowStyle {
        text: palette.primary_text,
        track: palette.track,
        warning: palette.warning,
        outline: if theme_outlines_usage_track(prefs.app_theme) {
            Some(palette.border)
        } else {
            None
        },
    }
}

/// The weekly row.
pub open spec fn weekly_row_drawn(
    prefs: Preferences,
    shown: UsageView,
    y: int,
    strings: Strings,
    canvas: Canvas,
) -> Seq<DrawView> {
    row_drawn(
        canvas.width,
        content_x(canvas.dpi as int),
        y,
        strings.weekly_window@,
        cells_for(
            prefs,
            weekly_content(shown.claude.weekly),
            weekly_content(shown.codex.weekly),
            weekly_content(shown.antigravity.weekly),
            blank_content(),
        ),
        row_style(prefs),
        canvas.dpi,
    )
}

fn draw_weekly_row(
    commands: &mut Vec<DrawCommand>,
    state: &AppState,
    y: i32,
    strings: Strings,
    canvas: Canvas,
)
    requires
        canvas.is_valid(),
        -400_000_000 <= y <= 400_000_000,
    ensures
        drawn(final(commands)@) == drawn(old(commands)@) + weekly_row_drawn(
            state.prefs,
            state.shown@,
            y as int,
            strings,
            canvas,
        ),
{
    broadcast use scaled_design_length_bounds;

    let cells: Vec<RowCell> = build_cells(
        &state.prefs,
        weekly_cell(&state.shown.claude.weekly),
        weekly_cell(&state.shown.codex.weekly),
        weekly_cell(&state.shown.antigravity.weekly),
        blank_cell(),
    );
    let x: i32 = sc(LEFT_DIVIDER_W, canvas.dpi) + sc(DIVIDER_RIGHT_MARGIN, canvas.dpi);
    let style: RowStyle = style_of_rows(&state.prefs);
    draw_row(commands, canvas.width, x, y, strings.weekly_window, &cells, style, canvas.dpi);
}

/// The row of the short window.
pub open spec fn session_row_drawn(
    s: AppState,
    y: int,
    strings: Strings,
    canvas: Canvas,
) -> Seq<DrawView> {
    let visibility = s.prefs.short_window_visibility;
    row_drawn(
        canvas.width,
        content_x(canvas.dpi as int),
        y,
        strings.session_window@,
        cells_for(
            s.prefs,
            session_content(s.states.claude.session, s.shown@.claude.session, visibility),
            session_content(s.states.codex.session, s.shown@.codex.session, visibility),
            session_content(s.states.antigravity.session, s.shown@.antigravity.session, visibility),
            blank_content(),
        ),
        row_style(s.prefs),
        canvas.dpi,
    )
}

fn draw_session_row(
    commands: &mut Vec<DrawCommand>,
    state: &AppState,
    y: i32,
    strings: Strings,
    canvas: Canvas,
)
    requires
        canvas.is_valid(),
        -400_000_000 <= y <= 400_000_000,
    ensures
        drawn(final(commands)@) == drawn(old(commands)@) + session_row_drawn(
            *state,
            y as int,
            strings,
            canvas,
        ),
{
    broadcast use scaled_design_length_bounds;

    let visibility: ShortWindowVisibility = state.prefs.short_window_visibility;
    let cells: Vec<RowCell> = build_cells(
        &state.prefs,
        session_cell_of(state.states.claude.session, &state.shown.claude.session, visibility),
        session_cell_of(state.states.codex.session, &state.shown.codex.session, visibility),
        session_cell_of(
            state.states.antigravity.session,
            &state.shown.antigravity.session,
            visibility,
        ),
        blank_cell(),
    );
    let x: i32 = sc(LEFT_DIVIDER_W, canvas.dpi) + sc(DIVIDER_RIGHT_MARGIN, canvas.dpi);
    let style: RowStyle = style_of_rows(&state.prefs);
    draw_row(commands, canvas.width, x, y, strings.session_window, &cells, style, canvas.dpi);
}

/// The monthly row, in which only Copilot has a cell with something in it.
pub open spec fn monthly_row_drawn(
    prefs: Preferences,
    shown: UsageView,
    canvas: Canvas,
) -> Seq<DrawView> {
    let dpi = canvas.dpi as int;
    if prefs.show_github_copilot {
        row_drawn(
            canvas.width,
            content_x(dpi),
            canvas.height - scaled(5, dpi) - scaled(13, dpi),
            "Month"@,
            cells_for(
                prefs,
                blank_content(),
                blank_content(),
                blank_content(),
                ContentView {
                    percent: shown.github_copilot.bar_percent,
                    text: shown.github_copilot.text,
                    is_warning: false,
                },
            ),
            row_style(prefs),
            canvas.dpi,
        )
    } else {
        Seq::empty()
    }
}

fn draw_monthly_row(commands: &mut Vec<DrawCommand>, state: &AppState, canvas: Canvas)
    requires
        canvas.is_valid(),
    ensures
        drawn(final(commands)@) == drawn(old(commands)@) + monthly_row_drawn(
            state.prefs,
            state.shown@,
            canvas,
        ),
{
    broadcast use scaled_design_length_bounds;

    let dpi: u32 = canvas.dpi;
    if state.prefs.show_github_copilot {
        let copilot: CellContent = CellContent {
            percent: state.shown.github_copilot.bar_percent,
            text: state.shown.github_copilot.text.as_str(),
            is_warning: false,
        };
        let cells: Vec<RowCell> = build_cells(
            &state.prefs,
            blank_cell(),
            blank_cell(),
            blank_cell(),
            copilot,
        );
        let x: i32 = sc(LEFT_DIVIDER_W, dpi) + sc(DIVIDER_RIGHT_MARGIN, dpi);
        let y: i32 = canvas.height - sc(5, dpi) - sc(SEGMENT_H, dpi);
        let style: RowStyle = style_of_rows(&state.prefs);
        draw_row(commands, canvas.width, x, y, "Month", &cells, style, dpi);
    } else {
        assert(drawn(commands@) =~= drawn(commands@) + Seq::<DrawView>::empty());
    }
}

// ---- pace lines -----------------------------------------------------------------------------

/// One line of pace text.
pub open spec fn pace_line(
    x: int,
    y: int,
    width: int,
    text: Seq<char>,
    color: Color,
    dpi: int,
) -> DrawView {
    DrawView::Text {
        text,
        rect: rect_at(x, y, width, scaled(14, dpi)),
        color,
        align: TextAlign::LeftEllipsis,
    }
}

/// A provider's secondary and detail lines, one under the other.
pub open spec fn extra_lines_drawn(
    x: int,
    y: int,
    width: int,
    pace: Option<PaceView>,
    color: Color,
    dpi: int,
) -> Seq<DrawView> {
    match pace {
        Some(lines) => (match lines.secondary {
            Some(text) => seq![pace_line(x, y, width, text, color, dpi)],
            None => Seq::empty(),
        }) + (match lines.detail {
            Some(text) => seq![
                pace_line(
                    x,
                    if lines.secondary is Some {
                        y + scaled(14, dpi)
                    } else {
                        y
                    },
                    width,
                    text,
                    color,
                    dpi,
                ),
            ],
            None => Seq::empty(),
        }),
        None => Seq::empty(),
    }
}

/// Draws a provider's secondary and detail lines; nothing without pace guidance.
pub fn draw_weekly_pace_extra_lines(
    commands: &mut Vec<DrawCommand>,
    x: i32,
    y: i32,
    width: i32,
    pace: Option<&PaceGuidanceLines>,
    color: Color,
    dpi: u32,
)
    requires
        -500_000_000 <= x <= 500_000_000,
        -500_000_000 <= y <= 500_000_000,
        0 <= width <= MAX_EXTENT,
        dpi <= MAX_DPI,
    ensures
        drawn(final(commands)@) == drawn(old(commands)@) + extra_lines_drawn(
            x as int,
            y as int,
            width as int,
            pace_ref_view(pace),
            color,
            dpi as int,
        ),
{
    broadcast use scaled_design_length_bounds;

    if let Some(lines) = pace {
        let line_height: i32 = sc(PACE_LINE_H, dpi);
        let mut line_y: i32 = y;
        if let Some(text) = &lines.secondary {
            let rect: Rect = rect_with_size(x, line_y, width, line_height);
            put_text(commands, text.as_str(), rect, color, TextAlign::LeftEllipsis);
            line_y += line_height;
        }
        if let Some(text) = &lines.detail {
            let rect: Rect = rect_with_size(x, line_y, width, line_height);
            put_text(commands, text.as_str(), rect, color, TextAlign::LeftEllipsis);
        }
    }
    assert(drawn(commands@) =~= drawn(old(commands)@) + extra_lines_drawn(
        x as int,
        y as int,
        width as int,
        pace_ref_view(pace),
        color,
        dpi as int,
    ));
}

/// A shown provider's extra lines in its column.
pub open spec fn extra_part(
    is_shown: bool,
    family: QuotaFamilyId,
    pace: Option<PaceView>,
    prefs: Preferences,
    y: int,
    canvas: Canvas,
) -> Seq<DrawView> {
    if is_shown {
        extra_lines_drawn(
            family_x(prefs, family, canvas),
            y,
            column_width(canvas.width, families_of(prefs), canvas.dpi),
            pace,
            popup_palette(prefs.app_theme).secondary_text,
            canvas.dpi as int,
        )
    } else {
        Seq::empty()
    }
}

/// The extra lines of all shown providers under the weekly row.
pub open spec fn extras_drawn(
    prefs: Preferences,
    shown: UsageView,
    y: int,
    canvas: Canvas,
) -> Seq<DrawView> {
    extra_part(
        prefs.show_claude_code,
        QuotaFamilyId::Claude,
        shown.claude.weekly.pace,
        prefs,
        y,
        canvas,
    ) + extra_part(
        prefs.show_codex,
        QuotaFamilyId::Codex,
        shown.codex.weekly.pace,
        prefs,
        y,
        canvas,
    ) + extra_part(
        prefs.show_antigravity,
        QuotaFamilyId::Antigravity,
        shown.antigravity.weekly.pace,
        prefs,
        y,
        canvas,
    )
}

fn draw_extra_part(
    commands: &mut Vec<DrawCommand>,
    is_shown: bool,
    pace: Option<&PaceGuidanceLines>,
    x: i32,
    column: i32,
    prefs: &Preferences,
    y: i32,
    canvas: Canvas,
    Ghost(family): Ghost<QuotaFamilyId>,
)
    requires
        canvas.is_valid(),
        -500_000_000 <= y <= 500_000_000,
        0 <= x <= 500_000_000,
        0 <= column <= MAX_EXTENT,
        x == shown_x(is_shown, *prefs, family, canvas),
        column == column_width(canvas.width, families_of(*prefs), canvas.dpi),
    ensures
        drawn(final(commands)@) == drawn(old(commands)@) + extra_part(
            is_shown,
            family,
            pace_ref_view(pace),
            *prefs,
            y as int,
            canvas,
        ),
{
    if is_shown {
        let color: Color = popup_palette(prefs.app_theme).secondary_text;
        draw_weekly_pace_extra_lines(commands, x, y, column, pace, color, canvas.dpi);
    } else {
        assert(drawn(commands@) =~= drawn(commands@) + Seq::<DrawView>::empty());
    }
}

fn draw_extras(commands: &mut Vec<DrawCommand>, state: &AppState, y: i32, canvas: Canvas)
    requires
        canvas.is_valid(),
        -500_000_000 <= y <= 500_000_000,
    ensures
        drawn(final(commands)@) == drawn(old(commands)@) + extras_drawn(
            state.prefs,
            state.shown@,
            y as int,
            canvas,
        ),
{
    let ghost before = drawn(commands@);
    let prefs: &Preferences = &state.prefs;
    let families: i32 = prefs.active_family_count();
    let column: i32 = provider_column_width_for_client_at_dpi(canvas.width, families, canvas.dpi);
    proof {
        column_fits_client(canvas.width, families, canvas.dpi);
    }
    let xs: (i32, i32, i32) = provider_column_x_positions(prefs, canvas);
    let ghost a = extra_part(
        prefs.show_claude_code,
        QuotaFamilyId::Claude,
        state.shown@.claude.weekly.pace,
        *prefs,
        y as int,
        canvas,
    );
    let ghost b = extra_part(
        prefs.show_codex,
        QuotaFamilyId::Codex,
        state.shown@.codex.weekly.pace,
        *prefs,
        y as int,
        canvas,
    );
    let ghost c = extra_part(
        prefs.show_antigravity,
        QuotaFamilyId::Antigravity,
        state.shown@.antigravity.weekly.pace,
        *prefs,
        y as int,
        canvas,
    );
    draw_extra_part(
        commands,
        prefs.show_claude_code,
        state.shown.claude.weekly.pace.as_ref(),
        xs.0,
        column,
        prefs,
        y,
        canvas,
        Ghost(QuotaFamilyId::Claude),
    );
    draw_extra_part(
        commands,
        prefs.show_codex,
        state.shown.codex.weekly.pace.as_ref(),
        xs.1,
        column,
        prefs,
        y,
        canvas,
        Ghost(QuotaFamilyId::Codex),
    );
    draw_extra_part(
        commands,
        prefs.show_antigravity,
        state.shown.antigravity.weekly.pace.as_ref(),
        xs.2,
        column,
        prefs,
        y,
        canvas,
        Ghost(QuotaFamilyId::Antigravity),
    );
    proof {
        appended_twice(before, a, b);
        appended_twice(before, a + b, c);
    }
}

// ---- frame ----------------------------------------------------------------------------------

/// The frame inside the edges of the canvas.
pub open spec fn frame_drawn(canvas: Canvas, color: Color) -> Seq<DrawView> {
    let thickness = outline_width(canvas.dpi as int);
    let width = canvas.width as int;
    let height = canvas.height as int;
    seq![
        DrawView::Fill { rect: rect_at(0, 0, width, thickness), color },
        DrawView::Fill { rect: rect_at(0, height - thickness, width, thickness), color },
        DrawView::Fill { rect: rect_at(0, 0, thickness, height), color },
        DrawView::Fill { rect: rect_at(width - thickness, 0, thickness, height), color },
    ]
}

fn draw_frame(commands: &mut Vec<DrawCommand>, canvas: Canvas, color: Color)
    requires
        canvas.is_valid(),
    ensures
        drawn(final(commands)@) == drawn(old(commands)@) + frame_drawn(canvas, color),
{
    broadcast use scaled_design_length_bounds;

    let thickness: i32 = outline_thickness(canvas.dpi);
    let top: Rect = rect_with_size(0, 0, canvas.width, thickness);
    put_fill(commands, top, color);
    let bottom: Rect = rect_with_size(0, canvas.height - thickness, canvas.width, thickness);
    put_fill(commands, bottom, color);
    let left: Rect = rect_with_size(0, 0, thickness, canvas.height);
    put_fill(commands, left, color);
    let right: Rect = rect_with_size(canvas.width - thickness, 0, thickness, canvas.height);
    put_fill(commands, right, color);
    assert(drawn(commands@) =~= drawn(old(commands)@) + frame_drawn(canvas, color));
}

/// Left edge of the divider before column `index`: in the gap between the columns.
pub open spec fn divider_x(prefs: Preferences, index: int, canvas: Canvas) -> int {
    let dpi = canvas.dpi as int;
    column_x(
        content_x(dpi),
        index,
        column_width(canvas.width, families_of(prefs), canvas.dpi),
        dpi,
    ) - scaled(3, dpi) + scaled(3, dpi) / 2
}

/// The dividers between the columns, where the theme has them.
pub open spec fn dividers_drawn(prefs: Preferences, canvas: Canvas) -> Seq<DrawView> {
    if prefs.app_theme is HighVisibility {
        Seq::new(
            (families_of(prefs) - 1) as nat,
            |i: int|
                DrawView::Fill {
                    rect: rect_at(
                        divider_x(prefs, i + 1, canvas),
                        0,
                        outline_width(canvas.dpi as int),
                        canvas.height as int,
                    ),
                    color: popup_palette(prefs.app_theme).border,
                },
        )
    } else {
        Seq::empty()
    }
}

fn draw_dividers(commands: &mut Vec<DrawCommand>, prefs: &Preferences, canvas: Canvas)
    requires
        canvas.is_valid(),
    ensures
        drawn(final(commands)@) == drawn(old(commands)@) + dividers_drawn(*prefs, canvas),
{
    broadcast use scaled_design_length_bounds;

    let ghost before = drawn(commands@);
    if theme_shows_column_dividers(prefs.app_theme) {
        let dpi: u32 = canvas.dpi;
        let families: i32 = prefs.active_family_count();
        let column: i32 = provider_column_width_for_client_at_dpi(canvas.width, families, dpi);
        proof {
            column_fits_client(canvas.width, families, dpi);
        }
        let gap: i32 = sc(MODEL_RIGHT_MARGIN, dpi);
        let step: i32 = column + gap;
        let first: i32 = sc(LEFT_DIVIDER_W, dpi) + sc(DIVIDER_RIGHT_MARGIN, dpi) + sc(
            LABEL_WIDTH,
            dpi,
        ) + sc(LABEL_RIGHT_MARGIN, dpi);
        let thickness: i32 = outline_thickness(dpi);
        let color: Color = popup_palette(prefs.app_theme).border;
        let mut index: i32 = 1;
        assert(before =~= before + dividers_drawn(*prefs, canvas).take(0));
        while index < families
            invariant
                canvas.is_valid(),
                prefs.app_theme is HighVisibility,
                dpi == canvas.dpi,
                1 <= index <= families <= 4,
                families == families_of(*prefs),
                column == column_width(canvas.width, families, dpi),
                0 <= column <= canvas.width,
                gap == scaled(3, dpi as int),
                0 <= gap <= 31_251,
                step == column + gap,
                first == content_x(dpi as int) + scaled(18, dpi as int) + scaled(10, dpi as int),
                0 <= first <= 500_000,
                thickness == outline_width(dpi as int),
                1 <= thickness <= 10_417,
                color == popup_palette(prefs.app_theme).border,
                drawn(commands@) == before + dividers_drawn(*prefs, canvas).take(index - 1),
            decreases families - index,
        {
            assert(0 <= index * step <= 4 * 100_031_251) by (nonlinear_arith)
                requires
                    0 <= index <= 4,
                    0 <= step <= 100_031_251,
            ;
            let x: i32 = first + index * step - gap + gap / 2;
            let rect: Rect = rect_with_size(x, 0, thickness, canvas.height);
            put_fill(commands, rect, color);
            index += 1;
            assert(drawn(commands@) =~= before + dividers_drawn(*prefs, canvas).take(index - 1));
        }
        assert(dividers_drawn(*prefs, canvas).take(families - 1) =~= dividers_drawn(
            *prefs,
            canvas,
        ));
    } else {
        assert(before =~= before + Seq::<DrawView>::empty());
    }
}

// ---- all of it --------------------------------------------------------------------------------

/// The part of the canvas above the monthly row: its height.
pub open spec fn rows_height(s: AppState, canvas: Canvas) -> int {
    height_above_monthly_row(
        canvas.height as int,
        rows_of(s.states, s.shown@, s.prefs),
        s.prefs.show_github_copilot,
        canvas.dpi,
    )
}

/// Top of the weekly row on the canvas.
pub open spec fn weekly_top(s: AppState, canvas: Canvas) -> int {
    weekly_row_top(rows_height(s, canvas), rows_of(s.states, s.shown@, s.prefs), canvas.dpi)
}

/// Everything below the header and above the monthly row: the weekly row, its extra
/// lines and the row of the short window, from the top down.
pub open spec fn rows_drawn(s: AppState, strings: Strings, canvas: Canvas) -> Seq<DrawView> {
    let dpi = canvas.dpi as int;
    let rows = rows_of(s.states, s.shown@, s.prefs);
    let top = weekly_top(s, canvas);
    weekly_row_drawn(s.prefs, s.shown@, top, strings, canvas) + (if rows.weekly_extra_lines >= 1 {
        extras_drawn(s.prefs, s.shown@, top + scaled(13, dpi), canvas)
    } else {
        Seq::empty()
    }) + (if rows.session_row {
        session_row_drawn(s, session_row_top(rows_height(s, canvas), canvas.dpi), strings, canvas)
    } else {
        Seq::empty()
    })
}

/// Everything that the popup draws, in order. The rows are those that its height was
/// computed for.
pub open spec fn content_drawn(
    s: AppState,
    strings: Strings,
    widths: HeaderWidths,
    canvas: Canvas,
) -> Seq<DrawView> {
    let dpi = canvas.dpi as int;
    let palette = popup_palette(s.prefs.app_theme);
    let header_y = weekly_top(s, canvas) - scaled(4, dpi) - scaled(14, dpi);
    background_drawn(canvas, palette) + header_drawn(
        s.prefs,
        s.shown@,
        header_y,
        strings,
        widths,
        palette.heading_text,
        canvas,
    ) + rows_drawn(s, strings, canvas) + monthly_row_drawn(s.prefs, s.shown@, canvas) + frame_drawn(
        canvas,
        palette.border,
    ) + dividers_drawn(s.prefs, canvas)
}

fn draw_rows(
    commands: &mut Vec<DrawCommand>,
    state: &AppState,
    layout: PaceRowLayout,
    strings: Strings,
    canvas: Canvas,
)
    requires
        canvas.is_valid(),
        is_row_layout(
            layout,
            rows_height(*state, canvas),
            rows_of(state.states, state.shown@, state.prefs),
            canvas.dpi,
        ),
        -200_000_000 <= layout.weekly_row_y <= 200_000_000,
        layout.session_row_y matches Some(y) ==> -200_000_000 <= y <= 200_000_000,
    ensures
        drawn(final(commands)@) == drawn(old(commands)@) + rows_drawn(*state, strings, canvas),
{
    broadcast use scaled_design_length_bounds;

    let ghost before = drawn(commands@);
    let ghost dpi = canvas.dpi as int;
    let ghost rows = rows_of(state.states, state.shown@, state.prefs);
    let ghost top = weekly_top(*state, canvas);
    let ghost weekly = weekly_row_drawn(state.prefs, state.shown@, top, strings, canvas);
    let ghost extras = if rows.weekly_extra_lines >= 1 {
        extras_drawn(state.prefs, state.shown@, top + scaled(13, dpi), canvas)
    } else {
        Seq::empty()
    };
    let ghost session = if rows.session_row {
        session_row_drawn(
            *state,
            session_row_top(rows_height(*state, canvas), canvas.dpi),
            strings,
            canvas,
        )
    } else {
        Seq::empty()
    };
    draw_weekly_row(commands, state, layout.weekly_row_y, strings, canvas);
    let ghost after_weekly = drawn(commands@);
    if let Some(y) = layout.weekly_secondary_y {
        draw_extras(commands, state, y, canvas);
    }
    assert(drawn(commands@) == after_weekly + extras) by {
        assert(after_weekly + Seq::<DrawView>::empty() =~= after_weekly);
    }
    let ghost after_extras = drawn(commands@);
    if let Some(y) = layout.session_row_y {
        draw_session_row(commands, state, y, strings, canvas);
    }
    assert(drawn(commands@) == after_extras + session) by {
        assert(after_extras + Seq::<DrawView>::empty() =~= after_extras);
    }
    proof {
        appended_twice(before, weekly, extras);
        appended_twice(before, weekly + extras, session);
    }
}

/// Draws the popup. `widths` holds the widths of the header's texts in the font that it
/// is drawn with.
pub fn paint_content(
    state: &AppState,
    strings: Strings,
    widths: HeaderWidths,
    canvas: Canvas,
) -> (r: Vec<DrawCommand>)
    requires
        canvas.is_valid(),
        widths.is_valid(),
    ensures
        drawn(r@) == content_drawn(*state, strings, widths, canvas),
{
    broadcast use scaled_design_length_bounds;

    let dpi: u32 = canvas.dpi;
    let palette: PopupPalette = popup_palette(state.prefs.app_theme);
    let rows: VisibleRows = visible_rows_for_state(state);
    let height: i32 = without_monthly_row(
        canvas.height,
        rows,
        state.prefs.show_github_copilot,
        dpi,
    );
    let layout: PaceRowLayout = pace_row_layout(height, rows, dpi);
    let mut commands: Vec<DrawCommand> = Vec::new();
    let ghost empty = drawn(commands@);
    draw_background(&mut commands, canvas, palette);
    let ghost background = background_drawn(canvas, palette);
    assert(drawn(commands@) =~= background);
    draw_provider_header_row(
        &mut commands,
        state,
        layout.provider_header_y,
        strings,
        widths,
        palette.heading_text,
        canvas,
    );
    draw_rows(&mut commands, state, layout, strings, canvas);
    draw_monthly_row(&mut commands, state, canvas);
    draw_frame(&mut commands, canvas, palette.border);
    draw_dividers(&mut commands, &state.prefs, canvas);
    commands
}

// ---- presenting -------------------------------------------------------------------------------

/// How a state is brought to the screen.
#[derive(Clone, Copy, Debug, PartialEq, Eq, Structural)]
pub enum RenderPlan {
    /// There is no state to show.
    Nothing,
    /// The window is asked to paint itself.
    Invalidate,
    /// A layered window is drawn in this size.
    Layered { width: i32, height: i32 },
}

/// The size of a layered window: the width of its client area, or the default width
/// where that is not known or empty, and the height of its content.
pub open spec fn plan_of(state: Option<AppState>, client: Option<Rect>, dpi: u32) -> RenderPlan {
    match state {
        None => RenderPlan::Nothing,
        Some(s) => if !s.embedded {
            RenderPlan::Invalidate
        } else {
            RenderPlan::Layered {
                width: match client {
                    Some(rect) => if rect.right > rect.left {
                        (rect.right - rect.left) as i32
                    } else {
                        default_width(s, dpi)
                    },
                    None => default_width(s, dpi),
                },
                height: crate::rows::height_device(
                    rows_of(s.states, s.shown@, s.prefs),
                    s.prefs.show_github_copilot,
                    dpi,
                ) as i32,
            }
        },
    }
}

/// The width of a window that was never resized.
pub open spec fn default_width(s: AppState, dpi: u32) -> i32 {
    scaled(
        crate::geometry::widget_width_logical(
            families_of(s.prefs) as int,
            crate::geometry::TEXT_WIDTH as int,
        ),
        dpi as int,
    ) as i32
}

/// Decides how a state is brought to the screen.
pub fn render_plan(state: &Option<AppState>, client: Option<Rect>, dpi: u32) -> (r: RenderPlan)
    requires
        client matches Some(rect) ==> rect.right - rect.left <= i32::MAX,
    ensures
        r == plan_of(*state, client, dpi),
{
    match state {
        None => RenderPlan::Nothing,
        Some(s) => {
            if !s.embedded {
                return RenderPlan::Invalidate;
            }
            let height: i32 = widget_height_for_state(s, dpi);
            let width: i32 = match client {
                Some(rect) => if rect.right > rect.left {
                    rect.right - rect.left
                } else {
                    total_widget_width_for_state(s, dpi)
                },
                None => total_widget_width_for_state(s, dpi),
            };
            RenderPlan::Layered { width, height }
        },
    }
}

/// A pixel of the layered window: one of the background's color is nearly invisible but
/// can still be clicked, every other one is opaque in its color.
pub open spec fn pixel_of(px: u32, background: Color) -> u32 {
    let rgb = px % 0x100_0000;
    if rgb == pixel_number(background) {
        0x0100_0000u32
    } else {
        (rgb + 0xFF00_0000) as u32
    }
}

fn layered_pixel(px: u32, background: u32) -> (r: u32)
    requires
        background < 0x100_0000,
    ensures
        r == if px % 0x100_0000 == background {
            0x0100_0000u32
        } else {
            ((px % 0x100_0000) + 0xFF00_0000) as u32
        },
{
    let rgb: u32 = px % 0x100_0000;
    if rgb == background {
        0x0100_0000
    } else {
        rgb + 0xFF00_0000
    }
}

/// Gives the drawn pixels their opacity.
pub fn layered_pixels(pixels: &mut Vec<u32>, background: Color)
    ensures
        final(pixels)@ == Seq::new(
            old(pixels)@.len(),
            |i: int| pixel_of(old(pixels)@[i], background),
        ),
{
    let ghost before = pixels@;
    let number: u32 = background.to_pixel();
    let mut i: usize = 0;
    while i < pixels.len()
        invariant
            i <= pixels.len(),
            pixels@.len() == before.len(),
            number == pixel_number(background),
            number < 0x100_0000,
            forall|k: int| 0 <= k < i ==> pixels@[k] == pixel_of(before[k], background),
            forall|k: int| i <= k < before.len() ==> pixels@[k] == before[k],
        decreases pixels.len() - i,
    {
        let px: u32 = pixels[i];
        pixels.set(i, layered_pixel(px, number));
        i += 1;
    }
    assert(pixels@ =~= Seq::new(before.len(), |i: int| pixel_of(before[i], background)));
}

// ---- laws -----------------------------------------------------------------------------

/// No pixel of the layered window lets a click through.
pub proof fn every_pixel_can_be_clicked(px: u32, background: Color)
    ensures
        pixel_of(px, background) >= 0x0100_0000,
{
}

/// Whatever alpha a pixel of the background's color has, it becomes nearly invisible.
pub proof fn background_is_nearly_invisible(alpha: int, background: Color)
    requires
        0 <= alpha < 0x100,
    ensures
        pixel_of((alpha * 0x100_0000 + pixel_number(background)) as u32, background)
            == 0x0100_0000,
{
}

/// What is drawn in another color than the background's keeps it and is opaque.
pub proof fn content_keeps_its_color(px: u32, background: Color)
    requires
        px % 0x100_0000 != pixel_number(background),
    ensures
        pixel_of(px, background) % 0x100_0000 == px % 0x100_0000,
        pixel_of(px, background) >= 0xFF00_0000,
{
}

/// A remaining time that is drawn in the header keeps clear of the next provider: it
/// ends the boundary gap before its column does, except in the last shown column, and so
/// at least that gap before every provider that is shown to its right. It leaves room
/// for the name before it.
pub proof fn remaining_time_stays_in_its_column(
    family: QuotaFamilyId,
    later: QuotaFamilyId,
    prefs: Preferences,
    shown: UsageView,
    y: int,
    strings: Strings,
    widths: HeaderWidths,
    color: Color,
    canvas: Canvas,
)
    requires
        canvas.is_valid(),
        widths.is_valid(),
        header_part(family, prefs, shown, y, strings, widths, color, canvas).len() > 1,
    ensures
        (match header_part(family, prefs, shown, y, strings, widths, color, canvas)[1] {
            DrawView::Text { rect, .. } => {
                let dpi = canvas.dpi as int;
                let x = family_x(prefs, family, canvas);
                let column = column_width(canvas.width, families_of(prefs), canvas.dpi);
                let measured = match family {
                    QuotaFamilyId::Claude => widths.claude,
                    QuotaFamilyId::Codex => widths.codex,
                    _ => widths.antigravity,
                };
                &&& rect.right == x + column - if is_last_column(prefs, family) {
                    0
                } else {
                    scaled(8, dpi)
                }
                &&& is_family_shown(prefs, later) && family_rank(family) < family_rank(later)
                    ==> rect.right + scaled(8, dpi) <= family_x(prefs, later, canvas)
                &&& x + measured.name + scaled(8, dpi) <= rect.right - measured.remaining
            },
            _ => false,
        }),
{
    broadcast use scaled_design_length_bounds;

    reveal(header_part);
    let dpi = canvas.dpi as int;
    let column = column_width(canvas.width, families_of(prefs), canvas.dpi);
    let step = column + scaled(3, dpi);
    column_fits_client(canvas.width, families_of(prefs), canvas.dpi);
    lemma_family_x(prefs, family, canvas, step);
    lemma_family_x(prefs, later, canvas, step);
}

/// The compact layout draws neither extra lines nor the row of the short window.
pub proof fn compact_draws_only_the_weekly_row(s: AppState, strings: Strings, canvas: Canvas)
    requires
        s.prefs.popup_layout is Compact,
    ensures
        rows_drawn(s, strings, canvas) == weekly_row_drawn(
            s.prefs,
            s.shown@,
            weekly_top(s, canvas),
            strings,
            canvas,
        ),
{
    assert(rows_drawn(s, strings, canvas) =~= weekly_row_drawn(
        s.prefs,
        s.shown@,
        weekly_top(s, canvas),
        strings,
        canvas,
    ));
}

/// The divider before a column stands in the gap between that column and the one
/// before it. It lies over neither, at every DPI that leaves a gap between them.
pub proof fn dividers_stand_between_columns(prefs: Preferences, index: int, canvas: Canvas)
    requires
        canvas.is_valid(),
        1 <= index,
    ensures
        ({
            let dpi = canvas.dpi as int;
            let column = column_width(canvas.width, families_of(prefs), canvas.dpi);
            let x = divider_x(prefs, index, canvas);
            &&& column_x(content_x(dpi), index - 1, column, dpi) + column <= x
            &&& x <= column_x(content_x(dpi), index, column, dpi)
            &&& 16 <= dpi ==> x + outline_width(dpi) <= column_x(
                content_x(dpi),
                index,
                column,
                dpi,
            )
        }),
{
    broadcast use scaled_design_length_bounds;

    let dpi = canvas.dpi as int;
    assert(scaled(3, dpi) == (6 * dpi + 96) / 192);
    assert(scaled(1, dpi) == (2 * dpi + 96) / 192);
    let step = column_width(canvas.width, families_of(prefs), canvas.dpi) + scaled(3, dpi);
    assert(index * step == (index - 1) * step + step) by (nonlinear_arith);
}

// ---- whose cells, lines and names are drawn where ---------------------------------------------

/// The text of a shown provider, where there is one.
pub open spec fn written(prefs: Preferences, id: QuotaFamilyId, text: Seq<char>) -> Seq<Seq<char>> {
    if is_family_shown(prefs, id) && text.len() > 0 {
        seq![text]
    } else {
        Seq::empty()
    }
}

/// The color of a provider's value: with several columns the provider's own, and the
/// warning color for a warning.
pub open spec fn words_color(prefs: Preferences, id: QuotaFamilyId, is_warning: bool) -> Color {
    let palette = popup_palette(prefs.app_theme);
    if is_warning {
        palette.warning
    } else if families_of(prefs) > 1 {
        usage_text_color(id, !(prefs.app_theme is Light))
    } else {
        palette.primary_text
    }
}

/// A provider's value in a row that begins at `y`: beside the bar in the provider's own
/// column.
pub open spec fn value_text(
    prefs: Preferences,
    id: QuotaFamilyId,
    text: Seq<char>,
    is_warning: bool,
    y: int,
    canvas: Canvas,
) -> DrawView {
    DrawView::Text {
        text,
        rect: value_rect(
            family_x(prefs, id, canvas),
            y,
            column_width(canvas.width, families_of(prefs), canvas.dpi),
            families_of(prefs) as int,
            canvas.dpi,
        ),
        color: words_color(prefs, id, is_warning),
        align: TextAlign::LeftEllipsis,
    }
}

/// A provider's bar in a row that begins at `y`: at the left of the provider's own column,
/// in the provider's own color.
pub open spec fn value_bar(
    prefs: Preferences,
    id: QuotaFamilyId,
    percent: Quantity,
    is_warning: bool,
    y: int,
    canvas: Canvas,
) -> Seq<DrawView> {
    let n = row_bar_segment_count(families_of(prefs)) as int;
    segments_drawn(
        family_x(prefs, id, canvas),
        y,
        n as nat,
        n,
        percent,
        BarStyle {
            accent: accent_color(id),
            track: popup_palette(prefs.app_theme).track,
            text: words_color(prefs, id, is_warning),
            outline: row_style(prefs).outline,
        },
        canvas.dpi as int,
    )
}

proof fn lemma_first_cell_texts(before: Seq<RowCellView>, after: Seq<RowCellView>, k: nat)
    requires
        k <= before.len(),
    ensures
        cell_texts(before + after, k) == cell_texts(before, k),
    decreases k,
{
    if k > 0 {
        lemma_first_cell_texts(before, after, (k - 1) as nat);
        assert((before + after)[k - 1] == before[k - 1]);
    }
}

proof fn lemma_cell_adds_its_text(
    before: Seq<RowCellView>,
    prefs: Preferences,
    id: QuotaFamilyId,
    dark: bool,
    content: ContentView,
)
    ensures
        ({
            let cells = before + cell_if(is_family_shown(prefs, id), id, dark, content);
            cell_texts(cells, cells.len()) == cell_texts(before, before.len()) + written(
                prefs,
                id,
                content.text,
            )
        }),
{
    let added = cell_if(is_family_shown(prefs, id), id, dark, content);
    let cells = before + added;
    lemma_first_cell_texts(before, added, before.len());
    if is_family_shown(prefs, id) {
        assert(cells[before.len() as int] == added[0]);
        assert(cells.len() - 1 == before.len());
    } else {
        assert(cells =~= before);
    }
    assert(cell_texts(cells, cells.len()) =~= cell_texts(before, before.len()) + written(
        prefs,
        id,
        content.text,
    ));
}

proof fn lemma_cells_for(
    prefs: Preferences,
    claude: ContentView,
    codex: ContentView,
    antigravity: ContentView,
    copilot: ContentView,
)
    ensures
        ({
            let cells = cells_for(prefs, claude, codex, antigravity, copilot);
            cell_texts(cells, cells.len()) == written(prefs, QuotaFamilyId::Claude, claude.text)
                + written(prefs, QuotaFamilyId::Codex, codex.text) + written(
                prefs,
                QuotaFamilyId::Antigravity,
                antigravity.text,
            ) + written(prefs, QuotaFamilyId::GithubCopilot, copilot.text)
        }),
{
    let dark = !(prefs.app_theme is Light);
    let none = Seq::<RowCellView>::empty();
    let a = cell_if(prefs.show_claude_code, QuotaFamilyId::Claude, dark, claude);
    let b = a + cell_if(prefs.show_codex, QuotaFamilyId::Codex, dark, codex);
    let c = b + cell_if(prefs.show_antigravity, QuotaFamilyId::Antigravity, dark, antigravity);
    lemma_cell_adds_its_text(none, prefs, QuotaFamilyId::Claude, dark, claude);
    assert(none + a =~= a);
    assert(cell_texts(none, none.len()) + written(prefs, QuotaFamilyId::Claude, claude.text)
        =~= written(prefs, QuotaFamilyId::Claude, claude.text));
    lemma_cell_adds_its_text(a, prefs, QuotaFamilyId::Codex, dark, codex);
    lemma_cell_adds_its_text(b, prefs, QuotaFamilyId::Antigravity, dark, antigravity);
    lemma_cell_adds_its_text(c, prefs, QuotaFamilyId::GithubCopilot, dark, copilot);
}

proof fn lemma_cell_of(
    prefs: Preferences,
    claude: ContentView,
    codex: ContentView,
    antigravity: ContentView,
    copilot: ContentView,
    id: QuotaFamilyId,
)
    requires
        is_family_shown(prefs, id),
    ensures
        ({
            let cells = cells_for(prefs, claude, codex, antigravity, copilot);
            let i = column_index(prefs, id);
            &&& cells.len() == families_of(prefs)
            &&& 0 <= i < cells.len()
            &&& cells[i] == provider_cell(
                id,
                !(prefs.app_theme is Light),
                match id {
                    QuotaFamilyId::Claude => claude,
                    QuotaFamilyId::Codex => codex,
                    QuotaFamilyId::Antigravity => antigravity,
                    QuotaFamilyId::GithubCopilot => copilot,
                },
            )
        }),
{
}

proof fn lemma_row_shows_cell(
    prefs: Preferences,
    y: int,
    label: Seq<char>,
    cells: Seq<RowCellView>,
    canvas: Canvas,
    id: QuotaFamilyId,
    content: ContentView,
)
    requires
        cells.len() == families_of(prefs),
        0 <= column_index(prefs, id) < cells.len(),
        cells[column_index(prefs, id)] == provider_cell(
            id,
            !(prefs.app_theme is Light),
            content,
        ),
    ensures
        ({
            let row = row_drawn(
                canvas.width,
                content_x(canvas.dpi as int),
                y,
                label,
                cells,
                row_style(prefs),
                canvas.dpi,
            );
            &&& content.text.len() > 0 ==> row.contains(
                value_text(prefs, id, content.text, content.is_warning, y, canvas),
            )
            &&& content.percent matches Some(percent) ==> is_among(
                value_bar(prefs, id, percent, content.is_warning, y, canvas),
                row,
            )
        }),
{
    every_cell_is_drawn_in_its_column(
        canvas.width,
        content_x(canvas.dpi as int),
        y,
        label,
        cells,
        row_style(prefs),
        canvas.dpi,
        column_index(prefs, id),
    );
    reveal(family_x);
}

proof fn lemma_row_shows(
    prefs: Preferences,
    y: int,
    label: Seq<char>,
    claude: ContentView,
    codex: ContentView,
    antigravity: ContentView,
    copilot: ContentView,
    canvas: Canvas,
    id: QuotaFamilyId,
)
    requires
        is_family_shown(prefs, id),
    ensures
        ({
            let row = row_drawn(
                canvas.width,
                content_x(canvas.dpi as int),
                y,
                label,
                cells_for(prefs, claude, codex, antigravity, copilot),
                row_style(prefs),
                canvas.dpi,
            );
            let content = match id {
                QuotaFamilyId::Claude => claude,
                QuotaFamilyId::Codex => codex,
                QuotaFamilyId::Antigravity => antigravity,
                QuotaFamilyId::GithubCopilot => copilot,
            };
            &&& content.text.len() > 0 ==> row.contains(
                value_text(prefs, id, content.text, content.is_warning, y, canvas),
            )
            &&& content.percent matches Some(percent) ==> is_among(
                value_bar(prefs, id, percent, content.is_warning, y, canvas),
                row,
            )
        }),
{
    lemma_cell_of(prefs, claude, codex, antigravity, copilot, id);
    let content = match id {
        QuotaFamilyId::Claude => claude,
        QuotaFamilyId::Codex => codex,
        QuotaFamilyId::Antigravity => antigravity,
        QuotaFamilyId::GithubCopilot => copilot,
    };
    lemma_row_shows_cell(
        prefs,
        y,
        label,
        cells_for(prefs, claude, codex, antigravity, copilot),
        canvas,
        id,
        content,
    );
}

proof fn lemma_row_writes(
    prefs: Preferences,
    y: int,
    label: Seq<char>,
    claude: ContentView,
    codex: ContentView,
    antigravity: ContentView,
    copilot: ContentView,
    canvas: Canvas,
)
    ensures
        texts_of(
            row_drawn(
                canvas.width,
                content_x(canvas.dpi as int),
                y,
                label,
                cells_for(prefs, claude, codex, antigravity, copilot),
                row_style(prefs),
                canvas.dpi,
            ),
        ) == seq![label] + (written(prefs, QuotaFamilyId::Claude, claude.text) + written(
            prefs,
            QuotaFamilyId::Codex,
            codex.text,
        ) + written(prefs, QuotaFamilyId::Antigravity, antigravity.text) + written(
            prefs,
            QuotaFamilyId::GithubCopilot,
            copilot.text,
        )),
{
    let cells = cells_for(prefs, claude, codex, antigravity, copilot);
    row_writes_its_label_and_its_cells(
        canvas.width,
        content_x(canvas.dpi as int),
        y,
        label,
        cells,
        row_style(prefs),
        canvas.dpi,
    );
    lemma_cells_for(prefs, claude, codex, antigravity, copilot);
}

/// The weekly row of a shown provider says its first pace line in the provider's own
/// column; the plain text stands there only where there are no pace lines. Beside it is a
/// bar of the weekly value in the provider's color.
pub proof fn weekly_row_says_the_pace_of_each_shown_provider(
    prefs: Preferences,
    shown: UsageView,
    y: int,
    strings: Strings,
    canvas: Canvas,
    id: QuotaFamilyId,
)
    requires
        is_family_shown(prefs, id),
        !(id is GithubCopilot),
    ensures
        ({
            let row = weekly_row_drawn(prefs, shown, y, strings, canvas);
            let window = view_of(shown, id).weekly;
            &&& window.pace matches Some(lines) ==> (lines.primary.len() > 0 ==> row.contains(
                value_text(prefs, id, lines.primary, false, y, canvas),
            ))
            &&& window.pace is None && window.text.len() > 0 ==> row.contains(
                value_text(prefs, id, window.text, false, y, canvas),
            )
            &&& window.percent matches Some(percent) ==> is_among(
                value_bar(prefs, id, percent, false, y, canvas),
                row,
            )
        }),
{
    lemma_row_shows(
        prefs,
        y,
        strings.weekly_window@,
        weekly_content(shown.claude.weekly),
        weekly_content(shown.codex.weekly),
        weekly_content(shown.antigravity.weekly),
        blank_content(),
        canvas,
        id,
    );
}

/// What the weekly row says of a window.
pub open spec fn weekly_words(window: WindowView) -> Seq<char> {
    if window.pace is Some {
        window.pace->0.primary
    } else {
        window.text
    }
}

/// Besides its label, the weekly row writes one text for each shown provider with two
/// windows, in the order of the columns, and nothing else: the plain text of a window with
/// pace lines is not among them.
pub proof fn weekly_row_says_nothing_else(
    prefs: Preferences,
    shown: UsageView,
    y: int,
    strings: Strings,
    canvas: Canvas,
)
    ensures
        texts_of(weekly_row_drawn(prefs, shown, y, strings, canvas)) == seq![
            strings.weekly_window@,
        ] + (written(
            prefs,
            QuotaFamilyId::Claude,
            weekly_words(view_of(shown, QuotaFamilyId::Claude).weekly),
        ) + written(
            prefs,
            QuotaFamilyId::Codex,
            weekly_words(view_of(shown, QuotaFamilyId::Codex).weekly),
        ) + written(
            prefs,
            QuotaFamilyId::Antigravity,
            weekly_words(view_of(shown, QuotaFamilyId::Antigravity).weekly),
        )),
{
    lemma_row_writes(
        prefs,
        y,
        strings.weekly_window@,
        weekly_content(shown.claude.weekly),
        weekly_content(shown.codex.weekly),
        weekly_content(shown.antigravity.weekly),
        blank_content(),
        canvas,
    );
    let words = written(prefs, QuotaFamilyId::Claude, weekly_words(shown.claude.weekly)) + written(
        prefs,
        QuotaFamilyId::Codex,
        weekly_words(shown.codex.weekly),
    ) + written(prefs, QuotaFamilyId::Antigravity, weekly_words(shown.antigravity.weekly));
    assert(words + written(prefs, QuotaFamilyId::GithubCopilot, Seq::empty()) =~= words);
}

/// The row of the short window shows of a shown provider the cell that is decided from
/// that provider's own state and window, in the provider's column.
pub proof fn short_window_row_shows_each_providers_own_window(
    s: AppState,
    y: int,
    strings: Strings,
    canvas: Canvas,
    id: QuotaFamilyId,
)
    requires
        is_family_shown(s.prefs, id),
        !(id is GithubCopilot),
    ensures
        ({
            let row = session_row_drawn(s, y, strings, canvas);
            let window = view_of(s.shown@, id).session;
            let cell = session_cell(
                states_of(s.states, id).session,
                window.percent,
                window.text,
                window.pace,
                s.prefs.short_window_visibility,
            );
            &&& cell.text.len() > 0 ==> row.contains(
                value_text(s.prefs, id, cell.text, cell.is_warning, y, canvas),
            )
            &&& cell.percent matches Some(percent) ==> is_among(
                value_bar(s.prefs, id, percent, cell.is_warning, y, canvas),
                row,
            )
        }),
{
    let visibility = s.prefs.short_window_visibility;
    lemma_row_shows(
        s.prefs,
        y,
        strings.session_window@,
        session_content(s.states.claude.session, s.shown@.claude.session, visibility),
        session_content(s.states.codex.session, s.shown@.codex.session, visibility),
        session_content(s.states.antigravity.session, s.shown@.antigravity.session, visibility),
        blank_content(),
        canvas,
        id,
    );
}

/// What the row of the short window says of a provider.
pub open spec fn session_words(s: AppState, id: QuotaFamilyId) -> Seq<char> {
    let window = view_of(s.shown@, id).session;
    session_cell(
        states_of(s.states, id).session,
        window.percent,
        window.text,
        window.pace,
        s.prefs.short_window_visibility,
    ).text
}

/// Besides its label, the row of the short window writes the texts of the shown providers
/// with two windows, in the order of the columns, and nothing else.
pub proof fn short_window_row_says_nothing_else(
    s: AppState,
    y: int,
    strings: Strings,
    canvas: Canvas,
)
    ensures
        texts_of(session_row_drawn(s, y, strings, canvas)) == seq![strings.session_window@] + (
        written(s.prefs, QuotaFamilyId::Claude, session_words(s, QuotaFamilyId::Claude)) + written(
            s.prefs,
            QuotaFamilyId::Codex,
            session_words(s, QuotaFamilyId::Codex),
        ) + written(
            s.prefs,
            QuotaFamilyId::Antigravity,
            session_words(s, QuotaFamilyId::Antigravity),
        )),
{
    let visibility = s.prefs.short_window_visibility;
    lemma_row_writes(
        s.prefs,
        y,
        strings.session_window@,
        session_content(s.states.claude.session, s.shown@.claude.session, visibility),
        session_content(s.states.codex.session, s.shown@.codex.session, visibility),
        session_content(s.states.antigravity.session, s.shown@.antigravity.session, visibility),
        blank_content(),
        canvas,
    );
    let words = written(s.prefs, QuotaFamilyId::Claude, session_words(s, QuotaFamilyId::Claude))
        + written(s.prefs, QuotaFamilyId::Codex, session_words(s, QuotaFamilyId::Codex)) + written(
        s.prefs,
        QuotaFamilyId::Antigravity,
        session_words(s, QuotaFamilyId::Antigravity),
    );
    assert(words + written(s.prefs, QuotaFamilyId::GithubCopilot, Seq::empty()) =~= words);
}

/// The monthly row says Copilot's amount in Copilot's column, beside a bar of its share,
/// and nothing of any other provider; without Copilot there is no such row.
pub proof fn monthly_row_is_copilots(prefs: Preferences, shown: UsageView, canvas: Canvas)
    ensures
        ({
            let row = monthly_row_drawn(prefs, shown, canvas);
            let dpi = canvas.dpi as int;
            let y = canvas.height - scaled(5, dpi) - scaled(13, dpi);
            let id = QuotaFamilyId::GithubCopilot;
            if is_family_shown(prefs, id) {
                &&& texts_of(row) == seq!["Month"@] + written(prefs, id, shown.github_copilot.text)
                &&& shown.github_copilot.text.len() > 0 ==> row.contains(
                    value_text(prefs, id, shown.github_copilot.text, false, y, canvas),
                )
                &&& shown.github_copilot.bar_percent matches Some(percent) ==> is_among(
                    value_bar(prefs, id, percent, false, y, canvas),
                    row,
                )
            } else {
                row.len() == 0
            }
        }),
{
    let id = QuotaFamilyId::GithubCopilot;
    let dpi = canvas.dpi as int;
    let y = canvas.height - scaled(5, dpi) - scaled(13, dpi);
    let content = ContentView {
        percent: shown.github_copilot.bar_percent,
        text: shown.github_copilot.text,
        is_warning: false,
    };
    if is_family_shown(prefs, id) {
        lemma_row_shows(
            prefs,
            y,
            "Month"@,
            blank_content(),
            blank_content(),
            blank_content(),
            content,
            canvas,
            id,
        );
        lemma_row_writes(
            prefs,
            y,
            "Month"@,
            blank_content(),
            blank_content(),
            blank_content(),
            content,
            canvas,
        );
        let none = Seq::<char>::empty();
        assert(written(prefs, QuotaFamilyId::Claude, none) + written(
            prefs,
            QuotaFamilyId::Codex,
            none,
        ) + written(prefs, QuotaFamilyId::Antigravity, none) + written(prefs, id, content.text)
            =~= written(prefs, id, content.text));
    }
}

/// The name that the header has for a provider; Codex's tells the banked resets too.
pub open spec fn header_name(strings: Strings, shown: UsageView, id: QuotaFamilyId) -> Seq<char> {
    match id {
        QuotaFamilyId::Claude => strings.claude_code_model@,
        QuotaFamilyId::Codex => strings.codex_model@ + " · "@ + shown.codex_banked_reset_text,
        QuotaFamilyId::Antigravity => strings.antigravity_model@,
        QuotaFamilyId::GithubCopilot => "GitHub Copilot"@,
    }
}

/// The header names each shown provider over its own column, and no other provider. In the
/// standard layout it says nothing else.
pub proof fn header_names_the_shown_providers(
    prefs: Preferences,
    shown: UsageView,
    y: int,
    strings: Strings,
    widths: HeaderWidths,
    color: Color,
    canvas: Canvas,
)
    ensures
        ({
            let header = header_drawn(prefs, shown, y, strings, widths, color, canvas);
            let dpi = canvas.dpi as int;
            let column = column_width(canvas.width, families_of(prefs), canvas.dpi);
            let name = |id: QuotaFamilyId|
                if is_family_shown(prefs, id) {
                    seq![header_name(strings, shown, id)]
                } else {
                    Seq::empty()
                };
            &&& forall|id: QuotaFamilyId| #[trigger]
                is_family_shown(prefs, id) ==> header.contains(
                    DrawView::Text {
                        text: header_name(strings, shown, id),
                        rect: rect_at(family_x(prefs, id, canvas), y, column, scaled(14, dpi)),
                        color,
                        align: TextAlign::LeftEllipsis,
                    },
                )
            &&& prefs.popup_layout is Standard ==> texts_of(header) == name(QuotaFamilyId::Claude)
                + name(QuotaFamilyId::Codex) + name(QuotaFamilyId::Antigravity) + name(
                QuotaFamilyId::GithubCopilot,
            )
        }),
{
    let a = header_part(QuotaFamilyId::Claude, prefs, shown, y, strings, widths, color, canvas);
    let b = header_part(QuotaFamilyId::Codex, prefs, shown, y, strings, widths, color, canvas);
    let c = header_part(
        QuotaFamilyId::Antigravity,
        prefs,
        shown,
        y,
        strings,
        widths,
        color,
        canvas,
    );
    let d = header_part(
        QuotaFamilyId::GithubCopilot,
        prefs,
        shown,
        y,
        strings,
        widths,
        color,
        canvas,
    );
    let header = header_drawn(prefs, shown, y, strings, widths, color, canvas);
    let dpi = canvas.dpi as int;
    let column = column_width(canvas.width, families_of(prefs), canvas.dpi);
    lemma_parts_are_in_the_header(prefs, shown, y, strings, widths, color, canvas);
    assert forall|id: QuotaFamilyId| #[trigger] is_family_shown(prefs, id) implies header.contains(
        DrawView::Text {
            text: header_name(strings, shown, id),
            rect: rect_at(family_x(prefs, id, canvas), y, column, scaled(14, dpi)),
            color,
            align: TextAlign::LeftEllipsis,
        },
    ) by {
        let part = header_part(id, prefs, shown, y, strings, widths, color, canvas);
        reveal(header_part);
        assert(part.len() >= 1 && header.contains(part[0]));
    }
    if prefs.popup_layout is Standard {
        lemma_texts_joined(a + b + c, d);
        lemma_texts_joined(a + b, c);
        lemma_texts_joined(a, b);
        lemma_standard_part_is_the_name(
            QuotaFamilyId::Claude,
            prefs,
            shown,
            y,
            strings,
            widths,
            color,
            canvas,
        );
        lemma_standard_part_is_the_name(
            QuotaFamilyId::Codex,
            prefs,
            shown,
            y,
            strings,
            widths,
            color,
            canvas,
        );
        lemma_standard_part_is_the_name(
            QuotaFamilyId::Antigravity,
            prefs,
            shown,
            y,
            strings,
            widths,
            color,
            canvas,
        );
        lemma_standard_part_is_the_name(
            QuotaFamilyId::GithubCopilot,
            prefs,
            shown,
            y,
            strings,
            widths,
            color,
            canvas,
        );
    }
}

proof fn lemma_parts_are_in_the_header(
    prefs: Preferences,
    shown: UsageView,
    y: int,
    strings: Strings,
    widths: HeaderWidths,
    color: Color,
    canvas: Canvas,
)
    ensures
        forall|id: QuotaFamilyId|
            is_among(
                #[trigger] header_part(id, prefs, shown, y, strings, widths, color, canvas),
                header_drawn(prefs, shown, y, strings, widths, color, canvas),
            ),
{
    let a = header_part(QuotaFamilyId::Claude, prefs, shown, y, strings, widths, color, canvas);
    let b = header_part(QuotaFamilyId::Codex, prefs, shown, y, strings, widths, color, canvas);
    let c = header_part(
        QuotaFamilyId::Antigravity,
        prefs,
        shown,
        y,
        strings,
        widths,
        color,
        canvas,
    );
    let d = header_part(
        QuotaFamilyId::GithubCopilot,
        prefs,
        shown,
        y,
        strings,
        widths,
        color,
        canvas,
    );
    lemma_joined(a, b);
    lemma_joined(a + b, c);
    lemma_joined(a + b + c, d);
    lemma_among_more(a + b, a + b + c, a + b + c + d);
    lemma_among_more(a, a + b, a + b + c + d);
    lemma_among_more(b, a + b, a + b + c + d);
    lemma_among_more(c, a + b + c, a + b + c + d);
    assert forall|id: QuotaFamilyId|
        is_among(
            #[trigger] header_part(id, prefs, shown, y, strings, widths, color, canvas),
            header_drawn(prefs, shown, y, strings, widths, color, canvas),
        ) by {
        match id {
            QuotaFamilyId::Claude => {},
            QuotaFamilyId::Codex => {},
            QuotaFamilyId::Antigravity => {},
            QuotaFamilyId::GithubCopilot => {},
        }
    }
}

proof fn lemma_standard_part_is_the_name(
    id: QuotaFamilyId,
    prefs: Preferences,
    shown: UsageView,
    y: int,
    strings: Strings,
    widths: HeaderWidths,
    color: Color,
    canvas: Canvas,
)
    requires
        prefs.popup_layout is Standard,
    ensures
        texts_of(header_part(id, prefs, shown, y, strings, widths, color, canvas)) == (
        if is_family_shown(prefs, id) {
            seq![header_name(strings, shown, id)]
        } else {
            Seq::empty()
        }),
{
    reveal(header_part);
    let part = header_part(id, prefs, shown, y, strings, widths, color, canvas);
    if is_family_shown(prefs, id) {
        let rect = rect_at(
            family_x(prefs, id, canvas),
            y,
            column_width(canvas.width, families_of(prefs), canvas.dpi),
            scaled(14, canvas.dpi as int),
        );
        let name = header_name(strings, shown, id);
        lemma_one_text(name, rect, color, TextAlign::LeftEllipsis);
        assert(part =~= seq![
            DrawView::Text { text: name, rect, color, align: TextAlign::LeftEllipsis },
        ]);
    }
}

/// The measured widths of a provider's name and remaining time.
pub open spec fn widths_of(widths: HeaderWidths, id: QuotaFamilyId) -> TextWidths
    recommends
        !(id is GithubCopilot),
{
    match id {
        QuotaFamilyId::Claude => widths.claude,
        QuotaFamilyId::Codex => widths.codex,
        _ => widths.antigravity,
    }
}

/// In the compact layout the header tells the time that a shown provider's own weekly
/// window has left, at the right of the provider's column, wherever it fits beside the
/// name; a shown provider to the right leaves clear space before its column.
pub proof fn compact_header_tells_the_time_left(
    prefs: Preferences,
    shown: UsageView,
    y: int,
    strings: Strings,
    widths: HeaderWidths,
    color: Color,
    canvas: Canvas,
    id: QuotaFamilyId,
)
    requires
        prefs.popup_layout is Compact,
        is_family_shown(prefs, id),
        !(id is GithubCopilot),
    ensures
        ({
            let header = header_drawn(prefs, shown, y, strings, widths, color, canvas);
            let dpi = canvas.dpi as int;
            let column = column_width(canvas.width, families_of(prefs), canvas.dpi);
            let has_right_neighbor = exists|other: QuotaFamilyId| #[trigger]
                is_family_shown(prefs, other) && family_rank(other) > family_rank(id);
            let room = if has_right_neighbor {
                column - scaled(8, dpi)
            } else {
                column
            };
            let own = widths_of(widths, id);
            view_of(shown, id).weekly_remaining_text matches Some(text) ==> (text.len() > 0
                && own.name + scaled(8, dpi) + own.remaining <= room ==> header.contains(
                DrawView::Text {
                    text,
                    rect: rect_at(family_x(prefs, id, canvas), y, room, scaled(14, dpi)),
                    color,
                    align: TextAlign::Right,
                },
            ))
        }),
{
    lemma_parts_are_in_the_header(prefs, shown, y, strings, widths, color, canvas);
    let header = header_drawn(prefs, shown, y, strings, widths, color, canvas);
    let part = header_part(id, prefs, shown, y, strings, widths, color, canvas);
    let has_right_neighbor = exists|other: QuotaFamilyId| #[trigger]
        is_family_shown(prefs, other) && family_rank(other) > family_rank(id);
    assert(is_family_shown(prefs, QuotaFamilyId::Codex) == prefs.show_codex);
    assert(is_family_shown(prefs, QuotaFamilyId::Antigravity) == prefs.show_antigravity);
    assert(is_family_shown(prefs, QuotaFamilyId::GithubCopilot) == prefs.show_github_copilot);
    assert(is_last_column(prefs, id) == !has_right_neighbor);
    reveal(header_part);
    if part.len() > 1 {
        assert(header.contains(part[1]));
    }
}

/// Under the weekly row of a shown provider stand its own further pace lines, one under
/// the other in its column, in the color of secondary text.
pub proof fn further_pace_lines_stand_in_their_column(
    prefs: Preferences,
    shown: UsageView,
    y: int,
    canvas: Canvas,
    id: QuotaFamilyId,
)
    requires
        is_family_shown(prefs, id),
        !(id is GithubCopilot),
    ensures
        ({
            let extras = extras_drawn(prefs, shown, y, canvas);
            let dpi = canvas.dpi as int;
            let color = popup_palette(prefs.app_theme).secondary_text;
            let line = |text: Seq<char>, top: int|
                DrawView::Text {
                    text,
                    rect: rect_at(
                        family_x(prefs, id, canvas),
                        top,
                        column_width(canvas.width, families_of(prefs), canvas.dpi),
                        scaled(14, dpi),
                    ),
                    color,
                    align: TextAlign::LeftEllipsis,
                };
            view_of(shown, id).weekly.pace matches Some(lines) ==> {
                &&& lines.secondary matches Some(text) ==> extras.contains(line(text, y))
                &&& lines.detail matches Some(text) ==> extras.contains(
                    line(
                        text,
                        if lines.secondary is Some {
                            y + scaled(14, dpi)
                        } else {
                            y
                        },
                    ),
                )
            }
        }),
{
    let a = extra_part(
        prefs.show_claude_code,
        QuotaFamilyId::Claude,
        shown.claude.weekly.pace,
        prefs,
        y,
        canvas,
    );
    let b = extra_part(
        prefs.show_codex,
        QuotaFamilyId::Codex,
        shown.codex.weekly.pace,
        prefs,
        y,
        canvas,
    );
    let c = extra_part(
        prefs.show_antigravity,
        QuotaFamilyId::Antigravity,
        shown.antigravity.weekly.pace,
        prefs,
        y,
        canvas,
    );
    let extras = extras_drawn(prefs, shown, y, canvas);
    assert(extras == a + b + c);
    lemma_joined(a, b);
    lemma_joined(a + b, c);
    lemma_among_more(a, a + b, extras);
    lemma_among_more(b, a + b, extras);
    let part = match id {
        QuotaFamilyId::Claude => a,
        QuotaFamilyId::Codex => b,
        _ => c,
    };
    assert(is_among(part, extras));
    if part.len() > 0 {
        assert(extras.contains(part[0]));
    }
    if part.len() > 1 {
        assert(extras.contains(part[1]));
    }
}

/// The popup draws the header, the weekly row and the monthly row, and in the standard
/// layout the further pace lines and the row of the short window as far as there are any.
pub proof fn every_row_is_drawn(
    s: AppState,
    strings: Strings,
    widths: HeaderWidths,
    canvas: Canvas,
)
    ensures
        ({
            let all = content_drawn(s, strings, widths, canvas);
            let dpi = canvas.dpi as int;
            let rows = rows_of(s.states, s.shown@, s.prefs);
            let top = weekly_top(s, canvas);
            &&& is_among(
                header_drawn(
                    s.prefs,
                    s.shown@,
                    top - scaled(4, dpi) - scaled(14, dpi),
                    strings,
                    widths,
                    popup_palette(s.prefs.app_theme).heading_text,
                    canvas,
                ),
                all,
            )
            &&& is_among(weekly_row_drawn(s.prefs, s.shown@, top, strings, canvas), all)
            &&& rows.weekly_extra_lines >= 1 ==> is_among(
                extras_drawn(s.prefs, s.shown@, top + scaled(13, dpi), canvas),
                all,
            )
            &&& rows.session_row ==> is_among(
                session_row_drawn(
                    s,
                    session_row_top(rows_height(s, canvas), canvas.dpi),
                    strings,
                    canvas,
                ),
                all,
            )
            &&& is_among(monthly_row_drawn(s.prefs, s.shown@, canvas), all)
        }),
{
    let all = content_drawn(s, strings, widths, canvas);
    let dpi = canvas.dpi as int;
    let rows = rows_of(s.states, s.shown@, s.prefs);
    let top = weekly_top(s, canvas);
    let palette = popup_palette(s.prefs.app_theme);
    let a = background_drawn(canvas, palette);
    let b = header_drawn(
        s.prefs,
        s.shown@,
        top - scaled(4, dpi) - scaled(14, dpi),
        strings,
        widths,
        palette.heading_text,
        canvas,
    );
    let c = rows_drawn(s, strings, canvas);
    let d = monthly_row_drawn(s.prefs, s.shown@, canvas);
    let e = frame_drawn(canvas, palette.border);
    let f = dividers_drawn(s.prefs, canvas);
    assert(all == a + b + c + d + e + f);
    lemma_joined(a, b);
    lemma_joined(a + b, c);
    lemma_joined(a + b + c, d);
    lemma_joined(a + b + c + d, e);
    lemma_joined(a + b + c + d + e, f);
    lemma_among_more(a + b + c + d, a + b + c + d + e, all);
    lemma_among_more(d, a + b + c + d, all);
    lemma_among_more(a + b + c, a + b + c + d, all);
    lemma_among_more(c, a + b + c, all);
    lemma_among_more(a + b, a + b + c, all);
    lemma_among_more(b, a + b, all);
    let weekly = weekly_row_drawn(s.prefs, s.shown@, top, strings, canvas);
    let extras = if rows.weekly_extra_lines >= 1 {
        extras_drawn(s.prefs, s.shown@, top + scaled(13, dpi), canvas)
    } else {
        Seq::empty()
    };
    let session = if rows.session_row {
        session_row_drawn(s, session_row_top(rows_height(s, canvas), canvas.dpi), strings, canvas)
    } else {
        Seq::empty()
    };
    assert(c == weekly + extras + session);
    lemma_joined(weekly, extras);
    lemma_joined(weekly + extras, session);
    lemma_among_more(weekly + extras, c, all);
    lemma_among_more(weekly, weekly + extras, all);
    lemma_among_more(extras, weekly + extras, all);
    lemma_among_more(session, c, all);
}

/// For every shown provider whose weekly window has pace lines, what the popup draws holds
/// a text that is exactly the first of them, in that provider's column of the weekly row;
/// for one without pace lines it holds the plain text there.
pub proof fn popup_says_the_pace_of_each_shown_provider(
    s: AppState,
    strings: Strings,
    widths: HeaderWidths,
    canvas: Canvas,
    id: QuotaFamilyId,
)
    requires
        is_family_shown(s.prefs, id),
        !(id is GithubCopilot),
    ensures
        ({
            let all = content_drawn(s, strings, widths, canvas);
            let window = view_of(s.shown@, id).weekly;
            let y = weekly_top(s, canvas);
            &&& window.pace matches Some(lines) ==> (lines.primary.len() > 0 ==> all.contains(
                value_text(s.prefs, id, lines.primary, false, y, canvas),
            ))
            &&& window.pace is None && window.text.len() > 0 ==> all.contains(
                value_text(s.prefs, id, window.text, false, y, canvas),
            )
        }),
{
    let y = weekly_top(s, canvas);
    let row = weekly_row_drawn(s.prefs, s.shown@, y, strings, canvas);
    let all = content_drawn(s, strings, widths, canvas);
    every_row_is_drawn(s, strings, widths, canvas);
    weekly_row_says_the_pace_of_each_shown_provider(s.prefs, s.shown@, y, strings, canvas, id);
    assert forall|step: DrawView| #[trigger] row.contains(step) implies all.contains(step) by {
        let i = choose|i: int| 0 <= i < row.len() && row[i] == step;
        assert(all.contains(row[i]));
    }
}

/// Shown providers have columns of their own, in the fixed order: a provider's column comes
/// right after those of the shown providers before it, from the left edge of the content.
pub proof fn columns_stand_in_order(
    prefs: Preferences,
    canvas: Canvas,
    id: QuotaFamilyId,
    next: QuotaFamilyId,
)
    requires
        is_family_shown(prefs, id),
        is_family_shown(prefs, next),
        family_rank(id) < family_rank(next),
        forall|between: QuotaFamilyId| #[trigger]
            is_family_shown(prefs, between) ==> family_rank(between) <= family_rank(id)
                || family_rank(next) <= family_rank(between),
    ensures
        family_x(prefs, next, canvas) == family_x(prefs, id, canvas) + column_width(
            canvas.width,
            families_of(prefs),
            canvas.dpi,
        ) + scaled(3, canvas.dpi as int),
{
    reveal(family_x);
    let step = column_width(canvas.width, families_of(prefs), canvas.dpi) + scaled(
        3,
        canvas.dpi as int,
    );
    let i = column_index(prefs, id);
    assert(is_family_shown(prefs, QuotaFamilyId::Codex) == prefs.show_codex);
    assert(is_family_shown(prefs, QuotaFamilyId::Antigravity) == prefs.show_antigravity);
    assert(column_index(prefs, next) == i + 1);
    assert((i + 1) * step == i * step + step) by (nonlinear_arith);
}

/// The columns fill the canvas: the last one ends at the right margin, but for what cannot
/// be shared out evenly.
pub proof fn columns_fill_the_canvas(prefs: Preferences, canvas: Canvas, id: QuotaFamilyId)
    requires
        canvas.is_valid(),
        1 <= canvas.dpi,
        is_family_shown(prefs, id),
        forall|other: QuotaFamilyId| #[trigger]
            is_family_shown(prefs, other) ==> family_rank(other) <= family_rank(id),
        0 < column_width(canvas.width, families_of(prefs), canvas.dpi),
    ensures
        ({
            let end = family_x(prefs, id, canvas) + column_width(
                canvas.width,
                families_of(prefs),
                canvas.dpi,
            ) + scaled(1, canvas.dpi as int);
            canvas.width - families_of(prefs) < end <= canvas.width
        }),
{
    reveal(family_x);
    let dpi = canvas.dpi as int;
    let n = families_of(prefs) as int;
    let column = column_width(canvas.width, families_of(prefs), canvas.dpi);
    let gap = scaled(3, dpi);
    let i = column_index(prefs, id);
    assert(is_family_shown(prefs, QuotaFamilyId::Codex) == prefs.show_codex);
    assert(is_family_shown(prefs, QuotaFamilyId::Antigravity) == prefs.show_antigravity);
    assert(is_family_shown(prefs, QuotaFamilyId::GithubCopilot) == prefs.show_github_copilot);
    assert(i == n - 1);
    let free = canvas.width - fixed_width_device(n, dpi);
    assert(column == free / n);
    assert(n * (free / n) <= free < n * (free / n) + n) by (nonlinear_arith)
        requires
            1 <= n,
    ;
    assert((n - 1) * (column + gap) == n * column - column + gap * (n - 1)) by (nonlinear_arith);
}

/// Whether a rectangle covers a pixel.
pub open spec fn covers(rect: Rect, x: int, y: int) -> bool {
    rect.left <= x < rect.right && rect.top <= y < rect.bottom
}

/// Whether one of some steps fills a pixel with a color.
pub open spec fn fills(steps: Seq<DrawView>, x: int, y: int, color: Color) -> bool {
    exists|i: int|
        0 <= i < steps.len() && (#[trigger] steps[i] matches DrawView::Fill { rect, color: c } && c
            == color && covers(rect, x, y))
}

/// The frame goes all around the canvas, as thick on every side, and leaves what is inside
/// of it free.
pub proof fn frame_goes_all_around(canvas: Canvas, color: Color, x: int, y: int)
    requires
        canvas.is_valid(),
        0 <= x < canvas.width,
        0 <= y < canvas.height,
        outline_width(canvas.dpi as int) <= canvas.width,
        outline_width(canvas.dpi as int) <= canvas.height,
    ensures
        ({
            let thickness = outline_width(canvas.dpi as int);
            fills(frame_drawn(canvas, color), x, y, color) <==> x < thickness || y < thickness
                || canvas.width - x <= thickness || canvas.height - y <= thickness
        }),
{
    let steps = frame_drawn(canvas, color);
    let thickness = outline_width(canvas.dpi as int);
    assert(steps.len() == 4);
    if y < thickness {
        assert(steps[0] matches DrawView::Fill { rect, .. } && covers(rect, x, y));
    }
    if canvas.height - y <= thickness {
        assert(steps[1] matches DrawView::Fill { rect, .. } && covers(rect, x, y));
    }
    if x < thickness {
        assert(steps[2] matches DrawView::Fill { rect, .. } && covers(rect, x, y));
    }
    if canvas.width - x <= thickness {
        assert(steps[3] matches DrawView::Fill { rect, .. } && covers(rect, x, y));
    }
}

/// The background is laid under everything: it is drawn first and covers the canvas.
pub proof fn background_covers_the_canvas(
    s: AppState,
    strings: Strings,
    widths: HeaderWidths,
    canvas: Canvas,
    x: int,
    y: int,
)
    requires
        canvas.is_valid(),
        0 <= x < canvas.width,
        0 <= y < canvas.height,
    ensures
        content_drawn(s, strings, widths, canvas)[0] matches DrawView::Fill { rect, color }
            && covers(rect, x, y) && color == popup_palette(s.prefs.app_theme).background,
{
}

/// The high-visibility theme alone draws dividers, one between each two columns and as
/// high as the canvas, and outlines the bars, both in the color of its border.
pub proof fn high_visibility_alone_draws_borders(prefs: Preferences, canvas: Canvas)
    ensures
        ({
            let dividers = dividers_drawn(prefs, canvas);
            let border = popup_palette(prefs.app_theme).border;
            if prefs.app_theme is HighVisibility {
                &&& dividers.len() + 1 == families_of(prefs)
                &&& forall|i: int|
                    0 <= i < dividers.len() ==> (#[trigger] dividers[i] matches DrawView::Fill {
                        rect,
                        color,
                    } && color == border && rect.top == 0)
                &&& row_style(prefs).outline == Some(border)
            } else {
                dividers.len() == 0 && row_style(prefs).outline is None
            }
        }),
{
}

/// A remaining time is written once where there is one and it fits, and nothing is written
/// where there is none, where it is empty, or where it does not fit.
pub proof fn remaining_time_is_written_where_it_fits(
    x: int,
    y: int,
    column: int,
    is_last: bool,
    remaining: Option<Seq<char>>,
    widths: TextWidths,
    color: Color,
    dpi: int,
)
    ensures
        ({
            let steps = remaining_drawn(x, y, column, is_last, remaining, widths, color, dpi);
            let room = if is_last {
                column
            } else {
                column - scaled(8, dpi)
            };
            let fits = widths.name + widths.remaining + scaled(8, dpi) <= room;
            texts_of(steps) == (if remaining is Some && remaining->0.len() > 0 && fits {
                seq![remaining->0]
            } else {
                Seq::empty()
            })
        }),
{
    if let Some(text) = remaining {
        lemma_one_text(
            text,
            rect_at(x, y, available_width(column, is_last, dpi), scaled(14, dpi)),
            color,
            TextAlign::Right,
        );
    }
}

/// A window of its own is drawn by the system when it is asked to; one inside the taskbar
/// is drawn at its own width, and at the usual one before it has any, always as high as
/// its content.
pub proof fn window_is_drawn_at_its_size(s: AppState, client: Rect, dpi: u32)
    ensures
        plan_of(None, Some(client), dpi) is Nothing,
        !s.embedded <==> plan_of(Some(s), Some(client), dpi) is Invalidate,
        plan_of(Some(s), Some(client), dpi) matches RenderPlan::Layered { width, height } ==> {
            &&& client.right > client.left && client.right - client.left <= i32::MAX ==> width
                == client.right - client.left
            &&& client.right <= client.left ==> plan_of(Some(s), None, dpi) == (
            RenderPlan::Layered { width, height })
            &&& height == crate::rows::height_device(
                rows_of(s.states, s.shown@, s.prefs),
                s.prefs.show_github_copilot,
                dpi,
            ) as i32
        },
{
}

} // verus!
