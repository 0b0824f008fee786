//! Drawing commands, usage bars and rows.

use vstd::prelude::*;

use crate::geometry::{
    bar_width_device, column_fits_client, column_width, columns_fit_client, effective_dpi, larger,
    provider_column_width_for_client_at_dpi, row_bar_segment_count, sc, scaled,
    scaled_design_length_bounds, usage_bar_device_width, Rect, BAR_RIGHT_MARGIN, CORNER_RADIUS,
    LABEL_RIGHT_MARGIN, LABEL_WIDTH, MAX_DPI, MAX_FAMILIES, MODEL_RIGHT_MARGIN, SEGMENT_GAP,
    SEGMENT_H, SEGMENT_W,
};
use crate::numbers::{Quantity, FULL_PERCENT};
use crate::rows::MAX_EXTENT;
use crate::theme::Color;

verus! {

// ---- commands ---------------------------------------------------------------------------

/// How a line of text stands in its rectangle; always in the middle of its height.
#[derive(Clone, Copy, Debug, PartialEq, Eq, Structural)]
pub enum TextAlign {
    Left,
    /// From the left, ending in an ellipsis where it does not fit.
    LeftEllipsis,
    Right,
}

/// One drawing step. Shapes are rectangles with rounded corners.
#[derive(Debug)]
pub enum DrawCommand {
    Fill { rect: Rect, color: Color },
    FillShape { shape: Rect, radius: i32, color: Color },
    /// Fills a rectangle, but only inside a shape.
    FillWithin { shape: Rect, radius: i32, rect: Rect, color: Color },
    /// Outlines a shape, only inside the clip where there is one.
    Outline { shape: Rect, radius: i32, thickness: i32, color: Color, clip: Option<Rect> },
    Text { text: String, rect: Rect, color: Color, align: TextAlign },
}

/// A drawing step, as a value.
pub enum DrawView {
    Fill { rect: Rect, color: Color },
    FillShape { shape: Rect, radius: i32, color: Color },
    FillWithin { shape: Rect, radius: i32, rect: Rect, color: Color },
    Outline { shape: Rect, radius: i32, thickness: i32, color: Color, clip: Option<Rect> },
    Text { text: Seq<char>, rect: Rect, color: Color, align: TextAlign },
}

impl View for DrawCommand {
    type V = DrawView;

    open spec fn view(&self) -> DrawView {
        match *self {
            DrawCommand::Fill { rect, color } => DrawView::Fill { rect, color },
            DrawCommand::FillShape { shape, radius, color } => DrawView::FillShape {
                shape,
                radius,
                color,
            },
            DrawCommand::FillWithin { shape, radius, rect, color } => DrawView::FillWithin {
                shape,
                radius,
                rect,
                color,
            },
            DrawCommand::Outline { shape, radius, thickness, color, clip } => DrawView::Outline {
                shape,
                radius,
                thickness,
                color,
                clip,
            },
            DrawCommand::Text { text, rect, color, align } => DrawView::Text {
                text: text@,
                rect,
                color,
                align,
            },
        }
    }
}

/// What a list of commands draws.
pub open spec fn drawn(commands: Seq<DrawCommand>) -> Seq<DrawView> {
    Seq::new(commands.len(), |i: int| commands[i]@)
}

/// Adds a command to a list.
pub fn put(commands: &mut Vec<DrawCommand>, command: DrawCommand)
    ensures
        drawn(final(commands)@) == drawn(old(commands)@).push(command@),
{
    commands.push(command);
    assert(drawn(commands@) =~= drawn(old(commands)@).push(command@));
}

/// Appending two lists one after the other appends them joined.
pub(crate) proof fn appended_twice(a: Seq<DrawView>, b: Seq<DrawView>, c: Seq<DrawView>)
    ensures
        (a + b) + c == a + (b + c),
{
    assert((a + b) + c =~= a + (b + c));
}

/// Adds a filled rectangle.
pub fn put_fill(commands: &mut Vec<DrawCommand>, rect: Rect, color: Color)
    ensures
        drawn(final(commands)@) == drawn(old(commands)@).push(DrawView::Fill { rect, color }),
{
    put(commands, DrawCommand::Fill { rect, color });
}

/// Adds a line of text.
pub fn put_text(
    commands: &mut Vec<DrawCommand>,
    text: &str,
    rect: Rect,
    color: Color,
    align: TextAlign,
)
    ensures
        drawn(final(commands)@) == drawn(old(commands)@).push(
            DrawView::Text { text: text@, rect, color, align },
        ),
{
    put(commands, DrawCommand::Text { text: text.to_owned(), rect, color, align });
}

/// The rectangle at a point with a size.
pub open spec fn rect_at(x: int, y: int, width: int, height: int) -> Rect {
    Rect { left: x as i32, top: y as i32, right: (x + width) as i32, bottom: (y + height) as i32 }
}

/// A coordinate that the drawing arithmetic is carried out for.
pub open spec fn is_coordinate(v: i32) -> bool {
    -1_000_000_000 <= v <= 1_000_000_000
}

pub fn rect_with_size(x: i32, y: i32, width: i32, height: i32) -> (r: Rect)
    requires
        is_coordinate(x),
        is_coordinate(y),
        is_coordinate(width),
        is_coordinate(height),
    ensures
        r == rect_at(x as int, y as int, width as int, height as int),
{
    Rect { left: x, top: y, right: x + width, bottom: y + height }
}

// ---- usage bars -----------------------------------------------------------------------------

/// How much of a segment of a bar is filled.
#[derive(Clone, Copy, Debug, PartialEq, Eq, Structural)]
pub enum SegmentFill {
    Full,
    Empty,
    /// Filled from the left, in pixels.
    Partial(i32),
}

/// The fill of segment `i` of `n`, each standing for an equal share of a hundred
/// percent. What is no number fills nothing, but no segment counts as empty then.
pub open spec fn segment_fill(
    percent: Quantity,
    i: int,
    n: int,
    segment_width: int,
) -> SegmentFill {
    match percent.clamp_percent() {
        Quantity::Finite(p) => if p * n >= (i + 1) * FULL_PERCENT {
            SegmentFill::Full
        } else if p * n <= i * FULL_PERCENT {
            SegmentFill::Empty
        } else {
            SegmentFill::Partial(
                (((p * n - i * FULL_PERCENT) * segment_width) / FULL_PERCENT as int) as i32,
            )
        },
        _ => SegmentFill::Partial(0),
    }
}

/// Tells how much of a segment is filled.
pub fn fill_of_segment(percent: Quantity, i: i32, n: i32, segment_width: i32) -> (r: SegmentFill)
    requires
        0 <= i < n,
        0 <= segment_width,
    ensures
        r == segment_fill(percent, i as int, n as int, segment_width as int),
        r matches SegmentFill::Partial(width) ==> 0 <= width <= segment_width,
{
    match percent.clamp_percent() {
        Quantity::Finite(p) => {
            assert(0 <= p * n <= 100_000_000 * 0x7fff_ffff) by (nonlinear_arith)
                requires
                    0 <= p <= 100_000_000,
                    0 <= n <= 0x7fff_ffff,
            ;
            let reached: i64 = p * (n as i64);
            let start: i64 = (i as i64) * FULL_PERCENT;
            if reached >= start + FULL_PERCENT {
                SegmentFill::Full
            } else if reached <= start {
                SegmentFill::Empty
            } else {
                let beyond: i64 = reached - start;
                assert(
                    0 <= beyond * segment_width <= 100_000_000 * segment_width
                ) by (nonlinear_arith)
                    requires
                        0 <= beyond <= 100_000_000,
                        0 <= segment_width,
                ;
                let filled: i128 = beyond as i128 * segment_width as i128;
                SegmentFill::Partial((filled / FULL_PERCENT as i128) as i32)
            }
        },
        _ => SegmentFill::Partial(0),
    }
}

/// A bar's colors. The outline, where there is one, is drawn around what is not
/// filled.
#[derive(Clone, Copy, Debug, PartialEq, Eq)]
pub struct BarStyle {
    pub accent: Color,
    pub track: Color,
    pub text: Color,
    pub outline: Option<Color>,
}

/// The thickness of outlines: one design pixel, at least one pixel.
pub open spec fn outline_width(dpi: int) -> int {
    larger(scaled(1, dpi), 1)
}

pub fn outline_thickness(dpi: u32) -> (r: i32)
    ensures
        r == outline_width(dpi as int),
{
    let w: i32 = sc(1, dpi);
    if w >= 1 {
        w
    } else {
        1
    }
}

/// Left edge of segment `i` of a bar.
pub open spec fn segment_x(bar_x: int, i: int, dpi: int) -> int {
    bar_x + i * (scaled(10, dpi) + scaled(1, dpi))
}

/// What a segment draws: the track unless it is full, the accent over what is filled,
/// and the outline over what is not.
pub open spec fn segment_drawn(
    x: int,
    y: int,
    fill: SegmentFill,
    style: BarStyle,
    dpi: int,
) -> Seq<DrawView> {
    let shape = rect_at(x, y, scaled(10, dpi), scaled(13, dpi));
    let radius = scaled(2, dpi) as i32;
    let thickness = outline_width(dpi) as i32;
    match fill {
        SegmentFill::Full => seq![DrawView::FillShape { shape, radius, color: style.accent }],
        SegmentFill::Empty => seq![DrawView::FillShape { shape, radius, color: style.track }] + (
        match style.outline {
            Some(color) => seq![
                DrawView::Outline { shape, radius, thickness, color, clip: None },
            ],
            None => Seq::empty(),
        }),
        SegmentFill::Partial(width) => seq![
            DrawView::FillShape { shape, radius, color: style.track },
        ] + (if width > 0 {
            seq![
                DrawView::FillWithin {
                    shape,
                    radius,
                    rect: rect_at(x, y, width as int, scaled(13, dpi)),
                    color: style.accent,
                },
            ]
        } else {
            Seq::empty()
        }) + (match style.outline {
            Some(color) => seq![
                DrawView::Outline {
                    shape,
                    radius,
                    thickness,
                    color,
                    clip: Some(
                        rect_at(
                            x + width,
                            y,
                            scaled(10, dpi) - width,
                            scaled(13, dpi),
                        ),
                    ),
                },
            ],
            None => Seq::empty(),
        }),
    }
}

fn put_segment(
    commands: &mut Vec<DrawCommand>,
    x: i32,
    y: i32,
    fill: SegmentFill,
    style: BarStyle,
    dpi: u32,
)
    requires
        is_coordinate(x),
        is_coordinate(y),
        dpi <= MAX_DPI,
        fill matches SegmentFill::Partial(width) ==> 0 <= width <= scaled(10, dpi as int),
    ensures
        drawn(final(commands)@) == drawn(old(commands)@) + segment_drawn(
            x as int,
            y as int,
            fill,
            style,
            dpi as int,
        ),
{
    broadcast use scaled_design_length_bounds;

    let segment_width: i32 = sc(SEGMENT_W, dpi);
    let segment_height: i32 = sc(SEGMENT_H, dpi);
    let radius: i32 = sc(CORNER_RADIUS, dpi);
    let thickness: i32 = outline_thickness(dpi);
    let shape: Rect = rect_with_size(x, y, segment_width, segment_height);
    match fill {
        SegmentFill::Full => {
            put(commands, DrawCommand::FillShape { shape, radius, color: style.accent });
        },
        SegmentFill::Empty => {
            put(commands, DrawCommand::FillShape { shape, radius, color: style.track });
            if let Some(color) = style.outline {
                put(
                    commands,
                    DrawCommand::Outline { shape, radius, thickness, color, clip: None },
                );
            }
        },
        SegmentFill::Partial(width) => {
            put(commands, DrawCommand::FillShape { shape, radius, color: style.track });
            if width > 0 {
                put(
                    commands,
                    DrawCommand::FillWithin {
                        shape,
                        radius,
                        rect: Rect {
                            left: x,
                            top: y,
                            right: x + width,
                            bottom: y + segment_height,
                        },
                        color: style.accent,
                    },
                );
            }
            if let Some(color) = style.outline {
                put(
                    commands,
                    DrawCommand::Outline {
                        shape,
                        radius,
                        thickness,
                        color,
                        clip: Some(
                            Rect {
                                left: x + width,
                                top: y,
                                right: x + segment_width,
                                bottom: y + segment_height,
                            },
                        ),
                    },
                );
            }
        },
    }
    assert(drawn(commands@) =~= drawn(old(commands)@) + segment_drawn(
        x as int,
        y as int,
        fill,
        style,
        dpi as int,
    ));
}

/// What the first `k` segments of a bar of `n` draw.
pub open spec fn segments_drawn(
    bar_x: int,
    y: int,
    k: nat,
    n: int,
    percent: Quantity,
    style: BarStyle,
    dpi: int,
) -> Seq<DrawView>
    decreases k,
{
    if k == 0 {
        Seq::empty()
    } else {
        segments_drawn(bar_x, y, (k - 1) as nat, n, percent, style, dpi) + segment_drawn(
            segment_x(bar_x, k - 1, dpi),
            y,
            segment_fill(percent, k - 1, n, scaled(10, dpi)),
            style,
            dpi,
        )
    }
}

pub open spec fn spec_usage_bar_has_content(percent: Option<Quantity>, text: Seq<char>) -> bool {
    percent is Some || text.len() > 0
}

/// Whether a bar cell draws anything: a bar or a text.
pub fn usage_bar_has_content(percent: Option<Quantity>, text: &str) -> (r: bool)
    ensures
        r == spec_usage_bar_has_content(percent, text@),
{
    percent.is_some() || !text.is_empty()
}

/// What a bar cell draws: segments only for a value, and the text only where there is
/// one. Without a value not even the track is drawn, so it never looks like a bar of
/// zero percent.
pub open spec fn bar_drawn(
    bar_x: int,
    y: int,
    n: int,
    text_width: int,
    percent: Option<Quantity>,
    text: Seq<char>,
    style: BarStyle,
    dpi: int,
) -> Seq<DrawView> {
    (match percent {
        Some(p) => segments_drawn(bar_x, y, larger(n, 0) as nat, n, p, style, dpi),
        None => Seq::empty(),
    }) + (if text.len() > 0 {
        seq![
            DrawView::Text {
                text,
                rect: rect_at(
                    segment_x(bar_x, n, dpi) - scaled(1, dpi) + scaled(4, dpi),
                    y,
                    text_width,
                    scaled(13, dpi),
                ),
                color: style.text,
                align: TextAlign::LeftEllipsis,
            },
        ]
    } else {
        Seq::empty()
    })
}

/// The most segments whose pixels still have coordinates at the highest DPI.
pub const MAX_SEGMENTS: i32 = 4_000;

/// Draws a bar and the text beside it.
pub fn draw_usage_bar(
    commands: &mut Vec<DrawCommand>,
    bar_x: i32,
    y: i32,
    segment_count: i32,
    text_width: i32,
    percent: Option<Quantity>,
    text: &str,
    style: BarStyle,
    dpi: u32,
)
    requires
        -500_000_000 <= bar_x <= 500_000_000,
        -500_000_000 <= y <= 500_000_000,
        -MAX_SEGMENTS <= segment_count <= MAX_SEGMENTS,
        0 <= text_width <= 500_000_000,
        dpi <= MAX_DPI,
    ensures
        drawn(final(commands)@) == drawn(old(commands)@) + bar_drawn(
            bar_x as int,
            y as int,
            segment_count as int,
            text_width as int,
            percent,
            text@,
            style,
            dpi as int,
        ),
{
    broadcast use scaled_design_length_bounds;

    let ghost before = drawn(commands@);
    if !usage_bar_has_content(percent, text) {
        assert(before =~= before + bar_drawn(
            bar_x as int,
            y as int,
            segment_count as int,
            text_width as int,
            percent,
            text@,
            style,
            dpi as int,
        ));
        return;
    }
    let segment_width: i32 = sc(SEGMENT_W, dpi);
    let pitch: i32 = segment_width + sc(SEGMENT_GAP, dpi);
    if let Some(value) = percent {
        let mut i: i32 = 0;
        assert(before =~= before + segments_drawn(
            bar_x as int,
            y as int,
            0,
            segment_count as int,
            value,
            style,
            dpi as int,
        ));
        while i < segment_count
            invariant
                0 <= i <= larger(segment_count as int, 0),
                segment_count <= MAX_SEGMENTS,
                -500_000_000 <= bar_x <= 500_000_000,
                -500_000_000 <= y <= 500_000_000,
                dpi <= MAX_DPI,
                segment_width == scaled(10, dpi as int),
                pitch == scaled(10, dpi as int) + scaled(1, dpi as int),
                0 <= segment_width <= 104_170,
                0 <= pitch <= 114_587,
                drawn(commands@) == before + segments_drawn(
                    bar_x as int,
                    y as int,
                    i as nat,
                    segment_count as int,
                    value,
                    style,
                    dpi as int,
                ),
            decreases segment_count - i,
        {
            assert(0 <= i * pitch <= 4_000 * 114_587) by (nonlinear_arith)
                requires
                    0 <= i <= 4_000,
                    0 <= pitch <= 114_587,
            ;
            let fill: SegmentFill = fill_of_segment(value, i, segment_count, segment_width);
            put_segment(commands, bar_x + i * pitch, y, fill, style, dpi);
            proof {
                appended_twice(
                    before,
                    segments_drawn(
                        bar_x as int,
                        y as int,
                        i as nat,
                        segment_count as int,
                        value,
                        style,
                        dpi as int,
                    ),
                    segment_drawn(bar_x + i * pitch, y as int, fill, style, dpi as int),
                );
            }
            i += 1;
        }
    }
    assert(-4_000 * 114_587 <= segment_count * pitch <= 4_000 * 114_587) by (nonlinear_arith)
        requires
            -4_000 <= segment_count <= 4_000,
            0 <= pitch <= 114_587,
    ;
    let text_x: i32 = bar_x + segment_count * pitch - sc(SEGMENT_GAP, dpi) + sc(
        BAR_RIGHT_MARGIN,
        dpi,
    );
    if !text.is_empty() {
        let rect: Rect = rect_with_size(text_x, y, text_width, sc(SEGMENT_H, dpi));
        put_text(commands, text, rect, style.text, TextAlign::LeftEllipsis);
    }
    assert(drawn(commands@) =~= before + bar_drawn(
        bar_x as int,
        y as int,
        segment_count as int,
        text_width as int,
        percent,
        text@,
        style,
        dpi as int,
    ));
}

// ---- rows -----------------------------------------------------------------------------------

/// One provider's cell of a row.
#[derive(Clone, Copy, Debug)]
pub struct RowCell<'a> {
    pub percent: Option<Quantity>,
    pub text: &'a str,
    pub accent: Color,
    pub provider_text_color: Color,
    pub is_warning: bool,
}

/// A cell of a row, as a value.
pub struct RowCellView {
    pub percent: Option<Quantity>,
    pub text: Seq<char>,
    pub accent: Color,
    pub provider_text_color: Color,
    pub is_warning: bool,
}

impl<'a> View for RowCell<'a> {
    type V = RowCellView;

    open spec fn view(&self) -> RowCellView {
        RowCellView {
            percent: self.percent,
            text: self.text@,
            accent: self.accent,
            provider_text_color: self.provider_text_color,
            is_warning: self.is_warning,
        }
    }
}

/// The cells of a row, as values.
pub open spec fn cells_view(cells: Seq<RowCell>) -> Seq<RowCellView> {
    Seq::new(cells.len(), |i: int| cells[i]@)
}

/// Colors and place that the cells of a row share.
#[derive(Clone, Copy, Debug, PartialEq, Eq)]
pub struct RowStyle {
    pub text: Color,
    pub track: Color,
    pub warning: Color,
    pub outline: Option<Color>,
}

/// The color of a cell's text: the warning wins; several columns are told apart by
/// the providers' colors; a single one has the text color of the row.
pub open spec fn value_color(cell: RowCellView, columns: int, style: RowStyle) -> Color {
    if cell.is_warning {
        style.warning
    } else if columns > 1 {
        cell.provider_text_color
    } else {
        style.text
    }
}

/// Left edge of the first column.
pub open spec fn first_column_x(x: int, dpi: int) -> int {
    x + scaled(18, dpi) + scaled(10, dpi)
}

/// Left edge of a column.
pub open spec fn column_x(x: int, index: int, column: int, dpi: int) -> int {
    first_column_x(x, dpi) + index * (column + scaled(3, dpi))
}

/// How many columns a row has; one that has no cells counts as one.
pub open spec fn column_count(cells: int) -> int {
    larger(cells, 1)
}

/// What one cell of a row draws, in a row of so many columns.
#[verifier::opaque]
pub open spec fn cell_drawn(
    x: int,
    y: int,
    text_width: int,
    cell: RowCellView,
    columns: int,
    style: RowStyle,
    dpi: int,
) -> Seq<DrawView> {
    bar_drawn(
        x,
        y,
        row_bar_segment_count(columns as i32) as int,
        text_width,
        cell.percent,
        cell.text,
        BarStyle {
            accent: cell.accent,
            track: style.track,
            text: value_color(cell, columns, style),
            outline: style.outline,
        },
        dpi,
    )
}

/// What the first `k` cells of a row draw.
pub open spec fn cells_drawn(
    client_width: i32,
    x: int,
    y: int,
    cells: Seq<RowCellView>,
    k: nat,
    style: RowStyle,
    dpi: u32,
) -> Seq<DrawView>
    decreases k,
{
    if k == 0 {
        Seq::empty()
    } else {
        let columns = column_count(cells.len() as int);
        let n = row_bar_segment_count(columns as i32) as int;
        let column = column_width(client_width, columns as i32, dpi);
        cells_drawn(client_width, x, y, cells, (k - 1) as nat, style, dpi) + cell_drawn(
            column_x(x, k - 1, column, dpi as int),
            y,
            larger(column - bar_width_device(n, effective_dpi(dpi)), 0),
            cells[k - 1],
            columns,
            style,
            dpi as int,
        )
    }
}

/// What a row draws: its label and its cells, one per column.
pub open spec fn row_drawn(
    client_width: i32,
    x: int,
    y: int,
    label: Seq<char>,
    cells: Seq<RowCellView>,
    style: RowStyle,
    dpi: u32,
) -> Seq<DrawView> {
    seq![
        DrawView::Text {
            text: label,
            rect: rect_at(x, y, scaled(18, dpi as int), scaled(13, dpi as int)),
            color: style.text,
            align: TextAlign::Left,
        },
    ] + cells_drawn(client_width, x, y, cells, cells.len(), style, dpi)
}

proof fn lemma_part_of_columns(k: int, columns: int, column: int)
    by (nonlinear_arith)
    requires
        0 <= k <= columns,
        0 <= column,
    ensures
        0 <= k * column <= columns * column,
{
}

/// The next column begins one column and one gap further on, still near the row.
proof fn lemma_next_column(x: int, i: int, columns: int, column: int, dpi: int)
    requires
        0 <= i < columns,
        0 <= column,
        0 <= dpi <= MAX_DPI,
    ensures
        column_x(x, i + 1, column, dpi) == column_x(x, i, column, dpi) + column + scaled(3, dpi),
        x <= column_x(x, i, column, dpi) <= x + 300_000 + columns * column + i * 31_251,
{
    broadcast use scaled_design_length_bounds;

    let gap = scaled(3, dpi);
    let step = column + gap;
    assert((i + 1) * step == i * step + step) by (nonlinear_arith);
    assert(i * step == i * column + i * gap) by (nonlinear_arith)
        requires
            step == column + gap,
    ;
    assert(0 <= i * gap <= i * 31_251) by (nonlinear_arith)
        requires
            0 <= i,
            0 <= gap <= 31_251,
    ;
    lemma_part_of_columns(i, columns, column);
}

/// Draws one cell of a row.
fn draw_cell(
    commands: &mut Vec<DrawCommand>,
    x: i32,
    y: i32,
    text_width: i32,
    cell: RowCell,
    columns: i32,
    style: RowStyle,
    dpi: u32,
)
    requires
        0 <= x <= 500_000_000,
        -400_000_000 <= y <= 400_000_000,
        0 <= text_width <= MAX_EXTENT,
        1 <= columns <= MAX_FAMILIES,
        dpi <= MAX_DPI,
    ensures
        drawn(final(commands)@) == drawn(old(commands)@) + cell_drawn(
            x as int,
            y as int,
            text_width as int,
            cell@,
            columns as int,
            style,
            dpi as int,
        ),
{
    broadcast use scaled_design_length_bounds;

    reveal(cell_drawn);
    let segment_count: i32 = row_bar_segment_count(columns);
    let color: Color = if cell.is_warning {
        style.warning
    } else if columns > 1 {
        cell.provider_text_color
    } else {
        style.text
    };
    let bar_style: BarStyle = BarStyle {
        accent: cell.accent,
        track: style.track,
        text: color,
        outline: style.outline,
    };
    draw_usage_bar(
        commands,
        x,
        y,
        segment_count,
        text_width,
        cell.percent,
        cell.text,
        bar_style,
        dpi,
    );
}

/// Draws a row.
#[verifier::spinoff_prover]
pub fn draw_row(
    commands: &mut Vec<DrawCommand>,
    client_width: i32,
    x: i32,
    y: i32,
    label: &str,
    cells: &Vec<RowCell>,
    style: RowStyle,
    dpi: u32,
)
    requires
        0 <= client_width <= MAX_EXTENT,
        0 <= x <= MAX_EXTENT,
        -400_000_000 <= y <= 400_000_000,
        cells.len() <= MAX_FAMILIES,
        dpi <= MAX_DPI,
    ensures
        drawn(final(commands)@) == drawn(old(commands)@) + row_drawn(
            client_width,
            x as int,
            y as int,
            label@,
            cells_view(cells@),
            style,
            dpi,
        ),
{
    broadcast use scaled_design_length_bounds;

    let ghost before = drawn(commands@);
    let ghost views = cells_view(cells@);
    let columns: i32 = if cells.len() == 0 {
        1
    } else {
        cells.len() as i32
    };
    let segment_count: i32 = row_bar_segment_count(columns);
    let column: i32 = provider_column_width_for_client_at_dpi(client_width, columns, dpi);
    proof {
        column_fits_client(client_width, columns, dpi);
        columns_fit_client(client_width, columns, dpi);
        assert(0 <= bar_width_device(segment_count as int, effective_dpi(dpi)) <= 1_500_000) by {
            let pitch = scaled(10, effective_dpi(dpi)) + scaled(1, effective_dpi(dpi));
            assert(pitch <= pitch * segment_count <= 10 * 114_587) by (nonlinear_arith)
                requires
                    1 <= segment_count <= 10,
                    0 <= pitch <= 114_587,
            ;
        }
    }
    let left_over: i32 = column - usage_bar_device_width(segment_count, dpi);
    let text_width: i32 = if left_over >= 0 {
        left_over
    } else {
        0
    };
    let label_rect: Rect = rect_with_size(x, y, sc(LABEL_WIDTH, dpi), sc(SEGMENT_H, dpi));
    put_text(commands, label, label_rect, style.text, TextAlign::Left);
    let ghost labelled = drawn(commands@);
    let step: i32 = column + sc(MODEL_RIGHT_MARGIN, dpi);
    let mut model_x: i32 = x + sc(LABEL_WIDTH, dpi) + sc(LABEL_RIGHT_MARGIN, dpi);
    let mut i: usize = 0;
    assert(labelled =~= labelled + cells_drawn(
        client_width,
        x as int,
        y as int,
        views,
        0,
        style,
        dpi,
    ));
    while i < cells.len()
        invariant
            i <= cells.len() <= columns <= MAX_FAMILIES,
            0 <= client_width <= MAX_EXTENT,
            0 <= x <= MAX_EXTENT,
            -400_000_000 <= y <= 400_000_000,
            dpi <= MAX_DPI,
            views == cells_view(cells@),
            columns == column_count(cells.len() as int),
            segment_count == row_bar_segment_count(columns),
            column == column_width(client_width, columns, dpi),
            0 <= column <= client_width,
            text_width == larger(
                column - bar_width_device(segment_count as int, effective_dpi(dpi)),
                0,
            ),
            0 <= text_width <= client_width,
            step == column + scaled(3, dpi as int),
            0 <= step <= client_width + 31_251,
            model_x == column_x(x as int, i as int, column as int, dpi as int),
            columns * column <= client_width,
            drawn(commands@) == labelled + cells_drawn(
                client_width,
                x as int,
                y as int,
                views,
                i as nat,
                style,
                dpi,
            ),
        decreases cells.len() - i,
    {
        let cell: RowCell = cells[i];
        assert(views[i as int] == cell@);
        proof {
            lemma_next_column(x as int, i as int, columns as int, column as int, dpi as int);
            appended_twice(
                labelled,
                cells_drawn(client_width, x as int, y as int, views, i as nat, style, dpi),
                cell_drawn(
                    model_x as int,
                    y as int,
                    text_width as int,
                    cell@,
                    columns as int,
                    style,
                    dpi as int,
                ),
            );
        }
        draw_cell(commands, model_x, y, text_width, cell, columns, style, dpi);
        model_x += step;
        i += 1;
    }
    assert(drawn(commands@) =~= before + row_drawn(
        client_width,
        x as int,
        y as int,
        label@,
        views,
        style,
        dpi,
    ));
}

// ---- laws -----------------------------------------------------------------------------

/// Pixels of a segment that are filled.
pub open spec fn filled_pixels(fill: SegmentFill, segment_width: int) -> int {
    match fill {
        SegmentFill::Full => segment_width,
        SegmentFill::Empty => 0,
        SegmentFill::Partial(width) => width as int,
    }
}

/// A larger value never fills less of a segment.
pub proof fn bar_grows_with_the_value(a: i64, b: i64, i: int, n: int, segment_width: int)
    requires
        a <= b,
        0 <= i < n,
        0 <= segment_width <= i32::MAX,
    ensures
        filled_pixels(segment_fill(Quantity::Finite(a), i, n, segment_width), segment_width)
            <= filled_pixels(
            segment_fill(Quantity::Finite(b), i, n, segment_width),
            segment_width,
        ),
{
    let p = Quantity::Finite(a).clamp_percent()->Finite_0 as int;
    let q = Quantity::Finite(b).clamp_percent()->Finite_0 as int;
    assert(p * n <= q * n) by (nonlinear_arith)
        requires
            p <= q,
            0 <= n,
    ;
    let x = p * n - i * FULL_PERCENT;
    let y = q * n - i * FULL_PERCENT;
    if x > 0 {
        assert(0 <= x * segment_width <= y * segment_width) by (nonlinear_arith)
            requires
                0 <= x <= y,
                0 <= segment_width,
        ;
        assert(y <= FULL_PERCENT ==> y * segment_width <= FULL_PERCENT * segment_width)
            by (nonlinear_arith)
            requires
                0 <= segment_width,
        ;
        assert(x <= FULL_PERCENT ==> x * segment_width <= FULL_PERCENT * segment_width)
            by (nonlinear_arith)
            requires
                0 <= segment_width,
        ;
    } else if y > 0 {
        assert(0 <= y * segment_width) by (nonlinear_arith)
            requires
                0 <= y,
                0 <= segment_width,
        ;
        assert(y <= FULL_PERCENT ==> y * segment_width <= FULL_PERCENT * segment_width)
            by (nonlinear_arith)
            requires
                0 <= segment_width,
        ;
    }
}

/// A bar fills from the left: whatever is right of a segment that is not full is
/// empty.
pub proof fn bar_fills_from_the_left(value: i64, i: int, j: int, n: int, segment_width: int)
    requires
        0 <= i < j < n,
        !(segment_fill(Quantity::Finite(value), i, n, segment_width) is Full),
    ensures
        segment_fill(Quantity::Finite(value), j, n, segment_width) is Empty,
{
}

/// A hundred percent and more fills every segment, nothing or less fills none.
pub proof fn ends_of_the_bar(value: i64, i: int, n: int, segment_width: int)
    requires
        0 <= i < n,
    ensures
        value >= FULL_PERCENT ==> segment_fill(
            Quantity::Finite(value),
            i,
            n,
            segment_width,
        ) is Full,
        value <= 0 ==> segment_fill(Quantity::Finite(value), i, n, segment_width) is Empty,
{
    assert(FULL_PERCENT * n >= (i + 1) * FULL_PERCENT) by (nonlinear_arith)
        requires
            i + 1 <= n,
    ;
    assert(0 * n <= i * FULL_PERCENT) by (nonlinear_arith)
        requires
            0 <= i,
    ;
}

/// The outline of a segment and its fill never share a pixel.
pub proof fn outline_never_touches_the_fill(
    x: int,
    y: int,
    fill: SegmentFill,
    style: BarStyle,
    dpi: int,
    a: int,
    b: int,
)
    requires
        is_coordinate(x as i32) && x == x as i32,
        0 <= dpi <= MAX_DPI,
        fill matches SegmentFill::Partial(width) ==> 0 <= width <= scaled(10, dpi),
        0 <= a < segment_drawn(x, y, fill, style, dpi).len(),
        0 <= b < segment_drawn(x, y, fill, style, dpi).len(),
    ensures
        (match (
            segment_drawn(x, y, fill, style, dpi)[a],
            segment_drawn(x, y, fill, style, dpi)[b],
        ) {
            (DrawView::FillWithin { rect, .. }, DrawView::Outline { clip, .. }) => match clip {
                Some(clip) => rect.right <= clip.left,
                None => false,
            },
            (DrawView::FillShape { color, .. }, DrawView::Outline { .. }) => color == style.track,
            _ => true,
        }),
{
    broadcast use scaled_design_length_bounds;

}

/// A cell without a value draws no bar.
pub proof fn no_value_draws_no_bar(
    bar_x: int,
    y: int,
    n: int,
    text_width: int,
    text: Seq<char>,
    style: BarStyle,
    dpi: int,
    i: int,
)
    requires
        0 <= i < bar_drawn(bar_x, y, n, text_width, None, text, style, dpi).len(),
    ensures
        bar_drawn(bar_x, y, n, text_width, None, text, style, dpi)[i] is Text,
{
}

/// A segment stands for an equal share of a hundred percent: it is full where the value
/// reaches its end, empty where the value does not pass its beginning, and else filled in
/// proportion to what lies in it, to the pixel below.
pub proof fn segment_holds_its_share_of_the_value(value: i64, i: int, n: int, segment_width: int)
    requires
        0 <= value <= 100_000_000,
        0 <= i < n,
        0 <= segment_width <= i32::MAX,
    ensures
        ({
            let fill = segment_fill(Quantity::Finite(value), i, n, segment_width);
            let beyond = value * n - i * 100_000_000;
            &&& fill is Full <==> beyond >= 100_000_000
            &&& fill is Empty <==> beyond <= 0
            &&& fill matches SegmentFill::Partial(width) ==> 0 <= width <= segment_width && width
                * 100_000_000 <= beyond * segment_width < (width + 1) * 100_000_000
        }),
{
    let beyond = value * n - i * 100_000_000;
    assert((i + 1) * 100_000_000 == i * 100_000_000 + 100_000_000);
    if 0 < beyond < 100_000_000 {
        assert(0 <= beyond * segment_width <= 100_000_000 * segment_width) by (nonlinear_arith)
            requires
                0 <= beyond <= 100_000_000,
                0 <= segment_width,
        ;
    }
}

/// Only what is filled has the accent color: a full segment all of it, a partly filled one
/// just its filled pixels, an empty one nothing.
pub proof fn accent_covers_what_is_filled(
    x: int,
    y: int,
    fill: SegmentFill,
    style: BarStyle,
    dpi: int,
)
    ensures
        ({
            let steps = segment_drawn(x, y, fill, style, dpi);
            let shape = rect_at(x, y, scaled(10, dpi), scaled(13, dpi));
            match fill {
                SegmentFill::Full => steps.len() == 1 && (steps[0]
                    matches DrawView::FillShape { shape: s, color, .. } && s == shape && color
                    == style.accent),
                SegmentFill::Empty => steps.len() >= 1 && (steps[0]
                    matches DrawView::FillShape { shape: s, color, .. } && s == shape && color
                    == style.track) && (forall|i: int|
                    1 <= i < steps.len() ==> #[trigger] steps[i] is Outline),
                SegmentFill::Partial(width) => steps.len() >= 1 && (steps[0]
                    matches DrawView::FillShape { shape: s, color, .. } && s == shape && color
                    == style.track) && (width > 0 ==> steps.len() >= 2 && (steps[1]
                    matches DrawView::FillWithin { shape: s, rect, color, .. } && s == shape && rect
                    == rect_at(x, y, width as int, scaled(13, dpi)) && color == style.accent)) && (
                width <= 0 ==> forall|i: int|
                    1 <= i < steps.len() ==> #[trigger] steps[i] is Outline),
            }
        }),
{
}

// ---- what is among the steps -------------------------------------------------------------

/// Whether every step of a part is among all steps.
pub open spec fn is_among(part: Seq<DrawView>, all: Seq<DrawView>) -> bool {
    forall|i: int| 0 <= i < part.len() ==> #[trigger] all.contains(part[i])
}

pub(crate) proof fn lemma_joined(a: Seq<DrawView>, b: Seq<DrawView>)
    ensures
        is_among(a, a + b),
        is_among(b, a + b),
{
    let all = a + b;
    assert forall|i: int| 0 <= i < a.len() implies #[trigger] all.contains(a[i]) by {
        assert(all[i] == a[i]);
    }
    assert forall|i: int| 0 <= i < b.len() implies #[trigger] all.contains(b[i]) by {
        assert(all[a.len() + i] == b[i]);
    }
}

pub(crate) proof fn lemma_among_more(
    part: Seq<DrawView>,
    some: Seq<DrawView>,
    all: Seq<DrawView>,
)
    requires
        is_among(part, some),
        is_among(some, all),
    ensures
        is_among(part, all),
{
    assert forall|i: int| 0 <= i < part.len() implies #[trigger] all.contains(part[i]) by {
        assert(some.contains(part[i]));
        let j = choose|j: int| 0 <= j < some.len() && some[j] == part[i];
        assert(all.contains(some[j]));
    }
}

/// The texts that some steps write, in order.
pub open spec fn texts_of(steps: Seq<DrawView>) -> Seq<Seq<char>>
    decreases steps.len(),
{
    if steps.len() == 0 {
        Seq::empty()
    } else {
        match steps.last() {
            DrawView::Text { text, .. } => texts_of(steps.drop_last()).push(text),
            _ => texts_of(steps.drop_last()),
        }
    }
}

pub(crate) proof fn lemma_texts_joined(a: Seq<DrawView>, b: Seq<DrawView>)
    ensures
        texts_of(a + b) == texts_of(a) + texts_of(b),
    decreases b.len(),
{
    if b.len() == 0 {
        assert(a + b =~= a);
        assert(texts_of(a) + texts_of(b) =~= texts_of(a));
    } else {
        assert((a + b).drop_last() =~= a + b.drop_last());
        assert((a + b).last() == b.last());
        lemma_texts_joined(a, b.drop_last());
        assert(texts_of(a + b) =~= texts_of(a) + texts_of(b));
    }
}

pub(crate) proof fn lemma_no_texts(steps: Seq<DrawView>)
    requires
        forall|i: int| 0 <= i < steps.len() ==> !(#[trigger] steps[i] is Text),
    ensures
        texts_of(steps) == Seq::<Seq<char>>::empty(),
    decreases steps.len(),
{
    if steps.len() > 0 {
        assert(!(steps[steps.len() - 1] is Text));
        assert forall|i: int| 0 <= i < steps.drop_last().len() implies !(
        #[trigger] steps.drop_last()[i] is Text) by {
            assert(steps.drop_last()[i] == steps[i]);
        }
        lemma_no_texts(steps.drop_last());
    }
}

pub(crate) proof fn lemma_one_text(text: Seq<char>, rect: Rect, color: Color, align: TextAlign)
    ensures
        texts_of(seq![DrawView::Text { text, rect, color, align }]) == seq![text],
{
    let steps = seq![DrawView::Text { text, rect, color, align }];
    assert(steps.drop_last() =~= Seq::empty());
    assert(texts_of(steps.drop_last()) =~= Seq::empty());
    assert(texts_of(steps) =~= seq![text]);
}

proof fn lemma_segments_write_nothing(
    bar_x: int,
    y: int,
    k: nat,
    n: int,
    percent: Quantity,
    style: BarStyle,
    dpi: int,
)
    ensures
        texts_of(segments_drawn(bar_x, y, k, n, percent, style, dpi)) == Seq::<Seq<char>>::empty(),
    decreases k,
{
    if k > 0 {
        lemma_segments_write_nothing(bar_x, y, (k - 1) as nat, n, percent, style, dpi);
        let fill = segment_fill(percent, k - 1, n, scaled(10, dpi));
        let last = segment_drawn(segment_x(bar_x, k - 1, dpi), y, fill, style, dpi);
        lemma_no_texts(last);
        lemma_texts_joined(
            segments_drawn(bar_x, y, (k - 1) as nat, n, percent, style, dpi),
            last,
        );
        assert(Seq::<Seq<char>>::empty() + Seq::<Seq<char>>::empty() =~= Seq::empty());
    }
}

/// A bar cell writes its text and no other, and none where it has none.
pub proof fn bar_writes_its_text(
    bar_x: int,
    y: int,
    n: int,
    text_width: int,
    percent: Option<Quantity>,
    text: Seq<char>,
    style: BarStyle,
    dpi: int,
)
    ensures
        texts_of(bar_drawn(bar_x, y, n, text_width, percent, text, style, dpi)) == if text.len()
            > 0 {
            seq![text]
        } else {
            Seq::empty()
        },
{
    let bar = match percent {
        Some(p) => segments_drawn(bar_x, y, larger(n, 0) as nat, n, p, style, dpi),
        None => Seq::empty(),
    };
    match percent {
        Some(p) => {
            lemma_segments_write_nothing(bar_x, y, larger(n, 0) as nat, n, p, style, dpi);
        },
        None => {},
    }
    let rect = rect_at(
        segment_x(bar_x, n, dpi) - scaled(1, dpi) + scaled(4, dpi),
        y,
        text_width,
        scaled(13, dpi),
    );
    let words: Seq<DrawView> = if text.len() > 0 {
        seq![
            DrawView::Text { text, rect, color: style.text, align: TextAlign::LeftEllipsis },
        ]
    } else {
        Seq::empty()
    };
    assert(bar_drawn(bar_x, y, n, text_width, percent, text, style, dpi) == bar + words);
    lemma_texts_joined(bar, words);
    lemma_one_text(text, rect, style.text, TextAlign::LeftEllipsis);
    assert(texts_of(bar) + texts_of(words) =~= texts_of(words));
}

/// The texts that the first `k` cells have, in order.
pub open spec fn cell_texts(cells: Seq<RowCellView>, k: nat) -> Seq<Seq<char>>
    decreases k,
{
    if k == 0 {
        Seq::empty()
    } else if cells[k - 1].text.len() > 0 {
        cell_texts(cells, (k - 1) as nat).push(cells[k - 1].text)
    } else {
        cell_texts(cells, (k - 1) as nat)
    }
}

proof fn lemma_cells_write_their_texts(
    client_width: i32,
    x: int,
    y: int,
    cells: Seq<RowCellView>,
    k: nat,
    style: RowStyle,
    dpi: u32,
)
    ensures
        texts_of(cells_drawn(client_width, x, y, cells, k, style, dpi)) == cell_texts(cells, k),
    decreases k,
{
    if k > 0 {
        lemma_cells_write_their_texts(client_width, x, y, cells, (k - 1) as nat, style, dpi);
        reveal(cell_drawn);
        let columns = column_count(cells.len() as int);
        let n = row_bar_segment_count(columns as i32) as int;
        let column = column_width(client_width, columns as i32, dpi);
        let at = column_x(x, k - 1, column, dpi as int);
        let width = larger(column - bar_width_device(n, effective_dpi(dpi)), 0);
        let cell = cells[k - 1];
        lemma_texts_joined(
            cells_drawn(client_width, x, y, cells, (k - 1) as nat, style, dpi),
            cell_drawn(at, y, width, cell, columns, style, dpi as int),
        );
        bar_writes_its_text(
            at,
            y,
            n,
            width,
            cell.percent,
            cell.text,
            BarStyle {
                accent: cell.accent,
                track: style.track,
                text: value_color(cell, columns, style),
                outline: style.outline,
            },
            dpi as int,
        );
        assert(texts_of(cells_drawn(client_width, x, y, cells, k, style, dpi)) =~= cell_texts(
            cells,
            k,
        ));
    }
}

/// A row writes its label and then the texts of its cells, in their order.
pub proof fn row_writes_its_label_and_its_cells(
    client_width: i32,
    x: int,
    y: int,
    label: Seq<char>,
    cells: Seq<RowCellView>,
    style: RowStyle,
    dpi: u32,
)
    ensures
        texts_of(row_drawn(client_width, x, y, label, cells, style, dpi)) == seq![label]
            + cell_texts(cells, cells.len()),
{
    let rect = rect_at(x, y, scaled(18, dpi as int), scaled(13, dpi as int));
    lemma_one_text(label, rect, style.text, TextAlign::Left);
    lemma_texts_joined(
        seq![
            DrawView::Text { text: label, rect, color: style.text, align: TextAlign::Left },
        ],
        cells_drawn(client_width, x, y, cells, cells.len(), style, dpi),
    );
    lemma_cells_write_their_texts(client_width, x, y, cells, cells.len(), style, dpi);
}

proof fn lemma_cell_is_among_cells(
    client_width: i32,
    x: int,
    y: int,
    cells: Seq<RowCellView>,
    k: nat,
    style: RowStyle,
    dpi: u32,
    i: int,
)
    requires
        0 <= i < k,
    ensures
        ({
            let columns = column_count(cells.len() as int);
            let n = row_bar_segment_count(columns as i32) as int;
            let column = column_width(client_width, columns as i32, dpi);
            is_among(
                cell_drawn(
                    column_x(x, i, column, dpi as int),
                    y,
                    larger(column - bar_width_device(n, effective_dpi(dpi)), 0),
                    cells[i],
                    columns,
                    style,
                    dpi as int,
                ),
                cells_drawn(client_width, x, y, cells, k, style, dpi),
            )
        }),
    decreases k,
{
    let columns = column_count(cells.len() as int);
    let n = row_bar_segment_count(columns as i32) as int;
    let column = column_width(client_width, columns as i32, dpi);
    let width = larger(column - bar_width_device(n, effective_dpi(dpi)), 0);
    let before = cells_drawn(client_width, x, y, cells, (k - 1) as nat, style, dpi);
    let last = cell_drawn(
        column_x(x, k - 1, column, dpi as int),
        y,
        width,
        cells[k - 1],
        columns,
        style,
        dpi as int,
    );
    lemma_joined(before, last);
    if i < k - 1 {
        lemma_cell_is_among_cells(client_width, x, y, cells, (k - 1) as nat, style, dpi, i);
        lemma_among_more(
            cell_drawn(
                column_x(x, i, column, dpi as int),
                y,
                width,
                cells[i],
                columns,
                style,
                dpi as int,
            ),
            before,
            before + last,
        );
    }
}

/// Where the text of a column's cell stands: beside the bar, in what is left of the
/// column.
pub open spec fn value_rect(x: int, y: int, column: int, columns: int, dpi: u32) -> Rect {
    let n = row_bar_segment_count(columns as i32) as int;
    rect_at(
        x + n * (scaled(10, dpi as int) + scaled(1, dpi as int)) - scaled(1, dpi as int) + scaled(
            4,
            dpi as int,
        ),
        y,
        larger(column - bar_width_device(n, effective_dpi(dpi)), 0),
        scaled(13, dpi as int),
    )
}

/// Each cell of a row is drawn in the column of its own place: its text, where it has one,
/// beside its bar, which it has exactly where it has a value, in its own accent color.
pub proof fn every_cell_is_drawn_in_its_column(
    client_width: i32,
    x: int,
    y: int,
    label: Seq<char>,
    cells: Seq<RowCellView>,
    style: RowStyle,
    dpi: u32,
    i: int,
)
    requires
        0 <= i < cells.len(),
    ensures
        ({
            let row = row_drawn(client_width, x, y, label, cells, style, dpi);
            let columns = cells.len() as int;
            let column = column_width(client_width, columns as i32, dpi);
            let at = column_x(x, i, column, dpi as int);
            let n = row_bar_segment_count(columns as i32) as int;
            let cell = cells[i];
            let bar_style = BarStyle {
                accent: cell.accent,
                track: style.track,
                text: value_color(cell, columns, style),
                outline: style.outline,
            };
            &&& cell.text.len() > 0 ==> row.contains(
                DrawView::Text {
                    text: cell.text,
                    rect: value_rect(at, y, column, columns, dpi),
                    color: value_color(cell, columns, style),
                    align: TextAlign::LeftEllipsis,
                },
            )
            &&& cell.percent matches Some(p) ==> is_among(
                segments_drawn(at, y, n as nat, n, p, bar_style, dpi as int),
                row,
            )
        }),
{
    let row = row_drawn(client_width, x, y, label, cells, style, dpi);
    let columns = cells.len() as int;
    let column = column_width(client_width, columns as i32, dpi);
    let at = column_x(x, i, column, dpi as int);
    let n = row_bar_segment_count(columns as i32) as int;
    let cell = cells[i];
    let width = larger(column - bar_width_device(n, effective_dpi(dpi)), 0);
    let all = cells_drawn(client_width, x, y, cells, cells.len(), style, dpi);
    let name = seq![
        DrawView::Text {
            text: label,
            rect: rect_at(x, y, scaled(18, dpi as int), scaled(13, dpi as int)),
            color: style.text,
            align: TextAlign::Left,
        },
    ];
    lemma_joined(name, all);
    lemma_cell_is_among_cells(client_width, x, y, cells, cells.len(), style, dpi, i);
    let own = cell_drawn(at, y, width, cell, columns, style, dpi as int);
    lemma_among_more(own, all, row);
    reveal(cell_drawn);
    let bar_style = BarStyle {
        accent: cell.accent,
        track: style.track,
        text: value_color(cell, columns, style),
        outline: style.outline,
    };
    let bar = match cell.percent {
        Some(p) => segments_drawn(at, y, larger(n, 0) as nat, n, p, bar_style, dpi as int),
        None => Seq::empty(),
    };
    if cell.text.len() > 0 {
        assert(own[bar.len() as int] == own.last());
        assert(row.contains(own[own.len() - 1]));
    }
    match cell.percent {
        Some(p) => {
            let words = own.skip(bar.len() as int);
            assert(own =~= bar + words);
            lemma_joined(bar, words);
            lemma_among_more(bar, own, row);
        },
        None => {},
    }
}

/// Every segment of a bar is drawn, filled with its own share, in its own place: each one
/// a gap to the right of the one before, the first at the bar's left edge.
pub proof fn every_segment_is_drawn_in_its_place(
    bar_x: int,
    y: int,
    k: nat,
    n: int,
    percent: Quantity,
    style: BarStyle,
    dpi: int,
    i: int,
)
    requires
        0 <= i < k,
    ensures
        is_among(
            segment_drawn(
                bar_x + i * (scaled(10, dpi) + scaled(1, dpi)),
                y,
                segment_fill(percent, i, n, scaled(10, dpi)),
                style,
                dpi,
            ),
            segments_drawn(bar_x, y, k, n, percent, style, dpi),
        ),
    decreases k,
{
    let before = segments_drawn(bar_x, y, (k - 1) as nat, n, percent, style, dpi);
    let last = segment_drawn(
        segment_x(bar_x, k - 1, dpi),
        y,
        segment_fill(percent, k - 1, n, scaled(10, dpi)),
        style,
        dpi,
    );
    assert(segments_drawn(bar_x, y, k, n, percent, style, dpi) == before + last);
    lemma_joined(before, last);
    if i < k - 1 {
        every_segment_is_drawn_in_its_place(
            bar_x,
            y,
            (k - 1) as nat,
            n,
            percent,
            style,
            dpi,
            i,
        );
        lemma_among_more(
            segment_drawn(
                bar_x + i * (scaled(10, dpi) + scaled(1, dpi)),
                y,
                segment_fill(percent, i, n, scaled(10, dpi)),
                style,
                dpi,
            ),
            before,
            before + last,
        );
    }
}

} // verus!
