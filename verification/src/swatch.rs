//! The layout of the swatch: a picture that lists every colour label in its
//! own colour, one label to a row.
//!
//! Lengths are kept in tenths of a pixel, so that the font's width of 26.8
//! and the half padding of 7.5 are whole numbers, and are rounded up to
//! whole pixels at the end.

use vstd::prelude::*;
use crate::roles::ColorMap;

verus! {

/// The widest label, in characters, that the swatch has room for.
pub const COLOR_ROLE_NAME_MAX_WIDTH: u32 = 20;

/// The width of the font's scale: 26.8 pixels.
pub const FONT_WIDTH_TENTHS: u32 = 268;

/// The height of the font's scale: 31.0 pixels.
pub const FONT_HEIGHT_TENTHS: u32 = 310;

/// The padding below the first row: 15.0 pixels. Every later row gets half.
pub const PADDING_TENTHS: u32 = 150;

/// The most rows a swatch can have: with more, its height in pixels would
/// not fit in 32 bits.
pub const MAX_ROWS: usize = 93_368_854;

/// Why no swatch was laid out.
#[derive(Clone, Copy, Debug, PartialEq, Eq, Structural)]
pub enum SwatchError {
    /// There is no colour to show.
    NothingToRender,
    /// There are more than [`MAX_ROWS`] colours.
    TooManyRows,
}

/// A colour as its red, green and blue bytes.
#[derive(Clone, Copy, Debug, PartialEq, Eq, Structural)]
pub struct Rgb {
    pub red: u8,
    pub green: u8,
    pub blue: u8,
}

/// One label of the swatch: its text, its colour and where its text begins.
#[derive(Clone, Debug, PartialEq, Eq)]
pub struct SwatchRow {
    pub label: String,
    pub colour: Rgb,
    pub x: u32,
    pub y: u32,
}

/// A swatch ready to be drawn: the canvas and its rows, top to bottom.
#[derive(Clone, Debug, PartialEq, Eq)]
pub struct SwatchPlan {
    pub width: u32,
    pub height: u32,
    /// The colour the canvas is filled with.
    pub background: Rgb,
    pub rows: Vec<SwatchRow>,
    /// Where the picture is written, in place of what was there.
    pub path: String,
}

/// Tenths of a pixel rounded up to whole pixels.
pub open spec fn ceil_tenths(tenths: int) -> int {
    (tenths + 9) / 10
}

/// The width of the canvas: the font's width times the widest label.
pub open spec fn canvas_width() -> int {
    ceil_tenths(FONT_WIDTH_TENTHS * COLOR_ROLE_NAME_MAX_WIDTH)
}

/// The height of a canvas of `rows` rows: each takes the font's height and
/// the full padding.
pub open spec fn canvas_height(rows: int) -> int {
    ceil_tenths((FONT_HEIGHT_TENTHS + PADDING_TENTHS) * rows)
}

/// Where row `i` begins, in tenths of a pixel: below the rows before it,
/// of which the first is followed by the full padding and every other by
/// half of it.
pub open spec fn row_top_tenths(i: int) -> int {
    if i <= 0 {
        0
    } else {
        (FONT_HEIGHT_TENTHS + PADDING_TENTHS) + (i - 1) * (FONT_HEIGHT_TENTHS + PADDING_TENTHS / 2)
    }
}

/// The pixel row at which the text of row `i` begins.
pub open spec fn row_y(i: int) -> int {
    ceil_tenths(row_top_tenths(i))
}

/// The red, green and blue bytes of a colour value `0xRRGGBB`.
pub open spec fn rgb_of(colour: u32) -> Rgb {
    Rgb {
        red: ((colour >> 16) & 255) as u8,
        green: ((colour >> 8) & 255) as u8,
        blue: (colour & 255) as u8,
    }
}

/// The colour the canvas is filled with: a dark slate.
pub open spec fn background() -> Rgb {
    Rgb { red: 54, green: 57, blue: 63 }
}

/// Whether `row` shows `label` in `colour` as row `i`.
pub open spec fn row_shows(row: SwatchRow, label: Seq<char>, colour: u32, i: int) -> bool {
    &&& row.label@ == label
    &&& row.colour == rgb_of(colour)
    &&& row.x == 0
    &&& row.y == row_y(i)
}

/// The file the swatch is written to.
pub open spec fn output_path() -> Seq<char> {
    "uploads\\color-preview.png"@
}

/// Whether `plan` is the swatch of `labels`, top to bottom, each in the
/// colour that `colours` has for it.
pub open spec fn plan_shows(
    plan: SwatchPlan,
    labels: Seq<Seq<char>>,
    colours: Map<Seq<char>, u32>,
) -> bool {
    &&& plan.width == canvas_width()
    &&& plan.height == canvas_height(labels.len() as int)
    &&& plan.background == background()
    &&& plan.path@ == output_path()
    &&& plan.rows@.len() == labels.len()
    &&& forall|i: int|
        0 <= i < labels.len() ==> row_shows(#[trigger] plan.rows@[i], labels[i], colours[labels[i]], i)
}

/// The canvas is 536 pixels wide and 46 pixels high for each row.
pub proof fn lemma_canvas_size(rows: int)
    ensures
        canvas_width() == 536,
        canvas_height(rows) == 46 * rows,
{
}

/// Every row of a swatch lies within the canvas, and below the row before
/// it by at least the font's height.
pub proof fn lemma_rows_fit(rows: int, i: int)
    requires
        0 <= i < rows,
    ensures
        row_y(i) + 31 <= canvas_height(rows),
        i > 0 ==> row_y(i - 1) + 31 <= row_y(i),
{
    assert(canvas_height(rows) == 46 * rows);
    if i > 0 {
        assert(row_top_tenths(i) == 460 + (i - 1) * 385);
        if i > 1 {
            assert(row_top_tenths(i - 1) == 460 + (i - 2) * 385);
        }
    }
}

/// Splits a colour value `0xRRGGBB` into its red, green and blue bytes;
/// bits above the 24th are left out.
pub fn colour_channels(colour: u32) -> (rgb: Rgb)
    ensures
        rgb == rgb_of(colour),
{
    assert(((colour >> 16) & 255) < 256 && ((colour >> 8) & 255) < 256 && (colour & 255) < 256)
        by (bit_vector);
    Rgb {
        red: ((colour >> 16) & 255) as u8,
        green: ((colour >> 8) & 255) as u8,
        blue: (colour & 255) as u8,
    }
}

fn row_offset(i: usize) -> (y: u32)
    requires
        i < MAX_ROWS,
    ensures
        y == row_y(i as int),
{
    if i == 0 {
        0
    } else {
        let tenths: u64 = 460 + (i as u64 - 1) * 385;
        ((tenths + 9) / 10) as u32
    }
}

/// Lays out the swatch of `colors`: a canvas of 536 pixels by 46 for each
/// label, and one row for each label, in the order of the map's labels, in
/// the label's own colour.
pub fn generate_preview_of_color_roles(colors: &ColorMap) -> (result: Result<
    SwatchPlan,
    SwatchError,
>)
    requires
        colors.wf(),
    ensures
        colors.labels().len() == 0 ==> result == Err::<SwatchPlan, SwatchError>(
            SwatchError::NothingToRender,
        ),
        colors.labels().len() > MAX_ROWS ==> result == Err::<SwatchPlan, SwatchError>(
            SwatchError::TooManyRows,
        ),
        0 < colors.labels().len() <= MAX_ROWS ==> result is Ok && plan_shows(
            result->Ok_0,
            colors.labels(),
            colors@,
        ),
{
    let n = colors.len();
    if n == 0 {
        return Err(SwatchError::NothingToRender);
    }
    if n > MAX_ROWS {
        return Err(SwatchError::TooManyRows);
    }
    let mut rows: Vec<SwatchRow> = Vec::new();
    let mut i: usize = 0;
    while i < n
        invariant
            i <= n <= MAX_ROWS,
            colors.wf(),
            n == colors.labels().len(),
            rows@.len() == i,
            forall|k: int|
                0 <= k < i ==> row_shows(
                    #[trigger] rows@[k],
                    colors.labels()[k],
                    colors@[colors.labels()[k]],
                    k,
                ),
        decreases n - i,
    {
        let entry = colors.row(i);
        rows.push(
            SwatchRow {
                label: entry.label.clone(),
                colour: colour_channels(entry.colour),
                x: 0,
                y: row_offset(i),
            },
        );
        i += 1;
    }
    Ok(
        SwatchPlan {
            width: 536,
            height: 46 * (n as u32),
            background: Rgb { red: 54, green: 57, blue: 63 },
            rows,
            path: String::from_str("uploads\\color-preview.png"),
        },
    )
}

} // verus!
