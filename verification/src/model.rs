//! Drawing tools, their names, hotkeys and glyphs, and the colour palette.

use vstd::prelude::*;

verus! {

/// A drawing tool of the overlay.
#[derive(Debug, Clone, Copy, PartialEq, Eq, Structural)]
pub enum Tool {
    Pen,
    Highlighter,
    Line,
    Arrow,
    Rect,
    Ellipse,
    Text,
    Eraser,
    Laser,
}

/// The name shown for a tool.
pub open spec fn tool_label(t: Tool) -> Seq<char> {
    match t {
        Tool::Pen => "Pen"@,
        Tool::Highlighter => "Highlighter"@,
        Tool::Line => "Line"@,
        Tool::Arrow => "Arrow"@,
        Tool::Rect => "Rectangle"@,
        Tool::Ellipse => "Ellipse"@,
        Tool::Text => "Text"@,
        Tool::Eraser => "Eraser"@,
        Tool::Laser => "Laser"@,
    }
}

/// The letter of the key that selects a tool.
pub open spec fn tool_hotkey(t: Tool) -> Seq<char> {
    match t {
        Tool::Pen => "P"@,
        Tool::Highlighter => "H"@,
        Tool::Line => "N"@,
        Tool::Arrow => "A"@,
        Tool::Rect => "R"@,
        Tool::Ellipse => "O"@,
        Tool::Text => "T"@,
        Tool::Eraser => "E"@,
        Tool::Laser => "L"@,
    }
}

/// The Phosphor glyph (a private-use code point) drawn on a tool's button.
pub open spec fn tool_icon(t: Tool) -> Seq<char> {
    match t {
        Tool::Pen => seq!['\u{E3B4}'],
        Tool::Highlighter => seq!['\u{EC76}'],
        Tool::Line => seq!['\u{E6D2}'],
        Tool::Arrow => seq!['\u{E092}'],
        Tool::Rect => seq!['\u{E3F0}'],
        Tool::Ellipse => seq!['\u{E18A}'],
        Tool::Text => seq!['\u{E48A}'],
        Tool::Eraser => seq!['\u{E21E}'],
        Tool::Laser => seq!['\u{ECDE}'],
    }
}

/// Reads `egui_phosphor::regular::PENCIL_SIMPLE`, which the crate defines as U+E3B4.
#[verifier::external_body]
fn glyph_pencil_simple() -> (r: &'static str)
    ensures
        r@ == seq!['\u{E3B4}'],
{
    egui_phosphor::regular::PENCIL_SIMPLE
}

/// Reads `egui_phosphor::regular::HIGHLIGHTER`, which the crate defines as U+EC76.
#[verifier::external_body]
fn glyph_highlighter() -> (r: &'static str)
    ensures
        r@ == seq!['\u{EC76}'],
{
    egui_phosphor::regular::HIGHLIGHTER
}

/// Reads `egui_phosphor::regular::LINE_SEGMENT`, which the crate defines as U+E6D2.
#[verifier::external_body]
fn glyph_line_segment() -> (r: &'static str)
    ensures
        r@ == seq!['\u{E6D2}'],
{
    egui_phosphor::regular::LINE_SEGMENT
}

/// Reads `egui_phosphor::regular::ARROW_UP_RIGHT`, which the crate defines as U+E092.
#[verifier::external_body]
fn glyph_arrow_up_right() -> (r: &'static str)
    ensures
        r@ == seq!['\u{E092}'],
{
    egui_phosphor::regular::ARROW_UP_RIGHT
}

/// Reads `egui_phosphor::regular::RECTANGLE`, which the crate defines as U+E3F0.
#[verifier::external_body]
fn glyph_rectangle() -> (r: &'static str)
    ensures
        r@ == seq!['\u{E3F0}'],
{
    egui_phosphor::regular::RECTANGLE
}

/// Reads `egui_phosphor::regular::CIRCLE`, which the crate defines as U+E18A.
#[verifier::external_body]
fn glyph_circle() -> (r: &'static str)
    ensures
        r@ == seq!['\u{E18A}'],
{
    egui_phosphor::regular::CIRCLE
}

/// Reads `egui_phosphor::regular::TEXT_T`, which the crate defines as U+E48A.
#[verifier::external_body]
fn glyph_text_t() -> (r: &'static str)
    ensures
        r@ == seq!['\u{E48A}'],
{
    egui_phosphor::regular::TEXT_T
}

/// Reads `egui_phosphor::regular::ERASER`, which the crate defines as U+E21E.
#[verifier::external_body]
fn glyph_eraser() -> (r: &'static str)
    ensures
        r@ == seq!['\u{E21E}'],
{
    egui_phosphor::regular::ERASER
}

/// Reads `egui_phosphor::regular::DOT`, which the crate defines as U+ECDE.
#[verifier::external_body]
fn glyph_dot() -> (r: &'static str)
    ensures
        r@ == seq!['\u{ECDE}'],
{
    egui_phosphor::regular::DOT
}

impl Tool {
    /// Every tool, in toolbar order.
    pub const ALL: [Tool; 9] = [
        Tool::Pen,
        Tool::Highlighter,
        Tool::Line,
        Tool::Arrow,
        Tool::Rect,
        Tool::Ellipse,
        Tool::Text,
        Tool::Eraser,
        Tool::Laser,
    ];

    pub fn label(self) -> (r: &'static str)
        ensures
            r@ == tool_label(self),
    {
        match self {
            Tool::Pen => "Pen",
            Tool::Highlighter => "Highlighter",
            Tool::Line => "Line",
            Tool::Arrow => "Arrow",
            Tool::Rect => "Rectangle",
            Tool::Ellipse => "Ellipse",
            Tool::Text => "Text",
            Tool::Eraser => "Eraser",
            Tool::Laser => "Laser",
        }
    }

    /// Phosphor icon glyph for this tool (see `egui_phosphor::regular`).
    pub fn icon(self) -> (r: &'static str)
        ensures
            r@ == tool_icon(self),
    {
        match self {
            Tool::Pen => glyph_pencil_simple(),
            Tool::Highlighter => glyph_highlighter(),
            Tool::Line => glyph_line_segment(),
            Tool::Arrow => glyph_arrow_up_right(),
            Tool::Rect => glyph_rectangle(),
            Tool::Ellipse => glyph_circle(),
            Tool::Text => glyph_text_t(),
            Tool::Eraser => glyph_eraser(),
            Tool::Laser => glyph_dot(),
        }
    }

    pub fn hotkey(self) -> (r: &'static str)
        ensures
            r@ == tool_hotkey(self),
    {
        match self {
            Tool::Pen => "P",
            Tool::Highlighter => "H",
            Tool::Line => "N",
            Tool::Arrow => "A",
            Tool::Rect => "R",
            Tool::Ellipse => "O",
            Tool::Text => "T",
            Tool::Eraser => "E",
            Tool::Laser => "L",
        }
    }
}

/// A colour as four bytes with premultiplied alpha, laid out as egui's `Color32`.
#[derive(Debug, Clone, Copy, PartialEq, Eq, Structural)]
pub struct Rgba {
    pub r: u8,
    pub g: u8,
    pub b: u8,
    pub a: u8,
}

/// Number of colours in the quick-swap palette.
pub const PALETTE_LEN: usize = 8;

/// An opaque colour.
pub open spec fn opaque(r: u8, g: u8, b: u8) -> Rgba {
    Rgba { r, g, b, a: 255 }
}

/// The quick-swap palette bound to number keys 1–8: red, orange, yellow,
/// green, cyan, blue, magenta, white.
pub open spec fn palette_entry(i: int) -> Rgba {
    if i == 0 {
        opaque(0xff, 0x3b, 0x30)
    } else if i == 1 {
        opaque(0xff, 0x95, 0x00)
    } else if i == 2 {
        opaque(0xff, 0xd6, 0x0a)
    } else if i == 3 {
        opaque(0x34, 0xc7, 0x59)
    } else if i == 4 {
        opaque(0x32, 0xad, 0xe6)
    } else if i == 5 {
        opaque(0x0a, 0x84, 0xff)
    } else if i == 6 {
        opaque(0xbf, 0x5a, 0xf2)
    } else {
        opaque(0xff, 0xff, 0xff)
    }
}

/// Palette entry `i`.
pub fn palette(i: usize) -> (c: Rgba)
    requires
        i < PALETTE_LEN,
    ensures
        c == palette_entry(i as int),
{
    match i {
        0 => Rgba { r: 0xff, g: 0x3b, b: 0x30, a: 255 },
        1 => Rgba { r: 0xff, g: 0x95, b: 0x00, a: 255 },
        2 => Rgba { r: 0xff, g: 0xd6, b: 0x0a, a: 255 },
        3 => Rgba { r: 0x34, g: 0xc7, b: 0x59, a: 255 },
        4 => Rgba { r: 0x32, g: 0xad, b: 0xe6, a: 255 },
        5 => Rgba { r: 0x0a, g: 0x84, b: 0xff, a: 255 },
        6 => Rgba { r: 0xbf, g: 0x5a, b: 0xf2, a: 255 },
        _ => Rgba { r: 0xff, g: 0xff, b: 0xff, a: 255 },
    }
}

/// The palette slot a stored colour index selects: out-of-range indices
/// (from an edited settings file) fall back to the last slot.
pub open spec fn clamped_index(color_idx: int) -> int {
    if color_idx < PALETTE_LEN as int - 1 {
        color_idx
    } else {
        PALETTE_LEN as int - 1
    }
}

/// The selected palette colour for a stored colour index.
pub fn color_for_index(color_idx: usize) -> (c: Rgba)
    ensures
        c == palette_entry(clamped_index(color_idx as int)),
{
    let i = if color_idx < PALETTE_LEN - 1 {
        color_idx
    } else {
        PALETTE_LEN - 1
    };
    palette(i)
}

/// What `egui::Color32::from_rgba_unmultiplied(r, g, b, a)` holds, as
/// (r, g, b, a) bytes with premultiplied alpha.
pub uninterp spec fn premultiplied(r: u8, g: u8, b: u8, a: u8) -> (u8, u8, u8, u8);

/// Calls `egui::Color32::from_rgba_unmultiplied` and returns the colour's four
/// bytes. As the crate's source shows: the result is named `premultiplied`,
/// alpha is kept, alpha 0 gives transparent black and alpha 255 keeps r, g, b.
/// The premultiplied channels for other alphas come from a gamma lookup table
/// and are left unsaid.
#[verifier::external_body]
fn from_rgba_unmultiplied(r: u8, g: u8, b: u8, a: u8) -> (res: (u8, u8, u8, u8))
    ensures
        res == premultiplied(r, g, b, a),
        res.3 == a,
        a == 0 ==> res == (0u8, 0u8, 0u8, 0u8),
        a == 255 ==> res == (r, g, b, 255u8),
{
    let [r2, g2, b2, a2] = egui::Color32::from_rgba_unmultiplied(r, g, b, a).to_array();
    (r2, g2, b2, a2)
}

/// The colour a new stroke of `tool` is drawn in: the highlighter is the
/// palette colour made translucent with `highlighter_opacity`.
pub open spec fn stroke_color_of(tool: Tool, color_idx: int, highlighter_opacity: u8) -> Rgba {
    let c = palette_entry(clamped_index(color_idx));
    if tool == Tool::Highlighter {
        let p = premultiplied(c.r, c.g, c.b, highlighter_opacity);
        Rgba { r: p.0, g: p.1, b: p.2, a: p.3 }
    } else {
        c
    }
}

/// Effective stroke colour for the current tool (highlighter is translucent).
pub fn stroke_color(tool: Tool, color_idx: usize, highlighter_opacity: u8) -> (c: Rgba)
    ensures
        c == stroke_color_of(tool, color_idx as int, highlighter_opacity),
        tool == Tool::Highlighter ==> c.a == highlighter_opacity,
        tool != Tool::Highlighter ==> c.a == 255,
        tool != Tool::Highlighter ==> c == palette_entry(clamped_index(color_idx as int)),
{
    let c = color_for_index(color_idx);
    if tool == Tool::Highlighter {
        let (r, g, b, a) = from_rgba_unmultiplied(c.r, c.g, c.b, highlighter_opacity);
        Rgba { r, g, b, a }
    } else {
        c
    }
}

/// Every tool but the highlighter strokes in the selected palette colour,
/// opaque, whatever the highlighter opacity. The selected colour is palette
/// slot `color_idx`, or the last slot for indices past the palette.
pub proof fn law_stroke_uses_selected_color(tool: Tool, color_idx: int, opacity: u8)
    requires
        0 <= color_idx,
    ensures
        tool != Tool::Highlighter ==> stroke_color_of(tool, color_idx, opacity) == palette_entry(
            clamped_index(color_idx),
        ),
        tool != Tool::Highlighter ==> stroke_color_of(tool, color_idx, opacity).a == 255,
        color_idx < PALETTE_LEN ==> clamped_index(color_idx) == color_idx,
        color_idx >= PALETTE_LEN ==> clamped_index(color_idx) == PALETTE_LEN - 1,
{
}

} // verus!
