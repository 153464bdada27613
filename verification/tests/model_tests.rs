use penny::model::{color_for_index, palette, stroke_color, Rgba, Tool, PALETTE_LEN};

fn rgb(r: u8, g: u8, b: u8) -> Rgba {
    Rgba { r, g, b, a: 255 }
}

#[test]
fn tool_labels() {
    let labels: Vec<&str> = Tool::ALL.iter().map(|t| t.label()).collect();
    assert_eq!(
        labels,
        vec!["Pen", "Highlighter", "Line", "Arrow", "Rectangle", "Ellipse", "Text", "Eraser", "Laser"]
    );
}

#[test]
fn tool_hotkeys() {
    let keys: Vec<&str> = Tool::ALL.iter().map(|t| t.hotkey()).collect();
    assert_eq!(keys, vec!["P", "H", "N", "A", "R", "O", "T", "E", "L"]);
}

#[test]
fn tool_icons_are_phosphor_glyphs() {
    assert_eq!(Tool::Pen.icon(), "\u{E3B4}");
    assert_eq!(Tool::Highlighter.icon(), "\u{EC76}");
    assert_eq!(Tool::Line.icon(), "\u{E6D2}");
    assert_eq!(Tool::Arrow.icon(), "\u{E092}");
    assert_eq!(Tool::Rect.icon(), "\u{E3F0}");
    assert_eq!(Tool::Ellipse.icon(), "\u{E18A}");
    assert_eq!(Tool::Text.icon(), "\u{E48A}");
    assert_eq!(Tool::Eraser.icon(), "\u{E21E}");
    assert_eq!(Tool::Laser.icon(), "\u{ECDE}");
    assert_eq!(Tool::Pen.icon(), egui_phosphor::regular::PENCIL_SIMPLE);
    assert_eq!(Tool::Laser.icon(), egui_phosphor::regular::DOT);
}

#[test]
fn palette_colors() {
    assert_eq!(PALETTE_LEN, 8);
    assert_eq!(palette(0), rgb(0xff, 0x3b, 0x30));
    assert_eq!(palette(1), rgb(0xff, 0x95, 0x00));
    assert_eq!(palette(2), rgb(0xff, 0xd6, 0x0a));
    assert_eq!(palette(3), rgb(0x34, 0xc7, 0x59));
    assert_eq!(palette(4), rgb(0x32, 0xad, 0xe6));
    assert_eq!(palette(5), rgb(0x0a, 0x84, 0xff));
    assert_eq!(palette(6), rgb(0xbf, 0x5a, 0xf2));
    assert_eq!(palette(7), rgb(0xff, 0xff, 0xff));
}

#[test]
fn color_index_out_of_range_falls_back_to_last_slot() {
    assert_eq!(color_for_index(0), rgb(0xff, 0x3b, 0x30));
    assert_eq!(color_for_index(6), rgb(0xbf, 0x5a, 0xf2));
    assert_eq!(color_for_index(7), rgb(0xff, 0xff, 0xff));
    assert_eq!(color_for_index(8), rgb(0xff, 0xff, 0xff));
    assert_eq!(color_for_index(usize::MAX), rgb(0xff, 0xff, 0xff));
}

#[test]
fn non_highlighter_strokes_use_the_palette_color() {
    assert_eq!(stroke_color(Tool::Pen, 0, 90), rgb(0xff, 0x3b, 0x30));
    assert_eq!(stroke_color(Tool::Text, 5, 10), rgb(0x0a, 0x84, 0xff));
    assert_eq!(stroke_color(Tool::Arrow, 42, 10), rgb(0xff, 0xff, 0xff));
}

#[test]
fn highlighter_is_translucent() {
    let c = stroke_color(Tool::Highlighter, 0, 90);
    assert_eq!(c.a, 90);
    // premultiplied: every channel is dimmed
    assert!(c.r < 0xff);
    let expected = egui::Color32::from_rgba_unmultiplied(0xff, 0x3b, 0x30, 90).to_array();
    assert_eq!([c.r, c.g, c.b, c.a], expected);
}

#[test]
fn highlighter_opacity_extremes() {
    assert_eq!(stroke_color(Tool::Highlighter, 3, 255), rgb(0x34, 0xc7, 0x59));
    assert_eq!(stroke_color(Tool::Highlighter, 3, 0), Rgba { r: 0, g: 0, b: 0, a: 0 });
}
