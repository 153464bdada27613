use penny::hotkeys::GlobalAction;
use penny::keys::{key_command, Key, KeyCommand, Modifiers};
use penny::model::Tool;
use penny::tray::TrayAction;
use penny::overlay::{KeyEffect, Overlay, PointerInput, PointerOutcome, ViewportRequest};

type Canvas = Overlay<u32, (i32, i32)>;

fn marks(o: &Canvas) -> Vec<u32> {
    o.marks().iter().map(|m| **m).collect()
}

fn input(pos: Option<(i32, i32)>) -> PointerInput<(i32, i32)> {
    PointerInput {
        pos,
        drag_started: false,
        dragged: false,
        drag_stopped: false,
        clicked: false,
        far_from_last: false,
    }
}

fn start(o: &mut Canvas, tool: Tool, p: (i32, i32)) {
    let i = PointerInput { drag_started: true, ..input(Some(p)) };
    assert!(matches!(o.on_pointer(tool, i, &Vec::new()), PointerOutcome::Nothing));
}

fn click(o: &mut Canvas, tool: Tool, p: (i32, i32)) {
    let i = PointerInput { clicked: true, ..input(Some(p)) };
    assert!(matches!(o.on_pointer(tool, i, &Vec::new()), PointerOutcome::Nothing));
}

#[test]
fn starts_empty_in_draw_mode() {
    let o: Canvas = Overlay::new();
    assert!(o.marks().is_empty());
    assert!(!o.click_through());
    assert!(!o.overlay_hidden());
    assert!(o.accepts_keys());
    assert!(!o.is_typing());
}

#[test]
fn toggle_draw_switches_click_through_and_back() {
    let mut o: Canvas = Overlay::new();
    let r = o.on_global_action(GlobalAction::ToggleDraw);
    assert!(o.click_through());
    assert_eq!(r, vec![ViewportRequest::MousePassthrough(true)]);
    assert!(!o.accepts_keys());
    let r = o.on_global_action(GlobalAction::ToggleDraw);
    assert!(!o.click_through());
    assert_eq!(r, vec![ViewportRequest::MousePassthrough(false), ViewportRequest::Focus]);
}

#[test]
fn hiding_makes_click_through() {
    let mut o: Canvas = Overlay::new();
    let r = o.on_global_action(GlobalAction::ToggleVisibility);
    assert!(o.overlay_hidden());
    assert!(o.click_through());
    assert_eq!(r, vec![ViewportRequest::MousePassthrough(true)]);
    let r = o.on_global_action(GlobalAction::ToggleVisibility);
    assert!(!o.overlay_hidden());
    assert!(o.click_through());
    assert!(r.is_empty());
}

#[test]
fn clear_all_hotkey_clears_marks_and_drafts() {
    let mut o: Canvas = Overlay::new();
    o.commit(1);
    start(&mut o, Tool::Rect, (0, 0));
    click(&mut o, Tool::Text, (5, 5));
    let r = o.on_global_action(GlobalAction::ClearAll);
    assert!(r.is_empty());
    assert!(o.marks().is_empty());
    assert_eq!(o.drag(), (None, None));
    assert!(!o.is_typing());
    o.undo();
    assert_eq!(marks(&o), vec![1]);
}

#[test]
fn set_tool_marks_dirty_only_on_change_and_aborts_shapes() {
    let mut o: Canvas = Overlay::new();
    let mut current = Tool::Pen;
    start(&mut o, Tool::Pen, (1, 1));
    start(&mut o, Tool::Line, (2, 2));
    click(&mut o, Tool::Text, (3, 3));
    assert_eq!(o.active_path().clone(), vec![]);
    o.on_pointer(Tool::Pen, PointerInput { dragged: true, ..input(Some((1, 1))) }, &Vec::new());
    assert_eq!(o.active_path().clone(), vec![(1, 1)]);
    o.set_tool(&mut current, Tool::Pen);
    assert!(!o.take_settings_dirty());
    assert!(o.active_path().is_empty());
    assert_eq!(o.drag(), (None, None));
    assert!(o.is_typing());
    o.set_tool(&mut current, Tool::Rect);
    assert_eq!(current, Tool::Rect);
    assert!(o.take_settings_dirty());
    assert!(!o.take_settings_dirty());
}

#[test]
fn mark_settings_dirty_sets_flag() {
    let mut o: Canvas = Overlay::new();
    o.mark_settings_dirty();
    assert!(o.take_settings_dirty());
}

#[test]
fn freehand_path_keeps_first_and_far_points() {
    let mut o: Canvas = Overlay::new();
    let drag = |p, far| PointerInput { dragged: true, far_from_last: far, ..input(Some(p)) };
    let first = PointerInput { drag_started: true, dragged: true, ..input(Some((0, 0))) };
    assert!(matches!(o.on_pointer(Tool::Pen, first, &Vec::new()), PointerOutcome::Nothing));
    o.on_pointer(Tool::Pen, drag((0, 1), false), &Vec::new());
    o.on_pointer(Tool::Pen, drag((5, 5), true), &Vec::new());
    assert_eq!(o.active_path().clone(), vec![(0, 0), (5, 5)]);
    assert!(o.is_animating(false, false));
    let stop = PointerInput { drag_stopped: true, ..input(Some((5, 5))) };
    match o.on_pointer(Tool::Highlighter, stop, &Vec::new()) {
        PointerOutcome::Path(points) => assert_eq!(points, vec![(0, 0), (5, 5)]),
        other => panic!("unexpected {:?}", other),
    }
    assert!(o.active_path().is_empty());
    assert!(matches!(o.on_pointer(Tool::Pen, stop, &Vec::new()), PointerOutcome::Nothing));
    assert!(!o.is_animating(false, false));
    // a fresh stroke restarts the path
    o.on_pointer(Tool::Pen, drag((9, 9), false), &Vec::new());
    o.on_pointer(Tool::Pen, PointerInput { drag_started: true, ..input(Some((1, 1))) }, &Vec::new());
    assert!(o.active_path().is_empty());
}

#[test]
fn shape_drag_needs_both_ends() {
    let mut o: Canvas = Overlay::new();
    start(&mut o, Tool::Arrow, (1, 2));
    let stop = PointerInput { drag_stopped: true, ..input(None) };
    assert!(matches!(o.on_pointer(Tool::Arrow, stop, &Vec::new()), PointerOutcome::Nothing));
    start(&mut o, Tool::Arrow, (1, 2));
    o.on_pointer(Tool::Arrow, PointerInput { dragged: true, ..input(Some((3, 4))) }, &Vec::new());
    assert_eq!(o.drag(), (Some((1, 2)), Some((3, 4))));
    assert!(o.is_animating(false, false));
    match o.on_pointer(Tool::Ellipse, stop, &Vec::new()) {
        PointerOutcome::Shape(a, b) => assert_eq!((a, b), ((1, 2), (3, 4))),
        other => panic!("unexpected {:?}", other),
    }
    assert_eq!(o.drag(), (None, None));
}

#[test]
fn laser_leaves_no_trace_in_the_canvas() {
    let mut o: Canvas = Overlay::new();
    let all = PointerInput {
        drag_started: true,
        dragged: true,
        drag_stopped: true,
        clicked: true,
        far_from_last: true,
        ..input(Some((1, 1)))
    };
    assert!(matches!(o.on_pointer(Tool::Laser, all, &Vec::new()), PointerOutcome::Nothing));
    assert!(o.marks().is_empty());
    assert!(o.active_path().is_empty());
    assert_eq!(o.drag(), (None, None));
    assert!(!o.is_typing());
}

#[test]
fn eraser_click_removes_hit_marks() {
    let mut o: Canvas = Overlay::new();
    o.commit(1);
    o.commit(2);
    let i = PointerInput { clicked: true, ..input(Some((0, 0))) };
    o.on_pointer(Tool::Eraser, i, &vec![true, false]);
    assert_eq!(marks(&o), vec![2]);
    // without a position nothing is erased
    o.on_pointer(Tool::Eraser, PointerInput { clicked: true, ..input(None) }, &Vec::new());
    assert_eq!(marks(&o), vec![2]);
    o.undo();
    assert_eq!(marks(&o), vec![1, 2]);
}

#[test]
fn blank_text_is_dropped() {
    let mut o: Canvas = Overlay::new();
    click(&mut o, Tool::Text, (7, 8));
    o.set_pending_text("   \t ".to_string());
    assert_eq!(o.commit_pending_text(), None);
    assert!(!o.is_typing());
}

#[test]
fn text_is_committed_untrimmed() {
    let mut o: Canvas = Overlay::new();
    click(&mut o, Tool::Text, (7, 8));
    assert_eq!(o.pending_text(), Some(((7, 8), String::new())));
    o.set_pending_text(" hi ".to_string());
    assert_eq!(o.commit_pending_text(), Some(((7, 8), " hi ".to_string())));
    assert!(!o.is_typing());
}

#[test]
fn cancel_text_drops_entry() {
    let mut o: Canvas = Overlay::new();
    click(&mut o, Tool::Text, (1, 1));
    o.set_pending_text("x".to_string());
    o.cancel_text();
    assert_eq!(o.commit_pending_text(), None);
}

#[test]
fn eraser_and_prune() {
    let mut o: Canvas = Overlay::new();
    o.commit(1);
    o.commit(2);
    o.commit(3);
    o.erase(&vec![false, true, false]);
    assert_eq!(marks(&o), vec![1, 3]);
    o.prune(&vec![true, false]);
    assert_eq!(marks(&o), vec![3]);
    o.undo();
    assert_eq!(marks(&o), vec![1, 2, 3]);
    // redo brings back the state undo left, after the prune
    o.redo();
    assert_eq!(marks(&o), vec![3]);
}

#[test]
fn animating_reasons() {
    let mut o: Canvas = Overlay::new();
    assert!(o.is_animating(true, false));
    assert!(!o.is_animating(false, true));
    o.commit(1);
    assert!(o.is_animating(false, true));
    assert!(!o.is_animating(false, false));
}

#[test]
fn export_requests_screenshot() {
    let o: Canvas = Overlay::new();
    assert_eq!(o.request_export(), ViewportRequest::Screenshot);
}

#[test]
fn set_click_through_off_requests_focus() {
    let mut o: Canvas = Overlay::new();
    assert_eq!(o.set_click_through(true), vec![ViewportRequest::MousePassthrough(true)]);
    assert_eq!(
        o.set_click_through(false),
        vec![ViewportRequest::MousePassthrough(false), ViewportRequest::Focus]
    );
}

#[test]
fn only_whitespace_is_blank() {
    let mut o: Canvas = Overlay::new();
    click(&mut o, Tool::Text, (1, 1));
    o.set_pending_text("   ".to_string());
    assert_eq!(o.commit_pending_text(), None);
    click(&mut o, Tool::Text, (1, 1));
    o.set_pending_text("\u{3000}\u{2028}\n".to_string());
    assert_eq!(o.commit_pending_text(), None);
    click(&mut o, Tool::Text, (1, 1));
    o.set_pending_text("\u{200b}".to_string());
    assert_eq!(o.commit_pending_text(), Some(((1, 1), "\u{200b}".to_string())));
}

#[test]
fn tray_toggle_leaves_click_through() {
    let mut o: Canvas = Overlay::new();
    o.set_click_through(true);
    let r = o.on_tray_action(TrayAction::ToggleOverlay);
    assert!(!o.click_through());
    assert!(!o.overlay_hidden());
    assert_eq!(r, vec![ViewportRequest::MousePassthrough(false), ViewportRequest::Focus]);
    // from draw mode it hides the overlay
    let r = o.on_tray_action(TrayAction::ToggleOverlay);
    assert!(o.overlay_hidden());
    assert!(o.click_through());
    assert_eq!(r, vec![ViewportRequest::MousePassthrough(true)]);
    // and back
    o.on_tray_action(TrayAction::ToggleOverlay);
    assert!(!o.overlay_hidden());
    assert!(!o.click_through());
}

#[test]
fn tray_quit_closes_and_nothing_does_nothing() {
    let mut o: Canvas = Overlay::new();
    o.commit(4);
    assert_eq!(o.on_tray_action(TrayAction::Quit), vec![ViewportRequest::Close]);
    assert!(o.on_tray_action(TrayAction::NoAction).is_empty());
    assert!(!o.click_through());
    assert_eq!(marks(&o), vec![4]);
}

#[test]
fn delete_key_clears_in_one_step() {
    let none = Modifiers { alt: false, ctrl: false, shift: false, mac_cmd: false, command: false };
    assert_eq!(key_command(Key::Backspace, none), Some(KeyCommand::ClearAll));
    let mut o: Canvas = Overlay::new();
    o.commit(1);
    o.commit(2);
    o.clear_all();
    assert!(marks(&o).is_empty());
    o.undo();
    assert_eq!(marks(&o), vec![1, 2]);
}

#[test]
fn set_pending_text_without_entry_does_nothing() {
    let mut o: Canvas = Overlay::new();
    o.set_pending_text("x".to_string());
    assert!(!o.is_typing());
    assert_eq!(o.pending_text(), None);
}

const NO_MODS: Modifiers = Modifiers { alt: false, ctrl: false, shift: false, mac_cmd: false, command: false };

#[test]
fn keys_change_settings_and_canvas() {
    let mut o: Canvas = Overlay::new();
    let mut tool = Tool::Pen;
    let mut color = 0usize;
    let mut fade = false;
    assert_eq!(o.on_key(Key::R, NO_MODS, &mut tool, &mut color, &mut fade), KeyEffect::Nothing);
    assert_eq!(tool, Tool::Rect);
    assert!(o.take_settings_dirty());
    assert_eq!(o.on_key(Key::Num4, NO_MODS, &mut tool, &mut color, &mut fade), KeyEffect::Nothing);
    assert_eq!(color, 3);
    assert!(o.take_settings_dirty());
    assert_eq!(o.on_key(Key::F, NO_MODS, &mut tool, &mut color, &mut fade), KeyEffect::Nothing);
    assert!(fade);
    assert!(o.take_settings_dirty());
    assert_eq!(o.on_key(Key::OpenBracket, NO_MODS, &mut tool, &mut color, &mut fade), KeyEffect::NarrowStroke);
    assert!(o.take_settings_dirty());
    assert_eq!(o.on_key(Key::CloseBracket, NO_MODS, &mut tool, &mut color, &mut fade), KeyEffect::WidenStroke);
    let cmd = Modifiers { ctrl: true, command: true, ..NO_MODS };
    assert_eq!(
        o.on_key(Key::S, cmd, &mut tool, &mut color, &mut fade),
        KeyEffect::Request(ViewportRequest::Screenshot)
    );
    o.commit(1);
    o.commit(2);
    o.on_key(Key::Z, cmd, &mut tool, &mut color, &mut fade);
    assert_eq!(marks(&o), vec![1]);
    o.on_key(Key::Y, cmd, &mut tool, &mut color, &mut fade);
    assert_eq!(marks(&o), vec![1, 2]);
    o.on_key(Key::Delete, NO_MODS, &mut tool, &mut color, &mut fade);
    assert!(marks(&o).is_empty());
    // a key without a command does nothing
    assert_eq!(o.on_key(Key::S, NO_MODS, &mut tool, &mut color, &mut fade), KeyEffect::Nothing);
}

#[test]
fn keys_are_ignored_while_typing() {
    let mut o: Canvas = Overlay::new();
    let mut tool = Tool::Text;
    let mut color = 2usize;
    let mut fade = false;
    o.commit(7);
    click(&mut o, Tool::Text, (1, 1));
    for k in [Key::P, Key::Num1, Key::F, Key::Delete, Key::OpenBracket] {
        assert_eq!(o.on_key(k, NO_MODS, &mut tool, &mut color, &mut fade), KeyEffect::Nothing);
    }
    assert_eq!((tool, color, fade), (Tool::Text, 2, false));
    assert_eq!(marks(&o), vec![7]);
    assert!(!o.take_settings_dirty());
}
