//! The overlay's editing state: committed marks with their history, the
//! unfinished freehand path, shape drag and text entry, and the
//! click-through / hidden modes with the window requests they make.

use std::rc::Rc;

use vstd::prelude::*;

use crate::history::{
    after_clear, after_commit, after_erase, after_prune, after_redo, after_undo, any_set, bounded,
    contents, kept, law_erase_one_step, History, HistoryView, MAX_UNDO,
};
use crate::hotkeys::GlobalAction;
use crate::keys::{command_of, key_command, Key, KeyCommand, Modifiers};
use crate::model::Tool;
use crate::toolbar::escapable;
use crate::tray::TrayAction;

verus! {

/// A request to the window system.
#[derive(Debug, Clone, Copy, PartialEq, Eq, Structural)]
pub enum ViewportRequest {
    /// Let mouse input pass through the window (`true`) or capture it.
    MousePassthrough(bool),
    /// Give the window keyboard focus.
    Focus,
    /// Take a screenshot of the window.
    Screenshot,
    /// Close the window, ending the program.
    Close,
}

/// The requests that switch click-through on or off: leaving click-through
/// also asks for focus so keys reach the overlay again.
pub open spec fn passthrough_requests(on: bool) -> Seq<ViewportRequest> {
    if on {
        seq![ViewportRequest::MousePassthrough(true)]
    } else {
        seq![ViewportRequest::MousePassthrough(false), ViewportRequest::Focus]
    }
}

/// What a key press leaves for the caller to do.
#[derive(Debug, Clone, Copy, PartialEq, Eq, Structural)]
pub enum KeyEffect {
    Nothing,
    /// Send this request to the window.
    Request(ViewportRequest),
    /// Make the stroke width one step narrower.
    NarrowStroke,
    /// Make the stroke width one step wider.
    WidenStroke,
}

/// A whitespace character as `char::is_whitespace` defines it: the Unicode
/// `White_Space` property, which holds for these 25 code points.
pub open spec fn is_white_space(c: char) -> bool {
    let u = c as u32;
    ||| 0x09 <= u <= 0x0d
    ||| u == 0x20
    ||| u == 0x85
    ||| u == 0xa0
    ||| u == 0x1680
    ||| 0x2000 <= u <= 0x200a
    ||| u == 0x2028
    ||| u == 0x2029
    ||| u == 0x202f
    ||| u == 0x205f
    ||| u == 0x3000
}

/// `s` without its leading whitespace.
pub open spec fn trim_start(s: Seq<char>) -> Seq<char>
    decreases s.len(),
{
    if s.len() > 0 && is_white_space(s[0]) {
        trim_start(s.drop_first())
    } else {
        s
    }
}

/// `s` without its trailing whitespace.
pub open spec fn trim_end(s: Seq<char>) -> Seq<char>
    decreases s.len(),
{
    if s.len() > 0 && is_white_space(s.last()) {
        trim_end(s.drop_last())
    } else {
        s
    }
}

/// `s` without leading and trailing whitespace.
pub open spec fn trimmed(s: Seq<char>) -> Seq<char> {
    trim_end(trim_start(s))
}

/// Calls `str::trim`, which its documentation says returns the string with
/// leading and trailing whitespace removed, whitespace being the Unicode
/// `White_Space` characters.
#[verifier::external_body]
fn trim(s: &str) -> (r: &str)
    ensures
        r@ == trimmed(s@),
{
    s.trim()
}

/// Nothing but whitespace was typed.
pub open spec fn is_blank(s: Seq<char>) -> bool {
    forall|i: int| 0 <= i < s.len() ==> is_white_space(#[trigger] s[i])
}

proof fn lemma_trim_start_empty(s: Seq<char>)
    ensures
        trim_start(s).len() == 0 <==> is_blank(s),
        trim_start(s).len() > 0 ==> !is_white_space(trim_start(s)[0]),
    decreases s.len(),
{
    if s.len() > 0 && is_white_space(s[0]) {
        lemma_trim_start_empty(s.drop_first());
        if is_blank(s.drop_first()) {
            assert forall|i: int| 0 <= i < s.len() implies is_white_space(#[trigger] s[i]) by {
                if i > 0 {
                    assert(s[i] == s.drop_first()[i - 1]);
                }
            }
        }
        if is_blank(s) {
            assert forall|i: int| 0 <= i < s.drop_first().len() implies is_white_space(
                #[trigger] s.drop_first()[i],
            ) by {
                assert(s.drop_first()[i] == s[i + 1]);
            }
        }
    } else if s.len() > 0 {
        assert(!is_white_space(s[0]));
    }
}

proof fn lemma_trim_end_empty(s: Seq<char>)
    ensures
        trim_end(s).len() == 0 <==> is_blank(s),
    decreases s.len(),
{
    if s.len() > 0 && is_white_space(s.last()) {
        lemma_trim_end_empty(s.drop_last());
        if is_blank(s.drop_last()) {
            assert forall|i: int| 0 <= i < s.len() implies is_white_space(#[trigger] s[i]) by {
                if i < s.len() - 1 {
                    assert(s[i] == s.drop_last()[i]);
                }
            }
        }
        if is_blank(s) {
            assert forall|i: int| 0 <= i < s.drop_last().len() implies is_white_space(
                #[trigger] s.drop_last()[i],
            ) by {
                assert(s.drop_last()[i] == s[i]);
            }
        }
    } else if s.len() > 0 {
        assert(!is_white_space(s[s.len() - 1]));
    }
}

/// Trimming leaves nothing exactly when the text is blank.
proof fn lemma_trimmed_empty_iff_blank(s: Seq<char>)
    ensures
        trimmed(s).len() == 0 <==> is_blank(s),
{
    lemma_trim_start_empty(s);
    let t = trim_start(s);
    lemma_trim_end_empty(t);
    if t.len() > 0 {
        assert(!is_white_space(t[0]));
        assert(!is_blank(t));
    }
}

/// What the pointer did over the canvas this frame.
#[derive(Debug, Clone, Copy)]
pub struct PointerInput<P> {
    /// Where the pointer is while it interacts with the canvas.
    pub pos: Option<P>,
    pub drag_started: bool,
    pub dragged: bool,
    pub drag_stopped: bool,
    pub clicked: bool,
    /// `pos` lies far enough from the last freehand point to be kept.
    pub far_from_last: bool,
}

/// What a frame of pointer input finished, for the caller to commit.
#[derive(Debug)]
pub enum PointerOutcome<P> {
    Nothing,
    /// A freehand stroke ended with these points.
    Path(Vec<P>),
    /// A shape drag ended with these two ends.
    Shape(P, P),
}

/// The freehand points after this frame's start and move.
pub open spec fn path_after_move<P>(path: Seq<P>, input: PointerInput<P>) -> Seq<P> {
    let p1 = if input.drag_started {
        Seq::empty()
    } else {
        path
    };
    if input.dragged && input.pos is Some && (p1.len() == 0 || input.far_from_last) {
        p1.push(input.pos->0)
    } else {
        p1
    }
}

/// The pointer hits the canvas with the eraser this frame.
pub open spec fn erases<P>(tool: Tool, input: PointerInput<P>) -> bool {
    tool == Tool::Eraser && (input.dragged || input.clicked) && input.pos is Some
}

/// The tools that draw a shape by dragging.
pub open spec fn is_shape_tool(tool: Tool) -> bool {
    tool == Tool::Line || tool == Tool::Arrow || tool == Tool::Rect || tool == Tool::Ellipse
}

/// The abstract state of an [`Overlay`].
#[verifier::ext_equal]
pub struct OverlayView<M, P> {
    pub history: HistoryView<M>,
    pub active_path: Seq<P>,
    pub drag_from: Option<P>,
    pub drag_to: Option<P>,
    pub pending_text: Option<(P, Seq<char>)>,
    pub click_through: bool,
    pub overlay_hidden: bool,
    pub settings_dirty: bool,
}

/// The view of a pending text entry.
pub open spec fn text_view<P>(t: Option<(P, String)>) -> Option<(P, Seq<char>)> {
    match t {
        Some((p, s)) => Some((p, s@)),
        None => None,
    }
}

/// The editing state of the overlay. `M` is a committed mark and `P` a
/// pointer position; the geometry of both is the caller's.
pub struct Overlay<M, P> {
    history: History<M>,
    /// In-progress freehand points while the pointer is down.
    active_path: Vec<P>,
    /// Drag anchor for line/arrow/rect/ellipse.
    drag_from: Option<P>,
    /// Live pointer position of an unfinished shape drag.
    drag_to: Option<P>,
    /// Pending text entry: position + buffer being typed.
    pending_text: Option<(P, String)>,
    /// When true the window ignores the mouse and clicks reach the app underneath.
    click_through: bool,
    overlay_hidden: bool,
    settings_dirty: bool,
}

impl<M, P> View for Overlay<M, P> {
    type V = OverlayView<M, P>;

    closed spec fn view(&self) -> OverlayView<M, P> {
        OverlayView {
            history: self.history@,
            active_path: self.active_path@,
            drag_from: self.drag_from,
            drag_to: self.drag_to,
            pending_text: text_view(self.pending_text),
            click_through: self.click_through,
            overlay_hidden: self.overlay_hidden,
            settings_dirty: self.settings_dirty,
        }
    }
}

/// The state after the window mode switch of one global shortcut, and the
/// requests it makes.
pub open spec fn after_mode_action<M, P>(v: OverlayView<M, P>, a: GlobalAction) -> (OverlayView<M, P>, Seq<ViewportRequest>) {
    match a {
        GlobalAction::ToggleDraw => (
            OverlayView { click_through: !v.click_through, ..v },
            passthrough_requests(!v.click_through),
        ),
        GlobalAction::ToggleVisibility => if !v.overlay_hidden {
            (
                OverlayView { overlay_hidden: true, click_through: true, ..v },
                passthrough_requests(true),
            )
        } else {
            (OverlayView { overlay_hidden: false, ..v }, Seq::empty())
        },
        GlobalAction::ClearAll => (v, Seq::empty()),
    }
}

/// The state after a tray menu choice, and the requests it makes. "Show /
/// hide overlay" brings a hidden or click-through overlay back to draw mode,
/// and hides an overlay that is in draw mode; "Quit" closes the window.
pub open spec fn after_tray_action<M, P>(v: OverlayView<M, P>, a: TrayAction) -> (OverlayView<M, P>, Seq<ViewportRequest>) {
    match a {
        TrayAction::NoAction => (v, Seq::empty()),
        TrayAction::Quit => (v, seq![ViewportRequest::Close]),
        TrayAction::ToggleOverlay => if v.overlay_hidden || v.click_through {
            (
                OverlayView { overlay_hidden: false, click_through: false, ..v },
                passthrough_requests(false),
            )
        } else {
            (
                OverlayView { overlay_hidden: true, click_through: true, ..v },
                passthrough_requests(true),
            )
        },
    }
}

/// The drafts are all dropped: no freehand path, shape drag or pending text.
pub open spec fn no_drafts<M, P>(v: OverlayView<M, P>) -> bool {
    &&& v.active_path.len() == 0
    &&& v.drag_from is None
    &&& v.drag_to is None
    &&& v.pending_text is None
}

impl<M, P: Copy> Overlay<M, P> {
    /// An empty canvas in draw mode, shown, with nothing pending.
    pub fn new() -> (o: Self)
        ensures
            o@.history.marks.len() == 0,
            o@.history.undo.len() == 0,
            o@.history.redo.len() == 0,
            no_drafts(o@),
            !o@.click_through,
            !o@.overlay_hidden,
            !o@.settings_dirty,
    {
        Overlay {
            history: History::new(),
            active_path: Vec::new(),
            drag_from: None,
            drag_to: None,
            pending_text: None,
            click_through: false,
            overlay_hidden: false,
            settings_dirty: false,
        }
    }

    /// The committed marks, oldest first.
    pub fn marks(&self) -> (m: &Vec<Rc<M>>)
        ensures
            contents(m@) == self@.history.marks,
    {
        self.history.marks()
    }

    pub fn undo(&mut self)
        ensures
            final(self)@ == (OverlayView { history: after_undo(old(self)@.history), ..old(self)@ }),
    {
        self.history.undo();
    }

    pub fn redo(&mut self)
        ensures
            final(self)@ == (OverlayView { history: after_redo(old(self)@.history), ..old(self)@ }),
    {
        self.history.redo();
    }

    /// Commits a finished mark as one undoable step.
    pub fn commit(&mut self, mark: M)
        ensures
            final(self)@ == (OverlayView {
                history: after_commit(old(self)@.history, mark),
                ..old(self)@
            }),
    {
        self.history.commit(mark);
    }

    /// Removes every mark (one undo step, none on an empty canvas) and drops
    /// every draft.
    pub fn clear_all(&mut self)
        ensures
            final(self)@.history == after_clear(old(self)@.history),
            no_drafts(final(self)@),
            final(self)@.click_through == old(self)@.click_through,
            final(self)@.overlay_hidden == old(self)@.overlay_hidden,
            final(self)@.settings_dirty == old(self)@.settings_dirty,
    {
        self.history.clear();
        self.active_path.clear();
        self.drag_from = None;
        self.drag_to = None;
        self.pending_text = None;
    }

    /// The eraser: removes the marks flagged in `hit`, as one undo step when
    /// any is hit.
    pub fn erase(&mut self, hit: &Vec<bool>)
        requires
            hit@.len() == old(self)@.history.marks.len(),
        ensures
            final(self)@ == (OverlayView {
                history: after_erase(old(self)@.history, hit@),
                ..old(self)@
            }),
    {
        self.history.erase(hit);
    }

    /// Drops the marks flagged in `expired` (faded out), with no undo step.
    pub fn prune(&mut self, expired: &Vec<bool>)
        requires
            expired@.len() == old(self)@.history.marks.len(),
        ensures
            final(self)@ == (OverlayView {
                history: after_prune(old(self)@.history, expired@),
                ..old(self)@
            }),
    {
        self.history.prune(expired);
    }

    /// Switches click-through on or off and returns the window requests that
    /// do it.
    pub fn set_click_through(&mut self, on: bool) -> (reqs: Vec<ViewportRequest>)
        ensures
            final(self)@ == (OverlayView { click_through: on, ..old(self)@ }),
            reqs@ == passthrough_requests(on),
    {
        self.click_through = on;
        let mut reqs = Vec::new();
        reqs.push(ViewportRequest::MousePassthrough(on));
        if !on {
            reqs.push(ViewportRequest::Focus);
        }
        assert(reqs@ =~= passthrough_requests(on));
        reqs
    }

    /// Carries out a global shortcut and returns the window requests it makes.
    /// Hiding the overlay also makes it click-through, so that it cannot
    /// swallow clicks while invisible.
    pub fn on_global_action(&mut self, action: GlobalAction) -> (reqs: Vec<ViewportRequest>)
        ensures
            action != GlobalAction::ClearAll ==> (final(self)@, reqs@) == after_mode_action(
                old(self)@,
                action,
            ),
            action == GlobalAction::ClearAll ==> {
                &&& final(self)@.history == after_clear(old(self)@.history)
                &&& no_drafts(final(self)@)
                &&& final(self)@.click_through == old(self)@.click_through
                &&& final(self)@.overlay_hidden == old(self)@.overlay_hidden
                &&& final(self)@.settings_dirty == old(self)@.settings_dirty
                &&& reqs@.len() == 0
            },
    {
        match action {
            GlobalAction::ToggleDraw => {
                let on = !self.click_through;
                self.set_click_through(on)
            },
            GlobalAction::ToggleVisibility => {
                self.overlay_hidden = !self.overlay_hidden;
                if self.overlay_hidden {
                    self.set_click_through(true)
                } else {
                    let r: Vec<ViewportRequest> = Vec::new();
                    assert(r@ =~= Seq::<ViewportRequest>::empty());
                    r
                }
            },
            GlobalAction::ClearAll => {
                self.clear_all();
                Vec::new()
            },
        }
    }

    /// Whether the overlay lets clicks through to the app underneath.
    pub fn click_through(&self) -> (r: bool)
        ensures
            r == self@.click_through,
    {
        self.click_through
    }

    /// Whether the overlay is hidden.
    pub fn overlay_hidden(&self) -> (r: bool)
        ensures
            r == self@.overlay_hidden,
    {
        self.overlay_hidden
    }

    /// Carries out a key press in draw mode on the overlay and on the
    /// settings it changes (`tool`, `color_idx`, `fade_enabled`). While a text
    /// entry is open the keys belong to it and nothing happens. Otherwise the
    /// key's command (see `command_of`) is done: a tool key selects the tool,
    /// `F` flips the fade flag, a number key selects the palette slot, the
    /// brackets ask the caller to change the stroke width (the settings then
    /// need saving), Ctrl+S asks for a screenshot, and undo, redo and clear act
    /// on the canvas.
    pub fn on_key(
        &mut self,
        key: Key,
        mods: Modifiers,
        tool: &mut Tool,
        color_idx: &mut usize,
        fade_enabled: &mut bool,
    ) -> (effect: KeyEffect)
        ensures
            old(self)@.pending_text is Some || command_of(key, mods) is None ==> {
                &&& effect == KeyEffect::Nothing
                &&& final(self)@ == old(self)@
                &&& *final(tool) == *old(tool)
                &&& *final(color_idx) == *old(color_idx)
                &&& *final(fade_enabled) == *old(fade_enabled)
            },
            old(self)@.pending_text is None && command_of(key, mods) is Some ==> match command_of(
                key,
                mods,
            )->0 {
                KeyCommand::SelectTool(t) => {
                    &&& effect == KeyEffect::Nothing
                    &&& *final(tool) == t
                    &&& final(self)@ == (OverlayView {
                        active_path: Seq::empty(),
                        drag_from: None,
                        drag_to: None,
                        settings_dirty: old(self)@.settings_dirty || *old(tool) != t,
                        ..old(self)@
                    })
                    &&& *final(color_idx) == *old(color_idx)
                    &&& *final(fade_enabled) == *old(fade_enabled)
                },
                KeyCommand::ToggleFade => {
                    &&& effect == KeyEffect::Nothing
                    &&& *final(fade_enabled) == !*old(fade_enabled)
                    &&& final(self)@ == (OverlayView { settings_dirty: true, ..old(self)@ })
                    &&& *final(tool) == *old(tool)
                    &&& *final(color_idx) == *old(color_idx)
                },
                KeyCommand::SelectColor(i) => {
                    &&& effect == KeyEffect::Nothing
                    &&& *final(color_idx) == i
                    &&& final(self)@ == (OverlayView { settings_dirty: true, ..old(self)@ })
                    &&& *final(tool) == *old(tool)
                    &&& *final(fade_enabled) == *old(fade_enabled)
                },
                KeyCommand::NarrowStroke => {
                    &&& effect == KeyEffect::NarrowStroke
                    &&& final(self)@ == (OverlayView { settings_dirty: true, ..old(self)@ })
                    &&& *final(tool) == *old(tool)
                    &&& *final(color_idx) == *old(color_idx)
                    &&& *final(fade_enabled) == *old(fade_enabled)
                },
                KeyCommand::WidenStroke => {
                    &&& effect == KeyEffect::WidenStroke
                    &&& final(self)@ == (OverlayView { settings_dirty: true, ..old(self)@ })
                    &&& *final(tool) == *old(tool)
                    &&& *final(color_idx) == *old(color_idx)
                    &&& *final(fade_enabled) == *old(fade_enabled)
                },
                KeyCommand::Export => {
                    &&& effect == KeyEffect::Request(ViewportRequest::Screenshot)
                    &&& final(self)@ == old(self)@
                    &&& *final(tool) == *old(tool)
                    &&& *final(color_idx) == *old(color_idx)
                    &&& *final(fade_enabled) == *old(fade_enabled)
                },
                KeyCommand::Undo => {
                    &&& effect == KeyEffect::Nothing
                    &&& final(self)@ == (OverlayView {
                        history: after_undo(old(self)@.history),
                        ..old(self)@
                    })
                    &&& *final(tool) == *old(tool)
                    &&& *final(color_idx) == *old(color_idx)
                    &&& *final(fade_enabled) == *old(fade_enabled)
                },
                KeyCommand::Redo => {
                    &&& effect == KeyEffect::Nothing
                    &&& final(self)@ == (OverlayView {
                        history: after_redo(old(self)@.history),
                        ..old(self)@
                    })
                    &&& *final(tool) == *old(tool)
                    &&& *final(color_idx) == *old(color_idx)
                    &&& *final(fade_enabled) == *old(fade_enabled)
                },
                KeyCommand::ClearAll => {
                    &&& effect == KeyEffect::Nothing
                    &&& final(self)@.history == after_clear(old(self)@.history)
                    &&& no_drafts(final(self)@)
                    &&& final(self)@.click_through == old(self)@.click_through
                    &&& final(self)@.overlay_hidden == old(self)@.overlay_hidden
                    &&& final(self)@.settings_dirty == old(self)@.settings_dirty
                    &&& *final(tool) == *old(tool)
                    &&& *final(color_idx) == *old(color_idx)
                    &&& *final(fade_enabled) == *old(fade_enabled)
                },
            },
    {
        if self.pending_text.is_some() {
            return KeyEffect::Nothing;
        }
        match key_command(key, mods) {
            None => KeyEffect::Nothing,
            Some(KeyCommand::SelectTool(t)) => {
                self.set_tool(tool, t);
                KeyEffect::Nothing
            },
            Some(KeyCommand::ToggleFade) => {
                *fade_enabled = !*fade_enabled;
                self.settings_dirty = true;
                KeyEffect::Nothing
            },
            Some(KeyCommand::SelectColor(i)) => {
                *color_idx = i;
                self.settings_dirty = true;
                KeyEffect::Nothing
            },
            Some(KeyCommand::NarrowStroke) => {
                self.settings_dirty = true;
                KeyEffect::NarrowStroke
            },
            Some(KeyCommand::WidenStroke) => {
                self.settings_dirty = true;
                KeyEffect::WidenStroke
            },
            Some(KeyCommand::Export) => KeyEffect::Request(ViewportRequest::Screenshot),
            Some(KeyCommand::Undo) => {
                self.undo();
                KeyEffect::Nothing
            },
            Some(KeyCommand::Redo) => {
                self.redo();
                KeyEffect::Nothing
            },
            Some(KeyCommand::ClearAll) => {
                self.clear_all();
                KeyEffect::Nothing
            },
        }
    }

    /// Carries out a tray menu choice and returns the window requests it makes.
    pub fn on_tray_action(&mut self, action: TrayAction) -> (reqs: Vec<ViewportRequest>)
        ensures
            (final(self)@, reqs@) == after_tray_action(old(self)@, action),
    {
        match action {
            TrayAction::NoAction => {
                let r: Vec<ViewportRequest> = Vec::new();
                assert(r@ =~= Seq::<ViewportRequest>::empty());
                r
            },
            TrayAction::Quit => {
                let mut r: Vec<ViewportRequest> = Vec::new();
                r.push(ViewportRequest::Close);
                assert(r@ =~= seq![ViewportRequest::Close]);
                r
            },
            TrayAction::ToggleOverlay => {
                if self.overlay_hidden || self.click_through {
                    self.overlay_hidden = false;
                    self.set_click_through(false)
                } else {
                    self.overlay_hidden = true;
                    self.set_click_through(true)
                }
            },
        }
    }

    /// Selects `tool` in the settings (`current`), marking the settings
    /// dirty when it changes, and aborts any half-finished path or shape.
    pub fn set_tool(&mut self, current: &mut Tool, tool: Tool)
        ensures
            *final(current) == tool,
            final(self)@ == (OverlayView {
                active_path: Seq::empty(),
                drag_from: None,
                drag_to: None,
                settings_dirty: old(self)@.settings_dirty || *old(current) != tool,
                ..old(self)@
            }),
    {
        if *current != tool {
            *current = tool;
            self.settings_dirty = true;
        }
        self.active_path.clear();
        self.drag_from = None;
        self.drag_to = None;
    }

    /// Records that the settings changed and need saving.
    pub fn mark_settings_dirty(&mut self)
        ensures
            final(self)@ == (OverlayView { settings_dirty: true, ..old(self)@ }),
    {
        self.settings_dirty = true;
    }

    /// Whether the settings need saving; clears the flag.
    pub fn take_settings_dirty(&mut self) -> (dirty: bool)
        ensures
            dirty == old(self)@.settings_dirty,
            final(self)@ == (OverlayView { settings_dirty: false, ..old(self)@ }),
    {
        let d = self.settings_dirty;
        self.settings_dirty = false;
        d
    }

    /// The request that captures the annotated screen.
    pub fn request_export(&self) -> (r: ViewportRequest)
        ensures
            r == ViewportRequest::Screenshot,
    {
        ViewportRequest::Screenshot
    }

    /// Keys and drawing reach the canvas only in draw mode while shown.
    pub fn accepts_keys(&self) -> (r: bool)
        ensures
            r == (!self@.click_through && !self@.overlay_hidden),
    {
        !self.click_through && !self.overlay_hidden
    }

    /// The freehand points drawn so far.
    pub fn active_path(&self) -> (p: &Vec<P>)
        ensures
            p@ == self@.active_path,
    {
        &self.active_path
    }

    /// A freehand stroke starts: forget earlier points.
    fn begin_path(&mut self)
        ensures
            final(self)@ == (OverlayView { active_path: Seq::empty(), ..old(self)@ }),
    {
        self.active_path.clear();
    }

    /// The pointer moved to `p` during a freehand stroke. The point is kept
    /// when it is the first one or when `far_from_last` says it lies far
    /// enough from the last kept point.
    fn extend_path(&mut self, p: P, far_from_last: bool)
        ensures
            final(self)@ == (OverlayView {
                active_path: if old(self)@.active_path.len() == 0 || far_from_last {
                    old(self)@.active_path.push(p)
                } else {
                    old(self)@.active_path
                },
                ..old(self)@
            }),
    {
        if self.active_path.len() == 0 || far_from_last {
            self.active_path.push(p);
        }
    }

    /// The freehand stroke ended: hands over its points when there are any,
    /// leaving no path behind.
    fn finish_path(&mut self) -> (points: Option<Vec<P>>)
        ensures
            old(self)@.active_path.len() == 0 ==> points is None && final(self)@ == old(self)@,
            old(self)@.active_path.len() > 0 ==> {
                &&& points matches Some(v) && v@ == old(self)@.active_path
                &&& final(self)@ == (OverlayView { active_path: Seq::empty(), ..old(self)@ })
            },
    {
        if self.active_path.len() == 0 {
            None
        } else {
            let mut taken: Vec<P> = Vec::new();
            std::mem::swap(&mut taken, &mut self.active_path);
            Some(taken)
        }
    }

    /// A shape drag started at `pos`.
    fn begin_drag(&mut self, pos: Option<P>)
        ensures
            final(self)@ == (OverlayView { drag_from: pos, ..old(self)@ }),
    {
        self.drag_from = pos;
    }

    /// The shape drag moved to `pos`.
    fn update_drag(&mut self, pos: Option<P>)
        ensures
            final(self)@ == (OverlayView { drag_to: pos, ..old(self)@ }),
    {
        self.drag_to = pos;
    }

    /// The unfinished shape: anchor and live end.
    pub fn drag(&self) -> (d: (Option<P>, Option<P>))
        ensures
            d == (self@.drag_from, self@.drag_to),
    {
        (self.drag_from, self.drag_to)
    }

    /// The shape drag ended: both ends are taken (and cleared); the shape is
    /// returned when both were known.
    fn finish_drag(&mut self) -> (ends: Option<(P, P)>)
        ensures
            final(self)@ == (OverlayView { drag_from: None, drag_to: None, ..old(self)@ }),
            ends == match (old(self)@.drag_from, old(self)@.drag_to) {
                (Some(a), Some(b)) => Some((a, b)),
                _ => None,
            },
    {
        let from = self.drag_from;
        let to = self.drag_to;
        self.drag_from = None;
        self.drag_to = None;
        match (from, to) {
            (Some(a), Some(b)) => Some((a, b)),
            _ => None,
        }
    }

    /// Starts a text entry at `p` with an empty buffer.
    fn open_text(&mut self, p: P)
        ensures
            final(self)@ == (OverlayView {
                pending_text: Some((p, Seq::<char>::empty())),
                ..old(self)@
            }),
    {
        self.pending_text = Some((p, String::new()));
    }

    /// Whether a text entry is open (keys then belong to the text box).
    pub fn is_typing(&self) -> (r: bool)
        ensures
            r == self@.pending_text is Some,
    {
        self.pending_text.is_some()
    }

    /// The open text entry: its position and a copy of what was typed.
    pub fn pending_text(&self) -> (t: Option<(P, String)>)
        ensures
            text_view(t) == self@.pending_text,
    {
        match &self.pending_text {
            Some((p, s)) => Some((*p, s.clone())),
            None => None,
        }
    }

    /// Replaces the typed text of the open entry; without an open entry
    /// nothing changes.
    pub fn set_pending_text(&mut self, text: String)
        ensures
            final(self)@ == (OverlayView {
                pending_text: match old(self)@.pending_text {
                    Some((p, _)) => Some((p, text@)),
                    None => None,
                },
                ..old(self)@
            }),
    {
        let p = match &self.pending_text {
            Some((p, _)) => *p,
            None => {
                return;
            },
        };
        self.pending_text = Some((p, text));
    }

    /// Closes the text entry without placing anything.
    pub fn cancel_text(&mut self)
        ensures
            final(self)@ == (OverlayView { pending_text: None, ..old(self)@ }),
    {
        self.pending_text = None;
    }

    /// Closes the text entry; returns its position and text when the text is
    /// not blank, for the caller to commit as a mark.
    pub fn commit_pending_text(&mut self) -> (placed: Option<(P, String)>)
        ensures
            final(self)@ == (OverlayView { pending_text: None, ..old(self)@ }),
            text_view(placed) == match old(self)@.pending_text {
                Some((p, s)) => if is_blank(s) {
                    None
                } else {
                    Some((p, s))
                },
                None => None,
            },
    {
        let mut taken: Option<(P, String)> = None;
        std::mem::swap(&mut taken, &mut self.pending_text);
        match taken {
            Some((p, s)) => {
                let t = trim(s.as_str());
                proof {
                    lemma_trimmed_empty_iff_blank(s@);
                }
                if t.is_empty() {
                    None
                } else {
                    Some((p, s))
                }
            },
            None => None,
        }
    }

    /// One frame of pointer input on the canvas with `tool`. A freehand
    /// stroke (pen, highlighter) restarts on drag start, keeps the first
    /// point and those `far_from_last`, and is handed over on drag stop; a
    /// shape drag records its anchor on drag start and its end while dragging,
    /// and is handed over on drag stop when both are known; a text click opens
    /// a text entry; the eraser removes the marks flagged in `hits`. The laser
    /// leaves no mark. Steps happen in the order start, move, stop.
    pub fn on_pointer(&mut self, tool: Tool, input: PointerInput<P>, hits: &Vec<bool>) -> (out:
        PointerOutcome<P>)
        requires
            erases(tool, input) ==> hits@.len() == old(self)@.history.marks.len(),
        ensures
            (tool == Tool::Pen || tool == Tool::Highlighter) ==> {
                let path = path_after_move(old(self)@.active_path, input);
                if input.drag_stopped && path.len() > 0 {
                    &&& out matches PointerOutcome::Path(v) && v@ == path
                    &&& final(self)@ == (OverlayView { active_path: Seq::empty(), ..old(self)@ })
                } else {
                    &&& out is Nothing
                    &&& final(self)@ == (OverlayView { active_path: path, ..old(self)@ })
                }
            },
            is_shape_tool(tool) ==> {
                let from = if input.drag_started {
                    input.pos
                } else {
                    old(self)@.drag_from
                };
                let to = if input.dragged {
                    input.pos
                } else {
                    old(self)@.drag_to
                };
                if input.drag_stopped {
                    &&& final(self)@ == (OverlayView { drag_from: None, drag_to: None, ..old(self)@ })
                    &&& (from is Some && to is Some) ==> out == PointerOutcome::Shape(
                        from->0,
                        to->0,
                    )
                    &&& !(from is Some && to is Some) ==> out is Nothing
                } else {
                    &&& out is Nothing
                    &&& final(self)@ == (OverlayView { drag_from: from, drag_to: to, ..old(self)@ })
                }
            },
            tool == Tool::Text ==> {
                &&& out is Nothing
                &&& final(self)@ == if input.clicked && input.pos is Some {
                    OverlayView {
                        pending_text: Some((input.pos->0, Seq::<char>::empty())),
                        ..old(self)@
                    }
                } else {
                    old(self)@
                }
            },
            tool == Tool::Eraser ==> {
                &&& out is Nothing
                &&& if erases(tool, input) {
                    final(self)@ == (OverlayView {
                        history: after_erase(old(self)@.history, hits@),
                        ..old(self)@
                    })
                } else {
                    final(self)@ == old(self)@
                }
            },
            tool == Tool::Laser ==> out is Nothing && final(self)@ == old(self)@,
            tool == Tool::Eraser && (input.dragged || input.clicked) && input.pos is Some
                ==> final(self)@.history == after_erase(old(self)@.history, hits@),
            tool == Tool::Eraser && !(input.dragged || input.clicked) ==> final(self)@ == old(self)@,
            tool == Tool::Eraser && (input.dragged || input.clicked) && input.pos is Some
                && any_set(hits@) ==> final(self)@.history.marks == kept(
                old(self)@.history.marks,
                hits@,
            ) && final(self)@.history.marks.len() < old(self)@.history.marks.len(),
            tool == Tool::Eraser && input.pos is None ==> final(self)@ == old(self)@,
    {
        match tool {
            Tool::Pen | Tool::Highlighter => {
                if input.drag_started {
                    self.begin_path();
                }
                if input.dragged {
                    if let Some(p) = input.pos {
                        self.extend_path(p, input.far_from_last);
                    }
                }
                if input.drag_stopped {
                    if let Some(points) = self.finish_path() {
                        return PointerOutcome::Path(points);
                    }
                }
                PointerOutcome::Nothing
            },
            Tool::Line | Tool::Arrow | Tool::Rect | Tool::Ellipse => {
                if input.drag_started {
                    self.begin_drag(input.pos);
                }
                if input.dragged {
                    self.update_drag(input.pos);
                }
                if input.drag_stopped {
                    if let Some((a, b)) = self.finish_drag() {
                        return PointerOutcome::Shape(a, b);
                    }
                }
                PointerOutcome::Nothing
            },
            Tool::Text => {
                if input.clicked {
                    if let Some(p) = input.pos {
                        self.open_text(p);
                    }
                }
                PointerOutcome::Nothing
            },
            Tool::Eraser => {
                if input.dragged || input.clicked {
                    if let Some(_p) = input.pos {
                        proof {
                            law_erase_one_step(self@.history, hits@);
                        }
                        self.erase(hits);
                    }
                }
                PointerOutcome::Nothing
            },
            Tool::Laser => PointerOutcome::Nothing,
        }
    }

    /// Whether the window should keep repainting quickly: a laser trail is
    /// alive, marks are fading, or a shape or path is being drawn.
    pub fn is_animating(&self, laser_active: bool, fade_enabled: bool) -> (r: bool)
        ensures
            r == (laser_active || (fade_enabled && self@.history.marks.len() > 0)
                || self@.drag_from is Some || self@.active_path.len() > 0),
    {
        laser_active || (fade_enabled && self.history.marks().len() > 0) || self.drag_from.is_some()
            || self.active_path.len() > 0
    }
}

/// The draw toggle undoes itself, and from click-through it always brings
/// the overlay back to draw mode with the mouse captured and focus requested.
pub proof fn law_toggle_draw<M, P>(v: OverlayView<M, P>)
    ensures
        after_mode_action(after_mode_action(v, GlobalAction::ToggleDraw).0, GlobalAction::ToggleDraw).0
            == v,
        v.click_through ==> !after_mode_action(v, GlobalAction::ToggleDraw).0.click_through,
        v.click_through ==> after_mode_action(v, GlobalAction::ToggleDraw).1 == seq![
            ViewportRequest::MousePassthrough(false),
            ViewportRequest::Focus,
        ],
{
}

/// Hiding the overlay also makes it click-through, so an invisible overlay
/// never swallows clicks; showing it again leaves the mode as it is.
pub proof fn law_hidden_overlay_passes_clicks<M, P>(v: OverlayView<M, P>)
    ensures
        !v.overlay_hidden ==> {
            let (w, reqs) = after_mode_action(v, GlobalAction::ToggleVisibility);
            &&& w.overlay_hidden
            &&& w.click_through
            &&& reqs == seq![ViewportRequest::MousePassthrough(true)]
        },
        v.overlay_hidden ==> {
            let (w, reqs) = after_mode_action(v, GlobalAction::ToggleVisibility);
            &&& !w.overlay_hidden
            &&& w.click_through == v.click_through
            &&& reqs.len() == 0
        },
{
}

/// The tray menu is a way out: from a hidden or click-through overlay,
/// "Show / hide overlay" returns to draw mode, capturing the mouse and asking
/// for focus, without touching the canvas.
pub proof fn law_tray_leaves_click_through<M, P>(v: OverlayView<M, P>)
    requires
        v.click_through || v.overlay_hidden,
    ensures
        !after_tray_action(v, TrayAction::ToggleOverlay).0.click_through,
        !after_tray_action(v, TrayAction::ToggleOverlay).0.overlay_hidden,
        after_tray_action(v, TrayAction::ToggleOverlay).1 == seq![
            ViewportRequest::MousePassthrough(false),
            ViewportRequest::Focus,
        ],
        after_tray_action(v, TrayAction::ToggleOverlay).0.history == v.history,
{
}

/// Click-through never strands the user: whenever the toolbar offers it
/// (the draw hotkey is registered or a tray menu exists), one of those
/// brings the overlay back to draw mode from click-through.
pub proof fn law_click_through_never_strands<M, P>(
    v: OverlayView<M, P>,
    hotkey_available: bool,
    has_tray: bool,
)
    requires
        escapable(hotkey_available, has_tray),
        v.click_through,
        !v.overlay_hidden,
    ensures
        hotkey_available ==> !after_mode_action(v, GlobalAction::ToggleDraw).0.click_through,
        has_tray ==> !after_tray_action(v, TrayAction::ToggleOverlay).0.click_through,
        hotkey_available || has_tray,
{
}

/// Delete or Backspace with no modifier, and the Ctrl+Shift+X shortcut, clear
/// the canvas in one undo step: a non-empty canvas ends empty with its marks
/// on top of the undo stack and nothing to redo; an empty one is left as it
/// is (the clear itself also drops every draft).
pub proof fn law_clear_shortcuts<M, P>(v: OverlayView<M, P>, k: Key, m: Modifiers)
    requires
        bounded(v.history),
        k == Key::Delete || k == Key::Backspace,
        m.none_held(),
    ensures
        command_of(k, m) == Some(KeyCommand::ClearAll),
        after_clear(v.history).marks.len() == 0,
        v.history.marks.len() > 0 ==> after_clear(v.history).undo.last() == v.history.marks,
        v.history.marks.len() > 0 ==> after_clear(v.history).redo.len() == 0,
        v.history.marks.len() > 0 ==> after_clear(v.history).undo.len() <= MAX_UNDO,
        v.history.marks.len() == 0 ==> after_clear(v.history) == v.history,
{
}

/// The eraser works while dragging as well as on a click: whenever the
/// pointer is dragged or clicks at a known position with the eraser, the
/// marks it hits are erased (the rest kept in order, as one undo step, so at
/// least one mark goes when any is hit); without a drag or click, or without
/// a position, nothing is erased; no other tool erases.
pub proof fn law_eraser_drag_or_click<M, P>(
    tool: Tool,
    input: PointerInput<P>,
    h: HistoryView<M>,
    hits: Seq<bool>,
)
    requires
        hits.len() == h.marks.len(),
    ensures
        tool == Tool::Eraser && input.dragged && input.pos is Some ==> erases(tool, input),
        tool == Tool::Eraser && input.clicked && input.pos is Some ==> erases(tool, input),
        !(input.dragged || input.clicked) ==> !erases(tool, input),
        input.pos is None ==> !erases(tool, input),
        tool != Tool::Eraser ==> !erases(tool, input),
        erases(tool, input) && any_set(hits) ==> after_erase(h, hits).marks == kept(h.marks, hits)
            && after_erase(h, hits).marks.len() < h.marks.len(),
{
    law_erase_one_step(h, hits);
}

/// Switching modes never touches the marks, their history or the drafts.
pub proof fn law_mode_switch_keeps_canvas<M, P>(v: OverlayView<M, P>, a: GlobalAction)
    requires
        a != GlobalAction::ClearAll,
    ensures
        after_mode_action(v, a).0.history == v.history,
        after_mode_action(v, a).0.active_path == v.active_path,
        after_mode_action(v, a).0.drag_from == v.drag_from,
        after_mode_action(v, a).0.drag_to == v.drag_to,
        after_mode_action(v, a).0.pending_text == v.pending_text,
{
}

} // verus!
