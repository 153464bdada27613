//! System-wide hotkeys: which registered shortcut a key event belongs to.
//!
//! - Ctrl+Shift+D — toggle draw mode / click-through
//! - Ctrl+Shift+H — hide/show the overlay
//! - Ctrl+Shift+X — clear all annotations

use vstd::prelude::*;

verus! {

/// What a global shortcut asks the overlay to do.
#[derive(Debug, Clone, Copy, PartialEq, Eq, Structural)]
pub enum GlobalAction {
    ToggleDraw,
    ToggleVisibility,
    ClearAll,
}

/// A key event of a global shortcut: the shortcut's id and whether the key
/// went down (`true`) or up.
#[derive(Debug, Clone, Copy, PartialEq, Eq, Structural)]
pub struct HotkeyEvent {
    pub id: u32,
    pub pressed: bool,
}

/// The ids of the shortcuts that could be registered; `None` where a
/// shortcut could not be claimed (e.g. another app owns it).
pub struct Hotkeys {
    pub toggle_draw: Option<u32>,
    pub toggle_visibility: Option<u32>,
    pub clear_all: Option<u32>,
}

/// The action a key event triggers: only key presses count, and the
/// shortcuts are tried in the order draw toggle, visibility toggle, clear.
pub open spec fn event_action(h: &Hotkeys, e: HotkeyEvent) -> Option<GlobalAction> {
    if !e.pressed {
        None
    } else if h.toggle_draw == Some(e.id) {
        Some(GlobalAction::ToggleDraw)
    } else if h.toggle_visibility == Some(e.id) {
        Some(GlobalAction::ToggleVisibility)
    } else if h.clear_all == Some(e.id) {
        Some(GlobalAction::ClearAll)
    } else {
        None
    }
}

/// The actions of a sequence of key events, in order, skipping the events
/// that trigger none.
pub open spec fn events_actions(h: &Hotkeys, events: Seq<HotkeyEvent>) -> Seq<GlobalAction>
    decreases events.len(),
{
    if events.len() == 0 {
        Seq::empty()
    } else {
        let rest = events_actions(h, events.drop_last());
        match event_action(h, events.last()) {
            Some(a) => rest.push(a),
            None => rest,
        }
    }
}

fn same_id(slot: Option<u32>, id: u32) -> (r: bool)
    ensures
        r == (slot == Some(id)),
{
    match slot {
        Some(s) => s == id,
        None => false,
    }
}

impl Hotkeys {
    /// Whether the draw-mode toggle (Ctrl+Shift+D) is armed. When false, the
    /// hotkey cannot rescue the user from click-through mode, so the UI must
    /// offer another way out.
    pub fn toggle_draw_available(&self) -> (r: bool)
        ensures
            r == self.toggle_draw.is_some(),
    {
        self.toggle_draw.is_some()
    }

    /// The action one key event triggers, if any.
    pub fn action_for(&self, event: HotkeyEvent) -> (r: Option<GlobalAction>)
        ensures
            r == event_action(self, event),
    {
        if !event.pressed {
            None
        } else if same_id(self.toggle_draw, event.id) {
            Some(GlobalAction::ToggleDraw)
        } else if same_id(self.toggle_visibility, event.id) {
            Some(GlobalAction::ToggleVisibility)
        } else if same_id(self.clear_all, event.id) {
            Some(GlobalAction::ClearAll)
        } else {
            None
        }
    }

    /// The actions of the pending hotkey events, in the order they arrived.
    pub fn poll(&self, events: &Vec<HotkeyEvent>) -> (actions: Vec<GlobalAction>)
        ensures
            actions@ == events_actions(self, events@),
    {
        let mut actions: Vec<GlobalAction> = Vec::new();
        let mut i: usize = 0;
        while i < events.len()
            invariant
                i <= events@.len(),
                actions@ == events_actions(self, events@.take(i as int)),
            decreases events@.len() - i,
        {
            let ghost before = events@.take(i as int);
            assert(events@.take(i + 1).drop_last() =~= before);
            if let Some(a) = self.action_for(events[i]) {
                actions.push(a);
            }
            i = i + 1;
        }
        assert(events@.take(events@.len() as int) =~= events@);
        actions
    }
}

/// A press of a registered shortcut always triggers its action, whichever
/// other shortcuts failed to register, while releases and unknown ids
/// trigger nothing.
pub proof fn law_registered_shortcut_fires(h: &Hotkeys, e: HotkeyEvent)
    requires
        h.toggle_draw != h.toggle_visibility || h.toggle_draw is None,
        h.toggle_draw != h.clear_all || h.toggle_draw is None,
        h.toggle_visibility != h.clear_all || h.toggle_visibility is None,
    ensures
        e.pressed && h.toggle_draw == Some(e.id) ==> event_action(h, e) == Some(
            GlobalAction::ToggleDraw,
        ),
        e.pressed && h.toggle_visibility == Some(e.id) ==> event_action(h, e) == Some(
            GlobalAction::ToggleVisibility,
        ),
        e.pressed && h.clear_all == Some(e.id) ==> event_action(h, e) == Some(
            GlobalAction::ClearAll,
        ),
        !e.pressed ==> event_action(h, e) is None,
        (h.toggle_draw != Some(e.id) && h.toggle_visibility != Some(e.id) && h.clear_all != Some(
            e.id,
        )) ==> event_action(h, e) is None,
{
}

} // verus!
