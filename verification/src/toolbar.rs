//! The toolbar's choices about click-through: when it may be entered from
//! the toolbar and which way out the toolbar points to.

use vstd::prelude::*;

verus! {

/// Click-through can be left again: by the draw hotkey or by the tray menu.
pub open spec fn escapable(hotkey_available: bool, has_tray: bool) -> bool {
    hotkey_available || has_tray
}

/// Whether the toolbar offers its click-through button. It is offered only
/// when there is a way back out, so the button can never strand the user.
pub fn click_through_offered(hotkey_available: bool, has_tray: bool) -> (r: bool)
    ensures
        r == escapable(hotkey_available, has_tray),
{
    hotkey_available || has_tray
}

/// The hint shown while click-through is on.
pub open spec fn escape_hint_text(hotkey_available: bool, has_tray: bool) -> Seq<char> {
    if hotkey_available {
        "Ctrl+Shift+D to draw"@
    } else if has_tray {
        "tray menu → Toggle draw"@
    } else {
        "restart to draw"@
    }
}

/// The hint shown while click-through is on: it points at whichever way
/// out works on this machine.
pub fn escape_hint(hotkey_available: bool, has_tray: bool) -> (r: &'static str)
    ensures
        r@ == escape_hint_text(hotkey_available, has_tray),
{
    if hotkey_available {
        "Ctrl+Shift+D to draw"
    } else if has_tray {
        "tray menu → Toggle draw"
    } else {
        "restart to draw"
    }
}

/// The warning shown in draw mode when the draw hotkey is missing.
pub open spec fn hotkey_warning_text(hotkey_available: bool, has_tray: bool) -> Option<Seq<char>> {
    if hotkey_available {
        None
    } else if has_tray {
        Some("⚠ Ctrl+Shift+D unavailable — use the tray menu to leave click-through"@)
    } else {
        Some("⚠ Ctrl+Shift+D unavailable — no way back from click-through"@)
    }
}

/// The warning shown in draw mode when the draw hotkey, the only hotkey
/// that escapes click-through, could not be registered; none otherwise.
pub fn hotkey_warning(hotkey_available: bool, has_tray: bool) -> (r: Option<&'static str>)
    ensures
        r is Some <==> !hotkey_available,
        r matches Some(s) ==> Some(s@) == hotkey_warning_text(hotkey_available, has_tray),
{
    if hotkey_available {
        None
    } else if has_tray {
        Some("⚠ Ctrl+Shift+D unavailable — use the tray menu to leave click-through")
    } else {
        Some("⚠ Ctrl+Shift+D unavailable — no way back from click-through")
    }
}

/// The tooltip of the click-through button.
pub open spec fn click_through_tooltip_text(offered: bool) -> Seq<char> {
    if offered {
        "Click-through: pass clicks to the app underneath (Ctrl+Shift+D)"@
    } else {
        "Click-through unavailable: no hotkey or tray to return from it"@
    }
}

/// The tooltip of the click-through button, which says why it is disabled
/// when it is.
pub fn click_through_tooltip(offered: bool) -> (r: &'static str)
    ensures
        r@ == click_through_tooltip_text(offered),
{
    if offered {
        "Click-through: pass clicks to the app underneath (Ctrl+Shift+D)"
    } else {
        "Click-through unavailable: no hotkey or tray to return from it"
    }
}

/// What the toolbar shows.
#[derive(Debug, Clone, Copy, PartialEq, Eq)]
pub enum ToolbarContent {
    /// In click-through only this hint, pointing at the way out.
    EscapeHint(&'static str),
    /// The full toolbar, topped by this warning.
    FullWithWarning(&'static str),
    /// The full toolbar.
    Full,
}

/// What the toolbar shows: while click-through is on, only the hint that
/// points at the way back to draw mode; otherwise every control, topped by
/// a warning when the draw hotkey is missing.
pub fn toolbar_content(click_through: bool, hotkey_available: bool, has_tray: bool) -> (c:
    ToolbarContent)
    ensures
        click_through ==> (c matches ToolbarContent::EscapeHint(s) && s@ == escape_hint_text(
            hotkey_available,
            has_tray,
        )),
        !click_through && hotkey_available ==> c == ToolbarContent::Full,
        !click_through && !hotkey_available ==> (c matches ToolbarContent::FullWithWarning(s)
            && Some(s@) == hotkey_warning_text(hotkey_available, has_tray)),
{
    if click_through {
        ToolbarContent::EscapeHint(escape_hint(hotkey_available, has_tray))
    } else {
        match hotkey_warning(hotkey_available, has_tray) {
            Some(w) => ToolbarContent::FullWithWarning(w),
            None => ToolbarContent::Full,
        }
    }
}

} // verus!
