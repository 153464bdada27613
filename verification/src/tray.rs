//! The system-tray menu's choices and the tray glyph.

use vstd::prelude::*;

verus! {

/// What the user picked from the tray menu this frame.
#[derive(Debug, Clone, Copy, PartialEq, Eq, Structural)]
pub enum TrayAction {
    NoAction,
    ToggleOverlay,
    Quit,
}

/// The ids of the tray menu's two entries.
pub struct TrayMenu {
    pub toggle_id: String,
    pub quit_id: String,
}

/// The choice a click on the menu entry `id` makes.
pub open spec fn menu_action(m: &TrayMenu, id: Seq<char>) -> TrayAction {
    if id == m.toggle_id@ {
        TrayAction::ToggleOverlay
    } else if id == m.quit_id@ {
        TrayAction::Quit
    } else {
        TrayAction::NoAction
    }
}

impl TrayMenu {
    /// The choice a click on the menu entry `id` makes; clicks on other
    /// entries choose nothing.
    pub fn action_for(&self, id: &String) -> (a: TrayAction)
        ensures
            a == menu_action(self, id@),
    {
        if *id == self.toggle_id {
            TrayAction::ToggleOverlay
        } else if *id == self.quit_id {
            TrayAction::Quit
        } else {
            TrayAction::NoAction
        }
    }
}

impl TrayMenu {
    /// The choice of the pending menu clicks, oldest first: the first click
    /// that chooses something decides; when none does, nothing is chosen.
    pub fn poll(&self, ids: &Vec<String>) -> (a: TrayAction)
        ensures
            a == TrayAction::NoAction ==> forall|j: int|
                0 <= j < ids@.len() ==> menu_action(self, #[trigger] ids@[j]@)
                    == TrayAction::NoAction,
            a != TrayAction::NoAction ==> exists|k: int|
                0 <= k < ids@.len() && a == menu_action(self, ids@[k]@) && forall|j: int|
                    0 <= j < k ==> menu_action(self, #[trigger] ids@[j]@) == TrayAction::NoAction,
    {
        let mut i: usize = 0;
        while i < ids.len()
            invariant
                i <= ids@.len(),
                forall|j: int|
                    0 <= j < i ==> menu_action(self, #[trigger] ids@[j]@) == TrayAction::NoAction,
            decreases ids@.len() - i,
        {
            let a = self.action_for(&ids[i]);
            if a != TrayAction::NoAction {
                assert(a == menu_action(self, ids@[i as int]@));
                return a;
            }
            i = i + 1;
        }
        TrayAction::NoAction
    }
}

/// Side of the square tray glyph, in pixels.
pub const ICON_SIZE: usize = 32;

/// Pixel (x, y) of the 32×32 glyph lies in its disc: the disc has centre
/// (15.5, 15.5) and radius 14.5, written here in half-pixel units.
pub open spec fn in_disc(x: int, y: int) -> bool {
    (2 * x - 31) * (2 * x - 31) + (2 * y - 31) * (2 * y - 31) <= 29 * 29
}

/// Channel `c` (r, g, b, a) of a glyph pixel: Penny's green `#34c759`,
/// opaque, inside the disc; transparent black outside.
pub open spec fn glyph_channel(inside: bool, c: int) -> u8 {
    if !inside {
        0
    } else if c == 0 {
        0x34
    } else if c == 1 {
        0xc7
    } else if c == 2 {
        0x59
    } else {
        0xff
    }
}

/// The glyph's bytes hold pixel (x, y) at 4 * (32 * y + x) = 128 * y + 4 * x, as
/// r, g, b, a; this holds for the first `pixels` pixels.
pub open spec fn glyph_matches(bytes: Seq<u8>, pixels: int) -> bool {
    forall|x: int, y: int, c: int|
        0 <= x < 32 && 0 <= y < 32 && 0 <= c < 4 && 32 * y + x < pixels ==> #[trigger] bytes[128 * y + 4 * x + c] == glyph_channel(in_disc(x, y), c)
}

/// A 32×32 filled circle in Penny's green (`#34c759`) used as the tray glyph,
/// as RGBA bytes row by row.
pub fn brand_icon_rgba() -> (rgba: Vec<u8>)
    ensures
        rgba@.len() == 4096,
        glyph_matches(rgba@, 32 * 32 as int),
{
    let mut rgba: Vec<u8> = Vec::new();
    let mut y: i32 = 0;
    while y < 32
        invariant
            0 <= y <= 32,
            rgba@.len() == 128 * y,
            glyph_matches(rgba@, 32 * y as int),
        decreases 32 - y,
    {
        let mut x: i32 = 0;
        while x < 32
            invariant
                0 <= y < 32,
                0 <= x <= 32,
                rgba@.len() == 128 * y + 4 * x,
                glyph_matches(rgba@, 32 * y as int + x),
            decreases 32 - x,
        {
            let dx: i32 = 2 * x - 31;
            let dy: i32 = 2 * y - 31;
            assert(dx * dx <= 1089 && dy * dy <= 1089) by (nonlinear_arith)
                requires
                    -31 <= dx <= 33,
                    -31 <= dy <= 33,
            ;
            assert(dx * dx >= 0 && dy * dy >= 0) by (nonlinear_arith);
            let inside = dx * dx + dy * dy <= 29 * 29;
            assert(inside == in_disc(x as int, y as int));
            let ghost before = rgba@;
            let ghost p = 32 * y + x;
            if inside {
                rgba.push(0x34);
                rgba.push(0xc7);
                rgba.push(0x59);
                rgba.push(0xff);
            } else {
                rgba.push(0);
                rgba.push(0);
                rgba.push(0);
                rgba.push(0);
            }
            assert forall|x2: int, y2: int, c: int|
                0 <= x2 < 32 && 0 <= y2 < 32 && 0 <= c < 4 && 32 * y2 + x2 < p + 1 implies #[trigger] rgba@[128 * y2 + 4 * x2 + c] == glyph_channel(in_disc(x2, y2), c) by {
                if 32 * y2 + x2 < p {
                    assert(rgba@[128 * y2 + 4 * x2 + c] == before[128 * y2 + 4 * x2 + c]);
                } else {
                    assert(y2 == y && x2 == x);
                }
            }
            x = x + 1;
        }
        y = y + 1;
    }
    rgba
}

} // verus!
