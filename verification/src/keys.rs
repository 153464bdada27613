//! Keyboard shortcuts in draw mode: which command a key press gives.

use vstd::prelude::*;

use crate::model::{clamped_index, tool_hotkey, Tool, PALETTE_LEN};

verus! {

/// The keys the overlay listens to in draw mode.
#[derive(Debug, Clone, Copy, PartialEq, Eq, Structural)]
pub enum Key {
    P,
    H,
    N,
    A,
    R,
    O,
    T,
    E,
    L,
    Z,
    Y,
    S,
    F,
    Delete,
    Backspace,
    OpenBracket,
    CloseBracket,
    Num1,
    Num2,
    Num3,
    Num4,
    Num5,
    Num6,
    Num7,
    Num8,
}

/// The modifier keys held during a key press. `command` is Ctrl, or Cmd on macOS.
#[derive(Debug, Clone, Copy, PartialEq, Eq, Structural)]
pub struct Modifiers {
    pub alt: bool,
    pub ctrl: bool,
    pub shift: bool,
    pub mac_cmd: bool,
    pub command: bool,
}

impl Modifiers {
    /// No modifier is held.
    pub open spec fn none_held(self) -> bool {
        !self.alt && !self.ctrl && !self.shift && !self.mac_cmd && !self.command
    }

    pub fn is_none(&self) -> (r: bool)
        ensures
            r == self.none_held(),
    {
        !self.alt && !self.ctrl && !self.shift && !self.mac_cmd && !self.command
    }
}

/// What a key press asks for.
#[derive(Debug, Clone, Copy, PartialEq, Eq, Structural)]
pub enum KeyCommand {
    SelectTool(Tool),
    ToggleFade,
    Undo,
    Redo,
    Export,
    ClearAll,
    /// Stroke width one step down (`[`).
    NarrowStroke,
    /// Stroke width one step up (`]`).
    WidenStroke,
    /// Palette slot (0-based).
    SelectColor(usize),
}

/// The tool a letter key selects, if any.
pub open spec fn key_tool(k: Key) -> Option<Tool> {
    match k {
        Key::P => Some(Tool::Pen),
        Key::H => Some(Tool::Highlighter),
        Key::N => Some(Tool::Line),
        Key::A => Some(Tool::Arrow),
        Key::R => Some(Tool::Rect),
        Key::O => Some(Tool::Ellipse),
        Key::T => Some(Tool::Text),
        Key::E => Some(Tool::Eraser),
        Key::L => Some(Tool::Laser),
        _ => None,
    }
}

/// The palette slot a number key selects, if any: keys 1–8 select slots 0–7.
pub open spec fn key_slot(k: Key) -> Option<usize> {
    match k {
        Key::Num1 => Some(0usize),
        Key::Num2 => Some(1usize),
        Key::Num3 => Some(2usize),
        Key::Num4 => Some(3usize),
        Key::Num5 => Some(4usize),
        Key::Num6 => Some(5usize),
        Key::Num7 => Some(6usize),
        Key::Num8 => Some(7usize),
        _ => None,
    }
}

/// The command of a key press with the given modifiers.
pub open spec fn command_of(k: Key, m: Modifiers) -> Option<KeyCommand> {
    if key_tool(k) is Some {
        if m.none_held() {
            Some(KeyCommand::SelectTool(key_tool(k)->0))
        } else {
            None
        }
    } else if key_slot(k) is Some {
        if m.none_held() {
            Some(KeyCommand::SelectColor(key_slot(k)->0))
        } else {
            None
        }
    } else {
        match k {
            Key::F => if m.none_held() {
                Some(KeyCommand::ToggleFade)
            } else {
                None
            },
            Key::Z => if m.command && m.shift {
                Some(KeyCommand::Redo)
            } else if m.command {
                Some(KeyCommand::Undo)
            } else {
                None
            },
            Key::Y => if m.command {
                Some(KeyCommand::Redo)
            } else {
                None
            },
            Key::S => if m.command {
                Some(KeyCommand::Export)
            } else {
                None
            },
            Key::Delete | Key::Backspace => if m.none_held() {
                Some(KeyCommand::ClearAll)
            } else {
                None
            },
            Key::OpenBracket => Some(KeyCommand::NarrowStroke),
            Key::CloseBracket => Some(KeyCommand::WidenStroke),
            _ => None,
        }
    }
}

/// The command of a key press in draw mode, if it has one. Tool letters,
/// number keys, `F` and Delete/Backspace need no modifier held; Ctrl
/// (Cmd) with Z undoes, with Shift+Z or Y redoes, with S exports; the
/// brackets change the stroke width whatever is held.
pub fn key_command(key: Key, mods: Modifiers) -> (c: Option<KeyCommand>)
    ensures
        c == command_of(key, mods),
{
    let plain = mods.is_none();
    match key {
        Key::P => if plain { Some(KeyCommand::SelectTool(Tool::Pen)) } else { None },
        Key::H => if plain { Some(KeyCommand::SelectTool(Tool::Highlighter)) } else { None },
        Key::N => if plain { Some(KeyCommand::SelectTool(Tool::Line)) } else { None },
        Key::A => if plain { Some(KeyCommand::SelectTool(Tool::Arrow)) } else { None },
        Key::R => if plain { Some(KeyCommand::SelectTool(Tool::Rect)) } else { None },
        Key::O => if plain { Some(KeyCommand::SelectTool(Tool::Ellipse)) } else { None },
        Key::T => if plain { Some(KeyCommand::SelectTool(Tool::Text)) } else { None },
        Key::E => if plain { Some(KeyCommand::SelectTool(Tool::Eraser)) } else { None },
        Key::L => if plain { Some(KeyCommand::SelectTool(Tool::Laser)) } else { None },
        Key::F => if plain { Some(KeyCommand::ToggleFade) } else { None },
        Key::Z => if mods.command && mods.shift {
            Some(KeyCommand::Redo)
        } else if mods.command {
            Some(KeyCommand::Undo)
        } else {
            None
        },
        Key::Y => if mods.command { Some(KeyCommand::Redo) } else { None },
        Key::S => if mods.command { Some(KeyCommand::Export) } else { None },
        Key::Delete | Key::Backspace => if plain { Some(KeyCommand::ClearAll) } else { None },
        Key::OpenBracket => Some(KeyCommand::NarrowStroke),
        Key::CloseBracket => Some(KeyCommand::WidenStroke),
        Key::Num1 => if plain { Some(KeyCommand::SelectColor(0)) } else { None },
        Key::Num2 => if plain { Some(KeyCommand::SelectColor(1)) } else { None },
        Key::Num3 => if plain { Some(KeyCommand::SelectColor(2)) } else { None },
        Key::Num4 => if plain { Some(KeyCommand::SelectColor(3)) } else { None },
        Key::Num5 => if plain { Some(KeyCommand::SelectColor(4)) } else { None },
        Key::Num6 => if plain { Some(KeyCommand::SelectColor(5)) } else { None },
        Key::Num7 => if plain { Some(KeyCommand::SelectColor(6)) } else { None },
        Key::Num8 => if plain { Some(KeyCommand::SelectColor(7)) } else { None },
    }
}

/// The letter printed on a key, for the letter keys.
pub open spec fn key_letter(k: Key) -> Seq<char> {
    match k {
        Key::P => "P"@,
        Key::H => "H"@,
        Key::N => "N"@,
        Key::A => "A"@,
        Key::R => "R"@,
        Key::O => "O"@,
        Key::T => "T"@,
        Key::E => "E"@,
        Key::L => "L"@,
        Key::Z => "Z"@,
        Key::Y => "Y"@,
        Key::S => "S"@,
        Key::F => "F"@,
        _ => Seq::empty(),
    }
}

/// The hotkey a tool advertises is the key that selects it: with no modifier
/// held, pressing the key whose letter is `t.hotkey()` selects `t`, and
/// such a key exists for every tool.
pub proof fn law_tool_hotkey_selects_tool(t: Tool, m: Modifiers)
    requires
        m.none_held(),
    ensures
        exists|k: Key| key_letter(k) == tool_hotkey(t),
        forall|k: Key|
            key_letter(k) == tool_hotkey(t) ==> command_of(k, m) == Some(KeyCommand::SelectTool(t)),
{
    reveal_strlit("P");
    reveal_strlit("H");
    reveal_strlit("N");
    reveal_strlit("A");
    reveal_strlit("R");
    reveal_strlit("O");
    reveal_strlit("T");
    reveal_strlit("E");
    reveal_strlit("L");
    reveal_strlit("Z");
    reveal_strlit("Y");
    reveal_strlit("S");
    reveal_strlit("F");
    let k = match t {
        Tool::Pen => Key::P,
        Tool::Highlighter => Key::H,
        Tool::Line => Key::N,
        Tool::Arrow => Key::A,
        Tool::Rect => Key::R,
        Tool::Ellipse => Key::O,
        Tool::Text => Key::T,
        Tool::Eraser => Key::E,
        Tool::Laser => Key::L,
    };
    assert(key_letter(k) == tool_hotkey(t));
    assert forall|k2: Key| key_letter(k2) == tool_hotkey(t) implies command_of(k2, m) == Some(
        KeyCommand::SelectTool(t),
    ) by {
        assert(key_letter(k2) =~= tool_hotkey(t));
        assert(key_letter(k2)[0] == tool_hotkey(t)[0]);
    }
}

/// The number keys 1–8 pick the quick colours: with no modifier held, the
/// key for slot `s` selects palette slot `s`, which the colour lookup takes
/// as it is.
pub proof fn law_number_keys_pick_palette(k: Key, m: Modifiers)
    requires
        key_slot(k) is Some,
        m.none_held(),
    ensures
        command_of(k, m) == Some(KeyCommand::SelectColor(key_slot(k)->0)),
        key_slot(k)->0 < PALETTE_LEN,
        clamped_index(key_slot(k)->0 as int) == key_slot(k)->0,
{
}

} // verus!
