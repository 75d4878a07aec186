//! Event vocabulary of the keyframe generators, and the naming of keys for
//! keystroke overlays.

use vstd::prelude::*;
use vstd::string::*;

verus! {

/// Click type.
#[derive(Debug, Clone, Copy, PartialEq, Eq, Structural)]
pub enum ClickType {
    LeftDown,
    LeftUp,
    RightDown,
    RightUp,
    DoubleClick,
}

impl ClickType {
    /// A left press or a double click: the clicks that get a ripple.
    pub fn triggers_ripple(&self) -> (r: bool)
        ensures
            r == (*self == ClickType::LeftDown || *self == ClickType::DoubleClick),
    {
        *self == ClickType::LeftDown || *self == ClickType::DoubleClick
    }

    /// A left or right press: the clicks that shrink the cursor while held.
    pub fn is_press(&self) -> (r: bool)
        ensures
            r == (*self == ClickType::LeftDown || *self == ClickType::RightDown),
    {
        *self == ClickType::LeftDown || *self == ClickType::RightDown
    }
}

#[derive(Debug, Clone, Copy, PartialEq, Eq, Structural)]
pub enum KeyEventType {
    KeyDown,
    KeyUp,
}

/// Modifier keys held during a keyboard event.
#[derive(Debug, Clone, Copy)]
pub struct Modifiers {
    pub command: bool,
    pub shift: bool,
    pub alt: bool,
    pub control: bool,
}

impl Default for Modifiers {
    fn default() -> (r: Self)
        ensures
            !r.command && !r.shift && !r.alt && !r.control,
    {
        Modifiers { command: false, shift: false, alt: false, control: false }
    }
}

impl Modifiers {
    pub fn has_modifiers(&self) -> (r: bool)
        ensures
            r == (self.command || self.shift || self.alt || self.control),
    {
        self.command || self.shift || self.alt || self.control
    }
}

/// Activity type detected from mouse data.
#[derive(Debug, Clone, Copy, PartialEq, Eq, Structural)]
pub enum ActivityType {
    Click,
    Typing,
    DragStart,
    DragEnd,
}

/// `piece` appended to `s` when `held`.
pub open spec fn append_if(s: Seq<char>, held: bool, piece: Seq<char>) -> Seq<char> {
    if held {
        s + piece
    } else {
        s
    }
}

/// Overlay prefix of the held modifiers, in the order Ctrl, Alt, Shift, Cmd.
pub open spec fn spec_modifier_symbols(m: Modifiers) -> Seq<char> {
    append_if(
        append_if(append_if(append_if(Seq::empty(), m.control, "Ctrl+"@), m.alt, "Alt+"@), m.shift, "Shift+"@),
        m.command,
        "Cmd+"@,
    )
}

pub fn modifier_symbols(mods: &Modifiers) -> (r: String)
    ensures
        r@ == spec_modifier_symbols(*mods),
{
    let mut s = String::new();
    if mods.control {
        s.append("Ctrl+");
    }
    if mods.alt {
        s.append("Alt+");
    }
    if mods.shift {
        s.append("Shift+");
    }
    if mods.command {
        s.append("Cmd+");
    }
    s
}

/// How a key code is shown: by a fixed name, not at all (a standalone
/// modifier), or by the character it produced.
pub enum KeyName {
    Named(Seq<char>),
    Modifier,
    ByCharacter,
}

/// Named keys, under both common virtual key code sets.
pub open spec fn key_name(code: u16) -> KeyName {
    if code == 0x0D || code == 36 {
        KeyName::Named("Enter"@)
    } else if code == 0x09 || code == 48 {
        KeyName::Named("Tab"@)
    } else if code == 0x20 || code == 49 {
        KeyName::Named("Space"@)
    } else if code == 0x08 || code == 51 {
        KeyName::Named("Backspace"@)
    } else if code == 0x1B || code == 53 {
        KeyName::Named("Escape"@)
    } else if code == 0x2E || code == 117 {
        KeyName::Named("Delete"@)
    } else if code == 0x25 || code == 123 {
        KeyName::Named("Left"@)
    } else if code == 0x27 || code == 124 {
        KeyName::Named("Right"@)
    } else if code == 0x28 || code == 125 {
        KeyName::Named("Down"@)
    } else if code == 0x26 || code == 126 {
        KeyName::Named("Up"@)
    } else if code == 115 {
        KeyName::Named("Home"@)
    } else if code == 0x23 || code == 119 {
        KeyName::Named("End"@)
    } else if code == 0x21 || code == 116 {
        KeyName::Named("PageUp"@)
    } else if code == 0x22 || code == 121 {
        KeyName::Named("PageDown"@)
    } else if code == 54 || code == 55 || code == 56 || (58 <= code <= 63) || (0xA0 <= code
        <= 0xA5) {
        KeyName::Modifier
    } else {
        KeyName::ByCharacter
    }
}

/// Upper-case form of a string, as std's Unicode case mapping gives it.
pub uninterp spec fn upper_of(s: Seq<char>) -> Seq<char>;

/// Relies on `str::to_uppercase`: the result depends on the characters alone.
#[verifier::external_body]
fn uppercase(s: &str) -> (r: String)
    ensures
        r@ == upper_of(s@),
{
    s.to_uppercase()
}

/// Text shown for a key: its name, nothing for a standalone modifier, else
/// the upper-cased character when there is a non-empty one.
pub open spec fn spec_key_display_name(code: u16, character: Option<Seq<char>>) -> Option<
    Seq<char>,
> {
    match key_name(code) {
        KeyName::Named(n) => Some(n),
        KeyName::Modifier => None,
        KeyName::ByCharacter => match character {
            Some(c) => if c.len() == 0 {
                None
            } else {
                Some(upper_of(c))
            },
            None => None,
        },
    }
}

pub open spec fn str_chars(c: Option<&str>) -> Option<Seq<char>> {
    match c {
        Some(s) => Some(s@),
        None => None,
    }
}

pub open spec fn string_chars(c: Option<String>) -> Option<Seq<char>> {
    match c {
        Some(s) => Some(s@),
        None => None,
    }
}

pub fn key_display_name(key_code: u16, character: Option<&str>) -> (r: Option<String>)
    ensures
        string_chars(r) == spec_key_display_name(key_code, str_chars(character)),
{
    let name: &str = if key_code == 0x0D || key_code == 36 {
        "Enter"
    } else if key_code == 0x09 || key_code == 48 {
        "Tab"
    } else if key_code == 0x20 || key_code == 49 {
        "Space"
    } else if key_code == 0x08 || key_code == 51 {
        "Backspace"
    } else if key_code == 0x1B || key_code == 53 {
        "Escape"
    } else if key_code == 0x2E || key_code == 117 {
        "Delete"
    } else if key_code == 0x25 || key_code == 123 {
        "Left"
    } else if key_code == 0x27 || key_code == 124 {
        "Right"
    } else if key_code == 0x28 || key_code == 125 {
        "Down"
    } else if key_code == 0x26 || key_code == 126 {
        "Up"
    } else if key_code == 115 {
        "Home"
    } else if key_code == 0x23 || key_code == 119 {
        "End"
    } else if key_code == 0x21 || key_code == 116 {
        "PageUp"
    } else if key_code == 0x22 || key_code == 121 {
        "PageDown"
    } else if key_code == 54 || key_code == 55 || key_code == 56 || (58 <= key_code
        && key_code <= 63) || (0xA0 <= key_code && key_code <= 0xA5) {
        return None;
    } else {
        return match character {
            Some(c) => {
                if c.is_empty() {
                    None
                } else {
                    Some(uppercase(c))
                }
            },
            None => None,
        };
    };
    Some(String::from_str(name))
}

pub open spec fn has_any_modifier(m: Modifiers) -> bool {
    m.command || m.shift || m.alt || m.control
}

/// Overlay text of a keyboard event: the modifier prefix and the key's
/// name. A key release, a key with nothing to show, and in shortcuts-only
/// mode a key pressed without modifiers, give none.
pub open spec fn spec_keystroke_label(
    event_type: KeyEventType,
    key_code: u16,
    character: Option<Seq<char>>,
    modifiers: Modifiers,
    shortcuts_only: bool,
) -> Option<Seq<char>> {
    if event_type != KeyEventType::KeyDown {
        None
    } else {
        match spec_key_display_name(key_code, character) {
            None => None,
            Some(name) => if shortcuts_only && !has_any_modifier(modifiers) {
                None
            } else {
                Some(spec_modifier_symbols(modifiers) + name)
            },
        }
    }
}

/// The overlay text a keyboard event produces, if any.
pub fn keystroke_label(
    event_type: KeyEventType,
    key_code: u16,
    character: Option<&str>,
    modifiers: &Modifiers,
    shortcuts_only: bool,
) -> (r: Option<String>)
    ensures
        string_chars(r) == spec_keystroke_label(
            event_type,
            key_code,
            str_chars(character),
            *modifiers,
            shortcuts_only,
        ),
{
    if event_type != KeyEventType::KeyDown {
        return None;
    }
    match key_display_name(key_code, character) {
        None => None,
        Some(name) => {
            if shortcuts_only && !modifiers.has_modifiers() {
                None
            } else {
                let mut text = modifier_symbols(modifiers);
                text.append(name.as_str());
                Some(text)
            }
        },
    }
}

} // verus!
