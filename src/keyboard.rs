use vstd::prelude::*;

verus! {

/// Host modifier bit for the Meta key.
pub const META_MODIFIER: u32 = 0x0800_0000;

/// Host modifier bit for the Control key.
pub const CTRL_MODIFIER: u32 = 0x0400_0000;

/// Host modifier bit for the Shift key.
pub const SHIFT_MODIFIER: u32 = 0x0200_0000;

/// Host modifier bit for the Super key.
pub const SUPER_MODIFIER: u32 = 0x0080_0000;

/// The platform's modifier state, one flag per key.
#[derive(Clone, Copy, Debug, PartialEq, Eq, Structural)]
pub struct Modifiers {
    pub alt: bool,
    pub shift: bool,
    pub ctrl: bool,
    pub logo: bool,
}

impl Modifiers {
    /// No modifier held.
    pub fn empty() -> (r: Modifiers)
        ensures
            !r.alt && !r.shift && !r.ctrl && !r.logo,
    {
        Modifiers { alt: false, shift: false, ctrl: false, logo: false }
    }
}

/// The host's bitmask for a platform modifier state.
pub open spec fn host_modifiers(m: Modifiers) -> u32 {
    let alt: u32 = if m.alt { META_MODIFIER } else { 0 };
    let shift: u32 = if m.shift { SHIFT_MODIFIER } else { 0 };
    let ctrl: u32 = if m.ctrl { CTRL_MODIFIER } else { 0 };
    let logo: u32 = if m.logo { SUPER_MODIFIER } else { 0 };
    alt | shift | ctrl | logo
}

/// A character with a terminal control encoding undone: codes below 32 are
/// shifted up by 64, and the upper-case letters that this yields are lowered.
pub open spec fn control_removed(c: u32) -> int {
    if c < 32 {
        if 1 <= c <= 26 {
            c + 96
        } else {
            c + 64
        }
    } else {
        c as int
    }
}


/// Virtual key code of the Escape key, in the windowing library's numbering.
pub const KEY_ESCAPE: u32 = 36;

/// Virtual key code of the Backspace key, in the windowing library's numbering.
pub const KEY_BACK: u32 = 74;

/// Virtual key code of the Return key, in the windowing library's numbering.
pub const KEY_RETURN: u32 = 75;

/// The host's name for a virtual key code, where it has one.
pub open spec fn key_name(code: u32) -> Option<Seq<char>> {
    if code == KEY_ESCAPE {
        Some("escape"@)
    } else if code == KEY_BACK {
        Some("backspace"@)
    } else if code == KEY_RETURN {
        Some("return"@)
    } else {
        None
    }
}

/// The kinds of keyboard event handed to the host.
#[derive(Clone, Copy, Debug, PartialEq, Eq, Structural)]
pub enum EventKind {
    AsciiKeystroke,
    NonAsciiKeystroke,
}

/// A keyboard event in the host's shape, addressed to a frame.
#[derive(Clone, Copy, Debug, PartialEq, Eq)]
pub struct InputEvent<F> {
    pub kind: EventKind,
    pub code: u32,
    pub modifiers: u32,
    pub frame_or_window: F,
}

/// Platform modifier state, and whether plain characters are held back
/// because a special key is down.
#[derive(Clone, Copy, Debug, PartialEq, Eq, Structural)]
pub struct KeyboardProcessor {
    pub modifiers: Modifiers,
    pub suppress_chars: bool,
}

/// The host's name for a virtual key code; `None` for a key it has no name for.
pub fn winit_keycode_emacs_key_name(keycode: u32) -> (r: Option<&'static str>)
    ensures
        r.is_some() == key_name(keycode).is_some(),
        r.is_some() ==> r.unwrap()@ == key_name(keycode).unwrap(),
{
    if keycode == KEY_ESCAPE {
        Some("escape")
    } else if keycode == KEY_BACK {
        Some("backspace")
    } else if keycode == KEY_RETURN {
        Some("return")
    } else {
        None
    }
}

impl KeyboardProcessor {
    /// A processor with no modifier held and characters let through.
    pub fn new() -> (r: KeyboardProcessor)
        ensures
            !r.modifiers.alt && !r.modifiers.shift && !r.modifiers.ctrl && !r.modifiers.logo,
            !r.suppress_chars,
    {
        KeyboardProcessor { modifiers: Modifiers::empty(), suppress_chars: false }
    }

    /// The host's ASCII keystroke event for a received character, or `None`
    /// while a special key holds characters back.
    pub fn receive_char<F>(&self, c: char, top_frame: F) -> (r: Option<InputEvent<F>>)
        ensures
            self.suppress_chars <==> r.is_none(),
            r.is_some() ==> ({
                let e = r.unwrap();
                &&& e.kind == EventKind::AsciiKeystroke
                &&& e.code == control_removed(c as u32)
                &&& e.modifiers == host_modifiers(self.modifiers)
                &&& e.frame_or_window == top_frame
            }),
    {
        if self.suppress_chars {
            return None;
        }
        Some(
            InputEvent {
                kind: EventKind::AsciiKeystroke,
                code: Self::remove_control(c) as u32,
                modifiers: Self::to_emacs_modifiers(self.modifiers),
                frame_or_window: top_frame,
            },
        )
    }

    /// The host's non-ASCII keystroke event for a key that it has a name for;
    /// such a key holds plain characters back until it is released.
    pub fn key_pressed<F>(&mut self, key_code: u32, top_frame: F) -> (r: Option<InputEvent<F>>)
        ensures
            r.is_some() == key_name(key_code).is_some(),
            final(self).modifiers == old(self).modifiers,
            final(self).suppress_chars == (old(self).suppress_chars || r.is_some()),
            r.is_some() ==> ({
                let e = r.unwrap();
                &&& e.kind == EventKind::NonAsciiKeystroke
                &&& e.code == key_code
                &&& e.modifiers == host_modifiers(old(self).modifiers)
                &&& e.frame_or_window == top_frame
            }),
    {
        if winit_keycode_emacs_key_name(key_code).is_none() {
            return None;
        }
        self.suppress_chars = true;
        Some(
            InputEvent {
                kind: EventKind::NonAsciiKeystroke,
                code: key_code,
                modifiers: Self::to_emacs_modifiers(self.modifiers),
                frame_or_window: top_frame,
            },
        )
    }

    /// A key went up: plain characters pass again.
    pub fn key_released(&mut self)
        ensures
            final(self).modifiers == old(self).modifiers,
            !final(self).suppress_chars,
    {
        self.suppress_chars = false;
    }

    /// Records the platform's new modifier state.
    pub fn change_modifiers(&mut self, modifiers: Modifiers)
        ensures
            final(self).modifiers == modifiers,
            final(self).suppress_chars == old(self).suppress_chars,
    {
        self.modifiers = modifiers;
    }

    fn remove_control(c: char) -> (r: char)
        ensures
            r as u32 == control_removed(c as u32),
    {
        let code: u32 = c as u32;
        if code < 32 {
            let mut shifted: u8 = code as u8 + 64;
            if 65 <= shifted && shifted <= 90 {
                shifted = shifted + 32;
            }
            shifted as char
        } else {
            c
        }
    }

    fn to_emacs_modifiers(modifiers: Modifiers) -> (r: u32)
        ensures
            r == host_modifiers(modifiers),
    {
        let alt: u32 = if modifiers.alt { META_MODIFIER } else { 0 };
        let shift: u32 = if modifiers.shift { SHIFT_MODIFIER } else { 0 };
        let ctrl: u32 = if modifiers.ctrl { CTRL_MODIFIER } else { 0 };
        let logo: u32 = if modifiers.logo { SUPER_MODIFIER } else { 0 };
        alt | shift | ctrl | logo
    }

}

} // verus!
