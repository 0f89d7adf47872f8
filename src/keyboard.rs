//! Normalisation of platform input notifications into canonical events.
use vstd::prelude::*;
use crate::event::{Event, KeyInfo};
use crate::graphics::Dim;

verus! {

/// Key codes of the platform's keyboard. Printable keys use the code of
/// their unshifted character.
pub const KEY_ESCAPE: i32 = 27;
pub const KEY_BACKSPACE: i32 = 8;
pub const KEY_TAB: i32 = 9;
pub const KEY_RETURN: i32 = 13;
pub const KEY_RIGHT: i32 = 1073741903;
pub const KEY_LEFT: i32 = 1073741904;
pub const KEY_DOWN: i32 = 1073741905;
pub const KEY_UP: i32 = 1073741906;
pub const KEY_LSHIFT: i32 = 1073742049;

/// A platform input notification, as far as normalisation reads it.
#[derive(Debug, PartialEq, Eq)]
pub enum SystemEvent {
    Quit,
    KeyDown { keycode: Option<i32>, shift: bool },
    WindowSizeChanged { width: i32, height: i32 },
    /// The clipboard changed; this is what reading it gave.
    ClipboardUpdate(Result<String, String>),
    Other,
}

/// The label of a key: one table without shift and one with it. Keys that
/// are not in the table have none.
pub open spec fn key_label(keycode: i32, shift: bool) -> Option<Seq<char>> {
    if keycode == KEY_BACKSPACE {
        Some("Backspace"@)
    } else if keycode == KEY_TAB {
        Some("Tab"@)
    } else if keycode == KEY_RETURN {
        Some("Enter"@)
    } else if keycode == KEY_RIGHT {
        Some("ArrowRight"@)
    } else if keycode == KEY_LEFT {
        Some("ArrowLeft"@)
    } else if keycode == KEY_DOWN {
        Some("ArrowDown"@)
    } else if keycode == KEY_UP {
        Some("ArrowUp"@)
    } else if keycode == KEY_LSHIFT {
        Some("Shift"@)
    } else if keycode == 32 {
        Some(" "@)
    } else if keycode == 48 {
        Some(if shift { ")"@ } else { "0"@ })
    } else if keycode == 49 {
        Some(if shift { "!"@ } else { "1"@ })
    } else if keycode == 50 {
        Some(if shift { "@"@ } else { "2"@ })
    } else if keycode == 51 {
        Some(if shift { "#"@ } else { "3"@ })
    } else if keycode == 52 {
        Some(if shift { "$"@ } else { "4"@ })
    } else if keycode == 53 {
        Some(if shift { "%"@ } else { "5"@ })
    } else if keycode == 54 {
        Some(if shift { "^"@ } else { "6"@ })
    } else if keycode == 55 {
        Some(if shift { "&"@ } else { "7"@ })
    } else if keycode == 56 {
        Some(if shift { "*"@ } else { "8"@ })
    } else if keycode == 57 {
        Some(if shift { "("@ } else { "9"@ })
    } else if keycode == 97 {
        Some(if shift { "A"@ } else { "a"@ })
    } else if keycode == 98 {
        Some(if shift { "B"@ } else { "b"@ })
    } else if keycode == 99 {
        Some(if shift { "C"@ } else { "c"@ })
    } else if keycode == 100 {
        Some(if shift { "D"@ } else { "d"@ })
    } else if keycode == 101 {
        Some(if shift { "E"@ } else { "e"@ })
    } else if keycode == 102 {
        Some(if shift { "F"@ } else { "f"@ })
    } else if keycode == 103 {
        Some(if shift { "G"@ } else { "g"@ })
    } else if keycode == 104 {
        Some(if shift { "H"@ } else { "h"@ })
    } else if keycode == 105 {
        Some(if shift { "I"@ } else { "i"@ })
    } else if keycode == 106 {
        Some(if shift { "J"@ } else { "j"@ })
    } else if keycode == 107 {
        Some(if shift { "K"@ } else { "k"@ })
    } else if keycode == 108 {
        Some(if shift { "L"@ } else { "l"@ })
    } else if keycode == 109 {
        Some(if shift { "M"@ } else { "m"@ })
    } else if keycode == 110 {
        Some(if shift { "N"@ } else { "n"@ })
    } else if keycode == 111 {
        Some(if shift { "O"@ } else { "o"@ })
    } else if keycode == 112 {
        Some(if shift { "P"@ } else { "p"@ })
    } else if keycode == 113 {
        Some(if shift { "Q"@ } else { "q"@ })
    } else if keycode == 114 {
        Some(if shift { "R"@ } else { "r"@ })
    } else if keycode == 115 {
        Some(if shift { "S"@ } else { "s"@ })
    } else if keycode == 116 {
        Some(if shift { "T"@ } else { "t"@ })
    } else if keycode == 117 {
        Some(if shift { "U"@ } else { "u"@ })
    } else if keycode == 118 {
        Some(if shift { "V"@ } else { "v"@ })
    } else if keycode == 119 {
        Some(if shift { "W"@ } else { "w"@ })
    } else if keycode == 120 {
        Some(if shift { "X"@ } else { "x"@ })
    } else if keycode == 121 {
        Some(if shift { "Y"@ } else { "y"@ })
    } else if keycode == 122 {
        Some(if shift { "Z"@ } else { "z"@ })
    } else if keycode == 61 {
        Some(if shift { "+"@ } else { "="@ })
    } else if keycode == 43 {
        Some("+"@)
    } else if keycode == 47 {
        Some(if shift { "?"@ } else { "/"@ })
    } else if keycode == 63 {
        Some("?"@)
    } else if keycode == 46 {
        Some(if shift { ">"@ } else { "."@ })
    } else if keycode == 62 {
        Some(">"@)
    } else if keycode == 44 {
        Some(if shift { "<"@ } else { ","@ })
    } else if keycode == 60 {
        Some("<"@)
    } else if keycode == 92 {
        Some(if shift { "|"@ } else { "\\"@ })
    } else if keycode == 58 {
        Some(":"@)
    } else if keycode == 59 {
        Some(if shift { ":"@ } else { ";"@ })
    } else if keycode == 64 {
        Some("@"@)
    } else if keycode == 45 {
        Some(if shift { "_"@ } else { "-"@ })
    } else if keycode == 95 {
        Some("_"@)
    } else if keycode == 33 {
        Some("!"@)
    } else if keycode == 35 {
        Some("#"@)
    } else if keycode == 39 {
        Some(if shift { "\""@ } else { "'"@ })
    } else if keycode == 34 {
        Some("\""@)
    } else if keycode == 91 {
        Some(if shift { "{"@ } else { "["@ })
    } else if keycode == 93 {
        Some(if shift { "}"@ } else { "]"@ })
    } else {
        None
    }
}

pub open spec fn str_view(s: Option<&str>) -> Option<Seq<char>> {
    match s {
        Some(t) => Some(t@),
        None => None,
    }
}

fn pick(shift: bool, plain: &'static str, shifted: &'static str) -> (r: &'static str)
    ensures
        r == (if shift { shifted } else { plain }),
{
    if shift {
        shifted
    } else {
        plain
    }
}

/// Looks up the label of a key.
pub fn key_text(keycode: i32, shift: bool) -> (r: Option<&'static str>)
    ensures
        str_view(r) == key_label(keycode, shift),
{
    if keycode == KEY_BACKSPACE {
        Some("Backspace")
    } else if keycode == KEY_TAB {
        Some("Tab")
    } else if keycode == KEY_RETURN {
        Some("Enter")
    } else if keycode == KEY_RIGHT {
        Some("ArrowRight")
    } else if keycode == KEY_LEFT {
        Some("ArrowLeft")
    } else if keycode == KEY_DOWN {
        Some("ArrowDown")
    } else if keycode == KEY_UP {
        Some("ArrowUp")
    } else if keycode == KEY_LSHIFT {
        Some("Shift")
    } else if keycode == 32 {
        Some(" ")
    } else if keycode == 48 {
        Some(pick(shift, "0", ")"))
    } else if keycode == 49 {
        Some(pick(shift, "1", "!"))
    } else if keycode == 50 {
        Some(pick(shift, "2", "@"))
    } else if keycode == 51 {
        Some(pick(shift, "3", "#"))
    } else if keycode == 52 {
        Some(pick(shift, "4", "$"))
    } else if keycode == 53 {
        Some(pick(shift, "5", "%"))
    } else if keycode == 54 {
        Some(pick(shift, "6", "^"))
    } else if keycode == 55 {
        Some(pick(shift, "7", "&"))
    } else if keycode == 56 {
        Some(pick(shift, "8", "*"))
    } else if keycode == 57 {
        Some(pick(shift, "9", "("))
    } else if keycode == 97 {
        Some(pick(shift, "a", "A"))
    } else if keycode == 98 {
        Some(pick(shift, "b", "B"))
    } else if keycode == 99 {
        Some(pick(shift, "c", "C"))
    } else if keycode == 100 {
        Some(pick(shift, "d", "D"))
    } else if keycode == 101 {
        Some(pick(shift, "e", "E"))
    } else if keycode == 102 {
        Some(pick(shift, "f", "F"))
    } else if keycode == 103 {
        Some(pick(shift, "g", "G"))
    } else if keycode == 104 {
        Some(pick(shift, "h", "H"))
    } else if keycode == 105 {
        Some(pick(shift, "i", "I"))
    } else if keycode == 106 {
        Some(pick(shift, "j", "J"))
    } else if keycode == 107 {
        Some(pick(shift, "k", "K"))
    } else if keycode == 108 {
        Some(pick(shift, "l", "L"))
    } else if keycode == 109 {
        Some(pick(shift, "m", "M"))
    } else if keycode == 110 {
        Some(pick(shift, "n", "N"))
    } else if keycode == 111 {
        Some(pick(shift, "o", "O"))
    } else if keycode == 112 {
        Some(pick(shift, "p", "P"))
    } else if keycode == 113 {
        Some(pick(shift, "q", "Q"))
    } else if keycode == 114 {
        Some(pick(shift, "r", "R"))
    } else if keycode == 115 {
        Some(pick(shift, "s", "S"))
    } else if keycode == 116 {
        Some(pick(shift, "t", "T"))
    } else if keycode == 117 {
        Some(pick(shift, "u", "U"))
    } else if keycode == 118 {
        Some(pick(shift, "v", "V"))
    } else if keycode == 119 {
        Some(pick(shift, "w", "W"))
    } else if keycode == 120 {
        Some(pick(shift, "x", "X"))
    } else if keycode == 121 {
        Some(pick(shift, "y", "Y"))
    } else if keycode == 122 {
        Some(pick(shift, "z", "Z"))
    } else if keycode == 61 {
        Some(pick(shift, "=", "+"))
    } else if keycode == 43 {
        Some("+")
    } else if keycode == 47 {
        Some(pick(shift, "/", "?"))
    } else if keycode == 63 {
        Some("?")
    } else if keycode == 46 {
        Some(pick(shift, ".", ">"))
    } else if keycode == 62 {
        Some(">")
    } else if keycode == 44 {
        Some(pick(shift, ",", "<"))
    } else if keycode == 60 {
        Some("<")
    } else if keycode == 92 {
        Some(pick(shift, "\\", "|"))
    } else if keycode == 58 {
        Some(":")
    } else if keycode == 59 {
        Some(pick(shift, ";", ":"))
    } else if keycode == 64 {
        Some("@")
    } else if keycode == 45 {
        Some(pick(shift, "-", "_"))
    } else if keycode == 95 {
        Some("_")
    } else if keycode == 33 {
        Some("!")
    } else if keycode == 35 {
        Some("#")
    } else if keycode == 39 {
        Some(pick(shift, "'", "\""))
    } else if keycode == 34 {
        Some("\"")
    } else if keycode == 91 {
        Some(pick(shift, "[", "{"))
    } else if keycode == 93 {
        Some(pick(shift, "]", "}"))
    } else {
        None
    }
}

pub open spec fn nonneg(n: i32) -> u64 {
    if n < 0 {
        0
    } else {
        n as u64
    }
}

/// Whether `r` is the canonical event for the notification `raw`.
pub open spec fn normalized(raw: SystemEvent, r: Option<Event>) -> bool {
    match raw {
        SystemEvent::Quit => r == Some(Event::Quit),
        SystemEvent::KeyDown { keycode, shift } => match keycode {
            None => r is None,
            Some(kc) => if kc == KEY_ESCAPE {
                r == Some(Event::Quit)
            } else {
                match key_label(kc, shift) {
                    None => r is None,
                    Some(label) => match r {
                        Some(Event::KeyDown(k)) => k.key@ == label && k.shift == shift && !k.alt
                            && !k.ctrl && !k.meta,
                        _ => false,
                    },
                }
            },
        },
        SystemEvent::WindowSizeChanged { width, height } => r == Some(
            Event::WindowSize(Dim { width: nonneg(width), height: nonneg(height) }),
        ),
        SystemEvent::ClipboardUpdate(read) => match r {
            Some(Event::ClipBoard(text)) => match read {
                Ok(t) => text@ == t@,
                Err(e) => text@ == "error: "@ + e@,
            },
            _ => false,
        },
        SystemEvent::Other => r is None,
    }
}

/// Maps a platform notification to a canonical event. A quit request and the
/// escape key quit; a key is labelled by the table for the shift state, and a
/// key outside the table gives no event; a resize gives the new extent, a
/// negative one read as zero; a clipboard change gives the text read, or the
/// failure's text when reading failed.
pub fn translate_system_event(raw: SystemEvent) -> (r: Option<Event>)
    ensures
        normalized(raw, r),
{
    match raw {
        SystemEvent::Quit => Some(Event::Quit),
        SystemEvent::KeyDown { keycode, shift } => match keycode {
            None => None,
            Some(kc) => {
                if kc == KEY_ESCAPE {
                    Some(Event::Quit)
                } else {
                    match key_text(kc, shift) {
                        None => None,
                        Some(label) => Some(
                            Event::KeyDown(
                                KeyInfo {
                                    key: String::from_str(label),
                                    alt: false,
                                    ctrl: false,
                                    meta: false,
                                    shift,
                                },
                            ),
                        ),
                    }
                }
            },
        },
        SystemEvent::WindowSizeChanged { width, height } => {
            let w: u64 = if width < 0 { 0 } else { width as u64 };
            let h: u64 = if height < 0 { 0 } else { height as u64 };
            Some(Event::WindowSize(Dim { width: w, height: h }))
        },
        SystemEvent::ClipboardUpdate(read) => match read {
            Ok(t) => Some(Event::ClipBoard(t)),
            Err(e) => {
                let mut text = String::from_str("error: ");
                text.append(e.as_str());
                Some(Event::ClipBoard(text))
            },
        },
        SystemEvent::Other => None,
    }
}

} // verus!
