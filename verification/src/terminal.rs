//! What the front end does with the events the terminal emits, and what it sends
//! to the pty for the GUI's input events.
use vstd::prelude::*;
use vstd::string::*;
use crate::color::{COLOR_COUNT, Palette, Rgb};
use crate::geometry::{DEFAULT_HEIGHT, DEFAULT_WIDTH, WindowDims};
use crate::keys::{
    default_key_code_encode_mode,
    default_modes,
    egui_key_to_code,
    egui_mod_to_termwiz,
    encode_key,
    key_code_of,
    lemma_key_codes_distinct,
    key_encoding,
    Key,
    KeyCode,
    KeyboardEncoding,
    termwiz_key_encoding,
    KeyEncodeError,
    KeyModifiers,
    Modifiers,
};

verus! {

/// The clipboards the terminal distinguishes.
#[derive(Clone, Copy, Debug, PartialEq, Eq, Structural)]
pub enum ClipboardType {
    Clipboard,
    Selection,
}

/// The clipboards of the desktop.
#[derive(Clone, Copy, Debug, PartialEq, Eq, Structural)]
pub enum ClipboardKind {
    Clipboard,
    Primary,
    Secondary,
}

/// The desktop clipboard that serves a terminal clipboard: the clipboard for
/// the clipboard, the primary selection for the selection.
pub open spec fn clipboard_kind_of(t: ClipboardType) -> ClipboardKind {
    match t {
        ClipboardType::Clipboard => ClipboardKind::Clipboard,
        ClipboardType::Selection => ClipboardKind::Primary,
    }
}

/// The desktop clipboard that serves a terminal clipboard (see
/// `clipboard_kind_of`).
pub fn alacritty_clipboard_type_to_arboard_kind(t: ClipboardType) -> (k: ClipboardKind)
    ensures
        k == clipboard_kind_of(t),
{
    match t {
        ClipboardType::Clipboard => ClipboardKind::Clipboard,
        ClipboardType::Selection => ClipboardKind::Primary,
    }
}

/// Distinct terminal clipboards are served by distinct desktop clipboards, and
/// the secondary selection serves none.
pub proof fn lemma_clipboard_kinds_distinct(a: ClipboardType, b: ClipboardType)
    ensures
        clipboard_kind_of(a) == clipboard_kind_of(b) ==> a == b,
        clipboard_kind_of(a) != ClipboardKind::Secondary,
{
}

/// An event the terminal emits. Requests that expect an answer carry what the
/// answer is about; the application keeps the formatter that turns the answer
/// into the escape sequence the terminal expects.
#[derive(Clone, Debug)]
pub enum TerminalEvent {
    /// The grid changed in a way that may call for another mouse cursor shape.
    MouseCursorDirty,
    /// The shell set the window title.
    Title(String),
    /// The shell asked for the default window title.
    ResetTitle,
    /// Store the text in the clipboard.
    ClipboardStore(ClipboardType, String),
    /// Write the clipboard's contents to the pty.
    ClipboardLoad(ClipboardType),
    /// Write the RGB value of the palette slot to the pty.
    ColorRequest(usize),
    /// Write the text to the pty.
    PtyWrite(String),
    /// Write the size of the text area to the pty.
    TextAreaSizeRequest,
    /// The cursor's blinking state changed.
    CursorBlinkingChange,
    /// New terminal content is available.
    Wakeup,
    /// The terminal bell rang.
    Bell,
    /// The terminal asks to shut down.
    Exit,
    /// The shell exited.
    ChildExit,
}

/// What the application does in answer to a terminal event.
#[derive(Clone, Debug)]
pub enum TerminalAction {
    /// Format the color with the request's formatter and write it to the pty.
    ReplyColor(Rgb),
    /// Write the text to the pty.
    WritePty(String),
    /// Format the size with the request's formatter and write it to the pty.
    ReplyTextAreaSize(WindowDims),
    /// Ask the GUI to repaint.
    RequestRepaint,
    /// Store the text in the desktop clipboard.
    StoreClipboard(ClipboardKind, String),
    /// Read the desktop clipboard and hand its text to the request's formatter,
    /// if it can be read.
    LoadClipboard(ClipboardKind),
    /// Set the window's title.
    SetTitle(String),
    /// Close the window.
    Close,
    /// Nothing.
    Nothing,
}

/// The text appended to every title the shell sets.
pub open spec fn title_suffix() -> Seq<char> {
    " — Showroom"@
}

/// The color reported for a palette slot: its value, or black when it is unset.
pub open spec fn reported_color(palette: Seq<Option<Rgb>>, index: int) -> Rgb {
    match palette[index] {
        Some(rgb) => rgb,
        None => Rgb { r: 0, g: 0, b: 0 },
    }
}

/// A color request is answered with the slot's value whenever the slot is set,
/// whichever slot it is, and with black only when the slot is unset.
pub proof fn lemma_color_replies(palette: Seq<Option<Rgb>>, index: int)
    ensures
        palette[index] matches Some(rgb) ==> reported_color(palette, index) == rgb,
        palette[index] is None ==> reported_color(palette, index) == (Rgb { r: 0, g: 0, b: 0 }),
{
}

/// Decides what to do with a terminal event, given the terminal's palette and
/// the size of a cell in pixels.
///
/// Color requests are answered from the palette (black for an unset slot); text
/// for the pty is written as it is; text area size requests are answered with
/// the default grid of `DEFAULT_HEIGHT` lines by `DEFAULT_WIDTH` columns and the
/// given cell size; new content asks for a repaint; clipboard requests go to the
/// desktop clipboard that serves the terminal clipboard; titles get the
/// application's name appended; an exit request closes the window; every other
/// event is ignored.
pub fn alacritty_event_action(
    event: TerminalEvent,
    colors: &Palette,
    cell_width: u16,
    cell_height: u16,
) -> (action: TerminalAction)
    requires
        event matches TerminalEvent::ColorRequest(index) ==> index < COLOR_COUNT,
    ensures
        match event {
            TerminalEvent::ColorRequest(index) => action == TerminalAction::ReplyColor(
                reported_color(colors@, index as int),
            ),
            TerminalEvent::PtyWrite(text) => action == TerminalAction::WritePty(text),
            TerminalEvent::TextAreaSizeRequest => action == TerminalAction::ReplyTextAreaSize(
                WindowDims { num_lines: DEFAULT_HEIGHT, num_cols: DEFAULT_WIDTH, cell_width, cell_height },
            ),
            TerminalEvent::Wakeup => action is RequestRepaint,
            TerminalEvent::ClipboardStore(t, text) => action == TerminalAction::StoreClipboard(
                clipboard_kind_of(t),
                text,
            ),
            TerminalEvent::ClipboardLoad(t) => action == TerminalAction::LoadClipboard(
                clipboard_kind_of(t),
            ),
            TerminalEvent::Title(title) => action matches TerminalAction::SetTitle(t) && t@
                == title@ + title_suffix(),
            TerminalEvent::Exit => action is Close,
            _ => action is Nothing,
        },
        event matches TerminalEvent::ColorRequest(i) ==> (colors@[i as int] matches Some(rgb)
            ==> action == TerminalAction::ReplyColor(rgb)),
        event matches TerminalEvent::ColorRequest(i) ==> (colors@[i as int] is None ==> action
            == TerminalAction::ReplyColor(Rgb { r: 0, g: 0, b: 0 })),
{
    match event {
        TerminalEvent::ColorRequest(index) => {
            let color = match colors.get(index) {
                Some(rgb) => rgb,
                None => Rgb { r: 0, g: 0, b: 0 },
            };
            TerminalAction::ReplyColor(color)
        },
        TerminalEvent::PtyWrite(text) => TerminalAction::WritePty(text),
        TerminalEvent::TextAreaSizeRequest => {
            let size = WindowDims {
                num_lines: DEFAULT_HEIGHT,
                num_cols: DEFAULT_WIDTH,
                cell_width,
                cell_height,
            };
            TerminalAction::ReplyTextAreaSize(size)
        },
        TerminalEvent::Wakeup => TerminalAction::RequestRepaint,
        TerminalEvent::ClipboardStore(clipboard_type, text) => TerminalAction::StoreClipboard(
            alacritty_clipboard_type_to_arboard_kind(clipboard_type),
            text,
        ),
        TerminalEvent::ClipboardLoad(clipboard_type) => TerminalAction::LoadClipboard(
            alacritty_clipboard_type_to_arboard_kind(clipboard_type),
        ),
        TerminalEvent::Title(title) => TerminalAction::SetTitle(title.concat(" — Showroom")),
        TerminalEvent::Exit => TerminalAction::Close,
        _ => TerminalAction::Nothing,
    }
}

/// An input event of the GUI, as far as the terminal cares about it.
#[derive(Clone, Debug)]
pub enum InputEvent {
    /// Text was typed or committed by an input method.
    Text(String),
    /// A key went down (`pressed`) or up, with the modifiers held.
    Key { key: Key, pressed: bool, modifiers: Modifiers },
    /// Any other event (pointer, focus, ...).
    Other,
}

/// The encoder's modifiers for the GUI's modifiers (see `egui_mod_to_termwiz`).
pub open spec fn key_modifiers_of(m: Modifiers) -> KeyModifiers {
    KeyModifiers { ctrl: m.ctrl || m.command, alt: m.alt, shift: m.shift, super_key: m.mac_cmd }
}

/// The text an input event produces for the pty, or `None` when the encoder
/// refuses the key: typed text as it is; for a forwarded key, its encoding
/// under the default modes; nothing for other keys and other events.
pub open spec fn input_text(event: InputEvent) -> Option<Seq<char>> {
    match event {
        InputEvent::Text(text) => Some(text@),
        InputEvent::Key { key, pressed, modifiers } => match key_code_of(key) {
            Some(code) => key_encoding(
                code,
                key_modifiers_of(modifiers),
                default_modes(),
                pressed,
            ),
            None => Some(Seq::empty()),
        },
        InputEvent::Other => Some(Seq::empty()),
    }
}

/// What is written to the pty for a text: nothing for the empty text, the text
/// itself otherwise.
pub open spec fn payload_of(text: Seq<char>) -> Option<Seq<char>> {
    if text.len() == 0 {
        None
    } else {
        Some(text)
    }
}

/// The text of a payload, if there is one.
pub open spec fn payload_text(payload: Option<String>) -> Option<Seq<char>> {
    match payload {
        Some(s) => Some(s@),
        None => None,
    }
}

/// What is written to the pty for a text (see `payload_of`).
pub fn pty_payload(text: String) -> (payload: Option<String>)
    ensures
        payload_text(payload) == payload_of(text@),
        payload matches Some(s) ==> s == text,
{
    if text.as_str().is_empty() {
        None
    } else {
        Some(text)
    }
}

/// A key event is encoded under exactly the modifiers the GUI reports (shift as
/// shift, alt as alt, control or the platform command key as control, the Mac
/// command key as super), the default modes (xterm encoding, normal cursor keys,
/// no newline mode, no `modifyOtherKeys`) and its pressed flag; a key that is not
/// forwarded produces no text; a text event produces its text unchanged.
pub proof fn lemma_input_text(key: Key, pressed: bool, modifiers: Modifiers, text: String)
    ensures
        key_code_of(key) matches Some(code) ==> input_text(
            InputEvent::Key { key, pressed, modifiers },
        ) == termwiz_key_encoding(
            code,
            modifiers.shift,
            modifiers.alt,
            modifiers.ctrl || modifiers.command,
            modifiers.mac_cmd,
            KeyboardEncoding::Xterm,
            false,
            false,
            None,
            pressed,
        ),
        key_code_of(key) is None ==> input_text(InputEvent::Key { key, pressed, modifiers }) == Some(
            Seq::<char>::empty(),
        ),
        input_text(InputEvent::Text(text)) == Some(text@),
{
}

/// Decides what an input event writes to the pty: `Ok(None)` when nothing is
/// written, `Ok(Some(text))` for text to write, and an error when the encoder
/// refuses the key (see `input_text` and `payload_of`).
pub fn egui_event_input(event: InputEvent) -> (res: Result<Option<String>, KeyEncodeError>)
    ensures
        res is Err <==> input_text(event) is None,
        res matches Ok(payload) ==> payload_text(payload) == payload_of(input_text(event).unwrap()),
        event matches InputEvent::Key { pressed, .. } && !pressed ==> res matches Ok(None),
        event matches InputEvent::Key { key, pressed, .. } && pressed && (key_code_of(key) matches Some(
            KeyCode::Function(n),
        ) && n >= 25) ==> res is Err,
{
    match event {
        InputEvent::Text(text) => Ok(pty_payload(text)),
        InputEvent::Key { key, pressed, modifiers } => {
            match egui_key_to_code(key) {
                Some(keycode) => {
                    proof {
                        lemma_key_codes_distinct(key, key);
                    }
                    let mods = egui_mod_to_termwiz(modifiers);
                    match encode_key(keycode, mods, default_key_code_encode_mode(), pressed) {
                        Ok(text) => Ok(pty_payload(text)),
                        Err(e) => Err(e),
                    }
                },
                None => Ok(None),
            }
        },
        InputEvent::Other => Ok(None),
    }
}

} // verus!
