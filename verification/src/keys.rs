//! Keys and modifiers as the GUI toolkit reports them, and their encoding into
//! the byte sequences a shell expects on its pty.
use vstd::prelude::*;
use self::KeyCode::{
    Backspace as KeyBackspace,
    BrowserBack as KeyBrowserBack,
    Copy as KeyCopy,
    Cut as KeyCut,
    Delete as KeyDelete,
    DownArrow as KeyDownArrow,
    End as KeyEnd,
    Enter as KeyEnter,
    Escape as KeyEscape,
    Function as KeyFunction,
    Home as KeyHome,
    Insert as KeyInsert,
    LeftArrow as KeyLeftArrow,
    PageDown as KeyPageDown,
    PageUp as KeyPageUp,
    Paste as KeyPaste,
    RightArrow as KeyRightArrow,
    Tab as KeyTab,
    UpArrow as KeyUpArrow,
};
use self::KeyboardEncoding::{CsiU as EncodingCsiU, Win32 as EncodingWin32, Xterm as EncodingXterm};
use termwiz::input::KeyCode::{
    Backspace as TwBackspace,
    BrowserBack as TwBrowserBack,
    Copy as TwCopy,
    Cut as TwCut,
    Delete as TwDelete,
    DownArrow as TwDownArrow,
    End as TwEnd,
    Enter as TwEnter,
    Escape as TwEscape,
    Function as TwFunction,
    Home as TwHome,
    Insert as TwInsert,
    LeftArrow as TwLeftArrow,
    PageDown as TwPageDown,
    PageUp as TwPageUp,
    Paste as TwPaste,
    RightArrow as TwRightArrow,
    Tab as TwTab,
    UpArrow as TwUpArrow,
};
use termwiz::input::KeyboardEncoding::{CsiU as TwCsiU, Win32 as TwWin32, Xterm as TwXterm};
use termwiz::input::KeyCodeEncodeModes as TwModes;
use termwiz::input::Modifiers as TwMods;

verus! {

/// A key as the GUI toolkit names it.
#[derive(Clone, Copy, Debug, PartialEq, Eq, Structural)]
pub enum Key {
    ArrowDown,
    ArrowLeft,
    ArrowRight,
    ArrowUp,
    Escape,
    Tab,
    Backspace,
    Enter,
    Space,
    Insert,
    Delete,
    Home,
    End,
    PageUp,
    PageDown,
    Copy,
    Cut,
    Paste,
    Colon,
    Comma,
    Backslash,
    Slash,
    Pipe,
    Questionmark,
    Exclamationmark,
    OpenBracket,
    CloseBracket,
    OpenCurlyBracket,
    CloseCurlyBracket,
    Backtick,
    Minus,
    Period,
    Plus,
    Equals,
    Semicolon,
    Quote,
    Num0,
    Num1,
    Num2,
    Num3,
    Num4,
    Num5,
    Num6,
    Num7,
    Num8,
    Num9,
    A,
    B,
    C,
    D,
    E,
    F,
    G,
    H,
    I,
    J,
    K,
    L,
    M,
    N,
    O,
    P,
    Q,
    R,
    S,
    T,
    U,
    V,
    W,
    X,
    Y,
    Z,
    F1,
    F2,
    F3,
    F4,
    F5,
    F6,
    F7,
    F8,
    F9,
    F10,
    F11,
    F12,
    F13,
    F14,
    F15,
    F16,
    F17,
    F18,
    F19,
    F20,
    F21,
    F22,
    F23,
    F24,
    F25,
    F26,
    F27,
    F28,
    F29,
    F30,
    F31,
    F32,
    F33,
    F34,
    F35,
    BrowserBack,
    BrowserForward,
    BrowserRefresh,
    BrowserSearch,
    BrowserHome,
    BrowserFavorites,
    BrowserStop,
    MediaPlayPause,
    MediaTrackNext,
    MediaTrackPrevious,
    MediaStop,
    AudioVolumeMute,
    AudioVolumeDown,
    AudioVolumeUp,
    LaunchMail,
    LaunchApp1,
    LaunchApp2,
    ShiftLeft,
    ShiftRight,
    ControlLeft,
    ControlRight,
    AltLeft,
    AltRight,
    SuperLeft,
    SuperRight,
    IntlBackslash,
    CapsLock,
    NumLock,
    ScrollLock,
    PrintScreen,
    Pause,
    Menu,
    Fn,
    Eject,
    Help,
    Power,
    Sleep,
    Clear,
}

/// A key as the terminal encoder names it: the keys this front end forwards.
#[derive(Clone, Copy, Debug, PartialEq, Eq, Structural)]
pub enum KeyCode {
    DownArrow,
    LeftArrow,
    RightArrow,
    UpArrow,
    Escape,
    Tab,
    Backspace,
    Enter,
    Insert,
    Delete,
    Home,
    End,
    PageUp,
    PageDown,
    Copy,
    Cut,
    Paste,
    /// The function key with the given number.
    Function(u8),
    BrowserBack,
}

/// The key code forwarded for a key, if the key is forwarded at all: the
/// arrows, editing and navigation keys, the clipboard keys, F1 to F35 and the
/// browser's back key. Letters, digits and punctuation reach the terminal as
/// text instead.
pub open spec fn key_code_of(key: Key) -> Option<KeyCode> {
    match key {
        Key::ArrowDown => Some(KeyCode::DownArrow),
        Key::ArrowLeft => Some(KeyCode::LeftArrow),
        Key::ArrowRight => Some(KeyCode::RightArrow),
        Key::ArrowUp => Some(KeyCode::UpArrow),
        Key::Escape => Some(KeyCode::Escape),
        Key::Tab => Some(KeyCode::Tab),
        Key::Backspace => Some(KeyCode::Backspace),
        Key::Enter => Some(KeyCode::Enter),
        Key::Insert => Some(KeyCode::Insert),
        Key::Delete => Some(KeyCode::Delete),
        Key::Home => Some(KeyCode::Home),
        Key::End => Some(KeyCode::End),
        Key::PageUp => Some(KeyCode::PageUp),
        Key::PageDown => Some(KeyCode::PageDown),
        Key::Copy => Some(KeyCode::Copy),
        Key::Cut => Some(KeyCode::Cut),
        Key::Paste => Some(KeyCode::Paste),
        Key::F1 => Some(KeyCode::Function(1)),
        Key::F2 => Some(KeyCode::Function(2)),
        Key::F3 => Some(KeyCode::Function(3)),
        Key::F4 => Some(KeyCode::Function(4)),
        Key::F5 => Some(KeyCode::Function(5)),
        Key::F6 => Some(KeyCode::Function(6)),
        Key::F7 => Some(KeyCode::Function(7)),
        Key::F8 => Some(KeyCode::Function(8)),
        Key::F9 => Some(KeyCode::Function(9)),
        Key::F10 => Some(KeyCode::Function(10)),
        Key::F11 => Some(KeyCode::Function(11)),
        Key::F12 => Some(KeyCode::Function(12)),
        Key::F13 => Some(KeyCode::Function(13)),
        Key::F14 => Some(KeyCode::Function(14)),
        Key::F15 => Some(KeyCode::Function(15)),
        Key::F16 => Some(KeyCode::Function(16)),
        Key::F17 => Some(KeyCode::Function(17)),
        Key::F18 => Some(KeyCode::Function(18)),
        Key::F19 => Some(KeyCode::Function(19)),
        Key::F20 => Some(KeyCode::Function(20)),
        Key::F21 => Some(KeyCode::Function(21)),
        Key::F22 => Some(KeyCode::Function(22)),
        Key::F23 => Some(KeyCode::Function(23)),
        Key::F24 => Some(KeyCode::Function(24)),
        Key::F25 => Some(KeyCode::Function(25)),
        Key::F26 => Some(KeyCode::Function(26)),
        Key::F27 => Some(KeyCode::Function(27)),
        Key::F28 => Some(KeyCode::Function(28)),
        Key::F29 => Some(KeyCode::Function(29)),
        Key::F30 => Some(KeyCode::Function(30)),
        Key::F31 => Some(KeyCode::Function(31)),
        Key::F32 => Some(KeyCode::Function(32)),
        Key::F33 => Some(KeyCode::Function(33)),
        Key::F34 => Some(KeyCode::Function(34)),
        Key::F35 => Some(KeyCode::Function(35)),
        Key::BrowserBack => Some(KeyCode::BrowserBack),
        _ => None,
    }
}

/// The key that is forwarded as `code` (meaningful for codes that some key
/// produces).
pub open spec fn key_of_code(code: KeyCode) -> Key {
    match code {
        KeyCode::DownArrow => Key::ArrowDown,
        KeyCode::LeftArrow => Key::ArrowLeft,
        KeyCode::RightArrow => Key::ArrowRight,
        KeyCode::UpArrow => Key::ArrowUp,
        KeyCode::Escape => Key::Escape,
        KeyCode::Tab => Key::Tab,
        KeyCode::Backspace => Key::Backspace,
        KeyCode::Enter => Key::Enter,
        KeyCode::Insert => Key::Insert,
        KeyCode::Delete => Key::Delete,
        KeyCode::Home => Key::Home,
        KeyCode::End => Key::End,
        KeyCode::PageUp => Key::PageUp,
        KeyCode::PageDown => Key::PageDown,
        KeyCode::Copy => Key::Copy,
        KeyCode::Cut => Key::Cut,
        KeyCode::Paste => Key::Paste,
        KeyCode::BrowserBack => Key::BrowserBack,
        KeyCode::Function(n) => match n {
            1 => Key::F1,
            2 => Key::F2,
            3 => Key::F3,
            4 => Key::F4,
            5 => Key::F5,
            6 => Key::F6,
            7 => Key::F7,
            8 => Key::F8,
            9 => Key::F9,
            10 => Key::F10,
            11 => Key::F11,
            12 => Key::F12,
            13 => Key::F13,
            14 => Key::F14,
            15 => Key::F15,
            16 => Key::F16,
            17 => Key::F17,
            18 => Key::F18,
            19 => Key::F19,
            20 => Key::F20,
            21 => Key::F21,
            22 => Key::F22,
            23 => Key::F23,
            24 => Key::F24,
            25 => Key::F25,
            26 => Key::F26,
            27 => Key::F27,
            28 => Key::F28,
            29 => Key::F29,
            30 => Key::F30,
            31 => Key::F31,
            32 => Key::F32,
            33 => Key::F33,
            34 => Key::F34,
            35 => Key::F35,
            _ => Key::F35,
        },
    }
}

/// Translates a GUI key into the key code that is encoded for the terminal, or
/// `None` for a key that is not forwarded as a key press.
pub fn egui_key_to_code(key: Key) -> (code: Option<KeyCode>)
    ensures
        code == key_code_of(key),
{
    match key {
        Key::ArrowDown => Some(KeyCode::DownArrow),
        Key::ArrowLeft => Some(KeyCode::LeftArrow),
        Key::ArrowRight => Some(KeyCode::RightArrow),
        Key::ArrowUp => Some(KeyCode::UpArrow),
        Key::Escape => Some(KeyCode::Escape),
        Key::Tab => Some(KeyCode::Tab),
        Key::Backspace => Some(KeyCode::Backspace),
        Key::Enter => Some(KeyCode::Enter),
        Key::Insert => Some(KeyCode::Insert),
        Key::Delete => Some(KeyCode::Delete),
        Key::Home => Some(KeyCode::Home),
        Key::End => Some(KeyCode::End),
        Key::PageUp => Some(KeyCode::PageUp),
        Key::PageDown => Some(KeyCode::PageDown),
        Key::Copy => Some(KeyCode::Copy),
        Key::Cut => Some(KeyCode::Cut),
        Key::Paste => Some(KeyCode::Paste),
        Key::F1 => Some(KeyCode::Function(1)),
        Key::F2 => Some(KeyCode::Function(2)),
        Key::F3 => Some(KeyCode::Function(3)),
        Key::F4 => Some(KeyCode::Function(4)),
        Key::F5 => Some(KeyCode::Function(5)),
        Key::F6 => Some(KeyCode::Function(6)),
        Key::F7 => Some(KeyCode::Function(7)),
        Key::F8 => Some(KeyCode::Function(8)),
        Key::F9 => Some(KeyCode::Function(9)),
        Key::F10 => Some(KeyCode::Function(10)),
        Key::F11 => Some(KeyCode::Function(11)),
        Key::F12 => Some(KeyCode::Function(12)),
        Key::F13 => Some(KeyCode::Function(13)),
        Key::F14 => Some(KeyCode::Function(14)),
        Key::F15 => Some(KeyCode::Function(15)),
        Key::F16 => Some(KeyCode::Function(16)),
        Key::F17 => Some(KeyCode::Function(17)),
        Key::F18 => Some(KeyCode::Function(18)),
        Key::F19 => Some(KeyCode::Function(19)),
        Key::F20 => Some(KeyCode::Function(20)),
        Key::F21 => Some(KeyCode::Function(21)),
        Key::F22 => Some(KeyCode::Function(22)),
        Key::F23 => Some(KeyCode::Function(23)),
        Key::F24 => Some(KeyCode::Function(24)),
        Key::F25 => Some(KeyCode::Function(25)),
        Key::F26 => Some(KeyCode::Function(26)),
        Key::F27 => Some(KeyCode::Function(27)),
        Key::F28 => Some(KeyCode::Function(28)),
        Key::F29 => Some(KeyCode::Function(29)),
        Key::F30 => Some(KeyCode::Function(30)),
        Key::F31 => Some(KeyCode::Function(31)),
        Key::F32 => Some(KeyCode::Function(32)),
        Key::F33 => Some(KeyCode::Function(33)),
        Key::F34 => Some(KeyCode::Function(34)),
        Key::F35 => Some(KeyCode::Function(35)),
        Key::BrowserBack => Some(KeyCode::BrowserBack),
        _ => None,
    }
}

/// Distinct keys are forwarded as distinct codes, and function keys carry the
/// numbers 1 to 35, the number of the key they come from.
pub proof fn lemma_key_codes_distinct(a: Key, b: Key)
    ensures
        key_code_of(a) is Some && key_code_of(a) == key_code_of(b) ==> a == b,
        key_code_of(a) matches Some(c) ==> key_of_code(c) == a,
        key_code_of(a) matches Some(KeyCode::Function(n)) ==> 1 <= n <= 35,
{
}

/// Every key the front end forwards maps to the key code of the same name (the
/// numbered function keys to the function code of their number), and every key
/// code the encoder is handed from here, function keys 1 to 35 included, comes
/// from some key.
pub proof fn lemma_forwarded_keys(code: KeyCode)
    ensures
        key_code_of(Key::ArrowDown) == Some(KeyCode::DownArrow),
        key_code_of(Key::ArrowLeft) == Some(KeyCode::LeftArrow),
        key_code_of(Key::ArrowRight) == Some(KeyCode::RightArrow),
        key_code_of(Key::ArrowUp) == Some(KeyCode::UpArrow),
        key_code_of(Key::Escape) == Some(KeyCode::Escape),
        key_code_of(Key::Tab) == Some(KeyCode::Tab),
        key_code_of(Key::Backspace) == Some(KeyCode::Backspace),
        key_code_of(Key::Enter) == Some(KeyCode::Enter),
        key_code_of(Key::Insert) == Some(KeyCode::Insert),
        key_code_of(Key::Delete) == Some(KeyCode::Delete),
        key_code_of(Key::Home) == Some(KeyCode::Home),
        key_code_of(Key::End) == Some(KeyCode::End),
        key_code_of(Key::PageUp) == Some(KeyCode::PageUp),
        key_code_of(Key::PageDown) == Some(KeyCode::PageDown),
        key_code_of(Key::Copy) == Some(KeyCode::Copy),
        key_code_of(Key::Cut) == Some(KeyCode::Cut),
        key_code_of(Key::Paste) == Some(KeyCode::Paste),
        key_code_of(Key::BrowserBack) == Some(KeyCode::BrowserBack),
        key_code_of(Key::F1) == Some(KeyCode::Function(1)),
        key_code_of(Key::F2) == Some(KeyCode::Function(2)),
        key_code_of(Key::F3) == Some(KeyCode::Function(3)),
        key_code_of(Key::F4) == Some(KeyCode::Function(4)),
        key_code_of(Key::F5) == Some(KeyCode::Function(5)),
        key_code_of(Key::F6) == Some(KeyCode::Function(6)),
        key_code_of(Key::F7) == Some(KeyCode::Function(7)),
        key_code_of(Key::F8) == Some(KeyCode::Function(8)),
        key_code_of(Key::F9) == Some(KeyCode::Function(9)),
        key_code_of(Key::F10) == Some(KeyCode::Function(10)),
        key_code_of(Key::F11) == Some(KeyCode::Function(11)),
        key_code_of(Key::F12) == Some(KeyCode::Function(12)),
        key_code_of(Key::F13) == Some(KeyCode::Function(13)),
        key_code_of(Key::F14) == Some(KeyCode::Function(14)),
        key_code_of(Key::F15) == Some(KeyCode::Function(15)),
        key_code_of(Key::F16) == Some(KeyCode::Function(16)),
        key_code_of(Key::F17) == Some(KeyCode::Function(17)),
        key_code_of(Key::F18) == Some(KeyCode::Function(18)),
        key_code_of(Key::F19) == Some(KeyCode::Function(19)),
        key_code_of(Key::F20) == Some(KeyCode::Function(20)),
        key_code_of(Key::F21) == Some(KeyCode::Function(21)),
        key_code_of(Key::F22) == Some(KeyCode::Function(22)),
        key_code_of(Key::F23) == Some(KeyCode::Function(23)),
        key_code_of(Key::F24) == Some(KeyCode::Function(24)),
        key_code_of(Key::F25) == Some(KeyCode::Function(25)),
        key_code_of(Key::F26) == Some(KeyCode::Function(26)),
        key_code_of(Key::F27) == Some(KeyCode::Function(27)),
        key_code_of(Key::F28) == Some(KeyCode::Function(28)),
        key_code_of(Key::F29) == Some(KeyCode::Function(29)),
        key_code_of(Key::F30) == Some(KeyCode::Function(30)),
        key_code_of(Key::F31) == Some(KeyCode::Function(31)),
        key_code_of(Key::F32) == Some(KeyCode::Function(32)),
        key_code_of(Key::F33) == Some(KeyCode::Function(33)),
        key_code_of(Key::F34) == Some(KeyCode::Function(34)),
        key_code_of(Key::F35) == Some(KeyCode::Function(35)),
        (code matches KeyCode::Function(n) ==> 1 <= n <= 35) ==> exists|k: Key|
            key_code_of(k) == Some(code),
{
    if code matches KeyCode::Function(n) ==> 1 <= n <= 35 {
        assert(key_code_of(key_of_code(code)) == Some(code));
    }
}

/// The modifier keys held, as the GUI toolkit reports them.
#[derive(Clone, Copy, Debug, PartialEq, Eq, Structural)]
pub struct Modifiers {
    pub alt: bool,
    pub ctrl: bool,
    pub shift: bool,
    /// The command key of a Mac keyboard.
    pub mac_cmd: bool,
    /// The platform's command modifier: command on a Mac, control elsewhere.
    pub command: bool,
}

/// The modifier keys held, as the terminal encoder receives them.
#[derive(Clone, Copy, Debug, PartialEq, Eq, Structural)]
pub struct KeyModifiers {
    pub shift: bool,
    pub alt: bool,
    pub ctrl: bool,
    pub super_key: bool,
}

/// Translates the GUI's modifiers for the encoder: control or the platform
/// command key become control; alt, shift and the Mac command key (as super)
/// carry over.
pub fn egui_mod_to_termwiz(modifiers: Modifiers) -> (m: KeyModifiers)
    ensures
        m.ctrl == (modifiers.ctrl || modifiers.command),
        m.alt == modifiers.alt,
        m.shift == modifiers.shift,
        m.super_key == modifiers.mac_cmd,
{
    KeyModifiers {
        ctrl: modifiers.ctrl || modifiers.command,
        alt: modifiers.alt,
        shift: modifiers.shift,
        super_key: modifiers.mac_cmd,
    }
}

/// The key encoding protocols the encoder offers.
#[derive(Clone, Copy, Debug, PartialEq, Eq, Structural)]
pub enum KeyboardEncoding {
    /// The encoding xterm uses.
    Xterm,
    /// The fixterms `CSI u` encoding.
    CsiU,
    /// The Windows console's encoding.
    Win32,
}

/// The terminal modes that influence how a key is encoded.
#[derive(Clone, Copy, Debug, PartialEq, Eq, Structural)]
pub struct EncodeModes {
    pub encoding: KeyboardEncoding,
    pub application_cursor_keys: bool,
    pub newline_mode: bool,
    pub modify_other_keys: Option<i64>,
}

/// The modes this front end encodes keys with: xterm's encoding, normal cursor
/// keys, no newline mode and no `modifyOtherKeys`.
pub open spec fn default_modes() -> EncodeModes {
    EncodeModes {
        encoding: KeyboardEncoding::Xterm,
        application_cursor_keys: false,
        newline_mode: false,
        modify_other_keys: None,
    }
}

/// The modes this front end encodes keys with (see `default_modes`).
pub fn default_key_code_encode_mode() -> (m: EncodeModes)
    ensures
        m == default_modes(),
{
    EncodeModes {
        encoding: KeyboardEncoding::Xterm,
        application_cursor_keys: false,
        newline_mode: false,
        modify_other_keys: None,
    }
}

#[verifier::external_type_specification]
#[verifier::external_body]
pub struct ExTermwizError(termwiz::Error);

/// The text the terminal encoder produces for a key event, or `None` when it
/// reports an error: the key code, the modifiers held (shift, alt, control,
/// super), the encoding modes (encoding, application cursor keys, newline mode,
/// `modifyOtherKeys` level), and whether the key went down.
pub uninterp spec fn termwiz_key_encoding(
    code: KeyCode,
    shift: bool,
    alt: bool,
    ctrl: bool,
    super_key: bool,
    encoding: KeyboardEncoding,
    application_cursor_keys: bool,
    newline_mode: bool,
    modify_other_keys: Option<i64>,
    is_down: bool,
) -> Option<Seq<char>>;

/// The encoder's text for a key event with the given modifiers and modes (see
/// `termwiz_key_encoding`).
pub open spec fn key_encoding(code: KeyCode, mods: KeyModifiers, modes: EncodeModes, is_down: bool)
    -> Option<Seq<char>> {
    termwiz_key_encoding(
        code,
        mods.shift,
        mods.alt,
        mods.ctrl,
        mods.super_key,
        modes.encoding,
        modes.application_cursor_keys,
        modes.newline_mode,
        modes.modify_other_keys,
        is_down,
    )
}

/// Calls `termwiz::input::KeyCode::encode` on the key code, the modifiers (set
/// one by one on `Modifiers::NONE` with the encoder's named flags) and the
/// encoding modes.
///
/// Trusted: the result is `Ok` exactly when `termwiz_key_encoding` names a text,
/// and then it is that text. Beyond that name it claims what the encoder's source
/// shows: a key that goes up encodes to the empty text; the clipboard keys and the
/// browser's back key encode to the empty text; function keys from 25 on are
/// refused with an error when they go down. The encoder panics on function key 0,
/// which `requires` leaves out. Which text the other keys produce, and what the
/// error says, is not stated.
#[verifier::external_body]
fn termwiz_encode(
    code: KeyCode,
    shift: bool,
    alt: bool,
    ctrl: bool,
    super_key: bool,
    encoding: KeyboardEncoding,
    application_cursor_keys: bool,
    newline_mode: bool,
    modify_other_keys: Option<i64>,
    is_down: bool,
) -> (res: Result<String, termwiz::Error>)
    requires
        code matches KeyCode::Function(n) ==> n != 0,
    ensures
        res is Ok <==> termwiz_key_encoding(code, shift, alt, ctrl, super_key, encoding, application_cursor_keys, newline_mode, modify_other_keys, is_down) is Some,
        res matches Ok(s) ==> s@ == termwiz_key_encoding(code, shift, alt, ctrl, super_key, encoding, application_cursor_keys, newline_mode, modify_other_keys, is_down).unwrap(),
        !is_down ==> res is Ok && res.unwrap()@.len() == 0,
        is_down && (code matches KeyCode::Function(n) && n >= 25) ==> res is Err,
        is_down && (code is Copy || code is Cut || code is Paste || code is BrowserBack) ==> res is Ok
            && res.unwrap()@.len() == 0,
{
    let key = match code {
        KeyDownArrow => TwDownArrow, KeyLeftArrow => TwLeftArrow, KeyTab => TwTab,
        KeyRightArrow => TwRightArrow, KeyUpArrow => TwUpArrow, KeyEnd => TwEnd,
        KeyEscape => TwEscape, KeyBackspace => TwBackspace, KeyEnter => TwEnter,
        KeyInsert => TwInsert, KeyDelete => TwDelete, KeyHome => TwHome,
        KeyPageUp => TwPageUp, KeyPageDown => TwPageDown, KeyCopy => TwCopy,
        KeyCut => TwCut, KeyPaste => TwPaste, KeyBrowserBack => TwBrowserBack,
        KeyFunction(n) => TwFunction(n),
    };
    let encoding = match encoding { EncodingXterm => TwXterm, EncodingCsiU => TwCsiU, EncodingWin32 => TwWin32 };
    let modes = TwModes { encoding, application_cursor_keys, newline_mode, modify_other_keys };
    let mut mods = TwMods::NONE;
    mods.set(TwMods::SHIFT, shift); mods.set(TwMods::ALT, alt);
    mods.set(TwMods::CTRL, ctrl); mods.set(TwMods::SUPER, super_key);
    key.encode(mods, modes, is_down)
}

/// A key event that the terminal encoder refused, with the encoder's own error.
#[derive(Debug)]
pub struct KeyEncodeError {
    pub source: termwiz::Error,
}

/// Encodes a key event for the terminal: the text the encoder produces for the
/// key code, the modifiers and the modes, or the encoder's error where it
/// refuses the key.
pub fn encode_key(code: KeyCode, mods: KeyModifiers, modes: EncodeModes, pressed: bool)
    -> (res: Result<String, KeyEncodeError>)
    requires
        code matches KeyCode::Function(n) ==> n != 0,
    ensures
        res is Ok <==> key_encoding(code, mods, modes, pressed) is Some,
        res matches Ok(s) ==> s@ == key_encoding(code, mods, modes, pressed).unwrap(),
        !pressed ==> (res matches Ok(s) && s@.len() == 0),
        pressed && (code matches KeyCode::Function(n) && n >= 25) ==> res is Err,
        pressed && (code is Copy || code is Cut || code is Paste || code is BrowserBack) ==> (
        res matches Ok(s) && s@.len() == 0),
{
    let encoded = termwiz_encode(
        code,
        mods.shift,
        mods.alt,
        mods.ctrl,
        mods.super_key,
        modes.encoding,
        modes.application_cursor_keys,
        modes.newline_mode,
        modes.modify_other_keys,
        pressed,
    );
    match encoded {
        Ok(s) => Ok(s),
        Err(source) => Err(KeyEncodeError { source }),
    }
}

} // verus!
