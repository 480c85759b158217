use showroom::keys::{
    default_key_code_encode_mode, egui_key_to_code, egui_mod_to_termwiz, encode_key, EncodeModes,
    Key, KeyCode, KeyModifiers, KeyboardEncoding, Modifiers,
};

const NO_MODS: KeyModifiers = KeyModifiers { shift: false, alt: false, ctrl: false, super_key: false };

fn egui_mods(alt: bool, ctrl: bool, shift: bool, mac_cmd: bool, command: bool) -> Modifiers {
    Modifiers { alt, ctrl, shift, mac_cmd, command }
}

#[test]
fn navigation_keys_are_forwarded() {
    assert_eq!(egui_key_to_code(Key::ArrowUp), Some(KeyCode::UpArrow));
    assert_eq!(egui_key_to_code(Key::ArrowDown), Some(KeyCode::DownArrow));
    assert_eq!(egui_key_to_code(Key::PageDown), Some(KeyCode::PageDown));
    assert_eq!(egui_key_to_code(Key::Escape), Some(KeyCode::Escape));
    assert_eq!(egui_key_to_code(Key::Paste), Some(KeyCode::Paste));
    assert_eq!(egui_key_to_code(Key::BrowserBack), Some(KeyCode::BrowserBack));
}

#[test]
fn function_keys_keep_their_number() {
    assert_eq!(egui_key_to_code(Key::F1), Some(KeyCode::Function(1)));
    assert_eq!(egui_key_to_code(Key::F12), Some(KeyCode::Function(12)));
    assert_eq!(egui_key_to_code(Key::F35), Some(KeyCode::Function(35)));
}

#[test]
fn text_keys_are_not_forwarded() {
    assert_eq!(egui_key_to_code(Key::A), None);
    assert_eq!(egui_key_to_code(Key::Num5), None);
    assert_eq!(egui_key_to_code(Key::Space), None);
    assert_eq!(egui_key_to_code(Key::BrowserForward), None);
    assert_eq!(egui_key_to_code(Key::ShiftLeft), None);
}

#[test]
fn command_counts_as_control() {
    let m = egui_mod_to_termwiz(egui_mods(false, false, false, false, true));
    assert_eq!(m, KeyModifiers { shift: false, alt: false, ctrl: true, super_key: false });
    let m = egui_mod_to_termwiz(egui_mods(true, false, true, true, false));
    assert_eq!(m, KeyModifiers { shift: true, alt: true, ctrl: false, super_key: true });
}

#[test]
fn default_modes_are_plain_xterm() {
    let m = default_key_code_encode_mode();
    assert_eq!(
        m,
        EncodeModes {
            encoding: KeyboardEncoding::Xterm,
            application_cursor_keys: false,
            newline_mode: false,
            modify_other_keys: None,
        }
    );
}

#[test]
fn arrows_encode_as_csi() {
    let modes = default_key_code_encode_mode();
    assert_eq!(encode_key(KeyCode::UpArrow, NO_MODS, modes, true).unwrap(), "\x1b[A");
    assert_eq!(encode_key(KeyCode::LeftArrow, NO_MODS, modes, true).unwrap(), "\x1b[D");
    let ctrl = KeyModifiers { ctrl: true, ..NO_MODS };
    assert_eq!(encode_key(KeyCode::UpArrow, ctrl, modes, true).unwrap(), "\x1b[1;5A");
}

#[test]
fn editing_keys_encode() {
    let modes = default_key_code_encode_mode();
    assert_eq!(encode_key(KeyCode::Enter, NO_MODS, modes, true).unwrap(), "\r");
    assert_eq!(encode_key(KeyCode::Backspace, NO_MODS, modes, true).unwrap(), "\x7f");
    assert_eq!(encode_key(KeyCode::Tab, NO_MODS, modes, true).unwrap(), "\t");
    assert_eq!(encode_key(KeyCode::Delete, NO_MODS, modes, true).unwrap(), "\x1b[3~");
    assert_eq!(encode_key(KeyCode::Escape, NO_MODS, modes, true).unwrap(), "\x1b");
}

#[test]
fn function_keys_encode() {
    let modes = default_key_code_encode_mode();
    assert_eq!(encode_key(KeyCode::Function(1), NO_MODS, modes, true).unwrap(), "\x1bOP");
    assert_eq!(encode_key(KeyCode::Function(5), NO_MODS, modes, true).unwrap(), "\x1b[15~");
    assert_eq!(encode_key(KeyCode::Function(24), NO_MODS, modes, true).unwrap(), "\x1b[45~");
}

#[test]
fn high_function_keys_are_refused() {
    let modes = default_key_code_encode_mode();
    assert!(encode_key(KeyCode::Function(25), NO_MODS, modes, true).is_err());
    assert!(encode_key(KeyCode::Function(35), NO_MODS, modes, true).is_err());
}

#[test]
fn refusals_keep_the_encoders_message() {
    let modes = default_key_code_encode_mode();
    let err = encode_key(KeyCode::Function(25), NO_MODS, modes, true).unwrap_err();
    assert!(err.source.to_string().contains("unhandled fkey number 25"), "{}", err.source);
}

#[test]
fn modifiers_reach_the_encoder() {
    let modes = default_key_code_encode_mode();
    let shift = KeyModifiers { shift: true, ..NO_MODS };
    assert_eq!(encode_key(KeyCode::UpArrow, shift, modes, true).unwrap(), "\x1b[1;2A");
    let alt = KeyModifiers { alt: true, ..NO_MODS };
    assert_eq!(encode_key(KeyCode::UpArrow, alt, modes, true).unwrap(), "\x1b[1;3A");
    assert_eq!(encode_key(KeyCode::Enter, alt, modes, true).unwrap(), "\x1b\r");
    let sup = KeyModifiers { super_key: true, ..NO_MODS };
    let other_keys = EncodeModes { modify_other_keys: Some(2), ..modes };
    assert_eq!(encode_key(KeyCode::Tab, NO_MODS, other_keys, true).unwrap(), "\t");
    assert_eq!(encode_key(KeyCode::Tab, sup, other_keys, true).unwrap(), "\x1b[27;1;9~");
}

#[test]
fn released_keys_encode_to_nothing() {
    let modes = default_key_code_encode_mode();
    assert_eq!(encode_key(KeyCode::UpArrow, NO_MODS, modes, false).unwrap(), "");
    assert_eq!(encode_key(KeyCode::Function(30), NO_MODS, modes, false).unwrap(), "");
}

#[test]
fn clipboard_keys_encode_to_nothing() {
    let modes = default_key_code_encode_mode();
    assert_eq!(encode_key(KeyCode::Copy, NO_MODS, modes, true).unwrap(), "");
    assert_eq!(encode_key(KeyCode::BrowserBack, NO_MODS, modes, true).unwrap(), "");
}
