use showroom::color::{Palette, Rgb, COLOR_COUNT};
use showroom::geometry::WindowDims;
use showroom::keys::{Key, Modifiers};
use showroom::terminal::{
    alacritty_clipboard_type_to_arboard_kind, alacritty_event_action, egui_event_input,
    pty_payload, ClipboardKind, ClipboardType, InputEvent, TerminalAction, TerminalEvent,
};

fn palette() -> Palette {
    let mut entries = vec![None; COLOR_COUNT];
    entries[3] = Some(Rgb { r: 9, g: 8, b: 7 });
    Palette::from_entries(entries).unwrap()
}

fn act(event: TerminalEvent) -> TerminalAction {
    alacritty_event_action(event, &palette(), 9, 18)
}

const NONE: Modifiers = Modifiers { alt: false, ctrl: false, shift: false, mac_cmd: false, command: false };

#[test]
fn title_gets_the_application_name() {
    match act(TerminalEvent::Title("vim".to_string())) {
        TerminalAction::SetTitle(t) => assert_eq!(t, "vim — Showroom"),
        other => panic!("unexpected {:?}", other),
    }
}

#[test]
fn color_requests_are_answered_from_the_palette() {
    assert!(matches!(
        act(TerminalEvent::ColorRequest(3)),
        TerminalAction::ReplyColor(Rgb { r: 9, g: 8, b: 7 })
    ));
    assert!(matches!(
        act(TerminalEvent::ColorRequest(256)),
        TerminalAction::ReplyColor(Rgb { r: 0, g: 0, b: 0 })
    ));
}

#[test]
fn pty_writes_pass_through() {
    match act(TerminalEvent::PtyWrite("\x1b[0n".to_string())) {
        TerminalAction::WritePty(t) => assert_eq!(t, "\x1b[0n"),
        other => panic!("unexpected {:?}", other),
    }
}

#[test]
fn text_area_size_uses_the_default_grid() {
    match act(TerminalEvent::TextAreaSizeRequest) {
        TerminalAction::ReplyTextAreaSize(d) => assert_eq!(
            d,
            WindowDims { num_lines: 32, num_cols: 80, cell_width: 9, cell_height: 18 }
        ),
        other => panic!("unexpected {:?}", other),
    }
}

#[test]
fn clipboard_requests_use_the_desktop_clipboards() {
    match act(TerminalEvent::ClipboardStore(ClipboardType::Selection, "x".to_string())) {
        TerminalAction::StoreClipboard(k, t) => {
            assert_eq!(k, ClipboardKind::Primary);
            assert_eq!(t, "x");
        }
        other => panic!("unexpected {:?}", other),
    }
    assert!(matches!(
        act(TerminalEvent::ClipboardLoad(ClipboardType::Clipboard)),
        TerminalAction::LoadClipboard(ClipboardKind::Clipboard)
    ));
    assert_eq!(alacritty_clipboard_type_to_arboard_kind(ClipboardType::Clipboard), ClipboardKind::Clipboard);
    assert_eq!(alacritty_clipboard_type_to_arboard_kind(ClipboardType::Selection), ClipboardKind::Primary);
}

#[test]
fn wakeup_and_exit() {
    assert!(matches!(act(TerminalEvent::Wakeup), TerminalAction::RequestRepaint));
    assert!(matches!(act(TerminalEvent::Exit), TerminalAction::Close));
}

#[test]
fn other_events_are_ignored() {
    for e in [
        TerminalEvent::Bell,
        TerminalEvent::ResetTitle,
        TerminalEvent::MouseCursorDirty,
        TerminalEvent::CursorBlinkingChange,
        TerminalEvent::ChildExit,
    ] {
        assert!(matches!(act(e), TerminalAction::Nothing));
    }
}

#[test]
fn empty_text_writes_nothing() {
    assert_eq!(pty_payload(String::new()), None);
    assert_eq!(pty_payload("a".to_string()), Some("a".to_string()));
    assert_eq!(egui_event_input(InputEvent::Text(String::new())).unwrap(), None);
}

#[test]
fn typed_text_is_written() {
    assert_eq!(
        egui_event_input(InputEvent::Text("ls -l".to_string())).unwrap(),
        Some("ls -l".to_string())
    );
}

#[test]
fn forwarded_keys_are_encoded() {
    let e = InputEvent::Key { key: Key::ArrowUp, pressed: true, modifiers: NONE };
    assert_eq!(egui_event_input(e).unwrap(), Some("\x1b[A".to_string()));
    let ctrl = Modifiers { command: true, ..NONE };
    let e = InputEvent::Key { key: Key::ArrowRight, pressed: true, modifiers: ctrl };
    assert_eq!(egui_event_input(e).unwrap(), Some("\x1b[1;5C".to_string()));
    let e = InputEvent::Key { key: Key::F2, pressed: true, modifiers: NONE };
    assert_eq!(egui_event_input(e).unwrap(), Some("\x1bOQ".to_string()));
}

#[test]
fn released_and_text_keys_write_nothing() {
    let e = InputEvent::Key { key: Key::ArrowUp, pressed: false, modifiers: NONE };
    assert_eq!(egui_event_input(e).unwrap(), None);
    let e = InputEvent::Key { key: Key::A, pressed: true, modifiers: NONE };
    assert_eq!(egui_event_input(e).unwrap(), None);
    let e = InputEvent::Key { key: Key::Copy, pressed: true, modifiers: NONE };
    assert_eq!(egui_event_input(e).unwrap(), None);
    assert_eq!(egui_event_input(InputEvent::Other).unwrap(), None);
}

#[test]
fn high_function_keys_are_an_error() {
    let e = InputEvent::Key { key: Key::F30, pressed: true, modifiers: NONE };
    let err = egui_event_input(e).unwrap_err();
    assert!(err.source.to_string().contains("unhandled fkey number 30"), "{}", err.source);
    let e = InputEvent::Key { key: Key::F30, pressed: false, modifiers: NONE };
    assert_eq!(egui_event_input(e).unwrap(), None);
}
