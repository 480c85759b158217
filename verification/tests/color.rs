use showroom::color::{
    alacritty_to_egui_color, unhandled_color_index, default_colors, NamedColor, Palette, Rgb, Rgba, TermColor, COLOR_COUNT,
};

fn palette_with(slots: &[(usize, Rgb)]) -> Palette {
    let mut entries = vec![None; COLOR_COUNT];
    for &(i, rgb) in slots {
        entries[i] = Some(rgb);
    }
    Palette::from_entries(entries).unwrap()
}

const RED: Rgb = Rgb { r: 200, g: 10, b: 20 };

#[test]
fn named_color_uses_its_palette_slot() {
    let palette = palette_with(&[(1, RED)]);
    let c = alacritty_to_egui_color(TermColor::Named(NamedColor::Red), &palette);
    assert_eq!(c, Rgba { r: 200, g: 10, b: 20, a: 255 });
}

#[test]
fn named_special_slot_uses_its_palette_slot() {
    let palette = palette_with(&[(256, RED)]);
    let c = alacritty_to_egui_color(TermColor::Named(NamedColor::Foreground), &palette);
    assert_eq!(c, Rgba { r: 200, g: 10, b: 20, a: 255 });
}

#[test]
fn unset_named_color_is_white() {
    let palette = palette_with(&[]);
    let c = alacritty_to_egui_color(TermColor::Named(NamedColor::Blue), &palette);
    assert_eq!(c, Rgba { r: 255, g: 255, b: 255, a: 255 });
}

#[test]
fn unset_background_is_dark_gray() {
    let palette = palette_with(&[]);
    let c = alacritty_to_egui_color(TermColor::Named(NamedColor::Background), &palette);
    assert_eq!(c, Rgba { r: 30, g: 30, b: 30, a: 255 });
}

#[test]
fn spec_color_is_used_directly() {
    let palette = palette_with(&[]);
    let c = alacritty_to_egui_color(TermColor::Spec(Rgb { r: 1, g: 2, b: 3 }), &palette);
    assert_eq!(c, Rgba { r: 1, g: 2, b: 3, a: 255 });
}

#[test]
fn indexed_color_uses_its_palette_slot() {
    let palette = palette_with(&[(200, RED)]);
    let c = alacritty_to_egui_color(TermColor::Indexed(200), &palette);
    assert_eq!(c, Rgba { r: 200, g: 10, b: 20, a: 255 });
}

#[test]
fn unset_indexed_color_is_magenta() {
    let palette = palette_with(&[]);
    let c = alacritty_to_egui_color(TermColor::Indexed(17), &palette);
    assert_eq!(c, Rgba { r: 255, g: 0, b: 255, a: 255 });
}

#[test]
fn palette_needs_one_entry_per_slot() {
    assert!(Palette::from_entries(vec![None; COLOR_COUNT - 1]).is_none());
    assert!(Palette::from_entries(vec![None; COLOR_COUNT + 1]).is_none());
    assert!(Palette::from_entries(vec![None; COLOR_COUNT]).is_some());
    let palette = palette_with(&[(268, RED)]);
    assert_eq!(palette.get(268), Some(RED));
    assert_eq!(palette.get(0), None);
}

#[test]
fn named_color_slots() {
    assert_eq!(NamedColor::Black.index(), 0);
    assert_eq!(NamedColor::BrightWhite.index(), 15);
    assert_eq!(NamedColor::Foreground.index(), 256);
    assert_eq!(NamedColor::Background.index(), 257);
    assert_eq!(NamedColor::Cursor.index(), 258);
    assert_eq!(NamedColor::DimForeground.index(), 268);
}

#[test]
fn default_colors_table() {
    let table = default_colors();
    assert_eq!(table.len(), 19);
    assert_eq!(table[0], (0, Rgb { r: 17, g: 24, b: 30 }));
    assert_eq!(table[4], (4, Rgb { r: 70, g: 90, b: 255 }));
    assert_eq!(table[13], (13, Rgb { r: 255, g: 50, b: 240 }));
    assert_eq!(table[16], (256, Rgb { r: 229, g: 229, b: 229 }));
    assert_eq!(table[17], (257, Rgb { r: 17, g: 24, b: 30 }));
    assert_eq!(table[18], (258, Rgb { r: 229, g: 229, b: 229 }));
    let mut slots: Vec<usize> = table.iter().map(|e| e.0).collect();
    slots.sort();
    slots.dedup();
    assert_eq!(slots.len(), 19);
    assert!(slots.iter().all(|&s| s < COLOR_COUNT));
}

#[test]
fn unset_indexed_colors_are_reported() {
    let palette = palette_with(&[(200, RED)]);
    assert_eq!(unhandled_color_index(TermColor::Indexed(17), &palette), Some(17));
    assert_eq!(unhandled_color_index(TermColor::Indexed(200), &palette), None);
    assert_eq!(unhandled_color_index(TermColor::Named(NamedColor::Blue), &palette), None);
    assert_eq!(unhandled_color_index(TermColor::Spec(RED), &palette), None);
}
