//! Terminal colors, the terminal's palette, and their translation into the
//! opaque RGBA colors the window paints with.
use vstd::prelude::*;

verus! {

/// Number of entries in the terminal's color palette: 16 named ANSI colors,
/// the 240 entries of the color cube and grayscale ramp, and the special
/// foreground, background, cursor, dim and bright entries.
pub const COLOR_COUNT: usize = 269;

/// An RGB triple as the terminal stores it.
#[derive(Clone, Copy, Debug, PartialEq, Eq, Structural)]
pub struct Rgb {
    pub r: u8,
    pub g: u8,
    pub b: u8,
}

/// A color as the window paints it: red, green, blue and alpha.
#[derive(Clone, Copy, Debug, PartialEq, Eq, Structural)]
pub struct Rgba {
    pub r: u8,
    pub g: u8,
    pub b: u8,
    pub a: u8,
}

/// The named colors of the terminal, each of which is a fixed slot of the palette.
#[derive(Clone, Copy, Debug, PartialEq, Eq, Structural)]
pub enum NamedColor {
    Black,
    Red,
    Green,
    Yellow,
    Blue,
    Magenta,
    Cyan,
    White,
    BrightBlack,
    BrightRed,
    BrightGreen,
    BrightYellow,
    BrightBlue,
    BrightMagenta,
    BrightCyan,
    BrightWhite,
    Foreground,
    Background,
    Cursor,
    DimBlack,
    DimRed,
    DimGreen,
    DimYellow,
    DimBlue,
    DimMagenta,
    DimCyan,
    DimWhite,
    BrightForeground,
    DimForeground,
}

/// The color of a cell's foreground or background as the terminal records it.
#[derive(Clone, Copy, Debug, PartialEq, Eq, Structural)]
pub enum TermColor {
    /// One of the named palette slots.
    Named(NamedColor),
    /// A color given directly by its RGB value.
    Spec(Rgb),
    /// An entry of the 256-color table, by its index.
    Indexed(u8),
}

impl NamedColor {
    /// The palette slot that holds this named color.
    pub open spec fn slot(self) -> nat {
        match self {
            NamedColor::Black => 0,
            NamedColor::Red => 1,
            NamedColor::Green => 2,
            NamedColor::Yellow => 3,
            NamedColor::Blue => 4,
            NamedColor::Magenta => 5,
            NamedColor::Cyan => 6,
            NamedColor::White => 7,
            NamedColor::BrightBlack => 8,
            NamedColor::BrightRed => 9,
            NamedColor::BrightGreen => 10,
            NamedColor::BrightYellow => 11,
            NamedColor::BrightBlue => 12,
            NamedColor::BrightMagenta => 13,
            NamedColor::BrightCyan => 14,
            NamedColor::BrightWhite => 15,
            NamedColor::Foreground => 256,
            NamedColor::Background => 257,
            NamedColor::Cursor => 258,
            NamedColor::DimBlack => 259,
            NamedColor::DimRed => 260,
            NamedColor::DimGreen => 261,
            NamedColor::DimYellow => 262,
            NamedColor::DimBlue => 263,
            NamedColor::DimMagenta => 264,
            NamedColor::DimCyan => 265,
            NamedColor::DimWhite => 266,
            NamedColor::BrightForeground => 267,
            NamedColor::DimForeground => 268,
        }
    }

    /// The palette slot that holds this named color.
    pub fn index(&self) -> (i: usize)
        ensures
            i == self.slot(),
            i < COLOR_COUNT,
    {
        match self {
            NamedColor::Black => 0,
            NamedColor::Red => 1,
            NamedColor::Green => 2,
            NamedColor::Yellow => 3,
            NamedColor::Blue => 4,
            NamedColor::Magenta => 5,
            NamedColor::Cyan => 6,
            NamedColor::White => 7,
            NamedColor::BrightBlack => 8,
            NamedColor::BrightRed => 9,
            NamedColor::BrightGreen => 10,
            NamedColor::BrightYellow => 11,
            NamedColor::BrightBlue => 12,
            NamedColor::BrightMagenta => 13,
            NamedColor::BrightCyan => 14,
            NamedColor::BrightWhite => 15,
            NamedColor::Foreground => 256,
            NamedColor::Background => 257,
            NamedColor::Cursor => 258,
            NamedColor::DimBlack => 259,
            NamedColor::DimRed => 260,
            NamedColor::DimGreen => 261,
            NamedColor::DimYellow => 262,
            NamedColor::DimBlue => 263,
            NamedColor::DimMagenta => 264,
            NamedColor::DimCyan => 265,
            NamedColor::DimWhite => 266,
            NamedColor::BrightForeground => 267,
            NamedColor::DimForeground => 268,
        }
    }
}

/// Distinct named colors sit in distinct palette slots.
pub proof fn lemma_slots_distinct(a: NamedColor, b: NamedColor)
    ensures
        a.slot() == b.slot() ==> a == b,
        a.slot() < COLOR_COUNT,
{
}

/// The palette's layout: the sixteen ANSI colors fill slots 0 to 15 in order,
/// each bright color 8 slots after its normal color; foreground, background and
/// cursor follow at 256, 257 and 258, then the eight dim colors in the order of
/// their normal colors, then the bright and the dim foreground.
pub proof fn lemma_slot_layout()
    ensures
        NamedColor::Black.slot() == 0,
        NamedColor::Red.slot() == NamedColor::Black.slot() + 1,
        NamedColor::Green.slot() == NamedColor::Red.slot() + 1,
        NamedColor::Yellow.slot() == NamedColor::Green.slot() + 1,
        NamedColor::Blue.slot() == NamedColor::Yellow.slot() + 1,
        NamedColor::Magenta.slot() == NamedColor::Blue.slot() + 1,
        NamedColor::Cyan.slot() == NamedColor::Magenta.slot() + 1,
        NamedColor::White.slot() == NamedColor::Cyan.slot() + 1,
        NamedColor::BrightBlack.slot() == NamedColor::Black.slot() + 8,
        NamedColor::BrightRed.slot() == NamedColor::Red.slot() + 8,
        NamedColor::BrightGreen.slot() == NamedColor::Green.slot() + 8,
        NamedColor::BrightYellow.slot() == NamedColor::Yellow.slot() + 8,
        NamedColor::BrightBlue.slot() == NamedColor::Blue.slot() + 8,
        NamedColor::BrightMagenta.slot() == NamedColor::Magenta.slot() + 8,
        NamedColor::BrightCyan.slot() == NamedColor::Cyan.slot() + 8,
        NamedColor::BrightWhite.slot() == NamedColor::White.slot() + 8,
        NamedColor::Foreground.slot() == 256,
        NamedColor::Background.slot() == 257,
        NamedColor::Cursor.slot() == 258,
        NamedColor::DimBlack.slot() == NamedColor::Black.slot() + 259,
        NamedColor::DimRed.slot() == NamedColor::Red.slot() + 259,
        NamedColor::DimGreen.slot() == NamedColor::Green.slot() + 259,
        NamedColor::DimYellow.slot() == NamedColor::Yellow.slot() + 259,
        NamedColor::DimBlue.slot() == NamedColor::Blue.slot() + 259,
        NamedColor::DimMagenta.slot() == NamedColor::Magenta.slot() + 259,
        NamedColor::DimCyan.slot() == NamedColor::Cyan.slot() + 259,
        NamedColor::DimWhite.slot() == NamedColor::White.slot() + 259,
        NamedColor::BrightForeground.slot() == 267,
        NamedColor::DimForeground.slot() == 268,
{
}

/// The terminal's color palette: one optional RGB value per slot.
pub struct Palette {
    entries: Vec<Option<Rgb>>,
}

impl View for Palette {
    type V = Seq<Option<Rgb>>;

    closed spec fn view(&self) -> Seq<Option<Rgb>> {
        self.entries@
    }
}

impl Palette {
    #[verifier::type_invariant]
    spec fn has_every_slot(self) -> bool {
        self.entries@.len() == COLOR_COUNT
    }

    /// A palette with the given slots; `None` unless there is exactly one entry
    /// per slot.
    pub fn from_entries(entries: Vec<Option<Rgb>>) -> (p: Option<Palette>)
        ensures
            p is Some <==> entries@.len() == COLOR_COUNT,
            p matches Some(p) ==> p@ == entries@,
    {
        if entries.len() == COLOR_COUNT {
            Some(Palette { entries })
        } else {
            None
        }
    }

    /// The value held in slot `index`.
    pub fn get(&self, index: usize) -> (c: Option<Rgb>)
        requires
            index < COLOR_COUNT,
        ensures
            c == self@[index as int],
    {
        proof {
            use_type_invariant(self);
        }
        self.entries[index]
    }
}

/// The opaque screen color with the given RGB value.
pub open spec fn opaque(r: u8, g: u8, b: u8) -> Rgba {
    Rgba { r, g, b, a: 255 }
}

/// What the window paints for a terminal color, given the terminal's palette.
///
/// A palette slot that holds a value is painted with it. An unset named slot is
/// painted white, except the background slot, which is painted dark gray
/// (30, 30, 30). An unset indexed slot is painted magenta, so that it stands out.
pub open spec fn screen_color(c: TermColor, palette: Seq<Option<Rgb>>) -> Rgba {
    match c {
        TermColor::Named(n) => match palette[n.slot() as int] {
            Some(rgb) => opaque(rgb.r, rgb.g, rgb.b),
            None => if n == NamedColor::Background {
                opaque(30, 30, 30)
            } else {
                opaque(255, 255, 255)
            },
        },
        TermColor::Spec(rgb) => opaque(rgb.r, rgb.g, rgb.b),
        TermColor::Indexed(i) => match palette[i as int] {
            Some(rgb) => opaque(rgb.r, rgb.g, rgb.b),
            None => opaque(255, 0, 255),
        },
    }
}

/// A color whose palette entry is set is painted with that entry's RGB value,
/// fully opaque: a named color from its own slot, an indexed color from the slot
/// of its index. A directly given color is painted as given, whatever the
/// palette holds.
pub proof fn lemma_colors_read_their_own_slot(
    c: TermColor,
    palette: Seq<Option<Rgb>>,
    other: Seq<Option<Rgb>>,
)
    ensures
        c matches TermColor::Named(n) ==> (palette[n.slot() as int] matches Some(rgb) ==> screen_color(
            c,
            palette,
        ) == (Rgba { r: rgb.r, g: rgb.g, b: rgb.b, a: 255 })),
        c matches TermColor::Indexed(i) ==> (palette[i as int] matches Some(rgb) ==> screen_color(
            c,
            palette,
        ) == (Rgba { r: rgb.r, g: rgb.g, b: rgb.b, a: 255 })),
        c matches TermColor::Spec(rgb) ==> screen_color(c, palette) == (Rgba {
            r: rgb.r,
            g: rgb.g,
            b: rgb.b,
            a: 255,
        }) && screen_color(c, palette) == screen_color(c, other),
{
}

/// The GUI toolkit's fully opaque color with the given RGB value, read back as
/// its four components.
///
/// Calls `egui::Color32::from_rgb` and `Color32::to_array`. Trusted: the toolkit
/// documents `from_rgb` as a fully opaque color and builds it as `[r, g, b, 255]`.
#[verifier::external_body]
fn color32_from_rgb(r: u8, g: u8, b: u8) -> (c: Rgba)
    ensures
        c == opaque(r, g, b),
{
    let [r, g, b, a] = egui::Color32::from_rgb(r, g, b).to_array();
    Rgba { r, g, b, a }
}

/// Translates a terminal color into the color the window paints, looking unset
/// slots up in `colors` (see `screen_color`).
pub fn alacritty_to_egui_color(c: TermColor, colors: &Palette) -> (out: Rgba)
    ensures
        out == screen_color(c, colors@),
        out.a == 255,
        c matches TermColor::Named(n) ==> (colors@[n.slot() as int] matches Some(rgb) ==> out == (
        Rgba { r: rgb.r, g: rgb.g, b: rgb.b, a: 255 })),
        c matches TermColor::Indexed(i) ==> (colors@[i as int] matches Some(rgb) ==> out == (Rgba {
            r: rgb.r,
            g: rgb.g,
            b: rgb.b,
            a: 255,
        })),
{
    proof {
        use_type_invariant(colors);
    }
    match c {
        TermColor::Named(named_color) => {
            match colors.get(named_color.index()) {
                Some(rgb) => color32_from_rgb(rgb.r, rgb.g, rgb.b),
                None => {
                    match named_color {
                        NamedColor::Background => color32_from_rgb(30, 30, 30),
                        _ => color32_from_rgb(255, 255, 255),
                    }
                },
            }
        },
        TermColor::Spec(rgb) => color32_from_rgb(rgb.r, rgb.g, rgb.b),
        TermColor::Indexed(index) => {
            if let Some(rgb) = colors.get(index as usize) {
                color32_from_rgb(rgb.r, rgb.g, rgb.b)
            } else {
                color32_from_rgb(255, 0, 255)
            }
        },
    }
}

/// The entry of the 256-color table that `c` names, when its palette slot is
/// unset, so that it is painted in the magenta fallback; `None` for every other
/// color.
pub open spec fn fallback_index(c: TermColor, palette: Seq<Option<Rgb>>) -> Option<u8> {
    match c {
        TermColor::Indexed(i) => if palette[i as int] is None {
            Some(i)
        } else {
            None
        },
        _ => None,
    }
}

/// The entry of the 256-color table that is painted in the magenta fallback
/// for `c`, if any (see `fallback_index`), for the application to report.
pub fn unhandled_color_index(c: TermColor, colors: &Palette) -> (index: Option<u8>)
    ensures
        index == fallback_index(c, colors@),
{
    proof {
        use_type_invariant(colors);
    }
    match c {
        TermColor::Indexed(index) => {
            if colors.get(index as usize).is_none() {
                Some(index)
            } else {
                None
            }
        },
        _ => None,
    }
}

/// Exactly the colors that are reported as unhandled are painted magenta for
/// want of a palette entry.
pub proof fn lemma_fallback_is_magenta(c: TermColor, palette: Seq<Option<Rgb>>)
    ensures
        fallback_index(c, palette) is Some ==> screen_color(c, palette) == opaque(255, 0, 255),
        fallback_index(c, palette) is Some <==> (c is Indexed && palette[c->Indexed_0 as int] is None),
{
}

/// The colors the front end installs in a fresh terminal: slot and value.
pub open spec fn default_color_table() -> Seq<(usize, Rgb)> {
    seq![
        (0usize, Rgb { r: 17, g: 24, b: 30 }),
        (1usize, Rgb { r: 140, g: 0, b: 0 }),
        (2usize, Rgb { r: 0, g: 160, b: 30 }),
        (3usize, Rgb { r: 205, g: 205, b: 0 }),
        (4usize, Rgb { r: 70, g: 90, b: 255 }),
        (5usize, Rgb { r: 205, g: 0, b: 205 }),
        (6usize, Rgb { r: 0, g: 205, b: 205 }),
        (7usize, Rgb { r: 229, g: 229, b: 229 }),
        (8usize, Rgb { r: 80, g: 90, b: 100 }),
        (9usize, Rgb { r: 255, g: 30, b: 50 }),
        (10usize, Rgb { r: 80, g: 255, b: 40 }),
        (11usize, Rgb { r: 255, g: 255, b: 0 }),
        (12usize, Rgb { r: 140, g: 140, b: 255 }),
        (13usize, Rgb { r: 255, g: 50, b: 240 }),
        (14usize, Rgb { r: 0, g: 255, b: 255 }),
        (15usize, Rgb { r: 255, g: 255, b: 255 }),
        (256usize, Rgb { r: 229, g: 229, b: 229 }),
        (257usize, Rgb { r: 17, g: 24, b: 30 }),
        (258usize, Rgb { r: 229, g: 229, b: 229 }),
    ]
}

/// The colors the front end installs in a fresh terminal, as (slot, value)
/// pairs: the sixteen ANSI colors, then foreground, background and cursor.
pub fn default_colors() -> (table: Vec<(usize, Rgb)>)
    ensures
        table@ == default_color_table(),
{
    let table = vec![
        (NamedColor::Black.index(), Rgb { r: 17, g: 24, b: 30 }),
        (NamedColor::Red.index(), Rgb { r: 140, g: 0, b: 0 }),
        (NamedColor::Green.index(), Rgb { r: 0, g: 160, b: 30 }),
        (NamedColor::Yellow.index(), Rgb { r: 205, g: 205, b: 0 }),
        (NamedColor::Blue.index(), Rgb { r: 70, g: 90, b: 255 }),
        (NamedColor::Magenta.index(), Rgb { r: 205, g: 0, b: 205 }),
        (NamedColor::Cyan.index(), Rgb { r: 0, g: 205, b: 205 }),
        (NamedColor::White.index(), Rgb { r: 229, g: 229, b: 229 }),
        (NamedColor::BrightBlack.index(), Rgb { r: 80, g: 90, b: 100 }),
        (NamedColor::BrightRed.index(), Rgb { r: 255, g: 30, b: 50 }),
        (NamedColor::BrightGreen.index(), Rgb { r: 80, g: 255, b: 40 }),
        (NamedColor::BrightYellow.index(), Rgb { r: 255, g: 255, b: 0 }),
        (NamedColor::BrightBlue.index(), Rgb { r: 140, g: 140, b: 255 }),
        (NamedColor::BrightMagenta.index(), Rgb { r: 255, g: 50, b: 240 }),
        (NamedColor::BrightCyan.index(), Rgb { r: 0, g: 255, b: 255 }),
        (NamedColor::BrightWhite.index(), Rgb { r: 255, g: 255, b: 255 }),
        (NamedColor::Foreground.index(), Rgb { r: 229, g: 229, b: 229 }),
        (NamedColor::Background.index(), Rgb { r: 17, g: 24, b: 30 }),
        (NamedColor::Cursor.index(), Rgb { r: 229, g: 229, b: 229 }),
    ];
    assert(table@ =~= default_color_table());
    table
}

/// The default colors name each palette slot at most once, every slot they name
/// exists, and the special slots repeat ANSI colors: the foreground and the
/// cursor are the ANSI white, the background is the ANSI black.
pub proof fn lemma_default_colors_well_formed()
    ensures
        forall|i: int|
            0 <= i < default_color_table().len() ==> (#[trigger] default_color_table()[i]).0
                < COLOR_COUNT,
        forall|i: int, j: int|
            0 <= i < j < default_color_table().len() ==> (#[trigger] default_color_table()[i]).0
                != (#[trigger] default_color_table()[j]).0,
        default_color_table()[16].1 == default_color_table()[7].1,
        default_color_table()[17].1 == default_color_table()[0].1,
        default_color_table()[18].1 == default_color_table()[7].1,
        default_color_table()[16].0 == NamedColor::Foreground.slot(),
        default_color_table()[17].0 == NamedColor::Background.slot(),
        default_color_table()[18].0 == NamedColor::Cursor.slot(),
{
    let t = default_color_table();
    assert forall|i: int, j: int| 0 <= i < j < t.len() implies #[trigger] t[i].0 != #[trigger] t[j].0 by {
        assert(0 <= i < 16 ==> t[i].0 == i);
        assert(16 <= i < 19 ==> t[i].0 == i + 240);
        assert(0 <= j < 16 ==> t[j].0 == j);
        assert(16 <= j < 19 ==> t[j].0 == j + 240);
    }
}

} // verus!
