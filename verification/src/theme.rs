//! Color themes and the little dancer animation of the menu bar.
use vstd::prelude::*;
use crate::text::{chars_eq_str, chars_of};

verus! {

/// A terminal color.
#[derive(Clone, Copy, Debug, PartialEq, Eq, Structural)]
pub enum Color {
    Black,
    Red,
    Green,
    Yellow,
    Blue,
    Cyan,
    Gray,
    DarkGray,
    LightRed,
    LightBlue,
    White,
    Rgb(u8, u8, u8),
}

/// How text is drawn: foreground and background color, bold and italic.
#[derive(Clone, Copy, Debug, PartialEq, Eq, Structural)]
pub struct Style {
    pub fg: Option<Color>,
    pub bg: Option<Color>,
    pub bold: bool,
    pub italic: bool,
}

impl Style {
    /// The plain style: no colors, no emphasis.
    pub open spec fn plain() -> Style {
        Style { fg: None, bg: None, bold: false, italic: false }
    }

    /// The plain style with a foreground color.
    pub open spec fn spec_fg(c: Color) -> Style {
        Style { fg: Some(c), ..Style::plain() }
    }

    /// The bold style with a foreground color.
    pub open spec fn spec_fg_bold(c: Color) -> Style {
        Style { fg: Some(c), bold: true, ..Style::plain() }
    }

    /// A style with only a foreground color.
    pub fn fg(c: Color) -> (r: Style)
        ensures
            r == Style::spec_fg(c),
    {
        Style { fg: Some(c), bg: None, bold: false, italic: false }
    }

    /// A bold style with a foreground color.
    pub fn fg_bold(c: Color) -> (r: Style)
        ensures
            r == Style::spec_fg_bold(c),
    {
        Style { fg: Some(c), bg: None, bold: true, italic: false }
    }
}

/// The available color themes.
#[derive(Clone, Copy, Debug, PartialEq, Eq, Structural)]
pub enum ThemeKind {
    Default,
    Light,
    Ocean,
}

/// The animations of the menu-bar dancer.
#[derive(Clone, Copy, Debug, PartialEq, Eq, Structural)]
pub enum DanceStyle {
    Off,
    Dancer,
    Bounce,
    Sway,
    Shrug,
}

/// The colors and styles that the calendar is drawn with.
#[derive(Clone, Copy, Debug, PartialEq, Eq, Structural)]
pub struct Theme {
    pub selected_bg: Color,
    /// The background of the menu bar.
    pub title_bg: Color,
    pub today: Style,
    pub active_border: Color,
    pub inactive_border: Color,
    pub weekend: Color,
    pub help_key: Style,
    pub dim: Style,
    pub accent_bold: Style,
}

impl DanceStyle {
    /// The name that settings store for a dance style.
    pub open spec fn name(self) -> Seq<char> {
        match self {
            DanceStyle::Off => "none"@,
            DanceStyle::Dancer => "dancer"@,
            DanceStyle::Bounce => "bounce"@,
            DanceStyle::Sway => "sway"@,
            DanceStyle::Shrug => "shrug"@,
        }
    }

    /// The name of this dance style.
    pub fn as_str(&self) -> (r: &'static str)
        ensures
            r@ == self.name(),
    {
        match self {
            DanceStyle::Off => "none",
            DanceStyle::Dancer => "dancer",
            DanceStyle::Bounce => "bounce",
            DanceStyle::Sway => "sway",
            DanceStyle::Shrug => "shrug",
        }
    }

    /// The frames of the animation, shown in turn.
    pub open spec fn frame_texts(self) -> Seq<Seq<char>> {
        match self {
            DanceStyle::Off => seq![""@],
            DanceStyle::Dancer => seq!["d(>_<)b"@, "d(>_<) "@, " (>_<)b"@, " (>_<) "@],
            DanceStyle::Bounce => seq!["(o.o)"@, "(0.0)"@, "(O.O)"@, "(0.0)"@],
            DanceStyle::Sway => seq!["(>_<)"@, "(>_>)"@, "(>_<)"@, "(<_<)"@],
            DanceStyle::Shrug => seq!["\\o/"@, "-o-"@, "/o\\"@, "-o-"@],
        }
    }

    /// The frames of this dance style's animation.
    pub fn frames(&self) -> (r: Vec<&'static str>)
        ensures
            r@.map_values(|s: &'static str| s@) == self.frame_texts(),
    {
        let r: Vec<&'static str> = match self {
            DanceStyle::Off => vec![""],
            DanceStyle::Dancer => vec!["d(>_<)b", "d(>_<) ", " (>_<)b", " (>_<) "],
            DanceStyle::Bounce => vec!["(o.o)", "(0.0)", "(O.O)", "(0.0)"],
            DanceStyle::Sway => vec!["(>_<)", "(>_>)", "(>_<)", "(<_<)"],
            DanceStyle::Shrug => vec!["\\o/", "-o-", "/o\\", "-o-"],
        };
        assert(r@.map_values(|s: &'static str| s@) =~= self.frame_texts());
        r
    }

    /// The dance style a stored name stands for; unknown names give `Off`.
    pub open spec fn named(s: Seq<char>) -> DanceStyle {
        if s == "dancer"@ {
            DanceStyle::Dancer
        } else if s == "bounce"@ {
            DanceStyle::Bounce
        } else if s == "sway"@ {
            DanceStyle::Sway
        } else if s == "shrug"@ {
            DanceStyle::Shrug
        } else {
            DanceStyle::Off
        }
    }

    /// Reads a dance style from its name; any other text is `Off`.
    pub fn from_name(s: &str) -> (r: DanceStyle)
        ensures
            r == DanceStyle::named(s@),
    {
        let cs = chars_of(s);
        if chars_eq_str(cs.as_slice(), "dancer") {
            DanceStyle::Dancer
        } else if chars_eq_str(cs.as_slice(), "bounce") {
            DanceStyle::Bounce
        } else if chars_eq_str(cs.as_slice(), "sway") {
            DanceStyle::Sway
        } else if chars_eq_str(cs.as_slice(), "shrug") {
            DanceStyle::Shrug
        } else {
            DanceStyle::Off
        }
    }

    /// The style after this one in the settings cycle.
    pub open spec fn spec_next(self) -> DanceStyle {
        match self {
            DanceStyle::Off => DanceStyle::Dancer,
            DanceStyle::Dancer => DanceStyle::Bounce,
            DanceStyle::Bounce => DanceStyle::Sway,
            DanceStyle::Sway => DanceStyle::Shrug,
            DanceStyle::Shrug => DanceStyle::Off,
        }
    }

    /// The style after this one in the settings cycle Off, Dancer, Bounce,
    /// Sway, Shrug.
    pub fn next(self) -> (r: DanceStyle)
        ensures
            r == self.spec_next(),
    {
        match self {
            DanceStyle::Off => DanceStyle::Dancer,
            DanceStyle::Dancer => DanceStyle::Bounce,
            DanceStyle::Bounce => DanceStyle::Sway,
            DanceStyle::Sway => DanceStyle::Shrug,
            DanceStyle::Shrug => DanceStyle::Off,
        }
    }
}

impl core::str::FromStr for DanceStyle {
    type Err = ();

    /// Reads a dance style from its name; any other text is `Off`.
    fn from_str(s: &str) -> (r: Result<Self, Self::Err>)
        ensures
            r == Ok::<DanceStyle, ()>(DanceStyle::named(s@)),
    {
        Ok(DanceStyle::from_name(s))
    }
}

impl ThemeKind {
    /// The name that settings store for a theme.
    pub open spec fn name(self) -> Seq<char> {
        match self {
            ThemeKind::Default => "default"@,
            ThemeKind::Light => "light"@,
            ThemeKind::Ocean => "ocean"@,
        }
    }

    /// The name of this theme.
    pub fn as_str(&self) -> (r: &'static str)
        ensures
            r@ == self.name(),
    {
        match self {
            ThemeKind::Default => "default",
            ThemeKind::Light => "light",
            ThemeKind::Ocean => "ocean",
        }
    }

    /// The theme a stored name stands for; unknown names give `Default`.
    pub open spec fn named(s: Seq<char>) -> ThemeKind {
        if s == "light"@ {
            ThemeKind::Light
        } else if s == "ocean"@ {
            ThemeKind::Ocean
        } else {
            ThemeKind::Default
        }
    }

    /// Reads a theme from its name; any other text is `Default`.
    pub fn from_name(s: &str) -> (r: ThemeKind)
        ensures
            r == ThemeKind::named(s@),
    {
        let cs = chars_of(s);
        if chars_eq_str(cs.as_slice(), "light") {
            ThemeKind::Light
        } else if chars_eq_str(cs.as_slice(), "ocean") {
            ThemeKind::Ocean
        } else {
            ThemeKind::Default
        }
    }

    /// The theme after this one in the settings cycle.
    pub open spec fn spec_next(self) -> ThemeKind {
        match self {
            ThemeKind::Default => ThemeKind::Light,
            ThemeKind::Light => ThemeKind::Ocean,
            ThemeKind::Ocean => ThemeKind::Default,
        }
    }

    /// The theme after this one in the settings cycle Default, Light, Ocean.
    pub fn next(self) -> (r: ThemeKind)
        ensures
            r == self.spec_next(),
    {
        match self {
            ThemeKind::Default => ThemeKind::Light,
            ThemeKind::Light => ThemeKind::Ocean,
            ThemeKind::Ocean => ThemeKind::Default,
        }
    }
}

impl core::str::FromStr for ThemeKind {
    type Err = ();

    /// Reads a theme from its name; any other text is `Default`.
    fn from_str(s: &str) -> (r: Result<Self, Self::Err>)
        ensures
            r == Ok::<ThemeKind, ()>(ThemeKind::named(s@)),
    {
        Ok(ThemeKind::from_name(s))
    }
}

/// Reading back the stored name of a theme gives the theme.
pub proof fn law_theme_name_roundtrip(k: ThemeKind)
    ensures
        ThemeKind::named(k.name()) == k,
{
    reveal_strlit("default");
    reveal_strlit("light");
    reveal_strlit("ocean");
    assert("default"@.len() == 7);
    assert("light"@.len() == 5);
    assert("default"@ != "light"@);
    assert("default"@ != "ocean"@);
    assert("ocean"@[0] != "light"@[0]);
    assert("ocean"@ != "light"@);
}

/// Reading back the stored name of a dance style gives the style.
pub proof fn law_dance_name_roundtrip(d: DanceStyle)
    ensures
        DanceStyle::named(d.name()) == d,
{
    reveal_strlit("none");
    reveal_strlit("dancer");
    reveal_strlit("bounce");
    reveal_strlit("sway");
    reveal_strlit("shrug");
    assert("none"@[0] != "sway"@[0]);
    assert("bounce"@[0] != "dancer"@[0]);
    assert("none"@ != "dancer"@);
    assert("none"@ != "bounce"@);
    assert("none"@ != "sway"@);
    assert("none"@ != "shrug"@);
    assert("bounce"@ != "dancer"@);
    assert("sway"@ != "dancer"@);
    assert("sway"@ != "bounce"@);
    assert("shrug"@ != "dancer"@);
    assert("shrug"@ != "bounce"@);
    assert("shrug"@[1] != "sway"@[1]);
    assert("shrug"@ != "sway"@);
}

/// Cycling three times through the themes comes back to the start.
pub proof fn law_theme_cycle(k: ThemeKind)
    ensures
        k.spec_next().spec_next().spec_next() == k,
        k.spec_next() != k,
{
}

/// Cycling five times through the dance styles comes back to the start.
pub proof fn law_dance_cycle(d: DanceStyle)
    ensures
        d.spec_next().spec_next().spec_next().spec_next().spec_next() == d,
        d.spec_next() != d,
{
}

/// The table of themes: Default (blue selection, cyan accents), Light
/// (black accents) and Ocean (deep blue, cyan accents).
pub open spec fn theme_table(kind: ThemeKind) -> Theme {
    match kind {
        ThemeKind::Default => Theme {
            selected_bg: Color::Blue,
            title_bg: Color::DarkGray,
            today: Style::spec_fg_bold(Color::Yellow),
            active_border: Color::Cyan,
            inactive_border: Color::DarkGray,
            weekend: Color::Gray,
            help_key: Style::spec_fg(Color::Cyan),
            dim: Style::spec_fg(Color::DarkGray),
            accent_bold: Style::spec_fg_bold(Color::Cyan),
        },
        ThemeKind::Light => Theme {
            selected_bg: Color::LightBlue,
            title_bg: Color::Gray,
            today: Style::spec_fg_bold(Color::LightRed),
            active_border: Color::Black,
            inactive_border: Color::Gray,
            weekend: Color::Gray,
            help_key: Style::spec_fg(Color::Black),
            dim: Style::spec_fg(Color::Gray),
            accent_bold: Style::spec_fg_bold(Color::Black),
        },
        ThemeKind::Ocean => Theme {
            selected_bg: Color::Rgb(0, 95, 135),
            title_bg: Color::Rgb(0, 43, 77),
            today: Style::spec_fg_bold(Color::Yellow),
            active_border: Color::Cyan,
            inactive_border: Color::Rgb(0, 95, 135),
            weekend: Color::LightBlue,
            help_key: Style::spec_fg(Color::Cyan),
            dim: Style::spec_fg(Color::Rgb(0, 95, 135)),
            accent_bold: Style::spec_fg_bold(Color::Cyan),
        },
    }
}

impl Theme {
    /// The colors and styles of a theme.
    pub fn for_kind(kind: ThemeKind) -> (r: Theme)
        ensures
            r == theme_table(kind),
    {
        match kind {
            ThemeKind::Default => Theme {
                selected_bg: Color::Blue,
                title_bg: Color::DarkGray,
                today: Style::fg_bold(Color::Yellow),
                active_border: Color::Cyan,
                inactive_border: Color::DarkGray,
                weekend: Color::Gray,
                help_key: Style::fg(Color::Cyan),
                dim: Style::fg(Color::DarkGray),
                accent_bold: Style::fg_bold(Color::Cyan),
            },
            ThemeKind::Light => Theme {
                selected_bg: Color::LightBlue,
                title_bg: Color::Gray,
                today: Style::fg_bold(Color::LightRed),
                active_border: Color::Black,
                inactive_border: Color::Gray,
                weekend: Color::Gray,
                help_key: Style::fg(Color::Black),
                dim: Style::fg(Color::Gray),
                accent_bold: Style::fg_bold(Color::Black),
            },
            ThemeKind::Ocean => Theme {
                selected_bg: Color::Rgb(0, 95, 135),
                title_bg: Color::Rgb(0, 43, 77),
                today: Style::fg_bold(Color::Yellow),
                active_border: Color::Cyan,
                inactive_border: Color::Rgb(0, 95, 135),
                weekend: Color::LightBlue,
                help_key: Style::fg(Color::Cyan),
                dim: Style::fg(Color::Rgb(0, 95, 135)),
                accent_bold: Style::fg_bold(Color::Cyan),
            },
        }
    }
}

impl ThemeKind {
    /// The name that the settings panel shows for a theme.
    pub open spec fn display_name(self) -> Seq<char> {
        match self {
            ThemeKind::Default => "Default"@,
            ThemeKind::Light => "Light"@,
            ThemeKind::Ocean => "Ocean"@,
        }
    }

    /// The name that the settings panel shows for this theme.
    pub fn label(&self) -> (r: &'static str)
        ensures
            r@ == self.display_name(),
    {
        match self {
            ThemeKind::Default => "Default",
            ThemeKind::Light => "Light",
            ThemeKind::Ocean => "Ocean",
        }
    }
}

} // verus!
