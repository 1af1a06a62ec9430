//! Shared visual language for the terminal interface.
//!
//! The active look is one of a set of palettes (`ThemeId`), selectable at
//! runtime through the theme picker and persisted by its slug. The default
//! System palette uses the terminal's default and ANSI colors, so it follows
//! terminal colorscheme changes; the other built-in palettes use fixed RGB
//! colors.

use vstd::prelude::*;

use crate::chars::same_str;

verus! {

/// A terminal color: a named ANSI color, the terminal default, or RGB.
#[derive(Debug, Clone, Copy, PartialEq, Eq, Structural)]
pub enum Color {
    /// The terminal's configured default.
    Reset,
    DarkGray,
    Cyan,
    Blue,
    Green,
    Yellow,
    Red,
    Magenta,
    Rgb(u8, u8, u8),
}

/// A complete set of role-based colors for one built-in theme.
///
/// Every field is a distinct visual role rather than a raw hue, so each
/// theme can assign whichever of its own colors best fills that role.
#[derive(Debug, Clone, Copy, PartialEq, Eq, Structural)]
pub struct Palette {
    /// Full-frame canvas background.
    pub background: Color,
    /// Tab bar and footer background, distinct from the canvas.
    pub chrome: Color,
    /// Dialog and panel background.
    pub surface: Color,
    /// Selected-row background.
    pub selection_bg: Color,
    /// Body text.
    pub foreground: Color,
    /// Secondary/dim text.
    pub muted: Color,
    /// Inactive border color.
    pub border: Color,
    /// Primary accent: focus, headings, keybinding hints, dialog frames.
    pub accent: Color,
    /// Secondary accent: field labels, directories, informational highlights.
    pub secondary: Color,
    pub success: Color,
    pub warning: Color,
    pub error: Color,
    /// Tertiary flourish: symlinks, special files, secondary badges.
    pub special: Color,
}

/// Built-in themes, selectable through the theme picker.
#[derive(Debug, Clone, Copy, PartialEq, Eq, Structural)]
pub enum ThemeId {
    /// Inherit the terminal's default foreground/background and ANSI palette.
    System,
    CatppuccinMocha,
    CatppuccinLatte,
    Dracula,
    Nord,
    GruvboxDark,
    TokyoNight,
    SolarizedDark,
    RosePine,
    Everforest,
    Kanagawa,
}

/// Number of built-in themes.
pub const THEME_COUNT: usize = 11;

/// Position of a theme in picker order.
pub open spec fn theme_pos(id: ThemeId) -> int {
    match id {
        ThemeId::System => 0,
        ThemeId::CatppuccinMocha => 1,
        ThemeId::CatppuccinLatte => 2,
        ThemeId::Dracula => 3,
        ThemeId::Nord => 4,
        ThemeId::GruvboxDark => 5,
        ThemeId::TokyoNight => 6,
        ThemeId::SolarizedDark => 7,
        ThemeId::RosePine => 8,
        ThemeId::Everforest => 9,
        ThemeId::Kanagawa => 10,
    }
}

/// The theme at a position in picker order.
pub open spec fn theme_at(i: int) -> ThemeId {
    if i == 0 { ThemeId::System } else
    if i == 1 { ThemeId::CatppuccinMocha } else
    if i == 2 { ThemeId::CatppuccinLatte } else
    if i == 3 { ThemeId::Dracula } else
    if i == 4 { ThemeId::Nord } else
    if i == 5 { ThemeId::GruvboxDark } else
    if i == 6 { ThemeId::TokyoNight } else
    if i == 7 { ThemeId::SolarizedDark } else
    if i == 8 { ThemeId::RosePine } else
    if i == 9 { ThemeId::Everforest } else { ThemeId::Kanagawa }
}

/// The theme after `id` in picker order, wrapping around.
pub open spec fn theme_next(id: ThemeId) -> ThemeId {
    theme_at((theme_pos(id) + 1) % (THEME_COUNT as int))
}

/// The theme before `id` in picker order, wrapping around.
pub open spec fn theme_prev(id: ThemeId) -> ThemeId {
    theme_at((theme_pos(id) + THEME_COUNT - 1) % (THEME_COUNT as int))
}

/// Display name shown in the theme picker.
pub open spec fn theme_label(id: ThemeId) -> Seq<char> {
    match id {
        ThemeId::System => "System (Terminal)"@,
        ThemeId::CatppuccinMocha => "Catppuccin Mocha"@,
        ThemeId::CatppuccinLatte => "Catppuccin Latte"@,
        ThemeId::Dracula => "Dracula"@,
        ThemeId::Nord => "Nord"@,
        ThemeId::GruvboxDark => "Gruvbox Dark"@,
        ThemeId::TokyoNight => "Tokyo Night"@,
        ThemeId::SolarizedDark => "Solarized Dark"@,
        ThemeId::RosePine => "Rose Pine"@,
        ThemeId::Everforest => "Everforest"@,
        ThemeId::Kanagawa => "Kanagawa"@,
    }
}

/// Stable identifier used for persistence.
pub open spec fn theme_slug(id: ThemeId) -> Seq<char> {
    match id {
        ThemeId::System => "system"@,
        ThemeId::CatppuccinMocha => "catppuccin-mocha"@,
        ThemeId::CatppuccinLatte => "catppuccin-latte"@,
        ThemeId::Dracula => "dracula"@,
        ThemeId::Nord => "nord"@,
        ThemeId::GruvboxDark => "gruvbox-dark"@,
        ThemeId::TokyoNight => "tokyo-night"@,
        ThemeId::SolarizedDark => "solarized-dark"@,
        ThemeId::RosePine => "rose-pine"@,
        ThemeId::Everforest => "everforest"@,
        ThemeId::Kanagawa => "kanagawa"@,
    }
}

/// An RGB color written as `0xRRGGBB`.
pub open spec fn rgb_spec(hex: u32) -> Color {
    Color::Rgb((hex / 65536 % 256) as u8, (hex / 256 % 256) as u8, (hex % 256) as u8)
}

/// The resolved color roles of each theme.
pub open spec fn theme_palette(id: ThemeId) -> Palette {
    match id {
        ThemeId::System => Palette {
            background: Color::Reset,
            chrome: Color::Reset,
            surface: Color::Reset,
            selection_bg: Color::DarkGray,
            foreground: Color::Reset,
            muted: Color::DarkGray,
            border: Color::DarkGray,
            accent: Color::Cyan,
            secondary: Color::Blue,
            success: Color::Green,
            warning: Color::Yellow,
            error: Color::Red,
            special: Color::Magenta,
        },
        ThemeId::CatppuccinMocha => Palette {
            background: rgb_spec(0x1e1e2e),
            chrome: rgb_spec(0x181825),
            surface: rgb_spec(0x313244),
            selection_bg: rgb_spec(0x45475a),
            foreground: rgb_spec(0xcdd6f4),
            muted: rgb_spec(0xa6adc8),
            border: rgb_spec(0x6c7086),
            accent: rgb_spec(0xcba6f7),
            secondary: rgb_spec(0x89b4fa),
            success: rgb_spec(0xa6e3a1),
            warning: rgb_spec(0xf9e2af),
            error: rgb_spec(0xf38ba8),
            special: rgb_spec(0xf5c2e7),
        },
        ThemeId::CatppuccinLatte => Palette {
            background: rgb_spec(0xeff1f5),
            chrome: rgb_spec(0xe6e9ef),
            surface: rgb_spec(0xccd0da),
            selection_bg: rgb_spec(0xbcc0cc),
            foreground: rgb_spec(0x4c4f69),
            muted: rgb_spec(0x6c6f85),
            border: rgb_spec(0x9ca0b0),
            accent: rgb_spec(0x8839ef),
            secondary: rgb_spec(0x1e66f5),
            success: rgb_spec(0x40a02b),
            warning: rgb_spec(0xdf8e1d),
            error: rgb_spec(0xd20f39),
            special: rgb_spec(0xea76cb),
        },
        ThemeId::Dracula => Palette {
            background: rgb_spec(0x282a36),
            chrome: rgb_spec(0x21222c),
            surface: rgb_spec(0x343746),
            selection_bg: rgb_spec(0x44475a),
            foreground: rgb_spec(0xf8f8f2),
            muted: rgb_spec(0x6272a4),
            border: rgb_spec(0x565971),
            accent: rgb_spec(0xbd93f9),
            secondary: rgb_spec(0x8be9fd),
            success: rgb_spec(0x50fa7b),
            warning: rgb_spec(0xf1fa8c),
            error: rgb_spec(0xff5555),
            special: rgb_spec(0xff79c6),
        },
        ThemeId::Nord => Palette {
            background: rgb_spec(0x2e3440),
            chrome: rgb_spec(0x272c36),
            surface: rgb_spec(0x3b4252),
            selection_bg: rgb_spec(0x434c5e),
            foreground: rgb_spec(0xe5e9f0),
            muted: rgb_spec(0x8792a8),
            border: rgb_spec(0x4c566a),
            accent: rgb_spec(0x88c0d0),
            secondary: rgb_spec(0x81a1c1),
            success: rgb_spec(0xa3be8c),
            warning: rgb_spec(0xebcb8b),
            error: rgb_spec(0xbf616a),
            special: rgb_spec(0xb48ead),
        },
        ThemeId::GruvboxDark => Palette {
            background: rgb_spec(0x282828),
            chrome: rgb_spec(0x1d2021),
            surface: rgb_spec(0x3c3836),
            selection_bg: rgb_spec(0x504945),
            foreground: rgb_spec(0xebdbb2),
            muted: rgb_spec(0xa89984),
            border: rgb_spec(0x7c6f64),
            accent: rgb_spec(0xfe8019),
            secondary: rgb_spec(0x83a598),
            success: rgb_spec(0xb8bb26),
            warning: rgb_spec(0xfabd2f),
            error: rgb_spec(0xfb4934),
            special: rgb_spec(0xd3869b),
        },
        ThemeId::TokyoNight => Palette {
            background: rgb_spec(0x24283b),
            chrome: rgb_spec(0x1f2335),
            surface: rgb_spec(0x292e42),
            selection_bg: rgb_spec(0x364a82),
            foreground: rgb_spec(0xc0caf5),
            muted: rgb_spec(0x737aa2),
            border: rgb_spec(0x414868),
            accent: rgb_spec(0x7aa2f7),
            secondary: rgb_spec(0x7dcfff),
            success: rgb_spec(0x9ece6a),
            warning: rgb_spec(0xe0af68),
            error: rgb_spec(0xf7768e),
            special: rgb_spec(0xbb9af7),
        },
        ThemeId::SolarizedDark => Palette {
            background: rgb_spec(0x002b36),
            chrome: rgb_spec(0x00212b),
            surface: rgb_spec(0x073642),
            selection_bg: rgb_spec(0x0a4552),
            foreground: rgb_spec(0x93a1a1),
            muted: rgb_spec(0x586e75),
            border: rgb_spec(0x586e75),
            accent: rgb_spec(0x268bd2),
            secondary: rgb_spec(0x2aa198),
            success: rgb_spec(0x859900),
            warning: rgb_spec(0xb58900),
            error: rgb_spec(0xdc322f),
            special: rgb_spec(0xd33682),
        },
        ThemeId::RosePine => Palette {
            background: rgb_spec(0x191724),
            chrome: rgb_spec(0x1f1d2e),
            surface: rgb_spec(0x26233a),
            selection_bg: rgb_spec(0x403d52),
            foreground: rgb_spec(0xe0def4),
            muted: rgb_spec(0x908caa),
            border: rgb_spec(0x6e6a86),
            accent: rgb_spec(0xc4a7e7),
            secondary: rgb_spec(0x9ccfd8),
            success: rgb_spec(0x31748f),
            warning: rgb_spec(0xf6c177),
            error: rgb_spec(0xeb6f92),
            special: rgb_spec(0xebbcba),
        },
        ThemeId::Everforest => Palette {
            background: rgb_spec(0x2d353b),
            chrome: rgb_spec(0x272e33),
            surface: rgb_spec(0x3d484d),
            selection_bg: rgb_spec(0x475258),
            foreground: rgb_spec(0xd3c6aa),
            muted: rgb_spec(0x9da9a0),
            border: rgb_spec(0x7a8478),
            accent: rgb_spec(0xa7c080),
            secondary: rgb_spec(0x7fbbb3),
            success: rgb_spec(0xa7c080),
            warning: rgb_spec(0xdbbc7f),
            error: rgb_spec(0xe67e80),
            special: rgb_spec(0xd699b6),
        },
        ThemeId::Kanagawa => Palette {
            background: rgb_spec(0x1f1f28),
            chrome: rgb_spec(0x16161d),
            surface: rgb_spec(0x2a2a37),
            selection_bg: rgb_spec(0x363646),
            foreground: rgb_spec(0xdcd7ba),
            muted: rgb_spec(0x9a9aad),
            border: rgb_spec(0x727169),
            accent: rgb_spec(0x957fb8),
            secondary: rgb_spec(0x7fb4ca),
            success: rgb_spec(0x98bb6c),
            warning: rgb_spec(0xe6c384),
            error: rgb_spec(0xc34043),
            special: rgb_spec(0xd27e99),
        },
    }
}

/// An RGB color from its `0xRRGGBB` writing.
pub fn rgb(hex: u32) -> (c: Color)
    ensures
        c == rgb_spec(hex),
{
    let r = ((hex >> 16) & 0xFF) as u8;
    let g = ((hex >> 8) & 0xFF) as u8;
    let b = (hex & 0xFF) as u8;
    assert((hex >> 16) & 0xFF == hex / 65536 % 256) by (bit_vector);
    assert((hex >> 8) & 0xFF == hex / 256 % 256) by (bit_vector);
    assert(hex & 0xFF == hex % 256) by (bit_vector);
    Color::Rgb(r, g, b)
}

impl ThemeId {
    /// All themes, in the order the picker lists them.
    pub fn all() -> (v: Vec<ThemeId>)
        ensures
            v.len() == THEME_COUNT,
            forall|i: int| 0 <= i < v.len() ==> v@[i] == theme_at(i),
    {
        let mut v: Vec<ThemeId> = Vec::new();
        v.push(ThemeId::System);
        v.push(ThemeId::CatppuccinMocha);
        v.push(ThemeId::CatppuccinLatte);
        v.push(ThemeId::Dracula);
        v.push(ThemeId::Nord);
        v.push(ThemeId::GruvboxDark);
        v.push(ThemeId::TokyoNight);
        v.push(ThemeId::SolarizedDark);
        v.push(ThemeId::RosePine);
        v.push(ThemeId::Everforest);
        v.push(ThemeId::Kanagawa);
        v
    }

    /// The theme at position `i` in picker order; positions past the end
    /// give the default.
    pub fn from_index(i: usize) -> (id: ThemeId)
        ensures
            i < THEME_COUNT ==> id == theme_at(i as int),
            i >= THEME_COUNT ==> id == ThemeId::System,
    {
        match i {
            0 => ThemeId::System,
            1 => ThemeId::CatppuccinMocha,
            2 => ThemeId::CatppuccinLatte,
            3 => ThemeId::Dracula,
            4 => ThemeId::Nord,
            5 => ThemeId::GruvboxDark,
            6 => ThemeId::TokyoNight,
            7 => ThemeId::SolarizedDark,
            8 => ThemeId::RosePine,
            9 => ThemeId::Everforest,
            10 => ThemeId::Kanagawa,
            _ => ThemeId::System,
        }
    }

    /// Display name shown in the theme picker.
    pub fn label(self) -> (s: &'static str)
        ensures
            s@ == theme_label(self),
    {
        match self {
            ThemeId::System => "System (Terminal)",
            ThemeId::CatppuccinMocha => "Catppuccin Mocha",
            ThemeId::CatppuccinLatte => "Catppuccin Latte",
            ThemeId::Dracula => "Dracula",
            ThemeId::Nord => "Nord",
            ThemeId::GruvboxDark => "Gruvbox Dark",
            ThemeId::TokyoNight => "Tokyo Night",
            ThemeId::SolarizedDark => "Solarized Dark",
            ThemeId::RosePine => "Rose Pine",
            ThemeId::Everforest => "Everforest",
            ThemeId::Kanagawa => "Kanagawa",
        }
    }

    /// Stable identifier used for persistence.
    pub fn slug(self) -> (s: &'static str)
        ensures
            s@ == theme_slug(self),
    {
        match self {
            ThemeId::System => "system",
            ThemeId::CatppuccinMocha => "catppuccin-mocha",
            ThemeId::CatppuccinLatte => "catppuccin-latte",
            ThemeId::Dracula => "dracula",
            ThemeId::Nord => "nord",
            ThemeId::GruvboxDark => "gruvbox-dark",
            ThemeId::TokyoNight => "tokyo-night",
            ThemeId::SolarizedDark => "solarized-dark",
            ThemeId::RosePine => "rose-pine",
            ThemeId::Everforest => "everforest",
            ThemeId::Kanagawa => "kanagawa",
        }
    }

    /// Resolve a persisted slug back to a theme: the first theme, in picker
    /// order, whose slug it is.
    pub fn from_slug(slug: &str) -> (r: Option<Self>)
        ensures
            match r {
                Some(id) => theme_slug(id) == slug@ && forall|k: int| 0 <= k < theme_pos(id) ==> theme_slug(
                    #[trigger] theme_at(k),
                ) != slug@,
                None => forall|k: int| 0 <= k < THEME_COUNT ==> theme_slug(#[trigger] theme_at(k)) != slug@,
            },
    {
        let all = ThemeId::all();
        let mut i: usize = 0;
        while i < all.len()
            invariant
                all.len() == THEME_COUNT,
                forall|k: int| 0 <= k < all.len() ==> all@[k] == theme_at(k),
                i <= all.len(),
                forall|k: int| 0 <= k < i ==> theme_slug(#[trigger] theme_at(k)) != slug@,
            decreases all.len() - i,
        {
            let id = all[i];
            if same_str(id.slug(), slug) {
                proof {
                    lemma_theme_pos_at(i as int);
                }
                return Some(id);
            }
            i = i + 1;
        }
        None
    }

    /// Position of this theme in picker order.
    pub fn index(self) -> (i: usize)
        ensures
            i == theme_pos(self),
            i < THEME_COUNT,
    {
        match self {
            ThemeId::System => 0,
            ThemeId::CatppuccinMocha => 1,
            ThemeId::CatppuccinLatte => 2,
            ThemeId::Dracula => 3,
            ThemeId::Nord => 4,
            ThemeId::GruvboxDark => 5,
            ThemeId::TokyoNight => 6,
            ThemeId::SolarizedDark => 7,
            ThemeId::RosePine => 8,
            ThemeId::Everforest => 9,
            ThemeId::Kanagawa => 10,
        }
    }

    /// The next theme in picker order, wrapping around.
    pub fn next(self) -> (id: Self)
        ensures
            id == theme_at((theme_pos(self) + 1) % (THEME_COUNT as int)),
    {
        ThemeId::from_index((self.index() + 1) % THEME_COUNT)
    }

    /// The previous theme in picker order, wrapping around.
    pub fn prev(self) -> (id: Self)
        ensures
            id == theme_at((theme_pos(self) + THEME_COUNT - 1) % (THEME_COUNT as int)),
    {
        ThemeId::from_index((self.index() + THEME_COUNT - 1) % THEME_COUNT)
    }

    /// The resolved color roles for this theme.
    pub fn palette(self) -> (p: Palette)
        ensures
            p == theme_palette(self),
    {
        match self {
            ThemeId::System => Palette {
                background: Color::Reset,
                chrome: Color::Reset,
                surface: Color::Reset,
                selection_bg: Color::DarkGray,
                foreground: Color::Reset,
                muted: Color::DarkGray,
                border: Color::DarkGray,
                accent: Color::Cyan,
                secondary: Color::Blue,
                success: Color::Green,
                warning: Color::Yellow,
                error: Color::Red,
                special: Color::Magenta,
            },
            ThemeId::CatppuccinMocha => Palette {
                background: rgb(0x1e1e2e),
                chrome: rgb(0x181825),
                surface: rgb(0x313244),
                selection_bg: rgb(0x45475a),
                foreground: rgb(0xcdd6f4),
                muted: rgb(0xa6adc8),
                border: rgb(0x6c7086),
                accent: rgb(0xcba6f7),
                secondary: rgb(0x89b4fa),
                success: rgb(0xa6e3a1),
                warning: rgb(0xf9e2af),
                error: rgb(0xf38ba8),
                special: rgb(0xf5c2e7),
            },
            ThemeId::CatppuccinLatte => Palette {
                background: rgb(0xeff1f5),
                chrome: rgb(0xe6e9ef),
                surface: rgb(0xccd0da),
                selection_bg: rgb(0xbcc0cc),
                foreground: rgb(0x4c4f69),
                muted: rgb(0x6c6f85),
                border: rgb(0x9ca0b0),
                accent: rgb(0x8839ef),
                secondary: rgb(0x1e66f5),
                success: rgb(0x40a02b),
                warning: rgb(0xdf8e1d),
                error: rgb(0xd20f39),
                special: rgb(0xea76cb),
            },
            ThemeId::Dracula => Palette {
                background: rgb(0x282a36),
                chrome: rgb(0x21222c),
                surface: rgb(0x343746),
                selection_bg: rgb(0x44475a),
                foreground: rgb(0xf8f8f2),
                muted: rgb(0x6272a4),
                border: rgb(0x565971),
                accent: rgb(0xbd93f9),
                secondary: rgb(0x8be9fd),
                success: rgb(0x50fa7b),
                warning: rgb(0xf1fa8c),
                error: rgb(0xff5555),
                special: rgb(0xff79c6),
            },
            ThemeId::Nord => Palette {
                background: rgb(0x2e3440),
                chrome: rgb(0x272c36),
                surface: rgb(0x3b4252),
                selection_bg: rgb(0x434c5e),
                foreground: rgb(0xe5e9f0),
                muted: rgb(0x8792a8),
                border: rgb(0x4c566a),
                accent: rgb(0x88c0d0),
                secondary: rgb(0x81a1c1),
                success: rgb(0xa3be8c),
                warning: rgb(0xebcb8b),
                error: rgb(0xbf616a),
                special: rgb(0xb48ead),
            },
            ThemeId::GruvboxDark => Palette {
                background: rgb(0x282828),
                chrome: rgb(0x1d2021),
                surface: rgb(0x3c3836),
                selection_bg: rgb(0x504945),
                foreground: rgb(0xebdbb2),
                muted: rgb(0xa89984),
                border: rgb(0x7c6f64),
                accent: rgb(0xfe8019),
                secondary: rgb(0x83a598),
                success: rgb(0xb8bb26),
                warning: rgb(0xfabd2f),
                error: rgb(0xfb4934),
                special: rgb(0xd3869b),
            },
            ThemeId::TokyoNight => Palette {
                background: rgb(0x24283b),
                chrome: rgb(0x1f2335),
                surface: rgb(0x292e42),
                selection_bg: rgb(0x364a82),
                foreground: rgb(0xc0caf5),
                muted: rgb(0x737aa2),
                border: rgb(0x414868),
                accent: rgb(0x7aa2f7),
                secondary: rgb(0x7dcfff),
                success: rgb(0x9ece6a),
                warning: rgb(0xe0af68),
                error: rgb(0xf7768e),
                special: rgb(0xbb9af7),
            },
            ThemeId::SolarizedDark => Palette {
                background: rgb(0x002b36),
                chrome: rgb(0x00212b),
                surface: rgb(0x073642),
                selection_bg: rgb(0x0a4552),
                foreground: rgb(0x93a1a1),
                muted: rgb(0x586e75),
                border: rgb(0x586e75),
                accent: rgb(0x268bd2),
                secondary: rgb(0x2aa198),
                success: rgb(0x859900),
                warning: rgb(0xb58900),
                error: rgb(0xdc322f),
                special: rgb(0xd33682),
            },
            ThemeId::RosePine => Palette {
                background: rgb(0x191724),
                chrome: rgb(0x1f1d2e),
                surface: rgb(0x26233a),
                selection_bg: rgb(0x403d52),
                foreground: rgb(0xe0def4),
                muted: rgb(0x908caa),
                border: rgb(0x6e6a86),
                accent: rgb(0xc4a7e7),
                secondary: rgb(0x9ccfd8),
                success: rgb(0x31748f),
                warning: rgb(0xf6c177),
                error: rgb(0xeb6f92),
                special: rgb(0xebbcba),
            },
            ThemeId::Everforest => Palette {
                background: rgb(0x2d353b),
                chrome: rgb(0x272e33),
                surface: rgb(0x3d484d),
                selection_bg: rgb(0x475258),
                foreground: rgb(0xd3c6aa),
                muted: rgb(0x9da9a0),
                border: rgb(0x7a8478),
                accent: rgb(0xa7c080),
                secondary: rgb(0x7fbbb3),
                success: rgb(0xa7c080),
                warning: rgb(0xdbbc7f),
                error: rgb(0xe67e80),
                special: rgb(0xd699b6),
            },
            ThemeId::Kanagawa => Palette {
                background: rgb(0x1f1f28),
                chrome: rgb(0x16161d),
                surface: rgb(0x2a2a37),
                selection_bg: rgb(0x363646),
                foreground: rgb(0xdcd7ba),
                muted: rgb(0x9a9aad),
                border: rgb(0x727169),
                accent: rgb(0x957fb8),
                secondary: rgb(0x7fb4ca),
                success: rgb(0x98bb6c),
                warning: rgb(0xe6c384),
                error: rgb(0xc34043),
                special: rgb(0xd27e99),
            },
        }
    }
}

pub proof fn lemma_theme_pos_at(i: int)
    requires
        0 <= i < THEME_COUNT,
    ensures
        theme_pos(theme_at(i)) == i,
{
}

pub proof fn lemma_theme_at_pos(id: ThemeId)
    ensures
        theme_at(theme_pos(id)) == id,
        0 <= theme_pos(id),
        theme_pos(id) < THEME_COUNT,
{
}

/// No two themes share a slug, so a persisted slug gives back the theme it
/// was written for.
pub proof fn lemma_slugs_distinct(a: ThemeId, b: ThemeId)
    ensures
        theme_slug(a) == theme_slug(b) ==> a == b,
{
    reveal_strlit("system");
    reveal_strlit("catppuccin-mocha");
    reveal_strlit("catppuccin-latte");
    reveal_strlit("dracula");
    reveal_strlit("nord");
    reveal_strlit("gruvbox-dark");
    reveal_strlit("tokyo-night");
    reveal_strlit("solarized-dark");
    reveal_strlit("rose-pine");
    reveal_strlit("everforest");
    reveal_strlit("kanagawa");
    if theme_slug(a) == theme_slug(b) {
        assert(theme_slug(a).len() == theme_slug(b).len());
        assert(theme_slug(a)[11] == theme_slug(b)[11]);
    }
}

/// Stepping forward then back, or back then forward, returns to the
/// theme one started from.
pub proof fn lemma_next_prev_inverse(id: ThemeId)
    ensures
        theme_at((theme_pos(theme_at((theme_pos(id) + 1) % 11)) + 10) % 11) == id,
        theme_at((theme_pos(theme_at((theme_pos(id) + 10) % 11)) + 1) % 11) == id,
{
}

/// Walking forward through all themes visits each once and comes back.
pub proof fn lemma_next_cycles(id: ThemeId, n: nat)
    requires
        0 < n <= THEME_COUNT,
    ensures
        theme_at((theme_pos(id) + n) % 11) == id <==> n == THEME_COUNT,
{
}

/// `id` after `n` steps of `next`.
pub open spec fn next_steps(id: ThemeId, n: nat) -> ThemeId
    decreases n,
{
    if n == 0 {
        id
    } else {
        theme_next(next_steps(id, (n - 1) as nat))
    }
}

/// `id` after `n` steps of `prev`.
pub open spec fn prev_steps(id: ThemeId, n: nat) -> ThemeId
    decreases n,
{
    if n == 0 {
        id
    } else {
        theme_prev(prev_steps(id, (n - 1) as nat))
    }
}

proof fn lemma_next_steps_pos(id: ThemeId, n: nat)
    ensures
        theme_pos(next_steps(id, n)) == (theme_pos(id) + n) % 11,
        theme_pos(prev_steps(id, n)) == (theme_pos(id) + 10 * n) % 11,
    decreases n,
{
    lemma_theme_at_pos(id);
    if n == 0 {
        vstd::arithmetic::div_mod::lemma_small_mod(theme_pos(id) as nat, 11);
    } else {
        lemma_next_steps_pos(id, (n - 1) as nat);
        let a = next_steps(id, (n - 1) as nat);
        let b = prev_steps(id, (n - 1) as nat);
        lemma_theme_at_pos(a);
        lemma_theme_at_pos(b);
        lemma_theme_pos_at((theme_pos(a) + 1) % 11);
        lemma_theme_pos_at((theme_pos(b) + 10) % 11);
        vstd::arithmetic::div_mod::lemma_small_mod(1, 11);
        vstd::arithmetic::div_mod::lemma_small_mod(10, 11);
        vstd::arithmetic::div_mod::lemma_add_mod_noop(theme_pos(id) + n - 1, 1, 11);
        vstd::arithmetic::div_mod::lemma_add_mod_noop(theme_pos(id) + 10 * (n - 1), 10, 11);
    }
}

/// Eleven steps of `next`, or of `prev`, come back to the theme they
/// started from, and no fewer steps do.
pub proof fn lemma_eleven_steps_return(id: ThemeId, n: nat)
    requires
        0 < n <= THEME_COUNT,
    ensures
        next_steps(id, n) == id <==> n == THEME_COUNT,
        prev_steps(id, n) == id <==> n == THEME_COUNT,
{
    lemma_next_steps_pos(id, n);
    lemma_theme_at_pos(id);
    lemma_theme_at_pos(next_steps(id, n));
    lemma_theme_at_pos(prev_steps(id, n));
    let p = theme_pos(id);
    if p + n < 11 {
        vstd::arithmetic::div_mod::lemma_small_mod((p + n) as nat, 11);
    } else {
        vstd::arithmetic::div_mod::lemma_mod_add_multiples_vanish(p + n - 11, 11);
        vstd::arithmetic::div_mod::lemma_small_mod((p + n - 11) as nat, 11);
    }
    vstd::arithmetic::div_mod::lemma_mod_multiples_vanish(n as int, p - n, 11);
    assert(11 * n + (p - n) == p + 10 * n);
    if p - n >= 0 {
        vstd::arithmetic::div_mod::lemma_small_mod((p - n) as nat, 11);
    } else {
        vstd::arithmetic::div_mod::lemma_mod_add_multiples_vanish(p - n, 11);
        vstd::arithmetic::div_mod::lemma_small_mod((11 + p - n) as nat, 11);
    }
}


} // verus!
