//! Colour themes of the installer's screens.

use crate::text;
use vstd::prelude::*;

verus! {

/// A colour by its red, green and blue parts.
#[derive(Debug, Clone, Copy, PartialEq, Eq, Structural)]
pub struct Rgb {
    pub r: u8,
    pub g: u8,
    pub b: u8,
}

/// The colours of every part of the screens.
#[derive(Debug, Clone, Copy)]
pub struct Theme {
    pub name: &'static str,
    pub accent: Rgb,
    pub accent_dim: Rgb,
    pub bg: Rgb,
    pub surface: Rgb,
    pub text: Rgb,
    pub text_dim: Rgb,
    pub red: Rgb,
    pub green: Rgb,
    pub yellow: Rgb,
}

/// The themes that can be chosen by name.
#[derive(Debug, Clone, Copy, PartialEq, Eq, Structural)]
pub enum ThemeName {
    CatppuccinMocha,
    Nord,
    Dracula,
    TokyoNight,
    Gruvbox,
}

impl Default for ThemeName {
    fn default() -> (r: Self)
        ensures
            r == ThemeName::CatppuccinMocha,
    {
        ThemeName::CatppuccinMocha
    }
}

/// The colour with the given parts.
pub open spec fn rgb(r: u8, g: u8, b: u8) -> Rgb {
    Rgb { r, g, b }
}

/// The theme that a key names. Keys are lowercase and written with
/// hyphens; two themes have shorter names besides their full one.
pub open spec fn theme_named(key: Seq<char>) -> Option<ThemeName> {
    if key == "catppuccin-mocha"@ || key == "catppuccin"@ || key == "mocha"@ {
        Some(ThemeName::CatppuccinMocha)
    } else if key == "nord"@ {
        Some(ThemeName::Nord)
    } else if key == "dracula"@ {
        Some(ThemeName::Dracula)
    } else if key == "tokyo-night"@ || key == "tokyonight"@ {
        Some(ThemeName::TokyoNight)
    } else if key == "gruvbox"@ {
        Some(ThemeName::Gruvbox)
    } else {
        None
    }
}

/// The key that a name typed by the operator stands for: its lowercase
/// form, with hyphens for underscores.
pub open spec fn loose_key(s: Seq<char>) -> Seq<char> {
    text::replaced(text::lowercase_of(s), '_', '-')
}

impl ThemeName {
    /// The name of the theme as it is written in configuration files.
    pub open spec fn label(self) -> Seq<char> {
        match self {
            ThemeName::CatppuccinMocha => "catppuccin-mocha"@,
            ThemeName::Nord => "nord"@,
            ThemeName::Dracula => "dracula"@,
            ThemeName::TokyoNight => "tokyo-night"@,
            ThemeName::Gruvbox => "gruvbox"@,
        }
    }

    /// The colours of the theme.
    pub open spec fn palette(self) -> Theme {
        match self {
            ThemeName::CatppuccinMocha => Theme {
                name: "catppuccin-mocha",
                accent: rgb(137, 180, 250),
                accent_dim: rgb(88, 91, 112),
                bg: rgb(30, 30, 46),
                surface: rgb(49, 50, 68),
                text: rgb(205, 214, 244),
                text_dim: rgb(147, 153, 178),
                red: rgb(243, 139, 168),
                green: rgb(166, 227, 161),
                yellow: rgb(249, 226, 175),
            },
            ThemeName::Nord => Theme {
                name: "nord",
                accent: rgb(136, 192, 208),
                accent_dim: rgb(76, 86, 106),
                bg: rgb(46, 52, 64),
                surface: rgb(59, 66, 82),
                text: rgb(236, 239, 244),
                text_dim: rgb(216, 222, 233),
                red: rgb(191, 97, 106),
                green: rgb(163, 190, 140),
                yellow: rgb(235, 203, 139),
            },
            ThemeName::Dracula => Theme {
                name: "dracula",
                accent: rgb(189, 147, 249),
                accent_dim: rgb(98, 114, 164),
                bg: rgb(40, 42, 54),
                surface: rgb(68, 71, 90),
                text: rgb(248, 248, 242),
                text_dim: rgb(98, 114, 164),
                red: rgb(255, 85, 85),
                green: rgb(80, 250, 123),
                yellow: rgb(241, 250, 140),
            },
            ThemeName::TokyoNight => Theme {
                name: "tokyo-night",
                accent: rgb(122, 162, 247),
                accent_dim: rgb(61, 89, 161),
                bg: rgb(26, 27, 38),
                surface: rgb(36, 40, 59),
                text: rgb(192, 202, 245),
                text_dim: rgb(86, 95, 137),
                red: rgb(247, 118, 142),
                green: rgb(158, 206, 106),
                yellow: rgb(224, 175, 104),
            },
            ThemeName::Gruvbox => Theme {
                name: "gruvbox",
                accent: rgb(131, 165, 152),
                accent_dim: rgb(102, 92, 84),
                bg: rgb(40, 40, 40),
                surface: rgb(60, 56, 54),
                text: rgb(235, 219, 178),
                text_dim: rgb(168, 153, 132),
                red: rgb(251, 73, 52),
                green: rgb(184, 187, 38),
                yellow: rgb(250, 189, 47),
            },
        }
    }

    /// Every theme's name, in the order in which help texts list them.
    pub open spec fn every_label() -> Seq<Seq<char>> {
        seq!["catppuccin-mocha"@, "nord"@, "dracula"@, "tokyo-night"@, "gruvbox"@]
    }

    /// The name of the theme as it is written in configuration files.
    pub fn as_str(&self) -> (s: &'static str)
        ensures
            s@ == self.label(),
    {
        match self {
            ThemeName::CatppuccinMocha => "catppuccin-mocha",
            ThemeName::Nord => "nord",
            ThemeName::Dracula => "dracula",
            ThemeName::TokyoNight => "tokyo-night",
            ThemeName::Gruvbox => "gruvbox",
        }
    }

    /// The theme that a lowercase, hyphenated key names.
    pub fn from_key(key: &str) -> (r: Option<ThemeName>)
        ensures
            r == theme_named(key@),
    {
        if text::same_text(key, "catppuccin-mocha") || text::same_text(key, "catppuccin")
            || text::same_text(key, "mocha") {
            Some(ThemeName::CatppuccinMocha)
        } else if text::same_text(key, "nord") {
            Some(ThemeName::Nord)
        } else if text::same_text(key, "dracula") {
            Some(ThemeName::Dracula)
        } else if text::same_text(key, "tokyo-night") || text::same_text(key, "tokyonight") {
            Some(ThemeName::TokyoNight)
        } else if text::same_text(key, "gruvbox") {
            Some(ThemeName::Gruvbox)
        } else {
            None
        }
    }

    /// The theme that `s` names, whatever its case and whether it is
    /// written with hyphens or underscores.
    pub fn from_str_loose(s: &str) -> (r: Option<ThemeName>)
        ensures
            r == theme_named(loose_key(s@)),
    {
        let lower = text::lowercase(s);
        let key = text::replace_char(lower.as_str(), '_', '-');
        ThemeName::from_key(key.as_str())
    }

    /// Every theme's name, for help texts.
    pub fn all_names() -> (names: Vec<&'static str>)
        ensures
            names@.len() == 5,
            forall|i: int| 0 <= i < 5 ==> (#[trigger] names@[i])@ == ThemeName::every_label()[i],
    {
        let mut names: Vec<&'static str> = Vec::new();
        names.push("catppuccin-mocha");
        names.push("nord");
        names.push("dracula");
        names.push("tokyo-night");
        names.push("gruvbox");
        names
    }

    /// The colours of the theme.
    pub fn to_theme(&self) -> (t: Theme)
        ensures
            t == self.palette(),
    {
        match self {
            ThemeName::CatppuccinMocha => Theme {
                name: "catppuccin-mocha",
                accent: Rgb { r: 137, g: 180, b: 250 },
                accent_dim: Rgb { r: 88, g: 91, b: 112 },
                bg: Rgb { r: 30, g: 30, b: 46 },
                surface: Rgb { r: 49, g: 50, b: 68 },
                text: Rgb { r: 205, g: 214, b: 244 },
                text_dim: Rgb { r: 147, g: 153, b: 178 },
                red: Rgb { r: 243, g: 139, b: 168 },
                green: Rgb { r: 166, g: 227, b: 161 },
                yellow: Rgb { r: 249, g: 226, b: 175 },
            },
            ThemeName::Nord => Theme {
                name: "nord",
                accent: Rgb { r: 136, g: 192, b: 208 },
                accent_dim: Rgb { r: 76, g: 86, b: 106 },
                bg: Rgb { r: 46, g: 52, b: 64 },
                surface: Rgb { r: 59, g: 66, b: 82 },
                text: Rgb { r: 236, g: 239, b: 244 },
                text_dim: Rgb { r: 216, g: 222, b: 233 },
                red: Rgb { r: 191, g: 97, b: 106 },
                green: Rgb { r: 163, g: 190, b: 140 },
                yellow: Rgb { r: 235, g: 203, b: 139 },
            },
            ThemeName::Dracula => Theme {
                name: "dracula",
                accent: Rgb { r: 189, g: 147, b: 249 },
                accent_dim: Rgb { r: 98, g: 114, b: 164 },
                bg: Rgb { r: 40, g: 42, b: 54 },
                surface: Rgb { r: 68, g: 71, b: 90 },
                text: Rgb { r: 248, g: 248, b: 242 },
                text_dim: Rgb { r: 98, g: 114, b: 164 },
                red: Rgb { r: 255, g: 85, b: 85 },
                green: Rgb { r: 80, g: 250, b: 123 },
                yellow: Rgb { r: 241, g: 250, b: 140 },
            },
            ThemeName::TokyoNight => Theme {
                name: "tokyo-night",
                accent: Rgb { r: 122, g: 162, b: 247 },
                accent_dim: Rgb { r: 61, g: 89, b: 161 },
                bg: Rgb { r: 26, g: 27, b: 38 },
                surface: Rgb { r: 36, g: 40, b: 59 },
                text: Rgb { r: 192, g: 202, b: 245 },
                text_dim: Rgb { r: 86, g: 95, b: 137 },
                red: Rgb { r: 247, g: 118, b: 142 },
                green: Rgb { r: 158, g: 206, b: 106 },
                yellow: Rgb { r: 224, g: 175, b: 104 },
            },
            ThemeName::Gruvbox => Theme {
                name: "gruvbox",
                accent: Rgb { r: 131, g: 165, b: 152 },
                accent_dim: Rgb { r: 102, g: 92, b: 84 },
                bg: Rgb { r: 40, g: 40, b: 40 },
                surface: Rgb { r: 60, g: 56, b: 54 },
                text: Rgb { r: 235, g: 219, b: 178 },
                text_dim: Rgb { r: 168, g: 153, b: 132 },
                red: Rgb { r: 251, g: 73, b: 52 },
                green: Rgb { r: 184, g: 187, b: 38 },
                yellow: Rgb { r: 250, g: 189, b: 47 },
            },
        }
    }
}

} // verus!
