use nixos_installer::theme::{Rgb, ThemeName};

#[test]
fn themes_are_found_by_loose_names() {
    assert_eq!(ThemeName::from_str_loose("nord"), Some(ThemeName::Nord));
    assert_eq!(ThemeName::from_str_loose("NORD"), Some(ThemeName::Nord));
    assert_eq!(ThemeName::from_str_loose("Tokyo_Night"), Some(ThemeName::TokyoNight));
    assert_eq!(ThemeName::from_str_loose("tokyonight"), Some(ThemeName::TokyoNight));
    assert_eq!(ThemeName::from_str_loose("catppuccin"), Some(ThemeName::CatppuccinMocha));
    assert_eq!(ThemeName::from_str_loose("Mocha"), Some(ThemeName::CatppuccinMocha));
    assert_eq!(ThemeName::from_str_loose("CATPPUCCIN_MOCHA"), Some(ThemeName::CatppuccinMocha));
    assert_eq!(ThemeName::from_str_loose("Dracula"), Some(ThemeName::Dracula));
    assert_eq!(ThemeName::from_str_loose("gruvbox"), Some(ThemeName::Gruvbox));
    assert_eq!(ThemeName::from_str_loose("solarized"), None);
    assert_eq!(ThemeName::from_str_loose(""), None);
    assert_eq!(ThemeName::from_str_loose(" nord"), None);
    assert_eq!(ThemeName::from_str_loose("tokyo night"), None);
}

#[test]
fn keys_are_matched_exactly() {
    assert_eq!(ThemeName::from_key("nord"), Some(ThemeName::Nord));
    assert_eq!(ThemeName::from_key("NORD"), None);
    assert_eq!(ThemeName::from_key("tokyo_night"), None);
    assert_eq!(ThemeName::from_key("tokyo-night"), Some(ThemeName::TokyoNight));
}

#[test]
fn every_theme_is_listed_and_found_by_its_name() {
    let names = ThemeName::all_names();
    assert_eq!(names, vec!["catppuccin-mocha", "nord", "dracula", "tokyo-night", "gruvbox"]);
    let themes = [
        ThemeName::CatppuccinMocha,
        ThemeName::Nord,
        ThemeName::Dracula,
        ThemeName::TokyoNight,
        ThemeName::Gruvbox,
    ];
    for (name, theme) in names.iter().zip(themes.iter()) {
        assert_eq!(theme.as_str(), *name);
        assert_eq!(ThemeName::from_str_loose(name), Some(*theme));
        assert_eq!(theme.to_theme().name, *name);
    }
    assert_eq!(ThemeName::default(), ThemeName::CatppuccinMocha);
}

#[test]
fn themes_have_their_colours() {
    let t = ThemeName::CatppuccinMocha.to_theme();
    assert_eq!(t.accent, Rgb { r: 137, g: 180, b: 250 });
    assert_eq!(t.bg, Rgb { r: 30, g: 30, b: 46 });
    assert_eq!(t.yellow, Rgb { r: 249, g: 226, b: 175 });
    let t = ThemeName::Nord.to_theme();
    assert_eq!(t.accent_dim, Rgb { r: 76, g: 86, b: 106 });
    assert_eq!(t.text_dim, Rgb { r: 216, g: 222, b: 233 });
    let t = ThemeName::Dracula.to_theme();
    assert_eq!(t.red, Rgb { r: 255, g: 85, b: 85 });
    assert_eq!(t.text_dim, t.accent_dim);
    let t = ThemeName::TokyoNight.to_theme();
    assert_eq!(t.surface, Rgb { r: 36, g: 40, b: 59 });
    assert_eq!(t.green, Rgb { r: 158, g: 206, b: 106 });
    let t = ThemeName::Gruvbox.to_theme();
    assert_eq!(t.text, Rgb { r: 235, g: 219, b: 178 });
    assert_eq!(t.bg, Rgb { r: 40, g: 40, b: 40 });
}
