use super::color_theme::ColorTheme;
use super::default_themes::{
    is_builtin, theme_aurora_glow, theme_candy_crush, theme_cyber_sunset, theme_fire_ice,
    theme_galaxy_voyage, theme_mystic_forest, theme_neon_dreams, theme_ocean_breeze,
    theme_retro_pop, theme_sunlit_meadow, ColorThemes, THEME_COUNT,
};
use crate::random::random_below;
use vstd::prelude::*;

verus! {

/// The theme that a generator works with.
#[derive(Debug, PartialEq)]
pub struct ThemeSelector {
    pub selected: ColorTheme,
}

impl ThemeSelector {
    pub fn from_color_theme(theme: ColorTheme) -> (out: ThemeSelector)
        ensures
            out.selected == theme,
    {
        ThemeSelector { selected: theme }
    }

    /// One of the ten built-in themes, each as likely as the others.
    pub fn random() -> (out: ThemeSelector)
        ensures
            exists|index: int|
                0 <= index < THEME_COUNT && is_builtin(out.selected, #[trigger] ColorThemes::at(index)),
    {
        let index = random_below(THEME_COUNT);
        ThemeSelector::new(ColorThemes::from_index(index))
    }

    /// The built-in theme of the given name.
    pub fn new(theme: ColorThemes) -> (out: ThemeSelector)
        ensures
            is_builtin(out.selected, theme),
    {
        match theme {
            ColorThemes::AuroraGlow => ThemeSelector::from_color_theme(theme_aurora_glow()),
            ColorThemes::CandyCrush => ThemeSelector::from_color_theme(theme_candy_crush()),
            ColorThemes::CyberSunset => ThemeSelector::from_color_theme(theme_cyber_sunset()),
            ColorThemes::FireIce => ThemeSelector::from_color_theme(theme_fire_ice()),
            ColorThemes::GalaxyVoyage => ThemeSelector::from_color_theme(theme_galaxy_voyage()),
            ColorThemes::MysticForest => ThemeSelector::from_color_theme(theme_mystic_forest()),
            ColorThemes::NeonDreams => ThemeSelector::from_color_theme(theme_neon_dreams()),
            ColorThemes::OceanBreeze => ThemeSelector::from_color_theme(theme_ocean_breeze()),
            ColorThemes::RetroPop => ThemeSelector::from_color_theme(theme_retro_pop()),
            ColorThemes::SunlitMeadow => ThemeSelector::from_color_theme(theme_sunlit_meadow()),
        }
    }

    pub fn selected(&self) -> (out: &ColorTheme)
        ensures
            *out == self.selected,
    {
        &self.selected
    }
}

} // verus!
