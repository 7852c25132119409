//! Colour themes: named lists of anchor colours.

mod color_theme;
mod default_themes;
mod theme_selector;

pub use color_theme::{lemma_average_ignores_order, ColorTheme, ColorThemeError};
pub use default_themes::{
    is_builtin, theme_aurora_glow, theme_candy_crush, theme_cyber_sunset, theme_fire_ice,
    theme_galaxy_voyage, theme_mystic_forest, theme_neon_dreams, theme_ocean_breeze,
    theme_retro_pop, theme_sunlit_meadow, ColorThemes, THEME_COUNT,
};
pub use theme_selector::ThemeSelector;
