//! The solid-colour source.

use super::utils::{channel_mean, AstraImage, WallpaperGeneratorError};
use crate::cli::SolidMode;
use crate::configuration::Config;
use crate::random::{random_below, random_byte};
use crate::themes::{is_builtin, ColorTheme, ColorThemes, ThemeSelector, THEME_COUNT};
use vstd::prelude::*;

verus! {

/// The twenty colours that can be asked for by name.
#[derive(Copy, Clone, Debug, PartialEq, Eq, Structural)]
pub enum Color {
    White,
    Black,
    LightGray,
    DarkGray,
    Silver,
    SlateGray,
    NavyBlue,
    SkyBlue,
    SteelBlue,
    Teal,
    ForestGreen,
    Olive,
    Lime,
    Maroon,
    Crimson,
    DeepPurple,
    Indigo,
    Orchid,
    Coral,
    Beige,
}

impl Color {
    /// The red, green and blue of the colour.
    pub open spec fn spec_rgb(self) -> (u8, u8, u8) {
        match self {
            Color::White => (255u8, 255u8, 255u8),
            Color::Black => (0u8, 0u8, 0u8),
            Color::LightGray => (211u8, 211u8, 211u8),
            Color::DarkGray => (64u8, 64u8, 64u8),
            Color::Silver => (192u8, 192u8, 192u8),
            Color::SlateGray => (112u8, 128u8, 144u8),
            Color::NavyBlue => (0u8, 0u8, 128u8),
            Color::SkyBlue => (135u8, 206u8, 235u8),
            Color::SteelBlue => (70u8, 130u8, 180u8),
            Color::Teal => (0u8, 128u8, 128u8),
            Color::ForestGreen => (34u8, 139u8, 34u8),
            Color::Olive => (128u8, 128u8, 0u8),
            Color::Lime => (0u8, 255u8, 0u8),
            Color::Maroon => (128u8, 0u8, 0u8),
            Color::Crimson => (220u8, 20u8, 60u8),
            Color::DeepPurple => (75u8, 0u8, 130u8),
            Color::Indigo => (75u8, 0u8, 130u8),
            Color::Orchid => (218u8, 112u8, 214u8),
            Color::Coral => (255u8, 127u8, 80u8),
            Color::Beige => (245u8, 245u8, 220u8),
        }
    }

    /// The red, green and blue of the colour.
    pub fn rgb(&self) -> (out: (u8, u8, u8))
        ensures
            out == self.spec_rgb(),
    {
        match self {
            Color::White => (255, 255, 255),
            Color::Black => (0, 0, 0),
            Color::LightGray => (211, 211, 211),
            Color::DarkGray => (64, 64, 64),
            Color::Silver => (192, 192, 192),
            Color::SlateGray => (112, 128, 144),
            Color::NavyBlue => (0, 0, 128),
            Color::SkyBlue => (135, 206, 235),
            Color::SteelBlue => (70, 130, 180),
            Color::Teal => (0, 128, 128),
            Color::ForestGreen => (34, 139, 34),
            Color::Olive => (128, 128, 0),
            Color::Lime => (0, 255, 0),
            Color::Maroon => (128, 0, 0),
            Color::Crimson => (220, 20, 60),
            Color::DeepPurple => (75, 0, 130),
            Color::Indigo => (75, 0, 130),
            Color::Orchid => (218, 112, 214),
            Color::Coral => (255, 127, 80),
            Color::Beige => (245, 245, 220),
        }
    }
}

/// The rule by which the solid generator finds its colour.
#[derive(Debug, PartialEq, Eq, Clone, Copy, Structural)]
pub enum SolidSource {
    /// The average colour of a theme.
    ThemeAverage,
    /// One of the colours that the configuration prefers.
    Preferred,
    /// The mode given on the command line.
    Mode,
}

/// The colours of `colors` as modes.
pub open spec fn named_modes(colors: Seq<Color>) -> Seq<SolidMode> {
    Seq::new(colors.len(), |i: int| SolidMode::Color { name: colors[i] })
}

/// The triples of `colors` as modes.
pub open spec fn rgb_modes(colors: Seq<(u8, u8, u8)>) -> Seq<SolidMode> {
    Seq::new(colors.len(), |i: int| SolidMode::Rgb { r: colors[i].0, g: colors[i].1, b: colors[i].2 })
}

/// The modes that the configuration prefers: its named colours, then its
/// triples. An attended run has none.
pub open spec fn spec_preferred_modes(config: Config) -> Seq<SolidMode> {
    if config.respect_user_config && config.spec_solid_gen() is Some {
        let solid = config.spec_solid_gen().unwrap();
        let named = match solid.preferred_default_colors {
            Some(colors) => named_modes(colors@),
            None => Seq::empty(),
        };
        let triples = match solid.preferred_rgb_colors {
            Some(colors) => rgb_modes(colors@),
            None => Seq::empty(),
        };
        named + triples
    } else {
        Seq::empty()
    }
}

/// Whether the configuration asks for a theme's average colour.
pub open spec fn wants_theme_average(config: Config) -> bool {
    config.respect_user_config && config.spec_solid_gen() is Some
        && config.spec_solid_gen().unwrap().respect_color_themes == Some(true)
}

/// The rule that applies: a theme's average where the configuration asks
/// for it, else a preferred colour where there is one, else the mode.
pub open spec fn spec_solid_source(config: Config) -> SolidSource {
    if wants_theme_average(config) {
        SolidSource::ThemeAverage
    } else if spec_preferred_modes(config).len() > 0 {
        SolidSource::Preferred
    } else {
        SolidSource::Mode
    }
}

/// The colour of a mode that names one.
pub open spec fn fixed_color(mode: SolidMode) -> Option<(u8, u8, u8)> {
    match mode {
        SolidMode::Random => None,
        SolidMode::Rgb { r, g, b } => Some((r, g, b)),
        SolidMode::Color { name } => Some(name.spec_rgb()),
    }
}

/// `color` is the triple `rgb`.
pub open spec fn is_rgb(color: [u8; 3], rgb: (u8, u8, u8)) -> bool {
    color[0] == rgb.0 && color[1] == rgb.1 && color[2] == rgb.2
}

/// `color` is the average colour of `theme` in the given mode.
pub open spec fn is_theme_average(color: [u8; 3], theme: ColorTheme, dark_mode: bool) -> bool {
    forall|ch: int|
        0 <= ch < 3 ==> #[trigger] color[ch] as nat == channel_mean(
            theme.spec_get_colors(dark_mode),
            ch,
        )
}

/// `theme` is one that the solid generator may pick: a theme of the user
/// where the configuration holds any, a built-in theme otherwise.
pub open spec fn is_candidate_theme(config: Config, theme: ColorTheme) -> bool {
    match config.spec_user_themes() {
        Some(themes) => exists|i: int|
            0 <= i < themes.0@.len() && (#[trigger] themes.0@[i]).describes(theme),
        None => exists|index: int|
            0 <= index < THEME_COUNT && is_builtin(theme, #[trigger] ColorThemes::at(index)),
    }
}

/// No theme that the solid generator may pick has more anchors in either
/// mode than an image can be wide.
pub open spec fn candidate_themes_fit(config: Config) -> bool {
    forall|theme: ColorTheme, dark_mode: bool| #[trigger]
        is_candidate_theme(config, theme) ==> #[trigger] theme.spec_get_colors(dark_mode).len()
            <= u32::MAX
}

/// `image` is `width` by `height` pixels, all of them `color`.
pub open spec fn is_uniform(image: AstraImage, width: u32, height: u32, color: [u8; 3]) -> bool {
    &&& image.spec_width() == width
    &&& image.spec_height() == height
    &&& image.spec_samples().len() == width as nat * height as nat * 3
    &&& forall|i: int, ch: int|
        0 <= i < width as nat * height as nat && 0 <= ch < 3 ==> #[trigger] image.channel(i, ch)
            == color[ch]
}

/// The rule by which the solid generator finds its colour.
pub fn solid_source(config: &Config) -> (out: SolidSource)
    ensures
        out == spec_solid_source(*config),
{
    let wants_average = config.respect_user_config && match config.solid_gen() {
        Some(solid) => match solid.respect_color_themes() {
            Some(flag) => flag,
            None => false,
        },
        None => false,
    };
    if wants_average {
        SolidSource::ThemeAverage
    } else if preferred_modes(config).len() > 0 {
        SolidSource::Preferred
    } else {
        SolidSource::Mode
    }
}

/// The modes that the configuration prefers.
pub fn preferred_modes(config: &Config) -> (out: Vec<SolidMode>)
    ensures
        out@ == spec_preferred_modes(*config),
{
    let mut out: Vec<SolidMode> = Vec::new();
    if !config.respect_user_config {
        return out;
    }
    match config.solid_gen() {
        None => {},
        Some(solid) => {
            let ghost named = if solid.preferred_default_colors is Some {
                named_modes(solid.preferred_default_colors.unwrap()@)
            } else {
                Seq::empty()
            };
            match &solid.preferred_default_colors {
                None => {},
                Some(colors) => {
                    let mut i: usize = 0;
                    while i < colors.len()
                        invariant
                            i <= colors.len(),
                            out@ == named_modes(colors@).take(i as int),
                        decreases colors.len() - i,
                    {
                        out.push(SolidMode::Color { name: colors[i] });
                        assert(named_modes(colors@).take(i + 1) =~= named_modes(colors@).take(
                            i as int,
                        ).push(SolidMode::Color { name: colors[i as int] }));
                        i = i + 1;
                    }
                    assert(named_modes(colors@).take(colors.len() as int) =~= named_modes(
                        colors@,
                    ));
                },
            }
            assert(out@ =~= named);
            match &solid.preferred_rgb_colors {
                None => {
                    assert(named + Seq::<SolidMode>::empty() =~= named);
                },
                Some(colors) => {
                    let mut i: usize = 0;
                    while i < colors.len()
                        invariant
                            i <= colors.len(),
                            out@ == named + rgb_modes(colors@).take(i as int),
                        decreases colors.len() - i,
                    {
                        let (r, g, b) = colors[i];
                        out.push(SolidMode::Rgb { r, g, b });
                        assert(rgb_modes(colors@).take(i + 1) =~= rgb_modes(colors@).take(
                            i as int,
                        ).push(SolidMode::Rgb { r, g, b }));
                        assert(named + rgb_modes(colors@).take(i + 1) =~= (named + rgb_modes(
                            colors@,
                        ).take(i as int)).push(SolidMode::Rgb { r, g, b }));
                        i = i + 1;
                    }
                    assert(rgb_modes(colors@).take(colors.len() as int) =~= rgb_modes(colors@));
                },
            }
        },
    }
    out
}

/// The colour of `mode`, with `random` for the mode that asks for chance.
pub fn mode_color(mode: &SolidMode, random: (u8, u8, u8)) -> (out: [u8; 3])
    ensures
        is_rgb(
            out,
            match fixed_color(*mode) {
                Some(rgb) => rgb,
                None => random,
            },
        ),
{
    match mode {
        SolidMode::Random => [random.0, random.1, random.2],
        SolidMode::Rgb { r, g, b } => [*r, *g, *b],
        SolidMode::Color { name } => {
            let (r, g, b) = name.rgb();
            [r, g, b]
        },
    }
}

/// The average colour of `theme` as the fill colour.
pub fn theme_fill_color(theme: &ColorTheme, dark_mode: bool) -> (out: Result<
    [u8; 3],
    WallpaperGeneratorError,
>)
    ensures
        out is Ok <==> theme.spec_get_colors(dark_mode).len() <= u32::MAX,
        out matches Ok(color) ==> is_theme_average(color, *theme, dark_mode),
        out matches Err(e) ==> e matches WallpaperGeneratorError::ImageGeneration(m) && m@
            == "Image generation error: "@ + "Failed to create AstraImage"@,
{
    match theme.average_color(dark_mode) {
        Ok(color) => Ok(color),
        Err(e) => Err(WallpaperGeneratorError::ImageGeneration(e.to_string())),
    }
}

/// Picks the theme whose average colour fills the image: one of the user's
/// themes where the configuration holds any, a built-in theme otherwise.
pub fn pick_theme(config: &Config) -> (out: ThemeSelector)
    ensures
        is_candidate_theme(*config, out.selected),
{
    match config.user_themes() {
        Some(themes) => {
            let picked = themes.random();
            picked.to_theme_selector()
        },
        None => ThemeSelector::random(),
    }
}

/// Whether the generator has to know the desktop's mode: only where a
/// theme's average is asked for and the appearance follows the desktop.
pub fn solid_needs_system_mode(config: &Config) -> (out: bool)
    ensures
        out == (spec_solid_source(*config) == SolidSource::ThemeAverage
            && config.spec_appearance().spec_needs_system()),
{
    match solid_source(config) {
        SolidSource::ThemeAverage => config.appearance().needs_system(),
        _ => false,
    }
}

/// The fill colour once chance has spoken: `theme` is the theme that was
/// picked, `pick` the place that was drawn among the preferred modes, and
/// `random` the three bytes that were drawn.
pub fn solid_color_with(
    config: &Config,
    mode: &SolidMode,
    system_dark: bool,
    theme: &ColorTheme,
    pick: usize,
    random: (u8, u8, u8),
) -> (out: Result<[u8; 3], WallpaperGeneratorError>)
    requires
        pick < spec_preferred_modes(*config).len() || spec_preferred_modes(*config).len() == 0,
    ensures
        match spec_solid_source(*config) {
            SolidSource::ThemeAverage => {
                let dark = config.spec_appearance().spec_dark_mode(system_dark);
                &&& out is Ok <==> theme.spec_get_colors(dark).len() <= u32::MAX
                &&& out matches Ok(color) ==> is_theme_average(color, *theme, dark)
                &&& out matches Err(e) ==> e matches WallpaperGeneratorError::ImageGeneration(_)
            },
            SolidSource::Preferred => {
                &&& out matches Ok(color)
                &&& is_rgb(color, fixed_color(spec_preferred_modes(*config)[pick as int]).unwrap())
            },
            SolidSource::Mode => {
                &&& out matches Ok(color)
                &&& is_rgb(
                    color,
                    match fixed_color(*mode) {
                        Some(rgb) => rgb,
                        None => random,
                    },
                )
            },
        },
{
    match solid_source(config) {
        SolidSource::ThemeAverage => {
            let dark = config.appearance().dark_mode(system_dark);
            theme_fill_color(theme, dark)
        },
        SolidSource::Preferred => {
            let modes = preferred_modes(config);
            Ok(mode_color(&modes[pick], random))
        },
        SolidSource::Mode => Ok(mode_color(mode, random)),
    }
}

/// `color` is a colour that the solid generator may come up with.
pub open spec fn is_solid_color(
    config: Config,
    mode: SolidMode,
    system_dark: bool,
    color: [u8; 3],
) -> bool {
    match spec_solid_source(config) {
        SolidSource::ThemeAverage => exists|theme: ColorTheme| #[trigger]
            is_candidate_theme(config, theme) && is_theme_average(
                color,
                theme,
                config.spec_appearance().spec_dark_mode(system_dark),
            ),
        SolidSource::Preferred => exists|pick: int|
            0 <= pick < spec_preferred_modes(config).len() && is_rgb(
                color,
                fixed_color(#[trigger] spec_preferred_modes(config)[pick]).unwrap(),
            ),
        SolidSource::Mode => match fixed_color(mode) {
            Some(rgb) => is_rgb(color, rgb),
            None => true,
        },
    }
}

/// Makes an image of one colour for a display of `width` by `height`
/// pixels. `system_dark` is the desktop's mode; it is read only where
/// `solid_needs_system_mode` says so.
///
/// The colour is the average of a theme where the configuration asks for
/// that, one of the configuration's preferred colours where it has any, and
/// the colour of `mode` otherwise.
pub fn generate_solid_color(
    config: &Config,
    mode: &SolidMode,
    width: u32,
    height: u32,
    system_dark: bool,
) -> (out: Result<AstraImage, WallpaperGeneratorError>)
    ensures
        out matches Ok(image) ==> exists|color: [u8; 3]| #[trigger]
            is_uniform(image, width, height, color) && is_solid_color(
                *config,
                *mode,
                system_dark,
                color,
            ),
        out matches Err(e) ==> e matches WallpaperGeneratorError::ImageGeneration(_),
        width as nat * height as nat * 3 <= usize::MAX && (spec_solid_source(*config)
            == SolidSource::ThemeAverage ==> candidate_themes_fit(*config)) ==> out is Ok,
{
    let color = match solid_source(config) {
        SolidSource::ThemeAverage => {
            let theme = pick_theme(config);
            let dark = config.appearance().dark_mode(system_dark);
            let color = theme_fill_color(theme.selected(), dark)?;
            assert(is_candidate_theme(*config, theme.selected));
            color
        },
        SolidSource::Preferred => {
            let modes = preferred_modes(config);
            let pick = random_below(modes.len());
            let color = mode_color(&modes[pick], (0, 0, 0));
            assert(is_rgb(color, fixed_color(spec_preferred_modes(*config)[pick as int]).unwrap()));
            color
        },
        SolidSource::Mode => {
            let random = match mode {
                SolidMode::Random => (random_byte(), random_byte(), random_byte()),
                _ => (0, 0, 0),
            };
            mode_color(mode, random)
        },
    };
    assert(is_solid_color(*config, *mode, system_dark, color));
    let image = generate_image(width, height, color)?;
    assert(is_uniform(image, width, height, color));
    Ok(image)
}

/// An image of `width` by `height` pixels, all of them `color`.
pub fn generate_image(width: u32, height: u32, color: [u8; 3]) -> (out: Result<
    AstraImage,
    WallpaperGeneratorError,
>)
    ensures
        out is Ok <==> width as nat * height as nat * 3 <= usize::MAX,
        out matches Ok(image) ==> is_uniform(image, width, height, color),
        out matches Err(e) ==> e matches WallpaperGeneratorError::ImageGeneration(m) && m@
            == "image dimensions are too large"@,
{
    AstraImage::from_pixel(width, height, color)
}

} // verus!
