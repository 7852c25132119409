use astra::cli::{Generator, SolidMode};
use astra::configuration::generators::{Appearance, JuliaConfig, SolidConfig, SpotlightConfig};
use astra::configuration::{
    Config, ConfigError, Frequency, Generators, ThemeConfig, ThemeConfigs, UserConfig,
};
use astra::orchestrator::{choose_generator, generator_candidates, unattended};
use astra::wallpaper_generators::{
    build_url, check_download_urls, choose_spotlight_image, compare_image_to_user_theme_averages,
    compute_user_theme_averages, decode_image, downloads_wanted, generate_image,
    generate_solid_color, mode_color, pick_theme, preferred_modes, select_spotlight_image,
    solid_color_with, solid_needs_system_mode, solid_source, spotlight_params, APIParams,
    AstraImage, Color, SolidSource, WallpaperGeneratorError,
};
use image::{ImageFormat, Rgb, RgbImage};
use std::io::Cursor;

fn attended(user: UserConfig) -> Config {
    Config::new(false, Ok(user))
}

fn followed(user: UserConfig) -> Config {
    unattended(Config::new(false, Ok(user)))
}

fn blue_theme() -> ThemeConfigs {
    ThemeConfigs(vec![ThemeConfig {
        name: "blue".to_string(),
        colors: vec![(0, 0, 255)],
        dark_mode_colors: None,
    }])
}

fn png(width: u32, height: u32, color: [u8; 3]) -> Vec<u8> {
    let image = RgbImage::from_pixel(width, height, Rgb(color));
    let mut bytes = Cursor::new(Vec::new());
    image.write_to(&mut bytes, ImageFormat::Png).unwrap();
    bytes.into_inner()
}

#[test]
fn solid_rgb_fills_the_display() {
    let config = attended(UserConfig::default());
    let mode = SolidMode::Rgb { r: 0, g: 128, b: 255 };
    let image = generate_solid_color(&config, &mode, 1920, 1080, false).unwrap();
    assert_eq!((image.width(), image.height()), (1920, 1080));
    assert_eq!(image.as_raw().len(), 1920 * 1080 * 3);
    assert!(image.as_raw().chunks(3).all(|p| p == [0, 128, 255]));
}

#[test]
fn solid_named_colours() {
    let config = attended(UserConfig::default());
    let image =
        generate_solid_color(&config, &SolidMode::Color { name: Color::Coral }, 2, 2, true).unwrap();
    assert!(image.as_raw().chunks(3).all(|p| p == [255, 127, 80]));
    let table = [
        (Color::White, (255, 255, 255)),
        (Color::Black, (0, 0, 0)),
        (Color::LightGray, (211, 211, 211)),
        (Color::DarkGray, (64, 64, 64)),
        (Color::Silver, (192, 192, 192)),
        (Color::SlateGray, (112, 128, 144)),
        (Color::NavyBlue, (0, 0, 128)),
        (Color::SkyBlue, (135, 206, 235)),
        (Color::SteelBlue, (70, 130, 180)),
        (Color::Teal, (0, 128, 128)),
        (Color::ForestGreen, (34, 139, 34)),
        (Color::Olive, (128, 128, 0)),
        (Color::Lime, (0, 255, 0)),
        (Color::Maroon, (128, 0, 0)),
        (Color::Crimson, (220, 20, 60)),
        (Color::DeepPurple, (75, 0, 130)),
        (Color::Indigo, (75, 0, 130)),
        (Color::Orchid, (218, 112, 214)),
        (Color::Coral, (255, 127, 80)),
        (Color::Beige, (245, 245, 220)),
    ];
    for (name, rgb) in table {
        assert_eq!(name.rgb(), rgb);
    }
    assert_eq!(mode_color(&SolidMode::Random, (7, 8, 9)), [7, 8, 9]);
    assert_eq!(mode_color(&SolidMode::Rgb { r: 1, g: 2, b: 3 }, (7, 8, 9)), [1, 2, 3]);
}

#[test]
fn solid_random_is_uniform() {
    let config = attended(UserConfig::default());
    let image = generate_solid_color(&config, &SolidMode::Random, 4, 3, false).unwrap();
    let first = image.as_raw()[0..3].to_vec();
    assert!(image.as_raw().chunks(3).all(|p| p == first));
    assert_eq!(generate_image(0, 5, [1, 2, 3]).unwrap().as_raw().len(), 0);
}

#[test]
fn solid_follows_the_configuration_only_when_unattended() {
    let user = || UserConfig {
        solid_gen: Some(SolidConfig {
            preferred_default_colors: Some(vec![Color::Lime]),
            preferred_rgb_colors: Some(vec![(1, 2, 3)]),
            respect_color_themes: None,
        }),
        ..UserConfig::default()
    };
    let mode = SolidMode::Rgb { r: 9, g: 9, b: 9 };
    assert_eq!(solid_source(&attended(user())), SolidSource::Mode);
    assert!(preferred_modes(&attended(user())).is_empty());
    let config = followed(user());
    assert_eq!(solid_source(&config), SolidSource::Preferred);
    assert_eq!(
        preferred_modes(&config),
        vec![SolidMode::Color { name: Color::Lime }, SolidMode::Rgb { r: 1, g: 2, b: 3 }]
    );
    let theme = pick_theme(&config).selected;
    assert_eq!(solid_color_with(&config, &mode, false, &theme, 0, (0, 0, 0)), Ok([0, 255, 0]));
    assert_eq!(solid_color_with(&config, &mode, false, &theme, 1, (0, 0, 0)), Ok([1, 2, 3]));
    for _ in 0..20 {
        let image = generate_solid_color(&config, &mode, 1, 1, false).unwrap();
        assert!(image.as_raw() == &vec![0, 255, 0] || image.as_raw() == &vec![1, 2, 3]);
    }
    assert!(!solid_needs_system_mode(&config));
}

#[test]
fn solid_theme_average() {
    let user = |appearance| UserConfig {
        solid_gen: Some(SolidConfig {
            preferred_default_colors: Some(vec![Color::Lime]),
            preferred_rgb_colors: None,
            respect_color_themes: Some(true),
        }),
        julia_gen: Some(JuliaConfig { appearance, ..JuliaConfig::default() }),
        themes: Some(ThemeConfigs(vec![ThemeConfig {
            name: "two".to_string(),
            colors: vec![(0, 0, 255)],
            dark_mode_colors: Some(vec![(10, 20, 30)]),
        }])),
        ..UserConfig::default()
    };
    let mode = SolidMode::Random;
    let config = followed(user(Some(Appearance::Light)));
    assert_eq!(solid_source(&config), SolidSource::ThemeAverage);
    assert!(!solid_needs_system_mode(&config));
    assert_eq!(generate_solid_color(&config, &mode, 1, 1, true).unwrap().as_raw(), &vec![0, 0, 255]);
    let config = followed(user(Some(Appearance::Dark)));
    assert_eq!(generate_solid_color(&config, &mode, 1, 1, false).unwrap().as_raw(), &vec![10, 20, 30]);
    let config = followed(user(None));
    assert!(solid_needs_system_mode(&config));
    assert_eq!(generate_solid_color(&config, &mode, 1, 1, true).unwrap().as_raw(), &vec![10, 20, 30]);
    assert_eq!(generate_solid_color(&config, &mode, 1, 1, false).unwrap().as_raw(), &vec![0, 0, 255]);
    // without themes of the user a built-in theme is taken
    let mut plain = user(Some(Appearance::Light));
    plain.themes = Some(ThemeConfigs(vec![]));
    let config = followed(plain);
    assert_eq!(pick_theme(&config).selected.colors.len(), 5);
    assert!(generate_solid_color(&config, &mode, 1, 1, false).is_ok());
}

#[test]
fn one_image_unless_themes_are_matched() {
    let spotlight = |flag| SpotlightConfig {
        country: Some("DE".to_string()),
        locale: Some("de-DE".to_string()),
        respect_color_themes: flag,
    };
    let user = |flag, themes| UserConfig {
        spotlight_gen: Some(spotlight(flag)),
        themes,
        ..UserConfig::default()
    };
    let defaults = APIParams { count: 1, country: "US".to_string(), locale: "en-US".to_string() };
    assert_eq!(spotlight_params(&attended(UserConfig::default())), defaults);
    assert_eq!(spotlight_params(&attended(user(Some(true), Some(blue_theme())))), defaults);
    let german = |count| APIParams { count, country: "DE".to_string(), locale: "de-DE".to_string() };
    assert_eq!(spotlight_params(&followed(user(Some(true), Some(blue_theme())))), german(2));
    assert_eq!(spotlight_params(&followed(user(Some(false), Some(blue_theme())))), german(1));
    assert_eq!(spotlight_params(&followed(user(None, Some(blue_theme())))), german(1));
    assert_eq!(spotlight_params(&followed(user(Some(true), None))), german(1));
    assert_eq!(spotlight_params(&followed(user(Some(true), Some(ThemeConfigs(vec![]))))), german(1));
    assert_eq!(downloads_wanted(&followed(user(Some(true), Some(blue_theme()))), 2), 2);
    assert_eq!(downloads_wanted(&followed(user(Some(false), Some(blue_theme()))), 2), 1);
    assert_eq!(downloads_wanted(&followed(user(Some(false), Some(blue_theme()))), 0), 0);
}

#[test]
fn request_address() {
    let params = APIParams { count: 2, country: "US".to_string(), locale: "en-US".to_string() };
    assert_eq!(
        build_url(params),
        "https://fd.api.iris.microsoft.com/v4/api/selection?&placement=88000820&fmt=json&bcnt=2&country=US&locale=en-US"
    );
}

#[test]
fn an_answer_without_addresses_is_an_error() {
    assert_eq!(
        check_download_urls(vec![]),
        Err(WallpaperGeneratorError::ImageGeneration(
            "No download URLs found in response".to_string()
        ))
    );
    assert_eq!(check_download_urls(vec!["a".to_string()]), Ok(vec!["a".to_string()]));
}

#[test]
fn theme_averages_of_the_user() {
    assert_eq!(
        compute_user_theme_averages(&attended(UserConfig::default())),
        Err(WallpaperGeneratorError::ImageGeneration(
            "No user themes defined in config".to_string()
        ))
    );
    let empty = UserConfig { themes: Some(ThemeConfigs(vec![])), ..UserConfig::default() };
    assert_eq!(
        compute_user_theme_averages(&attended(empty)),
        Err(WallpaperGeneratorError::ImageGeneration(
            "User themes are defined in config, but its an empty array.".to_string()
        ))
    );
    let two = UserConfig {
        themes: Some(ThemeConfigs(vec![
            ThemeConfig {
                name: "a".to_string(),
                colors: vec![(0, 0, 255)],
                dark_mode_colors: Some(vec![(9, 9, 9)]),
            },
            ThemeConfig {
                name: "b".to_string(),
                colors: vec![(0, 0, 0), (255, 100, 10)],
                dark_mode_colors: None,
            },
        ])),
        ..UserConfig::default()
    };
    assert_eq!(compute_user_theme_averages(&attended(two)), Ok(vec![[0, 0, 255], [180, 71, 7]]));
}

#[test]
fn distance_to_the_closest_theme() {
    let themes = [[0, 0, 255], [200, 50, 50]];
    assert_eq!(compare_image_to_user_theme_averages(&themes, [200, 50, 50]), 0);
    assert_eq!(compare_image_to_user_theme_averages(&themes, [60, 60, 200]), 3600 + 3600 + 3025);
    assert_eq!(compare_image_to_user_theme_averages(&themes[..1], [200, 50, 50]), 40000 + 2500 + 42025);
    assert_eq!(compare_image_to_user_theme_averages(&themes[..1], [255, 255, 0]), 195075);
    assert_eq!(compare_image_to_user_theme_averages(&[], [1, 2, 3]), u32::MAX);
}

#[test]
fn the_closest_image_is_kept() {
    let red = || AstraImage::from_pixel(2, 2, [200, 50, 50]).unwrap();
    let blue = || AstraImage::from_pixel(3, 1, [60, 60, 200]).unwrap();
    let themes = vec![[0, 0, 255]];
    assert_eq!(choose_spotlight_image(true, &themes, vec![red(), blue()]), Ok(blue()));
    assert_eq!(choose_spotlight_image(true, &themes, vec![blue(), red()]), Ok(blue()));
    assert_eq!(choose_spotlight_image(false, &themes, vec![red(), blue()]), Ok(red()));
    // equally close: the first one
    let other_blue = || AstraImage::from_pixel(1, 1, [60, 60, 200]).unwrap();
    assert_eq!(choose_spotlight_image(true, &themes, vec![red(), other_blue(), blue()]), Ok(other_blue()));
    assert_eq!(
        choose_spotlight_image(true, &themes, vec![]),
        Err(WallpaperGeneratorError::ImageGeneration("Failed to find best image match".to_string()))
    );
    assert_eq!(
        choose_spotlight_image(true, &vec![], vec![red()]),
        Err(WallpaperGeneratorError::ImageGeneration("Failed to find best image match".to_string()))
    );
    assert!(choose_spotlight_image(false, &themes, vec![]).is_err());
}

#[test]
fn downloads_are_decoded_and_chosen() {
    let matching = followed(UserConfig {
        spotlight_gen: Some(SpotlightConfig {
            country: None,
            locale: None,
            respect_color_themes: Some(true),
        }),
        themes: Some(blue_theme()),
        ..UserConfig::default()
    });
    let plain = attended(UserConfig::default());
    let downloads = vec![png(4, 2, [200, 50, 50]), png(2, 3, [60, 60, 200])];
    let kept = select_spotlight_image(&matching, &downloads).unwrap();
    assert_eq!((kept.width(), kept.height()), (2, 3));
    assert!(kept.as_raw().chunks(3).all(|p| p == [60, 60, 200]));
    let kept = select_spotlight_image(&plain, &downloads).unwrap();
    assert_eq!((kept.width(), kept.height()), (4, 2));
    assert!(kept.as_raw().chunks(3).all(|p| p == [200, 50, 50]));
    let decoded = decode_image(&downloads[0]).unwrap();
    assert_eq!(decoded, AstraImage::from_pixel(4, 2, [200, 50, 50]).unwrap());
    // what is no image is an error, wherever it stands
    let broken = vec![downloads[0].clone(), b"no image".to_vec()];
    assert!(matches!(
        select_spotlight_image(&matching, &broken),
        Err(WallpaperGeneratorError::ImageGeneration(_))
    ));
    assert!(matches!(decode_image(&b"no image".to_vec()), Err(WallpaperGeneratorError::ImageGeneration(_))));
    assert!(select_spotlight_image(&plain, &vec![]).is_err());
}

#[test]
fn generator_of_an_unattended_run() {
    let all = vec![
        Generator::Julia,
        Generator::Solid { mode: SolidMode::Random },
        Generator::Spotlight,
    ];
    assert_eq!(Generators::all_generators(), all);
    assert_eq!(Generators(all.clone()).to_string(), "julia, solid, spotlight");
    assert_eq!(Generators(vec![Generator::Spotlight]).to_string(), "spotlight");
    assert_eq!(Generators(vec![]).to_string(), "");
    assert_eq!(generator_candidates(&attended(UserConfig::default())), all);
    let none = UserConfig { generators: Some(Generators(vec![])), ..UserConfig::default() };
    assert_eq!(generator_candidates(&attended(none)), all);
    let one = || UserConfig {
        generators: Some(Generators(vec![Generator::Spotlight, Generator::Julia])),
        ..UserConfig::default()
    };
    assert_eq!(generator_candidates(&attended(one())), vec![Generator::Spotlight, Generator::Julia]);
    for _ in 0..20 {
        let chosen = choose_generator(&attended(one()));
        assert!(chosen == Generator::Spotlight || chosen == Generator::Julia);
    }
}

#[test]
fn empty_configuration_has_nothing_and_warns_of_nothing() {
    let config = Config::new(true, Ok(UserConfig::default()));
    assert!(!config.respect_user_config);
    assert!(config.verbose());
    assert!(config.auto_clean().is_none());
    assert!(config.frequency().is_none());
    assert!(config.generators().is_none());
    assert!(config.julia_gen().is_none());
    assert!(config.solid_gen().is_none());
    assert!(config.spotlight_gen().is_none());
    assert!(config.themes().is_none());
    assert!(config.user_themes().is_none());
    assert_eq!(config.appearance(), Appearance::Auto);
    assert_eq!(Config::load_warning(true, &Ok(UserConfig::default())), None);
}

#[test]
fn a_configuration_that_cannot_be_read_is_set_aside() {
    let failed = || Err(ConfigError::Parse("expected value at line 1 column 1".to_string()));
    let config = Config::new(true, failed());
    assert_eq!(config.user_config, None);
    assert_eq!(
        Config::load_warning(true, &failed()),
        Some(
            "WARN - ignoring configuration due to error(s): Unable to parse configuration file: expected value at line 1 column 1"
                .to_string()
        )
    );
    assert_eq!(Config::load_warning(false, &failed()), None);
}

#[test]
fn configuration_getters() {
    let user = UserConfig {
        auto_clean: Some(Frequency::new("7d").unwrap()),
        frequency: Some(Frequency::new("1w").unwrap()),
        generators: Some(Generators(vec![Generator::Julia])),
        julia_gen: Some(JuliaConfig {
            appearance: Some(Appearance::Dark),
            complex_numbers: Some(vec![(1, 2)]),
            starting_sample_threshold: Some(100),
            respect_color_themes: Some(true),
        }),
        solid_gen: Some(SolidConfig::default()),
        spotlight_gen: Some(SpotlightConfig::default()),
        themes: Some(blue_theme()),
    };
    let config = unattended(Config::new(false, Ok(user)));
    assert!(config.respect_user_config);
    assert_eq!(config.auto_clean().unwrap().to_seconds(), 604800);
    assert_eq!(config.frequency().unwrap().to_string(), "1w");
    assert_eq!(config.generators().unwrap().as_vec(), &vec![Generator::Julia]);
    let julia = config.julia_gen().unwrap();
    assert_eq!(julia.appearance(), Some(Appearance::Dark));
    assert_eq!(julia.complex_numbers(), Some(vec![(1, 2)]));
    assert_eq!(julia.starting_sample_threshold(), Some(100));
    assert_eq!(julia.respect_color_themes(), Some(true));
    assert_eq!(config.appearance(), Appearance::Dark);
    let solid = config.solid_gen().unwrap();
    assert_eq!(solid.preferred_default_colors(), None);
    assert_eq!(solid.preferred_rgb_colors(), None);
    assert_eq!(solid.respect_color_themes(), None);
    let spotlight = config.spotlight_gen().unwrap();
    assert_eq!((spotlight.country(), spotlight.locale()), (None, None));
    assert_eq!(spotlight.respect_color_themes(), None);
    let themes = config.themes().unwrap();
    assert_eq!(themes.themes().len(), 1);
    let theme = themes.random();
    assert_eq!(theme.name(), "blue");
    assert_eq!(theme.colors(), &vec![(0, 0, 255)]);
    assert_eq!(theme.dark_mode_colors(), &None);
    let color_theme = theme.to_color_theme();
    assert_eq!(color_theme.colors, vec![[0, 0, 255]]);
    assert!(!color_theme.supports_dark_mode);
    assert_eq!(theme.to_theme_selector().selected(), &color_theme);
    assert!(Appearance::Auto.needs_system());
    assert!(!Appearance::Light.dark_mode(true));
    assert!(Appearance::Dark.dark_mode(false));
}
