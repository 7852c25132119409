use astra::configuration::generators::JuliaConfig;
use astra::configuration::{Config, UserConfig};
use astra::orchestrator::unattended;
use astra::themes::{ColorTheme, ColorThemes, ThemeSelector, THEME_COUNT};
use astra::wallpaper_generators::{
    builtin_complex_numbers, choose_hotspot, complex_candidates, create_color_map,
    generate_julia_set, is_hotspot, julia_needs_system_mode, julia_palette, next_pass,
    pass_threshold, pick_complex_number, sample_grid, sort_hotspots, starting_threshold,
    theme_palette, Hotspot, Operator, MAX_PASSES,
};

fn escape_count(mut zr: f64, mut zi: f64, cr: f64, ci: f64) -> u32 {
    let mut i = 0;
    while i < 255 && zr * zr + zi * zi <= 4.0 {
        let next = zr * zr - zi * zi + cr;
        zi = 2.0 * zr * zi + ci;
        zr = next;
        i += 1;
    }
    i
}

fn sample_julia_set(c: (f64, f64), width: u32, height: u32, start: u8) -> Vec<Hotspot> {
    let mut found: Vec<Hotspot> = Vec::new();
    let mut pass = Some(0);
    while let Some(number) = pass {
        let threshold = pass_threshold(start, number);
        if let Some(grid) = sample_grid(width, height, number) {
            for cell in 0..grid.cells() {
                let (x, y) = grid.sample(cell).unwrap();
                assert!(x < width && y < height);
                let zr = x as f64 * (3.0 / width as f64);
                let zi = y as f64 * (3.5 / height as f64);
                let iterations = escape_count(zr, zi, c.0, c.1);
                if is_hotspot(iterations, threshold) {
                    found.push(Hotspot { x, y, iterations });
                }
            }
        }
        pass = next_pass(number, found.len());
    }
    sort_hotspots(&found)
}

#[test]
fn fractals_test_sample_julia_set() {
    let points = sample_julia_set((0.4, 0.4), 800, 600, 200);
    assert!(!points.is_empty());
}

#[test]
fn julia_test_sample_julia_set() {
    let points = sample_julia_set((0.4, 0.4), 800, 600, 200);
    assert!(!points.is_empty());
    assert!(points.windows(2).all(|w| w[0].iterations >= w[1].iterations));
    assert!(choose_hotspot(&points).is_some());
}

#[test]
fn some_built_in_parameter_has_hotspots() {
    let numbers = builtin_complex_numbers();
    assert_eq!(numbers.len(), 13);
    assert_eq!(f64::from_bits(numbers[0].0), -0.79);
    assert_eq!(f64::from_bits(numbers[0].1), 0.15);
    assert_eq!(f64::from_bits(numbers[4].0), -0.70176);
    assert_eq!(f64::from_bits(numbers[4].1), -0.3842);
    assert_eq!(f64::from_bits(numbers[12].0), 0.0);
    assert_eq!(f64::from_bits(numbers[12].1), 0.8);
    let any = numbers.iter().any(|(re, im)| {
        !sample_julia_set((f64::from_bits(*re), f64::from_bits(*im)), 800, 600, 200).is_empty()
    });
    assert!(any);
}

#[test]
fn grids_grow_with_the_passes() {
    // 800 by 600 has the aspect ratio 1
    let first = sample_grid(800, 600, 0).unwrap();
    assert_eq!(first.cells(), 100);
    let last = sample_grid(800, 600, 14).unwrap();
    assert_eq!(last.cells(), 150 * 150);
    // 1920 by 1080 has the aspect ratio 2
    let wide = sample_grid(1920, 1080, 1).unwrap();
    assert_eq!(wide.cells(), 20 * 40);
    // cell 41 is the second cell of the second row; cells are 48 by 54 pixels
    assert_eq!(wide.point(41, 0, 0), (48, 54));
    assert_eq!(wide.point(41, 24, 27), (72, 81));
    assert_eq!(wide.point(799, 24, 27), (39 * 48 + 24, 19 * 54 + 27));
    // 3 by 2 is 1.5, which rounds up
    assert_eq!(sample_grid(3, 2, 0).unwrap().cells(), 10 * 20);
    assert_eq!(sample_grid(3, 2, 0).unwrap().point(199, 0, 0), (0, 0));
    assert!(sample_grid(800, 600, 15).is_none());
    assert!(sample_grid(800, 0, 0).is_none());
    assert!(sample_grid(100, 201, 0).is_none());
    assert!(sample_grid(100, 200, 0).is_some());
    assert!(first.sample(99).is_some());
    assert!(first.sample(100).is_none());
    for _ in 0..100 {
        let (x, y) = first.sample(11).unwrap();
        assert!((80..120).contains(&x) && (60..90).contains(&y));
    }
}

#[test]
fn thresholds_fall_with_the_passes() {
    assert_eq!(pass_threshold(200, 0), 200);
    assert_eq!(pass_threshold(200, 1), 187);
    assert_eq!(pass_threshold(200, 14), 18);
    assert_eq!(pass_threshold(255, 14), 17);
    assert_eq!(pass_threshold(14, 14), 14);
    assert_eq!(pass_threshold(0, 3), 0);
    assert!(is_hotspot(201, 200));
    assert!(!is_hotspot(200, 200));
    assert_eq!(next_pass(0, 0), Some(1));
    assert_eq!(next_pass(13, 0), Some(14));
    assert_eq!(next_pass(14, 0), None);
    assert_eq!(next_pass(3, 1), None);
    assert_eq!(MAX_PASSES, 15);
}

#[test]
fn hotspots_are_ordered_by_their_counts() {
    let point = |x, iterations| Hotspot { x, y: 0, iterations };
    let points = vec![point(0, 5), point(1, 255), point(2, 5), point(3, 100), point(4, 255)];
    assert_eq!(
        sort_hotspots(&points),
        vec![point(1, 255), point(4, 255), point(3, 100), point(0, 5), point(2, 5)]
    );
    assert_eq!(sort_hotspots(&vec![]), vec![]);
    assert_eq!(choose_hotspot(&vec![]), None);
    for _ in 0..20 {
        assert!(points.contains(&choose_hotspot(&points).unwrap()));
    }
}

#[test]
fn counts_are_painted_through_the_palette() {
    let palette = create_color_map(Operator::Gradient, 256, &[[0, 0, 0], [255, 255, 255]]);
    let counts = vec![0, 255, 7, 7, 100, 200];
    let image = generate_julia_set(3, 2, &palette, &counts).unwrap();
    assert_eq!((image.width(), image.height()), (3, 2));
    assert_eq!(
        image.as_raw(),
        &vec![0, 0, 0, 255, 255, 255, 7, 7, 7, 7, 7, 7, 100, 100, 100, 200, 200, 200]
    );
    // the same counts give the same image
    assert_eq!(generate_julia_set(3, 2, &palette, &counts).unwrap(), image);
    assert!(generate_julia_set(3, 2, &palette, &counts[..5].to_vec()).is_err());
    assert!(generate_julia_set(2, 2, &palette, &counts).is_err());
    assert!(generate_julia_set(3, 2, &palette[..255].to_vec(), &counts).is_err());
    assert_eq!(generate_julia_set(0, 9, &palette, &vec![]).unwrap().as_raw().len(), 0);
}

#[test]
fn palette_of_a_run() {
    let config = Config::new(false, Ok(UserConfig::default()));
    assert!(julia_needs_system_mode(&config));
    for dark in [false, true] {
        let palette = julia_palette(&config, dark);
        assert_eq!(palette.len(), 256);
        let known = (0..THEME_COUNT).any(|i| {
            let selector = ThemeSelector::new(ColorThemes::from_index(i));
            theme_palette(selector.selected(), dark).unwrap() == palette
        });
        assert!(known);
    }
    let none = ColorTheme::new("none".to_string(), false, vec![], None);
    assert_eq!(theme_palette(&none, false), None);
}

#[test]
fn parameters_of_a_run() {
    let julia = |numbers, threshold| UserConfig {
        julia_gen: Some(JuliaConfig {
            complex_numbers: numbers,
            starting_sample_threshold: threshold,
            ..JuliaConfig::default()
        }),
        ..UserConfig::default()
    };
    let own = vec![(1u64, 2u64), (3, 4)];
    let attended = Config::new(false, Ok(julia(Some(own.clone()), Some(50))));
    assert_eq!(complex_candidates(&attended), builtin_complex_numbers());
    assert_eq!(starting_threshold(&attended), 200);
    let followed = unattended(Config::new(false, Ok(julia(Some(own.clone()), Some(50)))));
    assert_eq!(complex_candidates(&followed), own);
    assert_eq!(starting_threshold(&followed), 50);
    let empty = unattended(Config::new(false, Ok(julia(Some(vec![]), None))));
    assert_eq!(complex_candidates(&empty), builtin_complex_numbers());
    assert_eq!(starting_threshold(&empty), 200);
    for _ in 0..20 {
        assert!(own.contains(&pick_complex_number(&own)));
    }
}
