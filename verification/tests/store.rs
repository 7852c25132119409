use astra::cli::{Generator, SolidMode};
use astra::configuration::Frequency;
use astra::wallpaper_generators::{
    delete_older_than, delete_wallpapers, handle_generate_options, read_timestamp,
    should_delete, wallpaper_file_name, CleanAction, GenerateActions,
};

#[test]
fn saved_names_hold_the_prefix_and_the_time() {
    assert_eq!(wallpaper_file_name(&Generator::Julia, 1640000000), "julia_1640000000.png");
    assert_eq!(wallpaper_file_name(&Generator::Spotlight, 0), "spotlight_0.png");
    let solid = Generator::Solid { mode: SolidMode::Rgb { r: 1, g: 2, b: 3 } };
    assert_eq!(wallpaper_file_name(&solid, u64::MAX), "solid_18446744073709551615.png");
    assert_eq!(Generator::Julia.prefix(), "julia");
    assert_eq!(solid.prefix(), "solid");
    assert_eq!(Generator::Spotlight.prefix(), "spotlight");
}

#[test]
fn saved_names_are_read_back() {
    for time in [0, 1, 9, 10, 1640000000, u64::MAX] {
        for generator in [Generator::Julia, Generator::Spotlight] {
            let name = wallpaper_file_name(&generator, time);
            assert_eq!(read_timestamp(&name), Some(time));
        }
    }
}

#[test]
fn only_names_of_the_form_are_read() {
    assert_eq!(read_timestamp("spotlight_1640000000.png"), Some(1640000000));
    assert_eq!(read_timestamp("a_b_12.png"), Some(12));
    assert_eq!(read_timestamp("_007.png"), Some(7));
    for name in [
        "readme.txt",
        "julia_.png",
        "julia_12.jpg",
        "julia_12.PNG",
        "julia12.png",
        "12.png",
        "julia_12a.png",
        "julia_+12.png",
        "julia_1 2.png",
        "julia_12.png ",
        "julia_18446744073709551616.png",
        ".png",
        "",
    ] {
        assert_eq!(read_timestamp(name), None, "{name:?}");
    }
}

#[test]
fn clean_older_than_seven_days() {
    let now: u64 = 1_700_000_000;
    let week = Frequency::new("7d").unwrap();
    let names = vec![
        format!("julia_{}.png", now - 8 * 86400),
        format!("solid_{}.png", now - 86400),
        "readme.txt".to_string(),
        format!("spotlight_{}.png", now - 7 * 86400),
        format!("spotlight_{}.png", now - 7 * 86400 + 1),
        format!("julia_{}.png", now + 5),
    ];
    assert_eq!(
        delete_older_than(&names, now, &week),
        vec![true, false, false, true, false, false]
    );
    assert!(should_delete(&names[0], now, &week));
    assert!(!should_delete(&names[1], now, &week));
    assert!(!should_delete("readme.txt", now, &week));
    // nothing is older than the age of the universe in seconds
    let long = Frequency::new("99999999999999999999999s").unwrap();
    assert!(!should_delete("julia_0.png", u64::MAX, &long));
    // before the age has passed since the beginning of time nothing is removed
    assert!(!should_delete("julia_0.png", 10, &week));
    assert_eq!(delete_older_than(&Vec::new(), now, &week), Vec::<bool>::new());
}

#[test]
fn clean_actions() {
    let week = Frequency::new("1w").unwrap();
    assert_eq!(delete_wallpapers(true, true, None), CleanAction::RemoveDirectory);
    assert_eq!(delete_wallpapers(true, false, None), CleanAction::EmptyDirectory);
    assert_eq!(delete_wallpapers(false, false, Some(&week)), CleanAction::RemoveExpired);
    assert_eq!(delete_wallpapers(false, true, Some(&week)), CleanAction::RemoveExpired);
    assert_eq!(delete_wallpapers(true, false, Some(&week)), CleanAction::EmptyDirectory);
    assert_eq!(delete_wallpapers(false, true, None), CleanAction::RemoveDirectory);
    assert_eq!(delete_wallpapers(false, false, None), CleanAction::Nothing);
}

#[test]
fn what_is_done_with_an_image() {
    assert_eq!(handle_generate_options(false, false), GenerateActions { save: true, update: true });
    assert_eq!(handle_generate_options(true, false), GenerateActions { save: true, update: true });
    assert_eq!(handle_generate_options(false, true), GenerateActions { save: true, update: false });
    assert_eq!(handle_generate_options(true, true), GenerateActions { save: false, update: false });
}

#[test]
fn generator_names_are_read_in_any_case() {
    assert_eq!(Generator::from_str("julia"), Ok(Generator::Julia));
    assert_eq!(Generator::from_str("Spotlight"), Ok(Generator::Spotlight));
    assert_eq!(Generator::from_str("SOLID"), Ok(Generator::Solid { mode: SolidMode::Random }));
    assert_eq!(
        Generator::from_str("Mandelbrot"),
        Err("Unknown generator type: Mandelbrot".to_string())
    );
    assert_eq!(Generator::from_lowered("julia", "x"), Ok(Generator::Julia));
    assert_eq!(
        Generator::from_lowered("Julia", "Julia"),
        Err("Unknown generator type: Julia".to_string())
    );
}
