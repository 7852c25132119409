//! The three wallpaper sources and what they share.

mod bing_spotlight;
mod julia;
mod solid_color;
mod store;
mod utils;

pub use bing_spotlight::{
    all_decode, are_selector_themes, are_theme_averages, build_url, check_download_urls,
    choose_spotlight_image, closest_index, color_distance, compare_image_to_user_theme_averages,
    compute_user_theme_averages, decode_image, decoded_rasters, decoded_rgb8, downloads_wanted,
    lemma_closest_is_first_minimum, raster_distances, rasters_of, respects_themes,
    select_spotlight_image, spec_build_url, spec_decoded_raster, spec_respects_themes,
    spotlight_choice, spotlight_params, theme_distance, themes_fit, APIParams,
};
pub use julia::{
    aspect_ratio, builtin_complex_numbers, choose_hotspot, complex_candidates,
    configured_complex_numbers, generate_julia_set, is_descending, is_hotspot, is_jitter, is_painted,
    is_theme_palette, julia_needs_system_mode, julia_palette, next_pass, pass_threshold,
    pick_complex_number, sample_grid, sort_hotspots, spec_next_pass, spec_pass_threshold,
    spec_builtin_complex_numbers, spec_starting_threshold, starting_threshold, theme_palette, Hotspot, SampleGrid,
    DEFAULT_THRESHOLD, MAX_PASSES, PALETTE_SIZE,
};
pub use solid_color::{
    candidate_themes_fit, fixed_color, generate_image, generate_solid_color, is_candidate_theme, is_rgb,
    is_solid_color, is_theme_average, is_uniform, mode_color, named_modes, pick_theme,
    preferred_modes, rgb_modes, solid_color_with, solid_needs_system_mode, solid_source,
    spec_preferred_modes, spec_solid_source, theme_fill_color, wants_theme_average, Color,
    SolidSource,
};
pub use store::{
    captured_timestamp, clean_action, delete_older_than, delete_wallpapers, file_name,
    handle_generate_options, is_expired, is_wallpaper_name, lemma_cut_unique,
    lemma_saved_name_keeps_time, png_suffix, read_timestamp, should_delete, timestamp_cut,
    wallpaper_file_name, CleanAction, GenerateActions,
};
pub use utils::{
    average_color, channel_mean, create_color_map, is_rounded_root, lemma_palette_ends,
    lemma_rounded_root_unique, lemma_square_sum_permutation, mix_channel, mix_color,
    palette_channel, palette_span, raster_mean, rounded_root, sample_square_sum, square_sum, AstraImage,
    Operator, WallpaperGeneratorError,
};
