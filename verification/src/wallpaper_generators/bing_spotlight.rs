//! The photo-of-the-day source: what to ask the image service for, and
//! which of the images that came back to keep.

use super::utils::{
    average_color, channel_mean, raster_mean, AstraImage, WallpaperGeneratorError,
};
use crate::configuration::{Config, ThemeConfig};
use crate::text::{decimal, push_decimal, push_str, string_of};
use crate::themes::ColorTheme;
use vstd::prelude::*;
use vstd::string::StringExecFns;

verus! {

/// The parameters of a request to the image service.
#[derive(Debug, PartialEq)]
pub struct APIParams {
    /// How many images to ask for.
    pub count: u8,
    pub country: String,
    pub locale: String,
}

/// Whether the image closest to a user theme is wanted: the configuration
/// is followed, asks for it, and holds at least one theme.
pub open spec fn spec_respects_themes(config: Config) -> bool {
    &&& config.respect_user_config
    &&& config.spec_spotlight_gen() is Some
    &&& config.spec_spotlight_gen().unwrap().respect_color_themes == Some(true)
    &&& config.spec_user_themes() is Some
}

/// Whether the image closest to a user theme is wanted.
pub fn respects_themes(config: &Config) -> (out: bool)
    ensures
        out == spec_respects_themes(*config),
{
    if !config.respect_user_config {
        return false;
    }
    let asked = match config.spotlight_gen() {
        Some(spotlight) => match spotlight.respect_color_themes() {
            Some(flag) => flag,
            None => false,
        },
        None => false,
    };
    asked && config.user_themes().is_some()
}

/// The request for this run: the configured country and locale in an
/// unattended run, `US` and `en-US` otherwise; two images where the closest
/// to a user theme is wanted, one image in every other case.
pub fn spotlight_params(config: &Config) -> (out: APIParams)
    ensures
        out.count == (if spec_respects_themes(*config) {
            2u8
        } else {
            1u8
        }),
        out.country@ == (if config.respect_user_config && config.spec_spotlight_gen() is Some
            && config.spec_spotlight_gen().unwrap().country is Some {
            config.spec_spotlight_gen().unwrap().country.unwrap()@
        } else {
            "US"@
        }),
        out.locale@ == (if config.respect_user_config && config.spec_spotlight_gen() is Some
            && config.spec_spotlight_gen().unwrap().locale is Some {
            config.spec_spotlight_gen().unwrap().locale.unwrap()@
        } else {
            "en-US"@
        }),
{
    let mut country: Option<String> = None;
    let mut locale: Option<String> = None;
    if config.respect_user_config {
        match config.spotlight_gen() {
            Some(spotlight) => {
                country = spotlight.country();
                locale = spotlight.locale();
            },
            None => {},
        }
    }
    let country = match country {
        Some(c) => c,
        None => String::from_str("US"),
    };
    let locale = match locale {
        Some(l) => l,
        None => String::from_str("en-US"),
    };
    let count: u8 = if respects_themes(config) {
        2
    } else {
        1
    };
    APIParams { count, country, locale }
}

/// The address of the request with the given parameters.
pub open spec fn spec_build_url(count: nat, country: Seq<char>, locale: Seq<char>) -> Seq<char> {
    "https://fd.api.iris.microsoft.com/v4/api/selection?&placement=88000820&fmt=json&bcnt="@
        + decimal(count) + "&country="@ + country + "&locale="@ + locale
}

/// The address of the request with the given parameters.
pub fn build_url(params: APIParams) -> (out: String)
    ensures
        out@ == spec_build_url(params.count as nat, params.country@, params.locale@),
{
    let mut buf: Vec<char> = Vec::new();
    push_str(
        &mut buf,
        "https://fd.api.iris.microsoft.com/v4/api/selection?&placement=88000820&fmt=json&bcnt=",
    );
    push_decimal(&mut buf, params.count as u64);
    push_str(&mut buf, "&country=");
    push_str(&mut buf, params.country.as_str());
    push_str(&mut buf, "&locale=");
    push_str(&mut buf, params.locale.as_str());
    assert(buf@ =~= spec_build_url(params.count as nat, params.country@, params.locale@));
    string_of(&buf)
}

/// Accepts the addresses that the service answered with; an answer without
/// any is an error.
pub fn check_download_urls(urls: Vec<String>) -> (out: Result<Vec<String>, WallpaperGeneratorError>)
    ensures
        out is Ok <==> urls@.len() > 0,
        out matches Ok(kept) ==> kept == urls,
        out matches Err(e) ==> e matches WallpaperGeneratorError::ImageGeneration(m) && m@
            == "No download URLs found in response"@,
{
    if urls.len() == 0 {
        Err(
            WallpaperGeneratorError::ImageGeneration(
                String::from_str("No download URLs found in response"),
            ),
        )
    } else {
        Ok(urls)
    }
}

/// How many of `available` addresses are downloaded: all of them where the
/// closest to a user theme is wanted, the first one otherwise.
pub fn downloads_wanted(config: &Config, available: usize) -> (out: usize)
    ensures
        out == (if spec_respects_themes(*config) || available == 0 {
            available
        } else {
            1
        }),
{
    if respects_themes(config) || available == 0 {
        available
    } else {
        1
    }
}

/// No theme of the user has more colours than an image can be wide.
pub open spec fn themes_fit(config: Config) -> bool {
    config.spec_themes() is Some ==> forall|i: int|
        0 <= i < config.spec_themes().unwrap().0@.len() ==> (
        #[trigger] config.spec_themes().unwrap().0@[i]).colors@.len() <= u32::MAX
}

/// `averages` holds the average colour of each of the user's themes in
/// light mode, in the order of the configuration.
pub open spec fn are_theme_averages(config: Config, averages: Seq<[u8; 3]>) -> bool {
    &&& config.spec_user_themes() is Some
    &&& averages.len() == config.spec_themes().unwrap().0@.len()
    &&& forall|i: int, ch: int|
        0 <= i < averages.len() && 0 <= ch < 3 ==> (#[trigger] averages[i][ch]) as nat
            == channel_mean(ThemeConfig::arrays_of(config.spec_themes().unwrap().0@[i].colors@), ch)
}

/// The average colours of the user's themes in light mode, in the order of
/// the configuration. It fails where the configuration holds no theme, and
/// where a theme has more colours than an image can be wide.
pub fn compute_user_theme_averages(config: &Config) -> (out: Result<
    Vec<[u8; 3]>,
    WallpaperGeneratorError,
>)
    ensures
        config.spec_themes() is None ==> (out matches Err(
            WallpaperGeneratorError::ImageGeneration(m),
        ) && m@ == "No user themes defined in config"@),
        config.spec_themes() is Some && config.spec_themes().unwrap().0@.len() == 0 ==> (
        out matches Err(WallpaperGeneratorError::ImageGeneration(m)) && m@
            == "User themes are defined in config, but its an empty array."@),
        out matches Ok(averages) ==> are_theme_averages(*config, averages@),
        out matches Err(e) ==> e matches WallpaperGeneratorError::ImageGeneration(_),
        out is Ok <==> config.spec_user_themes() is Some && themes_fit(*config),
{
    let user_themes = match config.themes() {
        Some(themes) => themes,
        None => {
            return Err(
                WallpaperGeneratorError::ImageGeneration(
                    String::from_str("No user themes defined in config"),
                ),
            );
        },
    };
    if user_themes.0.len() == 0 {
        return Err(
            WallpaperGeneratorError::ImageGeneration(
                String::from_str("User themes are defined in config, but its an empty array."),
            ),
        );
    }
    let mut theme_averages: Vec<[u8; 3]> = Vec::new();
    let mut i: usize = 0;
    while i < user_themes.0.len()
        invariant
            i <= user_themes.0@.len(),
            user_themes.0@.len() > 0,
            config.spec_themes() == Some(*user_themes),
            theme_averages@.len() == i,
            forall|j: int| 0 <= j < i ==> (#[trigger] user_themes.0@[j]).colors@.len() <= u32::MAX,
            forall|j: int, ch: int|
                0 <= j < i && 0 <= ch < 3 ==> (#[trigger] theme_averages@[j][ch]) as nat
                    == channel_mean(
                    ThemeConfig::arrays_of(user_themes.0@[j].colors@),
                    ch,
                ),
        decreases user_themes.0.len() - i,
    {
        let theme: ColorTheme = user_themes.0[i].to_color_theme();
        proof {
            ThemeConfig::lemma_arrays_of(
                user_themes.0@[i as int].colors@,
                theme.colors@,
            );
        }
        match theme.average_color(false) {
            Ok(average) => {
                theme_averages.push(average);
            },
            Err(e) => {
                return Err(WallpaperGeneratorError::ImageGeneration(e.to_string()));
            },
        }
        i = i + 1;
    }
    Ok(theme_averages)
}

/// The squared distance between a colour and the colour `(r, g, b)`.
pub open spec fn color_distance(a: [u8; 3], r: int, g: int, b: int) -> nat {
    ((a[0] - r) * (a[0] - r) + (a[1] - g) * (a[1] - g) + (a[2] - b) * (a[2] - b)) as nat
}

/// The distance from the colour `(r, g, b)` to the closest of `themes`;
/// without any theme it is the largest `u32`.
pub open spec fn theme_distance(themes: Seq<[u8; 3]>, r: int, g: int, b: int) -> nat
    decreases themes.len(),
{
    if themes.len() == 0 {
        u32::MAX as nat
    } else {
        let before = theme_distance(themes.drop_last(), r, g, b);
        let last = color_distance(themes.last(), r, g, b);
        if last < before {
            last
        } else {
            before
        }
    }
}

fn squared_difference(a: u8, b: u8) -> (out: u32)
    ensures
        out == (a - b) * (a - b),
        out <= 65025,
{
    let d: u32 = if a >= b {
        (a - b) as u32
    } else {
        (b - a) as u32
    };
    assert(d * d <= 65025 && d * d == (a - b) * (a - b)) by (nonlinear_arith)
        requires
            d <= 255,
            d == a - b || d == b - a,
    ;
    d * d
}

/// The distance from an image's average colour to the closest of the user's
/// theme averages: the smallest sum of the squared differences of the three
/// channels. 0 is a perfect match.
pub fn compare_image_to_user_theme_averages(
    user_theme_averages: &[[u8; 3]],
    image_average: [u8; 3],
) -> (out: u32)
    ensures
        out == theme_distance(
            user_theme_averages@,
            image_average[0] as int,
            image_average[1] as int,
            image_average[2] as int,
        ),
        user_theme_averages@.len() > 0 ==> out <= 195075,
{
    let mut best_distance: u32 = u32::MAX;
    let mut i: usize = 0;
    while i < user_theme_averages.len()
        invariant
            i <= user_theme_averages@.len(),
            i > 0 ==> best_distance <= 195075,
            best_distance == theme_distance(
                user_theme_averages@.take(i as int),
                image_average[0] as int,
                image_average[1] as int,
                image_average[2] as int,
            ),
        decreases user_theme_averages.len() - i,
    {
        let theme_avg = user_theme_averages[i];
        let distance = squared_difference(theme_avg[0], image_average[0]) + squared_difference(
            theme_avg[1],
            image_average[1],
        ) + squared_difference(theme_avg[2], image_average[2]);
        proof {
            let next = user_theme_averages@.take(i + 1);
            assert(next.drop_last() =~= user_theme_averages@.take(i as int));
            assert(next.last() == theme_avg);
        }
        if distance < best_distance {
            best_distance = distance;
        }
        i = i + 1;
    }
    proof {
        assert(user_theme_averages@.take(user_theme_averages@.len() as int)
            =~= user_theme_averages@);
    }
    best_distance
}

/// The place of the image to keep, given each image's distance to the
/// closest theme: the smallest distance wins, and among equals the one that
/// came first. An image at the largest `u32` is never kept.
pub open spec fn closest_index(distances: Seq<nat>) -> Option<int>
    decreases distances.len(),
{
    if distances.len() == 0 {
        None
    } else {
        let last = distances.len() - 1;
        match closest_index(distances.drop_last()) {
            Some(best) => if distances[last] < distances[best] {
                Some(last)
            } else {
                Some(best)
            },
            None => if distances[last] < u32::MAX {
                Some(last)
            } else {
                None
            },
        }
    }
}

/// The image that is kept is the first of those at the smallest distance.
pub proof fn lemma_closest_is_first_minimum(distances: Seq<nat>)
    ensures
        match closest_index(distances) {
            Some(best) => {
                &&& 0 <= best < distances.len()
                &&& distances[best] < u32::MAX
                &&& forall|j: int| 0 <= j < distances.len() ==> distances[best] <= #[trigger] distances[j]
                &&& forall|j: int| 0 <= j < best ==> distances[best] < #[trigger] distances[j]
            },
            None => forall|j: int| 0 <= j < distances.len() ==> #[trigger] distances[j] >= u32::MAX,
        },
    decreases distances.len(),
{
    if distances.len() > 0 {
        let init = distances.drop_last();
        lemma_closest_is_first_minimum(init);
        assert forall|j: int| 0 <= j < init.len() implies init[j] == distances[j] by {}
    }
}

/// The distances of rasters to the closest of `themes`, raster by raster.
pub open spec fn raster_distances(themes: Seq<[u8; 3]>, rasters: Seq<(nat, nat, Seq<u8>)>) -> Seq<
    nat,
> {
    Seq::new(
        rasters.len(),
        |i: int|
            theme_distance(
                themes,
                raster_mean(rasters[i].2, 0) as int,
                raster_mean(rasters[i].2, 1) as int,
                raster_mean(rasters[i].2, 2) as int,
            ),
    )
}

/// The place of the image that the selector returns, or `None` where it
/// fails: the first image where no theme is to be matched, the closest one
/// otherwise.
pub open spec fn spotlight_choice(
    matching: bool,
    themes: Seq<[u8; 3]>,
    rasters: Seq<(nat, nat, Seq<u8>)>,
) -> Option<int> {
    if matching {
        closest_index(raster_distances(themes, rasters))
    } else if rasters.len() > 0 {
        Some(0)
    } else {
        None
    }
}

/// The rasters of `images`, in order.
pub open spec fn rasters_of(images: Seq<AstraImage>) -> Seq<(nat, nat, Seq<u8>)> {
    Seq::new(images.len(), |i: int| images[i].raster())
}

/// Chooses among decoded images. Where no theme is to be matched the first
/// image is returned. Otherwise each image's average colour is compared
/// with the theme averages and the closest image is returned, the earlier
/// one where two are equally close.
pub fn choose_spotlight_image(
    matching: bool,
    theme_averages: &Vec<[u8; 3]>,
    images: Vec<AstraImage>,
) -> (out: Result<AstraImage, WallpaperGeneratorError>)
    ensures
        match spotlight_choice(matching, theme_averages@, rasters_of(images@)) {
            Some(kept) => out matches Ok(image) && image == images@[kept],
            None => out matches Err(WallpaperGeneratorError::ImageGeneration(m)) && m@ == (
            if matching {
                "Failed to find best image match"@
            } else {
                "No download URLs found in response"@
            }),
        },
        out is Ok <==> images@.len() > 0 && (matching ==> theme_averages@.len() > 0),
{
    let mut images = images;
    let ghost all = images@;
    if !matching {
        if images.len() == 0 {
            return Err(
                WallpaperGeneratorError::ImageGeneration(
                    String::from_str("No download URLs found in response"),
                ),
            );
        }
        return Ok(images.swap_remove(0));
    }
    let ghost distances = raster_distances(theme_averages@, rasters_of(all));
    let mut best_distance: u32 = u32::MAX;
    let mut best: Option<usize> = None;
    let mut i: usize = 0;
    while i < images.len()
        invariant
            i <= images@.len(),
            images@ == all,
            distances == raster_distances(theme_averages@, rasters_of(all)),
            i > 0 && theme_averages@.len() > 0 ==> best is Some,
            theme_averages@.len() == 0 ==> best is None,
            match best {
                Some(b) => closest_index(distances.take(i as int)) == Some(b as int) && b < i
                    && best_distance == distances[b as int],
                None => closest_index(distances.take(i as int)) is None && best_distance
                    == u32::MAX,
            },
        decreases images.len() - i,
    {
        let average = average_color(&images[i]);
        let distance = compare_image_to_user_theme_averages(theme_averages.as_slice(), average);
        proof {
            let next = distances.take(i + 1);
            assert(next.drop_last() =~= distances.take(i as int));
            assert(distances[i as int] == distance);
            assert(next[next.len() - 1] == distances[i as int]);
            if best is Some {
                assert(next[best.unwrap() as int] == distances[best.unwrap() as int]);
            }
        }
        if distance < best_distance {
            best_distance = distance;
            best = Some(i);
        }
        i = i + 1;
    }
    proof {
        assert(distances.take(images@.len() as int) =~= distances);
    }
    match best {
        Some(b) => Ok(images.swap_remove(b)),
        None => Err(
            WallpaperGeneratorError::ImageGeneration(
                String::from_str("Failed to find best image match"),
            ),
        ),
    }
}

/// The name under which the wrapper `decode_rgb8` hands back what the image
/// decoder makes of a file's bytes: width, height and the 8-bit RGB
/// samples, or the decoder's message.
pub uninterp spec fn decoded_rgb8(bytes: Seq<u8>) -> Result<(u32, u32, Seq<u8>), Seq<char>>;

/// Decodes an image file with `image::load_from_memory`, which guesses the
/// format from the bytes, and converts it with `DynamicImage::to_rgb8`. The
/// result depends on the bytes alone and is known to contracts as
/// `decoded_rgb8`; nothing is claimed about what it holds.
#[verifier::external_body]
fn decode_rgb8(bytes: &Vec<u8>) -> (out: Result<(u32, u32, Vec<u8>), String>)
    ensures
        decoded_rgb8(bytes@) == match out {
            Ok(raster) => Ok::<(u32, u32, Seq<u8>), Seq<char>>((raster.0, raster.1, raster.2@)),
            Err(message) => Err(message@),
        },
{
    match image::load_from_memory(bytes.as_slice()) {
        Ok(decoded) => {
            let rgb = decoded.to_rgb8();
            Ok((rgb.width(), rgb.height(), rgb.into_raw()))
        },
        Err(e) => Err(e.to_string()),
    }
}

/// What decoding makes of one download: an image, or nothing where the
/// bytes are no image or the decoder's samples do not fill its dimensions.
pub open spec fn spec_decoded_raster(bytes: Seq<u8>) -> Option<(nat, nat, Seq<u8>)> {
    match decoded_rgb8(bytes) {
        Ok(raster) => if raster.2.len() == raster.0 as nat * raster.1 as nat * 3 {
            Some((raster.0 as nat, raster.1 as nat, raster.2))
        } else {
            None
        },
        Err(_) => None,
    }
}

/// Decodes one download.
pub fn decode_image(bytes: &Vec<u8>) -> (out: Result<AstraImage, WallpaperGeneratorError>)
    ensures
        out is Ok <==> spec_decoded_raster(bytes@) is Some,
        out matches Ok(image) ==> Some(image.raster()) == spec_decoded_raster(bytes@),
        out matches Err(e) ==> e matches WallpaperGeneratorError::ImageGeneration(m) && m@ == (
        match decoded_rgb8(bytes@) {
            Ok(_) => "decoded image does not fill its dimensions"@,
            Err(message) => message,
        }),
{
    match decode_rgb8(bytes) {
        Ok((width, height, samples)) => match AstraImage::from_raw(width, height, samples) {
            Some(image) => Ok(image),
            None => Err(
                WallpaperGeneratorError::ImageGeneration(
                    String::from_str("decoded image does not fill its dimensions"),
                ),
            ),
        },
        Err(message) => Err(WallpaperGeneratorError::ImageGeneration(message)),
    }
}

/// What decoding makes of each of `downloads`, in order.
pub open spec fn decoded_rasters(downloads: Seq<Vec<u8>>) -> Seq<(nat, nat, Seq<u8>)> {
    Seq::new(downloads.len(), |i: int| spec_decoded_raster(downloads[i]@).unwrap())
}

/// Every one of `downloads` is an image.
pub open spec fn all_decode(downloads: Seq<Vec<u8>>) -> bool {
    forall|i: int| 0 <= i < downloads.len() ==> spec_decoded_raster(#[trigger] downloads[i]@) is Some
}

/// `themes` is what the selector compares images with: the averages of the
/// user's themes where an image is matched with them, nothing otherwise.
pub open spec fn are_selector_themes(config: Config, themes: Seq<[u8; 3]>) -> bool {
    if spec_respects_themes(config) {
        are_theme_averages(config, themes)
    } else {
        themes.len() == 0
    }
}

/// Turns the downloaded files into the wallpaper. `downloads` holds the
/// files of the addresses that `downloads_wanted` asked for, in order.
///
/// Every file has to decode; the selector then returns the first image, or
/// the one closest to a user theme where the configuration asks for that.
pub fn select_spotlight_image(config: &Config, downloads: &Vec<Vec<u8>>) -> (out: Result<
    AstraImage,
    WallpaperGeneratorError,
>)
    ensures
        out matches Ok(image) ==> all_decode(downloads@) && exists|themes: Seq<[u8; 3]>| #[trigger]
            are_selector_themes(*config, themes) && match spotlight_choice(
                spec_respects_themes(*config),
                themes,
                decoded_rasters(downloads@),
            ) {
                Some(kept) => image.raster() == decoded_rasters(downloads@)[kept],
                None => false,
            },
        out matches Err(e) ==> e matches WallpaperGeneratorError::ImageGeneration(_),
        out is Ok <==> downloads@.len() > 0 && all_decode(downloads@) && (spec_respects_themes(
            *config,
        ) ==> themes_fit(*config)),
{
    let matching = respects_themes(config);
    let theme_averages = if matching {
        compute_user_theme_averages(config)?
    } else {
        Vec::new()
    };
    assert(are_selector_themes(*config, theme_averages@));
    let mut images: Vec<AstraImage> = Vec::new();
    let mut i: usize = 0;
    while i < downloads.len()
        invariant
            i <= downloads@.len(),
            images@.len() == i,
            forall|j: int|
                0 <= j < i ==> Some((#[trigger] images@[j]).raster()) == spec_decoded_raster(
                    downloads@[j]@,
                ),
        decreases downloads.len() - i,
    {
        let image = decode_image(&downloads[i])?;
        images.push(image);
        i = i + 1;
    }
    let ghost decoded = images@;
    proof {
        assert(all_decode(downloads@)) by {
            assert forall|j: int| 0 <= j < downloads@.len() implies spec_decoded_raster(
                #[trigger] downloads@[j]@,
            ) is Some by {
                assert(Some(decoded[j].raster()) == spec_decoded_raster(downloads@[j]@));
            }
        }
        assert(rasters_of(decoded) =~= decoded_rasters(downloads@)) by {
            assert forall|j: int| 0 <= j < decoded.len() implies rasters_of(decoded)[j]
                == decoded_rasters(downloads@)[j] by {
                assert(Some(decoded[j].raster()) == spec_decoded_raster(downloads@[j]@));
            }
        }
    }
    let out = choose_spotlight_image(matching, &theme_averages, images);
    proof {
        let rasters = decoded_rasters(downloads@);
        lemma_closest_is_first_minimum(raster_distances(theme_averages@, rasters));
        match spotlight_choice(matching, theme_averages@, rasters) {
            Some(kept) => {
                assert(rasters_of(decoded)[kept] == decoded[kept].raster());
            },
            None => {},
        }
    }
    out
}

} // verus!
