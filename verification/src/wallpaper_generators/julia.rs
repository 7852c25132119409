//! The Julia-set source: the palette, the choice of the parameter, the
//! passes of the hotspot sampler and the painting of the escape counts.
//!
//! The escape-time iteration itself is floating-point work and is done by
//! the caller; this module decides where to sample, when to stop, and how
//! counts become pixels.

use super::utils::{create_color_map, palette_channel, AstraImage, Operator, WallpaperGeneratorError};
use crate::configuration::Config;
use crate::random::random_below;
use crate::themes::{is_builtin, ColorTheme, ColorThemes, ThemeSelector, THEME_COUNT};
use vstd::prelude::*;
use vstd::string::StringExecFns;

verus! {

/// The number of entries of a palette: one for each escape count.
pub const PALETTE_SIZE: usize = 256;

/// The number of passes after which the sampler gives up.
pub const MAX_PASSES: u32 = 15;

/// The threshold of the first pass where the configuration names none.
pub const DEFAULT_THRESHOLD: u8 = 200;

/// The thirteen built-in parameters `c`, each as the IEEE 754 binary64 bit
/// patterns of its real and imaginary part.
pub open spec fn spec_builtin_complex_numbers() -> Seq<(u64, u64)> {
    seq![
        (0xbfe947ae147ae148u64, 0x3fc3333333333333u64),
        (0x3fd1eb851eb851ecu64, 0x3f80624dd2f1a9fcu64),
        (0xbff79db22d0e5604u64, 0x0000000000000000u64),
        (0xbfbeb851eb851eb8u64, 0xbfe8a3d70a3d70a4u64),
        (0xbfe674d1633482bfu64, 0xbfd896bb98c7e282u64),
        (0xbfd999999999999au64, 0x3fe3333333333333u64),
        (0x3fd23d70a3d70a3du64, 0x3f847ae147ae147bu64),
        (0xbfeab851eb851eb8u64, 0x3fcdb573eab367a1u64),
        (0xbfe742c3c9eecbfbu64, 0x3fc82de00d1b7176u64),
        (0x3fd999999999999au64, 0x3fd999999999999au64),
        (0xbfc4bc6a7ef9db23u64, 0x3ff0a3d70a3d70a4u64),
        (0x3fd3333333333333u64, 0xbf847ae147ae147bu64),
        (0x0000000000000000u64, 0x3fe999999999999au64),
    ]
}

/// The thirteen built-in parameters `c`.
pub fn builtin_complex_numbers() -> (out: Vec<(u64, u64)>)
    ensures
        out@ == spec_builtin_complex_numbers(),
        out@.len() == 13,
{
    let out = vec![
        // re = -79/100, im = 15/100
        (0xbfe947ae147ae148, 0x3fc3333333333333),
        // re = 28/100, im = 8/1000
        (0x3fd1eb851eb851ec, 0x3f80624dd2f1a9fc),
        // re = -1476/1000, im = 0
        (0xbff79db22d0e5604, 0x0000000000000000),
        // re = -12/100, im = -77/100
        (0xbfbeb851eb851eb8, 0xbfe8a3d70a3d70a4),
        // re = -70176/100000, im = -3842/10000
        (0xbfe674d1633482bf, 0xbfd896bb98c7e282),
        // re = -4/10, im = 6/10
        (0xbfd999999999999a, 0x3fe3333333333333),
        // re = 285/1000, im = 1/100
        (0x3fd23d70a3d70a3d, 0x3f847ae147ae147b),
        // re = -835/1000, im = 2321/10000
        (0xbfeab851eb851eb8, 0x3fcdb573eab367a1),
        // re = -7269/10000, im = 1889/10000
        (0xbfe742c3c9eecbfb, 0x3fc82de00d1b7176),
        // re = 4/10, im = 4/10
        (0x3fd999999999999a, 0x3fd999999999999a),
        // re = -162/1000, im = 104/100
        (0xbfc4bc6a7ef9db23, 0x3ff0a3d70a3d70a4),
        // re = 3/10, im = -1/100
        (0x3fd3333333333333, 0xbf847ae147ae147b),
        // re = 0, im = 8/10
        (0x0000000000000000, 0x3fe999999999999a),
    ];
    assert(out@ =~= spec_builtin_complex_numbers());
    out
}

/// The parameters that the configuration puts in place of the built-in
/// ones: those of an unattended run whose list is not empty.
pub open spec fn configured_complex_numbers(config: Config) -> Option<Seq<(u64, u64)>> {
    if config.respect_user_config && config.spec_julia_gen() is Some
        && config.spec_julia_gen().unwrap().complex_numbers is Some
        && config.spec_julia_gen().unwrap().complex_numbers.unwrap()@.len() > 0 {
        Some(config.spec_julia_gen().unwrap().complex_numbers.unwrap()@)
    } else {
        None
    }
}

/// The parameters among which one is drawn: the configured ones where there
/// are any, the built-in ones otherwise.
pub fn complex_candidates(config: &Config) -> (out: Vec<(u64, u64)>)
    ensures
        out@.len() > 0,
        out@ == match configured_complex_numbers(*config) {
            Some(numbers) => numbers,
            None => spec_builtin_complex_numbers(),
        },
{
    if config.respect_user_config {
        match config.julia_gen() {
            Some(julia) => match julia.complex_numbers() {
                Some(numbers) => {
                    if numbers.len() > 0 {
                        return numbers;
                    }
                },
                None => {},
            },
            None => {},
        }
    }
    builtin_complex_numbers()
}

/// Draws the parameter `c` from the candidates, each as likely as the
/// others.
pub fn pick_complex_number(candidates: &Vec<(u64, u64)>) -> (out: (u64, u64))
    requires
        candidates@.len() > 0,
    ensures
        exists|i: int| 0 <= i < candidates@.len() && out == #[trigger] candidates@[i],
{
    candidates[random_below(candidates.len())]
}

/// The threshold of the first pass: the configured one in an unattended
/// run, 200 otherwise.
pub open spec fn spec_starting_threshold(config: Config) -> u8 {
    if config.respect_user_config && config.spec_julia_gen() is Some
        && config.spec_julia_gen().unwrap().starting_sample_threshold is Some {
        config.spec_julia_gen().unwrap().starting_sample_threshold.unwrap()
    } else {
        DEFAULT_THRESHOLD
    }
}

/// The threshold of the first pass.
pub fn starting_threshold(config: &Config) -> (out: u8)
    ensures
        out == spec_starting_threshold(*config),
{
    if config.respect_user_config {
        match config.julia_gen() {
            Some(julia) => match julia.starting_sample_threshold() {
                Some(threshold) => threshold,
                None => DEFAULT_THRESHOLD,
            },
            None => DEFAULT_THRESHOLD,
        }
    } else {
        DEFAULT_THRESHOLD
    }
}

/// Whether the generator has to know the desktop's mode.
pub fn julia_needs_system_mode(config: &Config) -> (out: bool)
    ensures
        out == config.spec_appearance().spec_needs_system(),
{
    config.appearance().needs_system()
}

/// `palette` is the gradient of 256 entries over the anchors of `theme`.
pub open spec fn is_theme_palette(palette: Seq<[u8; 3]>, theme: ColorTheme, dark_mode: bool) -> bool {
    &&& palette.len() == PALETTE_SIZE
    &&& forall|i: int, ch: int|
        0 <= i < PALETTE_SIZE && 0 <= ch < 3 ==> #[trigger] palette[i][ch] == palette_channel(
            PALETTE_SIZE as nat,
            theme.spec_get_colors(dark_mode),
            i,
            ch,
        )
}

/// The palette of a theme: 256 entries from its first anchor to its last.
/// A theme without anchors has none.
pub fn theme_palette(theme: &ColorTheme, dark_mode: bool) -> (out: Option<Vec<[u8; 3]>>)
    ensures
        out is Some <==> theme.spec_get_colors(dark_mode).len() > 0,
        out matches Some(palette) ==> is_theme_palette(palette@, *theme, dark_mode),
{
    let colors = theme.get_colors(dark_mode);
    if colors.len() == 0 {
        None
    } else {
        Some(create_color_map(Operator::Gradient, PALETTE_SIZE, colors.as_slice()))
    }
}

/// The palette of a run: that of a built-in theme drawn by chance, in the
/// mode that the configuration and the desktop call for.
pub fn julia_palette(config: &Config, system_dark: bool) -> (out: Vec<[u8; 3]>)
    ensures
        exists|theme: ColorTheme, index: int|
            0 <= index < THEME_COUNT && is_builtin(theme, #[trigger] ColorThemes::at(index))
                && #[trigger] is_theme_palette(
                out@,
                theme,
                config.spec_appearance().spec_dark_mode(system_dark),
            ),
{
    let selector = ThemeSelector::random();
    let dark_mode = config.appearance().dark_mode(system_dark);
    // every built-in theme has five anchors in either mode
    let colors = selector.selected().get_colors(dark_mode);
    let palette = create_color_map(Operator::Gradient, PALETTE_SIZE, colors.as_slice());
    assert(is_theme_palette(palette@, selector.selected, dark_mode));
    palette
}

/// The width of the display over its height, rounded to the nearest
/// integer, halves upwards.
pub open spec fn aspect_ratio(width: nat, height: nat) -> nat
    recommends
        height > 0,
{
    (2 * width + height) / (2 * height)
}

/// `jitter` is a distance that a sample may lie from the corner of its
/// cell: less than half of the cell's extent, and nothing where half of it
/// is no whole pixel.
pub open spec fn is_jitter(jitter: nat, interval: nat) -> bool {
    if interval / 2 == 0 {
        jitter == 0
    } else {
        jitter < interval / 2
    }
}

/// The grid of one pass of the sampler over a display.
#[derive(Debug, PartialEq)]
pub struct SampleGrid {
    rows: u64,
    columns: u64,
    x_interval: u32,
    y_interval: u32,
    width: u32,
    height: u32,
}

impl SampleGrid {
    #[verifier::type_invariant]
    spec fn well_formed(self) -> bool {
        &&& 1 <= self.rows <= 150
        &&& 1 <= self.columns <= 0x1_0000_0000 * 150
        &&& self.x_interval as nat * self.columns as nat <= self.width
        &&& self.y_interval as nat * self.rows as nat <= self.height
    }

    /// The number of cells from top to bottom.
    pub closed spec fn spec_rows(self) -> nat {
        self.rows as nat
    }

    /// The number of cells from left to right.
    pub closed spec fn spec_columns(self) -> nat {
        self.columns as nat
    }

    /// The width of a cell in pixels.
    pub closed spec fn spec_x_interval(self) -> nat {
        self.x_interval as nat
    }

    /// The height of a cell in pixels.
    pub closed spec fn spec_y_interval(self) -> nat {
        self.y_interval as nat
    }

    /// The grid is that of pass `pass` on a display of `width` by `height`:
    /// ten more rows with every pass, `aspect_ratio` times as many columns
    /// as rows, and cells that divide the display evenly.
    pub open spec fn is_grid_of(self, width: u32, height: u32, pass: u32) -> bool {
        &&& self.spec_rows() == 10 * (pass + 1)
        &&& self.spec_columns() == aspect_ratio(width as nat, height as nat) * self.spec_rows()
        &&& self.spec_x_interval() == width as nat / self.spec_columns()
        &&& self.spec_y_interval() == height as nat / self.spec_rows()
    }

    /// The number of cells.
    pub open spec fn spec_cells(self) -> nat {
        self.spec_rows() * self.spec_columns()
    }

    /// The pixel sampled in cell `cell`, `jitter_x` to the right of and
    /// `jitter_y` below the cell's corner. Cells are counted row by row.
    pub open spec fn spec_point(self, cell: nat, jitter_x: nat, jitter_y: nat) -> (nat, nat) {
        (
            self.spec_x_interval() * (cell % self.spec_columns()) + jitter_x,
            self.spec_y_interval() * (cell / self.spec_columns()) + jitter_y,
        )
    }

    /// The number of cells.
    pub fn cells(&self) -> (out: u64)
        ensures
            out as nat == self.spec_cells(),
            self.spec_columns() > 0,
    {
        proof {
            use_type_invariant(self);
        }
        assert(self.rows * self.columns <= 150 * (0x1_0000_0000 * 150)) by (nonlinear_arith)
            requires
                self.rows <= 150,
                self.columns <= 0x1_0000_0000 * 150,
        ;
        self.rows * self.columns
    }

    /// The pixel sampled in cell `cell` for the given jitter, which may be
    /// up to half a cell either way.
    pub fn point(&self, cell: u64, jitter_x: u32, jitter_y: u32) -> (out: (u32, u32))
        requires
            cell < self.spec_cells(),
            jitter_x <= self.spec_x_interval() / 2,
            jitter_y <= self.spec_y_interval() / 2,
        ensures
            (out.0 as nat, out.1 as nat) == self.spec_point(
                cell as nat,
                jitter_x as nat,
                jitter_y as nat,
            ),
    {
        proof {
            use_type_invariant(self);
        }
        let column = cell % self.columns;
        let row = cell / self.columns;
        let xi = self.x_interval as u64;
        let yi = self.y_interval as u64;
        proof {
            let columns = self.columns as int;
            let rows = self.rows as int;
            assert(row < rows) by (nonlinear_arith)
                requires
                    row == cell as int / columns,
                    cell < rows * columns,
                    columns > 0,
            ;
            assert(xi * column + xi <= xi * columns) by (nonlinear_arith)
                requires
                    column < columns,
                    xi >= 0,
            ;
            assert(yi * row + yi <= yi * rows) by (nonlinear_arith)
                requires
                    row < rows,
                    yi >= 0,
            ;
        }
        ((xi * column + jitter_x as u64) as u32, (yi * row + jitter_y as u64) as u32)
    }

    /// Draws the pixel to sample in cell `cell`: somewhere in the upper left
    /// quarter of the cell. `None` for a cell that the grid does not have.
    pub fn sample(&self, cell: u64) -> (out: Option<(u32, u32)>)
        ensures
            out is Some <==> cell < self.spec_cells(),
            out matches Some(pixel) ==> exists|jitter_x: nat, jitter_y: nat|
                is_jitter(jitter_x, self.spec_x_interval()) && is_jitter(
                    jitter_y,
                    self.spec_y_interval(),
                ) && (pixel.0 as nat, pixel.1 as nat) == #[trigger] self.spec_point(
                    cell as nat,
                    jitter_x,
                    jitter_y,
                ),
    {
        if cell >= self.cells() {
            return None;
        }
        let jitter_x = draw_jitter(self.x_interval);
        let jitter_y = draw_jitter(self.y_interval);
        let pixel = self.point(cell, jitter_x, jitter_y);
        assert(is_jitter(jitter_x as nat, self.spec_x_interval()) && is_jitter(
            jitter_y as nat,
            self.spec_y_interval(),
        ));
        assert((pixel.0 as nat, pixel.1 as nat) == self.spec_point(
            cell as nat,
            jitter_x as nat,
            jitter_y as nat,
        ));
        Some(pixel)
    }
}

/// Draws a jitter below half of `interval`; 0 where half of it is nothing.
fn draw_jitter(interval: u32) -> (out: u32)
    ensures
        is_jitter(out as nat, interval as nat),
{
    let half = interval / 2;
    if half == 0 {
        0
    } else {
        random_below(half as usize) as u32
    }
}

/// The grid of pass `pass` of the sampler. There is none after the last
/// pass, nor for a display without height or one so narrow that its aspect
/// ratio rounds to nothing.
pub fn sample_grid(width: u32, height: u32, pass: u32) -> (out: Option<SampleGrid>)
    ensures
        out is Some <==> pass < MAX_PASSES && height > 0 && aspect_ratio(
            width as nat,
            height as nat,
        ) >= 1,
        out matches Some(grid) ==> grid.is_grid_of(width, height, pass),
{
    if pass >= MAX_PASSES || height == 0 {
        return None;
    }
    let aspect: u64 = (2 * (width as u64) + height as u64) / (2 * (height as u64));
    if aspect == 0 {
        return None;
    }
    let rows: u64 = 10 * (pass as u64 + 1);
    assert(aspect <= 0x1_0000_0000) by (nonlinear_arith)
        requires
            aspect == (2 * (width as int) + height as int) / (2 * (height as int)),
            height >= 1,
            0 <= width <= 0xffff_ffff,
    ;
    assert(aspect * rows <= 0x1_0000_0000 * 150 && aspect * rows >= 1) by (nonlinear_arith)
        requires
            1 <= aspect <= 0x1_0000_0000,
            1 <= rows <= 150,
    ;
    let columns: u64 = aspect * rows;
    let x_interval: u64 = width as u64 / columns;
    let y_interval: u64 = height as u64 / rows;
    proof {
        assert(x_interval * columns <= width) by (nonlinear_arith)
            requires
                x_interval == width as int / columns as int,
                columns > 0,
        ;
        assert(y_interval * rows <= height) by (nonlinear_arith)
            requires
                y_interval == height as int / rows as int,
                rows > 0,
        ;
        assert(x_interval <= width) by (nonlinear_arith)
            requires
                x_interval * columns <= width,
                columns >= 1,
                x_interval >= 0,
        ;
        assert(y_interval <= height) by (nonlinear_arith)
            requires
                y_interval * rows <= height,
                rows >= 1,
                y_interval >= 0,
        ;
    }
    Some(
        SampleGrid {
            rows,
            columns,
            x_interval: x_interval as u32,
            y_interval: y_interval as u32,
            width,
            height,
        },
    )
}

/// The threshold of pass `pass` when the first pass starts at `start`: it
/// falls by a fifteenth of `start` with every pass.
pub open spec fn spec_pass_threshold(start: u8, pass: u32) -> int {
    start - pass * (start / 15)
}

/// The threshold of pass `pass`.
pub fn pass_threshold(start: u8, pass: u32) -> (out: u8)
    requires
        pass < MAX_PASSES,
    ensures
        out == spec_pass_threshold(start, pass),
{
    let decrease: u32 = (start / 15) as u32;
    assert(pass * decrease <= 14 * decrease) by (nonlinear_arith)
        requires
            pass <= 14,
            decrease >= 0,
    ;
    (start as u32 - pass * decrease) as u8
}

/// Whether a point that took `iterations` steps to escape counts as a
/// hotspot in a pass with the given threshold.
pub fn is_hotspot(iterations: u32, threshold: u8) -> (out: bool)
    ensures
        out == (iterations > threshold),
{
    iterations > threshold as u32
}

/// The pass that follows pass `pass` in which `found` hotspots were
/// recorded: the sampler stops as soon as a pass has found any, and after
/// fifteen passes; until then it goes on with a finer grid.
pub open spec fn spec_next_pass(pass: u32, found: nat) -> Option<u32> {
    if found == 0 && pass + 1 < MAX_PASSES {
        Some((pass + 1) as u32)
    } else {
        None
    }
}

/// The pass that follows pass `pass`, or `None` where sampling is over.
pub fn next_pass(pass: u32, found: usize) -> (out: Option<u32>)
    ensures
        out == spec_next_pass(pass, found as nat),
{
    if found == 0 && pass < MAX_PASSES - 1 {
        Some(pass + 1)
    } else {
        None
    }
}

/// A sampled pixel and the number of steps it took to escape.
#[derive(Debug, PartialEq, Eq, Clone, Copy, Structural)]
pub struct Hotspot {
    pub x: u32,
    pub y: u32,
    pub iterations: u32,
}

/// The hotspots are in the order of their iteration counts, highest first.
pub open spec fn is_descending(points: Seq<Hotspot>) -> bool {
    forall|i: int, j: int|
        0 <= i <= j < points.len() ==> (#[trigger] points[i]).iterations >= (
        #[trigger] points[j]).iterations
}

/// Orders hotspots by their iteration counts, highest first.
pub fn sort_hotspots(points: &Vec<Hotspot>) -> (out: Vec<Hotspot>)
    ensures
        is_descending(out@),
        out@.to_multiset() == points@.to_multiset(),
        out@.len() == points@.len(),
{
    let mut out: Vec<Hotspot> = Vec::new();
    let mut i: usize = 0;
    proof {
        assert(points@.take(0) =~= Seq::<Hotspot>::empty());
    }
    while i < points.len()
        invariant
            i <= points@.len(),
            out@.len() == i,
            is_descending(out@),
            out@.to_multiset() == points@.take(i as int).to_multiset(),
        decreases points.len() - i,
    {
        let point = points[i];
        let mut at: usize = 0;
        while at < out.len() && out[at].iterations >= point.iterations
            invariant
                at <= out@.len(),
                forall|k: int| 0 <= k < at ==> (#[trigger] out@[k]).iterations >= point.iterations,
            decreases out.len() - at,
        {
            at = at + 1;
        }
        let ghost before = out@;
        out.insert(at, point);
        proof {
            vstd::seq_lib::to_multiset_insert(before, at as int, point);
            vstd::seq_lib::to_multiset_build(points@.take(i as int), point);
            assert(points@.take(i + 1) =~= points@.take(i as int).push(point));
            assert forall|a: int, b: int| 0 <= a <= b < out@.len() implies (
            #[trigger] out@[a]).iterations >= (#[trigger] out@[b]).iterations by {
                if a < at && b > at {
                    assert(out@[a] == before[a]);
                    assert(out@[b] == before[b - 1]);
                    assert(before[at as int].iterations < point.iterations);
                    assert(before[at as int].iterations >= before[b - 1].iterations);
                } else if a < at && b < at {
                    assert(out@[a] == before[a] && out@[b] == before[b]);
                } else if a > at {
                    assert(out@[a] == before[a - 1] && out@[b] == before[b - 1]);
                } else if a == at && b > at {
                    assert(out@[b] == before[b - 1]);
                    assert(before[at as int].iterations >= before[b - 1].iterations);
                } else if b == at && a < at {
                    assert(out@[a] == before[a]);
                }
            }
        }
        i = i + 1;
    }
    proof {
        assert(points@.take(points@.len() as int) =~= points@);
    }
    out
}

/// Draws the hotspot to centre the image on, each as likely as the others.
/// Without any hotspot there is none, and the image is centred on the
/// origin without zoom.
pub fn choose_hotspot(points: &Vec<Hotspot>) -> (out: Option<Hotspot>)
    ensures
        out is Some <==> points@.len() > 0,
        out matches Some(point) ==> points@.contains(point),
{
    if points.len() == 0 {
        None
    } else {
        let index = random_below(points.len());
        Some(points[index])
    }
}

/// `image` shows the escape counts through the palette: it is `width` by
/// `height` pixels, and each pixel is the palette's entry for its count.
pub open spec fn is_painted(
    image: AstraImage,
    width: u32,
    height: u32,
    palette: Seq<[u8; 3]>,
    escape_counts: Seq<u8>,
) -> bool {
    &&& image.spec_width() == width
    &&& image.spec_height() == height
    &&& image.spec_samples().len() == 3 * escape_counts.len()
    &&& forall|i: int, ch: int|
        0 <= i < escape_counts.len() && 0 <= ch < 3 ==> #[trigger] image.channel(i, ch)
            == palette[escape_counts[i] as int][ch]
}

/// Paints the fractal: pixel `i` gets the palette's colour for the escape
/// count of pixel `i`. The counts have to be one for each pixel of the
/// display, row by row, and the palette has to hold 256 entries.
pub fn generate_julia_set(
    width: u32,
    height: u32,
    palette: &Vec<[u8; 3]>,
    escape_counts: &Vec<u8>,
) -> (out: Result<AstraImage, WallpaperGeneratorError>)
    ensures
        out is Ok <==> palette@.len() == PALETTE_SIZE && escape_counts@.len() == width as nat
            * height as nat,
        out matches Ok(image) ==> is_painted(image, width, height, palette@, escape_counts@),
        out matches Err(e) ==> e matches WallpaperGeneratorError::ImageGeneration(m) && m@ == (
        if palette@.len() != PALETTE_SIZE {
            "a palette holds 256 colours"@
        } else {
            "there has to be one escape count for each pixel"@
        }),
{
    if palette.len() != PALETTE_SIZE {
        return Err(
            WallpaperGeneratorError::ImageGeneration(
                String::from_str("a palette holds 256 colours"),
            ),
        );
    }
    let pixels: u64 = {
        assert((width as u64) * (height as u64) <= 0xffff_ffff * 0xffff_ffff) by (nonlinear_arith)
            requires
                width <= 0xffff_ffff,
                height <= 0xffff_ffff,
        ;
        (width as u64) * (height as u64)
    };
    if escape_counts.len() as u64 != pixels {
        return Err(
            WallpaperGeneratorError::ImageGeneration(
                String::from_str("there has to be one escape count for each pixel"),
            ),
        );
    }
    let mut samples: Vec<u8> = Vec::new();
    let mut i: usize = 0;
    while i < escape_counts.len()
        invariant
            i <= escape_counts@.len(),
            palette@.len() == PALETTE_SIZE,
            samples@.len() == 3 * i,
            forall|j: int, ch: int|
                0 <= j < i && 0 <= ch < 3 ==> #[trigger] samples@[3 * j + ch]
                    == palette@[escape_counts@[j] as int][ch],
        decreases escape_counts.len() - i,
    {
        let color = palette[escape_counts[i] as usize];
        samples.push(color[0]);
        samples.push(color[1]);
        samples.push(color[2]);
        i = i + 1;
    }
    match AstraImage::from_raw(width, height, samples) {
        Some(image) => Ok(image),
        None => Err(
            WallpaperGeneratorError::ImageGeneration(
                String::from_str("there has to be one escape count for each pixel"),
            ),
        ),
    }
}

} // verus!
