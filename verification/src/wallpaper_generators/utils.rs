//! Rasters, palettes and colour averages.

use vstd::prelude::*;
use vstd::string::StringExecFns;

verus! {

/// What can go wrong while a wallpaper is made or stored.
#[derive(Debug, PartialEq)]
pub enum WallpaperGeneratorError {
    /// No image could be produced.
    ImageGeneration(String),
    /// The image could not be written.
    ImageSave,
    /// A request to the image service failed.
    Network(String),
    /// The operating system refused something.
    OS(String),
    /// An answer of the image service could not be read.
    Parse(String),
}

impl WallpaperGeneratorError {
    /// The line shown to the user for this error.
    pub open spec fn message(self) -> Seq<char> {
        match self {
            WallpaperGeneratorError::ImageGeneration(m) => "Image Generation Error: "@ + m@,
            WallpaperGeneratorError::ImageSave => "Failed to save image to file"@,
            WallpaperGeneratorError::Network(m) => "Network Error: "@ + m@,
            WallpaperGeneratorError::OS(m) => "OS Error: "@ + m@,
            WallpaperGeneratorError::Parse(m) => "Parse Error: "@ + m@,
        }
    }

    /// Renders the error as the line shown to the user.
    pub fn to_string(&self) -> (out: String)
        ensures
            out@ == self.message(),
    {
        match self {
            WallpaperGeneratorError::ImageGeneration(m) => String::from_str(
                "Image Generation Error: ",
            ).concat(m.as_str()),
            WallpaperGeneratorError::ImageSave => String::from_str("Failed to save image to file"),
            WallpaperGeneratorError::Network(m) => String::from_str("Network Error: ").concat(
                m.as_str(),
            ),
            WallpaperGeneratorError::OS(m) => String::from_str("OS Error: ").concat(m.as_str()),
            WallpaperGeneratorError::Parse(m) => String::from_str("Parse Error: ").concat(
                m.as_str(),
            ),
        }
    }
}

/// How a palette is laid out between its anchor colours.
#[derive(Debug, PartialEq, Eq, Clone, Copy, Structural)]
pub enum Operator {
    /// Straight lines from each anchor to the next.
    Gradient,
}

/// The channel value `part / whole` of the way from `a` to `b`, rounded to
/// the nearest integer, halves upwards.
pub open spec fn mix_channel(a: u8, b: u8, part: nat, whole: nat) -> u8
    recommends
        part < whole,
{
    ((2 * (a * (whole - part) + b * part) + whole) / (2 * whole as int)) as u8
}

/// The number of palette entries from one anchor to the next.
pub open spec fn palette_span(steps: nat, anchors: nat) -> nat
    recommends
        anchors >= 2,
        steps >= 1,
{
    let span = if steps == 0 {
        0
    } else {
        (steps - 1) / (anchors - 1)
    };
    if span < 1 {
        1
    } else {
        span as nat
    }
}

/// Channel `ch` of entry `i` of the palette of `steps` entries over `colors`.
///
/// One anchor gives a constant palette. Otherwise entry `i` lies in segment
/// `i / span`, between the anchor of that number and the next, `i % span`
/// parts of `span` along the way; from the last anchor's segment on, and in
/// the last entry, it is the last anchor.
pub open spec fn palette_channel(steps: nat, colors: Seq<[u8; 3]>, i: int, ch: int) -> u8
    recommends
        colors.len() >= 1,
        0 <= i < steps,
        0 <= ch < 3,
{
    let k = colors.len() as int;
    if k == 1 {
        colors[0][ch]
    } else {
        let span = palette_span(steps, colors.len()) as int;
        let segment = i / span;
        if i == steps - 1 || segment >= k - 1 {
            colors[k - 1][ch]
        } else {
            mix_channel(colors[segment][ch], colors[segment + 1][ch], (i % span) as nat, span as nat)
        }
    }
}

/// A palette of two or more entries starts at the first anchor and ends at
/// the last one.
pub proof fn lemma_palette_ends(steps: nat, colors: Seq<[u8; 3]>, ch: int)
    requires
        colors.len() >= 1,
        steps >= 2,
        0 <= ch < 3,
    ensures
        palette_channel(steps, colors, 0, ch) == colors[0][ch],
        palette_channel(steps, colors, steps - 1, ch) == colors[colors.len() - 1][ch],
{
    if colors.len() >= 2 {
        let span = palette_span(steps, colors.len());
        let a = colors[0][ch];
        let b = colors[1][ch];
        assert(0int / (span as int) == 0 && 0int % (span as int) == 0);
        assert((2 * (a * span) + span) / (2 * span as int) == a as int) by (nonlinear_arith)
            requires
                span >= 1,
                0 <= a,
        ;
        assert(a * (span - 0) + b * 0 == a * span) by (nonlinear_arith);
    }
}

/// Mixes two colours channel by channel, `part / whole` of the way from
/// `color1` to `color2`.
pub fn mix_color(color1: [u8; 3], color2: [u8; 3], part: usize, whole: usize) -> (out: [u8; 3])
    requires
        part < whole,
    ensures
        forall|ch: int| 0 <= ch < 3 ==> out[ch] == mix_channel(color1[ch], color2[ch], part as nat, whole as nat),
{
    let r = mix_one(color1[0], color2[0], part, whole);
    let g = mix_one(color1[1], color2[1], part, whole);
    let b = mix_one(color1[2], color2[2], part, whole);
    [r, g, b]
}

fn mix_one(a: u8, b: u8, part: usize, whole: usize) -> (out: u8)
    requires
        part < whole,
    ensures
        out == mix_channel(a, b, part as nat, whole as nat),
{
    let w: u128 = whole as u128;
    let p: u128 = part as u128;
    let x: u128 = a as u128;
    let y: u128 = b as u128;
    assert(x * (w - p) <= 255 * (w - p)) by (nonlinear_arith)
        requires
            x <= 255,
            p < w,
    ;
    assert(y * p <= 255 * p) by (nonlinear_arith)
        requires
            y <= 255,
            0 <= p,
    ;
    let weighted: u128 = x * (w - p) + y * p;
    let q: u128 = (2 * weighted + w) / (2 * w);
    assert(q <= 255) by (nonlinear_arith)
        requires
            q == (2 * weighted + w) / (2 * w),
            weighted <= 255 * w,
            w >= 1,
    ;
    q as u8
}

/// Builds the palette of `steps` entries over the anchor colours `colors`.
pub fn create_color_map(op: Operator, steps: usize, colors: &[[u8; 3]]) -> (out: Vec<[u8; 3]>)
    requires
        colors.len() >= 1,
    ensures
        out.len() == steps,
        forall|i: int, ch: int|
            0 <= i < steps && 0 <= ch < 3 ==> #[trigger] out[i][ch] == palette_channel(
                steps as nat,
                colors@,
                i,
                ch,
            ),
        steps >= 2 ==> out[0] == colors[0] && out[steps - 1] == colors[colors.len() - 1],
{
    let k = colors.len();
    let mut color_map: Vec<[u8; 3]> = Vec::with_capacity(steps);
    match op {
        Operator::Gradient => {
            let span: usize = if k == 1 {
                1
            } else {
                let raw = if steps == 0 {
                    0
                } else {
                    (steps - 1) / (k - 1)
                };
                if raw < 1 {
                    1
                } else {
                    raw
                }
            };
            let mut i: usize = 0;
            while i < steps
                invariant
                    i <= steps,
                    k == colors.len(),
                    k >= 1,
                    span >= 1,
                    k >= 2 ==> span == palette_span(steps as nat, k as nat),
                    color_map.len() == i,
                    forall|j: int, ch: int|
                        0 <= j < i && 0 <= ch < 3 ==> #[trigger] color_map[j][ch]
                            == palette_channel(steps as nat, colors@, j, ch),
                decreases steps - i,
            {
                let entry: [u8; 3] = if k == 1 {
                    colors[0]
                } else {
                    let segment = i / span;
                    if i == steps - 1 || segment >= k - 1 {
                        colors[k - 1]
                    } else {
                        mix_color(colors[segment], colors[segment + 1], i % span, span)
                    }
                };
                assert forall|ch: int| 0 <= ch < 3 implies entry[ch] == palette_channel(
                    steps as nat,
                    colors@,
                    i as int,
                    ch,
                ) by {}
                color_map.push(entry);
                i = i + 1;
            }
        },
    }
    proof {
        if steps >= 2 {
            let first = color_map[0];
            let last = color_map[steps - 1];
            assert forall|ch: int| 0 <= ch < 3 implies first[ch] == colors[0][ch] && last[ch]
                == colors[k - 1][ch] by {
                lemma_palette_ends(steps as nat, colors@, ch);
                assert(color_map[0][ch] == palette_channel(steps as nat, colors@, 0, ch));
                assert(color_map[steps - 1][ch] == palette_channel(
                    steps as nat,
                    colors@,
                    steps - 1,
                    ch,
                ));
            }
            assert(first@ =~= colors[0]@);
            assert(last@ =~= colors[k - 1]@);
        }
    }
    color_map
}

/// The sum of the squares of every third sample of `samples`, starting with
/// sample `ch`: the squares of one channel of an interleaved raster.
pub open spec fn sample_square_sum(samples: Seq<u8>, ch: int) -> nat
    decreases samples.len(),
{
    if samples.len() < 3 {
        0
    } else {
        let last = samples[samples.len() - 3 + ch] as nat;
        sample_square_sum(samples.take(samples.len() - 3), ch) + last * last
    }
}

/// The sum of the squares of channel `ch` over `colors`.
pub open spec fn square_sum(colors: Seq<[u8; 3]>, ch: int) -> nat
    decreases colors.len(),
{
    if colors.len() == 0 {
        0
    } else {
        let last = colors.last()[ch] as nat;
        square_sum(colors.drop_last(), ch) + last * last
    }
}

/// `root` is the square root of `sum / count` rounded to the nearest
/// integer, halves upwards; for no values at all it is 0.
pub open spec fn is_rounded_root(root: nat, sum: nat, count: nat) -> bool {
    if count == 0 {
        root == 0
    } else {
        &&& (root > 0 ==> (2 * root - 1) * (2 * root - 1) * count <= 4 * sum)
        &&& 4 * sum < (2 * root + 1) * (2 * root + 1) * count
    }
}

/// The rounded square root of `sum / count`.
pub open spec fn rounded_root(sum: nat, count: nat) -> nat {
    choose|root: nat| is_rounded_root(root, sum, count)
}

/// At most one number is the rounded root of a quotient.
pub proof fn lemma_rounded_root_unique(a: nat, b: nat, sum: nat, count: nat)
    requires
        is_rounded_root(a, sum, count),
        is_rounded_root(b, sum, count),
    ensures
        a == b,
        rounded_root(sum, count) == a,
{
    if count > 0 {
        if a < b {
            lemma_odd_square_order(a, b, count);
        }
        if b < a {
            lemma_odd_square_order(b, a, count);
        }
        let c = rounded_root(sum, count);
        if c < a {
            lemma_odd_square_order(c, a, count);
        }
        if a < c {
            lemma_odd_square_order(a, c, count);
        }
    }
}

proof fn lemma_odd_square_order(low: nat, high: nat, count: nat)
    requires
        low < high,
        count > 0,
    ensures
        (2 * low + 1) * (2 * low + 1) * count <= (2 * high - 1) * (2 * high - 1) * count,
{
    let x = 2 * low + 1;
    let y = 2 * high - 1;
    assert(x * x <= y * y) by (nonlinear_arith)
        requires
            0 <= x <= y,
    ;
    assert(x * x * count <= y * y * count) by (nonlinear_arith)
        requires
            x * x <= y * y,
            count > 0,
    ;
}

/// The quadratic mean of channel `ch` of `colors`, rounded.
pub open spec fn channel_mean(colors: Seq<[u8; 3]>, ch: int) -> nat {
    rounded_root(square_sum(colors, ch), colors.len())
}

/// The sum of squares does not depend on the order of the colours.
pub proof fn lemma_square_sum_permutation(a: Seq<[u8; 3]>, b: Seq<[u8; 3]>, ch: int)
    requires
        a.to_multiset() == b.to_multiset(),
    ensures
        a.len() == b.len(),
        square_sum(a, ch) == square_sum(b, ch),
        channel_mean(a, ch) == channel_mean(b, ch),
    decreases a.len(),
{
    vstd::seq_lib::to_multiset_len(a);
    vstd::seq_lib::to_multiset_len(b);
    if a.len() > 0 {
        let last = a.last();
        let init = a.drop_last();
        assert(a =~= init.push(last));
        vstd::seq_lib::to_multiset_build(init, last);
        vstd::seq_lib::to_multiset_contains(a, last);
        vstd::seq_lib::to_multiset_contains(b, last);
        assert(a.contains(last));
        let at = b.index_of(last);
        let shorter = b.remove(at);
        vstd::seq_lib::to_multiset_remove(b, at);
        assert(init.to_multiset() =~= a.to_multiset().remove(last));
        lemma_square_sum_permutation(init, shorter, ch);
        lemma_square_sum_remove(b, at, ch);
    }
}

/// Taking one colour out lowers the sum by the square of its channel.
proof fn lemma_square_sum_remove(colors: Seq<[u8; 3]>, at: int, ch: int)
    requires
        0 <= at < colors.len(),
    ensures
        square_sum(colors, ch) == square_sum(colors.remove(at), ch) + (colors[at][ch] as nat) * (
        colors[at][ch] as nat),
    decreases colors.len(),
{
    if at == colors.len() - 1 {
        assert(colors.remove(at) =~= colors.drop_last());
    } else {
        let init = colors.drop_last();
        lemma_square_sum_remove(init, at, ch);
        assert(colors.remove(at).drop_last() =~= init.remove(at));
        assert(colors.remove(at).last() == colors.last());
    }
}

/// The number of samples in an image of `width` by `height` pixels.
fn pixel_samples(width: u32, height: u32) -> (out: u128)
    ensures
        out == width as nat * height as nat * 3,
{
    let w: u128 = width as u128;
    let h: u128 = height as u128;
    assert(w * h <= 0xffff_ffff * 0xffff_ffff) by (nonlinear_arith)
        requires
            w <= 0xffff_ffff,
            h <= 0xffff_ffff,
    ;
    w * h * 3
}

/// An image of 24-bit pixels, stored row by row as red, green, blue.
#[derive(Debug, PartialEq)]
pub struct AstraImage {
    width: u32,
    height: u32,
    samples: Vec<u8>,
}

impl AstraImage {
    #[verifier::type_invariant]
    spec fn well_formed(self) -> bool {
        self.samples@.len() == self.width as nat * self.height as nat * 3
    }

    /// The number of pixels in a row.
    pub closed spec fn spec_width(&self) -> nat {
        self.width as nat
    }

    /// The number of rows.
    pub closed spec fn spec_height(&self) -> nat {
        self.height as nat
    }

    /// The samples of all pixels: three for each pixel, row by row.
    pub closed spec fn spec_samples(&self) -> Seq<u8> {
        self.samples@
    }

    /// The width, the height and the samples.
    pub open spec fn raster(&self) -> (nat, nat, Seq<u8>) {
        (self.spec_width(), self.spec_height(), self.spec_samples())
    }

    /// Channel `ch` of the pixel of number `i`, counted row by row.
    pub open spec fn channel(&self, i: int, ch: int) -> u8 {
        self.spec_samples()[3 * i + ch]
    }

    /// The number of pixels in a row.
    pub fn width(&self) -> (out: u32)
        ensures
            out as nat == self.spec_width(),
    {
        self.width
    }

    /// The number of rows.
    pub fn height(&self) -> (out: u32)
        ensures
            out as nat == self.spec_height(),
    {
        self.height
    }

    /// The samples of all pixels, to hand to an encoder.
    pub fn as_raw(&self) -> (out: &Vec<u8>)
        ensures
            out@ == self.spec_samples(),
            out@.len() == self.spec_width() * self.spec_height() * 3,
    {
        proof {
            use_type_invariant(self);
        }
        &self.samples
    }

    /// Wraps decoded samples. The buffer has to hold exactly three samples
    /// for each of the `width * height` pixels.
    pub fn from_raw(width: u32, height: u32, samples: Vec<u8>) -> (out: Option<AstraImage>)
        ensures
            out is Some <==> samples@.len() == width as nat * height as nat * 3,
            out matches Some(image) ==> image.spec_width() == width && image.spec_height()
                == height && image.spec_samples() == samples@,
    {
        let wanted: u128 = pixel_samples(width, height);
        if samples.len() as u128 == wanted {
            Some(AstraImage { width, height, samples })
        } else {
            None
        }
    }

    /// An image of one colour. It fails only where the samples cannot be
    /// counted in a `usize`.
    pub fn from_pixel(width: u32, height: u32, color: [u8; 3]) -> (out: Result<
        AstraImage,
        WallpaperGeneratorError,
    >)
        ensures
            out is Ok <==> width as nat * height as nat * 3 <= usize::MAX,
            out matches Ok(image) ==> image.spec_width() == width && image.spec_height() == height
                && image.spec_samples().len() == width as nat * height as nat * 3 && forall|
                i: int,
                ch: int,
            |
                0 <= i < width as nat * height as nat && 0 <= ch < 3 ==> #[trigger] image.channel(
                    i,
                    ch,
                ) == color[ch],
            out matches Err(e) ==> e matches WallpaperGeneratorError::ImageGeneration(m) && m@
                == "image dimensions are too large"@,
    {
        let wanted: u128 = pixel_samples(width, height);
        if wanted > usize::MAX as u128 {
            return Err(
                WallpaperGeneratorError::ImageGeneration(
                    String::from_str("image dimensions are too large"),
                ),
            );
        }
        let pixels: usize = (wanted / 3) as usize;
        let mut samples: Vec<u8> = Vec::new();
        let mut i: usize = 0;
        while i < pixels
            invariant
                i <= pixels,
                pixels * 3 == wanted,
                samples@.len() == 3 * i,
                forall|j: int, ch: int|
                    0 <= j < i && 0 <= ch < 3 ==> #[trigger] samples@[3 * j + ch] == color[ch],
            decreases pixels - i,
        {
            samples.push(color[0]);
            samples.push(color[1]);
            samples.push(color[2]);
            i = i + 1;
        }
        Ok(AstraImage { width, height, samples })
    }
}

/// The rounded quadratic mean of channel `ch` of interleaved samples.
pub open spec fn raster_mean(samples: Seq<u8>, ch: int) -> nat {
    rounded_root(sample_square_sum(samples, ch), samples.len() / 3)
}

/// The average colour of an image: for each channel the quadratic mean of
/// its samples, rounded to the nearest integer.
pub fn average_color(image: &AstraImage) -> (out: [u8; 3])
    ensures
        forall|ch: int|
            0 <= ch < 3 ==> is_rounded_root(
                #[trigger] out[ch] as nat,
                sample_square_sum(image.spec_samples(), ch),
                image.spec_width() * image.spec_height(),
            ),
        forall|ch: int|
            0 <= ch < 3 ==> #[trigger] out[ch] as nat == raster_mean(image.spec_samples(), ch),
{
    let samples = image.as_raw();
    let r = mean_of_channel(samples, 0);
    let g = mean_of_channel(samples, 1);
    let b = mean_of_channel(samples, 2);
    let out = [r, g, b];
    proof {
        assert forall|ch: int| 0 <= ch < 3 implies #[trigger] out[ch] as nat == raster_mean(
            samples@,
            ch,
        ) by {
            lemma_rounded_root_unique(
                out[ch] as nat,
                out[ch] as nat,
                sample_square_sum(samples@, ch),
                samples@.len() / 3,
            );
        }
    }
    out
}

/// The rounded quadratic mean of every third sample from sample `ch` on.
fn mean_of_channel(samples: &Vec<u8>, ch: usize) -> (out: u8)
    requires
        ch < 3,
        samples@.len() % 3 == 0,
    ensures
        is_rounded_root(
            out as nat,
            sample_square_sum(samples@, ch as int),
            (samples@.len() / 3) as nat,
        ),
{
    let count: usize = samples.len() / 3;
    let mut sum: u128 = 0;
    let mut i: usize = 0;
    while i < count
        invariant
            i <= count,
            count * 3 == samples@.len(),
            samples@.len() <= usize::MAX,
            ch < 3,
            sum as nat == sample_square_sum(samples@.take(3 * i), ch as int),
            sum <= 65025 * i,
        decreases count - i,
    {
        assert(3 * i + ch < samples@.len());
        let v: u128 = samples[3 * i + ch] as u128;
        proof {
            let next = samples@.take(3 * (i + 1));
            assert(next.take(next.len() - 3) =~= samples@.take(3 * i));
            assert(next[next.len() - 3 + ch] == samples@[3 * i + ch]);
            assert(v * v <= 65025) by (nonlinear_arith)
                requires
                    v <= 255,
            ;
        }
        sum = sum + v * v;
        i = i + 1;
    }
    proof {
        assert(samples@.take(3 * count) =~= samples@);
    }
    root_of_mean(sum, count)
}

/// The rounded square root of `sum / count`, for sums of squares of bytes.
fn root_of_mean(sum: u128, count: usize) -> (out: u8)
    requires
        sum <= 65025 * count,
    ensures
        is_rounded_root(out as nat, sum as nat, count as nat),
{
    if count == 0 {
        return 0;
    }
    let n: u128 = count as u128;
    let mut root: u128 = 0;
    loop
        invariant_except_break
            root <= 255,
            n == count,
            n >= 1,
            sum <= 65025 * n,
            root > 0 ==> (2 * root - 1) * (2 * root - 1) * n <= 4 * sum,
        ensures
            root <= 255,
            is_rounded_root(root as nat, sum as nat, count as nat),
        decreases 256 - root,
    {
        let odd: u128 = 2 * root + 1;
        assert(odd * odd <= 261121) by (nonlinear_arith)
            requires
                odd <= 511,
        ;
        assert(odd * odd * n <= 261121 * n) by (nonlinear_arith)
            requires
                odd * odd <= 261121,
                n >= 0,
        ;
        if 4 * sum < odd * odd * n {
            break ;
        }
        proof {
            if root == 255 {
                assert(odd * odd == 261121) by (nonlinear_arith)
                    requires
                        odd == 511,
                ;
                assert(false);
            }
        }
        root = root + 1;
    }
    root as u8
}

} // verus!
