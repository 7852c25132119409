use crate::wallpaper_generators::{
    average_color, channel_mean, lemma_rounded_root_unique, lemma_square_sum_permutation,
    sample_square_sum, square_sum, AstraImage,
};
use crate::text::{decimal, push_decimal, push_str, string_of};
use vstd::prelude::*;
use vstd::string::StringExecFns;

verus! {

/// What can go wrong while a theme's average colour is computed.
#[derive(Debug, PartialEq)]
pub enum ColorThemeError {
    /// The colours could not be laid out as an image.
    ImageGeneration(String),
}

impl ColorThemeError {
    /// The line shown to the user for this error.
    pub open spec fn message(self) -> Seq<char> {
        match self {
            ColorThemeError::ImageGeneration(m) => "Image generation error: "@ + m@,
        }
    }

    /// Renders the error as the line shown to the user.
    pub fn to_string(&self) -> (out: String)
        ensures
            out@ == self.message(),
    {
        match self {
            ColorThemeError::ImageGeneration(m) => String::from_str(
                "Image generation error: ",
            ).concat(m.as_str()),
        }
    }
}

/// A named list of anchor colours, with an optional list for dark mode.
#[derive(Debug, PartialEq)]
pub struct ColorTheme {
    pub name: String,
    pub supports_dark_mode: bool,
    pub colors: Vec<[u8; 3]>,
    pub colors_dark_mode: Option<Vec<[u8; 3]>>,
}

/// The squares of channel `ch` add up to the same sum whether the colours
/// are taken as a list or as the samples of a one-row image.
proof fn lemma_samples_of_colors(samples: Seq<u8>, colors: Seq<[u8; 3]>, ch: int)
    requires
        0 <= ch < 3,
        samples.len() == 3 * colors.len(),
        forall|j: int, c: int|
            0 <= j < colors.len() && 0 <= c < 3 ==> #[trigger] samples[3 * j + c] == colors[j][c],
    ensures
        sample_square_sum(samples, ch) == square_sum(colors, ch),
    decreases colors.len(),
{
    if colors.len() > 0 {
        let fewer = samples.take(samples.len() - 3);
        let init = colors.drop_last();
        assert forall|j: int, c: int| 0 <= j < init.len() && 0 <= c < 3 implies #[trigger] fewer[3
            * j + c] == init[j][c] by {
            assert(fewer[3 * j + c] == samples[3 * j + c]);
        }
        lemma_samples_of_colors(fewer, init, ch);
        assert(samples[3 * (colors.len() - 1) + ch] == colors[colors.len() - 1][ch]);
    }
}

/// The average colour of a list of anchors does not depend on their order.
pub proof fn lemma_average_ignores_order(a: Seq<[u8; 3]>, b: Seq<[u8; 3]>, ch: int)
    requires
        a.to_multiset() == b.to_multiset(),
    ensures
        channel_mean(a, ch) == channel_mean(b, ch),
{
    lemma_square_sum_permutation(a, b, ch);
}

impl ColorTheme {
    pub fn new(
        name: String,
        supports_dark_mode: bool,
        colors: Vec<[u8; 3]>,
        colors_dark_mode: Option<Vec<[u8; 3]>>,
    ) -> (out: Self)
        ensures
            out.name == name,
            out.supports_dark_mode == supports_dark_mode,
            out.colors == colors,
            out.colors_dark_mode == colors_dark_mode,
    {
        Self { name, supports_dark_mode, colors, colors_dark_mode }
    }

    /// The line that describes the theme: its name, whether it supports
    /// dark mode, and the number of its light anchors.
    pub open spec fn description(&self) -> Seq<char> {
        "Color Theme: "@ + self.name@ + ", supports dark mode: "@ + (if self.supports_dark_mode {
            "true"@
        } else {
            "false"@
        }) + ", color_count: "@ + decimal(self.colors@.len())
    }

    /// Renders the line that describes the theme.
    pub fn to_string(&self) -> (out: String)
        ensures
            out@ == self.description(),
    {
        let mut buf: Vec<char> = Vec::new();
        push_str(&mut buf, "Color Theme: ");
        push_str(&mut buf, self.name.as_str());
        push_str(&mut buf, ", supports dark mode: ");
        push_str(
            &mut buf,
            if self.supports_dark_mode {
                "true"
            } else {
                "false"
            },
        );
        push_str(&mut buf, ", color_count: ");
        push_decimal(&mut buf, self.colors.len() as u64);
        assert(buf@ =~= self.description());
        string_of(&buf)
    }

    /// The anchors for the given mode: the dark list when dark mode is asked
    /// for, the theme supports it and has such a list; the light list
    /// otherwise.
    pub open spec fn spec_get_colors(&self, dark_mode: bool) -> Seq<[u8; 3]> {
        if dark_mode && self.supports_dark_mode && self.colors_dark_mode is Some {
            self.colors_dark_mode.unwrap()@
        } else {
            self.colors@
        }
    }

    /// The anchors for the given mode.
    pub fn get_colors(&self, dark_mode: bool) -> (out: &Vec<[u8; 3]>)
        ensures
            out@ == self.spec_get_colors(dark_mode),
    {
        if dark_mode && self.supports_dark_mode {
            match &self.colors_dark_mode {
                Some(dark) => dark,
                None => &self.colors,
            }
        } else {
            &self.colors
        }
    }

    /// The average colour of the theme: per channel the quadratic mean of
    /// the anchors for the given mode, rounded to the nearest integer. The
    /// anchors are laid out as an image of one row, which fails when there
    /// are more of them than an image can be wide.
    pub fn average_color(&self, dark_mode: bool) -> (out: Result<[u8; 3], ColorThemeError>)
        ensures
            out is Ok <==> self.spec_get_colors(dark_mode).len() <= u32::MAX,
            out matches Ok(c) ==> forall|ch: int|
                0 <= ch < 3 ==> #[trigger] c[ch] as nat == channel_mean(
                    self.spec_get_colors(dark_mode),
                    ch,
                ),
            out matches Err(e) ==> e matches ColorThemeError::ImageGeneration(m) && m@
                == "Failed to create AstraImage"@,
    {
        let colors = self.get_colors(dark_mode);
        let count = colors.len();
        if count > u32::MAX as usize {
            return Err(
                ColorThemeError::ImageGeneration(String::from_str("Failed to create AstraImage")),
            );
        }
        let mut samples: Vec<u8> = Vec::new();
        let mut i: usize = 0;
        while i < count
            invariant
                i <= count == colors.len(),
                count <= u32::MAX,
                samples@.len() == 3 * i,
                forall|j: int, c: int|
                    0 <= j < i && 0 <= c < 3 ==> #[trigger] samples@[3 * j + c] == colors[j][c],
            decreases count - i,
        {
            let color = colors[i];
            samples.push(color[0]);
            samples.push(color[1]);
            samples.push(color[2]);
            i = i + 1;
        }
        let ghost flat = samples@;
        match AstraImage::from_raw(count as u32, 1, samples) {
            Some(image) => {
                let mean = average_color(&image);
                proof {
                    assert forall|ch: int| 0 <= ch < 3 implies #[trigger] mean[ch] as nat
                        == channel_mean(colors@, ch) by {
                        lemma_samples_of_colors(flat, colors@, ch);
                        lemma_rounded_root_unique(
                            mean[ch] as nat,
                            mean[ch] as nat,
                            square_sum(colors@, ch),
                            colors@.len(),
                        );
                    }
                }
                Ok(mean)
            },
            None => Err(
                ColorThemeError::ImageGeneration(String::from_str("Failed to create AstraImage")),
            ),
        }
    }
}

} // verus!
