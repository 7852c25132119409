use super::copy_vec;
use crate::wallpaper_generators::Color;
use vstd::prelude::*;

verus! {

/// Overrides for the solid-colour generator.
#[derive(Debug, PartialEq)]
pub struct SolidConfig {
    pub preferred_default_colors: Option<Vec<Color>>,
    pub preferred_rgb_colors: Option<Vec<(u8, u8, u8)>>,
    /// Fill with the average colour of a theme instead.
    pub respect_color_themes: Option<bool>,
}

impl SolidConfig {
    pub fn preferred_default_colors(&self) -> (out: Option<Vec<Color>>)
        ensures
            out is Some <==> self.preferred_default_colors is Some,
            out matches Some(v) ==> v@ == self.preferred_default_colors.unwrap()@,
    {
        match &self.preferred_default_colors {
            Some(v) => Some(copy_vec(v)),
            None => None,
        }
    }

    pub fn preferred_rgb_colors(&self) -> (out: Option<Vec<(u8, u8, u8)>>)
        ensures
            out is Some <==> self.preferred_rgb_colors is Some,
            out matches Some(v) ==> v@ == self.preferred_rgb_colors.unwrap()@,
    {
        match &self.preferred_rgb_colors {
            Some(v) => Some(copy_vec(v)),
            None => None,
        }
    }

    pub fn respect_color_themes(&self) -> (out: Option<bool>)
        ensures
            out == self.respect_color_themes,
    {
        self.respect_color_themes
    }
}

impl Default for SolidConfig {
    fn default() -> (out: Self)
        ensures
            out.preferred_default_colors is None,
            out.preferred_rgb_colors is None,
            out.respect_color_themes is None,
    {
        SolidConfig {
            preferred_default_colors: None,
            preferred_rgb_colors: None,
            respect_color_themes: None,
        }
    }
}

} // verus!
