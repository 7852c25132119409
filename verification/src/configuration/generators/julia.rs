use super::copy_vec;
use vstd::prelude::*;

verus! {

/// Which of a theme's two anchor lists to use.
#[derive(Copy, Clone, Debug, PartialEq, Eq, Structural)]
pub enum Appearance {
    /// Follow the desktop.
    Auto,
    Light,
    Dark,
}

impl Appearance {
    /// Whether the desktop has to be asked for its mode.
    pub open spec fn spec_needs_system(self) -> bool {
        self == Appearance::Auto
    }

    /// Whether the desktop has to be asked for its mode.
    pub fn needs_system(&self) -> (out: bool)
        ensures
            out == self.spec_needs_system(),
    {
        match self {
            Appearance::Auto => true,
            _ => false,
        }
    }

    /// Whether dark anchors are used, given the desktop's mode.
    pub open spec fn spec_dark_mode(self, system_dark: bool) -> bool {
        match self {
            Appearance::Auto => system_dark,
            Appearance::Light => false,
            Appearance::Dark => true,
        }
    }

    /// Whether dark anchors are used, given the desktop's mode.
    pub fn dark_mode(&self, system_dark: bool) -> (out: bool)
        ensures
            out == self.spec_dark_mode(system_dark),
    {
        match self {
            Appearance::Auto => system_dark,
            Appearance::Light => false,
            Appearance::Dark => true,
        }
    }
}

/// Overrides for the Julia generator.
///
/// A complex parameter is kept as the pair of the IEEE 754 binary64 bit
/// patterns of its real and imaginary parts, which is what `f64::to_bits`
/// gives and `f64::from_bits` takes.
#[derive(Debug, PartialEq)]
pub struct JuliaConfig {
    pub appearance: Option<Appearance>,
    pub complex_numbers: Option<Vec<(u64, u64)>>,
    /// Iterations that a point needs to count as a hotspot in the first pass.
    pub starting_sample_threshold: Option<u8>,
    pub respect_color_themes: Option<bool>,
}

impl JuliaConfig {
    pub fn appearance(&self) -> (out: Option<Appearance>)
        ensures
            out == self.appearance,
    {
        self.appearance
    }

    pub fn complex_numbers(&self) -> (out: Option<Vec<(u64, u64)>>)
        ensures
            out is Some <==> self.complex_numbers is Some,
            out matches Some(v) ==> v@ == self.complex_numbers.unwrap()@,
    {
        match &self.complex_numbers {
            Some(v) => Some(copy_vec(v)),
            None => None,
        }
    }

    pub fn starting_sample_threshold(&self) -> (out: Option<u8>)
        ensures
            out == self.starting_sample_threshold,
    {
        self.starting_sample_threshold
    }

    pub fn respect_color_themes(&self) -> (out: Option<bool>)
        ensures
            out == self.respect_color_themes,
    {
        self.respect_color_themes
    }
}

impl Default for JuliaConfig {
    fn default() -> (out: Self)
        ensures
            out.appearance is None,
            out.complex_numbers is None,
            out.starting_sample_threshold is None,
            out.respect_color_themes is None,
    {
        JuliaConfig {
            appearance: None,
            complex_numbers: None,
            starting_sample_threshold: None,
            respect_color_themes: None,
        }
    }
}

} // verus!
