use vstd::prelude::*;

verus! {

/// Overrides for the Spotlight generator.
#[derive(Debug, PartialEq)]
pub struct SpotlightConfig {
    pub country: Option<String>,
    pub locale: Option<String>,
    /// Fetch several images and keep the one closest to a user theme.
    pub respect_color_themes: Option<bool>,
}

impl SpotlightConfig {
    pub fn country(&self) -> (out: Option<String>)
        ensures
            out is Some <==> self.country is Some,
            out matches Some(s) ==> s@ == self.country.unwrap()@,
    {
        match &self.country {
            Some(s) => Some(s.clone()),
            None => None,
        }
    }

    pub fn locale(&self) -> (out: Option<String>)
        ensures
            out is Some <==> self.locale is Some,
            out matches Some(s) ==> s@ == self.locale.unwrap()@,
    {
        match &self.locale {
            Some(s) => Some(s.clone()),
            None => None,
        }
    }

    pub fn respect_color_themes(&self) -> (out: Option<bool>)
        ensures
            out == self.respect_color_themes,
    {
        self.respect_color_themes
    }
}

impl Default for SpotlightConfig {
    fn default() -> (out: Self)
        ensures
            out.country is None,
            out.locale is None,
            out.respect_color_themes is None,
    {
        SpotlightConfig { country: None, locale: None, respect_color_themes: None }
    }
}

} // verus!
