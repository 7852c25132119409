use super::frequency::Frequency;
use super::generators::{Generators, JuliaConfig, SolidConfig, SpotlightConfig};
use super::theme::ThemeConfigs;
use vstd::prelude::*;

verus! {

/// What the configuration file holds. Every field may be absent.
#[derive(Debug, PartialEq)]
pub struct UserConfig {
    pub auto_clean: Option<Frequency>,
    pub frequency: Option<Frequency>,
    pub generators: Option<Generators>,
    pub julia_gen: Option<JuliaConfig>,
    pub solid_gen: Option<SolidConfig>,
    pub spotlight_gen: Option<SpotlightConfig>,
    pub themes: Option<ThemeConfigs>,
}

impl UserConfig {
    /// No field is present.
    pub open spec fn is_empty(&self) -> bool {
        &&& self.auto_clean is None
        &&& self.frequency is None
        &&& self.generators is None
        &&& self.julia_gen is None
        &&& self.solid_gen is None
        &&& self.spotlight_gen is None
        &&& self.themes is None
    }
}

impl Default for UserConfig {
    /// The configuration of an empty file: nothing is present.
    fn default() -> (out: Self)
        ensures
            out.is_empty(),
    {
        UserConfig {
            auto_clean: None,
            frequency: None,
            generators: None,
            julia_gen: None,
            solid_gen: None,
            spotlight_gen: None,
            themes: None,
        }
    }
}

} // verus!
