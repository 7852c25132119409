use super::frequency::Frequency;
use super::generators::{Appearance, Generators, JuliaConfig, SolidConfig, SpotlightConfig};
use super::theme::ThemeConfigs;
use super::user_config::UserConfig;
use vstd::prelude::*;
use vstd::string::StringExecFns;

verus! {

/// What can go wrong with the configuration file and the values in it.
#[derive(Debug, PartialEq)]
pub enum ConfigError {
    /// The configuration directory could not be created.
    CreateDir(String),
    /// The configuration file could not be created.
    CreateFile(String),
    /// The file, or a value in it, is malformed.
    Parse(String),
}

impl ConfigError {
    /// The line shown to the user for this error.
    pub open spec fn message(self) -> Seq<char> {
        match self {
            ConfigError::CreateDir(m) => "Unable to create configuration directory: "@ + m@,
            ConfigError::CreateFile(m) => "Unable to create configuration file: "@ + m@,
            ConfigError::Parse(m) => "Unable to parse configuration file: "@ + m@,
        }
    }

    /// Renders the error as the line shown to the user.
    pub fn to_string(&self) -> (out: String)
        ensures
            out@ == self.message(),
    {
        match self {
            ConfigError::CreateDir(m) => String::from_str(
                "Unable to create configuration directory: ",
            ).concat(m.as_str()),
            ConfigError::CreateFile(m) => String::from_str(
                "Unable to create configuration file: ",
            ).concat(m.as_str()),
            ConfigError::Parse(m) => String::from_str(
                "Unable to parse configuration file: ",
            ).concat(m.as_str()),
        }
    }
}

/// The settings of one run: the command line's and the configuration file's.
#[derive(Debug, PartialEq)]
pub struct Config {
    /// Set for an unattended run, which follows the configuration file. A
    /// run that names its generator on the command line leaves it unset.
    pub respect_user_config: bool,
    pub verbose: bool,
    pub user_config: Option<UserConfig>,
}

impl Config {
    /// The settings of a run whose configuration file was read with the
    /// result `loaded`. A file that could not be understood counts as no
    /// file at all.
    pub fn new(verbose: bool, loaded: Result<UserConfig, ConfigError>) -> (out: Self)
        ensures
            !out.respect_user_config,
            out.verbose == verbose,
            out.user_config == loaded.ok(),
    {
        match loaded {
            Ok(user_config) => Self {
                respect_user_config: false,
                verbose,
                user_config: Some(user_config),
            },
            Err(_) => Self { respect_user_config: false, verbose, user_config: None },
        }
    }

    /// The warning that a verbose run owes the user about a configuration
    /// file that was set aside.
    pub open spec fn spec_load_warning(
        verbose: bool,
        loaded: Result<UserConfig, ConfigError>,
    ) -> Option<Seq<char>> {
        match loaded {
            Err(e) if verbose => Some(
                "WARN - ignoring configuration due to error(s): "@ + e.message(),
            ),
            _ => None,
        }
    }

    /// The warning that a verbose run owes the user about a configuration
    /// file that was set aside; a file that was understood gives none.
    pub fn load_warning(verbose: bool, loaded: &Result<UserConfig, ConfigError>) -> (out: Option<
        String,
    >)
        ensures
            out is Some <==> Config::spec_load_warning(verbose, *loaded) is Some,
            out matches Some(w) ==> w@ == Config::spec_load_warning(verbose, *loaded).unwrap(),
    {
        match loaded {
            Err(e) => {
                if verbose {
                    let text = e.to_string();
                    Some(
                        String::from_str("WARN - ignoring configuration due to error(s): ").concat(
                            text.as_str(),
                        ),
                    )
                } else {
                    None
                }
            },
            Ok(_) => None,
        }
    }

    pub fn verbose(&self) -> (out: bool)
        ensures
            out == self.verbose,
    {
        self.verbose
    }

    pub open spec fn spec_generators(&self) -> Option<Generators> {
        match self.user_config {
            Some(user_config) => user_config.generators,
            None => None,
        }
    }

    pub open spec fn spec_frequency(&self) -> Option<Frequency> {
        match self.user_config {
            Some(user_config) => user_config.frequency,
            None => None,
        }
    }

    pub open spec fn spec_auto_clean(&self) -> Option<Frequency> {
        match self.user_config {
            Some(user_config) => user_config.auto_clean,
            None => None,
        }
    }

    pub open spec fn spec_solid_gen(&self) -> Option<SolidConfig> {
        match self.user_config {
            Some(user_config) => user_config.solid_gen,
            None => None,
        }
    }

    pub open spec fn spec_julia_gen(&self) -> Option<JuliaConfig> {
        match self.user_config {
            Some(user_config) => user_config.julia_gen,
            None => None,
        }
    }

    pub open spec fn spec_spotlight_gen(&self) -> Option<SpotlightConfig> {
        match self.user_config {
            Some(user_config) => user_config.spotlight_gen,
            None => None,
        }
    }

    pub open spec fn spec_themes(&self) -> Option<ThemeConfigs> {
        match self.user_config {
            Some(user_config) => user_config.themes,
            None => None,
        }
    }

    pub fn generators(&self) -> (out: Option<&Generators>)
        ensures
            out is Some <==> self.spec_generators() is Some,
            out matches Some(g) ==> *g == self.spec_generators().unwrap(),
    {
        match &self.user_config {
            Some(user_config) => user_config.generators.as_ref(),
            None => None,
        }
    }

    pub fn frequency(&self) -> (out: Option<&Frequency>)
        ensures
            out is Some <==> self.spec_frequency() is Some,
            out matches Some(f) ==> *f == self.spec_frequency().unwrap(),
    {
        match &self.user_config {
            Some(user_config) => user_config.frequency.as_ref(),
            None => None,
        }
    }

    pub fn auto_clean(&self) -> (out: Option<&Frequency>)
        ensures
            out is Some <==> self.spec_auto_clean() is Some,
            out matches Some(f) ==> *f == self.spec_auto_clean().unwrap(),
    {
        match &self.user_config {
            Some(user_config) => user_config.auto_clean.as_ref(),
            None => None,
        }
    }

    pub fn solid_gen(&self) -> (out: Option<&SolidConfig>)
        ensures
            out is Some <==> self.spec_solid_gen() is Some,
            out matches Some(c) ==> *c == self.spec_solid_gen().unwrap(),
    {
        match &self.user_config {
            Some(user_config) => user_config.solid_gen.as_ref(),
            None => None,
        }
    }

    pub fn julia_gen(&self) -> (out: Option<&JuliaConfig>)
        ensures
            out is Some <==> self.spec_julia_gen() is Some,
            out matches Some(c) ==> *c == self.spec_julia_gen().unwrap(),
    {
        match &self.user_config {
            Some(user_config) => user_config.julia_gen.as_ref(),
            None => None,
        }
    }

    pub fn spotlight_gen(&self) -> (out: Option<&SpotlightConfig>)
        ensures
            out is Some <==> self.spec_spotlight_gen() is Some,
            out matches Some(c) ==> *c == self.spec_spotlight_gen().unwrap(),
    {
        match &self.user_config {
            Some(user_config) => user_config.spotlight_gen.as_ref(),
            None => None,
        }
    }

    pub fn themes(&self) -> (out: Option<&ThemeConfigs>)
        ensures
            out is Some <==> self.spec_themes() is Some,
            out matches Some(t) ==> *t == self.spec_themes().unwrap(),
    {
        match &self.user_config {
            Some(user_config) => user_config.themes.as_ref(),
            None => None,
        }
    }

    /// The user's themes, when the configuration holds at least one.
    pub open spec fn spec_user_themes(&self) -> Option<ThemeConfigs> {
        match self.spec_themes() {
            Some(themes) if themes.0@.len() > 0 => Some(themes),
            _ => None,
        }
    }

    /// The user's themes, when the configuration holds at least one.
    pub fn user_themes(&self) -> (out: Option<&ThemeConfigs>)
        ensures
            out is Some <==> self.spec_user_themes() is Some,
            out matches Some(t) ==> *t == self.spec_user_themes().unwrap() && t.0@.len() > 0,
    {
        match self.themes() {
            Some(themes) => {
                if themes.0.len() > 0 {
                    Some(themes)
                } else {
                    None
                }
            },
            None => None,
        }
    }

    /// The appearance that generators follow: the configured one in an
    /// unattended run, the desktop's otherwise.
    pub open spec fn spec_appearance(&self) -> Appearance {
        if self.respect_user_config && self.spec_julia_gen() is Some
            && self.spec_julia_gen().unwrap().appearance is Some {
            self.spec_julia_gen().unwrap().appearance.unwrap()
        } else {
            Appearance::Auto
        }
    }

    /// The appearance that generators follow.
    pub fn appearance(&self) -> (out: Appearance)
        ensures
            out == self.spec_appearance(),
    {
        if self.respect_user_config {
            match self.julia_gen() {
                Some(julia) => match julia.appearance() {
                    Some(appearance) => appearance,
                    None => Appearance::Auto,
                },
                None => Appearance::Auto,
            }
        } else {
            Appearance::Auto
        }
    }
}

/// A configuration file that holds nothing yields settings in which every
/// field is absent, and no warning.
pub proof fn lemma_empty_file_is_silent(verbose: bool, user_config: UserConfig, config: Config)
    requires
        user_config.is_empty(),
        config.user_config == Some(user_config),
    ensures
        Config::spec_load_warning(verbose, Ok(user_config)) is None,
        config.spec_auto_clean() is None,
        config.spec_frequency() is None,
        config.spec_generators() is None,
        config.spec_julia_gen() is None,
        config.spec_solid_gen() is None,
        config.spec_spotlight_gen() is None,
        config.spec_themes() is None,
{
}

} // verus!
