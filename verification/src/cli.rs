//! The generators that the command line and the configuration can name.

use crate::text::{lowercase, lowercase_of, str_equal};
use crate::wallpaper_generators::Color;
use vstd::prelude::*;
use vstd::string::StringExecFns;

verus! {

/// How the solid generator picks its colour.
#[derive(Clone, Debug, PartialEq)]
pub enum SolidMode {
    /// One of the named colours.
    Color { name: Color },
    /// Three random bytes.
    Random,
    /// The given red, green and blue.
    Rgb { r: u8, g: u8, b: u8 },
}

/// A source of wallpapers.
#[derive(Clone, Debug, PartialEq)]
pub enum Generator {
    /// A Julia-set fractal.
    Julia,
    /// One colour over the whole display.
    Solid { mode: SolidMode },
    /// The photograph of the day.
    Spotlight,
}

impl Generator {
    /// The word in front of the timestamp in the names of saved wallpapers.
    pub open spec fn spec_prefix(self) -> Seq<char> {
        match self {
            Generator::Julia => "julia"@,
            Generator::Solid { mode } => "solid"@,
            Generator::Spotlight => "spotlight"@,
        }
    }

    /// The word in front of the timestamp in the names of saved wallpapers.
    pub fn prefix(&self) -> (out: &str)
        ensures
            out@ == self.spec_prefix(),
    {
        match self {
            Generator::Julia => "julia",
            Generator::Solid { mode: _ } => "solid",
            Generator::Spotlight => "spotlight",
        }
    }

    /// The generator that a lower-case name stands for: `julia`, `spotlight`
    /// or `solid` (with a random colour).
    pub open spec fn named(lowered: Seq<char>) -> Option<Generator> {
        if lowered == "julia"@ {
            Some(Generator::Julia)
        } else if lowered == "spotlight"@ {
            Some(Generator::Spotlight)
        } else if lowered == "solid"@ {
            Some(Generator::Solid { mode: SolidMode::Random })
        } else {
            None
        }
    }

    /// The message for a name that stands for no generator.
    pub open spec fn unknown_message(name: Seq<char>) -> Seq<char> {
        "Unknown generator type: "@ + name
    }

    /// Looks up a name that is already in lower case; `written` is the name
    /// as the user wrote it, for the error message.
    pub fn from_lowered(lowered: &str, written: &str) -> (out: Result<Generator, String>)
        ensures
            match out {
                Ok(g) => Generator::named(lowered@) == Some(g),
                Err(m) => Generator::named(lowered@) is None && m@ == Generator::unknown_message(
                    written@,
                ),
            },
    {
        if str_equal(lowered, "julia") {
            Ok(Generator::Julia)
        } else if str_equal(lowered, "spotlight") {
            Ok(Generator::Spotlight)
        } else if str_equal(lowered, "solid") {
            Ok(Generator::Solid { mode: SolidMode::Random })
        } else {
            Err(String::from_str("Unknown generator type: ").concat(written))
        }
    }

    /// Reads a generator name, ignoring case.
    pub fn from_str(s: &str) -> (out: Result<Generator, String>)
        ensures
            match out {
                Ok(g) => Generator::named(lowercase_of(s@)) == Some(g),
                Err(m) => Generator::named(lowercase_of(s@)) is None && m@
                    == Generator::unknown_message(s@),
            },
    {
        let lowered = lowercase(s);
        Generator::from_lowered(lowered.as_str(), s)
    }
}

} // verus!
