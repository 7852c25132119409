//! The decisions of an unattended run.

use crate::cli::{Generator, SolidMode};
use crate::configuration::{Config, Generators};
use crate::random::random_below;
use vstd::prelude::*;

verus! {

/// A copy of `generator`.
pub fn copy_generator(generator: &Generator) -> (out: Generator)
    ensures
        out == *generator,
{
    match generator {
        Generator::Julia => Generator::Julia,
        Generator::Spotlight => Generator::Spotlight,
        Generator::Solid { mode } => Generator::Solid {
            mode: match mode {
                SolidMode::Random => SolidMode::Random,
                SolidMode::Rgb { r, g, b } => SolidMode::Rgb { r: *r, g: *g, b: *b },
                SolidMode::Color { name } => SolidMode::Color { name: *name },
            },
        },
    }
}

/// The generators among which an unattended run chooses: those of the
/// configuration where it names any, all three otherwise.
pub open spec fn spec_generator_candidates(config: Config) -> Seq<Generator> {
    match config.spec_generators() {
        Some(generators) if generators.0@.len() > 0 => generators.0@,
        _ => seq![
            Generator::Julia,
            Generator::Solid { mode: SolidMode::Random },
            Generator::Spotlight,
        ],
    }
}

/// The generators among which an unattended run chooses.
pub fn generator_candidates(config: &Config) -> (out: Vec<Generator>)
    ensures
        out@ == spec_generator_candidates(*config),
        out@.len() > 0,
{
    match config.generators() {
        Some(generators) => {
            if generators.0.len() > 0 {
                let mut out: Vec<Generator> = Vec::new();
                let mut i: usize = 0;
                while i < generators.0.len()
                    invariant
                        i <= generators.0@.len(),
                        out@ == generators.0@.take(i as int),
                    decreases generators.0.len() - i,
                {
                    out.push(copy_generator(&generators.0[i]));
                    assert(generators.0@.take(i + 1) =~= generators.0@.take(i as int).push(
                        generators.0@[i as int],
                    ));
                    i = i + 1;
                }
                assert(generators.0@.take(generators.0@.len() as int) =~= generators.0@);
                return out;
            }
        },
        None => {},
    }
    Generators::all_generators()
}

/// Draws the generator of an unattended run, each candidate as likely as
/// the others.
pub fn choose_generator(config: &Config) -> (out: Generator)
    ensures
        spec_generator_candidates(*config).contains(out),
{
    let candidates = generator_candidates(config);
    let index = random_below(candidates.len());
    copy_generator(&candidates[index])
}

/// The settings of an unattended run: the same, but with the configuration
/// file followed.
pub fn unattended(config: Config) -> (out: Config)
    ensures
        out.respect_user_config,
        out.verbose == config.verbose,
        out.user_config == config.user_config,
{
    Config { respect_user_config: true, verbose: config.verbose, user_config: config.user_config }
}

} // verus!
