//! What the configuration says about each generator.

use crate::cli::{Generator, SolidMode};
use crate::text::{push_str, string_of};
use vstd::prelude::*;

pub mod julia;
mod solid;
mod spotlight;

pub use julia::{Appearance, JuliaConfig};
pub use solid::SolidConfig;
pub use spotlight::SpotlightConfig;

verus! {

/// The generators among which an unattended run chooses.
#[derive(Debug, PartialEq)]
pub struct Generators(pub Vec<Generator>);

impl Generators {
    /// The three generators, for a configuration that names none.
    pub fn all_generators() -> (out: Vec<Generator>)
        ensures
            out@ == seq![
                Generator::Julia,
                Generator::Solid { mode: SolidMode::Random },
                Generator::Spotlight,
            ],
    {
        let mut out: Vec<Generator> = Vec::new();
        out.push(Generator::Julia);
        out.push(Generator::Solid { mode: SolidMode::Random });
        out.push(Generator::Spotlight);
        assert(out@ =~= seq![
            Generator::Julia,
            Generator::Solid { mode: SolidMode::Random },
            Generator::Spotlight,
        ]);
        out
    }

    /// The prefixes of the first `count` of `generators`, with `, ` between
    /// them.
    pub open spec fn joined(generators: Seq<Generator>, count: int) -> Seq<char>
        decreases count,
    {
        if count <= 0 {
            Seq::empty()
        } else if count == 1 {
            generators[0].spec_prefix()
        } else {
            Generators::joined(generators, count - 1) + ", "@ + generators[count - 1].spec_prefix()
        }
    }

    /// Renders the list as the generators' prefixes with `, ` between them.
    pub fn to_string(&self) -> (out: String)
        ensures
            out@ == Generators::joined(self.0@, self.0@.len() as int),
    {
        let mut buf: Vec<char> = Vec::new();
        let mut i: usize = 0;
        while i < self.0.len()
            invariant
                i <= self.0@.len(),
                buf@ == Generators::joined(self.0@, i as int),
            decreases self.0.len() - i,
        {
            let ghost before = buf@;
            if i > 0 {
                push_str(&mut buf, ", ");
            }
            push_str(&mut buf, self.0[i].prefix());
            proof {
                if i == 0 {
                    assert(before + self.0@[0].spec_prefix() =~= self.0@[0].spec_prefix());
                }
            }
            i = i + 1;
        }
        string_of(&buf)
    }

    /// The configured generators, in the order they were written.
    pub fn as_vec(&self) -> (out: &Vec<Generator>)
        ensures
            *out == self.0,
    {
        &self.0
    }
}

/// A copy of `items`.
pub fn copy_vec<T: Copy>(items: &Vec<T>) -> (out: Vec<T>)
    ensures
        out@ == items@,
{
    let mut out: Vec<T> = Vec::new();
    let mut i: usize = 0;
    while i < items.len()
        invariant
            i <= items.len(),
            out@ == items@.take(i as int),
        decreases items.len() - i,
    {
        out.push(items[i]);
        assert(items@.take(i + 1) =~= items@.take(i as int).push(items[i as int]));
        i = i + 1;
    }
    assert(items@.take(items.len() as int) =~= items@);
    out
}

} // verus!
