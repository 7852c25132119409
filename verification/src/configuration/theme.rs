use crate::random::random_below;
use crate::themes::{ColorTheme, ThemeSelector};
use vstd::prelude::*;

verus! {

/// A theme as the configuration file writes it.
#[derive(Debug, PartialEq)]
pub struct ThemeConfig {
    pub name: String,
    pub colors: Vec<(u8, u8, u8)>,
    pub dark_mode_colors: Option<Vec<(u8, u8, u8)>>,
}

/// `arrays` holds the colours of `triples`, in the same order.
pub open spec fn same_colors(triples: Seq<(u8, u8, u8)>, arrays: Seq<[u8; 3]>) -> bool {
    &&& arrays.len() == triples.len()
    &&& forall|i: int|
        0 <= i < triples.len() ==> (#[trigger] arrays[i])[0] == triples[i].0 && arrays[i][1]
            == triples[i].1 && arrays[i][2] == triples[i].2
}

fn triples_to_arrays(triples: &Vec<(u8, u8, u8)>) -> (out: Vec<[u8; 3]>)
    ensures
        same_colors(triples@, out@),
{
    let mut out: Vec<[u8; 3]> = Vec::new();
    let mut i: usize = 0;
    while i < triples.len()
        invariant
            i <= triples.len(),
            same_colors(triples@.take(i as int), out@),
        decreases triples.len() - i,
    {
        let (r, g, b) = triples[i];
        out.push([r, g, b]);
        i = i + 1;
    }
    assert(triples@.take(triples.len() as int) =~= triples@);
    out
}

impl ThemeConfig {
    /// The colours of `triples` as arrays.
    pub open spec fn arrays_of(triples: Seq<(u8, u8, u8)>) -> Seq<[u8; 3]> {
        choose|arrays: Seq<[u8; 3]>| same_colors(triples, arrays)
    }

    /// There is one list of arrays for a list of triples.
    pub proof fn lemma_arrays_of(triples: Seq<(u8, u8, u8)>, arrays: Seq<[u8; 3]>)
        requires
            same_colors(triples, arrays),
        ensures
            ThemeConfig::arrays_of(triples) == arrays,
    {
        let chosen = ThemeConfig::arrays_of(triples);
        assert(same_colors(triples, chosen));
        assert forall|i: int| 0 <= i < arrays.len() implies chosen[i] == arrays[i] by {
            assert(chosen[i]@ =~= arrays[i]@);
        }
        assert(chosen =~= arrays);
    }

    pub fn name(&self) -> (out: &str)
        ensures
            out@ == self.name@,
    {
        self.name.as_str()
    }

    pub fn colors(&self) -> (out: &Vec<(u8, u8, u8)>)
        ensures
            *out == self.colors,
    {
        &self.colors
    }

    pub fn dark_mode_colors(&self) -> (out: &Option<Vec<(u8, u8, u8)>>)
        ensures
            *out == self.dark_mode_colors,
    {
        &self.dark_mode_colors
    }

    /// `theme` is this theme: the same name and colours, with dark mode
    /// supported exactly when dark colours are configured.
    pub open spec fn describes(&self, theme: ColorTheme) -> bool {
        &&& theme.name@ == self.name@
        &&& theme.supports_dark_mode == self.dark_mode_colors is Some
        &&& same_colors(self.colors@, theme.colors@)
        &&& theme.colors_dark_mode is Some <==> self.dark_mode_colors is Some
        &&& self.dark_mode_colors is Some ==> same_colors(
            self.dark_mode_colors.unwrap()@,
            theme.colors_dark_mode.unwrap()@,
        )
    }

    pub fn to_color_theme(&self) -> (out: ColorTheme)
        ensures
            self.describes(out),
    {
        let dark = match &self.dark_mode_colors {
            Some(colors) => Some(triples_to_arrays(colors)),
            None => None,
        };
        ColorTheme::new(
            self.name.clone(),
            self.dark_mode_colors.is_some(),
            triples_to_arrays(&self.colors),
            dark,
        )
    }

    pub fn to_theme_selector(&self) -> (out: ThemeSelector)
        ensures
            self.describes(out.selected),
    {
        ThemeSelector::from_color_theme(self.to_color_theme())
    }
}

/// The themes of the configuration file.
#[derive(Debug, PartialEq)]
pub struct ThemeConfigs(pub Vec<ThemeConfig>);

impl ThemeConfigs {
    /// One of the themes, each as likely as the others. There has to be one.
    pub fn random(&self) -> (out: &ThemeConfig)
        requires
            self.0@.len() > 0,
        ensures
            exists|i: int| 0 <= i < self.0@.len() && *out == #[trigger] self.0@[i],
    {
        let index = random_below(self.0.len());
        &self.0[index]
    }

    pub fn themes(&self) -> (out: &Vec<ThemeConfig>)
        ensures
            *out == self.0,
    {
        &self.0
    }
}

} // verus!
