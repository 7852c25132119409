//! The ten themes that come with the library.

use super::color_theme::ColorTheme;
use vstd::prelude::*;
use vstd::string::StringExecFns;

verus! {

/// The number of built-in themes.
pub const THEME_COUNT: usize = 10;

/// The built-in themes, by name.
#[derive(Debug, PartialEq, Eq, Clone, Copy, Structural)]
pub enum ColorThemes {
    NeonDreams,
    AuroraGlow,
    CyberSunset,
    MysticForest,
    RetroPop,
    OceanBreeze,
    GalaxyVoyage,
    FireIce,
    CandyCrush,
    SunlitMeadow,
}

impl ColorThemes {
    /// The name that the theme is shown under.
    pub open spec fn title(self) -> Seq<char> {
        match self {
            ColorThemes::NeonDreams => "Neon Dreams"@,
            ColorThemes::AuroraGlow => "Aurora Glow"@,
            ColorThemes::CyberSunset => "Cyber Sunset"@,
            ColorThemes::MysticForest => "Mystic Forest"@,
            ColorThemes::RetroPop => "Retro Pop"@,
            ColorThemes::OceanBreeze => "Ocean Breeze"@,
            ColorThemes::GalaxyVoyage => "Galaxy Voyage"@,
            ColorThemes::FireIce => "Fire & Ice"@,
            ColorThemes::CandyCrush => "Candy Crush"@,
            ColorThemes::SunlitMeadow => "Sunlit Meadow"@,
        }
    }

    /// The anchors for light mode.
    pub open spec fn light(self) -> Seq<[u8; 3]> {
        match self {
            ColorThemes::NeonDreams => seq![
                [245u8, 245u8, 245u8],
                [58u8, 12u8, 163u8],
                [255u8, 0u8, 110u8],
                [0u8, 255u8, 183u8],
                [255u8, 221u8, 51u8],
            ],
            ColorThemes::AuroraGlow => seq![
                [250u8, 250u8, 255u8],
                [70u8, 130u8, 180u8],
                [144u8, 238u8, 144u8],
                [255u8, 105u8, 180u8],
                [255u8, 215u8, 0u8],
            ],
            ColorThemes::CyberSunset => seq![
                [255u8, 245u8, 235u8],
                [255u8, 87u8, 51u8],
                [255u8, 153u8, 51u8],
                [204u8, 0u8, 102u8],
                [255u8, 255u8, 102u8],
            ],
            ColorThemes::MysticForest => seq![
                [240u8, 255u8, 240u8],
                [34u8, 139u8, 34u8],
                [85u8, 107u8, 47u8],
                [189u8, 183u8, 107u8],
                [152u8, 251u8, 152u8],
            ],
            ColorThemes::RetroPop => seq![
                [255u8, 250u8, 240u8],
                [255u8, 69u8, 96u8],
                [255u8, 165u8, 0u8],
                [102u8, 205u8, 170u8],
                [147u8, 112u8, 219u8],
            ],
            ColorThemes::OceanBreeze => seq![
                [240u8, 255u8, 255u8],
                [0u8, 191u8, 255u8],
                [70u8, 130u8, 180u8],
                [32u8, 178u8, 170u8],
                [175u8, 238u8, 238u8],
            ],
            ColorThemes::GalaxyVoyage => seq![
                [245u8, 245u8, 255u8],
                [75u8, 0u8, 130u8],
                [138u8, 43u8, 226u8],
                [255u8, 20u8, 147u8],
                [240u8, 230u8, 140u8],
            ],
            ColorThemes::FireIce => seq![
                [255u8, 250u8, 255u8],
                [0u8, 191u8, 255u8],
                [135u8, 206u8, 250u8],
                [255u8, 69u8, 0u8],
                [255u8, 140u8, 0u8],
            ],
            ColorThemes::CandyCrush => seq![
                [255u8, 250u8, 250u8],
                [255u8, 99u8, 71u8],
                [255u8, 182u8, 193u8],
                [255u8, 160u8, 122u8],
                [255u8, 218u8, 185u8],
            ],
            ColorThemes::SunlitMeadow => seq![
                [250u8, 255u8, 245u8],
                [173u8, 255u8, 47u8],
                [124u8, 252u8, 0u8],
                [255u8, 222u8, 173u8],
                [255u8, 239u8, 213u8],
            ],
        }
    }

    /// The anchors for dark mode.
    pub open spec fn dark(self) -> Seq<[u8; 3]> {
        match self {
            ColorThemes::NeonDreams => seq![
                [10u8, 10u8, 30u8],
                [102u8, 0u8, 255u8],
                [255u8, 51u8, 153u8],
                [0u8, 204u8, 153u8],
                [255u8, 230u8, 80u8],
            ],
            ColorThemes::AuroraGlow => seq![
                [5u8, 5u8, 20u8],
                [30u8, 144u8, 255u8],
                [60u8, 179u8, 113u8],
                [255u8, 20u8, 147u8],
                [255u8, 140u8, 0u8],
            ],
            ColorThemes::CyberSunset => seq![
                [20u8, 10u8, 5u8],
                [255u8, 69u8, 0u8],
                [255u8, 120u8, 0u8],
                [153u8, 0u8, 76u8],
                [204u8, 204u8, 0u8],
            ],
            ColorThemes::MysticForest => seq![
                [5u8, 20u8, 5u8],
                [0u8, 100u8, 0u8],
                [46u8, 64u8, 33u8],
                [139u8, 139u8, 80u8],
                [0u8, 255u8, 127u8],
            ],
            ColorThemes::RetroPop => seq![
                [30u8, 10u8, 10u8],
                [255u8, 36u8, 66u8],
                [255u8, 120u8, 0u8],
                [72u8, 159u8, 139u8],
                [122u8, 88u8, 181u8],
            ],
            ColorThemes::OceanBreeze => seq![
                [10u8, 25u8, 30u8],
                [0u8, 139u8, 200u8],
                [50u8, 100u8, 160u8],
                [22u8, 128u8, 130u8],
                [100u8, 190u8, 190u8],
            ],
            ColorThemes::GalaxyVoyage => seq![
                [15u8, 10u8, 35u8],
                [148u8, 0u8, 211u8],
                [186u8, 85u8, 211u8],
                [255u8, 0u8, 127u8],
                [189u8, 183u8, 107u8],
            ],
            ColorThemes::FireIce => seq![
                [5u8, 5u8, 15u8],
                [0u8, 139u8, 200u8],
                [100u8, 149u8, 237u8],
                [255u8, 36u8, 0u8],
                [204u8, 102u8, 0u8],
            ],
            ColorThemes::CandyCrush => seq![
                [30u8, 10u8, 10u8],
                [220u8, 20u8, 60u8],
                [255u8, 105u8, 180u8],
                [210u8, 105u8, 30u8],
                [255u8, 160u8, 122u8],
            ],
            ColorThemes::SunlitMeadow => seq![
                [10u8, 20u8, 5u8],
                [154u8, 205u8, 50u8],
                [85u8, 139u8, 47u8],
                [210u8, 180u8, 140u8],
                [245u8, 222u8, 179u8],
            ],
        }
    }

    /// The theme of number `index` in the order of the declaration.
    pub open spec fn at(index: int) -> ColorThemes {
        if index == 0 {
            ColorThemes::NeonDreams
        } else if index == 1 {
            ColorThemes::AuroraGlow
        } else if index == 2 {
            ColorThemes::CyberSunset
        } else if index == 3 {
            ColorThemes::MysticForest
        } else if index == 4 {
            ColorThemes::RetroPop
        } else if index == 5 {
            ColorThemes::OceanBreeze
        } else if index == 6 {
            ColorThemes::GalaxyVoyage
        } else if index == 7 {
            ColorThemes::FireIce
        } else if index == 8 {
            ColorThemes::CandyCrush
        } else {
            ColorThemes::SunlitMeadow
        }
    }

    /// The theme of number `index` in the order of the declaration.
    pub fn from_index(index: usize) -> (out: ColorThemes)
        requires
            index < THEME_COUNT,
        ensures
            out == ColorThemes::at(index as int),
    {
        if index == 0 {
            ColorThemes::NeonDreams
        } else if index == 1 {
            ColorThemes::AuroraGlow
        } else if index == 2 {
            ColorThemes::CyberSunset
        } else if index == 3 {
            ColorThemes::MysticForest
        } else if index == 4 {
            ColorThemes::RetroPop
        } else if index == 5 {
            ColorThemes::OceanBreeze
        } else if index == 6 {
            ColorThemes::GalaxyVoyage
        } else if index == 7 {
            ColorThemes::FireIce
        } else if index == 8 {
            ColorThemes::CandyCrush
        } else {
            ColorThemes::SunlitMeadow
        }
    }
}

/// `theme` is the built-in theme `which`: it has its name, its five anchors
/// for light mode and its five anchors for dark mode.
pub open spec fn is_builtin(theme: ColorTheme, which: ColorThemes) -> bool {
    &&& theme.name@ == which.title()
    &&& theme.supports_dark_mode
    &&& theme.colors@ == which.light()
    &&& theme.colors_dark_mode is Some
    &&& theme.colors_dark_mode.unwrap()@ == which.dark()
}

pub fn theme_neon_dreams() -> (out: ColorTheme)
    ensures
        is_builtin(out, ColorThemes::NeonDreams),
{
    let light = vec![
        [245, 245, 245],
        [58, 12, 163],
        [255, 0, 110],
        [0, 255, 183],
        [255, 221, 51],
    ];
    let dark = vec![
        [10, 10, 30],
        [102, 0, 255],
        [255, 51, 153],
        [0, 204, 153],
        [255, 230, 80],
    ];
    assert(light@ =~= ColorThemes::NeonDreams.light());
    assert(dark@ =~= ColorThemes::NeonDreams.dark());
    ColorTheme::new(String::from_str("Neon Dreams"), true, light, Some(dark))
}

pub fn theme_aurora_glow() -> (out: ColorTheme)
    ensures
        is_builtin(out, ColorThemes::AuroraGlow),
{
    let light = vec![
        [250, 250, 255],
        [70, 130, 180],
        [144, 238, 144],
        [255, 105, 180],
        [255, 215, 0],
    ];
    let dark = vec![
        [5, 5, 20],
        [30, 144, 255],
        [60, 179, 113],
        [255, 20, 147],
        [255, 140, 0],
    ];
    assert(light@ =~= ColorThemes::AuroraGlow.light());
    assert(dark@ =~= ColorThemes::AuroraGlow.dark());
    ColorTheme::new(String::from_str("Aurora Glow"), true, light, Some(dark))
}

pub fn theme_cyber_sunset() -> (out: ColorTheme)
    ensures
        is_builtin(out, ColorThemes::CyberSunset),
{
    let light = vec![
        [255, 245, 235],
        [255, 87, 51],
        [255, 153, 51],
        [204, 0, 102],
        [255, 255, 102],
    ];
    let dark = vec![
        [20, 10, 5],
        [255, 69, 0],
        [255, 120, 0],
        [153, 0, 76],
        [204, 204, 0],
    ];
    assert(light@ =~= ColorThemes::CyberSunset.light());
    assert(dark@ =~= ColorThemes::CyberSunset.dark());
    ColorTheme::new(String::from_str("Cyber Sunset"), true, light, Some(dark))
}

pub fn theme_mystic_forest() -> (out: ColorTheme)
    ensures
        is_builtin(out, ColorThemes::MysticForest),
{
    let light = vec![
        [240, 255, 240],
        [34, 139, 34],
        [85, 107, 47],
        [189, 183, 107],
        [152, 251, 152],
    ];
    let dark = vec![
        [5, 20, 5],
        [0, 100, 0],
        [46, 64, 33],
        [139, 139, 80],
        [0, 255, 127],
    ];
    assert(light@ =~= ColorThemes::MysticForest.light());
    assert(dark@ =~= ColorThemes::MysticForest.dark());
    ColorTheme::new(String::from_str("Mystic Forest"), true, light, Some(dark))
}

pub fn theme_retro_pop() -> (out: ColorTheme)
    ensures
        is_builtin(out, ColorThemes::RetroPop),
{
    let light = vec![
        [255, 250, 240],
        [255, 69, 96],
        [255, 165, 0],
        [102, 205, 170],
        [147, 112, 219],
    ];
    let dark = vec![
        [30, 10, 10],
        [255, 36, 66],
        [255, 120, 0],
        [72, 159, 139],
        [122, 88, 181],
    ];
    assert(light@ =~= ColorThemes::RetroPop.light());
    assert(dark@ =~= ColorThemes::RetroPop.dark());
    ColorTheme::new(String::from_str("Retro Pop"), true, light, Some(dark))
}

pub fn theme_ocean_breeze() -> (out: ColorTheme)
    ensures
        is_builtin(out, ColorThemes::OceanBreeze),
{
    let light = vec![
        [240, 255, 255],
        [0, 191, 255],
        [70, 130, 180],
        [32, 178, 170],
        [175, 238, 238],
    ];
    let dark = vec![
        [10, 25, 30],
        [0, 139, 200],
        [50, 100, 160],
        [22, 128, 130],
        [100, 190, 190],
    ];
    assert(light@ =~= ColorThemes::OceanBreeze.light());
    assert(dark@ =~= ColorThemes::OceanBreeze.dark());
    ColorTheme::new(String::from_str("Ocean Breeze"), true, light, Some(dark))
}

pub fn theme_galaxy_voyage() -> (out: ColorTheme)
    ensures
        is_builtin(out, ColorThemes::GalaxyVoyage),
{
    let light = vec![
        [245, 245, 255],
        [75, 0, 130],
        [138, 43, 226],
        [255, 20, 147],
        [240, 230, 140],
    ];
    let dark = vec![
        [15, 10, 35],
        [148, 0, 211],
        [186, 85, 211],
        [255, 0, 127],
        [189, 183, 107],
    ];
    assert(light@ =~= ColorThemes::GalaxyVoyage.light());
    assert(dark@ =~= ColorThemes::GalaxyVoyage.dark());
    ColorTheme::new(String::from_str("Galaxy Voyage"), true, light, Some(dark))
}

pub fn theme_fire_ice() -> (out: ColorTheme)
    ensures
        is_builtin(out, ColorThemes::FireIce),
{
    let light = vec![
        [255, 250, 255],
        [0, 191, 255],
        [135, 206, 250],
        [255, 69, 0],
        [255, 140, 0],
    ];
    let dark = vec![
        [5, 5, 15],
        [0, 139, 200],
        [100, 149, 237],
        [255, 36, 0],
        [204, 102, 0],
    ];
    assert(light@ =~= ColorThemes::FireIce.light());
    assert(dark@ =~= ColorThemes::FireIce.dark());
    ColorTheme::new(String::from_str("Fire & Ice"), true, light, Some(dark))
}

pub fn theme_candy_crush() -> (out: ColorTheme)
    ensures
        is_builtin(out, ColorThemes::CandyCrush),
{
    let light = vec![
        [255, 250, 250],
        [255, 99, 71],
        [255, 182, 193],
        [255, 160, 122],
        [255, 218, 185],
    ];
    let dark = vec![
        [30, 10, 10],
        [220, 20, 60],
        [255, 105, 180],
        [210, 105, 30],
        [255, 160, 122],
    ];
    assert(light@ =~= ColorThemes::CandyCrush.light());
    assert(dark@ =~= ColorThemes::CandyCrush.dark());
    ColorTheme::new(String::from_str("Candy Crush"), true, light, Some(dark))
}

pub fn theme_sunlit_meadow() -> (out: ColorTheme)
    ensures
        is_builtin(out, ColorThemes::SunlitMeadow),
{
    let light = vec![
        [250, 255, 245],
        [173, 255, 47],
        [124, 252, 0],
        [255, 222, 173],
        [255, 239, 213],
    ];
    let dark = vec![
        [10, 20, 5],
        [154, 205, 50],
        [85, 139, 47],
        [210, 180, 140],
        [245, 222, 179],
    ];
    assert(light@ =~= ColorThemes::SunlitMeadow.light());
    assert(dark@ =~= ColorThemes::SunlitMeadow.dark());
    ColorTheme::new(String::from_str("Sunlit Meadow"), true, light, Some(dark))
}

} // verus!
