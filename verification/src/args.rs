//! Command-line and session spellings of the renderer's option enums.
//!
//! Each enum mirrors one renderer option. Its kebab-case name is the spelling
//! the command line accepts, session files store and hosts print.
use vstd::prelude::*;

verus! {

/// Overlay layer name, as the command line and session files spell it.
#[derive(Debug, Clone, Copy, PartialEq, Eq, Hash, Structural)]
pub enum OverlayArg {
    Horizon,
    Cardinals,
    AltAzGrid,
    EquatorialGrid,
    Ecliptic,
    CelestialEquator,
    Meridian,
    GalacticEquator,
    ConstellationLines,
    ConstellationBoundaries,
    DeepSkyObjects,
    DeepSkyLabels,
    StarLabels,
    PlanetLabels,
    ConstellationLabels,
    CardinalLabels,
    DegreeLabels,
}

impl OverlayArg {
    /// Kebab-case spelling of the variant.
    pub open spec fn kebab_spec(self) -> Seq<char> {
        match self {
            OverlayArg::Horizon => "horizon"@,
            OverlayArg::Cardinals => "cardinals"@,
            OverlayArg::AltAzGrid => "alt-az-grid"@,
            OverlayArg::EquatorialGrid => "equatorial-grid"@,
            OverlayArg::Ecliptic => "ecliptic"@,
            OverlayArg::CelestialEquator => "celestial-equator"@,
            OverlayArg::Meridian => "meridian"@,
            OverlayArg::GalacticEquator => "galactic-equator"@,
            OverlayArg::ConstellationLines => "constellation-lines"@,
            OverlayArg::ConstellationBoundaries => "constellation-boundaries"@,
            OverlayArg::DeepSkyObjects => "deep-sky-objects"@,
            OverlayArg::DeepSkyLabels => "deep-sky-labels"@,
            OverlayArg::StarLabels => "star-labels"@,
            OverlayArg::PlanetLabels => "planet-labels"@,
            OverlayArg::ConstellationLabels => "constellation-labels"@,
            OverlayArg::CardinalLabels => "cardinal-labels"@,
            OverlayArg::DegreeLabels => "degree-labels"@,
        }
    }

    pub fn as_kebab_str(self) -> (r: &'static str)
        ensures
            r@ == self.kebab_spec(),
    {
        match self {
            OverlayArg::Horizon => "horizon",
            OverlayArg::Cardinals => "cardinals",
            OverlayArg::AltAzGrid => "alt-az-grid",
            OverlayArg::EquatorialGrid => "equatorial-grid",
            OverlayArg::Ecliptic => "ecliptic",
            OverlayArg::CelestialEquator => "celestial-equator",
            OverlayArg::Meridian => "meridian",
            OverlayArg::GalacticEquator => "galactic-equator",
            OverlayArg::ConstellationLines => "constellation-lines",
            OverlayArg::ConstellationBoundaries => "constellation-boundaries",
            OverlayArg::DeepSkyObjects => "deep-sky-objects",
            OverlayArg::DeepSkyLabels => "deep-sky-labels",
            OverlayArg::StarLabels => "star-labels",
            OverlayArg::PlanetLabels => "planet-labels",
            OverlayArg::ConstellationLabels => "constellation-labels",
            OverlayArg::CardinalLabels => "cardinal-labels",
            OverlayArg::DegreeLabels => "degree-labels",
        }
    }
}

/// Sky projection.
#[derive(Debug, Clone, Copy, PartialEq, Eq, Hash, Structural)]
pub enum ProjectionArg {
    Perspective,
    Mollweide,
    Aitoff,
    Hammer,
}

impl ProjectionArg {
    /// Kebab-case spelling of the variant.
    pub open spec fn kebab_spec(self) -> Seq<char> {
        match self {
            ProjectionArg::Perspective => "perspective"@,
            ProjectionArg::Mollweide => "mollweide"@,
            ProjectionArg::Aitoff => "aitoff"@,
            ProjectionArg::Hammer => "hammer"@,
        }
    }

    pub fn as_kebab_str(self) -> (r: &'static str)
        ensures
            r@ == self.kebab_spec(),
    {
        match self {
            ProjectionArg::Perspective => "perspective",
            ProjectionArg::Mollweide => "mollweide",
            ProjectionArg::Aitoff => "aitoff",
            ProjectionArg::Hammer => "hammer",
        }
    }
}

/// Camera viewpoint.
#[derive(Debug, Clone, Copy, PartialEq, Eq, Hash, Structural)]
pub enum ViewpointArg {
    Earth,
    GalacticNorth,
    CustomExternal,
}

impl ViewpointArg {
    /// Kebab-case spelling of the variant.
    pub open spec fn kebab_spec(self) -> Seq<char> {
        match self {
            ViewpointArg::Earth => "earth"@,
            ViewpointArg::GalacticNorth => "galactic-north"@,
            ViewpointArg::CustomExternal => "custom-external"@,
        }
    }

    pub fn as_kebab_str(self) -> (r: &'static str)
        ensures
            r@ == self.kebab_spec(),
    {
        match self {
            ViewpointArg::Earth => "earth",
            ViewpointArg::GalacticNorth => "galactic-north",
            ViewpointArg::CustomExternal => "custom-external",
        }
    }
}

/// Atmosphere preset.
#[derive(Debug, Clone, Copy, PartialEq, Eq, Hash, Structural)]
pub enum AtmospherePresetArg {
    ClearRural,
    HazyUrban,
    HighAltitude,
}

impl AtmospherePresetArg {
    /// Kebab-case spelling of the variant.
    pub open spec fn kebab_spec(self) -> Seq<char> {
        match self {
            AtmospherePresetArg::ClearRural => "clear-rural"@,
            AtmospherePresetArg::HazyUrban => "hazy-urban"@,
            AtmospherePresetArg::HighAltitude => "high-altitude"@,
        }
    }

    pub fn as_kebab_str(self) -> (r: &'static str)
        ensures
            r@ == self.kebab_spec(),
    {
        match self {
            AtmospherePresetArg::ClearRural => "clear-rural",
            AtmospherePresetArg::HazyUrban => "hazy-urban",
            AtmospherePresetArg::HighAltitude => "high-altitude",
        }
    }
}

/// Colour space of the output image.
#[derive(Debug, Clone, Copy, PartialEq, Eq, Hash, Structural)]
pub enum OutputColourspaceArg {
    Srgb,
    DisplayP3,
    Rec2020,
}

impl OutputColourspaceArg {
    /// Kebab-case spelling of the variant.
    pub open spec fn kebab_spec(self) -> Seq<char> {
        match self {
            OutputColourspaceArg::Srgb => "srgb"@,
            OutputColourspaceArg::DisplayP3 => "display-p3"@,
            OutputColourspaceArg::Rec2020 => "rec2020"@,
        }
    }

    pub fn as_kebab_str(self) -> (r: &'static str)
        ensures
            r@ == self.kebab_spec(),
    {
        match self {
            OutputColourspaceArg::Srgb => "srgb",
            OutputColourspaceArg::DisplayP3 => "display-p3",
            OutputColourspaceArg::Rec2020 => "rec2020",
        }
    }
}

impl Default for OutputColourspaceArg {
    /// `Srgb`.
    fn default() -> (r: Self)
        ensures
            r == OutputColourspaceArg::Srgb,
    {
        OutputColourspaceArg::Srgb
    }
}

/// Season that selects the aurora oval model.
#[derive(Debug, Clone, Copy, PartialEq, Eq, Hash, Structural)]
pub enum AuroraSeasonArg {
    Winter,
    Equinox,
    Summer,
}

impl AuroraSeasonArg {
    /// Kebab-case spelling of the variant.
    pub open spec fn kebab_spec(self) -> Seq<char> {
        match self {
            AuroraSeasonArg::Winter => "winter"@,
            AuroraSeasonArg::Equinox => "equinox"@,
            AuroraSeasonArg::Summer => "summer"@,
        }
    }

    pub fn as_kebab_str(self) -> (r: &'static str)
        ensures
            r@ == self.kebab_spec(),
    {
        match self {
            AuroraSeasonArg::Winter => "winter",
            AuroraSeasonArg::Equinox => "equinox",
            AuroraSeasonArg::Summer => "summer",
        }
    }
}

impl Default for AuroraSeasonArg {
    /// `Equinox`.
    fn default() -> (r: Self)
        ensures
            r == AuroraSeasonArg::Equinox,
    {
        AuroraSeasonArg::Equinox
    }
}

} // verus!
