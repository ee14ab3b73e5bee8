//! Stable identifiers and listing metadata of the built-in scene presets.
//!
//! Each preset has a kebab-case identifier, the name hosts accept on the
//! command line and in exported session files, and a short title, description
//! and validation focus for listings and gallery pages. The identifiers are
//! pairwise distinct, and the metadata table lists every preset exactly once,
//! in declaration order.
use vstd::prelude::*;

use crate::args::{AtmospherePresetArg, OverlayArg, ProjectionArg, ViewpointArg};

verus! {

/// Stable identifier of a built-in deterministic scene.
#[derive(Debug, Clone, Copy, PartialEq, Eq, Hash, Structural)]
pub enum ScenePresetArg {
    TokyoTonight,
    DarkSky,
    Noon,
    Sunset,
    CivilTwilight,
    NauticalTwilight,
    AstronomicalTwilight,
    MoonlitNight,
    EclipseAid,
    AllSkyHammer,
    AllSkyMollweide,
    GalacticNorth,
    CustomExternal,
}

impl ScenePresetArg {
    /// Every preset, in declaration order.
    pub const ALL: [ScenePresetArg; 13] = [
        ScenePresetArg::TokyoTonight,
        ScenePresetArg::DarkSky,
        ScenePresetArg::Noon,
        ScenePresetArg::Sunset,
        ScenePresetArg::CivilTwilight,
        ScenePresetArg::NauticalTwilight,
        ScenePresetArg::AstronomicalTwilight,
        ScenePresetArg::MoonlitNight,
        ScenePresetArg::EclipseAid,
        ScenePresetArg::AllSkyHammer,
        ScenePresetArg::AllSkyMollweide,
        ScenePresetArg::GalacticNorth,
        ScenePresetArg::CustomExternal,
    ];

    /// The presets in declaration order, as a sequence.
    pub open spec fn all_spec() -> Seq<ScenePresetArg> {
        seq![
            ScenePresetArg::TokyoTonight,
            ScenePresetArg::DarkSky,
            ScenePresetArg::Noon,
            ScenePresetArg::Sunset,
            ScenePresetArg::CivilTwilight,
            ScenePresetArg::NauticalTwilight,
            ScenePresetArg::AstronomicalTwilight,
            ScenePresetArg::MoonlitNight,
            ScenePresetArg::EclipseAid,
            ScenePresetArg::AllSkyHammer,
            ScenePresetArg::AllSkyMollweide,
            ScenePresetArg::GalacticNorth,
            ScenePresetArg::CustomExternal,
        ]
    }

    /// Kebab-case identifier of the preset.
    pub open spec fn kebab_spec(self) -> Seq<char> {
        match self {
            ScenePresetArg::TokyoTonight => "tokyo-tonight"@,
            ScenePresetArg::DarkSky => "dark-sky"@,
            ScenePresetArg::Noon => "noon"@,
            ScenePresetArg::Sunset => "sunset"@,
            ScenePresetArg::CivilTwilight => "civil-twilight"@,
            ScenePresetArg::NauticalTwilight => "nautical-twilight"@,
            ScenePresetArg::AstronomicalTwilight => "astronomical-twilight"@,
            ScenePresetArg::MoonlitNight => "moonlit-night"@,
            ScenePresetArg::EclipseAid => "eclipse-aid"@,
            ScenePresetArg::AllSkyHammer => "all-sky-hammer"@,
            ScenePresetArg::AllSkyMollweide => "all-sky-mollweide"@,
            ScenePresetArg::GalacticNorth => "galactic-north"@,
            ScenePresetArg::CustomExternal => "custom-external"@,
        }
    }

    pub fn as_kebab_str(self) -> (r: &'static str)
        ensures
            r@ == self.kebab_spec(),
    {
        match self {
            ScenePresetArg::TokyoTonight => "tokyo-tonight",
            ScenePresetArg::DarkSky => "dark-sky",
            ScenePresetArg::Noon => "noon",
            ScenePresetArg::Sunset => "sunset",
            ScenePresetArg::CivilTwilight => "civil-twilight",
            ScenePresetArg::NauticalTwilight => "nautical-twilight",
            ScenePresetArg::AstronomicalTwilight => "astronomical-twilight",
            ScenePresetArg::MoonlitNight => "moonlit-night",
            ScenePresetArg::EclipseAid => "eclipse-aid",
            ScenePresetArg::AllSkyHammer => "all-sky-hammer",
            ScenePresetArg::AllSkyMollweide => "all-sky-mollweide",
            ScenePresetArg::GalacticNorth => "galactic-north",
            ScenePresetArg::CustomExternal => "custom-external",
        }
    }

    /// Listing title of the preset.
    pub open spec fn title_spec(self) -> Seq<char> {
        match self {
            ScenePresetArg::TokyoTonight => "Tokyo summer evening"@,
            ScenePresetArg::DarkSky => "High-altitude dark sky"@,
            ScenePresetArg::Noon => "Clear-sky noon"@,
            ScenePresetArg::Sunset => "Sunset horizon"@,
            ScenePresetArg::CivilTwilight => "Civil twilight"@,
            ScenePresetArg::NauticalTwilight => "Nautical twilight"@,
            ScenePresetArg::AstronomicalTwilight => "Astronomical twilight"@,
            ScenePresetArg::MoonlitNight => "Moonlit night"@,
            ScenePresetArg::EclipseAid => "Lunar eclipse aid"@,
            ScenePresetArg::AllSkyHammer => "Hammer all-sky map"@,
            ScenePresetArg::AllSkyMollweide => "Mollweide all-sky map"@,
            ScenePresetArg::GalacticNorth => "Galactic-north viewpoint"@,
            ScenePresetArg::CustomExternal => "Custom external viewpoint"@,
        }
    }

    /// One-sentence description of the preset.
    pub open spec fn description_spec(self) -> Seq<char> {
        match self {
            ScenePresetArg::TokyoTonight => "Representative Tokyo night-sky view with horizon, labels, ecliptic, and galactic equator overlays."@,
            ScenePresetArg::DarkSky => "Mauna Kea dark-sky view using the high-altitude atmosphere preset and Milky Way-oriented overlays."@,
            ScenePresetArg::Noon => "Tokyo local noon daylight scene aimed near the Sun with urban-haze controls disabled."@,
            ScenePresetArg::Sunset => "Tokyo sunset horizon scene for warm low-Sun scattering and horizon haze."@,
            ScenePresetArg::CivilTwilight => "Solar-depression twilight scene just after sunset with the western horizon in frame."@,
            ScenePresetArg::NauticalTwilight => "Darker western-horizon scene for the nautical twilight regime."@,
            ScenePresetArg::AstronomicalTwilight => "Late twilight scene where the model should approach the dark-sky background."@,
            ScenePresetArg::MoonlitNight => "Bright Moon night scene for lunar disk phase and moonlit sky contribution checks."@,
            ScenePresetArg::EclipseAid => "Tight Moon-oriented aid scene around a lunar-eclipse date with planet labels and horizon context."@,
            ScenePresetArg::AllSkyHammer => "Full-sky Hammer projection with equatorial, ecliptic, and galactic overlays."@,
            ScenePresetArg::AllSkyMollweide => "Full-sky equal-area Mollweide projection using the same fixed inputs as the Hammer map."@,
            ScenePresetArg::GalacticNorth => "External parsec-scale top-down Milky Way view from the built-in galactic-north camera."@,
            ScenePresetArg::CustomExternal => "Oblique custom external galactic-frame camera with non-default origin, target, and up vector."@,
        }
    }

    /// What the preset is meant to exercise.
    pub open spec fn validation_focus_spec(self) -> Seq<char> {
        match self {
            ScenePresetArg::TokyoTonight => "default local perspective, overlays, labels, star/planet composition"@,
            ScenePresetArg::DarkSky => "dark-sky glow, extinction, Milky Way band, high-altitude atmosphere"@,
            ScenePresetArg::Noon => "daylight scattering domain, solar disk, star suppression by sky radiance"@,
            ScenePresetArg::Sunset => "golden-hour colour, horizon overlays, low solar altitude continuity"@,
            ScenePresetArg::CivilTwilight => "civil twilight band, additive twilight/dark-sky transition"@,
            ScenePresetArg::NauticalTwilight => "nautical twilight band, first bright-star visibility"@,
            ScenePresetArg::AstronomicalTwilight => "astronomical twilight boundary, dark-sky continuity"@,
            ScenePresetArg::MoonlitNight => "Moon disk, lunar illuminance, moonlit sky additive term"@,
            ScenePresetArg::EclipseAid => "Moon phase rendering, Earth-shadow aid input path, narrow-field labels"@,
            ScenePresetArg::AllSkyHammer => "Hammer projection, full-sky overlay clipping, map-scale uniforms"@,
            ScenePresetArg::AllSkyMollweide => "Mollweide projection, full-sky Milky Way and coordinate grid"@,
            ScenePresetArg::GalacticNorth => "external viewpoint, HYG distances, analytic Milky Way disk"@,
            ScenePresetArg::CustomExternal => "custom external camera serialization, orientation, distance-scaled star field"@,
        }
    }
}

/// The preset whose identifier has length `len` and first character `c`;
/// no two identifiers agree on both.
spec fn preset_by_len_and_initial(len: int, c: char) -> Option<ScenePresetArg> {
    if len == 13 && c == 't' {
        Some(ScenePresetArg::TokyoTonight)
    } else if len == 8 && c == 'd' {
        Some(ScenePresetArg::DarkSky)
    } else if len == 4 && c == 'n' {
        Some(ScenePresetArg::Noon)
    } else if len == 6 && c == 's' {
        Some(ScenePresetArg::Sunset)
    } else if len == 14 && c == 'c' {
        Some(ScenePresetArg::CivilTwilight)
    } else if len == 17 && c == 'n' {
        Some(ScenePresetArg::NauticalTwilight)
    } else if len == 21 && c == 'a' {
        Some(ScenePresetArg::AstronomicalTwilight)
    } else if len == 13 && c == 'm' {
        Some(ScenePresetArg::MoonlitNight)
    } else if len == 11 && c == 'e' {
        Some(ScenePresetArg::EclipseAid)
    } else if len == 14 && c == 'a' {
        Some(ScenePresetArg::AllSkyHammer)
    } else if len == 17 && c == 'a' {
        Some(ScenePresetArg::AllSkyMollweide)
    } else if len == 14 && c == 'g' {
        Some(ScenePresetArg::GalacticNorth)
    } else if len == 15 && c == 'c' {
        Some(ScenePresetArg::CustomExternal)
    } else {
        None
    }
}

proof fn lemma_len_and_initial(p: ScenePresetArg)
    ensures
        preset_by_len_and_initial(p.kebab_spec().len() as int, p.kebab_spec()[0]) == Some(p),
{
    reveal_strlit("tokyo-tonight");
    reveal_strlit("dark-sky");
    reveal_strlit("noon");
    reveal_strlit("sunset");
    reveal_strlit("civil-twilight");
    reveal_strlit("nautical-twilight");
    reveal_strlit("astronomical-twilight");
    reveal_strlit("moonlit-night");
    reveal_strlit("eclipse-aid");
    reveal_strlit("all-sky-hammer");
    reveal_strlit("all-sky-mollweide");
    reveal_strlit("galactic-north");
    reveal_strlit("custom-external");
}

/// Law: distinct presets have distinct identifiers, so an identifier names
/// one preset.
pub proof fn lemma_preset_ids_unique(a: ScenePresetArg, b: ScenePresetArg)
    requires
        a.kebab_spec() == b.kebab_spec(),
    ensures
        a == b,
{
    lemma_len_and_initial(a);
    lemma_len_and_initial(b);
}

/// Listing metadata of one preset.
#[derive(Debug, Clone, Copy, PartialEq, Eq)]
pub struct ScenePresetInfo {
    pub id: ScenePresetArg,
    pub title: &'static str,
    pub description: &'static str,
    pub validation_focus: &'static str,
}

impl ScenePresetInfo {
    /// True when the entry carries the metadata of its own preset.
    pub open spec fn describes_own_id(self) -> bool {
        &&& self.title@ == self.id.title_spec()
        &&& self.description@ == self.id.description_spec()
        &&& self.validation_focus@ == self.id.validation_focus_spec()
    }
}

/// The listing metadata of every built-in preset, in declaration order.
pub fn scene_preset_infos() -> (r: Vec<ScenePresetInfo>)
    ensures
        r@.len() == ScenePresetArg::all_spec().len(),
        forall|i: int|
            0 <= i < r@.len() ==> #[trigger] r@[i].id == ScenePresetArg::all_spec()[i]
                && r@[i].describes_own_id(),
{
    let mut r: Vec<ScenePresetInfo> = Vec::new();
    r.push(
        ScenePresetInfo {
            id: ScenePresetArg::TokyoTonight,
            title: "Tokyo summer evening",
            description: "Representative Tokyo night-sky view with horizon, labels, ecliptic, and galactic equator overlays.",
            validation_focus: "default local perspective, overlays, labels, star/planet composition",
        },
    );
    r.push(
        ScenePresetInfo {
            id: ScenePresetArg::DarkSky,
            title: "High-altitude dark sky",
            description: "Mauna Kea dark-sky view using the high-altitude atmosphere preset and Milky Way-oriented overlays.",
            validation_focus: "dark-sky glow, extinction, Milky Way band, high-altitude atmosphere",
        },
    );
    r.push(
        ScenePresetInfo {
            id: ScenePresetArg::Noon,
            title: "Clear-sky noon",
            description: "Tokyo local noon daylight scene aimed near the Sun with urban-haze controls disabled.",
            validation_focus: "daylight scattering domain, solar disk, star suppression by sky radiance",
        },
    );
    r.push(
        ScenePresetInfo {
            id: ScenePresetArg::Sunset,
            title: "Sunset horizon",
            description: "Tokyo sunset horizon scene for warm low-Sun scattering and horizon haze.",
            validation_focus: "golden-hour colour, horizon overlays, low solar altitude continuity",
        },
    );
    r.push(
        ScenePresetInfo {
            id: ScenePresetArg::CivilTwilight,
            title: "Civil twilight",
            description: "Solar-depression twilight scene just after sunset with the western horizon in frame.",
            validation_focus: "civil twilight band, additive twilight/dark-sky transition",
        },
    );
    r.push(
        ScenePresetInfo {
            id: ScenePresetArg::NauticalTwilight,
            title: "Nautical twilight",
            description: "Darker western-horizon scene for the nautical twilight regime.",
            validation_focus: "nautical twilight band, first bright-star visibility",
        },
    );
    r.push(
        ScenePresetInfo {
            id: ScenePresetArg::AstronomicalTwilight,
            title: "Astronomical twilight",
            description: "Late twilight scene where the model should approach the dark-sky background.",
            validation_focus: "astronomical twilight boundary, dark-sky continuity",
        },
    );
    r.push(
        ScenePresetInfo {
            id: ScenePresetArg::MoonlitNight,
            title: "Moonlit night",
            description: "Bright Moon night scene for lunar disk phase and moonlit sky contribution checks.",
            validation_focus: "Moon disk, lunar illuminance, moonlit sky additive term",
        },
    );
    r.push(
        ScenePresetInfo {
            id: ScenePresetArg::EclipseAid,
            title: "Lunar eclipse aid",
            description: "Tight Moon-oriented aid scene around a lunar-eclipse date with planet labels and horizon context.",
            validation_focus: "Moon phase rendering, Earth-shadow aid input path, narrow-field labels",
        },
    );
    r.push(
        ScenePresetInfo {
            id: ScenePresetArg::AllSkyHammer,
            title: "Hammer all-sky map",
            description: "Full-sky Hammer projection with equatorial, ecliptic, and galactic overlays.",
            validation_focus: "Hammer projection, full-sky overlay clipping, map-scale uniforms",
        },
    );
    r.push(
        ScenePresetInfo {
            id: ScenePresetArg::AllSkyMollweide,
            title: "Mollweide all-sky map",
            description: "Full-sky equal-area Mollweide projection using the same fixed inputs as the Hammer map.",
            validation_focus: "Mollweide projection, full-sky Milky Way and coordinate grid",
        },
    );
    r.push(
        ScenePresetInfo {
            id: ScenePresetArg::GalacticNorth,
            title: "Galactic-north viewpoint",
            description: "External parsec-scale top-down Milky Way view from the built-in galactic-north camera.",
            validation_focus: "external viewpoint, HYG distances, analytic Milky Way disk",
        },
    );
    r.push(
        ScenePresetInfo {
            id: ScenePresetArg::CustomExternal,
            title: "Custom external viewpoint",
            description: "Oblique custom external galactic-frame camera with non-default origin, target, and up vector.",
            validation_focus: "custom external camera serialization, orientation, distance-scaled star field",
        },
    );
    assert(r@.len() == 13);
    r
}


/// What a preset fixes besides its numbers (site, view direction, field of
/// view, external camera): the observer instant, the overlays drawn, the
/// atmosphere (none for the external views), whether planets are drawn, the
/// projection and the viewpoint.
pub struct PresetPlan {
    pub time: &'static str,
    pub overlays: Vec<OverlayArg>,
    pub atmosphere: Option<AtmospherePresetArg>,
    pub planets_enabled: bool,
    pub projection: ProjectionArg,
    pub viewpoint: ViewpointArg,
}

/// A [`PresetPlan`] as plain values.
pub ghost struct PresetPlanView {
    pub time: Seq<char>,
    pub overlays: Seq<OverlayArg>,
    pub atmosphere: Option<AtmospherePresetArg>,
    pub planets_enabled: bool,
    pub projection: ProjectionArg,
    pub viewpoint: ViewpointArg,
}

impl View for PresetPlan {
    type V = PresetPlanView;

    open spec fn view(&self) -> PresetPlanView {
        PresetPlanView {
            time: self.time@,
            overlays: self.overlays@,
            atmosphere: self.atmosphere,
            planets_enabled: self.planets_enabled,
            projection: self.projection,
            viewpoint: self.viewpoint,
        }
    }
}

impl ScenePresetArg {
    /// The plan of each preset. The Earth presets draw planets through the
    /// atmosphere of their site; the all-sky maps add the equatorial grid and
    /// constellation boundaries; the external views draw neither overlays
    /// nor atmosphere nor planets.
    pub open spec fn plan_spec(self) -> PresetPlanView {
        match self {
            ScenePresetArg::TokyoTonight => PresetPlanView {
                time: "2026-08-13T12:00:00Z"@,
                overlays: seq![OverlayArg::Horizon, OverlayArg::Cardinals, OverlayArg::CardinalLabels, OverlayArg::Ecliptic, OverlayArg::GalacticEquator, OverlayArg::ConstellationLines, OverlayArg::PlanetLabels],
                atmosphere: Some(AtmospherePresetArg::ClearRural),
                planets_enabled: true,
                projection: ProjectionArg::Perspective,
                viewpoint: ViewpointArg::Earth,
            },
            ScenePresetArg::DarkSky => PresetPlanView {
                time: "2026-07-18T10:30:00Z"@,
                overlays: seq![OverlayArg::Horizon, OverlayArg::CardinalLabels, OverlayArg::GalacticEquator, OverlayArg::ConstellationLabels],
                atmosphere: Some(AtmospherePresetArg::HighAltitude),
                planets_enabled: true,
                projection: ProjectionArg::Perspective,
                viewpoint: ViewpointArg::Earth,
            },
            ScenePresetArg::Noon => PresetPlanView {
                time: "2026-06-21T03:00:00Z"@,
                overlays: seq![OverlayArg::Horizon, OverlayArg::CardinalLabels, OverlayArg::PlanetLabels],
                atmosphere: Some(AtmospherePresetArg::ClearRural),
                planets_enabled: true,
                projection: ProjectionArg::Perspective,
                viewpoint: ViewpointArg::Earth,
            },
            ScenePresetArg::Sunset => PresetPlanView {
                time: "2026-06-21T09:55:00Z"@,
                overlays: seq![OverlayArg::Horizon, OverlayArg::CardinalLabels, OverlayArg::PlanetLabels],
                atmosphere: Some(AtmospherePresetArg::ClearRural),
                planets_enabled: true,
                projection: ProjectionArg::Perspective,
                viewpoint: ViewpointArg::Earth,
            },
            ScenePresetArg::CivilTwilight => PresetPlanView {
                time: "2026-06-21T10:20:00Z"@,
                overlays: seq![OverlayArg::Horizon, OverlayArg::CardinalLabels, OverlayArg::Ecliptic, OverlayArg::PlanetLabels],
                atmosphere: Some(AtmospherePresetArg::ClearRural),
                planets_enabled: true,
                projection: ProjectionArg::Perspective,
                viewpoint: ViewpointArg::Earth,
            },
            ScenePresetArg::NauticalTwilight => PresetPlanView {
                time: "2026-06-21T10:50:00Z"@,
                overlays: seq![OverlayArg::Horizon, OverlayArg::CardinalLabels, OverlayArg::Ecliptic, OverlayArg::ConstellationLines],
                atmosphere: Some(AtmospherePresetArg::ClearRural),
                planets_enabled: true,
                projection: ProjectionArg::Perspective,
                viewpoint: ViewpointArg::Earth,
            },
            ScenePresetArg::AstronomicalTwilight => PresetPlanView {
                time: "2026-06-21T11:30:00Z"@,
                overlays: seq![OverlayArg::Horizon, OverlayArg::CardinalLabels, OverlayArg::GalacticEquator, OverlayArg::ConstellationLines],
                atmosphere: Some(AtmospherePresetArg::ClearRural),
                planets_enabled: true,
                projection: ProjectionArg::Perspective,
                viewpoint: ViewpointArg::Earth,
            },
            ScenePresetArg::MoonlitNight => PresetPlanView {
                time: "2026-01-04T15:00:00Z"@,
                overlays: seq![OverlayArg::Horizon, OverlayArg::CardinalLabels, OverlayArg::PlanetLabels, OverlayArg::ConstellationLabels],
                atmosphere: Some(AtmospherePresetArg::ClearRural),
                planets_enabled: true,
                projection: ProjectionArg::Perspective,
                viewpoint: ViewpointArg::Earth,
            },
            ScenePresetArg::EclipseAid => PresetPlanView {
                time: "2026-03-03T11:45:00Z"@,
                overlays: seq![OverlayArg::Horizon, OverlayArg::CardinalLabels, OverlayArg::PlanetLabels, OverlayArg::DegreeLabels],
                atmosphere: Some(AtmospherePresetArg::ClearRural),
                planets_enabled: true,
                projection: ProjectionArg::Perspective,
                viewpoint: ViewpointArg::Earth,
            },
            ScenePresetArg::AllSkyHammer => PresetPlanView {
                time: "2026-08-13T12:00:00Z"@,
                overlays: seq![OverlayArg::EquatorialGrid, OverlayArg::Ecliptic, OverlayArg::GalacticEquator, OverlayArg::ConstellationLines, OverlayArg::ConstellationBoundaries],
                atmosphere: Some(AtmospherePresetArg::ClearRural),
                planets_enabled: true,
                projection: ProjectionArg::Hammer,
                viewpoint: ViewpointArg::Earth,
            },
            ScenePresetArg::AllSkyMollweide => PresetPlanView {
                time: "2026-08-13T12:00:00Z"@,
                overlays: seq![OverlayArg::EquatorialGrid, OverlayArg::Ecliptic, OverlayArg::GalacticEquator, OverlayArg::ConstellationLines, OverlayArg::ConstellationBoundaries],
                atmosphere: Some(AtmospherePresetArg::ClearRural),
                planets_enabled: true,
                projection: ProjectionArg::Mollweide,
                viewpoint: ViewpointArg::Earth,
            },
            ScenePresetArg::GalacticNorth => PresetPlanView {
                time: "2026-08-13T12:00:00Z"@,
                overlays: Seq::<OverlayArg>::empty(),
                atmosphere: None,
                planets_enabled: false,
                projection: ProjectionArg::Perspective,
                viewpoint: ViewpointArg::GalacticNorth,
            },
            ScenePresetArg::CustomExternal => PresetPlanView {
                time: "2026-08-13T12:00:00Z"@,
                overlays: Seq::<OverlayArg>::empty(),
                atmosphere: None,
                planets_enabled: false,
                projection: ProjectionArg::Perspective,
                viewpoint: ViewpointArg::CustomExternal,
            },
        }
    }

    /// The plan of a preset.
    pub fn plan(self) -> (r: PresetPlan)
        ensures
            r@ == self.plan_spec(),
    {
        let r = match self {
            ScenePresetArg::TokyoTonight => PresetPlan {
                time: "2026-08-13T12:00:00Z",
                overlays: vec![OverlayArg::Horizon, OverlayArg::Cardinals, OverlayArg::CardinalLabels, OverlayArg::Ecliptic, OverlayArg::GalacticEquator, OverlayArg::ConstellationLines, OverlayArg::PlanetLabels],
                atmosphere: Some(AtmospherePresetArg::ClearRural),
                planets_enabled: true,
                projection: ProjectionArg::Perspective,
                viewpoint: ViewpointArg::Earth,
            },
            ScenePresetArg::DarkSky => PresetPlan {
                time: "2026-07-18T10:30:00Z",
                overlays: vec![OverlayArg::Horizon, OverlayArg::CardinalLabels, OverlayArg::GalacticEquator, OverlayArg::ConstellationLabels],
                atmosphere: Some(AtmospherePresetArg::HighAltitude),
                planets_enabled: true,
                projection: ProjectionArg::Perspective,
                viewpoint: ViewpointArg::Earth,
            },
            ScenePresetArg::Noon => PresetPlan {
                time: "2026-06-21T03:00:00Z",
                overlays: vec![OverlayArg::Horizon, OverlayArg::CardinalLabels, OverlayArg::PlanetLabels],
                atmosphere: Some(AtmospherePresetArg::ClearRural),
                planets_enabled: true,
                projection: ProjectionArg::Perspective,
                viewpoint: ViewpointArg::Earth,
            },
            ScenePresetArg::Sunset => PresetPlan {
                time: "2026-06-21T09:55:00Z",
                overlays: vec![OverlayArg::Horizon, OverlayArg::CardinalLabels, OverlayArg::PlanetLabels],
                atmosphere: Some(AtmospherePresetArg::ClearRural),
                planets_enabled: true,
                projection: ProjectionArg::Perspective,
                viewpoint: ViewpointArg::Earth,
            },
            ScenePresetArg::CivilTwilight => PresetPlan {
                time: "2026-06-21T10:20:00Z",
                overlays: vec![OverlayArg::Horizon, OverlayArg::CardinalLabels, OverlayArg::Ecliptic, OverlayArg::PlanetLabels],
                atmosphere: Some(AtmospherePresetArg::ClearRural),
                planets_enabled: true,
                projection: ProjectionArg::Perspective,
                viewpoint: ViewpointArg::Earth,
            },
            ScenePresetArg::NauticalTwilight => PresetPlan {
                time: "2026-06-21T10:50:00Z",
                overlays: vec![OverlayArg::Horizon, OverlayArg::CardinalLabels, OverlayArg::Ecliptic, OverlayArg::ConstellationLines],
                atmosphere: Some(AtmospherePresetArg::ClearRural),
                planets_enabled: true,
                projection: ProjectionArg::Perspective,
                viewpoint: ViewpointArg::Earth,
            },
            ScenePresetArg::AstronomicalTwilight => PresetPlan {
                time: "2026-06-21T11:30:00Z",
                overlays: vec![OverlayArg::Horizon, OverlayArg::CardinalLabels, OverlayArg::GalacticEquator, OverlayArg::ConstellationLines],
                atmosphere: Some(AtmospherePresetArg::ClearRural),
                planets_enabled: true,
                projection: ProjectionArg::Perspective,
                viewpoint: ViewpointArg::Earth,
            },
            ScenePresetArg::MoonlitNight => PresetPlan {
                time: "2026-01-04T15:00:00Z",
                overlays: vec![OverlayArg::Horizon, OverlayArg::CardinalLabels, OverlayArg::PlanetLabels, OverlayArg::ConstellationLabels],
                atmosphere: Some(AtmospherePresetArg::ClearRural),
                planets_enabled: true,
                projection: ProjectionArg::Perspective,
                viewpoint: ViewpointArg::Earth,
            },
            ScenePresetArg::EclipseAid => PresetPlan {
                time: "2026-03-03T11:45:00Z",
                overlays: vec![OverlayArg::Horizon, OverlayArg::CardinalLabels, OverlayArg::PlanetLabels, OverlayArg::DegreeLabels],
                atmosphere: Some(AtmospherePresetArg::ClearRural),
                planets_enabled: true,
                projection: ProjectionArg::Perspective,
                viewpoint: ViewpointArg::Earth,
            },
            ScenePresetArg::AllSkyHammer => PresetPlan {
                time: "2026-08-13T12:00:00Z",
                overlays: vec![OverlayArg::EquatorialGrid, OverlayArg::Ecliptic, OverlayArg::GalacticEquator, OverlayArg::ConstellationLines, OverlayArg::ConstellationBoundaries],
                atmosphere: Some(AtmospherePresetArg::ClearRural),
                planets_enabled: true,
                projection: ProjectionArg::Hammer,
                viewpoint: ViewpointArg::Earth,
            },
            ScenePresetArg::AllSkyMollweide => PresetPlan {
                time: "2026-08-13T12:00:00Z",
                overlays: vec![OverlayArg::EquatorialGrid, OverlayArg::Ecliptic, OverlayArg::GalacticEquator, OverlayArg::ConstellationLines, OverlayArg::ConstellationBoundaries],
                atmosphere: Some(AtmospherePresetArg::ClearRural),
                planets_enabled: true,
                projection: ProjectionArg::Mollweide,
                viewpoint: ViewpointArg::Earth,
            },
            ScenePresetArg::GalacticNorth => PresetPlan {
                time: "2026-08-13T12:00:00Z",
                overlays: Vec::new(),
                atmosphere: None,
                planets_enabled: false,
                projection: ProjectionArg::Perspective,
                viewpoint: ViewpointArg::GalacticNorth,
            },
            ScenePresetArg::CustomExternal => PresetPlan {
                time: "2026-08-13T12:00:00Z",
                overlays: Vec::new(),
                atmosphere: None,
                planets_enabled: false,
                projection: ProjectionArg::Perspective,
                viewpoint: ViewpointArg::CustomExternal,
            },
        };
        proof {
            reveal_strlit("2026-01-04T15:00:00Z");
            reveal_strlit("2026-03-03T11:45:00Z");
            reveal_strlit("2026-06-21T03:00:00Z");
            reveal_strlit("2026-06-21T09:55:00Z");
            reveal_strlit("2026-06-21T10:20:00Z");
            reveal_strlit("2026-06-21T10:50:00Z");
            reveal_strlit("2026-06-21T11:30:00Z");
            reveal_strlit("2026-07-18T10:30:00Z");
            reveal_strlit("2026-08-13T12:00:00Z");
        }
        assert(r.overlays@ =~= self.plan_spec().overlays);
        r
    }
}


/// Law: the projection of a preset is the one its name promises. The
/// all-sky Hammer preset draws a Hammer map and the all-sky Mollweide preset
/// a Mollweide map; every other preset (the views from a site and the views
/// from outside) draws a perspective view, and no preset draws an Aitoff
/// map. Only the two external presets leave the Earth viewpoint, each to the
/// viewpoint it is named after, and the all-sky maps outline the
/// constellations.
pub proof fn lemma_preset_projection(p: ScenePresetArg)
    ensures
        p.plan_spec().projection == ProjectionArg::Hammer <==> p == ScenePresetArg::AllSkyHammer,
        p.plan_spec().projection == ProjectionArg::Mollweide <==> p == ScenePresetArg::AllSkyMollweide,
        p.plan_spec().projection != ProjectionArg::Aitoff,
        p.plan_spec().viewpoint == ViewpointArg::GalacticNorth <==> p == ScenePresetArg::GalacticNorth,
        p.plan_spec().viewpoint == ViewpointArg::CustomExternal <==> p == ScenePresetArg::CustomExternal,
        p.plan_spec().projection != ProjectionArg::Perspective ==> p.plan_spec().overlays.contains(
            OverlayArg::ConstellationBoundaries,
        ),
{
    if p == ScenePresetArg::AllSkyHammer || p == ScenePresetArg::AllSkyMollweide {
        assert(p.plan_spec().overlays[4] == OverlayArg::ConstellationBoundaries);
    }
}

} // verus!
