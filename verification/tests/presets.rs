use stars::args::{AtmospherePresetArg, OverlayArg, ProjectionArg, ViewpointArg};
use std::collections::HashSet;

use stars::presets::{scene_preset_infos, ScenePresetArg};

#[test]
fn all_preset_ids_are_documented_and_unique() {
    let mut ids = HashSet::new();
    for info in scene_preset_infos() {
        assert!(ScenePresetArg::ALL.contains(&info.id));
        assert!(ids.insert(info.id.as_kebab_str()), "duplicate preset id");
        assert!(!info.title.is_empty());
        assert!(!info.validation_focus.is_empty());
    }
    assert_eq!(ids.len(), ScenePresetArg::ALL.len());
}

#[test]
fn preset_infos_follow_declaration_order() {
    let infos = scene_preset_infos();
    assert_eq!(infos.len(), ScenePresetArg::ALL.len());
    for (info, id) in infos.iter().zip(ScenePresetArg::ALL.iter()) {
        assert_eq!(info.id, *id);
    }
    assert_eq!(infos[0].title, "Tokyo summer evening");
    assert_eq!(ScenePresetArg::AllSkyMollweide.as_kebab_str(), "all-sky-mollweide");
    assert_eq!(ScenePresetArg::Noon.as_kebab_str(), "noon");
}

#[test]
fn preset_plans_fix_overlays_atmosphere_and_projection() {
    let tokyo = ScenePresetArg::TokyoTonight.plan();
    assert_eq!(tokyo.time, "2026-08-13T12:00:00Z");
    assert_eq!(
        tokyo.overlays,
        vec![
            OverlayArg::Horizon,
            OverlayArg::Cardinals,
            OverlayArg::CardinalLabels,
            OverlayArg::Ecliptic,
            OverlayArg::GalacticEquator,
            OverlayArg::ConstellationLines,
            OverlayArg::PlanetLabels
        ]
    );
    assert_eq!(tokyo.atmosphere, Some(AtmospherePresetArg::ClearRural));
    assert!(tokyo.planets_enabled);
    let dark = ScenePresetArg::DarkSky.plan();
    assert_eq!(dark.atmosphere, Some(AtmospherePresetArg::HighAltitude));
    let hammer = ScenePresetArg::AllSkyHammer.plan();
    assert_eq!(hammer.projection, ProjectionArg::Hammer);
    assert!(hammer.overlays.contains(&OverlayArg::ConstellationBoundaries));
    let ext = ScenePresetArg::CustomExternal.plan();
    assert_eq!((ext.viewpoint, ext.atmosphere, ext.planets_enabled), (ViewpointArg::CustomExternal, None, false));
    assert!(ext.overlays.is_empty());
}
