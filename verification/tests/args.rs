use stars::args::{
    AtmospherePresetArg, AuroraSeasonArg, OutputColourspaceArg, OverlayArg, ProjectionArg,
    ViewpointArg,
};

#[test]
fn option_enums_use_kebab_case_names() {
    assert_eq!(OverlayArg::AltAzGrid.as_kebab_str(), "alt-az-grid");
    assert_eq!(OverlayArg::DeepSkyObjects.as_kebab_str(), "deep-sky-objects");
    assert_eq!(ProjectionArg::Mollweide.as_kebab_str(), "mollweide");
    assert_eq!(ViewpointArg::GalacticNorth.as_kebab_str(), "galactic-north");
    assert_eq!(AtmospherePresetArg::HazyUrban.as_kebab_str(), "hazy-urban");
    assert_eq!(OutputColourspaceArg::DisplayP3.as_kebab_str(), "display-p3");
    assert_eq!(OutputColourspaceArg::Rec2020.as_kebab_str(), "rec2020");
    assert_eq!(AuroraSeasonArg::Summer.as_kebab_str(), "summer");
}

#[test]
fn option_enum_defaults() {
    assert_eq!(OutputColourspaceArg::default(), OutputColourspaceArg::Srgb);
    assert_eq!(AuroraSeasonArg::default(), AuroraSeasonArg::Equinox);
}
