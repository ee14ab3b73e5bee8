use stars::session::{
    check_schema_version, CorrectionSnapshot, SessionError, SessionLightPollutionKind,
    SessionPlanets, SESSION_SCHEMA_VERSION,
};

#[test]
fn schema_version_gate() {
    assert_eq!(check_schema_version(SESSION_SCHEMA_VERSION), Ok(()));
    let e = check_schema_version(SESSION_SCHEMA_VERSION + 1).unwrap_err();
    assert_eq!(e, SessionError::UnsupportedSchemaVersion { found: 7 });
    assert_eq!(e.message(), "Unsupported session schemaVersion 7 (expected 6)");
}

#[test]
fn correction_snapshot_follows_refraction_switch() {
    let all = CorrectionSnapshot::default();
    assert!(all.time_scales && all.precession && all.atmospheric_refraction);
    let off = CorrectionSnapshot::for_scene(false);
    assert!(!off.atmospheric_refraction);
    assert_eq!(CorrectionSnapshot { atmospheric_refraction: true, ..off }, all);
    assert_eq!(CorrectionSnapshot::for_scene(true), all);
}

#[test]
fn light_pollution_kinds_use_session_spelling() {
    assert_eq!(SessionLightPollutionKind::Bortle.as_kebab_str(), "bortle");
    assert_eq!(SessionLightPollutionKind::Sqm.as_kebab_str(), "sqm");
    assert_eq!(SessionLightPollutionKind::Atlas2016.as_kebab_str(), "atlas2016");
    assert!(SessionPlanets { enabled: true }.enabled);
}

#[test]
fn rejects_future_schema() {
    assert!(check_schema_version(SESSION_SCHEMA_VERSION + 1).is_err());
}
