use stars::planning::{
    ical_escape, ical_timestamp, icalendar_document, IcalEvent, Planet, PlanningBody,
    SolarEclipseKind, TwilightBand,
};
use stars::variables::VariableType;

#[test]
fn planning_names_and_labels() {
    assert_eq!(PlanningBody::Sun.name(), "Sun");
    assert_eq!(PlanningBody::Planet(Planet::Jupiter).name(), "Jupiter");
    assert_eq!(TwilightBand::Nautical.label(), "Nautical twilight");
    assert_eq!(TwilightBand::Night.label(), "Night");
}

#[test]
fn solar_eclipse_kinds() {
    assert_eq!(SolarEclipseKind::default(), SolarEclipseKind::NoContact);
    assert_eq!(SolarEclipseKind::NoContact.as_kebab_str(), "none");
    assert_eq!(SolarEclipseKind::Annular.as_kebab_str(), "annular");
    assert!(!SolarEclipseKind::NoContact.is_event());
    assert!(SolarEclipseKind::Total.is_event());
}

#[test]
fn ical_text_is_escaped() {
    assert_eq!(ical_escape("M31; Andromeda, galaxy"), "M31\\; Andromeda\\, galaxy");
    assert_eq!(ical_escape("a\\b\nc"), "a\\\\b\\nc");
    assert_eq!(ical_escape("plain"), "plain");
}

#[test]
fn variable_types_round_trip() {
    for t in [
        VariableType::Mira,
        VariableType::SemiRegular,
        VariableType::Cepheid,
        VariableType::RrLyrae,
        VariableType::Algol,
    ] {
        assert_eq!(VariableType::parse(t.as_str()), Some(t));
    }
    assert!(VariableType::Algol.is_eclipsing());
    assert!(!VariableType::Mira.is_eclipsing());
    assert_eq!(VariableType::parse("Mira"), None);
}

#[test]
fn ical_timestamps_are_zero_padded_and_roll_over() {
    assert_eq!(ical_timestamp(2024, 4, 8, 18 * 3600 + 17 * 60 + 5), "20240408T181705Z");
    assert_eq!(ical_timestamp(987, 1, 2, 0), "09870102T000000Z");
    assert_eq!(ical_timestamp(2024, 4, 8, 86_400), "20240409T000000Z");
    assert_eq!(ical_timestamp(-5, 3, 1, 59), "-0050301T000059Z");
}

#[test]
fn icalendar_document_frames_escaped_events() {
    assert_eq!(
        icalendar_document(&[]),
        "BEGIN:VCALENDAR\r\nVERSION:2.0\r\nPRODID:-//stars//L-09 observation planning//EN\r\nCALSCALE:GREGORIAN\r\nEND:VCALENDAR\r\n"
    );
    let doc = icalendar_document(&[IcalEvent {
        name: "Andromeda Galaxy".to_string(),
        start: "20250101T200000Z".to_string(),
        end: "20250101T230000Z".to_string(),
        summary: "Observe M31; high".to_string(),
        description: "a, b".to_string(),
    }]);
    assert!(doc.contains("UID:Andromeda-Galaxy-20250101T200000Z@stars\r\n"));
    assert!(doc.contains("DTSTAMP:20250101T200000Z\r\nDTSTART:20250101T200000Z\r\nDTEND:20250101T230000Z\r\n"));
    assert!(doc.contains("SUMMARY:Observe M31\\; high\r\nDESCRIPTION:a\\, b\r\nEND:VEVENT\r\n"));
    assert!(doc.ends_with("END:VEVENT\r\nEND:VCALENDAR\r\n"));
}

#[test]
fn icalendar_skips_targets_without_a_window() {
    let ev = |name: &str| IcalEvent {
        name: name.to_string(),
        start: "20260813T120000Z".to_string(),
        end: "20260813T130000Z".to_string(),
        summary: format!("Observe {name}"),
        description: "d".to_string(),
    };
    let doc = stars::planning::icalendar_for_entries(vec![None, Some(ev("Vega")), None, Some(ev("M31"))]);
    assert_eq!(doc, icalendar_document(&[ev("Vega"), ev("M31")]));
    assert_eq!(doc.matches("BEGIN:VEVENT").count(), 2);
    assert_eq!(stars::planning::icalendar_for_entries(vec![None]), icalendar_document(&[]));
}
