use stars::search::{SearchId, SearchKind};

#[test]
fn search_id_round_trip() {
    for id in [
        SearchId::NamedStar(42),
        SearchId::Messier(31),
        SearchId::Ngc(224),
        SearchId::Ic(434),
        SearchId::SolarSystem("jupiter"),
    ] {
        let encoded = id.encode();
        let parsed = SearchId::parse(&encoded).unwrap_or_else(|| panic!("parse {encoded:?}"));
        assert_eq!(parsed, id);
    }
}

#[test]
fn search_id_encodings_are_kind_prefixed() {
    assert_eq!(SearchId::NamedStar(42).encode(), "star:42");
    assert_eq!(SearchId::Messier(31).encode(), "m:31");
    assert_eq!(SearchId::Ngc(224).encode(), "ngc:224");
    assert_eq!(SearchId::Ic(434).encode(), "ic:434");
    assert_eq!(SearchId::SolarSystem("moon").encode(), "ss:moon");
}

#[test]
fn search_id_parse_rejects_malformed_input() {
    assert_eq!(SearchId::parse("star"), None);
    assert_eq!(SearchId::parse("m:abc"), None);
    assert_eq!(SearchId::parse("ss:pluto"), None);
    assert_eq!(SearchId::parse("xx:1"), None);
    assert_eq!(SearchId::parse("ngc:70000"), None);
    assert_eq!(SearchId::parse("ss:sun"), Some(SearchId::SolarSystem("sun")));
}

#[test]
fn search_kind_labels() {
    assert_eq!(SearchKind::Messier.label(), "messier");
    assert_eq!(SearchKind::SolarSystem.label(), "solar-system");
}
