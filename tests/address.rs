use decode1090::address::{aircraft_information, resolve_address, AddressError, AddressRange, CategoryRule};

fn range(start: &str, end: &str, country: &str, rules: Option<Vec<CategoryRule>>) -> AddressRange {
    AddressRange {
        pattern: Some("^XX-".to_string()),
        start: Some(start.to_string()),
        end: Some(end.to_string()),
        country: country.to_string(),
        flag: "F".to_string(),
        comment: None,
        categories: rules,
    }
}

fn rule(pattern: &str, category: Option<&str>, country: Option<&str>) -> CategoryRule {
    CategoryRule {
        pattern: pattern.to_string(),
        category: category.map(|c| c.to_string()),
        country: country.map(|c| c.to_string()),
        flag: None,
    }
}

#[test]
fn address_lookup_ignores_case() {
    let a = aircraft_information("4840D6", None).unwrap();
    let b = aircraft_information("4840d6", None).unwrap();
    assert_eq!(a.icao24, "4840d6");
    assert_eq!(b.icao24, "4840d6");
    assert_eq!(a.country, b.country);
    assert_eq!(a.flag, b.flag);
    assert_eq!(a.pattern, b.pattern);
    assert_eq!(a.registration, b.registration);
    assert_eq!(a.country, "The Netherlands");
}

#[test]
fn registration_refines_the_category() {
    let a = aircraft_information("4840d6", Some("PH-BHA")).unwrap();
    assert_eq!(a.registration.as_deref(), Some("PH-BHA"));
    assert_eq!(a.category.as_deref(), Some("KLM B789"));
    assert_eq!(a.pattern.as_deref(), Some("^PH-BH"));
}

#[test]
fn address_outside_every_range_is_unknown() {
    let a = aircraft_information("000001", None).unwrap();
    assert_eq!(a.icao24, "000001");
    assert_eq!(a.country, "Unknown");
    assert_eq!(a.flag, "\u{1f3f3}");
    assert_eq!(a.pattern, None);
    assert_eq!(a.category, None);
}

#[test]
fn invalid_address_is_refused() {
    assert_eq!(aircraft_information("xyz", None).unwrap_err(), AddressError::InvalidAddress);
    assert_eq!(aircraft_information("", None).unwrap_err(), AddressError::InvalidAddress);
    assert_eq!(aircraft_information("4840d600", None).unwrap_err(), AddressError::InvalidAddress);
    assert_eq!(aircraft_information("4840d", None).unwrap_err(), AddressError::InvalidAddress);
    assert_eq!(aircraft_information("+4840d", None).unwrap_err(), AddressError::InvalidAddress);
    assert_eq!(aircraft_information("4840g6", None).unwrap_err(), AddressError::InvalidAddress);
}

#[test]
fn first_range_in_table_order_wins() {
    let table = vec![
        range("0x100", "0x1ff", "First", None),
        range("0x000", "0xfff", "Second", None),
    ];
    assert_eq!(resolve_address(&table, "000150", Some("A")).unwrap().country, "First");
    assert_eq!(resolve_address(&table, "000250", Some("A")).unwrap().country, "Second");
    assert_eq!(resolve_address(&table, "001000", Some("A")).unwrap().country, "Unknown");
}

#[test]
fn unreadable_bounds_never_match() {
    let table = vec![range("0xzz", "0xfff", "Broken", None), range("1", "0xfff", "Short", None)];
    assert_eq!(resolve_address(&table, "000150", Some("A")).unwrap().country, "Unknown");
}

#[test]
fn first_matching_rule_overrides_the_range() {
    let rules = vec![
        rule("(", Some("bad pattern"), None),
        rule("^XX-A", Some("Alpha"), Some("Elsewhere")),
        rule("^XX-", Some("Any"), None),
    ];
    let table = vec![range("0x0", "0xff", "Home", Some(rules))];
    let a = resolve_address(&table, "0000AB", Some("XX-ABC")).unwrap();
    assert_eq!(a.icao24, "0000ab");
    assert_eq!(a.category.as_deref(), Some("Alpha"));
    assert_eq!(a.country, "Elsewhere");
    assert_eq!(a.flag, "F");
    assert_eq!(a.pattern.as_deref(), Some("^XX-A"));
    let b = resolve_address(&table, "0000ab", Some("XX-B")).unwrap();
    assert_eq!(b.category.as_deref(), Some("Any"));
    assert_eq!(b.country, "Home");
    let c = resolve_address(&table, "0000ab", Some("YY")).unwrap();
    assert_eq!(c.category, None);
    assert_eq!(c.pattern.as_deref(), Some("^XX-"));
}

#[test]
fn registration_is_derived_from_the_address() {
    let a = aircraft_information("71BD54", None).unwrap();
    assert_eq!(a.icao24, "71bd54");
    assert_eq!(a.registration.as_deref(), Some("HL7554"));
    let b = aircraft_information("71bd54", Some("HL0000")).unwrap();
    assert_eq!(b.registration.as_deref(), Some("HL0000"));
}
