use twitch_1337::aviation::{start_up_command, UpStart};
use twitch_1337::aviation::{
    direction_arrow, format_altitude, location_reply, select_candidates, up_cooldown_reply,
    up_query, up_response, AltBaro, FlightIdentifier, FlightPhase, LocationOutcome, Sighting,
    UpEntry, MAX_FLIGHTS_PER_USER, MAX_TRACKED_FLIGHTS, UP_USAGE,
};

#[test]
fn identifiers_parse_hex_or_callsign() {
    assert_eq!(FlightIdentifier::parse(" 4ca87d "), FlightIdentifier::Hex("4CA87D".into()));
    assert_eq!(FlightIdentifier::parse("dlh5765"), FlightIdentifier::Callsign("DLH5765".into()));
    assert_eq!(FlightIdentifier::parse("4CA87"), FlightIdentifier::Callsign("4CA87".into()));
    assert_eq!(FlightIdentifier::parse("4CA87G"), FlightIdentifier::Callsign("4CA87G".into()));
    assert_eq!(FlightIdentifier::parse("tap247").as_str(), "TAP247");
    assert_eq!(FlightIdentifier::parse("tap247").to_string(), "TAP247");
}

#[test]
fn identifiers_match_ignoring_case() {
    let cs = FlightIdentifier::Callsign("DLH5765".into());
    assert!(cs.matches(Some("dlh5765"), None));
    assert!(!cs.matches(None, Some("dlh5765")));
    let hex = FlightIdentifier::Hex("4CA87D".into());
    assert!(hex.matches(None, Some("4ca87d")));
    assert!(!hex.matches(Some("4CA87D"), None));
}

#[test]
fn phases_print_their_names() {
    assert_eq!(FlightPhase::Cruise.as_str(), "Cruise");
    assert_eq!(FlightPhase::Unknown.as_str(), "Unknown");
    assert_eq!(MAX_TRACKED_FLIGHTS, 12);
    assert_eq!(MAX_FLIGHTS_PER_USER, 3);
}

#[test]
fn altitudes_read_as_levels_feet_or_ground() {
    assert_eq!(format_altitude(&Some(AltBaro::Feet(35000))), "FL350");
    assert_eq!(format_altitude(&Some(AltBaro::Feet(1000))), "FL10");
    assert_eq!(format_altitude(&Some(AltBaro::Feet(999))), "999ft");
    assert_eq!(format_altitude(&Some(AltBaro::Feet(-50))), "-50ft");
    assert_eq!(format_altitude(&Some(AltBaro::Ground)), "GND");
    assert_eq!(format_altitude(&None), "?");
}

#[test]
fn up_query_needs_text() {
    assert_eq!(up_query("   "), Err(UP_USAGE));
    assert_eq!(up_query(" 10115 ").unwrap(), "10115");
    assert_eq!(UP_USAGE, "Benutzung: !up <PLZ/ICAO/IATA/Ort> FDM");
    assert_eq!(up_cooldown_reply("12s"), "Bitte warte noch 12s Waiting");
}

#[test]
fn location_failures_have_replies() {
    assert_eq!(location_reply(&LocationOutcome::Found("Berlin".into())), None);
    assert_eq!(location_reply(&LocationOutcome::PlzNotFound), Some("Kenne ich nicht die PLZ FDM"));
    assert_eq!(location_reply(&LocationOutcome::NotFound), Some("Kenne ich nicht FDM"));
    assert_eq!(location_reply(&LocationOutcome::Failed), Some("Da ist was schiefgelaufen FDM"));
}

fn sighting(flight: Option<&str>, in_cone: bool) -> Sighting {
    Sighting { flight: flight.map(|s| s.to_string()), in_cone }
}

#[test]
fn candidates_are_visible_with_callsign_and_capped() {
    let ss = vec![
        sighting(Some("DLH1 "), true),
        sighting(Some("   "), true),
        sighting(None, true),
        sighting(Some("RYR2"), false),
        sighting(Some("EZY3"), true),
    ];
    let c = select_candidates(&ss);
    assert_eq!(c, vec![("DLH1".to_string(), 0), ("EZY3".to_string(), 4)]);
    let many: Vec<Sighting> = (0..15).map(|i| sighting(Some(&format!("X{i}")), true)).collect();
    let c = select_candidates(&many);
    assert_eq!(c.len(), 10);
    assert_eq!(c[9].0, "X9");
}

#[test]
fn arrows_follow_cardinal_directions() {
    assert_eq!(direction_arrow("N"), "↑");
    assert_eq!(direction_arrow("SW"), "↙");
    assert_eq!(direction_arrow("NNE"), "?");
}

fn entry(cs: &str) -> UpEntry {
    UpEntry {
        callsign: cs.to_string(),
        aircraft_type: Some("A320".to_string()),
        alt: Some(AltBaro::Feet(12000)),
        origin_iata: "BER".to_string(),
        destination_iata: "MUC".to_string(),
        distance_text: "3.2".to_string(),
        direction: "↗".to_string(),
    }
}

#[test]
fn up_reply_lists_at_most_five() {
    assert_eq!(up_response("Berlin", &vec![], false), "Nix los über Berlin");
    assert_eq!(up_response("Berlin", &vec![entry("A")], true), "Da ist was schiefgelaufen FDM");
    let one = up_response("Berlin", &vec![entry("DLH1")], false);
    assert_eq!(one, "✈ 1 Flieger über Berlin: DLH1 (A320) BER→MUC FL120 3.2nm ↗");
    let mut e = entry("X");
    e.aircraft_type = None;
    e.alt = None;
    let entries: Vec<UpEntry> = vec![entry("A"), entry("B"), entry("C"), entry("D"), entry("E"), e];
    let six = up_response("Köln", &entries, false);
    assert!(six.starts_with("✈ 6 Flieger über Köln: A (A320)"), "{six}");
    assert_eq!(six.matches(" | ").count(), 4);
    assert!(!six.contains("X (?)"));
}

#[test]
fn up_start_checks_usage_before_cooldown() {
    match start_up_command("   ", Some("5s")) {
        UpStart::Reply(t) => assert_eq!(t, UP_USAGE),
        _ => panic!("expected the usage text"),
    }
    match start_up_command(" 10115 ", Some("5s")) {
        UpStart::Reply(t) => assert_eq!(t, "Bitte warte noch 5s Waiting"),
        _ => panic!("expected the cooldown text"),
    }
    match start_up_command(" 10115 ", None) {
        UpStart::Lookup(q) => assert_eq!(q, "10115"),
        _ => panic!("expected a lookup"),
    }
}

#[test]
fn parsing_a_parsed_identifier_keeps_it() {
    for input in [" 4ca87d ", "dlh400", "  tap 247 "] {
        let once = FlightIdentifier::parse(input);
        assert_eq!(FlightIdentifier::parse(once.as_str()), once);
    }
}
