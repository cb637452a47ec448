//! The geocoder-response reader and the configuration parser, run
//! against real JSON documents.

use deafbot::application::parse_configuration_string;
use deafbot::maps::{city_name_from_geocode_json, resolved_location, FetchingError};

fn geocode_doc(body: &str) -> String {
    let head = "{\"response\":{\"GeoObjectCollection\":{\"featureMember\":[\
{\"GeoObject\":{\"metaDataProperty\":{\"GeocoderMetaData\":{\
\"AddressDetails\":{\"Country\":{\"AdministrativeArea\":";
    let tail = "}}}}}}]}}}";
    format!("{}{}{}", head, body, tail)
}

#[test]
fn city_from_sub_administrative_locality() {
    let doc = geocode_doc(
        "{\"AdministrativeAreaName\":\"Region\",\
         \"SubAdministrativeArea\":{\"Locality\":{\"LocalityName\":\"Springfield\"}},\
         \"Locality\":{\"LocalityName\":\"Shelbyville\"}}",
    );
    let v: serde_json::Value = serde_json::from_str(&doc).unwrap();
    assert_eq!(city_name_from_geocode_json(&v).as_deref(), Some("Springfield"));
}

#[test]
fn city_falls_back_to_locality_then_area() {
    let doc = geocode_doc(
        "{\"AdministrativeAreaName\":\"Region\",\
         \"Locality\":{\"LocalityName\":\"Shelbyville\"}}",
    );
    let v: serde_json::Value = serde_json::from_str(&doc).unwrap();
    assert_eq!(city_name_from_geocode_json(&v).as_deref(), Some("Shelbyville"));

    let doc = geocode_doc("{\"AdministrativeAreaName\":\"Region\"}");
    let v: serde_json::Value = serde_json::from_str(&doc).unwrap();
    assert_eq!(city_name_from_geocode_json(&v).as_deref(), Some("Region"));
}

#[test]
fn city_missing_everywhere() {
    let v: serde_json::Value = serde_json::from_str("{\"response\":{}}").unwrap();
    assert_eq!(city_name_from_geocode_json(&v), None);
}

#[test]
fn resolved_location_keeps_typed_name() {
    match resolved_location("berlin typed", Some(String::from("Berlin"))) {
        Ok(loc) => {
            assert_eq!(loc.displayed, "berlin typed");
            assert_eq!(loc.actual, "Berlin");
        }
        Err(e) => panic!("a found city must resolve: {:?}", e),
    }
    match resolved_location("Xyzzyplex", None) {
        Err(FetchingError::CityNotFound { name }) => assert_eq!(name, "Xyzzyplex"),
        other => panic!("a missing city must be reported: {:?}", other),
    }
}

#[test]
fn configuration_parses() {
    let cfg = parse_configuration_string(
        "{\"bot_token\":\"SECRET-REDACTED\",\"yandex_maps_api_key\":\"SECRET-REDACTED\"}",
    )
    .expect("a complete document parses");
    assert_eq!(cfg.bot_token, "SECRET-REDACTED");
    assert_eq!(cfg.yandex_maps_api_key, "SECRET-REDACTED");

    assert!(parse_configuration_string("{\"bot_token\":\"SECRET-REDACTED\"}").is_none());
    assert!(parse_configuration_string("not json").is_none());
    assert!(parse_configuration_string("{\"bot_token\":5,\"yandex_maps_api_key\":\"k\"}").is_none());
}
