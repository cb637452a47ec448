//! Geocoding support. Fetching and caching live outside the core; here
//! stand the pure pieces: digging the city name out of a geocoder
//! response document and turning a lookup outcome into a [`Location`].

use vstd::prelude::*;

use crate::profile::Location;

verus! {

/// Failure modes of a geocoding lookup.
#[derive(Debug)]
pub enum FetchingError {
    /// The HTTP client failed before any response arrived.
    RequestFailed,
    /// The geocoder answered with a non-success status code.
    UnsuccessfulRequest { response_code: u16 },
    /// The response body was not the expected JSON document.
    JsonNotFound,
    /// The geocoder knows no place under the queried name.
    CityNotFound { name: String },
}

impl Clone for FetchingError {
    fn clone(&self) -> (r: Self)
        ensures
            r == *self,
    {
        match self {
            FetchingError::RequestFailed => FetchingError::RequestFailed,
            FetchingError::UnsuccessfulRequest { response_code } => {
                FetchingError::UnsuccessfulRequest { response_code: *response_code }
            },
            FetchingError::JsonNotFound => FetchingError::JsonNotFound,
            FetchingError::CityNotFound { name } => {
                FetchingError::CityNotFound { name: name.clone() }
            },
        }
    }
}

#[verifier::external_type_specification]
#[verifier::external_body]
pub struct ExValue(serde_json::Value);

/// Relies on serde_json::Value::pointer: RFC 6901 lookup of a nested
/// value; what it returns depends on the opaque document alone, so
/// nothing further is promised.
#[verifier::external_body]
fn json_pointer<'a>(v: &'a serde_json::Value, path: &str) -> (r: Option<&'a serde_json::Value>) {
    v.pointer(path)
}

/// Relies on serde_json::Value::as_str: the borrowed string when the
/// value is a JSON string, nothing otherwise.
#[verifier::external_body]
fn json_as_str<'a>(v: &'a serde_json::Value) -> (r: Option<&'a str>) {
    v.as_str()
}

/// Relies on serde_json::from_str::<Value>: parses a JSON document,
/// with a parse failure folded into `None`.
#[verifier::external_body]
pub fn parse_json(s: &str) -> (r: Option<serde_json::Value>) {
    serde_json::from_str(s).ok()
}

/// The string at a JSON-pointer path inside a document, if the path
/// leads to a string.
pub fn json_string_at(doc: &serde_json::Value, path: &str) -> (r: Option<String>) {
    match json_pointer(doc, path) {
        Some(v) => match json_as_str(v) {
            Some(s) => Some(s.to_owned()),
            None => None,
        },
        None => None,
    }
}

/// The city name inside a geocoder response: the locality under the
/// sub-administrative area if present, else the administrative area's
/// own locality, else the administrative area's name.
pub fn city_name_from_geocode_json(geocode_json: &serde_json::Value) -> (r: Option<String>) {
    if let Some(city) = json_string_at(
        geocode_json,
        "/response/GeoObjectCollection/featureMember/0/GeoObject/metaDataProperty\
/GeocoderMetaData/AddressDetails/Country/AdministrativeArea/SubAdministrativeArea/Locality/LocalityName",
    ) {
        return Some(city);
    }

    if let Some(city) = json_string_at(
        geocode_json,
        "/response/GeoObjectCollection/featureMember/0/GeoObject/metaDataProperty\
/GeocoderMetaData/AddressDetails/Country/AdministrativeArea/Locality/LocalityName",
    ) {
        return Some(city);
    }

    json_string_at(
        geocode_json,
        "/response/GeoObjectCollection/featureMember/0/GeoObject/metaDataProperty\
/GeocoderMetaData/AddressDetails/Country/AdministrativeArea/AdministrativeAreaName",
    )
}

/// Outcome of a city lookup as a [`Location`]: the queried text is kept
/// for display, the resolved name becomes the matching bucket; a failed
/// lookup reports the queried name as unknown.
pub fn resolved_location(input: &str, city: Option<String>) -> (r: Result<Location, FetchingError>)
    ensures
        match r {
            Ok(loc) => city matches Some(c) && loc.actual == c && loc.displayed@ == input@,
            Err(e) => city is None && (e matches FetchingError::CityNotFound { name } && name@
                == input@),
        },
{
    match city {
        Some(actual) => Ok(Location::new(input.to_owned(), actual)),
        None => Err(FetchingError::CityNotFound { name: input.to_owned() }),
    }
}

} // verus!
