//! The button-payload codec, token parsers and the decimal parser.

use deafbot::callback::{CallbackData, ProfileField};
use deafbot::error::ParseCallbackDataError;
use deafbot::parsing::{parse_i64, parse_u64};
use deafbot::profile::{HearingLevel, Sex};

fn all_payloads() -> Vec<CallbackData> {
    vec![
        CallbackData::EPEM,
        CallbackData::EPD { profile_field: ProfileField::Name },
        CallbackData::EPD { profile_field: ProfileField::Age },
        CallbackData::EPD { profile_field: ProfileField::City },
        CallbackData::EPD { profile_field: ProfileField::HearingLevel },
        CallbackData::EPD { profile_field: ProfileField::Description },
        CallbackData::EPD { profile_field: ProfileField::Photo },
        CallbackData::SHR { hearing_level: HearingLevel::CompletelyDeaf },
        CallbackData::SHR { hearing_level: HearingLevel::HearingImpaired },
        CallbackData::SHR { hearing_level: HearingLevel::Hearing },
        CallbackData::LED,
        CallbackData::FED,
    ]
}

#[test]
fn payload_round_trip() {
    for d in all_payloads() {
        let encoded = d.encode();
        let decoded = CallbackData::from_str(&encoded).expect("every encoding decodes");
        assert_eq!(decoded, d, "round trip through {:?}", encoded);
    }
}

#[test]
fn payload_wire_forms() {
    assert_eq!(CallbackData::EPEM.encode(), "EPEM");
    assert_eq!(
        CallbackData::EPD { profile_field: ProfileField::City }.encode(),
        "EPD:City"
    );
    assert_eq!(
        CallbackData::SHR { hearing_level: HearingLevel::Hearing }.encode(),
        "SHR:Hearing"
    );
    assert_eq!(CallbackData::LED.encode(), "LED");
    assert_eq!(CallbackData::FED.encode(), "FED");
}

#[test]
fn unknown_code_is_reported() {
    match CallbackData::from_str("XYZ:Name") {
        Err(ParseCallbackDataError::UnknownCallbackCode { code }) => assert_eq!(code, "XYZ"),
        other => panic!("an unknown code must fail to decode: {:?}", other),
    }
    match CallbackData::from_str("GIBBERISH") {
        Err(ParseCallbackDataError::UnknownCallbackCode { code }) => {
            assert_eq!(code, "GIBBERISH")
        }
        other => panic!("an unknown code must fail to decode: {:?}", other),
    }
    // a known code with an unknown argument does not decode either
    assert!(CallbackData::from_str("EPD:Bogus").is_err());
    assert!(CallbackData::from_str("").is_err());
}

#[test]
fn profile_field_names() {
    let fields = [
        (ProfileField::Name, "Name"),
        (ProfileField::Age, "Age"),
        (ProfileField::City, "City"),
        (ProfileField::HearingLevel, "HearingLevel"),
        (ProfileField::Description, "Description"),
        (ProfileField::Photo, "Photo"),
    ];
    for (f, s) in fields {
        assert_eq!(f.to_str(), s);
        assert_eq!(ProfileField::from_str(s), Ok(f));
    }
    assert_eq!(ProfileField::from_str("name"), Err(()));
}

#[test]
fn sex_tokens() {
    assert_eq!(Sex::from_str("Парень"), Ok(Sex::Male));
    assert_eq!(Sex::from_str("Девушка"), Ok(Sex::Female));
    assert_eq!(Sex::from_str("Boy"), Err(()));
}

#[test]
fn hearing_level_tokens() {
    assert_eq!(HearingLevel::from_str("Глухой"), Ok(HearingLevel::CompletelyDeaf));
    assert_eq!(HearingLevel::from_str("Глухая"), Ok(HearingLevel::CompletelyDeaf));
    assert_eq!(
        HearingLevel::from_str("Слабослышащий"),
        Ok(HearingLevel::HearingImpaired)
    );
    assert_eq!(
        HearingLevel::from_str("Слабослышащая"),
        Ok(HearingLevel::HearingImpaired)
    );
    assert_eq!(HearingLevel::from_str("Слышащий"), Ok(HearingLevel::Hearing));
    assert_eq!(HearingLevel::from_str("Слышащая"), Ok(HearingLevel::Hearing));
    assert_eq!(HearingLevel::from_str("CompletelyDeaf"), Ok(HearingLevel::CompletelyDeaf));
    assert_eq!(HearingLevel::from_str("HearingImpaired"), Ok(HearingLevel::HearingImpaired));
    assert_eq!(HearingLevel::from_str("Hearing"), Ok(HearingLevel::Hearing));
    assert_eq!(HearingLevel::from_str("deaf"), Err(()));
    assert_eq!(HearingLevel::CompletelyDeaf.to_str(), "CompletelyDeaf");
}

#[test]
fn parse_i64_values() {
    assert_eq!(parse_i64("0"), Some(0));
    assert_eq!(parse_i64("29"), Some(29));
    assert_eq!(parse_i64("+29"), Some(29));
    assert_eq!(parse_i64("-29"), Some(-29));
    assert_eq!(parse_i64("007"), Some(7));
    assert_eq!(parse_i64("9223372036854775807"), Some(i64::MAX));
    assert_eq!(parse_i64("-9223372036854775808"), Some(i64::MIN));
}

#[test]
fn parse_i64_rejections() {
    assert_eq!(parse_i64(""), None);
    assert_eq!(parse_i64("+"), None);
    assert_eq!(parse_i64("-"), None);
    assert_eq!(parse_i64("12a"), None);
    assert_eq!(parse_i64("twenty"), None);
    assert_eq!(parse_i64(" 5"), None);
    assert_eq!(parse_i64("9223372036854775808"), None);
    assert_eq!(parse_i64("-9223372036854775809"), None);
    assert_eq!(parse_i64("99999999999999999999999999"), None);
}

#[test]
fn parse_u64_values() {
    assert_eq!(parse_u64("0"), Some(0));
    assert_eq!(parse_u64("+7"), Some(7));
    assert_eq!(parse_u64("18446744073709551615"), Some(u64::MAX));
    assert_eq!(parse_u64("18446744073709551616"), None);
    assert_eq!(parse_u64("-1"), None);
    assert_eq!(parse_u64(""), None);
}
