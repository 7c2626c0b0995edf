use coding_assistant::Role;
use serde::de::{Deserialize, Deserializer, Error, Visitor};
use std::fmt;

/// A role read from JSON text through the library's decoder.
#[derive(Debug, PartialEq)]
struct Decoded(Role);

struct DecodedVisitor;

impl<'de> Visitor<'de> for DecodedVisitor {
    type Value = Decoded;

    fn expecting(&self, formatter: &mut fmt::Formatter) -> fmt::Result {
        formatter.write_str("a string representing a role")
    }

    fn visit_str<E: Error>(self, v: &str) -> Result<Self::Value, E> {
        Role::decode(v).map(Decoded).map_err(E::custom)
    }
}

impl<'de> Deserialize<'de> for Decoded {
    fn deserialize<D: Deserializer<'de>>(deserializer: D) -> Result<Self, D::Error> {
        deserializer.deserialize_str(DecodedVisitor)
    }
}

#[test]
fn role_with_other_casing_is_deserialized() {
    assert_eq!(serde_json::from_str::<Decoded>("\"User\"").unwrap(), Decoded(Role::USER));
    assert_eq!(serde_json::from_str::<Decoded>("\"sYsTeM\"").unwrap(), Decoded(Role::SYSTEM));
    assert_eq!(
        serde_json::from_str::<Decoded>("\"ASSISTANT\"").unwrap(),
        Decoded(Role::ASSISTANT)
    );
}

#[test]
fn unknown_role_is_a_decode_error() {
    let error = serde_json::from_str::<Decoded>("\"robot\"").unwrap_err();
    assert!(error.is_data());
    assert!(error.to_string().starts_with("Unable to deserialize string robot to Role"));
}

#[test]
fn role_that_is_not_text_is_a_decode_error() {
    assert!(serde_json::from_str::<Decoded>("7").is_err());
}
