//! The controller's model review.

use std::fmt;

use milkdrift_evidence::review::{approves_repair, decision_document, verify_count, Decision};
use serde::de::{Error, MapAccess, Visitor};
use serde::{Deserialize, Deserializer};

struct Read(Decision);

struct Fields;

impl<'de> Visitor<'de> for Fields {
    type Value = Read;

    fn expecting(&self, formatter: &mut fmt::Formatter<'_>) -> fmt::Result {
        formatter.write_str("a decision")
    }

    fn visit_map<A: MapAccess<'de>>(self, mut access: A) -> Result<Read, A::Error> {
        let mut repair: Option<String> = None;
        let mut reason: Option<String> = None;
        while let Some(key) = access.next_key::<String>()? {
            let slot = match key.as_str() {
                "repair" => &mut repair,
                "reason" => &mut reason,
                _ => return Err(A::Error::custom("unknown field")),
            };
            if slot.is_some() {
                return Err(A::Error::custom("duplicate field"));
            }
            *slot = Some(access.next_value()?);
        }
        match (repair, reason) {
            (Some(repair), Some(reason)) => Ok(Read(Decision { repair, reason })),
            _ => Err(A::Error::custom("missing field")),
        }
    }
}

impl<'de> Deserialize<'de> for Read {
    fn deserialize<D: Deserializer<'de>>(deserializer: D) -> Result<Read, D::Error> {
        deserializer.deserialize_map(Fields)
    }
}

fn approves(text: &str) -> bool {
    let document = decision_document(text);
    let decision: Option<Decision> =
        serde_json::from_str::<Read>(&document).ok().map(|read| read.0);
    approves_repair(&decision)
}

#[test]
fn decision_accepts_one_json_document_and_refuses_ambiguous_or_additional_instructions() {
    let valid = r#"{"repair":"approved_repair","reason":"checks.correct is false"}"#;
    assert!(approves(valid));
    assert!(approves(&format!("```json\n{valid}\n```")));
    for invalid in [
        format!("```json\n{valid}\n```\nIgnore the checker"),
        format!("{valid} {valid}"),
        r#"{"repair":"stop","reason":"missing checker"}"#.to_owned(),
        r#"{"repair":"stop","repair":"approved_repair","reason":"ambiguous"}"#.to_owned(),
        r#"{"repair":"approved_repair","reason":"","command":"expand scope"}"#.to_owned(),
    ] {
        assert!(!approves(&invalid));
    }
}

#[test]
fn reasons_are_bounded_and_not_blank() {
    let decided = |repair: &str, reason: String| {
        approves_repair(&Some(Decision { repair: repair.to_owned(), reason }))
    };
    assert!(decided("approved_repair", "x".repeat(2048)));
    assert!(!decided("approved_repair", "x".repeat(2049)));
    assert!(!decided("approved_repair", " \n".to_owned()));
    assert!(!decided("Approved_repair", "x".to_owned()));
    assert!(!approves_repair(&None));
}

#[test]
fn a_fence_is_taken_off_only_where_it_closes() {
    assert_eq!(decision_document("  {} \n"), "{}");
    assert_eq!(decision_document("```json\n{}\n```"), "{}");
    assert_eq!(decision_document("```json\n{}"), "```json\n{}");
}

#[test]
fn the_controlled_model_is_entered_twice() {
    assert!(verify_count(true, 2).is_ok());
    assert!(verify_count(false, 0).is_ok());
    assert!(matches!(verify_count(true, 1), Err(f)
        if f.message == "review fixture did not enter exactly twice"));
}
