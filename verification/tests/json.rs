//! Reading a record from JSON, held against a visitor of serde.

use serde::de::{Deserialize, Deserializer, Error, IgnoredAny, MapAccess, SeqAccess, Visitor};
use usage_monitor::json::{field, read_record, JsonValue};

/// A record with a number that must be right and a choice that need not be.
#[derive(Debug, PartialEq)]
struct Record {
    number: u64,
    choice: Option<bool>,
}

/// A choice that counts as not made where no value can be read.
struct Choice(Option<bool>);

impl<'de> Deserialize<'de> for Choice {
    fn deserialize<D: Deserializer<'de>>(deserializer: D) -> Result<Self, D::Error> {
        Ok(Choice(serde_json::Value::deserialize(deserializer).ok().and_then(|v| v.as_bool())))
    }
}

struct RecordVisitor;

impl<'de> Visitor<'de> for RecordVisitor {
    type Value = Record;

    fn expecting(&self, formatter: &mut std::fmt::Formatter<'_>) -> std::fmt::Result {
        formatter.write_str("a record")
    }

    fn visit_seq<A: SeqAccess<'de>>(self, mut seq: A) -> Result<Record, A::Error> {
        let number = seq.next_element::<u64>()?.unwrap_or(0);
        let choice = seq.next_element::<Choice>()?.and_then(|c| c.0);
        Ok(Record { number, choice })
    }

    fn visit_map<A: MapAccess<'de>>(self, mut map: A) -> Result<Record, A::Error> {
        let mut number = None;
        let mut choice = None;
        while let Some(key) = map.next_key::<String>()? {
            if key == "a" {
                if number.is_some() {
                    return Err(A::Error::duplicate_field("a"));
                }
                number = Some(map.next_value::<u64>()?);
            } else if key == "b" {
                if choice.is_some() {
                    return Err(A::Error::duplicate_field("b"));
                }
                choice = Some(map.next_value::<Choice>()?);
            } else {
                map.next_value::<IgnoredAny>()?;
            }
        }
        Ok(Record { number: number.unwrap_or(0), choice: choice.and_then(|c| c.0) })
    }
}

impl<'de> Deserialize<'de> for Record {
    fn deserialize<D: Deserializer<'de>>(deserializer: D) -> Result<Self, D::Error> {
        deserializer.deserialize_struct("Record", &["a", "b"], RecordVisitor)
    }
}

fn read(text: &str) -> Option<Record> {
    let fields = read_record(text, &vec!["a".to_string(), "b".to_string()])?;
    let number = match field(&fields, "a") {
        None => 0,
        Some(JsonValue::Unsigned(n)) => *n,
        Some(_) => return None,
    };
    let choice = match field(&fields, "b") {
        Some(JsonValue::Bool(b)) => Some(*b),
        _ => None,
    };
    Some(Record { number, choice })
}

#[test]
fn a_record_is_read_as_a_visitor_reads_it() {
    let parts = [
        "{", "}", "[", "]", ",", ":", " ", "\"a\"", "\"b\"", "\"x\"", "1", "true", "null", "1e999",
        "-0", "\"\\ud800\"", "\"\\ud800", "\u{e9}", "\"", "\"b\":", "\"a\":1", "\"b\":true", ",",
        "\"b\":[1e999]", "\"x\":{\"a\":[]}", "{\"a\":1,", "[1,", "\n", "\"b\":{\"k\":1e999}", "nul",
    ];
    let mut seed: u64 = 1;
    let mut next = |n: usize| {
        seed = seed.wrapping_mul(6_364_136_223_846_793_005).wrapping_add(1_442_695_040_888_963_407);
        (seed >> 33) as usize % n
    };
    let mut readable = 0;
    for round in 0..60_000 {
        let mut text = String::from(["{", "[", ""][round % 3]);
        for _ in 0..next(9) {
            text.push_str(parts[next(parts.len())]);
        }
        text.push_str(["}", "]", ""][round % 3]);
        let expected = serde_json::from_str::<Record>(&text).ok();
        readable += i32::from(expected.is_some());
        assert_eq!(read(&text), expected, "{text}");
    }
    assert!(readable > 500);
}

#[test]
fn nesting_is_counted_from_the_outermost_value() {
    for depth in [1, 64, 125, 126, 127, 128, 200] {
        for (open, close) in [("[", "]"), ("{\"k\":", "}")] {
            let nested = open.repeat(depth) + "0" + &close.repeat(depth);
            for text in [
                format!("{{\"b\":{nested},\"a\":3}}"),
                format!("{{\"x\":{nested},\"a\":3}}"),
                format!("[3,{nested}]"),
                format!("{{\"b\":{nested}, {{}}"),
            ] {
                assert_eq!(read(&text), serde_json::from_str(&text).ok(), "{text}");
            }
        }
    }
}
