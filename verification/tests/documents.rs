use date_ops::config::TransformSpec;
use date_ops::document::{Attribute, AttributeValue, Document};
use date_ops::error::TransformError;
use date_ops::transform::{
    rewrite_document, transform, transform_document, FailurePolicy, Mode,
};

fn spec_for(fields: &[&str]) -> TransformSpec {
    TransformSpec {
        source_format: "%Y/%d/%m %H:%M:%S".to_string(),
        output_format: "%Y-%m-%dT%H:%M:%S%.3fZ".to_string(),
        source_timezone: 1,
        output_timezone: "UTC".to_string(),
        fields: fields.iter().map(|name| name.to_string()).collect(),
    }
}

fn text(name: &str, value: &str) -> Attribute {
    Attribute { name: name.to_string(), value: AttributeValue::Text(value.to_string()) }
}

fn other(name: &str, value: serde_json::Value) -> Attribute {
    Attribute { name: name.to_string(), value: AttributeValue::Other(value) }
}

#[test]
fn listed_attribute_is_rewritten_and_the_rest_stays() {
    let spec = spec_for(&["foo"]);
    let out = transform(
        &spec,
        Mode::Structured,
        FailurePolicy::FailRecord,
        r#"{"foo": "2024/12/02 01:13:23", "bar": 42}"#,
    )
    .unwrap();
    assert_eq!(out, r#"{"bar":42,"foo":"2024-02-12T00:13:23.000Z"}"#);
    let parsed: serde_json::Value = serde_json::from_str(&out).unwrap();
    assert_eq!(
        parsed.get("foo"),
        Some(&serde_json::Value::from("2024-02-12T00:13:23.000Z"))
    );
    assert_eq!(parsed.get("bar"), Some(&serde_json::Value::from(42)));
    assert_eq!(parsed.as_object().unwrap().len(), 2);
}

#[test]
fn document_without_the_listed_attribute_is_unchanged() {
    let spec = spec_for(&["foo"]);
    let input = r#"{"bar":42,"baz":"2024/12/02 01:13:23"}"#;
    let out = transform_document(&spec, input).unwrap();
    assert_eq!(out, input);
    let before: serde_json::Value = serde_json::from_str(input).unwrap();
    let after: serde_json::Value = serde_json::from_str(&out).unwrap();
    assert_eq!(before, after);
}

#[test]
fn listed_attribute_that_is_no_text_is_unchanged() {
    let spec = spec_for(&["foo", "when"]);
    let input = r#"{"foo":20241202,"when":{"at":"2024/12/02 01:13:23"}}"#;
    assert_eq!(transform_document(&spec, input), Ok(input.to_string()));
    let input = r#"{"foo":null,"when":["2024/12/02 01:13:23"]}"#;
    assert_eq!(transform_document(&spec, input), Ok(input.to_string()));
}

#[test]
fn nested_values_are_carried_through() {
    let spec = spec_for(&["foo"]);
    let input = r#"{"a":{"b":[1,2.5,{"c":null}],"d":"x"},"e":true,"foo":"2024/12/02 01:13:23","g":-7}"#;
    let out = transform_document(&spec, input).unwrap();
    assert_eq!(
        out,
        r#"{"a":{"b":[1,2.5,{"c":null}],"d":"x"},"e":true,"foo":"2024-02-12T00:13:23.000Z","g":-7}"#
    );
}

#[test]
fn several_listed_attributes_are_rewritten() {
    let spec = spec_for(&["start", "end"]);
    let input = r#"{"end":"2024/13/02 12:00:00","id":"2024/12/02 01:13:23","start":"2024/12/02 01:13:23"}"#;
    assert_eq!(
        transform_document(&spec, input),
        Ok(
            r#"{"end":"2024-02-13T11:00:00.000Z","id":"2024/12/02 01:13:23","start":"2024-02-12T00:13:23.000Z"}"#
                .to_string()
        )
    );
}

#[test]
fn name_listed_twice_counts_once() {
    let spec = spec_for(&["foo", "foo"]);
    assert_eq!(
        transform_document(&spec, r#"{"foo":"2024/12/02 01:13:23"}"#),
        Ok(r#"{"foo":"2024-02-12T00:13:23.000Z"}"#.to_string())
    );
}

#[test]
fn empty_field_list_leaves_the_document() {
    let spec = spec_for(&[]);
    let input = r#"{"foo":"2024/12/02 01:13:23"}"#;
    assert_eq!(transform_document(&spec, input), Ok(input.to_string()));
    assert_eq!(transform_document(&spec, "{}"), Ok("{}".to_string()));
}

#[test]
fn text_with_escapes_is_written_back_as_json() {
    let spec = spec_for(&["foo"]);
    let input = r#"{"foo":"2024/12/02 01:13:23","note":"a \"quoted\" line\nand more"}"#;
    assert_eq!(
        transform_document(&spec, input),
        Ok(
            r#"{"foo":"2024-02-12T00:13:23.000Z","note":"a \"quoted\" line\nand more"}"#
                .to_string()
        )
    );
}

#[test]
fn bad_date_in_a_listed_attribute_fails_the_record() {
    let spec = spec_for(&["foo"]);
    assert_eq!(
        transform(
            &spec,
            Mode::Structured,
            FailurePolicy::FailRecord,
            r#"{"bar":42,"foo":"not-a-date"}"#
        ),
        Err(TransformError::DateParseError {
            input: "not-a-date".to_string(),
            reason: "input contains invalid characters".to_string(),
        })
    );
}

#[test]
fn first_bad_attribute_in_document_order_is_reported() {
    let spec = spec_for(&["zeta", "alpha"]);
    assert_eq!(
        transform_document(&spec, r#"{"zeta":"2024/12/02 01:13","alpha":"tomorrow"}"#),
        Err(TransformError::DateParseError {
            input: "tomorrow".to_string(),
            reason: "input contains invalid characters".to_string(),
        })
    );
}

#[test]
fn bad_date_annotates_the_whole_record() {
    let spec = spec_for(&["foo"]);
    let input = r#"{"bar":42,"foo":"not-a-date"}"#;
    assert_eq!(
        transform(&spec, Mode::Structured, FailurePolicy::Annotate, input),
        Ok(format!(
            "error: Failed to parse date: input contains invalid characters\n{input}"
        ))
    );
}

#[test]
fn text_that_is_no_json_is_a_serialization_error() {
    let spec = spec_for(&["foo"]);
    for input in ["", "{", r#"{"foo":"#, "not json", r#"{"foo":"x"} trailing"#] {
        assert!(matches!(
            transform_document(&spec, input),
            Err(TransformError::SerializationError(_))
        ));
    }
}

#[test]
fn json_that_is_no_object_is_a_serialization_error() {
    let spec = spec_for(&["foo"]);
    for input in ["[1,2]", "42", "null", r#""2024/12/02 01:13:23""#, "true"] {
        assert!(matches!(
            transform_document(&spec, input),
            Err(TransformError::SerializationError(_))
        ));
    }
}

#[test]
fn serialization_error_carries_the_decoder_message() {
    let expected = serde_json::from_str::<serde_json::Map<String, serde_json::Value>>("{")
        .unwrap_err()
        .to_string();
    assert_eq!(
        Document::decode("{"),
        Err(TransformError::SerializationError(expected.clone()))
    );
    let spec = spec_for(&["foo"]);
    assert_eq!(
        transform(&spec, Mode::Structured, FailurePolicy::Annotate, "{"),
        Ok(format!("error: {expected}\n{{"))
    );
}

#[test]
fn decode_splits_texts_from_other_values() {
    let document = Document::decode(r#"{"foo":"a text","bar":42,"baz":[true]}"#).unwrap();
    assert_eq!(
        document,
        Document {
            attributes: vec![
                other("bar", serde_json::Value::from(42)),
                other("baz", serde_json::Value::from(vec![true])),
                text("foo", "a text"),
            ],
        }
    );
}

#[test]
fn encode_writes_one_json_object() {
    let document = Document {
        attributes: vec![
            text("foo", "a \"text\""),
            other("bar", serde_json::Value::from(42)),
            other("nothing", serde_json::Value::Null),
        ],
    };
    assert_eq!(
        document.encode(),
        Ok(r#"{"bar":42,"foo":"a \"text\"","nothing":null}"#.to_string())
    );
    assert_eq!(Document { attributes: Vec::new() }.encode(), Ok("{}".to_string()));
}

#[test]
fn decode_then_encode_gives_the_same_document() {
    let input = r#"{"a":[1,{"b":"c"}],"d":"e","f":1.5,"g":null}"#;
    assert_eq!(Document::decode(input).unwrap().encode(), Ok(input.to_string()));
}

#[test]
fn rewrite_touches_only_listed_texts() {
    let spec = spec_for(&["foo", "count"]);
    let document = Document {
        attributes: vec![
            text("bar", "2024/12/02 01:13:23"),
            other("count", serde_json::Value::from(3)),
            text("foo", "2024/12/02 01:13:23"),
            other("foo2", serde_json::Value::from("2024/12/02 01:13:23")),
        ],
    };
    assert_eq!(
        rewrite_document(&spec, document),
        Ok(Document {
            attributes: vec![
                text("bar", "2024/12/02 01:13:23"),
                other("count", serde_json::Value::from(3)),
                text("foo", "2024-02-12T00:13:23.000Z"),
                other("foo2", serde_json::Value::from("2024/12/02 01:13:23")),
            ],
        })
    );
}

#[test]
fn rewrite_keeps_order_and_rewrites_every_attribute_of_a_listed_name() {
    let spec = spec_for(&["foo"]);
    let document = Document {
        attributes: vec![
            text("foo", "2024/12/02 01:13:23"),
            text("a", "x"),
            text("foo", "2024/13/02 12:00:00"),
        ],
    };
    assert_eq!(
        rewrite_document(&spec, document),
        Ok(Document {
            attributes: vec![
                text("foo", "2024-02-12T00:13:23.000Z"),
                text("a", "x"),
                text("foo", "2024-02-13T11:00:00.000Z"),
            ],
        })
    );
}

#[test]
fn rewrite_of_an_empty_document_is_empty() {
    let spec = spec_for(&["foo"]);
    assert_eq!(
        rewrite_document(&spec, Document { attributes: Vec::new() }),
        Ok(Document { attributes: Vec::new() })
    );
}

#[test]
fn rewrite_fails_with_the_first_bad_text() {
    let spec = spec_for(&["foo", "bar"]);
    let document = Document {
        attributes: vec![
            text("foo", "2024/12/02 01:13:23"),
            text("bar", "first"),
            text("foo", "second"),
        ],
    };
    assert_eq!(
        rewrite_document(&spec, document),
        Err(TransformError::DateParseError {
            input: "first".to_string(),
            reason: "input contains invalid characters".to_string(),
        })
    );
}
