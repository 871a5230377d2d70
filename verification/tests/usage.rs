use chat_relay::metrics::database::extract_tokens;
use serde_json::Value;

fn doc(text: &str) -> Value {
    serde_json::from_str(text).unwrap()
}

#[test]
fn total_tokens_of_a_complete_response() {
    assert_eq!(extract_tokens(&doc(r#"{"usage":{"total_tokens": 42}}"#), false), 42);
}

#[test]
fn total_tokens_of_a_streamed_chunk() {
    assert_eq!(extract_tokens(&doc(r#"{"x_groq":{"usage":{"total_tokens": 7}}}"#), true), 7);
}

#[test]
fn empty_document_bills_nothing() {
    assert_eq!(extract_tokens(&doc("{}"), false), 0);
    assert_eq!(extract_tokens(&doc("{}"), true), 0);
}

#[test]
fn negative_count_is_clamped_to_zero() {
    assert_eq!(extract_tokens(&doc(r#"{"usage":{"total_tokens": -5}}"#), false), 0);
}

#[test]
fn count_above_i32_is_clamped() {
    assert_eq!(extract_tokens(&doc(r#"{"usage":{"total_tokens": 2147483647}}"#), false), i32::MAX);
    assert_eq!(extract_tokens(&doc(r#"{"usage":{"total_tokens": 2147483648}}"#), false), i32::MAX);
    assert_eq!(
        extract_tokens(&doc(r#"{"usage":{"total_tokens": 9223372036854775807}}"#), false),
        i32::MAX
    );
}

#[test]
fn count_above_i64_is_clamped() {
    assert_eq!(
        extract_tokens(&doc(r#"{"usage":{"total_tokens": 18446744073709551615}}"#), false),
        i32::MAX
    );
}

#[test]
fn lowest_integer_is_clamped_to_zero() {
    assert_eq!(
        extract_tokens(&doc(r#"{"usage":{"total_tokens": -9223372036854775808}}"#), false),
        0
    );
}

#[test]
fn count_that_is_no_integer_bills_nothing() {
    assert_eq!(extract_tokens(&doc(r#"{"usage":{"total_tokens": 12.5}}"#), false), 0);
    assert_eq!(extract_tokens(&doc(r#"{"usage":{"total_tokens": "12"}}"#), false), 0);
    assert_eq!(extract_tokens(&doc(r#"{"usage":{"total_tokens": null}}"#), false), 0);
    assert_eq!(extract_tokens(&doc(r#"{"usage":{"total_tokens": true}}"#), false), 0);
}

#[test]
fn usage_is_read_from_the_path_of_the_mode() {
    let both = doc(r#"{"usage":{"total_tokens": 1},"x_groq":{"usage":{"total_tokens": 2}}}"#);
    assert_eq!(extract_tokens(&both, false), 1);
    assert_eq!(extract_tokens(&both, true), 2);
    let plain = doc(r#"{"usage":{"total_tokens": 9}}"#);
    assert_eq!(extract_tokens(&plain, true), 0);
    let streamed = doc(r#"{"x_groq":{"usage":{"total_tokens": 9}}}"#);
    assert_eq!(extract_tokens(&streamed, false), 0);
}

#[test]
fn documents_that_are_no_objects_bill_nothing() {
    for text in ["null", "true", "3", "\"usage\"", "[1,2]", r#"[{"usage":{"total_tokens":4}}]"#] {
        assert_eq!(extract_tokens(&doc(text), false), 0);
        assert_eq!(extract_tokens(&doc(text), true), 0);
    }
    assert_eq!(extract_tokens(&doc(r#"{"usage": 5}"#), false), 0);
    assert_eq!(extract_tokens(&doc(r#"{"usage": [5]}"#), false), 0);
    assert_eq!(extract_tokens(&doc(r#"{"x_groq": {"usage": "none"}}"#), true), 0);
}

#[test]
fn result_is_always_within_range() {
    for text in [
        r#"{"usage":{"total_tokens": 0}}"#,
        r#"{"usage":{"total_tokens": 1}}"#,
        r#"{"usage":{"total_tokens": -1}}"#,
        r#"{"usage":{"total_tokens": 4294967296}}"#,
        r#"{"usage":{"total_tokens": 1e40}}"#,
    ] {
        let tokens = extract_tokens(&doc(text), false);
        assert!(tokens >= 0);
    }
}
