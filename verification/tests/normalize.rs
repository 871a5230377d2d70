use chat_relay::error::APIError;
use chat_relay::models::ModelCatalog;
use chat_relay::routes::completions::{normalize, validate_model};
use serde_json::Value;

fn doc(text: &str) -> Value {
    serde_json::from_str(text).unwrap()
}

fn catalog() -> ModelCatalog {
    ModelCatalog::new("alpha, beta,gamma", "beta")
}

fn normal(text: &str) -> Value {
    let mut request = doc(text);
    normalize(&mut request, &catalog());
    request
}

#[test]
fn missing_model_gets_the_default() {
    assert_eq!(normal(r#"{"messages":[]}"#), doc(r#"{"messages":[],"model":"beta"}"#));
}

#[test]
fn unlisted_model_gets_the_default() {
    assert_eq!(normal(r#"{"model":"delta"}"#), doc(r#"{"model":"beta"}"#));
    assert_eq!(normal(r#"{"model":""}"#), doc(r#"{"model":"beta"}"#));
    assert_eq!(normal(r#"{"model":" alpha"}"#), doc(r#"{"model":"beta"}"#));
}

#[test]
fn model_of_another_type_gets_the_default() {
    assert_eq!(normal(r#"{"model":7}"#), doc(r#"{"model":"beta"}"#));
    assert_eq!(normal(r#"{"model":null}"#), doc(r#"{"model":"beta"}"#));
    assert_eq!(normal(r#"{"model":["alpha"]}"#), doc(r#"{"model":"beta"}"#));
    assert_eq!(normal(r#"{"model":{"name":"alpha"}}"#), doc(r#"{"model":"beta"}"#));
}

#[test]
fn listed_model_is_kept() {
    assert_eq!(normal(r#"{"model":"alpha"}"#), doc(r#"{"model":"alpha"}"#));
    assert_eq!(normal(r#"{"model":"gamma"}"#), doc(r#"{"model":"gamma"}"#));
    assert_eq!(normal(r#"{"model":"beta"}"#), doc(r#"{"model":"beta"}"#));
}

#[test]
fn valid_tier_is_kept() {
    assert_eq!(
        normal(r#"{"model":"alpha","service_tier":"flex"}"#),
        doc(r#"{"model":"alpha","service_tier":"flex"}"#)
    );
    assert_eq!(
        normal(r#"{"model":"alpha","service_tier":"on_demand"}"#),
        doc(r#"{"model":"alpha","service_tier":"on_demand"}"#)
    );
}

#[test]
fn other_tier_is_removed() {
    for tier in [r#""auto""#, r#""Flex""#, r#""flex ""#, r#""""#, "1", "null", "true", r#"["flex"]"#] {
        let text = format!(r#"{{"model":"alpha","service_tier":{}}}"#, tier);
        assert_eq!(normal(&text), doc(r#"{"model":"alpha"}"#));
    }
}

#[test]
fn absent_tier_stays_absent() {
    let request = normal(r#"{"model":"alpha"}"#);
    assert!(request.get("service_tier").is_none());
}

#[test]
fn other_members_pass_through() {
    let request = normal(
        r#"{"messages":[{"role":"user","content":"hi"}],"stream":true,"temperature":0.25,"n":3,"stop":null,"service_tier":"auto","model":"zeta"}"#,
    );
    assert_eq!(
        request,
        doc(
            r#"{"messages":[{"role":"user","content":"hi"}],"stream":true,"temperature":0.25,"n":3,"stop":null,"model":"beta"}"#
        )
    );
}

#[test]
fn document_that_is_no_object_is_left_alone() {
    for text in ["null", "true", "12", "\"model\"", "[]", r#"[{"model":"zeta"}]"#] {
        assert_eq!(normal(text), doc(text));
    }
}

#[test]
fn normalizing_twice_changes_nothing_more() {
    for text in [
        "{}",
        r#"{"model":"alpha","service_tier":"flex"}"#,
        r#"{"model":"zeta","service_tier":"slow","x":[1,2,{"y":null}]}"#,
        r#"{"model":5}"#,
        "[1]",
    ] {
        let once = normal(text);
        let mut twice = once.clone();
        normalize(&mut twice, &catalog());
        assert_eq!(once, twice);
    }
}

#[test]
fn default_outside_the_list_is_still_the_default() {
    let odd = ModelCatalog::new("alpha", "omega");
    let mut request = doc(r#"{"model":"omega"}"#);
    normalize(&mut request, &odd);
    assert_eq!(request, doc(r#"{"model":"omega"}"#));
    let mut other = doc(r#"{"model":"beta"}"#);
    normalize(&mut other, &odd);
    assert_eq!(other, doc(r#"{"model":"omega"}"#));
}

#[test]
fn body_is_normalized_and_written_back() {
    let out = validate_model(br#"{ "service_tier": "auto", "messages": [] }"#, &catalog()).unwrap();
    assert_eq!(out, br#"{"messages":[],"model":"beta"}"#.to_vec());
}

#[test]
fn body_with_valid_fields_is_written_back() {
    let out =
        validate_model(br#"{"model":"gamma","service_tier":"flex","stream":true}"#, &catalog())
            .unwrap();
    assert_eq!(out, br#"{"model":"gamma","service_tier":"flex","stream":true}"#.to_vec());
}

#[test]
fn body_that_is_no_json_is_refused() {
    assert_eq!(validate_model(b"{", &catalog()), Err(APIError::InvalidJson));
    assert_eq!(validate_model(b"", &catalog()), Err(APIError::InvalidJson));
    assert_eq!(validate_model(b"{\"model\":\"alpha\"} trailing", &catalog()), Err(APIError::InvalidJson));
    assert_eq!(validate_model(&[0xff, 0xfe], &catalog()), Err(APIError::InvalidJson));
}

#[test]
fn body_that_is_no_object_is_written_back() {
    assert_eq!(validate_model(b" [1, 2] ", &catalog()), Ok(b"[1,2]".to_vec()));
}
