use cas_login::http::{Body, Field, Method, Payload, ReadBody, Request};
use cas_login::json::{Json, Member};
use cas_login::login::LoginError;
use cas_login::mfa::{detect_request, mfa_state};

fn object(members: Vec<(&str, Json)>) -> Json {
    Json::Object(
        members.into_iter().map(|(k, v)| Member { key: k.to_string(), value: v }).collect(),
    )
}

fn text(s: &str) -> Json {
    Json::Text(s.to_string())
}

fn mismatch(answer: Json) -> Result<String, LoginError> {
    Err(LoginError::MFADetectFailure(Some(answer)))
}

#[test]
fn state_none_is_returned() {
    let answer = object(vec![("data", object(vec![("state", text("NONE"))]))]);
    assert_eq!(mfa_state(Body::Json(answer)), Ok("NONE".to_string()));
}

#[test]
fn state_is_returned_whatever_else_the_answer_holds() {
    let answer = object(vec![
        ("code", Json::Number("0".to_string())),
        ("data", object(vec![("need", Json::Bool(false)), ("state", text("7f3a-token"))])),
        ("message", Json::Null),
    ]);
    assert_eq!(mfa_state(Body::Json(answer)), Ok("7f3a-token".to_string()));
}

#[test]
fn empty_data_is_a_shape_mismatch() {
    let answer = || object(vec![("data", object(vec![]))]);
    assert_eq!(mfa_state(Body::Json(answer())), mismatch(answer()));
}

#[test]
fn empty_object_is_a_shape_mismatch() {
    assert_eq!(mfa_state(Body::Json(object(vec![]))), mismatch(object(vec![])));
}

#[test]
fn non_object_top_level_is_a_shape_mismatch() {
    for answer in [
        || Json::Null,
        || Json::Bool(true),
        || Json::Number("1".to_string()),
        || Json::Text("NONE".to_string()),
        || Json::Array(vec![Json::Text("NONE".to_string())]),
    ] {
        assert_eq!(mfa_state(Body::Json(answer())), mismatch(answer()));
    }
}

#[test]
fn data_that_is_no_object_is_a_shape_mismatch() {
    let answer = || object(vec![("data", text("NONE"))]);
    assert_eq!(mfa_state(Body::Json(answer())), mismatch(answer()));
    let list = || object(vec![("data", Json::Array(vec![]))]);
    assert_eq!(mfa_state(Body::Json(list())), mismatch(list()));
}

#[test]
fn state_that_is_no_text_is_a_shape_mismatch() {
    let answer = || object(vec![("data", object(vec![("state", Json::Null)]))]);
    assert_eq!(mfa_state(Body::Json(answer())), mismatch(answer()));
    let number = || object(vec![("data", object(vec![("state", Json::Number("1".to_string()))]))]);
    assert_eq!(mfa_state(Body::Json(number())), mismatch(number()));
}

#[test]
fn body_that_is_no_json_leaves_the_error_empty() {
    for body in [
        Body::Unread,
        Body::Failed("expected value at line 1 column 1".to_string()),
        Body::Text("{\"data\":{\"state\":\"NONE\"}}".to_string()),
    ] {
        assert_eq!(mfa_state(body), Err(LoginError::MFADetectFailure(None)));
    }
}

#[test]
fn detection_request() {
    let field = |name: &str, value: &str| Field { name: name.to_string(), value: value.to_string() };
    assert_eq!(
        detect_request("2213710000", "__RSA__abc=", "fp-001"),
        Request {
            method: Method::Post,
            url: "https://login.xjtu.edu.cn/cas/mfa/detect".to_string(),
            payload: Payload::Form(vec![
                field("username", "2213710000"),
                field("password", "__RSA__abc="),
                field("fpVisitorId", "fp-001"),
            ]),
            read: ReadBody::Json,
        }
    );
}

fn from_value(value: serde_json::Value) -> Json {
    match value {
        serde_json::Value::Null => Json::Null,
        serde_json::Value::Bool(b) => Json::Bool(b),
        serde_json::Value::Number(n) => Json::Number(n.to_string()),
        serde_json::Value::String(s) => Json::Text(s),
        serde_json::Value::Array(items) => Json::Array(items.into_iter().map(from_value).collect()),
        serde_json::Value::Object(members) => Json::Object(
            members
                .into_iter()
                .map(|(key, value)| Member { key, value: from_value(value) })
                .collect(),
        ),
    }
}

fn body(source: &str) -> Body {
    match serde_json::from_str(source) {
        Ok(value) => Body::Json(from_value(value)),
        Err(e) => Body::Failed(e.to_string()),
    }
}

fn parsed(source: &str) -> Json {
    from_value(serde_json::from_str(source).unwrap())
}

#[test]
fn detector_on_the_documented_answer() {
    assert_eq!(mfa_state(body("{\"data\":{\"state\":\"NONE\"}}")), Ok("NONE".to_string()));
}

#[test]
fn detector_on_answers_of_other_shapes() {
    for source in ["{\"data\":{}}", "{}", "[]", "\"NONE\"", "null", "7", "{\"data\":null}"] {
        assert_eq!(
            mfa_state(body(source)),
            Err(LoginError::MFADetectFailure(Some(parsed(source)))),
            "{}",
            source
        );
    }
}

#[test]
fn detector_on_an_answer_that_is_no_json() {
    assert_eq!(mfa_state(body("<html>busy</html>")), Err(LoginError::MFADetectFailure(None)));
    assert_eq!(mfa_state(body("")), Err(LoginError::MFADetectFailure(None)));
}
