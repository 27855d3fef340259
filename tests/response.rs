use kubernetes_apimachinery::json::{parse_json, Json};
use kubernetes_apimachinery::response::{content_length_parse_all_values, status_error, ApiError, Response};
use kubernetes_apimachinery::status::{Status, StatusCause, StatusDetails, StatusReason, StatusStatus};

fn obj(members: Vec<(&str, Json)>) -> Json {
    Json::Object(members.into_iter().map(|(k, v)| (k.to_string(), v)).collect())
}

#[test]
fn deser_empty() {
    let resp = Response::from_http_response(200, None, b"ignored").unwrap();
    assert_eq!(resp.status(), 200);
    assert_eq!(*resp.body(), Json::Null);
}

#[test]
fn deser_json() {
    let resp = Response::from_http_response(200, Some("application/json"), br#"{"foo": "bar"}"#).unwrap();
    assert_eq!(resp.status(), 200);
    assert_eq!(*resp.body(), obj(vec![("foo", Json::Str("bar".to_string()))]));
}

#[test]
fn malformed_json_body_is_a_decode_error() {
    let r = Response::from_http_response(200, Some("application/json"), br#"{"field": 42"#);
    match r {
        Err(ApiError::Decode(e)) => {
            assert_eq!(e.input, br#"{"field": 42"#.to_vec());
            assert_eq!(e.to_string(), "unable to parse: {\"field\": 42");
        }
        other => panic!("unexpected {:?}", other),
    }
}

#[test]
fn decode_error_snippet_is_bounded() {
    let mut input = b"first line\n".to_vec();
    input.extend(std::iter::repeat(b'x').take(3000));
    let e = kubernetes_apimachinery::response::DecodeError { line: 2, column: 2500, input };
    assert_eq!(e.snippet().len(), 1024);
    let e = kubernetes_apimachinery::response::DecodeError { line: 1, column: 5, input: b"first line\n".to_vec() };
    assert_eq!(e.snippet(), b"first".to_vec());
    let e = kubernetes_apimachinery::response::DecodeError { line: 9, column: 5, input: b"a\nb".to_vec() };
    assert!(e.snippet().is_empty());
}

#[test]
fn unknown_content_type_is_refused() {
    match Response::from_http_response(200, Some("text/plain"), b"hi") {
        Err(ApiError::UnknownContentType(e)) => assert_eq!(e.value, "text/plain"),
        other => panic!("unexpected {:?}", other),
    }
}

#[test]
fn error_status_round_trip() {
    let body = br#"{"code":404,"message":"double-plus unfound","status":"Failure"}"#;
    match Response::from_http_response(404, Some("application/json"), body) {
        Err(ApiError::Api(s)) => {
            assert_eq!(s.code, 404);
            assert_eq!(s.status, Some(StatusStatus::Failure));
            assert_eq!(s.message, Some("double-plus unfound".to_string()));
            assert!(s.to_string().contains("double-plus unfound"));
            assert_eq!(s.to_string(), "Some(Failure): double-plus unfound");
        }
        other => panic!("unexpected {:?}", other),
    }
}

#[test]
fn malformed_error_body_falls_back_to_http_status() {
    assert_eq!(status_error(500, b"<html>oops</html>"), ApiError::HttpStatus(500));
    assert_eq!(status_error(503, b""), ApiError::HttpStatus(503));
    assert_eq!(status_error(400, br#"{"code":"NaN"}"#), ApiError::HttpStatus(400));
    assert!(matches!(status_error(409, br#"{"code":409,"reason":"Conflict"}"#), ApiError::Api(_)));
}

#[test]
fn status_with_causes_formats_them() {
    let body = br#"{"kind":"Status","apiVersion":"v1","code":422,"reason":"Invalid","message":"bad",
        "details":{"name":"x","causes":[{"field":"spec","message":"is required"},{"field":"meta","reason":"FieldValueInvalid"},{"field":"z"}]}}"#;
    let j = parse_json(body).unwrap();
    let s = Status::from_json(&j).unwrap();
    assert_eq!(s.reason, Some(StatusReason::Invalid));
    let d: &StatusDetails = s.details.as_ref().unwrap();
    assert_eq!(d.name, Some("x".to_string()));
    assert_eq!(d.causes.len(), 3);
    assert_eq!(d.causes[2], StatusCause { field: "z".to_string(), message: None, reason: None });
    assert_eq!(s.to_string(), "Invalid: bad, caused by is required, caused by FieldValueInvalid");
}

#[test]
fn status_type_information_is_checked() {
    assert!(Status::from_json(&parse_json(br#"{"kind":"Pod","apiVersion":"v1"}"#).unwrap()).is_err());
    assert!(Status::from_json(&parse_json(br#"{"kind":"Status"}"#).unwrap()).is_err());
    assert!(Status::from_json(&parse_json(br#"{"reason":"NoSuchReason"}"#).unwrap()).is_err());
    assert!(Status::from_json(&parse_json(br#"[1]"#).unwrap()).is_err());
    let s = Status::from_json(&parse_json(br#"{}"#).unwrap()).unwrap();
    assert_eq!(s, Status::default());
    assert_eq!(s.to_string(), "None");
}

#[test]
fn response_accessors() {
    let r = Response::ok(5u8);
    assert_eq!(r.status(), 200);
    assert_eq!(*r.body(), 5);
    assert_eq!(r.into_body(), 5);
}

#[test]
fn status_from_vec_outcomes() {
    let s = Status::from_vec(br#"{"code":410,"reason":"Expired"}"#.to_vec()).unwrap();
    assert_eq!((s.code, s.reason), (410, Some(StatusReason::Expired)));
    assert!(matches!(Status::from_vec(b"nope".to_vec()), Err(ApiError::Decode(_))));
    assert_eq!(Status::from_vec(b"[]".to_vec()), Err(ApiError::Malformed(b"[]".to_vec())));
}

#[test]
fn content_length_values_must_agree() {
    let v = |xs: &[Option<&str>]| xs.iter().map(|x| x.map(|s| s.to_string())).collect::<Vec<_>>();
    assert_eq!(content_length_parse_all_values(&v(&[Some("42")])), Some(42));
    assert_eq!(content_length_parse_all_values(&v(&[Some("42"), Some("+42")])), Some(42));
    assert_eq!(content_length_parse_all_values(&v(&[Some("42"), Some("43")])), None);
    assert_eq!(content_length_parse_all_values(&v(&[Some("x")])), None);
    assert_eq!(content_length_parse_all_values(&v(&[Some("42"), None])), None);
    assert_eq!(content_length_parse_all_values(&v(&[])), None);
    assert_eq!(content_length_parse_all_values(&v(&[Some("18446744073709551615")])), Some(u64::MAX));
    assert_eq!(content_length_parse_all_values(&v(&[Some("18446744073709551616")])), None);
}
