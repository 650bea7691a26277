use ship_compliant_v1::dynvalue::DynValue;
use ship_compliant_v1::normalize::{extract_response, finish_call, ApiError};

fn key(k: &str, v: DynValue) -> (String, DynValue) {
    (String::from(k), v)
}

#[test]
fn success_payload_comes_back_as_data() {
    let payload = DynValue::Object(vec![key("salesOrderKey", DynValue::Str(String::from("SO-1")))]);
    let r = extract_response(Ok(payload)).unwrap();
    assert_eq!(
        r,
        DynValue::Object(vec![key("salesOrderKey", DynValue::Str(String::from("SO-1")))]),
    );
}

#[test]
fn success_payload_is_snake_cased_by_a_finished_call() {
    let payload = DynValue::Object(vec![
        key("salesOrderKey", DynValue::Str(String::from("SO-1"))),
        key("trackingNumbers", DynValue::List(vec![DynValue::Str(String::from("1Z"))])),
    ]);
    let r = finish_call(Ok(payload)).unwrap();
    assert_eq!(
        r,
        DynValue::Object(vec![
            key("sales_order_key", DynValue::Str(String::from("SO-1"))),
            key("tracking_numbers", DynValue::List(vec![DynValue::Str(String::from("1Z"))])),
        ]),
    );
}

#[test]
fn structured_error_body_comes_back_as_data_not_raised() {
    let body = DynValue::Object(vec![key("errorCode", DynValue::Str(String::from("INVALID_KEY")))]);
    let r = finish_call(Err(ApiError::ErrorResponse(body))).unwrap();
    assert_eq!(
        r,
        DynValue::Object(vec![key("error_code", DynValue::Str(String::from("INVALID_KEY")))]),
    );
}

#[test]
fn unexpected_response_body_is_parsed_into_data() {
    let bytes = b"{\"statusCode\": 500, \"detail\": \"boom\"}".to_vec();
    let r = finish_call(Err(ApiError::UnexpectedResponse(bytes))).unwrap();
    assert_eq!(
        r,
        DynValue::Object(vec![
            key("status_code", DynValue::Num(String::from("500"))),
            key("detail", DynValue::Str(String::from("boom"))),
        ]),
    );
}

#[test]
fn invalid_payload_bytes_are_parsed_into_data() {
    let bytes = b"[1, true, null, \"x\"]".to_vec();
    let r = extract_response(Err(ApiError::InvalidResponsePayload(bytes))).unwrap();
    assert_eq!(
        r,
        DynValue::List(vec![
            DynValue::Num(String::from("1")),
            DynValue::Bool(true),
            DynValue::Null,
            DynValue::Str(String::from("x")),
        ]),
    );
}

#[test]
fn unparseable_unexpected_body_raises() {
    let bytes = b"<html>not json</html>".to_vec();
    let e = finish_call(Err(ApiError::UnexpectedResponse(bytes))).unwrap_err();
    assert!(e.message.contains("error:"));
}

#[test]
fn unparseable_invalid_payload_raises() {
    let bytes = b"".to_vec();
    let e = extract_response(Err(ApiError::InvalidResponsePayload(bytes))).unwrap_err();
    assert!(e.message.contains("error:"));
}

#[test]
fn transport_failure_raises_with_its_cause() {
    let cause = String::from("Connection refused (os error 111)");
    let e = finish_call(Err(ApiError::Other(cause))).unwrap_err();
    assert_eq!(e.message, "error: Connection refused (os error 111)");
    assert!(e.message.contains("error:"));
    assert!(e.message.contains("Connection refused"));
}

#[test]
fn nested_json_numbers_survive_as_their_text() {
    let bytes = b"{\"rate\": 0.0825}".to_vec();
    let r = extract_response(Err(ApiError::UnexpectedResponse(bytes))).unwrap();
    assert_eq!(r, DynValue::Object(vec![key("rate", DynValue::Num(String::from("0.0825")))]));
}
