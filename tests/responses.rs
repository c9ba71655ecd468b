use pedidosya::{
    dispose, interpret_response, is_success_status, undecodable_message, ClientError,
    ConfirmEstimateError, ContentType, Disposition, GetShippingsEstimatesError,
    HttpErrorResponse, ResponseContent,
};

const MENLO_PARK: &str = "
        {
            \"status\": 403,
            \"message\": \"Menlo Park, CA\",
            \"code\": \"Menlo Park, CA\"
        }";

fn text_field(v: &serde_json::Value, name: &str) -> Option<String> {
    v.get(name).and_then(|f| f.as_str()).map(|s| s.to_owned())
}

/// Reads an error envelope out of a body, field by field.
fn envelope_of(body: &str) -> Option<HttpErrorResponse> {
    let v: serde_json::Value = serde_json::from_str(body).ok()?;
    if !v.is_object() {
        return None;
    }
    Some(HttpErrorResponse {
        status: v.get("status").and_then(|s| s.as_i64()).map(|s| s as i32),
        message: text_field(&v, "message"),
        code: text_field(&v, "code"),
    })
}

fn raw_of(body: &str) -> Option<serde_json::Value> {
    serde_json::from_str(body).ok()
}

fn envelope(status: Option<i32>) -> HttpErrorResponse {
    HttpErrorResponse {
        status,
        message: Some("m".to_owned()),
        code: Some("c".to_owned()),
    }
}

fn estimate_response(
    status: u16,
    header: Option<&str>,
    body: &str,
) -> Result<String, ClientError<GetShippingsEstimatesError>> {
    let ct = ContentType::classify(header);
    interpret_response(status, &ct, body.to_owned(), envelope_of(body), raw_of(body))
}

fn confirm_response(
    status: u16,
    header: Option<&str>,
    body: &str,
) -> Result<String, ClientError<ConfirmEstimateError>> {
    let ct = ContentType::classify(header);
    interpret_response(status, &ct, body.to_owned(), envelope_of(body), raw_of(body))
}

#[test]
fn test_serialization() {
    let e = envelope_of(MENLO_PARK).unwrap();
    let v = GetShippingsEstimatesError::from(e);
    match v {
        GetShippingsEstimatesError::Status403(e) => {
            assert_eq!(e.status, Some(403));
            assert_eq!(e.message.as_deref(), Some("Menlo Park, CA"));
            assert_eq!(e.code.as_deref(), Some("Menlo Park, CA"));
        },
        other => panic!("unexpected variant {:?}", other),
    }
}

#[test]
fn forbidden_estimate_is_a_typed_response_error() {
    let r = estimate_response(403, Some("application/json"), MENLO_PARK);
    match r {
        Err(ClientError::ResponseError(ResponseContent { status, content, entity })) => {
            assert_eq!(status, 403);
            assert_eq!(content, MENLO_PARK);
            match entity {
                Some(GetShippingsEstimatesError::Status403(e)) => {
                    assert_eq!(e.message.as_deref(), Some("Menlo Park, CA"));
                },
                other => panic!("unexpected entity {:?}", other),
            }
        },
        other => panic!("unexpected outcome {:?}", other),
    }
}

#[test]
fn pdf_on_success_is_a_decode_error() {
    let r = estimate_response(200, Some("application/pdf"), "%PDF-1.4");
    match r {
        Err(ClientError::Serde(e)) => assert!(e.to_string().contains("pdf")),
        other => panic!("unexpected outcome {:?}", other),
    }
}

#[test]
fn conflict_is_documented_only_for_confirmation() {
    let body = "{\"status\":409,\"message\":\"taken\",\"code\":\"CONFLICT\"}";
    match confirm_response(409, Some("application/json"), body) {
        Err(ClientError::ResponseError(c)) => {
            assert_eq!(c.status, 409);
            assert!(matches!(c.entity, Some(ConfirmEstimateError::Status409(_))));
        },
        other => panic!("unexpected outcome {:?}", other),
    }
    match estimate_response(409, Some("application/json"), body) {
        Err(ClientError::ResponseError(c)) => {
            assert!(matches!(c.entity, Some(GetShippingsEstimatesError::StatusNonExpected(_))));
        },
        other => panic!("unexpected outcome {:?}", other),
    }
}

#[test]
fn absent_content_type_on_success_is_a_decode_error() {
    let r = estimate_response(200, None, "{}");
    match r {
        Err(ClientError::Serde(e)) => assert!(e.to_string().contains("empty content type")),
        other => panic!("unexpected outcome {:?}", other),
    }
}

#[test]
fn json_on_success_hands_back_the_body() {
    let r = estimate_response(201, Some("application/json; charset=utf-8"), "{\"a\":1}");
    assert_eq!(r.unwrap(), "{\"a\":1}");
}

#[test]
fn unsupported_content_type_on_success_names_it() {
    let r = estimate_response(200, Some("text/html"), "<html></html>");
    match r {
        Err(ClientError::Serde(e)) => assert!(e.to_string().contains("`text/html`")),
        other => panic!("unexpected outcome {:?}", other),
    }
}

#[test]
fn non_json_failure_bodies_are_decode_errors() {
    for (status, header) in [
        (500u16, Some("text/html")),
        (404, None),
        (403, Some("application/pdf")),
    ] {
        match estimate_response(status, header, "{\"status\":403}") {
            Err(ClientError::Serde(_)) => {},
            other => panic!("unexpected outcome {:?}", other),
        }
    }
}

#[test]
fn failure_body_without_envelope_shape_keeps_the_raw_document() {
    match estimate_response(400, Some("application/json"), "[1,2]") {
        Err(ClientError::ResponseError(c)) => match c.entity {
            Some(GetShippingsEstimatesError::UnknownValue(v)) => {
                assert_eq!(v, raw_of("[1,2]").unwrap());
            },
            other => panic!("unexpected entity {:?}", other),
        },
        other => panic!("unexpected outcome {:?}", other),
    }
}

#[test]
fn failure_body_that_is_not_json_has_no_entity() {
    match confirm_response(502, Some("application/json"), "bad gateway") {
        Err(ClientError::ResponseError(c)) => {
            assert_eq!(c.status, 502);
            assert_eq!(c.content, "bad gateway");
            assert!(c.entity.is_none());
        },
        other => panic!("unexpected outcome {:?}", other),
    }
}

#[test]
fn documented_estimate_statuses_are_named() {
    assert!(matches!(
        GetShippingsEstimatesError::from(envelope(Some(400))),
        GetShippingsEstimatesError::Status400(_)
    ));
    assert!(matches!(
        GetShippingsEstimatesError::from(envelope(Some(403))),
        GetShippingsEstimatesError::Status403(_)
    ));
    assert!(matches!(
        GetShippingsEstimatesError::from(envelope(Some(500))),
        GetShippingsEstimatesError::Status500(_)
    ));
}

#[test]
fn documented_confirm_statuses_are_named() {
    assert!(matches!(
        ConfirmEstimateError::from(envelope(Some(400))),
        ConfirmEstimateError::Status400(_)
    ));
    assert!(matches!(
        ConfirmEstimateError::from(envelope(Some(403))),
        ConfirmEstimateError::Status403(_)
    ));
    assert!(matches!(
        ConfirmEstimateError::from(envelope(Some(409))),
        ConfirmEstimateError::Status409(_)
    ));
    assert!(matches!(
        ConfirmEstimateError::from(envelope(Some(500))),
        ConfirmEstimateError::Status500(_)
    ));
}

#[test]
fn undocumented_statuses_keep_the_envelope() {
    for status in [Some(418), Some(401), None] {
        match GetShippingsEstimatesError::from(envelope(status)) {
            GetShippingsEstimatesError::StatusNonExpected(e) => {
                assert_eq!(e.status, status);
                assert_eq!(e.message.as_deref(), Some("m"));
                assert_eq!(e.code.as_deref(), Some("c"));
            },
            other => panic!("unexpected variant {:?}", other),
        }
        match ConfirmEstimateError::from(envelope(status)) {
            ConfirmEstimateError::StatusNonExpected(e) => assert_eq!(e.status, status),
            other => panic!("unexpected variant {:?}", other),
        }
    }
}

#[test]
fn unknown_value_survives_a_clone() {
    let v = raw_of("{\"x\":[true]}").unwrap();
    let e = ConfirmEstimateError::UnknownValue(v.clone());
    match e.clone() {
        ConfirmEstimateError::UnknownValue(w) => assert_eq!(w, v),
        other => panic!("unexpected variant {:?}", other),
    }
}

#[test]
fn content_types_are_classified_by_prefix() {
    assert!(matches!(ContentType::classify(Some("application/json")), ContentType::Json));
    assert!(matches!(
        ContentType::classify(Some("application/json;charset=UTF-8")),
        ContentType::Json
    ));
    assert!(matches!(ContentType::classify(Some("application/pdf")), ContentType::Pdf));
    match ContentType::classify(Some("text/plain")) {
        ContentType::Unsupported(t) => assert_eq!(t, "text/plain"),
        other => panic!("unexpected class {:?}", other),
    }
    match ContentType::classify(Some("json")) {
        ContentType::Unsupported(t) => assert_eq!(t, "json"),
        other => panic!("unexpected class {:?}", other),
    }
    assert!(matches!(ContentType::classify(None), ContentType::Absent));
    assert!(matches!(ContentType::from(Some("application/pdf; x=1")), ContentType::Pdf));
    assert!(matches!(ContentType::from(None), ContentType::Absent));
}

#[test]
fn success_class_is_two_hundreds() {
    assert!(!is_success_status(199));
    assert!(is_success_status(200));
    assert!(is_success_status(299));
    assert!(!is_success_status(300));
    assert!(!is_success_status(404));
}

#[test]
fn dispositions_follow_status_and_media_type() {
    assert!(matches!(dispose(200, &ContentType::Json), Disposition::Payload));
    assert!(matches!(dispose(500, &ContentType::Json), Disposition::Envelope));
    match dispose(200, &ContentType::Pdf) {
        Disposition::Undecodable(m) => assert_eq!(
            m,
            "Received `application/pdf` content type response that cannot be converted to a model"
        ),
        other => panic!("unexpected disposition {:?}", other),
    }
    match dispose(404, &ContentType::Absent) {
        Disposition::Undecodable(m) => assert_eq!(
            m,
            "Received empty content type response that cannot be converted to a model"
        ),
        other => panic!("unexpected disposition {:?}", other),
    }
}

#[test]
fn unsupported_message_quotes_the_media_type() {
    let m = undecodable_message(&ContentType::Unsupported("image/png".to_owned()));
    assert_eq!(
        m,
        "Received `image/png` content type response that cannot be converted to a model"
    );
}

#[test]
fn json_errors_convert_to_decode_errors() {
    let e = serde_json::from_str::<u8>("x").unwrap_err();
    let text = e.to_string();
    match ClientError::<ConfirmEstimateError>::from(e) {
        ClientError::Serde(e) => assert_eq!(e.to_string(), text),
        other => panic!("unexpected error {:?}", other),
    }
}
