use news_letter::idempotency::key::IdempotencyKey;
use news_letter::idempotency::persistence::{
    get_saved_response, save_response, try_processing, IdempotencyError, NextAction, SavedRecord,
};
use news_letter::response::{see_other, HeaderPair, SavedResponse};

fn sample_response() -> SavedResponse {
    let headers = vec![
        HeaderPair { name: "location".to_string(), value: b"/admin/newsletters".to_vec() },
        HeaderPair { name: "x-extra".to_string(), value: vec![1, 2, 3] },
    ];
    SavedResponse::new(303, headers, b"body".to_vec()).unwrap()
}

#[test]
fn empty_key_is_rejected() {
    let err = IdempotencyKey::parse(String::new()).unwrap_err();
    assert_eq!(err, "The idempotency key cannot be empty");
}

#[test]
fn long_key_is_rejected() {
    let err = IdempotencyKey::parse("k".repeat(50)).unwrap_err();
    assert_eq!(err, "The idempotency key must be shorter than 50 characters");
    let ok = IdempotencyKey::parse("k".repeat(49)).unwrap();
    assert_eq!(ok.as_str(), "k".repeat(49));
}

#[test]
fn key_length_counts_bytes() {
    // 25 two-byte characters make 50 bytes.
    assert!(IdempotencyKey::parse("é".repeat(25)).is_err());
    assert!(IdempotencyKey::parse("é".repeat(24)).is_ok());
}

#[test]
fn no_row_means_no_saved_response() {
    assert!(matches!(get_saved_response(None), Ok(None)));
}

#[test]
fn negative_status_is_out_of_range() {
    let record = SavedRecord { response_status_code: -1, response_headers: vec![], response_body: vec![] };
    assert!(matches!(get_saved_response(Some(record)), Err(IdempotencyError::StatusOutOfRange)));
}

#[test]
fn status_outside_three_digits_is_invalid() {
    for code in [0i16, 99, 1000, i16::MAX] {
        let record = SavedRecord { response_status_code: code, response_headers: vec![], response_body: vec![] };
        assert!(matches!(get_saved_response(Some(record)), Err(IdempotencyError::InvalidStatusCode)));
    }
}

#[test]
fn stored_row_gives_back_the_response() {
    let record = SavedRecord {
        response_status_code: 200,
        response_headers: vec![HeaderPair { name: "a".to_string(), value: b"b".to_vec() }],
        response_body: b"hello".to_vec(),
    };
    let r = get_saved_response(Some(record)).unwrap().unwrap();
    assert_eq!(r.status(), 200);
    assert_eq!(r.headers().len(), 1);
    assert_eq!(r.headers()[0].name, "a");
    assert_eq!(r.headers()[0].value, b"b".to_vec());
    assert_eq!(r.body(), &b"hello".to_vec());
}

#[test]
fn save_then_get_round_trip() {
    let response = sample_response();
    let record = save_response(&response);
    assert_eq!(record.response_status_code, 303);
    assert_eq!(record.response_headers.len(), 2);
    assert_eq!(record.response_body, b"body".to_vec());
    let back = get_saved_response(Some(record)).unwrap().unwrap();
    assert_eq!(back.status(), response.status());
    assert_eq!(back.body(), response.body());
    for (a, b) in back.headers().iter().zip(response.headers().iter()) {
        assert_eq!(a.name, b.name);
        assert_eq!(a.value, b.value);
    }
}

#[test]
fn fresh_key_starts_processing() {
    assert!(matches!(try_processing(1, None), Ok(NextAction::StartProcessing)));
    assert!(matches!(try_processing(3, Some(sample_response())), Ok(NextAction::StartProcessing)));
}

#[test]
fn repeated_key_returns_saved_response() {
    match try_processing(0, Some(sample_response())) {
        Ok(NextAction::ReturnSavedResponse(r)) => assert_eq!(r.status(), 303),
        _ => panic!("expected the saved response"),
    }
}

#[test]
fn repeated_key_without_saved_response_is_an_error() {
    let err = match try_processing(0, None) {
        Err(e) => e,
        Ok(_) => panic!("expected an error"),
    };
    assert_eq!(err, IdempotencyError::MissingSavedResponse);
    assert_eq!(err.message(), "We expected a saved response, we didn't find it");
}

#[test]
fn error_messages() {
    assert_eq!(IdempotencyError::StatusOutOfRange.message(), "out of range integral type conversion attempted");
    assert_eq!(IdempotencyError::InvalidStatusCode.message(), "invalid status code");
}

#[test]
fn invalid_status_cannot_make_a_response() {
    assert!(SavedResponse::new(99, vec![], vec![]).is_none());
    assert!(SavedResponse::new(1000, vec![], vec![]).is_none());
    assert!(SavedResponse::new(100, vec![], vec![]).is_some());
    assert!(SavedResponse::new(999, vec![], vec![]).is_some());
}

#[test]
fn see_other_redirects() {
    let r = see_other("/admin/newsletters");
    assert_eq!(r.status(), 303);
    assert_eq!(r.headers().len(), 1);
    assert_eq!(r.headers()[0].name, "location");
    assert_eq!(r.headers()[0].value, b"/admin/newsletters".to_vec());
    assert!(r.body().is_empty());
    let copy = r.duplicate();
    assert_eq!(copy.status(), 303);
    assert_eq!(copy.headers()[0].value, r.headers()[0].value);
}
