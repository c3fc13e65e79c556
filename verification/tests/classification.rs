use checkout_client::ApiError;
use checkout_client::CreatePaymentResponse;
use checkout_client::Error;
use checkout_client::PaymentProcessed;
use checkout_client::PaymentStatus;
use checkout_client::PendingPayment;
use checkout_client::classify_create_payment;
use checkout_client::classify_response;

fn processed(id: &str, action_id: &str, amount: u64, currency: &str, approved: bool) -> PaymentProcessed {
    PaymentProcessed {
        id: id.to_string(),
        action_id: action_id.to_string(),
        amount,
        currency: currency.to_string(),
        approved,
        status: PaymentStatus::Authorized,
        auth_code: None,
        response_code: "10000".to_string(),
        response_summary: None,
        three_ds: None,
        risk: None,
        source: None,
        customer: None,
        processed_on: "2020-01-01T00:00:00Z".to_string(),
        reference: None,
        processing: None,
        eci: None,
        scheme_id: None,
        links: None,
    }
}

fn pending(id: &str) -> PendingPayment {
    PendingPayment {
        id: id.to_string(),
        status: PaymentStatus::Pending,
        customer: None,
        reference: None,
        three_ds: None,
        links: None,
    }
}

fn api_error() -> ApiError {
    ApiError {
        request_id: "req_9".to_string(),
        error_type: "request_invalid".to_string(),
        error_codes: vec!["amount_invalid".to_string(), "currency_required".to_string()],
    }
}

#[test]
fn created_status_yields_processed() {
    let body = processed("pay_1", "act_1", 2000, "USD", true);
    let out = classify_create_payment(201, Some(body.clone()), None, None, String::new());
    assert_eq!(out, Ok(CreatePaymentResponse::Processed(body)));
}

#[test]
fn accepted_status_yields_pending() {
    let body = pending("pay_2");
    let out = classify_create_payment(202, None, Some(body.clone()), None, String::new());
    assert_eq!(out, Ok(CreatePaymentResponse::Pending(body)));
}

#[test]
fn unauthorized_status_yields_unauthorized() {
    let out = classify_create_payment(401, None, None, None, String::new());
    assert_eq!(out, Err(Error::Unauthorized));
}

#[test]
fn unprocessable_status_carries_the_error_body() {
    let out = classify_create_payment(422, None, None, Some(api_error()), String::new());
    match out {
        Err(Error::InvalidData(e)) => {
            assert_eq!(e.request_id, "req_9");
            assert_eq!(e.error_type, "request_invalid");
            assert_eq!(e.error_codes, vec!["amount_invalid", "currency_required"]);
        }
        other => panic!("not invalid-data: {:?}", other),
    }
}

#[test]
fn too_many_requests_status_yields_rate_limited() {
    let out = classify_create_payment(429, None, None, None, String::new());
    assert_eq!(out, Err(Error::RateLimited));
}

#[test]
fn unmapped_status_is_surfaced_with_the_raw_body() {
    let out = classify_create_payment(418, None, None, None, "short and stout".to_string());
    assert_eq!(out, Err(Error::Unexpected(418, "short and stout".to_string())));
}

#[test]
fn unparsed_success_body_is_a_schema_mismatch() {
    let out = classify_create_payment(201, None, None, None, "{}".to_string());
    assert_eq!(out, Err(Error::Deserialize));
    let out = classify_create_payment(202, None, None, None, "{}".to_string());
    assert_eq!(out, Err(Error::Deserialize));
}

#[test]
fn generic_success_returns_the_parsed_body() {
    let out = classify_response::<u32>(200, Some(7), None, String::new());
    assert_eq!(out, Ok(7));
    let out = classify_response::<u32>(204, Some(7), None, String::new());
    assert_eq!(out, Ok(7));
}

#[test]
fn generic_success_without_a_parse_is_a_schema_mismatch() {
    let out = classify_response::<u32>(200, None, None, "oops".to_string());
    assert_eq!(out, Err(Error::Deserialize));
}

#[test]
fn generic_errors_classify_by_status() {
    assert_eq!(
        classify_response::<u32>(401, None, None, String::new()),
        Err(Error::Unauthorized)
    );
    match classify_response::<u32>(422, None, Some(api_error()), String::new()) {
        Err(Error::InvalidData(e)) => assert_eq!(e.request_id, "req_9"),
        other => panic!("not invalid-data: {:?}", other),
    }
    assert_eq!(
        classify_response::<u32>(422, None, None, String::new()),
        Err(Error::Deserialize)
    );
    assert_eq!(
        classify_response::<u32>(429, None, None, String::new()),
        Err(Error::RateLimited)
    );
    assert_eq!(
        classify_response::<u32>(500, None, None, "boom".to_string()),
        Err(Error::Unexpected(500, "boom".to_string()))
    );
}
