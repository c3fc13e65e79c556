use checkout_client::Amount;
use checkout_client::Client;
use checkout_client::CreatePaymentRequest;
use checkout_client::CreatePaymentResponse;
use checkout_client::Credential;
use checkout_client::Currency;
use checkout_client::Environment;
use checkout_client::Error;
use checkout_client::HttpMethod;
use checkout_client::OAuthTokenResponse;
use checkout_client::PaymentProcessed;
use checkout_client::PaymentRequestSource;
use checkout_client::PaymentStatus;
use checkout_client::PaymentType;
use checkout_client::classify_create_payment;

fn sandbox_client() -> Client {
    Client::new(
        Credential::new("user".to_string()),
        Credential::new("pass".to_string()),
        Environment::Sandbox,
    )
}

fn token_response(token: &str) -> OAuthTokenResponse {
    OAuthTokenResponse {
        access_token: token.to_string(),
        expires_in: 3600,
        token_type: "Bearer".to_string(),
        scope: "gateway".to_string(),
    }
}

fn card_payment_request(amount: u64, currency: Currency) -> CreatePaymentRequest {
    CreatePaymentRequest {
        source: Some(PaymentRequestSource::Card {
            number: "4242424242424242".to_string(),
            expiry_month: 6,
            expiry_year: 2025,
            name: None,
            cvv: None,
            stored: None,
            billing_address: None,
            phone: None,
        }),
        destination: None,
        amount: Some(Amount(amount)),
        currency,
        payment_type: PaymentType::Regular,
        merchant_initiated: false,
        reference: None,
        description: None,
        capture: None,
        capture_on: None,
        customer: None,
        billing_descriptor: None,
        shipping: None,
        three_ds: None,
        previous_payment_id: None,
        risk: None,
        success_url: None,
        failure_url: None,
        payment_ip: None,
        recipient: None,
        processing: None,
        processing_channel_id: "pc_1234".to_string(),
        metadata: None,
    }
}

#[test]
fn token_request_targets_the_access_url() {
    let client = sandbox_client();
    let req = client.token_request();
    assert_eq!(req.url, "https://access.sandbox.checkout.com/connect/token");
    assert_eq!(req.body.grant_type, "client_credentials");
    assert_eq!(req.body.scope, "gateway");
}

#[test]
fn endpoint_calls_interpolate_the_payment_id() {
    let client = sandbox_client();

    let call = client.create_payment_call();
    assert_eq!(call.method, HttpMethod::Post);
    assert_eq!(call.url, "https://api.sandbox.checkout.com/payments");

    let call = client.get_payment_details_call("pay_7");
    assert_eq!(call.method, HttpMethod::Get);
    assert_eq!(call.url, "https://api.sandbox.checkout.com/payments/pay_7");

    let call = client.get_payment_actions_call("pay_7");
    assert_eq!(call.method, HttpMethod::Get);
    assert_eq!(call.url, "https://api.sandbox.checkout.com/payments/pay_7/actions");

    let call = client.capture_payment_call("pay_7");
    assert_eq!(call.method, HttpMethod::Post);
    assert_eq!(call.url, "https://api.sandbox.checkout.com/payments/pay_7/captures");

    let call = client.refund_payment_call("pay_7");
    assert_eq!(call.method, HttpMethod::Post);
    assert_eq!(call.url, "https://api.sandbox.checkout.com/payments/pay_7/refunds");

    let call = client.void_payment_call("pay_7");
    assert_eq!(call.method, HttpMethod::Post);
    assert_eq!(call.url, "https://api.sandbox.checkout.com/payments/pay_7/voids");
}

#[test]
fn customer_calls_cover_the_four_verbs() {
    let client = sandbox_client();

    let call = client.create_customer_call();
    assert_eq!(call.method, HttpMethod::Post);
    assert_eq!(call.url, "https://api.sandbox.checkout.com/customers");

    let call = client.get_customer_call("fred@example.com");
    assert_eq!(call.method, HttpMethod::Get);
    assert_eq!(call.url, "https://api.sandbox.checkout.com/customers/fred@example.com");

    let call = client.update_customer_call("cus_9");
    assert_eq!(call.method, HttpMethod::Patch);
    assert_eq!(call.url, "https://api.sandbox.checkout.com/customers/cus_9");

    let call = client.delete_customer_call("cus_9");
    assert_eq!(call.method, HttpMethod::Delete);
    assert_eq!(call.url, "https://api.sandbox.checkout.com/customers/cus_9");
}

#[test]
fn production_calls_use_the_live_url() {
    let client = Client::new(
        Credential::new("user".to_string()),
        Credential::new("pass".to_string()),
        Environment::Production,
    );
    assert_eq!(client.environment(), Environment::Production);
    assert_eq!(client.create_payment_call().url, "https://api.checkout.com/payments");
    assert_eq!(client.token_request().url, "https://access.checkout.com/connect/token");
}

#[test]
fn authorize_returns_the_token_on_success() {
    let client = sandbox_client();
    let out = client.authorize(200, Some(token_response("tok_abc")));
    assert_eq!(out, Ok("tok_abc".to_string()));
}

#[test]
fn authorize_fails_as_unauthorized_on_any_other_status() {
    let client = sandbox_client();
    assert_eq!(client.authorize(401, None), Err(Error::Unauthorized));
    assert_eq!(client.authorize(500, Some(token_response("t"))), Err(Error::Unauthorized));
    assert_eq!(client.authorize(201, None), Err(Error::Unauthorized));
}

#[test]
fn authorize_flags_an_unparsed_success_body() {
    let client = sandbox_client();
    assert_eq!(client.authorize(200, None), Err(Error::Deserialize));
}

#[test]
fn rejected_token_blocks_every_dependent_operation() {
    // When the token endpoint answers with any non-200, each operation's
    // outcome is Unauthorized, decided before a resource request exists.
    let client = sandbox_client();
    let _call = client.capture_payment_call("pay_7");
    let auth = client.authorize(503, None);
    assert_eq!(auth, Err(Error::Unauthorized));
    // No bearer token exists, so no authorized resource request can be
    // built; the operation's result is the authorization failure.
}

#[test]
fn sandbox_card_payment_processed_scenario() {
    // A card payment of 2000 minor units of USD against the sandbox,
    // answered with a 201 and a processed body, yields the Processed
    // variant, approved and authorized.
    let client = sandbox_client();
    let request = card_payment_request(2000, Currency::USD);
    assert_eq!(request.amount, Some(Amount(2000)));

    let call = client.create_payment_call();
    assert_eq!(call.url, "https://api.sandbox.checkout.com/payments");

    let token = client.authorize(200, Some(token_response("tok_sbx"))).unwrap();
    assert_eq!(token, "tok_sbx");

    let body = PaymentProcessed {
        id: "pay_1".to_string(),
        action_id: "act_1".to_string(),
        amount: 2000,
        currency: "USD".to_string(),
        approved: true,
        status: PaymentStatus::Authorized,
        auth_code: None,
        response_code: "10000".to_string(),
        response_summary: None,
        three_ds: None,
        risk: None,
        source: None,
        customer: None,
        processed_on: "2020-01-01T00:00:00Z".to_string(),
        reference: None,
        processing: None,
        eci: None,
        scheme_id: None,
        links: None,
    };
    let out = classify_create_payment(201, Some(body), None, None, String::new());
    match out {
        Ok(CreatePaymentResponse::Processed(p)) => {
            assert!(p.approved);
            assert_eq!(p.status, PaymentStatus::Authorized);
            assert_eq!(p.amount, 2000);
            assert_eq!(p.currency, "USD");
        }
        other => panic!("not processed: {:?}", other),
    }
}
