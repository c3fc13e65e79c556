//! The shared send/classify pipeline: every endpoint resolves a call,
//! the transport returns a status and body, and the functions here
//! classify that outcome into the typed result or error.

use vstd::prelude::*;
use crate::error::ApiError;
use crate::error::Error;
use crate::responses::CreatePaymentResponse;
use crate::types_payment::PaymentProcessed;
use crate::types_payment::PendingPayment;

verus! {

/// The HTTP verbs the endpoints use.
#[derive(Copy, Clone, Debug, PartialEq, Eq, Structural)]
pub enum HttpMethod {
    /// Fetch a resource, never carrying a body
    Get,
    /// Create or act on a resource, carrying a body when one is given
    Post,
    /// Update a resource
    Patch,
    /// Remove a resource, never carrying a body
    Delete,
}

/// A resolved resource call: the verb and the fully interpolated URL,
/// awaiting authorization and transport.
#[derive(Debug, Clone, PartialEq, Eq)]
pub struct PreparedCall {
    /// The HTTP verb of the call
    pub method: HttpMethod,
    /// The absolute URL of the call
    pub url: String,
}

/// Whether the status code reports generic success.
pub open spec fn is_success_status(status: u16) -> bool {
    200 <= status < 300
}

/// Classifies a response to a generic endpoint by its status code.
///
/// `parsed` is the body deserialized as the expected response shape,
/// when it deserialized; `api_error` is the body deserialized as the
/// structured error shape; `raw_body` is the body's text. The
/// deserialization itself happens outside this library, which decides
/// only what the outcome means:
/// success statuses return the parsed body, `401` rejects the token,
/// `422` carries the structured error, `429` reports rate limiting or a
/// duplicate request, and everything else is surfaced unclassified with
/// the raw text.
pub fn classify_response<R>(
    status: u16,
    parsed: Option<R>,
    api_error: Option<ApiError>,
    raw_body: String,
) -> (r: Result<R, Error>)
    ensures
        is_success_status(status) ==> (parsed matches Some(v) ==> r == Ok::<R, Error>(v)),
        is_success_status(status) && parsed is None ==> r == Err::<R, Error>(Error::Deserialize),
        status == 401 ==> r == Err::<R, Error>(Error::Unauthorized),
        status == 422 ==> (api_error matches Some(a) ==> r == Err::<R, Error>(Error::InvalidData(a))),
        status == 422 && api_error is None ==> r == Err::<R, Error>(Error::Deserialize),
        status == 429 ==> r == Err::<R, Error>(Error::RateLimited),
        !is_success_status(status) && status != 401 && status != 422 && status != 429 ==> r == Err::<
            R,
            Error,
        >(Error::Unexpected(status, raw_body)),
{
    if 200 <= status && status < 300 {
        match parsed {
            Some(v) => Ok(v),
            None => Err(Error::Deserialize),
        }
    } else if status == 401 {
        Err(Error::Unauthorized)
    } else if status == 422 {
        match api_error {
            Some(a) => Err(Error::InvalidData(a)),
            None => Err(Error::Deserialize),
        }
    } else if status == 429 {
        Err(Error::RateLimited)
    } else {
        Err(Error::Unexpected(status, raw_body))
    }
}

/// Classifies a response to the create-payment endpoint, which
/// distinguishes two success statuses: `201` settled immediately and
/// returns the processed payment, `202` is being processed
/// asynchronously and returns the pending payment. Both are successes,
/// not errors. Every other status is classified as for the generic
/// endpoints, and a generic `200` is not among the documented outcomes
/// of this endpoint, so it is surfaced unclassified.
pub fn classify_create_payment(
    status: u16,
    processed: Option<PaymentProcessed>,
    pending: Option<PendingPayment>,
    api_error: Option<ApiError>,
    raw_body: String,
) -> (r: Result<CreatePaymentResponse, Error>)
    ensures
        status == 201 ==> (processed matches Some(p) ==> r == Ok::<CreatePaymentResponse, Error>(
            CreatePaymentResponse::Processed(p),
        )),
        status == 201 && processed is None ==> r == Err::<CreatePaymentResponse, Error>(
            Error::Deserialize,
        ),
        status == 202 ==> (pending matches Some(p) ==> r == Ok::<CreatePaymentResponse, Error>(
            CreatePaymentResponse::Pending(p),
        )),
        status == 202 && pending is None ==> r == Err::<CreatePaymentResponse, Error>(
            Error::Deserialize,
        ),
        status == 401 ==> r == Err::<CreatePaymentResponse, Error>(Error::Unauthorized),
        status == 422 ==> (api_error matches Some(a) ==> r == Err::<CreatePaymentResponse, Error>(
            Error::InvalidData(a),
        )),
        status == 422 && api_error is None ==> r == Err::<CreatePaymentResponse, Error>(
            Error::Deserialize,
        ),
        status == 429 ==> r == Err::<CreatePaymentResponse, Error>(Error::RateLimited),
        status != 201 && status != 202 && status != 401 && status != 422 && status != 429 ==> r
            == Err::<CreatePaymentResponse, Error>(Error::Unexpected(status, raw_body)),
{
    if status == 201 {
        match processed {
            Some(p) => Ok(CreatePaymentResponse::Processed(p)),
            None => Err(Error::Deserialize),
        }
    } else if status == 202 {
        match pending {
            Some(p) => Ok(CreatePaymentResponse::Pending(p)),
            None => Err(Error::Deserialize),
        }
    } else if status == 401 {
        Err(Error::Unauthorized)
    } else if status == 422 {
        match api_error {
            Some(a) => Err(Error::InvalidData(a)),
            None => Err(Error::Deserialize),
        }
    } else if status == 429 {
        Err(Error::RateLimited)
    } else {
        Err(Error::Unexpected(status, raw_body))
    }
}

} // verus!
