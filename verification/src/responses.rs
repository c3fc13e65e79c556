//! The typed response bodies the endpoints return.

use vstd::prelude::*;
use crate::links::Links;
use crate::types::Action;
use crate::types::PaymentDetails;
use crate::types_payment::PaymentProcessed;
use crate::types_payment::PendingPayment;

verus! {

/// The response for a successful authentication
#[derive(Debug, Clone, PartialEq, Eq)]
pub struct OAuthTokenResponse {
    /// The token to be used to access endpoints
    pub access_token: String,
    /// Seconds until expiration
    pub expires_in: u32,
    /// The kind of token granted, nominally a bearer token
    pub token_type: String,
    /// What endpoints this token is valid to access
    pub scope: String,
}

/// Response to create a payment: the remote system settles some payment
/// methods immediately and processes others asynchronously
#[derive(Debug, Clone, PartialEq, Eq)]
pub enum CreatePaymentResponse {
    /// The payment was processed immediately
    Processed(PaymentProcessed),
    /// The payment is being processed asynchronously or further action
    /// is required
    Pending(PendingPayment),
}

/// Response to get payment details
pub type GetPaymentDetailsResponse = PaymentDetails;

/// Response to get payment actions
pub type GetPaymentActionsResponse = Vec<Action>;

/// Response to capture a payment
#[derive(Debug, Clone, PartialEq, Eq)]
pub struct CapturePaymentResponse {
    /// The unique identifier for the capture action
    pub action_id: String,
    /// The caller's reference for the capture request
    pub reference: Option<String>,
    /// The links related to the capture
    pub links: Option<Links>,
}

/// Response to refund a payment
#[derive(Debug, Clone, PartialEq, Eq)]
pub struct RefundPaymentResponse {
    /// The unique identifier for the refund action
    pub action_id: String,
    /// The caller's reference for the refund request
    pub reference: Option<String>,
    /// The links related to the refund
    pub links: Option<Links>,
}

/// Response to void a payment
#[derive(Debug, Clone, PartialEq, Eq)]
pub struct VoidPaymentResponse {
    /// The unique identifier for the void action
    pub action_id: String,
    /// The caller's reference for the void request
    pub reference: Option<String>,
    /// The links related to the void
    pub links: Option<Links>,
}

} // verus!
