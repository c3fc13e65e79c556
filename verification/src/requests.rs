//! The typed request bodies the endpoints send.

use vstd::prelude::*;
use crate::currency::Amount;
use crate::currency::Currency;
use crate::types::BillingDescriptor;
use crate::types::CustomerDescriptor;
use crate::types::Metadata;
use crate::types::PaymentProcessingDescriptor;
use crate::types::PaymentRecipient;
use crate::types::PaymentType;
use crate::types::RiskRequest;
use crate::types::ShippingDescriptor;
use crate::types::_3DSRequest;
use crate::types_payment::PaymentRequestDestination;
use crate::types_payment::PaymentRequestSource;

verus! {

/// The request body to be used to authenticate
#[derive(Debug, Clone, PartialEq, Eq)]
pub struct OAuthTokenRequest {
    /// The grant requested of the token endpoint
    pub grant_type: String,
    /// Determines what endpoints the requested token can access
    pub scope: String,
}

/// Request body for a payment or payout
#[derive(Debug, Clone, PartialEq, Eq)]
pub struct CreatePaymentRequest {
    /// The source of the payment; use to request a payment
    pub source: Option<PaymentRequestSource>,
    /// The destination of the payout; use to pay out to a card
    pub destination: Option<PaymentRequestDestination>,
    /// The payment amount; omit it or provide zero to perform a card
    /// verification
    pub amount: Option<Amount>,
    /// The three-letter ISO currency code
    pub currency: Currency,
    /// Specified for card payments where the cardholder is not present
    pub payment_type: PaymentType,
    /// Flags the payment as a merchant-initiated transaction
    pub merchant_initiated: bool,
    /// A reference to later identify this payment, such as an order
    /// number
    pub reference: Option<String>,
    /// A description of the payment
    pub description: Option<String>,
    /// Whether to capture the payment, if applicable
    pub capture: Option<bool>,
    /// A timestamp that determines when the payment should be captured
    pub capture_on: Option<String>,
    /// The customer's details
    pub customer: Option<CustomerDescriptor>,
    /// A dynamic billing descriptor displayed on the account owner's
    /// statement
    pub billing_descriptor: Option<BillingDescriptor>,
    /// The shipping details
    pub shipping: Option<ShippingDescriptor>,
    /// Information required for 3D Secure payments
    pub three_ds: Option<_3DSRequest>,
    /// For payments that use stored card details, an existing payment
    /// identifier from the recurring series or the scheme transaction
    /// identifier
    pub previous_payment_id: Option<String>,
    /// Configures the risk assessment performed during processing
    pub risk: Option<RiskRequest>,
    /// Overrides the default success redirect URL for redirect payment
    /// methods
    pub success_url: Option<String>,
    /// Overrides the default failure redirect URL for redirect payment
    /// methods
    pub failure_url: Option<String>,
    /// The IP address used to make the payment
    pub payment_ip: Option<String>,
    /// Information about the recipient of the payment's funds
    pub recipient: Option<PaymentRecipient>,
    /// Influences or overrides the data sent during card processing
    pub processing: Option<PaymentProcessingDescriptor>,
    /// The processing channel to be used for the payment
    pub processing_channel_id: String,
    /// Key-value pairs attached to the payment
    pub metadata: Option<Metadata>,
}

/// Body used in the request to capture a payment
#[derive(Debug, Clone, PartialEq, Eq)]
pub struct CapturePaymentBody {
    /// The amount to capture; the full payment amount when absent
    pub amount: Option<u64>,
    /// A reference to later identify this capture request
    pub reference: Option<String>,
    /// Key-value pairs attached to the capture request
    pub metadata: Option<Metadata>,
}

/// Body used in the request to refund a payment
#[derive(Debug, Clone, PartialEq, Eq)]
pub struct RefundPaymentBody {
    /// The amount to refund; the full payment amount when absent
    pub amount: Option<u64>,
    /// A reference to later identify this refund request
    pub reference: Option<String>,
    /// Key-value pairs attached to the refund request
    pub metadata: Option<Metadata>,
}

/// Body used in the request to void a payment
#[derive(Debug, Clone, PartialEq, Eq)]
pub struct VoidPaymentBody {
    /// A reference to later identify this void request
    pub reference: Option<String>,
    /// Key-value pairs attached to the void request
    pub metadata: Option<Metadata>,
}

/// Request body to create an instrument
#[derive(Debug, Clone, PartialEq, Eq)]
pub struct CreateInstrumentBody {
    /// The instrument type
    pub ty: String,
}

} // verus!
