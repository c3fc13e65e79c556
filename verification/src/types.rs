//! The record shapes that requests and responses carry. These are
//! mechanical data-transfer schema: the pipeline moves them whole, and
//! their wire encoding lives outside the verified library.

use vstd::prelude::*;
use std::collections::HashMap;
use crate::links::Links;
use crate::types_payment::PaymentProcessedDestination;
use crate::types_payment::PaymentProcessedSource;

verus! {

/// A set of key-value pairs that can be attached to a payment, an
/// action or a customer for reporting purposes.
pub type Metadata = HashMap<String, String>;

/// A type of payment
#[derive(Debug, Clone, PartialEq, Eq, Structural)]
pub enum PaymentType {
    /// A regular payment
    Regular,
    /// A merchant-initiated recurring payment
    Recurring,
    /// A Merchant Offline Telephone Order
    Moto,
}

/// A phone number
#[derive(Debug, Clone, PartialEq, Eq)]
pub struct PhoneNumber {
    /// The international country calling code
    pub country_code: String,
    /// The phone number
    pub number: String,
}

/// A physical address
#[derive(Debug, Clone, PartialEq, Eq)]
pub struct Address {
    /// The first line of the address
    pub address_line1: Option<String>,
    /// The second line of the address
    pub address_line2: Option<String>,
    /// The address city
    pub city: Option<String>,
    /// The address state
    pub state: Option<String>,
    /// The address zip/postal code
    pub zip: Option<String>,
    /// The two-letter ISO country code of the address
    pub country: Option<String>,
}

/// Identifying fields for the customer a payment is made for
#[derive(Debug, Clone, PartialEq, Eq)]
pub struct CustomerDescriptor {
    /// The identifier of an existing customer
    pub id: Option<String>,
    /// The customer's email address
    pub email: Option<String>,
    /// The customer's name, set only for new customers
    pub name: Option<String>,
}

/// A description of the billing as it would appear on the account
/// owner's statement
#[derive(Debug, Clone, PartialEq, Eq)]
pub struct BillingDescriptor {
    /// A dynamic description of the charge
    pub name: String,
    /// The city from which the charge originated
    pub city: String,
}

/// The shipping details of a payment
#[derive(Debug, Clone, PartialEq, Eq)]
pub struct ShippingDescriptor {
    /// The shipping address
    pub address: Option<Address>,
    /// The phone number associated with the shipping address
    pub phone: Option<PhoneNumber>,
}

/// Information for 3D Secure payments
#[derive(Debug, Clone, PartialEq, Eq)]
pub struct _3DSRequest {
    /// Whether to process this payment as a 3D Secure payment
    pub enabled: Option<bool>,
    /// Whether to attempt a non-3D-Secure payment should the card issuer
    /// not be enrolled
    pub attempt_n3d: Option<bool>,
    /// The Electronic Commerce Indicator security level associated with
    /// the 3D Secure enrollment result
    pub sci: Option<String>,
    /// A Base64 encoded cryptographic identifier used to validate the
    /// cardholder authentication result
    pub cryptogram: Option<String>,
    /// The 3D Secure transaction identifier
    pub xid: Option<String>,
    /// The version of 3D Secure used for authentication
    pub version: Option<String>,
    /// An exemption reason so that the payment is not processed using 3D
    /// Secure authentication
    pub exemption: Option<ScaExemption>,
}

/// A type of exemption from 3D Secure authentication
#[derive(Debug, Clone, PartialEq, Eq, Structural)]
pub enum ScaExemption {
    /// A payment below the low-value threshold
    LowValue,
    /// A corporate payment made with virtual or lodge cards
    SecureCorporatePayment,
    /// A payment to a merchant the customer has whitelisted
    TrustedListing,
}

/// Configures the risk assessment performed during processing
#[derive(Debug, Clone, PartialEq, Eq, Structural)]
pub struct RiskRequest {
    /// Whether a risk assessment should be performed
    pub enabled: bool,
}

/// Information about the recipient of the payment's funds
#[derive(Debug, Clone, PartialEq, Eq)]
pub struct PaymentRecipient {
    /// The recipient's date of birth
    pub dob: Option<String>,
    /// Digits of the primary recipient's card or account number
    pub account_number: Option<String>,
    /// The first part of the UK postcode
    pub zip: Option<String>,
    /// The recipient's first name
    pub first_name: Option<String>,
    /// The recipient's last name
    pub last_name: Option<String>,
}

/// Overrides the data sent during card processing
#[derive(Debug, Clone, PartialEq, Eq, Structural)]
pub struct PaymentProcessingDescriptor {
    /// Whether the payment is an Account Funding Transaction
    pub aft: bool,
}

/// The status of the payment
#[derive(Debug, Clone, PartialEq, Eq, Structural)]
pub enum PaymentStatus {
    /// The payment was authorized
    Authorized,
    /// The payment is pending
    Pending,
    /// The card was verified without a charge
    CardVerified,
    /// The payment was voided
    Voided,
    /// Part of the payment was captured
    PartiallyCaptured,
    /// The payment was captured
    Captured,
    /// Part of the payment was refunded
    PartiallyRefunded,
    /// The payment was refunded
    Refunded,
    /// The payment was declined
    Declined,
    /// The payment was cancelled
    Cancelled,
    /// The payment was paid
    Paid,
    /// The payment expired
    Expired,
}

/// Information relating to the processing of 3D Secure payments
#[derive(Debug, Clone, PartialEq, Eq)]
pub struct _3dsStatus {
    /// Whether this was a 3D Secure payment downgraded to non-3D-Secure
    pub downgraded: bool,
    /// The 3D Secure enrollment status of the issuer
    pub enrolled: _3dsEnrollmentStatus,
    /// Verification to ensure the integrity of the response
    pub signature_valid: Option<String>,
    /// Whether the cardholder was authenticated
    pub authentication_response: Option<_3dsAuthenticationStatus>,
    /// Base64 encoded cryptographic identifier used to validate the
    /// integrity of the 3D Secure payment data
    pub cryptogram: Option<String>,
    /// Unique identifier for the transaction assigned by the MPI
    pub xid: Option<String>,
    /// The version of 3D Secure used for authentication
    pub version: Option<String>,
    /// An exemption reason so that the payment is not processed using 3D
    /// Secure authentication
    pub exemption: Option<ScaExemption>,
}

/// The 3D Secure enrollment status
#[derive(Debug, Clone, PartialEq, Eq, Structural)]
pub enum _3dsEnrollmentStatus {
    /// The issuer is enrolled
    IssuerEnrolled,
    /// The customer is not enrolled
    NotEnrolled,
    /// Enrollment is unknown
    Unknown,
}

/// Response of cardholder authentication
#[derive(Debug, Clone, PartialEq, Eq, Structural)]
pub enum _3dsAuthenticationStatus {
    /// The customer was authenticated
    Authenticated,
    /// The customer was not authenticated
    NotAuthenticated,
    /// An authentication attempt occurred but could not be completed
    Attempted,
    /// Authentication could not be performed
    Unable,
}

/// The results of a risk assessment
#[derive(Debug, Clone, PartialEq, Eq, Structural)]
pub struct RiskResults {
    /// Whether the payment was flagged by a risk check
    pub flagged: bool,
}

/// A card's type
#[derive(Debug, Clone, PartialEq, Eq, Structural)]
pub enum CardType {
    /// A credit card
    Credit,
    /// A debit card
    Debit,
    /// A prepaid card
    Prepaid,
    /// A charge card
    Charge,
    /// A deferred debit card
    DeferredDebit,
}

/// A card's category
#[derive(Debug, Clone, PartialEq, Eq, Structural)]
pub enum CardCategory {
    /// A consumer card
    Consumer,
    /// A commercial card
    Commercial,
}

/// Identifying fields for a customer
#[derive(Debug, Clone, PartialEq, Eq)]
pub struct CustomerInfo {
    /// The customer's unique identifier
    pub id: String,
    /// The customer's email address
    pub email: Option<String>,
    /// The customer's name
    pub name: Option<String>,
}

/// Information related to the processing of a payment
#[derive(Debug, Clone, PartialEq, Eq)]
pub struct PaymentProcessingInfo {
    /// A unique identifier for the authorization submitted to the card
    /// scheme during processing
    pub retrieval_reference_number: Option<String>,
    /// A unique identifier for the transaction generated by the acquirer
    pub acquirer_transaction_id: Option<String>,
}

/// A shortened summary of a payment action
#[derive(Debug, Clone, PartialEq, Eq)]
pub struct ActionSummary {
    /// The unique identifier of the payment action
    pub id: String,
    /// The type of action
    pub ty: String,
    /// The Gateway response code
    pub response_code: String,
    /// The Gateway response summary
    pub response_summary: Option<String>,
}

/// A discrete operation applied against an existing payment
#[derive(Debug, Clone, PartialEq, Eq)]
pub struct Action {
    /// The unique identifier of the payment action
    pub id: String,
    /// The type of action
    pub ty: String,
    /// The date/time the action was processed
    pub processed_on: String,
    /// The action amount
    pub amount: u64,
    /// Whether the action was successful
    pub approved: Option<bool>,
    /// The acquirer authorization code for cards
    pub auth_code: Option<String>,
    /// The Gateway response code
    pub response_code: String,
    /// The Gateway response summary
    pub response_summary: Option<String>,
    /// The caller's reference for the action
    pub reference: Option<String>,
    /// Information related to the processing of the payment
    pub processing: Option<ActionProcessingInfo>,
    /// Key-value pairs attached to the action
    pub metadata: Metadata,
}

/// Information related to the processing of an action
#[derive(Debug, Clone, PartialEq, Eq)]
pub struct ActionProcessingInfo {
    /// A unique identifier for the authorization submitted to the card
    /// scheme during processing
    pub retrieval_reference_number: Option<String>,
    /// A unique identifier for the capture submitted to the card scheme
    /// during processing
    pub acquirer_reference_number: Option<String>,
    /// A unique identifier for the transaction generated by the acquirer
    pub acquirer_transaction_id: Option<String>,
}

/// The type of an action
#[derive(Debug, Clone, PartialEq, Eq, Structural)]
pub enum ActionType {
    /// An authorization
    Authorization,
    /// A card verification
    CardVerification,
    /// A void
    Void,
    /// A capture
    Capture,
    /// A refund
    Refund,
    /// A payout
    Payout,
}

/// The details of a payment
#[derive(Debug, Clone, PartialEq, Eq)]
pub struct PaymentDetails {
    /// The payment's unique identifier
    pub id: String,
    /// The date/time the payment was requested
    pub requested_on: String,
    /// The source of the payment
    pub source: Option<PaymentProcessedSource>,
    /// The destination of the payment
    pub destination: Option<PaymentProcessedDestination>,
    /// The payment amount
    pub amount: u64,
    /// The three-letter ISO currency code of the payment
    pub currency: String,
    /// Specified for card payments where the cardholder is not present
    pub payment_type: PaymentType,
    /// The caller's reference for the payment
    pub reference: Option<String>,
    /// A description of the payment
    pub description: Option<String>,
    /// Whether the authorization or capture was successful
    pub approved: bool,
    /// The status of the payment
    pub status: PaymentStatus,
    /// Information relating to the processing of 3D Secure payments
    pub three_ds: Option<_3dsStatus>,
    /// The payment's risk assessment results
    pub risk: Option<RiskResults>,
    /// The customer associated with the payment, if provided in the
    /// request
    pub customer: Option<CustomerInfo>,
    /// A dynamic billing descriptor displayed on the account owner's
    /// statement
    pub billing_descriptor: Option<BillingDescriptor>,
    /// The shipping details
    pub shipping: Option<ShippingDescriptor>,
    /// The IP address used to make the payment
    pub payment_ip: Option<String>,
    /// Information about the recipient of the payment's funds
    pub recipient: Option<PaymentRecipient>,
    /// Key-value pairs attached to the payment
    pub metadata: Option<Metadata>,
    /// The final Electronic Commerce Indicator security level used to
    /// authorize the payment
    pub eci: Option<String>,
    /// The scheme transaction identifier
    pub scheme_id: Option<String>,
    /// A summary of the payment's actions, returned when a session
    /// identifier is used to get the payment details
    pub actions: Option<Vec<ActionSummary>>,
    /// The links related to the payment
    pub links: Option<Links>,
}

} // verus!
