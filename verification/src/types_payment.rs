//! The payment source and destination shapes, and the two success
//! responses a payment request can resolve to.

use vstd::prelude::*;
use crate::links::Links;
use crate::types::Address;
use crate::types::CardCategory;
use crate::types::CardType;
use crate::types::CustomerInfo;
use crate::types::PaymentProcessingInfo;
use crate::types::PaymentStatus;
use crate::types::PhoneNumber;
use crate::types::RiskResults;
use crate::types::_3dsStatus;

verus! {

/// The payment source type used in a request
#[derive(Debug, Clone, PartialEq, Eq)]
pub enum PaymentRequestSource {
    /// A debit/credit/etc card
    Card {
        /// The card number, without separators
        number: String,
        /// The expiry month of the card
        expiry_month: u32,
        /// The expiry year of the card
        expiry_year: u32,
        /// The name of the cardholder
        name: Option<String>,
        /// The card verification value/code
        cvv: Option<String>,
        /// Set to true for payments that use stored card details
        stored: Option<bool>,
        /// The billing address of the cardholder
        billing_address: Option<Address>,
        /// The phone number of the cardholder
        phone: Option<PhoneNumber>,
    },
}

/// The payout destination type used in a request
#[derive(Debug, Clone, PartialEq, Eq)]
pub enum PaymentRequestDestination {
    /// A debit/credit/etc card
    Card {
        /// The card number
        number: String,
        /// The expiry month of the card
        expiry_month: String,
        /// The expiry year of the card
        expiry_year: String,
        /// The payout destination owner's first name
        first_name: String,
        /// The payout destination owner's last name
        last_name: String,
        /// The name of the cardholder
        name: Option<String>,
        /// The billing address of the cardholder
        billing_address: Option<Address>,
        /// The phone number of the cardholder
        phone: Option<PhoneNumber>,
    },
}

/// The processed payment's source type
#[derive(Debug, Clone, PartialEq, Eq)]
pub enum PaymentProcessedSource {
    /// A debit/credit/etc card
    Card {
        /// The payment source identifier usable for subsequent payments
        id: Option<String>,
        /// The payment source owner's billing address
        billing_address: Option<Address>,
        /// The payment source owner's phone number
        phone: Option<PhoneNumber>,
        /// The expiry month
        expiry_month: u32,
        /// The expiry year
        expiry_year: u32,
        /// The cardholder's name
        name: Option<String>,
        /// The card scheme
        scheme: Option<String>,
        /// The last four digits of the card number
        last4: String,
        /// Uniquely identifies this particular card number
        fingerprint: String,
        /// The card issuer's Bank Identification Number
        bin: String,
        /// The card type
        card_type: Option<CardType>,
        /// The card category
        card_category: CardCategory,
        /// The name of the card issuer
        issuer: Option<String>,
        /// The card issuer's country, as a two-letter ISO code
        issuer_country: Option<String>,
        /// The issuer/card scheme product identifier
        product_id: Option<String>,
        /// The issuer/card scheme product type
        product_type: Option<String>,
        /// The card verification value check result
        cvv_result: Option<String>,
        /// Whether the card supports payouts
        payouts: Option<bool>,
        /// The fast funds eligibility of the card
        fast_funds: Option<bool>,
        /// A unique reference to the underlying card for network tokens
        payment_account_reference: Option<String>,
    },
}

/// The processed payment's destination type
#[derive(Debug, Clone, PartialEq, Eq)]
pub enum PaymentProcessedDestination {
    /// A debit/credit/etc card
    Card {
        /// The payment source identifier usable for subsequent payments
        id: Option<String>,
        /// The payment source owner's billing address
        billing_address: Option<Address>,
        /// The payment source owner's phone number
        phone: Option<PhoneNumber>,
        /// The expiry month
        expiry_month: u32,
        /// The expiry year
        expiry_year: u32,
        /// The cardholder's name
        name: Option<String>,
        /// The card scheme
        scheme: Option<String>,
        /// The last four digits of the card number
        last4: String,
        /// Uniquely identifies this particular card number
        fingerprint: String,
        /// The card issuer's Bank Identification Number
        bin: String,
        /// The card type
        card_type: Option<CardType>,
        /// The card category
        card_category: CardCategory,
        /// The name of the card issuer
        issuer: Option<String>,
        /// The card issuer's country, as a two-letter ISO code
        issuer_country: Option<String>,
        /// The issuer/card scheme product identifier
        product_id: Option<String>,
        /// The issuer/card scheme product type
        product_type: Option<String>,
        /// The card verification value check result
        cvv_result: Option<String>,
        /// Whether the card supports payouts
        payouts: Option<bool>,
        /// The fast funds eligibility of the card
        fast_funds: Option<bool>,
        /// A unique reference to the underlying card for network tokens
        payment_account_reference: Option<String>,
    },
}

/// The response when a payment was processed immediately
#[derive(Debug, Clone, PartialEq, Eq)]
pub struct PaymentProcessed {
    /// The payment's unique identifier
    pub id: String,
    /// The unique identifier for the action performed against this
    /// payment
    pub action_id: String,
    /// The payment amount
    pub amount: u64,
    /// The three-letter ISO currency code of the payment
    pub currency: String,
    /// Whether the authorization or capture was successful
    pub approved: bool,
    /// The status of the payment
    pub status: PaymentStatus,
    /// The acquirer authorization code if the payment was authorized
    pub auth_code: Option<String>,
    /// The Gateway response code
    pub response_code: String,
    /// The Gateway response summary
    pub response_summary: Option<String>,
    /// 3D Secure enrollment status if the payment was downgraded to
    /// non-3D-Secure
    pub three_ds: Option<_3dsStatus>,
    /// The payment's risk assessment results
    pub risk: Option<RiskResults>,
    /// The source of the payment
    pub source: Option<PaymentProcessedSource>,
    /// The customer associated with the payment, if provided in the
    /// request
    pub customer: Option<CustomerInfo>,
    /// The date/time the payment was processed
    pub processed_on: String,
    /// The caller's reference for the payment
    pub reference: Option<String>,
    /// Information related to the processing of the payment
    pub processing: Option<PaymentProcessingInfo>,
    /// The final Electronic Commerce Indicator security level used to
    /// authorize the payment
    pub eci: Option<String>,
    /// The scheme transaction identifier
    pub scheme_id: Option<String>,
    /// The links related to the payment
    pub links: Option<Links>,
}

/// The response when a payment is being processed asynchronously or
/// further action is required
#[derive(Debug, Clone, PartialEq, Eq)]
pub struct PendingPayment {
    /// The payment's unique identifier
    pub id: String,
    /// The status of the payment
    pub status: PaymentStatus,
    /// The customer associated with the payment, if provided in the
    /// request
    pub customer: Option<CustomerInfo>,
    /// The caller's reference for the payment
    pub reference: Option<String>,
    /// 3D Secure enrollment status if the payment was downgraded to
    /// non-3D-Secure
    pub three_ds: Option<_3dsStatus>,
    /// The links related to the payment
    pub links: Option<Links>,
}

} // verus!
