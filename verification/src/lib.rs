//! Client-side core of a payment-processing API binding: environment
//! selection, currency-aware amount encoding, and the classification of
//! HTTP outcomes into a typed error taxonomy.

use vstd::prelude::*;

mod client;
mod currency;
mod environment;
mod error;
mod pipeline;
mod links;
mod requests;
mod responses;
mod types;
mod types_payment;

pub use client::Client;
pub use client::Credential;
pub use client::TokenRequest;
pub use currency::Amount;
pub use currency::ConversionError;
pub use currency::Currency;
pub use currency::Decimal;
pub use currency::decode_spec;
pub use currency::encode_spec;
pub use currency::lemma_amount_decode_round_trip;
pub use currency::lemma_amount_round_trip;
pub use currency::pow10;
pub use currency::scaled_numerator;
pub use environment::Environment;
pub use environment::canonical;
pub use environment::is_space_char;
pub use environment::lower_char;
pub use environment::lower_seq;
pub use environment::names_production;
pub use environment::names_sandbox;
pub use environment::trim_back;
pub use environment::trim_front;
pub use environment::ParseEnvironmentError;
pub use error::ApiError;
pub use error::Error;
pub use links::Link;
pub use pipeline::HttpMethod;
pub use pipeline::PreparedCall;
pub use pipeline::classify_create_payment;
pub use pipeline::classify_response;
pub use pipeline::is_success_status;
pub use links::Links;
pub use requests::CapturePaymentBody;
pub use requests::CreateInstrumentBody;
pub use requests::CreatePaymentRequest;
pub use requests::OAuthTokenRequest;
pub use requests::RefundPaymentBody;
pub use requests::VoidPaymentBody;
pub use responses::CapturePaymentResponse;
pub use responses::CreatePaymentResponse;
pub use responses::GetPaymentActionsResponse;
pub use responses::GetPaymentDetailsResponse;
pub use responses::OAuthTokenResponse;
pub use responses::RefundPaymentResponse;
pub use responses::VoidPaymentResponse;
pub use types::Action;
pub use types::ActionProcessingInfo;
pub use types::ActionSummary;
pub use types::ActionType;
pub use types::Address;
pub use types::BillingDescriptor;
pub use types::CardCategory;
pub use types::CardType;
pub use types::CustomerDescriptor;
pub use types::CustomerInfo;
pub use types::Metadata;
pub use types::PaymentDetails;
pub use types::PaymentProcessingDescriptor;
pub use types::PaymentProcessingInfo;
pub use types::PaymentRecipient;
pub use types::PaymentStatus;
pub use types::PaymentType;
pub use types::PhoneNumber;
pub use types::RiskRequest;
pub use types::RiskResults;
pub use types::ShippingDescriptor;
pub use types::ScaExemption;
pub use types::_3DSRequest;
pub use types::_3dsAuthenticationStatus;
pub use types::_3dsEnrollmentStatus;
pub use types::_3dsStatus;
pub use types_payment::PaymentProcessed;
pub use types_payment::PaymentProcessedDestination;
pub use types_payment::PaymentProcessedSource;
pub use types_payment::PaymentRequestDestination;
pub use types_payment::PaymentRequestSource;
pub use types_payment::PendingPayment;

verus! {

} // verus!
