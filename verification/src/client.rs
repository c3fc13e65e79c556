//! The client configuration: environment, credentials, the token
//! exchange that precedes every call, and the resolution of each
//! endpoint's URL.
//!
//! The client holds no transport: it prepares calls and classifies
//! their outcomes, and every call re-authorizes, caching no token.

use vstd::prelude::*;
use secrecy::ExposeSecret;
use secrecy::SecretString;
use crate::environment::Environment;
use crate::error::Error;
use crate::pipeline::HttpMethod;
use crate::pipeline::PreparedCall;
use crate::requests::OAuthTokenRequest;
use crate::responses::OAuthTokenResponse;

verus! {

/// One credential, held behind secrecy's `SecretString`: an opaque,
/// zeroize-on-drop holder whose contents only `expose_secret` reads.
/// The verifier sees nothing of the wrapped value; the library stores
/// and hands out credentials without ever reading them.
#[verifier::external_body]
pub struct Credential {
    inner: SecretString,
}

impl Credential {
    /// Relies on secrecy::Secret::new: takes ownership of the secret
    /// string, to be read again only through `expose_secret`.
    #[verifier::external_body]
    pub fn new(secret: String) -> Credential {
        Credential { inner: SecretString::new(secret) }
    }

    /// Relies on secrecy::ExposeSecret::expose_secret: borrows the
    /// wrapped secret, transiently, for the transport call that needs
    /// it.
    #[verifier::external_body]
    pub fn expose_secret(&self) -> &str {
        self.inner.expose_secret()
    }
}

/// A client that can be used to access the API: the immutable
/// environment and credentials shared by every call. The client is
/// read-only after construction, so callers that issue concurrent
/// calls share one instance by reference.
pub struct Client {
    environment: Environment,
    username: Credential,
    password: Credential,
}

/// A prepared exchange with the token endpoint: the URL and the
/// form-encoded body, to be sent with the credentials as basic auth.
#[derive(Debug, Clone, PartialEq, Eq)]
pub struct TokenRequest {
    /// The token endpoint's URL
    pub url: String,
    /// The form-encoded body of the exchange
    pub body: OAuthTokenRequest,
}

impl Client {
    /// The environment the client was constructed for.
    pub closed spec fn env_spec(&self) -> Environment {
        self.environment
    }

    /// The stored username credential.
    pub closed spec fn username_spec(&self) -> Credential {
        self.username
    }

    /// The stored password credential.
    pub closed spec fn password_spec(&self) -> Credential {
        self.password
    }

    /// Creates a new client
    pub fn new(username: Credential, password: Credential, environment: Environment) -> (c:
        Client)
        ensures
            c.env_spec() == environment,
            c.username_spec() == username,
            c.password_spec() == password,
    {
        Client { environment, username, password }
    }

    /// Returns the environment the client calls.
    pub fn environment(&self) -> (e: Environment)
        ensures
            e == self.env_spec(),
    {
        self.environment
    }

    /// Returns the username credential, still wrapped.
    pub fn username(&self) -> (r: &Credential)
        ensures
            r == self.username_spec(),
    {
        &self.username
    }

    /// Returns the password credential, still wrapped.
    pub fn password(&self) -> (r: &Credential)
        ensures
            r == self.password_spec(),
    {
        &self.password
    }

    /// Prepares the exchange with the token endpoint that precedes every
    /// call: a form-encoded request for a gateway-scoped
    /// client-credentials grant, addressed to the environment's access
    /// URL.
    pub fn token_request(&self) -> (r: TokenRequest)
        ensures
            r.url@ == self.env_spec().access_url_spec() + "/connect/token"@,
            r.body.grant_type@ == "client_credentials"@,
            r.body.scope@ == "gateway"@,
    {
        let url = String::from_str(self.environment.access_url()).concat("/connect/token");
        let body = OAuthTokenRequest {
            grant_type: String::from_str("client_credentials"),
            scope: String::from_str("gateway"),
        };
        TokenRequest { url, body }
    }

    /// Decides the outcome of the token exchange: on a `200` whose body
    /// parsed, the access token is returned as an opaque bearer string;
    /// on any other status the call fails as unauthorized, so no
    /// resource request can follow; a `200` whose body did not parse is
    /// a schema mismatch.
    pub fn authorize(&self, status: u16, body: Option<OAuthTokenResponse>) -> (r: Result<
        String,
        Error,
    >)
        ensures
            status != 200 ==> r == Err::<String, Error>(Error::Unauthorized),
            status == 200 ==> (body matches Some(t) ==> r matches Ok(tok) && tok@ == t.access_token@),
            status == 200 && body is None ==> r == Err::<String, Error>(Error::Deserialize),
    {
        if status != 200 {
            return Err(Error::Unauthorized);
        }
        match body {
            Some(t) => Ok(t.access_token),
            None => Err(Error::Deserialize),
        }
    }

    /// Resolves the call that requests a payment or payout.
    pub fn create_payment_call(&self) -> (c: PreparedCall)
        ensures
            c.method == HttpMethod::Post,
            c.url@ == self.env_spec().api_url_spec() + "/payments"@,
    {
        let url = String::from_str(self.environment.api_url()).concat("/payments");
        PreparedCall { method: HttpMethod::Post, url }
    }

    /// Resolves the call that fetches the details of the payment with
    /// the given identifier.
    pub fn get_payment_details_call(&self, payment_id: &str) -> (c: PreparedCall)
        ensures
            c.method == HttpMethod::Get,
            c.url@ == self.env_spec().api_url_spec() + "/payments/"@ + payment_id@,
    {
        let url = String::from_str(self.environment.api_url()).concat("/payments/").concat(
            payment_id,
        );
        PreparedCall { method: HttpMethod::Get, url }
    }

    /// Resolves the call that fetches all the actions associated with
    /// the payment with the given identifier.
    pub fn get_payment_actions_call(&self, payment_id: &str) -> (c: PreparedCall)
        ensures
            c.method == HttpMethod::Get,
            c.url@ == self.env_spec().api_url_spec() + "/payments/"@ + payment_id@ + "/actions"@,
    {
        let url = String::from_str(self.environment.api_url()).concat("/payments/").concat(
            payment_id,
        ).concat("/actions");
        PreparedCall { method: HttpMethod::Get, url }
    }

    /// Resolves the call that captures the payment with the given
    /// identifier.
    pub fn capture_payment_call(&self, payment_id: &str) -> (c: PreparedCall)
        ensures
            c.method == HttpMethod::Post,
            c.url@ == self.env_spec().api_url_spec() + "/payments/"@ + payment_id@ + "/captures"@,
    {
        let url = String::from_str(self.environment.api_url()).concat("/payments/").concat(
            payment_id,
        ).concat("/captures");
        PreparedCall { method: HttpMethod::Post, url }
    }

    /// Resolves the call that refunds the payment with the given
    /// identifier.
    pub fn refund_payment_call(&self, payment_id: &str) -> (c: PreparedCall)
        ensures
            c.method == HttpMethod::Post,
            c.url@ == self.env_spec().api_url_spec() + "/payments/"@ + payment_id@ + "/refunds"@,
    {
        let url = String::from_str(self.environment.api_url()).concat("/payments/").concat(
            payment_id,
        ).concat("/refunds");
        PreparedCall { method: HttpMethod::Post, url }
    }

    /// Resolves the call that creates a customer.
    pub fn create_customer_call(&self) -> (c: PreparedCall)
        ensures
            c.method == HttpMethod::Post,
            c.url@ == self.env_spec().api_url_spec() + "/customers"@,
    {
        let url = String::from_str(self.environment.api_url()).concat("/customers");
        PreparedCall { method: HttpMethod::Post, url }
    }

    /// Resolves the call that fetches a customer by identifier or email.
    pub fn get_customer_call(&self, id_or_email: &str) -> (c: PreparedCall)
        ensures
            c.method == HttpMethod::Get,
            c.url@ == self.env_spec().api_url_spec() + "/customers/"@ + id_or_email@,
    {
        let url = String::from_str(self.environment.api_url()).concat("/customers/").concat(
            id_or_email,
        );
        PreparedCall { method: HttpMethod::Get, url }
    }

    /// Resolves the call that updates the customer with the given
    /// identifier.
    pub fn update_customer_call(&self, customer_id: &str) -> (c: PreparedCall)
        ensures
            c.method == HttpMethod::Patch,
            c.url@ == self.env_spec().api_url_spec() + "/customers/"@ + customer_id@,
    {
        let url = String::from_str(self.environment.api_url()).concat("/customers/").concat(
            customer_id,
        );
        PreparedCall { method: HttpMethod::Patch, url }
    }

    /// Resolves the call that removes the customer with the given
    /// identifier.
    pub fn delete_customer_call(&self, customer_id: &str) -> (c: PreparedCall)
        ensures
            c.method == HttpMethod::Delete,
            c.url@ == self.env_spec().api_url_spec() + "/customers/"@ + customer_id@,
    {
        let url = String::from_str(self.environment.api_url()).concat("/customers/").concat(
            customer_id,
        );
        PreparedCall { method: HttpMethod::Delete, url }
    }

    /// Resolves the call that voids the payment with the given
    /// identifier.
    pub fn void_payment_call(&self, payment_id: &str) -> (c: PreparedCall)
        ensures
            c.method == HttpMethod::Post,
            c.url@ == self.env_spec().api_url_spec() + "/payments/"@ + payment_id@ + "/voids"@,
    {
        let url = String::from_str(self.environment.api_url()).concat("/payments/").concat(
            payment_id,
        ).concat("/voids");
        PreparedCall { method: HttpMethod::Post, url }
    }
}

} // verus!
