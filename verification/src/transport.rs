//! The request dispatcher: which request a call sends, and what the answer means.
//!
//! The dispatcher itself performs no I/O. It hands out a [`PreparedRequest`], a
//! network layer sends it and reports back a [`Delivery`], and the dispatcher
//! says what the caller gets.

use crate::errors::IdentityError;
use vstd::prelude::*;
use vstd::string::*;

verus! {

/// `serde_json::Value`, a JSON document. It is declared so that a request can
/// carry one through as its body; nothing is claimed of what it holds.
#[verifier::external_type_specification]
#[verifier::external_body]
pub struct ExJsonValue(serde_json::Value);

/// The HTTP methods the dispatcher issues.
#[derive(Clone, Copy, Debug, PartialEq, Eq, Structural)]
pub enum Method {
    Get,
    Post,
    Put,
    Delete,
}

/// One header line of a request, as mathematical values.
pub struct HeaderView {
    pub name: Seq<char>,
    pub value: Seq<char>,
}

/// One header line of a request.
#[derive(Debug)]
pub struct Header {
    pub name: String,
    pub value: String,
}

impl View for Header {
    type V = HeaderView;

    open spec fn view(&self) -> HeaderView {
        HeaderView { name: self.name@, value: self.value@ }
    }
}

/// The JSON document behind an optional reference.
pub open spec fn document_of(body: Option<&serde_json::Value>) -> Option<serde_json::Value> {
    match body {
        Some(document) => Some(*document),
        None => None,
    }
}

/// A request, as mathematical values.
pub struct PreparedRequestView {
    pub method: Method,
    pub url: Seq<char>,
    pub headers: Seq<HeaderView>,
    pub body: Option<serde_json::Value>,
}

/// Everything the network layer needs to send one request.
#[derive(Debug)]
pub struct PreparedRequest<'a> {
    pub method: Method,
    pub url: String,
    /// The header lines, in the order in which they are to be set.
    pub headers: Vec<Header>,
    /// The JSON document to send as the body, if any.
    pub body: Option<&'a serde_json::Value>,
}

impl<'a> View for PreparedRequest<'a> {
    type V = PreparedRequestView;

    open spec fn view(&self) -> PreparedRequestView {
        PreparedRequestView {
            method: self.method,
            url: self.url@,
            headers: self.headers@.map_values(|h: Header| h@),
            body: document_of(self.body),
        }
    }
}

/// The view of an optional string slice.
pub open spec fn text_of(text: Option<&str>) -> Option<Seq<char>> {
    match text {
        Some(t) => Some(t@),
        None => None,
    }
}

/// The header lines of a request: the JSON content type, the client identifier,
/// and a bearer authorization line exactly when a token is supplied.
pub open spec fn request_headers(client_id: Seq<char>, token: Option<Seq<char>>) -> Seq<HeaderView> {
    let fixed = seq![
        HeaderView { name: "Content-Type"@, value: "application/json"@ },
        HeaderView { name: "X-Client-ID"@, value: client_id },
    ];
    match token {
        Some(t) => fixed.push(HeaderView { name: "Authorization"@, value: "Bearer "@ + t }),
        None => fixed,
    }
}

/// The static configuration of the dispatcher.
#[derive(Clone, Debug)]
pub struct Transport {
    base_url: String,
    client_id: String,
}

impl Transport {
    /// The base URL every endpoint path is appended to.
    pub closed spec fn base_url(&self) -> Seq<char> {
        self.base_url@
    }

    /// The identifier sent with every request.
    pub closed spec fn client_id(&self) -> Seq<char> {
        self.client_id@
    }

    /// The request that a call stands for. The URL is the base URL followed by
    /// the endpoint path as given: no separator is added and none is removed.
    pub open spec fn plan(
        &self,
        method: Method,
        endpoint: Seq<char>,
        body: Option<serde_json::Value>,
        token: Option<Seq<char>>,
    ) -> PreparedRequestView {
        PreparedRequestView {
            method,
            url: self.base_url() + endpoint,
            headers: request_headers(self.client_id(), token),
            body,
        }
    }

    /// A dispatcher for the service at `base_url`, on behalf of the client
    /// `client_id`.
    pub fn new(base_url: String, client_id: String) -> (transport: Self)
        ensures
            transport.base_url() == base_url@,
            transport.client_id() == client_id@,
    {
        Transport { base_url, client_id }
    }

    /// Prepares one request. The token, where there is one, goes into the
    /// authorization line as given; the body is handed on as given.
    pub fn request<'a>(
        &self,
        endpoint: &str,
        method: Method,
        body: Option<&'a serde_json::Value>,
        access_token: Option<&str>,
    ) -> (prepared: PreparedRequest<'a>)
        ensures
            prepared@ == self.plan(method, endpoint@, document_of(body), text_of(access_token)),
    {
        let url = self.base_url.clone().concat(endpoint);
        let mut headers: Vec<Header> = Vec::new();
        headers.push(
            Header {
                name: String::from_str("Content-Type"),
                value: String::from_str("application/json"),
            },
        );
        headers.push(Header { name: String::from_str("X-Client-ID"), value: self.client_id.clone() });
        if let Some(token) = access_token {
            headers.push(
                Header {
                    name: String::from_str("Authorization"),
                    value: String::from_str("Bearer ").concat(token),
                },
            );
        }
        let prepared = PreparedRequest { method, url, headers, body };
        proof {
            assert(prepared@.headers =~= request_headers(self.client_id(), text_of(access_token)));
        }
        prepared
    }

    /// Prepares a GET request: no body.
    pub fn get(
        &self,
        endpoint: &str,
        access_token: Option<&str>,
    ) -> (prepared: PreparedRequest<'static>)
        ensures
            prepared@ == self.plan(Method::Get, endpoint@, None, text_of(access_token)),
    {
        self.request(endpoint, Method::Get, None, access_token)
    }

    /// Prepares a POST request that carries `data`, if any, as its JSON body.
    pub fn post<'a>(
        &self,
        endpoint: &str,
        data: Option<&'a serde_json::Value>,
        access_token: Option<&str>,
    ) -> (prepared: PreparedRequest<'a>)
        ensures
            prepared@ == self.plan(Method::Post, endpoint@, document_of(data), text_of(access_token)),
    {
        self.request(endpoint, Method::Post, data, access_token)
    }

    /// Prepares a PUT request that carries `data`, if any, as its JSON body.
    pub fn put<'a>(
        &self,
        endpoint: &str,
        data: Option<&'a serde_json::Value>,
        access_token: Option<&str>,
    ) -> (prepared: PreparedRequest<'a>)
        ensures
            prepared@ == self.plan(Method::Put, endpoint@, document_of(data), text_of(access_token)),
    {
        self.request(endpoint, Method::Put, data, access_token)
    }

    /// Prepares a DELETE request: no body.
    pub fn delete(
        &self,
        endpoint: &str,
        access_token: Option<&str>,
    ) -> (prepared: PreparedRequest<'static>)
        ensures
            prepared@ == self.plan(Method::Delete, endpoint@, None, text_of(access_token)),
    {
        self.request(endpoint, Method::Delete, None, access_token)
    }
}

/// What the network layer reports once a prepared request has been sent. `R` is
/// whatever the network layer holds a response in; the dispatcher looks only at
/// the status.
#[derive(Debug)]
pub enum Delivery<R> {
    /// The request could not be sent, or no response arrived, whatever the cause.
    Failed,
    /// A response arrived with this status code.
    Responded { status: u16, response: R },
}

/// A status in the range 200 to 299.
pub open spec fn is_success(status: u16) -> bool {
    200 <= status < 300
}

/// The failure that a status outside the success range stands for.
pub open spec fn status_error(status: u16) -> IdentityError {
    if status == 401 || status == 403 {
        IdentityError::AuthorizationError
    } else if status == 419 {
        IdentityError::SessionExpiredError
    } else if status == 423 {
        IdentityError::TOTPRequiredError
    } else {
        IdentityError::ServerError
    }
}

/// What a delivery amounts to: the response, where one arrived with a status in
/// the success range, and else the failure the call ends with.
pub open spec fn delivery_verdict<R>(delivery: Delivery<R>) -> Result<R, IdentityError> {
    match delivery {
        Delivery::Failed => Err(IdentityError::NetworkError),
        Delivery::Responded { status, response } => if is_success(status) {
            Ok(response)
        } else {
            Err(status_error(status))
        },
    }
}

/// What decoding the body of a successful response amounts to: the decoded value,
/// or a server fault where the body did not have the expected shape.
pub open spec fn decoding_verdict<T>(decoded: Option<T>) -> Result<T, IdentityError> {
    match decoded {
        Some(value) => Ok(value),
        None => Err(IdentityError::ServerError),
    }
}

/// What a whole round trip yields, where `decode` says what decoding the body of
/// a response gives: the body is decoded only after a status in the success range.
pub open spec fn round_trip<R, T>(
    delivery: Delivery<R>,
    decode: spec_fn(R) -> Option<T>,
) -> Result<T, IdentityError> {
    match delivery_verdict(delivery) {
        Ok(response) => decoding_verdict(decode(response)),
        Err(error) => Err(error),
    }
}

/// Judges what came of sending a request. `Ok` hands the response back, for its
/// body to be decoded as JSON; an error ends the call, and the response, if there
/// is one, plays no part in it.
pub fn check_delivery<R>(delivery: Delivery<R>) -> (verdict: Result<R, IdentityError>)
    ensures
        verdict == delivery_verdict(delivery),
{
    match delivery {
        Delivery::Failed => Err(IdentityError::NetworkError),
        Delivery::Responded { status, response } => {
            if 200 <= status && status < 300 {
                Ok(response)
            } else if status == 401 || status == 403 {
                Err(IdentityError::AuthorizationError)
            } else if status == 419 {
                Err(IdentityError::SessionExpiredError)
            } else if status == 423 {
                Err(IdentityError::TOTPRequiredError)
            } else {
                Err(IdentityError::ServerError)
            }
        },
    }
}

/// Ends a call whose response was in the success range. `decoded` is the body
/// decoded into the type the caller asked for, or `None` where it could not be.
pub fn check_decoded<T>(decoded: Option<T>) -> (result: Result<T, IdentityError>)
    ensures
        result == decoding_verdict(decoded),
{
    match decoded {
        Some(value) => Ok(value),
        None => Err(IdentityError::ServerError),
    }
}

/// How many of the header lines bear the given name.
pub open spec fn count_named(headers: Seq<HeaderView>, name: Seq<char>) -> nat
    decreases headers.len(),
{
    if headers.len() == 0 {
        0
    } else {
        let rest = count_named(headers.drop_last(), name);
        if headers.last().name == name {
            rest + 1
        } else {
            rest
        }
    }
}

/// Neither of the two names that every request carries is the authorization name.
proof fn lemma_fixed_names_differ()
    ensures
        "Content-Type"@ != "Authorization"@,
        "X-Client-ID"@ != "Authorization"@,
{
    reveal_strlit("Authorization");
    reveal_strlit("Content-Type");
    reveal_strlit("X-Client-ID");
    assert("Authorization"@.len() == 13);
    assert("Content-Type"@.len() == 12);
    assert("X-Client-ID"@.len() == 11);
}

/// A request prepared without a token carries no authorization line.
pub proof fn lemma_no_token_no_authorization(
    transport: Transport,
    method: Method,
    endpoint: Seq<char>,
    body: Option<serde_json::Value>,
)
    ensures
        count_named(transport.plan(method, endpoint, body, None).headers, "Authorization"@) == 0,
{
    let headers = transport.plan(method, endpoint, body, None).headers;
    lemma_fixed_names_differ();
    let first = headers.drop_last();
    let none = first.drop_last();
    assert(count_named(none, "Authorization"@) == 0);
    assert(count_named(first, "Authorization"@) == 0);
}

/// A request prepared with a token carries exactly one authorization line, and
/// that line reads `Bearer`, a space, and the token as given.
pub proof fn lemma_token_one_authorization(
    transport: Transport,
    method: Method,
    endpoint: Seq<char>,
    body: Option<serde_json::Value>,
    token: Seq<char>,
)
    ensures
        ({
            let headers = transport.plan(method, endpoint, body, Some(token)).headers;
            &&& count_named(headers, "Authorization"@) == 1
            &&& forall|i: int|
                0 <= i < headers.len() && #[trigger] headers[i].name == "Authorization"@
                    ==> headers[i].value == "Bearer "@ + token
        }),
{
    let headers = transport.plan(method, endpoint, body, Some(token)).headers;
    lemma_fixed_names_differ();
    let fixed = headers.drop_last();
    let first = fixed.drop_last();
    let none = first.drop_last();
    assert(count_named(none, "Authorization"@) == 0);
    assert(count_named(first, "Authorization"@) == 0);
    assert(count_named(fixed, "Authorization"@) == 0);
}

/// A response outside the success range ends the call with the failure its status
/// stands for, whatever its body holds: 401 and 403 an authorization error, 419 an
/// expired session, 423 a demand for a second factor, any other a server fault.
pub proof fn lemma_failure_status<R, T>(status: u16, response: R, decode: spec_fn(R) -> Option<T>)
    requires
        !is_success(status),
    ensures
        round_trip(Delivery::Responded { status, response }, decode) == Err::<T, IdentityError>(
            status_error(status),
        ),
        status == 401 || status == 403 ==> status_error(status) == IdentityError::AuthorizationError,
        status == 419 ==> status_error(status) == IdentityError::SessionExpiredError,
        status == 423 ==> status_error(status) == IdentityError::TOTPRequiredError,
        status != 401 && status != 403 && status != 419 && status != 423 ==> status_error(status)
            == IdentityError::ServerError,
{
}

/// A response in the success range whose body cannot be decoded ends the call
/// with a server fault.
pub proof fn lemma_undecodable_body<R, T>(
    status: u16,
    response: R,
    decode: spec_fn(R) -> Option<T>,
)
    requires
        is_success(status),
        decode(response) is None,
    ensures
        round_trip(Delivery::Responded { status, response }, decode) == Err::<T, IdentityError>(
            IdentityError::ServerError,
        ),
{
}

/// A response in the success range whose body can be decoded ends the call with
/// the decoded value.
pub proof fn lemma_decoded_body<R, T>(
    status: u16,
    response: R,
    decode: spec_fn(R) -> Option<T>,
    value: T,
)
    requires
        is_success(status),
        decode(response) == Some(value),
    ensures
        round_trip(Delivery::Responded { status, response }, decode) == Ok::<T, IdentityError>(
            value,
        ),
{
}

/// A request that could not be delivered ends the call with a network error.
pub proof fn lemma_undelivered<R, T>(decode: spec_fn(R) -> Option<T>)
    ensures
        round_trip(Delivery::<R>::Failed, decode) == Err::<T, IdentityError>(
            IdentityError::NetworkError,
        ),
{
}

} // verus!
