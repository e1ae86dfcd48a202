//! Client bindings for a payment-processing gateway.
//!
//! The library covers the request/response core of the binding: encoding
//! domain records into the markup wire format, deriving the authorization
//! material, building authenticated wire requests, normalizing (possibly
//! compressed) response bodies, and branching on the response status to
//! produce either a decoded record or a structured error.
//!
//! Actual network transport is left to the surrounding application; every
//! function here is a pure computation over plain values.

use vstd::prelude::*;
use vstd::string::*;

mod address;
pub mod client_token;
mod credit_card;
mod customer;
mod error;
mod markup;
pub mod subscription;
pub mod transaction;
mod transport;

pub use address::Address;
pub use credit_card::CreditCard;
pub use customer::Customer;
pub use error::ApiErrorResponse;
pub use error::Error;
pub use markup::parse_document;
pub use markup::Element;
pub use transport::normalize_body;
pub use transport::HttpResponse;
pub use transport::Method;
pub use transport::WireRequest;

use crate::client_token::ClientToken;
use crate::markup::{canonical_doc, child_text, ser_elem, ElemV};
use crate::transaction::Transaction;
use crate::transport::{base64_of, bytes_to_string, normalized_body};
use vstd::utf8::encode_utf8;

verus! {

/// The two gateway environments a client can be configured against.
#[derive(Clone, Copy, PartialEq, Eq, Structural, Debug)]
pub enum Environment {
    Sandbox,
    Production,
}

/// The base URL that requests for the given environment are resolved
/// against.
pub open spec fn base_url_spec(env: Environment) -> Seq<char> {
    match env {
        Environment::Sandbox => "https://sandbox.braintreegateway.com"@,
        Environment::Production => "https://www.braintreegateway.com"@,
    }
}

impl Environment {
    /// The environment's base URL.
    pub fn base_url(&self) -> (r: &'static str)
        ensures
            r@ == base_url_spec(*self),
    {
        match *self {
            Environment::Sandbox => "https://sandbox.braintreegateway.com",
            Environment::Production => "https://www.braintreegateway.com",
        }
    }
}

/// The authorization value derived from a key pair: basic authentication
/// over "public:private".
pub open spec fn auth_value(pk: Seq<char>, sk: Seq<char>) -> Seq<char> {
    "Basic "@ + base64_of(encode_utf8(pk + ":"@ + sk))
}

/// The merchant-scoped base path every request is resolved against.
pub open spec fn merchant_path_spec(env: Environment, merchant_id: Seq<char>) -> Seq<char> {
    base_url_spec(env) + "/merchants/"@ + merchant_id + "/"@
}

/// The credentials of a merchant account: environment, merchant
/// identifier and key pair, with the authorization header value derived
/// once at construction.
pub struct ApiKey {
    env: Environment,
    merchant_id: String,
    public_key: String,
    private_key: String,
    auth_header: String,
}

impl ApiKey {
    /// The configured environment.
    pub closed spec fn env_view(&self) -> Environment {
        self.env
    }

    /// The configured merchant identifier.
    pub closed spec fn merchant_id_view(&self) -> Seq<char> {
        self.merchant_id@
    }

    /// The derived authorization header value.
    pub closed spec fn auth_view(&self) -> Seq<char> {
        self.auth_header@
    }

    /// Builds credentials, deriving the authorization value once.
    pub fn new(env: Environment, merchant_id: String, public_key: String, private_key: String)
        -> (k: ApiKey)
        ensures
            k.env_view() == env,
            k.merchant_id_view() == merchant_id@,
            k.auth_view() == auth_value(public_key@, private_key@),
    {
        let joined = public_key.clone().concat(":").concat(private_key.as_str());
        let bytes = joined.as_str().as_bytes_vec();
        let b64 = transport::base64_encode(&bytes);
        let auth_header = "Basic ".to_owned().concat(b64.as_str());
        ApiKey { env, merchant_id, public_key, private_key, auth_header }
    }

    /// The environment these credentials are for.
    pub fn environment(&self) -> (r: Environment)
        ensures
            r == self.env_view(),
    {
        self.env
    }

    /// The merchant identifier.
    pub fn merchant_id(&self) -> (r: &str)
        ensures
            r@ == self.merchant_id_view(),
    {
        self.merchant_id.as_str()
    }

    /// The authorization header value, derived once at construction and
    /// reused for every request.
    pub fn authorization_header(&self) -> (r: &str)
        ensures
            r@ == self.auth_view(),
    {
        self.auth_header.as_str()
    }
}

/// A handle to the gateway: credentials plus the precomputed
/// merchant-scoped base path and client identification.
pub struct Braintree {
    creds: ApiKey,
    merchant_path: String,
    user_agent: String,
}

/// Whether a header list is exactly the standard header set of this
/// client: markup content type and accept, gzip accepted, the client
/// identification, the derived authorization and the API version.
pub open spec fn standard_headers(bt: Braintree, hs: Seq<(String, String)>) -> bool {
    &&& hs.len() == 6
    &&& hs[0].0@ == "Content-Type"@ && hs[0].1@ == "application/xml"@
    &&& hs[1].0@ == "Accept"@ && hs[1].1@ == "application/xml"@
    &&& hs[2].0@ == "Accept-Encoding"@ && hs[2].1@ == "gzip"@
    &&& hs[3].0@ == "User-Agent"@ && hs[3].1@ == bt.ua_view()
    &&& hs[4].0@ == "Authorization"@ && hs[4].1@ == bt.creds_view().auth_view()
    &&& hs[5].0@ == "X-ApiVersion"@ && hs[5].1@ == "4"@
}

impl Braintree {
    /// The credentials this handle was built from.
    pub closed spec fn creds_view(&self) -> ApiKey {
        self.creds
    }

    /// The merchant-scoped base path.
    pub closed spec fn path_view(&self) -> Seq<char> {
        self.merchant_path@
    }

    /// The client identification header value.
    pub closed spec fn ua_view(&self) -> Seq<char> {
        self.user_agent@
    }

    /// Builds a handle to the gateway for the given credentials.
    pub fn new(env: Environment, merchant_id: String, public_key: String, private_key: String)
        -> (bt: Braintree)
        ensures
            bt.creds_view().env_view() == env,
            bt.creds_view().merchant_id_view() == merchant_id@,
            bt.creds_view().auth_view() == auth_value(public_key@, private_key@),
            bt.path_view() == merchant_path_spec(env, merchant_id@),
            bt.ua_view() == "Braintree Rust 0.1.0"@,
    {
        let merchant_path = env.base_url().to_owned().concat("/merchants/").concat(
            merchant_id.as_str(),
        ).concat("/");
        let creds = ApiKey::new(env, merchant_id, public_key, private_key);
        let user_agent = "Braintree Rust 0.1.0".to_owned();
        Braintree { creds, merchant_path, user_agent }
    }

    /// Client token operations.
    pub fn client_token(&self) -> (g: ClientTokenGateway)
        ensures
            g.bt() == *self,
    {
        ClientTokenGateway(self)
    }

    /// Customer operations.
    pub fn customer(&self) -> (g: CustomerGateway)
        ensures
            g.bt() == *self,
    {
        CustomerGateway(self)
    }

    /// Transaction operations.
    pub fn transaction(&self) -> (g: TransactionGateway)
        ensures
            g.bt() == *self,
    {
        TransactionGateway(self)
    }

    /// Sandbox-only test operations.
    pub fn testing(&self) -> (g: TestingGateway)
        ensures
            g.bt() == *self,
    {
        TestingGateway(self)
    }

    /// Computes the wire request for one call: the path resolved against
    /// the merchant-scoped base, the standard headers, and the body
    /// attached verbatim.
    pub fn build_request(&self, method: Method, path: &str, body: Option<Vec<u8>>) -> (r:
        WireRequest)
        ensures
            r.method == method,
            r.url@ == self.path_view() + path@,
            standard_headers(*self, r.headers@),
            r.body == body,
    {
        let url = self.merchant_path.clone().concat(path);
        let mut headers: Vec<(String, String)> = Vec::new();
        headers.push(("Content-Type".to_owned(), "application/xml".to_owned()));
        headers.push(("Accept".to_owned(), "application/xml".to_owned()));
        headers.push(("Accept-Encoding".to_owned(), "gzip".to_owned()));
        headers.push(("User-Agent".to_owned(), self.user_agent.clone()));
        headers.push(("Authorization".to_owned(), self.creds.auth_header.clone()));
        headers.push(("X-ApiVersion".to_owned(), "4".to_owned()));
        WireRequest { method, url, headers, body }
    }
}

/// The characters a byte sequence decodes to, when it is the UTF-8
/// encoding of some character sequence.
pub open spec fn decoded_chars(bytes: Seq<u8>) -> Option<Seq<char>> {
    if exists|cs: Seq<char>| encode_utf8(cs) == bytes {
        Some(choose|cs: Seq<char>| encode_utf8(cs) == bytes)
    } else {
        None
    }
}

/// The canonical document a response carries: its body, normalized for
/// content encoding, decoded as UTF-8 and read as a canonical serialized
/// element.
pub open spec fn response_doc(enc: Option<String>, body: Seq<u8>) -> Option<ElemV> {
    match normalized_body(enc, body) {
        Some(bytes) => match decoded_chars(bytes) {
            Some(cs) => canonical_doc(cs),
            None => None,
        },
        None => None,
    }
}

/// Reads a response body into a parsed document: the body is normalized
/// for content encoding, decoded as UTF-8, and parsed. A returned
/// document serializes and encodes back to exactly the normalized body.
pub fn read_document(resp: HttpResponse) -> (r: Result<Element, Error>)
    ensures
        r matches Ok(el) ==> normalized_body(resp.content_encoding, resp.body@) == Some(
            encode_utf8(ser_elem(el@)),
        ),
        resp.content_encoding matches Some(enc) && enc@ != "gzip"@ ==> r matches Err(
            Error::UnsupportedEncoding,
        ),
        r matches Err(e) ==> (e matches Error::Http(_) || e matches Error::UnsupportedEncoding
            || e matches Error::MalformedDocument),
        r matches Err(Error::Http(_)) ==> resp.content_encoding matches Some(enc) && enc@
            == "gzip"@ && transport::gunzip_of(resp.body@) is None,
        response_doc(resp.content_encoding, resp.body@) matches Some(v) ==> r matches Ok(el)
            && el@ == v,
{
    let body = match normalize_body(&resp.content_encoding, resp.body) {
        Ok(b) => b,
        Err(e) => {
            return Err(e);
        },
    };
    let text = match bytes_to_string(body) {
        Some(t) => t,
        None => {
            return Err(Error::MalformedDocument);
        },
    };
    parse_document(text.as_str())
}

/// Decodes a non-success response body into the structured error carried
/// back to the caller: the extracted message plus the parsed document.
fn decode_api_error(resp: HttpResponse) -> (r: Error)
    ensures
        r matches Error::Api(ae) ==> {
            &&& normalized_body(resp.content_encoding, resp.body@) == Some(encode_utf8(ser_elem(
                ae.raw@,
            )))
            &&& Some(ae.message@) == child_text(ae.raw@, "message"@)
        },
        r matches Error::MissingField(t) ==> t@ == "message"@,
        !(r matches Error::TestOperationInProduction) && !(r matches Error::Setup),
        response_doc(resp.content_encoding, resp.body@) matches Some(v) ==> (child_text(
            v,
            "message"@,
        ) matches Some(m) ==> ({
            &&& r matches Error::Api(ae)
            &&& ae.message@ == m
            &&& ae.raw@ == v
        })),
{
    let el = match read_document(resp) {
        Ok(el) => el,
        Err(e) => {
            return e;
        },
    };
    let message = match el.find("message") {
        Some(m) => m.text.clone(),
        None => {
            return Error::MissingField("message".to_owned());
        },
    };
    Error::Api(ApiErrorResponse { message, raw: el })
}

/// Client token operations.
pub struct ClientTokenGateway<'a>(&'a Braintree);

impl<'a> ClientTokenGateway<'a> {
    /// The handle this gateway operates for.
    pub closed spec fn bt(&self) -> Braintree {
        *self.0
    }

    /// The wire request that generates a client token.
    pub fn generate_request(&self, req: &client_token::Request) -> (r: WireRequest)
        ensures
            r.method == Method::Post,
            r.url@ == self.bt().path_view() + "client_token"@,
            standard_headers(self.bt(), r.headers@),
            r.body matches Some(b) && b@ == encode_utf8(ser_elem(client_token::request_elem(
                *req,
                "client-token"@,
            ))),
    {
        let xml = req.to_xml(None);
        self.0.build_request(Method::Post, "client_token", Some(xml.as_str().as_bytes_vec()))
    }

    /// Decides the outcome of a generate call: a created status with a
    /// decodable body yields the token, any other status yields the
    /// decoded error.
    pub fn generate_response(&self, resp: HttpResponse) -> (r: Result<ClientToken, Error>)
        ensures
            resp.status != 201 ==> r is Err,
            resp.status == 201 ==> !(r matches Err(Error::Api(_))),
            !(r matches Err(Error::TestOperationInProduction)) && !(r matches Err(Error::Setup)),
            r matches Ok(t) ==> resp.status == 201 && (exists|el: ElemV|
                normalized_body(resp.content_encoding, resp.body@) == Some(encode_utf8(
                    #[trigger] ser_elem(el),
                )) && client_token::client_token_decodable(el) && Some(t.value@) == child_text(
                    el,
                    "value"@,
                )),
            r matches Err(Error::Api(ae)) ==> resp.status != 201 && Some(ae.message@)
                == child_text(ae.raw@, "message"@),
            resp.status == 201 ==> (response_doc(resp.content_encoding, resp.body@) matches Some(
                v,
            ) ==> (client_token::client_token_decodable(v) ==> ({
                &&& r matches Ok(t)
                &&& Some(t.value@) == child_text(v, "value"@)
            }))),
            resp.status != 201 ==> (response_doc(resp.content_encoding, resp.body@) matches Some(
                v,
            ) ==> (child_text(v, "message"@) matches Some(m) ==> ({
                &&& r matches Err(Error::Api(ae))
                &&& ae.message@ == m
                &&& ae.raw@ == v
            }))),
    {
        if resp.status == 201 {
            let el = match read_document(resp) {
                Ok(el) => el,
                Err(e) => {
                    return Err(e);
                },
            };
            match ClientToken::from_element(&el) {
                Ok(t) => {
                    proof {
                        let w = el@;
                        assert(normalized_body(resp.content_encoding, resp.body@) == Some(
                            encode_utf8(ser_elem(w))));
                    }
                    Ok(t)
                },
                Err(e) => Err(e),
            }
        } else {
            Err(decode_api_error(resp))
        }
    }
}

/// Customer operations.
pub struct CustomerGateway<'a>(&'a Braintree);

impl<'a> CustomerGateway<'a> {
    /// The handle this gateway operates for.
    pub closed spec fn bt(&self) -> Braintree {
        *self.0
    }

    /// The wire request that creates a customer.
    pub fn generate_request(&self, req: &Customer) -> (r: WireRequest)
        ensures
            r.method == Method::Post,
            r.url@ == self.bt().path_view() + "customers"@,
            standard_headers(self.bt(), r.headers@),
            r.body matches Some(b) && b@ == encode_utf8(ser_elem(customer::customer_elem(
                *req,
                "customer"@,
            ))),
    {
        let xml = req.to_xml(None);
        self.0.build_request(Method::Post, "customers", Some(xml.as_str().as_bytes_vec()))
    }

    /// Decides the outcome of a generate call: a created status with a
    /// decodable body yields the customer, any other status yields the
    /// decoded error.
    pub fn generate_response(&self, resp: HttpResponse) -> (r: Result<Customer, Error>)
        ensures
            resp.status != 201 ==> r is Err,
            resp.status == 201 ==> !(r matches Err(Error::Api(_))),
            !(r matches Err(Error::TestOperationInProduction)) && !(r matches Err(Error::Setup)),
            r matches Ok(c) ==> resp.status == 201 && (exists|el: ElemV|
                normalized_body(resp.content_encoding, resp.body@) == Some(encode_utf8(
                    #[trigger] ser_elem(el),
                )) && customer::customer_matches(c, el)),
            resp.status == 201 && r is Err ==> (r matches Err(e) && (e matches Error::Http(_)
                || e matches Error::UnsupportedEncoding || e matches Error::MalformedDocument)),
            r matches Err(Error::Api(ae)) ==> resp.status != 201 && Some(ae.message@)
                == child_text(ae.raw@, "message"@),
            resp.status == 201 ==> (response_doc(resp.content_encoding, resp.body@) matches Some(
                v,
            ) ==> ({
                &&& r matches Ok(c)
                &&& customer::customer_matches(c, v)
            })),
            resp.status != 201 ==> (response_doc(resp.content_encoding, resp.body@) matches Some(
                v,
            ) ==> (child_text(v, "message"@) matches Some(m) ==> ({
                &&& r matches Err(Error::Api(ae))
                &&& ae.message@ == m
                &&& ae.raw@ == v
            }))),
    {
        if resp.status == 201 {
            let el = match read_document(resp) {
                Ok(el) => el,
                Err(e) => {
                    return Err(e);
                },
            };
            let c = Customer::from_element(&el);
            proof {
                let w = el@;
                assert(normalized_body(resp.content_encoding, resp.body@) == Some(encode_utf8(
                    ser_elem(w))));
            }
            Ok(c)
        } else {
            Err(decode_api_error(resp))
        }
    }
}

/// The view of an optional field value.
pub open spec fn opt_view_of(v: Option<String>) -> Option<Seq<char>> {
    crate::markup::opt_view(v)
}

/// Decides the outcome of a transaction call, accepting the given
/// success statuses.
fn transaction_response(resp: HttpResponse, ok200: bool, ok201: bool) -> (r: Result<
    Transaction,
    Error,
>)
    ensures
        !((resp.status == 200 && ok200) || (resp.status == 201 && ok201)) ==> r is Err,
        ((resp.status == 200 && ok200) || (resp.status == 201 && ok201)) ==> !(r matches Err(
            Error::Api(_),
        )),
        !(r matches Err(Error::TestOperationInProduction)) && !(r matches Err(Error::Setup)),
        r matches Ok(t) ==> ((resp.status == 200 && ok200) || (resp.status == 201 && ok201)) && (
        exists|el: ElemV|
            normalized_body(resp.content_encoding, resp.body@) == Some(encode_utf8(
                #[trigger] ser_elem(el),
            )) && transaction::transaction_decodable(el) && Some(t.id@) == child_text(el, "id"@)
                && Some(t.amount@) == child_text(el, "amount"@) && Some(t.status@) == child_text(
                el,
                "status"@,
            )),
        r matches Err(Error::Api(ae)) ==> Some(ae.message@) == child_text(ae.raw@, "message"@),
        ((resp.status == 200 && ok200) || (resp.status == 201 && ok201)) ==> (response_doc(
            resp.content_encoding,
            resp.body@,
        ) matches Some(v) ==> (transaction::transaction_decodable(v) ==> ({
            &&& r matches Ok(t)
            &&& Some(t.id@) == child_text(v, "id"@)
            &&& Some(t.amount@) == child_text(v, "amount"@)
            &&& Some(t.status@) == child_text(v, "status"@)
        }))),
        !((resp.status == 200 && ok200) || (resp.status == 201 && ok201)) ==> (response_doc(
            resp.content_encoding,
            resp.body@,
        ) matches Some(v) ==> (child_text(v, "message"@) matches Some(m) ==> ({
            &&& r matches Err(Error::Api(ae))
            &&& ae.message@ == m
            &&& ae.raw@ == v
        }))),
{
    let success = (resp.status == 200 && ok200) || (resp.status == 201 && ok201);
    if success {
        let el = match read_document(resp) {
            Ok(el) => el,
            Err(e) => {
                return Err(e);
            },
        };
        match Transaction::from_element(&el) {
            Ok(t) => {
                proof {
                    let w = el@;
                    assert(normalized_body(resp.content_encoding, resp.body@) == Some(encode_utf8(
                        ser_elem(w))));
                }
                Ok(t)
            },
            Err(e) => Err(e),
        }
    } else {
        Err(decode_api_error(resp))
    }
}

/// Transaction operations.
pub struct TransactionGateway<'a>(&'a Braintree);

impl<'a> TransactionGateway<'a> {
    /// The handle this gateway operates for.
    pub closed spec fn bt(&self) -> Braintree {
        *self.0
    }

    /// The wire request that creates a transaction.
    pub fn create_request(&self, req: &transaction::Request) -> (r: WireRequest)
        ensures
            r.method == Method::Post,
            r.url@ == self.bt().path_view() + "transactions"@,
            standard_headers(self.bt(), r.headers@),
            r.body matches Some(b) && b@ == encode_utf8(ser_elem(transaction::request_elem(
                *req,
                "transaction"@,
            ))),
    {
        let xml = req.to_xml(None);
        self.0.build_request(Method::Post, "transactions", Some(xml.as_str().as_bytes_vec()))
    }

    /// Decides the outcome of a create call; success is the created
    /// status.
    pub fn create_response(&self, resp: HttpResponse) -> (r: Result<Transaction, Error>)
        ensures
            resp.status != 201 ==> r is Err,
            resp.status == 201 ==> !(r matches Err(Error::Api(_))),
            r matches Ok(t) ==> resp.status == 201,
            !(r matches Err(Error::TestOperationInProduction)) && !(r matches Err(Error::Setup)),
            r matches Err(Error::Api(ae)) ==> Some(ae.message@) == child_text(ae.raw@, "message"@),
            resp.status == 201 ==> (response_doc(resp.content_encoding, resp.body@) matches Some(
                v,
            ) ==> (transaction::transaction_decodable(v) ==> ({
                &&& r matches Ok(t)
                &&& Some(t.id@) == child_text(v, "id"@)
                &&& Some(t.amount@) == child_text(v, "amount"@)
                &&& Some(t.status@) == child_text(v, "status"@)
            }))),
            resp.status != 201 ==> (response_doc(resp.content_encoding, resp.body@) matches Some(
                v,
            ) ==> (child_text(v, "message"@) matches Some(m) ==> ({
                &&& r matches Err(Error::Api(ae))
                &&& ae.message@ == m
                &&& ae.raw@ == v
            }))),
    {
        transaction_response(resp, false, true)
    }

    /// The wire request that submits an authorized transaction for
    /// settlement.
    pub fn submit_for_settlement_request(&self, transaction_id: &str) -> (r: WireRequest)
        ensures
            r.method == Method::Put,
            r.url@ == self.bt().path_view() + "transactions/"@ + transaction_id@
                + "/submit_for_settlement"@,
            standard_headers(self.bt(), r.headers@),
            r.body is None,
    {
        let path = "transactions/".to_owned().concat(transaction_id).concat(
            "/submit_for_settlement",
        );
        self.0.build_request(Method::Put, path.as_str(), None)
    }

    /// Decides the outcome of a settlement submission; success is the ok
    /// status.
    pub fn submit_for_settlement_response(&self, resp: HttpResponse) -> (r: Result<
        Transaction,
        Error,
    >)
        ensures
            resp.status != 200 ==> r is Err,
            resp.status == 200 ==> !(r matches Err(Error::Api(_))),
            r matches Ok(t) ==> resp.status == 200,
            !(r matches Err(Error::TestOperationInProduction)) && !(r matches Err(Error::Setup)),
            r matches Err(Error::Api(ae)) ==> Some(ae.message@) == child_text(ae.raw@, "message"@),
            resp.status == 200 ==> (response_doc(resp.content_encoding, resp.body@) matches Some(
                v,
            ) ==> (transaction::transaction_decodable(v) ==> ({
                &&& r matches Ok(t)
                &&& Some(t.id@) == child_text(v, "id"@)
                &&& Some(t.amount@) == child_text(v, "amount"@)
                &&& Some(t.status@) == child_text(v, "status"@)
            }))),
            resp.status != 200 ==> (response_doc(resp.content_encoding, resp.body@) matches Some(
                v,
            ) ==> (child_text(v, "message"@) matches Some(m) ==> ({
                &&& r matches Err(Error::Api(ae))
                &&& ae.message@ == m
                &&& ae.raw@ == v
            }))),
    {
        transaction_response(resp, true, false)
    }

    /// The wire request that voids a transaction that has not been
    /// captured yet.
    pub fn void_request(&self, transaction_id: &str) -> (r: WireRequest)
        ensures
            r.method == Method::Put,
            r.url@ == self.bt().path_view() + "transactions/"@ + transaction_id@ + "/void"@,
            standard_headers(self.bt(), r.headers@),
            r.body is None,
    {
        let path = "transactions/".to_owned().concat(transaction_id).concat("/void");
        self.0.build_request(Method::Put, path.as_str(), None)
    }

    /// Decides the outcome of a void call; success is the ok status.
    pub fn void_response(&self, resp: HttpResponse) -> (r: Result<Transaction, Error>)
        ensures
            resp.status != 200 ==> r is Err,
            resp.status == 200 ==> !(r matches Err(Error::Api(_))),
            r matches Ok(t) ==> resp.status == 200,
            !(r matches Err(Error::TestOperationInProduction)) && !(r matches Err(Error::Setup)),
            r matches Err(Error::Api(ae)) ==> Some(ae.message@) == child_text(ae.raw@, "message"@),
            resp.status == 200 ==> (response_doc(resp.content_encoding, resp.body@) matches Some(
                v,
            ) ==> (transaction::transaction_decodable(v) ==> ({
                &&& r matches Ok(t)
                &&& Some(t.id@) == child_text(v, "id"@)
                &&& Some(t.amount@) == child_text(v, "amount"@)
                &&& Some(t.status@) == child_text(v, "status"@)
            }))),
            resp.status != 200 ==> (response_doc(resp.content_encoding, resp.body@) matches Some(
                v,
            ) ==> (child_text(v, "message"@) matches Some(m) ==> ({
                &&& r matches Err(Error::Api(ae))
                &&& ae.message@ == m
                &&& ae.raw@ == v
            }))),
    {
        transaction_response(resp, true, false)
    }

    /// The wire request that refunds a settled transaction.
    pub fn refund_request(&self, transaction_id: &str) -> (r: WireRequest)
        ensures
            r.method == Method::Post,
            r.url@ == self.bt().path_view() + "transactions/"@ + transaction_id@ + "/refund"@,
            standard_headers(self.bt(), r.headers@),
            r.body is None,
    {
        let path = "transactions/".to_owned().concat(transaction_id).concat("/refund");
        self.0.build_request(Method::Post, path.as_str(), None)
    }

    /// Decides the outcome of a refund call; success is either the
    /// created or the ok status.
    pub fn refund_response(&self, resp: HttpResponse) -> (r: Result<Transaction, Error>)
        ensures
            resp.status != 200 && resp.status != 201 ==> r is Err,
            resp.status == 200 || resp.status == 201 ==> !(r matches Err(Error::Api(_))),
            r matches Ok(t) ==> resp.status == 200 || resp.status == 201,
            !(r matches Err(Error::TestOperationInProduction)) && !(r matches Err(Error::Setup)),
            r matches Err(Error::Api(ae)) ==> Some(ae.message@) == child_text(ae.raw@, "message"@),
            resp.status == 200 || resp.status == 201 ==> (response_doc(resp.content_encoding, resp.body@) matches Some(
                v,
            ) ==> (transaction::transaction_decodable(v) ==> ({
                &&& r matches Ok(t)
                &&& Some(t.id@) == child_text(v, "id"@)
                &&& Some(t.amount@) == child_text(v, "amount"@)
                &&& Some(t.status@) == child_text(v, "status"@)
            }))),
            resp.status != 200 && resp.status != 201 ==> (response_doc(resp.content_encoding, resp.body@) matches Some(
                v,
            ) ==> (child_text(v, "message"@) matches Some(m) ==> ({
                &&& r matches Err(Error::Api(ae))
                &&& ae.message@ == m
                &&& ae.raw@ == v
            }))),
    {
        transaction_response(resp, true, true)
    }

    /// The wire request that retrieves a transaction.
    pub fn find_request(&self, transaction_id: &str) -> (r: WireRequest)
        ensures
            r.method == Method::Get,
            r.url@ == self.bt().path_view() + "transactions/"@ + transaction_id@,
            standard_headers(self.bt(), r.headers@),
            r.body is None,
    {
        let path = "transactions/".to_owned().concat(transaction_id);
        self.0.build_request(Method::Get, path.as_str(), None)
    }

    /// Decides the outcome of a find call; success is the ok status.
    pub fn find_response(&self, resp: HttpResponse) -> (r: Result<Transaction, Error>)
        ensures
            resp.status != 200 ==> r is Err,
            resp.status == 200 ==> !(r matches Err(Error::Api(_))),
            r matches Ok(t) ==> resp.status == 200,
            !(r matches Err(Error::TestOperationInProduction)) && !(r matches Err(Error::Setup)),
            r matches Err(Error::Api(ae)) ==> Some(ae.message@) == child_text(ae.raw@, "message"@),
            resp.status == 200 ==> (response_doc(resp.content_encoding, resp.body@) matches Some(
                v,
            ) ==> (transaction::transaction_decodable(v) ==> ({
                &&& r matches Ok(t)
                &&& Some(t.id@) == child_text(v, "id"@)
                &&& Some(t.amount@) == child_text(v, "amount"@)
                &&& Some(t.status@) == child_text(v, "status"@)
            }))),
            resp.status != 200 ==> (response_doc(resp.content_encoding, resp.body@) matches Some(
                v,
            ) ==> (child_text(v, "message"@) matches Some(m) ==> ({
                &&& r matches Err(Error::Api(ae))
                &&& ae.message@ == m
                &&& ae.raw@ == v
            }))),
    {
        transaction_response(resp, true, false)
    }
}

/// Sandbox-only test operations.
pub struct TestingGateway<'a>(&'a Braintree);

impl<'a> TestingGateway<'a> {
    /// The handle this gateway operates for.
    pub closed spec fn bt(&self) -> Braintree {
        *self.0
    }

    /// The wire request that forces a transaction into the given status.
    /// Guard: against a production-configured client no request is built
    /// and the operation fails locally instead.
    fn set_status_request(&self, transaction_id: &str, status: &str) -> (r: Result<
        WireRequest,
        Error,
    >)
        ensures
            self.bt().creds_view().env_view() == Environment::Production <==> r matches Err(
                Error::TestOperationInProduction,
            ),
            self.bt().creds_view().env_view() != Environment::Production <==> r is Ok,
            r matches Ok(w) ==> {
                &&& w.method == Method::Put
                &&& w.url@ == self.bt().path_view() + "transactions/"@ + transaction_id@ + "/"@
                    + status@
                &&& standard_headers(self.bt(), w.headers@)
                &&& w.body is None
            },
    {
        if self.0.creds.environment() == Environment::Production {
            return Err(Error::TestOperationInProduction);
        }
        let path = "transactions/".to_owned().concat(transaction_id).concat("/").concat(status);
        Ok(self.0.build_request(Method::Put, path.as_str(), None))
    }

    /// The wire request that forces a transaction into a settled state.
    /// On a production-configured client this never yields a request and
    /// always fails with the test-operation error.
    pub fn settle_request(&self, transaction_id: &str) -> (r: Result<WireRequest, Error>)
        ensures
            self.bt().creds_view().env_view() == Environment::Production <==> r matches Err(
                Error::TestOperationInProduction,
            ),
            self.bt().creds_view().env_view() != Environment::Production <==> r is Ok,
            r matches Ok(w) ==> {
                &&& w.method == Method::Put
                &&& w.url@ == self.bt().path_view() + "transactions/"@ + transaction_id@
                    + "/settle"@
                &&& standard_headers(self.bt(), w.headers@)
                &&& w.body is None
            },
    {
        let r = self.set_status_request(transaction_id, "settle");
        proof {
            reveal_strlit("/");
            reveal_strlit("settle");
            reveal_strlit("/settle");
            let a = self.bt().path_view() + "transactions/"@ + transaction_id@;
            assert(a + "/"@ + "settle"@ =~= a + "/settle"@);
        }
        r
    }

    /// Decides the outcome of a settle call; success is the ok status.
    pub fn settle_response(&self, resp: HttpResponse) -> (r: Result<Transaction, Error>)
        ensures
            resp.status != 200 ==> r is Err,
            resp.status == 200 ==> !(r matches Err(Error::Api(_))),
            r matches Ok(t) ==> resp.status == 200,
            !(r matches Err(Error::TestOperationInProduction)) && !(r matches Err(Error::Setup)),
            r matches Err(Error::Api(ae)) ==> Some(ae.message@) == child_text(ae.raw@, "message"@),
            resp.status == 200 ==> (response_doc(resp.content_encoding, resp.body@) matches Some(
                v,
            ) ==> (transaction::transaction_decodable(v) ==> ({
                &&& r matches Ok(t)
                &&& Some(t.id@) == child_text(v, "id"@)
                &&& Some(t.amount@) == child_text(v, "amount"@)
                &&& Some(t.status@) == child_text(v, "status"@)
            }))),
            resp.status != 200 ==> (response_doc(resp.content_encoding, resp.body@) matches Some(
                v,
            ) ==> (child_text(v, "message"@) matches Some(m) ==> ({
                &&& r matches Err(Error::Api(ae))
                &&& ae.message@ == m
                &&& ae.raw@ == v
            }))),
    {
        transaction_response(resp, true, false)
    }
}

} // verus!
