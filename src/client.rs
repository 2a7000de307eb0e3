//! The client, typed by the credential it holds.
use std::marker::PhantomData;

use reqwest::header::{HeaderValue, InvalidHeaderValue};
use reqwest::Client as HttpClient;
use reqwest::Error as HttpError;
use vstd::prelude::*;
use vstd::string::StringExecFns;

use crate::error::InitError;
use crate::operation::Scope;
use crate::sealed::Sealed;
use crate::utils::text_of;

verus! {

/// The header that carries the access token.
pub const TOKEN_HEADER: &'static str = "X-Gotify-Key";

/// Whether `Url::parse` accepts a text: the WHATWG URL rules, which depend on the text alone.
pub uninterp spec fn url_parses(text: Seq<char>) -> bool;

/// A character that may stand in a header value: a tab, or any character from
/// the space on but DEL (characters beyond ASCII are bytes of 128 and more).
pub open spec fn header_char(c: char) -> bool {
    c == '\t' || (c as u32 >= 32 && c as u32 != 127)
}

/// A text that can be sent as a header value.
pub open spec fn valid_header_text(s: Seq<char>) -> bool {
    forall|i: int| 0 <= i < s.len() ==> header_char(#[trigger] s[i])
}

/// A character of a header name that `HeaderMap::insert` takes from a static text.
pub open spec fn header_name_char(c: char) -> bool {
    ('a' <= c && c <= 'z') || ('A' <= c && c <= 'Z') || ('0' <= c && c <= '9') || c == '-'
}

/// Relies on `url::Url::parse`: success depends on the text alone.
#[verifier::external_body]
fn parse_url(text: &str) -> (r: Result<url::Url, url::ParseError>)
    ensures
        r is Ok <==> url_parses(text@),
{
    url::Url::parse(text)
}

/// Relies on `HeaderValue::from_str` (http): every byte must be a tab, or at
/// least 32 and not 127.
#[verifier::external_body]
fn header_value(text: &str) -> (r: Result<HeaderValue, InvalidHeaderValue>)
    ensures
        r is Ok <==> valid_header_text(text@),
{
    HeaderValue::from_str(text)
}

/// Relies on `reqwest::ClientBuilder::build` with the default settings.
#[verifier::external_body]
fn plain_http_client() -> (r: Result<HttpClient, HttpError>) {
    HttpClient::builder().build()
}

/// Relies on `HeaderMap::insert` and `reqwest::ClientBuilder::default_headers`
/// and `build`: a client that sends `value` under `name` with each request.
/// `insert` panics on a static name that is empty, longer than 64 bytes or
/// holds other characters than letters, digits and `-`.
#[verifier::external_body]
fn keyed_http_client(name: &'static str, value: HeaderValue) -> (r: Result<HttpClient, HttpError>)
    requires
        0 < name@.len() <= 64,
        forall|i: int| 0 <= i < name@.len() ==> header_name_char(#[trigger] name@[i]),
{
    let mut headers = reqwest::header::HeaderMap::new();
    headers.insert(name, value);
    HttpClient::builder().default_headers(headers).build()
}

proof fn token_header_is_valid()
    ensures
        0 < TOKEN_HEADER@.len() <= 64,
        forall|i: int|
            0 <= i < TOKEN_HEADER@.len() ==> header_name_char(#[trigger] TOKEN_HEADER@[i]),
{
    reveal_strlit("X-Gotify-Key");
}

/// A client for one server. Its type parameter is the credential it holds,
/// which decides the operations it offers.
#[derive(Debug)]
pub struct Client<T> {
    address: String,
    http: HttpClient,
    key: Option<String>,
    token: PhantomData<T>,
}

/// Relies on the `Clone` impl of `reqwest::Client`, which shares the
/// connection pool and keeps the default headers.
pub assume_specification[ <HttpClient as Clone>::clone ](c: &HttpClient) -> HttpClient;

impl<T> Clone for Client<T> {
    /// A client for the same server with the same credential; both share
    /// one connection pool.
    fn clone(&self) -> (r: Self)
        ensures
            r.server_address() == self.server_address(),
            r.access_token() == self.access_token(),
    {
        Client {
            address: self.address.clone(),
            http: self.http.clone(),
            key: self.key.clone(),
            token: PhantomData,
        }
    }
}

/// A client that may create messages.
pub type AppClient = Client<AppToken>;

/// A client that may manage the server.
pub type ClientClient = Client<ClientToken>;

/// A client without a credential.
pub type UnauthenticatedClient = Client<Unauthenticated>;

/// Marks a client as holding an application token.
#[derive(Clone, Debug)]
pub struct AppToken;

/// Marks a client as holding a client token.
#[derive(Clone, Debug)]
pub struct ClientToken;

/// Marks a client as holding no credential.
#[derive(Clone, Debug)]
pub struct Unauthenticated;

/// The kind of credential that a client type holds.
pub trait Credential: Sealed {
    /// The operations that a client of this kind may reach.
    spec fn scope() -> Scope;
}

impl Credential for AppToken {
    open spec fn scope() -> Scope {
        Scope::App
    }
}

impl Credential for ClientToken {
    open spec fn scope() -> Scope {
        Scope::Management
    }
}

impl Credential for Unauthenticated {
    open spec fn scope() -> Scope {
        Scope::Public
    }
}

/// An application token or a client token.
pub trait TokenType: Credential {}

impl TokenType for AppToken {}

impl TokenType for ClientToken {}

impl<T> Client<T> {
    /// The text of the server address that the client was made with.
    pub closed spec fn server_address(&self) -> Seq<char> {
        self.address@
    }

    /// The access token that the client sends, if it holds one.
    pub closed spec fn access_token(&self) -> Option<Seq<char>> {
        text_of(self.key)
    }

    /// The server address that the client was made with.
    pub fn address(&self) -> (r: &str)
        ensures
            r@ == self.server_address(),
    {
        self.address.as_str()
    }

    /// The HTTP client, which sends the access token with each request.
    pub fn http(&self) -> &HttpClient {
        &self.http
    }
}

impl<T: TokenType> Client<T> {
    /// Creates a client that holds `access_token`.
    pub fn new(server_url: &str, access_token: &str) -> (r: Result<Self, InitError>)
        ensures
            r matches Err(InitError::InvalidUrl(_)) <==> !url_parses(server_url@),
            r matches Err(InitError::InvalidAccessToken(_)) <==> url_parses(server_url@)
                && !valid_header_text(access_token@),
            r matches Err(InitError::Reqwest(_)) ==> url_parses(server_url@) && valid_header_text(
                access_token@,
            ),
            r matches Ok(c) ==> c.server_address() == server_url@ && c.access_token() == Some(
                access_token@,
            ),
    {
        if let Err(e) = parse_url(server_url) {
            return Err(InitError::InvalidUrl(e));
        }
        let value = match header_value(access_token) {
            Ok(v) => v,
            Err(e) => return Err(InitError::InvalidAccessToken(e)),
        };
        proof {
            token_header_is_valid();
        }
        let http = match keyed_http_client(TOKEN_HEADER, value) {
            Ok(h) => h,
            Err(e) => return Err(InitError::Reqwest(e)),
        };
        Ok(Client {
            address: String::from_str(server_url),
            http,
            key: Some(String::from_str(access_token)),
            token: PhantomData,
        })
    }
}

impl Client<Unauthenticated> {
    /// Creates a client without a credential.
    pub fn new_unauthenticated(server_url: &str) -> (r: Result<Self, InitError>)
        ensures
            r matches Err(InitError::InvalidUrl(_)) <==> !url_parses(server_url@),
            !(r matches Err(InitError::InvalidAccessToken(_))),
            r matches Ok(c) ==> c.server_address() == server_url@ && c.access_token() == None::<
                Seq<char>,
            >,
    {
        if let Err(e) = parse_url(server_url) {
            return Err(InitError::InvalidUrl(e));
        }
        let http = match plain_http_client() {
            Ok(h) => h,
            Err(e) => return Err(InitError::Reqwest(e)),
        };
        Ok(Client {
            address: String::from_str(server_url),
            http,
            key: None,
            token: PhantomData,
        })
    }

    /// Turns this client into one that holds `access_token`, for the same server.
    pub fn authenticate<T: TokenType>(self, access_token: &str) -> (r: Result<Client<T>, InitError>)
        ensures
            r matches Err(InitError::InvalidAccessToken(_)) <==> !valid_header_text(access_token@),
            !(r matches Err(InitError::InvalidUrl(_))),
            r matches Ok(c) ==> c.server_address() == self.server_address() && c.access_token()
                == Some(access_token@),
    {
        let value = match header_value(access_token) {
            Ok(v) => v,
            Err(e) => return Err(InitError::InvalidAccessToken(e)),
        };
        proof {
            token_header_is_valid();
        }
        let http = match keyed_http_client(TOKEN_HEADER, value) {
            Ok(h) => h,
            Err(e) => return Err(InitError::Reqwest(e)),
        };
        Ok(Client {
            address: self.address,
            http,
            key: Some(String::from_str(access_token)),
            token: PhantomData,
        })
    }
}

} // verus!
