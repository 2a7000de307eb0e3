//! A pending call: the operation, the client that makes it and what it sends;
//! and the decisions taken on its response.
use std::collections::HashMap;

use reqwest::Error as HttpError;
use vstd::prelude::*;
use vstd::string::StringExecFns;

use crate::client::{Client, Credential};
use crate::error::Error;
use crate::models;
use crate::operation::{path_of, permitted, texts, Operation, ResponseShape};
use crate::utils::{decimal, decimal_i64, decimal_u64, text_of};

verus! {

/// The value of one field of a JSON body.
#[derive(Debug)]
pub enum FieldValue {
    Null,
    Bool(bool),
    Int(i64),
    Text(String),
    Object(HashMap<String, serde_json::Value>),
}

/// One named field of a JSON body.
#[derive(Debug)]
pub struct Field {
    pub name: String,
    pub value: FieldValue,
}

/// What a request sends besides its method and path.
#[derive(Debug)]
pub enum Body {
    /// Nothing.
    Empty,
    /// Name and value pairs for the query string.
    Query(Vec<(String, String)>),
    /// A JSON object with these fields, in this order.
    Json(Vec<Field>),
    /// Raw text.
    Text(String),
    /// A multipart form with one part named `file`: its file name and content.
    File(String, Vec<u8>),
}

/// The names and values of JSON fields.
pub open spec fn field_entries(v: Seq<Field>) -> Seq<(Seq<char>, FieldValue)> {
    v.map_values(|f: Field| (f.name@, f.value))
}

/// The texts of query pairs.
pub open spec fn pair_texts(v: Seq<(String, String)>) -> Seq<(Seq<char>, Seq<char>)> {
    v.map_values(|p: (String, String)| (p.0@, p.1@))
}

/// The JSON value of an optional text: `null` when it is absent.
pub open spec fn optional_text(o: Option<String>) -> FieldValue {
    match o {
        Some(s) => FieldValue::Text(s),
        None => FieldValue::Null,
    }
}

/// The JSON value of an optional small number: `null` when it is absent.
pub open spec fn optional_int(o: Option<u8>) -> FieldValue {
    match o {
        Some(n) => FieldValue::Int(n as i64),
        None => FieldValue::Null,
    }
}

/// The JSON value of optional free-form extras: `null` when they are absent.
pub open spec fn optional_object(o: Option<HashMap<String, serde_json::Value>>) -> FieldValue {
    match o {
        Some(m) => FieldValue::Object(m),
        None => FieldValue::Null,
    }
}

/// A query pair for a count, present only when the count is.
pub open spec fn count_pair(name: Seq<char>, o: Option<usize>) -> Seq<(Seq<char>, Seq<char>)> {
    match o {
        Some(n) => seq![(name, decimal(n as int))],
        None => seq![],
    }
}

/// A query pair for a signed number, present only when the number is.
pub open spec fn number_pair(name: Seq<char>, o: Option<i64>) -> Seq<(Seq<char>, Seq<char>)> {
    match o {
        Some(n) => seq![(name, decimal(n as int))],
        None => seq![],
    }
}

/// Appends the field `name` with `value`.
pub fn push_field(fields: &mut Vec<Field>, name: &str, value: FieldValue)
    ensures
        field_entries(final(fields)@) == field_entries(old(fields)@).push((name@, value)),
{
    let ghost v = value;
    fields.push(Field { name: String::from_str(name), value });
    assert(field_entries(fields@) =~= field_entries(old(fields)@).push((name@, v)));
}

/// Appends the query pair `name` with the count, where there is one.
pub fn push_count_pair(params: &mut Vec<(String, String)>, name: &str, o: Option<usize>)
    ensures
        pair_texts(final(params)@) == pair_texts(old(params)@) + count_pair(name@, o),
{
    match o {
        Some(n) => {
            params.push((String::from_str(name), decimal_u64(n as u64)));
            assert(pair_texts(params@) =~= pair_texts(old(params)@) + count_pair(name@, o));
        },
        None => {
            assert(pair_texts(params@) =~= pair_texts(old(params)@) + count_pair(name@, o));
        },
    }
}

/// Appends the query pair `name` with the number, where there is one.
pub fn push_number_pair(params: &mut Vec<(String, String)>, name: &str, o: Option<i64>)
    ensures
        pair_texts(final(params)@) == pair_texts(old(params)@) + number_pair(name@, o),
{
    match o {
        Some(n) => {
            params.push((String::from_str(name), decimal_i64(n)));
            assert(pair_texts(params@) =~= pair_texts(old(params)@) + number_pair(name@, o));
        },
        None => {
            assert(pair_texts(params@) =~= pair_texts(old(params)@) + number_pair(name@, o));
        },
    }
}

/// The JSON value of optional extras.
pub fn object_value(o: Option<HashMap<String, serde_json::Value>>) -> (r: FieldValue)
    ensures
        r == optional_object(o),
{
    match o {
        Some(m) => FieldValue::Object(m),
        None => FieldValue::Null,
    }
}

/// The JSON value of an optional text.
pub fn text_value(o: Option<String>) -> (r: FieldValue)
    ensures
        r == optional_text(o),
{
    match o {
        Some(s) => FieldValue::Text(s),
        None => FieldValue::Null,
    }
}

/// The JSON value of an optional small number.
pub fn int_value(o: Option<u8>) -> (r: FieldValue)
    ensures
        r == optional_int(o),
{
    match o {
        Some(n) => FieldValue::Int(n as i64),
        None => FieldValue::Null,
    }
}

/// One pending call of `operation` by `client`. Only operations that the
/// client's credential permits can be requested.
pub struct RequestBuilder<'c, T: Credential> {
    client: &'c Client<T>,
    operation: Operation,
    body: Body,
}

/// The text of the URL that `Url::parse` makes of `address`, after its path
/// segments are given a trailing empty one dropped and `segments` added.
pub uninterp spec fn path_appended(address: Seq<char>, segments: Seq<Seq<char>>) -> Option<
    Seq<char>,
>;

/// The text of the URL `url` after `pairs` are added to its query string.
pub uninterp spec fn query_appended(url: Seq<char>, pairs: Seq<(Seq<char>, Seq<char>)>) -> Option<
    Seq<char>,
>;

/// Relies on `url::Url::parse`, `Url::path_segments_mut` (which fails on a
/// URL that cannot be a base), `PathSegmentsMut::pop_if_empty` and `extend`
/// (which drop a trailing empty segment and add the given ones,
/// percent-encoded), and on the URL's text: a function of the arguments alone.
#[verifier::external_body]
fn append_path(address: &str, segments: &Vec<String>) -> (r: Option<String>)
    ensures
        text_of(r) == path_appended(address@, texts(segments@)),
{
    let mut url = url::Url::parse(address).ok()?;
    url.path_segments_mut().ok()?.pop_if_empty().extend(segments);
    Some(url.to_string())
}

/// Relies on `url::Url::parse`, `Url::query_pairs_mut` and
/// `Serializer::extend_pairs` (which add the pairs to the query string,
/// form-urlencoded), and on the URL's text: a function of the arguments alone.
#[verifier::external_body]
fn append_query(url: &str, pairs: &Vec<(String, String)>) -> (r: Option<String>)
    ensures
        text_of(r) == query_appended(url@, pair_texts(pairs@)),
{
    let mut url = url::Url::parse(url).ok()?;
    url.query_pairs_mut().extend_pairs(pairs);
    Some(url.to_string())
}

/// The query pairs that a body sends: none unless it is a query.
pub open spec fn query_pairs_of(body: Body) -> Seq<(Seq<char>, Seq<char>)> {
    match body {
        Body::Query(params) => pair_texts(params@),
        _ => seq![],
    }
}

/// The URL of an endpoint: the server address followed by the path segments,
/// then the query pairs where there are any; `None` where the address is not
/// a URL that can take a path.
pub open spec fn endpoint_of(
    address: Seq<char>,
    segments: Seq<Seq<char>>,
    pairs: Seq<(Seq<char>, Seq<char>)>,
) -> Option<Seq<char>> {
    match path_appended(address, segments) {
        Some(u) => if pairs.len() == 0 {
            Some(u)
        } else {
            query_appended(u, pairs)
        },
        None => None,
    }
}

impl<T: Credential> Client<T> {
    /// Starts a call of `operation`, with nothing to send yet.
    pub(crate) fn request(&self, operation: Operation) -> (r: RequestBuilder<'_, T>)
        requires
            permitted(T::scope(), operation),
        ensures
            r.client() == self,
            r.operation() == operation,
            r.body() is Empty,
    {
        RequestBuilder { client: self, operation, body: Body::Empty }
    }
}

impl<'c, T: Credential> RequestBuilder<'c, T> {
    #[verifier::type_invariant]
    spec fn in_scope(&self) -> bool {
        permitted(T::scope(), self.operation)
    }

    pub closed spec fn spec_client(&self) -> &'c Client<T> {
        self.client
    }

    pub closed spec fn spec_operation(&self) -> Operation {
        self.operation
    }

    pub closed spec fn spec_body(&self) -> &Body {
        &self.body
    }

    /// The client that makes the call.
    #[verifier::when_used_as_spec(spec_client)]
    pub fn client(&self) -> (r: &'c Client<T>)
        ensures
            r == self.spec_client(),
    {
        self.client
    }

    /// The operation called; always one that the client's credential permits.
    #[verifier::when_used_as_spec(spec_operation)]
    pub fn operation(&self) -> (r: Operation)
        ensures
            r == self.spec_operation(),
            permitted(T::scope(), r),
    {
        proof {
            use_type_invariant(self);
        }
        self.operation
    }

    /// What the call sends.
    #[verifier::when_used_as_spec(spec_body)]
    pub fn body(&self) -> (r: &Body)
        ensures
            r == self.spec_body(),
    {
        &self.body
    }

    /// Takes the request apart, to send it.
    pub fn into_parts(self) -> (r: (&'c Client<T>, Operation, Body))
        ensures
            r.0 == self.client(),
            r.1 == self.operation(),
            r.2 == *self.body(),
            permitted(T::scope(), r.1),
    {
        proof {
            use_type_invariant(&self);
        }
        (self.client, self.operation, self.body)
    }

    /// Sends `params` in the query string.
    pub fn with_query(self, params: Vec<(String, String)>) -> (r: Self)
        ensures
            r.client() == self.client(),
            r.operation() == self.operation(),
            *r.body() == Body::Query(params),
    {
        proof {
            use_type_invariant(&self);
        }
        RequestBuilder { client: self.client, operation: self.operation, body: Body::Query(params) }
    }

    /// Sends a JSON object of `fields`.
    pub fn with_json_body(self, fields: Vec<Field>) -> (r: Self)
        ensures
            r.client() == self.client(),
            r.operation() == self.operation(),
            *r.body() == Body::Json(fields),
    {
        proof {
            use_type_invariant(&self);
        }
        RequestBuilder { client: self.client, operation: self.operation, body: Body::Json(fields) }
    }

    /// Sends `body` as raw text.
    pub fn with_string_body(self, body: String) -> (r: Self)
        ensures
            r.client() == self.client(),
            r.operation() == self.operation(),
            *r.body() == Body::Text(body),
    {
        proof {
            use_type_invariant(&self);
        }
        RequestBuilder { client: self.client, operation: self.operation, body: Body::Text(body) }
    }

    /// Sends a multipart form with one file.
    pub fn with_file(self, file_name: String, file_content: Vec<u8>) -> (r: Self)
        ensures
            r.client() == self.client(),
            r.operation() == self.operation(),
            *r.body() == Body::File(file_name, file_content),
    {
        proof {
            use_type_invariant(&self);
        }
        RequestBuilder {
            client: self.client,
            operation: self.operation,
            body: Body::File(file_name, file_content),
        }
    }

    /// The address to call: the client's server address followed by the
    /// operation's path, and by the query pairs where there are any; `None`
    /// where the server address cannot take a path.
    pub fn url(&self) -> (r: Option<String>)
        ensures
            text_of(r) == endpoint_of(
                self.client().server_address(),
                path_of(self.operation()),
                query_pairs_of(*self.body()),
            ),
    {
        let path = self.operation.path();
        let url = append_path(self.client.address(), &path);
        match (url, &self.body) {
            (Some(u), Body::Query(params)) => {
                if params.len() > 0 {
                    append_query(u.as_str(), params)
                } else {
                    Some(u)
                }
            },
            (url, _) => url,
        }
    }
}

/// Which body to read from a response, and how to decode it.
#[derive(Clone, Copy, Debug, PartialEq, Eq, Structural)]
pub enum Reading {
    /// None: the call succeeded.
    Nothing,
    /// The body as text.
    Text,
    /// The body as JSON of the operation's model.
    Json,
    /// The body as JSON of the server's error record.
    ServerError,
}

/// A status of the 2xx class.
pub open spec fn is_success(status: u16) -> bool {
    200 <= status <= 299
}

/// How a response of `status` to a call expecting `shape` is read: the
/// server's error record unless the status is a success, else by the shape.
pub open spec fn reading_for(status: u16, shape: ResponseShape) -> Reading {
    if !is_success(status) {
        Reading::ServerError
    } else {
        match shape {
            ResponseShape::Empty => Reading::Nothing,
            ResponseShape::Text => Reading::Text,
            _ => Reading::Json,
        }
    }
}

/// Decides how to read a response of `status` to a call that expects `shape`.
pub fn reading(status: u16, shape: ResponseShape) -> (r: Reading)
    requires
        shape != ResponseShape::Upgrade,
    ensures
        r == reading_for(status, shape),
{
    if status < 200 || status > 299 {
        Reading::ServerError
    } else {
        match shape {
            ResponseShape::Empty => Reading::Nothing,
            ResponseShape::Text => Reading::Text,
            _ => Reading::Json,
        }
    }
}

/// The status alone chooses between the success path and the error path,
/// whatever the expected shape; the two never meet.
pub proof fn status_decides_path(status: u16, a: ResponseShape, b: ResponseShape)
    requires
        a != ResponseShape::Upgrade,
        b != ResponseShape::Upgrade,
    ensures
        (reading_for(status, a) == Reading::ServerError) == (reading_for(status, b)
            == Reading::ServerError),
        (reading_for(status, a) == Reading::ServerError) == !is_success(status),
{
}

/// The result of a call whose success body was read and decoded.
pub fn succeeded<R>(decoded: Result<R, HttpError>) -> (r: Result<R, Error>)
    ensures
        decoded matches Ok(v) ==> r == Ok::<R, Error>(v),
        decoded matches Err(e) ==> r == Err::<R, Error>(Error::Reqwest(e)),
{
    match decoded {
        Ok(v) => Ok(v),
        Err(e) => Err(Error::Reqwest(e)),
    }
}

/// The error of a call whose response was not a success: the server's error
/// record where it decoded, else the failure to read it.
pub fn failed(decoded: Result<models::Error, HttpError>) -> (r: Error)
    ensures
        decoded matches Ok(e) ==> r == Error::Response(e),
        decoded matches Err(e) ==> r == Error::Reqwest(e),
{
    match decoded {
        Ok(e) => Error::Response(e),
        Err(e) => Error::Reqwest(e),
    }
}

} // verus!
