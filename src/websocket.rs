//! Subscribing to new messages: the websocket upgrade handshake and the
//! handling of each incoming frame.
use reqwest::Error as HttpError;
use serde_json::Error as JsonError;
use tokio_tungstenite::tungstenite::Error as ProtocolError;
use vstd::prelude::*;
use vstd::string::StringExecFns;

use crate::client::{Client, ClientToken};
use crate::operation::{permitted, Operation, Scope};
use crate::request::{pair_texts, Body, RequestBuilder};
use crate::utils::text_of;

verus! {

/// What `derive_accept_key` computes from a request key: the base64 text of
/// the SHA-1 digest of the key followed by the protocol's fixed GUID.
pub uninterp spec fn accept_key_for(request_key: Seq<char>) -> Seq<char>;

/// Relies on `tungstenite::handshake::client::generate_key`: a fresh random
/// key for the `Sec-WebSocket-Key` header: sixteen random bytes in base64,
/// which is always 24 characters.
#[verifier::external_body]
fn generate_key() -> (r: String)
    ensures
        r@.len() == 24,
{
    tokio_tungstenite::tungstenite::handshake::client::generate_key()
}

/// Relies on `tungstenite::handshake::derive_accept_key`, applied to the
/// bytes of `request_key`: the result depends on the key alone.
#[verifier::external_body]
fn accept_key(request_key: &str) -> (r: String)
    ensures
        r@ == accept_key_for(request_key@),
{
    tokio_tungstenite::tungstenite::handshake::derive_accept_key(request_key.as_bytes())
}

/// The headers of the upgrade request, for a request key.
pub open spec fn upgrade_headers(key: Seq<char>) -> Seq<(Seq<char>, Seq<char>)> {
    seq![
        ("connection"@, "Upgrade"@),
        ("upgrade"@, "websocket"@),
        ("sec-websocket-version"@, "13"@),
        ("sec-websocket-key"@, key),
        ("sec-websocket-extensions"@, "permessage-deflate; client_max_window_bits"@),
    ]
}

/// An upgrade request to send: a GET of the stream path, in the HTTP version
/// `http_version` (major, minor), with these headers.
pub struct Handshake<'c> {
    pub request: RequestBuilder<'c, ClientToken>,
    pub http_version: (u8, u8),
    pub key: String,
    pub headers: Vec<(String, String)>,
}

fn header(name: &str, value: &str) -> (r: (String, String))
    ensures
        r.0@ == name@,
        r.1@ == value@,
{
    (String::from_str(name), String::from_str(value))
}

/// The headers of the upgrade request, for a request key.
pub fn handshake_headers(key: &str) -> (r: Vec<(String, String)>)
    ensures
        pair_texts(r@) == upgrade_headers(key@),
{
    let mut headers: Vec<(String, String)> = Vec::new();
    headers.push(header("connection", "Upgrade"));
    headers.push(header("upgrade", "websocket"));
    headers.push(header("sec-websocket-version", "13"));
    headers.push(header("sec-websocket-key", key));
    headers.push(
        header("sec-websocket-extensions", "permessage-deflate; client_max_window_bits"),
    );
    assert(pair_texts(headers@) =~= upgrade_headers(key@));
    headers
}

impl Client<ClientToken> {
    /// Starts a subscription to new messages: the upgrade request, with a
    /// fresh key.
    pub fn stream_messages(&self) -> (r: Handshake<'_>)
        ensures
            r.request.client() == self,
            r.request.operation() == Operation::StreamMessages,
            permitted(Scope::Management, r.request.operation()),
            r.request.body() is Empty,
            pair_texts(r.headers@) == upgrade_headers(r.key@),
            r.key@.len() == 24,
            r.http_version == (1u8, 1u8),
    {
        let key = generate_key();
        let headers = handshake_headers(key.as_str());
        Handshake {
            request: self.request(Operation::StreamMessages),
            http_version: (1, 1),
            key,
            headers,
        }
    }
}

/// How the server answered an upgrade request.
#[derive(Clone, Copy, Debug, PartialEq, Eq, Structural)]
pub enum Upgrade {
    /// Any answer that is not a valid switch of protocols, error statuses
    /// included.
    NotSwitched,
    /// Status 101 with the accept key derived from the request key.
    Switched,
}

/// The verdict on an answer: a switch needs status 101 and the expected
/// accept key; anything else did not switch.
pub open spec fn upgrade_outcome(
    status: u16,
    accept: Option<Seq<char>>,
    expected: Seq<char>,
) -> Upgrade {
    if status == 101 && accept == Some(expected) {
        Upgrade::Switched
    } else {
        Upgrade::NotSwitched
    }
}

/// Judges an answer of `status` whose accept header is `accept` (`None` where
/// it is missing or not visible ASCII), against the accept key `expected`.
pub fn judge_upgrade(status: u16, accept: Option<String>, expected: &String) -> (r: Upgrade)
    ensures
        r == upgrade_outcome(status, text_of(accept), expected@),
{
    if status != 101 {
        Upgrade::NotSwitched
    } else {
        match accept {
            Some(a) => {
                if a == *expected {
                    Upgrade::Switched
                } else {
                    Upgrade::NotSwitched
                }
            },
            None => Upgrade::NotSwitched,
        }
    }
}

/// Judges an answer to the upgrade request made with `request_key`.
pub fn check_upgrade(status: u16, accept: Option<String>, request_key: &str) -> (r: Upgrade)
    ensures
        r == upgrade_outcome(status, text_of(accept), accept_key_for(request_key@)),
{
    let expected = accept_key(request_key);
    judge_upgrade(status, accept, &expected)
}

/// Errors that can occur when opening the websocket connection.
#[derive(Debug)]
pub enum WebsocketConnectError {
    /// The upgrade request failed, or the server answered with an error status.
    Http(HttpError),
    /// The server did not switch protocols as asked.
    Response(reqwest::Response),
    /// The connection could not be taken over.
    Upgrade(HttpError),
    /// The websocket protocol failed.
    Websocket(ProtocolError),
}

/// Errors delivered in the stream of messages.
#[derive(Debug)]
pub enum WebsocketError {
    /// The websocket protocol failed.
    Websocket(ProtocolError),
    /// A text frame did not hold a message.
    Serde(JsonError),
}

/// One frame read from the websocket, or the failure to read one.
#[derive(Debug)]
pub enum Frame {
    /// A text frame.
    Text(String),
    /// A binary, ping, pong or close frame.
    Other,
    /// A protocol failure.
    Failed(ProtocolError),
}

/// What to do with a frame.
#[derive(Debug)]
pub enum Action {
    /// Decode the text as a message and deliver the result.
    Decode(String),
    /// Deliver nothing.
    Skip,
    /// Deliver this error.
    Deliver(WebsocketError),
}

/// Text frames are decoded, failures delivered, other frames skipped.
pub open spec fn action_of(frame: Frame) -> Action {
    match frame {
        Frame::Text(t) => Action::Decode(t),
        Frame::Other => Action::Skip,
        Frame::Failed(e) => Action::Deliver(WebsocketError::Websocket(e)),
    }
}

/// Decides what a frame becomes in the stream of messages.
pub fn on_frame(frame: Frame) -> (r: Action)
    ensures
        r == action_of(frame),
{
    match frame {
        Frame::Text(t) => Action::Decode(t),
        Frame::Other => Action::Skip,
        Frame::Failed(e) => Action::Deliver(WebsocketError::Websocket(e)),
    }
}

/// The items that a run of frames delivers, in order.
pub open spec fn stream_items(frames: Seq<Frame>) -> Seq<Action>
    decreases frames.len(),
{
    if frames.len() == 0 {
        seq![]
    } else {
        let earlier = stream_items(frames.drop_last());
        match action_of(frames.last()) {
            Action::Skip => earlier,
            a => earlier.push(a),
        }
    }
}

/// Frames that carry the texts `texts`, in order.
pub open spec fn text_frames(texts: Seq<String>) -> Seq<Frame> {
    texts.map_values(|t: String| Frame::Text(t))
}

/// Texts to decode, one for each of `texts`, in order.
pub open spec fn decodes(texts: Seq<String>) -> Seq<Action> {
    texts.map_values(|t: String| Action::Decode(t))
}

/// Over one connection, text frames are delivered for decoding one for one,
/// in the order in which they came, none dropped.
pub proof fn stream_keeps_order(texts: Seq<String>)
    ensures
        stream_items(text_frames(texts)) == decodes(texts),
    decreases texts.len(),
{
    if texts.len() > 0 {
        stream_keeps_order(texts.drop_last());
        assert(text_frames(texts).drop_last() =~= text_frames(texts.drop_last()));
        assert(decodes(texts) =~= decodes(texts.drop_last()).push(Action::Decode(texts.last())));
    } else {
        assert(decodes(texts) =~= seq![]);
    }
}

/// Frames other than text frames and failures leave the delivered items as
/// they were.
pub proof fn other_frames_are_skipped(frames: Seq<Frame>)
    ensures
        stream_items(frames.push(Frame::Other)) == stream_items(frames),
{
    assert(frames.push(Frame::Other).drop_last() =~= frames);
}

} // verus!
