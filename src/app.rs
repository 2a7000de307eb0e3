//! Creating messages.
use std::collections::HashMap;

use vstd::prelude::*;

use crate::client::{AppClient, AppToken, Client};
use crate::operation::{permitted, Operation, Scope};
use crate::request::{
    Body, Field, FieldValue, RequestBuilder, field_entries, int_value, object_value, optional_int,
    optional_object, optional_text, push_field, text_value,
};

verus! {

impl Client<AppToken> {
    /// Starts a message with the text `message`.
    pub fn create_message(&self, message: String) -> (r: MessageBuilder<'_>)
        ensures
            r.client() == self,
            r.message() == message,
            r.title() is None,
            r.extras() is None,
            r.priority() is None,
    {
        MessageBuilder::new(self, message)
    }
}

/// A message to create.
pub struct MessageBuilder<'client> {
    client: &'client AppClient,
    message: String,
    title: Option<String>,
    extras: Option<HashMap<String, serde_json::Value>>,
    priority: Option<u8>,
}

impl<'client> MessageBuilder<'client> {
    pub closed spec fn client(&self) -> &'client AppClient {
        self.client
    }

    pub closed spec fn message(&self) -> String {
        self.message
    }

    pub closed spec fn title(&self) -> Option<String> {
        self.title
    }

    pub closed spec fn extras(&self) -> Option<HashMap<String, serde_json::Value>> {
        self.extras
    }

    pub closed spec fn priority(&self) -> Option<u8> {
        self.priority
    }

    /// Starts the request with its required fields; no optional field is set.
    pub fn new(client: &'client AppClient, message: String) -> (r: Self)
        ensures
            r.client() == client,
            r.message() == message,
            r.title() is None,
            r.extras() is None,
            r.priority() is None,
    {
        MessageBuilder { client, message, title: None, extras: None, priority: None }
    }

    /// Sets `title`, replacing any earlier value.
    pub fn with_title(self, title: String) -> (r: Self)
        ensures
            r.client() == self.client(),
            r.message() == self.message(),
            r.title() == Some(title),
            r.extras() == self.extras(),
            r.priority() == self.priority(),
    {
        MessageBuilder { title: Some(title), ..self }
    }

    /// Sets `extras`, replacing any earlier value.
    pub fn with_extras(self, extras: HashMap<String, serde_json::Value>) -> (r: Self)
        ensures
            r.client() == self.client(),
            r.message() == self.message(),
            r.title() == self.title(),
            r.extras() == Some(extras),
            r.priority() == self.priority(),
    {
        MessageBuilder { extras: Some(extras), ..self }
    }

    /// Sets `priority`, replacing any earlier value.
    pub fn with_priority(self, priority: u8) -> (r: Self)
        ensures
            r.client() == self.client(),
            r.message() == self.message(),
            r.title() == self.title(),
            r.extras() == self.extras(),
            r.priority() == Some(priority),
    {
        MessageBuilder { priority: Some(priority), ..self }
    }

    /// The request to send: the fields go into the JSON body.
    pub fn build(self) -> (r: RequestBuilder<'client, AppToken>)
        ensures
            r.client() == self.client(),
            r.operation() == Operation::CreateMessage,
            permitted(Scope::App, r.operation()),
            r.body() matches Body::Json(fields) && field_entries(fields@) == seq![
                ("message"@, FieldValue::Text(self.message())),
                ("title"@, optional_text(self.title())),
                ("extras"@, optional_object(self.extras())),
                ("priority"@, optional_int(self.priority())),
            ],
    {
        let operation = Operation::CreateMessage;
        let ghost expected = seq![
            ("message"@, FieldValue::Text(self.message())),
            ("title"@, optional_text(self.title())),
            ("extras"@, optional_object(self.extras())),
            ("priority"@, optional_int(self.priority())),
        ];
        let mut fields: Vec<Field> = Vec::new();
        push_field(&mut fields, "message", FieldValue::Text(self.message));
        push_field(&mut fields, "title", text_value(self.title));
        push_field(&mut fields, "extras", object_value(self.extras));
        push_field(&mut fields, "priority", int_value(self.priority));
        assert(field_entries(fields@) =~= expected);
        self.client.request(operation).with_json_body(fields)
    }
}

} // verus!
