//! Listing and deleting messages.
use vstd::prelude::*;

use crate::client::{Client, ClientClient, ClientToken};
use crate::operation::{permitted, Operation, Scope};
use crate::request::{
    Body, RequestBuilder, count_pair, number_pair, pair_texts, push_count_pair, push_number_pair,
};

verus! {

impl Client<ClientToken> {
    /// Starts a listing of the messages of application `id`.
    pub fn get_application_messages(&self, id: i64) -> (r: GetApplicationMessagesBuilder<'_>)
        ensures
            r.client() == self,
            r.id() == id,
            r.limit() is None,
            r.since() is None,
    {
        GetApplicationMessagesBuilder::new(self, id)
    }

    /// Deletes all messages of application `id`.
    pub fn delete_application_messages(&self, id: i64) -> (r: RequestBuilder<'_, ClientToken>)
        ensures
            r.client() == self,
            r.operation() == Operation::DeleteApplicationMessages(id),
            permitted(Scope::Management, r.operation()),
            r.body() is Empty,
    {
        self.request(Operation::DeleteApplicationMessages(id))
    }

    /// Starts a listing of all messages.
    pub fn get_messages(&self) -> (r: GetMessagesBuilder<'_>)
        ensures
            r.client() == self,
            r.limit() is None,
            r.since() is None,
    {
        GetMessagesBuilder::new(self)
    }

    /// Deletes all messages.
    pub fn delete_messages(&self) -> (r: RequestBuilder<'_, ClientToken>)
        ensures
            r.client() == self,
            r.operation() == Operation::DeleteMessages,
            permitted(Scope::Management, r.operation()),
            r.body() is Empty,
    {
        self.request(Operation::DeleteMessages)
    }

    /// Deletes message `id`.
    pub fn delete_message(&self, id: i64) -> (r: RequestBuilder<'_, ClientToken>)
        ensures
            r.client() == self,
            r.operation() == Operation::DeleteMessage(id),
            permitted(Scope::Management, r.operation()),
            r.body() is Empty,
    {
        self.request(Operation::DeleteMessage(id))
    }
}

/// A listing of the messages of one application.
pub struct GetApplicationMessagesBuilder<'client> {
    client: &'client ClientClient,
    id: i64,
    limit: Option<usize>,
    since: Option<i64>,
}

impl<'client> GetApplicationMessagesBuilder<'client> {
    pub closed spec fn client(&self) -> &'client ClientClient {
        self.client
    }

    pub closed spec fn id(&self) -> i64 {
        self.id
    }

    pub closed spec fn limit(&self) -> Option<usize> {
        self.limit
    }

    pub closed spec fn since(&self) -> Option<i64> {
        self.since
    }

    /// Starts the request with its required fields; no optional field is set.
    pub fn new(client: &'client ClientClient, id: i64) -> (r: Self)
        ensures
            r.client() == client,
            r.id() == id,
            r.limit() is None,
            r.since() is None,
    {
        GetApplicationMessagesBuilder { client, id, limit: None, since: None }
    }

    /// Sets `limit`, replacing any earlier value.
    pub fn with_limit(self, limit: usize) -> (r: Self)
        ensures
            r.client() == self.client(),
            r.id() == self.id(),
            r.limit() == Some(limit),
            r.since() == self.since(),
    {
        GetApplicationMessagesBuilder { limit: Some(limit), ..self }
    }

    /// Sets `since`, replacing any earlier value.
    pub fn with_since(self, since: i64) -> (r: Self)
        ensures
            r.client() == self.client(),
            r.id() == self.id(),
            r.limit() == self.limit(),
            r.since() == Some(since),
    {
        GetApplicationMessagesBuilder { since: Some(since), ..self }
    }

    /// The request to send: the fields go into the query string; the id goes into the path only.
    pub fn build(self) -> (r: RequestBuilder<'client, ClientToken>)
        ensures
            r.client() == self.client(),
            r.operation() == Operation::GetApplicationMessages(self.id()),
            permitted(Scope::Management, r.operation()),
            r.body() matches Body::Query(params) && pair_texts(params@) == count_pair(
                "limit"@,
                self.limit(),
            ) + number_pair("since"@, self.since()),
    {
        let operation = Operation::GetApplicationMessages(self.id);
        let mut params: Vec<(String, String)> = Vec::new();
        assert(pair_texts(params@) =~= seq![]);
        push_count_pair(&mut params, "limit", self.limit);
        push_number_pair(&mut params, "since", self.since);
        assert(pair_texts(params@) =~= count_pair("limit"@, self.limit()) + number_pair(
            "since"@,
            self.since(),
        ));
        self.client.request(operation).with_query(params)
    }
}

/// A listing of all messages.
pub struct GetMessagesBuilder<'client> {
    client: &'client ClientClient,
    limit: Option<usize>,
    since: Option<i64>,
}

impl<'client> GetMessagesBuilder<'client> {
    pub closed spec fn client(&self) -> &'client ClientClient {
        self.client
    }

    pub closed spec fn limit(&self) -> Option<usize> {
        self.limit
    }

    pub closed spec fn since(&self) -> Option<i64> {
        self.since
    }

    /// Starts the request with its required fields; no optional field is set.
    pub fn new(client: &'client ClientClient) -> (r: Self)
        ensures
            r.client() == client,
            r.limit() is None,
            r.since() is None,
    {
        GetMessagesBuilder { client, limit: None, since: None }
    }

    /// Sets `limit`, replacing any earlier value.
    pub fn with_limit(self, limit: usize) -> (r: Self)
        ensures
            r.client() == self.client(),
            r.limit() == Some(limit),
            r.since() == self.since(),
    {
        GetMessagesBuilder { limit: Some(limit), ..self }
    }

    /// Sets `since`, replacing any earlier value.
    pub fn with_since(self, since: i64) -> (r: Self)
        ensures
            r.client() == self.client(),
            r.limit() == self.limit(),
            r.since() == Some(since),
    {
        GetMessagesBuilder { since: Some(since), ..self }
    }

    /// The request to send: the fields go into the query string.
    pub fn build(self) -> (r: RequestBuilder<'client, ClientToken>)
        ensures
            r.client() == self.client(),
            r.operation() == Operation::GetMessages,
            permitted(Scope::Management, r.operation()),
            r.body() matches Body::Query(params) && pair_texts(params@) == count_pair(
                "limit"@,
                self.limit(),
            ) + number_pair("since"@, self.since()),
    {
        let operation = Operation::GetMessages;
        let mut params: Vec<(String, String)> = Vec::new();
        assert(pair_texts(params@) =~= seq![]);
        push_count_pair(&mut params, "limit", self.limit);
        push_number_pair(&mut params, "since", self.since);
        assert(pair_texts(params@) =~= count_pair("limit"@, self.limit()) + number_pair(
            "since"@,
            self.since(),
        ));
        self.client.request(operation).with_query(params)
    }
}

} // verus!
