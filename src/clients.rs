//! Creating, reading, updating and deleting clients.
use vstd::prelude::*;

use crate::client::{Client, ClientClient, ClientToken};
use crate::operation::{permitted, Operation, Scope};
use crate::request::{Body, Field, FieldValue, RequestBuilder, field_entries, push_field};

verus! {

impl Client<ClientToken> {
    /// Lists all clients.
    pub fn get_clients(&self) -> (r: RequestBuilder<'_, ClientToken>)
        ensures
            r.client() == self,
            r.operation() == Operation::GetClients,
            permitted(Scope::Management, r.operation()),
            r.body() is Empty,
    {
        self.request(Operation::GetClients)
    }

    /// Starts the creation of a client named `name`.
    pub fn create_client(&self, name: String) -> (r: ClientBuilder<'_>)
        ensures
            r.client() == self,
            r.name() == name,
    {
        ClientBuilder::new(self, name)
    }

    /// Starts the update of client `id`, to be named `name`.
    pub fn update_client(&self, id: i64, name: String) -> (r: ClientUpdateBuilder<'_>)
        ensures
            r.client() == self,
            r.id() == id,
            r.name() == name,
    {
        ClientUpdateBuilder::new(self, id, name)
    }

    /// Deletes client `id`.
    pub fn delete_client(&self, id: i64) -> (r: RequestBuilder<'_, ClientToken>)
        ensures
            r.client() == self,
            r.operation() == Operation::DeleteClient(id),
            permitted(Scope::Management, r.operation()),
            r.body() is Empty,
    {
        self.request(Operation::DeleteClient(id))
    }
}

/// A client to create.
pub struct ClientBuilder<'client> {
    client: &'client ClientClient,
    name: String,
}

impl<'client> ClientBuilder<'client> {
    pub closed spec fn client(&self) -> &'client ClientClient {
        self.client
    }

    pub closed spec fn name(&self) -> String {
        self.name
    }

    /// Starts the request with its required fields; no optional field is set.
    pub fn new(client: &'client ClientClient, name: String) -> (r: Self)
        ensures
            r.client() == client,
            r.name() == name,
    {
        ClientBuilder { client, name }
    }

    /// The request to send: the fields go into the JSON body.
    pub fn build(self) -> (r: RequestBuilder<'client, ClientToken>)
        ensures
            r.client() == self.client(),
            r.operation() == Operation::CreateClient,
            permitted(Scope::Management, r.operation()),
            r.body() matches Body::Json(fields) && field_entries(fields@) == seq![
                ("name"@, FieldValue::Text(self.name())),
            ],
    {
        let operation = Operation::CreateClient;
        let ghost expected = seq![
            ("name"@, FieldValue::Text(self.name())),
        ];
        let mut fields: Vec<Field> = Vec::new();
        push_field(&mut fields, "name", FieldValue::Text(self.name));
        assert(field_entries(fields@) =~= expected);
        self.client.request(operation).with_json_body(fields)
    }
}

/// New settings of a client.
pub struct ClientUpdateBuilder<'client> {
    client: &'client ClientClient,
    id: i64,
    name: String,
}

impl<'client> ClientUpdateBuilder<'client> {
    pub closed spec fn client(&self) -> &'client ClientClient {
        self.client
    }

    pub closed spec fn id(&self) -> i64 {
        self.id
    }

    pub closed spec fn name(&self) -> String {
        self.name
    }

    /// Starts the request with its required fields; no optional field is set.
    pub fn new(client: &'client ClientClient, id: i64, name: String) -> (r: Self)
        ensures
            r.client() == client,
            r.id() == id,
            r.name() == name,
    {
        ClientUpdateBuilder { client, id, name }
    }

    /// The request to send: the fields go into the JSON body; the id goes into the path only.
    pub fn build(self) -> (r: RequestBuilder<'client, ClientToken>)
        ensures
            r.client() == self.client(),
            r.operation() == Operation::UpdateClient(self.id()),
            permitted(Scope::Management, r.operation()),
            r.body() matches Body::Json(fields) && field_entries(fields@) == seq![
                ("name"@, FieldValue::Text(self.name())),
            ],
    {
        let operation = Operation::UpdateClient(self.id);
        let ghost expected = seq![
            ("name"@, FieldValue::Text(self.name())),
        ];
        let mut fields: Vec<Field> = Vec::new();
        push_field(&mut fields, "name", FieldValue::Text(self.name));
        assert(field_entries(fields@) =~= expected);
        self.client.request(operation).with_json_body(fields)
    }
}

} // verus!
