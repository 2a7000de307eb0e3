//! Reading, creating, updating and deleting users.
use vstd::prelude::*;

use crate::client::{Client, ClientClient, ClientToken};
use crate::operation::{permitted, Operation, Scope};
use crate::request::{
    Body, Field, FieldValue, RequestBuilder, field_entries, optional_text, push_field, text_value,
};

verus! {

impl Client<ClientToken> {
    /// Reads the user that holds the token.
    pub fn get_current_user(&self) -> (r: RequestBuilder<'_, ClientToken>)
        ensures
            r.client() == self,
            r.operation() == Operation::GetCurrentUser,
            permitted(Scope::Management, r.operation()),
            r.body() is Empty,
    {
        self.request(Operation::GetCurrentUser)
    }

    /// Starts the change of the current user's password to `pass`.
    pub fn update_current_user(&self, pass: String) -> (r: UpdateCurrentUserBuilder<'_>)
        ensures
            r.client() == self,
            r.pass() == pass,
    {
        UpdateCurrentUserBuilder::new(self, pass)
    }

    /// Lists all users.
    pub fn get_users(&self) -> (r: RequestBuilder<'_, ClientToken>)
        ensures
            r.client() == self,
            r.operation() == Operation::GetUsers,
            permitted(Scope::Management, r.operation()),
            r.body() is Empty,
    {
        self.request(Operation::GetUsers)
    }

    /// Starts the creation of a user.
    pub fn create_user(&self, admin: bool, name: String, pass: String) -> (r: CreateUserBuilder<'_>)
        ensures
            r.client() == self,
            r.admin() == admin,
            r.name() == name,
            r.pass() == pass,
    {
        CreateUserBuilder::new(self, admin, name, pass)
    }

    /// Reads user `id`.
    pub fn get_user(&self, id: i64) -> (r: RequestBuilder<'_, ClientToken>)
        ensures
            r.client() == self,
            r.operation() == Operation::GetUser(id),
            permitted(Scope::Management, r.operation()),
            r.body() is Empty,
    {
        self.request(Operation::GetUser(id))
    }

    /// Starts the update of user `id`.
    pub fn update_user(&self, id: i64, admin: bool, name: String) -> (r: UpdateUserBuilder<'_>)
        ensures
            r.client() == self,
            r.id() == id,
            r.admin() == admin,
            r.name() == name,
            r.pass() is None,
    {
        UpdateUserBuilder::new(self, id, admin, name)
    }

    /// Deletes user `id`.
    pub fn delete_user(&self, id: i64) -> (r: RequestBuilder<'_, ClientToken>)
        ensures
            r.client() == self,
            r.operation() == Operation::DeleteUser(id),
            permitted(Scope::Management, r.operation()),
            r.body() is Empty,
    {
        self.request(Operation::DeleteUser(id))
    }
}

/// A new password for the current user.
pub struct UpdateCurrentUserBuilder<'client> {
    client: &'client ClientClient,
    pass: String,
}

impl<'client> UpdateCurrentUserBuilder<'client> {
    pub closed spec fn client(&self) -> &'client ClientClient {
        self.client
    }

    pub closed spec fn pass(&self) -> String {
        self.pass
    }

    /// Starts the request with its required fields; no optional field is set.
    pub fn new(client: &'client ClientClient, pass: String) -> (r: Self)
        ensures
            r.client() == client,
            r.pass() == pass,
    {
        UpdateCurrentUserBuilder { client, pass }
    }

    /// The request to send: the fields go into the JSON body.
    pub fn build(self) -> (r: RequestBuilder<'client, ClientToken>)
        ensures
            r.client() == self.client(),
            r.operation() == Operation::UpdateCurrentUser,
            permitted(Scope::Management, r.operation()),
            r.body() matches Body::Json(fields) && field_entries(fields@) == seq![
                ("pass"@, FieldValue::Text(self.pass())),
            ],
    {
        let operation = Operation::UpdateCurrentUser;
        let ghost expected = seq![
            ("pass"@, FieldValue::Text(self.pass())),
        ];
        let mut fields: Vec<Field> = Vec::new();
        push_field(&mut fields, "pass", FieldValue::Text(self.pass));
        assert(field_entries(fields@) =~= expected);
        self.client.request(operation).with_json_body(fields)
    }
}

/// A user to create.
pub struct CreateUserBuilder<'client> {
    client: &'client ClientClient,
    admin: bool,
    name: String,
    pass: String,
}

impl<'client> CreateUserBuilder<'client> {
    pub closed spec fn client(&self) -> &'client ClientClient {
        self.client
    }

    pub closed spec fn admin(&self) -> bool {
        self.admin
    }

    pub closed spec fn name(&self) -> String {
        self.name
    }

    pub closed spec fn pass(&self) -> String {
        self.pass
    }

    /// Starts the request with its required fields; no optional field is set.
    pub fn new(client: &'client ClientClient, admin: bool, name: String, pass: String) -> (r: Self)
        ensures
            r.client() == client,
            r.admin() == admin,
            r.name() == name,
            r.pass() == pass,
    {
        CreateUserBuilder { client, admin, name, pass }
    }

    /// The request to send: the fields go into the JSON body.
    pub fn build(self) -> (r: RequestBuilder<'client, ClientToken>)
        ensures
            r.client() == self.client(),
            r.operation() == Operation::CreateUser,
            permitted(Scope::Management, r.operation()),
            r.body() matches Body::Json(fields) && field_entries(fields@) == seq![
                ("admin"@, FieldValue::Bool(self.admin())),
                ("name"@, FieldValue::Text(self.name())),
                ("pass"@, FieldValue::Text(self.pass())),
            ],
    {
        let operation = Operation::CreateUser;
        let ghost expected = seq![
            ("admin"@, FieldValue::Bool(self.admin())),
            ("name"@, FieldValue::Text(self.name())),
            ("pass"@, FieldValue::Text(self.pass())),
        ];
        let mut fields: Vec<Field> = Vec::new();
        push_field(&mut fields, "admin", FieldValue::Bool(self.admin));
        push_field(&mut fields, "name", FieldValue::Text(self.name));
        push_field(&mut fields, "pass", FieldValue::Text(self.pass));
        assert(field_entries(fields@) =~= expected);
        self.client.request(operation).with_json_body(fields)
    }
}

/// New settings of a user.
pub struct UpdateUserBuilder<'client> {
    client: &'client ClientClient,
    id: i64,
    admin: bool,
    name: String,
    pass: Option<String>,
}

impl<'client> UpdateUserBuilder<'client> {
    pub closed spec fn client(&self) -> &'client ClientClient {
        self.client
    }

    pub closed spec fn id(&self) -> i64 {
        self.id
    }

    pub closed spec fn admin(&self) -> bool {
        self.admin
    }

    pub closed spec fn name(&self) -> String {
        self.name
    }

    pub closed spec fn pass(&self) -> Option<String> {
        self.pass
    }

    /// Starts the request with its required fields; no optional field is set.
    pub fn new(client: &'client ClientClient, id: i64, admin: bool, name: String) -> (r: Self)
        ensures
            r.client() == client,
            r.id() == id,
            r.admin() == admin,
            r.name() == name,
            r.pass() is None,
    {
        UpdateUserBuilder { client, id, admin, name, pass: None }
    }

    /// Sets `pass`, replacing any earlier value.
    pub fn with_pass(self, pass: String) -> (r: Self)
        ensures
            r.client() == self.client(),
            r.id() == self.id(),
            r.admin() == self.admin(),
            r.name() == self.name(),
            r.pass() == Some(pass),
    {
        UpdateUserBuilder { pass: Some(pass), ..self }
    }

    /// The request to send: the fields go into the JSON body; the id goes into the path only.
    pub fn build(self) -> (r: RequestBuilder<'client, ClientToken>)
        ensures
            r.client() == self.client(),
            r.operation() == Operation::UpdateUser(self.id()),
            permitted(Scope::Management, r.operation()),
            r.body() matches Body::Json(fields) && field_entries(fields@) == seq![
                ("admin"@, FieldValue::Bool(self.admin())),
                ("name"@, FieldValue::Text(self.name())),
                ("pass"@, optional_text(self.pass())),
            ],
    {
        let operation = Operation::UpdateUser(self.id);
        let ghost expected = seq![
            ("admin"@, FieldValue::Bool(self.admin())),
            ("name"@, FieldValue::Text(self.name())),
            ("pass"@, optional_text(self.pass())),
        ];
        let mut fields: Vec<Field> = Vec::new();
        push_field(&mut fields, "admin", FieldValue::Bool(self.admin));
        push_field(&mut fields, "name", FieldValue::Text(self.name));
        push_field(&mut fields, "pass", text_value(self.pass));
        assert(field_entries(fields@) =~= expected);
        self.client.request(operation).with_json_body(fields)
    }
}

} // verus!
