//! Creating, reading, updating and deleting applications, and their images.
use vstd::prelude::*;

use crate::client::{Client, ClientClient, ClientToken};
use crate::operation::{permitted, Operation, Scope};
use crate::request::{
    Body, Field, FieldValue, RequestBuilder, field_entries, int_value, optional_int, optional_text,
    push_field, text_value,
};

verus! {

impl Client<ClientToken> {
    /// Lists all applications.
    pub fn get_applications(&self) -> (r: RequestBuilder<'_, ClientToken>)
        ensures
            r.client() == self,
            r.operation() == Operation::GetApplications,
            permitted(Scope::Management, r.operation()),
            r.body() is Empty,
    {
        self.request(Operation::GetApplications)
    }

    /// Starts the creation of an application named `name`.
    pub fn create_application(&self, name: String) -> (r: ApplicationBuilder<'_>)
        ensures
            r.client() == self,
            r.name() == name,
            r.default_priority() is None,
            r.description() is None,
    {
        ApplicationBuilder::new(self, name)
    }

    /// Starts the update of application `id`, to be named `name`.
    pub fn update_application(&self, id: i64, name: String) -> (r: ApplicationUpdateBuilder<'_>)
        ensures
            r.client() == self,
            r.id() == id,
            r.name() == name,
            r.default_priority() is None,
            r.description() is None,
    {
        ApplicationUpdateBuilder::new(self, id, name)
    }

    /// Deletes application `id`.
    pub fn delete_application(&self, id: i64) -> (r: RequestBuilder<'_, ClientToken>)
        ensures
            r.client() == self,
            r.operation() == Operation::DeleteApplication(id),
            permitted(Scope::Management, r.operation()),
            r.body() is Empty,
    {
        self.request(Operation::DeleteApplication(id))
    }

    /// Uploads the image of application `id`, sent as a file.
    pub fn upload_application_image(
        &self,
        id: i64,
        image_name: String,
        image_content: Vec<u8>,
    ) -> (r: RequestBuilder<'_, ClientToken>)
        ensures
            r.client() == self,
            r.operation() == Operation::UploadApplicationImage(id),
            permitted(Scope::Management, r.operation()),
            *r.body() == Body::File(image_name, image_content),
    {
        self.request(Operation::UploadApplicationImage(id)).with_file(image_name, image_content)
    }

    /// Deletes the image of application `id`.
    pub fn delete_application_image(&self, id: i64) -> (r: RequestBuilder<'_, ClientToken>)
        ensures
            r.client() == self,
            r.operation() == Operation::DeleteApplicationImage(id),
            permitted(Scope::Management, r.operation()),
            r.body() is Empty,
    {
        self.request(Operation::DeleteApplicationImage(id))
    }
}

/// An application to create.
pub struct ApplicationBuilder<'client> {
    client: &'client ClientClient,
    name: String,
    default_priority: Option<u8>,
    description: Option<String>,
}

impl<'client> ApplicationBuilder<'client> {
    pub closed spec fn client(&self) -> &'client ClientClient {
        self.client
    }

    pub closed spec fn name(&self) -> String {
        self.name
    }

    pub closed spec fn default_priority(&self) -> Option<u8> {
        self.default_priority
    }

    pub closed spec fn description(&self) -> Option<String> {
        self.description
    }

    /// Starts the request with its required fields; no optional field is set.
    pub fn new(client: &'client ClientClient, name: String) -> (r: Self)
        ensures
            r.client() == client,
            r.name() == name,
            r.default_priority() is None,
            r.description() is None,
    {
        ApplicationBuilder { client, name, default_priority: None, description: None }
    }

    /// Sets `default_priority`, replacing any earlier value.
    pub fn with_default_priority(self, default_priority: u8) -> (r: Self)
        ensures
            r.client() == self.client(),
            r.name() == self.name(),
            r.default_priority() == Some(default_priority),
            r.description() == self.description(),
    {
        ApplicationBuilder { default_priority: Some(default_priority), ..self }
    }

    /// Sets `description`, replacing any earlier value.
    pub fn with_description(self, description: String) -> (r: Self)
        ensures
            r.client() == self.client(),
            r.name() == self.name(),
            r.default_priority() == self.default_priority(),
            r.description() == Some(description),
    {
        ApplicationBuilder { description: Some(description), ..self }
    }

    /// The request to send: the fields go into the JSON body.
    pub fn build(self) -> (r: RequestBuilder<'client, ClientToken>)
        ensures
            r.client() == self.client(),
            r.operation() == Operation::CreateApplication,
            permitted(Scope::Management, r.operation()),
            r.body() matches Body::Json(fields) && field_entries(fields@) == seq![
                ("name"@, FieldValue::Text(self.name())),
                ("defaultPriority"@, optional_int(self.default_priority())),
                ("description"@, optional_text(self.description())),
            ],
    {
        let operation = Operation::CreateApplication;
        let ghost expected = seq![
            ("name"@, FieldValue::Text(self.name())),
            ("defaultPriority"@, optional_int(self.default_priority())),
            ("description"@, optional_text(self.description())),
        ];
        let mut fields: Vec<Field> = Vec::new();
        push_field(&mut fields, "name", FieldValue::Text(self.name));
        push_field(&mut fields, "defaultPriority", int_value(self.default_priority));
        push_field(&mut fields, "description", text_value(self.description));
        assert(field_entries(fields@) =~= expected);
        self.client.request(operation).with_json_body(fields)
    }
}

/// New settings of an application.
pub struct ApplicationUpdateBuilder<'client> {
    client: &'client ClientClient,
    id: i64,
    name: String,
    default_priority: Option<u8>,
    description: Option<String>,
}

impl<'client> ApplicationUpdateBuilder<'client> {
    pub closed spec fn client(&self) -> &'client ClientClient {
        self.client
    }

    pub closed spec fn id(&self) -> i64 {
        self.id
    }

    pub closed spec fn name(&self) -> String {
        self.name
    }

    pub closed spec fn default_priority(&self) -> Option<u8> {
        self.default_priority
    }

    pub closed spec fn description(&self) -> Option<String> {
        self.description
    }

    /// Starts the request with its required fields; no optional field is set.
    pub fn new(client: &'client ClientClient, id: i64, name: String) -> (r: Self)
        ensures
            r.client() == client,
            r.id() == id,
            r.name() == name,
            r.default_priority() is None,
            r.description() is None,
    {
        ApplicationUpdateBuilder { client, id, name, default_priority: None, description: None }
    }

    /// Sets `default_priority`, replacing any earlier value.
    pub fn with_default_priority(self, default_priority: u8) -> (r: Self)
        ensures
            r.client() == self.client(),
            r.id() == self.id(),
            r.name() == self.name(),
            r.default_priority() == Some(default_priority),
            r.description() == self.description(),
    {
        ApplicationUpdateBuilder { default_priority: Some(default_priority), ..self }
    }

    /// Sets `description`, replacing any earlier value.
    pub fn with_description(self, description: String) -> (r: Self)
        ensures
            r.client() == self.client(),
            r.id() == self.id(),
            r.name() == self.name(),
            r.default_priority() == self.default_priority(),
            r.description() == Some(description),
    {
        ApplicationUpdateBuilder { description: Some(description), ..self }
    }

    /// The request to send: the fields go into the JSON body; the id goes into the path only.
    pub fn build(self) -> (r: RequestBuilder<'client, ClientToken>)
        ensures
            r.client() == self.client(),
            r.operation() == Operation::UpdateApplication(self.id()),
            permitted(Scope::Management, r.operation()),
            r.body() matches Body::Json(fields) && field_entries(fields@) == seq![
                ("name"@, FieldValue::Text(self.name())),
                ("defaultPriority"@, optional_int(self.default_priority())),
                ("description"@, optional_text(self.description())),
            ],
    {
        let operation = Operation::UpdateApplication(self.id);
        let ghost expected = seq![
            ("name"@, FieldValue::Text(self.name())),
            ("defaultPriority"@, optional_int(self.default_priority())),
            ("description"@, optional_text(self.description())),
        ];
        let mut fields: Vec<Field> = Vec::new();
        push_field(&mut fields, "name", FieldValue::Text(self.name));
        push_field(&mut fields, "defaultPriority", int_value(self.default_priority));
        push_field(&mut fields, "description", text_value(self.description));
        assert(field_entries(fields@) =~= expected);
        self.client.request(operation).with_json_body(fields)
    }
}

} // verus!
