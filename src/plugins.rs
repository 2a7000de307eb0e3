//! Listing and configuring plugins.
use vstd::prelude::*;

use crate::client::{Client, ClientClient, ClientToken};
use crate::operation::{permitted, Operation, Scope};
use crate::request::{Body, RequestBuilder};

verus! {

impl Client<ClientToken> {
    /// Lists all plugins.
    pub fn get_plugins(&self) -> (r: RequestBuilder<'_, ClientToken>)
        ensures
            r.client() == self,
            r.operation() == Operation::GetPlugins,
            permitted(Scope::Management, r.operation()),
            r.body() is Empty,
    {
        self.request(Operation::GetPlugins)
    }

    /// Reads the YAML configuration of plugin `id`.
    pub fn get_plugin_config(&self, id: i64) -> (r: RequestBuilder<'_, ClientToken>)
        ensures
            r.client() == self,
            r.operation() == Operation::GetPluginConfig(id),
            permitted(Scope::Management, r.operation()),
            r.body() is Empty,
    {
        self.request(Operation::GetPluginConfig(id))
    }

    /// Replaces the YAML configuration of plugin `id` with `config`.
    pub fn update_plugin_config(&self, id: i64, config: String) -> (r: RequestBuilder<
        '_,
        ClientToken,
    >)
        ensures
            r.client() == self,
            r.operation() == Operation::UpdatePluginConfig(id),
            permitted(Scope::Management, r.operation()),
            *r.body() == Body::Text(config),
    {
        self.request(Operation::UpdatePluginConfig(id)).with_string_body(config)
    }

    /// Disables plugin `id`.
    pub fn disable_plugin(&self, id: i64) -> (r: RequestBuilder<'_, ClientToken>)
        ensures
            r.client() == self,
            r.operation() == Operation::DisablePlugin(id),
            permitted(Scope::Management, r.operation()),
            r.body() is Empty,
    {
        self.request(Operation::DisablePlugin(id))
    }

    /// Reads the display text of plugin `id`.
    pub fn get_plugin_display(&self, id: i64) -> (r: RequestBuilder<'_, ClientToken>)
        ensures
            r.client() == self,
            r.operation() == Operation::GetPluginDisplay(id),
            permitted(Scope::Management, r.operation()),
            r.body() is Empty,
    {
        self.request(Operation::GetPluginDisplay(id))
    }

    /// Enables plugin `id`.
    pub fn enable_plugin(&self, id: i64) -> (r: RequestBuilder<'_, ClientToken>)
        ensures
            r.client() == self,
            r.operation() == Operation::EnablePlugin(id),
            permitted(Scope::Management, r.operation()),
            r.body() is Empty,
    {
        self.request(Operation::EnablePlugin(id))
    }
}

} // verus!
