//! The state of the server.
use vstd::prelude::*;

use crate::client::{Client, Credential};
use crate::operation::{permitted, Operation, Scope};
use crate::request::RequestBuilder;

verus! {

impl<T: Credential> Client<T> {
    /// Reads the state of the server.
    pub fn health(&self) -> (r: RequestBuilder<'_, T>)
        ensures
            r.client() == self,
            r.operation() == Operation::Health,
            forall|held: Scope| permitted(held, r.operation()),
            r.body() is Empty,
    {
        self.request(Operation::Health)
    }
}

} // verus!
