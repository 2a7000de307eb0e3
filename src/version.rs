//! The version of the server.
use vstd::prelude::*;

use crate::client::{Client, Credential};
use crate::operation::{permitted, Operation, Scope};
use crate::request::RequestBuilder;

verus! {

impl<T: Credential> Client<T> {
    /// Reads the version of the server.
    pub fn version(&self) -> (r: RequestBuilder<'_, T>)
        ensures
            r.client() == self,
            r.operation() == Operation::Version,
            forall|held: Scope| permitted(held, r.operation()),
            r.body() is Empty,
    {
        self.request(Operation::Version)
    }
}

} // verus!
