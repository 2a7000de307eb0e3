use vstd::prelude::*;

verus! {

/// Keeps the set of credential kinds closed to this crate.
pub trait Sealed {}

impl Sealed for crate::client::AppToken {}

impl Sealed for crate::client::ClientToken {}

impl Sealed for crate::client::Unauthenticated {}

} // verus!
