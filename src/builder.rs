//! Requests that take optional fields before they are built.
pub use crate::app::MessageBuilder;
pub use crate::applications::{ApplicationBuilder, ApplicationUpdateBuilder};
pub use crate::clients::{ClientBuilder, ClientUpdateBuilder};
pub use crate::messages::{GetApplicationMessagesBuilder, GetMessagesBuilder};
pub use crate::users::{CreateUserBuilder, UpdateCurrentUserBuilder, UpdateUserBuilder};
