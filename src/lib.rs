//! A client for the REST and websocket API of a Gotify push-notification server.
//!
//! Each operation is described by a request whose method, path, body and
//! expected response are fixed by the library's contracts; sending it and
//! decoding JSON is left to the caller's transport.
mod app;
mod applications;
pub mod builder;
mod client;
mod clients;
mod error;
mod foreign;
mod health;
mod messages;
pub mod models;
pub mod operation;
mod plugins;
pub mod request;
mod sealed;
mod users;
pub mod utils;
pub mod websocket;
mod version;

pub use crate::client::{
    AppClient, AppToken, Client, ClientClient, ClientToken, Credential, TokenType, Unauthenticated,
    UnauthenticatedClient,
};
pub use crate::error::{Error, InitError};
pub use crate::websocket::{WebsocketConnectError, WebsocketError};
