//! The records that the server's API sends and receives.
use std::collections::HashMap;

use vstd::prelude::*;
use vstd::string::StringExecFns;

use crate::utils::{decimal, decimal_u64};

verus! {

/// An application: a sender of messages.
#[derive(Debug)]
pub struct Application {
    pub default_priority: Option<u8>,
    pub description: String,
    pub id: i64,
    pub image: String,
    pub internal: bool,
    pub last_used: Option<time::OffsetDateTime>,
    pub name: String,
    pub token: String,
}

/// A client: a holder of a management token.
#[derive(Debug)]
pub struct Client {
    pub id: i64,
    pub last_used: Option<time::OffsetDateTime>,
    pub name: String,
    pub token: String,
}

/// The body of every response whose status is not a success.
#[derive(Debug)]
pub struct Error {
    pub error: String,
    pub error_code: u16,
    pub error_description: String,
}

/// The text of an error: its code, its name, then its description.
pub open spec fn error_text(code: u16, error: Seq<char>, description: Seq<char>) -> Seq<char> {
    decimal(code as int) + seq![' '] + error + seq![':', ' '] + description
}

impl Error {
    /// Renders the error as `<code> <error>: <description>`.
    pub fn to_string(&self) -> (r: String)
        ensures
            r@ == error_text(self.error_code, self.error@, self.error_description@),
    {
        let mut s = decimal_u64(self.error_code as u64);
        s.append(" ");
        s.append(self.error.as_str());
        s.append(": ");
        s.append(self.error_description.as_str());
        proof {
            reveal_strlit(" ");
            reveal_strlit(": ");
            assert(s@ =~= error_text(self.error_code, self.error@, self.error_description@));
        }
        s
    }
}

/// The state of the server.
#[derive(Debug)]
pub struct Health {
    pub database: String,
    pub health: String,
}

/// A message as the server stores it.
#[derive(Debug)]
pub struct Message {
    pub appid: i64,
    pub date: time::OffsetDateTime,
    pub extras: Option<HashMap<String, serde_json::Value>>,
    pub id: i64,
    pub message: String,
    pub priority: u8,
    pub title: Option<String>,
}

/// One page of messages.
#[derive(Debug)]
pub struct PagedMessages {
    pub messages: Vec<Message>,
    pub paging: Paging,
}

/// Where a page of messages stands.
#[derive(Debug)]
pub struct Paging {
    pub limit: usize,
    pub next: Option<String>,
    pub since: i64,
    pub size: usize,
}

/// A plugin and its settings.
#[derive(Debug)]
pub struct PluginConf {
    pub author: Option<String>,
    pub capabilities: Vec<String>,
    pub enabled: bool,
    pub id: i64,
    pub license: Option<String>,
    pub plugin_path: String,
    pub name: String,
    pub token: String,
    pub website: Option<String>,
}

/// A user of the server.
#[derive(Debug)]
pub struct User {
    pub admin: bool,
    pub id: i64,
    pub name: String,
}

/// The version of the server.
#[derive(Debug)]
pub struct VersionInfo {
    pub build_date: String,
    pub commit: String,
    pub version: String,
}

} // verus!
