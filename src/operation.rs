//! The table of the server's endpoints: for each operation its HTTP method,
//! its path, the shape of its response and the credential it needs.
use vstd::prelude::*;
use vstd::string::StringExecFns;

use crate::utils::{decimal, decimal_i64};

verus! {

/// An HTTP method used by the server's API.
#[derive(Clone, Copy, Debug, PartialEq, Eq, Structural)]
pub enum Method {
    Get,
    Post,
    Put,
    Delete,
}

/// Which credential a client holds, and so which operations it may reach.
#[derive(Clone, Copy, Debug, PartialEq, Eq, Structural)]
pub enum Scope {
    /// No credential: server status only.
    Public,
    /// An application token: creating messages.
    App,
    /// A client token: managing the server.
    Management,
}

/// What a successful response carries.
#[derive(Clone, Copy, Debug, PartialEq, Eq, Structural)]
pub enum ResponseShape {
    /// Nothing: success is the absence of an error.
    Empty,
    /// Raw text.
    Text,
    /// A JSON document of the operation's model.
    Json,
    /// A switch to the websocket protocol.
    Upgrade,
}

/// One operation of the server's API, with the ids that its path embeds.
#[derive(Clone, Copy, Debug, PartialEq, Eq, Structural)]
pub enum Operation {
    Health,
    Version,
    CreateMessage,
    GetApplications,
    CreateApplication,
    UpdateApplication(i64),
    DeleteApplication(i64),
    UploadApplicationImage(i64),
    DeleteApplicationImage(i64),
    GetClients,
    CreateClient,
    UpdateClient(i64),
    DeleteClient(i64),
    GetApplicationMessages(i64),
    DeleteApplicationMessages(i64),
    GetMessages,
    DeleteMessages,
    DeleteMessage(i64),
    GetPlugins,
    GetPluginConfig(i64),
    UpdatePluginConfig(i64),
    DisablePlugin(i64),
    GetPluginDisplay(i64),
    EnablePlugin(i64),
    GetCurrentUser,
    UpdateCurrentUser,
    GetUsers,
    CreateUser,
    GetUser(i64),
    UpdateUser(i64),
    DeleteUser(i64),
    StreamMessages,
}

/// The texts of a sequence of strings.
pub open spec fn texts(v: Seq<String>) -> Seq<Seq<char>> {
    v.map_values(|s: String| s@)
}

/// The HTTP method of each operation.
pub open spec fn method_of(op: Operation) -> Method {
    match op {
        Operation::Health | Operation::Version | Operation::GetApplications
        | Operation::GetClients | Operation::GetApplicationMessages(_) | Operation::GetMessages
        | Operation::GetPlugins | Operation::GetPluginConfig(_) | Operation::GetPluginDisplay(_)
        | Operation::GetCurrentUser | Operation::GetUsers | Operation::GetUser(_)
        | Operation::StreamMessages => Method::Get,
        Operation::UpdateApplication(_) | Operation::UpdateClient(_) => Method::Put,
        Operation::DeleteApplication(_) | Operation::DeleteApplicationImage(_)
        | Operation::DeleteClient(_) | Operation::DeleteApplicationMessages(_)
        | Operation::DeleteMessages | Operation::DeleteMessage(_)
        | Operation::DeleteUser(_) => Method::Delete,
        _ => Method::Post,
    }
}

/// The path of each operation, segment by segment; ids are written in decimal.
pub open spec fn path_of(op: Operation) -> Seq<Seq<char>> {
    match op {
        Operation::Health => seq!["health"@],
        Operation::Version => seq!["version"@],
        Operation::CreateMessage | Operation::GetMessages | Operation::DeleteMessages => seq![
            "message"@,
        ],
        Operation::GetApplications | Operation::CreateApplication => seq!["application"@],
        Operation::UpdateApplication(id) | Operation::DeleteApplication(id) => seq![
            "application"@,
            decimal(id as int),
        ],
        Operation::UploadApplicationImage(id) | Operation::DeleteApplicationImage(id) => seq![
            "application"@,
            decimal(id as int),
            "image"@,
        ],
        Operation::GetClients | Operation::CreateClient => seq!["client"@],
        Operation::UpdateClient(id) | Operation::DeleteClient(id) => seq![
            "client"@,
            decimal(id as int),
        ],
        Operation::GetApplicationMessages(id) | Operation::DeleteApplicationMessages(id) => seq![
            "application"@,
            decimal(id as int),
            "message"@,
        ],
        Operation::DeleteMessage(id) => seq!["message"@, decimal(id as int)],
        Operation::GetPlugins => seq!["plugin"@],
        Operation::GetPluginConfig(id) | Operation::UpdatePluginConfig(id) => seq![
            "plugin"@,
            decimal(id as int),
            "config"@,
        ],
        Operation::DisablePlugin(id) => seq!["plugin"@, decimal(id as int), "disable"@],
        Operation::GetPluginDisplay(id) => seq!["plugin"@, decimal(id as int), "display"@],
        Operation::EnablePlugin(id) => seq!["plugin"@, decimal(id as int), "enable"@],
        Operation::GetCurrentUser => seq!["current"@, "user"@],
        Operation::UpdateCurrentUser => seq!["current"@, "user"@, "password"@],
        Operation::GetUsers | Operation::CreateUser => seq!["user"@],
        Operation::GetUser(id) | Operation::UpdateUser(id) | Operation::DeleteUser(id) => seq![
            "user"@,
            decimal(id as int),
        ],
        Operation::StreamMessages => seq!["stream"@],
    }
}

/// What a successful response to each operation carries.
pub open spec fn shape_of(op: Operation) -> ResponseShape {
    match op {
        Operation::DeleteApplication(_) | Operation::DeleteApplicationImage(_)
        | Operation::DeleteClient(_) | Operation::DeleteApplicationMessages(_)
        | Operation::DeleteMessages | Operation::DeleteMessage(_)
        | Operation::UpdatePluginConfig(_) | Operation::DisablePlugin(_)
        | Operation::EnablePlugin(_) | Operation::UpdateCurrentUser
        | Operation::DeleteUser(_) => ResponseShape::Empty,
        Operation::GetPluginConfig(_) | Operation::GetPluginDisplay(_) => ResponseShape::Text,
        Operation::StreamMessages => ResponseShape::Upgrade,
        _ => ResponseShape::Json,
    }
}

/// The credential that each operation needs.
pub open spec fn scope_of(op: Operation) -> Scope {
    match op {
        Operation::Health | Operation::Version => Scope::Public,
        Operation::CreateMessage => Scope::App,
        _ => Scope::Management,
    }
}

/// A client holding `held` may perform `op`.
pub open spec fn permitted(held: Scope, op: Operation) -> bool {
    scope_of(op) == Scope::Public || scope_of(op) == held
}

/// Each operation is reachable with exactly one credential, unless it needs
/// none: an application token and a client token share only the public
/// operations, and a client without a credential reaches nothing else.
pub proof fn scopes_are_exclusive(op: Operation)
    ensures
        permitted(Scope::App, op) && permitted(Scope::Management, op) ==> scope_of(op)
            == Scope::Public,
        permitted(Scope::Public, op) <==> (op == Operation::Health || op == Operation::Version),
        op == Operation::CreateMessage ==> !permitted(Scope::Management, op) && !permitted(
            Scope::Public,
            op,
        ),
{
}

fn segments1(a: &str) -> (r: Vec<String>)
    ensures
        texts(r@) == seq![a@],
{
    let mut v: Vec<String> = Vec::new();
    v.push(String::from_str(a));
    assert(texts(v@) =~= seq![a@]);
    v
}

fn segments2(a: &str, b: String) -> (r: Vec<String>)
    ensures
        texts(r@) == seq![a@, b@],
{
    let mut v: Vec<String> = Vec::new();
    v.push(String::from_str(a));
    v.push(b);
    assert(texts(v@) =~= seq![a@, b@]);
    v
}

fn segments3(a: &str, b: String, c: &str) -> (r: Vec<String>)
    ensures
        texts(r@) == seq![a@, b@, c@],
{
    let mut v: Vec<String> = Vec::new();
    v.push(String::from_str(a));
    v.push(b);
    v.push(String::from_str(c));
    assert(texts(v@) =~= seq![a@, b@, c@]);
    v
}

impl Operation {
    /// The HTTP method of the operation.
    pub fn method(&self) -> (r: Method)
        ensures
            r == method_of(*self),
    {
        match self {
            Operation::Health | Operation::Version | Operation::GetApplications
            | Operation::GetClients | Operation::GetApplicationMessages(_)
            | Operation::GetMessages | Operation::GetPlugins | Operation::GetPluginConfig(_)
            | Operation::GetPluginDisplay(_) | Operation::GetCurrentUser | Operation::GetUsers
            | Operation::GetUser(_) | Operation::StreamMessages => Method::Get,
            Operation::UpdateApplication(_) | Operation::UpdateClient(_) => Method::Put,
            Operation::DeleteApplication(_) | Operation::DeleteApplicationImage(_)
            | Operation::DeleteClient(_) | Operation::DeleteApplicationMessages(_)
            | Operation::DeleteMessages | Operation::DeleteMessage(_)
            | Operation::DeleteUser(_) => Method::Delete,
            _ => Method::Post,
        }
    }

    /// The path segments under the server's base address.
    pub fn path(&self) -> (r: Vec<String>)
        ensures
            texts(r@) == path_of(*self),
    {
        match *self {
            Operation::Health => segments1("health"),
            Operation::Version => segments1("version"),
            Operation::CreateMessage | Operation::GetMessages | Operation::DeleteMessages => {
                segments1("message")
            },
            Operation::GetApplications | Operation::CreateApplication => segments1("application"),
            Operation::UpdateApplication(id) | Operation::DeleteApplication(id) => segments2(
                "application",
                decimal_i64(id),
            ),
            Operation::UploadApplicationImage(id) | Operation::DeleteApplicationImage(id) => {
                segments3("application", decimal_i64(id), "image")
            },
            Operation::GetClients | Operation::CreateClient => segments1("client"),
            Operation::UpdateClient(id) | Operation::DeleteClient(id) => segments2(
                "client",
                decimal_i64(id),
            ),
            Operation::GetApplicationMessages(id) | Operation::DeleteApplicationMessages(id) => {
                segments3("application", decimal_i64(id), "message")
            },
            Operation::DeleteMessage(id) => segments2("message", decimal_i64(id)),
            Operation::GetPlugins => segments1("plugin"),
            Operation::GetPluginConfig(id) | Operation::UpdatePluginConfig(id) => segments3(
                "plugin",
                decimal_i64(id),
                "config",
            ),
            Operation::DisablePlugin(id) => segments3("plugin", decimal_i64(id), "disable"),
            Operation::GetPluginDisplay(id) => segments3("plugin", decimal_i64(id), "display"),
            Operation::EnablePlugin(id) => segments3("plugin", decimal_i64(id), "enable"),
            Operation::GetCurrentUser => segments2("current", String::from_str("user")),
            Operation::UpdateCurrentUser => segments3(
                "current",
                String::from_str("user"),
                "password",
            ),
            Operation::GetUsers | Operation::CreateUser => segments1("user"),
            Operation::GetUser(id) | Operation::UpdateUser(id) | Operation::DeleteUser(id) => {
                segments2("user", decimal_i64(id))
            },
            Operation::StreamMessages => segments1("stream"),
        }
    }

    /// What a successful response carries.
    pub fn shape(&self) -> (r: ResponseShape)
        ensures
            r == shape_of(*self),
    {
        match self {
            Operation::DeleteApplication(_) | Operation::DeleteApplicationImage(_)
            | Operation::DeleteClient(_) | Operation::DeleteApplicationMessages(_)
            | Operation::DeleteMessages | Operation::DeleteMessage(_)
            | Operation::UpdatePluginConfig(_) | Operation::DisablePlugin(_)
            | Operation::EnablePlugin(_) | Operation::UpdateCurrentUser
            | Operation::DeleteUser(_) => ResponseShape::Empty,
            Operation::GetPluginConfig(_) | Operation::GetPluginDisplay(_) => ResponseShape::Text,
            Operation::StreamMessages => ResponseShape::Upgrade,
            _ => ResponseShape::Json,
        }
    }

    /// The credential that the operation needs.
    pub fn scope(&self) -> (r: Scope)
        ensures
            r == scope_of(*self),
    {
        match self {
            Operation::Health | Operation::Version => Scope::Public,
            Operation::CreateMessage => Scope::App,
            _ => Scope::Management,
        }
    }
}

} // verus!
