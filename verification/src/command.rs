//! The commands of the remote-control protocol, as far as the bridge tells
//! them apart, and the responses it gives.

use crate::extension::DuckDuckGoExtensionCommand;
use crate::json::{json_model, JsonModel};
use crate::simctl::{ToolCommand, ToolCommandView};
use vstd::prelude::*;

verus! {

/// The member under which a response carries an element handle.
pub const ELEMENT_KEY: &'static str = "element-6066-11e4-a52e-4f735466cecf";

/// How an element is looked for.
#[derive(Clone, Copy, Debug, PartialEq, Eq, Structural)]
pub enum LocatorStrategy {
    CssSelector,
    LinkText,
    PartialLinkText,
    TagName,
    XPath,
}

/// One operation of the protocol.
#[derive(Debug, PartialEq)]
pub enum Command {
    NewSession,
    DeleteSession,
    Get { url: String },
    ExecuteScript { script: String, args: Option<Vec<serde_json::Value>> },
    ExecuteAsyncScript { script: String, args: Option<Vec<serde_json::Value>> },
    FindElement { using: LocatorStrategy, value: String },
    ElementClick { element: String },
    NewWindow,
    CloseWindow,
    SwitchToWindow { handle: String },
    GetWindowHandle,
    GetWindowHandles,
    GetCurrentUrl,
    Extension(DuckDuckGoExtensionCommand),
    /// Any operation that the bridge does not act on.
    Other,
}

/// A command together with the session it is meant for.
#[derive(Debug, PartialEq)]
pub struct Message {
    pub session_id: Option<String>,
    pub command: Command,
}

/// The value that a response carries.
#[derive(Debug, PartialEq)]
pub enum ResponseValue {
    Null,
    Text(String),
    TextList(Vec<String>),
    /// An object whose members are all strings.
    Object(Vec<(String, String)>),
    /// A value read from JSON text.
    Json(serde_json::Value),
}

/// What the bridge answers to a command.
#[derive(Debug, PartialEq)]
pub enum Response {
    Void,
    Generic(ResponseValue),
    NewSession { session_id: String, capabilities: ResponseValue },
    NewWindow { handle: String, typ: String },
}

/// What the bridge answers to a command, as plain data.
pub enum ResponseView {
    Void,
    Generic(JsonModel),
    NewSession { session_id: Seq<char>, capabilities: JsonModel },
    NewWindow { handle: Seq<char>, typ: Seq<char> },
}

/// One call of the automation server: `method` with `params` as its query,
/// on behalf of `session`.
#[derive(Clone, Debug, PartialEq, Eq)]
pub struct AutomationRequest {
    pub session: String,
    pub method: String,
    pub params: Vec<(String, String)>,
    /// The log stream to start before the call and to stop after it.
    pub monitor: ToolCommand,
}

/// One call of the automation server, as plain text.
pub struct AutomationRequestView {
    pub session: Seq<char>,
    pub method: Seq<char>,
    pub params: Seq<(Seq<char>, Seq<char>)>,
    pub monitor: ToolCommandView,
}

/// What came of sending a request to the automation server.
#[derive(Clone, Debug, PartialEq, Eq)]
pub enum RequestOutcome {
    /// The server replied with this body.
    Reply(String),
    /// No reply came within the time allowed.
    TimedOut,
    /// The request could not be sent, or the reply could not be read.
    Failed,
}

/// What has to happen for a command.
#[derive(Debug, PartialEq)]
pub enum Plan {
    /// Provision a simulator and answer with the new session.
    Provision,
    /// Run a tool, whatever comes of it, and answer with `response`.
    Local { command: ToolCommand, response: Response },
    /// Send one request to the automation server and interpret its reply.
    Request(AutomationRequest),
    /// Answer at once.
    Respond(Response),
}

/// What has to happen for a command, as plain data.
pub enum PlanView {
    Provision,
    Local { command: ToolCommandView, response: ResponseView },
    Request(AutomationRequestView),
    Respond(ResponseView),
}

/// The texts of a list of pairs.
pub open spec fn pairs_view(pairs: Seq<(String, String)>) -> Seq<(Seq<char>, Seq<char>)> {
    Seq::new(pairs.len(), |i: int| (pairs[i].0@, pairs[i].1@))
}

/// The array of strings that a list of texts stands for.
pub open spec fn text_array(texts: Seq<String>) -> JsonModel {
    JsonModel::Array(Seq::new(texts.len(), |i: int| JsonModel::String(texts[i]@)))
}

/// The object with string members that a list of pairs stands for.
pub open spec fn text_object(pairs: Seq<(String, String)>) -> JsonModel {
    JsonModel::Object(Seq::new(pairs.len(), |i: int| (pairs[i].0@, JsonModel::String(pairs[i].1@))))
}

impl View for ResponseValue {
    type V = JsonModel;

    open spec fn view(&self) -> JsonModel {
        match *self {
            ResponseValue::Null => JsonModel::Null,
            ResponseValue::Text(text) => JsonModel::String(text@),
            ResponseValue::TextList(texts) => text_array(texts@),
            ResponseValue::Object(pairs) => text_object(pairs@),
            ResponseValue::Json(value) => json_model(value),
        }
    }
}

impl View for Response {
    type V = ResponseView;

    open spec fn view(&self) -> ResponseView {
        match *self {
            Response::Void => ResponseView::Void,
            Response::Generic(value) => ResponseView::Generic(value@),
            Response::NewSession { session_id, capabilities } => ResponseView::NewSession {
                session_id: session_id@,
                capabilities: capabilities@,
            },
            Response::NewWindow { handle, typ } => ResponseView::NewWindow {
                handle: handle@,
                typ: typ@,
            },
        }
    }
}

impl View for AutomationRequest {
    type V = AutomationRequestView;

    open spec fn view(&self) -> AutomationRequestView {
        AutomationRequestView {
            session: self.session@,
            method: self.method@,
            params: pairs_view(self.params@),
            monitor: self.monitor@,
        }
    }
}

impl View for Plan {
    type V = PlanView;

    open spec fn view(&self) -> PlanView {
        match *self {
            Plan::Provision => PlanView::Provision,
            Plan::Local { command, response } => PlanView::Local {
                command: command@,
                response: response@,
            },
            Plan::Request(request) => PlanView::Request(request@),
            Plan::Respond(response) => PlanView::Respond(response@),
        }
    }
}

/// The name of a locator strategy on the wire.
pub open spec fn strategy_name(using: LocatorStrategy) -> Seq<char> {
    match using {
        LocatorStrategy::CssSelector => "css selector"@,
        LocatorStrategy::LinkText => "link text"@,
        LocatorStrategy::PartialLinkText => "partial link text"@,
        LocatorStrategy::TagName => "tag name"@,
        LocatorStrategy::XPath => "xpath"@,
    }
}

impl LocatorStrategy {
    /// The name of the strategy on the wire.
    pub fn name(&self) -> (r: &'static str)
        ensures
            r@ == strategy_name(*self),
    {
        match *self {
            LocatorStrategy::CssSelector => "css selector",
            LocatorStrategy::LinkText => "link text",
            LocatorStrategy::PartialLinkText => "partial link text",
            LocatorStrategy::TagName => "tag name",
            LocatorStrategy::XPath => "xpath",
        }
    }
}

} // verus!
