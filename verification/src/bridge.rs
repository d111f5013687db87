//! The command bridge: what to ask of the automation server for a command,
//! and what to answer once it has replied.
//!
//! For each command the bridge plans at most one request. The caller sends
//! it and hands what came of it to [`Handler::handle_outcome`].

use crate::command::{
    pairs_view, strategy_name, text_array, text_object, AutomationRequest,
    AutomationRequestView, Command, LocatorStrategy, Message, Plan, PlanView, RequestOutcome,
    Response, ResponseValue, ResponseView, ELEMENT_KEY,
};
use crate::error::BridgeError;
use crate::json::{
    get_text, get_text_list, json_parse, json_text, parse_value, string_value, text_list,
    text_member, value_to_string, JsonModel,
};
use crate::ports::{port_of, PortManager};
use crate::script::{
    argument_models, argument_texts, async_wrapper, click_script, click_text, sync_wrapper,
    wrap_async_script, wrap_script,
};
use crate::simctl::{
    log_stream_spec, monitor_simulator_logs, shutdown, shutdown_spec, LogLevel,
};
use crate::text::{decimal, decimal_text, join, joined, owned, percent_encoded, url_encode};
use vstd::prelude::*;
use vstd::utf8::encode_utf8;

verus! {

/// Where the automation server of a session listens.
pub const SERVER: &'static str = "http://localhost:";

/// A text with every byte outside the unreserved set percent-encoded.
pub open spec fn encoded(text: Seq<char>) -> Seq<char> {
    percent_encoded(encode_utf8(text))
}

/// The JSON object that describes how to find an element.
pub open spec fn locator_text(using: LocatorStrategy, value: Seq<char>) -> Seq<char> {
    "{\"using\":\""@ + strategy_name(using) + "\",\"value\":"@ + json_text(
        JsonModel::String(value),
    ) + "}"@
}

/// The method and the query parameters of the request that a command leads
/// to, for the commands that lead to one.
pub open spec fn request_for(command: Command, finder_script: Seq<char>) -> Option<
    (Seq<char>, Seq<(Seq<char>, Seq<char>)>),
> {
    match command {
        Command::Get { url } => Some(("navigate"@, seq![("url"@, url@)])),
        Command::ExecuteScript { script, args: Some(args) } => Some(
            ("execute"@, seq![("script"@, encoded(sync_wrapper(script@, argument_models(args@))))]),
        ),
        Command::ExecuteAsyncScript { script, args: Some(args) } => Some(
            (
                "execute"@,
                seq![("script"@, encoded(async_wrapper(script@, argument_models(args@))))],
            ),
        ),
        Command::FindElement { using, value } => Some(
            (
                "execute"@,
                seq![
                    ("script"@, encoded(finder_script)),
                    ("args"@, encoded(locator_text(using, value@))),
                ],
            ),
        ),
        Command::ElementClick { element } => Some(
            ("execute"@, seq![("script"@, encoded(click_text(element@)))]),
        ),
        Command::NewWindow => Some(("newWindow"@, Seq::empty())),
        Command::CloseWindow => Some(("closeWindow"@, Seq::empty())),
        Command::SwitchToWindow { handle } => Some(
            ("switchToWindow"@, seq![("handle"@, handle@)]),
        ),
        Command::GetWindowHandle => Some(("getWindowHandle"@, Seq::empty())),
        Command::GetWindowHandles => Some(("getWindowHandles"@, Seq::empty())),
        Command::GetCurrentUrl => Some(("getUrl"@, Seq::empty())),
        _ => None,
    }
}

/// A script command that came without an argument list.
pub open spec fn lacks_arguments(command: Command) -> bool {
    match command {
        Command::ExecuteScript { args, .. } => args is None,
        Command::ExecuteAsyncScript { args, .. } => args is None,
        _ => false,
    }
}

/// The answer that carries no value.
pub open spec fn null_answer() -> ResponseView {
    ResponseView::Generic(JsonModel::Null)
}

/// What has to happen for a command on behalf of a session: deleting the
/// session shuts its simulator down, and every other command leads to the
/// one request that [`request_for`] describes, made while the session's log
/// is streamed at the given level.
pub open spec fn planned_for(
    command: Command,
    session: Seq<char>,
    finder_script: Seq<char>,
    log_level: LogLevel,
) -> PlanView {
    match request_for(command, finder_script) {
        Some((method, params)) => PlanView::Request(
            AutomationRequestView {
                session,
                method,
                params,
                monitor: log_stream_spec(session, log_level),
            },
        ),
        None => PlanView::Local { command: shutdown_spec(session), response: null_answer() },
    }
}

/// What has to happen for a message.
///
/// A new session is provisioned. A command that the bridge does not act on
/// is answered with null. A script command without an argument list is
/// refused; any other command is refused when the message names no session,
/// and is planned as [`planned_for`] describes when it names one.
pub open spec fn planned(
    message: Message,
    finder_script: Seq<char>,
    log_level: LogLevel,
) -> Result<PlanView, BridgeError> {
    match message.command {
        Command::NewSession => Ok(PlanView::Provision),
        Command::Extension(_) => Ok(PlanView::Respond(null_answer())),
        Command::Other => Ok(PlanView::Respond(null_answer())),
        _ => if lacks_arguments(message.command) {
            Err(BridgeError::MissingArguments)
        } else {
            match message.session_id {
                None => Err(BridgeError::MissingSession),
                Some(session) => Ok(
                    planned_for(message.command, session@, finder_script, log_level),
                ),
            }
        },
    }
}

/// One query parameter as it stands in a URL.
pub open spec fn query_pair(pair: (Seq<char>, Seq<char>)) -> Seq<char> {
    pair.0 + "="@ + pair.1
}

/// The query of a URL.
pub open spec fn query_text(params: Seq<(Seq<char>, Seq<char>)>) -> Seq<char> {
    joined(Seq::new(params.len(), |i: int| query_pair(params[i])), "&"@)
}

/// The URL of a request to the automation server that listens on `port`.
pub open spec fn request_text(port: u16, request: AutomationRequestView) -> Seq<char> {
    SERVER@ + decimal(port as nat) + "/"@ + request.method + "?"@ + query_text(request.params)
}

/// The message inside a reply of the automation server.
pub open spec fn envelope_message(body: Seq<char>) -> Option<Seq<char>> {
    match json_parse(body) {
        Some(model) => text_member(model, "message"@),
        None => None,
    }
}

/// The window that a message describes.
pub open spec fn window_of(message: Seq<char>) -> Result<ResponseView, BridgeError> {
    match json_parse(message) {
        Some(model) => match (text_member(model, "handle"@), text_member(model, "type"@)) {
            (Some(handle), Some(typ)) => Ok(ResponseView::NewWindow { handle, typ }),
            _ => Err(BridgeError::InvalidWindow),
        },
        None => Err(BridgeError::InvalidWindow),
    }
}

/// The window handles that a message lists.
pub open spec fn handles_of(message: Seq<char>) -> Result<ResponseView, BridgeError> {
    match json_parse(message) {
        Some(model) => match text_list(model) {
            Some(handles) => Ok(
                ResponseView::Generic(
                    JsonModel::Array(
                        Seq::new(handles.len(), |i: int| JsonModel::String(handles[i])),
                    ),
                ),
            ),
            None => Err(BridgeError::InvalidWindowList),
        },
        None => Err(BridgeError::InvalidWindowList),
    }
}

/// The response to a command, given the message that the automation server
/// replied with.
pub open spec fn replied(command: Command, message: Seq<char>) -> Result<
    ResponseView,
    BridgeError,
> {
    match command {
        Command::Get { .. } => Ok(ResponseView::Void),
        Command::ElementClick { .. } => Ok(ResponseView::Void),
        Command::CloseWindow => Ok(ResponseView::Void),
        Command::SwitchToWindow { .. } => Ok(ResponseView::Void),
        Command::ExecuteScript { .. } => Ok(ResponseView::Generic(JsonModel::String(message))),
        Command::GetWindowHandle => Ok(ResponseView::Generic(JsonModel::String(message))),
        Command::GetCurrentUrl => Ok(ResponseView::Generic(JsonModel::String(message))),
        Command::ExecuteAsyncScript { .. } => match json_parse(message) {
            Some(model) => Ok(ResponseView::Generic(model)),
            None => Err(BridgeError::InvalidJson),
        },
        Command::FindElement { .. } => Ok(
            ResponseView::Generic(
                JsonModel::Object(seq![(ELEMENT_KEY@, JsonModel::String(message))]),
            ),
        ),
        Command::NewWindow => window_of(message),
        Command::GetWindowHandles => handles_of(message),
        _ => Err(BridgeError::UnexpectedReply),
    }
}

/// What a failed request is called in the log; nothing for a reply.
pub open spec fn failure_name(outcome: RequestOutcome) -> Option<Seq<char>> {
    match outcome {
        RequestOutcome::Reply(_) => None,
        RequestOutcome::TimedOut => Some("Request timed out"@),
        RequestOutcome::Failed => Some("Other error"@),
    }
}

/// The response to a command, given what came of its request.
///
/// A reply is answered as [`replied`] describes for the message in it, and
/// refused where it holds none. A request that timed out and one that failed
/// otherwise end the command with the same failure.
pub open spec fn answered(command: Command, outcome: RequestOutcome) -> Result<
    ResponseView,
    BridgeError,
> {
    match outcome {
        RequestOutcome::Reply(body) => match envelope_message(body@) {
            Some(message) => replied(command, message),
            None => Err(BridgeError::MalformedReply),
        },
        RequestOutcome::TimedOut => Err(BridgeError::RequestFailed),
        RequestOutcome::Failed => Err(BridgeError::RequestFailed),
    }
}

/// The bridge of one driver process.
pub struct Handler {
    /// The automation ports given out to devices.
    pub ports: PortManager,
}

fn null_response() -> (r: Response)
    ensures
        r@ == null_answer(),
{
    Response::Generic(ResponseValue::Null)
}

fn text_response(message: &str) -> (r: Response)
    ensures
        r@ == ResponseView::Generic(JsonModel::String(message@)),
{
    Response::Generic(ResponseValue::Text(owned(message)))
}

fn no_params() -> (r: Vec<(String, String)>)
    ensures
        pairs_view(r@) == Seq::<(Seq<char>, Seq<char>)>::empty(),
{
    let r: Vec<(String, String)> = Vec::new();
    assert(pairs_view(r@) =~= Seq::<(Seq<char>, Seq<char>)>::empty());
    r
}

fn one_param(key: &str, value: String) -> (r: Vec<(String, String)>)
    ensures
        pairs_view(r@) == seq![(key@, value@)],
{
    let mut r: Vec<(String, String)> = Vec::new();
    r.push((owned(key), value));
    assert(pairs_view(r@) =~= seq![(key@, value@)]);
    r
}

fn locator_json(using: LocatorStrategy, value: &str) -> (r: Result<String, BridgeError>)
    ensures
        r matches Ok(text) && text@ == locator_text(using, value@),
{
    let quoted = match value_to_string(&string_value(value)) {
        Ok(quoted) => quoted,
        Err(_) => { return Err(BridgeError::UnserializableArgument); },
    };
    let mut out = owned("{\"using\":\"");
    out.append(using.name());
    out.append("\",\"value\":");
    out.append(quoted.as_str());
    out.append("}");
    Ok(out)
}

/// The method and the query parameters of the request that a command leads
/// to; `None` for a command that leads to none.
fn build_request(command: &Command, finder_script: &str) -> (r: Result<
    Option<(String, Vec<(String, String)>)>,
    BridgeError,
>)
    requires
        !lacks_arguments(*command),
    ensures
        r matches Ok(planned) && match planned {
            Some(built) => request_for(*command, finder_script@) == Some(
                (built.0@, pairs_view(built.1@)),
            ),
            None => request_for(*command, finder_script@) is None,
        },
{
    match command {
        Command::Get { url } => Ok(
            Some((owned("navigate"), one_param("url", owned(url.as_str())))),
        ),
        Command::ExecuteScript { script, args } => {
            match args {
                Some(list) => {
                    let texts = match argument_texts(list) {
                        Ok(texts) => texts,
                        Err(e) => { return Err(e); },
                    };
                    let wrapped = wrap_script(script.as_str(), &texts);
                    Ok(Some((owned("execute"), one_param("script", url_encode(wrapped.as_str())))))
                },
                None => Ok(None),
            }
        },
        Command::ExecuteAsyncScript { script, args } => {
            match args {
                Some(list) => {
                    let texts = match argument_texts(list) {
                        Ok(texts) => texts,
                        Err(e) => { return Err(e); },
                    };
                    let wrapped = wrap_async_script(script.as_str(), &texts);
                    Ok(Some((owned("execute"), one_param("script", url_encode(wrapped.as_str())))))
                },
                None => Ok(None),
            }
        },
        Command::FindElement { using, value } => {
            let locator = match locator_json(*using, value.as_str()) {
                Ok(locator) => locator,
                Err(e) => { return Err(e); },
            };
            let mut params: Vec<(String, String)> = Vec::new();
            params.push((owned("script"), url_encode(finder_script)));
            params.push((owned("args"), url_encode(locator.as_str())));
            assert(pairs_view(params@) =~= seq![
                ("script"@, encoded(finder_script@)),
                ("args"@, encoded(locator_text(*using, value@))),
            ]);
            Ok(Some((owned("execute"), params)))
        },
        Command::ElementClick { element } => {
            let script = click_script(element.as_str());
            Ok(Some((owned("execute"), one_param("script", url_encode(script.as_str())))))
        },
        Command::NewWindow => Ok(Some((owned("newWindow"), no_params()))),
        Command::CloseWindow => Ok(Some((owned("closeWindow"), no_params()))),
        Command::SwitchToWindow { handle } => Ok(
            Some((owned("switchToWindow"), one_param("handle", owned(handle.as_str())))),
        ),
        Command::GetWindowHandle => Ok(Some((owned("getWindowHandle"), no_params()))),
        Command::GetWindowHandles => Ok(Some((owned("getWindowHandles"), no_params()))),
        Command::GetCurrentUrl => Ok(Some((owned("getUrl"), no_params()))),
        _ => Ok(None),
    }
}

impl Default for Handler {
    fn default() -> (r: Self)
        ensures
            r.ports@ == Seq::<(Seq<char>, u16)>::empty(),
    {
        Handler::new()
    }
}

impl Handler {
    /// A bridge that has given out no port yet.
    pub fn new() -> (r: Self)
        ensures
            r.ports@ == Seq::<(Seq<char>, u16)>::empty(),
    {
        Handler { ports: PortManager::new() }
    }

    /// The URL to fetch for a request, once the session has its port; `None`
    /// as long as it has none.
    pub fn url_for(&self, request: &AutomationRequest) -> (r: Option<String>)
        ensures
            match port_of(self.ports@, request.session@) {
                Some(port) => r matches Some(url) && url@ == request_text(port, request@),
                None => r is None,
            },
    {
        match self.ports.lookup(request.session.as_str()) {
            Some(port) => Some(request_url(port, request)),
            None => None,
        }
    }

    /// Plans what has to happen for a message: the plan, or the refusal, is
    /// the one that [`planned`] describes.
    pub fn handle_command(
        &self,
        message: &Message,
        finder_script: &str,
        log_level: LogLevel,
    ) -> (r: Result<Plan, BridgeError>)
        ensures
            r matches Ok(plan) ==> planned(*message, finder_script@, log_level) == Ok::<
                PlanView,
                BridgeError,
            >(plan@),
            r matches Err(e) ==> planned(*message, finder_script@, log_level) == Err::<
                PlanView,
                BridgeError,
            >(e),
    {
        match &message.command {
            Command::NewSession => { return Ok(Plan::Provision); },
            Command::Extension(_) => { return Ok(Plan::Respond(null_response())); },
            Command::Other => { return Ok(Plan::Respond(null_response())); },
            Command::ExecuteScript { args, .. } => {
                if args.is_none() {
                    return Err(BridgeError::MissingArguments);
                }
            },
            Command::ExecuteAsyncScript { args, .. } => {
                if args.is_none() {
                    return Err(BridgeError::MissingArguments);
                }
            },
            _ => {},
        }
        let built = match build_request(&message.command, finder_script) {
            Ok(built) => built,
            Err(e) => { return Err(e); },
        };
        let session = match &message.session_id {
            Some(session) => session.clone(),
            None => { return Err(BridgeError::MissingSession); },
        };
        match built {
            Some((method, params)) => {
                let monitor = monitor_simulator_logs(session.as_str(), log_level);
                Ok(Plan::Request(AutomationRequest { session, method, params, monitor }))
            },
            None => Ok(
                Plan::Local { command: shutdown(session.as_str()), response: null_response() },
            ),
        }
    }

    /// Turns what came of a command's request into the response to the
    /// command, or into the failure that the command ends with.
    pub fn handle_outcome(&self, command: &Command, outcome: &RequestOutcome) -> (r: Result<
        Response,
        BridgeError,
    >)
        ensures
            r matches Ok(response) ==> answered(*command, *outcome) == Ok::<
                ResponseView,
                BridgeError,
            >(response@),
            r matches Err(e) ==> answered(*command, *outcome) == Err::<ResponseView, BridgeError>(
                e,
            ),
    {
        match outcome {
            RequestOutcome::Reply(body) => match reply_message(body.as_str()) {
                Ok(message) => self.handle_reply(command, message.as_str()),
                Err(e) => Err(e),
            },
            RequestOutcome::TimedOut => Err(BridgeError::RequestFailed),
            RequestOutcome::Failed => Err(BridgeError::RequestFailed),
        }
    }

    /// Turns the message that the automation server replied with into the
    /// response to the command.
    pub fn handle_reply(&self, command: &Command, message: &str) -> (r: Result<
        Response,
        BridgeError,
    >)
        ensures
            r matches Ok(response) ==> replied(*command, message@) == Ok::<
                ResponseView,
                BridgeError,
            >(response@),
            r matches Err(e) ==> replied(*command, message@) == Err::<ResponseView, BridgeError>(e),
    {
        match command {
            Command::Get { .. } => Ok(Response::Void),
            Command::ElementClick { .. } => Ok(Response::Void),
            Command::CloseWindow => Ok(Response::Void),
            Command::SwitchToWindow { .. } => Ok(Response::Void),
            Command::ExecuteScript { .. } => Ok(text_response(message)),
            Command::GetWindowHandle => Ok(text_response(message)),
            Command::GetCurrentUrl => Ok(text_response(message)),
            Command::ExecuteAsyncScript { .. } => match parse_value(message) {
                Ok(value) => Ok(Response::Generic(ResponseValue::Json(value))),
                Err(_) => Err(BridgeError::InvalidJson),
            },
            Command::FindElement { .. } => {
                let mut members: Vec<(String, String)> = Vec::new();
                members.push((owned(ELEMENT_KEY), owned(message)));
                assert(text_object(members@)->Object_0 =~= seq![
                    (ELEMENT_KEY@, JsonModel::String(message@)),
                ]);
                Ok(Response::Generic(ResponseValue::Object(members)))
            },
            Command::NewWindow => new_window(message),
            Command::GetWindowHandles => window_handles(message),
            _ => Err(BridgeError::UnexpectedReply),
        }
    }
}

/// What a failed request is called in the log; nothing for a reply.
pub fn failure_text(outcome: &RequestOutcome) -> (r: Option<String>)
    ensures
        r is Some <==> failure_name(*outcome) is Some,
        r matches Some(text) ==> failure_name(*outcome) == Some(text@),
{
    match outcome {
        RequestOutcome::Reply(_) => None,
        RequestOutcome::TimedOut => Some(owned("Request timed out")),
        RequestOutcome::Failed => Some(owned("Other error")),
    }
}

fn new_window(message: &str) -> (r: Result<Response, BridgeError>)
    ensures
        r matches Ok(response) ==> window_of(message@) == Ok::<ResponseView, BridgeError>(
            response@,
        ),
        r matches Err(e) ==> window_of(message@) == Err::<ResponseView, BridgeError>(e),
{
    let document = match parse_value(message) {
        Ok(document) => document,
        Err(_) => { return Err(BridgeError::InvalidWindow); },
    };
    let handle = match get_text(&document, "handle") {
        Some(handle) => handle,
        None => { return Err(BridgeError::InvalidWindow); },
    };
    let typ = match get_text(&document, "type") {
        Some(typ) => typ,
        None => { return Err(BridgeError::InvalidWindow); },
    };
    Ok(Response::NewWindow { handle, typ })
}

fn window_handles(message: &str) -> (r: Result<Response, BridgeError>)
    ensures
        r matches Ok(response) ==> handles_of(message@) == Ok::<ResponseView, BridgeError>(
            response@,
        ),
        r matches Err(e) ==> handles_of(message@) == Err::<ResponseView, BridgeError>(e),
{
    let document = match parse_value(message) {
        Ok(document) => document,
        Err(_) => { return Err(BridgeError::InvalidWindowList); },
    };
    match get_text_list(&document) {
        Some(handles) => {
            assert(text_array(handles@)->Array_0 =~= Seq::new(
                handles.deep_view().len(),
                |i: int| JsonModel::String(handles.deep_view()[i]),
            ));
            Ok(Response::Generic(ResponseValue::TextList(handles)))
        },
        None => Err(BridgeError::InvalidWindowList),
    }
}

/// Takes the message out of a reply of the automation server: the string
/// member `message` of the JSON object that the reply holds.
pub fn reply_message(body: &str) -> (r: Result<String, BridgeError>)
    ensures
        match r {
            Ok(message) => envelope_message(body@) == Some(message@),
            Err(e) => envelope_message(body@) is None && e == BridgeError::MalformedReply,
        },
{
    let document = match parse_value(body) {
        Ok(document) => document,
        Err(_) => { return Err(BridgeError::MalformedReply); },
    };
    match get_text(&document, "message") {
        Some(message) => Ok(message),
        None => Err(BridgeError::MalformedReply),
    }
}

/// The URL to fetch for a request, when the session's automation server
/// listens on `port`.
pub fn request_url(port: u16, request: &AutomationRequest) -> (r: String)
    ensures
        r@ == request_text(port, request@),
{
    let mut pairs: Vec<String> = Vec::new();
    let mut i: usize = 0;
    while i < request.params.len()
        invariant
            i <= request.params.len(),
            pairs.len() == i,
            forall|j: int|
                0 <= j < i ==> (#[trigger] pairs[j])@ == query_pair(pairs_view(request.params@)[j]),
        decreases request.params.len() - i,
    {
        let mut pair = owned(request.params[i].0.as_str());
        pair.append("=");
        pair.append(request.params[i].1.as_str());
        pairs.push(pair);
        i += 1;
    }
    assert(pairs.deep_view() =~= Seq::new(
        request@.params.len(),
        |i: int| query_pair(request@.params[i]),
    ));
    let query = join(&pairs, "&");
    let port_text = decimal_text(port);
    let mut out = owned(SERVER);
    out.append(port_text.as_str());
    out.append("/");
    out.append(request.method.as_str());
    out.append("?");
    out.append(query.as_str());
    out
}

} // verus!
