//! The ways in which a command can fail inside the bridge.

use vstd::prelude::*;

verus! {

/// Why a command could not be turned into a request, or a reply into a
/// response.
#[derive(Clone, Copy, Debug, PartialEq, Eq, Structural)]
pub enum BridgeError {
    /// The command needs a session and the message names none.
    MissingSession,
    /// A script command came without an argument list.
    MissingArguments,
    /// The JSON writer reported an error for a value. It writes every value
    /// that can be held, so no command ends this way.
    UnserializableArgument,
    /// The automation server's reply is not a JSON object with a string
    /// member `message`.
    MalformedReply,
    /// The result of an asynchronous script is not JSON.
    InvalidJson,
    /// The description of a new window is not a JSON object with string
    /// members `handle` and `type`.
    InvalidWindow,
    /// The list of window handles is not a JSON array of strings.
    InvalidWindowList,
    /// A reply was handed in for a command that sends no request.
    UnexpectedReply,
    /// The request to the automation server brought no reply: it timed out,
    /// or it could not be sent or read.
    RequestFailed,
}

} // verus!
