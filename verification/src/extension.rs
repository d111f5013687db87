//! The vendor extension of the command protocol.

use crate::command::Command;
use vstd::prelude::*;

verus! {

/// The extension routes this driver answers.
#[derive(Clone, Copy, PartialEq, Eq, Debug, Structural)]
pub enum DuckDuckGoExtensionRoute {
    GetContext,
}

/// The extension commands this driver knows.
#[derive(Clone, Copy, PartialEq, Eq, Debug, Structural)]
pub enum DuckDuckGoExtensionCommand {
    GetContext,
}

/// The part of the browser a command is aimed at.
#[derive(Clone, Copy, Debug, PartialEq, Eq, Structural)]
pub enum DuckDuckGoContext {
    Content,
    Chrome,
}

/// The parameters of a change of context.
#[derive(Clone, Copy, Debug, PartialEq, Eq, Structural)]
pub struct DuckDuckGoContextParameters {}

/// The extension command set of a driver that has no extensions.
#[derive(Clone, Copy, Debug)]
pub struct VoidWebDriverExtensionCommand;

/// Where an add-on is installed from, and how.
#[derive(Clone, Debug, PartialEq, Eq)]
pub struct AddonPath {
    pub path: String,
    pub temporary: Option<bool>,
    pub allow_private_browsing: Option<bool>,
}

/// Which add-on to remove.
#[derive(Clone, Debug, PartialEq, Eq)]
pub struct AddonUninstallParameters {
    pub id: String,
}

impl DuckDuckGoExtensionRoute {
    /// The command that a route stands for.
    pub fn command(&self) -> (r: Command)
        ensures
            r == Command::Extension(
                match *self {
                    DuckDuckGoExtensionRoute::GetContext => DuckDuckGoExtensionCommand::GetContext,
                },
            ),
    {
        match *self {
            DuckDuckGoExtensionRoute::GetContext => Command::Extension(
                DuckDuckGoExtensionCommand::GetContext,
            ),
        }
    }
}

impl DuckDuckGoExtensionCommand {
    /// The parameters that a command carries on the wire: none.
    pub fn parameters_json(&self) -> (r: Option<serde_json::Value>)
        ensures
            r is None,
    {
        match *self {
            DuckDuckGoExtensionCommand::GetContext => None,
        }
    }
}

} // verus!
